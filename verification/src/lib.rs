//! Pixels and what can be done with one of them: conversion between pixel
//! formats and Porter-Duff compositing.
//!
//! A pixel is a few [channels](chan::Channel) under a format: a channel type,
//! a [color model](model::ColorModel), an [alpha mode](chan::Alpha) and a
//! [gamma mode](chan::Gamma).  The format is part of the pixel's type and
//! takes no memory.  [el] holds the pixel types, their conversion and their
//! compositing; [laws] states what holds of both for every pixel.
pub mod alpha;
pub mod chan;
pub mod el;
pub mod gray;
pub mod laws;
pub mod matte;
pub mod model;
pub mod ops;
pub mod rgb;
pub mod srgb;

pub use model::ColorModel;
