//! Matte pixel formats: alpha alone.
use crate::chan::{Ch16, Ch8, Linear, Premultiplied};
use crate::el::Pix1;
use crate::model::Matte;
use vstd::prelude::*;

verus! {

/// Matte 8-bit alpha pixel format.
pub type Matte8 = Pix1<Ch8, Matte, Premultiplied, Linear>;

/// Matte 16-bit alpha pixel format.
pub type Matte16 = Pix1<Ch16, Matte, Premultiplied, Linear>;

} // verus!
