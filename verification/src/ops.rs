//! Porter-Duff compositing operators.
//!
//! An operator blends one channel of a premultiplied source into the same
//! channel of a premultiplied destination.  Besides the two values it is given
//! what each pixel leaves uncovered: `da1` is the maximum less the
//! destination's alpha, `sa1` the maximum less the source's.
use crate::chan::{add_of, complement_of, min_of, mul_of, Channel};
use vstd::prelude::*;

verus! {

/// A rule for blending a source channel into a destination channel.
pub trait PorterDuff<C: Channel>: Copy + Sized {
    /// The blend of `dst` and `src`.
    closed spec fn composite_spec(dst: C, da1: C, src: C, sa1: C) -> C {
        arbitrary()
    }

    /// Blend `src` into `dst`.
    fn composite(dst: &mut C, da1: C, src: &C, sa1: C)
        ensures
            *final(dst) == Self::composite_spec(*old(dst), da1, *src, sa1),
    ;
}

/// The source replaces the destination.
#[derive(Clone, Copy, Debug, Default, PartialEq, Eq)]
pub struct Src;

impl<C: Channel> PorterDuff<C> for Src {
    open spec fn composite_spec(dst: C, da1: C, src: C, sa1: C) -> C {
        src
    }

    fn composite(dst: &mut C, da1: C, src: &C, sa1: C) {
        *dst = *src;
    }
}

/// The destination stays as it is.
#[derive(Clone, Copy, Debug, Default, PartialEq, Eq)]
pub struct Dest;

impl<C: Channel> PorterDuff<C> for Dest {
    open spec fn composite_spec(dst: C, da1: C, src: C, sa1: C) -> C {
        dst
    }

    fn composite(dst: &mut C, da1: C, src: &C, sa1: C) {
    }
}

/// The source lies over the destination.
#[derive(Clone, Copy, Debug, Default, PartialEq, Eq)]
pub struct SrcOver;

impl<C: Channel> PorterDuff<C> for SrcOver {
    open spec fn composite_spec(dst: C, da1: C, src: C, sa1: C) -> C {
        add_of(src, mul_of(dst, sa1))
    }

    fn composite(dst: &mut C, da1: C, src: &C, sa1: C) {
        *dst = src.add(dst.mul(sa1));
    }
}

/// The destination lies over the source.
#[derive(Clone, Copy, Debug, Default, PartialEq, Eq)]
pub struct DestOver;

impl<C: Channel> PorterDuff<C> for DestOver {
    open spec fn composite_spec(dst: C, da1: C, src: C, sa1: C) -> C {
        add_of(mul_of(src, da1), dst)
    }

    fn composite(dst: &mut C, da1: C, src: &C, sa1: C) {
        *dst = src.mul(da1).add(*dst);
    }
}

/// The source where the destination does not cover.
#[derive(Clone, Copy, Debug, Default, PartialEq, Eq)]
pub struct SrcOut;

impl<C: Channel> PorterDuff<C> for SrcOut {
    open spec fn composite_spec(dst: C, da1: C, src: C, sa1: C) -> C {
        mul_of(src, da1)
    }

    fn composite(dst: &mut C, da1: C, src: &C, sa1: C) {
        *dst = src.mul(da1);
    }
}

/// The destination where the source does not cover.
#[derive(Clone, Copy, Debug, Default, PartialEq, Eq)]
pub struct DestOut;

impl<C: Channel> PorterDuff<C> for DestOut {
    open spec fn composite_spec(dst: C, da1: C, src: C, sa1: C) -> C {
        mul_of(dst, sa1)
    }

    fn composite(dst: &mut C, da1: C, src: &C, sa1: C) {
        *dst = dst.mul(sa1);
    }
}

/// The source where the destination covers.
#[derive(Clone, Copy, Debug, Default, PartialEq, Eq)]
pub struct SrcIn;

impl<C: Channel> PorterDuff<C> for SrcIn {
    open spec fn composite_spec(dst: C, da1: C, src: C, sa1: C) -> C {
        mul_of(src, complement_of(da1))
    }

    fn composite(dst: &mut C, da1: C, src: &C, sa1: C) {
        *dst = src.mul(C::maximum().sub(da1));
    }
}

/// The destination where the source covers.
#[derive(Clone, Copy, Debug, Default, PartialEq, Eq)]
pub struct DestIn;

impl<C: Channel> PorterDuff<C> for DestIn {
    open spec fn composite_spec(dst: C, da1: C, src: C, sa1: C) -> C {
        mul_of(dst, complement_of(sa1))
    }

    fn composite(dst: &mut C, da1: C, src: &C, sa1: C) {
        *dst = dst.mul(C::maximum().sub(sa1));
    }
}

/// The source where the destination covers, over the destination.
#[derive(Clone, Copy, Debug, Default, PartialEq, Eq)]
pub struct SrcAtop;

impl<C: Channel> PorterDuff<C> for SrcAtop {
    open spec fn composite_spec(dst: C, da1: C, src: C, sa1: C) -> C {
        add_of(mul_of(src, complement_of(da1)), mul_of(dst, sa1))
    }

    fn composite(dst: &mut C, da1: C, src: &C, sa1: C) {
        *dst = src.mul(C::maximum().sub(da1)).add(dst.mul(sa1));
    }
}

/// The destination where the source covers, over the source.
#[derive(Clone, Copy, Debug, Default, PartialEq, Eq)]
pub struct DestAtop;

impl<C: Channel> PorterDuff<C> for DestAtop {
    open spec fn composite_spec(dst: C, da1: C, src: C, sa1: C) -> C {
        add_of(mul_of(src, da1), mul_of(dst, complement_of(sa1)))
    }

    fn composite(dst: &mut C, da1: C, src: &C, sa1: C) {
        *dst = src.mul(da1).add(dst.mul(C::maximum().sub(sa1)));
    }
}

/// Each of the two where the other does not cover.
#[derive(Clone, Copy, Debug, Default, PartialEq, Eq)]
pub struct Xor;

impl<C: Channel> PorterDuff<C> for Xor {
    open spec fn composite_spec(dst: C, da1: C, src: C, sa1: C) -> C {
        add_of(mul_of(src, da1), mul_of(dst, sa1))
    }

    fn composite(dst: &mut C, da1: C, src: &C, sa1: C) {
        *dst = src.mul(da1).add(dst.mul(sa1));
    }
}

/// Nothing is left of either.
#[derive(Clone, Copy, Debug, Default, PartialEq, Eq)]
pub struct Clear;

impl<C: Channel> PorterDuff<C> for Clear {
    open spec fn composite_spec(dst: C, da1: C, src: C, sa1: C) -> C {
        min_of::<C>()
    }

    fn composite(dst: &mut C, da1: C, src: &C, sa1: C) {
        *dst = C::minimum();
    }
}

/// The saturating sum of the two.
#[derive(Clone, Copy, Debug, Default, PartialEq, Eq)]
pub struct Plus;

impl<C: Channel> PorterDuff<C> for Plus {
    open spec fn composite_spec(dst: C, da1: C, src: C, sa1: C) -> C {
        add_of(src, dst)
    }

    fn composite(dst: &mut C, da1: C, src: &C, sa1: C) {
        *dst = src.add(*dst);
    }
}

} // verus!
