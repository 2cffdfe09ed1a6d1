//! Color models: what the channels of a pixel mean.
use crate::chan::{greater_of, max_of, Channel};
use vstd::prelude::*;

verus! {

/// The color models that pixels can have.
#[derive(Clone, Copy, Debug, PartialEq, Eq, Structural)]
pub enum ModelKind {
    /// Red, green and blue, with optional alpha.
    Rgb,
    /// A single gray value, with optional alpha.
    Gray,
    /// Alpha alone.
    Matte,
}

/// Channel `i` of `ch`, or the channel maximum where `ch` has no such channel.
pub open spec fn nth_or_max<C: Channel>(ch: Seq<C>, i: int) -> C {
    if 0 <= i < ch.len() {
        ch[i]
    } else {
        max_of::<C>()
    }
}

/// Red, green, blue and alpha of the channels `ch` of a pixel of some model.
///
/// A channel that the pixel lacks counts as the maximum.  Gray gives its value
/// to all three colors; a matte is white under its alpha.
pub open spec fn into_rgba_spec<C: Channel>(kind: ModelKind, ch: Seq<C>) -> Seq<C> {
    match kind {
        ModelKind::Rgb => seq![
            nth_or_max(ch, 0),
            nth_or_max(ch, 1),
            nth_or_max(ch, 2),
            nth_or_max(ch, 3),
        ],
        ModelKind::Gray => seq![
            nth_or_max(ch, 0),
            nth_or_max(ch, 0),
            nth_or_max(ch, 0),
            nth_or_max(ch, 1),
        ],
        ModelKind::Matte => seq![max_of::<C>(), max_of::<C>(), max_of::<C>(), nth_or_max(ch, 0)],
    }
}

/// The channels of a pixel of some model, at the front of four, made from
/// red, green, blue and alpha.
///
/// Gray takes the most intense of the three colors; a matte keeps the alpha
/// alone.  Places behind the model's last channel hold the maximum.
pub open spec fn from_rgba_spec<C: Channel>(kind: ModelKind, rgba: Seq<C>) -> Seq<C>
    recommends
        rgba.len() == 4,
{
    match kind {
        ModelKind::Rgb => seq![rgba[0], rgba[1], rgba[2], rgba[3]],
        ModelKind::Gray => seq![
            greater_of(greater_of(rgba[0], rgba[1]), rgba[2]),
            rgba[3],
            max_of::<C>(),
            max_of::<C>(),
        ],
        ModelKind::Matte => seq![rgba[3], max_of::<C>(), max_of::<C>(), max_of::<C>()],
    }
}

/// Channel `i` of a slice, or the channel maximum where there is none.
pub fn get_or_max<C: Channel>(ch: &[C], i: usize) -> (r: C)
    ensures
        r == nth_or_max(ch@, i as int),
{
    if i < ch.len() {
        ch[i]
    } else {
        C::maximum()
    }
}

/// Layout of a pixel's channels, and its conversion to and from red, green,
/// blue and alpha.
pub trait ColorModel: Copy + Sized {
    /// Which model this is.
    const KIND: ModelKind;

    /// Index of the alpha channel.  A pixel with no more channels than this
    /// has no alpha channel.
    const ALPHA: usize;

    /// Index of the first color channel.
    const LINEAR_START: usize;

    /// Index behind the last color channel.
    const LINEAR_END: usize;

    /// The color channels are a range, and alpha is none of them.
    proof fn lemma_layout()
        ensures
            Self::LINEAR_START <= Self::LINEAR_END,
            !(Self::LINEAR_START <= Self::ALPHA < Self::LINEAR_END),
    ;

    /// Convert channels of this model to red, green, blue and alpha.
    fn into_rgba<C: Channel>(ch: &[C]) -> (r: [C; 4])
        ensures
            r@ == into_rgba_spec(Self::KIND, ch@),
    ;

    /// Convert red, green, blue and alpha to channels of this model.
    fn from_rgba<C: Channel>(rgba: &[C; 4]) -> (r: [C; 4])
        ensures
            r@ == from_rgba_spec(Self::KIND, rgba@),
    ;
}

/// RGB color model.
#[derive(Clone, Copy, Debug, Default, PartialEq, Eq)]
pub struct Rgb;

impl ColorModel for Rgb {
    const KIND: ModelKind = ModelKind::Rgb;

    const ALPHA: usize = 3;

    const LINEAR_START: usize = 0;

    const LINEAR_END: usize = 3;

    proof fn lemma_layout() {
    }

    fn into_rgba<C: Channel>(ch: &[C]) -> (r: [C; 4]) {
        let r = [get_or_max(ch, 0), get_or_max(ch, 1), get_or_max(ch, 2), get_or_max(ch, 3)];
        assert(r@ =~= into_rgba_spec(Self::KIND, ch@));
        r
    }

    fn from_rgba<C: Channel>(rgba: &[C; 4]) -> (r: [C; 4]) {
        let r = [rgba[0], rgba[1], rgba[2], rgba[3]];
        assert(r@ =~= from_rgba_spec(Self::KIND, rgba@));
        r
    }
}

/// Gray color model.
#[derive(Clone, Copy, Debug, Default, PartialEq, Eq)]
pub struct Gray;

impl ColorModel for Gray {
    const KIND: ModelKind = ModelKind::Gray;

    const ALPHA: usize = 1;

    const LINEAR_START: usize = 0;

    const LINEAR_END: usize = 1;

    proof fn lemma_layout() {
    }

    fn into_rgba<C: Channel>(ch: &[C]) -> (r: [C; 4]) {
        let value = get_or_max(ch, 0);
        let r = [value, value, value, get_or_max(ch, 1)];
        assert(r@ =~= into_rgba_spec(Self::KIND, ch@));
        r
    }

    fn from_rgba<C: Channel>(rgba: &[C; 4]) -> (r: [C; 4]) {
        let mut value = rgba[0];
        if value.le(rgba[1]) {
            value = rgba[1];
        }
        if value.le(rgba[2]) {
            value = rgba[2];
        }
        let r = [value, rgba[3], C::maximum(), C::maximum()];
        assert(r@ =~= from_rgba_spec(Self::KIND, rgba@));
        r
    }
}

/// Matte color model: alpha alone.
#[derive(Clone, Copy, Debug, Default, PartialEq, Eq)]
pub struct Matte;

impl ColorModel for Matte {
    const KIND: ModelKind = ModelKind::Matte;

    const ALPHA: usize = 0;

    const LINEAR_START: usize = 0;

    const LINEAR_END: usize = 0;

    proof fn lemma_layout() {
    }

    fn into_rgba<C: Channel>(ch: &[C]) -> (r: [C; 4]) {
        let r = [C::maximum(), C::maximum(), C::maximum(), get_or_max(ch, 0)];
        assert(r@ =~= into_rgba_spec(Self::KIND, ch@));
        r
    }

    fn from_rgba<C: Channel>(rgba: &[C; 4]) -> (r: [C; 4]) {
        let r = [rgba[3], C::maximum(), C::maximum(), C::maximum()];
        assert(r@ =~= from_rgba_spec(Self::KIND, rgba@));
        r
    }
}

/// What each color model declares.
pub proof fn lemma_models()
    ensures
        Rgb::KIND == ModelKind::Rgb,
        Rgb::ALPHA == 3,
        Rgb::LINEAR_START == 0,
        Rgb::LINEAR_END == 3,
        Gray::KIND == ModelKind::Gray,
        Gray::ALPHA == 1,
        Gray::LINEAR_START == 0,
        Gray::LINEAR_END == 1,
        Matte::KIND == ModelKind::Matte,
        Matte::ALPHA == 0,
        Matte::LINEAR_START == 0,
        Matte::LINEAR_END == 0,
{
}

} // verus!
