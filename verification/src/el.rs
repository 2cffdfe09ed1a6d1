//! Pixels: a few channels tagged with a color model, an alpha mode and a
//! gamma mode; conversion between pixel formats; compositing of
//! premultiplied pixels.
use crate::chan::{
    alpha_decode, alpha_encode, complement_of, gamma_from_linear, gamma_to_linear, mul_of, Alpha,
    AlphaMode, Channel, FromChannel, Gamma, GammaMode, Premultiplied,
};
use crate::model::{
    from_rgba_spec, get_or_max, into_rgba_spec, lemma_models, nth_or_max, ColorModel, Matte, Rgb,
};
use crate::ops::PorterDuff;
use std::marker::PhantomData;
use vstd::prelude::*;
use vstd::std_specs::convert::FromSpec;

verus! {

/// The color channels `start..end` of `dst`, each blended with the same
/// channel of `src`; the other channels of `dst` as they are.
pub open spec fn composite_colors<C: Channel, O: PorterDuff<C>>(
    dst: Seq<C>,
    da1: C,
    src: Seq<C>,
    sa1: C,
    start: int,
    end: int,
) -> Seq<C> {
    Seq::new(
        dst.len(),
        |i: int|
            if start <= i < end && i < src.len() {
                O::composite_spec(dst[i], da1, src[i], sa1)
            } else {
                dst[i]
            },
    )
}

/// The channels of a destination pixel after its color channels `start..end`,
/// and then its channel `alpha`, were blended with those of `src`.
///
/// `da1` and `sa1` are what destination and source leave uncovered.
pub open spec fn blend<C: Channel, O: PorterDuff<C>>(
    dst: Seq<C>,
    da1: C,
    src: Seq<C>,
    sa1: C,
    start: int,
    end: int,
    alpha: int,
) -> Seq<C> {
    let colors = composite_colors::<C, O>(dst, da1, src, sa1, start, end);
    colors.update(alpha, O::composite_spec(colors[alpha], da1, nth_or_max(src, alpha), sa1))
}

/// The channels of `dst` after the pixel `src` was composited onto it.
pub open spec fn composite_channels_spec<C: Channel, O: PorterDuff<C>>(
    dst: Seq<C>,
    src: Seq<C>,
    start: int,
    end: int,
    alpha: int,
) -> Seq<C> {
    blend::<C, O>(
        dst,
        complement_of(nth_or_max(dst, alpha)),
        src,
        complement_of(nth_or_max(src, alpha)),
        start,
        end,
        alpha,
    )
}

/// Every channel of `src` multiplied by `matte`.
pub open spec fn scaled<C: Channel>(src: Seq<C>, matte: C) -> Seq<C> {
    Seq::new(src.len(), |i: int| mul_of(src[i], matte))
}

/// The channels of `dst` after the color `src`, scaled by the coverage
/// `matte`, was composited onto it: what compositing the scaled color as a
/// pixel gives.
pub open spec fn composite_channels_matte_spec<C: Channel, O: PorterDuff<C>>(
    dst: Seq<C>,
    matte: C,
    src: Seq<C>,
    start: int,
    end: int,
    alpha: int,
) -> Seq<C> {
    composite_channels_spec::<C, O>(dst, scaled(src, matte), start, end, alpha)
}

/// Blend the color channels `start..end` of `src` into those of `dst`.
fn composite_range<C: Channel, O: PorterDuff<C>>(
    dst: &mut [C],
    da1: C,
    src: &[C],
    sa1: C,
    start: usize,
    end: usize,
)
    ensures
        final(dst)@ == composite_colors::<C, O>(
            old(dst)@,
            da1,
            src@,
            sa1,
            start as int,
            end as int,
        ),
{
    let ghost orig = dst@;
    let mut stop = end;
    if dst.len() < stop {
        stop = dst.len();
    }
    if src.len() < stop {
        stop = src.len();
    }
    let mut i = start;
    while i < stop
        invariant
            dst@.len() == orig.len(),
            stop <= dst@.len(),
            stop <= src@.len(),
            stop <= end,
            start <= i,
            i <= stop || i == start,
            forall|j: int|
                0 <= j < dst@.len() ==> dst@[j] == (if start <= j < i {
                    O::composite_spec(orig[j], da1, src@[j], sa1)
                } else {
                    orig[j]
                }),
        decreases stop - i,
    {
        let mut d = dst[i];
        O::composite(&mut d, da1, &src[i], sa1);
        dst[i] = d;
        i += 1;
    }
    assert(dst@ =~= composite_colors::<C, O>(orig, da1, src@, sa1, start as int, end as int));
}

/// Blend the color channels `start..end` of `src`, scaled by `matte`, into
/// those of `dst`.
fn composite_range_matte<C: Channel, O: PorterDuff<C>>(
    dst: &mut [C],
    da1: C,
    matte: C,
    src: &[C],
    sa1: C,
    start: usize,
    end: usize,
)
    ensures
        final(dst)@ == composite_colors::<C, O>(
            old(dst)@,
            da1,
            scaled(src@, matte),
            sa1,
            start as int,
            end as int,
        ),
{
    let ghost orig = dst@;
    let mut stop = end;
    if dst.len() < stop {
        stop = dst.len();
    }
    if src.len() < stop {
        stop = src.len();
    }
    let mut i = start;
    while i < stop
        invariant
            dst@.len() == orig.len(),
            stop <= dst@.len(),
            stop <= src@.len(),
            stop <= end,
            start <= i,
            i <= stop || i == start,
            forall|j: int|
                0 <= j < dst@.len() ==> dst@[j] == (if start <= j < i {
                    O::composite_spec(orig[j], da1, mul_of(src@[j], matte), sa1)
                } else {
                    orig[j]
                }),
        decreases stop - i,
    {
        let mut d = dst[i];
        let s = src[i].mul(matte);
        O::composite(&mut d, da1, &s, sa1);
        dst[i] = d;
        i += 1;
    }
    assert(dst@ =~= composite_colors::<C, O>(
        orig,
        da1,
        scaled(src@, matte),
        sa1,
        start as int,
        end as int,
    ));
}

/// Pixel format: channel type, color model, alpha mode and gamma mode.
///
/// A pixel is a fixed number of channels; what each one means is up to the
/// color model.  Its view is the sequence of its channels.
pub trait Pixel: Copy + Sized {
    /// Channel type
    type Chan: Channel;

    /// Color model
    type Model: ColorModel;

    /// Alpha mode
    type Alpha: Alpha;

    /// Gamma mode
    type Gamma: Gamma;

    /// The channels.
    spec fn view(&self) -> Seq<Self::Chan>;

    /// Number of channels.
    spec fn arity() -> nat;

    /// No pixel has more than four channels.
    proof fn lemma_arity()
        ensures
            Self::arity() <= 4,
    ;

    /// Every pixel of a format has as many channels as the format says.
    proof fn lemma_view(&self)
        ensures
            self@.len() == Self::arity(),
    ;

    /// Two pixels of a format with the same channels are the same pixel.
    proof fn lemma_same_channels(self, other: Self)
        requires
            self@ == other@,
        ensures
            self == other,
    ;

    /// Make a pixel from a slice of channels, which must hold at least as
    /// many as the pixel has.  Those behind are ignored.
    fn from_channels(ch: &[Self::Chan]) -> (r: Self)
        requires
            ch@.len() >= Self::arity(),
        ensures
            r@ == ch@.take(Self::arity() as int),
    ;

    /// Get the channels.
    fn channels(&self) -> (r: &[Self::Chan])
        ensures
            r@ == self@,
    ;

    /// Get the channels mutably.
    fn channels_mut(&mut self) -> (r: &mut [Self::Chan])
        ensures
            r@ == old(self)@,
            final(self)@ == final(r)@,
    ;

    /// Get the first channel, or the maximum where the pixel has none.
    fn one(self) -> (r: Self::Chan)
        ensures
            r == nth_or_max(self@, 0),
    {
        get_or_max(self.channels(), 0)
    }

    /// Get a mutable reference to the first channel, which the pixel must
    /// have.
    fn one_mut(&mut self) -> (r: &mut Self::Chan)
        requires
            0 < old(self)@.len(),
        ensures
            *r == old(self)@[0],
            final(self)@ == old(self)@.update(0, *final(r)),
    {
        &mut self.channels_mut()[0]
    }

    /// Get the second channel, or the maximum where the pixel has none.
    fn two(self) -> (r: Self::Chan)
        ensures
            r == nth_or_max(self@, 1),
    {
        get_or_max(self.channels(), 1)
    }

    /// Get a mutable reference to the second channel, which the pixel must
    /// have.
    fn two_mut(&mut self) -> (r: &mut Self::Chan)
        requires
            1 < old(self)@.len(),
        ensures
            *r == old(self)@[1],
            final(self)@ == old(self)@.update(1, *final(r)),
    {
        &mut self.channels_mut()[1]
    }

    /// Get the third channel, or the maximum where the pixel has none.
    fn three(self) -> (r: Self::Chan)
        ensures
            r == nth_or_max(self@, 2),
    {
        get_or_max(self.channels(), 2)
    }

    /// Get a mutable reference to the third channel, which the pixel must
    /// have.
    fn three_mut(&mut self) -> (r: &mut Self::Chan)
        requires
            2 < old(self)@.len(),
        ensures
            *r == old(self)@[2],
            final(self)@ == old(self)@.update(2, *final(r)),
    {
        &mut self.channels_mut()[2]
    }

    /// Get the fourth channel, or the maximum where the pixel has none.
    fn four(self) -> (r: Self::Chan)
        ensures
            r == nth_or_max(self@, 3),
    {
        get_or_max(self.channels(), 3)
    }

    /// Get a mutable reference to the fourth channel, which the pixel must
    /// have.
    fn four_mut(&mut self) -> (r: &mut Self::Chan)
        requires
            3 < old(self)@.len(),
        ensures
            *r == old(self)@[3],
            final(self)@ == old(self)@.update(3, *final(r)),
    {
        &mut self.channels_mut()[3]
    }

    /// Get the *alpha* channel, or the maximum where the pixel has none.
    fn alpha(self) -> (r: Self::Chan)
        ensures
            r == nth_or_max(self@, Self::Model::ALPHA as int),
    {
        get_or_max(self.channels(), Self::Model::ALPHA)
    }

    /// Get a mutable reference to the *alpha* channel, which the pixel must
    /// have.
    fn alpha_mut(&mut self) -> (r: &mut Self::Chan)
        requires
            Self::Model::ALPHA < old(self)@.len(),
        ensures
            *r == old(self)@[Self::Model::ALPHA as int],
            final(self)@ == old(self)@.update(Self::Model::ALPHA as int, *final(r)),
    {
        &mut self.channels_mut()[Self::Model::ALPHA]
    }

    /// Copy a color to a pixel slice
    fn copy_color(dst: &mut [Self], clr: &Self)
        ensures
            final(dst)@.len() == old(dst)@.len(),
            forall|i: int| 0 <= i < old(dst)@.len() ==> final(dst)@[i] == *clr,
    {
        let n = dst.len();
        let mut i: usize = 0;
        while i < n
            invariant
                dst@.len() == n,
                i <= n,
                forall|j: int| 0 <= j < i ==> dst@[j] == *clr,
            decreases n - i,
        {
            dst[i] = *clr;
            i += 1;
        }
    }

    /// Copy a slice to another, as far as the shorter of the two reaches
    fn copy_slice(dst: &mut [Self], src: &[Self])
        ensures
            final(dst)@.len() == old(dst)@.len(),
            forall|i: int|
                0 <= i < old(dst)@.len() ==> final(dst)@[i] == (if i < src@.len() {
                    src@[i]
                } else {
                    old(dst)@[i]
                }),
    {
        let ghost orig = dst@;
        let mut n = dst.len();
        if src.len() < n {
            n = src.len();
        }
        let mut i: usize = 0;
        while i < n
            invariant
                dst@.len() == orig.len(),
                n <= dst@.len(),
                n <= src@.len(),
                i <= n,
                forall|j: int|
                    0 <= j < dst@.len() ==> dst@[j] == (if j < i {
                        src@[j]
                    } else {
                        orig[j]
                    }),
            decreases n - i,
        {
            dst[i] = src[i];
            i += 1;
        }
    }
}

/// Porter-Duff compositing, for pixel formats with premultiplied alpha.
///
/// A pixel that is composited onto must have an alpha channel; a slice none
/// of whose pixels is reached asks nothing.  A pixel's color channels are
/// those that its color model declares; channels outside them, other than
/// alpha, are left as they are.
pub trait Composite: Pixel<Alpha = Premultiplied> {
    /// Composite a color with each pixel of a slice
    fn composite_color<O>(dst: &mut [Self], clr: &Self, op: O) where
        O: PorterDuff<Self::Chan>,

        requires
            old(dst)@.len() > 0 ==> Self::Model::ALPHA < Self::arity(),
        ensures
            final(dst)@.len() == old(dst)@.len(),
            forall|i: int|
                0 <= i < old(dst)@.len() ==> (#[trigger] final(dst)@[i])@
                    == composite_channels_spec::<Self::Chan, O>(
                    old(dst)@[i]@,
                    clr@,
                    Self::Model::LINEAR_START as int,
                    Self::Model::LINEAR_END as int,
                    Self::Model::ALPHA as int,
                ),
    {
        let ghost orig = dst@;
        let n = dst.len();
        let mut i: usize = 0;
        while i < n
            invariant
                n > 0 ==> Self::Model::ALPHA < Self::arity(),
                dst@.len() == n,
                orig.len() == n,
                i <= n,
                forall|j: int|
                    0 <= j < i ==> (#[trigger] dst@[j])@ == composite_channels_spec::<
                        Self::Chan,
                        O,
                    >(
                        orig[j]@,
                        clr@,
                        Self::Model::LINEAR_START as int,
                        Self::Model::LINEAR_END as int,
                        Self::Model::ALPHA as int,
                    ),
                forall|j: int| i <= j < n ==> dst@[j] == orig[j],
            decreases n - i,
        {
            let mut d = dst[i];
            proof {
                d.lemma_view();
            }
            d.composite_channels(clr, op);
            dst[i] = d;
            i += 1;
        }
    }

    /// Composite matte with color to destination pixel slice, as far as the
    /// shorter of the two slices reaches
    fn composite_matte<M, O>(dst: &mut [Self], src: &[M], clr: &Self, op: O) where
        M: Pixel<Chan = Self::Chan, Model = Matte, Gamma = Self::Gamma>,
        O: PorterDuff<Self::Chan>,

        requires
            old(dst)@.len() > 0 && src@.len() > 0 ==> Self::Model::ALPHA < Self::arity(),
        ensures
            final(dst)@.len() == old(dst)@.len(),
            forall|i: int|
                0 <= i < old(dst)@.len() && i < src@.len() ==> (#[trigger] final(dst)@[i])@
                    == composite_channels_matte_spec::<Self::Chan, O>(
                    old(dst)@[i]@,
                    nth_or_max(src@[i]@, 0),
                    clr@,
                    Self::Model::LINEAR_START as int,
                    Self::Model::LINEAR_END as int,
                    Self::Model::ALPHA as int,
                ),
            forall|i: int|
                src@.len() <= i < old(dst)@.len() ==> final(dst)@[i] == old(dst)@[i],
    {
        let ghost orig = dst@;
        let mut n = dst.len();
        if src.len() < n {
            n = src.len();
        }
        let mut i: usize = 0;
        while i < n
            invariant
                n > 0 ==> Self::Model::ALPHA < Self::arity(),
                dst@.len() == orig.len(),
                n <= dst@.len(),
                n <= src@.len(),
                i <= n,
                forall|j: int|
                    0 <= j < i ==> (#[trigger] dst@[j])@ == composite_channels_matte_spec::<
                        Self::Chan,
                        O,
                    >(
                        orig[j]@,
                        nth_or_max(src@[j]@, 0),
                        clr@,
                        Self::Model::LINEAR_START as int,
                        Self::Model::LINEAR_END as int,
                        Self::Model::ALPHA as int,
                    ),
                forall|j: int| i <= j < dst@.len() ==> dst@[j] == orig[j],
            decreases n - i,
        {
            let mut d = dst[i];
            proof {
                d.lemma_view();
            }
            let a = src[i].alpha();
            proof {
                lemma_models();
            }
            d.composite_channels_matte(&a, clr, op);
            dst[i] = d;
            i += 1;
        }
    }

    /// Composite two slices of pixels, as far as the shorter of the two
    /// reaches
    fn composite_slice<O>(dst: &mut [Self], src: &[Self], op: O) where
        O: PorterDuff<Self::Chan>,

        requires
            old(dst)@.len() > 0 && src@.len() > 0 ==> Self::Model::ALPHA < Self::arity(),
        ensures
            final(dst)@.len() == old(dst)@.len(),
            forall|i: int|
                0 <= i < old(dst)@.len() && i < src@.len() ==> (#[trigger] final(dst)@[i])@
                    == composite_channels_spec::<Self::Chan, O>(
                    old(dst)@[i]@,
                    src@[i]@,
                    Self::Model::LINEAR_START as int,
                    Self::Model::LINEAR_END as int,
                    Self::Model::ALPHA as int,
                ),
            forall|i: int|
                src@.len() <= i < old(dst)@.len() ==> final(dst)@[i] == old(dst)@[i],
    {
        let ghost orig = dst@;
        let mut n = dst.len();
        if src.len() < n {
            n = src.len();
        }
        let mut i: usize = 0;
        while i < n
            invariant
                n > 0 ==> Self::Model::ALPHA < Self::arity(),
                dst@.len() == orig.len(),
                n <= dst@.len(),
                n <= src@.len(),
                i <= n,
                forall|j: int|
                    0 <= j < i ==> (#[trigger] dst@[j])@ == composite_channels_spec::<
                        Self::Chan,
                        O,
                    >(
                        orig[j]@,
                        src@[j]@,
                        Self::Model::LINEAR_START as int,
                        Self::Model::LINEAR_END as int,
                        Self::Model::ALPHA as int,
                    ),
                forall|j: int| i <= j < dst@.len() ==> dst@[j] == orig[j],
            decreases n - i,
        {
            let mut d = dst[i];
            proof {
                d.lemma_view();
            }
            d.composite_channels(&src[i], op);
            dst[i] = d;
            i += 1;
        }
    }

    /// Composite the channels of two pixels: `src` onto this one
    fn composite_channels<O>(&mut self, src: &Self, _op: O) where
        O: PorterDuff<Self::Chan>,

        requires
            Self::Model::ALPHA < old(self)@.len(),
        ensures
            final(self)@ == composite_channels_spec::<Self::Chan, O>(
                old(self)@,
                src@,
                Self::Model::LINEAR_START as int,
                Self::Model::LINEAR_END as int,
                Self::Model::ALPHA as int,
            ),
    {
        let da1 = Self::Chan::maximum().sub(self.alpha());
        let sa1 = Self::Chan::maximum().sub(src.alpha());
        composite_range::<Self::Chan, O>(
            self.channels_mut(),
            da1,
            src.channels(),
            sa1,
            Self::Model::LINEAR_START,
            Self::Model::LINEAR_END,
        );
        let s = src.alpha();
        O::composite(self.alpha_mut(), da1, &s, sa1);
    }

    /// Composite the channels of pixels with a matte and color: `src`,
    /// scaled by the coverage `alpha`, onto this one
    fn composite_channels_matte<O>(&mut self, alpha: &Self::Chan, src: &Self, _op: O) where
        O: PorterDuff<Self::Chan>,

        requires
            Self::Model::ALPHA < old(self)@.len(),
        ensures
            final(self)@ == composite_channels_matte_spec::<Self::Chan, O>(
                old(self)@,
                *alpha,
                src@,
                Self::Model::LINEAR_START as int,
                Self::Model::LINEAR_END as int,
                Self::Model::ALPHA as int,
            ),
    {
        proof {
            self.lemma_view();
            src.lemma_view();
        }
        let da1 = Self::Chan::maximum().sub(self.alpha());
        let s = src.alpha().mul(*alpha);
        let sa1 = Self::Chan::maximum().sub(s);
        composite_range_matte::<Self::Chan, O>(
            self.channels_mut(),
            da1,
            *alpha,
            src.channels(),
            sa1,
            Self::Model::LINEAR_START,
            Self::Model::LINEAR_END,
        );
        O::composite(self.alpha_mut(), da1, &s, sa1);
    }
}

impl<P: Pixel<Alpha = Premultiplied>> Composite for P {
}

/// The first `n` channels of `src` at the precision `D`, the maximum standing
/// for each channel that `src` lacks.
pub open spec fn rescaled<S: Channel, D: Channel + FromChannel<S>>(src: Seq<S>, n: nat) -> Seq<D> {
    Seq::new(n, |i: int| D::from_channel_spec(nth_or_max(src, i)))
}

/// Pixel formats that can be made from a pixel of the same color model at
/// another bit depth.
pub trait BitDepth: Pixel {
    /// Convert from a pixel with a different bit depth.
    ///
    /// The two pixels must have the same color model; between color models,
    /// use [convert](Convert::convert).
    fn from_bit_depth<P>(p: P) -> (r: Self) where P: Pixel, Self::Chan: FromChannel<P::Chan>
        requires
            Self::Model::KIND == P::Model::KIND,
        ensures
            r@ == rescaled::<P::Chan, Self::Chan>(p@, Self::arity()),
    ;
}

/// [Pixel] with one channel in its color model.
#[derive(Copy, Debug, Default, PartialEq)]
pub struct Pix1<C, M, A, G> where C: Channel, M: ColorModel, A: Alpha, G: Gamma {
    channels: [C; 1],
    _model: PhantomData<M>,
    _alpha: PhantomData<A>,
    _gamma: PhantomData<G>,
}

impl<C, M, A, G> Clone for Pix1<C, M, A, G> where C: Channel, M: ColorModel, A: Alpha, G: Gamma {
    fn clone(&self) -> (r: Self)
        ensures
            r == *self,
    {
        *self
    }
}

impl<C, M, A, G> Pix1<C, M, A, G> where C: Channel, M: ColorModel, A: Alpha, G: Gamma {
    /// Create a one-channel color.
    ///
    /// Each channel is what the conversion of the value at its place to the
    /// channel type returns.  For values that are channels already,
    /// [with_channels](Self::with_channels) and
    /// [from_channels](Pixel::from_channels) say exactly what the pixel holds.
    pub fn new<H>(one: H) -> (r: Self) where C: From<H>
        ensures
            r@.len() == 1,
            call_ensures(<C as From<H>>::from, (one,), r@[0]),
            <C as FromSpec<H>>::obeys_from_spec() ==> r@ == seq![<C as FromSpec<H>>::from_spec(one)],
    {
        let channels = [C::from(one)];
        let r = Self::with_channels(channels);
        assert(<C as FromSpec<H>>::obeys_from_spec() ==> r@ =~= seq![<C as FromSpec<H>>::from_spec(one)]);
        r
    }

    /// Create a pixel that holds the given channels.
    pub fn with_channels(channels: [C; 1]) -> (r: Self)
        ensures
            r@ == channels@,
    {
        Pix1 { channels, _model: PhantomData, _alpha: PhantomData, _gamma: PhantomData }
    }
}

impl<C, M, A, G> Pixel for Pix1<C, M, A, G> where C: Channel, M: ColorModel, A: Alpha, G: Gamma {
    type Chan = C;

    type Model = M;

    type Alpha = A;

    type Gamma = G;

    closed spec fn view(&self) -> Seq<C> {
        self.channels@
    }

    open spec fn arity() -> nat {
        1
    }

    proof fn lemma_arity() {
    }

    proof fn lemma_view(&self) {
    }

    proof fn lemma_same_channels(self, other: Self) {
        assert(self.channels =~= other.channels);
    }

    fn from_channels(ch: &[C]) -> (r: Self) {
        let channels = [ch[0]];
        let r = Self::with_channels(channels);
        assert(r@ =~= ch@.take(1));
        r
    }

    fn channels(&self) -> (r: &[C]) {
        &self.channels
    }

    fn channels_mut(&mut self) -> (r: &mut [C]) {
        &mut self.channels
    }
}

impl<C, M, A, G> BitDepth for Pix1<C, M, A, G> where
    C: Channel,
    M: ColorModel,
    A: Alpha,
    G: Gamma,
{
    fn from_bit_depth<P>(p: P) -> (r: Self) where P: Pixel, C: FromChannel<P::Chan> {
        let one = C::from_channel(p.one());
        let r = Self::with_channels([one]);
        assert(r@ =~= rescaled::<P::Chan, C>(p@, 1));
        r
    }
}

/// [Pixel] with two channels in its color model.
#[derive(Copy, Debug, Default, PartialEq)]
pub struct Pix2<C, M, A, G> where C: Channel, M: ColorModel, A: Alpha, G: Gamma {
    channels: [C; 2],
    _model: PhantomData<M>,
    _alpha: PhantomData<A>,
    _gamma: PhantomData<G>,
}

impl<C, M, A, G> Clone for Pix2<C, M, A, G> where C: Channel, M: ColorModel, A: Alpha, G: Gamma {
    fn clone(&self) -> (r: Self)
        ensures
            r == *self,
    {
        *self
    }
}

impl<C, M, A, G> Pix2<C, M, A, G> where C: Channel, M: ColorModel, A: Alpha, G: Gamma {
    /// Create a two-channel color.
    ///
    /// Each channel is what the conversion of the value at its place to the
    /// channel type returns.  For values that are channels already,
    /// [with_channels](Self::with_channels) and
    /// [from_channels](Pixel::from_channels) say exactly what the pixel holds.
    pub fn new<H>(one: H, two: H) -> (r: Self) where C: From<H>
        ensures
            r@.len() == 2,
            call_ensures(<C as From<H>>::from, (one,), r@[0]),
            call_ensures(<C as From<H>>::from, (two,), r@[1]),
            <C as FromSpec<H>>::obeys_from_spec() ==> r@ == seq![<C as FromSpec<H>>::from_spec(one), <C as FromSpec<H>>::from_spec(two)],
    {
        let channels = [C::from(one), C::from(two)];
        let r = Self::with_channels(channels);
        assert(<C as FromSpec<H>>::obeys_from_spec() ==> r@ =~= seq![<C as FromSpec<H>>::from_spec(one), <C as FromSpec<H>>::from_spec(two)]);
        r
    }

    /// Create a pixel that holds the given channels.
    pub fn with_channels(channels: [C; 2]) -> (r: Self)
        ensures
            r@ == channels@,
    {
        Pix2 { channels, _model: PhantomData, _alpha: PhantomData, _gamma: PhantomData }
    }
}

impl<C, M, A, G> Pixel for Pix2<C, M, A, G> where C: Channel, M: ColorModel, A: Alpha, G: Gamma {
    type Chan = C;

    type Model = M;

    type Alpha = A;

    type Gamma = G;

    closed spec fn view(&self) -> Seq<C> {
        self.channels@
    }

    open spec fn arity() -> nat {
        2
    }

    proof fn lemma_arity() {
    }

    proof fn lemma_view(&self) {
    }

    proof fn lemma_same_channels(self, other: Self) {
        assert(self.channels =~= other.channels);
    }

    fn from_channels(ch: &[C]) -> (r: Self) {
        let channels = [ch[0], ch[1]];
        let r = Self::with_channels(channels);
        assert(r@ =~= ch@.take(2));
        r
    }

    fn channels(&self) -> (r: &[C]) {
        &self.channels
    }

    fn channels_mut(&mut self) -> (r: &mut [C]) {
        &mut self.channels
    }
}

impl<C, M, A, G> BitDepth for Pix2<C, M, A, G> where
    C: Channel,
    M: ColorModel,
    A: Alpha,
    G: Gamma,
{
    fn from_bit_depth<P>(p: P) -> (r: Self) where P: Pixel, C: FromChannel<P::Chan> {
        let one = C::from_channel(p.one());
        let two = C::from_channel(p.two());
        let r = Self::with_channels([one, two]);
        assert(r@ =~= rescaled::<P::Chan, C>(p@, 2));
        r
    }
}

/// [Pixel] with three channels in its color model.
#[derive(Copy, Debug, Default, PartialEq)]
pub struct Pix3<C, M, A, G> where C: Channel, M: ColorModel, A: Alpha, G: Gamma {
    channels: [C; 3],
    _model: PhantomData<M>,
    _alpha: PhantomData<A>,
    _gamma: PhantomData<G>,
}

impl<C, M, A, G> Clone for Pix3<C, M, A, G> where C: Channel, M: ColorModel, A: Alpha, G: Gamma {
    fn clone(&self) -> (r: Self)
        ensures
            r == *self,
    {
        *self
    }
}

impl<C, M, A, G> Pix3<C, M, A, G> where C: Channel, M: ColorModel, A: Alpha, G: Gamma {
    /// Create a three-channel color.
    ///
    /// Each channel is what the conversion of the value at its place to the
    /// channel type returns.  For values that are channels already,
    /// [with_channels](Self::with_channels) and
    /// [from_channels](Pixel::from_channels) say exactly what the pixel holds.
    pub fn new<H>(one: H, two: H, three: H) -> (r: Self) where C: From<H>
        ensures
            r@.len() == 3,
            call_ensures(<C as From<H>>::from, (one,), r@[0]),
            call_ensures(<C as From<H>>::from, (two,), r@[1]),
            call_ensures(<C as From<H>>::from, (three,), r@[2]),
            <C as FromSpec<H>>::obeys_from_spec() ==> r@ == seq![<C as FromSpec<H>>::from_spec(one), <C as FromSpec<H>>::from_spec(two), <C as FromSpec<H>>::from_spec(three)],
    {
        let channels = [C::from(one), C::from(two), C::from(three)];
        let r = Self::with_channels(channels);
        assert(<C as FromSpec<H>>::obeys_from_spec() ==> r@ =~= seq![<C as FromSpec<H>>::from_spec(one), <C as FromSpec<H>>::from_spec(two), <C as FromSpec<H>>::from_spec(three)]);
        r
    }

    /// Create a pixel that holds the given channels.
    pub fn with_channels(channels: [C; 3]) -> (r: Self)
        ensures
            r@ == channels@,
    {
        Pix3 { channels, _model: PhantomData, _alpha: PhantomData, _gamma: PhantomData }
    }
}

impl<C, M, A, G> Pixel for Pix3<C, M, A, G> where C: Channel, M: ColorModel, A: Alpha, G: Gamma {
    type Chan = C;

    type Model = M;

    type Alpha = A;

    type Gamma = G;

    closed spec fn view(&self) -> Seq<C> {
        self.channels@
    }

    open spec fn arity() -> nat {
        3
    }

    proof fn lemma_arity() {
    }

    proof fn lemma_view(&self) {
    }

    proof fn lemma_same_channels(self, other: Self) {
        assert(self.channels =~= other.channels);
    }

    fn from_channels(ch: &[C]) -> (r: Self) {
        let channels = [ch[0], ch[1], ch[2]];
        let r = Self::with_channels(channels);
        assert(r@ =~= ch@.take(3));
        r
    }

    fn channels(&self) -> (r: &[C]) {
        &self.channels
    }

    fn channels_mut(&mut self) -> (r: &mut [C]) {
        &mut self.channels
    }
}

impl<C, M, A, G> BitDepth for Pix3<C, M, A, G> where
    C: Channel,
    M: ColorModel,
    A: Alpha,
    G: Gamma,
{
    fn from_bit_depth<P>(p: P) -> (r: Self) where P: Pixel, C: FromChannel<P::Chan> {
        let one = C::from_channel(p.one());
        let two = C::from_channel(p.two());
        let three = C::from_channel(p.three());
        let r = Self::with_channels([one, two, three]);
        assert(r@ =~= rescaled::<P::Chan, C>(p@, 3));
        r
    }
}

/// [Pixel] with four channels in its color model.
#[derive(Copy, Debug, Default, PartialEq)]
pub struct Pix4<C, M, A, G> where C: Channel, M: ColorModel, A: Alpha, G: Gamma {
    channels: [C; 4],
    _model: PhantomData<M>,
    _alpha: PhantomData<A>,
    _gamma: PhantomData<G>,
}

impl<C, M, A, G> Clone for Pix4<C, M, A, G> where C: Channel, M: ColorModel, A: Alpha, G: Gamma {
    fn clone(&self) -> (r: Self)
        ensures
            r == *self,
    {
        *self
    }
}

impl<C, M, A, G> Pix4<C, M, A, G> where C: Channel, M: ColorModel, A: Alpha, G: Gamma {
    /// Create a four-channel color.
    ///
    /// Each channel is what the conversion of the value at its place to the
    /// channel type returns.  For values that are channels already,
    /// [with_channels](Self::with_channels) and
    /// [from_channels](Pixel::from_channels) say exactly what the pixel holds.
    pub fn new<H>(one: H, two: H, three: H, four: H) -> (r: Self) where C: From<H>
        ensures
            r@.len() == 4,
            call_ensures(<C as From<H>>::from, (one,), r@[0]),
            call_ensures(<C as From<H>>::from, (two,), r@[1]),
            call_ensures(<C as From<H>>::from, (three,), r@[2]),
            call_ensures(<C as From<H>>::from, (four,), r@[3]),
            <C as FromSpec<H>>::obeys_from_spec() ==> r@ == seq![<C as FromSpec<H>>::from_spec(one), <C as FromSpec<H>>::from_spec(two), <C as FromSpec<H>>::from_spec(three), <C as FromSpec<H>>::from_spec(four)],
    {
        let channels = [C::from(one), C::from(two), C::from(three), C::from(four)];
        let r = Self::with_channels(channels);
        assert(<C as FromSpec<H>>::obeys_from_spec() ==> r@ =~= seq![<C as FromSpec<H>>::from_spec(one), <C as FromSpec<H>>::from_spec(two), <C as FromSpec<H>>::from_spec(three), <C as FromSpec<H>>::from_spec(four)]);
        r
    }

    /// Create a pixel that holds the given channels.
    pub fn with_channels(channels: [C; 4]) -> (r: Self)
        ensures
            r@ == channels@,
    {
        Pix4 { channels, _model: PhantomData, _alpha: PhantomData, _gamma: PhantomData }
    }
}

impl<C, M, A, G> Pixel for Pix4<C, M, A, G> where C: Channel, M: ColorModel, A: Alpha, G: Gamma {
    type Chan = C;

    type Model = M;

    type Alpha = A;

    type Gamma = G;

    closed spec fn view(&self) -> Seq<C> {
        self.channels@
    }

    open spec fn arity() -> nat {
        4
    }

    proof fn lemma_arity() {
    }

    proof fn lemma_view(&self) {
    }

    proof fn lemma_same_channels(self, other: Self) {
        assert(self.channels =~= other.channels);
    }

    fn from_channels(ch: &[C]) -> (r: Self) {
        let channels = [ch[0], ch[1], ch[2], ch[3]];
        let r = Self::with_channels(channels);
        assert(r@ =~= ch@.take(4));
        r
    }

    fn channels(&self) -> (r: &[C]) {
        &self.channels
    }

    fn channels_mut(&mut self) -> (r: &mut [C]) {
        &mut self.channels
    }
}

impl<C, M, A, G> BitDepth for Pix4<C, M, A, G> where
    C: Channel,
    M: ColorModel,
    A: Alpha,
    G: Gamma,
{
    fn from_bit_depth<P>(p: P) -> (r: Self) where P: Pixel, C: FromChannel<P::Chan> {
        let one = C::from_channel(p.one());
        let two = C::from_channel(p.two());
        let three = C::from_channel(p.three());
        let four = C::from_channel(p.four());
        let r = Self::with_channels([one, two, three, four]);
        assert(r@ =~= rescaled::<P::Chan, C>(p@, 4));
        r
    }
}

/// Rgba pixel type for color model conversions
pub type PixRgba<P> = Pix4<<P as Pixel>::Chan, Rgb, <P as Pixel>::Alpha, <P as Pixel>::Gamma>;

/// A color channel `c` of a pixel with alpha `alpha`, taken from the modes
/// `sa` and `sg` to the modes `da` and `dg`.
///
/// The channel is first made linear.  Where the alpha modes differ it is then
/// decoded to straight and encoded in the new mode.  Last it is encoded in the
/// new gamma mode.
pub open spec fn alpha_gamma_of<C: Channel>(
    sa: AlphaMode,
    sg: GammaMode,
    da: AlphaMode,
    dg: GammaMode,
    c: C,
    alpha: C,
) -> C {
    let linear = gamma_to_linear(sg, c);
    let straight = if sa != da {
        alpha_encode(da, alpha_decode(sa, linear, alpha), alpha)
    } else {
        linear
    };
    gamma_from_linear(dg, straight)
}

/// The channels `ch` of a pixel of the format `D`, with its color channels
/// taken from the alpha and gamma modes of `S` to those of `D`.
pub open spec fn convert_alpha_gamma_spec<D: Pixel, S: Pixel>(
    ch: Seq<D::Chan>,
    alpha: D::Chan,
) -> Seq<D::Chan> {
    Seq::new(
        ch.len(),
        |i: int|
            if D::Model::LINEAR_START <= i < D::Model::LINEAR_END {
                alpha_gamma_of(
                    S::Alpha::MODE,
                    S::Gamma::MODE,
                    D::Alpha::MODE,
                    D::Gamma::MODE,
                    ch[i],
                    alpha,
                )
            } else {
                ch[i]
            },
    )
}

/// The channels of the pixel of the format `D` that a pixel of the same color
/// model with the channels `src` converts to.
///
/// The channels are first brought to the bit depth of `D`.  Where the alpha or
/// gamma modes differ, the color channels are then converted, with the alpha
/// that the pixel has at the new bit depth.
pub open spec fn convert_same_model_spec<D: Pixel, S: Pixel>(src: Seq<S::Chan>) -> Seq<
    D::Chan,
> where D::Chan: FromChannel<S::Chan> {
    let dst = rescaled::<S::Chan, D::Chan>(src, D::arity());
    if S::Alpha::MODE != D::Alpha::MODE || S::Gamma::MODE != D::Gamma::MODE {
        convert_alpha_gamma_spec::<D, S>(dst, nth_or_max(dst, D::Model::ALPHA as int))
    } else {
        dst
    }
}

/// The channels of the pixel of the format `D` that a pixel with the channels
/// `src` converts to by way of red, green, blue and alpha.
pub open spec fn convert_thru_rgba_spec<D: Pixel, S: Pixel>(src: Seq<S::Chan>) -> Seq<
    D::Chan,
> where D::Chan: FromChannel<S::Chan> {
    let rgba = into_rgba_spec(S::Model::KIND, src);
    let rgba = convert_same_model_spec::<PixRgba<D>, PixRgba<S>>(rgba);
    from_rgba_spec(D::Model::KIND, rgba).take(D::arity() as int)
}

/// The channels of the pixel of the format `D` that a pixel of the format `S`
/// with the channels `src` converts to.
pub open spec fn convert_spec<D: Pixel, S: Pixel>(src: Seq<S::Chan>) -> Seq<D::Chan> where
    D::Chan: FromChannel<S::Chan>,
{
    if S::Model::KIND == D::Model::KIND {
        convert_same_model_spec::<D, S>(src)
    } else {
        convert_thru_rgba_spec::<D, S>(src)
    }
}

/// Convert a pixel to another format with the same color model.
///
/// * `D` Destination pixel format.
/// * `S` Source pixel format.
/// * `src` Source pixel.
pub fn convert_same_model<D, S>(src: S) -> (dst: D) where
    D: BitDepth,
    S: Pixel,
    D::Chan: FromChannel<S::Chan>,

    requires
        S::Model::KIND == D::Model::KIND,
    ensures
        dst@ == convert_same_model_spec::<D, S>(src@),
{
    let mut dst = D::from_bit_depth(src);
    if S::Alpha::MODE != D::Alpha::MODE || S::Gamma::MODE != D::Gamma::MODE {
        let alpha = dst.alpha();
        let channels = dst.channels_mut();
        convert_alpha_gamma::<D, S>(channels, alpha);
    }
    dst
}

/// Convert *alpha* / *gamma* to another pixel format
///
/// `channels` are those of a pixel of the format `D`, still in the alpha and
/// gamma modes of `S`, and `alpha` is that pixel's alpha.
pub fn convert_alpha_gamma<D, S>(channels: &mut [D::Chan], alpha: D::Chan) where
    D: Pixel,
    S: Pixel,

    ensures
        final(channels)@ == convert_alpha_gamma_spec::<D, S>(old(channels)@, alpha),
{
    let ghost orig = channels@;
    let start = D::Model::LINEAR_START;
    let mut stop = D::Model::LINEAR_END;
    if channels.len() < stop {
        stop = channels.len();
    }
    let mut i = start;
    while i < stop
        invariant
            channels@.len() == orig.len(),
            stop <= channels@.len(),
            stop <= D::Model::LINEAR_END,
            stop == D::Model::LINEAR_END || stop == channels@.len(),
            start == D::Model::LINEAR_START,
            start <= i,
            i <= stop || i == start,
            forall|j: int|
                0 <= j < channels@.len() ==> channels@[j] == (if start <= j < i {
                    alpha_gamma_of(
                        S::Alpha::MODE,
                        S::Gamma::MODE,
                        D::Alpha::MODE,
                        D::Gamma::MODE,
                        orig[j],
                        alpha,
                    )
                } else {
                    orig[j]
                }),
        decreases stop - i,
    {
        let mut c = channels[i];
        c = S::Gamma::to_linear(c);
        if S::Alpha::MODE != D::Alpha::MODE {
            c = S::Alpha::decode(c, alpha);
            c = D::Alpha::encode(c, alpha);
        }
        c = D::Gamma::from_linear(c);
        channels[i] = c;
        i += 1;
    }
    assert(channels@ =~= convert_alpha_gamma_spec::<D, S>(orig, alpha));
}

/// Convert a pixel to another format thru RGBA.
///
/// * `D` Destination pixel format.
/// * `S` Source pixel format.
/// * `src` Source pixel.
pub fn convert_thru_rgba<D, S>(src: S) -> (dst: D) where
    D: Pixel,
    S: Pixel,
    D::Chan: FromChannel<S::Chan>,

    ensures
        dst@ == convert_thru_rgba_spec::<D, S>(src@),
{
    let rgba = S::Model::into_rgba(src.channels());
    let rgba: PixRgba<S> = Pix4::with_channels(rgba);
    let rgba = convert_same_model::<PixRgba<D>, PixRgba<S>>(rgba);
    let channels = D::Model::from_rgba(&rgba.channels);
    proof {
        D::lemma_arity();
    }
    D::from_channels(&channels)
}

/// Conversion of a pixel to any other pixel format.
pub trait Convert: Pixel {
    /// Convert a pixel to another format
    ///
    /// * `D` Destination format.
    fn convert<D>(self) -> (dst: D) where D: BitDepth, D::Chan: FromChannel<Self::Chan>
        ensures
            dst@ == convert_spec::<D, Self>(self@),
    ;
}

impl<S: Pixel> Convert for S {
    fn convert<D>(self) -> (dst: D) where D: BitDepth, D::Chan: FromChannel<S::Chan> {
        if S::Model::KIND == D::Model::KIND {
            convert_same_model::<D, S>(self)
        } else {
            convert_thru_rgba::<D, S>(self)
        }
    }
}

} // verus!
