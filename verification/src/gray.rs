//! Gray pixel formats, and a gray value with an alpha of its own kind.
use crate::alpha::{AlphaValue, Opaque, Translucent};
use crate::chan::{
    div_of, greater_of, mul_of, sub_of, Alpha, AlphaMode, Ch16, Ch8, Channel, FromChannel, Linear,
    Premultiplied, Srgb, Straight,
};
use crate::el::{Pix1, Pix2};
use crate::model;
use vstd::prelude::*;
use vstd::std_specs::convert::{FromSpec, FromSpecImpl};

verus! {

/// Gray 8-bit straight alpha (linear gamma) pixel format.
pub type Graya8 = Pix2<Ch8, model::Gray, Straight, Linear>;

/// Gray 16-bit straight alpha (linear gamma) pixel format.
pub type Graya16 = Pix2<Ch16, model::Gray, Straight, Linear>;

/// Gray 8-bit premultiplied alpha (linear gamma) pixel format.
pub type Graya8p = Pix2<Ch8, model::Gray, Premultiplied, Linear>;

/// Gray 16-bit premultiplied alpha (linear gamma) pixel format.
pub type Graya16p = Pix2<Ch16, model::Gray, Premultiplied, Linear>;

/// sRGB gray 8-bit opaque pixel format.
pub type SGray8 = Pix1<Ch8, model::Gray, Straight, Srgb>;

/// sRGB gray 16-bit opaque pixel format.
pub type SGray16 = Pix1<Ch16, model::Gray, Straight, Srgb>;

/// sRGB gray 8-bit straight alpha pixel format.
pub type SGraya8 = Pix2<Ch8, model::Gray, Straight, Srgb>;

/// sRGB gray 16-bit straight alpha pixel format.
pub type SGraya16 = Pix2<Ch16, model::Gray, Straight, Srgb>;

/// How far two channels are apart.
pub open spec fn distance_of<C: Channel>(a: C, b: C) -> C {
    if a.level() <= b.level() {
        sub_of(b, a)
    } else {
        sub_of(a, b)
    }
}

/// How far two channels are apart.
fn distance<C: Channel>(a: C, b: C) -> (r: C)
    ensures
        r == distance_of(a, b),
{
    if a.le(b) {
        b.sub(a)
    } else {
        a.sub(b)
    }
}

/// Gray value with an alpha that is either [Opaque] or [Translucent].
///
/// Its view is the pair of its value and its alpha, both as channels.
#[derive(Copy, Debug, Default, PartialEq)]
#[verifier::reject_recursive_types(C)]
pub struct Gray<C: Channel, A: AlphaValue<Chan = C>> {
    value: C,
    alpha: A,
}

impl<C: Channel, A: AlphaValue<Chan = C>> Clone for Gray<C, A> {
    fn clone(&self) -> (r: Self)
        ensures
            r == *self,
    {
        *self
    }
}

impl<C: Channel, A: AlphaValue<Chan = C>> Gray<C, A> {
    /// The gray value and the alpha.
    pub closed spec fn view(&self) -> (C, C) {
        (self.value, self.alpha.value_spec())
    }

    /// The alpha, in the form in which it is held.
    pub closed spec fn held_alpha(&self) -> A {
        self.alpha
    }

    /// The gray value made of a channel and an alpha.
    pub closed spec fn spec_new(value: C, alpha: A) -> Self {
        Gray { value, alpha }
    }

    /// A gray value made of a channel and an alpha holds them.
    pub proof fn lemma_spec_new(value: C, alpha: A)
        ensures
            Self::spec_new(value, alpha)@ == (value, alpha.value_spec()),
            Self::spec_new(value, alpha).held_alpha() == alpha,
    {
    }

    /// Create an opaque gray value.
    ///
    /// The gray value is what the conversion of `value` to the channel type
    /// returns.
    pub fn new<H>(value: H) -> (r: Self) where C: From<H>
        ensures
            call_ensures(<C as From<H>>::from, (value,), r@.0),
            <C as FromSpec<H>>::obeys_from_spec() ==> r@.0 == <C as FromSpec<H>>::from_spec(value),
            r@.1 == crate::chan::max_of::<C>(),
            r.held_alpha() == A::opaque_spec(),
    {
        let value = C::from(value);
        let alpha = A::opaque();
        Gray { value, alpha }
    }

    /// Create a gray value with an alpha.
    ///
    /// Value and alpha are what the conversions of `value` to the channel
    /// type and of `alpha` to the alpha type return.
    pub fn with_alpha<H, B>(value: H, alpha: B) -> (r: Self) where C: From<H>, A: From<B>
        ensures
            call_ensures(<C as From<H>>::from, (value,), r@.0),
            <C as FromSpec<H>>::obeys_from_spec() ==> r@.0 == <C as FromSpec<H>>::from_spec(value),
            call_ensures(<A as From<B>>::from, (alpha,), r.held_alpha()),
            <A as FromSpec<B>>::obeys_from_spec() ==> r.held_alpha() == <A as FromSpec<
                B,
            >>::from_spec(alpha),
            r@.1 == r.held_alpha().value_spec(),
    {
        let value = C::from(value);
        let alpha = A::from(alpha);
        Gray { value, alpha }
    }

    /// Get the gray value.
    pub fn value(self) -> (r: C)
        ensures
            r == self@.0,
    {
        self.value
    }

    /// Get the alpha value.
    pub fn alpha(self) -> (r: A)
        ensures
            r == self.held_alpha(),
            r.value_spec() == self@.1,
    {
        self.alpha
    }

    /// Get the alpha mode, which a gray value does not record: its value may
    /// be straight or premultiplied.
    pub fn alpha_mode(&self) -> (r: Option<AlphaMode>)
        ensures
            r is None,
    {
        None
    }

    /// Get the next of the endless run of pixels of this gray value.
    pub fn next(&mut self) -> (r: Option<Self>)
        ensures
            r == Some(*old(self)),
            *final(self) == *old(self),
    {
        Some(*self)
    }

    /// Red, green, blue and alpha of the gray value: as the gray color model
    /// has them.
    pub open spec fn rgba_spec(self) -> Seq<C> {
        model::into_rgba_spec(model::ModelKind::Gray, seq![self@.0, self@.1])
    }

    /// Get *red*, *green*, *blue* and *alpha* channels
    pub fn rgba(self) -> (r: [C; 4])
        ensures
            r@ == self.rgba_spec(),
            r@ == seq![self@.0, self@.0, self@.0, self@.1],
    {
        let r = [self.value, self.value, self.value, self.alpha.value()];
        assert(r@ =~= seq![self@.0, self@.0, self@.0, self@.1]);
        assert(r@ =~= self.rgba_spec());
        r
    }

    /// Make a gray value with given RGBA channels: the most intense of the
    /// three colors, and the alpha.
    pub fn with_rgba(rgba: [C; 4]) -> (r: Self)
        ensures
            r@ == Self::with_rgba_spec(rgba@),
    {
        let mut value = rgba[0];
        if value.le(rgba[1]) {
            value = rgba[1];
        }
        if value.le(rgba[2]) {
            value = rgba[2];
        }
        Gray { value, alpha: A::with_value(rgba[3]) }
    }

    /// Value and alpha of the gray value made from red, green, blue and
    /// alpha.
    pub open spec fn with_rgba_spec(rgba: Seq<C>) -> (C, C) {
        (greater_of(greater_of(rgba[0], rgba[1]), rgba[2]), A::stored(rgba[3]))
    }

    /// A gray value made from the red, green, blue and alpha of a gray value
    /// is that gray value.
    pub proof fn lemma_rgba_round_trip(self)
        ensures
            Self::with_rgba_spec(self.rgba_spec()) == self@,
    {
        self.alpha.lemma_stored();
    }

    /// Get channel-wise difference
    pub fn difference(self, rhs: Self) -> (r: Self)
        ensures
            r@ == (distance_of(self@.0, rhs@.0), A::stored(distance_of(self@.1, rhs@.1))),
    {
        let v = distance(self.value, rhs.value);
        let a = distance(self.alpha.value(), rhs.alpha.value());
        Gray { value: v, alpha: A::with_value(a) }
    }

    /// Check if all channels are within threshold
    pub fn within_threshold(self, rhs: Self) -> (r: bool)
        ensures
            r == (self@.0.level() <= rhs@.0.level() && self@.1.level() <= rhs@.1.level()),
    {
        self.value.le(rhs.value) && self.alpha.value().le(rhs.alpha.value())
    }

    /// Encode into premultiplied alpha from straight alpha.
    pub fn encode(self) -> (r: Self)
        ensures
            r@ == (mul_of(self@.0, self@.1), self@.1),
    {
        proof {
            crate::chan::lemma_modes();
        }
        Gray { value: Premultiplied::encode(self.value, self.alpha.value()), alpha: self.alpha }
    }

    /// Decode into straight alpha from premultiplied alpha.
    pub fn decode(self) -> (r: Self)
        ensures
            r@ == (div_of(self@.0, self@.1), self@.1),
    {
        proof {
            crate::chan::lemma_modes();
        }
        Gray { value: Premultiplied::decode(self.value, self.alpha.value()), alpha: self.alpha }
    }

    /// Multiply value by value and alpha by alpha.
    pub fn mul(self, rhs: Self) -> (r: Self)
        ensures
            r@ == (mul_of(self@.0, rhs@.0), A::stored(mul_of(self@.1, rhs@.1))),
    {
        Gray { value: self.value.mul(rhs.value), alpha: self.alpha.mul(rhs.alpha) }
    }
}

impl<C: Channel> From<Gray<C, Translucent<C>>> for Gray<C, Opaque<C>> {
    fn from(c: Gray<C, Translucent<C>>) -> (r: Self) {
        Gray { value: c.value, alpha: Opaque::opaque() }
    }
}

impl<C: Channel> FromSpecImpl<Gray<C, Translucent<C>>> for Gray<C, Opaque<C>> {
    open spec fn obeys_from_spec() -> bool {
        true
    }

    /// The gray value stays and the alpha is dropped.
    open spec fn from_spec(c: Gray<C, Translucent<C>>) -> Self {
        Gray::spec_new(c@.0, Opaque::opaque_spec())
    }
}

impl<C: Channel> From<Gray<C, Opaque<C>>> for Gray<C, Translucent<C>> {
    fn from(c: Gray<C, Opaque<C>>) -> (r: Self) {
        Gray { value: c.value, alpha: Translucent::opaque() }
    }
}

impl<C: Channel> FromSpecImpl<Gray<C, Opaque<C>>> for Gray<C, Translucent<C>> {
    open spec fn obeys_from_spec() -> bool {
        true
    }

    /// The gray value stays and the alpha is the maximum.
    open spec fn from_spec(c: Gray<C, Opaque<C>>) -> Self {
        Gray::spec_new(c@.0, Translucent::opaque_spec())
    }
}

impl<C, A> From<u8> for Gray<C, A> where C: Channel + FromChannel<Ch8>, A: AlphaValue<Chan = C> {
    /// Convert from a `u8` value.
    fn from(c: u8) -> (r: Self) {
        Gray { value: C::from_channel(Ch8::new(c)), alpha: A::opaque() }
    }
}

impl<C, A> FromSpecImpl<u8> for Gray<C, A> where C: Channel + FromChannel<Ch8>, A: AlphaValue<Chan = C> {
    open spec fn obeys_from_spec() -> bool {
        true
    }

    /// The opaque gray value of that eight-bit level.
    open spec fn from_spec(c: u8) -> Self {
        Gray::spec_new(C::from_channel_spec(Ch8::from_level(c as nat)), A::opaque_spec())
    }
}

/// Opaque 8-bit gray value.
pub type Gray8 = Gray<Ch8, Opaque<Ch8>>;

/// Opaque 16-bit gray value.
pub type Gray16 = Gray<Ch16, Opaque<Ch16>>;

/// Translucent 8-bit gray value.
pub type GrayAlpha8 = Gray<Ch8, Translucent<Ch8>>;

/// Translucent 16-bit gray value.
pub type GrayAlpha16 = Gray<Ch16, Translucent<Ch16>>;

} // verus!
