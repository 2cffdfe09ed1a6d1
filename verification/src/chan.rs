//! Channels, the intensity values that pixels are made of, with their
//! alpha and gamma modes.
use crate::srgb;
use vstd::prelude::*;

verus! {

/// Sum of two levels, held at `max`.
pub open spec fn add_level(a: nat, b: nat, max: nat) -> nat {
    if a + b <= max {
        a + b
    } else {
        max
    }
}

/// Difference of two levels, held at zero.
pub open spec fn sub_level(a: nat, b: nat) -> nat {
    if a >= b {
        (a - b) as nat
    } else {
        0
    }
}

/// One component of a pixel: an intensity between a minimum and a maximum.
///
/// A channel stands for a whole number of steps, its *level*, between `0` and
/// `max_level()`.  Sums and differences saturate.  Products and quotients
/// treat the maximum as one; how they round is up to each channel type, which
/// states it in `mul_level` and `div_level`.
///
/// A verified channel type defines every ghost member and implements
/// [ChannelLaws].  Code outside the verifier can implement the trait by its
/// executable methods alone: the ghost members then keep their defaults,
/// of which nothing is known.
pub trait Channel: Copy + Sized {
    /// Number of steps above the minimum.
    closed spec fn level(self) -> nat {
        arbitrary()
    }

    /// Level of the maximum intensity.
    closed spec fn max_level() -> nat {
        arbitrary()
    }

    /// The channel at a level.
    closed spec fn from_level(level: nat) -> Self {
        arbitrary()
    }

    /// Level of the product of channels at levels `a` and `b`.
    closed spec fn mul_level(a: nat, b: nat) -> nat {
        arbitrary()
    }

    /// Level of the quotient of channels at levels `a` and `b`.
    closed spec fn div_level(a: nat, b: nat) -> nat {
        arbitrary()
    }

    /// Level of the sRGB encoding of a linear level.
    closed spec fn encode_srgb_level(level: nat) -> nat {
        arbitrary()
    }

    /// Linear level of an sRGB encoded level.
    closed spec fn decode_srgb_level(level: nat) -> nat {
        arbitrary()
    }

    /// Minimum intensity.
    fn minimum() -> (r: Self)
        ensures
            r == Self::from_level(0),
    ;

    /// Maximum intensity.
    fn maximum() -> (r: Self)
        ensures
            r == Self::from_level(Self::max_level()),
    ;

    /// Whether this channel is no more intense than `rhs`.
    fn le(self, rhs: Self) -> (r: bool)
        ensures
            r == (self.level() <= rhs.level()),
    ;

    /// Saturating sum.
    fn add(self, rhs: Self) -> (r: Self)
        ensures
            r == Self::from_level(add_level(self.level(), rhs.level(), Self::max_level())),
    ;

    /// Saturating difference.
    fn sub(self, rhs: Self) -> (r: Self)
        ensures
            r == Self::from_level(sub_level(self.level(), rhs.level())),
    ;

    /// Product, with the maximum as one.
    fn mul(self, rhs: Self) -> (r: Self)
        ensures
            r == Self::from_level(Self::mul_level(self.level(), rhs.level())),
    ;

    /// Quotient, with the maximum as one.
    fn div(self, rhs: Self) -> (r: Self)
        ensures
            r == Self::from_level(Self::div_level(self.level(), rhs.level())),
    ;

    /// Encode a linear intensity with the sRGB transfer function.
    fn encode_srgb(self) -> (r: Self)
        ensures
            r == Self::from_level(Self::encode_srgb_level(self.level())),
    ;

    /// Decode an sRGB encoded intensity to a linear one.
    fn decode_srgb(self) -> (r: Self)
        ensures
            r == Self::from_level(Self::decode_srgb_level(self.level())),
    ;
}

/// Channels whose levels and arithmetic are proved to be in order: what the
/// laws of conversion and compositing rest on.
pub trait ChannelLaws: Channel {
    /// A channel and its level determine each other.
    proof fn lemma_level(self)
        ensures
            0 < Self::max_level(),
            self.level() <= Self::max_level(),
            Self::from_level(self.level()) == self,
    ;

    /// Every level up to the maximum is the level of a channel.
    proof fn lemma_from_level(level: nat)
        requires
            level <= Self::max_level(),
        ensures
            Self::from_level(level).level() == level,
    ;

    /// A product is no more than either factor, a product with the minimum
    /// is the minimum, and the product of the maximum with itself is the
    /// maximum.  Quotients stay in range.
    proof fn lemma_mul_div(a: nat, b: nat)
        requires
            a <= Self::max_level(),
            b <= Self::max_level(),
        ensures
            Self::mul_level(a, b) <= a,
            Self::mul_level(a, b) <= b,
            Self::div_level(a, b) <= Self::max_level(),
            Self::mul_level(a, 0) == 0,
            Self::mul_level(0, b) == 0,
            Self::mul_level(Self::max_level(), Self::max_level()) == Self::max_level(),
    ;

    /// A product with the maximum, divided by the maximum again, gives a
    /// level back, or the level below it.
    proof fn lemma_mul_div_max(level: nat)
        requires
            level <= Self::max_level(),
        ensures
            ({
                let product = Self::mul_level(level, Self::max_level());
                let back = Self::div_level(product, Self::max_level());
                back <= level <= back + 1
            }),
    ;

    /// The sRGB transfer functions stay in range.
    proof fn lemma_srgb(level: nat)
        requires
            level <= Self::max_level(),
        ensures
            Self::encode_srgb_level(level) <= Self::max_level(),
            Self::decode_srgb_level(level) <= Self::max_level(),
    ;
}

/// The minimum of a channel type.
pub open spec fn min_of<C: Channel>() -> C {
    C::from_level(0)
}

/// The maximum of a channel type.
pub open spec fn max_of<C: Channel>() -> C {
    C::from_level(C::max_level())
}

/// Saturating sum of two channels.
pub open spec fn add_of<C: Channel>(a: C, b: C) -> C {
    C::from_level(add_level(a.level(), b.level(), C::max_level()))
}

/// Saturating difference of two channels.
pub open spec fn sub_of<C: Channel>(a: C, b: C) -> C {
    C::from_level(sub_level(a.level(), b.level()))
}

/// Product of two channels.
pub open spec fn mul_of<C: Channel>(a: C, b: C) -> C {
    C::from_level(C::mul_level(a.level(), b.level()))
}

/// Quotient of two channels.
pub open spec fn div_of<C: Channel>(a: C, b: C) -> C {
    C::from_level(C::div_level(a.level(), b.level()))
}

/// The more intense of two channels.
pub open spec fn greater_of<C: Channel>(a: C, b: C) -> C {
    if a.level() <= b.level() {
        b
    } else {
        a
    }
}

/// What is left of full coverage: the maximum less `a`.
pub open spec fn complement_of<C: Channel>(a: C) -> C {
    sub_of(max_of::<C>(), a)
}

/// Whether the product of `c` with the maximum is `c` again.
///
/// Products round down, so that a channel type may lose its lowest levels
/// even to a product with the maximum.
pub open spec fn kept_at_full<C: Channel>(c: C) -> bool {
    mul_of(c, max_of::<C>()) == c
}

/// A channel made from a channel of another precision.
///
/// Widening keeps the value; narrowing drops the bits that do not fit.  A
/// channel converts to its own type unchanged.
pub trait FromChannel<S>: Sized {
    /// The channel that `from_channel` makes of `src`.
    closed spec fn from_channel_spec(src: S) -> Self {
        arbitrary()
    }

    /// Convert `src` to this precision.
    fn from_channel(src: S) -> (r: Self)
        ensures
            r == Self::from_channel_spec(src),
    ;
}

impl<C: Channel> FromChannel<C> for C {
    open spec fn from_channel_spec(src: C) -> C {
        src
    }

    fn from_channel(src: C) -> (r: C) {
        src
    }
}

/// Level of the product of two eight-bit levels.
///
/// Each level is spread over twelve bits by repeating its high four bits
/// below it; the high eight bits of the 24-bit product are the result.
pub open spec fn mul_level_8(a: nat, b: nat) -> nat {
    ((a * 16 + a / 16) * (b * 16 + b / 16)) / 65536
}

/// Level of the quotient of two eight-bit levels: `a / b` in 256ths, held at
/// the maximum, and zero where `b` is zero.
pub open spec fn div_level_8(a: nat, b: nat) -> nat {
    if b == 0 {
        0
    } else if (a * 256) / b <= 255 {
        (a * 256) / b
    } else {
        255
    }
}

/// Eight-bit integer channel.
#[derive(Clone, Copy, Debug, Default, PartialEq, Eq, PartialOrd, Ord, Hash)]
pub struct Ch8(u8);

impl Ch8 {
    /// Create a channel from its level.
    pub fn new(value: u8) -> (r: Self)
        ensures
            r.level() == value,
            r == Self::from_level(value as nat),
    {
        Ch8(value)
    }

    /// Get the level.
    pub fn value(self) -> (r: u8)
        ensures
            r == self.level(),
    {
        self.0
    }
}

impl Channel for Ch8 {
    closed spec fn level(self) -> nat {
        self.0 as nat
    }

    open spec fn max_level() -> nat {
        255
    }

    closed spec fn from_level(level: nat) -> Self {
        Ch8(level as u8)
    }

    open spec fn mul_level(a: nat, b: nat) -> nat {
        mul_level_8(a, b)
    }

    open spec fn div_level(a: nat, b: nat) -> nat {
        div_level_8(a, b)
    }

    open spec fn encode_srgb_level(level: nat) -> nat {
        srgb::encode_level(level)
    }

    open spec fn decode_srgb_level(level: nat) -> nat {
        srgb::decode_level(level)
    }

    fn minimum() -> (r: Self) {
        Ch8(0)
    }

    fn maximum() -> (r: Self) {
        Ch8(0xFF)
    }

    fn le(self, rhs: Self) -> (r: bool) {
        self.0 <= rhs.0
    }

    fn add(self, rhs: Self) -> (r: Self) {
        Ch8(self.0.saturating_add(rhs.0))
    }

    fn sub(self, rhs: Self) -> (r: Self) {
        Ch8(self.0.saturating_sub(rhs.0))
    }

    fn mul(self, rhs: Self) -> (r: Self) {
        let l: u32 = self.0 as u32 * 16 + self.0 as u32 / 16;
        let r: u32 = rhs.0 as u32 * 16 + rhs.0 as u32 / 16;
        assert(l * r <= 4095 * 4095) by (nonlinear_arith)
            requires
                l <= 4095,
                r <= 4095,
        ;
        Ch8(((l * r) / 65536) as u8)
    }

    fn div(self, rhs: Self) -> (r: Self) {
        if rhs.0 > 0 {
            let q: u32 = (self.0 as u32 * 256) / rhs.0 as u32;
            if q <= 255 {
                Ch8(q as u8)
            } else {
                Ch8(0xFF)
            }
        } else {
            Ch8(0)
        }
    }

    fn encode_srgb(self) -> (r: Self) {
        Ch8(srgb::encode(self.0))
    }

    fn decode_srgb(self) -> (r: Self) {
        Ch8(srgb::decode(self.0))
    }
}

impl ChannelLaws for Ch8 {
    proof fn lemma_level(self) {
    }

    proof fn lemma_from_level(level: nat) {
    }

    proof fn lemma_mul_div(a: nat, b: nat) {
        let x = a * 16 + a / 16;
        let y = b * 16 + b / 16;
        assert(x * y <= x * 4095 && x * y <= 4095 * y) by (nonlinear_arith)
            requires
                x <= 4095,
                y <= 4095,
        ;
        assert(x * 0 == 0) by (nonlinear_arith);
        assert(0 * y == 0) by (nonlinear_arith);
        assert(4095 * 4095 == 16769025) by (nonlinear_arith);
    }

    proof fn lemma_mul_div_max(level: nat) {
        let product = mul_level_8(level, 255);
        assert(product == ((level * 16 + level / 16) * 4095) / 65536);
    }

    proof fn lemma_srgb(level: nat) {
    }
}

/// Level of the product of two sixteen-bit levels.
///
/// Each level is spread over 24 bits by repeating its high eight bits below
/// it; the high sixteen bits of the 48-bit product are the result.
pub open spec fn mul_level_16(a: nat, b: nat) -> nat {
    ((a * 256 + a / 256) * (b * 256 + b / 256)) / 4294967296
}

/// Level of the quotient of two sixteen-bit levels: `a / b` in 65536ths, held
/// at the maximum, and zero where `b` is zero.
pub open spec fn div_level_16(a: nat, b: nat) -> nat {
    if b == 0 {
        0
    } else if (a * 65536) / b <= 65535 {
        (a * 65536) / b
    } else {
        65535
    }
}

/// Sixteen-bit integer channel.
#[derive(Clone, Copy, Debug, Default, PartialEq, Eq, PartialOrd, Ord, Hash)]
pub struct Ch16(u16);

impl Ch16 {
    /// Create a channel from its level.
    pub fn new(value: u16) -> (r: Self)
        ensures
            r.level() == value,
            r == Self::from_level(value as nat),
    {
        Ch16(value)
    }

    /// Get the level.
    pub fn value(self) -> (r: u16)
        ensures
            r == self.level(),
    {
        self.0
    }
}

impl Channel for Ch16 {
    closed spec fn level(self) -> nat {
        self.0 as nat
    }

    open spec fn max_level() -> nat {
        65535
    }

    closed spec fn from_level(level: nat) -> Self {
        Ch16(level as u16)
    }

    open spec fn mul_level(a: nat, b: nat) -> nat {
        mul_level_16(a, b)
    }

    open spec fn div_level(a: nat, b: nat) -> nat {
        div_level_16(a, b)
    }

    open spec fn encode_srgb_level(level: nat) -> nat {
        srgb::encode_level_wide(level)
    }

    open spec fn decode_srgb_level(level: nat) -> nat {
        srgb::decode_level_wide(level)
    }

    fn minimum() -> (r: Self) {
        Ch16(0)
    }

    fn maximum() -> (r: Self) {
        Ch16(0xFFFF)
    }

    fn le(self, rhs: Self) -> (r: bool) {
        self.0 <= rhs.0
    }

    fn add(self, rhs: Self) -> (r: Self) {
        Ch16(self.0.saturating_add(rhs.0))
    }

    fn sub(self, rhs: Self) -> (r: Self) {
        Ch16(self.0.saturating_sub(rhs.0))
    }

    fn mul(self, rhs: Self) -> (r: Self) {
        let l: u64 = self.0 as u64 * 256 + self.0 as u64 / 256;
        let r: u64 = rhs.0 as u64 * 256 + rhs.0 as u64 / 256;
        assert(l * r <= 16777215 * 16777215) by (nonlinear_arith)
            requires
                l <= 16777215,
                r <= 16777215,
        ;
        Ch16(((l * r) / 4294967296) as u16)
    }

    fn div(self, rhs: Self) -> (r: Self) {
        if rhs.0 > 0 {
            let q: u32 = (self.0 as u32 * 65536) / rhs.0 as u32;
            if q <= 65535 {
                Ch16(q as u16)
            } else {
                Ch16(0xFFFF)
            }
        } else {
            Ch16(0)
        }
    }

    fn encode_srgb(self) -> (r: Self) {
        Ch16(srgb::encode_wide(self.0))
    }

    fn decode_srgb(self) -> (r: Self) {
        Ch16(srgb::decode_wide(self.0))
    }
}

impl ChannelLaws for Ch16 {
    proof fn lemma_level(self) {
    }

    proof fn lemma_from_level(level: nat) {
    }

    proof fn lemma_mul_div(a: nat, b: nat) {
        let x = a * 256 + a / 256;
        let y = b * 256 + b / 256;
        assert(x * y <= x * 16777215 && x * y <= 16777215 * y) by (nonlinear_arith)
            requires
                x <= 16777215,
                y <= 16777215,
        ;
        assert(x * 0 == 0) by (nonlinear_arith);
        assert(0 * y == 0) by (nonlinear_arith);
        assert(16777215 * 16777215 == 281474943156225) by (nonlinear_arith);
    }

    proof fn lemma_mul_div_max(level: nat) {
        let product = mul_level_16(level, 65535);
        assert(product == ((level * 256 + level / 256) * 16777215) / 4294967296);
    }

    proof fn lemma_srgb(level: nat) {
        srgb::lemma_wide_bound(level);
    }
}

impl FromChannel<Ch16> for Ch8 {
    /// The high eight bits.
    open spec fn from_channel_spec(src: Ch16) -> Ch8 {
        Ch8::from_level(src.level() / 256)
    }

    fn from_channel(src: Ch16) -> (r: Ch8) {
        Ch8((src.0 / 256) as u8)
    }
}

impl FromChannel<Ch8> for Ch16 {
    /// The eight bits, twice.
    open spec fn from_channel_spec(src: Ch8) -> Ch16 {
        Ch16::from_level(src.level() * 257)
    }

    fn from_channel(src: Ch8) -> (r: Ch16) {
        Ch16(src.0 as u16 * 257)
    }
}

impl From<u8> for Ch8 {
    fn from(value: u8) -> (r: Ch8) {
        Ch8(value)
    }
}

impl vstd::std_specs::convert::FromSpecImpl<u8> for Ch8 {
    open spec fn obeys_from_spec() -> bool {
        true
    }

    open spec fn from_spec(value: u8) -> Ch8 {
        Ch8::from_level(value as nat)
    }
}

impl From<u16> for Ch16 {
    fn from(value: u16) -> (r: Ch16) {
        Ch16(value)
    }
}

impl vstd::std_specs::convert::FromSpecImpl<u16> for Ch16 {
    open spec fn obeys_from_spec() -> bool {
        true
    }

    open spec fn from_spec(value: u16) -> Ch16 {
        Ch16::from_level(value as nat)
    }
}

/// Narrowing a widened eight-bit channel gives it back.
pub proof fn lemma_widen_narrow(c: Ch8)
    ensures
        <Ch8 as FromChannel<Ch16>>::from_channel_spec(
            <Ch16 as FromChannel<Ch8>>::from_channel_spec(c),
        ) == c,
{
}

/// The maximum of one precision converts to the maximum of the other.
pub proof fn lemma_convert_max()
    ensures
        <Ch8 as FromChannel<Ch16>>::from_channel_spec(max_of::<Ch16>()) == max_of::<Ch8>(),
        <Ch16 as FromChannel<Ch8>>::from_channel_spec(max_of::<Ch8>()) == max_of::<Ch16>(),
{
}

/// An eight-bit channel survives a product with the maximum where it is the
/// minimum or at least sixteen levels above it.
pub proof fn lemma_kept_at_full_8(c: Ch8)
    ensures
        kept_at_full(c) <==> (c.level() == 0 || c.level() >= 16),
{
    let l = c.level();
    let m = mul_level_8(l, 255);
    assert(m == ((l * 16 + l / 16) * 4095) / 65536);
    assert(m <= 255);
    assert(mul_of(c, max_of::<Ch8>()).level() == m);
    assert(m == l <==> (l == 0 || l >= 16));
}

/// A sixteen-bit channel survives a product with the maximum where it is the
/// minimum or at least 256 levels above it.
pub proof fn lemma_kept_at_full_16(c: Ch16)
    ensures
        kept_at_full(c) <==> (c.level() == 0 || c.level() >= 256),
{
    let l = c.level();
    let m = mul_level_16(l, 65535);
    assert(m == ((l * 256 + l / 256) * 16777215) / 4294967296);
    assert(m <= 65535);
    assert(mul_of(c, max_of::<Ch16>()).level() == m);
    assert(m == l <==> (l == 0 || l >= 256));
}

/// How a pixel's color channels relate to its alpha channel.
#[derive(Clone, Copy, Debug, PartialEq, Eq, Structural)]
pub enum AlphaMode {
    /// Color channels are independent of alpha.
    Straight,
    /// Color channels are already multiplied by alpha.
    Premultiplied,
}

/// A straight channel value `c` in an alpha mode, for a pixel of alpha `a`:
/// itself where the mode is straight, its product with alpha where it is
/// premultiplied.
pub open spec fn alpha_encode<C: Channel>(mode: AlphaMode, c: C, a: C) -> C {
    match mode {
        AlphaMode::Straight => c,
        AlphaMode::Premultiplied => mul_of(c, a),
    }
}

/// The straight value of a channel value `c` in an alpha mode, for a pixel of
/// alpha `a`: itself where the mode is straight, its quotient by alpha where
/// it is premultiplied.
pub open spec fn alpha_decode<C: Channel>(mode: AlphaMode, c: C, a: C) -> C {
    match mode {
        AlphaMode::Straight => c,
        AlphaMode::Premultiplied => div_of(c, a),
    }
}

/// Alpha mode of a pixel format.
pub trait Alpha: Copy + Sized {
    /// Which mode this is.
    const MODE: AlphaMode;

    /// Encode a straight channel value, given the pixel's alpha.
    fn encode<C: Channel>(c: C, a: C) -> (r: C)
        ensures
            r == alpha_encode(Self::MODE, c, a),
    ;

    /// Decode a channel value to straight, given the pixel's alpha.
    fn decode<C: Channel>(c: C, a: C) -> (r: C)
        ensures
            r == alpha_decode(Self::MODE, c, a),
    ;
}

/// Straight alpha: encoding and decoding change nothing.
#[derive(Clone, Copy, Debug, Default, PartialEq, Eq)]
pub struct Straight;

impl Alpha for Straight {
    const MODE: AlphaMode = AlphaMode::Straight;

    fn encode<C: Channel>(c: C, a: C) -> (r: C) {
        c
    }

    fn decode<C: Channel>(c: C, a: C) -> (r: C) {
        c
    }
}

/// Premultiplied alpha: encoding multiplies by alpha, decoding divides by it.
#[derive(Clone, Copy, Debug, Default, PartialEq, Eq)]
pub struct Premultiplied;

impl Alpha for Premultiplied {
    const MODE: AlphaMode = AlphaMode::Premultiplied;

    fn encode<C: Channel>(c: C, a: C) -> (r: C) {
        c.mul(a)
    }

    fn decode<C: Channel>(c: C, a: C) -> (r: C) {
        c.div(a)
    }
}

/// Under full alpha, premultiplying a channel and dividing it again gives it
/// back, or the level below it.
pub proof fn lemma_premultiplied_round_trip<C: ChannelLaws>(c: C)
    ensures
        ({
            let alpha = max_of::<C>();
            let encoded = alpha_encode(AlphaMode::Premultiplied, c, alpha);
            let decoded = alpha_decode(AlphaMode::Premultiplied, encoded, alpha);
            decoded.level() <= c.level() <= decoded.level() + 1
        }),
{
    let max = C::max_level();
    c.lemma_level();
    C::lemma_from_level(max);
    C::lemma_mul_div(c.level(), max);
    C::lemma_mul_div_max(c.level());
    let product = C::mul_level(c.level(), max);
    C::lemma_from_level(product);
    C::lemma_mul_div(product, max);
    C::lemma_from_level(C::div_level(product, max));
}

/// How a pixel's color channels relate to light intensity.
#[derive(Clone, Copy, Debug, PartialEq, Eq, Structural)]
pub enum GammaMode {
    /// Channel values are proportional to intensity.
    Linear,
    /// Channel values are encoded with the sRGB transfer function.
    Srgb,
}

/// The linear value of a channel value `c` in a gamma mode.
pub open spec fn gamma_to_linear<C: Channel>(mode: GammaMode, c: C) -> C {
    match mode {
        GammaMode::Linear => c,
        GammaMode::Srgb => C::from_level(C::decode_srgb_level(c.level())),
    }
}

/// A linear channel value `c` in a gamma mode.
pub open spec fn gamma_from_linear<C: Channel>(mode: GammaMode, c: C) -> C {
    match mode {
        GammaMode::Linear => c,
        GammaMode::Srgb => C::from_level(C::encode_srgb_level(c.level())),
    }
}

/// Gamma mode of a pixel format.
pub trait Gamma: Copy + Sized {
    /// Which mode this is.
    const MODE: GammaMode;

    /// Decode a channel value to linear.
    fn to_linear<C: Channel>(c: C) -> (r: C)
        ensures
            r == gamma_to_linear(Self::MODE, c),
    ;

    /// Encode a linear channel value.
    fn from_linear<C: Channel>(c: C) -> (r: C)
        ensures
            r == gamma_from_linear(Self::MODE, c),
    ;
}

/// Linear gamma: encoding and decoding change nothing.
#[derive(Clone, Copy, Debug, Default, PartialEq, Eq)]
pub struct Linear;

impl Gamma for Linear {
    const MODE: GammaMode = GammaMode::Linear;

    fn to_linear<C: Channel>(c: C) -> (r: C) {
        c
    }

    fn from_linear<C: Channel>(c: C) -> (r: C) {
        c
    }
}

/// sRGB gamma: the channel's own sRGB transfer functions.
#[derive(Clone, Copy, Debug, Default, PartialEq, Eq)]
pub struct Srgb;

impl Gamma for Srgb {
    const MODE: GammaMode = GammaMode::Srgb;

    fn to_linear<C: Channel>(c: C) -> (r: C) {
        c.decode_srgb()
    }

    fn from_linear<C: Channel>(c: C) -> (r: C) {
        c.encode_srgb()
    }
}

/// Which mode each alpha and gamma type stands for.
pub proof fn lemma_modes()
    ensures
        Straight::MODE == AlphaMode::Straight,
        Premultiplied::MODE == AlphaMode::Premultiplied,
        Linear::MODE == GammaMode::Linear,
        Srgb::MODE == GammaMode::Srgb,
{
}

} // verus!
