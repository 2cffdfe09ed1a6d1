use pix::chan::{Ch16, Ch8, Channel, FromChannel, Linear, Premultiplied, Srgb, Straight};
use pix::el::{Convert, Pix1, Pix2, Pix3, Pix4};
use pix::alpha::{Opaque, Translucent};
use pix::gray::{Gray16, Gray8, GrayAlpha16, GrayAlpha8, SGray16, SGray8, SGraya16, SGraya8};
use pix::matte::{Matte16, Matte8};
use pix::model::{Gray, Matte, Rgb};
use pix::rgb::{
    Rgb16, Rgb8, Rgba16, Rgba16p, Rgba8, Rgba8p, SRgb16, SRgb8, SRgba16, SRgba8, SRgba8p,
};

/// 32-bit floating-point channel, between 0.0 and 1.0.
#[derive(Clone, Copy, Debug, Default, PartialEq, PartialOrd)]
struct Ch32(f32);

impl Ch32 {
    fn new(value: f32) -> Self {
        Ch32(value.min(1.0).max(0.0))
    }
}

fn srgb_gamma_encode(v: f32) -> f32 {
    if v <= 0.0 {
        0.0
    } else if v < 0.003_130_8 {
        v * 12.92
    } else if v < 1.0 {
        v.powf(1.0 / 2.4) * 1.055 - 0.055
    } else {
        1.0
    }
}

fn srgb_gamma_decode(v: f32) -> f32 {
    if v <= 0.0 {
        0.0
    } else if v < 0.04045 {
        v / 12.92
    } else if v < 1.0 {
        ((v + 0.055) / 1.055).powf(2.4)
    } else {
        1.0
    }
}

impl Channel for Ch32 {
    fn minimum() -> Self {
        Ch32(0.0)
    }

    fn maximum() -> Self {
        Ch32(1.0)
    }

    fn le(self, rhs: Self) -> bool {
        self.0 <= rhs.0
    }

    fn add(self, rhs: Self) -> Self {
        Ch32::new(self.0 + rhs.0)
    }

    fn sub(self, rhs: Self) -> Self {
        Ch32::new(self.0 - rhs.0)
    }

    fn mul(self, rhs: Self) -> Self {
        Ch32(self.0 * rhs.0)
    }

    fn div(self, rhs: Self) -> Self {
        if rhs.0 > 0.0 {
            Ch32((self.0 / rhs.0).min(1.0))
        } else {
            Ch32(0.0)
        }
    }

    fn encode_srgb(self) -> Self {
        Ch32::new(srgb_gamma_encode(self.0))
    }

    fn decode_srgb(self) -> Self {
        Ch32::new(srgb_gamma_decode(self.0))
    }
}

impl From<f32> for Ch32 {
    fn from(value: f32) -> Self {
        Ch32::new(value)
    }
}

impl FromChannel<Ch8> for Ch32 {
    fn from_channel(src: Ch8) -> Self {
        Ch32(f32::from(src.value()) / 255.0)
    }
}

impl FromChannel<Ch16> for Ch32 {
    fn from_channel(src: Ch16) -> Self {
        Ch32(f32::from(src.value()) / 65535.0)
    }
}

impl FromChannel<Ch32> for Ch8 {
    fn from_channel(src: Ch32) -> Self {
        Ch8::new((src.0 * 255.0).round() as u8)
    }
}

impl FromChannel<Ch32> for Ch16 {
    fn from_channel(src: Ch32) -> Self {
        Ch16::new((src.0 * 65535.0).round() as u16)
    }
}

type Matte32 = Pix1<Ch32, Matte, Premultiplied, Linear>;
type SGray32 = Pix1<Ch32, Gray, Straight, Srgb>;
type SGraya32 = Pix2<Ch32, Gray, Straight, Srgb>;
type Rgb32 = Pix3<Ch32, Rgb, Straight, Linear>;
type Rgba32 = Pix4<Ch32, Rgb, Straight, Linear>;
type Rgba32p = Pix4<Ch32, Rgb, Premultiplied, Linear>;
type SRgb32 = Pix3<Ch32, Rgb, Straight, Srgb>;
type SRgba32 = Pix4<Ch32, Rgb, Straight, Srgb>;
type Gray32 = pix::gray::Gray<Ch32, Opaque<Ch32>>;
type GrayAlpha32 = pix::gray::Gray<Ch32, Translucent<Ch32>>;

#[test]
fn el_check_sizes() {
    assert_eq!(std::mem::size_of::<Matte8>(), 1);
    assert_eq!(std::mem::size_of::<Matte16>(), 2);
    assert_eq!(std::mem::size_of::<Matte32>(), 4);
    assert_eq!(std::mem::size_of::<SGray8>(), 1);
    assert_eq!(std::mem::size_of::<SGray16>(), 2);
    assert_eq!(std::mem::size_of::<SGray32>(), 4);
    assert_eq!(std::mem::size_of::<SGraya8>(), 2);
    assert_eq!(std::mem::size_of::<SGraya16>(), 4);
    assert_eq!(std::mem::size_of::<SGraya32>(), 8);
    assert_eq!(std::mem::size_of::<Rgb8>(), 3);
    assert_eq!(std::mem::size_of::<Rgb16>(), 6);
    assert_eq!(std::mem::size_of::<Rgb32>(), 12);
    assert_eq!(std::mem::size_of::<Rgba8>(), 4);
    assert_eq!(std::mem::size_of::<Rgba16>(), 8);
    assert_eq!(std::mem::size_of::<Rgba32>(), 16);
}

#[test]
fn gray_check_sizes() {
    assert_eq!(std::mem::size_of::<Gray8>(), 1);
    assert_eq!(std::mem::size_of::<Gray16>(), 2);
    assert_eq!(std::mem::size_of::<Gray32>(), 4);
    assert_eq!(std::mem::size_of::<GrayAlpha8>(), 2);
    assert_eq!(std::mem::size_of::<GrayAlpha16>(), 4);
    assert_eq!(std::mem::size_of::<GrayAlpha32>(), 8);
}

#[test]
fn gray_to_rgb() {
    assert_eq!(SRgb8::new(0xD9, 0xD9, 0xD9), SGray8::new(0xD9).convert(),);
    assert_eq!(
        SRgb8::new(0x33, 0x33, 0x33),
        SGray16::new(0x337F).convert(),
    );
    assert_eq!(SRgb8::new(0x40, 0x40, 0x40), SGray32::new(0.25).convert(),);
    assert_eq!(
        SRgb16::new(0x2929, 0x2929, 0x2929),
        SGray8::new(0x29).convert(),
    );
    assert_eq!(
        SRgb16::new(0x5593, 0x5593, 0x5593),
        SGray16::new(0x5593).convert(),
    );
    assert_eq!(
        SRgb16::new(0xFFFF, 0xFFFF, 0xFFFF),
        SGray32::new(1.0).convert(),
    );
    assert_eq!(
        SRgb32::new(0.5019608, 0.5019608, 0.5019608),
        SGray8::new(0x80).convert(),
    );
    assert_eq!(
        SRgb32::new(0.75001144, 0.75001144, 0.75001144),
        SGray16::new(0xC000).convert(),
    );
    assert_eq!(SRgb32::new(0.33, 0.33, 0.33), SGray32::new(0.33).convert(),);
}

#[test]
fn linear_to_srgb() {
    assert_eq!(
        SRgb8::new(0xEF, 0x8C, 0xC7),
        Rgb8::new(0xDC, 0x43, 0x91).convert()
    );
    assert_eq!(
        SRgb8::new(0x66, 0xF4, 0xB5),
        Rgb16::new(0x2205, 0xE699, 0x7654).convert()
    );
    assert_eq!(
        SRgb8::new(0xBC, 0x89, 0xE0),
        Rgb32::new(0.5, 0.25, 0.75).convert()
    );
}

#[test]
fn srgb_to_linear() {
    assert_eq!(
        Rgb8::new(0xDC, 0x43, 0x92),
        SRgb8::new(0xEF, 0x8C, 0xC7).convert(),
    );
    assert_eq!(
        Rgb8::new(0x22, 0xE7, 0x76),
        SRgb16::new(0x6673, 0xF453, 0xB593).convert(),
    );
    assert_eq!(
        Rgb8::new(0x37, 0x0D, 0x85),
        SRgb32::new(0.5, 0.25, 0.75).convert(),
    );
}

#[test]
fn straight_to_premultiplied() {
    assert_eq!(
        Rgba8p::new(0x10, 0x20, 0x40, 0x80),
        Rgba8::new(0x20, 0x40, 0x80, 0x80).convert(),
    );
    assert_eq!(
        Rgba8p::new(0x04, 0x10, 0x20, 0x40),
        Rgba16::new(0x1000, 0x4000, 0x8000, 0x4000).convert(),
    );
    assert_eq!(
        Rgba8p::new(0x60, 0xBF, 0x8F, 0xBF),
        Rgba32::new(0.5, 1.0, 0.75, 0.75).convert(),
    );
}

#[test]
fn premultiplied_to_straight() {
    assert_eq!(
        Rgba8::new(0x40, 0x80, 0xFF, 0x80),
        Rgba8p::new(0x20, 0x40, 0x80, 0x80).convert(),
    );
    assert_eq!(
        Rgba8::new(0x40, 0xFF, 0x80, 0x40),
        Rgba16p::new(0x1000, 0x4000, 0x2000, 0x4000).convert(),
    );
    assert_eq!(
        Rgba8::new(0xAB, 0x55, 0xFF, 0xBF),
        Rgba32p::new(0.5, 0.25, 0.75, 0.75).convert(),
    );
}

#[test]
fn straight_to_premultiplied_srgb() {
    assert_eq!(
        SRgba8p::new(0x16, 0x2A, 0x5C, 0x80),
        SRgba8::new(0x20, 0x40, 0x80, 0x80).convert(),
    );
    assert_eq!(
        SRgba8p::new(0x0D, 0x1C, 0x40, 0x40),
        SRgba16::new(0x2000, 0x4000, 0x8000, 0x4000).convert(),
    );
    assert_eq!(
        SRgba8p::new(0x70, 0xE0, 0xA7, 0xBF),
        SRgba32::new(0.5, 1.0, 0.75, 0.75).convert(),
    );
}
