//! RGB pixel formats.
use crate::chan::{Ch16, Ch8, Linear, Premultiplied, Srgb, Straight};
use crate::el::{Pix3, Pix4};
use crate::model::Rgb;
use vstd::prelude::*;

verus! {

/// RGB 8-bit opaque (linear gamma) pixel format.
pub type Rgb8 = Pix3<Ch8, Rgb, Straight, Linear>;

/// RGB 16-bit opaque (linear gamma) pixel format.
pub type Rgb16 = Pix3<Ch16, Rgb, Straight, Linear>;

/// RGB 8-bit straight alpha (linear gamma) pixel format.
pub type Rgba8 = Pix4<Ch8, Rgb, Straight, Linear>;

/// RGB 16-bit straight alpha (linear gamma) pixel format.
pub type Rgba16 = Pix4<Ch16, Rgb, Straight, Linear>;

/// RGB 8-bit premultiplied alpha (linear gamma) pixel format.
pub type Rgba8p = Pix4<Ch8, Rgb, Premultiplied, Linear>;

/// RGB 16-bit premultiplied alpha (linear gamma) pixel format.
pub type Rgba16p = Pix4<Ch16, Rgb, Premultiplied, Linear>;

/// sRGB 8-bit opaque pixel format.
pub type SRgb8 = Pix3<Ch8, Rgb, Straight, Srgb>;

/// sRGB 16-bit opaque pixel format.
pub type SRgb16 = Pix3<Ch16, Rgb, Straight, Srgb>;

/// sRGB 8-bit straight alpha pixel format.
pub type SRgba8 = Pix4<Ch8, Rgb, Straight, Srgb>;

/// sRGB 16-bit straight alpha pixel format.
pub type SRgba16 = Pix4<Ch16, Rgb, Straight, Srgb>;

/// sRGB 8-bit premultiplied alpha pixel format.
pub type SRgba8p = Pix4<Ch8, Rgb, Premultiplied, Srgb>;

/// sRGB 16-bit premultiplied alpha pixel format.
pub type SRgba16p = Pix4<Ch16, Rgb, Premultiplied, Srgb>;

} // verus!
