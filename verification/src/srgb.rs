//! The sRGB transfer function, from look-up tables at eight bits of precision.
//!
//! Each table entry is the level nearest to the transfer function.  Sixteen-bit
//! levels are spread evenly between neighbouring entries.
use vstd::prelude::*;

verus! {

/// Encoded sRGB level for each linear level.
pub const SRGB_ENCODE: [u8; 256] = [
    0x00, 0x0D, 0x16, 0x1C, 0x22, 0x26, 0x2A, 0x2E, 0x32, 0x35, 0x38, 0x3B, 0x3D, 0x40, 0x42, 0x45,
    0x47, 0x49, 0x4B, 0x4D, 0x4F, 0x51, 0x53, 0x55, 0x56, 0x58, 0x5A, 0x5C, 0x5D, 0x5F, 0x60, 0x62,
    0x63, 0x65, 0x66, 0x68, 0x69, 0x6A, 0x6C, 0x6D, 0x6E, 0x70, 0x71, 0x72, 0x73, 0x75, 0x76, 0x77,
    0x78, 0x79, 0x7A, 0x7C, 0x7D, 0x7E, 0x7F, 0x80, 0x81, 0x82, 0x83, 0x84, 0x85, 0x86, 0x87, 0x88,
    0x89, 0x8A, 0x8B, 0x8C, 0x8D, 0x8E, 0x8F, 0x90, 0x91, 0x92, 0x93, 0x94, 0x94, 0x95, 0x96, 0x97,
    0x98, 0x99, 0x9A, 0x9B, 0x9B, 0x9C, 0x9D, 0x9E, 0x9F, 0x9F, 0xA0, 0xA1, 0xA2, 0xA3, 0xA3, 0xA4,
    0xA5, 0xA6, 0xA7, 0xA7, 0xA8, 0xA9, 0xAA, 0xAA, 0xAB, 0xAC, 0xAD, 0xAD, 0xAE, 0xAF, 0xAF, 0xB0,
    0xB1, 0xB2, 0xB2, 0xB3, 0xB4, 0xB4, 0xB5, 0xB6, 0xB6, 0xB7, 0xB8, 0xB9, 0xB9, 0xBA, 0xBB, 0xBB,
    0xBC, 0xBD, 0xBD, 0xBE, 0xBE, 0xBF, 0xC0, 0xC0, 0xC1, 0xC2, 0xC2, 0xC3, 0xC4, 0xC4, 0xC5, 0xC5,
    0xC6, 0xC7, 0xC7, 0xC8, 0xC8, 0xC9, 0xCA, 0xCA, 0xCB, 0xCB, 0xCC, 0xCD, 0xCD, 0xCE, 0xCE, 0xCF,
    0xD0, 0xD0, 0xD1, 0xD1, 0xD2, 0xD2, 0xD3, 0xD4, 0xD4, 0xD5, 0xD5, 0xD6, 0xD6, 0xD7, 0xD7, 0xD8,
    0xD8, 0xD9, 0xDA, 0xDA, 0xDB, 0xDB, 0xDC, 0xDC, 0xDD, 0xDD, 0xDE, 0xDE, 0xDF, 0xDF, 0xE0, 0xE0,
    0xE1, 0xE2, 0xE2, 0xE3, 0xE3, 0xE4, 0xE4, 0xE5, 0xE5, 0xE6, 0xE6, 0xE7, 0xE7, 0xE8, 0xE8, 0xE9,
    0xE9, 0xEA, 0xEA, 0xEB, 0xEB, 0xEC, 0xEC, 0xED, 0xED, 0xEE, 0xEE, 0xEE, 0xEF, 0xEF, 0xF0, 0xF0,
    0xF1, 0xF1, 0xF2, 0xF2, 0xF3, 0xF3, 0xF4, 0xF4, 0xF5, 0xF5, 0xF6, 0xF6, 0xF6, 0xF7, 0xF7, 0xF8,
    0xF8, 0xF9, 0xF9, 0xFA, 0xFA, 0xFB, 0xFB, 0xFB, 0xFC, 0xFC, 0xFD, 0xFD, 0xFE, 0xFE, 0xFF, 0xFF,
];

/// Linear level for each encoded sRGB level.
pub const SRGB_DECODE: [u8; 256] = [
    0x00, 0x00, 0x00, 0x00, 0x00, 0x00, 0x00, 0x01, 0x01, 0x01, 0x01, 0x01, 0x01, 0x01, 0x01, 0x01,
    0x01, 0x01, 0x02, 0x02, 0x02, 0x02, 0x02, 0x02, 0x02, 0x02, 0x03, 0x03, 0x03, 0x03, 0x03, 0x03,
    0x04, 0x04, 0x04, 0x04, 0x04, 0x05, 0x05, 0x05, 0x05, 0x06, 0x06, 0x06, 0x06, 0x07, 0x07, 0x07,
    0x08, 0x08, 0x08, 0x08, 0x09, 0x09, 0x09, 0x0A, 0x0A, 0x0A, 0x0B, 0x0B, 0x0C, 0x0C, 0x0C, 0x0D,
    0x0D, 0x0D, 0x0E, 0x0E, 0x0F, 0x0F, 0x10, 0x10, 0x11, 0x11, 0x11, 0x12, 0x12, 0x13, 0x13, 0x14,
    0x14, 0x15, 0x16, 0x16, 0x17, 0x17, 0x18, 0x18, 0x19, 0x19, 0x1A, 0x1B, 0x1B, 0x1C, 0x1D, 0x1D,
    0x1E, 0x1E, 0x1F, 0x20, 0x20, 0x21, 0x22, 0x23, 0x23, 0x24, 0x25, 0x25, 0x26, 0x27, 0x28, 0x29,
    0x29, 0x2A, 0x2B, 0x2C, 0x2D, 0x2D, 0x2E, 0x2F, 0x30, 0x31, 0x32, 0x33, 0x33, 0x34, 0x35, 0x36,
    0x37, 0x38, 0x39, 0x3A, 0x3B, 0x3C, 0x3D, 0x3E, 0x3F, 0x40, 0x41, 0x42, 0x43, 0x44, 0x45, 0x46,
    0x47, 0x48, 0x49, 0x4A, 0x4C, 0x4D, 0x4E, 0x4F, 0x50, 0x51, 0x52, 0x54, 0x55, 0x56, 0x57, 0x58,
    0x5A, 0x5B, 0x5C, 0x5D, 0x5F, 0x60, 0x61, 0x63, 0x64, 0x65, 0x67, 0x68, 0x69, 0x6B, 0x6C, 0x6D,
    0x6F, 0x70, 0x72, 0x73, 0x74, 0x76, 0x77, 0x79, 0x7A, 0x7C, 0x7D, 0x7F, 0x80, 0x82, 0x83, 0x85,
    0x86, 0x88, 0x8A, 0x8B, 0x8D, 0x8E, 0x90, 0x92, 0x93, 0x95, 0x97, 0x98, 0x9A, 0x9C, 0x9D, 0x9F,
    0xA1, 0xA3, 0xA4, 0xA6, 0xA8, 0xAA, 0xAB, 0xAD, 0xAF, 0xB1, 0xB3, 0xB5, 0xB7, 0xB8, 0xBA, 0xBC,
    0xBE, 0xC0, 0xC2, 0xC4, 0xC6, 0xC8, 0xCA, 0xCC, 0xCE, 0xD0, 0xD2, 0xD4, 0xD6, 0xD8, 0xDA, 0xDC,
    0xDE, 0xE0, 0xE2, 0xE5, 0xE7, 0xE9, 0xEB, 0xED, 0xEF, 0xF2, 0xF4, 0xF6, 0xF8, 0xFA, 0xFD, 0xFF,
];

/// The fifth power.
pub open spec fn pow5(x: int) -> int {
    x * x * x * x * x
}

/// The twelfth power.
pub open spec fn pow12(x: int) -> int {
    let x2 = x * x;
    let x4 = x2 * x2;
    x4 * x4 * x4
}

/// Whether `encoded` is the level nearest to the sRGB encoding of the linear
/// level `linear`, both out of 255.
///
/// The encoding of an intensity `v` above 0.0031308 is
/// `1.055 * v^(1/2.4) - 0.055`; level 0 alone lies below.  That `encoded` is
/// within half a level of it is stated free of roots and fractions.
pub open spec fn is_encoded(linear: int, encoded: int) -> bool {
    if linear == 0 {
        encoded == 0
    } else {
        pow12(200 * encoded + 2705) * pow5(255) <= pow5(linear) * pow12(53805) < pow12(
            200 * encoded + 2905,
        ) * pow5(255)
    }
}

/// Whether `linear` is the level nearest to the linear intensity of the sRGB
/// encoded level `encoded`, both out of 255.
///
/// The linear intensity of an encoding `v` is `v / 12.92` below 0.04045, that
/// is up to level 10, and `((v + 0.055) / 1.055)^2.4` above.  That `linear` is
/// within half a level of it is stated free of roots and fractions.
pub open spec fn is_decoded(encoded: int, linear: int) -> bool {
    if encoded <= 10 {
        (2 * linear - 1) * 1292 <= 200 * encoded < (2 * linear + 1) * 1292
    } else {
        pow5(2 * linear - 1) * pow12(269025) <= pow12(1000 * encoded + 14025) * pow5(510) < pow5(
            2 * linear + 1,
        ) * pow12(269025)
    }
}

/// Encoded sRGB level of a linear eight-bit level.
pub open spec fn encode_level(level: nat) -> nat
    recommends
        level <= 255,
{
    SRGB_ENCODE@[level as int] as nat
}

/// Linear level of an encoded eight-bit sRGB level.
pub open spec fn decode_level(level: nat) -> nat
    recommends
        level <= 255,
{
    SRGB_DECODE@[level as int] as nat
}

/// Look up the encoded level of a linear level.
pub fn encode(level: u8) -> (r: u8)
    ensures
        r as nat == encode_level(level as nat),
{
    SRGB_ENCODE[level as usize]
}

/// Look up the linear level of an encoded level.
pub fn decode(level: u8) -> (r: u8)
    ensures
        r as nat == decode_level(level as nat),
{
    SRGB_DECODE[level as usize]
}

/// Every entry of both tables is the level nearest to the sRGB transfer
/// function.
pub proof fn lemma_tables_exact(level: nat)
    requires
        level <= 255,
    ensures
        is_encoded(level as int, encode_level(level) as int),
        is_decoded(level as int, decode_level(level) as int),
{
    if 0 <= level < 16 {
        assert(
            is_encoded(0, 0x00) && is_encoded(1, 0x0D) && is_encoded(2, 0x16) && is_encoded(3, 0x1C)
            && is_encoded(4, 0x22) && is_encoded(5, 0x26) && is_encoded(6, 0x2A) && is_encoded(7, 0x2E)
            && is_encoded(8, 0x32) && is_encoded(9, 0x35) && is_encoded(10, 0x38) && is_encoded(11, 0x3B)
            && is_encoded(12, 0x3D) && is_encoded(13, 0x40) && is_encoded(14, 0x42) && is_encoded(15, 0x45)
        ) by (nonlinear_arith);
        assert(
            is_decoded(0, 0x00) && is_decoded(1, 0x00) && is_decoded(2, 0x00) && is_decoded(3, 0x00)
            && is_decoded(4, 0x00) && is_decoded(5, 0x00) && is_decoded(6, 0x00) && is_decoded(7, 0x01)
            && is_decoded(8, 0x01) && is_decoded(9, 0x01) && is_decoded(10, 0x01) && is_decoded(11, 0x01)
            && is_decoded(12, 0x01) && is_decoded(13, 0x01) && is_decoded(14, 0x01) && is_decoded(15, 0x01)
        ) by (nonlinear_arith);
    }
    if 16 <= level < 32 {
        assert(
            is_encoded(16, 0x47) && is_encoded(17, 0x49) && is_encoded(18, 0x4B) && is_encoded(19, 0x4D)
            && is_encoded(20, 0x4F) && is_encoded(21, 0x51) && is_encoded(22, 0x53) && is_encoded(23, 0x55)
            && is_encoded(24, 0x56) && is_encoded(25, 0x58) && is_encoded(26, 0x5A) && is_encoded(27, 0x5C)
            && is_encoded(28, 0x5D) && is_encoded(29, 0x5F) && is_encoded(30, 0x60) && is_encoded(31, 0x62)
        ) by (nonlinear_arith);
        assert(
            is_decoded(16, 0x01) && is_decoded(17, 0x01) && is_decoded(18, 0x02) && is_decoded(19, 0x02)
            && is_decoded(20, 0x02) && is_decoded(21, 0x02) && is_decoded(22, 0x02) && is_decoded(23, 0x02)
            && is_decoded(24, 0x02) && is_decoded(25, 0x02) && is_decoded(26, 0x03) && is_decoded(27, 0x03)
            && is_decoded(28, 0x03) && is_decoded(29, 0x03) && is_decoded(30, 0x03) && is_decoded(31, 0x03)
        ) by (nonlinear_arith);
    }
    if 32 <= level < 48 {
        assert(
            is_encoded(32, 0x63) && is_encoded(33, 0x65) && is_encoded(34, 0x66) && is_encoded(35, 0x68)
            && is_encoded(36, 0x69) && is_encoded(37, 0x6A) && is_encoded(38, 0x6C) && is_encoded(39, 0x6D)
            && is_encoded(40, 0x6E) && is_encoded(41, 0x70) && is_encoded(42, 0x71) && is_encoded(43, 0x72)
            && is_encoded(44, 0x73) && is_encoded(45, 0x75) && is_encoded(46, 0x76) && is_encoded(47, 0x77)
        ) by (nonlinear_arith);
        assert(
            is_decoded(32, 0x04) && is_decoded(33, 0x04) && is_decoded(34, 0x04) && is_decoded(35, 0x04)
            && is_decoded(36, 0x04) && is_decoded(37, 0x05) && is_decoded(38, 0x05) && is_decoded(39, 0x05)
            && is_decoded(40, 0x05) && is_decoded(41, 0x06) && is_decoded(42, 0x06) && is_decoded(43, 0x06)
            && is_decoded(44, 0x06) && is_decoded(45, 0x07) && is_decoded(46, 0x07) && is_decoded(47, 0x07)
        ) by (nonlinear_arith);
    }
    if 48 <= level < 64 {
        assert(
            is_encoded(48, 0x78) && is_encoded(49, 0x79) && is_encoded(50, 0x7A) && is_encoded(51, 0x7C)
            && is_encoded(52, 0x7D) && is_encoded(53, 0x7E) && is_encoded(54, 0x7F) && is_encoded(55, 0x80)
            && is_encoded(56, 0x81) && is_encoded(57, 0x82) && is_encoded(58, 0x83) && is_encoded(59, 0x84)
            && is_encoded(60, 0x85) && is_encoded(61, 0x86) && is_encoded(62, 0x87) && is_encoded(63, 0x88)
        ) by (nonlinear_arith);
        assert(
            is_decoded(48, 0x08) && is_decoded(49, 0x08) && is_decoded(50, 0x08) && is_decoded(51, 0x08)
            && is_decoded(52, 0x09) && is_decoded(53, 0x09) && is_decoded(54, 0x09) && is_decoded(55, 0x0A)
            && is_decoded(56, 0x0A) && is_decoded(57, 0x0A) && is_decoded(58, 0x0B) && is_decoded(59, 0x0B)
            && is_decoded(60, 0x0C) && is_decoded(61, 0x0C) && is_decoded(62, 0x0C) && is_decoded(63, 0x0D)
        ) by (nonlinear_arith);
    }
    if 64 <= level < 80 {
        assert(
            is_encoded(64, 0x89) && is_encoded(65, 0x8A) && is_encoded(66, 0x8B) && is_encoded(67, 0x8C)
            && is_encoded(68, 0x8D) && is_encoded(69, 0x8E) && is_encoded(70, 0x8F) && is_encoded(71, 0x90)
            && is_encoded(72, 0x91) && is_encoded(73, 0x92) && is_encoded(74, 0x93) && is_encoded(75, 0x94)
            && is_encoded(76, 0x94) && is_encoded(77, 0x95) && is_encoded(78, 0x96) && is_encoded(79, 0x97)
        ) by (nonlinear_arith);
        assert(
            is_decoded(64, 0x0D) && is_decoded(65, 0x0D) && is_decoded(66, 0x0E) && is_decoded(67, 0x0E)
            && is_decoded(68, 0x0F) && is_decoded(69, 0x0F) && is_decoded(70, 0x10) && is_decoded(71, 0x10)
            && is_decoded(72, 0x11) && is_decoded(73, 0x11) && is_decoded(74, 0x11) && is_decoded(75, 0x12)
            && is_decoded(76, 0x12) && is_decoded(77, 0x13) && is_decoded(78, 0x13) && is_decoded(79, 0x14)
        ) by (nonlinear_arith);
    }
    if 80 <= level < 96 {
        assert(
            is_encoded(80, 0x98) && is_encoded(81, 0x99) && is_encoded(82, 0x9A) && is_encoded(83, 0x9B)
            && is_encoded(84, 0x9B) && is_encoded(85, 0x9C) && is_encoded(86, 0x9D) && is_encoded(87, 0x9E)
            && is_encoded(88, 0x9F) && is_encoded(89, 0x9F) && is_encoded(90, 0xA0) && is_encoded(91, 0xA1)
            && is_encoded(92, 0xA2) && is_encoded(93, 0xA3) && is_encoded(94, 0xA3) && is_encoded(95, 0xA4)
        ) by (nonlinear_arith);
        assert(
            is_decoded(80, 0x14) && is_decoded(81, 0x15) && is_decoded(82, 0x16) && is_decoded(83, 0x16)
            && is_decoded(84, 0x17) && is_decoded(85, 0x17) && is_decoded(86, 0x18) && is_decoded(87, 0x18)
            && is_decoded(88, 0x19) && is_decoded(89, 0x19) && is_decoded(90, 0x1A) && is_decoded(91, 0x1B)
            && is_decoded(92, 0x1B) && is_decoded(93, 0x1C) && is_decoded(94, 0x1D) && is_decoded(95, 0x1D)
        ) by (nonlinear_arith);
    }
    if 96 <= level < 112 {
        assert(
            is_encoded(96, 0xA5) && is_encoded(97, 0xA6) && is_encoded(98, 0xA7) && is_encoded(99, 0xA7)
            && is_encoded(100, 0xA8) && is_encoded(101, 0xA9) && is_encoded(102, 0xAA) && is_encoded(103, 0xAA)
            && is_encoded(104, 0xAB) && is_encoded(105, 0xAC) && is_encoded(106, 0xAD) && is_encoded(107, 0xAD)
            && is_encoded(108, 0xAE) && is_encoded(109, 0xAF) && is_encoded(110, 0xAF) && is_encoded(111, 0xB0)
        ) by (nonlinear_arith);
        assert(
            is_decoded(96, 0x1E) && is_decoded(97, 0x1E) && is_decoded(98, 0x1F) && is_decoded(99, 0x20)
            && is_decoded(100, 0x20) && is_decoded(101, 0x21) && is_decoded(102, 0x22) && is_decoded(103, 0x23)
            && is_decoded(104, 0x23) && is_decoded(105, 0x24) && is_decoded(106, 0x25) && is_decoded(107, 0x25)
            && is_decoded(108, 0x26) && is_decoded(109, 0x27) && is_decoded(110, 0x28) && is_decoded(111, 0x29)
        ) by (nonlinear_arith);
    }
    if 112 <= level < 128 {
        assert(
            is_encoded(112, 0xB1) && is_encoded(113, 0xB2) && is_encoded(114, 0xB2) && is_encoded(115, 0xB3)
            && is_encoded(116, 0xB4) && is_encoded(117, 0xB4) && is_encoded(118, 0xB5) && is_encoded(119, 0xB6)
            && is_encoded(120, 0xB6) && is_encoded(121, 0xB7) && is_encoded(122, 0xB8) && is_encoded(123, 0xB9)
            && is_encoded(124, 0xB9) && is_encoded(125, 0xBA) && is_encoded(126, 0xBB) && is_encoded(127, 0xBB)
        ) by (nonlinear_arith);
        assert(
            is_decoded(112, 0x29) && is_decoded(113, 0x2A) && is_decoded(114, 0x2B) && is_decoded(115, 0x2C)
            && is_decoded(116, 0x2D) && is_decoded(117, 0x2D) && is_decoded(118, 0x2E) && is_decoded(119, 0x2F)
            && is_decoded(120, 0x30) && is_decoded(121, 0x31) && is_decoded(122, 0x32) && is_decoded(123, 0x33)
            && is_decoded(124, 0x33) && is_decoded(125, 0x34) && is_decoded(126, 0x35) && is_decoded(127, 0x36)
        ) by (nonlinear_arith);
    }
    if 128 <= level < 144 {
        assert(
            is_encoded(128, 0xBC) && is_encoded(129, 0xBD) && is_encoded(130, 0xBD) && is_encoded(131, 0xBE)
            && is_encoded(132, 0xBE) && is_encoded(133, 0xBF) && is_encoded(134, 0xC0) && is_encoded(135, 0xC0)
            && is_encoded(136, 0xC1) && is_encoded(137, 0xC2) && is_encoded(138, 0xC2) && is_encoded(139, 0xC3)
            && is_encoded(140, 0xC4) && is_encoded(141, 0xC4) && is_encoded(142, 0xC5) && is_encoded(143, 0xC5)
        ) by (nonlinear_arith);
        assert(
            is_decoded(128, 0x37) && is_decoded(129, 0x38) && is_decoded(130, 0x39) && is_decoded(131, 0x3A)
            && is_decoded(132, 0x3B) && is_decoded(133, 0x3C) && is_decoded(134, 0x3D) && is_decoded(135, 0x3E)
            && is_decoded(136, 0x3F) && is_decoded(137, 0x40) && is_decoded(138, 0x41) && is_decoded(139, 0x42)
            && is_decoded(140, 0x43) && is_decoded(141, 0x44) && is_decoded(142, 0x45) && is_decoded(143, 0x46)
        ) by (nonlinear_arith);
    }
    if 144 <= level < 160 {
        assert(
            is_encoded(144, 0xC6) && is_encoded(145, 0xC7) && is_encoded(146, 0xC7) && is_encoded(147, 0xC8)
            && is_encoded(148, 0xC8) && is_encoded(149, 0xC9) && is_encoded(150, 0xCA) && is_encoded(151, 0xCA)
            && is_encoded(152, 0xCB) && is_encoded(153, 0xCB) && is_encoded(154, 0xCC) && is_encoded(155, 0xCD)
            && is_encoded(156, 0xCD) && is_encoded(157, 0xCE) && is_encoded(158, 0xCE) && is_encoded(159, 0xCF)
        ) by (nonlinear_arith);
        assert(
            is_decoded(144, 0x47) && is_decoded(145, 0x48) && is_decoded(146, 0x49) && is_decoded(147, 0x4A)
            && is_decoded(148, 0x4C) && is_decoded(149, 0x4D) && is_decoded(150, 0x4E) && is_decoded(151, 0x4F)
            && is_decoded(152, 0x50) && is_decoded(153, 0x51) && is_decoded(154, 0x52) && is_decoded(155, 0x54)
            && is_decoded(156, 0x55) && is_decoded(157, 0x56) && is_decoded(158, 0x57) && is_decoded(159, 0x58)
        ) by (nonlinear_arith);
    }
    if 160 <= level < 176 {
        assert(
            is_encoded(160, 0xD0) && is_encoded(161, 0xD0) && is_encoded(162, 0xD1) && is_encoded(163, 0xD1)
            && is_encoded(164, 0xD2) && is_encoded(165, 0xD2) && is_encoded(166, 0xD3) && is_encoded(167, 0xD4)
            && is_encoded(168, 0xD4) && is_encoded(169, 0xD5) && is_encoded(170, 0xD5) && is_encoded(171, 0xD6)
            && is_encoded(172, 0xD6) && is_encoded(173, 0xD7) && is_encoded(174, 0xD7) && is_encoded(175, 0xD8)
        ) by (nonlinear_arith);
        assert(
            is_decoded(160, 0x5A) && is_decoded(161, 0x5B) && is_decoded(162, 0x5C) && is_decoded(163, 0x5D)
            && is_decoded(164, 0x5F) && is_decoded(165, 0x60) && is_decoded(166, 0x61) && is_decoded(167, 0x63)
            && is_decoded(168, 0x64) && is_decoded(169, 0x65) && is_decoded(170, 0x67) && is_decoded(171, 0x68)
            && is_decoded(172, 0x69) && is_decoded(173, 0x6B) && is_decoded(174, 0x6C) && is_decoded(175, 0x6D)
        ) by (nonlinear_arith);
    }
    if 176 <= level < 192 {
        assert(
            is_encoded(176, 0xD8) && is_encoded(177, 0xD9) && is_encoded(178, 0xDA) && is_encoded(179, 0xDA)
            && is_encoded(180, 0xDB) && is_encoded(181, 0xDB) && is_encoded(182, 0xDC) && is_encoded(183, 0xDC)
            && is_encoded(184, 0xDD) && is_encoded(185, 0xDD) && is_encoded(186, 0xDE) && is_encoded(187, 0xDE)
            && is_encoded(188, 0xDF) && is_encoded(189, 0xDF) && is_encoded(190, 0xE0) && is_encoded(191, 0xE0)
        ) by (nonlinear_arith);
        assert(
            is_decoded(176, 0x6F) && is_decoded(177, 0x70) && is_decoded(178, 0x72) && is_decoded(179, 0x73)
            && is_decoded(180, 0x74) && is_decoded(181, 0x76) && is_decoded(182, 0x77) && is_decoded(183, 0x79)
            && is_decoded(184, 0x7A) && is_decoded(185, 0x7C) && is_decoded(186, 0x7D) && is_decoded(187, 0x7F)
            && is_decoded(188, 0x80) && is_decoded(189, 0x82) && is_decoded(190, 0x83) && is_decoded(191, 0x85)
        ) by (nonlinear_arith);
    }
    if 192 <= level < 208 {
        assert(
            is_encoded(192, 0xE1) && is_encoded(193, 0xE2) && is_encoded(194, 0xE2) && is_encoded(195, 0xE3)
            && is_encoded(196, 0xE3) && is_encoded(197, 0xE4) && is_encoded(198, 0xE4) && is_encoded(199, 0xE5)
            && is_encoded(200, 0xE5) && is_encoded(201, 0xE6) && is_encoded(202, 0xE6) && is_encoded(203, 0xE7)
            && is_encoded(204, 0xE7) && is_encoded(205, 0xE8) && is_encoded(206, 0xE8) && is_encoded(207, 0xE9)
        ) by (nonlinear_arith);
        assert(
            is_decoded(192, 0x86) && is_decoded(193, 0x88) && is_decoded(194, 0x8A) && is_decoded(195, 0x8B)
            && is_decoded(196, 0x8D) && is_decoded(197, 0x8E) && is_decoded(198, 0x90) && is_decoded(199, 0x92)
            && is_decoded(200, 0x93) && is_decoded(201, 0x95) && is_decoded(202, 0x97) && is_decoded(203, 0x98)
            && is_decoded(204, 0x9A) && is_decoded(205, 0x9C) && is_decoded(206, 0x9D) && is_decoded(207, 0x9F)
        ) by (nonlinear_arith);
    }
    if 208 <= level < 224 {
        assert(
            is_encoded(208, 0xE9) && is_encoded(209, 0xEA) && is_encoded(210, 0xEA) && is_encoded(211, 0xEB)
            && is_encoded(212, 0xEB) && is_encoded(213, 0xEC) && is_encoded(214, 0xEC) && is_encoded(215, 0xED)
            && is_encoded(216, 0xED) && is_encoded(217, 0xEE) && is_encoded(218, 0xEE) && is_encoded(219, 0xEE)
            && is_encoded(220, 0xEF) && is_encoded(221, 0xEF) && is_encoded(222, 0xF0) && is_encoded(223, 0xF0)
        ) by (nonlinear_arith);
        assert(
            is_decoded(208, 0xA1) && is_decoded(209, 0xA3) && is_decoded(210, 0xA4) && is_decoded(211, 0xA6)
            && is_decoded(212, 0xA8) && is_decoded(213, 0xAA) && is_decoded(214, 0xAB) && is_decoded(215, 0xAD)
            && is_decoded(216, 0xAF) && is_decoded(217, 0xB1) && is_decoded(218, 0xB3) && is_decoded(219, 0xB5)
            && is_decoded(220, 0xB7) && is_decoded(221, 0xB8) && is_decoded(222, 0xBA) && is_decoded(223, 0xBC)
        ) by (nonlinear_arith);
    }
    if 224 <= level < 240 {
        assert(
            is_encoded(224, 0xF1) && is_encoded(225, 0xF1) && is_encoded(226, 0xF2) && is_encoded(227, 0xF2)
            && is_encoded(228, 0xF3) && is_encoded(229, 0xF3) && is_encoded(230, 0xF4) && is_encoded(231, 0xF4)
            && is_encoded(232, 0xF5) && is_encoded(233, 0xF5) && is_encoded(234, 0xF6) && is_encoded(235, 0xF6)
            && is_encoded(236, 0xF6) && is_encoded(237, 0xF7) && is_encoded(238, 0xF7) && is_encoded(239, 0xF8)
        ) by (nonlinear_arith);
        assert(
            is_decoded(224, 0xBE) && is_decoded(225, 0xC0) && is_decoded(226, 0xC2) && is_decoded(227, 0xC4)
            && is_decoded(228, 0xC6) && is_decoded(229, 0xC8) && is_decoded(230, 0xCA) && is_decoded(231, 0xCC)
            && is_decoded(232, 0xCE) && is_decoded(233, 0xD0) && is_decoded(234, 0xD2) && is_decoded(235, 0xD4)
            && is_decoded(236, 0xD6) && is_decoded(237, 0xD8) && is_decoded(238, 0xDA) && is_decoded(239, 0xDC)
        ) by (nonlinear_arith);
    }
    if 240 <= level < 256 {
        assert(
            is_encoded(240, 0xF8) && is_encoded(241, 0xF9) && is_encoded(242, 0xF9) && is_encoded(243, 0xFA)
            && is_encoded(244, 0xFA) && is_encoded(245, 0xFB) && is_encoded(246, 0xFB) && is_encoded(247, 0xFB)
            && is_encoded(248, 0xFC) && is_encoded(249, 0xFC) && is_encoded(250, 0xFD) && is_encoded(251, 0xFD)
            && is_encoded(252, 0xFE) && is_encoded(253, 0xFE) && is_encoded(254, 0xFF) && is_encoded(255, 0xFF)
        ) by (nonlinear_arith);
        assert(
            is_decoded(240, 0xDE) && is_decoded(241, 0xE0) && is_decoded(242, 0xE2) && is_decoded(243, 0xE5)
            && is_decoded(244, 0xE7) && is_decoded(245, 0xE9) && is_decoded(246, 0xEB) && is_decoded(247, 0xED)
            && is_decoded(248, 0xEF) && is_decoded(249, 0xF2) && is_decoded(250, 0xF4) && is_decoded(251, 0xF6)
            && is_decoded(252, 0xF8) && is_decoded(253, 0xFA) && is_decoded(254, 0xFD) && is_decoded(255, 0xFF)
        ) by (nonlinear_arith);
    }
}

/// Both tables never decrease from one level to the next.
pub proof fn lemma_tables_monotonic(level: nat)
    requires
        level < 255,
    ensures
        encode_level(level) <= encode_level(level + 1),
        decode_level(level) <= decode_level(level + 1),
{
}

/// Encoding a linear level and decoding it again gives it back to within one
/// level.
pub proof fn lemma_encode_decode(level: nat)
    requires
        level <= 255,
    ensures
        encode_level(level) <= 255,
        decode_level(encode_level(level)) <= level + 1,
        level <= decode_level(encode_level(level)) + 1,
{
}

/// Level between two neighbouring table entries, on a scale 257 times finer
/// than the table's own.
///
/// A sixteen-bit level is `257 * hi + lo` with `lo < 257`.  Entry `hi` stands at
/// `lo == 0`, and the levels up to the next entry are spread evenly between
/// the two.
pub open spec fn spread_level(table: Seq<u8>, level: nat) -> nat
    recommends
        table.len() == 256,
        level <= 65535,
{
    let hi = (level / 257) as int;
    let lo = level % 257;
    if hi >= 255 {
        257 * (table[255] as nat)
    } else {
        (257 * table[hi] + (table[hi + 1] - table[hi]) * lo) as nat
    }
}

/// Encoded sRGB level of a linear sixteen-bit level.
pub open spec fn encode_level_wide(level: nat) -> nat
    recommends
        level <= 65535,
{
    spread_level(SRGB_ENCODE@, level)
}

/// Linear level of an encoded sixteen-bit sRGB level.
pub open spec fn decode_level_wide(level: nat) -> nat
    recommends
        level <= 65535,
{
    spread_level(SRGB_DECODE@, level)
}

/// Spread levels stay within sixteen bits.
pub proof fn lemma_spread_bound(table: Seq<u8>, level: nat)
    requires
        table.len() == 256,
        level <= 65535,
        forall|i: int| 0 <= i < 255 ==> table[i] <= #[trigger] table[i + 1],
    ensures
        spread_level(table, level) <= 65535,
{
    let hi = (level / 257) as int;
    let lo = level % 257;
    if hi < 255 {
        let t0 = table[hi] as int;
        let t1 = table[hi + 1] as int;
        assert(257 * t0 + (t1 - t0) * lo <= 257 * t1) by (nonlinear_arith)
            requires
                t0 <= t1,
                0 <= lo < 257,
        ;
    }
}

fn spread(table: &[u8; 256], level: u16) -> (r: u16)
    requires
        forall|i: int| 0 <= i < 255 ==> table@[i] <= #[trigger] table@[i + 1],
    ensures
        r as nat == spread_level(table@, level as nat),
{
    let hi: usize = (level / 257) as usize;
    let lo: u32 = (level % 257) as u32;
    let t0: u32 = table[hi] as u32;
    if hi >= 255 {
        (257 * t0) as u16
    } else {
        let t1: u32 = table[hi + 1] as u32;
        assert(t0 <= t1);
        assert(257 * t0 + (t1 - t0) * lo <= 257 * t1) by (nonlinear_arith)
            requires
                t0 <= t1,
                0 <= lo < 257,
        ;
        (257 * t0 + (t1 - t0) * lo) as u16
    }
}

/// Look up the encoded level of a linear sixteen-bit level.
pub fn encode_wide(level: u16) -> (r: u16)
    ensures
        r as nat == encode_level_wide(level as nat),
{
    assert forall|i: int| 0 <= i < 255 implies SRGB_ENCODE@[i] <= #[trigger] SRGB_ENCODE@[i + 1] by {
        lemma_tables_monotonic(i as nat);
    }
    spread(&SRGB_ENCODE, level)
}

/// Look up the linear level of an encoded sixteen-bit level.
pub fn decode_wide(level: u16) -> (r: u16)
    ensures
        r as nat == decode_level_wide(level as nat),
{
    assert forall|i: int| 0 <= i < 255 implies SRGB_DECODE@[i] <= #[trigger] SRGB_DECODE@[i + 1] by {
        lemma_tables_monotonic(i as nat);
    }
    spread(&SRGB_DECODE, level)
}

/// The wide transfer functions stay within sixteen bits.
pub proof fn lemma_wide_bound(level: nat)
    requires
        level <= 65535,
    ensures
        encode_level_wide(level) <= 65535,
        decode_level_wide(level) <= 65535,
{
    assert forall|i: int| 0 <= i < 255 implies SRGB_ENCODE@[i] <= #[trigger] SRGB_ENCODE@[i + 1] by {
        lemma_tables_monotonic(i as nat);
    }
    assert forall|i: int| 0 <= i < 255 implies SRGB_DECODE@[i] <= #[trigger] SRGB_DECODE@[i + 1] by {
        lemma_tables_monotonic(i as nat);
    }
    lemma_spread_bound(SRGB_ENCODE@, level);
    lemma_spread_bound(SRGB_DECODE@, level);
}

} // verus!
