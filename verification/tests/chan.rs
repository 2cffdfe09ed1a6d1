use pix::chan::{
    Alpha, AlphaMode, Ch16, Ch8, Channel, FromChannel, Gamma, GammaMode, Linear, Premultiplied,
    Srgb, Straight,
};
use pix::srgb;

#[test]
fn ch8_minimum_and_maximum() {
    assert_eq!(Ch8::minimum(), Ch8::new(0));
    assert_eq!(Ch8::maximum(), Ch8::new(0xFF));
    assert_eq!(Ch8::maximum().value(), 255);
}

#[test]
fn ch16_minimum_and_maximum() {
    assert_eq!(Ch16::minimum(), Ch16::new(0));
    assert_eq!(Ch16::maximum(), Ch16::new(0xFFFF));
    assert_eq!(Ch16::maximum().value(), 65535);
}

#[test]
fn ch8_from_u8() {
    assert_eq!(Ch8::from(0x5Au8), Ch8::new(0x5A));
    assert_eq!(Ch8::from(0x5Au8).value(), 0x5A);
}

#[test]
fn ch16_from_u16() {
    assert_eq!(Ch16::from(0x5AA5u16), Ch16::new(0x5AA5));
    assert_eq!(Ch16::from(0x5AA5u16).value(), 0x5AA5);
}

#[test]
fn ch8_order() {
    assert!(Ch8::new(3).le(Ch8::new(4)));
    assert!(Ch8::new(4).le(Ch8::new(4)));
    assert!(!Ch8::new(5).le(Ch8::new(4)));
}

#[test]
fn ch8_add_saturates() {
    assert_eq!(Ch8::new(0x10).add(Ch8::new(0x20)), Ch8::new(0x30));
    assert_eq!(Ch8::new(0xF0).add(Ch8::new(0x20)), Ch8::new(0xFF));
    assert_eq!(Ch8::new(0x7B).add(Ch8::new(0)), Ch8::new(0x7B));
}

#[test]
fn ch8_sub_saturates() {
    assert_eq!(Ch8::new(0x30).sub(Ch8::new(0x10)), Ch8::new(0x20));
    assert_eq!(Ch8::new(0x10).sub(Ch8::new(0x30)), Ch8::new(0));
    assert_eq!(Ch8::new(0xFF).sub(Ch8::new(0x80)), Ch8::new(0x7F));
}

#[test]
fn ch8_mul() {
    assert_eq!(Ch8::new(0x20).mul(Ch8::new(0x80)), Ch8::new(0x10));
    assert_eq!(Ch8::new(0x80).mul(Ch8::new(0xBF)), Ch8::new(0x60));
    assert_eq!(Ch8::new(0xFF).mul(Ch8::new(0xFF)), Ch8::new(0xFF));
    assert_eq!(Ch8::new(0xC8).mul(Ch8::new(0)), Ch8::new(0));
    assert_eq!(Ch8::new(0).mul(Ch8::new(0xC8)), Ch8::new(0));
}

#[test]
fn ch8_mul_by_maximum_loses_low_levels() {
    assert_eq!(Ch8::new(1).mul(Ch8::new(0xFF)), Ch8::new(0));
    assert_eq!(Ch8::new(5).mul(Ch8::new(0xFF)), Ch8::new(4));
    assert_eq!(Ch8::new(15).mul(Ch8::new(0xFF)), Ch8::new(14));
    for level in 16..=255u8 {
        assert_eq!(Ch8::new(level).mul(Ch8::new(0xFF)), Ch8::new(level));
    }
}

#[test]
fn ch8_div() {
    assert_eq!(Ch8::new(0x20).div(Ch8::new(0x80)), Ch8::new(0x40));
    assert_eq!(Ch8::new(0x40).div(Ch8::new(0xBF)), Ch8::new(0x55));
    assert_eq!(Ch8::new(0x80).div(Ch8::new(0x80)), Ch8::new(0xFF));
    assert_eq!(Ch8::new(0xC0).div(Ch8::new(0x40)), Ch8::new(0xFF));
    assert_eq!(Ch8::new(0x40).div(Ch8::new(0)), Ch8::new(0));
}

#[test]
fn ch16_arithmetic() {
    assert_eq!(Ch16::new(0xF000).add(Ch16::new(0x2000)), Ch16::new(0xFFFF));
    assert_eq!(Ch16::new(0x1000).sub(Ch16::new(0x2000)), Ch16::new(0));
    assert_eq!(Ch16::new(0x8000).mul(Ch16::new(0x8000)), Ch16::new(0x4000));
    assert_eq!(Ch16::new(0x1000).mul(Ch16::new(0x4000)), Ch16::new(0x0400));
    assert_eq!(Ch16::new(0xFFFF).mul(Ch16::new(0xFFFF)), Ch16::new(0xFFFF));
    assert_eq!(Ch16::new(1).mul(Ch16::new(0xFFFF)), Ch16::new(0));
    assert_eq!(Ch16::new(256).mul(Ch16::new(0xFFFF)), Ch16::new(256));
    assert_eq!(Ch16::new(0x1000).div(Ch16::new(0x4000)), Ch16::new(0x4000));
    assert_eq!(Ch16::new(0x2000).div(Ch16::new(0x4000)), Ch16::new(0x8000));
    assert_eq!(Ch16::new(0x4000).div(Ch16::new(0x4000)), Ch16::new(0xFFFF));
    assert_eq!(Ch16::new(0x4000).div(Ch16::new(0)), Ch16::new(0));
    assert!(Ch16::new(0x1234).le(Ch16::new(0x1235)));
    assert!(!Ch16::new(0x1235).le(Ch16::new(0x1234)));
}

#[test]
fn widen_to_sixteen_bits() {
    assert_eq!(Ch16::from_channel(Ch8::new(0x29)), Ch16::new(0x2929));
    assert_eq!(Ch16::from_channel(Ch8::new(0)), Ch16::new(0));
    assert_eq!(Ch16::from_channel(Ch8::new(0xFF)), Ch16::new(0xFFFF));
}

#[test]
fn narrow_to_eight_bits() {
    assert_eq!(Ch8::from_channel(Ch16::new(0x337F)), Ch8::new(0x33));
    assert_eq!(Ch8::from_channel(Ch16::new(0xF453)), Ch8::new(0xF4));
    assert_eq!(Ch8::from_channel(Ch16::new(0xFFFF)), Ch8::new(0xFF));
}

#[test]
fn same_precision_is_kept() {
    assert_eq!(Ch8::from_channel(Ch8::new(0x5A)), Ch8::new(0x5A));
    assert_eq!(Ch16::from_channel(Ch16::new(0x5AA5)), Ch16::new(0x5AA5));
}

#[test]
fn widen_then_narrow_gives_back_every_level() {
    for level in 0..=255u8 {
        let wide = Ch16::from_channel(Ch8::new(level));
        assert_eq!(Ch8::from_channel(wide), Ch8::new(level));
    }
}

#[test]
fn srgb_tables() {
    assert_eq!(srgb::encode(0), 0);
    assert_eq!(srgb::encode(0xDC), 0xEF);
    assert_eq!(srgb::encode(0x43), 0x8C);
    assert_eq!(srgb::encode(0x91), 0xC7);
    assert_eq!(srgb::encode(0xFF), 0xFF);
    assert_eq!(srgb::decode(0), 0);
    assert_eq!(srgb::decode(0xEF), 0xDC);
    assert_eq!(srgb::decode(0x8C), 0x43);
    assert_eq!(srgb::decode(0xC7), 0x92);
    assert_eq!(srgb::decode(0xFF), 0xFF);
}

#[test]
fn srgb_tables_never_decrease() {
    for level in 0..255u8 {
        assert!(srgb::encode(level) <= srgb::encode(level + 1));
        assert!(srgb::decode(level) <= srgb::decode(level + 1));
    }
}

#[test]
fn srgb_wide_meets_the_tables() {
    for level in 0..=255u8 {
        let wide = u16::from(level) * 257;
        assert_eq!(srgb::encode_wide(wide), u16::from(srgb::encode(level)) * 257);
        assert_eq!(srgb::decode_wide(wide), u16::from(srgb::decode(level)) * 257);
    }
}

#[test]
fn srgb_wide_between_table_entries() {
    assert_eq!(srgb::encode_wide(0xDC00), 0xEF13);
    assert_eq!(srgb::encode_wide(0x8000), 0xBC3C);
    assert_eq!(srgb::decode_wide(0x8000), 0x36B7);
    assert_eq!(srgb::decode_wide(0xEFEF), 0xDCDC);
}

#[test]
fn channel_srgb() {
    assert_eq!(Ch8::new(0xDC).encode_srgb(), Ch8::new(0xEF));
    assert_eq!(Ch8::new(0xEF).decode_srgb(), Ch8::new(0xDC));
    assert_eq!(Ch16::new(0xDCDC).encode_srgb(), Ch16::new(0xEFEF));
    assert_eq!(Ch16::new(0x8000).decode_srgb(), Ch16::new(0x36B7));
}

#[test]
fn alpha_modes() {
    assert_eq!(Straight::MODE, AlphaMode::Straight);
    assert_eq!(Premultiplied::MODE, AlphaMode::Premultiplied);
    assert_eq!(Straight::encode(Ch8::new(0x20), Ch8::new(0x80)), Ch8::new(0x20));
    assert_eq!(Straight::decode(Ch8::new(0x20), Ch8::new(0x80)), Ch8::new(0x20));
    assert_eq!(Premultiplied::encode(Ch8::new(0x20), Ch8::new(0x80)), Ch8::new(0x10));
    assert_eq!(Premultiplied::decode(Ch8::new(0x10), Ch8::new(0x80)), Ch8::new(0x20));
}

#[test]
fn gamma_modes() {
    assert_eq!(Linear::MODE, GammaMode::Linear);
    assert_eq!(Srgb::MODE, GammaMode::Srgb);
    assert_eq!(Linear::to_linear(Ch8::new(0x8C)), Ch8::new(0x8C));
    assert_eq!(Linear::from_linear(Ch8::new(0x43)), Ch8::new(0x43));
    assert_eq!(Srgb::to_linear(Ch8::new(0x8C)), Ch8::new(0x43));
    assert_eq!(Srgb::from_linear(Ch8::new(0x43)), Ch8::new(0x8C));
}

#[test]
fn premultiplied_round_trip_is_within_one_level() {
    let cases: [(u8, u8); 6] =
        [(0x20, 0x80), (0x40, 0x80), (0x80, 0x80), (0x7F, 0xFF), (0xC8, 0xC0), (0x01, 0xFF)];
    for (value, alpha) in cases {
        let encoded = Premultiplied::encode(Ch8::new(value), Ch8::new(alpha));
        let decoded = Premultiplied::decode(encoded, Ch8::new(alpha)).value();
        assert!(decoded.abs_diff(value) <= 1);
    }
    assert_eq!(
        Premultiplied::decode(
            Premultiplied::encode(Ch8::new(0xC8), Ch8::new(0xC0)),
            Ch8::new(0xC0)
        ),
        Ch8::new(0xC9)
    );
}

#[test]
fn premultiplied_round_trip_under_full_alpha() {
    for level in 0..=255u8 {
        let full = Ch8::new(0xFF);
        let encoded = Premultiplied::encode(Ch8::new(level), full);
        let decoded = Premultiplied::decode(encoded, full).value();
        assert!(decoded <= level && level - decoded <= 1);
    }
    for level in [0u16, 1, 255, 256, 0x8000, 0xFFFE, 0xFFFF] {
        let full = Ch16::new(0xFFFF);
        let encoded = Premultiplied::encode(Ch16::new(level), full);
        let decoded = Premultiplied::decode(encoded, full).value();
        assert!(decoded <= level && level - decoded <= 1);
    }
}

#[test]
fn srgb_encode_then_decode_is_within_one_level() {
    for level in 0..=255u8 {
        let back = srgb::decode(srgb::encode(level));
        assert!(back.abs_diff(level) <= 1);
    }
    assert_eq!(srgb::decode(srgb::encode(0x91)), 0x92);
}

#[test]
fn srgb_tables_follow_the_transfer_function() {
    for level in 0..=255u8 {
        let v = f64::from(level) / 255.0;
        let encoded = if v < 0.003_130_8 { v * 12.92 } else { 1.055 * v.powf(1.0 / 2.4) - 0.055 };
        assert_eq!(f64::from(srgb::encode(level)), (encoded * 255.0).round());
        let decoded = if v < 0.04045 { v / 12.92 } else { ((v + 0.055) / 1.055).powf(2.4) };
        assert_eq!(f64::from(srgb::decode(level)), (decoded * 255.0).round());
    }
}

#[test]
fn product_is_no_more_than_either_factor() {
    for a in [0u8, 1, 15, 16, 0x7F, 0x80, 0xFE, 0xFF] {
        for b in 0..=255u8 {
            let product = Ch8::new(a).mul(Ch8::new(b)).value();
            assert!(product <= a && product <= b);
        }
    }
    for a in [0u16, 1, 255, 256, 0x7FFF, 0x8000, 0xFFFE, 0xFFFF] {
        for b in [0u16, 1, 255, 256, 0x7FFF, 0x8000, 0xFFFE, 0xFFFF] {
            let product = Ch16::new(a).mul(Ch16::new(b)).value();
            assert!(product <= a && product <= b);
        }
    }
}
