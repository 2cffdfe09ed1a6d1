use pix::alpha::{AlphaValue, Opaque, Translucent};
use pix::chan::{Ch16, Ch8};
use pix::gray::{Gray8, GrayAlpha16, GrayAlpha8};

fn translucent(value: u8, alpha: u8) -> GrayAlpha8 {
    GrayAlpha8::with_alpha(value, Ch8::new(alpha))
}

#[test]
fn opaque_gray() {
    let g = Gray8::new(0x40u8);
    assert_eq!(g.value(), Ch8::new(0x40));
    assert_eq!(g.alpha().value(), Ch8::new(0xFF));
    let g = GrayAlpha16::new(0x4000u16);
    assert_eq!(g.value(), Ch16::new(0x4000));
    assert_eq!(g.alpha().value(), Ch16::new(0xFFFF));
}

#[test]
fn gray_with_alpha() {
    let g = translucent(0x40, 0x80);
    assert_eq!(g.value(), Ch8::new(0x40));
    assert_eq!(g.alpha(), Translucent::new(Ch8::new(0x80)));
    assert_eq!(g.alpha().value(), Ch8::new(0x80));
    let g = Gray8::with_alpha(0x40u8, Ch8::new(0x80));
    assert_eq!(g.value(), Ch8::new(0x40));
    assert_eq!(g.alpha().value(), Ch8::new(0xFF));
    assert_eq!(g, Gray8::new(0x40u8));
}

#[test]
fn alpha_values() {
    assert_eq!(Opaque::<Ch8>::opaque().value(), Ch8::new(0xFF));
    assert_eq!(Opaque::<Ch8>::with_value(Ch8::new(0x10)).value(), Ch8::new(0xFF));
    assert_eq!(Translucent::<Ch8>::opaque().value(), Ch8::new(0xFF));
    assert_eq!(Translucent::<Ch8>::with_value(Ch8::new(0x10)).value(), Ch8::new(0x10));
    assert_eq!(
        Translucent::new(Ch8::new(0x80)).mul(Translucent::new(Ch8::new(0x80))).value(),
        Ch8::new(0x40)
    );
    assert_eq!(Opaque::<Ch8>::opaque().mul(Opaque::opaque()).value(), Ch8::new(0xFF));
    assert_eq!(Translucent::from(Opaque::<Ch8>::opaque()).value(), Ch8::new(0xFF));
    assert_eq!(Opaque::from(Translucent::new(Ch8::new(0x10))).value(), Ch8::new(0xFF));
}

#[test]
fn gray_rgba() {
    let c = |level: u8| Ch8::new(level);
    assert_eq!(translucent(0x40, 0x80).rgba(), [c(0x40), c(0x40), c(0x40), c(0x80)]);
    assert_eq!(Gray8::new(0x40u8).rgba(), [c(0x40), c(0x40), c(0x40), c(0xFF)]);
}

#[test]
fn gray_with_rgba() {
    let c = |level: u8| Ch8::new(level);
    assert_eq!(GrayAlpha8::with_rgba([c(0x10), c(0x30), c(0x20), c(0x80)]), translucent(0x30, 0x80));
    assert_eq!(GrayAlpha8::with_rgba([c(0x50), c(0x30), c(0x20), c(0x80)]), translucent(0x50, 0x80));
    assert_eq!(GrayAlpha8::with_rgba([c(0x10), c(0x30), c(0x60), c(0x80)]), translucent(0x60, 0x80));
    assert_eq!(Gray8::with_rgba([c(0x10), c(0x30), c(0x20), c(0x80)]), Gray8::new(0x30u8));
}

#[test]
fn gray_rgba_round_trip() {
    let g = translucent(0x40, 0x80);
    assert_eq!(GrayAlpha8::with_rgba(g.rgba()), g);
    let g = Gray8::new(0x40u8);
    assert_eq!(Gray8::with_rgba(g.rgba()), g);
}

#[test]
fn gray_difference() {
    assert_eq!(translucent(0x40, 0x80).difference(translucent(0x10, 0xC0)), translucent(0x30, 0x40));
    assert_eq!(translucent(0x10, 0xC0).difference(translucent(0x40, 0x80)), translucent(0x30, 0x40));
    assert_eq!(translucent(0x40, 0x80).difference(translucent(0x40, 0x80)), translucent(0, 0));
    assert_eq!(Gray8::new(0x40u8).difference(Gray8::new(0x10u8)), Gray8::new(0x30u8));
}

#[test]
fn gray_within_threshold() {
    assert!(translucent(0x10, 0x20).within_threshold(translucent(0x10, 0x20)));
    assert!(translucent(0x10, 0x20).within_threshold(translucent(0x11, 0x21)));
    assert!(!translucent(0x12, 0x20).within_threshold(translucent(0x11, 0x21)));
    assert!(!translucent(0x10, 0x22).within_threshold(translucent(0x11, 0x21)));
    assert!(Gray8::new(0x10u8).within_threshold(Gray8::new(0x10u8)));
    assert!(!Gray8::new(0x11u8).within_threshold(Gray8::new(0x10u8)));
}

#[test]
fn gray_encode_and_decode() {
    assert_eq!(translucent(0x20, 0x80).encode(), translucent(0x10, 0x80));
    assert_eq!(translucent(0x10, 0x80).decode(), translucent(0x20, 0x80));
    assert_eq!(translucent(0x80, 0x80).decode(), translucent(0xFF, 0x80));
    assert_eq!(translucent(0x80, 0).decode(), translucent(0, 0));
    assert_eq!(Gray8::new(0x20u8).encode(), Gray8::new(0x20u8));
    assert_eq!(Gray8::new(0x0Fu8).encode(), Gray8::new(0x0Eu8));
}

#[test]
fn gray_mul() {
    assert_eq!(translucent(0x80, 0x80).mul(translucent(0x80, 0xFF)), translucent(0x40, 0x80));
    assert_eq!(Gray8::new(0x80u8).mul(Gray8::new(0x80u8)), Gray8::new(0x40u8));
}

#[test]
fn gray_conversions() {
    assert_eq!(Gray8::from(translucent(0x40, 0x80)), Gray8::new(0x40u8));
    assert_eq!(GrayAlpha8::from(Gray8::new(0x40u8)), translucent(0x40, 0xFF));
    assert_eq!(Gray8::from(0x40u8), Gray8::new(0x40u8));
    assert_eq!(GrayAlpha16::from(0x40u8), GrayAlpha16::with_alpha(0x4040u16, Ch16::new(0xFFFF)));
}

#[test]
fn gray_records_no_alpha_mode() {
    assert_eq!(translucent(0x40, 0x80).alpha_mode(), None);
    assert_eq!(Gray8::new(0x40u8).alpha_mode(), None);
}

#[test]
fn gray_is_an_endless_run_of_itself() {
    let mut g = translucent(0x40, 0x80);
    assert_eq!(g.next(), Some(translucent(0x40, 0x80)));
    assert_eq!(g.next(), Some(translucent(0x40, 0x80)));
    assert_eq!(g, translucent(0x40, 0x80));
}
