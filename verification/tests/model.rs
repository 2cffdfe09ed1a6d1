use pix::chan::{Ch16, Ch8};
use pix::model::{get_or_max, ColorModel, Gray, Matte, ModelKind, Rgb};

fn ch(levels: [u8; 4]) -> [Ch8; 4] {
    [Ch8::new(levels[0]), Ch8::new(levels[1]), Ch8::new(levels[2]), Ch8::new(levels[3])]
}

#[test]
fn model_layouts() {
    assert_eq!(Rgb::KIND, ModelKind::Rgb);
    assert_eq!((Rgb::LINEAR_START, Rgb::LINEAR_END, Rgb::ALPHA), (0, 3, 3));
    assert_eq!(Gray::KIND, ModelKind::Gray);
    assert_eq!((Gray::LINEAR_START, Gray::LINEAR_END, Gray::ALPHA), (0, 1, 1));
    assert_eq!(Matte::KIND, ModelKind::Matte);
    assert_eq!((Matte::LINEAR_START, Matte::LINEAR_END, Matte::ALPHA), (0, 0, 0));
}

#[test]
fn missing_channel_is_maximum() {
    let channels = [Ch16::new(0x1234), Ch16::new(0x5678)];
    assert_eq!(get_or_max(&channels, 0), Ch16::new(0x1234));
    assert_eq!(get_or_max(&channels, 1), Ch16::new(0x5678));
    assert_eq!(get_or_max(&channels, 2), Ch16::new(0xFFFF));
}

#[test]
fn rgb_into_rgba() {
    assert_eq!(Rgb::into_rgba(&ch([1, 2, 3, 4])), ch([1, 2, 3, 4]));
    assert_eq!(Rgb::into_rgba(&ch([1, 2, 3, 4])[..3]), ch([1, 2, 3, 0xFF]));
}

#[test]
fn rgb_from_rgba() {
    assert_eq!(Rgb::from_rgba(&ch([1, 2, 3, 4])), ch([1, 2, 3, 4]));
}

#[test]
fn gray_into_rgba() {
    assert_eq!(Gray::into_rgba(&ch([0x40, 0x80, 0, 0])[..2]), ch([0x40, 0x40, 0x40, 0x80]));
    assert_eq!(Gray::into_rgba(&ch([0x40, 0x80, 0, 0])[..1]), ch([0x40, 0x40, 0x40, 0xFF]));
}

#[test]
fn gray_from_rgba_takes_the_most_intense_color() {
    assert_eq!(Gray::from_rgba(&ch([0x10, 0x30, 0x20, 0x80])), ch([0x30, 0x80, 0xFF, 0xFF]));
    assert_eq!(Gray::from_rgba(&ch([0x50, 0x30, 0x20, 0x80])), ch([0x50, 0x80, 0xFF, 0xFF]));
    assert_eq!(Gray::from_rgba(&ch([0x10, 0x30, 0x60, 0x80])), ch([0x60, 0x80, 0xFF, 0xFF]));
}

#[test]
fn matte_into_rgba() {
    assert_eq!(Matte::into_rgba(&ch([0x40, 0, 0, 0])[..1]), ch([0xFF, 0xFF, 0xFF, 0x40]));
}

#[test]
fn matte_from_rgba() {
    assert_eq!(Matte::from_rgba(&ch([0x10, 0x30, 0x20, 0x80])), ch([0x80, 0xFF, 0xFF, 0xFF]));
}
