use sneslib::graphics::color::{SNESColor, RGB};

#[test]
fn convert() {
    assert_eq!(SNESColor(0x7FFF), RGB(0xF8, 0xF8, 0xF8).into());
    assert_eq!(SNESColor(0x4210), RGB(0x80, 0x80, 0x80).into());
    assert_eq!(SNESColor(0x001F), RGB(0xF8, 0x00, 0x00).into());
    assert_eq!(SNESColor(0x03E0), RGB(0x00, 0xF8, 0x00).into());
    assert_eq!(SNESColor(0x7C00), RGB(0x00, 0x00, 0xF8).into());
    assert_eq!(RGB(0xF8, 0xF8, 0xF8), SNESColor(0x7FFF).into());
    assert_eq!(RGB(0x80, 0x80, 0x80), SNESColor(0x4210).into());
    assert_eq!(RGB(0xF8, 0x00, 0x00), SNESColor(0x001F).into());
    assert_eq!(RGB(0x00, 0xF8, 0x00), SNESColor(0x03E0).into());
    assert_eq!(RGB(0x00, 0x00, 0xF8), SNESColor(0x7C00).into());
}

#[test]
fn color_channels() {
    let mut color = RGB(0x40, 0x80, 0xC0);
    assert_eq!(color.r(), 0x40);
    assert_eq!(color.g(), 0x80);
    assert_eq!(color.b(), 0xC0);
    color.0 = 0x3F;
    color.1 += 1;
    color.2 -= 1;
    assert_eq!(color, RGB(0x3F, 0x81, 0xBF));

    let color: SNESColor = RGB(0x40, 0x80, 0xC0).into();
    assert_eq!(color.r(), 0x08);
    assert_eq!(color.g(), 0x10);
    assert_eq!(color.b(), 0x18);
    assert_eq!(color.r_pc(), 0x40);
    assert_eq!(color.g_pc(), 0x80);
    assert_eq!(color.b_pc(), 0xC0);
}

#[test]
fn color_rounds_and_saturates() {
    assert_eq!(SNESColor::from(RGB(0x04, 0x03, 0xFF)), SNESColor(0x7C01));
    assert_eq!(RGB::from(SNESColor(0x8000)), RGB(0, 0, 0));
}
