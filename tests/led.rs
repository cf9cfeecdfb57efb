use synth::led::{color_wheel, Color};

#[test]
fn wheel() {
    assert_eq!(color_wheel(0), Color(255, 0, 0));
    assert_eq!(color_wheel(85), Color(0, 0, 255));
    assert_eq!(color_wheel(170), Color(0, 255, 0));
    assert_eq!(color_wheel(255), Color(255, 0, 0));
    assert_eq!(color_wheel(10), Color(225, 0, 30));
}

#[test]
fn brightness() {
    assert_eq!(Color(255, 128, 0).set_brightness(128), Color(127, 64, 0));
    assert_eq!(Color(255, 255, 255).set_brightness(255), Color(254, 254, 254));
    assert_eq!(Color(9, 9, 9).set_brightness(0), Color(0, 0, 0));
}
