use mousekeys::keys::Mode;
use mousekeys::notify::{mode_change, scroll_speed_change, speed_change, toggle};

#[test]
fn toggle_texts() {
    let on = toggle(true);
    assert_eq!(on.summary, "Mouse Keys");
    assert_eq!(on.body, "ACTIVATED — press Super+H to deactivate");
    let off = toggle(false);
    assert_eq!(off.summary, "Mouse Keys");
    assert_eq!(off.body, "DEACTIVATED");
}

#[test]
fn mode_texts() {
    assert_eq!(mode_change(Mode::Scroll).body, "mode: scroll");
    assert_eq!(mode_change(Mode::Movement).body, "mode: movement");
    assert_eq!(mode_change(Mode::Movement).summary, "Mouse Keys");
}

#[test]
fn speed_texts_are_decimal() {
    assert_eq!(speed_change(24).body, "speed: 24");
    assert_eq!(speed_change(4).body, "speed: 4");
    assert_eq!(speed_change(200).body, "speed: 200");
    assert_eq!(speed_change(0).body, "speed: 0");
    assert_eq!(speed_change(u32::MAX).body, format!("speed: {}", u32::MAX));
    assert_eq!(scroll_speed_change(10).body, "scroll speed: 10");
    assert_eq!(scroll_speed_change(1).summary, "Mouse Keys");
}
