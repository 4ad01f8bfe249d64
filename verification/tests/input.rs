use vga::input::new_input_monitoring;
use vga::input::numcode_value;
use vga::input::to_numcode;
use vga::input::NumCode;

#[test]
fn fresh_input_has_no_key_pressed() {
    let m = new_input_monitoring();
    assert!(!m.key_pressed());
}

#[test]
fn pressed_key_is_seen_and_cleared() {
    let mut m = new_input_monitoring();
    m.keyboard.buttons[5] = true;
    assert!(m.key_pressed());
    m.clear_keyboard();
    assert!(!m.key_pressed());
}

#[test]
fn scancodes_map_to_key_identifiers() {
    assert!(matches!(to_numcode(0x1c), NumCode::Return));
    assert!(matches!(to_numcode(0x01), NumCode::Escape));
    assert!(matches!(to_numcode(0x2c), NumCode::Z));
    assert!(matches!(to_numcode(0x0b), NumCode::Num0));
    // An unmapped byte resolves to the explicit no-key identifier.
    assert!(matches!(to_numcode(0x60), NumCode::NoCode));
}

#[test]
fn key_identifiers_round_trip_through_their_scancode() {
    let keys = [
        NumCode::Return,
        NumCode::Escape,
        NumCode::Space,
        NumCode::F12,
        NumCode::A,
        NumCode::Z,
        NumCode::Num0,
        NumCode::Bad,
        NumCode::NoCode,
    ];
    for &k in keys.iter() {
        assert_eq!(to_numcode(numcode_value(k)), k);
    }
}
