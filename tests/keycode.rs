use gridtile::keycode::keycode_to_string;

#[test]
fn letters_and_digits_are_themselves() {
    assert_eq!(keycode_to_string(65), "A");
    assert_eq!(keycode_to_string(90), "Z");
    assert_eq!(keycode_to_string(0x55), "U");
    assert_eq!(keycode_to_string(48), "0");
    assert_eq!(keycode_to_string(57), "9");
}

#[test]
fn named_codes() {
    assert_eq!(keycode_to_string(0x01), "Mouseclick");
    assert_eq!(keycode_to_string(0x0D), "VK_RETURN");
    assert_eq!(keycode_to_string(0x15), "VK_KANA,VK_HANGUEL,VK_HANGUL");
    assert_eq!(keycode_to_string(0xBC), "VK_OEM_COMMA");
    assert_eq!(keycode_to_string(0xBE), "VK_OEM_PERIOD");
    assert_eq!(keycode_to_string(0x87), "VK_F24");
    assert_eq!(keycode_to_string(0xFE), "VK_OEM_CLEAR");
}

#[test]
fn unnamed_codes_are_numbered() {
    assert_eq!(keycode_to_string(0), "CODE_0");
    assert_eq!(keycode_to_string(7), "CODE_7");
    assert_eq!(keycode_to_string(0x3A), "CODE_58");
    assert_eq!(keycode_to_string(0x40), "CODE_64");
    assert_eq!(keycode_to_string(0xFF), "CODE_255");
}
