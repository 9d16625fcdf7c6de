use karaconv::error::{ConvError, SegmentKind, Table};
use karaconv::json::KeyOrButton;
use karaconv::vocab::{lookup_button, lookup_key_code, lookup_modifier_flag};
use karaconv::{conv_key, conv_mod};

fn key(target: &str) -> Result<KeyOrButton, ConvError> {
    Ok(KeyOrButton::Key(target.to_string()))
}

fn button(target: &str) -> Result<KeyOrButton, ConvError> {
    Ok(KeyOrButton::Button(target.to_string()))
}

fn key_table() -> Vec<(&'static str, &'static str)> {
    vec![
        ("A", "a"), ("B", "b"), ("C", "c"), ("D", "d"), ("E", "e"), ("F", "f"), ("G", "g"),
        ("H", "h"), ("I", "i"), ("J", "j"), ("K", "k"), ("L", "l"), ("M", "m"), ("N", "n"),
        ("O", "o"), ("P", "p"), ("Q", "q"), ("R", "r"), ("S", "s"), ("T", "t"), ("U", "u"),
        ("V", "v"), ("W", "w"), ("X", "x"), ("Y", "y"), ("Z", "z"),
        ("0", "0"), ("1", "1"), ("2", "2"), ("3", "3"), ("4", "4"),
        ("5", "5"), ("6", "6"), ("7", "7"), ("8", "8"), ("9", "9"),
        ("KEY_0", "0"), ("KEY_1", "1"), ("KEY_2", "2"), ("KEY_3", "3"), ("KEY_4", "4"),
        ("KEY_5", "5"), ("KEY_6", "6"), ("KEY_7", "7"), ("KEY_8", "8"), ("KEY_9", "9"),
        ("KEYPAD_0", "keypad_0"), ("KEYPAD_1", "keypad_1"), ("KEYPAD_2", "keypad_2"),
        ("KEYPAD_3", "keypad_3"), ("KEYPAD_4", "keypad_4"), ("KEYPAD_5", "keypad_5"),
        ("KEYPAD_6", "keypad_6"), ("KEYPAD_7", "keypad_7"), ("KEYPAD_8", "keypad_8"),
        ("KEYPAD_9", "keypad_9"), ("KEYPAD_DOT", "keypad_period"),
        ("KEYPAD_EQUAL", "keypad_equal_sign"), ("KEYPAD_PLUS", "keypad_plus"),
        ("KEYPAD_SLASH", "keypad_slash"), ("KEYPAD_MULTIPLY", "keypad_asterisk"),
        ("KEYPAD_MINUS", "keypad_hyphen"),
        ("BACKQUOTE", "grave_accent_and_tilde"), ("BACKSLASH", "backslash"),
        ("BRACKET_LEFT", "open_bracket"), ("BRACKET_RIGHT", "close_bracket"),
        ("COMMA", "comma"), ("DOT", "period"), ("EQUAL", "equal_sign"), ("MINUS", "hyphen"),
        ("QUOTE", "quote"), ("SEMICOLON", "semicolon"), ("SLASH", "slash"),
        ("DELETE", "delete_or_backspace"), ("ENTER", "return_or_enter"), ("ESCAPE", "escape"),
        ("RETURN", "return_or_enter"), ("SPACE", "spacebar"), ("TAB", "tab"),
        ("F1", "f1"), ("F2", "f2"), ("F3", "f3"), ("F4", "f4"), ("F5", "f5"), ("F6", "f6"),
        ("F7", "f7"), ("F8", "f8"), ("F9", "f9"), ("F10", "f10"), ("F11", "f11"),
        ("F12", "f12"), ("F13", "f13"), ("F14", "f14"), ("F15", "f15"), ("F16", "f16"),
        ("F17", "f17"), ("F18", "f18"), ("F19", "f19"),
        ("BRIGHTNESS_DOWN", "display_brightness_decrement"),
        ("BRIGHTNESS_UP", "display_brightness_increment"), ("DASHBOARD", "dashboard"),
        ("LAUNCHPAD", "launchpad"), ("MISSION_CONTROL", "mission_control"),
        ("PAGEUP", "page_up"), ("PAGEDOWN", "page_down"), ("HOME", "home"), ("END", "end"),
        ("CAPSLOCK", "caps_lock"), ("COMMAND_L", "left_command"), ("COMMAND_R", "right_command"),
        ("CONTROL_L", "left_control"), ("CONTROL_R", "right_control"), ("FN", "fn"),
        ("OPTION_L", "left_option"), ("OPTION_R", "right_option"), ("SHIFT_L", "left_shift"),
        ("SHIFT_R", "right_shift"),
        ("CURSOR_LEFT", "left_arrow"), ("CURSOR_RIGHT", "right_arrow"),
        ("CURSOR_UP", "up_arrow"), ("CURSOR_DOWN", "down_arrow"),
    ]
}

#[test]
fn every_key_name_has_its_target() {
    let table = key_table();
    assert_eq!(table.len(), 121);
    for (name, target) in table {
        assert_eq!(lookup_key_code(name), Some(target), "{}", name);
        assert_eq!(conv_key(&format!("KeyCode::{}", name)), key(target), "{}", name);
        assert_eq!(lookup_button(name), None, "{}", name);
    }
}

#[test]
fn every_button_name_has_its_target() {
    let table = vec![
        ("LEFT", "button1"), ("RIGHT", "button2"), ("MIDDLE", "button3"),
        ("BUTTON1", "button1"), ("BUTTON2", "button2"), ("BUTTON3", "button3"),
        ("BUTTON4", "button4"), ("BUTTON5", "button5"), ("BUTTON6", "button6"),
        ("BUTTON7", "button7"), ("BUTTON8", "button8"), ("BUTTON9", "button9"),
    ];
    for (name, target) in table {
        assert_eq!(lookup_button(name), Some(target), "{}", name);
        assert_eq!(conv_key(&format!("PointingButton::{}", name)), button(target), "{}", name);
        assert_eq!(lookup_key_code(name), None, "{}", name);
    }
}

#[test]
fn every_modifier_name_has_its_target() {
    let table = vec![
        ("ZERO", "zero"), ("CAPSLOCK", "caps_lock"), ("SHIFT", "left_shift"),
        ("SHIFT_L", "left_shift"), ("SHIFT_R", "right_shift"), ("CONTROL", "left_control"),
        ("CONTROL_L", "left_control"), ("CONTROL_R", "right_control"),
        ("OPTION_L", "left_option"), ("OPTION_R", "right_option"), ("COMMAND", "left_command"),
        ("COMMAND_L", "left_command"), ("COMMAND_R", "right_command"), ("FN", "fn"),
    ];
    for (name, target) in table {
        assert_eq!(lookup_modifier_flag(name), Some(target), "{}", name);
        assert_eq!(
            conv_mod(&format!("ModifierFlag::{}", name)),
            Ok(vec![target.to_string()]),
            "{}",
            name
        );
        assert_eq!(conv_mod(&format!("VK_{}", name)), Ok(vec![target.to_string()]), "{}", name);
    }
    assert_eq!(lookup_modifier_flag("NONE"), None);
    assert_eq!(lookup_modifier_flag("OPTION"), None);
}

#[test]
fn aliases_of_one_key_have_one_target() {
    assert_eq!(conv_key("KeyCode::ENTER"), conv_key("KeyCode::RETURN"));
    assert_eq!(conv_key("KeyCode::ENTER"), key("return_or_enter"));
    for digit in 0..10 {
        let bare = conv_key(&format!("KeyCode::{}", digit));
        let prefixed = conv_key(&format!("KeyCode::KEY_{}", digit));
        assert_eq!(bare, prefixed);
        assert_eq!(bare, key(&digit.to_string()));
    }
    assert_eq!(conv_key("PointingButton::LEFT"), conv_key("PointingButton::BUTTON1"));
    assert_eq!(conv_key("PointingButton::RIGHT"), conv_key("PointingButton::BUTTON2"));
    assert_eq!(conv_key("PointingButton::MIDDLE"), conv_key("PointingButton::BUTTON3"));
}

#[test]
fn names_are_matched_exactly() {
    assert_eq!(lookup_key_code("a"), None);
    assert_eq!(lookup_key_code(""), None);
    assert_eq!(lookup_key_code("F20"), None);
    assert_eq!(lookup_key_code("F1 "), None);
    assert_eq!(lookup_key_code("KEYPAD_"), None);
    assert_eq!(lookup_button("BUTTON10"), None);
    assert_eq!(lookup_button("BUTTON0"), None);
    assert_eq!(lookup_modifier_flag("shift"), None);
}

#[test]
fn conv_key_trims_namespace_and_name() {
    assert_eq!(conv_key(" KeyCode :: A "), key("a"));
    assert_eq!(conv_key("KeyCode::A::B"), key("a"));
    assert_eq!(conv_key("PointingButton ::\tMIDDLE"), button("button3"));
}

#[test]
fn conv_key_refuses_what_the_tables_lack() {
    assert_eq!(
        conv_key("KeyCode::NOPE"),
        Err(ConvError::UnknownIdentifier(Table::KeyCode, "NOPE".to_string()))
    );
    assert_eq!(
        conv_key("PointingButton::A"),
        Err(ConvError::UnknownIdentifier(Table::PointingButton, "A".to_string()))
    );
    assert_eq!(
        conv_key("KeyCode"),
        Err(ConvError::UnknownIdentifier(Table::KeyCode, "".to_string()))
    );
    assert_eq!(
        conv_key("ModifierFlag::SHIFT"),
        Err(ConvError::UnknownNamespace(SegmentKind::Key, "ModifierFlag".to_string()))
    );
    assert_eq!(
        conv_key(""),
        Err(ConvError::UnknownNamespace(SegmentKind::Key, "".to_string()))
    );
    assert_eq!(
        conv_key("keycode::A"),
        Err(ConvError::UnknownNamespace(SegmentKind::Key, "keycode".to_string()))
    );
}

#[test]
fn conv_mod_keeps_order_and_repetitions() {
    assert_eq!(
        conv_mod("ModifierFlag::SHIFT_R | ModifierFlag::COMMAND_L|ModifierFlag::SHIFT_R"),
        Ok(vec![
            "right_shift".to_string(),
            "left_command".to_string(),
            "right_shift".to_string()
        ])
    );
    assert_eq!(
        conv_mod("VK_CONTROL | ModifierFlag::FN"),
        Ok(vec!["left_control".to_string(), "fn".to_string()])
    );
}

#[test]
fn conv_mod_of_none_alone_is_the_empty_list() {
    assert_eq!(conv_mod("ModifierFlag::NONE"), Ok(vec![]));
    assert_eq!(conv_mod("ModifierFlag::NONE | ModifierFlag::NONE"), Ok(vec![]));
    assert_eq!(conv_mod(" VK_NONE|ModifierFlag :: NONE "), Ok(vec![]));
    assert_eq!(
        conv_mod("ModifierFlag::NONE | ModifierFlag::SHIFT | VK_NONE"),
        Ok(vec!["left_shift".to_string()])
    );
}

#[test]
fn conv_mod_refuses_what_it_cannot_read() {
    assert_eq!(conv_mod(""), Err(ConvError::EmptyModifierExpression));
    assert_eq!(conv_mod(" \t "), Err(ConvError::EmptyModifierExpression));
    assert_eq!(
        conv_mod("KeyCode::A"),
        Err(ConvError::UnknownNamespace(SegmentKind::Modifier, "KeyCode".to_string()))
    );
    assert_eq!(
        conv_mod("ModifierFlag::SHIFT |"),
        Err(ConvError::UnknownNamespace(SegmentKind::Modifier, "".to_string()))
    );
    assert_eq!(
        conv_mod("ModifierFlag::HYPER"),
        Err(ConvError::UnknownIdentifier(Table::Modifier, "HYPER".to_string()))
    );
    assert_eq!(
        conv_mod("ModifierFlag"),
        Err(ConvError::UnknownIdentifier(Table::Modifier, "".to_string()))
    );
    assert_eq!(
        conv_mod("VK_"),
        Err(ConvError::UnknownIdentifier(Table::Modifier, "".to_string()))
    );
}

#[test]
fn conv_mod_reports_a_namespace_before_a_name() {
    assert_eq!(
        conv_mod("ModifierFlag::HYPER | Flag::SHIFT"),
        Err(ConvError::UnknownNamespace(SegmentKind::Modifier, "Flag".to_string()))
    );
    assert_eq!(
        conv_mod("ModifierFlag::HYPER | ModifierFlag::SUPER"),
        Err(ConvError::UnknownIdentifier(Table::Modifier, "HYPER".to_string()))
    );
}
