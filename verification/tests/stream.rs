use karaconv::error::{ConvError, SegmentKind, Table};
use karaconv::json::KeyOrButton;
use karaconv::stream::{is_pair_start, pair_tokens, Cursor, TokenPair};

fn key(target: &str) -> KeyOrButton {
    KeyOrButton::Key(target.to_string())
}

fn pair(key: KeyOrButton, mods: Option<Vec<&str>>) -> TokenPair {
    TokenPair { key, mods: mods.map(|list| list.into_iter().map(|m| m.to_string()).collect()) }
}

#[test]
fn cursor_walks_the_segments_one_by_one() {
    let mut cursor = Cursor::new(" KeyCode::A ,ModifierFlag::SHIFT,  KeyCode::B");
    assert_eq!(cursor.peek(), Some("KeyCode::A"));
    assert_eq!(cursor.peek(), Some("KeyCode::A"));
    assert_eq!(cursor.advance(), Some("KeyCode::A"));
    assert_eq!(cursor.peek(), Some("ModifierFlag::SHIFT"));
    assert_eq!(cursor.advance(), Some("ModifierFlag::SHIFT"));
    assert_eq!(cursor.peek(), Some("KeyCode::B"));
    assert_eq!(cursor.advance(), Some("KeyCode::B"));
    assert_eq!(cursor.peek(), None);
    assert_eq!(cursor.advance(), None);
    assert_eq!(cursor.advance(), None);
    assert_eq!(cursor.peek(), None);
}

#[test]
fn cursor_of_empty_contents_has_one_empty_segment() {
    let mut cursor = Cursor::new("");
    assert_eq!(cursor.advance(), Some(""));
    assert_eq!(cursor.advance(), None);
    let mut cursor = Cursor::new("a,,b,");
    assert_eq!(cursor.advance(), Some("a"));
    assert_eq!(cursor.advance(), Some(""));
    assert_eq!(cursor.advance(), Some("b"));
    assert_eq!(cursor.advance(), Some(""));
    assert_eq!(cursor.advance(), None);
}

#[test]
fn pair_start_is_told_by_the_leading_marker() {
    assert!(is_pair_start("KeyCode::A"));
    assert!(is_pair_start("Key"));
    assert!(is_pair_start("PointingButton::LEFT"));
    assert!(!is_pair_start("ModifierFlag::SHIFT"));
    assert!(!is_pair_start("VK_SHIFT"));
    assert!(!is_pair_start(""));
    assert!(!is_pair_start(" KeyCode::A"));
    assert!(!is_pair_start("Pointing"));
}

#[test]
fn modifier_is_absorbed_into_the_preceding_key() {
    assert_eq!(
        pair_tokens("KeyCode::A, ModifierFlag::SHIFT, KeyCode::B"),
        Ok(vec![pair(key("a"), Some(vec!["left_shift"])), pair(key("b"), None)])
    );
}

#[test]
fn keys_without_modifiers_pair_alone() {
    assert_eq!(
        pair_tokens("KeyCode::A, KeyCode::B,PointingButton::RIGHT"),
        Ok(vec![
            pair(key("a"), None),
            pair(key("b"), None),
            pair(KeyOrButton::Button("button2".to_string()), None)
        ])
    );
    assert_eq!(pair_tokens("KeyCode::TAB"), Ok(vec![pair(key("tab"), None)]));
}

#[test]
fn last_key_may_have_a_modifier() {
    assert_eq!(
        pair_tokens("KeyCode::A, KeyCode::B, VK_COMMAND | VK_OPTION_R"),
        Ok(vec![pair(key("a"), None), pair(key("b"), Some(vec!["left_command", "right_option"]))])
    );
}

#[test]
fn empty_clause_differs_from_no_clause() {
    assert_eq!(
        pair_tokens("KeyCode::A, ModifierFlag::NONE, KeyCode::B"),
        Ok(vec![pair(key("a"), Some(vec![])), pair(key("b"), None)])
    );
}

#[test]
fn two_modifier_segments_in_a_row_are_malformed() {
    assert_eq!(
        pair_tokens("KeyCode::A, ModifierFlag::SHIFT, ModifierFlag::CONTROL_L, KeyCode::B"),
        Err(ConvError::MalformedEncoding)
    );
    assert_eq!(
        pair_tokens("KeyCode::A, ModifierFlag::SHIFT, Other::X"),
        Err(ConvError::MalformedEncoding)
    );
}

#[test]
fn first_segment_must_open_a_pair() {
    assert_eq!(
        pair_tokens("ModifierFlag::SHIFT, KeyCode::A"),
        Err(ConvError::UnknownNamespace(SegmentKind::Key, "ModifierFlag".to_string()))
    );
    assert_eq!(
        pair_tokens(""),
        Err(ConvError::UnknownNamespace(SegmentKind::Key, "".to_string()))
    );
    assert_eq!(
        pair_tokens("Other::X"),
        Err(ConvError::UnknownNamespace(SegmentKind::Key, "Other".to_string()))
    );
}

#[test]
fn failures_of_segments_end_the_pairing() {
    assert_eq!(
        pair_tokens("KeyCode::A, KeyCode::NOPE, KeyCode::B"),
        Err(ConvError::UnknownIdentifier(Table::KeyCode, "NOPE".to_string()))
    );
    assert_eq!(
        pair_tokens("KeyCode::A, ModifierFlag::HYPER"),
        Err(ConvError::UnknownIdentifier(Table::Modifier, "HYPER".to_string()))
    );
    assert_eq!(
        pair_tokens("KeyCode::A, Other::X"),
        Err(ConvError::UnknownNamespace(SegmentKind::Modifier, "Other".to_string()))
    );
    assert_eq!(
        pair_tokens("KeyCode::A, , KeyCode::B"),
        Err(ConvError::EmptyModifierExpression)
    );
    assert_eq!(
        pair_tokens("Keyboard::A"),
        Err(ConvError::UnknownNamespace(SegmentKind::Key, "Keyboard".to_string()))
    );
}
