use karaconv::error::ConvError;
use karaconv::json::{From, FromModifiers, KeyOrButton, KeyOrButtonConv, Manipulator, To};
use karaconv::rule::{build_manipulator, translate, translate_tagged, RuleShape};
use karaconv::stream::TokenPair;

fn texts(list: Vec<&str>) -> Vec<String> {
    list.into_iter().map(|m| m.to_string()).collect()
}

fn key_pair(target: &str) -> TokenPair {
    TokenPair { key: KeyOrButton::Key(target.to_string()), mods: None }
}

fn from_key(target: &str) -> From {
    From::Key { key_code: target.to_string(), modifiers: None }
}

fn to_key(target: &str) -> To {
    To::Key { key_code: target.to_string(), modifiers: vec![] }
}

#[test]
fn key_to_key_of_two_keys() {
    assert_eq!(
        translate(RuleShape::KeyToKey, "KeyCode::A, KeyCode::B"),
        Ok(Manipulator {
            type_: "basic".to_string(),
            from: from_key("a"),
            to: vec![to_key("b")],
            to_if_alone: vec![],
        })
    );
}

#[test]
fn key_to_key_of_the_trigger_alone_silences_it() {
    assert_eq!(
        translate(RuleShape::KeyToKey, "KeyCode::F1"),
        Ok(Manipulator {
            type_: "basic".to_string(),
            from: from_key("f1"),
            to: vec![],
            to_if_alone: vec![],
        })
    );
}

#[test]
fn key_to_key_with_modifiers_and_buttons() {
    assert_eq!(
        translate(
            RuleShape::KeyToKey,
            "KeyCode::J, ModifierFlag::CONTROL_L | ModifierFlag::NONE, KeyCode::CURSOR_DOWN, \
             PointingButton::LEFT, VK_SHIFT"
        ),
        Ok(Manipulator {
            type_: "basic".to_string(),
            from: From::Key {
                key_code: "j".to_string(),
                modifiers: Some(FromModifiers {
                    mandatory: texts(vec!["left_control"]),
                    optional: vec![],
                }),
            },
            to: vec![
                to_key("down_arrow"),
                To::Button {
                    pointing_button: "button1".to_string(),
                    modifiers: texts(vec!["left_shift"]),
                },
            ],
            to_if_alone: vec![],
        })
    );
}

#[test]
fn trigger_keeps_an_empty_clause() {
    assert_eq!(
        translate(RuleShape::KeyToKey, "PointingButton::BUTTON4, ModifierFlag::NONE, KeyCode::A"),
        Ok(Manipulator {
            type_: "basic".to_string(),
            from: From::Button {
                pointing_button: "button4".to_string(),
                modifiers: Some(FromModifiers { mandatory: vec![], optional: vec![] }),
            },
            to: vec![to_key("a")],
            to_if_alone: vec![],
        })
    );
}

#[test]
fn overlay_of_three_keys() {
    assert_eq!(
        translate(RuleShape::KeyOverlaidModifier, "KeyCode::CAPSLOCK, KeyCode::CONTROL_L, KeyCode::ESCAPE"),
        Ok(Manipulator {
            type_: "basic".to_string(),
            from: from_key("caps_lock"),
            to: vec![to_key("left_control")],
            to_if_alone: vec![to_key("escape")],
        })
    );
}

#[test]
fn overlay_modifier_attaches_to_its_key() {
    assert_eq!(
        translate(
            RuleShape::KeyOverlaidModifier,
            "KeyCode::CAPSLOCK, ModifierFlag::CONTROL_L, KeyCode::ESCAPE"
        ),
        Err(ConvError::MalformedEncoding)
    );
    assert_eq!(
        translate(
            RuleShape::KeyOverlaidModifier,
            "KeyCode::CAPSLOCK, ModifierFlag::NONE, KeyCode::CONTROL_L, KeyCode::ESCAPE"
        ),
        Ok(Manipulator {
            type_: "basic".to_string(),
            from: From::Key {
                key_code: "caps_lock".to_string(),
                modifiers: Some(FromModifiers { mandatory: vec![], optional: vec![] }),
            },
            to: vec![to_key("left_control")],
            to_if_alone: vec![to_key("escape")],
        })
    );
}

#[test]
fn overlay_sends_every_later_pair_when_tapped_alone() {
    assert_eq!(
        translate(
            RuleShape::KeyOverlaidModifier,
            "KeyCode::SPACE, KeyCode::SHIFT_L, KeyCode::SPACE, KeyCode::A, VK_COMMAND, KeyCode::B"
        ),
        Ok(Manipulator {
            type_: "basic".to_string(),
            from: from_key("spacebar"),
            to: vec![to_key("left_shift")],
            to_if_alone: vec![
                to_key("spacebar"),
                To::Key { key_code: "a".to_string(), modifiers: texts(vec!["left_command"]) },
                to_key("b"),
            ],
        })
    );
}

#[test]
fn overlay_needs_three_pairs() {
    let two = vec![key_pair("caps_lock"), key_pair("left_control")];
    assert_eq!(
        build_manipulator(RuleShape::KeyOverlaidModifier, two),
        Err(ConvError::MalformedEncoding)
    );
    let three = vec![key_pair("caps_lock"), key_pair("left_control"), key_pair("escape")];
    let made = build_manipulator(RuleShape::KeyOverlaidModifier, three).unwrap();
    assert_eq!(made.to_if_alone.len(), 1);
    assert_eq!(made.to_if_alone, vec![to_key("escape")]);
    assert_eq!(made.to, vec![to_key("left_control")]);
    assert_eq!(made.from, from_key("caps_lock"));
    assert_eq!(
        build_manipulator(RuleShape::KeyOverlaidModifier, vec![key_pair("a")]),
        Err(ConvError::MalformedEncoding)
    );
}

#[test]
fn no_pairs_make_no_manipulator() {
    assert_eq!(build_manipulator(RuleShape::KeyToKey, vec![]), Err(ConvError::MalformedEncoding));
    assert_eq!(
        build_manipulator(RuleShape::KeyOverlaidModifier, vec![]),
        Err(ConvError::MalformedEncoding)
    );
}

#[test]
fn shape_tags_are_a_closed_set() {
    assert_eq!(RuleShape::from_tag("KeyToKey"), Ok(RuleShape::KeyToKey));
    assert_eq!(RuleShape::from_tag("KeyOverlaidModifier"), Ok(RuleShape::KeyOverlaidModifier));
    assert_eq!(
        RuleShape::from_tag("KeyToConsumer"),
        Err(ConvError::UnsupportedShape("KeyToConsumer".to_string()))
    );
    assert_eq!(
        RuleShape::from_tag("keytokey"),
        Err(ConvError::UnsupportedShape("keytokey".to_string()))
    );
    assert_eq!(RuleShape::from_tag(""), Err(ConvError::UnsupportedShape("".to_string())));
}

#[test]
fn tag_picks_the_shape() {
    assert_eq!(
        translate_tagged("KeyToKey", "KeyCode::A, KeyCode::B"),
        translate(RuleShape::KeyToKey, "KeyCode::A, KeyCode::B")
    );
    assert_eq!(
        translate_tagged("KeyOverlaidModifier", "KeyCode::A, KeyCode::B, KeyCode::C"),
        translate(RuleShape::KeyOverlaidModifier, "KeyCode::A, KeyCode::B, KeyCode::C")
    );
    assert_eq!(
        translate_tagged("KeyOverlaidModifier", "KeyCode::A, KeyCode::B"),
        Err(ConvError::MalformedEncoding)
    );
}

#[test]
fn unsupported_tag_is_reported_before_the_contents_are_read() {
    assert_eq!(
        translate_tagged("DropKey", "nonsense"),
        Err(ConvError::UnsupportedShape("DropKey".to_string()))
    );
}

#[test]
fn conv_makes_triggers_and_outputs() {
    assert_eq!(From::conv(KeyOrButton::Key("a".to_string()), None), from_key("a"));
    assert_eq!(
        From::conv(KeyOrButton::Button("button2".to_string()), Some(texts(vec!["fn"]))),
        From::Button {
            pointing_button: "button2".to_string(),
            modifiers: Some(FromModifiers { mandatory: texts(vec!["fn"]), optional: vec![] }),
        }
    );
    assert_eq!(To::conv(KeyOrButton::Key("a".to_string()), None), to_key("a"));
    assert_eq!(To::conv(KeyOrButton::Key("a".to_string()), Some(vec![])), to_key("a"));
    assert_eq!(
        To::conv(KeyOrButton::Button("button9".to_string()), Some(texts(vec!["zero", "fn"]))),
        To::Button { pointing_button: "button9".to_string(), modifiers: texts(vec!["zero", "fn"]) }
    );
}

#[test]
fn from_modifiers_are_empty_without_entries() {
    assert!(FromModifiers { mandatory: vec![], optional: vec![] }.is_empty());
    assert!(!FromModifiers { mandatory: texts(vec!["fn"]), optional: vec![] }.is_empty());
    assert!(!FromModifiers { mandatory: vec![], optional: texts(vec!["any"]) }.is_empty());
}
