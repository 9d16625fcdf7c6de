use karaconv::error::{ConvError, SegmentKind, Table};

#[test]
fn messages_name_what_was_refused() {
    assert_eq!(
        ConvError::UnknownIdentifier(Table::KeyCode, "NOPE".to_string()).message(),
        "Unknown key code NOPE"
    );
    assert_eq!(
        ConvError::UnknownIdentifier(Table::PointingButton, "BUTTON0".to_string()).message(),
        "Unknown mouse button BUTTON0"
    );
    assert_eq!(
        ConvError::UnknownIdentifier(Table::Modifier, "HYPER".to_string()).message(),
        "Unknown modifier HYPER"
    );
    assert_eq!(
        ConvError::UnknownNamespace(SegmentKind::Key, "Mouse".to_string()).message(),
        "Not a key code: Mouse"
    );
    assert_eq!(
        ConvError::UnknownNamespace(SegmentKind::Modifier, "Flag".to_string()).message(),
        "Not a modifier: Flag"
    );
    assert_eq!(ConvError::MalformedEncoding.message(), "Unparseable autogen");
    assert_eq!(
        ConvError::UnsupportedShape("DropKey".to_string()).message(),
        "Unsupported autogen type: DropKey"
    );
    assert_eq!(ConvError::EmptyModifierExpression.message(), "Empty modifier");
    assert_eq!(ConvError::PatternRejected.message(), "Unusable autogen pattern");
}
