//! The ways in which a conversion fails.

use vstd::prelude::*;
use vstd::string::StringExecFns;

verus! {

/// One of the three vocabulary tables.
#[derive(Debug, Clone, Copy, PartialEq, Eq, Structural)]
pub enum Table {
    KeyCode,
    PointingButton,
    Modifier,
}

/// What a segment was read as when its namespace was refused.
#[derive(Debug, Clone, Copy, PartialEq, Eq, Structural)]
pub enum SegmentKind {
    /// A key or a pointing button.
    Key,
    /// A modifier expression.
    Modifier,
}

/// Why a conversion failed. Every failure ends the run.
#[derive(Debug, Clone, PartialEq, Eq)]
pub enum ConvError {
    /// A name that the given vocabulary table does not hold.
    UnknownIdentifier(Table, String),
    /// A namespace that a segment of the given kind cannot have.
    UnknownNamespace(SegmentKind, String),
    /// The rule text has not the form `--<Type>-- <contents>`, or its segments
    /// do not make the pairs that its shape asks for.
    MalformedEncoding,
    /// A shape tag other than `KeyToKey` and `KeyOverlaidModifier`.
    UnsupportedShape(String),
    /// A modifier expression that holds nothing but white space.
    EmptyModifierExpression,
    /// The pattern engine refused the pattern of a rule text.
    PatternRejected,
}

/// A `ConvError` with its texts as sequences of characters.
pub enum ConvErrorView {
    UnknownIdentifier(Table, Seq<char>),
    UnknownNamespace(SegmentKind, Seq<char>),
    MalformedEncoding,
    UnsupportedShape(Seq<char>),
    EmptyModifierExpression,
    PatternRejected,
}

impl DeepView for ConvError {
    type V = ConvErrorView;

    open spec fn deep_view(&self) -> ConvErrorView {
        match self {
            ConvError::UnknownIdentifier(table, name) => ConvErrorView::UnknownIdentifier(
                *table,
                name@,
            ),
            ConvError::UnknownNamespace(kind, name) => ConvErrorView::UnknownNamespace(
                *kind,
                name@,
            ),
            ConvError::MalformedEncoding => ConvErrorView::MalformedEncoding,
            ConvError::UnsupportedShape(tag) => ConvErrorView::UnsupportedShape(tag@),
            ConvError::EmptyModifierExpression => ConvErrorView::EmptyModifierExpression,
            ConvError::PatternRejected => ConvErrorView::PatternRejected,
        }
    }
}

/// A result with its value and its error as views.
pub open spec fn outcome<T: DeepView>(r: Result<T, ConvError>) -> Result<T::V, ConvErrorView> {
    match r {
        Ok(value) => Ok(value.deep_view()),
        Err(error) => Err(error.deep_view()),
    }
}

/// `rest` after `done`, where `rest` has no error; else the error of `rest`.
pub open spec fn after<T>(done: Seq<T>, rest: Result<Seq<T>, ConvErrorView>) -> Result<
    Seq<T>,
    ConvErrorView,
> {
    match rest {
        Ok(items) => Ok(done + items),
        Err(error) => Err(error),
    }
}

impl ConvErrorView {
    /// The text that describes the failure to a user.
    pub open spec fn message(self) -> Seq<char> {
        match self {
            ConvErrorView::UnknownIdentifier(Table::KeyCode, name) => "Unknown key code "@ + name,
            ConvErrorView::UnknownIdentifier(Table::PointingButton, name) => "Unknown mouse button "@
                + name,
            ConvErrorView::UnknownIdentifier(Table::Modifier, name) => "Unknown modifier "@ + name,
            ConvErrorView::UnknownNamespace(SegmentKind::Key, name) => "Not a key code: "@ + name,
            ConvErrorView::UnknownNamespace(SegmentKind::Modifier, name) => "Not a modifier: "@
                + name,
            ConvErrorView::MalformedEncoding => "Unparseable autogen"@,
            ConvErrorView::UnsupportedShape(tag) => "Unsupported autogen type: "@ + tag,
            ConvErrorView::EmptyModifierExpression => "Empty modifier"@,
            ConvErrorView::PatternRejected => "Unusable autogen pattern"@,
        }
    }
}

impl ConvError {
    /// The text that describes the failure to a user.
    pub fn message(&self) -> (text: String)
        ensures
            text@ == self.deep_view().message(),
    {
        match self {
            ConvError::UnknownIdentifier(Table::KeyCode, name) => String::from_str(
                "Unknown key code ",
            ).concat(name.as_str()),
            ConvError::UnknownIdentifier(Table::PointingButton, name) => String::from_str(
                "Unknown mouse button ",
            ).concat(name.as_str()),
            ConvError::UnknownIdentifier(Table::Modifier, name) => String::from_str(
                "Unknown modifier ",
            ).concat(name.as_str()),
            ConvError::UnknownNamespace(SegmentKind::Key, name) => String::from_str(
                "Not a key code: ",
            ).concat(name.as_str()),
            ConvError::UnknownNamespace(SegmentKind::Modifier, name) => String::from_str(
                "Not a modifier: ",
            ).concat(name.as_str()),
            ConvError::MalformedEncoding => String::from_str("Unparseable autogen"),
            ConvError::UnsupportedShape(tag) => String::from_str(
                "Unsupported autogen type: ",
            ).concat(tag.as_str()),
            ConvError::EmptyModifierExpression => String::from_str("Empty modifier"),
            ConvError::PatternRejected => String::from_str("Unusable autogen pattern"),
        }
    }
}

} // verus!
