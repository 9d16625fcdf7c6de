//! The outer form of a rule text, `--<Type>-- <contents>`, which a pattern
//! engine takes apart.

use crate::error::{outcome, ConvError, ConvErrorView};
use crate::json::{Manipulator, ManipulatorView};
use crate::rule::{tagged_translation, translate_tagged};
use vstd::prelude::*;

verus! {

/// `regex::Error`, the error of the pattern engine, of which nothing is read.
#[verifier::external_type_specification]
#[verifier::external_body]
pub struct ExPatternError(regex::Error);

/// The pattern of a rule text: a tag of letters between two pairs of hyphens, a
/// space, and the contents. The first group is the tag, the second the contents.
pub const AUTOGEN_PATTERN: &'static str = "--(?P<type>[a-zA-Z]+)-- (?P<contents>.*)";

/// Whether the pattern engine accepts `pattern`.
pub uninterp spec fn pattern_compiles(pattern: Seq<char>) -> bool;

/// What the groups of `pattern` hold at its leftmost match in `text`, the whole
/// match first and a group that took no part as `None`; `None` where `pattern`
/// matches nowhere in `text`.
pub uninterp spec fn pattern_captures(pattern: Seq<char>, text: Seq<char>) -> Option<
    Seq<Option<Seq<char>>>,
>;

/// Compiles `pattern` with `regex::Regex::new`, searches `text` with
/// `regex::Regex::captures`, and reads what each group holds with
/// `regex::Captures::iter` and `regex::Match::as_str`. It is taken on trust
/// that the engine accepts a pattern or refuses it whatever the text, and that
/// what the groups hold depends on the pattern and the text alone. Nothing is
/// claimed about which patterns are accepted or what they match.
#[verifier::external_body]
fn capture(pattern: &str, text: &str) -> (r: Result<Option<Vec<Option<String>>>, regex::Error>)
    ensures
        r is Ok <==> pattern_compiles(pattern@),
        r matches Ok(groups) ==> groups.deep_view() == pattern_captures(pattern@, text@),
{
    let engine = regex::Regex::new(pattern)?;
    let found = engine.captures(text);
    Ok(found.map(|groups| groups.iter().map(|group| group.map(|m| m.as_str().to_owned())).collect()))
}

/// The manipulator of a rule text of which the engine captured `groups`: the
/// translation of the contents under the tag, where the text matched and both
/// groups took part.
pub open spec fn captured_translation(groups: Option<Seq<Option<Seq<char>>>>) -> Result<
    ManipulatorView,
    ConvErrorView,
> {
    match groups {
        Some(found) => if found.len() == 3 && found[1] is Some && found[2] is Some {
            tagged_translation(found[1]->0, found[2]->0)
        } else {
            Err(ConvErrorView::MalformedEncoding)
        },
        None => Err(ConvErrorView::MalformedEncoding),
    }
}

/// The manipulator that `text` stands for where `pattern` gives the outer form
/// of a rule text, its first group the tag and its second the contents.
pub open spec fn matched_translation(pattern: Seq<char>, text: Seq<char>) -> Result<
    ManipulatorView,
    ConvErrorView,
> {
    if pattern_compiles(pattern) {
        captured_translation(pattern_captures(pattern, text))
    } else {
        Err(ConvErrorView::PatternRejected)
    }
}

/// The manipulator that a rule text stands for.
pub open spec fn autogen_translation(text: Seq<char>) -> Result<ManipulatorView, ConvErrorView> {
    matched_translation(AUTOGEN_PATTERN@, text)
}

/// Translates a rule text of which the pattern engine captured `groups`.
pub fn translate_captured(groups: Option<Vec<Option<String>>>) -> (r: Result<
    Manipulator,
    ConvError,
>)
    ensures
        outcome(r) == captured_translation(groups.deep_view()),
{
    match groups {
        Some(found) => {
            if found.len() != 3 {
                return Err(ConvError::MalformedEncoding);
            }
            assert(found.deep_view()[1] == found@[1].deep_view());
            assert(found.deep_view()[2] == found@[2].deep_view());
            match (&found[1], &found[2]) {
                (Some(tag), Some(contents)) => translate_tagged(tag.as_str(), contents.as_str()),
                _ => Err(ConvError::MalformedEncoding),
            }
        },
        None => Err(ConvError::MalformedEncoding),
    }
}

/// Converts a rule text whose outer form `pattern` gives, with the tag as its
/// first group and the contents as its second, into a manipulator.
pub fn convert_matching(pattern: &str, text: &str) -> (r: Result<Manipulator, ConvError>)
    ensures
        outcome(r) == matched_translation(pattern@, text@),
{
    match capture(pattern, text) {
        Ok(groups) => translate_captured(groups),
        Err(_) => Err(ConvError::PatternRejected),
    }
}

/// Converts a rule text, `--<Type>-- <contents>`, into a manipulator.
pub fn convert_autogen(text: &str) -> (r: Result<Manipulator, ConvError>)
    ensures
        outcome(r) == autogen_translation(text@),
{
    convert_matching(AUTOGEN_PATTERN, text)
}

} // verus!
