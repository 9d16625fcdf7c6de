//! Converts the rules of a Karabiner XML ruleset into manipulators of a
//! Karabiner-Elements JSON configuration, and merges them into its first
//! profile.
//!
//! A rule text has the form `--<Type>-- <segment>, <segment>, ...`. Its segments
//! name keys, pointing buttons and modifiers in the vocabulary of the XML
//! format; `vocab` holds the tables that give their names in the JSON format,
//! `token` converts one segment, `stream` pairs each key with the modifier
//! expression that follows it, `rule` lays the pairs out as a manipulator,
//! `pattern` takes the rule text apart, `convert` makes rules of items, and
//! `merge` puts rules into the document.

pub mod convert;
pub mod error;
pub mod json;
pub mod merge;
pub mod pattern;
pub mod rule;
pub mod stream;
pub mod text;
pub mod token;
pub mod vocab;
pub mod xml;

pub use crate::token::{conv_key, conv_mod};
