//! The source document: a list of items, each with the rule texts that are
//! converted.

use vstd::prelude::*;

verus! {

/// The root of the source document.
#[derive(Debug, Clone, PartialEq)]
pub struct Karabiner {
    pub items: Vec<Item>,
}

/// A named set of rule texts.
#[derive(Debug, Clone, PartialEq)]
pub struct Item {
    /// The short name, which becomes the description of the rule.
    pub name: String,
    /// A longer description, which is not read.
    pub appendix: String,
    /// An identifier, which is not read.
    pub identifier: String,
    /// The rule texts, each of the form `--<Type>-- <contents>`.
    pub keys: Vec<String>,
}

/// An `Item` with its texts as sequences of characters.
pub struct ItemView {
    pub name: Seq<char>,
    pub appendix: Seq<char>,
    pub identifier: Seq<char>,
    pub keys: Seq<Seq<char>>,
}

impl DeepView for Item {
    type V = ItemView;

    open spec fn deep_view(&self) -> ItemView {
        ItemView {
            name: self.name@,
            appendix: self.appendix@,
            identifier: self.identifier@,
            keys: self.keys.deep_view(),
        }
    }
}

impl DeepView for Karabiner {
    type V = Seq<ItemView>;

    open spec fn deep_view(&self) -> Seq<ItemView> {
        self.items.deep_view()
    }
}

} // verus!
