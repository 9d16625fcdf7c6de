//! The target document: profiles, rules and manipulators, with the views that
//! the contracts speak of. Settings that the conversion does not read are
//! carried through as opaque values.

use vstd::prelude::*;

verus! {

/// `serde_json::Value`, a JSON value that the conversion carries through
/// unread.
#[verifier::external_type_specification]
#[verifier::external_body]
pub struct ExValue(serde_json::Value);

/// The root of the document.
#[derive(Debug)]
pub struct Karabiner {
    /// Settings that are carried through.
    pub global: serde_json::Value,
    /// The profiles; the conversion works on the first.
    pub profiles: Vec<Profile>,
}

/// A user profile.
#[derive(Debug)]
pub struct Profile {
    pub name: String,
    pub selected: bool,
    pub fn_function_keys: serde_json::Value,
    pub devices: serde_json::Value,
    pub virtual_hid_keyboard: serde_json::Value,
    pub simple_modifications: Vec<SimpleModification>,
    /// Where converted rules go.
    pub complex_modifications: ComplexModifications,
}

/// A rule that replaces one key by another, without modifiers.
#[derive(Debug, Clone, PartialEq)]
pub struct SimpleModification {
    pub from: KeyCode,
    pub to: KeyCode,
}

/// A key of the keyboard.
#[derive(Debug, Clone, PartialEq)]
pub struct KeyCode {
    pub key_code: String,
}

/// The rules that may involve several keys, buttons and modifiers.
#[derive(Debug)]
pub struct ComplexModifications {
    /// Parameters that are carried through.
    pub parameters: serde_json::Value,
    /// The rules, in order.
    pub rules: Vec<Rule>,
}

/// A named list of manipulators. The description is the rule's identity.
#[derive(Debug, Clone, PartialEq)]
pub struct Rule {
    pub description: String,
    pub manipulators: Vec<Manipulator>,
}

/// One replacement: what triggers it and what it sends.
#[derive(Debug, Clone, PartialEq)]
pub struct Manipulator {
    /// Always "basic".
    pub type_: String,
    /// The trigger.
    pub from: From,
    /// What is sent while the trigger is held.
    pub to: Vec<To>,
    /// What is sent when the trigger is tapped alone; empty in a plain chain.
    pub to_if_alone: Vec<To>,
}

/// The trigger of a manipulator: a key or a pointing button, with its modifier
/// clause if it has one.
#[derive(Debug, Clone, PartialEq)]
pub enum From {
    Key { key_code: String, modifiers: Option<FromModifiers> },
    Button { pointing_button: String, modifiers: Option<FromModifiers> },
}

/// The modifier clause of a trigger.
#[derive(Debug, Clone, PartialEq)]
pub struct FromModifiers {
    pub mandatory: Vec<String>,
    pub optional: Vec<String>,
}

/// An output of a manipulator: a key or a pointing button, with its modifiers.
#[derive(Debug, Clone, PartialEq)]
pub enum To {
    Key { key_code: String, modifiers: Vec<String> },
    Button { pointing_button: String, modifiers: Vec<String> },
}

/// A target identifier and the table that it came from.
#[derive(Debug, Clone, PartialEq)]
pub enum KeyOrButton {
    Key(String),
    Button(String),
}

/// A `KeyOrButton` with its identifier as a sequence of characters.
pub enum KeyOrButtonView {
    Key(Seq<char>),
    Button(Seq<char>),
}

/// A `FromModifiers` with its identifiers as sequences of characters.
pub struct FromModifiersView {
    pub mandatory: Seq<Seq<char>>,
    pub optional: Seq<Seq<char>>,
}

/// A `From` with its texts as sequences of characters.
pub enum FromView {
    Key { key_code: Seq<char>, modifiers: Option<FromModifiersView> },
    Button { pointing_button: Seq<char>, modifiers: Option<FromModifiersView> },
}

/// A `To` with its texts as sequences of characters.
pub enum ToView {
    Key { key_code: Seq<char>, modifiers: Seq<Seq<char>> },
    Button { pointing_button: Seq<char>, modifiers: Seq<Seq<char>> },
}

/// A `Manipulator` with its texts as sequences of characters.
pub struct ManipulatorView {
    pub type_: Seq<char>,
    pub from: FromView,
    pub to: Seq<ToView>,
    pub to_if_alone: Seq<ToView>,
}

/// A `Rule` with its texts as sequences of characters.
pub struct RuleView {
    pub description: Seq<char>,
    pub manipulators: Seq<ManipulatorView>,
}

impl DeepView for KeyOrButton {
    type V = KeyOrButtonView;

    open spec fn deep_view(&self) -> KeyOrButtonView {
        match self {
            KeyOrButton::Key(id) => KeyOrButtonView::Key(id@),
            KeyOrButton::Button(id) => KeyOrButtonView::Button(id@),
        }
    }
}

impl DeepView for FromModifiers {
    type V = FromModifiersView;

    open spec fn deep_view(&self) -> FromModifiersView {
        FromModifiersView {
            mandatory: self.mandatory.deep_view(),
            optional: self.optional.deep_view(),
        }
    }
}

impl DeepView for From {
    type V = FromView;

    open spec fn deep_view(&self) -> FromView {
        match self {
            From::Key { key_code, modifiers } => FromView::Key {
                key_code: key_code@,
                modifiers: modifiers.deep_view(),
            },
            From::Button { pointing_button, modifiers } => FromView::Button {
                pointing_button: pointing_button@,
                modifiers: modifiers.deep_view(),
            },
        }
    }
}

impl DeepView for To {
    type V = ToView;

    open spec fn deep_view(&self) -> ToView {
        match self {
            To::Key { key_code, modifiers } => ToView::Key {
                key_code: key_code@,
                modifiers: modifiers.deep_view(),
            },
            To::Button { pointing_button, modifiers } => ToView::Button {
                pointing_button: pointing_button@,
                modifiers: modifiers.deep_view(),
            },
        }
    }
}

impl DeepView for Manipulator {
    type V = ManipulatorView;

    open spec fn deep_view(&self) -> ManipulatorView {
        ManipulatorView {
            type_: self.type_@,
            from: self.from.deep_view(),
            to: self.to.deep_view(),
            to_if_alone: self.to_if_alone.deep_view(),
        }
    }
}

impl DeepView for Rule {
    type V = RuleView;

    open spec fn deep_view(&self) -> RuleView {
        RuleView {
            description: self.description@,
            manipulators: self.manipulators.deep_view(),
        }
    }
}

impl FromModifiers {
    /// Whether the clause names no modifier at all.
    pub fn is_empty(&self) -> (r: bool)
        ensures
            r == (self.deep_view().mandatory.len() == 0 && self.deep_view().optional.len() == 0),
    {
        self.mandatory.is_empty() && self.optional.is_empty()
    }
}

/// The trigger that a key or button makes with a modifier clause: the clause is
/// absent where `mods` is, and else demands the modifiers of `mods` and allows
/// no others.
pub open spec fn from_of(key_or_button: KeyOrButtonView, mods: Option<Seq<Seq<char>>>) -> FromView {
    let modifiers = match mods {
        Some(mandatory) => Some(FromModifiersView { mandatory, optional: Seq::empty() }),
        None => None,
    };
    match key_or_button {
        KeyOrButtonView::Key(key_code) => FromView::Key { key_code, modifiers },
        KeyOrButtonView::Button(pointing_button) => FromView::Button { pointing_button, modifiers },
    }
}

/// The output that a key or button makes with a modifier clause: an absent
/// clause gives the empty list.
pub open spec fn to_of(key_or_button: KeyOrButtonView, mods: Option<Seq<Seq<char>>>) -> ToView {
    let modifiers = match mods {
        Some(list) => list,
        None => Seq::empty(),
    };
    match key_or_button {
        KeyOrButtonView::Key(key_code) => ToView::Key { key_code, modifiers },
        KeyOrButtonView::Button(pointing_button) => ToView::Button { pointing_button, modifiers },
    }
}

/// A part of a manipulator that is made from a key or button and the modifier
/// clause that followed it, if one did.
pub trait KeyOrButtonConv: Sized + DeepView {
    /// The view of what `conv` makes.
    spec fn conv_view(key_or_button: KeyOrButtonView, mods: Option<Seq<Seq<char>>>) -> Self::V;

    fn conv(key_or_button: KeyOrButton, mods: Option<Vec<String>>) -> (r: Self)
        ensures
            r.deep_view() == Self::conv_view(key_or_button.deep_view(), mods.deep_view()),
    ;
}

impl KeyOrButtonConv for From {
    open spec fn conv_view(key_or_button: KeyOrButtonView, mods: Option<Seq<Seq<char>>>) -> FromView {
        from_of(key_or_button, mods)
    }

    fn conv(key_or_button: KeyOrButton, mods: Option<Vec<String>>) -> (r: Self) {
        let optional: Vec<String> = Vec::new();
        assert(optional.deep_view() =~= Seq::<Seq<char>>::empty());
        let modifiers = match mods {
            Some(mandatory) => Some(FromModifiers { mandatory, optional }),
            None => None,
        };
        match key_or_button {
            KeyOrButton::Key(key_code) => From::Key { key_code, modifiers },
            KeyOrButton::Button(pointing_button) => From::Button { pointing_button, modifiers },
        }
    }
}

impl KeyOrButtonConv for To {
    open spec fn conv_view(key_or_button: KeyOrButtonView, mods: Option<Seq<Seq<char>>>) -> ToView {
        to_of(key_or_button, mods)
    }

    fn conv(key_or_button: KeyOrButton, mods: Option<Vec<String>>) -> (r: Self) {
        let modifiers = match mods {
            Some(list) => list,
            None => Vec::new(),
        };
        assert(mods is None ==> modifiers.deep_view() =~= Seq::<Seq<char>>::empty());
        match key_or_button {
            KeyOrButton::Key(key_code) => To::Key { key_code, modifiers },
            KeyOrButton::Button(pointing_button) => To::Button { pointing_button, modifiers },
        }
    }
}

} // verus!
