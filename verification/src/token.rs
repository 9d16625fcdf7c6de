//! What one segment of a rule's contents stands for: a key or a pointing
//! button, or the list of modifiers of a modifier expression.

use crate::error::{after, outcome, ConvError, ConvErrorView, SegmentKind, Table};
use crate::json::{KeyOrButton, KeyOrButtonView};
use crate::text::{pieces, same_text, slice_views, split, starts_with, trim, trimmed};
use crate::vocab::{
    button_target, key_code_target, lookup_button, lookup_key_code, lookup_modifier_flag,
    modifier_flag_target,
};
use vstd::prelude::*;
use vstd::string::StrSliceExecFns;

verus! {

/// The part of `segment` before its first `::`, trimmed.
pub open spec fn namespace_of(segment: Seq<char>) -> Seq<char> {
    trimmed(pieces(segment, "::"@)[0])
}

/// The part of `segment` between its first and its second `::`, trimmed; empty
/// where `segment` holds no `::`.
pub open spec fn name_of(segment: Seq<char>) -> Seq<char> {
    let parts = pieces(segment, "::"@);
    if parts.len() > 1 {
        trimmed(parts[1])
    } else {
        Seq::empty()
    }
}

/// What a key or button segment stands for: the namespace picks the table, in
/// which the name is looked up.
pub open spec fn key_of(segment: Seq<char>) -> Result<KeyOrButtonView, ConvErrorView> {
    let namespace = namespace_of(segment);
    let name = name_of(segment);
    if namespace == "KeyCode"@ {
        match key_code_target(name) {
            Some(target) => Ok(KeyOrButtonView::Key(target)),
            None => Err(ConvErrorView::UnknownIdentifier(Table::KeyCode, name)),
        }
    } else if namespace == "PointingButton"@ {
        match button_target(name) {
            Some(target) => Ok(KeyOrButtonView::Button(target)),
            None => Err(ConvErrorView::UnknownIdentifier(Table::PointingButton, name)),
        }
    } else {
        Err(ConvErrorView::UnknownNamespace(SegmentKind::Key, namespace))
    }
}

/// The name of the modifier flag that one sub-token of a modifier expression
/// gives: what follows `ModifierFlag::`, or what follows the prefix `VK_`.
pub open spec fn flag_name(token: Seq<char>) -> Result<Seq<char>, ConvErrorView> {
    let namespace = namespace_of(token);
    if namespace == "ModifierFlag"@ {
        Ok(name_of(token))
    } else if "VK_"@.is_prefix_of(namespace) {
        Ok(namespace.skip(3))
    } else {
        Err(ConvErrorView::UnknownNamespace(SegmentKind::Modifier, namespace))
    }
}

/// The flag names of the sub-tokens, in order, or what is wrong with the first
/// sub-token whose namespace is refused.
pub open spec fn flag_names(tokens: Seq<Seq<char>>) -> Result<Seq<Seq<char>>, ConvErrorView>
    decreases tokens.len(),
{
    if tokens.len() == 0 {
        Ok(Seq::empty())
    } else {
        match flag_name(tokens[0]) {
            Ok(name) => after(seq![name], flag_names(tokens.drop_first())),
            Err(error) => Err(error),
        }
    }
}

/// The target identifiers of the flag names, in order and with repetitions,
/// `NONE` giving none; or the first name that the modifier table does not hold.
pub open spec fn flag_targets(names: Seq<Seq<char>>) -> Result<Seq<Seq<char>>, ConvErrorView>
    decreases names.len(),
{
    if names.len() == 0 {
        Ok(Seq::empty())
    } else if names[0] == "NONE"@ {
        flag_targets(names.drop_first())
    } else {
        match modifier_flag_target(names[0]) {
            Some(target) => after(seq![target], flag_targets(names.drop_first())),
            None => Err(ConvErrorView::UnknownIdentifier(Table::Modifier, names[0])),
        }
    }
}

/// The modifiers that a modifier expression stands for. Its sub-tokens stand
/// between `|`. A refused namespace anywhere is reported before an unknown name.
pub open spec fn modifiers_of(expression: Seq<char>) -> Result<Seq<Seq<char>>, ConvErrorView> {
    if trimmed(expression).len() == 0 {
        Err(ConvErrorView::EmptyModifierExpression)
    } else {
        match flag_names(pieces(expression, "|"@)) {
            Ok(names) => flag_targets(names),
            Err(error) => Err(error),
        }
    }
}

/// The namespace and the name of `segment`.
pub(crate) fn namespace_and_name<'a>(segment: &'a str) -> (r: (&'a str, &'a str))
    ensures
        r.0@ == namespace_of(segment@),
        r.1@ == name_of(segment@),
{
    let parts = split(segment, "::");
    assert(parts@[0]@ == pieces(segment@, "::"@)[0]);
    let namespace = trim(parts[0]);
    if parts.len() > 1 {
        assert(parts@[1]@ == pieces(segment@, "::"@)[1]);
        (namespace, trim(parts[1]))
    } else {
        proof {
            reveal_strlit("");
        }
        assert(""@ =~= Seq::<char>::empty());
        (namespace, "")
    }
}

/// Converts a key or button segment, `<Namespace>::<Name>`, to its target
/// identifier.
pub fn conv_key(s: &str) -> (r: Result<KeyOrButton, ConvError>)
    ensures
        outcome(r) == key_of(s@),
{
    let (namespace, name) = namespace_and_name(s);
    if same_text(namespace, "KeyCode") {
        match lookup_key_code(name) {
            Some(target) => Ok(KeyOrButton::Key(target.to_owned())),
            None => Err(ConvError::UnknownIdentifier(Table::KeyCode, name.to_owned())),
        }
    } else if same_text(namespace, "PointingButton") {
        match lookup_button(name) {
            Some(target) => Ok(KeyOrButton::Button(target.to_owned())),
            None => Err(ConvError::UnknownIdentifier(Table::PointingButton, name.to_owned())),
        }
    } else {
        Err(ConvError::UnknownNamespace(SegmentKind::Key, namespace.to_owned()))
    }
}

/// The flag name of one sub-token of a modifier expression.
fn flag_name_of<'a>(token: &'a str) -> (r: Result<&'a str, ConvError>)
    ensures
        outcome(r) == flag_name(token@),
{
    let (namespace, name) = namespace_and_name(token);
    if same_text(namespace, "ModifierFlag") {
        Ok(name)
    } else if starts_with(namespace, "VK_") {
        proof {
            reveal_strlit("VK_");
        }
        let n = namespace.unicode_len();
        assert(namespace@.subrange(3, n as int) =~= namespace@.skip(3));
        Ok(namespace.substring_char(3, n))
    } else {
        Err(ConvError::UnknownNamespace(SegmentKind::Modifier, namespace.to_owned()))
    }
}

/// Converts a modifier expression, `<Namespace>::<Name> (| <Namespace>::<Name>)*`,
/// to the list of its target identifiers.
pub fn conv_mod(s: &str) -> (r: Result<Vec<String>, ConvError>)
    ensures
        outcome(r) == modifiers_of(s@),
{
    if trim(s).unicode_len() == 0 {
        return Err(ConvError::EmptyModifierExpression);
    }
    let tokens = split(s, "|");
    let ghost token_views = pieces(s@, "|"@);
    let mut names: Vec<&str> = Vec::new();
    let mut i: usize = 0;
    assert(token_views.skip(0) =~= token_views);
    while i < tokens.len()
        invariant
            i <= tokens.len(),
            trimmed(s@).len() != 0,
            token_views == pieces(s@, "|"@),
            slice_views(tokens@) == token_views,
            flag_names(token_views) == after(
                slice_views(names@),
                flag_names(token_views.skip(i as int)),
            ),
        decreases tokens.len() - i,
    {
        let ghost done = slice_views(names@);
        assert(tokens@[i as int]@ == token_views[i as int]);
        assert(token_views.skip(i as int).drop_first() =~= token_views.skip(i + 1));
        match flag_name_of(tokens[i]) {
            Ok(name) => {
                names.push(name);
                assert(slice_views(names@) =~= done + seq![name@]);
                assert forall|rest: Seq<Seq<char>>| done + (seq![name@] + rest) == (done + seq![
                    name@,
                ]) + rest by {
                    assert(done + (seq![name@] + rest) =~= (done + seq![name@]) + rest);
                }
            },
            Err(error) => {
                return Err(error);
            },
        }
        i += 1;
    }
    let ghost name_views = slice_views(names@);
    assert(after(name_views, flag_names(token_views.skip(i as int))) == Ok::<
        Seq<Seq<char>>,
        ConvErrorView,
    >(name_views)) by {
        assert(name_views + Seq::<Seq<char>>::empty() =~= name_views);
    }
    let mut targets: Vec<String> = Vec::new();
    let mut j: usize = 0;
    assert(name_views.skip(0) =~= name_views);
    assert(targets.deep_view() =~= Seq::<Seq<char>>::empty());
    assert(Seq::<Seq<char>>::empty() + name_views =~= name_views);
    while j < names.len()
        invariant
            j <= names.len(),
            trimmed(s@).len() != 0,
            flag_names(pieces(s@, "|"@)) == Ok::<Seq<Seq<char>>, ConvErrorView>(name_views),
            slice_views(names@) == name_views,
            flag_targets(name_views) == after(
                targets.deep_view(),
                flag_targets(name_views.skip(j as int)),
            ),
        decreases names.len() - j,
    {
        let ghost done = targets.deep_view();
        let name = names[j];
        assert(name@ == name_views[j as int]);
        assert(name_views.skip(j as int).drop_first() =~= name_views.skip(j + 1));
        if !same_text(name, "NONE") {
            match lookup_modifier_flag(name) {
                Some(target) => {
                    targets.push(target.to_owned());
                    assert(targets.deep_view() =~= done + seq![target@]);
                    assert forall|rest: Seq<Seq<char>>| done + (seq![target@] + rest) == (done
                        + seq![target@]) + rest by {
                        assert(done + (seq![target@] + rest) =~= (done + seq![target@]) + rest);
                    }
                },
                None => {
                    return Err(ConvError::UnknownIdentifier(Table::Modifier, name.to_owned()));
                },
            }
        }
        j += 1;
    }
    assert(targets.deep_view() + Seq::<Seq<char>>::empty() =~= targets.deep_view());
    Ok(targets)
}

/// Whether `text` is not empty and holds no white space, colon or bar.
spec fn is_solid(text: Seq<char>) -> bool {
    text.len() > 0 && forall|i: int|
        0 <= i < text.len() ==> !crate::text::is_space(text[i]) && text[i] != ':' && text[i]
            != '|'
}

/// A solid name behind a solid namespace and `::` is read as that namespace and
/// that name, and holds no bar.
proof fn lemma_namespace_and_name(namespace: Seq<char>, name: Seq<char>)
    requires
        is_solid(namespace),
        is_solid(name),
    ensures
        namespace_of(namespace + "::"@ + name) == namespace,
        name_of(namespace + "::"@ + name) == name,
        pieces(namespace + "::"@ + name, "|"@) == seq![namespace + "::"@ + name],
{
    reveal_strlit("::");
    reveal_strlit("|");
    let empty = Seq::<char>::empty();
    let text = namespace + "::"@ + name;
    crate::text::lemma_piece_ends_at_separator(namespace, "::"@, name, empty);
    crate::text::lemma_one_piece(name, "::"@, empty);
    assert(empty + namespace =~= namespace);
    assert(empty + name =~= name);
    crate::text::lemma_trimmed_is_self(namespace);
    crate::text::lemma_trimmed_is_self(name);
    assert forall|i: int| 0 <= i < text.len() implies text[i] != "|"@[0] by {
        if i < namespace.len() {
            assert(text[i] == namespace[i]);
        } else if i < namespace.len() + 2 {
            assert(text[i] == "::"@[i - namespace.len()]);
        } else {
            assert(text[i] == name[i - namespace.len() - 2]);
        }
    }
    crate::text::lemma_one_piece(text, "|"@, empty);
    assert(empty + text =~= text);
}

/// Every name of the key-code table, written behind `KeyCode::`, converts to
/// the key that the table gives for it, and to nothing else.
pub proof fn lemma_key_names_convert(name: Seq<char>)
    requires
        key_code_target(name) is Some,
    ensures
        key_of("KeyCode"@ + "::"@ + name) == Ok::<KeyOrButtonView, ConvErrorView>(
            KeyOrButtonView::Key(key_code_target(name)->0),
        ),
{
    reveal_strlit("KeyCode");
    crate::vocab::lemma_key_code_names(name);
    lemma_namespace_and_name("KeyCode"@, name);
}

/// Every name of the button table, written behind `PointingButton::`, converts
/// to the button that the table gives for it, and to nothing else.
pub proof fn lemma_button_names_convert(name: Seq<char>)
    requires
        button_target(name) is Some,
    ensures
        key_of("PointingButton"@ + "::"@ + name) == Ok::<KeyOrButtonView, ConvErrorView>(
            KeyOrButtonView::Button(button_target(name)->0),
        ),
{
    reveal_strlit("PointingButton");
    reveal_strlit("KeyCode");
    crate::vocab::lemma_button_names(name);
    lemma_namespace_and_name("PointingButton"@, name);
}

/// Every name of the modifier table, written behind `ModifierFlag::`, converts
/// to the one modifier that the table gives for it.
pub proof fn lemma_modifier_names_convert(name: Seq<char>)
    requires
        modifier_flag_target(name) is Some,
    ensures
        modifiers_of("ModifierFlag"@ + "::"@ + name) == Ok::<Seq<Seq<char>>, ConvErrorView>(
            seq![modifier_flag_target(name)->0],
        ),
{
    reveal_strlit("ModifierFlag");
    reveal_strlit("NONE");
    crate::vocab::lemma_modifier_flag_names(name);
    lemma_namespace_and_name("ModifierFlag"@, name);
    let text = "ModifierFlag"@ + "::"@ + name;
    crate::text::lemma_trimmed_is_self(text);
    let names = seq![name];
    assert(flag_names(seq![text]) == Ok::<Seq<Seq<char>>, ConvErrorView>(names)) by {
        assert(seq![text].drop_first() =~= Seq::<Seq<char>>::empty());
        assert(flag_names(seq![text].drop_first()) == Ok::<Seq<Seq<char>>, ConvErrorView>(
            Seq::empty(),
        ));
        assert(seq![name] + Seq::<Seq<char>>::empty() =~= names);
    }
    assert(flag_targets(names) == Ok::<Seq<Seq<char>>, ConvErrorView>(
        seq![modifier_flag_target(name)->0],
    )) by {
        assert(names.drop_first() =~= Seq::<Seq<char>>::empty());
        assert(flag_targets(names.drop_first()) == Ok::<Seq<Seq<char>>, ConvErrorView>(
            Seq::empty(),
        ));
        assert(seq![modifier_flag_target(name)->0] + Seq::<Seq<char>>::empty() =~= seq![
            modifier_flag_target(name)->0,
        ]);
        reveal_strlit("ZERO");
        reveal_strlit("CAPSLOCK");
        reveal_strlit("SHIFT");
        reveal_strlit("SHIFT_L");
        reveal_strlit("SHIFT_R");
        reveal_strlit("CONTROL");
        reveal_strlit("CONTROL_L");
        reveal_strlit("CONTROL_R");
        reveal_strlit("OPTION_L");
        reveal_strlit("OPTION_R");
        reveal_strlit("COMMAND");
        reveal_strlit("COMMAND_L");
        reveal_strlit("COMMAND_R");
        reveal_strlit("FN");
    }
}

/// Flag names that are all `NONE` have no targets.
proof fn lemma_targets_of_none(names: Seq<Seq<char>>)
    requires
        forall|i: int| 0 <= i < names.len() ==> names[i] == "NONE"@,
    ensures
        flag_targets(names) == Ok::<Seq<Seq<char>>, ConvErrorView>(Seq::empty()),
    decreases names.len(),
{
    if names.len() > 0 {
        lemma_targets_of_none(names.drop_first());
    }
}

/// Sub-tokens that all give the flag name `NONE` give those names.
proof fn lemma_names_of_none(tokens: Seq<Seq<char>>)
    requires
        forall|i: int|
            0 <= i < tokens.len() ==> flag_name(#[trigger] tokens[i]) == Ok::<
                Seq<char>,
                ConvErrorView,
            >("NONE"@),
    ensures
        flag_names(tokens) is Ok,
        flag_names(tokens)->Ok_0.len() == tokens.len(),
        forall|i: int| 0 <= i < tokens.len() ==> flag_names(tokens)->Ok_0[i] == "NONE"@,
    decreases tokens.len(),
{
    if tokens.len() > 0 {
        let rest = tokens.drop_first();
        assert forall|i: int| 0 <= i < rest.len() implies flag_name(#[trigger] rest[i]) == Ok::<
            Seq<char>,
            ConvErrorView,
        >("NONE"@) by {
            assert(rest[i] == tokens[i + 1]);
        }
        lemma_names_of_none(rest);
        assert(flag_name(tokens[0]) is Ok);
    }
}

/// White space alone gives no flag name.
proof fn lemma_blank_has_no_flag_name(token: Seq<char>)
    requires
        trimmed(token).len() == 0,
    ensures
        flag_name(token) is Err,
{
    reveal_strlit("::");
    reveal_strlit("ModifierFlag");
    reveal_strlit("VK_");
    crate::text::lemma_trimmed_blank(token);
    assert(!crate::text::is_space(':'));
    crate::text::lemma_one_piece(token, "::"@, Seq::empty());
    assert(Seq::<char>::empty() + token =~= token);
}

/// A modifier expression whose sub-tokens all name the flag `NONE` stands for
/// the empty list of modifiers.
pub proof fn lemma_none_alone_is_empty(expression: Seq<char>)
    requires
        forall|i: int|
            0 <= i < pieces(expression, "|"@).len() ==> flag_name(
                #[trigger] pieces(expression, "|"@)[i],
            ) == Ok::<Seq<char>, ConvErrorView>("NONE"@),
    ensures
        modifiers_of(expression) == Ok::<Seq<Seq<char>>, ConvErrorView>(Seq::empty()),
{
    let tokens = pieces(expression, "|"@);
    if trimmed(expression).len() == 0 {
        reveal_strlit("|");
        crate::text::lemma_trimmed_blank(expression);
        assert(!crate::text::is_space('|'));
        crate::text::lemma_one_piece(expression, "|"@, Seq::empty());
        assert(Seq::<char>::empty() + expression =~= expression);
        assert(tokens[0] == expression);
        lemma_blank_has_no_flag_name(expression);
    }
    lemma_names_of_none(tokens);
    lemma_targets_of_none(flag_names(tokens)->Ok_0);
}

} // verus!
