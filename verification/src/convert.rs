//! From the items of the source document to rules of the target document.

use crate::error::{after, outcome, ConvError, ConvErrorView};
use crate::json::{Manipulator, ManipulatorView, Rule, RuleView};
use crate::pattern::{autogen_translation, convert_autogen};
use crate::xml::{Item, ItemView, Karabiner};
use vstd::prelude::*;

verus! {

/// The manipulators of the rule texts, one for each and in their order, or the
/// failure of the first text that cannot be converted.
pub open spec fn manipulators_of(keys: Seq<Seq<char>>) -> Result<
    Seq<ManipulatorView>,
    ConvErrorView,
>
    decreases keys.len(),
{
    if keys.len() == 0 {
        Ok(Seq::empty())
    } else {
        match autogen_translation(keys[0]) {
            Ok(manipulator) => after(seq![manipulator], manipulators_of(keys.drop_first())),
            Err(error) => Err(error),
        }
    }
}

/// The rule that an item stands for: its name is the description, its rule
/// texts give the manipulators.
pub open spec fn rule_of(item: ItemView) -> Result<RuleView, ConvErrorView> {
    match manipulators_of(item.keys) {
        Ok(manipulators) => Ok(RuleView { description: item.name, manipulators }),
        Err(error) => Err(error),
    }
}

/// The rules of the items, one for each and in their order, or the failure of
/// the first item that cannot be converted.
pub open spec fn rules_of(items: Seq<ItemView>) -> Result<Seq<RuleView>, ConvErrorView>
    decreases items.len(),
{
    if items.len() == 0 {
        Ok(Seq::empty())
    } else {
        match rule_of(items[0]) {
            Ok(rule) => after(seq![rule], rules_of(items.drop_first())),
            Err(error) => Err(error),
        }
    }
}

/// Converts an item into a rule.
pub fn convert_item(item: &Item) -> (r: Result<Rule, ConvError>)
    ensures
        outcome(r) == rule_of(item.deep_view()),
{
    let ghost keys = item.keys.deep_view();
    let mut manipulators: Vec<Manipulator> = Vec::new();
    let mut i: usize = 0;
    assert(keys.skip(0) =~= keys);
    assert(forall|rest: Seq<ManipulatorView>| manipulators.deep_view() + rest =~= rest);
    while i < item.keys.len()
        invariant
            i <= item.keys.len(),
            keys == item.keys.deep_view(),
            manipulators_of(keys) == after(
                manipulators.deep_view(),
                manipulators_of(keys.skip(i as int)),
            ),
        decreases item.keys.len() - i,
    {
        let ghost done = manipulators.deep_view();
        assert(keys.skip(i as int)[0] == item.keys@[i as int]@);
        assert(keys.skip(i as int).drop_first() =~= keys.skip(i + 1));
        match convert_autogen(item.keys[i].as_str()) {
            Ok(manipulator) => {
                manipulators.push(manipulator);
                assert(manipulators.deep_view() =~= done + seq![manipulator.deep_view()]);
                assert forall|rest: Seq<ManipulatorView>| done + (seq![manipulator.deep_view()]
                    + rest) == (done + seq![manipulator.deep_view()]) + rest by {
                    assert(done + (seq![manipulator.deep_view()] + rest) =~= (done + seq![
                        manipulator.deep_view(),
                    ]) + rest);
                }
            },
            Err(error) => {
                return Err(error);
            },
        }
        i += 1;
    }
    assert(manipulators.deep_view() + Seq::<ManipulatorView>::empty()
        =~= manipulators.deep_view());
    Ok(Rule { description: item.name.clone(), manipulators })
}

/// Converts the items of a source document into rules, in their order. The
/// first item that cannot be converted ends the conversion.
pub fn convert_items(input: &Karabiner) -> (r: Result<Vec<Rule>, ConvError>)
    ensures
        outcome(r) == rules_of(input.deep_view()),
{
    let ghost items = input.deep_view();
    let mut rules: Vec<Rule> = Vec::new();
    let mut i: usize = 0;
    assert(items.skip(0) =~= items);
    assert(forall|rest: Seq<RuleView>| rules.deep_view() + rest =~= rest);
    while i < input.items.len()
        invariant
            i <= input.items.len(),
            items == input.deep_view(),
            rules_of(items) == after(rules.deep_view(), rules_of(items.skip(i as int))),
        decreases input.items.len() - i,
    {
        let ghost done = rules.deep_view();
        assert(items.skip(i as int)[0] == input.items@[i as int].deep_view());
        assert(items.skip(i as int).drop_first() =~= items.skip(i + 1));
        match convert_item(&input.items[i]) {
            Ok(rule) => {
                rules.push(rule);
                assert(rules.deep_view() =~= done + seq![rule.deep_view()]);
                assert forall|rest: Seq<RuleView>| done + (seq![rule.deep_view()] + rest) == (done
                    + seq![rule.deep_view()]) + rest by {
                    assert(done + (seq![rule.deep_view()] + rest) =~= (done + seq![
                        rule.deep_view(),
                    ]) + rest);
                }
            },
            Err(error) => {
                return Err(error);
            },
        }
        i += 1;
    }
    assert(rules.deep_view() + Seq::<RuleView>::empty() =~= rules.deep_view());
    Ok(rules)
}

} // verus!
