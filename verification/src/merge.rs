//! Merging rules into the target document: a rule replaces the manipulators of
//! the first rule that has its description, or is added at the end.

use crate::json::{Karabiner, Profile, Rule, RuleView};
use vstd::prelude::*;

verus! {

/// What a merge did.
#[derive(Debug, Clone, Copy, PartialEq, Eq, Structural)]
pub enum MergeOutcome {
    /// A rule with the description was there, and has the new manipulators.
    Replaced,
    /// No rule had the description, and the rule stands at the end.
    Added,
}

/// The place of the first rule with the description, or the number of rules if
/// none has it.
pub open spec fn first_match(rules: Seq<RuleView>, description: Seq<char>) -> int
    decreases rules.len(),
{
    if rules.len() == 0 {
        0
    } else if rules[0].description == description {
        0
    } else {
        1 + first_match(rules.drop_first(), description)
    }
}

/// The rules after `rule` was merged into them.
pub open spec fn merged(rules: Seq<RuleView>, rule: RuleView) -> Seq<RuleView> {
    let at = first_match(rules, rule.description);
    if at < rules.len() {
        rules.update(
            at,
            RuleView { description: rules[at].description, manipulators: rule.manipulators },
        )
    } else {
        rules.push(rule)
    }
}

/// What merging `rule` into `rules` does.
pub open spec fn merge_outcome(rules: Seq<RuleView>, rule: RuleView) -> MergeOutcome {
    if first_match(rules, rule.description) < rules.len() {
        MergeOutcome::Replaced
    } else {
        MergeOutcome::Added
    }
}

/// `first_match` is the least place that holds the description.
pub proof fn lemma_first_match(rules: Seq<RuleView>, description: Seq<char>)
    ensures
        0 <= first_match(rules, description) <= rules.len(),
        forall|j: int|
            0 <= j < first_match(rules, description) ==> (#[trigger] rules[j]).description
                != description,
        first_match(rules, description) < rules.len() ==> rules[first_match(
            rules,
            description,
        )].description == description,
    decreases rules.len(),
{
    if rules.len() > 0 && rules[0].description != description {
        let rest = rules.drop_first();
        lemma_first_match(rest, description);
        assert forall|j: int| 0 <= j < first_match(rules, description) implies (
        #[trigger] rules[j]).description != description by {
            if j > 0 {
                assert(rules[j] == rest[j - 1]);
            }
        }
    }
}

/// A place before which no rule has the description, and which holds it or is
/// the end, is `first_match`.
pub proof fn lemma_first_match_at(rules: Seq<RuleView>, description: Seq<char>, at: int)
    requires
        0 <= at <= rules.len(),
        forall|j: int| 0 <= j < at ==> (#[trigger] rules[j]).description != description,
        at < rules.len() ==> rules[at].description == description,
    ensures
        first_match(rules, description) == at,
{
    lemma_first_match(rules, description);
}

/// Merges `rule` into `rules`.
pub fn merge_rule(rules: &mut Vec<Rule>, rule: Rule) -> (outcome: MergeOutcome)
    ensures
        final(rules).deep_view() == merged(old(rules).deep_view(), rule.deep_view()),
        outcome == merge_outcome(old(rules).deep_view(), rule.deep_view()),
{
    let ghost before = rules.deep_view();
    let mut at: usize = 0;
    while at < rules.len() && !(rules[at].description == rule.description)
        invariant
            at <= rules.len(),
            *rules == *old(rules),
            before == rules.deep_view(),
            forall|j: int| 0 <= j < at ==> (#[trigger] before[j]).description != rule.description@,
        decreases rules.len() - at,
    {
        at += 1;
    }
    proof {
        lemma_first_match_at(before, rule.description@, at as int);
    }
    if at < rules.len() {
        rules.set(at, rule);
        assert(rules.deep_view() =~= merged(before, rule.deep_view()));
        MergeOutcome::Replaced
    } else {
        rules.push(rule);
        assert(rules.deep_view() =~= merged(before, rule.deep_view()));
        MergeOutcome::Added
    }
}

/// The rules after each of `new` was merged into them, in order.
pub open spec fn merged_all(rules: Seq<RuleView>, new: Seq<RuleView>) -> Seq<RuleView>
    decreases new.len(),
{
    if new.len() == 0 {
        rules
    } else {
        merged_all(merged(rules, new[0]), new.drop_first())
    }
}

/// What each merge does when the rules of `new` are merged in order.
pub open spec fn merge_outcomes(rules: Seq<RuleView>, new: Seq<RuleView>) -> Seq<MergeOutcome>
    decreases new.len(),
{
    if new.len() == 0 {
        Seq::empty()
    } else {
        seq![merge_outcome(rules, new[0])] + merge_outcomes(
            merged(rules, new[0]),
            new.drop_first(),
        )
    }
}

impl Profile {
    /// Whether `self` is `other` but for its rules.
    pub open spec fn differs_in_rules_only(self, other: Profile) -> bool {
        &&& self.name == other.name
        &&& self.selected == other.selected
        &&& self.fn_function_keys == other.fn_function_keys
        &&& self.devices == other.devices
        &&& self.virtual_hid_keyboard == other.virtual_hid_keyboard
        &&& self.simple_modifications == other.simple_modifications
        &&& self.complex_modifications.parameters == other.complex_modifications.parameters
    }
}

impl Karabiner {
    /// The rules of the first profile; none where there is no profile.
    pub open spec fn rules(self) -> Seq<RuleView> {
        if self.profiles.len() > 0 {
            self.profiles[0].complex_modifications.rules.deep_view()
        } else {
            Seq::empty()
        }
    }

    /// Whether `self` is `other` but for the rules of the first profile.
    pub open spec fn differs_in_rules_only(self, other: Karabiner) -> bool {
        &&& self.global == other.global
        &&& self.profiles.len() == other.profiles.len()
        &&& self.profiles.len() > 0 ==> self.profiles[0].differs_in_rules_only(other.profiles[0])
        &&& forall|i: int| 0 < i < self.profiles.len() ==> self.profiles[i] == other.profiles[i]
    }

    /// Merges `rule` into the rules of the first profile. Nothing else changes.
    /// Without a profile there is nothing to merge into: the document stays as it
    /// is and the answer is `None`.
    pub fn merge(&mut self, rule: Rule) -> (outcome: Option<MergeOutcome>)
        ensures
            final(self).differs_in_rules_only(*old(self)),
            old(self).profiles.len() == 0 ==> outcome is None && *final(self) == *old(self),
            old(self).profiles.len() > 0 ==> outcome == Some(
                merge_outcome(old(self).rules(), rule.deep_view()),
            ) && final(self).rules() == merged(old(self).rules(), rule.deep_view()),
    {
        if self.profiles.len() == 0 {
            return None;
        }
        let outcome = merge_rule(&mut self.profiles[0].complex_modifications.rules, rule);
        Some(outcome)
    }

    /// Merges the rules of `new`, in order, into the rules of the first profile.
    /// Nothing else changes. Where there are rules to merge and no profile, the
    /// document stays as it is and the answer is `None`.
    pub fn merge_all(&mut self, new: Vec<Rule>) -> (outcomes: Option<Vec<MergeOutcome>>)
        ensures
            final(self).differs_in_rules_only(*old(self)),
            outcomes is None <==> new.len() > 0 && old(self).profiles.len() == 0,
            outcomes is None || new.len() == 0 ==> *final(self) == *old(self),
            outcomes matches Some(list) ==> list@ == merge_outcomes(
                old(self).rules(),
                new.deep_view(),
            ) && final(self).rules() == merged_all(old(self).rules(), new.deep_view()),
    {
        let mut outcomes: Vec<MergeOutcome> = Vec::new();
        if new.len() == 0 {
            return Some(outcomes);
        }
        if self.profiles.len() == 0 {
            return None;
        }
        let ghost all = new.deep_view();
        let ghost start = self.rules();
        assert(all.skip(0) =~= all);
        assert(outcomes@ + merge_outcomes(start, all) =~= merge_outcomes(start, all));
        for rule in iter: new
            invariant
                iter.seq().len() == all.len(),
                forall|j: int|
                    0 <= j < all.len() ==> (#[trigger] iter.seq()[j]).deep_view() == all[j],
                self.profiles.len() > 0,
                self.differs_in_rules_only(*old(self)),
                merged_all(start, all) == merged_all(self.rules(), all.skip(iter.index())),
                merge_outcomes(start, all) == outcomes@ + merge_outcomes(
                    self.rules(),
                    all.skip(iter.index()),
                ),
        {
            let ghost rest = all.skip(iter.index());
            let ghost done = outcomes@;
            let ghost now = self.rules();
            assert(rest[0] == rule.deep_view());
            assert(rest.drop_first() =~= all.skip(iter.index() + 1));
            let outcome = merge_rule(&mut self.profiles[0].complex_modifications.rules, rule);
            outcomes.push(outcome);
            assert(done + (seq![outcome] + merge_outcomes(self.rules(), rest.drop_first()))
                =~= outcomes@ + merge_outcomes(self.rules(), rest.drop_first()));
        }
        assert(outcomes@ + Seq::<MergeOutcome>::empty() =~= outcomes@);
        Some(outcomes)
    }
}

/// Where a rule has the description of `rule`, the merge keeps the number of
/// rules and every rule but the first with that description, which keeps its
/// place and its description and gets the manipulators of `rule`.
pub proof fn lemma_merge_replaces_in_place(rules: Seq<RuleView>, rule: RuleView, at: int)
    requires
        0 <= at < rules.len(),
        rules[at].description == rule.description,
        forall|j: int| 0 <= j < at ==> (#[trigger] rules[j]).description != rule.description,
    ensures
        merge_outcome(rules, rule) == MergeOutcome::Replaced,
        merged(rules, rule).len() == rules.len(),
        merged(rules, rule)[at] == rule,
        forall|j: int| 0 <= j < rules.len() && j != at ==> merged(rules, rule)[j] == rules[j],
{
    lemma_first_match_at(rules, rule.description, at);
}

/// Where no rule has the description of `rule`, the merge keeps every rule and
/// adds `rule` at the end.
pub proof fn lemma_merge_appends(rules: Seq<RuleView>, rule: RuleView)
    requires
        forall|j: int| 0 <= j < rules.len() ==> (#[trigger] rules[j]).description != rule.description,
    ensures
        merge_outcome(rules, rule) == MergeOutcome::Added,
        merged(rules, rule) == rules.push(rule),
{
    lemma_first_match_at(rules, rule.description, rules.len() as int);
}

/// Merging a rule a second time replaces, and changes nothing: after both
/// merges the rules are what they were after the first.
pub proof fn lemma_merge_twice(rules: Seq<RuleView>, rule: RuleView)
    ensures
        merge_outcome(merged(rules, rule), rule) == MergeOutcome::Replaced,
        merged(merged(rules, rule), rule) == merged(rules, rule),
{
    lemma_first_match(rules, rule.description);
    let at = first_match(rules, rule.description);
    let once = merged(rules, rule);
    assert forall|j: int| 0 <= j < at implies (#[trigger] once[j]).description
        != rule.description by {
        assert(once[j] == rules[j]);
    }
    lemma_first_match_at(once, rule.description, at);
    assert(merged(once, rule) =~= once);
}

/// Whether a rule of `rules` has the description.
pub open spec fn has_rule(rules: Seq<RuleView>, description: Seq<char>) -> bool {
    first_match(rules, description) < rules.len()
}

/// Whether every rule of `new` has the description of a rule of `rules`.
pub open spec fn has_all(rules: Seq<RuleView>, new: Seq<RuleView>) -> bool {
    forall|k: int| 0 <= k < new.len() ==> has_rule(rules, (#[trigger] new[k]).description)
}

/// Whether `a` and `b` are the same but for the manipulators at `place`.
spec fn same_but_at(a: Seq<RuleView>, b: Seq<RuleView>, place: int) -> bool {
    &&& a.len() == b.len()
    &&& 0 <= place < a.len()
    &&& a[place].description == b[place].description
    &&& forall|j: int| 0 <= j < a.len() && j != place ==> a[j] == b[j]
}

/// The first place of a description depends on the descriptions alone.
proof fn lemma_first_match_by_descriptions(a: Seq<RuleView>, b: Seq<RuleView>, description: Seq<char>)
    requires
        a.len() == b.len(),
        forall|j: int| 0 <= j < a.len() ==> a[j].description == b[j].description,
    ensures
        first_match(a, description) == first_match(b, description),
{
    lemma_first_match(a, description);
    lemma_first_match_at(b, description, first_match(a, description));
}

/// A merge moves no rule: a description that a rule has keeps its first place,
/// and afterwards the description of the merged rule has a place too.
proof fn lemma_merge_keeps_places(rules: Seq<RuleView>, rule: RuleView, description: Seq<char>)
    ensures
        has_rule(merged(rules, rule), rule.description),
        has_rule(rules, description) ==> first_match(merged(rules, rule), description)
            == first_match(rules, description),
{
    lemma_first_match(rules, rule.description);
    lemma_first_match(rules, description);
    let after = merged(rules, rule);
    assert forall|j: int| 0 <= j < rules.len() implies (#[trigger] after[j]).description
        == rules[j].description by {}
    lemma_first_match_at(after, rule.description, first_match(rules, rule.description));
    if has_rule(rules, description) {
        lemma_first_match_at(after, description, first_match(rules, description));
    }
}

/// Merging several rules moves no rule either.
proof fn lemma_merge_all_keeps_places(
    rules: Seq<RuleView>,
    new: Seq<RuleView>,
    description: Seq<char>,
)
    requires
        has_rule(rules, description),
    ensures
        first_match(merged_all(rules, new), description) == first_match(rules, description),
        merged_all(rules, new).len() >= rules.len(),
    decreases new.len(),
{
    if new.len() > 0 {
        lemma_merge_keeps_places(rules, new[0], description);
        lemma_first_match(rules, new[0].description);
        lemma_merge_all_keeps_places(merged(rules, new[0]), new.drop_first(), description);
    }
}

/// After a merge of several rules, the description of each has a place.
proof fn lemma_merge_all_has_all(rules: Seq<RuleView>, new: Seq<RuleView>)
    ensures
        has_all(merged_all(rules, new), new),
    decreases new.len(),
{
    if new.len() > 0 {
        let first = merged(rules, new[0]);
        let rest = new.drop_first();
        lemma_merge_all_has_all(first, rest);
        assert forall|k: int| 0 <= k < new.len() implies has_rule(
            merged_all(rules, new),
            (#[trigger] new[k]).description,
        ) by {
            if k == 0 {
                lemma_merge_keeps_places(rules, new[0], new[0].description);
                lemma_merge_all_keeps_places(first, rest, new[0].description);
            } else {
                assert(new[k] == rest[k - 1]);
            }
        }
    }
}

/// Merging the last of several rules is the last merge.
proof fn lemma_merge_all_push(rules: Seq<RuleView>, new: Seq<RuleView>, last: RuleView)
    ensures
        merged_all(rules, new.push(last)) == merged(merged_all(rules, new), last),
    decreases new.len(),
{
    let all = new.push(last);
    if new.len() == 0 {
        assert(all.drop_first() =~= Seq::<RuleView>::empty());
        assert(merged_all(merged(rules, last), all.drop_first()) == merged(rules, last));
    } else {
        assert(all.drop_first() =~= new.drop_first().push(last));
        lemma_merge_all_push(merged(rules, new[0]), new.drop_first(), last);
    }
}

/// Rules that differ in the manipulators at one place differ there alone
/// after the same merges, and not at all once a merge has written to the place.
proof fn lemma_merge_all_same_but_at(
    a: Seq<RuleView>,
    b: Seq<RuleView>,
    place: int,
    new: Seq<RuleView>,
)
    requires
        same_but_at(a, b, place),
    ensures
        same_but_at(merged_all(a, new), merged_all(b, new), place),
    decreases new.len(),
{
    if new.len() > 0 {
        let rule = new[0];
        lemma_first_match_by_descriptions(a, b, rule.description);
        lemma_first_match(a, rule.description);
        lemma_merge_all_same_but_at(merged(a, rule), merged(b, rule), place, new.drop_first());
    }
}

/// A rule added behind rules that have every description of `new` stays the
/// last when `new` is merged.
proof fn lemma_merge_all_before_last(rules: Seq<RuleView>, last: RuleView, new: Seq<RuleView>)
    requires
        has_all(rules, new),
    ensures
        merged_all(rules.push(last), new) == merged_all(rules, new).push(last),
    decreases new.len(),
{
    if new.len() > 0 {
        let rule = new[0];
        let rest = new.drop_first();
        let with_last = rules.push(last);
        lemma_first_match(rules, rule.description);
        let at = first_match(rules, rule.description);
        assert(has_rule(rules, new[0].description));
        assert forall|j: int| 0 <= j < at implies (#[trigger] with_last[j]).description
            != rule.description by {
            assert(with_last[j] == rules[j]);
        }
        lemma_first_match_at(with_last, rule.description, at);
        assert(merged(with_last, rule) =~= merged(rules, rule).push(last));
        assert forall|k: int| 0 <= k < rest.len() implies has_rule(
            merged(rules, rule),
            (#[trigger] rest[k]).description,
        ) by {
            assert(rest[k] == new[k + 1]);
            lemma_merge_keeps_places(rules, rule, rest[k].description);
        }
        lemma_merge_all_before_last(merged(rules, rule), last, rest);
    }
}

/// Where every description of `new` has a rule, every merge of `new` replaces.
proof fn lemma_merge_all_replaces(rules: Seq<RuleView>, new: Seq<RuleView>)
    requires
        has_all(rules, new),
    ensures
        merge_outcomes(rules, new) == Seq::new(new.len(), |k: int| MergeOutcome::Replaced),
    decreases new.len(),
{
    if new.len() > 0 {
        let rule = new[0];
        let rest = new.drop_first();
        assert(has_rule(rules, new[0].description));
        lemma_first_match(rules, rule.description);
        assert forall|k: int| 0 <= k < rest.len() implies has_rule(
            merged(rules, rule),
            (#[trigger] rest[k]).description,
        ) by {
            assert(rest[k] == new[k + 1]);
            lemma_merge_keeps_places(rules, rule, rest[k].description);
        }
        lemma_merge_all_replaces(merged(rules, rule), rest);
    }
    assert(merge_outcomes(rules, new) =~= Seq::new(new.len(), |k: int| MergeOutcome::Replaced));
}

/// Merging the same rules a second time changes nothing, and every merge of
/// the second time replaces: after both, the rules are what they were after the
/// first.
pub proof fn lemma_merge_all_twice(rules: Seq<RuleView>, new: Seq<RuleView>)
    ensures
        merged_all(merged_all(rules, new), new) == merged_all(rules, new),
        merge_outcomes(merged_all(rules, new), new) == Seq::new(
            new.len(),
            |k: int| MergeOutcome::Replaced,
        ),
    decreases new.len(),
{
    let once = merged_all(rules, new);
    lemma_merge_all_has_all(rules, new);
    lemma_merge_all_replaces(once, new);
    if new.len() > 0 {
        let init = new.drop_last();
        let last = new.last();
        assert(new =~= init.push(last));
        let before = merged_all(rules, init);
        lemma_merge_all_push(rules, init, last);
        lemma_merge_all_push(once, init, last);
        lemma_merge_all_twice(rules, init);
        lemma_merge_all_has_all(rules, init);
        lemma_first_match(before, last.description);
        let at = first_match(before, last.description);
        lemma_merge_twice(before, last);
        if at < before.len() {
            assert(same_but_at(once, before, at));
            lemma_merge_all_same_but_at(once, before, at, init);
            let again = merged_all(once, init);
            lemma_first_match_by_descriptions(again, before, last.description);
            assert(merged(again, last) =~= merged(before, last));
        } else {
            lemma_merge_all_before_last(before, last, init);
        }
    }
}

} // verus!
