use karaconv::json::{
    ComplexModifications, From, Karabiner, Manipulator, Profile, Rule, To,
};
use karaconv::merge::{merge_rule, MergeOutcome};
use karaconv::pattern::convert_autogen;

fn chain(from: &str, to: &str) -> Manipulator {
    Manipulator {
        type_: "basic".to_string(),
        from: From::Key { key_code: from.to_string(), modifiers: None },
        to: vec![To::Key { key_code: to.to_string(), modifiers: vec![] }],
        to_if_alone: vec![],
    }
}

fn rule(description: &str, manipulators: Vec<Manipulator>) -> Rule {
    Rule { description: description.to_string(), manipulators }
}

fn profile(name: &str, rules: Vec<Rule>) -> Profile {
    Profile {
        name: name.to_string(),
        selected: true,
        fn_function_keys: serde_json::Value::Null,
        devices: serde_json::Value::Array(vec![]),
        virtual_hid_keyboard: serde_json::Value::Bool(true),
        simple_modifications: vec![],
        complex_modifications: ComplexModifications {
            parameters: serde_json::Value::String("parameters".to_string()),
            rules,
        },
    }
}

fn document(profiles: Vec<Profile>) -> Karabiner {
    Karabiner { global: serde_json::Value::String("global".to_string()), profiles }
}

#[test]
fn merge_replaces_in_place() {
    let mut rules = vec![
        rule("first", vec![chain("a", "b")]),
        rule("second", vec![chain("c", "d")]),
        rule("third", vec![chain("e", "f")]),
    ];
    let outcome = merge_rule(&mut rules, rule("second", vec![chain("x", "y"), chain("y", "z")]));
    assert_eq!(outcome, MergeOutcome::Replaced);
    assert_eq!(
        rules,
        vec![
            rule("first", vec![chain("a", "b")]),
            rule("second", vec![chain("x", "y"), chain("y", "z")]),
            rule("third", vec![chain("e", "f")]),
        ]
    );
}

#[test]
fn merge_appends_a_new_description() {
    let mut rules = vec![rule("first", vec![chain("a", "b")])];
    let outcome = merge_rule(&mut rules, rule("First", vec![chain("x", "y")]));
    assert_eq!(outcome, MergeOutcome::Added);
    assert_eq!(
        rules,
        vec![rule("first", vec![chain("a", "b")]), rule("First", vec![chain("x", "y")])]
    );
    let mut none: Vec<Rule> = vec![];
    assert_eq!(merge_rule(&mut none, rule("only", vec![])), MergeOutcome::Added);
    assert_eq!(none, vec![rule("only", vec![])]);
}

#[test]
fn merge_replaces_the_first_of_equal_descriptions() {
    let mut rules = vec![
        rule("same", vec![chain("a", "b")]),
        rule("other", vec![]),
        rule("same", vec![chain("c", "d")]),
    ];
    assert_eq!(merge_rule(&mut rules, rule("same", vec![])), MergeOutcome::Replaced);
    assert_eq!(
        rules,
        vec![rule("same", vec![]), rule("other", vec![]), rule("same", vec![chain("c", "d")])]
    );
}

#[test]
fn merging_twice_is_stable() {
    let text = "--KeyToKey-- KeyCode::A, KeyCode::B";
    let mut rules = vec![rule("kept", vec![chain("q", "w")])];
    let first = merge_rule(&mut rules, rule("new", vec![convert_autogen(text).unwrap()]));
    assert_eq!(first, MergeOutcome::Added);
    let after_first = rules.clone();
    let second = merge_rule(&mut rules, rule("new", vec![convert_autogen(text).unwrap()]));
    assert_eq!(second, MergeOutcome::Replaced);
    assert_eq!(rules, after_first);
    assert_eq!(rules[1], rule("new", vec![chain("a", "b")]));
}

#[test]
fn document_merge_touches_the_first_profile_only() {
    let mut doc = document(vec![
        profile("main", vec![rule("first", vec![chain("a", "b")])]),
        profile("spare", vec![rule("first", vec![chain("c", "d")])]),
    ]);
    assert_eq!(doc.merge(rule("first", vec![chain("x", "y")])), Some(MergeOutcome::Replaced));
    assert_eq!(doc.merge(rule("second", vec![])), Some(MergeOutcome::Added));
    assert_eq!(
        doc.profiles[0].complex_modifications.rules,
        vec![rule("first", vec![chain("x", "y")]), rule("second", vec![])]
    );
    assert_eq!(
        doc.profiles[1].complex_modifications.rules,
        vec![rule("first", vec![chain("c", "d")])]
    );
    assert_eq!(doc.global, serde_json::Value::String("global".to_string()));
    assert_eq!(doc.profiles.len(), 2);
    assert_eq!(doc.profiles[0].name, "main");
    assert_eq!(doc.profiles[0].devices, serde_json::Value::Array(vec![]));
    assert_eq!(
        doc.profiles[0].complex_modifications.parameters,
        serde_json::Value::String("parameters".to_string())
    );
}

#[test]
fn document_without_profile_takes_no_rule() {
    let mut doc = document(vec![]);
    assert_eq!(doc.merge(rule("first", vec![])), None);
    assert_eq!(doc.profiles.len(), 0);
    assert_eq!(doc.merge_all(vec![rule("first", vec![])]), None);
    assert_eq!(doc.merge_all(vec![]), Some(vec![]));
    assert_eq!(doc.profiles.len(), 0);
}

#[test]
fn merge_all_merges_in_order() {
    let mut doc = document(vec![profile("main", vec![rule("old", vec![chain("a", "b")])])]);
    let outcomes = doc.merge_all(vec![
        rule("new", vec![chain("c", "d")]),
        rule("old", vec![chain("e", "f")]),
        rule("new", vec![chain("g", "h")]),
    ]);
    assert_eq!(
        outcomes,
        Some(vec![MergeOutcome::Added, MergeOutcome::Replaced, MergeOutcome::Replaced])
    );
    assert_eq!(
        doc.profiles[0].complex_modifications.rules,
        vec![rule("old", vec![chain("e", "f")]), rule("new", vec![chain("g", "h")])]
    );
}

#[test]
fn merging_the_same_rules_twice_is_stable() {
    let new = vec![
        rule("new", vec![chain("c", "d")]),
        rule("old", vec![chain("e", "f")]),
        rule("new", vec![chain("g", "h")]),
        rule("other", vec![]),
    ];
    let mut doc = document(vec![profile(
        "main",
        vec![rule("old", vec![chain("a", "b")]), rule("kept", vec![chain("k", "l")])],
    )]);
    let first = doc.merge_all(new.clone());
    assert_eq!(
        first,
        Some(vec![
            MergeOutcome::Added,
            MergeOutcome::Replaced,
            MergeOutcome::Replaced,
            MergeOutcome::Added
        ])
    );
    let after_first = doc.profiles[0].complex_modifications.rules.clone();
    assert_eq!(
        after_first,
        vec![
            rule("old", vec![chain("e", "f")]),
            rule("kept", vec![chain("k", "l")]),
            rule("new", vec![chain("g", "h")]),
            rule("other", vec![]),
        ]
    );
    let second = doc.merge_all(new);
    assert_eq!(second, Some(vec![MergeOutcome::Replaced; 4]));
    assert_eq!(doc.profiles[0].complex_modifications.rules, after_first);
}
