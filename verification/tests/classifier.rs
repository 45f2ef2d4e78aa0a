use clippy_lint_config::catalog::{AllLints, Lint, LintList, LintResponse, Response};
use clippy_lint_config::error::ClassifyError;
use clippy_lint_config::lint::{LintGroup, LintId, LintLevel};
use clippy_lint_config::setting::{
    Exceptions, ExhaustiveGroup, PrioritySetting, Setting, SingleLintConfig,
};

fn catalog(entries: &[(&'static str, LintGroup)]) -> AllLints<'static> {
    AllLints(entries.iter().map(|&(id, group)| Lint { id: LintId(id), group }).collect())
}

fn small_catalog() -> AllLints<'static> {
    catalog(&[
        ("a", LintGroup::Restriction),
        ("b", LintGroup::Restriction),
        ("c", LintGroup::Restriction),
        ("d", LintGroup::Style),
    ])
}

fn exceptions(level: LintLevel, ids: Vec<&'static str>) -> Exceptions<'static> {
    Exceptions { level, lints: ids.into() }
}

fn keys(settings: &[Setting]) -> Vec<String> {
    settings
        .iter()
        .map(|setting| match setting {
            Setting::Single(single) => single.lint.0.to_owned(),
            Setting::Group(group) => group.group.as_str().to_owned(),
        })
        .collect()
}

fn levels(settings: &[Setting]) -> Vec<LintLevel> {
    settings
        .iter()
        .map(|setting| match setting {
            Setting::Single(single) => single.level,
            Setting::Group(group) => group.level,
        })
        .collect()
}

fn is_subsequence(part: &[String], whole: &[String]) -> bool {
    let mut rest = whole.iter();
    part.iter().all(|wanted| rest.any(|found| found == wanted))
}

fn split<'a>(
    all_lints: &'a AllLints<'a>,
    group: LintGroup,
    default_level: LintLevel,
    exceptions: &Exceptions,
) -> ExhaustiveGroup<'a> {
    Setting::split_group_exhaustive(all_lints, group, default_level, exceptions)
        .expect("every exception is in the group")
}

#[test]
fn exhaustive_split_correctness() {
    let all_lints = small_catalog();
    let (a, b, c) = (LintId("a"), LintId("b"), LintId("c"));
    let outcome = Setting::split_group_exhaustive(
        &all_lints,
        LintGroup::Restriction,
        LintLevel::Allow,
        &exceptions(LintLevel::Warn, vec!["b"]),
    );
    assert_eq!(
        outcome,
        Ok(ExhaustiveGroup {
            defaults: vec![
                Setting::Single(SingleLintConfig {
                    lint: &a,
                    priority: PrioritySetting::Unspecified,
                    level: LintLevel::Allow,
                }),
                Setting::Single(SingleLintConfig {
                    lint: &c,
                    priority: PrioritySetting::Unspecified,
                    level: LintLevel::Allow,
                }),
            ],
            exceptions: vec![Setting::Single(SingleLintConfig {
                lint: &b,
                priority: PrioritySetting::Unspecified,
                level: LintLevel::Warn,
            })],
        })
    );
}

#[test]
fn exception_validation_failure() {
    let all_lints = small_catalog();
    let outcome = Setting::split_group_exhaustive(
        &all_lints,
        LintGroup::Restriction,
        LintLevel::Allow,
        &exceptions(LintLevel::Warn, vec!["b", "z"]),
    );
    assert_eq!(
        outcome,
        Err(ClassifyError::ExceptionNotInGroup {
            id: "z".to_owned(),
            group: LintGroup::Restriction
        })
    );
}

#[test]
fn exception_of_another_group_is_rejected() {
    let all_lints = small_catalog();
    let outcome = Setting::split_group_exhaustive(
        &all_lints,
        LintGroup::Restriction,
        LintLevel::Allow,
        &exceptions(LintLevel::Warn, vec!["a", "d", "b"]),
    );
    assert_eq!(
        outcome,
        Err(ClassifyError::ExceptionNotInGroup {
            id: "d".to_owned(),
            group: LintGroup::Restriction
        })
    );
}

#[test]
fn first_missing_exception_is_reported() {
    let all_lints = small_catalog();
    let outcome = Setting::split_group_exhaustive(
        &all_lints,
        LintGroup::Restriction,
        LintLevel::Allow,
        &exceptions(LintLevel::Warn, vec!["c", "y", "a", "x"]),
    );
    assert_eq!(
        outcome,
        Err(ClassifyError::ExceptionNotInGroup {
            id: "y".to_owned(),
            group: LintGroup::Restriction
        })
    );
}

#[test]
fn no_exceptions_leave_the_whole_group_at_the_default() {
    let all_lints = small_catalog();
    let halves = split(
        &all_lints,
        LintGroup::Restriction,
        LintLevel::Deny,
        &exceptions(LintLevel::Warn, vec![]),
    );
    assert!(halves.exceptions.is_empty());
    assert_eq!(keys(&halves.defaults), ["a", "b", "c"]);
    assert_eq!(levels(&halves.defaults), [LintLevel::Deny; 3]);
}

#[test]
fn empty_group_with_exceptions_fails_on_the_first() {
    let all_lints = small_catalog();
    let outcome = Setting::split_group_exhaustive(
        &all_lints,
        LintGroup::Perf,
        LintLevel::Allow,
        &exceptions(LintLevel::Warn, vec!["b", "a"]),
    );
    assert_eq!(
        outcome,
        Err(ClassifyError::ExceptionNotInGroup { id: "b".to_owned(), group: LintGroup::Perf })
    );
}

#[test]
fn empty_group_without_exceptions_is_split_into_nothing() {
    let all_lints = small_catalog();
    let halves =
        split(&all_lints, LintGroup::Perf, LintLevel::Allow, &exceptions(LintLevel::Warn, vec![]));
    assert!(halves.defaults.is_empty());
    assert!(halves.exceptions.is_empty());
}

#[test]
fn empty_catalog_is_split_into_nothing() {
    let all_lints = catalog(&[]);
    let halves = split(
        &all_lints,
        LintGroup::Restriction,
        LintLevel::Allow,
        &exceptions(LintLevel::Warn, vec![]),
    );
    assert!(halves.defaults.is_empty());
    assert!(halves.exceptions.is_empty());
}

#[test]
fn exception_named_twice_is_set_once() {
    let all_lints = small_catalog();
    let halves = split(
        &all_lints,
        LintGroup::Restriction,
        LintLevel::Allow,
        &exceptions(LintLevel::Warn, vec!["b", "b"]),
    );
    assert_eq!(keys(&halves.exceptions), ["b"]);
    assert_eq!(keys(&halves.defaults), ["a", "c"]);
}

#[test]
fn more_exceptions_than_members() {
    let all_lints = catalog(&[("a", LintGroup::Restriction)]);
    let halves = split(
        &all_lints,
        LintGroup::Restriction,
        LintLevel::Allow,
        &exceptions(LintLevel::Warn, vec!["a", "a", "a"]),
    );
    assert_eq!(keys(&halves.exceptions), ["a"]);
    assert!(halves.defaults.is_empty());
}

#[test]
fn lint_listed_twice_by_the_catalog_is_set_twice() {
    let all_lints = catalog(&[
        ("a", LintGroup::Restriction),
        ("b", LintGroup::Restriction),
        ("a", LintGroup::Restriction),
        ("b", LintGroup::Restriction),
    ]);
    let halves = split(
        &all_lints,
        LintGroup::Restriction,
        LintLevel::Allow,
        &exceptions(LintLevel::Warn, vec!["b"]),
    );
    assert_eq!(keys(&halves.exceptions), ["b", "b"]);
    assert_eq!(keys(&halves.defaults), ["a", "a"]);
}

#[test]
fn split_follows_the_order_of_the_catalog_not_of_the_exceptions() {
    let all_lints = catalog(&[
        ("e", LintGroup::Restriction),
        ("x", LintGroup::Style),
        ("d", LintGroup::Restriction),
        ("c", LintGroup::Restriction),
        ("y", LintGroup::Perf),
        ("b", LintGroup::Restriction),
        ("a", LintGroup::Restriction),
    ]);
    let halves = split(
        &all_lints,
        LintGroup::Restriction,
        LintLevel::Allow,
        &exceptions(LintLevel::Warn, vec!["a", "c", "e"]),
    );
    assert_eq!(keys(&halves.exceptions), ["e", "c", "a"]);
    assert_eq!(keys(&halves.defaults), ["d", "b"]);
}

#[test]
fn same_name_in_two_groups_is_told_apart() {
    let all_lints = catalog(&[
        ("a", LintGroup::Style),
        ("a", LintGroup::Restriction),
        ("b", LintGroup::Style),
    ]);
    let halves = split(
        &all_lints,
        LintGroup::Restriction,
        LintLevel::Allow,
        &exceptions(LintLevel::Warn, vec!["a"]),
    );
    assert_eq!(keys(&halves.exceptions), ["a"]);
    assert!(halves.defaults.is_empty());
    let outcome = Setting::split_group_exhaustive(
        &all_lints,
        LintGroup::Restriction,
        LintLevel::Allow,
        &exceptions(LintLevel::Warn, vec!["b"]),
    );
    assert_eq!(
        outcome,
        Err(ClassifyError::ExceptionNotInGroup {
            id: "b".to_owned(),
            group: LintGroup::Restriction
        })
    );
}

#[test]
fn halves_cover_the_group_and_share_nothing() {
    let all_lints = catalog(&[
        ("a", LintGroup::Restriction),
        ("p", LintGroup::Pedantic),
        ("b", LintGroup::Restriction),
        ("c", LintGroup::Restriction),
        ("q", LintGroup::Pedantic),
        ("d", LintGroup::Restriction),
    ]);
    let halves = split(
        &all_lints,
        LintGroup::Restriction,
        LintLevel::Allow,
        &exceptions(LintLevel::Warn, vec!["d", "b"]),
    );
    let defaults = keys(&halves.defaults);
    let selected = keys(&halves.exceptions);
    let mut both: Vec<String> = defaults.iter().chain(selected.iter()).cloned().collect();
    both.sort();
    assert_eq!(both, ["a", "b", "c", "d"]);
    assert!(defaults.iter().all(|id| !selected.contains(id)));
}

#[test]
fn halves_keep_the_order_of_the_catalog() {
    let all_lints = catalog(&[
        ("m", LintGroup::Restriction),
        ("p", LintGroup::Pedantic),
        ("k", LintGroup::Restriction),
        ("z", LintGroup::Restriction),
        ("b", LintGroup::Restriction),
    ]);
    let halves = split(
        &all_lints,
        LintGroup::Restriction,
        LintLevel::Allow,
        &exceptions(LintLevel::Warn, vec!["b", "m"]),
    );
    let whole: Vec<String> = all_lints.0.iter().map(|lint| lint.id.0.to_owned()).collect();
    assert!(is_subsequence(&keys(&halves.defaults), &whole));
    assert!(is_subsequence(&keys(&halves.exceptions), &whole));
    assert_eq!(keys(&halves.defaults), ["k", "z"]);
    assert_eq!(keys(&halves.exceptions), ["m", "b"]);
}

#[test]
fn each_half_is_at_its_level() {
    let all_lints = small_catalog();
    let halves = split(
        &all_lints,
        LintGroup::Restriction,
        LintLevel::NoLevel,
        &exceptions(LintLevel::Deny, vec!["a", "c"]),
    );
    assert_eq!(levels(&halves.exceptions), [LintLevel::Deny, LintLevel::Deny]);
    assert_eq!(levels(&halves.defaults), [LintLevel::NoLevel]);
    for setting in halves.defaults.iter().chain(halves.exceptions.iter()) {
        match setting {
            Setting::Single(single) => assert_eq!(single.priority, PrioritySetting::Unspecified),
            Setting::Group(_) => panic!("a split gives single settings only"),
        }
    }
}

#[test]
fn every_exception_is_in_the_exception_half() {
    let all_lints = small_catalog();
    let named = vec!["c", "a", "c"];
    let halves = split(
        &all_lints,
        LintGroup::Restriction,
        LintLevel::Allow,
        &exceptions(LintLevel::Warn, named.clone()),
    );
    let selected = keys(&halves.exceptions);
    for id in named {
        assert!(selected.iter().any(|found| found == id));
    }
}

#[test]
fn allow_sets_every_listed_lint_in_list_order() {
    let all_lints = catalog(&[
        ("a", LintGroup::Pedantic),
        ("b", LintGroup::Pedantic),
        ("c", LintGroup::Pedantic),
        ("d", LintGroup::Style),
    ]);
    let (a, c) = (LintId("a"), LintId("c"));
    let outcome = Setting::allow(&all_lints, LintGroup::Pedantic, &[LintId("c"), LintId("a")]);
    assert_eq!(
        outcome,
        Ok(vec![
            Setting::Single(SingleLintConfig {
                lint: &c,
                priority: PrioritySetting::Unspecified,
                level: LintLevel::Allow,
            }),
            Setting::Single(SingleLintConfig {
                lint: &a,
                priority: PrioritySetting::Unspecified,
                level: LintLevel::Allow,
            }),
        ])
    );
}

#[test]
fn allow_of_nothing_is_nothing() {
    let all_lints = small_catalog();
    assert_eq!(Setting::allow(&all_lints, LintGroup::Style, &[]), Ok(vec![]));
}

#[test]
fn allow_keeps_a_name_that_is_listed_twice() {
    let all_lints = small_catalog();
    let settings = Setting::allow(&all_lints, LintGroup::Restriction, &[LintId("b"), LintId("b")])
        .expect("b is a restriction lint");
    assert_eq!(keys(&settings), ["b", "b"]);
}

#[test]
fn allow_rejects_an_unknown_lint() {
    let all_lints = small_catalog();
    let outcome = Setting::allow(&all_lints, LintGroup::Style, &[LintId("d"), LintId("nope")]);
    assert_eq!(
        outcome,
        Err(ClassifyError::UnknownLintInGroup { id: "nope".to_owned(), group: LintGroup::Style })
    );
}

#[test]
fn allow_rejects_a_lint_of_another_group() {
    let all_lints = small_catalog();
    let outcome = Setting::allow(&all_lints, LintGroup::Style, &[LintId("a")]);
    assert_eq!(
        outcome,
        Err(ClassifyError::UnknownLintInGroup { id: "a".to_owned(), group: LintGroup::Style })
    );
}

#[test]
fn allow_reports_the_first_unknown_lint() {
    let all_lints = small_catalog();
    let outcome = Setting::allow(
        &all_lints,
        LintGroup::Restriction,
        &[LintId("a"), LintId("second"), LintId("b"), LintId("fourth")],
    );
    assert_eq!(
        outcome,
        Err(ClassifyError::UnknownLintInGroup {
            id: "second".to_owned(),
            group: LintGroup::Restriction
        })
    );
}

#[test]
fn group_setting_takes_its_priority_from_an_option() {
    assert_eq!(
        Setting::group(LintGroup::Correctness, LintLevel::Deny, Some(-1)),
        Setting::Group(clippy_lint_config::setting::GroupConfig {
            group: LintGroup::Correctness,
            priority: PrioritySetting::Explicit(-1),
            level: LintLevel::Deny,
        })
    );
    assert_eq!(
        Setting::group(LintGroup::Style, LintLevel::Warn, None),
        Setting::Group(clippy_lint_config::setting::GroupConfig {
            group: LintGroup::Style,
            priority: PrioritySetting::Unspecified,
            level: LintLevel::Warn,
        })
    );
    assert_eq!(
        Setting::group(LintGroup::Perf, LintLevel::Allow, PrioritySetting::Explicit(4)),
        Setting::Group(clippy_lint_config::setting::GroupConfig {
            group: LintGroup::Perf,
            priority: PrioritySetting::Explicit(4),
            level: LintLevel::Allow,
        })
    );
}

#[test]
fn catalog_borrows_names_and_groups_in_order() {
    let response = Response(vec![
        LintResponse {
            id: "first".to_owned(),
            group: LintGroup::Style,
            default_level: LintLevel::Warn,
            version: "1.0.0".to_owned(),
        },
        LintResponse {
            id: "second".to_owned(),
            group: LintGroup::Deprecated,
            default_level: LintLevel::NoLevel,
            version: "pre 1.29.0".to_owned(),
        },
        LintResponse {
            id: "first".to_owned(),
            group: LintGroup::Cargo,
            default_level: LintLevel::Allow,
            version: String::new(),
        },
    ]);
    let all_lints = AllLints::from_response(&response);
    let read: Vec<(&str, LintGroup)> =
        all_lints.0.iter().map(|lint| (lint.id.0, lint.group)).collect();
    assert_eq!(
        read,
        [
            ("first", LintGroup::Style),
            ("second", LintGroup::Deprecated),
            ("first", LintGroup::Cargo)
        ]
    );
    assert!(AllLints::from_response(&Response(vec![])).0.is_empty());
}

#[test]
fn catalog_finds_a_lint_by_name_and_group() {
    let all_lints = small_catalog();
    assert_eq!(all_lints.find(&LintId("d"), LintGroup::Style), Some(&LintId("d")));
    assert_eq!(all_lints.find(&LintId("d"), LintGroup::Restriction), None);
    assert_eq!(all_lints.find(&LintId("e"), LintGroup::Style), None);
    let names: Vec<&str> =
        all_lints.ids_in_group(LintGroup::Restriction).iter().map(|id| id.0).collect();
    assert_eq!(names, ["a", "b", "c"]);
    assert!(all_lints.ids_in_group(LintGroup::Cargo).is_empty());
}

#[test]
fn lint_list_keeps_names_in_order() {
    let list = LintList::from(vec!["b", "a", "b"]);
    let names: Vec<&str> = list.0.iter().map(|id| id.0).collect();
    assert_eq!(names, ["b", "a", "b"]);
    assert!(list.contains(&LintId("a")));
    assert!(list.contains(&LintId("b")));
    assert!(!list.contains(&LintId("c")));
    assert!(!list.contains(&LintId("")));
    assert!(!LintList::from(vec![]).contains(&LintId("a")));
}
