use clippy_lint_config::emit::render;
use clippy_lint_config::lint::{LintGroup, LintId, LintLevel};
use clippy_lint_config::setting::{
    Args, Config, ConfigGroup, GroupConfig, PrioritySetting, Profile, Setting, SingleLintConfig,
};

fn single<'a>(lint: &'a LintId<'a>, priority: PrioritySetting, level: LintLevel) -> Setting<'a> {
    Setting::Single(SingleLintConfig { lint, priority, level })
}

fn group(group: LintGroup, priority: PrioritySetting, level: LintLevel) -> Setting<'static> {
    Setting::Group(GroupConfig { group, priority, level })
}

fn line_of(setting: Setting) -> String {
    let config = Config(vec![ConfigGroup { comment: None, settings: vec![setting] }]);
    let text = render(&config, false);
    text.strip_prefix("[lints.clippy]\n").expect("the header comes first").to_owned()
}

#[test]
fn header_workspace_off() {
    assert_eq!(render(&Config(vec![]), false), "[lints.clippy]\n");
}

#[test]
fn header_workspace_on() {
    assert_eq!(render(&Config(vec![]), true), "[workspace.lints.clippy]\n");
}

#[test]
fn single_grouped_setting_with_explicit_priority() {
    let config = Config(vec![ConfigGroup {
        comment: Some("enabled groups".to_owned()),
        settings: vec![group(
            LintGroup::Correctness,
            PrioritySetting::Explicit(-1),
            LintLevel::Deny,
        )],
    }]);
    assert_eq!(
        render(&config, false),
        "[lints.clippy]\n# enabled groups\ncorrectness = { level = \"deny\", priority = -1 }"
    );
}

#[test]
fn two_groups_separated_by_a_blank_line() {
    let x = LintId("x");
    let y = LintId("y");
    let config = Config(vec![
        ConfigGroup {
            comment: None,
            settings: vec![single(&x, PrioritySetting::Unspecified, LintLevel::Allow)],
        },
        ConfigGroup {
            comment: None,
            settings: vec![single(&y, PrioritySetting::Unspecified, LintLevel::Warn)],
        },
    ]);
    assert_eq!(render(&config, false), "[lints.clippy]\nx = \"allow\"\n\ny = \"warn\"");
}

#[test]
fn settings_of_one_group_are_separated_by_one_line_end() {
    let a = LintId("a");
    let b = LintId("b");
    let c = LintId("c");
    let config = Config(vec![ConfigGroup {
        comment: Some("three".to_owned()),
        settings: vec![
            single(&a, PrioritySetting::Unspecified, LintLevel::Allow),
            single(&b, PrioritySetting::Unspecified, LintLevel::Warn),
            single(&c, PrioritySetting::Unspecified, LintLevel::Deny),
        ],
    }]);
    assert_eq!(
        render(&config, true),
        "[workspace.lints.clippy]\n# three\na = \"allow\"\nb = \"warn\"\nc = \"deny\""
    );
}

#[test]
fn three_groups_with_comments() {
    let a = LintId("a");
    let b = LintId("b");
    let config = Config(vec![
        ConfigGroup {
            comment: Some("first".to_owned()),
            settings: vec![
                group(LintGroup::Style, PrioritySetting::Explicit(-1), LintLevel::Warn),
                group(LintGroup::Perf, PrioritySetting::Explicit(-1), LintLevel::Warn),
            ],
        },
        ConfigGroup {
            comment: Some("second".to_owned()),
            settings: vec![single(&a, PrioritySetting::Unspecified, LintLevel::Allow)],
        },
        ConfigGroup {
            comment: Some("third".to_owned()),
            settings: vec![single(&b, PrioritySetting::Unspecified, LintLevel::Warn)],
        },
    ]);
    assert_eq!(
        render(&config, false),
        "[lints.clippy]\n\
         # first\n\
         style = { level = \"warn\", priority = -1 }\n\
         perf = { level = \"warn\", priority = -1 }\n\
         \n\
         # second\n\
         a = \"allow\"\n\
         \n\
         # third\n\
         b = \"warn\""
    );
}

#[test]
fn no_blank_line_follows_the_last_group() {
    let a = LintId("a");
    let config = Config(vec![ConfigGroup {
        comment: None,
        settings: vec![single(&a, PrioritySetting::Unspecified, LintLevel::Allow)],
    }]);
    let text = render(&config, false);
    assert!(!text.ends_with('\n'));
    assert_eq!(text, "[lints.clippy]\na = \"allow\"");
}

#[test]
fn group_without_settings_before_another_group() {
    let a = LintId("a");
    let config = Config(vec![
        ConfigGroup { comment: Some("empty".to_owned()), settings: vec![] },
        ConfigGroup {
            comment: Some("full".to_owned()),
            settings: vec![single(&a, PrioritySetting::Unspecified, LintLevel::Allow)],
        },
    ]);
    assert_eq!(render(&config, false), "[lints.clippy]\n# empty\n\n# full\na = \"allow\"");
}

#[test]
fn group_without_settings_at_the_end() {
    let a = LintId("a");
    let config = Config(vec![
        ConfigGroup {
            comment: Some("full".to_owned()),
            settings: vec![single(&a, PrioritySetting::Unspecified, LintLevel::Allow)],
        },
        ConfigGroup { comment: Some("empty".to_owned()), settings: vec![] },
    ]);
    assert_eq!(render(&config, false), "[lints.clippy]\n# full\na = \"allow\"\n\n# empty\n");
}

#[test]
fn group_without_comment_and_without_settings() {
    let config = Config(vec![
        ConfigGroup { comment: None, settings: vec![] },
        ConfigGroup { comment: None, settings: vec![] },
    ]);
    assert_eq!(render(&config, false), "[lints.clippy]\n\n");
}

#[test]
fn single_setting_with_explicit_priority() {
    let id = LintId("unwrap_used");
    assert_eq!(
        line_of(single(&id, PrioritySetting::Explicit(3), LintLevel::Deny)),
        "unwrap_used = { level = \"deny\", priority = 3 }"
    );
}

#[test]
fn group_setting_without_priority() {
    assert_eq!(
        line_of(group(LintGroup::Pedantic, PrioritySetting::Unspecified, LintLevel::Warn)),
        "pedantic = \"warn\""
    );
}

#[test]
fn level_none_is_written_by_its_name() {
    let id = LintId("x");
    assert_eq!(
        line_of(single(&id, PrioritySetting::Unspecified, LintLevel::NoLevel)),
        "x = \"none\""
    );
}

#[test]
fn priority_is_written_in_decimal() {
    let cases: Vec<(isize, &str)> = vec![
        (0, "0"),
        (7, "7"),
        (9, "9"),
        (10, "10"),
        (11, "11"),
        (99, "99"),
        (100, "100"),
        (1234567890, "1234567890"),
        (-1, "-1"),
        (-9, "-9"),
        (-10, "-10"),
        (-205, "-205"),
    ];
    for (priority, digits) in cases {
        assert_eq!(
            line_of(group(LintGroup::Cargo, PrioritySetting::Explicit(priority), LintLevel::Allow)),
            format!("cargo = {{ level = \"allow\", priority = {digits} }}")
        );
    }
}

#[test]
fn priority_at_the_ends_of_its_range() {
    for priority in [isize::MIN, isize::MIN + 1, isize::MAX - 1, isize::MAX] {
        assert_eq!(
            line_of(group(LintGroup::Cargo, PrioritySetting::Explicit(priority), LintLevel::Allow)),
            format!("cargo = {{ level = \"allow\", priority = {priority} }}")
        );
    }
}

#[test]
fn lint_names_are_written_verbatim() {
    let id = LintId("Ünïcode-name with spaces");
    assert_eq!(
        line_of(single(&id, PrioritySetting::Unspecified, LintLevel::Warn)),
        "Ünïcode-name with spaces = \"warn\""
    );
}

#[test]
fn rendering_twice_gives_the_same_text() {
    let a = LintId("a");
    let config = Config(vec![
        ConfigGroup {
            comment: Some("one".to_owned()),
            settings: vec![group(
                LintGroup::Nursery,
                PrioritySetting::Explicit(-1),
                LintLevel::Warn,
            )],
        },
        ConfigGroup {
            comment: None,
            settings: vec![single(&a, PrioritySetting::Unspecified, LintLevel::Allow)],
        },
    ]);
    assert_eq!(render(&config, true), render(&config, true));
    assert_eq!(render(&config, false), render(&config, false));
    assert_ne!(render(&config, true), render(&config, false));
}

#[test]
fn to_toml_takes_the_header_from_the_arguments() {
    let a = LintId("a");
    let config = Config(vec![ConfigGroup {
        comment: Some("one".to_owned()),
        settings: vec![single(&a, PrioritySetting::Unspecified, LintLevel::Allow)],
    }]);
    let plain = Args { profile: Profile::Publish, workspace: false };
    let workspace = Args { profile: Profile::Personal, workspace: true };
    assert_eq!(config.to_toml(&plain), "[lints.clippy]\n# one\na = \"allow\"");
    assert_eq!(config.to_toml(&workspace), "[workspace.lints.clippy]\n# one\na = \"allow\"");
    assert_eq!(config.to_toml(&plain), render(&config, false));
}
