//! The emitter: the configuration as the text of a manifest table.

use vstd::prelude::*;
use vstd::string::StringExecFns;

use crate::setting::{
    settings_view, Args, Config, ConfigGroup, ConfigGroupView, PrioritySetting, Setting,
    SettingView,
};

verus! {

/// The character of a decimal digit.
pub open spec fn digit(d: nat) -> char
    recommends
        d < 10,
{
    "0123456789"@[d as int]
}

/// The decimal digits of a natural number, without leading zeros.
pub open spec fn digits(n: nat) -> Seq<char>
    decreases n,
{
    if n < 10 {
        seq![digit(n)]
    } else {
        digits(n / 10).push(digit(n % 10))
    }
}

/// An integer in decimal, with a minus sign where it is negative.
pub open spec fn decimal(i: int) -> Seq<char> {
    if i < 0 {
        seq!['-'] + digits((-i) as nat)
    } else {
        digits(i as nat)
    }
}

/// The line of one setting, without its end: a bare level, or an inline
/// table where the setting has a priority.
pub open spec fn setting_line(setting: SettingView) -> Seq<char> {
    match setting.priority() {
        PrioritySetting::Unspecified => setting.key() + " = \""@ + setting.level().name() + "\""@,
        PrioritySetting::Explicit(priority) => setting.key() + " = { level = \""@
            + setting.level().name() + "\", priority = "@ + decimal(priority as int) + " }"@,
    }
}

/// The lines of a run of settings, with a line end between two lines and
/// none after the last.
pub open spec fn setting_lines(settings: Seq<SettingView>) -> Seq<char>
    decreases settings.len(),
{
    if settings.len() == 0 {
        Seq::empty()
    } else if settings.len() == 1 {
        setting_line(settings[0])
    } else {
        setting_lines(settings.drop_last()) + "\n"@ + setting_line(settings.last())
    }
}

/// The comment line of a group, with its end; nothing where the group has no
/// comment.
pub open spec fn comment_line(comment: Option<Seq<char>>) -> Seq<char> {
    match comment {
        Some(text) => "# "@ + text + "\n"@,
        None => Seq::empty(),
    }
}

/// The text of one group: its comment line and its settings.
pub open spec fn group_text(group: ConfigGroupView) -> Seq<char> {
    comment_line(group.comment) + setting_lines(group.settings)
}

/// What stands between a group and the group after it: the end of the last
/// setting line, where there is one, and the end of a blank line.
pub open spec fn group_break(group: ConfigGroupView) -> Seq<char> {
    if group.settings.len() > 0 {
        "\n\n"@
    } else {
        "\n"@
    }
}

/// The text of a run of groups, with a break between two groups and none
/// after the last.
pub open spec fn groups_text(groups: Seq<ConfigGroupView>) -> Seq<char>
    decreases groups.len(),
{
    if groups.len() == 0 {
        Seq::empty()
    } else if groups.len() == 1 {
        group_text(groups[0])
    } else {
        groups_text(groups.drop_last()) + group_break(groups[groups.len() - 2]) + group_text(
            groups.last(),
        )
    }
}

/// The line that opens the table, with its end.
pub open spec fn header(workspace: bool) -> Seq<char> {
    if workspace {
        "[workspace.lints.clippy]\n"@
    } else {
        "[lints.clippy]\n"@
    }
}

/// The whole text of a configuration.
pub open spec fn rendered(config: Seq<ConfigGroupView>, workspace: bool) -> Seq<char> {
    header(workspace) + groups_text(config)
}

/// The text of one decimal digit.
fn digit_str(d: u8) -> (text: &'static str)
    requires
        d < 10,
    ensures
        text@ == seq![digit(d as nat)],
{
    proof {
        reveal_strlit("0123456789");
        reveal_strlit("0");
        reveal_strlit("1");
        reveal_strlit("2");
        reveal_strlit("3");
        reveal_strlit("4");
        reveal_strlit("5");
        reveal_strlit("6");
        reveal_strlit("7");
        reveal_strlit("8");
        reveal_strlit("9");
    }
    match d {
        0 => "0",
        1 => "1",
        2 => "2",
        3 => "3",
        4 => "4",
        5 => "5",
        6 => "6",
        7 => "7",
        8 => "8",
        _ => "9",
    }
}

/// Appends the decimal digits of `n`.
fn append_digits(output: &mut String, n: u64)
    ensures
        final(output)@ == old(output)@ + digits(n as nat),
    decreases n,
{
    if n >= 10 {
        append_digits(output, n / 10);
    }
    output.append(digit_str((n % 10) as u8));
}

/// Appends `value` in decimal.
fn append_decimal(output: &mut String, value: isize)
    ensures
        final(output)@ == old(output)@ + decimal(value as int),
{
    let wide = value as i128;
    if wide < 0 {
        proof {
            reveal_strlit("-");
        }
        output.append("-");
        append_digits(output, (-wide) as u64);
    } else {
        append_digits(output, wide as u64);
    }
}

/// Appends the line of one setting, without its end.
fn append_setting(output: &mut String, setting: &Setting)
    ensures
        final(output)@ == old(output)@ + setting_line(setting@),
{
    let (key, level, priority) = match setting {
        Setting::Single(single) => (single.lint.0, single.level.as_str(), single.priority),
        Setting::Group(group) => (group.group.as_str(), group.level.as_str(), group.priority),
    };
    output.append(key);
    match priority {
        PrioritySetting::Explicit(priority) => {
            output.append(" = { level = \"");
            output.append(level);
            output.append("\", priority = ");
            append_decimal(output, priority);
            output.append(" }");
        },
        PrioritySetting::Unspecified => {
            output.append(" = \"");
            output.append(level);
            output.append("\"");
        },
    }
}

/// Appends the lines of a run of settings, with a line end between two lines.
fn append_settings(output: &mut String, settings: &Vec<Setting>)
    ensures
        final(output)@ == old(output)@ + setting_lines(settings_view(settings@)),
{
    let ghost lines = settings_view(settings@);
    let mut i: usize = 0;
    while i < settings.len()
        invariant
            lines == settings_view(settings@),
            i <= settings@.len(),
            output@ == old(output)@ + setting_lines(lines.take(i as int)),
        decreases settings@.len() - i,
    {
        if i > 0 {
            output.append("\n");
        }
        append_setting(output, &settings[i]);
        proof {
            assert(lines.take(i + 1).drop_last() =~= lines.take(i as int));
            assert(lines.take(i + 1).last() == settings@[i as int]@);
            assert(output@ =~= old(output)@ + setting_lines(lines.take(i + 1)));
        }
        i += 1;
    }
    assert(lines.take(i as int) =~= lines);
}

/// Appends the text of one group: its comment line and its settings.
fn append_group(output: &mut String, group: &ConfigGroup)
    ensures
        final(output)@ == old(output)@ + group_text(group@),
{
    if let Some(comment) = &group.comment {
        output.append("# ");
        output.append(comment.as_str());
        output.append("\n");
    }
    append_settings(output, &group.settings);
}

/// The text of the configuration: the header line, then the groups, each
/// with its comment line and one line for each setting.  A blank line parts
/// two groups, and the last line has no end.  The text depends on nothing but
/// the configuration and the flag.
pub fn render(config: &Config, workspace: bool) -> (text: String)
    ensures
        text@ == rendered(config@, workspace),
{
    let mut output = if workspace {
        String::from_str("[workspace.lints.clippy]\n")
    } else {
        String::from_str("[lints.clippy]\n")
    };
    let ghost groups = config@;
    let mut i: usize = 0;
    while i < config.0.len()
        invariant
            groups == config@,
            i <= config.0@.len(),
            output@ == header(workspace) + groups_text(groups.take(i as int)),
        decreases config.0@.len() - i,
    {
        if i > 0 {
            if config.0[i - 1].settings.len() > 0 {
                output.append("\n\n");
            } else {
                output.append("\n");
            }
        }
        append_group(&mut output, &config.0[i]);
        proof {
            assert(groups.take(i + 1).drop_last() =~= groups.take(i as int));
            assert(groups.take(i + 1).last() == config.0@[i as int]@);
            assert(output@ =~= header(workspace) + groups_text(groups.take(i + 1)));
        }
        i += 1;
    }
    assert(groups.take(i as int) =~= groups);
    output
}

impl<'a> Config<'a> {
    /// The text of the configuration, under the header that the arguments
    /// ask for.
    pub fn to_toml(&self, args: &Args) -> (text: String)
        ensures
            text@ == rendered(self@, args.workspace),
    {
        render(self, args.workspace)
    }
}

} // verus!
