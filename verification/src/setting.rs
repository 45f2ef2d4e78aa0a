//! Settings, the groups they are emitted in, and the whole configuration.

use vstd::prelude::*;
use vstd::std_specs::convert::{FromSpecImpl, IntoSpec};

use crate::catalog::LintList;
use crate::lint::{LintGroup, LintId, LintLevel};

verus! {

/// Whether a setting carries a priority.  A setting with a priority is
/// emitted as an inline table, one without as a bare level.
#[derive(Clone, Copy, Debug, PartialEq, Eq, Structural)]
pub enum PrioritySetting {
    Explicit(isize),
    Unspecified,
}

impl From<Option<isize>> for PrioritySetting {
    fn from(value: Option<isize>) -> (priority: Self) {
        match value {
            Some(i) => Self::Explicit(i),
            None => Self::Unspecified,
        }
    }
}

impl FromSpecImpl<Option<isize>> for PrioritySetting {
    open spec fn obeys_from_spec() -> bool {
        true
    }

    open spec fn from_spec(value: Option<isize>) -> Self {
        match value {
            Some(i) => PrioritySetting::Explicit(i),
            None => PrioritySetting::Unspecified,
        }
    }
}

/// The level of one lint.
#[derive(Debug, PartialEq, Eq)]
pub struct SingleLintConfig<'a> {
    pub lint: &'a LintId<'a>,
    pub priority: PrioritySetting,
    pub level: LintLevel,
}

/// The level of a whole group.
#[derive(Debug, PartialEq, Eq)]
pub struct GroupConfig {
    pub group: LintGroup,
    pub priority: PrioritySetting,
    pub level: LintLevel,
}

/// One line of the configuration.
#[derive(Debug, PartialEq, Eq)]
pub enum Setting<'a> {
    Single(SingleLintConfig<'a>),
    Group(GroupConfig),
}

/// A setting with its lint given by name.
pub enum SettingView {
    Single { lint: Seq<char>, priority: PrioritySetting, level: LintLevel },
    Group { group: LintGroup, priority: PrioritySetting, level: LintLevel },
}

impl<'a> View for Setting<'a> {
    type V = SettingView;

    open spec fn view(&self) -> SettingView {
        match *self {
            Setting::Single(single) => SettingView::Single {
                lint: single.lint@,
                priority: single.priority,
                level: single.level,
            },
            Setting::Group(group) => SettingView::Group {
                group: group.group,
                priority: group.priority,
                level: group.level,
            },
        }
    }
}

impl SettingView {
    /// The text left of the equals sign: the lint's name, or the group's.
    pub open spec fn key(self) -> Seq<char> {
        match self {
            SettingView::Single { lint, .. } => lint,
            SettingView::Group { group, .. } => group.name(),
        }
    }

    pub open spec fn priority(self) -> PrioritySetting {
        match self {
            SettingView::Single { priority, .. } => priority,
            SettingView::Group { priority, .. } => priority,
        }
    }

    pub open spec fn level(self) -> LintLevel {
        match self {
            SettingView::Single { level, .. } => level,
            SettingView::Group { level, .. } => level,
        }
    }
}

/// The settings of a vector, each by its view.
pub open spec fn settings_view<'a>(settings: Seq<Setting<'a>>) -> Seq<SettingView> {
    settings.map_values(|setting: Setting<'a>| setting@)
}

impl<'a> Setting<'a> {
    /// The setting that puts the whole of `group` at `level`, with the
    /// priority that `priority` converts to.
    pub fn group<P: Into<PrioritySetting>>(
        group: LintGroup,
        level: LintLevel,
        priority: P,
    ) -> (setting: Self)
        ensures
            setting@ is Group,
            setting@->Group_group == group,
            setting@.level() == level,
            call_ensures(<P as Into<PrioritySetting>>::into, (priority,), setting@.priority()),
            <P as IntoSpec<PrioritySetting>>::obeys_into_spec() ==> setting@.priority()
                == priority.into_spec(),
    {
        Self::Group(GroupConfig { group, priority: priority.into(), level })
    }
}

/// The lints of a group that are set apart from the group's default, and the
/// level they get.
pub struct Exceptions<'a> {
    pub level: LintLevel,
    pub lints: LintList<'a>,
}

/// A group split in two: the lints left at the default level and the lints
/// named as exceptions.
#[derive(Debug, PartialEq, Eq)]
pub struct ExhaustiveGroup<'a> {
    pub defaults: Vec<Setting<'a>>,
    pub exceptions: Vec<Setting<'a>>,
}

/// The two halves of a split group, by view.
pub struct ExhaustiveGroupView {
    pub defaults: Seq<SettingView>,
    pub exceptions: Seq<SettingView>,
}

impl<'a> View for ExhaustiveGroup<'a> {
    type V = ExhaustiveGroupView;

    open spec fn view(&self) -> ExhaustiveGroupView {
        ExhaustiveGroupView {
            defaults: settings_view(self.defaults@),
            exceptions: settings_view(self.exceptions@),
        }
    }
}

/// A run of settings under an optional comment line.
#[derive(Debug, PartialEq, Eq)]
pub struct ConfigGroup<'a> {
    pub comment: Option<String>,
    pub settings: Vec<Setting<'a>>,
}

/// A run of settings with its comment, by view.
pub struct ConfigGroupView {
    pub comment: Option<Seq<char>>,
    pub settings: Seq<SettingView>,
}

impl<'a> View for ConfigGroup<'a> {
    type V = ConfigGroupView;

    open spec fn view(&self) -> ConfigGroupView {
        ConfigGroupView {
            comment: match self.comment {
                Some(text) => Some(text@),
                None => None,
            },
            settings: settings_view(self.settings@),
        }
    }
}

/// The whole configuration: its groups in the order they are emitted.
#[derive(Debug, PartialEq, Eq)]
pub struct Config<'a>(pub Vec<ConfigGroup<'a>>);

impl<'a> View for Config<'a> {
    type V = Seq<ConfigGroupView>;

    open spec fn view(&self) -> Seq<ConfigGroupView> {
        self.0@.map_values(|group: ConfigGroup<'a>| group@)
    }
}

/// What the configuration is generated for.
#[derive(Clone, Copy, Debug, PartialEq, Eq, Structural)]
pub enum Profile {
    Publish,
    Personal,
}

/// The parsed command line.
#[derive(Clone, Copy, Debug)]
pub struct Args {
    pub profile: Profile,
    pub workspace: bool,
}

} // verus!
