//! Lint identifiers, groups and levels.

use vstd::prelude::*;
use vstd::std_specs::cmp::PartialEqSpecImpl;
use vstd::std_specs::convert::FromSpecImpl;
use vstd::utf8::{encode_utf8, encode_utf8_decode_utf8};

verus! {

/// One of the ten fixed categories a lint belongs to.
#[derive(Clone, Copy, Debug, PartialEq, Eq, Structural)]
pub enum LintGroup {
    Cargo,
    Complexity,
    Correctness,
    Nursery,
    Pedantic,
    Perf,
    Restriction,
    Style,
    Suspicious,
    Deprecated,
}

impl LintGroup {
    /// The canonical lowercase name of the group.
    pub open spec fn name(self) -> Seq<char> {
        match self {
            LintGroup::Cargo => "cargo"@,
            LintGroup::Complexity => "complexity"@,
            LintGroup::Correctness => "correctness"@,
            LintGroup::Nursery => "nursery"@,
            LintGroup::Pedantic => "pedantic"@,
            LintGroup::Perf => "perf"@,
            LintGroup::Restriction => "restriction"@,
            LintGroup::Style => "style"@,
            LintGroup::Suspicious => "suspicious"@,
            LintGroup::Deprecated => "deprecated"@,
        }
    }

    /// The canonical name of the group, as it is written in a manifest.
    pub fn as_str(self) -> (name: &'static str)
        ensures
            name@ == self.name(),
    {
        match self {
            Self::Cargo => "cargo",
            Self::Complexity => "complexity",
            Self::Correctness => "correctness",
            Self::Nursery => "nursery",
            Self::Pedantic => "pedantic",
            Self::Perf => "perf",
            Self::Restriction => "restriction",
            Self::Style => "style",
            Self::Suspicious => "suspicious",
            Self::Deprecated => "deprecated",
        }
    }
}

/// The severity assigned to a lint or to a whole group.
#[derive(Clone, Copy, Debug, PartialEq, Eq, Structural)]
pub enum LintLevel {
    Allow,
    Warn,
    Deny,
    /// No level at all; its canonical name is `none`.
    NoLevel,
}

impl LintLevel {
    /// The canonical lowercase name of the level.
    pub open spec fn name(self) -> Seq<char> {
        match self {
            LintLevel::Allow => "allow"@,
            LintLevel::Warn => "warn"@,
            LintLevel::Deny => "deny"@,
            LintLevel::NoLevel => "none"@,
        }
    }

    /// The canonical name of the level, as it is written in a manifest.
    pub fn as_str(self) -> (name: &'static str)
        ensures
            name@ == self.name(),
    {
        match self {
            Self::Allow => "allow",
            Self::Warn => "warn",
            Self::Deny => "deny",
            Self::NoLevel => "none",
        }
    }
}

/// The name of a lint.  It is never interpreted: two identifiers are the same
/// lint exactly when they hold the same characters.
#[derive(Clone, Copy, Debug)]
pub struct LintId<'a>(pub &'a str);

impl<'a> View for LintId<'a> {
    type V = Seq<char>;

    open spec fn view(&self) -> Seq<char> {
        self.0@
    }
}

impl From<&'static str> for LintId<'static> {
    fn from(value: &'static str) -> (id: Self) {
        Self(value)
    }
}

impl FromSpecImpl<&'static str> for LintId<'static> {
    open spec fn obeys_from_spec() -> bool {
        true
    }

    open spec fn from_spec(value: &'static str) -> Self {
        LintId(value)
    }
}

impl<'a> PartialEq for LintId<'a> {
    /// Compares the two names byte by byte; equal encodings mean equal
    /// characters because decoding undoes encoding.
    fn eq(&self, other: &Self) -> (same: bool) {
        let left = self.0.as_bytes();
        let right = other.0.as_bytes();
        if left.len() != right.len() {
            return false;
        }
        let mut i: usize = 0;
        while i < left.len()
            invariant
                left@ == encode_utf8(self.0@),
                right@ == encode_utf8(other.0@),
                left@.len() == right@.len(),
                i <= left@.len(),
                forall|j: int| 0 <= j < i ==> left@[j] == right@[j],
            decreases left@.len() - i,
        {
            if left[i] != right[i] {
                return false;
            }
            i += 1;
        }
        proof {
            assert(left@ =~= right@);
            encode_utf8_decode_utf8(self.0@);
            encode_utf8_decode_utf8(other.0@);
        }
        true
    }
}

impl<'a> PartialEqSpecImpl for LintId<'a> {
    open spec fn obeys_eq_spec() -> bool {
        true
    }

    open spec fn eq_spec(&self, other: &Self) -> bool {
        self@ == other@
    }
}

impl<'a> Eq for LintId<'a> {
}

} // verus!
