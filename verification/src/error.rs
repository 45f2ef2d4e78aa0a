//! The ways classification fails.

use vstd::prelude::*;
use vstd::string::StringExecFns;

use crate::lint::LintGroup;

verus! {

/// A policy list names a lint that the catalog does not hold in the group the
/// policy expects it in.
#[derive(Debug, PartialEq, Eq)]
pub enum ClassifyError {
    /// An override list names `id`, which the catalog lacks under `group`.
    UnknownLintInGroup { id: String, group: LintGroup },
    /// The exception list of an exhaustive split names `id`, which the
    /// catalog lacks under `group`.
    ExceptionNotInGroup { id: String, group: LintGroup },
}

/// A classification failure with its lint given by name.
pub enum ClassifyErrorView {
    UnknownLintInGroup { id: Seq<char>, group: LintGroup },
    ExceptionNotInGroup { id: Seq<char>, group: LintGroup },
}

impl ClassifyErrorView {
    /// The diagnostic line: it names the offending lint and the group.
    pub open spec fn message(self) -> Seq<char> {
        match self {
            ClassifyErrorView::UnknownLintInGroup { id, group } => "lint "@ + id
                + " not in group "@ + group.name(),
            ClassifyErrorView::ExceptionNotInGroup { id, group } => "lint "@ + id
                + " not part of group "@ + group.name(),
        }
    }
}

impl View for ClassifyError {
    type V = ClassifyErrorView;

    open spec fn view(&self) -> ClassifyErrorView {
        match *self {
            ClassifyError::UnknownLintInGroup { id, group } => {
                ClassifyErrorView::UnknownLintInGroup { id: id@, group }
            },
            ClassifyError::ExceptionNotInGroup { id, group } => {
                ClassifyErrorView::ExceptionNotInGroup { id: id@, group }
            },
        }
    }
}

impl ClassifyError {
    /// The diagnostic line for this failure.
    pub fn message(&self) -> (text: String)
        ensures
            text@ == self@.message(),
    {
        let mut text = String::from_str("lint ");
        match self {
            ClassifyError::UnknownLintInGroup { id, group } => {
                text.append(id.as_str());
                text.append(" not in group ");
                text.append(group.as_str());
            },
            ClassifyError::ExceptionNotInGroup { id, group } => {
                text.append(id.as_str());
                text.append(" not part of group ");
                text.append(group.as_str());
            },
        }
        text
    }
}

} // verus!
