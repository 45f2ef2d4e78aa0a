//! Classification: validated allow-overrides and the exhaustive split of a
//! group into its exceptions and its defaults.

use vstd::prelude::*;

use crate::catalog::{
    borrowed_names, group_ids, has_lint, id_names, in_group, lemma_members_are_group_ids, members,
    name_of, names, AllLints, LintView,
};
use crate::error::{ClassifyError, ClassifyErrorView};
use crate::lint::{LintGroup, LintId, LintLevel};
use crate::setting::{
    settings_view, Exceptions, ExhaustiveGroup, ExhaustiveGroupView, PrioritySetting, Setting,
    SettingView, SingleLintConfig,
};
use crate::subsequence::{
    is_subsequence, lemma_filter_is_subsequence, lemma_filter_take_step, lemma_subsequence_map,
    lemma_subsequence_transitive,
};

verus! {

/// Every name of `ids` is listed by the catalog under `group`.
pub open spec fn all_present(
    catalog: Seq<LintView>,
    group: LintGroup,
    ids: Seq<Seq<char>>,
) -> bool {
    forall|k: int| 0 <= k < ids.len() ==> has_lint(catalog, #[trigger] ids[k], group)
}

/// `ids[k]` is the first name of `ids` that the catalog does not list under
/// `group`.
pub open spec fn first_absent_at(
    catalog: Seq<LintView>,
    group: LintGroup,
    ids: Seq<Seq<char>>,
    k: int,
) -> bool {
    &&& 0 <= k < ids.len()
    &&& !has_lint(catalog, ids[k], group)
    &&& forall|j: int| 0 <= j < k ==> has_lint(catalog, #[trigger] ids[j], group)
}

/// The first name of `ids` that the catalog does not list under `group`;
/// meaningful when there is one.
pub open spec fn first_absent(
    catalog: Seq<LintView>,
    group: LintGroup,
    ids: Seq<Seq<char>>,
) -> Seq<char> {
    ids[choose|k: int| first_absent_at(catalog, group, ids, k)]
}

/// There is only one first absent name.
pub proof fn lemma_first_absent(
    catalog: Seq<LintView>,
    group: LintGroup,
    ids: Seq<Seq<char>>,
    k: int,
)
    requires
        first_absent_at(catalog, group, ids, k),
    ensures
        !all_present(catalog, group, ids),
        first_absent(catalog, group, ids) == ids[k],
{
    let chosen = choose|k: int| first_absent_at(catalog, group, ids, k);
    if chosen < k {
        assert(has_lint(catalog, ids[chosen], group));
    }
    if k < chosen {
        assert(has_lint(catalog, ids[k], group));
    }
}

/// The setting of one lint, without a priority.
pub open spec fn single(lint: Seq<char>, level: LintLevel) -> SettingView {
    SettingView::Single { lint, priority: PrioritySetting::Unspecified, level }
}

/// The function that sets a lint to `level`.
pub open spec fn single_at(level: LintLevel) -> spec_fn(Seq<char>) -> SettingView {
    |lint: Seq<char>| single(lint, level)
}

/// The test for being named in `ids`.
pub open spec fn named_in(ids: Seq<Seq<char>>) -> spec_fn(Seq<char>) -> bool {
    |id: Seq<char>| ids.contains(id)
}

/// The test for not being named in `ids`.
pub open spec fn not_named_in(ids: Seq<Seq<char>>) -> spec_fn(Seq<char>) -> bool {
    |id: Seq<char>| !ids.contains(id)
}

/// The keys of a run of settings, in order.
pub open spec fn setting_keys(settings: Seq<SettingView>) -> Seq<Seq<char>> {
    settings.map_values(|setting: SettingView| setting.key())
}

/// What `Setting::allow` returns: every name set to allow, in the order of
/// the list, or the failure on the first name that the catalog lacks.
pub open spec fn allow_outcome(
    catalog: Seq<LintView>,
    group: LintGroup,
    ids: Seq<Seq<char>>,
) -> Result<Seq<SettingView>, ClassifyErrorView> {
    if all_present(catalog, group, ids) {
        Ok(ids.map_values(single_at(LintLevel::Allow)))
    } else {
        Err(ClassifyErrorView::UnknownLintInGroup { id: first_absent(catalog, group, ids), group })
    }
}

/// The members of `group` that `ids` names, in catalog order, each at
/// `level`.
pub open spec fn exception_half(
    catalog: Seq<LintView>,
    group: LintGroup,
    level: LintLevel,
    ids: Seq<Seq<char>>,
) -> Seq<SettingView> {
    members(catalog, group).filter(named_in(ids)).map_values(single_at(level))
}

/// The members of `group` that `ids` does not name, in catalog order, each at
/// `level`.
pub open spec fn default_half(
    catalog: Seq<LintView>,
    group: LintGroup,
    level: LintLevel,
    ids: Seq<Seq<char>>,
) -> Seq<SettingView> {
    members(catalog, group).filter(not_named_in(ids)).map_values(single_at(level))
}

/// What `Setting::split_group_exhaustive` returns: the two halves of the
/// group, or the failure on the first exception that the catalog lacks.
pub open spec fn split_outcome(
    catalog: Seq<LintView>,
    group: LintGroup,
    default_level: LintLevel,
    exception_level: LintLevel,
    ids: Seq<Seq<char>>,
) -> Result<ExhaustiveGroupView, ClassifyErrorView> {
    if all_present(catalog, group, ids) {
        Ok(
            ExhaustiveGroupView {
                defaults: default_half(catalog, group, default_level, ids),
                exceptions: exception_half(catalog, group, exception_level, ids),
            },
        )
    } else {
        Err(ClassifyErrorView::ExceptionNotInGroup { id: first_absent(catalog, group, ids), group })
    }
}

/// The keys of a run of single settings are the names it was made from.
proof fn lemma_single_keys(ids: Seq<Seq<char>>, level: LintLevel)
    ensures
        setting_keys(ids.map_values(single_at(level))) == ids,
{
}

/// The two halves of a split hold, between them, exactly the names that the
/// catalog lists under the group, and no name is in both.
pub proof fn lemma_split_covers_group(
    catalog: Seq<LintView>,
    group: LintGroup,
    default_level: LintLevel,
    exception_level: LintLevel,
    ids: Seq<Seq<char>>,
)
    ensures
        setting_keys(default_half(catalog, group, default_level, ids)).to_set().union(
            setting_keys(exception_half(catalog, group, exception_level, ids)).to_set(),
        ) == group_ids(catalog, group),
        setting_keys(default_half(catalog, group, default_level, ids)).to_set().disjoint(
            setting_keys(exception_half(catalog, group, exception_level, ids)).to_set(),
        ),
{
    let all = members(catalog, group);
    let defaults = all.filter(not_named_in(ids));
    let exceptions = all.filter(named_in(ids));
    lemma_single_keys(defaults, default_level);
    lemma_single_keys(exceptions, exception_level);
    assert forall|id: Seq<char>| defaults.contains(id) <==> all.contains(id) && !ids.contains(
        id,
    ) by {
        if defaults.contains(id) {
            let j = choose|j: int| 0 <= j < defaults.len() && defaults[j] == id;
            all.lemma_filter_pred(not_named_in(ids), j);
            all.lemma_filter_contains_rev(not_named_in(ids), id);
        }
        if all.contains(id) && !ids.contains(id) {
            let i = choose|i: int| 0 <= i < all.len() && all[i] == id;
            all.lemma_filter_contains(not_named_in(ids), i);
        }
    }
    assert forall|id: Seq<char>| exceptions.contains(id) <==> all.contains(id) && ids.contains(
        id,
    ) by {
        if exceptions.contains(id) {
            let j = choose|j: int| 0 <= j < exceptions.len() && exceptions[j] == id;
            all.lemma_filter_pred(named_in(ids), j);
            all.lemma_filter_contains_rev(named_in(ids), id);
        }
        if all.contains(id) && ids.contains(id) {
            let i = choose|i: int| 0 <= i < all.len() && all[i] == id;
            all.lemma_filter_contains(named_in(ids), i);
        }
    }
    assert forall|id: Seq<char>| all.contains(id) <==> has_lint(catalog, id, group) by {
        lemma_members_are_group_ids(catalog, group, id);
    }
    assert(defaults.to_set().union(exceptions.to_set()) =~= group_ids(catalog, group));
    assert(defaults.to_set().disjoint(exceptions.to_set()));
}

/// Each half of a split names its lints in the order of the catalog.
pub proof fn lemma_split_keeps_order(
    catalog: Seq<LintView>,
    group: LintGroup,
    default_level: LintLevel,
    exception_level: LintLevel,
    ids: Seq<Seq<char>>,
)
    ensures
        is_subsequence(
            setting_keys(default_half(catalog, group, default_level, ids)),
            names(catalog),
        ),
        is_subsequence(
            setting_keys(exception_half(catalog, group, exception_level, ids)),
            names(catalog),
        ),
{
    let all = members(catalog, group);
    lemma_single_keys(all.filter(not_named_in(ids)), default_level);
    lemma_single_keys(all.filter(named_in(ids)), exception_level);
    lemma_filter_is_subsequence(catalog, in_group(group));
    lemma_subsequence_map(catalog.filter(in_group(group)), catalog, name_of());
    lemma_filter_is_subsequence(all, not_named_in(ids));
    lemma_filter_is_subsequence(all, named_in(ids));
    lemma_subsequence_transitive(all.filter(not_named_in(ids)), all, names(catalog));
    lemma_subsequence_transitive(all.filter(named_in(ids)), all, names(catalog));
}

/// Every setting of a half is a single setting without a priority, at the
/// level of its half.
pub proof fn lemma_split_places_levels(
    catalog: Seq<LintView>,
    group: LintGroup,
    default_level: LintLevel,
    exception_level: LintLevel,
    ids: Seq<Seq<char>>,
)
    ensures
        forall|i: int|
            0 <= i < default_half(catalog, group, default_level, ids).len() ==> {
                let setting = #[trigger] default_half(catalog, group, default_level, ids)[i];
                setting == single(setting.key(), default_level)
            },
        forall|i: int|
            0 <= i < exception_half(catalog, group, exception_level, ids).len() ==> {
                let setting = #[trigger] exception_half(catalog, group, exception_level, ids)[i];
                setting == single(setting.key(), exception_level)
            },
{
}

/// Where every exception is listed under the group, every exception is named
/// in the exception half.
pub proof fn lemma_split_keeps_exceptions(
    catalog: Seq<LintView>,
    group: LintGroup,
    exception_level: LintLevel,
    ids: Seq<Seq<char>>,
)
    requires
        all_present(catalog, group, ids),
    ensures
        forall|k: int|
            0 <= k < ids.len() ==> setting_keys(
                exception_half(catalog, group, exception_level, ids),
            ).contains(#[trigger] ids[k]),
{
    let all = members(catalog, group);
    let exceptions = all.filter(named_in(ids));
    lemma_single_keys(exceptions, exception_level);
    assert forall|k: int| 0 <= k < ids.len() implies exceptions.contains(#[trigger] ids[k]) by {
        assert(has_lint(catalog, ids[k], group));
        lemma_members_are_group_ids(catalog, group, ids[k]);
        let i = choose|i: int| 0 <= i < all.len() && all[i] == ids[k];
        assert(ids.contains(ids[k]));
        all.lemma_filter_contains(named_in(ids), i);
    }
}

/// Whether a vector of borrowed identifiers names `id`.
fn names_lint(ids: &Vec<&LintId>, id: &LintId) -> (found: bool)
    ensures
        found == borrowed_names(ids@).contains(id@),
{
    let mut i: usize = 0;
    while i < ids.len()
        invariant
            i <= ids@.len(),
            forall|j: int| 0 <= j < i ==> borrowed_names(ids@)[j] != id@,
        decreases ids@.len() - i,
    {
        if *ids[i] == *id {
            assert(borrowed_names(ids@)[i as int] == id@);
            return true;
        }
        i += 1;
    }
    false
}

impl<'a> Setting<'a> {
    /// One allow-setting for each name of `lints`, in the order of the list,
    /// provided that the catalog lists every one of them under `group`.  The
    /// first name that it does not list fails the whole call.
    pub fn allow(
        all_lints: &'a AllLints<'a>,
        group: LintGroup,
        lints: &[LintId],
    ) -> (outcome: Result<Vec<Self>, ClassifyError>)
        ensures
            match outcome {
                Ok(settings) => allow_outcome(all_lints@, group, id_names(lints@)) == Ok::<
                    Seq<SettingView>,
                    ClassifyErrorView,
                >(settings_view(settings@)),
                Err(error) => allow_outcome(all_lints@, group, id_names(lints@)) == Err::<
                    Seq<SettingView>,
                    ClassifyErrorView,
                >(error@),
            },
    {
        let ghost catalog = all_lints@;
        let ghost ids = id_names(lints@);
        let mut settings: Vec<Setting<'a>> = Vec::new();
        let mut k: usize = 0;
        while k < lints.len()
            invariant
                catalog == all_lints@,
                ids == id_names(lints@),
                k <= lints@.len(),
                forall|j: int| 0 <= j < k ==> has_lint(catalog, #[trigger] ids[j], group),
                settings_view(settings@) =~= ids.take(k as int).map_values(
                    single_at(LintLevel::Allow),
                ),
            decreases lints@.len() - k,
        {
            let wanted = &lints[k];
            let ghost before = settings_view(settings@);
            match all_lints.find(wanted, group) {
                Some(lint) => {
                    settings.push(
                        Setting::Single(
                            SingleLintConfig {
                                lint,
                                priority: PrioritySetting::Unspecified,
                                level: LintLevel::Allow,
                            },
                        ),
                    );
                },
                None => {
                    proof {
                        lemma_first_absent(catalog, group, ids, k as int);
                    }
                    return Err(
                        ClassifyError::UnknownLintInGroup { id: wanted.0.to_owned(), group },
                    );
                },
            }
            proof {
                assert(ids.take(k + 1) =~= ids.take(k as int).push(ids[k as int]));
                assert(settings_view(settings@) =~= before.push(
                    single(ids[k as int], LintLevel::Allow),
                ));
            }
            k += 1;
        }
        assert(ids.take(k as int) =~= ids);
        Ok(settings)
    }

    /// Splits the lints of `group` in two: those that `exceptions` names, at
    /// the level of the exceptions, and the others, at `default_level`; both
    /// in catalog order.  Every exception must be listed by the catalog under
    /// `group`: the first one that is not fails the whole call.  A name that
    /// the exceptions hold twice is set once.
    pub fn split_group_exhaustive(
        all_lints: &'a AllLints<'a>,
        group: LintGroup,
        default_level: LintLevel,
        exceptions: &Exceptions,
    ) -> (outcome: Result<ExhaustiveGroup<'a>, ClassifyError>)
        ensures
            match outcome {
                Ok(split) => split_outcome(
                    all_lints@,
                    group,
                    default_level,
                    exceptions.level,
                    exceptions.lints@,
                ) == Ok::<ExhaustiveGroupView, ClassifyErrorView>(split@),
                Err(error) => split_outcome(
                    all_lints@,
                    group,
                    default_level,
                    exceptions.level,
                    exceptions.lints@,
                ) == Err::<ExhaustiveGroupView, ClassifyErrorView>(error@),
            },
            outcome matches Ok(split) ==> {
                &&& setting_keys(split@.defaults).to_set().union(
                    setting_keys(split@.exceptions).to_set(),
                ) == group_ids(all_lints@, group)
                &&& setting_keys(split@.defaults).to_set().disjoint(
                    setting_keys(split@.exceptions).to_set(),
                )
                &&& is_subsequence(setting_keys(split@.defaults), names(all_lints@))
                &&& is_subsequence(setting_keys(split@.exceptions), names(all_lints@))
                &&& forall|i: int|
                    0 <= i < split@.defaults.len() ==> (#[trigger] split@.defaults[i]).level()
                        == default_level
                &&& forall|i: int|
                    0 <= i < split@.exceptions.len() ==> (#[trigger] split@.exceptions[i]).level()
                        == exceptions.level
                &&& forall|k: int|
                    0 <= k < exceptions.lints@.len() ==> setting_keys(split@.exceptions).contains(
                        #[trigger] exceptions.lints@[k],
                    )
            },
    {
        let ghost catalog = all_lints@;
        let ghost ids = exceptions.lints@;
        let ghost all = members(catalog, group);
        let all_lints_in_group = all_lints.ids_in_group(group);
        let all_lints_in_group_len = all_lints_in_group.len();

        let mut k: usize = 0;
        while k < exceptions.lints.0.len()
            invariant
                catalog == all_lints@,
                ids == exceptions.lints@,
                borrowed_names(all_lints_in_group@) == members(catalog, group),
                k <= ids.len(),
                forall|j: int| 0 <= j < k ==> has_lint(catalog, #[trigger] ids[j], group),
            decreases ids.len() - k,
        {
            let lint = &exceptions.lints.0[k];
            proof {
                lemma_members_are_group_ids(catalog, group, ids[k as int]);
            }
            if !names_lint(&all_lints_in_group, lint) {
                proof {
                    lemma_first_absent(catalog, group, ids, k as int);
                }
                return Err(ClassifyError::ExceptionNotInGroup { id: lint.0.to_owned(), group });
            }
            k += 1;
        }

        let len_1 = exceptions.lints.0.len();
        let spare = if all_lints_in_group_len >= len_1 {
            all_lints_in_group_len - len_1
        } else {
            0
        };
        let mut split = ExhaustiveGroup {
            defaults: Vec::with_capacity(spare),
            exceptions: Vec::with_capacity(len_1),
        };
        assert(all.take(0).filter(named_in(ids)) =~= Seq::empty()
            && all.take(0).filter(not_named_in(ids)) =~= Seq::empty()) by {
            reveal(Seq::filter);
        }
        let mut i: usize = 0;
        while i < all_lints_in_group_len
            invariant
                ids == exceptions.lints@,
                all == borrowed_names(all_lints_in_group@),
                all_lints_in_group_len == all_lints_in_group@.len(),
                i <= all_lints_in_group_len,
                split@.defaults =~= all.take(i as int).filter(not_named_in(ids)).map_values(
                    single_at(default_level),
                ),
                split@.exceptions =~= all.take(i as int).filter(named_in(ids)).map_values(
                    single_at(exceptions.level),
                ),
            decreases all_lints_in_group_len - i,
        {
            let lint = all_lints_in_group[i];
            let ghost before = split@;
            proof {
                lemma_filter_take_step(all, named_in(ids), i as int);
                lemma_filter_take_step(all, not_named_in(ids), i as int);
                assert(all[i as int] == lint@);
            }
            if exceptions.lints.contains(lint) {
                split.exceptions.push(
                    Setting::Single(
                        SingleLintConfig {
                            lint,
                            priority: PrioritySetting::Unspecified,
                            level: exceptions.level,
                        },
                    ),
                );
            } else {
                split.defaults.push(
                    Setting::Single(
                        SingleLintConfig {
                            lint,
                            priority: PrioritySetting::Unspecified,
                            level: default_level,
                        },
                    ),
                );
            }
            proof {
                if ids.contains(all[i as int]) {
                    assert(split@.defaults == before.defaults);
                    assert(split@.exceptions =~= before.exceptions.push(
                        single(all[i as int], exceptions.level),
                    ));
                } else {
                    assert(split@.exceptions == before.exceptions);
                    assert(split@.defaults =~= before.defaults.push(
                        single(all[i as int], default_level),
                    ));
                }
            }
            i += 1;
        }
        proof {
            assert(all.take(i as int) =~= all);
            lemma_split_covers_group(catalog, group, default_level, exceptions.level, ids);
            lemma_split_keeps_order(catalog, group, default_level, exceptions.level, ids);
            lemma_split_places_levels(catalog, group, default_level, exceptions.level, ids);
            lemma_split_keeps_exceptions(catalog, group, exceptions.level, ids);
        }
        Ok(split)
    }
}

} // verus!
