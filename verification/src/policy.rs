//! The policy: which groups are enabled, which lints are allowed against
//! their group, and which restriction lints are selected.  The policy is
//! part of the program; the catalog is checked against it on every run.

use vstd::prelude::*;

use crate::catalog::{id_names, AllLints, LintList, LintView};
use crate::classify::{allow_outcome, split_outcome};
use crate::emit::rendered;
use crate::error::{ClassifyError, ClassifyErrorView};
use crate::lint::{LintGroup, LintId, LintLevel};
use crate::setting::{
    settings_view, Args, Config, ConfigGroup, ConfigGroupView, Exceptions, PrioritySetting,
    Profile, Setting, SettingView,
};

verus! {

/// The setting that enables `group` at `level`, ahead of the settings of
/// single lints.
pub open spec fn enabled(group: LintGroup, level: LintLevel) -> SettingView {
    SettingView::Group { group, priority: PrioritySetting::Explicit(-1isize), level }
}

/// The groups that are enabled, each with its level, in the order they are
/// emitted.
pub open spec fn enabled_groups() -> Seq<SettingView> {
    seq![
        enabled(LintGroup::Correctness, LintLevel::Deny),
        enabled(LintGroup::Suspicious, LintLevel::Warn),
        enabled(LintGroup::Style, LintLevel::Warn),
        enabled(LintGroup::Complexity, LintLevel::Warn),
        enabled(LintGroup::Perf, LintLevel::Warn),
        enabled(LintGroup::Cargo, LintLevel::Warn),
        enabled(LintGroup::Pedantic, LintLevel::Warn),
        enabled(LintGroup::Nursery, LintLevel::Warn),
    ]
}

/// The pedantic lints that are allowed.
pub open spec fn pedantic_allows() -> Seq<Seq<char>> {
    seq![
        "too_many_lines"@,
        "must_use_candidate"@,
        "map_unwrap_or"@,
        "missing_errors_doc"@,
        "if_not_else"@,
    ]
}

/// The nursery lints that are allowed.
pub open spec fn nursery_allows() -> Seq<Seq<char>> {
    seq![
        "missing_const_for_fn"@,
        "option_if_let_else"@,
        "redundant_pub_crate"@,
    ]
}

/// The complexity lints that are allowed.
pub open spec fn complexity_allows() -> Seq<Seq<char>> {
    seq!["too_many_arguments"@]
}

/// The style lints that are allowed.
pub open spec fn style_allows() -> Seq<Seq<char>> {
    seq!["new_without_default"@, "redundant_closure"@]
}

/// The cargo lints that are allowed: a crate that is not published needs no
/// package metadata.
pub open spec fn cargo_allows(profile: Profile) -> Seq<Seq<char>> {
    match profile {
        Profile::Publish => seq!["multiple_crate_versions"@],
        Profile::Personal => seq!["multiple_crate_versions"@, "cargo_common_metadata"@],
    }
}

/// The restriction lints that are selected.
#[verifier::opaque]
pub open spec fn restriction_exceptions() -> Seq<Seq<char>> {
    seq![
        "allow_attributes"@,
        "allow_attributes_without_reason"@,
        "arithmetic_side_effects"@,
        "as_conversions"@,
        "assertions_on_result_states"@,
        "cfg_not_test"@,
        "clone_on_ref_ptr"@,
        "create_dir"@,
        "dbg_macro"@,
        "decimal_literal_representation"@,
        "default_numeric_fallback"@,
        "deref_by_slicing"@,
        "disallowed_script_idents"@,
        "else_if_without_else"@,
        "empty_drop"@,
        "empty_enum_variants_with_brackets"@,
        "empty_structs_with_brackets"@,
        "exit"@,
        "filetype_is_file"@,
        "float_arithmetic"@,
        "float_cmp_const"@,
        "fn_to_numeric_cast_any"@,
        "format_push_string"@,
        "get_unwrap"@,
        "indexing_slicing"@,
        "infinite_loop"@,
        "inline_asm_x86_att_syntax"@,
        "inline_asm_x86_intel_syntax"@,
        "integer_division"@,
        "iter_over_hash_type"@,
        "large_include_file"@,
        "let_underscore_must_use"@,
        "let_underscore_untyped"@,
        "little_endian_bytes"@,
        "lossy_float_literal"@,
        "map_err_ignore"@,
        "mem_forget"@,
        "missing_assert_message"@,
        "missing_asserts_for_indexing"@,
        "mixed_read_write_in_expression"@,
        "modulo_arithmetic"@,
        "multiple_inherent_impl"@,
        "multiple_unsafe_ops_per_block"@,
        "mutex_atomic"@,
        "panic"@,
        "partial_pub_fields"@,
        "pattern_type_mismatch"@,
        "print_stderr"@,
        "print_stdout"@,
        "pub_without_shorthand"@,
        "rc_buffer"@,
        "rc_mutex"@,
        "redundant_type_annotations"@,
        "renamed_function_params"@,
        "rest_pat_in_fully_bound_structs"@,
        "same_name_method"@,
        "self_named_module_files"@,
        "semicolon_inside_block"@,
        "str_to_string"@,
        "string_add"@,
        "string_lit_chars_any"@,
        "string_slice"@,
        "string_to_string"@,
        "suspicious_xor_used_as_pow"@,
        "tests_outside_test_module"@,
        "todo"@,
        "try_err"@,
        "undocumented_unsafe_blocks"@,
        "unimplemented"@,
        "unnecessary_safety_comment"@,
        "unnecessary_safety_doc"@,
        "unnecessary_self_imports"@,
        "unneeded_field_pattern"@,
        "unseparated_literal_suffix"@,
        "unused_result_ok"@,
        "unwrap_used"@,
        "use_debug"@,
        "verbose_file_reads"@,
    ]
}

/// A group of the configuration under its comment.
pub open spec fn commented(comment: Seq<char>, settings: Seq<SettingView>) -> ConfigGroupView {
    ConfigGroupView { comment: Some(comment), settings }
}

/// The configuration that the policy gives for a catalog, or the first
/// failure of a policy list against the catalog.  The restriction split is
/// checked first, then the override lists in the order of their groups.
pub open spec fn classified(catalog: Seq<LintView>, profile: Profile) -> Result<
    Seq<ConfigGroupView>,
    ClassifyErrorView,
> {
    match split_outcome(
        catalog,
        LintGroup::Restriction,
        LintLevel::Allow,
        LintLevel::Warn,
        restriction_exceptions(),
    ) {
        Err(error) => Err(error),
        Ok(restriction) => match allow_outcome(catalog, LintGroup::Pedantic, pedantic_allows()) {
            Err(error) => Err(error),
            Ok(pedantic) => match allow_outcome(catalog, LintGroup::Nursery, nursery_allows()) {
                Err(error) => Err(error),
                Ok(nursery) => match allow_outcome(
                    catalog,
                    LintGroup::Complexity,
                    complexity_allows(),
                ) {
                    Err(error) => Err(error),
                    Ok(complexity) => match allow_outcome(
                        catalog,
                        LintGroup::Style,
                        style_allows(),
                    ) {
                        Err(error) => Err(error),
                        Ok(style) => match allow_outcome(
                            catalog,
                            LintGroup::Cargo,
                            cargo_allows(profile),
                        ) {
                            Err(error) => Err(error),
                            Ok(cargo) => Ok(
                                seq![
                                    commented("enabled groups"@, enabled_groups()),
                                    commented("pedantic overrides"@, pedantic),
                                    commented("nursery overrides"@, nursery),
                                    commented("complexity overrides"@, complexity),
                                    commented("style overrides"@, style),
                                    commented("cargo overrides"@, cargo),
                                    commented("selected restrictions"@, restriction.exceptions),
                                    commented(
                                        "restrictions explicit allows"@,
                                        restriction.defaults,
                                    ),
                                ],
                            ),
                        },
                    },
                },
            },
        },
    }
}

/// The settings that enable the groups.
fn enabled_group_settings<'a>() -> (settings: Vec<Setting<'a>>)
    ensures
        settings_view(settings@) == enabled_groups(),
{
    vec![
        Setting::group(LintGroup::Correctness, LintLevel::Deny, Some(-1isize)),
        Setting::group(LintGroup::Suspicious, LintLevel::Warn, Some(-1isize)),
        Setting::group(LintGroup::Style, LintLevel::Warn, Some(-1isize)),
        Setting::group(LintGroup::Complexity, LintLevel::Warn, Some(-1isize)),
        Setting::group(LintGroup::Perf, LintLevel::Warn, Some(-1isize)),
        Setting::group(LintGroup::Cargo, LintLevel::Warn, Some(-1isize)),
        Setting::group(LintGroup::Pedantic, LintLevel::Warn, Some(-1isize)),
        Setting::group(LintGroup::Nursery, LintLevel::Warn, Some(-1isize)),
    ]
}

/// The list of the pedantic lints that are allowed.
fn pedantic_allow_list() -> (list: Vec<LintId<'static>>)
    ensures
        id_names(list@) == pedantic_allows(),
{
    vec![
        LintId("too_many_lines"),
        LintId("must_use_candidate"),
        LintId("map_unwrap_or"),
        LintId("missing_errors_doc"),
        LintId("if_not_else"),
    ]
}

/// The list of the nursery lints that are allowed.
fn nursery_allow_list() -> (list: Vec<LintId<'static>>)
    ensures
        id_names(list@) == nursery_allows(),
{
    vec![
        LintId("missing_const_for_fn"),
        LintId("option_if_let_else"),
        LintId("redundant_pub_crate"),
    ]
}

/// The list of the complexity lints that are allowed.
fn complexity_allow_list() -> (list: Vec<LintId<'static>>)
    ensures
        id_names(list@) == complexity_allows(),
{
    vec![LintId("too_many_arguments")]
}

/// The list of the style lints that are allowed.
fn style_allow_list() -> (list: Vec<LintId<'static>>)
    ensures
        id_names(list@) == style_allows(),
{
    vec![LintId("new_without_default"), LintId("redundant_closure")]
}

/// The list of the cargo lints that are allowed under `profile`.
fn cargo_allow_list(profile: Profile) -> (list: Vec<LintId<'static>>)
    ensures
        id_names(list@) == cargo_allows(profile),
{
    let mut list = vec![LintId("multiple_crate_versions")];
    match profile {
        Profile::Publish => (),
        Profile::Personal => list.push(LintId("cargo_common_metadata")),
    }
    list
}

/// The list of the restriction lints that are selected.
fn restriction_exception_list() -> (list: LintList<'static>)
    ensures
        list@ == restriction_exceptions(),
{
    let list = LintList(
        vec![
            LintId("allow_attributes"),
            LintId("allow_attributes_without_reason"),
            LintId("arithmetic_side_effects"),
            LintId("as_conversions"),
            LintId("assertions_on_result_states"),
            LintId("cfg_not_test"),
            LintId("clone_on_ref_ptr"),
            LintId("create_dir"),
            LintId("dbg_macro"),
            LintId("decimal_literal_representation"),
            LintId("default_numeric_fallback"),
            LintId("deref_by_slicing"),
            LintId("disallowed_script_idents"),
            LintId("else_if_without_else"),
            LintId("empty_drop"),
            LintId("empty_enum_variants_with_brackets"),
            LintId("empty_structs_with_brackets"),
            LintId("exit"),
            LintId("filetype_is_file"),
            LintId("float_arithmetic"),
            LintId("float_cmp_const"),
            LintId("fn_to_numeric_cast_any"),
            LintId("format_push_string"),
            LintId("get_unwrap"),
            LintId("indexing_slicing"),
            LintId("infinite_loop"),
            LintId("inline_asm_x86_att_syntax"),
            LintId("inline_asm_x86_intel_syntax"),
            LintId("integer_division"),
            LintId("iter_over_hash_type"),
            LintId("large_include_file"),
            LintId("let_underscore_must_use"),
            LintId("let_underscore_untyped"),
            LintId("little_endian_bytes"),
            LintId("lossy_float_literal"),
            LintId("map_err_ignore"),
            LintId("mem_forget"),
            LintId("missing_assert_message"),
            LintId("missing_asserts_for_indexing"),
            LintId("mixed_read_write_in_expression"),
            LintId("modulo_arithmetic"),
            LintId("multiple_inherent_impl"),
            LintId("multiple_unsafe_ops_per_block"),
            LintId("mutex_atomic"),
            LintId("panic"),
            LintId("partial_pub_fields"),
            LintId("pattern_type_mismatch"),
            LintId("print_stderr"),
            LintId("print_stdout"),
            LintId("pub_without_shorthand"),
            LintId("rc_buffer"),
            LintId("rc_mutex"),
            LintId("redundant_type_annotations"),
            LintId("renamed_function_params"),
            LintId("rest_pat_in_fully_bound_structs"),
            LintId("same_name_method"),
            LintId("self_named_module_files"),
            LintId("semicolon_inside_block"),
            LintId("str_to_string"),
            LintId("string_add"),
            LintId("string_lit_chars_any"),
            LintId("string_slice"),
            LintId("string_to_string"),
            LintId("suspicious_xor_used_as_pow"),
            LintId("tests_outside_test_module"),
            LintId("todo"),
            LintId("try_err"),
            LintId("undocumented_unsafe_blocks"),
            LintId("unimplemented"),
            LintId("unnecessary_safety_comment"),
            LintId("unnecessary_safety_doc"),
            LintId("unnecessary_self_imports"),
            LintId("unneeded_field_pattern"),
            LintId("unseparated_literal_suffix"),
            LintId("unused_result_ok"),
            LintId("unwrap_used"),
            LintId("use_debug"),
            LintId("verbose_file_reads"),
        ],
    );
    assert(list@ =~= restriction_exceptions()) by {
        reveal(restriction_exceptions);
    }
    list
}

/// A group of the configuration under its comment.
fn commented_group<'a>(comment: &str, settings: Vec<Setting<'a>>) -> (group: ConfigGroup<'a>)
    ensures
        group@ == commented(comment@, settings_view(settings@)),
{
    ConfigGroup { comment: Some(comment.to_owned()), settings }
}

/// Classifies the catalog by the policy: the enabled groups, the allowed
/// lints of five groups, and the restriction group split into the selected
/// lints and the rest.  Fails on the first name of a policy list that the
/// catalog does not list under the group of that list.
pub fn build_config<'a>(all_lints: &'a AllLints<'a>, args: &Args) -> (outcome: Result<
    Config<'a>,
    ClassifyError,
>)
    ensures
        match outcome {
            Ok(config) => classified(all_lints@, args.profile) == Ok::<
                Seq<ConfigGroupView>,
                ClassifyErrorView,
            >(config@),
            Err(error) => classified(all_lints@, args.profile) == Err::<
                Seq<ConfigGroupView>,
                ClassifyErrorView,
            >(error@),
        },
{
    let restriction_group = Setting::split_group_exhaustive(
        all_lints,
        LintGroup::Restriction,
        LintLevel::Allow,
        &Exceptions { level: LintLevel::Warn, lints: restriction_exception_list() },
    )?;
    let pedantic = Setting::allow(
        all_lints,
        LintGroup::Pedantic,
        pedantic_allow_list().as_slice(),
    )?;
    let nursery = Setting::allow(all_lints, LintGroup::Nursery, nursery_allow_list().as_slice())?;
    let complexity = Setting::allow(
        all_lints,
        LintGroup::Complexity,
        complexity_allow_list().as_slice(),
    )?;
    let style = Setting::allow(all_lints, LintGroup::Style, style_allow_list().as_slice())?;
    let cargo = Setting::allow(
        all_lints,
        LintGroup::Cargo,
        cargo_allow_list(args.profile).as_slice(),
    )?;
    let config = Config(
        vec![
            commented_group("enabled groups", enabled_group_settings()),
            commented_group("pedantic overrides", pedantic),
            commented_group("nursery overrides", nursery),
            commented_group("complexity overrides", complexity),
            commented_group("style overrides", style),
            commented_group("cargo overrides", cargo),
            commented_group("selected restrictions", restriction_group.exceptions),
            commented_group("restrictions explicit allows", restriction_group.defaults),
        ],
    );
    assert(config@ =~= classified(all_lints@, args.profile)->Ok_0);
    Ok(config)
}

/// The text that is printed for a catalog, or the failure that is reported
/// in its place.
pub open spec fn generated(catalog: Seq<LintView>, profile: Profile, workspace: bool) -> Result<
    Seq<char>,
    ClassifyErrorView,
> {
    match classified(catalog, profile) {
        Ok(config) => Ok(rendered(config, workspace)),
        Err(error) => Err(error),
    }
}

/// Classifies the catalog and renders the configuration.  Where the
/// classification fails there is no text at all.
pub fn generate(all_lints: &AllLints, args: &Args) -> (outcome: Result<String, ClassifyError>)
    ensures
        match outcome {
            Ok(text) => generated(all_lints@, args.profile, args.workspace) == Ok::<
                Seq<char>,
                ClassifyErrorView,
            >(text@),
            Err(error) => generated(all_lints@, args.profile, args.workspace) == Err::<
                Seq<char>,
                ClassifyErrorView,
            >(error@),
        },
{
    let config = build_config(all_lints, args)?;
    Ok(config.to_toml(args))
}

} // verus!
