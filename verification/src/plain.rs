//! Escaping: the emitter writes keys and values as they are, and the names
//! it is built for need no escaping.

use vstd::prelude::*;
use vstd::utf8::is_ascii_chars;

use crate::catalog::{group_ids, LintView};
use crate::classify::{
    allow_outcome, default_half, exception_half, lemma_split_covers_group, setting_keys,
};
use crate::emit::{
    comment_line, decimal, digits, group_break, group_text, groups_text, header, rendered,
    setting_line, setting_lines,
};
use crate::lint::{LintGroup, LintLevel};
use crate::policy::{
    cargo_allows, classified, complexity_allows, enabled_groups, generated, nursery_allows,
    pedantic_allows, restriction_exceptions, style_allows,
};
use crate::setting::{ConfigGroupView, PrioritySetting, Profile, SettingView};

verus! {

/// A character that a key or a value can hold without escaping: a lowercase
/// letter, a digit or an underscore.
pub open spec fn is_plain_char(c: char) -> bool {
    ||| 'a' <= c <= 'z'
    ||| '0' <= c <= '9'
    ||| c == '_'
}

/// A text that needs no escaping: all its characters are plain.
pub open spec fn is_plain(text: Seq<char>) -> bool {
    forall|i: int| 0 <= i < text.len() ==> is_plain_char(#[trigger] text[i])
}

/// The name of a group needs no escaping.
pub proof fn lemma_group_name_is_plain(group: LintGroup)
    ensures
        is_plain(group.name()),
{
    reveal_strlit("cargo");
    reveal_strlit("complexity");
    reveal_strlit("correctness");
    reveal_strlit("nursery");
    reveal_strlit("pedantic");
    reveal_strlit("perf");
    reveal_strlit("restriction");
    reveal_strlit("style");
    reveal_strlit("suspicious");
    reveal_strlit("deprecated");
}

/// The name of a level needs no escaping.
pub proof fn lemma_level_name_is_plain(level: LintLevel)
    ensures
        is_plain(level.name()),
{
    reveal_strlit("allow");
    reveal_strlit("warn");
    reveal_strlit("deny");
    reveal_strlit("none");
}

/// The digits of a number are decimal digits, and there is at least one.
pub proof fn lemma_digits_are_digits(n: nat)
    ensures
        digits(n).len() >= 1,
        forall|k: int| 0 <= k < digits(n).len() ==> '0' <= #[trigger] digits(n)[k] <= '9',
    decreases n,
{
    reveal_strlit("0123456789");
    if n >= 10 {
        lemma_digits_are_digits(n / 10);
    }
}

/// A priority is written with decimal digits only, after a minus sign where
/// it is negative.
pub proof fn lemma_decimal_is_plain(i: int)
    ensures
        forall|k: int|
            0 <= k < decimal(i).len() ==> {
                let c = #[trigger] decimal(i)[k];
                ('0' <= c <= '9') || (c == '-' && k == 0 && i < 0)
            },
{
    if i < 0 {
        lemma_digits_are_digits((-i) as nat);
        assert forall|k: int| 0 < k < decimal(i).len() implies '0' <= #[trigger] decimal(i)[k]
            <= '9' by {
            assert(decimal(i)[k] == digits((-i) as nat)[k - 1]);
        }
    } else {
        lemma_digits_are_digits(i as nat);
    }
}

/// Every name of a run needs no escaping.
pub open spec fn all_plain(names: Seq<Seq<char>>) -> bool {
    forall|i: int| 0 <= i < names.len() ==> is_plain(#[trigger] names[i])
}

/// No name of an override list needs escaping.
pub proof fn lemma_overrides_are_plain(profile: Profile)
    ensures
        all_plain(pedantic_allows()),
        all_plain(nursery_allows()),
        all_plain(complexity_allows()),
        all_plain(style_allows()),
        all_plain(cargo_allows(profile)),
{
    assert(is_plain("too_many_lines"@)) by {
        reveal_strlit("too_many_lines");
    }
    assert(is_plain("must_use_candidate"@)) by {
        reveal_strlit("must_use_candidate");
    }
    assert(is_plain("map_unwrap_or"@)) by {
        reveal_strlit("map_unwrap_or");
    }
    assert(is_plain("missing_errors_doc"@)) by {
        reveal_strlit("missing_errors_doc");
    }
    assert(is_plain("if_not_else"@)) by {
        reveal_strlit("if_not_else");
    }
    assert(is_plain("missing_const_for_fn"@)) by {
        reveal_strlit("missing_const_for_fn");
    }
    assert(is_plain("option_if_let_else"@)) by {
        reveal_strlit("option_if_let_else");
    }
    assert(is_plain("redundant_pub_crate"@)) by {
        reveal_strlit("redundant_pub_crate");
    }
    assert(is_plain("too_many_arguments"@)) by {
        reveal_strlit("too_many_arguments");
    }
    assert(is_plain("new_without_default"@)) by {
        reveal_strlit("new_without_default");
    }
    assert(is_plain("redundant_closure"@)) by {
        reveal_strlit("redundant_closure");
    }
    assert(is_plain("multiple_crate_versions"@)) by {
        reveal_strlit("multiple_crate_versions");
    }
    assert(is_plain("cargo_common_metadata"@)) by {
        reveal_strlit("cargo_common_metadata");
    }
}

/// No name of the selected restriction lints needs escaping.
pub proof fn lemma_restriction_exceptions_are_plain()
    ensures
        all_plain(restriction_exceptions()),
{
    reveal(restriction_exceptions);
    assert(is_plain("allow_attributes"@)) by {
        reveal_strlit("allow_attributes");
    }
    assert(is_plain("allow_attributes_without_reason"@)) by {
        reveal_strlit("allow_attributes_without_reason");
    }
    assert(is_plain("arithmetic_side_effects"@)) by {
        reveal_strlit("arithmetic_side_effects");
    }
    assert(is_plain("as_conversions"@)) by {
        reveal_strlit("as_conversions");
    }
    assert(is_plain("assertions_on_result_states"@)) by {
        reveal_strlit("assertions_on_result_states");
    }
    assert(is_plain("cfg_not_test"@)) by {
        reveal_strlit("cfg_not_test");
    }
    assert(is_plain("clone_on_ref_ptr"@)) by {
        reveal_strlit("clone_on_ref_ptr");
    }
    assert(is_plain("create_dir"@)) by {
        reveal_strlit("create_dir");
    }
    assert(is_plain("dbg_macro"@)) by {
        reveal_strlit("dbg_macro");
    }
    assert(is_plain("decimal_literal_representation"@)) by {
        reveal_strlit("decimal_literal_representation");
    }
    assert(is_plain("default_numeric_fallback"@)) by {
        reveal_strlit("default_numeric_fallback");
    }
    assert(is_plain("deref_by_slicing"@)) by {
        reveal_strlit("deref_by_slicing");
    }
    assert(is_plain("disallowed_script_idents"@)) by {
        reveal_strlit("disallowed_script_idents");
    }
    assert(is_plain("else_if_without_else"@)) by {
        reveal_strlit("else_if_without_else");
    }
    assert(is_plain("empty_drop"@)) by {
        reveal_strlit("empty_drop");
    }
    assert(is_plain("empty_enum_variants_with_brackets"@)) by {
        reveal_strlit("empty_enum_variants_with_brackets");
    }
    assert(is_plain("empty_structs_with_brackets"@)) by {
        reveal_strlit("empty_structs_with_brackets");
    }
    assert(is_plain("exit"@)) by {
        reveal_strlit("exit");
    }
    assert(is_plain("filetype_is_file"@)) by {
        reveal_strlit("filetype_is_file");
    }
    assert(is_plain("float_arithmetic"@)) by {
        reveal_strlit("float_arithmetic");
    }
    assert(is_plain("float_cmp_const"@)) by {
        reveal_strlit("float_cmp_const");
    }
    assert(is_plain("fn_to_numeric_cast_any"@)) by {
        reveal_strlit("fn_to_numeric_cast_any");
    }
    assert(is_plain("format_push_string"@)) by {
        reveal_strlit("format_push_string");
    }
    assert(is_plain("get_unwrap"@)) by {
        reveal_strlit("get_unwrap");
    }
    assert(is_plain("indexing_slicing"@)) by {
        reveal_strlit("indexing_slicing");
    }
    assert(is_plain("infinite_loop"@)) by {
        reveal_strlit("infinite_loop");
    }
    assert(is_plain("inline_asm_x86_att_syntax"@)) by {
        reveal_strlit("inline_asm_x86_att_syntax");
    }
    assert(is_plain("inline_asm_x86_intel_syntax"@)) by {
        reveal_strlit("inline_asm_x86_intel_syntax");
    }
    assert(is_plain("integer_division"@)) by {
        reveal_strlit("integer_division");
    }
    assert(is_plain("iter_over_hash_type"@)) by {
        reveal_strlit("iter_over_hash_type");
    }
    assert(is_plain("large_include_file"@)) by {
        reveal_strlit("large_include_file");
    }
    assert(is_plain("let_underscore_must_use"@)) by {
        reveal_strlit("let_underscore_must_use");
    }
    assert(is_plain("let_underscore_untyped"@)) by {
        reveal_strlit("let_underscore_untyped");
    }
    assert(is_plain("little_endian_bytes"@)) by {
        reveal_strlit("little_endian_bytes");
    }
    assert(is_plain("lossy_float_literal"@)) by {
        reveal_strlit("lossy_float_literal");
    }
    assert(is_plain("map_err_ignore"@)) by {
        reveal_strlit("map_err_ignore");
    }
    assert(is_plain("mem_forget"@)) by {
        reveal_strlit("mem_forget");
    }
    assert(is_plain("missing_assert_message"@)) by {
        reveal_strlit("missing_assert_message");
    }
    assert(is_plain("missing_asserts_for_indexing"@)) by {
        reveal_strlit("missing_asserts_for_indexing");
    }
    assert(is_plain("mixed_read_write_in_expression"@)) by {
        reveal_strlit("mixed_read_write_in_expression");
    }
    assert(is_plain("modulo_arithmetic"@)) by {
        reveal_strlit("modulo_arithmetic");
    }
    assert(is_plain("multiple_inherent_impl"@)) by {
        reveal_strlit("multiple_inherent_impl");
    }
    assert(is_plain("multiple_unsafe_ops_per_block"@)) by {
        reveal_strlit("multiple_unsafe_ops_per_block");
    }
    assert(is_plain("mutex_atomic"@)) by {
        reveal_strlit("mutex_atomic");
    }
    assert(is_plain("panic"@)) by {
        reveal_strlit("panic");
    }
    assert(is_plain("partial_pub_fields"@)) by {
        reveal_strlit("partial_pub_fields");
    }
    assert(is_plain("pattern_type_mismatch"@)) by {
        reveal_strlit("pattern_type_mismatch");
    }
    assert(is_plain("print_stderr"@)) by {
        reveal_strlit("print_stderr");
    }
    assert(is_plain("print_stdout"@)) by {
        reveal_strlit("print_stdout");
    }
    assert(is_plain("pub_without_shorthand"@)) by {
        reveal_strlit("pub_without_shorthand");
    }
    assert(is_plain("rc_buffer"@)) by {
        reveal_strlit("rc_buffer");
    }
    assert(is_plain("rc_mutex"@)) by {
        reveal_strlit("rc_mutex");
    }
    assert(is_plain("redundant_type_annotations"@)) by {
        reveal_strlit("redundant_type_annotations");
    }
    assert(is_plain("renamed_function_params"@)) by {
        reveal_strlit("renamed_function_params");
    }
    assert(is_plain("rest_pat_in_fully_bound_structs"@)) by {
        reveal_strlit("rest_pat_in_fully_bound_structs");
    }
    assert(is_plain("same_name_method"@)) by {
        reveal_strlit("same_name_method");
    }
    assert(is_plain("self_named_module_files"@)) by {
        reveal_strlit("self_named_module_files");
    }
    assert(is_plain("semicolon_inside_block"@)) by {
        reveal_strlit("semicolon_inside_block");
    }
    assert(is_plain("str_to_string"@)) by {
        reveal_strlit("str_to_string");
    }
    assert(is_plain("string_add"@)) by {
        reveal_strlit("string_add");
    }
    assert(is_plain("string_lit_chars_any"@)) by {
        reveal_strlit("string_lit_chars_any");
    }
    assert(is_plain("string_slice"@)) by {
        reveal_strlit("string_slice");
    }
    assert(is_plain("string_to_string"@)) by {
        reveal_strlit("string_to_string");
    }
    assert(is_plain("suspicious_xor_used_as_pow"@)) by {
        reveal_strlit("suspicious_xor_used_as_pow");
    }
    assert(is_plain("tests_outside_test_module"@)) by {
        reveal_strlit("tests_outside_test_module");
    }
    assert(is_plain("todo"@)) by {
        reveal_strlit("todo");
    }
    assert(is_plain("try_err"@)) by {
        reveal_strlit("try_err");
    }
    assert(is_plain("undocumented_unsafe_blocks"@)) by {
        reveal_strlit("undocumented_unsafe_blocks");
    }
    assert(is_plain("unimplemented"@)) by {
        reveal_strlit("unimplemented");
    }
    assert(is_plain("unnecessary_safety_comment"@)) by {
        reveal_strlit("unnecessary_safety_comment");
    }
    assert(is_plain("unnecessary_safety_doc"@)) by {
        reveal_strlit("unnecessary_safety_doc");
    }
    assert(is_plain("unnecessary_self_imports"@)) by {
        reveal_strlit("unnecessary_self_imports");
    }
    assert(is_plain("unneeded_field_pattern"@)) by {
        reveal_strlit("unneeded_field_pattern");
    }
    assert(is_plain("unseparated_literal_suffix"@)) by {
        reveal_strlit("unseparated_literal_suffix");
    }
    assert(is_plain("unused_result_ok"@)) by {
        reveal_strlit("unused_result_ok");
    }
    assert(is_plain("unwrap_used"@)) by {
        reveal_strlit("unwrap_used");
    }
    assert(is_plain("use_debug"@)) by {
        reveal_strlit("use_debug");
    }
    assert(is_plain("verbose_file_reads"@)) by {
        reveal_strlit("verbose_file_reads");
    }
}

/// No key and no level of a run of settings needs escaping.
pub open spec fn settings_are_plain(settings: Seq<SettingView>) -> bool {
    forall|i: int|
        0 <= i < settings.len() ==> is_plain((#[trigger] settings[i]).key()) && is_plain(
            settings[i].level().name(),
        )
}

/// No key and no level of a configuration needs escaping.
pub open spec fn config_is_plain(config: Seq<ConfigGroupView>) -> bool {
    forall|g: int| 0 <= g < config.len() ==> settings_are_plain((#[trigger] config[g]).settings)
}

/// The settings that allow plain names are plain.
proof fn lemma_allowed_are_plain(catalog: Seq<LintView>, group: LintGroup, ids: Seq<Seq<char>>)
    requires
        all_plain(ids),
        allow_outcome(catalog, group, ids) is Ok,
    ensures
        settings_are_plain(allow_outcome(catalog, group, ids)->Ok_0),
{
    let settings = allow_outcome(catalog, group, ids)->Ok_0;
    assert forall|i: int| 0 <= i < settings.len() implies is_plain((#[trigger] settings[i]).key())
        && is_plain(settings[i].level().name()) by {
        assert(is_plain(ids[i]));
        lemma_level_name_is_plain(LintLevel::Allow);
    }
}

/// The two halves of a split are plain where the lints of the group are.
proof fn lemma_halves_are_plain(
    catalog: Seq<LintView>,
    group: LintGroup,
    default_level: LintLevel,
    exception_level: LintLevel,
    ids: Seq<Seq<char>>,
)
    requires
        forall|i: int|
            0 <= i < catalog.len() && (#[trigger] catalog[i]).group == group ==> is_plain(
                catalog[i].id,
            ),
    ensures
        settings_are_plain(default_half(catalog, group, default_level, ids)),
        settings_are_plain(exception_half(catalog, group, exception_level, ids)),
{
    let defaults = default_half(catalog, group, default_level, ids);
    let exceptions = exception_half(catalog, group, exception_level, ids);
    lemma_split_covers_group(catalog, group, default_level, exception_level, ids);
    lemma_level_name_is_plain(default_level);
    lemma_level_name_is_plain(exception_level);
    assert forall|id: Seq<char>| group_ids(catalog, group).contains(id) implies is_plain(id) by {
        let i = choose|i: int| 0 <= i < catalog.len() && catalog[i] == (LintView { id, group });
        assert(is_plain(catalog[i].id));
    }
    assert forall|i: int| 0 <= i < defaults.len() implies is_plain((#[trigger] defaults[i]).key())
        && is_plain(defaults[i].level().name()) by {
        assert(setting_keys(defaults)[i] == defaults[i].key());
        assert(setting_keys(defaults).to_set().contains(defaults[i].key()));
        assert(group_ids(catalog, group).contains(defaults[i].key()));
    }
    assert forall|i: int| 0 <= i < exceptions.len() implies is_plain(
        (#[trigger] exceptions[i]).key(),
    ) && is_plain(exceptions[i].level().name()) by {
        assert(setting_keys(exceptions)[i] == exceptions[i].key());
        assert(setting_keys(exceptions).to_set().contains(exceptions[i].key()));
        assert(group_ids(catalog, group).contains(exceptions[i].key()));
    }
}

/// Where the names of the restriction lints of the catalog need no escaping,
/// no key and no level of the configuration does: every key is the name of a
/// group, a name of the policy or the name of a restriction lint.
pub proof fn lemma_config_is_plain(catalog: Seq<LintView>, profile: Profile)
    requires
        forall|i: int|
            0 <= i < catalog.len() && (#[trigger] catalog[i]).group == LintGroup::Restriction
                ==> is_plain(catalog[i].id),
        classified(catalog, profile) is Ok,
    ensures
        config_is_plain(classified(catalog, profile)->Ok_0),
{
    let config = classified(catalog, profile)->Ok_0;
    lemma_overrides_are_plain(profile);
    lemma_allowed_are_plain(catalog, LintGroup::Pedantic, pedantic_allows());
    lemma_allowed_are_plain(catalog, LintGroup::Nursery, nursery_allows());
    lemma_allowed_are_plain(catalog, LintGroup::Complexity, complexity_allows());
    lemma_allowed_are_plain(catalog, LintGroup::Style, style_allows());
    lemma_allowed_are_plain(catalog, LintGroup::Cargo, cargo_allows(profile));
    lemma_halves_are_plain(
        catalog,
        LintGroup::Restriction,
        LintLevel::Allow,
        LintLevel::Warn,
        restriction_exceptions(),
    );
    assert(settings_are_plain(enabled_groups())) by {
        assert forall|i: int| 0 <= i < enabled_groups().len() implies is_plain(
            (#[trigger] enabled_groups()[i]).key(),
        ) && is_plain(enabled_groups()[i].level().name()) by {
            lemma_group_name_is_plain(enabled_groups()[i]->Group_group);
            lemma_level_name_is_plain(enabled_groups()[i].level());
        }
    }
    assert forall|g: int| 0 <= g < config.len() implies settings_are_plain(
        (#[trigger] config[g]).settings,
    ) by {
        assert(0 <= g < 8);
    }
}

/// A plain text is an ASCII text.
pub proof fn lemma_plain_is_ascii(text: Seq<char>)
    requires
        is_plain(text),
    ensures
        is_ascii_chars(text),
{
    assert forall|i: int| 0 <= i < text.len() implies '\0' <= #[trigger] text[i] <= '\u{7f}' by {
        assert(is_plain_char(text[i]));
    }
}

/// Two ASCII texts, one after the other, are an ASCII text.
proof fn lemma_ascii_concat(front: Seq<char>, back: Seq<char>)
    requires
        is_ascii_chars(front),
        is_ascii_chars(back),
    ensures
        is_ascii_chars(front + back),
{
    assert forall|i: int| 0 <= i < (front + back).len() implies '\0' <= #[trigger] (front
        + back)[i] <= '\u{7f}' by {
        if i < front.len() {
            assert((front + back)[i] == front[i]);
        } else {
            assert((front + back)[i] == back[i - front.len()]);
        }
    }
}

/// The comment of every group and the key of every setting is ASCII.
pub open spec fn config_is_ascii(config: Seq<ConfigGroupView>) -> bool {
    forall|g: int|
        0 <= g < config.len() ==> {
            &&& (#[trigger] config[g]).comment matches Some(text) ==> is_ascii_chars(text)
            &&& settings_are_ascii(config[g].settings)
        }
}

/// The key of every setting is ASCII.
pub open spec fn settings_are_ascii(settings: Seq<SettingView>) -> bool {
    forall|i: int| 0 <= i < settings.len() ==> is_ascii_chars((#[trigger] settings[i]).key())
}

/// The line of a setting is ASCII where its key is.
proof fn lemma_setting_line_is_ascii(setting: SettingView)
    requires
        is_ascii_chars(setting.key()),
    ensures
        is_ascii_chars(setting_line(setting)),
{
    let level = setting.level().name();
    lemma_level_name_is_plain(setting.level());
    lemma_plain_is_ascii(level);
    match setting.priority() {
        PrioritySetting::Unspecified => {
            reveal_strlit(" = \"");
            reveal_strlit("\"");
            lemma_ascii_concat(setting.key(), " = \""@);
            lemma_ascii_concat(setting.key() + " = \""@, level);
            lemma_ascii_concat(setting.key() + " = \""@ + level, "\""@);
        },
        PrioritySetting::Explicit(priority) => {
            reveal_strlit(" = { level = \"");
            reveal_strlit("\", priority = ");
            reveal_strlit(" }");
            let number = decimal(priority as int);
            lemma_decimal_is_plain(priority as int);
            assert(is_ascii_chars(number));
            let to_key = setting.key() + " = { level = \""@;
            lemma_ascii_concat(setting.key(), " = { level = \""@);
            lemma_ascii_concat(to_key, level);
            lemma_ascii_concat(to_key + level, "\", priority = "@);
            lemma_ascii_concat(to_key + level + "\", priority = "@, number);
            lemma_ascii_concat(to_key + level + "\", priority = "@ + number, " }"@);
        },
    }
}

/// The lines of a run of settings are ASCII where the keys are.
proof fn lemma_setting_lines_are_ascii(settings: Seq<SettingView>)
    requires
        settings_are_ascii(settings),
    ensures
        is_ascii_chars(setting_lines(settings)),
    decreases settings.len(),
{
    if settings.len() == 1 {
        lemma_setting_line_is_ascii(settings[0]);
    } else if settings.len() > 1 {
        let front = settings.drop_last();
        assert forall|i: int| 0 <= i < front.len() implies is_ascii_chars(
            (#[trigger] front[i]).key(),
        ) by {
            assert(front[i] == settings[i]);
        }
        lemma_setting_lines_are_ascii(front);
        lemma_setting_line_is_ascii(settings.last());
        reveal_strlit("\n");
        lemma_ascii_concat(setting_lines(front), "\n"@);
        lemma_ascii_concat(setting_lines(front) + "\n"@, setting_line(settings.last()));
    }
}

/// The text of a group is ASCII where its comment and its keys are.
proof fn lemma_group_text_is_ascii(group: ConfigGroupView)
    requires
        group.comment matches Some(text) ==> is_ascii_chars(text),
        settings_are_ascii(group.settings),
    ensures
        is_ascii_chars(group_text(group)),
        is_ascii_chars(group_break(group)),
{
    reveal_strlit("# ");
    reveal_strlit("\n");
    reveal_strlit("\n\n");
    if let Some(text) = group.comment {
        lemma_ascii_concat("# "@, text);
        lemma_ascii_concat("# "@ + text, "\n"@);
    }
    lemma_setting_lines_are_ascii(group.settings);
    lemma_ascii_concat(comment_line(group.comment), setting_lines(group.settings));
}

/// The text of a run of groups is ASCII where the comments and the keys are.
proof fn lemma_groups_text_is_ascii(groups: Seq<ConfigGroupView>)
    requires
        config_is_ascii(groups),
    ensures
        is_ascii_chars(groups_text(groups)),
    decreases groups.len(),
{
    if groups.len() == 1 {
        lemma_group_text_is_ascii(groups[0]);
    } else if groups.len() > 1 {
        let front = groups.drop_last();
        assert forall|g: int| 0 <= g < front.len() implies {
            &&& (#[trigger] front[g]).comment matches Some(text) ==> is_ascii_chars(text)
            &&& settings_are_ascii(front[g].settings)
        } by {
            assert(front[g] == groups[g]);
        }
        lemma_groups_text_is_ascii(front);
        lemma_group_text_is_ascii(groups[groups.len() - 2]);
        lemma_group_text_is_ascii(groups.last());
        lemma_ascii_concat(groups_text(front), group_break(groups[groups.len() - 2]));
        lemma_ascii_concat(
            groups_text(front) + group_break(groups[groups.len() - 2]),
            group_text(groups.last()),
        );
    }
}

/// The text of a configuration is ASCII where its comments and its keys are:
/// all that the emitter adds of its own is ASCII.
pub proof fn lemma_rendered_is_ascii(config: Seq<ConfigGroupView>, workspace: bool)
    requires
        config_is_ascii(config),
    ensures
        is_ascii_chars(rendered(config, workspace)),
{
    reveal_strlit("[workspace.lints.clippy]\n");
    reveal_strlit("[lints.clippy]\n");
    lemma_groups_text_is_ascii(config);
    lemma_ascii_concat(header(workspace), groups_text(config));
}

/// Where the names of the restriction lints of the catalog need no escaping,
/// the text that is generated for the catalog is ASCII.
pub proof fn lemma_generated_is_ascii(catalog: Seq<LintView>, profile: Profile, workspace: bool)
    requires
        forall|i: int|
            0 <= i < catalog.len() && (#[trigger] catalog[i]).group == LintGroup::Restriction
                ==> is_plain(catalog[i].id),
        generated(catalog, profile, workspace) is Ok,
    ensures
        is_ascii_chars(generated(catalog, profile, workspace)->Ok_0),
{
    let config = classified(catalog, profile)->Ok_0;
    lemma_config_is_plain(catalog, profile);
    reveal_strlit("enabled groups");
    reveal_strlit("pedantic overrides");
    reveal_strlit("nursery overrides");
    reveal_strlit("complexity overrides");
    reveal_strlit("style overrides");
    reveal_strlit("cargo overrides");
    reveal_strlit("selected restrictions");
    reveal_strlit("restrictions explicit allows");
    assert forall|g: int| 0 <= g < config.len() implies {
        &&& (#[trigger] config[g]).comment matches Some(text) ==> is_ascii_chars(text)
        &&& settings_are_ascii(config[g].settings)
    } by {
        assert(0 <= g < 8);
        let settings = config[g].settings;
        assert(settings_are_plain(settings));
        assert forall|i: int| 0 <= i < settings.len() implies is_ascii_chars(
            (#[trigger] settings[i]).key(),
        ) by {
            lemma_plain_is_ascii(settings[i].key());
        }
    }
    lemma_rendered_is_ascii(config, workspace);
}

} // verus!
