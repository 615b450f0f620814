//! RustPress SDK: hooks, plugins, themes and apps for RustPress.
//!
//! The verified core of the SDK: the trigger grammar, hook definitions and
//! their validation, metadata builders, identifier composition, retry
//! back-off decisions, the event-handler registry and the project
//! scaffolding used by the command-line tool.
mod events;
mod hooks;
mod http;
mod ids;
mod metadata;
mod names;
mod retry;
mod scaffold;
mod templates;
mod text;
mod trigger;
mod types;

pub use events::{handlers_for, lemma_on_then_emit, lemma_unregistered_event, HandlerRegistry};
pub use hooks::{
    after_hook, ascii_sanitize, auto_hook_name, auto_name, before_hook, char_is_alphanumeric,
    chosen_hook_name, define_hook, hook_outcome, lemma_auto_name_chars, lemma_define_hook_trigger,
    sanitize_name, HookFunction,
};
pub use http::request_url;
pub use ids::{
    compose_id, generate_id, hex_digit, hex_text, id_text, is_lower_hex, is_uuid_text,
    lemma_hex_text_digits, lemma_id_text_shape, opt_slice_view,
};
pub use metadata::{
    default_enabled, default_priority, new_hook_metadata, new_plugin_metadata, opt_str_view,
    HookMetadata, HookMetadataView, PluginMetadata, PluginMetadataView,
};
pub use names::{
    ascii_lower, ascii_struct_name, ascii_struct_name_piece, ascii_struct_name_prefix,
    ascii_upper, char_uppercase, lemma_ascii_struct_name_prefix, lemma_ascii_upper_ascii,
    lemma_snake_case_chars, lemma_struct_name_dash, lemma_struct_name_word, snake_case,
    struct_name_piece, struct_name_prefix, struct_name_text, text_lowercase, to_snake_case,
    to_struct_name,
};
pub use retry::{
    attempts_made, backoff_delay, backoff_fits, backoff_ms, lemma_attempts_made,
    lemma_last_attempt_finishes, lemma_pow2_le, lemma_success_finishes, lemma_wait_at_most_max,
    lemma_waits_grow, retry_action, spec_retry_action, RetryAction, RetryOptions,
};
pub use scaffold::{
    ascii_lib_source_text, build_output_dir, cargo_build_args, config_errors, is_project_type,
    lemma_validation_errors, lemma_validation_warnings, lib_source_text, marketplace_url,
    new_config_fields, project_lib_source, rustpress_config, scaffold_project, validation_errors,
    validation_report, validation_warnings, ProjectFiles,
    RustPressConfig, RustPressMinVersion, ValidationReport,
};
pub use text::{all_ascii, is_ascii_alnum};
pub use templates::{
    app_lib_text, cargo_toml_text, generate_app_lib, generate_cargo_toml, generate_hook_lib,
    generate_plugin_lib, generate_readme, generate_theme_lib, hook_lib_text, plugin_lib_text,
    readme_text, theme_lib_text,
};
pub use trigger::{
    build_trigger, dot_count, is_name_char, is_name_segment, is_plugin_char, is_plugin_segment,
    is_segment_char, is_trigger, is_valid_trigger, lemma_built_trigger_valid,
    lemma_parse_spec_of_text, lemma_text_of_parse_spec, lemma_trigger_layout,
    lemma_trigger_shape, lemma_trigger_unique, parse_spec, parse_trigger, parts_view,
    trigger_prefix, trigger_suffix,
    trigger_text, well_formed_parts, TriggerParts,
};
pub use types::{
    AppMetadata, ContentStatus, NotificationChannel, NotificationType, SdkError, ThemeMetadata,
    TriggerTiming,
};
