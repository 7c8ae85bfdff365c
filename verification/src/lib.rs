//! Layered configuration resolution with a typed value model.
//!
//! A [`ConfigurationBuilder`] merges ordered override layers (compiled-in
//! defaults, a config file, environment variables, command-line arguments)
//! into one keyed mapping of [`ParamValue`]s and finalizes it as an immutable
//! [`Config`]. Components hydrate their own typed settings from that mapping
//! through the [`Configurable`] capability and report them back out for
//! introspection.

mod builder;
mod config;
mod defaults;
mod digits;
mod error;
mod laws;
mod metadata;
mod store;
mod sync;
mod value;

pub use builder::ConfigurationBuilder;
pub use config::Config;
pub use defaults::{first_nl_from, first_sep, first_sep_from, interp_target, is_blank, is_comment,
    is_interp, lines_from, parse_common_value, resolve_raw, run_lines, sep_at, spec_lines,
    step_line};
pub use digits::{all_dec_digits, dec_digit_char, dec_str, dec_val, digit_val, int_dec_str,
    is_dec_digit, parses_as_dec};
pub use error::{ConfigError, ErrorModel};
pub use laws::{dump_pairs, last_def, layer_defines, lemma_apply_pairs_absent,
    lemma_apply_pairs_defined, lemma_cli_only_preserves_defaults, lemma_conversion_idempotent,
    lemma_default_survives, lemma_dump_rehydrate, lemma_forward_reference_fails,
    lemma_latest_layer_wins, lemma_run_lines_split, record_raw};
pub use metadata::{opt_string_model, opt_value_model, MetadataModel, ParamMetadata};
pub use store::{apply_pairs, entries_map, layer_model};
pub use sync::{dump_meta, dur_ok, dur_val, spec_dump, spec_hydrate, triples_model, u32_ok, u32_val,
    Configurable, SyncConfig};
pub use value::{as_duration_secs, as_mapping, as_path, as_signed_size, as_text, as_u32, as_u64,
    as_unsigned_size, json_string_map_of, mapping_model, string_pairs_model, ParamValue,
    ValueModel};
