mod cmake_integration;
mod config;
mod exemplar;
mod manifest;
mod text;
mod toml_data;
mod types;

pub use cmake_integration::{
    CmakeConfigurationError, SpecCmakeError, spec_cmake_message, validate_cargo_target,
};
pub use config::{
    ConfigError, ManifestDiscoveryError, SpecDiscoveryError, SpecError,
    lemma_resolved_properties_unique, lemma_resolved_properties_whitelisted, resolve_fel4_config,
    resolve_fel4_config_with_policy, spec_add_properties, spec_assoc, spec_discovery_message,
    spec_find_target, spec_has_name, spec_is_whitelisted, spec_message, spec_names_unique,
    spec_quoted_list, spec_quoted_open, spec_resolve, spec_resolve_with, spec_whitelist_check,
};
pub use exemplar::get_exemplar_default_toml;
pub use manifest::{
    FullFel4Manifest, FullFel4Target, SpecHeader, SpecManifest, SpecTarget,
    lemma_header_invalid_platform, lemma_header_invalid_target, lemma_header_missing_artifact_path,
    lemma_header_missing_platform, lemma_header_missing_target,
    lemma_header_missing_target_specs_path, lemma_parse_deterministic,
    lemma_target_unexpected_structure, parse_full_manifest, spec_collect_platforms,
    spec_collect_profiles, spec_collect_targets, spec_extract_direct, spec_extract_flat,
    spec_is_axis_name, spec_manifest_of, spec_parse_full_manifest, spec_parse_header,
    spec_path_field, spec_process_target, spec_string_at, spec_structure_check,
    toml_to_full_manifest,
};
pub use toml_data::{SpecToml, spec_entries_model, spec_lookup, toml_document, toml_value_model};
pub use types::{
    BuildProfile, Fel4Config, FlatTomlProperty, FlatTomlValue, SpecConfig, SpecProperty,
    SpecScalar, SupportedPlatform, SupportedTarget, lemma_platform_from_str_unknown,
    lemma_platform_name_round_trip, lemma_profile_from_str_unknown, lemma_profile_name_round_trip,
    lemma_target_from_str_unknown, lemma_target_name_round_trip, res_view, spec_platform_from_str,
    spec_platform_name, spec_platform_names, spec_platforms, spec_profile_from_str,
    spec_profile_name, spec_profile_names, spec_profiles, spec_property_value,
    spec_target_from_str, spec_target_name, spec_target_names, spec_targets,
};
