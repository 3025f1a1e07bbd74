use fel4_config::{
    BuildProfile, ConfigError, get_exemplar_default_toml, parse_full_manifest,
    resolve_fel4_config,
};

#[test]
fn exemplar_toml_calls_return_identical() {
    let a = get_exemplar_default_toml();
    let b = get_exemplar_default_toml();
    assert_eq!(a, b);
}

#[test]
fn exemplar_toml_is_fully_valid() {
    let full = parse_full_manifest(get_exemplar_default_toml())
        .expect("Should be able to get the default fel4.toml");
    let _ = resolve_fel4_config(&full, &BuildProfile::Debug)
        .expect("Should be able to resolve config");
}

#[test]
fn missing_selected_target_get_caught_in_config_resolution() {
    let manifest = parse_full_manifest(
        r#"[fel4]
        target = "x86_64-sel4-fel4"
        platform = "pc99"
        artifact-path = "artifacts/path/nested"
        target-specs-path = "where/are/rust/targets"
        [arm-sel4-fel4]
        KernelOptimisation = "-O2"
        [arm-sel4-fel4.debug]
        KernelPrinting = true
        "#,
    )
    .expect("Should have been able to parse manifest");
    assert_eq!(
        Err(ConfigError::MissingTable("x86_64-sel4-fel4".into())),
        resolve_fel4_config(&manifest, &BuildProfile::Debug)
    );
}

#[test]
fn duplicate_property_gets_caught_in_config_resolution() {
    let manifest = parse_full_manifest(
        r#"[fel4]
        target = "x86_64-sel4-fel4"
        platform = "pc99"
        artifact-path = "artifacts/path/nested"
        target-specs-path = "where/are/rust/targets"

        [x86_64-sel4-fel4]
        KernelPrinting = false

        [x86_64-sel4-fel4.debug]
        KernelPrinting = true

        [x86_64-sel4-fel4.pc99]
        KernelX86MicroArch = "nehalem"
        "#,
    )
    .expect("Should have been able to parse manifest");
    assert_eq!(
        Err(ConfigError::DuplicateProperty("KernelPrinting".into())),
        resolve_fel4_config(&manifest, &BuildProfile::Debug)
    );
}

#[test]
fn non_whitelist_property_gets_caught_in_config_resolution() {
    let manifest = parse_full_manifest(
        r#"[fel4]
        target = "x86_64-sel4-fel4"
        platform = "pc99"
        artifact-path = "artifacts/path/nested"
        target-specs-path = "where/are/rust/targets"

        [x86_64-sel4-fel4]
        KernelArch = "x86"

        [x86_64-sel4-fel4.debug]
        KernelPrinting = true

        [x86_64-sel4-fel4.pc99]
        SomeUnallowedProperty = "foo"
        "#,
    )
    .expect("Should have been able to parse manifest");
    assert_eq!(
        Err(ConfigError::NonWhitelistProperty("SomeUnallowedProperty".into())),
        resolve_fel4_config(&manifest, &BuildProfile::Debug)
    );
}
