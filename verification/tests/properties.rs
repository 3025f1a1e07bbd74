use fel4_config::{
    BuildProfile, CmakeConfigurationError, ConfigError, FlatTomlValue, ManifestDiscoveryError,
    SupportedPlatform,
    SupportedTarget, get_exemplar_default_toml, parse_full_manifest, resolve_fel4_config,
    resolve_fel4_config_with_policy, validate_cargo_target,
};

#[test]
fn parsing_is_deterministic_for_equal_documents() {
    let a = parse_full_manifest(get_exemplar_default_toml());
    let b = parse_full_manifest(get_exemplar_default_toml());
    assert_eq!(a, b);
}

#[test]
fn target_names_round_trip() {
    for t in SupportedTarget::targets() {
        assert_eq!(Ok(t), SupportedTarget::from_str(t.full_name()));
    }
    assert_eq!(
        Ok(SupportedTarget::X8664Sel4Fel4),
        SupportedTarget::from_str("x86_64-sel4-fel4")
    );
    assert_eq!(
        Ok(SupportedTarget::Armv7Sel4Fel4),
        SupportedTarget::from_str("armv7-sel4-fel4")
    );
    assert_eq!(
        Err("made-up-target".to_string()),
        SupportedTarget::from_str("made-up-target")
    );
}

#[test]
fn platform_names_round_trip() {
    for p in SupportedPlatform::platforms() {
        assert_eq!(Ok(p), SupportedPlatform::from_str(p.full_name()));
    }
    assert_eq!(Ok(SupportedPlatform::PC99), SupportedPlatform::from_str("pc99"));
    assert_eq!(Ok(SupportedPlatform::Sabre), SupportedPlatform::from_str("sabre"));
    assert_eq!(Err("pc98".to_string()), SupportedPlatform::from_str("pc98"));
}

#[test]
fn build_profile_names_round_trip() {
    for b in BuildProfile::build_profiles() {
        assert_eq!(Ok(b), BuildProfile::from_str(b.full_name()));
    }
    assert_eq!(Ok(BuildProfile::Debug), BuildProfile::from_str("debug"));
    assert_eq!(Ok(BuildProfile::Release), BuildProfile::from_str("release"));
    assert_eq!(Err("profiling".to_string()), BuildProfile::from_str("profiling"));
}

#[test]
fn enumeration_name_lists_match_variants() {
    assert_eq!(
        vec!["x86_64-sel4-fel4".to_string(), "armv7-sel4-fel4".to_string()],
        SupportedTarget::target_names()
    );
    assert_eq!(
        vec!["pc99".to_string(), "sabre".to_string()],
        SupportedPlatform::platform_names()
    );
    assert_eq!(
        vec!["debug".to_string(), "release".to_string()],
        BuildProfile::build_profile_names()
    );
}

#[test]
fn empty_target_string_is_treated_as_missing() {
    assert_eq!(
        Err(ConfigError::MissingRequiredProperty(
            "fel4".into(),
            "target".into()
        )),
        parse_full_manifest(
            r#"[fel4]
            target = """#
        )
    );
}

#[test]
fn non_string_target_is_treated_as_missing() {
    assert_eq!(
        Err(ConfigError::MissingRequiredProperty(
            "fel4".into(),
            "target".into()
        )),
        parse_full_manifest(
            r#"[fel4]
            target = 42"#
        )
    );
}

#[test]
fn empty_artifact_path_is_treated_as_missing() {
    assert_eq!(
        Err(ConfigError::MissingRequiredProperty(
            "fel4".into(),
            "artifact-path".into()
        )),
        parse_full_manifest(
            r#"[fel4]
            target = "x86_64-sel4-fel4"
            platform = "pc99"
            artifact-path = ""
            target-specs-path = "specs""#
        )
    );
}

#[test]
fn array_in_target_under_unrecognized_name_is_unexpected_structure() {
    assert_eq!(
        Err(ConfigError::UnexpectedStructure("x86_64-sel4-fel4.custom".into())),
        parse_full_manifest(
            r#"[fel4]
            target = "x86_64-sel4-fel4"
            platform = "pc99"
            artifact-path = "artifacts"
            target-specs-path = "specs"
            [x86_64-sel4-fel4]
            custom = [1, 2, 3]
            "#
        )
    );
}

#[test]
fn array_under_profile_name_is_tolerated_but_not_an_overlay() {
    let manifest = parse_full_manifest(
        r#"[fel4]
        target = "x86_64-sel4-fel4"
        platform = "pc99"
        artifact-path = "artifacts"
        target-specs-path = "specs"
        [x86_64-sel4-fel4]
        debug = [1, 2, 3]
        [x86_64-sel4-fel4.pc99]
        KernelX86MicroArch = "nehalem"
        "#,
    )
    .expect("An array under an axis name is skipped, not an error");
    assert_eq!(
        Err(ConfigError::MissingTable("x86_64-sel4-fel4.debug".into())),
        resolve_fel4_config(&manifest, &BuildProfile::Debug)
    );
}

#[test]
fn missing_profile_subtable_fails_resolution_with_dotted_name() {
    let manifest = parse_full_manifest(
        r#"[fel4]
        target = "x86_64-sel4-fel4"
        platform = "pc99"
        artifact-path = "artifacts"
        target-specs-path = "specs"
        [x86_64-sel4-fel4]
        KernelArch = "x86"
        [x86_64-sel4-fel4.pc99]
        KernelX86MicroArch = "nehalem"
        "#,
    )
    .expect("Should have been able to parse manifest");
    assert_eq!(
        Err(ConfigError::MissingTable("x86_64-sel4-fel4.debug".into())),
        resolve_fel4_config(&manifest, &BuildProfile::Debug)
    );
}

#[test]
fn missing_platform_subtable_fails_resolution_with_dotted_name() {
    let manifest = parse_full_manifest(
        r#"[fel4]
        target = "x86_64-sel4-fel4"
        platform = "pc99"
        artifact-path = "artifacts"
        target-specs-path = "specs"
        [x86_64-sel4-fel4]
        KernelArch = "x86"
        [x86_64-sel4-fel4.debug]
        KernelPrinting = true
        "#,
    )
    .expect("Should have been able to parse manifest");
    assert_eq!(
        Err(ConfigError::MissingTable("x86_64-sel4-fel4.pc99".into())),
        resolve_fel4_config(&manifest, &BuildProfile::Debug)
    );
}

#[test]
fn empty_profile_subtable_is_declared_and_contributes_nothing() {
    let manifest = parse_full_manifest(
        r#"[fel4]
        target = "x86_64-sel4-fel4"
        platform = "pc99"
        artifact-path = "artifacts"
        target-specs-path = "specs"
        [x86_64-sel4-fel4]
        KernelArch = "x86"
        [x86_64-sel4-fel4.debug]
        [x86_64-sel4-fel4.pc99]
        KernelX86MicroArch = "nehalem"
        "#,
    )
    .expect("Should have been able to parse manifest");
    let config = resolve_fel4_config(&manifest, &BuildProfile::Debug)
        .expect("A declared-but-empty profile subtable is not an error");
    assert_eq!(2, config.properties.len());
}

#[test]
fn duplicate_across_profile_and_platform_is_caught() {
    let manifest = parse_full_manifest(
        r#"[fel4]
        target = "x86_64-sel4-fel4"
        platform = "pc99"
        artifact-path = "artifacts"
        target-specs-path = "specs"
        [x86_64-sel4-fel4]
        KernelArch = "x86"
        [x86_64-sel4-fel4.debug]
        KernelPrinting = true
        [x86_64-sel4-fel4.pc99]
        KernelPrinting = false
        "#,
    )
    .expect("Should have been able to parse manifest");
    assert_eq!(
        Err(ConfigError::DuplicateProperty("KernelPrinting".into())),
        resolve_fel4_config(&manifest, &BuildProfile::Debug)
    );
}

#[test]
fn consistent_manifest_resolves_with_expected_properties() {
    let manifest = parse_full_manifest(
        r#"[fel4]
        target = "x86_64-sel4-fel4"
        platform = "pc99"
        artifact-path = "artifacts"
        target-specs-path = "specs"
        [x86_64-sel4-fel4]
        KernelArch = "x86"
        [x86_64-sel4-fel4.debug]
        KernelDebugBuild = true
        [x86_64-sel4-fel4.pc99]
        KernelX86MicroArch = "nehalem"
        "#,
    )
    .expect("Should have been able to parse manifest");
    let config = resolve_fel4_config(&manifest, &BuildProfile::Debug)
        .expect("Should have been able to resolve config");
    assert_eq!(SupportedTarget::X8664Sel4Fel4, config.target);
    assert_eq!(SupportedPlatform::PC99, config.platform);
    assert_eq!(BuildProfile::Debug, config.build_profile);
    assert_eq!("artifacts", config.artifact_path);
    assert_eq!("specs", config.target_specs_path);
    assert_eq!(
        Some(&FlatTomlValue::String("x86".to_string())),
        config.property("KernelArch")
    );
    assert_eq!(
        Some(&FlatTomlValue::Boolean(true)),
        config.property("KernelDebugBuild")
    );
    assert_eq!(
        Some(&FlatTomlValue::String("nehalem".to_string())),
        config.property("KernelX86MicroArch")
    );
    assert_eq!(None, config.property("KernelPrinting"));
}

#[test]
fn exemplar_resolves_for_both_profiles() {
    let manifest = parse_full_manifest(get_exemplar_default_toml())
        .expect("Should be able to get the default fel4.toml");
    let debug = resolve_fel4_config(&manifest, &BuildProfile::Debug)
        .expect("Should resolve for debug");
    assert_eq!(
        Some(&FlatTomlValue::Boolean(true)),
        debug.property("KernelDebugBuild")
    );
    let release = resolve_fel4_config(&manifest, &BuildProfile::Release)
        .expect("Should resolve for release");
    assert_eq!(
        Some(&FlatTomlValue::Boolean(false)),
        release.property("KernelDebugBuild")
    );
}

#[test]
fn every_scalar_kind_is_extracted_verbatim() {
    let manifest = parse_full_manifest(
        r#"[fel4]
        target = "x86_64-sel4-fel4"
        platform = "pc99"
        artifact-path = "artifacts"
        target-specs-path = "specs"
        [x86_64-sel4-fel4]
        SomeString = "hello"
        SomeInteger = 42
        SomeFloat = 1.5
        SomeBoolean = true
        SomeDatetime = 1979-05-27T07:32:00Z
        "#,
    )
    .expect("Should have been able to parse manifest");
    let target = &manifest.targets[0];
    assert_eq!(SupportedTarget::X8664Sel4Fel4, target.identity);
    let find = |name: &str| {
        target
            .direct_properties
            .iter()
            .find(|p| p.name == name)
            .map(|p| p.value.clone())
    };
    assert_eq!(Some(FlatTomlValue::String("hello".to_string())), find("SomeString"));
    assert_eq!(Some(FlatTomlValue::Integer(42)), find("SomeInteger"));
    assert_eq!(Some(FlatTomlValue::Float((1.5f64).to_bits())), find("SomeFloat"));
    assert_eq!(Some(FlatTomlValue::Boolean(true)), find("SomeBoolean"));
    assert_eq!(
        Some(FlatTomlValue::Datetime("1979-05-27T07:32:00Z".to_string())),
        find("SomeDatetime")
    );
}

#[test]
fn exemplar_parses_both_targets_with_their_overlays() {
    let manifest = parse_full_manifest(get_exemplar_default_toml())
        .expect("Should be able to get the default fel4.toml");
    assert_eq!("artifacts", manifest.artifact_path);
    assert_eq!("target_specs", manifest.target_specs_path);
    assert_eq!(SupportedTarget::X8664Sel4Fel4, manifest.selected_target);
    assert_eq!(SupportedPlatform::PC99, manifest.selected_platform);
    assert_eq!(2, manifest.targets.len());
    let x86 = &manifest.targets[0];
    assert_eq!(SupportedTarget::X8664Sel4Fel4, x86.identity);
    assert!(
        x86.direct_properties
            .iter()
            .any(|p| p.name == "BuildWithCommonSimulationSettings")
    );
    assert_eq!(2, x86.build_profile_properties.len());
    assert_eq!(BuildProfile::Debug, x86.build_profile_properties[0].0);
    assert_eq!(BuildProfile::Release, x86.build_profile_properties[1].0);
    let armv7 = &manifest.targets[1];
    assert_eq!(SupportedTarget::Armv7Sel4Fel4, armv7.identity);
    assert_eq!(
        Some(&FlatTomlValue::String("aarch32".to_string())),
        armv7
            .direct_properties
            .iter()
            .find(|p| p.name == "KernelArmSel4Arch")
            .map(|p| &p.value)
    );
    assert_eq!(1, armv7.platform_properties.len());
    assert_eq!(SupportedPlatform::Sabre, armv7.platform_properties[0].0);
}

#[test]
fn cargo_target_agreement_is_validated() {
    let manifest = parse_full_manifest(get_exemplar_default_toml())
        .expect("Should be able to get the default fel4.toml");
    let config = resolve_fel4_config(&manifest, &BuildProfile::Debug)
        .expect("Trouble in config resolution");
    assert_eq!(Ok(()), validate_cargo_target(&config, "x86_64-sel4-fel4"));
    assert_eq!(
        Err(CmakeConfigurationError::CargoTargetToFel4TargetMismatch(
            "arm-sel4-fel4".to_string(),
            "x86_64-sel4-fel4".to_string()
        )),
        validate_cargo_target(&config, "arm-sel4-fel4")
    );
}

#[test]
fn error_messages_are_descriptive() {
    assert_eq!(
        "The [fel4] table requires the target property, but it is absent.",
        ConfigError::MissingRequiredProperty("fel4".into(), "target".into()).message()
    );
    assert_eq!(
        "The fel4 manifest file is missing the x86_64-sel4-fel4 table",
        ConfigError::MissingTable("x86_64-sel4-fel4".into()).message()
    );
    assert_eq!(
        "The target property should be one of [\"x86_64-sel4-fel4\", \"armv7-sel4-fel4\"], but is instead wrong",
        ConfigError::InvalidValueOption(
            "target".into(),
            SupportedTarget::target_names(),
            "wrong".into()
        )
        .message()
    );
    assert_eq!(
        "The fel4 manifest had a duplicate property KernelPrinting when resolved to a canonical set",
        ConfigError::DuplicateProperty("KernelPrinting".into()).message()
    );
    assert_eq!(
        "Missing the required CARGO_MANIFEST_DIR environment variable",
        CmakeConfigurationError::MissingRequiredEnvVar("CARGO_MANIFEST_DIR".into()).message()
    );
    assert_eq!(
        "Required environment variable FEL4_MANIFEST_PATH was absent",
        ManifestDiscoveryError::MissingEnvVar("FEL4_MANIFEST_PATH".into()).message()
    );
    assert_eq!(
        "The PROFILE environment variable had a value production that could not be interpreted as a BuildProfile instance",
        ManifestDiscoveryError::InvalidBuildProfile("production".into()).message()
    );
    assert_eq!(
        "Cargo is attempting to build for the arm-sel4-fel4 target, however fel4.toml has declared the target to be x86_64-sel4-fel4",
        CmakeConfigurationError::CargoTargetToFel4TargetMismatch(
            "arm-sel4-fel4".into(),
            "x86_64-sel4-fel4".into()
        )
        .message()
    );
}

#[test]
fn scalar_under_axis_name_in_target_is_dropped() {
    let manifest = parse_full_manifest(
        r#"[fel4]
        target = "x86_64-sel4-fel4"
        platform = "pc99"
        artifact-path = "artifacts"
        target-specs-path = "specs"
        [x86_64-sel4-fel4]
        debug = 5
        KernelArch = "x86"
        "#,
    )
    .expect("A scalar under an axis name is filtered, not an error");
    let target = &manifest.targets[0];
    assert!(target.direct_properties.iter().all(|p| p.name != "debug"));
    assert_eq!(1, target.direct_properties.len());
    assert!(target.build_profile_properties.is_empty());
}

#[test]
fn whitelist_policy_flag_controls_enforcement() {
    let manifest = parse_full_manifest(
        r#"[fel4]
        target = "x86_64-sel4-fel4"
        platform = "pc99"
        artifact-path = "artifacts"
        target-specs-path = "specs"
        [x86_64-sel4-fel4]
        KernelArch = "x86"
        [x86_64-sel4-fel4.debug]
        KernelPrinting = true
        [x86_64-sel4-fel4.pc99]
        SomeUnallowedProperty = "foo"
        "#,
    )
    .expect("Should have been able to parse manifest");
    assert_eq!(
        Err(ConfigError::NonWhitelistProperty("SomeUnallowedProperty".into())),
        resolve_fel4_config_with_policy(&manifest, &BuildProfile::Debug, true)
    );
    let relaxed = resolve_fel4_config_with_policy(&manifest, &BuildProfile::Debug, false)
        .expect("Without enforcement the merge alone decides");
    assert_eq!(
        Some(&FlatTomlValue::String("foo".to_string())),
        relaxed.property("SomeUnallowedProperty")
    );
}
