use fel4_config::{
    ConfigError, SupportedPlatform, SupportedTarget, parse_full_manifest,
};

#[test]
fn non_toml_file_unparseable() {
    assert_eq!(
        Err(ConfigError::TomlParseFailure),
        parse_full_manifest("<hey>not toml</hey>")
    );
}

#[test]
fn toml_file_without_fel4_table() {
    assert_eq!(
        Err(ConfigError::MissingTable("fel4".into())),
        parse_full_manifest(
            "just = true
            some = \"unrelated property\""
        )
    );
}

#[test]
fn fel4_table_missing_target() {
    assert_eq!(
        Err(ConfigError::MissingRequiredProperty(
            "fel4".into(),
            "target".into()
        )),
        parse_full_manifest(
            r#"[fel4]
            wrong_properties = true"#
        )
    );
}

#[test]
fn fel4_table_invalid_target() {
    assert_eq!(
        Err(ConfigError::InvalidValueOption(
            "target".into(),
            SupportedTarget::target_names(),
            "wrong".into()
        )),
        parse_full_manifest(
            r#"[fel4]
            target = "wrong""#
        )
    );
}

#[test]
fn fel4_table_missing_platform() {
    assert_eq!(
        Err(ConfigError::MissingRequiredProperty(
            "fel4".into(),
            "platform".into()
        )),
        parse_full_manifest(
            r#"[fel4]
            target = "x86_64-sel4-fel4""#
        )
    );
}

#[test]
fn fel4_table_invalid_platform() {
    assert_eq!(
        Err(ConfigError::InvalidValueOption(
            "platform".into(),
            SupportedPlatform::platform_names(),
            "wrong".into()
        )),
        parse_full_manifest(
            r#"[fel4]
            target = "x86_64-sel4-fel4"
            platform = "wrong""#
        )
    );
}

#[test]
fn fel4_table_missing_artifact_path() {
    assert_eq!(
        Err(ConfigError::MissingRequiredProperty(
            "fel4".into(),
            "artifact-path".into()
        )),
        parse_full_manifest(
            r#"[fel4]
            target = "x86_64-sel4-fel4"
            platform = "pc99""#
        )
    );
}

#[test]
fn fel4_table_missing_target_specs_path() {
    assert_eq!(
        Err(ConfigError::MissingRequiredProperty(
            "fel4".into(),
            "target-specs-path".into()
        )),
        parse_full_manifest(
            r#"[fel4]
            target = "x86_64-sel4-fel4"
            platform = "pc99"
            artifact-path = "artifacts/path/nested""#
        )
    );
}

#[test]
fn wrong_type_target_specs_path_in_fel4() {
    assert_eq!(
        Err(ConfigError::NonStringProperty("target-specs-path".into())),
        parse_full_manifest(
            r#"[fel4]
            target = "x86_64-sel4-fel4"
            platform = "pc99"
            artifact-path = "somewhere"
            target-specs-path = true
            "#
        )
    );
}

#[test]
fn wrong_type_artifact_path_in_fel4() {
    assert_eq!(
        Err(ConfigError::NonStringProperty("artifact-path".into())),
        parse_full_manifest(
            r#"[fel4]
            target = "x86_64-sel4-fel4"
            platform = "pc99"
            artifact-path = true
            target-specs-path = "where/are/rust/targets"
            "#
        )
    );
}

#[test]
fn unexpected_structure_in_fel4() {
    assert_eq!(
        Err(ConfigError::UnexpectedStructure("fel4.custom".into())),
        parse_full_manifest(
            r#"[fel4]
            target = "x86_64-sel4-fel4"
            platform = "pc99"
            artifact-path = "artifacts/path/nested"
            target-specs-path = "where/are/rust/targets"
            [fel4.custom]
            SomeProp = "hello"
            "#
        )
    );
}

#[test]
fn unexpected_structure_in_target() {
    assert_eq!(
        Err(ConfigError::UnexpectedStructure(
            "x86_64-sel4-fel4.custom".into()
        )),
        parse_full_manifest(
            r#"[fel4]
            target = "x86_64-sel4-fel4"
            platform = "pc99"
            artifact-path = "artifacts/path/nested"
            target-specs-path = "where/are/rust/targets"
            [x86_64-sel4-fel4]
            SomeProp = "hello"
            [x86_64-sel4-fel4.custom]
            NestedProp = true
            "#
        )
    );
}

#[test]
fn unexpected_structure_in_target_platform() {
    assert_eq!(
        Err(ConfigError::UnexpectedStructure(
            "x86_64-sel4-fel4.pc99.custom".into()
        )),
        parse_full_manifest(
            r#"[fel4]
            target = "x86_64-sel4-fel4"
            platform = "pc99"
            artifact-path = "artifacts/path/nested"
            target-specs-path = "where/are/rust/targets"
            [x86_64-sel4-fel4]
            SomeProp = "hello"
            [x86_64-sel4-fel4.pc99]
            SomethingPlatformy = true
            [x86_64-sel4-fel4.pc99.custom]
            DeepNesting = true
            "#
        )
    );
}

#[test]
fn unexpected_structure_in_target_build_profile() {
    assert_eq!(
        Err(ConfigError::UnexpectedStructure(
            "x86_64-sel4-fel4.debug.custom".into()
        )),
        parse_full_manifest(
            r#"[fel4]
            target = "x86_64-sel4-fel4"
            platform = "pc99"
            artifact-path = "artifacts/path/nested"
            target-specs-path = "where/are/rust/targets"
            [x86_64-sel4-fel4]
            SomeProp = "hello"
            [x86_64-sel4-fel4.debug]
            KernelPrinting = true
            [x86_64-sel4-fel4.debug.custom]
            DeepNesting = true
            "#
        )
    );
}

#[test]
fn non_table_fel4_value_counts_as_missing_table() {
    assert_eq!(
        Err(ConfigError::MissingTable("fel4".into())),
        parse_full_manifest("fel4 = true")
    );
}
