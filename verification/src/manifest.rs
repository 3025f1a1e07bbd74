use vstd::prelude::*;
use vstd::string::StringExecFns;

use crate::config::{ConfigError, SpecError};
use crate::text::str_eq;
use crate::toml_data::{
    SpecToml, lookup_entry, parse_toml, spec_entries_model, spec_lookup, toml_document,
    toml_table_entries, toml_value_model, toml_value_scalar,
};
use crate::types::{
    BuildProfile, FlatTomlProperty, FlatTomlValue, SpecProperty, SpecScalar, SupportedPlatform,
    SupportedTarget,
    spec_platform_name, spec_platforms, spec_profile_name, spec_profiles, spec_target_name,
    spec_targets,
};

verus! {

/// Ghost model of the contents of one target's tables.
pub ghost struct SpecTarget {
    pub identity: SupportedTarget,
    pub direct: Seq<SpecProperty>,
    pub profile_props: Seq<(BuildProfile, Seq<SpecProperty>)>,
    pub platform_props: Seq<(SupportedPlatform, Seq<SpecProperty>)>,
}

/// Ghost model of a fully parsed manifest.
pub ghost struct SpecManifest {
    pub artifact_path: Seq<char>,
    pub target_specs_path: Seq<char>,
    pub selected_target: SupportedTarget,
    pub selected_platform: SupportedPlatform,
    pub targets: Seq<SpecTarget>,
}

/// The full content of a target within a fel4 manifest.
///
/// The two per-axis property groups are association lists holding one entry
/// per axis subtable that the manifest declares, in enumeration order.
#[derive(Debug, PartialEq)]
pub struct FullFel4Target {
    pub identity: SupportedTarget,
    pub direct_properties: Vec<FlatTomlProperty>,
    pub build_profile_properties: Vec<(BuildProfile, Vec<FlatTomlProperty>)>,
    pub platform_properties: Vec<(SupportedPlatform, Vec<FlatTomlProperty>)>,
}

impl DeepView for FullFel4Target {
    type V = SpecTarget;

    open spec fn deep_view(&self) -> SpecTarget {
        SpecTarget {
            identity: self.identity,
            direct: self.direct_properties.deep_view(),
            profile_props: self.build_profile_properties.deep_view(),
            platform_props: self.platform_properties.deep_view(),
        }
    }
}

/// The full content of a fel4 manifest.
///
/// Targets that the document does not declare are simply absent from
/// `targets`; the ones present appear in enumeration order.
#[derive(Debug, PartialEq)]
pub struct FullFel4Manifest {
    pub artifact_path: String,
    pub target_specs_path: String,
    pub selected_target: SupportedTarget,
    pub selected_platform: SupportedPlatform,
    pub targets: Vec<FullFel4Target>,
}

impl DeepView for FullFel4Manifest {
    type V = SpecManifest;

    open spec fn deep_view(&self) -> SpecManifest {
        SpecManifest {
            artifact_path: self.artifact_path.deep_view(),
            target_specs_path: self.target_specs_path.deep_view(),
            selected_target: self.selected_target,
            selected_platform: self.selected_platform,
            targets: self.targets.deep_view(),
        }
    }
}

/// Copies a profile overlay list, preserving keys and contents.
fn clone_profile_overlays(v: &Vec<(BuildProfile, Vec<FlatTomlProperty>)>) -> (r: Vec<
    (BuildProfile, Vec<FlatTomlProperty>),
>)
    ensures
        r.deep_view() == v.deep_view(),
{
    let mut out: Vec<(BuildProfile, Vec<FlatTomlProperty>)> = Vec::new();
    proof {
        assert(out.deep_view() =~= v.deep_view().take(0));
    }
    let mut i: usize = 0;
    while i < v.len()
        invariant
            0 <= i <= v.len(),
            out.deep_view() == v.deep_view().take(i as int),
        decreases v.len() - i,
    {
        let ghost pre = out.deep_view();
        let ps = crate::types::clone_properties(&v[i].1);
        out.push((v[i].0, ps));
        proof {
            assert(out.deep_view() =~= pre.push(v.deep_view()[i as int]));
            assert(v.deep_view().take(i + 1) =~= v.deep_view().take(i as int).push(
                v.deep_view()[i as int],
            ));
        }
        i += 1;
    }
    proof {
        assert(v.deep_view().take(v@.len() as int) =~= v.deep_view());
    }
    out
}

/// Copies a platform overlay list, preserving keys and contents.
fn clone_platform_overlays(v: &Vec<(SupportedPlatform, Vec<FlatTomlProperty>)>) -> (r: Vec<
    (SupportedPlatform, Vec<FlatTomlProperty>),
>)
    ensures
        r.deep_view() == v.deep_view(),
{
    let mut out: Vec<(SupportedPlatform, Vec<FlatTomlProperty>)> = Vec::new();
    proof {
        assert(out.deep_view() =~= v.deep_view().take(0));
    }
    let mut i: usize = 0;
    while i < v.len()
        invariant
            0 <= i <= v.len(),
            out.deep_view() == v.deep_view().take(i as int),
        decreases v.len() - i,
    {
        let ghost pre = out.deep_view();
        let ps = crate::types::clone_properties(&v[i].1);
        out.push((v[i].0, ps));
        proof {
            assert(out.deep_view() =~= pre.push(v.deep_view()[i as int]));
            assert(v.deep_view().take(i + 1) =~= v.deep_view().take(i as int).push(
                v.deep_view()[i as int],
            ));
        }
        i += 1;
    }
    proof {
        assert(v.deep_view().take(v@.len() as int) =~= v.deep_view());
    }
    out
}

impl Clone for FullFel4Target {
    fn clone(&self) -> (r: Self)
        ensures
            r.deep_view() == self.deep_view(),
    {
        FullFel4Target {
            identity: self.identity,
            direct_properties: crate::types::clone_properties(&self.direct_properties),
            build_profile_properties: clone_profile_overlays(&self.build_profile_properties),
            platform_properties: clone_platform_overlays(&self.platform_properties),
        }
    }
}

impl Clone for FullFel4Manifest {
    fn clone(&self) -> (r: Self)
        ensures
            r.deep_view() == self.deep_view(),
    {
        let mut targets: Vec<FullFel4Target> = Vec::new();
        proof {
            assert(targets.deep_view() =~= self.targets.deep_view().take(0));
        }
        let mut i: usize = 0;
        while i < self.targets.len()
            invariant
                0 <= i <= self.targets.len(),
                targets.deep_view() == self.targets.deep_view().take(i as int),
            decreases self.targets.len() - i,
        {
            let ghost pre = targets.deep_view();
            let t = self.targets[i].clone();
            targets.push(t);
            proof {
                assert(targets.deep_view() =~= pre.push(self.targets.deep_view()[i as int]));
                assert(self.targets.deep_view().take(i + 1) =~= self.targets.deep_view().take(
                    i as int,
                ).push(self.targets.deep_view()[i as int]));
            }
            i += 1;
        }
        proof {
            assert(self.targets.deep_view().take(self.targets@.len() as int)
                =~= self.targets.deep_view());
        }
        FullFel4Manifest {
            artifact_path: self.artifact_path.clone(),
            target_specs_path: self.target_specs_path.clone(),
            selected_target: self.selected_target,
            selected_platform: self.selected_platform,
            targets,
        }
    }
}

/// Whether a key names an axis subtable a target table may legally contain:
/// a supported platform or a build profile.
pub open spec fn spec_is_axis_name(k: Seq<char>) -> bool {
    ||| k == spec_platform_name(SupportedPlatform::PC99)
    ||| k == spec_platform_name(SupportedPlatform::Sabre)
    ||| k == spec_profile_name(BuildProfile::Debug)
    ||| k == spec_profile_name(BuildProfile::Release)
}

fn is_axis_name(k: &str) -> (r: bool)
    ensures
        r == spec_is_axis_name(k@),
{
    str_eq(k, "pc99") || str_eq(k, "sabre") || str_eq(k, "debug") || str_eq(k, "release")
}

/// The first key, in entry order, whose value is a nested table or array and
/// is not excused as an axis subtable name; `Ok` when there is none.
pub open spec fn spec_structure_check(es: Seq<(Seq<char>, SpecToml)>, axes_allowed: bool) -> Result<
    (),
    Seq<char>,
>
    decreases es.len(),
{
    if es.len() == 0 {
        Ok(())
    } else if !(es[0].1 is Scalar) && !(axes_allowed && spec_is_axis_name(es[0].0)) {
        Err(es[0].0)
    } else {
        spec_structure_check(es.drop_first(), axes_allowed)
    }
}

/// The structure check is unaffected by dropping an inoffensive prefix.
proof fn lemma_structure_check_skip(es: Seq<(Seq<char>, SpecToml)>, axes_allowed: bool, i: int)
    requires
        0 <= i <= es.len(),
        forall|j: int|
            0 <= j < i ==> (es[j].1 is Scalar || (axes_allowed && spec_is_axis_name(es[j].0))),
    ensures
        spec_structure_check(es, axes_allowed) == spec_structure_check(es.skip(i), axes_allowed),
    decreases i,
{
    if i > 0 {
        assert(es[0].1 is Scalar || (axes_allowed && spec_is_axis_name(es[0].0)));
        lemma_structure_check_skip(es.drop_first(), axes_allowed, i - 1);
        assert(es.drop_first().skip(i - 1) =~= es.skip(i));
    } else {
        assert(es.skip(0) =~= es);
    }
}

/// Scans a table's entries for nested structure, returning the first
/// offending key.
fn has_only_approved_substructures(es: &Vec<(String, toml::Value)>, axes_allowed: bool) -> (r:
    Result<(), String>)
    ensures
        match r {
            Ok(_) => spec_structure_check(spec_entries_model(es@), axes_allowed) == Ok::<
                (),
                Seq<char>,
            >(()),
            Err(k) => spec_structure_check(spec_entries_model(es@), axes_allowed) == Err::<
                (),
                Seq<char>,
            >(k@),
        },
{
    let ghost model = spec_entries_model(es@);
    let mut i: usize = 0;
    while i < es.len()
        invariant
            0 <= i <= es.len(),
            model == spec_entries_model(es@),
            forall|j: int|
                0 <= j < i ==> (model[j].1 is Scalar || (axes_allowed && spec_is_axis_name(
                    model[j].0,
                ))),
        decreases es.len() - i,
    {
        let is_scalar = toml_value_scalar(&es[i].1).is_some();
        if !is_scalar && !(axes_allowed && is_axis_name(&es[i].0)) {
            proof {
                lemma_structure_check_skip(model, axes_allowed, i as int);
            }
            return Err(es[i].0.clone());
        }
        i += 1;
    }
    proof {
        lemma_structure_check_skip(model, axes_allowed, es@.len() as int);
    }
    Ok(())
}

/// Maps every entry of a table to a flat property, in entry order; fails
/// with the first key, in entry order, holding a nested table or array.
pub open spec fn spec_extract_flat(es: Seq<(Seq<char>, SpecToml)>) -> Result<
    Seq<SpecProperty>,
    Seq<char>,
>
    decreases es.len(),
{
    if es.len() == 0 {
        Ok(Seq::empty())
    } else {
        match spec_extract_flat(es.drop_last()) {
            Err(e) => Err(e),
            Ok(acc) => match es.last().1 {
                SpecToml::Scalar(sc) => Ok(acc.push(SpecProperty { name: es.last().0, value: sc })),
                _ => Err(es.last().0),
            },
        }
    }
}

/// Once a prefix fails extraction, the whole sequence fails the same way.
proof fn lemma_extract_flat_err_persists(es: Seq<(Seq<char>, SpecToml)>, i: int)
    requires
        0 <= i <= es.len(),
        spec_extract_flat(es.take(i)) is Err,
    ensures
        spec_extract_flat(es) == spec_extract_flat(es.take(i)),
    decreases es.len() - i,
{
    if i < es.len() {
        assert(es.take(i + 1).drop_last() =~= es.take(i));
        lemma_extract_flat_err_persists(es, i + 1);
    } else {
        assert(es.take(i) =~= es);
    }
}

/// Extracts every entry of a table as a flat property, in entry order.
fn extract_flat_properties(es: &Vec<(String, toml::Value)>) -> (r: Result<
    Vec<FlatTomlProperty>,
    String,
>)
    ensures
        match r {
            Ok(ps) => spec_extract_flat(spec_entries_model(es@)) == Ok::<_, Seq<char>>(
                ps.deep_view(),
            ),
            Err(k) => spec_extract_flat(spec_entries_model(es@)) == Err::<Seq<SpecProperty>, _>(
                k@,
            ),
        },
{
    let ghost model = spec_entries_model(es@);
    let mut acc: Vec<FlatTomlProperty> = Vec::new();
    proof {
        assert(model.take(0) =~= Seq::<(Seq<char>, SpecToml)>::empty());
        assert(acc.deep_view() =~= Seq::<SpecProperty>::empty());
    }
    let mut i: usize = 0;
    while i < es.len()
        invariant
            0 <= i <= es.len(),
            model == spec_entries_model(es@),
            spec_extract_flat(model.take(i as int)) == Ok::<_, Seq<char>>(acc.deep_view()),
        decreases es.len() - i,
    {
        proof {
            assert(model.take(i + 1).drop_last() =~= model.take(i as int));
            assert(model.take(i + 1).last() == model[i as int]);
        }
        match toml_value_scalar(&es[i].1) {
            Some(value) => {
                let ghost old_acc = acc.deep_view();
                let p = FlatTomlProperty::new(es[i].0.clone(), value);
                acc.push(p);
                proof {
                    assert(acc.deep_view() =~= old_acc.push(
                        SpecProperty { name: model[i as int].0, value: model[i as int].1->Scalar_0 },
                    ));
                }
            },
            None => {
                proof {
                    lemma_extract_flat_err_persists(model, i + 1);
                }
                return Err(es[i].0.clone());
            },
        }
        i += 1;
    }
    proof {
        assert(model.take(es@.len() as int) =~= model);
    }
    Ok(acc)
}

/// Like flat extraction, but keys naming an axis subtable are skipped
/// entirely, whatever kind of value they hold.
pub open spec fn spec_extract_direct(es: Seq<(Seq<char>, SpecToml)>) -> Result<
    Seq<SpecProperty>,
    Seq<char>,
>
    decreases es.len(),
{
    if es.len() == 0 {
        Ok(Seq::empty())
    } else {
        match spec_extract_direct(es.drop_last()) {
            Err(e) => Err(e),
            Ok(acc) => if spec_is_axis_name(es.last().0) {
                Ok(acc)
            } else {
                match es.last().1 {
                    SpecToml::Scalar(sc) => Ok(
                        acc.push(SpecProperty { name: es.last().0, value: sc }),
                    ),
                    _ => Err(es.last().0),
                }
            },
        }
    }
}

/// Once a prefix fails direct extraction, the whole sequence fails the same
/// way.
proof fn lemma_extract_direct_err_persists(es: Seq<(Seq<char>, SpecToml)>, i: int)
    requires
        0 <= i <= es.len(),
        spec_extract_direct(es.take(i)) is Err,
    ensures
        spec_extract_direct(es) == spec_extract_direct(es.take(i)),
    decreases es.len() - i,
{
    if i < es.len() {
        assert(es.take(i + 1).drop_last() =~= es.take(i));
        lemma_extract_direct_err_persists(es, i + 1);
    } else {
        assert(es.take(i) =~= es);
    }
}

/// Extracts a target table's direct properties: entries named after an axis
/// subtable are filtered out first, the rest must be flat.
fn extract_direct_properties(es: &Vec<(String, toml::Value)>) -> (r: Result<
    Vec<FlatTomlProperty>,
    String,
>)
    ensures
        match r {
            Ok(ps) => spec_extract_direct(spec_entries_model(es@)) == Ok::<_, Seq<char>>(
                ps.deep_view(),
            ),
            Err(k) => spec_extract_direct(spec_entries_model(es@)) == Err::<Seq<SpecProperty>, _>(
                k@,
            ),
        },
{
    let ghost model = spec_entries_model(es@);
    let mut acc: Vec<FlatTomlProperty> = Vec::new();
    proof {
        assert(model.take(0) =~= Seq::<(Seq<char>, SpecToml)>::empty());
        assert(acc.deep_view() =~= Seq::<SpecProperty>::empty());
    }
    let mut i: usize = 0;
    while i < es.len()
        invariant
            0 <= i <= es.len(),
            model == spec_entries_model(es@),
            spec_extract_direct(model.take(i as int)) == Ok::<_, Seq<char>>(acc.deep_view()),
        decreases es.len() - i,
    {
        proof {
            assert(model.take(i + 1).drop_last() =~= model.take(i as int));
            assert(model.take(i + 1).last() == model[i as int]);
        }
        if !is_axis_name(&es[i].0) {
            match toml_value_scalar(&es[i].1) {
                Some(value) => {
                    let ghost old_acc = acc.deep_view();
                    let p = FlatTomlProperty::new(es[i].0.clone(), value);
                    acc.push(p);
                    proof {
                        assert(acc.deep_view() =~= old_acc.push(
                            SpecProperty {
                                name: model[i as int].0,
                                value: model[i as int].1->Scalar_0,
                            },
                        ));
                    }
                },
                None => {
                    proof {
                        lemma_extract_direct_err_persists(model, i + 1);
                    }
                    return Err(es[i].0.clone());
                },
            }
        }
        i += 1;
    }
    proof {
        assert(model.take(es@.len() as int) =~= model);
    }
    Ok(acc)
}

/// Ghost model of the mandatory `fel4` header table.
pub ghost struct SpecHeader {
    pub artifact_path: Seq<char>,
    pub target_specs_path: Seq<char>,
    pub selected_target: SupportedTarget,
    pub selected_platform: SupportedPlatform,
}

/// The contents of the string under the given key, when the key is present
/// and holds a string.
pub open spec fn spec_string_at(es: Seq<(Seq<char>, SpecToml)>, key: Seq<char>) -> Option<
    Seq<char>,
> {
    match spec_lookup(es, key) {
        Some(SpecToml::Scalar(SpecScalar::Str(s))) => Some(s),
        _ => None,
    }
}

/// A mandatory path field of the header: it must be present, a string, and
/// non-empty; an absent or empty field counts as missing, a present
/// non-string field is a type error.
pub open spec fn spec_path_field(fel4: Seq<(Seq<char>, SpecToml)>, key: Seq<char>) -> Result<
    Seq<char>,
    SpecError,
> {
    match spec_lookup(fel4, key) {
        None => Err(SpecError::MissingRequiredProperty("fel4"@, key)),
        Some(v) => match v {
            SpecToml::Scalar(SpecScalar::Str(s)) => if s.len() == 0 {
                Err(SpecError::MissingRequiredProperty("fel4"@, key))
            } else {
                Ok(s)
            },
            _ => Err(SpecError::NonStringProperty(key)),
        },
    }
}

/// The header fields, checked in order: target, platform, artifact-path,
/// target-specs-path. The target and platform must be non-empty strings
/// naming a member of their enumeration; a present non-string value counts
/// as missing for them.
pub open spec fn spec_header_fields(fel4: Seq<(Seq<char>, SpecToml)>) -> Result<
    SpecHeader,
    SpecError,
> {
    let t = spec_string_at(fel4, "target"@);
    if t is None || t->0.len() == 0 {
        Err(SpecError::MissingRequiredProperty("fel4"@, "target"@))
    } else {
        match crate::types::spec_target_from_str(t->0) {
            Err(bad) => Err(
                SpecError::InvalidValueOption("target"@, crate::types::spec_target_names(), bad),
            ),
            Ok(selected_target) => {
                let p = spec_string_at(fel4, "platform"@);
                if p is None || p->0.len() == 0 {
                    Err(SpecError::MissingRequiredProperty("fel4"@, "platform"@))
                } else {
                    match crate::types::spec_platform_from_str(p->0) {
                        Err(bad) => Err(
                            SpecError::InvalidValueOption(
                                "platform"@,
                                crate::types::spec_platform_names(),
                                bad,
                            ),
                        ),
                        Ok(selected_platform) => match spec_path_field(fel4, "artifact-path"@) {
                            Err(e) => Err(e),
                            Ok(artifact_path) => match spec_path_field(
                                fel4,
                                "target-specs-path"@,
                            ) {
                                Err(e) => Err(e),
                                Ok(target_specs_path) => Ok(
                                    SpecHeader {
                                        artifact_path,
                                        target_specs_path,
                                        selected_target,
                                        selected_platform,
                                    },
                                ),
                            },
                        },
                    }
                }
            },
        }
    }
}

/// The whole header check: the `fel4` table must be present and a table,
/// must contain no nested structure at all, and must carry the four
/// mandatory fields.
pub open spec fn spec_parse_header(root: Seq<(Seq<char>, SpecToml)>) -> Result<
    SpecHeader,
    SpecError,
> {
    match spec_lookup(root, "fel4"@) {
        Some(SpecToml::Table(fel4)) => match spec_structure_check(fel4, false) {
            Err(k) => Err(SpecError::UnexpectedStructure("fel4."@ + k)),
            Ok(_) => spec_header_fields(fel4),
        },
        _ => Err(SpecError::MissingTable("fel4"@)),
    }
}

struct Fel4Header {
    artifact_path: String,
    target_specs_path: String,
    selected_target: SupportedTarget,
    selected_platform: SupportedPlatform,
}

impl Fel4Header {
    spec fn model(&self) -> SpecHeader {
        SpecHeader {
            artifact_path: self.artifact_path.deep_view(),
            target_specs_path: self.target_specs_path.deep_view(),
            selected_target: self.selected_target,
            selected_platform: self.selected_platform,
        }
    }
}

/// The string under the given key, when present and a string.
fn get_string_value(es: &Vec<(String, toml::Value)>, key: &str) -> (r: Option<String>)
    ensures
        match r {
            Some(s) => spec_string_at(spec_entries_model(es@), key@) == Some(s@),
            None => spec_string_at(spec_entries_model(es@), key@) is None,
        },
{
    match lookup_entry(es, key) {
        None => None,
        Some(v) => match toml_value_scalar(v) {
            Some(FlatTomlValue::String(s)) => Some(s),
            _ => None,
        },
    }
}

/// Reads one mandatory path field of the header.
fn get_path_field(es: &Vec<(String, toml::Value)>, key: &str) -> (r: Result<String, ConfigError>)
    ensures
        match r {
            Ok(s) => spec_path_field(spec_entries_model(es@), key@) == Ok::<_, SpecError>(s@),
            Err(e) => spec_path_field(spec_entries_model(es@), key@) == Err::<Seq<char>, _>(
                e.deep_view(),
            ),
        },
{
    match lookup_entry(es, key) {
        None => Err(ConfigError::MissingRequiredProperty("fel4".to_owned(), key.to_owned())),
        Some(v) => match toml_value_scalar(v) {
            Some(FlatTomlValue::String(s)) => if s.as_str().is_empty() {
                Err(ConfigError::MissingRequiredProperty("fel4".to_owned(), key.to_owned()))
            } else {
                Ok(s)
            },
            _ => Err(ConfigError::NonStringProperty(key.to_owned())),
        },
    }
}

/// Validates the `fel4` header table and reads its four mandatory fields.
fn parse_fel4_header(root: &Vec<(String, toml::Value)>) -> (r: Result<Fel4Header, ConfigError>)
    ensures
        match r {
            Ok(h) => spec_parse_header(spec_entries_model(root@)) == Ok::<_, SpecError>(h.model()),
            Err(e) => spec_parse_header(spec_entries_model(root@)) == Err::<SpecHeader, _>(
                e.deep_view(),
            ),
        },
{
    let fel4 = match lookup_entry(root, "fel4") {
        None => {
            return Err(ConfigError::MissingTable("fel4".to_owned()));
        },
        Some(v) => match toml_table_entries(v) {
            None => {
                return Err(ConfigError::MissingTable("fel4".to_owned()));
            },
            Some(es) => es,
        },
    };
    match has_only_approved_substructures(&fel4, false) {
        Err(k) => {
            let mut path = "fel4.".to_owned();
            path.append(k.as_str());
            return Err(ConfigError::UnexpectedStructure(path));
        },
        Ok(_) => {},
    }
    let selected_target = {
        match get_string_value(&fel4, "target") {
            None => {
                return Err(
                    ConfigError::MissingRequiredProperty("fel4".to_owned(), "target".to_owned()),
                );
            },
            Some(s) => {
                if s.as_str().is_empty() {
                    return Err(
                        ConfigError::MissingRequiredProperty(
                            "fel4".to_owned(),
                            "target".to_owned(),
                        ),
                    );
                }
                match SupportedTarget::from_str(s.as_str()) {
                    Err(bad) => {
                        return Err(
                            ConfigError::InvalidValueOption(
                                "target".to_owned(),
                                SupportedTarget::target_names(),
                                bad,
                            ),
                        );
                    },
                    Ok(t) => t,
                }
            },
        }
    };
    let selected_platform = {
        match get_string_value(&fel4, "platform") {
            None => {
                return Err(
                    ConfigError::MissingRequiredProperty("fel4".to_owned(), "platform".to_owned()),
                );
            },
            Some(s) => {
                if s.as_str().is_empty() {
                    return Err(
                        ConfigError::MissingRequiredProperty(
                            "fel4".to_owned(),
                            "platform".to_owned(),
                        ),
                    );
                }
                match SupportedPlatform::from_str(s.as_str()) {
                    Err(bad) => {
                        return Err(
                            ConfigError::InvalidValueOption(
                                "platform".to_owned(),
                                SupportedPlatform::platform_names(),
                                bad,
                            ),
                        );
                    },
                    Ok(p) => p,
                }
            },
        }
    };
    let artifact_path = match get_path_field(&fel4, "artifact-path") {
        Err(e) => {
            return Err(e);
        },
        Ok(s) => s,
    };
    let target_specs_path = match get_path_field(&fel4, "target-specs-path") {
        Err(e) => {
            return Err(e);
        },
        Ok(s) => s,
    };
    Ok(Fel4Header { artifact_path, target_specs_path, selected_target, selected_platform })
}

/// Walks the build profiles in enumeration order and gathers, for each one
/// whose subtable is declared in the target's table, that subtable's flat
/// properties. An absent subtable, or an entry with a profile's name that is
/// not a table, contributes nothing. Nested structure inside a subtable
/// fails, naming the full dotted path.
pub open spec fn spec_collect_profiles(
    tes: Seq<(Seq<char>, SpecToml)>,
    tname: Seq<char>,
    profs: Seq<BuildProfile>,
) -> Result<Seq<(BuildProfile, Seq<SpecProperty>)>, SpecError>
    decreases profs.len(),
{
    if profs.len() == 0 {
        Ok(Seq::empty())
    } else {
        match spec_collect_profiles(tes, tname, profs.drop_last()) {
            Err(e) => Err(e),
            Ok(acc) => {
                let b = profs.last();
                match spec_lookup(tes, spec_profile_name(b)) {
                    Some(SpecToml::Table(sub)) => match spec_extract_flat(sub) {
                        Ok(ps) => Ok(acc.push((b, ps))),
                        Err(k) => Err(
                            SpecError::UnexpectedStructure(
                                tname + "."@ + spec_profile_name(b) + "."@ + k,
                            ),
                        ),
                    },
                    _ => Ok(acc),
                }
            },
        }
    }
}

proof fn lemma_collect_profiles_err_persists(
    tes: Seq<(Seq<char>, SpecToml)>,
    tname: Seq<char>,
    profs: Seq<BuildProfile>,
    i: int,
)
    requires
        0 <= i <= profs.len(),
        spec_collect_profiles(tes, tname, profs.take(i)) is Err,
    ensures
        spec_collect_profiles(tes, tname, profs) == spec_collect_profiles(
            tes,
            tname,
            profs.take(i),
        ),
    decreases profs.len() - i,
{
    if i < profs.len() {
        assert(profs.take(i + 1).drop_last() =~= profs.take(i));
        lemma_collect_profiles_err_persists(tes, tname, profs, i + 1);
    } else {
        assert(profs.take(i) =~= profs);
    }
}

/// The platform counterpart of profile collection, symmetric in every way.
pub open spec fn spec_collect_platforms(
    tes: Seq<(Seq<char>, SpecToml)>,
    tname: Seq<char>,
    plats: Seq<SupportedPlatform>,
) -> Result<Seq<(SupportedPlatform, Seq<SpecProperty>)>, SpecError>
    decreases plats.len(),
{
    if plats.len() == 0 {
        Ok(Seq::empty())
    } else {
        match spec_collect_platforms(tes, tname, plats.drop_last()) {
            Err(e) => Err(e),
            Ok(acc) => {
                let p = plats.last();
                match spec_lookup(tes, spec_platform_name(p)) {
                    Some(SpecToml::Table(sub)) => match spec_extract_flat(sub) {
                        Ok(ps) => Ok(acc.push((p, ps))),
                        Err(k) => Err(
                            SpecError::UnexpectedStructure(
                                tname + "."@ + spec_platform_name(p) + "."@ + k,
                            ),
                        ),
                    },
                    _ => Ok(acc),
                }
            },
        }
    }
}

proof fn lemma_collect_platforms_err_persists(
    tes: Seq<(Seq<char>, SpecToml)>,
    tname: Seq<char>,
    plats: Seq<SupportedPlatform>,
    i: int,
)
    requires
        0 <= i <= plats.len(),
        spec_collect_platforms(tes, tname, plats.take(i)) is Err,
    ensures
        spec_collect_platforms(tes, tname, plats) == spec_collect_platforms(
            tes,
            tname,
            plats.take(i),
        ),
    decreases plats.len() - i,
{
    if i < plats.len() {
        assert(plats.take(i + 1).drop_last() =~= plats.take(i));
        lemma_collect_platforms_err_persists(tes, tname, plats, i + 1);
    } else {
        assert(plats.take(i) =~= plats);
    }
}

/// What parsing contributes for one supported target: nothing when the
/// document has no table (or no table-valued entry) under the target's name;
/// otherwise the target's validated contents. The target table is checked
/// for unapproved substructure first, then its profile subtables, platform
/// subtables, and direct properties are extracted, in that order.
pub open spec fn spec_process_target(
    root: Seq<(Seq<char>, SpecToml)>,
    t: SupportedTarget,
) -> Result<Option<SpecTarget>, SpecError> {
    let tname = spec_target_name(t);
    match spec_lookup(root, tname) {
        Some(SpecToml::Table(tes)) => match spec_structure_check(tes, true) {
            Err(k) => Err(SpecError::UnexpectedStructure(tname + "."@ + k)),
            Ok(_) => match spec_collect_profiles(tes, tname, spec_profiles()) {
                Err(e) => Err(e),
                Ok(pp) => match spec_collect_platforms(tes, tname, spec_platforms()) {
                    Err(e) => Err(e),
                    Ok(plp) => match spec_extract_direct(tes) {
                        Err(k) => Err(SpecError::UnexpectedStructure(tname + "."@ + k)),
                        Ok(direct) => Ok(
                            Some(
                                SpecTarget {
                                    identity: t,
                                    direct,
                                    profile_props: pp,
                                    platform_props: plp,
                                },
                            ),
                        ),
                    },
                },
            },
        },
        _ => Ok(None),
    }
}

/// The targets a document declares, gathered in enumeration order.
pub open spec fn spec_collect_targets(
    root: Seq<(Seq<char>, SpecToml)>,
    ts: Seq<SupportedTarget>,
) -> Result<Seq<SpecTarget>, SpecError>
    decreases ts.len(),
{
    if ts.len() == 0 {
        Ok(Seq::empty())
    } else {
        match spec_collect_targets(root, ts.drop_last()) {
            Err(e) => Err(e),
            Ok(acc) => match spec_process_target(root, ts.last()) {
                Err(e) => Err(e),
                Ok(None) => Ok(acc),
                Ok(Some(t)) => Ok(acc.push(t)),
            },
        }
    }
}

proof fn lemma_collect_targets_err_persists(
    root: Seq<(Seq<char>, SpecToml)>,
    ts: Seq<SupportedTarget>,
    i: int,
)
    requires
        0 <= i <= ts.len(),
        spec_collect_targets(root, ts.take(i)) is Err,
    ensures
        spec_collect_targets(root, ts) == spec_collect_targets(root, ts.take(i)),
    decreases ts.len() - i,
{
    if i < ts.len() {
        assert(ts.take(i + 1).drop_last() =~= ts.take(i));
        lemma_collect_targets_err_persists(root, ts, i + 1);
    } else {
        assert(ts.take(i) =~= ts);
    }
}

/// The whole manifest a parsed document denotes: the validated header
/// followed by every declared target's contents, or the first error the
/// validation order meets.
pub open spec fn spec_manifest_of(m: SpecToml) -> Result<SpecManifest, SpecError> {
    match m {
        SpecToml::Table(root) => match spec_parse_header(root) {
            Err(e) => Err(e),
            Ok(h) => match spec_collect_targets(root, spec_targets()) {
                Err(e) => Err(e),
                Ok(ts) => Ok(
                    SpecManifest {
                        artifact_path: h.artifact_path,
                        target_specs_path: h.target_specs_path,
                        selected_target: h.selected_target,
                        selected_platform: h.selected_platform,
                        targets: ts,
                    },
                ),
            },
        },
        _ => Err(SpecError::MissingTable("fel4"@)),
    }
}

/// What a manifest text denotes: the manifest of the document it parses to,
/// or a parse failure.
pub open spec fn spec_parse_full_manifest(s: Seq<char>) -> Result<SpecManifest, SpecError> {
    match toml_document(s) {
        None => Err(SpecError::TomlParseFailure),
        Some(m) => spec_manifest_of(m),
    }
}

/// Gathers the profile subtable overlays of one target table.
fn collect_profile_props(tes: &Vec<(String, toml::Value)>, tname: &str) -> (r: Result<
    Vec<(BuildProfile, Vec<FlatTomlProperty>)>,
    ConfigError,
>)
    ensures
        match r {
            Ok(pp) => spec_collect_profiles(spec_entries_model(tes@), tname@, spec_profiles())
                == Ok::<_, SpecError>(pp.deep_view()),
            Err(e) => spec_collect_profiles(spec_entries_model(tes@), tname@, spec_profiles())
                == Err::<Seq<(BuildProfile, Seq<SpecProperty>)>, _>(e.deep_view()),
        },
{
    let ghost model = spec_entries_model(tes@);
    let profiles = BuildProfile::build_profiles();
    let mut acc: Vec<(BuildProfile, Vec<FlatTomlProperty>)> = Vec::new();
    proof {
        assert(profiles@.take(0) =~= Seq::<BuildProfile>::empty());
        assert(acc.deep_view() =~= Seq::<(BuildProfile, Seq<SpecProperty>)>::empty());
    }
    let mut i: usize = 0;
    while i < profiles.len()
        invariant
            0 <= i <= profiles.len(),
            model == spec_entries_model(tes@),
            profiles@ == spec_profiles(),
            spec_collect_profiles(model, tname@, profiles@.take(i as int)) == Ok::<_, SpecError>(
                acc.deep_view(),
            ),
        decreases profiles.len() - i,
    {
        proof {
            assert(profiles@.take(i + 1).drop_last() =~= profiles@.take(i as int));
            assert(profiles@.take(i + 1).last() == profiles@[i as int]);
        }
        let b = profiles[i];
        match lookup_entry(tes, b.full_name()) {
            Some(v) => match toml_table_entries(v) {
                Some(sub) => match extract_flat_properties(&sub) {
                    Ok(ps) => {
                        let ghost old_acc = acc.deep_view();
                        acc.push((b, ps));
                        proof {
                            assert(acc.deep_view() =~= old_acc.push(
                                (b, acc@.last().1.deep_view()),
                            ));
                        }
                    },
                    Err(k) => {
                        proof {
                            lemma_collect_profiles_err_persists(model, tname@, profiles@, i + 1);
                        }
                        let mut path = tname.to_owned();
                        path.append(".");
                        path.append(b.full_name());
                        path.append(".");
                        path.append(k.as_str());
                        return Err(ConfigError::UnexpectedStructure(path));
                    },
                },
                None => {},
            },
            None => {},
        }
        i += 1;
    }
    proof {
        assert(profiles@.take(profiles@.len() as int) =~= profiles@);
    }
    Ok(acc)
}

/// Gathers the platform subtable overlays of one target table.
fn collect_platform_props(tes: &Vec<(String, toml::Value)>, tname: &str) -> (r: Result<
    Vec<(SupportedPlatform, Vec<FlatTomlProperty>)>,
    ConfigError,
>)
    ensures
        match r {
            Ok(pp) => spec_collect_platforms(spec_entries_model(tes@), tname@, spec_platforms())
                == Ok::<_, SpecError>(pp.deep_view()),
            Err(e) => spec_collect_platforms(spec_entries_model(tes@), tname@, spec_platforms())
                == Err::<Seq<(SupportedPlatform, Seq<SpecProperty>)>, _>(e.deep_view()),
        },
{
    let ghost model = spec_entries_model(tes@);
    let platforms = SupportedPlatform::platforms();
    let mut acc: Vec<(SupportedPlatform, Vec<FlatTomlProperty>)> = Vec::new();
    proof {
        assert(platforms@.take(0) =~= Seq::<SupportedPlatform>::empty());
        assert(acc.deep_view() =~= Seq::<(SupportedPlatform, Seq<SpecProperty>)>::empty());
    }
    let mut i: usize = 0;
    while i < platforms.len()
        invariant
            0 <= i <= platforms.len(),
            model == spec_entries_model(tes@),
            platforms@ == spec_platforms(),
            spec_collect_platforms(model, tname@, platforms@.take(i as int)) == Ok::<_, SpecError>(
                acc.deep_view(),
            ),
        decreases platforms.len() - i,
    {
        proof {
            assert(platforms@.take(i + 1).drop_last() =~= platforms@.take(i as int));
            assert(platforms@.take(i + 1).last() == platforms@[i as int]);
        }
        let p = platforms[i];
        match lookup_entry(tes, p.full_name()) {
            Some(v) => match toml_table_entries(v) {
                Some(sub) => match extract_flat_properties(&sub) {
                    Ok(ps) => {
                        let ghost old_acc = acc.deep_view();
                        acc.push((p, ps));
                        proof {
                            assert(acc.deep_view() =~= old_acc.push(
                                (p, acc@.last().1.deep_view()),
                            ));
                        }
                    },
                    Err(k) => {
                        proof {
                            lemma_collect_platforms_err_persists(model, tname@, platforms@, i + 1);
                        }
                        let mut path = tname.to_owned();
                        path.append(".");
                        path.append(p.full_name());
                        path.append(".");
                        path.append(k.as_str());
                        return Err(ConfigError::UnexpectedStructure(path));
                    },
                },
                None => {},
            },
            None => {},
        }
        i += 1;
    }
    proof {
        assert(platforms@.take(platforms@.len() as int) =~= platforms@);
    }
    Ok(acc)
}

/// Validates and extracts one target's tables, when the document declares
/// them.
fn process_target(root: &Vec<(String, toml::Value)>, t: SupportedTarget) -> (r: Result<
    Option<FullFel4Target>,
    ConfigError,
>)
    ensures
        match r {
            Ok(Some(ft)) => spec_process_target(spec_entries_model(root@), t) == Ok::<
                _,
                SpecError,
            >(Some(ft.deep_view())),
            Ok(None) => spec_process_target(spec_entries_model(root@), t) == Ok::<
                Option<SpecTarget>,
                SpecError,
            >(None),
            Err(e) => spec_process_target(spec_entries_model(root@), t) == Err::<
                Option<SpecTarget>,
                _,
            >(e.deep_view()),
        },
{
    let tname = t.full_name();
    let tes = match lookup_entry(root, tname) {
        None => {
            return Ok(None);
        },
        Some(v) => match toml_table_entries(v) {
            None => {
                return Ok(None);
            },
            Some(es) => es,
        },
    };
    match has_only_approved_substructures(&tes, true) {
        Err(k) => {
            let mut path = tname.to_owned();
            path.append(".");
            path.append(k.as_str());
            return Err(ConfigError::UnexpectedStructure(path));
        },
        Ok(_) => {},
    }
    let build_profile_properties = match collect_profile_props(&tes, tname) {
        Err(e) => {
            return Err(e);
        },
        Ok(pp) => pp,
    };
    let platform_properties = match collect_platform_props(&tes, tname) {
        Err(e) => {
            return Err(e);
        },
        Ok(pp) => pp,
    };
    let direct_properties = match extract_direct_properties(&tes) {
        Err(k) => {
            let mut path = tname.to_owned();
            path.append(".");
            path.append(k.as_str());
            return Err(ConfigError::UnexpectedStructure(path));
        },
        Ok(ps) => ps,
    };
    Ok(
        Some(
            FullFel4Target {
                identity: t,
                direct_properties,
                build_profile_properties,
                platform_properties,
            },
        ),
    )
}

/// Parse the complete contents of the fel4 toml.
pub fn toml_to_full_manifest(raw: &toml::Value) -> (r: Result<FullFel4Manifest, ConfigError>)
    ensures
        crate::types::res_view(r) == spec_manifest_of(toml_value_model(*raw)),
{
    let root = match toml_table_entries(raw) {
        None => {
            return Err(ConfigError::MissingTable("fel4".to_owned()));
        },
        Some(es) => es,
    };
    let header = match parse_fel4_header(&root) {
        Err(e) => {
            return Err(e);
        },
        Ok(h) => h,
    };
    let ghost model = spec_entries_model(root@);
    let target_list = SupportedTarget::targets();
    let mut targets: Vec<FullFel4Target> = Vec::new();
    proof {
        assert(target_list@.take(0) =~= Seq::<SupportedTarget>::empty());
        assert(targets.deep_view() =~= Seq::<SpecTarget>::empty());
    }
    let mut i: usize = 0;
    while i < target_list.len()
        invariant
            0 <= i <= target_list.len(),
            model == spec_entries_model(root@),
            toml_value_model(*raw) == SpecToml::Table(model),
            spec_parse_header(model) == Ok::<_, SpecError>(header.model()),
            target_list@ == spec_targets(),
            spec_collect_targets(model, target_list@.take(i as int)) == Ok::<_, SpecError>(
                targets.deep_view(),
            ),
        decreases target_list.len() - i,
    {
        proof {
            assert(target_list@.take(i + 1).drop_last() =~= target_list@.take(i as int));
            assert(target_list@.take(i + 1).last() == target_list@[i as int]);
        }
        match process_target(&root, target_list[i]) {
            Err(e) => {
                proof {
                    lemma_collect_targets_err_persists(model, target_list@, i + 1);
                }
                return Err(e);
            },
            Ok(Some(ft)) => {
                let ghost old_targets = targets.deep_view();
                targets.push(ft);
                proof {
                    assert(targets.deep_view() =~= old_targets.push(targets@.last().deep_view()));
                }
            },
            Ok(None) => {},
        }
        i += 1;
    }
    proof {
        assert(target_list@.take(target_list@.len() as int) =~= target_list@);
    }
    Ok(
        FullFel4Manifest {
            artifact_path: header.artifact_path,
            target_specs_path: header.target_specs_path,
            selected_target: header.selected_target,
            selected_platform: header.selected_platform,
            targets,
        },
    )
}

/// Parsing is deterministic: one document text denotes one manifest, or one
/// error, and nothing about a parse depends on anything but the text.
pub proof fn lemma_parse_deterministic(a: Seq<char>, b: Seq<char>)
    requires
        a == b,
    ensures
        spec_parse_full_manifest(a) == spec_parse_full_manifest(b),
{
}

/// A structurally clean fel4 table whose `target` entry is absent, an empty
/// string, or not a string at all fails naming exactly that field.
pub proof fn lemma_header_missing_target(
    root: Seq<(Seq<char>, SpecToml)>,
    fel4: Seq<(Seq<char>, SpecToml)>,
)
    requires
        spec_lookup(root, "fel4"@) == Some(SpecToml::Table(fel4)),
        spec_structure_check(fel4, false) is Ok,
        spec_string_at(fel4, "target"@) is None || spec_string_at(fel4, "target"@)->0.len() == 0,
    ensures
        spec_parse_header(root) == Err::<SpecHeader, SpecError>(
            SpecError::MissingRequiredProperty("fel4"@, "target"@),
        ),
{
}

/// With a valid target selected, a `platform` entry that is absent, an
/// empty string, or not a string fails naming exactly that field.
pub proof fn lemma_header_missing_platform(
    root: Seq<(Seq<char>, SpecToml)>,
    fel4: Seq<(Seq<char>, SpecToml)>,
)
    requires
        spec_lookup(root, "fel4"@) == Some(SpecToml::Table(fel4)),
        spec_structure_check(fel4, false) is Ok,
        spec_string_at(fel4, "target"@) is Some,
        spec_string_at(fel4, "target"@)->0.len() > 0,
        crate::types::spec_target_from_str(spec_string_at(fel4, "target"@)->0) is Ok,
        spec_string_at(fel4, "platform"@) is None || spec_string_at(fel4, "platform"@)->0.len()
            == 0,
    ensures
        spec_parse_header(root) == Err::<SpecHeader, SpecError>(
            SpecError::MissingRequiredProperty("fel4"@, "platform"@),
        ),
{
}

/// With a valid target and platform selected, an `artifact-path` entry that
/// is absent or an empty string fails naming exactly that field.
pub proof fn lemma_header_missing_artifact_path(
    root: Seq<(Seq<char>, SpecToml)>,
    fel4: Seq<(Seq<char>, SpecToml)>,
)
    requires
        spec_lookup(root, "fel4"@) == Some(SpecToml::Table(fel4)),
        spec_structure_check(fel4, false) is Ok,
        spec_string_at(fel4, "target"@) is Some,
        spec_string_at(fel4, "target"@)->0.len() > 0,
        crate::types::spec_target_from_str(spec_string_at(fel4, "target"@)->0) is Ok,
        spec_string_at(fel4, "platform"@) is Some,
        spec_string_at(fel4, "platform"@)->0.len() > 0,
        crate::types::spec_platform_from_str(spec_string_at(fel4, "platform"@)->0) is Ok,
        spec_lookup(fel4, "artifact-path"@) is None || spec_lookup(fel4, "artifact-path"@)
            == Some(SpecToml::Scalar(SpecScalar::Str(Seq::empty()))),
    ensures
        spec_parse_header(root) == Err::<SpecHeader, SpecError>(
            SpecError::MissingRequiredProperty("fel4"@, "artifact-path"@),
        ),
{
}

/// With everything before it valid, a `target-specs-path` entry that is
/// absent or an empty string fails naming exactly that field.
pub proof fn lemma_header_missing_target_specs_path(
    root: Seq<(Seq<char>, SpecToml)>,
    fel4: Seq<(Seq<char>, SpecToml)>,
)
    requires
        spec_lookup(root, "fel4"@) == Some(SpecToml::Table(fel4)),
        spec_structure_check(fel4, false) is Ok,
        spec_string_at(fel4, "target"@) is Some,
        spec_string_at(fel4, "target"@)->0.len() > 0,
        crate::types::spec_target_from_str(spec_string_at(fel4, "target"@)->0) is Ok,
        spec_string_at(fel4, "platform"@) is Some,
        spec_string_at(fel4, "platform"@)->0.len() > 0,
        crate::types::spec_platform_from_str(spec_string_at(fel4, "platform"@)->0) is Ok,
        spec_path_field(fel4, "artifact-path"@) is Ok,
        spec_lookup(fel4, "target-specs-path"@) is None || spec_lookup(
            fel4,
            "target-specs-path"@,
        ) == Some(SpecToml::Scalar(SpecScalar::Str(Seq::empty()))),
    ensures
        spec_parse_header(root) == Err::<SpecHeader, SpecError>(
            SpecError::MissingRequiredProperty("fel4"@, "target-specs-path"@),
        ),
{
}

/// A non-empty `target` string naming no member of the target enumeration
/// fails with the invalid-option error, carrying the allowed names and the
/// offending value.
pub proof fn lemma_header_invalid_target(
    root: Seq<(Seq<char>, SpecToml)>,
    fel4: Seq<(Seq<char>, SpecToml)>,
    s: Seq<char>,
)
    requires
        spec_lookup(root, "fel4"@) == Some(SpecToml::Table(fel4)),
        spec_structure_check(fel4, false) is Ok,
        spec_string_at(fel4, "target"@) == Some(s),
        s.len() > 0,
        crate::types::spec_target_from_str(s) is Err,
    ensures
        spec_parse_header(root) == Err::<SpecHeader, SpecError>(
            SpecError::InvalidValueOption("target"@, crate::types::spec_target_names(), s),
        ),
{
}

/// A non-empty `platform` string naming no member of the platform
/// enumeration fails with the invalid-option error.
pub proof fn lemma_header_invalid_platform(
    root: Seq<(Seq<char>, SpecToml)>,
    fel4: Seq<(Seq<char>, SpecToml)>,
    s: Seq<char>,
)
    requires
        spec_lookup(root, "fel4"@) == Some(SpecToml::Table(fel4)),
        spec_structure_check(fel4, false) is Ok,
        spec_string_at(fel4, "target"@) is Some,
        spec_string_at(fel4, "target"@)->0.len() > 0,
        crate::types::spec_target_from_str(spec_string_at(fel4, "target"@)->0) is Ok,
        spec_string_at(fel4, "platform"@) == Some(s),
        s.len() > 0,
        crate::types::spec_platform_from_str(s) is Err,
    ensures
        spec_parse_header(root) == Err::<SpecHeader, SpecError>(
            SpecError::InvalidValueOption("platform"@, crate::types::spec_platform_names(), s),
        ),
{
}

proof fn lemma_collect_targets_ok_prefix(
    root: Seq<(Seq<char>, SpecToml)>,
    ts: Seq<SupportedTarget>,
    i: int,
)
    requires
        0 <= i <= ts.len(),
        forall|j: int| 0 <= j < i ==> spec_process_target(root, #[trigger] ts[j]) is Ok,
    ensures
        spec_collect_targets(root, ts.take(i)) is Ok,
    decreases i,
{
    if i > 0 {
        lemma_collect_targets_ok_prefix(root, ts, i - 1);
        assert(ts.take(i).drop_last() =~= ts.take(i - 1));
        assert(ts.take(i).last() == ts[i - 1]);
    } else {
        assert(ts.take(0) =~= Seq::<SupportedTarget>::empty());
    }
}

/// A target table holding a nested table or array under a name that is
/// neither a platform nor a profile makes the whole parse fail with the
/// unexpected-structure error, naming the full dotted path: the target's
/// name joined to the offending key. The target is given by its position in
/// the enumeration order, and every target before it must parse cleanly,
/// since an earlier target's error would fire first.
pub proof fn lemma_target_unexpected_structure(
    root: Seq<(Seq<char>, SpecToml)>,
    idx: int,
    tes: Seq<(Seq<char>, SpecToml)>,
    k: Seq<char>,
)
    requires
        0 <= idx < spec_targets().len(),
        spec_parse_header(root) is Ok,
        forall|j: int|
            0 <= j < idx ==> spec_process_target(root, #[trigger] spec_targets()[j]) is Ok,
        spec_lookup(root, spec_target_name(spec_targets()[idx])) == Some(SpecToml::Table(tes)),
        spec_structure_check(tes, true) == Err::<(), Seq<char>>(k),
    ensures
        spec_manifest_of(SpecToml::Table(root)) == Err::<SpecManifest, SpecError>(
            SpecError::UnexpectedStructure(spec_target_name(spec_targets()[idx]) + "."@ + k),
        ),
{
    let ts = spec_targets();
    lemma_collect_targets_ok_prefix(root, ts, idx);
    assert(ts.take(idx + 1).drop_last() =~= ts.take(idx));
    assert(ts.take(idx + 1).last() == ts[idx]);
    assert(spec_collect_targets(root, ts.take(idx + 1)) == Err::<Seq<SpecTarget>, SpecError>(
        SpecError::UnexpectedStructure(spec_target_name(ts[idx]) + "."@ + k),
    ));
    lemma_collect_targets_err_persists(root, ts, idx + 1);
    assert(ts.take(ts.len() as int) =~= ts);
}

/// Retrieve the complete contents of the fel4 toml from a string.
pub fn parse_full_manifest(toml_string: &str) -> (r: Result<FullFel4Manifest, ConfigError>)
    ensures
        crate::types::res_view(r) == spec_parse_full_manifest(toml_string@),
{
    match parse_toml(toml_string) {
        None => Err(ConfigError::TomlParseFailure),
        Some(v) => toml_to_full_manifest(&v),
    }
}

} // verus!
