use vstd::prelude::*;

verus! {

/// Ghost model of a single flat (non-nestable) configuration value.
///
/// Floats are modelled by their IEEE-754 bit pattern and datetimes by the
/// text they were written with, so the model stays within exact types.
pub ghost enum SpecScalar {
    Str(Seq<char>),
    Int(i64),
    Float(u64),
    Bool(bool),
    Datetime(Seq<char>),
}

/// Ghost model of a named flat property.
pub ghost struct SpecProperty {
    pub name: Seq<char>,
    pub value: SpecScalar,
}

/// A single toml key-value pair where the value only includes non-nestable
/// structures.
#[derive(Debug, PartialEq)]
pub struct FlatTomlProperty {
    pub name: String,
    pub value: FlatTomlValue,
}

/// A subset of the toml value space that only includes non-nestable
/// structures.
///
/// A float is carried as its IEEE-754 bit pattern and a datetime as its
/// original textual representation.
#[derive(Debug, PartialEq)]
pub enum FlatTomlValue {
    /// Represents a TOML string
    String(String),
    /// Represents a TOML integer
    Integer(i64),
    /// Represents a TOML float, as the bit pattern of the 64-bit value
    Float(u64),
    /// Represents a TOML boolean
    Boolean(bool),
    /// Represents a TOML datetime, as the text it was written with
    Datetime(String),
}

impl DeepView for FlatTomlValue {
    type V = SpecScalar;

    open spec fn deep_view(&self) -> SpecScalar {
        match self {
            FlatTomlValue::String(s) => SpecScalar::Str(s.deep_view()),
            FlatTomlValue::Integer(i) => SpecScalar::Int(*i),
            FlatTomlValue::Float(b) => SpecScalar::Float(*b),
            FlatTomlValue::Boolean(b) => SpecScalar::Bool(*b),
            FlatTomlValue::Datetime(s) => SpecScalar::Datetime(s.deep_view()),
        }
    }
}

impl Clone for FlatTomlValue {
    fn clone(&self) -> (r: Self)
        ensures
            r.deep_view() == self.deep_view(),
    {
        match self {
            FlatTomlValue::String(s) => FlatTomlValue::String(s.clone()),
            FlatTomlValue::Integer(i) => FlatTomlValue::Integer(*i),
            FlatTomlValue::Float(b) => FlatTomlValue::Float(*b),
            FlatTomlValue::Boolean(b) => FlatTomlValue::Boolean(*b),
            FlatTomlValue::Datetime(s) => FlatTomlValue::Datetime(s.clone()),
        }
    }
}

impl DeepView for FlatTomlProperty {
    type V = SpecProperty;

    open spec fn deep_view(&self) -> SpecProperty {
        SpecProperty { name: self.name.deep_view(), value: self.value.deep_view() }
    }
}

impl Clone for FlatTomlProperty {
    fn clone(&self) -> (r: Self)
        ensures
            r.deep_view() == self.deep_view(),
    {
        FlatTomlProperty { name: self.name.clone(), value: self.value.clone() }
    }
}

impl FlatTomlProperty {
    pub fn new(name: String, value: FlatTomlValue) -> (r: Self)
        ensures
            r.deep_view() == (SpecProperty { name: name.deep_view(), value: value.deep_view() }),
    {
        FlatTomlProperty { name, value }
    }
}

/// Maps an `Ok`/`Err` result to the deep views of whichever value it holds.
pub open spec fn res_view<T: DeepView, E: DeepView>(r: Result<T, E>) -> Result<T::V, E::V> {
    match r {
        Ok(t) => Ok(t.deep_view()),
        Err(e) => Err(e.deep_view()),
    }
}

#[derive(Clone, Copy, Debug, Eq, Hash, PartialEq, Structural)]
pub enum SupportedTarget {
    X8664Sel4Fel4,
    Armv7Sel4Fel4,
}

impl DeepView for SupportedTarget {
    type V = SupportedTarget;

    open spec fn deep_view(&self) -> SupportedTarget {
        *self
    }
}

/// The canonical name of each supported target.
pub open spec fn spec_target_name(t: SupportedTarget) -> Seq<char> {
    match t {
        SupportedTarget::X8664Sel4Fel4 => "x86_64-sel4-fel4"@,
        SupportedTarget::Armv7Sel4Fel4 => "armv7-sel4-fel4"@,
    }
}

/// Every supported target, in the fixed enumeration order.
pub open spec fn spec_targets() -> Seq<SupportedTarget> {
    seq![SupportedTarget::X8664Sel4Fel4, SupportedTarget::Armv7Sel4Fel4]
}

/// The canonical target names, in enumeration order.
pub open spec fn spec_target_names() -> Seq<Seq<char>> {
    seq!["x86_64-sel4-fel4"@, "armv7-sel4-fel4"@]
}

/// Which target, if any, a string names.
pub open spec fn spec_target_from_str(s: Seq<char>) -> Result<SupportedTarget, Seq<char>> {
    if s == spec_target_name(SupportedTarget::X8664Sel4Fel4) {
        Ok(SupportedTarget::X8664Sel4Fel4)
    } else if s == spec_target_name(SupportedTarget::Armv7Sel4Fel4) {
        Ok(SupportedTarget::Armv7Sel4Fel4)
    } else {
        Err(s)
    }
}

impl SupportedTarget {
    pub fn full_name(&self) -> (r: &'static str)
        ensures
            r@ == spec_target_name(*self),
    {
        match *self {
            SupportedTarget::X8664Sel4Fel4 => "x86_64-sel4-fel4",
            SupportedTarget::Armv7Sel4Fel4 => "armv7-sel4-fel4",
        }
    }

    pub fn targets() -> (r: Vec<SupportedTarget>)
        ensures
            r@ == spec_targets(),
    {
        let mut v: Vec<SupportedTarget> = Vec::new();
        v.push(SupportedTarget::X8664Sel4Fel4);
        v.push(SupportedTarget::Armv7Sel4Fel4);
        proof {
            assert(v@ =~= spec_targets());
        }
        v
    }

    pub fn target_names() -> (r: Vec<String>)
        ensures
            r.deep_view() == spec_target_names(),
    {
        let mut v: Vec<String> = Vec::new();
        v.push("x86_64-sel4-fel4".to_owned());
        v.push("armv7-sel4-fel4".to_owned());
        proof {
            assert(v.deep_view() =~= spec_target_names());
        }
        v
    }

    pub fn from_str(s: &str) -> (r: Result<SupportedTarget, String>)
        ensures
            res_view(r) == spec_target_from_str(s@),
    {
        if crate::text::str_eq(s, "x86_64-sel4-fel4") {
            Ok(SupportedTarget::X8664Sel4Fel4)
        } else if crate::text::str_eq(s, "armv7-sel4-fel4") {
            Ok(SupportedTarget::Armv7Sel4Fel4)
        } else {
            Err(s.to_owned())
        }
    }
}

#[derive(Clone, Copy, Debug, Eq, Hash, PartialEq, Structural)]
pub enum SupportedPlatform {
    PC99,
    Sabre,
}

impl DeepView for SupportedPlatform {
    type V = SupportedPlatform;

    open spec fn deep_view(&self) -> SupportedPlatform {
        *self
    }
}

/// The canonical name of each supported platform.
pub open spec fn spec_platform_name(p: SupportedPlatform) -> Seq<char> {
    match p {
        SupportedPlatform::PC99 => "pc99"@,
        SupportedPlatform::Sabre => "sabre"@,
    }
}

/// Every supported platform, in the fixed enumeration order.
pub open spec fn spec_platforms() -> Seq<SupportedPlatform> {
    seq![SupportedPlatform::PC99, SupportedPlatform::Sabre]
}

/// The canonical platform names, in enumeration order.
pub open spec fn spec_platform_names() -> Seq<Seq<char>> {
    seq!["pc99"@, "sabre"@]
}

/// Which platform, if any, a string names.
pub open spec fn spec_platform_from_str(s: Seq<char>) -> Result<SupportedPlatform, Seq<char>> {
    if s == spec_platform_name(SupportedPlatform::PC99) {
        Ok(SupportedPlatform::PC99)
    } else if s == spec_platform_name(SupportedPlatform::Sabre) {
        Ok(SupportedPlatform::Sabre)
    } else {
        Err(s)
    }
}

impl SupportedPlatform {
    pub fn full_name(&self) -> (r: &'static str)
        ensures
            r@ == spec_platform_name(*self),
    {
        match *self {
            SupportedPlatform::PC99 => "pc99",
            SupportedPlatform::Sabre => "sabre",
        }
    }

    pub fn platforms() -> (r: Vec<SupportedPlatform>)
        ensures
            r@ == spec_platforms(),
    {
        let mut v: Vec<SupportedPlatform> = Vec::new();
        v.push(SupportedPlatform::PC99);
        v.push(SupportedPlatform::Sabre);
        proof {
            assert(v@ =~= spec_platforms());
        }
        v
    }

    pub fn platform_names() -> (r: Vec<String>)
        ensures
            r.deep_view() == spec_platform_names(),
    {
        let mut v: Vec<String> = Vec::new();
        v.push("pc99".to_owned());
        v.push("sabre".to_owned());
        proof {
            assert(v.deep_view() =~= spec_platform_names());
        }
        v
    }

    pub fn from_str(s: &str) -> (r: Result<SupportedPlatform, String>)
        ensures
            res_view(r) == spec_platform_from_str(s@),
    {
        if crate::text::str_eq(s, "pc99") {
            Ok(SupportedPlatform::PC99)
        } else if crate::text::str_eq(s, "sabre") {
            Ok(SupportedPlatform::Sabre)
        } else {
            Err(s.to_owned())
        }
    }
}

#[derive(Clone, Copy, Debug, Eq, Hash, PartialEq, Structural)]
pub enum BuildProfile {
    Debug,
    Release,
}

impl DeepView for BuildProfile {
    type V = BuildProfile;

    open spec fn deep_view(&self) -> BuildProfile {
        *self
    }
}

/// The canonical name of each build profile.
pub open spec fn spec_profile_name(b: BuildProfile) -> Seq<char> {
    match b {
        BuildProfile::Debug => "debug"@,
        BuildProfile::Release => "release"@,
    }
}

/// Every build profile, in the fixed enumeration order.
pub open spec fn spec_profiles() -> Seq<BuildProfile> {
    seq![BuildProfile::Debug, BuildProfile::Release]
}

/// The canonical profile names, in enumeration order.
pub open spec fn spec_profile_names() -> Seq<Seq<char>> {
    seq!["debug"@, "release"@]
}

/// Which build profile, if any, a string names.
pub open spec fn spec_profile_from_str(s: Seq<char>) -> Result<BuildProfile, Seq<char>> {
    if s == spec_profile_name(BuildProfile::Debug) {
        Ok(BuildProfile::Debug)
    } else if s == spec_profile_name(BuildProfile::Release) {
        Ok(BuildProfile::Release)
    } else {
        Err(s)
    }
}

impl BuildProfile {
    pub fn full_name(&self) -> (r: &'static str)
        ensures
            r@ == spec_profile_name(*self),
    {
        match *self {
            BuildProfile::Debug => "debug",
            BuildProfile::Release => "release",
        }
    }

    pub fn build_profiles() -> (r: Vec<BuildProfile>)
        ensures
            r@ == spec_profiles(),
    {
        let mut v: Vec<BuildProfile> = Vec::new();
        v.push(BuildProfile::Debug);
        v.push(BuildProfile::Release);
        proof {
            assert(v@ =~= spec_profiles());
        }
        v
    }

    pub fn build_profile_names() -> (r: Vec<String>)
        ensures
            r.deep_view() == spec_profile_names(),
    {
        let mut v: Vec<String> = Vec::new();
        v.push("debug".to_owned());
        v.push("release".to_owned());
        proof {
            assert(v.deep_view() =~= spec_profile_names());
        }
        v
    }

    pub fn from_str(s: &str) -> (r: Result<BuildProfile, String>)
        ensures
            res_view(r) == spec_profile_from_str(s@),
    {
        if crate::text::str_eq(s, "debug") {
            Ok(BuildProfile::Debug)
        } else if crate::text::str_eq(s, "release") {
            Ok(BuildProfile::Release)
        } else {
            Err(s.to_owned())
        }
    }
}

/// Ghost model of a fully resolved configuration.
pub ghost struct SpecConfig {
    pub artifact_path: Seq<char>,
    pub target_specs_path: Seq<char>,
    pub target: SupportedTarget,
    pub platform: SupportedPlatform,
    pub build_profile: BuildProfile,
    pub properties: Seq<SpecProperty>,
}

/// Fel4 configuration for a particular target, platform, and build profile
/// tuple resolved from a FullFel4Target.
///
/// The property map is kept as a vector of named properties whose names are
/// pairwise distinct.
#[derive(Debug, PartialEq)]
pub struct Fel4Config {
    pub artifact_path: String,
    pub target_specs_path: String,
    pub target: SupportedTarget,
    pub platform: SupportedPlatform,
    pub build_profile: BuildProfile,
    pub properties: Vec<FlatTomlProperty>,
}

impl DeepView for Fel4Config {
    type V = SpecConfig;

    open spec fn deep_view(&self) -> SpecConfig {
        SpecConfig {
            artifact_path: self.artifact_path.deep_view(),
            target_specs_path: self.target_specs_path.deep_view(),
            target: self.target,
            platform: self.platform,
            build_profile: self.build_profile,
            properties: self.properties.deep_view(),
        }
    }
}

/// Copies a property list, preserving every name and value.
pub(crate) fn clone_properties(v: &Vec<FlatTomlProperty>) -> (r: Vec<FlatTomlProperty>)
    ensures
        r.deep_view() == v.deep_view(),
{
    let mut out: Vec<FlatTomlProperty> = Vec::new();
    proof {
        assert(out.deep_view() =~= v.deep_view().take(0));
    }
    let mut i: usize = 0;
    while i < v.len()
        invariant
            0 <= i <= v.len(),
            out.deep_view() == v.deep_view().take(i as int),
        decreases v.len() - i,
    {
        let ghost pre = out.deep_view();
        let p = v[i].clone();
        out.push(p);
        proof {
            assert(out.deep_view() =~= pre.push(v.deep_view()[i as int]));
            assert(v.deep_view().take(i + 1) =~= v.deep_view().take(i as int).push(
                v.deep_view()[i as int],
            ));
        }
        i += 1;
    }
    proof {
        assert(v.deep_view().take(v@.len() as int) =~= v.deep_view());
    }
    out
}

impl Clone for Fel4Config {
    fn clone(&self) -> (r: Self)
        ensures
            r.deep_view() == self.deep_view(),
    {
        Fel4Config {
            artifact_path: self.artifact_path.clone(),
            target_specs_path: self.target_specs_path.clone(),
            target: self.target,
            platform: self.platform,
            build_profile: self.build_profile,
            properties: clone_properties(&self.properties),
        }
    }
}

impl core::str::FromStr for SupportedTarget {
    type Err = String;

    fn from_str(s: &str) -> Result<Self, String> {
        SupportedTarget::from_str(s)
    }
}

impl core::str::FromStr for SupportedPlatform {
    type Err = String;

    fn from_str(s: &str) -> Result<Self, String> {
        SupportedPlatform::from_str(s)
    }
}

impl core::str::FromStr for BuildProfile {
    type Err = String;

    fn from_str(s: &str) -> Result<Self, String> {
        BuildProfile::from_str(s)
    }
}

/// The value recorded under the first property with the given name, if any.
pub open spec fn spec_property_value(ps: Seq<SpecProperty>, name: Seq<char>) -> Option<SpecScalar>
    decreases ps.len(),
{
    if ps.len() == 0 {
        None
    } else if ps[0].name == name {
        Some(ps[0].value)
    } else {
        spec_property_value(ps.drop_first(), name)
    }
}

proof fn lemma_property_value_skip(ps: Seq<SpecProperty>, name: Seq<char>, i: int)
    requires
        0 <= i <= ps.len(),
        forall|j: int| 0 <= j < i ==> ps[j].name != name,
    ensures
        spec_property_value(ps, name) == spec_property_value(ps.skip(i), name),
    decreases i,
{
    if i > 0 {
        assert(ps[0].name != name);
        lemma_property_value_skip(ps.drop_first(), name, i - 1);
        assert(ps.drop_first().skip(i - 1) =~= ps.skip(i));
    } else {
        assert(ps.skip(0) =~= ps);
    }
}

impl Fel4Config {
    /// The value resolved for the given property name, if the configuration
    /// holds one.
    pub fn property<'a>(&'a self, name: &str) -> (r: Option<&'a FlatTomlValue>)
        ensures
            match r {
                Some(v) => spec_property_value(self.properties.deep_view(), name@) == Some(
                    v.deep_view(),
                ),
                None => spec_property_value(self.properties.deep_view(), name@) is None,
            },
    {
        let ps = &self.properties;
        let ghost model = ps.deep_view();
        let mut i: usize = 0;
        while i < ps.len()
            invariant
                0 <= i <= ps.len(),
                model == ps.deep_view(),
                model == self.properties.deep_view(),
                forall|j: int| 0 <= j < i ==> model[j].name != name@,
            decreases ps.len() - i,
        {
            if crate::text::str_eq(ps[i].name.as_str(), name) {
                proof {
                    lemma_property_value_skip(model, name@, i as int);
                }
                return Some(&ps[i].value);
            }
            i += 1;
        }
        proof {
            lemma_property_value_skip(model, name@, ps@.len() as int);
        }
        None
    }
}

/// Name-to-value round trips for each enumeration: the canonical name of a
/// variant parses back to exactly that variant.
pub proof fn lemma_target_name_round_trip(t: SupportedTarget)
    ensures
        spec_target_from_str(spec_target_name(t)) == Ok::<SupportedTarget, Seq<char>>(t),
{
    reveal_strlit("x86_64-sel4-fel4");
    reveal_strlit("armv7-sel4-fel4");
    assert(spec_target_name(SupportedTarget::X8664Sel4Fel4).len() == 16);
    assert(spec_target_name(SupportedTarget::Armv7Sel4Fel4).len() == 15);
}

/// A string that names no target fails to parse, handing the string back.
pub proof fn lemma_target_from_str_unknown(s: Seq<char>)
    requires
        forall|t: SupportedTarget| spec_target_name(t) != s,
    ensures
        spec_target_from_str(s) == Err::<SupportedTarget, Seq<char>>(s),
{
    assert(spec_target_name(SupportedTarget::X8664Sel4Fel4) != s);
    assert(spec_target_name(SupportedTarget::Armv7Sel4Fel4) != s);
}

/// Name-to-value round trip for platforms.
pub proof fn lemma_platform_name_round_trip(p: SupportedPlatform)
    ensures
        spec_platform_from_str(spec_platform_name(p)) == Ok::<SupportedPlatform, Seq<char>>(p),
{
    reveal_strlit("pc99");
    reveal_strlit("sabre");
    assert(spec_platform_name(SupportedPlatform::PC99).len() == 4);
    assert(spec_platform_name(SupportedPlatform::Sabre).len() == 5);
}

/// A string that names no platform fails to parse, handing the string back.
pub proof fn lemma_platform_from_str_unknown(s: Seq<char>)
    requires
        forall|p: SupportedPlatform| spec_platform_name(p) != s,
    ensures
        spec_platform_from_str(s) == Err::<SupportedPlatform, Seq<char>>(s),
{
    assert(spec_platform_name(SupportedPlatform::PC99) != s);
    assert(spec_platform_name(SupportedPlatform::Sabre) != s);
}

/// Name-to-value round trip for build profiles.
pub proof fn lemma_profile_name_round_trip(b: BuildProfile)
    ensures
        spec_profile_from_str(spec_profile_name(b)) == Ok::<BuildProfile, Seq<char>>(b),
{
    reveal_strlit("debug");
    reveal_strlit("release");
    assert(spec_profile_name(BuildProfile::Debug).len() == 5);
    assert(spec_profile_name(BuildProfile::Release).len() == 7);
}

/// A string that names no build profile fails to parse, handing the string
/// back.
pub proof fn lemma_profile_from_str_unknown(s: Seq<char>)
    requires
        forall|b: BuildProfile| spec_profile_name(b) != s,
    ensures
        spec_profile_from_str(s) == Err::<BuildProfile, Seq<char>>(s),
{
    assert(spec_profile_name(BuildProfile::Debug) != s);
    assert(spec_profile_name(BuildProfile::Release) != s);
}

} // verus!
