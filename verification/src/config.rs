use vstd::prelude::*;
use vstd::string::StringExecFns;

use crate::manifest::{FullFel4Manifest, FullFel4Target, SpecManifest, SpecTarget};
use crate::text::str_eq;
use crate::types::{
    BuildProfile, Fel4Config, FlatTomlProperty, SpecConfig, SpecProperty, SupportedPlatform,
    SupportedTarget, res_view, spec_platform_name, spec_profile_name, spec_target_name,
};

verus! {

/// Ghost model of everything that can go wrong when reading fel4
/// configuration data.
pub ghost enum SpecError {
    FileReadFailure,
    TomlParseFailure,
    MissingTable(Seq<char>),
    UnexpectedStructure(Seq<char>),
    MissingRequiredProperty(Seq<char>, Seq<char>),
    NonStringProperty(Seq<char>),
    InvalidValueOption(Seq<char>, Seq<Seq<char>>, Seq<char>),
    DuplicateProperty(Seq<char>),
    NonWhitelistProperty(Seq<char>),
}

/// All the things that could go wrong when reading fel4 configuration data.
#[derive(Debug, PartialEq)]
pub enum ConfigError {
    /// Unable to read the fel4 manifest file
    FileReadFailure,
    /// The fel4 manifest file is unparseable as toml
    TomlParseFailure,
    /// The fel4 manifest file is missing the named table
    MissingTable(String),
    /// The fel4 manifest file contained an unexpected table or array at the
    /// named dotted path
    UnexpectedStructure(String),
    /// The named table requires the named property, but it is absent
    MissingRequiredProperty(String, String),
    /// The named property should be specified as a string, but is not
    NonStringProperty(String),
    /// The named property should be one of the listed options, but is
    /// instead the given value
    InvalidValueOption(String, Vec<String>, String),
    /// The fel4 manifest had a duplicate property when resolved to a
    /// canonical set
    DuplicateProperty(String),
    /// The named property was supplied, but is not on the permitted
    /// whitelist
    NonWhitelistProperty(String),
}

impl DeepView for ConfigError {
    type V = SpecError;

    open spec fn deep_view(&self) -> SpecError {
        match self {
            ConfigError::FileReadFailure => SpecError::FileReadFailure,
            ConfigError::TomlParseFailure => SpecError::TomlParseFailure,
            ConfigError::MissingTable(t) => SpecError::MissingTable(t.deep_view()),
            ConfigError::UnexpectedStructure(p) => SpecError::UnexpectedStructure(p.deep_view()),
            ConfigError::MissingRequiredProperty(t, p) => SpecError::MissingRequiredProperty(
                t.deep_view(),
                p.deep_view(),
            ),
            ConfigError::NonStringProperty(p) => SpecError::NonStringProperty(p.deep_view()),
            ConfigError::InvalidValueOption(p, opts, v) => SpecError::InvalidValueOption(
                p.deep_view(),
                opts.deep_view(),
                v.deep_view(),
            ),
            ConfigError::DuplicateProperty(p) => SpecError::DuplicateProperty(p.deep_view()),
            ConfigError::NonWhitelistProperty(p) => SpecError::NonWhitelistProperty(p.deep_view()),
        }
    }
}

/// Copies a list of names, preserving contents.
fn clone_strings(v: &Vec<String>) -> (r: Vec<String>)
    ensures
        r.deep_view() == v.deep_view(),
{
    let mut out: Vec<String> = Vec::new();
    proof {
        assert(out.deep_view() =~= v.deep_view().take(0));
    }
    let mut i: usize = 0;
    while i < v.len()
        invariant
            0 <= i <= v.len(),
            out.deep_view() == v.deep_view().take(i as int),
        decreases v.len() - i,
    {
        let ghost pre = out.deep_view();
        let s = v[i].clone();
        out.push(s);
        proof {
            assert(out.deep_view() =~= pre.push(v.deep_view()[i as int]));
            assert(v.deep_view().take(i + 1) =~= v.deep_view().take(i as int).push(
                v.deep_view()[i as int],
            ));
        }
        i += 1;
    }
    proof {
        assert(v.deep_view().take(v@.len() as int) =~= v.deep_view());
    }
    out
}

impl Clone for ConfigError {
    fn clone(&self) -> (r: Self)
        ensures
            r.deep_view() == self.deep_view(),
    {
        match self {
            ConfigError::FileReadFailure => ConfigError::FileReadFailure,
            ConfigError::TomlParseFailure => ConfigError::TomlParseFailure,
            ConfigError::MissingTable(t) => ConfigError::MissingTable(t.clone()),
            ConfigError::UnexpectedStructure(p) => ConfigError::UnexpectedStructure(p.clone()),
            ConfigError::MissingRequiredProperty(t, p) => ConfigError::MissingRequiredProperty(
                t.clone(),
                p.clone(),
            ),
            ConfigError::NonStringProperty(p) => ConfigError::NonStringProperty(p.clone()),
            ConfigError::InvalidValueOption(p, opts, v) => ConfigError::InvalidValueOption(
                p.clone(),
                clone_strings(opts),
                v.clone(),
            ),
            ConfigError::DuplicateProperty(p) => ConfigError::DuplicateProperty(p.clone()),
            ConfigError::NonWhitelistProperty(p) => ConfigError::NonWhitelistProperty(p.clone()),
        }
    }
}

/// Ghost model of a failure while locating the manifest through the
/// environment.
pub ghost enum SpecDiscoveryError {
    MissingEnvVar(Seq<char>),
    InvalidBuildProfile(Seq<char>),
}

/// Things that can go wrong when trying to rely on environment variables to
/// locate the fel4 manifest and its parameterization.
#[derive(Debug, PartialEq)]
pub enum ManifestDiscoveryError {
    /// The named required environment variable was absent
    MissingEnvVar(String),
    /// The profile environment variable had a value that could not be
    /// interpreted as a build profile
    InvalidBuildProfile(String),
}

impl DeepView for ManifestDiscoveryError {
    type V = SpecDiscoveryError;

    open spec fn deep_view(&self) -> SpecDiscoveryError {
        match self {
            ManifestDiscoveryError::MissingEnvVar(v) => SpecDiscoveryError::MissingEnvVar(
                v.deep_view(),
            ),
            ManifestDiscoveryError::InvalidBuildProfile(p) => SpecDiscoveryError::InvalidBuildProfile(
                p.deep_view(),
            ),
        }
    }
}

/// An opening bracket followed by the comma-separated, quoted names, with
/// no closing bracket yet.
pub open spec fn spec_quoted_open(opts: Seq<Seq<char>>) -> Seq<char>
    decreases opts.len(),
{
    if opts.len() == 0 {
        "["@
    } else if opts.len() == 1 {
        "["@ + "\""@ + opts[0] + "\""@
    } else {
        spec_quoted_open(opts.drop_last()) + ", "@ + "\""@ + opts.last() + "\""@
    }
}

/// A list of names rendered the way a debug listing renders a vector of
/// strings: bracketed, comma-separated, each name in double quotes.
pub open spec fn spec_quoted_list(opts: Seq<Seq<char>>) -> Seq<char> {
    spec_quoted_open(opts) + "]"@
}

/// Renders a list of names for an error message.
fn quoted_list(opts: &Vec<String>) -> (r: String)
    ensures
        r@ == spec_quoted_list(opts.deep_view()),
{
    let ghost model = opts.deep_view();
    let mut m = "[".to_owned();
    proof {
        assert(model.take(0) =~= Seq::<Seq<char>>::empty());
    }
    let mut i: usize = 0;
    while i < opts.len()
        invariant
            0 <= i <= opts.len(),
            model == opts.deep_view(),
            m@ == spec_quoted_open(model.take(i as int)),
        decreases opts.len() - i,
    {
        proof {
            assert(model.take(i + 1).drop_last() =~= model.take(i as int));
            assert(model.take(i + 1).last() == model[i as int]);
        }
        if i > 0 {
            m.append(", ");
        }
        m.append("\"");
        m.append(opts[i].as_str());
        m.append("\"");
        i += 1;
    }
    proof {
        assert(model.take(opts@.len() as int) =~= model);
    }
    m.append("]");
    m
}

/// The descriptive text of each configuration error, exactly as a caller
/// should surface it.
pub open spec fn spec_message(e: SpecError) -> Seq<char> {
    match e {
        SpecError::FileReadFailure => "Unable to read the fel4 manifest file"@,
        SpecError::TomlParseFailure => "The fel4 manifest file is unparseable as toml"@,
        SpecError::MissingTable(t) => "The fel4 manifest file is missing the "@ + t + " table"@,
        SpecError::UnexpectedStructure(p) => {
            "The fel4 manifest file contained an unexpected table or array "@ + p
        },
        SpecError::MissingRequiredProperty(t, p) => {
            "The ["@ + t + "] table requires the "@ + p + " property, but it is absent."@
        },
        SpecError::NonStringProperty(p) => {
            "The "@ + p + " property should be specified as a string, but is not"@
        },
        SpecError::InvalidValueOption(p, opts, v) => {
            "The "@ + p + " property should be one of "@ + spec_quoted_list(opts)
                + ", but is instead "@ + v
        },
        SpecError::DuplicateProperty(p) => {
            "The fel4 manifest had a duplicate property "@ + p
                + " when resolved to a canonical set"@
        },
        SpecError::NonWhitelistProperty(p) => {
            "The "@ + p + " property was supplied, but is not on the permitted whitelist"@
        },
    }
}

impl ConfigError {
    /// The descriptive message of this error, for the caller to surface
    /// verbatim.
    pub fn message(&self) -> (r: String)
        ensures
            r@ == spec_message(self.deep_view()),
    {
        match self {
            ConfigError::FileReadFailure => "Unable to read the fel4 manifest file".to_owned(),
            ConfigError::TomlParseFailure => {
                "The fel4 manifest file is unparseable as toml".to_owned()
            },
            ConfigError::MissingTable(t) => {
                let mut m = "The fel4 manifest file is missing the ".to_owned();
                m.append(t.as_str());
                m.append(" table");
                m
            },
            ConfigError::UnexpectedStructure(p) => {
                let mut m =
                    "The fel4 manifest file contained an unexpected table or array ".to_owned();
                m.append(p.as_str());
                m
            },
            ConfigError::MissingRequiredProperty(t, p) => {
                let mut m = "The [".to_owned();
                m.append(t.as_str());
                m.append("] table requires the ");
                m.append(p.as_str());
                m.append(" property, but it is absent.");
                m
            },
            ConfigError::NonStringProperty(p) => {
                let mut m = "The ".to_owned();
                m.append(p.as_str());
                m.append(" property should be specified as a string, but is not");
                m
            },
            ConfigError::InvalidValueOption(p, opts, v) => {
                let mut m = "The ".to_owned();
                m.append(p.as_str());
                m.append(" property should be one of ");
                let list = quoted_list(opts);
                m.append(list.as_str());
                m.append(", but is instead ");
                m.append(v.as_str());
                m
            },
            ConfigError::DuplicateProperty(p) => {
                let mut m = "The fel4 manifest had a duplicate property ".to_owned();
                m.append(p.as_str());
                m.append(" when resolved to a canonical set");
                m
            },
            ConfigError::NonWhitelistProperty(p) => {
                let mut m = "The ".to_owned();
                m.append(p.as_str());
                m.append(" property was supplied, but is not on the permitted whitelist");
                m
            },
        }
    }
}

/// The descriptive text of each discovery error.
pub open spec fn spec_discovery_message(e: SpecDiscoveryError) -> Seq<char> {
    match e {
        SpecDiscoveryError::MissingEnvVar(v) => {
            "Required environment variable "@ + v + " was absent"@
        },
        SpecDiscoveryError::InvalidBuildProfile(p) => {
            "The PROFILE environment variable had a value "@ + p
                + " that could not be interpreted as a BuildProfile instance"@
        },
    }
}

impl ManifestDiscoveryError {
    /// The descriptive message of this error, for the caller to surface
    /// verbatim.
    pub fn message(&self) -> (r: String)
        ensures
            r@ == spec_discovery_message(self.deep_view()),
    {
        match self {
            ManifestDiscoveryError::MissingEnvVar(v) => {
                let mut m = "Required environment variable ".to_owned();
                m.append(v.as_str());
                m.append(" was absent");
                m
            },
            ManifestDiscoveryError::InvalidBuildProfile(p) => {
                let mut m = "The PROFILE environment variable had a value ".to_owned();
                m.append(p.as_str());
                m.append(" that could not be interpreted as a BuildProfile instance");
                m
            },
        }
    }
}

impl Clone for ManifestDiscoveryError {
    fn clone(&self) -> (r: Self)
        ensures
            r.deep_view() == self.deep_view(),
    {
        match self {
            ManifestDiscoveryError::MissingEnvVar(v) => ManifestDiscoveryError::MissingEnvVar(
                v.clone(),
            ),
            ManifestDiscoveryError::InvalidBuildProfile(p) => ManifestDiscoveryError::InvalidBuildProfile(
                p.clone(),
            ),
        }
    }
}

/// The fixed allow-list of recognized property names.
pub open spec fn spec_is_whitelisted(s: Seq<char>) -> bool {
    ||| s == "BuildWithCommonSimulationSettings"@
    ||| s == "KernelOptimisation"@
    ||| s == "KernelVerificationBuild"@
    ||| s == "KernelBenchmarks"@
    ||| s == "KernelFastpath"@
    ||| s == "LibSel4FunctionAttributes"@
    ||| s == "KernelNumDomains"@
    ||| s == "HardwareDebugAPI"@
    ||| s == "KernelColourPrinting"@
    ||| s == "KernelFWholeProgram"@
    ||| s == "KernelResetChunkBits"@
    ||| s == "LibSel4DebugAllocBufferEntries"@
    ||| s == "LibSel4DebugFunctionInstrumentation"@
    ||| s == "KernelNumPriorities"@
    ||| s == "KernelStackBits"@
    ||| s == "KernelTimeSlice"@
    ||| s == "KernelTimerTickMS"@
    ||| s == "KernelUserStackTraceLength"@
    ||| s == "KernelArch"@
    ||| s == "KernelX86Sel4Arch"@
    ||| s == "KernelMaxNumNodes"@
    ||| s == "KernelRetypeFanOutLimit"@
    ||| s == "KernelRootCNodeSizeBits"@
    ||| s == "KernelMaxNumBootinfoUntypedCaps"@
    ||| s == "KernelSupportPCID"@
    ||| s == "KernelCacheLnSz"@
    ||| s == "KernelDebugDisablePrefetchers"@
    ||| s == "KernelExportPMCUser"@
    ||| s == "KernelFPU"@
    ||| s == "KernelFPUMaxRestoresSinceSwitch"@
    ||| s == "KernelFSGSBase"@
    ||| s == "KernelHugePage"@
    ||| s == "KernelIOMMU"@
    ||| s == "KernelIRQController"@
    ||| s == "KernelIRQReporting"@
    ||| s == "KernelLAPICMode"@
    ||| s == "KernelMaxNumIOAPIC"@
    ||| s == "KernelMaxNumWorkUnitsPerPreemption"@
    ||| s == "KernelMultiboot1Header"@
    ||| s == "KernelMultiboot2Header"@
    ||| s == "KernelMultibootGFXMode"@
    ||| s == "KernelSkimWindow"@
    ||| s == "KernelSyscall"@
    ||| s == "KernelVTX"@
    ||| s == "KernelX86DangerousMSR"@
    ||| s == "KernelX86IBPBOnContextSwitch"@
    ||| s == "KernelX86IBRSMode"@
    ||| s == "KernelX86RSBOnContextSwitch"@
    ||| s == "KernelXSaveSize"@
    ||| s == "LinkPageSize"@
    ||| s == "UserLinkerGCSections"@
    ||| s == "KernelX86MicroArch"@
    ||| s == "LibPlatSupportX86ConsoleDevice"@
    ||| s == "KernelDebugBuild"@
    ||| s == "KernelPrinting"@
    ||| s == "KernelArmSel4Arch"@
    ||| s == "KernelAArch32FPUEnableContextSwitch"@
    ||| s == "KernelDebugDisableBranchPrediction"@
    ||| s == "KernelIPCBufferLocation"@
    ||| s == "KernelARMPlatform"@
    ||| s == "ElfloaderImage"@
    ||| s == "ElfloaderMode"@
    ||| s == "ElfloaderErrata764369"@
    ||| s == "KernelArmEnableA9Prefetcher"@
    ||| s == "KernelArmExportPMUUser"@
    ||| s == "KernelDebugDisableL2Cache"@
}

/// Tests a property name against the fixed allow-list.
fn is_whitelisted_property(name: &str) -> (r: bool)
    ensures
        r == spec_is_whitelisted(name@),
{
    let mut r = str_eq(name, "BuildWithCommonSimulationSettings");
    r = r || str_eq(name, "KernelOptimisation");
    r = r || str_eq(name, "KernelVerificationBuild");
    r = r || str_eq(name, "KernelBenchmarks");
    r = r || str_eq(name, "KernelFastpath");
    r = r || str_eq(name, "LibSel4FunctionAttributes");
    r = r || str_eq(name, "KernelNumDomains");
    r = r || str_eq(name, "HardwareDebugAPI");
    r = r || str_eq(name, "KernelColourPrinting");
    r = r || str_eq(name, "KernelFWholeProgram");
    r = r || str_eq(name, "KernelResetChunkBits");
    r = r || str_eq(name, "LibSel4DebugAllocBufferEntries");
    r = r || str_eq(name, "LibSel4DebugFunctionInstrumentation");
    r = r || str_eq(name, "KernelNumPriorities");
    r = r || str_eq(name, "KernelStackBits");
    r = r || str_eq(name, "KernelTimeSlice");
    r = r || str_eq(name, "KernelTimerTickMS");
    r = r || str_eq(name, "KernelUserStackTraceLength");
    r = r || str_eq(name, "KernelArch");
    r = r || str_eq(name, "KernelX86Sel4Arch");
    r = r || str_eq(name, "KernelMaxNumNodes");
    r = r || str_eq(name, "KernelRetypeFanOutLimit");
    r = r || str_eq(name, "KernelRootCNodeSizeBits");
    r = r || str_eq(name, "KernelMaxNumBootinfoUntypedCaps");
    r = r || str_eq(name, "KernelSupportPCID");
    r = r || str_eq(name, "KernelCacheLnSz");
    r = r || str_eq(name, "KernelDebugDisablePrefetchers");
    r = r || str_eq(name, "KernelExportPMCUser");
    r = r || str_eq(name, "KernelFPU");
    r = r || str_eq(name, "KernelFPUMaxRestoresSinceSwitch");
    r = r || str_eq(name, "KernelFSGSBase");
    r = r || str_eq(name, "KernelHugePage");
    r = r || str_eq(name, "KernelIOMMU");
    r = r || str_eq(name, "KernelIRQController");
    r = r || str_eq(name, "KernelIRQReporting");
    r = r || str_eq(name, "KernelLAPICMode");
    r = r || str_eq(name, "KernelMaxNumIOAPIC");
    r = r || str_eq(name, "KernelMaxNumWorkUnitsPerPreemption");
    r = r || str_eq(name, "KernelMultiboot1Header");
    r = r || str_eq(name, "KernelMultiboot2Header");
    r = r || str_eq(name, "KernelMultibootGFXMode");
    r = r || str_eq(name, "KernelSkimWindow");
    r = r || str_eq(name, "KernelSyscall");
    r = r || str_eq(name, "KernelVTX");
    r = r || str_eq(name, "KernelX86DangerousMSR");
    r = r || str_eq(name, "KernelX86IBPBOnContextSwitch");
    r = r || str_eq(name, "KernelX86IBRSMode");
    r = r || str_eq(name, "KernelX86RSBOnContextSwitch");
    r = r || str_eq(name, "KernelXSaveSize");
    r = r || str_eq(name, "LinkPageSize");
    r = r || str_eq(name, "UserLinkerGCSections");
    r = r || str_eq(name, "KernelX86MicroArch");
    r = r || str_eq(name, "LibPlatSupportX86ConsoleDevice");
    r = r || str_eq(name, "KernelDebugBuild");
    r = r || str_eq(name, "KernelPrinting");
    r = r || str_eq(name, "KernelArmSel4Arch");
    r = r || str_eq(name, "KernelAArch32FPUEnableContextSwitch");
    r = r || str_eq(name, "KernelDebugDisableBranchPrediction");
    r = r || str_eq(name, "KernelIPCBufferLocation");
    r = r || str_eq(name, "KernelARMPlatform");
    r = r || str_eq(name, "ElfloaderImage");
    r = r || str_eq(name, "ElfloaderMode");
    r = r || str_eq(name, "ElfloaderErrata764369");
    r = r || str_eq(name, "KernelArmEnableA9Prefetcher");
    r = r || str_eq(name, "KernelArmExportPMUUser");
    r = r || str_eq(name, "KernelDebugDisableL2Cache");
    r
}

/// Whether any property in the sequence bears the given name.
pub open spec fn spec_has_name(ps: Seq<SpecProperty>, name: Seq<char>) -> bool {
    exists|i: int| 0 <= i < ps.len() && ps[i].name == name
}

/// Inserts a group of properties into an accumulating map, in order,
/// failing on the first name already present. There is no overwriting: a
/// repeated name is always a hard error.
pub open spec fn spec_add_properties(acc: Seq<SpecProperty>, src: Seq<SpecProperty>) -> Result<
    Seq<SpecProperty>,
    SpecError,
>
    decreases src.len(),
{
    if src.len() == 0 {
        Ok(acc)
    } else {
        match spec_add_properties(acc, src.drop_last()) {
            Err(e) => Err(e),
            Ok(cur) => if spec_has_name(cur, src.last().name) {
                Err(SpecError::DuplicateProperty(src.last().name))
            } else {
                Ok(cur.push(src.last()))
            },
        }
    }
}

proof fn lemma_add_properties_err_persists(acc: Seq<SpecProperty>, src: Seq<SpecProperty>, i: int)
    requires
        0 <= i <= src.len(),
        spec_add_properties(acc, src.take(i)) is Err,
    ensures
        spec_add_properties(acc, src) == spec_add_properties(acc, src.take(i)),
    decreases src.len() - i,
{
    if i < src.len() {
        assert(src.take(i + 1).drop_last() =~= src.take(i));
        lemma_add_properties_err_persists(acc, src, i + 1);
    } else {
        assert(src.take(i) =~= src);
    }
}

/// Whether the accumulated properties already hold the given name.
fn contains_name(ps: &Vec<FlatTomlProperty>, name: &str) -> (r: bool)
    ensures
        r == spec_has_name(ps.deep_view(), name@),
{
    let ghost model = ps.deep_view();
    let mut i: usize = 0;
    while i < ps.len()
        invariant
            0 <= i <= ps.len(),
            model == ps.deep_view(),
            forall|j: int| 0 <= j < i ==> model[j].name != name@,
        decreases ps.len() - i,
    {
        if str_eq(ps[i].name.as_str(), name) {
            proof {
                assert(0 <= i < model.len() && model[i as int].name == name@);
            }
            return true;
        }
        i += 1;
    }
    false
}

/// Inserts one group of properties into the accumulating map, failing with
/// the first duplicated name.
fn add_properties_to_map(map: &mut Vec<FlatTomlProperty>, source: &Vec<FlatTomlProperty>) -> (r:
    Result<(), ConfigError>)
    ensures
        match r {
            Ok(_) => spec_add_properties(old(map).deep_view(), source.deep_view()) == Ok::<
                _,
                SpecError,
            >(final(map).deep_view()),
            Err(e) => spec_add_properties(old(map).deep_view(), source.deep_view()) == Err::<
                Seq<SpecProperty>,
                _,
            >(e.deep_view()),
        },
{
    let ghost base = map.deep_view();
    let ghost src = source.deep_view();
    let mut i: usize = 0;
    proof {
        assert(src.take(0) =~= Seq::<SpecProperty>::empty());
    }
    while i < source.len()
        invariant
            0 <= i <= source.len(),
            base == old(map).deep_view(),
            src == source.deep_view(),
            spec_add_properties(base, src.take(i as int)) == Ok::<_, SpecError>(map.deep_view()),
        decreases source.len() - i,
    {
        proof {
            assert(src.take(i + 1).drop_last() =~= src.take(i as int));
            assert(src.take(i + 1).last() == src[i as int]);
        }
        if contains_name(map, source[i].name.as_str()) {
            proof {
                lemma_add_properties_err_persists(base, src, i + 1);
            }
            return Err(ConfigError::DuplicateProperty(source[i].name.clone()));
        }
        let ghost old_dv = map.deep_view();
        let p = source[i].clone();
        map.push(p);
        proof {
            assert(map.deep_view() =~= old_dv.push(src[i as int]));
        }
        i += 1;
    }
    proof {
        assert(src.take(source@.len() as int) =~= src);
    }
    Ok(())
}

/// The first property, in map order, whose name falls outside the
/// allow-list; `Ok` when every name is recognized.
pub open spec fn spec_whitelist_check(ps: Seq<SpecProperty>) -> Result<(), SpecError>
    decreases ps.len(),
{
    if ps.len() == 0 {
        Ok(())
    } else if !spec_is_whitelisted(ps[0].name) {
        Err(SpecError::NonWhitelistProperty(ps[0].name))
    } else {
        spec_whitelist_check(ps.drop_first())
    }
}

proof fn lemma_whitelist_check_skip(ps: Seq<SpecProperty>, i: int)
    requires
        0 <= i <= ps.len(),
        forall|j: int| 0 <= j < i ==> spec_is_whitelisted(ps[j].name),
    ensures
        spec_whitelist_check(ps) == spec_whitelist_check(ps.skip(i)),
    decreases i,
{
    if i > 0 {
        assert(spec_is_whitelisted(ps[0].name));
        lemma_whitelist_check_skip(ps.drop_first(), i - 1);
        assert(ps.drop_first().skip(i - 1) =~= ps.skip(i));
    } else {
        assert(ps.skip(0) =~= ps);
    }
}

/// Scans the merged properties for a name outside the allow-list.
fn check_whitelist(ps: &Vec<FlatTomlProperty>) -> (r: Result<(), ConfigError>)
    ensures
        match r {
            Ok(_) => spec_whitelist_check(ps.deep_view()) == Ok::<(), SpecError>(()),
            Err(e) => spec_whitelist_check(ps.deep_view()) == Err::<(), _>(e.deep_view()),
        },
{
    let ghost model = ps.deep_view();
    let mut i: usize = 0;
    while i < ps.len()
        invariant
            0 <= i <= ps.len(),
            model == ps.deep_view(),
            forall|j: int| 0 <= j < i ==> spec_is_whitelisted(model[j].name),
        decreases ps.len() - i,
    {
        if !is_whitelisted_property(ps[i].name.as_str()) {
            proof {
                lemma_whitelist_check_skip(model, i as int);
            }
            return Err(ConfigError::NonWhitelistProperty(ps[i].name.clone()));
        }
        i += 1;
    }
    proof {
        lemma_whitelist_check_skip(model, ps@.len() as int);
    }
    Ok(())
}

/// The value under the first entry with the given key, if any.
pub open spec fn spec_assoc<K, V>(es: Seq<(K, V)>, key: K) -> Option<V>
    decreases es.len(),
{
    if es.len() == 0 {
        None
    } else if es[0].0 == key {
        Some(es[0].1)
    } else {
        spec_assoc(es.drop_first(), key)
    }
}

proof fn lemma_assoc_skip<K, V>(es: Seq<(K, V)>, key: K, i: int)
    requires
        0 <= i <= es.len(),
        forall|j: int| 0 <= j < i ==> es[j].0 != key,
    ensures
        spec_assoc(es, key) == spec_assoc(es.skip(i), key),
    decreases i,
{
    if i > 0 {
        assert(es[0].0 != key);
        lemma_assoc_skip(es.drop_first(), key, i - 1);
        assert(es.drop_first().skip(i - 1) =~= es.skip(i));
    } else {
        assert(es.skip(0) =~= es);
    }
}

/// The first declared target with the given identity, if any.
pub open spec fn spec_find_target(ts: Seq<SpecTarget>, t: SupportedTarget) -> Option<SpecTarget>
    decreases ts.len(),
{
    if ts.len() == 0 {
        None
    } else if ts[0].identity == t {
        Some(ts[0])
    } else {
        spec_find_target(ts.drop_first(), t)
    }
}

proof fn lemma_find_target_skip(ts: Seq<SpecTarget>, t: SupportedTarget, i: int)
    requires
        0 <= i <= ts.len(),
        forall|j: int| 0 <= j < i ==> ts[j].identity != t,
    ensures
        spec_find_target(ts, t) == spec_find_target(ts.skip(i), t),
    decreases i,
{
    if i > 0 {
        assert(ts[0].identity != t);
        lemma_find_target_skip(ts.drop_first(), t, i - 1);
        assert(ts.drop_first().skip(i - 1) =~= ts.skip(i));
    } else {
        assert(ts.skip(0) =~= ts);
    }
}

/// Finds the declared contents of the given target in a parsed manifest.
fn find_target<'a>(targets: &'a Vec<FullFel4Target>, t: SupportedTarget) -> (r: Option<
    &'a FullFel4Target,
>)
    ensures
        match r {
            Some(ft) => spec_find_target(targets.deep_view(), t) == Some(ft.deep_view()),
            None => spec_find_target(targets.deep_view(), t) is None,
        },
{
    let ghost model = targets.deep_view();
    let mut i: usize = 0;
    while i < targets.len()
        invariant
            0 <= i <= targets.len(),
            model == targets.deep_view(),
            forall|j: int| 0 <= j < i ==> model[j].identity != t,
        decreases targets.len() - i,
    {
        if targets[i].identity == t {
            proof {
                lemma_find_target_skip(model, t, i as int);
            }
            return Some(&targets[i]);
        }
        i += 1;
    }
    proof {
        lemma_find_target_skip(model, t, targets@.len() as int);
    }
    None
}

/// Finds the overlay recorded for a build profile, when the manifest
/// declared a subtable for it.
fn find_profile_overlay<'a>(t: &'a FullFel4Target, b: BuildProfile) -> (r: Option<
    &'a Vec<FlatTomlProperty>,
>)
    ensures
        match r {
            Some(ps) => spec_assoc(t.build_profile_properties.deep_view(), b) == Some(
                ps.deep_view(),
            ),
            None => spec_assoc(t.build_profile_properties.deep_view(), b) is None,
        },
{
    let es = &t.build_profile_properties;
    let ghost model = es.deep_view();
    let mut i: usize = 0;
    while i < es.len()
        invariant
            0 <= i <= es.len(),
            model == es.deep_view(),
            model == t.build_profile_properties.deep_view(),
            forall|j: int| 0 <= j < i ==> model[j].0 != b,
        decreases es.len() - i,
    {
        if es[i].0 == b {
            proof {
                lemma_assoc_skip(model, b, i as int);
            }
            return Some(&es[i].1);
        }
        i += 1;
    }
    proof {
        lemma_assoc_skip(model, b, es@.len() as int);
    }
    None
}

/// Finds the overlay recorded for a platform, when the manifest declared a
/// subtable for it.
fn find_platform_overlay<'a>(t: &'a FullFel4Target, p: SupportedPlatform) -> (r: Option<
    &'a Vec<FlatTomlProperty>,
>)
    ensures
        match r {
            Some(ps) => spec_assoc(t.platform_properties.deep_view(), p) == Some(ps.deep_view()),
            None => spec_assoc(t.platform_properties.deep_view(), p) is None,
        },
{
    let es = &t.platform_properties;
    let ghost model = es.deep_view();
    let mut i: usize = 0;
    while i < es.len()
        invariant
            0 <= i <= es.len(),
            model == es.deep_view(),
            model == t.platform_properties.deep_view(),
            forall|j: int| 0 <= j < i ==> model[j].0 != p,
        decreases es.len() - i,
    {
        if es[i].0 == p {
            proof {
                lemma_assoc_skip(model, p, i as int);
            }
            return Some(&es[i].1);
        }
        i += 1;
    }
    proof {
        lemma_assoc_skip(model, p, es@.len() as int);
    }
    None
}

/// What resolution yields for a parsed manifest and a requested build
/// profile: the selected target must be declared, its direct properties,
/// the requested profile's overlay, and the selected platform's overlay are
/// merged in that order with every repeated name a hard error, and, when
/// the policy asks for it, every merged name must sit on the allow-list.
/// An axis whose subtable was never declared is a missing table, even
/// though a declared-but-empty one contributes nothing. The allow-list
/// check runs only after the whole merge succeeds, so it never masks a
/// duplicate.
pub open spec fn spec_resolve_with(
    m: SpecManifest,
    profile: BuildProfile,
    enforce_whitelist: bool,
) -> Result<SpecConfig, SpecError> {
    match spec_find_target(m.targets, m.selected_target) {
        None => Err(SpecError::MissingTable(spec_target_name(m.selected_target))),
        Some(t) => match spec_add_properties(Seq::empty(), t.direct) {
            Err(e) => Err(e),
            Ok(m1) => match spec_assoc(t.profile_props, profile) {
                None => Err(
                    SpecError::MissingTable(
                        spec_target_name(m.selected_target) + "."@ + spec_profile_name(profile),
                    ),
                ),
                Some(pp) => match spec_add_properties(m1, pp) {
                    Err(e) => Err(e),
                    Ok(m2) => match spec_assoc(t.platform_props, m.selected_platform) {
                        None => Err(
                            SpecError::MissingTable(
                                spec_target_name(m.selected_target) + "."@ + spec_platform_name(
                                    m.selected_platform,
                                ),
                            ),
                        ),
                        Some(lp) => match spec_add_properties(m2, lp) {
                            Err(e) => Err(e),
                            Ok(m3) => {
                                let cfg = SpecConfig {
                                    artifact_path: m.artifact_path,
                                    target_specs_path: m.target_specs_path,
                                    target: m.selected_target,
                                    platform: m.selected_platform,
                                    build_profile: profile,
                                    properties: m3,
                                };
                                if enforce_whitelist {
                                    match spec_whitelist_check(m3) {
                                        Err(e) => Err(e),
                                        Ok(_) => Ok(cfg),
                                    }
                                } else {
                                    Ok(cfg)
                                }
                            },
                        },
                    },
                },
            },
        },
    }
}

/// Resolution under the default policy: the allow-list is enforced.
pub open spec fn spec_resolve(m: SpecManifest, profile: BuildProfile) -> Result<
    SpecConfig,
    SpecError,
> {
    spec_resolve_with(m, profile, true)
}

/// Whether the property names in a sequence are pairwise distinct.
pub open spec fn spec_names_unique(ps: Seq<SpecProperty>) -> bool {
    forall|i: int, j: int| 0 <= i < j < ps.len() ==> ps[i].name != ps[j].name
}

proof fn lemma_add_properties_preserves_unique(
    acc: Seq<SpecProperty>,
    src: Seq<SpecProperty>,
    res: Seq<SpecProperty>,
)
    requires
        spec_names_unique(acc),
        spec_add_properties(acc, src) == Ok::<Seq<SpecProperty>, SpecError>(res),
    ensures
        spec_names_unique(res),
    decreases src.len(),
{
    if src.len() > 0 {
        let mid = spec_add_properties(acc, src.drop_last())->Ok_0;
        lemma_add_properties_preserves_unique(acc, src.drop_last(), mid);
        assert(res == mid.push(src.last()));
        assert(!spec_has_name(mid, src.last().name));
        assert forall|i: int, j: int| 0 <= i < j < res.len() implies res[i].name != res[j].name by {
            if j < res.len() - 1 {
                assert(res[i] == mid[i] && res[j] == mid[j]);
            } else {
                assert(res[i] == mid[i] && res[j] == src.last());
            }
        }
    }
}

proof fn lemma_whitelist_check_ok_all(ps: Seq<SpecProperty>)
    requires
        spec_whitelist_check(ps) is Ok,
    ensures
        forall|i: int| 0 <= i < ps.len() ==> spec_is_whitelisted(#[trigger] ps[i].name),
    decreases ps.len(),
{
    if ps.len() > 0 {
        lemma_whitelist_check_ok_all(ps.drop_first());
        assert forall|i: int| 0 <= i < ps.len() implies spec_is_whitelisted(
            #[trigger] ps[i].name,
        ) by {
            if i > 0 {
                assert(ps[i] == ps.drop_first()[i - 1]);
            }
        }
    }
}

/// A successfully resolved configuration holds no duplicate property name:
/// the flattening of the three overlay groups would have failed otherwise.
pub proof fn lemma_resolved_properties_unique(
    m: SpecManifest,
    profile: BuildProfile,
    c: SpecConfig,
)
    requires
        spec_resolve(m, profile) == Ok::<SpecConfig, SpecError>(c),
    ensures
        spec_names_unique(c.properties),
{
    let t = spec_find_target(m.targets, m.selected_target)->0;
    let m1 = spec_add_properties(Seq::empty(), t.direct)->Ok_0;
    let pp = spec_assoc(t.profile_props, profile)->0;
    let m2 = spec_add_properties(m1, pp)->Ok_0;
    let lp = spec_assoc(t.platform_props, m.selected_platform)->0;
    let m3 = spec_add_properties(m2, lp)->Ok_0;
    assert(spec_names_unique(Seq::<SpecProperty>::empty()));
    lemma_add_properties_preserves_unique(Seq::empty(), t.direct, m1);
    lemma_add_properties_preserves_unique(m1, pp, m2);
    lemma_add_properties_preserves_unique(m2, lp, m3);
    assert(c.properties == m3);
}

/// Every property of a successfully resolved configuration bears a name on
/// the fixed allow-list: resolution would have failed on the first name
/// outside it.
pub proof fn lemma_resolved_properties_whitelisted(
    m: SpecManifest,
    profile: BuildProfile,
    c: SpecConfig,
)
    requires
        spec_resolve(m, profile) == Ok::<SpecConfig, SpecError>(c),
    ensures
        forall|i: int|
            0 <= i < c.properties.len() ==> spec_is_whitelisted(#[trigger] c.properties[i].name),
{
    lemma_whitelist_check_ok_all(c.properties);
}

/// Resolve and validate a particular fel4 configuration for the given
/// build profile and the selected target and platform found in the full
/// manifest, stating explicitly whether the property allow-list is
/// enforced.
pub fn resolve_fel4_config_with_policy(
    full: &FullFel4Manifest,
    build_profile: &BuildProfile,
    enforce_whitelist: bool,
) -> (r: Result<Fel4Config, ConfigError>)
    ensures
        res_view(r) == spec_resolve_with(full.deep_view(), *build_profile, enforce_whitelist),
{
    let selected_target = full.selected_target;
    let platform = full.selected_platform;
    let target = match find_target(&full.targets, selected_target) {
        None => {
            return Err(ConfigError::MissingTable(selected_target.full_name().to_owned()));
        },
        Some(t) => t,
    };
    let mut properties: Vec<FlatTomlProperty> = Vec::new();
    proof {
        assert(properties.deep_view() =~= Seq::<SpecProperty>::empty());
    }
    match add_properties_to_map(&mut properties, &target.direct_properties) {
        Err(e) => {
            return Err(e);
        },
        Ok(_) => {},
    }
    let profile_properties = match find_profile_overlay(target, *build_profile) {
        None => {
            let mut path = selected_target.full_name().to_owned();
            path.append(".");
            path.append(build_profile.full_name());
            return Err(ConfigError::MissingTable(path));
        },
        Some(ps) => ps,
    };
    match add_properties_to_map(&mut properties, profile_properties) {
        Err(e) => {
            return Err(e);
        },
        Ok(_) => {},
    }
    let platform_properties = match find_platform_overlay(target, platform) {
        None => {
            let mut path = selected_target.full_name().to_owned();
            path.append(".");
            path.append(platform.full_name());
            return Err(ConfigError::MissingTable(path));
        },
        Some(ps) => ps,
    };
    match add_properties_to_map(&mut properties, platform_properties) {
        Err(e) => {
            return Err(e);
        },
        Ok(_) => {},
    }
    if enforce_whitelist {
        match check_whitelist(&properties) {
            Err(e) => {
                return Err(e);
            },
            Ok(_) => {},
        }
    }
    Ok(
        Fel4Config {
            artifact_path: full.artifact_path.clone(),
            target_specs_path: full.target_specs_path.clone(),
            target: selected_target,
            platform,
            build_profile: *build_profile,
            properties,
        },
    )
}

/// Resolve and validate a particular fel4 configuration for the given
/// build profile and the selected target and platform found in the full
/// manifest. The property allow-list is enforced.
pub fn resolve_fel4_config(full: &FullFel4Manifest, build_profile: &BuildProfile) -> (r: Result<
    Fel4Config,
    ConfigError,
>)
    ensures
        res_view(r) == spec_resolve(full.deep_view(), *build_profile),
{
    resolve_fel4_config_with_policy(full, build_profile, true)
}

} // verus!
