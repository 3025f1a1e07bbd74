use vstd::prelude::*;

use crate::text::str_eq;
use crate::types::{Fel4Config, spec_target_name};

verus! {

/// Ghost model of a failure while preparing an external kernel build
/// configuration from fel4 data.
pub ghost enum SpecCmakeError {
    MissingRequiredEnvVar(Seq<char>),
    CargoTargetToFel4TargetMismatch(Seq<char>, Seq<char>),
}

/// What can go wrong when configuring the external kernel build from fel4
/// configuration data.
#[derive(Debug, PartialEq)]
pub enum CmakeConfigurationError {
    /// Missing the named required environment variable
    MissingRequiredEnvVar(String),
    /// The build is running for the first target, however the fel4 manifest
    /// has declared the second
    CargoTargetToFel4TargetMismatch(String, String),
}

impl DeepView for CmakeConfigurationError {
    type V = SpecCmakeError;

    open spec fn deep_view(&self) -> SpecCmakeError {
        match self {
            CmakeConfigurationError::MissingRequiredEnvVar(v) => SpecCmakeError::MissingRequiredEnvVar(
                v.deep_view(),
            ),
            CmakeConfigurationError::CargoTargetToFel4TargetMismatch(c, f) => SpecCmakeError::CargoTargetToFel4TargetMismatch(
                c.deep_view(),
                f.deep_view(),
            ),
        }
    }
}

/// The descriptive text of each kernel-build configuration error.
pub open spec fn spec_cmake_message(e: SpecCmakeError) -> Seq<char> {
    match e {
        SpecCmakeError::MissingRequiredEnvVar(v) => {
            "Missing the required "@ + v + " environment variable"@
        },
        SpecCmakeError::CargoTargetToFel4TargetMismatch(c, f) => {
            "Cargo is attempting to build for the "@ + c
                + " target, however fel4.toml has declared the target to be "@ + f
        },
    }
}

impl CmakeConfigurationError {
    /// The descriptive message of this error, for the caller to surface
    /// verbatim.
    pub fn message(&self) -> (r: String)
        ensures
            r@ == spec_cmake_message(self.deep_view()),
    {
        match self {
            CmakeConfigurationError::MissingRequiredEnvVar(v) => {
                let mut m = "Missing the required ".to_owned();
                m.append(v.as_str());
                m.append(" environment variable");
                m
            },
            CmakeConfigurationError::CargoTargetToFel4TargetMismatch(c, f) => {
                let mut m = "Cargo is attempting to build for the ".to_owned();
                m.append(c.as_str());
                m.append(" target, however fel4.toml has declared the target to be ");
                m.append(f.as_str());
                m
            },
        }
    }
}

impl Clone for CmakeConfigurationError {
    fn clone(&self) -> (r: Self)
        ensures
            r.deep_view() == self.deep_view(),
    {
        match self {
            CmakeConfigurationError::MissingRequiredEnvVar(v) => CmakeConfigurationError::MissingRequiredEnvVar(
                v.clone(),
            ),
            CmakeConfigurationError::CargoTargetToFel4TargetMismatch(c, f) => CmakeConfigurationError::CargoTargetToFel4TargetMismatch(
                c.clone(),
                f.clone(),
            ),
        }
    }
}

/// Decides whether the target the build system is running for agrees with
/// the target a resolved configuration declares; disagreement is the
/// mismatch error, naming the build system's target first.
pub fn validate_cargo_target(fel4_config: &Fel4Config, cargo_target: &str) -> (r: Result<
    (),
    CmakeConfigurationError,
>)
    ensures
        match r {
            Ok(_) => cargo_target@ == spec_target_name(fel4_config.target),
            Err(e) => cargo_target@ != spec_target_name(fel4_config.target) && e.deep_view()
                == SpecCmakeError::CargoTargetToFel4TargetMismatch(
                cargo_target@,
                spec_target_name(fel4_config.target),
            ),
        },
{
    if str_eq(cargo_target, fel4_config.target.full_name()) {
        Ok(())
    } else {
        Err(
            CmakeConfigurationError::CargoTargetToFel4TargetMismatch(
                cargo_target.to_owned(),
                fel4_config.target.full_name().to_owned(),
            ),
        )
    }
}

} // verus!
