use vstd::prelude::*;

use crate::model::{GenError, RequiredOption};

verus! {

/// The type-level configuration exactly as the annotation front end
/// found it: each piece present or absent. The two default
/// expressions are opaque source text, never evaluated here.
#[derive(Clone, Debug)]
pub struct RawConfig {
    pub epsilon_type: Option<String>,
    pub default_absolute: Option<String>,
    pub default_relative: Option<String>,
}

/// The resolved per-type configuration: the tolerance type and the
/// two default-tolerance expressions, all required, supplied once per
/// type and shared by both comparison flavors.
#[derive(Clone, Debug)]
pub struct ToleranceConfig {
    pub epsilon_type: String,
    pub default_absolute: String,
    pub default_relative: String,
}

/// The raw configuration carries every required piece.
pub open spec fn config_complete(raw: RawConfig) -> bool {
    &&& raw.epsilon_type is Some
    &&& raw.default_absolute is Some
    &&& raw.default_relative is Some
}

/// `which` is the first absent required piece of `raw`, in the order
/// tolerance type, absolute default, relative default.
pub open spec fn missing_option_at(raw: RawConfig, which: RequiredOption) -> bool {
    match which {
        RequiredOption::EpsilonType => raw.epsilon_type is None,
        RequiredOption::DefaultAbsolute => raw.epsilon_type is Some && raw.default_absolute is None,
        RequiredOption::DefaultRelative => {
            &&& raw.epsilon_type is Some
            &&& raw.default_absolute is Some
            &&& raw.default_relative is None
        },
    }
}

/// The options resolver: produces the single configuration object
/// both derive requests for a type must agree on, or fails naming the
/// first absent piece (tolerance type, then absolute default, then
/// relative default).
pub fn resolve_config(raw: RawConfig) -> (r: Result<ToleranceConfig, GenError>)
    ensures
        match r {
            Ok(c) => {
                &&& raw.epsilon_type == Some(c.epsilon_type)
                &&& raw.default_absolute == Some(c.default_absolute)
                &&& raw.default_relative == Some(c.default_relative)
            },
            Err(e) => match e {
                GenError::MissingRequiredOption(which) => missing_option_at(raw, which),
                GenError::ConflictingDirectives(_) => false,
            },
        },
{
    match (raw.epsilon_type, raw.default_absolute, raw.default_relative) {
        (Some(epsilon_type), Some(default_absolute), Some(default_relative)) => Ok(
            ToleranceConfig { epsilon_type, default_absolute, default_relative },
        ),
        (None, _, _) => Err(GenError::MissingRequiredOption(RequiredOption::EpsilonType)),
        (Some(_), None, _) => Err(GenError::MissingRequiredOption(RequiredOption::DefaultAbsolute)),
        (Some(_), Some(_), None) => Err(
            GenError::MissingRequiredOption(RequiredOption::DefaultRelative),
        ),
    }
}

} // verus!
