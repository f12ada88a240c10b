pub mod emit;
pub mod eval;
pub mod laws;
pub mod model;
pub mod options;
pub mod synth;

use vstd::prelude::*;

use crate::emit::{emit, GeneratedImpl, TypeGenerics};
use crate::model::{
    first_conflict_at, shape_conflict_free, validate_shape, ComparisonFlavor, GenError, TypeShape,
};
use crate::options::{config_complete, missing_option_at, resolve_config, RawConfig};
use crate::synth::synth_post;

verus! {

/// One generation request, as the annotation front end hands it over:
/// the declared type's name, its generic parameters, its type-level
/// tolerance configuration, and its structural shape. Built fresh per
/// request and never shared.
#[derive(Clone, Debug)]
pub struct DeriveRequest {
    pub ident: String,
    pub generics: TypeGenerics,
    pub config: RawConfig,
    pub shape: TypeShape,
}

/// What a whole generation run for one flavor returns: on success —
/// possible exactly when no field carries conflicting directives and
/// the configuration is complete — the flavor's generated output,
/// with the type's name and generics carried over verbatim, the
/// flavor's default expression relocated, and the comparison
/// synthesized for the request's shape; on failure, the precise
/// rejection, and no output at all.
pub open spec fn derive_post(
    req: DeriveRequest,
    flavor: ComparisonFlavor,
    r: Result<GeneratedImpl, GenError>,
) -> bool {
    match r {
        Ok(g) => {
            &&& shape_conflict_free(req.shape)
            &&& config_complete(req.config)
            &&& g.flavor == flavor
            &&& g.ident == req.ident
            &&& g.generics == req.generics
            &&& req.config.epsilon_type == Some(g.epsilon_type)
            &&& match flavor {
                ComparisonFlavor::AbsoluteDifference => req.config.default_absolute == Some(
                    g.default_value,
                ),
                ComparisonFlavor::Relative => req.config.default_relative == Some(g.default_value),
            }
            &&& synth_post(req.shape, flavor, g.comparison)
        },
        Err(e) => match e {
            GenError::ConflictingDirectives(p) => first_conflict_at(req.shape, p),
            GenError::MissingRequiredOption(which) => {
                &&& shape_conflict_free(req.shape)
                &&& missing_option_at(req.config, which)
            },
        },
    }
}

/// Runs one generation request for one flavor: validates the
/// annotation model, resolves the configuration, synthesizes the
/// comparison and emits the flavor's procedures.
fn derive_flavor(req: DeriveRequest, flavor: ComparisonFlavor) -> (r: Result<
    GeneratedImpl,
    GenError,
>)
    ensures
        derive_post(req, flavor, r),
{
    if let Err(e) = validate_shape(&req.shape) {
        return Err(e);
    }
    let DeriveRequest { ident, generics, config, shape } = req;
    let tolerance = match resolve_config(config) {
        Ok(c) => c,
        Err(e) => {
            return Err(e);
        },
    };
    Ok(emit(ident, generics, &tolerance, &shape, flavor))
}

/// Generates the absolute-difference equality procedures for a type:
/// a comparator taking one tolerance (`epsilon`), and the
/// zero-argument provider of the type's default absolute tolerance.
pub fn abs_diff_eq(req: DeriveRequest) -> (r: Result<GeneratedImpl, GenError>)
    ensures
        derive_post(req, ComparisonFlavor::AbsoluteDifference, r),
{
    derive_flavor(req, ComparisonFlavor::AbsoluteDifference)
}

/// Generates the relative equality procedures for a type: a
/// comparator taking two tolerances (`epsilon` and `max_relative`),
/// and the zero-argument provider of the type's default relative
/// tolerance.
pub fn relative_eq(req: DeriveRequest) -> (r: Result<GeneratedImpl, GenError>)
    ensures
        derive_post(req, ComparisonFlavor::Relative, r),
{
    derive_flavor(req, ComparisonFlavor::Relative)
}

} // verus!
