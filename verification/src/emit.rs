use vstd::prelude::*;

use crate::model::{ComparisonFlavor, TypeShape};
use crate::options::ToleranceConfig;
use crate::synth::{synth_post, synthesize, CmpExpr};

verus! {

/// The generic parameters declared on the source type, copied
/// verbatim — parameter list and `where`-style constraints — onto the
/// generated procedures' enclosing scope. No constraint is inferred
/// or added here.
#[derive(Clone, Debug)]
pub struct TypeGenerics {
    pub params: Vec<String>,
    pub where_clause: Option<String>,
}

/// One flavor's complete generated output for a type, ready for the
/// textual emission back end:
/// - the comparator procedure's body (`comparison`, evaluated over
///   two instances with `epsilon`, and for the relative flavor also
///   `max_relative`), and
/// - the zero-argument defaulting procedure's body (`default_value`,
///   the user's stored expression relocated verbatim, unevaluated
///   until the generated procedure is called),
/// together with the type's name, its generic parameters, and the
/// declared tolerance type.
#[derive(Clone, Debug)]
pub struct GeneratedImpl {
    pub flavor: ComparisonFlavor,
    pub ident: String,
    pub generics: TypeGenerics,
    pub epsilon_type: String,
    pub default_value: String,
    pub comparison: CmpExpr,
}

/// The default expression a flavor's zero-argument procedure returns.
pub open spec fn default_for(config: ToleranceConfig, flavor: ComparisonFlavor) -> String {
    match flavor {
        ComparisonFlavor::AbsoluteDifference => config.default_absolute,
        ComparisonFlavor::Relative => config.default_relative,
    }
}

/// The procedure emitter: wraps the synthesized comparison for
/// `shape` under `flavor` into that flavor's generated output,
/// propagating the type's name and generic parameters verbatim.
pub fn emit(
    ident: String,
    generics: TypeGenerics,
    config: &ToleranceConfig,
    shape: &TypeShape,
    flavor: ComparisonFlavor,
) -> (g: GeneratedImpl)
    ensures
        g.flavor == flavor,
        g.ident == ident,
        g.generics == generics,
        g.epsilon_type == config.epsilon_type,
        g.default_value == default_for(*config, flavor),
        synth_post(*shape, flavor, g.comparison),
{
    let default_value = match flavor {
        ComparisonFlavor::AbsoluteDifference => config.default_absolute.clone(),
        ComparisonFlavor::Relative => config.default_relative.clone(),
    };
    GeneratedImpl {
        flavor,
        ident,
        generics,
        epsilon_type: config.epsilon_type.clone(),
        default_value,
        comparison: synthesize(shape, flavor),
    }
}

} // verus!
