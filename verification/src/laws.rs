use vstd::prelude::*;

use crate::emit::GeneratedImpl;
use crate::eval::{
    eval_conj, eval_expr, lemma_eval_conj_pointwise, scalar_same, Instance, ScalarVal,
};
use crate::model::{
    field_spec_ok, first_conflict_at, flags_at, list_conflict_free, list_len, shape_conflict_free,
    ComparisonFlavor, FieldList, FieldPath, GenError, TypeShape, Variant,
};
use crate::synth::{
    active_indices, active_up_to, comp_for, opt_name_view, synth_post, ArmCmp, CmpExpr, FieldCmp,
    LeafOp,
};
use crate::{derive_post, DeriveRequest};

verus! {

/// Two leaf comparisons read the same field and classify it the same
/// way (exact versus approximate); only the tolerance call they would
/// emit may differ.
pub open spec fn plan_match(ca: FieldCmp, cb: FieldCmp) -> bool {
    &&& ca.index == cb.index
    &&& opt_name_view(ca.name) == opt_name_view(cb.name)
    &&& (ca.op == LeafOp::Exact <==> cb.op == LeafOp::Exact)
}

pub open spec fn plans_match(a: Seq<FieldCmp>, b: Seq<FieldCmp>) -> bool {
    &&& a.len() == b.len()
    &&& forall|k: int| 0 <= k < a.len() ==> plan_match(#[trigger] a[k], #[trigger] b[k])
}

/// Two dispatch arms cover the same variant layout and make the same
/// field-selection decisions.
pub open spec fn arm_plan_match(aa: ArmCmp, ab: ArmCmp) -> bool {
    &&& aa.variant_name@ == ab.variant_name@
    &&& aa.style == ab.style
    &&& aa.field_count == ab.field_count
    &&& plans_match(aa.comps@, ab.comps@)
}

/// Two synthesized expressions make identical traversal and
/// field-selection decisions: same dispatch structure, same visited
/// fields in the same order, same skip/approximate classification.
pub open spec fn same_plan(ea: CmpExpr, eb: CmpExpr) -> bool {
    match (ea, eb) {
        (CmpExpr::Fields(ca), CmpExpr::Fields(cb)) => plans_match(ca@, cb@),
        (CmpExpr::Dispatch(aa), CmpExpr::Dispatch(ab)) => {
            &&& aa@.len() == ab@.len()
            &&& forall|j: int|
                0 <= j < aa@.len() ==> arm_plan_match(#[trigger] aa@[j], #[trigger] ab@[j])
        },
        _ => false,
    }
}

/// Two leaf comparisons are the same comparison: same field, same
/// identifier, same leaf strategy.
pub open spec fn comp_view_match(ca: FieldCmp, cb: FieldCmp) -> bool {
    &&& ca.index == cb.index
    &&& opt_name_view(ca.name) == opt_name_view(cb.name)
    &&& ca.op == cb.op
}

pub open spec fn comps_view_match(a: Seq<FieldCmp>, b: Seq<FieldCmp>) -> bool {
    &&& a.len() == b.len()
    &&& forall|k: int| 0 <= k < a.len() ==> comp_view_match(#[trigger] a[k], #[trigger] b[k])
}

/// Two dispatch arms are the same arm, leaf strategies included.
pub open spec fn arm_view_match(aa: ArmCmp, ab: ArmCmp) -> bool {
    &&& aa.variant_name@ == ab.variant_name@
    &&& aa.style == ab.style
    &&& aa.field_count == ab.field_count
    &&& comps_view_match(aa.comps@, ab.comps@)
}

/// Two synthesized expressions are structurally identical.
pub open spec fn same_output(ea: CmpExpr, eb: CmpExpr) -> bool {
    match (ea, eb) {
        (CmpExpr::Fields(ca), CmpExpr::Fields(cb)) => comps_view_match(ca@, cb@),
        (CmpExpr::Dispatch(aa), CmpExpr::Dispatch(ab)) => {
            &&& aa@.len() == ab@.len()
            &&& forall|j: int|
                0 <= j < aa@.len() ==> arm_view_match(#[trigger] aa@[j], #[trigger] ab@[j])
        },
        _ => false,
    }
}

proof fn lemma_comps_pointwise(
    l: FieldList,
    fa: ComparisonFlavor,
    fb: ComparisonFlavor,
    ca: Seq<FieldCmp>,
    cb: Seq<FieldCmp>,
)
    requires
        crate::synth::comps_match(l, fa, ca),
        crate::synth::comps_match(l, fb, cb),
    ensures
        plans_match(ca, cb),
        fa == fb ==> comps_view_match(ca, cb),
{
    assert forall|k: int| 0 <= k < ca.len() implies plan_match(#[trigger] ca[k], #[trigger] cb[k]) by {
        let i = active_indices(l)[k];
        assert(comp_for(l, fa, i, ca[k]));
        assert(comp_for(l, fb, i, cb[k]));
    }
    if fa == fb {
        assert forall|k: int| 0 <= k < ca.len() implies comp_view_match(
            #[trigger] ca[k],
            #[trigger] cb[k],
        ) by {
            let i = active_indices(l)[k];
            assert(comp_for(l, fa, i, ca[k]));
            assert(comp_for(l, fb, i, cb[k]));
        }
    }
}

/// Flavor symmetry: whatever the shape, a synthesis run for
/// absolute-difference equality and one for relative equality treat
/// exactly the same fields as skipped and exactly the same fields as
/// approximate, visit them in the same order, and differ in nothing
/// but the tolerance call emitted at approximate leaves.
pub proof fn lemma_flavor_symmetry(shape: TypeShape, ea: CmpExpr, er: CmpExpr)
    requires
        synth_post(shape, ComparisonFlavor::AbsoluteDifference, ea),
        synth_post(shape, ComparisonFlavor::Relative, er),
    ensures
        same_plan(ea, er),
{
    match (shape, ea, er) {
        (TypeShape::Struct(l), CmpExpr::Fields(ca), CmpExpr::Fields(cb)) => {
            lemma_comps_pointwise(l, ComparisonFlavor::AbsoluteDifference, ComparisonFlavor::Relative, ca@, cb@);
        },
        (TypeShape::Enum(vs), CmpExpr::Dispatch(aa), CmpExpr::Dispatch(ab)) => {
            assert forall|j: int| 0 <= j < aa@.len() implies arm_plan_match(
                #[trigger] aa@[j],
                #[trigger] ab@[j],
            ) by {
                assert(crate::synth::arm_matches(vs@[j], ComparisonFlavor::AbsoluteDifference, aa@[j]));
                assert(crate::synth::arm_matches(vs@[j], ComparisonFlavor::Relative, ab@[j]));
                lemma_comps_pointwise(
                    vs@[j].fields,
                    ComparisonFlavor::AbsoluteDifference,
                    ComparisonFlavor::Relative,
                    aa@[j].comps@,
                    ab@[j].comps@,
                );
            }
        },
        _ => {},
    }
}

/// Synthesis is a function of shape and flavor alone: any two
/// expressions the synthesizer's contract admits for the same shape
/// and flavor are structurally identical, so re-running synthesis on
/// identical inputs reproduces the same expression.
pub proof fn lemma_synthesis_deterministic(
    shape: TypeShape,
    flavor: ComparisonFlavor,
    e1: CmpExpr,
    e2: CmpExpr,
)
    requires
        synth_post(shape, flavor, e1),
        synth_post(shape, flavor, e2),
    ensures
        same_output(e1, e2),
{
    match (shape, e1, e2) {
        (TypeShape::Struct(l), CmpExpr::Fields(ca), CmpExpr::Fields(cb)) => {
            lemma_comps_pointwise(l, flavor, flavor, ca@, cb@);
        },
        (TypeShape::Enum(vs), CmpExpr::Dispatch(aa), CmpExpr::Dispatch(ab)) => {
            assert forall|j: int| 0 <= j < aa@.len() implies arm_view_match(
                #[trigger] aa@[j],
                #[trigger] ab@[j],
            ) by {
                assert(crate::synth::arm_matches(vs@[j], flavor, aa@[j]));
                assert(crate::synth::arm_matches(vs@[j], flavor, ab@[j]));
                lemma_comps_pointwise(vs@[j].fields, flavor, flavor, aa@[j].comps@, ab@[j].comps@);
            }
        },
        _ => {},
    }
}

/// Every field among the first `n` is skipped, so none is active.
pub open spec fn all_skip_up_to(l: FieldList, n: int) -> bool {
    forall|i: int| 0 <= i < n ==> (#[trigger] flags_at(l, i)).skip
}

/// Every field of the layout is skipped.
pub open spec fn all_skip(l: FieldList) -> bool {
    all_skip_up_to(l, list_len(l) as int)
}

proof fn lemma_active_empty(l: FieldList, n: int)
    requires
        all_skip_up_to(l, n),
    ensures
        active_up_to(l, n).len() == 0,
    decreases n,
{
    if n > 0 {
        lemma_active_empty(l, n - 1);
    }
}

/// Skip vacuity, struct case: a struct whose every field is skipped
/// synthesizes, for either flavor, to an expression that compares any
/// two instances equal, whatever their field values and whatever the
/// tolerance primitive answers.
pub proof fn lemma_skip_vacuity_struct(
    l: FieldList,
    flavor: ComparisonFlavor,
    e: CmpExpr,
    x: Vec<ScalarVal>,
    y: Vec<ScalarVal>,
    approx: spec_fn(ScalarVal, ScalarVal) -> bool,
)
    requires
        synth_post(TypeShape::Struct(l), flavor, e),
        all_skip(l),
    ensures
        eval_expr(e, Instance::StructVal(x), Instance::StructVal(y), approx),
{
    lemma_active_empty(l, list_len(l) as int);
}

/// Skip vacuity, variant case: an enum variant whose every field is
/// skipped compares two instances of that variant equal, for either
/// flavor, whatever their field values.
pub proof fn lemma_skip_vacuity_variant(
    vs: Vec<Variant>,
    flavor: ComparisonFlavor,
    e: CmpExpr,
    v: usize,
    x: Vec<ScalarVal>,
    y: Vec<ScalarVal>,
    approx: spec_fn(ScalarVal, ScalarVal) -> bool,
)
    requires
        synth_post(TypeShape::Enum(vs), flavor, e),
        (v as int) < vs@.len(),
        all_skip(vs@[v as int].fields),
    ensures
        eval_expr(e, Instance::EnumVal(v, x), Instance::EnumVal(v, y), approx),
{
    lemma_active_empty(vs@[v as int].fields, list_len(vs@[v as int].fields) as int);
    if let CmpExpr::Dispatch(arms) = e {
        assert(crate::synth::arm_matches(vs@[v as int], flavor, arms@[v as int]));
    }
}

/// Variant exclusivity: for an enum, an instance of one variant never
/// compares equal to an instance of a different variant, whatever the
/// fields hold and whatever the tolerance primitive answers — for
/// either flavor.
pub proof fn lemma_variant_exclusivity(
    vs: Vec<Variant>,
    flavor: ComparisonFlavor,
    e: CmpExpr,
    va: usize,
    x: Vec<ScalarVal>,
    vb: usize,
    y: Vec<ScalarVal>,
    approx: spec_fn(ScalarVal, ScalarVal) -> bool,
)
    requires
        synth_post(TypeShape::Enum(vs), flavor, e),
        va != vb,
    ensures
        !eval_expr(e, Instance::EnumVal(va, x), Instance::EnumVal(vb, y), approx),
{
}

proof fn lemma_active_contains(l: FieldList, n: int, j: int)
    requires
        0 <= j < n,
        !flags_at(l, j).skip,
    ensures
        exists|k: int|
            0 <= k < active_up_to(l, n).len() && #[trigger] active_up_to(l, n)[k] == j,
    decreases n,
{
    if j == n - 1 {
        assert(active_up_to(l, n)[active_up_to(l, n).len() - 1] == j);
    } else {
        lemma_active_contains(l, n - 1, j);
        let k = choose|k: int|
            0 <= k < active_up_to(l, n - 1).len() && #[trigger] active_up_to(l, n - 1)[k] == j;
        assert(active_up_to(l, n)[k] == j);
    }
}

proof fn lemma_conj_fails_on_exact(
    l: FieldList,
    flavor: ComparisonFlavor,
    comps: Seq<FieldCmp>,
    x: Seq<ScalarVal>,
    y: Seq<ScalarVal>,
    j: int,
    approx: spec_fn(ScalarVal, ScalarVal) -> bool,
)
    requires
        crate::synth::comps_match(l, flavor, comps),
        0 <= j < list_len(l),
        !flags_at(l, j).skip,
        !flags_at(l, j).approximate,
        !scalar_same(x[j], y[j]),
    ensures
        !eval_conj(comps, x, y, approx),
{
    lemma_active_contains(l, list_len(l) as int, j);
    let k = choose|k: int|
        0 <= k < active_up_to(l, list_len(l) as int).len() && #[trigger] active_up_to(
            l,
            list_len(l) as int,
        )[k] == j;
    assert(comp_for(l, flavor, j, comps[k]));
    lemma_eval_conj_pointwise(comps, x, y, approx);
    assert(!crate::eval::eval_leaf(comps[k], x, y, approx));
}

/// Exact-field strictness, struct case: a field that is neither
/// skipped nor approximate and whose two values differ makes the
/// whole comparison false, for either flavor, however every other
/// field — approximate ones included — compares.
pub proof fn lemma_exact_strictness_struct(
    l: FieldList,
    flavor: ComparisonFlavor,
    e: CmpExpr,
    x: Vec<ScalarVal>,
    y: Vec<ScalarVal>,
    j: int,
    approx: spec_fn(ScalarVal, ScalarVal) -> bool,
)
    requires
        synth_post(TypeShape::Struct(l), flavor, e),
        0 <= j < list_len(l),
        !flags_at(l, j).skip,
        !flags_at(l, j).approximate,
        !scalar_same(x@[j], y@[j]),
    ensures
        !eval_expr(e, Instance::StructVal(x), Instance::StructVal(y), approx),
{
    if let CmpExpr::Fields(comps) = e {
        lemma_conj_fails_on_exact(l, flavor, comps@, x@, y@, j, approx);
    }
}

/// Exact-field strictness, enum case: within a shared variant, a
/// differing exact field makes the whole comparison false, for either
/// flavor.
pub proof fn lemma_exact_strictness_variant(
    vs: Vec<Variant>,
    flavor: ComparisonFlavor,
    e: CmpExpr,
    v: usize,
    x: Vec<ScalarVal>,
    y: Vec<ScalarVal>,
    j: int,
    approx: spec_fn(ScalarVal, ScalarVal) -> bool,
)
    requires
        synth_post(TypeShape::Enum(vs), flavor, e),
        (v as int) < vs@.len(),
        0 <= j < list_len(vs@[v as int].fields),
        !flags_at(vs@[v as int].fields, j).skip,
        !flags_at(vs@[v as int].fields, j).approximate,
        !scalar_same(x@[j], y@[j]),
    ensures
        !eval_expr(e, Instance::EnumVal(v, x), Instance::EnumVal(v, y), approx),
{
    if let CmpExpr::Dispatch(arms) = e {
        assert(crate::synth::arm_matches(vs@[v as int], flavor, arms@[v as int]));
        lemma_conj_fails_on_exact(
            vs@[v as int].fields,
            flavor,
            arms@[v as int].comps@,
            x@,
            y@,
            j,
            approx,
        );
    }
}

proof fn lemma_conflict_refutes_free(shape: TypeShape, p: FieldPath)
    requires
        first_conflict_at(shape, p),
    ensures
        !shape_conflict_free(shape),
{
    match shape {
        TypeShape::Struct(l) => {
            assert(!field_spec_ok(flags_at(l, p.field as int)));
        },
        TypeShape::Enum(vs) => {
            if let Some(v) = p.variant {
                assert(!field_spec_ok(flags_at(vs@[v as int].fields, p.field as int)));
                assert(!list_conflict_free(vs@[v as int].fields));
            }
        },
    }
}

/// The two flavors of one type stand or fall together: run on the
/// same request, absolute-difference and relative generation either
/// both succeed — and then agree on the tolerance type and make the
/// same traversal and field-selection decisions — or both fail.
pub proof fn lemma_flavors_agree(
    req: DeriveRequest,
    ra: Result<GeneratedImpl, GenError>,
    rr: Result<GeneratedImpl, GenError>,
)
    requires
        derive_post(req, ComparisonFlavor::AbsoluteDifference, ra),
        derive_post(req, ComparisonFlavor::Relative, rr),
    ensures
        (ra is Ok) == (rr is Ok),
        match (ra, rr) {
            (Ok(ga), Ok(gr)) => {
                &&& ga.epsilon_type@ == gr.epsilon_type@
                &&& same_plan(ga.comparison, gr.comparison)
            },
            _ => true,
        },
{
    match (ra, rr) {
        (Ok(ga), Ok(gr)) => {
            lemma_flavor_symmetry(req.shape, ga.comparison, gr.comparison);
        },
        (Ok(_), Err(e)) => {
            if let GenError::ConflictingDirectives(p) = e {
                lemma_conflict_refutes_free(req.shape, p);
            }
        },
        (Err(e), Ok(_)) => {
            if let GenError::ConflictingDirectives(p) = e {
                lemma_conflict_refutes_free(req.shape, p);
            }
        },
        (Err(_), Err(_)) => {},
    }
}

} // verus!
