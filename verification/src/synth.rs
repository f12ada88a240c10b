use vstd::prelude::*;

use crate::model::{
    ComparisonFlavor, FieldList, FieldSpec, FieldStyle, TypeShape, Variant, flags_at, list_len,
    list_style, name_at,
};

verus! {

/// The leaf-comparison strategy for one field: exact equality, or the
/// tolerance-based call of the given flavor (which fixes the call's
/// arity: `epsilon` alone, or `epsilon` and `max_relative`).
#[derive(Clone, Copy, Debug, PartialEq, Eq, Structural)]
pub enum LeafOp {
    Exact,
    Approximate(ComparisonFlavor),
}

/// One leaf comparison of the synthesized expression: which field it
/// reads (declaration position, plus the identifier when the layout
/// names its fields) and the strategy applied to its two values.
#[derive(Clone, Debug)]
pub struct FieldCmp {
    pub index: usize,
    pub name: Option<String>,
    pub op: LeafOp,
}

/// One dispatch arm of a synthesized enum comparison: the expression
/// that applies when the first instance is of this variant. The arm
/// matches the second instance against the same variant — any other
/// variant compares unequal — and then requires every listed leaf
/// comparison to hold. `style` and `field_count` describe the
/// variant's full layout so that the emission back end can produce
/// binding placeholders for skipped fields.
#[derive(Clone, Debug)]
pub struct ArmCmp {
    pub variant_name: String,
    pub style: FieldStyle,
    pub field_count: usize,
    pub comps: Vec<FieldCmp>,
}

/// A synthesized comparison expression: for a struct, a left-to-right
/// conjunction of leaf comparisons (vacuously true when empty); for
/// an enum, a dispatch on the first instance's variant.
#[derive(Clone, Debug)]
pub enum CmpExpr {
    Fields(Vec<FieldCmp>),
    Dispatch(Vec<ArmCmp>),
}

/// The declaration positions of the fields that take part in the
/// comparison — everything not marked `skip` — among the first `n`
/// fields, in declaration order.
pub open spec fn active_up_to(l: FieldList, n: int) -> Seq<int>
    decreases n,
{
    if n <= 0 {
        Seq::empty()
    } else if !flags_at(l, n - 1).skip {
        active_up_to(l, n - 1).push(n - 1)
    } else {
        active_up_to(l, n - 1)
    }
}

pub open spec fn active_indices(l: FieldList) -> Seq<int> {
    active_up_to(l, list_len(l) as int)
}

/// The leaf strategy a field's directives call for under a flavor.
pub open spec fn leaf_for(f: FieldSpec, flavor: ComparisonFlavor) -> LeafOp {
    if f.approximate {
        LeafOp::Approximate(flavor)
    } else {
        LeafOp::Exact
    }
}

pub open spec fn opt_name_view(n: Option<String>) -> Option<Seq<char>> {
    match n {
        Some(s) => Some(s@),
        None => None,
    }
}

/// `c` is the leaf comparison that field `i` of layout `l` calls for.
pub open spec fn comp_for(l: FieldList, flavor: ComparisonFlavor, i: int, c: FieldCmp) -> bool {
    &&& c.index == i
    &&& opt_name_view(c.name) == name_at(l, i)
    &&& c.op == leaf_for(flags_at(l, i), flavor)
}

/// `comps` holds exactly the leaf comparisons of the non-skipped
/// fields among the first `n` of `l`, in declaration order.
pub open spec fn comps_match_up_to(
    l: FieldList,
    flavor: ComparisonFlavor,
    comps: Seq<FieldCmp>,
    n: int,
) -> bool {
    &&& comps.len() == active_up_to(l, n).len()
    &&& forall|k: int|
        0 <= k < comps.len() ==> comp_for(l, flavor, active_up_to(l, n)[k], #[trigger] comps[k])
}

pub open spec fn comps_match(l: FieldList, flavor: ComparisonFlavor, comps: Seq<FieldCmp>) -> bool {
    comps_match_up_to(l, flavor, comps, list_len(l) as int)
}

/// `arm` is the dispatch arm that variant `v` calls for.
pub open spec fn arm_matches(v: Variant, flavor: ComparisonFlavor, arm: ArmCmp) -> bool {
    &&& arm.variant_name@ == v.name@
    &&& arm.style == list_style(v.fields)
    &&& arm.field_count == list_len(v.fields)
    &&& comps_match(v.fields, flavor, arm.comps@)
}

/// `e` is the comparison expression that `shape` calls for under
/// `flavor`: per non-skipped field one leaf comparison — exact, or
/// the flavor's tolerance call where the field is `approximate` — in
/// declaration order, and for an enum one dispatch arm per variant in
/// declaration order.
pub open spec fn synth_post(shape: TypeShape, flavor: ComparisonFlavor, e: CmpExpr) -> bool {
    match (shape, e) {
        (TypeShape::Struct(l), CmpExpr::Fields(comps)) => comps_match(l, flavor, comps@),
        (TypeShape::Enum(vs), CmpExpr::Dispatch(arms)) => {
            &&& arms@.len() == vs@.len()
            &&& forall|j: int| 0 <= j < vs@.len() ==> arm_matches(vs@[j], flavor, #[trigger] arms@[j])
        },
        _ => false,
    }
}

/// Walks one field list and collects the leaf comparisons of its
/// non-skipped fields, in declaration order.
fn synthesize_list(l: &FieldList, flavor: ComparisonFlavor) -> (comps: Vec<FieldCmp>)
    ensures
        comps_match(*l, flavor, comps@),
{
    match l {
        FieldList::Named(fs) => {
            let mut comps: Vec<FieldCmp> = Vec::new();
            let mut i: usize = 0;
            while i < fs.len()
                invariant
                    i <= fs.len(),
                    *l == FieldList::Named(*fs),
                    comps_match_up_to(*l, flavor, comps@, i as int),
                decreases fs.len() - i,
            {
                let field = &fs[i];
                if !field.flags.skip {
                    let op = if field.flags.approximate {
                        LeafOp::Approximate(flavor)
                    } else {
                        LeafOp::Exact
                    };
                    comps.push(FieldCmp { index: i, name: Some(field.name.clone()), op });
                }
                i += 1;
            }
            comps
        },
        FieldList::Tuple(fs) => {
            let mut comps: Vec<FieldCmp> = Vec::new();
            let mut i: usize = 0;
            while i < fs.len()
                invariant
                    i <= fs.len(),
                    *l == FieldList::Tuple(*fs),
                    comps_match_up_to(*l, flavor, comps@, i as int),
                decreases fs.len() - i,
            {
                let flags = fs[i];
                if !flags.skip {
                    let op = if flags.approximate {
                        LeafOp::Approximate(flavor)
                    } else {
                        LeafOp::Exact
                    };
                    comps.push(FieldCmp { index: i, name: None, op });
                }
                i += 1;
            }
            comps
        },
        FieldList::Unit => Vec::new(),
    }
}

/// The comparison synthesizer: produces the single boolean expression
/// that compares two instances of `shape` under `flavor`. The
/// traversal — which fields are visited, in which order, and which
/// are skipped or approximate — is the same for both flavors; only
/// the leaf strategy carries the flavor.
pub fn synthesize(shape: &TypeShape, flavor: ComparisonFlavor) -> (e: CmpExpr)
    ensures
        synth_post(*shape, flavor, e),
{
    match shape {
        TypeShape::Struct(l) => CmpExpr::Fields(synthesize_list(l, flavor)),
        TypeShape::Enum(vs) => {
            let mut arms: Vec<ArmCmp> = Vec::new();
            let mut v: usize = 0;
            while v < vs.len()
                invariant
                    v <= vs.len(),
                    arms@.len() == v,
                    forall|j: int|
                        0 <= j < v ==> arm_matches(vs@[j], flavor, #[trigger] arms@[j]),
                decreases vs.len() - v,
            {
                let var = &vs[v];
                let comps = synthesize_list(&var.fields, flavor);
                let style = var.fields.style();
                let field_count = var.fields.count();
                arms.push(ArmCmp { variant_name: var.name.clone(), style, field_count, comps });
                v += 1;
            }
            CmpExpr::Dispatch(arms)
        },
    }
}

} // verus!
