use vstd::prelude::*;

use crate::synth::{ArmCmp, CmpExpr, FieldCmp, LeafOp};

verus! {

/// A field's runtime value, as the comparison semantics sees it: an
/// integer, a text, or a truth value. Values whose equality-within-
/// tolerance only an outside numeric library can judge are carried
/// opaquely (for example as their bit pattern in `Int`); the verdict
/// for such a pair comes from an [`ApproxTable`].
#[derive(Clone, Debug)]
pub enum ScalarVal {
    Int(i64),
    Text(String),
    Truth(bool),
}

/// Exact (structural) equality of two scalar values.
pub open spec fn scalar_same(a: ScalarVal, b: ScalarVal) -> bool {
    match (a, b) {
        (ScalarVal::Int(x), ScalarVal::Int(y)) => x == y,
        (ScalarVal::Text(x), ScalarVal::Text(y)) => x@ == y@,
        (ScalarVal::Truth(x), ScalarVal::Truth(y)) => x == y,
        _ => false,
    }
}

/// Decides exact equality of two scalar values.
pub fn scalar_eq(a: &ScalarVal, b: &ScalarVal) -> (r: bool)
    ensures
        r == scalar_same(*a, *b),
{
    match (a, b) {
        (ScalarVal::Int(x), ScalarVal::Int(y)) => *x == *y,
        (ScalarVal::Text(x), ScalarVal::Text(y)) => *x == *y,
        (ScalarVal::Truth(x), ScalarVal::Truth(y)) => *x == *y,
        _ => false,
    }
}

/// An instance of a declared type, reduced to its comparable data:
/// a struct's field values in declaration order, or an enum value's
/// variant (by declaration index) and that variant's field values.
/// Skipped fields keep their position and value; the synthesized
/// expression simply never reads them.
#[derive(Clone, Debug)]
pub enum Instance {
    StructVal(Vec<ScalarVal>),
    EnumVal(usize, Vec<ScalarVal>),
}

/// The verdicts of the flavor's tolerance primitive, as data: the
/// pair of values handed to the primitive, and what it returned. The
/// tolerance arithmetic itself is the outside numeric library's
/// business, not this crate's; a pair absent from the table counts
/// as not-within-tolerance.
#[derive(Clone, Debug)]
pub struct ApproxEntry {
    pub one: ScalarVal,
    pub other: ScalarVal,
    pub within: bool,
}

#[derive(Clone, Debug)]
pub struct ApproxTable {
    pub entries: Vec<ApproxEntry>,
}

/// The verdict the table gives for the pair `(x, y)`: the `within`
/// of its first matching entry, or false when none matches.
pub open spec fn table_verdict(entries: Seq<ApproxEntry>, x: ScalarVal, y: ScalarVal) -> bool
    decreases entries.len(),
{
    if entries.len() == 0 {
        false
    } else if scalar_same(entries[0].one, x) && scalar_same(entries[0].other, y) {
        entries[0].within
    } else {
        table_verdict(entries.drop_first(), x, y)
    }
}

/// The table, read as a tolerance predicate on value pairs.
pub open spec fn table_fn(t: ApproxTable) -> spec_fn(ScalarVal, ScalarVal) -> bool {
    |x: ScalarVal, y: ScalarVal| table_verdict(t.entries@, x, y)
}

/// What one leaf comparison yields on two field-value sequences,
/// with `approx` judging the tolerance calls.
pub open spec fn eval_leaf(
    c: FieldCmp,
    a: Seq<ScalarVal>,
    b: Seq<ScalarVal>,
    approx: spec_fn(ScalarVal, ScalarVal) -> bool,
) -> bool {
    if c.index < a.len() && c.index < b.len() {
        match c.op {
            LeafOp::Exact => scalar_same(a[c.index as int], b[c.index as int]),
            LeafOp::Approximate(_) => approx(a[c.index as int], b[c.index as int]),
        }
    } else {
        false
    }
}

/// What a left-to-right conjunction of leaf comparisons yields;
/// vacuously true when empty.
pub open spec fn eval_conj(
    comps: Seq<FieldCmp>,
    a: Seq<ScalarVal>,
    b: Seq<ScalarVal>,
    approx: spec_fn(ScalarVal, ScalarVal) -> bool,
) -> bool
    decreases comps.len(),
{
    if comps.len() == 0 {
        true
    } else {
        eval_leaf(comps[0], a, b, approx) && eval_conj(comps.drop_first(), a, b, approx)
    }
}

/// What a synthesized expression yields on two instances: for a
/// struct, the conjunction over the field values; for an enum, false
/// unless both instances are of the same variant, and then that
/// variant's conjunction over the extracted field values.
pub open spec fn eval_expr(
    e: CmpExpr,
    a: Instance,
    b: Instance,
    approx: spec_fn(ScalarVal, ScalarVal) -> bool,
) -> bool {
    match (e, a, b) {
        (CmpExpr::Fields(comps), Instance::StructVal(x), Instance::StructVal(y)) => eval_conj(
            comps@,
            x@,
            y@,
            approx,
        ),
        (CmpExpr::Dispatch(arms), Instance::EnumVal(va, x), Instance::EnumVal(vb, y)) => {
            &&& va == vb
            &&& (va as int) < arms@.len()
            &&& eval_conj(arms@[va as int].comps@, x@, y@, approx)
        },
        _ => false,
    }
}

/// A conjunction holds exactly when every one of its leaves does.
pub proof fn lemma_eval_conj_pointwise(
    comps: Seq<FieldCmp>,
    a: Seq<ScalarVal>,
    b: Seq<ScalarVal>,
    approx: spec_fn(ScalarVal, ScalarVal) -> bool,
)
    ensures
        eval_conj(comps, a, b, approx) <==> (forall|k: int|
            0 <= k < comps.len() ==> eval_leaf(#[trigger] comps[k], a, b, approx)),
    decreases comps.len(),
{
    if comps.len() > 0 {
        let tail = comps.drop_first();
        lemma_eval_conj_pointwise(tail, a, b, approx);
        if eval_conj(comps, a, b, approx) {
            assert forall|k: int| 0 <= k < comps.len() implies eval_leaf(
                #[trigger] comps[k],
                a,
                b,
                approx,
            ) by {
                if k >= 1 {
                    assert(tail[k - 1] == comps[k]);
                }
            }
        }
        if forall|k: int| 0 <= k < comps.len() ==> eval_leaf(#[trigger] comps[k], a, b, approx) {
            assert forall|k: int| 0 <= k < tail.len() implies eval_leaf(
                #[trigger] tail[k],
                a,
                b,
                approx,
            ) by {
                assert(tail[k] == comps[k + 1]);
            }
            assert(eval_leaf(comps[0], a, b, approx));
            assert(eval_conj(comps, a, b, approx));
        }
    }
}

/// Looks a value pair up in the table.
fn lookup_verdict(table: &ApproxTable, x: &ScalarVal, y: &ScalarVal) -> (r: bool)
    ensures
        r == table_verdict(table.entries@, *x, *y),
{
    let ghost whole: Seq<ApproxEntry> = table.entries@;
    let n = table.entries.len();
    proof {
        assert(whole.subrange(0, n as int) =~= whole);
    }
    let mut i: usize = 0;
    while i < n
        invariant
            i <= n,
            n == whole.len(),
            whole == table.entries@,
            table_verdict(whole, *x, *y) == table_verdict(
                whole.subrange(i as int, n as int),
                *x,
                *y,
            ),
        decreases n - i,
    {
        let entry = &table.entries[i];
        let ghost rest = whole.subrange(i as int, n as int);
        assert(rest[0] == whole[i as int]);
        if scalar_eq(&entry.one, x) && scalar_eq(&entry.other, y) {
            return entry.within;
        }
        assert(rest.drop_first() =~= whole.subrange(i + 1, n as int));
        i += 1;
    }
    assert(whole.subrange(n as int, n as int).len() == 0);
    false
}

/// Decides one leaf comparison on two field-value vectors, with the
/// table judging tolerance calls.
fn leaf_holds(c: &FieldCmp, x: &Vec<ScalarVal>, y: &Vec<ScalarVal>, table: &ApproxTable) -> (r:
    bool)
    ensures
        r == eval_leaf(*c, x@, y@, table_fn(*table)),
{
    if c.index < x.len() && c.index < y.len() {
        match c.op {
            LeafOp::Exact => scalar_eq(&x[c.index], &y[c.index]),
            LeafOp::Approximate(_) => lookup_verdict(table, &x[c.index], &y[c.index]),
        }
    } else {
        false
    }
}

/// Decides a conjunction of leaf comparisons, left to right.
fn conj_holds(comps: &Vec<FieldCmp>, x: &Vec<ScalarVal>, y: &Vec<ScalarVal>, table: &ApproxTable)
    -> (r: bool)
    ensures
        r == eval_conj(comps@, x@, y@, table_fn(*table)),
{
    let mut i: usize = 0;
    while i < comps.len()
        invariant
            i <= comps.len(),
            forall|k: int| 0 <= k < i ==> eval_leaf(#[trigger] comps@[k], x@, y@, table_fn(*table)),
        decreases comps.len() - i,
    {
        if !leaf_holds(&comps[i], x, y, table) {
            proof {
                lemma_eval_conj_pointwise(comps@, x@, y@, table_fn(*table));
            }
            return false;
        }
        i += 1;
    }
    proof {
        lemma_eval_conj_pointwise(comps@, x@, y@, table_fn(*table));
    }
    true
}

/// Evaluates a synthesized comparison expression on two instances,
/// with the table supplying the tolerance primitive's verdicts.
pub fn evaluate(e: &CmpExpr, a: &Instance, b: &Instance, table: &ApproxTable) -> (r: bool)
    ensures
        r == eval_expr(*e, *a, *b, table_fn(*table)),
{
    match (e, a, b) {
        (CmpExpr::Fields(comps), Instance::StructVal(x), Instance::StructVal(y)) => conj_holds(
            comps,
            x,
            y,
            table,
        ),
        (CmpExpr::Dispatch(arms), Instance::EnumVal(va, x), Instance::EnumVal(vb, y)) => {
            if *va == *vb && *va < arms.len() {
                let arm: &ArmCmp = &arms[*va];
                conj_holds(&arm.comps, x, y, table)
            } else {
                false
            }
        },
        _ => false,
    }
}

} // verus!
