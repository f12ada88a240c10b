use vstd::prelude::*;

verus! {

/// Per-field comparison directives: `skip` excludes the field from
/// comparison entirely, `approximate` routes it through the active
/// flavor's tolerance-based comparison instead of exact equality.
#[derive(Clone, Copy, Debug, PartialEq, Eq, Structural)]
pub struct FieldSpec {
    pub skip: bool,
    pub approximate: bool,
}

/// A field's directives are valid when they are not contradictory:
/// a field cannot both be excluded from comparison and compared
/// approximately.
pub open spec fn field_spec_ok(f: FieldSpec) -> bool {
    !(f.skip && f.approximate)
}

/// A named field: its identifier and its directives.
#[derive(Clone, Debug)]
pub struct NamedField {
    pub name: String,
    pub flags: FieldSpec,
}

/// How a struct or enum variant lays out its data. Order is
/// significant: it fixes the extraction order of the synthesized
/// comparison, and tuple fields are referenced positionally.
#[derive(Clone, Debug)]
pub enum FieldList {
    Named(Vec<NamedField>),
    Tuple(Vec<FieldSpec>),
    Unit,
}

/// The three field-layout styles, as a plain tag.
#[derive(Clone, Copy, Debug, PartialEq, Eq, Structural)]
pub enum FieldStyle {
    Named,
    Tuple,
    Unit,
}

/// One enum variant: its identifier and its fields.
#[derive(Clone, Debug)]
pub struct Variant {
    pub name: String,
    pub fields: FieldList,
}

/// The structural kind of the declared type undergoing generation.
#[derive(Clone, Debug)]
pub enum TypeShape {
    Struct(FieldList),
    Enum(Vec<Variant>),
}

/// Which of the two comparison semantics is being synthesized:
/// absolute-difference equality takes a single tolerance (`epsilon`),
/// relative equality takes a second, magnitude-scaled bound
/// (`max_relative`) as well.
#[derive(Clone, Copy, Debug, PartialEq, Eq, Structural)]
pub enum ComparisonFlavor {
    AbsoluteDifference,
    Relative,
}

pub open spec fn list_style(l: FieldList) -> FieldStyle {
    match l {
        FieldList::Named(_) => FieldStyle::Named,
        FieldList::Tuple(_) => FieldStyle::Tuple,
        FieldList::Unit => FieldStyle::Unit,
    }
}

pub open spec fn list_len(l: FieldList) -> nat {
    match l {
        FieldList::Named(fs) => fs@.len(),
        FieldList::Tuple(fs) => fs@.len(),
        FieldList::Unit => 0,
    }
}

/// The directives of the field at declaration position `i`.
pub open spec fn flags_at(l: FieldList, i: int) -> FieldSpec {
    match l {
        FieldList::Named(fs) => fs@[i].flags,
        FieldList::Tuple(fs) => fs@[i],
        FieldList::Unit => arbitrary(),
    }
}

/// The identifier of the field at position `i`, if the layout names
/// its fields.
pub open spec fn name_at(l: FieldList, i: int) -> Option<Seq<char>> {
    match l {
        FieldList::Named(fs) => Some(fs@[i].name@),
        FieldList::Tuple(_) => None,
        FieldList::Unit => None,
    }
}

pub open spec fn list_conflict_free(l: FieldList) -> bool {
    forall|i: int| 0 <= i < list_len(l) ==> field_spec_ok(#[trigger] flags_at(l, i))
}

pub open spec fn shape_conflict_free(s: TypeShape) -> bool {
    match s {
        TypeShape::Struct(l) => list_conflict_free(l),
        TypeShape::Enum(vs) => forall|v: int|
            0 <= v < vs@.len() ==> list_conflict_free(#[trigger] vs@[v].fields),
    }
}

impl FieldList {
    /// The layout style, as executable code.
    pub fn style(&self) -> (s: FieldStyle)
        ensures
            s == list_style(*self),
    {
        match self {
            FieldList::Named(_) => FieldStyle::Named,
            FieldList::Tuple(_) => FieldStyle::Tuple,
            FieldList::Unit => FieldStyle::Unit,
        }
    }

    /// How many fields the layout declares.
    pub fn count(&self) -> (n: usize)
        ensures
            n == list_len(*self),
    {
        match self {
            FieldList::Named(fs) => fs.len(),
            FieldList::Tuple(fs) => fs.len(),
            FieldList::Unit => 0,
        }
    }
}

/// Position of a field within a declared type: the index of the
/// enclosing variant (for enums) and the field's declaration index.
#[derive(Clone, Copy, Debug, PartialEq, Eq)]
pub struct FieldPath {
    pub variant: Option<usize>,
    pub field: usize,
}

/// Which piece of the required per-type configuration is absent.
#[derive(Clone, Copy, Debug, PartialEq, Eq)]
pub enum RequiredOption {
    EpsilonType,
    DefaultAbsolute,
    DefaultRelative,
}

/// Why a generation request was rejected. Every failure is terminal
/// for the request: no procedures are produced.
#[derive(Clone, Copy, Debug, PartialEq, Eq)]
pub enum GenError {
    /// A field declares both `skip` and `approximate`.
    ConflictingDirectives(FieldPath),
    /// The type-level configuration omits the tolerance type or one
    /// of the two default-tolerance expressions.
    MissingRequiredOption(RequiredOption),
}

/// Checks one field's directives, reporting a conflict at the given
/// position; valid directives pass through unchanged.
pub fn validate_field(raw: FieldSpec, at: FieldPath) -> (r: Result<FieldSpec, GenError>)
    ensures
        field_spec_ok(raw) ==> r == Ok::<FieldSpec, GenError>(raw),
        !field_spec_ok(raw) ==> r == Err::<FieldSpec, GenError>(GenError::ConflictingDirectives(at)),
{
    if raw.skip && raw.approximate {
        Err(GenError::ConflictingDirectives(at))
    } else {
        Ok(raw)
    }
}

/// `p` points at the first conflicting field of `shape`, in
/// declaration order (variants first, then fields within a variant).
pub open spec fn first_conflict_at(shape: TypeShape, p: FieldPath) -> bool {
    match shape {
        TypeShape::Struct(l) => {
            &&& p.variant is None
            &&& p.field < list_len(l)
            &&& !field_spec_ok(flags_at(l, p.field as int))
            &&& forall|j: int| 0 <= j < p.field ==> field_spec_ok(#[trigger] flags_at(l, j))
        },
        TypeShape::Enum(vs) => {
            match p.variant {
                Some(v) => {
                    &&& (v as int) < vs@.len()
                    &&& p.field < list_len(vs@[v as int].fields)
                    &&& !field_spec_ok(flags_at(vs@[v as int].fields, p.field as int))
                    &&& forall|j: int| 0 <= j < p.field
                        ==> field_spec_ok(#[trigger] flags_at(vs@[v as int].fields, j))
                    &&& forall|u: int| 0 <= u < v ==> list_conflict_free(#[trigger] vs@[u].fields)
                },
                None => false,
            }
        },
    }
}

/// Checks every field of one field list, reporting the first conflict
/// with the given enclosing-variant index.
fn validate_list(l: &FieldList, variant: Option<usize>) -> (r: Result<(), GenError>)
    ensures
        match r {
            Ok(_) => list_conflict_free(*l),
            Err(e) => match e {
                GenError::ConflictingDirectives(p) => {
                    &&& p.variant == variant
                    &&& p.field < list_len(*l)
                    &&& !field_spec_ok(flags_at(*l, p.field as int))
                    &&& forall|j: int| 0 <= j < p.field
                        ==> field_spec_ok(#[trigger] flags_at(*l, j))
                },
                GenError::MissingRequiredOption(_) => false,
            },
        },
{
    match l {
        FieldList::Named(fs) => {
            let mut i: usize = 0;
            while i < fs.len()
                invariant
                    i <= fs.len(),
                    *l == FieldList::Named(*fs),
                    forall|j: int| 0 <= j < i ==> field_spec_ok(#[trigger] flags_at(*l, j)),
                decreases fs.len() - i,
            {
                let at = FieldPath { variant, field: i };
                if let Err(e) = validate_field(fs[i].flags, at) {
                    return Err(e);
                }
                i += 1;
            }
            Ok(())
        },
        FieldList::Tuple(fs) => {
            let mut i: usize = 0;
            while i < fs.len()
                invariant
                    i <= fs.len(),
                    *l == FieldList::Tuple(*fs),
                    forall|j: int| 0 <= j < i ==> field_spec_ok(#[trigger] flags_at(*l, j)),
                decreases fs.len() - i,
            {
                let at = FieldPath { variant, field: i };
                if let Err(e) = validate_field(fs[i], at) {
                    return Err(e);
                }
                i += 1;
            }
            Ok(())
        },
        FieldList::Unit => Ok(()),
    }
}

/// Validates the whole annotation model: succeeds exactly when no
/// field carries conflicting directives, and otherwise reports the
/// first conflicting field in declaration order.
pub fn validate_shape(shape: &TypeShape) -> (r: Result<(), GenError>)
    ensures
        match r {
            Ok(_) => shape_conflict_free(*shape),
            Err(e) => match e {
                GenError::ConflictingDirectives(p) => first_conflict_at(*shape, p),
                GenError::MissingRequiredOption(_) => false,
            },
        },
{
    match shape {
        TypeShape::Struct(l) => {
            match validate_list(l, None) {
                Ok(_) => Ok(()),
                Err(e) => Err(e),
            }
        },
        TypeShape::Enum(vs) => {
            let mut v: usize = 0;
            while v < vs.len()
                invariant
                    v <= vs.len(),
                    *shape == TypeShape::Enum(*vs),
                    forall|u: int| 0 <= u < v ==> list_conflict_free(#[trigger] vs@[u].fields),
                decreases vs.len() - v,
            {
                if let Err(e) = validate_list(&vs[v].fields, Some(v)) {
                    return Err(e);
                }
                v += 1;
            }
            Ok(())
        },
    }
}

} // verus!
