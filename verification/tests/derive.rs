use approx::{AbsDiffEq, RelativeEq};
use approx_derive::emit::TypeGenerics;
use approx_derive::eval::{evaluate, ApproxEntry, ApproxTable, Instance, ScalarVal};
use approx_derive::model::{FieldList, FieldSpec, NamedField, TypeShape, Variant};
use approx_derive::options::RawConfig;
use approx_derive::{abs_diff_eq, relative_eq, DeriveRequest};

const BAR: &str = "bar";
const FOO: &str = "foo";

fn plain() -> FieldSpec {
    FieldSpec { skip: false, approximate: false }
}

fn approximate() -> FieldSpec {
    FieldSpec { skip: false, approximate: true }
}

fn skipped() -> FieldSpec {
    FieldSpec { skip: true, approximate: false }
}

fn named_field(name: &str, flags: FieldSpec) -> NamedField {
    NamedField { name: name.to_string(), flags }
}

fn config(eps: &str, absolute: &str, relative: &str) -> RawConfig {
    RawConfig {
        epsilon_type: Some(eps.to_string()),
        default_absolute: Some(absolute.to_string()),
        default_relative: Some(relative.to_string()),
    }
}

fn request(ident: &str, shape: TypeShape, cfg: RawConfig) -> DeriveRequest {
    DeriveRequest {
        ident: ident.to_string(),
        generics: TypeGenerics { params: vec![], where_clause: None },
        config: cfg,
        shape,
    }
}

fn f32_val(x: f32) -> ScalarVal {
    ScalarVal::Int(x.to_bits() as i64)
}

fn f64_val(x: f64) -> ScalarVal {
    ScalarVal::Int(x.to_bits() as i64)
}

fn text(s: &str) -> ScalarVal {
    ScalarVal::Text(s.to_string())
}

fn truth(b: bool) -> ScalarVal {
    ScalarVal::Truth(b)
}

/// Verdicts of approx's absolute-difference primitive for f32 pairs.
fn abs_table_f32(pairs: &[(f32, f32)], eps: f32) -> ApproxTable {
    let mut entries = Vec::new();
    for &(a, b) in pairs {
        entries.push(ApproxEntry {
            one: f32_val(a),
            other: f32_val(b),
            within: a.abs_diff_eq(&b, eps),
        });
    }
    ApproxTable { entries }
}

/// Verdicts of approx's relative primitive for f32 pairs.
fn rel_table_f32(pairs: &[(f32, f32)], eps: f32, max_relative: f32) -> ApproxTable {
    let mut entries = Vec::new();
    for &(a, b) in pairs {
        entries.push(ApproxEntry {
            one: f32_val(a),
            other: f32_val(b),
            within: a.relative_eq(&b, eps, max_relative),
        });
    }
    ApproxTable { entries }
}

fn abs_table_f64(pairs: &[(f64, f64)], eps: f64) -> ApproxTable {
    let mut entries = Vec::new();
    for &(a, b) in pairs {
        entries.push(ApproxEntry {
            one: f64_val(a),
            other: f64_val(b),
            within: a.abs_diff_eq(&b, eps),
        });
    }
    ApproxTable { entries }
}

fn rel_table_f64(pairs: &[(f64, f64)], eps: f64, max_relative: f64) -> ApproxTable {
    let mut entries = Vec::new();
    for &(a, b) in pairs {
        entries.push(ApproxEntry {
            one: f64_val(a),
            other: f64_val(b),
            within: a.relative_eq(&b, eps, max_relative),
        });
    }
    ApproxTable { entries }
}

#[test]
fn mixed_enum() {
    let shape = TypeShape::Enum(vec![
        Variant { name: "Unit".to_string(), fields: FieldList::Unit },
        Variant {
            name: "Unnamed".to_string(),
            fields: FieldList::Tuple(vec![approximate(), plain(), skipped()]),
        },
        Variant {
            name: "Named".to_string(),
            fields: FieldList::Named(vec![
                named_field("value", approximate()),
                named_field("text", plain()),
                named_field("ignored", skipped()),
            ]),
        },
    ]);
    let cfg = config("f32", "0.1", "0.01");
    let ga = abs_diff_eq(request("Mixed", shape.clone(), cfg.clone())).unwrap();
    let gr = relative_eq(request("Mixed", shape, cfg)).unwrap();

    let pairs = [(1000.0f32, 1000.01), (1000.0, 1001.0), (1000.0, 0.0), (1000.0, 1000.0)];
    let ta = abs_table_f32(&pairs, 0.1);
    let tr = rel_table_f32(&pairs, 0.1, 0.01);

    let unit = Instance::EnumVal(0, vec![]);
    let unnamed = |value: f32, t: &str, ignored: bool| {
        Instance::EnumVal(1, vec![f32_val(value), text(t), truth(ignored)])
    };
    let named = |value: f32, t: &str, ignored: bool| {
        Instance::EnumVal(2, vec![f32_val(value), text(t), truth(ignored)])
    };

    // Unit variants are tautologically equal
    assert!(evaluate(&ga.comparison, &unit, &unit, &ta));
    assert!(evaluate(&gr.comparison, &unit, &unit, &tr));

    // Reference named variant
    let named_ref = named(1000., FOO, true);

    // A small difference both absolutely and relatively acceptable (and the boolean is ignored)
    let named_both = named(1000.01, FOO, false);
    assert!(evaluate(&ga.comparison, &named_ref, &named_both, &ta));
    assert!(evaluate(&gr.comparison, &named_ref, &named_both, &tr));

    // A larger difference only relatively acceptable
    let named_relative = named(1001., FOO, false);
    assert!(!evaluate(&ga.comparison, &named_ref, &named_relative, &ta));
    assert!(evaluate(&gr.comparison, &named_ref, &named_relative, &tr));

    // Too different
    let named_different = named(0., FOO, true);
    assert!(!evaluate(&ga.comparison, &named_ref, &named_different, &ta));
    assert!(!evaluate(&gr.comparison, &named_ref, &named_different, &tr));

    // The string must be exactly equal
    let named_different_string = named(1000., BAR, true);
    assert!(!evaluate(&ga.comparison, &named_ref, &named_different_string, &ta));
    assert!(!evaluate(&gr.comparison, &named_ref, &named_different_string, &tr));

    // Reference unnamed variant
    let unnamed_ref = unnamed(1000., FOO, true);

    // A small difference both absolutely and relatively acceptable (and the boolean is ignored)
    let unnamed_both = unnamed(1000.01, FOO, false);
    assert!(evaluate(&ga.comparison, &unnamed_ref, &unnamed_both, &ta));
    assert!(evaluate(&gr.comparison, &unnamed_ref, &unnamed_both, &tr));

    // A larger difference only relatively acceptable
    let unnamed_relative = unnamed(1001., FOO, false);
    assert!(!evaluate(&ga.comparison, &unnamed_ref, &unnamed_relative, &ta));
    assert!(evaluate(&gr.comparison, &unnamed_ref, &unnamed_relative, &tr));

    // Too different
    let unnamed_different = unnamed(0., FOO, true);
    assert!(!evaluate(&ga.comparison, &unnamed_ref, &unnamed_different, &ta));
    assert!(!evaluate(&gr.comparison, &unnamed_ref, &unnamed_different, &tr));

    // The string must be exactly equal
    let unnamed_different_string = unnamed(1000., BAR, true);
    assert!(!evaluate(&ga.comparison, &unnamed_ref, &unnamed_different_string, &ta));
    assert!(!evaluate(&gr.comparison, &unnamed_ref, &unnamed_different_string, &tr));

    // Different variants are not comparable
    assert!(!evaluate(&ga.comparison, &unit, &named_ref, &ta));
    assert!(!evaluate(&gr.comparison, &unit, &named_ref, &tr));
    assert!(!evaluate(&ga.comparison, &unit, &unnamed_ref, &ta));
    assert!(!evaluate(&gr.comparison, &unit, &unnamed_ref, &tr));
    assert!(!evaluate(&ga.comparison, &named_ref, &unnamed_ref, &ta));
    assert!(!evaluate(&gr.comparison, &named_ref, &unnamed_ref, &tr));
}

#[test]
fn named_struct() {
    const EPSILON: f32 = 0.1;
    let shape = TypeShape::Struct(FieldList::Named(vec![
        named_field("value", approximate()),
        named_field("text", plain()),
        named_field("ignored", skipped()),
    ]));
    let cfg = config("f32", "Named::EPSILON", "0.01");
    let ga = abs_diff_eq(request("Named", shape.clone(), cfg.clone())).unwrap();
    let gr = relative_eq(request("Named", shape, cfg)).unwrap();
    assert_eq!(ga.default_value, "Named::EPSILON");
    assert_eq!(gr.default_value, "0.01");

    let pairs = [(1000.0f32, 1000.01), (1000.0, 1001.0), (1000.0, 0.0), (1000.0, 1000.0)];
    let ta = abs_table_f32(&pairs, EPSILON);
    let tr = rel_table_f32(&pairs, EPSILON, 0.01);

    let make = |value: f32, t: &str, ignored: bool| {
        Instance::StructVal(vec![f32_val(value), text(t), truth(ignored)])
    };
    let reference = make(1000., FOO, true);

    let both = make(1000.01, FOO, false);
    assert!(evaluate(&ga.comparison, &reference, &both, &ta));
    assert!(evaluate(&gr.comparison, &reference, &both, &tr));

    let relative = make(1001., FOO, false);
    assert!(!evaluate(&ga.comparison, &reference, &relative, &ta));
    assert!(evaluate(&gr.comparison, &reference, &relative, &tr));

    let different = make(0., FOO, true);
    assert!(!evaluate(&ga.comparison, &reference, &different, &ta));
    assert!(!evaluate(&gr.comparison, &reference, &different, &tr));

    let exact = make(1000., BAR, true);
    assert!(!evaluate(&ga.comparison, &reference, &exact, &ta));
    assert!(!evaluate(&gr.comparison, &reference, &exact, &tr));
}

#[test]
fn unnamed_struct() {
    fn epsilon() -> f64 {
        0.1
    }

    let shape = TypeShape::Struct(FieldList::Tuple(vec![approximate(), plain(), skipped()]));
    let cfg = config("f64", "epsilon()", "0.01");
    let ga = abs_diff_eq(request("Unnamed", shape.clone(), cfg.clone())).unwrap();
    let gr = relative_eq(request("Unnamed", shape, cfg)).unwrap();
    assert_eq!(ga.default_value, "epsilon()");

    let pairs = [(1000.0f64, 1000.01), (1000.0, 1001.0), (1000.0, 0.0), (1000.0, 1000.0)];
    let ta = abs_table_f64(&pairs, epsilon());
    let tr = rel_table_f64(&pairs, epsilon(), 0.01);

    let make = |value: f64, t: &str, ignored: bool| {
        Instance::StructVal(vec![f64_val(value), text(t), truth(ignored)])
    };
    let reference = make(1000., FOO, true);

    let both = make(1000.01, FOO, false);
    assert!(evaluate(&ga.comparison, &reference, &both, &ta));
    assert!(evaluate(&gr.comparison, &reference, &both, &tr));

    let relative = make(1001., FOO, false);
    assert!(!evaluate(&ga.comparison, &reference, &relative, &ta));
    assert!(evaluate(&gr.comparison, &reference, &relative, &tr));

    let different = make(0., FOO, true);
    assert!(!evaluate(&ga.comparison, &reference, &different, &ta));
    assert!(!evaluate(&gr.comparison, &reference, &different, &tr));

    let exact = make(1000., BAR, true);
    assert!(!evaluate(&ga.comparison, &reference, &exact, &ta));
    assert!(!evaluate(&gr.comparison, &reference, &exact, &tr));
}

#[test]
fn generic_struct() {
    let shape = TypeShape::Struct(FieldList::Named(vec![
        named_field("value", approximate()),
        named_field("text", plain()),
        named_field("ignored", skipped()),
    ]));
    let cfg = config("T::Epsilon", "T::default_epsilon()", "T::default_max_relative()");
    let generics = TypeGenerics {
        params: vec!["T".to_string()],
        where_clause: Some("T: RelativeEq".to_string()),
    };
    let make_request = |cfg: RawConfig| DeriveRequest {
        ident: "Gen".to_string(),
        generics: generics.clone(),
        config: cfg,
        shape: shape.clone(),
    };
    let ga = abs_diff_eq(make_request(cfg.clone())).unwrap();
    let gr = relative_eq(make_request(cfg)).unwrap();
    assert_eq!(ga.generics.params, vec!["T".to_string()]);
    assert_eq!(ga.generics.where_clause.as_deref(), Some("T: RelativeEq"));
    assert_eq!(ga.default_value, "T::default_epsilon()");
    assert_eq!(gr.default_value, "T::default_max_relative()");

    let reference_value = 100000000.0f32;
    let other_value = reference_value + 1.;
    let pairs = [(reference_value, other_value)];
    let ta = abs_table_f32(&pairs, f32::default_epsilon());
    let tr = rel_table_f32(&pairs, f32::default_epsilon(), f32::default_max_relative());

    let reference = Instance::StructVal(vec![f32_val(reference_value), text(FOO), truth(true)]);
    let other = Instance::StructVal(vec![f32_val(other_value), text(FOO), truth(true)]);
    assert!(evaluate(&ga.comparison, &reference, &other, &ta));
    assert!(evaluate(&gr.comparison, &reference, &other, &tr));
}
