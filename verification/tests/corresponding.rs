use corresponding::classify::classify;
use corresponding::model::{Declaration, Field, Marker, ScopeItem, Shape, TypeArg, TypeExpr};
use corresponding::record::{construct_from, FieldValue, MoveCorresponding, Record, Value};
use corresponding::synthesize::{
    supports_default, synthesize, FieldAction, Policy, Routine,
};

fn ty(name: &str) -> TypeExpr {
    TypeExpr::Named { name: name.to_string(), args: vec![] }
}

fn ty1(name: &str, arg: &str) -> TypeExpr {
    TypeExpr::Named {
        name: name.to_string(),
        args: vec![TypeArg::Named(arg.to_string())],
    }
}

fn field(name: &str, t: TypeExpr) -> Field {
    Field { name: name.to_string(), ty: t }
}

fn derive_marker(idents: &[&str]) -> Marker {
    Marker {
        name: "derive".to_string(),
        idents: idents.iter().map(|s| s.to_string()).collect(),
    }
}

fn num(n: u64) -> FieldValue {
    FieldValue::Plain(Value::Int(n))
}

fn text(s: &str) -> FieldValue {
    FieldValue::Plain(Value::Text(s.to_string()))
}

fn some_int(n: u64) -> FieldValue {
    FieldValue::Optional(Some(Value::Int(n)))
}

fn none_value() -> FieldValue {
    FieldValue::Optional(None)
}

/// The first declaration of the original example scope: every pairing of
/// plain and optional `u8`, two heap-valued fields, and one field of its
/// own.
fn decl_a() -> Declaration {
    Declaration {
        name: "A".to_string(),
        fields: vec![
            // same vs other base type
            field("a", ty("u8")),
            field("b", ty("u8")),
            // optional source into plain target
            field("c", ty("u8")),
            field("d", ty("u8")),
            // optional into optional
            field("e", ty1("Option", "u8")),
            field("f", ty1("Option", "u8")),
            field("g", ty1("Option", "u8")),
            field("h", ty1("Option", "u8")),
            // plain source into optional target
            field("i", ty1("Option", "u8")),
            field("j", ty1("Option", "u8")),
            // heap values
            field("k", ty("String")),
            field("l", ty1("Box", "u8")),
            // only in A
            field("m", ty("u8")),
        ],
        markers: vec![derive_marker(&["Default", "Debug", "Clone", "Eq", "PartialEq"])],
    }
}

fn decl_b() -> Declaration {
    Declaration {
        name: "B".to_string(),
        fields: vec![
            field("a", ty("u8")),
            field("b", ty("u16")),
            field("c", ty1("Option", "u8")),
            field("d", ty1("Option", "u8")),
            field("e", ty1("Option", "u8")),
            field("f", ty1("Option", "u8")),
            field("g", ty1("Option", "u8")),
            field("h", ty1("Option", "u8")),
            field("i", ty("u8")),
            field("j", ty("u8")),
            field("k", ty("String")),
            field("l", ty1("Box", "u8")),
            field("n", ty("u8")),
        ],
        markers: vec![],
    }
}

fn record_b() -> Record {
    Record {
        decl: decl_b(),
        values: vec![
            num(2),
            num(2),
            none_value(),
            some_int(2),
            none_value(),
            some_int(2),
            none_value(),
            some_int(2),
            num(2),
            num(2),
            text("2"),
            num(2),
            num(2),
        ],
    }
}

#[test]
fn test_move_corresponding() {
    let mut a = Record {
        decl: decl_a(),
        values: vec![
            num(1),
            num(1),
            num(1),
            num(1),
            none_value(),
            none_value(),
            some_int(1),
            some_int(1),
            none_value(),
            some_int(1),
            text("1"),
            num(1),
            num(1),
        ],
    };

    let b = record_b();

    a.move_corresponding(b);

    assert_eq!(
        a,
        Record {
            decl: decl_a(),
            values: vec![
                num(2),
                num(1),
                num(1),
                num(2),
                none_value(),
                some_int(2),
                some_int(1),
                some_int(2),
                some_int(2),
                some_int(2),
                text("2"),
                num(2),
                num(1),
            ],
        }
    );
}

#[test]
fn test_into() {
    let default_a = Record {
        decl: decl_a(),
        values: vec![
            num(0),
            num(0),
            num(0),
            num(0),
            none_value(),
            none_value(),
            none_value(),
            none_value(),
            none_value(),
            none_value(),
            text(""),
            num(0),
            num(0),
        ],
    };

    let a = construct_from(default_a, record_b());

    assert_eq!(
        a,
        Record {
            decl: decl_a(),
            values: vec![
                num(2),
                num(0),
                num(0),
                num(2),
                none_value(),
                some_int(2),
                none_value(),
                some_int(2),
                some_int(2),
                some_int(2),
                text("2"),
                num(2),
                num(0),
            ],
        }
    );
}

#[test]
fn test_classify_plain() {
    assert_eq!(
        classify(&ty("u8")),
        Some(Shape { base_name: "u8".to_string(), is_optional: false })
    );
    // a parameterized type that is not the optional wrapper keeps its own
    // outer name
    assert_eq!(
        classify(&ty1("Box", "u8")),
        Some(Shape { base_name: "Box".to_string(), is_optional: false })
    );
}

#[test]
fn test_classify_optional() {
    assert_eq!(
        classify(&ty1("Option", "u8")),
        Some(Shape { base_name: "u8".to_string(), is_optional: true })
    );
}

#[test]
fn test_classify_double_optional_uses_outer_wrapper() {
    assert_eq!(
        classify(&ty1("Option", "Option")),
        Some(Shape { base_name: "Option".to_string(), is_optional: true })
    );
}

#[test]
fn test_classify_rejects_unnameable_types() {
    assert_eq!(classify(&TypeExpr::Unnamed), None);
    // the wrapper without exactly one named argument has no shape
    assert_eq!(
        classify(&TypeExpr::Named { name: "Option".to_string(), args: vec![] }),
        None
    );
    assert_eq!(
        classify(&TypeExpr::Named {
            name: "Option".to_string(),
            args: vec![TypeArg::Unnamed],
        }),
        None
    );
}

#[test]
fn test_double_optional_pair_copies_conditionally() {
    let decl_l = Declaration {
        name: "L".to_string(),
        fields: vec![field("x", ty1("Option", "Option"))],
        markers: vec![],
    };
    let decl_r = Declaration {
        name: "R".to_string(),
        fields: vec![field("x", ty1("Option", "Option"))],
        markers: vec![],
    };

    let routines = synthesize(&vec![
        ScopeItem::Record(decl_l.clone()),
        ScopeItem::Record(decl_r.clone()),
    ]);
    match &routines[0] {
        Routine::Correspondence { actions, .. } => {
            assert_eq!(
                actions,
                &vec![FieldAction { field: "x".to_string(), policy: Policy::CopyIfPresent }]
            );
        }
        other => panic!("unexpected routine {:?}", other),
    }

    // a present source copies the whole slot; an absent source leaves the
    // target untouched
    let mut l = Record { decl: decl_l.clone(), values: vec![some_int(1)] };
    let r = Record { decl: decl_r.clone(), values: vec![some_int(9)] };
    l.move_corresponding(r);
    assert_eq!(l.values, vec![some_int(9)]);

    let mut l2 = Record { decl: decl_l, values: vec![some_int(1)] };
    let r2 = Record { decl: decl_r, values: vec![none_value()] };
    l2.move_corresponding(r2);
    assert_eq!(l2.values, vec![some_int(1)]);
}

#[test]
fn test_scenario_mismatched_base_excluded() {
    let a_decl = Declaration {
        name: "A".to_string(),
        fields: vec![
            field("a", ty("u8")),
            field("b", ty("u8")),
            field("k", ty("String")),
            field("l", ty1("Box", "u8")),
            field("m", ty("u8")),
        ],
        markers: vec![],
    };
    let b_decl = Declaration {
        name: "B".to_string(),
        fields: vec![
            field("a", ty("u8")),
            field("b", ty("u16")),
            field("k", ty("String")),
            field("l", ty1("Box", "u8")),
            field("n", ty("u8")),
        ],
        markers: vec![],
    };

    let routines = synthesize(&vec![
        ScopeItem::Record(a_decl.clone()),
        ScopeItem::Record(b_decl.clone()),
    ]);
    // field b differs in base type, and m and n are unshared: none of them
    // gets an action
    match &routines[0] {
        Routine::Correspondence { target, source, actions } => {
            assert_eq!(target, "A");
            assert_eq!(source, "B");
            assert_eq!(
                actions,
                &vec![
                    FieldAction { field: "a".to_string(), policy: Policy::Direct },
                    FieldAction { field: "k".to_string(), policy: Policy::Direct },
                    FieldAction { field: "l".to_string(), policy: Policy::Direct },
                ]
            );
        }
        other => panic!("unexpected routine {:?}", other),
    }

    let mut a = Record {
        decl: a_decl,
        values: vec![num(1), num(1), text("1"), num(1), num(1)],
    };
    let b = Record {
        decl: b_decl,
        values: vec![num(2), num(2), text("2"), num(2), num(2)],
    };
    a.move_corresponding(b);
    assert_eq!(a.values, vec![num(2), num(1), text("2"), num(2), num(1)]);
}

#[test]
fn test_scenario_optional_source_plain_target() {
    let a_decl = Declaration {
        name: "A".to_string(),
        fields: vec![field("c", ty("u8"))],
        markers: vec![],
    };
    let b_decl = Declaration {
        name: "B".to_string(),
        fields: vec![field("c", ty1("Option", "u8"))],
        markers: vec![],
    };

    let mut a = Record { decl: a_decl.clone(), values: vec![num(7)] };
    let b_absent = Record { decl: b_decl.clone(), values: vec![none_value()] };
    a.move_corresponding(b_absent);
    assert_eq!(a.values, vec![num(7)]);

    let b_present = Record { decl: b_decl, values: vec![some_int(5)] };
    a.move_corresponding(b_present);
    assert_eq!(a.values, vec![num(5)]);
}

#[test]
fn test_scenario_construct_from_needs_target_capability() {
    let a_decl = Declaration {
        name: "A".to_string(),
        fields: vec![field("a", ty("u8"))],
        markers: vec![derive_marker(&["Debug", "Default"])],
    };
    let b_decl = Declaration {
        name: "B".to_string(),
        fields: vec![field("a", ty("u8"))],
        markers: vec![derive_marker(&["Debug"])],
    };

    let routines = synthesize(&vec![
        ScopeItem::Record(a_decl),
        ScopeItem::Other,
        ScopeItem::Record(b_decl),
    ]);

    assert_eq!(routines.len(), 3);
    assert!(matches!(
        &routines[0],
        Routine::Correspondence { target, source, .. } if target == "A" && source == "B"
    ));
    assert!(matches!(
        &routines[1],
        Routine::ConstructFrom { target, source } if target == "A" && source == "B"
    ));
    assert!(matches!(
        &routines[2],
        Routine::Correspondence { target, source, .. } if target == "B" && source == "A"
    ));
    // no construct-from routine with B as target anywhere
    assert!(!routines.iter().any(|r| matches!(
        r,
        Routine::ConstructFrom { target, .. } if target == "B"
    )));
}

#[test]
fn test_supports_default_detection() {
    let with_default = Declaration {
        name: "A".to_string(),
        fields: vec![],
        markers: vec![derive_marker(&["Clone", "Default"])],
    };
    assert!(supports_default(&with_default));

    let without_default = Declaration {
        name: "B".to_string(),
        fields: vec![],
        markers: vec![derive_marker(&["Clone", "Debug"])],
    };
    assert!(!supports_default(&without_default));

    // the identifier counts only inside the recognized marker group
    let wrong_group = Declaration {
        name: "C".to_string(),
        fields: vec![],
        markers: vec![Marker {
            name: "allow".to_string(),
            idents: vec!["Default".to_string()],
        }],
    };
    assert!(!supports_default(&wrong_group));
}

#[test]
fn test_empty_scope_yields_no_routines() {
    let routines = synthesize(&vec![ScopeItem::Other]);
    assert!(routines.is_empty());

    // a single eligible declaration pairs with nothing
    let lone = Declaration {
        name: "A".to_string(),
        fields: vec![field("a", ty("u8"))],
        markers: vec![],
    };
    let routines = synthesize(&vec![ScopeItem::Record(lone)]);
    assert!(routines.is_empty());
}

#[test]
fn test_wrap_policy_always_sets_presence() {
    let a_decl = Declaration {
        name: "A".to_string(),
        fields: vec![field("i", ty1("Option", "u8"))],
        markers: vec![],
    };
    let b_decl = Declaration {
        name: "B".to_string(),
        fields: vec![field("i", ty("u8"))],
        markers: vec![],
    };

    let mut a = Record { decl: a_decl, values: vec![none_value()] };
    let b = Record { decl: b_decl, values: vec![num(3)] };
    a.move_corresponding(b);
    assert_eq!(a.values, vec![some_int(3)]);
}
