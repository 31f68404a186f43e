use clap_config::layout::{build_layout, SlotShape};
use clap_config::merge::{merge, resolve, try_merge};
use clap_config::resolved::{Resolved, Selected, Settings};
use clap_config::schema::{FieldDescriptor, FieldKind, Schema, VariantSchema};
use clap_config::shadow::{shadow_matches, DocValue, Shadow};
use clap_config::source::{args_match, ArgSet, CliValue, Provenance};
use clap_config::value::Value;

fn text(s: &str) -> Value {
    Value::Text(s.to_owned())
}

fn texts(items: &[&str]) -> Vec<Value> {
    items.iter().map(|s| text(s)).collect()
}

fn field(name: &str, kind: FieldKind) -> FieldDescriptor {
    FieldDescriptor { name: name.to_owned(), kind, config_visible: true }
}

fn hidden(name: &str, kind: FieldKind) -> FieldDescriptor {
    FieldDescriptor { name: name.to_owned(), kind, config_visible: false }
}

fn explicit(v: Value) -> CliValue {
    CliValue::One(v, Provenance::ExplicitUser)
}

fn parser_default(v: Value) -> CliValue {
    CliValue::One(v, Provenance::BuiltinDefault)
}

fn doc(v: Value) -> Option<DocValue> {
    Some(DocValue::One(v))
}

fn flag_schema() -> Schema {
    Schema { fields: vec![field("flag", FieldKind::Scalar { default: text("") })] }
}

fn resolve_flag(arg: CliValue, slot: Option<DocValue>) -> Resolved {
    let f = field("flag", FieldKind::Scalar { default: text("") });
    resolve(&f, arg, slot)
}

#[test]
fn flag_scenario_default_only() {
    let r = try_merge(
        &flag_schema(),
        ArgSet { entries: vec![parser_default(text("D"))] },
        Shadow { slots: vec![None] },
    );
    assert_eq!(Some(Settings { values: vec![Resolved::Scalar(text("D"))] }), r);
}

#[test]
fn flag_scenario_explicit_over_document() {
    assert_eq!(Resolved::Scalar(text("A")), resolve_flag(explicit(text("A")), doc(text("C"))));
}

#[test]
fn flag_scenario_document_over_default() {
    assert_eq!(Resolved::Scalar(text("C")), resolve_flag(parser_default(text("D")), doc(text("C"))));
}

#[test]
fn flag_scenario_explicit_without_document() {
    assert_eq!(Resolved::Scalar(text("A")), resolve_flag(explicit(text("A")), None));
}

#[test]
fn explicit_scalar_ignores_document() {
    for slot in [None, doc(text("C")), doc(text("A"))] {
        assert_eq!(Resolved::Scalar(text("A")), resolve_flag(explicit(text("A")), slot));
    }
    let f = field("n", FieldKind::Scalar { default: Value::Number(7) });
    let r = resolve(&f, explicit(Value::Number(-3)), doc(Value::Number(12)));
    assert_eq!(Resolved::Scalar(Value::Number(-3)), r);
}

#[test]
fn document_beats_parser_default_for_each_kind() {
    let opt = field("o", FieldKind::Optional);
    assert_eq!(
        Resolved::Optional(Some(text("doc"))),
        resolve(&opt, parser_default(text("cli")), doc(text("doc"))),
    );
    let list = field("l", FieldKind::List);
    assert_eq!(
        Resolved::List(texts(&["d1", "d2", "d3"])),
        resolve(
            &list,
            CliValue::Many(texts(&["c1", "c2"]), Provenance::BuiltinDefault),
            Some(DocValue::Many(texts(&["d1", "d2", "d3"]))),
        ),
    );
    let flag = field("b", FieldKind::Scalar { default: Value::Flag(false) });
    assert_eq!(
        Resolved::Scalar(Value::Flag(true)),
        resolve(&flag, parser_default(Value::Flag(false)), doc(Value::Flag(true))),
    );
}

#[test]
fn parser_default_kept_without_document() {
    let opt = field("o", FieldKind::Optional);
    assert_eq!(Resolved::Optional(Some(text("cli"))), resolve(&opt, parser_default(text("cli")), None));
    let list = field("l", FieldKind::List);
    assert_eq!(
        Resolved::List(texts(&["c1", "c2"])),
        resolve(&list, CliValue::Many(texts(&["c1", "c2"]), Provenance::BuiltinDefault), None),
    );
}

#[test]
fn absent_everywhere_gives_builtin_defaults() {
    let schema = Schema {
        fields: vec![
            field("s", FieldKind::Scalar { default: Value::Number(42) }),
            field("o", FieldKind::Optional),
            field("l", FieldKind::List),
            field(
                "g",
                FieldKind::VariantGroup {
                    variants: vec![VariantSchema { name: "u".to_owned(), payload: None }],
                },
            ),
        ],
    };
    let args = ArgSet { entries: vec![CliValue::Absent, CliValue::Absent, CliValue::Absent, CliValue::Absent] };
    let r = try_merge(&schema, args, schema.blank_shadow()).expect("inputs match the schema");
    assert_eq!(
        vec![
            Resolved::Scalar(Value::Number(42)),
            Resolved::Optional(None),
            Resolved::List(vec![]),
            Resolved::Variant(None),
        ],
        r.values,
    );
}

#[test]
fn document_fills_field_absent_from_command_line() {
    let f = field("s", FieldKind::Scalar { default: Value::Number(42) });
    assert_eq!(Resolved::Scalar(Value::Number(5)), resolve(&f, CliValue::Absent, doc(Value::Number(5))));
    let opt = field("o", FieldKind::Optional);
    assert_eq!(Resolved::Optional(Some(text("d"))), resolve(&opt, CliValue::Absent, doc(text("d"))));
}

#[test]
fn explicit_list_replaces_document_list() {
    let list = field("l", FieldKind::List);
    let r = resolve(
        &list,
        CliValue::Many(texts(&["a"]), Provenance::ExplicitUser),
        Some(DocValue::Many(texts(&["x", "y"]))),
    );
    assert_eq!(Resolved::List(texts(&["a"])), r);
    // An explicitly empty list still wins.
    let r = resolve(
        &list,
        CliValue::Many(vec![], Provenance::ExplicitUser),
        Some(DocValue::Many(texts(&["x", "y"]))),
    );
    assert_eq!(Resolved::List(vec![]), r);
}

#[test]
fn document_list_replaces_default_list() {
    let list = field("l", FieldKind::List);
    let r = resolve(
        &list,
        CliValue::Many(texts(&["d1", "d2"]), Provenance::BuiltinDefault),
        Some(DocValue::Many(texts(&["x"]))),
    );
    assert_eq!(Resolved::List(texts(&["x"])), r);
    let r = resolve(&list, CliValue::Absent, Some(DocValue::Many(texts(&["x"]))));
    assert_eq!(Resolved::List(texts(&["x"])), r);
}

fn a_b_schema() -> Schema {
    Schema {
        fields: vec![field(
            "cmd",
            FieldKind::VariantGroup {
                variants: vec![
                    VariantSchema { name: "A".to_owned(), payload: Some(flag_schema()) },
                    VariantSchema { name: "B".to_owned(), payload: None },
                ],
            },
        )],
    }
}

fn document_names_a() -> Shadow {
    let a = Shadow { slots: vec![doc(text("x"))] };
    Shadow { slots: vec![Some(DocValue::Variants(vec![Some(a), None]))] }
}

#[test]
fn document_alone_never_selects_variant() {
    let r = try_merge(&a_b_schema(), ArgSet { entries: vec![CliValue::Absent] }, document_names_a());
    assert_eq!(Some(Settings { values: vec![Resolved::Variant(None)] }), r);
}

#[test]
fn invoked_unit_variant_ignores_document() {
    let args = ArgSet { entries: vec![CliValue::Invoked { variant: 1, args: None }] };
    let r = try_merge(&a_b_schema(), args, document_names_a());
    let expected = vec![Resolved::Variant(Some(Selected { variant: 1, payload: None }))];
    assert_eq!(Some(Settings { values: expected }), r);
}

#[test]
fn invoked_variant_takes_document_payload() {
    let args = ArgSet {
        entries: vec![CliValue::Invoked {
            variant: 0,
            args: Some(ArgSet { entries: vec![parser_default(text(""))] }),
        }],
    };
    let r = try_merge(&a_b_schema(), args, document_names_a());
    let payload = Settings { values: vec![Resolved::Scalar(text("x"))] };
    let expected = vec![Resolved::Variant(Some(Selected { variant: 0, payload: Some(payload) }))];
    assert_eq!(Some(Settings { values: expected }), r);
}

#[test]
fn hidden_field_ignores_document() {
    let schema = Schema {
        fields: vec![
            hidden("pos", FieldKind::Optional),
            hidden("s", FieldKind::Scalar { default: text("dflt") }),
            hidden("l", FieldKind::List),
        ],
    };
    let config = Shadow {
        slots: vec![doc(text("doc")), doc(text("doc")), Some(DocValue::Many(texts(&["doc"])))],
    };
    let args = || ArgSet {
        entries: vec![CliValue::Absent, CliValue::Absent, CliValue::Absent],
    };
    let r = try_merge(&schema, args(), config).expect("inputs match the schema");
    assert_eq!(
        vec![Resolved::Optional(None), Resolved::Scalar(text("dflt")), Resolved::List(vec![])],
        r.values,
    );
    let args = ArgSet {
        entries: vec![
            explicit(text("cli")),
            parser_default(text("cli-default")),
            CliValue::Many(texts(&["c"]), Provenance::BuiltinDefault),
        ],
    };
    let config = Shadow {
        slots: vec![doc(text("doc")), doc(text("doc")), Some(DocValue::Many(texts(&["doc"])))],
    };
    let r = merge(&schema, args, config);
    assert_eq!(
        vec![
            Resolved::Optional(Some(text("cli"))),
            Resolved::Scalar(text("cli-default")),
            Resolved::List(texts(&["c"])),
        ],
        r.values,
    );
}

#[test]
fn empty_document_and_defaults_round_trip() {
    let schema = Schema {
        fields: vec![
            field("s", FieldKind::Scalar { default: text("s-default") }),
            field("t", FieldKind::Scalar { default: Value::Flag(true) }),
            field("o", FieldKind::Optional),
            field("l", FieldKind::List),
            field("m", FieldKind::List),
            a_b_schema().fields.into_iter().next().expect("one field"),
        ],
    };
    let args = ArgSet {
        entries: vec![
            parser_default(text("s-default")),
            CliValue::Absent,
            CliValue::Absent,
            CliValue::Many(vec![], Provenance::BuiltinDefault),
            CliValue::Absent,
            CliValue::Absent,
        ],
    };
    let r = try_merge(&schema, args, schema.blank_shadow()).expect("inputs match the schema");
    assert_eq!(
        vec![
            Resolved::Scalar(text("s-default")),
            Resolved::Scalar(Value::Flag(true)),
            Resolved::Optional(None),
            Resolved::List(vec![]),
            Resolved::List(vec![]),
            Resolved::Variant(None),
        ],
        r.values,
    );
}

#[test]
fn mismatched_reports_are_refused() {
    let schema = a_b_schema();
    // Wrong number of entries.
    assert!(!args_match(&schema, &ArgSet { entries: vec![] }));
    assert_eq!(None, try_merge(&schema, ArgSet { entries: vec![] }, schema.blank_shadow()));
    // A variant the group does not list.
    let unknown = ArgSet { entries: vec![CliValue::Invoked { variant: 2, args: None }] };
    assert!(!args_match(&schema, &unknown));
    assert_eq!(None, try_merge(&schema, unknown, schema.blank_shadow()));
    // A payload variant reported without its own fields.
    let bare = ArgSet { entries: vec![CliValue::Invoked { variant: 0, args: None }] };
    assert_eq!(None, try_merge(&schema, bare, schema.blank_shadow()));
    // A unit variant reported with fields.
    let extra = ArgSet {
        entries: vec![CliValue::Invoked { variant: 1, args: Some(ArgSet { entries: vec![] }) }],
    };
    assert!(!args_match(&schema, &extra));
    // A value of the wrong shape.
    let scalar = flag_schema();
    let many = ArgSet { entries: vec![CliValue::Many(vec![], Provenance::ExplicitUser)] };
    assert!(!args_match(&scalar, &many));
    assert_eq!(None, try_merge(&scalar, many, scalar.blank_shadow()));
    // A nested report of the wrong length.
    let nested = ArgSet {
        entries: vec![CliValue::Invoked { variant: 0, args: Some(ArgSet { entries: vec![] }) }],
    };
    assert!(!args_match(&schema, &nested));
}

#[test]
fn mismatched_documents_are_refused() {
    let schema = a_b_schema();
    let args = || ArgSet { entries: vec![CliValue::Absent] };
    // Wrong number of slots.
    assert!(!shadow_matches(&schema, &Shadow { slots: vec![] }));
    assert_eq!(None, try_merge(&schema, args(), Shadow { slots: vec![] }));
    // A single value where a variant group stands.
    let single = Shadow { slots: vec![doc(text("x"))] };
    assert!(!shadow_matches(&schema, &single));
    assert_eq!(None, try_merge(&schema, args(), single));
    // A variant table of the wrong length.
    let short = Shadow { slots: vec![Some(DocValue::Variants(vec![None]))] };
    assert!(!shadow_matches(&schema, &short));
    // A variant payload of the wrong shape.
    let bad_payload = Shadow {
        slots: vec![Some(DocValue::Variants(vec![
            Some(Shadow { slots: vec![Some(DocValue::Many(vec![]))] }),
            None,
        ]))],
    };
    assert!(!shadow_matches(&schema, &bad_payload));
    assert!(shadow_matches(&schema, &document_names_a()));
    assert!(shadow_matches(&schema, &schema.blank_shadow()));
}

#[test]
fn blank_shadow_has_one_absent_slot_per_field() {
    let schema = Schema {
        fields: vec![field("a", FieldKind::Optional), hidden("b", FieldKind::List), field("c", FieldKind::List)],
    };
    let blank = schema.blank_shadow();
    assert_eq!(3, blank.slots.len());
    assert!(blank.slots.iter().all(|s| s.is_none()));
}

#[test]
fn layout_leaves_out_hidden_fields() {
    let schema = Schema {
        fields: vec![
            field("s", FieldKind::Scalar { default: text("") }),
            hidden("pos", FieldKind::Optional),
            field("l", FieldKind::List),
            a_b_schema().fields.into_iter().next().expect("one field"),
        ],
    };
    let layout = build_layout(&schema);
    assert_eq!(4, layout.slots.len());
    assert!(matches!(layout.slots[0], Some(SlotShape::Single)));
    assert!(layout.slots[1].is_none());
    assert!(matches!(layout.slots[2], Some(SlotShape::Many)));
    match &layout.slots[3] {
        Some(SlotShape::Variants(subs)) => {
            assert_eq!(2, subs.len());
            let a = subs[0].as_ref().expect("variant A has a payload");
            assert_eq!(1, a.slots.len());
            assert!(matches!(a.slots[0], Some(SlotShape::Single)));
            assert!(subs[1].is_none());
        },
        other => panic!("expected a variant table, found {other:?}"),
    }
}

#[test]
fn lookups_by_name() {
    let schema = Schema {
        fields: vec![
            field("alpha", FieldKind::Optional),
            a_b_schema().fields.into_iter().next().expect("one field"),
            field("alpha", FieldKind::List),
        ],
    };
    assert_eq!(Some(0), schema.field_index(&"alpha".to_owned()));
    assert_eq!(Some(1), schema.field_index(&"cmd".to_owned()));
    assert_eq!(None, schema.field_index(&"beta".to_owned()));
    let group = &schema.fields[1];
    assert_eq!(Some(1), group.variant_index(&"B".to_owned()));
    assert_eq!(Some(0), group.variant_index(&"A".to_owned()));
    assert_eq!(None, group.variant_index(&"C".to_owned()));
    assert_eq!(None, schema.fields[0].variant_index(&"A".to_owned()));
}

#[test]
fn command_line_queries() {
    let args = ArgSet {
        entries: vec![
            CliValue::Absent,
            explicit(text("x")),
            CliValue::Many(vec![], Provenance::BuiltinDefault),
            CliValue::Invoked { variant: 3, args: None },
        ],
    };
    assert_eq!(
        vec![false, true, true, true],
        (0..4).map(|i| args.is_present(i)).collect::<Vec<_>>(),
    );
    assert_eq!(None, args.provenance(0));
    assert_eq!(Some(Provenance::ExplicitUser), args.provenance(1));
    assert_eq!(Some(Provenance::BuiltinDefault), args.provenance(2));
    assert_eq!(None, args.provenance(3));
    assert_eq!(None, args.invoked(1));
    assert_eq!(Some(3), args.invoked(3));
}

#[test]
fn duplicate_copies_each_value() {
    for v in [Value::Flag(true), Value::Number(i64::MIN), text("copy me")] {
        assert_eq!(v, v.duplicate());
    }
}
