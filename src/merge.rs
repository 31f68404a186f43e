//! The merge engine: per field, the command line's explicit values beat the
//! document, which beats the command line's own defaults, which beat the
//! schema's built-in defaults.

use vstd::prelude::*;
use crate::resolved::{Choice, Resolution, Resolved, Selected, Settings};
use crate::schema::{FieldDescriptor, FieldKind, Schema};
use crate::shadow::{shadow_fits, shadow_matches, slot_fits, DocValue, Shadow};
use crate::source::{arg_fits, args_fit, args_match, ArgSet, CliValue, Provenance};
use crate::value::Value;

verus! {

/// The report on the field at `i`; absent past the end.
pub open spec fn arg_at(args: Seq<CliValue>, i: int) -> CliValue {
    if 0 <= i < args.len() {
        args[i]
    } else {
        CliValue::Absent
    }
}

/// The document's slot for the field at `i`; absent past the end.
pub open spec fn slot_at(slots: Seq<Option<DocValue>>, i: int) -> Option<DocValue> {
    if 0 <= i < slots.len() {
        slots[i]
    } else {
        None
    }
}

/// The single value that a slot holds, if any.
pub open spec fn doc_one(slot: Option<DocValue>) -> Option<Value> {
    match slot {
        Some(DocValue::One(v)) => Some(v),
        _ => None,
    }
}

/// The list that a slot holds, if any.
pub open spec fn doc_many(slot: Option<DocValue>) -> Option<Seq<Value>> {
    match slot {
        Some(DocValue::Many(vs)) => Some(vs@),
        _ => None,
    }
}

/// The slots of the shadow that a slot holds for the variant at `j`; none when
/// the document does not mention that variant.
pub open spec fn doc_variant(slot: Option<DocValue>, j: int) -> Seq<Option<DocValue>> {
    match slot {
        Some(DocValue::Variants(subs)) => if 0 <= j < subs@.len() && subs@[j] is Some {
            subs@[j]->0.slots@
        } else {
            Seq::empty()
        },
        _ => Seq::empty(),
    }
}

/// The reports on a variant's own fields; none for a unit variant.
pub open spec fn sub_args(args: Option<ArgSet>) -> Seq<CliValue> {
    match args {
        Some(a) => a.entries@,
        None => Seq::empty(),
    }
}

/// The value from the command line, unless it is only the parser's default and
/// the document has one.
pub open spec fn ranked<T>(cli: T, source: Provenance, doc: Option<T>) -> T {
    if source == Provenance::ExplicitUser {
        cli
    } else {
        doc.unwrap_or(cli)
    }
}

/// The value a field takes when neither the command line nor the document
/// supplies one.
pub open spec fn builtin_default(field: FieldDescriptor) -> Resolution {
    match field.kind {
        FieldKind::Scalar { default } => Resolution::Scalar(default),
        FieldKind::Optional => Resolution::Optional(None),
        FieldKind::List => Resolution::List(Seq::empty()),
        FieldKind::VariantGroup { .. } => Resolution::Variant(None),
    }
}

/// The built-in default of every field of `schema`.
pub open spec fn defaults(schema: Schema) -> Seq<Resolution> {
    Seq::new(schema.fields@.len(), |i: int| builtin_default(schema.fields@[i]))
}

/// The report `arg` is absent, or only the parser's default and equal to the
/// field's own built-in default.
pub open spec fn reports_default(field: FieldDescriptor, arg: CliValue) -> bool {
    match (field.kind, arg) {
        (_, CliValue::Absent) => true,
        (FieldKind::Scalar { default }, CliValue::One(v, Provenance::BuiltinDefault)) => v == default,
        (FieldKind::List, CliValue::Many(vs, Provenance::BuiltinDefault)) => vs@.len() == 0,
        _ => false,
    }
}

/// The resolution of one field from its command-line report and document slot.
pub open spec fn resolve_field(field: FieldDescriptor, arg: CliValue, slot: Option<DocValue>) -> Resolution
    decreases field,
{
    let doc = if field.config_visible {
        slot
    } else {
        None
    };
    match field.kind {
        FieldKind::Scalar { default } => match arg {
            CliValue::One(v, p) => Resolution::Scalar(ranked(v, p, doc_one(doc))),
            _ => Resolution::Scalar(doc_one(doc).unwrap_or(default)),
        },
        FieldKind::Optional => match arg {
            CliValue::One(v, p) => Resolution::Optional(Some(ranked(v, p, doc_one(doc)))),
            _ => Resolution::Optional(doc_one(doc)),
        },
        FieldKind::List => match arg {
            CliValue::Many(vs, p) => Resolution::List(ranked(vs@, p, doc_many(doc))),
            _ => Resolution::List(doc_many(doc).unwrap_or(Seq::empty())),
        },
        FieldKind::VariantGroup { variants } => match arg {
            CliValue::Invoked { variant, args } => if variant < variants@.len() {
                match variants@[variant as int].payload {
                    None => Resolution::Variant(Some(Choice { variant: variant as nat, payload: None })),
                    Some(s) => Resolution::Variant(
                        Some(
                            Choice {
                                variant: variant as nat,
                                payload: Some(
                                    merged(s, sub_args(args), doc_variant(doc, variant as int)),
                                ),
                            },
                        ),
                    ),
                }
            } else {
                Resolution::Variant(None)
            },
            _ => Resolution::Variant(None),
        },
    }
}

/// The resolution of every field of `schema` from the command-line reports
/// `args` and the document slots `slots`.
pub open spec fn merged(schema: Schema, args: Seq<CliValue>, slots: Seq<Option<DocValue>>) -> Seq<Resolution>
    decreases schema,
{
    Seq::new(
        schema.fields@.len(),
        |i: int|
            if 0 <= i < schema.fields@.len() {
                resolve_field(schema.fields@[i], arg_at(args, i), slot_at(slots, i))
            } else {
                Resolution::Optional(None)
            },
    )
}

/// Two slot sequences that agree on every field of `schema`, counting a slot
/// past the end as absent, give the same resolution.
proof fn lemma_merged_absent_tail(
    schema: Schema,
    args: Seq<CliValue>,
    a: Seq<Option<DocValue>>,
    b: Seq<Option<DocValue>>,
)
    requires
        forall|i: int| 0 <= i < schema.fields@.len() ==> slot_at(a, i) == slot_at(b, i),
    ensures
        merged(schema, args, a) == merged(schema, args, b),
{
    assert(merged(schema, args, a) =~= merged(schema, args, b));
}

/// Takes the single value out of a slot.
fn take_one(slot: Option<DocValue>) -> (r: Option<Value>)
    ensures
        r == doc_one(slot),
{
    match slot {
        Some(DocValue::One(v)) => Some(v),
        _ => None,
    }
}

/// Takes the list out of a slot.
fn take_many(slot: Option<DocValue>) -> (r: Option<Vec<Value>>)
    ensures
        r is Some <==> doc_many(slot) is Some,
        r is Some ==> r->0@ == doc_many(slot)->0,
{
    match slot {
        Some(DocValue::Many(vs)) => Some(vs),
        _ => None,
    }
}

/// Takes out of a slot the shadow of the variant at `j`, if the document
/// mentions that variant.
fn take_variant(slot: Option<DocValue>, j: usize) -> (r: Option<Shadow>)
    ensures
        r is Some ==> r->0.slots@ == doc_variant(slot, j as int),
        r is None ==> doc_variant(slot, j as int) == Seq::<Option<DocValue>>::empty(),
        r is Some ==> (match slot {
            Some(DocValue::Variants(subs)) => j < subs@.len() && subs@[j as int] == r,
            _ => false,
        }),
{
    match slot {
        Some(DocValue::Variants(subs)) => {
            let mut subs = subs;
            if j < subs.len() {
                subs.swap_remove(j)
            } else {
                None
            }
        },
        _ => None,
    }
}

/// The command line's value, unless it is only the parser's default and the
/// document has one.
fn rank<T>(cli: T, source: Provenance, doc: Option<T>) -> (r: T)
    ensures
        r == ranked(cli, source, doc),
{
    match source {
        Provenance::ExplicitUser => cli,
        Provenance::BuiltinDefault => match doc {
            Some(d) => d,
            None => cli,
        },
    }
}

/// Resolves one field from its command-line report and its document slot.
pub fn resolve(field: &FieldDescriptor, arg: CliValue, slot: Option<DocValue>) -> (r: Resolved)
    requires
        arg_fits(*field, arg),
        slot_fits(*field, slot),
    ensures
        r.model() == resolve_field(*field, arg, slot),
    decreases field,
{
    let doc = if field.config_visible {
        slot
    } else {
        None
    };
    match &field.kind {
        FieldKind::Scalar { default } => match arg {
            CliValue::One(v, p) => Resolved::Scalar(rank(v, p, take_one(doc))),
            _ => match take_one(doc) {
                Some(d) => Resolved::Scalar(d),
                None => Resolved::Scalar(default.duplicate()),
            },
        },
        FieldKind::Optional => match arg {
            CliValue::One(v, p) => Resolved::Optional(Some(rank(v, p, take_one(doc)))),
            _ => Resolved::Optional(take_one(doc)),
        },
        FieldKind::List => match arg {
            CliValue::Many(vs, p) => Resolved::List(rank(vs, p, take_many(doc))),
            _ => match take_many(doc) {
                Some(dl) => Resolved::List(dl),
                None => Resolved::List(Vec::new()),
            },
        },
        FieldKind::VariantGroup { variants } => match arg {
            CliValue::Invoked { variant, args } => {
                if variant < variants.len() {
                    match &variants[variant].payload {
                        None => Resolved::Variant(Some(Selected { variant, payload: None })),
                        Some(s) => match args {
                            Some(a) => {
                                let ghost sub_doc = doc_variant(doc, variant as int);
                                let sub_shadow = match take_variant(doc, variant) {
                                    Some(sh) => sh,
                                    None => {
                                        let blank = s.blank_shadow();
                                        proof {
                                            lemma_merged_absent_tail(*s, a.entries@, blank.slots@, sub_doc);
                                        }
                                        blank
                                    },
                                };
                                let payload = merge(s, a, sub_shadow);
                                Resolved::Variant(Some(Selected { variant, payload: Some(payload) }))
                            },
                            None => Resolved::Variant(None),
                        },
                    }
                } else {
                    Resolved::Variant(None)
                }
            },
            _ => Resolved::Variant(None),
        },
    }
}

/// Merges the command-line reports `args` and the document's shadow `shadow`
/// into settings for `schema`, field by field. Both must have been built from
/// `schema`: a mismatch is a defect of the caller.
pub fn merge(schema: &Schema, args: ArgSet, shadow: Shadow) -> (r: Settings)
    requires
        args_fit(*schema, args.entries@),
        shadow_fits(*schema, shadow.slots@),
    ensures
        r.model() == merged(*schema, args.entries@, shadow.slots@),
    decreases schema,
{
    let ghost args0 = args.entries@;
    let ghost slots0 = shadow.slots@;
    let mut entries = args.entries;
    let mut slots = shadow.slots;
    let n = schema.fields.len();
    let mut out: Vec<Resolved> = Vec::new();
    let mut i: usize = 0;
    while i < n
        invariant
            n == schema.fields@.len(),
            i <= n,
            args_fit(*schema, args0),
            shadow_fits(*schema, slots0),
            entries@ == args0.subrange(i as int, n as int),
            slots@ == slots0.subrange(i as int, n as int),
            out@.len() == i,
            forall|j: int|
                0 <= j < i ==> (#[trigger] out@[j]).model() == resolve_field(
                    schema.fields@[j],
                    args0[j],
                    slots0[j],
                ),
        decreases n - i,
    {
        let arg = entries.remove(0);
        let slot = slots.remove(0);
        proof {
            assert(arg == args0[i as int]);
            assert(slot == slots0[i as int]);
        }
        let r = resolve(&schema.fields[i], arg, slot);
        out.push(r);
        i += 1;
    }
    let r = Settings { values: out };
    assert(r.model() =~= merged(*schema, args0, slots0));
    r
}

/// Merges as `merge` does when `args` and `shadow` both match `schema`, and
/// returns `None` when either does not.
pub fn try_merge(schema: &Schema, args: ArgSet, shadow: Shadow) -> (r: Option<Settings>)
    ensures
        r is Some <==> args_fit(*schema, args.entries@) && shadow_fits(*schema, shadow.slots@),
        r is Some ==> r->0.model() == merged(*schema, args.entries@, shadow.slots@),
{
    if args_match(schema, &args) && shadow_matches(schema, &shadow) {
        Some(merge(schema, args, shadow))
    } else {
        None
    }
}

} // verus!
