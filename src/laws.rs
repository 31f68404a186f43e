//! Laws of the merge engine, stated over `merged`, which `merge` computes.

use vstd::prelude::*;
use crate::merge::{
    arg_at, builtin_default, defaults, doc_many, doc_one, merged, reports_default, slot_at,
};
use crate::resolved::Resolution;
use crate::schema::{FieldKind, Schema};
use crate::shadow::{all_absent, shadow_fits, DocValue};
use crate::source::{args_fit, CliValue, Provenance};
use crate::value::Value;

verus! {

/// A scalar field that the user set on the command line resolves to that
/// value, whatever the document holds.
pub proof fn law_explicit_scalar_wins(
    schema: Schema,
    args: Seq<CliValue>,
    slots: Seq<Option<DocValue>>,
    i: int,
    v: Value,
)
    requires
        0 <= i < schema.fields@.len(),
        schema.fields@[i].kind is Scalar,
        arg_at(args, i) == CliValue::One(v, Provenance::ExplicitUser),
    ensures
        merged(schema, args, slots)[i] == Resolution::Scalar(v),
{
}

/// Where the command line holds only the parser's default for a scalar,
/// optional or list field and the document supplies a value, the document's
/// value is the resolved one.
pub proof fn law_document_beats_parser_default(
    schema: Schema,
    args: Seq<CliValue>,
    slots: Seq<Option<DocValue>>,
    i: int,
)
    requires
        args_fit(schema, args),
        shadow_fits(schema, slots),
        0 <= i < schema.fields@.len(),
        schema.fields@[i].config_visible,
        match args[i] {
            CliValue::One(_, p) => p == Provenance::BuiltinDefault,
            CliValue::Many(_, p) => p == Provenance::BuiltinDefault,
            _ => false,
        },
        slots[i] is Some,
    ensures
        schema.fields@[i].kind is Scalar ==> merged(schema, args, slots)[i] == Resolution::Scalar(
            doc_one(slots[i])->0,
        ),
        schema.fields@[i].kind is Optional ==> merged(schema, args, slots)[i]
            == Resolution::Optional(doc_one(slots[i])),
        schema.fields@[i].kind is List ==> merged(schema, args, slots)[i] == Resolution::List(
            doc_many(slots[i])->0,
        ),
        doc_one(slots[i]) is Some || doc_many(slots[i]) is Some,
{
    assert(crate::source::arg_fits(schema.fields@[i], args[i]));
    assert(crate::shadow::slot_fits(schema.fields@[i], slots[i]));
}

/// A field that neither the command line nor the document supplies takes its
/// built-in default (`None` for an optional field).
pub proof fn law_absent_gives_default(
    schema: Schema,
    args: Seq<CliValue>,
    slots: Seq<Option<DocValue>>,
    i: int,
)
    requires
        0 <= i < schema.fields@.len(),
        arg_at(args, i) is Absent,
        slot_at(slots, i) is None,
    ensures
        merged(schema, args, slots)[i] == builtin_default(schema.fields@[i]),
{
}

/// A list field resolves to one whole list, never to a mix: an explicit
/// command-line list discards the document's list, and otherwise a document
/// list discards the parser's default list.
pub proof fn law_lists_are_not_mixed(
    schema: Schema,
    args: Seq<CliValue>,
    slots: Seq<Option<DocValue>>,
    i: int,
)
    requires
        0 <= i < schema.fields@.len(),
        schema.fields@[i].kind is List,
    ensures
        match arg_at(args, i) {
            CliValue::Many(cs, Provenance::ExplicitUser) => merged(schema, args, slots)[i]
                == Resolution::List(cs@),
            _ => schema.fields@[i].config_visible && doc_many(slot_at(slots, i)) is Some
                ==> merged(schema, args, slots)[i] == Resolution::List(
                doc_many(slot_at(slots, i))->0,
            ),
        },
{
}

/// A variant group with no variant invoked on the command line resolves to
/// `None`, whatever variant the document names.
pub proof fn law_document_never_selects_variant(
    schema: Schema,
    args: Seq<CliValue>,
    slots: Seq<Option<DocValue>>,
    i: int,
)
    requires
        0 <= i < schema.fields@.len(),
        schema.fields@[i].kind is VariantGroup,
        !(arg_at(args, i) is Invoked),
    ensures
        merged(schema, args, slots)[i] == Resolution::Variant(None),
{
}

/// A field that the document may not supply resolves the same whatever the
/// document holds.
pub proof fn law_hidden_fields_ignore_document(
    schema: Schema,
    args: Seq<CliValue>,
    slots1: Seq<Option<DocValue>>,
    slots2: Seq<Option<DocValue>>,
    i: int,
)
    requires
        0 <= i < schema.fields@.len(),
        !schema.fields@[i].config_visible,
    ensures
        merged(schema, args, slots1)[i] == merged(schema, args, slots2)[i],
{
}

/// An empty document merged with a command line that reports nothing but
/// defaults gives back every field's built-in default.
pub proof fn law_defaults_round_trip(schema: Schema, args: Seq<CliValue>, slots: Seq<Option<DocValue>>)
    requires
        forall|i: int| 0 <= i < schema.fields@.len() ==> reports_default(
            schema.fields@[i],
            #[trigger] arg_at(args, i),
        ),
        all_absent(slots),
    ensures
        merged(schema, args, slots) == defaults(schema),
{
    assert forall|i: int| 0 <= i < schema.fields@.len() implies merged(schema, args, slots)[i]
        == defaults(schema)[i] by {
        assert(reports_default(schema.fields@[i], arg_at(args, i)));
        if i < slots.len() {
            assert(slots[i] is None);
        }
        if let CliValue::Many(vs, _) = arg_at(args, i) {
            assert(vs@ =~= Seq::<Value>::empty());
        }
    }
    assert(merged(schema, args, slots) =~= defaults(schema));
}

} // verus!
