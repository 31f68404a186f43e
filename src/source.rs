//! What the command-line parser reports, field by field, with provenance.

use vstd::prelude::*;
use crate::schema::{FieldDescriptor, FieldKind, Schema};
use crate::value::Value;

verus! {

/// Where a value reported by the command-line parser came from.
#[derive(Debug, Clone, Copy, PartialEq, Eq, Structural)]
pub enum Provenance {
    /// The user supplied the value.
    ExplicitUser,
    /// The parser filled the value in because the user supplied nothing.
    BuiltinDefault,
}

/// The parser's report on one field.
#[derive(Debug)]
pub enum CliValue {
    /// The field is not reachable from the command line, or no value and no
    /// default was produced for it (for a variant group: no variant invoked).
    Absent,
    /// One value, for a scalar or optional field.
    One(Value, Provenance),
    /// The collected values of a list field.
    Many(Vec<Value>, Provenance),
    /// The variant of a variant group that was invoked, by its position in the
    /// group, with the report on that variant's own fields (none for a unit
    /// variant).
    Invoked { variant: usize, args: Option<ArgSet> },
}

/// The parser's report on every field of a schema, in the schema's order.
#[derive(Debug)]
pub struct ArgSet {
    pub entries: Vec<CliValue>,
}

impl ArgSet {
    /// Whether the parser reported a value, or an invoked variant, for the field
    /// at `i`.
    pub fn is_present(&self, i: usize) -> (r: bool)
        requires
            i < self.entries@.len(),
        ensures
            r == !(self.entries@[i as int] is Absent),
    {
        match &self.entries[i] {
            CliValue::Absent => false,
            _ => true,
        }
    }

    /// Where the value reported for the field at `i` came from; `None` when no
    /// value was reported or the field is a variant group.
    pub fn provenance(&self, i: usize) -> (r: Option<Provenance>)
        requires
            i < self.entries@.len(),
        ensures
            r == match self.entries@[i as int] {
                CliValue::One(_, p) => Some(p),
                CliValue::Many(_, p) => Some(p),
                _ => None,
            },
    {
        match &self.entries[i] {
            CliValue::One(_, p) => Some(*p),
            CliValue::Many(_, p) => Some(*p),
            _ => None,
        }
    }

    /// The position of the variant invoked for the field at `i`, if any.
    pub fn invoked(&self, i: usize) -> (r: Option<usize>)
        requires
            i < self.entries@.len(),
        ensures
            r == match self.entries@[i as int] {
                CliValue::Invoked { variant, .. } => Some(variant),
                _ => None,
            },
    {
        match &self.entries[i] {
            CliValue::Invoked { variant, .. } => Some(*variant),
            _ => None,
        }
    }
}

/// The report `arg` has the shape that `field` calls for.
pub open spec fn arg_fits(field: FieldDescriptor, arg: CliValue) -> bool
    decreases field,
{
    match field.kind {
        FieldKind::Scalar { .. } | FieldKind::Optional => arg is Absent || arg is One,
        FieldKind::List => arg is Absent || arg is Many,
        FieldKind::VariantGroup { variants } => match arg {
            CliValue::Absent => true,
            CliValue::Invoked { variant, args } => {
                &&& variant < variants@.len()
                &&& match variants@[variant as int].payload {
                    None => args is None,
                    Some(s) => args is Some && args_fit(s, args->0.entries@),
                }
            },
            _ => false,
        },
    }
}

/// The reports `args` match the fields of `schema` one for one.
pub open spec fn args_fit(schema: Schema, args: Seq<CliValue>) -> bool
    decreases schema,
{
    &&& args.len() == schema.fields@.len()
    &&& forall|i: int| 0 <= i < args.len() ==> arg_fits(schema.fields@[i], #[trigger] args[i])
}

/// Whether the report `arg` has the shape that `field` calls for.
pub fn arg_matches(field: &FieldDescriptor, arg: &CliValue) -> (r: bool)
    ensures
        r == arg_fits(*field, *arg),
    decreases field,
{
    match &field.kind {
        FieldKind::Scalar { .. } | FieldKind::Optional => match arg {
            CliValue::Absent | CliValue::One(..) => true,
            _ => false,
        },
        FieldKind::List => match arg {
            CliValue::Absent | CliValue::Many(..) => true,
            _ => false,
        },
        FieldKind::VariantGroup { variants } => match arg {
            CliValue::Absent => true,
            CliValue::Invoked { variant, args } => {
                if *variant < variants.len() {
                    match (&variants[*variant].payload, args) {
                        (None, None) => true,
                        (Some(s), Some(a)) => args_match(s, a),
                        _ => false,
                    }
                } else {
                    false
                }
            },
            _ => false,
        },
    }
}

/// Whether the reports `args` match the fields of `schema` one for one.
pub fn args_match(schema: &Schema, args: &ArgSet) -> (r: bool)
    ensures
        r == args_fit(*schema, args.entries@),
    decreases schema,
{
    let n = schema.fields.len();
    if args.entries.len() != n {
        return false;
    }
    let mut i: usize = 0;
    while i < n
        invariant
            n == schema.fields@.len(),
            n == args.entries@.len(),
            i <= n,
            forall|j: int| 0 <= j < i ==> arg_fits(schema.fields@[j], #[trigger] args.entries@[j]),
        decreases n - i,
    {
        if !arg_matches(&schema.fields[i], &args.entries[i]) {
            return false;
        }
        i += 1;
    }
    true
}

} // verus!
