//! The shadow structure: every field of a settings type held as
//! absent-or-present, filled from the configuration document alone.

use vstd::prelude::*;
use crate::schema::{FieldDescriptor, FieldKind, Schema};
use crate::value::Value;

verus! {

/// What the document supplied for one field.
#[derive(Debug)]
pub enum DocValue {
    /// A value of a scalar or optional field.
    One(Value),
    /// A whole list.
    Many(Vec<Value>),
    /// For a variant group: per variant of the group, in the group's order, the
    /// shadow of that variant's payload if the document mentions it.
    Variants(Vec<Option<Shadow>>),
}

/// The document's contribution to every field of a schema, in the schema's
/// order: `None` where the document says nothing.
#[derive(Debug)]
pub struct Shadow {
    pub slots: Vec<Option<DocValue>>,
}

/// The slot `slot` has the shape that `field` calls for.
pub open spec fn slot_fits(field: FieldDescriptor, slot: Option<DocValue>) -> bool
    decreases field,
{
    match slot {
        None => true,
        Some(DocValue::One(_)) => field.kind is Scalar || field.kind is Optional,
        Some(DocValue::Many(_)) => field.kind is List,
        Some(DocValue::Variants(subs)) => match field.kind {
            FieldKind::VariantGroup { variants } => {
                &&& subs@.len() == variants@.len()
                &&& forall|j: int|
                    0 <= j < subs@.len() && (#[trigger] variants@[j]).payload is Some
                        && subs@[j] is Some ==> shadow_fits(
                        variants@[j].payload->0,
                        subs@[j]->0.slots@,
                    )
            },
            _ => false,
        },
    }
}

/// The slots `slots` match the fields of `schema` one for one.
pub open spec fn shadow_fits(schema: Schema, slots: Seq<Option<DocValue>>) -> bool
    decreases schema,
{
    &&& slots.len() == schema.fields@.len()
    &&& forall|i: int| 0 <= i < slots.len() ==> slot_fits(schema.fields@[i], #[trigger] slots[i])
}

/// Every slot of `slots` is absent.
pub open spec fn all_absent(slots: Seq<Option<DocValue>>) -> bool {
    forall|i: int| 0 <= i < slots.len() ==> (#[trigger] slots[i]) is None
}

impl Schema {
    /// The shadow of a document that says nothing: every slot absent.
    pub fn blank_shadow(&self) -> (r: Shadow)
        ensures
            shadow_fits(*self, r.slots@),
            all_absent(r.slots@),
    {
        let n = self.fields.len();
        let mut slots: Vec<Option<DocValue>> = Vec::new();
        let mut i: usize = 0;
        while i < n
            invariant
                n == self.fields@.len(),
                i <= n,
                slots@.len() == i,
                all_absent(slots@),
            decreases n - i,
        {
            slots.push(None);
            i += 1;
        }
        Shadow { slots }
    }
}

/// Whether the slot `slot` has the shape that `field` calls for.
pub fn slot_matches(field: &FieldDescriptor, slot: &Option<DocValue>) -> (r: bool)
    ensures
        r == slot_fits(*field, *slot),
    decreases field,
{
    match slot {
        None => true,
        Some(DocValue::One(_)) => match &field.kind {
            FieldKind::Scalar { .. } | FieldKind::Optional => true,
            _ => false,
        },
        Some(DocValue::Many(_)) => match &field.kind {
            FieldKind::List => true,
            _ => false,
        },
        Some(DocValue::Variants(subs)) => match &field.kind {
            FieldKind::VariantGroup { variants } => {
                let n = variants.len();
                if subs.len() != n {
                    return false;
                }
                let mut j: usize = 0;
                while j < n
                    invariant
                        n == variants@.len(),
                        n == subs@.len(),
                        j <= n,
                        field.kind == (FieldKind::VariantGroup { variants: *variants }),
                        *slot == Some(DocValue::Variants(*subs)),
                        forall|k: int|
                            0 <= k < j && (#[trigger] variants@[k]).payload is Some
                                && subs@[k] is Some ==> shadow_fits(
                                variants@[k].payload->0,
                                subs@[k]->0.slots@,
                            ),
                    decreases n - j,
                {
                    match &variants[j].payload {
                        Some(s) => match &subs[j] {
                            Some(sh) => {
                                proof {
                                    assert(decreases_to!(field.kind => field.kind->variants));
                                }
                                if !shadow_matches(s, sh) {
                                    return false;
                                }
                            },
                            None => {},
                        },
                        None => {},
                    }
                    j += 1;
                }
                true
            },
            _ => false,
        },
    }
}

/// Whether the slots of `shadow` match the fields of `schema` one for one.
pub fn shadow_matches(schema: &Schema, shadow: &Shadow) -> (r: bool)
    ensures
        r == shadow_fits(*schema, shadow.slots@),
    decreases schema,
{
    let n = schema.fields.len();
    if shadow.slots.len() != n {
        return false;
    }
    let mut i: usize = 0;
    while i < n
        invariant
            n == schema.fields@.len(),
            n == shadow.slots@.len(),
            i <= n,
            forall|j: int| 0 <= j < i ==> slot_fits(schema.fields@[j], #[trigger] shadow.slots@[j]),
        decreases n - i,
    {
        if !slot_matches(&schema.fields[i], &shadow.slots[i]) {
            return false;
        }
        i += 1;
    }
    true
}

} // verus!
