//! The layout of a schema's shadow structure: which fields a configuration
//! document may supply, and in what shape.

use vstd::prelude::*;
use crate::schema::{FieldDescriptor, FieldKind, Schema};

verus! {

/// The shape in which a document supplies one field.
#[derive(Debug)]
pub enum SlotShape {
    /// One value, for a scalar or an optional field.
    Single,
    /// A whole list.
    Many,
    /// Per variant of a group, in the group's order, the layout of that
    /// variant's payload (none for a unit variant).
    Variants(Vec<Option<ShadowLayout>>),
}

/// Per field of a schema, in the schema's order, the shape in which a document
/// supplies it; `None` for a field that no document may supply.
#[derive(Debug)]
pub struct ShadowLayout {
    pub slots: Vec<Option<SlotShape>>,
}

/// `shape` is the shadow shape of `field`, which the document may supply.
pub open spec fn is_shape_of(field: FieldDescriptor, shape: SlotShape) -> bool
    decreases field,
{
    match field.kind {
        FieldKind::Scalar { .. } | FieldKind::Optional => shape is Single,
        FieldKind::List => shape is Many,
        FieldKind::VariantGroup { variants } => match shape {
            SlotShape::Variants(subs) => {
                &&& subs@.len() == variants@.len()
                &&& forall|j: int|
                    0 <= j < subs@.len() ==> match (#[trigger] variants@[j]).payload {
                        None => subs@[j] is None,
                        Some(s) => subs@[j] is Some && is_layout_of(s, subs@[j]->0.slots@),
                    }
            },
            _ => false,
        },
    }
}

/// `slots` is the shadow layout of `schema`.
pub open spec fn is_layout_of(schema: Schema, slots: Seq<Option<SlotShape>>) -> bool
    decreases schema,
{
    &&& slots.len() == schema.fields@.len()
    &&& forall|i: int|
        0 <= i < slots.len() ==> match #[trigger] slots[i] {
            None => !schema.fields@[i].config_visible,
            Some(shape) => schema.fields@[i].config_visible && is_shape_of(schema.fields@[i], shape),
        }
}

/// The shadow shape of a field that a document may supply.
fn field_shape(field: &FieldDescriptor) -> (r: SlotShape)
    ensures
        is_shape_of(*field, r),
    decreases field,
{
    match &field.kind {
        FieldKind::Scalar { .. } | FieldKind::Optional => SlotShape::Single,
        FieldKind::List => SlotShape::Many,
        FieldKind::VariantGroup { variants } => {
            let n = variants.len();
            let mut subs: Vec<Option<ShadowLayout>> = Vec::new();
            let mut j: usize = 0;
            while j < n
                invariant
                    n == variants@.len(),
                    j <= n,
                    subs@.len() == j,
                    field.kind == (FieldKind::VariantGroup { variants: *variants }),
                    forall|k: int|
                        0 <= k < j ==> match (#[trigger] variants@[k]).payload {
                            None => subs@[k] is None,
                            Some(s) => subs@[k] is Some && is_layout_of(s, subs@[k]->0.slots@),
                        },
                decreases n - j,
            {
                match &variants[j].payload {
                    None => subs.push(None),
                    Some(s) => {
                        proof {
                            assert(decreases_to!(field.kind => field.kind->variants));
                        }
                        subs.push(Some(build_layout(s)));
                    },
                }
                j += 1;
            }
            SlotShape::Variants(subs)
        },
    }
}

/// Derives the shadow layout of `schema`: every field the document may supply,
/// each as absent-or-present, and the fields it may not supply left out.
pub fn build_layout(schema: &Schema) -> (r: ShadowLayout)
    ensures
        is_layout_of(*schema, r.slots@),
    decreases schema,
{
    let n = schema.fields.len();
    let mut slots: Vec<Option<SlotShape>> = Vec::new();
    let mut i: usize = 0;
    while i < n
        invariant
            n == schema.fields@.len(),
            i <= n,
            slots@.len() == i,
            forall|k: int|
                0 <= k < i ==> match #[trigger] slots@[k] {
                    None => !schema.fields@[k].config_visible,
                    Some(shape) => schema.fields@[k].config_visible && is_shape_of(
                        schema.fields@[k],
                        shape,
                    ),
                },
        decreases n - i,
    {
        let field = &schema.fields[i];
        if field.config_visible {
            slots.push(Some(field_shape(field)));
        } else {
            slots.push(None);
        }
        i += 1;
    }
    ShadowLayout { slots }
}

} // verus!
