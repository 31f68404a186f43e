//! The schema model: the static shape of a settings type.

use vstd::prelude::*;
use crate::value::Value;

verus! {

/// The shape of one field, fixed once from its declared type.
#[derive(Debug)]
pub enum FieldKind {
    /// A single value; `default` is the type's own default, used when neither
    /// the command line nor the document reaches the field.
    Scalar { default: Value },
    /// A value whose absence is itself meaningful.
    Optional,
    /// An ordered sequence of values; empty when nothing supplies one.
    List,
    /// A tagged union of named payloads (a sub-command).
    VariantGroup { variants: Vec<VariantSchema> },
}

/// One field of a settings type.
#[derive(Debug)]
pub struct FieldDescriptor {
    pub name: String,
    pub kind: FieldKind,
    /// Whether the configuration document may supply this field at all.
    pub config_visible: bool,
}

/// One case of a variant group; a unit case carries no payload.
#[derive(Debug)]
pub struct VariantSchema {
    pub name: String,
    pub payload: Option<Schema>,
}

/// The ordered fields of a settings type.
#[derive(Debug)]
pub struct Schema {
    pub fields: Vec<FieldDescriptor>,
}

impl Schema {
    /// The position of the first field named `name`, if any.
    pub fn field_index(&self, name: &String) -> (r: Option<usize>)
        ensures
            match r {
                Some(i) => i < self.fields@.len() && self.fields@[i as int].name@ == name@
                    && forall|j: int| 0 <= j < i ==> (#[trigger] self.fields@[j]).name@ != name@,
                None => forall|j: int|
                    0 <= j < self.fields@.len() ==> (#[trigger] self.fields@[j]).name@ != name@,
            },
    {
        let n = self.fields.len();
        let mut i: usize = 0;
        while i < n
            invariant
                n == self.fields@.len(),
                i <= n,
                forall|j: int| 0 <= j < i ==> (#[trigger] self.fields@[j]).name@ != name@,
            decreases n - i,
        {
            if self.fields[i].name == *name {
                return Some(i);
            }
            i += 1;
        }
        None
    }
}

impl FieldDescriptor {
    /// For a variant group, the position of its first variant named `name`, if
    /// any; `None` for a field of another kind.
    pub fn variant_index(&self, name: &String) -> (r: Option<usize>)
        ensures
            match r {
                Some(j) => self.kind is VariantGroup && j < self.kind->variants@.len()
                    && self.kind->variants@[j as int].name@ == name@ && forall|k: int|
                    0 <= k < j ==> (#[trigger] self.kind->variants@[k]).name@ != name@,
                None => self.kind is VariantGroup ==> forall|k: int|
                    0 <= k < self.kind->variants@.len() ==> (
                    #[trigger] self.kind->variants@[k]).name@ != name@,
            },
    {
        match &self.kind {
            FieldKind::VariantGroup { variants } => {
                let n = variants.len();
                let mut j: usize = 0;
                while j < n
                    invariant
                        n == variants@.len(),
                        j <= n,
                        self.kind == (FieldKind::VariantGroup { variants: *variants }),
                        forall|k: int| 0 <= k < j ==> (#[trigger] variants@[k]).name@ != name@,
                    decreases n - j,
                {
                    if variants[j].name == *name {
                        return Some(j);
                    }
                    j += 1;
                }
                None
            },
            _ => None,
        }
    }
}

} // verus!
