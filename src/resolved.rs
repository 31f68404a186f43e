//! Fully resolved settings, and their mathematical model.

use vstd::prelude::*;
use crate::value::Value;

verus! {

/// The resolved value of one field.
#[derive(Debug, PartialEq, Eq)]
pub enum Resolved {
    Scalar(Value),
    Optional(Option<Value>),
    List(Vec<Value>),
    /// The invoked variant, if any.
    Variant(Option<Selected>),
}

/// The variant of a group that was invoked, by its position in the group, with
/// its resolved payload (none for a unit variant).
#[derive(Debug, PartialEq, Eq)]
pub struct Selected {
    pub variant: usize,
    pub payload: Option<Settings>,
}

/// The resolved value of every field of a schema, in the schema's order.
#[derive(Debug, PartialEq, Eq)]
pub struct Settings {
    pub values: Vec<Resolved>,
}

/// Model of a resolved field.
pub ghost enum Resolution {
    Scalar(Value),
    Optional(Option<Value>),
    List(Seq<Value>),
    Variant(Option<Choice>),
}

/// Model of a selected variant.
pub ghost struct Choice {
    pub variant: nat,
    pub payload: Option<Seq<Resolution>>,
}

impl Resolved {
    pub open spec fn model(self) -> Resolution
        decreases self,
    {
        match self {
            Resolved::Scalar(v) => Resolution::Scalar(v),
            Resolved::Optional(v) => Resolution::Optional(v),
            Resolved::List(vs) => Resolution::List(vs@),
            Resolved::Variant(None) => Resolution::Variant(None),
            Resolved::Variant(Some(sel)) => Resolution::Variant(
                Some(
                    Choice {
                        variant: sel.variant as nat,
                        payload: match sel.payload {
                            None => None,
                            Some(s) => Some(s.model()),
                        },
                    },
                ),
            ),
        }
    }
}

impl Settings {
    pub open spec fn model(self) -> Seq<Resolution>
        decreases self,
    {
        Seq::new(
            self.values@.len(),
            |i: int|
                if 0 <= i < self.values@.len() {
                    self.values@[i].model()
                } else {
                    Resolution::Optional(None)
                },
        )
    }
}

} // verus!
