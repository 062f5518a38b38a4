//! The finalizer: from a merged partial value to a configuration in which
//! every required field is resolved, or to the path of the first one missing.

use vstd::prelude::*;
use crate::partial::{FieldView, NodeView, PartialValue, Slot, TreeView};
use crate::schema::{FieldKind, FieldKindView, FieldSpec, FieldSpecView, Schema, SchemaView};
use crate::text::{dotted, join_dotted, str_eq};
use crate::value::Value;

verus! {

/// A required field has no value after all layers were merged.
#[derive(Debug, PartialEq, Eq)]
pub struct MissingValue {
    /// The names from the root to the missing field, joined by dots.
    pub path: String,
}

/// What a resolved configuration holds for one field.
#[derive(Debug, PartialEq, Eq)]
pub enum Resolved {
    /// An optional field that no layer gave a value.
    Absent,
    /// A leaf value.
    Leaf(Value),
    /// A resolved nested configuration.
    Nested(FinalConfig),
}

/// One field of a resolved configuration.
#[derive(Debug, PartialEq, Eq)]
pub struct FinalField {
    pub name: String,
    pub value: Resolved,
}

/// A resolved configuration: the fields of its schema, one to one, with no
/// required field absent.
#[derive(Debug, PartialEq, Eq)]
pub struct FinalConfig {
    pub fields: Vec<FinalField>,
}

impl View for Resolved {
    type V = NodeView;

    open spec fn view(&self) -> NodeView
        decreases self,
    {
        match self {
            Resolved::Absent => NodeView::Absent,
            Resolved::Leaf(v) => NodeView::Leaf(v@),
            Resolved::Nested(c) => NodeView::Nested(c.view()),
        }
    }
}

impl View for FinalField {
    type V = FieldView;

    open spec fn view(&self) -> FieldView
        decreases self,
    {
        FieldView { name: self.name@, node: self.value.view() }
    }
}

impl View for FinalConfig {
    type V = TreeView;

    open spec fn view(&self) -> TreeView
        decreases self,
    {
        TreeView {
            fields: Seq::new(
                self.fields@.len(),
                |i: int|
                    if 0 <= i < self.fields@.len() {
                        self.fields@[i].view()
                    } else {
                        arbitrary()
                    },
            ),
        }
    }
}

impl NodeView {
    /// The path, from this field on, of the first required field below it
    /// that is absent; `None` where the field resolves.
    ///
    /// An absent field is missing unless it is optional. Below a nested field
    /// the path of what is missing there is prefixed by the field's name.
    pub open spec fn first_missing(self, spec: FieldSpecView) -> Option<Seq<char>>
        decreases spec, 0nat,
    {
        match self {
            NodeView::Absent => if spec.optional {
                None
            } else {
                Some(spec.name)
            },
            NodeView::Leaf(_) => None,
            NodeView::Nested(tree) => match spec.kind {
                FieldKindView::Leaf { .. } => None,
                FieldKindView::Nested { schema } => match first_missing_from(
                    tree.fields,
                    schema.fields,
                    0,
                ) {
                    Some(path) => Some(dotted(spec.name, path)),
                    None => None,
                },
            },
        }
    }
}

/// The path of the first missing field among those from index `from` on, in
/// the order of the schema.
pub open spec fn first_missing_from(
    fields: Seq<FieldView>,
    specs: Seq<FieldSpecView>,
    from: int,
) -> Option<Seq<char>>
    decreases specs, specs.len() - from,
{
    if from < 0 || from >= specs.len() {
        None
    } else {
        match fields[from].node.first_missing(specs[from]) {
            Some(path) => Some(path),
            None => first_missing_from(fields, specs, from + 1),
        }
    }
}

impl TreeView {
    /// The dotted path of the first required field, in the order of the
    /// schema, that has no value; `None` where every required field has one.
    pub open spec fn first_missing(self, schema: SchemaView) -> Option<Seq<char>> {
        first_missing_from(self.fields, schema.fields, 0)
    }

    /// No required field of the schema is absent in this tree.
    pub open spec fn complete_for(self, schema: SchemaView) -> bool {
        self.first_missing(schema) is None
    }
}

impl TreeView {
    /// The node of field `i`, where the tree has such a field and it is
    /// called `name`.
    pub open spec fn node_named(self, i: int, name: Seq<char>) -> Option<NodeView> {
        if 0 <= i < self.fields.len() && self.fields[i].name == name {
            Some(self.fields[i].node)
        } else {
            None
        }
    }
}

impl FinalConfig {
    /// What the configuration holds at position `i`, where the field there
    /// is called `name`.
    pub fn field(&self, i: usize, name: &str) -> (r: Option<&Resolved>)
        ensures
            match r {
                Some(value) => self@.node_named(i as int, name@) == Some(value@),
                None => self@.node_named(i as int, name@) is None,
            },
    {
        if i < self.fields.len() {
            let field = &self.fields[i];
            if str_eq(field.name.as_str(), name) {
                Some(&field.value)
            } else {
                None
            }
        } else {
            None
        }
    }
}

impl MissingValue {
    /// The same error seen from one level up: the path is prefixed by the
    /// name of the nested field and a dot.
    pub fn nested_under(self, field: &str) -> (r: MissingValue)
        ensures
            r.path@ == dotted(field@, self.path@),
    {
        MissingValue { path: join_dotted(field, self.path.as_str()) }
    }
}

fn finalize_slot(slot: &Slot, spec: &FieldSpec) -> (r: Result<Resolved, MissingValue>)
    requires
        slot@.conforms_to(spec@),
    ensures
        match r {
            Ok(v) => slot@.first_missing(spec@) is None && v@ == slot@,
            Err(e) => slot@.first_missing(spec@) == Some(e.path@),
        },
    decreases spec,
{
    match slot {
        Slot::Absent => {
            if spec.optional {
                Ok(Resolved::Absent)
            } else {
                Err(MissingValue { path: spec.name.clone() })
            }
        },
        Slot::Leaf(v) => Ok(Resolved::Leaf(v.clone())),
        Slot::Nested(p) => match &spec.kind {
            FieldKind::Leaf { .. } => unreached(),
            FieldKind::Nested { schema } => match finalize(p, schema) {
                Ok(c) => Ok(Resolved::Nested(c)),
                Err(e) => Err(e.nested_under(spec.name.as_str())),
            },
        },
    }
}

/// Resolves a merged partial value against its schema.
///
/// The fields are visited in the order of the schema. The first required
/// field that is absent ends the pass with its dotted path; an optional field
/// that is absent resolves to absent. On success every value is handed on
/// unchanged.
pub fn finalize(merged: &PartialValue, schema: &Schema) -> (r: Result<FinalConfig, MissingValue>)
    requires
        merged@.conforms_to(schema@),
    ensures
        match r {
            Ok(c) => merged@.first_missing(schema@) is None && c@ == merged@,
            Err(e) => merged@.first_missing(schema@) == Some(e.path@),
        },
        r matches Ok(c) ==> c@.conforms_to(schema@) && c@.complete_for(schema@),
    decreases schema,
{
    let mut fields: Vec<FinalField> = Vec::new();
    let mut i: usize = 0;
    while i < schema.fields.len()
        invariant
            merged@.conforms_to(schema@),
            i <= schema.fields@.len(),
            fields@.len() == i,
            forall|j: int| 0 <= j < i ==> fields@[j]@ == merged@.fields[j],
            merged@.first_missing(schema@) == first_missing_from(
                merged@.fields,
                schema@.fields,
                i as int,
            ),
        decreases schema.fields@.len() - i,
    {
        let spec = &schema.fields[i];
        let field = &merged.fields[i];
        match finalize_slot(&field.slot, spec) {
            Ok(value) => {
                fields.push(FinalField { name: field.name.clone(), value });
            },
            Err(e) => {
                return Err(e);
            },
        }
        i = i + 1;
    }
    let c = FinalConfig { fields };
    assert(c@.fields =~= merged@.fields);
    Ok(c)
}

} // verus!
