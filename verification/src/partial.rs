//! Partial values: what one layer knows of a configuration. Any field may be
//! absent; a nested field holds a partial value of its own.

use vstd::prelude::*;
use crate::schema::{FieldKind, FieldKindView, FieldSpec, FieldSpecView, Schema, SchemaView};
use crate::value::{Value, ValueView};

verus! {

/// What a partial value holds for one field.
#[derive(Debug, PartialEq, Eq)]
pub enum Slot {
    /// The layer says nothing of this field.
    Absent,
    /// A decoded leaf value.
    Leaf(Value),
    /// What the layer knows of a nested configuration.
    Nested(PartialValue),
}

/// One field of a partial value, under the name the schema gives it.
#[derive(Debug, PartialEq, Eq)]
pub struct PartialField {
    pub name: String,
    pub slot: Slot,
}

/// A snapshot of a configuration in which any field may be absent.
///
/// The fields stand in the order of the schema that the value belongs to.
#[derive(Debug, PartialEq, Eq)]
pub struct PartialValue {
    pub fields: Vec<PartialField>,
}

/// The mathematical content of a [`Slot`].
pub enum NodeView {
    Absent,
    Leaf(ValueView),
    Nested(TreeView),
}

/// The mathematical content of a [`PartialField`].
pub struct FieldView {
    pub name: Seq<char>,
    pub node: NodeView,
}

/// A tree of named fields: the mathematical content of a [`PartialValue`].
pub struct TreeView {
    pub fields: Seq<FieldView>,
}

impl View for Slot {
    type V = NodeView;

    open spec fn view(&self) -> NodeView
        decreases self,
    {
        match self {
            Slot::Absent => NodeView::Absent,
            Slot::Leaf(v) => NodeView::Leaf(v@),
            Slot::Nested(p) => NodeView::Nested(p.view()),
        }
    }
}

impl View for PartialField {
    type V = FieldView;

    open spec fn view(&self) -> FieldView
        decreases self,
    {
        FieldView { name: self.name@, node: self.slot.view() }
    }
}

impl View for PartialValue {
    type V = TreeView;

    open spec fn view(&self) -> TreeView
        decreases self,
    {
        TreeView {
            fields: Seq::new(
                self.fields@.len(),
                |i: int|
                    if 0 <= i < self.fields@.len() {
                        self.fields@[i].view()
                    } else {
                        arbitrary()
                    },
            ),
        }
    }
}

impl NodeView {
    /// The node is of the kind that the field asks for. Any leaf may be
    /// absent; a nested configuration only where the field is optional.
    pub open spec fn conforms_to(self, spec: FieldSpecView) -> bool
        decreases spec,
    {
        match self {
            NodeView::Absent => spec.is_leaf() || spec.optional,
            NodeView::Leaf(_) => spec.is_leaf(),
            NodeView::Nested(tree) => match spec.kind {
                FieldKindView::Leaf { .. } => false,
                FieldKindView::Nested { schema } => tree.conforms_to(schema),
            },
        }
    }
}

impl TreeView {
    /// The tree has exactly the fields of the schema, name by name and in the
    /// same order, and each node is of the kind of its field.
    pub open spec fn conforms_to(self, schema: SchemaView) -> bool
        decreases schema,
    {
        &&& self.fields.len() == schema.fields.len()
        &&& forall|i: int|
            #![trigger self.fields[i]]
            #![trigger schema.fields[i]]
            0 <= i < schema.fields.len() ==> {
                &&& self.fields[i].name == schema.fields[i].name
                &&& self.fields[i].node.conforms_to(schema.fields[i])
            }
    }
}

impl FieldSpecView {
    /// The field with nothing known: an absent leaf, or the empty tree of the
    /// nested schema.
    pub open spec fn empty_field(self) -> FieldView
        decreases self,
    {
        FieldView {
            name: self.name,
            node: match self.kind {
                FieldKindView::Leaf { .. } => NodeView::Absent,
                FieldKindView::Nested { schema } => NodeView::Nested(schema.empty_tree()),
            },
        }
    }

    /// The field as its defaults give it: the default of a leaf where it has
    /// one, the default tree of a nested schema.
    pub open spec fn default_field(self) -> FieldView
        decreases self,
    {
        FieldView {
            name: self.name,
            node: match self.kind {
                FieldKindView::Leaf { default } => match default {
                    Some(v) => NodeView::Leaf(v),
                    None => NodeView::Absent,
                },
                FieldKindView::Nested { schema } => NodeView::Nested(schema.default_tree()),
            },
        }
    }
}

impl SchemaView {
    /// The partial value that knows nothing.
    pub open spec fn empty_tree(self) -> TreeView
        decreases self,
    {
        TreeView {
            fields: Seq::new(
                self.fields.len(),
                |i: int|
                    if 0 <= i < self.fields.len() {
                        self.fields[i].empty_field()
                    } else {
                        arbitrary()
                    },
            ),
        }
    }

    /// The partial value that holds every declared default.
    pub open spec fn default_tree(self) -> TreeView
        decreases self,
    {
        TreeView {
            fields: Seq::new(
                self.fields.len(),
                |i: int|
                    if 0 <= i < self.fields.len() {
                        self.fields[i].default_field()
                    } else {
                        arbitrary()
                    },
            ),
        }
    }
}

impl Clone for Slot {
    fn clone(&self) -> (r: Self)
        ensures
            r@ == self@,
        decreases self,
    {
        match self {
            Slot::Absent => Slot::Absent,
            Slot::Leaf(v) => Slot::Leaf(v.clone()),
            Slot::Nested(p) => Slot::Nested(p.clone()),
        }
    }
}

impl Clone for PartialField {
    fn clone(&self) -> (r: Self)
        ensures
            r@ == self@,
        decreases self,
    {
        PartialField { name: self.name.clone(), slot: self.slot.clone() }
    }
}

impl Clone for PartialValue {
    fn clone(&self) -> (r: Self)
        ensures
            r@ == self@,
        decreases self,
    {
        let mut fields: Vec<PartialField> = Vec::new();
        let mut i: usize = 0;
        while i < self.fields.len()
            invariant
                i <= self.fields@.len(),
                fields@.len() == i,
                forall|j: int| 0 <= j < i ==> fields@[j]@ == self.fields@[j]@,
            decreases self.fields@.len() - i,
        {
            fields.push(self.fields[i].clone());
            i = i + 1;
        }
        let r = PartialValue { fields };
        assert(r@.fields =~= self@.fields);
        r
    }
}

fn slot_conforms(slot: &Slot, spec: &FieldSpec) -> (r: bool)
    ensures
        r == slot@.conforms_to(spec@),
    decreases spec,
{
    match slot {
        Slot::Absent => match &spec.kind {
            FieldKind::Leaf { .. } => true,
            FieldKind::Nested { .. } => spec.optional,
        },
        Slot::Leaf(_) => match &spec.kind {
            FieldKind::Leaf { .. } => true,
            FieldKind::Nested { .. } => false,
        },
        Slot::Nested(p) => match &spec.kind {
            FieldKind::Leaf { .. } => false,
            FieldKind::Nested { schema } => p.conforms_to(schema),
        },
    }
}

impl PartialValue {
    /// Tests whether this value has the shape of `schema`.
    pub fn conforms_to(&self, schema: &Schema) -> (r: bool)
        ensures
            r == self@.conforms_to(schema@),
        decreases schema,
    {
        if self.fields.len() != schema.fields.len() {
            return false;
        }
        let mut i: usize = 0;
        while i < schema.fields.len()
            invariant
                self.fields@.len() == schema.fields@.len(),
                i <= schema.fields@.len(),
                forall|j: int|
                    0 <= j < i ==> {
                        &&& self.fields@[j]@.name == schema.fields@[j]@.name
                        &&& self.fields@[j]@.node.conforms_to(schema.fields@[j]@)
                    },
            decreases schema.fields@.len() - i,
        {
            let field = &self.fields[i];
            let spec = &schema.fields[i];
            if !(field.name == spec.name) {
                return false;
            }
            if !slot_conforms(&field.slot, spec) {
                assert(!self@.fields[i as int].node.conforms_to(schema@.fields[i as int]));
                return false;
            }
            i = i + 1;
        }
        true
    }
}

fn empty_slot(spec: &FieldSpec) -> (r: Slot)
    ensures
        r@ == spec@.empty_field().node,
    decreases spec,
{
    match &spec.kind {
        FieldKind::Leaf { .. } => Slot::Absent,
        FieldKind::Nested { schema } => Slot::Nested(empty_partial(schema)),
    }
}

/// The partial value of `schema` with nothing known: every leaf absent, every
/// nested field the empty partial value of its own schema.
pub fn empty_partial(schema: &Schema) -> (r: PartialValue)
    ensures
        r@ == schema@.empty_tree(),
    decreases schema,
{
    let mut fields: Vec<PartialField> = Vec::new();
    let mut i: usize = 0;
    while i < schema.fields.len()
        invariant
            i <= schema.fields@.len(),
            fields@.len() == i,
            forall|j: int| 0 <= j < i ==> fields@[j]@ == schema.fields@[j]@.empty_field(),
        decreases schema.fields@.len() - i,
    {
        let spec = &schema.fields[i];
        fields.push(PartialField { name: spec.name.clone(), slot: empty_slot(spec) });
        i = i + 1;
    }
    let r = PartialValue { fields };
    assert(r@.fields =~= schema@.empty_tree().fields);
    r
}

fn default_slot(spec: &FieldSpec) -> (r: Slot)
    ensures
        r@ == spec@.default_field().node,
    decreases spec,
{
    match &spec.kind {
        FieldKind::Leaf { default } => match default {
            Some(v) => Slot::Leaf(v.clone()),
            None => Slot::Absent,
        },
        FieldKind::Nested { schema } => Slot::Nested(default_partial(schema)),
    }
}

/// The partial value of `schema` that holds the defaults: every leaf with a
/// declared default has it, every other leaf is absent, and every nested
/// field holds the defaults of its own schema.
pub fn default_partial(schema: &Schema) -> (r: PartialValue)
    ensures
        r@ == schema@.default_tree(),
    decreases schema,
{
    let mut fields: Vec<PartialField> = Vec::new();
    let mut i: usize = 0;
    while i < schema.fields.len()
        invariant
            i <= schema.fields@.len(),
            fields@.len() == i,
            forall|j: int| 0 <= j < i ==> fields@[j]@ == schema.fields@[j]@.default_field(),
        decreases schema.fields@.len() - i,
    {
        let spec = &schema.fields[i];
        fields.push(PartialField { name: spec.name.clone(), slot: default_slot(spec) });
        i = i + 1;
    }
    let r = PartialValue { fields };
    assert(r@.fields =~= schema@.default_tree().fields);
    r
}

} // verus!
