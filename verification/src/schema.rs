//! The schema of a configuration type: its fields in declaration order, each
//! a leaf with an optional default or a nested configuration.

use vstd::prelude::*;
use crate::value::{Value, ValueView};

verus! {

/// What a field holds.
#[derive(Debug, PartialEq, Eq)]
pub enum FieldKind {
    /// A directly typed value; `default` is already decoded.
    Leaf { default: Option<Value> },
    /// A configuration of its own.
    Nested { schema: Schema },
}

/// One field of a configuration type.
#[derive(Debug, PartialEq, Eq)]
pub struct FieldSpec {
    pub name: String,
    pub kind: FieldKind,
    /// An optional field resolves to absent where no layer gives it a value.
    pub optional: bool,
}

/// The fields of one configuration type, in declaration order.
#[derive(Debug, PartialEq, Eq)]
pub struct Schema {
    pub name: String,
    pub fields: Vec<FieldSpec>,
}

/// The mathematical content of a [`FieldKind`].
pub enum FieldKindView {
    Leaf { default: Option<ValueView> },
    Nested { schema: SchemaView },
}

/// The mathematical content of a [`FieldSpec`].
pub struct FieldSpecView {
    pub name: Seq<char>,
    pub kind: FieldKindView,
    pub optional: bool,
}

/// The mathematical content of a [`Schema`].
pub struct SchemaView {
    pub name: Seq<char>,
    pub fields: Seq<FieldSpecView>,
}

/// The view of an optional value.
pub open spec fn option_view(v: Option<Value>) -> Option<ValueView> {
    match v {
        Some(x) => Some(x@),
        None => None,
    }
}

impl View for FieldKind {
    type V = FieldKindView;

    open spec fn view(&self) -> FieldKindView
        decreases self,
    {
        match self {
            FieldKind::Leaf { default } => FieldKindView::Leaf { default: option_view(*default) },
            FieldKind::Nested { schema } => FieldKindView::Nested { schema: schema.view() },
        }
    }
}

impl View for FieldSpec {
    type V = FieldSpecView;

    open spec fn view(&self) -> FieldSpecView
        decreases self,
    {
        FieldSpecView { name: self.name@, kind: self.kind.view(), optional: self.optional }
    }
}

impl View for Schema {
    type V = SchemaView;

    open spec fn view(&self) -> SchemaView
        decreases self,
    {
        SchemaView {
            name: self.name@,
            fields: Seq::new(
                self.fields@.len(),
                |i: int|
                    if 0 <= i < self.fields@.len() {
                        self.fields@[i].view()
                    } else {
                        arbitrary()
                    },
            ),
        }
    }
}

impl FieldSpecView {
    /// A leaf, as opposed to a nested configuration.
    pub open spec fn is_leaf(self) -> bool {
        self.kind is Leaf
    }

    /// Names are unique among the fields of each nested schema.
    pub open spec fn well_formed(self) -> bool
        decreases self,
    {
        match self.kind {
            FieldKindView::Leaf { .. } => true,
            FieldKindView::Nested { schema } => schema.well_formed(),
        }
    }

    /// Every leaf at or below this field is optional or has a default.
    pub open spec fn defaults_complete(self) -> bool
        decreases self,
    {
        match self.kind {
            FieldKindView::Leaf { default } => self.optional || default is Some,
            FieldKindView::Nested { schema } => schema.defaults_complete(),
        }
    }
}

impl SchemaView {
    /// A field of the schema is called `name`.
    pub open spec fn has_field(self, name: Seq<char>) -> bool {
        exists|i: int| 0 <= i < self.fields.len() && #[trigger] self.fields[i].name == name
    }

    /// No two fields share a name, here and in every nested schema.
    pub open spec fn well_formed(self) -> bool
        decreases self,
    {
        &&& forall|i: int, j: int|
            0 <= i < j < self.fields.len() ==> self.fields[i].name != self.fields[j].name
        &&& forall|i: int|
            0 <= i < self.fields.len() ==> (#[trigger] self.fields[i]).well_formed()
    }

    /// Every leaf reachable in the schema tree is optional or has a default.
    pub open spec fn defaults_complete(self) -> bool
        decreases self,
    {
        forall|i: int|
            0 <= i < self.fields.len() ==> (#[trigger] self.fields[i]).defaults_complete()
    }
}

fn clone_option(v: &Option<Value>) -> (r: Option<Value>)
    ensures
        option_view(r) == option_view(*v),
{
    match v {
        Some(x) => Some(x.clone()),
        None => None,
    }
}

impl Clone for FieldKind {
    fn clone(&self) -> (r: Self)
        ensures
            r@ == self@,
        decreases self,
    {
        match self {
            FieldKind::Leaf { default } => FieldKind::Leaf { default: clone_option(default) },
            FieldKind::Nested { schema } => FieldKind::Nested { schema: schema.clone() },
        }
    }
}

impl Clone for FieldSpec {
    fn clone(&self) -> (r: Self)
        ensures
            r@ == self@,
        decreases self,
    {
        FieldSpec { name: self.name.clone(), kind: self.kind.clone(), optional: self.optional }
    }
}

impl Clone for Schema {
    fn clone(&self) -> (r: Self)
        ensures
            r@ == self@,
        decreases self,
    {
        let mut fields: Vec<FieldSpec> = Vec::new();
        let mut i: usize = 0;
        while i < self.fields.len()
            invariant
                i <= self.fields@.len(),
                fields@.len() == i,
                forall|j: int| 0 <= j < i ==> fields@[j]@ == self.fields@[j]@,
            decreases self.fields@.len() - i,
        {
            fields.push(self.fields[i].clone());
            i = i + 1;
        }
        let r = Schema { name: self.name.clone(), fields };
        assert(r@.fields =~= self@.fields);
        r
    }
}

impl FieldSpec {
    /// A leaf field.
    pub fn leaf(name: &str, default: Option<Value>, optional: bool) -> (r: FieldSpec)
        ensures
            r@ == (FieldSpecView {
                name: name@,
                kind: FieldKindView::Leaf { default: option_view(default) },
                optional,
            }),
    {
        FieldSpec { name: name.to_owned(), kind: FieldKind::Leaf { default }, optional }
    }

    /// A nested field.
    pub fn nested(name: &str, schema: Schema, optional: bool) -> (r: FieldSpec)
        ensures
            r@ == (FieldSpecView {
                name: name@,
                kind: FieldKindView::Nested { schema: schema@ },
                optional,
            }),
    {
        FieldSpec { name: name.to_owned(), kind: FieldKind::Nested { schema }, optional }
    }
}

impl Schema {
    /// A schema without fields.
    pub fn new(name: &str) -> (s: Schema)
        ensures
            s@.name == name@,
            s@.fields == Seq::<FieldSpecView>::empty(),
    {
        let s = Schema { name: name.to_owned(), fields: Vec::new() };
        s
    }

    /// Adds a field after those that the schema has, unless one of them has
    /// its name already. Says whether the field was added.
    pub fn push(&mut self, field: FieldSpec) -> (added: bool)
        ensures
            added == !old(self)@.has_field(field@.name),
            added ==> final(self)@ == (SchemaView {
                name: old(self)@.name,
                fields: old(self)@.fields.push(field@),
            }),
            !added ==> final(self)@ == old(self)@,
            added && old(self)@.well_formed() && field@.well_formed()
                ==> final(self)@.well_formed(),
    {
        let mut i: usize = 0;
        while i < self.fields.len()
            invariant
                i <= self.fields@.len(),
                forall|j: int| 0 <= j < i ==> self@.fields[j].name != field@.name,
            decreases self.fields@.len() - i,
        {
            if self.fields[i].name == field.name {
                assert(self@.fields[i as int].name == field@.name);
                return false;
            }
            i = i + 1;
        }
        self.fields.push(field);
        assert(self@.fields =~= old(self)@.fields.push(field@));
        true
    }

    /// Tests whether no two fields share a name, here and in every nested
    /// schema.
    pub fn is_well_formed(&self) -> (r: bool)
        ensures
            r == self@.well_formed(),
        decreases self,
    {
        let mut i: usize = 0;
        while i < self.fields.len()
            invariant
                i <= self.fields@.len(),
                forall|a: int, b: int|
                    0 <= a < b < i ==> self.fields@[a]@.name != self.fields@[b]@.name,
                forall|a: int| 0 <= a < i ==> (#[trigger] self.fields@[a])@.well_formed(),
            decreases self.fields@.len() - i,
        {
            let field = &self.fields[i];
            let mut j: usize = 0;
            while j < i
                invariant
                    j <= i,
                    i < self.fields@.len(),
                    field.name@ == self.fields@[i as int]@.name,
                    forall|a: int|
                        0 <= a < j ==> self.fields@[a]@.name != self.fields@[i as int]@.name,
                decreases i - j,
            {
                if self.fields[j].name == field.name {
                    assert(self@.fields[j as int].name == self@.fields[i as int].name);
                    return false;
                }
                j = j + 1;
            }
            match &field.kind {
                FieldKind::Leaf { .. } => {},
                FieldKind::Nested { schema } => {
                    if !schema.is_well_formed() {
                        assert(!self@.fields[i as int].well_formed());
                        return false;
                    }
                },
            }
            i = i + 1;
        }
        assert forall|a: int| 0 <= a < self@.fields.len() implies (#[trigger] self@.fields[a]).well_formed() by {
            assert(self.fields@[a]@.well_formed());
        }
        true
    }
}

} // verus!
