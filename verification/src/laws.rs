//! What holds of the builder, the merge and the finalizer together.

use vstd::prelude::*;
use crate::finalize::first_missing_from;
use crate::merge::{folded, pairwise_mergeable};
use crate::partial::{FieldView, NodeView, TreeView};
use crate::schema::{FieldKindView, FieldSpecView, SchemaView};
use crate::value::ValueView;

verus! {

impl TreeView {
    /// The leaf value found by walking `path`, a list of field positions,
    /// from the root; `None` where the walk leaves the tree, meets an absent
    /// field, or does not end at a leaf.
    pub open spec fn leaf_at(self, path: Seq<int>) -> Option<ValueView>
        decreases path.len(),
    {
        if path.len() == 0 || !(0 <= path[0] < self.fields.len()) {
            None
        } else {
            match self.fields[path[0]].node {
                NodeView::Absent => None,
                NodeView::Leaf(v) => if path.len() == 1 {
                    Some(v)
                } else {
                    None
                },
                NodeView::Nested(tree) => tree.leaf_at(path.drop_first()),
            }
        }
    }
}

impl NodeView {
    /// Every nested field at or below this node holds a nested value: none
    /// is absent as a whole.
    pub open spec fn nested_present(self, spec: FieldSpecView) -> bool
        decreases spec,
    {
        match spec.kind {
            FieldKindView::Leaf { .. } => true,
            FieldKindView::Nested { schema } => match self {
                NodeView::Nested(tree) => tree.nested_present(schema),
                _ => false,
            },
        }
    }
}

impl TreeView {
    /// Every nested field of the schema, at every depth, holds a nested
    /// value in this tree.
    pub open spec fn nested_present(self, schema: SchemaView) -> bool
        decreases schema,
    {
        forall|i: int|
            #![trigger self.fields[i]]
            #![trigger schema.fields[i]]
            0 <= i < schema.fields.len() ==> self.fields[i].node.nested_present(schema.fields[i])
    }
}

impl FieldSpecView {
    /// Every leaf at or below this field is optional.
    pub open spec fn leaves_optional(self) -> bool
        decreases self,
    {
        match self.kind {
            FieldKindView::Leaf { .. } => self.optional,
            FieldKindView::Nested { schema } => schema.leaves_optional(),
        }
    }
}

impl SchemaView {
    /// Every leaf reachable in the schema tree is optional.
    pub open spec fn leaves_optional(self) -> bool
        decreases self,
    {
        forall|i: int|
            0 <= i < self.fields.len() ==> (#[trigger] self.fields[i]).leaves_optional()
    }
}

/// Nothing is missing from position `from` on exactly when nothing is missing
/// at any single field from there on.
pub proof fn lemma_first_missing_none(
    fields: Seq<FieldView>,
    specs: Seq<FieldSpecView>,
    from: int,
)
    requires
        0 <= from,
    ensures
        first_missing_from(fields, specs, from) is None <==> forall|i: int|
            from <= i < specs.len() ==> (#[trigger] fields[i]).node.first_missing(specs[i]) is None,
    decreases specs.len() - from,
{
    if from < specs.len() {
        lemma_first_missing_none(fields, specs, from + 1);
        if first_missing_from(fields, specs, from) is None {
            assert forall|i: int| from <= i < specs.len() implies (#[trigger] fields[i]).node.first_missing(
                specs[i],
            ) is None by {}
        }
    }
}

/// The empty partial value of a schema has the shape of the schema.
pub proof fn lemma_empty_conforms(schema: SchemaView)
    ensures
        schema.empty_tree().conforms_to(schema),
    decreases schema,
{
    let tree = schema.empty_tree();
    assert forall|i: int| 0 <= i < schema.fields.len() implies {
        &&& tree.fields[i].name == schema.fields[i].name
        &&& (#[trigger] tree.fields[i]).node.conforms_to(schema.fields[i])
    } by {
        match schema.fields[i].kind {
            FieldKindView::Leaf { .. } => {},
            FieldKindView::Nested { schema: inner } => {
                lemma_empty_conforms(inner);
            },
        }
    }
}

/// The defaults of a schema have the shape of the schema.
pub proof fn lemma_default_conforms(schema: SchemaView)
    ensures
        schema.default_tree().conforms_to(schema),
    decreases schema,
{
    let tree = schema.default_tree();
    assert forall|i: int| 0 <= i < schema.fields.len() implies {
        &&& tree.fields[i].name == schema.fields[i].name
        &&& (#[trigger] tree.fields[i]).node.conforms_to(schema.fields[i])
    } by {
        match schema.fields[i].kind {
            FieldKindView::Leaf { .. } => {},
            FieldKindView::Nested { schema: inner } => {
                lemma_default_conforms(inner);
            },
        }
    }
}

/// Two partial values of one schema can be merged.
pub proof fn lemma_conforming_mergeable(a: TreeView, b: TreeView, schema: SchemaView)
    requires
        a.conforms_to(schema),
        b.conforms_to(schema),
    ensures
        a.mergeable(b),
    decreases a,
{
    assert forall|i: int| 0 <= i < a.fields.len() implies {
        &&& a.fields[i].name == b.fields[i].name
        &&& (#[trigger] a.fields[i]).node.mergeable(b.fields[i].node)
    } by {
        let spec = schema.fields[i];
        match (a.fields[i].node, b.fields[i].node) {
            (NodeView::Nested(x), NodeView::Nested(y)) => {
                lemma_conforming_mergeable(x, y, spec.kind->schema);
            },
            _ => {},
        }
    }
}

/// The merge of two partial values of one schema is a partial value of that
/// schema.
pub proof fn lemma_merge_conforms(a: TreeView, b: TreeView, schema: SchemaView)
    requires
        a.conforms_to(schema),
        b.conforms_to(schema),
    ensures
        a.merged_with(b).conforms_to(schema),
    decreases a,
{
    let m = a.merged_with(b);
    assert forall|i: int| 0 <= i < schema.fields.len() implies {
        &&& m.fields[i].name == schema.fields[i].name
        &&& (#[trigger] m.fields[i]).node.conforms_to(schema.fields[i])
    } by {
        let spec = schema.fields[i];
        match (a.fields[i].node, b.fields[i].node) {
            (NodeView::Nested(x), NodeView::Nested(y)) => {
                lemma_merge_conforms(x, y, spec.kind->schema);
            },
            _ => {},
        }
    }
}

/// A value that can be merged with each of two others can be merged with
/// their merge.
pub proof fn lemma_mergeable_with_merge(a: TreeView, b: TreeView, c: TreeView)
    requires
        a.mergeable(b),
        a.mergeable(c),
        b.mergeable(c),
    ensures
        a.mergeable(b.merged_with(c)),
    decreases a,
{
    let m = b.merged_with(c);
    assert forall|i: int| 0 <= i < a.fields.len() implies {
        &&& a.fields[i].name == m.fields[i].name
        &&& (#[trigger] a.fields[i]).node.mergeable(m.fields[i].node)
    } by {
        match (a.fields[i].node, b.fields[i].node, c.fields[i].node) {
            (NodeView::Nested(x), NodeView::Nested(y), NodeView::Nested(z)) => {
                lemma_mergeable_with_merge(x, y, z);
            },
            _ => {},
        }
    }
}

/// The merge of two values can be merged with whatever both can be merged
/// with.
pub proof fn lemma_merge_mergeable_with(a: TreeView, b: TreeView, c: TreeView)
    requires
        a.mergeable(b),
        a.mergeable(c),
        b.mergeable(c),
    ensures
        a.merged_with(b).mergeable(c),
    decreases a,
{
    let m = a.merged_with(b);
    assert forall|i: int| 0 <= i < m.fields.len() implies {
        &&& m.fields[i].name == c.fields[i].name
        &&& (#[trigger] m.fields[i]).node.mergeable(c.fields[i].node)
    } by {
        match (a.fields[i].node, b.fields[i].node, c.fields[i].node) {
            (NodeView::Nested(x), NodeView::Nested(y), NodeView::Nested(z)) => {
                lemma_merge_mergeable_with(x, y, z);
            },
            _ => {},
        }
    }
}

/// Grouping does not matter: for three values of one shape, in one priority
/// order, both groupings can be merged, and merging the first two and then
/// the third gives what merging the first with the merge of the other two
/// gives.
pub proof fn lemma_merge_associative(a: TreeView, b: TreeView, c: TreeView)
    requires
        a.mergeable(b),
        a.mergeable(c),
        b.mergeable(c),
    ensures
        a.merged_with(b).mergeable(c),
        a.mergeable(b.merged_with(c)),
        a.merged_with(b).merged_with(c) == a.merged_with(b.merged_with(c)),
    decreases a,
{
    lemma_merge_mergeable_with(a, b, c);
    lemma_mergeable_with_merge(a, b, c);
    let left = a.merged_with(b).merged_with(c);
    let right = a.merged_with(b.merged_with(c));
    assert forall|i: int| 0 <= i < a.fields.len() implies left.fields[i] == right.fields[i] by {
        match (a.fields[i].node, b.fields[i].node, c.fields[i].node) {
            (NodeView::Nested(x), NodeView::Nested(y), NodeView::Nested(z)) => {
                lemma_merge_associative(x, y, z);
            },
            _ => {},
        }
    }
    assert(left.fields =~= right.fields);
}

/// Folding three layers is independent of the grouping of the merges.
pub proof fn lemma_fold_three(a: TreeView, b: TreeView, c: TreeView)
    requires
        pairwise_mergeable(seq![a, b, c]),
    ensures
        folded(seq![a, b, c]) == a.merged_with(b.merged_with(c)),
        folded(seq![a, b, c]) == a.merged_with(b).merged_with(c),
{
    lemma_merge_associative(a, b, c);
    reveal_with_fuel(folded, 3);
}

/// A leaf that the primary value holds is the leaf of the merge; a leaf that
/// only the fallback holds is taken from the fallback.
pub proof fn lemma_merge_leaf_priority(primary: TreeView, fallback: TreeView, path: Seq<int>)
    requires
        primary.mergeable(fallback),
    ensures
        primary.merged_with(fallback).leaf_at(path) == match primary.leaf_at(path) {
            Some(v) => Some(v),
            None => fallback.leaf_at(path),
        },
    decreases path.len(),
{
    if path.len() > 0 && 0 <= path[0] < primary.fields.len() {
        let i = path[0];
        match (primary.fields[i].node, fallback.fields[i].node) {
            (NodeView::Nested(x), NodeView::Nested(y)) => {
                lemma_merge_leaf_priority(x, y, path.drop_first());
            },
            _ => {},
        }
    }
}

/// The empty partial value adds nothing to the defaults.
pub proof fn lemma_empty_then_defaults(schema: SchemaView)
    ensures
        schema.empty_tree().merged_with(schema.default_tree()) == schema.default_tree(),
    decreases schema,
{
    let merged = schema.empty_tree().merged_with(schema.default_tree());
    assert forall|i: int| 0 <= i < schema.fields.len() implies merged.fields[i]
        == schema.default_tree().fields[i] by {
        match schema.fields[i].kind {
            FieldKindView::Leaf { .. } => {},
            FieldKindView::Nested { schema: inner } => {
                lemma_empty_then_defaults(inner);
            },
        }
    }
    assert(merged.fields =~= schema.default_tree().fields);
}

/// In the defaults of a schema no nested field is absent as a whole.
pub proof fn lemma_default_nested_present(schema: SchemaView)
    ensures
        schema.default_tree().nested_present(schema),
    decreases schema,
{
    let tree = schema.default_tree();
    assert forall|i: int| 0 <= i < schema.fields.len() implies (#[trigger] tree.fields[i]).node.nested_present(
        schema.fields[i],
    ) by {
        match schema.fields[i].kind {
            FieldKindView::Leaf { .. } => {},
            FieldKindView::Nested { schema: inner } => {
                lemma_default_nested_present(inner);
            },
        }
    }
}

/// The empty partial value holds no leaf.
pub proof fn lemma_empty_has_no_leaf(schema: SchemaView, path: Seq<int>)
    ensures
        schema.empty_tree().leaf_at(path) is None,
    decreases path.len(),
{
    if path.len() > 0 && 0 <= path[0] < schema.fields.len() {
        match schema.fields[path[0]].kind {
            FieldKindView::Leaf { .. } => {},
            FieldKindView::Nested { schema: inner } => {
                lemma_empty_has_no_leaf(inner, path.drop_first());
            },
        }
    }
}

/// Merged over any partial value of its schema, the empty partial value
/// leaves every leaf as that value has it.
pub proof fn lemma_empty_then_any_leaf(schema: SchemaView, tree: TreeView, path: Seq<int>)
    requires
        tree.conforms_to(schema),
    ensures
        schema.empty_tree().mergeable(tree),
        schema.empty_tree().merged_with(tree).leaf_at(path) == tree.leaf_at(path),
{
    lemma_empty_conforms(schema);
    lemma_conforming_mergeable(schema.empty_tree(), tree, schema);
    lemma_merge_leaf_priority(schema.empty_tree(), tree, path);
    lemma_empty_has_no_leaf(schema, path);
}

/// Merged over a partial value of its schema in which no nested field is
/// absent as a whole, the empty partial value gives that value, which so
/// finalizes as it does alone.
pub proof fn lemma_empty_then_any(schema: SchemaView, tree: TreeView)
    requires
        tree.conforms_to(schema),
        tree.nested_present(schema),
    ensures
        schema.empty_tree().merged_with(tree) == tree,
        schema.empty_tree().merged_with(tree).first_missing(schema) == tree.first_missing(schema),
    decreases schema,
{
    let merged = schema.empty_tree().merged_with(tree);
    assert forall|i: int| 0 <= i < schema.fields.len() implies merged.fields[i]
        == tree.fields[i] by {
        assert(tree.fields[i].node.conforms_to(schema.fields[i]));
        assert(tree.fields[i].node.nested_present(schema.fields[i]));
        match (schema.fields[i].kind, tree.fields[i].node) {
            (FieldKindView::Nested { schema: inner }, NodeView::Nested(sub)) => {
                lemma_empty_then_any(inner, sub);
            },
            _ => {},
        }
    }
    assert(merged.fields =~= tree.fields);
}

/// A higher layer does not undo what resolves below it: where the fallback
/// resolves and none of its nested fields is absent as a whole, the merge of
/// any primary value of the schema with it resolves.
pub proof fn lemma_merge_keeps_resolved(primary: TreeView, fallback: TreeView, schema: SchemaView)
    requires
        primary.conforms_to(schema),
        fallback.conforms_to(schema),
        fallback.nested_present(schema),
        fallback.first_missing(schema) is None,
    ensures
        primary.merged_with(fallback).first_missing(schema) is None,
    decreases schema,
{
    let merged = primary.merged_with(fallback);
    lemma_first_missing_none(fallback.fields, schema.fields, 0);
    lemma_first_missing_none(merged.fields, schema.fields, 0);
    assert forall|i: int| 0 <= i < schema.fields.len() implies (#[trigger] merged.fields[i]).node.first_missing(
        schema.fields[i],
    ) is None by {
        let spec = schema.fields[i];
        assert(primary.fields[i].node.conforms_to(spec));
        assert(fallback.fields[i].node.conforms_to(spec));
        assert(fallback.fields[i].node.nested_present(spec));
        assert(fallback.fields[i].node.first_missing(spec) is None);
        match (spec.kind, primary.fields[i].node, fallback.fields[i].node) {
            (
                FieldKindView::Nested { schema: inner },
                NodeView::Nested(above),
                NodeView::Nested(below),
            ) => {
                lemma_merge_keeps_resolved(above, below, inner);
            },
            _ => {},
        }
    }
}

/// Merging the empty partial value over the defaults finalizes as the
/// defaults alone do.
pub proof fn lemma_empty_then_defaults_finalize(schema: SchemaView)
    ensures
        schema.empty_tree().merged_with(schema.default_tree()).first_missing(schema)
            == schema.default_tree().first_missing(schema),
{
    lemma_empty_then_defaults(schema);
}

/// The defaults alone resolve exactly when every leaf reachable in the
/// schema tree is optional or has a default.
pub proof fn lemma_defaults_resolve(schema: SchemaView)
    ensures
        schema.default_tree().first_missing(schema) is None <==> schema.defaults_complete(),
    decreases schema,
{
    let tree = schema.default_tree();
    lemma_first_missing_none(tree.fields, schema.fields, 0);
    assert forall|i: int| 0 <= i < schema.fields.len() implies ((#[trigger] tree.fields[i]).node.first_missing(
        schema.fields[i],
    ) is None <==> schema.fields[i].defaults_complete()) by {
        match schema.fields[i].kind {
            FieldKindView::Leaf { .. } => {},
            FieldKindView::Nested { schema: inner } => {
                lemma_defaults_resolve(inner);
            },
        }
    }
    if tree.first_missing(schema) is None {
        assert forall|i: int| 0 <= i < schema.fields.len() implies (#[trigger] schema.fields[i]).defaults_complete() by {
            assert(tree.fields[i].node.first_missing(schema.fields[i]) is None);
        }
    }
}

/// An optional leaf resolves whatever the layers hold for it.
pub proof fn lemma_optional_leaf_resolves(node: NodeView, spec: FieldSpecView)
    requires
        spec.is_leaf(),
        spec.optional,
    ensures
        node.first_missing(spec) is None,
{
}

/// Where every leaf of the schema is optional, every partial value of the
/// schema resolves.
pub proof fn lemma_optional_leaves_never_fail(tree: TreeView, schema: SchemaView)
    requires
        tree.conforms_to(schema),
        schema.leaves_optional(),
    ensures
        tree.first_missing(schema) is None,
    decreases schema,
{
    lemma_first_missing_none(tree.fields, schema.fields, 0);
    assert forall|i: int| 0 <= i < schema.fields.len() implies (#[trigger] tree.fields[i]).node.first_missing(
        schema.fields[i],
    ) is None by {
        let spec = schema.fields[i];
        match (tree.fields[i].node, spec.kind) {
            (NodeView::Nested(inner), FieldKindView::Nested { schema: sub }) => {
                lemma_optional_leaves_never_fail(inner, sub);
            },
            _ => {},
        }
    }
}

} // verus!
