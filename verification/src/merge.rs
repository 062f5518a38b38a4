//! The merge of partial values: the primary value keeps what it holds, the
//! fallback fills what the primary leaves open.

use vstd::prelude::*;
use crate::laws::lemma_mergeable_with_merge;
use crate::partial::{FieldView, NodeView, PartialField, PartialValue, Slot, TreeView};

verus! {

impl NodeView {
    /// The two nodes can stand at the same field: not a leaf against a nested
    /// configuration, and nested trees of the same shape.
    pub open spec fn mergeable(self, other: NodeView) -> bool
        decreases self,
    {
        match self {
            NodeView::Absent => true,
            NodeView::Leaf(_) => !(other is Nested),
            NodeView::Nested(a) => match other {
                NodeView::Absent => true,
                NodeView::Leaf(_) => false,
                NodeView::Nested(b) => a.mergeable(b),
            },
        }
    }

    /// This node where it holds something, else the fallback; two nested
    /// trees are merged field by field.
    pub open spec fn merged_with(self, fallback: NodeView) -> NodeView
        decreases self,
    {
        match self {
            NodeView::Absent => fallback,
            NodeView::Leaf(_) => self,
            NodeView::Nested(a) => match fallback {
                NodeView::Nested(b) => NodeView::Nested(a.merged_with(b)),
                _ => self,
            },
        }
    }
}

impl TreeView {
    /// The two trees have the same fields, name by name, with mergeable nodes:
    /// what holds of two partial values of one schema.
    pub open spec fn mergeable(self, other: TreeView) -> bool
        decreases self,
    {
        &&& self.fields.len() == other.fields.len()
        &&& forall|i: int|
            #![trigger self.fields[i]]
            #![trigger other.fields[i]]
            0 <= i < self.fields.len() ==> {
                &&& self.fields[i].name == other.fields[i].name
                &&& self.fields[i].node.mergeable(other.fields[i].node)
            }
    }

    /// The merge of this tree, which has priority, with `fallback`.
    pub open spec fn merged_with(self, fallback: TreeView) -> TreeView
        decreases self,
    {
        TreeView {
            fields: Seq::new(
                self.fields.len(),
                |i: int|
                    if 0 <= i < self.fields.len() {
                        FieldView {
                            name: self.fields[i].name,
                            node: self.fields[i].node.merged_with(fallback.fields[i].node),
                        }
                    } else {
                        arbitrary()
                    },
            ),
        }
    }
}

/// The views of a sequence of layers.
pub open spec fn layer_views(layers: Seq<PartialValue>) -> Seq<TreeView> {
    Seq::new(layers.len(), |i: int| layers[i]@)
}

/// Every two of the layers are mergeable.
pub open spec fn pairwise_mergeable(layers: Seq<TreeView>) -> bool {
    forall|i: int, j: int|
        0 <= i < j < layers.len() ==> (#[trigger] layers[i]).mergeable(#[trigger] layers[j])
}

/// The right fold of the merge over layers in priority order: the first
/// layer merged with the fold of the rest.
pub open spec fn folded(layers: Seq<TreeView>) -> TreeView
    decreases layers.len(),
{
    if layers.len() == 0 {
        TreeView { fields: Seq::empty() }
    } else if layers.len() == 1 {
        layers[0]
    } else {
        layers[0].merged_with(folded(layers.drop_first()))
    }
}

fn slot_mergeable(a: &Slot, b: &Slot) -> (r: bool)
    ensures
        r == a@.mergeable(b@),
    decreases a,
{
    match a {
        Slot::Absent => true,
        Slot::Leaf(_) => match b {
            Slot::Nested(_) => false,
            _ => true,
        },
        Slot::Nested(x) => match b {
            Slot::Absent => true,
            Slot::Leaf(_) => false,
            Slot::Nested(y) => mergeable(x, y),
        },
    }
}

/// Tests whether two partial values can be merged: whether they have the same
/// fields, as two partial values of one schema have.
pub fn mergeable(a: &PartialValue, b: &PartialValue) -> (r: bool)
    ensures
        r == a@.mergeable(b@),
    decreases a,
{
    if a.fields.len() != b.fields.len() {
        return false;
    }
    let mut i: usize = 0;
    while i < a.fields.len()
        invariant
            a.fields@.len() == b.fields@.len(),
            i <= a.fields@.len(),
            forall|j: int|
                0 <= j < i ==> {
                    &&& a.fields@[j]@.name == b.fields@[j]@.name
                    &&& a.fields@[j]@.node.mergeable(b.fields@[j]@.node)
                },
        decreases a.fields@.len() - i,
    {
        let x = &a.fields[i];
        let y = &b.fields[i];
        if !(x.name == y.name) {
            return false;
        }
        if !slot_mergeable(&x.slot, &y.slot) {
            assert(!a@.fields[i as int].node.mergeable(b@.fields[i as int].node));
            return false;
        }
        i = i + 1;
    }
    true
}

fn merge_slots(primary: &Slot, fallback: &Slot) -> (r: Slot)
    requires
        primary@.mergeable(fallback@),
    ensures
        r@ == primary@.merged_with(fallback@),
    decreases primary,
{
    match primary {
        Slot::Absent => fallback.clone(),
        Slot::Leaf(v) => Slot::Leaf(v.clone()),
        Slot::Nested(a) => match fallback {
            Slot::Nested(b) => Slot::Nested(merge_with_fallback(a, b)),
            _ => Slot::Nested(a.clone()),
        },
    }
}

/// Merges two partial values of one schema. A leaf of the result is the
/// primary's value where the primary has one, else the fallback's; nested
/// fields are merged by the same rule.
pub fn merge_with_fallback(primary: &PartialValue, fallback: &PartialValue) -> (r: PartialValue)
    requires
        primary@.mergeable(fallback@),
    ensures
        r@ == primary@.merged_with(fallback@),
    decreases primary,
{
    let mut fields: Vec<PartialField> = Vec::new();
    let mut i: usize = 0;
    while i < primary.fields.len()
        invariant
            primary@.mergeable(fallback@),
            i <= primary.fields@.len(),
            fields@.len() == i,
            forall|j: int|
                0 <= j < i ==> fields@[j]@ == primary@.merged_with(fallback@).fields[j],
        decreases primary.fields@.len() - i,
    {
        let p = &primary.fields[i];
        let f = &fallback.fields[i];
        assert(fallback@.fields[i as int] == f@);
        fields.push(PartialField { name: p.name.clone(), slot: merge_slots(&p.slot, &f.slot) });
        i = i + 1;
    }
    let r = PartialValue { fields };
    assert(r@.fields =~= primary@.merged_with(fallback@).fields);
    r
}

/// Folds layers, given from the highest priority to the lowest, into one
/// partial value: the first layer merged with the fold of the rest.
pub fn fold_layers(layers: &Vec<PartialValue>) -> (r: PartialValue)
    requires
        layers@.len() > 0,
        pairwise_mergeable(layer_views(layers@)),
    ensures
        r@ == folded(layer_views(layers@)),
{
    let ghost views = layer_views(layers@);
    let n: usize = layers.len();
    let mut i: usize = n - 1;
    let mut acc = layers[i].clone();
    assert(views[i as int] == acc@);
    assert(views.subrange(i as int, n as int) =~= seq![views[i as int]]);
    while i > 0
        invariant
            views == layer_views(layers@),
            pairwise_mergeable(views),
            n == layers@.len(),
            i < n,
            acc@ == folded(views.subrange(i as int, n as int)),
            forall|j: int| 0 <= j < i ==> (#[trigger] views[j]).mergeable(acc@),
        decreases i,
    {
        i = i - 1;
        let layer = &layers[i];
        assert(views[i as int] == layer@);
        let ghost rest = acc@;
        acc = merge_with_fallback(layer, &acc);
        proof {
            let tail = views.subrange(i as int, n as int);
            assert(tail.drop_first() =~= views.subrange(i as int + 1, n as int));
            assert forall|j: int| 0 <= j < i implies (#[trigger] views[j]).mergeable(acc@) by {
                lemma_mergeable_with_merge(views[j], views[i as int], rest);
            }
        }
    }
    assert(views.subrange(0, n as int) =~= views);
    acc
}

} // verus!
