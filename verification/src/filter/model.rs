//! Mathematical model of the filter tree.
use vstd::prelude::*;
use crate::filter::op::{FilterCmpOp, FilterLogicOp};

verus! {

/// What a filter tree is: its leaf conditions in order, at most one subtree per
/// logical operator and at most one subtree per child name.
#[verifier::ext_equal]
pub ghost struct FilterModel {
    pub groups: Map<FilterLogicOp, FilterModel>,
    pub conditions: Seq<ConditionModel>,
    pub children: Map<Seq<char>, FilterModel>,
}

/// One leaf test: the field `key` satisfies `op` against `value`.
#[verifier::ext_equal]
pub ghost struct ConditionModel {
    pub key: Seq<char>,
    pub op: FilterCmpOp,
    pub value: ValueModel,
}

/// A value of a leaf condition. The variant alone decides how a backend
/// encodes it; floats are carried as their IEEE 754 bit patterns.
#[verifier::ext_equal]
pub ghost enum ValueModel {
    Id(Option<Seq<char>>),
    String(Seq<char>),
    Int(i32),
    BigInt(i64),
    Float(u32),
    Double(u64),
    Bool(bool),
    Object(FilterModel),
    Vec(Seq<ValueModel>),
}

impl FilterModel {
    /// The filter without conditions, groups or children.
    pub open spec fn empty() -> FilterModel {
        FilterModel { groups: Map::empty(), conditions: Seq::empty(), children: Map::empty() }
    }

    /// The filter that holds the one condition `c` and nothing else.
    pub open spec fn single(c: ConditionModel) -> FilterModel {
        FilterModel { groups: Map::empty(), conditions: seq![c], children: Map::empty() }
    }

    /// `self` with `c` appended to its conditions.
    pub open spec fn add_condition(self, c: ConditionModel) -> FilterModel {
        FilterModel { conditions: self.conditions.push(c), ..self }
    }

    /// The union of two filters: the conditions of `other` follow those of
    /// `self`; a group or child that only one side has is taken as it is, and
    /// one that both have is the union of the two subtrees.
    pub open spec fn merge(self, other: FilterModel) -> FilterModel
        decreases self,
    {
        FilterModel {
            groups: Map::new(
                |op: FilterLogicOp| self.groups.contains_key(op) || other.groups.contains_key(op),
                |op: FilterLogicOp|
                    if self.groups.contains_key(op) && other.groups.contains_key(op) {
                        self.groups[op].merge(other.groups[op])
                    } else if self.groups.contains_key(op) {
                        self.groups[op]
                    } else {
                        other.groups[op]
                    },
            ),
            conditions: self.conditions + other.conditions,
            children: Map::new(
                |name: Seq<char>|
                    self.children.contains_key(name) || other.children.contains_key(name),
                |name: Seq<char>|
                    if self.children.contains_key(name) && other.children.contains_key(name) {
                        self.children[name].merge(other.children[name])
                    } else if self.children.contains_key(name) {
                        self.children[name]
                    } else {
                        other.children[name]
                    },
            ),
        }
    }

    /// `self` with `f` filed under the logical operator `op`: merged into the
    /// group that is there, or set as the group where there is none.
    pub open spec fn add_op_filter(self, op: FilterLogicOp, f: FilterModel) -> FilterModel {
        FilterModel {
            groups: self.groups.insert(
                op,
                if self.groups.contains_key(op) {
                    self.groups[op].merge(f)
                } else {
                    f
                },
            ),
            ..self
        }
    }

    /// `self` with the one condition `c` filed under the logical operator `op`.
    pub open spec fn add_op_condition(self, op: FilterLogicOp, c: ConditionModel) -> FilterModel {
        self.add_op_filter(op, FilterModel::single(c))
    }

    /// `self` with `f` filed under the child `name`: merged into the child
    /// that is there, or set as the child where there is none.
    pub open spec fn add_child(self, name: Seq<char>, f: FilterModel) -> FilterModel {
        FilterModel {
            children: self.children.insert(
                name,
                if self.children.contains_key(name) {
                    self.children[name].merge(f)
                } else {
                    f
                },
            ),
            ..self
        }
    }
}

/// Filing `f` under an operator that `p` does not hold commutes with merging
/// `p` into `a`.
pub proof fn lemma_merge_then_add_op_filter(
    a: FilterModel,
    p: FilterModel,
    op: FilterLogicOp,
    f: FilterModel,
)
    requires
        !p.groups.contains_key(op),
    ensures
        a.merge(p).add_op_filter(op, f) == a.merge(
            FilterModel { groups: p.groups.insert(op, f), ..p },
        ),
{
    let l = a.merge(p).add_op_filter(op, f);
    let r = a.merge(FilterModel { groups: p.groups.insert(op, f), ..p });
    assert(l.groups =~= r.groups);
    assert(l.children =~= r.children);
}

/// Appending a condition commutes with merging `p` into `a`.
pub proof fn lemma_merge_then_add_condition(a: FilterModel, p: FilterModel, c: ConditionModel)
    ensures
        a.merge(p).add_condition(c) == a.merge(p.add_condition(c)),
{
    let l = a.merge(p).add_condition(c);
    let r = a.merge(p.add_condition(c));
    assert(l.conditions =~= r.conditions);
    assert(l.groups =~= r.groups);
    assert(l.children =~= r.children);
}

/// Filing `f` under a child name that `p` does not hold commutes with merging
/// `p` into `a`.
pub proof fn lemma_merge_then_add_child(
    a: FilterModel,
    p: FilterModel,
    name: Seq<char>,
    f: FilterModel,
)
    requires
        !p.children.contains_key(name),
    ensures
        a.merge(p).add_child(name, f) == a.merge(
            FilterModel { children: p.children.insert(name, f), ..p },
        ),
{
    let l = a.merge(p).add_child(name, f);
    let r = a.merge(FilterModel { children: p.children.insert(name, f), ..p });
    assert(l.groups =~= r.groups);
    assert(l.children =~= r.children);
}

/// Merging the empty filter into `a` leaves `a` as it is, and merging `a` into
/// the empty filter gives `a`.
pub proof fn lemma_merge_identity(a: FilterModel)
    ensures
        a.merge(FilterModel::empty()) == a,
        FilterModel::empty().merge(a) == a,
{
    let r = a.merge(FilterModel::empty());
    assert(r.groups =~= a.groups);
    assert(r.conditions =~= a.conditions);
    assert(r.children =~= a.children);
    let l = FilterModel::empty().merge(a);
    assert(l.groups =~= a.groups);
    assert(l.conditions =~= a.conditions);
    assert(l.children =~= a.children);
}

/// Merging is associative: merging `b` and then `c` into `a` gives what
/// merging into `a` the union of `b` and `c` gives. The conditions keep their
/// order, and groups and children of one key are merged in the same way. This
/// holds whether or not keys of `a`, `b` and `c` collide.
pub proof fn lemma_merge_associative(a: FilterModel, b: FilterModel, c: FilterModel)
    ensures
        a.merge(b).merge(c) == a.merge(b.merge(c)),
    decreases a,
{
    let l = a.merge(b).merge(c);
    let r = a.merge(b.merge(c));
    assert forall|op: FilterLogicOp| l.groups.contains_key(op) implies l.groups[op]
        == r.groups[op] by {
        if a.groups.contains_key(op) && b.groups.contains_key(op) && c.groups.contains_key(op) {
            lemma_merge_associative(a.groups[op], b.groups[op], c.groups[op]);
        }
    }
    assert forall|name: Seq<char>| l.children.contains_key(name) implies l.children[name]
        == r.children[name] by {
        if a.children.contains_key(name) && b.children.contains_key(name)
            && c.children.contains_key(name) {
            lemma_merge_associative(a.children[name], b.children[name], c.children[name]);
        }
    }
    assert(l.groups =~= r.groups);
    assert(l.children =~= r.children);
    assert(l.conditions =~= r.conditions);
}

/// Two subtrees filed under the same logical operator end in one group that
/// is the union of both: neither replaces the other. After them the group
/// holds what it held before, then the conditions of `f`, then those of `g`.
pub proof fn lemma_add_op_filter_twice(
    a: FilterModel,
    op: FilterLogicOp,
    f: FilterModel,
    g: FilterModel,
)
    ensures
        a.add_op_filter(op, f).add_op_filter(op, g) == a.add_op_filter(op, f.merge(g)),
        a.add_op_filter(op, f).add_op_filter(op, g).groups.dom() == a.groups.dom().insert(op),
        a.add_op_filter(op, f).add_op_filter(op, g).groups[op].conditions == (if a.groups.contains_key(
            op,
        ) {
            a.groups[op].conditions
        } else {
            Seq::empty()
        }) + f.conditions + g.conditions,
{
    let l = a.add_op_filter(op, f).add_op_filter(op, g);
    let r = a.add_op_filter(op, f.merge(g));
    if a.groups.contains_key(op) {
        lemma_merge_associative(a.groups[op], f, g);
    }
    assert(l.groups =~= r.groups);
    assert(l.groups.dom() =~= a.groups.dom().insert(op));
    assert(Seq::<ConditionModel>::empty() + f.conditions + g.conditions =~= f.conditions
        + g.conditions);
    if a.groups.contains_key(op) {
        assert((a.groups[op].conditions + f.conditions) + g.conditions
            =~= a.groups[op].conditions + (f.conditions + g.conditions));
    }
}

/// Two subtrees filed under the same child name end in one child that is the
/// union of both: neither replaces the other. After them the child holds what
/// it held before, then the conditions of `f`, then those of `g`.
pub proof fn lemma_add_child_twice(a: FilterModel, name: Seq<char>, f: FilterModel, g: FilterModel)
    ensures
        a.add_child(name, f).add_child(name, g) == a.add_child(name, f.merge(g)),
        a.add_child(name, f).add_child(name, g).children.dom() == a.children.dom().insert(name),
        a.add_child(name, f).add_child(name, g).children[name].conditions == (
        if a.children.contains_key(name) {
            a.children[name].conditions
        } else {
            Seq::empty()
        }) + f.conditions + g.conditions,
{
    let l = a.add_child(name, f).add_child(name, g);
    let r = a.add_child(name, f.merge(g));
    if a.children.contains_key(name) {
        lemma_merge_associative(a.children[name], f, g);
    }
    assert(l.children =~= r.children);
    assert(l.children.dom() =~= a.children.dom().insert(name));
    assert(Seq::<ConditionModel>::empty() + f.conditions + g.conditions =~= f.conditions
        + g.conditions);
    if a.children.contains_key(name) {
        assert((a.children[name].conditions + f.conditions) + g.conditions
            =~= a.children[name].conditions + (f.conditions + g.conditions));
    }
}

/// A snapshot is a value of its own: a condition that is filed after the
/// snapshot was taken makes the builder's filter one condition longer and
/// leaves the snapshot, which is the filter as it was, without it.
pub proof fn lemma_snapshot_independent(snapshot: FilterModel, later: ConditionModel)
    ensures
        snapshot.add_condition(later) != snapshot,
        snapshot.add_condition(later).conditions.len() == snapshot.conditions.len() + 1,
        snapshot.add_condition(later).conditions.take(snapshot.conditions.len() as int)
            == snapshot.conditions,
{
    let after = snapshot.add_condition(later);
    assert(after.conditions.take(snapshot.conditions.len() as int) =~= snapshot.conditions);
}

} // verus!
