//! The filter tree and its leaf conditions.
use vstd::prelude::*;
use vstd::std_specs::cmp::PartialEqSpecImpl;
use crate::filter::assoc::{
    has_key, keys_distinct, lemma_absent, lemma_dom_len, lemma_empty, lemma_lookup, lemma_push,
    lemma_same_map, lemma_update, to_map,
};
use crate::filter::model::{
    lemma_merge_identity, lemma_merge_then_add_child, lemma_merge_then_add_condition,
    lemma_merge_then_add_op_filter, ConditionModel, FilterModel,
};
use crate::filter::op::{FilterCmpOp, FilterLogicOp};
use crate::filter::value::FilterValue;

verus! {

/// One leaf test: the field `key` satisfies `op` against `value`.
#[derive(Debug)]
pub struct FilterCondition {
    pub key: String,
    pub op: FilterCmpOp,
    pub value: FilterValue,
}

/// A node of the filter tree: leaf conditions in order, at most one subtree
/// per logical operator and at most one subtree per child name.
///
/// The subtree of the operator `op_keys[i]` is `op_filters[i]`, and the
/// subtree of the child `child_names[i]` is `child_filters[i]`.
#[derive(Debug)]
pub struct Filter {
    op_keys: Vec<FilterLogicOp>,
    op_filters: Vec<Filter>,
    filters: Vec<FilterCondition>,
    child_names: Vec<String>,
    child_filters: Vec<Filter>,
}

/// The models of a list of conditions, in order.
pub open spec fn conditions_of(s: Seq<FilterCondition>) -> Seq<ConditionModel>
    decreases s,
{
    Seq::new(s.len(), |i: int| if 0 <= i < s.len() { s[i]@ } else { arbitrary() })
}

/// The logical groups as pairs of an operator and the model of its subtree.
pub open spec fn op_pairs(keys: Seq<FilterLogicOp>, filters: Seq<Filter>) -> Seq<
    (FilterLogicOp, FilterModel),
>
    decreases filters,
{
    Seq::new(
        keys.len(),
        |i: int| (keys[i], if 0 <= i < filters.len() { filters[i]@ } else { arbitrary() }),
    )
}

/// The children as pairs of a name and the model of its subtree.
pub open spec fn child_pairs(names: Seq<String>, filters: Seq<Filter>) -> Seq<
    (Seq<char>, FilterModel),
>
    decreases filters,
{
    Seq::new(
        names.len(),
        |i: int| (names[i]@, if 0 <= i < filters.len() { filters[i]@ } else { arbitrary() }),
    )
}

impl View for FilterCondition {
    type V = ConditionModel;

    open spec fn view(&self) -> ConditionModel
        decreases self,
    {
        ConditionModel { key: self.key@, op: self.op, value: self.value@ }
    }
}

impl View for Filter {
    type V = FilterModel;

    closed spec fn view(&self) -> FilterModel
        decreases self,
    {
        FilterModel {
            groups: to_map(op_pairs(self.op_keys@, self.op_filters@)),
            conditions: conditions_of(self.filters@),
            children: to_map(child_pairs(self.child_names@, self.child_filters@)),
        }
    }
}

impl FilterCondition {
    /// The condition that the field `key` satisfies `op` against `value`.
    pub fn new(key: String, op: FilterCmpOp, value: FilterValue) -> (c: Self)
        ensures
            c.key == key,
            c.op == op,
            c.value == value,
    {
        Self { key, op, value }
    }
}

/// A copy of each filter of `filters`, in order.
fn clone_filters(filters: &Vec<Filter>) -> (r: Vec<Filter>)
    ensures
        r@.len() == filters@.len(),
        forall|i: int| 0 <= i < r@.len() ==> r@[i]@ == filters@[i]@,
    decreases filters,
{
    let mut out: Vec<Filter> = Vec::new();
    let mut i: usize = 0;
    while i < filters.len()
        invariant
            0 <= i <= filters@.len(),
            out@.len() == i,
            forall|j: int| 0 <= j < i ==> out@[j]@ == filters@[j]@,
        decreases filters@.len() - i,
    {
        out.push(filters[i].clone());
        i += 1;
    }
    out
}

impl Clone for FilterCondition {
    /// A copy that stands for the same condition.
    fn clone(&self) -> (r: Self)
        ensures
            r@ == self@,
        decreases self,
    {
        FilterCondition { key: self.key.clone(), op: self.op, value: self.value.clone() }
    }
}

impl Clone for Filter {
    /// A copy that stands for the same tree.
    fn clone(&self) -> (r: Self)
        ensures
            r@ == self@,
        decreases self,
    {
        proof {
            use_type_invariant(self);
        }
        let op_filters = clone_filters(&self.op_filters);
        let child_filters = clone_filters(&self.child_filters);
        let mut filters: Vec<FilterCondition> = Vec::new();
        let mut i: usize = 0;
        while i < self.filters.len()
            invariant
                0 <= i <= self.filters@.len(),
                filters@.len() == i,
                forall|j: int| 0 <= j < i ==> filters@[j]@ == self.filters@[j]@,
            decreases self.filters@.len() - i,
        {
            filters.push(self.filters[i].clone());
            i += 1;
        }
        let mut child_names: Vec<String> = Vec::new();
        let mut i: usize = 0;
        while i < self.child_names.len()
            invariant
                0 <= i <= self.child_names@.len(),
                child_names@.len() == i,
                forall|j: int| 0 <= j < i ==> child_names@[j]@ == self.child_names@[j]@,
            decreases self.child_names@.len() - i,
        {
            child_names.push(self.child_names[i].clone());
            i += 1;
        }
        let mut op_keys: Vec<FilterLogicOp> = Vec::new();
        let mut i: usize = 0;
        while i < self.op_keys.len()
            invariant
                0 <= i <= self.op_keys@.len(),
                op_keys@.len() == i,
                forall|j: int| 0 <= j < i ==> op_keys@[j] == self.op_keys@[j],
            decreases self.op_keys@.len() - i,
        {
            op_keys.push(self.op_keys[i]);
            i += 1;
        }
        proof {
            assert(op_keys@ =~= self.op_keys@);
            assert(op_pairs(op_keys@, op_filters@) =~= op_pairs(self.op_keys@, self.op_filters@));
            assert(child_pairs(child_names@, child_filters@) =~= child_pairs(
                self.child_names@,
                self.child_filters@,
            ));
            assert(conditions_of(filters@) =~= conditions_of(self.filters@));
        }
        Filter { op_keys, op_filters, filters, child_names, child_filters }
    }
}

impl PartialEq for FilterCondition {
    /// Whether the two conditions test the same field with the same
    /// operator against the same value.
    fn eq(&self, other: &Self) -> (r: bool)
        decreases self,
    {
        self.key.as_str().eq(other.key.as_str()) && self.op == other.op && self.value.eq(
            &other.value,
        )
    }
}

impl PartialEqSpecImpl for FilterCondition {
    open spec fn obeys_eq_spec() -> bool {
        true
    }

    open spec fn eq_spec(&self, other: &Self) -> bool {
        self@ == other@
    }
}

/// Whether the two lists hold equal conditions at each position.
fn conditions_eq(a: &Vec<FilterCondition>, b: &Vec<FilterCondition>) -> (r: bool)
    ensures
        r == (conditions_of(a@) == conditions_of(b@)),
    decreases a,
{
    if a.len() != b.len() {
        assert(conditions_of(a@).len() != conditions_of(b@).len());
        return false;
    }
    let mut i: usize = 0;
    while i < a.len()
        invariant
            0 <= i <= a@.len(),
            a@.len() == b@.len(),
            forall|j: int| 0 <= j < i ==> a@[j]@ == b@[j]@,
        decreases a@.len() - i,
    {
        if !a[i].eq(&b[i]) {
            assert(conditions_of(a@)[i as int] != conditions_of(b@)[i as int]);
            return false;
        }
        i += 1;
    }
    assert(conditions_of(a@) =~= conditions_of(b@));
    true
}

/// Whether the logical groups `keys` with `filters` and `other_keys` with
/// `other_filters` are the same: each operator has the same subtree on both
/// sides, in whatever order the operators stand.
fn groups_eq(
    keys: &Vec<FilterLogicOp>,
    filters: &Vec<Filter>,
    other_keys: &Vec<FilterLogicOp>,
    other_filters: &Vec<Filter>,
) -> (r: bool)
    requires
        keys@.len() == filters@.len(),
        other_keys@.len() == other_filters@.len(),
        keys_distinct(op_pairs(keys@, filters@)),
        keys_distinct(op_pairs(other_keys@, other_filters@)),
    ensures
        r == (to_map(op_pairs(keys@, filters@)) == to_map(op_pairs(other_keys@, other_filters@))),
    decreases filters,
{
    let ghost a = op_pairs(keys@, filters@);
    let ghost b = op_pairs(other_keys@, other_filters@);
    if keys.len() != other_keys.len() {
        proof {
            lemma_dom_len(a);
            lemma_dom_len(b);
        }
        return false;
    }
    let mut i: usize = 0;
    while i < keys.len()
        invariant
            0 <= i <= keys@.len(),
            keys@.len() == filters@.len(),
            other_keys@.len() == other_filters@.len(),
            a == op_pairs(keys@, filters@),
            b == op_pairs(other_keys@, other_filters@),
            keys_distinct(a),
            keys_distinct(b),
            a.len() == b.len(),
            forall|j: int|
                0 <= j < i ==> to_map(b).contains_key(#[trigger] a[j].0) && to_map(b)[a[j].0]
                    == a[j].1,
        decreases keys@.len() - i,
    {
        proof {
            lemma_lookup(a, i as int);
        }
        match find_op(other_keys, keys[i]) {
            None => {
                proof {
                    lemma_absent(b, keys@[i as int]);
                }
                return false;
            },
            Some(j) => {
                proof {
                    lemma_lookup(b, j as int);
                }
                if !filters[i].eq(&other_filters[j]) {
                    return false;
                }
            },
        }
        i += 1;
    }
    proof {
        lemma_same_map(a, b);
    }
    true
}

/// Whether the children `names` with `filters` and `other_names` with
/// `other_filters` are the same: each name has the same subtree on both
/// sides, in whatever order the names stand.
fn children_eq(
    names: &Vec<String>,
    filters: &Vec<Filter>,
    other_names: &Vec<String>,
    other_filters: &Vec<Filter>,
) -> (r: bool)
    requires
        names@.len() == filters@.len(),
        other_names@.len() == other_filters@.len(),
        keys_distinct(child_pairs(names@, filters@)),
        keys_distinct(child_pairs(other_names@, other_filters@)),
    ensures
        r == (to_map(child_pairs(names@, filters@)) == to_map(
            child_pairs(other_names@, other_filters@),
        )),
    decreases filters,
{
    let ghost a = child_pairs(names@, filters@);
    let ghost b = child_pairs(other_names@, other_filters@);
    if names.len() != other_names.len() {
        proof {
            lemma_dom_len(a);
            lemma_dom_len(b);
        }
        return false;
    }
    let mut i: usize = 0;
    while i < names.len()
        invariant
            0 <= i <= names@.len(),
            names@.len() == filters@.len(),
            other_names@.len() == other_filters@.len(),
            a == child_pairs(names@, filters@),
            b == child_pairs(other_names@, other_filters@),
            keys_distinct(a),
            keys_distinct(b),
            a.len() == b.len(),
            forall|j: int|
                0 <= j < i ==> to_map(b).contains_key(#[trigger] a[j].0) && to_map(b)[a[j].0]
                    == a[j].1,
        decreases names@.len() - i,
    {
        proof {
            lemma_lookup(a, i as int);
        }
        match find_child(other_names, names[i].as_str()) {
            None => {
                proof {
                    lemma_absent(b, names@[i as int]@);
                }
                return false;
            },
            Some(j) => {
                proof {
                    lemma_lookup(b, j as int);
                }
                if !filters[i].eq(&other_filters[j]) {
                    return false;
                }
            },
        }
        i += 1;
    }
    proof {
        lemma_same_map(a, b);
    }
    true
}

impl PartialEq for Filter {
    /// Whether the two filters are the same tree: the same conditions in the
    /// same order, and the same subtree for each logical operator and for
    /// each child.
    fn eq(&self, other: &Self) -> (r: bool)
        decreases self,
    {
        proof {
            use_type_invariant(self);
            use_type_invariant(other);
        }
        conditions_eq(&self.filters, &other.filters) && groups_eq(
            &self.op_keys,
            &self.op_filters,
            &other.op_keys,
            &other.op_filters,
        ) && children_eq(
            &self.child_names,
            &self.child_filters,
            &other.child_names,
            &other.child_filters,
        )
    }
}

impl PartialEqSpecImpl for Filter {
    open spec fn obeys_eq_spec() -> bool {
        true
    }

    open spec fn eq_spec(&self, other: &Self) -> bool {
        self@ == other@
    }
}

/// The position of `op` in `keys`, if it is there.
fn find_op(keys: &Vec<FilterLogicOp>, op: FilterLogicOp) -> (r: Option<usize>)
    ensures
        match r {
            Some(i) => i < keys@.len() && keys@[i as int] == op,
            None => forall|j: int| 0 <= j < keys@.len() ==> keys@[j] != op,
        },
{
    let mut i: usize = 0;
    while i < keys.len()
        invariant
            0 <= i <= keys@.len(),
            forall|j: int| 0 <= j < i ==> keys@[j] != op,
        decreases keys@.len() - i,
    {
        if keys[i] == op {
            return Some(i);
        }
        i += 1;
    }
    None
}

/// The position of `name` in `names`, if it is there.
fn find_child(names: &Vec<String>, name: &str) -> (r: Option<usize>)
    ensures
        match r {
            Some(i) => i < names@.len() && names@[i as int]@ == name@,
            None => forall|j: int| 0 <= j < names@.len() ==> names@[j]@ != name@,
        },
{
    let mut i: usize = 0;
    while i < names.len()
        invariant
            0 <= i <= names@.len(),
            forall|j: int| 0 <= j < i ==> names@[j]@ != name@,
        decreases names@.len() - i,
    {
        if names[i].as_str().eq(name) {
            return Some(i);
        }
        i += 1;
    }
    None
}

impl Filter {
    /// Each key has its subtree, and no operator and no child name occurs
    /// twice.
    #[verifier::type_invariant]
    spec fn well_formed(self) -> bool {
        &&& self.op_keys@.len() == self.op_filters@.len()
        &&& forall|i: int, j: int|
            0 <= i < j < self.op_keys@.len() ==> self.op_keys@[i] != self.op_keys@[j]
        &&& self.child_names@.len() == self.child_filters@.len()
        &&& forall|i: int, j: int|
            0 <= i < j < self.child_names@.len() ==> self.child_names@[i]@
                != self.child_names@[j]@
    }

    /// The empty filter.
    pub fn new() -> (f: Self)
        ensures
            f@ == FilterModel::empty(),
    {
        let f = Filter {
            op_keys: Vec::new(),
            op_filters: Vec::new(),
            filters: Vec::new(),
            child_names: Vec::new(),
            child_filters: Vec::new(),
        };
        proof {
            lemma_empty(op_pairs(f.op_keys@, f.op_filters@));
            lemma_empty(child_pairs(f.child_names@, f.child_filters@));
            assert(f@.conditions =~= Seq::empty());
        }
        f
    }

    /// The leaf conditions, in the order in which they were added.
    pub fn conditions(&self) -> (r: &Vec<FilterCondition>)
        ensures
            conditions_of(r@) == self@.conditions,
    {
        &self.filters
    }

    /// The logical operators that hold a subtree, each once.
    pub fn op_keys(&self) -> (r: &Vec<FilterLogicOp>)
        ensures
            r@.no_duplicates(),
            forall|op: FilterLogicOp| r@.contains(op) <==> self@.groups.contains_key(op),
    {
        proof {
            use_type_invariant(self);
            let pairs = op_pairs(self.op_keys@, self.op_filters@);
            assert forall|op: FilterLogicOp| self.op_keys@.contains(op) implies has_key(
                pairs,
                op,
            ) by {
                let i = choose|i: int| 0 <= i < self.op_keys@.len() && self.op_keys@[i] == op;
                assert(pairs[i].0 == op);
            }
            assert forall|op: FilterLogicOp| has_key(pairs, op) implies self.op_keys@.contains(
                op,
            ) by {
                let i = choose|i: int| 0 <= i < pairs.len() && pairs[i].0 == op;
                assert(self.op_keys@[i] == op);
            }
        }
        &self.op_keys
    }

    /// The subtree filed under the logical operator `op`, if there is one.
    pub fn op_filter(&self, op: FilterLogicOp) -> (r: Option<&Filter>)
        ensures
            match r {
                Some(f) => self@.groups.contains_key(op) && f@ == self@.groups[op],
                None => !self@.groups.contains_key(op),
            },
    {
        proof {
            use_type_invariant(self);
        }
        match find_op(&self.op_keys, op) {
            Some(i) => {
                proof {
                    lemma_lookup(op_pairs(self.op_keys@, self.op_filters@), i as int);
                }
                Some(&self.op_filters[i])
            },
            None => {
                proof {
                    lemma_absent(op_pairs(self.op_keys@, self.op_filters@), op);
                }
                None
            },
        }
    }

    /// The names of the children that hold a subtree, each once.
    pub fn child_names(&self) -> (r: &Vec<String>)
        ensures
            forall|i: int, j: int| 0 <= i < j < r@.len() ==> r@[i]@ != r@[j]@,
            forall|name: Seq<char>|
                (exists|i: int| 0 <= i < r@.len() && r@[i]@ == name)
                    <==> self@.children.contains_key(name),
    {
        proof {
            use_type_invariant(self);
            let pairs = child_pairs(self.child_names@, self.child_filters@);
            assert forall|name: Seq<char>|
                (exists|i: int| 0 <= i < self.child_names@.len() && self.child_names@[i]@ == name)
                implies has_key(pairs, name) by {
                let i = choose|i: int|
                    0 <= i < self.child_names@.len() && self.child_names@[i]@ == name;
                assert(pairs[i].0 == name);
            }
            assert forall|name: Seq<char>| has_key(pairs, name) implies (exists|i: int|
                0 <= i < self.child_names@.len() && self.child_names@[i]@ == name) by {
                let i = choose|i: int| 0 <= i < pairs.len() && pairs[i].0 == name;
                assert(self.child_names@[i]@ == name);
            }
        }
        &self.child_names
    }

    /// The subtree filed under the child `name`, if there is one.
    pub fn child_filter(&self, name: &str) -> (r: Option<&Filter>)
        ensures
            match r {
                Some(f) => self@.children.contains_key(name@) && f@ == self@.children[name@],
                None => !self@.children.contains_key(name@),
            },
    {
        proof {
            use_type_invariant(self);
        }
        match find_child(&self.child_names, name) {
            Some(i) => {
                proof {
                    lemma_lookup(child_pairs(self.child_names@, self.child_filters@), i as int);
                }
                Some(&self.child_filters[i])
            },
            None => {
                proof {
                    lemma_absent(child_pairs(self.child_names@, self.child_filters@), name@);
                }
                None
            },
        }
    }

    /// Appends a leaf condition.
    pub fn add_condition(&mut self, filter: FilterCondition)
        ensures
            final(self)@ == old(self)@.add_condition(filter@),
    {
        proof {
            use_type_invariant(&*self);
        }
        let mut filters: Vec<FilterCondition> = Vec::new();
        std::mem::swap(&mut filters, &mut self.filters);
        filters.push(filter);
        self.filters = filters;
        proof {
            assert(conditions_of(self.filters@) =~= conditions_of(old(self).filters@).push(
                filter@,
            ));
        }
    }

    /// The subtree filed under `op`, if there is one, for changing in place.
    pub fn get_op_filter(&mut self, op: FilterLogicOp) -> (r: Option<&mut Filter>)
        ensures
            match r {
                Some(f) => old(self)@.groups.contains_key(op) && f@ == old(self)@.groups[op]
                    && final(self)@ == (FilterModel {
                    groups: old(self)@.groups.insert(op, final(f)@),
                    ..old(self)@
                }),
                None => !old(self)@.groups.contains_key(op) && final(self)@ == old(self)@,
            },
    {
        proof {
            use_type_invariant(&*self);
        }
        match find_op(&self.op_keys, op) {
            Some(i) => {
                proof {
                    let keys = self.op_keys@;
                    let before = self.op_filters@;
                    lemma_lookup(op_pairs(keys, before), i as int);
                    assert forall|g: Filter| #![trigger g@]
                        to_map(op_pairs(keys, before.update(i as int, g))) == to_map(
                            op_pairs(keys, before),
                        ).insert(op, g@) by {
                        lemma_update(op_pairs(keys, before), i as int, g@);
                        assert(op_pairs(keys, before.update(i as int, g)) =~= op_pairs(
                            keys,
                            before,
                        ).update(i as int, (op, g@)));
                    }
                }
                Some(&mut self.op_filters[i])
            },
            None => {
                proof {
                    lemma_absent(op_pairs(self.op_keys@, self.op_filters@), op);
                }
                None
            },
        }
    }

    /// Sets `filter` as the subtree of the operator `op`, which has none yet.
    fn insert_op(&mut self, op: FilterLogicOp, filter: Filter)
        requires
            !old(self)@.groups.contains_key(op),
        ensures
            final(self)@ == (FilterModel {
                groups: old(self)@.groups.insert(op, filter@),
                ..old(self)@
            }),
    {
        let mut this = Filter::new();
        std::mem::swap(&mut this, self);
        proof {
            use_type_invariant(&this);
        }
        let Filter { mut op_keys, mut op_filters, filters, child_names, child_filters } = this;
        proof {
            let pairs = op_pairs(op_keys@, op_filters@);
            assert forall|i: int| 0 <= i < op_keys@.len() implies op_keys@[i] != op by {
                if op_keys@[i] == op {
                    assert(pairs[i].0 == op);
                    assert(has_key(pairs, op));
                }
            }
            lemma_push(pairs, op, filter@);
            assert(op_pairs(op_keys@.push(op), op_filters@.push(filter)) =~= pairs.push(
                (op, filter@),
            ));
        }
        op_keys.push(op);
        op_filters.push(filter);
        *self = Filter { op_keys, op_filters, filters, child_names, child_filters };
    }

    /// Sets `filter` as the subtree of the child `name`, which has none yet.
    fn insert_child(&mut self, name: String, filter: Filter)
        requires
            !old(self)@.children.contains_key(name@),
        ensures
            final(self)@ == (FilterModel {
                children: old(self)@.children.insert(name@, filter@),
                ..old(self)@
            }),
    {
        let mut this = Filter::new();
        std::mem::swap(&mut this, self);
        proof {
            use_type_invariant(&this);
        }
        let Filter { op_keys, op_filters, filters, mut child_names, mut child_filters } = this;
        proof {
            let pairs = child_pairs(child_names@, child_filters@);
            assert forall|i: int| 0 <= i < child_names@.len() implies child_names@[i]@
                != name@ by {
                if child_names@[i]@ == name@ {
                    assert(pairs[i].0 == name@);
                    assert(has_key(pairs, name@));
                }
            }
            lemma_push(pairs, name@, filter@);
            assert(child_pairs(child_names@.push(name), child_filters@.push(filter))
                =~= pairs.push((name@, filter@)));
        }
        child_names.push(name);
        child_filters.push(filter);
        *self = Filter { op_keys, op_filters, filters, child_names, child_filters };
    }

    /// Files `filter` under the logical operator `op`: merged into the
    /// subtree that is there, or set as the subtree where there is none.
    pub fn add_op_filter(&mut self, op: FilterLogicOp, filter: Filter)
        ensures
            final(self)@ == old(self)@.add_op_filter(op, filter@),
        decreases filter, 1int,
    {
        if let Some(existing) = self.get_op_filter(op) {
            existing.extend(filter);
        } else {
            self.insert_op(op, filter);
        }
    }

    /// Files the one condition under the logical operator `op`.
    pub fn add_op_condition(&mut self, op: FilterLogicOp, condition: FilterCondition)
        ensures
            final(self)@ == old(self)@.add_op_condition(op, condition@),
    {
        let mut filter = Filter::new();
        filter.add_condition(condition);
        assert(filter@ =~= FilterModel::single(condition@));
        self.add_op_filter(op, filter);
    }

    /// The subtree filed under the child `name`, if there is one, for
    /// changing in place.
    fn get_child_filter(&mut self, name: &str) -> (r: Option<&mut Filter>)
        ensures
            match r {
                Some(f) => old(self)@.children.contains_key(name@) && f@
                    == old(self)@.children[name@] && final(self)@ == (FilterModel {
                    children: old(self)@.children.insert(name@, final(f)@),
                    ..old(self)@
                }),
                None => !old(self)@.children.contains_key(name@) && final(self)@ == old(self)@,
            },
    {
        proof {
            use_type_invariant(&*self);
        }
        match find_child(&self.child_names, name) {
            Some(i) => {
                proof {
                    let names = self.child_names@;
                    let before = self.child_filters@;
                    lemma_lookup(child_pairs(names, before), i as int);
                    assert forall|g: Filter| #![trigger g@]
                        to_map(child_pairs(names, before.update(i as int, g))) == to_map(
                            child_pairs(names, before),
                        ).insert(name@, g@) by {
                        lemma_update(child_pairs(names, before), i as int, g@);
                        assert(child_pairs(names, before.update(i as int, g)) =~= child_pairs(
                            names,
                            before,
                        ).update(i as int, (name@, g@)));
                    }
                }
                Some(&mut self.child_filters[i])
            },
            None => {
                proof {
                    lemma_absent(child_pairs(self.child_names@, self.child_filters@), name@);
                }
                None
            },
        }
    }

    /// Files `filter` under the child `name`: merged into the subtree that is
    /// there, or set as the subtree where there is none.
    pub fn add_child(&mut self, name: String, filter: Filter)
        ensures
            final(self)@ == old(self)@.add_child(name@, filter@),
        decreases filter, 1int,
    {
        if let Some(existing) = self.get_child_filter(name.as_str()) {
            existing.extend(filter);
        } else {
            self.insert_child(name, filter);
        }
    }

    /// Merges `filter` into this filter: its conditions follow the ones that
    /// are here, and each of its groups and children is merged into the one of
    /// the same key, or set where there is none.
    pub fn extend(&mut self, filter: Filter)
        ensures
            final(self)@ == old(self)@.merge(filter@),
        decreases filter, 0int,
    {
        proof {
            use_type_invariant(&filter);
        }
        let Filter { op_keys, mut op_filters, filters, mut child_names, mut child_filters } = filter;
        let ghost start = self@;
        let ghost groups = op_pairs(op_keys@, op_filters@);
        let ghost conditions = conditions_of(filters@);
        let ghost children = child_pairs(child_names@, child_filters@);
        proof {
            lemma_empty(groups.take(0));
            lemma_merge_identity(start);
        }
        let mut i: usize = 0;
        while i < op_keys.len()
            invariant
                0 <= i <= op_keys@.len(),
                op_keys@ == filter.op_keys@,
                op_filters@.len() == op_keys@.len(),
                op_filters@.len() == filter.op_filters@.len(),
                forall|j: int|
                    i <= j < op_filters@.len() ==> op_filters@[j] == filter.op_filters@[j],
                groups == op_pairs(filter.op_keys@, filter.op_filters@),
                keys_distinct(groups),
                self@ == start.merge(
                    FilterModel {
                        groups: to_map(groups.take(i as int)),
                        conditions: Seq::empty(),
                        children: Map::empty(),
                    },
                ),
            decreases op_keys@.len() - i,
        {
            let mut subtree = Filter::new();
            std::mem::swap(&mut subtree, &mut op_filters[i]);
            proof {
                assert(subtree == filter.op_filters@[i as int]);
                assert(decreases_to!(filter => filter.op_filters@[i as int]));
                let done = groups.take(i as int);
                assert(groups.take(i + 1) =~= done.push(groups[i as int]));
                assert(keys_distinct(done));
                assert forall|j: int| 0 <= j < done.len() implies done[j].0 != op_keys@[i as int] by {
                    assert(done[j].0 == groups[j].0);
                }
                lemma_absent(done, op_keys@[i as int]);
                lemma_push(done, op_keys@[i as int], subtree@);
                lemma_merge_then_add_op_filter(
                    start,
                    FilterModel {
                        groups: to_map(done),
                        conditions: Seq::empty(),
                        children: Map::empty(),
                    },
                    op_keys@[i as int],
                    subtree@,
                );
            }
            self.add_op_filter(op_keys[i], subtree);
            i += 1;
        }
        proof {
            assert(groups.take(groups.len() as int) =~= groups);
            assert(conditions.take(0) =~= Seq::empty());
        }
        for condition in it: filters.into_iter()
            invariant
                it.seq() == filter.filters@,
                conditions == conditions_of(filter.filters@),
                self@ == start.merge(
                    FilterModel {
                        groups: to_map(groups),
                        conditions: conditions.take(it.index() as int),
                        children: Map::empty(),
                    },
                ),
        {
            proof {
                let k = it.index() as int;
                assert(conditions.take(k + 1) =~= conditions.take(k).push(condition@));
                lemma_merge_then_add_condition(
                    start,
                    FilterModel {
                        groups: to_map(groups),
                        conditions: conditions.take(k),
                        children: Map::empty(),
                    },
                    condition@,
                );
            }
            self.add_condition(condition);
        }
        proof {
            assert(conditions.take(conditions.len() as int) =~= conditions);
            lemma_empty(children.take(0));
        }
        let mut i: usize = 0;
        while i < child_names.len()
            invariant
                0 <= i <= child_names@.len(),
                child_names@.len() == filter.child_names@.len(),
                child_filters@.len() == child_names@.len(),
                child_filters@.len() == filter.child_filters@.len(),
                forall|j: int|
                    i <= j < child_names@.len() ==> child_names@[j] == filter.child_names@[j],
                forall|j: int|
                    i <= j < child_filters@.len() ==> child_filters@[j]
                        == filter.child_filters@[j],
                children == child_pairs(filter.child_names@, filter.child_filters@),
                keys_distinct(children),
                self@ == start.merge(
                    FilterModel {
                        groups: to_map(groups),
                        conditions: conditions,
                        children: to_map(children.take(i as int)),
                    },
                ),
            decreases child_names@.len() - i,
        {
            let mut name = String::new();
            std::mem::swap(&mut name, &mut child_names[i]);
            let mut subtree = Filter::new();
            std::mem::swap(&mut subtree, &mut child_filters[i]);
            proof {
                assert(name == filter.child_names@[i as int]);
                assert(subtree == filter.child_filters@[i as int]);
                assert(decreases_to!(filter => filter.child_filters@[i as int]));
                let done = children.take(i as int);
                assert(children.take(i + 1) =~= done.push(children[i as int]));
                assert(keys_distinct(done));
                assert forall|j: int| 0 <= j < done.len() implies done[j].0 != name@ by {
                    assert(done[j].0 == children[j].0);
                }
                lemma_absent(done, name@);
                lemma_push(done, name@, subtree@);
                lemma_merge_then_add_child(
                    start,
                    FilterModel {
                        groups: to_map(groups),
                        conditions: conditions,
                        children: to_map(done),
                    },
                    name@,
                    subtree@,
                );
            }
            self.add_child(name, subtree);
            i += 1;
        }
        proof {
            assert(children.take(children.len() as int) =~= children);
        }
    }
}

} // verus!
