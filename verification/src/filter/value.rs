//! The values of leaf conditions and the conversions into them.
//!
//! Where the converted value can be written down as a term, `from_spec` is
//! that term. Where it cannot (it holds a fresh `String` or `Vec`), the
//! `ensures` of `from` states the model of the result.
use vstd::prelude::*;
use vstd::std_specs::cmp::PartialEqSpecImpl;
use vstd::std_specs::convert::FromSpecImpl;
use crate::filter::builder::{converted, converted_list, ModelFilter};
use crate::filter::model::ValueModel;
use crate::filter::tree::Filter;
use crate::id::{Id, IdGuard};
use crate::model::Model;
use crate::reference::Ref;

verus! {

/// A value usable inside a leaf condition.
#[derive(Debug)]
pub enum FilterValue {
    /// An identifier in its canonical string form, absent while unassigned.
    Id(Option<String>),
    String(String),
    Int(i32),
    BigInt(i64),
    /// A 32-bit float, as its IEEE 754 bit pattern.
    Float(u32),
    /// A 64-bit float, as its IEEE 754 bit pattern.
    Double(u64),
    Bool(bool),
    Object(Filter),
    Vec(Vec<FilterValue>),
}

/// The models of a list of values, in order.
pub open spec fn values_of(s: Seq<FilterValue>) -> Seq<ValueModel>
    decreases s,
{
    Seq::new(s.len(), |i: int| if 0 <= i < s.len() { s[i]@ } else { arbitrary() })
}

impl View for FilterValue {
    type V = ValueModel;

    open spec fn view(&self) -> ValueModel
        decreases self,
    {
        match self {
            FilterValue::Id(id) => ValueModel::Id(
                match id {
                    Some(s) => Some(s@),
                    None => None,
                },
            ),
            FilterValue::String(s) => ValueModel::String(s@),
            FilterValue::Int(i) => ValueModel::Int(*i),
            FilterValue::BigInt(i) => ValueModel::BigInt(*i),
            FilterValue::Float(bits) => ValueModel::Float(*bits),
            FilterValue::Double(bits) => ValueModel::Double(*bits),
            FilterValue::Bool(b) => ValueModel::Bool(*b),
            FilterValue::Object(f) => ValueModel::Object(f@),
            FilterValue::Vec(v) => ValueModel::Vec(values_of(v@)),
        }
    }
}

/// A copy of each value of `values`, in order.
fn clone_values(values: &Vec<FilterValue>) -> (r: Vec<FilterValue>)
    ensures
        values_of(r@) == values_of(values@),
    decreases values,
{
    let mut out: Vec<FilterValue> = Vec::new();
    let mut i: usize = 0;
    while i < values.len()
        invariant
            0 <= i <= values@.len(),
            out@.len() == i,
            forall|j: int| 0 <= j < i ==> out@[j]@ == values@[j]@,
        decreases values@.len() - i,
    {
        out.push(values[i].clone());
        i += 1;
    }
    assert(values_of(out@) =~= values_of(values@));
    out
}

impl Clone for FilterValue {
    /// A copy that stands for the same value.
    fn clone(&self) -> (r: Self)
        ensures
            r@ == self@,
        decreases self,
    {
        match self {
            FilterValue::Id(id) => FilterValue::Id(
                match id {
                    Some(s) => Some(s.clone()),
                    None => None,
                },
            ),
            FilterValue::String(s) => FilterValue::String(s.clone()),
            FilterValue::Int(i) => FilterValue::Int(*i),
            FilterValue::BigInt(i) => FilterValue::BigInt(*i),
            FilterValue::Float(bits) => FilterValue::Float(*bits),
            FilterValue::Double(bits) => FilterValue::Double(*bits),
            FilterValue::Bool(b) => FilterValue::Bool(*b),
            FilterValue::Object(f) => FilterValue::Object(f.clone()),
            FilterValue::Vec(v) => FilterValue::Vec(clone_values(v)),
        }
    }
}

/// Whether the two lists hold equal values at each position.
fn values_eq(a: &Vec<FilterValue>, b: &Vec<FilterValue>) -> (r: bool)
    ensures
        r == (values_of(a@) == values_of(b@)),
    decreases a,
{
    if a.len() != b.len() {
        assert(values_of(a@).len() != values_of(b@).len());
        return false;
    }
    let mut i: usize = 0;
    while i < a.len()
        invariant
            0 <= i <= a@.len(),
            a@.len() == b@.len(),
            forall|j: int| 0 <= j < i ==> a@[j]@ == b@[j]@,
        decreases a@.len() - i,
    {
        if !a[i].eq(&b[i]) {
            assert(values_of(a@)[i as int] != values_of(b@)[i as int]);
            return false;
        }
        i += 1;
    }
    assert(values_of(a@) =~= values_of(b@));
    true
}

impl PartialEq for FilterValue {
    /// Whether the two values are of one variant and hold the same.
    fn eq(&self, other: &Self) -> (r: bool)
        decreases self,
    {
        match (self, other) {
            (FilterValue::Id(a), FilterValue::Id(b)) => match (a, b) {
                (Some(x), Some(y)) => x.as_str().eq(y.as_str()),
                (None, None) => true,
                _ => false,
            },
            (FilterValue::String(a), FilterValue::String(b)) => a.as_str().eq(b.as_str()),
            (FilterValue::Int(a), FilterValue::Int(b)) => *a == *b,
            (FilterValue::BigInt(a), FilterValue::BigInt(b)) => *a == *b,
            (FilterValue::Float(a), FilterValue::Float(b)) => *a == *b,
            (FilterValue::Double(a), FilterValue::Double(b)) => *a == *b,
            (FilterValue::Bool(a), FilterValue::Bool(b)) => *a == *b,
            (FilterValue::Object(a), FilterValue::Object(b)) => a.eq(b),
            (FilterValue::Vec(a), FilterValue::Vec(b)) => values_eq(a, b),
            _ => false,
        }
    }
}

impl PartialEqSpecImpl for FilterValue {
    open spec fn obeys_eq_spec() -> bool {
        true
    }

    open spec fn eq_spec(&self, other: &Self) -> bool {
        self@ == other@
    }
}

impl From<String> for FilterValue {
    fn from(s: String) -> (v: Self) {
        Self::String(s)
    }
}

impl FromSpecImpl<String> for FilterValue {
    open spec fn obeys_from_spec() -> bool {
        true
    }

    open spec fn from_spec(s: String) -> Self {
        FilterValue::String(s)
    }
}

impl From<&str> for FilterValue {
    fn from(s: &str) -> (v: Self)
        ensures
            v@ == ValueModel::String(s@),
    {
        Self::String(s.to_owned())
    }
}

impl FromSpecImpl<&str> for FilterValue {
    open spec fn obeys_from_spec() -> bool {
        false
    }

    open spec fn from_spec(s: &str) -> Self {
        arbitrary()
    }
}

impl From<i32> for FilterValue {
    fn from(i: i32) -> (v: Self) {
        Self::Int(i)
    }
}

impl FromSpecImpl<i32> for FilterValue {
    open spec fn obeys_from_spec() -> bool {
        true
    }

    open spec fn from_spec(i: i32) -> Self {
        FilterValue::Int(i)
    }
}

impl From<i64> for FilterValue {
    fn from(i: i64) -> (v: Self) {
        Self::BigInt(i)
    }
}

impl FromSpecImpl<i64> for FilterValue {
    open spec fn obeys_from_spec() -> bool {
        true
    }

    open spec fn from_spec(i: i64) -> Self {
        FilterValue::BigInt(i)
    }
}

impl From<bool> for FilterValue {
    fn from(b: bool) -> (v: Self) {
        Self::Bool(b)
    }
}

impl FromSpecImpl<bool> for FilterValue {
    open spec fn obeys_from_spec() -> bool {
        true
    }

    open spec fn from_spec(b: bool) -> Self {
        FilterValue::Bool(b)
    }
}

impl From<Filter> for FilterValue {
    fn from(f: Filter) -> (v: Self) {
        Self::Object(f)
    }
}

impl FromSpecImpl<Filter> for FilterValue {
    open spec fn obeys_from_spec() -> bool {
        true
    }

    open spec fn from_spec(f: Filter) -> Self {
        FilterValue::Object(f)
    }
}

impl<T: Into<FilterValue>> From<Vec<T>> for FilterValue {
    /// The list of the converted items, in order.
    fn from(v: Vec<T>) -> (r: Self)
        ensures
            converted_list(v@, r),
    {
        let mut items: Vec<FilterValue> = Vec::new();
        for item in it: v.into_iter()
            invariant
                it.seq() == v@,
                items@.len() == it.index(),
                forall|i: int| 0 <= i < items@.len() ==> converted(v@[i], #[trigger] items@[i]),
        {
            let value: FilterValue = item.into();
            items.push(value);
        }
        Self::Vec(items)
    }
}

impl<T: Into<FilterValue>> FromSpecImpl<Vec<T>> for FilterValue {
    open spec fn obeys_from_spec() -> bool {
        false
    }

    open spec fn from_spec(v: Vec<T>) -> Self {
        arbitrary()
    }
}

impl FilterValue {
    /// A snapshot of the filter that the builder `f` holds, as a nested
    /// value.
    pub fn from_model_filter<T: ModelFilter>(f: T) -> (v: Self)
        ensures
            v@ == ValueModel::Object(f.model()),
    {
        Self::Object(f.get_filter().clone())
    }
}

/// `v` is the identifier `id` in its canonical string form: none where the
/// identifier has no value, else what `to_canonical` gave for its value.
pub open spec fn canonical_id<M: Model, I: IdGuard>(id: Id<M, I>, v: FilterValue) -> bool {
    match id.inner {
        Some(i) => v matches FilterValue::Id(Some(s)) && call_ensures(I::to_canonical, (&i,), s),
        None => v == FilterValue::Id(None),
    }
}

impl<M: Model, I: IdGuard> From<Id<M, I>> for FilterValue {
    /// The identifier in its canonical string form.
    fn from(id: Id<M, I>) -> (v: Self)
        ensures
            canonical_id(id, v),
    {
        match &id.inner {
            Some(i) => Self::Id(Some(i.to_canonical())),
            None => Self::Id(None),
        }
    }
}

impl<M: Model, I: IdGuard> FromSpecImpl<Id<M, I>> for FilterValue {
    open spec fn obeys_from_spec() -> bool {
        false
    }

    open spec fn from_spec(id: Id<M, I>) -> Self {
        arbitrary()
    }
}

impl<M: Model, I: IdGuard> From<&Id<M, I>> for FilterValue {
    /// The identifier in its canonical string form.
    fn from(id: &Id<M, I>) -> (v: Self)
        ensures
            canonical_id(*id, v),
    {
        match &id.inner {
            Some(i) => Self::Id(Some(i.to_canonical())),
            None => Self::Id(None),
        }
    }
}

impl<M: Model, I: IdGuard> FromSpecImpl<&Id<M, I>> for FilterValue {
    open spec fn obeys_from_spec() -> bool {
        false
    }

    open spec fn from_spec(id: &Id<M, I>) -> Self {
        arbitrary()
    }
}

/// `v` is the identifier of the record that `r` refers to, in its canonical
/// string form.
pub open spec fn canonical_ref<M: Model>(r: Ref<M>, v: FilterValue) -> bool {
    match r {
        Ref::Id(held) => canonical_id(held, v),
        Ref::Model(model) => exists|own: &Id<M, <M as Model>::Id>|
            call_ensures(M::id, (&model,), own) && canonical_id(*own, v),
    }
}

impl<M: Model> From<Ref<M>> for FilterValue {
    /// The identifier of the record referred to, in its canonical string form.
    fn from(r: Ref<M>) -> (v: Self)
        ensures
            canonical_ref(r, v),
    {
        FilterValue::from(r.id())
    }
}

impl<M: Model> FromSpecImpl<Ref<M>> for FilterValue {
    open spec fn obeys_from_spec() -> bool {
        false
    }

    open spec fn from_spec(r: Ref<M>) -> Self {
        arbitrary()
    }
}

impl<M: Model> From<&Ref<M>> for FilterValue {
    /// The identifier of the record referred to, in its canonical string form.
    fn from(r: &Ref<M>) -> (v: Self)
        ensures
            canonical_ref(*r, v),
    {
        FilterValue::from(r.id())
    }
}

impl<M: Model> FromSpecImpl<&Ref<M>> for FilterValue {
    open spec fn obeys_from_spec() -> bool {
        false
    }

    open spec fn from_spec(r: &Ref<M>) -> Self {
        arbitrary()
    }
}

} // verus!
