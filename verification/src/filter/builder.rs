//! The builder protocol: a builder per record type, a cursor per field.
use vstd::prelude::*;
use vstd::std_specs::convert::IntoSpec;
use crate::filter::model::{ConditionModel, FilterModel, ValueModel};
use crate::filter::op::{FilterCmpOp, FilterLogicOp};
use crate::filter::tree::{Filter, FilterCondition};
use crate::filter::value::FilterValue;

verus! {

/// A builder session of one record type: it owns one filter and fills it.
pub trait ModelFilter: Sized + Clone {
    /// The model of the filter that the builder holds.
    spec fn model(&self) -> FilterModel;

    /// A builder that holds the empty filter.
    fn new() -> (b: Self)
        ensures
            b.model() == FilterModel::empty(),
    ;

    /// The filter that the builder holds.
    fn get_filter(&self) -> (f: &Filter)
        ensures
            f@ == self.model(),
    ;

    /// The filter that the builder holds, for changing in place.
    fn get_filter_mut(&mut self) -> (f: &mut Filter)
        ensures
            f@ == old(self).model(),
            final(self).model() == final(f)@,
    ;

    /// Files under `Any` what `func` builds with a fresh builder of this
    /// type.
    fn any<Func>(&mut self, func: Func) -> (r: &mut Self) where
        Func: FnOnce(&mut Self) -> &mut Self,

        requires
            forall|b: &mut Self| b.model() == FilterModel::empty() ==> call_requires(func, (b,)),
        ensures
            exists|b: &mut Self, out: &mut Self|
                b.model() == FilterModel::empty() && call_ensures(func, (b,), out) && *final(out)
                    == *out && r.model() == old(self).model().add_op_filter(
                    FilterLogicOp::Any,
                    final(b).model(),
                ),
            *final(self) == *final(r),
    {
        let mut filter = Self::new();
        func(&mut filter);
        self.get_filter_mut().add_op_filter(FilterLogicOp::Any, filter.get_filter().clone());
        self
    }

    /// Files under `All` what `func` builds with a fresh builder of this
    /// type.
    fn all<Func>(&mut self, func: Func) -> (r: &mut Self) where
        Func: FnOnce(&mut Self) -> &mut Self,

        requires
            forall|b: &mut Self| b.model() == FilterModel::empty() ==> call_requires(func, (b,)),
        ensures
            exists|b: &mut Self, out: &mut Self|
                b.model() == FilterModel::empty() && call_ensures(func, (b,), out) && *final(out)
                    == *out && r.model() == old(self).model().add_op_filter(
                    FilterLogicOp::All,
                    final(b).model(),
                ),
            *final(self) == *final(r),
    {
        let mut filter = Self::new();
        func(&mut filter);
        self.get_filter_mut().add_op_filter(FilterLogicOp::All, filter.get_filter().clone());
        self
    }

    /// A cursor for the field `name`, whose values have the type `T`.
    fn field<T: Into<FilterValue>>(&mut self, name: &str) -> (c: ModelFieldFilter<'_, Self, T>)
        ensures
            c.name() == name@,
            *c.builder() == *old(self),
            *final(self) == *final(c.builder()),
    {
        ModelFieldFilter::new(name, self)
    }

    /// A snapshot of the filter built so far.
    fn build(&self) -> (f: Filter)
        ensures
            f@ == self.model(),
    {
        self.get_filter().clone()
    }
}

/// Composition with the builders of child records. Every builder has it.
pub trait ChildFilter: ModelFilter {
    /// Files under the child `name` what `func` builds with a fresh builder of
    /// the child's type.
    fn child<C, Func>(&mut self, name: &str, func: Func) where
        C: ModelFilter,
        Func: FnOnce(&mut C) -> &mut C,

        requires
            forall|c: &mut C| c.model() == FilterModel::empty() ==> call_requires(func, (c,)),
        ensures
            exists|c: &mut C, out: &mut C|
                c.model() == FilterModel::empty() && call_ensures(func, (c,), out) && *final(out)
                    == *out && final(self).model() == old(self).model().add_child(
                    name@,
                    final(c).model(),
                ),
    {
        let mut child_model_filter = C::new();
        func(&mut child_model_filter);
        self.get_filter_mut().add_child(name.to_owned(), child_model_filter.get_filter().clone());
    }
}

impl<B: ModelFilter> ChildFilter for B {

}

/// A record type that filters can be built for.
pub trait Filterable: Sized {
    /// The builder of this record type.
    type ModelFilter: ModelFilter;

    /// A fresh builder for this record type.
    fn filter() -> (b: Self::ModelFilter)
        ensures
            b.model() == FilterModel::empty(),
    {
        <Self::ModelFilter as ModelFilter>::new()
    }
}

/// A cursor bound to one field of a builder and to one type of value. Each
/// of its operations files one condition with the builder and hands the
/// builder back.
pub struct ModelFieldFilter<'f, F, T> {
    field_name: String,
    model_filter: &'f mut F,
    _field_type_marker: std::marker::PhantomData<T>,
}

/// `v` is what converting `value` into a filter value gave.
pub open spec fn converted<T: Into<FilterValue>>(value: T, v: FilterValue) -> bool {
    &&& call_ensures(T::into, (value,), v)
    &&& T::obeys_into_spec() ==> v == value.into_spec()
}

/// `list` is the list of what converting each of `items` into a filter value
/// gave, in order.
pub open spec fn converted_list<T: Into<FilterValue>>(items: Seq<T>, list: FilterValue) -> bool {
    &&& list matches FilterValue::Vec(values)
    &&& values@.len() == items.len()
    &&& forall|i: int| 0 <= i < items.len() ==> converted(items[i], #[trigger] values@[i])
}

/// The condition that the field `key` satisfies `op` against `value`.
pub open spec fn condition_model(
    key: Seq<char>,
    op: FilterCmpOp,
    value: ValueModel,
) -> ConditionModel {
    ConditionModel { key, op, value }
}

impl<'f, F, T> ModelFieldFilter<'f, F, T> {
    /// The name of the field that the cursor is bound to.
    pub closed spec fn name(&self) -> Seq<char> {
        self.field_name@
    }

    /// The builder that the cursor is bound to.
    pub closed spec fn builder(&self) -> &'f mut F {
        self.model_filter
    }

    /// A cursor for the field `field_name` of the builder `model_filter`.
    pub fn new(field_name: &str, model_filter: &'f mut F) -> (c: Self)
        ensures
            c.name() == field_name@,
            *c.builder() == *old(model_filter),
            *final(c.builder()) == *final(model_filter),
    {
        Self {
            field_name: field_name.to_owned(),
            model_filter,
            _field_type_marker: std::marker::PhantomData,
        }
    }
}

impl<'f, F, T> ModelFieldFilter<'f, F, T> where F: ModelFilter, T: Into<FilterValue> {
    /// Files the condition that the field satisfies `op` against `value`.
    fn condition(self, value: T, op: FilterCmpOp) -> (r: &'f mut F)
        ensures
            exists|v: FilterValue|
                converted(value, v) && r.model() == self.builder().model().add_condition(
                    condition_model(self.name(), op, v@),
                ),
            *final(r) == *final(self.builder()),
    {
        let ghost before = self.model_filter.model();
        let v: FilterValue = value.into();
        let condition = FilterCondition::new(self.field_name.clone(), op, v);
        self.model_filter.get_filter_mut().add_condition(condition);
        assert(converted(value, v) && self.model_filter.model() == before.add_condition(
            condition_model(self.name(), op, v@),
        ));
        self.model_filter
    }

    /// Files the condition that the field equals `value`.
    pub fn eq(self, value: T) -> (r: &'f mut F)
        ensures
            exists|v: FilterValue|
                converted(value, v) && r.model() == self.builder().model().add_condition(
                    condition_model(self.name(), FilterCmpOp::Eq, v@),
                ),
            *final(r) == *final(self.builder()),
    {
        self.condition(value, FilterCmpOp::Eq)
    }

    /// Files the condition that the field differs from `value`.
    pub fn ne(self, value: T) -> (r: &'f mut F)
        ensures
            exists|v: FilterValue|
                converted(value, v) && r.model() == self.builder().model().add_condition(
                    condition_model(self.name(), FilterCmpOp::Ne, v@),
                ),
            *final(r) == *final(self.builder()),
    {
        self.condition(value, FilterCmpOp::Ne)
    }

    /// Files the condition that the field is greater than `value`.
    pub fn gt(self, value: T) -> (r: &'f mut F) where T: std::cmp::PartialOrd
        ensures
            exists|v: FilterValue|
                converted(value, v) && r.model() == self.builder().model().add_condition(
                    condition_model(self.name(), FilterCmpOp::Gt, v@),
                ),
            *final(r) == *final(self.builder()),
    {
        self.condition(value, FilterCmpOp::Gt)
    }

    /// Files the condition that the field is less than `value`.
    pub fn lt(self, value: T) -> (r: &'f mut F) where T: std::cmp::PartialOrd
        ensures
            exists|v: FilterValue|
                converted(value, v) && r.model() == self.builder().model().add_condition(
                    condition_model(self.name(), FilterCmpOp::Lt, v@),
                ),
            *final(r) == *final(self.builder()),
    {
        self.condition(value, FilterCmpOp::Lt)
    }

    /// Files the condition that the field is greater than or equal to
    /// `value`.
    pub fn ge(self, value: T) -> (r: &'f mut F) where T: std::cmp::PartialOrd
        ensures
            exists|v: FilterValue|
                converted(value, v) && r.model() == self.builder().model().add_condition(
                    condition_model(self.name(), FilterCmpOp::Ge, v@),
                ),
            *final(r) == *final(self.builder()),
    {
        self.condition(value, FilterCmpOp::Ge)
    }

    /// Files the condition that the field is less than or equal to `value`.
    pub fn le(self, value: T) -> (r: &'f mut F) where T: std::cmp::PartialOrd
        ensures
            exists|v: FilterValue|
                converted(value, v) && r.model() == self.builder().model().add_condition(
                    condition_model(self.name(), FilterCmpOp::Le, v@),
                ),
            *final(r) == *final(self.builder()),
    {
        self.condition(value, FilterCmpOp::Le)
    }

    /// Files under `Any` the one condition that the field equals the list of
    /// values that `func` enters: the field's value is one of them.
    pub fn any<Func>(self, func: Func) -> (r: &'f mut F) where
        Func: FnOnce(&mut ModelFieldVecFilter<T>) -> &mut ModelFieldVecFilter<T>,

        requires
            forall|v: &mut ModelFieldVecFilter<T>|
                v@ == Seq::<T>::empty() ==> call_requires(func, (v,)),
        ensures
            exists|
                v: &mut ModelFieldVecFilter<T>,
                out: &mut ModelFieldVecFilter<T>,
                list: FilterValue,
            |
                v@ == Seq::<T>::empty() && call_ensures(func, (v,), out) && *final(out) == *out
                    && converted_list(final(v)@, list) && r.model()
                    == self.builder().model().add_op_condition(
                    FilterLogicOp::Any,
                    condition_model(self.name(), FilterCmpOp::Eq, list@),
                ),
            *final(r) == *final(self.builder()),
    {
        let ghost before = self.model_filter.model();
        let mut vec_filter = ModelFieldVecFilter::<T>::new();
        func(&mut vec_filter);
        let ghost entered = vec_filter@;
        let list = FilterValue::from(vec_filter.items);
        let condition = FilterCondition::new(self.field_name.clone(), FilterCmpOp::Eq, list);
        self.model_filter.get_filter_mut().add_op_condition(FilterLogicOp::Any, condition);
        assert(converted_list(entered, list) && self.model_filter.model()
            == before.add_op_condition(
            FilterLogicOp::Any,
            condition_model(self.name(), FilterCmpOp::Eq, list@),
        ));
        self.model_filter
    }

    /// Files under `All` the one condition that the field equals the list of
    /// values that `func` enters.
    pub fn all<Func>(self, func: Func) -> (r: &'f mut F) where
        Func: FnOnce(&mut ModelFieldVecFilter<T>) -> &mut ModelFieldVecFilter<T>,

        requires
            forall|v: &mut ModelFieldVecFilter<T>|
                v@ == Seq::<T>::empty() ==> call_requires(func, (v,)),
        ensures
            exists|
                v: &mut ModelFieldVecFilter<T>,
                out: &mut ModelFieldVecFilter<T>,
                list: FilterValue,
            |
                v@ == Seq::<T>::empty() && call_ensures(func, (v,), out) && *final(out) == *out
                    && converted_list(final(v)@, list) && r.model()
                    == self.builder().model().add_op_condition(
                    FilterLogicOp::All,
                    condition_model(self.name(), FilterCmpOp::Eq, list@),
                ),
            *final(r) == *final(self.builder()),
    {
        let ghost before = self.model_filter.model();
        let mut vec_filter = ModelFieldVecFilter::<T>::new();
        func(&mut vec_filter);
        let ghost entered = vec_filter@;
        let list = FilterValue::from(vec_filter.items);
        let condition = FilterCondition::new(self.field_name.clone(), FilterCmpOp::Eq, list);
        self.model_filter.get_filter_mut().add_op_condition(FilterLogicOp::All, condition);
        assert(converted_list(entered, list) && self.model_filter.model()
            == before.add_op_condition(
            FilterLogicOp::All,
            condition_model(self.name(), FilterCmpOp::Eq, list@),
        ));
        self.model_filter
    }
}

impl<'f, F, T> ModelFieldFilter<'f, F, Vec<T>> where F: ModelFilter, T: Into<FilterValue> {
    /// For a field that holds a list: files under `Any` the one condition
    /// that the field equals the list of values that `func` enters.
    pub fn contains<Func>(self, func: Func) -> (r: &'f mut F) where
        Func: FnOnce(&mut ModelFieldVecFilter<T>) -> &mut ModelFieldVecFilter<T>,

        requires
            forall|v: &mut ModelFieldVecFilter<T>|
                v@ == Seq::<T>::empty() ==> call_requires(func, (v,)),
        ensures
            exists|
                v: &mut ModelFieldVecFilter<T>,
                out: &mut ModelFieldVecFilter<T>,
                list: FilterValue,
            |
                v@ == Seq::<T>::empty() && call_ensures(func, (v,), out) && *final(out) == *out
                    && converted_list(final(v)@, list) && r.model()
                    == self.builder().model().add_op_condition(
                    FilterLogicOp::Any,
                    condition_model(self.name(), FilterCmpOp::Eq, list@),
                ),
            *final(r) == *final(self.builder()),
    {
        let ghost before = self.model_filter.model();
        let mut vec_filter = ModelFieldVecFilter::<T>::new();
        func(&mut vec_filter);
        let ghost entered = vec_filter@;
        let list = FilterValue::from(vec_filter.items);
        let condition = FilterCondition::new(self.field_name.clone(), FilterCmpOp::Eq, list);
        self.model_filter.get_filter_mut().add_op_condition(FilterLogicOp::Any, condition);
        assert(converted_list(entered, list) && self.model_filter.model()
            == before.add_op_condition(
            FilterLogicOp::Any,
            condition_model(self.name(), FilterCmpOp::Eq, list@),
        ));
        self.model_filter
    }
}

/// `From::from` of a type for itself, which makes `Into` reflexive: the
/// conversion of a value into its own type hands the value back.
pub assume_specification<Same>[ <Same as std::convert::From<Same>>::from ](t: Same) -> (r: Same)
    ensures
        r == t,
;

/// The list of values that a membership test compares a field against.
pub struct ModelFieldVecFilter<T> {
    items: Vec<T>,
    _field_type_marker: std::marker::PhantomData<T>,
}

impl<T> View for ModelFieldVecFilter<T> {
    type V = Seq<T>;

    closed spec fn view(&self) -> Seq<T> {
        self.items@
    }
}

impl<T> ModelFieldVecFilter<T> {
    /// The empty list.
    pub fn new() -> (v: Self)
        ensures
            v@ == Seq::<T>::empty(),
    {
        Self { items: Vec::new(), _field_type_marker: std::marker::PhantomData }
    }

    /// Appends `item`, converted to the type of the field's values.
    pub fn entry<N: Into<T>>(&mut self, item: N) -> (r: &mut Self)
        ensures
            exists|v: T| call_ensures(N::into, (item,), v) && r@ == old(self)@.push(v),
            N::obeys_into_spec() ==> r@ == old(self)@.push(item.into_spec()),
            *final(self) == *final(r),
    {
        let value: T = item.into();
        self.items.push(value);
        assert(call_ensures(N::into, (item,), value) && self@ == old(self)@.push(value));
        self
    }

    /// The values in the order in which they were appended.
    pub fn into_items(self) -> (items: Vec<T>)
        ensures
            items@ == self@,
    {
        self.items
    }
}

} // verus!
