use musty::filter::builder::ModelFilter;
use musty::filter::model::FilterModel;
use musty::filter::op::FilterCmpOp;
use musty::filter::tree::{Filter, FilterCondition};
use musty::filter::value::FilterValue;
use musty::id::Id;
use musty::model::Model;
use musty::object_id::ObjectId;
use musty::reference::Ref;

#[derive(Debug, Clone, PartialEq)]
struct Post {
    id: Id<Post, i64>,
}

impl Model for Post {
    type Id = i64;

    fn id(&self) -> &Id<Self, i64> {
        &self.id
    }

    fn set_id(&mut self, id: Id<Self, i64>) {
        self.id = id;
    }
}

#[derive(Debug, Clone)]
struct PostFilter {
    filter: Filter,
}

impl ModelFilter for PostFilter {
    // Specification only: what the builder stands for. Never called.
    fn model(&self) -> FilterModel {
        unreachable!()
    }

    fn new() -> Self {
        Self { filter: Filter::new() }
    }

    fn get_filter(&self) -> &Filter {
        &self.filter
    }

    fn get_filter_mut(&mut self) -> &mut Filter {
        &mut self.filter
    }
}

#[test]
fn plain_values_keep_their_variant() {
    assert!(matches!(FilterValue::from("a".to_string()), FilterValue::String(s) if s == "a"));
    assert!(matches!(FilterValue::from("b"), FilterValue::String(s) if s == "b"));
    assert!(matches!(FilterValue::from(-7i32), FilterValue::Int(-7)));
    assert!(matches!(FilterValue::from(1i64 << 40), FilterValue::BigInt(v) if v == 1 << 40));
    assert!(matches!(FilterValue::from(false), FilterValue::Bool(false)));
}

#[test]
fn a_filter_becomes_an_object() {
    let mut f = Filter::new();
    f.add_condition(FilterCondition::new("a".to_string(), FilterCmpOp::Eq, 1.into()));
    match FilterValue::from(f) {
        FilterValue::Object(inner) => assert_eq!(inner.conditions()[0].key, "a"),
        other => panic!("not an object: {:?}", other),
    }
}

#[test]
fn a_builder_becomes_a_snapshot_of_its_filter() {
    let mut b = PostFilter::new();
    b.field::<i32>("n").eq(4);
    match FilterValue::from_model_filter(b.clone()) {
        FilterValue::Object(inner) => {
            assert_eq!(inner.conditions().len(), 1);
            assert_eq!(inner.conditions()[0].key, "n");
        }
        other => panic!("not an object: {:?}", other),
    }
    assert_eq!(b.build().conditions().len(), 1);
}

#[test]
fn a_list_converts_each_item_in_order() {
    match FilterValue::from(vec![3i32, 1, 2]) {
        FilterValue::Vec(items) => {
            assert_eq!(items.len(), 3);
            assert!(matches!(items[0], FilterValue::Int(3)));
            assert!(matches!(items[1], FilterValue::Int(1)));
            assert!(matches!(items[2], FilterValue::Int(2)));
        }
        other => panic!("not a list: {:?}", other),
    }
    match FilterValue::from(vec![vec!["a"], vec![]]) {
        FilterValue::Vec(items) => {
            assert!(matches!(&items[0], FilterValue::Vec(inner) if inner.len() == 1));
            assert!(matches!(&items[1], FilterValue::Vec(inner) if inner.is_empty()));
        }
        other => panic!("not a list: {:?}", other),
    }
    assert!(matches!(FilterValue::from(Vec::<bool>::new()), FilterValue::Vec(v) if v.is_empty()));
}

#[test]
fn an_identifier_becomes_its_canonical_string() {
    let id: Id<Post, i64> = Id::from(-42);
    assert!(matches!(FilterValue::from(&id), FilterValue::Id(Some(s)) if s == "-42"));
    assert!(matches!(FilterValue::from(id), FilterValue::Id(Some(s)) if s == "-42"));
    let none: Id<Post, i64> = Id::default();
    assert!(matches!(FilterValue::from(&none), FilterValue::Id(None)));
    assert!(matches!(FilterValue::from(none), FilterValue::Id(None)));
    let text: Id<Post, String> = Id::from("abc".to_string());
    assert!(matches!(FilterValue::from(text), FilterValue::Id(Some(s)) if s == "abc"));
    let oid: Id<Post, ObjectId> = Id::from(ObjectId { bytes: [0xab; 12] });
    assert!(
        matches!(FilterValue::from(oid), FilterValue::Id(Some(s)) if s == "abababababababababababab")
    );
}

#[test]
fn a_reference_becomes_the_identifier_it_refers_to() {
    let by_id: Ref<Post> = Ref::Id(Id::from(7));
    assert!(matches!(FilterValue::from(&by_id), FilterValue::Id(Some(s)) if s == "7"));
    assert!(matches!(FilterValue::from(by_id), FilterValue::Id(Some(s)) if s == "7"));
    let loaded: Ref<Post> = Ref::Model(Post { id: Id::from(8) });
    assert!(matches!(FilterValue::from(&loaded), FilterValue::Id(Some(s)) if s == "8"));
    assert!(matches!(FilterValue::from(loaded), FilterValue::Id(Some(s)) if s == "8"));
    let unsaved: Ref<Post> = Ref::Model(Post { id: Id::default() });
    assert!(matches!(FilterValue::from(unsaved), FilterValue::Id(None)));
}
