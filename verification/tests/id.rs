use musty::error::MustyError;
use musty::id::{DefaultType, Id, IdGuard};
use musty::model::Model;
use musty::object_id::ObjectId;
use musty::reference::Ref;

#[derive(Debug, Clone, PartialEq)]
struct User {
    id: Id<User, String>,
}

impl Model for User {
    type Id = String;

    fn id(&self) -> &Id<Self, String> {
        &self.id
    }

    fn set_id(&mut self, id: Id<Self, String>) {
        self.id = id;
    }
}

#[derive(Debug, Clone, PartialEq)]
struct Doc {
    id: Id<Doc, ObjectId>,
}

impl Model for Doc {
    type Id = ObjectId;

    fn id(&self) -> &Id<Self, ObjectId> {
        &self.id
    }

    fn set_id(&mut self, id: Id<Self, ObjectId>) {
        self.id = id;
    }
}

#[test]
fn serialize() {
    // What a serializer writes for an identifier is its inner value; an
    // identifier without one is skipped.
    let id: Id<User, String> = Id::from("abc".to_string());
    assert!(!id.is_none());
    assert_eq!(id.inner, Some("abc".to_string()));
    assert_eq!(id.inner.as_ref().map(|i| i.to_canonical()), Some("abc".to_string()));
    let none: Id<User, String> = Id::default();
    assert!(none.is_none());
    assert_eq!(none.inner, None);
}

#[test]
fn deserialize() {
    // A deserializer hands over an optional inner value.
    let some: Id<User, String> = Id::from("abc".to_string());
    let none: Id<User, String> = Id::default();
    assert_eq!(some.clone(), some);
    assert_ne!(some, none);
    let mut user = User { id: none };
    user.set_id(some.clone());
    assert_eq!(user.id(), &some);
}

#[test]
fn the_default_identifier_type_is_a_string() {
    let id: Id<User, DefaultType> = Id::from(String::from("x"));
    assert_eq!(id.inner.as_deref(), Some("x"));
}

#[test]
fn none_is_for_identifiers_that_the_database_generates() {
    let id: Id<Doc, ObjectId> = Id::none();
    assert!(id.is_none());
    assert_eq!(id, Id::default());
}

#[test]
fn integers_are_written_in_decimal() {
    assert_eq!(0u32.to_canonical(), "0");
    assert_eq!(7u32.to_canonical(), "7");
    assert_eq!(10u32.to_canonical(), "10");
    assert_eq!(u32::MAX.to_canonical(), "4294967295");
    assert_eq!(u64::MAX.to_canonical(), "18446744073709551615");
    assert_eq!(1_000_000u64.to_canonical(), "1000000");
    assert_eq!(0i32.to_canonical(), "0");
    assert_eq!((-1i32).to_canonical(), "-1");
    assert_eq!(i32::MIN.to_canonical(), "-2147483648");
    assert_eq!(i32::MAX.to_canonical(), "2147483647");
    assert_eq!(i64::MIN.to_canonical(), "-9223372036854775808");
    assert_eq!(i64::MAX.to_canonical(), "9223372036854775807");
    for n in [0i64, 9, 10, 99, 100, 101, -9, -10, -100, 123456789] {
        assert_eq!(n.to_canonical(), n.to_string());
    }
}

#[test]
fn a_reference_gives_the_identifier_it_holds_or_the_one_of_its_record() {
    let id: Id<User, String> = Id::from("a".to_string());
    let by_id = Ref::Id(id.clone());
    assert_eq!(by_id.id(), &id);
    assert_eq!(by_id.take_id(), id);
    let loaded = Ref::Model(User { id: Id::from("b".to_string()) });
    assert_eq!(loaded.id().inner.as_deref(), Some("b"));
    assert_eq!(loaded.take_id().inner, Some("b".to_string()));
    let unsaved = Ref::Model(User { id: Id::default() });
    assert!(unsaved.id().is_none());
    assert!(unsaved.take_id().is_none());
}

#[test]
fn object_ids_are_24_hexadecimal_digits() {
    let id = ObjectId::parse_str("0123456789abcdefABCDEF00").unwrap();
    assert_eq!(
        id.bytes,
        [0x01, 0x23, 0x45, 0x67, 0x89, 0xab, 0xcd, 0xef, 0xab, 0xcd, 0xef, 0x00]
    );
    assert_eq!(id.to_hex(), "0123456789abcdefabcdef00");
    assert_eq!(id.to_canonical(), "0123456789abcdefabcdef00");
    assert_eq!(ObjectId::parse_str(&id.to_hex()).unwrap(), id);
    assert_eq!(ObjectId { bytes: [0; 12] }.to_hex(), "000000000000000000000000");
    assert_eq!(ObjectId { bytes: [0xff; 12] }.to_hex(), "ffffffffffffffffffffffff");
}

#[test]
fn what_is_no_object_id_is_refused() {
    for s in [
        "",
        "0123456789abcdefabcdef0",
        "0123456789abcdefabcdef000",
        "0123456789abcdefabcdef0g",
        "0123456789abcdefabcdef 0",
        "éééééééééééé",
        "0123456789abcdefabcdeé",
    ] {
        assert!(matches!(ObjectId::parse_str(s), Err(MustyError::ObjectId(_))), "{s}");
    }
}

#[test]
fn an_identifier_gives_the_object_id_that_its_value_is_the_notation_of() {
    let id: Id<User, String> = Id::from("ffffffffffffffffffffffff".to_string());
    assert_eq!(ObjectId::from_id(&id).unwrap(), ObjectId { bytes: [0xff; 12] });
    let id: Id<Doc, ObjectId> = Id::from(ObjectId { bytes: [7; 12] });
    assert_eq!(ObjectId::from_id(&id).unwrap(), ObjectId { bytes: [7; 12] });
    let bad: Id<User, String> = Id::from("abc".to_string());
    assert!(matches!(ObjectId::from_id(&bad), Err(MustyError::ObjectId(_))));
    let number: Id<User, u32> = Id::from(12);
    assert!(matches!(ObjectId::from_id(&number), Err(MustyError::ObjectId(_))));
    let none: Id<User, String> = Id::default();
    match ObjectId::from_id(&none) {
        Err(e @ MustyError::Other(_)) => assert_eq!(e.message(), "Id is None"),
        other => panic!("not refused: {:?}", other),
    }
}
