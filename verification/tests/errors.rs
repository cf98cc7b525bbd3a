use musty::backend::{
    begin_delete, begin_find_one, begin_get, begin_save, finish_delete, finish_save, next_item,
    Request,
};
use musty::error::MustyError;
use musty::id::Id;
use musty::model::Model;

#[derive(Debug, Clone, PartialEq)]
struct User {
    id: Id<User, u32>,
    name: String,
}

impl Model for User {
    type Id = u32;

    fn id(&self) -> &Id<Self, u32> {
        &self.id
    }

    fn set_id(&mut self, id: Id<Self, u32>) {
        self.id = id;
    }
}

#[test]
fn fixed_errors_have_their_fixed_text() {
    assert_eq!(
        MustyError::MongoServerFailedToReturnUpdatedDoc.message(),
        "MongoDB server failed to return the updated document"
    );
    assert_eq!(
        MustyError::MongoServerFailedToReturnObjectId.message(),
        "MongoDB server failed to return the ObjectID of the updated document"
    );
    assert_eq!(
        MustyError::MongoModelIdRequiredForOperation.message(),
        "Model requires an ObjectID for this operation"
    );
}

#[test]
fn wrapped_errors_show_the_text_of_what_they_wrap() {
    let other = MustyError::other("Could not save model: no collection found");
    assert!(matches!(other, MustyError::Other(_)));
    assert_eq!(other.message(), "Could not save model: no collection found");

    let from_anyhow = MustyError::from(anyhow::Error::msg("boom"));
    assert!(matches!(from_anyhow, MustyError::Other(_)));
    assert_eq!(from_anyhow.message(), "boom");

    let oid = bson::oid::ObjectId::parse_str("xyz").unwrap_err();
    let text = oid.to_string();
    let e = MustyError::from(oid);
    assert!(matches!(e, MustyError::ObjectId(_)));
    assert_eq!(e.message(), text);

    let ser = bson::to_bson(&u64::MAX).unwrap_err();
    let text = ser.to_string();
    let e = MustyError::from(ser);
    assert!(matches!(e, MustyError::BsonSerialization(_)));
    assert_eq!(e.message(), text);

    let de = bson::from_bson::<String>(bson::Bson::Int32(1)).unwrap_err();
    let text = de.to_string();
    let e = MustyError::from(de);
    assert!(matches!(e, MustyError::BsonDeserialization(_)));
    assert_eq!(e.message(), text);

    let mongo = mongodb::error::Error::custom("driver".to_string());
    let text = mongo.to_string();
    let e = MustyError::from(mongo);
    assert!(matches!(e, MustyError::Mongo(_)));
    assert_eq!(e.message(), text);
}

#[test]
fn getting_needs_a_collection_to_ask() {
    assert_eq!(begin_get(true), Some(Request::FindById));
    assert_eq!(begin_get(false), None);
}

#[test]
fn saving_replaces_by_identifier_or_inserts() {
    let with: Id<User, u32> = Id::from(1);
    let without: Id<User, u32> = Id::default();
    assert!(matches!(begin_save(true, &with), Ok(Request::ReplaceById)));
    assert!(matches!(begin_save(true, &without), Ok(Request::ReplaceAny)));
    for id in [&with, &without] {
        match begin_save(false, id) {
            Err(e @ MustyError::Other(_)) => {
                assert_eq!(e.message(), "Could not save model: no collection found")
            }
            other => panic!("not refused: {:?}", other),
        }
    }
}

#[test]
fn a_saved_record_takes_over_the_stored_identifier() {
    let mut user = User { id: Id::default(), name: "jonah".to_string() };
    let stored = User { id: Id::from(9), name: "stored".to_string() };
    assert!(matches!(finish_save(&mut user, Some(stored)), Ok(false)));
    assert_eq!(user, User { id: Id::from(9), name: "jonah".to_string() });
}

#[test]
fn a_server_that_hands_nothing_back_has_failed() {
    let mut user = User { id: Id::from(3), name: "jonah".to_string() };
    assert!(matches!(
        finish_save(&mut user, None),
        Err(MustyError::MongoServerFailedToReturnUpdatedDoc)
    ));
    assert_eq!(user, User { id: Id::from(3), name: "jonah".to_string() });
}

#[test]
fn deleting_needs_an_identifier_first_and_a_collection_second() {
    let with: Id<User, u32> = Id::from(1);
    let without: Id<User, u32> = Id::default();
    assert!(matches!(begin_delete(true, &with), Ok(Request::DeleteById)));
    assert!(matches!(
        begin_delete(true, &without),
        Err(MustyError::MongoModelIdRequiredForOperation)
    ));
    assert!(matches!(
        begin_delete(false, &without),
        Err(MustyError::MongoModelIdRequiredForOperation)
    ));
    match begin_delete(false, &with) {
        Err(e @ MustyError::Other(_)) => {
            assert_eq!(e.message(), "Could not delete model: no collection found")
        }
        other => panic!("not refused: {:?}", other),
    }
}

#[test]
fn a_record_is_deleted_when_the_server_deleted_a_document() {
    assert!(!finish_delete(0));
    assert!(finish_delete(1));
    assert!(finish_delete(u64::MAX));
}

#[test]
fn finding_needs_a_collection() {
    assert!(matches!(begin_find_one(true), Ok(Request::FindOne)));
    match begin_find_one(false) {
        Err(e @ MustyError::Other(_)) => {
            assert_eq!(e.message(), "Could not delete model: no collection found")
        }
        other => panic!("not refused: {:?}", other),
    }
}

#[test]
fn a_cursor_hands_on_records_and_wraps_errors() {
    assert!(next_item::<u8>(None).is_none());
    assert!(matches!(next_item(Some(Ok(5u8))), Some(Ok(5))));
    let e = mongodb::error::Error::custom("driver".to_string());
    assert!(matches!(next_item::<u8>(Some(Err(e))), Some(Err(MustyError::Mongo(_)))));
}
