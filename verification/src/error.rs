//! The errors of the library.
use vstd::prelude::*;
use vstd::std_specs::convert::FromSpecImpl;

verus! {

/// An error of the MongoDB driver.
#[verifier::external_type_specification]
#[verifier::external_body]
pub struct ExMongoError(mongodb::error::Error);

/// An error of parsing an ObjectId.
#[verifier::external_type_specification]
#[verifier::external_body]
pub struct ExObjectIdError(bson::oid::Error);

/// An error of serializing to BSON.
#[verifier::external_type_specification]
#[verifier::external_body]
pub struct ExBsonSerError(bson::ser::Error);

/// An error of deserializing from BSON.
#[verifier::external_type_specification]
#[verifier::external_body]
pub struct ExBsonDeError(bson::de::Error);

/// An error that holds a message or any other error.
#[verifier::external_type_specification]
#[verifier::external_body]
pub struct ExAnyhowError(anyhow::Error);

/// What can go wrong in the library.
#[derive(Debug)]
pub enum MustyError {
    /// The MongoDB driver failed.
    Mongo(mongodb::error::Error),
    /// The server did not hand back the document that it stored.
    MongoServerFailedToReturnUpdatedDoc,
    /// The server did not hand back the ObjectId of the document that it stored.
    MongoServerFailedToReturnObjectId,
    /// The operation needs a record whose identifier has a value.
    MongoModelIdRequiredForOperation,
    /// A string is not the notation of an ObjectId.
    ObjectId(bson::oid::Error),
    /// A value could not be serialized to BSON.
    BsonSerialization(bson::ser::Error),
    /// A value could not be deserialized from BSON.
    BsonDeserialization(bson::de::Error),
    /// Anything else, with its message.
    Other(anyhow::Error),
}

/// `anyhow::Error::msg`: an error made of a message alone.
#[verifier::external_body]
pub(crate) fn adhoc_error(message: &str) -> anyhow::Error {
    anyhow::Error::msg(message.to_owned())
}

/// The text that `mongodb::error::Error` displays.
#[verifier::external_body]
fn mongo_error_text(e: &mongodb::error::Error) -> String {
    e.to_string()
}

/// The text that `bson::oid::Error` displays.
#[verifier::external_body]
fn object_id_error_text(e: &bson::oid::Error) -> String {
    e.to_string()
}

/// The text that `bson::ser::Error` displays.
#[verifier::external_body]
fn bson_ser_error_text(e: &bson::ser::Error) -> String {
    e.to_string()
}

/// The text that `bson::de::Error` displays.
#[verifier::external_body]
fn bson_de_error_text(e: &bson::de::Error) -> String {
    e.to_string()
}

/// The text that `anyhow::Error` displays.
#[verifier::external_body]
fn anyhow_error_text(e: &anyhow::Error) -> String {
    e.to_string()
}

impl MustyError {
    /// An error that holds `message` alone.
    pub fn other(message: &str) -> (e: Self)
        ensures
            e is Other,
    {
        MustyError::Other(adhoc_error(message))
    }

    /// The fixed text of the error, where it has one; an error that wraps
    /// another one shows the text of that one.
    pub open spec fn fixed_message(&self) -> Option<Seq<char>> {
        match self {
            MustyError::MongoServerFailedToReturnUpdatedDoc => Some(
                "MongoDB server failed to return the updated document"@,
            ),
            MustyError::MongoServerFailedToReturnObjectId => Some(
                "MongoDB server failed to return the ObjectID of the updated document"@,
            ),
            MustyError::MongoModelIdRequiredForOperation => Some(
                "Model requires an ObjectID for this operation"@,
            ),
            _ => None,
        }
    }

    /// The text of the error.
    pub fn message(&self) -> (s: String)
        ensures
            self.fixed_message() matches Some(text) ==> s@ == text,
    {
        match self {
            MustyError::Mongo(e) => mongo_error_text(e),
            MustyError::MongoServerFailedToReturnUpdatedDoc => {
                "MongoDB server failed to return the updated document".to_owned()
            },
            MustyError::MongoServerFailedToReturnObjectId => {
                "MongoDB server failed to return the ObjectID of the updated document".to_owned()
            },
            MustyError::MongoModelIdRequiredForOperation => {
                "Model requires an ObjectID for this operation".to_owned()
            },
            MustyError::ObjectId(e) => object_id_error_text(e),
            MustyError::BsonSerialization(e) => bson_ser_error_text(e),
            MustyError::BsonDeserialization(e) => bson_de_error_text(e),
            MustyError::Other(e) => anyhow_error_text(e),
        }
    }
}

impl From<mongodb::error::Error> for MustyError {
    fn from(e: mongodb::error::Error) -> (r: Self) {
        MustyError::Mongo(e)
    }
}

impl FromSpecImpl<mongodb::error::Error> for MustyError {
    open spec fn obeys_from_spec() -> bool {
        true
    }

    open spec fn from_spec(e: mongodb::error::Error) -> Self {
        MustyError::Mongo(e)
    }
}

impl From<bson::oid::Error> for MustyError {
    fn from(e: bson::oid::Error) -> (r: Self) {
        MustyError::ObjectId(e)
    }
}

impl FromSpecImpl<bson::oid::Error> for MustyError {
    open spec fn obeys_from_spec() -> bool {
        true
    }

    open spec fn from_spec(e: bson::oid::Error) -> Self {
        MustyError::ObjectId(e)
    }
}

impl From<bson::ser::Error> for MustyError {
    fn from(e: bson::ser::Error) -> (r: Self) {
        MustyError::BsonSerialization(e)
    }
}

impl FromSpecImpl<bson::ser::Error> for MustyError {
    open spec fn obeys_from_spec() -> bool {
        true
    }

    open spec fn from_spec(e: bson::ser::Error) -> Self {
        MustyError::BsonSerialization(e)
    }
}

impl From<bson::de::Error> for MustyError {
    fn from(e: bson::de::Error) -> (r: Self) {
        MustyError::BsonDeserialization(e)
    }
}

impl FromSpecImpl<bson::de::Error> for MustyError {
    open spec fn obeys_from_spec() -> bool {
        true
    }

    open spec fn from_spec(e: bson::de::Error) -> Self {
        MustyError::BsonDeserialization(e)
    }
}

impl From<anyhow::Error> for MustyError {
    fn from(e: anyhow::Error) -> (r: Self) {
        MustyError::Other(e)
    }
}

impl FromSpecImpl<anyhow::Error> for MustyError {
    open spec fn obeys_from_spec() -> bool {
        true
    }

    open spec fn from_spec(e: anyhow::Error) -> Self {
        MustyError::Other(e)
    }
}

} // verus!
