//! Why nothing can be derived for a struct.
use vstd::prelude::*;

verus! {

/// Why nothing can be derived for a struct.
#[derive(Debug, Clone, Copy, PartialEq, Eq, Structural)]
pub enum DeriveError {
    /// No field is marked as the identifier or named `id`.
    MissingId,
    /// The type of the identifier field is no path.
    IdNotAPath,
    /// The path of the identifier's type has no segment.
    IdTypeEmpty,
    /// The identifier's type is not `Id`.
    IdNotAnId,
    /// `Id` stands without generic arguments.
    IdWithoutArguments,
    /// The first generic argument of `Id` is not `Self`.
    FirstArgumentNotSelf,
    /// The last generic argument of `Id` is no path.
    LastArgumentNotAType,
    /// The last generic argument of `Id` is not one identifier.
    LastArgumentNotAnIdent,
    /// A `#[serde]` attribute cannot be read.
    MalformedAttribute,
    /// A `#[serde]` attribute has no list between brackets.
    AttributeNotAList,
    /// A `#[serde]` attribute holds a literal.
    UnexpectedLiteral,
    /// `rename` is not set to a string.
    RenameUnreadable,
    /// `rename` of the identifier of a MongoDB record is not `_id`.
    RenameNotUnderscoreId,
    /// `skip_serializing_if` is not set to a string.
    SkipUnreadable,
    /// `skip_serializing_if` of the identifier is not `Id::is_none`.
    SkipNotIsNone,
    /// The identifier of a MongoDB record lacks `rename` or
    /// `skip_serializing_if`.
    MissingMongoSerdeAttributes,
    /// The identifier lacks `skip_serializing_if`.
    MissingSerdeAttributes,
    /// The type of the identifier field of a struct that is to be rewritten
    /// is no path.
    RawIdNotAPath,
    /// The type of the identifier field is not `Id` with arguments.
    IdNotAnIdType,
    /// The last generic argument of `Id` is no path.
    IdArgumentUnreadable,
    /// The type of a child field is neither a path nor a reference to one.
    ChildNotAPath,
    /// The type of a child field is not one identifier.
    ChildNotAnIdent,
}

impl DeriveError {
    /// The text that is shown for the error. A text that begins with a
    /// space follows the name of the struct; the empty text stands for a
    /// rendering of the type that could not be read.
    pub fn message(&self) -> (s: &'static str)
        ensures
            s@ == self.message_spec(),
    {
        match self {
            DeriveError::MissingId => " must have an `id` field",
            DeriveError::IdNotAPath => "`id` field must be a path",
            DeriveError::IdTypeEmpty => "Id type is empty",
            DeriveError::IdNotAnId => "`id` field must be of type `musty::prelude::Id`",
            DeriveError::IdWithoutArguments => {
                "Id type must have generic arguments `<Self, YourIdType>` where `YourdIdType` implements `musty::prelude::IdGuard`"
            },
            DeriveError::FirstArgumentNotSelf => {
                "First generic argument of `Id` type should be `Self`: `Id<Self, ..>`"
            },
            DeriveError::LastArgumentNotAType => {
                "Last generic argument of `Id` type should be any type that implements `musty::prelude::IdGuard`: `Id<Self, YourIdType>`"
            },
            DeriveError::LastArgumentNotAnIdent => {
                "Last generic argument of `Id` type should be an ident: `Id<Self, YourIdType>`"
            },
            DeriveError::MalformedAttribute => "malformed attribute",
            DeriveError::AttributeNotAList => {
                "expected this attribute to be formatted as a meta list: `#[serde(...)]`"
            },
            DeriveError::UnexpectedLiteral => "unexpected literal value",
            DeriveError::RenameUnreadable => "Failed to parse serde attr `rename`",
            DeriveError::RenameNotUnderscoreId => {
                "The `rename` attribute for a MongoDB model must be `#[serde(rename = \"_id\")]`"
            },
            DeriveError::SkipUnreadable => "Failed to parse serde attr `skip_serializing_if`",
            DeriveError::SkipNotIsNone => {
                "The `skip_serializing_if` attribute must be `#[serde(skip_serializing_if = \"Id::is_none\")]`"
            },
            DeriveError::MissingMongoSerdeAttributes => {
                "The `id` field must have the following serde attributes: `#[serde(rename = \"_id\", skip_serializing_if = \"Id::is_none\")]`"
            },
            DeriveError::MissingSerdeAttributes => {
                "The `id` field must have the following serde attributes: `#[serde(skip_serializing_if = \"Id::is_none\")]`"
            },
            DeriveError::RawIdNotAPath => " `id` field must be path",
            DeriveError::IdNotAnIdType => " `id` field must be an Id",
            DeriveError::IdArgumentUnreadable => "",
            DeriveError::ChildNotAPath => "Child field must be a path or ref",
            DeriveError::ChildNotAnIdent => "Type must be an in-scope ident",
        }
    }

    /// The text that is shown for the error.
    pub open spec fn message_spec(&self) -> Seq<char> {
        match self {
            DeriveError::MissingId => " must have an `id` field"@,
            DeriveError::IdNotAPath => "`id` field must be a path"@,
            DeriveError::IdTypeEmpty => "Id type is empty"@,
            DeriveError::IdNotAnId => "`id` field must be of type `musty::prelude::Id`"@,
            DeriveError::IdWithoutArguments => "Id type must have generic arguments `<Self, YourIdType>` where `YourdIdType` implements `musty::prelude::IdGuard`"@,
            DeriveError::FirstArgumentNotSelf => "First generic argument of `Id` type should be `Self`: `Id<Self, ..>`"@,
            DeriveError::LastArgumentNotAType => "Last generic argument of `Id` type should be any type that implements `musty::prelude::IdGuard`: `Id<Self, YourIdType>`"@,
            DeriveError::LastArgumentNotAnIdent => "Last generic argument of `Id` type should be an ident: `Id<Self, YourIdType>`"@,
            DeriveError::MalformedAttribute => "malformed attribute"@,
            DeriveError::AttributeNotAList => "expected this attribute to be formatted as a meta list: `#[serde(...)]`"@,
            DeriveError::UnexpectedLiteral => "unexpected literal value"@,
            DeriveError::RenameUnreadable => "Failed to parse serde attr `rename`"@,
            DeriveError::RenameNotUnderscoreId => "The `rename` attribute for a MongoDB model must be `#[serde(rename = \"_id\")]`"@,
            DeriveError::SkipUnreadable => "Failed to parse serde attr `skip_serializing_if`"@,
            DeriveError::SkipNotIsNone => "The `skip_serializing_if` attribute must be `#[serde(skip_serializing_if = \"Id::is_none\")]`"@,
            DeriveError::MissingMongoSerdeAttributes => "The `id` field must have the following serde attributes: `#[serde(rename = \"_id\", skip_serializing_if = \"Id::is_none\")]`"@,
            DeriveError::MissingSerdeAttributes => "The `id` field must have the following serde attributes: `#[serde(skip_serializing_if = \"Id::is_none\")]`"@,
            DeriveError::RawIdNotAPath => " `id` field must be path"@,
            DeriveError::IdNotAnIdType => " `id` field must be an Id"@,
            DeriveError::IdArgumentUnreadable => ""@,
            DeriveError::ChildNotAPath => "Child field must be a path or ref"@,
            DeriveError::ChildNotAnIdent => "Type must be an in-scope ident"@,
        }
    }
}

} // verus!
