//! What a derive macro reads of a struct, as plain values.
use vstd::prelude::*;

verus! {

/// What is read of a path that stands as a generic argument.
#[derive(Debug, Clone)]
pub struct PathShape {
    /// The identifiers of the path's segments.
    pub idents: Vec<String>,
    /// Whether the path has neither a leading `::` nor arguments.
    pub plain: bool,
}

/// A generic argument of a path segment.
#[derive(Debug, Clone)]
pub enum ArgKind {
    /// A type that is a path.
    Path(PathShape),
    /// Any other argument: a lifetime, a constant, a type that is no path.
    Other,
}

/// A segment of a path: its identifier and, where it has angle brackets, the
/// arguments between them.
#[derive(Debug, Clone)]
pub struct Segment {
    pub ident: String,
    pub args: Option<Vec<ArgKind>>,
}

/// A type that is a path.
#[derive(Debug, Clone)]
pub struct TypePath {
    /// Whether the path begins with `::`.
    pub leading_colon: bool,
    pub segments: Vec<Segment>,
}

/// The type of a field.
#[derive(Debug, Clone)]
pub enum FieldType {
    /// A path.
    Path(TypePath),
    /// A reference to a path.
    ReferenceToPath(TypePath),
    /// Any other type.
    Other,
}

/// An entry between the brackets of a `#[serde(...)]` attribute.
#[derive(Debug, Clone)]
pub enum SerdeNested {
    /// A name, with the string that it is set to where it has the form
    /// `name = "string"`.
    Meta { name: String, value: Option<String> },
    /// A literal.
    Literal,
}

/// A `#[serde]` attribute of a field.
#[derive(Debug, Clone)]
pub enum SerdeAttr {
    /// An attribute that cannot be read.
    Malformed,
    /// An attribute without a list between brackets.
    NotAList,
    /// `#[serde(...)]` with its entries.
    List(Vec<SerdeNested>),
}

/// `#[musty(mongo(get))]` on a field: the record gets a function that finds
/// it by that field, under the given name where there is one.
#[derive(Debug, Clone)]
pub struct GetAttr {
    pub name: Option<String>,
}

/// A field of the struct.
#[derive(Debug, Clone)]
pub struct Field {
    pub ident: String,
    pub ty: FieldType,
    /// `#[musty(id)]`
    pub id: bool,
    /// `#[musty(skip)]`
    pub skip: bool,
    /// `#[musty(rename = "...")]`
    pub rename: Option<String>,
    /// `#[musty(child)]`
    pub child: bool,
    /// `#[musty(mongo(get))]`
    pub get: Option<GetAttr>,
    /// The field's `#[serde]` attributes, in order.
    pub serde: Vec<SerdeAttr>,
}

/// `#[musty(mongo(...))]` on the struct.
#[derive(Debug, Clone, Default)]
pub struct MongoAttrs {
    /// `collection = "..."`
    pub collection: Option<String>,
}

/// The struct that a record type is derived for.
#[derive(Debug, Clone)]
pub struct ModelInput {
    pub ident: String,
    pub fields: Vec<Field>,
    pub mongo: Option<MongoAttrs>,
}

impl TypePath {
    /// The identifier that the path consists of, where it is one identifier
    /// and nothing else.
    pub open spec fn ident_spec(&self) -> Option<Seq<char>> {
        if !self.leading_colon && self.segments@.len() == 1 && self.segments@[0].args is None {
            Some(self.segments@[0].ident@)
        } else {
            None
        }
    }

    /// The identifier that the path consists of, where it is one identifier
    /// and nothing else.
    pub fn get_ident(&self) -> (r: Option<&String>)
        ensures
            match r {
                Some(ident) => self.ident_spec() == Some(ident@),
                None => self.ident_spec() is None,
            },
    {
        if !self.leading_colon && self.segments.len() == 1 && self.segments[0].args.is_none() {
            Some(&self.segments[0].ident)
        } else {
            None
        }
    }
}

impl PathShape {
    /// The identifier that the path consists of, where it is one identifier
    /// and nothing else.
    pub open spec fn ident_spec(&self) -> Option<Seq<char>> {
        if self.plain && self.idents@.len() == 1 {
            Some(self.idents@[0]@)
        } else {
            None
        }
    }

    /// The identifier that the path consists of, where it is one identifier
    /// and nothing else.
    pub fn get_ident(&self) -> (r: Option<&String>)
        ensures
            match r {
                Some(ident) => self.ident_spec() == Some(ident@),
                None => self.ident_spec() is None,
            },
    {
        if self.plain && self.idents.len() == 1 {
            Some(&self.idents[0])
        } else {
            None
        }
    }
}

impl Field {
    /// Whether the field is the identifier of the record: it is marked as
    /// such or named `id`.
    pub open spec fn is_id_spec(&self) -> bool {
        self.id || self.ident@ == "id"@
    }

    /// Whether the field is the identifier of the record: it is marked as
    /// such or named `id`.
    pub fn is_id(&self) -> (b: bool)
        ensures
            b == self.is_id_spec(),
    {
        self.id || self.ident.as_str().eq("id")
    }

    /// The name under which the field is known to filters: the one it is
    /// renamed to, or its own.
    pub open spec fn field_name_spec(&self) -> Seq<char> {
        match self.rename {
            Some(rename) => rename@,
            None => self.ident@,
        }
    }

    /// The name under which the field is known to filters: the one it is
    /// renamed to, or its own.
    pub fn get_field_name(&self) -> (name: &String)
        ensures
            name@ == self.field_name_spec(),
    {
        match &self.rename {
            Some(rename) => rename,
            None => &self.ident,
        }
    }
}

} // verus!
