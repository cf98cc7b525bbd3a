//! Record types whose struct is written without `Id`: the identifier field
//! has the type of its value, and deriving rewrites the struct so that the
//! field becomes an `Id` of that type.
use vstd::prelude::*;
use crate::derive::error::DeriveError;
use crate::derive::id::{find_id_field, id_position};
use crate::derive::input::{ArgKind, Field, FieldType, ModelInput};
use crate::derive::naming::{collection_name, get_collection_name};

verus! {

/// The `#[serde]` attribute that the rewritten identifier field gets.
#[derive(Debug, Clone, Copy, PartialEq, Eq, Structural)]
pub enum IdAttr {
    /// `#[serde(skip)]`
    Skip,
    /// `#[serde(rename = "_id", skip_serializing_if = "musty::prelude::Id::is_none")]`
    MongoId,
}

/// The rewritten struct: which field is the identifier, the attribute that
/// it gets, and the positions of the fields that are kept as they are.
#[derive(Debug)]
pub struct StructPlan {
    pub id_field: usize,
    pub id_attr: IdAttr,
    pub kept: Vec<usize>,
}

/// What is generated for a struct that is rewritten.
#[derive(Debug)]
pub struct RewritePlan {
    pub rewritten: StructPlan,
    /// The name of the collection, for a MongoDB record.
    pub collection_name: Option<String>,
}

/// The position of the identifier field of a struct that is to be
/// rewritten: the first field marked as the identifier or named `id`, whose
/// type must be a path.
pub open spec fn raw_id_position(fields: Seq<Field>) -> Result<int, DeriveError> {
    match id_position(fields, fields.len() as int) {
        None => Err(DeriveError::MissingId),
        Some(i) => if fields[i].ty is Path {
            Ok(i)
        } else {
            Err(DeriveError::RawIdNotAPath)
        },
    }
}

/// The position of the identifier field of a struct that is to be
/// rewritten.
pub fn get_model_id_type(fields: &Vec<Field>) -> (r: Result<usize, DeriveError>)
    ensures
        match r {
            Ok(i) => raw_id_position(fields@) == Ok::<int, DeriveError>(i as int) && i
                < fields@.len(),
            Err(e) => raw_id_position(fields@) == Err::<int, DeriveError>(e),
        },
{
    match find_id_field(fields) {
        None => Err(DeriveError::MissingId),
        Some(i) => match &fields[i].ty {
            FieldType::Path(_) => Ok(i),
            _ => Err(DeriveError::RawIdNotAPath),
        },
    }
}

/// The positions among the first `n` fields of those that are not an
/// identifier, in order.
pub open spec fn kept_positions(fields: Seq<Field>, n: int) -> Seq<usize>
    decreases n,
{
    if n <= 0 {
        Seq::empty()
    } else if fields[n - 1].is_id_spec() {
        kept_positions(fields, n - 1)
    } else {
        kept_positions(fields, n - 1).push((n - 1) as usize)
    }
}

/// The rewritten struct: the identifier field becomes an `Id` with the
/// attribute that a MongoDB record or another record needs, and every field
/// that is no identifier is kept.
pub fn create_model_struct(fields: &Vec<Field>, id_field: usize, mongo: bool) -> (plan: StructPlan)
    ensures
        plan.id_field == id_field,
        plan.id_attr == (if mongo {
            IdAttr::MongoId
        } else {
            IdAttr::Skip
        }),
        plan.kept@ == kept_positions(fields@, fields@.len() as int),
{
    let mut kept: Vec<usize> = Vec::new();
    let mut i: usize = 0;
    while i < fields.len()
        invariant
            0 <= i <= fields@.len(),
            kept@ == kept_positions(fields@, i as int),
        decreases fields@.len() - i,
    {
        if !fields[i].is_id() {
            kept.push(i);
        }
        i += 1;
    }
    StructPlan {
        id_field,
        id_attr: if mongo {
            IdAttr::MongoId
        } else {
            IdAttr::Skip
        },
        kept,
    }
}

/// What is generated for the struct `input` that is rewritten, or why
/// nothing can be.
pub fn expand(input: &ModelInput) -> (r: Result<RewritePlan, DeriveError>)
    ensures
        match r {
            Ok(plan) => raw_id_position(input.fields@) == Ok::<int, DeriveError>(
                plan.rewritten.id_field as int,
            ) && plan.rewritten.id_attr == (if input.mongo is Some {
                IdAttr::MongoId
            } else {
                IdAttr::Skip
            }) && plan.rewritten.kept@ == kept_positions(input.fields@, input.fields@.len() as int)
                && match (input.mongo, plan.collection_name) {
                (Some(attrs), Some(name)) => name@ == collection_name(
                    input.ident@,
                    match attrs.collection {
                        Some(c) => Some(c@),
                        None => None,
                    },
                ),
                (None, None) => true,
                _ => false,
            },
            Err(e) => raw_id_position(input.fields@) == Err::<int, DeriveError>(e),
        },
{
    let id_field = match get_model_id_type(&input.fields) {
        Ok(i) => i,
        Err(e) => {
            return Err(e);
        },
    };
    let rewritten = create_model_struct(&input.fields, id_field, input.mongo.is_some());
    let collection_name = match &input.mongo {
        Some(attrs) => Some(get_collection_name(input.ident.as_str(), attrs.collection.as_ref())),
        None => None,
    };
    Ok(RewritePlan { rewritten, collection_name })
}

/// The type of the value inside an identifier whose second argument may be
/// left out.
#[derive(Debug)]
pub enum IdType {
    /// The default type of identifier values.
    Default,
    /// The type of this name.
    Named(String),
}

/// What an [`IdType`] stands for.
pub ghost enum IdTypeModel {
    Default,
    Named(Seq<char>),
}

impl View for IdType {
    type V = IdTypeModel;

    open spec fn view(&self) -> IdTypeModel {
        match self {
            IdType::Default => IdTypeModel::Default,
            IdType::Named(name) => IdTypeModel::Named(name@),
        }
    }
}

/// Whether the type `ty` of a field named `id` can be read for an
/// identifier type with a default: where it is a path it has a segment,
/// where that segment has angle brackets something stands between them,
/// and where the last argument is a path that path has a segment.
pub open spec fn defaulted_id_readable(ty: FieldType) -> bool {
    ty matches FieldType::Path(path) ==> {
        &&& path.segments@.len() > 0
        &&& path.segments@[0].args matches Some(args) ==> {
            &&& args@.len() > 0
            &&& args@.last() matches ArgKind::Path(last) ==> args@.len() == 1 || last.idents@.len()
                > 0
        }
    }
}

/// The type of the value inside the identifier of the type `ty`, which is
/// `Id<Self>` or `Id<Self, T>`: the default type where `Id` has one
/// argument, else the first identifier of its last argument.
pub open spec fn defaulted_id_type(ty: FieldType) -> Result<IdTypeModel, DeriveError> {
    match ty {
        FieldType::Path(path) => match path.segments@[0].args {
            Some(args) => if args@.len() == 1 {
                Ok(IdTypeModel::Default)
            } else {
                match args@.last() {
                    ArgKind::Path(last) => Ok(IdTypeModel::Named(last.idents@[0]@)),
                    ArgKind::Other => Err(DeriveError::IdArgumentUnreadable),
                }
            },
            None => Err(DeriveError::IdNotAnIdType),
        },
        _ => Err(DeriveError::IdNotAnIdType),
    }
}

/// The position of the first of the first `n` fields that is named `id`.
pub open spec fn named_id_position(fields: Seq<Field>, n: int) -> Option<int>
    decreases n,
{
    if n <= 0 {
        None
    } else {
        match named_id_position(fields, n - 1) {
            Some(i) => Some(i),
            None => if fields[n - 1].ident@ == "id"@ {
                Some(n - 1)
            } else {
                None
            },
        }
    }
}

/// The first field named `id` stays the first, whatever follows.
proof fn lemma_named_id_position_stays(fields: Seq<Field>, n: int, m: int)
    requires
        n <= m,
        named_id_position(fields, n) is Some,
    ensures
        named_id_position(fields, m) == named_id_position(fields, n),
    decreases m - n,
{
    if n < m {
        lemma_named_id_position_stays(fields, n, m - 1);
    }
}

/// The type of the value inside the identifier of a record whose identifier
/// is the field named `id`, of the type `Id<Self>` or `Id<Self, T>`.
pub fn get_defaulted_id_type(fields: &Vec<Field>) -> (r: Result<IdType, DeriveError>)
    requires
        forall|i: int| 0 <= i < fields@.len() ==> defaulted_id_readable(#[trigger] fields@[i].ty),
    ensures
        match named_id_position(fields@, fields@.len() as int) {
            None => r matches Err(e) && e == DeriveError::MissingId,
            Some(i) => match r {
                Ok(t) => defaulted_id_type(fields@[i].ty) == Ok::<IdTypeModel, DeriveError>(t@),
                Err(e) => defaulted_id_type(fields@[i].ty) == Err::<IdTypeModel, DeriveError>(e),
            },
        },
{
    let mut i: usize = 0;
    while i < fields.len()
        invariant
            0 <= i <= fields@.len(),
            named_id_position(fields@, i as int) is None,
            forall|j: int|
                0 <= j < fields@.len() ==> defaulted_id_readable(#[trigger] fields@[j].ty),
        decreases fields@.len() - i,
    {
        if fields[i].ident.as_str().eq("id") {
            proof {
                lemma_named_id_position_stays(fields@, i as int + 1, fields@.len() as int);
            }
            let path = match &fields[i].ty {
                FieldType::Path(path) => path,
                _ => {
                    return Err(DeriveError::IdNotAnIdType);
                },
            };
            let args = match &path.segments[0].args {
                Some(args) => args,
                None => {
                    return Err(DeriveError::IdNotAnIdType);
                },
            };
            let last = &args[args.len() - 1];
            if args.len() == 1 {
                return Ok(IdType::Default);
            }
            return match last {
                ArgKind::Path(last) => Ok(IdType::Named(last.idents[0].clone())),
                ArgKind::Other => Err(DeriveError::IdArgumentUnreadable),
            };
        }
        i += 1;
    }
    Err(DeriveError::MissingId)
}

} // verus!
