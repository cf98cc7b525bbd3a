//! The identifier field of a record type and the type of its value.
use vstd::prelude::*;
use crate::derive::error::DeriveError;
use crate::derive::input::{ArgKind, Field, FieldType, Segment};
use crate::derive::serde_attrs::{
    get_serde_attrs, metas_of, serde_id_attrs_checked, serde_metas, validate_serde_id_attrs,
};

verus! {

/// The generic arguments of the type `Id<...>` that `ty` is, or why `ty` is
/// no such type: it must be a path whose last segment is `Id` with
/// arguments in angle brackets.
pub open spec fn id_arguments(ty: FieldType) -> Result<Seq<ArgKind>, DeriveError> {
    match ty {
        FieldType::Path(path) => {
            if path.segments@.len() == 0 {
                Err(DeriveError::IdTypeEmpty)
            } else {
                let last = path.segments@.last();
                if last.ident@ != "Id"@ && last.ident@ != "musty::prelude::Id"@ {
                    Err(DeriveError::IdNotAnId)
                } else {
                    match last.args {
                        Some(args) => Ok(args@),
                        None => Err(DeriveError::IdWithoutArguments),
                    }
                }
            }
        },
        _ => Err(DeriveError::IdNotAPath),
    }
}

/// The generic arguments of the type `Id<...>` that `ty` is.
fn get_id_arguments(ty: &FieldType) -> (r: Result<&Vec<ArgKind>, DeriveError>)
    ensures
        match r {
            Ok(args) => id_arguments(*ty) == Ok::<Seq<ArgKind>, DeriveError>(args@),
            Err(e) => id_arguments(*ty) == Err::<Seq<ArgKind>, DeriveError>(e),
        },
{
    match ty {
        FieldType::Path(path) => {
            if path.segments.len() == 0 {
                return Err(DeriveError::IdTypeEmpty);
            }
            let last: &Segment = &path.segments[path.segments.len() - 1];
            if !last.ident.as_str().eq("Id") && !last.ident.as_str().eq("musty::prelude::Id") {
                return Err(DeriveError::IdNotAnId);
            }
            match &last.args {
                Some(args) => Ok(args),
                None => Err(DeriveError::IdWithoutArguments),
            }
        },
        _ => Err(DeriveError::IdNotAPath),
    }
}

/// Whether the type of an identifier field can be read: where it is `Id`
/// with angle brackets, something stands between them.
pub open spec fn id_type_readable(ty: FieldType) -> bool {
    id_arguments(ty) matches Ok(args) ==> args.len() > 0
}

/// Whether the first generic argument of `Id` is `Self`.
pub open spec fn first_is_self(args: Seq<ArgKind>) -> bool {
    args[0] matches ArgKind::Path(path) && path.ident_spec() == Some("Self"@)
}

/// Whether the identifier field `field` is as it must be: its type is
/// `Id<Self, ..>` and its `#[serde]` attributes are those that the
/// identifier of a record needs, of a MongoDB record where `mongo` holds.
pub open spec fn id_field_checked(field: Field, mongo: bool) -> Result<(), DeriveError> {
    match id_arguments(field.ty) {
        Err(e) => Err(e),
        Ok(args) => if !first_is_self(args) {
            Err(DeriveError::FirstArgumentNotSelf)
        } else {
            match serde_metas(field.serde@, field.serde@.len() as int) {
                Err(e) => Err(e),
                Ok(metas) => serde_id_attrs_checked(metas, mongo),
            }
        },
    }
}

/// Checks the identifier field of a record.
pub fn validate_id_field(field: &Field, mongo: bool) -> (r: Result<(), DeriveError>)
    requires
        id_type_readable(field.ty),
    ensures
        r == id_field_checked(*field, mongo),
{
    let args = match get_id_arguments(&field.ty) {
        Ok(args) => args,
        Err(e) => {
            return Err(e);
        },
    };
    let is_self = match &args[0] {
        ArgKind::Path(path) => match path.get_ident() {
            Some(ident) => ident.as_str().eq("Self"),
            None => false,
        },
        ArgKind::Other => false,
    };
    if !is_self {
        return Err(DeriveError::FirstArgumentNotSelf);
    }
    match get_serde_attrs(&field.serde) {
        Ok(metas) => validate_serde_id_attrs(&metas, mongo),
        Err(e) => Err(e),
    }
}

/// The type of the value inside the identifier: the last generic argument
/// of `Id`, which must be one identifier.
pub open spec fn id_type(ty: FieldType) -> Result<Seq<char>, DeriveError> {
    match id_arguments(ty) {
        Err(e) => Err(e),
        Ok(args) => match args.last() {
            ArgKind::Path(path) => match path.ident_spec() {
                Some(ident) => Ok(ident),
                None => Err(DeriveError::LastArgumentNotAnIdent),
            },
            ArgKind::Other => Err(DeriveError::LastArgumentNotAType),
        },
    }
}

/// The type of the value inside the identifier field `field`.
pub fn get_id_type(field: &Field) -> (r: Result<String, DeriveError>)
    requires
        id_type_readable(field.ty),
    ensures
        match r {
            Ok(ident) => id_type(field.ty) == Ok::<Seq<char>, DeriveError>(ident@),
            Err(e) => id_type(field.ty) == Err::<Seq<char>, DeriveError>(e),
        },
{
    let args = match get_id_arguments(&field.ty) {
        Ok(args) => args,
        Err(e) => {
            return Err(e);
        },
    };
    match &args[args.len() - 1] {
        ArgKind::Path(path) => match path.get_ident() {
            Some(ident) => Ok(ident.clone()),
            None => Err(DeriveError::LastArgumentNotAnIdent),
        },
        ArgKind::Other => Err(DeriveError::LastArgumentNotAType),
    }
}

/// The position of the identifier field among the first `n` fields: the
/// first field that is marked as the identifier or named `id`.
pub open spec fn id_position(fields: Seq<Field>, n: int) -> Option<int>
    decreases n,
{
    if n <= 0 {
        None
    } else {
        match id_position(fields, n - 1) {
            Some(i) => Some(i),
            None => if fields[n - 1].is_id_spec() {
                Some(n - 1)
            } else {
                None
            },
        }
    }
}

/// The position of the identifier field among `fields`.
pub fn find_id_field(fields: &Vec<Field>) -> (r: Option<usize>)
    ensures
        match r {
            Some(i) => id_position(fields@, fields@.len() as int) == Some(i as int) && i
                < fields@.len() && fields@[i as int].is_id_spec(),
            None => id_position(fields@, fields@.len() as int) is None,
        },
{
    let mut i: usize = 0;
    while i < fields.len()
        invariant
            0 <= i <= fields@.len(),
            id_position(fields@, i as int) is None,
        decreases fields@.len() - i,
    {
        if fields[i].is_id() {
            proof {
                lemma_id_position_stays(fields@, i as int + 1, fields@.len() as int);
            }
            return Some(i);
        }
        i += 1;
    }
    None
}

/// The first identifier field stays the first, whatever follows.
proof fn lemma_id_position_stays(fields: Seq<Field>, n: int, m: int)
    requires
        n <= m,
        id_position(fields, n) is Some,
    ensures
        id_position(fields, m) == id_position(fields, n),
    decreases m - n,
{
    if n < m {
        lemma_id_position_stays(fields, n, m - 1);
    }
}

} // verus!
