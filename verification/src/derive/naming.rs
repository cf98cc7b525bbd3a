//! The names that deriving gives.
use vstd::prelude::*;
use vstd::string::StringExecFns;
use crate::util::string::{ascii_lowercase_of, plural_of, table_case, table_case_of, ToPlural};

verus! {

/// The name of the builder of the record type `ident`.
pub open spec fn filter_struct_name(ident: Seq<char>) -> Seq<char> {
    ident + "Filter"@
}

/// The name of the builder of the record type `ident`.
pub fn get_filter_struct_ident(ident: &str) -> (name: String)
    ensures
        name@ == filter_struct_name(ident@),
{
    ident.to_owned().concat("Filter")
}

/// The name of the function that finds a record by the field `field_name`.
pub open spec fn getter_name(field_name: Seq<char>) -> Seq<char> {
    "get_by_"@ + field_name
}

/// The name of the function that finds a record by the field `field_name`:
/// the given one, or `get_by_` and the field's name.
pub fn get_getter_name(field_name: &str, given: Option<&String>) -> (name: String)
    ensures
        name@ == (match given {
            Some(n) => n@,
            None => getter_name(field_name@),
        }),
{
    match given {
        Some(n) => n.clone(),
        None => "get_by_".to_owned().concat(field_name),
    }
}

/// The name of the collection of the record type `ident`: the given one, or
/// the plural of the type's name in table case, in lowercase.
pub open spec fn collection_name(ident: Seq<char>, given: Option<Seq<char>>) -> Seq<char> {
    match given {
        Some(name) => name,
        None => plural_of(ascii_lowercase_of(table_case_of(ident))),
    }
}

/// The name of the collection of the record type `ident`: the given one, or
/// the plural of the type's name in table case, in lowercase.
pub fn get_collection_name(ident: &str, given: Option<&String>) -> (name: String)
    ensures
        name@ == collection_name(
            ident@,
            match given {
                Some(n) => Some(n@),
                None => None,
            },
        ),
{
    match given {
        Some(n) => n.clone(),
        None => table_case(ident).as_str().to_ascii_lowercase().to_plural(),
    }
}

} // verus!
