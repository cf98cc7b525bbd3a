//! The `#[serde]` attributes of the identifier field.
use vstd::prelude::*;
use crate::derive::error::DeriveError;
use crate::derive::input::{SerdeAttr, SerdeNested};

verus! {

/// A name between the brackets of a `#[serde(...)]` attribute, with the
/// string that it is set to where it is set to one.
#[derive(Debug, Clone)]
pub struct SerdeMeta {
    pub name: String,
    pub value: Option<String>,
}

/// What a [`SerdeMeta`] stands for.
pub ghost struct SerdeMetaModel {
    pub name: Seq<char>,
    pub value: Option<Seq<char>>,
}

impl View for SerdeMeta {
    type V = SerdeMetaModel;

    open spec fn view(&self) -> SerdeMetaModel {
        SerdeMetaModel {
            name: self.name@,
            value: match self.value {
                Some(v) => Some(v@),
                None => None,
            },
        }
    }
}

/// The models of a list of metas, in order.
pub open spec fn metas_of(s: Seq<SerdeMeta>) -> Seq<SerdeMetaModel> {
    Seq::new(s.len(), |i: int| s[i]@)
}

/// What the entry `nested` adds to the names `found` so far: itself, or the
/// error that it is a literal.
pub open spec fn with_nested(found: Seq<SerdeMetaModel>, nested: SerdeNested) -> Result<
    Seq<SerdeMetaModel>,
    DeriveError,
> {
    match nested {
        SerdeNested::Meta { name, value } => Ok(
            found.push(
                SerdeMetaModel {
                    name: name@,
                    value: match value {
                        Some(v) => Some(v@),
                        None => None,
                    },
                },
            ),
        ),
        SerdeNested::Literal => Err(DeriveError::UnexpectedLiteral),
    }
}

/// The names that `found` and the first `n` entries of `nested` hold, or the
/// error of the first entry that is a literal.
pub open spec fn with_entries(found: Seq<SerdeMetaModel>, nested: Seq<SerdeNested>, n: int) -> Result<
    Seq<SerdeMetaModel>,
    DeriveError,
>
    decreases n,
{
    if n <= 0 {
        Ok(found)
    } else {
        match with_entries(found, nested, n - 1) {
            Ok(before) => with_nested(before, nested[n - 1]),
            Err(e) => Err(e),
        }
    }
}

/// What the attribute `attr` adds to the names `found` so far.
pub open spec fn with_attr(found: Seq<SerdeMetaModel>, attr: SerdeAttr) -> Result<
    Seq<SerdeMetaModel>,
    DeriveError,
> {
    match attr {
        SerdeAttr::Malformed => Err(DeriveError::MalformedAttribute),
        SerdeAttr::NotAList => Err(DeriveError::AttributeNotAList),
        SerdeAttr::List(nested) => with_entries(found, nested@, nested@.len() as int),
    }
}

/// The names that the first `n` attributes of `attrs` hold, in order, or the
/// error of the first entry that cannot be taken.
pub open spec fn serde_metas(attrs: Seq<SerdeAttr>, n: int) -> Result<
    Seq<SerdeMetaModel>,
    DeriveError,
>
    decreases n,
{
    if n <= 0 {
        Ok(Seq::empty())
    } else {
        match serde_metas(attrs, n - 1) {
            Ok(before) => with_attr(before, attrs[n - 1]),
            Err(e) => Err(e),
        }
    }
}

/// The names that the `#[serde]` attributes hold, in order, or the error of
/// the first attribute or entry that cannot be taken.
pub fn get_serde_attrs(attrs: &Vec<SerdeAttr>) -> (r: Result<Vec<SerdeMeta>, DeriveError>)
    ensures
        match r {
            Ok(metas) => serde_metas(attrs@, attrs@.len() as int) == Ok::<
                Seq<SerdeMetaModel>,
                DeriveError,
            >(metas_of(metas@)),
            Err(e) => serde_metas(attrs@, attrs@.len() as int) == Err::<
                Seq<SerdeMetaModel>,
                DeriveError,
            >(e),
        },
{
    let mut acc: Vec<SerdeMeta> = Vec::new();
    let mut i: usize = 0;
    assert(metas_of(acc@) =~= Seq::empty());
    while i < attrs.len()
        invariant
            0 <= i <= attrs@.len(),
            serde_metas(attrs@, i as int) == Ok::<Seq<SerdeMetaModel>, DeriveError>(
                metas_of(acc@),
            ),
        decreases attrs@.len() - i,
    {
        match &attrs[i] {
            SerdeAttr::Malformed => {
                proof {
                    lemma_error_stays(attrs@, i as int + 1, attrs@.len() as int);
                }
                return Err(DeriveError::MalformedAttribute);
            },
            SerdeAttr::NotAList => {
                proof {
                    lemma_error_stays(attrs@, i as int + 1, attrs@.len() as int);
                }
                return Err(DeriveError::AttributeNotAList);
            },
            SerdeAttr::List(nested) => {
                let ghost before = metas_of(acc@);
                let mut j: usize = 0;
                while j < nested.len()
                    invariant
                        0 <= j <= nested@.len(),
                        0 <= i < attrs@.len(),
                        attrs@[i as int] == SerdeAttr::List(*nested),
                        serde_metas(attrs@, i as int) == Ok::<Seq<SerdeMetaModel>, DeriveError>(
                            before,
                        ),
                        with_entries(before, nested@, j as int) == Ok::<
                            Seq<SerdeMetaModel>,
                            DeriveError,
                        >(metas_of(acc@)),
                    decreases nested@.len() - j,
                {
                    match &nested[j] {
                        SerdeNested::Meta { name, value } => {
                            let ghost old_acc = metas_of(acc@);
                            let meta = SerdeMeta {
                                name: name.clone(),
                                value: match value {
                                    Some(v) => Some(v.clone()),
                                    None => None,
                                },
                            };
                            acc.push(meta);
                            assert(metas_of(acc@) =~= old_acc.push(meta@));
                        },
                        SerdeNested::Literal => {
                            proof {
                                lemma_entry_error_stays(
                                    before,
                                    nested@,
                                    j as int + 1,
                                    nested@.len() as int,
                                );
                                lemma_error_stays(attrs@, i as int + 1, attrs@.len() as int);
                            }
                            return Err(DeriveError::UnexpectedLiteral);
                        },
                    }
                    j += 1;
                }
            },
        }
        i += 1;
    }
    Ok(acc)
}

/// Once an entry gave an error, later entries do not change it.
proof fn lemma_entry_error_stays(
    found: Seq<SerdeMetaModel>,
    nested: Seq<SerdeNested>,
    n: int,
    m: int,
)
    requires
        n <= m,
        with_entries(found, nested, n) is Err,
    ensures
        with_entries(found, nested, m) == with_entries(found, nested, n),
    decreases m - n,
{
    if n < m {
        lemma_entry_error_stays(found, nested, n, m - 1);
    }
}

/// Once an attribute gave an error, later attributes do not change it.
proof fn lemma_error_stays(attrs: Seq<SerdeAttr>, n: int, m: int)
    requires
        n <= m,
        serde_metas(attrs, n) is Err,
    ensures
        serde_metas(attrs, m) == serde_metas(attrs, n),
    decreases m - n,
{
    if n < m {
        lemma_error_stays(attrs, n, m - 1);
    }
}

/// What is known of the identifier's `#[serde]` attributes while they are
/// read: whether `rename` and `skip_serializing_if` were seen.
pub struct Seen {
    pub rename: bool,
    pub skip: bool,
}

/// What the name `meta` adds to what was seen. For a MongoDB record `rename`
/// must be set to `_id`; `skip_serializing_if` must be set to `Id::is_none`.
pub open spec fn see(seen: Seen, meta: SerdeMetaModel, mongo: bool) -> Result<Seen, DeriveError> {
    let renamed: Result<bool, DeriveError> = if meta.name == "rename"@ && mongo {
        match meta.value {
            None => Err(DeriveError::RenameUnreadable),
            Some(v) => if v != "_id"@ {
                Err(DeriveError::RenameNotUnderscoreId)
            } else {
                Ok(true)
            },
        }
    } else {
        Ok(seen.rename)
    };
    match renamed {
        Err(e) => Err(e),
        Ok(rename) => if meta.name == "skip_serializing_if"@ {
            match meta.value {
                None => Err(DeriveError::SkipUnreadable),
                Some(v) => if v != "Id::is_none"@ && v != "musty::prelude::Id::is_none"@ {
                    Err(DeriveError::SkipNotIsNone)
                } else {
                    Ok(Seen { rename, skip: true })
                },
            }
        } else {
            Ok(Seen { rename, skip: seen.skip })
        },
    }
}

/// What was seen in the first `n` names of `metas`. Reading ends where both
/// attributes were seen: what follows is not looked at.
pub open spec fn seen_in(metas: Seq<SerdeMetaModel>, n: int, mongo: bool) -> Result<
    Seen,
    DeriveError,
>
    decreases n,
{
    if n <= 0 {
        Ok(Seen { rename: false, skip: false })
    } else {
        match seen_in(metas, n - 1, mongo) {
            Err(e) => Err(e),
            Ok(seen) => if seen.rename && seen.skip {
                Ok(seen)
            } else {
                see(seen, metas[n - 1], mongo)
            },
        }
    }
}

/// Whether the identifier's `#[serde]` attributes are as they must be: none
/// of them is wrong, `skip_serializing_if` is there and, for a MongoDB
/// record, `rename` is there.
pub open spec fn serde_id_attrs_checked(metas: Seq<SerdeMetaModel>, mongo: bool) -> Result<
    (),
    DeriveError,
> {
    match seen_in(metas, metas.len() as int, mongo) {
        Err(e) => Err(e),
        Ok(seen) => if (seen.rename || !mongo) && seen.skip {
            Ok(())
        } else if mongo {
            Err(DeriveError::MissingMongoSerdeAttributes)
        } else {
            Err(DeriveError::MissingSerdeAttributes)
        },
    }
}

/// Once reading gave an error or ended, later names do not change it.
proof fn lemma_seen_stays(metas: Seq<SerdeMetaModel>, n: int, m: int, mongo: bool)
    requires
        n <= m,
        match seen_in(metas, n, mongo) {
            Err(_) => true,
            Ok(seen) => seen.rename && seen.skip,
        },
    ensures
        seen_in(metas, m, mongo) == seen_in(metas, n, mongo),
    decreases m - n,
{
    if n < m {
        lemma_seen_stays(metas, n, m - 1, mongo);
    }
}

/// Checks the `#[serde]` attributes of the identifier field.
pub fn validate_serde_id_attrs(metas: &Vec<SerdeMeta>, mongo: bool) -> (r: Result<(), DeriveError>)
    ensures
        r == serde_id_attrs_checked(metas_of(metas@), mongo),
{
    let ghost models = metas_of(metas@);
    let mut rename = false;
    let mut skip = false;
    let mut i: usize = 0;
    while i < metas.len()
        invariant
            0 <= i <= metas@.len(),
            models == metas_of(metas@),
            seen_in(models, i as int, mongo) == Ok::<Seen, DeriveError>(Seen { rename, skip }),
            !(rename && skip),
        decreases metas@.len() - i,
    {
        let attr = &metas[i];
        proof {
            assert(models[i as int] == attr@);
        }
        if attr.name.as_str().eq("rename") {
            if mongo {
                match &attr.value {
                    None => {
                        proof {
                            lemma_seen_stays(models, i as int + 1, models.len() as int, mongo);
                        }
                        return Err(DeriveError::RenameUnreadable);
                    },
                    Some(v) => {
                        if !v.as_str().eq("_id") {
                            proof {
                                lemma_seen_stays(models, i as int + 1, models.len() as int, mongo);
                            }
                            return Err(DeriveError::RenameNotUnderscoreId);
                        }
                    },
                }
                rename = true;
            }
        }
        if attr.name.as_str().eq("skip_serializing_if") {
            match &attr.value {
                None => {
                    proof {
                        lemma_seen_stays(models, i as int + 1, models.len() as int, mongo);
                    }
                    return Err(DeriveError::SkipUnreadable);
                },
                Some(v) => {
                    if !v.as_str().eq("Id::is_none") && !v.as_str().eq(
                        "musty::prelude::Id::is_none",
                    ) {
                        proof {
                            lemma_seen_stays(models, i as int + 1, models.len() as int, mongo);
                        }
                        return Err(DeriveError::SkipNotIsNone);
                    }
                },
            }
            skip = true;
        }
        i += 1;
        if rename && skip {
            proof {
                lemma_seen_stays(models, i as int, models.len() as int, mongo);
            }
            return Ok(());
        }
    }
    if !((rename || !mongo) && skip) {
        if mongo {
            Err(DeriveError::MissingMongoSerdeAttributes)
        } else {
            Err(DeriveError::MissingSerdeAttributes)
        }
    } else {
        Ok(())
    }
}

} // verus!
