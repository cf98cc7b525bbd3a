//! The plan of what is generated for a record type.
use vstd::prelude::*;
use crate::derive::error::DeriveError;
use crate::derive::id::{
    find_id_field, get_id_type, id_field_checked, id_position, id_type, id_type_readable,
    validate_id_field,
};
use crate::derive::input::{Field, FieldType, ModelInput, TypePath};
use crate::derive::naming::{
    collection_name, filter_struct_name, get_collection_name, get_filter_struct_ident,
    get_getter_name, getter_name,
};

verus! {

/// A method of the builder of a record type.
#[derive(Debug)]
pub enum FilterMethod {
    /// For a child field: a method that takes what configures the builder
    /// `child_filter` of the child's type and files the result under `name`.
    Child { name: String, child_filter: String },
    /// For any other field: a method that gives the cursor of the field
    /// `name`. The values have the type `Id<Record, id_type>` where the field
    /// is the identifier, else the field's own type.
    Field { name: String, id_type: Option<String> },
}

/// What a [`FilterMethod`] stands for.
pub ghost enum FilterMethodModel {
    Child { name: Seq<char>, child_filter: Seq<char> },
    Field { name: Seq<char>, id_type: Option<Seq<char>> },
}

impl View for FilterMethod {
    type V = FilterMethodModel;

    open spec fn view(&self) -> FilterMethodModel {
        match self {
            FilterMethod::Child { name, child_filter } => FilterMethodModel::Child {
                name: name@,
                child_filter: child_filter@,
            },
            FilterMethod::Field { name, id_type } => FilterMethodModel::Field {
                name: name@,
                id_type: match id_type {
                    Some(t) => Some(t@),
                    None => None,
                },
            },
        }
    }
}

/// The builder of a record type: its name and its methods, one for each
/// field that is not skipped.
#[derive(Debug)]
pub struct FilterPlan {
    pub struct_name: String,
    pub methods: Vec<FilterMethod>,
}

/// What a [`FilterPlan`] stands for.
pub ghost struct FilterPlanModel {
    pub struct_name: Seq<char>,
    pub methods: Seq<FilterMethodModel>,
}

/// The models of a list of methods, in order.
pub open spec fn methods_of(s: Seq<FilterMethod>) -> Seq<FilterMethodModel> {
    Seq::new(s.len(), |i: int| s[i]@)
}

impl View for FilterPlan {
    type V = FilterPlanModel;

    open spec fn view(&self) -> FilterPlanModel {
        FilterPlanModel { struct_name: self.struct_name@, methods: methods_of(self.methods@) }
    }
}

/// A function that finds a record by one of its fields.
#[derive(Debug)]
pub struct Getter {
    pub name: String,
    pub field_name: String,
}

/// What a [`Getter`] stands for.
pub ghost struct GetterModel {
    pub name: Seq<char>,
    pub field_name: Seq<char>,
}

impl View for Getter {
    type V = GetterModel;

    open spec fn view(&self) -> GetterModel {
        GetterModel { name: self.name@, field_name: self.field_name@ }
    }
}

/// The models of a list of getters, in order.
pub open spec fn getters_of(s: Seq<Getter>) -> Seq<GetterModel> {
    Seq::new(s.len(), |i: int| s[i]@)
}

/// What is generated for a MongoDB record: the name of its collection and
/// its getters.
#[derive(Debug)]
pub struct MongoPlan {
    pub collection_name: String,
    pub getters: Vec<Getter>,
}

/// What a [`MongoPlan`] stands for.
pub ghost struct MongoPlanModel {
    pub collection_name: Seq<char>,
    pub getters: Seq<GetterModel>,
}

impl View for MongoPlan {
    type V = MongoPlanModel;

    open spec fn view(&self) -> MongoPlanModel {
        MongoPlanModel {
            collection_name: self.collection_name@,
            getters: getters_of(self.getters@),
        }
    }
}

/// What is generated for a record type.
#[derive(Debug)]
pub struct ModelPlan {
    /// The type of the value inside the record's identifier.
    pub id_type: String,
    pub filter: FilterPlan,
    pub mongo: Option<MongoPlan>,
}

/// What a [`ModelPlan`] stands for.
pub ghost struct ModelPlanModel {
    pub id_type: Seq<char>,
    pub filter: FilterPlanModel,
    pub mongo: Option<MongoPlanModel>,
}

impl View for ModelPlan {
    type V = ModelPlanModel;

    open spec fn view(&self) -> ModelPlanModel {
        ModelPlanModel {
            id_type: self.id_type@,
            filter: self.filter@,
            mongo: match self.mongo {
                Some(m) => Some(m@),
                None => None,
            },
        }
    }
}

/// The name of the type of a child field: the type, or the type that it
/// refers to, must be one identifier.
pub open spec fn child_type(ty: FieldType) -> Result<Seq<char>, DeriveError> {
    match ty {
        FieldType::Path(path) | FieldType::ReferenceToPath(path) => match path.ident_spec() {
            Some(ident) => Ok(ident),
            None => Err(DeriveError::ChildNotAnIdent),
        },
        FieldType::Other => Err(DeriveError::ChildNotAPath),
    }
}

/// The builder method of the field `field`. Where `record` holds the field
/// belongs to a record, whose identifier field gets a cursor over
/// identifiers.
pub open spec fn filter_method(field: Field, record: bool) -> Result<
    FilterMethodModel,
    DeriveError,
> {
    if field.child {
        match child_type(field.ty) {
            Ok(child) => Ok(
                FilterMethodModel::Child {
                    name: field.field_name_spec(),
                    child_filter: filter_struct_name(child),
                },
            ),
            Err(e) => Err(e),
        }
    } else if record && field.is_id_spec() {
        match id_type(field.ty) {
            Ok(t) => Ok(FilterMethodModel::Field { name: field.field_name_spec(), id_type: Some(t) }),
            Err(e) => Err(e),
        }
    } else {
        Ok(FilterMethodModel::Field { name: field.field_name_spec(), id_type: None })
    }
}

/// The builder methods of the first `n` fields, those that are skipped left
/// out, or the error of the first field that cannot have one.
pub open spec fn filter_methods(fields: Seq<Field>, n: int, record: bool) -> Result<
    Seq<FilterMethodModel>,
    DeriveError,
>
    decreases n,
{
    if n <= 0 {
        Ok(Seq::empty())
    } else {
        match filter_methods(fields, n - 1, record) {
            Err(e) => Err(e),
            Ok(before) => if fields[n - 1].skip {
                Ok(before)
            } else {
                match filter_method(fields[n - 1], record) {
                    Ok(method) => Ok(before.push(method)),
                    Err(e) => Err(e),
                }
            },
        }
    }
}

/// Whether the types of the identifier fields among `fields` can be read.
pub open spec fn id_types_readable(fields: Seq<Field>) -> bool {
    forall|i: int|
        0 <= i < fields.len() && (#[trigger] fields[i]).is_id_spec() ==> id_type_readable(
            fields[i].ty,
        )
}

/// The name of the type of the child field's type `ty`.
fn get_child_type(ty: &FieldType) -> (r: Result<&String, DeriveError>)
    ensures
        match r {
            Ok(ident) => child_type(*ty) == Ok::<Seq<char>, DeriveError>(ident@),
            Err(e) => child_type(*ty) == Err::<Seq<char>, DeriveError>(e),
        },
{
    let path: &TypePath = match ty {
        FieldType::Path(path) => path,
        FieldType::ReferenceToPath(path) => path,
        FieldType::Other => {
            return Err(DeriveError::ChildNotAPath);
        },
    };
    match path.get_ident() {
        Some(ident) => Ok(ident),
        None => Err(DeriveError::ChildNotAnIdent),
    }
}

/// The builder method of the field `field`.
pub fn expand_filter_struct_function(field: &Field, record: bool) -> (r: Result<
    FilterMethod,
    DeriveError,
>)
    requires
        record && field.is_id_spec() ==> id_type_readable(field.ty),
    ensures
        match r {
            Ok(method) => filter_method(*field, record) == Ok::<FilterMethodModel, DeriveError>(
                method@,
            ),
            Err(e) => filter_method(*field, record) == Err::<FilterMethodModel, DeriveError>(e),
        },
{
    let name = field.get_field_name().clone();
    if field.child {
        match get_child_type(&field.ty) {
            Ok(child) => Ok(
                FilterMethod::Child {
                    name,
                    child_filter: get_filter_struct_ident(child.as_str()),
                },
            ),
            Err(e) => Err(e),
        }
    } else if record && field.is_id() {
        match get_id_type(field) {
            Ok(t) => Ok(FilterMethod::Field { name, id_type: Some(t) }),
            Err(e) => Err(e),
        }
    } else {
        Ok(FilterMethod::Field { name, id_type: None })
    }
}

/// Once a field gave an error, later fields do not change it.
proof fn lemma_method_error_stays(fields: Seq<Field>, n: int, m: int, record: bool)
    requires
        n <= m,
        filter_methods(fields, n, record) is Err,
    ensures
        filter_methods(fields, m, record) == filter_methods(fields, n, record),
    decreases m - n,
{
    if n < m {
        lemma_method_error_stays(fields, n, m - 1, record);
    }
}

/// The builder of the type `ident` with the fields `fields`.
pub fn expand_filter_struct(ident: &str, fields: &Vec<Field>, record: bool) -> (r: Result<
    FilterPlan,
    DeriveError,
>)
    requires
        record ==> id_types_readable(fields@),
    ensures
        match r {
            Ok(plan) => plan.struct_name@ == filter_struct_name(ident@) && filter_methods(
                fields@,
                fields@.len() as int,
                record,
            ) == Ok::<Seq<FilterMethodModel>, DeriveError>(methods_of(plan.methods@)),
            Err(e) => filter_methods(fields@, fields@.len() as int, record) == Err::<
                Seq<FilterMethodModel>,
                DeriveError,
            >(e),
        },
{
    let mut methods: Vec<FilterMethod> = Vec::new();
    let mut i: usize = 0;
    assert(methods_of(methods@) =~= Seq::empty());
    while i < fields.len()
        invariant
            0 <= i <= fields@.len(),
            record ==> id_types_readable(fields@),
            filter_methods(fields@, i as int, record) == Ok::<
                Seq<FilterMethodModel>,
                DeriveError,
            >(methods_of(methods@)),
        decreases fields@.len() - i,
    {
        if !fields[i].skip {
            match expand_filter_struct_function(&fields[i], record) {
                Ok(method) => {
                    let ghost before = methods_of(methods@);
                    methods.push(method);
                    assert(methods_of(methods@) =~= before.push(method@));
                },
                Err(e) => {
                    proof {
                        lemma_method_error_stays(
                            fields@,
                            i as int + 1,
                            fields@.len() as int,
                            record,
                        );
                    }
                    return Err(e);
                },
            }
        }
        i += 1;
    }
    Ok(FilterPlan { struct_name: get_filter_struct_ident(ident), methods })
}

/// The getters of the first `n` fields: one for each field that asks for
/// it, named as the field asks or `get_by_` and the field's name.
pub open spec fn getters(fields: Seq<Field>, n: int) -> Seq<GetterModel>
    decreases n,
{
    if n <= 0 {
        Seq::empty()
    } else {
        let before = getters(fields, n - 1);
        match fields[n - 1].get {
            Some(get) => before.push(
                GetterModel {
                    name: match get.name {
                        Some(name) => name@,
                        None => getter_name(fields[n - 1].field_name_spec()),
                    },
                    field_name: fields[n - 1].field_name_spec(),
                },
            ),
            None => before,
        }
    }
}

/// The getters of the fields `fields`.
pub fn expand_mongo_fields_impl(fields: &Vec<Field>) -> (r: Vec<Getter>)
    ensures
        getters_of(r@) == getters(fields@, fields@.len() as int),
{
    let mut found: Vec<Getter> = Vec::new();
    let mut i: usize = 0;
    assert(getters_of(found@) =~= Seq::empty());
    while i < fields.len()
        invariant
            0 <= i <= fields@.len(),
            getters_of(found@) == getters(fields@, i as int),
        decreases fields@.len() - i,
    {
        match &fields[i].get {
            Some(get) => {
                let field_name = fields[i].get_field_name().clone();
                let name = get_getter_name(field_name.as_str(), get.name.as_ref());
                let ghost before = getters_of(found@);
                let getter = Getter { name, field_name };
                found.push(getter);
                assert(getters_of(found@) =~= before.push(getter@));
            },
            None => {},
        }
        i += 1;
    }
    found
}

/// What is generated for the record type `input`, or why nothing can be:
/// the identifier field is found and checked first, then each field gets its
/// builder method, then a MongoDB record gets its collection and getters.
pub open spec fn model_plan(input: ModelInput) -> Result<ModelPlanModel, DeriveError> {
    let fields = input.fields@;
    match id_position(fields, fields.len() as int) {
        None => Err(DeriveError::MissingId),
        Some(i) => match id_field_checked(fields[i], input.mongo is Some) {
            Err(e) => Err(e),
            Ok(()) => match id_type(fields[i].ty) {
                Err(e) => Err(e),
                Ok(t) => match filter_methods(fields, fields.len() as int, true) {
                    Err(e) => Err(e),
                    Ok(methods) => Ok(
                        ModelPlanModel {
                            id_type: t,
                            filter: FilterPlanModel {
                                struct_name: filter_struct_name(input.ident@),
                                methods,
                            },
                            mongo: match input.mongo {
                                None => None,
                                Some(attrs) => Some(
                                    MongoPlanModel {
                                        collection_name: collection_name(
                                            input.ident@,
                                            match attrs.collection {
                                                Some(c) => Some(c@),
                                                None => None,
                                            },
                                        ),
                                        getters: getters(fields, fields.len() as int),
                                    },
                                ),
                            },
                        },
                    ),
                },
            },
        },
    }
}

/// What is generated for the record type `input`, or why nothing can be.
pub fn expand(input: &ModelInput) -> (r: Result<ModelPlan, DeriveError>)
    requires
        id_types_readable(input.fields@),
    ensures
        match r {
            Ok(plan) => model_plan(*input) == Ok::<ModelPlanModel, DeriveError>(plan@),
            Err(e) => model_plan(*input) == Err::<ModelPlanModel, DeriveError>(e),
        },
{
    let position = match find_id_field(&input.fields) {
        Some(i) => i,
        None => {
            return Err(DeriveError::MissingId);
        },
    };
    let id_field = &input.fields[position];
    match validate_id_field(id_field, input.mongo.is_some()) {
        Ok(()) => {},
        Err(e) => {
            return Err(e);
        },
    }
    let id_type = match get_id_type(id_field) {
        Ok(t) => t,
        Err(e) => {
            return Err(e);
        },
    };
    let filter = match expand_filter_struct(input.ident.as_str(), &input.fields, true) {
        Ok(plan) => plan,
        Err(e) => {
            return Err(e);
        },
    };
    let mongo = match &input.mongo {
        Some(attrs) => Some(
            MongoPlan {
                collection_name: get_collection_name(
                    input.ident.as_str(),
                    attrs.collection.as_ref(),
                ),
                getters: expand_mongo_fields_impl(&input.fields),
            },
        ),
        None => None,
    };
    Ok(ModelPlan { id_type, filter, mongo })
}

} // verus!
