//! The rewrite of whole fields, variants and schemas.

use crate::classify::{class_of, classify, TypeClass};
use crate::directive::{attrs_left, directive_taken, take_env_field_wrap_attr, WrapAttr};
use crate::schema::{
    field_models, variant_models, Data, DataModel, Field, FieldModel, Fields,
    FieldsModel, Schema, SchemaModel, TypeExpr, TypeModel, Variant, VariantModel,
};
use crate::transform::{generics_only, wrap, wrap_generics_only, wrapped, Fault};
use crate::util::reversed;
use vstd::prelude::*;
use vstd::string::StringExecFns;

verus! {

/// Why, and where, a schema could not be rewritten.
#[derive(Debug, PartialEq, Eq)]
pub struct SchemaError {
    pub fault: Fault,
    /// The position of the offending variant, in an enum.
    pub variant: Option<usize>,
    /// The position of the offending field among its siblings.
    pub field: Option<usize>,
    /// The text of an unknown directive; empty for the other faults.
    pub detail: String,
}

/// Model of a [`SchemaError`].
pub struct SchemaErrorModel {
    pub fault: Fault,
    pub variant: Option<int>,
    pub field: Option<int>,
    pub detail: Seq<char>,
}

pub open spec fn position_model(position: Option<usize>) -> Option<int> {
    match position {
        Some(i) => Some(i as int),
        None => None,
    }
}

impl View for SchemaError {
    type V = SchemaErrorModel;

    open spec fn view(&self) -> SchemaErrorModel {
        SchemaErrorModel {
            fault: self.fault,
            variant: position_model(self.variant),
            field: position_model(self.field),
            detail: self.detail@,
        }
    }
}

/// The message of each fault but that of an unknown directive.
pub open spec fn fault_text(fault: Fault) -> Seq<char> {
    match fault {
        Fault::UnexpectedParameters => "The `env_field_wrap` doesn't take any parameters"@,
        Fault::UnionNotSupported => "unions are not supported"@,
        Fault::UnknownDirective => "unsupported `env_field_wrap` directive: "@,
        Fault::GenericsOnlyOnVariant => "`generics_only` is supported only for fields, not for enum variants"@,
        Fault::QualifiedSelf => "generics_only: a plan type path with generics is expected"@,
        Fault::NotAPath => "generics_only: a type with generic(s) is expected"@,
        Fault::NonTypeArgument => "generics_only: a type is expected"@,
        Fault::UnexpectedArguments => "generics_only: unexpected type arguments"@,
        Fault::NoGenerics => "generics_only: no generics found"@,
    }
}

/// The message of an error. That of an unknown directive ends with the
/// directive's text.
pub open spec fn error_text(error: SchemaErrorModel) -> Seq<char> {
    fault_text(error.fault) + error.detail
}

impl SchemaError {
    /// The message of the error, for the one who wrote the schema.
    pub fn message(&self) -> (text: String)
        ensures
            text@ == error_text(self@),
    {
        let mut text = match self.fault {
            Fault::UnexpectedParameters => String::from_str(
                "The `env_field_wrap` doesn't take any parameters",
            ),
            Fault::UnionNotSupported => String::from_str("unions are not supported"),
            Fault::UnknownDirective => String::from_str("unsupported `env_field_wrap` directive: "),
            Fault::GenericsOnlyOnVariant => String::from_str(
                "`generics_only` is supported only for fields, not for enum variants",
            ),
            Fault::QualifiedSelf => String::from_str(
                "generics_only: a plan type path with generics is expected",
            ),
            Fault::NotAPath => String::from_str("generics_only: a type with generic(s) is expected"),
            Fault::NonTypeArgument => String::from_str("generics_only: a type is expected"),
            Fault::UnexpectedArguments => String::from_str(
                "generics_only: unexpected type arguments",
            ),
            Fault::NoGenerics => String::from_str("generics_only: no generics found"),
        };
        text.append(self.detail.as_str());
        text
    }
}

/// The error for `fault`, not yet placed on a field or a variant.
pub open spec fn failure(fault: Fault) -> SchemaErrorModel {
    SchemaErrorModel { fault, variant: None, field: None, detail: Seq::empty() }
}

/// The type that a field declared as `ty` gets under `directive`.
///
/// `skip` keeps the type. `generics_only` wraps its generic arguments. With no
/// directive, a type spelled as the wrapper is kept, one spelled as `Option`
/// or `Vec` has its argument wrapped, and any other type is wrapped whole.
pub open spec fn field_type(directive: Option<WrapAttr>, ty: TypeModel) -> Result<TypeModel, Fault> {
    match directive {
        Some(WrapAttr::Skip) => Ok(ty),
        Some(WrapAttr::GenericsOnly) => generics_only(ty),
        None => match class_of(ty) {
            TypeClass::PassThrough => generics_only(ty),
            TypeClass::AlreadyWrapped => Ok(ty),
            TypeClass::Plain => Ok(wrapped(ty)),
        },
    }
}

/// The field without its directive and with its new type.
pub open spec fn field_rewritten(field: FieldModel) -> Result<FieldModel, SchemaErrorModel> {
    match directive_taken(field.attrs) {
        Err(tokens) => Err(
            SchemaErrorModel {
                fault: Fault::UnknownDirective,
                variant: None,
                field: None,
                detail: tokens,
            },
        ),
        Ok(directive) => match field_type(directive, field.ty) {
            Ok(ty) => Ok(
                FieldModel { attrs: attrs_left(field.attrs), vis: field.vis, ident: field.ident, ty },
            ),
            Err(fault) => Err(failure(fault)),
        },
    }
}

/// The model of a rewritten item of any kind, or of the error in its place.
pub open spec fn outcome_model<T: View>(outcome: Result<T, SchemaError>) -> Result<
    T::V,
    SchemaErrorModel,
> {
    match outcome {
        Ok(item) => Ok(item@),
        Err(error) => Err(error@),
    }
}

/// Decides the new type of a field from its directive and its declared type.
pub fn rewrite_type(directive: Option<WrapAttr>, ty: TypeExpr) -> (out: Result<TypeExpr, Fault>)
    ensures
        crate::transform::type_outcome(out) == field_type(directive, ty@),
{
    match directive {
        Some(WrapAttr::Skip) => Ok(ty),
        Some(WrapAttr::GenericsOnly) => wrap_generics_only(ty),
        None => match classify(&ty) {
            TypeClass::PassThrough => wrap_generics_only(ty),
            TypeClass::AlreadyWrapped => Ok(ty),
            TypeClass::Plain => Ok(wrap(ty)),
        },
    }
}

/// Rewrites one field: takes its directive off and gives it its new type.
pub fn process_field(field: Field) -> (out: Result<Field, SchemaError>)
    ensures
        outcome_model(out) == field_rewritten(field@),
{
    let Field { attrs, vis, ident, ty } = field;
    let mut attrs = attrs;
    match take_env_field_wrap_attr(&mut attrs) {
        Err(tokens) => Err(
            SchemaError { fault: Fault::UnknownDirective, variant: None, field: None, detail: tokens },
        ),
        Ok(directive) => match rewrite_type(directive, ty) {
            Ok(ty) => Ok(Field { attrs, vis, ident, ty }),
            Err(fault) => Err(
                SchemaError { fault, variant: None, field: None, detail: String::new() },
            ),
        },
    }
}

/// The error `error`, placed on the field at `position`.
pub open spec fn at_field(error: SchemaErrorModel, position: int) -> SchemaErrorModel {
    SchemaErrorModel {
        fault: error.fault,
        variant: error.variant,
        field: Some(position),
        detail: error.detail,
    }
}

/// The error `error`, placed on the variant at `position`.
pub open spec fn at_variant(error: SchemaErrorModel, position: int) -> SchemaErrorModel {
    SchemaErrorModel {
        fault: error.fault,
        variant: Some(position),
        field: error.field,
        detail: error.detail,
    }
}

/// Every field rewritten, in order; or the error of the first field that
/// cannot be, with its position.
pub open spec fn fields_rewritten(fields: Seq<FieldModel>) -> Result<
    Seq<FieldModel>,
    SchemaErrorModel,
>
    decreases fields.len(),
{
    if fields.len() == 0 {
        Ok(Seq::empty())
    } else {
        match fields_rewritten(fields.drop_last()) {
            Err(error) => Err(error),
            Ok(done) => match field_rewritten(fields.last()) {
                Ok(field) => Ok(done.push(field)),
                Err(error) => Err(at_field(error, fields.len() - 1)),
            },
        }
    }
}

/// The fields of a struct or a variant, rewritten in their own shape.
pub open spec fn all_fields_rewritten(fields: FieldsModel) -> Result<FieldsModel, SchemaErrorModel> {
    match fields {
        FieldsModel::Named(named) => match fields_rewritten(named) {
            Ok(done) => Ok(FieldsModel::Named(done)),
            Err(error) => Err(error),
        },
        FieldsModel::Unnamed(unnamed) => match fields_rewritten(unnamed) {
            Ok(done) => Ok(FieldsModel::Unnamed(done)),
            Err(error) => Err(error),
        },
        FieldsModel::Unit => Ok(FieldsModel::Unit),
    }
}

/// The variant without its directive. Under `skip` its fields stay as they
/// are; with no directive each field is rewritten; `generics_only` is an error.
pub open spec fn variant_rewritten(variant: VariantModel) -> Result<VariantModel, SchemaErrorModel> {
    match directive_taken(variant.attrs) {
        Err(tokens) => Err(
            SchemaErrorModel {
                fault: Fault::UnknownDirective,
                variant: None,
                field: None,
                detail: tokens,
            },
        ),
        Ok(Some(WrapAttr::Skip)) => Ok(
            VariantModel {
                attrs: attrs_left(variant.attrs),
                ident: variant.ident,
                fields: variant.fields,
                discriminant: variant.discriminant,
            },
        ),
        Ok(Some(WrapAttr::GenericsOnly)) => Err(failure(Fault::GenericsOnlyOnVariant)),
        Ok(None) => match all_fields_rewritten(variant.fields) {
            Ok(fields) => Ok(
                VariantModel {
                    attrs: attrs_left(variant.attrs),
                    ident: variant.ident,
                    fields,
                    discriminant: variant.discriminant,
                },
            ),
            Err(error) => Err(error),
        },
    }
}

/// Every variant rewritten, in order; or the error of the first variant that
/// cannot be, with its position.
pub open spec fn variants_rewritten(variants: Seq<VariantModel>) -> Result<
    Seq<VariantModel>,
    SchemaErrorModel,
>
    decreases variants.len(),
{
    if variants.len() == 0 {
        Ok(Seq::empty())
    } else {
        match variants_rewritten(variants.drop_last()) {
            Err(error) => Err(error),
            Ok(done) => match variant_rewritten(variants.last()) {
                Ok(variant) => Ok(done.push(variant)),
                Err(error) => Err(at_variant(error, variants.len() - 1)),
            },
        }
    }
}

/// The body of an enum with every variant rewritten.
pub open spec fn enum_rewritten(variants: Seq<VariantModel>) -> Result<DataModel, SchemaErrorModel> {
    match variants_rewritten(variants) {
        Ok(done) => Ok(DataModel::Enum(done)),
        Err(error) => Err(error),
    }
}

/// The schema with every field rewritten and everything else kept:
/// attributes, visibility, name, generic parameters and where clause.
///
/// It is an error to pass parameters, and to pass a union.
pub open spec fn schema_rewritten(params: Seq<char>, schema: SchemaModel) -> Result<
    SchemaModel,
    SchemaErrorModel,
> {
    if params.len() > 0 {
        Err(failure(Fault::UnexpectedParameters))
    } else {
        let data = match schema.data {
            DataModel::Struct(fields) => match all_fields_rewritten(fields) {
                Ok(done) => Ok(DataModel::Struct(done)),
                Err(error) => Err(error),
            },
            DataModel::Enum(variants) => enum_rewritten(variants),
            DataModel::Union => Err(failure(Fault::UnionNotSupported)),
        };
        match data {
            Ok(data) => Ok(
                SchemaModel {
                    attrs: schema.attrs,
                    vis: schema.vis,
                    ident: schema.ident,
                    generics: schema.generics,
                    where_clause: schema.where_clause,
                    data,
                },
            ),
            Err(error) => Err(error),
        }
    }
}

/// An error among the first `k` fields is the error of them all.
proof fn lemma_field_error_stays(fields: Seq<FieldModel>, k: int)
    requires
        0 <= k <= fields.len(),
        fields_rewritten(fields.take(k)) is Err,
    ensures
        fields_rewritten(fields) == fields_rewritten(fields.take(k)),
    decreases fields.len() - k,
{
    if k < fields.len() {
        assert(fields.drop_last().take(k) =~= fields.take(k));
        lemma_field_error_stays(fields.drop_last(), k);
    } else {
        assert(fields.take(k) =~= fields);
    }
}

/// An error among the first `k` variants is the error of them all.
proof fn lemma_variant_error_stays(variants: Seq<VariantModel>, k: int)
    requires
        0 <= k <= variants.len(),
        variants_rewritten(variants.take(k)) is Err,
    ensures
        variants_rewritten(variants) == variants_rewritten(variants.take(k)),
    decreases variants.len() - k,
{
    if k < variants.len() {
        assert(variants.drop_last().take(k) =~= variants.take(k));
        lemma_variant_error_stays(variants.drop_last(), k);
    } else {
        assert(variants.take(k) =~= variants);
    }
}

/// Rewrites the fields in order and stops at the first that cannot be rewritten.
pub fn process_fields(fields: Vec<Field>) -> (out: Result<Vec<Field>, SchemaError>)
    ensures
        match out {
            Ok(done) => fields_rewritten(field_models(fields@)) == Ok::<
                Seq<FieldModel>,
                SchemaErrorModel,
            >(field_models(done@)),
            Err(error) => fields_rewritten(field_models(fields@)) == Err::<
                Seq<FieldModel>,
                SchemaErrorModel,
            >(error@),
        },
{
    let ghost all = fields@;
    let ghost models = field_models(all);
    let mut rest = reversed(fields);
    let mut done: Vec<Field> = Vec::new();
    proof {
        assert(field_models(done@) =~= Seq::empty());
    }
    while rest.len() > 0
        invariant
            all == fields@,
            models == field_models(all),
            rest@.len() + done@.len() == all.len(),
            forall|i: int| 0 <= i < rest@.len() ==> rest@[i] == all[all.len() - 1 - i],
            fields_rewritten(models.take(done@.len() as int)) == Ok::<
                Seq<FieldModel>,
                SchemaErrorModel,
            >(field_models(done@)),
        decreases rest@.len(),
    {
        let position = done.len();
        let ghost before = done@;
        let field = rest.pop().unwrap();
        proof {
            assert(field == all[position as int]);
            assert(models[position as int] == field@);
            assert(models.take(position + 1).drop_last() =~= models.take(position as int));
            assert(models.take(position + 1).last() == models[position as int]);
        }
        match process_field(field) {
            Ok(field) => {
                done.push(field);
                proof {
                    assert(field_models(done@) =~= field_models(before).push(field@));
                }
            },
            Err(error) => {
                proof {
                    lemma_field_error_stays(models, position + 1);
                }
                return Err(
                    SchemaError {
                        fault: error.fault,
                        variant: error.variant,
                        field: Some(position),
                        detail: error.detail,
                    },
                );
            },
        }
    }
    proof {
        assert(models.take(done@.len() as int) =~= models);
    }
    Ok(done)
}

/// Rewrites the fields of a struct or of a variant, whatever their shape.
pub fn wrap_fields(fields: Fields) -> (out: Result<Fields, SchemaError>)
    ensures
        outcome_model(out) == all_fields_rewritten(fields@),
{
    match fields {
        Fields::Named(named) => match process_fields(named) {
            Ok(done) => Ok(Fields::Named(done)),
            Err(error) => Err(error),
        },
        Fields::Unnamed(unnamed) => match process_fields(unnamed) {
            Ok(done) => Ok(Fields::Unnamed(done)),
            Err(error) => Err(error),
        },
        Fields::Unit => Ok(Fields::Unit),
    }
}

/// Rewrites one variant: takes its directive off and rewrites its fields.
pub fn process_variant(variant: Variant) -> (out: Result<Variant, SchemaError>)
    ensures
        outcome_model(out) == variant_rewritten(variant@),
{
    let Variant { attrs, ident, fields, discriminant } = variant;
    let mut attrs = attrs;
    match take_env_field_wrap_attr(&mut attrs) {
        Err(tokens) => Err(
            SchemaError { fault: Fault::UnknownDirective, variant: None, field: None, detail: tokens },
        ),
        Ok(Some(WrapAttr::Skip)) => Ok(Variant { attrs, ident, fields, discriminant }),
        Ok(Some(WrapAttr::GenericsOnly)) => Err(
            SchemaError {
                fault: Fault::GenericsOnlyOnVariant,
                variant: None,
                field: None,
                detail: String::new(),
            },
        ),
        Ok(None) => match wrap_fields(fields) {
            Ok(fields) => Ok(Variant { attrs, ident, fields, discriminant }),
            Err(error) => Err(error),
        },
    }
}

/// Rewrites the variants in order and stops at the first that cannot be rewritten.
pub fn process_variants(variants: Vec<Variant>) -> (out: Result<Vec<Variant>, SchemaError>)
    ensures
        match out {
            Ok(done) => variants_rewritten(variant_models(variants@)) == Ok::<
                Seq<VariantModel>,
                SchemaErrorModel,
            >(variant_models(done@)),
            Err(error) => variants_rewritten(variant_models(variants@)) == Err::<
                Seq<VariantModel>,
                SchemaErrorModel,
            >(error@),
        },
{
    let ghost all = variants@;
    let ghost models = variant_models(all);
    let mut rest = reversed(variants);
    let mut done: Vec<Variant> = Vec::new();
    proof {
        assert(variant_models(done@) =~= Seq::empty());
    }
    while rest.len() > 0
        invariant
            all == variants@,
            models == variant_models(all),
            rest@.len() + done@.len() == all.len(),
            forall|i: int| 0 <= i < rest@.len() ==> rest@[i] == all[all.len() - 1 - i],
            variants_rewritten(models.take(done@.len() as int)) == Ok::<
                Seq<VariantModel>,
                SchemaErrorModel,
            >(variant_models(done@)),
        decreases rest@.len(),
    {
        let position = done.len();
        let ghost before = done@;
        let variant = rest.pop().unwrap();
        proof {
            assert(variant == all[position as int]);
            assert(models[position as int] == variant@);
            assert(models.take(position + 1).drop_last() =~= models.take(position as int));
            assert(models.take(position + 1).last() == models[position as int]);
        }
        match process_variant(variant) {
            Ok(variant) => {
                done.push(variant);
                proof {
                    assert(variant_models(done@) =~= variant_models(before).push(variant@));
                }
            },
            Err(error) => {
                proof {
                    lemma_variant_error_stays(models, position + 1);
                }
                return Err(
                    SchemaError {
                        fault: error.fault,
                        variant: Some(position),
                        field: error.field,
                        detail: error.detail,
                    },
                );
            },
        }
    }
    proof {
        assert(models.take(done@.len() as int) =~= models);
    }
    Ok(done)
}

/// Rewrites the body of an enum.
pub fn enum_env_field_wrap(variants: Vec<Variant>) -> (out: Result<Data, SchemaError>)
    ensures
        outcome_model(out) == enum_rewritten(variant_models(variants@)),
{
    match process_variants(variants) {
        Ok(done) => Ok(Data::Enum(done)),
        Err(error) => Err(error),
    }
}

/// Refuses parameters: the transformation takes none.
pub fn check_params(params: &str) -> (out: Result<(), SchemaError>)
    ensures
        match out {
            Ok(_) => params@.len() == 0,
            Err(error) => params@.len() > 0 && error@ == failure(Fault::UnexpectedParameters),
        },
{
    if params.is_empty() {
        Ok(())
    } else {
        Err(
            SchemaError {
                fault: Fault::UnexpectedParameters,
                variant: None,
                field: None,
                detail: String::new(),
            },
        )
    }
}

/// Rewrites a struct or an enum so that its fields take the wrapper type.
///
/// `params` is the text of the parameters that the transformation was given;
/// it must be empty. Attributes, visibility, name, generic parameters and
/// where clause of the schema are kept, and so is the discriminant of each
/// variant; only the types of fields change, and the directives on fields and
/// variants are taken off.
pub fn env_field_wrap(params: &str, input: Schema) -> (out: Result<Schema, SchemaError>)
    ensures
        outcome_model(out) == schema_rewritten(params@, input@),
{
    match check_params(params) {
        Err(error) => {
            return Err(error);
        },
        Ok(_) => {},
    }
    let Schema { attrs, vis, ident, generics, where_clause, data } = input;
    let data = match data {
        Data::Struct(fields) => match wrap_fields(fields) {
            Ok(done) => Ok(Data::Struct(done)),
            Err(error) => Err(error),
        },
        Data::Enum(variants) => enum_env_field_wrap(variants),
        Data::Union => Err(
            SchemaError {
                fault: Fault::UnionNotSupported,
                variant: None,
                field: None,
                detail: String::new(),
            },
        ),
    };
    match data {
        Ok(data) => Ok(Schema { attrs, vis, ident, generics, where_clause, data }),
        Err(error) => Err(error),
    }
}

} // verus!
