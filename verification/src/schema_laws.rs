//! What holds of the rewrite of a schema, for every schema.

use crate::classify::{env_field_names, is_type_spec, option_names, vec_names};
use crate::directive::{attrs_left, directive_taken, WrapAttr};
use crate::rewrite::{
    at_field, at_variant, field_rewritten, field_type, fields_rewritten, schema_rewritten,
    variant_rewritten, variants_rewritten, SchemaErrorModel,
};
use crate::schema::{
    FieldModel, PathArgumentsModel, PathSegmentModel, SchemaModel, TypeModel, TypePathModel,
    VariantModel,
};
use crate::transform::{
    all_types, first_fault, generic_segment, generics_only, leading_segments, wrapped,
    wrapped_segment, Fault,
};
use vstd::prelude::*;

verus! {

/// Whether the path is a generic type application: no qualified self type, no
/// arguments but on the last segment, and there at least one argument, all of
/// them types.
pub open spec fn generic_application(path: TypePathModel) -> bool {
    &&& path.qself is None
    &&& path.segments.len() > 0
    &&& forall|i: int|
        0 <= i < path.segments.len() - 1 ==> (#[trigger] path.segments[i]).arguments is Plain
    &&& path.segments.last().arguments matches PathArgumentsModel::AngleBracketed(args)
    &&& args.len() > 0
    &&& all_types(args)
}

/// The generic type application `path` with each of its arguments wrapped.
pub open spec fn arguments_wrapped(path: TypePathModel) -> TypeModel {
    TypeModel::Path(
        TypePathModel {
            qself: None,
            leading_colon: path.leading_colon,
            segments: path.segments.drop_last().push(wrapped_segment(path.segments.last())),
        },
    )
}

proof fn lemma_plain_segments(segments: Seq<PathSegmentModel>)
    requires
        forall|i: int| 0 <= i < segments.len() ==> (#[trigger] segments[i]).arguments is Plain,
    ensures
        first_fault(segments) is None,
        leading_segments(segments) == segments,
        generic_segment(segments) is None,
    decreases segments.len(),
{
    if segments.len() > 0 {
        let shorter = segments.drop_last();
        assert forall|i: int| 0 <= i < shorter.len() implies (
        #[trigger] shorter[i]).arguments is Plain by {
            assert(shorter[i] == segments[i]);
        }
        lemma_plain_segments(shorter);
        assert(segments[segments.len() - 1].arguments is Plain);
        assert(shorter.push(segments.last()) =~= segments);
    } else {
        assert(leading_segments(segments) =~= segments);
    }
}

/// Wrapping the generics only of a generic type application gives the same
/// application with each argument wrapped: `Container<A, B>` becomes
/// `Container<EnvField<A>, EnvField<B>>`, under any path and with any number
/// of arguments.
pub proof fn lemma_generics_only_wraps_arguments(path: TypePathModel)
    requires
        generic_application(path),
    ensures
        generics_only(TypeModel::Path(path)) == Ok::<TypeModel, Fault>(arguments_wrapped(path)),
{
    let shorter = path.segments.drop_last();
    assert forall|i: int| 0 <= i < shorter.len() implies (#[trigger] shorter[i]).arguments is Plain by {
        assert(shorter[i] == path.segments[i]);
    }
    lemma_plain_segments(shorter);
}

/// A field without a directive whose type is spelled as `Option` or `Vec`
/// keeps that type, with its argument wrapped.
pub proof fn lemma_container_keeps_its_shape(path: TypePathModel)
    requires
        generic_application(path),
        is_type_spec(TypeModel::Path(path), option_names()) || is_type_spec(
            TypeModel::Path(path),
            vec_names(),
        ),
    ensures
        field_type(None, TypeModel::Path(path)) == Ok::<TypeModel, Fault>(arguments_wrapped(path)),
{
    lemma_generics_only_wraps_arguments(path);
}

/// The spellings of the wrapper are spellings neither of `Option` nor of `Vec`.
pub proof fn lemma_names_apart()
    ensures
        forall|name: Seq<char>|
            env_field_names().contains(name) ==> !option_names().contains(name)
                && !vec_names().contains(name),
{
    reveal_strlit("Option");
    reveal_strlit("std::option::Option");
    reveal_strlit("core::option::Option");
    reveal_strlit("Vec");
    reveal_strlit("std::vec::Vec");
    reveal_strlit("alloc::vec::Vec");
    reveal_strlit("EnvField");
    reveal_strlit("serde_env_field::EnvField");
    assert forall|name: Seq<char>| env_field_names().contains(name) implies !option_names().contains(
        name,
    ) && !vec_names().contains(name) by {
        assert(name.len() == 8 || name.len() == 25);
        if option_names().contains(name) {
            let i = choose|i: int| 0 <= i < option_names().len() && option_names()[i] == name;
            assert(option_names()[i].len() == 6 || option_names()[i].len() == 19
                || option_names()[i].len() == 20);
        }
        if vec_names().contains(name) {
            let i = choose|i: int| 0 <= i < vec_names().len() && vec_names()[i] == name;
            assert(vec_names()[i].len() == 3 || vec_names()[i].len() == 13 || vec_names()[i].len()
                == 15);
        }
    }
}

/// A field without a directive whose type is spelled as the wrapper keeps its
/// type: nothing is wrapped twice.
pub proof fn lemma_wrapped_stays(ty: TypeModel)
    requires
        is_type_spec(ty, env_field_names()),
    ensures
        field_type(None, ty) == Ok::<TypeModel, Fault>(ty),
{
    lemma_names_apart();
}

/// A field without a directive whose type is spelled neither as the wrapper nor
/// as `Option` or `Vec` is wrapped whole: `X` becomes `EnvField<X>`.
pub proof fn lemma_plain_is_wrapped(ty: TypeModel)
    requires
        !is_type_spec(ty, option_names()),
        !is_type_spec(ty, vec_names()),
        !is_type_spec(ty, env_field_names()),
    ensures
        field_type(None, ty) == Ok::<TypeModel, Fault>(wrapped(ty)),
{
}

/// A field under `skip` keeps its type, whatever the type is; only the
/// directive leaves.
pub proof fn lemma_skip_keeps_field(field: FieldModel)
    requires
        directive_taken(field.attrs) == Ok::<Option<WrapAttr>, Seq<char>>(Some(WrapAttr::Skip)),
    ensures
        field_rewritten(field) == Ok::<FieldModel, SchemaErrorModel>(
            FieldModel {
                attrs: attrs_left(field.attrs),
                vis: field.vis,
                ident: field.ident,
                ty: field.ty,
            },
        ),
{
}

/// A variant under `skip` keeps all of its fields as they are, directives on
/// them included; only its own directive leaves.
pub proof fn lemma_skip_keeps_variant(variant: VariantModel)
    requires
        directive_taken(variant.attrs) == Ok::<Option<WrapAttr>, Seq<char>>(Some(WrapAttr::Skip)),
    ensures
        variant_rewritten(variant) == Ok::<VariantModel, SchemaErrorModel>(
            VariantModel {
                attrs: attrs_left(variant.attrs),
                ident: variant.ident,
                fields: variant.fields,
                discriminant: variant.discriminant,
            },
        ),
{
}

/// The fields are rewritten one by one, each on its own: the rewrite succeeds
/// exactly when each field's does, and then gives each field's result in
/// order; and it fails with the error, and the position, of the first field
/// that fails.
pub proof fn lemma_fields_one_by_one(fields: Seq<FieldModel>)
    ensures
        match fields_rewritten(fields) {
            Ok(done) => {
                &&& done.len() == fields.len()
                &&& forall|i: int|
                    0 <= i < fields.len() ==> field_rewritten(#[trigger] fields[i]) == Ok::<
                        FieldModel,
                        SchemaErrorModel,
                    >(done[i])
            },
            Err(error) => exists|i: int|
                {
                    &&& 0 <= i < fields.len()
                    &&& field_rewritten(#[trigger] fields[i]) is Err
                    &&& error == at_field(field_rewritten(fields[i])->Err_0, i)
                    &&& forall|j: int| 0 <= j < i ==> field_rewritten(#[trigger] fields[j]) is Ok
                },
        },
    decreases fields.len(),
{
    if fields.len() > 0 {
        let shorter = fields.drop_last();
        lemma_fields_one_by_one(shorter);
        assert(forall|i: int| 0 <= i < shorter.len() ==> shorter[i] == fields[i]);
        match fields_rewritten(shorter) {
            Ok(done) => {
                if field_rewritten(fields.last()) is Err {
                    let i = fields.len() - 1;
                    assert(field_rewritten(fields[i]) is Err);
                }
            },
            Err(error) => {
                let i = choose|i: int|
                    {
                        &&& 0 <= i < shorter.len()
                        &&& field_rewritten(#[trigger] shorter[i]) is Err
                        &&& error == at_field(field_rewritten(shorter[i])->Err_0, i)
                        &&& forall|j: int|
                            0 <= j < i ==> field_rewritten(#[trigger] shorter[j]) is Ok
                    };
                assert(field_rewritten(fields[i]) is Err);
            },
        }
    }
}

/// The variants are rewritten one by one, each on its own: a directive on one
/// variant changes nothing for its siblings. The rewrite succeeds exactly when
/// each variant's does, and then gives each variant's result in order; and it
/// fails with the error, and the position, of the first variant that fails.
pub proof fn lemma_variants_one_by_one(variants: Seq<VariantModel>)
    ensures
        match variants_rewritten(variants) {
            Ok(done) => {
                &&& done.len() == variants.len()
                &&& forall|i: int|
                    0 <= i < variants.len() ==> variant_rewritten(#[trigger] variants[i]) == Ok::<
                        VariantModel,
                        SchemaErrorModel,
                    >(done[i])
            },
            Err(error) => exists|i: int|
                {
                    &&& 0 <= i < variants.len()
                    &&& variant_rewritten(#[trigger] variants[i]) is Err
                    &&& error == at_variant(variant_rewritten(variants[i])->Err_0, i)
                    &&& forall|j: int|
                        0 <= j < i ==> variant_rewritten(#[trigger] variants[j]) is Ok
                },
        },
    decreases variants.len(),
{
    if variants.len() > 0 {
        let shorter = variants.drop_last();
        lemma_variants_one_by_one(shorter);
        assert(forall|i: int| 0 <= i < shorter.len() ==> shorter[i] == variants[i]);
        match variants_rewritten(shorter) {
            Ok(done) => {
                if variant_rewritten(variants.last()) is Err {
                    let i = variants.len() - 1;
                    assert(variant_rewritten(variants[i]) is Err);
                }
            },
            Err(error) => {
                let i = choose|i: int|
                    {
                        &&& 0 <= i < shorter.len()
                        &&& variant_rewritten(#[trigger] shorter[i]) is Err
                        &&& error == at_variant(variant_rewritten(shorter[i])->Err_0, i)
                        &&& forall|j: int|
                            0 <= j < i ==> variant_rewritten(#[trigger] shorter[j]) is Ok
                    };
                assert(variant_rewritten(variants[i]) is Err);
            },
        }
    }
}

/// A rewritten schema keeps its attributes, visibility, name, generic
/// parameters and where clause.
pub proof fn lemma_schema_keeps_the_rest(params: Seq<char>, schema: SchemaModel)
    requires
        schema_rewritten(params, schema) is Ok,
    ensures
        ({
            let out = schema_rewritten(params, schema)->Ok_0;
            &&& out.attrs == schema.attrs
            &&& out.vis == schema.vis
            &&& out.ident == schema.ident
            &&& out.generics == schema.generics
            &&& out.where_clause == schema.where_clause
        }),
{
}

/// A rewritten variant keeps its name and its discriminant, and its
/// attributes but for the directive.
pub proof fn lemma_variant_keeps_the_rest(variant: VariantModel)
    requires
        variant_rewritten(variant) is Ok,
    ensures
        ({
            let out = variant_rewritten(variant)->Ok_0;
            &&& out.attrs == attrs_left(variant.attrs)
            &&& out.ident == variant.ident
            &&& out.discriminant == variant.discriminant
        }),
{
}

/// A rewritten field keeps its visibility and its name, and its attributes
/// but for the directive.
pub proof fn lemma_field_keeps_the_rest(field: FieldModel)
    requires
        field_rewritten(field) is Ok,
    ensures
        ({
            let out = field_rewritten(field)->Ok_0;
            &&& out.attrs == attrs_left(field.attrs)
            &&& out.vis == field.vis
            &&& out.ident == field.ident
        }),
{
}

} // verus!
