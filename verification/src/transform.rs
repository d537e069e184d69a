//! The rewrite of a schema that gives its fields the wrapper type.

use crate::schema::{
    generic_arg_models, lemma_angle_model, lemma_path_model, segment_models, GenericArg,
    GenericArgModel, PathArguments, PathArgumentsModel, PathSegment, PathSegmentModel, TypeExpr,
    TypeModel, TypePath, TypePathModel,
};
use crate::util::reversed;
use vstd::prelude::*;

verus! {

/// Why a schema cannot be rewritten.
#[derive(Clone, Copy, Debug, PartialEq, Eq, Structural)]
pub enum Fault {
    /// The transformation was given parameters; it takes none.
    UnexpectedParameters,
    /// The schema is a union.
    UnionNotSupported,
    /// A directive holds something else than `skip` or `generics_only`.
    UnknownDirective,
    /// `generics_only` stands on an enum variant.
    GenericsOnlyOnVariant,
    /// `generics_only` on a path with a qualified self type.
    QualifiedSelf,
    /// `generics_only` on a type that is no path.
    NotAPath,
    /// `generics_only` met a generic argument that is no type.
    NonTypeArgument,
    /// `generics_only` met arguments in round brackets.
    UnexpectedArguments,
    /// `generics_only` found no type argument to wrap.
    NoGenerics,
}

/// The wrapper type around `ty`: `::serde_env_field::EnvField<ty>`.
pub open spec fn wrapped(ty: TypeModel) -> TypeModel {
    TypeModel::Path(
        TypePathModel {
            qself: None,
            leading_colon: true,
            segments: seq![
                PathSegmentModel { ident: "serde_env_field"@, arguments: PathArgumentsModel::Plain },
                PathSegmentModel {
                    ident: "EnvField"@,
                    arguments: PathArgumentsModel::AngleBracketed(seq![GenericArgModel::Type(ty)]),
                },
            ],
        },
    )
}

/// Whether every argument is a type.
pub open spec fn all_types(args: Seq<GenericArgModel>) -> bool {
    forall|i: int| 0 <= i < args.len() ==> (#[trigger] args[i]) is Type
}

/// Each type argument wrapped, in order.
pub open spec fn wrapped_args(args: Seq<GenericArgModel>) -> Seq<GenericArgModel> {
    Seq::new(args.len(), |i: int| GenericArgModel::Type(wrapped(args[i]->Type_0)))
}

/// What is wrong with one segment when only its generics are to be wrapped.
pub open spec fn segment_fault(segment: PathSegmentModel) -> Option<Fault> {
    match segment.arguments {
        PathArgumentsModel::Plain => None,
        PathArgumentsModel::AngleBracketed(args) => if all_types(args) {
            None
        } else {
            Some(Fault::NonTypeArgument)
        },
        PathArgumentsModel::Parenthesized(_) => Some(Fault::UnexpectedArguments),
    }
}

/// The fault of the first segment that has one.
pub open spec fn first_fault(segments: Seq<PathSegmentModel>) -> Option<Fault>
    decreases segments.len(),
{
    if segments.len() == 0 {
        None
    } else {
        match first_fault(segments.drop_last()) {
            Some(fault) => Some(fault),
            None => segment_fault(segments.last()),
        }
    }
}

/// The segments without arguments, in order.
pub open spec fn leading_segments(segments: Seq<PathSegmentModel>) -> Seq<PathSegmentModel>
    decreases segments.len(),
{
    if segments.len() == 0 {
        Seq::empty()
    } else if segments.last().arguments is Plain {
        leading_segments(segments.drop_last()).push(segments.last())
    } else {
        leading_segments(segments.drop_last())
    }
}

/// The last segment with arguments in angle brackets.
pub open spec fn generic_segment(segments: Seq<PathSegmentModel>) -> Option<PathSegmentModel>
    decreases segments.len(),
{
    if segments.len() == 0 {
        None
    } else if segments.last().arguments is AngleBracketed {
        Some(segments.last())
    } else {
        generic_segment(segments.drop_last())
    }
}

/// The segment `segment` with each of its arguments wrapped.
pub open spec fn wrapped_segment(segment: PathSegmentModel) -> PathSegmentModel {
    PathSegmentModel {
        ident: segment.ident,
        arguments: PathArgumentsModel::AngleBracketed(
            wrapped_args(segment.arguments->AngleBracketed_0),
        ),
    }
}

/// The type `ty` with only its generic arguments wrapped.
///
/// The result is the path of the segments without arguments followed by the
/// last generic segment, whose arguments are each wrapped. It is an error when
/// the type is no plain path, when a segment has arguments in round brackets
/// or an argument that is no type, and when there is no type argument at all.
pub open spec fn generics_only(ty: TypeModel) -> Result<TypeModel, Fault> {
    match ty {
        TypeModel::Other(_) => Err(Fault::NotAPath),
        TypeModel::Path(path) => if path.qself is Some {
            Err(Fault::QualifiedSelf)
        } else if first_fault(path.segments) is Some {
            Err(first_fault(path.segments)->Some_0)
        } else {
            match generic_segment(path.segments) {
                Some(segment) => if segment.arguments->AngleBracketed_0.len() > 0 {
                    Ok(
                        TypeModel::Path(
                            TypePathModel {
                                qself: None,
                                leading_colon: path.leading_colon,
                                segments: leading_segments(path.segments).push(
                                    wrapped_segment(segment),
                                ),
                            },
                        ),
                    )
                } else {
                    Err(Fault::NoGenerics)
                },
                None => Err(Fault::NoGenerics),
            }
        },
    }
}

/// The model of a type or the fault in its place.
pub open spec fn type_outcome(outcome: Result<TypeExpr, Fault>) -> Result<TypeModel, Fault> {
    match outcome {
        Ok(ty) => Ok(ty@),
        Err(fault) => Err(fault),
    }
}

/// Wraps the whole type: `X` becomes `::serde_env_field::EnvField<X>`.
pub fn wrap(ty: TypeExpr) -> (out: TypeExpr)
    ensures
        out@ == wrapped(ty@),
{
    let mut args: Vec<GenericArg> = Vec::new();
    args.push(GenericArg::Type(ty));
    let mut segments: Vec<PathSegment> = Vec::new();
    segments.push(PathSegment { ident: "serde_env_field".to_owned(), arguments: PathArguments::Plain });
    segments.push(
        PathSegment { ident: "EnvField".to_owned(), arguments: PathArguments::AngleBracketed(args) },
    );
    let path = TypePath { qself: None, leading_colon: true, segments };
    proof {
        lemma_angle_model(segments@[1].ident, args);
        assert(generic_arg_models(args@) =~= seq![GenericArgModel::Type(ty@)]);
        lemma_path_model(path);
        assert(segment_models(segments@) =~= wrapped(ty@)->Path_0.segments);
    }
    TypeExpr::Path(path)
}

/// Wraps each argument, or reports the first one that is no type.
fn wrap_arguments(args: Vec<GenericArg>) -> (out: Result<Vec<GenericArg>, Fault>)
    ensures
        match out {
            Ok(done) => all_types(generic_arg_models(args@)) && generic_arg_models(done@)
                == wrapped_args(generic_arg_models(args@)),
            Err(fault) => !all_types(generic_arg_models(args@)) && fault == Fault::NonTypeArgument,
        },
{
    let ghost all = args@;
    let ghost models = generic_arg_models(args@);
    let mut rest = reversed(args);
    let mut done: Vec<GenericArg> = Vec::new();
    while rest.len() > 0
        invariant
            all == args@,
            models == generic_arg_models(all),
            rest@.len() + done@.len() == all.len(),
            forall|i: int| 0 <= i < rest@.len() ==> rest@[i] == all[all.len() - 1 - i],
            forall|i: int| 0 <= i < done@.len() ==> (#[trigger] models[i]) is Type,
            forall|i: int|
                0 <= i < done@.len() ==> (#[trigger] done@[i])@ == GenericArgModel::Type(
                    wrapped(models[i]->Type_0),
                ),
        decreases rest@.len(),
    {
        let ghost at = done@.len() as int;
        let arg = rest.pop().unwrap();
        assert(arg == all[at]);
        assert(models[at] == arg@);
        match arg {
            GenericArg::Type(ty) => {
                done.push(GenericArg::Type(wrap(ty)));
            },
            GenericArg::Other(_) => {
                assert(!(models[at] is Type));
                return Err(Fault::NonTypeArgument);
            },
        }
    }
    proof {
        assert(generic_arg_models(done@) =~= wrapped_args(models));
    }
    Ok(done)
}

/// A fault found in a prefix of the segments is the fault of the whole path.
proof fn lemma_fault_stays(segments: Seq<PathSegmentModel>, k: int)
    requires
        0 <= k <= segments.len(),
        first_fault(segments.take(k)) is Some,
    ensures
        first_fault(segments) == first_fault(segments.take(k)),
    decreases segments.len() - k,
{
    if k < segments.len() {
        assert(segments.drop_last().take(k) =~= segments.take(k));
        lemma_fault_stays(segments.drop_last(), k);
    } else {
        assert(segments.take(k) =~= segments);
    }
}

/// Wraps only the generic arguments of `ty`: `Option<X>` becomes
/// `Option<::serde_env_field::EnvField<X>>`.
pub fn wrap_generics_only(ty: TypeExpr) -> (out: Result<TypeExpr, Fault>)
    ensures
        type_outcome(out) == generics_only(ty@),
{
    match ty {
        TypeExpr::Other(_) => Err(Fault::NotAPath),
        TypeExpr::Path(path) => {
            proof {
                lemma_path_model(path);
            }
            if path.qself.is_some() {
                return Err(Fault::QualifiedSelf);
            }
            let leading_colon = path.leading_colon;
            let ghost all = path.segments@;
            let ghost models = segment_models(all);
            let mut rest = reversed(path.segments);
            let mut leading: Vec<PathSegment> = Vec::new();
            let mut generic: Option<(String, Vec<GenericArg>)> = None;
            let ghost mut seen: int = 0;
            while rest.len() > 0
                invariant
                    ty@ == TypeModel::Path(
                        TypePathModel { qself: None, leading_colon, segments: models },
                    ),
                    models == segment_models(all),
                    0 <= seen <= all.len(),
                    rest@.len() + seen == all.len(),
                    forall|i: int| 0 <= i < rest@.len() ==> rest@[i] == all[all.len() - 1 - i],
                    first_fault(models.take(seen)) is None,
                    segment_models(leading@) == leading_segments(models.take(seen)),
                    match generic {
                        Some((ident, args)) => {
                            &&& generic_segment(models.take(seen)) is Some
                            &&& ident@ == generic_segment(models.take(seen))->Some_0.ident
                            &&& generic_arg_models(args@) == wrapped_args(
                                generic_segment(
                                    models.take(seen),
                                )->Some_0.arguments->AngleBracketed_0,
                            )
                        },
                        None => generic_segment(models.take(seen)) is None,
                    },
                decreases rest@.len(),
            {
                let segment = rest.pop().unwrap();
                proof {
                    assert(segment == all[seen]);
                    assert(models[seen] == segment@);
                    assert(models.take(seen + 1).drop_last() =~= models.take(seen));
                    assert(models.take(seen + 1).last() == models[seen]);
                }
                let PathSegment { ident, arguments } = segment;
                match arguments {
                    PathArguments::Plain => {
                        let ghost before = leading@;
                        leading.push(PathSegment { ident, arguments: PathArguments::Plain });
                        proof {
                            assert(segment_models(leading@) =~= segment_models(before).push(
                                models[seen],
                            ));
                        }
                    },
                    PathArguments::AngleBracketed(args) => {
                        proof {
                            lemma_angle_model(ident, args);
                        }
                        match wrap_arguments(args) {
                            Ok(done) => {
                                generic = Some((ident, done));
                            },
                            Err(fault) => {
                                proof {
                                    lemma_fault_stays(models, seen + 1);
                                }
                                return Err(fault);
                            },
                        }
                    },
                    PathArguments::Parenthesized(_) => {
                        proof {
                            lemma_fault_stays(models, seen + 1);
                        }
                        return Err(Fault::UnexpectedArguments);
                    },
                }
                proof {
                    seen = seen + 1;
                }
            }
            proof {
                assert(models.take(seen) =~= models);
            }
            match generic {
                Some((ident, args)) => {
                    if args.len() == 0 {
                        return Err(Fault::NoGenerics);
                    }
                    let ghost before = leading@;
                    let last = PathSegment { ident, arguments: PathArguments::AngleBracketed(args) };
                    proof {
                        lemma_angle_model(ident, args);
                    }
                    leading.push(last);
                    let path = TypePath { qself: None, leading_colon, segments: leading };
                    proof {
                        lemma_path_model(path);
                        assert(segment_models(leading@) =~= segment_models(before).push(last@));
                    }
                    Ok(TypeExpr::Path(path))
                },
                None => Err(Fault::NoGenerics),
            }
        },
    }
}

} // verus!
