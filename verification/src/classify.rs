//! Recognition of a type by the spelling of its path.
//!
//! Recognition is by name only: the identifiers of the path, joined by `::`,
//! are held against a fixed list of spellings. Arguments and a leading `::`
//! are not looked at, and no alias is resolved.

use crate::schema::{
    lemma_path_model, segment_models, PathSegment, PathSegmentModel, TypeExpr, TypeModel,
};
use vstd::prelude::*;
use vstd::string::StringExecFns;

verus! {

/// The identifiers of the segments, joined by `::`.
pub open spec fn path_name(segments: Seq<PathSegmentModel>) -> Seq<char>
    decreases segments.len(),
{
    if segments.len() == 0 {
        Seq::empty()
    } else if segments.len() == 1 {
        segments[0].ident
    } else {
        path_name(segments.drop_last()) + "::"@ + segments.last().ident
    }
}

/// Whether `ty` is a path without a qualified self type whose name is one of `names`.
pub open spec fn is_type_spec(ty: TypeModel, names: Seq<Seq<char>>) -> bool {
    &&& ty matches TypeModel::Path(path)
    &&& path.qself is None
    &&& path.segments.len() > 0
    &&& names.contains(path_name(path.segments))
}

/// The spellings under which the optional-value type is recognised.
pub open spec fn option_names() -> Seq<Seq<char>> {
    seq!["Option"@, "std::option::Option"@, "core::option::Option"@]
}

/// The spellings under which the growable-sequence type is recognised.
pub open spec fn vec_names() -> Seq<Seq<char>> {
    seq!["Vec"@, "std::vec::Vec"@, "alloc::vec::Vec"@]
}

/// The spellings under which the wrapper type itself is recognised.
pub open spec fn env_field_names() -> Seq<Seq<char>> {
    seq!["EnvField"@, "serde_env_field::EnvField"@]
}

/// The views of the given spellings, in order.
pub open spec fn name_views(names: Seq<&str>) -> Seq<Seq<char>> {
    Seq::new(names.len(), |i: int| names[i]@)
}

/// Joins the identifiers of the segments by `::`.
fn join_idents(segments: &Vec<PathSegment>) -> (name: String)
    ensures
        name@ == path_name(segment_models(segments@)),
{
    let ghost models = segment_models(segments@);
    let mut name = String::new();
    let mut i: usize = 0;
    while i < segments.len()
        invariant
            i <= segments.len(),
            models == segment_models(segments@),
            name@ == path_name(models.take(i as int)),
        decreases segments.len() - i,
    {
        proof {
            assert(models.take(i + 1).drop_last() =~= models.take(i as int));
            assert(models.take(i + 1).last() == segments@[i as int]@);
        }
        if i > 0 {
            name.append("::");
        } else {
            proof {
                assert(name@ + segments@[0].ident@ =~= segments@[0].ident@);
            }
        }
        name.append(segments[i].ident.as_str());
        i = i + 1;
    }
    proof {
        assert(models.take(i as int) =~= models);
    }
    name
}

/// Whether the path of `ty` is spelled as one of `ty_paths`.
pub fn is_type(ty: &TypeExpr, ty_paths: &[&str]) -> (found: bool)
    ensures
        found == is_type_spec(ty@, name_views(ty_paths@)),
{
    match ty {
        TypeExpr::Path(path) => {
            proof {
                lemma_path_model(*path);
            }
            if path.qself.is_some() || path.segments.len() == 0 {
                return false;
            }
            let name = join_idents(&path.segments);
            let ghost names = name_views(ty_paths@);
            assert(is_type_spec(ty@, names) == names.contains(name@));
            let mut i: usize = 0;
            while i < ty_paths.len()
                invariant
                    i <= ty_paths.len(),
                    names == name_views(ty_paths@),
                    is_type_spec(ty@, names) == names.contains(name@),
                    forall|j: int| 0 <= j < i ==> names[j] != name@,
                decreases ty_paths.len() - i,
            {
                let candidate: String = ty_paths[i].to_owned();
                if candidate == name {
                    assert(names[i as int] == name@);
                    return true;
                }
                i = i + 1;
            }
            false
        },
        TypeExpr::Other(_) => false,
    }
}

/// What the declared type of a field without a directive is taken for.
#[derive(Clone, Copy, Debug, PartialEq, Eq, Structural)]
pub enum TypeClass {
    /// The wrapper itself: the field is left alone.
    AlreadyWrapped,
    /// `Option` or `Vec`: the container stays, and its argument is wrapped.
    PassThrough,
    /// Any other type: it is wrapped whole.
    Plain,
}

/// The class of a type: a pass-through container where it is spelled as
/// `Option` or `Vec`, already wrapped where it is spelled as the wrapper, and
/// plain otherwise.
pub open spec fn class_of(ty: TypeModel) -> TypeClass {
    if is_type_spec(ty, option_names()) || is_type_spec(ty, vec_names()) {
        TypeClass::PassThrough
    } else if is_type_spec(ty, env_field_names()) {
        TypeClass::AlreadyWrapped
    } else {
        TypeClass::Plain
    }
}

/// Classifies the declared type of a field.
pub fn classify(ty: &TypeExpr) -> (class: TypeClass)
    ensures
        class == class_of(ty@),
{
    let options: [&str; 3] = ["Option", "std::option::Option", "core::option::Option"];
    let vecs: [&str; 3] = ["Vec", "std::vec::Vec", "alloc::vec::Vec"];
    let wrappers: [&str; 2] = ["EnvField", "serde_env_field::EnvField"];
    proof {
        assert(name_views(options@) =~= option_names());
        assert(name_views(vecs@) =~= vec_names());
        assert(name_views(wrappers@) =~= env_field_names());
    }
    if is_type(ty, options.as_slice()) || is_type(ty, vecs.as_slice()) {
        TypeClass::PassThrough
    } else if is_type(ty, wrappers.as_slice()) {
        TypeClass::AlreadyWrapped
    } else {
        TypeClass::Plain
    }
}

} // verus!
