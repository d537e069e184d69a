//! The directives that a field or a variant may carry: `#[env_field_wrap(skip)]`
//! and `#[env_field_wrap(generics_only)]`.

use crate::schema::{attribute_models, Attribute, AttributeModel, MetaKind};
use vstd::prelude::*;

verus! {

/// An instruction on a field or a variant that overrides the default wrapping.
#[derive(Clone, Copy, Debug, PartialEq, Eq, Structural)]
pub enum WrapAttr {
    /// Leave the type exactly as declared.
    Skip,
    /// Wrap only the generic arguments of the type.
    GenericsOnly,
}

/// Whether the attribute is a list under the name `env_field_wrap`.
pub open spec fn is_directive(attr: AttributeModel) -> bool {
    attr.kind == MetaKind::List && attr.ident == Some("env_field_wrap"@)
}

/// The position of the first directive among the attributes.
pub open spec fn directive_index(attrs: Seq<AttributeModel>) -> Option<int>
    decreases attrs.len(),
{
    if attrs.len() == 0 {
        None
    } else {
        match directive_index(attrs.drop_last()) {
            Some(i) => Some(i),
            None => if is_directive(attrs.last()) {
                Some(attrs.len() - 1)
            } else {
                None
            },
        }
    }
}

/// The directive that the text inside the brackets names.
pub open spec fn directive_of(tokens: Seq<char>) -> Option<WrapAttr> {
    if tokens == "skip"@ {
        Some(WrapAttr::Skip)
    } else if tokens == "generics_only"@ {
        Some(WrapAttr::GenericsOnly)
    } else {
        None
    }
}

/// The attributes without the first directive.
pub open spec fn attrs_left(attrs: Seq<AttributeModel>) -> Seq<AttributeModel> {
    match directive_index(attrs) {
        Some(i) => attrs.remove(i),
        None => attrs,
    }
}

/// The first directive among the attributes: none, a known one, or (as the
/// error) the text of one that is not known.
pub open spec fn directive_taken(attrs: Seq<AttributeModel>) -> Result<Option<WrapAttr>, Seq<char>> {
    match directive_index(attrs) {
        None => Ok(None),
        Some(i) => match directive_of(attrs[i].tokens) {
            Some(directive) => Ok(Some(directive)),
            None => Err(attrs[i].tokens),
        },
    }
}

/// The model of what [`take_env_field_wrap_attr`] returns.
pub open spec fn taken_model(out: Result<Option<WrapAttr>, String>) -> Result<
    Option<WrapAttr>,
    Seq<char>,
> {
    match out {
        Ok(directive) => Ok(directive),
        Err(tokens) => Err(tokens@),
    }
}

/// The first directive is where it is found: `i` is the first index of a
/// directive exactly when `directive_index` says so.
pub proof fn lemma_directive_index(attrs: Seq<AttributeModel>)
    ensures
        match directive_index(attrs) {
            Some(i) => {
                &&& 0 <= i < attrs.len()
                &&& is_directive(attrs[i])
                &&& forall|j: int| 0 <= j < i ==> !is_directive(#[trigger] attrs[j])
            },
            None => forall|j: int| 0 <= j < attrs.len() ==> !is_directive(#[trigger] attrs[j]),
        },
    decreases attrs.len(),
{
    if attrs.len() > 0 {
        lemma_directive_index(attrs.drop_last());
        assert(forall|j: int| 0 <= j < attrs.len() - 1 ==> attrs.drop_last()[j] == attrs[j]);
    }
}

/// A directive at `i` with none before it is the first directive.
proof fn lemma_directive_found(attrs: Seq<AttributeModel>, i: int)
    requires
        0 <= i < attrs.len(),
        is_directive(attrs[i]),
        forall|j: int| 0 <= j < i ==> !is_directive(#[trigger] attrs[j]),
    ensures
        directive_index(attrs) == Some(i),
{
    lemma_directive_index(attrs);
}

/// Takes the first directive off the attributes and returns it.
///
/// With no directive among them the attributes stay as they are. A directive
/// that is neither `skip` nor `generics_only` is an error, which carries its
/// text.
pub fn take_env_field_wrap_attr(attrs: &mut Vec<Attribute>) -> (out: Result<
    Option<WrapAttr>,
    String,
>)
    ensures
        attribute_models(final(attrs)@) == attrs_left(attribute_models(old(attrs)@)),
        taken_model(out) == directive_taken(attribute_models(old(attrs)@)),
{
    let ghost models = attribute_models(attrs@);
    let key = "env_field_wrap".to_owned();
    let mut i: usize = 0;
    while i < attrs.len()
        invariant
            i <= attrs.len(),
            attrs@ == old(attrs)@,
            models == attribute_models(attrs@),
            key@ == "env_field_wrap"@,
            forall|j: int| 0 <= j < i ==> !is_directive(#[trigger] models[j]),
        decreases attrs.len() - i,
    {
        let is_list = match attrs[i].kind {
            MetaKind::List => true,
            _ => false,
        };
        let named = match &attrs[i].ident {
            Some(ident) => *ident == key,
            None => false,
        };
        if is_list && named {
            proof {
                assert(is_directive(models[i as int]));
                lemma_directive_found(models, i as int);
            }
            let attr = attrs.remove(i);
            proof {
                assert(attribute_models(attrs@) =~= models.remove(i as int));
                assert(attr@ == models[i as int]);
            }
            let tokens = attr.tokens;
            if tokens == "skip".to_owned() {
                return Ok(Some(WrapAttr::Skip));
            }
            if tokens == "generics_only".to_owned() {
                return Ok(Some(WrapAttr::GenericsOnly));
            }
            return Err(tokens);
        }
        assert(!is_directive(models[i as int]));
        i = i + 1;
    }
    proof {
        lemma_directive_index(models);
    }
    Ok(None)
}

} // verus!
