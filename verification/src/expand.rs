//! Expansion of `$NAME`, `${NAME}` and `${NAME:-default}` in text.
//!
//! The expansion itself is the work of the `shellexpand` crate. What it
//! returns is named here ([`env_expansion`]), together with the few facts about
//! it that the rest of the library builds on.

use crate::environment::Environment;
use vstd::prelude::*;

verus! {

/// The failure of an expansion: a variable that the text refers to has no
/// value, and the reference gives no default.
#[derive(Debug, PartialEq, Eq)]
pub struct ExpandError {
    /// The name of the missing variable.
    pub var_name: String,
}

/// What a lookup hands back for a variable without a value.
#[derive(Clone, Copy, Debug, PartialEq, Eq)]
pub struct NotFound;

/// The text `input` with its references to variables replaced by their values
/// in `vars`; or, as the error, the name of a variable that has no value where
/// the reference to it gives no default.
pub uninterp spec fn env_expansion(input: Seq<char>, vars: Map<Seq<char>, Seq<char>>) -> Result<
    Seq<char>,
    Seq<char>,
>;

/// Whether `c` is an ASCII letter, an ASCII digit or an underscore.
pub open spec fn is_name_char(c: char) -> bool {
    ('a' <= c && c <= 'z') || ('A' <= c && c <= 'Z') || ('0' <= c && c <= '9') || c == '_'
}

/// Whether `name` is not empty and made of ASCII letters, ASCII digits and
/// underscores only.
pub open spec fn simple_name(name: Seq<char>) -> bool {
    name.len() > 0 && forall|i: int| 0 <= i < name.len() ==> is_name_char(#[trigger] name[i])
}

/// The text `$NAME`.
pub open spec fn plain_reference(name: Seq<char>) -> Seq<char> {
    seq!['$'] + name
}

/// The text `${NAME}`.
pub open spec fn braced_reference(name: Seq<char>) -> Seq<char> {
    seq!['$', '{'] + name + seq!['}']
}

/// The text `${NAME:-default}`.
pub open spec fn default_reference(name: Seq<char>, default: Seq<char>) -> Seq<char> {
    seq!['$', '{'] + name + seq![':', '-'] + default + seq!['}']
}

/// Whether `c` cannot stand in a name of any kind: an ASCII character that is
/// no letter, no digit and no underscore.
pub open spec fn ends_name(c: char) -> bool {
    (c as int) < 128 && !is_name_char(c)
}

/// The text `prefix$NAMEsuffix`.
pub open spec fn around_plain(prefix: Seq<char>, name: Seq<char>, suffix: Seq<char>) -> Seq<char> {
    prefix + plain_reference(name) + suffix
}

/// The text `prefix${NAME}suffix`.
pub open spec fn around_braced(prefix: Seq<char>, name: Seq<char>, suffix: Seq<char>) -> Seq<
    char,
> {
    prefix + braced_reference(name) + suffix
}

/// Whether the text opens with a reference to `name` that gives no default:
/// `$NAME` or `${NAME}` after a prefix without a `$`, where what follows
/// `$NAME` cannot be part of the name.
pub open spec fn first_reference(input: Seq<char>, name: Seq<char>) -> bool {
    ||| exists|prefix: Seq<char>, suffix: Seq<char>|
        {
            &&& !prefix.contains('$')
            &&& (suffix.len() == 0 || ends_name(suffix[0]))
            &&& input == #[trigger] around_plain(prefix, name, suffix)
        }
    ||| exists|prefix: Seq<char>, suffix: Seq<char>|
        !prefix.contains('$') && input == #[trigger] around_braced(prefix, name, suffix)
}

/// The value of `name`, or the failure that names it.
pub open spec fn value_or_failure(name: Seq<char>, vars: Map<Seq<char>, Seq<char>>) -> Result<
    Seq<char>,
    Seq<char>,
> {
    if vars.contains_key(name) {
        Ok(vars[name])
    } else {
        Err(name)
    }
}

/// The value of `name`, or `default` where it has none.
pub open spec fn value_or_default(
    name: Seq<char>,
    default: Seq<char>,
    vars: Map<Seq<char>, Seq<char>>,
) -> Seq<char> {
    if vars.contains_key(name) {
        vars[name]
    } else {
        default
    }
}

/// What is known of the expansion `outcome` of `input` against `vars`:
/// - text without a `$` is left as it is;
/// - a failure names a variable that has no value;
/// - text that is one reference `$NAME` or `${NAME}` becomes the value of
///   `NAME`, and fails with that name where it has none;
/// - text that is one reference `${NAME:-default}`, with no `}` in the
///   default, becomes the value of `NAME`, and the default where it has none;
/// - text whose first reference is `$NAME` or `${NAME}`, where `NAME` has no
///   value, fails with that name, whatever follows.
pub open spec fn expansion_facts(
    input: Seq<char>,
    vars: Map<Seq<char>, Seq<char>>,
    outcome: Result<Seq<char>, Seq<char>>,
) -> bool {
    &&& !input.contains('$') ==> outcome == Ok::<Seq<char>, Seq<char>>(input)
    &&& outcome matches Err(name) ==> !vars.contains_key(name)
    &&& forall|name: Seq<char>| #![trigger plain_reference(name)]
        simple_name(name) && input == plain_reference(name) ==> outcome == value_or_failure(
            name,
            vars,
        )
    &&& forall|name: Seq<char>| #![trigger braced_reference(name)]
        simple_name(name) && input == braced_reference(name) ==> outcome == value_or_failure(
            name,
            vars,
        )
    &&& forall|name: Seq<char>, default: Seq<char>| #![trigger default_reference(name, default)]
        simple_name(name) && !default.contains('}') && input == default_reference(name, default)
            ==> outcome == Ok::<Seq<char>, Seq<char>>(value_or_default(name, default, vars))
    &&& forall|name: Seq<char>| #![trigger first_reference(input, name)]
        simple_name(name) && !vars.contains_key(name) && first_reference(input, name) ==> outcome
            == Err::<Seq<char>, Seq<char>>(name)
}

/// The model of an expansion's result.
pub open spec fn expansion_model(outcome: Result<String, ExpandError>) -> Result<
    Seq<char>,
    Seq<char>,
> {
    match outcome {
        Ok(text) => Ok(text@),
        Err(error) => Err(error.var_name@),
    }
}

/// Looks `name` up for the expansion: its value, or the failure where it has none.
pub fn lookup(env: &Environment, name: &str) -> (found: Result<Option<String>, NotFound>)
    ensures
        match found {
            Ok(Some(value)) => env@.contains_key(name@) && value@ == env@[name@],
            Ok(None) => false,
            Err(_) => !env@.contains_key(name@),
        },
{
    match env.get(name) {
        Some(value) => Ok(Some(value.clone())),
        None => Err(NotFound),
    }
}

/// Calls `shellexpand::env_with_context` on `input`, with [`lookup`] on `env`
/// as its context.
///
/// Trusted: the result is a function of the text and of the variables alone,
/// named [`env_expansion`], and [`expansion_facts`] holds of it. The outside
/// function fails only where the context does, with the name it was asked for.
#[verifier::external_body]
pub(crate) fn expand(input: &str, env: &Environment) -> (outcome: Result<String, ExpandError>)
    ensures
        expansion_model(outcome) == env_expansion(input@, env@),
        expansion_facts(input@, env@, expansion_model(outcome)),
{
    match shellexpand::env_with_context(input, |name: &str| lookup(env, name)) {
        Ok(expanded) => Ok(expanded.into_owned()),
        Err(failure) => Err(ExpandError { var_name: failure.var_name }),
    }
}

} // verus!
