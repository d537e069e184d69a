//! Decoding of a wrapped field from a value of any shape.

use crate::decode::{
    decode_outcome, DecodeError, DecodeErrorModel, FromText, FromValue, ToValue,
};
use crate::environment::Environment;
use crate::expand::{
    braced_reference, default_reference, env_expansion, expand, expansion_model, first_reference,
    plain_reference, simple_name, value_or_default, ExpandError,
};
use crate::field::{EnvField, UseDeserialize, UseFromStr};
use crate::value::{shape_of, Shape, Value, ValueModel};
use core::marker::PhantomData;
use vstd::prelude::*;

verus! {

/// What is done with a value of a given shape.
#[derive(Clone, Copy, Debug, PartialEq, Eq, Structural)]
pub enum Route {
    /// Expand the variables in the text, then construct from the expanded text.
    Expand,
    /// Construct from the value as it is, with no expansion.
    Direct,
    /// Refuse the value.
    Refuse,
}

/// The route of each shape: text is expanded, the unit value is refused, and
/// everything else is constructed from directly.
pub open spec fn route_of(shape: Shape) -> Route {
    match shape {
        Shape::Text => Route::Expand,
        Shape::Unit => Route::Refuse,
        _ => Route::Direct,
    }
}

/// Decides what is done with a value of the shape `shape`.
pub fn route(shape: Shape) -> (way: Route)
    ensures
        way == route_of(shape),
{
    match shape {
        Shape::Text => Route::Expand,
        Shape::Unit => Route::Refuse,
        _ => Route::Direct,
    }
}

/// The model of the result of an expansion.
pub open spec fn expanded_outcome(out: Result<String, DecodeError>) -> Result<
    Seq<char>,
    DecodeErrorModel,
> {
    match out {
        Ok(expanded) => Ok(expanded@),
        Err(error) => Err(error@),
    }
}

/// Expands the variables in `text` against `env`.
///
/// The result is the expansion of the text, or the error for the variable
/// that the text refers to and that has neither a value nor a default.
pub fn expand_text(text: &str, env: &Environment) -> (out: Result<String, DecodeError>)
    ensures
        expanded_outcome(out) == expanded_then(
            text@,
            env@,
            |e: Seq<char>| Ok::<Seq<char>, DecodeErrorModel>(e),
        ),
        text_laws(
            text@,
            env@,
            |e: Seq<char>| Ok::<Seq<char>, DecodeErrorModel>(e),
            expanded_outcome(out),
        ),
{
    expanded_or_missing(expand(text, env))
}

/// What an expansion that came out as `outcome` is turned into by `construct`.
pub open spec fn outcome_then<R>(
    outcome: Result<Seq<char>, Seq<char>>,
    construct: spec_fn(Seq<char>) -> Result<R, DecodeErrorModel>,
) -> Result<R, DecodeErrorModel> {
    match outcome {
        Ok(expanded) => construct(expanded),
        Err(name) => Err(DecodeErrorModel::MissingVariable { name }),
    }
}

/// Turns the outcome of an expansion into the expanded text or the error for
/// the missing variable.
pub fn expanded_or_missing(outcome: Result<String, ExpandError>) -> (out: Result<
    String,
    DecodeError,
>)
    ensures
        expanded_outcome(out) == outcome_then(
            expansion_model(outcome),
            |e: Seq<char>| Ok::<Seq<char>, DecodeErrorModel>(e),
        ),
{
    match outcome {
        Ok(expanded) => Ok(expanded),
        Err(error) => Err(DecodeError::MissingVariable { name: error.var_name }),
    }
}

/// Constructs a field by text parsing from the outcome of an expansion: the
/// parsed value of the expanded text, the parser's message as a parse error,
/// or the error for the missing variable.
pub fn parse_expanded<T: FromText>(outcome: Result<String, ExpandError>) -> (out: Result<
    EnvField<T, UseFromStr>,
    DecodeError,
>)
    ensures
        decode_outcome(out) == outcome_then(
            expansion_model(outcome),
            |e: Seq<char>| parsed::<T>(e),
        ),
{
    match outcome {
        Ok(expanded) => match T::from_text(expanded.as_str()) {
            Ok(value) => Ok(EnvField(value, PhantomData)),
            Err(message) => Err(DecodeError::Parse { message }),
        },
        Err(error) => Err(DecodeError::MissingVariable { name: error.var_name }),
    }
}

/// Constructs a field by structured construction from the outcome of an
/// expansion: what the inner type constructs from the expanded text as a
/// string value, or the error for the missing variable.
pub fn deserialize_expanded<T: FromValue>(
    outcome: Result<String, ExpandError>,
    env: &Environment,
) -> (out: Result<EnvField<T, UseDeserialize>, DecodeError>)
    ensures
        decode_outcome(out) == outcome_then(
            expansion_model(outcome),
            |e: Seq<char>| deserialized::<T>(e, env@),
        ),
{
    match outcome {
        Ok(expanded) => match T::from_value(&Value::Text(expanded), env) {
            Ok(value) => Ok(EnvField(value, PhantomData)),
            Err(error) => Err(error),
        },
        Err(error) => Err(DecodeError::MissingVariable { name: error.var_name }),
    }
}

/// The text construction of `T` from `text`, with the parser's message as a
/// decode error.
pub open spec fn parsed<T: FromText>(text: Seq<char>) -> Result<T::V, DecodeErrorModel> {
    match T::parse_text(text) {
        Ok(value) => Ok(value),
        Err(message) => Err(DecodeErrorModel::Parse { message }),
    }
}

/// The structured construction of `T` from `text` as a string value.
pub open spec fn deserialized<T: FromValue>(
    text: Seq<char>,
    vars: Map<Seq<char>, Seq<char>>,
) -> Result<T::V, DecodeErrorModel> {
    T::parse_value(ValueModel::Text(text), vars)
}

/// What the expansion of `text` against `vars` is turned into by `construct`.
pub open spec fn expanded_then<R>(
    text: Seq<char>,
    vars: Map<Seq<char>, Seq<char>>,
    construct: spec_fn(Seq<char>) -> Result<R, DecodeErrorModel>,
) -> Result<R, DecodeErrorModel> {
    outcome_then(env_expansion(text, vars), construct)
}

/// What holds of the `outcome` of decoding `text`, where `construct` is the
/// construction applied to the expanded text:
/// - text without a `$` is constructed from as it stands;
/// - `$NAME` and `${NAME}` are constructed from the value of `NAME`, and fail
///   with a missing variable where it has none;
/// - `${NAME:-default}` is constructed from the value of `NAME`, and from the
///   default where it has none;
/// - text whose first reference is `$NAME` or `${NAME}`, where `NAME` has no
///   value, fails with a missing variable of that name, whatever follows, and
///   nothing is constructed.
pub open spec fn text_laws<R>(
    text: Seq<char>,
    vars: Map<Seq<char>, Seq<char>>,
    construct: spec_fn(Seq<char>) -> Result<R, DecodeErrorModel>,
    outcome: Result<R, DecodeErrorModel>,
) -> bool {
    &&& !text.contains('$') ==> outcome == construct(text)
    &&& forall|name: Seq<char>|
        #![trigger plain_reference(name)]
        #![trigger braced_reference(name)]
        simple_name(name) && (text == plain_reference(name) || text == braced_reference(name))
            ==> outcome == if vars.contains_key(name) {
            construct(vars[name])
        } else {
            Err(DecodeErrorModel::MissingVariable { name })
        }
    &&& forall|name: Seq<char>, default: Seq<char>| #![trigger default_reference(name, default)]
        simple_name(name) && !default.contains('}') && text == default_reference(name, default)
            ==> outcome == construct(value_or_default(name, default, vars))
    &&& forall|name: Seq<char>| #![trigger first_reference(text, name)]
        simple_name(name) && !vars.contains_key(name) && first_reference(text, name) ==> outcome
            == Err::<R, DecodeErrorModel>(DecodeErrorModel::MissingVariable { name })
}

/// What a field of `T` that is constructed by text parsing decodes to.
pub open spec fn decoded_from_str<T: FromText + FromValue>(
    value: ValueModel,
    vars: Map<Seq<char>, Seq<char>>,
) -> Result<T::V, DecodeErrorModel> {
    match route_of(shape_of(value)) {
        Route::Expand => expanded_then(value->Text_0, vars, |e: Seq<char>| parsed::<T>(e)),
        Route::Refuse => Err(DecodeErrorModel::UnsupportedShape),
        Route::Direct => T::parse_value(value, vars),
    }
}

/// What a field of `T` that is constructed by structured construction decodes to.
pub open spec fn decoded_by_deserialize<T: FromValue>(
    value: ValueModel,
    vars: Map<Seq<char>, Seq<char>>,
) -> Result<T::V, DecodeErrorModel> {
    match route_of(shape_of(value)) {
        Route::Expand => expanded_then(
            value->Text_0,
            vars,
            |e: Seq<char>| deserialized::<T>(e, vars),
        ),
        Route::Refuse => Err(DecodeErrorModel::UnsupportedShape),
        Route::Direct => T::parse_value(value, vars),
    }
}

impl<T: FromText + FromValue> EnvField<T, UseFromStr> {
    /// Expands the variables in `str_data` and constructs the field from the
    /// expanded text by text parsing.
    pub fn env_expand_and_parse(str_data: &str, env: &Environment) -> (out: Result<
        Self,
        DecodeError,
    >)
        ensures
            decode_outcome(out) == expanded_then(str_data@, env@, |e: Seq<char>| parsed::<T>(e)),
            text_laws(str_data@, env@, |e: Seq<char>| parsed::<T>(e), decode_outcome(out)),
    {
        parse_expanded(expand(str_data, env))
    }

    /// Decodes the field from a value of any shape.
    ///
    /// Text is expanded and parsed. A value of any other supported shape is
    /// handed to the structured construction of `T` as it is, with no
    /// expansion. The unit value is refused.
    pub fn deserialize(value: &Value, env: &Environment) -> (out: Result<Self, DecodeError>)
        ensures
            decode_outcome(out) == decoded_from_str::<T>(value@, env@),
            value@ matches ValueModel::Text(text) ==> text_laws(
                text,
                env@,
                |e: Seq<char>| parsed::<T>(e),
                decode_outcome(out),
            ),
    {
        match route(value.shape()) {
            Route::Expand => match value {
                Value::Text(text) => Self::env_expand_and_parse(text.as_str(), env),
                _ => Err(DecodeError::UnsupportedShape),
            },
            Route::Refuse => Err(DecodeError::UnsupportedShape),
            Route::Direct => match T::from_value(value, env) {
                Ok(inner) => Ok(EnvField(inner, PhantomData)),
                Err(error) => Err(error),
            },
        }
    }
}

impl<T: FromValue> EnvField<T, UseDeserialize> {
    /// Expands the variables in `str_data` and constructs the field from the
    /// expanded text, handed to the structured construction of `T` as a string
    /// value.
    pub fn env_expand_and_deserialize(str_data: &str, env: &Environment) -> (out: Result<
        Self,
        DecodeError,
    >)
        ensures
            decode_outcome(out) == expanded_then(
                str_data@,
                env@,
                |e: Seq<char>| deserialized::<T>(e, env@),
            ),
            text_laws(
                str_data@,
                env@,
                |e: Seq<char>| deserialized::<T>(e, env@),
                decode_outcome(out),
            ),
    {
        deserialize_expanded(expand(str_data, env), env)
    }

    /// Decodes the field from a value of any shape.
    ///
    /// Text is expanded and handed to the structured construction of `T` as a
    /// string value. A value of any other supported shape is handed to it as
    /// it is, with no expansion. The unit value is refused.
    pub fn deserialize(value: &Value, env: &Environment) -> (out: Result<Self, DecodeError>)
        ensures
            decode_outcome(out) == decoded_by_deserialize::<T>(value@, env@),
            value@ matches ValueModel::Text(text) ==> text_laws(
                text,
                env@,
                |e: Seq<char>| deserialized::<T>(e, env@),
                decode_outcome(out),
            ),
    {
        match route(value.shape()) {
            Route::Expand => match value {
                Value::Text(text) => Self::env_expand_and_deserialize(text.as_str(), env),
                _ => Err(DecodeError::UnsupportedShape),
            },
            Route::Refuse => Err(DecodeError::UnsupportedShape),
            Route::Direct => match T::from_value(value, env) {
                Ok(inner) => Ok(EnvField(inner, PhantomData)),
                Err(error) => Err(error),
            },
        }
    }
}

impl<T: FromText + FromValue> FromValue for EnvField<T, UseFromStr> {
    open spec fn parse_value(value: ValueModel, vars: Map<Seq<char>, Seq<char>>) -> Result<
        T::V,
        DecodeErrorModel,
    > {
        decoded_from_str::<T>(value, vars)
    }

    /// A wrapped field inside another value is decoded as any wrapped field is.
    fn from_value(value: &Value, env: &Environment) -> (out: Result<Self, DecodeError>) {
        Self::deserialize(value, env)
    }
}

impl<T: FromValue> FromValue for EnvField<T, UseDeserialize> {
    open spec fn parse_value(value: ValueModel, vars: Map<Seq<char>, Seq<char>>) -> Result<
        T::V,
        DecodeErrorModel,
    > {
        decoded_by_deserialize::<T>(value, vars)
    }

    /// A wrapped field inside another value is decoded as any wrapped field is.
    fn from_value(value: &Value, env: &Environment) -> (out: Result<Self, DecodeError>) {
        Self::deserialize(value, env)
    }
}

impl<T: FromText, V> FromText for EnvField<T, V> {
    open spec fn parse_text(text: Seq<char>) -> Result<T::V, Seq<char>> {
        T::parse_text(text)
    }

    /// The wrapped value of the text; nothing is expanded.
    fn from_text(text: &str) -> (out: Result<Self, String>) {
        match T::from_text(text) {
            Ok(value) => Ok(EnvField(value, PhantomData)),
            Err(message) => Err(message),
        }
    }
}

impl<T: ToValue, V> ToValue for EnvField<T, V> {
    open spec fn encoded(model: T::V) -> ValueModel {
        T::encoded(model)
    }

    /// Writes the wrapped value out as the inner type does: the wrapper leaves no trace.
    fn to_value(&self) -> (value: Value) {
        self.0.to_value()
    }
}

impl<T: ToValue, V> EnvField<T, V> {
    /// Writes the field out exactly as its inner value is written out.
    pub fn serialize(&self) -> (value: Value)
        ensures
            value@ == T::encoded(self.0.deep_view()),
    {
        self.0.to_value()
    }
}

} // verus!
