//! What a target type has to offer so that a field of it can be decoded, and
//! the errors of decoding.

use crate::environment::Environment;
use crate::value::{Value, ValueModel};
use vstd::prelude::*;
use vstd::string::StringExecFns;

verus! {

/// Why a value could not be decoded.
#[derive(Debug, PartialEq, Eq)]
pub enum DecodeError {
    /// The text refers to a variable that has no value, and gives no default.
    MissingVariable { name: String },
    /// The expanded text is not the text form of the target type.
    Parse { message: String },
    /// The value is not a structured form of the target type.
    Invalid { message: String },
    /// The value has a shape that no field is decoded from.
    UnsupportedShape,
}

/// Model of a [`DecodeError`].
pub enum DecodeErrorModel {
    MissingVariable { name: Seq<char> },
    Parse { message: Seq<char> },
    Invalid { message: Seq<char> },
    UnsupportedShape,
}

impl View for DecodeError {
    type V = DecodeErrorModel;

    open spec fn view(&self) -> DecodeErrorModel {
        match self {
            DecodeError::MissingVariable { name } => DecodeErrorModel::MissingVariable {
                name: name@,
            },
            DecodeError::Parse { message } => DecodeErrorModel::Parse { message: message@ },
            DecodeError::Invalid { message } => DecodeErrorModel::Invalid { message: message@ },
            DecodeError::UnsupportedShape => DecodeErrorModel::UnsupportedShape,
        }
    }
}

/// The text before the variable's name in the message of a missing variable.
pub open spec fn missing_prefix() -> Seq<char> {
    "error looking key '"@
}

/// The text between the variable's name and the cause in that message.
pub open spec fn missing_middle() -> Seq<char> {
    "' up: "@
}

/// The cause in that message.
pub open spec fn missing_cause() -> Seq<char> {
    "environment variable not found"@
}

/// The message of the error for a value of an unsupported shape.
pub open spec fn unsupported_text() -> Seq<char> {
    "invalid type: unit value, expected a boolean, integer, float, character, string, byte array, array or map"@
}

/// The message of an error.
pub open spec fn message_text(error: DecodeErrorModel) -> Seq<char> {
    match error {
        DecodeErrorModel::MissingVariable { name } => missing_prefix() + name + missing_middle()
            + missing_cause(),
        DecodeErrorModel::Parse { message } => message,
        DecodeErrorModel::Invalid { message } => message,
        DecodeErrorModel::UnsupportedShape => unsupported_text(),
    }
}

/// Whether `needle` stands somewhere in `text`.
pub open spec fn occurs_in(needle: Seq<char>, text: Seq<char>) -> bool {
    exists|at: int|
        0 <= at && at + needle.len() <= text.len() && #[trigger] text.subrange(
            at,
            at + needle.len(),
        ) == needle
}

impl DecodeError {
    /// The message of the error, for the one who wrote the value.
    pub fn message(&self) -> (text: String)
        ensures
            text@ == message_text(self@),
    {
        match self {
            DecodeError::MissingVariable { name } => {
                let mut text = String::from_str("error looking key '");
                text.append(name.as_str());
                text.append("' up: ");
                text.append("environment variable not found");
                text
            },
            DecodeError::Parse { message } => message.clone(),
            DecodeError::Invalid { message } => message.clone(),
            DecodeError::UnsupportedShape => String::from_str(
                "invalid type: unit value, expected a boolean, integer, float, character, string, byte array, array or map",
            ),
        }
    }
}

/// The message for a missing variable holds the variable's name, and says that
/// the variable was not found.
pub proof fn lemma_missing_variable_message(name: Seq<char>)
    ensures
        occurs_in(name, message_text(DecodeErrorModel::MissingVariable { name })),
        occurs_in(missing_cause(), message_text(DecodeErrorModel::MissingVariable { name })),
{
    let text = message_text(DecodeErrorModel::MissingVariable { name });
    let start = missing_prefix().len() as int;
    assert(text.subrange(start, start + name.len()) =~= name);
    let cause_at = start + name.len() + missing_middle().len();
    assert(text.subrange(cause_at, cause_at + missing_cause().len()) =~= missing_cause());
}

/// The model of the result of a text construction.
pub open spec fn text_outcome<T: DeepView>(outcome: Result<T, String>) -> Result<T::V, Seq<char>> {
    match outcome {
        Ok(value) => Ok(value.deep_view()),
        Err(message) => Err(message@),
    }
}

/// The model of the result of a decode.
pub open spec fn decode_outcome<T: DeepView>(outcome: Result<T, DecodeError>) -> Result<
    T::V,
    DecodeErrorModel,
> {
    match outcome {
        Ok(value) => Ok(value.deep_view()),
        Err(error) => Err(error@),
    }
}

/// A type that can be constructed from its text form.
pub trait FromText: DeepView + Sized {
    /// The value that `text` stands for, or the parser's message.
    spec fn parse_text(text: Seq<char>) -> Result<Self::V, Seq<char>>;

    /// Constructs the value from its text form.
    fn from_text(text: &str) -> (out: Result<Self, String>)
        ensures
            text_outcome(out) == Self::parse_text(text@),
    ;
}

/// A type that can be constructed from a value of any shape.
pub trait FromValue: DeepView + Sized {
    /// The value that `value` stands for where the variables are `vars`, or
    /// the error of its construction.
    spec fn parse_value(value: ValueModel, vars: Map<Seq<char>, Seq<char>>) -> Result<
        Self::V,
        DecodeErrorModel,
    >;

    /// Constructs the value from `value`; text inside it is expanded against `env`
    /// where the type asks for it.
    fn from_value(value: &Value, env: &Environment) -> (out: Result<Self, DecodeError>)
        ensures
            decode_outcome(out) == Self::parse_value(value@, env@),
    ;
}

/// A type whose values can be written out as a value of some shape.
pub trait ToValue: DeepView {
    /// The shape that a value with the model `model` is written as.
    spec fn encoded(model: Self::V) -> ValueModel;

    /// Writes the value out.
    fn to_value(&self) -> (value: Value)
        ensures
            value@ == Self::encoded(self.deep_view()),
    ;
}

} // verus!
