//! Construction of text, booleans, optional values and sequences.

use crate::decode::{DecodeError, DecodeErrorModel, FromText, FromValue, ToValue};
use crate::environment::Environment;
use crate::value::{lemma_sequence_model, value_models, Value, ValueModel};
use vstd::prelude::*;
use vstd::string::{StrSliceExecFns, StringExecFns};

verus! {

/// The error for a value of the wrong shape, with its message.
pub open spec fn invalid(message: Seq<char>) -> DecodeErrorModel {
    DecodeErrorModel::Invalid { message }
}

/// The message for a value that is no string.
pub open spec fn expected_string() -> Seq<char> {
    "invalid type: expected a string"@
}

/// The message for a value that is no boolean.
pub open spec fn expected_boolean() -> Seq<char> {
    "invalid type: expected a boolean"@
}

/// The message for a value that is no sequence.
pub open spec fn expected_sequence() -> Seq<char> {
    "invalid type: expected a sequence"@
}

/// The message for text that is neither `true` nor `false`.
pub open spec fn not_a_boolean() -> Seq<char> {
    "provided string was not `true` or `false`"@
}

impl FromText for String {
    /// Every text is the text form of itself.
    open spec fn parse_text(text: Seq<char>) -> Result<Seq<char>, Seq<char>> {
        Ok(text)
    }

    fn from_text(text: &str) -> (out: Result<String, String>) {
        Ok(text.to_owned())
    }
}

impl FromValue for String {
    /// A string value is taken as it stands: nothing in it is expanded.
    open spec fn parse_value(value: ValueModel, vars: Map<Seq<char>, Seq<char>>) -> Result<
        Seq<char>,
        DecodeErrorModel,
    > {
        match value {
            ValueModel::Text(text) => Ok(text),
            _ => Err(invalid(expected_string())),
        }
    }

    fn from_value(value: &Value, env: &Environment) -> (out: Result<String, DecodeError>) {
        match value {
            Value::Text(text) => Ok(text.clone()),
            _ => Err(DecodeError::Invalid { message: String::from_str("invalid type: expected a string") }),
        }
    }
}

impl ToValue for String {
    open spec fn encoded(model: Seq<char>) -> ValueModel {
        ValueModel::Text(model)
    }

    fn to_value(&self) -> (value: Value) {
        Value::Text(self.clone())
    }
}

impl FromText for bool {
    /// `true` and `false` are the text forms of the booleans.
    open spec fn parse_text(text: Seq<char>) -> Result<bool, Seq<char>> {
        if text == "true"@ {
            Ok(true)
        } else if text == "false"@ {
            Ok(false)
        } else {
            Err(not_a_boolean())
        }
    }

    fn from_text(text: &str) -> (out: Result<bool, String>) {
        let given = text.to_owned();
        if given == String::from_str("true") {
            Ok(true)
        } else if given == String::from_str("false") {
            Ok(false)
        } else {
            Err(String::from_str("provided string was not `true` or `false`"))
        }
    }
}

impl FromValue for bool {
    open spec fn parse_value(value: ValueModel, vars: Map<Seq<char>, Seq<char>>) -> Result<
        bool,
        DecodeErrorModel,
    > {
        match value {
            ValueModel::Bool(b) => Ok(b),
            _ => Err(invalid(expected_boolean())),
        }
    }

    fn from_value(value: &Value, env: &Environment) -> (out: Result<bool, DecodeError>) {
        match value {
            Value::Bool(b) => Ok(*b),
            _ => Err(DecodeError::Invalid { message: String::from_str("invalid type: expected a boolean") }),
        }
    }
}

impl ToValue for bool {
    open spec fn encoded(model: bool) -> ValueModel {
        ValueModel::Bool(model)
    }

    fn to_value(&self) -> (value: Value) {
        Value::Bool(*self)
    }
}

/// The message for an empty text where a character is expected.
pub open spec fn empty_char() -> Seq<char> {
    "cannot parse char from empty string"@
}

/// The message for a text of several characters where one is expected.
pub open spec fn too_many_chars() -> Seq<char> {
    "too many characters in string"@
}

/// The message for a value that is no character.
pub open spec fn expected_char() -> Seq<char> {
    "invalid type: expected a character"@
}

impl FromText for char {
    /// A text of exactly one character is the text form of that character.
    open spec fn parse_text(text: Seq<char>) -> Result<char, Seq<char>> {
        if text.len() == 0 {
            Err(empty_char())
        } else if text.len() == 1 {
            Ok(text[0])
        } else {
            Err(too_many_chars())
        }
    }

    fn from_text(text: &str) -> (out: Result<char, String>) {
        let length = text.unicode_len();
        if length == 0 {
            Err(String::from_str("cannot parse char from empty string"))
        } else if length == 1 {
            Ok(text.get_char(0))
        } else {
            Err(String::from_str("too many characters in string"))
        }
    }
}

impl FromValue for char {
    /// A character value, or a string value of exactly one character.
    open spec fn parse_value(value: ValueModel, vars: Map<Seq<char>, Seq<char>>) -> Result<
        char,
        DecodeErrorModel,
    > {
        match value {
            ValueModel::Char(c) => Ok(c),
            ValueModel::Text(text) => if text.len() == 1 {
                Ok(text[0])
            } else {
                Err(invalid(expected_char()))
            },
            _ => Err(invalid(expected_char())),
        }
    }

    fn from_value(value: &Value, env: &Environment) -> (out: Result<char, DecodeError>) {
        match value {
            Value::Char(c) => Ok(*c),
            Value::Text(text) => {
                if text.as_str().unicode_len() == 1 {
                    Ok(text.as_str().get_char(0))
                } else {
                    Err(
                        DecodeError::Invalid {
                            message: String::from_str("invalid type: expected a character"),
                        },
                    )
                }
            },
            _ => Err(
                DecodeError::Invalid {
                    message: String::from_str("invalid type: expected a character"),
                },
            ),
        }
    }
}

impl ToValue for char {
    open spec fn encoded(model: char) -> ValueModel {
        ValueModel::Char(model)
    }

    fn to_value(&self) -> (value: Value) {
        char_value(*self)
    }
}

/// The character as a value.
fn char_value(c: char) -> (value: Value)
    ensures
        value@ == ValueModel::Char(c),
{
    Value::Char(c)
}

impl<T: FromValue> FromValue for Option<T> {
    /// The unit value stands for an absent value; any other value is the
    /// present value that it is for `T`.
    open spec fn parse_value(value: ValueModel, vars: Map<Seq<char>, Seq<char>>) -> Result<
        Option<T::V>,
        DecodeErrorModel,
    > {
        match value {
            ValueModel::Unit => Ok(None),
            _ => match T::parse_value(value, vars) {
                Ok(inner) => Ok(Some(inner)),
                Err(error) => Err(error),
            },
        }
    }

    fn from_value(value: &Value, env: &Environment) -> (out: Result<Option<T>, DecodeError>) {
        match value {
            Value::Unit => Ok(None),
            _ => match T::from_value(value, env) {
                Ok(inner) => Ok(Some(inner)),
                Err(error) => Err(error),
            },
        }
    }
}

impl<T: ToValue> ToValue for Option<T> {
    open spec fn encoded(model: Option<T::V>) -> ValueModel {
        match model {
            Some(inner) => T::encoded(inner),
            None => ValueModel::Unit,
        }
    }

    fn to_value(&self) -> (value: Value) {
        match self {
            Some(inner) => inner.to_value(),
            None => Value::Unit,
        }
    }
}

/// Every item constructed, in order; or the error of the first item that
/// cannot be.
pub open spec fn items_parsed<T: FromValue>(
    items: Seq<ValueModel>,
    vars: Map<Seq<char>, Seq<char>>,
) -> Result<Seq<T::V>, DecodeErrorModel>
    decreases items.len(),
{
    if items.len() == 0 {
        Ok(Seq::empty())
    } else {
        match items_parsed::<T>(items.drop_last(), vars) {
            Err(error) => Err(error),
            Ok(done) => match T::parse_value(items.last(), vars) {
                Ok(item) => Ok(done.push(item)),
                Err(error) => Err(error),
            },
        }
    }
}

/// An error among the first `k` items is the error of them all.
proof fn lemma_item_error_stays<T: FromValue>(
    items: Seq<ValueModel>,
    vars: Map<Seq<char>, Seq<char>>,
    k: int,
)
    requires
        0 <= k <= items.len(),
        items_parsed::<T>(items.take(k), vars) is Err,
    ensures
        items_parsed::<T>(items, vars) == items_parsed::<T>(items.take(k), vars),
    decreases items.len() - k,
{
    if k < items.len() {
        assert(items.drop_last().take(k) =~= items.take(k));
        lemma_item_error_stays::<T>(items.drop_last(), vars, k);
    } else {
        assert(items.take(k) =~= items);
    }
}

impl<T: FromValue> FromValue for Vec<T> {
    /// A sequence stands for the sequence of what its items stand for, each
    /// constructed on its own.
    open spec fn parse_value(value: ValueModel, vars: Map<Seq<char>, Seq<char>>) -> Result<
        Seq<T::V>,
        DecodeErrorModel,
    > {
        match value {
            ValueModel::Sequence(items) => items_parsed::<T>(items, vars),
            _ => Err(invalid(expected_sequence())),
        }
    }

    fn from_value(value: &Value, env: &Environment) -> (out: Result<Vec<T>, DecodeError>) {
        match value {
            Value::Sequence(items) => {
                proof {
                    lemma_sequence_model(*items);
                }
                let ghost models = value_models(items@);
                let mut done: Vec<T> = Vec::new();
                let mut i: usize = 0;
                proof {
                    assert(done.deep_view() =~= Seq::<T::V>::empty());
                }
                while i < items.len()
                    invariant
                        i <= items.len(),
                        models == value_models(items@),
                        value@ == ValueModel::Sequence(models),
                        items_parsed::<T>(models.take(i as int), env@) == Ok::<
                            Seq<T::V>,
                            DecodeErrorModel,
                        >(done.deep_view()),
                    decreases items.len() - i,
                {
                    proof {
                        assert(models.take(i + 1).drop_last() =~= models.take(i as int));
                        assert(models.take(i + 1).last() == items@[i as int]@);
                    }
                    let ghost before = done.deep_view();
                    match T::from_value(&items[i], env) {
                        Ok(item) => {
                            done.push(item);
                            proof {
                                assert(done.deep_view() =~= before.push(item.deep_view()));
                            }
                        },
                        Err(error) => {
                            proof {
                                lemma_item_error_stays::<T>(models, env@, i + 1);
                            }
                            return Err(error);
                        },
                    }
                    i = i + 1;
                }
                proof {
                    assert(models.take(i as int) =~= models);
                }
                Ok(done)
            },
            _ => Err(DecodeError::Invalid { message: String::from_str("invalid type: expected a sequence") }),
        }
    }
}

impl<T: ToValue> ToValue for Vec<T> {
    /// A sequence is written as the sequence of what its items are written as.
    open spec fn encoded(model: Seq<T::V>) -> ValueModel {
        ValueModel::Sequence(Seq::new(model.len(), |i: int| T::encoded(model[i])))
    }

    fn to_value(&self) -> (value: Value) {
        let ghost model = self.deep_view();
        let mut items: Vec<Value> = Vec::new();
        let mut i: usize = 0;
        while i < self.len()
            invariant
                i <= self.len(),
                model == self.deep_view(),
                items@.len() == i,
                forall|j: int| 0 <= j < i ==> (#[trigger] items@[j])@ == T::encoded(model[j]),
            decreases self.len() - i,
        {
            let item = self[i].to_value();
            proof {
                assert(self@[i as int].deep_view() == model[i as int]);
            }
            items.push(item);
            i = i + 1;
        }
        proof {
            lemma_sequence_model(items);
            assert(value_models(items@) =~= Seq::new(model.len(), |i: int| T::encoded(model[i])));
        }
        Value::Sequence(items)
    }
}

} // verus!
