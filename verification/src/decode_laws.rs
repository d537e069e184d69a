//! What holds of the decoding of a wrapped field, for every value.

use crate::coerce::{decoded_by_deserialize, decoded_from_str, parsed, text_laws};
use crate::construct::items_parsed;
use crate::decode::{DecodeErrorModel, FromText, FromValue, ToValue};
use crate::expand::env_expansion;
use crate::field::{EnvField, UseFromStr};
use crate::value::ValueModel;
use vstd::prelude::*;

verus! {

/// Whether the inner type reads back what it writes: the text constructor
/// where the value is written as text, the structured one otherwise.
pub open spec fn reads_back<T: FromText + FromValue + ToValue>(
    value: T::V,
    vars: Map<Seq<char>, Seq<char>>,
) -> bool {
    match T::encoded(value) {
        ValueModel::Text(text) => T::parse_text(text) == Ok::<T::V, Seq<char>>(value),
        ValueModel::Unit => false,
        other => T::parse_value(other, vars) == Ok::<T::V, DecodeErrorModel>(value),
    }
}

/// Writing a wrapped value out and decoding what was written gives the value
/// back, wherever the inner type reads back what it writes and the expansion
/// leaves the written text as it is.
///
/// Text that holds a reference to a variable is not left as it is: such a
/// value is written out unchanged, and expanded when it is decoded.
pub proof fn lemma_round_trip<T: FromText + FromValue + ToValue>(
    value: T::V,
    vars: Map<Seq<char>, Seq<char>>,
)
    requires
        reads_back::<T>(value, vars),
    ensures
        (T::encoded(value) matches ValueModel::Text(text) ==> env_expansion(text, vars) == Ok::<
            Seq<char>,
            Seq<char>,
        >(text)) ==> decoded_from_str::<T>(
            <EnvField<T, UseFromStr> as ToValue>::encoded(value),
            vars,
        ) == Ok::<T::V, DecodeErrorModel>(value),
{
}

/// Whether `outcome` can be what decoding the written form of `value` gave:
/// for text without a `$` it meets what is promised of decoded text, and for a
/// value of another shape it is the structured construction of that value.
pub open spec fn decoded_written<T: FromText + FromValue + ToValue>(
    value: T::V,
    vars: Map<Seq<char>, Seq<char>>,
    outcome: Result<T::V, DecodeErrorModel>,
) -> bool {
    match T::encoded(value) {
        ValueModel::Text(text) => !text.contains('$') && text_laws(
            text,
            vars,
            |e: Seq<char>| parsed::<T>(e),
            outcome,
        ),
        other => outcome == T::parse_value(other, vars),
    }
}

/// A value whose written form holds no `$` comes back from decoding what was
/// written, whatever the variables are, wherever the inner type reads back
/// what it writes.
pub proof fn lemma_round_trip_without_references<T: FromText + FromValue + ToValue>(
    value: T::V,
    vars: Map<Seq<char>, Seq<char>>,
    outcome: Result<T::V, DecodeErrorModel>,
)
    requires
        reads_back::<T>(value, vars),
        decoded_written::<T>(value, vars, outcome),
    ensures
        outcome == Ok::<T::V, DecodeErrorModel>(value),
{
}

/// A value that is neither text nor the unit value is decoded exactly as the
/// inner type constructs it: nothing is expanded. This holds under both
/// strategies.
pub proof fn lemma_other_shapes_pass_through<T: FromText + FromValue>(
    value: ValueModel,
    vars: Map<Seq<char>, Seq<char>>,
)
    requires
        !(value is Text),
        !(value is Unit),
    ensures
        decoded_from_str::<T>(value, vars) == T::parse_value(value, vars),
        decoded_by_deserialize::<T>(value, vars) == T::parse_value(value, vars),
{
}

/// An optional wrapped field stays absent where the value is absent, and is
/// decoded exactly as a wrapped field where it is present.
pub proof fn lemma_optional_field<T: FromText + FromValue>(
    value: ValueModel,
    vars: Map<Seq<char>, Seq<char>>,
)
    ensures
        <Option<EnvField<T, UseFromStr>> as FromValue>::parse_value(value, vars) == match value {
            ValueModel::Unit => Ok::<Option<T::V>, DecodeErrorModel>(None),
            _ => match decoded_from_str::<T>(value, vars) {
                Ok(inner) => Ok(Some(inner)),
                Err(error) => Err(error),
            },
        },
{
}

/// The items of a sequence are constructed one by one, each on its own: the
/// construction succeeds exactly when each item's does, and then gives each
/// item's result in order; and it fails with the error of the first item that
/// fails.
pub proof fn lemma_items_one_by_one<T: FromValue>(
    items: Seq<ValueModel>,
    vars: Map<Seq<char>, Seq<char>>,
)
    ensures
        match items_parsed::<T>(items, vars) {
            Ok(done) => {
                &&& done.len() == items.len()
                &&& forall|i: int|
                    0 <= i < items.len() ==> T::parse_value(#[trigger] items[i], vars) == Ok::<
                        T::V,
                        DecodeErrorModel,
                    >(done[i])
            },
            Err(error) => exists|i: int|
                {
                    &&& 0 <= i < items.len()
                    &&& T::parse_value(#[trigger] items[i], vars) == Err::<
                        T::V,
                        DecodeErrorModel,
                    >(error)
                    &&& forall|j: int|
                        0 <= j < i ==> T::parse_value(#[trigger] items[j], vars) is Ok
                },
        },
    decreases items.len(),
{
    if items.len() > 0 {
        let shorter = items.drop_last();
        lemma_items_one_by_one::<T>(shorter, vars);
        assert(forall|i: int| 0 <= i < shorter.len() ==> shorter[i] == items[i]);
        match items_parsed::<T>(shorter, vars) {
            Ok(done) => {
                if T::parse_value(items.last(), vars) is Err {
                    let i = items.len() - 1;
                    assert(T::parse_value(items[i], vars) is Err);
                }
            },
            Err(error) => {
                let i = choose|i: int|
                    {
                        &&& 0 <= i < shorter.len()
                        &&& T::parse_value(#[trigger] shorter[i], vars) == Err::<
                            T::V,
                            DecodeErrorModel,
                        >(error)
                        &&& forall|j: int|
                            0 <= j < i ==> T::parse_value(#[trigger] shorter[j], vars) is Ok
                    };
                assert(T::parse_value(items[i], vars) == Err::<T::V, DecodeErrorModel>(error));
            },
        }
    }
}

/// A sequence of wrapped fields decodes each of its items as a wrapped field.
pub proof fn lemma_sequence_of_fields<T: FromText + FromValue>(
    items: Seq<ValueModel>,
    vars: Map<Seq<char>, Seq<char>>,
)
    ensures
        <Vec<EnvField<T, UseFromStr>> as FromValue>::parse_value(ValueModel::Sequence(items), vars)
            == items_parsed::<EnvField<T, UseFromStr>>(items, vars),
        forall|i: int|
            0 <= i < items.len() ==> <EnvField<T, UseFromStr> as FromValue>::parse_value(
                #[trigger] items[i],
                vars,
            ) == decoded_from_str::<T>(items[i], vars),
{
}

/// A bare string field takes text as it stands: a reference to a variable in
/// it is no reference, and is neither expanded nor missed.
pub proof fn lemma_bare_text_is_literal(text: Seq<char>, vars: Map<Seq<char>, Seq<char>>)
    ensures
        <String as FromValue>::parse_value(ValueModel::Text(text), vars) == Ok::<
            Seq<char>,
            DecodeErrorModel,
        >(text),
{
}

} // verus!
