//! The text form and the structured forms of the integer types.

use crate::decode::{DecodeError, DecodeErrorModel, FromText, FromValue, ToValue};
use crate::environment::Environment;
use crate::value::{Value, ValueModel};
use vstd::prelude::*;
use vstd::string::{StrSliceExecFns, StringExecFns};

verus! {

/// Whether `c` is one of `0` to `9`.
pub open spec fn is_digit(c: char) -> bool {
    '0' <= c && c <= '9'
}

/// The number that the digit `c` stands for.
pub open spec fn digit_value(c: char) -> int {
    c as int - 48
}

/// The number that the decimal digits stand for.
pub open spec fn digits_value(digits: Seq<char>) -> int
    decreases digits.len(),
{
    if digits.len() == 0 {
        0
    } else {
        digits_value(digits.drop_last()) * 10 + digit_value(digits.last())
    }
}

/// The length of the longest prefix of `text` that is made of digits.
pub open spec fn leading_digits(text: Seq<char>) -> int
    decreases text.len(),
{
    if text.len() == 0 {
        0
    } else if leading_digits(text.drop_last()) == text.len() - 1 && is_digit(text.last()) {
        text.len() as int
    } else {
        leading_digits(text.drop_last())
    }
}

/// The message for an empty text.
pub open spec fn empty_integer() -> Seq<char> {
    "cannot parse integer from empty string"@
}

/// The message for a text with a character that is no digit.
pub open spec fn invalid_digit() -> Seq<char> {
    "invalid digit found in string"@
}

/// The message for a number above the greatest of the type.
pub open spec fn too_large() -> Seq<char> {
    "number too large to fit in target type"@
}

/// The message for a number below the least of the type.
pub open spec fn too_small() -> Seq<char> {
    "number too small to fit in target type"@
}

/// The integer between `min` and `max` that `text` is the decimal form of.
///
/// The text is an optional sign and at least one digit; a `-` is a sign only
/// where `signed` holds. The text is read from the left: a number that leaves
/// the range before a character that is no digit is reported as out of range.
pub open spec fn integer_text(text: Seq<char>, signed: bool, min: int, max: int) -> Result<
    int,
    Seq<char>,
> {
    if text.len() == 0 {
        Err(empty_integer())
    } else {
        let negative = signed && text[0] == '-';
        let digits = if text[0] == '+' || negative {
            text.skip(1)
        } else {
            text
        };
        let run = digits.take(leading_digits(digits));
        if digits.len() == 0 {
            Err(invalid_digit())
        } else if negative && -digits_value(run) < min {
            Err(too_small())
        } else if !negative && digits_value(run) > max {
            Err(too_large())
        } else if run.len() < digits.len() {
            Err(invalid_digit())
        } else if negative {
            Ok(-digits_value(run))
        } else {
            Ok(digits_value(run))
        }
    }
}

/// An integer of any width, as its sign and its magnitude.
#[derive(Clone, Copy, Debug, PartialEq, Eq)]
pub struct Integer {
    pub negative: bool,
    pub magnitude: u128,
}

impl Integer {
    /// The integer that sign and magnitude stand for.
    pub open spec fn value(self) -> int {
        if self.negative {
            -(self.magnitude as int)
        } else {
            self.magnitude as int
        }
    }

    /// The integer of a signed number.
    pub fn from_signed(n: i128) -> (out: Integer)
        ensures
            out.value() == n,
    {
        if n >= 0 {
            Integer { negative: false, magnitude: n as u128 }
        } else if n == i128::MIN {
            Integer { negative: true, magnitude: 0x8000_0000_0000_0000_0000_0000_0000_0000 }
        } else {
            Integer { negative: true, magnitude: (-n) as u128 }
        }
    }

    /// The integer of an unsigned number.
    pub fn from_unsigned(n: u128) -> (out: Integer)
        ensures
            out.value() == n,
    {
        Integer { negative: false, magnitude: n }
    }

    /// Whether the integer lies between `-lowest` and `highest`.
    pub fn within(self, lowest: u128, highest: u128) -> (inside: bool)
        ensures
            inside == (-(lowest as int) <= self.value() <= highest as int),
    {
        if self.negative {
            self.magnitude <= lowest
        } else {
            self.magnitude <= highest
        }
    }

    fn signed(self) -> (n: i128)
        requires
            i128::MIN <= self.value() <= i128::MAX,
        ensures
            n == self.value(),
    {
        if !self.negative {
            self.magnitude as i128
        } else if self.magnitude == 0x8000_0000_0000_0000_0000_0000_0000_0000 {
            i128::MIN
        } else {
            -(self.magnitude as i128)
        }
    }

    fn unsigned(self) -> (n: u128)
        requires
            0 <= self.value(),
        ensures
            n == self.value(),
    {
        self.magnitude
    }
}

/// The model of the result of reading an integer.
pub open spec fn integer_outcome(outcome: Result<Integer, String>) -> Result<int, Seq<char>> {
    match outcome {
        Ok(n) => Ok(n.value()),
        Err(message) => Err(message@),
    }
}

/// A text whose first `k` characters are digits, and whose next one, if there
/// is one, is none, has exactly `k` leading digits.
proof fn lemma_leading_digits(text: Seq<char>, k: int)
    requires
        0 <= k <= text.len(),
        forall|i: int| 0 <= i < k ==> is_digit(#[trigger] text[i]),
        k < text.len() ==> !is_digit(text[k]),
    ensures
        leading_digits(text) == k,
    decreases text.len(),
{
    if text.len() > 0 {
        let shorter = text.drop_last();
        if k == text.len() {
            lemma_leading_digits(shorter, k - 1);
        } else {
            lemma_leading_digits(shorter, k);
        }
    }
}

/// The leading digits are digits, and what follows them, if anything, is none.
proof fn lemma_leading_digits_bounds(text: Seq<char>)
    ensures
        0 <= leading_digits(text) <= text.len(),
        forall|i: int| 0 <= i < leading_digits(text) ==> is_digit(#[trigger] text[i]),
        leading_digits(text) < text.len() ==> !is_digit(text[leading_digits(text)]),
    decreases text.len(),
{
    if text.len() > 0 {
        let shorter = text.drop_last();
        lemma_leading_digits_bounds(shorter);
        assert forall|i: int| 0 <= i < leading_digits(text) implies is_digit(
            #[trigger] text[i],
        ) by {
            if i < shorter.len() {
                assert(shorter[i] == text[i]);
            }
        }
        if leading_digits(shorter) < shorter.len() {
            assert(shorter[leading_digits(shorter)] == text[leading_digits(shorter)]);
        }
    }
}

/// Digits stand for a number that is not negative.
proof fn lemma_digits_not_negative(digits: Seq<char>)
    requires
        forall|i: int| 0 <= i < digits.len() ==> is_digit(#[trigger] digits[i]),
    ensures
        0 <= digits_value(digits),
    decreases digits.len(),
{
    if digits.len() > 0 {
        let shorter = digits.drop_last();
        assert forall|i: int| 0 <= i < shorter.len() implies is_digit(#[trigger] shorter[i]) by {
            assert(shorter[i] == digits[i]);
        }
        lemma_digits_not_negative(shorter);
        assert(is_digit(digits[digits.len() - 1]));
    }
}

/// A longer run of digits stands for a number that is no smaller.
proof fn lemma_digits_grow(digits: Seq<char>, k: int)
    requires
        0 <= k <= digits.len(),
        forall|i: int| 0 <= i < digits.len() ==> is_digit(#[trigger] digits[i]),
    ensures
        0 <= digits_value(digits.take(k)) <= digits_value(digits),
    decreases digits.len() - k,
{
    if k < digits.len() {
        let shorter = digits.drop_last();
        assert(shorter.take(k) =~= digits.take(k));
        assert forall|i: int| 0 <= i < shorter.len() implies is_digit(#[trigger] shorter[i]) by {
            assert(shorter[i] == digits[i]);
        }
        lemma_digits_grow(shorter, k);
        assert(is_digit(digits[digits.len() - 1]));
    } else {
        assert(digits.take(k) =~= digits);
        lemma_digits_not_negative(digits);
    }
}

/// Reads a decimal integer between `-lowest` and `highest`.
pub fn parse_integer(text: &str, signed: bool, lowest: u128, highest: u128) -> (out: Result<
    Integer,
    String,
>)
    ensures
        integer_outcome(out) == integer_text(text@, signed, -(lowest as int), highest as int),
        out matches Ok(n) ==> -(lowest as int) <= n.value() <= highest as int,
{
    let length = text.unicode_len();
    if length == 0 {
        return Err(String::from_str("cannot parse integer from empty string"));
    }
    let first = text.get_char(0);
    let negative = signed && first == '-';
    let start: usize = if first == '+' || negative {
        1
    } else {
        0
    };
    let limit: u128 = if negative {
        lowest
    } else {
        highest
    };
    let ghost digits = text@.skip(start as int);
    if start == length {
        return Err(String::from_str("invalid digit found in string"));
    }
    let mut magnitude: u128 = 0;
    let mut i: usize = start;
    proof {
        assert(digits.take(0) =~= Seq::<char>::empty());
        assert(text@.skip(0) =~= text@);
        assert(first == text@[0]);
        assert(digits.len() == length - start);
    }
    while i < length
        invariant
            start <= i <= length,
            length == text@.len(),
            digits == text@.skip(start as int),
            forall|j: int| 0 <= j < i - start ==> is_digit(#[trigger] digits[j]),
            magnitude == digits_value(digits.take(i - start)),
            magnitude <= limit,
            limit == if negative {
                lowest
            } else {
                highest
            },
            integer_text(text@, signed, -(lowest as int), highest as int) == {
                let run = digits.take(leading_digits(digits));
                if digits_value(run) > limit {
                    if negative {
                        Err::<int, Seq<char>>(too_small())
                    } else {
                        Err(too_large())
                    }
                } else if run.len() < digits.len() {
                    Err(invalid_digit())
                } else if negative {
                    Ok(-digits_value(run))
                } else {
                    Ok(digits_value(run))
                }
            },
        decreases length - i,
    {
        let c = text.get_char(i);
        let ghost at = i - start;
        assert(c == digits[at]);
        if !('0' <= c && c <= '9') {
            proof {
                lemma_leading_digits(digits, at);
            }
            return Err(String::from_str("invalid digit found in string"));
        }
        let digit: u128 = (c as u32 - 48) as u128;
        proof {
            assert(digits.take(at + 1).drop_last() =~= digits.take(at));
            assert(digits.take(at + 1).last() == c);
            assert(digits_value(digits.take(at + 1)) == magnitude * 10 + digit);
        }
        if digit > limit || magnitude > (limit - digit) / 10 {
            proof {
                assert(magnitude * 10 + digit > limit);
                lemma_leading_digits_bounds(digits);
                let count = leading_digits(digits);
                let run = digits.take(count);
                if count < at + 1 {
                    assert(is_digit(digits[count]));
                    assert(false);
                }
                assert(run.take(at + 1) =~= digits.take(at + 1));
                assert forall|j: int| 0 <= j < run.len() implies is_digit(#[trigger] run[j]) by {
                    assert(run[j] == digits[j]);
                }
                lemma_digits_grow(run, at + 1);
            }
            if negative {
                return Err(String::from_str("number too small to fit in target type"));
            } else {
                return Err(String::from_str("number too large to fit in target type"));
            }
        }
        magnitude = magnitude * 10 + digit;
        i = i + 1;
    }
    proof {
        lemma_leading_digits(digits, digits.len() as int);
        assert(digits.take(digits.len() as int) =~= digits);
    }
    Ok(Integer { negative, magnitude })
}

/// The message for a value that is no integer.
pub open spec fn expected_integer() -> Seq<char> {
    "invalid type: expected an integer"@
}

/// The message for an integer outside the range of the target type.
pub open spec fn out_of_range() -> Seq<char> {
    "invalid value: integer out of range for the target type"@
}

/// The integer that a value of an integer shape holds.
pub open spec fn value_integer(value: ValueModel) -> Option<int> {
    match value {
        ValueModel::I8(v) => Some(v as int),
        ValueModel::I16(v) => Some(v as int),
        ValueModel::I32(v) => Some(v as int),
        ValueModel::I64(v) => Some(v as int),
        ValueModel::I128(v) => Some(v as int),
        ValueModel::U8(v) => Some(v as int),
        ValueModel::U16(v) => Some(v as int),
        ValueModel::U32(v) => Some(v as int),
        ValueModel::U64(v) => Some(v as int),
        ValueModel::U128(v) => Some(v as int),
        _ => None,
    }
}

/// The integer between `min` and `max` that `value` holds, whatever the width
/// it came in.
pub open spec fn integer_value(value: ValueModel, min: int, max: int) -> Result<
    int,
    DecodeErrorModel,
> {
    match value_integer(value) {
        Some(n) => if min <= n <= max {
            Ok(n)
        } else {
            Err(DecodeErrorModel::Invalid { message: out_of_range() })
        },
        None => Err(DecodeErrorModel::Invalid { message: expected_integer() }),
    }
}

/// The model of the result of converting an integer.
pub open spec fn converted_outcome(outcome: Result<Integer, DecodeError>) -> Result<
    int,
    DecodeErrorModel,
> {
    match outcome {
        Ok(n) => Ok(n.value()),
        Err(error) => Err(error@),
    }
}

/// Takes the integer between `-lowest` and `highest` out of a value of an
/// integer shape.
pub fn convert_integer(value: &Value, lowest: u128, highest: u128) -> (out: Result<
    Integer,
    DecodeError,
>)
    ensures
        converted_outcome(out) == integer_value(value@, -(lowest as int), highest as int),
{
    let held: Option<Integer> = match value {
        Value::I8(v) => Some(Integer::from_signed(*v as i128)),
        Value::I16(v) => Some(Integer::from_signed(*v as i128)),
        Value::I32(v) => Some(Integer::from_signed(*v as i128)),
        Value::I64(v) => Some(Integer::from_signed(*v as i128)),
        Value::I128(v) => Some(Integer::from_signed(*v)),
        Value::U8(v) => Some(Integer::from_unsigned(*v as u128)),
        Value::U16(v) => Some(Integer::from_unsigned(*v as u128)),
        Value::U32(v) => Some(Integer::from_unsigned(*v as u128)),
        Value::U64(v) => Some(Integer::from_unsigned(*v as u128)),
        Value::U128(v) => Some(Integer::from_unsigned(*v)),
        _ => None,
    };
    match held {
        Some(n) => if n.within(lowest, highest) {
            Ok(n)
        } else {
            Err(
                DecodeError::Invalid {
                    message: String::from_str(
                        "invalid value: integer out of range for the target type",
                    ),
                },
            )
        },
        None => Err(
            DecodeError::Invalid { message: String::from_str("invalid type: expected an integer") },
        ),
    }
}

impl FromText for i8 {
    open spec fn parse_text(text: Seq<char>) -> Result<i8, Seq<char>> {
        match integer_text(text, true, i8::MIN as int, i8::MAX as int) {
            Ok(n) => Ok(n as i8),
            Err(message) => Err(message),
        }
    }

    fn from_text(text: &str) -> (out: Result<i8, String>) {
        match parse_integer(text, true, (i8::MAX as u128) + 1, i8::MAX as u128) {
            Ok(n) => Ok(n.signed() as i8),
            Err(message) => Err(message),
        }
    }
}

impl FromValue for i8 {
    open spec fn parse_value(value: ValueModel, vars: Map<Seq<char>, Seq<char>>) -> Result<
        i8,
        DecodeErrorModel,
    > {
        match integer_value(value, i8::MIN as int, i8::MAX as int) {
            Ok(n) => Ok(n as i8),
            Err(error) => Err(error),
        }
    }

    fn from_value(value: &Value, env: &Environment) -> (out: Result<i8, DecodeError>) {
        match convert_integer(value, (i8::MAX as u128) + 1, i8::MAX as u128) {
            Ok(n) => Ok(n.signed() as i8),
            Err(error) => Err(error),
        }
    }
}

impl ToValue for i8 {
    open spec fn encoded(model: i8) -> ValueModel {
        ValueModel::I8(model)
    }

    fn to_value(&self) -> (value: Value) {
        Value::I8(*self)
    }
}

impl FromText for i16 {
    open spec fn parse_text(text: Seq<char>) -> Result<i16, Seq<char>> {
        match integer_text(text, true, i16::MIN as int, i16::MAX as int) {
            Ok(n) => Ok(n as i16),
            Err(message) => Err(message),
        }
    }

    fn from_text(text: &str) -> (out: Result<i16, String>) {
        match parse_integer(text, true, (i16::MAX as u128) + 1, i16::MAX as u128) {
            Ok(n) => Ok(n.signed() as i16),
            Err(message) => Err(message),
        }
    }
}

impl FromValue for i16 {
    open spec fn parse_value(value: ValueModel, vars: Map<Seq<char>, Seq<char>>) -> Result<
        i16,
        DecodeErrorModel,
    > {
        match integer_value(value, i16::MIN as int, i16::MAX as int) {
            Ok(n) => Ok(n as i16),
            Err(error) => Err(error),
        }
    }

    fn from_value(value: &Value, env: &Environment) -> (out: Result<i16, DecodeError>) {
        match convert_integer(value, (i16::MAX as u128) + 1, i16::MAX as u128) {
            Ok(n) => Ok(n.signed() as i16),
            Err(error) => Err(error),
        }
    }
}

impl ToValue for i16 {
    open spec fn encoded(model: i16) -> ValueModel {
        ValueModel::I16(model)
    }

    fn to_value(&self) -> (value: Value) {
        Value::I16(*self)
    }
}

impl FromText for i32 {
    open spec fn parse_text(text: Seq<char>) -> Result<i32, Seq<char>> {
        match integer_text(text, true, i32::MIN as int, i32::MAX as int) {
            Ok(n) => Ok(n as i32),
            Err(message) => Err(message),
        }
    }

    fn from_text(text: &str) -> (out: Result<i32, String>) {
        match parse_integer(text, true, (i32::MAX as u128) + 1, i32::MAX as u128) {
            Ok(n) => Ok(n.signed() as i32),
            Err(message) => Err(message),
        }
    }
}

impl FromValue for i32 {
    open spec fn parse_value(value: ValueModel, vars: Map<Seq<char>, Seq<char>>) -> Result<
        i32,
        DecodeErrorModel,
    > {
        match integer_value(value, i32::MIN as int, i32::MAX as int) {
            Ok(n) => Ok(n as i32),
            Err(error) => Err(error),
        }
    }

    fn from_value(value: &Value, env: &Environment) -> (out: Result<i32, DecodeError>) {
        match convert_integer(value, (i32::MAX as u128) + 1, i32::MAX as u128) {
            Ok(n) => Ok(n.signed() as i32),
            Err(error) => Err(error),
        }
    }
}

impl ToValue for i32 {
    open spec fn encoded(model: i32) -> ValueModel {
        ValueModel::I32(model)
    }

    fn to_value(&self) -> (value: Value) {
        Value::I32(*self)
    }
}

impl FromText for i64 {
    open spec fn parse_text(text: Seq<char>) -> Result<i64, Seq<char>> {
        match integer_text(text, true, i64::MIN as int, i64::MAX as int) {
            Ok(n) => Ok(n as i64),
            Err(message) => Err(message),
        }
    }

    fn from_text(text: &str) -> (out: Result<i64, String>) {
        match parse_integer(text, true, (i64::MAX as u128) + 1, i64::MAX as u128) {
            Ok(n) => Ok(n.signed() as i64),
            Err(message) => Err(message),
        }
    }
}

impl FromValue for i64 {
    open spec fn parse_value(value: ValueModel, vars: Map<Seq<char>, Seq<char>>) -> Result<
        i64,
        DecodeErrorModel,
    > {
        match integer_value(value, i64::MIN as int, i64::MAX as int) {
            Ok(n) => Ok(n as i64),
            Err(error) => Err(error),
        }
    }

    fn from_value(value: &Value, env: &Environment) -> (out: Result<i64, DecodeError>) {
        match convert_integer(value, (i64::MAX as u128) + 1, i64::MAX as u128) {
            Ok(n) => Ok(n.signed() as i64),
            Err(error) => Err(error),
        }
    }
}

impl ToValue for i64 {
    open spec fn encoded(model: i64) -> ValueModel {
        ValueModel::I64(model)
    }

    fn to_value(&self) -> (value: Value) {
        Value::I64(*self)
    }
}

impl FromText for i128 {
    open spec fn parse_text(text: Seq<char>) -> Result<i128, Seq<char>> {
        match integer_text(text, true, i128::MIN as int, i128::MAX as int) {
            Ok(n) => Ok(n as i128),
            Err(message) => Err(message),
        }
    }

    fn from_text(text: &str) -> (out: Result<i128, String>) {
        match parse_integer(text, true, (i128::MAX as u128) + 1, i128::MAX as u128) {
            Ok(n) => Ok(n.signed()),
            Err(message) => Err(message),
        }
    }
}

impl FromValue for i128 {
    open spec fn parse_value(value: ValueModel, vars: Map<Seq<char>, Seq<char>>) -> Result<
        i128,
        DecodeErrorModel,
    > {
        match integer_value(value, i128::MIN as int, i128::MAX as int) {
            Ok(n) => Ok(n as i128),
            Err(error) => Err(error),
        }
    }

    fn from_value(value: &Value, env: &Environment) -> (out: Result<i128, DecodeError>) {
        match convert_integer(value, (i128::MAX as u128) + 1, i128::MAX as u128) {
            Ok(n) => Ok(n.signed()),
            Err(error) => Err(error),
        }
    }
}

impl ToValue for i128 {
    open spec fn encoded(model: i128) -> ValueModel {
        ValueModel::I128(model)
    }

    fn to_value(&self) -> (value: Value) {
        Value::I128(*self)
    }
}

impl FromText for isize {
    open spec fn parse_text(text: Seq<char>) -> Result<isize, Seq<char>> {
        match integer_text(text, true, isize::MIN as int, isize::MAX as int) {
            Ok(n) => Ok(n as isize),
            Err(message) => Err(message),
        }
    }

    fn from_text(text: &str) -> (out: Result<isize, String>) {
        match parse_integer(text, true, (isize::MAX as u128) + 1, isize::MAX as u128) {
            Ok(n) => Ok(n.signed() as isize),
            Err(message) => Err(message),
        }
    }
}

impl FromValue for isize {
    open spec fn parse_value(value: ValueModel, vars: Map<Seq<char>, Seq<char>>) -> Result<
        isize,
        DecodeErrorModel,
    > {
        match integer_value(value, isize::MIN as int, isize::MAX as int) {
            Ok(n) => Ok(n as isize),
            Err(error) => Err(error),
        }
    }

    fn from_value(value: &Value, env: &Environment) -> (out: Result<isize, DecodeError>) {
        match convert_integer(value, (isize::MAX as u128) + 1, isize::MAX as u128) {
            Ok(n) => Ok(n.signed() as isize),
            Err(error) => Err(error),
        }
    }
}

impl ToValue for isize {
    open spec fn encoded(model: isize) -> ValueModel {
        ValueModel::I64(model as i64)
    }

    fn to_value(&self) -> (value: Value) {
        Value::I64(*self as i64)
    }
}

impl FromText for u8 {
    open spec fn parse_text(text: Seq<char>) -> Result<u8, Seq<char>> {
        match integer_text(text, false, u8::MIN as int, u8::MAX as int) {
            Ok(n) => Ok(n as u8),
            Err(message) => Err(message),
        }
    }

    fn from_text(text: &str) -> (out: Result<u8, String>) {
        match parse_integer(text, false, 0, u8::MAX as u128) {
            Ok(n) => Ok(n.unsigned() as u8),
            Err(message) => Err(message),
        }
    }
}

impl FromValue for u8 {
    open spec fn parse_value(value: ValueModel, vars: Map<Seq<char>, Seq<char>>) -> Result<
        u8,
        DecodeErrorModel,
    > {
        match integer_value(value, u8::MIN as int, u8::MAX as int) {
            Ok(n) => Ok(n as u8),
            Err(error) => Err(error),
        }
    }

    fn from_value(value: &Value, env: &Environment) -> (out: Result<u8, DecodeError>) {
        match convert_integer(value, 0, u8::MAX as u128) {
            Ok(n) => Ok(n.unsigned() as u8),
            Err(error) => Err(error),
        }
    }
}

impl ToValue for u8 {
    open spec fn encoded(model: u8) -> ValueModel {
        ValueModel::U8(model)
    }

    fn to_value(&self) -> (value: Value) {
        Value::U8(*self)
    }
}

impl FromText for u16 {
    open spec fn parse_text(text: Seq<char>) -> Result<u16, Seq<char>> {
        match integer_text(text, false, u16::MIN as int, u16::MAX as int) {
            Ok(n) => Ok(n as u16),
            Err(message) => Err(message),
        }
    }

    fn from_text(text: &str) -> (out: Result<u16, String>) {
        match parse_integer(text, false, 0, u16::MAX as u128) {
            Ok(n) => Ok(n.unsigned() as u16),
            Err(message) => Err(message),
        }
    }
}

impl FromValue for u16 {
    open spec fn parse_value(value: ValueModel, vars: Map<Seq<char>, Seq<char>>) -> Result<
        u16,
        DecodeErrorModel,
    > {
        match integer_value(value, u16::MIN as int, u16::MAX as int) {
            Ok(n) => Ok(n as u16),
            Err(error) => Err(error),
        }
    }

    fn from_value(value: &Value, env: &Environment) -> (out: Result<u16, DecodeError>) {
        match convert_integer(value, 0, u16::MAX as u128) {
            Ok(n) => Ok(n.unsigned() as u16),
            Err(error) => Err(error),
        }
    }
}

impl ToValue for u16 {
    open spec fn encoded(model: u16) -> ValueModel {
        ValueModel::U16(model)
    }

    fn to_value(&self) -> (value: Value) {
        Value::U16(*self)
    }
}

impl FromText for u32 {
    open spec fn parse_text(text: Seq<char>) -> Result<u32, Seq<char>> {
        match integer_text(text, false, u32::MIN as int, u32::MAX as int) {
            Ok(n) => Ok(n as u32),
            Err(message) => Err(message),
        }
    }

    fn from_text(text: &str) -> (out: Result<u32, String>) {
        match parse_integer(text, false, 0, u32::MAX as u128) {
            Ok(n) => Ok(n.unsigned() as u32),
            Err(message) => Err(message),
        }
    }
}

impl FromValue for u32 {
    open spec fn parse_value(value: ValueModel, vars: Map<Seq<char>, Seq<char>>) -> Result<
        u32,
        DecodeErrorModel,
    > {
        match integer_value(value, u32::MIN as int, u32::MAX as int) {
            Ok(n) => Ok(n as u32),
            Err(error) => Err(error),
        }
    }

    fn from_value(value: &Value, env: &Environment) -> (out: Result<u32, DecodeError>) {
        match convert_integer(value, 0, u32::MAX as u128) {
            Ok(n) => Ok(n.unsigned() as u32),
            Err(error) => Err(error),
        }
    }
}

impl ToValue for u32 {
    open spec fn encoded(model: u32) -> ValueModel {
        ValueModel::U32(model)
    }

    fn to_value(&self) -> (value: Value) {
        Value::U32(*self)
    }
}

impl FromText for u64 {
    open spec fn parse_text(text: Seq<char>) -> Result<u64, Seq<char>> {
        match integer_text(text, false, u64::MIN as int, u64::MAX as int) {
            Ok(n) => Ok(n as u64),
            Err(message) => Err(message),
        }
    }

    fn from_text(text: &str) -> (out: Result<u64, String>) {
        match parse_integer(text, false, 0, u64::MAX as u128) {
            Ok(n) => Ok(n.unsigned() as u64),
            Err(message) => Err(message),
        }
    }
}

impl FromValue for u64 {
    open spec fn parse_value(value: ValueModel, vars: Map<Seq<char>, Seq<char>>) -> Result<
        u64,
        DecodeErrorModel,
    > {
        match integer_value(value, u64::MIN as int, u64::MAX as int) {
            Ok(n) => Ok(n as u64),
            Err(error) => Err(error),
        }
    }

    fn from_value(value: &Value, env: &Environment) -> (out: Result<u64, DecodeError>) {
        match convert_integer(value, 0, u64::MAX as u128) {
            Ok(n) => Ok(n.unsigned() as u64),
            Err(error) => Err(error),
        }
    }
}

impl ToValue for u64 {
    open spec fn encoded(model: u64) -> ValueModel {
        ValueModel::U64(model)
    }

    fn to_value(&self) -> (value: Value) {
        Value::U64(*self)
    }
}

impl FromText for u128 {
    open spec fn parse_text(text: Seq<char>) -> Result<u128, Seq<char>> {
        match integer_text(text, false, u128::MIN as int, u128::MAX as int) {
            Ok(n) => Ok(n as u128),
            Err(message) => Err(message),
        }
    }

    fn from_text(text: &str) -> (out: Result<u128, String>) {
        match parse_integer(text, false, 0, u128::MAX as u128) {
            Ok(n) => Ok(n.unsigned()),
            Err(message) => Err(message),
        }
    }
}

impl FromValue for u128 {
    open spec fn parse_value(value: ValueModel, vars: Map<Seq<char>, Seq<char>>) -> Result<
        u128,
        DecodeErrorModel,
    > {
        match integer_value(value, u128::MIN as int, u128::MAX as int) {
            Ok(n) => Ok(n as u128),
            Err(error) => Err(error),
        }
    }

    fn from_value(value: &Value, env: &Environment) -> (out: Result<u128, DecodeError>) {
        match convert_integer(value, 0, u128::MAX as u128) {
            Ok(n) => Ok(n.unsigned()),
            Err(error) => Err(error),
        }
    }
}

impl ToValue for u128 {
    open spec fn encoded(model: u128) -> ValueModel {
        ValueModel::U128(model)
    }

    fn to_value(&self) -> (value: Value) {
        Value::U128(*self)
    }
}

impl FromText for usize {
    open spec fn parse_text(text: Seq<char>) -> Result<usize, Seq<char>> {
        match integer_text(text, false, usize::MIN as int, usize::MAX as int) {
            Ok(n) => Ok(n as usize),
            Err(message) => Err(message),
        }
    }

    fn from_text(text: &str) -> (out: Result<usize, String>) {
        match parse_integer(text, false, 0, usize::MAX as u128) {
            Ok(n) => Ok(n.unsigned() as usize),
            Err(message) => Err(message),
        }
    }
}

impl FromValue for usize {
    open spec fn parse_value(value: ValueModel, vars: Map<Seq<char>, Seq<char>>) -> Result<
        usize,
        DecodeErrorModel,
    > {
        match integer_value(value, usize::MIN as int, usize::MAX as int) {
            Ok(n) => Ok(n as usize),
            Err(error) => Err(error),
        }
    }

    fn from_value(value: &Value, env: &Environment) -> (out: Result<usize, DecodeError>) {
        match convert_integer(value, 0, usize::MAX as u128) {
            Ok(n) => Ok(n.unsigned() as usize),
            Err(error) => Err(error),
        }
    }
}

impl ToValue for usize {
    open spec fn encoded(model: usize) -> ValueModel {
        ValueModel::U64(model as u64)
    }

    fn to_value(&self) -> (value: Value) {
        Value::U64(*self as u64)
    }
}

} // verus!
