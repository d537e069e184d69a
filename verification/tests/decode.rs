use serde_env_field::decode::{DecodeError, FromText, FromValue, ToValue};
use serde_env_field::environment::Environment;
use serde_env_field::expand::{lookup, ExpandError, NotFound};
use serde_env_field::integers::{convert_integer, parse_integer, Integer};
use serde_env_field::util::reversed;
use serde_env_field::coerce::{
    deserialize_expanded, expand_text, expanded_or_missing, parse_expanded, route, Route,
};
use serde_env_field::value::{Shape, Value};
use serde_env_field::{EnvField, UseDeserialize};

fn text(s: &str) -> Value {
    Value::Text(s.to_string())
}

fn env_of(pairs: &[(&str, &str)]) -> Environment {
    let mut env = Environment::new();
    for (name, value) in pairs {
        env.set(name, value);
    }
    env
}

#[test]
fn plain_text_is_parsed_as_it_stands() {
    let env = Environment::new();
    let name = EnvField::<String>::deserialize(&text("Not-Var"), &env).unwrap();
    assert_eq!(&name, "Not-Var");
    let size = EnvField::<usize>::deserialize(&text("42"), &env).unwrap();
    assert_eq!(size, 42);
    let direct = usize::from_text("42").unwrap();
    assert_eq!(size.into_inner(), direct);
}

#[test]
fn default_is_used_while_the_variable_is_unset() {
    let mut env = Environment::new();
    let source = text("${NAME_test_required:-Default Entry}");
    let name = EnvField::<String>::deserialize(&source, &env).unwrap();
    assert_eq!(&name, "Default Entry");

    env.set("NAME_test_required", "Example Name");
    let name = EnvField::<String>::deserialize(&source, &env).unwrap();
    assert_eq!(&name, "Example Name");

    env.remove("NAME_test_required");
    let name = EnvField::<String>::deserialize(&source, &env).unwrap();
    assert_eq!(&name, "Default Entry");
}

#[test]
fn numeric_default_and_variable() {
    let mut env = Environment::new();
    let source = text("${NUMBER_test_default:-144}");
    assert_eq!(EnvField::<i32>::deserialize(&source, &env).unwrap(), 144);
    env.set("NUMBER_test_default", "777");
    assert_eq!(EnvField::<i32>::deserialize(&source, &env).unwrap(), 777);
}

#[test]
fn plain_and_braced_references_take_the_value() {
    let env = env_of(&[("SIZE_test_required", "1023")]);
    let plain = EnvField::<usize>::deserialize(&text("$SIZE_test_required"), &env).unwrap();
    assert_eq!(plain, 1023);
    let braced = EnvField::<usize>::deserialize(&text("${SIZE_test_required}"), &env).unwrap();
    assert_eq!(braced, 1023);
}

#[test]
fn several_variables_in_one_text() {
    let env = env_of(&[
        ("_SEV_S1", "env[str1]"),
        ("_SEV_S2", "env[str2]"),
        ("_SEV_N1", "4"),
        ("_SEV_N2", "2"),
    ]);
    let s = EnvField::<String>::deserialize(&text("$_SEV_S1/$_SEV_S2"), &env).unwrap();
    assert_eq!(&s, "env[str1]/env[str2]");
    let n = EnvField::<u32>::deserialize(&text("$_SEV_N1$_SEV_N2"), &env).unwrap();
    assert_eq!(n, 42);
}

#[test]
fn missing_variable_is_reported_by_name() {
    let env = Environment::new();
    let err = EnvField::<i32>::deserialize(&text("$NOT_EXISTING_VAR"), &env).unwrap_err();
    assert_eq!(err, DecodeError::MissingVariable { name: "NOT_EXISTING_VAR".to_string() });
    let message = err.message();
    assert!(message.contains("NOT_EXISTING_VAR"));
    assert!(message.contains("environment variable not found"));
    assert_eq!(
        message,
        "error looking key 'NOT_EXISTING_VAR' up: environment variable not found"
    );

    let braced = EnvField::<i32>::deserialize(&text("${NOT_EXISTING_VAR}"), &env).unwrap_err();
    assert_eq!(braced, DecodeError::MissingVariable { name: "NOT_EXISTING_VAR".to_string() });
}

#[test]
fn text_that_does_not_parse_is_a_parse_error() {
    let env = env_of(&[("WORD", "many")]);
    let err = EnvField::<i32>::deserialize(&text("$WORD"), &env).unwrap_err();
    assert_eq!(err, DecodeError::Parse { message: "invalid digit found in string".to_string() });
    assert_eq!(err.message(), "invalid digit found in string");
}

#[test]
fn scalars_are_constructed_without_expansion() {
    let env = Environment::new();
    assert_eq!(EnvField::<i32>::deserialize(&Value::I32(42), &env).unwrap(), 42);
    assert_eq!(EnvField::<i32>::deserialize(&Value::I64(-3000000), &env).unwrap(), -3000000);
    assert_eq!(EnvField::<u8>::deserialize(&Value::U64(128), &env).unwrap(), 128);
    assert_eq!(EnvField::<i8>::deserialize(&Value::I64(-128), &env).unwrap(), -128);
    assert_eq!(EnvField::<u64>::deserialize(&Value::U128(0x2000000), &env).unwrap(), 0x2000000);
    assert_eq!(EnvField::<bool>::deserialize(&Value::Bool(true), &env).unwrap(), true);
    assert_eq!(
        EnvField::<i32>::deserialize(&Value::I32(7), &env).unwrap().into_inner(),
        i32::from_value(&Value::I32(7), &env).unwrap()
    );
}

#[test]
fn scalar_of_the_wrong_kind_is_invalid() {
    let env = Environment::new();
    let err = EnvField::<u8>::deserialize(&Value::I32(300), &env).unwrap_err();
    assert_eq!(
        err,
        DecodeError::Invalid {
            message: "invalid value: integer out of range for the target type".to_string()
        }
    );
    let err = EnvField::<u8>::deserialize(&Value::I32(-1), &env).unwrap_err();
    assert_eq!(err.message(), "invalid value: integer out of range for the target type");
    let err = EnvField::<u64>::deserialize(&Value::U128(u128::MAX), &env).unwrap_err();
    assert_eq!(err.message(), "invalid value: integer out of range for the target type");
    let err = EnvField::<i32>::deserialize(&Value::Bool(true), &env).unwrap_err();
    assert_eq!(err.message(), "invalid type: expected an integer");
    let err = EnvField::<bool>::deserialize(&Value::I32(1), &env).unwrap_err();
    assert_eq!(err.message(), "invalid type: expected a boolean");
    let err = EnvField::<String>::deserialize(&Value::Char('A'), &env).unwrap_err();
    assert_eq!(err.message(), "invalid type: expected a string");
    let err = EnvField::<i32>::deserialize(&Value::F64(64.0f64.to_bits()), &env).unwrap_err();
    assert_eq!(err.message(), "invalid type: expected an integer");
}

#[test]
fn unit_is_an_unsupported_shape() {
    let env = Environment::new();
    let err = EnvField::<i32>::deserialize(&Value::Unit, &env).unwrap_err();
    assert_eq!(err, DecodeError::UnsupportedShape);
    assert_eq!(
        err.message(),
        "invalid type: unit value, expected a boolean, integer, float, character, string, byte array, array or map"
    );
    let err = EnvField::<i32, UseDeserialize>::deserialize(&Value::Unit, &env).unwrap_err();
    assert_eq!(err, DecodeError::UnsupportedShape);
}

#[test]
fn booleans_from_text() {
    let env = env_of(&[("BOOL_test_primitive", "false")]);
    assert_eq!(EnvField::<bool>::deserialize(&text("$BOOL_test_primitive"), &env).unwrap(), false);
    assert_eq!(EnvField::<bool>::deserialize(&text("true"), &env).unwrap(), true);
    let err = EnvField::<bool>::deserialize(&text("yes"), &env).unwrap_err();
    assert_eq!(
        err,
        DecodeError::Parse { message: "provided string was not `true` or `false`".to_string() }
    );
}

#[test]
fn integers_of_every_width_from_text() {
    let env = env_of(&[
        ("I8_test_primitive", "-100"),
        ("I16_test_primitive", "-20000"),
        ("I32_test_primitive", "-3000000"),
        ("I64_test_primitive", "-4000000000"),
        ("U8_test_primitive", "100"),
        ("U16_test_primitive", "20000"),
        ("U32_test_primitive", "3000000"),
        ("U64_test_primitive", "4000000000"),
    ]);
    assert_eq!(EnvField::<i8>::deserialize(&text("$I8_test_primitive"), &env).unwrap(), -100);
    assert_eq!(EnvField::<i16>::deserialize(&text("$I16_test_primitive"), &env).unwrap(), -20000);
    assert_eq!(EnvField::<i32>::deserialize(&text("$I32_test_primitive"), &env).unwrap(), -3000000);
    assert_eq!(
        EnvField::<i64>::deserialize(&text("$I64_test_primitive"), &env).unwrap(),
        -4000000000
    );
    assert_eq!(EnvField::<u8>::deserialize(&text("$U8_test_primitive"), &env).unwrap(), 100);
    assert_eq!(EnvField::<u16>::deserialize(&text("$U16_test_primitive"), &env).unwrap(), 20000);
    assert_eq!(EnvField::<u32>::deserialize(&text("$U32_test_primitive"), &env).unwrap(), 3000000);
    assert_eq!(
        EnvField::<u64>::deserialize(&text("$U64_test_primitive"), &env).unwrap(),
        4000000000
    );
}

#[test]
fn integer_text_matches_the_standard_parser() {
    let cases = [
        "", "+", "-", "0", "-0", "+0", "007", "+5", "-5", "127", "128", "-128", "-129", "255",
        "256", "999x", "12a", "a12", " 1", "1 ", "--1", "+-1", "９", "1_000",
    ];
    for case in cases {
        assert_eq!(i8::from_text(case), case.parse::<i8>().map_err(|e| e.to_string()), "i8 {case:?}");
        assert_eq!(u8::from_text(case), case.parse::<u8>().map_err(|e| e.to_string()), "u8 {case:?}");
        assert_eq!(
            i32::from_text(case),
            case.parse::<i32>().map_err(|e| e.to_string()),
            "i32 {case:?}"
        );
    }
    let wide = [
        "9223372036854775807",
        "9223372036854775808",
        "-9223372036854775808",
        "-9223372036854775809",
        "18446744073709551615",
        "18446744073709551616",
        "99999999999999999999999999999999999999999999",
        "-99999999999999999999999999999999999999999999",
    ];
    for case in wide {
        assert_eq!(i64::from_text(case), case.parse::<i64>().map_err(|e| e.to_string()));
        assert_eq!(u64::from_text(case), case.parse::<u64>().map_err(|e| e.to_string()));
        assert_eq!(usize::from_text(case), case.parse::<usize>().map_err(|e| e.to_string()));
        assert_eq!(isize::from_text(case), case.parse::<isize>().map_err(|e| e.to_string()));
    }
}

#[test]
fn integer_errors_by_message() {
    assert_eq!(u8::from_text(""), Err("cannot parse integer from empty string".to_string()));
    assert_eq!(u8::from_text("-1"), Err("invalid digit found in string".to_string()));
    assert_eq!(u8::from_text("256"), Err("number too large to fit in target type".to_string()));
    assert_eq!(i8::from_text("-129"), Err("number too small to fit in target type".to_string()));
    assert_eq!(i8::from_text("-128"), Ok(-128));
    assert_eq!(u16::from_text("65535"), Ok(65535));
}

#[test]
fn optional_field_stays_absent_or_decodes_as_wrapped() {
    let env = env_of(&[("OPTIONAL", "-1024")]);
    let absent = Option::<EnvField<i32>>::from_value(&Value::Unit, &env).unwrap();
    assert!(absent.is_none());
    let from_env = Option::<EnvField<i32>>::from_value(&text("$OPTIONAL"), &env).unwrap();
    assert_eq!(from_env.unwrap(), -1024);
    let direct = Option::<EnvField<i32>>::from_value(&Value::I32(42), &env).unwrap();
    assert_eq!(direct.unwrap(), 42);
    let defaulted = Option::<EnvField<usize>>::from_value(&text("${SIZE_test_optional:-12}"), &env);
    assert_eq!(defaulted.unwrap().unwrap(), 12);
    let failed = Option::<EnvField<i32>>::from_value(&text("$MISSING_OPTIONAL"), &env);
    assert_eq!(
        failed.unwrap_err(),
        DecodeError::MissingVariable { name: "MISSING_OPTIONAL".to_string() }
    );
}

#[test]
fn sequence_items_are_decoded_one_by_one() {
    let mut env = env_of(&[("NUMBER1_test_seq", "-1024"), ("TWO_test_seq", "Str from Env")]);
    let numbers = Value::Sequence(vec![
        Value::I64(42),
        text("$NUMBER1_test_seq"),
        text("${NUMBER2_test_seq:-48}"),
        Value::I64(-512),
    ]);
    let strings = Value::Sequence(vec![text("ONE"), text("$TWO_test_seq")]);

    let de = Vec::<EnvField<i32>>::from_value(&numbers, &env).unwrap();
    assert!(de.iter().map(|e| **e).eq([42, -1024, 48, -512]));
    let de = Vec::<EnvField<String>>::from_value(&strings, &env).unwrap();
    assert!(de.iter().map(|e| e.as_str()).eq(["ONE", "Str from Env"]));

    env.set("NUMBER1_test_seq", "111");
    env.set("NUMBER2_test_seq", "-64");
    let de = Vec::<EnvField<i32>>::from_value(&numbers, &env).unwrap();
    assert!(de.iter().map(|e| **e).eq([42, 111, -64, -512]));
}

#[test]
fn sequence_fails_with_its_first_failing_item() {
    let env = Environment::new();
    let items = Value::Sequence(vec![
        Value::I64(1),
        text("$FIRST_MISSING"),
        text("$SECOND_MISSING"),
        Value::Bool(true),
    ]);
    let err = Vec::<EnvField<i32>>::from_value(&items, &env).unwrap_err();
    assert_eq!(err, DecodeError::MissingVariable { name: "FIRST_MISSING".to_string() });
    let err = Vec::<EnvField<i32>>::from_value(&Value::I32(1), &env).unwrap_err();
    assert_eq!(err.message(), "invalid type: expected a sequence");
    let empty = Vec::<EnvField<i32>>::from_value(&Value::Sequence(vec![]), &env).unwrap();
    assert!(empty.is_empty());
}

#[test]
fn bare_string_is_not_expanded() {
    let env = env_of(&[("WRAPPED", "From Env")]);
    let wrapped = EnvField::<String>::from_value(&text("$WRAPPED"), &env).unwrap();
    assert_eq!(&wrapped, "From Env");
    let skipped = String::from_value(&text("$SKIPPED"), &env).unwrap();
    assert_eq!(skipped, "$SKIPPED");
    let known = String::from_value(&text("$WRAPPED"), &env).unwrap();
    assert_eq!(known, "$WRAPPED");
}

#[test]
fn structured_strategy_hands_expanded_text_on_as_a_string() {
    let env = env_of(&[("SELECTED", "another-cool-variant"), ("NUM", "42")]);
    let field = EnvField::<String, UseDeserialize>::deserialize(&text("$SELECTED"), &env).unwrap();
    assert_eq!(&field, "another-cool-variant");
    let field =
        EnvField::<String, UseDeserialize>::env_expand_and_deserialize("a-$NUM", &env).unwrap();
    assert_eq!(&field, "a-42");
    let err = EnvField::<i32, UseDeserialize>::deserialize(&text("$NUM"), &env).unwrap_err();
    assert_eq!(err.message(), "invalid type: expected an integer");
    let direct = EnvField::<i32, UseDeserialize>::deserialize(&Value::I32(5), &env).unwrap();
    assert_eq!(direct, 5);
    let missing = EnvField::<String, UseDeserialize>::deserialize(&text("$ABSENT"), &env);
    assert_eq!(missing.unwrap_err(), DecodeError::MissingVariable { name: "ABSENT".to_string() });
}

#[test]
fn expansion_keeps_what_is_no_reference() {
    let env = env_of(&[("A", "a value"), ("B", "b value")]);
    let expand = |s: &str| EnvField::<String>::env_expand_and_parse(s, &env).map(|f| f.into_inner());
    assert_eq!(expand("begin/$A/${B}s/end").unwrap(), "begin/a value/b values/end");
    assert_eq!(expand("price: 5$").unwrap(), "price: 5$");
    assert_eq!(expand("$$A").unwrap(), "$A");
    assert_eq!(expand("${A").unwrap(), "${A");
    assert_eq!(expand("${UNSET:-$A}").unwrap(), "$A");
    assert_eq!(expand("${A:-fallback}").unwrap(), "a value");
    assert_eq!(expand("").unwrap(), "");
}

#[test]
fn written_value_is_the_inner_value() {
    let field: EnvField<i32> = 1023.into();
    assert_eq!(field.serialize(), Value::I32(1023));
    assert_eq!(field.serialize(), 1023i32.to_value());
    let field: EnvField<String> = "Example Name".to_string().into();
    assert_eq!(field.serialize(), text("Example Name"));
    let field: EnvField<usize> = 44.into();
    assert_eq!(field.to_value(), Value::U64(44));
    let many: Vec<EnvField<i32>> = vec![1.into(), (-2).into()];
    assert_eq!(many.to_value(), Value::Sequence(vec![Value::I32(1), Value::I32(-2)]));
    let none: Option<EnvField<bool>> = None;
    assert_eq!(none.to_value(), Value::Unit);
    let some: Option<EnvField<bool>> = Some(true.into());
    assert_eq!(some.to_value(), Value::Bool(true));
}

#[test]
fn written_then_decoded_gives_the_value_back() {
    let env = env_of(&[("HOME", "/root")]);
    let number: EnvField<i64> = (-4000000000).into();
    let back = EnvField::<i64>::deserialize(&number.serialize(), &env).unwrap();
    assert_eq!(back, number);
    let name: EnvField<String> = "Default Entry".to_string().into();
    let back = EnvField::<String>::deserialize(&name.serialize(), &env).unwrap();
    assert_eq!(back, name);
    let flag: EnvField<bool> = false.into();
    let back = EnvField::<bool>::deserialize(&flag.serialize(), &env).unwrap();
    assert_eq!(back, flag);

    let reference: EnvField<String> = "$HOME".to_string().into();
    let back = EnvField::<String>::deserialize(&reference.serialize(), &env).unwrap();
    assert_eq!(&back, "/root");
}

#[test]
fn environment_keeps_the_latest_value() {
    let mut env = Environment::new();
    assert_eq!(env.get("NAME"), None);
    env.set("NAME", "first");
    env.set("OTHER", "other");
    assert_eq!(env.get("NAME").map(|s| s.as_str()), Some("first"));
    env.set("NAME", "second");
    assert_eq!(env.get("NAME").map(|s| s.as_str()), Some("second"));
    assert_eq!(env.get("name"), None);
    env.remove("NAME");
    assert_eq!(env.get("NAME"), None);
    assert_eq!(env.get("OTHER").map(|s| s.as_str()), Some("other"));
    env.remove("NEVER_SET");
    assert_eq!(env.get("OTHER").map(|s| s.as_str()), Some("other"));
}

#[test]
fn wrapped_text_construction_does_not_expand() {
    let field = EnvField::<i32>::from_text("42").unwrap();
    assert_eq!(field, 42);
    let field = EnvField::<String>::from_text("$HOME").unwrap();
    assert_eq!(&field, "$HOME");
}

#[test]
fn clone_default_and_deref() {
    let field: EnvField<String> = "text".to_string().into();
    let copy = field.clone();
    assert_eq!(copy, field);
    assert_eq!(field.len(), 4);
    let zero: EnvField<i32> = Default::default();
    assert_eq!(zero, 0);
    assert_eq!(zero.into_inner(), 0);
}

#[test]
fn characters_from_text_and_values() {
    let env = env_of(&[("CHAR_test_primitive", "S")]);
    assert_eq!(EnvField::<char>::deserialize(&text("$CHAR_test_primitive"), &env).unwrap(), 'S');
    assert_eq!(EnvField::<char>::deserialize(&Value::Char('A'), &env).unwrap(), 'A');
    assert_eq!(char::from_value(&text("é"), &env), Ok('é'));
    assert_eq!(char::from_text(""), Err("cannot parse char from empty string".to_string()));
    assert_eq!(char::from_text("ab"), Err("too many characters in string".to_string()));
    assert_eq!(char::from_text("ab"), "ab".parse::<char>().map_err(|e| e.to_string()));
    assert_eq!(char::from_text(""), "".parse::<char>().map_err(|e| e.to_string()));
    let err = char::from_value(&text("ab"), &env).unwrap_err();
    assert_eq!(err.message(), "invalid type: expected a character");
    assert_eq!('x'.to_value(), Value::Char('x'));
}

#[test]
fn total_order_and_change_in_place() {
    let mut fields: Vec<EnvField<i32>> = vec![3.into(), 1.into(), 2.into()];
    fields.sort();
    assert!(fields.iter().map(|f| **f).eq([1, 2, 3]));
    let greatest = fields.iter().copied().max().unwrap();
    assert_eq!(greatest, 3);
    let mut name: EnvField<String> = "Hello".to_string().into();
    name.push_str(" World");
    assert_eq!(&name, "Hello World");
}

struct TwoGenerics<A, B> {
    a: A,
    b: B,
}

fn entry<'a>(entries: &'a [(Value, Value)], name: &str) -> &'a Value {
    let found = entries.iter().find(|(key, _)| *key == Value::Text(name.to_string()));
    &found.unwrap().1
}

fn two_generics(
    value: &Value,
    env: &Environment,
) -> Result<TwoGenerics<EnvField<String>, EnvField<i32>>, DecodeError> {
    match value {
        Value::Mapping(entries) => Ok(TwoGenerics {
            a: EnvField::from_value(entry(entries, "a"), env)?,
            b: EnvField::from_value(entry(entries, "b"), env)?,
        }),
        _ => Err(DecodeError::Invalid { message: "invalid type: expected a map".to_string() }),
    }
}

#[test]
fn container_with_wrapped_generics() {
    let env = env_of(&[("VAR", "hello"), ("GENERICS_I32", "517")]);
    let object = Value::Mapping(vec![(text("a"), text("$VAR")), (text("b"), Value::I64(7))]);
    let de = two_generics(&object, &env).unwrap();
    assert_eq!(&de.a, "hello");
    assert_eq!(de.b, 7);
    let object = Value::Mapping(vec![(text("a"), text("env string")), (text("b"), text("$GENERICS_I32"))]);
    let de = two_generics(&object, &env).unwrap();
    assert_eq!(&de.a, "env string");
    assert_eq!(de.b, 517);
    assert!(two_generics(&text("from str"), &env).is_err());
}

enum Example {
    Wrapped(EnvField<String>),
    Skipped { inner_str: String },
}

fn example(value: &Value, env: &Environment) -> Result<Example, DecodeError> {
    match value {
        Value::Mapping(entries) if entries.len() == 1 => {
            let (tag, content) = &entries[0];
            if *tag == text("Wrapped") {
                Ok(Example::Wrapped(EnvField::from_value(content, env)?))
            } else {
                match content {
                    Value::Mapping(fields) => Ok(Example::Skipped {
                        inner_str: String::from_value(entry(fields, "inner_str"), env)?,
                    }),
                    _ => Err(DecodeError::Invalid { message: "expected a map".to_string() }),
                }
            }
        }
        _ => Err(DecodeError::Invalid { message: "expected a map".to_string() }),
    }
}

#[test]
fn skipped_variant_is_read_verbatim() {
    let env = env_of(&[("WRAPPED_enum", "Enum String From Env")]);
    let wrapped = Value::Mapping(vec![(text("Wrapped"), text("$WRAPPED_enum"))]);
    let de = example(&wrapped, &env).unwrap();
    assert!(matches!(de, Example::Wrapped(s) if &s == "Enum String From Env"));
    let skipped = Value::Mapping(vec![(
        text("Skipped"),
        Value::Mapping(vec![(text("inner_str"), text("$WRAPPED_enum"))]),
    )]);
    let de = example(&skipped, &env).unwrap();
    assert!(matches!(de, Example::Skipped { inner_str } if inner_str == "$WRAPPED_enum"));
    let undefined = Value::Mapping(vec![(
        text("Skipped"),
        Value::Mapping(vec![(text("inner_str"), text("$UNDEFINED"))]),
    )]);
    let de = example(&undefined, &env).unwrap();
    assert!(matches!(de, Example::Skipped { inner_str } if inner_str == "$UNDEFINED"));
    let missing = Value::Mapping(vec![(text("Wrapped"), text("$UNDEFINED"))]);
    assert!(example(&missing, &env).is_err());
}

#[test]
fn shapes_and_routes() {
    assert_eq!(text("x").shape(), Shape::Text);
    assert_eq!(Value::U128(1).shape(), Shape::Integer);
    assert_eq!(Value::F32(1.5f32.to_bits()).shape(), Shape::Float);
    assert_eq!(Value::Bytes(vec![1, 2]).shape(), Shape::Bytes);
    assert_eq!(Value::Sequence(vec![]).shape(), Shape::Sequence);
    assert_eq!(Value::Mapping(vec![]).shape(), Shape::Mapping);
    assert_eq!(Value::Unit.shape(), Shape::Unit);
    assert_eq!(route(Shape::Text), Route::Expand);
    assert_eq!(route(Shape::Unit), Route::Refuse);
    for shape in [Shape::Bool, Shape::Integer, Shape::Float, Shape::Char, Shape::Bytes, Shape::Sequence, Shape::Mapping] {
        assert_eq!(route(shape), Route::Direct);
    }
    let env = env_of(&[("A", "1")]);
    assert_eq!(expand_text("$A+$A", &env), Ok("1+1".to_string()));
    assert_eq!(
        expand_text("$B", &env),
        Err(DecodeError::MissingVariable { name: "B".to_string() })
    );
}

#[test]
fn lookup_fails_for_a_variable_without_a_value() {
    let env = env_of(&[("A", "a value"), ("EMPTY", "")]);
    assert_eq!(lookup(&env, "A"), Ok(Some("a value".to_string())));
    assert_eq!(lookup(&env, "EMPTY"), Ok(Some(String::new())));
    assert_eq!(lookup(&env, "B"), Err(NotFound));
    let field = EnvField::<String>::deserialize(&text("<$EMPTY>"), &env).unwrap();
    assert_eq!(&field, "<>");
    let field = EnvField::<String>::deserialize(&text("${EMPTY:-default}"), &env).unwrap();
    assert_eq!(&field, "");
}

#[test]
fn reversed_turns_the_order_around() {
    assert_eq!(reversed(vec![1, 2, 3]), vec![3, 2, 1]);
    assert_eq!(reversed(Vec::<u8>::new()), Vec::<u8>::new());
}

#[test]
fn first_missing_reference_fails_whatever_follows() {
    let env = env_of(&[("A", "a value")]);
    let missing = |name: &str| DecodeError::MissingVariable { name: name.to_string() };
    let decode = |s: &str| EnvField::<String>::deserialize(&text(s), &env).map(|f| f.into_inner());
    assert_eq!(decode("begin/$Z/end"), Err(missing("Z")));
    assert_eq!(decode("begin/${Z}/end"), Err(missing("Z")));
    assert_eq!(decode("a${Z}b$A"), Err(missing("Z")));
    assert_eq!(decode("$Z$A"), Err(missing("Z")));
    assert_eq!(decode("$Z_1-$A"), Err(missing("Z_1")));
    assert_eq!(decode("${Z}}"), Err(missing("Z")));
    assert_eq!(decode("$A and $Z"), Err(missing("Z")));
    let err = EnvField::<i32>::deserialize(&text("port $PORT_1x"), &env).unwrap_err();
    assert_eq!(err, missing("PORT_1x"));
    assert!(err.message().contains("PORT_1x"));
    assert!(err.message().contains("environment variable not found"));
}

#[test]
fn construction_from_a_given_expansion() {
    let env = Environment::new();
    let field = parse_expanded::<i32>(Ok("42".to_string())).unwrap();
    assert_eq!(field, 42);
    let err = parse_expanded::<i32>(Ok("4 2".to_string())).unwrap_err();
    assert_eq!(err, DecodeError::Parse { message: "invalid digit found in string".to_string() });
    let err = parse_expanded::<i32>(Err(ExpandError { var_name: "N".to_string() })).unwrap_err();
    assert_eq!(err, DecodeError::MissingVariable { name: "N".to_string() });

    let field = deserialize_expanded::<String>(Ok("$kept".to_string()), &env).unwrap();
    assert_eq!(&field, "$kept");
    let err = deserialize_expanded::<bool>(Ok("true".to_string()), &env).unwrap_err();
    assert_eq!(err.message(), "invalid type: expected a boolean");
    let err = deserialize_expanded::<String>(Err(ExpandError { var_name: "S".to_string() }), &env);
    assert_eq!(err.unwrap_err(), DecodeError::MissingVariable { name: "S".to_string() });

    assert_eq!(expanded_or_missing(Ok("text".to_string())), Ok("text".to_string()));
    assert_eq!(
        expanded_or_missing(Err(ExpandError { var_name: "E".to_string() })),
        Err(DecodeError::MissingVariable { name: "E".to_string() })
    );
}

#[test]
fn widest_integers() {
    let env = Environment::new();
    let cases = [
        "0",
        "-1",
        "170141183460469231731687303715884105727",
        "170141183460469231731687303715884105728",
        "-170141183460469231731687303715884105728",
        "-170141183460469231731687303715884105729",
        "340282366920938463463374607431768211455",
        "340282366920938463463374607431768211456",
        "3402823669209384634633746074317682114550",
        "+340282366920938463463374607431768211455",
        "0000000000000000000000000000000000000000000000000000001",
        "34028236692093846346337460743176821145x",
    ];
    for case in cases {
        assert_eq!(i128::from_text(case), case.parse::<i128>().map_err(|e| e.to_string()), "{case}");
        assert_eq!(u128::from_text(case), case.parse::<u128>().map_err(|e| e.to_string()), "{case}");
    }
    assert_eq!(i128::from_value(&Value::I128(i128::MIN), &env), Ok(i128::MIN));
    assert_eq!(i128::from_value(&Value::U128(i128::MAX as u128), &env), Ok(i128::MAX));
    assert!(i128::from_value(&Value::U128(i128::MAX as u128 + 1), &env).is_err());
    assert_eq!(u128::from_value(&Value::U128(u128::MAX), &env), Ok(u128::MAX));
    assert!(u128::from_value(&Value::I8(-1), &env).is_err());
    assert_eq!(u64::from_value(&Value::I128(7), &env), Ok(7));
    assert_eq!(i64::from_value(&Value::I128(i64::MIN as i128), &env), Ok(i64::MIN));
    assert!(i64::from_value(&Value::I128(i64::MIN as i128 - 1), &env).is_err());
    assert_eq!(i128::MIN.to_value(), Value::I128(i128::MIN));
    assert_eq!(u128::MAX.to_value(), Value::U128(u128::MAX));
    let field =
        EnvField::<u128>::deserialize(&text("${BIG:-18446744073709551616}"), &env).unwrap();
    assert_eq!(field, 18446744073709551616u128);
}

#[test]
fn integers_by_sign_and_magnitude() {
    assert_eq!(Integer::from_signed(-5), Integer { negative: true, magnitude: 5 });
    assert_eq!(Integer::from_signed(i128::MIN), Integer { negative: true, magnitude: 1 << 127 });
    assert_eq!(Integer::from_signed(0), Integer { negative: false, magnitude: 0 });
    assert_eq!(Integer::from_unsigned(u128::MAX), Integer { negative: false, magnitude: u128::MAX });
    assert!(Integer::from_signed(-128).within(128, 127));
    assert!(!Integer::from_signed(-129).within(128, 127));
    assert!(!Integer::from_signed(128).within(128, 127));
    assert!(Integer::from_signed(0).within(0, 0));
    assert_eq!(parse_integer("-12", true, 12, 0), Ok(Integer { negative: true, magnitude: 12 }));
    assert_eq!(
        parse_integer("-13", true, 12, 0),
        Err("number too small to fit in target type".to_string())
    );
    assert_eq!(parse_integer("-12", false, 12, 0), Err("invalid digit found in string".to_string()));
    assert_eq!(
        parse_integer("1", true, u128::MAX, 0),
        Err("number too large to fit in target type".to_string())
    );
    assert_eq!(
        convert_integer(&Value::I16(-300), 300, 0),
        Ok(Integer { negative: true, magnitude: 300 })
    );
    assert!(convert_integer(&Value::I16(-300), 299, 0).is_err());
    assert!(convert_integer(&Value::Bool(true), 299, 0).is_err());
}
