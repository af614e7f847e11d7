use hitbox::extractor::Extractor;
use hitbox::fn_args::{Arg, Args, FnExtractor, KeyExtract, Skipped};

#[test]
fn test_scalar_u64() {
    let value: u64 = 42;
    let parts = value.extract();

    assert_eq!(parts.len(), 1);
    assert_eq!(parts[0].key(), "u64");
    assert_eq!(parts[0].value(), Some("42"));
}

#[test]
fn test_scalar_i32() {
    let value: i32 = -123;
    let parts = value.extract();

    assert_eq!(parts.len(), 1);
    assert_eq!(parts[0].key(), "i32");
    assert_eq!(parts[0].value(), Some("-123"));
}

#[test]
fn test_scalar_string() {
    let value = String::from("hello");
    let parts = value.extract();

    assert_eq!(parts.len(), 1);
    assert_eq!(parts[0].key(), "str");
    assert_eq!(parts[0].value(), Some("hello"));
}

#[test]
fn test_scalar_str() {
    let value = "world";
    let parts = value.extract();

    assert_eq!(parts.len(), 1);
    assert_eq!(parts[0].key(), "str");
    assert_eq!(parts[0].value(), Some("world"));
}

#[test]
fn test_scalar_bool() {
    let parts_true = true.extract();
    let parts_false = false.extract();

    assert_eq!(parts_true[0].key(), "bool");
    assert_eq!(parts_true[0].value(), Some("true"));
    assert_eq!(parts_false[0].value(), Some("false"));
}

#[test]
fn test_scalar_remaining_numeric_types() {
    assert_eq!(42u8.extract()[0].key(), "u8");
    assert_eq!(42u8.extract()[0].value(), Some("42"));

    assert_eq!(1000u16.extract()[0].key(), "u16");
    assert_eq!(1000u16.extract()[0].value(), Some("1000"));

    assert_eq!(1u128.extract()[0].key(), "u128");
    assert_eq!(1u128.extract()[0].value(), Some("1"));

    assert_eq!(99usize.extract()[0].key(), "usize");
    assert_eq!(99usize.extract()[0].value(), Some("99"));

    assert_eq!((-1i8).extract()[0].key(), "i8");
    assert_eq!((-1i8).extract()[0].value(), Some("-1"));

    assert_eq!((-500i16).extract()[0].key(), "i16");
    assert_eq!((-500i16).extract()[0].value(), Some("-500"));

    assert_eq!(1i128.extract()[0].key(), "i128");
    assert_eq!(1i128.extract()[0].value(), Some("1"));

    assert_eq!(0isize.extract()[0].key(), "isize");
    assert_eq!(0isize.extract()[0].value(), Some("0"));
}

#[test]
fn test_key_extract_for_ref() {
    let value = 42u64;
    let ref_value: &u64 = &value;
    let parts = KeyExtract::extract(&ref_value);

    assert_eq!(parts.len(), 1);
    assert_eq!(parts[0].key(), "u64");
    assert_eq!(parts[0].value(), Some("42"));
}

#[test]
fn test_scalar_option_some() {
    let value: Option<u64> = Some(42);
    let parts = value.extract();

    assert_eq!(parts.len(), 1);
    assert_eq!(parts[0].key(), "u64");
    assert_eq!(parts[0].value(), Some("42"));
}

#[test]
fn test_scalar_option_none() {
    let value: Option<u64> = None;
    let parts = value.extract();

    assert_eq!(parts.len(), 1);
    assert_eq!(parts[0].key(), "none");
    assert_eq!(parts[0].value(), None);
}

#[test]
fn test_reference_to_scalar() {
    let value: u64 = 123;
    let value_ref = &value;

    let parts = value_ref.extract();

    assert_eq!(parts.len(), 1);
    assert_eq!(parts[0].key(), "u64");
    assert_eq!(parts[0].value(), Some("123"));
}

#[test]
fn test_extractor_with_scalars() {
    let extractor = FnExtractor::new("test::compute");
    let args = Args((42u64, "key".to_string()));

    let key_parts = extractor.get(args);
    let (_, key) = key_parts.into_cache_key();

    let key_str = key.to_string();
    assert!(key_str.contains("test::compute"));
    assert!(key_str.contains("42"));
    assert!(key_str.contains("key"));
}

#[test]
fn test_extractor_scalar_different_values() {
    let extractor = FnExtractor::new("test::add");

    let (_, key1) = extractor.get(Args((1i64, 2i64))).into_cache_key();
    let (_, key2) = extractor.get(Args((1i64, 3i64))).into_cache_key();
    let (_, key3) = extractor.get(Args((1i64, 2i64))).into_cache_key();

    assert_ne!(key1.to_string(), key2.to_string());
    assert_eq!(key1.to_string(), key3.to_string());
}

#[test]
fn extremes_of_signed_types_render_fully() {
    assert_eq!(i8::MIN.extract()[0].value(), Some("-128"));
    assert_eq!(i64::MIN.extract()[0].value(), Some("-9223372036854775808"));
    assert_eq!(
        i128::MIN.extract()[0].value(),
        Some("-170141183460469231731687303715884105728")
    );
    assert_eq!(
        u128::MAX.extract()[0].value(),
        Some("340282366920938463463374607431768211455")
    );
}

#[test]
fn single_part_argument_is_renamed_after_the_parameter() {
    let parts = Arg::new("id", 7u32).extract();
    assert_eq!(parts.len(), 1);
    assert_eq!(parts[0].key(), "id");
    assert_eq!(parts[0].value(), Some("7"));
}

#[test]
fn skipped_argument_contributes_nothing() {
    let parts = Skipped::new(7u32).extract();
    assert!(parts.is_empty());
    let args = Args((Arg::new("a", 1u8), Skipped::new(2u8), Arg::new("c", 3u8)));
    let parts = args.extract();
    assert_eq!(parts.len(), 2);
    assert_eq!(parts[0].key(), "a");
    assert_eq!(parts[1].key(), "c");
}

#[test]
fn function_extractor_names_the_function_first() {
    let extractor = FnExtractor::new("my::func");
    let (_, key) = extractor.get(Args((Arg::new("x", 5u32),))).into_cache_key();
    assert_eq!(key.to_string(), "fn=my::func&x=5");
}
