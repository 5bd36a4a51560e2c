use forensic_rs::err::ForensicError;
use forensic_rs::traits::registry::RegValue;

#[test]
fn mod_should_convert_using_try_into() {
    let _: String = RegValue::SZ(format!("String RegValue"))
        .try_into()
        .expect("Must convert values");
    let _: String = RegValue::MultiSZ(vec![format!("String RegValue")])
        .try_into()
        .expect("Must convert values");
    let _: String = RegValue::ExpandSZ(format!("String RegValue"))
        .try_into()
        .expect("Must convert values");

    let _ = TryInto::<u32>::try_into(RegValue::ExpandSZ(format!("String RegValue")))
        .expect_err("Should return error");
    let _ = TryInto::<u64>::try_into(RegValue::ExpandSZ(format!("String RegValue")))
        .expect_err("Should return error");
    let _ = TryInto::<Vec<u8>>::try_into(RegValue::ExpandSZ(format!("String RegValue")))
        .expect_err("Should return error");

    let _: u32 = RegValue::DWord(123).try_into().expect("Must convert values");
    let _: u64 = RegValue::DWord(123).try_into().expect("Must convert values");

    let _ = TryInto::<String>::try_into(RegValue::DWord(123)).expect_err("Should return error");
    let _ = TryInto::<Vec<u8>>::try_into(RegValue::DWord(123)).expect_err("Should return error");

    let _: u32 = RegValue::QWord(123)
        .clone()
        .try_into()
        .expect("Must convert values");
    let _: u64 = RegValue::QWord(123).try_into().expect("Must convert values");

    let _ = TryInto::<String>::try_into(RegValue::QWord(123)).expect_err("Should return error");
    let _ = TryInto::<Vec<u8>>::try_into(RegValue::QWord(123)).expect_err("Should return error");

    let _: Vec<u8> = RegValue::Binary((1..255).collect())
        .try_into()
        .expect("Must convert values");
    let _ = TryInto::<u32>::try_into(RegValue::Binary((1..255).collect()))
        .expect_err("Should return error");
    let _ = TryInto::<u32>::try_into(RegValue::Binary((1..255).collect()))
        .expect_err("Should return error");
    let _ = TryInto::<u32>::try_into(RegValue::Binary((1..255).collect()))
        .expect_err("Should return error");
}

#[test]
fn registry_should_convert_using_try_into() {
    let _: String = RegValue::SZ(format!("String RegValue"))
        .try_into()
        .expect("Must convert values");
    let _: String = RegValue::MultiSZ(vec![format!("String RegValue")])
        .try_into()
        .expect("Must convert values");
    let _: String = RegValue::ExpandSZ(format!("String RegValue"))
        .try_into()
        .expect("Must convert values");

    let _ = TryInto::<u32>::try_into(RegValue::ExpandSZ(format!("String RegValue")))
        .expect_err("Should return error");
    let _ = TryInto::<u64>::try_into(RegValue::ExpandSZ(format!("String RegValue")))
        .expect_err("Should return error");
    let _ = TryInto::<Vec<u8>>::try_into(RegValue::ExpandSZ(format!("String RegValue")))
        .expect_err("Should return error");

    let _: u32 = RegValue::DWord(123).try_into().expect("Must convert values");
    let _: u64 = RegValue::DWord(123).try_into().expect("Must convert values");

    let _ = TryInto::<String>::try_into(RegValue::DWord(123)).expect_err("Should return error");
    let _ = TryInto::<Vec<u8>>::try_into(RegValue::DWord(123)).expect_err("Should return error");

    let _: u32 = RegValue::QWord(123)
        .clone()
        .try_into()
        .expect("Must convert values");
    let _: u64 = RegValue::QWord(123).try_into().expect("Must convert values");

    let _ = TryInto::<String>::try_into(RegValue::QWord(123)).expect_err("Should return error");
    let _ = TryInto::<Vec<u8>>::try_into(RegValue::QWord(123)).expect_err("Should return error");

    let _: Vec<u8> = RegValue::Binary((1..255).collect())
        .try_into()
        .expect("Must convert values");
    let _ = TryInto::<u32>::try_into(RegValue::Binary((1..255).collect()))
        .expect_err("Should return error");
    let _ = TryInto::<u32>::try_into(RegValue::Binary((1..255).collect()))
        .expect_err("Should return error");
    let _ = TryInto::<u32>::try_into(RegValue::Binary((1..255).collect()))
        .expect_err("Should return error");
}

fn all_kinds() -> Vec<RegValue> {
    vec![
        RegValue::Binary(vec![1, 2, 3]),
        RegValue::MultiSZ(vec!["first".to_string(), "second".to_string()]),
        RegValue::ExpandSZ("%SystemRoot%\\System32".to_string()),
        RegValue::SZ("text".to_string()),
        RegValue::DWord(7),
        RegValue::QWord(0x1_0000_0005),
    ]
}

#[test]
fn text_conversion_succeeds_for_the_three_text_kinds_only() {
    let results: Vec<Result<String, ForensicError>> =
        all_kinds().into_iter().map(|v| v.into_text()).collect();
    assert_eq!(results[0], Err(ForensicError::CastError));
    assert_eq!(results[1], Ok("first\nsecond".to_string()));
    assert_eq!(results[2], Ok("%SystemRoot%\\System32".to_string()));
    assert_eq!(results[3], Ok("text".to_string()));
    assert_eq!(results[4], Err(ForensicError::CastError));
    assert_eq!(results[5], Err(ForensicError::CastError));
}

#[test]
fn number_conversions_succeed_for_the_two_number_kinds_only() {
    let as_u32: Vec<Result<u32, ForensicError>> =
        all_kinds().into_iter().map(|v| v.into_u32()).collect();
    assert_eq!(as_u32[0], Err(ForensicError::CastError));
    assert_eq!(as_u32[1], Err(ForensicError::CastError));
    assert_eq!(as_u32[2], Err(ForensicError::CastError));
    assert_eq!(as_u32[3], Err(ForensicError::CastError));
    assert_eq!(as_u32[4], Ok(7));
    // A 64-bit number is cut to its low 32 bits.
    assert_eq!(as_u32[5], Ok(5));
    let as_u64: Vec<Result<u64, ForensicError>> =
        all_kinds().into_iter().map(|v| v.into_u64()).collect();
    assert_eq!(as_u64[0], Err(ForensicError::CastError));
    assert_eq!(as_u64[3], Err(ForensicError::CastError));
    assert_eq!(as_u64[4], Ok(7));
    assert_eq!(as_u64[5], Ok(0x1_0000_0005));
}

#[test]
fn byte_conversion_succeeds_for_binary_only() {
    let results: Vec<Result<Vec<u8>, ForensicError>> =
        all_kinds().into_iter().map(|v| v.into_bytes()).collect();
    assert_eq!(results[0], Ok(vec![1, 2, 3]));
    for other in &results[1..] {
        assert_eq!(*other, Err(ForensicError::CastError));
    }
}

#[test]
fn multi_string_joins_with_newlines() {
    assert_eq!(RegValue::MultiSZ(vec![]).into_text(), Ok(String::new()));
    assert_eq!(RegValue::MultiSZ(vec!["one".to_string()]).into_text(), Ok("one".to_string()));
    assert_eq!(
        RegValue::MultiSZ(vec!["a".to_string(), "".to_string(), "c".to_string()]).into_text(),
        Ok("a\n\nc".to_string())
    );
}

#[test]
fn constructors_make_the_matching_kind() {
    assert_eq!(RegValue::from_str("abc"), RegValue::SZ("abc".to_string()));
    assert_eq!(RegValue::from_string("abc".to_string()), RegValue::SZ("abc".to_string()));
    assert_eq!(RegValue::from_u32(9), RegValue::DWord(9));
    assert_eq!(RegValue::from_u64(9), RegValue::QWord(9));
}

#[test]
fn clone_keeps_every_kind() {
    for value in all_kinds() {
        assert_eq!(value.clone(), value);
    }
}

#[test]
fn values_are_made_from_plain_values() {
    assert_eq!(RegValue::from("text"), RegValue::SZ("text".to_string()));
    assert_eq!(RegValue::from("text".to_string()), RegValue::SZ("text".to_string()));
    assert_eq!(RegValue::from(7u32), RegValue::DWord(7));
    assert_eq!(RegValue::from(7u64), RegValue::QWord(7));
    assert_eq!(RegValue::from(7usize), RegValue::QWord(7));
    assert_eq!(RegValue::from(7i32), RegValue::DWord(7));
    assert_eq!(RegValue::from(-1i32), RegValue::DWord(u32::MAX));
    assert_eq!(RegValue::from(i32::MIN), RegValue::DWord(0x8000_0000));
    assert_eq!(RegValue::from(-2i64), RegValue::QWord(u64::MAX - 1));
    assert_eq!(RegValue::from(i64::MIN), RegValue::QWord(0x8000_0000_0000_0000));
    assert_eq!(RegValue::from(vec![1u8, 2]), RegValue::Binary(vec![1, 2]));
    assert_eq!(RegValue::from(&[1u8, 2][..]), RegValue::Binary(vec![1, 2]));
    assert_eq!(
        RegValue::from(vec!["a".to_string()]),
        RegValue::MultiSZ(vec!["a".to_string()])
    );
    assert_eq!(
        RegValue::from(&["a".to_string(), "b".to_string()][..]),
        RegValue::MultiSZ(vec!["a".to_string(), "b".to_string()])
    );
    assert_eq!(
        RegValue::from(&["a", "b"][..]),
        RegValue::MultiSZ(vec!["a".to_string(), "b".to_string()])
    );
}
