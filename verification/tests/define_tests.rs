use ffi_rs::define::{
    number_to_data_type, BasicDataType, DataType, FFIError, FFITypeTag, RefDataType, RsArgsValue,
};
use ffi_rs::define::values_equal;

fn unsupported_message(e: FFIError) -> String {
    match e {
        FFIError::UnsupportedValueType(m) => m,
        other => panic!("unexpected error {:?}", other),
    }
}

#[test]
fn data_type_codes_map_to_their_variants() {
    let expected = [
        DataType::String,
        DataType::I32,
        DataType::Double,
        DataType::I32Array,
        DataType::StringArray,
        DataType::DoubleArray,
        DataType::Boolean,
        DataType::Void,
        DataType::I64,
        DataType::U8,
        DataType::U8Array,
        DataType::External,
        DataType::U64,
        DataType::FloatArray,
        DataType::Float,
        DataType::WString,
        DataType::BigInt,
        DataType::I16,
        DataType::StructArray,
        DataType::I16Array,
        DataType::U32,
    ];
    for (code, t) in expected.iter().enumerate() {
        let got = DataType::try_from(code as i32).unwrap();
        assert_eq!(got, *t);
        assert_eq!(got.to_i32(), code as i32);
    }
}

#[test]
fn data_type_rejects_unknown_numbers() {
    assert_eq!(unsupported_message(DataType::try_from(21).unwrap_err()), "Invalid DataType value: 21");
    assert_eq!(unsupported_message(DataType::try_from(-3).unwrap_err()), "Invalid DataType value: -3");
}

#[test]
fn basic_data_type_accepts_scalars() {
    assert_eq!(BasicDataType::try_from(0).unwrap(), BasicDataType::String);
    assert_eq!(BasicDataType::try_from(9).unwrap(), BasicDataType::U8);
    assert_eq!(BasicDataType::try_from(17).unwrap(), BasicDataType::I16);
    assert_eq!(BasicDataType::try_from(20).unwrap(), BasicDataType::U32);
}

#[test]
fn basic_data_type_points_arrays_to_the_array_constructor() {
    for code in [3, 4, 5, 10, 13, 18, 19] {
        assert_eq!(
            unsupported_message(BasicDataType::try_from(code).unwrap_err()),
            "In the latest ffi-rs version, please use ffi-rs.arrayConstrutor to describe array type"
        );
    }
    assert_eq!(
        unsupported_message(BasicDataType::try_from(99).unwrap_err()),
        "Invalid BasicDataType value: 99"
    );
}

#[test]
fn ref_data_type_accepts_only_arrays() {
    assert_eq!(RefDataType::try_from(18).unwrap(), RefDataType::StructArray);
    assert_eq!(RefDataType::try_from(19).unwrap(), RefDataType::I16Array);
    assert_eq!(unsupported_message(RefDataType::try_from(1).unwrap_err()), "Invalid RefDataType value: 1");
}

#[test]
fn every_code_is_basic_or_array_but_not_both() {
    for code in -2..25 {
        let is_type = DataType::try_from(code).is_ok();
        let basic = BasicDataType::try_from(code).is_ok();
        let array = RefDataType::try_from(code).is_ok();
        assert_eq!(is_type, basic || array);
        assert!(!(basic && array));
    }
}

#[test]
fn first_type_table_numbers() {
    assert_eq!(number_to_data_type(0), DataType::String);
    assert_eq!(number_to_data_type(5), DataType::DoubleArray);
    assert_eq!(number_to_data_type(7), DataType::Void);
}

#[test]
fn tag_numbers() {
    assert_eq!(i32::from(FFITypeTag::Unknown), 0);
    assert_eq!(i32::from(FFITypeTag::StackArray), 996);
    assert_eq!(i32::from(FFITypeTag::Array), 997);
    assert_eq!(i32::from(FFITypeTag::Function), 998);
    assert_eq!(i32::from(FFITypeTag::StackStruct), 999);
}

#[test]
fn error_text() {
    assert_eq!(FFIError::UnExpectedError.as_ref(), "UnexpectedError");
    assert_eq!(FFIError::Panic("boom".to_string()).as_ref(), "boom");
    assert_eq!(FFIError::NapiError("InvalidArg".to_string()).as_ref(), "InvalidArg");
    assert_eq!(FFIError::LibraryNotFound("x".to_string()).as_ref(), "x");
}

#[test]
fn clone_copies_nested_values() {
    let inner: Vec<(String, RsArgsValue)> = vec![
        ("name".to_string(), RsArgsValue::String("point".to_string())),
        ("xs".to_string(), RsArgsValue::I32Array(vec![1, 2, 3])),
    ];
    let value = RsArgsValue::Object(vec![
        ("ffiTypeTag".to_string(), RsArgsValue::I32(999)),
        ("inner".to_string(), RsArgsValue::Object(inner.clone())),
        ("items".to_string(), RsArgsValue::StructArray(vec![inner.clone(), inner])),
        ("bytes".to_string(), RsArgsValue::U8Array(vec![7, 8])),
        ("f".to_string(), RsArgsValue::Float(0x3f80_0000)),
        ("names".to_string(), RsArgsValue::StringArray(vec!["a".to_string(), "b".to_string()])),
    ]);
    let copy = value.clone();
    assert_eq!(format!("{:?}", copy), format!("{:?}", value));
    match copy {
        RsArgsValue::Object(fields) => {
            assert_eq!(fields.len(), 6);
            assert_eq!(fields[1].0, "inner");
        }
        _ => panic!("expected an object"),
    }
}

#[test]
fn equality_of_values() {
    let v = |x: RsArgsValue, y: RsArgsValue| values_equal(&x, &y);
    assert!(v(RsArgsValue::I32(7), RsArgsValue::I32(7)));
    assert!(!v(RsArgsValue::I32(7), RsArgsValue::U32(7)));
    assert!(v(RsArgsValue::String("a".to_string()), RsArgsValue::String("a".to_string())));
    assert!(v(RsArgsValue::Void, RsArgsValue::Void));
    assert!(v(RsArgsValue::Boolean(true), RsArgsValue::Boolean(true)));
    // 16-bit integers, buffers, functions, externals and struct arrays are never equal
    assert!(!v(RsArgsValue::I16(1), RsArgsValue::I16(1)));
    assert!(!v(RsArgsValue::U8Array(vec![1]), RsArgsValue::U8Array(vec![1])));
    assert!(!v(RsArgsValue::External(8), RsArgsValue::External(8)));
    assert!(!v(RsArgsValue::Function(vec![]), RsArgsValue::Function(vec![])));
    assert!(!v(RsArgsValue::StructArray(vec![]), RsArgsValue::StructArray(vec![])));
    // floats compare as floats
    let nan = f64::NAN.to_bits();
    assert!(!v(RsArgsValue::Double(nan), RsArgsValue::Double(nan)));
    assert!(v(RsArgsValue::Double(0.0f64.to_bits()), RsArgsValue::Double((-0.0f64).to_bits())));
    assert!(v(RsArgsValue::Float(1.5f32.to_bits()), RsArgsValue::Float(1.5f32.to_bits())));
    assert!(!v(RsArgsValue::FloatArray(vec![f32::NAN.to_bits()]), RsArgsValue::FloatArray(vec![f32::NAN.to_bits()])));
    assert!(v(RsArgsValue::DoubleArray(vec![0.0f64.to_bits()]), RsArgsValue::DoubleArray(vec![(-0.0f64).to_bits()])));
    assert!(v(RsArgsValue::I32Array(vec![1, 2]), RsArgsValue::I32Array(vec![1, 2])));
    assert!(!v(RsArgsValue::I32Array(vec![1, 2]), RsArgsValue::I32Array(vec![2, 1])));
    // objects compare as maps, in any order
    let a = RsArgsValue::Object(vec![
        ("x".to_string(), RsArgsValue::I32(1)),
        ("y".to_string(), RsArgsValue::String("s".to_string())),
    ]);
    let b = RsArgsValue::Object(vec![
        ("y".to_string(), RsArgsValue::String("s".to_string())),
        ("x".to_string(), RsArgsValue::I32(1)),
    ]);
    let c = RsArgsValue::Object(vec![
        ("y".to_string(), RsArgsValue::String("s".to_string())),
        ("x".to_string(), RsArgsValue::I32(2)),
    ]);
    assert!(values_equal(&a, &b));
    assert!(!values_equal(&a, &c));
}
