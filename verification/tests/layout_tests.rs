use ffi_rs::define::{insert_field, map_get, FFITypeTag, FieldList, RsArgsValue};
use ffi_rs::utils::dataprocess::{
    check_params_len, get_array_desc, get_array_value, get_ffi_tag, get_func_desc,
};
use ffi_rs::define::{FFIError, RefDataType};
use ffi_rs::utils::object_utils::{
    calculate_layout_for, calculate_struct_size, checked_field_size_align, field_offsets, get_size_align,
};
use ffi_rs::utils::pointer::{get_ffi_type, FfiType};

fn field(name: &str, value: RsArgsValue) -> (String, RsArgsValue) {
    (name.to_string(), value)
}

fn num(code: i32) -> RsArgsValue {
    RsArgsValue::I32(code)
}

fn stack_struct(mut fields: FieldList) -> RsArgsValue {
    fields.insert(0, field("ffiTypeTag", num(999)));
    RsArgsValue::Object(fields)
}

fn stack_array(elem_code: i32, len: i32) -> RsArgsValue {
    RsArgsValue::Object(vec![
        field("type", num(elem_code)),
        field("length", num(len)),
        field("ffiTypeTag", num(996)),
    ])
}

const PTR: usize = std::mem::size_of::<usize>();

#[test]
fn size_align_of_types() {
    assert_eq!(get_size_align::<i32>(), (4, std::mem::align_of::<i32>()));
    assert_eq!(get_size_align::<u8>(), (1, 1));
    assert_eq!(get_size_align::<()>(), (0, 1));
}

#[test]
fn one_field_step() {
    // a 4-byte field aligned to 4 after one byte: 3 bytes of padding
    assert_eq!(calculate_layout_for(1, 1, 1, 4, 4), (8, 4, 8));
    assert_eq!(calculate_layout_for(8, 4, 8, 1, 1), (9, 4, 9));
}

#[test]
fn tags_are_read() {
    let s: FieldList = vec![field("ffiTypeTag", num(999))];
    assert!(get_ffi_tag(&s) == FFITypeTag::StackStruct);
    let a: FieldList = vec![field("ffiTypeTag", num(997))];
    assert!(get_ffi_tag(&a) == FFITypeTag::Array);
    let f: FieldList = vec![field("ffiTypeTag", num(998))];
    assert!(get_ffi_tag(&f) == FFITypeTag::Function);
    let u: FieldList = vec![field("ffiTypeTag", num(5))];
    assert!(get_ffi_tag(&u) == FFITypeTag::Unknown);
    let none: FieldList = vec![field("a", num(1))];
    assert!(get_ffi_tag(&none) == FFITypeTag::Unknown);
    let not_number: FieldList = vec![field("ffiTypeTag", RsArgsValue::Boolean(true))];
    assert!(get_ffi_tag(&not_number) == FFITypeTag::Unknown);
}

#[test]
fn array_descriptor_is_read() {
    let item: FieldList = vec![field("ffiTypeTag", num(999)), field("x", num(1))];
    let desc: FieldList = vec![
        field("type", num(18)),
        field("length", num(3)),
        field("structItemType", RsArgsValue::Object(item)),
    ];
    let d = get_array_desc(&desc);
    assert_eq!(d.array_type, RefDataType::StructArray);
    assert_eq!(d.array_len, 3);
    assert_eq!(d.struct_item_type.unwrap().len(), 2);

    let plain: FieldList = vec![field("type", num(3)), field("length", RsArgsValue::Boolean(true))];
    let d = get_array_desc(&plain);
    assert_eq!(d.array_type, RefDataType::I32Array);
    assert_eq!(d.array_len, 0);
    assert!(d.struct_item_type.is_none());
}

#[test]
fn function_descriptor_is_read() {
    let yes: FieldList = vec![field("needFree", RsArgsValue::Boolean(true))];
    assert!(get_func_desc(&yes).need_free);
    let other: FieldList = vec![field("needFree", num(1))];
    assert!(!get_func_desc(&other).need_free);
}

#[test]
fn array_value_is_taken_out() {
    let mut desc: FieldList = vec![
        field("type", num(3)),
        field("value", RsArgsValue::I32Array(vec![1, 2])),
        field("length", num(2)),
    ];
    match get_array_value(&mut desc) {
        Some(RsArgsValue::I32Array(v)) => assert_eq!(v, vec![1, 2]),
        _ => panic!("value expected"),
    }
    assert_eq!(desc.len(), 2);
    assert_eq!(desc[0].0, "type");
    assert_eq!(desc[1].0, "length");
    assert!(get_array_value(&mut desc).is_none());
    assert_eq!(desc.len(), 2);
}

#[test]
fn params_length_check() {
    assert!(check_params_len(2, 2).is_ok());
    match check_params_len(2, 3) {
        Err(FFIError::Panic(m)) => {
            assert_eq!(m, "params_type length is not equal with params_value length")
        }
        _ => panic!("error expected"),
    }
}

#[test]
fn struct_of_byte_and_int_is_padded() {
    // { a: u8, b: i32 }: b at offset 4, size 8, alignment 4
    let s: FieldList = vec![field("ffiTypeTag", num(999)), field("a", num(9)), field("b", num(1))];
    let align_i32 = std::mem::align_of::<i32>();
    let (size, align) = calculate_struct_size(&s);
    assert_eq!(align, align_i32);
    assert_eq!(size, 8);
    assert_eq!(field_offsets(&s), vec![0, 0, 4]);
}

#[test]
fn struct_of_mixed_scalars() {
    // { u8, double, i16, char*, bool } on a 64-bit machine
    let s: FieldList = vec![
        field("a", num(9)),
        field("b", num(2)),
        field("c", num(17)),
        field("d", num(0)),
        field("e", num(6)),
    ];
    assert_eq!(calculate_struct_size(&s), (40, 8));
    assert_eq!(field_offsets(&s), vec![0, 8, 16, 24, 32]);
}

#[test]
fn nested_stack_struct_and_inline_array() {
    // { u8 flag; struct { i32 x; i64 y; } inner; i16 arr[3]; char *name; }
    let inner = stack_struct(vec![field("x", num(1)), field("y", num(8))]);
    let s: FieldList = vec![
        field("flag", num(9)),
        field("inner", inner),
        field("arr", stack_array(19, 3)),
        field("name", num(0)),
    ];
    assert_eq!(calculate_struct_size(&s), (40, 8));
    assert_eq!(field_offsets(&s), vec![0, 8, 24, 32]);
}

#[test]
fn heap_objects_are_pointers() {
    let by_pointer = RsArgsValue::Object(vec![field("x", num(1))]);
    let dynamic_array = RsArgsValue::Object(vec![
        field("type", num(3)),
        field("length", num(100)),
        field("ffiTypeTag", num(997)),
    ]);
    let s: FieldList = vec![field("p", by_pointer), field("q", dynamic_array)];
    assert_eq!(calculate_struct_size(&s), (2 * PTR, std::mem::align_of::<usize>()));
}

#[test]
fn inline_array_of_structs() {
    let item: FieldList = vec![field("ffiTypeTag", num(999)), field("a", num(1)), field("b", num(9))];
    let arr = RsArgsValue::Object(vec![
        field("type", num(18)),
        field("length", num(2)),
        field("ffiTypeTag", num(996)),
        field("structItemType", RsArgsValue::Object(item)),
    ]);
    let s: FieldList = vec![field("items", arr), field("last", num(9))];
    // each item is { i32, u8 } = 8 bytes; two items then one byte, rounded to 4
    assert_eq!(calculate_struct_size(&s), (20, std::mem::align_of::<i32>()));
}

#[test]
fn empty_struct_has_no_size() {
    let s: FieldList = vec![field("ffiTypeTag", num(999))];
    assert_eq!(calculate_struct_size(&s), (0, 0));
}

#[test]
fn ffi_types_of_scalars() {
    assert!(matches!(get_ffi_type(&num(6)), FfiType::U8));
    assert!(matches!(get_ffi_type(&num(16)), FfiType::I64));
    assert!(matches!(get_ffi_type(&num(15)), FfiType::Pointer));
    assert!(matches!(get_ffi_type(&num(7)), FfiType::Void));
    assert!(matches!(get_ffi_type(&num(14)), FfiType::Float));
    assert!(matches!(get_ffi_type(&RsArgsValue::Boolean(true)), FfiType::Void));
    assert!(matches!(get_ffi_type(&RsArgsValue::Object(vec![field("x", num(1))])), FfiType::Pointer));
}

#[test]
fn ffi_type_of_stack_struct() {
    let inner = stack_struct(vec![field("x", num(1))]);
    let s = stack_struct(vec![field("a", num(9)), field("b", num(2)), field("c", inner)]);
    match get_ffi_type(&s) {
        FfiType::Struct { size, alignment, elements } => {
            assert_eq!(size, 24);
            assert_eq!(alignment as usize, std::mem::align_of::<f64>());
            assert_eq!(elements.len(), 3);
            assert!(matches!(elements[0], FfiType::U8));
            assert!(matches!(elements[1], FfiType::Double));
            match &elements[2] {
                FfiType::Struct { size, elements, .. } => {
                    assert_eq!(*size, 4);
                    assert_eq!(elements.len(), 1);
                }
                _ => panic!("struct expected"),
            }
        }
        _ => panic!("struct expected"),
    }
}

#[test]
fn setting_a_field_then_reading_it() {
    let mut fields: FieldList = vec![field("a", num(1)), field("b", num(2))];
    insert_field(&mut fields, "b".to_string(), num(20));
    insert_field(&mut fields, "c".to_string(), num(30));
    let keys: Vec<&str> = fields.iter().map(|(k, _)| k.as_str()).collect();
    assert_eq!(keys, vec!["a", "b", "c"]);
    assert!(matches!(map_get(&fields, "b"), Some(RsArgsValue::I32(20))));
    assert!(matches!(map_get(&fields, "c"), Some(RsArgsValue::I32(30))));
    assert!(matches!(map_get(&fields, "a"), Some(RsArgsValue::I32(1))));
    assert!(map_get(&fields, "d").is_none());
}

#[test]
fn fields_are_aligned_disjoint_and_inside_the_struct() {
    let inner = stack_struct(vec![field("x", num(17)), field("y", num(8))]);
    let s: FieldList = vec![
        field("a", num(9)),
        field("ffiTypeTag", num(999)),
        field("inner", inner),
        field("arr", stack_array(3, 3)),
        field("flag", num(6)),
        field("name", num(15)),
        field("small", num(17)),
    ];
    let (size, align) = calculate_struct_size(&s);
    let offsets = field_offsets(&s);
    assert_eq!(size % align, 0);
    let mut end_of_previous = 0;
    for (i, (name, t)) in s.iter().enumerate() {
        if name == "ffiTypeTag" {
            continue;
        }
        let (field_size, field_align) = checked_field_size_align(t).unwrap();
        assert_eq!(offsets[i] % field_align, 0);
        assert!(offsets[i] >= end_of_previous);
        assert!(offsets[i] + field_size <= size);
        assert!(field_align <= align);
        end_of_previous = offsets[i] + field_size;
    }
    assert_eq!(offsets, vec![0, 1, 8, 24, 36, 40, 48]);
    assert_eq!((size, align), (56, 8));
}

#[test]
fn taking_the_value_out_keeps_the_descriptor() {
    let mut desc: FieldList = vec![
        field("type", num(3)),
        field("value", RsArgsValue::I32Array(vec![5, 6, 7])),
        field("length", num(3)),
        field("ffiTypeTag", num(996)),
    ];
    let before = get_array_desc(&desc);
    let (before_type, before_len) = (before.array_type, before.array_len);
    assert_eq!(get_ffi_tag(&desc), FFITypeTag::StackArray);
    assert!(get_array_value(&mut desc).is_some());
    let after = get_array_desc(&desc);
    assert_eq!(after.array_type, before_type);
    assert_eq!(after.array_len, before_len);
    assert!(after.struct_item_type.is_none());
    assert_eq!(get_ffi_tag(&desc), FFITypeTag::StackArray);
}
