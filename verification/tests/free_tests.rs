use ffi_rs::datatype::pointer::{
    check_c_free, check_rs_free, free_c_pointer_action, free_rs_pointer_action, free_struct_plan,
    free_struct_plan_ok, CPointerFree, FreeKind, FreeStep, RsPointerFree,
};
use ffi_rs::define::{FieldList, PointerType, RefDataType, RsArgsValue};
use ffi_rs::utils::object_utils::{checked_field_size_align, checked_struct_size, field_offsets};
use ffi_rs::utils::pointer::check_ffi_type;

const PTR: usize = std::mem::size_of::<usize>();

fn field(name: &str, value: RsArgsValue) -> (String, RsArgsValue) {
    (name.to_string(), value)
}

fn num(code: i32) -> RsArgsValue {
    RsArgsValue::I32(code)
}

fn array(elem_code: i32, len: i32, tag: i32) -> RsArgsValue {
    RsArgsValue::Object(vec![
        field("type", num(elem_code)),
        field("length", num(len)),
        field("ffiTypeTag", num(tag)),
    ])
}

fn struct_array(item: FieldList, len: i32, tag: i32) -> RsArgsValue {
    RsArgsValue::Object(vec![
        field("type", num(18)),
        field("length", num(len)),
        field("ffiTypeTag", num(tag)),
        field("structItemType", RsArgsValue::Object(item)),
    ])
}

fn function(need_free: bool) -> RsArgsValue {
    RsArgsValue::Object(vec![
        field("ffiTypeTag", num(998)),
        field("needFree", RsArgsValue::Boolean(need_free)),
    ])
}

fn step(position: usize, kind: FreeKind) -> FreeStep {
    FreeStep { position, kind }
}

#[test]
fn plan_walks_fields_and_frees_heap_data() {
    let desc: FieldList = vec![
        field("ffiTypeTag", num(999)),
        field("name", num(0)),
        field("n", num(1)),
        field("arr", array(3, 2, 997)),
        field("cb", function(true)),
        field("x", num(9)),
    ];
    assert!(free_struct_plan_ok(&desc));
    let plan = free_struct_plan(&desc, PointerType::CPointer);
    assert_eq!(
        plan,
        vec![
            step(0, FreeKind::Nothing),
            step(0, FreeKind::CString),
            step(8, FreeKind::Nothing),
            step(16, FreeKind::Array { elem: RefDataType::I32Array, len: 2 }),
            step(24, FreeKind::Base),
            step(32, FreeKind::Nothing),
        ]
    );
}

#[test]
fn plan_frees_byte_arrays_only_from_foreign_memory() {
    let desc: FieldList = vec![field("bytes", array(10, 5, 997))];
    assert_eq!(
        free_struct_plan(&desc, PointerType::CPointer),
        vec![step(0, FreeKind::Array { elem: RefDataType::U8Array, len: 5 })]
    );
    assert_eq!(free_struct_plan(&desc, PointerType::RsPointer), vec![step(0, FreeKind::Nothing)]);
}

#[test]
fn plan_of_inline_arrays_and_structs() {
    let item: FieldList = vec![field("ffiTypeTag", num(999)), field("a", num(1)), field("b", num(9))];
    let inner: FieldList = vec![field("ffiTypeTag", num(999)), field("w", num(15))];
    let desc: FieldList = vec![
        field("floats", array(13, 3, 996)),
        field("items", struct_array(item.clone_fields(), 2, 997)),
        field("inner", RsArgsValue::Object(inner)),
        field("other", RsArgsValue::Object(vec![field("z", num(1))])),
        field("names", array(4, 7, 997)),
    ];
    let plan = free_struct_plan(&desc, PointerType::RsPointer);
    assert_eq!(
        plan,
        vec![
            // three inline 4-byte floats, then pointers aligned to 8
            step(0, FreeKind::Nothing),
            step(16, FreeKind::StructArray { len: 2, item_size: 8 }),
            step(24, FreeKind::InlineStruct),
            step(32, FreeKind::PointedStruct),
            step(40, FreeKind::StringArray { len: 7 }),
        ]
    );
}

trait CloneFields {
    fn clone_fields(&self) -> FieldList;
}

impl CloneFields for FieldList {
    fn clone_fields(&self) -> FieldList {
        self.iter()
            .map(|(k, v)| match v {
                RsArgsValue::I32(n) => (k.clone(), RsArgsValue::I32(*n)),
                _ => panic!("only numbers"),
            })
            .collect()
    }
}

#[test]
fn plan_needs_readable_fields() {
    let bad_code: FieldList = vec![field("a", num(3))];
    assert!(!free_struct_plan_ok(&bad_code));
    let no_need_free: FieldList = vec![field("f", RsArgsValue::Object(vec![field("ffiTypeTag", num(998))]))];
    assert!(!free_struct_plan_ok(&no_need_free));
    let other_values: FieldList = vec![field("s", RsArgsValue::String("x".to_string()))];
    assert!(!free_struct_plan_ok(&other_values));
    let no_item: FieldList = vec![field("items", array(18, 2, 997))];
    assert!(!free_struct_plan_ok(&no_item));
}

#[test]
fn rust_pointer_actions() {
    assert_eq!(free_rs_pointer_action(&num(0)), RsPointerFree::CString);
    assert_eq!(free_rs_pointer_action(&num(15)), RsPointerFree::WideString);
    assert_eq!(free_rs_pointer_action(&num(1)), RsPointerFree::DropBox);
    assert_eq!(free_rs_pointer_action(&array(10, 4, 997)), RsPointerFree::Nothing);
    assert_eq!(
        free_rs_pointer_action(&array(3, 4, 997)),
        RsPointerFree::Array { elem: RefDataType::I32Array, len: 4 }
    );
    assert_eq!(free_rs_pointer_action(&array(4, 2, 997)), RsPointerFree::StringArray { len: 2 });
    let stack_item: FieldList = vec![field("ffiTypeTag", num(999)), field("a", num(1)), field("b", num(9))];
    assert_eq!(
        free_rs_pointer_action(&struct_array(stack_item, 3, 997)),
        RsPointerFree::StackStructArray { block_size: 24, align: 4 }
    );
    let heap_item: FieldList = vec![field("a", num(1))];
    assert_eq!(
        free_rs_pointer_action(&struct_array(heap_item, 3, 997)),
        RsPointerFree::StructPointerArray { len: 3, size: 4, align: 4 }
    );
    assert_eq!(free_rs_pointer_action(&function(true)), RsPointerFree::Closure);
    assert_eq!(free_rs_pointer_action(&function(false)), RsPointerFree::Nothing);
    assert_eq!(
        free_rs_pointer_action(&RsArgsValue::Object(vec![field("a", num(1))])),
        RsPointerFree::PointedStruct { size: 4, align: 4 }
    );
    assert_eq!(
        free_rs_pointer_action(&RsArgsValue::Object(vec![field("ffiTypeTag", num(999)), field("a", num(8))])),
        RsPointerFree::InlineStruct
    );
    assert_eq!(
        free_rs_pointer_action(&RsArgsValue::Object(vec![field("ffiTypeTag", num(999))])),
        RsPointerFree::Nothing
    );
    assert!(!check_rs_free(&RsArgsValue::Boolean(true)));
    assert!(!check_rs_free(&num(3)));
    assert!(check_rs_free(&num(20)));
}

#[test]
fn foreign_pointer_actions() {
    assert_eq!(free_c_pointer_action(&num(0)), CPointerFree::StringAndBox);
    assert_eq!(free_c_pointer_action(&num(12)), CPointerFree::Box);
    assert_eq!(
        free_c_pointer_action(&array(5, 6, 997)),
        CPointerFree::Array { elem: RefDataType::DoubleArray, len: 6 }
    );
    assert_eq!(free_c_pointer_action(&array(4, 6, 997)), CPointerFree::StringArray { len: 6 });
    assert_eq!(free_c_pointer_action(&array(4, 6, 996)), CPointerFree::Struct { inline: false });
    assert_eq!(
        free_c_pointer_action(&RsArgsValue::Object(vec![field("ffiTypeTag", num(999))])),
        CPointerFree::Struct { inline: true }
    );
    assert_eq!(free_c_pointer_action(&function(false)), CPointerFree::Nothing);
    assert_eq!(free_c_pointer_action(&function(true)), CPointerFree::Function);
    let item: FieldList = vec![field("a", num(8)), field("b", num(1))];
    assert_eq!(
        free_c_pointer_action(&struct_array(item, 2, 997)),
        CPointerFree::StructArray { len: 2, item_size: 16 }
    );
    assert!(!check_c_free(&RsArgsValue::String("x".to_string())));
    assert!(check_c_free(&array(4, 6, 996)));
}

#[test]
fn checked_layouts() {
    let ok: FieldList = vec![field("a", num(9)), field("b", num(1))];
    assert_eq!(checked_struct_size(&ok), Some((8, 4)));
    let bad: FieldList = vec![field("a", num(3))];
    assert_eq!(checked_struct_size(&bad), None);
    let not_a_type: FieldList = vec![field("a", RsArgsValue::Boolean(false))];
    assert_eq!(checked_struct_size(&not_a_type), None);
    // an inline array whose length reads as the largest usize does not fit
    let huge: FieldList = vec![field("a", array(3, -1, 996))];
    assert_eq!(checked_struct_size(&huge), None);
    // an empty inline struct has no alignment to place it by
    let empty_inner: FieldList = vec![field("e", RsArgsValue::Object(vec![field("ffiTypeTag", num(999))]))];
    assert_eq!(checked_struct_size(&empty_inner), None);
    assert_eq!(checked_field_size_align(&array(19, 3, 996)), Some((6, 2)));
    assert!(check_ffi_type(&num(1)));
    assert!(!check_ffi_type(&num(4)));
    assert!(check_ffi_type(&RsArgsValue::String("s".to_string())));
}

#[test]
fn plan_frees_where_layout_writes() {
    let desc: FieldList = vec![
        field("flag", num(6)),
        field("ffiTypeTag", num(999)),
        field("name", num(0)),
        field("small", num(17)),
        field("big", num(12)),
        field("ints", array(3, 4, 997)),
    ];
    let positions: Vec<usize> =
        free_struct_plan(&desc, PointerType::RsPointer).iter().map(|s| s.position).collect();
    assert_eq!(positions, field_offsets(&desc));
    assert_eq!(positions, vec![0, 1, 8, 16, 24, 32]);
}

#[test]
fn string_after_inline_float_array_is_freed_where_it_was_written() {
    for n in 1..6 {
        let desc: FieldList = vec![field("f", array(13, n, 996)), field("s", num(0))];
        assert!(free_struct_plan_ok(&desc));
        let plan = free_struct_plan(&desc, PointerType::CPointer);
        let string_at = (4 * n as usize + PTR - 1) / PTR * PTR;
        assert_eq!(field_offsets(&desc), vec![0, string_at]);
        assert_eq!(plan, vec![step(0, FreeKind::Nothing), step(string_at, FreeKind::CString)]);
    }
    let two: FieldList = vec![field("f", array(13, 2, 996)), field("s", num(0))];
    assert_eq!(free_struct_plan(&two, PointerType::CPointer)[1].position, 8);
}

#[test]
fn inline_string_array_takes_one_pointer_per_element() {
    let desc: FieldList = vec![field("names", array(4, 3, 996)), field("n", num(1))];
    let plan = free_struct_plan(&desc, PointerType::RsPointer);
    assert_eq!(plan, vec![step(0, FreeKind::Nothing), step(3 * PTR, FreeKind::Nothing)]);
    assert_eq!(field_offsets(&desc), vec![0, 3 * PTR]);
}
