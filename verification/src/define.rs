use crate::text::{concat, decimal_string, decimal_text};
use vstd::prelude::*;

verus! {

/// Errors raised while describing, converting or calling foreign functions.
#[derive(Debug)]
pub enum FFIError {
    /// An error reported by the JavaScript engine; holds the name of its status.
    NapiError(String),
    UnExpectedError,
    Panic(String),
    LibraryNotFound(String),
    FunctionNotFound(String),
    UnsupportedValueType(String),
}

impl FFIError {
    /// The text that describes the error.
    pub open spec fn message(&self) -> Seq<char> {
        match self {
            FFIError::UnExpectedError => "UnexpectedError"@,
            FFIError::NapiError(status) => status@,
            FFIError::Panic(desc) => desc@,
            FFIError::LibraryNotFound(desc) => desc@,
            FFIError::FunctionNotFound(desc) => desc@,
            FFIError::UnsupportedValueType(desc) => desc@,
        }
    }

    /// The text that describes the error.
    pub fn as_ref(&self) -> (res: &str)
        ensures
            res@ == self.message(),
    {
        match self {
            FFIError::UnExpectedError => "UnexpectedError",
            FFIError::NapiError(status) => status.as_str(),
            FFIError::Panic(desc) => desc.as_str(),
            FFIError::LibraryNotFound(desc) => desc.as_str(),
            FFIError::FunctionNotFound(desc) => desc.as_str(),
            FFIError::UnsupportedValueType(desc) => desc.as_str(),
        }
    }
}

/// Every type that a parameter or a return value can be declared with.
#[derive(Debug, Clone, Copy, PartialEq, Eq, Structural)]
pub enum DataType {
    String,
    I32,
    Double,
    I32Array,
    StringArray,
    DoubleArray,
    Boolean,
    Void,
    I64,
    U8,
    U8Array,
    External,
    U64,
    FloatArray,
    Float,
    WString,
    BigInt,
    I16,
    StructArray,
    I16Array,
    U32,
}

/// The scalar types: those that are described by a bare number.
#[derive(Debug, Clone, Copy, PartialEq, Eq, Structural)]
pub enum BasicDataType {
    String,
    I32,
    Double,
    Boolean,
    Void,
    I64,
    U8,
    External,
    U64,
    Float,
    WString,
    BigInt,
    I16,
    U32,
}

/// The array types: those that are described by an array descriptor.
#[derive(Debug, Clone, Copy, PartialEq, Eq, Structural)]
pub enum RefDataType {
    I32Array,
    StringArray,
    DoubleArray,
    U8Array,
    FloatArray,
    StructArray,
    I16Array,
}

/// The number by which each data type is written in a type description.
pub open spec fn data_type_code(t: DataType) -> int {
    match t {
        DataType::String => 0,
        DataType::I32 => 1,
        DataType::Double => 2,
        DataType::I32Array => 3,
        DataType::StringArray => 4,
        DataType::DoubleArray => 5,
        DataType::Boolean => 6,
        DataType::Void => 7,
        DataType::I64 => 8,
        DataType::U8 => 9,
        DataType::U8Array => 10,
        DataType::External => 11,
        DataType::U64 => 12,
        DataType::FloatArray => 13,
        DataType::Float => 14,
        DataType::WString => 15,
        DataType::BigInt => 16,
        DataType::I16 => 17,
        DataType::StructArray => 18,
        DataType::I16Array => 19,
        DataType::U32 => 20,
    }
}

/// The number of each scalar type (the same as that of the data type of the same name).
pub open spec fn basic_data_type_code(t: BasicDataType) -> int {
    match t {
        BasicDataType::String => 0,
        BasicDataType::I32 => 1,
        BasicDataType::Double => 2,
        BasicDataType::Boolean => 6,
        BasicDataType::Void => 7,
        BasicDataType::I64 => 8,
        BasicDataType::U8 => 9,
        BasicDataType::External => 11,
        BasicDataType::U64 => 12,
        BasicDataType::Float => 14,
        BasicDataType::WString => 15,
        BasicDataType::BigInt => 16,
        BasicDataType::I16 => 17,
        BasicDataType::U32 => 20,
    }
}

/// The number of each array type (the same as that of the data type of the same name).
pub open spec fn ref_data_type_code(t: RefDataType) -> int {
    match t {
        RefDataType::I32Array => 3,
        RefDataType::StringArray => 4,
        RefDataType::DoubleArray => 5,
        RefDataType::U8Array => 10,
        RefDataType::FloatArray => 13,
        RefDataType::StructArray => 18,
        RefDataType::I16Array => 19,
    }
}

/// The data type whose number is `v`, if any.
pub open spec fn data_type_from_code(v: int) -> Option<DataType> {
    if v == 0 { Some(DataType::String) }
    else if v == 1 { Some(DataType::I32) }
    else if v == 2 { Some(DataType::Double) }
    else if v == 3 { Some(DataType::I32Array) }
    else if v == 4 { Some(DataType::StringArray) }
    else if v == 5 { Some(DataType::DoubleArray) }
    else if v == 6 { Some(DataType::Boolean) }
    else if v == 7 { Some(DataType::Void) }
    else if v == 8 { Some(DataType::I64) }
    else if v == 9 { Some(DataType::U8) }
    else if v == 10 { Some(DataType::U8Array) }
    else if v == 11 { Some(DataType::External) }
    else if v == 12 { Some(DataType::U64) }
    else if v == 13 { Some(DataType::FloatArray) }
    else if v == 14 { Some(DataType::Float) }
    else if v == 15 { Some(DataType::WString) }
    else if v == 16 { Some(DataType::BigInt) }
    else if v == 17 { Some(DataType::I16) }
    else if v == 18 { Some(DataType::StructArray) }
    else if v == 19 { Some(DataType::I16Array) }
    else if v == 20 { Some(DataType::U32) }
    else { None }
}

/// The scalar type whose number is `v`, if any.
pub open spec fn basic_data_type_from_code(v: int) -> Option<BasicDataType> {
    if v == 0 { Some(BasicDataType::String) }
    else if v == 1 { Some(BasicDataType::I32) }
    else if v == 2 { Some(BasicDataType::Double) }
    else if v == 6 { Some(BasicDataType::Boolean) }
    else if v == 7 { Some(BasicDataType::Void) }
    else if v == 8 { Some(BasicDataType::I64) }
    else if v == 9 { Some(BasicDataType::U8) }
    else if v == 11 { Some(BasicDataType::External) }
    else if v == 12 { Some(BasicDataType::U64) }
    else if v == 14 { Some(BasicDataType::Float) }
    else if v == 15 { Some(BasicDataType::WString) }
    else if v == 16 { Some(BasicDataType::BigInt) }
    else if v == 17 { Some(BasicDataType::I16) }
    else if v == 20 { Some(BasicDataType::U32) }
    else { None }
}

/// The array type whose number is `v`, if any.
pub open spec fn ref_data_type_from_code(v: int) -> Option<RefDataType> {
    if v == 3 { Some(RefDataType::I32Array) }
    else if v == 4 { Some(RefDataType::StringArray) }
    else if v == 5 { Some(RefDataType::DoubleArray) }
    else if v == 10 { Some(RefDataType::U8Array) }
    else if v == 13 { Some(RefDataType::FloatArray) }
    else if v == 18 { Some(RefDataType::StructArray) }
    else if v == 19 { Some(RefDataType::I16Array) }
    else { None }
}

/// Whether `v` is the number of a scalar type.
pub open spec fn is_basic_code(v: int) -> bool {
    basic_data_type_from_code(v) is Some
}

/// Whether `v` is the number of an array type.
pub open spec fn is_ref_code(v: int) -> bool {
    ref_data_type_from_code(v) is Some
}

/// `prefix` followed by the decimal text of `v`.
pub open spec fn message_with_number(prefix: Seq<char>, v: int) -> Seq<char> {
    prefix + decimal_text(v)
}

/// Whether `e` is an `UnsupportedValueType` error with the message `m`.
pub open spec fn is_unsupported_with(e: FFIError, m: Seq<char>) -> bool {
    e matches FFIError::UnsupportedValueType(desc) && desc@ == m
}

/// An `UnsupportedValueType` error whose message is `prefix` followed by `value`.
fn invalid_value_error(prefix: &str, value: i32) -> (res: FFIError)
    ensures
        is_unsupported_with(res, message_with_number(prefix@, value as int)),
{
    let digits = decimal_string(value);
    FFIError::UnsupportedValueType(concat(prefix, digits.as_str()))
}

impl DataType {
    /// The data type written as `value` in a type description; an error for a number
    /// that names no type.
    pub fn try_from(value: i32) -> (res: Result<DataType, FFIError>)
        ensures
            res is Ok <==> data_type_from_code(value as int) is Some,
            res matches Ok(t) ==> data_type_from_code(value as int) == Some(t),
            res matches Err(e) ==> is_unsupported_with(
                e,
                message_with_number("Invalid DataType value: "@, value as int),
            ),
    {
        match value {
            0 => Ok(DataType::String),
            1 => Ok(DataType::I32),
            2 => Ok(DataType::Double),
            3 => Ok(DataType::I32Array),
            4 => Ok(DataType::StringArray),
            5 => Ok(DataType::DoubleArray),
            6 => Ok(DataType::Boolean),
            7 => Ok(DataType::Void),
            8 => Ok(DataType::I64),
            9 => Ok(DataType::U8),
            10 => Ok(DataType::U8Array),
            11 => Ok(DataType::External),
            12 => Ok(DataType::U64),
            13 => Ok(DataType::FloatArray),
            14 => Ok(DataType::Float),
            15 => Ok(DataType::WString),
            16 => Ok(DataType::BigInt),
            17 => Ok(DataType::I16),
            18 => Ok(DataType::StructArray),
            19 => Ok(DataType::I16Array),
            20 => Ok(DataType::U32),
            _ => Err(invalid_value_error("Invalid DataType value: ", value)),
        }
    }

    /// The number by which this type is written in a type description.
    pub fn to_i32(self) -> (res: i32)
        ensures
            res as int == data_type_code(self),
    {
        match self {
            DataType::String => 0,
            DataType::I32 => 1,
            DataType::Double => 2,
            DataType::I32Array => 3,
            DataType::StringArray => 4,
            DataType::DoubleArray => 5,
            DataType::Boolean => 6,
            DataType::Void => 7,
            DataType::I64 => 8,
            DataType::U8 => 9,
            DataType::U8Array => 10,
            DataType::External => 11,
            DataType::U64 => 12,
            DataType::FloatArray => 13,
            DataType::Float => 14,
            DataType::WString => 15,
            DataType::BigInt => 16,
            DataType::I16 => 17,
            DataType::StructArray => 18,
            DataType::I16Array => 19,
            DataType::U32 => 20,
        }
    }
}

/// The data type written as `value`, for the eight numbers of the first type table
/// (string, i32, double, i32 array, string array, double array, boolean, void).
pub fn number_to_data_type(value: i32) -> (res: DataType)
    requires
        0 <= value <= 7,
    ensures
        data_type_from_code(value as int) == Some(res),
{
    match value {
        0 => DataType::String,
        1 => DataType::I32,
        2 => DataType::Double,
        3 => DataType::I32Array,
        4 => DataType::StringArray,
        5 => DataType::DoubleArray,
        6 => DataType::Boolean,
        _ => DataType::Void,
    }
}

impl RefDataType {
    /// The array type written as `value`; an error for a number that names no array type.
    pub fn try_from(value: i32) -> (res: Result<RefDataType, FFIError>)
        ensures
            res is Ok <==> is_ref_code(value as int),
            res matches Ok(t) ==> ref_data_type_from_code(value as int) == Some(t),
            res matches Err(e) ==> is_unsupported_with(
                e,
                message_with_number("Invalid RefDataType value: "@, value as int),
            ),
    {
        match value {
            3 => Ok(RefDataType::I32Array),
            4 => Ok(RefDataType::StringArray),
            5 => Ok(RefDataType::DoubleArray),
            10 => Ok(RefDataType::U8Array),
            13 => Ok(RefDataType::FloatArray),
            18 => Ok(RefDataType::StructArray),
            19 => Ok(RefDataType::I16Array),
            _ => Err(invalid_value_error("Invalid RefDataType value: ", value)),
        }
    }
}

impl BasicDataType {
    /// The scalar type written as `value`. An array number is refused with a pointer to
    /// the array constructor; any other number that names no scalar type is refused too.
    pub fn try_from(value: i32) -> (res: Result<BasicDataType, FFIError>)
        ensures
            res is Ok <==> is_basic_code(value as int),
            res matches Ok(t) ==> basic_data_type_from_code(value as int) == Some(t),
            res matches Err(e) ==> is_unsupported_with(
                e,
                if is_ref_code(value as int) {
                    "In the latest ffi-rs version, please use ffi-rs.arrayConstrutor to describe array type"@
                } else {
                    message_with_number("Invalid BasicDataType value: "@, value as int)
                },
            ),
    {
        if let Ok(_) = RefDataType::try_from(value) {
            return Err(
                FFIError::UnsupportedValueType(
                    String::from_str(
                        "In the latest ffi-rs version, please use ffi-rs.arrayConstrutor to describe array type",
                    ),
                ),
            );
        }
        match value {
            0 => Ok(BasicDataType::String),
            1 => Ok(BasicDataType::I32),
            2 => Ok(BasicDataType::Double),
            6 => Ok(BasicDataType::Boolean),
            7 => Ok(BasicDataType::Void),
            8 => Ok(BasicDataType::I64),
            9 => Ok(BasicDataType::U8),
            11 => Ok(BasicDataType::External),
            12 => Ok(BasicDataType::U64),
            14 => Ok(BasicDataType::Float),
            15 => Ok(BasicDataType::WString),
            16 => Ok(BasicDataType::BigInt),
            17 => Ok(BasicDataType::I16),
            20 => Ok(BasicDataType::U32),
            _ => Err(invalid_value_error("Invalid BasicDataType value: ", value)),
        }
    }
}


/// Key of the field that marks how a described object is laid out.
pub const FFI_TAG_FIELD: &'static str = "ffiTypeTag";
/// Key of the length in an array descriptor.
pub const ARRAY_LENGTH_TAG: &'static str = "length";
/// Key of the element type in an array descriptor.
pub const ARRAY_TYPE_TAG: &'static str = "type";
/// Key of the item description in an array-of-structs descriptor.
pub const ARRAY_STRUCT_ITEM_TYPE_TAG: &'static str = "structItemType";
/// Key under which an array descriptor carries its value.
pub const ARRAY_VALUE_TAG: &'static str = "value";
/// Key of the flag, in a function descriptor, that asks to free the function.
pub const FUNCTION_FREE_TAG: &'static str = "needFree";
/// Key of the parameter types in a function descriptor.
pub const PARAMS_TYPE: &'static str = "paramsType";
/// Key of the return type in a function descriptor.
pub const RET_TYPE: &'static str = "retType";
/// Key of the flag, in a function descriptor, that asks to free the memory of its parameters.
pub const FREE_FUNCTION_TAG: &'static str = "freeCFuncParamsMemory";

/// How an object description is to be laid out.
#[derive(Debug, Clone, Copy, PartialEq, Eq, Structural)]
pub enum FFITypeTag {
    Unknown,
    StackArray,
    Array,
    Function,
    StackStruct,
}

/// The number by which each tag is written.
pub open spec fn ffi_type_tag_code(tag: FFITypeTag) -> int {
    match tag {
        FFITypeTag::Unknown => 0,
        FFITypeTag::StackArray => 996,
        FFITypeTag::Array => 997,
        FFITypeTag::Function => 998,
        FFITypeTag::StackStruct => 999,
    }
}

/// The tag written as `v`: the four known numbers name their tag, any other number is unknown.
pub open spec fn ffi_type_tag_from_code(v: int) -> FFITypeTag {
    if v == 996 {
        FFITypeTag::StackArray
    } else if v == 997 {
        FFITypeTag::Array
    } else if v == 998 {
        FFITypeTag::Function
    } else if v == 999 {
        FFITypeTag::StackStruct
    } else {
        FFITypeTag::Unknown
    }
}

impl From<FFITypeTag> for i32 {
    fn from(tag: FFITypeTag) -> (res: i32) {
        match tag {
            FFITypeTag::Unknown => 0,
            FFITypeTag::StackArray => 996,
            FFITypeTag::Array => 997,
            FFITypeTag::Function => 998,
            FFITypeTag::StackStruct => 999,
        }
    }
}

impl vstd::std_specs::convert::FromSpecImpl<FFITypeTag> for i32 {
    open spec fn obeys_from_spec() -> bool {
        true
    }

    open spec fn from_spec(tag: FFITypeTag) -> i32 {
        ffi_type_tag_code(tag) as i32
    }
}

/// Whether a pointer was made by this library or handed over by foreign code.
#[derive(Debug, Clone, Copy, PartialEq, Eq, Structural)]
pub enum PointerType {
    RsPointer,
    CPointer,
}

/// A type description or a value. Type descriptions use `I32` (the number of a scalar
/// type), `Object` (a struct, array or function descriptor), `Boolean` and `String`.
/// Floating-point values are held by their IEEE bit patterns, a buffer by its bytes,
/// an external pointer by its address; a function by its descriptor.
#[derive(Debug)]
pub enum RsArgsValue {
    String(String),
    WString(String),
    U8(u8),
    I16(i16),
    I32(i32),
    I64(i64),
    BigInt(i64),
    U64(u64),
    U32(u32),
    Float(u32),
    Double(u64),
    U8Array(Vec<u8>),
    I16Array(Vec<i16>),
    I32Array(Vec<i32>),
    StringArray(Vec<String>),
    DoubleArray(Vec<u64>),
    FloatArray(Vec<u32>),
    StructArray(Vec<Vec<(String, RsArgsValue)>>),
    Object(Vec<(String, RsArgsValue)>),
    Boolean(bool),
    Void,
    Function(Vec<(String, RsArgsValue)>),
    External(usize),
}

/// The fields of an object, in order; no key occurs twice.
pub type FieldList = Vec<(String, RsArgsValue)>;

/// Whether `a` and `b` hold the same value: the same variant, with equal numbers, equal
/// texts, arrays with equal elements, and objects, functions and items of struct arrays
/// with the same fields (see `same_fields`).
pub open spec fn same_value(a: RsArgsValue, b: RsArgsValue) -> bool
    decreases a, 2int,
{
    match a {
        RsArgsValue::String(x) => b matches RsArgsValue::String(y) && x@ == y@,
        RsArgsValue::WString(x) => b matches RsArgsValue::WString(y) && x@ == y@,
        RsArgsValue::U8(x) => b == RsArgsValue::U8(x),
        RsArgsValue::I16(x) => b == RsArgsValue::I16(x),
        RsArgsValue::I32(x) => b == RsArgsValue::I32(x),
        RsArgsValue::I64(x) => b == RsArgsValue::I64(x),
        RsArgsValue::BigInt(x) => b == RsArgsValue::BigInt(x),
        RsArgsValue::U64(x) => b == RsArgsValue::U64(x),
        RsArgsValue::U32(x) => b == RsArgsValue::U32(x),
        RsArgsValue::Float(x) => b == RsArgsValue::Float(x),
        RsArgsValue::Double(x) => b == RsArgsValue::Double(x),
        RsArgsValue::U8Array(x) => b matches RsArgsValue::U8Array(y) && x@ == y@,
        RsArgsValue::I16Array(x) => b matches RsArgsValue::I16Array(y) && x@ == y@,
        RsArgsValue::I32Array(x) => b matches RsArgsValue::I32Array(y) && x@ == y@,
        RsArgsValue::StringArray(x) => b matches RsArgsValue::StringArray(y) && x@.len()
            == y@.len() && forall|i: int| 0 <= i < x@.len() ==> #[trigger] x@[i]@ == y@[i]@,
        RsArgsValue::DoubleArray(x) => b matches RsArgsValue::DoubleArray(y) && x@ == y@,
        RsArgsValue::FloatArray(x) => b matches RsArgsValue::FloatArray(y) && x@ == y@,
        RsArgsValue::StructArray(x) => b matches RsArgsValue::StructArray(y) && same_items(
            x@,
            y@,
        ),
        RsArgsValue::Object(x) => b matches RsArgsValue::Object(y) && same_fields(x@, y@),
        RsArgsValue::Boolean(x) => b == RsArgsValue::Boolean(x),
        RsArgsValue::Void => b == RsArgsValue::Void,
        RsArgsValue::Function(x) => b matches RsArgsValue::Function(y) && same_fields(x@, y@),
        RsArgsValue::External(x) => b == RsArgsValue::External(x),
    }
}

/// Whether two lists of fields have, position by position, equal keys and the same values.
pub open spec fn same_fields(a: Seq<(String, RsArgsValue)>, b: Seq<(String, RsArgsValue)>) -> bool
    decreases a, 0int,
{
    if a.len() == 0 {
        b.len() == 0
    } else {
        let last = a[a.len() - 1];
        proof {
            assert(decreases_to!(a => last));
            assert(decreases_to!(last => last.1));
        }
        &&& b.len() == a.len()
        &&& same_fields(a.drop_last(), b.drop_last())
        &&& last.0@ == b[b.len() - 1].0@
        &&& same_value(last.1, b[b.len() - 1].1)
    }
}

/// Whether two lists of struct items have, position by position, the same fields.
pub open spec fn same_items(a: Seq<FieldList>, b: Seq<FieldList>) -> bool
    decreases a, 1int,
{
    if a.len() == 0 {
        b.len() == 0
    } else {
        let last = a[a.len() - 1];
        proof {
            assert(decreases_to!(a => last));
        }
        &&& b.len() == a.len()
        &&& same_items(a.drop_last(), b.drop_last())
        &&& same_fields(last@, b[b.len() - 1]@)
    }
}

/// A copy of a list of fields, field by field.
fn clone_fields(m: &FieldList) -> (res: FieldList)
    ensures
        same_fields(m@, res@),
    decreases m, 0int,
{
    let mut res: FieldList = Vec::new();
    let mut i: usize = 0;
    while i < m.len()
        invariant
            0 <= i <= m.len(),
            res@.len() == i,
            same_fields(m@.subrange(0, i as int), res@),
        decreases m.len() - i,
    {
        let (key, value) = &m[i];
        proof {
            assert(decreases_to!(*m => m[i as int]));
            assert(decreases_to!(m[i as int] => m[i as int].1));
        }
        let copy = (key.clone(), value.clone());
        let ghost before = res@;
        res.push(copy);
        proof {
            let sub = m@.subrange(0, i as int + 1);
            assert(sub.drop_last() =~= m@.subrange(0, i as int));
            assert(res@.drop_last() =~= before);
        }
        i = i + 1;
    }
    proof {
        assert(m@.subrange(0, i as int) =~= m@);
    }
    res
}

/// A copy of a list of struct items, item by item.
fn clone_items(items: &Vec<FieldList>) -> (res: Vec<FieldList>)
    ensures
        same_items(items@, res@),
    decreases items, 0int,
{
    let mut res: Vec<FieldList> = Vec::new();
    let mut i: usize = 0;
    while i < items.len()
        invariant
            0 <= i <= items.len(),
            res@.len() == i,
            same_items(items@.subrange(0, i as int), res@),
        decreases items.len() - i,
    {
        proof {
            assert(decreases_to!(*items => items[i as int]));
        }
        let copy = clone_fields(&items[i]);
        let ghost before = res@;
        res.push(copy);
        proof {
            let sub = items@.subrange(0, i as int + 1);
            assert(sub.drop_last() =~= items@.subrange(0, i as int));
            assert(res@.drop_last() =~= before);
        }
        i = i + 1;
    }
    proof {
        assert(items@.subrange(0, i as int) =~= items@);
    }
    res
}

/// A copy of a list of texts.
fn clone_strings(v: &Vec<String>) -> (res: Vec<String>)
    ensures
        res@.len() == v@.len(),
        forall|i: int| 0 <= i < v@.len() ==> #[trigger] res@[i]@ == v@[i]@,
{
    let mut res: Vec<String> = Vec::new();
    let mut i: usize = 0;
    while i < v.len()
        invariant
            0 <= i <= v.len(),
            res@.len() == i,
            forall|j: int| 0 <= j < i ==> #[trigger] res@[j]@ == v@[j]@,
        decreases v.len() - i,
    {
        res.push(v[i].clone());
        i = i + 1;
    }
    res
}

/// A copy of a list of copyable numbers.
fn clone_numbers<T: Copy>(v: &Vec<T>) -> (res: Vec<T>)
    ensures
        res@ == v@,
{
    let mut res: Vec<T> = Vec::new();
    let mut i: usize = 0;
    while i < v.len()
        invariant
            0 <= i <= v.len(),
            res@ == v@.subrange(0, i as int),
        decreases v.len() - i,
    {
        res.push(v[i]);
        i = i + 1;
        proof {
            assert(res@ =~= v@.subrange(0, i as int));
        }
    }
    proof {
        assert(v@.subrange(0, i as int) =~= v@);
    }
    res
}

impl Clone for RsArgsValue {
    /// A copy of the value, with its texts, arrays and fields copied in turn.
    fn clone(&self) -> (res: Self)
        ensures
            same_value(*self, res),
        decreases self,
    {
        match self {
            RsArgsValue::String(s) => RsArgsValue::String(s.clone()),
            RsArgsValue::WString(s) => RsArgsValue::WString(s.clone()),
            RsArgsValue::U8(x) => RsArgsValue::U8(*x),
            RsArgsValue::I16(x) => RsArgsValue::I16(*x),
            RsArgsValue::I32(x) => RsArgsValue::I32(*x),
            RsArgsValue::I64(x) => RsArgsValue::I64(*x),
            RsArgsValue::BigInt(x) => RsArgsValue::BigInt(*x),
            RsArgsValue::U64(x) => RsArgsValue::U64(*x),
            RsArgsValue::U32(x) => RsArgsValue::U32(*x),
            RsArgsValue::Float(x) => RsArgsValue::Float(*x),
            RsArgsValue::Double(x) => RsArgsValue::Double(*x),
            RsArgsValue::U8Array(v) => RsArgsValue::U8Array(clone_numbers(v)),
            RsArgsValue::I16Array(v) => RsArgsValue::I16Array(clone_numbers(v)),
            RsArgsValue::I32Array(v) => RsArgsValue::I32Array(clone_numbers(v)),
            RsArgsValue::StringArray(v) => RsArgsValue::StringArray(clone_strings(v)),
            RsArgsValue::DoubleArray(v) => RsArgsValue::DoubleArray(clone_numbers(v)),
            RsArgsValue::FloatArray(v) => RsArgsValue::FloatArray(clone_numbers(v)),
            RsArgsValue::StructArray(items) => RsArgsValue::StructArray(clone_items(items)),
            RsArgsValue::Object(m) => RsArgsValue::Object(clone_fields(m)),
            RsArgsValue::Boolean(b) => RsArgsValue::Boolean(*b),
            RsArgsValue::Void => RsArgsValue::Void,
            RsArgsValue::Function(m) => RsArgsValue::Function(clone_fields(m)),
            RsArgsValue::External(p) => RsArgsValue::External(*p),
        }
    }
}

/// Whether two 32-bit IEEE words are equal as floats: the same word that is no NaN, or
/// two zeros of either sign.
pub open spec fn f32_bits_equal(a: u32, b: u32) -> bool {
    let a_nan = a & 0x7f80_0000u32 == 0x7f80_0000u32 && a & 0x007f_ffffu32 != 0;
    let b_nan = b & 0x7f80_0000u32 == 0x7f80_0000u32 && b & 0x007f_ffffu32 != 0;
    (!a_nan && !b_nan && a == b) || (a & 0x7fff_ffffu32 == 0 && b & 0x7fff_ffffu32 == 0)
}

/// Whether two 64-bit IEEE words are equal as floats: the same word that is no NaN, or
/// two zeros of either sign.
pub open spec fn f64_bits_equal(a: u64, b: u64) -> bool {
    let a_nan = a & 0x7ff0_0000_0000_0000u64 == 0x7ff0_0000_0000_0000u64 && a
        & 0x000f_ffff_ffff_ffffu64 != 0;
    let b_nan = b & 0x7ff0_0000_0000_0000u64 == 0x7ff0_0000_0000_0000u64 && b
        & 0x000f_ffff_ffff_ffffu64 != 0;
    (!a_nan && !b_nan && a == b) || (a & 0x7fff_ffff_ffff_ffffu64 == 0 && b
        & 0x7fff_ffff_ffff_ffffu64 == 0)
}

/// Whether two values are equal: texts, numbers and booleans of the same variant are
/// compared (floats as floats: a NaN equals nothing, the two zeros are equal), arrays
/// element by element, objects as maps (the same number of fields, each found under its
/// key in the other with an equal value), and two voids are equal. Bytes, functions,
/// external pointers, 16-bit integers and arrays of structs are never equal, nor are
/// values of different variants.
pub open spec fn equal_values(a: RsArgsValue, b: RsArgsValue) -> bool
    decreases a, 2int,
{
    match a {
        RsArgsValue::String(x) => b matches RsArgsValue::String(y) && x@ == y@,
        RsArgsValue::WString(x) => b matches RsArgsValue::WString(y) && x@ == y@,
        RsArgsValue::U8(x) => b == RsArgsValue::U8(x),
        RsArgsValue::I32(x) => b == RsArgsValue::I32(x),
        RsArgsValue::I64(x) => b == RsArgsValue::I64(x),
        RsArgsValue::U64(x) => b == RsArgsValue::U64(x),
        RsArgsValue::U32(x) => b == RsArgsValue::U32(x),
        RsArgsValue::BigInt(x) => b == RsArgsValue::BigInt(x),
        RsArgsValue::Float(x) => b matches RsArgsValue::Float(y) && f32_bits_equal(x, y),
        RsArgsValue::Double(x) => b matches RsArgsValue::Double(y) && f64_bits_equal(x, y),
        RsArgsValue::I16Array(x) => b matches RsArgsValue::I16Array(y) && x@ == y@,
        RsArgsValue::I32Array(x) => b matches RsArgsValue::I32Array(y) && x@ == y@,
        RsArgsValue::StringArray(x) => b matches RsArgsValue::StringArray(y) && x@.len()
            == y@.len() && forall|i: int| 0 <= i < x@.len() ==> #[trigger] x@[i]@ == y@[i]@,
        RsArgsValue::DoubleArray(x) => b matches RsArgsValue::DoubleArray(y) && x@.len()
            == y@.len() && forall|i: int|
            0 <= i < x@.len() ==> f64_bits_equal(#[trigger] x@[i], y@[i]),
        RsArgsValue::FloatArray(x) => b matches RsArgsValue::FloatArray(y) && x@.len()
            == y@.len() && forall|i: int|
            0 <= i < x@.len() ==> f32_bits_equal(#[trigger] x@[i], y@[i]),
        RsArgsValue::Object(x) => b matches RsArgsValue::Object(y) && x@.len() == y@.len()
            && fields_found_equal(x@, y@),
        RsArgsValue::Boolean(x) => b == RsArgsValue::Boolean(x),
        RsArgsValue::Void => b == RsArgsValue::Void,
        _ => false,
    }
}

/// Whether every field of `a` is found under its key in `b` with an equal value.
pub open spec fn fields_found_equal(
    a: Seq<(String, RsArgsValue)>,
    b: Seq<(String, RsArgsValue)>,
) -> bool
    decreases a, 0int,
{
    if a.len() == 0 {
        true
    } else {
        let last = a[a.len() - 1];
        proof {
            assert(decreases_to!(a => last));
            assert(decreases_to!(last => last.1));
        }
        &&& fields_found_equal(a.drop_last(), b)
        &&& match lookup(b, last.0@) {
            Some(w) => equal_values(last.1, w),
            None => false,
        }
    }
}

fn f32_bits_eq(a: u32, b: u32) -> (res: bool)
    ensures
        res == f32_bits_equal(a, b),
{
    let a_nan = a & 0x7f80_0000u32 == 0x7f80_0000u32 && a & 0x007f_ffffu32 != 0;
    let b_nan = b & 0x7f80_0000u32 == 0x7f80_0000u32 && b & 0x007f_ffffu32 != 0;
    (!a_nan && !b_nan && a == b) || (a & 0x7fff_ffffu32 == 0 && b & 0x7fff_ffffu32 == 0)
}

fn f64_bits_eq(a: u64, b: u64) -> (res: bool)
    ensures
        res == f64_bits_equal(a, b),
{
    let a_nan = a & 0x7ff0_0000_0000_0000u64 == 0x7ff0_0000_0000_0000u64 && a
        & 0x000f_ffff_ffff_ffffu64 != 0;
    let b_nan = b & 0x7ff0_0000_0000_0000u64 == 0x7ff0_0000_0000_0000u64 && b
        & 0x000f_ffff_ffff_ffffu64 != 0;
    (!a_nan && !b_nan && a == b) || (a & 0x7fff_ffff_ffff_ffffu64 == 0 && b
        & 0x7fff_ffff_ffff_ffffu64 == 0)
}

fn i16_arrays_equal(x: &Vec<i16>, y: &Vec<i16>) -> (res: bool)
    ensures
        res == (x@ == y@),
{
    if x.len() != y.len() {
        return false;
    }
    let mut i: usize = 0;
    while i < x.len()
        invariant
            x@.len() == y@.len(),
            0 <= i <= x@.len(),
            forall|j: int| 0 <= j < i ==> x@[j] == y@[j],
        decreases x@.len() - i,
    {
        if x[i] != y[i] {
            return false;
        }
        i = i + 1;
    }
    proof {
        assert(x@ =~= y@);
    }
    true
}

fn i32_arrays_equal(x: &Vec<i32>, y: &Vec<i32>) -> (res: bool)
    ensures
        res == (x@ == y@),
{
    if x.len() != y.len() {
        return false;
    }
    let mut i: usize = 0;
    while i < x.len()
        invariant
            x@.len() == y@.len(),
            0 <= i <= x@.len(),
            forall|j: int| 0 <= j < i ==> x@[j] == y@[j],
        decreases x@.len() - i,
    {
        if x[i] != y[i] {
            return false;
        }
        i = i + 1;
    }
    proof {
        assert(x@ =~= y@);
    }
    true
}

fn strings_equal(x: &Vec<String>, y: &Vec<String>) -> (res: bool)
    ensures
        res == (x@.len() == y@.len() && forall|i: int| 0 <= i < x@.len() ==> #[trigger] x@[i]@
            == y@[i]@),
{
    if x.len() != y.len() {
        return false;
    }
    let mut i: usize = 0;
    while i < x.len()
        invariant
            x@.len() == y@.len(),
            0 <= i <= x@.len(),
            forall|j: int| 0 <= j < i ==> #[trigger] x@[j]@ == y@[j]@,
        decreases x@.len() - i,
    {
        if x[i] != y[i] {
            return false;
        }
        i = i + 1;
    }
    true
}

fn f32_arrays_equal(x: &Vec<u32>, y: &Vec<u32>) -> (res: bool)
    ensures
        res == (x@.len() == y@.len() && forall|i: int|
            0 <= i < x@.len() ==> f32_bits_equal(#[trigger] x@[i], y@[i])),
{
    if x.len() != y.len() {
        return false;
    }
    let mut i: usize = 0;
    while i < x.len()
        invariant
            x@.len() == y@.len(),
            0 <= i <= x@.len(),
            forall|j: int| 0 <= j < i ==> f32_bits_equal(#[trigger] x@[j], y@[j]),
        decreases x@.len() - i,
    {
        if !f32_bits_eq(x[i], y[i]) {
            return false;
        }
        i = i + 1;
    }
    true
}

fn f64_arrays_equal(x: &Vec<u64>, y: &Vec<u64>) -> (res: bool)
    ensures
        res == (x@.len() == y@.len() && forall|i: int|
            0 <= i < x@.len() ==> f64_bits_equal(#[trigger] x@[i], y@[i])),
{
    if x.len() != y.len() {
        return false;
    }
    let mut i: usize = 0;
    while i < x.len()
        invariant
            x@.len() == y@.len(),
            0 <= i <= x@.len(),
            forall|j: int| 0 <= j < i ==> f64_bits_equal(#[trigger] x@[j], y@[j]),
        decreases x@.len() - i,
    {
        if !f64_bits_eq(x[i], y[i]) {
            return false;
        }
        i = i + 1;
    }
    true
}

/// Where every field of `a` is found in `b` with an equal value, so is every field of a
/// prefix of `a`.
proof fn lemma_fields_found_prefix(a: Seq<(String, RsArgsValue)>, b: Seq<(String, RsArgsValue)>, k: int)
    requires
        fields_found_equal(a, b),
        0 <= k <= a.len(),
    ensures
        fields_found_equal(a.subrange(0, k), b),
    decreases a.len(),
{
    if k < a.len() {
        lemma_fields_found_prefix(a.drop_last(), b, k);
        assert(a.drop_last().subrange(0, k) =~= a.subrange(0, k));
    } else {
        assert(a.subrange(0, k) =~= a);
    }
}

/// Whether every field of `a` is found under its key in `b` with an equal value.
fn fields_equal(a: &FieldList, b: &FieldList) -> (res: bool)
    ensures
        res == fields_found_equal(a@, b@),
    decreases a, 0int,
{
    let mut i: usize = 0;
    proof {
        assert(a@.subrange(0, 0) =~= Seq::<(String, RsArgsValue)>::empty());
    }
    while i < a.len()
        invariant
            0 <= i <= a@.len(),
            fields_found_equal(a@.subrange(0, i as int), b@),
        decreases a@.len() - i,
    {
        let ghost sub = a@.subrange(0, i as int + 1);
        proof {
            assert(sub.drop_last() =~= a@.subrange(0, i as int));
            assert(sub[sub.len() - 1] == a@[i as int]);
            assert(decreases_to!(*a => a[i as int]));
            assert(decreases_to!(a[i as int] => a[i as int].1));
        }
        let found = match map_get(b, a[i].0.as_str()) {
            Some(w) => values_equal(&a[i].1, w),
            None => false,
        };
        if !found {
            proof {
                if fields_found_equal(a@, b@) {
                    lemma_fields_found_prefix(a@, b@, i as int + 1);
                }
            }
            return false;
        }
        i = i + 1;
    }
    proof {
        assert(a@.subrange(0, i as int) =~= a@);
    }
    true
}

/// Whether two values are equal (see `equal_values`).
pub fn values_equal(a: &RsArgsValue, b: &RsArgsValue) -> (res: bool)
    ensures
        res == equal_values(*a, *b),
    decreases a, 1int,
{
    match (a, b) {
        (RsArgsValue::String(x), RsArgsValue::String(y)) => *x == *y,
        (RsArgsValue::WString(x), RsArgsValue::WString(y)) => *x == *y,
        (RsArgsValue::U8(x), RsArgsValue::U8(y)) => *x == *y,
        (RsArgsValue::I32(x), RsArgsValue::I32(y)) => *x == *y,
        (RsArgsValue::I64(x), RsArgsValue::I64(y)) => *x == *y,
        (RsArgsValue::U64(x), RsArgsValue::U64(y)) => *x == *y,
        (RsArgsValue::U32(x), RsArgsValue::U32(y)) => *x == *y,
        (RsArgsValue::BigInt(x), RsArgsValue::BigInt(y)) => *x == *y,
        (RsArgsValue::Float(x), RsArgsValue::Float(y)) => f32_bits_eq(*x, *y),
        (RsArgsValue::Double(x), RsArgsValue::Double(y)) => f64_bits_eq(*x, *y),
        (RsArgsValue::I16Array(x), RsArgsValue::I16Array(y)) => i16_arrays_equal(x, y),
        (RsArgsValue::I32Array(x), RsArgsValue::I32Array(y)) => i32_arrays_equal(x, y),
        (RsArgsValue::StringArray(x), RsArgsValue::StringArray(y)) => strings_equal(x, y),
        (RsArgsValue::DoubleArray(x), RsArgsValue::DoubleArray(y)) => f64_arrays_equal(x, y),
        (RsArgsValue::FloatArray(x), RsArgsValue::FloatArray(y)) => f32_arrays_equal(x, y),
        (RsArgsValue::Object(x), RsArgsValue::Object(y)) => {
            if x.len() != y.len() {
                false
            } else {
                fields_equal(x, y)
            }
        },
        (RsArgsValue::Boolean(x), RsArgsValue::Boolean(y)) => *x == *y,
        (RsArgsValue::Void, RsArgsValue::Void) => true,
        _ => false,
    }
}

/// Whether no key occurs twice among `m`'s fields.
pub open spec fn keys_distinct(m: Seq<(String, RsArgsValue)>) -> bool {
    forall|i: int, j: int| 0 <= i < j < m.len() ==> m[i].0@ != m[j].0@
}

/// Whether `i` is the position of the first field of `m` named `key`.
pub open spec fn is_first_key_index(m: Seq<(String, RsArgsValue)>, key: Seq<char>, i: int) -> bool {
    &&& 0 <= i < m.len()
    &&& m[i].0@ == key
    &&& forall|j: int| 0 <= j < i ==> m[j].0@ != key
}

/// The position of the first field named `key`, or -1 where there is none.
pub open spec fn key_index(m: Seq<(String, RsArgsValue)>, key: Seq<char>) -> int {
    if exists|i: int| is_first_key_index(m, key, i) {
        choose|i: int| is_first_key_index(m, key, i)
    } else {
        -1
    }
}

/// The value of the field named `key`, if there is one.
pub open spec fn lookup(m: Seq<(String, RsArgsValue)>, key: Seq<char>) -> Option<RsArgsValue> {
    let i = key_index(m, key);
    if i >= 0 {
        Some(m[i].1)
    } else {
        None
    }
}

/// There is at most one first position of a key.
pub proof fn lemma_first_key_index_unique(m: Seq<(String, RsArgsValue)>, key: Seq<char>, i: int, j: int)
    requires
        is_first_key_index(m, key, i),
        is_first_key_index(m, key, j),
    ensures
        i == j,
{
}

/// `key_index` is the first position of `key`, or -1 where no field has that key.
pub proof fn lemma_key_index(m: Seq<(String, RsArgsValue)>, key: Seq<char>)
    ensures
        key_index(m, key) == -1 <==> (forall|j: int| 0 <= j < m.len() ==> m[j].0@ != key),
        key_index(m, key) != -1 ==> is_first_key_index(m, key, key_index(m, key)),
{
    if exists|i: int| is_first_key_index(m, key, i) {
    } else {
        assert forall|j: int| 0 <= j < m.len() implies m[j].0@ != key by {
            if m[j].0@ == key {
                // the least position with that key is a first position
                lemma_least_key_position(m, key, j);
            }
        }
    }
}

/// Where some position up to `j` holds `key`, a first position of `key` exists.
proof fn lemma_least_key_position(m: Seq<(String, RsArgsValue)>, key: Seq<char>, j: int)
    requires
        0 <= j < m.len(),
        m[j].0@ == key,
    ensures
        exists|i: int| is_first_key_index(m, key, i),
    decreases j,
{
    if forall|k: int| 0 <= k < j ==> m[k].0@ != key {
        assert(is_first_key_index(m, key, j));
    } else {
        let k = choose|k: int| 0 <= k < j && m[k].0@ == key;
        lemma_least_key_position(m, key, k);
    }
}

/// Whether the key `key` equals the text `name`.
pub fn key_is(key: &String, name: &str) -> (res: bool)
    ensures
        res == (key@ == name@),
{
    *key == String::from_str(name)
}

/// The value of the field named `key`, if there is one.
pub fn map_get<'a>(m: &'a FieldList, key: &str) -> (res: Option<&'a RsArgsValue>)
    ensures
        match res {
            Some(v) => lookup(m@, key@) == Some(*v),
            None => lookup(m@, key@) is None,
        },
{
    let mut i: usize = 0;
    while i < m.len()
        invariant
            0 <= i <= m.len(),
            forall|j: int| 0 <= j < i ==> m@[j].0@ != key@,
        decreases m.len() - i,
    {
        if key_is(&m[i].0, key) {
            proof {
                assert(is_first_key_index(m@, key@, i as int));
                lemma_key_index(m@, key@);
                lemma_first_key_index_unique(m@, key@, i as int, key_index(m@, key@));
            }
            return Some(&m[i].1);
        }
        i = i + 1;
    }
    proof {
        lemma_key_index(m@, key@);
    }
    None
}

/// The fields of `m` after setting the field `key` to `value`: where `m` has a field of
/// that key, its (first) such field takes the value in place; otherwise the field is added
/// at the end.
pub open spec fn with_field(
    m: Seq<(String, RsArgsValue)>,
    key: String,
    value: RsArgsValue,
) -> Seq<(String, RsArgsValue)> {
    let i = key_index(m, key@);
    if i != -1 {
        m.update(i, (m[i].0, value))
    } else {
        m.push((key, value))
    }
}

/// Sets the field `key` of `m` to `value` (see `with_field`).
pub fn insert_field(m: &mut FieldList, key: String, value: RsArgsValue)
    ensures
        final(m)@ == with_field(old(m)@, key, value),
{
    proof {
        lemma_key_index(m@, key@);
    }
    let mut i: usize = 0;
    while i < m.len()
        invariant
            m@ == old(m)@,
            0 <= i <= m@.len(),
            forall|j: int| 0 <= j < i ==> m@[j].0@ != key@,
        decreases m@.len() - i,
    {
        if key_is(&m[i].0, key.as_str()) {
            proof {
                lemma_key_index(m@, key@);
                assert(is_first_key_index(m@, key@, i as int));
                lemma_first_key_index_unique(m@, key@, i as int, key_index(m@, key@));
            }
            let old_key = m[i].0.clone();
            m.set(i, (old_key, value));
            return;
        }
        i = i + 1;
    }
    m.push((key, value));
}

/// Removing the field at position `i` leaves what every other key reads unchanged.
pub proof fn lemma_lookup_after_remove(m: Seq<(String, RsArgsValue)>, i: int, other: Seq<char>)
    requires
        0 <= i < m.len(),
        m[i].0@ != other,
    ensures
        lookup(m.remove(i), other) == lookup(m, other),
{
    let n = m.remove(i);
    lemma_key_index(m, other);
    lemma_key_index(n, other);
    let k = key_index(m, other);
    if k != -1 {
        let k2 = if k < i { k } else { k - 1 };
        assert forall|j: int| 0 <= j < k2 implies n[j].0@ != other by {
            if j < i {
                assert(n[j] == m[j]);
            } else {
                assert(n[j] == m[j + 1]);
            }
        }
        assert(is_first_key_index(n, other, k2));
        lemma_first_key_index_unique(n, other, k2, key_index(n, other));
    } else {
        assert forall|j: int| 0 <= j < n.len() implies n[j].0@ != other by {
            if j < i {
                assert(n[j] == m[j]);
            } else {
                assert(n[j] == m[j + 1]);
            }
        }
    }
}

/// Law: after setting a field, reading that key gives the value set, reading any other key
/// gives what it gave before, and keys stay distinct.
pub proof fn lemma_with_field(
    m: Seq<(String, RsArgsValue)>,
    key: String,
    value: RsArgsValue,
    other: Seq<char>,
)
    requires
        other != key@,
    ensures
        lookup(with_field(m, key, value), key@) == Some(value),
        lookup(with_field(m, key, value), other) == lookup(m, other),
        keys_distinct(m) ==> keys_distinct(with_field(m, key, value)),
{
    let n = with_field(m, key, value);
    lemma_key_index(m, key@);
    lemma_key_index(m, other);
    lemma_key_index(n, key@);
    lemma_key_index(n, other);
    let i = key_index(m, key@);
    assert forall|j: int| 0 <= j < n.len() implies #[trigger] n[j].0@ == (if j < m.len() {
        m[j].0@
    } else {
        key@
    }) by {}
    if i != -1 {
        assert(is_first_key_index(n, key@, i));
        lemma_first_key_index_unique(n, key@, i, key_index(n, key@));
    } else {
        assert(is_first_key_index(n, key@, m.len() as int));
        lemma_first_key_index_unique(n, key@, m.len() as int, key_index(n, key@));
    }
    let k = key_index(m, other);
    if k != -1 {
        assert(is_first_key_index(n, other, k));
        lemma_first_key_index_unique(n, other, k, key_index(n, other));
        assert(n[k].1 == m[k].1);
    } else {
        assert(key_index(n, other) == -1);
    }
}

/// Whether `v` is an array value standing alone, outside an array descriptor.
pub open spec fn is_bare_array(v: RsArgsValue) -> bool {
    ||| v is U8Array
    ||| v is I16Array
    ||| v is I32Array
    ||| v is StringArray
    ||| v is DoubleArray
    ||| v is FloatArray
    ||| v is StructArray
}

/// The message of the error for an array value given outside an array descriptor.
pub open spec fn array_constructor_message() -> Seq<char> {
    "In the latest ffi-rs version, please use ffi-rs.arrayConstrutor to describe array type"@
}

/// Checks that a struct field's value can be written: an array value must come inside its
/// array descriptor.
pub fn check_struct_field_value(v: &RsArgsValue) -> (res: Result<(), FFIError>)
    ensures
        res is Ok <==> !is_bare_array(*v),
        res matches Err(e) ==> e matches FFIError::Panic(m) && m@ == array_constructor_message(),
{
    match v {
        RsArgsValue::U8Array(_)
        | RsArgsValue::I16Array(_)
        | RsArgsValue::I32Array(_)
        | RsArgsValue::StringArray(_)
        | RsArgsValue::DoubleArray(_)
        | RsArgsValue::FloatArray(_)
        | RsArgsValue::StructArray(_) => Err(
            FFIError::Panic(
                String::from_str(
                    "In the latest ffi-rs version, please use ffi-rs.arrayConstrutor to describe array type",
                ),
            ),
        ),
        _ => Ok(()),
    }
}

/// The tag of an object description: the number under `ffiTypeTag` read as a tag,
/// or `Unknown` where that field is missing or is no number.
pub open spec fn ffi_tag(m: Seq<(String, RsArgsValue)>) -> FFITypeTag {
    match lookup(m, FFI_TAG_FIELD@) {
        Some(RsArgsValue::I32(code)) => ffi_type_tag_from_code(code as int),
        _ => FFITypeTag::Unknown,
    }
}

/// A description of an array: its element type, its length, and, for an array of
/// structs, the description of the struct.
pub struct FFIARRARYDESC<'a> {
    pub array_type: RefDataType,
    pub array_len: usize,
    pub struct_item_type: Option<&'a FieldList>,
}

/// What a function descriptor asks: whether the function is to be freed.
pub struct FFIFUNCDESC {
    pub need_free: bool,
}


/// The data type of the same name as a scalar type.
pub open spec fn basic_as_data_type(t: BasicDataType) -> DataType {
    match t {
        BasicDataType::String => DataType::String,
        BasicDataType::I32 => DataType::I32,
        BasicDataType::Double => DataType::Double,
        BasicDataType::Boolean => DataType::Boolean,
        BasicDataType::Void => DataType::Void,
        BasicDataType::I64 => DataType::I64,
        BasicDataType::U8 => DataType::U8,
        BasicDataType::External => DataType::External,
        BasicDataType::U64 => DataType::U64,
        BasicDataType::Float => DataType::Float,
        BasicDataType::WString => DataType::WString,
        BasicDataType::BigInt => DataType::BigInt,
        BasicDataType::I16 => DataType::I16,
        BasicDataType::U32 => DataType::U32,
    }
}

/// The data type of the same name as an array type.
pub open spec fn ref_as_data_type(t: RefDataType) -> DataType {
    match t {
        RefDataType::I32Array => DataType::I32Array,
        RefDataType::StringArray => DataType::StringArray,
        RefDataType::DoubleArray => DataType::DoubleArray,
        RefDataType::U8Array => DataType::U8Array,
        RefDataType::FloatArray => DataType::FloatArray,
        RefDataType::StructArray => DataType::StructArray,
        RefDataType::I16Array => DataType::I16Array,
    }
}

/// Law: each data type is read back from its number, and a number read as a data type
/// is that type's number.
pub proof fn lemma_data_type_code_roundtrip(t: DataType, v: int)
    ensures
        data_type_from_code(data_type_code(t)) == Some(t),
        data_type_from_code(v) == Some(t) ==> data_type_code(t) == v,
{
}

/// Law: the same holds of scalar types and of array types.
pub proof fn lemma_basic_and_ref_code_roundtrip(b: BasicDataType, r: RefDataType, v: int)
    ensures
        basic_data_type_from_code(basic_data_type_code(b)) == Some(b),
        basic_data_type_from_code(v) == Some(b) ==> basic_data_type_code(b) == v,
        ref_data_type_from_code(ref_data_type_code(r)) == Some(r),
        ref_data_type_from_code(v) == Some(r) ==> ref_data_type_code(r) == v,
{
}

/// Law: the numbers of the data types are split between the scalar types and the array
/// types, each number naming the data type of the same name; no number is both.
pub proof fn lemma_codes_partition(v: int)
    ensures
        data_type_from_code(v) is Some <==> (is_basic_code(v) || is_ref_code(v)),
        !(is_basic_code(v) && is_ref_code(v)),
        basic_data_type_from_code(v) matches Some(b) ==> data_type_from_code(v) == Some(
            basic_as_data_type(b),
        ),
        ref_data_type_from_code(v) matches Some(r) ==> data_type_from_code(v) == Some(
            ref_as_data_type(r),
        ),
{
}

/// Law: each tag is read back from its number.
pub proof fn lemma_ffi_type_tag_roundtrip(tag: FFITypeTag)
    ensures
        ffi_type_tag_from_code(ffi_type_tag_code(tag)) == tag,
{
}

} // verus!
