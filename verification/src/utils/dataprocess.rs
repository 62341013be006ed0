use crate::define::{
    is_ref_code, lookup, map_get, ffi_tag, ref_data_type_from_code, FFIARRARYDESC, FFIFUNCDESC,
    FFITypeTag, FieldList, RefDataType, RsArgsValue, ARRAY_LENGTH_TAG, ARRAY_STRUCT_ITEM_TYPE_TAG,
    ARRAY_TYPE_TAG, ARRAY_VALUE_TAG, FFIError, FFI_TAG_FIELD, FUNCTION_FREE_TAG, key_index,
    lemma_key_index, key_is, lemma_lookup_after_remove,
};
use vstd::prelude::*;

verus! {

/// The tag of an object description (see `ffi_tag`).
pub fn get_ffi_tag(obj: &FieldList) -> (res: FFITypeTag)
    ensures
        res == ffi_tag(obj@),
{
    match map_get(obj, FFI_TAG_FIELD) {
        None => FFITypeTag::Unknown,
        Some(RsArgsValue::I32(code)) => {
            if *code == 997 {
                FFITypeTag::Array
            } else if *code == 999 {
                FFITypeTag::StackStruct
            } else if *code == 996 {
                FFITypeTag::StackArray
            } else if *code == 998 {
                FFITypeTag::Function
            } else {
                FFITypeTag::Unknown
            }
        },
        Some(_) => FFITypeTag::Unknown,
    }
}

/// Whether a function descriptor asks for the function to be freed: its `needFree`
/// field where that is a boolean, `false` where it is anything else.
pub open spec fn func_need_free(obj: Seq<(String, RsArgsValue)>) -> bool {
    match lookup(obj, FUNCTION_FREE_TAG@) {
        Some(RsArgsValue::Boolean(b)) => b,
        _ => false,
    }
}

/// What a function descriptor asks (whether to free the function).
pub fn get_func_desc(obj: &FieldList) -> (res: FFIFUNCDESC)
    requires
        lookup(obj@, FUNCTION_FREE_TAG@) is Some,
    ensures
        res.need_free == func_need_free(obj@),
{
    let need_free = match map_get(obj, FUNCTION_FREE_TAG) {
        Some(RsArgsValue::Boolean(val)) => *val,
        _ => false,
    };
    FFIFUNCDESC { need_free }
}

/// The length that an array descriptor states: its `length` field read as a `usize`
/// where that is a number, 0 where it is anything else.
pub open spec fn array_len_of(obj: Seq<(String, RsArgsValue)>) -> usize {
    match lookup(obj, ARRAY_LENGTH_TAG@) {
        Some(RsArgsValue::I32(n)) => n as usize,
        _ => 0,
    }
}

/// The element-type number that an array descriptor states: its `type` field where that
/// is a number, 0 where it is anything else.
pub open spec fn array_type_code_of(obj: Seq<(String, RsArgsValue)>) -> int {
    match lookup(obj, ARRAY_TYPE_TAG@) {
        Some(RsArgsValue::I32(n)) => n as int,
        _ => 0,
    }
}

/// The struct description of an array-of-structs descriptor: its `structItemType`
/// field where that is an object.
pub open spec fn struct_item_type_of(obj: Seq<(String, RsArgsValue)>) -> Option<FieldList> {
    match lookup(obj, ARRAY_STRUCT_ITEM_TYPE_TAG@) {
        Some(RsArgsValue::Object(item)) => Some(item),
        _ => None,
    }
}

/// Whether an array descriptor can be read: it has a `length` field and a `type`
/// field, and the element-type number names an array type.
pub open spec fn array_desc_readable(obj: Seq<(String, RsArgsValue)>) -> bool {
    &&& lookup(obj, ARRAY_LENGTH_TAG@) is Some
    &&& lookup(obj, ARRAY_TYPE_TAG@) is Some
    &&& is_ref_code(array_type_code_of(obj))
}

/// The element type of a readable array descriptor.
pub open spec fn array_type_of(obj: Seq<(String, RsArgsValue)>) -> RefDataType {
    ref_data_type_from_code(array_type_code_of(obj))->0
}

/// Reads an array descriptor: element type, length and struct description.
pub fn get_array_desc<'a>(obj: &'a FieldList) -> (res: FFIARRARYDESC<'a>)
    requires
        array_desc_readable(obj@),
    ensures
        res.array_type == array_type_of(obj@),
        res.array_len == array_len_of(obj@),
        match res.struct_item_type {
            Some(item) => struct_item_type_of(obj@) == Some(*item),
            None => struct_item_type_of(obj@) is None,
        },
{
    let mut array_len: usize = 0;
    let mut array_type: i32 = 0;
    let mut struct_item_type: Option<&'a FieldList> = None;
    if let Some(RsArgsValue::I32(number)) = map_get(obj, ARRAY_LENGTH_TAG) {
        array_len = *number as usize;
    }
    if let Some(RsArgsValue::I32(number)) = map_get(obj, ARRAY_TYPE_TAG) {
        array_type = *number;
    }
    if let Some(RsArgsValue::Object(item_type)) = map_get(obj, ARRAY_STRUCT_ITEM_TYPE_TAG) {
        struct_item_type = Some(item_type);
    }
    let array_type = match RefDataType::try_from(array_type) {
        Ok(t) => t,
        Err(_) => {
            proof {
                assert(false);
            }
            RefDataType::I32Array
        },
    };
    FFIARRARYDESC { array_type, array_len, struct_item_type }
}


/// Takes the value out of an array descriptor: removes its `value` field, keeping the
/// order of the others, and returns that field's value (`None`, the descriptor unchanged,
/// where there is none).
pub fn get_array_value(obj: &mut FieldList) -> (res: Option<RsArgsValue>)
    ensures
        key_index(old(obj)@, ARRAY_VALUE_TAG@) == -1 ==> res is None && final(obj)@ == old(obj)@,
        key_index(old(obj)@, ARRAY_VALUE_TAG@) != -1 ==> res == Some(
            old(obj)@[key_index(old(obj)@, ARRAY_VALUE_TAG@)].1,
        ) && final(obj)@ == old(obj)@.remove(key_index(old(obj)@, ARRAY_VALUE_TAG@)),
{
    proof {
        lemma_key_index(obj@, ARRAY_VALUE_TAG@);
    }
    let mut i: usize = 0;
    while i < obj.len()
        invariant
            obj@ == old(obj)@,
            0 <= i <= obj@.len(),
            forall|j: int| 0 <= j < i ==> obj@[j].0@ != ARRAY_VALUE_TAG@,
        decreases obj@.len() - i,
    {
        if key_is(&obj[i].0, ARRAY_VALUE_TAG) {
            proof {
                crate::define::lemma_first_key_index_unique(
                    obj@,
                    ARRAY_VALUE_TAG@,
                    i as int,
                    key_index(obj@, ARRAY_VALUE_TAG@),
                );
            }
            let (_, value) = obj.remove(i);
            return Some(value);
        }
        i = i + 1;
    }
    None
}

/// Law: taking the value out of an array descriptor leaves what the descriptor states
/// unchanged: its tag, whether it can be read, its element type, its length and its item
/// description.
pub proof fn lemma_array_value_out_keeps_desc(obj: Seq<(String, RsArgsValue)>)
    requires
        key_index(obj, ARRAY_VALUE_TAG@) != -1,
    ensures
        ({
            let rest = obj.remove(key_index(obj, ARRAY_VALUE_TAG@));
            &&& ffi_tag(rest) == ffi_tag(obj)
            &&& array_desc_readable(rest) == array_desc_readable(obj)
            &&& array_type_code_of(rest) == array_type_code_of(obj)
            &&& array_len_of(rest) == array_len_of(obj)
            &&& struct_item_type_of(rest) == struct_item_type_of(obj)
        }),
{
    let i = key_index(obj, ARRAY_VALUE_TAG@);
    lemma_key_index(obj, ARRAY_VALUE_TAG@);
    reveal_strlit("value");
    reveal_strlit("ffiTypeTag");
    reveal_strlit("length");
    reveal_strlit("type");
    reveal_strlit("structItemType");
    assert(ARRAY_VALUE_TAG@.len() == 5);
    assert(FFI_TAG_FIELD@.len() == 10);
    assert(ARRAY_LENGTH_TAG@.len() == 6);
    assert(ARRAY_TYPE_TAG@.len() == 4);
    assert(ARRAY_STRUCT_ITEM_TYPE_TAG@.len() == 14);
    lemma_lookup_after_remove(obj, i, FFI_TAG_FIELD@);
    lemma_lookup_after_remove(obj, i, ARRAY_LENGTH_TAG@);
    lemma_lookup_after_remove(obj, i, ARRAY_TYPE_TAG@);
    lemma_lookup_after_remove(obj, i, ARRAY_STRUCT_ITEM_TYPE_TAG@);
}

/// The message of the error for a call whose parameter types and values differ in number.
pub open spec fn params_len_mismatch_message() -> Seq<char> {
    "params_type length is not equal with params_value length"@
}

/// Checks that a call has as many values as parameter types.
pub fn check_params_len(params_type_len: usize, params_value_len: usize) -> (res: Result<(), FFIError>)
    ensures
        res is Ok <==> params_type_len == params_value_len,
        res matches Err(e) ==> e matches FFIError::Panic(m) && m@ == params_len_mismatch_message(),
{
    if params_type_len != params_value_len {
        return Err(
            FFIError::Panic(
                String::from_str("params_type length is not equal with params_value length"),
            ),
        );
    }
    Ok(())
}

} // verus!
