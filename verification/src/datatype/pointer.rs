use crate::define::{
    basic_data_type_from_code, ffi_tag, is_basic_code, key_is, lookup, BasicDataType, FFITypeTag,
    FieldList, PointerType, RefDataType, RsArgsValue, FFI_TAG_FIELD, FUNCTION_FREE_TAG,
};
use crate::utils::dataprocess::{
    array_desc_readable, array_len_of, array_type_of, func_need_free, get_array_desc,
    get_ffi_tag, get_func_desc, struct_item_type_of,
};
use crate::utils::object_utils::{
    calculate_struct_size, check_array_desc, checked_struct_size, field_offset, field_offsets,
    fields_layout, is_tag_field, lemma_field_within_struct, lemma_fields_layout_mono,
    lemma_fields_layout_nonneg, lemma_field_layout_valid, lemma_valid_fields_elem,
    lemma_round_up_ge, struct_layout, valid_fields,
};
use vstd::prelude::*;

verus! {

/// What freeing a struct's memory does with one of its fields.
#[derive(Debug, Clone, Copy, PartialEq, Eq, Structural)]
pub enum FreeKind {
    /// Nothing to free.
    Nothing,
    /// The field holds a pointer to a C string.
    CString,
    /// The field holds a pointer to a wide C string.
    WideString,
    /// The field holds a pointer to `len` scalars of the given array type.
    Array { elem: RefDataType, len: usize },
    /// The field holds a pointer to `len` pointers to C strings.
    StringArray { len: usize },
    /// The field holds a pointer to `len` structs of `item_size` bytes, each freed in turn
    /// by the plan of the item description.
    StructArray { len: usize, item_size: usize },
    /// The field describes a function that is to be freed: what the struct's first word
    /// points to (for foreign memory), or the closure registered at the struct's address.
    Base,
    /// The field is a struct stored inline, freed by its own plan.
    InlineStruct,
    /// The field holds a pointer to a struct, freed by that struct's plan.
    PointedStruct,
}

/// One field of a freeing plan: the field's offset (bytes from the struct's start) and
/// what is freed there.
#[derive(Debug, Clone, Copy, PartialEq, Eq, Structural)]
pub struct FreeStep {
    pub position: usize,
    pub kind: FreeKind,
}

/// What freeing does with a field of type `t`, for memory of the given origin: strings,
/// wide strings and arrays behind pointers are freed (byte arrays only where foreign code
/// allocated them); a function is freed where its descriptor asks; structs are freed by
/// their own plans.
pub open spec fn free_field_kind(t: RsArgsValue, ptr_type: PointerType) -> FreeKind {
    match t {
        RsArgsValue::I32(code) => match basic_data_type_from_code(code as int) {
            Some(BasicDataType::String) => FreeKind::CString,
            Some(BasicDataType::WString) => FreeKind::WideString,
            _ => FreeKind::Nothing,
        },
        RsArgsValue::Object(obj) => {
            let tag = ffi_tag(obj@);
            if tag == FFITypeTag::Array {
                let len = array_len_of(obj@);
                match array_type_of(obj@) {
                    RefDataType::StringArray => FreeKind::StringArray { len },
                    RefDataType::StructArray => FreeKind::StructArray {
                        len,
                        item_size: struct_layout(struct_item_type_of(obj@)->0@).0 as usize,
                    },
                    RefDataType::U8Array => if ptr_type == PointerType::CPointer {
                        FreeKind::Array { elem: RefDataType::U8Array, len }
                    } else {
                        FreeKind::Nothing
                    },
                    elem => FreeKind::Array { elem, len },
                }
            } else if tag == FFITypeTag::StackArray {
                FreeKind::Nothing
            } else if tag == FFITypeTag::Function {
                if func_need_free(obj@) {
                    FreeKind::Base
                } else {
                    FreeKind::Nothing
                }
            } else if tag == FFITypeTag::StackStruct {
                FreeKind::InlineStruct
            } else {
                FreeKind::PointedStruct
            }
        },
        _ => FreeKind::Nothing,
    }
}

/// The step of the freeing plan at field `i`: the field's offset in the struct (see
/// `field_offset`), where it was written, and what is freed there (nothing at the tag).
pub open spec fn free_step_at(fields: Seq<(String, RsArgsValue)>, ptr_type: PointerType, i: int) -> FreeStep {
    FreeStep {
        position: field_offset(fields, i) as usize,
        kind: if is_tag_field(fields[i]) {
            FreeKind::Nothing
        } else {
            free_field_kind(fields[i].1, ptr_type)
        },
    }
}

/// Whether a struct description can be laid out: valid, with a size that fits a `usize`.
pub open spec fn free_struct_ok(fields: Seq<(String, RsArgsValue)>) -> bool {
    valid_fields(fields) && struct_layout(fields).0 <= usize::MAX
}

/// Whether freeing can read what a field holds: a heap array descriptor can be read and,
/// for an array of structs, names a struct description that can be laid out; a function
/// descriptor says whether to free it. Everything else needs nothing more than the
/// struct's layout.
pub open spec fn free_field_ok(t: RsArgsValue) -> bool {
    match t {
        RsArgsValue::Object(obj) => {
            let tag = ffi_tag(obj@);
            if tag == FFITypeTag::Array {
                &&& array_desc_readable(obj@)
                &&& array_type_of(obj@) == RefDataType::StructArray ==> {
                    &&& struct_item_type_of(obj@) is Some
                    &&& free_struct_ok(struct_item_type_of(obj@)->0@)
                }
            } else if tag == FFITypeTag::Function {
                lookup(obj@, FUNCTION_FREE_TAG@) is Some
            } else {
                true
            }
        },
        _ => true,
    }
}

/// Whether freeing can read every field of a description other than the tag.
pub open spec fn free_fields_ok(fields: Seq<(String, RsArgsValue)>) -> bool {
    forall|i: int| 0 <= i < fields.len() && !is_tag_field(#[trigger] fields[i]) ==> free_field_ok(fields[i].1)
}

/// Law: each field of a struct is freed at the offset where the struct layout puts it,
/// that is where the struct was written.
pub proof fn lemma_free_positions_match_layout(
    fields: Seq<(String, RsArgsValue)>,
    ptr_type: PointerType,
    i: int,
)
    requires
        valid_fields(fields),
        struct_layout(fields).0 <= usize::MAX,
        0 <= i < fields.len(),
    ensures
        free_step_at(fields, ptr_type, i).position as int == field_offset(fields, i),
{
    lemma_fields_layout_mono(fields, i);
    lemma_fields_layout_nonneg(fields);
    lemma_round_up_ge(fields_layout(fields).0, fields_layout(fields).1);
    let acc = fields_layout(fields.subrange(0, i));
    assert(struct_layout(fields).0 >= fields_layout(fields).0);
    if is_tag_field(fields[i]) {
        assert(field_offset(fields, i) == acc.0);
        assert(0 <= acc.0 <= usize::MAX);
    } else {
        lemma_field_within_struct(fields, i);
        lemma_valid_fields_elem(fields, i);
        lemma_field_layout_valid(fields[i].1);
    }
}

/// Whether freeing can read field `t` (see `free_field_ok`).
fn check_free_field(t: &RsArgsValue) -> (res: bool)
    ensures
        res == free_field_ok(*t),
{
    match t {
        RsArgsValue::Object(obj) => {
            let tag = get_ffi_tag(obj);
            if tag == FFITypeTag::Array {
                if !check_array_desc(obj) {
                    return false;
                }
                let desc = get_array_desc(obj);
                if desc.array_type == RefDataType::StructArray {
                    match desc.struct_item_type {
                        Some(item) => checked_struct_size(item).is_some(),
                        None => false,
                    }
                } else {
                    true
                }
            } else if tag == FFITypeTag::Function {
                crate::define::map_get(obj, FUNCTION_FREE_TAG).is_some()
            } else {
                true
            }
        },
        _ => true,
    }
}

/// What freeing does with a field (see `free_field_kind`).
fn free_field_kind_of(t: &RsArgsValue, ptr_type: PointerType) -> (res: FreeKind)
    requires
        free_field_ok(*t),
    ensures
        res == free_field_kind(*t, ptr_type),
{
    match t {
        RsArgsValue::I32(number) => {
            if *number == 0 {
                FreeKind::CString
            } else if *number == 15 {
                FreeKind::WideString
            } else {
                FreeKind::Nothing
            }
        },
        RsArgsValue::Object(obj) => {
            let tag = get_ffi_tag(obj);
            if tag == FFITypeTag::Array {
                let desc = get_array_desc(obj);
                let len = desc.array_len;
                match desc.array_type {
                    RefDataType::StringArray => FreeKind::StringArray { len },
                    RefDataType::StructArray => match desc.struct_item_type {
                        Some(item) => {
                            let (item_size, _) = calculate_struct_size(item);
                            FreeKind::StructArray { len, item_size }
                        },
                        None => {
                            proof {
                                assert(false);
                            }
                            FreeKind::Nothing
                        },
                    },
                    RefDataType::U8Array => if ptr_type == PointerType::CPointer {
                        FreeKind::Array { elem: RefDataType::U8Array, len }
                    } else {
                        FreeKind::Nothing
                    },
                    elem => FreeKind::Array { elem, len },
                }
            } else if tag == FFITypeTag::StackArray {
                FreeKind::Nothing
            } else if tag == FFITypeTag::Function {
                if get_func_desc(obj).need_free {
                    FreeKind::Base
                } else {
                    FreeKind::Nothing
                }
            } else if tag == FFITypeTag::StackStruct {
                FreeKind::InlineStruct
            } else {
                FreeKind::PointedStruct
            }
        },
        _ => FreeKind::Nothing,
    }
}

/// The plan for freeing the memory of a struct described by `struct_desc`, one step per
/// field (see `free_step_at`): the field's offset and what is freed there. Nested
/// structs, and the items of arrays of structs, are freed by the plans of their own
/// descriptions.
pub fn free_struct_plan(struct_desc: &FieldList, ptr_type: PointerType) -> (res: Vec<FreeStep>)
    requires
        free_struct_ok(struct_desc@),
        free_fields_ok(struct_desc@),
    ensures
        res@.len() == struct_desc@.len(),
        forall|i: int|
            0 <= i < struct_desc@.len() ==> res@[i] == free_step_at(struct_desc@, ptr_type, i),
{
    let offsets = field_offsets(struct_desc);
    let mut steps: Vec<FreeStep> = Vec::new();
    let mut i: usize = 0;
    while i < struct_desc.len()
        invariant
            0 <= i <= struct_desc@.len(),
            free_fields_ok(struct_desc@),
            offsets@.len() == struct_desc@.len(),
            forall|j: int|
                0 <= j < struct_desc@.len() ==> offsets@[j] as int == field_offset(struct_desc@, j),
            steps@.len() == i,
            forall|j: int| 0 <= j < i ==> steps@[j] == free_step_at(struct_desc@, ptr_type, j),
        decreases struct_desc@.len() - i,
    {
        let field = &struct_desc[i];
        let kind = if key_is(&field.0, FFI_TAG_FIELD) {
            FreeKind::Nothing
        } else {
            proof {
                assert(free_field_ok(struct_desc@[i as int].1));
            }
            free_field_kind_of(&field.1, ptr_type)
        };
        steps.push(FreeStep { position: offsets[i], kind });
        i = i + 1;
    }
    steps
}

/// Whether the freeing plan can be made for a struct description (the precondition of
/// `free_struct_plan`).
pub fn free_struct_plan_ok(struct_desc: &FieldList) -> (res: bool)
    ensures
        res == (free_struct_ok(struct_desc@) && free_fields_ok(struct_desc@)),
{
    if checked_struct_size(struct_desc).is_none() {
        return false;
    }
    let mut i: usize = 0;
    while i < struct_desc.len()
        invariant
            0 <= i <= struct_desc@.len(),
            forall|j: int|
                0 <= j < i && !is_tag_field(#[trigger] struct_desc@[j]) ==> free_field_ok(
                    struct_desc@[j].1,
                ),
        decreases struct_desc@.len() - i,
    {
        let field = &struct_desc[i];
        if !key_is(&field.0, FFI_TAG_FIELD) && !check_free_field(&field.1) {
            return false;
        }
        i = i + 1;
    }
    true
}


/// How a value that this library boxed for a call is freed, by its type description.
#[derive(Debug, Clone, Copy, PartialEq, Eq, Structural)]
pub enum RsPointerFree {
    /// Nothing is freed (a byte array belongs to its buffer; a function that is not to be
    /// freed; a struct or array of structs of size 0).
    Nothing,
    /// The box holds a scalar: reclaim the box.
    DropBox,
    /// The box holds a pointer to a C string made here: reclaim the string, then the box.
    CString,
    /// The box holds a pointer to a wide C string made here: reclaim it, then the box.
    WideString,
    /// The box holds a pointer to `len` scalars made here: reclaim them, then the box.
    Array { elem: RefDataType, len: usize },
    /// The box holds a pointer to `len` C strings made here: reclaim them, then the box.
    StringArray { len: usize },
    /// The box holds a pointer to one block of inline structs, `block_size` bytes aligned
    /// to `align`: deallocate the block, then the box.
    StackStructArray { block_size: usize, align: usize },
    /// The box holds pointers to `len` structs, read every `size` bytes: free each struct
    /// by its plan, then deallocate what the box points to as `size` bytes aligned to
    /// `align`, then the box.
    StructPointerArray { len: usize, size: usize, align: usize },
    /// The value is a closure made here: release it.
    Closure,
    /// The box holds a pointer to a struct of `size` bytes aligned to `align`: free its
    /// fields by its plan, then deallocate it.
    PointedStruct { size: usize, align: usize },
    /// The struct is stored in place: free its fields by its plan.
    InlineStruct,
}

/// Whether a description can be read to free a value boxed here: a number names a scalar
/// type; an array descriptor can be read, and for an array of structs names a struct
/// description that can be laid out (with room for the whole block where the structs
/// are inline); a function descriptor says whether to free it; any other object can be
/// laid out. Other values describe nothing that can be freed.
pub open spec fn rs_free_ok(desc: RsArgsValue) -> bool {
    match desc {
        RsArgsValue::I32(code) => is_basic_code(code as int),
        RsArgsValue::Object(obj) => {
            let tag = ffi_tag(obj@);
            if tag == FFITypeTag::Array || tag == FFITypeTag::StackArray {
                &&& array_desc_readable(obj@)
                &&& array_type_of(obj@) == RefDataType::StructArray ==> {
                    let item = struct_item_type_of(obj@);
                    &&& item is Some
                    &&& free_struct_ok(item->0@)
                    &&& ffi_tag(item->0@) == FFITypeTag::StackStruct ==> struct_layout(item->0@).0
                        * array_len_of(obj@) as int <= usize::MAX
                }
            } else if tag == FFITypeTag::Function {
                lookup(obj@, FUNCTION_FREE_TAG@) is Some
            } else {
                free_struct_ok(obj@)
            }
        },
        _ => false,
    }
}

/// How a value boxed here is freed (see `RsPointerFree`).
pub open spec fn rs_pointer_free(desc: RsArgsValue) -> RsPointerFree {
    match desc {
        RsArgsValue::I32(code) => match basic_data_type_from_code(code as int) {
            Some(BasicDataType::String) => RsPointerFree::CString,
            Some(BasicDataType::WString) => RsPointerFree::WideString,
            _ => RsPointerFree::DropBox,
        },
        RsArgsValue::Object(obj) => {
            let tag = ffi_tag(obj@);
            let len = array_len_of(obj@);
            if tag == FFITypeTag::Array || tag == FFITypeTag::StackArray {
                match array_type_of(obj@) {
                    RefDataType::U8Array => RsPointerFree::Nothing,
                    RefDataType::StringArray => RsPointerFree::StringArray { len },
                    RefDataType::StructArray => {
                        let item = struct_item_type_of(obj@)->0@;
                        let l = struct_layout(item);
                        if l.0 <= 0 {
                            RsPointerFree::Nothing
                        } else if ffi_tag(item) == FFITypeTag::StackStruct {
                            RsPointerFree::StackStructArray {
                                block_size: (l.0 * len as int) as usize,
                                align: l.1 as usize,
                            }
                        } else {
                            RsPointerFree::StructPointerArray {
                                len,
                                size: l.0 as usize,
                                align: l.1 as usize,
                            }
                        }
                    },
                    elem => RsPointerFree::Array { elem, len },
                }
            } else if tag == FFITypeTag::Function {
                if func_need_free(obj@) {
                    RsPointerFree::Closure
                } else {
                    RsPointerFree::Nothing
                }
            } else {
                let l = struct_layout(obj@);
                if l.0 <= 0 {
                    RsPointerFree::Nothing
                } else if tag == FFITypeTag::StackStruct {
                    RsPointerFree::InlineStruct
                } else {
                    RsPointerFree::PointedStruct { size: l.0 as usize, align: l.1 as usize }
                }
            }
        },
        _ => RsPointerFree::Nothing,
    }
}

/// How a value that this library boxed for a call is freed, by its description.
pub fn free_rs_pointer_action(desc: &RsArgsValue) -> (res: RsPointerFree)
    requires
        rs_free_ok(*desc),
    ensures
        res == rs_pointer_free(*desc),
{
    match desc {
        RsArgsValue::I32(number) => {
            if *number == 0 {
                RsPointerFree::CString
            } else if *number == 15 {
                RsPointerFree::WideString
            } else {
                RsPointerFree::DropBox
            }
        },
        RsArgsValue::Object(obj) => {
            let tag = get_ffi_tag(obj);
            if tag == FFITypeTag::Array || tag == FFITypeTag::StackArray {
                let desc = get_array_desc(obj);
                let len = desc.array_len;
                match desc.array_type {
                    RefDataType::U8Array => RsPointerFree::Nothing,
                    RefDataType::StringArray => RsPointerFree::StringArray { len },
                    RefDataType::StructArray => match desc.struct_item_type {
                        Some(item) => {
                            let is_stack_struct = get_ffi_tag(item) == FFITypeTag::StackStruct;
                            let (size, align) = calculate_struct_size(item);
                            if size == 0 {
                                RsPointerFree::Nothing
                            } else if is_stack_struct {
                                RsPointerFree::StackStructArray { block_size: size * len, align }
                            } else {
                                RsPointerFree::StructPointerArray { len, size, align }
                            }
                        },
                        None => {
                            proof {
                                assert(false);
                            }
                            RsPointerFree::Nothing
                        },
                    },
                    elem => RsPointerFree::Array { elem, len },
                }
            } else if tag == FFITypeTag::Function {
                if get_func_desc(obj).need_free {
                    RsPointerFree::Closure
                } else {
                    RsPointerFree::Nothing
                }
            } else {
                let (size, align) = calculate_struct_size(obj);
                if size == 0 {
                    RsPointerFree::Nothing
                } else if tag == FFITypeTag::StackStruct {
                    RsPointerFree::InlineStruct
                } else {
                    RsPointerFree::PointedStruct { size, align }
                }
            }
        },
        _ => {
            proof {
                assert(false);
            }
            RsPointerFree::Nothing
        },
    }
}

/// How a value that foreign code returned or allocated is freed, by its description.
#[derive(Debug, Clone, Copy, PartialEq, Eq, Structural)]
pub enum CPointerFree {
    /// Free the string the box points to, then the box.
    StringAndBox,
    /// Free the box.
    Box,
    /// The box points to `len` scalars: free them, then the box.
    Array { elem: RefDataType, len: usize },
    /// The box points to `len` C strings: free them.
    StringArray { len: usize },
    /// The box points to `len` structs of `item_size` bytes each: free each by its plan.
    StructArray { len: usize, item_size: usize },
    /// A function to be freed: free what the box points to, then the box.
    Function,
    /// Nothing is freed (a function that is not to be freed).
    Nothing,
    /// A struct (in place where `inline`, else behind the box's pointer): free its fields
    /// by its plan, then what the box points to, then the box.
    Struct { inline: bool },
}

/// Whether a description can be read to free a value from foreign code: a number names
/// a scalar type; a heap array descriptor can be read and, for an array of structs, names
/// a struct description that can be laid out; a function descriptor says whether to free
/// it. Any other object is freed as a struct; other values describe nothing.
pub open spec fn c_free_ok(desc: RsArgsValue) -> bool {
    match desc {
        RsArgsValue::I32(code) => is_basic_code(code as int),
        RsArgsValue::Object(obj) => {
            let tag = ffi_tag(obj@);
            if tag == FFITypeTag::Array {
                &&& array_desc_readable(obj@)
                &&& array_type_of(obj@) == RefDataType::StructArray ==> {
                    &&& struct_item_type_of(obj@) is Some
                    &&& free_struct_ok(struct_item_type_of(obj@)->0@)
                }
            } else if tag == FFITypeTag::Function {
                lookup(obj@, FUNCTION_FREE_TAG@) is Some
            } else {
                true
            }
        },
        _ => false,
    }
}

/// How a value from foreign code is freed (see `CPointerFree`); an inline array is
/// freed as a struct would be.
pub open spec fn c_pointer_free(desc: RsArgsValue) -> CPointerFree {
    match desc {
        RsArgsValue::I32(code) => match basic_data_type_from_code(code as int) {
            Some(BasicDataType::String) => CPointerFree::StringAndBox,
            _ => CPointerFree::Box,
        },
        RsArgsValue::Object(obj) => {
            let tag = ffi_tag(obj@);
            let len = array_len_of(obj@);
            if tag == FFITypeTag::Array {
                match array_type_of(obj@) {
                    RefDataType::StringArray => CPointerFree::StringArray { len },
                    RefDataType::StructArray => CPointerFree::StructArray {
                        len,
                        item_size: struct_layout(struct_item_type_of(obj@)->0@).0 as usize,
                    },
                    elem => CPointerFree::Array { elem, len },
                }
            } else if tag == FFITypeTag::Function {
                if func_need_free(obj@) {
                    CPointerFree::Function
                } else {
                    CPointerFree::Nothing
                }
            } else {
                CPointerFree::Struct { inline: tag == FFITypeTag::StackStruct }
            }
        },
        _ => CPointerFree::Nothing,
    }
}

/// How a value from foreign code is freed, by its description.
pub fn free_c_pointer_action(desc: &RsArgsValue) -> (res: CPointerFree)
    requires
        c_free_ok(*desc),
    ensures
        res == c_pointer_free(*desc),
{
    match desc {
        RsArgsValue::I32(number) => {
            if *number == 0 {
                CPointerFree::StringAndBox
            } else {
                CPointerFree::Box
            }
        },
        RsArgsValue::Object(obj) => {
            let tag = get_ffi_tag(obj);
            if tag == FFITypeTag::Array {
                let desc = get_array_desc(obj);
                let len = desc.array_len;
                match desc.array_type {
                    RefDataType::StringArray => CPointerFree::StringArray { len },
                    RefDataType::StructArray => match desc.struct_item_type {
                        Some(item) => {
                            let (item_size, _) = calculate_struct_size(item);
                            CPointerFree::StructArray { len, item_size }
                        },
                        None => {
                            proof {
                                assert(false);
                            }
                            CPointerFree::Nothing
                        },
                    },
                    elem => CPointerFree::Array { elem, len },
                }
            } else if tag == FFITypeTag::Function {
                if get_func_desc(obj).need_free {
                    CPointerFree::Function
                } else {
                    CPointerFree::Nothing
                }
            } else {
                CPointerFree::Struct { inline: tag == FFITypeTag::StackStruct }
            }
        },
        _ => {
            proof {
                assert(false);
            }
            CPointerFree::Nothing
        },
    }
}


/// Whether a value boxed here can be freed by its description (the precondition of
/// `free_rs_pointer_action`).
pub fn check_rs_free(desc: &RsArgsValue) -> (res: bool)
    ensures
        res == rs_free_ok(*desc),
{
    match desc {
        RsArgsValue::I32(number) => BasicDataType::try_from(*number).is_ok(),
        RsArgsValue::Object(obj) => {
            let tag = get_ffi_tag(obj);
            if tag == FFITypeTag::Array || tag == FFITypeTag::StackArray {
                if !crate::utils::object_utils::check_array_desc(obj) {
                    return false;
                }
                let desc = get_array_desc(obj);
                if desc.array_type != RefDataType::StructArray {
                    return true;
                }
                match desc.struct_item_type {
                    Some(item) => match crate::utils::object_utils::checked_struct_size(item) {
                        Some((size, _)) => {
                            if get_ffi_tag(item) == FFITypeTag::StackStruct {
                                size.checked_mul(desc.array_len).is_some()
                            } else {
                                true
                            }
                        },
                        None => false,
                    },
                    None => false,
                }
            } else if tag == FFITypeTag::Function {
                crate::define::map_get(obj, FUNCTION_FREE_TAG).is_some()
            } else {
                crate::utils::object_utils::checked_struct_size(obj).is_some()
            }
        },
        _ => false,
    }
}

/// Whether a value from foreign code can be freed by its description (the precondition
/// of `free_c_pointer_action`).
pub fn check_c_free(desc: &RsArgsValue) -> (res: bool)
    ensures
        res == c_free_ok(*desc),
{
    match desc {
        RsArgsValue::I32(number) => BasicDataType::try_from(*number).is_ok(),
        RsArgsValue::Object(obj) => {
            let tag = get_ffi_tag(obj);
            if tag == FFITypeTag::Array {
                if !crate::utils::object_utils::check_array_desc(obj) {
                    return false;
                }
                let desc = get_array_desc(obj);
                if desc.array_type != RefDataType::StructArray {
                    return true;
                }
                match desc.struct_item_type {
                    Some(item) => crate::utils::object_utils::checked_struct_size(item).is_some(),
                    None => false,
                }
            } else if tag == FFITypeTag::Function {
                crate::define::map_get(obj, FUNCTION_FREE_TAG).is_some()
            } else {
                true
            }
        },
        _ => false,
    }
}

/// Whether an array type holds scalars (bytes, 16- or 32-bit integers, floats or
/// doubles) rather than strings or structs.
pub open spec fn is_scalar_array(t: RefDataType) -> bool {
    t is U8Array || t is I16Array || t is I32Array || t is FloatArray || t is DoubleArray
}

/// Law: in a struct's freeing plan, a field that points to heap text is freed by the
/// matching deallocation: a string field as a C string, a wide string field as a wide
/// string, and no other scalar field at all. A field that points to a heap array of
/// scalars is freed as that many elements of that array type (for memory this library
/// made, byte arrays excepted: they belong to their buffers), and one that points to an
/// array of strings as that many strings. A function field is freed exactly when its
/// descriptor asks. The tag frees nothing.
pub proof fn lemma_free_plan_follows_field_types(
    fields: Seq<(String, RsArgsValue)>,
    ptr_type: PointerType,
    i: int,
)
    requires
        0 <= i < fields.len(),
    ensures
        is_tag_field(fields[i]) ==> free_step_at(fields, ptr_type, i).kind == FreeKind::Nothing,
        !is_tag_field(fields[i]) ==> (fields[i].1 matches RsArgsValue::I32(code) ==> {
            let kind = free_step_at(fields, ptr_type, i).kind;
            &&& code == 0 ==> kind == FreeKind::CString
            &&& code == 15 ==> kind == FreeKind::WideString
            &&& is_basic_code(code as int) && code != 0 && code != 15 ==> kind == FreeKind::Nothing
        }),
        !is_tag_field(fields[i]) ==> (fields[i].1 matches RsArgsValue::Object(obj) ==> {
            let kind = free_step_at(fields, ptr_type, i).kind;
            &&& ffi_tag(obj@) == FFITypeTag::Array && is_scalar_array(array_type_of(obj@)) && (
            array_type_of(obj@) != RefDataType::U8Array || ptr_type == PointerType::CPointer)
                ==> kind == (FreeKind::Array {
                elem: array_type_of(obj@),
                len: array_len_of(obj@),
            })
            &&& ffi_tag(obj@) == FFITypeTag::Array && array_type_of(obj@)
                == RefDataType::StringArray ==> kind == (FreeKind::StringArray {
                len: array_len_of(obj@),
            })
            &&& (kind is Base) == (ffi_tag(obj@) == FFITypeTag::Function && func_need_free(obj@))
        }),
{
}

/// Law: a value this library boxed is freed by the deallocation its description names: a
/// string as a C string, a wide string as a wide string, any other scalar by dropping
/// its box; an array of scalars other than bytes (whose memory belongs to the caller's
/// buffer) as that many elements of that array type, and an array of strings as that
/// many strings. Whenever it is freed as an array, the element type and length are those
/// the descriptor states. A closure is released exactly when its descriptor asks.
pub proof fn lemma_rs_free_follows_description(desc: RsArgsValue)
    ensures
        desc matches RsArgsValue::I32(code) ==> {
            &&& code == 0 ==> rs_pointer_free(desc) == RsPointerFree::CString
            &&& code == 15 ==> rs_pointer_free(desc) == RsPointerFree::WideString
            &&& is_basic_code(code as int) && code != 0 && code != 15 ==> rs_pointer_free(desc)
                == RsPointerFree::DropBox
        },
        desc matches RsArgsValue::Object(obj) ==> {
            &&& (ffi_tag(obj@) == FFITypeTag::Array || ffi_tag(obj@) == FFITypeTag::StackArray)
                && is_scalar_array(array_type_of(obj@)) && array_type_of(obj@)
                != RefDataType::U8Array ==> rs_pointer_free(desc) == (RsPointerFree::Array {
                elem: array_type_of(obj@),
                len: array_len_of(obj@),
            })
            &&& rs_pointer_free(desc) is Array ==> rs_pointer_free(desc)->Array_elem
                == array_type_of(obj@) && rs_pointer_free(desc)->Array_len == array_len_of(obj@)

            &&& (ffi_tag(obj@) == FFITypeTag::Array || ffi_tag(obj@) == FFITypeTag::StackArray)
                && array_type_of(obj@) == RefDataType::StringArray ==> rs_pointer_free(desc) == (
            RsPointerFree::StringArray { len: array_len_of(obj@) })
            &&& (rs_pointer_free(desc) is Closure) == (ffi_tag(obj@) == FFITypeTag::Function
                && func_need_free(obj@))
        },
        rs_pointer_free(desc) is Array ==> desc is Object,
{
}

/// Law: a value from foreign code is freed by the deallocation its description names: a
/// string's text and then its box, any other scalar's box; every heap array of scalars,
/// bytes included, as that many elements of that array type, then the box; an array of
/// strings as that many strings. Whenever it is freed as an array, the element type and
/// length are those the descriptor states. A function is freed exactly when its
/// descriptor asks.
pub proof fn lemma_c_free_follows_description(desc: RsArgsValue)
    ensures
        desc matches RsArgsValue::I32(code) ==> {
            &&& code == 0 ==> c_pointer_free(desc) == CPointerFree::StringAndBox
            &&& is_basic_code(code as int) && code != 0 ==> c_pointer_free(desc) == CPointerFree::Box
        },
        desc matches RsArgsValue::Object(obj) ==> {
            &&& ffi_tag(obj@) == FFITypeTag::Array && is_scalar_array(array_type_of(obj@))
                ==> c_pointer_free(desc) == (CPointerFree::Array {
                elem: array_type_of(obj@),
                len: array_len_of(obj@),
            })
            &&& c_pointer_free(desc) is Array ==> c_pointer_free(desc)->Array_elem
                == array_type_of(obj@) && c_pointer_free(desc)->Array_len == array_len_of(obj@)

            &&& ffi_tag(obj@) == FFITypeTag::Array && array_type_of(obj@)
                == RefDataType::StringArray ==> c_pointer_free(desc) == (CPointerFree::StringArray {
                len: array_len_of(obj@),
            })
            &&& (c_pointer_free(desc) is Function) == (ffi_tag(obj@) == FFITypeTag::Function
                && func_need_free(obj@))
        },
        c_pointer_free(desc) is Array ==> desc is Object,
{
}

} // verus!
