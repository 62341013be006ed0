use crate::define::{
    basic_data_type_from_code, ffi_tag, is_basic_code, key_is, BasicDataType, FFITypeTag,
    FieldList, RsArgsValue, FFI_TAG_FIELD,
};
use crate::utils::dataprocess::get_ffi_tag;
use crate::utils::object_utils::{
    calculate_struct_size, field_layout, is_tag_field, lemma_valid_fields_elem, struct_layout,
    valid_field_type, valid_fields, valid_inline_struct,
};
use vstd::layout::size_of;
use vstd::prelude::*;

verus! {

/// The foreign-call type of a parameter or return value: a scalar kind, a pointer, or a
/// struct passed by value with its size, alignment and member types.
#[derive(Debug)]
pub enum FfiType {
    Void,
    U8,
    I16,
    I32,
    U32,
    I64,
    U64,
    Float,
    Double,
    Pointer,
    Struct { size: usize, alignment: u16, elements: Vec<FfiType> },
}

/// The foreign-call type of each scalar type: booleans travel as bytes; strings and
/// external pointers as pointers; big integers as 64-bit integers.
pub open spec fn basic_ffi_type(t: BasicDataType) -> FfiType {
    match t {
        BasicDataType::U8 => FfiType::U8,
        BasicDataType::Boolean => FfiType::U8,
        BasicDataType::I32 => FfiType::I32,
        BasicDataType::I16 => FfiType::I16,
        BasicDataType::U32 => FfiType::U32,
        BasicDataType::I64 => FfiType::I64,
        BasicDataType::BigInt => FfiType::I64,
        BasicDataType::U64 => FfiType::U64,
        BasicDataType::String => FfiType::Pointer,
        BasicDataType::WString => FfiType::Pointer,
        BasicDataType::External => FfiType::Pointer,
        BasicDataType::Void => FfiType::Void,
        BasicDataType::Float => FfiType::Float,
        BasicDataType::Double => FfiType::Double,
    }
}

/// Whether a type description can be given a foreign-call type: a number names a scalar
/// type; an inline struct has valid fields and a size that fits a `usize`.
pub open spec fn ffi_type_ok(t: RsArgsValue) -> bool {
    match t {
        RsArgsValue::I32(code) => is_basic_code(code as int),
        RsArgsValue::Object(obj) => ffi_tag(obj@) == FFITypeTag::StackStruct ==> {
            &&& valid_fields(obj@)
            &&& struct_layout(obj@).0 <= usize::MAX
        },
        _ => true,
    }
}

/// Whether `r` is the foreign-call type of the description `t`: a scalar's own type; for
/// an inline struct, a struct type with the struct's size and alignment (the alignment
/// taken modulo 2^16) whose members are the types of its fields other than the tag, in
/// order; a pointer for any other object; void for any other value.
pub open spec fn ffi_type_describes(r: FfiType, t: RsArgsValue) -> bool
    decreases t, 1int,
{
    match t {
        RsArgsValue::I32(code) => match basic_data_type_from_code(code as int) {
            Some(b) => r == basic_ffi_type(b),
            None => false,
        },
        RsArgsValue::Object(obj) => {
            if ffi_tag(obj@) == FFITypeTag::StackStruct {
                &&& r matches FfiType::Struct { size, alignment, elements }
                &&& size as int == struct_layout(obj@).0
                &&& alignment == struct_layout(obj@).1 as u16
                &&& members_describe(r->elements@, obj@)
            } else {
                r == FfiType::Pointer
            }
        },
        _ => r == FfiType::Void,
    }
}

/// Whether `rs` are the foreign-call types of the fields of `fields` other than the tag,
/// in order.
pub open spec fn members_describe(rs: Seq<FfiType>, fields: Seq<(String, RsArgsValue)>) -> bool
    decreases fields, 0int,
{
    if fields.len() == 0 {
        rs.len() == 0
    } else {
        let prefix = fields.subrange(0, fields.len() - 1);
        let last = fields[fields.len() - 1];
        proof {
            assert(decreases_to!(fields => last));
            assert(decreases_to!(last => last.1));
        }
        if is_tag_field(last) {
            members_describe(rs, prefix)
        } else {
            &&& rs.len() > 0
            &&& ffi_type_describes(rs[rs.len() - 1], last.1)
            &&& members_describe(rs.subrange(0, rs.len() - 1), prefix)
        }
    }
}

/// A field type that can be laid out can be given a foreign-call type.
pub proof fn lemma_valid_field_ffi_ok(t: RsArgsValue)
    requires
        valid_field_type(t),
    ensures
        ffi_type_ok(t),
{
    if let RsArgsValue::Object(obj) = t {
        if ffi_tag(obj@) == FFITypeTag::StackStruct {
            assert(valid_inline_struct(obj@));
        }
    }
}

/// The foreign-call type of a scalar type.
fn basic_type_to_ffi(t: BasicDataType) -> (res: FfiType)
    ensures
        res == basic_ffi_type(t),
{
    match t {
        BasicDataType::U8 => FfiType::U8,
        BasicDataType::I32 => FfiType::I32,
        BasicDataType::I16 => FfiType::I16,
        BasicDataType::U32 => FfiType::U32,
        BasicDataType::I64 | BasicDataType::BigInt => FfiType::I64,
        BasicDataType::U64 => FfiType::U64,
        BasicDataType::String | BasicDataType::WString => FfiType::Pointer,
        BasicDataType::Void => FfiType::Void,
        BasicDataType::Float => FfiType::Float,
        BasicDataType::Double => FfiType::Double,
        BasicDataType::Boolean => FfiType::U8,
        BasicDataType::External => FfiType::Pointer,
    }
}

/// The foreign-call type of a type description (see `ffi_type_describes`).
pub fn get_ffi_type(ret_type_rs: &RsArgsValue) -> (res: FfiType)
    requires
        ffi_type_ok(*ret_type_rs),
    ensures
        ffi_type_describes(res, *ret_type_rs),
    decreases ret_type_rs,
{
    match ret_type_rs {
        RsArgsValue::I32(number) => {
            match BasicDataType::try_from(*number) {
                Ok(t) => basic_type_to_ffi(t),
                Err(_) => {
                    proof {
                        assert(false);
                    }
                    FfiType::Void
                },
            }
        },
        RsArgsValue::Object(struct_type) => {
            if get_ffi_tag(struct_type) == FFITypeTag::StackStruct {
                let elements = struct_members(struct_type);
                let (size, align) = calculate_struct_size(struct_type);
                FfiType::Struct { size, alignment: #[verifier::truncate] (align as u16), elements }
            } else {
                FfiType::Pointer
            }
        },
        _ => FfiType::Void,
    }
}

/// The foreign-call types of the fields of a struct description other than the tag.
fn struct_members(struct_type: &FieldList) -> (res: Vec<FfiType>)
    requires
        valid_fields(struct_type@),
        struct_layout(struct_type@).0 <= usize::MAX,
    ensures
        members_describe(res@, struct_type@),
    decreases struct_type,
{
    let mut elements: Vec<FfiType> = Vec::new();
    let mut i: usize = 0;
    proof {
        assert(struct_type@.subrange(0, 0) =~= Seq::<(String, RsArgsValue)>::empty());
    }
    while i < struct_type.len()
        invariant
            0 <= i <= struct_type.len(),
            valid_fields(struct_type@),
            struct_layout(struct_type@).0 <= usize::MAX,
            members_describe(elements@, struct_type@.subrange(0, i as int)),
        decreases struct_type.len() - i,
    {
        let field = &struct_type[i];
        let ghost prefix = struct_type@.subrange(0, i as int);
        let ghost next = struct_type@.subrange(0, i as int + 1);
        proof {
            assert(next.subrange(0, i as int) =~= prefix);
            assert(next[i as int] == struct_type@[i as int]);
        }
        if !key_is(&field.0, FFI_TAG_FIELD) {
            proof {
                lemma_valid_fields_elem(struct_type@, i as int);
                lemma_valid_field_ffi_ok(field.1);
                assert(decreases_to!(*struct_type => struct_type[i as int]));
                assert(decreases_to!(struct_type[i as int] => struct_type[i as int].1));
            }
            let ghost before = elements@;
            let member = get_ffi_type(&field.1);
            elements.push(member);
            proof {
                assert(elements@.subrange(0, elements@.len() - 1) =~= before);
            }
        }
        i = i + 1;
    }
    proof {
        assert(struct_type@.subrange(0, i as int) =~= struct_type@);
    }
    elements
}


/// Whether a type description can be given a foreign-call type (the precondition of
/// `get_ffi_type`).
pub fn check_ffi_type(t: &RsArgsValue) -> (res: bool)
    ensures
        res == ffi_type_ok(*t),
{
    match t {
        RsArgsValue::I32(number) => BasicDataType::try_from(*number).is_ok(),
        RsArgsValue::Object(obj) => {
            if get_ffi_tag(obj) == FFITypeTag::StackStruct {
                crate::utils::object_utils::checked_struct_size(obj).is_some()
            } else {
                true
            }
        },
        _ => true,
    }
}

/// Width in bytes of a value of a foreign-call type: each scalar kind is as wide as its
/// C type (`float` 4 bytes, `double` 8), a pointer as wide as `usize`, void 0 bytes, and
/// a struct its size.
pub open spec fn ffi_type_width(t: FfiType) -> int {
    match t {
        FfiType::Void => 0,
        FfiType::U8 => 1,
        FfiType::I16 => 2,
        FfiType::I32 => 4,
        FfiType::U32 => 4,
        FfiType::I64 => 8,
        FfiType::U64 => 8,
        FfiType::Float => 4,
        FfiType::Double => 8,
        FfiType::Pointer => size_of::<usize>() as int,
        FfiType::Struct { size, .. } => size as int,
    }
}

/// Whether a foreign-call type is a signed integer type.
pub open spec fn ffi_type_signed(t: FfiType) -> bool {
    t is I16 || t is I32 || t is I64
}

/// Whether the values of a scalar type are signed integers.
pub open spec fn scalar_signed(t: BasicDataType) -> bool {
    t is I16 || t is I32 || t is I64 || t is BigInt
}

/// Law: the foreign-call type given to a scalar is as wide as the value that the scalar
/// is stored as (its field layout), and it is a signed integer type exactly when the
/// scalar is a signed integer: a 64-bit integer travels as a 64-bit integer, never
/// truncated. An inline struct travels as a struct of its own size.
pub proof fn lemma_ffi_type_matches_storage(r: FfiType, t: RsArgsValue)
    requires
        ffi_type_describes(r, t),
        t is I32 || (t matches RsArgsValue::Object(obj) && ffi_tag(obj@) == FFITypeTag::StackStruct),
    ensures
        ffi_type_width(r) == field_layout(t).0,
        t matches RsArgsValue::I32(code) ==> ffi_type_signed(r) == scalar_signed(
            basic_data_type_from_code(code as int)->0,
        ),
{
    broadcast use vstd::layout::layout_of_primitives, vstd::layout::layout_of_unit_tuple;

}

} // verus!
