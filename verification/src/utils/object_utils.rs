use crate::define::{
    basic_data_type_from_code, ffi_tag, is_ref_code, map_get, BasicDataType, FFITypeTag,
    FieldList, RefDataType, RsArgsValue, ARRAY_LENGTH_TAG, ARRAY_TYPE_TAG, FFI_TAG_FIELD, key_is,
};
use crate::utils::dataprocess::{
    array_desc_readable, array_len_of, array_type_of, get_array_desc,
    get_ffi_tag, struct_item_type_of,
};
use vstd::layout::{align_of, size_of};
use vstd::prelude::*;

verus! {

/// Size and alignment, in bytes, of the type `T` on this machine.
pub fn get_size_align<T: Sized>() -> (res: (usize, usize))
    ensures
        res.0 as nat == size_of::<T>(),
        res.1 as nat == align_of::<T>(),
        res.1 > 0,
        res.0 % res.1 == 0,
{
    vstd::layout::layout_for_type_is_valid::<T>();
    (core::mem::size_of::<T>(), core::mem::align_of::<T>())
}

/// (size, alignment) of the type `T`.
pub open spec fn type_layout<T>() -> (int, int) {
    (size_of::<T>() as int, align_of::<T>() as int)
}

/// (size, alignment) of a pointer field: a pointer to a sized type is laid out as a `usize`.
pub open spec fn pointer_layout() -> (int, int) {
    type_layout::<usize>()
}

/// (size, alignment) of a scalar field. A C `float` and `double` are stored as 32-bit and
/// 64-bit IEEE words, laid out as `u32` and `u64`; strings and external pointers are
/// pointers.
pub open spec fn basic_field_layout(t: BasicDataType) -> (int, int) {
    match t {
        BasicDataType::U8 => type_layout::<u8>(),
        BasicDataType::I16 => type_layout::<i16>(),
        BasicDataType::I32 => type_layout::<i32>(),
        BasicDataType::U32 => type_layout::<u32>(),
        BasicDataType::I64 => type_layout::<i64>(),
        BasicDataType::U64 => type_layout::<u64>(),
        BasicDataType::BigInt => type_layout::<i64>(),
        BasicDataType::Float => type_layout::<u32>(),
        BasicDataType::Double => type_layout::<u64>(),
        BasicDataType::String => pointer_layout(),
        BasicDataType::WString => pointer_layout(),
        BasicDataType::External => pointer_layout(),
        BasicDataType::Boolean => type_layout::<bool>(),
        BasicDataType::Void => type_layout::<()>(),
    }
}

/// (size, alignment) of one element of an inline array of scalars or strings.
pub open spec fn scalar_elem_layout(t: RefDataType) -> (int, int) {
    match t {
        RefDataType::U8Array => type_layout::<u8>(),
        RefDataType::I16Array => type_layout::<i16>(),
        RefDataType::I32Array => type_layout::<i32>(),
        RefDataType::FloatArray => type_layout::<u32>(),
        RefDataType::DoubleArray => type_layout::<u64>(),
        RefDataType::StringArray => pointer_layout(),
        RefDataType::StructArray => pointer_layout(),
    }
}

/// The padding that brings `offset` up to a multiple of `align`.
pub open spec fn padding(offset: int, align: int) -> int {
    (align - offset % align) % align
}

/// The larger of two integers.
pub open spec fn max_int(a: int, b: int) -> int {
    if a >= b {
        a
    } else {
        b
    }
}

/// The (size, alignment) so far after appending a field of layout `f` to a struct whose
/// fields so far take `acc` (size, alignment): padding up to the field's alignment, then
/// the field.
pub open spec fn place_field(acc: (int, int), f: (int, int)) -> (int, int) {
    (acc.0 + padding(acc.0, f.1) + f.0, max_int(acc.1, f.1))
}

/// `size` rounded up to a multiple of `align` (unchanged for alignment 0).
pub open spec fn round_up(size: int, align: int) -> int {
    if align > 0 && size % align != 0 {
        size + (align - size % align)
    } else {
        size
    }
}

/// Whether a field is the tag field, which takes no room.
pub open spec fn is_tag_field(f: (String, RsArgsValue)) -> bool {
    f.0@ == FFI_TAG_FIELD@
}

/// Where `v` is the value of the field `key` of `m`, `m` decreases to `v`.
pub proof fn lemma_lookup_decreases(m: Seq<(String, RsArgsValue)>, key: Seq<char>)
    ensures
        crate::define::lookup(m, key) matches Some(v) ==> decreases_to!(m => v),
{
    crate::define::lemma_key_index(m, key);
    let i = crate::define::key_index(m, key);
    if i >= 0 {
        assert(decreases_to!(m => m[i]));
        assert(decreases_to!(m[i] => m[i].1));
    }
}

/// (size, alignment) that a field of type `t` takes inside a struct:
/// a scalar takes its own layout; an inline array (`StackArray`) takes `length` elements;
/// an inline struct (`StackStruct`) takes the struct's layout; any other object is a pointer.
pub open spec fn field_layout(t: RsArgsValue) -> (int, int)
    decreases t, 2int,
{
    match t {
        RsArgsValue::I32(code) => match basic_data_type_from_code(code as int) {
            Some(b) => basic_field_layout(b),
            None => (0, 0),
        },
        RsArgsValue::Object(obj) => {
            let tag = ffi_tag(obj@);
            if tag == FFITypeTag::StackArray {
                let elem = if array_type_of(obj@) == RefDataType::StructArray {
                    match struct_item_type_of(obj@) {
                        Some(item) => {
                            if ffi_tag(item@) == FFITypeTag::StackStruct {
                                proof {
                                    lemma_lookup_decreases(
                                        obj@,
                                        crate::define::ARRAY_STRUCT_ITEM_TYPE_TAG@,
                                    );
                                }
                                struct_layout(item@)
                            } else {
                                pointer_layout()
                            }
                        },
                        None => pointer_layout(),
                    }
                } else {
                    scalar_elem_layout(array_type_of(obj@))
                };
                (elem.0 * array_len_of(obj@) as int, elem.1)
            } else if tag == FFITypeTag::StackStruct {
                struct_layout(obj@)
            } else {
                pointer_layout()
            }
        },
        _ => (0, 0),
    }
}

/// (size, alignment) of the fields of a struct laid out one after another, each at the
/// next multiple of its alignment, before the final rounding; the tag field is skipped.
pub open spec fn fields_layout(fields: Seq<(String, RsArgsValue)>) -> (int, int)
    decreases fields, 0int,
{
    if fields.len() == 0 {
        (0, 0)
    } else {
        let prefix = fields.subrange(0, fields.len() - 1);
        let last = fields[fields.len() - 1];
        proof {
            assert(decreases_to!(fields => last));
            assert(decreases_to!(last => last.1));
        }
        let acc = fields_layout(prefix);
        if is_tag_field(last) {
            acc
        } else {
            place_field(acc, field_layout(last.1))
        }
    }
}

/// (size, alignment) of a struct: its fields laid out in order, the size then rounded up
/// to a multiple of the alignment (the largest alignment of a field; 0 with no field).
pub open spec fn struct_layout(fields: Seq<(String, RsArgsValue)>) -> (int, int)
    decreases fields, 1int,
{
    let l = fields_layout(fields);
    (round_up(l.0, l.1), l.1)
}


/// Whether a struct description can be placed inline: its fields are valid, it has a
/// positive alignment (some field besides the tag), and its size fits a `usize`.
pub open spec fn valid_inline_struct(fields: Seq<(String, RsArgsValue)>) -> bool
    decreases fields, 1int,
{
    &&& valid_fields(fields)
    &&& struct_layout(fields).1 > 0
    &&& struct_layout(fields).0 <= usize::MAX
}

/// Whether a field type can be laid out: a number names a scalar type; an inline array
/// descriptor can be read and, for an array of structs, names its struct (and an inline
/// struct there can itself be placed); an inline struct can be placed; any other object
/// is a pointer. Other values describe no field type.
pub open spec fn valid_field_type(t: RsArgsValue) -> bool
    decreases t, 2int,
{
    match t {
        RsArgsValue::I32(code) => crate::define::is_basic_code(code as int),
        RsArgsValue::Object(obj) => {
            let tag = ffi_tag(obj@);
            if tag == FFITypeTag::StackArray {
                &&& array_desc_readable(obj@)
                &&& (array_type_of(obj@) == RefDataType::StructArray ==> match struct_item_type_of(
                    obj@,
                ) {
                    Some(item) => {
                        ffi_tag(item@) == FFITypeTag::StackStruct ==> {
                            proof {
                                lemma_lookup_decreases(
                                    obj@,
                                    crate::define::ARRAY_STRUCT_ITEM_TYPE_TAG@,
                                );
                            }
                            valid_inline_struct(item@)
                        }
                    },
                    None => false,
                })
            } else if tag == FFITypeTag::StackStruct {
                valid_inline_struct(obj@)
            } else {
                true
            }
        },
        _ => false,
    }
}

/// Whether every field of a struct description other than the tag has a valid type.
pub open spec fn valid_fields(fields: Seq<(String, RsArgsValue)>) -> bool
    decreases fields, 0int,
{
    if fields.len() == 0 {
        true
    } else {
        let prefix = fields.subrange(0, fields.len() - 1);
        let last = fields[fields.len() - 1];
        proof {
            assert(decreases_to!(fields => last));
            assert(decreases_to!(last => last.1));
        }
        valid_fields(prefix) && (is_tag_field(last) || valid_field_type(last.1))
    }
}

/// A valid field takes a non-negative size and a positive alignment.
pub proof fn lemma_field_layout_valid(t: RsArgsValue)
    requires
        valid_field_type(t),
    ensures
        field_layout(t).0 >= 0,
        field_layout(t).1 > 0,
    decreases t, 2int,
{
    match t {
        RsArgsValue::I32(code) => {
            broadcast use vstd::layout::align_nonzero;
        },
        RsArgsValue::Object(obj) => {
            broadcast use vstd::layout::align_nonzero;
            let tag = ffi_tag(obj@);
            if tag == FFITypeTag::StackArray {
                if array_type_of(obj@) == RefDataType::StructArray {
                    if let Some(item) = struct_item_type_of(obj@) {
                        if ffi_tag(item@) == FFITypeTag::StackStruct {
                            lemma_lookup_decreases(
                                obj@,
                                crate::define::ARRAY_STRUCT_ITEM_TYPE_TAG@,
                            );
                            lemma_struct_layout_valid(item@);
                        }
                    }
                }
                let elem = if array_type_of(obj@) == RefDataType::StructArray {
                    match struct_item_type_of(obj@) {
                        Some(item) => if ffi_tag(item@) == FFITypeTag::StackStruct {
                            struct_layout(item@)
                        } else {
                            pointer_layout()
                        },
                        None => pointer_layout(),
                    }
                } else {
                    scalar_elem_layout(array_type_of(obj@))
                };
                assert(elem.0 >= 0);
                assert(elem.0 * array_len_of(obj@) as int >= 0) by (nonlinear_arith)
                    requires
                        elem.0 >= 0,
                ;
            } else if tag == FFITypeTag::StackStruct {
                lemma_struct_layout_valid(obj@);
            }
        },
        _ => {},
    }
}

/// A struct that can be placed inline has a non-negative size.
pub proof fn lemma_struct_layout_valid(fields: Seq<(String, RsArgsValue)>)
    requires
        valid_inline_struct(fields),
    ensures
        struct_layout(fields).0 >= 0,
    decreases fields, 1int,
{
    lemma_fields_layout_nonneg(fields);
}

/// The fields of a valid struct description take a non-negative size and alignment.
pub proof fn lemma_fields_layout_nonneg(fields: Seq<(String, RsArgsValue)>)
    requires
        valid_fields(fields),
    ensures
        fields_layout(fields).0 >= 0,
        fields_layout(fields).1 >= 0,
    decreases fields, 0int,
{
    if fields.len() > 0 {
        let prefix = fields.subrange(0, fields.len() - 1);
        let last = fields[fields.len() - 1];
        assert(decreases_to!(fields => last));
        assert(decreases_to!(last => last.1));
        lemma_fields_layout_nonneg(prefix);
        if !is_tag_field(last) {
            lemma_field_layout_valid(last.1);
            let acc = fields_layout(prefix);
            let f = field_layout(last.1);
            assert(padding(acc.0, f.1) >= 0);
        }
    }
}


/// Every prefix of a valid struct description is valid.
pub proof fn lemma_valid_fields_prefix(fields: Seq<(String, RsArgsValue)>, i: int)
    requires
        valid_fields(fields),
        0 <= i <= fields.len(),
    ensures
        valid_fields(fields.subrange(0, i)),
    decreases fields.len(),
{
    if i < fields.len() {
        let prefix = fields.subrange(0, fields.len() - 1);
        lemma_valid_fields_prefix(prefix, i);
        assert(prefix.subrange(0, i) =~= fields.subrange(0, i));
    } else {
        assert(fields.subrange(0, i) =~= fields);
    }
}

/// Each field of a valid struct description, other than the tag, has a valid type.
pub proof fn lemma_valid_fields_elem(fields: Seq<(String, RsArgsValue)>, i: int)
    requires
        valid_fields(fields),
        0 <= i < fields.len(),
        !is_tag_field(fields[i]),
    ensures
        valid_field_type(fields[i].1),
    decreases fields.len(),
{
    if i < fields.len() - 1 {
        let prefix = fields.subrange(0, fields.len() - 1);
        lemma_valid_fields_elem(prefix, i);
    }
}

/// Laying out one more field: the layout of the first `i + 1` fields is that of the
/// first `i` with field `i` placed after them (or unchanged for the tag).
pub proof fn lemma_fields_layout_step(fields: Seq<(String, RsArgsValue)>, i: int)
    requires
        0 <= i < fields.len(),
    ensures
        fields_layout(fields.subrange(0, i + 1)) == (if is_tag_field(fields[i]) {
            fields_layout(fields.subrange(0, i))
        } else {
            place_field(fields_layout(fields.subrange(0, i)), field_layout(fields[i].1))
        }),
{
    let s = fields.subrange(0, i + 1);
    assert(s.subrange(0, i) =~= fields.subrange(0, i));
    assert(s[i] == fields[i]);
}

/// The layout of a prefix of a valid struct description is no larger than that of the
/// whole, in size and in alignment.
pub proof fn lemma_fields_layout_mono(fields: Seq<(String, RsArgsValue)>, i: int)
    requires
        valid_fields(fields),
        0 <= i <= fields.len(),
    ensures
        0 <= fields_layout(fields.subrange(0, i)).0 <= fields_layout(fields).0,
        0 <= fields_layout(fields.subrange(0, i)).1 <= fields_layout(fields).1,
    decreases fields.len(),
{
    lemma_valid_fields_prefix(fields, i);
    lemma_fields_layout_nonneg(fields.subrange(0, i));
    if i < fields.len() {
        let prefix = fields.subrange(0, fields.len() - 1);
        let last = fields[fields.len() - 1];
        lemma_fields_layout_mono(prefix, i);
        assert(prefix.subrange(0, i) =~= fields.subrange(0, i));
        lemma_fields_layout_nonneg(prefix);
        if !is_tag_field(last) {
            lemma_field_layout_valid(last.1);
        }
    } else {
        assert(fields.subrange(0, i) =~= fields);
    }
}

/// The size of a struct is at least that of its fields before rounding.
pub proof fn lemma_round_up_ge(size: int, align: int)
    requires
        size >= 0,
        align >= 0,
    ensures
        size <= round_up(size, align),
{
}

/// Places a field of the given size and alignment after a struct's fields so far
/// (`size` bytes with alignment `align`, the next free offset being `offset`): the
/// field starts at the next multiple of its alignment.
pub fn calculate_layout_for(
    size: usize,
    align: usize,
    offset: usize,
    type_size: usize,
    type_align: usize,
) -> (res: (usize, usize, usize))
    requires
        type_align > 0,
        offset + padding(offset as int, type_align as int) + type_size <= usize::MAX,
        size + padding(offset as int, type_align as int) + type_size <= usize::MAX,
    ensures
        res.0 == size + padding(offset as int, type_align as int) + type_size,
        res.1 == max_int(align as int, type_align as int),
        res.2 == offset + padding(offset as int, type_align as int) + type_size,
{
    let align = if align >= type_align {
        align
    } else {
        type_align
    };
    let padding = (type_align - (offset % type_align)) % type_align;
    let size = size + padding + type_size;
    let offset = offset + padding + type_size;
    (size, align, offset)
}

/// (size, alignment) that a field of type `t` takes inside a struct (see `field_layout`).
pub fn field_size_align(t: &RsArgsValue) -> (res: (usize, usize))
    requires
        valid_field_type(*t),
        field_layout(*t).0 <= usize::MAX,
    ensures
        res.0 == field_layout(*t).0,
        res.1 == field_layout(*t).1,
    decreases t,
{
    match t {
        RsArgsValue::I32(number) => {
            let basic = match BasicDataType::try_from(*number) {
                Ok(b) => b,
                Err(_) => {
                    proof {
                        assert(false);
                    }
                    BasicDataType::Void
                },
            };
            match basic {
                BasicDataType::U8 => get_size_align::<u8>(),
                BasicDataType::I16 => get_size_align::<i16>(),
                BasicDataType::I32 => get_size_align::<i32>(),
                BasicDataType::U32 => get_size_align::<u32>(),
                BasicDataType::I64 | BasicDataType::BigInt => get_size_align::<i64>(),
                BasicDataType::U64 => get_size_align::<u64>(),
                BasicDataType::Float => get_size_align::<u32>(),
                BasicDataType::Double => get_size_align::<u64>(),
                BasicDataType::String | BasicDataType::WString | BasicDataType::External => {
                    get_size_align::<usize>()
                },
                BasicDataType::Boolean => get_size_align::<bool>(),
                BasicDataType::Void => get_size_align::<()>(),
            }
        },
        RsArgsValue::Object(obj) => {
            let tag = get_ffi_tag(obj);
            if tag == FFITypeTag::StackArray {
                let desc = get_array_desc(obj);
                let (type_size, type_align) = match desc.array_type {
                    RefDataType::U8Array => get_size_align::<u8>(),
                    RefDataType::I16Array => get_size_align::<i16>(),
                    RefDataType::I32Array => get_size_align::<i32>(),
                    RefDataType::FloatArray => get_size_align::<u32>(),
                    RefDataType::DoubleArray => get_size_align::<u64>(),
                    RefDataType::StringArray => get_size_align::<usize>(),
                    RefDataType::StructArray => match desc.struct_item_type {
                        Some(item) => {
                            if get_ffi_tag(item) == FFITypeTag::StackStruct {
                                proof {
                                    lemma_lookup_decreases(
                                        obj@,
                                        crate::define::ARRAY_STRUCT_ITEM_TYPE_TAG@,
                                    );
                                    assert(decreases_to!(RsArgsValue::Object(*item) => *item));
                                }
                                calculate_struct_size(item)
                            } else {
                                get_size_align::<usize>()
                            }
                        },
                        None => {
                            proof {
                                assert(false);
                            }
                            (0, 1)
                        },
                    },
                };
                (type_size * desc.array_len, type_align)
            } else if tag == FFITypeTag::StackStruct {
                calculate_struct_size(obj)
            } else {
                get_size_align::<usize>()
            }
        },
        _ => {
            proof {
                assert(false);
            }
            (0, 1)
        },
    }
}

/// (size, alignment) of a struct description (see `struct_layout`): fields in order,
/// each at the next multiple of its alignment, the tag skipped, the size rounded up to a
/// multiple of the largest alignment.
pub fn calculate_struct_size(struct_type: &FieldList) -> (res: (usize, usize))
    requires
        valid_fields(struct_type@),
        struct_layout(struct_type@).0 <= usize::MAX,
    ensures
        res.0 == struct_layout(struct_type@).0,
        res.1 == struct_layout(struct_type@).1,
    decreases struct_type,
{
    let mut size: usize = 0;
    let mut align: usize = 0;
    let mut offset: usize = 0;
    let mut i: usize = 0;
    proof {
        assert(struct_type@.subrange(0, 0) =~= Seq::<(String, RsArgsValue)>::empty());
        lemma_fields_layout_nonneg(struct_type@);
        lemma_round_up_ge(fields_layout(struct_type@).0, fields_layout(struct_type@).1);
    }
    while i < struct_type.len()
        invariant
            0 <= i <= struct_type.len(),
            valid_fields(struct_type@),
            fields_layout(struct_type@).0 <= usize::MAX,
            offset == size,
            size as int == fields_layout(struct_type@.subrange(0, i as int)).0,
            align as int == fields_layout(struct_type@.subrange(0, i as int)).1,
        decreases struct_type.len() - i,
    {
        let field = &struct_type[i];
        proof {
            lemma_fields_layout_step(struct_type@, i as int);
            lemma_fields_layout_mono(struct_type@, i as int + 1);
        }
        if !key_is(&field.0, FFI_TAG_FIELD) {
            proof {
                lemma_valid_fields_elem(struct_type@, i as int);
                lemma_field_layout_valid(field.1);
                assert(decreases_to!(*struct_type => struct_type[i as int]));
                assert(decreases_to!(struct_type[i as int] => struct_type[i as int].1));
            }
            let (type_size, type_align) = field_size_align(&field.1);
            let placed = calculate_layout_for(size, align, offset, type_size, type_align);
            size = placed.0;
            align = placed.1;
            offset = placed.2;
        }
        i = i + 1;
    }
    proof {
        assert(struct_type@.subrange(0, i as int) =~= struct_type@);
    }
    if align > 0 && size % align != 0 {
        size = size + (align - size % align);
    }
    (size, align)
}


/// Where field `i` of a struct description starts, relative to the struct's start:
/// after the fields before it, padded up to its alignment (the tag takes no room and
/// starts where the next field may begin).
pub open spec fn field_offset(fields: Seq<(String, RsArgsValue)>, i: int) -> int {
    let acc = fields_layout(fields.subrange(0, i));
    if is_tag_field(fields[i]) {
        acc.0
    } else {
        acc.0 + padding(acc.0, field_layout(fields[i].1).1)
    }
}

/// Padding brings an offset to a multiple of the alignment, and is less than the alignment.
pub proof fn lemma_padding(offset: int, align: int)
    requires
        offset >= 0,
        align > 0,
    ensures
        0 <= padding(offset, align) < align,
        (offset + padding(offset, align)) % align == 0,
{
    let r = offset % align;
    assert(0 <= r < align);
    if r == 0 {
        assert(padding(offset, align) == 0) by {
            vstd::arithmetic::div_mod::lemma_mod_self_0(align);
        }
    } else {
        assert((align - r) % align == align - r) by {
            vstd::arithmetic::div_mod::lemma_small_mod((align - r) as nat, align as nat);
        }
        assert((offset + (align - r)) % align == 0) by {
            vstd::arithmetic::div_mod::lemma_fundamental_div_mod(offset, align);
            let q = offset / align;
            assert(offset + (align - r) == (q + 1) * align) by (nonlinear_arith)
                requires
                    offset == align * q + r,
            ;
            vstd::arithmetic::div_mod::lemma_mod_multiples_basic(q + 1, align);
        }
    }
}

/// Rounding up gives a multiple of a positive alignment.
pub proof fn lemma_round_up_multiple(size: int, align: int)
    requires
        size >= 0,
        align > 0,
    ensures
        round_up(size, align) % align == 0,
        size <= round_up(size, align) < size + align,
{
    lemma_padding(size, align);
    if size % align != 0 {
        assert(padding(size, align) == align - size % align) by {
            vstd::arithmetic::div_mod::lemma_small_mod(
                (align - size % align) as nat,
                align as nat,
            );
        }
    } else {
        vstd::arithmetic::div_mod::lemma_small_mod(0, align as nat);
    }
}

/// Law: a struct's size is a multiple of its alignment.
pub proof fn lemma_struct_size_multiple_of_align(fields: Seq<(String, RsArgsValue)>)
    requires
        valid_fields(fields),
        struct_layout(fields).1 > 0,
    ensures
        struct_layout(fields).0 % struct_layout(fields).1 == 0,
{
    lemma_fields_layout_nonneg(fields);
    lemma_round_up_multiple(fields_layout(fields).0, fields_layout(fields).1);
}

/// Law: every field of a struct starts at a multiple of its own alignment.
pub proof fn lemma_field_offset_aligned(fields: Seq<(String, RsArgsValue)>, i: int)
    requires
        valid_fields(fields),
        0 <= i < fields.len(),
        !is_tag_field(fields[i]),
    ensures
        field_offset(fields, i) % field_layout(fields[i].1).1 == 0,
{
    lemma_valid_fields_elem(fields, i);
    lemma_field_layout_valid(fields[i].1);
    lemma_valid_fields_prefix(fields, i);
    lemma_fields_layout_nonneg(fields.subrange(0, i));
    lemma_padding(fields_layout(fields.subrange(0, i)).0, field_layout(fields[i].1).1);
}

/// A field ends where the fields up to and including it end.
proof fn lemma_field_end(fields: Seq<(String, RsArgsValue)>, i: int)
    requires
        valid_fields(fields),
        0 <= i < fields.len(),
        !is_tag_field(fields[i]),
    ensures
        field_offset(fields, i) + field_layout(fields[i].1).0 == fields_layout(
            fields.subrange(0, i + 1),
        ).0,
        field_offset(fields, i) >= fields_layout(fields.subrange(0, i)).0,
{
    lemma_fields_layout_step(fields, i);
    lemma_valid_fields_elem(fields, i);
    lemma_field_layout_valid(fields[i].1);
    lemma_valid_fields_prefix(fields, i);
    lemma_fields_layout_nonneg(fields.subrange(0, i));
    lemma_padding(fields_layout(fields.subrange(0, i)).0, field_layout(fields[i].1).1);
}

/// Law: fields do not overlap; a field ends no later than any later field starts.
pub proof fn lemma_fields_disjoint(fields: Seq<(String, RsArgsValue)>, i: int, j: int)
    requires
        valid_fields(fields),
        0 <= i < j < fields.len(),
        !is_tag_field(fields[i]),
    ensures
        field_offset(fields, i) + field_layout(fields[i].1).0 <= field_offset(fields, j),
{
    lemma_field_end(fields, i);
    let pre = fields.subrange(0, j);
    lemma_valid_fields_prefix(fields, j);
    lemma_fields_layout_mono(pre, i + 1);
    assert(pre.subrange(0, i + 1) =~= fields.subrange(0, i + 1));
    if !is_tag_field(fields[j]) {
        lemma_field_end(fields, j);
    }
}

/// Law: every field lies within the struct.
pub proof fn lemma_field_within_struct(fields: Seq<(String, RsArgsValue)>, i: int)
    requires
        valid_fields(fields),
        0 <= i < fields.len(),
        !is_tag_field(fields[i]),
    ensures
        0 <= field_offset(fields, i),
        field_offset(fields, i) + field_layout(fields[i].1).0 <= struct_layout(fields).0,
{
    lemma_field_end(fields, i);
    lemma_fields_layout_mono(fields, i + 1);
    lemma_valid_fields_prefix(fields, i);
    lemma_fields_layout_nonneg(fields.subrange(0, i));
    lemma_round_up_ge(fields_layout(fields).0, fields_layout(fields).1);
}

/// Law: a struct is aligned at least as strictly as each of its fields.
pub proof fn lemma_struct_align_covers_fields(fields: Seq<(String, RsArgsValue)>, i: int)
    requires
        valid_fields(fields),
        0 <= i < fields.len(),
        !is_tag_field(fields[i]),
    ensures
        field_layout(fields[i].1).1 <= struct_layout(fields).1,
{
    lemma_fields_layout_step(fields, i);
    lemma_fields_layout_mono(fields, i + 1);
}

/// Where each field of a struct description starts (see `field_offset`), in field order.
pub fn field_offsets(struct_type: &FieldList) -> (res: Vec<usize>)
    requires
        valid_fields(struct_type@),
        struct_layout(struct_type@).0 <= usize::MAX,
    ensures
        res@.len() == struct_type@.len(),
        forall|i: int| 0 <= i < struct_type@.len() ==> res@[i] as int == field_offset(struct_type@, i),
{
    let mut res: Vec<usize> = Vec::new();
    let mut size: usize = 0;
    let mut align: usize = 0;
    let mut offset: usize = 0;
    let mut i: usize = 0;
    proof {
        assert(struct_type@.subrange(0, 0) =~= Seq::<(String, RsArgsValue)>::empty());
        lemma_fields_layout_nonneg(struct_type@);
        lemma_round_up_ge(fields_layout(struct_type@).0, fields_layout(struct_type@).1);
    }
    while i < struct_type.len()
        invariant
            0 <= i <= struct_type.len(),
            valid_fields(struct_type@),
            fields_layout(struct_type@).0 <= usize::MAX,
            offset == size,
            size as int == fields_layout(struct_type@.subrange(0, i as int)).0,
            align as int == fields_layout(struct_type@.subrange(0, i as int)).1,
            res@.len() == i,
            forall|j: int| 0 <= j < i ==> res@[j] as int == field_offset(struct_type@, j),
        decreases struct_type.len() - i,
    {
        let field = &struct_type[i];
        proof {
            lemma_fields_layout_step(struct_type@, i as int);
            lemma_fields_layout_mono(struct_type@, i as int + 1);
        }
        if !key_is(&field.0, FFI_TAG_FIELD) {
            proof {
                lemma_valid_fields_elem(struct_type@, i as int);
                lemma_field_layout_valid(field.1);
                lemma_field_end(struct_type@, i as int);
            }
            let (type_size, type_align) = field_size_align(&field.1);
            let placed = calculate_layout_for(size, align, offset, type_size, type_align);
            res.push(placed.2 - type_size);
            size = placed.0;
            align = placed.1;
            offset = placed.2;
        } else {
            res.push(offset);
        }
        i = i + 1;
    }
    res
}


/// Validity of the fields up to `i + 1` follows from that of the fields up to `i` and of
/// field `i` (see `valid_fields`).
pub proof fn lemma_valid_fields_step(fields: Seq<(String, RsArgsValue)>, i: int)
    requires
        0 <= i < fields.len(),
    ensures
        valid_fields(fields.subrange(0, i + 1)) == (valid_fields(fields.subrange(0, i)) && (
        is_tag_field(fields[i]) || valid_field_type(fields[i].1))),
{
    let t = fields.subrange(0, i + 1);
    assert(t.subrange(0, i) =~= fields.subrange(0, i));
    assert(t[i] == fields[i]);
}

/// Whether an array descriptor can be read (see `array_desc_readable`).
pub fn check_array_desc(obj: &FieldList) -> (res: bool)
    ensures
        res == array_desc_readable(obj@),
{
    if map_get(obj, ARRAY_LENGTH_TAG).is_none() {
        return false;
    }
    match map_get(obj, ARRAY_TYPE_TAG) {
        Some(RsArgsValue::I32(n)) => RefDataType::try_from(*n).is_ok(),
        Some(_) => {
            proof {
                assert(!is_ref_code(0));
            }
            false
        },
        None => false,
    }
}

/// The layout of a field type where it is valid and its size fits a `usize`
/// (see `field_layout`); `None` otherwise.
pub fn checked_field_size_align(t: &RsArgsValue) -> (res: Option<(usize, usize)>)
    ensures
        res is Some <==> valid_field_type(*t) && field_layout(*t).0 <= usize::MAX,
        res matches Some(r) ==> r.0 == field_layout(*t).0 && r.1 == field_layout(*t).1,
    decreases t,
{
    match t {
        RsArgsValue::I32(number) => {
            if BasicDataType::try_from(*number).is_err() {
                return None;
            }
            proof {
                lemma_field_layout_valid(*t);
            }
            Some(field_size_align(t))
        },
        RsArgsValue::Object(obj) => {
            let tag = get_ffi_tag(obj);
            if tag == FFITypeTag::StackArray {
                if !check_array_desc(obj) {
                    return None;
                }
                let desc = get_array_desc(obj);
                let elem: (usize, usize) = match desc.array_type {
                    RefDataType::U8Array => get_size_align::<u8>(),
                    RefDataType::I16Array => get_size_align::<i16>(),
                    RefDataType::I32Array => get_size_align::<i32>(),
                    RefDataType::FloatArray => get_size_align::<u32>(),
                    RefDataType::DoubleArray => get_size_align::<u64>(),
                    RefDataType::StringArray => get_size_align::<usize>(),
                    RefDataType::StructArray => match desc.struct_item_type {
                        Some(item) => {
                            if get_ffi_tag(item) == FFITypeTag::StackStruct {
                                proof {
                                    lemma_lookup_decreases(
                                        obj@,
                                        crate::define::ARRAY_STRUCT_ITEM_TYPE_TAG@,
                                    );
                                    assert(decreases_to!(RsArgsValue::Object(*item) => *item));
                                }
                                match checked_struct_size(item) {
                                    Some(l) => {
                                        if l.1 == 0 {
                                            return None;
                                        }
                                        l
                                    },
                                    None => {
                                        return None;
                                    },
                                }
                            } else {
                                get_size_align::<usize>()
                            }
                        },
                        None => {
                            return None;
                        },
                    },
                };
                match elem.0.checked_mul(desc.array_len) {
                    Some(size) => Some((size, elem.1)),
                    None => None,
                }
            } else if tag == FFITypeTag::StackStruct {
                match checked_struct_size(obj) {
                    Some(l) => {
                        if l.1 == 0 {
                            None
                        } else {
                            Some(l)
                        }
                    },
                    None => None,
                }
            } else {
                Some(get_size_align::<usize>())
            }
        },
        _ => None,
    }
}

/// The layout of a struct description where it is valid and its size fits a `usize`
/// (see `struct_layout`); `None` otherwise.
pub fn checked_struct_size(struct_type: &FieldList) -> (res: Option<(usize, usize)>)
    ensures
        res is Some <==> valid_fields(struct_type@) && struct_layout(struct_type@).0 <= usize::MAX,
        res matches Some(r) ==> r.0 == struct_layout(struct_type@).0 && r.1 == struct_layout(
            struct_type@,
        ).1,
    decreases struct_type,
{
    let mut size: usize = 0;
    let mut align: usize = 0;
    let mut i: usize = 0;
    proof {
        assert(struct_type@.subrange(0, 0) =~= Seq::<(String, RsArgsValue)>::empty());
    }
    while i < struct_type.len()
        invariant
            0 <= i <= struct_type.len(),
            valid_fields(struct_type@.subrange(0, i as int)),
            size as int == fields_layout(struct_type@.subrange(0, i as int)).0,
            align as int == fields_layout(struct_type@.subrange(0, i as int)).1,
        decreases struct_type.len() - i,
    {
        let field = &struct_type[i];
        proof {
            lemma_fields_layout_step(struct_type@, i as int);
            lemma_valid_fields_step(struct_type@, i as int);
            lemma_fields_layout_nonneg(struct_type@.subrange(0, i as int));
        }
        if !key_is(&field.0, FFI_TAG_FIELD) {
            proof {
                assert(decreases_to!(*struct_type => struct_type[i as int]));
                assert(decreases_to!(struct_type[i as int] => struct_type[i as int].1));
            }
            let (type_size, type_align) = match checked_field_size_align(&field.1) {
                Some(l) => l,
                None => {
                    proof {
                        if valid_fields(struct_type@) {
                            lemma_valid_fields_elem(struct_type@, i as int);
                            lemma_field_within_struct(struct_type@, i as int);
                        }
                    }
                    return None;
                },
            };
            proof {
                lemma_field_layout_valid(field.1);
                lemma_padding(size as int, type_align as int);
            }
            let pad = (type_align - (size % type_align)) % type_align;
            let next = match size.checked_add(pad) {
                Some(a) => match a.checked_add(type_size) {
                    Some(b) => b,
                    None => {
                        proof {
                            if valid_fields(struct_type@) {
                                lemma_fields_layout_mono(struct_type@, i as int + 1);
                                lemma_round_up_ge(
                                    fields_layout(struct_type@).0,
                                    fields_layout(struct_type@).1,
                                );
                            }
                        }
                        return None;
                    },
                },
                None => {
                    proof {
                        if valid_fields(struct_type@) {
                            lemma_fields_layout_mono(struct_type@, i as int + 1);
                            lemma_round_up_ge(
                                fields_layout(struct_type@).0,
                                fields_layout(struct_type@).1,
                            );
                        }
                    }
                    return None;
                },
            };
            size = next;
            if type_align > align {
                align = type_align;
            }
        }
        i = i + 1;
    }
    proof {
        assert(struct_type@.subrange(0, i as int) =~= struct_type@);
    }
    if align > 0 && size % align != 0 {
        match size.checked_add(align - size % align) {
            Some(s) => Some((s, align)),
            None => None,
        }
    } else {
        Some((size, align))
    }
}

/// Law: a scalar field of a struct takes the size and alignment of the Rust type its value
/// is read and written as: a byte or boolean 1 byte, a 16-bit integer 2, a 32-bit integer
/// or float 4, a 64-bit integer, big integer or double 8, a string, wide string or
/// external pointer the width of a pointer, and void nothing.
pub proof fn lemma_scalar_field_layout(code: i32)
    requires
        crate::define::is_basic_code(code as int),
    ensures
        ({
            let l = field_layout(RsArgsValue::I32(code));
            match basic_data_type_from_code(code as int) {
                Some(BasicDataType::U8) => l == (1int, align_of::<u8>() as int),
                Some(BasicDataType::Boolean) => l == (1int, align_of::<bool>() as int),
                Some(BasicDataType::I16) => l == (2int, align_of::<i16>() as int),
                Some(BasicDataType::I32) => l == (4int, align_of::<i32>() as int),
                Some(BasicDataType::U32) => l == (4int, align_of::<u32>() as int),
                Some(BasicDataType::Float) => l == (4int, align_of::<u32>() as int),
                Some(BasicDataType::I64) => l == (8int, align_of::<i64>() as int),
                Some(BasicDataType::BigInt) => l == (8int, align_of::<i64>() as int),
                Some(BasicDataType::U64) => l == (8int, align_of::<u64>() as int),
                Some(BasicDataType::Double) => l == (8int, align_of::<u64>() as int),
                Some(BasicDataType::String) => l == (
                    size_of::<usize>() as int,
                    align_of::<usize>() as int,
                ),
                Some(BasicDataType::WString) => l == (
                    size_of::<usize>() as int,
                    align_of::<usize>() as int,
                ),
                Some(BasicDataType::External) => l == (
                    size_of::<usize>() as int,
                    align_of::<usize>() as int,
                ),
                Some(BasicDataType::Void) => l == (0int, 1int),
                None => false,
            }
        }),
{
    broadcast use vstd::layout::layout_of_primitives, vstd::layout::layout_of_unit_tuple;

}

} // verus!
