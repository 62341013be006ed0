use crate::text::chars_of;
use vstd::prelude::*;

verus! {

/// Whether `s` holds a nul character anywhere but at its very end.
pub open spec fn has_inner_nul(s: Seq<char>) -> bool {
    exists|i: int| 0 <= i < s.len() - 1 && s[i] == '\0'
}

/// The characters of `s`, without a nul that ends it.
pub open spec fn without_final_nul(s: Seq<char>) -> Seq<char> {
    if s.len() > 0 && s.last() == '\0' {
        s.drop_last()
    } else {
        s
    }
}

/// The 32-bit wide character that stands for `c`: its code point.
pub open spec fn wide_char_of(c: char) -> u32 {
    c as u32
}

/// The nul-terminated UTF-32 wide C string of `s`: the code points of its characters (a nul
/// that ends `s` is the terminator itself), then a nul.
pub open spec fn wide_c_units(s: Seq<char>) -> Seq<u32> {
    without_final_nul(s).map_values(|c: char| wide_char_of(c)).push(0)
}

/// Whether `u` is the code point of a character (a Unicode scalar value).
pub open spec fn is_scalar_value(u: int) -> bool {
    (0 <= u < 0xD800) || (0xE000 <= u <= 0x10FFFF)
}

/// The character that a wide character is read as: the character of that code point, or
/// U+FFFD where it is none.
pub open spec fn lossy_char(u: u32) -> char {
    if is_scalar_value(u as int) {
        u as char
    } else {
        '\u{FFFD}'
    }
}

/// Calls widestring's `U32CString::from_str` (32-bit units, the width of `wchar_t` off
/// Windows), which encodes each character of `s` as its code point and refuses a nul that
/// does not end `s`, and hands back the units with
/// their terminating nul (`into_vec_with_nul`).
#[verifier::external_body]
fn wide_c_string_units(s: &str) -> (res: Option<Vec<u32>>)
    ensures
        res is Some <==> !has_inner_nul(s@),
        res matches Some(v) ==> v@ == wide_c_units(s@),
{
    match widestring::U32CString::from_str(s) {
        Ok(w) => Some(w.into_vec_with_nul()),
        Err(_) => None,
    }
}

/// Calls widestring's `U32Str::from_slice(units).to_string_lossy()` (32-bit units),
/// which reads each unit as the character of that code point, or U+FFFD where it is none.
#[verifier::external_body]
fn lossy_wide_string(units: &[u32]) -> (res: String)
    ensures
        res@ == units@.map_values(|u: u32| lossy_char(u)),
{
    widestring::U32Str::from_slice(units).to_string_lossy()
}

/// The nul-terminated wide C string of `s` (see `wide_c_units`). `s` holds no nul but,
/// perhaps, one that ends it.
pub fn string_to_c_w_string(s: String) -> (res: Vec<u32>)
    requires
        !has_inner_nul(s@),
    ensures
        res@ == wide_c_units(s@),
{
    match wide_c_string_units(s.as_str()) {
        Some(units) => units,
        None => {
            proof {
                assert(false);
            }
            Vec::new()
        },
    }
}

/// Whether `s` can be made a wide C string (the precondition of `string_to_c_w_string`).
pub fn can_be_c_w_string(s: &str) -> (res: bool)
    ensures
        res == !has_inner_nul(s@),
{
    let chars = chars_of(s);
    let n = chars.len();
    let mut i: usize = 0;
    while i < n && n - i > 1
        invariant
            chars@ == s@,
            n == chars@.len(),
            0 <= i <= n,
            forall|j: int| 0 <= j < i ==> chars@[j] != '\0',
        decreases n - i,
    {
        if chars[i] == '\0' {
            return false;
        }
        i = i + 1;
    }
    true
}

/// The text of the wide characters of a wide C string, its terminator left out: each
/// unit read as the character of that code point, or U+FFFD where it is none.
pub fn create_c_w_string_from_units(units: &[u32]) -> (res: String)
    ensures
        res@ == units@.map_values(|u: u32| lossy_char(u)),
{
    lossy_wide_string(units)
}

/// Law: the text read back from the wide C string of `s`, its terminator left out, is `s`
/// without a nul that ends it.
pub proof fn lemma_wide_string_round_trip(s: Seq<char>)
    ensures
        wide_c_units(s).drop_last().map_values(|u: u32| lossy_char(u)) == without_final_nul(s),
{
    let t = without_final_nul(s);
    let units = wide_c_units(s);
    assert(units.drop_last() =~= t.map_values(|c: char| wide_char_of(c)));
    assert forall|i: int| 0 <= i < t.len() implies lossy_char(wide_char_of(#[trigger] t[i])) == t[i] by {
        let c = t[i];
        vstd::utf8::char_is_scalar(c);
        vstd::utf8::char_u32_cast(c, c as u32);
    }
    assert(units.drop_last().map_values(|u: u32| lossy_char(u)) =~= t);
}

} // verus!
