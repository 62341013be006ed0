use vstd::prelude::*;

verus! {

/// The character of a decimal digit `d` (0 to 9).
pub open spec fn digit_char(d: nat) -> char {
    ('0' as int + d) as char
}

/// Decimal digits of a natural number, most significant first, without leading zeros.
pub open spec fn decimal_digits(n: nat) -> Seq<char>
    decreases n,
{
    if n < 10 {
        seq![digit_char(n)]
    } else {
        decimal_digits(n / 10).push(digit_char(n % 10))
    }
}

/// Decimal text of an integer: an optional minus sign, then its digits.
pub open spec fn decimal_text(v: int) -> Seq<char> {
    if v < 0 {
        seq!['-'] + decimal_digits((-v) as nat)
    } else {
        decimal_digits(v as nat)
    }
}

/// What `{:?}` prints for a string: the text in double quotes, with special
/// characters escaped.
pub uninterp spec fn debug_text(s: Seq<char>) -> Seq<char>;

/// The one-character text of the decimal digit `d`.
fn digit_str(d: u64) -> (res: &'static str)
    requires
        d < 10,
    ensures
        res@ == seq![digit_char(d as nat)],
{
    proof {
        reveal_strlit("0");
        reveal_strlit("1");
        reveal_strlit("2");
        reveal_strlit("3");
        reveal_strlit("4");
        reveal_strlit("5");
        reveal_strlit("6");
        reveal_strlit("7");
        reveal_strlit("8");
        reveal_strlit("9");
    }
    if d == 0 {
        "0"
    } else if d == 1 {
        "1"
    } else if d == 2 {
        "2"
    } else if d == 3 {
        "3"
    } else if d == 4 {
        "4"
    } else if d == 5 {
        "5"
    } else if d == 6 {
        "6"
    } else if d == 7 {
        "7"
    } else if d == 8 {
        "8"
    } else {
        "9"
    }
}

/// Appends the decimal digits of `n` to `out`.
fn append_digits(out: &mut String, n: u64)
    ensures
        final(out)@ == old(out)@ + decimal_digits(n as nat),
    decreases n,
{
    if n >= 10 {
        append_digits(out, n / 10);
    }
    out.append(digit_str(n % 10));
    proof {
        if n >= 10 {
            assert(out@ =~= old(out)@ + decimal_digits((n / 10) as nat).push(
                digit_char((n % 10) as nat),
            ));
        } else {
            assert(out@ =~= old(out)@ + decimal_digits(n as nat));
        }
    }
}

/// The decimal text of `v`: a minus sign for a negative number, then its digits.
pub(crate) fn decimal_string(v: i32) -> (res: String)
    ensures
        res@ == decimal_text(v as int),
{
    let mut res = String::new();
    let magnitude: u64 = if v < 0 {
        proof {
            reveal_strlit("-");
        }
        res.append("-");
        (0i64 - (v as i64)) as u64
    } else {
        v as u64
    };
    append_digits(&mut res, magnitude);
    proof {
        if v < 0 {
            assert(res@ =~= seq!['-'] + decimal_digits((-v) as nat));
        }
    }
    res
}

/// Calls std's `Debug` formatting of a `str` (`format!("{:?}", s)`); its result is
/// named `debug_text`.
#[verifier::external_body]
pub(crate) fn debug_string(s: &str) -> (res: String)
    ensures
        res@ == debug_text(s@),
{
    format!("{:?}", s)
}

/// `s` followed by `t`, as a new string.
pub fn concat(s: &str, t: &str) -> (res: String)
    ensures
        res@ == s@ + t@,
{
    let mut res = String::from_str(s);
    res.append(t);
    res
}

/// Whether `needle` occurs in `text` as a contiguous piece.
pub open spec fn contains_text(text: Seq<char>, needle: Seq<char>) -> bool {
    exists|i: int|
        0 <= i && i + needle.len() <= text.len() && #[trigger] text.subrange(i, i + needle.len())
            == needle
}


/// The characters of `s`, in order.
pub fn chars_of(s: &str) -> (res: Vec<char>)
    ensures
        res@ == s@,
{
    let n = s.unicode_len();
    let mut res: Vec<char> = Vec::new();
    let mut i: usize = 0;
    while i < n
        invariant
            n == s@.len(),
            0 <= i <= n,
            res@ == s@.subrange(0, i as int),
        decreases n - i,
    {
        res.push(s.get_char(i));
        i = i + 1;
        proof {
            assert(res@ =~= s@.subrange(0, i as int));
        }
    }
    proof {
        assert(res@ =~= s@);
    }
    res
}

/// Whether `needle` occurs in `text` starting at position `start`.
fn occurs_at(text: &Vec<char>, needle: &Vec<char>, start: usize) -> (res: bool)
    requires
        start + needle@.len() <= text@.len(),
    ensures
        res == (text@.subrange(start as int, start + needle@.len()) == needle@),
{
    let tl = text.len();
    let mut j: usize = 0;
    while j < needle.len()
        invariant
            tl == text@.len(),
            start + needle@.len() <= text@.len(),
            0 <= j <= needle@.len(),
            forall|k: int| 0 <= k < j ==> text@[start + k] == needle@[k],
        decreases needle@.len() - j,
    {
        if text[start + j] != needle[j] {
            proof {
                assert(text@.subrange(start as int, start + needle@.len())[j as int] != needle@[j as int]);
            }
            return false;
        }
        j = j + 1;
    }
    proof {
        assert(text@.subrange(start as int, start + needle@.len()) =~= needle@);
    }
    true
}

/// Whether `needle` occurs in `text` as a contiguous piece (`str::contains`).
pub fn contains_str(text: &str, needle: &str) -> (res: bool)
    ensures
        res == contains_text(text@, needle@),
{
    let t = chars_of(text);
    let n = chars_of(needle);
    if n.len() > t.len() {
        return false;
    }
    let last = t.len() - n.len();
    let mut start: usize = 0;
    while start <= last
        invariant
            t@ == text@,
            n@ == needle@,
            last == t@.len() - n@.len(),
            start <= last + 1,
            forall|i: int| 0 <= i < start ==> #[trigger] text@.subrange(i, i + needle@.len()) != needle@,
        decreases last + 1 - start,
    {
        if occurs_at(&t, &n, start) {
            return true;
        }
        if start == last {
            return false;
        }
        start = start + 1;
    }
    false
}

} // verus!
