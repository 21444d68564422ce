//! Byte-level text helpers: reading the decimal byte offset out of a node's
//! span marker (the digits before the first colon), and the exact and
//! case-insensitive name comparisons the analyses use.
use vstd::prelude::*;
use vstd::string::StringSliceAdditionalSpecFns;
use vstd::utf8::encode_utf8;

verus! {

/// The UTF-8 bytes of a string value, the form the byte-level comparisons
/// below are stated over.
pub open spec fn spec_str_bytes(s: Seq<char>) -> Seq<u8> {
    encode_utf8(s)
}

pub open spec fn spec_is_digit(b: u8) -> bool {
    48 <= b <= 57
}

/// The value of a big-endian decimal digit string.
pub open spec fn spec_digits_value(s: Seq<u8>) -> int
    decreases s.len(),
{
    if s.len() == 0 {
        0
    } else {
        spec_digits_value(s.drop_last()) * 10 + (s.last() - 48)
    }
}

/// How many bytes precede the first colon (the whole length when there is
/// none).
pub open spec fn spec_colon_pos(s: Seq<u8>) -> int
    decreases s.len(),
{
    if s.len() == 0 {
        0
    } else if s[0] == 58 {
        0
    } else {
        1 + spec_colon_pos(s.skip(1))
    }
}

/// The byte offset a span marker starts with: the decimal digits before the
/// first colon, defined when they are non-empty, all digits, and fit a usize.
pub open spec fn spec_span_offset(s: Seq<u8>) -> Option<int> {
    let prefix = s.take(spec_colon_pos(s));
    if prefix.len() > 0 && (forall|i: int| 0 <= i < prefix.len() ==> spec_is_digit(prefix[i]))
        && spec_digits_value(prefix) <= usize::MAX {
        Some(spec_digits_value(prefix))
    } else {
        None
    }
}

proof fn lemma_colon_pos_determined(s: Seq<u8>, n: int)
    requires
        0 <= n <= s.len(),
        forall|j: int| 0 <= j < n ==> s[j] != 58,
        n < s.len() ==> s[n] == 58,
    ensures
        spec_colon_pos(s) == n,
    decreases s.len(),
{
    if s.len() != 0 && s[0] != 58 {
        assert(n >= 1);
        assert forall|j: int| 0 <= j < n - 1 implies s.skip(1)[j] != 58 by {
            assert(s.skip(1)[j] == s[j + 1]);
        }
        if n - 1 < s.skip(1).len() {
            assert(s.skip(1)[n - 1] == s[n]);
        }
        lemma_colon_pos_determined(s.skip(1), n - 1);
    }
}

proof fn lemma_digits_value_nonneg(s: Seq<u8>)
    requires
        forall|i: int| 0 <= i < s.len() ==> spec_is_digit(s[i]),
    ensures
        spec_digits_value(s) >= 0,
    decreases s.len(),
{
    if s.len() != 0 {
        assert(forall|i: int|
            0 <= i < s.drop_last().len() ==> spec_is_digit(#[trigger] s.drop_last()[i]));
        lemma_digits_value_nonneg(s.drop_last());
    }
}

/// Appending digits to a digit string never shrinks its value.
proof fn lemma_digits_value_monotonic(s: Seq<u8>, k: int)
    requires
        forall|i: int| 0 <= i < s.len() ==> spec_is_digit(s[i]),
        0 <= k <= s.len(),
    ensures
        spec_digits_value(s) >= spec_digits_value(s.take(k)),
    decreases s.len(),
{
    if k < s.len() {
        assert(forall|i: int|
            0 <= i < s.drop_last().len() ==> spec_is_digit(#[trigger] s.drop_last()[i]));
        lemma_digits_value_monotonic(s.drop_last(), k);
        assert(s.drop_last().take(k) =~= s.take(k));
        lemma_digits_value_nonneg(s.drop_last());
        assert(spec_digits_value(s) >= spec_digits_value(s.drop_last()));
    } else {
        assert(s.take(k) =~= s);
    }
}

/// Reads the decimal byte offset off the front of a span marker such as
/// `"141:15:0"`; `None` when the digits are missing, broken or too large.
pub fn parse_span_offset(src: &str) -> (r: Option<usize>)
    ensures
        match r {
            Some(offset) => spec_span_offset(src.spec_bytes()) == Some(offset as int),
            None => spec_span_offset(src.spec_bytes()) is None,
        },
{
    let bytes = src.as_bytes();
    let ghost s = src.spec_bytes();
    let mut n: usize = 0;
    while n < bytes.len() && bytes[n] != 58
        invariant
            s == src.spec_bytes(),
            bytes@ == s,
            n <= s.len(),
            forall|j: int| 0 <= j < n ==> s[j] != 58,
        decreases bytes.len() - n,
    {
        n = n + 1;
    }
    proof {
        lemma_colon_pos_determined(s, n as int);
    }
    let ghost prefix = s.take(n as int);
    if n == 0 {
        return None;
    }
    let mut value: usize = 0;
    let mut i: usize = 0;
    while i < n
        invariant
            s == src.spec_bytes(),
            bytes@ == s,
            0 < n <= s.len(),
            spec_colon_pos(s) == n as int,
            prefix == s.take(n as int),
            i <= n,
            forall|j: int| 0 <= j < i ==> spec_is_digit(prefix[j]),
            value == spec_digits_value(prefix.take(i as int)),
        decreases n - i,
    {
        let b = bytes[i];
        proof {
            assert(prefix[i as int] == s[i as int]);
            assert(prefix.take(i as int + 1).drop_last() =~= prefix.take(i as int));
            assert(prefix.take(i as int + 1).last() == prefix[i as int]);
        }
        if b < 48 || b > 57 {
            proof {
                assert(!spec_is_digit(prefix[i as int]));
                assert(!(forall|j: int| 0 <= j < prefix.len() ==> spec_is_digit(prefix[j])));
                assert(spec_span_offset(s) is None);
            }
            return None;
        }
        let d = (b - 48) as usize;
        if value > (usize::MAX - d) / 10 {
            proof {
                assert(spec_digits_value(prefix.take(i as int + 1)) == value * 10 + d);
                assert(value * 10 + d > usize::MAX) by {
                    assert(value >= (usize::MAX - d) / 10 + 1);
                    assert(((usize::MAX - d) / 10 + 1) * 10 == ((usize::MAX - d) / 10) * 10 + 10);
                    assert(((usize::MAX - d) / 10) * 10 + 10 > usize::MAX - d);
                };
                if forall|j: int| 0 <= j < prefix.len() ==> spec_is_digit(prefix[j]) {
                    lemma_digits_value_monotonic(prefix, i as int + 1);
                    assert(spec_digits_value(prefix) > usize::MAX);
                }
                assert(spec_span_offset(s) is None);
            }
            return None;
        }
        value = value * 10 + d;
        i = i + 1;
    }
    proof {
        assert(prefix.take(n as int) =~= prefix);
    }
    Some(value)
}

/// The byte with any ASCII upper-case letter folded to lower case.
pub open spec fn spec_lower_byte(b: u8) -> u8 {
    if 65 <= b <= 90 {
        (b + 32) as u8
    } else {
        b
    }
}

pub open spec fn spec_lower_bytes(s: Seq<u8>) -> Seq<u8> {
    s.map_values(|b: u8| spec_lower_byte(b))
}

/// Whether the two strings hold the same bytes.
pub fn str_eq(a: &str, b: &str) -> (r: bool)
    ensures
        r == (a.spec_bytes() == b.spec_bytes()),
{
    let ab = a.as_bytes();
    let bb = b.as_bytes();
    if ab.len() != bb.len() {
        return false;
    }
    let mut i: usize = 0;
    while i < ab.len()
        invariant
            ab@ == a.spec_bytes(),
            bb@ == b.spec_bytes(),
            ab@.len() == bb@.len(),
            i <= ab@.len(),
            forall|j: int| 0 <= j < i ==> ab@[j] == bb@[j],
        decreases ab.len() - i,
    {
        if ab[i] != bb[i] {
            return false;
        }
        i = i + 1;
    }
    proof {
        assert(a.spec_bytes() =~= b.spec_bytes());
    }
    true
}

/// Whether the two strings hold the same bytes up to ASCII case.
pub fn str_eq_ignore_ascii_case(a: &str, b: &str) -> (r: bool)
    ensures
        r == (spec_lower_bytes(a.spec_bytes()) == spec_lower_bytes(b.spec_bytes())),
{
    let ab = a.as_bytes();
    let bb = b.as_bytes();
    if ab.len() != bb.len() {
        proof {
            assert(spec_lower_bytes(a.spec_bytes()).len() == a.spec_bytes().len());
            assert(spec_lower_bytes(b.spec_bytes()).len() == b.spec_bytes().len());
        }
        return false;
    }
    let mut i: usize = 0;
    while i < ab.len()
        invariant
            ab@ == a.spec_bytes(),
            bb@ == b.spec_bytes(),
            ab@.len() == bb@.len(),
            i <= ab@.len(),
            forall|j: int|
                0 <= j < i ==> spec_lower_byte(ab@[j]) == spec_lower_byte(bb@[j]),
        decreases ab.len() - i,
    {
        let mut x = ab[i];
        let mut y = bb[i];
        if 65 <= x && x <= 90 {
            x = x + 32;
        }
        if 65 <= y && y <= 90 {
            y = y + 32;
        }
        if x != y {
            proof {
                assert(spec_lower_bytes(a.spec_bytes())[i as int] == spec_lower_byte(ab@[i as int]));
                assert(spec_lower_bytes(b.spec_bytes())[i as int] == spec_lower_byte(bb@[i as int]));
                assert(spec_lower_bytes(a.spec_bytes()) != spec_lower_bytes(b.spec_bytes()));
            }
            return false;
        }
        i = i + 1;
    }
    proof {
        assert(spec_lower_bytes(a.spec_bytes()) =~= spec_lower_bytes(b.spec_bytes()));
    }
    true
}

/// Whether a state variable's name marks a getter of the same name: the names
/// are equal, or the variable's name is the function's with one leading
/// underscore.
pub open spec fn spec_getter_name_matches(variable: Seq<u8>, function: Seq<u8>) -> bool {
    variable == function || (variable.len() >= 1 && variable[0] == 95 && variable.skip(1)
        == function)
}

/// Whether the variable name names a getter called `function`, exactly or
/// with one leading underscore stripped.
pub fn getter_name_matches(variable: &str, function: &str) -> (r: bool)
    ensures
        r == spec_getter_name_matches(variable.spec_bytes(), function.spec_bytes()),
{
    if str_eq(variable, function) {
        return true;
    }
    let vb = variable.as_bytes();
    let fb = function.as_bytes();
    if vb.len() < 1 || vb[0] != 95 {
        return false;
    }
    if vb.len() - 1 != fb.len() {
        proof {
            if variable.spec_bytes().skip(1) == function.spec_bytes() {
                assert(variable.spec_bytes().skip(1).len() == function.spec_bytes().len());
            }
        }
        return false;
    }
    let mut i: usize = 0;
    while i < fb.len()
        invariant
            vb@ == variable.spec_bytes(),
            fb@ == function.spec_bytes(),
            vb@.len() == fb@.len() + 1,
            i <= fb@.len(),
            forall|j: int| 0 <= j < i ==> vb@[j + 1] == fb@[j],
        decreases fb.len() - i,
    {
        if vb[i + 1] != fb[i] {
            proof {
                assert(variable.spec_bytes().skip(1)[i as int] == vb@[i as int + 1]);
            }
            return false;
        }
        i = i + 1;
    }
    proof {
        assert(variable.spec_bytes().skip(1) =~= function.spec_bytes());
    }
    true
}

} // verus!
