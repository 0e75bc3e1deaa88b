//! Small verified string utilities shared by the gateway and dashboard
//! modules: prefix tests, substring search, decimal parsing and rendering.

use vstd::prelude::*;
use vstd::string::StrSliceExecFns;

verus! {

/// Relies on `str`'s `PartialEq`: two string slices compare equal exactly
/// when their character sequences are equal.
#[verifier::external_body]
pub fn str_eq(a: &str, b: &str) -> (r: bool)
    ensures
        r == (a@ == b@),
{
    a == b
}

/// Relies on `String::push`: appends exactly the given character.
#[verifier::external_body]
pub fn push_char(s: &mut String, c: char) -> (r: ())
    ensures
        final(s)@ == old(s)@.push(c),
{
    s.push(c)
}

/// `p` is a prefix of `s`.
pub open spec fn is_prefix(s: Seq<char>, p: Seq<char>) -> bool {
    p.len() <= s.len() && s.take(p.len() as int) == p
}

/// Whether `s` starts with `prefix`, by characters.
pub fn starts_with(s: &str, prefix: &str) -> (r: bool)
    ensures
        r == is_prefix(s@, prefix@),
{
    let n = prefix.unicode_len();
    let m = s.unicode_len();
    if n > m {
        assert(!is_prefix(s@, prefix@));
        false
    } else {
        let head = s.substring_char(0, n);
        assert(head@ == s@.take(n as int));
        str_eq(head, prefix)
    }
}

/// `needle` occurs in `s` at position `i`.
pub open spec fn occurs_at(s: Seq<char>, needle: Seq<char>, i: int) -> bool {
    0 <= i && i + needle.len() <= s.len() && s.subrange(i, i + needle.len()) == needle
}

/// Whether `needle` occurs anywhere in `s`.
pub fn contains_sub(s: &str, needle: &str) -> (r: bool)
    ensures
        r == exists|i: int| occurs_at(s@, needle@, i),
{
    let n = needle.unicode_len();
    let m = s.unicode_len();
    if n > m {
        assert(forall|i: int| !occurs_at(s@, needle@, i));
        return false;
    }
    if n == 0 {
        assert(s@.subrange(0, 0) == needle@);
        assert(occurs_at(s@, needle@, 0));
        return true;
    }
    let mut i: usize = 0;
    while i <= m - n
        invariant
            0 < n <= m,
            n == needle@.len(),
            m == s@.len(),
            i <= m - n + 1,
            forall|j: int| 0 <= j < i ==> !occurs_at(s@, needle@, j),
        decreases m - i,
    {
        let piece = s.substring_char(i, i + n);
        if str_eq(piece, needle) {
            assert(occurs_at(s@, needle@, i as int));
            return true;
        }
        assert(!occurs_at(s@, needle@, i as int));
        i = i + 1;
    }
    assert(forall|j: int| occurs_at(s@, needle@, j) ==> 0 <= j < i);
    false
}

/// Decimal digit test.
pub open spec fn is_digit(c: char) -> bool {
    '0' <= c && c <= '9'
}

/// Numeric value of a digit character.
pub open spec fn digit_val(c: char) -> nat {
    (c as nat - '0' as nat) as nat
}

/// All characters of `s` are decimal digits.
pub open spec fn all_digits(s: Seq<char>) -> bool {
    forall|i: int| 0 <= i < s.len() ==> is_digit(#[trigger] s[i])
}

/// The number denoted by a digit sequence, most significant digit first.
pub open spec fn dec_value(s: Seq<char>) -> nat
    decreases s.len(),
{
    if s.len() == 0 {
        0
    } else {
        dec_value(s.drop_last()) * 10 + digit_val(s.last())
    }
}

/// The digit portion of a numeral: everything after an optional leading
/// plus sign.
pub open spec fn numeral_digits(s: Seq<char>) -> Seq<char> {
    if s.len() > 0 && s.first() == '+' {
        s.drop_first()
    } else {
        s
    }
}

/// Parses a decimal numeral — an optional leading `+`, then one or more
/// digits — as a `u64`; anything else, and any value that does not fit,
/// yields `None`.
pub fn parse_u64(s: &str) -> (r: Option<u64>)
    ensures
        match r {
            Some(v) => numeral_digits(s@).len() > 0 && all_digits(numeral_digits(s@)) && v
                == dec_value(numeral_digits(s@)),
            None => numeral_digits(s@).len() == 0 || !all_digits(numeral_digits(s@)) || dec_value(
                numeral_digits(s@),
            ) > u64::MAX,
        },
{
    let n = s.unicode_len();
    if n == 0 {
        return None;
    }
    let start: usize = if s.get_char(0) == '+' {
        1
    } else {
        0
    };
    let ghost digits = numeral_digits(s@);
    proof {
        assert(digits =~= s@.skip(start as int));
    }
    if start == n {
        return None;
    }
    let mut acc: u64 = 0;
    let mut i: usize = start;
    while i < n
        invariant
            n == s@.len(),
            start <= i <= n,
            start <= 1,
            digits == s@.skip(start as int),
            digits == numeral_digits(s@),
            all_digits(digits.take(i - start)),
            acc == dec_value(digits.take(i - start)),
        decreases n - i,
    {
        let c = s.get_char(i);
        if c < '0' || c > '9' {
            assert(digits[i - start] == s@[i as int]);
            assert(!all_digits(digits));
            return None;
        }
        let d: u64 = (c as u32 as u64) - ('0' as u32 as u64);
        assert(digits.take(i + 1 - start).drop_last() == digits.take(i - start));
        assert(digits.take(i + 1 - start).last() == s@[i as int]);
        let scaled = match acc.checked_mul(10) {
            Some(x) => x,
            None => {
                proof {
                    lemma_dec_value_grows(digits, i + 1 - start);
                }
                return None;
            },
        };
        acc = match scaled.checked_add(d) {
            Some(x) => x,
            None => {
                proof {
                    lemma_dec_value_grows(digits, i + 1 - start);
                }
                return None;
            },
        };
        i = i + 1;
    }
    assert(digits.take(n - start) == digits);
    Some(acc)
}

/// A digit prefix's value never exceeds the whole string's value.
proof fn lemma_dec_value_grows(s: Seq<char>, i: int)
    requires
        0 <= i <= s.len(),
    ensures
        dec_value(s.take(i)) <= dec_value(s),
    decreases s.len() - i,
{
    if i < s.len() {
        lemma_dec_value_grows(s, i + 1);
        assert(s.take(i + 1).drop_last() == s.take(i));
        assert(dec_value(s.take(i)) <= dec_value(s.take(i + 1)));
    } else {
        assert(s.take(i) == s);
    }
}

/// The digit character for a value below ten.
pub open spec fn digit_char(d: nat) -> char
    recommends
        d < 10,
{
    (('0' as u8) + d) as char
}

/// The decimal rendering of `n`, most significant digit first.
pub open spec fn dec_digits(n: nat) -> Seq<char>
    decreases n,
{
    if n < 10 {
        seq![digit_char(n)]
    } else {
        dec_digits(n / 10).push(digit_char(n % 10))
    }
}

/// The whitespace characters that trimming removes: the Unicode
/// `White_Space` set (the ASCII blanks, next line, no-break space, ogham
/// space mark, the en-quad to hair-space range, the line and paragraph
/// separators, narrow no-break space, medium mathematical space, and
/// ideographic space).
pub open spec fn is_blank(c: char) -> bool {
    ('\u{09}' <= c && c <= '\u{0D}') || c == ' ' || c == '\u{85}' || c == '\u{A0}' || c
        == '\u{1680}' || ('\u{2000}' <= c && c <= '\u{200A}') || c == '\u{2028}' || c == '\u{2029}'
        || c == '\u{202F}' || c == '\u{205F}' || c == '\u{3000}'
}

/// `s` with leading and trailing whitespace removed.
pub open spec fn trim_spec(s: Seq<char>) -> Seq<char>
    decreases s.len(),
{
    if s.len() > 0 && is_blank(s.first()) {
        trim_spec(s.drop_first())
    } else if s.len() > 0 && is_blank(s.last()) {
        trim_spec(s.drop_last())
    } else {
        s
    }
}

proof fn lemma_trim_subrange(s: Seq<char>, a: int, b: int)
    requires
        0 <= a <= b <= s.len(),
        forall|i: int| 0 <= i < a ==> is_blank(#[trigger] s[i]),
        forall|i: int| b <= i < s.len() ==> is_blank(#[trigger] s[i]),
        a < b ==> !is_blank(s[a]) && !is_blank(s[b - 1]),
    ensures
        trim_spec(s) == s.subrange(a, b),
    decreases s.len(),
{
    if s.len() == 0 {
        assert(s.subrange(0, 0) =~= s);
    } else if is_blank(s.first()) {
        let t = s.drop_first();
        if a > 0 {
            lemma_trim_subrange(t, a - 1, b - 1);
            assert(t.subrange(a - 1, b - 1) =~= s.subrange(a, b));
        } else {
            lemma_trim_subrange(t, 0, 0);
            assert(t.subrange(0, 0) =~= s.subrange(a, b));
        }
    } else if is_blank(s.last()) {
        let t = s.drop_last();
        lemma_trim_subrange(t, a, b);
        assert(t.subrange(a, b) =~= s.subrange(a, b));
    } else {
        assert(a == 0 && b == s.len());
        assert(s.subrange(0, s.len() as int) =~= s);
    }
}

fn is_blank_exec(c: char) -> (r: bool)
    ensures
        r == is_blank(c),
{
    ('\u{09}' <= c && c <= '\u{0D}') || c == ' ' || c == '\u{85}' || c == '\u{A0}' || c
        == '\u{1680}' || ('\u{2000}' <= c && c <= '\u{200A}') || c == '\u{2028}' || c == '\u{2029}'
        || c == '\u{202F}' || c == '\u{205F}' || c == '\u{3000}'
}

/// Removes leading and trailing whitespace.
pub fn trim(s: &str) -> (r: String)
    ensures
        r@ == trim_spec(s@),
{
    let n = s.unicode_len();
    let mut a: usize = 0;
    while a < n && is_blank_exec(s.get_char(a))
        invariant
            n == s@.len(),
            0 <= a <= n,
            forall|i: int| 0 <= i < a ==> is_blank(#[trigger] s@[i]),
        decreases n - a,
    {
        a = a + 1;
    }
    let mut b: usize = n;
    while b > a && is_blank_exec(s.get_char(b - 1))
        invariant
            n == s@.len(),
            a <= b <= n,
            forall|i: int| b <= i < n ==> is_blank(#[trigger] s@[i]),
        decreases b,
    {
        b = b - 1;
    }
    proof {
        lemma_trim_subrange(s@, a as int, b as int);
    }
    let piece = s.substring_char(a, b);
    piece.to_owned()
}

/// The index of the first comma, or the length when there is none.
pub open spec fn first_comma(s: Seq<char>) -> nat
    decreases s.len(),
{
    if s.len() == 0 {
        0
    } else if s.first() == ',' {
        0
    } else {
        1 + first_comma(s.drop_first())
    }
}

/// The pieces of `s` between its commas, in order; a string without commas
/// is one piece, and every comma separates two pieces.
pub open spec fn split_commas(s: Seq<char>) -> Seq<Seq<char>>
    decreases s.len(),
{
    let i = first_comma(s) as int;
    if i < s.len() {
        seq![s.take(i)] + split_commas(s.skip(i + 1))
    } else {
        seq![s]
    }
}

proof fn lemma_first_comma_at(s: Seq<char>, j: int)
    requires
        0 <= j <= s.len(),
        forall|i: int| 0 <= i < j ==> s[i] != ',',
        j < s.len() ==> s[j] == ',',
    ensures
        j < s.len() ==> first_comma(s) == j,
        j == s.len() ==> first_comma(s) == s.len(),
    decreases s.len(),
{
    if j == 0 {
        if s.len() > 0 {
            if j < s.len() {
                assert(s.first() == ',');
            }
        }
        if j == s.len() {
        } else {
            assert(first_comma(s) == 0);
        }
    } else {
        assert(s.first() != ',');
        let t = s.drop_first();
        assert(forall|i: int| 0 <= i < j - 1 ==> #[trigger] t[i] == s[i + 1] && t[i] != ',');
        lemma_first_comma_at(t, j - 1);
    }
}

fn split_trim_from(s: &str, from: usize) -> (r: Vec<String>)
    requires
        from <= s@.len(),
    ensures
        r@.len() == split_commas(s@.skip(from as int)).len(),
        forall|k: int|
            0 <= k < r@.len() ==> r@[k]@ == trim_spec(
                #[trigger] split_commas(s@.skip(from as int))[k],
            ),
    decreases s@.len() - from@,
{
    let n = s.unicode_len();
    let mut j: usize = from;
    while j < n && s.get_char(j) != ','
        invariant
            n == s@.len(),
            from <= j <= n,
            forall|i: int| from <= i < j ==> s@[i] != ',',
        decreases n - j,
    {
        j = j + 1;
    }
    let ghost rest_of = s@.skip(from as int);
    proof {
        assert(forall|i: int| 0 <= i < j - from ==> #[trigger] rest_of[i] == s@[i + from]);
        lemma_first_comma_at(rest_of, j - from);
    }
    let head = s.substring_char(from, j);
    let piece = trim(head);
    proof {
        assert(head@ =~= rest_of.take(j - from));
    }
    if j < n {
        let mut rest = split_trim_from(s, j + 1);
        let ghost tail = rest@;
        rest.insert(0, piece);
        proof {
            assert(s@.skip(j + 1) =~= rest_of.skip(j - from + 1));
            assert(split_commas(rest_of) == seq![rest_of.take(j - from)] + split_commas(
                rest_of.skip(j - from + 1),
            ));
            assert(rest@ =~= seq![piece] + tail);
            assert forall|k: int| 0 <= k < rest@.len() implies rest@[k]@ == trim_spec(
                #[trigger] split_commas(rest_of)[k],
            ) by {
                if k == 0 {
                    assert(split_commas(rest_of)[0] == rest_of.take(j - from));
                } else {
                    assert(rest@[k] == tail[k - 1]);
                    assert(split_commas(rest_of)[k] == split_commas(
                        rest_of.skip(j - from + 1),
                    )[k - 1]);
                }
            }
        }
        rest
    } else {
        let mut one: Vec<String> = Vec::new();
        one.push(piece);
        proof {
            assert(rest_of.take(j - from) =~= rest_of);
            assert(split_commas(rest_of) == seq![rest_of]);
            assert(one@[0] == piece);
        }
        one
    }
}

/// Splits `s` at commas and trims each piece.
pub fn split_trim_commas(s: &str) -> (r: Vec<String>)
    ensures
        r@.len() == split_commas(s@).len(),
        forall|k: int|
            0 <= k < r@.len() ==> r@[k]@ == trim_spec(#[trigger] split_commas(s@)[k]),
{
    let r = split_trim_from(s, 0);
    proof {
        assert(s@.skip(0) =~= s@);
    }
    r
}

/// Renders `n` in decimal.
pub fn u64_to_string(n: u64) -> (r: String)
    ensures
        r@ == dec_digits(n as nat),
    decreases n,
{
    if n < 10 {
        let mut s = String::new();
        let c: char = (('0' as u8) + (n as u8)) as char;
        push_char(&mut s, c);
        assert(s@ == seq![digit_char(n as nat)]);
        s
    } else {
        let mut s = u64_to_string(n / 10);
        let c: char = (('0' as u8) + ((n % 10) as u8)) as char;
        push_char(&mut s, c);
        s
    }
}

} // verus!
