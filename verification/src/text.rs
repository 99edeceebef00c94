//! Character and string primitives with exact models over `Seq<char>`.

use vstd::prelude::*;
use vstd::string::*;

verus! {

/// Whether `c` carries the Unicode `White_Space` property.
pub open spec fn is_whitespace(c: char) -> bool {
    let n = c as u32;
    (0x09 <= n <= 0x0D) || n == 0x20 || n == 0x85 || n == 0xA0 || n == 0x1680 || (0x2000 <= n
        <= 0x200A) || n == 0x2028 || n == 0x2029 || n == 0x202F || n == 0x205F || n == 0x3000
}

/// `needle` occurs in `text` starting at index `i`.
pub open spec fn occurs_at(text: Seq<char>, needle: Seq<char>, i: int) -> bool {
    0 <= i && i + needle.len() <= text.len() && text.subrange(i, i + needle.len()) == needle
}

/// `needle` occurs somewhere in `text`.
pub open spec fn contains_text(text: Seq<char>, needle: Seq<char>) -> bool {
    exists|i: int| occurs_at(text, needle, i)
}

/// The number of whitespace characters at the front of `s`.
pub open spec fn leading_whitespace(s: Seq<char>) -> nat
    decreases s.len(),
{
    if s.len() > 0 && is_whitespace(s[0]) {
        1 + leading_whitespace(s.drop_first())
    } else {
        0
    }
}

/// The number of whitespace characters at the back of `s`.
pub open spec fn trailing_whitespace(s: Seq<char>) -> nat
    decreases s.len(),
{
    if s.len() > 0 && is_whitespace(s.last()) {
        1 + trailing_whitespace(s.drop_last())
    } else {
        0
    }
}

/// `s` without its leading whitespace.
pub open spec fn trimmed_start(s: Seq<char>) -> Seq<char> {
    s.skip(leading_whitespace(s) as int)
}

/// `s` without its trailing whitespace.
pub open spec fn trimmed_end(s: Seq<char>) -> Seq<char> {
    s.take(s.len() - trailing_whitespace(s))
}

/// `s` without leading and trailing whitespace.
pub open spec fn trimmed(s: Seq<char>) -> Seq<char> {
    trimmed_end(trimmed_start(s))
}

/// The length of the run of non-whitespace characters at the front of `s`.
pub open spec fn word_length(s: Seq<char>) -> nat
    decreases s.len(),
{
    if s.len() > 0 && !is_whitespace(s[0]) {
        1 + word_length(s.drop_first())
    } else {
        0
    }
}

/// The maximal runs of non-whitespace characters of `s`, in order.
pub open spec fn words(s: Seq<char>) -> Seq<Seq<char>>
    decreases s.len(),
    via words_decreases
{
    if s.len() == 0 {
        Seq::empty()
    } else if is_whitespace(s[0]) {
        words(s.drop_first())
    } else {
        seq![s.take(word_length(s) as int)] + words(s.skip(word_length(s) as int))
    }
}

#[via_fn]
proof fn words_decreases(s: Seq<char>) {
    if s.len() > 0 && !is_whitespace(s[0]) {
        lemma_word_length_bound(s);
    }
}

/// A run of non-whitespace characters is no longer than the text it starts.
pub proof fn lemma_word_length_bound(s: Seq<char>)
    ensures
        word_length(s) <= s.len(),
    decreases s.len(),
{
    if s.len() > 0 && !is_whitespace(s[0]) {
        lemma_word_length_bound(s.drop_first());
    }
}

/// The text that `str::to_lowercase` gives for `s`: its Unicode lower-case form.
pub uninterp spec fn lowercase(s: Seq<char>) -> Seq<char>;

/// Whether `c` is one of the ASCII digits `0` to `9`.
pub open spec fn is_digit(c: char) -> bool {
    0x30 <= c as u32 <= 0x39
}

/// Whether `s` holds ASCII digits only.
pub open spec fn all_digits(s: Seq<char>) -> bool {
    forall|i: int| 0 <= i < s.len() ==> is_digit(#[trigger] s[i])
}

/// The number that the digit string `s` denotes in base ten.
pub open spec fn decimal_value(s: Seq<char>) -> int
    decreases s.len(),
{
    if s.len() == 0 {
        0
    } else {
        decimal_value(s.drop_last()) * 10 + (s.last() as u32 - 0x30)
    }
}

/// The `i32` that `s` denotes: an optional sign, then at least one digit, in range.
pub open spec fn parsed_i32(s: Seq<char>) -> Option<i32> {
    let negative = s.len() > 0 && s[0] == '-';
    let signed = s.len() > 0 && (s[0] == '-' || s[0] == '+');
    let digits = if signed {
        s.drop_first()
    } else {
        s
    };
    let value = if negative {
        -decimal_value(digits)
    } else {
        decimal_value(digits)
    };
    if digits.len() > 0 && all_digits(digits) && i32::MIN <= value <= i32::MAX {
        Some(value as i32)
    } else {
        None
    }
}

/// The ASCII digit for `d`, which is in `0..10`.
pub open spec fn digit_char(d: int) -> char {
    (d + 0x30) as char
}

/// The base-ten digits of `n`, most significant first, without leading zeros.
pub open spec fn decimal_text(n: nat) -> Seq<char>
    decreases n,
{
    if n < 10 {
        seq![digit_char(n as int)]
    } else {
        decimal_text(n / 10).push(digit_char((n % 10) as int))
    }
}

/// The base-ten text of `n`, with a minus sign when it is negative.
pub open spec fn int_text(n: int) -> Seq<char> {
    if n < 0 {
        seq!['-'] + decimal_text((-n) as nat)
    } else {
        decimal_text(n as nat)
    }
}

/// The number of characters before the first line feed of `s`.
pub open spec fn line_length(s: Seq<char>) -> nat
    decreases s.len(),
{
    if s.len() > 0 && s[0] != '\n' {
        1 + line_length(s.drop_first())
    } else {
        0
    }
}

/// The text of `s` up to its first line feed.
pub open spec fn first_line(s: Seq<char>) -> Seq<char> {
    s.take(line_length(s) as int)
}

/// `s` without the occurrences of `needle`, found from left to right without
/// overlap. An empty needle occurs nowhere.
pub open spec fn without(s: Seq<char>, needle: Seq<char>) -> Seq<char>
    decreases s.len(),
{
    if needle.len() == 0 || s.len() < needle.len() {
        s
    } else if occurs_at(s, needle, 0) {
        without(s.skip(needle.len() as int), needle)
    } else {
        seq![s[0]] + without(s.drop_first(), needle)
    }
}

/// Whether `s` ends with the character `c`.
pub open spec fn ends_with(s: Seq<char>, c: char) -> bool {
    s.len() > 0 && s.last() == c
}

/// Tests a character for the Unicode `White_Space` property.
pub fn char_is_whitespace(c: char) -> (r: bool)
    ensures
        r == is_whitespace(c),
{
    let n: u32 = c as u32;
    (0x09 <= n && n <= 0x0D) || n == 0x20 || n == 0x85 || n == 0xA0 || n == 0x1680 || (0x2000 <= n
        && n <= 0x200A) || n == 0x2028 || n == 0x2029 || n == 0x202F || n == 0x205F || n == 0x3000
}

/// The characters of `s`, in order.
pub fn chars_of(s: &str) -> (v: Vec<char>)
    ensures
        v@ == s@,
{
    let mut v: Vec<char> = Vec::new();
    for c in it: s.chars()
        invariant
            v@ == it.seq().take(it.index() as int),
            it.seq() == s@,
    {
        v.push(c);
    }
    v
}

/// Appends one character with `String::push`: the text grows by exactly `c`.
#[verifier::external_body]
pub(crate) fn push_char(s: &mut String, c: char)
    ensures
        final(s)@ == old(s)@.push(c),
{
    s.push(c)
}

/// The string made of the characters `v[from..to]`.
pub fn string_of(v: &Vec<char>, from: usize, to: usize) -> (s: String)
    requires
        from <= to <= v.len(),
    ensures
        s@ == v@.subrange(from as int, to as int),
{
    let mut s = String::new();
    let mut i: usize = from;
    while i < to
        invariant
            from <= i <= to <= v.len(),
            s@ == v@.subrange(from as int, i as int),
        decreases to - i,
    {
        push_char(&mut s, v[i]);
        i += 1;
    }
    s
}

/// Whether `needle` occurs in `text` at index `i`.
pub fn matches_at(text: &Vec<char>, needle: &Vec<char>, i: usize) -> (r: bool)
    ensures
        r == occurs_at(text@, needle@, i as int),
{
    if needle.len() > text.len() || i > text.len() - needle.len() {
        return false;
    }
    let mut j: usize = 0;
    while j < needle.len()
        invariant
            i + needle.len() <= text.len(),
            j <= needle.len(),
            forall|k: int| 0 <= k < j ==> text@[i + k] == needle@[k],
        decreases needle.len() - j,
    {
        if text[i + j] != needle[j] {
            assert(text@.subrange(i as int, i + needle.len())[j as int] != needle@[j as int]);
            return false;
        }
        j += 1;
    }
    assert(text@.subrange(i as int, i + needle.len()) =~= needle@);
    true
}

/// The least index at which `needle` occurs in `text`, if it occurs.
pub fn find(text: &Vec<char>, needle: &Vec<char>) -> (r: Option<usize>)
    ensures
        match r {
            Some(i) => occurs_at(text@, needle@, i as int) && forall|k: int|
                0 <= k < i ==> !occurs_at(text@, needle@, k),
            None => !contains_text(text@, needle@),
        },
{
    if needle.len() > text.len() {
        return None;
    }
    let last: usize = text.len() - needle.len();
    let mut i: usize = 0;
    loop
        invariant
            last == text.len() - needle.len(),
            i <= last,
            forall|k: int| 0 <= k < i ==> !occurs_at(text@, needle@, k),
        decreases last - i,
    {
        if matches_at(text, needle, i) {
            return Some(i);
        }
        if i == last {
            return None;
        }
        i += 1;
    }
}

/// Whether `needle` occurs in `text`; the empty needle occurs in every text.
pub fn contains(text: &str, needle: &str) -> (r: bool)
    ensures
        r == contains_text(text@, needle@),
{
    let t = chars_of(text);
    let n = chars_of(needle);
    let found = find(&t, &n);
    proof {
        if let Some(i) = found {
            assert(occurs_at(text@, needle@, i as int));
        }
    }
    found.is_some()
}

/// Whether `text` begins with `prefix`.
pub fn starts_with(text: &str, prefix: &str) -> (r: bool)
    ensures
        r == prefix@.is_prefix_of(text@),
{
    let t = chars_of(text);
    let p = chars_of(prefix);
    let r = matches_at(&t, &p, 0);
    proof {
        if prefix@.is_prefix_of(text@) {
            assert(text@.subrange(0, prefix@.len() as int) =~= prefix@);
        }
    }
    r
}

/// Whether the character `c` occurs in `text`.
pub fn contains_char(text: &str, c: char) -> (r: bool)
    ensures
        r == text@.contains(c),
{
    let t = chars_of(text);
    let mut i: usize = 0;
    while i < t.len()
        invariant
            i <= t.len(),
            t@ == text@,
            forall|k: int| 0 <= k < i ==> t@[k] != c,
        decreases t.len() - i,
    {
        if t[i] == c {
            return true;
        }
        i += 1;
    }
    false
}

/// Whether two texts hold the same characters.
pub fn same_text(a: &str, b: &str) -> (r: bool)
    ensures
        r == (a@ == b@),
{
    let x = chars_of(a);
    let y = chars_of(b);
    if x.len() != y.len() {
        return false;
    }
    let r = matches_at(&x, &y, 0);
    proof {
        assert(x@.subrange(0, x@.len() as int) =~= x@);
    }
    r
}

/// The index of the first character at or after `from` that is not whitespace.
fn skip_whitespace(v: &Vec<char>, from: usize) -> (i: usize)
    requires
        from <= v.len(),
    ensures
        from <= i <= v.len(),
        i - from == leading_whitespace(v@.skip(from as int)),
{
    let mut i: usize = from;
    while i < v.len() && char_is_whitespace(v[i])
        invariant
            from <= i <= v.len(),
            leading_whitespace(v@.skip(from as int)) == (i - from) + leading_whitespace(
                v@.skip(i as int),
            ),
        decreases v.len() - i,
    {
        assert(v@.skip(i as int).drop_first() =~= v@.skip(i + 1));
        i += 1;
    }
    i
}

/// The index just past the run of non-whitespace characters that starts at `from`.
fn skip_word(v: &Vec<char>, from: usize) -> (i: usize)
    requires
        from <= v.len(),
    ensures
        from <= i <= v.len(),
        i - from == word_length(v@.skip(from as int)),
{
    let mut i: usize = from;
    while i < v.len() && !char_is_whitespace(v[i])
        invariant
            from <= i <= v.len(),
            word_length(v@.skip(from as int)) == (i - from) + word_length(v@.skip(i as int)),
        decreases v.len() - i,
    {
        assert(v@.skip(i as int).drop_first() =~= v@.skip(i + 1));
        i += 1;
    }
    i
}

/// The index just past the last character of `v[from..]` that is not whitespace.
fn skip_back_whitespace(v: &Vec<char>, from: usize) -> (i: usize)
    requires
        from <= v.len(),
    ensures
        from <= i <= v.len(),
        v.len() - i == trailing_whitespace(v@.skip(from as int)),
{
    let ghost rest = v@.skip(from as int);
    let mut i: usize = v.len();
    proof {
        assert(rest.take(v.len() - from) =~= rest);
    }
    while i > from && char_is_whitespace(v[i - 1])
        invariant
            from <= i <= v.len(),
            rest == v@.skip(from as int),
            trailing_whitespace(rest) == (v.len() - i) + trailing_whitespace(
                rest.take(i - from),
            ),
        decreases i,
    {
        assert(rest.take(i - from).drop_last() =~= rest.take(i - from - 1));
        i -= 1;
    }
    i
}

/// `text` without leading and trailing whitespace.
pub fn trim(text: &str) -> (r: &str)
    ensures
        r@ == trimmed(text@),
{
    let v = chars_of(text);
    let a = skip_whitespace(&v, 0);
    let b = skip_back_whitespace(&v, a);
    proof {
        assert(v@.skip(0) =~= v@);
        assert(v@.skip(a as int).take(b - a) =~= v@.subrange(a as int, b as int));
    }
    text.substring_char(a, b)
}

/// `text` without trailing whitespace.
pub fn trim_end(text: &str) -> (r: &str)
    ensures
        r@ == trimmed_end(text@),
{
    let v = chars_of(text);
    let b = skip_back_whitespace(&v, 0);
    proof {
        assert(v@.skip(0) =~= v@);
        assert(v@.take(b as int) =~= v@.subrange(0, b as int));
    }
    text.substring_char(0, b)
}

/// The whitespace-separated words of `text`, in order.
pub fn split_whitespace(text: &str) -> (r: Vec<String>)
    ensures
        r.deep_view() == words(text@),
{
    let v = chars_of(text);
    let mut out: Vec<String> = Vec::new();
    let mut i: usize = 0;
    proof {
        assert(v@.skip(0) =~= v@);
        assert(out.deep_view() =~= Seq::<Seq<char>>::empty());
    }
    while i < v.len()
        invariant
            i <= v.len(),
            v@ == text@,
            words(v@) == out.deep_view() + words(v@.skip(i as int)),
        decreases v.len() - i,
    {
        let ghost rest = v@.skip(i as int);
        let ghost before = out.deep_view();
        if char_is_whitespace(v[i]) {
            assert(rest.drop_first() =~= v@.skip(i + 1));
            i += 1;
        } else {
            let end = skip_word(&v, i);
            let word = string_of(&v, i, end);
            out.push(word);
            proof {
                assert(rest.take(end - i) =~= v@.subrange(i as int, end as int));
                assert(rest.skip(end - i) =~= v@.skip(end as int));
                assert(out.deep_view() =~= before.push(rest.take(end - i)));
                assert(before.push(rest.take(end - i)) + words(v@.skip(end as int)) =~= before + (
                seq![rest.take(end - i)] + words(v@.skip(end as int))));
            }
            i = end;
        }
    }
    proof {
        assert(out.deep_view() + Seq::<Seq<char>>::empty() =~= out.deep_view());
    }
    out
}

/// Lower-cases with `str::to_lowercase`; the result is named, not described.
#[verifier::external_body]
pub(crate) fn to_lowercase(text: &str) -> (r: String)
    ensures
        r@ == lowercase(text@),
{
    text.to_lowercase()
}

/// Decodes with `std::str::from_utf8`: `Some` exactly for valid UTF-8, holding
/// the characters that the bytes encode.
#[verifier::external_body]
pub(crate) fn from_utf8(bytes: &[u8]) -> (r: Option<String>)
    ensures
        r is Some <==> vstd::utf8::valid_utf8(bytes@),
        r matches Some(s) ==> s@ == vstd::utf8::decode_utf8(bytes@),
{
    match std::str::from_utf8(bytes) {
        Ok(s) => Some(s.to_string()),
        Err(_) => None,
    }
}

/// Parses a decimal `i32` as `str::parse::<i32>` does.
pub fn parse_i32(text: &str) -> (r: Option<i32>)
    ensures
        r == parsed_i32(text@),
{
    let v = chars_of(text);
    if v.len() == 0 {
        return None;
    }
    let negative = v[0] == '-';
    let start: usize = if v[0] == '-' || v[0] == '+' {
        1
    } else {
        0
    };
    if start == v.len() {
        return None;
    }
    let ghost digits = v@.skip(start as int);
    proof {
        assert(v@.drop_first() =~= v@.skip(1));
        assert(v@.skip(0) =~= v@);
        assert(digits.take(0) =~= Seq::<char>::empty());
    }
    let cap: u64 = 0x8000_0001;
    let mut acc: u64 = 0;
    let mut i: usize = start;
    while i < v.len()
        invariant
            start <= i <= v.len(),
            v@ == text@,
            v@.len() > 0,
            negative == (v@[0] == '-'),
            start == if v@[0] == '-' || v@[0] == '+' { 1usize } else { 0usize },
            digits == v@.skip(start as int),
            digits == if start == 1 { v@.drop_first() } else { v@ },
            cap == 0x8000_0001,
            all_digits(digits.take(i - start)),
            decimal_value(digits.take(i - start)) >= 0,
            acc == if decimal_value(digits.take(i - start)) < cap {
                decimal_value(digits.take(i - start))
            } else {
                cap as int
            },
        decreases v.len() - i,
    {
        let n: u32 = v[i] as u32;
        if n < 0x30 || n > 0x39 {
            assert(!is_digit(digits[i - start]));
            return None;
        }
        proof {
            let next = digits.take(i - start + 1);
            assert(next.drop_last() =~= digits.take(i - start));
            assert(next.last() == v@[i as int]);
            assert forall|k: int| 0 <= k < next.len() implies is_digit(#[trigger] next[k]) by {
                if k < i - start {
                    assert(digits.take(i - start)[k] == next[k]);
                }
            }
        }
        let grown: u64 = acc * 10 + (n - 0x30) as u64;
        acc = if grown < cap {
            grown
        } else {
            cap
        };
        i += 1;
    }
    proof {
        assert(digits.take(v.len() - start) =~= digits);
    }
    if negative {
        if acc <= 0x8000_0000 {
            Some((0 - acc as i64) as i32)
        } else {
            None
        }
    } else {
        if acc <= 0x7fff_ffff {
            Some(acc as i32)
        } else {
            None
        }
    }
}

/// The ASCII digit for `d`.
fn digit_of(d: u8) -> (c: char)
    requires
        d < 10,
    ensures
        c == digit_char(d as int),
{
    (d + 0x30) as char
}

/// The base-ten text of `n`, as `i32::to_string` gives it.
pub fn format_i32(n: i32) -> (r: String)
    ensures
        r@ == int_text(n as int),
{
    format_i64(n as i64)
}

/// The base-ten text of `n`, as `i64::to_string` gives it.
pub fn format_i64(n: i64) -> (r: String)
    ensures
        r@ == int_text(n as int),
{
    let magnitude: u64 = if n < 0 {
        (0 - n as i128) as u64
    } else {
        n as u64
    };
    let mut reversed: Vec<char> = Vec::new();
    let mut m: u64 = magnitude;
    while m >= 10
        invariant
            decimal_text(magnitude as nat) == decimal_text(m as nat) + reversed@.reverse(),
        decreases m,
    {
        let c = digit_of((m % 10) as u8);
        proof {
            assert(reversed@.push(c).reverse() =~= seq![c] + reversed@.reverse());
            assert(decimal_text(m as nat) == decimal_text((m / 10) as nat).push(c));
            assert(decimal_text((m / 10) as nat).push(c) + reversed@.reverse() =~= decimal_text(
                (m / 10) as nat,
            ) + (seq![c] + reversed@.reverse()));
        }
        reversed.push(c);
        m = m / 10;
    }
    let top = digit_of(m as u8);
    proof {
        assert(reversed@.push(top).reverse() =~= seq![top] + reversed@.reverse());
    }
    reversed.push(top);
    let mut out = String::new();
    if n < 0 {
        push_char(&mut out, '-');
    }
    let ghost sign = out@;
    let mut i: usize = reversed.len();
    while i > 0
        invariant
            i <= reversed.len(),
            out@ == sign + reversed@.reverse().take(reversed.len() - i),
        decreases i,
    {
        i -= 1;
        proof {
            let full = reversed@.reverse();
            let k = reversed.len() - i - 1;
            assert(full[k] == reversed@[i as int]);
            assert(full.take(k + 1) =~= full.take(k).push(full[k]));
            assert(sign + full.take(k).push(full[k]) =~= (sign + full.take(k)).push(full[k]));
        }
        push_char(&mut out, reversed[i]);
    }
    proof {
        let full = reversed@.reverse();
        assert(full.take(reversed.len() as int) =~= full);
        assert(Seq::<char>::empty() + full =~= full);
        assert(Seq::<char>::empty().push('-') =~= seq!['-']);
    }
    out
}

/// The text of `text` up to its first line feed.
pub fn take_first_line(text: &str) -> (r: &str)
    ensures
        r@ == first_line(text@),
{
    let v = chars_of(text);
    let mut i: usize = 0;
    proof {
        assert(v@.skip(0) =~= v@);
    }
    while i < v.len() && v[i] != '\n'
        invariant
            i <= v.len(),
            line_length(v@) == i + line_length(v@.skip(i as int)),
        decreases v.len() - i,
    {
        assert(v@.skip(i as int).drop_first() =~= v@.skip(i + 1));
        i += 1;
    }
    proof {
        assert(v@.take(i as int) =~= v@.subrange(0, i as int));
    }
    text.substring_char(0, i)
}

/// Whether `text` ends with the character `c`.
pub fn ends_with_char(text: &str, c: char) -> (r: bool)
    ensures
        r == ends_with(text@, c),
{
    let v = chars_of(text);
    v.len() > 0 && v[v.len() - 1] == c
}

/// `text` without the occurrences of `needle`, as `str::replace` with an
/// empty replacement gives it.
pub fn remove_all(text: &str, needle: &str) -> (r: String)
    ensures
        r@ == without(text@, needle@),
{
    let v = chars_of(text);
    let n = chars_of(needle);
    if n.len() == 0 {
        return text.to_owned();
    }
    let mut out = String::new();
    let mut i: usize = 0;
    proof {
        assert(v@.skip(0) =~= v@);
        assert(Seq::<char>::empty() + without(v@, n@) =~= without(v@, n@));
    }
    while i < v.len()
        invariant
            i <= v.len(),
            n@.len() > 0,
            without(v@, n@) == out@ + without(v@.skip(i as int), n@),
        decreases v.len() - i,
    {
        let ghost rest = v@.skip(i as int);
        let ghost before = out@;
        if matches_at(&v, &n, i) {
            proof {
                assert(rest.subrange(0, n@.len() as int) =~= v@.subrange(
                    i as int,
                    i + n@.len(),
                ));
                assert(occurs_at(rest, n@, 0));
                assert(rest.skip(n@.len() as int) =~= v@.skip(i + n@.len()));
            }
            i += n.len();
        } else {
            proof {
                if rest.len() >= n@.len() {
                    assert(rest.subrange(0, n@.len() as int) =~= v@.subrange(
                        i as int,
                        i + n@.len(),
                    ));
                    assert(!occurs_at(rest, n@, 0));
                    assert(rest.drop_first() =~= v@.skip(i + 1));
                    assert(before.push(v@[i as int]) + without(v@.skip(i + 1), n@) =~= before + (
                    seq![rest[0]] + without(rest.drop_first(), n@)));
                }
            }
            if v.len() - i < n.len() {
                proof {
                    assert(without(rest, n@) == rest);
                }
                let tail = string_of(&v, i, v.len());
                out.append(tail.as_str());
                proof {
                    assert(v@.subrange(i as int, v@.len() as int) =~= rest);
                    assert(v@.skip(v@.len() as int) =~= Seq::<char>::empty());
                    assert(out@ + without(v@.skip(v@.len() as int), n@) =~= before + rest);
                }
                i = v.len();
            } else {
                push_char(&mut out, v[i]);
                i += 1;
            }
        }
    }
    proof {
        assert(v@.skip(v@.len() as int) =~= Seq::<char>::empty());
        assert(out@ + Seq::<char>::empty() =~= out@);
    }
    out
}

} // verus!
