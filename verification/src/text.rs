//! Character-level text helpers shared by the validators, parsers and
//! message builders of the library.
use vstd::prelude::*;

verus! {

/// `c` is an ASCII decimal digit.
pub open spec fn is_digit(c: char) -> bool {
    '0' <= c && c <= '9'
}

/// `c` is an ASCII letter or digit (`char::is_ascii_alphanumeric`).
pub open spec fn is_ascii_alnum(c: char) -> bool {
    ||| ('a' <= c && c <= 'z')
    ||| ('A' <= c && c <= 'Z')
    ||| is_digit(c)
}

/// ASCII lower-casing of one character (`char::to_ascii_lowercase`).
pub open spec fn ascii_lower(c: char) -> char {
    if 'A' <= c && c <= 'Z' {
        ((c as u32) + 32) as char
    } else {
        c
    }
}

/// Unicode `White_Space` property, as `char::is_whitespace` documents it.
pub open spec fn is_white_space(c: char) -> bool {
    ||| ('\u{9}' <= c && c <= '\u{d}')
    ||| c == ' '
    ||| c == '\u{85}'
    ||| c == '\u{a0}'
    ||| c == '\u{1680}'
    ||| ('\u{2000}' <= c && c <= '\u{200a}')
    ||| c == '\u{2028}'
    ||| c == '\u{2029}'
    ||| c == '\u{202f}'
    ||| c == '\u{205f}'
    ||| c == '\u{3000}'
}

/// `s.trim().is_empty()`: every character is white space.
pub open spec fn is_blank_spec(s: Seq<char>) -> bool {
    forall|i: int| 0 <= i < s.len() ==> is_white_space(#[trigger] s[i])
}

/// `s` starts with `p`.
pub open spec fn has_prefix(s: Seq<char>, p: Seq<char>) -> bool {
    p.len() <= s.len() && s.take(p.len() as int) == p
}

/// `s` with every trailing `c` removed (`str::trim_end_matches(c)`).
pub open spec fn trim_end_char(s: Seq<char>, c: char) -> Seq<char>
    decreases s.len(),
{
    if s.len() > 0 && s.last() == c {
        trim_end_char(s.drop_last(), c)
    } else {
        s
    }
}

/// The character of a decimal digit value.
pub open spec fn digit_char(d: nat) -> char {
    if d == 0 { '0' }
    else if d == 1 { '1' }
    else if d == 2 { '2' }
    else if d == 3 { '3' }
    else if d == 4 { '4' }
    else if d == 5 { '5' }
    else if d == 6 { '6' }
    else if d == 7 { '7' }
    else if d == 8 { '8' }
    else { '9' }
}

/// The value of a decimal digit character.
pub open spec fn digit_value(c: char) -> nat {
    ((c as u32) - ('0' as u32)) as nat
}

/// Value of a sequence of decimal digits.
pub open spec fn digits_value(d: Seq<char>) -> nat
    decreases d.len(),
{
    if d.len() == 0 {
        0
    } else {
        digits_value(d.drop_last()) * 10 + digit_value(d.last())
    }
}

/// Decimal notation of a natural number, without leading zeros.
pub open spec fn decimal(n: nat) -> Seq<char>
    decreases n,
{
    if n < 10 {
        seq![digit_char(n)]
    } else {
        decimal(n / 10).push(digit_char(n % 10))
    }
}

/// Decimal notation of an integer, with a leading `-` when negative.
pub open spec fn signed_decimal(n: int) -> Seq<char> {
    if n < 0 {
        seq!['-'] + decimal((-n) as nat)
    } else {
        decimal(n as nat)
    }
}

proof fn lemma_digit_char(k: nat)
    requires
        k < 10,
    ensures
        digit_value(digit_char(k)) == k,
        is_digit(digit_char(k)),
{
}

/// Law: decimal notation is made of digits, reads back as the number it
/// writes, and has no leading zero.
pub proof fn lemma_digits_value_decimal(n: nat)
    ensures
        digits_value(decimal(n)) == n,
        decimal(n).len() > 0,
        forall|j: int| 0 <= j < decimal(n).len() ==> is_digit(#[trigger] decimal(n)[j]),
        n > 0 ==> decimal(n)[0] != '0',
    decreases n,
{
    if n < 10 {
        lemma_digit_char(n);
        assert(decimal(n) == seq![digit_char(n)]);
        assert(seq![digit_char(n)].drop_last() =~= Seq::<char>::empty());
        assert(digits_value(Seq::<char>::empty()) == 0);
    } else {
        lemma_digits_value_decimal(n / 10);
        lemma_digit_char(n % 10);
        let d = decimal(n);
        let p = decimal(n / 10);
        assert(d == p.push(digit_char(n % 10)));
        assert(d.drop_last() =~= p);
        assert(d.last() == digit_char(n % 10));
        assert(d[0] == p[0]);
        assert forall|j: int| 0 <= j < d.len() implies is_digit(#[trigger] d[j]) by {
            if j < p.len() {
                assert(d[j] == p[j]);
            }
        }
    }
}

/// The empty string literal has no characters.
pub proof fn lemma_empty_literal()
    ensures
        ""@ == Seq::<char>::empty(),
{
    reveal_strlit("");
    assert(""@ =~= Seq::<char>::empty());
}

/// Index of the first `c` in `s`, or its length when there is none.
pub open spec fn index_of(s: Seq<char>, c: char) -> nat
    decreases s.len(),
{
    if s.len() == 0 {
        0
    } else if s[0] == c {
        0
    } else {
        1 + index_of(s.drop_first(), c)
    }
}

/// `s` without one trailing carriage return.
pub open spec fn strip_cr(s: Seq<char>) -> Seq<char> {
    if s.len() > 0 && s.last() == '\r' {
        s.drop_last()
    } else {
        s
    }
}

/// Length of the longest prefix of white space.
pub open spec fn leading_ws(s: Seq<char>) -> nat
    decreases s.len(),
{
    if s.len() > 0 && is_white_space(s[0]) {
        1 + leading_ws(s.drop_first())
    } else {
        0
    }
}

/// Length of `s` without its trailing white space.
pub open spec fn trimmed_end(s: Seq<char>) -> nat
    decreases s.len(),
{
    if s.len() > 0 && is_white_space(s.last()) {
        trimmed_end(s.drop_last())
    } else {
        s.len()
    }
}

/// `str::trim`: `s` without leading and trailing white space.
pub open spec fn trim_ws(s: Seq<char>) -> Seq<char> {
    let t = s.skip(leading_ws(s) as int);
    t.take(trimmed_end(t) as int)
}

/// `usize::from_str`: an optional `+`, then at least one decimal digit,
/// with a value that fits in `usize`.
pub open spec fn parse_usize_spec(s: Seq<char>) -> Option<nat> {
    let d = unsigned_digits(s);
    if d.len() > 0 && all_digits(d) && digits_value(d) <= usize::MAX {
        Some(digits_value(d))
    } else {
        None
    }
}

/// `s` without one leading `+`.
pub open spec fn unsigned_digits(s: Seq<char>) -> Seq<char> {
    if s.len() > 0 && s[0] == '+' {
        s.drop_first()
    } else {
        s
    }
}

/// Every character is a decimal digit.
pub open spec fn all_digits(d: Seq<char>) -> bool {
    forall|i: int| 0 <= i < d.len() ==> is_digit(#[trigger] d[i])
}

/// `a` equals `b` ignoring ASCII case, for an ASCII `b`.
pub open spec fn eq_ignore_ascii_case(a: Seq<char>, b: Seq<char>) -> bool {
    a.len() == b.len() && forall|i: int| 0 <= i < a.len() ==> ascii_lower(#[trigger] a[i]) == b[i]
}

/// The characters of a string slice, in order.
pub fn chars_of(s: &str) -> (r: Vec<char>)
    ensures
        r@ == s@,
{
    let n = s.unicode_len();
    let mut out: Vec<char> = Vec::new();
    let mut i: usize = 0;
    while i < n
        invariant
            n == s@.len(),
            i <= n,
            out@ == s@.take(i as int),
        decreases n - i,
    {
        let c = s.get_char(i);
        out.push(c);
        i = i + 1;
        assert(out@ =~= s@.take(i as int));
    }
    assert(out@ =~= s@);
    out
}

/// `String::push`: claimed to append `c` and change nothing else.
#[verifier::external_body]
pub(crate) fn push_char(s: &mut String, c: char)
    ensures
        final(s)@ == old(s)@.push(c),
{
    s.push(c);
}

/// Builds a `String` from a slice of characters.
pub fn string_of(chars: &[char]) -> (r: String)
    ensures
        r@ == chars@,
{
    let mut out = String::new();
    let mut i: usize = 0;
    while i < chars.len()
        invariant
            i <= chars@.len(),
            out@ == chars@.take(i as int),
        decreases chars@.len() - i,
    {
        push_char(&mut out, chars[i]);
        i = i + 1;
        assert(out@ =~= chars@.take(i as int));
    }
    assert(out@ =~= chars@);
    out
}

/// A copy of a string slice as an owned `String`.
pub fn owned(s: &str) -> (r: String)
    ensures
        r@ == s@,
{
    String::from_str(s)
}

/// Appends a string slice to a `String`.
pub fn push_str(s: &mut String, t: &str)
    ensures
        final(s)@ == old(s)@ + t@,
{
    s.append(t);
}

/// Equality of two string slices, character by character.
pub fn str_eq(a: &str, b: &str) -> (r: bool)
    ensures
        r == (a@ == b@),
{
    let x = chars_of(a);
    let y = chars_of(b);
    if x.len() != y.len() {
        return false;
    }
    let mut i: usize = 0;
    while i < x.len()
        invariant
            x@ == a@,
            y@ == b@,
            x@.len() == y@.len(),
            i <= x@.len(),
            forall|j: int| 0 <= j < i ==> x@[j] == y@[j],
        decreases x@.len() - i,
    {
        if x[i] != y[i] {
            return false;
        }
        i = i + 1;
    }
    assert(x@ =~= y@);
    true
}

/// `char::is_whitespace`.
pub fn is_white_space_char(c: char) -> (r: bool)
    ensures
        r == is_white_space(c),
{
    ('\u{9}' <= c && c <= '\u{d}') || c == ' ' || c == '\u{85}' || c == '\u{a0}' || c == '\u{1680}'
        || ('\u{2000}' <= c && c <= '\u{200a}') || c == '\u{2028}' || c == '\u{2029}' || c
        == '\u{202f}' || c == '\u{205f}' || c == '\u{3000}'
}

/// `s.trim().is_empty()`.
pub fn is_blank(s: &str) -> (r: bool)
    ensures
        r == is_blank_spec(s@),
{
    let cs = chars_of(s);
    let mut i: usize = 0;
    while i < cs.len()
        invariant
            cs@ == s@,
            i <= cs@.len(),
            forall|j: int| 0 <= j < i ==> is_white_space(#[trigger] cs@[j]),
        decreases cs@.len() - i,
    {
        if !is_white_space_char(cs[i]) {
            return false;
        }
        i = i + 1;
    }
    true
}

/// `char::to_ascii_lowercase`.
pub fn to_ascii_lower(c: char) -> (r: char)
    ensures
        r == ascii_lower(c),
{
    if 'A' <= c && c <= 'Z' {
        let b: u8 = (c as u32) as u8 + 32;
        b as char
    } else {
        c
    }
}

/// `s` starts with the two characters `a`, `b`, in any ASCII case.
pub fn starts_with_ci(s: &str, a: char, b: char) -> (r: bool)
    ensures
        r == (s@.len() >= 2 && ascii_lower(s@[0]) == a && ascii_lower(s@[1]) == b),
{
    let cs = chars_of(s);
    cs.len() >= 2 && to_ascii_lower(cs[0]) == a && to_ascii_lower(cs[1]) == b
}

/// The decimal digit character of `d < 10`.
pub fn digit_to_char(d: u64) -> (c: char)
    requires
        d < 10,
    ensures
        c == digit_char(d as nat),
{
    if d == 0 { '0' }
    else if d == 1 { '1' }
    else if d == 2 { '2' }
    else if d == 3 { '3' }
    else if d == 4 { '4' }
    else if d == 5 { '5' }
    else if d == 6 { '6' }
    else if d == 7 { '7' }
    else if d == 8 { '8' }
    else { '9' }
}

/// Appends the decimal notation of `n`.
pub fn push_decimal(s: &mut String, n: u64)
    ensures
        final(s)@ == old(s)@ + decimal(n as nat),
    decreases n,
{
    if n < 10 {
        let c = digit_to_char(n);
        push_char(s, c);
        assert(decimal(n as nat) =~= seq![digit_char(n as nat)]);
    } else {
        push_decimal(s, n / 10);
        let c = digit_to_char(n % 10);
        push_char(s, c);
    }
}

/// Appends the decimal notation of a signed number.
pub fn push_signed_decimal(s: &mut String, n: i64)
    ensures
        final(s)@ == old(s)@ + signed_decimal(n as int),
{
    if n < 0 {
        push_char(s, '-');
        let m: u64 = if n == i64::MIN {
            9223372036854775808u64
        } else {
            (-n) as u64
        };
        push_decimal(s, m);
        assert(final(s)@ =~= old(s)@ + signed_decimal(n as int));
    } else {
        push_decimal(s, n as u64);
    }
}

proof fn lemma_trim_end_prefix(s: Seq<char>, c: char, k: int)
    requires
        0 <= k <= s.len(),
        forall|j: int| k <= j < s.len() ==> s[j] == c,
        k == 0 || s[k - 1] != c,
    ensures
        trim_end_char(s, c) == s.take(k),
    decreases s.len(),
{
    if s.len() > k {
        assert(s.drop_last().take(k) =~= s.take(k));
        lemma_trim_end_prefix(s.drop_last(), c, k);
    } else {
        assert(s.take(k) =~= s);
        if k > 0 {
            assert(s.last() == s[k - 1]);
        }
    }
}

/// Law: removing trailing `c` leaves no trailing `c`, and one more trailing
/// `c` on the input changes nothing.
pub proof fn lemma_trim_end_char(s: Seq<char>, c: char)
    ensures
        trim_end_char(s, c).len() == 0 || trim_end_char(s, c).last() != c,
        trim_end_char(s.push(c), c) == trim_end_char(s, c),
        trim_end_char(s, c).len() <= s.len(),
    decreases s.len(),
{
    assert(s.push(c).drop_last() =~= s);
    if s.len() > 0 && s.last() == c {
        lemma_trim_end_char(s.drop_last(), c);
    }
}

/// `s.trim_end_matches(c)` as a new `String`.
pub fn trim_end_matches_char(s: &str, c: char) -> (r: String)
    ensures
        r@ == trim_end_char(s@, c),
{
    let cs = chars_of(s);
    let mut k: usize = cs.len();
    while k > 0 && cs[k - 1] == c
        invariant
            cs@ == s@,
            k <= cs@.len(),
            forall|j: int| k <= j < cs@.len() ==> cs@[j] == c,
        decreases k,
    {
        k = k - 1;
    }
    proof {
        lemma_trim_end_prefix(s@, c, k as int);
    }
    let mut out = String::new();
    let mut i: usize = 0;
    while i < k
        invariant
            cs@ == s@,
            i <= k <= cs@.len(),
            out@ == s@.take(i as int),
        decreases k - i,
    {
        push_char(&mut out, cs[i]);
        i = i + 1;
        assert(out@ =~= s@.take(i as int));
    }
    out
}

proof fn lemma_index_of(s: Seq<char>, c: char, k: int)
    requires
        0 <= k <= s.len(),
        forall|j: int| 0 <= j < k ==> #[trigger] s[j] != c,
        k == s.len() || s[k] == c,
    ensures
        index_of(s, c) == k,
    decreases k,
{
    if k > 0 {
        let t = s.drop_first();
        assert forall|j: int| 0 <= j < k - 1 implies #[trigger] t[j] != c by {
            assert(t[j] == s[j + 1]);
        }
        if k - 1 < t.len() {
            assert(t[k - 1] == s[k]);
        }
        lemma_index_of(t, c, k - 1);
    } else if s.len() > 0 {
        assert(s[0] == c);
    }
}

/// Position of the first `c` at or after `from` in `s`, or `s.len()`.
pub fn find_char(s: &Vec<char>, from: usize, c: char) -> (r: usize)
    requires
        from <= s@.len(),
    ensures
        r == from + index_of(s@.skip(from as int), c),
        r <= s@.len(),
{
    let mut k: usize = from;
    while k < s.len() && s[k] != c
        invariant
            from <= k <= s@.len(),
            forall|j: int| from <= j < k ==> s@[j] != c,
        decreases s@.len() - k,
    {
        k = k + 1;
    }
    proof {
        let t = s@.skip(from as int);
        assert forall|j: int| 0 <= j < k - from implies #[trigger] t[j] != c by {
            assert(t[j] == s@[j + from]);
        }
        if k < s@.len() {
            assert(t[k - from] == s@[k as int]);
        }
        lemma_index_of(t, c, k - from);
    }
    k
}

proof fn lemma_leading_ws(s: Seq<char>, k: int)
    requires
        0 <= k <= s.len(),
        forall|j: int| 0 <= j < k ==> is_white_space(#[trigger] s[j]),
        k == s.len() || !is_white_space(s[k]),
    ensures
        leading_ws(s) == k,
    decreases k,
{
    if k > 0 {
        let t = s.drop_first();
        assert forall|j: int| 0 <= j < k - 1 implies is_white_space(#[trigger] t[j]) by {
            assert(t[j] == s[j + 1]);
        }
        if k - 1 < t.len() {
            assert(t[k - 1] == s[k]);
        }
        lemma_leading_ws(t, k - 1);
    }
}

proof fn lemma_trimmed_end(s: Seq<char>, k: int)
    requires
        0 <= k <= s.len(),
        forall|j: int| k <= j < s.len() ==> is_white_space(#[trigger] s[j]),
        k == 0 || !is_white_space(s[k - 1]),
    ensures
        trimmed_end(s) == k,
    decreases s.len(),
{
    if s.len() > k {
        assert(is_white_space(s[s.len() - 1]));
        let t = s.drop_last();
        assert forall|j: int| k <= j < t.len() implies is_white_space(#[trigger] t[j]) by {
            assert(t[j] == s[j]);
        }
        if k > 0 {
            assert(t[k - 1] == s[k - 1]);
        }
        lemma_trimmed_end(t, k);
    } else if k > 0 {
        assert(s.last() == s[k - 1]);
    }
}

proof fn lemma_leading_ws_props(s: Seq<char>)
    ensures
        leading_ws(s) <= s.len(),
        forall|j: int| 0 <= j < leading_ws(s) ==> is_white_space(#[trigger] s[j]),
        leading_ws(s) < s.len() ==> !is_white_space(s[leading_ws(s) as int]),
    decreases s.len(),
{
    if s.len() > 0 && is_white_space(s[0]) {
        let t = s.drop_first();
        lemma_leading_ws_props(t);
        assert forall|j: int| 0 <= j < leading_ws(s) implies is_white_space(#[trigger] s[j]) by {
            if j > 0 {
                assert(s[j] == t[j - 1]);
            }
        }
        if leading_ws(s) < s.len() {
            assert(s[leading_ws(s) as int] == t[leading_ws(t) as int]);
        }
    }
}

proof fn lemma_trimmed_end_props(s: Seq<char>)
    ensures
        trimmed_end(s) <= s.len(),
        forall|j: int| trimmed_end(s) <= j < s.len() ==> is_white_space(#[trigger] s[j]),
        trimmed_end(s) > 0 ==> !is_white_space(s[trimmed_end(s) - 1]),
    decreases s.len(),
{
    if s.len() > 0 && is_white_space(s.last()) {
        let t = s.drop_last();
        lemma_trimmed_end_props(t);
        assert forall|j: int| trimmed_end(s) <= j < s.len() implies is_white_space(#[trigger] s[j]) by {
            if j < t.len() {
                assert(s[j] == t[j]);
            }
        }
        if trimmed_end(s) > 0 {
            assert(s[trimmed_end(s) - 1] == t[trimmed_end(t) - 1]);
        }
    }
}

/// Law: trimming keeps one contiguous run of the text: only white space
/// stands before and after it, and the run neither starts nor ends with
/// white space.
pub proof fn lemma_trim_ws(s: Seq<char>)
    ensures
        exists|a: int, b: int|
            0 <= a <= b <= s.len() && trim_ws(s) == s.subrange(a, b) && (forall|j: int|
                0 <= j < a ==> is_white_space(#[trigger] s[j])) && (forall|j: int|
                b <= j < s.len() ==> is_white_space(#[trigger] s[j])) && (a < b ==> !is_white_space(s[a])
                && !is_white_space(s[b - 1])),
{
    lemma_leading_ws_props(s);
    let a = leading_ws(s) as int;
    let t = s.skip(a);
    lemma_trimmed_end_props(t);
    let b = a + trimmed_end(t);
    assert(trim_ws(s) =~= s.subrange(a, b));
    assert forall|j: int| b <= j < s.len() implies is_white_space(#[trigger] s[j]) by {
        assert(s[j] == t[j - a]);
    }
    if a < b {
        assert(s[a] == t[0]);
        assert(s[b - 1] == t[trimmed_end(t) - 1]);
    }
}

/// The bounds `(start, end)` of `s[from..to]` without leading and trailing
/// white space.
pub fn trim_range(s: &Vec<char>, from: usize, to: usize) -> (r: (usize, usize))
    requires
        from <= to <= s@.len(),
    ensures
        from <= r.0 <= r.1 <= to,
        s@.subrange(r.0 as int, r.1 as int) == trim_ws(s@.subrange(from as int, to as int)),
{
    let ghost v = s@.subrange(from as int, to as int);
    let mut a: usize = from;
    while a < to && is_white_space_char(s[a])
        invariant
            from <= a <= to <= s@.len(),
            forall|j: int| from <= j < a ==> is_white_space(#[trigger] s@[j]),
        decreases to - a,
    {
        a = a + 1;
    }
    proof {
        assert forall|j: int| 0 <= j < a - from implies is_white_space(#[trigger] v[j]) by {
            assert(v[j] == s@[j + from]);
        }
        if a < to {
            assert(v[a - from] == s@[a as int]);
        }
        lemma_leading_ws(v, a - from);
    }
    let mut b: usize = to;
    while b > a && is_white_space_char(s[b - 1])
        invariant
            a <= b <= to <= s@.len(),
            forall|j: int| b <= j < to ==> is_white_space(#[trigger] s@[j]),
        decreases b,
    {
        b = b - 1;
    }
    proof {
        let t = v.skip(a - from);
        assert(t =~= s@.subrange(a as int, to as int));
        assert forall|j: int| b - a <= j < t.len() implies is_white_space(#[trigger] t[j]) by {
            assert(t[j] == s@[j + a]);
        }
        if b > a {
            assert(t[b - a - 1] == s@[b - 1]);
        }
        lemma_trimmed_end(t, b - a);
        assert(t.take(b - a) =~= s@.subrange(a as int, b as int));
    }
    (a, b)
}

/// `s[from..to].parse::<usize>()`.
pub fn parse_usize_range(s: &Vec<char>, from: usize, to: usize) -> (r: Option<usize>)
    requires
        from <= to <= s@.len(),
    ensures
        match parse_usize_spec(s@.subrange(from as int, to as int)) {
            Some(v) => r == Some(v as usize),
            None => r is None,
        },
{
    let ghost whole = s@.subrange(from as int, to as int);
    let start: usize = if from < to && s[from] == '+' { from + 1 } else { from };
    let ghost d = s@.subrange(start as int, to as int);
    assert(d =~= unsigned_digits(whole));
    if start == to {
        return None;
    }
    let mut value: usize = 0;
    let mut i: usize = start;
    while i < to
        invariant
            from <= start <= i <= to <= s@.len(),
            start < to,
            d == s@.subrange(start as int, to as int),
            whole == s@.subrange(from as int, to as int),
            d == unsigned_digits(whole),
            forall|j: int| start <= j < i ==> is_digit(#[trigger] s@[j]),
            value == digits_value(s@.subrange(start as int, i as int)),
        decreases to - i,
    {
        let c = s[i];
        if !('0' <= c && c <= '9') {
            assert(!is_digit(d[i - start]));
            assert(!all_digits(d));
            return None;
        }
        let dg: usize = (c as u32 - '0' as u32) as usize;
        assert(dg == digit_value(c));
        let ghost next = s@.subrange(start as int, i + 1);
        assert(next.drop_last() =~= s@.subrange(start as int, i as int));
        if value > (usize::MAX - dg) / 10 {
            proof {
                assert(d.take(i + 1 - start) =~= next);
                assert forall|j: int| 0 <= j < d.len() implies is_digit(#[trigger] d[j]) || j >= i + 1 - start by {
                    if j < i + 1 - start {
                        assert(d[j] == s@[j + start]);
                    }
                }
                lemma_digits_value_prefix_bound(d, i + 1 - start);
                if all_digits(d) {
                    assert(digits_value(d) > usize::MAX);
                }
            }
            return None;
        }
        value = value * 10 + dg;
        i = i + 1;
    }
    assert(s@.subrange(start as int, to as int) =~= d);
    assert(forall|j: int| 0 <= j < d.len() ==> is_digit(#[trigger] d[j]) <== forall|j: int| start <= j < to ==> is_digit(#[trigger] s@[j]));
    assert forall|j: int| 0 <= j < d.len() implies is_digit(#[trigger] d[j]) by {
        assert(d[j] == s@[j + start]);
    }
    Some(value)
}

/// Longer digit strings never have smaller values.
proof fn lemma_digits_value_prefix_bound(d: Seq<char>, k: int)
    requires
        0 <= k <= d.len(),
        forall|j: int| 0 <= j < d.len() ==> is_digit(#[trigger] d[j]) || j >= k,
    ensures
        digits_value(d.take(k)) <= digits_value(d) || exists|j: int| k <= j < d.len() && !is_digit(d[j]),
    decreases d.len() - k,
{
    if k < d.len() {
        if is_digit(d[k]) {
            lemma_digits_value_prefix_bound(d, k + 1);
            assert(d.take(k + 1).drop_last() =~= d.take(k));
            assert(digits_value(d.take(k)) <= digits_value(d.take(k + 1)));
        } else {
            assert(k <= k < d.len() && !is_digit(d[k]));
        }
    } else {
        assert(d.take(k) =~= d);
    }
}

/// Decimal notation of an unsigned number as a new `String`.
pub fn decimal_string(n: u64) -> (r: String)
    ensures
        r@ == decimal(n as nat),
{
    let mut s = String::new();
    push_decimal(&mut s, n);
    assert(s@ =~= decimal(n as nat));
    s
}

/// The text of a boolean as `Display` writes it.
pub open spec fn bool_text(b: bool) -> Seq<char> {
    if b {
        "true"@
    } else {
        "false"@
    }
}

/// `b.to_string()`.
pub fn bool_string(b: bool) -> (r: String)
    ensures
        r@ == bool_text(b),
{
    if b {
        owned("true")
    } else {
        owned("false")
    }
}

/// `n.to_string()` of a signed number.
pub fn signed_string(n: i64) -> (r: String)
    ensures
        r@ == signed_decimal(n as int),
{
    let mut s = String::new();
    push_signed_decimal(&mut s, n);
    assert(s@ =~= signed_decimal(n as int));
    s
}

/// The `Debug` text of a string slice: quoted, with escapes.
pub uninterp spec fn debug_text(s: Seq<char>) -> Seq<char>;

/// `format!("{s:?}")`, the `Debug` text of a string slice: claimed to be
/// `debug_text` of the slice, which is left unstated beyond its name.
#[verifier::external_body]
pub(crate) fn debug_quoted(s: &str) -> (r: String)
    ensures
        r@ == debug_text(s@),
{
    format!("{s:?}")
}

} // verus!
