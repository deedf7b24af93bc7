//! Character classes and small text operations shared by the decoders.

use vstd::prelude::*;

verus! {

/// The characters that carry the Unicode `White_Space` property.
pub open spec fn is_space_spec(c: char) -> bool {
    ||| ('\u{9}' <= c && c <= '\u{d}')
    ||| c == ' '
    ||| c == '\u{85}'
    ||| c == '\u{a0}'
    ||| c == '\u{1680}'
    ||| ('\u{2000}' <= c && c <= '\u{200a}')
    ||| c == '\u{2028}'
    ||| c == '\u{2029}'
    ||| c == '\u{202f}'
    ||| c == '\u{205f}'
    ||| c == '\u{3000}'
}

/// Whether `c` is white space in the sense of `str::trim`.
pub fn is_space(c: char) -> (r: bool)
    ensures
        r == is_space_spec(c),
{
    ('\u{9}' <= c && c <= '\u{d}') || c == ' ' || c == '\u{85}' || c == '\u{a0}' || c == '\u{1680}'
        || ('\u{2000}' <= c && c <= '\u{200a}') || c == '\u{2028}' || c == '\u{2029}' || c
        == '\u{202f}' || c == '\u{205f}' || c == '\u{3000}'
}

pub open spec fn is_digit_spec(c: char) -> bool {
    '0' <= c && c <= '9'
}

/// Whether `c` is one of the ASCII decimal digits.
pub fn is_digit(c: char) -> (r: bool)
    ensures
        r == is_digit_spec(c),
{
    '0' <= c && c <= '9'
}

/// The characters of `s`, in order.
pub fn chars_of(s: &str) -> (r: Vec<char>)
    ensures
        r@ == s@,
{
    let mut r: Vec<char> = Vec::new();
    for c in it: s.chars()
        invariant
            r@ == it.seq().take(it.index() as int),
    {
        r.push(c);
    }
    r
}

/// Relies on `String::push`: the character is appended at the end of the string.
#[verifier::external_body]
fn push_char(s: &mut String, c: char)
    ensures
        final(s)@ == old(s)@.push(c),
{
    s.push(c);
}

/// A new string holding the characters `v[from..to]`.
pub fn string_from(v: &Vec<char>, from: usize, to: usize) -> (r: String)
    requires
        from <= to <= v@.len(),
    ensures
        r@ == v@.subrange(from as int, to as int),
{
    let mut r = String::new();
    let mut i = from;
    while i < to
        invariant
            from <= i <= to <= v@.len(),
            r@ == v@.subrange(from as int, i as int),
        decreases to - i,
    {
        push_char(&mut r, v[i]);
        assert(v@.subrange(from as int, i + 1) == v@.subrange(from as int, i as int).push(v@[i as int]));
        i = i + 1;
    }
    r
}

/// `s` without its leading white space.
pub open spec fn trim_start(s: Seq<char>) -> Seq<char>
    decreases s.len(),
{
    if s.len() > 0 && is_space_spec(s[0]) {
        trim_start(s.drop_first())
    } else {
        s
    }
}

/// `s` without its trailing white space.
pub open spec fn trim_end(s: Seq<char>) -> Seq<char>
    decreases s.len(),
{
    if s.len() > 0 && is_space_spec(s.last()) {
        trim_end(s.drop_last())
    } else {
        s
    }
}

/// `s` without white space at either end, as `str::trim` leaves it.
pub open spec fn trim(s: Seq<char>) -> Seq<char> {
    trim_end(trim_start(s))
}

/// Stripping the first `k` characters is trimming the start, when they are exactly the
/// leading white space.
pub proof fn lemma_trim_start_at(s: Seq<char>, k: int)
    requires
        0 <= k <= s.len(),
        forall|i: int| 0 <= i < k ==> is_space_spec(#[trigger] s[i]),
        k == s.len() || !is_space_spec(s[k]),
    ensures
        trim_start(s) == s.subrange(k, s.len() as int),
    decreases k,
{
    if k == 0 {
        assert(s.subrange(0, s.len() as int) == s);
    } else {
        let t = s.drop_first();
        assert forall|i: int| 0 <= i < k - 1 implies is_space_spec(#[trigger] t[i]) by {
            assert(t[i] == s[i + 1]);
        }
        lemma_trim_start_at(t, k - 1);
        assert(t.subrange(k - 1, t.len() as int) == s.subrange(k, s.len() as int));
    }
}

/// Keeping the first `k` characters is trimming the end, when the rest is exactly the
/// trailing white space.
pub proof fn lemma_trim_end_at(s: Seq<char>, k: int)
    requires
        0 <= k <= s.len(),
        forall|i: int| k <= i < s.len() ==> is_space_spec(#[trigger] s[i]),
        k == 0 || !is_space_spec(s[k - 1]),
    ensures
        trim_end(s) == s.subrange(0, k),
    decreases s.len() - k,
{
    if k == s.len() {
        assert(s.subrange(0, k) == s);
    } else {
        let t = s.drop_last();
        assert forall|i: int| k <= i < t.len() implies is_space_spec(#[trigger] t[i]) by {
            assert(t[i] == s[i]);
        }
        lemma_trim_end_at(t, k);
        assert(t.subrange(0, k) == s.subrange(0, k));
    }
}

/// The first index in `from..to` that does not hold white space, or `to`.
pub fn skip_spaces(v: &Vec<char>, from: usize, to: usize) -> (r: usize)
    requires
        from <= to <= v@.len(),
    ensures
        from <= r <= to,
        trim_start(v@.subrange(from as int, to as int)) == v@.subrange(r as int, to as int),
{
    let mut i = from;
    while i < to && is_space(v[i])
        invariant
            from <= i <= to <= v@.len(),
            forall|j: int| from <= j < i ==> is_space_spec(#[trigger] v@[j]),
        decreases to - i,
    {
        i = i + 1;
    }
    proof {
        let s = v@.subrange(from as int, to as int);
        assert forall|j: int| 0 <= j < i - from implies is_space_spec(#[trigger] s[j]) by {
            assert(s[j] == v@[from + j]);
        }
        lemma_trim_start_at(s, i - from);
        assert(s.subrange(i - from, s.len() as int) == v@.subrange(i as int, to as int));
    }
    i
}

/// The bounds of `v[from..to]` with white space at both ends removed.
pub fn trim_bounds(v: &Vec<char>, from: usize, to: usize) -> (r: (usize, usize))
    requires
        from <= to <= v@.len(),
    ensures
        from <= r.0 <= r.1 <= to,
        trim(v@.subrange(from as int, to as int)) == v@.subrange(r.0 as int, r.1 as int),
{
    let start = skip_spaces(v, from, to);
    let mut end = to;
    while end > start && is_space(v[end - 1])
        invariant
            from <= start <= end <= to <= v@.len(),
            forall|j: int| end <= j < to ==> is_space_spec(#[trigger] v@[j]),
        decreases end,
    {
        end = end - 1;
    }
    proof {
        let s = v@.subrange(start as int, to as int);
        assert forall|j: int| end - start <= j < s.len() implies is_space_spec(#[trigger] s[j]) by {
            assert(s[j] == v@[start + j]);
        }
        lemma_trim_end_at(s, end - start);
        assert(s.subrange(0, end - start) == v@.subrange(start as int, end as int));
    }
    (start, end)
}

/// The number of decimal digits at the start of `s`.
pub open spec fn leading_digit_count(s: Seq<char>) -> nat
    decreases s.len(),
{
    if s.len() > 0 && is_digit_spec(s[0]) {
        1 + leading_digit_count(s.drop_first())
    } else {
        0
    }
}

/// The end of the run of decimal digits that starts at `from`, bounded by `to`.
pub fn digits_end(v: &Vec<char>, from: usize, to: usize) -> (r: usize)
    requires
        from <= to <= v@.len(),
    ensures
        from <= r <= to,
        r - from == leading_digit_count(v@.subrange(from as int, to as int)),
        forall|j: int| from <= j < r ==> is_digit_spec(#[trigger] v@[j]),
{
    let mut i = from;
    while i < to && is_digit(v[i])
        invariant
            from <= i <= to <= v@.len(),
            forall|j: int| from <= j < i ==> is_digit_spec(#[trigger] v@[j]),
            leading_digit_count(v@.subrange(from as int, to as int)) == (i - from)
                + leading_digit_count(v@.subrange(i as int, to as int)),
        decreases to - i,
    {
        assert(v@.subrange(i as int, to as int).drop_first() == v@.subrange(i + 1, to as int));
        i = i + 1;
    }
    i
}

/// The maximal run of decimal digits at the start of `text`.
pub fn get_leading_digits(text: &str) -> (r: &str)
    ensures
        r@ == text@.take(leading_digit_count(text@) as int),
{
    let v = chars_of(text);
    let end = digits_end(&v, 0, v.len());
    assert(v@.subrange(0, v@.len() as int) == v@);
    text.substring_char(0, end)
}

/// The value of a string of decimal digits.
pub open spec fn digits_value(s: Seq<char>) -> int
    decreases s.len(),
{
    if s.len() == 0 {
        0
    } else {
        digits_value(s.drop_last()) * 10 + (s.last() as int - '0' as int)
    }
}

proof fn lemma_digits_value_grows(s: Seq<char>, k: int)
    requires
        0 <= k <= s.len(),
        forall|j: int| 0 <= j < s.len() ==> is_digit_spec(#[trigger] s[j]),
    ensures
        0 <= digits_value(s.take(k)) <= digits_value(s),
    decreases s.len(),
{
    if s.len() > 0 {
        if k == s.len() {
            assert(s.take(k) == s);
            lemma_digits_value_grows(s.drop_last(), k - 1);
            assert(s.drop_last().take(k - 1) == s.drop_last());
        } else {
            lemma_digits_value_grows(s.drop_last(), k);
            assert(s.drop_last().take(k) == s.take(k));
            lemma_digits_value_grows(s.drop_last(), s.len() - 1);
            assert(s.drop_last().take(s.len() - 1) == s.drop_last());
        }
    }
}

/// The value of the digits `v[from..to]`, or `None` where it does not fit in a `u128`.
pub fn parse_decimal(v: &Vec<char>, from: usize, to: usize) -> (r: Option<u128>)
    requires
        from <= to <= v@.len(),
        forall|j: int| from <= j < to ==> is_digit_spec(#[trigger] v@[j]),
    ensures
        r is Some <==> digits_value(v@.subrange(from as int, to as int)) <= u128::MAX,
        r matches Some(n) ==> n == digits_value(v@.subrange(from as int, to as int)),
{
    let ghost s = v@.subrange(from as int, to as int);
    let mut n: u128 = 0;
    let mut i = from;
    while i < to
        invariant
            from <= i <= to <= v@.len(),
            s == v@.subrange(from as int, to as int),
            forall|j: int| from <= j < to ==> is_digit_spec(#[trigger] v@[j]),
            n == digits_value(s.take(i - from)),
        decreases to - i,
    {
        let d = (v[i] as u32 - '0' as u32) as u128;
        assert(s.take(i + 1 - from).drop_last() == s.take(i - from));
        assert(s[i - from] == v@[i as int]);
        if n > (u128::MAX - d) / 10 {
            proof {
                assert(n * 10 + d > u128::MAX) by (nonlinear_arith)
                    requires
                        n > (u128::MAX - d) / 10,
                        0 <= d <= 9,
                ;
                assert forall|j: int| 0 <= j < s.len() implies is_digit_spec(#[trigger] s[j]) by {
                    assert(s[j] == v@[from + j]);
                }
                lemma_digits_value_grows(s, i + 1 - from);
            }
            return None;
        }
        proof {
            assert(n * 10 + d <= u128::MAX) by (nonlinear_arith)
                requires
                    n <= (u128::MAX - d) / 10,
                    0 <= d <= 9,
            ;
        }
        n = n * 10 + d;
        i = i + 1;
    }
    assert(s.take(to - from) == s);
    Some(n)
}

/// Ten to the power `n`.
pub open spec fn pow10(n: nat) -> nat
    decreases n,
{
    if n == 0 {
        1
    } else {
        10 * pow10((n - 1) as nat)
    }
}

/// A string of `n` decimal digits is worth less than ten to the power `n`.
pub proof fn lemma_digits_value_below(s: Seq<char>)
    requires
        forall|j: int| 0 <= j < s.len() ==> is_digit_spec(#[trigger] s[j]),
    ensures
        0 <= digits_value(s) < pow10(s.len()),
    decreases s.len(),
{
    if s.len() > 0 {
        let t = s.drop_last();
        assert forall|j: int| 0 <= j < t.len() implies is_digit_spec(#[trigger] t[j]) by {
            assert(t[j] == s[j]);
        }
        lemma_digits_value_below(t);
        assert(is_digit_spec(s[s.len() - 1]));
    }
}

/// Every character of `s` is white space.
pub open spec fn all_spaces(s: Seq<char>) -> bool {
    forall|i: int| 0 <= i < s.len() ==> is_space_spec(#[trigger] s[i])
}

/// Every character of `s` is a decimal digit.
pub open spec fn all_digits(s: Seq<char>) -> bool {
    forall|i: int| 0 <= i < s.len() ==> is_digit_spec(#[trigger] s[i])
}

/// Leading white space does not change what trimming the start leaves.
pub proof fn lemma_trim_start_spaces(a: Seq<char>, b: Seq<char>)
    requires
        all_spaces(a),
    ensures
        trim_start(a + b) == trim_start(b),
    decreases a.len(),
{
    if a.len() > 0 {
        assert((a + b)[0] == a[0]);
        assert((a + b).drop_first() == a.drop_first() + b);
        lemma_trim_start_spaces(a.drop_first(), b);
    } else {
        assert(a + b == b);
    }
}

/// Trailing white space does not change what trimming the end leaves.
pub proof fn lemma_trim_end_spaces(a: Seq<char>, b: Seq<char>)
    requires
        all_spaces(b),
    ensures
        trim_end(a + b) == trim_end(a),
    decreases b.len(),
{
    if b.len() > 0 {
        assert((a + b).last() == b.last());
        assert((a + b).drop_last() == a + b.drop_last());
        lemma_trim_end_spaces(a, b.drop_last());
    } else {
        assert(a + b == a);
    }
}

/// Once a non-space character is seen, trimming the start keeps what follows.
proof fn lemma_trim_start_append(a: Seq<char>, b: Seq<char>)
    requires
        !all_spaces(a),
    ensures
        trim_start(a + b) == trim_start(a) + b,
    decreases a.len(),
{
    assert((a + b)[0] == a[0]);
    if is_space_spec(a[0]) {
        assert((a + b).drop_first() == a.drop_first() + b);
        let t = a.drop_first();
        assert(!all_spaces(t)) by {
            let i = choose|i: int| 0 <= i < a.len() && !is_space_spec(#[trigger] a[i]);
            assert(t[i - 1] == a[i]);
        }
        lemma_trim_start_append(t, b);
    }
}

/// Trimming the start of white space leaves nothing.
proof fn lemma_trim_start_all_spaces(a: Seq<char>)
    requires
        all_spaces(a),
    ensures
        trim_start(a).len() == 0,
    decreases a.len(),
{
    if a.len() > 0 {
        lemma_trim_start_all_spaces(a.drop_first());
    }
}

/// Trailing white space does not change what trimming leaves.
pub proof fn lemma_trim_append_spaces(a: Seq<char>, b: Seq<char>)
    requires
        all_spaces(b),
    ensures
        trim(a + b) == trim(a),
{
    if all_spaces(a) {
        assert(all_spaces(a + b));
        lemma_trim_start_all_spaces(a + b);
        lemma_trim_start_all_spaces(a);
    } else {
        lemma_trim_start_append(a, b);
        lemma_trim_end_spaces(trim_start(a), b);
    }
}

/// A text that starts and ends with a non-space character is its own trim, whatever white
/// space surrounds it.
pub proof fn lemma_trim_around(pre: Seq<char>, x: Seq<char>, post: Seq<char>)
    requires
        all_spaces(pre),
        all_spaces(post),
        x.len() > 0,
        !is_space_spec(x[0]),
        !is_space_spec(x.last()),
    ensures
        trim(pre + x + post) == x,
{
    lemma_trim_append_spaces(pre + x, post);
    lemma_trim_start_spaces(pre, x);
    assert(trim_end(x) == x);
}

/// The digits at the start of `a + b`, when `a` is all digits.
pub proof fn lemma_leading_digits_append(a: Seq<char>, b: Seq<char>)
    requires
        all_digits(a),
    ensures
        leading_digit_count(a + b) == a.len() + leading_digit_count(b),
    decreases a.len(),
{
    if a.len() > 0 {
        assert((a + b)[0] == a[0]);
        assert((a + b).drop_first() == a.drop_first() + b);
        lemma_leading_digits_append(a.drop_first(), b);
    } else {
        assert(a + b == b);
    }
}

/// Whether two texts hold the same characters.
pub fn same_text(a: &str, b: &str) -> (r: bool)
    ensures
        r == (a@ == b@),
{
    let x = chars_of(a);
    let y = chars_of(b);
    if x.len() != y.len() {
        return false;
    }
    let mut i: usize = 0;
    while i < x.len()
        invariant
            i <= x@.len() == y@.len(),
            x@ == a@,
            y@ == b@,
            forall|j: int| 0 <= j < i ==> x@[j] == y@[j],
        decreases x@.len() - i,
    {
        if x[i] != y[i] {
            assert(a@[i as int] != b@[i as int]);
            return false;
        }
        i = i + 1;
    }
    assert(x@ =~= y@);
    true
}

} // verus!
