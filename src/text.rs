//! Character-level helpers on text: comparison, whitespace-separated words and
//! decimal numbers.
use vstd::prelude::*;

verus! {

/// Unicode `White_Space`, the set that splits words in a status line.
pub open spec fn is_ws(c: char) -> bool {
    c == '\t' || c == '\n' || c == '\u{0B}' || c == '\u{0C}' || c == '\r' || c == ' '
        || c == '\u{85}' || c == '\u{A0}' || c == '\u{1680}' || ('\u{2000}' <= c
        && c <= '\u{200A}') || c == '\u{2028}' || c == '\u{2029}' || c == '\u{202F}'
        || c == '\u{205F}' || c == '\u{3000}'
}

pub fn is_whitespace(c: char) -> (r: bool)
    ensures
        r == is_ws(c),
{
    c == '\t' || c == '\n' || c == '\u{0B}' || c == '\u{0C}' || c == '\r' || c == ' '
        || c == '\u{85}' || c == '\u{A0}' || c == '\u{1680}' || ('\u{2000}' <= c
        && c <= '\u{200A}') || c == '\u{2028}' || c == '\u{2029}' || c == '\u{202F}'
        || c == '\u{205F}' || c == '\u{3000}'
}

/// Whether two texts hold the same characters.
pub fn same_text(a: &str, b: &str) -> (r: bool)
    ensures
        r == (a@ == b@),
{
    let n = a.unicode_len();
    if n != b.unicode_len() {
        return false;
    }
    let mut i: usize = 0;
    while i < n
        invariant
            n == a@.len(),
            n == b@.len(),
            i <= n,
            a@.subrange(0, i as int) == b@.subrange(0, i as int),
        decreases n - i,
    {
        if a.get_char(i) != b.get_char(i) {
            assert(a@[i as int] != b@[i as int]);
            return false;
        }
        assert(a@.subrange(0, i + 1) == a@.subrange(0, i as int).push(a@[i as int]));
        assert(b@.subrange(0, i + 1) == b@.subrange(0, i as int).push(b@[i as int]));
        i = i + 1;
    }
    assert(a@ == a@.subrange(0, n as int));
    assert(b@ == b@.subrange(0, n as int));
    true
}

/// Whether `s` ends with `suffix`.
pub open spec fn has_suffix(s: Seq<char>, suffix: Seq<char>) -> bool {
    suffix.len() <= s.len() && s.subrange(s.len() - suffix.len(), s.len() as int) == suffix
}

pub fn ends_with(s: &str, suffix: &str) -> (r: bool)
    ensures
        r == has_suffix(s@, suffix@),
{
    let n = s.unicode_len();
    let m = suffix.unicode_len();
    if m > n {
        return false;
    }
    let tail = s.substring_char(n - m, n);
    same_text(tail, suffix)
}

/// The first position at or after `i` that does not hold whitespace.
pub open spec fn skip_ws(s: Seq<char>, i: int) -> int
    decreases s.len() - i,
{
    if i < 0 || i >= s.len() || !is_ws(s[i]) {
        i
    } else {
        skip_ws(s, i + 1)
    }
}

/// The first position at or after `i` that holds whitespace.
pub open spec fn skip_word(s: Seq<char>, i: int) -> int
    decreases s.len() - i,
{
    if i < 0 || i >= s.len() || is_ws(s[i]) {
        i
    } else {
        skip_word(s, i + 1)
    }
}

proof fn lemma_skip_bounds(s: Seq<char>, i: int)
    requires
        0 <= i <= s.len(),
    ensures
        i <= skip_ws(s, i) <= s.len(),
        i <= skip_word(s, i) <= s.len(),
    decreases s.len() - i,
{
    if i < s.len() {
        lemma_skip_bounds(s, i + 1);
    }
}

fn scan(s: &str, n: usize, from: usize, want_ws: bool) -> (r: usize)
    requires
        n == s@.len(),
        from <= n,
    ensures
        want_ws ==> r == skip_word(s@, from as int),
        !want_ws ==> r == skip_ws(s@, from as int),
        from <= r <= n,
{
    let mut i = from;
    while i < n && is_whitespace(s.get_char(i)) != want_ws
        invariant
            n == s@.len(),
            from <= i <= n,
            want_ws ==> skip_word(s@, from as int) == skip_word(s@, i as int),
            !want_ws ==> skip_ws(s@, from as int) == skip_ws(s@, i as int),
        decreases n - i,
    {
        i = i + 1;
    }
    i
}

/// The second word of `s`, words being the maximal runs without whitespace.
pub open spec fn second_word(s: Seq<char>) -> Option<Seq<char>> {
    let a = skip_word(s, skip_ws(s, 0));
    let b = skip_ws(s, a);
    if b < s.len() {
        Some(s.subrange(b, skip_word(s, b)))
    } else {
        None
    }
}

pub fn second_word_of(s: &str) -> (r: Option<&str>)
    ensures
        r matches Some(w) ==> second_word(s@) == Some(w@),
        r is None ==> second_word(s@) is None,
{
    let n = s.unicode_len();
    proof {
        lemma_skip_bounds(s@, 0);
    }
    let a0 = scan(s, n, 0, false);
    let a1 = scan(s, n, a0, true);
    let b0 = scan(s, n, a1, false);
    if b0 < n {
        let b1 = scan(s, n, b0, true);
        Some(s.substring_char(b0, b1))
    } else {
        None
    }
}


pub open spec fn is_digit(c: char) -> bool {
    '0' <= c && c <= '9'
}

pub open spec fn digit_value(c: char) -> nat {
    (c as u32 - '0' as u32) as nat
}

/// The number that a run of decimal digits spells.
pub open spec fn digits_value(d: Seq<char>) -> nat
    decreases d.len(),
{
    if d.len() == 0 {
        0
    } else {
        digits_value(d.drop_last()) * 10 + digit_value(d.last())
    }
}

pub open spec fn all_digits(d: Seq<char>) -> bool {
    forall|i: int| 0 <= i < d.len() ==> is_digit(#[trigger] d[i])
}

/// The digits of an unsigned number, after an optional leading `+`.
pub open spec fn unsigned_digits(t: Seq<char>) -> Seq<char> {
    if t.len() > 0 && t[0] == '+' {
        t.subrange(1, t.len() as int)
    } else {
        t
    }
}

/// A decimal `u16`: an optional `+`, then one or more digits, of value at most 65535.
pub open spec fn parse_u16_spec(t: Seq<char>) -> Option<u16> {
    let d = unsigned_digits(t);
    if d.len() > 0 && all_digits(d) && digits_value(d) <= u16::MAX {
        Some(digits_value(d) as u16)
    } else {
        None
    }
}

proof fn lemma_digits_value_grows(d: Seq<char>, i: int, j: int)
    requires
        0 <= i <= j <= d.len(),
    ensures
        digits_value(d.subrange(0, i)) <= digits_value(d.subrange(0, j)),
    decreases j - i,
{
    if i < j {
        lemma_digits_value_grows(d, i, j - 1);
        assert(d.subrange(0, j).drop_last() == d.subrange(0, j - 1));
    }
}

/// Reads a decimal `u16` as `str::parse` does.
pub fn parse_u16(t: &str) -> (r: Option<u16>)
    ensures
        r == parse_u16_spec(t@),
{
    let n = t.unicode_len();
    let start: usize = if n > 0 && t.get_char(0) == '+' { 1 } else { 0 };
    let ghost d = unsigned_digits(t@);
    assert(d == t@.subrange(start as int, n as int));
    if start == n {
        return None;
    }
    let mut acc: u32 = 0;
    let mut i: usize = start;
    while i < n
        invariant
            n == t@.len(),
            start <= i <= n,
            d == t@.subrange(start as int, n as int),
            d == unsigned_digits(t@),
            all_digits(d.subrange(0, i - start)),
            acc as nat == digits_value(d.subrange(0, i - start)),
            acc <= u16::MAX,
        decreases n - i,
    {
        let c = t.get_char(i);
        let ghost k = (i - start) as int;
        assert(d[k] == c);
        if c < '0' || c > '9' {
            assert(!is_digit(d[k]));
            assert(!all_digits(d));
            return None;
        }
        let v = (c as u32) - ('0' as u32);
        assert(d.subrange(0, k + 1).drop_last() == d.subrange(0, k));
        assert(d.subrange(0, k + 1).last() == c);
        assert(digits_value(d.subrange(0, k + 1)) == acc * 10 + v);
        if acc * 10 + v > 65535 {
            proof {
                if all_digits(d) {
                    assert(d.len() > 0);
                    lemma_digits_value_grows(d, k + 1, d.len() as int);
                    assert(d.subrange(0, d.len() as int) == d);
                    assert(digits_value(d) > u16::MAX);
                }
            }
            return None;
        }
        acc = acc * 10 + v;
        assert(all_digits(d.subrange(0, k + 1))) by {
            assert forall|j: int| 0 <= j < k + 1 implies is_digit(#[trigger] d.subrange(0, k + 1)[j]) by {
                if j < k {
                    assert(d.subrange(0, k + 1)[j] == d.subrange(0, k)[j]);
                }
            }
        }
        i = i + 1;
    }
    assert(d.subrange(0, n - start) == d);
    Some(acc as u16)
}

/// The decimal digit for a value below ten.
pub open spec fn digit_char(v: nat) -> char {
    seq!['0', '1', '2', '3', '4', '5', '6', '7', '8', '9'][v as int]
}

/// A number in decimal, without leading zeros.
pub open spec fn decimal(n: nat) -> Seq<char>
    decreases n,
{
    if n < 10 {
        seq![digit_char(n)]
    } else {
        decimal(n / 10).push(digit_char(n % 10))
    }
}

fn digit_text(v: u64) -> (r: String)
    requires
        v < 10,
    ensures
        r@ == seq![digit_char(v as nat)],
{
    let digits = "0123456789";
    proof {
        reveal_strlit("0123456789");
    }
    let d = digits.substring_char(v as usize, v as usize + 1);
    assert(d@ =~= seq![digit_char(v as nat)]);
    String::from_str(d)
}

/// Writes a number in decimal.
pub fn decimal_text(n: u64) -> (r: String)
    ensures
        r@ == decimal(n as nat),
    decreases n,
{
    if n < 10 {
        digit_text(n)
    } else {
        let mut s = decimal_text(n / 10);
        let d = digit_text(n % 10);
        s.append(d.as_str());
        s
    }
}

/// An integer in decimal, with a leading `-` when it is negative.
pub open spec fn signed_decimal(n: int) -> Seq<char> {
    if n < 0 {
        "-"@ + decimal((-n) as nat)
    } else {
        decimal(n as nat)
    }
}

/// Writes an integer in decimal, with a leading `-` when it is negative.
pub fn signed_decimal_text(n: i32) -> (r: String)
    ensures
        r@ == signed_decimal(n as int),
{
    if n < 0 {
        let m = (-(n as i64)) as u64;
        let d = decimal_text(m);
        let mut r = String::from_str("-");
        r.append(d.as_str());
        r
    } else {
        decimal_text(n as u64)
    }
}

/// The items of a list in decimal, separated by `, `.
pub open spec fn decimal_items(ns: Seq<u16>) -> Seq<char>
    decreases ns.len(),
{
    if ns.len() == 0 {
        Seq::empty()
    } else if ns.len() == 1 {
        decimal(ns[0] as nat)
    } else {
        decimal_items(ns.drop_last()) + ", "@ + decimal(ns.last() as nat)
    }
}

/// A list of numbers as `[a, b, c]`.
pub open spec fn list_text_spec(ns: Seq<u16>) -> Seq<char> {
    "["@ + decimal_items(ns) + "]"@
}

/// Writes a list of numbers as `[a, b, c]`.
pub fn list_text(ns: &Vec<u16>) -> (r: String)
    ensures
        r@ == list_text_spec(ns@),
{
    let mut items = String::new();
    let mut i: usize = 0;
    while i < ns.len()
        invariant
            i <= ns@.len(),
            items@ == decimal_items(ns@.subrange(0, i as int)),
        decreases ns@.len() - i,
    {
        let ghost pre = ns@.subrange(0, i as int);
        assert(ns@.subrange(0, i + 1).drop_last() == pre);
        if i > 0 {
            items.append(", ");
        }
        let d = decimal_text(ns[i] as u64);
        items.append(d.as_str());
        proof {
            if i == 0 {
                assert(items@ =~= decimal(ns@[0] as nat));
            } else {
                assert(items@ =~= decimal_items(pre) + ", "@ + decimal(ns@[i as int] as nat));
            }
        }
        i = i + 1;
    }
    assert(ns@.subrange(0, ns@.len() as int) == ns@);
    let mut r = String::from_str("[");
    r.append(items.as_str());
    r.append("]");
    r
}

} // verus!
