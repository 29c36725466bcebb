//! Character classes and small string algorithms shared by the editors.

use vstd::prelude::*;

verus! {

/// ASCII letter (`char::is_ascii_alphabetic`).
pub open spec fn is_ascii_alpha(c: char) -> bool {
    ('a' <= c && c <= 'z') || ('A' <= c && c <= 'Z')
}

/// ASCII decimal digit (`char::is_ascii_digit`).
pub open spec fn is_ascii_digit(c: char) -> bool {
    '0' <= c && c <= '9'
}

/// ASCII letter or digit (`char::is_ascii_alphanumeric`).
pub open spec fn is_ascii_alnum(c: char) -> bool {
    is_ascii_alpha(c) || is_ascii_digit(c)
}

/// Characters allowed after the first one of an XML element name.
pub open spec fn is_xml_name_rest(c: char) -> bool {
    is_ascii_alnum(c) || c == '_' || c == '-' || c == '.'
}

/// An XML element name as accepted by `settings.xml`: a letter or `_` first,
/// then letters, digits, `_`, `-` or `.`.
pub open spec fn xml_name(s: Seq<char>) -> bool {
    &&& s.len() > 0
    &&& (is_ascii_alpha(s[0]) || s[0] == '_')
    &&& forall|i: int| 1 <= i < s.len() ==> is_xml_name_rest(#[trigger] s[i])
}

/// Which keys are XML names: exactly the non-empty ones whose first
/// character is an ASCII letter or `_` and whose other characters are ASCII
/// letters, ASCII digits, `_`, `-` or `.` (so `Option2` and `a.b-c_1` are
/// names, `2nd` and `a b` are not).
pub proof fn law_xml_name_characters(s: Seq<char>)
    ensures
        xml_name(s) <==> {
            &&& s.len() > 0
            &&& ('a' <= s[0] <= 'z' || 'A' <= s[0] <= 'Z' || s[0] == '_')
            &&& forall|i: int|
                1 <= i < s.len() ==> ('a' <= #[trigger] s[i] <= 'z' || 'A' <= s[i] <= 'Z' || '0'
                    <= s[i] <= '9' || s[i] == '_' || s[i] == '-' || s[i] == '.')
        },
{
}

pub fn char_is_ascii_alpha(c: char) -> (b: bool)
    ensures
        b == is_ascii_alpha(c),
{
    ('a' <= c && c <= 'z') || ('A' <= c && c <= 'Z')
}

pub fn char_is_ascii_digit(c: char) -> (b: bool)
    ensures
        b == is_ascii_digit(c),
{
    '0' <= c && c <= '9'
}

/// Whether `key` is a valid XML element name.
pub fn is_xml_name(key: &str) -> (b: bool)
    ensures
        b == xml_name(key@),
{
    let n = key.unicode_len();
    if n == 0 {
        return false;
    }
    let first = key.get_char(0);
    if !(char_is_ascii_alpha(first) || first == '_') {
        return false;
    }
    let mut i: usize = 1;
    while i < n
        invariant
            n == key@.len(),
            1 <= i <= n,
            forall|j: int| 1 <= j < i ==> is_xml_name_rest(#[trigger] key@[j]),
        decreases n - i,
    {
        let c = key.get_char(i);
        if !(char_is_ascii_alpha(c) || char_is_ascii_digit(c) || c == '_' || c == '-' || c == '.') {
            return false;
        }
        i = i + 1;
    }
    true
}

} // verus!

verus! {

/// Unicode `White_Space` (what `char::is_whitespace` and `str::trim` use).
pub open spec fn is_white_space(c: char) -> bool {
    ||| ('\u{9}' <= c && c <= '\u{d}')
    ||| c == ' '
    ||| c == '\u{85}'
    ||| c == '\u{a0}'
    ||| c == '\u{1680}'
    ||| ('\u{2000}' <= c && c <= '\u{200a}')
    ||| c == '\u{2028}'
    ||| c == '\u{2029}'
    ||| c == '\u{202f}'
    ||| c == '\u{205f}'
    ||| c == '\u{3000}'
}

/// Number of white-space characters at the start of `s`.
pub open spec fn leading_ws(s: Seq<char>) -> nat
    decreases s.len(),
{
    if s.len() == 0 || !is_white_space(s[0]) {
        0
    } else {
        1 + leading_ws(s.subrange(1, s.len() as int))
    }
}

/// Number of white-space characters at the end of `s`.
pub open spec fn trailing_ws(s: Seq<char>) -> nat
    decreases s.len(),
{
    if s.len() == 0 || !is_white_space(s.last()) {
        0
    } else {
        1 + trailing_ws(s.drop_last())
    }
}

/// `s` without leading and trailing white space (`str::trim`).
pub open spec fn trim(s: Seq<char>) -> Seq<char> {
    if leading_ws(s) == s.len() {
        Seq::empty()
    } else {
        s.subrange(leading_ws(s) as int, s.len() - trailing_ws(s))
    }
}

pub proof fn lemma_leading_ws(s: Seq<char>, i: int)
    requires
        0 <= i <= s.len(),
        forall|j: int| 0 <= j < i ==> is_white_space(#[trigger] s[j]),
        i == s.len() || !is_white_space(s[i]),
    ensures
        leading_ws(s) == i,
    decreases i,
{
    if i > 0 {
        let t = s.subrange(1, s.len() as int);
        assert forall|j: int| 0 <= j < i - 1 implies is_white_space(#[trigger] t[j]) by {
            assert(t[j] == s[j + 1]);
        }
        if i - 1 < t.len() {
            assert(t[i - 1] == s[i]);
        }
        lemma_leading_ws(t, i - 1);
    }
}

pub proof fn lemma_trailing_ws(s: Seq<char>, k: int)
    requires
        0 <= k <= s.len(),
        forall|j: int| s.len() - k <= j < s.len() ==> is_white_space(#[trigger] s[j]),
        k == s.len() || !is_white_space(s[s.len() - k - 1]),
    ensures
        trailing_ws(s) == k,
    decreases k,
{
    if k > 0 {
        let t = s.drop_last();
        assert(is_white_space(s[s.len() - 1]));
        assert forall|j: int| t.len() - (k - 1) <= j < t.len() implies is_white_space(
            #[trigger] t[j],
        ) by {
            assert(t[j] == s[j]);
        }
        if k - 1 < t.len() {
            assert(t[t.len() - (k - 1) - 1] == s[s.len() - k - 1]);
        }
        lemma_trailing_ws(t, k - 1);
    }
}

pub fn char_is_white_space(c: char) -> (b: bool)
    ensures
        b == is_white_space(c),
{
    ('\u{9}' <= c && c <= '\u{d}') || c == ' ' || c == '\u{85}' || c == '\u{a0}' || c
        == '\u{1680}' || ('\u{2000}' <= c && c <= '\u{200a}') || c == '\u{2028}' || c
        == '\u{2029}' || c == '\u{202f}' || c == '\u{205f}' || c == '\u{3000}'
}

/// Copy of `s` with leading and trailing white space removed.
pub fn trimmed(s: &str) -> (r: String)
    ensures
        r@ == trim(s@),
{
    let n = s.unicode_len();
    let mut lo: usize = 0;
    while lo < n && char_is_white_space(s.get_char(lo))
        invariant
            n == s@.len(),
            lo <= n,
            forall|j: int| 0 <= j < lo ==> is_white_space(#[trigger] s@[j]),
        decreases n - lo,
    {
        lo = lo + 1;
    }
    proof {
        lemma_leading_ws(s@, lo as int);
    }
    if lo == n {
        return String::new();
    }
    let mut hi: usize = n;
    while hi > lo && char_is_white_space(s.get_char(hi - 1))
        invariant
            n == s@.len(),
            lo < n,
            lo <= hi <= n,
            !is_white_space(s@[lo as int]),
            forall|j: int| hi <= j < n ==> is_white_space(#[trigger] s@[j]),
        decreases hi,
    {
        hi = hi - 1;
    }
    proof {
        lemma_trailing_ws(s@, (n - hi) as int);
    }
    s.substring_char(lo, hi).to_owned()
}

} // verus!

verus! {

/// Every character of `s` is an ASCII digit.
pub open spec fn all_digits(s: Seq<char>) -> bool {
    forall|i: int| 0 <= i < s.len() ==> is_ascii_digit(#[trigger] s[i])
}

/// Numeric value of a digit character.
pub open spec fn digit_value(c: char) -> int {
    (c as int) - ('0' as int)
}

/// Value of a string of decimal digits (most significant first).
pub open spec fn digits_value(s: Seq<char>) -> int
    decreases s.len(),
{
    if s.len() == 0 {
        0
    } else {
        digits_value(s.drop_last()) * 10 + digit_value(s.last())
    }
}

/// Digits of an unsigned number after an optional leading `+`.
pub open spec fn unsigned_digits(s: Seq<char>) -> Seq<char> {
    if s.len() > 0 && s[0] == '+' {
        s.subrange(1, s.len() as int)
    } else {
        s
    }
}

/// `str::parse::<u32>`: an optional `+`, then one or more ASCII digits whose
/// value fits in `u32`. Anything else is an error.
pub open spec fn parse_u32(s: Seq<char>) -> Option<u32> {
    let d = unsigned_digits(s);
    if d.len() > 0 && all_digits(d) && digits_value(d) <= u32::MAX {
        Some(digits_value(d) as u32)
    } else {
        None
    }
}

pub proof fn lemma_digits_value_nonneg(s: Seq<char>)
    requires
        all_digits(s),
    ensures
        digits_value(s) >= 0,
    decreases s.len(),
{
    if s.len() > 0 {
        assert(all_digits(s.drop_last())) by {
            assert forall|i: int| 0 <= i < s.drop_last().len() implies is_ascii_digit(
                #[trigger] s.drop_last()[i],
            ) by {
                assert(s.drop_last()[i] == s[i]);
            }
        }
        lemma_digits_value_nonneg(s.drop_last());
        assert(is_ascii_digit(s[s.len() - 1]));
    }
}

/// A longer digit string is worth at least as much as any of its prefixes.
pub proof fn lemma_digits_value_prefix(s: Seq<char>, k: int)
    requires
        all_digits(s),
        0 <= k <= s.len(),
    ensures
        digits_value(s.take(k)) <= digits_value(s),
    decreases s.len(),
{
    if k < s.len() {
        let t = s.drop_last();
        assert(all_digits(t)) by {
            assert forall|i: int| 0 <= i < t.len() implies is_ascii_digit(#[trigger] t[i]) by {
                assert(t[i] == s[i]);
            }
        }
        lemma_digits_value_prefix(t, k);
        assert(t.take(k) =~= s.take(k));
        lemma_digits_value_nonneg(t);
        assert(is_ascii_digit(s[s.len() - 1]));
        assert(digits_value(t) <= digits_value(t) * 10 + digit_value(s.last())) by (
        nonlinear_arith)
            requires
                digits_value(t) >= 0,
                digit_value(s.last()) >= 0,
        ;
    } else {
        assert(s.take(k) =~= s);
    }
}

/// Parse an unsigned 32-bit decimal number the way `str::parse::<u32>` does.
pub fn parse_u32_text(s: &str) -> (r: Option<u32>)
    ensures
        r == parse_u32(s@),
{
    let n = s.unicode_len();
    let mut i: usize = 0;
    if n > 0 && s.get_char(0) == '+' {
        i = 1;
    }
    let start = i;
    let ghost d = unsigned_digits(s@);
    assert(d =~= s@.subrange(start as int, n as int));
    if start == n {
        return None;
    }
    let mut acc: u64 = 0;
    while i < n
        invariant
            n == s@.len(),
            start <= i <= n,
            start < n,
            d == unsigned_digits(s@),
            d =~= s@.subrange(start as int, n as int),
            all_digits(d.take(i - start)),
            acc as int == digits_value(d.take(i - start)),
            acc <= u32::MAX,
        decreases n - i,
    {
        let c = s.get_char(i);
        if !char_is_ascii_digit(c) {
            assert(d[i - start] == c);
            assert(!is_ascii_digit(d[i - start]));
            return None;
        }
        let dv = (c as u64) - ('0' as u64);
        let next = acc * 10 + dv;
        proof {
            let k = (i - start) as int;
            assert(d.take(k + 1).drop_last() =~= d.take(k));
            assert(d.take(k + 1).last() == c);
            assert(all_digits(d.take(k + 1))) by {
                assert forall|j: int| 0 <= j < k + 1 implies is_ascii_digit(
                    #[trigger] d.take(k + 1)[j],
                ) by {
                    if j < k {
                        assert(d.take(k + 1)[j] == d.take(k)[j]);
                    }
                }
            }
        }
        if next > 0xffff_ffffu64 {
            proof {
                let k = (i - start) as int;
                if all_digits(d) {
                    lemma_digits_value_prefix(d, k + 1);
                }
            }
            return None;
        }
        acc = next;
        i = i + 1;
    }
    assert(d.take(n - start) =~= d);
    Some(acc as u32)
}

/// The ASCII digit for `v` (`0 <= v < 10`).
pub open spec fn digit_char(v: int) -> char {
    (('0' as int) + v) as char
}

/// Decimal representation of `n`, without leading zeros (what `Display`
/// prints for unsigned integers).
pub open spec fn decimal(n: nat) -> Seq<char>
    decreases n,
{
    if n < 10 {
        seq![digit_char(n as int)]
    } else {
        decimal(n / 10).push(digit_char((n % 10) as int))
    }
}

/// Decimal text of `n` (`u32::to_string`).
pub fn u32_to_text(n: u32) -> (r: String)
    ensures
        r@ == decimal(n as nat),
    decreases n,
{
    let digits = "0123456789";
    proof {
        reveal_strlit("0123456789");
    }
    if n < 10 {
        let mut r = String::new();
        let d = digits.substring_char(n as usize, n as usize + 1);
        r.append(d);
        assert(r@ =~= seq![digit_char(n as int)]);
        r
    } else {
        let mut r = u32_to_text(n / 10);
        let m = (n % 10) as usize;
        let d = digits.substring_char(m, m + 1);
        r.append(d);
        assert(r@ =~= decimal((n / 10) as nat).push(digit_char((n % 10) as int)));
        r
    }
}

/// Text of `n` (`u16::to_string`).
pub fn u16_to_text(n: u16) -> (r: String)
    ensures
        r@ == decimal(n as nat),
{
    u32_to_text(n as u32)
}

} // verus!

verus! {

/// Lexicographic order of character sequences. For valid text this is the
/// order of `String`'s `Ord` (UTF-8 preserves code point order).
pub open spec fn text_le(a: Seq<char>, b: Seq<char>) -> bool
    decreases a.len(),
{
    if a.len() == 0 {
        true
    } else if b.len() == 0 {
        false
    } else if a[0] != b[0] {
        a[0] < b[0]
    } else {
        text_le(a.drop_first(), b.drop_first())
    }
}

/// Strict lexicographic order.
pub open spec fn text_lt(a: Seq<char>, b: Seq<char>) -> bool {
    text_le(a, b) && a != b
}

pub proof fn lemma_text_le_total(a: Seq<char>, b: Seq<char>)
    ensures
        text_le(a, b) || text_le(b, a),
    decreases a.len(),
{
    if a.len() > 0 && b.len() > 0 && a[0] == b[0] {
        lemma_text_le_total(a.drop_first(), b.drop_first());
    }
}

pub proof fn lemma_text_le_antisym(a: Seq<char>, b: Seq<char>)
    requires
        text_le(a, b),
        text_le(b, a),
    ensures
        a == b,
    decreases a.len(),
{
    if a.len() == 0 {
        assert(b.len() == 0);
        assert(a =~= b);
    } else {
        assert(b.len() > 0);
        assert(a[0] == b[0]);
        lemma_text_le_antisym(a.drop_first(), b.drop_first());
        assert(a =~= seq![a[0]] + a.drop_first());
        assert(b =~= seq![b[0]] + b.drop_first());
    }
}

pub proof fn lemma_text_le_trans(a: Seq<char>, b: Seq<char>, c: Seq<char>)
    requires
        text_le(a, b),
        text_le(b, c),
    ensures
        text_le(a, c),
    decreases a.len(),
{
    if a.len() > 0 {
        assert(b.len() > 0);
        assert(c.len() > 0);
        if a[0] == b[0] && b[0] == c[0] {
            lemma_text_le_trans(a.drop_first(), b.drop_first(), c.drop_first());
        }
    }
}

pub proof fn lemma_text_le_refl(a: Seq<char>)
    ensures
        text_le(a, a),
    decreases a.len(),
{
    if a.len() > 0 {
        lemma_text_le_refl(a.drop_first());
    }
}

/// `a <= b` in `String` order.
pub fn text_le_exec(a: &str, b: &str) -> (r: bool)
    ensures
        r == text_le(a@, b@),
{
    let na = a.unicode_len();
    let nb = b.unicode_len();
    let mut i: usize = 0;
    assert(a@.skip(0) =~= a@);
    assert(b@.skip(0) =~= b@);
    while i < na && i < nb && a.get_char(i) == b.get_char(i)
        invariant
            na == a@.len(),
            nb == b@.len(),
            i <= na,
            i <= nb,
            text_le(a@, b@) == text_le(a@.skip(i as int), b@.skip(i as int)),
        decreases na - i,
    {
        proof {
            let sa = a@.skip(i as int);
            let sb = b@.skip(i as int);
            assert(sa.drop_first() =~= a@.skip(i + 1));
            assert(sb.drop_first() =~= b@.skip(i + 1));
            assert(sa[0] == a@[i as int]);
            assert(sb[0] == b@[i as int]);
        }
        i = i + 1;
    }
    if i == na {
        assert(a@.skip(i as int).len() == 0);
        true
    } else if i == nb {
        assert(b@.skip(i as int).len() == 0);
        false
    } else {
        assert(a@.skip(i as int)[0] == a@[i as int]);
        assert(b@.skip(i as int)[0] == b@[i as int]);
        a.get_char(i) < b.get_char(i)
    }
}

} // verus!

verus! {

/// `a == b` on text.
pub fn text_eq(a: &str, b: &str) -> (r: bool)
    ensures
        r == (a@ == b@),
{
    let n = a.unicode_len();
    if n != b.unicode_len() {
        return false;
    }
    let mut i: usize = 0;
    while i < n
        invariant
            n == a@.len(),
            n == b@.len(),
            i <= n,
            forall|j: int| 0 <= j < i ==> a@[j] == b@[j],
        decreases n - i,
    {
        if a.get_char(i) != b.get_char(i) {
            return false;
        }
        i = i + 1;
    }
    assert(a@ =~= b@);
    true
}

/// `s` begins with `p`.
pub open spec fn starts_with(s: Seq<char>, p: Seq<char>) -> bool {
    p.len() <= s.len() && s.take(p.len() as int) == p
}

pub fn text_starts_with(s: &str, p: &str) -> (r: bool)
    ensures
        r == starts_with(s@, p@),
{
    let n = s.unicode_len();
    let m = p.unicode_len();
    if m > n {
        return false;
    }
    text_eq(s.substring_char(0, m), p)
}

/// Number of characters of `s` before the first `c` (all of them if there is none).
pub open spec fn index_of_first(s: Seq<char>, c: char) -> nat
    decreases s.len(),
{
    if s.len() == 0 || s[0] == c {
        0
    } else {
        1 + index_of_first(s.subrange(1, s.len() as int), c)
    }
}

pub proof fn lemma_index_of_first(s: Seq<char>, c: char, i: int)
    requires
        0 <= i <= s.len(),
        forall|j: int| 0 <= j < i ==> #[trigger] s[j] != c,
        i == s.len() || s[i] == c,
    ensures
        index_of_first(s, c) == i,
    decreases i,
{
    if i > 0 {
        let t = s.subrange(1, s.len() as int);
        assert forall|j: int| 0 <= j < i - 1 implies #[trigger] t[j] != c by {
            assert(t[j] == s[j + 1]);
        }
        if i - 1 < t.len() {
            assert(t[i - 1] == s[i]);
        }
        lemma_index_of_first(t, c, i - 1);
    }
}

/// The part of `s` before its first `c` (`s.split(c).next()`).
pub open spec fn before_first(s: Seq<char>, c: char) -> Seq<char> {
    s.take(index_of_first(s, c) as int)
}

pub fn text_before_first(s: &str, c: char) -> (r: &str)
    ensures
        r@ == before_first(s@, c),
{
    let n = s.unicode_len();
    let mut i: usize = 0;
    while i < n && s.get_char(i) != c
        invariant
            n == s@.len(),
            i <= n,
            forall|j: int| 0 <= j < i ==> #[trigger] s@[j] != c,
        decreases n - i,
    {
        i = i + 1;
    }
    proof {
        lemma_index_of_first(s@, c, i as int);
    }
    s.substring_char(0, i)
}

/// Index of the last `c` in `s`, if any.
pub open spec fn index_of_last(s: Seq<char>, c: char) -> Option<int>
    decreases s.len(),
{
    if s.len() == 0 {
        None
    } else if s.last() == c {
        Some(s.len() - 1)
    } else {
        index_of_last(s.drop_last(), c)
    }
}

pub proof fn lemma_index_of_last(s: Seq<char>, c: char, k: int)
    requires
        0 <= k <= s.len(),
        forall|j: int| k <= j < s.len() ==> #[trigger] s[j] != c,
    ensures
        k == 0 ==> index_of_last(s, c) is None,
        k > 0 && s[k - 1] == c ==> index_of_last(s, c) == Some(k - 1),
    decreases s.len(),
{
    if s.len() > k {
        let t = s.drop_last();
        assert forall|j: int| k <= j < t.len() implies #[trigger] t[j] != c by {
            assert(t[j] == s[j]);
        }
        assert(s[s.len() - 1] != c);
        lemma_index_of_last(t, c, k);
        if k > 0 {
            assert(t[k - 1] == s[k - 1]);
        }
    }
}

pub fn text_index_of_last(s: &str, c: char) -> (r: Option<usize>)
    ensures
        r is None ==> index_of_last(s@, c) is None,
        r matches Some(i) ==> index_of_last(s@, c) == Some(i as int) && i < s@.len(),
{
    let n = s.unicode_len();
    let mut k: usize = n;
    while k > 0 && s.get_char(k - 1) != c
        invariant
            n == s@.len(),
            k <= n,
            forall|j: int| k <= j < n ==> #[trigger] s@[j] != c,
        decreases k,
    {
        k = k - 1;
    }
    proof {
        lemma_index_of_last(s@, c, k as int);
    }
    if k == 0 {
        None
    } else {
        Some(k - 1)
    }
}

/// An owned copy of a string slice.
pub fn owned(s: &str) -> (r: String)
    ensures
        r@ == s@,
{
    s.to_owned()
}

/// `a` followed by `b`.
pub fn joined(a: &str, b: &str) -> (r: String)
    ensures
        r@ == a@ + b@,
{
    let mut r = a.to_owned();
    r.append(b);
    r
}

} // verus!
