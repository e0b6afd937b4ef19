//! Text rules: substring search, prefixes and suffixes, the order in which
//! file names are sorted, decimal numbers, and message assembly.

use vstd::prelude::*;
use vstd::string::*;

verus! {

/// `needle` occurs in `hay` starting at position `i`.
pub open spec fn occurs_at(hay: Seq<char>, needle: Seq<char>, i: int) -> bool {
    &&& 0 <= i
    &&& i + needle.len() <= hay.len()
    &&& hay.subrange(i, i + needle.len()) == needle
}

/// `needle` occurs somewhere in `hay`.
pub open spec fn text_contains(hay: Seq<char>, needle: Seq<char>) -> bool {
    exists|i: int| occurs_at(hay, needle, i)
}

/// `s` begins with `prefix`.
pub open spec fn text_starts_with(s: Seq<char>, prefix: Seq<char>) -> bool {
    prefix.len() <= s.len() && s.subrange(0, prefix.len() as int) == prefix
}

/// `s` ends with `suffix`.
pub open spec fn text_ends_with(s: Seq<char>, suffix: Seq<char>) -> bool {
    suffix.len() <= s.len() && s.subrange(s.len() - suffix.len(), s.len() as int) == suffix
}

/// Lexicographic order on texts, character by character (for valid UTF-8
/// this is the byte order in which file names sort).
pub open spec fn text_le(a: Seq<char>, b: Seq<char>) -> bool
    decreases a.len(),
{
    if a.len() == 0 {
        true
    } else if b.len() == 0 {
        false
    } else if a[0] != b[0] {
        (a[0] as int) < (b[0] as int)
    } else {
        text_le(a.drop_first(), b.drop_first())
    }
}

/// The decimal digit character for `d`.
pub open spec fn digit_char(d: nat) -> char {
    if d == 0 {
        '0'
    } else if d == 1 {
        '1'
    } else if d == 2 {
        '2'
    } else if d == 3 {
        '3'
    } else if d == 4 {
        '4'
    } else if d == 5 {
        '5'
    } else if d == 6 {
        '6'
    } else if d == 7 {
        '7'
    } else if d == 8 {
        '8'
    } else {
        '9'
    }
}

/// The decimal notation of `n`, without sign or leading zeros.
pub open spec fn decimal(n: nat) -> Seq<char>
    decreases n,
{
    if n < 10 {
        seq![digit_char(n)]
    } else {
        decimal(n / 10).push(digit_char(n % 10))
    }
}

/// `n` as two decimal digits (for `n` below 100).
pub open spec fn pad2(n: nat) -> Seq<char> {
    seq![digit_char(n / 10), digit_char(n % 10)]
}

/// `n` as four decimal digits (for `n` below 10000).
pub open spec fn pad4(n: nat) -> Seq<char> {
    pad2(n / 100) + pad2(n % 100)
}

/// A year as a time stamp writes it: four digits from 0 to 9999, otherwise
/// a sign and at least four digits.
pub open spec fn year_text(y: int) -> Seq<char> {
    if 0 <= y <= 9999 {
        pad4(y as nat)
    } else if y > 9999 {
        seq!['+'] + decimal(y as nat)
    } else if -y <= 9999 {
        seq!['-'] + pad4((-y) as nat)
    } else {
        seq!['-'] + decimal((-y) as nat)
    }
}

/// Lexicographic order on byte strings.
pub open spec fn bytes_le(a: Seq<u8>, b: Seq<u8>) -> bool
    decreases a.len(),
{
    if a.len() == 0 {
        true
    } else if b.len() == 0 {
        false
    } else if a[0] != b[0] {
        a[0] < b[0]
    } else {
        bytes_le(a.drop_first(), b.drop_first())
    }
}

/// The bytes of a text of ASCII characters.
pub open spec fn ascii_bytes(s: Seq<char>) -> Seq<u8> {
    s.map_values(|c: char| c as u8)
}

/// Every text is ordered with every other.
pub proof fn lemma_text_le_total(a: Seq<char>, b: Seq<char>)
    ensures
        text_le(a, b) || text_le(b, a),
    decreases a.len(),
{
    if a.len() > 0 && b.len() > 0 && a[0] == b[0] {
        lemma_text_le_total(a.drop_first(), b.drop_first());
    }
}

/// A text followed by more text contains the part that follows.
pub proof fn lemma_contains_appended(front: Seq<char>, back: Seq<char>, needle: Seq<char>)
    requires
        text_contains(back, needle),
    ensures
        text_contains(front + back, needle),
{
    let i = choose|i: int| occurs_at(back, needle, i);
    let whole = front + back;
    assert(whole.subrange(front.len() + i, front.len() + i + needle.len()) =~= back.subrange(
        i,
        i + needle.len(),
    ));
    assert(occurs_at(whole, needle, front.len() + i));
}

/// A text followed by more text still contains what it contained.
pub proof fn lemma_contains_prefix_kept(front: Seq<char>, back: Seq<char>, needle: Seq<char>)
    requires
        text_contains(front, needle),
    ensures
        text_contains(front + back, needle),
{
    let i = choose|i: int| occurs_at(front, needle, i);
    let whole = front + back;
    assert(whole.subrange(i, i + needle.len()) =~= front.subrange(i, i + needle.len()));
    assert(occurs_at(whole, needle, i));
}

/// Every byte string is ordered with every other.
pub proof fn lemma_bytes_le_total(a: Seq<u8>, b: Seq<u8>)
    ensures
        bytes_le(a, b) || bytes_le(b, a),
    decreases a.len(),
{
    if a.len() > 0 && b.len() > 0 && a[0] == b[0] {
        lemma_bytes_le_total(a.drop_first(), b.drop_first());
    }
}

/// The order on byte strings is transitive.
pub proof fn lemma_bytes_le_transitive(a: Seq<u8>, b: Seq<u8>, c: Seq<u8>)
    requires
        bytes_le(a, b),
        bytes_le(b, c),
    ensures
        bytes_le(a, c),
    decreases a.len(),
{
    if a.len() > 0 && b.len() > 0 && c.len() > 0 && a[0] == b[0] && b[0] == c[0] {
        lemma_bytes_le_transitive(a.drop_first(), b.drop_first(), c.drop_first());
    }
}

/// Texts of equal length compare by their first difference: comparing
/// `a + x` with `b + y` is comparing `a` with `b`, or `x` with `y` where
/// `a` and `b` are equal.
pub proof fn lemma_text_le_split(a: Seq<char>, b: Seq<char>, x: Seq<char>, y: Seq<char>)
    requires
        a.len() == b.len(),
    ensures
        text_le(a + x, b + y) == (if a == b {
            text_le(x, y)
        } else {
            text_le(a, b)
        }),
    decreases a.len(),
{
    if a.len() == 0 {
        assert(a + x =~= x);
        assert(b + y =~= y);
        assert(a =~= b);
    } else {
        assert((a + x)[0] == a[0]);
        assert((b + y)[0] == b[0]);
        if a[0] == b[0] {
            assert((a + x).drop_first() =~= a.drop_first() + x);
            assert((b + y).drop_first() =~= b.drop_first() + y);
            lemma_text_le_split(a.drop_first(), b.drop_first(), x, y);
            if a.drop_first() == b.drop_first() {
                assert(a =~= seq![a[0]] + a.drop_first());
                assert(b =~= seq![b[0]] + b.drop_first());
                assert(a =~= b);
            } else {
                assert(a != b);
            }
        }
    }
}

/// A digit character's code is 48 more than the digit.
pub proof fn lemma_digit_code(d: nat)
    requires
        d < 10,
    ensures
        digit_char(d) as int == 48 + d,
{
}

proof fn lemma_one_char_le(c: char, d: char)
    ensures
        text_le(seq![c], seq![d]) == ((c as int) <= (d as int)),
{
    if c == d {
        assert(seq![c].drop_first() =~= Seq::<char>::empty());
        assert(seq![d].drop_first() =~= Seq::<char>::empty());
        assert(text_le(Seq::<char>::empty(), Seq::<char>::empty()));
    }
}

/// Two-digit numbers sort as their values.
pub proof fn lemma_pad2_order(n: nat, m: nat)
    requires
        n < 100,
        m < 100,
    ensures
        text_le(pad2(n), pad2(m)) == (n <= m),
        (pad2(n) == pad2(m)) == (n == m),
        pad2(n).len() == 2,
{
    let a = seq![digit_char(n / 10)];
    let b = seq![digit_char(m / 10)];
    let x = seq![digit_char(n % 10)];
    let y = seq![digit_char(m % 10)];
    assert(pad2(n) =~= a + x);
    assert(pad2(m) =~= b + y);
    lemma_text_le_split(a, b, x, y);
    lemma_digit_code(n / 10);
    lemma_digit_code(m / 10);
    lemma_digit_code(n % 10);
    lemma_digit_code(m % 10);
    lemma_one_char_le(digit_char(n / 10), digit_char(m / 10));
    lemma_one_char_le(digit_char(n % 10), digit_char(m % 10));
    if pad2(n) == pad2(m) {
        assert(pad2(n)[0] == pad2(m)[0] && pad2(n)[1] == pad2(m)[1]);
    }
    if a == b {
        assert(a[0] == b[0]);
    }
}

/// Four-digit numbers sort as their values.
pub proof fn lemma_pad4_order(n: nat, m: nat)
    requires
        n < 10000,
        m < 10000,
    ensures
        text_le(pad4(n), pad4(m)) == (n <= m),
        (pad4(n) == pad4(m)) == (n == m),
        pad4(n).len() == 4,
{
    lemma_pad2_order(n / 100, m / 100);
    lemma_pad2_order(n % 100, m % 100);
    lemma_text_le_split(pad2(n / 100), pad2(m / 100), pad2(n % 100), pad2(m % 100));
    if pad4(n) == pad4(m) {
        assert(pad2(n / 100) =~= pad4(n).subrange(0, 2));
        assert(pad2(m / 100) =~= pad4(m).subrange(0, 2));
        assert(pad2(n % 100) =~= pad4(n).subrange(2, 4));
        assert(pad2(m % 100) =~= pad4(m).subrange(2, 4));
    }
}

/// Byte strings with a common beginning compare as what follows it.
pub proof fn lemma_bytes_le_common_prefix(p: Seq<u8>, x: Seq<u8>, y: Seq<u8>)
    ensures
        bytes_le(p + x, p + y) == bytes_le(x, y),
    decreases p.len(),
{
    if p.len() == 0 {
        assert(p + x =~= x);
        assert(p + y =~= y);
    } else {
        assert((p + x)[0] == p[0]);
        assert((p + y)[0] == p[0]);
        assert((p + x).drop_first() =~= p.drop_first() + x);
        assert((p + y).drop_first() =~= p.drop_first() + y);
        lemma_bytes_le_common_prefix(p.drop_first(), x, y);
    }
}

/// The UTF-8 encoding of a text followed by more text is the two encodings
/// one after the other.
pub proof fn lemma_encode_utf8_concat(a: Seq<char>, b: Seq<char>)
    ensures
        vstd::utf8::encode_utf8(a + b) == vstd::utf8::encode_utf8(a) + vstd::utf8::encode_utf8(b),
    decreases a.len(),
{
    if a.len() == 0 {
        assert(a + b =~= b);
        assert(vstd::utf8::encode_utf8(a) =~= Seq::<u8>::empty());
        assert(vstd::utf8::encode_utf8(a) + vstd::utf8::encode_utf8(b) =~= vstd::utf8::encode_utf8(
            b,
        ));
    } else {
        assert((a + b)[0] == a[0]);
        assert((a + b).drop_first() =~= a.drop_first() + b);
        lemma_encode_utf8_concat(a.drop_first(), b);
        let e = vstd::utf8::encode_scalar(a[0] as u32);
        assert(e + (vstd::utf8::encode_utf8(a.drop_first()) + vstd::utf8::encode_utf8(b)) =~= (e
            + vstd::utf8::encode_utf8(a.drop_first())) + vstd::utf8::encode_utf8(b));
    }
}

/// For ASCII texts the order of texts is the order of their bytes.
pub proof fn lemma_ascii_order(a: Seq<char>, b: Seq<char>)
    requires
        vstd::utf8::is_ascii_chars(a),
        vstd::utf8::is_ascii_chars(b),
    ensures
        text_le(a, b) == bytes_le(ascii_bytes(a), ascii_bytes(b)),
    decreases a.len(),
{
    if a.len() > 0 && b.len() > 0 {
        let c = a[0];
        let d = b[0];
        assert('\0' <= c <= '\u{7f}');
        assert('\0' <= d <= '\u{7f}');
        assert(ascii_bytes(a)[0] == c as u8);
        assert(ascii_bytes(b)[0] == d as u8);
        assert((c as u8) as int == c as int);
        assert((d as u8) as int == d as int);
        assert(ascii_bytes(a).drop_first() =~= ascii_bytes(a.drop_first()));
        assert(ascii_bytes(b).drop_first() =~= ascii_bytes(b.drop_first()));
        lemma_ascii_order(a.drop_first(), b.drop_first());
    }
}

/// Whether `needle` occurs in `hay` at character position `at`.
pub fn matches_at(hay: &str, needle: &str, at: usize) -> (r: bool)
    requires
        at + needle@.len() <= hay@.len(),
    ensures
        r == (hay@.subrange(at as int, at + needle@.len()) == needle@),
{
    let n = needle.unicode_len();
    let h = hay.unicode_len();
    let mut j: usize = 0;
    while j < n
        invariant
            n == needle@.len(),
            h == hay@.len(),
            at + n <= hay@.len(),
            j <= n,
            hay@.subrange(at as int, at + j) == needle@.subrange(0, j as int),
        decreases n - j,
    {
        if hay.get_char(at + j) != needle.get_char(j) {
            assert(hay@.subrange(at as int, at + n)[j as int] != needle@[j as int]);
            return false;
        }
        assert(hay@.subrange(at as int, at + j + 1) =~= hay@.subrange(at as int, at + j).push(
            hay@[at + j],
        ));
        assert(needle@.subrange(0, j + 1) =~= needle@.subrange(0, j as int).push(needle@[j as int]));
        j = j + 1;
    }
    assert(needle@.subrange(0, n as int) =~= needle@);
    true
}

/// Whether `a` and `b` are the same text.
pub fn same_text(a: &str, b: &str) -> (r: bool)
    ensures
        r == (a@ == b@),
{
    if a.unicode_len() != b.unicode_len() {
        return false;
    }
    let r = matches_at(a, b, 0);
    assert(a@.subrange(0, b@.len() as int) =~= a@);
    r
}

/// Whether `needle` occurs anywhere in `hay`.
pub fn contains_text(hay: &str, needle: &str) -> (r: bool)
    ensures
        r == text_contains(hay@, needle@),
{
    let h = hay.unicode_len();
    let n = needle.unicode_len();
    if n > h {
        assert(!text_contains(hay@, needle@));
        return false;
    }
    let last = h - n;
    let mut i: usize = 0;
    while i < last
        invariant
            h == hay@.len(),
            n == needle@.len(),
            last == h - n,
            i <= last,
            forall|k: int| 0 <= k < i ==> !occurs_at(hay@, needle@, k),
        decreases last - i,
    {
        if matches_at(hay, needle, i) {
            assert(occurs_at(hay@, needle@, i as int));
            return true;
        }
        i = i + 1;
    }
    if matches_at(hay, needle, last) {
        assert(occurs_at(hay@, needle@, last as int));
        return true;
    }
    assert forall|k: int| !occurs_at(hay@, needle@, k) by {
        if 0 <= k && k + n <= h && k != last {
            assert(k < i);
        }
    }
    false
}

/// Whether `s` begins with `prefix`.
pub fn starts_with_text(s: &str, prefix: &str) -> (r: bool)
    ensures
        r == text_starts_with(s@, prefix@),
{
    let l = s.unicode_len();
    let p = prefix.unicode_len();
    if p > l {
        return false;
    }
    matches_at(s, prefix, 0)
}

/// Whether `s` ends with `suffix`.
pub fn ends_with_text(s: &str, suffix: &str) -> (r: bool)
    ensures
        r == text_ends_with(s@, suffix@),
{
    let l = s.unicode_len();
    let p = suffix.unicode_len();
    if p > l {
        return false;
    }
    matches_at(s, suffix, l - p)
}

/// Whether `a` sorts before or equal to `b` from position `i` on.
fn bytes_le_from(a: &[u8], b: &[u8], i: usize) -> (r: bool)
    requires
        i <= a@.len(),
        i <= b@.len(),
    ensures
        r == bytes_le(a@.skip(i as int), b@.skip(i as int)),
    decreases a@.len() - i,
{
    if i == a.len() {
        return true;
    }
    if i == b.len() {
        return false;
    }
    assert(a@.skip(i as int)[0] == a@[i as int]);
    assert(b@.skip(i as int)[0] == b@[i as int]);
    if a[i] != b[i] {
        return a[i] < b[i];
    }
    assert(a@.skip(i as int).drop_first() =~= a@.skip(i + 1));
    assert(b@.skip(i as int).drop_first() =~= b@.skip(i + 1));
    bytes_le_from(a, b, i + 1)
}

/// Whether the byte string `a` sorts before or equal to `b`.
pub fn bytes_le_exec(a: &[u8], b: &[u8]) -> (r: bool)
    ensures
        r == bytes_le(a@, b@),
{
    assert(a@.skip(0) =~= a@);
    assert(b@.skip(0) =~= b@);
    bytes_le_from(a, b, 0)
}

/// The text of a single decimal digit.
fn digit_text(d: u32) -> (r: &'static str)
    requires
        d < 10,
    ensures
        r@ == seq![digit_char(d as nat)],
{
    proof {
        reveal_strlit("0");
        reveal_strlit("1");
        reveal_strlit("2");
        reveal_strlit("3");
        reveal_strlit("4");
        reveal_strlit("5");
        reveal_strlit("6");
        reveal_strlit("7");
        reveal_strlit("8");
        reveal_strlit("9");
    }
    if d == 0 {
        "0"
    } else if d == 1 {
        "1"
    } else if d == 2 {
        "2"
    } else if d == 3 {
        "3"
    } else if d == 4 {
        "4"
    } else if d == 5 {
        "5"
    } else if d == 6 {
        "6"
    } else if d == 7 {
        "7"
    } else if d == 8 {
        "8"
    } else {
        "9"
    }
}

/// The decimal notation of `n`.
pub fn decimal_text(n: u32) -> (r: String)
    ensures
        r@ == decimal(n as nat),
    decreases n,
{
    if n < 10 {
        String::from_str(digit_text(n))
    } else {
        let mut s = decimal_text(n / 10);
        s.append(digit_text(n % 10));
        s
    }
}

/// `n` as two decimal digits.
pub fn pad2_text(n: u32) -> (r: String)
    requires
        n < 100,
    ensures
        r@ == pad2(n as nat),
{
    let r = cat2(digit_text(n / 10), digit_text(n % 10));
    assert(r@ =~= pad2(n as nat));
    r
}

/// `n` as four decimal digits.
pub fn pad4_text(n: u32) -> (r: String)
    requires
        n < 10000,
    ensures
        r@ == pad4(n as nat),
{
    let high = pad2_text(n / 100);
    let low = pad2_text(n % 100);
    cat2(high.as_str(), low.as_str())
}

/// A year as a time stamp writes it.
pub fn year_text_of(year: i32) -> (r: String)
    ensures
        r@ == year_text(year as int),
{
    proof {
        reveal_strlit("+");
        reveal_strlit("-");
        assert("+"@ =~= seq!['+']);
        assert("-"@ =~= seq!['-']);
    }
    if 0 <= year && year <= 9999 {
        pad4_text(year as u32)
    } else if year > 9999 {
        let digits = decimal_text(year as u32);
        cat2("+", digits.as_str())
    } else {
        let magnitude: u32 = (-(year as i64)) as u32;
        if magnitude <= 9999 {
            let digits = pad4_text(magnitude);
            cat2("-", digits.as_str())
        } else {
            let digits = decimal_text(magnitude);
            cat2("-", digits.as_str())
        }
    }
}

/// `a` followed by `b`.
pub fn cat2(a: &str, b: &str) -> (r: String)
    ensures
        r@ == a@ + b@,
{
    let mut s = String::from_str(a);
    s.append(b);
    s
}

/// `a`, `b` and `c` one after the other.
pub fn cat3(a: &str, b: &str, c: &str) -> (r: String)
    ensures
        r@ == a@ + b@ + c@,
{
    let mut s = String::from_str(a);
    s.append(b);
    s.append(c);
    s
}

/// `a`, `b`, `c` and `d` one after the other.
pub fn cat4(a: &str, b: &str, c: &str, d: &str) -> (r: String)
    ensures
        r@ == a@ + b@ + c@ + d@,
{
    let mut s = String::from_str(a);
    s.append(b);
    s.append(c);
    s.append(d);
    s
}

} // verus!
