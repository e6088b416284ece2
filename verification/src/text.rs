//! Text helpers on which the wire formats rest.
use vstd::prelude::*;

verus! {

/// Copies a string slice into an owned string.
pub fn str_to_string(s: &str) -> (r: String)
    ensures
        r@ == s@,
{
    broadcast use vstd::string::to_string_from_display_ensures_for_str;

    s.to_string()
}


/// Appends a character to a string: `String::push`.
#[verifier::external_body]
pub fn string_push(s: &mut String, c: char)
    ensures
        final(s)@ == old(s)@.push(c),
{
    s.push(c);
}

/// `str::starts_with` with a string prefix.
pub open spec fn has_prefix(s: Seq<char>, prefix: Seq<char>) -> bool {
    prefix.len() <= s.len() && s.take(prefix.len() as int) == prefix
}

/// Whether `s` begins with `prefix`.
pub fn starts_with(s: &str, prefix: &str) -> (r: bool)
    ensures
        r == has_prefix(s@, prefix@),
{
    let n = s.unicode_len();
    let m = prefix.unicode_len();
    if m > n {
        return false;
    }
    let mut i: usize = 0;
    while i < m
        invariant
            0 <= i <= m <= n,
            n == s@.len(),
            m == prefix@.len(),
            forall|j: int| 0 <= j < i ==> s@[j] == prefix@[j],
        decreases m - i,
    {
        if s.get_char(i) != prefix.get_char(i) {
            assert(s@.take(m as int)[i as int] != prefix@[i as int]);
            return false;
        }
        i = i + 1;
    }
    assert(s@.take(m as int) =~= prefix@);
    true
}

/// The lowercase hexadecimal digit of a value below sixteen.
pub open spec fn hex_digit(d: int) -> char {
    if d < 10 {
        (48 + d) as char
    } else {
        (87 + d) as char
    }
}

/// Lowercase hexadecimal text of a byte string, two digits per byte, high nibble first.
pub open spec fn hex_of_bytes(b: Seq<u8>) -> Seq<char> {
    Seq::new(
        2 * b.len(),
        |i: int|
            if i % 2 == 0 {
                hex_digit((b[i / 2] / 16) as int)
            } else {
                hex_digit((b[i / 2] % 16) as int)
            },
    )
}

fn hex_digit_char(d: u8) -> (c: char)
    requires
        d < 16,
    ensures
        c == hex_digit(d as int),
{
    if d < 10 {
        (48u8 + d) as char
    } else {
        (87u8 + d) as char
    }
}

/// Lowercase hexadecimal encoding of `b`.
pub fn hex_encode(b: &[u8]) -> (r: String)
    requires
        2 * b@.len() <= usize::MAX,
    ensures
        r@ == hex_of_bytes(b@),
{
    let mut r = String::new();
    let mut i: usize = 0;
    while i < b.len()
        invariant
            0 <= i <= b@.len(),
            r@.len() == 2 * i,
            forall|k: int| 0 <= k < 2 * i ==> #[trigger] r@[k] == hex_of_bytes(b@)[k],
        decreases b@.len() - i,
    {
        let x = b[i];
        let ghost before = r@;
        string_push(&mut r, hex_digit_char(x / 16));
        string_push(&mut r, hex_digit_char(x % 16));
        assert forall|k: int| 0 <= k < 2 * (i + 1) implies #[trigger] r@[k] == hex_of_bytes(b@)[k] by {
            if k >= 2 * i {
                assert(k / 2 == i);
            } else {
                assert(r@[k] == before[k]);
            }
        }
        i = i + 1;
    }
    assert(r@ =~= hex_of_bytes(b@));
    r
}

/// The value of a lowercase hexadecimal digit.
pub open spec fn hex_value(c: char) -> int {
    if '0' <= c && c <= '9' {
        c as int - 48
    } else {
        c as int - 87
    }
}

/// The bytes that lowercase hexadecimal text spells, two digits per byte.
pub open spec fn bytes_of_hex(s: Seq<char>) -> Seq<u8> {
    Seq::new(s.len() / 2, |i: int| (16 * hex_value(s[2 * i]) + hex_value(s[2 * i + 1])) as u8)
}

/// Hex encoding loses nothing: decoding it gives the bytes back, two
/// lowercase hex digits per byte.
pub proof fn law_hex_roundtrip(b: Seq<u8>)
    ensures
        hex_of_bytes(b).len() == 2 * b.len(),
        bytes_of_hex(hex_of_bytes(b)) == b,
        forall|i: int|
            0 <= i < hex_of_bytes(b).len() ==> ('0' <= #[trigger] hex_of_bytes(b)[i] <= '9' || 'a'
                <= hex_of_bytes(b)[i] <= 'f'),
{
    let h = hex_of_bytes(b);
    assert forall|d: int| 0 <= d < 16 implies #[trigger] hex_value(hex_digit(d)) == d && ('0'
        <= hex_digit(d) <= '9' || 'a' <= hex_digit(d) <= 'f') by {
        if d < 10 {
            assert(hex_digit(d) as int == 48 + d);
        } else {
            assert(hex_digit(d) as int == 87 + d);
        }
    }
    assert forall|i: int| 0 <= i < b.len() implies #[trigger] bytes_of_hex(h)[i] == b[i] by {
        assert(h[2 * i] == hex_digit((b[i] / 16) as int));
        assert(h[2 * i + 1] == hex_digit((b[i] % 16) as int));
        assert(hex_value(h[2 * i]) == b[i] / 16);
        assert(hex_value(h[2 * i + 1]) == b[i] % 16);
    }
    assert forall|i: int| 0 <= i < h.len() implies ('0' <= #[trigger] h[i] <= '9' || 'a' <= h[i] <= 'f') by {
        if i % 2 == 0 {
            assert(h[i] == hex_digit((b[i / 2] / 16) as int));
        } else {
            assert(h[i] == hex_digit((b[i / 2] % 16) as int));
        }
    }
    assert(bytes_of_hex(h) =~= b);
}

/// Lowercase hexadecimal text of `n` without leading zeros (`format!("{:x}", n)`).
pub open spec fn hex_of_u64(n: nat) -> Seq<char>
    decreases n,
{
    if n < 16 {
        seq![hex_digit(n as int)]
    } else {
        hex_of_u64(n / 16).push(hex_digit((n % 16) as int))
    }
}

fn push_hex_u64(out: &mut String, n: u64)
    ensures
        final(out)@ == old(out)@ + hex_of_u64(n as nat),
    decreases n,
{
    if n >= 16 {
        push_hex_u64(out, n / 16);
    }
    string_push(out, hex_digit_char((n % 16) as u8));
    assert(final(out)@ =~= old(out)@ + hex_of_u64(n as nat));
}

/// `format!("{:x}", n)`.
pub fn hex_u64(n: u64) -> (r: String)
    ensures
        r@ == hex_of_u64(n as nat),
{
    let mut r = String::new();
    push_hex_u64(&mut r, n);
    assert(r@ =~= hex_of_u64(n as nat));
    r
}


/// `a` followed by `b`.
pub fn concat_str(a: &str, b: &str) -> (r: String)
    ensures
        r@ == a@ + b@,
{
    let mut r = str_to_string(a);
    let n = b.unicode_len();
    let mut i: usize = 0;
    while i < n
        invariant
            0 <= i <= n,
            n == b@.len(),
            r@ == a@ + b@.take(i as int),
        decreases n - i,
    {
        string_push(&mut r, b.get_char(i));
        assert(b@.take(i + 1) =~= b@.take(i as int).push(b@[i as int]));
        i = i + 1;
    }
    assert(b@.take(n as int) =~= b@);
    r
}

pub open spec fn is_digit(c: char) -> bool {
    '0' <= c && c <= '9'
}

pub open spec fn is_sign(c: char) -> bool {
    c == '+' || c == '-'
}

pub open spec fn all_digits(s: Seq<char>) -> bool {
    forall|i: int| 0 <= i < s.len() ==> is_digit(#[trigger] s[i])
}

/// `Digit+ | Digit+ '.' Digit* | Digit* '.' Digit+`: digits with at most
/// one decimal point, at least one digit.
pub open spec fn is_mantissa(m: Seq<char>) -> bool {
    (m.len() >= 1 && all_digits(m)) || exists|d: int|
        0 <= d < m.len() && m.len() >= 2 && m[d] == '.' && all_digits(m.take(d)) && all_digits(
            #[trigger] m.skip(d + 1),
        )
}

/// `[eE] [+-]? Digit+`
pub open spec fn is_exponent(e: Seq<char>) -> bool {
    e.len() >= 2 && (e[0] == 'e' || e[0] == 'E') && ((is_sign(e[1]) && e.len() >= 3 && all_digits(
        e.skip(2),
    )) || all_digits(e.skip(1)))
}

/// A mantissa, optionally followed by an exponent.
pub open spec fn is_decimal_number(b: Seq<char>) -> bool {
    is_mantissa(b) || exists|k: int|
        0 < k < b.len() && is_mantissa(b.take(k)) && #[trigger] is_exponent(b.skip(k))
}

/// `b` spells the lowercase `word`, letters in either case.
pub open spec fn spells_ignoring_case(b: Seq<char>, word: Seq<char>) -> bool {
    b.len() == word.len() && forall|i: int|
        0 <= i < b.len() ==> (#[trigger] b[i] == word[i] || ('A' <= b[i] && b[i] <= 'Z' && b[i]
            as u32 + 32 == word[i] as u32))
}

/// What `str::parse::<f64>` accepts: an optional sign, then `inf`,
/// `infinity` or `nan` in any case, or a decimal number.
pub open spec fn is_float_literal(s: Seq<char>) -> bool {
    let b = if s.len() > 0 && is_sign(s[0]) {
        s.skip(1)
    } else {
        s
    };
    spells_ignoring_case(b, "inf"@) || spells_ignoring_case(b, "infinity"@) || spells_ignoring_case(
        b,
        "nan"@,
    ) || is_decimal_number(b)
}

fn char_is_digit(c: char) -> (r: bool)
    ensures
        r == is_digit(c),
{
    '0' <= c && c <= '9'
}

/// The end of the run of digits in `s` that starts at `from`.
fn skip_digits(s: &str, n: usize, from: usize) -> (p: usize)
    requires
        n == s@.len(),
        from <= n,
    ensures
        from <= p <= n,
        forall|j: int| from <= j < p ==> is_digit(#[trigger] s@[j]),
        p < n ==> !is_digit(s@[p as int]),
{
    let mut p = from;
    while p < n
        invariant
            from <= p <= n,
            n == s@.len(),
            forall|j: int| from <= j < p ==> is_digit(#[trigger] s@[j]),
        decreases n - p,
    {
        if !char_is_digit(s.get_char(p)) {
            return p;
        }
        p = p + 1;
    }
    p
}

/// Whether `s` from `start` on spells `word` (lowercase), letters in either case.
fn spells_from(s: &str, n: usize, start: usize, word: &str) -> (r: bool)
    requires
        n == s@.len(),
        start <= n,
    ensures
        r == spells_ignoring_case(s@.skip(start as int), word@),
{
    let m = word.unicode_len();
    if n - start != m {
        return false;
    }
    let mut i: usize = 0;
    while i < m
        invariant
            0 <= i <= m,
            n == s@.len(),
            start <= n,
            m == word@.len(),
            n - start == m,
            forall|j: int|
                0 <= j < i ==> (#[trigger] s@.skip(start as int)[j] == word@[j] || ('A' <= s@.skip(
                    start as int,
                )[j] && s@.skip(start as int)[j] <= 'Z' && s@.skip(start as int)[j] as u32 + 32
                    == word@[j] as u32)),
        decreases m - i,
    {
        let c = s.get_char(start + i);
        let w = word.get_char(i);
        assert(s@.skip(start as int)[i as int] == c);
        if !(c == w || ('A' <= c && c <= 'Z' && (c as u32) + 32 == w as u32)) {
            return false;
        }
        i = i + 1;
    }
    true
}

/// Whether `str::parse::<f64>` accepts `s`.
pub fn float_literal(s: &str) -> (r: bool)
    ensures
        r == is_float_literal(s@),
{
    let n = s.unicode_len();
    let start: usize = if n > 0 && (s.get_char(0) == '+' || s.get_char(0) == '-') {
        1
    } else {
        0
    };
    let ghost b = s@.skip(start as int);
    assert(b == (if s@.len() > 0 && is_sign(s@[0]) { s@.skip(1) } else { s@ })) by {
        if start == 0 {
            assert(s@.skip(0) =~= s@);
        }
    }
    if spells_from(s, n, start, "inf") || spells_from(s, n, start, "infinity") || spells_from(
        s,
        n,
        start,
        "nan",
    ) {
        return true;
    }
    let r = decimal_number_from(s, n, start);
    r
}

proof fn lemma_mantissa_chars(m: Seq<char>)
    requires
        is_mantissa(m),
    ensures
        forall|j: int| 0 <= j < m.len() ==> is_digit(#[trigger] m[j]) || m[j] == '.',
        forall|j1: int, j2: int|
            0 <= j1 < j2 < m.len() ==> !(#[trigger] m[j1] == '.' && #[trigger] m[j2] == '.'),
        is_digit(m[0]) || (m.len() >= 2 && m[0] == '.' && is_digit(m[1])),
{
    if !(m.len() >= 1 && all_digits(m)) {
        let d = choose|d: int|
            0 <= d < m.len() && m.len() >= 2 && m[d] == '.' && all_digits(m.take(d)) && all_digits(
                #[trigger] m.skip(d + 1),
            );
        assert forall|j: int| 0 <= j < m.len() && j != d implies is_digit(#[trigger] m[j]) by {
            if j < d {
                assert(m.take(d)[j] == m[j]);
            } else {
                assert(m.skip(d + 1)[j - d - 1] == m[j]);
            }
        }
        if d == 0 {
            assert(m.skip(1)[0] == m[1]);
        }
    }
}

/// The shape the scanner finds in `b`: digits up to `p0`; where `dot`, a
/// point at `p0` and digits up to `q0`; the char at `q0` (if any) ends it.
pub open spec fn scanned(b: Seq<char>, p0: int, q0: int, dot: bool) -> bool {
    &&& 0 <= p0 <= q0 <= b.len()
    &&& forall|j: int| 0 <= j < p0 ==> is_digit(#[trigger] b[j])
    &&& p0 < b.len() ==> !is_digit(b[p0])
    &&& dot ==> p0 < b.len() && b[p0] == '.' && q0 >= p0 + 1 && (forall|j: int|
        p0 + 1 <= j < q0 ==> is_digit(#[trigger] b[j])) && (q0 < b.len() ==> !is_digit(b[q0]))
    &&& !dot ==> q0 == p0 && (p0 < b.len() ==> b[p0] != '.')
}

proof fn lemma_mantissa_end(b: Seq<char>, p0: int, q0: int, dot: bool)
    requires
        scanned(b, p0, q0, dot),
    ensures
        forall|k: int|
            0 < k <= b.len() && #[trigger] is_mantissa(b.take(k)) && (k == b.len() || b[k] == 'e'
                || b[k] == 'E') ==> k == q0,
{
    assert forall|k: int|
        0 < k <= b.len() && #[trigger] is_mantissa(b.take(k)) && (k == b.len() || b[k] == 'e' || b[k]
            == 'E') implies k == q0 by {
        let m = b.take(k);
        lemma_mantissa_chars(m);
        if k < q0 {
            if k < p0 {
                assert(is_digit(b[k]));
            } else if k == p0 {
                assert(b[k] == '.');
            } else {
                assert(is_digit(b[k]));
            }
        } else if k > q0 {
            assert(m[q0] == b[q0]);
            if dot && b[q0] == '.' {
                assert(m[p0] == b[p0]);
            }
        }
    }
}

proof fn lemma_exponent_scan(ex: Seq<char>, e: int, f: int)
    requires
        ex.len() >= 1,
        ex[0] == 'e' || ex[0] == 'E',
        e == 1 || e == 2,
        (e == 2) == (ex.len() > 1 && is_sign(ex[1])),
        e <= f <= ex.len(),
        forall|j: int| e <= j < f ==> is_digit(#[trigger] ex[j]),
        f < ex.len() ==> !is_digit(ex[f]),
    ensures
        is_exponent(ex) == (f > e && f == ex.len()),
{
    if f > e && f == ex.len() {
        assert forall|j: int| 0 <= j < ex.skip(e).len() implies is_digit(#[trigger] ex.skip(e)[j]) by {
            assert(ex.skip(e)[j] == ex[j + e]);
        }
    }
    if is_exponent(ex) {
        if e == 2 {
            assert(!is_digit(ex.skip(1)[0]));
            if f < ex.len() {
                assert(ex.skip(2)[f - 2] == ex[f]);
            }
        } else {
            if f < ex.len() {
                assert(ex.skip(1)[f - 1] == ex[f]);
            }
        }
    }
}

proof fn lemma_no_number_without_digits(b: Seq<char>, p0: int, q0: int, dot: bool)
    requires
        scanned(b, p0, q0, dot),
        p0 == 0,
        dot ==> q0 == 1,
    ensures
        !is_decimal_number(b),
{
    assert forall|k: int| 0 < k <= b.len() implies !#[trigger] is_mantissa(b.take(k)) by {
        let m = b.take(k);
        if is_mantissa(m) {
            lemma_mantissa_chars(m);
            assert(m[0] == b[0]);
            if m.len() >= 2 {
                assert(m[1] == b[1]);
            }
        }
    }
    if is_mantissa(b) {
        assert(b.take(b.len() as int) =~= b);
    }
}

fn decimal_number_from(s: &str, n: usize, start: usize) -> (r: bool)
    requires
        n == s@.len(),
        start <= n,
    ensures
        r == is_decimal_number(s@.skip(start as int)),
{
    let ghost b = s@.skip(start as int);
    let p = skip_digits(s, n, start);
    let mut q = p;
    let mut dot = false;
    if p < n && s.get_char(p) == '.' {
        q = skip_digits(s, n, p + 1);
        dot = true;
    }
    // in body coordinates: digits [0, p0), optional '.' at p0, digits up to q0
    let ghost p0 = p - start;
    let ghost q0 = q - start;
    assert forall|j: int| 0 <= j < p0 implies is_digit(#[trigger] b[j]) by {
        assert(b[j] == s@[j + start]);
    }
    assert(p0 < b.len() ==> b[p0] == s@[p as int]);
    if dot {
        assert forall|j: int| p0 + 1 <= j < q0 implies is_digit(#[trigger] b[j]) by {
            assert(b[j] == s@[j + start]);
        }
    }
    assert(q0 < b.len() ==> b[q0] == s@[q as int]);
    let digits = if dot { q - p - 1 + (p - start) } else { p - start };
    if digits == 0 {
        proof {
            lemma_no_number_without_digits(b, p0, q0, dot);
        }
        return false;
    }
    let ghost m = b.take(q0);
    assert(is_mantissa(m)) by {
        if dot {
            assert(m[p0] == '.');
            assert(all_digits(m.take(p0)));
            assert(all_digits(m.skip(p0 + 1)));
        } else {
            assert(all_digits(m));
        }
    }
    if q == n {
        assert(m =~= b);
        return true;
    }
    let c = s.get_char(q);
    assert(is_mantissa(b.take(b.len() as int)) ==> is_mantissa(b)) by {
        assert(b.take(b.len() as int) =~= b);
    }
    proof {
        lemma_mantissa_end(b, p0, q0, dot);
        assert(is_mantissa(b) ==> is_mantissa(b.take(b.len() as int))) by {
            assert(b.take(b.len() as int) =~= b);
        }
    }
    if !(c == 'e' || c == 'E') {
        proof {
            if is_decimal_number(b) {
                if !is_mantissa(b) {
                    let k = choose|k: int|
                        0 < k < b.len() && is_mantissa(b.take(k)) && #[trigger] is_exponent(b.skip(k));
                    assert(b.skip(k)[0] == b[k]);
                }
            }
        }
        return false;
    }
    let ghost ex = b.skip(q0);
    proof {
        assert(ex[0] == c);
        if is_decimal_number(b) && !is_mantissa(b) {
            let k = choose|k: int|
                0 < k < b.len() && is_mantissa(b.take(k)) && #[trigger] is_exponent(b.skip(k));
            assert(b.skip(k)[0] == b[k]);
        }
        if is_exponent(ex) {
            assert(0 < q0 < b.len() && is_mantissa(b.take(q0)) && is_exponent(b.skip(q0)));
        }
        assert(is_decimal_number(b) == is_exponent(ex));
    }
    let mut e = q + 1;
    if e < n && (s.get_char(e) == '+' || s.get_char(e) == '-') {
        e = e + 1;
    }
    let f = skip_digits(s, n, e);
    let r = f > e && f == n;
    proof {
        assert forall|j: int| 0 <= j < ex.len() implies #[trigger] ex[j] == s@[j + q] by {}
        assert forall|j: int| e - q <= j < f - q implies is_digit(#[trigger] ex[j]) by {
            assert(ex[j] == s@[j + q]);
        }
        if f < n {
            assert(ex[f - q] == s@[f as int]);
        }
        if e == q + 2 {
            assert(ex[1] == s@[q + 1]);
        } else if ex.len() > 1 {
            assert(ex[1] == s@[q + 1]);
        }
        lemma_exponent_scan(ex, e - q, f - q);
    }
    r
}

} // verus!
