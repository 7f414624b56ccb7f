//! Verified text primitives: character access, trimming, decimal and
//! hexadecimal rendering, integer parsing, and line splitting.
use vstd::prelude::*;

verus! {

broadcast use vstd::string::group_string_axioms;

/// Appends one character to a string (std `String::push`).
#[verifier::external_body]
pub(crate) fn push_char(s: &mut String, c: char)
    ensures
        final(s)@ == old(s)@.push(c),
{
    s.push(c);
}

/// The characters of `s`, in order.
pub fn chars_of(s: &str) -> (v: Vec<char>)
    ensures
        v@ == s@,
{
    let mut v: Vec<char> = Vec::new();
    for c in it: s.chars()
        invariant
            v@ == it.seq().take(it.index() as int),
    {
        v.push(c);
    }
    v
}

/// Character-wise equality of two string slices.
pub fn str_eq(a: &str, b: &str) -> (r: bool)
    ensures
        r == (a@ == b@),
{
    let x = chars_of(a);
    let y = chars_of(b);
    if x.len() != y.len() {
        return false;
    }
    let mut i: usize = 0;
    while i < x.len()
        invariant
            x@ == a@,
            y@ == b@,
            x.len() == y.len(),
            i <= x.len(),
            forall|j: int| 0 <= j < i ==> x@[j] == y@[j],
        decreases x.len() - i,
    {
        if x[i] != y[i] {
            return false;
        }
        i = i + 1;
    }
    assert(x@ =~= y@);
    true
}

/// Appends `v[from..to]` to `out`.
pub fn push_slice(out: &mut String, v: &Vec<char>, from: usize, to: usize)
    requires
        from <= to <= v.len(),
    ensures
        final(out)@ == old(out)@ + v@.subrange(from as int, to as int),
{
    let mut i = from;
    while i < to
        invariant
            from <= i <= to <= v.len(),
            out@ == old(out)@ + v@.subrange(from as int, i as int),
        decreases to - i,
    {
        push_char(out, v[i]);
        i = i + 1;
        assert(v@.subrange(from as int, i as int) =~= v@.subrange(from as int, i - 1).push(v@[i - 1]));
    }
}

/// A string holding exactly the characters of `v`.
pub fn string_of(v: &Vec<char>) -> (s: String)
    ensures
        s@ == v@,
{
    let mut s = String::new();
    push_slice(&mut s, v, 0, v.len());
    assert(v@.subrange(0, v@.len() as int) =~= v@);
    s
}

/// A string holding the characters of `s`.
pub fn owned(s: &str) -> (r: String)
    ensures
        r@ == s@,
{
    String::from_str(s)
}

// ─────────────────────────────────────────────────────────────────────────────
// Whitespace and trimming (Unicode White_Space, as `char::is_whitespace`)
// ─────────────────────────────────────────────────────────────────────────────

/// The Unicode `White_Space` property.
pub open spec fn is_ws(c: char) -> bool {
    let u = c as u32;
    ||| 0x9 <= u <= 0xD
    ||| u == 0x20
    ||| u == 0x85
    ||| u == 0xA0
    ||| u == 0x1680
    ||| 0x2000 <= u <= 0x200A
    ||| u == 0x2028
    ||| u == 0x2029
    ||| u == 0x202F
    ||| u == 0x205F
    ||| u == 0x3000
}

/// Executable `White_Space` test.
pub fn is_whitespace(c: char) -> (r: bool)
    ensures
        r == is_ws(c),
{
    let u = c as u32;
    (0x9 <= u && u <= 0xD) || u == 0x20 || u == 0x85 || u == 0xA0 || u == 0x1680
        || (0x2000 <= u && u <= 0x200A) || u == 0x2028 || u == 0x2029 || u == 0x202F
        || u == 0x205F || u == 0x3000
}

/// Index of the first non-whitespace character (or the length).
pub open spec fn trim_lo(s: Seq<char>) -> int
    decreases s.len(),
{
    if s.len() == 0 {
        0
    } else if is_ws(s[0]) {
        1 + trim_lo(s.drop_first())
    } else {
        0
    }
}

/// One past the index of the last non-whitespace character (or 0).
pub open spec fn trim_hi(s: Seq<char>) -> int
    decreases s.len(),
{
    if s.len() == 0 {
        0
    } else if is_ws(s.last()) {
        trim_hi(s.drop_last())
    } else {
        s.len() as int
    }
}

/// `s` without leading and trailing whitespace (as `str::trim`).
pub open spec fn trimmed(s: Seq<char>) -> Seq<char> {
    if trim_lo(s) < trim_hi(s) {
        s.subrange(trim_lo(s), trim_hi(s))
    } else {
        Seq::empty()
    }
}

proof fn lemma_trim_lo(s: Seq<char>)
    ensures
        0 <= trim_lo(s) <= s.len(),
        forall|j: int| 0 <= j < trim_lo(s) ==> is_ws(#[trigger] s[j]),
        trim_lo(s) < s.len() ==> !is_ws(s[trim_lo(s)]),
    decreases s.len(),
{
    if s.len() > 0 && is_ws(s[0]) {
        lemma_trim_lo(s.drop_first());
        assert forall|j: int| 0 <= j < trim_lo(s) implies is_ws(#[trigger] s[j]) by {
            if j > 0 {
                assert(s[j] == s.drop_first()[j - 1]);
            }
        }
    }
}

proof fn lemma_trim_hi(s: Seq<char>)
    ensures
        0 <= trim_hi(s) <= s.len(),
        forall|j: int| trim_hi(s) <= j < s.len() ==> is_ws(#[trigger] s[j]),
        trim_hi(s) > 0 ==> !is_ws(s[trim_hi(s) - 1]),
    decreases s.len(),
{
    if s.len() > 0 && is_ws(s.last()) {
        lemma_trim_hi(s.drop_last());
        assert forall|j: int| trim_hi(s) <= j < s.len() implies is_ws(#[trigger] s[j]) by {
            if j < s.len() - 1 {
                assert(s[j] == s.drop_last()[j]);
            }
        }
    }
}

/// Characterisation of `trim_lo` by its first non-whitespace position.
proof fn lemma_trim_lo_unique(s: Seq<char>, k: int)
    requires
        0 <= k <= s.len(),
        forall|j: int| 0 <= j < k ==> is_ws(#[trigger] s[j]),
        k < s.len() ==> !is_ws(s[k]),
    ensures
        trim_lo(s) == k,
{
    lemma_trim_lo(s);
    if trim_lo(s) < k {
        assert(is_ws(s[trim_lo(s)]));
    } else if trim_lo(s) > k {
        assert(is_ws(s[k]));
    }
}

proof fn lemma_trim_hi_unique(s: Seq<char>, k: int)
    requires
        0 <= k <= s.len(),
        forall|j: int| k <= j < s.len() ==> is_ws(#[trigger] s[j]),
        k > 0 ==> !is_ws(s[k - 1]),
    ensures
        trim_hi(s) == k,
{
    lemma_trim_hi(s);
    if trim_hi(s) < k {
        assert(is_ws(s[k - 1]));
    } else if trim_hi(s) > k {
        assert(is_ws(s[trim_hi(s) - 1]));
    }
}

/// `s` with leading and trailing whitespace removed (as `str::trim`).
pub fn trim(s: &str) -> (r: String)
    ensures
        r@ == trimmed(s@),
{
    let v = chars_of(s);
    let t = trim_chars(&v);
    string_of(&t)
}

/// `v` with leading and trailing whitespace removed.
pub fn trim_chars(v: &Vec<char>) -> (r: Vec<char>)
    ensures
        r@ == trimmed(v@),
{
    let ghost s = v@;
    let n = v.len();
    let mut lo: usize = 0;
    while lo < n && is_whitespace(v[lo])
        invariant
            v@ == s,
            n == v.len(),
            lo <= n,
            forall|j: int| 0 <= j < lo ==> is_ws(#[trigger] v@[j]),
        decreases n - lo,
    {
        lo = lo + 1;
    }
    let mut hi: usize = n;
    while hi > lo && is_whitespace(v[hi - 1])
        invariant
            v@ == s,
            n == v.len(),
            lo <= hi <= n,
            forall|j: int| hi <= j < n ==> is_ws(#[trigger] v@[j]),
        decreases hi,
    {
        hi = hi - 1;
    }
    proof {
        lemma_trim_lo_unique(s, lo as int);
        if hi > lo {
            lemma_trim_hi_unique(s, hi as int);
        } else {
            lemma_trim_hi(s);
            if trim_hi(s) > lo {
                assert(is_ws(s[trim_hi(s) - 1]));
            }
        }
    }
    let mut r: Vec<char> = Vec::new();
    let mut i = lo;
    while i < hi
        invariant
            lo <= i <= hi <= v.len(),
            r@ == v@.subrange(lo as int, i as int),
        decreases hi - i,
    {
        r.push(v[i]);
        i = i + 1;
        assert(r@ =~= v@.subrange(lo as int, i as int));
    }
    if lo >= hi {
        assert(r@ =~= Seq::<char>::empty());
    }
    r
}


// ─────────────────────────────────────────────────────────────────────────────
// Decimal rendering
// ─────────────────────────────────────────────────────────────────────────────

/// The ASCII digit character for `d` (0..=9).
pub open spec fn digit_char(d: int) -> char {
    (48 + d) as char
}

/// Decimal digits of a natural number, most significant first, no padding.
pub open spec fn dec(n: nat) -> Seq<char>
    decreases n,
{
    if n < 10 {
        seq![digit_char(n as int)]
    } else {
        dec(n / 10).push(digit_char((n % 10) as int))
    }
}

/// Decimal text of an integer, with a leading `-` when negative (as `Display`).
pub open spec fn int_text(n: int) -> Seq<char> {
    if n < 0 {
        seq!['-'] + dec((-n) as nat)
    } else {
        dec(n as nat)
    }
}

fn digit(d: u64) -> (c: char)
    requires
        d < 10,
    ensures
        c == digit_char(d as int),
{
    let b: u8 = 48u8 + (d as u8);
    b as char
}

/// Appends the decimal digits of `n`.
pub fn push_dec(out: &mut String, n: u64)
    ensures
        final(out)@ == old(out)@ + dec(n as nat),
    decreases n,
{
    if n >= 10 {
        push_dec(out, n / 10);
        push_char(out, digit(n % 10));
        assert(old(out)@ + dec(n as nat) =~= old(out)@ + dec((n / 10) as nat) + seq![digit_char((n % 10) as int)]);
    } else {
        push_char(out, digit(n));
        assert(old(out)@ + dec(n as nat) =~= old(out)@.push(digit_char(n as int)));
    }
}

/// Appends the decimal text of `n` (as `i64`'s `Display`).
pub fn push_i64(out: &mut String, n: i64)
    ensures
        final(out)@ == old(out)@ + int_text(n as int),
{
    if n < 0 {
        push_char(out, '-');
        let m: u64 = if n == i64::MIN { 9223372036854775808u64 } else { (-n) as u64 };
        push_dec(out, m);
        assert(old(out)@ + int_text(n as int) =~= old(out)@.push('-') + dec(m as nat));
    } else {
        push_dec(out, n as u64);
    }
}

/// Appends the decimal text of `n` (as `usize`'s `Display`).
pub fn push_usize(out: &mut String, n: usize)
    ensures
        final(out)@ == old(out)@ + int_text(n as int),
{
    push_dec(out, n as u64);
}

/// The decimal text of `n` (as `i64::to_string`).
pub fn i64_text(n: i64) -> (s: String)
    ensures
        s@ == int_text(n as int),
{
    let mut s = String::new();
    push_i64(&mut s, n);
    assert(s@ =~= int_text(n as int));
    s
}

// ─────────────────────────────────────────────────────────────────────────────
// Hexadecimal rendering
// ─────────────────────────────────────────────────────────────────────────────

/// Lowercase hex digit for a nibble.
pub open spec fn hex_lower_digit(d: int) -> char {
    if d < 10 { (48 + d) as char } else { (87 + d) as char }
}

/// Uppercase hex digit for a nibble.
pub open spec fn hex_upper_digit(d: int) -> char {
    if d < 10 { (48 + d) as char } else { (55 + d) as char }
}

/// Two lowercase hex digits per byte (as `format!("{b:02x}")` for each byte).
pub open spec fn hex_lower(b: Seq<u8>) -> Seq<char>
    decreases b.len(),
{
    if b.len() == 0 {
        Seq::empty()
    } else {
        hex_lower(b.drop_last()) + seq![
            hex_lower_digit(b.last() as int / 16),
            hex_lower_digit(b.last() as int % 16),
        ]
    }
}

/// A lowercase hexadecimal digit: `0`–`9` or `a`–`f`.
pub open spec fn is_lower_hex(c: char) -> bool {
    ('0' <= c && c <= '9') || ('a' <= c && c <= 'f')
}

/// Lowercase hex text has two digits per byte, each `0`–`9` or `a`–`f`.
pub proof fn lemma_hex_lower_shape(b: Seq<u8>)
    ensures
        hex_lower(b).len() == 2 * b.len(),
        forall|i: int| 0 <= i < hex_lower(b).len() ==> is_lower_hex(#[trigger] hex_lower(b)[i]),
    decreases b.len(),
{
    if b.len() > 0 {
        lemma_hex_lower_shape(b.drop_last());
        let p = hex_lower(b.drop_last());
        let t = seq![hex_lower_digit(b.last() as int / 16), hex_lower_digit(b.last() as int % 16)];
        assert(0 <= b.last() as int / 16 < 16);
        assert forall|i: int| 0 <= i < (p + t).len() implies is_lower_hex(#[trigger] (p + t)[i]) by {
            if i < p.len() {
                assert((p + t)[i] == p[i]);
            }
        }
    }
}

pub fn hex_digit_lower(d: u8) -> (c: char)
    requires
        d < 16,
    ensures
        c == hex_lower_digit(d as int),
{
    if d < 10 { (48u8 + d) as char } else { (87u8 + d) as char }
}

pub fn hex_digit_upper(d: u8) -> (c: char)
    requires
        d < 16,
    ensures
        c == hex_upper_digit(d as int),
{
    if d < 10 { (48u8 + d) as char } else { (55u8 + d) as char }
}

/// Lowercase hex rendering of a byte string.
pub fn to_hex_lower(b: &[u8]) -> (s: String)
    ensures
        s@ == hex_lower(b@),
        s@.len() == 2 * b@.len(),
        forall|i: int| 0 <= i < s@.len() ==> is_lower_hex(#[trigger] s@[i]),
{
    proof { lemma_hex_lower_shape(b@); }
    let mut s = String::new();
    let mut i: usize = 0;
    while i < b.len()
        invariant
            i <= b.len(),
            s@ == hex_lower(b@.take(i as int)),
        decreases b.len() - i,
    {
        let x = b[i];
        push_char(&mut s, hex_digit_lower(x / 16));
        push_char(&mut s, hex_digit_lower(x % 16));
        assert(b@.take(i + 1).drop_last() =~= b@.take(i as int));
        assert(s@ =~= hex_lower(b@.take(i + 1)));
        i = i + 1;
    }
    assert(b@.take(b.len() as int) =~= b@);
    s
}

// ─────────────────────────────────────────────────────────────────────────────
// Integer parsing (as `str::parse` for `i64` and `u8`)
// ─────────────────────────────────────────────────────────────────────────────

pub open spec fn is_digit(c: char) -> bool {
    '0' <= c && c <= '9'
}

pub open spec fn all_digits(s: Seq<char>) -> bool {
    forall|i: int| 0 <= i < s.len() ==> is_digit(#[trigger] s[i])
}

/// Value of a string of decimal digits.
pub open spec fn digits_value(s: Seq<char>) -> nat
    decreases s.len(),
{
    if s.len() == 0 {
        0
    } else {
        digits_value(s.drop_last()) * 10 + ((s.last() as int - 48) as nat)
    }
}

/// The integer that Rust's `FromStr` reads from `s`, before the range check:
/// an optional `+` (or `-` when `signed`) followed by at least one ASCII digit.
pub open spec fn parse_int(s: Seq<char>, signed: bool) -> Option<int> {
    if s.len() == 0 {
        None
    } else if (s[0] == '+' || s[0] == '-') && s.len() == 1 {
        None
    } else if s[0] == '+' {
        if all_digits(s.drop_first()) { Some(digits_value(s.drop_first()) as int) } else { None }
    } else if s[0] == '-' && signed {
        if all_digits(s.drop_first()) { Some(-(digits_value(s.drop_first()) as int)) } else { None }
    } else if all_digits(s) {
        Some(digits_value(s) as int)
    } else {
        None
    }
}

/// What `s.parse::<i64>().ok()` returns.
pub open spec fn parse_i64_spec(s: Seq<char>) -> Option<i64> {
    match parse_int(s, true) {
        Some(v) => if i64::MIN <= v <= i64::MAX { Some(v as i64) } else { None },
        None => None,
    }
}

/// What `s.parse::<u8>().ok()` returns.
pub open spec fn parse_u8_spec(s: Seq<char>) -> Option<u8> {
    match parse_int(s, false) {
        Some(v) => if 0 <= v <= 255 { Some(v as u8) } else { None },
        None => None,
    }
}

/// Reads the digits `v[from..]`, saturating the value at `cap`.
fn digits_capped(v: &Vec<char>, from: usize, cap: u128) -> (r: Option<u128>)
    requires
        from <= v.len(),
        cap < 0x1_0000_0000_0000_0000_0000,
    ensures
        r is Some <==> all_digits(v@.subrange(from as int, v.len() as int)),
        r matches Some(x) ==> x as int == if digits_value(v@.subrange(from as int, v.len() as int)) < cap {
            digits_value(v@.subrange(from as int, v.len() as int)) as int
        } else {
            cap as int
        },
{
    let mut acc: u128 = 0;
    let mut i = from;
    while i < v.len()
        invariant
            from <= i <= v.len(),
            cap < 0x1_0000_0000_0000_0000_0000,
            all_digits(v@.subrange(from as int, i as int)),
            acc as int == if digits_value(v@.subrange(from as int, i as int)) < cap {
                digits_value(v@.subrange(from as int, i as int)) as int
            } else {
                cap as int
            },
        decreases v.len() - i,
    {
        let c = v[i];
        if !('0' <= c && c <= '9') {
            assert(!is_digit(v@.subrange(from as int, v.len() as int)[i - from]));
            return None;
        }
        let d = (c as u32 - 48) as u128;
        let next = acc * 10 + d;
        acc = if next < cap { next } else { cap };
        let ghost p = v@.subrange(from as int, i + 1);
        assert(p.drop_last() =~= v@.subrange(from as int, i as int));
        i = i + 1;
    }
    Some(acc)
}

/// `s.parse::<i64>().ok()`.
pub fn parse_i64(s: &str) -> (r: Option<i64>)
    ensures
        r == parse_i64_spec(s@),
{
    let v = chars_of(s);
    let n = v.len();
    if n == 0 {
        return None;
    }
    if (v[0] == '+' || v[0] == '-') && n == 1 {
        return None;
    }
    let neg = v[0] == '-';
    let from: usize = if v[0] == '+' || v[0] == '-' { 1 } else { 0 };
    proof {
        if from == 1 {
            assert(v@.subrange(1, n as int) =~= s@.drop_first());
        } else {
            assert(v@.subrange(0, n as int) =~= s@);
        }
    }
    let cap: u128 = 9223372036854775809u128;
    match digits_capped(&v, from, cap) {
        None => None,
        Some(x) => {
            if neg {
                if x <= 9223372036854775808u128 {
                    if x == 9223372036854775808u128 { Some(i64::MIN) } else { Some(-(x as i64)) }
                } else {
                    None
                }
            } else if x <= 9223372036854775807u128 {
                Some(x as i64)
            } else {
                None
            }
        }
    }
}

/// `s.parse::<u8>().ok()`.
pub fn parse_u8(s: &str) -> (r: Option<u8>)
    ensures
        r == parse_u8_spec(s@),
{
    let v = chars_of(s);
    let n = v.len();
    if n == 0 {
        return None;
    }
    if (v[0] == '+' || v[0] == '-') && n == 1 {
        return None;
    }
    let from: usize = if v[0] == '+' { 1 } else { 0 };
    proof {
        if from == 1 {
            assert(v@.subrange(1, n as int) =~= s@.drop_first());
        } else {
            assert(v@.subrange(0, n as int) =~= s@);
        }
    }
    match digits_capped(&v, from, 256) {
        None => None,
        Some(x) => if x <= 255 { Some(x as u8) } else { None },
    }
}


// ─────────────────────────────────────────────────────────────────────────────
// Lines
// ─────────────────────────────────────────────────────────────────────────────

/// The views of a sequence of strings.
pub open spec fn views(v: Seq<String>) -> Seq<Seq<char>> {
    v.map_values(|x: String| x@)
}

/// The pieces of `s` between `'\n'` separators (at least one piece).
pub open spec fn split_lines(s: Seq<char>) -> Seq<Seq<char>>
    decreases s.len(),
{
    if s.len() == 0 {
        seq![Seq::empty()]
    } else {
        let r = split_lines(s.drop_last());
        if s.last() == '\n' {
            r.push(Seq::empty())
        } else {
            r.update(r.len() - 1, r.last().push(s.last()))
        }
    }
}

proof fn lemma_split_lines_nonempty(s: Seq<char>)
    ensures
        split_lines(s).len() >= 1,
    decreases s.len(),
{
    if s.len() > 0 {
        lemma_split_lines_nonempty(s.drop_last());
    }
}

/// The trimmed, non-empty members of `ls`, in order.
pub open spec fn clean_lines(ls: Seq<Seq<char>>) -> Seq<Seq<char>>
    decreases ls.len(),
{
    if ls.len() == 0 {
        Seq::empty()
    } else {
        let r = clean_lines(ls.drop_last());
        if trimmed(ls.last()).len() > 0 {
            r.push(trimmed(ls.last()))
        } else {
            r
        }
    }
}

/// Trimmed, non-empty lines of `input` (as `lines().map(trim).filter(non-empty)`).
pub fn clean_lines_of(input: &str) -> (out: Vec<String>)
    ensures
        views(out@) == clean_lines(split_lines(input@)),
{
    let v = chars_of(input);
    let mut out: Vec<String> = Vec::new();
    let mut cur: Vec<char> = Vec::new();
    let ghost mut done: Seq<Seq<char>> = Seq::empty();
    let mut i: usize = 0;
    assert(v@.take(0) =~= Seq::<char>::empty());
    while i < v.len()
        invariant
            v@ == input@,
            i <= v.len(),
            split_lines(v@.take(i as int)) == done.push(cur@),
            views(out@) == clean_lines(done),
        decreases v.len() - i,
    {
        let c = v[i];
        let ghost t = v@.take(i + 1);
        assert(t.drop_last() =~= v@.take(i as int));
        if c == '\n' {
            let tl = trim_chars(&cur);
            proof {
                assert(done.push(cur@).drop_last() =~= done);
            }
            if tl.len() > 0 {
                out.push(string_of(&tl));
            }
            proof {
                let old_done = done;
                done = done.push(cur@);
                assert(done.drop_last() =~= old_done);
                assert(views(out@) =~= clean_lines(done));
            }
            cur = Vec::new();
            assert(split_lines(t) =~= done.push(cur@));
        } else {
            cur.push(c);
            assert(split_lines(t) =~= done.push(cur@));
        }
        i = i + 1;
    }
    assert(v@.take(v.len() as int) =~= v@);
    let tl = trim_chars(&cur);
    if tl.len() > 0 {
        out.push(string_of(&tl));
    }
    proof {
        let all = done.push(cur@);
        assert(all.drop_last() =~= done);
        assert(views(out@) =~= clean_lines(all));
    }
    out
}


/// Whether `s` contains the character `c`.
pub fn contains_char(s: &str, c: char) -> (r: bool)
    ensures
        r == s@.contains(c),
{
    let v = chars_of(s);
    let mut i: usize = 0;
    while i < v.len()
        invariant
            v@ == s@,
            i <= v.len(),
            forall|j: int| 0 <= j < i ==> v@[j] != c,
        decreases v.len() - i,
    {
        if v[i] == c {
            assert(s@[i as int] == c);
            return true;
        }
        i = i + 1;
    }
    false
}

/// `a` followed by `b`.
pub fn concat(a: &str, b: &str) -> (r: String)
    ensures
        r@ == a@ + b@,
{
    let mut r = owned(a);
    r.append(b);
    r
}


// ─────────────────────────────────────────────────────────────────────────────
// Decimal text reads back
// ─────────────────────────────────────────────────────────────────────────────

proof fn lemma_dec_digits(n: nat)
    ensures
        dec(n).len() >= 1,
        all_digits(dec(n)),
        digits_value(dec(n)) == n,
    decreases n,
{
    if n < 10 {
        let d = dec(n);
        assert((digit_char(n as int) as int) == 48 + n);
        assert(d.drop_last() =~= Seq::<char>::empty());
        assert(digits_value(d) == digits_value(d.drop_last()) * 10 + ((d.last() as int - 48) as nat));
    }
    if n >= 10 {
        lemma_dec_digits(n / 10);
        let d = dec(n);
        assert(d.drop_last() =~= dec(n / 10));
        let k = (n % 10) as int;
        assert(0 <= k < 10);
        assert(d.last() == digit_char(k));
        assert((digit_char(k) as int) == 48 + k);
        assert(n == (n / 10) * 10 + n % 10) by (nonlinear_arith);
        assert(digits_value(d) == digits_value(d.drop_last()) * 10 + ((d.last() as int - 48) as nat));
        assert(digits_value(d) == (n / 10) * 10 + k);
        assert forall|i: int| 0 <= i < d.len() implies is_digit(#[trigger] d[i]) by {
            if i < d.len() - 1 {
                assert(d[i] == dec(n / 10)[i]);
            }
        }
    }
}

/// The decimal text of an integer parses back to that integer.
pub proof fn lemma_int_text_parses(n: int)
    ensures
        parse_int(int_text(n), true) == Some(n),
        int_text(n).len() >= 1,
{
    if n < 0 {
        let m = (-n) as nat;
        lemma_dec_digits(m);
        let t = seq!['-'] + dec(m);
        assert(t.drop_first() =~= dec(m));
        assert(t[0] == '-');
    } else {
        lemma_dec_digits(n as nat);
        let d = dec(n as nat);
        assert(is_digit(d[0]));
    }
}

/// Distinct integers have distinct decimal texts.
pub proof fn lemma_int_text_injective(n: int, m: int)
    ensures
        int_text(n) == int_text(m) ==> n == m,
{
    lemma_int_text_parses(n);
    lemma_int_text_parses(m);
}

/// `i64` decimal text reads back with `str::parse::<i64>`.
pub proof fn lemma_i64_text_round_trip(n: i64)
    ensures
        parse_i64_spec(int_text(n as int)) == Some(n),
{
    lemma_int_text_parses(n as int);
}

/// Decimal text never contains the character `c` unless it is a digit or `-`.
pub proof fn lemma_int_text_chars(n: int, c: char)
    requires
        !is_digit(c),
        c != '-',
    ensures
        !int_text(n).contains(c),
{
    lemma_int_text_parses(n);
    if n < 0 {
        let m = (-n) as nat;
        lemma_dec_digits(m);
        let t = seq!['-'] + dec(m);
        if t.contains(c) {
            let i = choose|i: int| 0 <= i < t.len() && t[i] == c;
            if i > 0 {
                assert(t[i] == dec(m)[i - 1]);
            }
        }
    } else {
        lemma_dec_digits(n as nat);
    }
}

} // verus!
