//! Verified text utilities: decimal and hexadecimal parsing and formatting,
//! string comparison, and separator splitting, as needed by the sysfs naming
//! grammar.

use vstd::prelude::*;

verus! {

// ---------------------------------------------------------------------------
// Character classes and digit values
// ---------------------------------------------------------------------------

pub open spec fn is_dec_digit(c: char) -> bool {
    '0' <= c && c <= '9'
}

pub open spec fn is_hex_digit(c: char) -> bool {
    is_dec_digit(c) || ('a' <= c && c <= 'f') || ('A' <= c && c <= 'F')
}

pub open spec fn dec_digit_val(c: char) -> nat {
    (c as nat - '0' as nat) as nat
}

pub open spec fn hex_digit_val(c: char) -> nat {
    if is_dec_digit(c) {
        dec_digit_val(c)
    } else if 'a' <= c && c <= 'f' {
        (c as nat - 'a' as nat + 10) as nat
    } else {
        (c as nat - 'A' as nat + 10) as nat
    }
}

pub open spec fn all_dec_digits(s: Seq<char>) -> bool {
    forall|i: int| 0 <= i < s.len() ==> is_dec_digit(#[trigger] s[i])
}

pub open spec fn all_hex_digits(s: Seq<char>) -> bool {
    forall|i: int| 0 <= i < s.len() ==> is_hex_digit(#[trigger] s[i])
}

/// Value of a sequence of decimal digits, most significant first.
pub open spec fn dec_seq_val(s: Seq<char>) -> nat
    decreases s.len(),
{
    if s.len() == 0 {
        0
    } else {
        dec_seq_val(s.drop_last()) * 10 + dec_digit_val(s.last())
    }
}

/// Value of a sequence of hexadecimal digits, most significant first.
pub open spec fn hex_seq_val(s: Seq<char>) -> nat
    decreases s.len(),
{
    if s.len() == 0 {
        0
    } else {
        hex_seq_val(s.drop_last()) * 16 + hex_digit_val(s.last())
    }
}

// ---------------------------------------------------------------------------
// Formatting specifications
// ---------------------------------------------------------------------------

pub open spec fn dec_digit_char(d: nat) -> char {
    if d == 0 { '0' }
    else if d == 1 { '1' }
    else if d == 2 { '2' }
    else if d == 3 { '3' }
    else if d == 4 { '4' }
    else if d == 5 { '5' }
    else if d == 6 { '6' }
    else if d == 7 { '7' }
    else if d == 8 { '8' }
    else { '9' }
}

pub open spec fn hex_digit_char(d: nat) -> char {
    if d < 10 { dec_digit_char(d) }
    else if d == 10 { 'a' }
    else if d == 11 { 'b' }
    else if d == 12 { 'c' }
    else if d == 13 { 'd' }
    else if d == 14 { 'e' }
    else { 'f' }
}

/// Decimal rendering of `n`, without a sign and without leading zeros
/// (a lone `'0'` for zero).
pub open spec fn dec_str(n: nat) -> Seq<char>
    decreases n,
{
    if n < 10 {
        seq![dec_digit_char(n)]
    } else {
        dec_str(n / 10).push(dec_digit_char(n % 10))
    }
}

/// Decimal rendering of a signed value: a `'-'` followed by the digits of the
/// magnitude when negative.
pub open spec fn dec_str_signed(n: int) -> Seq<char> {
    if n < 0 {
        seq!['-'] + dec_str((-n) as nat)
    } else {
        dec_str(n as nat)
    }
}

/// Lower-case hexadecimal rendering of `n`, without leading zeros.
pub open spec fn hex_str(n: nat) -> Seq<char>
    decreases n,
{
    if n < 16 {
        seq![hex_digit_char(n)]
    } else {
        hex_str(n / 16).push(hex_digit_char(n % 16))
    }
}

pub open spec fn repeat_char(c: char, n: nat) -> Seq<char>
    decreases n,
{
    if n == 0 {
        Seq::empty()
    } else {
        seq![c] + repeat_char(c, (n - 1) as nat)
    }
}

/// Hexadecimal rendering of `n`, left-padded with zeros to at least `w`
/// characters.
pub open spec fn hex_str_pad(n: nat, w: nat) -> Seq<char> {
    if hex_str(n).len() >= w {
        hex_str(n)
    } else {
        repeat_char('0', (w - hex_str(n).len()) as nat) + hex_str(n)
    }
}

// ---------------------------------------------------------------------------
// Executable helpers
// ---------------------------------------------------------------------------

/// A `String` holding the characters of `s`.
pub fn str_from(s: &str) -> (r: String)
    ensures
        r@ == s@,
{
    s.to_owned()
}

/// Relies on std's `String::push`: appends exactly one character.
#[verifier::external_body]
pub(crate) fn push_char(s: &mut String, c: char)
    ensures
        final(s)@ == old(s)@.push(c),
{
    s.push(c);
}

fn dec_digit_char_exec(d: u32) -> (c: char)
    requires
        d < 10,
    ensures
        c == dec_digit_char(d as nat),
{
    match d {
        0 => '0',
        1 => '1',
        2 => '2',
        3 => '3',
        4 => '4',
        5 => '5',
        6 => '6',
        7 => '7',
        8 => '8',
        _ => '9',
    }
}

fn hex_digit_char_exec(d: u32) -> (c: char)
    requires
        d < 16,
    ensures
        c == hex_digit_char(d as nat),
{
    match d {
        0 => '0',
        1 => '1',
        2 => '2',
        3 => '3',
        4 => '4',
        5 => '5',
        6 => '6',
        7 => '7',
        8 => '8',
        9 => '9',
        10 => 'a',
        11 => 'b',
        12 => 'c',
        13 => 'd',
        14 => 'e',
        _ => 'f',
    }
}

fn fmt_dec_u32_into(n: u32, s: &mut String)
    ensures
        final(s)@ == old(s)@ + dec_str(n as nat),
    decreases n,
{
    if n >= 10 {
        fmt_dec_u32_into(n / 10, s);
    }
    let c = dec_digit_char_exec(n % 10);
    push_char(s, c);
    proof {
        if n < 10 {
            assert(old(s)@ + dec_str(n as nat) =~= old(s)@.push(c));
        } else {
            assert(old(s)@ + dec_str(n as nat) =~= (old(s)@ + dec_str(
                (n / 10) as nat,
            )).push(c));
        }
    }
}

/// Decimal formatting of an unsigned 32-bit value.
pub fn fmt_dec_u32(n: u32) -> (s: String)
    ensures
        s@ == dec_str(n as nat),
{
    let mut s = String::new();
    fmt_dec_u32_into(n, &mut s);
    proof {
        assert(Seq::<char>::empty() + dec_str(n as nat) =~= dec_str(n as nat));
    }
    s
}

/// Decimal formatting of a signed 16-bit value.
pub fn fmt_dec_i16(n: i16) -> (s: String)
    ensures
        s@ == dec_str_signed(n as int),
{
    if n < 0 {
        let mut s = String::new();
        push_char(&mut s, '-');
        let magnitude = (-(n as i32)) as u32;
        fmt_dec_u32_into(magnitude, &mut s);
        proof {
            assert(Seq::<char>::empty().push('-') =~= seq!['-']);
        }
        s
    } else {
        fmt_dec_u32(n as u32)
    }
}

fn fmt_hex_u32_into(n: u32, s: &mut String)
    ensures
        final(s)@ == old(s)@ + hex_str(n as nat),
    decreases n,
{
    if n >= 16 {
        fmt_hex_u32_into(n / 16, s);
    }
    let c = hex_digit_char_exec(n % 16);
    push_char(s, c);
    proof {
        if n < 16 {
            assert(old(s)@ + hex_str(n as nat) =~= old(s)@.push(c));
        } else {
            assert(old(s)@ + hex_str(n as nat) =~= (old(s)@ + hex_str(
                (n / 16) as nat,
            )).push(c));
        }
    }
}

/// Lower-case hexadecimal formatting of `n`, left-padded with zeros to at
/// least `width` characters.
pub fn fmt_hex_u32_pad(n: u32, width: usize) -> (s: String)
    ensures
        s@ == hex_str_pad(n as nat, width as nat),
{
    let mut digits = String::new();
    fmt_hex_u32_into(n, &mut digits);
    proof {
        assert(Seq::<char>::empty() + hex_str(n as nat) =~= hex_str(n as nat));
    }
    let len = digits.as_str().unicode_len();
    let pad: usize = if width > len {
        width - len
    } else {
        0
    };
    let mut s = String::new();
    let mut j: usize = 0;
    while j < pad
        invariant
            j <= pad,
            s@ == repeat_char('0', j as nat),
        decreases pad - j,
    {
        push_char(&mut s, '0');
        j = j + 1;
        proof {
            lemma_repeat_char_snoc('0', j as nat);
        }
    }
    s.append(digits.as_str());
    proof {
        if hex_str(n as nat).len() >= width {
            assert(s@ =~= hex_str(n as nat));
        }
    }
    s
}

proof fn lemma_repeat_char_snoc(c: char, n: nat)
    requires
        n >= 1,
    ensures
        repeat_char(c, n) == repeat_char(c, (n - 1) as nat).push(c),
    decreases n,
{
    if n == 1 {
        assert(repeat_char(c, 1) =~= repeat_char(c, 0).push(c));
    } else {
        lemma_repeat_char_snoc(c, (n - 1) as nat);
        assert(repeat_char(c, n) =~= repeat_char(c, (n - 1) as nat).push(c));
    }
}

/// A formatted decimal number consists of digits only, at least one.
pub proof fn lemma_dec_str_digits(n: nat)
    ensures
        dec_str(n).len() >= 1,
        all_dec_digits(dec_str(n)),
    decreases n,
{
    if n >= 10 {
        lemma_dec_str_digits(n / 10);
    }
}

proof fn lemma_dec_digit_char_val(m: nat)
    requires
        m < 10,
    ensures
        dec_digit_val(dec_digit_char(m)) == m,
{
}

/// Parsing a formatted decimal number returns the number: the digit value
/// of `dec_str(n)` is `n`.
pub proof fn lemma_dec_str_val(n: nat)
    ensures
        dec_seq_val(dec_str(n)) == n,
    decreases n,
{
    if n < 10 {
        lemma_dec_digit_char_val(n);
        assert(dec_str(n) =~= seq![dec_digit_char(n)]);
        assert(dec_str(n).drop_last() =~= Seq::<char>::empty());
        assert(dec_seq_val(dec_str(n)) == dec_seq_val(dec_str(n).drop_last()) * 10
            + dec_digit_val(dec_str(n).last()));
        assert(dec_seq_val(dec_str(n).drop_last()) == 0);
        assert(dec_digit_val(dec_str(n).last()) == n);
    } else {
        lemma_dec_str_val(n / 10);
        lemma_dec_digit_char_val(n % 10);
        assert(dec_str(n) == dec_str(n / 10).push(dec_digit_char(n % 10)));
        assert(dec_str(n).drop_last() =~= dec_str(n / 10));
        assert(dec_str(n).last() == dec_digit_char(n % 10));
        assert(dec_seq_val(dec_str(n)) == dec_seq_val(dec_str(n).drop_last()) * 10
            + dec_digit_val(dec_str(n).last()));
    }
}

// ---------------------------------------------------------------------------
// Parsing
// ---------------------------------------------------------------------------

/// Result of parsing a full string as an unsigned decimal number that must
/// fit in 32 bits: at least one digit, digits only, value in range.
pub open spec fn parse_dec_u32_spec(s: Seq<char>) -> Option<u32> {
    if s.len() > 0 && all_dec_digits(s) && dec_seq_val(s) <= u32::MAX {
        Some(dec_seq_val(s) as u32)
    } else {
        None
    }
}

/// Result of parsing a full string as an unsigned hexadecimal number that
/// must fit in 32 bits; both digit cases are accepted.
pub open spec fn parse_hex_u32_spec(s: Seq<char>) -> Option<u32> {
    if s.len() > 0 && all_hex_digits(s) && hex_seq_val(s) <= u32::MAX {
        Some(hex_seq_val(s) as u32)
    } else {
        None
    }
}

pub open spec fn parse_sign_digits_i16(digits: Seq<char>, negative: bool) -> Option<i16> {
    if digits.len() > 0 && all_dec_digits(digits) {
        let v = dec_seq_val(digits);
        if negative && v <= 32768 {
            Some((-(v as int)) as i16)
        } else if !negative && v <= 32767 {
            Some(v as i16)
        } else {
            None
        }
    } else {
        None
    }
}

/// Result of parsing a full string as a signed 16-bit decimal number: an
/// optional sign, then at least one digit, value in range.
pub open spec fn parse_dec_i16_spec(s: Seq<char>) -> Option<i16> {
    if s.len() > 0 && (s[0] == '+' || s[0] == '-') {
        parse_sign_digits_i16(s.skip(1), s[0] == '-')
    } else {
        parse_sign_digits_i16(s, false)
    }
}

proof fn lemma_dec_val_prefix_le(s: Seq<char>, i: int, j: int)
    requires
        0 <= i <= j <= s.len(),
    ensures
        dec_seq_val(s.take(i)) <= dec_seq_val(s.take(j)),
    decreases j - i,
{
    if i < j {
        lemma_dec_val_prefix_le(s, i, j - 1);
        assert(s.take(j).drop_last() =~= s.take(j - 1));
        assert(dec_seq_val(s.take(j)) == dec_seq_val(s.take(j - 1)) * 10 + dec_digit_val(
            s.take(j).last(),
        ));
    }
}

proof fn lemma_hex_val_prefix_le(s: Seq<char>, i: int, j: int)
    requires
        0 <= i <= j <= s.len(),
    ensures
        hex_seq_val(s.take(i)) <= hex_seq_val(s.take(j)),
    decreases j - i,
{
    if i < j {
        lemma_hex_val_prefix_le(s, i, j - 1);
        assert(s.take(j).drop_last() =~= s.take(j - 1));
        assert(hex_seq_val(s.take(j)) == hex_seq_val(s.take(j - 1)) * 16 + hex_digit_val(
            s.take(j).last(),
        ));
    }
}

/// Parses an unsigned decimal 32-bit number; digits only, no sign, the whole
/// string must be consumed.
pub fn parse_dec_u32(s: &str) -> (r: Option<u32>)
    ensures
        r == parse_dec_u32_spec(s@),
{
    let len = s.unicode_len();
    if len == 0 {
        return None;
    }
    let mut acc: u64 = 0;
    let mut i: usize = 0;
    while i < len
        invariant
            i <= len,
            len == s@.len(),
            all_dec_digits(s@.take(i as int)),
            acc == dec_seq_val(s@.take(i as int)),
            acc <= u32::MAX,
        decreases len - i,
    {
        let c = s.get_char(i);
        let u = c as u32;
        if u < 48 || u > 57 {
            assert(!is_dec_digit(s@[i as int]));
            return None;
        }
        let d = u - 48;
        let t = acc * 10 + d as u64;
        proof {
            assert(s@.take(i + 1).drop_last() =~= s@.take(i as int));
            assert(s@.take(i + 1).last() == s@[i as int]);
        }
        if t > 0xFFFF_FFFF {
            proof {
                lemma_dec_val_prefix_le(s@, i + 1, len as int);
                assert(s@.take(len as int) =~= s@);
            }
            return None;
        }
        acc = t;
        i = i + 1;
    }
    proof {
        assert(s@.take(len as int) =~= s@);
    }
    Some(acc as u32)
}

/// Parses an unsigned hexadecimal 32-bit number; hex digits of either case
/// only, no sign or prefix, the whole string must be consumed.
pub fn parse_hex_u32(s: &str) -> (r: Option<u32>)
    ensures
        r == parse_hex_u32_spec(s@),
{
    let len = s.unicode_len();
    if len == 0 {
        return None;
    }
    let mut acc: u64 = 0;
    let mut i: usize = 0;
    while i < len
        invariant
            i <= len,
            len == s@.len(),
            all_hex_digits(s@.take(i as int)),
            acc == hex_seq_val(s@.take(i as int)),
            acc <= u32::MAX,
        decreases len - i,
    {
        let c = s.get_char(i);
        let u = c as u32;
        let d: u32 = if u >= 48 && u <= 57 {
            u - 48
        } else if u >= 97 && u <= 102 {
            u - 97 + 10
        } else if u >= 65 && u <= 70 {
            u - 65 + 10
        } else {
            assert(!is_hex_digit(s@[i as int]));
            return None;
        };
        let t = acc * 16 + d as u64;
        proof {
            assert(s@.take(i + 1).drop_last() =~= s@.take(i as int));
            assert(s@.take(i + 1).last() == s@[i as int]);
        }
        if t > 0xFFFF_FFFF {
            proof {
                lemma_hex_val_prefix_le(s@, i + 1, len as int);
                assert(s@.take(len as int) =~= s@);
            }
            return None;
        }
        acc = t;
        i = i + 1;
    }
    proof {
        assert(s@.take(len as int) =~= s@);
    }
    Some(acc as u32)
}

fn parse_sign_digits_i16_exec(s: &str, start: usize, negative: bool) -> (r: Option<i16>)
    requires
        start <= s@.len(),
    ensures
        r == parse_sign_digits_i16(s@.skip(start as int), negative),
{
    let len = s.unicode_len();
    if start == len {
        return None;
    }
    let ghost digits = s@.skip(start as int);
    let mut acc: u32 = 0;
    let mut i: usize = start;
    while i < len
        invariant
            start <= i <= len,
            len == s@.len(),
            digits == s@.skip(start as int),
            all_dec_digits(digits.take(i - start)),
            acc == dec_seq_val(digits.take(i - start)),
            acc <= 32768,
        decreases len - i,
    {
        let c = s.get_char(i);
        let u = c as u32;
        proof {
            assert(digits[i - start] == s@[i as int]);
        }
        if u < 48 || u > 57 {
            assert(!is_dec_digit(digits[i - start]));
            return None;
        }
        let d = u - 48;
        let t = acc * 10 + d;
        proof {
            assert(digits.take(i - start + 1).drop_last() =~= digits.take(i - start));
            assert(digits.take(i - start + 1).last() == digits[i - start]);
        }
        if t > 32768 {
            proof {
                lemma_dec_val_prefix_le(digits, i - start + 1, digits.len() as int);
                assert(digits.take(digits.len() as int) =~= digits);
            }
            return None;
        }
        acc = t;
        i = i + 1;
    }
    proof {
        assert(digits.take(digits.len() as int) =~= digits);
    }
    if negative {
        Some((-(acc as i32)) as i16)
    } else if acc <= 32767 {
        Some(acc as i16)
    } else {
        None
    }
}

/// Parses a signed decimal 16-bit number: an optional `+` or `-` sign, then
/// one or more digits; the whole string must be consumed.
pub fn parse_dec_i16(s: &str) -> (r: Option<i16>)
    ensures
        r == parse_dec_i16_spec(s@),
{
    let len = s.unicode_len();
    if len == 0 {
        return None;
    }
    let c = s.get_char(0);
    if c == '+' || c == '-' {
        parse_sign_digits_i16_exec(s, 1, c == '-')
    } else {
        let r = parse_sign_digits_i16_exec(s, 0, false);
        proof {
            assert(s@.skip(0) =~= s@);
        }
        r
    }
}

// ---------------------------------------------------------------------------
// Comparison and decomposition
// ---------------------------------------------------------------------------

/// Character-wise string equality.
pub fn str_eq(a: &str, b: &str) -> (r: bool)
    ensures
        r == (a@ == b@),
{
    let alen = a.unicode_len();
    let blen = b.unicode_len();
    if alen != blen {
        return false;
    }
    let mut i: usize = 0;
    while i < alen
        invariant
            i <= alen,
            alen == a@.len(),
            alen == b@.len(),
            forall|k: int| 0 <= k < i ==> a@[k] == b@[k],
        decreases alen - i,
    {
        if a.get_char(i) != b.get_char(i) {
            return false;
        }
        i = i + 1;
    }
    proof {
        assert(a@ =~= b@);
    }
    true
}

/// Whether `s` begins with `prefix`.
pub fn str_starts_with(s: &str, prefix: &str) -> (r: bool)
    ensures
        r == (s@.len() >= prefix@.len() && s@.take(prefix@.len() as int) == prefix@),
{
    let slen = s.unicode_len();
    let plen = prefix.unicode_len();
    if slen < plen {
        return false;
    }
    let head = s.substring_char(0, plen);
    proof {
        assert(s@.subrange(0, plen as int) == s@.take(plen as int));
    }
    str_eq(head, prefix)
}

/// The pieces of `s` between occurrences of `sep`: always at least one piece,
/// with empty pieces where separators are adjacent or at either end.
pub open spec fn split_spec(s: Seq<char>, sep: char) -> Seq<Seq<char>>
    decreases s.len(),
{
    if s.len() == 0 {
        seq![Seq::<char>::empty()]
    } else if s[0] == sep {
        seq![Seq::<char>::empty()] + split_spec(s.skip(1), sep)
    } else {
        let rest = split_spec(s.skip(1), sep);
        seq![seq![s[0]] + rest[0]] + rest.skip(1)
    }
}

pub proof fn lemma_split_len(s: Seq<char>, sep: char)
    ensures
        split_spec(s, sep).len() >= 1,
    decreases s.len(),
{
    if s.len() > 0 {
        lemma_split_len(s.skip(1), sep);
    }
}

/// Splits `s` at every occurrence of `sep`.
pub fn split_str(s: &str, sep: char) -> (parts: Vec<String>)
    ensures
        parts@.len() == split_spec(s@, sep).len(),
        forall|k: int| 0 <= k < parts@.len() ==> #[trigger] parts@[k]@ == split_spec(s@, sep)[k],
{
    let ghost full = split_spec(s@, sep);
    let len = s.unicode_len();
    let mut parts: Vec<String> = Vec::new();
    let mut cur = String::new();
    let mut i: usize = 0;
    proof {
        lemma_split_len(s@, sep);
        assert(s@.skip(0) =~= s@);
    }
    while i < len
        invariant
            i <= len,
            len == s@.len(),
            full == split_spec(s@, sep),
            full.len() == parts@.len() + split_spec(s@.skip(i as int), sep).len(),
            forall|k: int| 0 <= k < parts@.len() ==> #[trigger] parts@[k]@ == full[k],
            cur@ + split_spec(s@.skip(i as int), sep)[0] == full[parts@.len() as int],
            forall|m: int|
                1 <= m < split_spec(s@.skip(i as int), sep).len() ==> #[trigger] split_spec(
                    s@.skip(i as int),
                    sep,
                )[m] == full[parts@.len() + m],
        decreases len - i,
    {
        let ghost rest = split_spec(s@.skip(i as int), sep);
        let ghost rest_next = split_spec(s@.skip(i as int + 1), sep);
        let c = s.get_char(i);
        proof {
            lemma_split_len(s@.skip(i as int + 1), sep);
            assert(s@.skip(i as int).len() > 0);
            assert(s@.skip(i as int)[0] == s@[i as int]);
            assert(s@.skip(i as int).skip(1) =~= s@.skip(i as int + 1));
        }
        if c == sep {
            proof {
                assert(rest =~= seq![Seq::<char>::empty()] + rest_next);
                assert(rest[0] =~= Seq::<char>::empty());
                assert(cur@ + rest[0] =~= cur@);
            }
            let ghost p = parts@.len() as int;
            parts.push(cur);
            cur = String::new();
            proof {
                assert(rest_next[0] == rest[1]);
                assert(cur@ + rest_next[0] =~= rest[1]);
                assert(forall|m: int|
                    1 <= m < rest_next.len() ==> #[trigger] rest_next[m] == rest[m + 1]);
                assert(forall|m: int|
                    1 <= m < rest_next.len() ==> #[trigger] rest_next[m] == full[p + 1 + m]);
            }
        } else {
            proof {
                assert(rest =~= seq![seq![s@[i as int]] + rest_next[0]] + rest_next.skip(1));
                assert(rest[0] =~= seq![s@[i as int]] + rest_next[0]);
            }
            push_char(&mut cur, c);
            proof {
                assert(cur@ + rest_next[0] =~= (cur@.drop_last() + rest[0]));
                assert(forall|m: int|
                    1 <= m < rest_next.len() ==> #[trigger] rest_next[m] == rest[m]);
                assert(forall|m: int|
                    1 <= m < rest_next.len() ==> #[trigger] rest_next[m] == full[parts@.len() + m]);
            }
        }
        i = i + 1;
    }
    proof {
        assert(s@.skip(len as int) =~= Seq::<char>::empty());
        assert(split_spec(Seq::<char>::empty(), sep)[0] =~= Seq::<char>::empty());
        assert(cur@ + Seq::<char>::empty() =~= cur@);
    }
    parts.push(cur);
    parts
}

} // verus!
