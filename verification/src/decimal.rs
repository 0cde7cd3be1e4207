//! Decimal text: reading and writing unsigned numbers and fixed-point prices.

use vstd::arithmetic::power::pow;
use vstd::prelude::*;
use vstd::utf8::*;

use crate::types::{Fixed64, SCALE};

verus! {

/// An ASCII digit.
pub open spec fn is_digit(b: u8) -> bool {
    48 <= b <= 57
}

/// The number that a run of ASCII digits writes down.
pub open spec fn digits_value(s: Seq<u8>) -> nat
    decreases s.len(),
{
    if s.len() == 0 {
        0
    } else {
        digits_value(s.drop_last()) * 10 + (s.last() - 48) as nat
    }
}

/// `s` without one leading `+`.
pub open spec fn unsigned_part(s: Seq<u8>) -> Seq<u8> {
    if s.len() > 0 && s[0] == 43 {
        s.skip(1)
    } else {
        s
    }
}

/// Reads an optional `+` and at least one digit, and nothing else, as a number of at most `max`.
pub open spec fn parse_uint(s: Seq<u8>, max: nat) -> Option<nat> {
    let d = unsigned_part(s);
    if d.len() > 0 && (forall|i: int| 0 <= i < d.len() ==> is_digit(#[trigger] d[i]))
        && digits_value(d) <= max {
        Some(digits_value(d))
    } else {
        None
    }
}

/// The number in an optional text, or a default if the text is missing or no number of at most
/// `max`.
pub open spec fn number_or(text: Option<Seq<char>>, max: nat, default: nat) -> nat {
    match text {
        Some(s) => match parse_uint(encode_utf8(s), max) {
            Some(n) => n,
            None => default,
        },
        None => default,
    }
}

/// A longer run of digits writes down no smaller a number.
proof fn digits_value_monotone(s: Seq<u8>, i: int)
    requires
        0 <= i <= s.len(),
        forall|k: int| 0 <= k < s.len() ==> is_digit(#[trigger] s[k]),
    ensures
        digits_value(s.take(i)) <= digits_value(s),
    decreases s.len(),
{
    if i == s.len() {
        assert(s.take(i) =~= s);
    } else {
        let t = s.drop_last();
        assert(forall|k: int| 0 <= k < t.len() ==> t[k] == s[k]);
        digits_value_monotone(t, i);
        assert(t.take(i) =~= s.take(i));
    }
}

/// A run of `n` digits writes down a number below `10^n`.
proof fn digits_value_bound(s: Seq<u8>)
    requires
        forall|k: int| 0 <= k < s.len() ==> is_digit(#[trigger] s[k]),
    ensures
        digits_value(s) < pow(10, s.len()),
    decreases s.len(),
{
    reveal(pow);
    if s.len() > 0 {
        let t = s.drop_last();
        assert(forall|k: int| 0 <= k < t.len() ==> t[k] == s[k]);
        digits_value_bound(t);
        assert(is_digit(s[s.len() - 1]));
    }
}

/// Reads `s[from..to]` as an unsigned 64-bit number.
pub fn parse_u64_between(s: &[u8], from: usize, to: usize) -> (r: Option<u64>)
    requires
        from <= to <= s@.len(),
    ensures
        r matches Some(n) ==> parse_uint(s@.subrange(from as int, to as int), u64::MAX as nat)
            == Some(n as nat),
        r is None ==> parse_uint(s@.subrange(from as int, to as int), u64::MAX as nat) is None,
{
    let ghost text = s@.subrange(from as int, to as int);
    let ghost d = unsigned_part(text);
    let mut i: usize = from;
    if i < to && s[i] == 43u8 {
        i = i + 1;
    }
    let start: usize = i;
    assert(d =~= s@.subrange(start as int, to as int)) by {
        if from < to {
            assert(text[0] == s@[from as int]);
        }
    }
    if start == to {
        return None;
    }
    let mut n: u64 = 0;
    assert(d.take(0) =~= Seq::<u8>::empty());
    while i < to
        invariant
            from <= start <= i <= to <= s@.len(),
            start < to,
            text == s@.subrange(from as int, to as int),
            d == unsigned_part(text),
            d == s@.subrange(start as int, to as int),
            n == digits_value(d.take(i - start)),
            forall|k: int| 0 <= k < i - start ==> is_digit(#[trigger] d[k]),
        decreases to - i,
    {
        let b = s[i];
        let ghost k = i - start;
        assert(d[k] == b);
        if b < 48u8 || b > 57u8 {
            assert(!is_digit(d[k]));
            return None;
        }
        let digit: u64 = (b - 48u8) as u64;
        assert(d.take(k + 1).drop_last() =~= d.take(k));
        assert(d.take(k + 1).last() == b);
        if n > (u64::MAX - digit) / 10 {
            proof {
                if forall|j: int| 0 <= j < d.len() ==> is_digit(#[trigger] d[j]) {
                    digits_value_monotone(d, k + 1);
                }
            }
            return None;
        }
        n = n * 10 + digit;
        i = i + 1;
    }
    assert(d.take(to - start) =~= d);
    Some(n)
}

/// Reads text as an unsigned 64-bit number.
pub fn parse_u64(s: &str) -> (r: Option<u64>)
    ensures
        r matches Some(n) ==> parse_uint(encode_utf8(s@), u64::MAX as nat) == Some(n as nat),
        r is None ==> parse_uint(encode_utf8(s@), u64::MAX as nat) is None,
{
    let bytes = s.as_bytes();
    assert(bytes@.subrange(0, bytes@.len() as int) =~= bytes@);
    parse_u64_between(bytes, 0, bytes.len())
}

/// Reads text as a `usize`.
pub fn parse_usize(s: &str) -> (r: Option<usize>)
    ensures
        r matches Some(n) ==> parse_uint(encode_utf8(s@), usize::MAX as nat) == Some(n as nat),
        r is None ==> parse_uint(encode_utf8(s@), usize::MAX as nat) is None,
{
    match parse_u64(s) {
        Some(n) if n <= usize::MAX as u64 => Some(n as usize),
        _ => None,
    }
}

/// Reads text as an unsigned 16-bit number.
pub fn parse_u16(s: &str) -> (r: Option<u16>)
    ensures
        r matches Some(n) ==> parse_uint(encode_utf8(s@), u16::MAX as nat) == Some(n as nat),
        r is None ==> parse_uint(encode_utf8(s@), u16::MAX as nat) is None,
{
    match parse_u64(s) {
        Some(n) if n <= u16::MAX as u64 => Some(n as u16),
        _ => None,
    }
}

/// The position of the first `.` in `s`, or the length of `s` if there is none.
pub open spec fn dot_position(s: Seq<u8>) -> int
    decreases s.len(),
{
    if s.len() == 0 || s[0] == 46 {
        0
    } else {
        1 + dot_position(s.skip(1))
    }
}

/// The value that `parse_uint` reads, or 0 if it reads none.
pub open spec fn uint_or_zero(s: Seq<u8>) -> nat {
    match parse_uint(s, u64::MAX as nat) {
        Some(n) => n,
        None => 0,
    }
}

/// The raw value of the digits behind the dot: the first eight count, missing ones are zeros.
pub open spec fn fraction_value(frac: Seq<u8>) -> nat {
    let n = if frac.len() < 8 {
        frac.len()
    } else {
        8
    };
    uint_or_zero(frac.take(n as int)) * pow(10, (8 - n) as nat) as nat
}

/// Digits behind the eighth decimal place are dropped.
pub proof fn further_places_are_dropped(frac: Seq<u8>)
    requires
        frac.len() >= 8,
    ensures
        fraction_value(frac) == fraction_value(frac.take(8)),
{
    assert(frac.take(8).take(8) =~= frac.take(8));
}

/// The raw value of a decimal price. A part that is no number counts as 0.
pub open spec fn price_value(s: Seq<u8>) -> nat {
    let dot = dot_position(s);
    let whole = uint_or_zero(s.take(dot)) * SCALE as nat;
    if dot < s.len() {
        whole + fraction_value(s.skip(dot + 1))
    } else {
        whole
    }
}

proof fn dot_position_found(s: Seq<u8>, i: int)
    requires
        0 <= i <= s.len(),
        forall|k: int| 0 <= k < i ==> #[trigger] s[k] != 46,
        i < s.len() ==> s[i] == 46,
    ensures
        dot_position(s) == i,
    decreases s.len(),
{
    if i > 0 {
        assert(s[0] != 46);
        let t = s.skip(1);
        assert(forall|k: int| 0 <= k < t.len() ==> t[k] == s[k + 1]);
        dot_position_found(t, i - 1);
    }
}

/// The powers of ten up to the scale.
proof fn powers_of_ten()
    ensures
        pow(10, 0) == 1,
        pow(10, 1) == 10,
        pow(10, 2) == 100,
        pow(10, 3) == 1_000,
        pow(10, 4) == 10_000,
        pow(10, 5) == 100_000,
        pow(10, 6) == 1_000_000,
        pow(10, 7) == 10_000_000,
        pow(10, 8) == SCALE,
{
    reveal(pow);
    assert(pow(10, 0) == 1);
    assert(pow(10, 1) == 10);
    assert(pow(10, 2) == 100);
    assert(pow(10, 3) == 1_000);
    assert(pow(10, 4) == 10_000);
    assert(pow(10, 5) == 100_000);
    assert(pow(10, 6) == 1_000_000);
    assert(pow(10, 7) == 10_000_000);
}

/// Ten to the power of `k`.
fn power_of_ten(k: usize) -> (r: u64)
    requires
        k <= 8,
    ensures
        r == pow(10, k as nat),
        1 <= r <= SCALE,
{
    proof {
        powers_of_ten();
    }
    match k {
        0 => 1,
        1 => 10,
        2 => 100,
        3 => 1_000,
        4 => 10_000,
        5 => 100_000,
        6 => 1_000_000,
        7 => 10_000_000,
        _ => 100_000_000,
    }
}

/// The digits behind the dot are worth less than one whole unit.
pub proof fn fraction_below_one(frac: Seq<u8>)
    ensures
        fraction_value(frac) < SCALE,
{
    let n = if frac.len() < 8 {
        frac.len()
    } else {
        8
    };
    let head = frac.take(n as int);
    vstd::arithmetic::power::lemma_pow_positive(10, (8 - n) as nat);
    powers_of_ten();
    if parse_uint(head, u64::MAX as nat) is Some {
        let d = unsigned_part(head);
        digits_value_bound(d);
        vstd::arithmetic::power::lemma_pow_increases(10, d.len(), n);
        vstd::arithmetic::power::lemma_pow_adds(10, n, (8 - n) as nat);
        let v = digits_value(d) as int;
        let p = pow(10, (8 - n) as nat);
        let q = pow(10, n);
        assert(v * p < q * p) by (nonlinear_arith)
            requires
                v < q,
                p > 0,
        ;
        assert(v * p >= 0) by (nonlinear_arith)
            requires
                v >= 0,
                p > 0,
        ;
    } else {
        assert(0 * pow(10, (8 - n) as nat) == 0) by (nonlinear_arith);
    }
}

/// Reads a decimal price, or returns none if its raw value does not fit.
pub fn try_parse_price(s: &str) -> (r: Option<Fixed64>)
    ensures
        r matches Some(p) ==> p@ == price_value(encode_utf8(s@)),
        r is None <==> price_value(encode_utf8(s@)) > u64::MAX,
{
    let bytes = s.as_bytes();
    let len: usize = bytes.len();
    let mut dot: usize = 0;
    while dot < len && bytes[dot] != 46u8
        invariant
            dot <= len == bytes@.len(),
            forall|k: int| 0 <= k < dot ==> #[trigger] bytes@[k] != 46,
        decreases len - dot,
    {
        dot = dot + 1;
    }
    proof {
        dot_position_found(bytes@, dot as int);
    }
    assert(bytes@.subrange(0, dot as int) =~= bytes@.take(dot as int));
    let whole: u64 = match parse_u64_between(bytes, 0, dot) {
        Some(n) => n,
        None => 0,
    };
    let frac: u64 = if dot < len {
        let digits: usize = if len - dot - 1 < 8 {
            len - dot - 1
        } else {
            8
        };
        let ghost tail = bytes@.skip(dot + 1);
        proof {
            assert(bytes@.subrange(dot + 1, dot + 1 + digits) =~= tail.take(digits as int));
            fraction_below_one(tail);
        }
        let val: u64 = match parse_u64_between(bytes, dot + 1, dot + 1 + digits) {
            Some(n) => n,
            None => 0,
        };
        let factor: u64 = power_of_ten(8 - digits);
        assert(val * factor == fraction_value(tail));
        val * factor
    } else {
        0
    };
    match whole.checked_mul(SCALE) {
        Some(w) => match w.checked_add(frac) {
            Some(raw) => Some(Fixed64::from_raw(raw)),
            None => None,
        },
        None => None,
    }
}

/// The character of a decimal digit.
pub open spec fn digit_char(d: nat) -> char {
    (48 + d) as char
}

/// A number in decimal, without leading zeros.
pub open spec fn decimal(n: nat) -> Seq<char>
    decreases n,
{
    if n < 10 {
        seq![digit_char(n)]
    } else {
        decimal(n / 10).push(digit_char(n % 10))
    }
}

/// The last `width` decimal digits of a number.
pub open spec fn padded(n: nat, width: nat) -> Seq<char>
    decreases width,
{
    if width == 0 {
        Seq::empty()
    } else {
        padded(n / 10, (width - 1) as nat).push(digit_char(n % 10))
    }
}

/// A raw value as a decimal number with eight places.
pub open spec fn eight_places(raw: nat) -> Seq<char> {
    decimal(raw / SCALE as nat) + seq!['.'] + padded(raw % SCALE as nat, 8)
}

/// The text of one decimal digit.
fn digit_text(d: u64) -> (r: &'static str)
    requires
        d < 10,
    ensures
        r@ == seq![digit_char(d as nat)],
{
    proof {
        reveal_strlit("0");
        reveal_strlit("1");
        reveal_strlit("2");
        reveal_strlit("3");
        reveal_strlit("4");
        reveal_strlit("5");
        reveal_strlit("6");
        reveal_strlit("7");
        reveal_strlit("8");
        reveal_strlit("9");
    }
    let r = match d {
        0 => "0",
        1 => "1",
        2 => "2",
        3 => "3",
        4 => "4",
        5 => "5",
        6 => "6",
        7 => "7",
        8 => "8",
        _ => "9",
    };
    assert(r@ =~= seq![digit_char(d as nat)]);
    r
}

/// Appends a number of up to 128 bits in decimal.
fn append_wide(out: &mut String, n: u128)
    ensures
        final(out)@ == old(out)@ + decimal(n as nat),
    decreases n,
{
    let ghost start = out@;
    if n >= 10 {
        append_wide(out, n / 10);
        out.append(digit_text((n % 10) as u64));
        assert(out@ =~= start + decimal(n as nat));
    } else {
        out.append(digit_text(n as u64));
    }
}

/// Appends a number in decimal.
pub fn append_decimal(out: &mut String, n: u64)
    ensures
        final(out)@ == old(out)@ + decimal(n as nat),
{
    append_wide(out, n as u128);
}

/// Appends the last `width` decimal digits of a number.
fn append_padded(out: &mut String, n: u64, width: usize)
    ensures
        final(out)@ == old(out)@ + padded(n as nat, width as nat),
    decreases width,
{
    let ghost start = out@;
    if width > 0 {
        append_padded(out, n / 10, width - 1);
        out.append(digit_text(n % 10));
    }
    assert(out@ =~= start + padded(n as nat, width as nat));
}

/// Writes a number in decimal.
pub fn decimal_text(n: u64) -> (r: String)
    ensures
        r@ == decimal(n as nat),
{
    let mut out = String::new();
    append_decimal(&mut out, n);
    assert(out@ =~= decimal(n as nat));
    out
}

/// A signed number in decimal.
pub open spec fn signed_decimal(n: int) -> Seq<char> {
    if n < 0 {
        seq!['-'] + decimal((-n) as nat)
    } else {
        decimal(n as nat)
    }
}

/// Appends a signed number in decimal.
pub fn append_signed(out: &mut String, n: i64)
    ensures
        final(out)@ == old(out)@ + signed_decimal(n as int),
{
    let ghost start = out@;
    proof {
        reveal_strlit("-");
    }
    if n < 0 {
        out.append("-");
        append_decimal(out, (-(n as i128)) as u64);
    } else {
        append_decimal(out, n as u64);
    }
    assert(out@ =~= start + signed_decimal(n as int));
}

/// Writes a raw value as a decimal number with eight places.
pub fn price_text(raw: u64) -> (r: String)
    ensures
        r@ == eight_places(raw as nat),
{
    proof {
        reveal_strlit(".");
    }
    let mut out = String::new();
    append_decimal(&mut out, raw / SCALE);
    out.append(".");
    append_padded(&mut out, raw % SCALE, 8);
    assert(out@ =~= eight_places(raw as nat));
    out
}

/// A signed raw value as a decimal number with eight places.
pub open spec fn signed_places(raw: int) -> Seq<char> {
    if raw < 0 {
        seq!['-'] + eight_places((-raw) as nat)
    } else {
        eight_places(raw as nat)
    }
}

/// Appends a signed raw value as a decimal number with eight places.
pub fn append_signed_places(out: &mut String, raw: i64)
    ensures
        final(out)@ == old(out)@ + signed_places(raw as int),
{
    let ghost start = out@;
    proof {
        reveal_strlit("-");
    }
    if raw < 0 {
        out.append("-");
        let text = price_text((-(raw as i128)) as u64);
        out.append(text.as_str());
    } else {
        let text = price_text(raw as u64);
        out.append(text.as_str());
    }
    assert(out@ =~= start + signed_places(raw as int));
}

/// A number of billionths as a decimal number with nine places.
pub open spec fn nine_places(billionths: int) -> Seq<char> {
    let n = if billionths < 0 {
        -billionths
    } else {
        billionths
    };
    let digits = decimal((n / 1_000_000_000) as nat) + seq!['.'] + padded(
        (n % 1_000_000_000) as nat,
        9,
    );
    if billionths < 0 {
        seq!['-'] + digits
    } else {
        digits
    }
}

/// Appends a number of billionths as a decimal number with nine places.
pub fn append_nine_places(out: &mut String, billionths: i128)
    ensures
        final(out)@ == old(out)@ + nine_places(billionths as int),
{
    let ghost start = out@;
    proof {
        reveal_strlit("-");
        reveal_strlit(".");
    }
    let n: u128 = if billionths < 0 {
        out.append("-");
        (-(billionths + 1)) as u128 + 1
    } else {
        billionths as u128
    };
    append_wide(out, n / 1_000_000_000);
    out.append(".");
    append_padded(out, (n % 1_000_000_000) as u64, 9);
    assert(out@ =~= start + nine_places(billionths as int));
}

/// The bytes of text that is all ASCII digits.
spec fn digit_bytes(s: Seq<char>) -> Seq<u8> {
    Seq::new(s.len(), |i: int| s[i] as u8)
}

proof fn digit_char_is_digit(d: nat)
    requires
        d < 10,
    ensures
        is_digit(digit_char(d) as u8),
        digit_char(d) as u8 - 48 == d,
        digit_char(d) <= '\u{7f}',
{
    let c = digit_char(d);
    assert(c as u32 == 48 + d);
    assert(c as u8 == 48 + d);
}

/// A decimal rendering holds digits only, is not empty and reads back as the number.
proof fn decimal_reads_back(n: nat)
    ensures
        decimal(n).len() > 0,
        is_ascii_chars(decimal(n)),
        forall|i: int| 0 <= i < decimal(n).len() ==> is_digit(#[trigger] digit_bytes(decimal(n))[i]),
        digits_value(digit_bytes(decimal(n))) == n,
    decreases n,
{
    let s = digit_bytes(decimal(n));
    digit_char_is_digit(n % 10);
    if n < 10 {
        assert(s.drop_last() =~= Seq::<u8>::empty());
        assert(digits_value(s.drop_last()) == 0);
    } else {
        decimal_reads_back(n / 10);
        let t = digit_bytes(decimal(n / 10));
        assert(s.drop_last() =~= t);
        assert forall|i: int| 0 <= i < s.len() implies is_digit(#[trigger] s[i]) by {
            if i < t.len() {
                assert(is_digit(t[i]));
                assert(s[i] == t[i]);
            }
        }
    }
}

proof fn padded_reads_back(n: nat, width: nat)
    requires
        n < pow(10, width),
    ensures
        padded(n, width).len() == width,
        is_ascii_chars(padded(n, width)),
        forall|i: int|
            0 <= i < width ==> is_digit(#[trigger] digit_bytes(padded(n, width))[i]),
        digits_value(digit_bytes(padded(n, width))) == n,
    decreases width,
{
    reveal(pow);
    let s = digit_bytes(padded(n, width));
    if width > 0 {
        digit_char_is_digit(n % 10);
        padded_reads_back(n / 10, (width - 1) as nat);
        let t = digit_bytes(padded(n / 10, (width - 1) as nat));
        assert(s.drop_last() =~= t);
        assert forall|i: int| 0 <= i < s.len() implies is_digit(#[trigger] s[i]) by {
            if i < t.len() {
                assert(is_digit(t[i]));
                assert(s[i] == t[i]);
            }
        }
    }
}

proof fn ascii_encoding(s: Seq<char>)
    requires
        is_ascii_chars(s),
    ensures
        encode_utf8(s) == digit_bytes(s),
{
    is_ascii_chars_encode_utf8(s);
    assert(encode_utf8(s) =~= digit_bytes(s));
}

/// A number written in decimal is ASCII text that reads back as the same number.
pub proof fn decimal_round_trip(n: u64)
    ensures
        is_ascii_chars(decimal(n as nat)),
        parse_uint(encode_utf8(decimal(n as nat)), u64::MAX as nat) == Some(n as nat),
{
    decimal_reads_back(n as nat);
    ascii_encoding(decimal(n as nat));
    let s = digit_bytes(decimal(n as nat));
    assert(is_digit(s[0]));
    assert(unsigned_part(s) == s);
}

/// A price written with eight places reads back as the same price.
pub proof fn price_round_trip(raw: u64)
    ensures
        price_value(encode_utf8(eight_places(raw as nat))) == raw,
{
    let whole = raw as nat / SCALE as nat;
    let part = raw as nat % SCALE as nat;
    let (w, p) = (decimal(whole), padded(part, 8));
    let text = eight_places(raw as nat);
    powers_of_ten();
    decimal_reads_back(whole);
    padded_reads_back(part, 8);
    assert(is_ascii_chars(text));
    ascii_encoding(text);
    let b = digit_bytes(text);
    let (wb, pb) = (digit_bytes(w), digit_bytes(p));
    assert(b =~= wb + seq![46u8] + pb);
    assert forall|k: int| 0 <= k < wb.len() implies #[trigger] b[k] != 46 by {
        assert(b[k] == wb[k]);
        assert(is_digit(wb[k]));
    }
    dot_position_found(b, wb.len() as int);
    assert(b.take(wb.len() as int) =~= wb);
    assert(b.skip(wb.len() as int + 1) =~= pb);
    assert(pb.take(8) =~= pb);
    assert(is_digit(wb[0]) && is_digit(pb[0]));
    assert(unsigned_part(wb) == wb && unsigned_part(pb) == pb);
    assert(parse_uint(pb, u64::MAX as nat) == Some(part));
    assert(parse_uint(wb, u64::MAX as nat) == Some(whole));
    assert(fraction_value(pb) == part) by (nonlinear_arith)
        requires
            fraction_value(pb) == part * pow(10, 0) as nat,
            pow(10, 0) == 1,
    ;
}

/// A number that is written in decimal, with or without a plus, is read back exactly if it fits, and
/// refused otherwise. Without a plus it begins with a zero only if it is zero.
pub proof fn numbers_are_read_as_written(n: nat, max: nat)
    ensures
        parse_uint(encode_utf8(decimal(n)), max) == if n <= max {
            Some(n)
        } else {
            None
        },
        parse_uint(encode_utf8(seq!['+'] + decimal(n)), max) == if n <= max {
            Some(n)
        } else {
            None
        },
        decimal(n)[0] == '0' <==> n == 0,
    decreases n,
{
    decimal_reads_back(n);
    ascii_encoding(decimal(n));
    let s = digit_bytes(decimal(n));
    assert(is_digit(s[0]));
    assert(unsigned_part(s) == s);
    let plus = seq!['+'] + decimal(n);
    assert(is_ascii_chars(plus));
    ascii_encoding(plus);
    assert(digit_bytes(plus)[0] == 43);
    assert(digit_bytes(plus).skip(1) =~= s);
    if n >= 10 {
        numbers_are_read_as_written(n / 10, max);
        decimal_reads_back(n / 10);
        assert(decimal(n)[0] == decimal(n / 10)[0]);
    } else {
        digit_char_is_digit(n);
        digit_char_is_digit(0);
    }
}

/// Each reader of whole numbers reads what was written in decimal, as far as its type holds it, and
/// refuses what does not fit.
pub proof fn readers_read_what_was_written(
    s: &str,
    n: nat,
    wide: Option<u64>,
    native: Option<usize>,
    short: Option<u16>,
)
    requires
        s@ == decimal(n) || s@ == seq!['+'] + decimal(n),
        call_ensures(parse_u64, (s,), wide),
        call_ensures(parse_usize, (s,), native),
        call_ensures(parse_u16, (s,), short),
    ensures
        wide is Some <==> n <= u64::MAX,
        wide matches Some(v) ==> v == n,
        native is Some <==> n <= usize::MAX,
        native matches Some(v) ==> v == n,
        short is Some <==> n <= u16::MAX,
        short matches Some(v) ==> v == n,
{
    numbers_are_read_as_written(n, u64::MAX as nat);
    numbers_are_read_as_written(n, usize::MAX as nat);
    numbers_are_read_as_written(n, u16::MAX as nat);
}

/// Text with a character that is neither a digit nor a leading plus is no whole number, and neither
/// is text without a digit.
pub proof fn other_text_is_no_number(s: &str, i: int, r: Option<u64>)
    requires
        call_ensures(parse_u64, (s,), r),
        ({
            let b = encode_utf8(s@);
            ||| b.len() == 0
            ||| b.len() == 1 && b[0] == 43
            ||| 0 < i < b.len() && !(48 <= b[i] <= 57)
            ||| i == 0 && 0 < b.len() && b[0] != 43 && !(48 <= b[0] <= 57)
        }),
    ensures
        r is None,
{
    let b = encode_utf8(s@);
    let d = unsigned_part(b);
    if b.len() > 0 && !(b.len() == 1 && b[0] == 43) {
        if b[0] == 43 {
            assert(d[i - 1] == b[i]);
            assert(!is_digit(d[i - 1]));
        } else {
            assert(!is_digit(d[i]));
        }
    }
}

/// A price with `k` decimal places is read as so many whole units and so many `k`th places, each
/// place a tenth of the one before. Without a dot it is read as whole units.
pub proof fn prices_are_read_as_written(whole: u64, part: nat, k: nat)
    requires
        0 < k <= 8,
        part < pow(10, k),
    ensures
        price_value(encode_utf8(decimal(whole as nat) + seq!['.'] + padded(part, k))) * pow(10, k)
            == (whole * pow(10, k) + part) * 100_000_000,
        price_value(encode_utf8(decimal(whole as nat))) == whole * 100_000_000,
{
    let (w, p) = (decimal(whole as nat), padded(part, k));
    let text = w + seq!['.'] + p;
    powers_of_ten();
    decimal_reads_back(whole as nat);
    padded_reads_back(part, k);
    assert(is_ascii_chars(text));
    ascii_encoding(text);
    ascii_encoding(w);
    let b = digit_bytes(text);
    let (wb, pb) = (digit_bytes(w), digit_bytes(p));
    assert(b =~= wb + seq![46u8] + pb);
    assert forall|j: int| 0 <= j < wb.len() implies #[trigger] b[j] != 46 && wb[j] != 46 by {
        assert(b[j] == wb[j]);
        assert(is_digit(wb[j]));
    }
    dot_position_found(b, wb.len() as int);
    dot_position_found(wb, wb.len() as int);
    assert(wb.take(wb.len() as int) =~= wb);
    assert(b.take(wb.len() as int) =~= wb);
    assert(b.skip(wb.len() as int + 1) =~= pb);
    assert(pb.take(k as int) =~= pb);
    assert(pb.take(if pb.len() < 8 { pb.len() as int } else { 8 }) =~= pb);
    assert(is_digit(wb[0]) && is_digit(pb[0]));
    assert(unsigned_part(wb) == wb && unsigned_part(pb) == pb);
    vstd::arithmetic::power::lemma_pow_increases(10, k, 8);
    assert(parse_uint(pb, u64::MAX as nat) == Some(part));
    assert(parse_uint(wb, u64::MAX as nat) == Some(whole as nat));
    vstd::arithmetic::power::lemma_pow_adds(10, k, (8 - k) as nat);
    vstd::arithmetic::power::lemma_pow_positive(10, (8 - k) as nat);
    let (q, t) = (pow(10, k), pow(10, (8 - k) as nat));
    assert(SCALE as int == 100_000_000);
    assert(price_value(b) == whole * 100_000_000 + part * t);
    assert((whole * 100_000_000 + part * t) * q == (whole * q + part) * 100_000_000)
        by (nonlinear_arith)
        requires
            q * t == 100_000_000,
    ;
}

/// The price reader reads what was written with `k` decimal places, or without a dot, if it fits,
/// and gives nothing if it does not.
pub proof fn price_reader_reads_what_was_written(
    s: &str,
    whole: u64,
    part: nat,
    k: nat,
    r: Option<Fixed64>,
)
    requires
        0 < k <= 8,
        part < pow(10, k),
        s@ == decimal(whole as nat) + seq!['.'] + padded(part, k),
        call_ensures(try_parse_price, (s,), r),
    ensures
        r matches Some(p) ==> p@ * pow(10, k) == (whole * pow(10, k) + part) * 100_000_000,
        r is None ==> (whole + 1) * 100_000_000 > u64::MAX,
{
    prices_are_read_as_written(whole, part, k);
    vstd::arithmetic::power::lemma_pow_positive(10, k);
    let v = price_value(encode_utf8(s@)) as int;
    let q = pow(10, k);
    assert(v < (whole + 1) * 100_000_000) by (nonlinear_arith)
        requires
            v * q == (whole * q + part) * 100_000_000,
            part < q,
            q > 0,
    ;
}

/// A signed number is its distance from zero, behind a minus if it is negative. With eight places
/// the distance reads back as a price; with nine, the whole part and the nine digits behind the dot
/// read back as numbers.
pub proof fn signed_numbers_show_sign_and_distance(n: i64, billionths: i64)
    ensures
        n >= 0 ==> signed_decimal(n as int) == decimal(n as nat),
        n < 0 ==> signed_decimal(n as int) == seq!['-'] + decimal((-n) as nat),
        n >= 0 ==> price_value(encode_utf8(signed_places(n as int))) == n,
        n < 0 ==> signed_places(n as int)[0] == '-' && price_value(
            encode_utf8(signed_places(n as int).skip(1)),
        ) == -n,
        ({
            let far = if billionths < 0 {
                -billionths
            } else {
                billionths as int
            };
            let whole = decimal((far / 1_000_000_000) as nat);
            let digits = padded((far % 1_000_000_000) as nat, 9);
            &&& nine_places(billionths as int) == if billionths < 0 {
                seq!['-'] + (whole + seq!['.'] + digits)
            } else {
                whole + seq!['.'] + digits
            }
            &&& digits.len() == 9
            &&& parse_uint(encode_utf8(digits), u64::MAX as nat) == Some(
                (far % 1_000_000_000) as nat,
            )
        }),
{
    if n >= 0 {
        price_round_trip(n as u64);
    } else {
        price_round_trip((-n) as u64);
        assert(signed_places(n as int).skip(1) =~= eight_places((-n) as nat));
    }
    let far = if billionths < 0 {
        -billionths
    } else {
        billionths as int
    };
    let part = (far % 1_000_000_000) as nat;
    powers_of_ten();
    assert(pow(10, 9) == 1_000_000_000) by {
        vstd::arithmetic::power::lemma_pow_adds(10, 8, 1);
    }
    padded_reads_back(part, 9);
    ascii_encoding(padded(part, 9));
    let b = digit_bytes(padded(part, 9));
    assert(is_digit(b[0]));
    assert(unsigned_part(b) == b);
}

/// Whatever is written goes behind what is there already.
pub proof fn numbers_are_appended(
    out: &mut String,
    n: u64,
    signed: &mut String,
    v: i64,
    text: String,
    price: String,
    raw: u64,
)
    requires
        call_ensures(append_decimal, (out, n), ()),
        call_ensures(append_signed, (signed, v), ()),
        call_ensures(decimal_text, (n,), text),
        call_ensures(price_text, (raw,), price),
    ensures
        final(out)@ == old(out)@ + text@,
        parse_uint(encode_utf8(text@), u64::MAX as nat) == Some(n as nat),
        v >= 0 ==> final(signed)@ == old(signed)@ + decimal(v as nat),
        v < 0 ==> final(signed)@ == old(signed)@ + (seq!['-'] + decimal((-v) as nat)),
        price_value(encode_utf8(price@)) == raw,
{
    numbers_are_read_as_written(n as nat, u64::MAX as nat);
    price_round_trip(raw);
}

} // verus!
