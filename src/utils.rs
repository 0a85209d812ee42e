//! Text helpers: MAC addresses, byte sizes and durations.

use vstd::prelude::*;
use crate::timestamp::TimeSpan;
use vstd::string::StringSliceAdditionalSpecFns;

verus! {

/// ASCII code of a hexadecimal digit, upper case.
pub open spec fn hex_digit(d: int) -> u8 {
    if d < 10 {
        (48 + d) as u8
    } else {
        (55 + d) as u8
    }
}

/// Two upper-case hexadecimal digits of a byte.
pub open spec fn hex_pair(b: u8) -> Seq<u8> {
    seq![hex_digit((b / 16) as int), hex_digit((b % 16) as int)]
}

/// Decimal digits of `n`, most significant first, without leading zeros.
pub open spec fn decimal(n: nat) -> Seq<u8>
    decreases n,
{
    if n < 10 {
        seq![(48 + n) as u8]
    } else {
        decimal(n / 10).push((48 + n % 10) as u8)
    }
}

/// Two decimal digits of `n < 100`, zero padded.
pub open spec fn two_digits(n: nat) -> Seq<u8> {
    seq![(48 + n / 10) as u8, (48 + n % 10) as u8]
}

/// The characters of ASCII bytes.
pub open spec fn ascii_chars(bytes: Seq<u8>) -> Seq<char> {
    bytes.map_values(|b: u8| b as char)
}

/// `XX:XX:XX:XX:XX:XX` with upper-case hexadecimal digits.
pub open spec fn mac_text(mac: Seq<u8>) -> Seq<u8> {
    hex_pair(mac[0]) + seq![58u8] + hex_pair(mac[1]) + seq![58u8] + hex_pair(mac[2]) + seq![58u8]
        + hex_pair(mac[3]) + seq![58u8] + hex_pair(mac[4]) + seq![58u8] + hex_pair(mac[5])
}

/// Relies on `String::from_utf8`: ASCII bytes are valid UTF-8 and become
/// the characters of the same codes.
#[verifier::external_body]
fn ascii_string(bytes: Vec<u8>) -> (r: String)
    requires
        forall|k: int| 0 <= k < bytes@.len() ==> bytes@[k] < 128,
    ensures
        r@ == ascii_chars(bytes@),
{
    match String::from_utf8(bytes) {
        Ok(s) => s,
        Err(_) => String::new(),
    }
}

fn hex_digit_of(d: u8) -> (r: u8)
    requires
        d < 16,
    ensures
        r == hex_digit(d as int),
        r < 128,
{
    if d < 10 {
        48 + d
    } else {
        55 + d
    }
}

fn push_hex_pair(out: &mut Vec<u8>, b: u8)
    ensures
        final(out)@ == old(out)@ + hex_pair(b),
        final(out)@[old(out)@.len() as int] < 128,
        final(out)@[old(out)@.len() as int + 1] < 128,
{
    out.push(hex_digit_of(b / 16));
    out.push(hex_digit_of(b % 16));
    assert(final(out)@ =~= old(out)@ + hex_pair(b));
}

/// Appends the decimal digits of `n`.
fn push_decimal(out: &mut Vec<u8>, n: u64)
    ensures
        final(out)@ == old(out)@ + decimal(n as nat),
    decreases n,
{
    if n >= 10 {
        push_decimal(out, n / 10);
    }
    out.push(48 + (n % 10) as u8);
    assert(final(out)@ =~= old(out)@ + decimal(n as nat));
}

proof fn lemma_decimal_ascii(n: nat)
    ensures
        forall|k: int| 0 <= k < decimal(n).len() ==> #[trigger] decimal(n)[k] < 128,
    decreases n,
{
    if n >= 10 {
        lemma_decimal_ascii(n / 10);
        let d = decimal(n / 10);
        assert forall|k: int| 0 <= k < decimal(n).len() implies #[trigger] decimal(n)[k] < 128 by {
            if k < d.len() {
                assert(decimal(n)[k] == d[k]);
            }
        }
    }
}

/// The MAC address as six upper-case hexadecimal pairs separated by colons.
pub fn mac_to_string(mac: &[u8; 6]) -> (r: String)
    ensures
        r@ == ascii_chars(mac_text(mac@)),
{
    let mut out: Vec<u8> = Vec::new();
    let mut i: usize = 0;
    while i < 6
        invariant
            i <= 6,
            out@ == (if i == 0 {
                Seq::<u8>::empty()
            } else {
                mac_prefix(mac@, i as int)
            }),
            forall|k: int| 0 <= k < out@.len() ==> #[trigger] out@[k] < 128,
        decreases 6 - i,
    {
        if i > 0 {
            out.push(58);
        }
        push_hex_pair(&mut out, mac[i]);
        i = i + 1;
        assert(out@ =~= mac_prefix(mac@, i as int));
    }
    proof {
        reveal_with_fuel(mac_prefix, 7);
        assert(mac_prefix(mac@, 6) =~= mac_text(mac@));
    }
    ascii_string(out)
}

/// The text of the first `n` pairs of a MAC address, colon separated.
pub open spec fn mac_prefix(mac: Seq<u8>, n: int) -> Seq<u8>
    decreases n,
{
    if n <= 1 {
        hex_pair(mac[0])
    } else {
        mac_prefix(mac, n - 1) + seq![58u8] + hex_pair(mac[n - 1])
    }
}

/// Every byte is ASCII.
pub open spec fn is_ascii_bytes(s: Seq<u8>) -> bool {
    forall|k: int| 0 <= k < s.len() ==> #[trigger] s[k] < 128
}

/// `a / b` rounded to the nearest integer, ties to even.
pub open spec fn div_round_even(a: nat, b: nat) -> nat
    recommends
        b > 0,
{
    let q = a / b;
    let r = a % b;
    if 2 * r > b || (2 * r == b && q % 2 == 1) {
        q + 1
    } else {
        q
    }
}

/// `size / unit` with two decimals, rounded half to even, followed by ` <suffix>`.
pub open spec fn scaled_text(size: nat, unit: nat, suffix: Seq<u8>) -> Seq<u8> {
    let q = div_round_even(size * 100, unit);
    decimal(q / 100) + seq![46u8] + two_digits(q % 100) + seq![32u8] + suffix
}

/// A byte count in B, KB, MB or GB (powers of 1024), with two decimals
/// above 1023 bytes.
pub open spec fn size_text(size: nat) -> Seq<u8> {
    if size >= 1_073_741_824 {
        scaled_text(size, 1_073_741_824, seq![71u8, 66u8])
    } else if size >= 1_048_576 {
        scaled_text(size, 1_048_576, seq![77u8, 66u8])
    } else if size >= 1024 {
        scaled_text(size, 1024, seq![75u8, 66u8])
    } else {
        decimal(size) + seq![32u8, 66u8]
    }
}

/// A duration as `Hh Mm Ss`, `Mm Ss`, `Ss MSms` or `MSms`, by its largest
/// non-zero unit.
pub open spec fn duration_text(nanos: nat) -> Seq<u8> {
    let total = nanos / 1_000_000_000;
    let h = total / 3600;
    let m = (total % 3600) / 60;
    let s = total % 60;
    let ms = (nanos % 1_000_000_000) / 1_000_000;
    if h > 0 {
        decimal(h) + seq![104u8, 32u8] + decimal(m) + seq![109u8, 32u8] + decimal(s) + seq![115u8]
    } else if m > 0 {
        decimal(m) + seq![109u8, 32u8] + decimal(s) + seq![115u8]
    } else if s > 0 {
        decimal(s) + seq![115u8, 32u8] + decimal(ms) + seq![109u8, 115u8]
    } else {
        decimal(ms) + seq![109u8, 115u8]
    }
}

/// Appends one ASCII byte.
fn push_ascii(out: &mut Vec<u8>, b: u8)
    requires
        is_ascii_bytes(old(out)@),
        b < 128,
    ensures
        final(out)@ == old(out)@.push(b),
        is_ascii_bytes(final(out)@),
{
    out.push(b);
}

/// Appends the decimal digits of `n`, keeping the text ASCII.
fn push_number(out: &mut Vec<u8>, n: u64)
    requires
        is_ascii_bytes(old(out)@),
    ensures
        final(out)@ == old(out)@ + decimal(n as nat),
        is_ascii_bytes(final(out)@),
{
    push_decimal(out, n);
    proof {
        lemma_decimal_ascii(n as nat);
        assert forall|k: int| 0 <= k < final(out)@.len() implies #[trigger] final(out)@[k] < 128 by {
            if k >= old(out)@.len() {
                assert(final(out)@[k] == decimal(n as nat)[k - old(out)@.len()]);
            }
        }
    }
}

fn scaled(out: &mut Vec<u8>, size: u64, unit: u64, suffix: u8)
    requires
        is_ascii_bytes(old(out)@),
        suffix < 128,
        unit > 0,
        unit <= 1_073_741_824,
    ensures
        final(out)@ == old(out)@ + scaled_text(size as nat, unit as nat, seq![suffix, 66u8]),
        is_ascii_bytes(final(out)@),
{
    let a: u128 = size as u128 * 100;
    let q0: u128 = a / unit as u128;
    let r: u128 = a % unit as u128;
    let q: u128 = if 2 * r > unit as u128 || (2 * r == unit as u128 && q0 % 2 == 1) {
        q0 + 1
    } else {
        q0
    };
    assert(q0 <= a) by (nonlinear_arith)
        requires
            q0 == (a as int) / (unit as int),
            unit >= 1,
    ;
    assert(q / 100 <= size);
    let whole = (q / 100) as u64;
    let frac = (q % 100) as u8;
    let ghost before = out@;
    push_number(out, whole);
    out.push(46);
    out.push(48 + frac / 10);
    out.push(48 + frac % 10);
    out.push(32);
    push_ascii(out, suffix);
    push_ascii(out, 66);
    assert(out@ =~= before + scaled_text(size as nat, unit as nat, seq![suffix, 66u8]));
}

/// The byte count in B below 1024 and otherwise in KB, MB or GB with two
/// decimals.
pub fn format_size(size: u64) -> (r: String)
    ensures
        r@ == ascii_chars(size_text(size as nat)),
{
    let mut out: Vec<u8> = Vec::new();
    assert(is_ascii_bytes(out@));
    if size >= 1_073_741_824 {
        scaled(&mut out, size, 1_073_741_824, 71);
    } else if size >= 1_048_576 {
        scaled(&mut out, size, 1_048_576, 77);
    } else if size >= 1024 {
        scaled(&mut out, size, 1024, 75);
    } else {
        push_number(&mut out, size);
        push_ascii(&mut out, 32);
        push_ascii(&mut out, 66);
    }
    assert(out@ =~= size_text(size as nat));
    ascii_string(out)
}

/// The duration by its largest non-zero unit: hours, minutes and seconds;
/// minutes and seconds; seconds and milliseconds; or milliseconds.
pub fn format_duration(duration: TimeSpan) -> (r: String)
    ensures
        r@ == ascii_chars(duration_text(duration@)),
{
    let total = duration.as_secs();
    let h = total / 3600;
    let m = (total % 3600) / 60;
    let s = total % 60;
    let ms = duration.subsec_millis() as u64;
    let mut out: Vec<u8> = Vec::new();
    assert(is_ascii_bytes(out@));
    if h > 0 {
        push_number(&mut out, h);
        push_ascii(&mut out, 104);
        push_ascii(&mut out, 32);
        push_number(&mut out, m);
        push_ascii(&mut out, 109);
        push_ascii(&mut out, 32);
        push_number(&mut out, s);
        push_ascii(&mut out, 115);
    } else if m > 0 {
        push_number(&mut out, m);
        push_ascii(&mut out, 109);
        push_ascii(&mut out, 32);
        push_number(&mut out, s);
        push_ascii(&mut out, 115);
    } else if s > 0 {
        push_number(&mut out, s);
        push_ascii(&mut out, 115);
        push_ascii(&mut out, 32);
        push_number(&mut out, ms);
        push_ascii(&mut out, 109);
        push_ascii(&mut out, 115);
    } else {
        push_number(&mut out, ms);
        push_ascii(&mut out, 109);
        push_ascii(&mut out, 115);
    }
    assert(out@ =~= duration_text(duration@));
    ascii_string(out)
}

} // verus!

verus! {

/// Value of an ASCII hexadecimal digit of either case, or -1 for any other byte.
pub open spec fn hex_value(b: u8) -> int {
    if 48 <= b <= 57 {
        b - 48
    } else if 65 <= b <= 70 {
        b - 55
    } else if 97 <= b <= 102 {
        b - 87
    } else {
        -1
    }
}

/// Value of a sequence of hexadecimal digits, most significant first.
pub open spec fn hex_number(s: Seq<u8>) -> int
    decreases s.len(),
{
    if s.len() == 0 {
        0
    } else {
        hex_number(s.drop_last()) * 16 + hex_value(s.last())
    }
}

/// A byte written in base 16 as `u8::from_str_radix` reads it: an optional
/// `+`, then at least one hexadecimal digit, for a value of at most 255.
pub open spec fn parse_hex_byte(s: Seq<u8>) -> Option<u8> {
    let digits = unsigned_digits(s);
    if digits.len() > 0 && all_hex(digits) && hex_number(digits) <= 255 {
        Some(hex_number(digits) as u8)
    } else {
        None
    }
}

/// `s` without a leading `+`.
pub open spec fn unsigned_digits(s: Seq<u8>) -> Seq<u8> {
    if s.len() > 0 && s[0] == 43 {
        s.drop_first()
    } else {
        s
    }
}

/// Every byte is a hexadecimal digit.
pub open spec fn all_hex(s: Seq<u8>) -> bool {
    forall|k: int| 0 <= k < s.len() ==> hex_value(#[trigger] s[k]) >= 0
}

/// The fields of `s` between colons.
pub open spec fn fields(s: Seq<u8>) -> Seq<Seq<u8>>
    decreases s.len(),
{
    if s.len() == 0 {
        seq![Seq::empty()]
    } else {
        let f = fields(s.drop_last());
        if s.last() == 58 {
            f.push(Seq::empty())
        } else {
            f.update(f.len() - 1, f.last().push(s.last()))
        }
    }
}

proof fn lemma_fields_nonempty(s: Seq<u8>)
    ensures
        fields(s).len() >= 1,
    decreases s.len(),
{
    if s.len() > 0 {
        lemma_fields_nonempty(s.drop_last());
    }
}

fn hex_value_of(b: u8) -> (r: i16)
    ensures
        r == hex_value(b),
{
    if 48 <= b && b <= 57 {
        (b - 48) as i16
    } else if 65 <= b && b <= 70 {
        (b - 55) as i16
    } else if 97 <= b && b <= 102 {
        (b - 87) as i16
    } else {
        -1
    }
}

/// Reads one field as `u8::from_str_radix(field, 16)` does.
fn parse_field(v: &Vec<u8>) -> (r: Option<u8>)
    ensures
        r == parse_hex_byte(v@),
{
    let n = v.len();
    let start: usize = if n > 0 && v[0] == 43 {
        1
    } else {
        0
    };
    let ghost digits = unsigned_digits(v@);
    assert(digits =~= v@.subrange(start as int, n as int));
    let mut acc: u16 = 0;
    let mut valid = true;
    let mut i: usize = start;
    while i < n
        invariant
            start <= i <= n,
            n == v@.len(),
            valid ==> acc == (if hex_number(v@.subrange(start as int, i as int)) <= 256 {
                hex_number(v@.subrange(start as int, i as int))
            } else {
                256
            }),
            acc <= 256,
            valid == (forall|k: int| start <= k < i ==> hex_value(#[trigger] v@[k]) >= 0),
            valid ==> hex_number(v@.subrange(start as int, i as int)) >= 0,
        decreases n - i,
    {
        assert(v@.subrange(start as int, i + 1).drop_last() =~= v@.subrange(start as int, i as int));
        let d = hex_value_of(v[i]);
        if d < 0 {
            valid = false;
        } else {
            let next: u32 = acc as u32 * 16 + d as u32;
            acc = if next <= 256 {
                next as u16
            } else {
                256
            };
        }
        i = i + 1;
    }
    assert(v@.subrange(start as int, n as int) =~= digits);
    assert(valid == all_hex(digits)) by {
        if valid {
            assert forall|k: int| 0 <= k < digits.len() implies hex_value(#[trigger] digits[k]) >= 0 by {
                assert(digits[k] == v@[start + k]);
            }
        } else {
            let k = choose|k: int| start <= k < n && hex_value(#[trigger] v@[k]) < 0;
            assert(digits[k - start] == v@[k]);
        }
    }
    if start < n && valid && acc <= 255 {
        Some(acc as u8)
    } else {
        proof {
            if start == n {
                assert(digits.len() == 0);
            } else if valid {
                assert(hex_number(digits) > 255);
            }
        }
        None
    }
}

/// The address written as six base-16 fields separated by colons, each read
/// as `u8::from_str_radix` reads it.
pub fn string_to_mac(s: &str) -> (r: Result<[u8; 6], &'static str>)
    ensures
        r is Ok <==> fields(s.spec_bytes()).len() == 6 && forall|k: int|
            0 <= k < 6 ==> #[trigger] parse_hex_byte(fields(s.spec_bytes())[k]) is Some,
        r matches Ok(mac) ==> forall|k: int|
            0 <= k < 6 ==> parse_hex_byte(#[trigger] fields(s.spec_bytes())[k]) == Some(mac@[k]),
{
    let bytes = s.as_bytes();
    let n = bytes.len();
    let mut parts: Vec<Vec<u8>> = Vec::new();
    parts.push(Vec::new());
    let mut i: usize = 0;
    proof {
        assert(bytes@.subrange(0, 0) =~= Seq::<u8>::empty());
    }
    while i < n
        invariant
            i <= n,
            n == bytes@.len(),
            parts@.len() == fields(bytes@.subrange(0, i as int)).len(),
            forall|k: int| 0 <= k < parts@.len() ==> (#[trigger] parts@[k])@ == fields(bytes@.subrange(0, i as int))[k],
        decreases n - i,
    {
        let ghost pre = bytes@.subrange(0, i as int);
        assert(bytes@.subrange(0, i + 1).drop_last() =~= pre);
        proof {
            lemma_fields_nonempty(pre);
        }
        let b = bytes[i];
        if b == 58 {
            parts.push(Vec::new());
        } else {
            let last = parts.len() - 1;
            parts[last].push(b);
        }
        i = i + 1;
        proof {
            let post = bytes@.subrange(0, i as int);
            assert forall|k: int| 0 <= k < parts@.len() implies (#[trigger] parts@[k])@ == fields(post)[k] by {
                if b != 58 && k == parts@.len() - 1 {
                    assert(fields(post)[k] == fields(pre).last().push(b));
                }
            }
        }
    }
    assert(bytes@.subrange(0, n as int) =~= bytes@);
    if parts.len() != 6 {
        return Err("invalid MAC address format");
    }
    let mut mac = [0u8; 6];
    let mut k: usize = 0;
    while k < 6
        invariant
            k <= 6,
            parts@.len() == 6,
            bytes@ == s.spec_bytes(),
            fields(bytes@).len() == 6,
            forall|j: int| 0 <= j < 6 ==> (#[trigger] parts@[j])@ == fields(bytes@)[j],
            forall|j: int| 0 <= j < k ==> parse_hex_byte(#[trigger] fields(bytes@)[j]) == Some(mac@[j]),
        decreases 6 - k,
    {
        match parse_field(&parts[k]) {
            Some(v) => {
                mac[k] = v;
            },
            None => {
                assert(parse_hex_byte(fields(bytes@)[k as int]) is None);
                return Err("invalid hexadecimal digit");
            },
        }
        k = k + 1;
    }
    Ok(mac)
}

} // verus!
