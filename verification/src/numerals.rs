//! Numbers written out as text: decimal for timestamps and ports, lower-case
//! hexadecimal for digests.

use vstd::prelude::*;

verus! {

/// The character for one decimal digit.
pub open spec fn digit_of(d: nat) -> char
    recommends
        d < 10,
{
    (48 + d) as u8 as char
}

/// The character for one hexadecimal digit, letters in lower case.
pub open spec fn hex_digit_of(d: nat) -> char
    recommends
        d < 16,
{
    if d < 10 {
        (48 + d) as u8 as char
    } else {
        (87 + d) as u8 as char
    }
}

/// `n` in decimal, most significant digit first, without leading zeros.
pub open spec fn decimal(n: nat) -> Seq<char>
    decreases n,
{
    if n < 10 {
        seq![digit_of(n)]
    } else {
        decimal(n / 10).push(digit_of(n % 10))
    }
}

/// The bytes in hexadecimal: two digits for each byte, high nibble first.
pub open spec fn hex_lower(bytes: Seq<u8>) -> Seq<char> {
    Seq::new(
        2 * bytes.len(),
        |i: int|
            if i % 2 == 0 {
                hex_digit_of((bytes[i / 2] / 16) as nat)
            } else {
                hex_digit_of((bytes[i / 2] % 16) as nat)
            },
    )
}

/// Whether `c` is one of `0`..`9`.
pub open spec fn is_decimal_digit(c: char) -> bool {
    '0' <= c <= '9'
}

/// Whether `c` is one of `0`..`9`, `a`..`f`.
pub open spec fn is_hex_digit(c: char) -> bool {
    ('0' <= c <= '9') || ('a' <= c <= 'f')
}

/// Digit characters stand at consecutive code points, so distinct digits
/// have distinct characters.
pub proof fn lemma_digit_codes(d: nat)
    requires
        d < 16,
    ensures
        d < 10 ==> digit_of(d) as u32 == 48 + d,
        d < 10 ==> hex_digit_of(d) as u32 == 48 + d,
        d >= 10 ==> hex_digit_of(d) as u32 == 87 + d,
{
}

/// A decimal numeral is never empty and holds digits only.
pub proof fn lemma_decimal_digits(n: nat)
    ensures
        decimal(n).len() >= 1,
        forall|i: int| 0 <= i < decimal(n).len() ==> is_decimal_digit(#[trigger] decimal(n)[i]),
    decreases n,
{
    if n >= 10 {
        lemma_decimal_digits(n / 10);
    }
}

/// Two numbers with the same numeral are the same number.
pub proof fn lemma_decimal_injective(a: nat, b: nat)
    requires
        decimal(a) == decimal(b),
    ensures
        a == b,
    decreases a,
{
    lemma_decimal_digits(a / 10);
    lemma_decimal_digits(b / 10);
    if a < 10 && b < 10 {
        assert(decimal(a)[0] == digit_of(a));
        assert(decimal(b)[0] == digit_of(b));
        lemma_digit_codes(a);
        lemma_digit_codes(b);
        assert(digit_of(a) as u32 == digit_of(b) as u32);
        assert(a == b);
    } else if a >= 10 && b >= 10 {
        let x = decimal(a / 10);
        let y = decimal(b / 10);
        assert(x == decimal(a).drop_last());
        assert(y == decimal(b).drop_last());
        assert(decimal(a).last() == digit_of(a % 10));
        assert(decimal(b).last() == digit_of(b % 10));
        lemma_digit_codes(a % 10);
        lemma_digit_codes(b % 10);
        assert(digit_of(a % 10) as u32 == digit_of(b % 10) as u32);
        lemma_decimal_injective(a / 10, b / 10);
        assert(a % 10 == b % 10);
        assert(a == b);
    } else if a < 10 {
        assert(decimal(a).len() == 1);
        assert(decimal(b).len() == decimal(b / 10).len() + 1);
    } else {
        assert(decimal(b).len() == 1);
        assert(decimal(a).len() == decimal(a / 10).len() + 1);
    }
}

/// A hexadecimal rendering holds hexadecimal digits only.
pub proof fn lemma_hex_digits(bytes: Seq<u8>)
    ensures
        hex_lower(bytes).len() == 2 * bytes.len(),
        forall|i: int|
            0 <= i < hex_lower(bytes).len() ==> is_hex_digit(#[trigger] hex_lower(bytes)[i]),
{
}

/// Two byte strings with the same hexadecimal rendering are the same.
pub proof fn lemma_hex_injective(a: Seq<u8>, b: Seq<u8>)
    requires
        hex_lower(a) == hex_lower(b),
    ensures
        a == b,
{
    assert(hex_lower(a).len() == 2 * a.len());
    assert(hex_lower(b).len() == 2 * b.len());
    assert(a.len() == b.len());
    assert forall|k: int| 0 <= k < a.len() implies a[k] == b[k] by {
        let (ah, al) = ((a[k] / 16) as nat, (a[k] % 16) as nat);
        let (bh, bl) = ((b[k] / 16) as nat, (b[k] % 16) as nat);
        assert((2 * k) / 2 == k && (2 * k) % 2 == 0);
        assert((2 * k + 1) / 2 == k && (2 * k + 1) % 2 == 1);
        assert(hex_lower(a)[2 * k] == hex_digit_of(ah));
        assert(hex_lower(b)[2 * k] == hex_digit_of(bh));
        assert(hex_lower(a)[2 * k + 1] == hex_digit_of(al));
        assert(hex_lower(b)[2 * k + 1] == hex_digit_of(bl));
        lemma_digit_codes(ah);
        lemma_digit_codes(bh);
        lemma_digit_codes(al);
        lemma_digit_codes(bl);
        assert(hex_digit_of(ah) as u32 == hex_digit_of(bh) as u32);
        assert(hex_digit_of(al) as u32 == hex_digit_of(bl) as u32);
        assert(ah == bh && al == bl);
    }
    assert(a =~= b);
}

/// The character for the decimal digit `d`.
pub fn digit(d: u8) -> (c: char)
    requires
        d < 10,
    ensures
        c == digit_of(d as nat),
{
    (48 + d) as char
}

/// The character for the hexadecimal digit `d`.
pub fn hex_digit(d: u8) -> (c: char)
    requires
        d < 16,
    ensures
        c == hex_digit_of(d as nat),
{
    if d < 10 {
        (48 + d) as char
    } else {
        (87 + d) as char
    }
}

/// Appends the decimal numeral of `n` to `out`.
pub fn push_decimal(out: &mut String, n: u128)
    ensures
        final(out)@ == old(out)@ + decimal(n as nat),
    decreases n,
{
    if n >= 10 {
        push_decimal(out, n / 10);
    }
    let d: u8 = (n % 10) as u8;
    out.push(digit(d));
}

/// Appends the hexadecimal rendering of `bytes` to `out`.
pub fn push_hex(out: &mut String, bytes: &[u8])
    ensures
        final(out)@ == old(out)@ + hex_lower(bytes@),
{
    let ghost before = out@;
    let mut i: usize = 0;
    while i < bytes.len()
        invariant
            i <= bytes.len(),
            out@.len() == before.len() + 2 * i,
            out@.take(before.len() as int) == before,
            forall|k: int| 0 <= k < 2 * i ==> out@[before.len() + k] == hex_lower(bytes@)[k],
        decreases bytes.len() - i,
    {
        let b: u8 = bytes[i];
        let ghost prev = out@;
        out.push(hex_digit(b / 16));
        out.push(hex_digit(b % 16));
        proof {
            assert((2 * i) / 2 == i && (2 * i) % 2 == 0);
            assert((2 * i + 1) / 2 == i && (2 * i + 1) % 2 == 1);
            assert(out@.take(before.len() as int) =~= prev.take(before.len() as int));
            assert forall|k: int| 0 <= k < 2 * (i + 1) implies out@[before.len() + k]
                == hex_lower(bytes@)[k] by {
                if k < 2 * i {
                    assert(out@[before.len() + k] == prev[before.len() + k]);
                }
            }
        }
        i += 1;
    }
    assert(out@ =~= before + hex_lower(bytes@));
}

} // verus!
