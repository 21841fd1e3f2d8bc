//! Decimal and hexadecimal text.

use vstd::prelude::*;

verus! {

/// `String::push` appends the given character to the end of the string and
/// leaves what was there before it unchanged.
pub assume_specification[ String::push ](s: &mut String, c: char)
    ensures
        final(s)@ == old(s)@.push(c),
;

/// The character that stands for the value `d` in base sixteen, lower case.
pub open spec fn digit(d: nat) -> char
    recommends
        d < 16,
{
    if d < 10 {
        ('0' as nat + d) as char
    } else {
        ('a' as nat + d - 10) as char
    }
}

/// `n` in base ten, without leading zeros.
pub open spec fn decimal(n: nat) -> Seq<char>
    decreases n,
{
    if n < 10 {
        seq![digit(n)]
    } else {
        decimal(n / 10).push(digit(n % 10))
    }
}

/// `bytes` in base sixteen, two lower-case digits for each byte.
pub open spec fn hex(bytes: Seq<u8>) -> Seq<char> {
    Seq::new(
        2 * bytes.len(),
        |i: int| {
            let b = bytes[i / 2] as nat;
            digit(if i % 2 == 0 { b / 16 } else { b % 16 })
        },
    )
}

/// The digit of value `d`.
fn digit_char(d: u8) -> (c: char)
    requires
        d < 16,
    ensures
        c == digit(d as nat),
{
    if d < 10 {
        (48u8 + d) as char
    } else {
        (87u8 + d) as char
    }
}

/// Appends `n` in base ten to `out`.
pub fn push_decimal(out: &mut String, n: u64)
    ensures
        final(out)@ == old(out)@ + decimal(n as nat),
    decreases n,
{
    if n >= 10 {
        push_decimal(out, n / 10);
    }
    out.push(digit_char((n % 10) as u8));
    assert(out@ =~= old(out)@ + decimal(n as nat));
}

/// `bytes` as lower-case hexadecimal text.
pub fn hex_text(bytes: &[u8]) -> (out: String)
    ensures
        out@ == hex(bytes@),
{
    let mut out = String::new();
    let mut i: usize = 0;
    while i < bytes.len()
        invariant
            i <= bytes@.len(),
            out@ == hex(bytes@.take(i as int)),
        decreases bytes@.len() - i,
    {
        let b: u8 = bytes[i];
        out.push(digit_char(b / 16));
        out.push(digit_char(b % 16));
        i = i + 1;
        assert(out@ =~= hex(bytes@.take(i as int)));
    }
    assert(bytes@.take(i as int) =~= bytes@);
    out
}

/// Different digits are written differently.
proof fn digits_differ(d: nat, e: nat)
    requires
        d < 16,
        e < 16,
        digit(d) == digit(e),
    ensures
        d == e,
{
}

/// Decimal text holds at least one digit, and digits only.
pub proof fn decimal_is_digits(n: nat)
    ensures
        decimal(n).len() > 0,
        forall|i: int| 0 <= i < decimal(n).len() ==> '0' <= #[trigger] decimal(n)[i] <= '9',
    decreases n,
{
    if n >= 10 {
        decimal_is_digits(n / 10);
    }
}

/// Decimal text determines the number it was written from.
pub proof fn decimal_is_injective(a: nat, b: nat)
    requires
        decimal(a) == decimal(b),
    ensures
        a == b,
    decreases a,
{
    let s = decimal(a);
    let t = decimal(b);
    decimal_is_digits(a / 10);
    decimal_is_digits(b / 10);
    assert(s.last() == digit(a % 10) && t.last() == digit(b % 10));
    digits_differ(a % 10, b % 10);
    if a >= 10 && b >= 10 {
        assert(s.drop_last() =~= decimal(a / 10));
        assert(t.drop_last() =~= decimal(b / 10));
        decimal_is_injective(a / 10, b / 10);
    }
}

/// Hexadecimal text determines the bytes it was written from.
pub proof fn hex_is_injective(a: Seq<u8>, b: Seq<u8>)
    requires
        hex(a) == hex(b),
    ensures
        a == b,
{
    assert(hex(a).len() == 2 * a.len() && hex(b).len() == 2 * b.len());
    assert forall|k: int| 0 <= k < a.len() implies a[k] == b[k] by {
        let hi: int = 2 * k;
        let lo: int = 2 * k + 1;
        assert(hi / 2 == k && hi % 2 == 0);
        assert(lo / 2 == k && lo % 2 == 1);
        assert(hex(a)[hi] == digit(a[k] as nat / 16));
        assert(hex(b)[hi] == digit(b[k] as nat / 16));
        assert(hex(a)[lo] == digit(a[k] as nat % 16));
        assert(hex(b)[lo] == digit(b[k] as nat % 16));
        digits_differ(a[k] as nat / 16, b[k] as nat / 16);
        digits_differ(a[k] as nat % 16, b[k] as nat % 16);
    }
    assert(a =~= b);
}

} // verus!
