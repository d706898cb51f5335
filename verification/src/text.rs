//! Numbers written out as text, in decimal and in upper-case hexadecimal.
use vstd::prelude::*;
use vstd::string::{StrSliceExecFns, StringExecFns};

verus! {

/// The character of the digit `d` (0 to 15): `0` to `9`, then `A` to `F`.
pub open spec fn digit_char(d: nat) -> char {
    if d < 10 {
        ('0' as nat + d) as char
    } else {
        ('A' as nat + (d - 10)) as char
    }
}

/// The digits of `n` in base `base`, most significant first, without
/// leading zeros (`0` is the single digit `0`).
pub open spec fn digits(n: nat, base: nat) -> Seq<char>
    decreases n,
{
    if n < base || base < 2 {
        seq![digit_char(n)]
    } else {
        proof {
            assert(n / base < n) by (nonlinear_arith)
                requires
                    base >= 2,
                    n >= base,
            ;
        }
        digits(n / base, base) + seq![digit_char(n % base)]
    }
}

/// `s` preceded by as many `0` as it takes to make it `width` long.
pub open spec fn zero_padded(s: Seq<char>, width: nat) -> Seq<char> {
    Seq::new((if s.len() < width { width - s.len() } else { 0 }) as nat, |i: int| '0') + s
}

/// The one-character text of the digit `d`.
fn digit_str(d: u32) -> (r: &'static str)
    requires
        d < 16,
    ensures
        r@ == seq![digit_char(d as nat)],
{
    proof {
        reveal_strlit("0");
        reveal_strlit("1");
        reveal_strlit("2");
        reveal_strlit("3");
        reveal_strlit("4");
        reveal_strlit("5");
        reveal_strlit("6");
        reveal_strlit("7");
        reveal_strlit("8");
        reveal_strlit("9");
        reveal_strlit("A");
        reveal_strlit("B");
        reveal_strlit("C");
        reveal_strlit("D");
        reveal_strlit("E");
        reveal_strlit("F");
    }
    let r = match d {
        0 => "0",
        1 => "1",
        2 => "2",
        3 => "3",
        4 => "4",
        5 => "5",
        6 => "6",
        7 => "7",
        8 => "8",
        9 => "9",
        10 => "A",
        11 => "B",
        12 => "C",
        13 => "D",
        14 => "E",
        _ => "F",
    };
    assert(r@ =~= seq![digit_char(d as nat)]);
    r
}

/// Appends the digits of `n` in base `base` (10 or 16) to `s`.
pub fn push_digits(s: &mut String, n: u32, base: u32)
    requires
        base == 10 || base == 16,
    ensures
        final(s)@ == old(s)@ + digits(n as nat, base as nat),
    decreases n,
{
    if n >= base {
        push_digits(s, n / base, base);
    }
    s.append(digit_str(n % base));
    assert(final(s)@ =~= old(s)@ + digits(n as nat, base as nat));
}

/// Appends the digits of `n` in base `base` (10 or 16) to `s`, preceded by
/// as many `0` as it takes to write at least `width` characters.
pub fn push_padded_digits(s: &mut String, n: u32, base: u32, width: usize)
    requires
        base == 10 || base == 16,
    ensures
        final(s)@ == old(s)@ + zero_padded(digits(n as nat, base as nat), width as nat),
{
    let mut t = String::new();
    push_digits(&mut t, n, base);
    let len = t.as_str().unicode_len();
    let ghost d = digits(n as nat, base as nat);
    assert(t@ =~= d);
    let mut i = len;
    while i < width
        invariant
            len == d.len(),
            len <= i,
            i <= width || i == len,
            s@ == old(s)@ + Seq::new((i - len) as nat, |k: int| '0'),
        decreases width - i,
    {
        s.append("0");
        proof {
            reveal_strlit("0");
        }
        assert(Seq::new((i + 1 - len) as nat, |k: int| '0') =~= Seq::new(
            (i - len) as nat,
            |k: int| '0',
        ) + seq!['0']);
        i = i + 1;
    }
    s.append(t.as_str());
    assert(final(s)@ =~= old(s)@ + zero_padded(d, width as nat));
}

} // verus!
