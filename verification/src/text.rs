//! Numbers as text: hexadecimal and decimal digits, appended to a
//! string.

use vstd::prelude::*;
use vstd::string::StringExecFns;

verus! {

/// The character of a digit below sixteen.
pub open spec fn digit_char(d: nat) -> char {
    if d == 0 {
        '0'
    } else if d == 1 {
        '1'
    } else if d == 2 {
        '2'
    } else if d == 3 {
        '3'
    } else if d == 4 {
        '4'
    } else if d == 5 {
        '5'
    } else if d == 6 {
        '6'
    } else if d == 7 {
        '7'
    } else if d == 8 {
        '8'
    } else if d == 9 {
        '9'
    } else if d == 10 {
        'a'
    } else if d == 11 {
        'b'
    } else if d == 12 {
        'c'
    } else if d == 13 {
        'd'
    } else if d == 14 {
        'e'
    } else {
        'f'
    }
}

/// `n` in hexadecimal, with small letters and without leading zeros.
pub open spec fn hex(n: nat) -> Seq<char>
    decreases n,
{
    if n < 16 {
        seq![digit_char(n)]
    } else {
        hex(n / 16).push(digit_char(n % 16))
    }
}

/// `n` in decimal, without leading zeros.
pub open spec fn decimal(n: nat) -> Seq<char>
    decreases n,
{
    if n < 10 {
        seq![digit_char(n)]
    } else {
        decimal(n / 10).push(digit_char(n % 10))
    }
}

/// `v` in decimal, with a minus sign if it is negative.
pub open spec fn signed_decimal(v: int) -> Seq<char> {
    if v < 0 {
        seq!['-'] + decimal((-v) as nat)
    } else {
        decimal(v as nat)
    }
}

/// `count` zeros.
pub open spec fn zeros(count: nat) -> Seq<char> {
    Seq::new(count, |i: int| '0')
}

/// `n` in hexadecimal, with zeros in front up to `width` digits.
pub open spec fn hex_padded(n: nat, width: nat) -> Seq<char> {
    if hex(n).len() < width {
        zeros((width - hex(n).len()) as nat) + hex(n)
    } else {
        hex(n)
    }
}

/// `text` with spaces behind it up to `width` characters.
pub open spec fn padded_right(text: Seq<char>, width: nat) -> Seq<char> {
    if text.len() < width {
        text + Seq::new((width - text.len()) as nat, |i: int| ' ')
    } else {
        text
    }
}

/// The number that the low eight bits of `x` stand for in two's
/// complement.
pub open spec fn signed8(x: u32) -> int {
    if x % 0x100 >= 0x80 {
        x % 0x100 - 0x100
    } else {
        (x % 0x100) as int
    }
}

/// The number that the low sixteen bits of `x` stand for in two's
/// complement.
pub open spec fn signed16(x: u32) -> int {
    if x % 0x10000 >= 0x8000 {
        x % 0x10000 - 0x10000
    } else {
        (x % 0x10000) as int
    }
}

/// The number that `x` stands for in two's complement.
pub open spec fn signed32(x: u32) -> int {
    if x >= 0x8000_0000 {
        x - 0x1_0000_0000
    } else {
        x as int
    }
}

/// The text of a digit below sixteen.
pub fn digit_str(d: u64) -> (r: &'static str)
    requires
        d < 16,
    ensures
        r@ == seq![digit_char(d as nat)],
{
    proof {
        reveal_strlit("0");
        reveal_strlit("1");
        reveal_strlit("2");
        reveal_strlit("3");
        reveal_strlit("4");
        reveal_strlit("5");
        reveal_strlit("6");
        reveal_strlit("7");
        reveal_strlit("8");
        reveal_strlit("9");
        reveal_strlit("a");
        reveal_strlit("b");
        reveal_strlit("c");
        reveal_strlit("d");
        reveal_strlit("e");
        reveal_strlit("f");
    }
    let r: &'static str = if d == 0 {
        "0"
    } else if d == 1 {
        "1"
    } else if d == 2 {
        "2"
    } else if d == 3 {
        "3"
    } else if d == 4 {
        "4"
    } else if d == 5 {
        "5"
    } else if d == 6 {
        "6"
    } else if d == 7 {
        "7"
    } else if d == 8 {
        "8"
    } else if d == 9 {
        "9"
    } else if d == 10 {
        "a"
    } else if d == 11 {
        "b"
    } else if d == 12 {
        "c"
    } else if d == 13 {
        "d"
    } else if d == 14 {
        "e"
    } else {
        "f"
    };
    assert(r@ =~= seq![digit_char(d as nat)]);
    r
}

/// Appends `n` in hexadecimal.
pub fn push_hex(s: &mut String, n: u64)
    ensures
        final(s)@ == old(s)@ + hex(n as nat),
    decreases n,
{
    if n >= 16 {
        push_hex(s, n / 16);
    }
    s.append(digit_str(n % 16));
    proof {
        if n >= 16 {
            assert(final(s)@ =~= old(s)@ + hex((n / 16) as nat).push(
                digit_char((n % 16) as nat),
            ));
        }
    }
}

/// Appends `n` in decimal.
pub fn push_decimal(s: &mut String, n: u64)
    ensures
        final(s)@ == old(s)@ + decimal(n as nat),
    decreases n,
{
    if n >= 10 {
        push_decimal(s, n / 10);
    }
    s.append(digit_str(n % 10));
    proof {
        if n >= 10 {
            assert(final(s)@ =~= old(s)@ + decimal((n / 10) as nat).push(
                digit_char((n % 10) as nat),
            ));
        }
    }
}

/// The number of hexadecimal digits of `n`.
pub fn count_hex_digits(n: u64) -> (r: usize)
    ensures
        r == hex(n as nat).len(),
        1 <= r <= 16,
    decreases n,
{
    proof {
        lemma_hex_len(n as nat);
    }
    if n >= 16 {
        let below: usize = count_hex_digits(n / 16);
        proof {
            lemma_hex_len((n / 16) as nat);
        }
        below + 1
    } else {
        1
    }
}

/// A number has as many hexadecimal digits as its size asks for.
pub proof fn lemma_hex_len(n: nat)
    ensures
        1 <= hex(n).len(),
        n < 0x10 ==> hex(n).len() == 1,
        n < 0x100 ==> hex(n).len() <= 2,
        n < 0x1000 ==> hex(n).len() <= 3,
        n < 0x1_0000 ==> hex(n).len() <= 4,
        n < 0x10_0000 ==> hex(n).len() <= 5,
        n < 0x100_0000 ==> hex(n).len() <= 6,
        n < 0x1000_0000 ==> hex(n).len() <= 7,
        n < 0x1_0000_0000 ==> hex(n).len() <= 8,
        n < 0x10_0000_0000 ==> hex(n).len() <= 9,
        n < 0x100_0000_0000 ==> hex(n).len() <= 10,
        n < 0x1000_0000_0000 ==> hex(n).len() <= 11,
        n < 0x1_0000_0000_0000 ==> hex(n).len() <= 12,
        n < 0x10_0000_0000_0000 ==> hex(n).len() <= 13,
        n < 0x100_0000_0000_0000 ==> hex(n).len() <= 14,
        n < 0x1000_0000_0000_0000 ==> hex(n).len() <= 15,
        n < 0x1_0000_0000_0000_0000 ==> hex(n).len() <= 16,
    decreases n,
{
    if n >= 16 {
        lemma_hex_len(n / 16);
    }
}

/// Appends `n` in hexadecimal with zeros in front up to `width` digits.
pub fn push_hex_padded(s: &mut String, n: u64, width: usize)
    ensures
        final(s)@ == old(s)@ + hex_padded(n as nat, width as nat),
{
    let have: usize = count_hex_digits(n);
    let mut i: usize = have;
    while i < width
        invariant
            have <= i,
            have == hex(n as nat).len(),
            have < width ==> i <= width,
            have >= width ==> i == have,
            s@ == old(s)@ + zeros((i - have) as nat),
        decreases width - i,
    {
        proof {
            reveal_strlit("0");
        }
        s.append("0");
        i += 1;
        assert(s@ =~= old(s)@ + zeros((i - have) as nat));
    }
    let ghost front = s@;
    push_hex(s, n);
    proof {
        if have < width {
            assert(s@ =~= old(s)@ + (zeros((width - have) as nat) + hex(n as nat)));
        } else {
            assert(zeros(0) =~= Seq::<char>::empty());
            assert(front =~= old(s)@);
        }
    }
}

/// Appends the number that a word stands for in two's complement, in
/// decimal.
pub fn push_signed32(s: &mut String, x: u32)
    ensures
        final(s)@ == old(s)@ + signed_decimal(signed32(x)),
{
    if x >= 0x8000_0000 {
        proof {
            reveal_strlit("-");
        }
        s.append("-");
        push_decimal(s, 0x1_0000_0000u64 - x as u64);
        assert(final(s)@ =~= old(s)@ + signed_decimal(signed32(x)));
    } else {
        push_decimal(s, x as u64);
    }
}

/// Appends the number that the low sixteen bits of a word stand for in
/// two's complement, in decimal.
pub fn push_signed16(s: &mut String, x: u32)
    ensures
        final(s)@ == old(s)@ + signed_decimal(signed16(x)),
{
    let low: u32 = x % 0x10000;
    if low >= 0x8000 {
        proof {
            reveal_strlit("-");
        }
        s.append("-");
        push_decimal(s, (0x10000 - low) as u64);
        assert(final(s)@ =~= old(s)@ + signed_decimal(signed16(x)));
    } else {
        push_decimal(s, low as u64);
    }
}

/// Appends the number that the low eight bits of a word stand for in
/// two's complement, in decimal.
pub fn push_signed8(s: &mut String, x: u32)
    ensures
        final(s)@ == old(s)@ + signed_decimal(signed8(x)),
{
    let low: u32 = x % 0x100;
    if low >= 0x80 {
        proof {
            reveal_strlit("-");
        }
        s.append("-");
        push_decimal(s, (0x100 - low) as u64);
        assert(final(s)@ =~= old(s)@ + signed_decimal(signed8(x)));
    } else {
        push_decimal(s, low as u64);
    }
}

/// Appends `count` spaces.
pub fn push_spaces(s: &mut String, count: usize)
    ensures
        final(s)@ == old(s)@ + Seq::new(count as nat, |i: int| ' '),
{
    let mut i: usize = 0;
    while i < count
        invariant
            i <= count,
            s@ == old(s)@ + Seq::new(i as nat, |k: int| ' '),
        decreases count - i,
    {
        proof {
            reveal_strlit(" ");
        }
        s.append(" ");
        i += 1;
        assert(s@ =~= old(s)@ + Seq::new(i as nat, |k: int| ' '));
    }
    assert(s@ =~= old(s)@ + Seq::new(count as nat, |k: int| ' '));
}

} // verus!
