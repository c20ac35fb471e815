//! Rendering of machine words as text, for diagnostics and trace lines.

use vstd::prelude::*;

verus! {

/// The character that stands for the digit `d` in any radix up to sixteen.
pub open spec fn digit_char(d: nat) -> char {
    if d == 0 {
        '0'
    } else if d == 1 {
        '1'
    } else if d == 2 {
        '2'
    } else if d == 3 {
        '3'
    } else if d == 4 {
        '4'
    } else if d == 5 {
        '5'
    } else if d == 6 {
        '6'
    } else if d == 7 {
        '7'
    } else if d == 8 {
        '8'
    } else if d == 9 {
        '9'
    } else if d == 10 {
        'a'
    } else if d == 11 {
        'b'
    } else if d == 12 {
        'c'
    } else if d == 13 {
        'd'
    } else if d == 14 {
        'e'
    } else {
        'f'
    }
}

/// The digits of `n` in the given radix, most significant first, without
/// padding: a single digit for every `n` below the radix, zero included.
pub open spec fn digits(n: nat, radix: nat) -> Seq<char>
    decreases n,
    via digits_terminates
{
    if radix < 2 || n < radix {
        seq![digit_char(n)]
    } else {
        digits(n / radix, radix).push(digit_char(n % radix))
    }
}

#[via_fn]
proof fn digits_terminates(n: nat, radix: nat) {
    if radix >= 2 && n >= radix {
        lemma_quotient_smaller(n, radix);
    }
}

proof fn lemma_quotient_smaller(n: nat, radix: nat)
    requires
        radix >= 2,
        n >= radix,
    ensures
        n / radix < n,
        n % radix < radix,
{
    assert(n / radix < n && n % radix < radix) by (nonlinear_arith)
        requires
            radix >= 2,
            n >= radix,
    ;
}

/// `n` in decimal.
pub open spec fn decimal_text(n: nat) -> Seq<char> {
    digits(n, 10)
}

/// `n` in lower-case hexadecimal, after the prefix `0x`.
pub open spec fn hex_text(n: nat) -> Seq<char> {
    seq!['0', 'x'] + digits(n, 16)
}

/// No rendering of a number holds a line break: every character of it is a
/// digit.
pub proof fn lemma_digits_hold_no_line_break(n: nat, radix: nat)
    ensures
        !digits(n, radix).contains('\n'),
    decreases n,
{
    if radix >= 2 && n >= radix {
        lemma_quotient_smaller(n, radix);
        lemma_digits_hold_no_line_break(n / radix, radix);
    }
}

fn digit_str(d: usize) -> (s: &'static str)
    requires
        d < 16,
    ensures
        s@ == seq![digit_char(d as nat)],
{
    proof {
        reveal_strlit("0");
        reveal_strlit("1");
        reveal_strlit("2");
        reveal_strlit("3");
        reveal_strlit("4");
        reveal_strlit("5");
        reveal_strlit("6");
        reveal_strlit("7");
        reveal_strlit("8");
        reveal_strlit("9");
        reveal_strlit("a");
        reveal_strlit("b");
        reveal_strlit("c");
        reveal_strlit("d");
        reveal_strlit("e");
        reveal_strlit("f");
    }
    let s = match d {
        0 => "0",
        1 => "1",
        2 => "2",
        3 => "3",
        4 => "4",
        5 => "5",
        6 => "6",
        7 => "7",
        8 => "8",
        9 => "9",
        10 => "a",
        11 => "b",
        12 => "c",
        13 => "d",
        14 => "e",
        _ => "f",
    };
    assert(s@ =~= seq![digit_char(d as nat)]);
    s
}

/// Appends the digits of `n` in the given radix to `out`.
pub fn push_digits(out: &mut String, n: usize, radix: usize)
    requires
        2 <= radix <= 16,
    ensures
        final(out)@ == old(out)@ + digits(n as nat, radix as nat),
    decreases n,
{
    if n >= radix {
        proof {
            lemma_quotient_smaller(n as nat, radix as nat);
        }
        push_digits(out, n / radix, radix);
    }
    let ghost high = out@;
    out.append(digit_str(n % radix));
    proof {
        let last = digit_char((n % radix) as nat);
        assert(out@ == high + seq![last]);
        if n >= radix {
            assert(high == old(out)@ + digits((n / radix) as nat, radix as nat));
            assert(digits(n as nat, radix as nat) == digits((n / radix) as nat, radix as nat).push(
                last,
            ));
        } else {
            assert(n % radix == n) by (nonlinear_arith)
                requires
                    n < radix,
            ;
        }
        assert(out@ =~= old(out)@ + digits(n as nat, radix as nat));
    }
}

/// Renders `n` in decimal.
pub fn decimal(n: usize) -> (s: String)
    ensures
        s@ == decimal_text(n as nat),
{
    let mut s = String::new();
    push_digits(&mut s, n, 10);
    assert(s@ =~= decimal_text(n as nat));
    s
}

/// Renders `n` in lower-case hexadecimal with the prefix `0x`.
pub fn hex(n: usize) -> (s: String)
    ensures
        s@ == hex_text(n as nat),
{
    proof {
        reveal_strlit("0x");
    }
    let mut s = String::from_str("0x");
    push_digits(&mut s, n, 16);
    assert(s@ =~= hex_text(n as nat));
    s
}

} // verus!
