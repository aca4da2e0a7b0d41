//! Rendering of integers and padded fields as text.
use vstd::prelude::*;

verus! {

/// Relies on `String::push`: the character is appended at the end.
pub assume_specification[ String::push ](s: &mut String, ch: char)
    ensures
        final(s)@ == old(s)@.push(ch),
;

/// Relies on `String::push_str`: the slice is appended at the end.
pub assume_specification[ String::push_str ](s: &mut String, string: &str)
    ensures
        final(s)@ == old(s)@ + string@,
;

/// The character of a decimal digit.
pub open spec fn digit_char(d: nat) -> char {
    if d == 0 {
        '0'
    } else if d == 1 {
        '1'
    } else if d == 2 {
        '2'
    } else if d == 3 {
        '3'
    } else if d == 4 {
        '4'
    } else if d == 5 {
        '5'
    } else if d == 6 {
        '6'
    } else if d == 7 {
        '7'
    } else if d == 8 {
        '8'
    } else {
        '9'
    }
}

/// The decimal rendering of `n`, most significant digit first, without
/// leading zeros.
pub open spec fn decimal(n: nat) -> Seq<char>
    decreases n,
{
    if n < 10 {
        seq![digit_char(n)]
    } else {
        decimal(n / 10).push(digit_char(n % 10))
    }
}

/// The decimal rendering of `i`, with a leading `-` when it is negative.
pub open spec fn signed_decimal(i: int) -> Seq<char> {
    if i < 0 {
        seq!['-'] + decimal((-i) as nat)
    } else {
        decimal(i as nat)
    }
}

/// `s` right-aligned in a field of `width` characters, padded with spaces
/// on the left; unchanged when it is already that wide.
pub open spec fn pad_left(s: Seq<char>, width: nat) -> Seq<char> {
    if s.len() < width {
        Seq::new((width - s.len()) as nat, |_i: int| ' ') + s
    } else {
        s
    }
}

pub open spec fn pow10(k: nat) -> nat
    decreases k,
{
    if k == 0 {
        1
    } else {
        10 * pow10((k - 1) as nat)
    }
}

proof fn lemma_decimal_len_bound(n: nat, k: nat)
    requires
        1 <= k,
        n < pow10(k),
    ensures
        decimal(n).len() <= k,
    decreases k,
{
    if n >= 10 {
        if k == 1 {
            assert(pow10(1) == 10 * pow10(0));
        } else {
            let p = pow10((k - 1) as nat);
            assert(n < 10 * p);
            assert(n / 10 < p) by (nonlinear_arith)
                requires
                    n < 10 * p,
            ;
            lemma_decimal_len_bound(n / 10, (k - 1) as nat);
        }
    }
}

proof fn lemma_u128_digits(n: u128)
    ensures
        decimal(n as nat).len() <= 39,
{
    reveal_with_fuel(pow10, 40);
    assert(pow10(39) == 1000000000000000000000000000000000000000);
    lemma_decimal_len_bound(n as nat, 39);
}

fn digit(d: u128) -> (c: char)
    requires
        d < 10,
    ensures
        c == digit_char(d as nat),
{
    if d == 0 {
        '0'
    } else if d == 1 {
        '1'
    } else if d == 2 {
        '2'
    } else if d == 3 {
        '3'
    } else if d == 4 {
        '4'
    } else if d == 5 {
        '5'
    } else if d == 6 {
        '6'
    } else if d == 7 {
        '7'
    } else if d == 8 {
        '8'
    } else {
        '9'
    }
}

/// Appends the decimal rendering of `n`.
pub fn push_decimal(out: &mut String, n: u128)
    ensures
        final(out)@ == old(out)@ + decimal(n as nat),
    decreases n,
{
    let ghost start = out@;
    if n >= 10 {
        push_decimal(out, n / 10);
    }
    out.push(digit(n % 10));
    assert(out@ =~= start + decimal(n as nat));
}

/// The number of characters in the decimal rendering of `n`.
fn decimal_width(n: u128) -> (w: u8)
    ensures
        w as nat == decimal(n as nat).len(),
        w <= 39,
    decreases n,
{
    proof {
        lemma_u128_digits(n);
    }
    if n < 10 {
        1
    } else {
        1 + decimal_width(n / 10)
    }
}

/// The magnitude of `n`, which fits in `u128` for every `i128`.
fn magnitude(n: i128) -> (m: u128)
    ensures
        m as int == if n < 0 { -n } else { n as int },
{
    if n < 0 {
        (-(n + 1)) as u128 + 1
    } else {
        n as u128
    }
}

/// Appends the decimal rendering of `n`, with a sign when it is negative.
pub fn push_signed(out: &mut String, n: i128)
    ensures
        final(out)@ == old(out)@ + signed_decimal(n as int),
{
    let ghost start = out@;
    let m = magnitude(n);
    if n < 0 {
        out.push('-');
    }
    push_decimal(out, m);
    assert(out@ =~= start + signed_decimal(n as int));
}

/// Appends the signed decimal rendering of `n`, right-aligned in a field of
/// `width` characters.
pub fn push_signed_padded(out: &mut String, n: i128, width: u8)
    ensures
        final(out)@ == old(out)@ + pad_left(signed_decimal(n as int), width as nat),
{
    let ghost start = out@;
    let m = magnitude(n);
    let digits = decimal_width(m);
    let used: u8 = if n < 0 { digits + 1 } else { digits };
    assert(used as nat == signed_decimal(n as int).len());
    let mut i: u8 = used;
    while i < width
        invariant
            used <= i,
            used >= width ==> i == used,
            i <= width || i == used,
            out@ =~= start + Seq::new((i - used) as nat, |_j: int| ' '),
        decreases width - i,
    {
        out.push(' ');
        i = i + 1;
    }
    let ghost pad = out@;
    push_signed(out, n);
    assert(out@ =~= start + pad_left(signed_decimal(n as int), width as nat));
}

} // verus!
