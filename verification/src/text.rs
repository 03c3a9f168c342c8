//! Decimal and hexadecimal rendering of numbers into strings.

use vstd::prelude::*;
use vstd::string::*;

verus! {

/// The decimal digit character for `d < 10`.
pub open spec fn spec_digit(d: nat) -> char {
    if d == 0 { '0' } else if d == 1 { '1' } else if d == 2 { '2' } else if d == 3 { '3' } else if d == 4 {
        '4'
    } else if d == 5 { '5' } else if d == 6 { '6' } else if d == 7 { '7' } else if d == 8 { '8' } else {
        '9'
    }
}

/// The lowercase hexadecimal digit character for `d < 16`.
pub open spec fn spec_hex_digit(d: nat) -> char {
    if d < 10 { spec_digit(d) } else if d == 10 { 'a' } else if d == 11 { 'b' } else if d == 12 { 'c' } else if d
        == 13 { 'd' } else if d == 14 { 'e' } else { 'f' }
}

/// The decimal representation of `n`, without leading zeros.
pub open spec fn spec_dec(n: nat) -> Seq<char>
    decreases n,
{
    if n < 10 { seq![spec_digit(n)] } else { spec_dec(n / 10).push(spec_digit(n % 10)) }
}

/// The two-digit lowercase hexadecimal representation of a byte.
pub open spec fn spec_hex2(b: u8) -> Seq<char> {
    seq![spec_hex_digit((b / 16) as nat), spec_hex_digit((b % 16) as nat)]
}

/// The one-character string of the hexadecimal digit `d`.
fn hex_digit_str(d: u8) -> (r: &'static str)
    requires
        d < 16,
    ensures
        r@ == seq![spec_hex_digit(d as nat)],
{
    proof {
        reveal_strlit("0"); reveal_strlit("1"); reveal_strlit("2"); reveal_strlit("3");
        reveal_strlit("4"); reveal_strlit("5"); reveal_strlit("6"); reveal_strlit("7");
        reveal_strlit("8"); reveal_strlit("9"); reveal_strlit("a"); reveal_strlit("b");
        reveal_strlit("c"); reveal_strlit("d"); reveal_strlit("e"); reveal_strlit("f");
    }
    match d {
        0 => "0",
        1 => "1",
        2 => "2",
        3 => "3",
        4 => "4",
        5 => "5",
        6 => "6",
        7 => "7",
        8 => "8",
        9 => "9",
        10 => "a",
        11 => "b",
        12 => "c",
        13 => "d",
        14 => "e",
        _ => "f",
    }
}

/// Append the decimal representation of `n` to `out`.
pub fn push_dec(out: &mut String, n: usize)
    ensures
        final(out)@ == old(out)@ + spec_dec(n as nat),
    decreases n,
{
    if n < 10 {
        out.append(hex_digit_str(n as u8));
    } else {
        push_dec(out, n / 10);
        out.append(hex_digit_str((n % 10) as u8));
    }
}

/// Append the two-digit lowercase hexadecimal representation of `b` to `out`.
pub fn push_hex2(out: &mut String, b: u8)
    ensures
        final(out)@ == old(out)@ + spec_hex2(b),
{
    out.append(hex_digit_str(b / 16));
    out.append(hex_digit_str(b % 16));
    assert(out@ =~= old(out)@ + spec_hex2(b));
}

/// The lowercase hexadecimal representation of `n`, without leading zeros.
pub open spec fn spec_hex(n: nat) -> Seq<char>
    decreases n,
{
    if n < 16 { seq![spec_hex_digit(n)] } else { spec_hex(n / 16).push(spec_hex_digit(n % 16)) }
}

/// The lowercase hexadecimal representation of `n`, left-padded with zeros to `width`
/// characters (as `{:0width$x}` formats it).
pub open spec fn spec_hex_padded(n: nat, width: nat) -> Seq<char> {
    if spec_hex(n).len() >= width {
        spec_hex(n)
    } else {
        Seq::new((width - spec_hex(n).len()) as nat, |i: int| '0') + spec_hex(n)
    }
}

/// `16` to the power `k`.
pub open spec fn spec_pow16(k: nat) -> nat
    decreases k,
{
    if k == 0 { 1 } else { 16 * spec_pow16((k - 1) as nat) }
}

/// A number below `16` to the power `k` has at most `k` hexadecimal digits, and every
/// number has at least one.
pub proof fn lemma_hex_len(n: nat, k: nat)
    requires
        k >= 1,
        n < spec_pow16(k),
    ensures
        1 <= spec_hex(n).len() <= k,
    decreases k,
{
    reveal_with_fuel(spec_pow16, 2);
    if n >= 16 {
        assert(k >= 2);
        let p = spec_pow16((k - 1) as nat);
        assert(n / 16 < p) by (nonlinear_arith)
            requires
                n < 16 * p,
        ;
        lemma_hex_len(n / 16, (k - 1) as nat);
    }
}

/// The number of hexadecimal digits of `n`.
fn hex_len(n: u64) -> (r: usize)
    ensures
        r == spec_hex(n as nat).len(),
        r <= 16,
{
    proof {
        reveal_with_fuel(spec_pow16, 17);
        assert(spec_pow16(16) == 0x1_0000_0000_0000_0000);
        lemma_hex_len(n as nat, 16);
    }
    let mut m = n;
    let mut count: usize = 1;
    while m >= 16
        invariant
            1 <= count,
            spec_hex(n as nat).len() <= 16,
            spec_hex(m as nat).len() >= 1,
            count + spec_hex(m as nat).len() - 1 == spec_hex(n as nat).len(),
        decreases m,
    {
        assert(spec_hex(m as nat).len() == spec_hex((m / 16) as nat).len() + 1);
        m = m / 16;
        count = count + 1;
    }
    count
}

/// Append the lowercase hexadecimal representation of `n`.
fn push_hex(out: &mut String, n: u64)
    ensures
        final(out)@ == old(out)@ + spec_hex(n as nat),
    decreases n,
{
    if n < 16 {
        out.append(hex_digit_str(n as u8));
    } else {
        push_hex(out, n / 16);
        out.append(hex_digit_str((n % 16) as u8));
    }
}

/// Append the lowercase hexadecimal representation of `n`, left-padded with zeros to
/// `width` characters.
pub fn push_hex_padded(out: &mut String, n: u64, width: usize)
    ensures
        final(out)@ == old(out)@ + spec_hex_padded(n as nat, width as nat),
{
    let len = hex_len(n);
    let ghost start = out@;
    if len < width {
        let mut i: usize = 0;
        while i < width - len
            invariant
                i <= width - len,
                len < width,
                out@ == start + Seq::new(i as nat, |j: int| '0'),
            decreases width - len - i,
        {
            proof { reveal_strlit("0"); }
            out.append("0");
            i = i + 1;
            assert(out@ =~= start + Seq::new(i as nat, |j: int| '0'));
        }
    }
    let ghost mid = out@;
    push_hex(out, n);
    assert(out@ =~= old(out)@ + spec_hex_padded(n as nat, width as nat));
}

/// Calls the `Display` rendering of a `std::io::Error` (`to_string`); the text depends on
/// the operating system and is not stated.
#[verifier::external_body]
pub(crate) fn io_error_text(error: &std::io::Error) -> String {
    error.to_string()
}

} // verus!
