use vstd::prelude::*;
use crate::text::{decimal, digit, digit_char, push_decimal};
use vstd::string::StringExecFns;

verus! {

/// A character that makes an argument unsafe to show bare.
pub open spec fn is_quote_trigger(c: char) -> bool {
    c == ' ' || c == '"' || c == '\''
}

/// Whether the argument holds a space or a quote character.
pub open spec fn needs_quoting(s: Seq<char>) -> bool {
    exists|i: int| 0 <= i < s.len() && is_quote_trigger(#[trigger] s[i])
}

/// The argument with a backslash put before each double quote.
pub open spec fn escape_quotes(s: Seq<char>) -> Seq<char>
    decreases s.len(),
{
    if s.len() == 0 {
        Seq::empty()
    } else if s.last() == '"' {
        escape_quotes(s.drop_last()).push('\\').push('"')
    } else {
        escape_quotes(s.drop_last()).push(s.last())
    }
}

/// How an argument is shown: as it is where nothing in it needs quoting,
/// else escaped and between double quotes.
pub open spec fn shell_quoted(s: Seq<char>) -> Seq<char> {
    if needs_quoting(s) {
        seq!['"'] + escape_quotes(s) + seq!['"']
    } else {
        s
    }
}

/// Renders one argument for display. The result is meant to be read, not
/// to be handed to a shell.
pub fn shell_quote(arg: &str) -> (quoted: String)
    ensures
        quoted@ == shell_quoted(arg@),
{
    let mut found = false;
    for c in it: arg.chars()
        invariant
            it.seq() == arg@,
            found <==> exists|i: int| 0 <= i < it.index() && is_quote_trigger(#[trigger] arg@[i]),
    {
        if c == ' ' || c == '"' || c == '\'' {
            found = true;
        }
    }
    if !found {
        return arg.to_string();
    }
    let mut quoted = String::new();
    quoted.push('"');
    for c in it: arg.chars()
        invariant
            it.seq() == arg@,
            quoted@ == seq!['"'] + escape_quotes(arg@.subrange(0, it.index() as int)),
    {
        proof {
            let next = arg@.subrange(0, it.index() + 1);
            assert(next.drop_last() =~= arg@.subrange(0, it.index() as int));
            assert(next.last() == c);
        }
        if c == '"' {
            quoted.push('\\');
            quoted.push('"');
        } else {
            quoted.push(c);
        }
        assert(quoted@ =~= seq!['"'] + escape_quotes(arg@.subrange(0, it.index() + 1)));
    }
    assert(arg@.subrange(0, arg@.len() as int) =~= arg@);
    quoted.push('"');
    assert(quoted@ =~= shell_quoted(arg@));
    quoted
}

/// Bytes in the unit that `KB` labels.
pub const KIB: u64 = 1024;

/// Bytes in the unit that `MB` labels.
pub const MIB: u64 = 1_048_576;

/// Bytes in the unit that `GB` labels.
pub const GIB: u64 = 1_073_741_824;

/// Sizes below this are shown from their exact value.
pub const EXACT_LIMIT: u64 = 0x20_0000_0000_0000;

/// `num / den` as the nearest whole number; a value halfway between two
/// goes to the even one.
pub open spec fn round_half_even(num: nat, den: nat) -> nat
    recommends
        den > 0,
{
    let q = num / den;
    let r = num % den;
    if 2 * r > den || (2 * r == den && q % 2 == 1) {
        q + 1
    } else {
        q
    }
}

/// The spacing of the values with 53 significant bits around `n`: 1 below
/// 2^53, and doubled with each further bit that `n` has.
pub open spec fn significand_step(n: nat) -> nat
    decreases n,
{
    if n < EXACT_LIMIT {
        1
    } else {
        2 * significand_step(n / 2)
    }
}

/// `n` held to 53 significant bits, the precision in which sizes are shown.
pub open spec fn held_to_53_bits(n: nat) -> nat {
    round_half_even(n, significand_step(n)) * significand_step(n)
}

/// `tenths` tenths, written with one decimal.
pub open spec fn one_decimal(tenths: nat) -> Seq<char> {
    decimal(tenths / 10).push('.').push(digit_char((tenths % 10) as int))
}

/// `hundredths` hundredths, written with two decimals.
pub open spec fn two_decimals(hundredths: nat) -> Seq<char> {
    decimal(hundredths / 100).push('.').push(digit_char(((hundredths / 10) % 10) as int)).push(
        digit_char((hundredths % 10) as int),
    )
}

/// The label of a size in bytes: whole bytes below 1024, else the largest
/// of the units KB, MB and GB (each 1024 of the one before) that the size
/// reaches, with one decimal, or two for GB.
pub open spec fn size_label(bytes: nat) -> Seq<char> {
    let b = held_to_53_bits(bytes);
    if b < KIB {
        decimal(b) + " B"@
    } else if b < MIB {
        one_decimal(round_half_even(b * 10, KIB as nat)) + " KB"@
    } else if b < GIB {
        one_decimal(round_half_even(b * 10, MIB as nat)) + " MB"@
    } else {
        two_decimals(round_half_even(b * 100, GIB as nat)) + " GB"@
    }
}

fn rounded_quotient(num: u128, den: u128) -> (q: u128)
    requires
        den > 0,
        num / den < u128::MAX,
    ensures
        q == round_half_even(num as nat, den as nat),
{
    let q: u128 = num / den;
    let r: u128 = num % den;
    let rest: u128 = den - r;
    // `r > rest` says that twice `r` exceeds `den`, without doubling.
    if r > rest || (r == rest && q % 2 == 1) {
        q + 1
    } else {
        q
    }
}

fn step_of(bytes: u64) -> (step: u64)
    ensures
        step == significand_step(bytes as nat),
        1 <= step <= 4096,
{
    let mut step: u64 = 1;
    let mut m: u64 = bytes;
    while m >= EXACT_LIMIT
        invariant
            1 <= step,
            m * step <= u64::MAX,
            step == 1 || 2 * m >= EXACT_LIMIT,
            significand_step(bytes as nat) == step * significand_step(m as nat),
        decreases m,
    {
        assert(step < 2048) by (nonlinear_arith)
            requires
                m >= 0x20_0000_0000_0000,
                m * step <= 0xffff_ffff_ffff_ffff,
                step >= 1,
        ;
        assert((m / 2) * (step * 2) <= m * step) by (nonlinear_arith)
            requires
                m >= 0,
                step >= 1,
        ;
        assert(step * significand_step(m as nat) == (step * 2) * significand_step((m / 2) as nat))
            by (nonlinear_arith)
            requires
                significand_step(m as nat) == 2 * significand_step((m / 2) as nat),
        ;
        m = m / 2;
        step = step * 2;
    }
    assert(step <= 4096) by (nonlinear_arith)
        requires
            step >= 1,
            m * step <= 0xffff_ffff_ffff_ffff,
            2 * m >= 0x20_0000_0000_0000 || step == 1,
    ;
    assert(step * significand_step(m as nat) == step) by (nonlinear_arith)
        requires
            significand_step(m as nat) == 1,
    ;
    step
}

fn push_one_decimal(out: &mut String, tenths: u64)
    ensures
        final(out)@ == old(out)@ + one_decimal(tenths as nat),
{
    push_decimal(out, tenths / 10);
    out.push('.');
    out.push(digit((tenths % 10) as u8));
    assert(final(out)@ =~= old(out)@ + one_decimal(tenths as nat));
}

fn push_two_decimals(out: &mut String, hundredths: u64)
    ensures
        final(out)@ == old(out)@ + two_decimals(hundredths as nat),
{
    push_decimal(out, hundredths / 100);
    out.push('.');
    out.push(digit(((hundredths / 10) % 10) as u8));
    out.push(digit((hundredths % 10) as u8));
    assert(final(out)@ =~= old(out)@ + two_decimals(hundredths as nat));
}

/// Renders a size in bytes for display.
pub fn format_size(bytes: u64) -> (text: String)
    ensures
        text@ == size_label(bytes as nat),
{
    let step: u64 = step_of(bytes);
    let whole: u128 = rounded_quotient(bytes as u128, step as u128);
    assert(whole * step <= bytes + step) by (nonlinear_arith)
        requires
            whole <= bytes as int / step as int + 1,
            step >= 1,
            bytes >= 0,
    ;
    let b: u128 = whole * (step as u128);
    let mut text = String::new();
    if b < KIB as u128 {
        push_decimal(&mut text, b as u64);
        text.append(" B");
    } else if b < MIB as u128 {
        let tenths: u128 = rounded_quotient(b * 10, KIB as u128);
        push_one_decimal(&mut text, tenths as u64);
        text.append(" KB");
    } else if b < GIB as u128 {
        let tenths: u128 = rounded_quotient(b * 10, MIB as u128);
        push_one_decimal(&mut text, tenths as u64);
        text.append(" MB");
    } else {
        let hundredths: u128 = rounded_quotient(b * 100, GIB as u128);
        push_two_decimals(&mut text, hundredths as u64);
        text.append(" GB");
    }
    text
}

} // verus!
