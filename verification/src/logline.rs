//! Formatting of one log line, byte for byte.
//!
//! Each tick appends exactly one line of the form
//! `Time: {elapsed}s, Target Temp: {target}°C, Actual Temp: {actual}°C\n`,
//! where the temperatures are carried in hundredths of a degree Celsius
//! and printed with two digits after the decimal point. The line is
//! built as UTF-8 bytes (the degree sign is the two bytes 0xC2 0xB0).

use vstd::prelude::*;

verus! {

/// Decimal ASCII digits of `n`, most significant first, with no leading
/// zeros (a lone `'0'` for zero).
pub open spec fn dec_digits(n: nat) -> Seq<u8>
    decreases n,
{
    if n < 10 {
        seq![(48 + n) as u8]
    } else {
        dec_digits(n / 10).push((48 + n % 10) as u8)
    }
}

/// A temperature in hundredths of a degree, printed with two digits
/// after the decimal point: the whole degrees, `'.'`, then the two
/// fractional digits.
pub open spec fn centi_digits(c: nat) -> Seq<u8> {
    dec_digits(c / 100) + seq![46u8, (48 + (c / 10) % 10) as u8, (48 + c % 10) as u8]
}

/// The bytes of `"Time: "`.
pub open spec fn time_label() -> Seq<u8> {
    seq![84u8, 105u8, 109u8, 101u8, 58u8, 32u8]
}

/// The bytes of `"s, Target Temp: "`.
pub open spec fn target_label() -> Seq<u8> {
    seq![
        115u8, 44u8, 32u8, 84u8, 97u8, 114u8, 103u8, 101u8, 116u8, 32u8, 84u8, 101u8, 109u8,
        112u8, 58u8, 32u8,
    ]
}

/// The bytes of `"°C, Actual Temp: "`.
pub open spec fn actual_label() -> Seq<u8> {
    seq![
        194u8, 176u8, 67u8, 44u8, 32u8, 65u8, 99u8, 116u8, 117u8, 97u8, 108u8, 32u8, 84u8,
        101u8, 109u8, 112u8, 58u8, 32u8,
    ]
}

/// The bytes of `"°C\n"`.
pub open spec fn line_end() -> Seq<u8> {
    seq![194u8, 176u8, 67u8, 10u8]
}

/// One whole log line for a tick `elapsed` seconds into its stage, with
/// the stage target and the effective reading in hundredths of a degree.
#[verifier::opaque]
pub open spec fn log_line_spec(elapsed: nat, target_centi: nat, actual_centi: nat) -> Seq<u8> {
    time_label() + dec_digits(elapsed) + target_label() + centi_digits(target_centi)
        + actual_label() + centi_digits(actual_centi) + line_end()
}

/// Appends the decimal digits of `n`.
fn push_dec(out: &mut Vec<u8>, n: u64)
    ensures
        final(out)@ == old(out)@ + dec_digits(n as nat),
    decreases n,
{
    if n < 10 {
        out.push(48 + n as u8);
        assert(out@ =~= old(out)@ + dec_digits(n as nat));
    } else {
        push_dec(out, n / 10);
        out.push(48 + (n % 10) as u8);
        assert(out@ =~= old(out)@ + dec_digits(n as nat));
    }
}

/// Appends a temperature in hundredths of a degree as `whole.frac` with
/// exactly two fractional digits.
fn push_centi(out: &mut Vec<u8>, c: u32)
    ensures
        final(out)@ == old(out)@ + centi_digits(c as nat),
{
    push_dec(out, (c / 100) as u64);
    out.push(46);
    out.push(48 + ((c / 10) % 10) as u8);
    out.push(48 + (c % 10) as u8);
    assert(out@ =~= old(out)@ + centi_digits(c as nat));
}

/// Appends `"Time: "`.
fn push_time_label(out: &mut Vec<u8>)
    ensures
        final(out)@ == old(out)@ + time_label(),
{
    out.push(84);
    out.push(105);
    out.push(109);
    out.push(101);
    out.push(58);
    out.push(32);
    assert(out@ =~= old(out)@ + time_label());
}

/// Appends `"s, Target Temp: "`.
fn push_target_label(out: &mut Vec<u8>)
    ensures
        final(out)@ == old(out)@ + target_label(),
{
    out.push(115);
    out.push(44);
    out.push(32);
    out.push(84);
    out.push(97);
    out.push(114);
    out.push(103);
    out.push(101);
    out.push(116);
    out.push(32);
    out.push(84);
    out.push(101);
    out.push(109);
    out.push(112);
    out.push(58);
    out.push(32);
    assert(out@ =~= old(out)@ + target_label());
}

/// Appends `"°C, Actual Temp: "`.
fn push_actual_label(out: &mut Vec<u8>)
    ensures
        final(out)@ == old(out)@ + actual_label(),
{
    out.push(194);
    out.push(176);
    out.push(67);
    out.push(44);
    out.push(32);
    out.push(65);
    out.push(99);
    out.push(116);
    out.push(117);
    out.push(97);
    out.push(108);
    out.push(32);
    out.push(84);
    out.push(101);
    out.push(109);
    out.push(112);
    out.push(58);
    out.push(32);
    assert(out@ =~= old(out)@ + actual_label());
}

/// Appends `"°C\n"`.
fn push_line_end(out: &mut Vec<u8>)
    ensures
        final(out)@ == old(out)@ + line_end(),
{
    out.push(194);
    out.push(176);
    out.push(67);
    out.push(10);
    assert(out@ =~= old(out)@ + line_end());
}

/// Formats one log line.
pub fn log_line(elapsed_secs: u64, target_centi: u32, actual_centi: u32) -> (line: Vec<u8>)
    ensures
        line@ == log_line_spec(elapsed_secs as nat, target_centi as nat, actual_centi as nat),
{
    let mut out: Vec<u8> = Vec::new();
    push_time_label(&mut out);
    push_dec(&mut out, elapsed_secs);
    push_target_label(&mut out);
    push_centi(&mut out, target_centi);
    push_actual_label(&mut out);
    push_centi(&mut out, actual_centi);
    push_line_end(&mut out);
    proof {
        reveal(log_line_spec);
    }
    assert(out@ =~= log_line_spec(
        elapsed_secs as nat,
        target_centi as nat,
        actual_centi as nat,
    ));
    out
}

} // verus!
