//! Formatting of the download screen's figures. Drawing the bar
//! itself happens outside the crate.

use vstd::prelude::*;
use vstd::string::StringExecFns;

use crate::text::{dec_digits, dec_digits_pad2, push_decimal, push_decimal_pad2};
use crate::utils::scaled_hundredths;

verus! {

/// What `format_bytes` returns here: two decimals and the unit for a
/// kibibyte and up, the bare count below that.
pub open spec fn spec_format_bytes_short(bytes: nat) -> Seq<char> {
    if bytes >= 0x4000_0000 {
        let v = scaled_hundredths(bytes, 0x4000_0000);
        dec_digits(v / 100) + "."@ + dec_digits_pad2(v % 100) + " GB"@
    } else if bytes >= 0x10_0000 {
        let v = scaled_hundredths(bytes, 0x10_0000);
        dec_digits(v / 100) + "."@ + dec_digits_pad2(v % 100) + " MB"@
    } else if bytes >= 0x400 {
        let v = scaled_hundredths(bytes, 0x400);
        dec_digits(v / 100) + "."@ + dec_digits_pad2(v % 100) + " KB"@
    } else {
        dec_digits(bytes) + " B"@
    }
}

fn push_scaled(s: &mut String, bytes: u64, den: u64)
    requires
        0x400 <= den <= 0x4000_0000,
        bytes >= den,
    ensures
        final(s)@ == old(s)@ + dec_digits(scaled_hundredths(bytes as nat, den as nat) / 100) + "."@
            + dec_digits_pad2(scaled_hundredths(bytes as nat, den as nat) % 100),
{
    let q = bytes / den;
    let rem = bytes % den;
    assert(q <= 0x40_0000_0000_0000) by (nonlinear_arith)
        requires
            q == bytes / den,
            den >= 0x400,
            bytes <= u64::MAX,
    ;
    let t = rem * 100 + den / 2;
    let u = t / den;
    assert(u <= 100) by (nonlinear_arith)
        requires
            den >= 1,
            t < den * 101,
            u == t / den,
    ;
    let v = q * 100 + u;
    push_decimal(s, v / 100);
    s.append(".");
    push_decimal_pad2(s, v % 100);
}

/// Formats a byte count for the download screen: binary units with
/// two decimals from a kibibyte up, the bare count in bytes below.
pub fn format_bytes(bytes: u64) -> (r: String)
    ensures
        r@ == spec_format_bytes_short(bytes as nat),
{
    let mut s = String::new();
    if bytes >= 0x4000_0000 {
        push_scaled(&mut s, bytes, 0x4000_0000);
        s.append(" GB");
    } else if bytes >= 0x10_0000 {
        push_scaled(&mut s, bytes, 0x10_0000);
        s.append(" MB");
    } else if bytes >= 0x400 {
        push_scaled(&mut s, bytes, 0x400);
        s.append(" KB");
    } else {
        push_decimal(&mut s, bytes);
        s.append(" B");
    }
    proof {
        assert(s@ =~= spec_format_bytes_short(bytes as nat));
    }
    s
}

/// What `format_speed` returns: two decimals and the unit per second
/// for a kibibyte and up, the bare count below that.
pub open spec fn spec_format_speed(bytes_per_sec: nat) -> Seq<char> {
    if bytes_per_sec >= 0x10_0000 {
        let v = scaled_hundredths(bytes_per_sec, 0x10_0000);
        dec_digits(v / 100) + "."@ + dec_digits_pad2(v % 100) + " MB/s"@
    } else if bytes_per_sec >= 0x400 {
        let v = scaled_hundredths(bytes_per_sec, 0x400);
        dec_digits(v / 100) + "."@ + dec_digits_pad2(v % 100) + " KB/s"@
    } else {
        dec_digits(bytes_per_sec) + " B/s"@
    }
}

/// Formats a transfer speed for the download screen.
pub fn format_speed(bytes_per_sec: u64) -> (r: String)
    ensures
        r@ == spec_format_speed(bytes_per_sec as nat),
{
    let mut s = String::new();
    if bytes_per_sec >= 0x10_0000 {
        push_scaled(&mut s, bytes_per_sec, 0x10_0000);
        s.append(" MB/s");
    } else if bytes_per_sec >= 0x400 {
        push_scaled(&mut s, bytes_per_sec, 0x400);
        s.append(" KB/s");
    } else {
        push_decimal(&mut s, bytes_per_sec);
        s.append(" B/s");
    }
    proof {
        assert(s@ =~= spec_format_speed(bytes_per_sec as nat));
    }
    s
}

/// Formats a duration of whole seconds as "MM:SS", adding an hours
/// part once the duration reaches one hour.
pub fn format_duration(seconds: u64) -> (r: String)
    ensures
        r@ == crate::utils::spec_format_duration(seconds as nat),
{
    crate::utils::format_duration(seconds)
}

} // verus!
