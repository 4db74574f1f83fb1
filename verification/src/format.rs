//! Human-readable byte sizes.
//!
//! Sizes below one binary kilobyte are printed as `<n> bytes`; larger
//! sizes are scaled to KB, MB or GB (binary, 1024-based units) with two
//! decimal places, rounding half up.

use vstd::prelude::*;

verus! {

/// Number of bytes in one binary kilobyte.
pub const KB: u64 = 1024;

/// Number of bytes in one binary megabyte.
pub const MB: u64 = KB * 1024;

/// Number of bytes in one binary gigabyte.
pub const GB: u64 = MB * 1024;

/// The decimal digit character for `d` (meaningful for `d < 10`).
pub open spec fn digit_char(d: nat) -> char {
    if d == 0 {
        '0'
    } else if d == 1 {
        '1'
    } else if d == 2 {
        '2'
    } else if d == 3 {
        '3'
    } else if d == 4 {
        '4'
    } else if d == 5 {
        '5'
    } else if d == 6 {
        '6'
    } else if d == 7 {
        '7'
    } else if d == 8 {
        '8'
    } else {
        '9'
    }
}

/// The decimal representation of `n`, most significant digit first,
/// without leading zeros (except for `n == 0`, which is `"0"`).
pub open spec fn dec_digits(n: nat) -> Seq<char>
    decreases n,
{
    if n < 10 {
        seq![digit_char(n)]
    } else {
        dec_digits(n / 10).push(digit_char(n % 10))
    }
}

/// `n` scaled by `unit` into hundredths, rounded half up:
/// the integer nearest to `100 * n / unit`, halves rounded away from zero.
pub open spec fn centi_scaled(n: nat, unit: nat) -> nat
    recommends
        unit > 0,
{
    (100 * n + unit / 2) / unit
}

/// A quantity of hundredths rendered with two decimal places: the
/// integer part, a dot, then exactly two fractional digits.
pub open spec fn centi_digits(c: nat) -> Seq<char> {
    dec_digits(c / 100) + seq!['.', digit_char((c % 100) / 10), digit_char(c % 10)]
}

/// What `bytes_to_human` returns for `bytes`.
pub open spec fn human_size(bytes: nat) -> Seq<char> {
    if bytes >= GB {
        centi_digits(centi_scaled(bytes, GB as nat)) + " GB"@
    } else if bytes >= MB {
        centi_digits(centi_scaled(bytes, MB as nat)) + " MB"@
    } else if bytes >= KB {
        centi_digits(centi_scaled(bytes, KB as nat)) + " KB"@
    } else {
        dec_digits(bytes) + " bytes"@
    }
}

/// The one-character string for a decimal digit.
fn digit_string(d: u64) -> (s: &'static str)
    requires
        d < 10,
    ensures
        s@ == seq![digit_char(d as nat)],
{
    proof {
        reveal_strlit("0");
        reveal_strlit("1");
        reveal_strlit("2");
        reveal_strlit("3");
        reveal_strlit("4");
        reveal_strlit("5");
        reveal_strlit("6");
        reveal_strlit("7");
        reveal_strlit("8");
        reveal_strlit("9");
    }
    let s: &'static str = if d == 0 {
        "0"
    } else if d == 1 {
        "1"
    } else if d == 2 {
        "2"
    } else if d == 3 {
        "3"
    } else if d == 4 {
        "4"
    } else if d == 5 {
        "5"
    } else if d == 6 {
        "6"
    } else if d == 7 {
        "7"
    } else if d == 8 {
        "8"
    } else {
        "9"
    };
    proof {
        assert(s@ =~= seq![digit_char(d as nat)]);
    }
    s
}

/// The decimal representation of `n`.
pub fn u64_to_string(n: u64) -> (s: String)
    ensures
        s@ == dec_digits(n as nat),
    decreases n,
{
    if n < 10 {
        String::from_str(digit_string(n))
    } else {
        let prefix = u64_to_string(n / 10);
        prefix.concat(digit_string(n % 10))
    }
}

/// Renders `c` hundredths of a unit with two decimal places.
fn centi_to_string(c: u64) -> (s: String)
    ensures
        s@ == centi_digits(c as nat),
{
    proof {
        reveal_strlit(".");
    }
    let dot: &str = ".";
    proof {
        assert(dot@ =~= seq!['.']);
    }
    let s = u64_to_string(c / 100)
        .concat(dot)
        .concat(digit_string((c % 100) / 10))
        .concat(digit_string(c % 10));
    proof {
        assert(s@ =~= centi_digits(c as nat));
    }
    s
}

/// Scales `bytes` by `unit` into hundredths, rounding half up.
fn scale_to_centi(bytes: u64, unit: u64) -> (c: u64)
    requires
        1024 <= unit,
    ensures
        c as nat == centi_scaled(bytes as nat, unit as nat),
{
    let wide: u128 = ((bytes as u128) * 100 + (unit as u128) / 2) / (unit as u128);
    proof {
        assert((100 * (bytes as nat) + (unit as nat) / 2) / (unit as nat) < 0x1_0000_0000_0000_0000)
            by (nonlinear_arith)
            requires
                bytes <= 0xffff_ffff_ffff_ffff,
                1024 <= unit <= 0xffff_ffff_ffff_ffff,
        ;
        assert(wide <= u64::MAX as u128);
    }
    wide as u64
}

/// Formats a byte count as a human-readable size: `<n> bytes` below one
/// kilobyte, otherwise two decimal places of the largest applicable
/// binary unit among KB, MB and GB.
pub fn bytes_to_human(bytes: u64) -> (s: String)
    ensures
        s@ == human_size(bytes as nat),
{
    proof {
        reveal_strlit(" GB");
        reveal_strlit(" MB");
        reveal_strlit(" KB");
        reveal_strlit(" bytes");
    }
    if bytes >= GB {
        centi_to_string(scale_to_centi(bytes, GB)).concat(" GB")
    } else if bytes >= MB {
        centi_to_string(scale_to_centi(bytes, MB)).concat(" MB")
    } else if bytes >= KB {
        centi_to_string(scale_to_centi(bytes, KB)).concat(" KB")
    } else {
        u64_to_string(bytes).concat(" bytes")
    }
}

/// Formats a byte count exactly as `bytes_to_human` does.
pub fn format_bytes(bytes: u64) -> (s: String)
    ensures
        s@ == human_size(bytes as nat),
{
    bytes_to_human(bytes)
}

} // verus!
