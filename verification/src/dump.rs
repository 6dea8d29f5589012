//! The raw report view of the diagnostic tool: each report shown as a hex
//! dump, the field layout of a Sidewinder FF2 report under it, and the decoded
//! fields beside it.

use vstd::prelude::*;
use vstd::string::StringExecFns;

use crate::bytes::{i16_from_le, i16_le, u16_from_le, u16_le};
use crate::input::MIN_REPORT_SIZE;
use crate::text::{dec, dec_len, digit_char, push_decimal, zeros};

verus! {

// ── Hexadecimal digits ────────────────────────────────────────────────────────

/// The lower-case character of a hexadecimal digit.
pub open spec fn hex_char(d: nat) -> char {
    if d < 10 {
        digit_char(d)
    } else {
        (87 + d) as char
    }
}

/// The lower-case hexadecimal representation of a natural number, without
/// leading zeros.
pub open spec fn hex(v: nat) -> Seq<char>
    decreases v,
{
    if v < 16 {
        seq![hex_char(v)]
    } else {
        hex(v / 16).push(hex_char(v % 16))
    }
}

/// The hexadecimal representation left-padded with zeros to at least `w`
/// characters.
pub open spec fn hex_padded(v: nat, w: nat) -> Seq<char> {
    if hex(v).len() < w {
        zeros((w - hex(v).len()) as nat) + hex(v)
    } else {
        hex(v)
    }
}

/// Sixteen to the power `k`.
pub open spec fn pow16(k: nat) -> nat
    decreases k,
{
    if k == 0 {
        1
    } else {
        16 * pow16((k - 1) as nat)
    }
}

/// A number below 16^k has at least one and at most k hex digits (k >= 1).
proof fn lemma_hex_below(v: nat, k: nat)
    requires
        k >= 1,
    ensures
        1 <= hex(v).len(),
        v < pow16(k) ==> hex(v).len() <= k,
    decreases k,
{
    assert(pow16(1) == 16) by {
        reveal_with_fuel(pow16, 2);
    }
    if v >= 16 {
        if k > 1 {
            let p = pow16((k - 1) as nat);
            if v < pow16(k) {
                assert(v / 16 < p) by (nonlinear_arith)
                    requires
                        v < 16 * p,
                ;
            }
            lemma_hex_below(v / 16, (k - 1) as nat);
        }
    }
}

/// The one-character string of a hexadecimal digit.
fn hex_digit_str(d: u64) -> (s: &'static str)
    requires
        d < 16,
    ensures
        s@ == seq![hex_char(d as nat)],
{
    proof {
        reveal_strlit("0");
        reveal_strlit("1");
        reveal_strlit("2");
        reveal_strlit("3");
        reveal_strlit("4");
        reveal_strlit("5");
        reveal_strlit("6");
        reveal_strlit("7");
        reveal_strlit("8");
        reveal_strlit("9");
        reveal_strlit("a");
        reveal_strlit("b");
        reveal_strlit("c");
        reveal_strlit("d");
        reveal_strlit("e");
        reveal_strlit("f");
    }
    match d {
        0 => "0",
        1 => "1",
        2 => "2",
        3 => "3",
        4 => "4",
        5 => "5",
        6 => "6",
        7 => "7",
        8 => "8",
        9 => "9",
        10 => "a",
        11 => "b",
        12 => "c",
        13 => "d",
        14 => "e",
        _ => "f",
    }
}

/// Append the hexadecimal digits of `v`.
fn push_hex(out: &mut String, v: u64)
    ensures
        final(out)@ == old(out)@ + hex(v as nat),
    decreases v,
{
    if v >= 16 {
        push_hex(out, v / 16);
    }
    out.append(hex_digit_str(v % 16));
    proof {
        if v >= 16 {
            assert(hex(v as nat) == hex((v / 16) as nat).push(hex_char((v % 16) as nat)));
        }
    }
}

/// The number of hexadecimal digits of `v`.
fn hex_len(v: u64) -> (n: usize)
    ensures
        n == hex(v as nat).len(),
    decreases v,
{
    proof {
        assert(pow16(16) == 0x1_0000_0000_0000_0000) by {
            reveal_with_fuel(pow16, 17);
        }
        lemma_hex_below(v as nat, 16);
    }
    if v >= 16 {
        hex_len(v / 16) + 1
    } else {
        1
    }
}

/// Append `v` in hexadecimal, left-padded with zeros to at least `width`
/// characters.
fn push_hex_padded(out: &mut String, v: u64, width: usize)
    ensures
        final(out)@ == old(out)@ + hex_padded(v as nat, width as nat),
{
    let n = hex_len(v);
    let ghost start = out@;
    if n < width {
        let mut k: usize = 0;
        while k < width - n
            invariant
                n < width,
                k <= width - n,
                out@ == start + zeros(k as nat),
            decreases width - n - k,
        {
            proof {
                reveal_strlit("0");
            }
            out.append("0");
            k = k + 1;
            assert(out@ =~= start + zeros(k as nat));
        }
    }
    push_hex(out, v);
    assert(out@ =~= start + hex_padded(v as nat, width as nat));
}

// ── Hex dump ──────────────────────────────────────────────────────────────────

/// What stands before the byte at index `i` of a dump: nothing before the
/// first, one space inside a pair of bytes, two spaces between pairs.
pub open spec fn dump_separator(i: nat) -> Seq<char> {
    if i == 0 {
        Seq::empty()
    } else if i % 2 == 1 {
        seq![' ']
    } else {
        seq![' ', ' ']
    }
}

/// The hex dump of a report: each byte as two lower-case hex digits, the
/// bytes grouped in pairs.
pub open spec fn hex_dump_text(bytes: Seq<u8>) -> Seq<char>
    decreases bytes.len(),
{
    if bytes.len() == 0 {
        Seq::empty()
    } else {
        hex_dump_text(bytes.drop_last()) + dump_separator((bytes.len() - 1) as nat) + hex_padded(
            bytes.last() as nat,
            2,
        )
    }
}

/// Format `bytes` as a hex dump: `00 00  80 00  ff 7f  …`.
pub fn hex_dump(bytes: &[u8]) -> (s: String)
    ensures
        s@ == hex_dump_text(bytes@),
{
    let mut out = String::new();
    let mut i: usize = 0;
    while i < bytes.len()
        invariant
            i <= bytes@.len(),
            out@ == hex_dump_text(bytes@.take(i as int)),
        decreases bytes@.len() - i,
    {
        assert(bytes@.take(i + 1).drop_last() =~= bytes@.take(i as int));
        if i > 0 {
            if i % 2 == 1 {
                proof {
                    reveal_strlit(" ");
                }
                out.append(" ");
            } else {
                proof {
                    reveal_strlit("  ");
                }
                out.append("  ");
            }
        }
        push_hex_padded(&mut out, bytes[i] as u64, 2);
        i = i + 1;
    }
    assert(bytes@.take(bytes@.len() as int) =~= bytes@);
    out
}

// ── Decimal fields ────────────────────────────────────────────────────────────

/// `n` space characters.
pub open spec fn spaces(n: nat) -> Seq<char> {
    Seq::new(n, |i: int| ' ')
}

/// The decimal representation right-aligned in a field of at least `w`
/// characters.
pub open spec fn right_aligned(v: nat, w: nat) -> Seq<char> {
    if dec(v).len() < w {
        spaces((w - dec(v).len()) as nat) + dec(v)
    } else {
        dec(v)
    }
}

/// A signed value in decimal, always with its sign: `+0`, `+12`, `-7`.
pub open spec fn signed_text(v: int) -> Seq<char> {
    if v < 0 {
        seq!['-'] + dec((-v) as nat)
    } else {
        seq!['+'] + dec(v as nat)
    }
}

/// Append `v` in decimal, right-aligned in at least `width` characters.
fn push_right_aligned(out: &mut String, v: u64, width: usize)
    ensures
        final(out)@ == old(out)@ + right_aligned(v as nat, width as nat),
{
    let n = dec_len(v);
    let ghost start = out@;
    if n < width {
        let mut k: usize = 0;
        while k < width - n
            invariant
                n < width,
                k <= width - n,
                out@ == start + spaces(k as nat),
            decreases width - n - k,
        {
            proof {
                reveal_strlit(" ");
            }
            out.append(" ");
            k = k + 1;
            assert(out@ =~= start + spaces(k as nat));
        }
    }
    push_decimal(out, v);
    assert(out@ =~= start + right_aligned(v as nat, width as nat));
}

/// Append a signed value with its sign.
fn push_signed(out: &mut String, v: i16)
    ensures
        final(out)@ == old(out)@ + signed_text(v as int),
{
    let ghost start = out@;
    if v < 0 {
        proof {
            reveal_strlit("-");
        }
        out.append("-");
        push_decimal(out, (-(v as i32)) as u64);
    } else {
        proof {
            reveal_strlit("+");
        }
        out.append("+");
        push_decimal(out, v as u64);
    }
    assert(out@ =~= start + signed_text(v as int));
}

// ── The three lines of the view ───────────────────────────────────────────────

/// The lead of the first line: time since the view started and report length.
pub open spec fn dump_header_text(elapsed_ms: nat, len: nat) -> Seq<char> {
    seq!['['] + right_aligned(elapsed_ms, 6) + "ms] len="@ + right_aligned(len, 2) + seq![' ', ' ']
}

/// The field labels drawn under the hex dump.
pub open spec fn dump_labels_text(len: nat) -> Seq<char> {
    if len >= MIN_REPORT_SIZE {
        "                  \u{251c}\u{2500}X\u{2500}\u{2500}\u{2518} \u{251c}\u{2500}Y\u{2500}\u{2500}\u{2518} \u{251c}\u{2500}Rz\u{2500}\u{2518} \u{251c}\u{2500}Sl\u{2500}\u{2518} \u{251c}\u{2500}Btn\u{2518} \u{2514}POV"@
    } else {
        "                  (unknown layout)"@
    }
}

/// The decoded fields of a report of the known layout: the four axes signed,
/// the button word and the hat byte in hex; nothing for a shorter report.
pub open spec fn dump_summary_text(b: Seq<u8>) -> Seq<char> {
    if b.len() >= MIN_REPORT_SIZE {
        "  X="@ + signed_text(i16_le(b[0], b[1])) + "  Y="@ + signed_text(i16_le(b[2], b[3])) + "  Rz="@
            + signed_text(i16_le(b[4], b[5])) + "  Sl="@ + signed_text(i16_le(b[6], b[7])) + "  Btn=0x"@
            + hex_padded(u16_le(b[8], b[9]) as nat, 3) + "  POV=0x"@ + hex_padded(b[10] as nat, 2)
    } else {
        Seq::empty()
    }
}

/// One report as the raw view shows it.
pub struct RawDump {
    /// Time and length, e.g. `[   142ms] len=11  `.
    pub header: String,
    /// The hex dump of the bytes.
    pub hex: String,
    /// The field labels under the dump.
    pub labels: &'static str,
    /// The decoded fields, empty when the layout is unknown.
    pub summary: String,
}

/// Lay out one report, received `elapsed_ms` after the view started, for the
/// raw view.
pub fn raw_dump(elapsed_ms: u64, bytes: &[u8]) -> (d: RawDump)
    ensures
        d.header@ == dump_header_text(elapsed_ms as nat, bytes@.len()),
        d.hex@ == hex_dump_text(bytes@),
        d.labels@ == dump_labels_text(bytes@.len()),
        d.summary@ == dump_summary_text(bytes@),
{
    let mut header = String::new();
    proof {
        reveal_strlit("[");
        reveal_strlit("ms] len=");
        reveal_strlit("  ");
    }
    header.append("[");
    push_right_aligned(&mut header, elapsed_ms, 6);
    header.append("ms] len=");
    push_right_aligned(&mut header, bytes.len() as u64, 2);
    header.append("  ");
    assert(header@ =~= dump_header_text(elapsed_ms as nat, bytes@.len()));

    let labels = if bytes.len() >= MIN_REPORT_SIZE {
        "                  \u{251c}\u{2500}X\u{2500}\u{2500}\u{2518} \u{251c}\u{2500}Y\u{2500}\u{2500}\u{2518} \u{251c}\u{2500}Rz\u{2500}\u{2518} \u{251c}\u{2500}Sl\u{2500}\u{2518} \u{251c}\u{2500}Btn\u{2518} \u{2514}POV"
    } else {
        "                  (unknown layout)"
    };

    let mut summary = String::new();
    if bytes.len() >= MIN_REPORT_SIZE {
        proof {
            reveal_strlit("  X=");
            reveal_strlit("  Y=");
            reveal_strlit("  Rz=");
            reveal_strlit("  Sl=");
            reveal_strlit("  Btn=0x");
            reveal_strlit("  POV=0x");
        }
        summary.append("  X=");
        push_signed(&mut summary, i16_from_le(bytes[0], bytes[1]));
        summary.append("  Y=");
        push_signed(&mut summary, i16_from_le(bytes[2], bytes[3]));
        summary.append("  Rz=");
        push_signed(&mut summary, i16_from_le(bytes[4], bytes[5]));
        summary.append("  Sl=");
        push_signed(&mut summary, i16_from_le(bytes[6], bytes[7]));
        summary.append("  Btn=0x");
        push_hex_padded(&mut summary, u16_from_le(bytes[8], bytes[9]) as u64, 3);
        summary.append("  POV=0x");
        push_hex_padded(&mut summary, bytes[10] as u64, 2);
    }
    assert(summary@ =~= dump_summary_text(bytes@));
    RawDump { header, hex: hex_dump(bytes), labels, summary }
}

} // verus!
