//! Capture and replay format for HID input reports (`.swcf` files).
//!
//! ```text
//! Header (16 bytes):
//!   magic:    [u8; 4] = b"SWCF"
//!   version:  u8      = 1
//!   reserved: [u8; 11]
//!
//! Records (repeated until the end):
//!   timestamp_ms: u32  — milliseconds since capture start (little-endian)
//!   len:          u8   — byte count of following data
//!   data:         [u8; len]
//! ```
//!
//! This module works on bytes; reading and writing files is left to the caller.

use vstd::prelude::*;
use vstd::string::StringExecFns;

use crate::bytes::{u32_from_le, u32_le, u32_to_le};
use crate::input::{parse_input_report, report_state_ok, InputState, MIN_REPORT_SIZE};

verus! {

// ── Constants ─────────────────────────────────────────────────────────────────

/// Current file format version.
pub const FILE_VERSION: u8 = 1;

/// Total header size in bytes.
pub const HEADER_LEN: usize = 16;

/// Maximum single-report byte count (the on-disk `len` field is a `u8`).
pub const MAX_REPORT_LEN: usize = 255;

/// The magic that starts every capture file: the ASCII bytes `SWCF`.
pub open spec fn magic() -> Seq<u8> {
    seq![0x53u8, 0x57u8, 0x43u8, 0x46u8]
}

/// The 16-byte file header: magic, version, eleven reserved zero bytes.
pub open spec fn header_bytes() -> Seq<u8> {
    magic() + seq![FILE_VERSION] + Seq::new(11, |i: int| 0u8)
}

// ── Error ─────────────────────────────────────────────────────────────────────

/// Errors from capture / replay operations.
#[derive(Debug, PartialEq, Eq)]
pub enum CaptureError {
    /// An I/O operation on the capture file failed, or the data ended inside
    /// the header or inside a record (message of the failure).
    Io(String),
    /// The file does not start with the expected magic bytes.
    BadMagic,
    /// The file version is not supported by this build.
    UnsupportedVersion(u8),
    /// A report was too large to write (write path only; the read path
    /// cannot produce this because the on-disk `len` field is a `u8`).
    RecordTooLarge(usize),
}

// ── Record ────────────────────────────────────────────────────────────────────

/// A single captured HID input report with its capture-relative timestamp.
#[derive(Debug, Clone, PartialEq, Eq)]
pub struct CaptureRecord {
    /// Milliseconds since the start of the capture session.
    pub timestamp_ms: u32,
    /// Raw HID report bytes (no report-ID prefix).
    pub data: Vec<u8>,
}

/// A record as plain values: its timestamp and its bytes.
pub open spec fn record_view(r: CaptureRecord) -> (u32, Seq<u8>) {
    (r.timestamp_ms, r.data@)
}

/// The records of a list as plain values.
pub open spec fn records_view(rs: Seq<CaptureRecord>) -> Seq<(u32, Seq<u8>)> {
    rs.map_values(|r: CaptureRecord| record_view(r))
}

/// The on-disk bytes of one record.
pub open spec fn record_bytes(r: (u32, Seq<u8>)) -> Seq<u8> {
    seq![
        (r.0 % 0x100) as u8,
        ((r.0 / 0x100) % 0x100) as u8,
        ((r.0 / 0x1_0000) % 0x100) as u8,
        (r.0 / 0x100_0000) as u8,
        r.1.len() as u8,
    ] + r.1
}

/// The on-disk bytes of a sequence of records, one after another.
pub open spec fn records_bytes(rs: Seq<(u32, Seq<u8>)>) -> Seq<u8>
    decreases rs.len(),
{
    if rs.len() == 0 {
        Seq::empty()
    } else {
        record_bytes(rs[0]) + records_bytes(rs.drop_first())
    }
}

/// A record is stored as its timestamp in four little-endian bytes, its
/// length in one byte, then its data.
pub proof fn lemma_record_layout(r: (u32, Seq<u8>))
    requires
        r.1.len() <= MAX_REPORT_LEN,
    ensures
        record_bytes(r).len() == 5 + r.1.len(),
        u32_le(record_bytes(r)[0], record_bytes(r)[1], record_bytes(r)[2], record_bytes(r)[3]) == r.0,
        record_bytes(r)[4] == r.1.len(),
        record_bytes(r).subrange(5, 5 + r.1.len() as int) == r.1,
{
    let b = record_bytes(r);
    let t = r.0 as int;
    assert(b[0] == t % 0x100);
    assert(b[1] == (t / 0x100) % 0x100);
    assert(b[2] == (t / 0x1_0000) % 0x100);
    assert(b[3] == t / 0x100_0000);
    assert(b.subrange(5, 5 + r.1.len() as int) =~= r.1);
}

/// Every record fits the format (at most 255 data bytes).
pub open spec fn records_fit(rs: Seq<(u32, Seq<u8>)>) -> bool {
    forall|i: int| 0 <= i < rs.len() ==> (#[trigger] rs[i]).1.len() <= MAX_REPORT_LEN
}

/// The records that a record area holds, or `None` when it ends inside a record.
pub open spec fn parse_records(s: Seq<u8>) -> Option<Seq<(u32, Seq<u8>)>>
    decreases s.len(),
{
    if s.len() == 0 {
        Some(Seq::empty())
    } else if s.len() < 5 {
        None
    } else if s.len() < 5 + s[4] {
        None
    } else {
        let rec = (u32_le(s[0], s[1], s[2], s[3]) as u32, s.subrange(5, 5 + s[4]));
        match parse_records(s.skip(5 + s[4])) {
            Some(rest) => Some(seq![rec] + rest),
            None => None,
        }
    }
}

/// Why a capture does not decode.
#[derive(Debug, Clone, Copy, PartialEq, Eq, Structural)]
pub enum CaptureFault {
    /// The data ends inside the header or inside a record.
    Truncated,
    /// The data does not start with the magic bytes.
    BadMagic,
    /// The header names another version.
    UnsupportedVersion(u8),
}

/// What decoding a whole capture gives: why it fails, or the records.
pub open spec fn parse_capture(s: Seq<u8>) -> Result<Seq<(u32, Seq<u8>)>, CaptureFault> {
    if s.len() < HEADER_LEN {
        Err(CaptureFault::Truncated)
    } else if s.subrange(0, 4) != magic() {
        Err(CaptureFault::BadMagic)
    } else if s[4] != FILE_VERSION {
        Err(CaptureFault::UnsupportedVersion(s[4]))
    } else {
        match parse_records(s.skip(HEADER_LEN as int)) {
            Some(rs) => Ok(rs),
            None => Err(CaptureFault::Truncated),
        }
    }
}

/// The message of the I/O error a truncated capture gives.
pub open spec fn truncated_text() -> Seq<char> {
    "unexpected end of file"@
}

/// The error reported for a fault: a truncated capture is an I/O error with
/// the unexpected-end-of-file message, the others have variants of their own.
pub open spec fn reports_fault(e: CaptureError, f: CaptureFault) -> bool {
    match f {
        CaptureFault::Truncated => e matches CaptureError::Io(m) && m@ == truncated_text(),
        CaptureFault::BadMagic => e == CaptureError::BadMagic,
        CaptureFault::UnsupportedVersion(v) => e == CaptureError::UnsupportedVersion(v),
    }
}

/// The I/O error of a truncated capture.
fn truncated() -> (e: CaptureError)
    ensures
        reports_fault(e, CaptureFault::Truncated),
{
    proof {
        reveal_strlit("unexpected end of file");
    }
    CaptureError::Io(String::from_str("unexpected end of file"))
}

// ── Encoding ──────────────────────────────────────────────────────────────────

/// The 16-byte file header.
pub fn capture_header() -> (h: Vec<u8>)
    ensures
        h@ == header_bytes(),
{
    let mut h: Vec<u8> = vec![0x53, 0x57, 0x43, 0x46, FILE_VERSION];
    let mut i: usize = 0;
    while i < 11
        invariant
            i <= 11,
            h@ == seq![0x53u8, 0x57u8, 0x43u8, 0x46u8, FILE_VERSION] + Seq::new(
                i as nat,
                |j: int| 0u8,
            ),
        decreases 11 - i,
    {
        h.push(0);
        i = i + 1;
        proof {
            assert(h@ =~= seq![0x53u8, 0x57u8, 0x43u8, 0x46u8, FILE_VERSION] + Seq::new(
                i as nat,
                |j: int| 0u8,
            ));
        }
    }
    proof {
        assert(h@ =~= header_bytes());
    }
    h
}

/// Encode one record: the timestamp (u32 LE), the length byte, the data.
///
/// Returns [`CaptureError::RecordTooLarge`] if `data` exceeds 255 bytes.
pub fn encode_record(timestamp_ms: u32, data: &[u8]) -> (res: Result<Vec<u8>, CaptureError>)
    ensures
        data@.len() > MAX_REPORT_LEN ==> res == Err::<Vec<u8>, CaptureError>(
            CaptureError::RecordTooLarge(data@.len() as usize),
        ),
        data@.len() <= MAX_REPORT_LEN ==> res.is_ok() && res.unwrap()@ == record_bytes(
            (timestamp_ms, data@),
        ),
{
    if data.len() > MAX_REPORT_LEN {
        return Err(CaptureError::RecordTooLarge(data.len()));
    }
    let (b0, b1, b2, b3) = u32_to_le(timestamp_ms);
    let mut out: Vec<u8> = vec![b0, b1, b2, b3, data.len() as u8];
    let ghost head = out@;
    let mut i: usize = 0;
    while i < data.len()
        invariant
            i <= data@.len(),
            out@ == head + data@.subrange(0, i as int),
        decreases data@.len() - i,
    {
        out.push(data[i]);
        i = i + 1;
        proof {
            assert(out@ =~= head + data@.subrange(0, i as int));
        }
    }
    proof {
        assert(data@.subrange(0, data@.len() as int) =~= data@);
        assert(out@ =~= record_bytes((timestamp_ms, data@)));
    }
    Ok(out)
}

// ── Decoding ──────────────────────────────────────────────────────────────────

/// Decode a whole capture: check the header, then read records to the end.
///
/// Returns [`CaptureError::Io`] with an unexpected-end-of-file message if
/// the data ends inside the header or inside a record, [`CaptureError::BadMagic`] if it does not start with
/// `SWCF`, and [`CaptureError::UnsupportedVersion`] for other versions.
pub fn decode_capture(bytes: &[u8]) -> (res: Result<Vec<CaptureRecord>, CaptureError>)
    ensures
        match (res, parse_capture(bytes@)) {
            (Ok(rs), Ok(expected)) => records_view(rs@) == expected,
            (Err(e), Err(expected)) => reports_fault(e, expected),
            _ => false,
        },
{
    let len = bytes.len();
    if len < HEADER_LEN {
        return Err(truncated());
    }
    if !(bytes[0] == 0x53 && bytes[1] == 0x57 && bytes[2] == 0x43 && bytes[3] == 0x46) {
        proof {
            if bytes@.subrange(0, 4) == magic() {
                assert(bytes@.subrange(0, 4)[0] == bytes@[0]);
                assert(bytes@.subrange(0, 4)[1] == bytes@[1]);
                assert(bytes@.subrange(0, 4)[2] == bytes@[2]);
                assert(bytes@.subrange(0, 4)[3] == bytes@[3]);
            }
        }
        return Err(CaptureError::BadMagic);
    }
    proof {
        assert(bytes@.subrange(0, 4) =~= magic());
    }
    if bytes[4] != FILE_VERSION {
        return Err(CaptureError::UnsupportedVersion(bytes[4]));
    }
    let mut records: Vec<CaptureRecord> = Vec::new();
    let mut pos: usize = HEADER_LEN;
    while pos < len
        invariant
            len == bytes@.len(),
            HEADER_LEN <= pos <= len,
            bytes@.subrange(0, 4) == magic(),
            bytes@[4] == FILE_VERSION,
            parse_records(bytes@.skip(HEADER_LEN as int)) == match parse_records(
                bytes@.skip(pos as int),
            ) {
                Some(rest) => Some(records_view(records@) + rest),
                None => None::<Seq<(u32, Seq<u8>)>>,
            },
        decreases len - pos,
    {
        let ghost s = bytes@.skip(pos as int);
        if len - pos < 5 {
            proof {
                assert(s.len() == len - pos);
                assert(parse_records(s) == None::<Seq<(u32, Seq<u8>)>>);
            }
            return Err(truncated());
        }
        let n = bytes[pos + 4] as usize;
        if len - pos - 5 < n {
            proof {
                assert(s.len() == len - pos);
                assert(s[4] == bytes@[pos + 4]);
                assert(parse_records(s) == None::<Seq<(u32, Seq<u8>)>>);
            }
            return Err(truncated());
        }
        let timestamp_ms = u32_from_le(bytes[pos], bytes[pos + 1], bytes[pos + 2], bytes[pos + 3]);
        let mut data: Vec<u8> = Vec::new();
        let mut i: usize = 0;
        while i < n
            invariant
                len == bytes@.len(),
                pos + 5 + n <= len,
                i <= n,
                data@ == bytes@.subrange(pos + 5, pos + 5 + i),
            decreases n - i,
        {
            data.push(bytes[pos + 5 + i]);
            i = i + 1;
            proof {
                assert(data@ =~= bytes@.subrange(pos + 5, pos + 5 + i));
            }
        }
        let ghost old_records = records@;
        let rec = CaptureRecord { timestamp_ms, data };
        records.push(rec);
        proof {
            assert(s[0] == bytes@[pos as int] && s[1] == bytes@[pos + 1] && s[2] == bytes@[pos + 2]
                && s[3] == bytes@[pos + 3] && s[4] == bytes@[pos + 4]);
            assert(s.subrange(5, 5 + s[4]) =~= bytes@.subrange(pos + 5, pos + 5 + n));
            assert(s.skip(5 + s[4]) =~= bytes@.skip(pos + 5 + n));
            assert(records_view(records@) =~= records_view(old_records).push(
                (timestamp_ms, bytes@.subrange(pos + 5, pos + 5 + n)),
            ));
            match parse_records(bytes@.skip(pos + 5 + n)) {
                Some(rest) => {
                    assert(records_view(records@) + rest =~= records_view(old_records) + (seq![
                        (timestamp_ms, bytes@.subrange(pos + 5, pos + 5 + n)),
                    ] + rest));
                },
                None => {},
            }
        }
        pos = pos + 5 + n;
    }
    proof {
        assert(bytes@.skip(pos as int) =~= Seq::<u8>::empty());
        assert(records_view(records@) + Seq::empty() =~= records_view(records@));
    }
    Ok(records)
}

/// Decoding the bytes of well-formed records gives those records back.
pub proof fn lemma_records_roundtrip(rs: Seq<(u32, Seq<u8>)>)
    requires
        records_fit(rs),
    ensures
        parse_records(records_bytes(rs)) == Some(rs),
    decreases rs.len(),
{
    if rs.len() == 0 {
        assert(rs =~= Seq::<(u32, Seq<u8>)>::empty());
    } else {
        let r = rs[0];
        let tail = rs.drop_first();
        assert(records_fit(tail)) by {
            assert forall|i: int| 0 <= i < tail.len() implies (#[trigger] tail[i]).1.len()
                <= MAX_REPORT_LEN by {
                assert(tail[i] == rs[i + 1]);
            }
        }
        lemma_records_roundtrip(tail);
        let s = records_bytes(rs);
        assert(s == record_bytes(r) + records_bytes(tail));
        let n: int = r.1.len() as int;
        assert(r.1.len() <= MAX_REPORT_LEN);
        assert(s[4] == n);
        assert(s.subrange(5, 5 + n) =~= r.1);
        assert(s.skip(5 + n) =~= records_bytes(tail));
        let t = r.0 as int;
        assert(u32_le(s[0], s[1], s[2], s[3]) == t);
        assert(seq![r] + tail =~= rs);
    }
}

/// A capture made of the header and the bytes of well-formed records decodes
/// to exactly those records.
pub proof fn lemma_capture_roundtrip(rs: Seq<(u32, Seq<u8>)>)
    requires
        records_fit(rs),
    ensures
        parse_capture(header_bytes() + records_bytes(rs)) == Ok::<
            Seq<(u32, Seq<u8>)>,
            CaptureFault,
        >(rs),
{
    let s = header_bytes() + records_bytes(rs);
    lemma_records_roundtrip(rs);
    assert(s.subrange(0, 4) =~= magic());
    assert(s.skip(HEADER_LEN as int) =~= records_bytes(rs));
}

// ── Replay ────────────────────────────────────────────────────────────────────

/// The records of a list that parse as input reports (at least 11 bytes).
pub open spec fn parseable(rs: Seq<CaptureRecord>) -> Seq<CaptureRecord> {
    rs.filter(|r: CaptureRecord| r.data@.len() >= MIN_REPORT_SIZE)
}

/// Parse every record through [`parse_input_report`] and keep those that
/// parse, each beside its decoded state, in their original order; records
/// that do not parse (too short) are skipped.
pub fn replay_records(records: Vec<CaptureRecord>) -> (out: Vec<(CaptureRecord, InputState)>)
    ensures
        out@.map_values(|p: (CaptureRecord, InputState)| record_view(p.0)) == records_view(
            parseable(records@),
        ),
        forall|i: int|
            0 <= i < out@.len() ==> report_state_ok(
                (#[trigger] out@[i]).0.data@,
                out@[i].1,
            ),
{
    let ghost all = records@;
    let mut out: Vec<(CaptureRecord, InputState)> = Vec::new();
    let mut rest = records;
    let mut i: usize = 0;
    let n = rest.len();
    while i < n
        invariant
            n == all.len(),
            i <= n,
            rest@.len() == n,
            forall|j: int| i <= j < n ==> #[trigger] rest@[j] == all[j],
            out@.map_values(|p: (CaptureRecord, InputState)| record_view(p.0)) == records_view(
                parseable(all.take(i as int)),
            ),
            forall|j: int|
                0 <= j < out@.len() ==> report_state_ok((#[trigger] out@[j]).0.data@, out@[j].1),
        decreases n - i,
    {
        let mut rec = CaptureRecord { timestamp_ms: 0, data: Vec::new() };
        std::mem::swap(&mut rest[i], &mut rec);
        let ghost before = out@;
        proof {
            assert(all.take(i + 1) =~= all.take(i as int).push(all[i as int]));
            lemma_filter_push(all.take(i as int), all[i as int]);
        }
        match parse_input_report(rec.data.as_slice()) {
            Ok(state) => {
                out.push((rec, state));
                proof {
                    assert(out@.map_values(|p: (CaptureRecord, InputState)| record_view(p.0))
                        =~= before.map_values(
                        |p: (CaptureRecord, InputState)| record_view(p.0),
                    ).push(record_view(all[i as int])));
                    assert(records_view(parseable(all.take(i as int)).push(all[i as int]))
                        =~= records_view(parseable(all.take(i as int))).push(
                        record_view(all[i as int]),
                    ));
                }
            },
            Err(_) => {},
        }
        i = i + 1;
    }
    proof {
        assert(all.take(n as int) =~= all);
    }
    out
}

/// Filtering a list extended by one record extends the filtered list by that
/// record exactly when it parses.
proof fn lemma_filter_push(rs: Seq<CaptureRecord>, r: CaptureRecord)
    ensures
        parseable(rs.push(r)) == if r.data@.len() >= MIN_REPORT_SIZE {
            parseable(rs).push(r)
        } else {
            parseable(rs)
        },
{
    reveal(Seq::filter);
    assert(rs.push(r).drop_last() =~= rs);
}

/// Decode a capture and replay it: every record that parses as an input
/// report, beside its decoded state, in file order.
pub fn replay_capture(bytes: &[u8]) -> (res: Result<Vec<(CaptureRecord, InputState)>, CaptureError>)
    ensures
        match (res, parse_capture(bytes@)) {
            (Ok(out), Ok(expected)) => out@.map_values(
                |p: (CaptureRecord, InputState)| record_view(p.0),
            ) == expected.filter(|r: (u32, Seq<u8>)| r.1.len() >= MIN_REPORT_SIZE) && forall|
                i: int,
            |
                0 <= i < out@.len() ==> report_state_ok((#[trigger] out@[i]).0.data@, out@[i].1),
            (Err(e), Err(expected)) => reports_fault(e, expected),
            _ => false,
        },
{
    let records = decode_capture(bytes)?;
    let ghost rs = records@;
    let out = replay_records(records);
    proof {
        lemma_filter_view(rs);
    }
    Ok(out)
}

/// Filtering commutes with taking the plain view of the records.
proof fn lemma_filter_view(rs: Seq<CaptureRecord>)
    ensures
        records_view(parseable(rs)) == records_view(rs).filter(
            |r: (u32, Seq<u8>)| r.1.len() >= MIN_REPORT_SIZE,
        ),
    decreases rs.len(),
{
    reveal(Seq::filter);
    if rs.len() == 0 {
        assert(records_view(parseable(rs)) =~= Seq::<(u32, Seq<u8>)>::empty());
        assert(records_view(rs) =~= Seq::<(u32, Seq<u8>)>::empty());
    } else {
        let init = rs.drop_last();
        lemma_filter_view(init);
        assert(records_view(rs).drop_last() =~= records_view(init));
        assert(records_view(rs).last() == record_view(rs.last()));
        if rs.last().data@.len() >= MIN_REPORT_SIZE {
            assert(records_view(parseable(init).push(rs.last())) =~= records_view(
                parseable(init),
            ).push(record_view(rs.last())));
        }
    }
}

} // verus!
