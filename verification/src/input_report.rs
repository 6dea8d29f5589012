//! Virtual-device input report construction and the pending-snapshot slot.
//!
//! The userspace app pushes a new [`InputSnapshot`] to the driver; the driver
//! answers HID read requests with the report built from it.
//!
//! Report layout (no Report ID): bytes 0–7 four axes (i16 LE), bytes 8–9
//! buttons 1–9 (low 9 bits), byte 10 hat switch nibble in the high half.

use vstd::prelude::*;

use vstd::arithmetic::div_mod::lemma_fundamental_div_mod_converse;

use crate::bytes::{i16_bits, i16_hi, i16_le, i16_lo, i16_to_le, lemma_i16_bytes, lemma_u16_bytes, u16_hi, u16_le, u16_lo};

verus! {

/// Byte length of one HID input report (no report-ID prefix).
pub const REPORT_LEN: usize = 11;

/// Joystick state as pushed from the userspace app to the driver.
#[derive(Debug, Clone, Copy)]
pub struct InputSnapshot {
    /// Axes in signed 16-bit range.  Index order: X, Y, Z, Rz.
    pub axes: [i16; 4],
    /// Button bitfield (low 9 bits = buttons 1–9).
    pub buttons: u16,
    /// Hat switch value (0 = N … 7 = NW, 0xFF = centred).
    pub pov: u8,
}

/// The hat byte of the report: the direction in the high nibble (low nibble
/// zero), or `0xFF` for anything that is not a direction 0–7.
pub open spec fn hat_byte(pov: u8) -> u8 {
    if pov <= 7 {
        (pov * 16) as u8
    } else {
        0xFF
    }
}

/// Byte `k` of the report for a snapshot: the axes little-endian at bytes
/// 0–7, the low nine button bits at bytes 8–9, the hat byte at byte 10.
pub open spec fn report_byte(s: InputSnapshot, k: int) -> u8 {
    if k < 8 {
        if k % 2 == 0 {
            i16_lo(s.axes@[k / 2])
        } else {
            i16_hi(s.axes@[k / 2])
        }
    } else if k == 8 {
        u16_lo((s.buttons % 512) as u16)
    } else if k == 9 {
        u16_hi((s.buttons % 512) as u16)
    } else {
        hat_byte(s.pov)
    }
}

/// The 11-byte report for a snapshot.
pub open spec fn snapshot_report(s: InputSnapshot) -> Seq<u8> {
    Seq::new(REPORT_LEN as nat, |k: int| report_byte(s, k))
}

/// The input report follows the layout the report descriptor declares:
/// the four axes as signed little-endian words at bytes 0-7, the nine button
/// bits (buttons 1-9) in the word at bytes 8-9 with the seven padding bits
/// clear, and the hat direction in the high nibble of byte 10 (low nibble
/// clear), or 0xFF when centred.
pub proof fn lemma_report_layout(s: InputSnapshot)
    ensures
        snapshot_report(s).len() == 11,
        forall|k: int| 0 <= k < 4 ==> i16_le(#[trigger] snapshot_report(s)[2 * k], snapshot_report(s)[2 * k + 1]) == s.axes@[k],
        u16_le(snapshot_report(s)[8], snapshot_report(s)[9]) == s.buttons % 512,
        u16_le(snapshot_report(s)[8], snapshot_report(s)[9]) < 512,
        s.pov <= 7 ==> snapshot_report(s)[10] / 16 == s.pov && snapshot_report(s)[10] % 16 == 0,
        s.pov > 7 ==> snapshot_report(s)[10] == 0xFF,
{
    let r = snapshot_report(s);
    assert forall|k: int| 0 <= k < 4 implies i16_le(#[trigger] r[2 * k], r[2 * k + 1]) == s.axes@[k] by {
        assert(r[2 * k] == report_byte(s, 2 * k));
        assert(r[2 * k + 1] == report_byte(s, 2 * k + 1));
        assert((2 * k) / 2 == k && (2 * k + 1) / 2 == k);
        lemma_i16_bytes(s.axes@[k]);
    }
    lemma_u16_bytes((s.buttons % 512) as u16);
    assert(r[8] == report_byte(s, 8));
    assert(r[9] == report_byte(s, 9));
    assert(r[10] == report_byte(s, 10));
}

impl InputSnapshot {
    /// Build the 11-byte HID input report for this snapshot.
    pub fn to_report(self) -> (r: [u8; 11])
        ensures
            r@ == snapshot_report(self),
    {
        let mut buf = [0u8; 11];
        let mut i: usize = 0;
        while i < 4
            invariant
                i <= 4,
                buf@.len() == 11,
                forall|k: int| 0 <= k < 2 * i ==> #[trigger] buf@[k] == report_byte(self, k),
            decreases 4 - i,
        {
            let (lo, hi) = i16_to_le(self.axes[i]);
            buf[i * 2] = lo;
            buf[i * 2 + 1] = hi;
            i = i + 1;
        }
        let btn = self.buttons % 512;
        buf[8] = (btn % 256) as u8;
        buf[9] = (btn / 256) as u8;
        buf[10] = if self.pov <= 7 {
            self.pov * 16
        } else {
            0xFF
        };
        proof {
            assert(buf@ =~= snapshot_report(self));
        }
        buf
    }
}

impl Default for InputSnapshot {
    /// A centred, no-buttons, hat-null snapshot — safe default.
    fn default() -> (s: Self)
        ensures
            s.axes@ == seq![0i16, 0, 0, 0],
            s.buttons == 0,
            s.pov == 0xFF,
    {
        Self { axes: [0; 4], buttons: 0, pov: 0xFF }
    }
}

// ── Packed form ───────────────────────────────────────────────────────────────

/// The four axes packed into one 64-bit word, X in the lowest 16 bits.
pub open spec fn packed_axes(a: Seq<i16>) -> int {
    i16_bits(a[0]) + 0x1_0000 * i16_bits(a[1]) + 0x1_0000_0000 * i16_bits(a[2])
        + 0x1_0000_0000_0000 * i16_bits(a[3])
}

/// The signed value of a 16-bit pattern.
pub open spec fn from_bits16(u: int) -> int {
    if u < 0x8000 {
        u
    } else {
        u - 0x1_0000
    }
}

/// Field `k` (0 = lowest) of a word read as four signed 16-bit values.
pub open spec fn packed_field(v: u64, k: int) -> int {
    from_bits16((v as int / pow16k(k)) % 0x1_0000)
}

/// `0x10000` raised to `k` for the four field positions.
pub open spec fn pow16k(k: int) -> int {
    if k == 0 {
        1
    } else if k == 1 {
        0x1_0000
    } else if k == 2 {
        0x1_0000_0000
    } else {
        0x1_0000_0000_0000
    }
}

/// The unsigned pattern of a signed 16-bit value, as a `u64`.
fn bits_u64(v: i16) -> (r: u64)
    ensures
        r == i16_bits(v),
{
    if v >= 0 {
        v as u64
    } else {
        (v as i32 + 0x1_0000) as u64
    }
}

/// The signed value of the low 16 bits of a field.
fn field_i16(u: u64) -> (r: i16)
    requires
        u < 0x1_0000,
    ensures
        r == from_bits16(u as int),
{
    if u < 0x8000 {
        u as i16
    } else {
        (u as i32 - 0x1_0000) as i16
    }
}

/// Pack a snapshot's axes into a single u64 for the snapshot slot.
///
/// Only the axes travel in the packed form; buttons and hat are not kept.
pub fn pack_snapshot(s: InputSnapshot) -> (v: u64)
    ensures
        v == packed_axes(s.axes@),
{
    let x = bits_u64(s.axes[0]);
    let y = bits_u64(s.axes[1]);
    let z = bits_u64(s.axes[2]);
    let r = bits_u64(s.axes[3]);
    x + y * 0x1_0000 + z * 0x1_0000_0000 + r * 0x1_0000_0000_0000
}

/// Unpack the axes of a packed word; buttons are zero and the hat is null.
pub fn unpack_snapshot(v: u64) -> (s: InputSnapshot)
    ensures
        forall|k: int| 0 <= k < 4 ==> #[trigger] s.axes@[k] == packed_field(v, k),
        s.buttons == 0,
        s.pov == 0xFF,
{
    let s = InputSnapshot {
        axes: [
            field_i16(v % 0x1_0000),
            field_i16((v / 0x1_0000) % 0x1_0000),
            field_i16((v / 0x1_0000_0000) % 0x1_0000),
            field_i16((v / 0x1_0000_0000_0000) % 0x1_0000),
        ],
        buttons: 0,
        pov: 0xFF,
    };
    proof {
        assert forall|k: int| 0 <= k < 4 implies #[trigger] s.axes@[k] == packed_field(v, k) by {
            assert(pow16k(0) == 1);
        }
    }
    s
}

/// Unpacking a packed snapshot gives back its four axes.
pub proof fn lemma_pack_roundtrip(s: InputSnapshot)
    ensures
        forall|k: int| 0 <= k < 4 ==> packed_field(packed_axes(s.axes@) as u64, k) == s.axes@[k],
{
    let a = s.axes@;
    let b0 = i16_bits(a[0]);
    let b1 = i16_bits(a[1]);
    let b2 = i16_bits(a[2]);
    let b3 = i16_bits(a[3]);
    let v = packed_axes(a);
    assert(0 <= b0 < 0x1_0000 && 0 <= b1 < 0x1_0000 && 0 <= b2 < 0x1_0000 && 0 <= b3 < 0x1_0000);
    let k1: int = 0x1_0000;
    let k2: int = 0x1_0000_0000;
    let k3: int = 0x1_0000_0000_0000;
    let w1 = b1 + k1 * (b2 + k1 * b3);
    let w2 = b2 + k1 * b3;
    assert(v == w1 * k1 + b0);
    lemma_fundamental_div_mod_converse(v, k1, w1, b0);
    assert(w1 == w2 * k1 + b1);
    lemma_fundamental_div_mod_converse(w1, k1, w2, b1);
    assert(v == w2 * k2 + (b0 + k1 * b1));
    lemma_fundamental_div_mod_converse(v, k2, w2, b0 + k1 * b1);
    assert(w2 == b3 * k1 + b2);
    lemma_fundamental_div_mod_converse(w2, k1, b3, b2);
    assert(v == b3 * k3 + (b0 + k1 * b1 + k2 * b2));
    lemma_fundamental_div_mod_converse(v, k3, b3, b0 + k1 * b1 + k2 * b2);
    lemma_fundamental_div_mod_converse(b3, k1, 0, b3);
    assert(0 <= v < 0x1_0000_0000_0000_0000);
    assert(v as u64 as int == v);
}

// ── Snapshot slot ─────────────────────────────────────────────────────────────

/// Holds the latest pushed snapshot (packed) and whether it is still unread.
pub struct InputQueue {
    /// Most-recently-pushed snapshot, packed.
    current: u64,
    /// Whether there is a new snapshot that hasn't been consumed yet.
    dirty: bool,
}

impl InputQueue {
    /// The packed word of the latest snapshot.
    pub closed spec fn latest(&self) -> u64 {
        self.current
    }

    /// Whether the latest snapshot has not been taken yet.
    pub closed spec fn unread(&self) -> bool {
        self.dirty
    }

    /// Create a centred queue with no pending snapshot.
    pub fn new() -> (q: Self)
        ensures
            q.latest() == 0,
            !q.unread(),
    {
        Self { current: 0, dirty: false }
    }

    /// Store a new snapshot.  Returns the packed u64 representation.
    pub fn push(&mut self, snap: InputSnapshot) -> (v: u64)
        ensures
            v == packed_axes(snap.axes@),
            final(self).latest() == v,
            final(self).unread(),
    {
        let packed = pack_snapshot(snap);
        self.current = packed;
        self.dirty = true;
        packed
    }

    /// Take the current snapshot if one has been pushed since the last take.
    /// Returns `None` if no new data is available.
    pub fn take(&mut self) -> (s: Option<InputSnapshot>)
        ensures
            !final(self).unread(),
            final(self).latest() == old(self).latest(),
            old(self).unread() ==> s.is_some() && (forall|k: int|
                0 <= k < 4 ==> #[trigger] s.unwrap().axes@[k] == packed_field(old(self).latest(), k))
                && s.unwrap().buttons == 0 && s.unwrap().pov == 0xFF,
            !old(self).unread() ==> s.is_none(),
    {
        if self.dirty {
            self.dirty = false;
            Some(unpack_snapshot(self.current))
        } else {
            None
        }
    }
}

} // verus!
