//! Wire protocol between the bridge service and the settings GUI.
//!
//! The protocol is a simple length-prefixed binary framing over a named pipe.
//! The service is the server; the GUI connects as the client.  Data flows
//! server → client only.

use vstd::prelude::*;

use crate::bytes::{
    i16_from_le, i16_hi, i16_le, i16_lo, i16_to_le, lemma_i16_bytes, lemma_u16_bytes, u16_from_le, u16_hi, u16_le,
    u16_lo, u16_to_le, u32_from_le, u32_le,
};

verus! {

// ── Constants ─────────────────────────────────────────────────────────────────

/// Named pipe that the service creates and the GUI connects to.
pub const PIPE_NAME: &'static str = "\\\\.\\pipe\\SidewinderGui";

/// Number of bytes used by the length prefix in a framed message.
pub const FRAME_PREFIX_LEN: usize = 4;

/// Number of bytes in the `GuiFrame` payload (wire format).
pub const FRAME_PAYLOAD_LEN: usize = 22;

/// Total wire size of one framed `GuiFrame`: prefix + payload.
pub const FRAME_TOTAL_LEN: usize = 26;

// ── Error ─────────────────────────────────────────────────────────────────────

/// Errors from decoding protocol frames.
#[derive(Debug, PartialEq, Eq, Structural)]
pub enum ProtocolError {
    /// The buffer is shorter than a complete frame.
    TooShort { need: usize, have: usize },
    /// The length prefix does not match the expected payload size.
    LengthMismatch { expected: usize, got: usize },
}

// ── GuiFrame ──────────────────────────────────────────────────────────────────

/// A live-state snapshot sent from the service to the GUI at ~30 Hz.
///
/// # Wire format
///
/// Serialised field-by-field in little-endian order: `axes` at offset 0
/// (16 bytes), `buttons` at 16 (2), `pov` at 18, `connected` at 19,
/// `ffb_enabled` at 20, `ffb_gain` at 21.  Total: 22 bytes.
#[derive(Debug, Clone, Copy, PartialEq, Eq)]
pub struct GuiFrame {
    /// Raw axis values `[X, Y, Rz, Slider, …]` from the HID input state.
    pub axes: [i16; 8],
    /// Raw button bitmask from the HID input state.
    pub buttons: u16,
    /// POV hat direction encoded as 0–7 (North = 0, clockwise), 0xFF = centre.
    pub pov: u8,
    /// 1 = physical device connected, 0 = disconnected / reconnecting.
    pub connected: u8,
    /// 1 = FFB actuators enabled, 0 = disabled.
    pub ffb_enabled: u8,
    /// FFB gain 0–255 (255 = full gain).
    pub ffb_gain: u8,
}

impl Default for GuiFrame {
    fn default() -> (f: Self)
        ensures
            forall|i: int| 0 <= i < 8 ==> f.axes@[i] == 0,
            f.buttons == 0,
            f.pov == 0,
            f.connected == 0,
            f.ffb_enabled == 0,
            f.ffb_gain == 0,
    {
        GuiFrame { axes: [0i16; 8], buttons: 0, pov: 0, connected: 0, ffb_enabled: 0, ffb_gain: 0 }
    }
}

/// `p` is the 22-byte payload of frame `f`.
pub open spec fn is_payload_of(p: Seq<u8>, f: GuiFrame) -> bool {
    &&& p.len() == FRAME_PAYLOAD_LEN
    &&& forall|i: int|
        0 <= i < 8 ==> #[trigger] p[2 * i] == i16_lo(f.axes@[i]) && p[2 * i + 1] == i16_hi(
            f.axes@[i],
        )
    &&& p[16] == u16_lo(f.buttons)
    &&& p[17] == u16_hi(f.buttons)
    &&& p[18] == f.pov
    &&& p[19] == f.connected
    &&& p[20] == f.ffb_enabled
    &&& p[21] == f.ffb_gain
}

/// The first 22 bytes of `p` decode to frame `f`.
pub open spec fn decodes_to(p: Seq<u8>, f: GuiFrame) -> bool {
    &&& p.len() >= FRAME_PAYLOAD_LEN
    &&& forall|i: int| 0 <= i < 8 ==> #[trigger] f.axes@[i] == i16_le(p[2 * i], p[2 * i + 1])
    &&& f.buttons == u16_le(p[16], p[17])
    &&& f.pov == p[18]
    &&& f.connected == p[19]
    &&& f.ffb_enabled == p[20]
    &&& f.ffb_gain == p[21]
}

/// `w` is the 26-byte wire frame of `f`: the payload length 22 as a
/// little-endian `u32`, then the payload.
pub open spec fn is_wire_of(w: Seq<u8>, f: GuiFrame) -> bool {
    &&& w.len() == FRAME_TOTAL_LEN
    &&& w[0] == 22 && w[1] == 0 && w[2] == 0 && w[3] == 0
    &&& is_payload_of(w.subrange(4, 26), f)
}

/// Two frames carry the same field values.
pub open spec fn same_frame(a: GuiFrame, b: GuiFrame) -> bool {
    &&& a.axes@ == b.axes@
    &&& a.buttons == b.buttons
    &&& a.pov == b.pov
    &&& a.connected == b.connected
    &&& a.ffb_enabled == b.ffb_enabled
    &&& a.ffb_gain == b.ffb_gain
}

impl GuiFrame {
    /// Serialise into a 22-byte payload (little-endian fields).
    ///
    /// This is the raw payload; call [`encode`](GuiFrame::encode) to get a
    /// length-prefixed frame ready for the pipe.
    pub fn to_payload(&self) -> (out: [u8; 22])
        ensures
            is_payload_of(out@, *self),
    {
        let mut out = [0u8; 22];
        let mut i: usize = 0;
        while i < 8
            invariant
                i <= 8,
                out@.len() == 22,
                forall|j: int|
                    0 <= j < i ==> #[trigger] out@[2 * j] == i16_lo(self.axes@[j]) && out@[2 * j
                        + 1] == i16_hi(self.axes@[j]),
            decreases 8 - i,
        {
            let (lo, hi) = i16_to_le(self.axes[i]);
            out[i * 2] = lo;
            out[i * 2 + 1] = hi;
            i = i + 1;
        }
        let (b0, b1) = u16_to_le(self.buttons);
        out[16] = b0;
        out[17] = b1;
        out[18] = self.pov;
        out[19] = self.connected;
        out[20] = self.ffb_enabled;
        out[21] = self.ffb_gain;
        out
    }

    /// Deserialise from a raw payload slice of at least 22 bytes.
    ///
    /// Any trailing bytes beyond the payload are ignored.  Returns
    /// [`ProtocolError::TooShort`] if `payload` is shorter than 22 bytes.
    pub fn from_payload(payload: &[u8]) -> (res: Result<Self, ProtocolError>)
        ensures
            payload@.len() < FRAME_PAYLOAD_LEN ==> res == Err::<GuiFrame, ProtocolError>(
                ProtocolError::TooShort { need: FRAME_PAYLOAD_LEN, have: payload@.len() as usize },
            ),
            payload@.len() >= FRAME_PAYLOAD_LEN ==> res.is_ok() && decodes_to(
                payload@,
                res.unwrap(),
            ),
    {
        if payload.len() < FRAME_PAYLOAD_LEN {
            return Err(ProtocolError::TooShort { need: FRAME_PAYLOAD_LEN, have: payload.len() });
        }
        Ok(Self::decode_at(payload, 0))
    }

    /// Decode the payload that starts at `offset`.
    fn decode_at(buf: &[u8], offset: usize) -> (f: Self)
        requires
            offset + FRAME_PAYLOAD_LEN <= buf@.len(),
        ensures
            decodes_to(buf@.subrange(offset as int, buf@.len() as int), f),
    {
        let ghost p = buf@.subrange(offset as int, buf@.len() as int);
        let len = buf.len();
        let mut axes = [0i16; 8];
        let mut i: usize = 0;
        while i < 8
            invariant
                i <= 8,
                offset + FRAME_PAYLOAD_LEN <= buf@.len(),
                len == buf@.len(),
                p == buf@.subrange(offset as int, buf@.len() as int),
                forall|j: int| 0 <= j < i ==> #[trigger] axes@[j] == i16_le(p[2 * j], p[2 * j + 1]),
            decreases 8 - i,
        {
            axes[i] = i16_from_le(buf[offset + i * 2], buf[offset + i * 2 + 1]);
            i = i + 1;
        }
        GuiFrame {
            axes,
            buttons: u16_from_le(buf[offset + 16], buf[offset + 17]),
            pov: buf[offset + 18],
            connected: buf[offset + 19],
            ffb_enabled: buf[offset + 20],
            ffb_gain: buf[offset + 21],
        }
    }

    /// Encode into a 26-byte wire frame (4-byte LE length + payload).
    pub fn encode(&self) -> (out: [u8; 26])
        ensures
            is_wire_of(out@, *self),
    {
        let payload = self.to_payload();
        let mut out = [0u8; 26];
        out[0] = 22;
        let mut i: usize = 0;
        while i < 22
            invariant
                i <= 22,
                out@.len() == 26,
                out@[0] == 22 && out@[1] == 0 && out@[2] == 0 && out@[3] == 0,
                forall|j: int| 0 <= j < i ==> #[trigger] out@[4 + j] == payload@[j],
            decreases 22 - i,
        {
            out[4 + i] = payload[i];
            i = i + 1;
        }
        proof {
            assert forall|j: int| 0 <= j < 22 implies #[trigger] out@.subrange(4, 26)[j]
                == payload@[j] by {
                assert(out@[4 + j] == payload@[j]);
            }
            assert(out@.subrange(4, 26) =~= payload@);
        }
        out
    }

    /// Decode a [`GuiFrame`] from a length-prefixed wire frame.
    ///
    /// Returns [`ProtocolError::TooShort`] if `buf` is shorter than 26 bytes,
    /// or [`ProtocolError::LengthMismatch`] if the encoded length differs
    /// from 22.
    pub fn decode(buf: &[u8]) -> (res: Result<Self, ProtocolError>)
        ensures
            buf@.len() < FRAME_TOTAL_LEN ==> res == Err::<GuiFrame, ProtocolError>(
                ProtocolError::TooShort { need: FRAME_TOTAL_LEN, have: buf@.len() as usize },
            ),
            buf@.len() >= FRAME_TOTAL_LEN && u32_le(buf@[0], buf@[1], buf@[2], buf@[3])
                != FRAME_PAYLOAD_LEN ==> res == Err::<GuiFrame, ProtocolError>(
                ProtocolError::LengthMismatch {
                    expected: FRAME_PAYLOAD_LEN,
                    got: u32_le(buf@[0], buf@[1], buf@[2], buf@[3]) as usize,
                },
            ),
            buf@.len() >= FRAME_TOTAL_LEN && u32_le(buf@[0], buf@[1], buf@[2], buf@[3])
                == FRAME_PAYLOAD_LEN ==> res.is_ok() && decodes_to(
                buf@.subrange(4, buf@.len() as int),
                res.unwrap(),
            ),
    {
        if buf.len() < FRAME_TOTAL_LEN {
            return Err(ProtocolError::TooShort { need: FRAME_TOTAL_LEN, have: buf.len() });
        }
        let encoded_len = u32_from_le(buf[0], buf[1], buf[2], buf[3]) as usize;
        if encoded_len != FRAME_PAYLOAD_LEN {
            return Err(
                ProtocolError::LengthMismatch { expected: FRAME_PAYLOAD_LEN, got: encoded_len },
            );
        }
        Ok(Self::decode_at(buf, FRAME_PREFIX_LEN))
    }
}

/// Decoding a payload gives back exactly the frame it was made from: every
/// frame that the payload of `f` decodes to carries the fields of `f`.
pub proof fn lemma_payload_roundtrip(f: GuiFrame, p: Seq<u8>, g: GuiFrame)
    requires
        is_payload_of(p, f),
        decodes_to(p, g),
    ensures
        same_frame(g, f),
{
    assert forall|i: int| 0 <= i < 8 implies g.axes@[i] == f.axes@[i] by {
        assert(p[2 * i] == i16_lo(f.axes@[i]));
    }
    assert(g.axes@ =~= f.axes@);
}

/// A wire frame passes both checks of `decode` (length and prefix), and what
/// it decodes to carries the fields of the encoded frame.
pub proof fn lemma_wire_roundtrip(f: GuiFrame, w: Seq<u8>, g: GuiFrame)
    requires
        is_wire_of(w, f),
    ensures
        w.len() >= FRAME_TOTAL_LEN,
        u32_le(w[0], w[1], w[2], w[3]) == FRAME_PAYLOAD_LEN,
        decodes_to(w.subrange(4, w.len() as int), g) ==> same_frame(g, f),
{
    if decodes_to(w.subrange(4, w.len() as int), g) {
        lemma_payload_roundtrip(f, w.subrange(4, 26), g);
    }
}

/// The payload follows the documented wire table: read back at fixed
/// offsets, bytes 0-15 are the eight axes (two little-endian bytes each),
/// 16-17 the button word, 18 the hat, 19 `connected`, 20 `ffb_enabled` and 21
/// the gain.
pub proof fn lemma_payload_table(p: Seq<u8>, f: GuiFrame)
    requires
        is_payload_of(p, f),
    ensures
        p.len() == 22,
        forall|i: int| 0 <= i < 8 ==> i16_le(#[trigger] p[2 * i], p[2 * i + 1]) == f.axes@[i],
        u16_le(p[16], p[17]) == f.buttons,
        p[18] == f.pov,
        p[19] == f.connected,
        p[20] == f.ffb_enabled,
        p[21] == f.ffb_gain,
{
    assert forall|i: int| 0 <= i < 8 implies i16_le(#[trigger] p[2 * i], p[2 * i + 1]) == f.axes@[i] by {
        lemma_i16_bytes(f.axes@[i]);
    }
    lemma_u16_bytes(f.buttons);
}

/// Decoding reads the documented wire table: the hat from byte 18,
/// `connected` from byte 19, `ffb_enabled` from byte 20 and the gain from
/// byte 21, the button word from bytes 16-17 and axis `i` from bytes `2i`
/// and `2i + 1`.
pub proof fn lemma_decode_table(p: Seq<u8>, f: GuiFrame)
    requires
        decodes_to(p, f),
    ensures
        forall|i: int| 0 <= i < 8 ==> #[trigger] f.axes@[i] == i16_le(p[2 * i], p[2 * i + 1]),
        f.buttons == u16_le(p[16], p[17]),
        f.pov == p[18],
        f.connected == p[19],
        f.ffb_enabled == p[20],
        f.ffb_gain == p[21],
{
}

} // verus!
