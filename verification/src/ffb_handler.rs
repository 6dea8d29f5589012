//! Force-feedback output report buffering on the driver side.
//!
//! When HIDCLASS delivers a write-report request, the raw HID PID output
//! report is buffered here until the userspace app drains it.

use vstd::prelude::*;

verus! {

/// Maximum size of one buffered FFB report (Set Effect is the largest at
/// roughly 20 bytes with all fields; 64 bytes gives comfortable headroom).
pub const MAX_FFB_REPORT_BYTES: usize = 64;

/// A raw HID PID output or feature report captured from the game.
#[derive(Debug, Clone, Copy)]
pub struct FfbReport {
    /// Number of valid bytes in `data`.
    pub len: u8,
    /// Raw bytes (first byte is always the HID report ID).
    pub data: [u8; 64],
}

/// The valid bytes of a report.
pub open spec fn report_bytes(r: FfbReport) -> Seq<u8> {
    r.data@.subrange(0, r.len as int)
}

impl FfbReport {
    /// Construct from a raw byte slice.  Truncates silently to
    /// `MAX_FFB_REPORT_BYTES`; unused bytes are zero.
    pub fn from_bytes(src: &[u8]) -> (r: Self)
        ensures
            r.len == if src@.len() < MAX_FFB_REPORT_BYTES {
                src@.len()
            } else {
                MAX_FFB_REPORT_BYTES as nat
            },
            report_bytes(r) == src@.subrange(0, r.len as int),
            forall|i: int| r.len <= i < MAX_FFB_REPORT_BYTES ==> #[trigger] r.data@[i] == 0,
    {
        let n: usize = if src.len() < MAX_FFB_REPORT_BYTES {
            src.len()
        } else {
            MAX_FFB_REPORT_BYTES
        };
        let mut data = [0u8; 64];
        let mut i: usize = 0;
        while i < n
            invariant
                n <= src@.len(),
                n <= MAX_FFB_REPORT_BYTES,
                i <= n,
                data@.len() == 64,
                forall|j: int| 0 <= j < i ==> #[trigger] data@[j] == src@[j],
                forall|j: int| i <= j < 64 ==> #[trigger] data@[j] == 0,
            decreases n - i,
        {
            data[i] = src[i];
            i = i + 1;
        }
        let r = FfbReport { len: n as u8, data };
        proof {
            assert(report_bytes(r) =~= src@.subrange(0, n as int));
        }
        r
    }

    /// Return the valid portion of `data` as a slice.
    pub fn as_bytes(&self) -> (b: &[u8])
        requires
            self.len <= MAX_FFB_REPORT_BYTES,
        ensures
            b@ == report_bytes(*self),
    {
        self.data.as_slice().split_at(self.len as usize).0
    }

    /// HID Report ID (the first byte), or `None` for an empty report.
    pub fn report_id(&self) -> (id: Option<u8>)
        ensures
            id == if self.len > 0 {
                Some(self.data@[0])
            } else {
                None::<u8>
            },
    {
        if self.len > 0 {
            Some(self.data[0])
        } else {
            None
        }
    }
}

/// Number of reports the queue holds.
pub const FFB_QUEUE_CAPACITY: usize = 16;

/// Number of slots in the report ring: one more than the reports it holds,
/// so that a full ring is told apart from an empty one.
pub const FFB_RING_SLOTS: usize = 17;

/// Ring buffer holding the most recent unread FFB reports.
///
/// Holds up to `FFB_QUEUE_CAPACITY` reports; when full, pushing a report
/// overwrites the oldest one (the physical hardware is the authoritative
/// source of truth, so dropping a stale intermediate state is acceptable).
pub struct FfbQueue {
    buf: [FfbReport; 17],
    /// Next write position.
    head: usize,
    /// Next read position.
    tail: usize,
}

/// Number of reports held in a ring with the given positions.
pub open spec fn ring_count(head: int, tail: int) -> int {
    if head >= tail {
        head - tail
    } else {
        head + 17 - tail
    }
}

/// The most reports the queue holds at once.
pub open spec fn ffb_queue_max() -> nat {
    FFB_QUEUE_CAPACITY as nat
}

/// Reports held after pushing `r` onto a queue that held `q`: the oldest
/// report is dropped when the queue is full.
pub open spec fn queue_after_push(q: Seq<FfbReport>, r: FfbReport) -> Seq<FfbReport> {
    if q.len() == ffb_queue_max() {
        q.drop_first().push(r)
    } else {
        q.push(r)
    }
}

impl FfbQueue {
    /// The read and write positions lie inside the ring.
    pub closed spec fn wf(&self) -> bool {
        self.head < 17 && self.tail < 17
    }

    /// The unread reports, oldest first.
    pub closed spec fn contents(&self) -> Seq<FfbReport> {
        Seq::new(
            ring_count(self.head as int, self.tail as int) as nat,
            |k: int| self.buf@[(self.tail + k) % 17],
        )
    }

    /// A well-formed queue holds at most `FFB_QUEUE_CAPACITY` reports.
    pub proof fn lemma_bounded(&self)
        requires
            self.wf(),
        ensures
            self.contents().len() <= FFB_QUEUE_CAPACITY,
    {
    }

    /// Create an empty queue.
    pub fn new() -> (q: Self)
        ensures
            q.wf(),
            q.contents() == Seq::<FfbReport>::empty(),
    {
        let empty = FfbReport { len: 0, data: [0u8; 64] };
        let q = Self { buf: [empty; 17], head: 0, tail: 0 };
        proof {
            assert(q.contents() =~= Seq::<FfbReport>::empty());
        }
        q
    }

    /// Push a report.  Overwrites the oldest entry if full.
    pub fn push(&mut self, report: FfbReport)
        requires
            old(self).wf(),
        ensures
            final(self).wf(),
            final(self).contents() == queue_after_push(old(self).contents(), report),
            final(self).contents().len() <= FFB_QUEUE_CAPACITY,
    {
        let ghost q0 = self.contents();
        let head = self.head;
        self.buf[head] = report;
        let next = (head + 1) % FFB_RING_SLOTS;
        self.head = next;
        let tail = self.tail;
        if next == tail {
            self.tail = (tail + 1) % FFB_RING_SLOTS;
        }
        proof {
            let q1 = self.contents();
            let expected = queue_after_push(q0, report);
            assert(q1.len() == expected.len());
            assert forall|k: int| 0 <= k < q1.len() implies q1[k] == expected[k] by {
                if q0.len() == ffb_queue_max() {
                    assert(expected[k] == if k + 1 < q0.len() {
                        q0[k + 1]
                    } else {
                        report
                    });
                }
            }
            assert(q1 =~= expected);
        }
    }

    /// Pop the oldest report, or `None` if the queue is empty.
    pub fn pop(&mut self) -> (r: Option<FfbReport>)
        requires
            old(self).wf(),
        ensures
            final(self).wf(),
            old(self).contents().len() == 0 ==> r.is_none() && final(self).contents() == old(
                self,
            ).contents(),
            old(self).contents().len() > 0 ==> r == Some(old(self).contents()[0])
                && final(self).contents() == old(self).contents().drop_first(),
    {
        let ghost q0 = self.contents();
        let head = self.head;
        let tail = self.tail;
        if head == tail {
            return None;
        }
        let report = self.buf[tail];
        self.tail = (tail + 1) % FFB_RING_SLOTS;
        proof {
            assert(self.contents() =~= q0.drop_first());
        }
        Some(report)
    }

    /// Returns `true` if the queue has at least one pending report.
    pub fn is_nonempty(&self) -> (b: bool)
        requires
            self.wf(),
        ensures
            b == (self.contents().len() > 0),
    {
        self.head != self.tail
    }
}

/// Reports come out of the queue in the order they went in: pushing onto a
/// queue that is not full and then popping everything yields the old
/// contents followed by the new report.
pub proof fn lemma_queue_fifo(q: Seq<FfbReport>, r: FfbReport)
    requires
        q.len() < ffb_queue_max(),
    ensures
        queue_after_push(q, r) == q.push(r),
        queue_after_push(q, r)[0] == if q.len() == 0 {
            r
        } else {
            q[0]
        },
{
}

} // verus!
