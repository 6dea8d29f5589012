//! Low-level HID read/write transport layer.
//!
//! Abstracts platform I/O behind a trait so that higher-level code and tests
//! are not coupled to the Windows HID API.

use vstd::prelude::*;

verus! {

// ── Error ─────────────────────────────────────────────────────────────────────

/// Error type for transport-level I/O operations.
#[derive(Debug, Clone, PartialEq, Eq)]
pub enum TransportError {
    /// The device handle is not open.
    NotOpen,
    /// A read operation failed.
    ReadFailed(String),
    /// A write operation failed.
    WriteFailed(String),
}

// ── Trait ─────────────────────────────────────────────────────────────────────

/// The view of a read's result: the bytes read, or the error.
pub open spec fn read_view(read: Result<Vec<u8>, TransportError>) -> Result<Seq<u8>, TransportError> {
    match read {
        Ok(v) => Ok(v@),
        Err(e) => Err(e),
    }
}

/// Abstracts HID I/O so tests can inject a [`MockTransport`] and production
/// code uses the platform transport.
///
/// Reads and writes take `&mut self`: a transport is a stateful handle, and
/// the caller that owns it serialises access.  A transport is modelled by
/// the reports written to it and by what its next read gives.
pub trait HidTransport {
    /// The reports the device accepted through this transport, output and
    /// feature reports alike, oldest first.
    spec fn written(&self) -> Seq<Seq<u8>>;

    /// What the next read returns: the bytes of the next input report, or
    /// the error.
    spec fn next_input(&self) -> Result<Seq<u8>, TransportError>;

    /// What the write `n` places after the next one (output or feature
    /// report alike) returns: the next write is write 0.
    spec fn write_outcome(&self, n: nat) -> Result<(), TransportError>;

    /// Block until an input report is available and return it.  Reading
    /// writes nothing.
    ///
    /// Fails with [`TransportError::NotOpen`] or [`TransportError::ReadFailed`].
    fn read_input_report(&mut self) -> (r: Result<Vec<u8>, TransportError>)
        ensures
            read_view(r) == old(self).next_input(),
            final(self).written() == old(self).written(),
            forall|n: nat| #[trigger] final(self).write_outcome(n) == old(self).write_outcome(n),
    ;

    /// Send an output report to the device.  `report` includes the report-ID
    /// byte as its first element.  A successful write is accepted; a failed
    /// one is not.
    ///
    /// Fails with [`TransportError::NotOpen`] or [`TransportError::WriteFailed`].
    fn write_output_report(&mut self, report: &[u8]) -> (r: Result<(), TransportError>)
        ensures
            r == old(self).write_outcome(0),
            r.is_ok() ==> final(self).written() == old(self).written().push(report@),
            r.is_err() ==> final(self).written() == old(self).written(),
            forall|n: nat| #[trigger] final(self).write_outcome(n) == old(self).write_outcome(n + 1),
    ;

    /// Send a feature report to the device.  `report` includes the report-ID
    /// byte as its first element.  A successful write is accepted; a failed
    /// one is not.
    ///
    /// Fails with [`TransportError::NotOpen`] or [`TransportError::WriteFailed`].
    fn write_feature_report(&mut self, report: &[u8]) -> (r: Result<(), TransportError>)
        ensures
            r == old(self).write_outcome(0),
            r.is_ok() ==> final(self).written() == old(self).written().push(report@),
            r.is_err() ==> final(self).written() == old(self).written(),
            forall|n: nat| #[trigger] final(self).write_outcome(n) == old(self).write_outcome(n + 1),
    ;
}

// ── Mock ──────────────────────────────────────────────────────────────────────

/// In-memory transport used in tests.
///
/// Inject input data with [`MockTransport::set_input_data`] and inspect what
/// was sent with [`MockTransport::last_output`].
pub struct MockTransport {
    input_data: Vec<u8>,
    last_output: Option<Vec<u8>>,
    history: Ghost<Seq<Seq<u8>>>,
}

impl MockTransport {
    /// The last report kept is the last one sent.
    #[verifier::type_invariant]
    closed spec fn consistent(self) -> bool {
        match self.last_output {
            None => self.history@.len() == 0,
            Some(v) => self.history@.len() > 0 && self.history@.last() == v@,
        }
    }

    /// The bytes every read returns.
    pub closed spec fn input(&self) -> Seq<u8> {
        self.input_data@
    }

    /// Create a new mock with no queued input and nothing written.
    pub fn new() -> (t: Self)
        ensures
            t.input() == Seq::<u8>::empty(),
            t.written() == Seq::<Seq<u8>>::empty(),
    {
        MockTransport { input_data: Vec::new(), last_output: None, history: Ghost(Seq::empty()) }
    }

    /// Pre-load the bytes that every following `read_input_report` returns.
    pub fn set_input_data(&mut self, data: Vec<u8>)
        ensures
            final(self).input() == data@,
            final(self).written() == old(self).written(),
    {
        let mut previous = MockTransport::new();
        std::mem::swap(&mut previous, self);
        proof {
            use_type_invariant(&previous);
        }
        *self = MockTransport {
            input_data: data,
            last_output: previous.last_output,
            history: previous.history,
        };
    }

    /// Return the last report written via `write_output_report` or
    /// `write_feature_report`, or `None` if nothing has been written yet.
    pub fn last_output(&self) -> (r: Option<Vec<u8>>)
        ensures
            self.written().len() == 0 ==> r.is_none(),
            self.written().len() > 0 ==> r.is_some() && r.unwrap()@ == self.written().last(),
    {
        proof {
            use_type_invariant(self);
        }
        match &self.last_output {
            Some(v) => Some(v.clone()),
            None => None,
        }
    }

    /// Record one accepted report.
    fn accept(&mut self, report: &[u8])
        ensures
            final(self).written() == old(self).written().push(report@),
            final(self).input() == old(self).input(),
    {
        let mut previous = MockTransport::new();
        std::mem::swap(&mut previous, self);
        let ghost h = previous.history@.push(report@);
        let v = vstd::slice::slice_to_vec(report);
        *self = MockTransport { input_data: previous.input_data, last_output: Some(v), history: Ghost(h) };
    }
}

impl Default for MockTransport {
    fn default() -> (t: Self)
        ensures
            t.input() == Seq::<u8>::empty(),
            t.written() == Seq::<Seq<u8>>::empty(),
    {
        Self::new()
    }
}

impl HidTransport for MockTransport {
    closed spec fn written(&self) -> Seq<Seq<u8>> {
        self.history@
    }

    /// Every read returns the injected input data.
    open spec fn next_input(&self) -> Result<Seq<u8>, TransportError> {
        Ok(self.input())
    }

    /// Every write succeeds.
    open spec fn write_outcome(&self, n: nat) -> Result<(), TransportError> {
        Ok(())
    }

    fn read_input_report(&mut self) -> (r: Result<Vec<u8>, TransportError>)
        ensures
            r.is_ok() && r.unwrap()@ == old(self).input(),
            final(self).input() == old(self).input(),
            final(self).written() == old(self).written(),
    {
        Ok(self.input_data.clone())
    }

    fn write_output_report(&mut self, report: &[u8]) -> (r: Result<(), TransportError>)
        ensures
            r.is_ok(),
            final(self).input() == old(self).input(),
            final(self).written() == old(self).written().push(report@),
    {
        self.accept(report);
        Ok(())
    }

    fn write_feature_report(&mut self, report: &[u8]) -> (r: Result<(), TransportError>)
        ensures
            r.is_ok(),
            final(self).input() == old(self).input(),
            final(self).written() == old(self).written().push(report@),
    {
        self.accept(report);
        Ok(())
    }
}

} // verus!
