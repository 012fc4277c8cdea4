//! The transfer engine: one blocking read or write with a deadline, on top of
//! a transfer queue that only completes asynchronously.
//!
//! The engine only decides. The caller owns the queue and runs the loop:
//! it performs each [`Action`] and reports what happened through the
//! matching method, until the engine answers [`Action::Finish`] (or
//! [`Action::ClearHalt`]). At most one request is in flight per engine; the
//! caller must not start a second operation before the first has finished.
use vstd::prelude::*;

use crate::error::{OtherCause, SerialError, TransferError};

verus! {

/// Where an engine stands in its current operation.
#[derive(Debug, Clone, Copy, PartialEq, Eq, Structural)]
pub enum Phase {
    /// No request in flight; the reusable buffer is in its slot.
    Idle,
    /// A request was submitted; waiting for it with the deadline.
    Waiting,
    /// The deadline expired; the request is being cancelled.
    Cancelling,
    /// Cancellation was requested; waiting, without deadline, for the
    /// completion that the transport still delivers.
    Draining,
}

/// What the caller must do next.
#[derive(Debug)]
pub enum Action {
    /// Submit `buffer` as a request of `len` bytes, then wait for its
    /// completion until `deadline_ms` milliseconds have passed (`None`: no
    /// deadline). Report the completion, or the expiry of the deadline.
    Submit { buffer: Vec<u8>, len: usize, deadline_ms: Option<u32> },
    /// Cancel the outstanding request, then report how many requests are
    /// still pending on the queue.
    Cancel,
    /// Wait, with no deadline, for the completion of the cancelled request.
    AwaitCancelled,
    /// Clear the halt of the endpoint (a failure of that step is ignored),
    /// then end the operation with this error.
    ClearHalt(SerialError),
    /// End the operation with this result.
    Finish(Result<usize, SerialError>),
}

/// The result of a completion that carries `n` bytes.
pub open spec fn transfer_outcome(status: Result<(), TransferError>, n: nat) -> Result<
    usize,
    SerialError,
> {
    match status {
        Ok(()) => Ok(n as usize),
        Err(TransferError::Cancelled) => if n > 0 {
            Ok(n as usize)
        } else {
            Err(SerialError::TimedOut)
        },
        Err(TransferError::Disconnected) => Err(SerialError::NotConnected),
        Err(TransferError::Stall) => Err(SerialError::Stall),
        Err(e) => Err(SerialError::Other(OtherCause::Transfer(e))),
    }
}

/// The action that ends an operation on a completion carrying `n` bytes:
/// a stall is cleared before the failure is reported.
pub open spec fn completion_action(status: Result<(), TransferError>, n: nat) -> Action {
    if status == Err::<(), TransferError>(TransferError::Stall) {
        Action::ClearHalt(SerialError::Stall)
    } else {
        Action::Finish(transfer_outcome(status, n))
    }
}

/// Whether the completion's bytes are handed to the caller.
pub open spec fn delivers(status: Result<(), TransferError>, n: nat) -> bool {
    transfer_outcome(status, n) is Ok
}

/// The deadline of a wait: a zero timeout means no deadline at all.
pub open spec fn deadline_of(timeout_ms: u32) -> Option<u32> {
    if timeout_ms == 0 {
        None
    } else {
        Some(timeout_ms)
    }
}

/// A completion that arrives in time ends the operation with exactly the
/// number of bytes it carries, and those bytes are handed to the caller.
pub proof fn lemma_in_time_completion(n: nat)
    requires
        n <= usize::MAX,
    ensures
        completion_action(Ok(()), n) == Action::Finish(Ok(n as usize)),
        delivers(Ok(()), n),
{
}

/// After the deadline, the cancelled request's completion ends the operation
/// with `TimedOut` when it carries no byte, and with its byte count otherwise.
pub proof fn lemma_cancelled_completion(n: nat)
    requires
        n <= usize::MAX,
    ensures
        n == 0 ==> completion_action(Err(TransferError::Cancelled), n) == Action::Finish(
            Err(SerialError::TimedOut),
        ),
        n > 0 ==> completion_action(Err(TransferError::Cancelled), n) == Action::Finish(
            Ok(n as usize),
        ) && delivers(Err(TransferError::Cancelled), n),
{
}

/// A completion is classified as `NotConnected` exactly when it reports that
/// the device is gone.
pub proof fn lemma_not_connected_outcome(status: Result<(), TransferError>, n: nat)
    ensures
        (completion_action(status, n) == Action::Finish(Err(SerialError::NotConnected))) == (status
            == Err::<(), TransferError>(TransferError::Disconnected)),
{
}

fn outcome(status: Result<(), TransferError>, n: usize) -> (r: Action)
    ensures
        r == completion_action(status, n as nat),
{
    match status {
        Ok(()) => Action::Finish(Ok(n)),
        Err(TransferError::Cancelled) => if n > 0 {
            Action::Finish(Ok(n))
        } else {
            Action::Finish(Err(SerialError::TimedOut))
        },
        Err(TransferError::Disconnected) => Action::Finish(Err(SerialError::NotConnected)),
        Err(TransferError::Stall) => Action::ClearHalt(SerialError::Stall),
        Err(e) => Action::Finish(Err(SerialError::Other(OtherCause::Transfer(e)))),
    }
}

/// The engine of one endpoint direction: its phase and its reusable buffer.
#[derive(Debug)]
pub struct TransferEngine {
    pub phase: Phase,
    /// The reusable transfer buffer; out of its slot while a request is in flight.
    pub slot: Option<Vec<u8>>,
}

impl TransferEngine {
    /// The buffer is in its slot exactly when no request is in flight.
    pub open spec fn wf(&self) -> bool {
        (self.phase == Phase::Idle) == (self.slot is Some)
    }

    pub fn new() -> (r: TransferEngine)
        ensures
            r.wf(),
            r.phase == Phase::Idle,
            r.slot is Some && r.slot->Some_0@.len() == 0,
    {
        TransferEngine { phase: Phase::Idle, slot: Some(Vec::new()) }
    }

    /// Starts reading into a caller buffer of `len` bytes. An empty buffer
    /// ends at once with `Ok(0)` and no request; otherwise the reusable
    /// buffer leaves its slot to be submitted.
    pub fn begin_read(&mut self, len: usize, timeout_ms: u32) -> (r: Action)
        requires
            old(self).wf(),
            old(self).phase == Phase::Idle,
        ensures
            final(self).wf(),
            len == 0 ==> r == Action::Finish(Ok(0)) && *final(self) == *old(self),
            len > 0 ==> final(self).phase == Phase::Waiting && r == (Action::Submit {
                buffer: old(self).slot->Some_0,
                len,
                deadline_ms: deadline_of(timeout_ms),
            }),
    {
        if len == 0 {
            return Action::Finish(Ok(0));
        }
        let buffer = self.slot.take().unwrap();
        self.phase = Phase::Waiting;
        let deadline_ms = if timeout_ms == 0 {
            None
        } else {
            Some(timeout_ms)
        };
        Action::Submit { buffer, len, deadline_ms }
    }

    /// Starts writing `data`. Empty data ends at once with `Ok(0)` and no
    /// request; otherwise the bytes are copied into the reusable buffer,
    /// which leaves its slot to be submitted.
    pub fn begin_write(&mut self, data: &[u8], timeout_ms: u32) -> (r: Action)
        requires
            old(self).wf(),
            old(self).phase == Phase::Idle,
        ensures
            final(self).wf(),
            data@.len() == 0 ==> r == Action::Finish(Ok(0)) && *final(self) == *old(self),
            data@.len() > 0 ==> final(self).phase == Phase::Waiting && (r matches Action::Submit {
                buffer,
                len,
                deadline_ms,
            } && buffer@ == data@ && len == data@.len() && deadline_ms == deadline_of(timeout_ms)),
    {
        if data.len() == 0 {
            return Action::Finish(Ok(0));
        }
        let mut buffer = self.slot.take().unwrap();
        buffer.clear();
        let mut i: usize = 0;
        while i < data.len()
            invariant
                i <= data@.len(),
                buffer@ == data@.take(i as int),
            decreases data@.len() - i,
        {
            buffer.push(data[i]);
            i = i + 1;
            assert(buffer@ =~= data@.take(i as int));
        }
        assert(buffer@ =~= data@);
        self.phase = Phase::Waiting;
        let deadline_ms = if timeout_ms == 0 {
            None
        } else {
            Some(timeout_ms)
        };
        Action::Submit { buffer, len: data.len(), deadline_ms }
    }

    /// The deadline expired before the completion: cancel the request.
    pub fn on_deadline(&mut self) -> (r: Action)
        requires
            old(self).wf(),
            old(self).phase == Phase::Waiting,
        ensures
            final(self).wf(),
            final(self).phase == Phase::Cancelling,
            final(self).slot == old(self).slot,
            r == Action::Cancel,
    {
        self.phase = Phase::Cancelling;
        Action::Cancel
    }

    /// Cancellation was requested and `pending` requests remain on the queue.
    /// With none left the result raced the deadline and is lost: the slot
    /// gets a fresh buffer and the operation fails. Otherwise the cancelled
    /// request's completion is awaited.
    pub fn on_cancel_issued(&mut self, pending: usize) -> (r: Action)
        requires
            old(self).wf(),
            old(self).phase == Phase::Cancelling,
        ensures
            final(self).wf(),
            pending == 0 ==> r == Action::Finish(Err(SerialError::Other(OtherCause::ResultUnavailable)))
                && final(self).phase == Phase::Idle && final(self).slot->Some_0@.len() == 0,
            pending > 0 ==> r == Action::AwaitCancelled && final(self).phase == Phase::Draining
                && final(self).slot == old(self).slot,
    {
        if pending == 0 {
            self.slot = Some(Vec::new());
            self.phase = Phase::Idle;
            Action::Finish(Err(SerialError::Other(OtherCause::ResultUnavailable)))
        } else {
            self.phase = Phase::Draining;
            Action::AwaitCancelled
        }
    }

    /// The read request completed with `status`, carrying `data`. The bytes
    /// are copied to the front of `out` when the result is a byte count;
    /// `data` goes back to the slot as the reusable buffer.
    pub fn complete_read(
        &mut self,
        status: Result<(), TransferError>,
        data: Vec<u8>,
        out: &mut [u8],
    ) -> (r: Action)
        requires
            old(self).wf(),
            old(self).phase == Phase::Waiting || old(self).phase == Phase::Draining,
            data@.len() <= old(out)@.len(),
        ensures
            final(self).wf(),
            final(self).phase == Phase::Idle,
            final(self).slot == Some(data),
            r == completion_action(status, data@.len()),
            final(out)@.len() == old(out)@.len(),
            delivers(status, data@.len()) ==> final(out)@.take(data@.len() as int) == data@
                && final(out)@.skip(data@.len() as int) == old(out)@.skip(data@.len() as int),
            !delivers(status, data@.len()) ==> final(out)@ == old(out)@,
    {
        let n = data.len();
        let r = outcome(status, n);
        if let Action::Finish(Ok(_)) = r {
            let mut i: usize = 0;
            while i < n
                invariant
                    n == data@.len(),
                    n <= out@.len(),
                    i <= n,
                    out@.len() == old(out)@.len(),
                    out@.take(i as int) == data@.take(i as int),
                    out@.skip(i as int) == old(out)@.skip(i as int),
                decreases n - i,
            {
                let ghost prev = out@;
                let ghost k = i as int;
                out[i] = data[i];
                assert forall|j: int| k + 1 <= j < out@.len() implies out@[j] == old(out)@[j] by {
                    assert(prev.skip(k)[j - k] == old(out)@.skip(k)[j - k]);
                }
                i = i + 1;
                assert(out@.take(i as int) =~= data@.take(i as int));
                assert(out@.skip(i as int) =~= old(out)@.skip(i as int));
            }
            assert(data@.take(n as int) =~= data@);
        }
        self.slot = Some(data);
        self.phase = Phase::Idle;
        r
    }

    /// The write request completed with `status`, having sent `actual_length`
    /// bytes; `buffer` goes back to the slot as the reusable buffer.
    pub fn complete_write(
        &mut self,
        status: Result<(), TransferError>,
        actual_length: usize,
        buffer: Vec<u8>,
    ) -> (r: Action)
        requires
            old(self).wf(),
            old(self).phase == Phase::Waiting || old(self).phase == Phase::Draining,
        ensures
            final(self).wf(),
            final(self).phase == Phase::Idle,
            final(self).slot == Some(buffer),
            r == completion_action(status, actual_length as nat),
    {
        self.slot = Some(buffer);
        self.phase = Phase::Idle;
        outcome(status, actual_length)
    }
}

} // verus!
