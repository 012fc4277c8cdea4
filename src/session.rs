//! The serial session: the state of one opened CDC-ACM device, its two
//! transfer engines and the class-specific control requests.
use vstd::prelude::*;

use crate::config::{line_coding, SerialConfig};
use crate::descriptor::InterfaceInfo;
use crate::engine::{Action, Phase, TransferEngine};
use crate::error::{OtherCause, SerialError, TransferError};

verus! {

/// `SET_LINE_CODING`: payload is the 7-byte line-coding structure.
pub const SET_LINE_CODING: u8 = 0x20;

/// `SET_CONTROL_LINE_STATE`: value bit 0 is DTR, bit 1 is RTS.
pub const SET_CONTROL_LINE_STATE: u8 = 0x22;

/// `SEND_BREAK`: value 0xFFFF asserts the break, 0 clears it.
pub const SEND_BREAK: u8 = 0x23;

/// Length of the line-coding structure.
pub const LINE_CODING_LEN: usize = 7;

/// A class-specific control request to send OUT, with request type Class and
/// recipient Interface.
#[derive(Debug, Clone)]
pub struct ControlRequest {
    pub request: u8,
    pub value: u16,
    /// The Communication interface number.
    pub index: u16,
    pub data: Vec<u8>,
    pub timeout_ms: u64,
}

/// Value of `SET_CONTROL_LINE_STATE`: DTR in bit 0, RTS in bit 1.
pub open spec fn control_line_value(dtr: bool, rts: bool) -> u16 {
    ((if dtr {
        1u16
    } else {
        0u16
    }) + (if rts {
        2u16
    } else {
        0u16
    })) as u16
}

/// Value of `SEND_BREAK`: assert the break indefinitely, or clear it.
pub open spec fn break_value(on: bool) -> u16 {
    if on {
        0xffff
    } else {
        0
    }
}

/// Control transfers get twice the bulk timeout.
pub open spec fn control_timeout(timeout_ms: u32) -> u64 {
    (2 * timeout_ms) as u64
}

/// The result of a control write that should carry `expected` bytes.
pub open spec fn control_result(expected: nat, outcome: Result<usize, TransferError>) -> Result<
    (),
    SerialError,
> {
    match outcome {
        Ok(n) => if n == expected {
            Ok(())
        } else {
            Err(SerialError::IncompleteTransfer)
        },
        Err(TransferError::Disconnected) => Err(SerialError::NotConnected),
        Err(e) => Err(SerialError::Other(OtherCause::Transfer(e))),
    }
}

/// Whether an outcome reports that the device is gone.
pub open spec fn reports_loss(status: Result<(), TransferError>) -> bool {
    status == Err::<(), TransferError>(TransferError::Disconnected)
}

/// A control write is classified as `NotConnected` exactly when it reports
/// that the device is gone.
pub proof fn lemma_control_not_connected(expected: nat, outcome: Result<usize, TransferError>)
    ensures
        (control_result(expected, outcome) == Err::<(), SerialError>(SerialError::NotConnected)) == (
        outcome == Err::<usize, TransferError>(TransferError::Disconnected)),
{
}

/// A `SET_LINE_CODING` write of fewer than 7 bytes is `IncompleteTransfer`.
pub proof fn lemma_short_line_coding_write(n: usize)
    requires
        n < 7,
    ensures
        control_result(7, Ok(n)) == Err::<(), SerialError>(SerialError::IncompleteTransfer),
{
}

fn control_outcome(expected: usize, outcome: Result<usize, TransferError>) -> (r: Result<
    (),
    SerialError,
>)
    ensures
        r == control_result(expected as nat, outcome),
{
    match outcome {
        Ok(n) => if n == expected {
            Ok(())
        } else {
            Err(SerialError::IncompleteTransfer)
        },
        Err(TransferError::Disconnected) => Err(SerialError::NotConnected),
        Err(e) => Err(SerialError::Other(OtherCause::Transfer(e))),
    }
}

/// A live driver instance over one claimed CDC-ACM device.
///
/// Once `connected` is false it stays false, and every read, write and
/// control request fails with `NotConnected` without a transfer. A session
/// is not meant for concurrent use: at most one read and one write may be in
/// progress, and each must finish before the next one of its direction.
#[derive(Debug)]
pub struct SerialSession {
    /// Communication interface number, the index of control requests.
    pub ctrl_index: u16,
    /// Timeout of reads and writes in milliseconds; 0 means no timeout.
    pub timeout_ms: u32,
    /// The configuration last applied by this session.
    pub ser_conf: Option<SerialConfig>,
    /// The DTR and RTS states last applied by this session.
    pub dtr_rts: (bool, bool),
    /// The break state last applied by this session.
    pub break_on: bool,
    pub connected: bool,
    /// Engine of the bulk IN endpoint.
    pub reader: TransferEngine,
    /// Engine of the bulk OUT endpoint.
    pub writer: TransferEngine,
}

impl SerialSession {
    pub open spec fn wf(&self) -> bool {
        self.reader.wf() && self.writer.wf()
    }

    /// Everything but the engines and the flag is as in `other`.
    pub open spec fn same_settings(&self, other: &SerialSession) -> bool {
        &&& self.ctrl_index == other.ctrl_index
        &&& self.timeout_ms == other.timeout_ms
        &&& self.ser_conf == other.ser_conf
        &&& self.dtr_rts == other.dtr_rts
        &&& self.break_on == other.break_on
    }

    /// A session over the claimed Communication interface `comm`: connected,
    /// nothing configured yet, DTR and RTS off.
    pub fn new(comm: &InterfaceInfo, timeout_ms: u32) -> (r: SerialSession)
        ensures
            r.wf(),
            r.ctrl_index == comm.interface_number as u16,
            r.timeout_ms == timeout_ms,
            r.ser_conf is None,
            r.dtr_rts == (false, false),
            !r.break_on,
            r.connected,
            r.reader.phase == Phase::Idle,
            r.writer.phase == Phase::Idle,
    {
        SerialSession {
            ctrl_index: comm.interface_number as u16,
            timeout_ms,
            ser_conf: None,
            dtr_rts: (false, false),
            break_on: false,
            connected: true,
            reader: TransferEngine::new(),
            writer: TransferEngine::new(),
        }
    }

    pub fn is_connected(&self) -> (r: bool)
        ensures
            r == self.connected,
    {
        self.connected
    }

    /// The configuration last applied by this session, if any.
    pub fn config(&self) -> (r: Option<SerialConfig>)
        ensures
            r == self.ser_conf,
    {
        self.ser_conf
    }

    pub fn dtr_rts(&self) -> (r: (bool, bool))
        ensures
            r == self.dtr_rts,
    {
        self.dtr_rts
    }

    pub fn timeout_ms(&self) -> (r: u32)
        ensures
            r == self.timeout_ms,
    {
        self.timeout_ms
    }

    /// Sets the timeout of later reads, writes and control requests; one in
    /// progress keeps the deadline it started with.
    pub fn set_timeout(&mut self, timeout_ms: u32)
        ensures
            final(self).timeout_ms == timeout_ms,
            final(self).ctrl_index == old(self).ctrl_index,
            final(self).ser_conf == old(self).ser_conf,
            final(self).dtr_rts == old(self).dtr_rts,
            final(self).break_on == old(self).break_on,
            final(self).connected == old(self).connected,
            final(self).reader == old(self).reader,
            final(self).writer == old(self).writer,
    {
        self.timeout_ms = timeout_ms;
    }

    /// The timeout of control requests: twice the read/write timeout.
    pub fn control_timeout_ms(&self) -> (r: u64)
        ensures
            r == control_timeout(self.timeout_ms),
    {
        2 * (self.timeout_ms as u64)
    }

    /// Starts a read into a buffer of `len` bytes (see
    /// [`TransferEngine::begin_read`]); fails at once when disconnected.
    pub fn begin_read(&mut self, len: usize) -> (r: Action)
        requires
            old(self).wf(),
            old(self).reader.phase == Phase::Idle,
        ensures
            final(self).wf(),
            final(self).same_settings(old(self)),
            final(self).connected == old(self).connected,
            final(self).writer == old(self).writer,
            !old(self).connected ==> r == Action::Finish(Err(SerialError::NotConnected))
                && final(self).reader == old(self).reader,
            old(self).connected && len == 0 ==> r == Action::Finish(Ok(0)) && final(self).reader
                == old(self).reader,
            old(self).connected && len > 0 ==> final(self).reader.phase == Phase::Waiting && r
                == (Action::Submit {
                buffer: old(self).reader.slot->Some_0,
                len,
                deadline_ms: crate::engine::deadline_of(old(self).timeout_ms),
            }),
    {
        if !self.connected {
            return Action::Finish(Err(SerialError::NotConnected));
        }
        self.reader.begin_read(len, self.timeout_ms)
    }

    /// The read's deadline expired.
    pub fn read_deadline(&mut self) -> (r: Action)
        requires
            old(self).wf(),
            old(self).reader.phase == Phase::Waiting,
        ensures
            final(self).wf(),
            final(self).same_settings(old(self)),
            final(self).connected == old(self).connected,
            final(self).writer == old(self).writer,
            final(self).reader.phase == Phase::Cancelling,
            r == Action::Cancel,
    {
        self.reader.on_deadline()
    }

    /// The read's request was cancelled; `pending` requests remain.
    pub fn read_cancel_issued(&mut self, pending: usize) -> (r: Action)
        requires
            old(self).wf(),
            old(self).reader.phase == Phase::Cancelling,
        ensures
            final(self).wf(),
            final(self).same_settings(old(self)),
            final(self).connected == old(self).connected,
            final(self).writer == old(self).writer,
            pending == 0 ==> r == Action::Finish(Err(SerialError::Other(OtherCause::ResultUnavailable)))
                && final(self).reader.phase == Phase::Idle,
            pending > 0 ==> r == Action::AwaitCancelled && final(self).reader.phase
                == Phase::Draining,
    {
        self.reader.on_cancel_issued(pending)
    }

    /// The read's request completed (see [`TransferEngine::complete_read`]).
    /// A disconnection marks the session disconnected for good.
    pub fn complete_read(
        &mut self,
        status: Result<(), TransferError>,
        data: Vec<u8>,
        out: &mut [u8],
    ) -> (r: Action)
        requires
            old(self).wf(),
            old(self).reader.phase == Phase::Waiting || old(self).reader.phase == Phase::Draining,
            data@.len() <= old(out)@.len(),
        ensures
            final(self).wf(),
            final(self).same_settings(old(self)),
            final(self).connected == (old(self).connected && !reports_loss(status)),
            final(self).writer == old(self).writer,
            final(self).reader.phase == Phase::Idle,
            final(self).reader.slot == Some(data),
            r == crate::engine::completion_action(status, data@.len()),
            final(out)@.len() == old(out)@.len(),
            crate::engine::delivers(status, data@.len()) ==> final(out)@.take(data@.len() as int)
                == data@ && final(out)@.skip(data@.len() as int) == old(out)@.skip(
                data@.len() as int,
            ),
            !crate::engine::delivers(status, data@.len()) ==> final(out)@ == old(out)@,
    {
        if let Err(TransferError::Disconnected) = status {
            self.connected = false;
        }
        self.reader.complete_read(status, data, out)
    }

    /// Starts writing `data` (see [`TransferEngine::begin_write`]); fails at
    /// once when disconnected.
    pub fn begin_write(&mut self, data: &[u8]) -> (r: Action)
        requires
            old(self).wf(),
            old(self).writer.phase == Phase::Idle,
        ensures
            final(self).wf(),
            final(self).same_settings(old(self)),
            final(self).connected == old(self).connected,
            final(self).reader == old(self).reader,
            !old(self).connected ==> r == Action::Finish(Err(SerialError::NotConnected))
                && final(self).writer == old(self).writer,
            old(self).connected && data@.len() == 0 ==> r == Action::Finish(Ok(0))
                && final(self).writer == old(self).writer,
            old(self).connected && data@.len() > 0 ==> final(self).writer.phase == Phase::Waiting
                && (r matches Action::Submit { buffer, len, deadline_ms } && buffer@ == data@ && len
                == data@.len() && deadline_ms == crate::engine::deadline_of(old(self).timeout_ms)),
    {
        if !self.connected {
            return Action::Finish(Err(SerialError::NotConnected));
        }
        self.writer.begin_write(data, self.timeout_ms)
    }

    /// The write's deadline expired.
    pub fn write_deadline(&mut self) -> (r: Action)
        requires
            old(self).wf(),
            old(self).writer.phase == Phase::Waiting,
        ensures
            final(self).wf(),
            final(self).same_settings(old(self)),
            final(self).connected == old(self).connected,
            final(self).reader == old(self).reader,
            final(self).writer.phase == Phase::Cancelling,
            r == Action::Cancel,
    {
        self.writer.on_deadline()
    }

    /// The write's request was cancelled; `pending` requests remain.
    pub fn write_cancel_issued(&mut self, pending: usize) -> (r: Action)
        requires
            old(self).wf(),
            old(self).writer.phase == Phase::Cancelling,
        ensures
            final(self).wf(),
            final(self).same_settings(old(self)),
            final(self).connected == old(self).connected,
            final(self).reader == old(self).reader,
            pending == 0 ==> r == Action::Finish(Err(SerialError::Other(OtherCause::ResultUnavailable)))
                && final(self).writer.phase == Phase::Idle,
            pending > 0 ==> r == Action::AwaitCancelled && final(self).writer.phase
                == Phase::Draining,
    {
        self.writer.on_cancel_issued(pending)
    }

    /// The write's request completed having sent `actual_length` bytes. A
    /// disconnection marks the session disconnected for good.
    pub fn complete_write(
        &mut self,
        status: Result<(), TransferError>,
        actual_length: usize,
        buffer: Vec<u8>,
    ) -> (r: Action)
        requires
            old(self).wf(),
            old(self).writer.phase == Phase::Waiting || old(self).writer.phase == Phase::Draining,
        ensures
            final(self).wf(),
            final(self).same_settings(old(self)),
            final(self).connected == (old(self).connected && !reports_loss(status)),
            final(self).reader == old(self).reader,
            final(self).writer.phase == Phase::Idle,
            final(self).writer.slot == Some(buffer),
            r == crate::engine::completion_action(status, actual_length as nat),
    {
        if let Err(TransferError::Disconnected) = status {
            self.connected = false;
        }
        self.writer.complete_write(status, actual_length, buffer)
    }

    fn control_request(&self, request: u8, value: u16, data: Vec<u8>) -> (r: ControlRequest)
        ensures
            r.request == request,
            r.value == value,
            r.index == self.ctrl_index,
            r.data == data,
            r.timeout_ms == control_timeout(self.timeout_ms),
    {
        ControlRequest {
            request,
            value,
            index: self.ctrl_index,
            data,
            timeout_ms: self.control_timeout_ms(),
        }
    }

    /// The `SET_LINE_CODING` request that applies `conf`; `NotConnected`
    /// when the session is disconnected.
    pub fn line_coding_request(&self, conf: SerialConfig) -> (r: Result<ControlRequest, SerialError>)
        ensures
            !self.connected ==> r == Err::<ControlRequest, SerialError>(SerialError::NotConnected),
            self.connected ==> (r matches Ok(req) && req.request == SET_LINE_CODING && req.value == 0
                && req.index == self.ctrl_index && req.data@ == line_coding(conf) && req.timeout_ms
                == control_timeout(self.timeout_ms)),
    {
        if !self.connected {
            return Err(SerialError::NotConnected);
        }
        let bytes = conf.line_coding_bytes();
        let mut data: Vec<u8> = Vec::new();
        let mut i: usize = 0;
        while i < LINE_CODING_LEN
            invariant
                i <= 7,
                bytes@.len() == 7,
                data@ == bytes@.take(i as int),
            decreases 7 - i,
        {
            data.push(bytes[i]);
            i = i + 1;
            assert(data@ =~= bytes@.take(i as int));
        }
        assert(data@ =~= bytes@);
        Ok(self.control_request(SET_LINE_CODING, 0, data))
    }

    /// Records the outcome of the `SET_LINE_CODING` request for `conf`:
    /// exactly 7 bytes written applies it; a short write is
    /// `IncompleteTransfer` and leaves the cached configuration alone.
    pub fn finish_set_config(
        &mut self,
        conf: SerialConfig,
        outcome: Result<usize, TransferError>,
    ) -> (r: Result<(), SerialError>)
        ensures
            r == control_result(7, outcome),
            final(self).ser_conf == (if r is Ok {
                Some(conf)
            } else {
                old(self).ser_conf
            }),
            final(self).connected == (old(self).connected && outcome != Err::<usize, TransferError>(
                TransferError::Disconnected,
            )),
            final(self).ctrl_index == old(self).ctrl_index,
            final(self).timeout_ms == old(self).timeout_ms,
            final(self).dtr_rts == old(self).dtr_rts,
            final(self).break_on == old(self).break_on,
            final(self).reader == old(self).reader,
            final(self).writer == old(self).writer,
    {
        let r = control_outcome(LINE_CODING_LEN, outcome);
        if let Err(TransferError::Disconnected) = outcome {
            self.connected = false;
        }
        if r.is_ok() {
            self.ser_conf = Some(conf);
        }
        r
    }

    /// The `SET_CONTROL_LINE_STATE` request for the given DTR and RTS states.
    pub fn control_line_request(&self, dtr: bool, rts: bool) -> (r: Result<
        ControlRequest,
        SerialError,
    >)
        ensures
            !self.connected ==> r == Err::<ControlRequest, SerialError>(SerialError::NotConnected),
            self.connected ==> (r matches Ok(req) && req.request == SET_CONTROL_LINE_STATE
                && req.value == control_line_value(dtr, rts) && req.index == self.ctrl_index
                && req.data@.len() == 0 && req.timeout_ms == control_timeout(self.timeout_ms)),
    {
        if !self.connected {
            return Err(SerialError::NotConnected);
        }
        let val_dtr: u16 = if dtr {
            1
        } else {
            0
        };
        let val_rts: u16 = if rts {
            2
        } else {
            0
        };
        Ok(self.control_request(SET_CONTROL_LINE_STATE, val_dtr + val_rts, Vec::new()))
    }

    /// Records the outcome of the `SET_CONTROL_LINE_STATE` request.
    pub fn finish_set_dtr_rts(
        &mut self,
        dtr: bool,
        rts: bool,
        outcome: Result<usize, TransferError>,
    ) -> (r: Result<(), SerialError>)
        ensures
            r == control_result(0, outcome),
            final(self).dtr_rts == (if r is Ok {
                (dtr, rts)
            } else {
                old(self).dtr_rts
            }),
            final(self).connected == (old(self).connected && outcome != Err::<usize, TransferError>(
                TransferError::Disconnected,
            )),
            final(self).ctrl_index == old(self).ctrl_index,
            final(self).timeout_ms == old(self).timeout_ms,
            final(self).ser_conf == old(self).ser_conf,
            final(self).break_on == old(self).break_on,
            final(self).reader == old(self).reader,
            final(self).writer == old(self).writer,
    {
        let r = control_outcome(0, outcome);
        if let Err(TransferError::Disconnected) = outcome {
            self.connected = false;
        }
        if r.is_ok() {
            self.dtr_rts = (dtr, rts);
        }
        r
    }

    /// The `SEND_BREAK` request that asserts (`on`) or clears the break.
    pub fn break_request(&self, on: bool) -> (r: Result<ControlRequest, SerialError>)
        ensures
            !self.connected ==> r == Err::<ControlRequest, SerialError>(SerialError::NotConnected),
            self.connected ==> (r matches Ok(req) && req.request == SEND_BREAK && req.value
                == break_value(on) && req.index == self.ctrl_index && req.data@.len() == 0
                && req.timeout_ms == control_timeout(self.timeout_ms)),
    {
        if !self.connected {
            return Err(SerialError::NotConnected);
        }
        let value: u16 = if on {
            0xffff
        } else {
            0
        };
        Ok(self.control_request(SEND_BREAK, value, Vec::new()))
    }

    /// Records the outcome of the `SEND_BREAK` request.
    pub fn finish_set_break(&mut self, on: bool, outcome: Result<usize, TransferError>) -> (r: Result<
        (),
        SerialError,
    >)
        ensures
            r == control_result(0, outcome),
            final(self).break_on == (if r is Ok {
                on
            } else {
                old(self).break_on
            }),
            final(self).connected == (old(self).connected && outcome != Err::<usize, TransferError>(
                TransferError::Disconnected,
            )),
            final(self).ctrl_index == old(self).ctrl_index,
            final(self).timeout_ms == old(self).timeout_ms,
            final(self).ser_conf == old(self).ser_conf,
            final(self).dtr_rts == old(self).dtr_rts,
            final(self).reader == old(self).reader,
            final(self).writer == old(self).writer,
    {
        let r = control_outcome(0, outcome);
        if let Err(TransferError::Disconnected) = outcome {
            self.connected = false;
        }
        if r.is_ok() {
            self.break_on = on;
        }
        r
    }
}

} // verus!
