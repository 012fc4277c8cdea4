use android_usbser::config::{DataBits, Parity, SerialConfig, StopBits};
use android_usbser::descriptor::{find_interfaces, probe, DeviceInfo, InterfaceInfo};
use android_usbser::engine::{Action, Phase, TransferEngine};
use android_usbser::error::{OtherCause, SerialError, TransferError};
use android_usbser::session::{
    ControlRequest, SerialSession, SEND_BREAK, SET_CONTROL_LINE_STATE, SET_LINE_CODING,
};

/// How the simulated queue answers one submitted request.
enum Answer {
    /// The completion arrives before the deadline.
    InTime(Result<(), TransferError>, Vec<u8>),
    /// The deadline expires; after cancellation `pending` requests remain and
    /// the cancelled completion (if any remains) carries this.
    Late(usize, Result<(), TransferError>, Vec<u8>),
}

#[derive(Debug, PartialEq)]
struct Trace {
    submits: usize,
    cancels: usize,
    clear_halts: usize,
}

fn run_read(s: &mut SerialSession, out: &mut [u8], answer: Answer) -> (Result<usize, SerialError>, Trace) {
    let mut t = Trace { submits: 0, cancels: 0, clear_halts: 0 };
    let mut action = s.begin_read(out.len());
    loop {
        action = match action {
            Action::Submit { buffer, len, .. } => {
                t.submits += 1;
                assert_eq!(len, out.len());
                drop(buffer);
                match &answer {
                    Answer::InTime(status, data) => s.complete_read(*status, data.clone(), out),
                    Answer::Late(..) => s.read_deadline(),
                }
            }
            Action::Cancel => {
                t.cancels += 1;
                match &answer {
                    Answer::Late(pending, ..) => s.read_cancel_issued(*pending),
                    Answer::InTime(..) => unreachable!(),
                }
            }
            Action::AwaitCancelled => match &answer {
                Answer::Late(_, status, data) => s.complete_read(*status, data.clone(), out),
                Answer::InTime(..) => unreachable!(),
            },
            Action::ClearHalt(e) => {
                t.clear_halts += 1;
                return (Err(e), t);
            }
            Action::Finish(r) => return (r, t),
        }
    }
}

fn run_write(s: &mut SerialSession, data: &[u8], answer: Answer) -> (Result<usize, SerialError>, Trace) {
    let mut t = Trace { submits: 0, cancels: 0, clear_halts: 0 };
    let mut action = s.begin_write(data);
    let mut sent = Vec::new();
    loop {
        action = match action {
            Action::Submit { buffer, len, .. } => {
                t.submits += 1;
                assert_eq!(buffer, data.to_vec());
                assert_eq!(len, data.len());
                sent = buffer;
                match &answer {
                    Answer::InTime(status, n) => s.complete_write(*status, n.len(), std::mem::take(&mut sent)),
                    Answer::Late(..) => s.write_deadline(),
                }
            }
            Action::Cancel => {
                t.cancels += 1;
                match &answer {
                    Answer::Late(pending, ..) => s.write_cancel_issued(*pending),
                    Answer::InTime(..) => unreachable!(),
                }
            }
            Action::AwaitCancelled => match &answer {
                Answer::Late(_, status, n) => s.complete_write(*status, n.len(), std::mem::take(&mut sent)),
                Answer::InTime(..) => unreachable!(),
            },
            Action::ClearHalt(e) => {
                t.clear_halts += 1;
                return (Err(e), t);
            }
            Action::Finish(r) => return (r, t),
        }
    }
}

fn acm_device() -> DeviceInfo {
    let intf = |n: u8, class: u8, sub_class: u8| InterfaceInfo {
        interface_number: n,
        alternate_setting: Some(0),
        class,
        sub_class,
        protocol: 0,
        num_endpoints: 2,
    };
    DeviceInfo {
        vendor_id: 0x1a86,
        product_id: 0x55d4,
        class: 0x02,
        subclass: 0,
        protocol: 0,
        path_name: "/dev/bus/usb/002/007".to_string(),
        manufacturer_string: Some("Sim".to_string()),
        product_string: None,
        version: Some("2.00".to_string()),
        serial_number: None,
        interfaces: vec![intf(3, 0x02, 0x02), intf(4, 0x0A, 0x00)],
    }
}

fn session(timeout_ms: u32) -> SerialSession {
    let (comm, _) = find_interfaces(&acm_device()).unwrap();
    SerialSession::new(&comm, timeout_ms)
}

#[test]
fn empty_read_and_write_return_zero_without_transfer() {
    let mut s = session(100);
    let (r, t) = run_read(&mut s, &mut [], Answer::InTime(Ok(()), vec![1]));
    assert_eq!(r, Ok(0));
    assert_eq!(t.submits, 0);
    let (r, t) = run_write(&mut s, &[], Answer::InTime(Ok(()), vec![1]));
    assert_eq!(r, Ok(0));
    assert_eq!(t.submits, 0);
    let mut e = TransferEngine::new();
    assert!(matches!(e.begin_read(0, 5), Action::Finish(Ok(0))));
    assert_eq!(e.phase, Phase::Idle);
    assert!(matches!(e.begin_write(&[], 5), Action::Finish(Ok(0))));
    assert_eq!(e.phase, Phase::Idle);
}

#[test]
fn read_in_time_copies_prefix() {
    let mut s = session(100);
    let mut out = [0xEEu8; 8];
    let (r, t) = run_read(&mut s, &mut out, Answer::InTime(Ok(()), vec![1, 2, 3]));
    assert_eq!(r, Ok(3));
    assert_eq!(out, [1, 2, 3, 0xEE, 0xEE, 0xEE, 0xEE, 0xEE]);
    assert_eq!(t, Trace { submits: 1, cancels: 0, clear_halts: 0 });
    assert_eq!(s.reader.phase, Phase::Idle);
    assert_eq!(s.reader.slot, Some(vec![1, 2, 3]));
}

#[test]
fn read_deadline_with_no_bytes_times_out() {
    let mut s = session(100);
    let mut out = [0u8; 4];
    let (r, t) = run_read(&mut s, &mut out, Answer::Late(1, Err(TransferError::Cancelled), vec![]));
    assert_eq!(r, Err(SerialError::TimedOut));
    assert_eq!(out, [0; 4]);
    assert_eq!(t, Trace { submits: 1, cancels: 1, clear_halts: 0 });
    assert!(s.is_connected());
}

#[test]
fn read_deadline_with_partial_bytes_succeeds() {
    let mut s = session(100);
    let mut out = [0u8; 4];
    let (r, _) = run_read(&mut s, &mut out, Answer::Late(1, Err(TransferError::Cancelled), vec![9, 8]));
    assert_eq!(r, Ok(2));
    assert_eq!(out, [9, 8, 0, 0]);
}

#[test]
fn read_result_lost_to_deadline_race() {
    let mut s = session(100);
    let mut out = [0u8; 4];
    let (r, t) = run_read(&mut s, &mut out, Answer::Late(0, Ok(()), vec![1]));
    assert_eq!(r, Err(SerialError::Other(OtherCause::ResultUnavailable)));
    assert_eq!(t.cancels, 1);
    assert_eq!(s.reader.phase, Phase::Idle);
    assert_eq!(s.reader.slot, Some(Vec::new()));
    // the engine is usable again
    let (r, _) = run_read(&mut s, &mut out, Answer::InTime(Ok(()), vec![5]));
    assert_eq!(r, Ok(1));
}

#[test]
fn read_stall_clears_halt_and_fails() {
    let mut s = session(100);
    let mut out = [0u8; 4];
    let (r, t) = run_read(&mut s, &mut out, Answer::InTime(Err(TransferError::Stall), vec![]));
    assert_eq!(r, Err(SerialError::Stall));
    assert_eq!(t.clear_halts, 1);
    assert!(s.is_connected());
}

#[test]
fn read_other_failures_are_wrapped() {
    let mut s = session(100);
    let mut out = [0u8; 4];
    let (r, _) = run_read(&mut s, &mut out, Answer::InTime(Err(TransferError::Fault), vec![]));
    assert_eq!(r, Err(SerialError::Other(OtherCause::Transfer(TransferError::Fault))));
    let (r, _) = run_read(&mut s, &mut out, Answer::InTime(Err(TransferError::Unknown), vec![]));
    assert_eq!(r, Err(SerialError::Other(OtherCause::Transfer(TransferError::Unknown))));
}

#[test]
fn write_in_time_and_late() {
    let mut s = session(100);
    let (r, t) = run_write(&mut s, &[1, 2, 3], Answer::InTime(Ok(()), vec![0; 3]));
    assert_eq!(r, Ok(3));
    assert_eq!(t.submits, 1);
    let (r, _) = run_write(&mut s, &[1, 2, 3], Answer::Late(1, Err(TransferError::Cancelled), vec![0; 1]));
    assert_eq!(r, Ok(1));
    let (r, _) = run_write(&mut s, &[1, 2, 3], Answer::Late(1, Err(TransferError::Cancelled), vec![]));
    assert_eq!(r, Err(SerialError::TimedOut));
    let (r, t) = run_write(&mut s, &[7], Answer::InTime(Err(TransferError::Stall), vec![]));
    assert_eq!(r, Err(SerialError::Stall));
    assert_eq!(t.clear_halts, 1);
    assert_eq!(s.writer.phase, Phase::Idle);
}

#[test]
fn zero_timeout_means_no_deadline() {
    let mut s = session(0);
    match s.begin_read(4) {
        Action::Submit { deadline_ms, len, .. } => {
            assert_eq!(deadline_ms, None);
            assert_eq!(len, 4);
        }
        other => panic!("unexpected {other:?}"),
    }
    let mut s = session(250);
    match s.begin_write(&[1]) {
        Action::Submit { deadline_ms, .. } => assert_eq!(deadline_ms, Some(250)),
        other => panic!("unexpected {other:?}"),
    }
}

#[test]
fn disconnection_is_sticky() {
    let mut s = session(100);
    let mut out = [0u8; 4];
    let (r, _) = run_read(&mut s, &mut out, Answer::InTime(Err(TransferError::Disconnected), vec![]));
    assert_eq!(r, Err(SerialError::NotConnected));
    assert!(!s.is_connected());
    let (r, t) = run_read(&mut s, &mut out, Answer::InTime(Ok(()), vec![1]));
    assert_eq!(r, Err(SerialError::NotConnected));
    assert_eq!(t.submits, 0);
    let (r, t) = run_write(&mut s, &[1], Answer::InTime(Ok(()), vec![1]));
    assert_eq!(r, Err(SerialError::NotConnected));
    assert_eq!(t.submits, 0);
    assert_eq!(s.line_coding_request(SerialConfig::default()).err(), Some(SerialError::NotConnected));
    assert_eq!(s.control_line_request(true, true).err(), Some(SerialError::NotConnected));
    assert_eq!(s.break_request(true).err(), Some(SerialError::NotConnected));
    assert!(!s.is_connected());
}

#[test]
fn write_disconnection_marks_session() {
    let mut s = session(100);
    let (r, _) = run_write(&mut s, &[1, 2], Answer::Late(1, Err(TransferError::Disconnected), vec![]));
    assert_eq!(r, Err(SerialError::NotConnected));
    assert!(!s.is_connected());
}

fn send(req: &ControlRequest, written: usize) -> Result<usize, TransferError> {
    assert!(written <= req.data.len() || req.data.is_empty());
    Ok(written)
}

#[test]
fn set_config_short_write_is_incomplete() {
    let mut s = session(100);
    let conf = SerialConfig { baud_rate: 19200, parity: Parity::Even, data_bits: DataBits::Seven, stop_bits: StopBits::Two };
    let req = s.line_coding_request(conf).unwrap();
    let r = s.finish_set_config(conf, send(&req, 6));
    assert_eq!(r, Err(SerialError::IncompleteTransfer));
    assert_eq!(s.config(), None);
    let r = s.finish_set_config(conf, send(&req, 7));
    assert_eq!(r, Ok(()));
    assert_eq!(s.config(), Some(conf));
    let other = SerialConfig::default();
    let r = s.finish_set_config(other, send(&req, 0));
    assert_eq!(r, Err(SerialError::IncompleteTransfer));
    assert_eq!(s.config(), Some(conf));
}

#[test]
fn control_failures() {
    let mut s = session(100);
    let conf = SerialConfig::default();
    assert_eq!(
        s.finish_set_config(conf, Err(TransferError::Stall)),
        Err(SerialError::Other(OtherCause::Transfer(TransferError::Stall)))
    );
    assert!(s.is_connected());
    assert_eq!(s.finish_set_dtr_rts(true, true, Err(TransferError::Disconnected)), Err(SerialError::NotConnected));
    assert!(!s.is_connected());
    assert_eq!(s.dtr_rts(), (false, false));
}

#[test]
fn scenario_probe_open_configure() {
    let devs = vec![acm_device()];
    let found = probe(devs);
    assert_eq!(found.len(), 1);
    assert!(found[0] == acm_device());
    let (comm, data) = find_interfaces(&found[0]).unwrap();
    assert_eq!((comm.interface_number, data.interface_number), (3, 4));
    let mut s = SerialSession::new(&comm, 500);
    assert!(s.is_connected());
    assert_eq!(s.config(), None);
    assert_eq!(s.dtr_rts(), (false, false));
    let conf = SerialConfig { baud_rate: 9600, parity: Parity::NoParity, data_bits: DataBits::Eight, stop_bits: StopBits::One };
    let req = s.line_coding_request(conf).unwrap();
    assert_eq!(req.request, SET_LINE_CODING);
    assert_eq!(req.request, 0x20);
    assert_eq!(req.value, 0);
    assert_eq!(req.index, 3);
    assert_eq!(req.data, vec![0x80, 0x25, 0, 0, 0, 0, 8]);
    assert_eq!(req.timeout_ms, 1000);
    assert_eq!(s.finish_set_config(conf, Ok(7)), Ok(()));
    assert_eq!(s.config(), Some(conf));
}

#[test]
fn scenario_dtr_rts_values() {
    let mut s = session(100);
    let req = s.control_line_request(true, false).unwrap();
    assert_eq!(req.request, SET_CONTROL_LINE_STATE);
    assert_eq!(req.request, 0x22);
    assert_eq!(req.value, 0x0001);
    assert!(req.data.is_empty());
    assert_eq!(s.finish_set_dtr_rts(true, false, Ok(0)), Ok(()));
    assert_eq!(s.dtr_rts(), (true, false));
    let req = s.control_line_request(true, true).unwrap();
    assert_eq!(req.value, 0x0003);
    let req = s.control_line_request(false, true).unwrap();
    assert_eq!(req.value, 0x0002);
    let req = s.control_line_request(false, false).unwrap();
    assert_eq!(req.value, 0x0000);
    assert_eq!(req.timeout_ms, 200);
}

#[test]
fn break_values_and_state() {
    let mut s = session(100);
    let req = s.break_request(true).unwrap();
    assert_eq!(req.request, SEND_BREAK);
    assert_eq!(req.request, 0x23);
    assert_eq!(req.value, 0xFFFF);
    assert_eq!(req.index, 3);
    assert_eq!(s.finish_set_break(true, Ok(0)), Ok(()));
    assert!(s.break_on);
    let req = s.break_request(false).unwrap();
    assert_eq!(req.value, 0);
    assert_eq!(s.finish_set_break(false, Ok(1)), Err(SerialError::IncompleteTransfer));
    assert!(s.break_on);
}

#[test]
fn set_timeout_changes_later_deadlines() {
    let mut s = session(100);
    s.set_timeout(40);
    assert_eq!(s.timeout_ms(), 40);
    assert_eq!(s.control_timeout_ms(), 80);
    s.set_timeout(u32::MAX);
    assert_eq!(s.control_timeout_ms(), 2 * u32::MAX as u64);
}
