use tello_link::command::{CommandError, Exchange};
use tello_link::video_capture::{
    is_receive_timeout, FaultKind, Received, TelloVideoCapture, FAULT_LIMIT, MAX_DATAGRAM,
    OS_TIMED_OUT, VIDEO_PORT, VIDEO_READ_TIMEOUT_MS,
};
use tello_link::video_stream::{forward_tick, start_video_stream, Forward, FORWARD_PERIOD_MS};

fn started() -> TelloVideoCapture {
    let mut capture = TelloVideoCapture::new();
    capture.start();
    capture
}

#[test]
fn video_constants_have_their_values() {
    assert_eq!(VIDEO_PORT, 11111);
    assert_eq!(MAX_DATAGRAM, 65536);
    assert_eq!(VIDEO_READ_TIMEOUT_MS, 500);
    assert_eq!(FAULT_LIMIT, 60);
    assert_eq!(OS_TIMED_OUT, 10060);
    assert_eq!(FORWARD_PERIOD_MS, 33);
}

#[test]
fn new_capture_is_idle_and_empty() {
    let capture = TelloVideoCapture::new();
    assert!(!capture.is_running());
    assert_eq!(capture.get_packet(), None);
}

#[test]
fn no_packet_before_any_datagram() {
    let capture = started();
    assert!(capture.is_running());
    assert_eq!(capture.get_packet(), None);
}

#[test]
fn one_datagram_is_returned_whole() {
    let mut capture = started();
    let payload: Vec<u8> = (0..1460u32).map(|i| (i % 251) as u8).collect();
    assert!(capture.record(Received::Datagram(payload.clone())));
    assert_eq!(capture.get_packet(), Some(payload));
}

#[test]
fn second_datagram_replaces_the_first() {
    let mut capture = started();
    assert!(capture.record(Received::Datagram(vec![0, 0, 0, 1, 0x67])));
    assert!(capture.record(Received::Datagram(vec![0, 0, 0, 1, 0x68, 0xce])));
    assert_eq!(capture.get_packet(), Some(vec![0, 0, 0, 1, 0x68, 0xce]));
}

#[test]
fn reading_does_not_consume_the_packet() {
    let mut capture = started();
    capture.record(Received::Datagram(vec![1, 2, 3]));
    assert_eq!(capture.get_packet(), Some(vec![1, 2, 3]));
    assert_eq!(capture.get_packet(), Some(vec![1, 2, 3]));
}

#[test]
fn empty_and_largest_datagrams_are_kept() {
    let mut capture = started();
    assert!(capture.record(Received::Datagram(Vec::new())));
    assert_eq!(capture.get_packet(), Some(Vec::new()));
    let largest = vec![0xabu8; MAX_DATAGRAM];
    assert!(capture.record(Received::Datagram(largest.clone())));
    assert_eq!(capture.get_packet(), Some(largest));
}

#[test]
fn timeouts_and_faults_leave_the_packet() {
    let mut capture = started();
    capture.record(Received::Datagram(vec![9]));
    assert!(capture.record(Received::TimedOut));
    assert!(capture.record(Received::Failed));
    assert_eq!(capture.get_packet(), Some(vec![9]));
}

#[test]
fn timeouts_never_end_the_loop() {
    let mut capture = started();
    for _ in 0..1000 {
        assert!(capture.record(Received::TimedOut));
    }
    assert!(capture.is_running());
}

#[test]
fn loop_ends_after_more_faults_than_the_limit() {
    let mut capture = started();
    for _ in 0..60 {
        assert!(capture.record(Received::Failed));
    }
    assert!(!capture.record(Received::Failed));
    assert!(!capture.record(Received::Failed));
    assert!(!capture.record(Received::TimedOut));
}

#[test]
fn datagram_ends_a_run_of_faults() {
    let mut capture = started();
    for _ in 0..60 {
        assert!(capture.record(Received::Failed));
    }
    assert!(capture.record(Received::Datagram(vec![1])));
    for _ in 0..60 {
        assert!(capture.record(Received::Failed));
    }
    assert!(!capture.record(Received::Failed));
}

#[test]
fn timeouts_between_faults_are_not_counted() {
    let mut capture = started();
    for _ in 0..60 {
        assert!(capture.record(Received::Failed));
        assert!(capture.record(Received::TimedOut));
    }
    assert!(!capture.record(Received::Failed));
}

#[test]
fn stop_ends_the_loop_and_keeps_the_packet() {
    let mut capture = started();
    capture.record(Received::Datagram(vec![5, 6]));
    capture.stop();
    assert!(!capture.is_running());
    assert!(!capture.record(Received::TimedOut));
    assert_eq!(capture.get_packet(), Some(vec![5, 6]));
}

#[test]
fn stop_may_be_called_again() {
    let mut capture = started();
    capture.stop();
    capture.stop();
    assert!(!capture.is_running());
    let mut never_started = TelloVideoCapture::new();
    never_started.stop();
    assert!(!never_started.is_running());
}

#[test]
fn restart_forgets_the_faults_and_keeps_the_packet() {
    let mut capture = started();
    capture.record(Received::Datagram(vec![7]));
    for _ in 0..61 {
        capture.record(Received::Failed);
    }
    capture.stop();
    capture.start();
    assert!(capture.is_running());
    assert!(capture.record(Received::Failed));
    assert_eq!(capture.get_packet(), Some(vec![7]));
}

#[test]
fn timeouts_are_told_from_faults() {
    assert!(is_receive_timeout(FaultKind::WouldBlock, None));
    assert!(is_receive_timeout(FaultKind::TimedOut, None));
    assert!(is_receive_timeout(FaultKind::TimedOut, Some(110)));
    assert!(is_receive_timeout(FaultKind::Other, Some(10060)));
    assert!(!is_receive_timeout(FaultKind::Other, Some(10054)));
    assert!(!is_receive_timeout(FaultKind::Other, None));
}

#[test]
fn tick_without_receiver_stops() {
    assert_eq!(forward_tick(None), Forward::Stop);
}

#[test]
fn tick_without_packet_is_idle() {
    let capture = started();
    assert_eq!(forward_tick(Some(&capture)), Forward::Idle);
    assert_eq!(forward_tick(Some(&capture)), Forward::Idle);
    let idle = TelloVideoCapture::new();
    assert_eq!(forward_tick(Some(&idle)), Forward::Idle);
}

#[test]
fn tick_emits_the_latest_packet_in_base64() {
    let mut capture = started();
    capture.record(Received::Datagram(b"hello".to_vec()));
    assert_eq!(forward_tick(Some(&capture)), Forward::Emit("aGVsbG8=".to_string()));
    capture.record(Received::Datagram(vec![0, 0, 0, 1, 0x67, 0x42]));
    assert_eq!(forward_tick(Some(&capture)), Forward::Emit("AAAAAWdC".to_string()));
    capture.record(Received::Datagram(vec![0xfb, 0xff]));
    assert_eq!(forward_tick(Some(&capture)), Forward::Emit("+/8=".to_string()));
    capture.record(Received::Datagram(Vec::new()));
    assert_eq!(forward_tick(Some(&capture)), Forward::Emit(String::new()));
}

#[test]
fn tick_emits_the_same_packet_until_a_newer_one_arrives() {
    let mut capture = started();
    capture.record(Received::Datagram(b"a".to_vec()));
    assert_eq!(forward_tick(Some(&capture)), Forward::Emit("YQ==".to_string()));
    capture.record(Received::TimedOut);
    assert_eq!(forward_tick(Some(&capture)), Forward::Emit("YQ==".to_string()));
}

#[test]
fn tick_encodes_the_largest_datagram() {
    let mut capture = started();
    capture.record(Received::Datagram(vec![0u8; MAX_DATAGRAM]));
    match forward_tick(Some(&capture)) {
        Forward::Emit(text) => {
            assert_eq!(text.len(), 87384);
            assert!(text.starts_with("AAAA"));
            assert!(text.ends_with("AA=="));
        }
        other => panic!("expected a packet, got {other:?}"),
    }
}

#[test]
fn acknowledged_streamon_starts_a_receiver() {
    let started = start_video_stream(Exchange::Reply(b"ok".to_vec())).unwrap();
    assert!(started.result.success);
    assert_eq!(started.result.message, "ok");
    let capture = started.capture.unwrap();
    assert!(capture.is_running());
    assert_eq!(capture.get_packet(), None);
}

#[test]
fn refused_streamon_starts_nothing() {
    let started = start_video_stream(Exchange::Reply(b"error".to_vec())).unwrap();
    assert!(!started.result.success);
    assert_eq!(started.result.message, "error");
    assert!(started.capture.is_none());
}

#[test]
fn streamon_fault_is_reported() {
    let error = start_video_stream(Exchange::NoSocket).unwrap_err();
    assert_eq!(error, CommandError::NotConnected);
    let error = start_video_stream(Exchange::ReceiveFailed("timed out".to_string())).unwrap_err();
    assert_eq!(error, CommandError::Timeout("timed out".to_string()));
}
