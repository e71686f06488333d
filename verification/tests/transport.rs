use bytes::BytesMut;
use reactor_core::{
    EngineState, OutboundItem, ReadAction, ReadEvent, SendOutcome, TcpTransport,
    TcpTransportCodec,
};

#[test]
fn fresh_transport_is_active_and_idle() {
    let mut t = TcpTransport::new();
    assert_eq!(t.state(), EngineState::Active);
    assert_eq!(t.next_outbound(), OutboundItem::Idle);
}

#[test]
fn inbound_chunks_are_delivered_in_order() {
    let mut t = TcpTransport::new();
    let actions = t.read_from_socket(vec![
        ReadEvent::Data(b"one".to_vec()),
        ReadEvent::Data(b"two".to_vec()),
        ReadEvent::NotReady,
    ]);
    assert_eq!(
        actions,
        vec![
            ReadAction::DataReceived(b"one".to_vec()),
            ReadAction::DataReceived(b"two".to_vec()),
        ]
    );
    assert_eq!(t.state(), EngineState::Active);
}

#[test]
fn eof_reports_connection_lost_once_and_stops_delivery() {
    let mut t = TcpTransport::new();
    let actions = t.read_from_socket(vec![
        ReadEvent::Data(b"tail".to_vec()),
        ReadEvent::Eof,
        ReadEvent::Data(b"late".to_vec()),
    ]);
    assert_eq!(
        actions,
        vec![
            ReadAction::DataReceived(b"tail".to_vec()),
            ReadAction::ConnectionLostClean,
        ]
    );
    assert_eq!(t.state(), EngineState::Done);
    let after = t.read_from_socket(vec![ReadEvent::Data(b"more".to_vec())]);
    assert!(after.is_empty());
    assert_eq!(t.state(), EngineState::Done);
}

#[test]
fn read_error_fails_the_engine() {
    let mut t = TcpTransport::new();
    let actions = t.read_from_socket(vec![ReadEvent::ReadError]);
    assert_eq!(actions, vec![ReadAction::ConnectionLostFailed]);
    assert_eq!(t.state(), EngineState::Failed);
}

#[test]
fn write_accepted_before_close_is_delivered() {
    let mut t = TcpTransport::new();
    t.write(b"payload".to_vec());
    t.close();
    let (actions, sent) = t.poll(
        vec![ReadEvent::NotReady],
        &vec![SendOutcome::Accepted],
        true,
    );
    assert!(actions.is_empty());
    assert_eq!(sent, vec![b"payload".to_vec()]);
    assert_eq!(t.state(), EngineState::Done);
}

#[test]
fn write_refused_when_close_arrives_stays_buffered() {
    let mut t = TcpTransport::new();
    t.write(b"payload".to_vec());
    t.close();
    let (_, sent) = t.poll(vec![ReadEvent::NotReady], &vec![SendOutcome::Backpressure], false);
    assert!(sent.is_empty());
    assert_eq!(t.state(), EngineState::Active);
    let (_, sent2) = t.poll(
        vec![ReadEvent::NotReady],
        &vec![SendOutcome::Accepted],
        true,
    );
    assert_eq!(sent2, vec![b"payload".to_vec()]);
    assert_eq!(t.state(), EngineState::Done);
}

#[test]
fn backpressure_retries_same_bytes_unmodified() {
    let mut t = TcpTransport::new();
    t.write(b"retry me".to_vec());
    let (_, sent) = t.poll(vec![ReadEvent::NotReady], &vec![SendOutcome::Backpressure], false);
    assert!(sent.is_empty());
    assert_eq!(t.state(), EngineState::Active);
    let (_, sent2) = t.poll(
        vec![ReadEvent::NotReady],
        &vec![SendOutcome::Accepted],
        true,
    );
    assert_eq!(sent2, vec![b"retry me".to_vec()]);
}

#[test]
fn backpressure_step_hands_back_same_bytes() {
    let mut t = TcpTransport::new();
    t.write(b"abc".to_vec());
    match t.next_outbound() {
        OutboundItem::Data(b) => {
            assert_eq!(b, b"abc".to_vec());
            t.on_send_backpressure(b);
        }
        other => panic!("expected data, got {:?}", other),
    }
    assert_eq!(t.next_outbound(), OutboundItem::Data(b"abc".to_vec()));
}

#[test]
fn send_error_fails_the_engine() {
    let mut t = TcpTransport::new();
    t.write(b"doomed".to_vec());
    let (_, sent) = t.poll(vec![ReadEvent::NotReady], &vec![SendOutcome::SendError], false);
    assert!(sent.is_empty());
    assert_eq!(t.state(), EngineState::Failed);
}

#[test]
fn close_terminates_without_draining_later_items() {
    let mut t = TcpTransport::new();
    t.close();
    t.write(b"after close".to_vec());
    let (_, sent) = t.poll(vec![ReadEvent::NotReady], &vec![SendOutcome::Accepted], true);
    assert!(sent.is_empty());
    assert_eq!(t.state(), EngineState::Done);
}

#[test]
fn writes_after_termination_are_dropped() {
    let mut t = TcpTransport::new();
    t.read_from_socket(vec![ReadEvent::Eof]);
    t.write(b"ignored".to_vec());
    let (actions, sent) = t.poll(vec![ReadEvent::NotReady], &vec![SendOutcome::Accepted], true);
    assert!(actions.is_empty());
    assert!(sent.is_empty());
    assert_eq!(t.next_outbound(), OutboundItem::Finished);
}

#[test]
fn fifo_order_is_kept_across_writes() {
    let mut t = TcpTransport::new();
    t.write(b"first".to_vec());
    t.write(b"second".to_vec());
    t.write(b"third".to_vec());
    let (_, sent) = t.poll(
        vec![ReadEvent::NotReady],
        &vec![SendOutcome::Accepted, SendOutcome::Accepted, SendOutcome::Accepted],
        true,
    );
    assert_eq!(
        sent,
        vec![b"first".to_vec(), b"second".to_vec(), b"third".to_vec()]
    );
    assert_eq!(t.state(), EngineState::Active);
}

#[test]
fn get_extra_info_returns_default() {
    let t = TcpTransport::new();
    assert_eq!(t.get_extra_info(b"peername", None), None);
    assert_eq!(
        t.get_extra_info(b"peername", Some(b"fallback".to_vec())),
        Some(b"fallback".to_vec())
    );
}

#[test]
fn decode_takes_everything_available() {
    let mut codec = TcpTransportCodec;
    let mut src = BytesMut::from(&b"hello world"[..]);
    let chunk = codec.decode(&mut src).expect("non-empty buffer decodes");
    assert_eq!(&chunk[..], b"hello world");
    assert!(src.is_empty());
    assert!(codec.decode(&mut src).is_none());
}

#[test]
fn encode_appends_verbatim_in_order() {
    let mut codec = TcpTransportCodec;
    let mut dst = BytesMut::new();
    codec.encode(b"ab".to_vec(), &mut dst);
    codec.encode(b"cd".to_vec(), &mut dst);
    assert_eq!(&dst[..], b"abcd");
}
