use frame_bridge::connection::{ExchangeReply, FrameExchange, HandshakeReply, FRAME_PACKET_LEN};
use frame_bridge::error::BridgeError;
use frame_bridge::publisher::{Publication, Worker, WorkerAction};
use frame_bridge::{Connection, Frame, Header, Kind, Plane, PublishedFrame, Publisher, HEADER_LEN};

fn connection() -> Connection {
    let mut packet = Header {
        kind: Kind::Ready,
        payload_len: 4,
        sequence: 1,
    }
    .encode()
    .to_vec();
    packet.extend([0; 4]);
    let mut handshake = Connection::connect(b"/run/bridge", 108, 2, 1);
    handshake.step(HandshakeReply::Socket { fd: 11, errno: 0 });
    handshake.step(HandshakeReply::Connected {
        status: 0,
        errno: 0,
    });
    handshake.step(HandshakeReply::Sent {
        count: HEADER_LEN as isize,
        errno: 0,
    });
    handshake.step(HandshakeReply::Received {
        packet: Some(packet),
        errno: 0,
    });
    handshake.outcome().unwrap().ok().unwrap()
}

fn frame() -> Frame {
    Frame {
        display_id: 1,
        width: 2,
        height: 3,
        drm_format: 4,
        modifier: 5,
        plane_count: 1,
        has_acquire_fence: true,
        slot_id: 6,
        planes: [Plane::default(); 4],
    }
}

/// An exchange whose packet is out.
fn waiting(sequence: u32) -> FrameExchange {
    let mut exchange = connection().send_frame(sequence, frame(), &[7], Some(8));
    exchange.step(ExchangeReply::Sent {
        count: FRAME_PACKET_LEN as isize,
        errno: 0,
    });
    exchange
}

fn answered(sequence: u32, kind: Kind) -> FrameExchange {
    let mut exchange = waiting(sequence);
    let answer = Header {
        kind,
        payload_len: 0,
        sequence,
    };
    exchange.step(ExchangeReply::Received {
        packet: Some(answer.encode().to_vec()),
        errno: 0,
    });
    exchange
}

fn released(sequence: u32) -> FrameExchange {
    answered(sequence, Kind::Release)
}

fn replaced(publication: Publication<&'static str>) -> Option<&'static str> {
    match publication {
        Publication::Pending { replaced } => replaced,
        Publication::Rejected { .. } => panic!("rejected"),
    }
}

#[test]
fn latest_frame_wins_and_the_superseded_ones_are_handed_back() {
    let mut publisher = Publisher::new(&connection());
    let mut worker = Worker::new();
    assert_eq!(publisher.socket_fd(), 11);
    assert_eq!(worker.poll(&mut publisher), WorkerAction::Wait);
    assert_eq!(replaced(publisher.publish("a")), None);
    assert_eq!(replaced(publisher.publish("b")), Some("a"));
    assert_eq!(replaced(publisher.publish("c")), Some("b"));
    assert_eq!(
        worker.poll(&mut publisher),
        WorkerAction::Send { sequence: 1 }
    );
    assert_eq!(worker.frame(), Some(&"c"));
    assert!(!worker.idle());
}

#[test]
fn frame_in_flight_is_kept_until_its_exchange_ends() {
    let mut publisher = Publisher::new(&connection());
    let mut worker = Worker::new();
    publisher.publish("a");
    worker.poll(&mut publisher);
    assert_eq!(replaced(publisher.publish("b")), None);
    assert_eq!(replaced(publisher.publish("c")), Some("b"));
    assert!(worker.settle(&mut publisher, &waiting(1)).is_none());
    assert!(worker.settle(&mut publisher, &released(2)).is_none());
    assert_eq!(worker.frame(), Some(&"a"));
    let settled = worker.settle(&mut publisher, &released(1)).unwrap();
    assert_eq!(settled.frame, "a");
    assert_eq!(settled.abandoned, None);
    assert_eq!(settled.report, None);
    assert!(worker.idle());
    assert!(worker.settle(&mut publisher, &released(1)).is_none());
    assert_eq!(
        worker.poll(&mut publisher),
        WorkerAction::Send { sequence: 2 }
    );
    assert_eq!(worker.frame(), Some(&"c"));
}

#[test]
fn failed_exchange_is_reported_and_ends_the_worker() {
    let mut publisher = Publisher::new(&connection());
    let mut worker = Worker::new();
    publisher.publish("a");
    worker.poll(&mut publisher);
    let settled = worker
        .settle(&mut publisher, &answered(1, Kind::Goodbye))
        .unwrap();
    assert_eq!(settled.frame, "a");
    assert_eq!(settled.abandoned, None);
    assert_eq!(settled.report, Some(BridgeError::WrongRelease));
    assert!(!worker.idle());
    assert_eq!(worker.frame(), None);
}

#[test]
fn disconnect_gives_up_the_pending_frame_and_refuses_later_ones() {
    let mut publisher = Publisher::new(&connection());
    let mut worker = Worker::new();
    publisher.publish("a");
    worker.poll(&mut publisher);
    publisher.publish("b");
    let mut exchange = waiting(1);
    exchange.step(ExchangeReply::Received {
        packet: None,
        errno: 104,
    });
    let settled = worker.settle(&mut publisher, &exchange).unwrap();
    assert_eq!(settled.frame, "a");
    assert_eq!(settled.abandoned, Some("b"));
    assert_eq!(settled.report, Some(BridgeError::Os(104)));
    assert!(!worker.idle());
    match publisher.publish("c") {
        Publication::Rejected { frame } => assert_eq!(frame, "c"),
        Publication::Pending { .. } => panic!("pending"),
    }
    assert_eq!(publisher.stop(), None);
}

#[test]
fn disconnect_is_worded_with_its_failure() {
    assert_eq!(
        BridgeError::Os(104).disconnect_report("Connection reset by peer (os error 104)"),
        "frame_bridge state=disconnected error=Connection reset by peer (os error 104)"
    );
    assert_eq!(
        BridgeError::WrongRelease.disconnect_report("unused"),
        "frame_bridge state=disconnected error=bridge released the wrong frame"
    );
    assert_eq!(BridgeError::Os(1).message_with("text"), "text");
    assert_eq!(
        BridgeError::InvalidRelease.message_with("text"),
        "invalid bridge Release packet"
    );
}

#[test]
fn stopping_is_final_and_silences_the_failure_that_it_causes() {
    let mut publisher = Publisher::new(&connection());
    let mut worker = Worker::new();
    publisher.publish("a");
    worker.poll(&mut publisher);
    publisher.publish("b");
    assert_eq!(publisher.stop(), Some("b"));
    assert_eq!(publisher.stop(), None);
    match publisher.publish("c") {
        Publication::Rejected { frame } => assert_eq!(frame, "c"),
        Publication::Pending { .. } => panic!("pending"),
    }
    let settled = worker
        .settle(&mut publisher, &answered(1, Kind::Goodbye))
        .unwrap();
    assert_eq!(settled.frame, "a");
    assert_eq!(settled.abandoned, None);
    assert_eq!(settled.report, None);
    let mut idle: Worker<&'static str> = Worker::new();
    assert_eq!(idle.poll(&mut publisher), WorkerAction::Exit);
    assert!(!idle.idle());
}

#[test]
fn sequences_are_consecutive() {
    let mut publisher = Publisher::new(&connection());
    let mut worker = Worker::new();
    for sequence in 1..=300 {
        publisher.publish(sequence);
        assert_eq!(
            worker.poll(&mut publisher),
            WorkerAction::Send { sequence }
        );
        assert_eq!(
            worker.settle(&mut publisher, &released(sequence)).unwrap().frame,
            sequence
        );
    }
}

#[test]
fn release_is_taken_out_of_a_frame_once() {
    let frame = frame();
    let mut published = PublishedFrame::new(frame, vec![7], Some(8), "done");
    assert_eq!(published.frame, frame);
    assert_eq!(published.plane_fds, vec![7]);
    assert_eq!(published.acquire_fence, Some(8));
    assert_eq!(published.take_release(), Some("done"));
    assert_eq!(published.take_release(), None);
}
