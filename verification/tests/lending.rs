use frame_bridge::connection::{ExchangeReply, FrameExchange, HandshakeReply, FRAME_PACKET_LEN};
use frame_bridge::creation::CreationReply;
use frame_bridge::publisher::{Publication, Worker, WorkerAction};
use frame_bridge::slot::{ExportReply, SourceImage};
use frame_bridge::{
    Connection, ExportSlot, Header, Kind, PublishedFrame, Publisher, SlotLease, SlotSerials,
    HEADER_LEN,
};

type Lent = PublishedFrame<i32, SlotLease>;

fn connection() -> Connection {
    let mut packet = Header {
        kind: Kind::Ready,
        payload_len: 4,
        sequence: 1,
    }
    .encode()
    .to_vec();
    packet.extend([0; 4]);
    let mut handshake = Connection::connect(b"/run/bridge", 108, 2, 1);
    handshake.step(HandshakeReply::Socket { fd: 11, errno: 0 });
    handshake.step(HandshakeReply::Connected {
        status: 0,
        errno: 0,
    });
    handshake.step(HandshakeReply::Sent {
        count: HEADER_LEN as isize,
        errno: 0,
    });
    handshake.step(HandshakeReply::Received {
        packet: Some(packet),
        errno: 0,
    });
    handshake.outcome().unwrap().ok().unwrap()
}

/// A slot with this number and image.
fn slot(serials: &mut SlotSerials, slot_id: u16, image: u64) -> ExportSlot {
    let serial = serials.issue().unwrap();
    let mut creation = ExportSlot::create(serial, 64, 32, &[9], slot_id, 0, true, true);
    for reply in [
        CreationReply::Support {
            supported: true,
            features: 2,
            handle_types: 0x200,
        },
        CreationReply::Object(Ok(image)),
        CreationReply::Modifier(Ok(9)),
        CreationReply::Requirements {
            size: 8192,
            type_bits: 1,
        },
        CreationReply::MemoryType(Some(0)),
        CreationReply::Object(Ok(1)),
        CreationReply::Bound(Ok(())),
        CreationReply::Layout {
            offset: 0,
            row_pitch: 256,
        },
        CreationReply::Object(Ok(2)),
        CreationReply::Object(Ok(3)),
        CreationReply::Object(Ok(4)),
        CreationReply::Descriptor(Ok(5)),
    ] {
        creation.step(reply);
    }
    creation.finish().ok().unwrap()
}

fn export(slot: ExportSlot) -> (ExportSlot, Lent) {
    let source = SourceImage {
        image: 500,
        stage: 1,
        access: 0,
        layout: 1,
    };
    let mut export = slot.publish(0, source, 0);
    for reply in [
        ExportReply::Status(Ok(())),
        ExportReply::Status(Ok(())),
        ExportReply::Recorded,
        ExportReply::Status(Ok(())),
        ExportReply::Status(Ok(())),
        ExportReply::Descriptor(Some(Ok(40))),
        ExportReply::Descriptor(Some(Ok(41))),
    ] {
        export.step(reply);
    }
    let end = export.finish().ok().unwrap();
    (end.slot, end.outcome.ok().unwrap())
}

/// Drops a frame: its lease goes to the slots until one keeps it.
fn drop_frame(mut frame: Lent, slots: &mut [&mut ExportSlot]) {
    let mut lease = frame.take_release();
    for slot in slots {
        lease = lease.and_then(|lease| slot.release(lease));
    }
    assert_eq!(lease, None);
}

fn replaced(publication: Publication<Lent>) -> Option<Lent> {
    match publication {
        Publication::Pending { replaced } => replaced,
        Publication::Rejected { frame } => Some(frame),
    }
}

/// Sends the frame in flight, with this answer to it.
fn exchange(worker: &Worker<Lent>, sequence: u32, answer: Option<Kind>) -> FrameExchange {
    let published = worker.frame().unwrap();
    let mut exchange = connection().send_frame(
        sequence,
        published.frame,
        &published.plane_fds,
        published.acquire_fence,
    );
    exchange.step(ExchangeReply::Sent {
        count: FRAME_PACKET_LEN as isize,
        errno: 0,
    });
    if let Some(kind) = answer {
        let answer = Header {
            kind,
            payload_len: 0,
            sequence,
        };
        exchange.step(ExchangeReply::Received {
            packet: Some(answer.encode().to_vec()),
            errno: 0,
        });
    }
    exchange
}

#[test]
fn slot_is_busy_until_the_release_of_its_frame() {
    let mut serials = SlotSerials::new();
    let mut publisher = Publisher::new(&connection());
    let mut worker = Worker::new();
    let (mut slot, frame) = export(slot(&mut serials, 0, 100));
    assert!(!slot.available());
    assert!(replaced(publisher.publish(frame)).is_none());
    assert!(!slot.available());
    assert_eq!(
        worker.poll(&mut publisher),
        WorkerAction::Send { sequence: 1 }
    );
    let waiting = exchange(&worker, 1, None);
    assert!(worker.settle(&mut publisher, &waiting).is_none());
    assert!(!slot.available());
    let released = exchange(&worker, 1, Some(Kind::Release));
    let settled = worker.settle(&mut publisher, &released).unwrap();
    assert!(!slot.available());
    drop_frame(settled.frame, &mut [&mut slot]);
    assert!(slot.available());
}

#[test]
fn superseded_frame_frees_its_own_slot_only() {
    let mut serials = SlotSerials::new();
    let mut publisher = Publisher::new(&connection());
    let (mut first, a) = export(slot(&mut serials, 0, 100));
    let (mut second, b) = export(slot(&mut serials, 1, 200));
    assert!(replaced(publisher.publish(a)).is_none());
    let superseded = replaced(publisher.publish(b)).unwrap();
    drop_frame(superseded, &mut [&mut second, &mut first]);
    assert!(first.available());
    assert!(!second.available());
}

#[test]
fn disconnect_frees_every_slot() {
    let mut serials = SlotSerials::new();
    let mut publisher = Publisher::new(&connection());
    let mut worker = Worker::new();
    let (mut first, a) = export(slot(&mut serials, 0, 100));
    let (mut second, b) = export(slot(&mut serials, 0, 100));
    let (mut third, c) = export(slot(&mut serials, 1, 300));
    publisher.publish(a);
    worker.poll(&mut publisher);
    publisher.publish(b);
    let failed = exchange(&worker, 1, Some(Kind::Goodbye));
    let settled = worker.settle(&mut publisher, &failed).unwrap();
    let refused = replaced(publisher.publish(c)).unwrap();
    for frame in [settled.frame, settled.abandoned.unwrap(), refused] {
        drop_frame(frame, &mut [&mut first, &mut second, &mut third]);
    }
    assert!(first.available() && second.available() && third.available());
}

#[test]
fn stop_frees_every_slot_once_the_exchange_has_ended() {
    let mut serials = SlotSerials::new();
    let mut publisher = Publisher::new(&connection());
    let mut worker = Worker::new();
    let (mut first, a) = export(slot(&mut serials, 0, 100));
    let (mut second, b) = export(slot(&mut serials, 1, 200));
    publisher.publish(a);
    worker.poll(&mut publisher);
    publisher.publish(b);
    drop_frame(publisher.stop().unwrap(), &mut [&mut first, &mut second]);
    assert!(!first.available());
    assert!(second.available());
    let failed = exchange(&worker, 1, Some(Kind::Goodbye));
    let settled = worker.settle(&mut publisher, &failed).unwrap();
    assert!(settled.abandoned.is_none());
    assert_eq!(settled.report, None);
    drop_frame(settled.frame, &mut [&mut first, &mut second]);
    assert!(first.available());
}
