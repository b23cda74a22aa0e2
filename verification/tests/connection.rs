use frame_bridge::connection::{
    ExchangeAction, ExchangeReply, FrameExchange, Handshake, HandshakeAction, HandshakePhase,
    HandshakeReply, FRAME_PACKET_LEN, READY_CAPACITY,
};
use frame_bridge::error::{BridgeError, FailureClass};
use frame_bridge::ready::{accept_ready, accept_release};
use frame_bridge::{Connection, Frame, Header, Kind, Plane, FRAME_LEN, HEADER_LEN};

const SEQUENCE: u32 = 7;

fn entry(format: &[u8; 4], reserved: u32, modifier: u64) -> Vec<u8> {
    let mut bytes = format.to_vec();
    bytes.extend(reserved.to_le_bytes());
    bytes.extend(modifier.to_le_bytes());
    bytes
}

fn packet(kind: Kind, sequence: u32, payload: &[u8]) -> Vec<u8> {
    let mut bytes = Header {
        kind,
        payload_len: payload.len() as u32,
        sequence,
    }
    .encode()
    .to_vec();
    bytes.extend(payload);
    bytes
}

fn ready(modifiers: &[u64]) -> Vec<u8> {
    let mut payload = (modifiers.len() as u32).to_le_bytes().to_vec();
    for modifier in modifiers {
        payload.extend(entry(b"XR24", 0, *modifier));
    }
    packet(Kind::Ready, SEQUENCE, &payload)
}

#[test]
fn ready_yields_each_modifier_once_in_order() {
    let offered = [9, u64::MAX, 9, 0, u64::MAX, 3];
    assert_eq!(
        accept_ready(&ready(&offered), SEQUENCE),
        Ok(vec![9, u64::MAX, 0, 3])
    );
    assert_eq!(accept_ready(&ready(&[]), SEQUENCE), Ok(vec![]));
    let full: Vec<u64> = (0..64).collect();
    assert_eq!(ready(&full).len(), READY_CAPACITY);
    assert_eq!(accept_ready(&ready(&full), SEQUENCE), Ok(full));
}

#[test]
fn ready_without_a_header_is_invalid() {
    let mut bytes = ready(&[1]);
    bytes[0] ^= 1;
    assert_eq!(accept_ready(&bytes, SEQUENCE), Err(BridgeError::InvalidReady));
    assert_eq!(
        accept_ready(&ready(&[1])[..15], SEQUENCE),
        Err(BridgeError::InvalidReady)
    );
}

#[test]
fn ready_for_something_else_is_no_acknowledgement() {
    let expected = Err(BridgeError::NotAcknowledged);
    assert_eq!(accept_ready(&ready(&[1]), SEQUENCE + 1), expected);
    let hello = packet(Kind::Hello, SEQUENCE, &0u32.to_le_bytes());
    assert_eq!(accept_ready(&hello, SEQUENCE), expected);
    let mut longer = ready(&[1]);
    longer.push(0);
    assert_eq!(accept_ready(&longer, SEQUENCE), expected);
}

#[test]
fn ready_needs_a_modifier_count() {
    assert_eq!(
        accept_ready(&packet(Kind::Ready, SEQUENCE, &[0, 0, 0]), SEQUENCE),
        Err(BridgeError::NoModifierCount)
    );
}

#[test]
fn ready_must_hold_the_modifiers_that_it_counts() {
    let expected = Err(BridgeError::MalformedModifiers);
    let too_few = packet(Kind::Ready, SEQUENCE, &1u32.to_le_bytes());
    assert_eq!(accept_ready(&too_few, SEQUENCE), expected);
    let too_many: Vec<u64> = (0..65).collect();
    assert_eq!(accept_ready(&ready(&too_many), SEQUENCE), expected);
    let huge = packet(Kind::Ready, SEQUENCE, &u32::MAX.to_le_bytes());
    assert_eq!(accept_ready(&huge, SEQUENCE), expected);
}

#[test]
fn ready_offers_only_xr24_with_a_zero_reserved_word() {
    let expected = Err(BridgeError::UnsupportedFormat);
    let mut payload = 2u32.to_le_bytes().to_vec();
    payload.extend(entry(b"XR24", 0, 5));
    let mut other_format = payload.clone();
    other_format.extend(entry(b"AR24", 0, 6));
    assert_eq!(
        accept_ready(&packet(Kind::Ready, SEQUENCE, &other_format), SEQUENCE),
        expected
    );
    payload.extend(entry(b"XR24", 1, 6));
    assert_eq!(
        accept_ready(&packet(Kind::Ready, SEQUENCE, &payload), SEQUENCE),
        expected
    );
}

#[test]
fn release_must_name_the_frame() {
    let release = packet(Kind::Release, SEQUENCE, &[]);
    assert_eq!(accept_release(&release, SEQUENCE), Ok(()));
    assert_eq!(
        accept_release(&release, SEQUENCE + 1),
        Err(BridgeError::WrongRelease)
    );
    assert_eq!(
        accept_release(&packet(Kind::Goodbye, SEQUENCE, &[]), SEQUENCE),
        Err(BridgeError::WrongRelease)
    );
    assert_eq!(
        accept_release(&packet(Kind::Release, SEQUENCE, &[0]), SEQUENCE),
        Err(BridgeError::WrongRelease)
    );
    assert_eq!(
        accept_release(&release[..8], SEQUENCE),
        Err(BridgeError::InvalidRelease)
    );
}

fn handshake(replies: Vec<HandshakeReply>) -> Handshake {
    let mut handshake = Connection::connect(b"/run/bridge", 108, 2, SEQUENCE);
    for reply in replies {
        handshake.step(reply);
    }
    handshake
}

fn socket() -> HandshakeReply {
    HandshakeReply::Socket { fd: 5, errno: 0 }
}

fn connected() -> HandshakeReply {
    HandshakeReply::Connected {
        status: 0,
        errno: 0,
    }
}

fn hello_sent() -> HandshakeReply {
    HandshakeReply::Sent {
        count: HEADER_LEN as isize,
        errno: 0,
    }
}

fn open_connection(modifiers: &[u64]) -> Connection {
    let received = HandshakeReply::Received {
        packet: Some(ready(modifiers)),
        errno: 0,
    };
    handshake(vec![socket(), connected(), hello_sent(), received])
        .outcome()
        .unwrap()
        .ok()
        .unwrap()
}

#[test]
fn handshake_names_its_socket_calls() {
    let mut handshake = handshake(vec![]);
    assert_eq!(handshake.path(), b"/run/bridge");
    assert_eq!(handshake.action(), HandshakeAction::OpenSocket);
    handshake.step(socket());
    assert_eq!(
        handshake.action(),
        HandshakeAction::ConnectSocket {
            fd: 5,
            address_len: 14
        }
    );
    handshake.step(connected());
    let hello = Header {
        kind: Kind::Hello,
        payload_len: 0,
        sequence: SEQUENCE,
    };
    assert_eq!(
        handshake.action(),
        HandshakeAction::SendHello {
            fd: 5,
            packet: hello.encode()
        }
    );
    handshake.step(hello_sent());
    assert_eq!(
        handshake.action(),
        HandshakeAction::ReceiveReady {
            fd: 5,
            capacity: 1044
        }
    );
    // The answer to another call changes nothing.
    handshake.step(connected());
    assert_eq!(handshake.phase(), HandshakePhase::Ready { fd: 5 });
    handshake.step(HandshakeReply::Received {
        packet: Some(ready(&[4, 4, 2])),
        errno: 0,
    });
    assert_eq!(handshake.action(), HandshakeAction::Finish);
    let connection = handshake.outcome().unwrap().ok().unwrap();
    assert_eq!(connection.raw_fd(), 5);
    assert_eq!(connection.modifiers(), &[4, 2]);
}

#[test]
fn handshake_refuses_a_path_that_does_not_fit() {
    let failed = HandshakePhase::Failed {
        error: BridgeError::PathLength,
        close: None,
    };
    assert_eq!(Connection::connect(b"", 108, 2, 1).phase(), failed);
    assert_eq!(Connection::connect(&[b'a'; 108], 108, 2, 1).phase(), failed);
    let longest = Connection::connect(&[b'a'; 107], 108, 2, 1);
    assert_eq!(longest.phase(), HandshakePhase::Socket);
    assert!(longest.outcome().is_none());
}

#[test]
fn handshake_reports_refused_calls_and_names_the_socket_to_close() {
    let no_socket = handshake(vec![HandshakeReply::Socket { fd: -1, errno: 24 }]);
    assert_eq!(
        no_socket.phase(),
        HandshakePhase::Failed {
            error: BridgeError::Os(24),
            close: None
        }
    );
    let failed = |errno| HandshakePhase::Failed {
        error: BridgeError::Os(errno),
        close: Some(5),
    };
    let refused = HandshakeReply::Connected {
        status: -1,
        errno: 111,
    };
    assert_eq!(handshake(vec![socket(), refused]).phase(), failed(111));
    let short = HandshakeReply::Sent {
        count: 15,
        errno: 4,
    };
    assert_eq!(
        handshake(vec![socket(), connected(), short]).phase(),
        failed(4)
    );
    for packet in [None, Some(vec![0; 15])] {
        let received = HandshakeReply::Received { packet, errno: 104 };
        assert_eq!(
            handshake(vec![socket(), connected(), hello_sent(), received]).phase(),
            failed(104)
        );
    }
    let wrong = HandshakeReply::Received {
        packet: Some(packet(Kind::Goodbye, SEQUENCE, &[])),
        errno: 0,
    };
    let handshake = handshake(vec![socket(), connected(), hello_sent(), wrong]);
    assert_eq!(
        handshake.phase(),
        HandshakePhase::Failed {
            error: BridgeError::NotAcknowledged,
            close: Some(5)
        }
    );
    assert_eq!(
        handshake.outcome().unwrap().err(),
        Some(BridgeError::NotAcknowledged)
    );
}

fn frame(plane_count: u8, has_acquire_fence: bool) -> Frame {
    Frame {
        display_id: 1,
        width: 640,
        height: 480,
        drm_format: u32::from_le_bytes(*b"XR24"),
        modifier: 2,
        plane_count,
        has_acquire_fence,
        slot_id: 0,
        planes: [Plane::default(); 4],
    }
}

fn sent() -> ExchangeReply {
    ExchangeReply::Sent {
        count: FRAME_PACKET_LEN as isize,
        errno: 0,
    }
}

fn exchange(replies: Vec<ExchangeReply>) -> FrameExchange {
    let mut exchange = open_connection(&[]).send_frame(SEQUENCE, frame(2, true), &[8, 9], Some(10));
    for reply in replies {
        exchange.step(reply);
    }
    exchange
}

#[test]
fn exchange_sends_the_frame_and_waits_for_its_release() {
    let mut exchange = exchange(vec![]);
    assert_eq!(exchange.action(), ExchangeAction::SendPacket { fd: 5 });
    assert_eq!(exchange.descriptors(), &[8, 9, 10]);
    assert_eq!(exchange.packet().len(), HEADER_LEN + FRAME_LEN);
    assert_eq!(
        Header::decode(exchange.packet()),
        Some(Header {
            kind: Kind::Frame,
            payload_len: 64,
            sequence: SEQUENCE
        })
    );
    assert_eq!(
        Frame::decode(&exchange.packet()[HEADER_LEN..]),
        Some(frame(2, true))
    );
    exchange.step(sent());
    assert_eq!(
        exchange.action(),
        ExchangeAction::ReceiveRelease {
            fd: 5,
            capacity: 16
        }
    );
    assert_eq!(exchange.outcome(), None);
    exchange.step(ExchangeReply::Received {
        packet: Some(packet(Kind::Release, SEQUENCE, &[])),
        errno: 0,
    });
    assert_eq!(exchange.action(), ExchangeAction::Finish);
    assert_eq!(exchange.outcome(), Some(Ok(())));
}

#[test]
fn exchange_refuses_a_frame_whose_descriptors_disagree() {
    let connection = open_connection(&[]);
    let cases = [
        connection.send_frame(1, frame(2, false), &[8], None),
        connection.send_frame(1, frame(1, true), &[8], None),
        connection.send_frame(1, frame(1, false), &[8], Some(9)),
    ];
    for exchange in cases {
        assert_eq!(
            exchange.outcome(),
            Some(Err(BridgeError::DescriptorCount))
        );
        assert!(exchange.packet().is_empty());
        assert!(exchange.descriptors().is_empty());
    }
}

#[test]
fn exchange_refuses_a_frame_that_cannot_be_encoded() {
    let connection = open_connection(&[]);
    let none = connection.send_frame(1, frame(0, false), &[], None);
    assert_eq!(none.outcome(), Some(Err(BridgeError::InvalidFrame)));
    let five = connection.send_frame(1, frame(5, false), &[1, 2, 3, 4, 5], None);
    assert_eq!(five.outcome(), Some(Err(BridgeError::InvalidFrame)));
    assert_eq!(five.action(), ExchangeAction::Finish);
}

#[test]
fn exchange_fails_on_refused_calls_and_wrong_releases() {
    let short = ExchangeReply::Sent {
        count: 79,
        errno: 32,
    };
    assert_eq!(exchange(vec![short]).outcome(), Some(Err(BridgeError::Os(32))));
    let answer = |packet| {
        exchange(vec![sent(), ExchangeReply::Received { packet, errno: 104 }]).outcome()
    };
    assert_eq!(answer(None), Some(Err(BridgeError::Os(104))));
    assert_eq!(
        answer(Some(packet(Kind::Release, SEQUENCE, &[0]))),
        Some(Err(BridgeError::Os(104)))
    );
    assert_eq!(
        answer(Some(packet(Kind::Release, SEQUENCE + 1, &[]))),
        Some(Err(BridgeError::WrongRelease))
    );
    assert_eq!(
        answer(Some(vec![0; 16])),
        Some(Err(BridgeError::InvalidRelease))
    );
}

#[test]
fn failures_have_a_class_and_a_text() {
    let input = FailureClass::InvalidInput;
    let data = FailureClass::InvalidData;
    let table = [
        (
            BridgeError::PathLength,
            input,
            "frame bridge socket path is empty or too long",
        ),
        (BridgeError::InvalidReady, data, "invalid bridge Ready packet"),
        (
            BridgeError::NotAcknowledged,
            data,
            "bridge did not acknowledge Hello",
        ),
        (
            BridgeError::NoModifierCount,
            data,
            "bridge Ready packet has no modifier count",
        ),
        (
            BridgeError::MalformedModifiers,
            data,
            "bridge Ready modifier list is malformed",
        ),
        (
            BridgeError::UnsupportedFormat,
            data,
            "bridge Ready contains an unsupported format entry",
        ),
        (
            BridgeError::DescriptorCount,
            input,
            "frame metadata and descriptor count disagree",
        ),
        (BridgeError::InvalidFrame, input, "invalid frame metadata"),
        (
            BridgeError::InvalidRelease,
            data,
            "invalid bridge Release packet",
        ),
        (
            BridgeError::WrongRelease,
            data,
            "bridge released the wrong frame",
        ),
    ];
    for (error, class, text) in table {
        assert_eq!(error.class(), class);
        assert_eq!(error.message(), Some(text));
    }
    assert_eq!(BridgeError::Os(13).class(), FailureClass::Os(13));
    assert_eq!(BridgeError::Os(13).message(), None);
}
