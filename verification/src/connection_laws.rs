//! What holds of the handshake and of the frame exchange as a whole.

use vstd::prelude::*;

#[allow(unused_imports)]
use crate::connection::{
    ConnectionView, ExchangePhase, ExchangeReply, ExchangeView, HandshakePhase, HandshakeReply,
    HandshakeView, FRAME_PACKET_LEN, READY_CAPACITY,
};
use crate::error::BridgeError;
#[allow(unused_imports)]
use crate::ready::{ready_outcome, release_outcome};
#[allow(unused_imports)]
use crate::ready_laws::{law_ready_is_judged_by_its_bytes, law_release_is_exact};
#[allow(unused_imports)]
use crate::wire::{Frame, Header, Kind, FRAME_LEN, HEADER_LEN, MAX_PLANES};
#[allow(unused_imports)]
use crate::wire_laws::{
    law_frame_length, law_frame_round_trip, law_header_length, law_header_round_trip,
};

verus! {

/// The number of socket calls that a handshake can still make.
pub open spec fn handshake_calls_left(phase: HandshakePhase) -> nat {
    match phase {
        HandshakePhase::Socket => 4,
        HandshakePhase::Connect { .. } => 3,
        HandshakePhase::Hello { .. } => 2,
        HandshakePhase::Ready { .. } => 1,
        _ => 0,
    }
}

/// The socket that a handshake holds.
pub open spec fn handshake_socket(phase: HandshakePhase) -> Option<i32> {
    match phase {
        HandshakePhase::Connect { fd } | HandshakePhase::Hello { fd } | HandshakePhase::Ready {
            fd,
        } | HandshakePhase::Open { fd } => Some(fd),
        _ => None,
    }
}

/// Every answer brings a handshake closer to its end, and it waits for one exactly while it has
/// not ended.
pub proof fn law_handshake_advances(handshake: HandshakeView, reply: HandshakeReply)
    ensures
        handshake.accepts(reply) ==> handshake_calls_left(handshake.next(reply).phase)
            < handshake_calls_left(handshake.phase),
        handshake.outcome() is Some <==> handshake_calls_left(handshake.phase) == 0,
{
}

/// A handshake keeps its socket to the end: it hands it over where it succeeds, and names it for
/// closing where it fails. Its path and its sequence never change.
pub proof fn law_handshake_keeps_socket(handshake: HandshakeView, reply: HandshakeReply)
    requires
        handshake.accepts(reply),
    ensures
        handshake_socket(handshake.phase) matches Some(fd) ==> match handshake.next(reply).phase {
            HandshakePhase::Failed { close, .. } => close == Some(fd),
            phase => handshake_socket(phase) == Some(fd),
        },
        handshake.next(reply).path == handshake.path,
        handshake.next(reply).path_offset == handshake.path_offset,
        handshake.next(reply).sequence == handshake.sequence,
{
}

/// A connection opens exactly when the path fits, every socket call succeeds, the hello goes out
/// whole and the answer is accepted as that of the hello; it then holds the new socket and the
/// modifiers that the answer offers.
pub proof fn law_handshake_opens(
    path: Seq<u8>,
    path_capacity: u32,
    path_offset: u32,
    sequence: u32,
    socket: HandshakeReply,
    connected: HandshakeReply,
    sent: HandshakeReply,
    received: HandshakeReply,
    connection: ConnectionView,
)
    requires
        socket is Socket,
        connected is Connected,
        sent is Sent,
        received is Received,
    ensures
        HandshakeView::begin(path, path_capacity, path_offset, sequence).next(socket).next(
            connected,
        ).next(sent).next(received).outcome() == Some(
            Ok::<ConnectionView, BridgeError>(connection),
        ) <==> {
            &&& 0 < path.len() < path_capacity
            &&& socket->Socket_fd >= 0
            &&& connected->status >= 0
            &&& sent->count == HEADER_LEN
            &&& received->packet matches Some(packet)
            &&& packet@.len() >= HEADER_LEN
            &&& ready_outcome(packet@, sequence) == Ok::<Seq<u64>, BridgeError>(
                connection.modifiers,
            )
            &&& connection.fd == socket->Socket_fd
        },
{
}

/// A path that is empty, or that leaves no room for its terminator, is refused before any socket
/// is opened.
pub proof fn law_handshake_checks_path(
    path: Seq<u8>,
    path_capacity: u32,
    path_offset: u32,
    sequence: u32,
)
    ensures
        HandshakeView::begin(path, path_capacity, path_offset, sequence).outcome() == (if path.len()
            == 0 || path.len() >= path_capacity {
            Some(Err::<ConnectionView, BridgeError>(BridgeError::PathLength))
        } else {
            None
        }),
{
}

/// The number of socket calls that a frame exchange can still make.
pub open spec fn exchange_calls_left(phase: ExchangePhase) -> nat {
    match phase {
        ExchangePhase::Send => 2,
        ExchangePhase::Release => 1,
        _ => 0,
    }
}

/// Every answer brings an exchange closer to its end, and it waits for one exactly while it has
/// not ended.
pub proof fn law_exchange_advances(exchange: ExchangeView, reply: ExchangeReply)
    ensures
        exchange.accepts(reply) ==> exchange_calls_left(exchange.next(reply).phase)
            < exchange_calls_left(exchange.phase),
        exchange.outcome() is Some <==> exchange_calls_left(exchange.phase) == 0,
{
}

/// Whatever is sent can be read by the other side: the header announces the frame, the frame
/// comes back whole, and the descriptors are one for each plane and, last, the fence that the
/// frame announces.
pub proof fn law_sent_frame_is_readable(
    fd: i32,
    sequence: u32,
    frame: Frame,
    plane_fds: Seq<i32>,
    acquire_fence: Option<i32>,
)
    ensures
        ({
            let exchange = ExchangeView::begin(fd, sequence, frame, plane_fds, acquire_fence);
            exchange.phase is Send ==> {
                &&& exchange.packet.len() == FRAME_PACKET_LEN
                &&& Header::parsed(exchange.packet) == Some(
                    Header { kind: Kind::Frame, payload_len: FRAME_LEN as u32, sequence },
                )
                &&& Frame::parsed(exchange.packet.skip(HEADER_LEN as int)) == Some(frame)
                &&& exchange.descriptors.len() == frame.plane_count + (
                if frame.has_acquire_fence {
                    1int
                } else {
                    0int
                })
                &&& exchange.descriptors.take(frame.plane_count as int) == plane_fds
                &&& acquire_fence matches Some(fence) ==> exchange.descriptors.last() == fence
            }
        }),
{
    let exchange = ExchangeView::begin(fd, sequence, frame, plane_fds, acquire_fence);
    if exchange.phase is Send {
        let header = Header { kind: Kind::Frame, payload_len: FRAME_LEN as u32, sequence };
        law_header_length(header);
        law_frame_length(frame);
        law_header_round_trip(header, frame.bytes());
        law_frame_round_trip(frame);
        assert(exchange.packet.skip(HEADER_LEN as int) =~= frame.bytes());
        assert(exchange.descriptors.take(frame.plane_count as int) =~= plane_fds);
    }
}

/// A frame goes out exactly when its descriptors are those that it announces and its number of
/// planes is one to four; otherwise it is refused as a whole and nothing is sent.
pub proof fn law_frame_is_sent_whole_or_not_at_all(
    fd: i32,
    sequence: u32,
    frame: Frame,
    plane_fds: Seq<i32>,
    acquire_fence: Option<i32>,
)
    ensures
        ({
            let exchange = ExchangeView::begin(fd, sequence, frame, plane_fds, acquire_fence);
            &&& exchange.phase is Send <==> plane_fds.len() == frame.plane_count && (
            acquire_fence is Some <==> frame.has_acquire_fence) && 1 <= frame.plane_count
                <= MAX_PLANES
            &&& exchange.phase !is Send ==> exchange.phase is Failed && exchange.packet.len() == 0
                && exchange.descriptors.len() == 0
        }),
{
}

/// An exchange succeeds exactly when the packet goes out whole and is answered by the release
/// packet of its own sequence: no other answer frees the frame.
pub proof fn law_exchange_waits_for_release(
    exchange: ExchangeView,
    sent: ExchangeReply,
    received: ExchangeReply,
)
    requires
        exchange.phase is Send,
        sent is Sent,
        received is Received,
    ensures
        exchange.next(sent).next(received).outcome() == Some(Ok::<(), BridgeError>(())) <==> {
            &&& sent->count == FRAME_PACKET_LEN
            &&& received->packet matches Some(packet)
            &&& packet@ == (Header {
                kind: Kind::Release,
                payload_len: 0,
                sequence: exchange.sequence,
            }).bytes()
        },
{
    let release = Header { kind: Kind::Release, payload_len: 0, sequence: exchange.sequence };
    law_header_length(release);
    if let Some(packet) = received->packet {
        law_release_is_exact(packet@, exchange.sequence);
        if packet@.len() == HEADER_LEN {
            assert(packet@.take(HEADER_LEN as int) =~= packet@);
        }
    }
}

/// How a handshake ends is decided by the first thing that goes wrong. A path that does not fit is
/// refused at once. A call that fails ends the handshake with the error number of that very call,
/// and the socket is closed where one was opened. An answer that is too short for a header counts
/// as a failed call. Any other answer is judged as the ready packet of this hello, and where it is
/// accepted the connection holds the new socket and the modifiers of the answer.
pub proof fn law_handshake_ends_with_the_first_failure(
    path: Seq<u8>,
    path_capacity: u32,
    path_offset: u32,
    sequence: u32,
    fd: i32,
    socket_errno: i32,
    status: i32,
    connect_errno: i32,
    count: isize,
    send_errno: i32,
    packet: Option<Vec<u8>>,
    receive_errno: i32,
)
    ensures
        ({
            let start = HandshakeView::begin(path, path_capacity, path_offset, sequence);
            let socket = start.next(HandshakeReply::Socket { fd, errno: socket_errno });
            let connected = socket.next(
                HandshakeReply::Connected { status, errno: connect_errno },
            );
            let sent = connected.next(HandshakeReply::Sent { count, errno: send_errno });
            let end = sent.next(HandshakeReply::Received { packet, errno: receive_errno });
            let failed = |error: BridgeError, close: Option<i32>|
                end.phase == (HandshakePhase::Failed { error, close }) && end.outcome() == Some(
                    Err::<ConnectionView, BridgeError>(error),
                );
            &&& start.path == path && end.path == path
            &&& start.path_offset == path_offset && end.path_offset == path_offset
            &&& start.sequence == sequence && end.sequence == sequence
            &&& start.modifiers.len() == 0
            &&& if path.len() == 0 || path.len() >= path_capacity {
                start.outcome() is Some && failed(BridgeError::PathLength, None)
            } else {
                &&& start.phase is Socket
                &&& if fd < 0 {
                    failed(BridgeError::Os(socket_errno), None)
                } else {
                    &&& socket.phase == (HandshakePhase::Connect { fd })
                    &&& if status < 0 {
                        failed(BridgeError::Os(connect_errno), Some(fd))
                    } else {
                        &&& connected.phase == (HandshakePhase::Hello { fd })
                        &&& if count != 16 {
                            failed(BridgeError::Os(send_errno), Some(fd))
                        } else {
                            &&& sent.phase == (HandshakePhase::Ready { fd })
                            &&& match packet {
                                Some(packet) if packet@.len() >= 16 => match ready_outcome(
                                    packet@,
                                    sequence,
                                ) {
                                    Ok(modifiers) => end.outcome() == Some(
                                        Ok::<ConnectionView, BridgeError>(
                                            ConnectionView { fd, modifiers },
                                        ),
                                    ),
                                    Err(error) => failed(error, Some(fd)),
                                },
                                _ => failed(BridgeError::Os(receive_errno), Some(fd)),
                            }
                        }
                    }
                }
            }
        }),
{
}

/// An answer to another call than the one that a handshake waits for changes nothing, and one to
/// the call that it waits for is taken: that to the opening of the socket, to the connect call, to
/// the hello and to the wait for its answer, one after the other.
pub proof fn law_handshake_takes_only_its_answer(handshake: HandshakeView, reply: HandshakeReply)
    ensures
        handshake.next(reply) != handshake ==> match handshake.phase {
            HandshakePhase::Socket => reply is Socket,
            HandshakePhase::Connect { .. } => reply is Connected,
            HandshakePhase::Hello { .. } => reply is Sent,
            HandshakePhase::Ready { .. } => reply is Received,
            _ => false,
        },
        handshake.accepts(reply) <==> match handshake.phase {
            HandshakePhase::Socket => reply is Socket,
            HandshakePhase::Connect { .. } => reply is Connected,
            HandshakePhase::Hello { .. } => reply is Sent,
            HandshakePhase::Ready { .. } => reply is Received,
            _ => false,
        },
{
}

/// What goes out is the frame and nothing else: over this socket and under this sequence, the
/// header of a frame packet of 64 bytes, behind it the bytes of the frame, with the descriptors of
/// the planes in their order and behind them the fence. A frame whose descriptors are not those
/// that it announces is refused for that; one with none of one to four planes for being invalid.
pub proof fn law_sent_packet_is_the_frame(
    fd: i32,
    sequence: u32,
    frame: Frame,
    plane_fds: Seq<i32>,
    acquire_fence: Option<i32>,
)
    ensures
        ({
            let exchange = ExchangeView::begin(fd, sequence, frame, plane_fds, acquire_fence);
            let announced = plane_fds.len() == frame.plane_count && (acquire_fence is Some
                <==> frame.has_acquire_fence);
            &&& exchange.fd == fd
            &&& exchange.sequence == sequence
            &&& exchange.phase == if !announced {
                ExchangePhase::Failed { error: BridgeError::DescriptorCount }
            } else if frame.plane_count == 0 || frame.plane_count > 4 {
                ExchangePhase::Failed { error: BridgeError::InvalidFrame }
            } else {
                ExchangePhase::Send
            }
            &&& exchange.phase is Send ==> {
                &&& exchange.packet.len() == 80
                &&& exchange.packet.take(16) == (Header {
                    kind: Kind::Frame,
                    payload_len: 64,
                    sequence,
                }).bytes()
                &&& exchange.packet.skip(16) == frame.bytes()
                &&& exchange.descriptors == match acquire_fence {
                    Some(fence) => plane_fds.push(fence),
                    None => plane_fds,
                }
            }
            &&& exchange.phase !is Send ==> exchange.packet.len() == 0
                && exchange.descriptors.len() == 0
        }),
{
    let exchange = ExchangeView::begin(fd, sequence, frame, plane_fds, acquire_fence);
    let header = Header { kind: Kind::Frame, payload_len: 64, sequence };
    if exchange.phase is Send {
        law_header_length(header);
        law_frame_length(frame);
        assert(exchange.packet.take(16) =~= header.bytes());
        assert(exchange.packet.skip(16) =~= frame.bytes());
        assert(exchange.descriptors =~= match acquire_fence {
            Some(fence) => plane_fds.push(fence),
            None => plane_fds,
        });
    }
}

/// How an exchange ends is decided by the first thing that goes wrong: a packet that does not go
/// out whole, all 80 bytes of it, ends it with the error number of the send call; an answer that is
/// not exactly a header long, with that of the receive call; and any other answer is judged as the
/// release of this sequence. What was to be sent, over which socket and under which sequence, never
/// changes, and an answer to another call changes nothing.
pub proof fn law_exchange_ends_with_the_first_failure(
    exchange: ExchangeView,
    count: isize,
    send_errno: i32,
    packet: Option<Vec<u8>>,
    receive_errno: i32,
)
    ensures
        ({
            let sent = exchange.next(ExchangeReply::Sent { count, errno: send_errno });
            let received = exchange.next(
                ExchangeReply::Received { packet, errno: receive_errno },
            );
            &&& sent == (ExchangeView {
                phase: match exchange.phase {
                    ExchangePhase::Send => if count == 80 {
                        ExchangePhase::Release
                    } else {
                        ExchangePhase::Failed { error: BridgeError::Os(send_errno) }
                    },
                    phase => phase,
                },
                ..exchange
            })
            &&& received == (ExchangeView {
                phase: match exchange.phase {
                    ExchangePhase::Release => match packet {
                        Some(packet) if packet@.len() == 16 => match release_outcome(
                            packet@,
                            exchange.sequence,
                        ) {
                            Ok(()) => ExchangePhase::Released,
                            Err(error) => ExchangePhase::Failed { error },
                        },
                        _ => ExchangePhase::Failed { error: BridgeError::Os(receive_errno) },
                    },
                    phase => phase,
                },
                ..exchange
            })
            &&& exchange.outcome() == match exchange.phase {
                ExchangePhase::Released => Some(Ok::<(), BridgeError>(())),
                ExchangePhase::Failed { error } => Some(Err(error)),
                _ => None,
            }
        }),
{
}

/// No ready packet that could be accepted is cut short: every one fits what is received at once,
/// and the longest, with its 64 entries, fills it.
pub proof fn law_ready_packets_fit(packet: Seq<u8>, sequence: u32)
    ensures
        ready_outcome(packet, sequence) is Ok ==> packet.len() <= READY_CAPACITY,
        READY_CAPACITY == 16 + 4 + 64 * 16,
{
    law_ready_is_judged_by_its_bytes(packet, sequence);
}

} // verus!
