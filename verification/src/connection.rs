//! The two conversations on the bridge socket, as decisions between the socket calls.
//!
//! A [`Handshake`] opens a [`Connection`]; a [`FrameExchange`] sends one frame over it and waits
//! for its release. Each names the next socket call and takes what the call returned.

use vstd::prelude::*;
use vstd::slice::slice_to_vec;

use crate::error::BridgeError;
use crate::ready::{accept_ready, accept_release};
#[allow(unused_imports)]
use crate::ready::{ready_outcome, release_outcome};
#[allow(unused_imports)]
use crate::ready_laws::law_ready_modifiers;
use crate::wire::{
    Frame, Header, Kind, FRAME_LEN, HEADER_LEN, READY_ENTRY_LEN, READY_MAX_ENTRIES,
};

verus! {

/// The longest ready packet.
pub const READY_CAPACITY: usize = HEADER_LEN + 4 + READY_ENTRY_LEN * READY_MAX_ENTRIES;

/// The length of a frame packet.
pub const FRAME_PACKET_LEN: usize = HEADER_LEN + FRAME_LEN;

/// The model of a connection: its socket, and the modifiers that the compositor offered.
#[verifier::ext_equal]
pub struct ConnectionView {
    pub fd: i32,
    pub modifiers: Seq<u64>,
}

/// A socket on which the compositor has acknowledged a hello. Its modifiers are distinct, and no
/// more than a ready packet can carry.
pub struct Connection {
    fd: i32,
    modifiers: Vec<u64>,
}

impl View for Connection {
    type V = ConnectionView;

    closed spec fn view(&self) -> ConnectionView {
        ConnectionView { fd: self.fd, modifiers: self.modifiers@ }
    }
}

/// Where a handshake stands: what it does next, or how it ended.
#[derive(Clone, Copy, Debug, PartialEq, Eq, Structural)]
pub enum HandshakePhase {
    /// Open a socket.
    Socket,
    /// Connect the socket `fd`.
    Connect { fd: i32 },
    /// Send the hello.
    Hello { fd: i32 },
    /// Receive the answer.
    Ready { fd: i32 },
    /// The compositor has acknowledged the hello.
    Open { fd: i32 },
    /// The handshake failed, and the socket `close` has to be closed.
    Failed { error: BridgeError, close: Option<i32> },
}

/// What a socket call of a handshake returned.
pub enum HandshakeReply {
    /// The new socket, negative where there is none.
    Socket { fd: i32, errno: i32 },
    /// The status of the connect call, negative where it failed.
    Connected { status: i32, errno: i32 },
    /// The number of bytes that were sent, negative where the call failed.
    Sent { count: isize, errno: i32 },
    /// The packet that was received, `None` where the call failed.
    Received { packet: Option<Vec<u8>>, errno: i32 },
}

/// The next socket call of a handshake.
#[derive(Clone, Copy, Debug, PartialEq, Eq)]
pub enum HandshakeAction {
    OpenSocket,
    /// Connect to the path of the handshake, in a socket address of `address_len` bytes.
    ConnectSocket { fd: i32, address_len: u64 },
    SendHello { fd: i32, packet: [u8; 16] },
    /// Receive one packet of at most `capacity` bytes.
    ReceiveReady { fd: i32, capacity: usize },
    /// Nothing is left to do.
    Finish,
}

/// The model of a handshake.
#[verifier::ext_equal]
pub struct HandshakeView {
    pub path: Seq<u8>,
    pub path_offset: u32,
    pub sequence: u32,
    pub modifiers: Seq<u64>,
    pub phase: HandshakePhase,
}

impl HandshakeView {
    /// A handshake over the socket at `path`, for an address that holds a path of fewer than
    /// `path_capacity` bytes behind its first `path_offset` bytes.
    pub open spec fn begin(
        path: Seq<u8>,
        path_capacity: u32,
        path_offset: u32,
        sequence: u32,
    ) -> HandshakeView {
        HandshakeView {
            path,
            path_offset,
            sequence,
            modifiers: Seq::empty(),
            phase: if path.len() == 0 || path.len() >= path_capacity {
                HandshakePhase::Failed { error: BridgeError::PathLength, close: None }
            } else {
                HandshakePhase::Socket
            },
        }
    }

    /// Whether `reply` answers the call that the handshake waits for.
    pub open spec fn accepts(self, reply: HandshakeReply) -> bool {
        match self.phase {
            HandshakePhase::Socket => reply is Socket,
            HandshakePhase::Connect { .. } => reply is Connected,
            HandshakePhase::Hello { .. } => reply is Sent,
            HandshakePhase::Ready { .. } => reply is Received,
            _ => false,
        }
    }

    /// The phase behind a refused call on the socket `fd`.
    pub open spec fn refused(error: BridgeError, fd: i32) -> HandshakePhase {
        HandshakePhase::Failed { error, close: Some(fd) }
    }

    /// The handshake once `reply` has come in.
    pub open spec fn next(self, reply: HandshakeReply) -> HandshakeView {
        match (self.phase, reply) {
            (HandshakePhase::Socket, HandshakeReply::Socket { fd, errno }) => HandshakeView {
                phase: if fd < 0 {
                    HandshakePhase::Failed { error: BridgeError::Os(errno), close: None }
                } else {
                    HandshakePhase::Connect { fd }
                },
                ..self
            },
            (
                HandshakePhase::Connect { fd },
                HandshakeReply::Connected { status, errno },
            ) => HandshakeView {
                phase: if status < 0 {
                    Self::refused(BridgeError::Os(errno), fd)
                } else {
                    HandshakePhase::Hello { fd }
                },
                ..self
            },
            (HandshakePhase::Hello { fd }, HandshakeReply::Sent { count, errno }) => HandshakeView {
                phase: if count != HEADER_LEN {
                    Self::refused(BridgeError::Os(errno), fd)
                } else {
                    HandshakePhase::Ready { fd }
                },
                ..self
            },
            (
                HandshakePhase::Ready { fd },
                HandshakeReply::Received { packet, errno },
            ) => match packet {
                Some(packet) if packet@.len() >= HEADER_LEN => match ready_outcome(
                    packet@,
                    self.sequence,
                ) {
                    Ok(modifiers) => HandshakeView {
                        modifiers,
                        phase: HandshakePhase::Open { fd },
                        ..self
                    },
                    Err(error) => HandshakeView { phase: Self::refused(error, fd), ..self },
                },
                _ => HandshakeView { phase: Self::refused(BridgeError::Os(errno), fd), ..self },
            },
            _ => self,
        }
    }

    /// How the handshake ended, `None` while it has not.
    pub open spec fn outcome(self) -> Option<Result<ConnectionView, BridgeError>> {
        match self.phase {
            HandshakePhase::Open { fd } => Some(
                Ok(ConnectionView { fd, modifiers: self.modifiers }),
            ),
            HandshakePhase::Failed { error, .. } => Some(Err(error)),
            _ => None,
        }
    }
}

/// The opening of a connection.
pub struct Handshake {
    path: Vec<u8>,
    path_offset: u32,
    sequence: u32,
    modifiers: Vec<u64>,
    phase: HandshakePhase,
}

impl View for Handshake {
    type V = HandshakeView;

    closed spec fn view(&self) -> HandshakeView {
        HandshakeView {
            path: self.path@,
            path_offset: self.path_offset,
            sequence: self.sequence,
            modifiers: self.modifiers@,
            phase: self.phase,
        }
    }
}

impl Handshake {
    #[verifier::type_invariant]
    closed spec fn well_formed(self) -> bool {
        &&& self.modifiers@.no_duplicates()
        &&& self.modifiers@.len() <= READY_MAX_ENTRIES
        &&& self.path@.len() < u32::MAX || self.phase is Failed
    }

    /// The bytes of the path to connect to.
    pub fn path(&self) -> (path: &[u8])
        ensures
            path@ == self@.path,
    {
        self.path.as_slice()
    }

    /// Where the handshake stands.
    pub fn phase(&self) -> (phase: HandshakePhase)
        ensures
            phase == self@.phase,
    {
        self.phase
    }

    /// The next socket call.
    pub fn action(&self) -> (action: HandshakeAction)
        ensures
            match self@.phase {
                HandshakePhase::Socket => action is OpenSocket,
                HandshakePhase::Connect { fd } => action == (HandshakeAction::ConnectSocket {
                    fd,
                    address_len: (self@.path_offset + self@.path.len() + 1) as u64,
                }) && self@.path_offset + self@.path.len() + 1 <= u64::MAX,
                HandshakePhase::Hello { fd } => action matches HandshakeAction::SendHello {
                    fd: to,
                    packet,
                } && to == fd && packet@ == (Header {
                    kind: Kind::Hello,
                    payload_len: 0,
                    sequence: self@.sequence,
                }).bytes(),
                HandshakePhase::Ready { fd } => action == (HandshakeAction::ReceiveReady {
                    fd,
                    capacity: READY_CAPACITY,
                }),
                _ => action is Finish,
            },
    {
        proof {
            use_type_invariant(self);
        }
        match self.phase {
            HandshakePhase::Socket => HandshakeAction::OpenSocket,
            HandshakePhase::Connect { fd } => HandshakeAction::ConnectSocket {
                fd,
                address_len: self.path_offset as u64 + self.path.len() as u64 + 1,
            },
            HandshakePhase::Hello { fd } => HandshakeAction::SendHello {
                fd,
                packet: Header {
                    kind: Kind::Hello,
                    payload_len: 0,
                    sequence: self.sequence,
                }.encode(),
            },
            HandshakePhase::Ready { fd } => HandshakeAction::ReceiveReady {
                fd,
                capacity: READY_CAPACITY,
            },
            _ => HandshakeAction::Finish,
        }
    }

    /// Takes what the socket call returned. The answer to another call changes nothing.
    pub fn step(&mut self, reply: HandshakeReply)
        ensures
            final(self)@ == old(self)@.next(reply),
    {
        proof {
            use_type_invariant(&*self);
        }
        match (self.phase, reply) {
            (HandshakePhase::Socket, HandshakeReply::Socket { fd, errno }) => {
                self.phase = if fd < 0 {
                    HandshakePhase::Failed { error: BridgeError::Os(errno), close: None }
                } else {
                    HandshakePhase::Connect { fd }
                };
            },
            (HandshakePhase::Connect { fd }, HandshakeReply::Connected { status, errno }) => {
                self.phase = if status < 0 {
                    HandshakePhase::Failed { error: BridgeError::Os(errno), close: Some(fd) }
                } else {
                    HandshakePhase::Hello { fd }
                };
            },
            (HandshakePhase::Hello { fd }, HandshakeReply::Sent { count, errno }) => {
                self.phase = if count != HEADER_LEN as isize {
                    HandshakePhase::Failed { error: BridgeError::Os(errno), close: Some(fd) }
                } else {
                    HandshakePhase::Ready { fd }
                };
            },
            (HandshakePhase::Ready { fd }, HandshakeReply::Received { packet, errno }) => {
                match packet {
                    Some(packet) if packet.len() >= HEADER_LEN => {
                        proof {
                            law_ready_modifiers(packet@, self.sequence);
                        }
                        match accept_ready(packet.as_slice(), self.sequence) {
                            Ok(modifiers) => {
                                self.modifiers = modifiers;
                                self.phase = HandshakePhase::Open { fd };
                            },
                            Err(error) => {
                                self.phase = HandshakePhase::Failed { error, close: Some(fd) };
                            },
                        }
                    },
                    _ => {
                        self.phase = HandshakePhase::Failed {
                            error: BridgeError::Os(errno),
                            close: Some(fd),
                        };
                    },
                }
            },
            _ => {},
        }
    }

    /// How the handshake ended, `None` while it has not.
    pub fn outcome(self) -> (outcome: Option<Result<Connection, BridgeError>>)
        ensures
            match outcome {
                None => self@.outcome() is None,
                Some(Ok(connection)) => self@.outcome() == Some(
                    Ok::<ConnectionView, BridgeError>(connection@),
                ),
                Some(Err(error)) => self@.outcome() == Some(
                    Err::<ConnectionView, BridgeError>(error),
                ),
            },
    {
        proof {
            use_type_invariant(&self);
        }
        match self.phase {
            HandshakePhase::Open { fd } => Some(Ok(Connection { fd, modifiers: self.modifiers })),
            HandshakePhase::Failed { error, .. } => Some(Err(error)),
            _ => None,
        }
    }
}

impl Connection {
    #[verifier::type_invariant]
    closed spec fn well_formed(self) -> bool {
        self.modifiers@.no_duplicates() && self.modifiers@.len() <= READY_MAX_ENTRIES
    }

    /// Begins a handshake with the compositor that listens at `path`. A socket address holds a
    /// path of fewer than `path_capacity` bytes, behind its first `path_offset` bytes.
    pub fn connect(path: &[u8], path_capacity: u32, path_offset: u32, sequence: u32) -> (handshake:
        Handshake)
        ensures
            handshake@ == HandshakeView::begin(path@, path_capacity, path_offset, sequence),
    {
        let phase = if path.len() == 0 || path.len() as u64 >= path_capacity as u64 {
            HandshakePhase::Failed { error: BridgeError::PathLength, close: None }
        } else {
            HandshakePhase::Socket
        };
        Handshake {
            path: slice_to_vec(path),
            path_offset,
            sequence,
            modifiers: Vec::new(),
            phase,
        }
    }

    /// The descriptor of the socket.
    pub fn raw_fd(&self) -> (fd: i32)
        ensures
            fd == self@.fd,
    {
        self.fd
    }

    /// The modifiers that the compositor offered, each once.
    pub fn modifiers(&self) -> (modifiers: &[u64])
        ensures
            modifiers@ == self@.modifiers,
            modifiers@.no_duplicates(),
            modifiers@.len() <= READY_MAX_ENTRIES,
    {
        proof {
            use_type_invariant(self);
        }
        self.modifiers.as_slice()
    }

    /// Begins to send one frame. Its descriptors are those of its planes, and its acquire fence
    /// last.
    pub fn send_frame(
        &self,
        sequence: u32,
        frame: Frame,
        plane_fds: &[i32],
        acquire_fence: Option<i32>,
    ) -> (exchange: FrameExchange)
        ensures
            exchange@ == ExchangeView::begin(
                self@.fd,
                sequence,
                frame,
                plane_fds@,
                acquire_fence,
            ),
    {
        if plane_fds.len() != frame.plane_count as usize || acquire_fence.is_some()
            != frame.has_acquire_fence {
            return FrameExchange::refused(self.fd, sequence, BridgeError::DescriptorCount);
        }
        let payload = match frame.encode() {
            Some(payload) => payload,
            None => {
                return FrameExchange::refused(self.fd, sequence, BridgeError::InvalidFrame);
            },
        };
        let header = Header { kind: Kind::Frame, payload_len: FRAME_LEN as u32, sequence };
        let mut packet: Vec<u8> = slice_to_vec(header.encode().as_slice());
        packet.extend_from_slice(payload.as_slice());
        let mut descriptors: Vec<i32> = slice_to_vec(plane_fds);
        if let Some(fence) = acquire_fence {
            descriptors.push(fence);
        }
        proof {
            assert(packet@ =~= header.bytes() + frame.bytes());
            assert(descriptors@ =~= plane_fds@ + fence_descriptors(acquire_fence));
        }
        FrameExchange {
            fd: self.fd,
            sequence,
            packet,
            descriptors,
            phase: ExchangePhase::Send,
        }
    }
}

/// Where a frame exchange stands: what it does next, or how it ended.
#[derive(Clone, Copy, Debug, PartialEq, Eq, Structural)]
pub enum ExchangePhase {
    /// Send the packet, its descriptors with it.
    Send,
    /// Receive the release.
    Release,
    /// The compositor has released the frame.
    Released,
    /// The exchange failed.
    Failed { error: BridgeError },
}

/// What a socket call of a frame exchange returned.
pub enum ExchangeReply {
    /// The number of bytes that were sent, negative where the call failed.
    Sent { count: isize, errno: i32 },
    /// The packet that was received, `None` where the call failed.
    Received { packet: Option<Vec<u8>>, errno: i32 },
}

/// The next socket call of a frame exchange.
#[derive(Clone, Copy, Debug, PartialEq, Eq)]
pub enum ExchangeAction {
    /// Send the packet of the exchange, and its descriptors with it.
    SendPacket { fd: i32 },
    /// Receive one packet of at most `capacity` bytes.
    ReceiveRelease { fd: i32, capacity: usize },
    /// Nothing is left to do.
    Finish,
}

/// The descriptor of an acquire fence, if there is one.
pub open spec fn fence_descriptors(acquire_fence: Option<i32>) -> Seq<i32> {
    match acquire_fence {
        Some(fence) => seq![fence],
        None => Seq::empty(),
    }
}

/// The model of a frame exchange.
#[verifier::ext_equal]
pub struct ExchangeView {
    pub fd: i32,
    pub sequence: u32,
    pub packet: Seq<u8>,
    pub descriptors: Seq<i32>,
    pub phase: ExchangePhase,
}

impl ExchangeView {
    /// An exchange that sends nothing.
    pub open spec fn refused(fd: i32, sequence: u32, error: BridgeError) -> ExchangeView {
        ExchangeView {
            fd,
            sequence,
            packet: Seq::empty(),
            descriptors: Seq::empty(),
            phase: ExchangePhase::Failed { error },
        }
    }

    /// An exchange of `frame`: refused as a whole where its descriptors are not those that it
    /// announces or where it cannot be encoded.
    pub open spec fn begin(
        fd: i32,
        sequence: u32,
        frame: Frame,
        plane_fds: Seq<i32>,
        acquire_fence: Option<i32>,
    ) -> ExchangeView {
        if plane_fds.len() != frame.plane_count || acquire_fence is Some
            != frame.has_acquire_fence {
            Self::refused(fd, sequence, BridgeError::DescriptorCount)
        } else if !frame.well_formed() {
            Self::refused(fd, sequence, BridgeError::InvalidFrame)
        } else {
            ExchangeView {
                fd,
                sequence,
                packet: (Header {
                    kind: Kind::Frame,
                    payload_len: FRAME_LEN as u32,
                    sequence,
                }).bytes() + frame.bytes(),
                descriptors: plane_fds + fence_descriptors(acquire_fence),
                phase: ExchangePhase::Send,
            }
        }
    }

    /// Whether `reply` answers the call that the exchange waits for.
    pub open spec fn accepts(self, reply: ExchangeReply) -> bool {
        match self.phase {
            ExchangePhase::Send => reply is Sent,
            ExchangePhase::Release => reply is Received,
            _ => false,
        }
    }

    /// The exchange once `reply` has come in.
    pub open spec fn next(self, reply: ExchangeReply) -> ExchangeView {
        match (self.phase, reply) {
            (ExchangePhase::Send, ExchangeReply::Sent { count, errno }) => ExchangeView {
                phase: if count != FRAME_PACKET_LEN {
                    ExchangePhase::Failed { error: BridgeError::Os(errno) }
                } else {
                    ExchangePhase::Release
                },
                ..self
            },
            (ExchangePhase::Release, ExchangeReply::Received { packet, errno }) => ExchangeView {
                phase: match packet {
                    Some(packet) if packet@.len() == HEADER_LEN => match release_outcome(
                        packet@,
                        self.sequence,
                    ) {
                        Ok(()) => ExchangePhase::Released,
                        Err(error) => ExchangePhase::Failed { error },
                    },
                    _ => ExchangePhase::Failed { error: BridgeError::Os(errno) },
                },
                ..self
            },
            _ => self,
        }
    }

    /// How the exchange ended, `None` while it has not.
    pub open spec fn outcome(self) -> Option<Result<(), BridgeError>> {
        match self.phase {
            ExchangePhase::Released => Some(Ok(())),
            ExchangePhase::Failed { error } => Some(Err(error)),
            _ => None,
        }
    }
}

/// The sending of one frame, up to its release.
pub struct FrameExchange {
    fd: i32,
    sequence: u32,
    packet: Vec<u8>,
    descriptors: Vec<i32>,
    phase: ExchangePhase,
}

impl View for FrameExchange {
    type V = ExchangeView;

    closed spec fn view(&self) -> ExchangeView {
        ExchangeView {
            fd: self.fd,
            sequence: self.sequence,
            packet: self.packet@,
            descriptors: self.descriptors@,
            phase: self.phase,
        }
    }
}

impl FrameExchange {
    /// An exchange that sends nothing.
    fn refused(fd: i32, sequence: u32, error: BridgeError) -> (exchange: FrameExchange)
        ensures
            exchange@ == ExchangeView::refused(fd, sequence, error),
    {
        FrameExchange {
            fd,
            sequence,
            packet: Vec::new(),
            descriptors: Vec::new(),
            phase: ExchangePhase::Failed { error },
        }
    }

    /// The sequence of the frame.
    pub fn sequence(&self) -> (sequence: u32)
        ensures
            sequence == self@.sequence,
    {
        self.sequence
    }

    /// The bytes of the frame packet.
    pub fn packet(&self) -> (packet: &[u8])
        ensures
            packet@ == self@.packet,
    {
        self.packet.as_slice()
    }

    /// The descriptors that travel with the packet.
    pub fn descriptors(&self) -> (descriptors: &[i32])
        ensures
            descriptors@ == self@.descriptors,
    {
        self.descriptors.as_slice()
    }

    /// The next socket call.
    pub fn action(&self) -> (action: ExchangeAction)
        ensures
            action == match self@.phase {
                ExchangePhase::Send => ExchangeAction::SendPacket { fd: self@.fd },
                ExchangePhase::Release => ExchangeAction::ReceiveRelease {
                    fd: self@.fd,
                    capacity: HEADER_LEN,
                },
                _ => ExchangeAction::Finish,
            },
    {
        match self.phase {
            ExchangePhase::Send => ExchangeAction::SendPacket { fd: self.fd },
            ExchangePhase::Release => ExchangeAction::ReceiveRelease {
                fd: self.fd,
                capacity: HEADER_LEN,
            },
            _ => ExchangeAction::Finish,
        }
    }

    /// Takes what the socket call returned. The answer to another call changes nothing.
    pub fn step(&mut self, reply: ExchangeReply)
        ensures
            final(self)@ == old(self)@.next(reply),
    {
        match (self.phase, reply) {
            (ExchangePhase::Send, ExchangeReply::Sent { count, errno }) => {
                self.phase = if count != FRAME_PACKET_LEN as isize {
                    ExchangePhase::Failed { error: BridgeError::Os(errno) }
                } else {
                    ExchangePhase::Release
                };
            },
            (ExchangePhase::Release, ExchangeReply::Received { packet, errno }) => {
                self.phase = match packet {
                    Some(packet) if packet.len() == HEADER_LEN => match accept_release(
                        packet.as_slice(),
                        self.sequence,
                    ) {
                        Ok(()) => ExchangePhase::Released,
                        Err(error) => ExchangePhase::Failed { error },
                    },
                    _ => ExchangePhase::Failed { error: BridgeError::Os(errno) },
                };
            },
            _ => {},
        }
    }

    /// How the exchange ended, `None` while it has not.
    pub fn outcome(&self) -> (outcome: Option<Result<(), BridgeError>>)
        ensures
            outcome == self@.outcome(),
    {
        match self.phase {
            ExchangePhase::Released => Some(Ok(())),
            ExchangePhase::Failed { error } => Some(Err(error)),
            _ => None,
        }
    }
}

} // verus!
