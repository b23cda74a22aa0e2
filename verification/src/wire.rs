//! Byte contract between the publisher and the compositor session.
//!
//! The transport is a local `SOCK_SEQPACKET` socket. Every packet starts with a [`Header`]; a
//! [`Frame`] follows the header of a frame packet, and the descriptors of its planes travel with
//! the same packet as ancillary data, an acquire fence last.

use vstd::prelude::*;

use crate::le::{put_le, read_le};
#[allow(unused_imports)]
use crate::le::{le_at, le_bytes};
#[allow(unused_imports)]
use crate::le::lemma_radix;

verus! {

/// `RFB1`, read as a little-endian word.
pub const MAGIC: u32 = 0x3142_4652;

pub const VERSION: u16 = 1;

pub const MAX_PLANES: u8 = 4;

pub const HEADER_LEN: usize = 16;

pub const FRAME_LEN: usize = 64;

pub const READY_ENTRY_LEN: usize = 16;

pub const READY_MAX_ENTRIES: usize = 64;

/// The fourcc `XR24`, read as a little-endian word.
pub const DRM_FORMAT_XR24: u32 = 0x3432_5258;

/// What a packet is for.
#[derive(Clone, Copy, Debug, PartialEq, Eq, Structural)]
pub enum Kind {
    Hello,
    Ready,
    Frame,
    Release,
    Goodbye,
}

impl Kind {
    /// The number that stands for a kind on the wire.
    pub open spec fn spec_code(self) -> u16 {
        match self {
            Kind::Hello => 1,
            Kind::Ready => 2,
            Kind::Frame => 3,
            Kind::Release => 4,
            Kind::Goodbye => 5,
        }
    }

    /// The kind that a number on the wire stands for, if there is one.
    pub open spec fn from_code(raw: nat) -> Option<Kind> {
        if raw == 1 {
            Some(Kind::Hello)
        } else if raw == 2 {
            Some(Kind::Ready)
        } else if raw == 3 {
            Some(Kind::Frame)
        } else if raw == 4 {
            Some(Kind::Release)
        } else if raw == 5 {
            Some(Kind::Goodbye)
        } else {
            None
        }
    }

    /// The number that stands for this kind on the wire.
    pub fn code(self) -> (raw: u16)
        ensures
            raw == self.spec_code(),
    {
        match self {
            Kind::Hello => 1,
            Kind::Ready => 2,
            Kind::Frame => 3,
            Kind::Release => 4,
            Kind::Goodbye => 5,
        }
    }

    /// The kind that `raw` stands for; `None` for a number that no kind has.
    pub fn decode(raw: u16) -> (kind: Option<Kind>)
        ensures
            kind == Kind::from_code(raw as nat),
    {
        match raw {
            1 => Some(Kind::Hello),
            2 => Some(Kind::Ready),
            3 => Some(Kind::Frame),
            4 => Some(Kind::Release),
            5 => Some(Kind::Goodbye),
            _ => None,
        }
    }
}

/// What every packet starts with, behind the magic number and the version.
#[derive(Clone, Copy, Debug, PartialEq, Eq, Structural)]
pub struct Header {
    pub kind: Kind,
    pub payload_len: u32,
    pub sequence: u32,
}

impl Header {
    /// The bytes of a header: magic, version, kind, payload length, sequence.
    pub open spec fn bytes(self) -> Seq<u8> {
        le_bytes(MAGIC as nat, 4) + le_bytes(VERSION as nat, 2) + le_bytes(
            self.kind.spec_code() as nat,
            2,
        ) + le_bytes(self.payload_len as nat, 4) + le_bytes(self.sequence as nat, 4)
    }

    /// The header that `bytes` start with. A packet that is too short, or of another magic,
    /// version or kind, has none.
    pub open spec fn parsed(bytes: Seq<u8>) -> Option<Header> {
        if bytes.len() < HEADER_LEN || le_at(bytes, 0, 4) != MAGIC || le_at(bytes, 4, 2)
            != VERSION {
            None
        } else {
            match Kind::from_code(le_at(bytes, 6, 2)) {
                None => None,
                Some(kind) => Some(
                    Header {
                        kind,
                        payload_len: le_at(bytes, 8, 4) as u32,
                        sequence: le_at(bytes, 12, 4) as u32,
                    },
                ),
            }
        }
    }

    /// The bytes of this header.
    pub fn encode(self) -> (out: [u8; HEADER_LEN])
        ensures
            out@ == self.bytes(),
    {
        let mut out: [u8; 16] = [0u8; 16];
        let ghost start = out@.take(0);
        put_le(&mut out, 0, MAGIC as u64, 4);
        put_le(&mut out, 4, VERSION as u64, 2);
        put_le(&mut out, 6, self.kind.code() as u64, 2);
        put_le(&mut out, 8, self.payload_len as u64, 4);
        put_le(&mut out, 12, self.sequence as u64, 4);
        proof {
            assert(start + le_bytes(MAGIC as nat, 4) =~= le_bytes(MAGIC as nat, 4));
            assert(out@.take(16) =~= out@);
        }
        out
    }

    /// The header that `bytes` start with, if there is one.
    pub fn decode(bytes: &[u8]) -> (header: Option<Header>)
        ensures
            header == Header::parsed(bytes@),
    {
        proof {
            lemma_radix();
        }
        if bytes.len() < HEADER_LEN || read_le(bytes, 0, 4) != MAGIC as u64 || read_le(bytes, 4, 2)
            != VERSION as u64 {
            return None;
        }
        match Kind::decode(read_le(bytes, 6, 2) as u16) {
            None => None,
            Some(kind) => Some(
                Header {
                    kind,
                    payload_len: read_le(bytes, 8, 4) as u32,
                    sequence: read_le(bytes, 12, 4) as u32,
                },
            ),
        }
    }
}

/// Where one plane of an image lies in its memory.
#[derive(Clone, Copy, Debug, PartialEq, Eq, Structural)]
pub struct Plane {
    pub offset: u32,
    pub stride: u32,
}

impl Default for Plane {
    fn default() -> (plane: Plane)
        ensures
            plane == (Plane { offset: 0, stride: 0 }),
    {
        Plane { offset: 0, stride: 0 }
    }
}

impl Plane {
    /// The bytes of a plane: offset, stride.
    pub open spec fn bytes(self) -> Seq<u8> {
        le_bytes(self.offset as nat, 4) + le_bytes(self.stride as nat, 4)
    }

    /// The plane held by the eight bytes that start at `at`.
    pub open spec fn parsed(bytes: Seq<u8>, at: int) -> Plane {
        Plane { offset: le_at(bytes, at, 4) as u32, stride: le_at(bytes, at + 4, 4) as u32 }
    }

    /// The plane held by the eight bytes that start at `at`.
    fn read(bytes: &[u8], at: usize) -> (plane: Plane)
        requires
            at + 8 <= bytes.len(),
        ensures
            plane == Plane::parsed(bytes@, at as int),
    {
        proof {
            lemma_radix();
        }
        Plane { offset: read_le(bytes, at, 4) as u32, stride: read_le(bytes, at + 4, 4) as u32 }
    }
}

/// The metadata of one exported image.
#[derive(Clone, Copy, Debug, PartialEq, Eq)]
pub struct Frame {
    pub display_id: u32,
    pub width: u32,
    pub height: u32,
    pub drm_format: u32,
    pub modifier: u64,
    pub plane_count: u8,
    pub has_acquire_fence: bool,
    pub slot_id: u16,
    pub planes: [Plane; 4],
}

impl Frame {
    /// Whether the number of planes is one that the protocol can carry.
    pub open spec fn well_formed(self) -> bool {
        0 < self.plane_count <= MAX_PLANES
    }

    /// The bytes in front of the planes.
    pub open spec fn prefix_bytes(self) -> Seq<u8> {
        le_bytes(self.display_id as nat, 4) + le_bytes(self.width as nat, 4) + le_bytes(
            self.height as nat,
            4,
        ) + le_bytes(self.drm_format as nat, 4) + le_bytes(self.modifier as nat, 8) + le_bytes(
            self.plane_count as nat,
            1,
        ) + le_bytes(
            if self.has_acquire_fence {
                1
            } else {
                0
            },
            1,
        ) + le_bytes(self.slot_id as nat, 2) + le_bytes(0, 4)
    }

    /// The bytes of a frame: the fields in order, four zero bytes, and all four planes.
    pub open spec fn bytes(self) -> Seq<u8> {
        self.prefix_bytes() + self.planes[0].bytes() + self.planes[1].bytes()
            + self.planes[2].bytes() + self.planes[3].bytes()
    }

    /// The frame that `bytes` hold. Bytes of another length, of an impossible number of planes
    /// or of a fence flag other than zero and one hold none.
    pub open spec fn parsed(bytes: Seq<u8>) -> Option<Frame> {
        if bytes.len() != FRAME_LEN || bytes[24] == 0 || bytes[24] > MAX_PLANES || bytes[25] > 1 {
            None
        } else {
            Some(
                Frame {
                    display_id: le_at(bytes, 0, 4) as u32,
                    width: le_at(bytes, 4, 4) as u32,
                    height: le_at(bytes, 8, 4) as u32,
                    drm_format: le_at(bytes, 12, 4) as u32,
                    modifier: le_at(bytes, 16, 8) as u64,
                    plane_count: bytes[24],
                    has_acquire_fence: bytes[25] != 0,
                    slot_id: le_at(bytes, 26, 2) as u16,
                    planes: [
                        Plane::parsed(bytes, 32),
                        Plane::parsed(bytes, 40),
                        Plane::parsed(bytes, 48),
                        Plane::parsed(bytes, 56),
                    ],
                },
            )
        }
    }

    /// The bytes of this frame; `None` for a number of planes that the protocol cannot carry.
    pub fn encode(self) -> (out: Option<[u8; FRAME_LEN]>)
        ensures
            match out {
                Some(out) => self.well_formed() && out@ == self.bytes(),
                None => !self.well_formed(),
            },
    {
        if self.plane_count == 0 || self.plane_count > MAX_PLANES {
            return None;
        }
        let mut out: [u8; 64] = [0u8; 64];
        let ghost start = out@.take(0);
        put_le(&mut out, 0, self.display_id as u64, 4);
        put_le(&mut out, 4, self.width as u64, 4);
        put_le(&mut out, 8, self.height as u64, 4);
        put_le(&mut out, 12, self.drm_format as u64, 4);
        put_le(&mut out, 16, self.modifier, 8);
        put_le(&mut out, 24, self.plane_count as u64, 1);
        put_le(
            &mut out,
            25,
            if self.has_acquire_fence {
                1
            } else {
                0
            },
            1,
        );
        put_le(&mut out, 26, self.slot_id as u64, 2);
        put_le(&mut out, 28, 0, 4);
        proof {
            assert(start + le_bytes(self.display_id as nat, 4) =~= le_bytes(
                self.display_id as nat,
                4,
            ));
        }
        assert(out@.take(32) == self.prefix_bytes());
        Self::put_plane(&mut out, 32, self.planes[0]);
        Self::put_plane(&mut out, 40, self.planes[1]);
        Self::put_plane(&mut out, 48, self.planes[2]);
        Self::put_plane(&mut out, 56, self.planes[3]);
        assert(out@.take(64) =~= out@);
        Some(out)
    }

    /// Writes one plane behind the first `at` bytes.
    fn put_plane(out: &mut [u8; FRAME_LEN], at: usize, plane: Plane)
        requires
            at + 8 <= FRAME_LEN,
        ensures
            final(out)@.take(at + 8) == old(out)@.take(at as int) + plane.bytes(),
    {
        let ghost before = out@.take(at as int);
        put_le(out, at, plane.offset as u64, 4);
        put_le(out, at + 4, plane.stride as u64, 4);
        assert(before + le_bytes(plane.offset as nat, 4) + le_bytes(plane.stride as nat, 4)
            =~= before + plane.bytes());
    }

    /// The frame that `bytes` hold, if they hold one.
    pub fn decode(bytes: &[u8]) -> (frame: Option<Frame>)
        ensures
            frame == Frame::parsed(bytes@),
    {
        if bytes.len() != FRAME_LEN || bytes[24] == 0 || bytes[24] > MAX_PLANES || bytes[25] > 1 {
            return None;
        }
        proof {
            lemma_radix();
        }
        let planes: [Plane; 4] = [
            Plane::read(bytes, 32),
            Plane::read(bytes, 40),
            Plane::read(bytes, 48),
            Plane::read(bytes, 56),
        ];
        let frame = Frame {
            display_id: read_le(bytes, 0, 4) as u32,
            width: read_le(bytes, 4, 4) as u32,
            height: read_le(bytes, 8, 4) as u32,
            drm_format: read_le(bytes, 12, 4) as u32,
            modifier: read_le(bytes, 16, 8),
            plane_count: bytes[24],
            has_acquire_fence: bytes[25] != 0,
            slot_id: read_le(bytes, 26, 2) as u16,
            planes,
        };
        assert(frame.planes =~= Frame::parsed(bytes@).unwrap().planes);
        Some(frame)
    }
}

} // verus!
