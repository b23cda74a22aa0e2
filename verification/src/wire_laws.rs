//! What holds of the byte contract as a whole.

use vstd::prelude::*;

#[allow(unused_imports)]
use crate::le::{
    le_at, le_bytes, lemma_bytes_of_value, lemma_le_bytes_len, lemma_radix,
    lemma_value_of_bytes, radix,
};
#[allow(unused_imports)]
use crate::wire::{Frame, Header, Kind, Plane, FRAME_LEN, HEADER_LEN, MAGIC, VERSION};

verus! {

/// A word that was written at `at` is read back from there.
proof fn lemma_word(bytes: Seq<u8>, at: int, value: nat, width: nat)
    requires
        value < radix(width),
        0 <= at,
        at + width <= bytes.len(),
        bytes.subrange(at, at + width) == le_bytes(value, width),
    ensures
        le_at(bytes, at, width as int) == value,
{
    lemma_value_of_bytes(value, width);
}

/// The bytes at `at` are those of the word that is read there.
proof fn lemma_word_bytes(bytes: Seq<u8>, at: int, width: int)
    requires
        0 <= at,
        0 <= width,
        at + width <= bytes.len(),
    ensures
        bytes.subrange(at, at + width) == le_bytes(le_at(bytes, at, width), width as nat),
        le_at(bytes, at, width) < radix(width as nat),
{
    lemma_bytes_of_value(bytes.subrange(at, at + width));
}

/// The number of a kind names that kind and no other.
pub proof fn law_kind_codes(kind: Kind, raw: nat)
    ensures
        Kind::from_code(kind.spec_code() as nat) == Some(kind),
        Kind::from_code(raw) matches Some(other) ==> other.spec_code() == raw,
{
}

/// A header takes up exactly its length.
pub proof fn law_header_length(header: Header)
    ensures
        header.bytes().len() == HEADER_LEN,
{
    lemma_le_bytes_len(MAGIC as nat, 4);
    lemma_le_bytes_len(VERSION as nat, 2);
    lemma_le_bytes_len(header.kind.spec_code() as nat, 2);
    lemma_le_bytes_len(header.payload_len as nat, 4);
    lemma_le_bytes_len(header.sequence as nat, 4);
}

/// A header is read back from the packet that it starts, whatever payload follows.
pub proof fn law_header_round_trip(header: Header, payload: Seq<u8>)
    ensures
        Header::parsed(header.bytes() + payload) == Some(header),
{
    lemma_radix();
    law_header_length(header);
    let bytes = header.bytes() + payload;
    let magic = le_bytes(MAGIC as nat, 4);
    let version = le_bytes(VERSION as nat, 2);
    let kind = le_bytes(header.kind.spec_code() as nat, 2);
    let payload_len = le_bytes(header.payload_len as nat, 4);
    let sequence = le_bytes(header.sequence as nat, 4);
    lemma_le_bytes_len(MAGIC as nat, 4);
    lemma_le_bytes_len(VERSION as nat, 2);
    lemma_le_bytes_len(header.kind.spec_code() as nat, 2);
    lemma_le_bytes_len(header.payload_len as nat, 4);
    lemma_le_bytes_len(header.sequence as nat, 4);
    assert(bytes.subrange(0, 4) =~= magic);
    assert(bytes.subrange(4, 6) =~= version);
    assert(bytes.subrange(6, 8) =~= kind);
    assert(bytes.subrange(8, 12) =~= payload_len);
    assert(bytes.subrange(12, 16) =~= sequence);
    lemma_word(bytes, 0, MAGIC as nat, 4);
    lemma_word(bytes, 4, VERSION as nat, 2);
    lemma_word(bytes, 6, header.kind.spec_code() as nat, 2);
    lemma_word(bytes, 8, header.payload_len as nat, 4);
    lemma_word(bytes, 12, header.sequence as nat, 4);
}

/// Only the bytes of a header are read as that header: whatever is accepted starts with them.
pub proof fn law_header_is_canonical(bytes: Seq<u8>)
    ensures
        Header::parsed(bytes) matches Some(header) ==> header.bytes() == bytes.take(
            HEADER_LEN as int,
        ),
{
    if let Some(header) = Header::parsed(bytes) {
        lemma_radix();
        lemma_word_bytes(bytes, 0, 4);
        lemma_word_bytes(bytes, 4, 2);
        lemma_word_bytes(bytes, 6, 2);
        lemma_word_bytes(bytes, 8, 4);
        lemma_word_bytes(bytes, 12, 4);
        law_kind_codes(header.kind, le_at(bytes, 6, 2));
        assert(bytes.take(16) =~= bytes.subrange(0, 4) + bytes.subrange(4, 6) + bytes.subrange(6, 8)
            + bytes.subrange(8, 12) + bytes.subrange(12, 16));
    }
}

/// A change to the magic number or the version of a header makes it unreadable, and a change to
/// its kind never leaves the same header.
pub proof fn law_header_detects_corruption(header: Header, corrupt: Seq<u8>)
    requires
        corrupt.len() == HEADER_LEN,
        corrupt.take(8) != header.bytes().take(8),
    ensures
        corrupt.take(6) != header.bytes().take(6) ==> Header::parsed(corrupt) is None,
        Header::parsed(corrupt) matches Some(other) ==> other.kind != header.kind,
{
    law_header_length(header);
    if let Some(other) = Header::parsed(corrupt) {
        law_header_is_canonical(corrupt);
        assert(corrupt.take(16) =~= corrupt);
        law_header_length(other);
        lemma_le_bytes_len(MAGIC as nat, 4);
        lemma_le_bytes_len(VERSION as nat, 2);
        lemma_le_bytes_len(header.kind.spec_code() as nat, 2);
        lemma_le_bytes_len(other.kind.spec_code() as nat, 2);
        let start = le_bytes(MAGIC as nat, 4) + le_bytes(VERSION as nat, 2);
        assert(corrupt.take(6) =~= start);
        assert(header.bytes().take(6) =~= start);
        assert(corrupt.take(8) =~= start + le_bytes(other.kind.spec_code() as nat, 2));
        assert(header.bytes().take(8) =~= start + le_bytes(header.kind.spec_code() as nat, 2));
    }
}

/// The length of the pieces of a frame.
proof fn lemma_frame_pieces(frame: Frame)
    ensures
        le_bytes(frame.display_id as nat, 4).len() == 4,
        le_bytes(frame.width as nat, 4).len() == 4,
        le_bytes(frame.height as nat, 4).len() == 4,
        le_bytes(frame.drm_format as nat, 4).len() == 4,
        le_bytes(frame.modifier as nat, 8).len() == 8,
        le_bytes(frame.plane_count as nat, 1) == seq![frame.plane_count],
        le_bytes(1, 1) == seq![1u8],
        le_bytes(0, 1) == seq![0u8],
        le_bytes(frame.slot_id as nat, 2).len() == 2,
        le_bytes(0, 4) == seq![0u8, 0, 0, 0],
        frame.prefix_bytes().len() == 32,
{
    lemma_le_bytes_len(frame.display_id as nat, 4);
    lemma_le_bytes_len(frame.width as nat, 4);
    lemma_le_bytes_len(frame.height as nat, 4);
    lemma_le_bytes_len(frame.drm_format as nat, 4);
    lemma_le_bytes_len(frame.modifier as nat, 8);
    lemma_le_bytes_len(frame.slot_id as nat, 2);
    reveal_with_fuel(le_bytes, 5);
    assert(le_bytes(frame.plane_count as nat, 1) =~= seq![frame.plane_count]);
    assert(le_bytes(1, 1) =~= seq![1u8]);
    assert(le_bytes(0, 1) =~= seq![0u8]);
    assert(le_bytes(0, 4) =~= seq![0u8, 0, 0, 0]);
}

/// A plane takes up eight bytes, and is read back from where it stands.
proof fn lemma_plane(bytes: Seq<u8>, at: int, plane: Plane)
    requires
        0 <= at,
        at + 8 <= bytes.len(),
        bytes.subrange(at, at + 8) == plane.bytes(),
    ensures
        Plane::parsed(bytes, at) == plane,
{
    lemma_radix();
    lemma_le_bytes_len(plane.offset as nat, 4);
    lemma_le_bytes_len(plane.stride as nat, 4);
    assert(bytes.subrange(at, at + 4) =~= bytes.subrange(at, at + 8).take(4));
    assert(plane.bytes().take(4) =~= le_bytes(plane.offset as nat, 4));
    assert(bytes.subrange(at + 4, at + 8) =~= bytes.subrange(at, at + 8).skip(4));
    assert(plane.bytes().skip(4) =~= le_bytes(plane.stride as nat, 4));
    lemma_word(bytes, at, plane.offset as nat, 4);
    lemma_word(bytes, at + 4, plane.stride as nat, 4);
}

/// The bytes at `at` are those of the plane that is read there.
proof fn lemma_plane_bytes(bytes: Seq<u8>, at: int)
    requires
        0 <= at,
        at + 8 <= bytes.len(),
    ensures
        bytes.subrange(at, at + 8) == Plane::parsed(bytes, at).bytes(),
{
    lemma_radix();
    lemma_word_bytes(bytes, at, 4);
    lemma_word_bytes(bytes, at + 4, 4);
    assert(bytes.subrange(at, at + 8) =~= bytes.subrange(at, at + 4) + bytes.subrange(
        at + 4,
        at + 8,
    ));
}

/// A frame takes up exactly its length.
pub proof fn law_frame_length(frame: Frame)
    ensures
        frame.bytes().len() == FRAME_LEN,
{
    lemma_frame_pieces(frame);
    assert forall|plane: Plane| #[trigger] plane.bytes().len() == 8 by {
        lemma_le_bytes_len(plane.offset as nat, 4);
        lemma_le_bytes_len(plane.stride as nat, 4);
    }
}

/// A frame whose number of planes the protocol can carry is read back from its bytes: every
/// field, every plane and the fence flag.
pub proof fn law_frame_round_trip(frame: Frame)
    requires
        frame.well_formed(),
    ensures
        Frame::parsed(frame.bytes()) == Some(frame),
{
    lemma_radix();
    lemma_frame_pieces(frame);
    law_frame_length(frame);
    let bytes = frame.bytes();
    let prefix = frame.prefix_bytes();
    assert forall|plane: Plane| #[trigger] plane.bytes().len() == 8 by {
        lemma_le_bytes_len(plane.offset as nat, 4);
        lemma_le_bytes_len(plane.stride as nat, 4);
    }
    assert(bytes.take(32) =~= prefix);
    assert(bytes.subrange(0, 4) =~= le_bytes(frame.display_id as nat, 4));
    assert(bytes.subrange(4, 8) =~= le_bytes(frame.width as nat, 4));
    assert(bytes.subrange(8, 12) =~= le_bytes(frame.height as nat, 4));
    assert(bytes.subrange(12, 16) =~= le_bytes(frame.drm_format as nat, 4));
    assert(bytes.subrange(16, 24) =~= le_bytes(frame.modifier as nat, 8));
    assert(bytes.subrange(26, 28) =~= le_bytes(frame.slot_id as nat, 2));
    lemma_word(bytes, 0, frame.display_id as nat, 4);
    lemma_word(bytes, 4, frame.width as nat, 4);
    lemma_word(bytes, 8, frame.height as nat, 4);
    lemma_word(bytes, 12, frame.drm_format as nat, 4);
    lemma_word(bytes, 16, frame.modifier as nat, 8);
    lemma_word(bytes, 26, frame.slot_id as nat, 2);
    assert(bytes[24] == prefix[24] == frame.plane_count);
    assert(bytes[25] == prefix[25]);
    assert(bytes.subrange(32, 40) =~= frame.planes[0].bytes());
    assert(bytes.subrange(40, 48) =~= frame.planes[1].bytes());
    assert(bytes.subrange(48, 56) =~= frame.planes[2].bytes());
    assert(bytes.subrange(56, 64) =~= frame.planes[3].bytes());
    lemma_plane(bytes, 32, frame.planes[0]);
    lemma_plane(bytes, 40, frame.planes[1]);
    lemma_plane(bytes, 48, frame.planes[2]);
    lemma_plane(bytes, 56, frame.planes[3]);
    assert(Frame::parsed(bytes).unwrap().planes =~= frame.planes);
}

/// Whatever is read as a frame can be written again, and gives the same bytes but for the four
/// that no field uses, which become zero.
pub proof fn law_frame_rewrite(bytes: Seq<u8>)
    ensures
        Frame::parsed(bytes) matches Some(frame) ==> frame.well_formed() && frame.bytes()
            == bytes.take(28) + seq![0u8, 0, 0, 0] + bytes.skip(32),
{
    if let Some(frame) = Frame::parsed(bytes) {
        lemma_radix();
        lemma_frame_pieces(frame);
        lemma_word_bytes(bytes, 0, 4);
        lemma_word_bytes(bytes, 4, 4);
        lemma_word_bytes(bytes, 8, 4);
        lemma_word_bytes(bytes, 12, 4);
        lemma_word_bytes(bytes, 16, 8);
        lemma_word_bytes(bytes, 26, 2);
        lemma_plane_bytes(bytes, 32);
        lemma_plane_bytes(bytes, 40);
        lemma_plane_bytes(bytes, 48);
        lemma_plane_bytes(bytes, 56);
        assert(frame.prefix_bytes() =~= bytes.take(28) + seq![0u8, 0, 0, 0]);
        assert(bytes.skip(32) =~= bytes.subrange(32, 40) + bytes.subrange(40, 48)
            + bytes.subrange(48, 56) + bytes.subrange(56, 64));
        assert(frame.bytes() =~= frame.prefix_bytes() + bytes.skip(32));
    }
}

/// The number that the two bytes from `at` on stand for: each byte weighs 256 times the one before.
pub open spec fn word16(bytes: Seq<u8>, at: int) -> int {
    bytes[at] + 0x100 * bytes[at + 1]
}

/// The number that the four bytes from `at` on stand for.
pub open spec fn word32(bytes: Seq<u8>, at: int) -> int {
    bytes[at] + 0x100 * bytes[at + 1] + 0x1_0000 * bytes[at + 2] + 0x100_0000 * bytes[at + 3]
}

/// The number that the eight bytes from `at` on stand for.
pub open spec fn word64(bytes: Seq<u8>, at: int) -> int {
    bytes[at] + 0x100 * bytes[at + 1] + 0x1_0000 * bytes[at + 2] + 0x100_0000 * bytes[at + 3]
        + 0x1_0000_0000 * bytes[at + 4] + 0x100_0000_0000 * bytes[at + 5] + 0x1_0000_0000_0000
        * bytes[at + 6] + 0x100_0000_0000_0000 * bytes[at + 7]
}

/// The number that is read from two, four or eight bytes is the weighed sum of the bytes, and that
/// of one byte is the byte.
pub proof fn law_words_are_weighed_bytes(bytes: Seq<u8>, at: int)
    requires
        0 <= at,
    ensures
        at + 1 <= bytes.len() ==> le_at(bytes, at, 1) == bytes[at],
        at + 2 <= bytes.len() ==> le_at(bytes, at, 2) == word16(bytes, at),
        at + 4 <= bytes.len() ==> le_at(bytes, at, 4) == word32(bytes, at),
        at + 8 <= bytes.len() ==> le_at(bytes, at, 8) == word64(bytes, at),
{
    if at + 1 <= bytes.len() {
        lemma_next_byte(bytes, at, 1);
    }
    if at + 2 <= bytes.len() {
        lemma_next_byte(bytes, at, 2);
        lemma_next_byte(bytes, at + 1, 1);
    }
    if at + 4 <= bytes.len() {
        lemma_next_byte(bytes, at, 4);
        lemma_next_byte(bytes, at + 1, 3);
        lemma_next_byte(bytes, at + 2, 2);
        lemma_next_byte(bytes, at + 3, 1);
    }
    if at + 8 <= bytes.len() {
        lemma_next_byte(bytes, at, 8);
        lemma_next_byte(bytes, at + 1, 7);
        lemma_next_byte(bytes, at + 2, 6);
        lemma_next_byte(bytes, at + 3, 5);
        lemma_next_byte(bytes, at + 4, 4);
        lemma_next_byte(bytes, at + 5, 3);
        lemma_next_byte(bytes, at + 6, 2);
        lemma_next_byte(bytes, at + 7, 1);
    }
}

/// A number is its first byte and 256 times the number behind it.
proof fn lemma_next_byte(bytes: Seq<u8>, at: int, width: int)
    requires
        0 <= at,
        0 < width,
        at + width <= bytes.len(),
    ensures
        le_at(bytes, at, width) == bytes[at] + 256 * le_at(bytes, at + 1, width - 1),
        width == 1 ==> le_at(bytes, at + 1, width - 1) == 0,
{
    assert(bytes.subrange(at, at + width).drop_first() =~= bytes.subrange(at + 1, at + width));
    assert(bytes.subrange(at, at + width)[0] == bytes[at]);
}

/// The numbers of the kinds, on the way out and on the way in.
pub proof fn law_kind_numbers(kind: Kind, raw: nat)
    ensures
        kind.spec_code() == match kind {
            Kind::Hello => 1int,
            Kind::Ready => 2,
            Kind::Frame => 3,
            Kind::Release => 4,
            Kind::Goodbye => 5,
        },
        Kind::from_code(raw) == Some(Kind::Hello) <==> raw == 1,
        Kind::from_code(raw) == Some(Kind::Ready) <==> raw == 2,
        Kind::from_code(raw) == Some(Kind::Frame) <==> raw == 3,
        Kind::from_code(raw) == Some(Kind::Release) <==> raw == 4,
        Kind::from_code(raw) == Some(Kind::Goodbye) <==> raw == 5,
        Kind::from_code(raw) is None <==> raw == 0 || raw > 5,
{
}

/// Whether sixteen bytes at the start of a packet are those of this header: `RFB1`, version one,
/// the number of the kind, the length of the payload and the sequence, each least significant byte
/// first.
pub open spec fn starts_with_header(bytes: Seq<u8>, header: Header) -> bool {
    &&& bytes.len() >= 16
    &&& bytes[0] == 0x52 && bytes[1] == 0x46 && bytes[2] == 0x42 && bytes[3] == 0x31
    &&& bytes[4] == 1 && bytes[5] == 0
    &&& bytes[6] == match header.kind {
        Kind::Hello => 1int,
        Kind::Ready => 2,
        Kind::Frame => 3,
        Kind::Release => 4,
        Kind::Goodbye => 5,
    } && bytes[7] == 0
    &&& word32(bytes, 8) == header.payload_len
    &&& word32(bytes, 12) == header.sequence
}

/// A header is written byte by byte where the protocol has its fields, and in sixteen bytes.
pub proof fn law_header_layout(header: Header)
    ensures
        header.bytes().len() == 16,
        header.bytes()[0] == 0x52,
        header.bytes()[1] == 0x46,
        header.bytes()[2] == 0x42,
        header.bytes()[3] == 0x31,
        header.bytes()[4] == 1,
        header.bytes()[5] == 0,
        header.bytes()[6] == match header.kind {
            Kind::Hello => 1int,
            Kind::Ready => 2,
            Kind::Frame => 3,
            Kind::Release => 4,
            Kind::Goodbye => 5,
        },
        header.bytes()[7] == 0,
        word32(header.bytes(), 8) == header.payload_len,
        word32(header.bytes(), 12) == header.sequence,
        starts_with_header(header.bytes(), header),
{
    let bytes = header.bytes();
    law_header_length(header);
    law_header_round_trip(header, Seq::empty());
    assert(bytes + Seq::<u8>::empty() =~= bytes);
    lemma_radix();
    lemma_header_words(bytes);
    law_kind_numbers(header.kind, le_at(bytes, 6, 2));
}

/// The words of a header, and the bytes of its magic number.
proof fn lemma_header_words(bytes: Seq<u8>)
    requires
        bytes.len() >= 16,
    ensures
        le_at(bytes, 0, 4) == word32(bytes, 0),
        le_at(bytes, 4, 2) == word16(bytes, 4),
        le_at(bytes, 6, 2) == word16(bytes, 6),
        le_at(bytes, 8, 4) == word32(bytes, 8),
        le_at(bytes, 12, 4) == word32(bytes, 12),
        word32(bytes, 0) == 0x3142_4652 <==> bytes[0] == 0x52 && bytes[1] == 0x46 && bytes[2]
            == 0x42 && bytes[3] == 0x31,
        word16(bytes, 4) == 1 <==> bytes[4] == 1 && bytes[5] == 0,
{
    law_words_are_weighed_bytes(bytes, 0);
    law_words_are_weighed_bytes(bytes, 4);
    law_words_are_weighed_bytes(bytes, 6);
    law_words_are_weighed_bytes(bytes, 8);
    law_words_are_weighed_bytes(bytes, 12);
}

/// A packet is read as a header exactly where it starts with the bytes of that header; no other
/// header is read from it, and none from any other packet.
pub proof fn law_header_reading(bytes: Seq<u8>, header: Header)
    ensures
        Header::parsed(bytes) == Some(header) <==> starts_with_header(bytes, header),
{
    if bytes.len() >= 16 {
        lemma_radix();
        lemma_header_words(bytes);
        law_kind_numbers(header.kind, le_at(bytes, 6, 2));
    }
}

/// Whether sixty-four bytes are those of this frame, every field at its place: display, width,
/// height, format and modifier from byte zero on, the number of planes in byte 24, the fence flag
/// in byte 25, the slot behind it, and from byte 32 on the offset and the stride of each plane.
pub open spec fn laid_out_as(bytes: Seq<u8>, frame: Frame) -> bool {
    &&& bytes.len() == 64
    &&& word32(bytes, 0) == frame.display_id
    &&& word32(bytes, 4) == frame.width
    &&& word32(bytes, 8) == frame.height
    &&& word32(bytes, 12) == frame.drm_format
    &&& word64(bytes, 16) == frame.modifier
    &&& bytes[24] == frame.plane_count
    &&& bytes[25] == if frame.has_acquire_fence {
        1int
    } else {
        0int
    }
    &&& word16(bytes, 26) == frame.slot_id
    &&& word32(bytes, 32) == frame.planes[0].offset
    &&& word32(bytes, 36) == frame.planes[0].stride
    &&& word32(bytes, 40) == frame.planes[1].offset
    &&& word32(bytes, 44) == frame.planes[1].stride
    &&& word32(bytes, 48) == frame.planes[2].offset
    &&& word32(bytes, 52) == frame.planes[2].stride
    &&& word32(bytes, 56) == frame.planes[3].offset
    &&& word32(bytes, 60) == frame.planes[3].stride
}

/// The words of a frame.
proof fn lemma_frame_words(bytes: Seq<u8>)
    requires
        bytes.len() == 64,
    ensures
        le_at(bytes, 0, 4) == word32(bytes, 0),
        le_at(bytes, 4, 4) == word32(bytes, 4),
        le_at(bytes, 8, 4) == word32(bytes, 8),
        le_at(bytes, 12, 4) == word32(bytes, 12),
        le_at(bytes, 16, 8) == word64(bytes, 16),
        le_at(bytes, 26, 2) == word16(bytes, 26),
        le_at(bytes, 32, 4) == word32(bytes, 32),
        le_at(bytes, 36, 4) == word32(bytes, 36),
        le_at(bytes, 40, 4) == word32(bytes, 40),
        le_at(bytes, 44, 4) == word32(bytes, 44),
        le_at(bytes, 48, 4) == word32(bytes, 48),
        le_at(bytes, 52, 4) == word32(bytes, 52),
        le_at(bytes, 56, 4) == word32(bytes, 56),
        le_at(bytes, 60, 4) == word32(bytes, 60),
{
    law_words_are_weighed_bytes(bytes, 0);
    law_words_are_weighed_bytes(bytes, 4);
    law_words_are_weighed_bytes(bytes, 8);
    law_words_are_weighed_bytes(bytes, 12);
    law_words_are_weighed_bytes(bytes, 16);
    law_words_are_weighed_bytes(bytes, 26);
    law_words_are_weighed_bytes(bytes, 32);
    law_words_are_weighed_bytes(bytes, 36);
    law_words_are_weighed_bytes(bytes, 40);
    law_words_are_weighed_bytes(bytes, 44);
    law_words_are_weighed_bytes(bytes, 48);
    law_words_are_weighed_bytes(bytes, 52);
    law_words_are_weighed_bytes(bytes, 56);
    law_words_are_weighed_bytes(bytes, 60);
}

/// A frame of one to four planes is written field by field where the protocol has them, whatever
/// its number of planes; the four bytes behind the slot are zero.
pub proof fn law_frame_layout(frame: Frame)
    requires
        1 <= frame.plane_count <= 4,
    ensures
        frame.well_formed(),
        frame.bytes().len() == 64,
        word32(frame.bytes(), 0) == frame.display_id,
        word32(frame.bytes(), 4) == frame.width,
        word32(frame.bytes(), 8) == frame.height,
        word32(frame.bytes(), 12) == frame.drm_format,
        word64(frame.bytes(), 16) == frame.modifier,
        frame.bytes()[24] == frame.plane_count,
        frame.bytes()[25] == if frame.has_acquire_fence {
            1int
        } else {
            0int
        },
        word16(frame.bytes(), 26) == frame.slot_id,
        word32(frame.bytes(), 28) == 0,
        word32(frame.bytes(), 32) == frame.planes[0].offset,
        word32(frame.bytes(), 36) == frame.planes[0].stride,
        word32(frame.bytes(), 40) == frame.planes[1].offset,
        word32(frame.bytes(), 44) == frame.planes[1].stride,
        word32(frame.bytes(), 48) == frame.planes[2].offset,
        word32(frame.bytes(), 52) == frame.planes[2].stride,
        word32(frame.bytes(), 56) == frame.planes[3].offset,
        word32(frame.bytes(), 60) == frame.planes[3].stride,
        laid_out_as(frame.bytes(), frame),
{
    let bytes = frame.bytes();
    law_frame_length(frame);
    law_frame_round_trip(frame);
    lemma_frame_pieces(frame);
    law_frame_reading(bytes, frame);
    assert(bytes.take(32) =~= frame.prefix_bytes());
    assert(bytes.subrange(28, 32) =~= seq![0u8, 0, 0, 0]);
    assert(bytes.subrange(28, 32)[0] == bytes[28]);
    assert(bytes.subrange(28, 32)[1] == bytes[29]);
    assert(bytes.subrange(28, 32)[2] == bytes[30]);
    assert(bytes.subrange(28, 32)[3] == bytes[31]);
}

/// A frame cannot be written exactly where its number of planes is none of one to four.
pub proof fn law_frame_planes(frame: Frame)
    ensures
        frame.well_formed() <==> 1 <= frame.plane_count <= 4,
{
}

/// Bytes are read as a frame exactly where they are laid out as that frame and hold one to four
/// planes; no other frame is read from them. The four bytes behind the slot may hold anything.
pub proof fn law_frame_reading(bytes: Seq<u8>, frame: Frame)
    ensures
        Frame::parsed(bytes) == Some(frame) <==> laid_out_as(bytes, frame) && 1
            <= frame.plane_count <= 4,
        Frame::parsed(bytes) is Some <==> bytes.len() == 64 && 1 <= bytes[24] <= 4 && bytes[25]
            <= 1,
{
    if bytes.len() == 64 {
        lemma_radix();
        lemma_frame_words(bytes);
        if let Some(read) = Frame::parsed(bytes) {
            if laid_out_as(bytes, frame) {
                assert(read.planes[0] == frame.planes[0]);
                assert(read.planes[1] == frame.planes[1]);
                assert(read.planes[2] == frame.planes[2]);
                assert(read.planes[3] == frame.planes[3]);
                assert(read.planes =~= frame.planes);
            }
        }
    }
}

} // verus!
