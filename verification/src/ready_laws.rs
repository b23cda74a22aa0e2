//! What holds of the compositor's answers.

use vstd::prelude::*;

use crate::error::BridgeError;
#[allow(unused_imports)]
use crate::le::le_at;
#[allow(unused_imports)]
use crate::ready::{
    entry_at, entry_supported, offered, ready_outcome, release_outcome, without_repeats,
};
#[allow(unused_imports)]
use crate::wire::{Header, Kind, HEADER_LEN, READY_MAX_ENTRIES};
#[allow(unused_imports)]
use crate::wire_laws::{
    law_header_is_canonical, law_header_reading, law_header_round_trip, law_words_are_weighed_bytes,
    word32, word64,
};

verus! {

/// Whether `modifier` is offered for the first time at position `at`.
pub open spec fn first_offered_at(offers: Seq<u64>, at: int, modifier: u64) -> bool {
    0 <= at < offers.len() && offers[at] == modifier && !offers.take(at).contains(modifier)
}

/// The repetitions are all that is left out: what remains is distinct, holds the same modifiers,
/// is no longer than the offer, and keeps the order in which the modifiers came first.
pub proof fn law_offers_without_repeats(offers: Seq<u64>)
    ensures
        without_repeats(offers).no_duplicates(),
        without_repeats(offers).len() <= offers.len(),
        forall|modifier: u64|
            #![trigger without_repeats(offers).contains(modifier)]
            #![trigger offers.contains(modifier)]
            without_repeats(offers).contains(modifier) <==> offers.contains(modifier),
        forall|i: int, j: int, p: int, q: int|
            0 <= i < j < without_repeats(offers).len() && #[trigger] first_offered_at(
                offers,
                p,
                without_repeats(offers)[i],
            ) && #[trigger] first_offered_at(offers, q, without_repeats(offers)[j]) ==> p < q,
    decreases offers.len(),
{
    let kept = without_repeats(offers);
    if offers.len() > 0 {
        let earlier = offers.drop_last();
        let last = offers.last();
        let before = without_repeats(earlier);
        law_offers_without_repeats(earlier);
        assert forall|modifier: u64| #[trigger] kept.contains(modifier) <==> offers.contains(
            modifier,
        ) by {
            if kept.contains(modifier) {
                let k = choose|k: int| 0 <= k < kept.len() && kept[k] == modifier;
                if k < before.len() {
                    assert(before.contains(modifier));
                    let p = choose|p: int| 0 <= p < earlier.len() && earlier[p] == modifier;
                    assert(offers[p] == modifier);
                } else {
                    assert(offers[offers.len() - 1] == modifier);
                }
            }
            if offers.contains(modifier) {
                let p = choose|p: int| 0 <= p < offers.len() && offers[p] == modifier;
                if p < earlier.len() {
                    assert(earlier[p] == modifier);
                    assert(before.contains(modifier));
                    let k = choose|k: int| 0 <= k < before.len() && before[k] == modifier;
                    assert(kept[k] == modifier);
                } else if !before.contains(last) {
                    assert(kept[kept.len() - 1] == modifier);
                }
            }
        }
        assert forall|i: int, j: int, p: int, q: int|
            0 <= i < j < kept.len() && #[trigger] first_offered_at(offers, p, kept[i])
                && #[trigger] first_offered_at(offers, q, kept[j]) implies p < q by {
            assert(before.contains(kept[i]));
            assert(earlier.contains(kept[i]));
            let r = choose|r: int| 0 <= r < earlier.len() && earlier[r] == kept[i];
            if p == offers.len() - 1 {
                assert(offers.take(p)[r] == kept[i]);
            }
            assert(offers.take(p) =~= earlier.take(p));
            assert(first_offered_at(earlier, p, before[i]));
            if j < before.len() {
                assert(before.contains(kept[j]));
                assert(earlier.contains(kept[j]));
                let s = choose|s: int| 0 <= s < earlier.len() && earlier[s] == kept[j];
                if q == offers.len() - 1 {
                    assert(offers.take(q)[s] == kept[j]);
                }
                assert(offers.take(q) =~= earlier.take(q));
                assert(first_offered_at(earlier, q, before[j]));
            } else if q < earlier.len() {
                assert(earlier[q] == last);
                assert(earlier.contains(last));
                assert(before.contains(last));
            }
        }
    }
}

/// A ready packet that is accepted starts with a ready header for that very hello, offers at most
/// the protocol's number of entries, all of them supported, and yields each offered modifier once.
pub proof fn law_ready_modifiers(packet: Seq<u8>, sequence: u32)
    ensures
        ready_outcome(packet, sequence) matches Ok(modifiers) ==> {
            let count = le_at(packet, HEADER_LEN as int, 4);
            &&& Header::parsed(packet) == Some(
                Header {
                    kind: Kind::Ready,
                    payload_len: (packet.len() - HEADER_LEN) as u32,
                    sequence,
                },
            )
            &&& count <= READY_MAX_ENTRIES
            &&& forall|i: int| 0 <= i < count ==> #[trigger] entry_supported(packet, i)
            &&& modifiers.no_duplicates()
            &&& modifiers.len() <= count
            &&& forall|modifier: u64| #[trigger]
                modifiers.contains(modifier) <==> offered(packet, count).contains(modifier)
        },
{
    if ready_outcome(packet, sequence) is Ok {
        law_offers_without_repeats(offered(packet, le_at(packet, HEADER_LEN as int, 4)));
    }
}

/// A ready packet for one hello is refused as the answer to any other.
pub proof fn law_ready_answers_one_hello(packet: Seq<u8>, sequence: u32, other: u32)
    requires
        sequence != other,
        ready_outcome(packet, sequence) is Ok,
    ensures
        ready_outcome(packet, other) == Err::<Seq<u64>, BridgeError>(BridgeError::NotAcknowledged),
{
}

/// Exactly one header releases a frame: that of an empty release packet with its sequence.
pub proof fn law_release_is_exact(reply: Seq<u8>, sequence: u32)
    ensures
        release_outcome(reply, sequence) is Ok <==> reply.len() >= HEADER_LEN && reply.take(
            HEADER_LEN as int,
        ) == (Header { kind: Kind::Release, payload_len: 0, sequence }).bytes(),
{
    let release = Header { kind: Kind::Release, payload_len: 0, sequence };
    law_header_is_canonical(reply);
    if reply.len() >= HEADER_LEN && reply.take(HEADER_LEN as int) == release.bytes() {
        law_header_round_trip(release, reply.skip(HEADER_LEN as int));
        assert(release.bytes() + reply.skip(HEADER_LEN as int) =~= reply);
    }
}

/// The release of one frame does not release another.
pub proof fn law_release_frees_one_frame(reply: Seq<u8>, sequence: u32, other: u32)
    requires
        sequence != other,
        release_outcome(reply, sequence) is Ok,
    ensures
        release_outcome(reply, other) == Err::<(), BridgeError>(BridgeError::WrongRelease),
{
}

/// An offer without repetitions is kept as it stands.
pub proof fn law_distinct_offers_are_kept(offers: Seq<u64>)
    requires
        offers.no_duplicates(),
    ensures
        without_repeats(offers) == offers,
    decreases offers.len(),
{
    if offers.len() > 0 {
        let earlier = offers.drop_last();
        law_distinct_offers_are_kept(earlier);
        assert(!earlier.contains(offers.last()));
        assert(earlier.push(offers.last()) =~= offers);
    } else {
        assert(without_repeats(offers) =~= offers);
    }
}

/// Whether a packet starts with bytes that can be read as a header: the magic number, the version,
/// and the number of some kind.
pub open spec fn header_readable(packet: Seq<u8>) -> bool {
    &&& packet.len() >= 16
    &&& packet[0] == 0x52 && packet[1] == 0x46 && packet[2] == 0x42 && packet[3] == 0x31
    &&& packet[4] == 1 && packet[5] == 0
    &&& 1 <= packet[6] <= 5 && packet[7] == 0
}

/// What is read of a packet depends on whether its header is readable, and where it is, on its
/// words.
proof fn lemma_header_of(packet: Seq<u8>)
    ensures
        Header::parsed(packet) is Some <==> header_readable(packet),
        Header::parsed(packet) matches Some(header) ==> {
            &&& header.kind == Kind::Ready <==> packet[6] == 2
            &&& header.kind == Kind::Release <==> packet[6] == 4
            &&& header.payload_len == word32(packet, 8)
            &&& header.sequence == word32(packet, 12)
        },
{
    if let Some(header) = Header::parsed(packet) {
        law_header_reading(packet, header);
    }
    if header_readable(packet) {
        let header = Header {
            kind: if packet[6] == 1 {
                Kind::Hello
            } else if packet[6] == 2 {
                Kind::Ready
            } else if packet[6] == 3 {
                Kind::Frame
            } else if packet[6] == 4 {
                Kind::Release
            } else {
                Kind::Goodbye
            },
            payload_len: word32(packet, 8) as u32,
            sequence: word32(packet, 12) as u32,
        };
        assert(0 <= word32(packet, 8) < 0x1_0000_0000);
        assert(0 <= word32(packet, 12) < 0x1_0000_0000);
        law_header_reading(packet, header);
    }
}

/// Whether a readable packet acknowledges the hello `sequence`: it is a ready packet of that
/// sequence, and as long as it says.
pub open spec fn acknowledges(packet: Seq<u8>, sequence: u32) -> bool {
    packet[6] == 2 && word32(packet, 12) == sequence && packet.len() == 16 + word32(packet, 8)
}

/// Whether the count behind the header of a ready packet is at most 64 and that of its entries.
pub open spec fn counts_its_entries(packet: Seq<u8>) -> bool {
    packet.len() >= 20 && word32(packet, 16) <= 64 && packet.len() == 20 + 16 * word32(packet, 16)
}

/// Whether entry `i` of a ready packet starts with the bytes of `XR24` and four zero bytes.
pub open spec fn offers_xr24(packet: Seq<u8>, i: int) -> bool {
    &&& packet[20 + 16 * i] == 0x58
    &&& packet[21 + 16 * i] == 0x52
    &&& packet[22 + 16 * i] == 0x32
    &&& packet[23 + 16 * i] == 0x34
    &&& word32(packet, 24 + 16 * i) == 0
}

/// The words of entry `i` of a ready packet.
proof fn lemma_entry(packet: Seq<u8>, i: int)
    requires
        0 <= i,
        36 + 16 * i <= packet.len(),
    ensures
        entry_supported(packet, i) <==> offers_xr24(packet, i),
        le_at(packet, entry_at(i) + 8, 8) == word64(packet, 28 + 16 * i),
        0 <= word64(packet, 28 + 16 * i) <= u64::MAX,
{
    law_words_are_weighed_bytes(packet, 20 + 16 * i);
    law_words_are_weighed_bytes(packet, 24 + 16 * i);
    law_words_are_weighed_bytes(packet, 28 + 16 * i);
}

/// The answer to a hello is judged in this order: a packet without a readable header is invalid;
/// one of another kind, sequence or length does not acknowledge the hello; one that ends in front
/// of the count has none; one that does not hold the entries that it counts, at most 64, is
/// malformed; one with an entry of another format, or with a reserved word that is not zero, is not
/// supported. Every other packet is accepted, and offers the eight-byte modifiers of its entries,
/// in order, without their repetitions.
pub proof fn law_ready_is_judged_by_its_bytes(packet: Seq<u8>, sequence: u32)
    ensures
        ready_outcome(packet, sequence) == Err::<Seq<u64>, BridgeError>(BridgeError::InvalidReady)
            <==> !header_readable(packet),
        ready_outcome(packet, sequence) == Err::<Seq<u64>, BridgeError>(
            BridgeError::NotAcknowledged,
        ) <==> header_readable(packet) && !acknowledges(packet, sequence),
        ready_outcome(packet, sequence) == Err::<Seq<u64>, BridgeError>(
            BridgeError::NoModifierCount,
        ) <==> header_readable(packet) && acknowledges(packet, sequence) && packet.len() < 20,
        ready_outcome(packet, sequence) == Err::<Seq<u64>, BridgeError>(
            BridgeError::MalformedModifiers,
        ) <==> header_readable(packet) && acknowledges(packet, sequence) && packet.len() >= 20
            && !counts_its_entries(packet),
        ready_outcome(packet, sequence) == Err::<Seq<u64>, BridgeError>(
            BridgeError::UnsupportedFormat,
        ) <==> header_readable(packet) && acknowledges(packet, sequence) && counts_its_entries(
            packet,
        ) && exists|i: int| 0 <= i < word32(packet, 16) && !#[trigger] offers_xr24(packet, i),
        ready_outcome(packet, sequence) is Ok <==> header_readable(packet) && acknowledges(
            packet,
            sequence,
        ) && counts_its_entries(packet) && forall|i: int|
            0 <= i < word32(packet, 16) ==> #[trigger] offers_xr24(packet, i),
        ready_outcome(packet, sequence) matches Ok(modifiers) ==> modifiers == without_repeats(
            Seq::new(
                word32(packet, 16) as nat,
                |i: int| word64(packet, 28 + 16 * i) as u64,
            ),
        ),
{
    lemma_header_of(packet);
    if packet.len() >= 20 {
        law_words_are_weighed_bytes(packet, 16);
    }
    if header_readable(packet) && acknowledges(packet, sequence) && counts_its_entries(packet) {
        let count = word32(packet, 16);
        assert forall|i: int| 0 <= i < count implies (#[trigger] entry_supported(packet, i)
            <==> offers_xr24(packet, i)) by {
            lemma_entry(packet, i);
        }
        assert forall|i: int| 0 <= i < count implies (#[trigger] offers_xr24(packet, i)
            <==> entry_supported(packet, i)) by {
            lemma_entry(packet, i);
        }
        assert forall|i: int| 0 <= i < count implies #[trigger] offered(packet, count as nat)[i]
            == word64(packet, 28 + 16 * i) as u64 by {
            lemma_entry(packet, i);
        }
        assert(offered(packet, count as nat) =~= Seq::new(
            count as nat,
            |i: int| word64(packet, 28 + 16 * i) as u64,
        ));
    }
}

/// Whatever the compositor offers arrives: a ready packet for the hello, with its entry count and,
/// for each of at most 64 modifiers, `XR24`, four zero bytes and the eight bytes of the modifier,
/// is accepted, and yields exactly these modifiers without their repetitions: each of them, none
/// twice, none that was not offered, and all of them as they stand where none is repeated.
pub proof fn law_offered_modifiers_arrive(packet: Seq<u8>, sequence: u32, modifiers: Seq<u64>)
    requires
        modifiers.len() <= 64,
        packet.len() == 20 + 16 * modifiers.len(),
        packet[0] == 0x52 && packet[1] == 0x46 && packet[2] == 0x42 && packet[3] == 0x31,
        packet[4] == 1 && packet[5] == 0 && packet[6] == 2 && packet[7] == 0,
        word32(packet, 8) == 4 + 16 * modifiers.len(),
        word32(packet, 12) == sequence,
        word32(packet, 16) == modifiers.len(),
        forall|i: int| 0 <= i < modifiers.len() ==> #[trigger] offers_xr24(packet, i),
        forall|i: int|
            0 <= i < modifiers.len() ==> word64(packet, 28 + 16 * i) == #[trigger] modifiers[i],
    ensures
        ready_outcome(packet, sequence) == Ok::<Seq<u64>, BridgeError>(without_repeats(modifiers)),
        ready_outcome(packet, sequence) matches Ok(kept) ==> {
            &&& kept.no_duplicates()
            &&& forall|i: int| 0 <= i < modifiers.len() ==> kept.contains(#[trigger] modifiers[i])
            &&& forall|k: int| 0 <= k < kept.len() ==> modifiers.contains(#[trigger] kept[k])
            &&& modifiers.no_duplicates() ==> kept == modifiers
        },
{
    law_ready_is_judged_by_its_bytes(packet, sequence);
    let read = Seq::new(
        word32(packet, 16) as nat,
        |i: int| word64(packet, 28 + 16 * i) as u64,
    );
    assert forall|i: int| 0 <= i < modifiers.len() implies read[i] == #[trigger] modifiers[i] by {
        assert(word64(packet, 28 + 16 * i) == modifiers[i]);
    }
    assert(read =~= modifiers);
    law_offers_without_repeats(modifiers);
    if modifiers.no_duplicates() {
        law_distinct_offers_are_kept(modifiers);
    }
    let kept = without_repeats(modifiers);
    assert forall|i: int| 0 <= i < modifiers.len() implies kept.contains(#[trigger] modifiers[i]) by {
        assert(modifiers.contains(modifiers[i]));
    }
    assert forall|k: int| 0 <= k < kept.len() implies modifiers.contains(#[trigger] kept[k]) by {
        assert(kept.contains(kept[k]));
    }
}

/// The answer to a frame is judged by its first sixteen bytes: it releases the frame exactly where
/// they are those of an empty release packet of its sequence, is invalid exactly where they cannot
/// be read as a header, and is the wrong release otherwise.
pub proof fn law_release_is_judged_by_its_bytes(reply: Seq<u8>, sequence: u32)
    ensures
        release_outcome(reply, sequence) == Ok::<(), BridgeError>(()) <==> header_readable(reply)
            && reply[6] == 4 && word32(reply, 8) == 0 && word32(reply, 12) == sequence,
        release_outcome(reply, sequence) == Err::<(), BridgeError>(BridgeError::InvalidRelease)
            <==> !header_readable(reply),
        release_outcome(reply, sequence) == Err::<(), BridgeError>(BridgeError::WrongRelease)
            <==> header_readable(reply) && !(reply[6] == 4 && word32(reply, 8) == 0 && word32(
            reply,
            12,
        ) == sequence),
{
    lemma_header_of(reply);
}

} // verus!
