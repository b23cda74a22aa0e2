//! The answers of the compositor: the modifier offer behind a hello, and the release of a frame.

use vstd::prelude::*;

use crate::error::BridgeError;
use crate::le::read_le;
#[allow(unused_imports)]
use crate::le::{le_at, lemma_radix};
use crate::wire::{
    Header, Kind, DRM_FORMAT_XR24, HEADER_LEN, READY_ENTRY_LEN, READY_MAX_ENTRIES,
};

verus! {

/// Where entry `i` of a ready packet starts.
pub open spec fn entry_at(i: int) -> int {
    HEADER_LEN + 4 + READY_ENTRY_LEN * i
}

/// Whether entry `i` of a ready packet is an XR24 entry with a zero reserved word.
pub open spec fn entry_supported(packet: Seq<u8>, i: int) -> bool {
    le_at(packet, entry_at(i), 4) == DRM_FORMAT_XR24 && le_at(packet, entry_at(i) + 4, 4) == 0
}

/// The modifiers of the first `count` entries of a ready packet, as they stand.
pub open spec fn offered(packet: Seq<u8>, count: nat) -> Seq<u64> {
    Seq::new(count, |i: int| le_at(packet, entry_at(i) + 8, 8) as u64)
}

/// `offers` without the repetitions: each modifier stands where it came first.
pub open spec fn without_repeats(offers: Seq<u64>) -> Seq<u64>
    decreases offers.len(),
{
    if offers.len() == 0 {
        Seq::empty()
    } else {
        let before = without_repeats(offers.drop_last());
        if before.contains(offers.last()) {
            before
        } else {
            before.push(offers.last())
        }
    }
}

/// What the answer `packet` to the hello `sequence` comes to: the modifiers that it offers, or
/// why it is refused.
pub open spec fn ready_outcome(packet: Seq<u8>, sequence: u32) -> Result<Seq<u64>, BridgeError> {
    match Header::parsed(packet) {
        None => Err(BridgeError::InvalidReady),
        Some(header) => {
            let count = le_at(packet, HEADER_LEN as int, 4);
            if header.kind != Kind::Ready || header.sequence != sequence || packet.len()
                != HEADER_LEN + header.payload_len {
                Err(BridgeError::NotAcknowledged)
            } else if packet.len() < HEADER_LEN + 4 {
                Err(BridgeError::NoModifierCount)
            } else if count > READY_MAX_ENTRIES || packet.len() != entry_at(count as int) {
                Err(BridgeError::MalformedModifiers)
            } else if exists|i: int| 0 <= i < count && !#[trigger] entry_supported(packet, i) {
                Err(BridgeError::UnsupportedFormat)
            } else {
                Ok(without_repeats(offered(packet, count)))
            }
        },
    }
}

/// What the answer `reply` to the frame `sequence` comes to: its release, or why it is refused.
pub open spec fn release_outcome(reply: Seq<u8>, sequence: u32) -> Result<(), BridgeError> {
    match Header::parsed(reply) {
        None => Err(BridgeError::InvalidRelease),
        Some(release) => if release == (Header {
            kind: Kind::Release,
            payload_len: 0,
            sequence,
        }) {
            Ok(())
        } else {
            Err(BridgeError::WrongRelease)
        },
    }
}

/// Whether `modifier` is among `modifiers`.
fn is_listed(modifiers: &Vec<u64>, modifier: u64) -> (listed: bool)
    ensures
        listed == modifiers@.contains(modifier),
{
    let mut i: usize = 0;
    while i < modifiers.len()
        invariant
            i <= modifiers.len(),
            forall|j: int| 0 <= j < i ==> modifiers@[j] != modifier,
        decreases modifiers.len() - i,
    {
        if modifiers[i] == modifier {
            return true;
        }
        i = i + 1;
    }
    false
}

/// Reads the `count` entries of a ready packet: their modifiers without the repetitions, or `None`
/// where an entry is not supported.
fn read_offers(packet: &[u8], count: usize) -> (offers: Option<Vec<u64>>)
    requires
        count <= READY_MAX_ENTRIES,
        packet@.len() == entry_at(count as int),
    ensures
        match offers {
            Some(modifiers) => {
                &&& forall|i: int| 0 <= i < count ==> #[trigger] entry_supported(packet@, i)
                &&& modifiers@ == without_repeats(offered(packet@, count as nat))
            },
            None => exists|i: int| 0 <= i < count && !#[trigger] entry_supported(packet@, i),
        },
{
    let mut modifiers: Vec<u64> = Vec::new();
    let mut i: usize = 0;
    let ghost offers = offered(packet@, count as nat);
    assert(offers.take(0) =~= Seq::<u64>::empty());
    while i < count
        invariant
            i <= count <= READY_MAX_ENTRIES,
            packet@.len() == entry_at(count as int),
            offers == offered(packet@, count as nat),
            modifiers@ == without_repeats(offers.take(i as int)),
            forall|j: int| 0 <= j < i ==> #[trigger] entry_supported(packet@, j),
        decreases count - i,
    {
        proof {
            lemma_radix();
            assert(entry_at(i as int) + 16 <= packet@.len());
        }
        let at: usize = HEADER_LEN + 4 + i * READY_ENTRY_LEN;
        let format: u64 = read_le(packet, at, 4);
        let reserved: u64 = read_le(packet, at + 4, 4);
        let modifier: u64 = read_le(packet, at + 8, 8);
        if format != DRM_FORMAT_XR24 as u64 || reserved != 0 {
            assert(!entry_supported(packet@, i as int));
            return None;
        }
        proof {
            let longer = offers.take(i + 1);
            assert(longer.drop_last() =~= offers.take(i as int));
            assert(longer.last() == modifier);
        }
        if !is_listed(&modifiers, modifier) {
            modifiers.push(modifier);
        }
        i = i + 1;
    }
    assert(offers.take(count as int) =~= offers);
    Some(modifiers)
}

/// Reads the answer `packet` to the hello `sequence`: the modifiers that it offers, each once and
/// in the order in which they came first.
pub fn accept_ready(packet: &[u8], sequence: u32) -> (outcome: Result<Vec<u64>, BridgeError>)
    ensures
        match outcome {
            Ok(modifiers) => ready_outcome(packet@, sequence) == Ok::<Seq<u64>, BridgeError>(
                modifiers@,
            ),
            Err(error) => ready_outcome(packet@, sequence) == Err::<Seq<u64>, BridgeError>(error),
        },
{
    let header = match Header::decode(packet) {
        None => {
            return Err(BridgeError::InvalidReady);
        },
        Some(header) => header,
    };
    if header.kind != Kind::Ready || header.sequence != sequence || packet.len() as u64
        != HEADER_LEN as u64 + header.payload_len as u64 {
        return Err(BridgeError::NotAcknowledged);
    }
    if packet.len() < HEADER_LEN + 4 {
        return Err(BridgeError::NoModifierCount);
    }
    proof {
        lemma_radix();
    }
    let count: u64 = read_le(packet, HEADER_LEN, 4);
    if count > READY_MAX_ENTRIES as u64 || packet.len() as u64 != HEADER_LEN as u64 + 4 + count
        * READY_ENTRY_LEN as u64 {
        return Err(BridgeError::MalformedModifiers);
    }
    match read_offers(packet, count as usize) {
        Some(modifiers) => Ok(modifiers),
        None => Err(BridgeError::UnsupportedFormat),
    }
}

/// Reads the answer `reply` to the frame `sequence`.
pub fn accept_release(reply: &[u8], sequence: u32) -> (outcome: Result<(), BridgeError>)
    ensures
        outcome == release_outcome(reply@, sequence),
{
    let release = match Header::decode(reply) {
        None => {
            return Err(BridgeError::InvalidRelease);
        },
        Some(release) => release,
    };
    if release.kind != Kind::Release || release.payload_len != 0 || release.sequence != sequence {
        return Err(BridgeError::WrongRelease);
    }
    Ok(())
}

} // verus!
