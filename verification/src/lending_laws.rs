//! What holds of export slots and publication together: how a frame leaves its slot and how the
//! slot comes back.

use vstd::multiset::Multiset;
use vstd::prelude::*;

#[allow(unused_imports)]
use crate::export_error::ExportError;
use crate::publisher::PublishedFrame;
#[allow(unused_imports)]
use crate::publisher_laws::{law_event_conserves_frames, BridgeEvent, BridgeState};
#[allow(unused_imports)]
use crate::slot::{
    ExportPhase, ExportReply, ExportView, SlotKey, SlotLease, SlotParts, SlotView, SourceImage,
};
#[allow(unused_imports)]
use crate::slot_laws::{exported, law_busy_slot_refuses, law_slot_is_lent_with_its_frame};

verus! {

/// The slot that a frame lays claim to, by the lease that it carries.
pub open spec fn claim(frame: PublishedFrame<i32, SlotLease>) -> Option<SlotKey> {
    match frame.released {
        Some(lease) => Some(lease@),
        None => None,
    }
}

/// The number of frames that lay claim to a slot.
pub open spec fn claims(frames: Multiset<PublishedFrame<i32, SlotLease>>, key: SlotKey) -> nat {
    frames.filter(|frame: PublishedFrame<i32, SlotLease>| claim(frame) == Some(key)).len()
}

/// Whether a frame lays claim to a slot.
pub open spec fn claimed(frames: Multiset<PublishedFrame<i32, SlotLease>>, key: SlotKey) -> bool {
    exists|frame: PublishedFrame<i32, SlotLease>| #[trigger]
        frames.contains(frame) && claim(frame) == Some(key)
}

/// The slots once the leases of the frames `dropped` have come back to them.
pub open spec fn given_back(
    slots: Map<SlotKey, SlotView>,
    dropped: Multiset<PublishedFrame<i32, SlotLease>>,
) -> Map<SlotKey, SlotView> {
    Map::new(
        |key: SlotKey| slots.dom().contains(key),
        |key: SlotKey|
            if claimed(dropped, key) {
                slots[key].release(key)
            } else {
                slots[key]
            },
    )
}

/// A bridge together with the slots that its frames come from.
#[verifier::ext_equal]
pub struct Lending {
    pub bridge: BridgeState<PublishedFrame<i32, SlotLease>>,
    /// The slots that are there, by their keys.
    pub slots: Map<SlotKey, SlotView>,
    /// The serial numbers that slots have been made under.
    pub used: Set<u64>,
    /// The frames that were exported and have not been handed in yet.
    pub loose: Multiset<PublishedFrame<i32, SlotLease>>,
}

/// Something that happens to the slots or to the bridge.
pub enum LendingEvent {
    /// A slot is made, of these parts.
    Create { parts: SlotParts },
    /// A slot is destroyed, whether a frame of it is out or not.
    Destroy { key: SlotKey },
    /// An export out of the slot `key` ends, once the device has answered `replies`; where it
    /// succeeds, `frame` is what was exported.
    Export {
        key: SlotKey,
        display_id: u32,
        source: SourceImage,
        queue_family: u32,
        replies: Seq<ExportReply>,
        frame: PublishedFrame<i32, SlotLease>,
    },
    /// A frame is dropped instead of being handed in.
    Drop { frame: PublishedFrame<i32, SlotLease> },
    /// Something happens to the publisher or its worker.
    Bridge { event: BridgeEvent<PublishedFrame<i32, SlotLease>> },
}

impl Lending {
    /// The start of publication over a socket, before any slot is made.
    pub open spec fn initial(socket_fd: i32) -> Lending {
        Lending {
            bridge: BridgeState::initial(socket_fd),
            slots: Map::empty(),
            used: Set::empty(),
            loose: Multiset::empty(),
        }
    }

    /// The export out of the slot `key`, once the device has answered `replies`.
    pub open spec fn export(
        self,
        key: SlotKey,
        display_id: u32,
        source: SourceImage,
        queue_family: u32,
        replies: Seq<ExportReply>,
    ) -> ExportView {
        exported(
            ExportView::begin(self.slots[key], display_id, source, queue_family),
            replies,
        )
    }

    /// The frames that are alive, wherever they are: loose, pending or in flight.
    pub open spec fn alive(self) -> Multiset<PublishedFrame<i32, SlotLease>> {
        self.loose.add(self.bridge.held())
    }

    /// Whether `event` can happen now: slots are made under serial numbers that were not used
    /// before, whatever objects the device gives to them; slots that are there are destroyed and
    /// export frames of theirs; and frames are dropped or handed in that are there.
    pub open spec fn possible(self, event: LendingEvent) -> bool {
        match event {
            LendingEvent::Create { parts } => !self.used.contains(parts.serial),
            LendingEvent::Destroy { key } => self.slots.dom().contains(key),
            LendingEvent::Export { key, display_id, source, queue_family, replies, frame } => {
                let export = self.export(key, display_id, source, queue_family, replies);
                &&& self.slots.dom().contains(key)
                &&& export.ended()
                &&& export.phase is Exported ==> export.exports(frame)
            },
            LendingEvent::Drop { frame } => self.loose.contains(frame),
            LendingEvent::Bridge { event } => {
                &&& self.bridge.possible(event)
                &&& event matches BridgeEvent::Publish { frame } ==> self.loose.contains(frame)
            },
        }
    }

    /// The state once `event` has happened. The lease of every frame that is dropped comes back to
    /// its slot.
    pub open spec fn after(self, event: LendingEvent) -> Lending {
        match event {
            LendingEvent::Create { parts } => Lending {
                slots: self.slots.insert(parts.spec_key(), SlotView::fresh(parts)),
                used: self.used.insert(parts.serial),
                ..self
            },
            LendingEvent::Destroy { key } => Lending { slots: self.slots.remove(key), ..self },
            LendingEvent::Export { key, display_id, source, queue_family, replies, frame } => {
                let export = self.export(key, display_id, source, queue_family, replies);
                Lending {
                    slots: self.slots.insert(key, export.slot),
                    loose: if export.phase is Exported {
                        self.loose.insert(frame)
                    } else {
                        self.loose
                    },
                    ..self
                }
            },
            LendingEvent::Drop { frame } => Lending {
                slots: given_back(self.slots, Multiset::singleton(frame)),
                loose: self.loose.remove(frame),
                ..self
            },
            LendingEvent::Bridge { event } => Lending {
                bridge: self.bridge.after(event),
                slots: given_back(self.slots, self.bridge.dropped(event)),
                loose: self.loose.sub(BridgeState::given(event)),
                ..self
            },
        }
    }

    /// The state once all of `events` have happened.
    pub open spec fn run(self, events: Seq<LendingEvent>) -> Lending
        decreases events.len(),
    {
        if events.len() == 0 {
            self
        } else {
            self.run(events.drop_last()).after(events.last())
        }
    }

    /// Whether `events` can happen one after the other.
    pub open spec fn trace(self, events: Seq<LendingEvent>) -> bool
        decreases events.len(),
    {
        events.len() == 0 || (self.trace(events.drop_last()) && self.run(
            events.drop_last(),
        ).possible(events.last()))
    }

    /// Every slot stands under its key, is busy exactly while one frame that is alive lays claim to
    /// it, and no second frame does.
    pub open spec fn matched(self) -> bool {
        forall|key: SlotKey| #[trigger]
            self.slots.dom().contains(key) ==> {
                &&& self.slots[key].parts.spec_key() == key
                &&& self.used.contains(key.serial)
                &&& self.slots[key].well_formed()
                &&& claims(self.alive(), key) == if self.slots[key].busy {
                    1nat
                } else {
                    0nat
                }
            }
    }

    /// Every frame that is alive lays claim to a slot that was made, whether it is still there or
    /// not.
    pub open spec fn owed(self) -> bool {
        forall|frame: PublishedFrame<i32, SlotLease>| #[trigger]
            self.alive().contains(frame) ==> {
                &&& claim(frame) matches Some(key)
                &&& self.used.contains(key.serial)
            }
    }
}

/// The claims of two groups of frames add up.
proof fn lemma_claims_add(
    a: Multiset<PublishedFrame<i32, SlotLease>>,
    b: Multiset<PublishedFrame<i32, SlotLease>>,
    key: SlotKey,
)
    ensures
        claims(a.add(b), key) == claims(a, key) + claims(b, key),
{
    let of_slot = |frame: PublishedFrame<i32, SlotLease>| claim(frame) == Some(key);
    assert(a.add(b).filter(of_slot) =~= a.filter(of_slot).add(b.filter(of_slot)));
}

/// A slot is claimed exactly where the number of claims is not zero.
proof fn lemma_claimed(frames: Multiset<PublishedFrame<i32, SlotLease>>, key: SlotKey)
    ensures
        claimed(frames, key) <==> claims(frames, key) > 0,
{
    let of_slot = |frame: PublishedFrame<i32, SlotLease>| claim(frame) == Some(key);
    let chosen = frames.filter(of_slot);
    if chosen.len() > 0 {
        let frame = chosen.choose();
        assert(chosen.count(frame) > 0);
        assert(frames.contains(frame) && claim(frame) == Some(key));
    }
    if claimed(frames, key) {
        let frame = choose|frame: PublishedFrame<i32, SlotLease>| #[trigger]
            frames.contains(frame) && claim(frame) == Some(key);
        assert(chosen.count(frame) > 0);
        assert(chosen.count(frame) <= chosen.len());
    }
}

/// One frame lays claim to the slot of its lease, and to no other.
proof fn lemma_claims_singleton(frame: PublishedFrame<i32, SlotLease>, key: SlotKey)
    ensures
        claims(Multiset::singleton(frame), key) == if claim(frame) == Some(key) {
            1nat
        } else {
            0nat
        },
{
    let of_slot = |frame: PublishedFrame<i32, SlotLease>| claim(frame) == Some(key);
    let one = Multiset::singleton(frame);
    if claim(frame) == Some(key) {
        assert(one.filter(of_slot) =~= one);
    } else {
        assert(one.filter(of_slot) =~= Multiset::empty());
    }
}

/// Frames that are dropped take their claims with them, and their slots are available again.
proof fn lemma_drop_keeps_match(
    before: Lending,
    dropped: Multiset<PublishedFrame<i32, SlotLease>>,
    after: Lending,
)
    requires
        before.matched(),
        before.owed(),
        before.alive() == dropped.add(after.alive()),
        after.slots == given_back(before.slots, dropped),
        after.used == before.used,
    ensures
        after.matched(),
        after.owed(),
{
    assert forall|key: SlotKey| #[trigger] after.slots.dom().contains(key) implies {
        &&& after.slots[key].parts.spec_key() == key
        &&& after.used.contains(key.serial)
        &&& after.slots[key].well_formed()
        &&& claims(after.alive(), key) == if after.slots[key].busy {
            1nat
        } else {
            0nat
        }
    } by {
        assert(before.slots.dom().contains(key));
        lemma_claims_add(dropped, after.alive(), key);
        lemma_claimed(dropped, key);
    }
    assert forall|frame: PublishedFrame<i32, SlotLease>| #[trigger]
        after.alive().contains(frame) implies {
        &&& claim(frame) matches Some(key)
        &&& after.used.contains(key.serial)
    } by {
        assert(before.alive().contains(frame));
    }
}

/// Whatever happens, slots and frames stay matched.
proof fn lemma_event_keeps_match(before: Lending, event: LendingEvent)
    requires
        before.matched(),
        before.owed(),
        before.possible(event),
    ensures
        before.after(event).matched(),
        before.after(event).owed(),
{
    let after = before.after(event);
    match event {
        LendingEvent::Create { parts } => {
            assert(after.alive() =~= before.alive());
            let key = parts.spec_key();
            if claimed(before.alive(), key) {
                let frame = choose|frame: PublishedFrame<i32, SlotLease>| #[trigger]
                    before.alive().contains(frame) && claim(frame) == Some(key);
                assert(before.used.contains(key.serial));
            }
            lemma_claimed(before.alive(), key);
        },
        LendingEvent::Destroy { .. } => {
            assert(after.alive() =~= before.alive());
        },
        LendingEvent::Export { key, display_id, source, queue_family, replies, frame } => {
            let slot = before.slots[key];
            let export = before.export(key, display_id, source, queue_family, replies);
            if slot.busy {
                law_busy_slot_refuses(slot, display_id, source, queue_family, replies);
            } else {
                law_slot_is_lent_with_its_frame(slot, display_id, source, queue_family, replies);
            }
            if export.phase is Exported {
                assert(after.alive() =~= before.alive().add(Multiset::singleton(frame)));
                assert forall|other: SlotKey| #[trigger] after.slots.dom().contains(other) implies {
                    &&& after.slots[other].parts.spec_key() == other
                    &&& after.used.contains(other.serial)
                    &&& after.slots[other].well_formed()
                    &&& claims(after.alive(), other) == if after.slots[other].busy {
                        1nat
                    } else {
                        0nat
                    }
                } by {
                    assert(before.slots.dom().contains(other));
                    lemma_claims_add(before.alive(), Multiset::singleton(frame), other);
                    lemma_claims_singleton(frame, other);
                }
                assert forall|other: PublishedFrame<i32, SlotLease>| #[trigger]
                    after.alive().contains(other) implies {
                    &&& claim(other) matches Some(key)
                    &&& after.used.contains(key.serial)
                } by {
                    assert(other == frame || before.alive().contains(other));
                }
            } else {
                assert(after.alive() =~= before.alive());
            }
        },
        LendingEvent::Drop { frame } => {
            let dropped = Multiset::singleton(frame);
            assert(before.alive() =~= dropped.add(after.alive()));
            lemma_drop_keeps_match(before, dropped, after);
        },
        LendingEvent::Bridge { event } => {
            let dropped = before.bridge.dropped(event);
            law_event_conserves_frames(before.bridge, event);
            let given = BridgeState::given(event);
            assert(before.loose =~= after.loose.add(given));
            assert(before.alive() =~= after.loose.add(before.bridge.held().add(given)));
            assert(before.alive() =~= dropped.add(after.alive()));
            lemma_drop_keeps_match(before, dropped, after);
        },
    }
}

/// From a bridge that holds nothing and no slots, slots and frames stay matched.
proof fn lemma_run_keeps_match(socket_fd: i32, events: Seq<LendingEvent>)
    requires
        Lending::initial(socket_fd).trace(events),
    ensures
        Lending::initial(socket_fd).run(events).matched(),
        Lending::initial(socket_fd).run(events).owed(),
    decreases events.len(),
{
    let start = Lending::initial(socket_fd);
    if events.len() == 0 {
        assert(start.alive() =~= Multiset::empty());
    } else {
        lemma_run_keeps_match(socket_fd, events.drop_last());
        lemma_event_keeps_match(start.run(events.drop_last()), events.last());
    }
}

/// A slot is busy exactly while its frame lives. Whatever order slots are made and destroyed in,
/// and exports, publication, exchanges, failures and stops happen in, a slot is busy exactly while
/// a frame that was exported out of it is alive, whether that frame has not been handed in yet, is
/// pending or is in flight; there is never a second such frame; and as soon as the frame is dropped
/// the slot is available again. The frame of a slot that was destroyed makes no other slot
/// available, even where the device gives the same objects to it.
pub proof fn law_slot_is_busy_while_its_frame_lives(
    socket_fd: i32,
    events: Seq<LendingEvent>,
    key: SlotKey,
)
    requires
        Lending::initial(socket_fd).trace(events),
        Lending::initial(socket_fd).run(events).slots.dom().contains(key),
    ensures
        ({
            let end = Lending::initial(socket_fd).run(events);
            &&& end.slots[key].parts.spec_key() == key
            &&& end.slots[key].busy <==> claimed(end.alive(), key)
            &&& claims(end.alive(), key) <= 1
            &&& end.slots[key].well_formed()
        }),
{
    let end = Lending::initial(socket_fd).run(events);
    lemma_run_keeps_match(socket_fd, events);
    lemma_claimed(end.alive(), key);
}

/// A slot is not used again before its frame has been given up: while a frame is loose, pending or
/// in flight, an export out of its slot makes no device call and is refused.
pub proof fn law_slot_is_not_reused_while_its_frame_lives(
    socket_fd: i32,
    events: Seq<LendingEvent>,
    frame: PublishedFrame<i32, SlotLease>,
    key: SlotKey,
    display_id: u32,
    source: SourceImage,
    queue_family: u32,
)
    requires
        Lending::initial(socket_fd).trace(events),
        Lending::initial(socket_fd).run(events).alive().contains(frame),
        claim(frame) == Some(key),
        Lending::initial(socket_fd).run(events).slots.dom().contains(key),
    ensures
        ({
            let end = Lending::initial(socket_fd).run(events);
            let export = ExportView::begin(end.slots[key], display_id, source, queue_family);
            &&& end.slots[key].busy
            &&& export.phase == (ExportPhase::Failed { error: ExportError::SlotBusy, close: None })
            &&& export.action() is Finish
        }),
{
    let end = Lending::initial(socket_fd).run(events);
    law_slot_is_busy_while_its_frame_lives(socket_fd, events, key);
    assert(claimed(end.alive(), key));
}

/// A dropped frame frees its slot at once, and no other: whenever the bridge drops a frame, because
/// it was replaced or refused, because its release came in, or with the connection or the
/// publisher, the slot of that frame is available, and nothing else of it has changed. A slot that
/// no dropped frame lays claim to stays as it is.
pub proof fn law_dropped_frame_frees_its_slot(
    socket_fd: i32,
    events: Seq<LendingEvent>,
    event: BridgeEvent<PublishedFrame<i32, SlotLease>>,
    key: SlotKey,
)
    requires
        Lending::initial(socket_fd).trace(events),
        Lending::initial(socket_fd).run(events).possible(LendingEvent::Bridge { event }),
        Lending::initial(socket_fd).run(events).slots.dom().contains(key),
    ensures
        ({
            let before = Lending::initial(socket_fd).run(events);
            let after = before.after(LendingEvent::Bridge { event });
            if claimed(before.bridge.dropped(event), key) {
                &&& before.slots[key].busy
                &&& after.slots[key] == (SlotView { busy: false, ..before.slots[key] })
                &&& !claimed(after.alive(), key)
            } else {
                after.slots[key] == before.slots[key]
            }
        }),
{
    let before = Lending::initial(socket_fd).run(events);
    let after = before.after(LendingEvent::Bridge { event });
    let dropped = before.bridge.dropped(event);
    lemma_run_keeps_match(socket_fd, events);
    lemma_event_keeps_match(before, LendingEvent::Bridge { event });
    law_event_conserves_frames(before.bridge, event);
    let given = BridgeState::given(event);
    assert(before.alive() =~= before.loose.sub(given).add(before.bridge.held().add(given)));
    assert(before.alive() =~= dropped.add(after.alive()));
    lemma_claims_add(dropped, after.alive(), key);
    lemma_claimed(dropped, key);
    lemma_claimed(after.alive(), key);
    assert(after.slots.dom().contains(key));
}

/// Every slot comes back: once the bridge holds nothing, as behind a stop or a disconnect, and no
/// exported frame is loose, every slot is available.
pub proof fn law_slots_come_back_with_their_frames(
    socket_fd: i32,
    events: Seq<LendingEvent>,
    key: SlotKey,
)
    requires
        Lending::initial(socket_fd).trace(events),
        Lending::initial(socket_fd).run(events).bridge.held() == Multiset::<
            PublishedFrame<i32, SlotLease>,
        >::empty(),
        Lending::initial(socket_fd).run(events).loose == Multiset::<
            PublishedFrame<i32, SlotLease>,
        >::empty(),
        Lending::initial(socket_fd).run(events).slots.dom().contains(key),
    ensures
        !Lending::initial(socket_fd).run(events).slots[key].busy,
{
    let end = Lending::initial(socket_fd).run(events);
    law_slot_is_busy_while_its_frame_lives(socket_fd, events, key);
    assert(end.alive() =~= Multiset::empty());
}

} // verus!
