//! What holds of the creation of a slot as a whole.

use vstd::prelude::*;

#[allow(unused_imports)]
use crate::creation::{
    exportable, CreationAction, CreationPhase, CreationReply, CreationView, ImageRecipe,
    ImageTraits, Undo,
};
#[allow(unused_imports)]
use crate::export_error::ExportError;
#[allow(unused_imports)]
use crate::publisher::PublishedFrame;
#[allow(unused_imports)]
use crate::slot::{ExportView, Handle, SlotLease, SlotParts, SlotView};
#[allow(unused_imports)]
use crate::slot_laws::law_exported_frame_is_that_of_the_slot;

verus! {

/// The device objects that a phase has made, in the order in which they were made.
pub open spec fn live(phase: CreationPhase) -> Seq<Handle> {
    match phase {
        CreationPhase::Modifier { image } | CreationPhase::Requirements { image, .. }
        | CreationPhase::MemoryType { image, .. } | CreationPhase::Allocate {
            image,
            ..
        } => seq![Handle::Image(image)],
        CreationPhase::Bind { image, memory, .. } | CreationPhase::Layout {
            image,
            memory,
            ..
        } => seq![Handle::Image(image), Handle::Memory(memory)],
        CreationPhase::Semaphore { bound } => seq![
            Handle::Image(bound.image),
            Handle::Memory(bound.memory),
        ],
        CreationPhase::CommandPool { bound, semaphore } => seq![
            Handle::Image(bound.image),
            Handle::Memory(bound.memory),
            Handle::Semaphore(semaphore),
        ],
        CreationPhase::CommandBuffer { bound, semaphore, command_pool } | CreationPhase::Probe {
            bound,
            semaphore,
            command_pool,
            ..
        } => seq![
            Handle::Image(bound.image),
            Handle::Memory(bound.memory),
            Handle::Semaphore(semaphore),
            Handle::CommandPool(command_pool),
        ],
        CreationPhase::Created { parts, .. } => seq![
            Handle::Image(parts.image),
            Handle::Memory(parts.memory),
            Handle::Semaphore(parts.semaphore),
            Handle::CommandPool(parts.command_pool),
        ],
        _ => Seq::empty(),
    }
}

/// The creation once all of `replies` have come in.
pub open spec fn created(creation: CreationView, replies: Seq<CreationReply>) -> CreationView
    decreases replies.len(),
{
    if replies.len() == 0 {
        creation
    } else {
        created(creation, replies.drop_last()).next(replies.last())
    }
}

/// Whether a reply shows that images of the modifier in question can be exported.
pub open spec fn reply_exportable(reply: CreationReply) -> bool {
    reply matches CreationReply::Support { supported, features, handle_types } && exportable(
        supported,
        features,
        handle_types,
    )
}

/// The modifiers among the first of `offered` whose reply shows that they can be exported, in the
/// order of the offer.
pub open spec fn exportable_offers(offered: Seq<u64>, replies: Seq<CreationReply>) -> Seq<u64>
    decreases replies.len(),
{
    if replies.len() == 0 {
        Seq::empty()
    } else {
        let before = exportable_offers(offered, replies.drop_last());
        if reply_exportable(replies.last()) {
            before.push(offered[replies.len() - 1])
        } else {
            before
        }
    }
}

/// The number of device calls that a creation can still make.
pub open spec fn creation_calls_left(creation: CreationView) -> nat {
    match creation.phase {
        CreationPhase::Survey { next } => (11 + creation.offered.len() - next) as nat,
        CreationPhase::Image => 11,
        CreationPhase::Modifier { .. } => 10,
        CreationPhase::Requirements { .. } => 9,
        CreationPhase::MemoryType { .. } => 8,
        CreationPhase::Allocate { .. } => 7,
        CreationPhase::Bind { .. } => 6,
        CreationPhase::Layout { .. } => 5,
        CreationPhase::Semaphore { .. } => 4,
        CreationPhase::CommandPool { .. } => 3,
        CreationPhase::CommandBuffer { .. } => 2,
        CreationPhase::Probe { .. } => 1,
        _ => 0,
    }
}

/// Whether a survey asks about a modifier that is there, and an image is created of at least one
/// modifier, all of them offered.
pub open spec fn creation_sound(creation: CreationView) -> bool {
    &&& creation.phase matches CreationPhase::Survey { next } ==> next < creation.offered.len()
    &&& creation.phase is Image ==> creation.compatible.len() > 0
    &&& forall|modifier: u64| #[trigger]
        creation.compatible.contains(modifier) ==> creation.offered.contains(modifier)
}

/// Whatever the device answers, a creation only ever asks about modifiers that were offered, and
/// creates an image only of a choice among modifiers that were offered.
pub proof fn law_creation_stays_within_the_offer(
    serial: u64,
    width: u32,
    height: u32,
    offered: Seq<u64>,
    slot_id: u16,
    queue_family: u32,
    exports_memory: bool,
    exports_semaphores: bool,
    replies: Seq<CreationReply>,
)
    requires
        offered.len() <= usize::MAX,
    ensures
        creation_sound(
            created(
                CreationView::begin(
                    serial,
                    width,
                    height,
                    offered,
                    slot_id,
                    queue_family,
                    exports_memory,
                    exports_semaphores,
                ),
                replies,
            ),
        ),
        created(
            CreationView::begin(
                serial,
                width,
                height,
                offered,
                slot_id,
                queue_family,
                exports_memory,
                exports_semaphores,
            ),
            replies,
        ).offered == offered,
    decreases replies.len(),
{
    let start = CreationView::begin(
        serial,
        width,
        height,
        offered,
        slot_id,
        queue_family,
        exports_memory,
        exports_semaphores,
    );
    if replies.len() > 0 {
        law_creation_stays_within_the_offer(
            serial,
            width,
            height,
            offered,
            slot_id,
            queue_family,
            exports_memory,
            exports_semaphores,
            replies.drop_last(),
        );
        let before = created(start, replies.drop_last());
        let after = created(start, replies);
        assert forall|modifier: u64| #[trigger] after.compatible.contains(modifier) implies
            after.offered.contains(modifier) by {
            let k = choose|k: int| 0 <= k < after.compatible.len() && after.compatible[k]
                == modifier;
            if k < before.compatible.len() {
                assert(before.compatible.contains(modifier));
            } else {
                assert(before.phase matches CreationPhase::Survey { next } && offered[next as int]
                    == modifier);
            }
        }
    }
}

/// Every offered modifier is asked about, in the order of the offer, and exactly those that can be
/// exported are kept, in that order. The image is created where one is left; otherwise the
/// creation fails without having made anything.
pub proof fn law_survey_keeps_exportable_offers(
    serial: u64,
    width: u32,
    height: u32,
    offered: Seq<u64>,
    slot_id: u16,
    queue_family: u32,
    replies: Seq<CreationReply>,
)
    requires
        offered.len() <= usize::MAX,
        replies.len() <= offered.len(),
        forall|i: int| 0 <= i < replies.len() ==> #[trigger] replies[i] is Support,
    ensures
        ({
            let creation = created(
                CreationView::begin(serial, width, height, offered, slot_id, queue_family, true, true),
                replies,
            );
            let kept = exportable_offers(offered, replies);
            &&& creation.compatible == kept
            &&& creation.phase == if replies.len() < offered.len() {
                CreationPhase::Survey { next: replies.len() as usize }
            } else if kept.len() == 0 {
                CreationPhase::Failed {
                    error: ExportError::NoSharedModifier { offered: offered.len() as usize },
                    undo: Undo::spec_nothing(),
                }
            } else {
                CreationPhase::Image
            }
        }),
    decreases replies.len(),
{
    if replies.len() > 0 {
        let earlier = replies.drop_last();
        assert forall|i: int| 0 <= i < earlier.len() implies #[trigger] earlier[i] is Support by {
            assert(replies[i] is Support);
        }
        law_survey_keeps_exportable_offers(
            serial,
            width,
            height,
            offered,
            slot_id,
            queue_family,
            earlier,
        );
        law_creation_stays_within_the_offer(
            serial,
            width,
            height,
            offered,
            slot_id,
            queue_family,
            true,
            true,
            earlier,
        );
        assert(replies[replies.len() - 1] is Support);
    }
}

/// Where the device cannot export descriptors of memory or of semaphores, nothing is asked and
/// nothing is made.
pub proof fn law_creation_needs_both_exports(
    serial: u64,
    width: u32,
    height: u32,
    offered: Seq<u64>,
    slot_id: u16,
    queue_family: u32,
    exports_memory: bool,
    exports_semaphores: bool,
)
    requires
        !exports_memory || !exports_semaphores,
    ensures
        ({
            let creation = CreationView::begin(
                serial,
                width,
                height,
                offered,
                slot_id,
                queue_family,
                exports_memory,
                exports_semaphores,
            );
            &&& creation.action() is Finish
            &&& creation.phase == (CreationPhase::Failed {
                error: if !exports_memory {
                    ExportError::MemoryFdUnavailable
                } else {
                    ExportError::SemaphoreFdUnavailable
                },
                undo: Undo::spec_nothing(),
            })
        }),
{
}

/// Every answer brings a creation closer to its end, the answer to another call changes nothing,
/// and a creation waits for an answer exactly while it has not ended.
pub proof fn law_creation_advances(creation: CreationView, reply: CreationReply)
    requires
        creation_sound(creation),
        creation.offered.len() <= usize::MAX,
    ensures
        if creation.accepts(reply) {
            creation_calls_left(creation.next(reply)) < creation_calls_left(creation)
        } else {
            creation.next(reply) == creation
        },
        creation.action() is Finish <==> creation_calls_left(creation) == 0,
        creation_calls_left(creation) == 0 <==> creation.phase is Created
            || creation.phase is Failed,
{
}

/// A creation that fails leaves nothing behind, at whatever call it fails: it destroys everything
/// that it has made, each object once, the latest first.
pub proof fn law_failed_creation_is_undone(creation: CreationView, reply: CreationReply)
    requires
        creation.accepts(reply),
    ensures
        creation.next(reply).phase matches CreationPhase::Failed { undo, .. } ==> undo.order()
            == live(creation.phase).reverse(),
{
    if let CreationPhase::Failed { undo, .. } = creation.next(reply).phase {
        assert(undo.order() =~= live(creation.phase).reverse());
    }
}

/// The device object that `reply` hands over. A command buffer belongs to its pool, and is none of
/// its own.
pub open spec fn handed_over(creation: CreationView, reply: CreationReply) -> Seq<Handle> {
    match (creation.phase, reply) {
        (CreationPhase::Image, CreationReply::Object(Ok(image))) => seq![Handle::Image(image)],
        (CreationPhase::Allocate { .. }, CreationReply::Object(Ok(memory))) => seq![
            Handle::Memory(memory),
        ],
        (CreationPhase::Semaphore { .. }, CreationReply::Object(Ok(semaphore))) => seq![
            Handle::Semaphore(semaphore),
        ],
        (CreationPhase::CommandPool { .. }, CreationReply::Object(Ok(command_pool))) => seq![
            Handle::CommandPool(command_pool),
        ],
        _ => Seq::empty(),
    }
}

/// The device objects that all of `replies` hand over, in that order.
pub open spec fn made(creation: CreationView, replies: Seq<CreationReply>) -> Seq<Handle>
    decreases replies.len(),
{
    if replies.len() == 0 {
        Seq::empty()
    } else {
        made(creation, replies.drop_last()) + handed_over(
            created(creation, replies.drop_last()),
            replies.last(),
        )
    }
}

/// No device object is lost on the way and none is made up: a step that does not fail keeps what
/// was made, with the object behind it that the device has just handed over. A step that fails was
/// handed nothing.
pub proof fn law_creation_keeps_objects(creation: CreationView, reply: CreationReply)
    requires
        creation.accepts(reply),
    ensures
        if creation.next(reply).phase is Failed {
            handed_over(creation, reply) == Seq::<Handle>::empty()
        } else {
            live(creation.next(reply).phase) == live(creation.phase) + handed_over(creation, reply)
        },
{
    if !(creation.next(reply).phase is Failed) {
        assert(live(creation.next(reply).phase) =~= live(creation.phase) + handed_over(
            creation,
            reply,
        ));
    }
}

/// Every device object is accounted for, whatever the device answers from the first call on. While
/// the creation is under way, and once the slot is there, it holds exactly the objects that the
/// device has handed over. Once it has failed, at whatever call, exactly these are to be destroyed,
/// each of them once, the latest first.
pub proof fn law_creation_accounts_for_every_object(
    serial: u64,
    width: u32,
    height: u32,
    offered: Seq<u64>,
    slot_id: u16,
    queue_family: u32,
    exports_memory: bool,
    exports_semaphores: bool,
    replies: Seq<CreationReply>,
)
    ensures
        ({
            let start = CreationView::begin(
                serial,
                width,
                height,
                offered,
                slot_id,
                queue_family,
                exports_memory,
                exports_semaphores,
            );
            match created(start, replies).phase {
                CreationPhase::Failed { undo, .. } => undo.order() == made(
                    start,
                    replies,
                ).reverse(),
                phase => live(phase) == made(start, replies),
            }
        }),
    decreases replies.len(),
{
    let start = CreationView::begin(
        serial,
        width,
        height,
        offered,
        slot_id,
        queue_family,
        exports_memory,
        exports_semaphores,
    );
    if replies.len() == 0 {
        if let CreationPhase::Failed { undo, .. } = start.phase {
            assert(undo.order() =~= Seq::<Handle>::empty().reverse());
        }
    } else {
        let before = created(start, replies.drop_last());
        let reply = replies.last();
        law_creation_accounts_for_every_object(
            serial,
            width,
            height,
            offered,
            slot_id,
            queue_family,
            exports_memory,
            exports_semaphores,
            replies.drop_last(),
        );
        if before.accepts(reply) {
            law_creation_keeps_objects(before, reply);
            law_failed_creation_is_undone(before, reply);
        } else {
            assert(before.next_phase(reply) == before.phase);
        }
        assert(made(start, replies) =~= made(start, replies.drop_last()) + handed_over(
            before,
            reply,
        ));
        if handed_over(before, reply).len() == 0 {
            assert(made(start, replies) =~= made(start, replies.drop_last()));
        }
    }
}

/// A new slot holds what was made for it and nothing else: its objects, the extent and the numbers
/// that were asked for, and the modifier and the plane that the device reported. It is available,
/// nothing has been copied into it yet, and its destruction destroys every one of its objects once.
pub proof fn law_new_slot(creation: CreationView, reply: CreationReply)
    requires
        creation.accepts(reply),
        creation.next(reply).phase is Created,
    ensures
        ({
            let parts = creation.next(reply).phase->parts;
            &&& creation.phase matches CreationPhase::Probe { bound, command_buffer, .. }
            &&& reply == CreationReply::Descriptor(Ok(creation.next(reply).phase->probe_fd))
            &&& live(creation.next(reply).phase) == live(creation.phase)
            &&& parts.command_buffer == command_buffer
            &&& parts.modifier == bound.modifier
            &&& parts.offset == bound.offset
            &&& parts.stride == bound.stride
            &&& parts.width == creation.width
            &&& parts.height == creation.height
            &&& parts.slot_id == creation.slot_id
            &&& parts.serial == creation.serial
            &&& !SlotView::fresh(parts).busy
            &&& !SlotView::fresh(parts).transitioned
            &&& SlotView::fresh(parts).well_formed()
            &&& parts.destroy_order().to_multiset() == live(
                creation.next(reply).phase,
            ).to_multiset()
        }),
{
    broadcast use vstd::seq_lib::group_to_multiset_ensures;

    let phase = creation.next(reply).phase;
    let parts = phase->parts;
    assert(live(phase) =~= live(creation.phase));
    assert(parts.destroy_order() =~= Seq::empty().push(Handle::CommandPool(parts.command_pool)).push(
        Handle::Semaphore(parts.semaphore),
    ).push(Handle::Image(parts.image)).push(Handle::Memory(parts.memory)));
    assert(live(phase) =~= Seq::empty().push(Handle::Image(parts.image)).push(
        Handle::Memory(parts.memory),
    ).push(Handle::Semaphore(parts.semaphore)).push(Handle::CommandPool(parts.command_pool)));
    assert(parts.destroy_order().to_multiset() =~= live(phase).to_multiset());
}

/// An image can be exported exactly where the device knows its format, says of its memory that it
/// is exportable, the second lowest bit, and can hand it out as DMA-BUF, the tenth lowest.
pub proof fn law_exportable_bits(supported: bool, features: u32, handle_types: u32)
    ensures
        exportable(supported, features, handle_types) <==> supported && (features / 2) % 2 == 1 && (
        handle_types / 0x200) % 2 == 1,
{
    assert((features & 0x2 == 0x2) <==> (features / 2) % 2 == 1) by (bit_vector);
    assert((handle_types & 0x200 == 0x200) <==> (handle_types / 0x200) % 2 == 1) by (bit_vector);
}

/// The modifier that the device returned when it was asked for that of the image.
pub open spec fn answered_modifier(start: CreationView, replies: Seq<CreationReply>) -> Option<u64>
    decreases replies.len(),
{
    if replies.len() == 0 {
        None
    } else {
        match (created(start, replies.drop_last()).action(), replies.last()) {
            (
                CreationAction::QueryImageModifier { .. },
                CreationReply::Modifier(Ok(modifier)),
            ) => Some(modifier),
            _ => answered_modifier(start, replies.drop_last()),
        }
    }
}

/// The offset and the row pitch that the device returned when it was asked for the layout of the
/// image.
pub open spec fn answered_layout(start: CreationView, replies: Seq<CreationReply>) -> Option<
    (u64, u64),
>
    decreases replies.len(),
{
    if replies.len() == 0 {
        None
    } else {
        match (created(start, replies.drop_last()).action(), replies.last()) {
            (
                CreationAction::QueryLayout { .. },
                CreationReply::Layout { offset, row_pitch },
            ) => Some((offset, row_pitch)),
            _ => answered_layout(start, replies.drop_last()),
        }
    }
}

/// What a creation carries on of the modifier and the layout is what the device returned for them.
proof fn lemma_answers_are_carried_on(start: CreationView, replies: Seq<CreationReply>)
    requires
        start.phase is Survey || start.phase is Image || start.phase is Failed,
    ensures
        ({
            let modifier = answered_modifier(start, replies);
            let layout = answered_layout(start, replies);
            let end = created(start, replies);
            &&& end.width == start.width && end.height == start.height
            &&& end.slot_id == start.slot_id && end.serial == start.serial
            &&& match end.phase {
                CreationPhase::Requirements { modifier: kept, .. } => modifier == Some(kept),
                CreationPhase::MemoryType { modifier: kept, .. } => modifier == Some(kept),
                CreationPhase::Allocate { modifier: kept, .. } => modifier == Some(kept),
                CreationPhase::Bind { modifier: kept, .. } => modifier == Some(kept),
                CreationPhase::Layout { modifier: kept, .. } => modifier == Some(kept),
                CreationPhase::Semaphore { bound } => modifier == Some(bound.modifier) && layout
                    == Some((bound.offset as u64, bound.stride as u64)),
                CreationPhase::CommandPool { bound, .. } => modifier == Some(bound.modifier)
                    && layout == Some((bound.offset as u64, bound.stride as u64)),
                CreationPhase::CommandBuffer { bound, .. } => modifier == Some(bound.modifier)
                    && layout == Some((bound.offset as u64, bound.stride as u64)),
                CreationPhase::Probe { bound, .. } => modifier == Some(bound.modifier) && layout
                    == Some((bound.offset as u64, bound.stride as u64)),
                CreationPhase::Created { parts, .. } => {
                    &&& modifier == Some(parts.modifier)
                    &&& layout == Some((parts.offset as u64, parts.stride as u64))
                    &&& parts.width == start.width && parts.height == start.height
                    &&& parts.slot_id == start.slot_id && parts.serial == start.serial
                },
                _ => true,
            }
        }),
    decreases replies.len(),
{
    if replies.len() > 0 {
        lemma_answers_are_carried_on(start, replies.drop_last());
    }
}

/// A slot reports what the device chose. Over every sequence of answers that ends in a slot, its
/// modifier is the one that the device returned for the image, whatever was offered and in whatever
/// order; its offset and its stride are the offset and the row pitch that the device returned for
/// the layout; and its extent, its number and its serial number are those that were asked for.
pub proof fn law_slot_reports_the_choice_of_the_device(
    serial: u64,
    width: u32,
    height: u32,
    offered: Seq<u64>,
    slot_id: u16,
    queue_family: u32,
    exports_memory: bool,
    exports_semaphores: bool,
    replies: Seq<CreationReply>,
)
    ensures
        ({
            let start = CreationView::begin(
                serial,
                width,
                height,
                offered,
                slot_id,
                queue_family,
                exports_memory,
                exports_semaphores,
            );
            created(start, replies).phase matches CreationPhase::Created { parts, .. } ==> {
                &&& answered_modifier(start, replies) == Some(parts.modifier)
                &&& answered_layout(start, replies) == Some(
                    (parts.offset as u64, parts.stride as u64),
                )
                &&& parts.width == width
                &&& parts.height == height
                &&& parts.slot_id == slot_id
                &&& parts.serial == serial
            }
        }),
{
    let start = CreationView::begin(
        serial,
        width,
        height,
        offered,
        slot_id,
        queue_family,
        exports_memory,
        exports_semaphores,
    );
    lemma_answers_are_carried_on(start, replies);
}

/// Whether a creation has failed with this error, and is to destroy these objects in this order.
pub open spec fn failed_with(
    creation: CreationView,
    error: ExportError,
    destroyed: Seq<Handle>,
) -> bool {
    creation.phase matches CreationPhase::Failed { error: found, undo } && found == error
        && undo.order() == destroyed
}

/// What the image is made of: one plane image of the asked extent, in the tiling of modifiers, to
/// be copied into and sampled, for one queue family at a time, shared as DMA-BUF.
pub proof fn law_image_is_asked_for_as_it_is_used(creation: CreationView)
    ensures
        creation.phase is Image ==> creation.action() == (CreationAction::CreateImage {
            recipe: ImageRecipe {
                traits: ImageTraits {
                    format: 44,
                    image_type: 1,
                    tiling: 1_000_158_000,
                    usage: 0x6,
                    flags: 0,
                    sharing_mode: 0,
                    handle_types: 0x200,
                },
                width: creation.width,
                height: creation.height,
                depth: 1,
                mip_levels: 1,
                array_layers: 1,
                samples: 1,
                initial_layout: 0,
            },
        }),
        creation.phase matches CreationPhase::Survey { next } ==> creation.action() == (
        CreationAction::QueryModifier {
            modifier: creation.offered[next as int],
            traits: ImageTraits {
                format: 44,
                image_type: 1,
                tiling: 1_000_158_000,
                usage: 0x6,
                flags: 0,
                sharing_mode: 0,
                handle_types: 0x200,
            },
        }),
{
    assert(0x2u32 | 0x4u32 == 0x6u32) by (bit_vector);
}

/// From the survey on, the device is asked one thing after the other, always about what it has
/// handed over before, and the first call that fails decides: the creation ends with the error of
/// that call and its result code, and everything that was made is to be destroyed. Where the offset
/// or the row pitch does not fit 32 bits, that is the failure, the offset first. Where nothing
/// fails, the slot is made of exactly what the device has answered.
pub proof fn law_creation_ends_with_the_first_failure(
    creation: CreationView,
    image: Result<u64, i32>,
    modifier: Result<u64, i32>,
    size: u64,
    type_bits: u32,
    memory_type: Option<u32>,
    memory: Result<u64, i32>,
    bound: Result<(), i32>,
    offset: u64,
    row_pitch: u64,
    semaphore: Result<u64, i32>,
    command_pool: Result<u64, i32>,
    command_buffer: Result<u64, i32>,
    probe: Result<i32, i32>,
)
    requires
        creation.phase is Image,
    ensures
        ({
            let imaged = creation.next(CreationReply::Object(image));
            let chosen = imaged.next(CreationReply::Modifier(modifier));
            let required = chosen.next(CreationReply::Requirements { size, type_bits });
            let typed = required.next(CreationReply::MemoryType(memory_type));
            let allocated = typed.next(CreationReply::Object(memory));
            let backed = allocated.next(CreationReply::Bound(bound));
            let laid = backed.next(CreationReply::Layout { offset, row_pitch });
            let signalled = laid.next(CreationReply::Object(semaphore));
            let pooled = signalled.next(CreationReply::Object(command_pool));
            let buffered = pooled.next(CreationReply::Object(command_buffer));
            let end = buffered.next(CreationReply::Descriptor(probe));
            match image {
                Err(code) => failed_with(end, ExportError::CreateImage(code), Seq::empty()),
                Ok(image) => {
                    &&& imaged.action() == (CreationAction::QueryImageModifier { image })
                    &&& match modifier {
                        Err(code) => failed_with(
                            end,
                            ExportError::QueryModifier(code),
                            seq![Handle::Image(image)],
                        ),
                        Ok(modifier) => {
                            &&& chosen.action() == (CreationAction::QueryRequirements { image })
                            &&& required.action() == (CreationAction::FindMemoryType { type_bits })
                            &&& match memory_type {
                                None => failed_with(
                                    end,
                                    ExportError::NoMemoryType,
                                    seq![Handle::Image(image)],
                                ),
                                Some(memory_type) => {
                                    &&& typed.action() == (CreationAction::AllocateMemory {
                                        size,
                                        memory_type,
                                        handle_types: 0x200,
                                        image,
                                    })
                                    &&& memory matches Err(code) ==> failed_with(
                                        end,
                                        ExportError::AllocateMemory(code),
                                        seq![Handle::Image(image)],
                                    )
                                    &&& memory matches Ok(memory) ==> {
                                        &&& allocated.action() == (CreationAction::BindMemory {
                                            image,
                                            memory,
                                            offset: 0,
                                        })
                                        &&& bound matches Err(code) ==> failed_with(
                                            end,
                                            ExportError::BindImage(code),
                                            seq![Handle::Memory(memory), Handle::Image(image)],
                                        )
                                        &&& bound is Ok ==> backed_creation_ends(
                                            creation,
                                            backed,
                                            image,
                                            modifier,
                                            memory,
                                            offset,
                                            row_pitch,
                                            semaphore,
                                            command_pool,
                                            command_buffer,
                                            probe,
                                        )
                                    }
                                },
                            }
                        },
                    }
                },
            }
        }),
{
    let imaged = creation.next(CreationReply::Object(image));
    let chosen = imaged.next(CreationReply::Modifier(modifier));
    let required = chosen.next(CreationReply::Requirements { size, type_bits });
    let typed = required.next(CreationReply::MemoryType(memory_type));
    let allocated = typed.next(CreationReply::Object(memory));
    let backed = allocated.next(CreationReply::Bound(bound));
    let laid = backed.next(CreationReply::Layout { offset, row_pitch });
    let signalled = laid.next(CreationReply::Object(semaphore));
    let pooled = signalled.next(CreationReply::Object(command_pool));
    let buffered = pooled.next(CreationReply::Object(command_buffer));
    if let CreationPhase::Failed { undo, .. } = backed.phase {
        assert(laid == backed);
        assert(signalled == backed);
        assert(pooled == backed);
        assert(buffered == backed);
        lemma_undo_by_items(undo);
    } else {
        lemma_backed_creation_ends(
            creation,
            backed,
            image->Ok_0,
            modifier->Ok_0,
            memory->Ok_0,
            offset,
            row_pitch,
            semaphore,
            command_pool,
            command_buffer,
            probe,
        );
    }
}

/// The objects to destroy, item by item.
proof fn lemma_undo_by_items(undo: Undo)
    ensures
        undo.order().len() == 0 ==> undo.order() == Seq::<Handle>::empty(),
        undo.order().len() == 1 ==> undo.order() == seq![undo.order()[0]],
        undo.order().len() == 2 ==> undo.order() == seq![undo.order()[0], undo.order()[1]],
        undo.order().len() == 3 ==> undo.order() == seq![
            undo.order()[0],
            undo.order()[1],
            undo.order()[2],
        ],
        undo.order().len() == 4 ==> undo.order() == seq![
            undo.order()[0],
            undo.order()[1],
            undo.order()[2],
            undo.order()[3],
        ],
{
}

/// The calls behind the binding of the memory.
proof fn lemma_backed_creation_ends(
    start: CreationView,
    backed: CreationView,
    image: u64,
    modifier: u64,
    memory: u64,
    offset: u64,
    row_pitch: u64,
    semaphore: Result<u64, i32>,
    command_pool: Result<u64, i32>,
    command_buffer: Result<u64, i32>,
    probe: Result<i32, i32>,
)
    requires
        backed == (CreationView {
            phase: CreationPhase::Layout { image, modifier, memory },
            ..start
        }),
    ensures
        backed_creation_ends(
            start,
            backed,
            image,
            modifier,
            memory,
            offset,
            row_pitch,
            semaphore,
            command_pool,
            command_buffer,
            probe,
        ),
{
    let laid = backed.next(CreationReply::Layout { offset, row_pitch });
    let signalled = laid.next(CreationReply::Object(semaphore));
    let pooled = signalled.next(CreationReply::Object(command_pool));
    let buffered = pooled.next(CreationReply::Object(command_buffer));
    let end = buffered.next(CreationReply::Descriptor(probe));
    if let CreationPhase::Failed { undo, .. } = end.phase {
        lemma_undo_by_items(undo);
    }
}

/// How a creation goes on once the memory is bound to the image: as
/// [`law_creation_ends_with_the_first_failure`] has it for the calls behind.
pub open spec fn backed_creation_ends(
    start: CreationView,
    backed: CreationView,
    image: u64,
    modifier: u64,
    memory: u64,
    offset: u64,
    row_pitch: u64,
    semaphore: Result<u64, i32>,
    command_pool: Result<u64, i32>,
    command_buffer: Result<u64, i32>,
    probe: Result<i32, i32>,
) -> bool {
    let laid = backed.next(CreationReply::Layout { offset, row_pitch });
    let signalled = laid.next(CreationReply::Object(semaphore));
    let pooled = signalled.next(CreationReply::Object(command_pool));
    let buffered = pooled.next(CreationReply::Object(command_buffer));
    let end = buffered.next(CreationReply::Descriptor(probe));
    let both = seq![Handle::Memory(memory), Handle::Image(image)];
    &&& backed.action() == (CreationAction::QueryLayout { image, aspect: 0x80 })
    &&& if offset > 0xffff_ffff {
        failed_with(end, ExportError::PlaneOffset, both)
    } else if row_pitch > 0xffff_ffff {
        failed_with(end, ExportError::PlaneStride, both)
    } else {
        &&& laid.action() == (CreationAction::CreateSemaphore { handle_types: 0x10 })
        &&& match semaphore {
            Err(code) => failed_with(end, ExportError::CreateSemaphore(code), both),
            Ok(semaphore) => {
                &&& signalled.action() == (CreationAction::CreateCommandPool {
                    queue_family: start.queue_family,
                    flags: 0x2,
                })
                &&& match command_pool {
                    Err(code) => failed_with(
                        end,
                        ExportError::CreateCommandPool(code),
                        seq![
                            Handle::Semaphore(semaphore),
                            Handle::Memory(memory),
                            Handle::Image(image),
                        ],
                    ),
                    Ok(command_pool) => {
                        let all = seq![
                            Handle::CommandPool(command_pool),
                            Handle::Semaphore(semaphore),
                            Handle::Memory(memory),
                            Handle::Image(image),
                        ];
                        &&& pooled.action() == (CreationAction::AllocateCommandBuffer {
                            command_pool,
                            level: 0,
                            count: 1,
                        })
                        &&& match command_buffer {
                            Err(code) => failed_with(
                                end,
                                ExportError::AllocateCommandBuffer(code),
                                all,
                            ),
                            Ok(command_buffer) => {
                                &&& buffered.action() == (CreationAction::ExportMemory {
                                    memory,
                                    handle_type: 0x200,
                                })
                                &&& probe matches Err(code) ==> failed_with(
                                    end,
                                    ExportError::ProbeDescriptor(code),
                                    all,
                                )
                                &&& probe matches Ok(fd) ==> end.action() is Finish && end.phase
                                    == (CreationPhase::Created {
                                    parts: SlotParts {
                                        serial: start.serial,
                                        slot_id: start.slot_id,
                                        image,
                                        memory,
                                        semaphore,
                                        command_pool,
                                        command_buffer,
                                        width: start.width,
                                        height: start.height,
                                        modifier,
                                        offset: offset as u32,
                                        stride: row_pitch as u32,
                                    },
                                    probe_fd: fd,
                                })
                            },
                        }
                    },
                }
            },
        }
    }
}

/// The objects to destroy come in one order, the command pool first and the image last, each of
/// them where it is there and none that is not.
pub proof fn law_undo_order(undo: Undo)
    ensures
        ({
            let order = undo.order();
            let pools: int = if undo.command_pool is Some {
                1
            } else {
                0
            };
            let semaphores: int = if undo.semaphore is Some {
                1
            } else {
                0
            };
            let memories: int = if undo.memory is Some {
                1
            } else {
                0
            };
            let images: int = if undo.image is Some {
                1
            } else {
                0
            };
            &&& order.len() == pools + semaphores + memories + images
            &&& undo.command_pool matches Some(pool) ==> order[0] == Handle::CommandPool(pool)
            &&& undo.semaphore matches Some(semaphore) ==> order[pools] == Handle::Semaphore(
                semaphore,
            )
            &&& undo.memory matches Some(memory) ==> order[pools + semaphores] == Handle::Memory(
                memory,
            )
            &&& undo.image matches Some(image) ==> order.last() == Handle::Image(image)
        }),
{
}

/// A creation takes the answer to the call that it waits for, and no other: any other answer
/// changes nothing, and nothing is taken once it has ended.
pub proof fn law_creation_takes_only_its_answer(creation: CreationView, reply: CreationReply)
    ensures
        ({
            let answers = match creation.phase {
                CreationPhase::Survey { .. } => reply is Support,
                CreationPhase::Image => reply is Object,
                CreationPhase::Modifier { .. } => reply is Modifier,
                CreationPhase::Requirements { .. } => reply is Requirements,
                CreationPhase::MemoryType { .. } => reply is MemoryType,
                CreationPhase::Allocate { .. } => reply is Object,
                CreationPhase::Bind { .. } => reply is Bound,
                CreationPhase::Layout { .. } => reply is Layout,
                CreationPhase::Semaphore { .. } => reply is Object,
                CreationPhase::CommandPool { .. } => reply is Object,
                CreationPhase::CommandBuffer { .. } => reply is Object,
                CreationPhase::Probe { .. } => reply is Descriptor,
                CreationPhase::Created { .. } => false,
                CreationPhase::Failed { .. } => false,
            };
            &&& creation.accepts(reply) <==> answers
            &&& !answers ==> creation.next(reply) == creation
            &&& creation.next(reply).offered == creation.offered
            &&& creation.next(reply).queue_family == creation.queue_family
            &&& creation.next(reply).width == creation.width
            &&& creation.next(reply).height == creation.height
            &&& creation.next(reply).slot_id == creation.slot_id
            &&& creation.next(reply).serial == creation.serial
            &&& !(creation.phase is Survey) ==> creation.next(reply).compatible
                == creation.compatible
        }),
{
}

/// Every frame reports what the device chose: whatever slot a creation ends in, and whatever frame
/// is exported out of that slot, the frame has the modifier that the device returned for the image,
/// and its plane the offset and the row pitch that the device returned for the layout.
pub proof fn law_frame_reports_the_choice_of_the_device(
    serial: u64,
    width: u32,
    height: u32,
    offered: Seq<u64>,
    slot_id: u16,
    queue_family: u32,
    exports_memory: bool,
    exports_semaphores: bool,
    replies: Seq<CreationReply>,
    export: ExportView,
    published: PublishedFrame<i32, SlotLease>,
)
    requires
        export.exports(published),
    ensures
        ({
            let start = CreationView::begin(
                serial,
                width,
                height,
                offered,
                slot_id,
                queue_family,
                exports_memory,
                exports_semaphores,
            );
            let frame = published.frame;
            created(start, replies).phase matches CreationPhase::Created { parts, .. }
                && export.slot.parts == parts ==> {
                &&& answered_modifier(start, replies) == Some(frame.modifier)
                &&& answered_layout(start, replies) == Some(
                    (frame.planes[0].offset as u64, frame.planes[0].stride as u64),
                )
                &&& frame.width == width
                &&& frame.height == height
                &&& frame.slot_id == slot_id
                &&& frame.display_id == export.display_id
            }
        }),
{
    law_slot_reports_the_choice_of_the_device(
        serial,
        width,
        height,
        offered,
        slot_id,
        queue_family,
        exports_memory,
        exports_semaphores,
        replies,
    );
    law_exported_frame_is_that_of_the_slot(export, published);
}

} // verus!
