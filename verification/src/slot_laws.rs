//! What holds of export slots as a whole.

use vstd::prelude::*;

#[allow(unused_imports)]
use crate::connection::ExchangeView;
#[allow(unused_imports)]
use crate::connection_laws::law_sent_packet_is_the_frame;
#[allow(unused_imports)]
use crate::export_error::ExportError;
#[allow(unused_imports)]
use crate::publisher::PublishedFrame;
#[allow(unused_imports)]
use crate::slot::{
    Barrier, ExportAction, ExportPhase, ExportReply, ExportView, Handle, ImageCopy, SlotKey,
    SlotLease, SlotParts, SlotView, SourceImage,
};
#[allow(unused_imports)]
use crate::vulkan::QUEUE_FAMILY_FOREIGN;
#[allow(unused_imports)]
use crate::wire::{Frame, Plane};
#[allow(unused_imports)]
use crate::wire_laws::{law_frame_layout, law_frame_round_trip, word16, word32, word64};

verus! {

/// The export once all of `replies` have come in.
pub open spec fn exported(export: ExportView, replies: Seq<ExportReply>) -> ExportView
    decreases replies.len(),
{
    if replies.len() == 0 {
        export
    } else {
        exported(export, replies.drop_last()).next(replies.last())
    }
}

/// The number of device calls that an export can still make.
pub open spec fn export_calls_left(phase: ExportPhase) -> nat {
    match phase {
        ExportPhase::Reset => 7,
        ExportPhase::Begin => 6,
        ExportPhase::Record => 5,
        ExportPhase::End => 4,
        ExportPhase::Submit => 3,
        ExportPhase::Memory => 2,
        ExportPhase::Fence { .. } => 1,
        _ => 0,
    }
}

/// Whether the copy of an export has been submitted: it waits for its descriptors, it has them, or
/// it failed to get one.
pub open spec fn copy_submitted(phase: ExportPhase) -> bool {
    match phase {
        ExportPhase::Memory | ExportPhase::Fence { .. } | ExportPhase::Exported { .. } => true,
        ExportPhase::Failed { error, .. } => {
            ||| error is MemoryLoaderGone
            ||| error is ExportMemory
            ||| error is SemaphoreLoaderGone
            ||| error is ExportFence
        },
        _ => false,
    }
}

/// Every answer brings an export closer to its end, the answer to another call changes nothing, and
/// an export waits for an answer exactly while it has not ended. No answer frees a slot, and only
/// the answer to the submission of a copy, where it succeeded, marks a slot as used.
pub proof fn law_export_advances(export: ExportView, reply: ExportReply)
    ensures
        if export.accepts(reply) {
            export_calls_left(export.next(reply).phase) < export_calls_left(export.phase)
        } else {
            export.next(reply) == export
        },
        export.slot.busy ==> export.next(reply).slot.busy,
        export.next(reply).slot.transitioned <==> export.slot.transitioned || {
            &&& export.phase is Submit
            &&& reply matches ExportReply::Status(status)
            &&& status is Ok
        },
        export.action() is Finish <==> export_calls_left(export.phase) == 0,
        export_calls_left(export.phase) == 0 <==> export.ended(),
{
}

/// A slot whose last frame is still in use refuses another: no device call is made, and the slot
/// stays as it is.
pub proof fn law_busy_slot_refuses(
    slot: SlotView,
    display_id: u32,
    source: SourceImage,
    queue_family: u32,
    replies: Seq<ExportReply>,
)
    requires
        slot.busy,
    ensures
        ({
            let export = ExportView::begin(slot, display_id, source, queue_family);
            &&& export.phase == (ExportPhase::Failed { error: ExportError::SlotBusy, close: None })
            &&& export.action() is Finish
            &&& exported(export, replies) == export
            &&& export.slot == slot
        }),
    decreases replies.len(),
{
    if replies.len() > 0 {
        law_busy_slot_refuses(slot, display_id, source, queue_family, replies.drop_last());
    }
}

/// Whatever the device answers, a slot that was available becomes busy exactly when its frame has
/// been exported, and by then a copy into it has been submitted. An export that is under way, or
/// that failed, leaves the slot available. A slot counts as used exactly once a copy into it has
/// been submitted: an export that failed before or at the submission does not make the next one a
/// reuse. Nothing else of the slot ever changes.
pub proof fn law_slot_is_lent_with_its_frame(
    slot: SlotView,
    display_id: u32,
    source: SourceImage,
    queue_family: u32,
    replies: Seq<ExportReply>,
)
    requires
        !slot.busy,
    ensures
        ({
            let export = exported(
                ExportView::begin(slot, display_id, source, queue_family),
                replies,
            );
            &&& export.slot.busy <==> export.phase is Exported
            &&& export.slot.transitioned <==> slot.transitioned || copy_submitted(export.phase)
            &&& export.slot.well_formed()
            &&& export == (ExportView {
                slot: SlotView {
                    parts: slot.parts,
                    busy: export.slot.busy,
                    transitioned: export.slot.transitioned,
                },
                display_id,
                source,
                queue_family,
                phase: export.phase,
            })
        }),
    decreases replies.len(),
{
    if replies.len() > 0 {
        law_slot_is_lent_with_its_frame(
            slot,
            display_id,
            source,
            queue_family,
            replies.drop_last(),
        );
    }
}

/// A frame is exported exactly when every device call succeeds, and it then carries the
/// descriptors that the last two calls returned.
pub proof fn law_export_succeeds(
    slot: SlotView,
    display_id: u32,
    source: SourceImage,
    queue_family: u32,
    reset: Result<(), i32>,
    begun: Result<(), i32>,
    ended: Result<(), i32>,
    submitted: Result<(), i32>,
    memory: Option<Result<i32, i32>>,
    fence: Option<Result<i32, i32>>,
    memory_fd: i32,
    fence_fd: i32,
)
    ensures
        ExportView::begin(slot, display_id, source, queue_family).next(
            ExportReply::Status(reset),
        ).next(ExportReply::Status(begun)).next(ExportReply::Recorded).next(
            ExportReply::Status(ended),
        ).next(ExportReply::Status(submitted)).next(ExportReply::Descriptor(memory)).next(
            ExportReply::Descriptor(fence),
        ).phase == (ExportPhase::Exported { memory_fd, fence_fd }) <==> {
            &&& !slot.busy
            &&& reset is Ok
            &&& begun is Ok
            &&& ended is Ok
            &&& submitted is Ok
            &&& memory == Some(Ok::<i32, i32>(memory_fd))
            &&& fence == Some(Ok::<i32, i32>(fence_fd))
        },
{
}

/// The descriptor of the memory that an export holds or has handed on: to the frame, or to be
/// closed.
pub open spec fn memory_descriptor(phase: ExportPhase) -> Option<i32> {
    match phase {
        ExportPhase::Fence { memory_fd } => Some(memory_fd),
        ExportPhase::Exported { memory_fd, .. } => Some(memory_fd),
        ExportPhase::Failed { close, .. } => close,
        _ => None,
    }
}

/// No descriptor is lost: once the device has exported the memory, its descriptor goes to the
/// frame, or is named to be closed where the fence cannot be exported. An export that fails before
/// that has nothing to close.
pub proof fn law_export_keeps_its_descriptor(export: ExportView, reply: ExportReply)
    ensures
        memory_descriptor(export.next(reply).phase) == match (export.phase, reply) {
            (ExportPhase::Memory, ExportReply::Descriptor(Some(Ok(memory_fd)))) => Some(memory_fd),
            _ => memory_descriptor(export.phase),
        },
{
}

/// The lease of a slot makes it available again and changes nothing else of it; no other lease
/// changes it at all, least of all that of a slot with another serial number, whatever objects the
/// device gave to the two.
pub proof fn law_release_returns_slot(slot: SlotView, key: SlotKey)
    requires
        slot.well_formed(),
    ensures
        slot.release(key).well_formed(),
        slot.release(slot.parts.spec_key()) == (SlotView { busy: false, ..slot }),
        key != slot.parts.spec_key() ==> slot.release(key) == slot,
        key.serial != slot.parts.serial ==> slot.release(key) == slot,
        slot.release(key).release(key) == slot.release(key),
{
}

/// Every copy leaves the image to the compositor: behind it the image is released to the foreign
/// queue family.
pub proof fn law_copy_releases_image(slot: SlotView, source: SourceImage, queue_family: u32)
    ensures
        ({
            let plan = slot.plan(source, queue_family);
            &&& plan.release.image == slot.parts.image
            &&& plan.release.dst_queue_family == QUEUE_FAMILY_FOREIGN
            &&& plan.release.src_queue_family == queue_family
            &&& plan.target.new_layout == plan.copy.target_layout == plan.release.old_layout
            &&& plan.source.new_layout == plan.copy.source_layout
        }),
{
}

/// The reuse of a slot takes back exactly what its last copy released: the same image, from the
/// layout and the access that it was left in, from the owner that it was left to, by the one that
/// left it.
pub proof fn law_reuse_takes_image_back(
    slot: SlotView,
    earlier: SourceImage,
    later: SourceImage,
    queue_family: u32,
)
    ensures
        ({
            let released = slot.plan(earlier, queue_family).release;
            let taken = slot.submitted().plan(later, queue_family).target;
            &&& taken.image == released.image
            &&& taken.old_layout == released.new_layout
            &&& taken.src_access == released.dst_access
            &&& taken.src_queue_family == released.dst_queue_family
            &&& taken.dst_queue_family == released.src_queue_family
        }),
{
}

/// Every frame that a slot hands out can be sent with its two descriptors, and is read back whole.
pub proof fn law_exported_frame_can_be_sent(
    parts: SlotParts,
    display_id: u32,
    fd: i32,
    sequence: u32,
    memory_fd: i32,
    fence_fd: i32,
)
    ensures
        ({
            let frame = parts.spec_frame(display_id);
            &&& ExchangeView::begin(
                fd,
                sequence,
                frame,
                seq![memory_fd],
                Some(fence_fd),
            ).phase is Send
            &&& Frame::parsed(frame.bytes()) == Some(frame)
        }),
{
    law_frame_round_trip(parts.spec_frame(display_id));
}

/// The frame that an export hands out tells what the slot is, field by field: the display of the
/// call; the extent, the modifier and the number of the slot; XR24; one plane, which lies at the
/// offset and with the stride of the slot, whatever its width; and a fence. It carries the memory
/// and the fence that the device exported, and the lease of this slot.
pub proof fn law_exported_frame_is_that_of_the_slot(
    export: ExportView,
    published: PublishedFrame<i32, SlotLease>,
)
    requires
        export.exports(published),
    ensures
        ({
            let parts = export.slot.parts;
            let frame = published.frame;
            &&& frame.display_id == export.display_id
            &&& frame.width == parts.width
            &&& frame.height == parts.height
            &&& frame.drm_format == 0x3432_5258
            &&& frame.modifier == parts.modifier
            &&& frame.plane_count == 1
            &&& frame.has_acquire_fence
            &&& frame.slot_id == parts.slot_id
            &&& frame.planes[0].offset == parts.offset
            &&& frame.planes[0].stride == parts.stride
            &&& frame.planes[1] == (Plane { offset: 0, stride: 0 })
            &&& frame.planes[2] == (Plane { offset: 0, stride: 0 })
            &&& frame.planes[3] == (Plane { offset: 0, stride: 0 })
            &&& export.phase matches ExportPhase::Exported { memory_fd, fence_fd }
            &&& published.plane_fds@.len() == 1
            &&& published.plane_fds@[0] == memory_fd
            &&& published.acquire_fence == Some(fence_fd)
            &&& published.released matches Some(lease)
            &&& lease@.serial == parts.serial
            &&& lease@.image == parts.image
        }),
{
}

/// The metadata of a frame depends on its slot and its display alone, and tells both.
pub proof fn law_frame_tells_slot_and_display(parts: SlotParts, display_id: u32)
    ensures
        ({
            let frame = parts.spec_frame(display_id);
            &&& frame.display_id == display_id
            &&& frame.width == parts.width
            &&& frame.height == parts.height
            &&& frame.drm_format == 0x3432_5258
            &&& frame.modifier == parts.modifier
            &&& frame.plane_count == 1
            &&& frame.has_acquire_fence
            &&& frame.slot_id == parts.slot_id
            &&& frame.planes[0].offset == parts.offset
            &&& frame.planes[0].stride == parts.stride
            &&& frame.planes[1] == (Plane { offset: 0, stride: 0 })
            &&& frame.planes[2] == (Plane { offset: 0, stride: 0 })
            &&& frame.planes[3] == (Plane { offset: 0, stride: 0 })
        }),
        parts.spec_key().serial == parts.serial,
        parts.spec_key().image == parts.image,
{
}

/// A slot is destroyed whole: the command pool, the semaphore, the image, and only then the memory
/// that is bound to it.
pub proof fn law_slot_is_destroyed_whole(parts: SlotParts)
    ensures
        parts.destroy_order().len() == 4,
        parts.destroy_order()[0] == Handle::CommandPool(parts.command_pool),
        parts.destroy_order()[1] == Handle::Semaphore(parts.semaphore),
        parts.destroy_order()[2] == Handle::Image(parts.image),
        parts.destroy_order()[3] == Handle::Memory(parts.memory),
{
}

/// The flags of a slot: it starts available and unused, a submitted copy marks it as used alone, an
/// exported frame as busy alone, and neither changes its parts.
pub proof fn law_slot_flags(slot: SlotView)
    ensures
        ({
            let fresh = SlotView::fresh(slot.parts);
            let submitted = slot.submitted();
            let lent = slot.lent();
            &&& !fresh.busy && !fresh.transitioned && fresh.parts == slot.parts
            &&& submitted.transitioned && submitted.busy == slot.busy
            &&& submitted.parts == slot.parts
            &&& lent.busy && lent.transitioned == slot.transitioned
            &&& lent.parts == slot.parts
        }),
{
}

/// The copy goes from the source into the slot, all of it: behind whatever last used either image,
/// the source becomes readable and the image of the slot writable, one is copied into the other in
/// the whole extent of the slot, and then the image is released to the foreign queue family to be
/// read. An image that was copied into before is taken back from there; a new one has no contents
/// to keep and no owner to take it from.
pub proof fn law_copy_plan(slot: SlotView, source: SourceImage, queue_family: u32)
    ensures
        ({
            let plan = slot.plan(source, queue_family);
            &&& plan.command_buffer == slot.parts.command_buffer
            &&& plan.acquire_src_stage == source.stage | 0x1_0000u32
            &&& plan.acquire_dst_stage == 0x1000
            &&& plan.source == (Barrier {
                src_access: source.access,
                dst_access: 0x800,
                old_layout: source.layout,
                new_layout: 6,
                src_queue_family: 0xffff_ffff,
                dst_queue_family: 0xffff_ffff,
                image: source.image,
                aspect: 1,
                level_count: 1,
                layer_count: 1,
            })
            &&& plan.target.image == slot.parts.image
            &&& plan.target.dst_access == 0x1000
            &&& plan.target.new_layout == 7
            &&& plan.target.aspect == 1
            &&& plan.target.level_count == 1
            &&& plan.target.layer_count == 1
            &&& slot.transitioned ==> {
                &&& plan.target.src_access == 0x8000
                &&& plan.target.old_layout == 1
                &&& plan.target.src_queue_family == 0xffff_fffd
                &&& plan.target.dst_queue_family == queue_family
            }
            &&& !slot.transitioned ==> {
                &&& plan.target.src_access == 0
                &&& plan.target.old_layout == 0
                &&& plan.target.src_queue_family == 0xffff_ffff
                &&& plan.target.dst_queue_family == 0xffff_ffff
            }
            &&& plan.copy == (ImageCopy {
                source: source.image,
                source_layout: 6,
                target: slot.parts.image,
                target_layout: 7,
                aspect: 1,
                layer_count: 1,
                width: slot.parts.width,
                height: slot.parts.height,
                depth: 1,
            })
            &&& plan.release_src_stage == 0x1000
            &&& plan.release_dst_stage == 0x1_0000
            &&& plan.release == (Barrier {
                src_access: 0x1000,
                dst_access: 0x8000,
                old_layout: 7,
                new_layout: 1,
                src_queue_family: queue_family,
                dst_queue_family: 0xffff_fffd,
                image: slot.parts.image,
                aspect: 1,
                level_count: 1,
                layer_count: 1,
            })
        }),
{
}

/// An export takes the answer to the call that it waits for, and no other: any other answer changes
/// nothing, and nothing is taken once it has ended. What is exported, for which display and out of
/// which slot never changes.
pub proof fn law_export_takes_only_its_answer(export: ExportView, reply: ExportReply)
    ensures
        ({
            let answers = match export.phase {
                ExportPhase::Reset => reply is Status,
                ExportPhase::Begin => reply is Status,
                ExportPhase::Record => reply is Recorded,
                ExportPhase::End => reply is Status,
                ExportPhase::Submit => reply is Status,
                ExportPhase::Memory => reply is Descriptor,
                ExportPhase::Fence { .. } => reply is Descriptor,
                ExportPhase::Exported { .. } => false,
                ExportPhase::Failed { .. } => false,
            };
            &&& export.accepts(reply) <==> answers
            &&& !answers ==> export.next(reply) == export
            &&& export.next(reply).display_id == export.display_id
            &&& export.next(reply).source == export.source
            &&& export.next(reply).queue_family == export.queue_family
            &&& export.next(reply).slot.parts == export.slot.parts
            &&& export.ended() <==> export.phase is Exported || export.phase is Failed
        }),
{
}

/// How an export that was begun on a slot ends, where `slot` is the slot that comes back.
pub open spec fn export_failed_with(
    end: ExportView,
    error: ExportError,
    close: Option<i32>,
    slot: SlotView,
) -> bool {
    end.phase == (ExportPhase::Failed { error, close }) && end.slot == slot
}

/// The device is asked one thing after the other, always about the objects of the slot, and the
/// first call that fails decides: the export ends with the error of that call and its result code.
/// Up to and with the submission of the copy a failure leaves the slot as it was; behind it the
/// slot counts as used. A slot becomes busy only where nothing fails, and the frame then has the
/// descriptors that the device exported. A busy slot is refused without any call.
pub proof fn law_export_ends_with_the_first_failure(
    slot: SlotView,
    display_id: u32,
    source: SourceImage,
    queue_family: u32,
    reset: Result<(), i32>,
    begun: Result<(), i32>,
    ended: Result<(), i32>,
    submitted: Result<(), i32>,
    memory: Option<Result<i32, i32>>,
    fence: Option<Result<i32, i32>>,
)
    ensures
        ({
            let start = ExportView::begin(slot, display_id, source, queue_family);
            let cleared = start.next(ExportReply::Status(reset));
            let opened = cleared.next(ExportReply::Status(begun));
            let recorded = opened.next(ExportReply::Recorded);
            let closed = recorded.next(ExportReply::Status(ended));
            let copied = closed.next(ExportReply::Status(submitted));
            let shared = copied.next(ExportReply::Descriptor(memory));
            let end = shared.next(ExportReply::Descriptor(fence));
            let used = SlotView { parts: slot.parts, busy: slot.busy, transitioned: true };
            let commands = slot.parts.command_buffer;
            &&& end.display_id == display_id && end.source == source
            &&& end.queue_family == queue_family
            &&& if slot.busy {
                start.action() is Finish && export_failed_with(
                    end,
                    ExportError::SlotBusy,
                    None,
                    slot,
                )
            } else {
                &&& start.action() == (ExportAction::ResetCommandBuffer {
                    command_buffer: commands,
                    flags: 0,
                })
                &&& reset matches Err(code) ==> export_failed_with(
                    end,
                    ExportError::ResetCommandBuffer(code),
                    None,
                    slot,
                )
                &&& reset is Ok ==> {
                    &&& cleared.action() == (ExportAction::BeginCommandBuffer {
                        command_buffer: commands,
                        flags: 1,
                    })
                    &&& begun matches Err(code) ==> export_failed_with(
                        end,
                        ExportError::BeginCommandBuffer(code),
                        None,
                        slot,
                    )
                    &&& begun is Ok ==> {
                        &&& opened.action() == (ExportAction::RecordCopy {
                            plan: slot.plan(source, queue_family),
                        })
                        &&& recorded.action() == (ExportAction::EndCommandBuffer {
                            command_buffer: commands,
                        })
                        &&& ended matches Err(code) ==> export_failed_with(
                            end,
                            ExportError::EndCommandBuffer(code),
                            None,
                            slot,
                        )
                        &&& ended is Ok ==> {
                            &&& closed.action() == (ExportAction::SubmitCopy {
                                command_buffer: commands,
                                semaphore: slot.parts.semaphore,
                            })
                            &&& submitted matches Err(code) ==> export_failed_with(
                                end,
                                ExportError::SubmitCopy(code),
                                None,
                                slot,
                            )
                            &&& submitted is Ok ==> {
                                &&& copied.action() == (ExportAction::ExportMemory {
                                    memory: slot.parts.memory,
                                    handle_type: 0x200,
                                })
                                &&& match memory {
                                    None => export_failed_with(
                                        end,
                                        ExportError::MemoryLoaderGone,
                                        None,
                                        used,
                                    ),
                                    Some(Err(code)) => export_failed_with(
                                        end,
                                        ExportError::ExportMemory(code),
                                        None,
                                        used,
                                    ),
                                    Some(Ok(memory_fd)) => {
                                        &&& shared.action() == (ExportAction::ExportFence {
                                            semaphore: slot.parts.semaphore,
                                            handle_type: 0x10,
                                        })
                                        &&& match fence {
                                            None => export_failed_with(
                                                end,
                                                ExportError::SemaphoreLoaderGone,
                                                Some(memory_fd),
                                                used,
                                            ),
                                            Some(Err(code)) => export_failed_with(
                                                end,
                                                ExportError::ExportFence(code),
                                                Some(memory_fd),
                                                used,
                                            ),
                                            Some(Ok(fence_fd)) => {
                                                &&& end.phase == (ExportPhase::Exported {
                                                    memory_fd,
                                                    fence_fd,
                                                })
                                                &&& end.slot == (SlotView {
                                                    parts: slot.parts,
                                                    busy: true,
                                                    transitioned: true,
                                                })
                                                &&& end.action() is Finish
                                            },
                                        }
                                    },
                                }
                            }
                        }
                    }
                }
            }
        }),
{
}

/// What the compositor reads is what the slot is: in the packet that sends a frame of a slot,
/// behind the sixteen bytes of the header, stand the display, the extent, XR24, the modifier and
/// the number of the slot, one plane with its offset and its stride, and the announcement of a
/// fence, each at its place; and the two descriptors are that of the memory and, last, that of the
/// fence.
pub proof fn law_compositor_reads_the_slot(
    parts: SlotParts,
    display_id: u32,
    fd: i32,
    sequence: u32,
    memory_fd: i32,
    fence_fd: i32,
)
    ensures
        ({
            let exchange = ExchangeView::begin(
                fd,
                sequence,
                parts.spec_frame(display_id),
                seq![memory_fd],
                Some(fence_fd),
            );
            let packet = exchange.packet;
            &&& packet.len() == 80
            &&& word32(packet, 16) == display_id
            &&& word32(packet, 20) == parts.width
            &&& word32(packet, 24) == parts.height
            &&& word32(packet, 28) == 0x3432_5258
            &&& word64(packet, 32) == parts.modifier
            &&& packet[40] == 1
            &&& packet[41] == 1
            &&& word16(packet, 42) == parts.slot_id
            &&& word32(packet, 48) == parts.offset
            &&& word32(packet, 52) == parts.stride
            &&& exchange.descriptors.len() == 2
            &&& exchange.descriptors[0] == memory_fd
            &&& exchange.descriptors[1] == fence_fd
        }),
{
    let frame = parts.spec_frame(display_id);
    let exchange = ExchangeView::begin(fd, sequence, frame, seq![memory_fd], Some(fence_fd));
    law_frame_tells_slot_and_display(parts, display_id);
    law_sent_packet_is_the_frame(fd, sequence, frame, seq![memory_fd], Some(fence_fd));
    law_frame_layout(frame);
    let bytes = frame.bytes();
    assert forall|i: int| 0 <= i < 64 implies #[trigger] exchange.packet[16 + i] == bytes[i] by {
        assert(exchange.packet.skip(16)[i] == exchange.packet[16 + i]);
    }
    assert(forall|i: int|
        0 <= i < 64 ==> #[trigger] bytes[i] == exchange.packet.skip(16)[i]);
}

} // verus!
