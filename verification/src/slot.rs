//! Export slots: images that are copied into and lent to the compositor.
//!
//! A [`FrameExport`] takes one frame through the copy and the export of its descriptors. It holds
//! the slot meanwhile, names the next device call and takes what the call returned. A frame that
//! was exported carries a [`SlotLease`], and its slot is available again only once that has come
//! back.

use vstd::prelude::*;

use crate::export_error::ExportError;
use crate::publisher::PublishedFrame;
use crate::vulkan::{
    stage_union, ACCESS_MEMORY_READ, ACCESS_NONE, ACCESS_TRANSFER_READ, ACCESS_TRANSFER_WRITE,
    COMMAND_BUFFER_ONE_TIME_SUBMIT, COMMAND_BUFFER_RESET_NONE, IMAGE_ASPECT_COLOR,
    IMAGE_LAYOUT_GENERAL, IMAGE_LAYOUT_TRANSFER_DST, IMAGE_LAYOUT_TRANSFER_SRC,
    IMAGE_LAYOUT_UNDEFINED, MEMORY_HANDLE_DMA_BUF, QUEUE_FAMILY_FOREIGN, QUEUE_FAMILY_IGNORED,
    SEMAPHORE_HANDLE_SYNC_FD, STAGE_ALL_COMMANDS, STAGE_TRANSFER,
};
use crate::wire::{Frame, Plane, DRM_FORMAT_XR24};

verus! {

/// A device object that has to be destroyed.
#[derive(Clone, Copy, Debug, PartialEq, Eq, Structural)]
pub enum Handle {
    Image(u64),
    Memory(u64),
    Semaphore(u64),
    CommandPool(u64),
}

/// What tells a slot apart from every other: its serial number, and with it its image.
#[derive(Clone, Copy, Debug, PartialEq, Eq, Structural)]
pub struct SlotKey {
    pub serial: u64,
    pub image: u64,
}

/// The device objects of a slot, and where the plane of its image lies.
#[derive(Clone, Copy, Debug, PartialEq, Eq, Structural)]
pub struct SlotParts {
    /// The serial number, which no other slot has.
    pub serial: u64,
    /// The number of the slot on its display.
    pub slot_id: u16,
    pub image: u64,
    pub memory: u64,
    pub semaphore: u64,
    pub command_pool: u64,
    pub command_buffer: u64,
    pub width: u32,
    pub height: u32,
    pub modifier: u64,
    pub offset: u32,
    pub stride: u32,
}

/// The model of a slot.
pub struct SlotView {
    pub parts: SlotParts,
    /// Whether somebody still uses the last frame of the slot.
    pub busy: bool,
    /// Whether a copy into the image has been submitted.
    pub transitioned: bool,
}

/// An image that can be lent to the compositor, with the device objects that belong to it. It is
/// lent only once a copy into it has been submitted.
pub struct ExportSlot {
    parts: SlotParts,
    busy: bool,
    transitioned: bool,
}

impl View for ExportSlot {
    type V = SlotView;

    closed spec fn view(&self) -> SlotView {
        SlotView { parts: self.parts, busy: self.busy, transitioned: self.transitioned }
    }
}

/// The claim of a frame on its slot. Every frame that is exported carries one, and only this one
/// makes the slot available again: it names the slot by its key, which holds a serial number that
/// is handed out once.
#[derive(Debug, PartialEq, Eq)]
pub struct SlotLease {
    key: SlotKey,
}

impl View for SlotLease {
    type V = SlotKey;

    closed spec fn view(&self) -> SlotKey {
        self.key
    }
}

/// The image that a frame is copied from, and how it was last used.
#[derive(Clone, Copy, Debug, PartialEq, Eq, Structural)]
pub struct SourceImage {
    pub image: u64,
    pub stage: u32,
    pub access: u32,
    pub layout: i32,
}

/// A change of layout, and where the queue families differ of owner, of one color image.
#[derive(Clone, Copy, Debug, PartialEq, Eq, Structural)]
pub struct Barrier {
    pub src_access: u32,
    pub dst_access: u32,
    pub old_layout: i32,
    pub new_layout: i32,
    pub src_queue_family: u32,
    pub dst_queue_family: u32,
    pub image: u64,
    pub aspect: u32,
    pub level_count: u32,
    pub layer_count: u32,
}

/// The copy of one image into another of the same extent.
#[derive(Clone, Copy, Debug, PartialEq, Eq, Structural)]
pub struct ImageCopy {
    pub source: u64,
    pub source_layout: i32,
    pub target: u64,
    pub target_layout: i32,
    pub aspect: u32,
    pub layer_count: u32,
    pub width: u32,
    pub height: u32,
    pub depth: u32,
}

/// The commands of one frame: two barriers together, the copy, and one barrier behind it.
#[derive(Clone, Copy, Debug, PartialEq, Eq, Structural)]
pub struct CopyPlan {
    pub command_buffer: u64,
    pub acquire_src_stage: u32,
    pub acquire_dst_stage: u32,
    pub source: Barrier,
    pub target: Barrier,
    pub copy: ImageCopy,
    pub release_src_stage: u32,
    pub release_dst_stage: u32,
    pub release: Barrier,
}

/// Where the export of a frame stands: what it does next, or how it ended.
#[derive(Clone, Copy, Debug, PartialEq, Eq, Structural)]
pub enum ExportPhase {
    /// Reset the command buffer.
    Reset,
    /// Begin to record.
    Begin,
    /// Record the copy.
    Record,
    /// End the recording.
    End,
    /// Submit the copy.
    Submit,
    /// Export the memory of the image.
    Memory,
    /// Export the semaphore that the copy signals.
    Fence { memory_fd: i32 },
    /// The frame can go to the compositor.
    Exported { memory_fd: i32, fence_fd: i32 },
    /// The export failed, and the descriptor `close` has to be closed.
    Failed { error: ExportError, close: Option<i32> },
}

/// What a device call of an export returned. A failure carries the result code of the call.
#[derive(Clone, Copy, Debug, PartialEq, Eq)]
pub enum ExportReply {
    /// The status of a call that returns nothing else.
    Status(Result<(), i32>),
    /// The commands have been recorded.
    Recorded,
    /// The exported descriptor, `None` where there is nothing to export with.
    Descriptor(Option<Result<i32, i32>>),
}

/// The next device call of an export.
#[derive(Clone, Copy, Debug, PartialEq, Eq, Structural)]
pub enum ExportAction {
    ResetCommandBuffer { command_buffer: u64, flags: u32 },
    BeginCommandBuffer { command_buffer: u64, flags: u32 },
    RecordCopy { plan: CopyPlan },
    EndCommandBuffer { command_buffer: u64 },
    /// Submit the commands, and signal the semaphore once they are done.
    SubmitCopy { command_buffer: u64, semaphore: u64 },
    ExportMemory { memory: u64, handle_type: u32 },
    ExportFence { semaphore: u64, handle_type: u32 },
    /// Nothing is left to do.
    Finish,
}

impl SlotParts {
    /// What tells the slot apart from every other.
    pub open spec fn spec_key(self) -> SlotKey {
        SlotKey { serial: self.serial, image: self.image }
    }

    /// What tells the slot apart from every other.
    fn key(&self) -> (key: SlotKey)
        ensures
            key == self.spec_key(),
    {
        SlotKey { serial: self.serial, image: self.image }
    }

    /// The device objects of the slot, in the order in which they are destroyed.
    pub open spec fn destroy_order(self) -> Seq<Handle> {
        seq![
            Handle::CommandPool(self.command_pool),
            Handle::Semaphore(self.semaphore),
            Handle::Image(self.image),
            Handle::Memory(self.memory),
        ]
    }

    /// The metadata of a frame of the slot on a display.
    pub open spec fn spec_frame(self, display_id: u32) -> Frame {
        Frame {
            display_id,
            width: self.width,
            height: self.height,
            drm_format: DRM_FORMAT_XR24,
            modifier: self.modifier,
            plane_count: 1,
            has_acquire_fence: true,
            slot_id: self.slot_id,
            planes: [
                Plane { offset: self.offset, stride: self.stride },
                Plane { offset: 0, stride: 0 },
                Plane { offset: 0, stride: 0 },
                Plane { offset: 0, stride: 0 },
            ],
        }
    }

    /// The metadata of a frame of the slot on a display.
    fn frame(&self, display_id: u32) -> (frame: Frame)
        ensures
            frame == self.spec_frame(display_id),
    {
        let planes: [Plane; 4] = [
            Plane { offset: self.offset, stride: self.stride },
            Plane { offset: 0, stride: 0 },
            Plane { offset: 0, stride: 0 },
            Plane { offset: 0, stride: 0 },
        ];
        assert(planes =~= self.spec_frame(display_id).planes);
        Frame {
            display_id,
            width: self.width,
            height: self.height,
            drm_format: DRM_FORMAT_XR24,
            modifier: self.modifier,
            plane_count: 1,
            has_acquire_fence: true,
            slot_id: self.slot_id,
            planes,
        }
    }
}

impl SlotView {
    /// A slot that was just made.
    pub open spec fn fresh(parts: SlotParts) -> SlotView {
        SlotView { parts, busy: false, transitioned: false }
    }

    /// A frame of the slot is out only once a copy into it has been submitted.
    pub open spec fn well_formed(self) -> bool {
        self.busy ==> self.transitioned
    }

    /// The slot once a copy into it has been submitted.
    pub open spec fn submitted(self) -> SlotView {
        SlotView { transitioned: true, ..self }
    }

    /// The slot once a frame of it has been handed out.
    pub open spec fn lent(self) -> SlotView {
        SlotView { busy: true, ..self }
    }

    /// The slot once the lease of the slot `key` has come back: available, where it is its own.
    pub open spec fn release(self, key: SlotKey) -> SlotView {
        if key == self.parts.spec_key() {
            SlotView { busy: false, ..self }
        } else {
            self
        }
    }

    /// The commands that copy `source` into the slot on the queue family `queue_family`. The
    /// image is taken back from the compositor where it has been lent before, and released to it
    /// behind the copy.
    pub open spec fn plan(self, source: SourceImage, queue_family: u32) -> CopyPlan {
        CopyPlan {
            command_buffer: self.parts.command_buffer,
            acquire_src_stage: source.stage | STAGE_ALL_COMMANDS,
            acquire_dst_stage: STAGE_TRANSFER,
            source: Barrier {
                src_access: source.access,
                dst_access: ACCESS_TRANSFER_READ,
                old_layout: source.layout,
                new_layout: IMAGE_LAYOUT_TRANSFER_SRC,
                src_queue_family: QUEUE_FAMILY_IGNORED,
                dst_queue_family: QUEUE_FAMILY_IGNORED,
                image: source.image,
                aspect: IMAGE_ASPECT_COLOR,
                level_count: 1,
                layer_count: 1,
            },
            target: Barrier {
                src_access: if self.transitioned {
                    ACCESS_MEMORY_READ
                } else {
                    ACCESS_NONE
                },
                dst_access: ACCESS_TRANSFER_WRITE,
                old_layout: if self.transitioned {
                    IMAGE_LAYOUT_GENERAL
                } else {
                    IMAGE_LAYOUT_UNDEFINED
                },
                new_layout: IMAGE_LAYOUT_TRANSFER_DST,
                src_queue_family: if self.transitioned {
                    QUEUE_FAMILY_FOREIGN
                } else {
                    QUEUE_FAMILY_IGNORED
                },
                dst_queue_family: if self.transitioned {
                    queue_family
                } else {
                    QUEUE_FAMILY_IGNORED
                },
                image: self.parts.image,
                aspect: IMAGE_ASPECT_COLOR,
                level_count: 1,
                layer_count: 1,
            },
            copy: ImageCopy {
                source: source.image,
                source_layout: IMAGE_LAYOUT_TRANSFER_SRC,
                target: self.parts.image,
                target_layout: IMAGE_LAYOUT_TRANSFER_DST,
                aspect: IMAGE_ASPECT_COLOR,
                layer_count: 1,
                width: self.parts.width,
                height: self.parts.height,
                depth: 1,
            },
            release_src_stage: STAGE_TRANSFER,
            release_dst_stage: STAGE_ALL_COMMANDS,
            release: Barrier {
                src_access: ACCESS_TRANSFER_WRITE,
                dst_access: ACCESS_MEMORY_READ,
                old_layout: IMAGE_LAYOUT_TRANSFER_DST,
                new_layout: IMAGE_LAYOUT_GENERAL,
                src_queue_family: queue_family,
                dst_queue_family: QUEUE_FAMILY_FOREIGN,
                image: self.parts.image,
                aspect: IMAGE_ASPECT_COLOR,
                level_count: 1,
                layer_count: 1,
            },
        }
    }
}

impl ExportSlot {
    #[verifier::type_invariant]
    closed spec fn well_formed(self) -> bool {
        self.busy ==> self.transitioned
    }

    /// A slot of these parts that was just made.
    pub(crate) fn fresh(parts: SlotParts) -> (slot: ExportSlot)
        ensures
            slot@ == SlotView::fresh(parts),
    {
        ExportSlot { parts, busy: false, transitioned: false }
    }

    /// The device objects of the slot, and where the plane of its image lies.
    pub fn parts(&self) -> (parts: SlotParts)
        ensures
            parts == self@.parts,
    {
        self.parts
    }

    /// Whether the slot can take a frame.
    pub fn available(&self) -> (available: bool)
        ensures
            available == !self@.busy,
    {
        !self.busy
    }

    /// Takes the slot back once nobody uses its frame any more. The lease of another slot is
    /// returned, and changes nothing.
    pub fn release(&mut self, lease: SlotLease) -> (foreign: Option<SlotLease>)
        ensures
            final(self)@ == old(self)@.release(lease@),
            foreign == if lease@ == old(self)@.parts.spec_key() {
                None
            } else {
                Some(lease)
            },
    {
        if lease.key == self.parts.key() {
            self.busy = false;
            None
        } else {
            Some(lease)
        }
    }

    /// The device objects of the slot, in the order in which they are to be destroyed.
    pub fn destroy(self) -> (handles: Vec<Handle>)
        ensures
            handles@ == self@.parts.destroy_order(),
    {
        vec![
            Handle::CommandPool(self.parts.command_pool),
            Handle::Semaphore(self.parts.semaphore),
            Handle::Image(self.parts.image),
            Handle::Memory(self.parts.memory),
        ]
    }

    /// Begins to export a frame: a copy of `source`, for a display, on the queue family
    /// `queue_family`. The export holds the slot until it has ended.
    pub fn publish(self, display_id: u32, source: SourceImage, queue_family: u32) -> (export:
        FrameExport)
        ensures
            export@ == ExportView::begin(self@, display_id, source, queue_family),
    {
        proof {
            use_type_invariant(&self);
        }
        let phase = if self.available() {
            ExportPhase::Reset
        } else {
            ExportPhase::Failed { error: ExportError::SlotBusy, close: None }
        };
        FrameExport {
            parts: self.parts,
            busy: self.busy,
            transitioned: self.transitioned,
            display_id,
            source,
            queue_family,
            phase,
        }
    }
}

/// How an export ended.
pub struct ExportEnd {
    /// The slot that the export held.
    pub slot: ExportSlot,
    /// The frame, with the lease of the slot.
    pub outcome: Result<PublishedFrame<i32, SlotLease>, ExportError>,
    /// The descriptor to close, where the export failed once it had one.
    pub close: Option<i32>,
}

/// The model of an export.
pub struct ExportView {
    pub slot: SlotView,
    pub display_id: u32,
    pub source: SourceImage,
    pub queue_family: u32,
    pub phase: ExportPhase,
}

impl ExportView {
    /// The export of a frame out of `slot`, refused where the compositor still owns the last one.
    pub open spec fn begin(
        slot: SlotView,
        display_id: u32,
        source: SourceImage,
        queue_family: u32,
    ) -> ExportView {
        ExportView {
            slot,
            display_id,
            source,
            queue_family,
            phase: if slot.busy {
                ExportPhase::Failed { error: ExportError::SlotBusy, close: None }
            } else {
                ExportPhase::Reset
            },
        }
    }

    /// Whether `reply` answers the call that the export waits for.
    pub open spec fn accepts(self, reply: ExportReply) -> bool {
        match self.phase {
            ExportPhase::Reset | ExportPhase::Begin | ExportPhase::End
            | ExportPhase::Submit => reply is Status,
            ExportPhase::Record => reply is Recorded,
            ExportPhase::Memory | ExportPhase::Fence { .. } => reply is Descriptor,
            _ => false,
        }
    }

    /// The phase once `reply` has come in.
    pub open spec fn next_phase(self, reply: ExportReply) -> ExportPhase {
        match (self.phase, reply) {
            (ExportPhase::Reset, ExportReply::Status(status)) => match status {
                Ok(()) => ExportPhase::Begin,
                Err(code) => ExportPhase::Failed {
                    error: ExportError::ResetCommandBuffer(code),
                    close: None,
                },
            },
            (ExportPhase::Begin, ExportReply::Status(status)) => match status {
                Ok(()) => ExportPhase::Record,
                Err(code) => ExportPhase::Failed {
                    error: ExportError::BeginCommandBuffer(code),
                    close: None,
                },
            },
            (ExportPhase::Record, ExportReply::Recorded) => ExportPhase::End,
            (ExportPhase::End, ExportReply::Status(status)) => match status {
                Ok(()) => ExportPhase::Submit,
                Err(code) => ExportPhase::Failed {
                    error: ExportError::EndCommandBuffer(code),
                    close: None,
                },
            },
            (ExportPhase::Submit, ExportReply::Status(status)) => match status {
                Ok(()) => ExportPhase::Memory,
                Err(code) => ExportPhase::Failed {
                    error: ExportError::SubmitCopy(code),
                    close: None,
                },
            },
            (ExportPhase::Memory, ExportReply::Descriptor(descriptor)) => match descriptor {
                Some(Ok(memory_fd)) => ExportPhase::Fence { memory_fd },
                Some(Err(code)) => ExportPhase::Failed {
                    error: ExportError::ExportMemory(code),
                    close: None,
                },
                None => ExportPhase::Failed {
                    error: ExportError::MemoryLoaderGone,
                    close: None,
                },
            },
            (
                ExportPhase::Fence { memory_fd },
                ExportReply::Descriptor(descriptor),
            ) => match descriptor {
                Some(Ok(fence_fd)) => ExportPhase::Exported { memory_fd, fence_fd },
                Some(Err(code)) => ExportPhase::Failed {
                    error: ExportError::ExportFence(code),
                    close: Some(memory_fd),
                },
                None => ExportPhase::Failed {
                    error: ExportError::SemaphoreLoaderGone,
                    close: Some(memory_fd),
                },
            },
            (phase, _) => phase,
        }
    }

    /// The slot once `reply` has come in: a submitted copy marks it as used, and an exported frame
    /// marks it as lent.
    pub open spec fn next_slot(self, reply: ExportReply) -> SlotView {
        if self.phase is Submit && self.next_phase(reply) is Memory {
            self.slot.submitted()
        } else if self.phase is Fence && self.next_phase(reply) is Exported {
            self.slot.lent()
        } else {
            self.slot
        }
    }

    /// The export once `reply` has come in.
    pub open spec fn next(self, reply: ExportReply) -> ExportView {
        ExportView { slot: self.next_slot(reply), phase: self.next_phase(reply), ..self }
    }

    /// Whether `published` is the frame that was exported: the metadata of the slot, one descriptor
    /// of its memory, the fence, and the lease of the slot.
    pub open spec fn exports(self, published: PublishedFrame<i32, SlotLease>) -> bool {
        &&& self.phase matches ExportPhase::Exported { memory_fd, fence_fd }
        &&& published.frame == self.slot.parts.spec_frame(self.display_id)
        &&& published.plane_fds@ == seq![memory_fd]
        &&& published.acquire_fence == Some(fence_fd)
        &&& published.released matches Some(lease)
        &&& lease@ == self.slot.parts.spec_key()
    }

    /// Whether the export has ended.
    pub open spec fn ended(self) -> bool {
        self.phase is Exported || self.phase is Failed
    }

    /// The next device call.
    pub open spec fn action(self) -> ExportAction {
        match self.phase {
            ExportPhase::Reset => ExportAction::ResetCommandBuffer {
                command_buffer: self.slot.parts.command_buffer,
                flags: COMMAND_BUFFER_RESET_NONE,
            },
            ExportPhase::Begin => ExportAction::BeginCommandBuffer {
                command_buffer: self.slot.parts.command_buffer,
                flags: COMMAND_BUFFER_ONE_TIME_SUBMIT,
            },
            ExportPhase::Record => ExportAction::RecordCopy {
                plan: self.slot.plan(self.source, self.queue_family),
            },
            ExportPhase::End => ExportAction::EndCommandBuffer {
                command_buffer: self.slot.parts.command_buffer,
            },
            ExportPhase::Submit => ExportAction::SubmitCopy {
                command_buffer: self.slot.parts.command_buffer,
                semaphore: self.slot.parts.semaphore,
            },
            ExportPhase::Memory => ExportAction::ExportMemory {
                memory: self.slot.parts.memory,
                handle_type: MEMORY_HANDLE_DMA_BUF,
            },
            ExportPhase::Fence { .. } => ExportAction::ExportFence {
                semaphore: self.slot.parts.semaphore,
                handle_type: SEMAPHORE_HANDLE_SYNC_FD,
            },
            _ => ExportAction::Finish,
        }
    }
}

/// The export of one frame out of a slot, which it holds meanwhile.
pub struct FrameExport {
    parts: SlotParts,
    busy: bool,
    transitioned: bool,
    display_id: u32,
    source: SourceImage,
    queue_family: u32,
    phase: ExportPhase,
}

impl View for FrameExport {
    type V = ExportView;

    closed spec fn view(&self) -> ExportView {
        ExportView {
            slot: SlotView {
                parts: self.parts,
                busy: self.busy,
                transitioned: self.transitioned,
            },
            display_id: self.display_id,
            source: self.source,
            queue_family: self.queue_family,
            phase: self.phase,
        }
    }
}

impl FrameExport {
    #[verifier::type_invariant]
    closed spec fn well_formed(self) -> bool {
        &&& self.busy ==> self.transitioned
        &&& self.phase is Memory || self.phase is Fence ==> self.transitioned
    }

    /// Where the export stands.
    pub fn phase(&self) -> (phase: ExportPhase)
        ensures
            phase == self@.phase,
    {
        self.phase
    }

    /// The commands that copy the source into the slot.
    fn plan(&self) -> (plan: CopyPlan)
        ensures
            plan == self@.slot.plan(self@.source, self@.queue_family),
    {
        CopyPlan {
            command_buffer: self.parts.command_buffer,
            acquire_src_stage: stage_union(self.source.stage, STAGE_ALL_COMMANDS),
            acquire_dst_stage: STAGE_TRANSFER,
            source: Barrier {
                src_access: self.source.access,
                dst_access: ACCESS_TRANSFER_READ,
                old_layout: self.source.layout,
                new_layout: IMAGE_LAYOUT_TRANSFER_SRC,
                src_queue_family: QUEUE_FAMILY_IGNORED,
                dst_queue_family: QUEUE_FAMILY_IGNORED,
                image: self.source.image,
                aspect: IMAGE_ASPECT_COLOR,
                level_count: 1,
                layer_count: 1,
            },
            target: Barrier {
                src_access: if self.transitioned {
                    ACCESS_MEMORY_READ
                } else {
                    ACCESS_NONE
                },
                dst_access: ACCESS_TRANSFER_WRITE,
                old_layout: if self.transitioned {
                    IMAGE_LAYOUT_GENERAL
                } else {
                    IMAGE_LAYOUT_UNDEFINED
                },
                new_layout: IMAGE_LAYOUT_TRANSFER_DST,
                src_queue_family: if self.transitioned {
                    QUEUE_FAMILY_FOREIGN
                } else {
                    QUEUE_FAMILY_IGNORED
                },
                dst_queue_family: if self.transitioned {
                    self.queue_family
                } else {
                    QUEUE_FAMILY_IGNORED
                },
                image: self.parts.image,
                aspect: IMAGE_ASPECT_COLOR,
                level_count: 1,
                layer_count: 1,
            },
            copy: ImageCopy {
                source: self.source.image,
                source_layout: IMAGE_LAYOUT_TRANSFER_SRC,
                target: self.parts.image,
                target_layout: IMAGE_LAYOUT_TRANSFER_DST,
                aspect: IMAGE_ASPECT_COLOR,
                layer_count: 1,
                width: self.parts.width,
                height: self.parts.height,
                depth: 1,
            },
            release_src_stage: STAGE_TRANSFER,
            release_dst_stage: STAGE_ALL_COMMANDS,
            release: Barrier {
                src_access: ACCESS_TRANSFER_WRITE,
                dst_access: ACCESS_MEMORY_READ,
                old_layout: IMAGE_LAYOUT_TRANSFER_DST,
                new_layout: IMAGE_LAYOUT_GENERAL,
                src_queue_family: self.queue_family,
                dst_queue_family: QUEUE_FAMILY_FOREIGN,
                image: self.parts.image,
                aspect: IMAGE_ASPECT_COLOR,
                level_count: 1,
                layer_count: 1,
            },
        }
    }

    /// The next device call.
    pub fn action(&self) -> (action: ExportAction)
        ensures
            action == self@.action(),
    {
        match self.phase {
            ExportPhase::Reset => ExportAction::ResetCommandBuffer {
                command_buffer: self.parts.command_buffer,
                flags: COMMAND_BUFFER_RESET_NONE,
            },
            ExportPhase::Begin => ExportAction::BeginCommandBuffer {
                command_buffer: self.parts.command_buffer,
                flags: COMMAND_BUFFER_ONE_TIME_SUBMIT,
            },
            ExportPhase::Record => ExportAction::RecordCopy {
                plan: self.plan(),
            },
            ExportPhase::End => ExportAction::EndCommandBuffer {
                command_buffer: self.parts.command_buffer,
            },
            ExportPhase::Submit => ExportAction::SubmitCopy {
                command_buffer: self.parts.command_buffer,
                semaphore: self.parts.semaphore,
            },
            ExportPhase::Memory => ExportAction::ExportMemory {
                memory: self.parts.memory,
                handle_type: MEMORY_HANDLE_DMA_BUF,
            },
            ExportPhase::Fence { .. } => ExportAction::ExportFence {
                semaphore: self.parts.semaphore,
                handle_type: SEMAPHORE_HANDLE_SYNC_FD,
            },
            _ => ExportAction::Finish,
        }
    }

    /// Takes what the device call returned. The answer to another call changes nothing.
    pub fn step(&mut self, reply: ExportReply)
        ensures
            final(self)@ == old(self)@.next(reply),
    {
        proof {
            use_type_invariant(&*self);
        }
        match (self.phase, reply) {
            (ExportPhase::Reset, ExportReply::Status(status)) => {
                self.phase = match status {
                    Ok(()) => ExportPhase::Begin,
                    Err(code) => ExportPhase::Failed {
                        error: ExportError::ResetCommandBuffer(code),
                        close: None,
                    },
                };
            },
            (ExportPhase::Begin, ExportReply::Status(status)) => {
                self.phase = match status {
                    Ok(()) => ExportPhase::Record,
                    Err(code) => ExportPhase::Failed {
                        error: ExportError::BeginCommandBuffer(code),
                        close: None,
                    },
                };
            },
            (ExportPhase::Record, ExportReply::Recorded) => {
                self.phase = ExportPhase::End;
            },
            (ExportPhase::End, ExportReply::Status(status)) => {
                self.phase = match status {
                    Ok(()) => ExportPhase::Submit,
                    Err(code) => ExportPhase::Failed {
                        error: ExportError::EndCommandBuffer(code),
                        close: None,
                    },
                };
            },
            (ExportPhase::Submit, ExportReply::Status(status)) => match status {
                Ok(()) => {
                    self.transitioned = true;
                    self.phase = ExportPhase::Memory;
                },
                Err(code) => {
                    self.phase = ExportPhase::Failed {
                        error: ExportError::SubmitCopy(code),
                        close: None,
                    };
                },
            },
            (ExportPhase::Memory, ExportReply::Descriptor(descriptor)) => {
                self.phase = match descriptor {
                    Some(Ok(memory_fd)) => ExportPhase::Fence { memory_fd },
                    Some(Err(code)) => ExportPhase::Failed {
                        error: ExportError::ExportMemory(code),
                        close: None,
                    },
                    None => ExportPhase::Failed {
                        error: ExportError::MemoryLoaderGone,
                        close: None,
                    },
                };
            },
            (
                ExportPhase::Fence { memory_fd },
                ExportReply::Descriptor(descriptor),
            ) => match descriptor {
                Some(Ok(fence_fd)) => {
                    self.busy = true;
                    self.phase = ExportPhase::Exported { memory_fd, fence_fd };
                },
                Some(Err(code)) => {
                    self.phase = ExportPhase::Failed {
                        error: ExportError::ExportFence(code),
                        close: Some(memory_fd),
                    };
                },
                None => {
                    self.phase = ExportPhase::Failed {
                        error: ExportError::SemaphoreLoaderGone,
                        close: Some(memory_fd),
                    };
                },
            },
            _ => {},
        }
    }

    /// Gives the slot back once the export has ended, with the frame that was exported out of it;
    /// while it has not ended, the export itself.
    pub fn finish(self) -> (ended: Result<ExportEnd, FrameExport>)
        ensures
            match ended {
                Ok(end) => {
                    &&& self@.ended()
                    &&& end.slot@ == self@.slot
                    &&& match end.outcome {
                        Ok(published) => self@.exports(published) && end.close is None,
                        Err(error) => self@.phase == (ExportPhase::Failed {
                            error,
                            close: end.close,
                        }),
                    }
                },
                Err(export) => !self@.ended() && export == self,
            },
    {
        proof {
            use_type_invariant(&self);
        }
        let (outcome, close) = match self.phase {
            ExportPhase::Exported { memory_fd, fence_fd } => {
                let plane_fds: Vec<i32> = vec![memory_fd];
                assert(plane_fds@ =~= seq![memory_fd]);
                let published = PublishedFrame::new(
                    self.parts.frame(self.display_id),
                    plane_fds,
                    Some(fence_fd),
                    SlotLease { key: self.parts.key() },
                );
                (Ok(published), None)
            },
            ExportPhase::Failed { error, close } => (Err(error), close),
            _ => {
                return Err(self);
            },
        };
        Ok(
            ExportEnd {
                slot: ExportSlot {
                    parts: self.parts,
                    busy: self.busy,
                    transitioned: self.transitioned,
                },
                outcome,
                close,
            },
        )
    }
}

} // verus!
