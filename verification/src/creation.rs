//! The creation of an export slot, as decisions between the device calls.
//!
//! Extension presence is not enough: whether memory can be shared is a property of a concrete
//! format, usage, tiling and handle type. A [`Creation`] asks that exact question of every offered
//! modifier before it creates an image, and says what is to be destroyed where a later call fails.

use vstd::prelude::*;
use vstd::slice::slice_to_vec;

use crate::export_error::ExportError;
#[allow(unused_imports)]
use crate::slot::SlotView;
use crate::serial::SlotSerial;
use crate::slot::{ExportSlot, Handle, SlotParts};
use crate::vulkan::{
    memory_features_contain, memory_handles_contain, COMMAND_BUFFER_LEVEL_PRIMARY,
    COMMAND_POOL_RESET_COMMAND_BUFFER, FORMAT_B8G8R8A8_UNORM, IMAGE_ASPECT_MEMORY_PLANE_0,
    IMAGE_CREATE_NONE, IMAGE_LAYOUT_UNDEFINED, IMAGE_TILING_DRM_FORMAT_MODIFIER, IMAGE_TYPE_2D,
    IMAGE_USAGE_SAMPLED, IMAGE_USAGE_TRANSFER_DST, MEMORY_FEATURE_EXPORTABLE,
    MEMORY_HANDLE_DMA_BUF, SAMPLE_COUNT_1, SEMAPHORE_HANDLE_SYNC_FD, SHARING_MODE_EXCLUSIVE,
};

verus! {

/// How an export image is used: as the target of a copy, and as a texture.
pub const EXPORT_USAGE: u32 = IMAGE_USAGE_TRANSFER_DST | IMAGE_USAGE_SAMPLED;

/// What decides whether an image can be shared.
#[derive(Clone, Copy, Debug, PartialEq, Eq, Structural)]
pub struct ImageTraits {
    pub format: i32,
    pub image_type: i32,
    pub tiling: i32,
    pub usage: u32,
    pub flags: u32,
    pub sharing_mode: i32,
    pub handle_types: u32,
}

/// What an export image is created with, besides the modifiers to choose from.
#[derive(Clone, Copy, Debug, PartialEq, Eq, Structural)]
pub struct ImageRecipe {
    pub traits: ImageTraits,
    pub width: u32,
    pub height: u32,
    pub depth: u32,
    pub mip_levels: u32,
    pub array_layers: u32,
    pub samples: u32,
    pub initial_layout: i32,
}

/// The traits of an export image.
pub open spec fn spec_export_traits() -> ImageTraits {
    ImageTraits {
        format: FORMAT_B8G8R8A8_UNORM,
        image_type: IMAGE_TYPE_2D,
        tiling: IMAGE_TILING_DRM_FORMAT_MODIFIER,
        usage: EXPORT_USAGE,
        flags: IMAGE_CREATE_NONE,
        sharing_mode: SHARING_MODE_EXCLUSIVE,
        handle_types: MEMORY_HANDLE_DMA_BUF,
    }
}

/// The traits of an export image.
fn export_traits() -> (traits: ImageTraits)
    ensures
        traits == spec_export_traits(),
{
    ImageTraits {
        format: FORMAT_B8G8R8A8_UNORM,
        image_type: IMAGE_TYPE_2D,
        tiling: IMAGE_TILING_DRM_FORMAT_MODIFIER,
        usage: EXPORT_USAGE,
        flags: IMAGE_CREATE_NONE,
        sharing_mode: SHARING_MODE_EXCLUSIVE,
        handle_types: MEMORY_HANDLE_DMA_BUF,
    }
}

/// An image with its memory, and where its plane lies in it.
#[derive(Clone, Copy, Debug, PartialEq, Eq, Structural)]
pub struct BoundImage {
    pub image: u64,
    pub memory: u64,
    pub modifier: u64,
    pub offset: u32,
    pub stride: u32,
}

/// The device objects to destroy behind a failure.
#[derive(Clone, Copy, Debug, PartialEq, Eq, Structural)]
pub struct Undo {
    pub command_pool: Option<u64>,
    pub semaphore: Option<u64>,
    pub memory: Option<u64>,
    pub image: Option<u64>,
}

/// Where a creation stands: what it does next, or how it ended.
#[derive(Clone, Copy, Debug, PartialEq, Eq, Structural)]
pub enum CreationPhase {
    /// Ask about the offered modifier at `next`.
    Survey { next: usize },
    /// Create the image.
    Image,
    /// Ask for the modifier that was chosen.
    Modifier { image: u64 },
    /// Ask for the memory that the image needs.
    Requirements { image: u64, modifier: u64 },
    /// Look for a device-local memory type.
    MemoryType { image: u64, modifier: u64, size: u64, type_bits: u32 },
    /// Allocate the memory.
    Allocate { image: u64, modifier: u64, size: u64, memory_type: u32 },
    /// Bind the memory to the image.
    Bind { image: u64, modifier: u64, memory: u64 },
    /// Ask where the plane lies.
    Layout { image: u64, modifier: u64, memory: u64 },
    /// Create the semaphore.
    Semaphore { bound: BoundImage },
    /// Create the command pool.
    CommandPool { bound: BoundImage, semaphore: u64 },
    /// Allocate the command buffer.
    CommandBuffer { bound: BoundImage, semaphore: u64, command_pool: u64 },
    /// Prove that the memory can be exported.
    Probe { bound: BoundImage, semaphore: u64, command_pool: u64, command_buffer: u64 },
    /// The slot is there, made of these parts; the descriptor of the probe is to be closed.
    Created { parts: SlotParts, probe_fd: i32 },
    /// The creation failed, and what it had made is to be destroyed.
    Failed { error: ExportError, undo: Undo },
}

/// What a device call of a creation returned. A failure carries the result code of the call.
#[derive(Clone, Copy, Debug, PartialEq, Eq)]
pub enum CreationReply {
    /// Whether the device knows the format, and how its memory can be shared.
    Support { supported: bool, features: u32, handle_types: u32 },
    /// A new device object.
    Object(Result<u64, i32>),
    /// The modifier of the image.
    Modifier(Result<u64, i32>),
    /// The memory that the image needs.
    Requirements { size: u64, type_bits: u32 },
    /// The index of a memory type, `None` where there is none.
    MemoryType(Option<u32>),
    /// The status of the binding.
    Bound(Result<(), i32>),
    /// Where the plane lies.
    Layout { offset: u64, row_pitch: u64 },
    /// The exported descriptor.
    Descriptor(Result<i32, i32>),
}

/// The next device call of a creation.
#[derive(Clone, Copy, Debug, PartialEq, Eq, Structural)]
pub enum CreationAction {
    /// Ask whether images of these traits and this modifier can be shared.
    QueryModifier { modifier: u64, traits: ImageTraits },
    /// Create the image, of one of the compatible modifiers.
    CreateImage { recipe: ImageRecipe },
    QueryImageModifier { image: u64 },
    QueryRequirements { image: u64 },
    /// Look for a device-local memory type among those of `type_bits`.
    FindMemoryType { type_bits: u32 },
    /// Allocate exportable memory that is dedicated to the image.
    AllocateMemory { size: u64, memory_type: u32, handle_types: u32, image: u64 },
    BindMemory { image: u64, memory: u64, offset: u64 },
    QueryLayout { image: u64, aspect: u32 },
    /// Create a semaphore that can be exported.
    CreateSemaphore { handle_types: u32 },
    CreateCommandPool { queue_family: u32, flags: u32 },
    AllocateCommandBuffer { command_pool: u64, level: i32, count: u32 },
    ExportMemory { memory: u64, handle_type: u32 },
    /// Nothing is left to do.
    Finish,
}

/// Whether a reply shows that images of a modifier can be exported as DMA-BUF.
pub open spec fn exportable(supported: bool, features: u32, handle_types: u32) -> bool {
    supported && features & MEMORY_FEATURE_EXPORTABLE == MEMORY_FEATURE_EXPORTABLE && handle_types
        & MEMORY_HANDLE_DMA_BUF == MEMORY_HANDLE_DMA_BUF
}

impl Undo {
    /// Nothing to destroy.
    pub open spec fn spec_nothing() -> Undo {
        Undo { command_pool: None, semaphore: None, memory: None, image: None }
    }

    /// An image to destroy.
    pub open spec fn spec_image(image: u64) -> Undo {
        Undo { image: Some(image), ..Self::spec_nothing() }
    }

    /// The device objects in the order in which they are destroyed.
    pub open spec fn order(self) -> Seq<Handle> {
        let pool = match self.command_pool {
            Some(command_pool) => seq![Handle::CommandPool(command_pool)],
            None => Seq::empty(),
        };
        let semaphore = match self.semaphore {
            Some(semaphore) => seq![Handle::Semaphore(semaphore)],
            None => Seq::empty(),
        };
        let memory = match self.memory {
            Some(memory) => seq![Handle::Memory(memory)],
            None => Seq::empty(),
        };
        let image = match self.image {
            Some(image) => seq![Handle::Image(image)],
            None => Seq::empty(),
        };
        pool + semaphore + memory + image
    }

    /// Nothing to destroy.
    fn nothing() -> (undo: Undo)
        ensures
            undo == Undo::spec_nothing(),
    {
        Undo { command_pool: None, semaphore: None, memory: None, image: None }
    }

    /// An image to destroy.
    fn image(image: u64) -> (undo: Undo)
        ensures
            undo == Undo::spec_image(image),
    {
        Undo { command_pool: None, semaphore: None, memory: None, image: Some(image) }
    }

    /// An image and its memory to destroy.
    fn bound_image(image: u64, memory: u64) -> (undo: Undo)
        ensures
            undo == (Undo { memory: Some(memory), ..Undo::spec_image(image) }),
    {
        Undo { command_pool: None, semaphore: None, memory: Some(memory), image: Some(image) }
    }

    /// The device objects in the order in which they are to be destroyed.
    pub fn handles(&self) -> (handles: Vec<Handle>)
        ensures
            handles@ == self.order(),
    {
        let mut handles: Vec<Handle> = Vec::new();
        if let Some(command_pool) = self.command_pool {
            handles.push(Handle::CommandPool(command_pool));
        }
        if let Some(semaphore) = self.semaphore {
            handles.push(Handle::Semaphore(semaphore));
        }
        if let Some(memory) = self.memory {
            handles.push(Handle::Memory(memory));
        }
        if let Some(image) = self.image {
            handles.push(Handle::Image(image));
        }
        assert(handles@ =~= self.order());
        handles
    }
}

/// The model of a creation.
#[verifier::ext_equal]
pub struct CreationView {
    pub serial: u64,
    pub width: u32,
    pub height: u32,
    pub slot_id: u16,
    pub queue_family: u32,
    pub offered: Seq<u64>,
    pub compatible: Seq<u64>,
    pub phase: CreationPhase,
}

impl CreationView {
    /// The phase behind the survey of the first `next` modifiers.
    pub open spec fn surveyed(offered: Seq<u64>, compatible: Seq<u64>, next: nat) -> CreationPhase {
        if next < offered.len() {
            CreationPhase::Survey { next: next as usize }
        } else if compatible.len() == 0 {
            CreationPhase::Failed {
                error: ExportError::NoSharedModifier { offered: offered.len() as usize },
                undo: Undo::spec_nothing(),
            }
        } else {
            CreationPhase::Image
        }
    }

    /// The creation of a slot, refused where descriptors of memory or of semaphores cannot be
    /// exported at all.
    pub open spec fn begin(
        serial: u64,
        width: u32,
        height: u32,
        offered: Seq<u64>,
        slot_id: u16,
        queue_family: u32,
        exports_memory: bool,
        exports_semaphores: bool,
    ) -> CreationView {
        CreationView {
            serial,
            width,
            height,
            slot_id,
            queue_family,
            offered,
            compatible: Seq::empty(),
            phase: if !exports_memory {
                CreationPhase::Failed {
                    error: ExportError::MemoryFdUnavailable,
                    undo: Undo::spec_nothing(),
                }
            } else if !exports_semaphores {
                CreationPhase::Failed {
                    error: ExportError::SemaphoreFdUnavailable,
                    undo: Undo::spec_nothing(),
                }
            } else {
                Self::surveyed(offered, Seq::empty(), 0)
            },
        }
    }

    /// Whether `reply` answers the call that the creation waits for.
    pub open spec fn accepts(self, reply: CreationReply) -> bool {
        match self.phase {
            CreationPhase::Survey { .. } => reply is Support,
            CreationPhase::Image | CreationPhase::Allocate { .. } | CreationPhase::Semaphore { .. }
            | CreationPhase::CommandPool { .. } | CreationPhase::CommandBuffer {
                ..
            } => reply is Object,
            CreationPhase::Modifier { .. } => reply is Modifier,
            CreationPhase::Requirements { .. } => reply is Requirements,
            CreationPhase::MemoryType { .. } => reply is MemoryType,
            CreationPhase::Bind { .. } => reply is Bound,
            CreationPhase::Layout { .. } => reply is Layout,
            CreationPhase::Probe { .. } => reply is Descriptor,
            _ => false,
        }
    }

    /// The compatible modifiers once `reply` has come in.
    pub open spec fn next_compatible(self, reply: CreationReply) -> Seq<u64> {
        match (self.phase, reply) {
            (
                CreationPhase::Survey { next },
                CreationReply::Support { supported, features, handle_types },
            ) if exportable(supported, features, handle_types) => self.compatible.push(
                self.offered[next as int],
            ),
            _ => self.compatible,
        }
    }

    /// The phase once `reply` has come in.
    pub open spec fn next_phase(self, reply: CreationReply) -> CreationPhase {
        match (self.phase, reply) {
            (CreationPhase::Survey { next }, CreationReply::Support { .. }) => Self::surveyed(
                self.offered,
                self.next_compatible(reply),
                (next + 1) as nat,
            ),
            (CreationPhase::Image, CreationReply::Object(object)) => match object {
                Ok(image) => CreationPhase::Modifier { image },
                Err(code) => CreationPhase::Failed {
                    error: ExportError::CreateImage(code),
                    undo: Undo::spec_nothing(),
                },
            },
            (CreationPhase::Modifier { image }, CreationReply::Modifier(modifier)) => match modifier {
                Ok(modifier) => CreationPhase::Requirements { image, modifier },
                Err(code) => CreationPhase::Failed {
                    error: ExportError::QueryModifier(code),
                    undo: Undo::spec_image(image),
                },
            },
            (
                CreationPhase::Requirements { image, modifier },
                CreationReply::Requirements { size, type_bits },
            ) => CreationPhase::MemoryType { image, modifier, size, type_bits },
            (
                CreationPhase::MemoryType { image, modifier, size, .. },
                CreationReply::MemoryType(memory_type),
            ) => match memory_type {
                Some(memory_type) => CreationPhase::Allocate { image, modifier, size, memory_type },
                None => CreationPhase::Failed {
                    error: ExportError::NoMemoryType,
                    undo: Undo::spec_image(image),
                },
            },
            (
                CreationPhase::Allocate { image, modifier, .. },
                CreationReply::Object(object),
            ) => match object {
                Ok(memory) => CreationPhase::Bind { image, modifier, memory },
                Err(code) => CreationPhase::Failed {
                    error: ExportError::AllocateMemory(code),
                    undo: Undo::spec_image(image),
                },
            },
            (
                CreationPhase::Bind { image, modifier, memory },
                CreationReply::Bound(status),
            ) => match status {
                Ok(()) => CreationPhase::Layout { image, modifier, memory },
                Err(code) => CreationPhase::Failed {
                    error: ExportError::BindImage(code),
                    undo: Undo { memory: Some(memory), ..Undo::spec_image(image) },
                },
            },
            (
                CreationPhase::Layout { image, modifier, memory },
                CreationReply::Layout { offset, row_pitch },
            ) => if offset > u32::MAX {
                CreationPhase::Failed {
                    error: ExportError::PlaneOffset,
                    undo: Undo { memory: Some(memory), ..Undo::spec_image(image) },
                }
            } else if row_pitch > u32::MAX {
                CreationPhase::Failed {
                    error: ExportError::PlaneStride,
                    undo: Undo { memory: Some(memory), ..Undo::spec_image(image) },
                }
            } else {
                CreationPhase::Semaphore {
                    bound: BoundImage {
                        image,
                        memory,
                        modifier,
                        offset: offset as u32,
                        stride: row_pitch as u32,
                    },
                }
            },
            (CreationPhase::Semaphore { bound }, CreationReply::Object(object)) => match object {
                Ok(semaphore) => CreationPhase::CommandPool { bound, semaphore },
                Err(code) => CreationPhase::Failed {
                    error: ExportError::CreateSemaphore(code),
                    undo: Undo { memory: Some(bound.memory), ..Undo::spec_image(bound.image) },
                },
            },
            (
                CreationPhase::CommandPool { bound, semaphore },
                CreationReply::Object(object),
            ) => match object {
                Ok(command_pool) => CreationPhase::CommandBuffer { bound, semaphore, command_pool },
                Err(code) => CreationPhase::Failed {
                    error: ExportError::CreateCommandPool(code),
                    undo: Undo {
                        command_pool: None,
                        semaphore: Some(semaphore),
                        memory: Some(bound.memory),
                        image: Some(bound.image),
                    },
                },
            },
            (
                CreationPhase::CommandBuffer { bound, semaphore, command_pool },
                CreationReply::Object(object),
            ) => match object {
                Ok(command_buffer) => CreationPhase::Probe {
                    bound,
                    semaphore,
                    command_pool,
                    command_buffer,
                },
                Err(code) => CreationPhase::Failed {
                    error: ExportError::AllocateCommandBuffer(code),
                    undo: Undo {
                        command_pool: Some(command_pool),
                        semaphore: Some(semaphore),
                        memory: Some(bound.memory),
                        image: Some(bound.image),
                    },
                },
            },
            (
                CreationPhase::Probe { bound, semaphore, command_pool, command_buffer },
                CreationReply::Descriptor(descriptor),
            ) => match descriptor {
                Ok(probe_fd) => CreationPhase::Created {
                    parts: SlotParts {
                        serial: self.serial,
                        slot_id: self.slot_id,
                        image: bound.image,
                        memory: bound.memory,
                        semaphore,
                        command_pool,
                        command_buffer,
                        width: self.width,
                        height: self.height,
                        modifier: bound.modifier,
                        offset: bound.offset,
                        stride: bound.stride,
                    },
                    probe_fd,
                },
                Err(code) => CreationPhase::Failed {
                    error: ExportError::ProbeDescriptor(code),
                    undo: Undo {
                        command_pool: Some(command_pool),
                        semaphore: Some(semaphore),
                        memory: Some(bound.memory),
                        image: Some(bound.image),
                    },
                },
            },
            (phase, _) => phase,
        }
    }

    /// The creation once `reply` has come in.
    pub open spec fn next(self, reply: CreationReply) -> CreationView {
        CreationView {
            compatible: self.next_compatible(reply),
            phase: self.next_phase(reply),
            ..self
        }
    }

    /// The next device call.
    pub open spec fn action(self) -> CreationAction {
        match self.phase {
            CreationPhase::Survey { next } => CreationAction::QueryModifier {
                modifier: self.offered[next as int],
                traits: spec_export_traits(),
            },
            CreationPhase::Image => CreationAction::CreateImage {
                recipe: ImageRecipe {
                    traits: spec_export_traits(),
                    width: self.width,
                    height: self.height,
                    depth: 1,
                    mip_levels: 1,
                    array_layers: 1,
                    samples: SAMPLE_COUNT_1,
                    initial_layout: IMAGE_LAYOUT_UNDEFINED,
                },
            },
            CreationPhase::Modifier { image } => CreationAction::QueryImageModifier { image },
            CreationPhase::Requirements { image, .. } => CreationAction::QueryRequirements {
                image,
            },
            CreationPhase::MemoryType { type_bits, .. } => CreationAction::FindMemoryType {
                type_bits,
            },
            CreationPhase::Allocate {
                image,
                size,
                memory_type,
                ..
            } => CreationAction::AllocateMemory {
                size,
                memory_type,
                handle_types: MEMORY_HANDLE_DMA_BUF,
                image,
            },
            CreationPhase::Bind { image, memory, .. } => CreationAction::BindMemory {
                image,
                memory,
                offset: 0,
            },
            CreationPhase::Layout { image, .. } => CreationAction::QueryLayout {
                image,
                aspect: IMAGE_ASPECT_MEMORY_PLANE_0,
            },
            CreationPhase::Semaphore { .. } => CreationAction::CreateSemaphore {
                handle_types: SEMAPHORE_HANDLE_SYNC_FD,
            },
            CreationPhase::CommandPool { .. } => CreationAction::CreateCommandPool {
                queue_family: self.queue_family,
                flags: COMMAND_POOL_RESET_COMMAND_BUFFER,
            },
            CreationPhase::CommandBuffer {
                command_pool,
                ..
            } => CreationAction::AllocateCommandBuffer {
                command_pool,
                level: COMMAND_BUFFER_LEVEL_PRIMARY,
                count: 1,
            },
            CreationPhase::Probe { bound, .. } => CreationAction::ExportMemory {
                memory: bound.memory,
                handle_type: MEMORY_HANDLE_DMA_BUF,
            },
            _ => CreationAction::Finish,
        }
    }
}

/// The creation of an export slot.
pub struct Creation {
    serial: u64,
    width: u32,
    height: u32,
    slot_id: u16,
    queue_family: u32,
    offered: Vec<u64>,
    compatible: Vec<u64>,
    phase: CreationPhase,
}

impl View for Creation {
    type V = CreationView;

    closed spec fn view(&self) -> CreationView {
        CreationView {
            serial: self.serial,
            width: self.width,
            height: self.height,
            slot_id: self.slot_id,
            queue_family: self.queue_family,
            offered: self.offered@,
            compatible: self.compatible@,
            phase: self.phase,
        }
    }
}

impl ExportSlot {
    /// Begins to create a slot, under a serial number of its own, for images of this extent, of one
    /// of the offered modifiers, that are copied into on the queue family `queue_family`. Whether
    /// descriptors of memory and of semaphores can be exported depends on the device.
    pub fn create(
        serial: SlotSerial,
        width: u32,
        height: u32,
        offered: &[u64],
        slot_id: u16,
        queue_family: u32,
        exports_memory: bool,
        exports_semaphores: bool,
    ) -> (creation: Creation)
        ensures
            creation@ == CreationView::begin(
                serial@,
                width,
                height,
                offered@,
                slot_id,
                queue_family,
                exports_memory,
                exports_semaphores,
            ),
    {
        let compatible: Vec<u64> = Vec::new();
        let phase = if !exports_memory {
            CreationPhase::Failed {
                error: ExportError::MemoryFdUnavailable,
                undo: Undo::nothing(),
            }
        } else if !exports_semaphores {
            CreationPhase::Failed {
                error: ExportError::SemaphoreFdUnavailable,
                undo: Undo::nothing(),
            }
        } else {
            Creation::surveyed(offered.len(), compatible.len(), 0)
        };
        proof {
            assert(compatible@ =~= Seq::<u64>::empty());
        }
        Creation {
            serial: serial.into_number(),
            width,
            height,
            slot_id,
            queue_family,
            offered: slice_to_vec(offered),
            compatible,
            phase,
        }
    }
}

impl Creation {
    #[verifier::type_invariant]
    closed spec fn well_formed(self) -> bool {
        self.phase matches CreationPhase::Survey { next } ==> next < self.offered@.len()
    }

    /// The phase behind the survey of the first `next` modifiers.
    fn surveyed(offered: usize, compatible: usize, next: usize) -> (phase: CreationPhase)
        ensures
            forall|all: Seq<u64>, some: Seq<u64>|
                all.len() == offered && some.len() == compatible ==> phase
                    == #[trigger] CreationView::surveyed(all, some, next as nat),
    {
        if next < offered {
            CreationPhase::Survey { next }
        } else if compatible == 0 {
            CreationPhase::Failed {
                error: ExportError::NoSharedModifier { offered },
                undo: Undo::nothing(),
            }
        } else {
            CreationPhase::Image
        }
    }

    /// The modifiers that the image may be created with.
    pub fn compatible(&self) -> (compatible: &[u64])
        ensures
            compatible@ == self@.compatible,
    {
        self.compatible.as_slice()
    }

    /// Where the creation stands.
    pub fn phase(&self) -> (phase: CreationPhase)
        ensures
            phase == self@.phase,
    {
        self.phase
    }

    /// The next device call.
    pub fn action(&self) -> (action: CreationAction)
        ensures
            action == self@.action(),
    {
        proof {
            use_type_invariant(self);
        }
        match self.phase {
            CreationPhase::Survey { next } => CreationAction::QueryModifier {
                modifier: self.offered[next],
                traits: export_traits(),
            },
            CreationPhase::Image => CreationAction::CreateImage {
                recipe: ImageRecipe {
                    traits: export_traits(),
                    width: self.width,
                    height: self.height,
                    depth: 1,
                    mip_levels: 1,
                    array_layers: 1,
                    samples: SAMPLE_COUNT_1,
                    initial_layout: IMAGE_LAYOUT_UNDEFINED,
                },
            },
            CreationPhase::Modifier { image } => CreationAction::QueryImageModifier { image },
            CreationPhase::Requirements { image, .. } => CreationAction::QueryRequirements {
                image,
            },
            CreationPhase::MemoryType { type_bits, .. } => CreationAction::FindMemoryType {
                type_bits,
            },
            CreationPhase::Allocate {
                image,
                size,
                memory_type,
                ..
            } => CreationAction::AllocateMemory {
                size,
                memory_type,
                handle_types: MEMORY_HANDLE_DMA_BUF,
                image,
            },
            CreationPhase::Bind { image, memory, .. } => CreationAction::BindMemory {
                image,
                memory,
                offset: 0,
            },
            CreationPhase::Layout { image, .. } => CreationAction::QueryLayout {
                image,
                aspect: IMAGE_ASPECT_MEMORY_PLANE_0,
            },
            CreationPhase::Semaphore { .. } => CreationAction::CreateSemaphore {
                handle_types: SEMAPHORE_HANDLE_SYNC_FD,
            },
            CreationPhase::CommandPool { .. } => CreationAction::CreateCommandPool {
                queue_family: self.queue_family,
                flags: COMMAND_POOL_RESET_COMMAND_BUFFER,
            },
            CreationPhase::CommandBuffer {
                command_pool,
                ..
            } => CreationAction::AllocateCommandBuffer {
                command_pool,
                level: COMMAND_BUFFER_LEVEL_PRIMARY,
                count: 1,
            },
            CreationPhase::Probe { bound, .. } => CreationAction::ExportMemory {
                memory: bound.memory,
                handle_type: MEMORY_HANDLE_DMA_BUF,
            },
            _ => CreationAction::Finish,
        }
    }

    /// Takes what the device call returned. The answer to another call changes nothing.
    pub fn step(&mut self, reply: CreationReply)
        ensures
            final(self)@ == old(self)@.next(reply),
    {
        proof {
            use_type_invariant(&*self);
        }
        match (self.phase, reply) {
            (
                CreationPhase::Survey { next },
                CreationReply::Support { supported, features, handle_types },
            ) => {
                let modifier: u64 = self.offered[next];
                if supported && memory_features_contain(features, MEMORY_FEATURE_EXPORTABLE)
                    && memory_handles_contain(handle_types, MEMORY_HANDLE_DMA_BUF) {
                    let mut compatible: Vec<u64> = Vec::new();
                    std::mem::swap(&mut compatible, &mut self.compatible);
                    compatible.push(modifier);
                    self.compatible = compatible;
                }
                self.phase = Self::surveyed(self.offered.len(), self.compatible.len(), next + 1);
            },
            (CreationPhase::Image, CreationReply::Object(object)) => {
                self.phase = match object {
                    Ok(image) => CreationPhase::Modifier { image },
                    Err(code) => CreationPhase::Failed {
                        error: ExportError::CreateImage(code),
                        undo: Undo::nothing(),
                    },
                };
            },
            (CreationPhase::Modifier { image }, CreationReply::Modifier(modifier)) => {
                self.phase = match modifier {
                    Ok(modifier) => CreationPhase::Requirements { image, modifier },
                    Err(code) => CreationPhase::Failed {
                        error: ExportError::QueryModifier(code),
                        undo: Undo::image(image),
                    },
                };
            },
            (
                CreationPhase::Requirements { image, modifier },
                CreationReply::Requirements { size, type_bits },
            ) => {
                self.phase = CreationPhase::MemoryType { image, modifier, size, type_bits };
            },
            (
                CreationPhase::MemoryType { image, modifier, size, .. },
                CreationReply::MemoryType(memory_type),
            ) => {
                self.phase = match memory_type {
                    Some(memory_type) => CreationPhase::Allocate {
                        image,
                        modifier,
                        size,
                        memory_type,
                    },
                    None => CreationPhase::Failed {
                        error: ExportError::NoMemoryType,
                        undo: Undo::image(image),
                    },
                };
            },
            (CreationPhase::Allocate { image, modifier, .. }, CreationReply::Object(object)) => {
                self.phase = match object {
                    Ok(memory) => CreationPhase::Bind { image, modifier, memory },
                    Err(code) => CreationPhase::Failed {
                        error: ExportError::AllocateMemory(code),
                        undo: Undo::image(image),
                    },
                };
            },
            (CreationPhase::Bind { image, modifier, memory }, CreationReply::Bound(status)) => {
                self.phase = match status {
                    Ok(()) => CreationPhase::Layout { image, modifier, memory },
                    Err(code) => CreationPhase::Failed {
                        error: ExportError::BindImage(code),
                        undo: Undo::bound_image(image, memory),
                    },
                };
            },
            (
                CreationPhase::Layout { image, modifier, memory },
                CreationReply::Layout { offset, row_pitch },
            ) => {
                self.phase = if offset > u32::MAX as u64 {
                    CreationPhase::Failed {
                        error: ExportError::PlaneOffset,
                        undo: Undo::bound_image(image, memory),
                    }
                } else if row_pitch > u32::MAX as u64 {
                    CreationPhase::Failed {
                        error: ExportError::PlaneStride,
                        undo: Undo::bound_image(image, memory),
                    }
                } else {
                    CreationPhase::Semaphore {
                        bound: BoundImage {
                            image,
                            memory,
                            modifier,
                            offset: offset as u32,
                            stride: row_pitch as u32,
                        },
                    }
                };
            },
            (CreationPhase::Semaphore { bound }, CreationReply::Object(object)) => {
                self.phase = match object {
                    Ok(semaphore) => CreationPhase::CommandPool { bound, semaphore },
                    Err(code) => CreationPhase::Failed {
                        error: ExportError::CreateSemaphore(code),
                        undo: Undo::bound_image(bound.image, bound.memory),
                    },
                };
            },
            (CreationPhase::CommandPool { bound, semaphore }, CreationReply::Object(object)) => {
                self.phase = match object {
                    Ok(command_pool) => CreationPhase::CommandBuffer {
                        bound,
                        semaphore,
                        command_pool,
                    },
                    Err(code) => CreationPhase::Failed {
                        error: ExportError::CreateCommandPool(code),
                        undo: Undo {
                            command_pool: None,
                            semaphore: Some(semaphore),
                            memory: Some(bound.memory),
                            image: Some(bound.image),
                        },
                    },
                };
            },
            (
                CreationPhase::CommandBuffer { bound, semaphore, command_pool },
                CreationReply::Object(object),
            ) => {
                self.phase = match object {
                    Ok(command_buffer) => CreationPhase::Probe {
                        bound,
                        semaphore,
                        command_pool,
                        command_buffer,
                    },
                    Err(code) => CreationPhase::Failed {
                        error: ExportError::AllocateCommandBuffer(code),
                        undo: Undo {
                            command_pool: Some(command_pool),
                            semaphore: Some(semaphore),
                            memory: Some(bound.memory),
                            image: Some(bound.image),
                        },
                    },
                };
            },
            (
                CreationPhase::Probe { bound, semaphore, command_pool, command_buffer },
                CreationReply::Descriptor(descriptor),
            ) => {
                self.phase = match descriptor {
                    Ok(probe_fd) => CreationPhase::Created {
                        parts: SlotParts {
                            serial: self.serial,
                            slot_id: self.slot_id,
                            image: bound.image,
                            memory: bound.memory,
                            semaphore,
                            command_pool,
                            command_buffer,
                            width: self.width,
                            height: self.height,
                            modifier: bound.modifier,
                            offset: bound.offset,
                            stride: bound.stride,
                        },
                        probe_fd,
                    },
                    Err(code) => CreationPhase::Failed {
                        error: ExportError::ProbeDescriptor(code),
                        undo: Undo {
                            command_pool: Some(command_pool),
                            semaphore: Some(semaphore),
                            memory: Some(bound.memory),
                            image: Some(bound.image),
                        },
                    },
                };
            },
            _ => {},
        }
    }

    /// Hands the slot out once it is there; the creation itself where it is not.
    pub fn finish(self) -> (ended: Result<ExportSlot, Creation>)
        ensures
            match ended {
                Ok(slot) => self@.phase matches CreationPhase::Created { parts, .. } && slot@
                    == SlotView::fresh(parts),
                Err(creation) => !(self@.phase is Created) && creation == self,
            },
    {
        match self.phase {
            CreationPhase::Created { parts, .. } => Ok(ExportSlot::fresh(parts)),
            _ => Err(self),
        }
    }
}

} // verus!
