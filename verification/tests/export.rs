use ash::vk;
use frame_bridge::creation::{
    Creation, CreationAction, CreationPhase, CreationReply, ImageRecipe, ImageTraits, Undo,
    EXPORT_USAGE,
};
use frame_bridge::export_error::ExportError;
use frame_bridge::serial::SlotSerial;
use frame_bridge::slot::{
    ExportAction, ExportEnd, ExportPhase, ExportReply, FrameExport, Handle, SlotParts, SourceImage,
};
use frame_bridge::vulkan;
use frame_bridge::{ExportSlot, Plane, PublishedFrame, SlotLease, SlotSerials};

#[test]
fn numbers_are_those_of_the_bindings() {
    assert_eq!(
        vulkan::FORMAT_B8G8R8A8_UNORM,
        vk::Format::B8G8R8A8_UNORM.as_raw()
    );
    assert_eq!(vulkan::IMAGE_TYPE_2D, vk::ImageType::TYPE_2D.as_raw());
    assert_eq!(
        vulkan::IMAGE_TILING_DRM_FORMAT_MODIFIER,
        vk::ImageTiling::DRM_FORMAT_MODIFIER_EXT.as_raw()
    );
    assert_eq!(
        vulkan::IMAGE_USAGE_TRANSFER_DST,
        vk::ImageUsageFlags::TRANSFER_DST.as_raw()
    );
    assert_eq!(
        vulkan::IMAGE_USAGE_SAMPLED,
        vk::ImageUsageFlags::SAMPLED.as_raw()
    );
    assert_eq!(
        EXPORT_USAGE,
        (vk::ImageUsageFlags::TRANSFER_DST | vk::ImageUsageFlags::SAMPLED).as_raw()
    );
    assert_eq!(
        vulkan::IMAGE_CREATE_NONE,
        vk::ImageCreateFlags::empty().as_raw()
    );
    assert_eq!(
        vulkan::SHARING_MODE_EXCLUSIVE,
        vk::SharingMode::EXCLUSIVE.as_raw()
    );
    assert_eq!(
        vulkan::SAMPLE_COUNT_1,
        vk::SampleCountFlags::TYPE_1.as_raw()
    );
    assert_eq!(
        vulkan::MEMORY_HANDLE_DMA_BUF,
        vk::ExternalMemoryHandleTypeFlags::DMA_BUF_EXT.as_raw()
    );
    assert_eq!(
        vulkan::MEMORY_FEATURE_EXPORTABLE,
        vk::ExternalMemoryFeatureFlags::EXPORTABLE.as_raw()
    );
    assert_eq!(
        vulkan::SEMAPHORE_HANDLE_SYNC_FD,
        vk::ExternalSemaphoreHandleTypeFlags::SYNC_FD.as_raw()
    );
    assert_eq!(
        vulkan::IMAGE_LAYOUT_UNDEFINED,
        vk::ImageLayout::UNDEFINED.as_raw()
    );
    assert_eq!(
        vulkan::IMAGE_LAYOUT_GENERAL,
        vk::ImageLayout::GENERAL.as_raw()
    );
    assert_eq!(
        vulkan::IMAGE_LAYOUT_TRANSFER_SRC,
        vk::ImageLayout::TRANSFER_SRC_OPTIMAL.as_raw()
    );
    assert_eq!(
        vulkan::IMAGE_LAYOUT_TRANSFER_DST,
        vk::ImageLayout::TRANSFER_DST_OPTIMAL.as_raw()
    );
    assert_eq!(
        vulkan::IMAGE_ASPECT_COLOR,
        vk::ImageAspectFlags::COLOR.as_raw()
    );
    assert_eq!(
        vulkan::IMAGE_ASPECT_MEMORY_PLANE_0,
        vk::ImageAspectFlags::MEMORY_PLANE_0_EXT.as_raw()
    );
    assert_eq!(vulkan::ACCESS_NONE, vk::AccessFlags::empty().as_raw());
    assert_eq!(
        vulkan::ACCESS_TRANSFER_READ,
        vk::AccessFlags::TRANSFER_READ.as_raw()
    );
    assert_eq!(
        vulkan::ACCESS_TRANSFER_WRITE,
        vk::AccessFlags::TRANSFER_WRITE.as_raw()
    );
    assert_eq!(
        vulkan::ACCESS_MEMORY_READ,
        vk::AccessFlags::MEMORY_READ.as_raw()
    );
    assert_eq!(
        vulkan::STAGE_TRANSFER,
        vk::PipelineStageFlags::TRANSFER.as_raw()
    );
    assert_eq!(
        vulkan::STAGE_ALL_COMMANDS,
        vk::PipelineStageFlags::ALL_COMMANDS.as_raw()
    );
    assert_eq!(vulkan::QUEUE_FAMILY_IGNORED, vk::QUEUE_FAMILY_IGNORED);
    assert_eq!(vulkan::QUEUE_FAMILY_FOREIGN, vk::QUEUE_FAMILY_FOREIGN_EXT);
    assert_eq!(
        vulkan::COMMAND_POOL_RESET_COMMAND_BUFFER,
        vk::CommandPoolCreateFlags::RESET_COMMAND_BUFFER.as_raw()
    );
    assert_eq!(
        vulkan::COMMAND_BUFFER_LEVEL_PRIMARY,
        vk::CommandBufferLevel::PRIMARY.as_raw()
    );
    assert_eq!(
        vulkan::COMMAND_BUFFER_RESET_NONE,
        vk::CommandBufferResetFlags::empty().as_raw()
    );
    assert_eq!(
        vulkan::COMMAND_BUFFER_ONE_TIME_SUBMIT,
        vk::CommandBufferUsageFlags::ONE_TIME_SUBMIT.as_raw()
    );
}

const OFFERED: [u64; 3] = [30, 10, 20];

fn support(supported: bool, features: u32, handle_types: u32) -> CreationReply {
    CreationReply::Support {
        supported,
        features,
        handle_types,
    }
}

/// A serial number, the first that is handed out.
fn serial() -> SlotSerial {
    SlotSerials::new().issue().unwrap()
}

fn creation(replies: &[CreationReply]) -> Creation {
    creation_under(serial(), replies)
}

fn creation_under(serial: SlotSerial, replies: &[CreationReply]) -> Creation {
    let mut creation = ExportSlot::create(serial, 640, 480, &OFFERED, 2, 9, true, true);
    for reply in replies {
        creation.step(*reply);
    }
    creation
}

/// What the device answers when everything works and two of three modifiers can be exported.
fn all_replies() -> Vec<CreationReply> {
    vec![
        support(true, 0x2, 0x200),
        support(true, 0x1, 0x200),
        support(true, 0x7, 0x3ff),
        CreationReply::Object(Ok(100)),
        CreationReply::Modifier(Ok(20)),
        CreationReply::Requirements {
            size: 4096,
            type_bits: 6,
        },
        CreationReply::MemoryType(Some(1)),
        CreationReply::Object(Ok(101)),
        CreationReply::Bound(Ok(())),
        CreationReply::Layout {
            offset: 64,
            row_pitch: 2560,
        },
        CreationReply::Object(Ok(102)),
        CreationReply::Object(Ok(103)),
        CreationReply::Object(Ok(104)),
        CreationReply::Descriptor(Ok(7)),
    ]
}

fn slot() -> ExportSlot {
    creation(&all_replies()).finish().ok().unwrap()
}

fn parts() -> SlotParts {
    SlotParts {
        serial: 0,
        slot_id: 2,
        image: 100,
        memory: 101,
        semaphore: 102,
        command_pool: 103,
        command_buffer: 104,
        width: 640,
        height: 480,
        modifier: 20,
        offset: 64,
        stride: 2560,
    }
}

#[test]
fn creation_names_its_device_calls() {
    let traits = ImageTraits {
        format: 44,
        image_type: 1,
        tiling: 1_000_158_000,
        usage: 6,
        flags: 0,
        sharing_mode: 0,
        handle_types: 0x200,
    };
    let query = |modifier| CreationAction::QueryModifier { modifier, traits };
    let actions = [
        query(30),
        query(10),
        query(20),
        CreationAction::CreateImage {
            recipe: ImageRecipe {
                traits,
                width: 640,
                height: 480,
                depth: 1,
                mip_levels: 1,
                array_layers: 1,
                samples: 1,
                initial_layout: 0,
            },
        },
        CreationAction::QueryImageModifier { image: 100 },
        CreationAction::QueryRequirements { image: 100 },
        CreationAction::FindMemoryType { type_bits: 6 },
        CreationAction::AllocateMemory {
            size: 4096,
            memory_type: 1,
            handle_types: 0x200,
            image: 100,
        },
        CreationAction::BindMemory {
            image: 100,
            memory: 101,
            offset: 0,
        },
        CreationAction::QueryLayout {
            image: 100,
            aspect: 0x80,
        },
        CreationAction::CreateSemaphore { handle_types: 0x10 },
        CreationAction::CreateCommandPool {
            queue_family: 9,
            flags: 2,
        },
        CreationAction::AllocateCommandBuffer {
            command_pool: 103,
            level: 0,
            count: 1,
        },
        CreationAction::ExportMemory {
            memory: 101,
            handle_type: 0x200,
        },
    ];
    let replies = all_replies();
    let mut creation = creation(&[]);
    for (action, reply) in actions.iter().zip(&replies) {
        assert_eq!(creation.action(), *action);
        creation.step(*reply);
    }
    assert_eq!(creation.action(), CreationAction::Finish);
    assert_eq!(creation.compatible(), &[30, 20]);
    assert_eq!(
        creation.phase(),
        CreationPhase::Created {
            parts: parts(),
            probe_fd: 7,
        }
    );
    let slot = creation.finish().ok().unwrap();
    assert_eq!(slot.parts(), parts());
    assert!(slot.available());
}

#[test]
fn creation_hands_out_no_slot_before_it_has_one() {
    let replies = all_replies();
    let unfinished = creation(&replies[..13]).finish().err().unwrap();
    assert!(matches!(unfinished.phase(), CreationPhase::Probe { .. }));
    let mut failing = unfinished;
    failing.step(CreationReply::Descriptor(Err(-10)));
    let failed = failing.finish().err().unwrap();
    assert!(matches!(failed.phase(), CreationPhase::Failed { .. }));
}

#[test]
fn creation_keeps_only_modifiers_that_can_be_exported() {
    let refused = [
        support(false, 0x2, 0x200),
        support(true, 0x5, 0x200),
        support(true, 0x2, 0x1ff),
    ];
    let creation = creation(&refused);
    assert!(creation.compatible().is_empty());
    assert_eq!(
        creation.phase(),
        CreationPhase::Failed {
            error: ExportError::NoSharedModifier { offered: 3 },
            undo: Undo {
                command_pool: None,
                semaphore: None,
                memory: None,
                image: None
            },
        }
    );
    let nothing_offered = ExportSlot::create(serial(), 1, 1, &[], 0, 0, true, true);
    assert!(matches!(
        nothing_offered.phase(),
        CreationPhase::Failed {
            error: ExportError::NoSharedModifier { offered: 0 },
            ..
        }
    ));
}

#[test]
fn creation_needs_both_kinds_of_descriptors() {
    let failure = |memory, semaphores| {
        match ExportSlot::create(serial(), 1, 1, &OFFERED, 0, 0, memory, semaphores).phase() {
            CreationPhase::Failed { error, undo } => (error, undo.handles()),
            phase => panic!("{:?}", phase),
        }
    };
    assert_eq!(
        failure(false, true),
        (ExportError::MemoryFdUnavailable, vec![])
    );
    assert_eq!(
        failure(false, false),
        (ExportError::MemoryFdUnavailable, vec![])
    );
    assert_eq!(
        failure(true, false),
        (ExportError::SemaphoreFdUnavailable, vec![])
    );
}

#[test]
fn failed_creation_says_what_to_destroy() {
    let image = Handle::Image(100);
    let memory = Handle::Memory(101);
    let semaphore = Handle::Semaphore(102);
    let pool = Handle::CommandPool(103);
    let wide = 1u64 << 32;
    let layout = |offset, row_pitch| CreationReply::Layout { offset, row_pitch };
    let cases = [
        (
            3,
            CreationReply::Object(Err(-1)),
            ExportError::CreateImage(-1),
            vec![],
        ),
        (
            4,
            CreationReply::Modifier(Err(-1)),
            ExportError::QueryModifier(-1),
            vec![image],
        ),
        (
            6,
            CreationReply::MemoryType(None),
            ExportError::NoMemoryType,
            vec![image],
        ),
        (
            7,
            CreationReply::Object(Err(-2)),
            ExportError::AllocateMemory(-2),
            vec![image],
        ),
        (
            8,
            CreationReply::Bound(Err(-2)),
            ExportError::BindImage(-2),
            vec![memory, image],
        ),
        (
            9,
            layout(wide, 1),
            ExportError::PlaneOffset,
            vec![memory, image],
        ),
        (
            9,
            layout(1, wide),
            ExportError::PlaneStride,
            vec![memory, image],
        ),
        (
            9,
            layout(wide, wide),
            ExportError::PlaneOffset,
            vec![memory, image],
        ),
        (
            10,
            CreationReply::Object(Err(-1)),
            ExportError::CreateSemaphore(-1),
            vec![memory, image],
        ),
        (
            11,
            CreationReply::Object(Err(-1)),
            ExportError::CreateCommandPool(-1),
            vec![semaphore, memory, image],
        ),
        (
            12,
            CreationReply::Object(Err(-1)),
            ExportError::AllocateCommandBuffer(-1),
            vec![pool, semaphore, memory, image],
        ),
        (
            13,
            CreationReply::Descriptor(Err(-10)),
            ExportError::ProbeDescriptor(-10),
            vec![pool, semaphore, memory, image],
        ),
    ];
    for (at, reply, expected, handles) in cases {
        let mut replies = all_replies();
        replies.truncate(at);
        replies.push(reply);
        match creation(&replies).phase() {
            CreationPhase::Failed { error, undo } => {
                assert_eq!(error, expected);
                assert_eq!(undo.handles(), handles);
            }
            phase => panic!("{:?}", phase),
        }
    }
}

#[test]
fn largest_plane_layout_fits() {
    let mut replies = all_replies();
    replies.truncate(9);
    replies.push(CreationReply::Layout {
        offset: u32::MAX as u64,
        row_pitch: u32::MAX as u64,
    });
    match creation(&replies).phase() {
        CreationPhase::Semaphore { bound } => {
            assert_eq!((bound.offset, bound.stride), (u32::MAX, u32::MAX));
        }
        phase => panic!("{:?}", phase),
    }
}

#[test]
fn answer_to_another_call_does_not_change_a_creation() {
    let mut creation = creation(&[]);
    creation.step(CreationReply::Object(Ok(1)));
    assert_eq!(creation.phase(), CreationPhase::Survey { next: 0 });
}

#[test]
fn slot_is_destroyed_object_by_object() {
    assert_eq!(
        slot().destroy(),
        vec![
            Handle::CommandPool(103),
            Handle::Semaphore(102),
            Handle::Image(100),
            Handle::Memory(101),
        ]
    );
}

fn source() -> SourceImage {
    SourceImage {
        image: 500,
        stage: 0x400,
        access: 0x100,
        layout: 2,
    }
}

fn run(slot: ExportSlot, replies: &[ExportReply]) -> FrameExport {
    let mut export = slot.publish(3, source(), 9);
    for reply in replies {
        export.step(*reply);
    }
    export
}

fn finish(export: FrameExport) -> ExportEnd {
    export.finish().ok().unwrap()
}

/// Exports a frame, and returns the slot with it.
fn export_frame(slot: ExportSlot) -> (ExportSlot, PublishedFrame<i32, SlotLease>) {
    let end = finish(run(slot, &export_replies()));
    assert_eq!(end.close, None);
    (end.slot, end.outcome.ok().unwrap())
}

fn export_replies() -> Vec<ExportReply> {
    vec![
        ExportReply::Status(Ok(())),
        ExportReply::Status(Ok(())),
        ExportReply::Recorded,
        ExportReply::Status(Ok(())),
        ExportReply::Status(Ok(())),
        ExportReply::Descriptor(Some(Ok(40))),
        ExportReply::Descriptor(Some(Ok(41))),
    ]
}

#[test]
fn export_lends_the_slot_until_it_is_released() {
    let slot = slot();
    assert!(slot.available());
    let (slot, mut published) = export_frame(slot);
    assert!(!slot.available());
    assert_eq!(published.plane_fds, vec![40]);
    assert_eq!(published.acquire_fence, Some(41));
    let frame = published.frame;
    assert_eq!((frame.display_id, frame.slot_id), (3, 2));
    assert_eq!((frame.width, frame.height), (640, 480));
    assert_eq!(frame.drm_format, u32::from_le_bytes(*b"XR24"));
    assert_eq!(frame.modifier, 20);
    assert_eq!(frame.plane_count, 1);
    assert!(frame.has_acquire_fence);
    assert_eq!(
        frame.planes,
        [
            Plane {
                offset: 64,
                stride: 2560
            },
            Plane::default(),
            Plane::default(),
            Plane::default(),
        ]
    );
    assert!(frame.encode().is_some());

    let refused = run(slot, &export_replies());
    assert_eq!(refused.action(), ExportAction::Finish);
    let end = finish(refused);
    assert_eq!(end.outcome.err(), Some(ExportError::SlotBusy));
    let mut slot = end.slot;
    assert!(!slot.available());
    assert_eq!(slot.release(published.take_release().unwrap()), None);
    assert!(slot.available());
    assert_eq!(run(slot, &[]).phase(), ExportPhase::Reset);
}

#[test]
fn serial_numbers_are_handed_out_once() {
    let mut serials = SlotSerials::new();
    let first = serials.issue().unwrap();
    let second = serials.issue().unwrap();
    assert_ne!(first, second);
    let slot = creation_under(second, &all_replies()).finish().ok().unwrap();
    assert_eq!(slot.parts(), SlotParts { serial: 1, ..parts() });
}

#[test]
fn lease_of_another_slot_changes_nothing() {
    let mut serials = SlotSerials::new();
    let mut replies = all_replies();
    let slot = creation_under(serials.issue().unwrap(), &replies).finish().ok().unwrap();
    replies[3] = CreationReply::Object(Ok(200));
    let other = creation_under(serials.issue().unwrap(), &replies).finish().ok().unwrap();
    let (mut other, mut foreign) = export_frame(other);
    let (mut slot, mut own) = export_frame(slot);
    let lease = slot.release(foreign.take_release().unwrap()).unwrap();
    assert!(!slot.available());
    assert!(!other.available());
    assert_eq!(other.release(lease), None);
    assert!(other.available());
    assert!(!slot.available());
    assert_eq!(slot.release(own.take_release().unwrap()), None);
    assert!(slot.available());
}

#[test]
fn lease_of_a_destroyed_slot_does_not_free_one_of_the_same_objects() {
    let mut serials = SlotSerials::new();
    let replies = all_replies();
    let first = creation_under(serials.issue().unwrap(), &replies).finish().ok().unwrap();
    let (first, mut late) = export_frame(first);
    let objects = first.destroy();
    let second = creation_under(serials.issue().unwrap(), &replies).finish().ok().unwrap();
    let (mut second, mut own) = export_frame(second);
    let lease = late.take_release().unwrap();
    assert!(second.release(lease).is_some());
    assert!(!second.available());
    assert_eq!(second.release(own.take_release().unwrap()), None);
    assert!(second.available());
    assert_eq!(second.destroy(), objects);
}

#[test]
fn export_gives_the_slot_back_only_when_it_has_ended() {
    let replies = export_replies();
    let mut export = run(slot(), &replies[..6]).finish().err().unwrap();
    assert_eq!(export.phase(), ExportPhase::Fence { memory_fd: 40 });
    export.step(replies[6]);
    assert!(!finish(export).slot.available());
}

#[test]
fn export_names_its_device_calls() {
    let mut export = run(slot(), &[]);
    let mut actions = Vec::new();
    for reply in export_replies() {
        actions.push(export.action());
        export.step(reply);
    }
    assert_eq!(
        actions[0],
        ExportAction::ResetCommandBuffer {
            command_buffer: 104,
            flags: 0
        }
    );
    assert_eq!(
        actions[1],
        ExportAction::BeginCommandBuffer {
            command_buffer: 104,
            flags: 1
        }
    );
    assert!(matches!(actions[2], ExportAction::RecordCopy { .. }));
    assert_eq!(
        actions[3],
        ExportAction::EndCommandBuffer {
            command_buffer: 104
        }
    );
    assert_eq!(
        actions[4],
        ExportAction::SubmitCopy {
            command_buffer: 104,
            semaphore: 102
        }
    );
    assert_eq!(
        actions[5],
        ExportAction::ExportMemory {
            memory: 101,
            handle_type: 0x200
        }
    );
    assert_eq!(
        actions[6],
        ExportAction::ExportFence {
            semaphore: 102,
            handle_type: 0x10
        }
    );
    assert_eq!(export.action(), ExportAction::Finish);
}

#[test]
fn reuse_takes_the_image_back_from_the_foreign_queue_family() {
    let plan = |slot: ExportSlot| match run(slot, &export_replies()[..2]).action() {
        ExportAction::RecordCopy { plan } => plan,
        action => panic!("{:?}", action),
    };
    let first = plan(slot());
    assert_eq!(first.command_buffer, 104);
    assert_eq!(first.acquire_src_stage, 0x1_0400);
    assert_eq!(first.acquire_dst_stage, 0x1000);
    assert_eq!((first.source.image, first.target.image), (500, 100));
    assert_eq!((first.source.src_access, first.source.dst_access), (0x100, 0x800));
    assert_eq!((first.source.old_layout, first.source.new_layout), (2, 6));
    assert_eq!((first.target.src_access, first.target.dst_access), (0, 0x1000));
    assert_eq!((first.target.old_layout, first.target.new_layout), (0, 7));
    assert_eq!(
        (first.target.src_queue_family, first.target.dst_queue_family),
        (vk::QUEUE_FAMILY_IGNORED, vk::QUEUE_FAMILY_IGNORED)
    );
    assert_eq!((first.copy.source, first.copy.target), (500, 100));
    assert_eq!((first.copy.width, first.copy.height, first.copy.depth), (640, 480, 1));
    assert_eq!(first.release_src_stage, 0x1000);
    assert_eq!(first.release_dst_stage, 0x1_0000);
    assert_eq!((first.release.old_layout, first.release.new_layout), (7, 1));
    assert_eq!(
        (first.release.src_queue_family, first.release.dst_queue_family),
        (9, vk::QUEUE_FAMILY_FOREIGN_EXT)
    );

    let (mut slot, mut published) = export_frame(slot());
    slot.release(published.take_release().unwrap());
    let second = plan(slot);
    assert_eq!((second.target.src_access, second.target.dst_access), (0x8000, 0x1000));
    assert_eq!((second.target.old_layout, second.target.new_layout), (1, 7));
    assert_eq!(
        (second.target.src_queue_family, second.target.dst_queue_family),
        (vk::QUEUE_FAMILY_FOREIGN_EXT, 9)
    );
    assert_eq!(second.release, first.release);
}

#[test]
fn failed_export_leaves_the_slot_available() {
    let status = ExportReply::Status(Err(-4));
    let gone = ExportReply::Descriptor(None);
    let refused = ExportReply::Descriptor(Some(Err(-5)));
    let cases = [
        (0, status, ExportError::ResetCommandBuffer(-4), false, None),
        (1, status, ExportError::BeginCommandBuffer(-4), false, None),
        (3, status, ExportError::EndCommandBuffer(-4), false, None),
        (4, status, ExportError::SubmitCopy(-4), false, None),
        (5, gone, ExportError::MemoryLoaderGone, true, None),
        (5, refused, ExportError::ExportMemory(-5), true, None),
        (6, gone, ExportError::SemaphoreLoaderGone, true, Some(40)),
        (6, refused, ExportError::ExportFence(-5), true, Some(40)),
    ];
    for (at, reply, expected, transitioned, close) in cases {
        let mut replies = export_replies();
        replies.truncate(at);
        replies.push(reply);
        let end = finish(run(slot(), &replies));
        assert_eq!(end.outcome.err(), Some(expected));
        assert_eq!(end.close, close);
        assert!(end.slot.available());
        let next = run(end.slot, &export_replies()[..2]);
        match next.action() {
            ExportAction::RecordCopy { plan } => assert_eq!(
                plan.target.src_queue_family == vk::QUEUE_FAMILY_FOREIGN_EXT,
                transitioned
            ),
            action => panic!("{:?}", action),
        }
    }
}

#[test]
fn failures_are_worded_with_the_name_of_the_result() {
    let lost = vk::Result::ERROR_DEVICE_LOST.as_raw();
    assert_eq!(
        ExportError::CreateImage(lost).message(),
        "create export image failed: ERROR_DEVICE_LOST"
    );
    assert_eq!(
        ExportError::SubmitCopy(-123_456).message(),
        "submit export copy failed: -123456"
    );
    assert_eq!(ExportError::BindImage(lost).code(), Some(lost));
    let cases = [
        (ExportError::QueryModifier(0), "query chosen DRM modifier failed: X"),
        (ExportError::AllocateMemory(0), "allocate export memory failed: X"),
        (ExportError::BindImage(0), "bind export image failed: X"),
        (ExportError::CreateSemaphore(0), "create export semaphore failed: X"),
        (ExportError::CreateCommandPool(0), "create export command pool failed: X"),
        (
            ExportError::AllocateCommandBuffer(0),
            "allocate export command buffer failed: X",
        ),
        (ExportError::ProbeDescriptor(0), "export DMA-BUF fd failed: X"),
        (ExportError::ResetCommandBuffer(0), "reset export command buffer failed: X"),
        (ExportError::BeginCommandBuffer(0), "begin export command buffer failed: X"),
        (ExportError::EndCommandBuffer(0), "end export command buffer failed: X"),
        (ExportError::ExportMemory(0), "export frame DMA-BUF failed: X"),
        (ExportError::ExportFence(0), "export acquire sync-fd failed: X"),
    ];
    for (error, text) in cases {
        assert_eq!(error.message_with("X"), text);
    }
}

#[test]
fn failures_without_a_result_have_a_text_of_their_own() {
    let cases = [
        (
            ExportError::MemoryFdUnavailable,
            "VK_KHR_external_memory_fd unavailable",
        ),
        (
            ExportError::SemaphoreFdUnavailable,
            "VK_KHR_external_semaphore_fd unavailable",
        ),
        (
            ExportError::NoSharedModifier { offered: 1203 },
            "no exportable B8G8R8A8 DMA-BUF modifier overlaps compositor offers (1203)",
        ),
        (
            ExportError::NoSharedModifier { offered: 0 },
            "no exportable B8G8R8A8 DMA-BUF modifier overlaps compositor offers (0)",
        ),
        (
            ExportError::NoMemoryType,
            "no device-local memory type for export image",
        ),
        (
            ExportError::PlaneOffset,
            "export image plane offset exceeds protocol",
        ),
        (
            ExportError::PlaneStride,
            "export image stride exceeds protocol",
        ),
        (
            ExportError::SlotBusy,
            "export slot is still owned by compositor",
        ),
        (
            ExportError::MemoryLoaderGone,
            "DMA-BUF export loader disappeared",
        ),
        (
            ExportError::SemaphoreLoaderGone,
            "sync-fd export loader disappeared",
        ),
    ];
    for (error, text) in cases {
        assert_eq!(error.message(), text);
        assert_eq!(error.message_with("X"), text);
        assert_eq!(error.code(), None);
    }
}
