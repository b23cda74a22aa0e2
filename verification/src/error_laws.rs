//! What holds of failures and of how they are worded.

use vstd::prelude::*;

#[allow(unused_imports)]
use crate::error::{BridgeError, FailureClass};
#[allow(unused_imports)]
use crate::export_error::{decimal, digit, ExportError};

verus! {

/// A failure of the operating system keeps its error number. What the caller handed over wrongly is
/// an invalid input; what the other side sent wrongly is invalid data.
pub proof fn law_failure_classes(error: BridgeError, errno: i32)
    ensures
        error.spec_class() == FailureClass::Os(errno) <==> error == BridgeError::Os(errno),
        error.spec_class() == FailureClass::InvalidInput <==> {
            ||| error == BridgeError::PathLength
            ||| error == BridgeError::DescriptorCount
            ||| error == BridgeError::InvalidFrame
        },
        error.spec_class() == FailureClass::InvalidData <==> {
            ||| error == BridgeError::InvalidReady
            ||| error == BridgeError::NotAcknowledged
            ||| error == BridgeError::NoModifierCount
            ||| error == BridgeError::MalformedModifiers
            ||| error == BridgeError::UnsupportedFormat
            ||| error == BridgeError::InvalidRelease
            ||| error == BridgeError::WrongRelease
        },
{
}

/// The operating system words its own failures, whatever their numbers, and no others: every other
/// failure has one text, whatever the operating system would say.
pub proof fn law_failure_texts(errno: i32, os: Seq<char>)
    ensures
        BridgeError::Os(errno).text() is None,
        BridgeError::Os(errno).text_with(os) == os,
        BridgeError::PathLength.text_with(os) == "frame bridge socket path is empty or too long"@,
        BridgeError::InvalidReady.text_with(os) == "invalid bridge Ready packet"@,
        BridgeError::NotAcknowledged.text_with(os) == "bridge did not acknowledge Hello"@,
        BridgeError::NoModifierCount.text_with(os) == "bridge Ready packet has no modifier count"@,
        BridgeError::MalformedModifiers.text_with(os) == "bridge Ready modifier list is malformed"@,
        BridgeError::UnsupportedFormat.text_with(os)
            == "bridge Ready contains an unsupported format entry"@,
        BridgeError::DescriptorCount.text_with(os)
            == "frame metadata and descriptor count disagree"@,
        BridgeError::InvalidFrame.text_with(os) == "invalid frame metadata"@,
        BridgeError::InvalidRelease.text_with(os) == "invalid bridge Release packet"@,
        BridgeError::WrongRelease.text_with(os) == "bridge released the wrong frame"@,
{
}

/// The number that a text of digits stands for, the most significant digit first.
pub open spec fn decimal_value(text: Seq<char>) -> int
    decreases text.len(),
{
    if text.len() == 0 {
        0
    } else {
        10 * decimal_value(text.drop_last()) + (text.last() as int - '0' as int)
    }
}

/// The decimal notation of a number stands for that number, is made of digits alone, and starts
/// with a zero only where it is the number zero.
pub proof fn law_decimal_notation(value: nat)
    ensures
        decimal_value(decimal(value)) == value,
        decimal(value).len() > 0,
        forall|i: int|
            0 <= i < decimal(value).len() ==> '0' <= #[trigger] decimal(value)[i] <= '9',
        value > 0 ==> decimal(value)[0] != '0',
        value == 0 ==> decimal(value) == seq!['0'],
    decreases value,
{
    let text = decimal(value);
    if value < 10 {
        assert(text.drop_last() =~= Seq::<char>::empty());
        assert(decimal_value(text.drop_last()) == 0);
        assert(text.last() as int == '0' as int + value);
    } else {
        let rest = decimal(value / 10);
        law_decimal_notation(value / 10);
        assert(text.drop_last() =~= rest);
        assert(text.last() == digit(value % 10));
        assert(digit(value % 10) as int == '0' as int + value % 10);
        assert forall|i: int| 0 <= i < text.len() implies '0' <= #[trigger] text[i] <= '9' by {
            if i < rest.len() {
                assert(text[i] == rest[i]);
            }
        }
        assert(text[0] == rest[0]);
    }
}

/// Where a call failed, the text says which, and then what its result code is called, whatever the
/// code; and it is that code which is looked up.
pub proof fn law_failed_calls_are_worded_alike(code: i32, result: Seq<char>)
    ensures
        ExportError::CreateImage(code).text(result) == "create export image failed: "@ + result,
        ExportError::QueryModifier(code).text(result) == "query chosen DRM modifier failed: "@
            + result,
        ExportError::AllocateMemory(code).text(result) == "allocate export memory failed: "@
            + result,
        ExportError::BindImage(code).text(result) == "bind export image failed: "@ + result,
        ExportError::CreateSemaphore(code).text(result) == "create export semaphore failed: "@
            + result,
        ExportError::CreateCommandPool(code).text(result)
            == "create export command pool failed: "@ + result,
        ExportError::AllocateCommandBuffer(code).text(result)
            == "allocate export command buffer failed: "@ + result,
        ExportError::ProbeDescriptor(code).text(result) == "export DMA-BUF fd failed: "@ + result,
        ExportError::ResetCommandBuffer(code).text(result)
            == "reset export command buffer failed: "@ + result,
        ExportError::BeginCommandBuffer(code).text(result)
            == "begin export command buffer failed: "@ + result,
        ExportError::EndCommandBuffer(code).text(result) == "end export command buffer failed: "@
            + result,
        ExportError::SubmitCopy(code).text(result) == "submit export copy failed: "@ + result,
        ExportError::ExportMemory(code).text(result) == "export frame DMA-BUF failed: "@ + result,
        ExportError::ExportFence(code).text(result) == "export acquire sync-fd failed: "@ + result,
        ExportError::CreateImage(code).spec_code() == Some(code),
        ExportError::QueryModifier(code).spec_code() == Some(code),
        ExportError::AllocateMemory(code).spec_code() == Some(code),
        ExportError::BindImage(code).spec_code() == Some(code),
        ExportError::CreateSemaphore(code).spec_code() == Some(code),
        ExportError::CreateCommandPool(code).spec_code() == Some(code),
        ExportError::AllocateCommandBuffer(code).spec_code() == Some(code),
        ExportError::ProbeDescriptor(code).spec_code() == Some(code),
        ExportError::ResetCommandBuffer(code).spec_code() == Some(code),
        ExportError::BeginCommandBuffer(code).spec_code() == Some(code),
        ExportError::EndCommandBuffer(code).spec_code() == Some(code),
        ExportError::SubmitCopy(code).spec_code() == Some(code),
        ExportError::ExportMemory(code).spec_code() == Some(code),
        ExportError::ExportFence(code).spec_code() == Some(code),
{
}

/// Where no call failed, there is no code to look up, and the text is complete in itself: no result
/// shows in it. That of an offer without a usable modifier tells how many were offered.
pub proof fn law_other_failures_are_worded_alone(offered: usize, result: Seq<char>)
    ensures
        ExportError::MemoryFdUnavailable.text(result) == "VK_KHR_external_memory_fd unavailable"@,
        ExportError::SemaphoreFdUnavailable.text(result)
            == "VK_KHR_external_semaphore_fd unavailable"@,
        (ExportError::NoSharedModifier { offered }).text(result)
            == "no exportable B8G8R8A8 DMA-BUF modifier overlaps compositor offers ("@ + decimal(
            offered as nat,
        ) + ")"@,
        ExportError::NoMemoryType.text(result) == "no device-local memory type for export image"@,
        ExportError::PlaneOffset.text(result) == "export image plane offset exceeds protocol"@,
        ExportError::PlaneStride.text(result) == "export image stride exceeds protocol"@,
        ExportError::SlotBusy.text(result) == "export slot is still owned by compositor"@,
        ExportError::MemoryLoaderGone.text(result) == "DMA-BUF export loader disappeared"@,
        ExportError::SemaphoreLoaderGone.text(result) == "sync-fd export loader disappeared"@,
        ExportError::MemoryFdUnavailable.spec_code() is None,
        ExportError::SemaphoreFdUnavailable.spec_code() is None,
        (ExportError::NoSharedModifier { offered }).spec_code() is None,
        ExportError::NoMemoryType.spec_code() is None,
        ExportError::PlaneOffset.spec_code() is None,
        ExportError::PlaneStride.spec_code() is None,
        ExportError::SlotBusy.spec_code() is None,
        ExportError::MemoryLoaderGone.spec_code() is None,
        ExportError::SemaphoreLoaderGone.spec_code() is None,
{
}

} // verus!
