//! What can go wrong when images are exported.

use vstd::prelude::*;

#[allow(unused_imports)]
use crate::vulkan::result_name;
use crate::vulkan::result_text;

verus! {

/// Why no slot could be created, or why a slot could not publish a frame. A number is the result
/// code of the call that failed.
#[derive(Clone, Copy, Debug, PartialEq, Eq, Structural)]
pub enum ExportError {
    MemoryFdUnavailable,
    SemaphoreFdUnavailable,
    /// None of the offered modifiers, as many as stated, can be exported.
    NoSharedModifier { offered: usize },
    CreateImage(i32),
    QueryModifier(i32),
    NoMemoryType,
    AllocateMemory(i32),
    BindImage(i32),
    PlaneOffset,
    PlaneStride,
    CreateSemaphore(i32),
    CreateCommandPool(i32),
    AllocateCommandBuffer(i32),
    ProbeDescriptor(i32),
    SlotBusy,
    ResetCommandBuffer(i32),
    BeginCommandBuffer(i32),
    EndCommandBuffer(i32),
    SubmitCopy(i32),
    MemoryLoaderGone,
    ExportMemory(i32),
    SemaphoreLoaderGone,
    ExportFence(i32),
}

/// The digit of a number below ten.
pub open spec fn digit(value: nat) -> char {
    if value == 0 {
        '0'
    } else if value == 1 {
        '1'
    } else if value == 2 {
        '2'
    } else if value == 3 {
        '3'
    } else if value == 4 {
        '4'
    } else if value == 5 {
        '5'
    } else if value == 6 {
        '6'
    } else if value == 7 {
        '7'
    } else if value == 8 {
        '8'
    } else {
        '9'
    }
}

/// A number in decimal notation.
pub open spec fn decimal(value: nat) -> Seq<char>
    decreases value,
{
    if value < 10 {
        seq![digit(value)]
    } else {
        decimal(value / 10).push(digit(value % 10))
    }
}

/// The digit of a number below ten.
fn digit_text(value: u64) -> (text: &'static str)
    requires
        value < 10,
    ensures
        text@ == seq![digit(value as nat)],
{
    proof {
        reveal_strlit("0");
        reveal_strlit("1");
        reveal_strlit("2");
        reveal_strlit("3");
        reveal_strlit("4");
        reveal_strlit("5");
        reveal_strlit("6");
        reveal_strlit("7");
        reveal_strlit("8");
        reveal_strlit("9");
    }
    match value {
        0 => "0",
        1 => "1",
        2 => "2",
        3 => "3",
        4 => "4",
        5 => "5",
        6 => "6",
        7 => "7",
        8 => "8",
        _ => "9",
    }
}

/// A number in decimal notation.
fn decimal_text(value: u64) -> (text: String)
    ensures
        text@ == decimal(value as nat),
    decreases value,
{
    if value < 10 {
        digit_text(value).to_owned()
    } else {
        let mut text = decimal_text(value / 10);
        text.append(digit_text(value % 10));
        assert(text@ =~= decimal(value as nat));
        text
    }
}

impl ExportError {
    /// The result code of the call that failed.
    pub open spec fn spec_code(self) -> Option<i32> {
        match self {
            ExportError::CreateImage(code)
            | ExportError::QueryModifier(code)
            | ExportError::AllocateMemory(code)
            | ExportError::BindImage(code)
            | ExportError::CreateSemaphore(code)
            | ExportError::CreateCommandPool(code)
            | ExportError::AllocateCommandBuffer(code)
            | ExportError::ProbeDescriptor(code)
            | ExportError::ResetCommandBuffer(code)
            | ExportError::BeginCommandBuffer(code)
            | ExportError::EndCommandBuffer(code)
            | ExportError::SubmitCopy(code)
            | ExportError::ExportMemory(code)
            | ExportError::ExportFence(code) => Some(code),
            _ => None,
        }
    }

    /// The result code of the call that failed, if a call failed.
    pub fn code(&self) -> (code: Option<i32>)
        ensures
            code == self.spec_code(),
    {
        match *self {
            ExportError::CreateImage(code)
            | ExportError::QueryModifier(code)
            | ExportError::AllocateMemory(code)
            | ExportError::BindImage(code)
            | ExportError::CreateSemaphore(code)
            | ExportError::CreateCommandPool(code)
            | ExportError::AllocateCommandBuffer(code)
            | ExportError::ProbeDescriptor(code)
            | ExportError::ResetCommandBuffer(code)
            | ExportError::BeginCommandBuffer(code)
            | ExportError::EndCommandBuffer(code)
            | ExportError::SubmitCopy(code)
            | ExportError::ExportMemory(code)
            | ExportError::ExportFence(code) => Some(code),
            _ => None,
        }
    }

    /// The text of a failure, up to the text of the result code where there is one.
    pub open spec fn label(self) -> Seq<char> {
        match self {
            ExportError::MemoryFdUnavailable => "VK_KHR_external_memory_fd unavailable"@,
            ExportError::SemaphoreFdUnavailable => "VK_KHR_external_semaphore_fd unavailable"@,
            ExportError::NoSharedModifier { offered } =>
                "no exportable B8G8R8A8 DMA-BUF modifier overlaps compositor offers ("@ + decimal(
                offered as nat,
            ) + ")"@,
            ExportError::CreateImage(_) => "create export image failed: "@,
            ExportError::QueryModifier(_) => "query chosen DRM modifier failed: "@,
            ExportError::NoMemoryType => "no device-local memory type for export image"@,
            ExportError::AllocateMemory(_) => "allocate export memory failed: "@,
            ExportError::BindImage(_) => "bind export image failed: "@,
            ExportError::PlaneOffset => "export image plane offset exceeds protocol"@,
            ExportError::PlaneStride => "export image stride exceeds protocol"@,
            ExportError::CreateSemaphore(_) => "create export semaphore failed: "@,
            ExportError::CreateCommandPool(_) => "create export command pool failed: "@,
            ExportError::AllocateCommandBuffer(_) => "allocate export command buffer failed: "@,
            ExportError::ProbeDescriptor(_) => "export DMA-BUF fd failed: "@,
            ExportError::SlotBusy => "export slot is still owned by compositor"@,
            ExportError::ResetCommandBuffer(_) => "reset export command buffer failed: "@,
            ExportError::BeginCommandBuffer(_) => "begin export command buffer failed: "@,
            ExportError::EndCommandBuffer(_) => "end export command buffer failed: "@,
            ExportError::SubmitCopy(_) => "submit export copy failed: "@,
            ExportError::MemoryLoaderGone => "DMA-BUF export loader disappeared"@,
            ExportError::ExportMemory(_) => "export frame DMA-BUF failed: "@,
            ExportError::SemaphoreLoaderGone => "sync-fd export loader disappeared"@,
            ExportError::ExportFence(_) => "export acquire sync-fd failed: "@,
        }
    }

    /// The text of a failure, where `result` is the text of its result code.
    pub open spec fn text(self, result: Seq<char>) -> Seq<char> {
        if self.spec_code() is Some {
            self.label() + result
        } else {
            self.label()
        }
    }

    /// The text of this failure, up to the text of the result code where there is one.
    fn label_text(&self) -> (text: String)
        ensures
            text@ == self.label(),
    {
        let label = match *self {
            ExportError::MemoryFdUnavailable => "VK_KHR_external_memory_fd unavailable",
            ExportError::SemaphoreFdUnavailable => "VK_KHR_external_semaphore_fd unavailable",
            ExportError::NoSharedModifier { offered } => {
                let mut text =
                    "no exportable B8G8R8A8 DMA-BUF modifier overlaps compositor offers (".to_owned();
                text.append(decimal_text(offered as u64).as_str());
                text.append(")");
                return text;
            },
            ExportError::CreateImage(_) => "create export image failed: ",
            ExportError::QueryModifier(_) => "query chosen DRM modifier failed: ",
            ExportError::NoMemoryType => "no device-local memory type for export image",
            ExportError::AllocateMemory(_) => "allocate export memory failed: ",
            ExportError::BindImage(_) => "bind export image failed: ",
            ExportError::PlaneOffset => "export image plane offset exceeds protocol",
            ExportError::PlaneStride => "export image stride exceeds protocol",
            ExportError::CreateSemaphore(_) => "create export semaphore failed: ",
            ExportError::CreateCommandPool(_) => "create export command pool failed: ",
            ExportError::AllocateCommandBuffer(_) => "allocate export command buffer failed: ",
            ExportError::ProbeDescriptor(_) => "export DMA-BUF fd failed: ",
            ExportError::SlotBusy => "export slot is still owned by compositor",
            ExportError::ResetCommandBuffer(_) => "reset export command buffer failed: ",
            ExportError::BeginCommandBuffer(_) => "begin export command buffer failed: ",
            ExportError::EndCommandBuffer(_) => "end export command buffer failed: ",
            ExportError::SubmitCopy(_) => "submit export copy failed: ",
            ExportError::MemoryLoaderGone => "DMA-BUF export loader disappeared",
            ExportError::ExportMemory(_) => "export frame DMA-BUF failed: ",
            ExportError::SemaphoreLoaderGone => "sync-fd export loader disappeared",
            ExportError::ExportFence(_) => "export acquire sync-fd failed: ",
        };
        label.to_owned()
    }

    /// The text of this failure, where `result` is the text of its result code.
    pub fn message_with(&self, result: &str) -> (message: String)
        ensures
            message@ == self.text(result@),
    {
        let mut message = self.label_text();
        if self.code().is_some() {
            message.append(result);
        }
        message
    }

    /// The text of this failure, with the text that belongs to its result code.
    pub fn message(&self) -> (message: String)
        ensures
            message@ == match self.spec_code() {
                Some(code) => self.text(result_name(code)),
                None => self.label(),
            },
    {
        match self.code() {
            Some(code) => self.message_with(result_text(code).as_str()),
            None => self.label_text(),
        }
    }
}

} // verus!
