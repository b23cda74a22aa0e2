//! Frame bridge between a virtual GPU and the compositor session that shows its frames.
//!
//! The publisher exports its images as DMA-BUF and hands them to the compositor over a local
//! socket, without a window of its own. This crate holds the decisions of that path; the calls
//! into the operating system and into the device are left to the program around it, which asks
//! for the next call and reports what it returned.
//!
//! - [`wire`]: the bytes of headers and frames.
//! - [`ready`]: the answers of the compositor.
//! - [`connection`]: the handshake, and the exchange of one frame.
//! - [`publisher`]: latest-frame-wins publication.
//! - [`creation`] and [`slot`]: export slots, from their creation to their destruction.
//! - [`serial`]: what tells slots apart.
//!
//! What holds of each of them as a whole stands beside it, in the modules that end in `_laws`; what
//! holds of slots and publication together stands in [`lending_laws`].

pub mod connection;
pub mod connection_laws;
pub mod creation;
pub mod creation_laws;
pub mod error;
pub mod error_laws;
pub mod export_error;
pub mod le;
pub mod lending_laws;
pub mod publisher;
pub mod publisher_laws;
pub mod ready;
pub mod ready_laws;
pub mod serial;
pub mod slot;
pub mod slot_laws;
pub mod vulkan;
pub mod wire;
pub mod wire_laws;

pub use connection::Connection;
pub use publisher::{PublishedFrame, Publisher};
pub use serial::SlotSerials;
pub use slot::{ExportSlot, SlotLease};
pub use wire::{
    Frame, Header, Kind, Plane, FRAME_LEN, HEADER_LEN, MAGIC, MAX_PLANES, READY_ENTRY_LEN,
    READY_MAX_ENTRIES, VERSION,
};
