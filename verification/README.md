# Frame bridge

The direct presentation path connects a virtual GPU to the compositor session that shows its
frames, without a window or a swapchain of its own. It is a local `SOCK_SEQPACKET` protocol with
little-endian fields.

The publisher sends `Hello`, the compositor answers `Ready` with the XR24 modifiers that it can
import, and each `Frame` carries one DMA-BUF descriptor per plane, followed by an acquire fence when
the frame says so. A frame is given up only when its exchange ends: with the `Release` of its
sequence, or with the connection. Publication is latest-wins: a frame that has not been sent yet is
replaced by a newer one. A disconnect gives up the pending frame as well, and every later one is given
straight back. A slot is busy exactly while a frame that was exported out of it is alive;
its lease names it by a serial number, because a device may hand out the same handle again.

## Layout

- `src/` holds the verified decisions: the byte format, the handshake, the frame exchange, the
  publication policy, and the creation, use and destruction of export slots. Each conversation names
  its next call and takes what the call returned. The modules that end in `_laws` state and prove
  what holds of each part as a whole.
- `app/` performs the calls, on Unix sockets, threads and Vulkan devices.
- `tests/` runs the library, with the Vulkan bindings linked.

What is believed without proof stands in `src/vulkan.rs`: four calls into the Vulkan bindings.
