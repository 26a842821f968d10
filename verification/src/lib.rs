//! A minimalist pixel-drawing library over a windowing-system display
//! connection: a connection state with a shared-memory capability probe,
//! fixed-size windows pinned by window-manager size hints, in-memory pixel
//! surfaces in `0x00RRGGBB` format, and a cooperative event-dispatch step.
//!
//! The native display-server calls themselves (connection, window mapping,
//! image transport, event delivery) are left to the embedding program; this
//! crate holds and verifies the state, the decisions and the pixel math.

pub mod error;
pub mod image;
pub mod mlx;
pub mod shm;
pub mod window;
