//! A background compositor client that keeps one GPU-backed overlay surface
//! per connected display.
//!
//! The crate holds the decision logic of that client: which globals to bind,
//! when a display entry may be constructed, how protocol events are routed to
//! the entry that owns their originating object, and how the swapchain
//! configuration of each entry evolves. Protocol objects and GPU objects are
//! identified here by the plain numeric ids the display server assigns them;
//! the process that owns the real handles performs the calls these decisions
//! ask for.

pub mod output;
pub mod registry;
pub mod seat;
pub mod wgpu_surface;
