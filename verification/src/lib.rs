//! CosmicOS kernel core: graphics, input, user interface state machines and
//! the in-memory virtual file system, with their behaviour proved by Verus.
//! Hardware access (framebuffer, ports, descriptor tables, the allocator)
//! lives in the application crate that drives this library.

pub mod gfx;
pub mod input;
pub mod interrupts;
pub mod memory;
pub mod panic;
pub mod text;
pub mod ui;
pub mod vfs;
