//! Resource lifecycle and frame synchronisation rules of a small Vulkan renderer.
//!
//! Every type here is a plain-value model of a GPU object: handles are `u64`,
//! flag sets are `u32`. The functions decide what has to be created, destroyed,
//! waited for or submitted, and their contracts state those decisions exactly.
//! The caller performs the device calls and reports what came back.

pub mod buffer;
pub mod command;
pub mod device;
pub mod frame;
pub mod input;
pub mod lifecycle;
pub mod render_pass;
pub mod resources;
pub mod shader;
pub mod sprite_batch;
pub mod submit;
pub mod swapchain;
pub mod sync;
pub mod texture;
