//! The command pool and its two reusable command buffers.

use vstd::prelude::*;

verus! {

/// Number of command buffers allocated from the pool.
pub const COMMAND_BUFFER_COUNT: u32 = 2;

/// The pool, the buffer for one-off setup work and the buffer for drawing.
#[derive(Clone, Copy, Debug, PartialEq, Eq, Structural)]
pub struct CommandData {
    pub pool: u64,
    pub draw_buffer: u64,
    pub setup_buffer: u64,
}

impl CommandData {
    /// The first allocated buffer serves setup, the second drawing. `None`
    /// when fewer than two buffers were allocated.
    pub fn new(pool: u64, buffers: &Vec<u64>) -> (r: Option<CommandData>)
        ensures
            r is Some <==> buffers@.len() >= 2,
            r matches Some(data) ==> data == (CommandData {
                pool,
                draw_buffer: buffers@[1],
                setup_buffer: buffers@[0],
            }),
    {
        if buffers.len() < 2 {
            return None;
        }
        Some(CommandData { pool, draw_buffer: buffers[1], setup_buffer: buffers[0] })
    }
}

} // verus!
