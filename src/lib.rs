//! A copy-and-jump byte machine: a flat 24-bit address space, an interpreter
//! whose only instruction copies one byte and jumps, a frame-paced stepping
//! cadence, and the memory-mapped register conventions read by a host.
//! A small triangle rasterizer that produces pixel coordinates sits beside it.

mod memory;
mod interpreter;
mod scheduler;
mod io;
mod raster;

pub use memory::{
    AddressSpace, VmError, ADDRESSABLE, MEM_SIZE, be16, be24, store_be16, loaded_image,
};
pub use interpreter::{
    Interpreter, RESET_VECTOR, reset_pc, source_of, destination_of, jump_of, step_memory,
    step_state, run_steps, lemma_reset_then_step, lemma_self_copy,
};
pub use scheduler::{
    STEPS_PER_FRAME, frame_prefix, run_frame, lemma_run_steps_bounds, lemma_frame_isolation,
};
pub use io::{
    KEYBOARD_REGISTER, GRAPHICS_PLANE, KEY_COUNT, keyboard_reg, key_held, with_key, pixel_address,
    keyboard, keyboard_set, keyboard_clear_all, graphics_pixel_index, lemma_keyboard_store,
    lemma_keyboard_round_trip,
};
pub use raster::{
    COORD_LIMIT, Color, Vertex, BoundingBox, Triangle, fits_i32, min3, max3, cross, edge, lex_lt,
};
