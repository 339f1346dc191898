use vstd::prelude::*;
use crate::memory::{AddressSpace, ADDRESSABLE, MEM_SIZE};
use crate::interpreter::{Interpreter, reset_pc, run_steps, jump_of};

verus! {

/// Number of instructions executed per frame.
pub const STEPS_PER_FRAME: u32 = 65536;

/// The state after the reset and the first `k` instructions of a frame that
/// starts in state `s`.
pub open spec fn frame_prefix(s: (Seq<u8>, int), k: nat) -> (Seq<u8>, int) {
    run_steps((s.0, reset_pc(s.0)), k)
}

/// Runs one frame: one reset, then `STEPS_PER_FRAME` instructions.
pub fn run_frame(interp: &mut Interpreter, space: &mut AddressSpace)
    ensures
        final(space)@.len() == MEM_SIZE,
        (final(space)@, final(interp)@) == frame_prefix(
            (old(space)@, old(interp)@),
            STEPS_PER_FRAME as nat,
        ),
{
    let ghost start = (space@, interp@);
    interp.reset(space);
    let mut k: u32 = 0;
    while k < STEPS_PER_FRAME
        invariant
            k <= STEPS_PER_FRAME,
            space@.len() == MEM_SIZE,
            (space@, interp@) == frame_prefix(start, k as nat),
        decreases STEPS_PER_FRAME - k,
    {
        interp.step(space);
        k = k + 1;
    }
}

/// Running `n` instructions keeps the memory length and a 24-bit program
/// counter.
pub proof fn lemma_run_steps_bounds(s: (Seq<u8>, int), n: nat)
    requires
        s.0.len() == MEM_SIZE,
        0 <= s.1 < ADDRESSABLE,
    ensures
        run_steps(s, n).0.len() == MEM_SIZE,
        0 <= run_steps(s, n).1 < ADDRESSABLE,
    decreases n,
{
    if n > 0 {
        lemma_run_steps_bounds(s, (n - 1) as nat);
    }
}

/// Within a frame the program counter moves only by the reset at its start
/// and by the jumps of the instructions executed; the state after the `k`th
/// instruction depends on the memory at the frame start and not on the
/// program counter left by the previous frame.
pub proof fn lemma_frame_isolation(m: Seq<u8>, pc_a: int, pc_b: int, k: nat)
    requires
        m.len() == MEM_SIZE,
    ensures
        frame_prefix((m, pc_a), 0).1 == reset_pc(m),
        frame_prefix((m, pc_a), k) == frame_prefix((m, pc_b), k),
        k > 0 ==> frame_prefix((m, pc_a), k).1 == jump_of(
            frame_prefix((m, pc_a), (k - 1) as nat).0,
            frame_prefix((m, pc_a), (k - 1) as nat).1,
        ),
        frame_prefix((m, pc_a), k).0.len() == MEM_SIZE,
        0 <= frame_prefix((m, pc_a), k).1 < ADDRESSABLE,
{
    lemma_run_steps_bounds((m, reset_pc(m)), k);
}

} // verus!
