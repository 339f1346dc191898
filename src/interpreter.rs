use vstd::prelude::*;
use crate::memory::{AddressSpace, ADDRESSABLE, MEM_SIZE, be24};

verus! {

/// Address of the 3-byte field that holds the program counter loaded at reset.
pub const RESET_VECTOR: u32 = 2;

/// The program counter that `reset` loads from memory `m`.
pub open spec fn reset_pc(m: Seq<u8>) -> int {
    be24(m, RESET_VECTOR as int)
}

/// The source address of the instruction at `pc`.
pub open spec fn source_of(m: Seq<u8>, pc: int) -> int {
    be24(m, pc)
}

/// The destination address of the instruction at `pc`.
pub open spec fn destination_of(m: Seq<u8>, pc: int) -> int {
    be24(m, pc + 3)
}

/// The jump target of the instruction at `pc`.
pub open spec fn jump_of(m: Seq<u8>, pc: int) -> int {
    be24(m, pc + 6)
}

/// The memory after executing the instruction at `pc`: one byte copied.
pub open spec fn step_memory(m: Seq<u8>, pc: int) -> Seq<u8> {
    m.update(destination_of(m, pc), m[source_of(m, pc)])
}

/// One machine cycle on a state (memory, program counter).
pub open spec fn step_state(s: (Seq<u8>, int)) -> (Seq<u8>, int) {
    (step_memory(s.0, s.1), jump_of(s.0, s.1))
}

/// `n` machine cycles from state `s`.
pub open spec fn run_steps(s: (Seq<u8>, int), n: nat) -> (Seq<u8>, int)
    decreases n,
{
    if n == 0 {
        s
    } else {
        step_state(run_steps(s, (n - 1) as nat))
    }
}

/// The program counter cursor of the machine.
pub struct Interpreter {
    pc: u32,
}

impl View for Interpreter {
    type V = int;

    closed spec fn view(&self) -> int {
        self.pc as int
    }
}

impl Interpreter {
    #[verifier::type_invariant]
    spec fn inv(self) -> bool {
        self.pc < ADDRESSABLE
    }

    /// An interpreter whose program counter is 0.
    pub fn new() -> (r: Interpreter)
        ensures
            r@ == 0,
    {
        Interpreter { pc: 0 }
    }

    /// The current program counter.
    pub fn pc(&self) -> (r: u32)
        ensures
            r == self@,
    {
        self.pc
    }

    /// Reloads the program counter from the reset vector.
    pub fn reset(&mut self, space: &AddressSpace)
        ensures
            final(self)@ == reset_pc(space@),
            space@.len() == MEM_SIZE,
    {
        self.pc = space.read_u24_be(RESET_VECTOR);
    }

    /// Executes one instruction: copies the byte at the source address to the
    /// destination address, then jumps. Every decoded address is a 24-bit value,
    /// and the padding after the addressable region holds the whole 9-byte
    /// window of any such program counter, so no address is checked at run time.
    pub fn step(&mut self, space: &mut AddressSpace)
        ensures
            final(space)@.len() == MEM_SIZE,
            (final(space)@, final(self)@) == step_state((old(space)@, old(self)@)),
    {
        proof {
            use_type_invariant(&*self);
        }
        let pc = self.pc;
        let src = space.read_u24_be(pc);
        let dst = space.read_u24_be(pc + 3);
        let jmp = space.read_u24_be(pc + 6);
        let byte = space.read_u8(src);
        space.write_u8(dst, byte);
        self.pc = jmp;
    }
}

/// After a reset and one instruction, the program counter is the jump field
/// of the instruction at the reset location, and the destination byte holds
/// what the source byte held before the instruction.
pub proof fn lemma_reset_then_step(m: Seq<u8>)
    requires
        m.len() == MEM_SIZE,
    ensures
        ({
            let pc = reset_pc(m);
            let after = step_state((m, pc));
            &&& after.1 == jump_of(m, pc)
            &&& after.0[destination_of(m, pc)] == m[source_of(m, pc)]
            &&& after.0.len() == MEM_SIZE
        }),
{
}

/// An instruction whose source and destination coincide leaves memory as it was.
pub proof fn lemma_self_copy(m: Seq<u8>, pc: int)
    requires
        m.len() == MEM_SIZE,
        source_of(m, pc) == destination_of(m, pc),
    ensures
        step_memory(m, pc) == m,
{
    assert(step_memory(m, pc) =~= m);
}

} // verus!
