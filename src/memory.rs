use vstd::prelude::*;

verus! {

/// Number of addressable bytes: every 24-bit address.
pub const ADDRESSABLE: usize = 16777216;

/// Length of the backing buffer: the addressable region plus a trailing pad,
/// so that a 9-byte fetch at the last addressable byte stays in bounds.
pub const MEM_SIZE: usize = 16777224;

/// The 16-bit big-endian value of the two bytes at `a`.
pub open spec fn be16(m: Seq<u8>, a: int) -> int {
    m[a] * 256 + m[a + 1]
}

/// The 24-bit big-endian value of the three bytes at `a`.
pub open spec fn be24(m: Seq<u8>, a: int) -> int {
    m[a] * 65536 + m[a + 1] * 256 + m[a + 2]
}

/// The memory after storing `v` big-endian in the two bytes at `a`.
pub open spec fn store_be16(m: Seq<u8>, a: int, v: u16) -> Seq<u8> {
    m.update(a, (v / 256) as u8).update(a + 1, (v % 256) as u8)
}

/// The memory built from a program image: the image at offset 0, zeros after.
pub open spec fn loaded_image(image: Seq<u8>) -> Seq<u8> {
    Seq::new(MEM_SIZE as nat, |i: int| if i < image.len() { image[i] } else { 0u8 })
}

/// Failures of the machine.
#[derive(Debug, Clone, Copy, PartialEq, Eq, Structural)]
pub enum VmError {
    /// The program image is longer than the addressable region.
    ImageTooLarge,
}

/// The whole memory of the machine: a byte buffer of fixed length `MEM_SIZE`.
pub struct AddressSpace {
    mem: Vec<u8>,
}

impl View for AddressSpace {
    type V = Seq<u8>;

    closed spec fn view(&self) -> Seq<u8> {
        self.mem@
    }
}

impl AddressSpace {
    #[verifier::type_invariant]
    spec fn inv(self) -> bool {
        self.mem@.len() == MEM_SIZE
    }

    /// The length of the buffer, which is always `MEM_SIZE`.
    pub fn size(&self) -> (r: usize)
        ensures
            r == self@.len(),
            r == MEM_SIZE,
    {
        proof {
            use_type_invariant(self);
        }
        self.mem.len()
    }

    /// Builds the memory for a program image, zero-filled past the image.
    /// An image longer than the addressable region is rejected.
    pub fn create(image: &[u8]) -> (r: Result<AddressSpace, VmError>)
        ensures
            image@.len() > ADDRESSABLE <==> r is Err,
            r is Err ==> r == Err::<AddressSpace, VmError>(VmError::ImageTooLarge),
            r matches Ok(s) ==> s@ == loaded_image(image@),
    {
        if image.len() > ADDRESSABLE {
            return Err(VmError::ImageTooLarge);
        }
        let mut mem: Vec<u8> = Vec::with_capacity(MEM_SIZE);
        let mut i: usize = 0;
        while i < MEM_SIZE
            invariant
                i <= MEM_SIZE,
                image@.len() <= ADDRESSABLE,
                mem@.len() == i,
                forall|j: int| 0 <= j < i ==> mem@[j] == loaded_image(image@)[j],
            decreases MEM_SIZE - i,
        {
            if i < image.len() {
                mem.push(image[i]);
            } else {
                mem.push(0u8);
            }
            i = i + 1;
        }
        let s = AddressSpace { mem };
        assert(s@ =~= loaded_image(image@));
        Ok(s)
    }

    /// The byte at `addr`.
    pub fn read_u8(&self, addr: u32) -> (r: u8)
        requires
            addr < MEM_SIZE,
        ensures
            r == self@[addr as int],
            self@.len() == MEM_SIZE,
    {
        proof {
            use_type_invariant(self);
        }
        self.mem[addr as usize]
    }

    /// Stores `value` at `addr`.
    pub fn write_u8(&mut self, addr: u32, value: u8)
        requires
            addr < MEM_SIZE,
        ensures
            final(self)@.len() == MEM_SIZE,
            final(self)@ == old(self)@.update(addr as int, value),
    {
        proof {
            use_type_invariant(&*self);
        }
        self.mem[addr as usize] = value;
    }

    /// The two bytes at `addr`, big-endian.
    pub fn read_u16_be(&self, addr: u32) -> (r: u16)
        requires
            addr + 2 <= MEM_SIZE,
        ensures
            r == be16(self@, addr as int),
            self@.len() == MEM_SIZE,
    {
        proof {
            use_type_invariant(self);
        }
        let hi = self.mem[addr as usize] as u16;
        let lo = self.mem[addr as usize + 1] as u16;
        hi * 256 + lo
    }

    /// Stores `value` big-endian in the two bytes at `addr`.
    pub fn write_u16_be(&mut self, addr: u32, value: u16)
        requires
            addr + 2 <= MEM_SIZE,
        ensures
            final(self)@.len() == MEM_SIZE,
            final(self)@ == store_be16(old(self)@, addr as int, value),
    {
        proof {
            use_type_invariant(&*self);
        }
        self.mem[addr as usize] = (value / 256) as u8;
        self.mem[addr as usize + 1] = (value % 256) as u8;
    }

    /// The three bytes at `addr`, big-endian.
    pub fn read_u24_be(&self, addr: u32) -> (r: u32)
        requires
            addr + 3 <= MEM_SIZE,
        ensures
            r == be24(self@, addr as int),
            r < ADDRESSABLE,
            self@.len() == MEM_SIZE,
    {
        proof {
            use_type_invariant(self);
        }
        let b0 = self.mem[addr as usize] as u32;
        let b1 = self.mem[addr as usize + 1] as u32;
        let b2 = self.mem[addr as usize + 2] as u32;
        b0 * 65536 + b1 * 256 + b2
    }
}

} // verus!
