use vstd::prelude::*;
use crate::memory::{AddressSpace, MEM_SIZE, be16, store_be16};

verus! {

/// Address of the 2-byte keyboard register.
pub const KEYBOARD_REGISTER: u32 = 0;

/// Address of the byte that selects the 64 KiB graphics plane.
pub const GRAPHICS_PLANE: u32 = 5;

/// Number of logical keys of the keyboard register.
pub const KEY_COUNT: u8 = 16;

/// The keyboard register held in memory `m`.
pub open spec fn keyboard_reg(m: Seq<u8>) -> u16 {
    be16(m, KEYBOARD_REGISTER as int) as u16
}

/// Whether key `key` is held in register value `reg`.
pub open spec fn key_held(reg: u16, key: u16) -> bool {
    (reg >> key) & 1u16 == 1u16
}

/// The register value `reg` with the bit of `key` set or cleared.
pub open spec fn with_key(reg: u16, key: u16, pressed: bool) -> u16 {
    if pressed {
        reg | (1u16 << key)
    } else {
        reg & !(1u16 << key)
    }
}

/// The address of the palette index of pixel (x, y) in memory `m`.
pub open spec fn pixel_address(m: Seq<u8>, x: u8, y: u8) -> int {
    m[GRAPHICS_PLANE as int] * 65536 + y * 256 + x
}

/// The keyboard register of `space`.
pub fn keyboard(space: &AddressSpace) -> (r: u16)
    ensures
        r == keyboard_reg(space@),
{
    space.read_u16_be(KEYBOARD_REGISTER)
}

/// Sets (`pressed`) or clears the bit of `key` in the keyboard register;
/// the rest of memory is unchanged.
pub fn keyboard_set(space: &mut AddressSpace, key: u8, pressed: bool)
    requires
        key < KEY_COUNT,
    ensures
        final(space)@.len() == MEM_SIZE,
        final(space)@ == store_be16(
            old(space)@,
            KEYBOARD_REGISTER as int,
            with_key(keyboard_reg(old(space)@), key as u16, pressed),
        ),
{
    let reg = space.read_u16_be(KEYBOARD_REGISTER);
    let mask: u16 = 1u16 << (key as u16);
    let next: u16 = if pressed {
        reg | mask
    } else {
        reg & !mask
    };
    space.write_u16_be(KEYBOARD_REGISTER, next);
}

/// Clears every bit of the keyboard register; the rest of memory is unchanged.
pub fn keyboard_clear_all(space: &mut AddressSpace)
    ensures
        final(space)@.len() == MEM_SIZE,
        final(space)@ == store_be16(old(space)@, KEYBOARD_REGISTER as int, 0),
{
    space.write_u16_be(KEYBOARD_REGISTER, 0);
}

/// The address that holds the palette index of pixel (x, y): the plane byte
/// at address 5 gives the top 8 bits, then `y`, then `x`.
pub fn graphics_pixel_index(space: &AddressSpace, x: u8, y: u8) -> (r: u32)
    ensures
        r == pixel_address(space@, x, y),
{
    let plane = space.read_u8(GRAPHICS_PLANE) as u32;
    plane * 65536 + (y as u32) * 256 + (x as u32)
}

/// Reading the keyboard register back after storing `v` in it gives `v`.
pub proof fn lemma_keyboard_store(m: Seq<u8>, v: u16)
    requires
        m.len() == MEM_SIZE,
    ensures
        keyboard_reg(store_be16(m, KEYBOARD_REGISTER as int, v)) == v,
{
}

/// Pressing a key sets its bit and keeps every other key's bit as it was;
/// clearing the register leaves no key held.
pub proof fn lemma_keyboard_round_trip(m: Seq<u8>, key: u16)
    requires
        m.len() == MEM_SIZE,
        key < KEY_COUNT,
    ensures
        key_held(
            keyboard_reg(
                store_be16(m, KEYBOARD_REGISTER as int, with_key(keyboard_reg(m), key, true)),
            ),
            key,
        ),
        forall|j: u16|
            j < KEY_COUNT && j != key ==> key_held(
                keyboard_reg(
                    store_be16(
                        m,
                        KEYBOARD_REGISTER as int,
                        with_key(keyboard_reg(m), key, true),
                    ),
                ),
                j,
            ) == key_held(keyboard_reg(m), j),
        keyboard_reg(store_be16(m, KEYBOARD_REGISTER as int, 0)) == 0,
{
    let reg = keyboard_reg(m);
    let next = with_key(reg, key, true);
    lemma_keyboard_store(m, next);
    lemma_keyboard_store(m, 0);
    assert((reg | (1u16 << key)) >> key & 1u16 == 1u16) by (bit_vector)
        requires
            key < 16u16,
    ;
    assert forall|j: u16| j < KEY_COUNT && j != key implies key_held(next, j) == key_held(reg, j) by {
        assert(((reg | (1u16 << key)) >> j) & 1u16 == (reg >> j) & 1u16) by (bit_vector)
            requires
                key < 16u16,
                j < 16u16,
                j != key,
        ;
    }
}

} // verus!
