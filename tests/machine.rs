use pixelcore::{
    graphics_pixel_index, keyboard, keyboard_clear_all, keyboard_set, run_frame, AddressSpace,
    Interpreter, VmError, ADDRESSABLE, MEM_SIZE,
};

fn put24(img: &mut Vec<u8>, at: usize, v: u32) {
    img[at] = (v >> 16) as u8;
    img[at + 1] = (v >> 8) as u8;
    img[at + 2] = v as u8;
}

fn scenario_image() -> Vec<u8> {
    let mut img = vec![0u8; 27];
    img[4] = 8;
    put24(&mut img, 8, 20);
    put24(&mut img, 11, 25);
    put24(&mut img, 14, 17);
    img[20] = 1;
    img
}

#[test]
fn reset_then_step_copies_and_jumps() {
    let img = scenario_image();
    let mut space = AddressSpace::create(&img).unwrap();
    let mut it = Interpreter::new();
    it.reset(&space);
    assert_eq!(it.pc(), 8);
    it.step(&mut space);
    assert_eq!(it.pc(), 17);
    assert_eq!(space.read_u8(25), 1);
    assert_eq!(space.read_u8(20), 1);
}

#[test]
fn create_zero_fills_and_keeps_image() {
    let img = scenario_image();
    let space = AddressSpace::create(&img).unwrap();
    assert_eq!(space.size(), MEM_SIZE);
    assert_eq!(space.read_u8(4), 8);
    assert_eq!(space.read_u8(20), 1);
    assert_eq!(space.read_u8(27), 0);
    assert_eq!(space.read_u8((MEM_SIZE - 1) as u32), 0);
}

#[test]
fn create_rejects_oversized_image() {
    let img = vec![0u8; ADDRESSABLE + 1];
    assert!(matches!(AddressSpace::create(&img), Err(VmError::ImageTooLarge)));
}

#[test]
fn create_accepts_image_filling_address_space() {
    let mut img = vec![0u8; ADDRESSABLE];
    img[ADDRESSABLE - 1] = 0xAB;
    let space = AddressSpace::create(&img).unwrap();
    assert_eq!(space.read_u8((ADDRESSABLE - 1) as u32), 0xAB);
    assert_eq!(space.read_u8(ADDRESSABLE as u32), 0);
}

#[test]
fn self_copy_leaves_byte_unchanged() {
    let mut img = vec![0u8; 32];
    img[4] = 8;
    put24(&mut img, 8, 30);
    put24(&mut img, 11, 30);
    put24(&mut img, 14, 8);
    img[30] = 0x5A;
    let mut space = AddressSpace::create(&img).unwrap();
    let mut it = Interpreter::new();
    it.reset(&space);
    it.step(&mut space);
    assert_eq!(space.read_u8(30), 0x5A);
    assert_eq!(it.pc(), 8);
}

#[test]
fn jump_to_last_full_window_steps_inside_buffer() {
    let last = (ADDRESSABLE - 9) as u32;
    let mut img = vec![0u8; 32];
    img[4] = 8;
    put24(&mut img, 8, 0);
    put24(&mut img, 11, 0);
    put24(&mut img, 14, last);
    let mut space = AddressSpace::create(&img).unwrap();
    let mut it = Interpreter::new();
    it.reset(&space);
    it.step(&mut space);
    assert_eq!(it.pc(), last);
    it.step(&mut space);
    assert_eq!(it.pc(), 0);
}

#[test]
fn instruction_at_last_address_reads_padding() {
    let top = (ADDRESSABLE - 1) as u32;
    let mut space = AddressSpace::create(&[0u8, 0, 0, 0, 8]).unwrap();
    put_space24(&mut space, 14, top);
    let mut it = Interpreter::new();
    it.reset(&space);
    it.step(&mut space);
    assert_eq!(it.pc(), top);
    it.step(&mut space);
    assert_eq!(it.pc(), 0);
    assert_eq!(space.read_u8(0), 0);
}

fn put_space24(space: &mut AddressSpace, at: u32, v: u32) {
    space.write_u8(at, (v >> 16) as u8);
    space.write_u8(at + 1, (v >> 8) as u8);
    space.write_u8(at + 2, v as u8);
}

#[test]
fn read_and_write_big_endian() {
    let mut space = AddressSpace::create(&[0x12, 0x34, 0x56]).unwrap();
    assert_eq!(space.read_u16_be(0), 0x1234);
    assert_eq!(space.read_u24_be(0), 0x123456);
    space.write_u16_be(1, 0xBEEF);
    assert_eq!(space.read_u8(1), 0xBE);
    assert_eq!(space.read_u8(2), 0xEF);
    assert_eq!(space.read_u24_be(0), 0x12BEEF);
}

#[test]
fn keyboard_set_keeps_other_keys() {
    let mut space = AddressSpace::create(&[]).unwrap();
    keyboard_set(&mut space, 3, true);
    assert_eq!(keyboard(&space), 0x0008);
    keyboard_set(&mut space, 12, true);
    assert_eq!(keyboard(&space), 0x1008);
    assert_eq!(space.read_u8(0), 0x10);
    assert_eq!(space.read_u8(1), 0x08);
    keyboard_set(&mut space, 3, false);
    assert_eq!(keyboard(&space), 0x1000);
    keyboard_set(&mut space, 15, true);
    assert_eq!(keyboard(&space), 0x9000);
}

#[test]
fn keyboard_clear_all_zeroes_register() {
    let mut space = AddressSpace::create(&[0xFF, 0xFF, 0x00, 0x00, 0x08]).unwrap();
    keyboard_clear_all(&mut space);
    assert_eq!(keyboard(&space), 0);
    assert_eq!(space.read_u8(4), 8);
}

#[test]
fn graphics_index_formula() {
    let mut space = AddressSpace::create(&[]).unwrap();
    assert_eq!(graphics_pixel_index(&space, 0x12, 0x34), 0x003412);
    space.write_u8(5, 0x05);
    assert_eq!(graphics_pixel_index(&space, 0xFF, 0xFF), 0x05FFFF);
}

#[test]
fn frame_runs_loop_from_reset_vector() {
    // One instruction at 8 that copies byte 40 into byte 41 and jumps to itself.
    let mut img = vec![0u8; 48];
    img[4] = 8;
    put24(&mut img, 8, 40);
    put24(&mut img, 11, 41);
    put24(&mut img, 14, 8);
    img[40] = 7;
    let mut space = AddressSpace::create(&img).unwrap();
    let mut it = Interpreter::new();
    run_frame(&mut it, &mut space);
    assert_eq!(it.pc(), 8);
    assert_eq!(space.read_u8(41), 7);
}

#[test]
fn frame_ignores_previous_program_counter() {
    // Instruction at 8 jumps to 17; instruction at 17 increments nothing and jumps to 8.
    let mut img = vec![0u8; 64];
    img[4] = 8;
    put24(&mut img, 8, 50);
    put24(&mut img, 11, 51);
    put24(&mut img, 14, 17);
    put24(&mut img, 17, 51);
    put24(&mut img, 20, 52);
    put24(&mut img, 23, 8);
    img[50] = 9;
    let mut a = AddressSpace::create(&img).unwrap();
    let mut b = AddressSpace::create(&img).unwrap();
    let mut ia = Interpreter::new();
    let mut ib = Interpreter::new();
    ib.reset(&b);
    ib.step(&mut b);
    assert_eq!(ib.pc(), 17);
    let mut c = AddressSpace::create(&img).unwrap();
    assert_eq!(c.read_u8(51), 0);
    run_frame(&mut ib, &mut c);
    run_frame(&mut ia, &mut a);
    assert_eq!(ia.pc(), ib.pc());
    assert_eq!(ia.pc(), 8);
    assert_eq!(a.read_u8(52), 9);
    assert_eq!(c.read_u8(52), 9);
}
