// Construction, reset, program loading, instruction fetch and the call
// stack, exercised through the public interface.

use chip8_core::chip8::Emu;
use chip8_core::state::Chip8Error;

#[test]
fn glyph_preload_after_construction() {
    let emu = Emu::new();
    assert_eq!(&emu.ram[0..5], &[0xF0, 0x90, 0x90, 0x90, 0xF0]);
}

#[test]
fn glyph_preload_after_reset() {
    let mut emu = Emu::new();
    let rom: Vec<u8> = vec![0x12, 0x00];
    emu.load_program(&rom).unwrap();
    emu.execute_with_random(0x6107, 0).unwrap();
    emu.reset();
    assert_eq!(&emu.ram[0..5], &[0xF0, 0x90, 0x90, 0x90, 0xF0]);
    assert_eq!(emu.pc, 0x200);
    assert_eq!(emu.sp, 0);
    assert_eq!(emu.v_reg, vec![0u8; 16]);
    assert_eq!(emu.ram[0x200], 0);
    assert!(emu.screen.iter().all(|p| !p));
}

#[test]
fn construction_starts_at_program_base() {
    let emu = Emu::new();
    assert_eq!(emu.pc, 0x200);
    assert_eq!(emu.i_reg, 0);
    assert_eq!(emu.sp, 0);
    assert_eq!(emu.dt, 0);
    assert_eq!(emu.st, 0);
    assert_eq!(emu.ram.len(), 4096);
    assert_eq!(emu.screen.len(), 64 * 32);
}

#[test]
fn fetch_returns_big_endian_word_and_advances_pc() {
    let mut emu = Emu::new();
    let rom: Vec<u8> = vec![0xAB, 0xCD];
    emu.load_program(&rom).unwrap();
    let op = emu.fetch_opcode().unwrap();
    assert_eq!(op, 0xABCD);
    assert_eq!(emu.pc, 0x202);
}

#[test]
fn fetch_at_top_of_memory_is_out_of_bounds() {
    let mut emu = Emu::new();
    emu.execute_with_random(0x1FFF, 0).unwrap();
    assert_eq!(emu.pc, 0xFFF);
    assert_eq!(emu.fetch_opcode(), Err(Chip8Error::OutOfBounds));
    assert_eq!(emu.pc, 0xFFF);
}

#[test]
fn load_program_copies_bytes_at_base() {
    let mut emu = Emu::new();
    let rom: Vec<u8> = vec![0x60, 0x0A, 0x71, 0x05];
    emu.load_program(&rom).unwrap();
    assert_eq!(&emu.ram[0x200..0x204], &[0x60, 0x0A, 0x71, 0x05]);
    assert_eq!(emu.ram[0x204], 0);
}

#[test]
fn load_program_accepts_the_largest_image() {
    let mut emu = Emu::new();
    let rom: Vec<u8> = vec![0x42; 4096 - 0x200];
    assert_eq!(emu.load_program(&rom), Ok(()));
    assert_eq!(emu.ram[0xFFF], 0x42);
}

#[test]
fn load_program_rejects_an_oversized_image() {
    let mut emu = Emu::new();
    let rom: Vec<u8> = vec![0x42; 4096 - 0x200 + 1];
    assert_eq!(emu.load_program(&rom), Err(Chip8Error::RomTooLarge));
    assert_eq!(emu.ram[0x200], 0);
}

#[test]
fn stack_round_trip_returns_pushed_address() {
    let mut emu = Emu::new();
    emu.push(0x0ABC).unwrap();
    assert_eq!(emu.sp, 1);
    assert_eq!(emu.pop(), Ok(0x0ABC));
    assert_eq!(emu.sp, 0);
}

#[test]
fn sixteen_pushes_succeed_and_the_seventeenth_overflows() {
    let mut emu = Emu::new();
    for a in 0..16u16 {
        assert_eq!(emu.push(0x200 + a), Ok(()));
    }
    assert_eq!(emu.push(0x0FFF), Err(Chip8Error::StackOverflow));
    assert_eq!(emu.sp, 16);
}

#[test]
fn pop_on_an_empty_stack_underflows() {
    let mut emu = Emu::new();
    assert_eq!(emu.pop(), Err(Chip8Error::StackUnderflow));
    assert_eq!(emu.sp, 0);
}
