//! The abstract machine: the state the contracts speak of, its
//! well-formedness, and the initial (reset) state with the preloaded
//! glyph table.

use vstd::prelude::*;

verus! {

/// Number of addressable memory bytes.
pub const RAM_SIZE: usize = 4096;

/// Display width in cells.
pub const SCREEN_WIDTH: usize = 64;

/// Display height in cells.
pub const SCREEN_HEIGHT: usize = 32;

/// Number of general-purpose registers.
pub const NUM_REGS: usize = 16;

/// Capacity of the call stack.
pub const STACK_SIZE: usize = 16;

/// Number of input keys.
pub const NUM_KEYS: usize = 16;

/// Byte length of the glyph table preloaded at address 0.
pub const FONTSET_SIZE: usize = 80;

/// Address at which program bytes are loaded and the program counter starts.
pub const START_ADDR: u16 = 0x200;

/// Failures the interpreter reports. An unrecognised instruction word is not
/// among them: it is treated as a no-op and execution continues.
#[derive(Clone, Copy, Debug, PartialEq, Eq, Structural)]
pub enum Chip8Error {
    /// A program image does not fit between the load address and the top of memory.
    RomTooLarge,
    /// A call arrived with sixteen return addresses already stored.
    StackOverflow,
    /// A return was executed with no stored return address.
    StackUnderflow,
    /// A memory access fell outside the 4096-byte address space.
    OutOfBounds,
}

/// The abstract state of the emulated machine.
#[verifier::ext_equal]
pub ghost struct MachineState {
    /// Program counter.
    pub pc: u16,
    /// The addressable memory bytes.
    pub ram: Seq<u8>,
    /// The monochrome display, row-major: cell (x, y) is index x + 64 * y.
    pub screen: Seq<bool>,
    /// The sixteen general-purpose registers V0..VF.
    pub v: Seq<u8>,
    /// The index register.
    pub i: u16,
    /// Stack pointer: how many return addresses are stored.
    pub sp: nat,
    /// The call-stack slots; only the first `sp` hold live addresses.
    pub stack: Seq<u16>,
    /// One flag per input key; present as state, read by no decoded opcode yet.
    pub keys: Seq<bool>,
    /// Delay timer register; plain state, nothing in this core decrements it.
    pub dt: u8,
    /// Sound timer register; plain state, nothing in this core decrements it.
    pub st: u8,
}

/// Well-formedness: every component has its fixed size and the stack
/// pointer stays within the stack.
pub open spec fn wf(s: MachineState) -> bool {
    &&& s.ram.len() == RAM_SIZE
    &&& s.screen.len() == SCREEN_WIDTH * SCREEN_HEIGHT
    &&& s.v.len() == NUM_REGS
    &&& s.stack.len() == STACK_SIZE
    &&& s.keys.len() == NUM_KEYS
    &&& s.sp <= STACK_SIZE
}

/// The eighty bytes of the built-in glyph table: sixteen glyphs of five
/// rows each, one row per byte, pixels in the high nibble.
pub open spec fn font_table() -> Seq<u8> {
    seq![
        0xF0u8, 0x90, 0x90, 0x90, 0xF0, // 0
        0x20, 0x60, 0x20, 0x20, 0x70, // 1
        0xF0, 0x10, 0xF0, 0x80, 0xF0, // 2
        0xF0, 0x10, 0xF0, 0x10, 0xF0, // 3
        0x90, 0x90, 0xF0, 0x10, 0x10, // 4
        0xF0, 0x80, 0xF0, 0x10, 0xF0, // 5
        0xF0, 0x80, 0xF0, 0x90, 0xF0, // 6
        0xF0, 0x10, 0x20, 0x40, 0x40, // 7
        0xF0, 0x90, 0xF0, 0x90, 0xF0, // 8
        0xF0, 0x90, 0xF0, 0x10, 0xF0, // 9
        0xF0, 0x90, 0xF0, 0x90, 0x90, // A
        0xE0, 0x90, 0xE0, 0x90, 0xE0, // B
        0xF0, 0x80, 0x80, 0x80, 0xF0, // C
        0xE0, 0x90, 0x90, 0x90, 0xE0, // D
        0xF0, 0x80, 0xF0, 0x80, 0xF0, // E
        0xF0, 0x80, 0xF0, 0x80, 0x80, // F
    ]
}

/// Memory as it stands after construction or reset: the glyph table in the
/// lowest eighty bytes, zero everywhere above.
pub open spec fn initial_ram() -> Seq<u8> {
    Seq::new(RAM_SIZE as nat, |a: int| if a < FONTSET_SIZE { font_table()[a] } else { 0u8 })
}

/// The state every machine starts in and returns to on reset: glyphs seeded
/// in low memory, the program counter at the start address, and every
/// register, stack slot, key flag and display cell zeroed.
pub open spec fn is_initial(s: MachineState) -> bool {
    &&& s.pc == START_ADDR
    &&& s.ram == initial_ram()
    &&& s.screen == Seq::new((SCREEN_WIDTH * SCREEN_HEIGHT) as nat, |c: int| false)
    &&& s.v == Seq::new(NUM_REGS as nat, |r: int| 0u8)
    &&& s.i == 0
    &&& s.sp == 0
    &&& s.stack == Seq::new(STACK_SIZE as nat, |slot: int| 0u16)
    &&& s.keys == Seq::new(NUM_KEYS as nat, |k: int| false)
    &&& s.dt == 0
    &&& s.st == 0
}

/// Memory after a program image has been copied in at the start address:
/// the image's bytes over that range, the old contents everywhere else.
pub open spec fn loaded_ram(ram: Seq<u8>, prog: Seq<u8>) -> Seq<u8>
    recommends
        ram.len() == RAM_SIZE,
        START_ADDR + prog.len() <= RAM_SIZE,
{
    Seq::new(
        ram.len(),
        |a: int|
            if START_ADDR <= a < START_ADDR + prog.len() {
                prog[a - START_ADDR]
            } else {
                ram[a]
            },
    )
}

/// The effect of storing a return address; meaningful only below capacity.
pub open spec fn spec_push(s: MachineState, addr: u16) -> MachineState
    recommends
        wf(s),
        s.sp < STACK_SIZE,
{
    MachineState { stack: s.stack.update(s.sp as int, addr), sp: s.sp + 1, ..s }
}

/// The effect of taking the most recent return address back out, paired
/// with that address; meaningful only on a non-empty stack.
pub open spec fn spec_pop(s: MachineState) -> (MachineState, u16)
    recommends
        wf(s),
        s.sp > 0,
{
    (MachineState { sp: (s.sp - 1) as nat, ..s }, s.stack[s.sp - 1])
}

/// Stack round-trip law: in any well-formed state with room on the stack, a
/// pop immediately after a push returns the pushed address and brings the
/// stack pointer back to its prior value.
pub proof fn lemma_stack_round_trip(s: MachineState, addr: u16)
    requires
        wf(s),
        s.sp < STACK_SIZE,
    ensures
        spec_pop(spec_push(s, addr)).1 == addr,
        spec_pop(spec_push(s, addr)).0.sp == s.sp,
{
}

} // verus!
