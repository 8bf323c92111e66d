//! The executable machine: memory, registers, call stack and display,
//! with construction, reset, program loading, instruction fetch and the
//! two stack operations. Each operation's contract pins its effect on the
//! abstract [`MachineState`] down exactly.

use vstd::prelude::*;

use crate::state::{
    Chip8Error, MachineState, FONTSET_SIZE, NUM_KEYS, NUM_REGS, RAM_SIZE, SCREEN_HEIGHT,
    SCREEN_WIDTH, STACK_SIZE, START_ADDR,
};
use crate::state::{font_table, initial_ram, is_initial, loaded_ram, spec_pop, spec_push, wf};

verus! {

/// The emulated machine. The fields are visible so that the abstraction to
/// [`MachineState`] can be stated openly; every operation requires and
/// preserves [`wf`], so outside writers must keep the component sizes.
pub struct Emu {
    /// Program counter.
    pub pc: u16,
    /// The addressable memory bytes.
    pub ram: Vec<u8>,
    /// The display grid, row-major: cell (x, y) is index x + 64 * y.
    /// External renderers read it; only the clear and draw opcodes change it.
    pub screen: Vec<bool>,
    /// The sixteen general-purpose registers V0..VF.
    pub v_reg: Vec<u8>,
    /// The index register.
    pub i_reg: u16,
    /// Stack pointer: how many return addresses are stored.
    pub sp: usize,
    /// The call-stack slots.
    pub stack: Vec<u16>,
    /// One flag per input key; set by an external input supplier.
    pub keys: Vec<bool>,
    /// Delay timer register.
    pub dt: u8,
    /// Sound timer register.
    pub st: u8,
}

impl View for Emu {
    type V = MachineState;

    open spec fn view(&self) -> MachineState {
        MachineState {
            pc: self.pc,
            ram: self.ram@,
            screen: self.screen@,
            v: self.v_reg@,
            i: self.i_reg,
            sp: self.sp as nat,
            stack: self.stack@,
            keys: self.keys@,
            dt: self.dt,
            st: self.st,
        }
    }
}

/// The glyph table as an executable byte vector.
fn font_bytes() -> (f: Vec<u8>)
    ensures
        f@ == font_table(),
{
    let mut f: Vec<u8> = Vec::new();
    f.push(0xF0); f.push(0x90); f.push(0x90); f.push(0x90); f.push(0xF0); // 0
    f.push(0x20); f.push(0x60); f.push(0x20); f.push(0x20); f.push(0x70); // 1
    f.push(0xF0); f.push(0x10); f.push(0xF0); f.push(0x80); f.push(0xF0); // 2
    f.push(0xF0); f.push(0x10); f.push(0xF0); f.push(0x10); f.push(0xF0); // 3
    f.push(0x90); f.push(0x90); f.push(0xF0); f.push(0x10); f.push(0x10); // 4
    f.push(0xF0); f.push(0x80); f.push(0xF0); f.push(0x10); f.push(0xF0); // 5
    f.push(0xF0); f.push(0x80); f.push(0xF0); f.push(0x90); f.push(0xF0); // 6
    f.push(0xF0); f.push(0x10); f.push(0x20); f.push(0x40); f.push(0x40); // 7
    f.push(0xF0); f.push(0x90); f.push(0xF0); f.push(0x90); f.push(0xF0); // 8
    f.push(0xF0); f.push(0x90); f.push(0xF0); f.push(0x10); f.push(0xF0); // 9
    f.push(0xF0); f.push(0x90); f.push(0xF0); f.push(0x90); f.push(0x90); // A
    f.push(0xE0); f.push(0x90); f.push(0xE0); f.push(0x90); f.push(0xE0); // B
    f.push(0xF0); f.push(0x80); f.push(0x80); f.push(0x80); f.push(0xF0); // C
    f.push(0xE0); f.push(0x90); f.push(0x90); f.push(0x90); f.push(0xE0); // D
    f.push(0xF0); f.push(0x80); f.push(0xF0); f.push(0x80); f.push(0xF0); // E
    f.push(0xF0); f.push(0x80); f.push(0xF0); f.push(0x80); f.push(0x80); // F
    proof {
        assert(f@ =~= font_table());
    }
    f
}

/// Copies the glyph table into the lowest eighty bytes of memory.
fn write_font(ram: &mut Vec<u8>)
    requires
        old(ram).len() == RAM_SIZE,
    ensures
        final(ram).len() == RAM_SIZE,
        forall|a: int| 0 <= a < FONTSET_SIZE ==> final(ram)@[a] == font_table()[a],
        forall|a: int| FONTSET_SIZE <= a < RAM_SIZE ==> final(ram)@[a] == old(ram)@[a],
{
    let font = font_bytes();
    let mut a: usize = 0;
    while a < FONTSET_SIZE
        invariant
            font@ == font_table(),
            a <= FONTSET_SIZE,
            ram.len() == RAM_SIZE,
            forall|j: int| 0 <= j < a ==> ram@[j] == font_table()[j],
            forall|j: int| a <= j < RAM_SIZE ==> ram@[j] == old(ram)@[j],
        decreases FONTSET_SIZE - a,
    {
        ram[a] = font[a];
        a += 1;
    }
}

impl Emu {
    /// Builds a machine in the initial state: glyphs seeded in low memory,
    /// the program counter at the start address, everything else zeroed.
    pub fn new() -> (r: Emu)
        ensures
            wf(r@),
            is_initial(r@),
    {
        let mut ram: Vec<u8> = vec![0u8; RAM_SIZE];
        write_font(&mut ram);
        let emu = Emu {
            pc: START_ADDR,
            ram,
            screen: vec![false; SCREEN_WIDTH * SCREEN_HEIGHT],
            v_reg: vec![0u8; NUM_REGS],
            i_reg: 0,
            sp: 0,
            stack: vec![0u16; STACK_SIZE],
            keys: vec![false; NUM_KEYS],
            dt: 0,
            st: 0,
        };
        proof {
            assert(emu@.ram =~= initial_ram());
            assert(emu@.screen =~= Seq::new((SCREEN_WIDTH * SCREEN_HEIGHT) as nat, |c: int| false));
            assert(emu@.v =~= Seq::new(NUM_REGS as nat, |r0: int| 0u8));
            assert(emu@.stack =~= Seq::new(STACK_SIZE as nat, |slot: int| 0u16));
            assert(emu@.keys =~= Seq::new(NUM_KEYS as nat, |k: int| false));
        }
        emu
    }

    /// Returns every component to its initial value: memory re-seeded with
    /// the glyph table, registers zeroed, stack emptied, display cleared.
    pub fn reset(&mut self)
        ensures
            wf(final(self)@),
            is_initial(final(self)@),
    {
        self.pc = START_ADDR;
        self.ram = vec![0u8; RAM_SIZE];
        write_font(&mut self.ram);
        self.screen = vec![false; SCREEN_WIDTH * SCREEN_HEIGHT];
        self.v_reg = vec![0u8; NUM_REGS];
        self.i_reg = 0;
        self.sp = 0;
        self.stack = vec![0u16; STACK_SIZE];
        self.keys = vec![false; NUM_KEYS];
        self.dt = 0;
        self.st = 0;
        proof {
            assert(self@.ram =~= initial_ram());
            assert(self@.screen =~= Seq::new((SCREEN_WIDTH * SCREEN_HEIGHT) as nat, |c: int| false));
            assert(self@.v =~= Seq::new(NUM_REGS as nat, |r0: int| 0u8));
            assert(self@.stack =~= Seq::new(STACK_SIZE as nat, |slot: int| 0u16));
            assert(self@.keys =~= Seq::new(NUM_KEYS as nat, |k: int| false));
        }
    }

    /// Copies a program image into memory starting at the start address.
    /// Fails with `RomTooLarge`, touching nothing, when the image does not
    /// fit below the top of memory; performs no other validation.
    pub fn load_program(&mut self, bytes: &Vec<u8>) -> (r: Result<(), Chip8Error>)
        requires
            wf(old(self)@),
        ensures
            wf(final(self)@),
            START_ADDR + bytes@.len() > RAM_SIZE ==> r == Err::<(), Chip8Error>(
                Chip8Error::RomTooLarge,
            ) && final(self)@ == old(self)@,
            START_ADDR + bytes@.len() <= RAM_SIZE ==> r is Ok && final(self)@ == (MachineState {
                ram: loaded_ram(old(self)@.ram, bytes@),
                ..old(self)@
            }),
    {
        if bytes.len() > RAM_SIZE - (START_ADDR as usize) {
            return Err(Chip8Error::RomTooLarge);
        }
        let start = START_ADDR as usize;
        let mut j: usize = 0;
        while j < bytes.len()
            invariant
                wf(old(self)@),
                START_ADDR + bytes@.len() <= RAM_SIZE,
                j <= bytes@.len(),
                self.ram@.len() == RAM_SIZE,
                start == START_ADDR,
                forall|a: int| 0 <= a < START_ADDR ==> self.ram@[a] == old(self)@.ram[a],
                forall|a: int|
                    START_ADDR <= a < START_ADDR + j ==> self.ram@[a] == bytes@[a - START_ADDR],
                forall|a: int|
                    START_ADDR + j <= a < RAM_SIZE ==> self.ram@[a] == old(self)@.ram[a],
                self@ == (MachineState { ram: self@.ram, ..old(self)@ }),
            decreases bytes@.len() - j,
        {
            self.ram[start + j] = bytes[j];
            j += 1;
        }
        proof {
            assert(self@.ram =~= loaded_ram(old(self)@.ram, bytes@));
        }
        Ok(())
    }

    /// Reads the two bytes at the program counter, forms the big-endian
    /// instruction word, and advances the counter by two. Fails with
    /// `OutOfBounds`, touching nothing, when the counter does not leave
    /// room for two bytes below the top of memory.
    pub fn fetch_opcode(&mut self) -> (r: Result<u16, Chip8Error>)
        requires
            wf(old(self)@),
        ensures
            wf(final(self)@),
            old(self)@.pc + 1 < RAM_SIZE ==> r is Ok && r->Ok_0 == (
            (old(self)@.ram[old(self)@.pc as int] as u16) << 8u16) | (old(self)@.ram[old(
                self,
            )@.pc + 1] as u16) && final(self)@ == (MachineState {
                pc: (old(self)@.pc + 2) as u16,
                ..old(self)@
            }),
            old(self)@.pc + 1 >= RAM_SIZE ==> r == Err::<u16, Chip8Error>(Chip8Error::OutOfBounds)
                && final(self)@ == old(self)@,
    {
        let pc = self.pc as usize;
        if pc + 1 >= RAM_SIZE {
            return Err(Chip8Error::OutOfBounds);
        }
        let upper_byte = self.ram[pc] as u16;
        let lower_byte = self.ram[pc + 1] as u16;
        let opcode = (upper_byte << 8u16) | lower_byte;
        self.pc = self.pc + 2;
        Ok(opcode)
    }

    /// Stores a return address and raises the stack pointer. Fails with
    /// `StackOverflow`, touching nothing, when the stack is already full.
    pub fn push(&mut self, addr: u16) -> (r: Result<(), Chip8Error>)
        requires
            wf(old(self)@),
        ensures
            wf(final(self)@),
            old(self)@.sp < STACK_SIZE ==> r is Ok && final(self)@ == spec_push(
                old(self)@,
                addr,
            ),
            old(self)@.sp >= STACK_SIZE ==> r == Err::<(), Chip8Error>(Chip8Error::StackOverflow)
                && final(self)@ == old(self)@,
    {
        if self.sp >= STACK_SIZE {
            return Err(Chip8Error::StackOverflow);
        }
        self.stack[self.sp] = addr;
        self.sp = self.sp + 1;
        Ok(())
    }

    /// Lowers the stack pointer and returns the address stored there. Fails
    /// with `StackUnderflow`, touching nothing, on an empty stack.
    pub fn pop(&mut self) -> (r: Result<u16, Chip8Error>)
        requires
            wf(old(self)@),
        ensures
            wf(final(self)@),
            old(self)@.sp > 0 ==> r is Ok && final(self)@ == spec_pop(old(self)@).0 && r->Ok_0
                == spec_pop(old(self)@).1,
            old(self)@.sp == 0 ==> r == Err::<u16, Chip8Error>(Chip8Error::StackUnderflow)
                && final(self)@ == old(self)@,
    {
        if self.sp == 0 {
            return Err(Chip8Error::StackUnderflow);
        }
        self.sp = self.sp - 1;
        let addr = self.stack[self.sp];
        Ok(addr)
    }
}

} // verus!
