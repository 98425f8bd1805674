//! Architectural state of the machine and the operations the host uses on it.

use vstd::prelude::*;

verus! {

/// Number of bytes of addressable memory.
pub const MEMORY_SIZE: usize = 4096;

/// Address at which programs are loaded.
pub const PROGRAM_START: u16 = 0x200;

/// Width of the display, in pixels.
pub const DISPLAY_WIDTH: usize = 64;

/// Height of the display, in pixels.
pub const DISPLAY_HEIGHT: usize = 32;

/// Number of display cells.
pub const DISPLAY_SIZE: usize = 2048;

/// Number of entries in the return-address stack.
pub const STACK_DEPTH: u8 = 16;

/// Index of the flag register VF.
pub const FLAG: usize = 15;

/// Hexadecimal digit glyphs, five rows each, resident at address zero.
pub const FONTSET: [u8; 80] = [
    0xF0, 0x90, 0x90, 0x90, 0xF0,  // 0
    0x20, 0x60, 0x20, 0x20, 0x70,  // 1
    0xF0, 0x10, 0xF0, 0x80, 0xF0,  // 2
    0xF0, 0x10, 0xF0, 0x10, 0xF0,  // 3
    0x90, 0x90, 0xF0, 0x10, 0x10,  // 4
    0xF0, 0x80, 0xF0, 0x10, 0xF0,  // 5
    0xF0, 0x80, 0xF0, 0x90, 0xF0,  // 6
    0xF0, 0x10, 0x20, 0x40, 0x40,  // 7
    0xF0, 0x90, 0xF0, 0x90, 0xF0,  // 8
    0xF0, 0x90, 0xF0, 0x10, 0xF0,  // 9
    0xF0, 0x90, 0xF0, 0x90, 0x90,  // A
    0xE0, 0x90, 0xE0, 0x90, 0xE0,  // B
    0xF0, 0x80, 0x80, 0x80, 0xF0,  // C
    0xE0, 0x90, 0x90, 0x90, 0xE0,  // D
    0xF0, 0x80, 0xF0, 0x80, 0xF0,  // E
    0xF0, 0x80, 0xF0, 0x80, 0x80,  // F
];

/// The font table as a sequence of bytes.
pub open spec fn font_seq() -> Seq<u8> {
    seq![
        0xF0u8, 0x90, 0x90, 0x90, 0xF0, 0x20, 0x60, 0x20, 0x20, 0x70,
        0xF0, 0x10, 0xF0, 0x80, 0xF0, 0xF0, 0x10, 0xF0, 0x10, 0xF0,
        0x90, 0x90, 0xF0, 0x10, 0x10, 0xF0, 0x80, 0xF0, 0x10, 0xF0,
        0xF0, 0x80, 0xF0, 0x90, 0xF0, 0xF0, 0x10, 0x20, 0x40, 0x40,
        0xF0, 0x90, 0xF0, 0x90, 0xF0, 0xF0, 0x90, 0xF0, 0x10, 0xF0,
        0xF0, 0x90, 0xF0, 0x90, 0x90, 0xE0, 0x90, 0xE0, 0x90, 0xE0,
        0xF0, 0x80, 0x80, 0x80, 0xF0, 0xE0, 0x90, 0x90, 0x90, 0xE0,
        0xF0, 0x80, 0xF0, 0x80, 0xF0, 0xF0, 0x80, 0xF0, 0x80, 0x80,
    ]
}

/// A fatal condition reported by the engine or the loader.
#[derive(Clone, Copy, Debug, PartialEq, Eq, Structural)]
pub enum Fault {
    /// A fetch or a memory-indexed access beyond the last byte of memory.
    OutOfBounds,
    /// A call with all sixteen stack entries in use.
    StackOverflow,
    /// A return with an empty stack.
    StackUnderflow,
    /// An opcode that the instruction set does not define.
    IllegalOpcode,
    /// A program larger than the space above the program start.
    RomTooLarge,
}

/// The mathematical model of the machine: every field of the state, with
/// the fixed-size buffers seen as sequences.
pub struct Machine {
    pub memory: Seq<u8>,
    pub display: Seq<u8>,
    pub v: Seq<u8>,
    pub index: u16,
    pub pc: u16,
    pub delay: u8,
    pub sound: u8,
    pub stack: Seq<u16>,
    pub sp: u8,
    pub keys: Seq<bool>,
}

impl Machine {
    /// Buffer sizes, stack pointer range, and one bit per display cell.
    pub open spec fn wf(&self) -> bool {
        &&& self.memory.len() == MEMORY_SIZE
        &&& self.display.len() == DISPLAY_SIZE
        &&& self.v.len() == 16
        &&& self.stack.len() == 16
        &&& self.keys.len() == 16
        &&& self.sp <= STACK_DEPTH
        &&& forall|c: int| 0 <= c < DISPLAY_SIZE ==> #[trigger] self.display[c] <= 1
    }
}

/// The machine after one frame tick: each timer that is not zero goes down
/// by one.
pub open spec fn ticked(m: Machine) -> Machine {
    Machine {
        delay: if m.delay > 0 { (m.delay - 1) as u8 } else { 0 },
        sound: if m.sound > 0 { (m.sound - 1) as u8 } else { 0 },
        ..m
    }
}

/// The complete architectural state of a CHIP-8 machine.
pub struct CPU {
    pub memory: [u8; 4096],
    pub graphics: [u8; 2048],
    pub register: [u8; 16],
    pub index_register: u16,
    pub program_counter: u16,
    pub delay_timer: u8,
    pub sound_timer: u8,
    pub stack: [u16; 16],
    pub stack_pointer: u8,
    pub keys: [bool; 16],
}

impl View for CPU {
    type V = Machine;

    open spec fn view(&self) -> Machine {
        Machine {
            memory: self.memory@,
            display: self.graphics@,
            v: self.register@,
            index: self.index_register,
            pc: self.program_counter,
            delay: self.delay_timer,
            sound: self.sound_timer,
            stack: self.stack@,
            sp: self.stack_pointer,
            keys: self.keys@,
        }
    }
}

impl CPU {
    /// The state is well formed: its model is.
    pub open spec fn wf(&self) -> bool {
        self@.wf()
    }

    /// A fresh machine: memory zeroed but for the font table at address
    /// zero, registers, timers, stack and keys cleared, the display blank,
    /// and the program counter at the program start.
    pub fn init() -> (r: CPU)
        ensures
            r.wf(),
            r@.memory.subrange(0, 80) == font_seq(),
            forall|a: int| 80 <= a < MEMORY_SIZE ==> #[trigger] r@.memory[a] == 0,
            forall|c: int| 0 <= c < DISPLAY_SIZE ==> #[trigger] r@.display[c] == 0,
            forall|i: int| 0 <= i < 16 ==> #[trigger] r@.v[i] == 0,
            forall|i: int| 0 <= i < 16 ==> #[trigger] r@.stack[i] == 0,
            forall|i: int| 0 <= i < 16 ==> !#[trigger] r@.keys[i],
            r@.index == 0,
            r@.pc == PROGRAM_START,
            r@.delay == 0,
            r@.sound == 0,
            r@.sp == 0,
    {
        let mut cpu = CPU {
            memory: [0u8; 4096],
            graphics: [0u8; 2048],
            register: [0u8; 16],
            index_register: 0,
            program_counter: PROGRAM_START,
            delay_timer: 0,
            sound_timer: 0,
            stack: [0u16; 16],
            stack_pointer: 0,
            keys: [false; 16],
        };
        let font = FONTSET;
        assert(font@ == font_seq());
        let mut i: usize = 0;
        while i < 80
            invariant
                i <= 80,
                font@ == font_seq(),
                forall|a: int| 0 <= a < i ==> #[trigger] cpu.memory@[a] == font_seq()[a],
                forall|a: int| i <= a < MEMORY_SIZE ==> #[trigger] cpu.memory@[a] == 0,
                forall|c: int| 0 <= c < DISPLAY_SIZE ==> #[trigger] cpu.graphics@[c] == 0,
                forall|k: int| 0 <= k < 16 ==> #[trigger] cpu.register@[k] == 0,
                forall|k: int| 0 <= k < 16 ==> #[trigger] cpu.stack@[k] == 0,
                forall|k: int| 0 <= k < 16 ==> !#[trigger] cpu.keys@[k],
                cpu.index_register == 0,
                cpu.program_counter == PROGRAM_START,
                cpu.delay_timer == 0,
                cpu.sound_timer == 0,
                cpu.stack_pointer == 0,
            decreases 80 - i,
        {
            cpu.memory[i] = font[i];
            i += 1;
        }
        assert(cpu@.memory.subrange(0, 80) =~= font_seq());
        cpu
    }
    /// Copies a program into memory at the program start. A program longer
    /// than the space left above it is refused and memory is left as it was.
    pub fn load_program(&mut self, bytes: &[u8]) -> (r: Result<(), Fault>)
        requires
            old(self).wf(),
        ensures
            final(self).wf(),
            r is Err <==> bytes@.len() > MEMORY_SIZE - PROGRAM_START,
            r is Err ==> r == Err::<(), Fault>(Fault::RomTooLarge) && final(self)@ == old(self)@,
            r is Ok ==> final(self)@ == (Machine {
                memory: Seq::new(
                    MEMORY_SIZE as nat,
                    |a: int|
                        if PROGRAM_START <= a < PROGRAM_START + bytes@.len() {
                            bytes@[a - PROGRAM_START]
                        } else {
                            old(self)@.memory[a]
                        },
                ),
                ..old(self)@
            }),
    {
        if bytes.len() > MEMORY_SIZE - PROGRAM_START as usize {
            return Err(Fault::RomTooLarge);
        }
        let ghost before = self@;
        let mut i: usize = 0;
        while i < bytes.len()
            invariant
                i <= bytes@.len() <= MEMORY_SIZE - PROGRAM_START,
                self@ == (Machine { memory: self@.memory, ..before }),
                self@.memory.len() == MEMORY_SIZE,
                forall|a: int|
                    0 <= a < MEMORY_SIZE ==> #[trigger] self@.memory[a] == if PROGRAM_START <= a
                        < PROGRAM_START + i {
                        bytes@[a - PROGRAM_START]
                    } else {
                        before.memory[a]
                    },
            decreases bytes@.len() - i,
        {
            self.memory[PROGRAM_START as usize + i] = bytes[i];
            i += 1;
        }
        assert(self@.memory =~= Seq::new(
            MEMORY_SIZE as nat,
            |a: int|
                if PROGRAM_START <= a < PROGRAM_START + bytes@.len() {
                    bytes@[a - PROGRAM_START]
                } else {
                    before.memory[a]
                },
        ));
        Ok(())
    }

    /// One frame tick: each timer that is not zero goes down by one.
    pub fn tick_timers(&mut self)
        requires
            old(self).wf(),
        ensures
            final(self)@ == ticked(old(self)@),
            final(self).wf(),
    {
        if self.delay_timer > 0 {
            self.delay_timer = self.delay_timer - 1;
        }
        if self.sound_timer > 0 {
            self.sound_timer = self.sound_timer - 1;
        }
    }

    /// Records whether key `index` of the keypad is held down.
    pub fn set_key(&mut self, index: usize, pressed: bool)
        requires
            old(self).wf(),
            index < 16,
        ensures
            final(self)@ == (Machine { keys: old(self)@.keys.update(index as int, pressed), ..old(self)@ }),
    {
        self.keys[index] = pressed;
    }

    /// A copy of the display cells, row after row.
    pub fn display_snapshot(&self) -> (r: [u8; 2048])
        ensures
            r@ == self@.display,
    {
        self.graphics
    }

    /// Moves the program counter on to the next instruction.
    pub fn increment_program_counter(&mut self)
        requires
            old(self).program_counter <= u16::MAX - 2,
        ensures
            final(self)@ == (Machine { pc: (old(self)@.pc + 2) as u16, ..old(self)@ }),
    {
        self.program_counter = self.program_counter + 2;
    }

    /// Records one more entry on the return-address stack.
    pub fn increment_stack_pointer(&mut self)
        requires
            old(self).stack_pointer < STACK_DEPTH,
        ensures
            final(self)@ == (Machine { sp: (old(self)@.sp + 1) as u8, ..old(self)@ }),
    {
        self.stack_pointer = self.stack_pointer + 1;
    }
}

} // verus!
