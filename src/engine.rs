//! The fetch-decode-execute engine and its specification.

use vstd::prelude::*;
use crate::instruction::{Instruction, decoded};
use crate::state::{CPU, Fault, Machine, MEMORY_SIZE, DISPLAY_SIZE, FLAG, STACK_DEPTH, ticked};

verus! {

/// Whether column `col` (0 to 7, most significant bit first) of a sprite
/// row is set.
pub open spec fn pixel_set(bits: u8, col: int) -> bool {
    bits & (0x80u8 >> (col as u8)) != 0
}

/// The sprite row that display cell `c` falls on when a sprite is drawn
/// with its top at row `vy`, rows wrapping around.
pub open spec fn sprite_row(vy: u8, c: int) -> int {
    (c / 64 - vy) % 32
}

/// The sprite column that display cell `c` falls on when a sprite is
/// drawn with its left edge at column `vx`, columns wrapping around.
pub open spec fn sprite_col(vx: u8, c: int) -> int {
    (c % 64 - vx) % 64
}

/// The display cell of sprite row `r` and column `k`, drawn at (vx, vy).
pub open spec fn cell_at(vx: u8, vy: u8, r: int, k: int) -> int {
    ((vy + r) % 32) * 64 + (vx + k) % 64
}

/// Cell `c` is toggled by one of the first `limit` sprite pixels, taken
/// row by row, most significant bit first.
pub open spec fn lit_within(sprite: Seq<u8>, vx: u8, vy: u8, c: int, limit: int) -> bool {
    let r = sprite_row(vy, c);
    let k = sprite_col(vx, c);
    &&& r < sprite.len()
    &&& k < 8
    &&& r * 8 + k < limit
    &&& pixel_set(sprite[r], k)
}

/// Cell `c` is toggled by drawing `sprite` at (vx, vy).
pub open spec fn lit(sprite: Seq<u8>, vx: u8, vy: u8, c: int) -> bool {
    lit_within(sprite, vx, vy, c, 8 * sprite.len() as int)
}

/// The display after drawing `sprite` at (vx, vy): every toggled cell is
/// flipped, every other cell kept.
pub open spec fn drawn(display: Seq<u8>, sprite: Seq<u8>, vx: u8, vy: u8) -> Seq<u8> {
    Seq::new(
        display.len(),
        |c: int|
            if lit(sprite, vx, vy, c) {
                display[c] ^ 1
            } else {
                display[c]
            },
    )
}

/// Drawing `sprite` at (vx, vy) turns at least one lit cell off.
pub open spec fn collides(display: Seq<u8>, sprite: Seq<u8>, vx: u8, vy: u8) -> bool {
    exists|c: int| 0 <= c < display.len() && lit(sprite, vx, vy, c) && display[c] == 1
}

/// Each sprite pixel lands on exactly one display cell, whatever the
/// origin: the cell of row `r`, column `k`, with both coordinates wrapped.
pub proof fn lemma_cell_position(vx: u8, vy: u8, r: int, k: int, c: int)
    requires
        0 <= r < 16,
        0 <= k < 8,
        0 <= c < DISPLAY_SIZE,
    ensures
        0 <= cell_at(vx, vy, r, k) < DISPLAY_SIZE,
        (sprite_row(vy, c) == r && sprite_col(vx, c) == k) <==> c == cell_at(vx, vy, r, k),
{
    let cy = c / 64;
    let cx = c % 64;
    assert(c == cy * 64 + cx && 0 <= cy < 32 && 0 <= cx < 64);
    let ty = (vy + r) % 32;
    let tx = (vx + k) % 64;
    assert(0 <= ty < 32 && 0 <= tx < 64);
    if c == cell_at(vx, vy, r, k) {
        assert(cy == ty && cx == tx);
    }
    if sprite_row(vy, c) == r && sprite_col(vx, c) == k {
        assert(cy == ty);
        assert(cx == tx);
    }
}

/// Flipping a one-bit cell twice gives it back, and keeps it one bit wide.
pub proof fn lemma_flip(b: u8)
    requires
        b <= 1,
    ensures
        (b ^ 1) ^ 1 == b,
        b ^ 1 <= 1,
        (b ^ 1 == 0) <==> (b == 1),
{
    assert((b ^ 1) ^ 1 == b) by (bit_vector);
    assert(b <= 1 ==> b ^ 1 <= 1) by (bit_vector);
    assert(b <= 1 ==> ((b ^ 1 == 0) <==> (b == 1))) by (bit_vector);
}

/// The `n` bytes of memory from the index register on.
pub open spec fn sprite_of(m: Machine, n: u8) -> Seq<u8> {
    m.memory.subrange(m.index as int, m.index + n)
}

/// VF after a draw: one exactly when some pixel was turned off.
pub open spec fn collision_flag(display: Seq<u8>, sprite: Seq<u8>, vx: u8, vy: u8) -> u8 {
    if collides(display, sprite, vx, vy) {
        1
    } else {
        0
    }
}

/// The machine after drawing the `n`-row sprite at the index register at
/// (VX, VY), before the program counter moves on.
pub open spec fn after_draw(m: Machine, x: u8, y: u8, n: u8) -> Machine {
    let sprite = sprite_of(m, n);
    let (vx, vy) = (m.v[x as int], m.v[y as int]);
    Machine {
        display: drawn(m.display, sprite, vx, vy),
        v: m.v.update(FLAG as int, collision_flag(m.display, sprite, vx, vy)),
        ..m
    }
}

/// The machine with its program counter moved on by `by` bytes.
pub open spec fn advance(m: Machine, by: int) -> Machine {
    Machine { pc: (m.pc + by) as u16, ..m }
}

/// The machine moved on to the next instruction, or past it when `skip`.
pub open spec fn skip_if(m: Machine, skip: bool) -> Machine {
    advance(m, if skip { 4 } else { 2 })
}

/// The machine with register `x` set to `val`, moved on to the next
/// instruction.
pub open spec fn set_reg(m: Machine, x: u8, val: u8) -> Machine {
    advance(Machine { v: m.v.update(x as int, val), ..m }, 2)
}

/// The machine with VF set to `flag` and then register `x` set to `val`,
/// moved on to the next instruction.
pub open spec fn set_reg_flag(m: Machine, x: u8, val: u8, flag: u8) -> Machine {
    advance(Machine { v: m.v.update(FLAG as int, flag).update(x as int, val), ..m }, 2)
}

/// The machine with register `x` set to `val` and then VF set to `flag`,
/// moved on to the next instruction: the flag wins when `x` names VF.
pub open spec fn set_reg_then_flag(m: Machine, x: u8, val: u8, flag: u8) -> Machine {
    advance(Machine { v: m.v.update(x as int, val).update(FLAG as int, flag), ..m }, 2)
}

/// An integer reduced to its low eight bits.
pub open spec fn wrap8(i: int) -> u8 {
    (i % 256) as u8
}

/// Whether the key named by the low nibble of VX is down.
pub open spec fn key_down(m: Machine, x: u8) -> bool {
    m.keys[(m.v[x as int] % 16) as int]
}

/// The lowest key from `from` on that is down, or 16 when none is.
pub open spec fn first_pressed(keys: Seq<bool>, from: int) -> int
    decreases 16 - from,
{
    if from >= 16 {
        16
    } else if keys[from] {
        from
    } else {
        first_pressed(keys, from + 1)
    }
}

/// One byte of the decimal form of `b`: hundreds, tens or ones for
/// `place` 0, 1 or 2.
pub open spec fn decimal_digit(b: u8, place: int) -> u8 {
    if place == 0 {
        b / 100
    } else if place == 1 {
        b / 10 % 10
    } else {
        b % 10
    }
}

/// The effect of executing `ins` on `m`, where `rnd` is the random byte
/// that `CXKK` draws: the next machine, or the fault raised.
pub open spec fn step(m: Machine, ins: Instruction, rnd: u8) -> Result<Machine, Fault> {
    match ins {
        Instruction::ClearScreen => Ok(
            advance(Machine { display: Seq::new(DISPLAY_SIZE as nat, |c: int| 0u8), ..m }, 2),
        ),
        Instruction::Return => if m.sp == 0 {
            Err(Fault::StackUnderflow)
        } else {
            Ok(Machine { sp: (m.sp - 1) as u8, pc: m.stack[m.sp - 1], ..m })
        },
        Instruction::Jump { addr } => Ok(Machine { pc: addr, ..m }),
        Instruction::Call { addr } => if m.sp >= STACK_DEPTH {
            Err(Fault::StackOverflow)
        } else {
            Ok(
                Machine {
                    stack: m.stack.update(m.sp as int, (m.pc + 2) as u16),
                    sp: (m.sp + 1) as u8,
                    pc: addr,
                    ..m
                },
            )
        },
        Instruction::SkipEqByte { x, kk } => Ok(skip_if(m, m.v[x as int] == kk)),
        Instruction::SkipNeByte { x, kk } => Ok(skip_if(m, m.v[x as int] != kk)),
        Instruction::SkipEqReg { x, y } => Ok(skip_if(m, m.v[x as int] == m.v[y as int])),
        Instruction::LoadByte { x, kk } => Ok(set_reg(m, x, kk)),
        Instruction::AddByte { x, kk } => Ok(set_reg(m, x, wrap8(m.v[x as int] + kk))),
        Instruction::Move { x, y } => Ok(set_reg(m, x, m.v[y as int])),
        Instruction::Or { x, y } => Ok(set_reg(m, x, m.v[x as int] | m.v[y as int])),
        Instruction::And { x, y } => Ok(set_reg(m, x, m.v[x as int] & m.v[y as int])),
        Instruction::Xor { x, y } => Ok(set_reg(m, x, m.v[x as int] ^ m.v[y as int])),
        Instruction::AddReg { x, y } => {
            let sum = m.v[x as int] + m.v[y as int];
            Ok(set_reg_flag(m, x, wrap8(sum), if sum > 255 { 1 } else { 0 }))
        },
        Instruction::SubReg { x, y } => {
            let (a, b) = (m.v[x as int], m.v[y as int]);
            Ok(set_reg_flag(m, x, wrap8(a - b), if a > b { 1 } else { 0 }))
        },
        Instruction::ShiftRight { x, y } => {
            let a = m.v[x as int];
            Ok(set_reg_then_flag(m, x, a / 2, a % 2))
        },
        Instruction::SubNeg { x, y } => {
            let (a, b) = (m.v[x as int], m.v[y as int]);
            Ok(set_reg_flag(m, x, wrap8(b - a), if b > a { 1 } else { 0 }))
        },
        Instruction::ShiftLeft { x, y } => {
            let a = m.v[x as int];
            Ok(set_reg_then_flag(m, x, wrap8(a * 2), a / 128))
        },
        Instruction::SkipNeReg { x, y } => Ok(skip_if(m, m.v[x as int] != m.v[y as int])),
        Instruction::LoadIndex { addr } => Ok(advance(Machine { index: addr, ..m }, 2)),
        Instruction::JumpOffset { addr } => Ok(Machine { pc: (addr + m.v[0]) as u16, ..m }),
        Instruction::Random { x, kk } => Ok(set_reg(m, x, rnd & kk)),
        Instruction::Draw { x, y, n } => if m.index + n > MEMORY_SIZE {
            Err(Fault::OutOfBounds)
        } else {
            Ok(advance(after_draw(m, x, y, n), 2))
        },
        Instruction::SkipKeyPressed { x } => Ok(skip_if(m, key_down(m, x))),
        Instruction::SkipKeyReleased { x } => Ok(skip_if(m, !key_down(m, x))),
        Instruction::LoadDelay { x } => Ok(set_reg(m, x, m.delay)),
        Instruction::WaitKey { x } => {
            let key = first_pressed(m.keys, 0);
            if key < 16 {
                Ok(set_reg(m, x, key as u8))
            } else {
                Ok(m)
            }
        },
        Instruction::SetDelay { x } => Ok(advance(Machine { delay: m.v[x as int], ..m }, 2)),
        Instruction::SetSound { x } => Ok(advance(Machine { sound: m.v[x as int], ..m }, 2)),
        Instruction::AddIndex { x } => Ok(
            advance(Machine { index: ((m.index + m.v[x as int]) % 0x10000) as u16, ..m }, 2),
        ),
        Instruction::LoadFont { x } => Ok(
            advance(Machine { index: ((m.v[x as int] % 16) * 5) as u16, ..m }, 2),
        ),
        Instruction::StoreBcd { x } => if m.index + 3 > MEMORY_SIZE {
            Err(Fault::OutOfBounds)
        } else {
            Ok(
                advance(
                    Machine {
                        memory: Seq::new(
                            MEMORY_SIZE as nat,
                            |a: int|
                                if m.index <= a < m.index + 3 {
                                    decimal_digit(m.v[x as int], a - m.index)
                                } else {
                                    m.memory[a]
                                },
                        ),
                        ..m
                    },
                    2,
                ),
            )
        },
        Instruction::StoreRegs { x } => if m.index + x + 1 > MEMORY_SIZE {
            Err(Fault::OutOfBounds)
        } else {
            Ok(
                advance(
                    Machine {
                        memory: Seq::new(
                            MEMORY_SIZE as nat,
                            |a: int|
                                if m.index <= a <= m.index + x {
                                    m.v[a - m.index]
                                } else {
                                    m.memory[a]
                                },
                        ),
                        ..m
                    },
                    2,
                ),
            )
        },
        Instruction::LoadRegs { x } => if m.index + x + 1 > MEMORY_SIZE {
            Err(Fault::OutOfBounds)
        } else {
            Ok(
                advance(
                    Machine {
                        v: Seq::new(
                            16,
                            |i: int|
                                if i <= x {
                                    m.memory[m.index + i]
                                } else {
                                    m.v[i]
                                },
                        ),
                        ..m
                    },
                    2,
                ),
            )
        },
    }
}

/// `after` and `r` are what a run whose specified outcome is `expected`
/// leaves: the next machine on success, or the fault with the machine
/// untouched.
pub open spec fn performs(
    before: Machine,
    after: Machine,
    r: Result<(), Fault>,
    expected: Result<Machine, Fault>,
) -> bool {
    match expected {
        Ok(next) => r is Ok && after == next,
        Err(e) => r == Err::<(), Fault>(e) && after == before,
    }
}

/// The big-endian opcode at the program counter.
pub open spec fn opcode_at(m: Machine) -> u16 {
    (m.memory[m.pc as int] * 256 + m.memory[m.pc + 1]) as u16
}

/// The effect of one fetch-decode-execute cycle on `m`: a fetch past the
/// end of memory is `OutOfBounds`, an opcode outside the table
/// `IllegalOpcode`, and anything else the step of the decoded instruction.
#[verifier::opaque]
pub open spec fn cycle_step(m: Machine, rnd: u8) -> Result<Machine, Fault> {
    if m.pc + 1 >= MEMORY_SIZE {
        Err(Fault::OutOfBounds)
    } else {
        match decoded(opcode_at(m)) {
            Ok(ins) => step(m, ins, rnd),
            Err(e) => Err(e),
        }
    }
}

/// Runs one cycle for each byte of `rnds` in turn, that byte being the one
/// a `CXKK` draws, and stops at the first fault: the machine reached, and
/// the fault if there was one.
pub open spec fn run_cycles(m: Machine, rnds: Seq<u8>) -> (Machine, Option<Fault>)
    decreases rnds.len(),
{
    if rnds.len() == 0 {
        (m, None)
    } else {
        let (reached, fault) = run_cycles(m, rnds.drop_last());
        if fault is Some {
            (reached, fault)
        } else {
            match cycle_step(reached, rnds.last()) {
                Ok(next) => (next, None),
                Err(e) => (reached, Some(e)),
            }
        }
    }
}

/// `after` and `r` are what a frame of `cycles` cycles leaves when the
/// random bytes drawn were `rnds`: with no fault, every cycle ran and the
/// timers ticked once; on a fault, the cycles up to the faulting one ran,
/// that one changed nothing, and the timers did not tick.
pub open spec fn frame_outcome(
    before: Machine,
    after: Machine,
    r: Result<(), Fault>,
    rnds: Seq<u8>,
    cycles: nat,
) -> bool {
    let (reached, fault) = run_cycles(before, rnds);
    match fault {
        None => rnds.len() == cycles && r is Ok && after == ticked(reached),
        Some(e) => rnds.len() <= cycles && r == Err::<(), Fault>(e) && after == reached,
    }
}

/// Running one more cycle after a run that did not fault extends it by
/// that cycle's outcome.
proof fn lemma_run_one_more(
    start: Machine,
    rnds: Seq<u8>,
    b: u8,
    after: Machine,
    r: Result<(), Fault>,
)
    requires
        run_cycles(start, rnds).1 is None,
        performs(run_cycles(start, rnds).0, after, r, cycle_step(run_cycles(start, rnds).0, b)),
    ensures
        run_cycles(start, rnds.push(b)) == (after, match r {
            Ok(_) => None::<Fault>,
            Err(e) => Some(e),
        }),
{
    assert(rnds.push(b).drop_last() =~= rnds);
}

/// Relies on rand::random: it returns some byte drawn from the
/// thread-local generator; nothing is promised of which.
#[verifier::external_body]
fn random_byte() -> (r: u8) {
    rand::random::<u8>()
}

impl CPU {
    /// Reads the opcode at the program counter, high byte first. Fails
    /// with `OutOfBounds` when its second byte lies past the end of memory.
    pub fn fetch(&self) -> (r: Result<u16, Fault>)
        requires
            self.wf(),
        ensures
            r == if self@.pc + 1 >= MEMORY_SIZE {
                Err::<u16, Fault>(Fault::OutOfBounds)
            } else {
                Ok::<u16, Fault>(opcode_at(self@))
            },
    {
        let pc = self.program_counter as usize;
        if pc + 1 >= MEMORY_SIZE {
            return Err(Fault::OutOfBounds);
        }
        Ok(self.memory[pc] as u16 * 256 + self.memory[pc + 1] as u16)
    }

    /// Performs one cycle with `rnd` as the byte that a `CXKK` instruction
    /// draws: fetch, decode and execute, as `cycle_step` says.
    pub fn cycle_with(&mut self, rnd: u8) -> (r: Result<(), Fault>)
        requires
            old(self).wf(),
        ensures
            performs(old(self)@, final(self)@, r, cycle_step(old(self)@, rnd)),
            final(self).wf(),
    {
        reveal(cycle_step);
        let op = match self.fetch() {
            Ok(op) => op,
            Err(e) => return Err(e),
        };
        let ins = match Instruction::decode(op) {
            Ok(ins) => ins,
            Err(e) => return Err(e),
        };
        self.execute(ins, rnd)
    }

    /// Performs one fetch-decode-execute cycle. A `CXKK` instruction draws
    /// its byte from the thread-local random generator; the outcome is the
    /// one `cycle_step` gives for some byte.
    pub fn cycle(&mut self) -> (r: Result<(), Fault>)
        requires
            old(self).wf(),
        ensures
            exists|rnd: u8| performs(old(self)@, final(self)@, r, #[trigger] cycle_step(old(self)@, rnd)),
            final(self).wf(),
    {
        reveal(cycle_step);
        let op = match self.fetch() {
            Ok(op) => op,
            Err(e) => {
                assert(performs(old(self)@, self@, Err(e), cycle_step(old(self)@, 0)));
                return Err(e);
            },
        };
        let ins = match Instruction::decode(op) {
            Ok(ins) => ins,
            Err(e) => {
                assert(performs(old(self)@, self@, Err(e), cycle_step(old(self)@, 0)));
                return Err(e);
            },
        };
        let rnd: u8 = match ins {
            Instruction::Random { .. } => random_byte(),
            _ => 0,
        };
        let r = self.execute(ins, rnd);
        assert(performs(old(self)@, self@, r, cycle_step(old(self)@, rnd)));
        r
    }

    /// Runs one frame: `cycles` cycles, stopping at the first fault, then,
    /// if none came, one timer tick.
    pub fn run_frame(&mut self, cycles: usize) -> (r: Result<(), Fault>)
        requires
            old(self).wf(),
        ensures
            exists|rnds: Seq<u8>| #[trigger] frame_outcome(old(self)@, final(self)@, r, rnds, cycles as nat),
            final(self).wf(),
    {
        let ghost start = self@;
        let ghost mut rnds: Seq<u8> = Seq::empty();
        let mut i: usize = 0;
        while i < cycles
            invariant
                self.wf(),
                start == old(self)@,
                i <= cycles,
                rnds.len() == i,
                run_cycles(start, rnds) == (self@, None::<Fault>),
            decreases cycles - i,
        {
            let ghost prev = self@;
            let r = self.cycle();
            proof {
                let b = choose|b: u8| performs(prev, self@, r, #[trigger] cycle_step(prev, b));
                lemma_run_one_more(start, rnds, b, self@, r);
                rnds = rnds.push(b);
            }
            if let Err(e) = r {
                assert(frame_outcome(start, self@, Err(e), rnds, cycles as nat));
                return Err(e);
            }
            i += 1;
        }
        self.tick_timers();
        assert(frame_outcome(start, self@, Ok(()), rnds, cycles as nat));
        Ok(())
    }

    /// Executes one decoded instruction; `rnd` is the byte that `CXKK`
    /// masks. On success the machine is the one `step` gives; on a fault it
    /// is left as it was.
    pub fn execute(&mut self, ins: Instruction, rnd: u8) -> (r: Result<(), Fault>)
        requires
            old(self).wf(),
            ins.wf(),
            old(self).program_counter as int + 1 < MEMORY_SIZE,
        ensures
            performs(old(self)@, final(self)@, r, step(old(self)@, ins, rnd)),
            final(self).wf(),
    {
        match ins {
            Instruction::ClearScreen | Instruction::Return | Instruction::Jump { .. } | Instruction::Call { .. } | Instruction::SkipEqByte { .. } | Instruction::SkipNeByte { .. } | Instruction::SkipEqReg { .. } | Instruction::SkipNeReg { .. } | Instruction::JumpOffset { .. } | Instruction::SkipKeyPressed { .. } | Instruction::SkipKeyReleased { .. } => self.execute_control(ins, rnd),
            Instruction::LoadByte { .. } | Instruction::AddByte { .. } | Instruction::Move { .. } | Instruction::Or { .. } | Instruction::And { .. } | Instruction::Xor { .. } | Instruction::AddReg { .. } | Instruction::SubReg { .. } | Instruction::ShiftRight { .. } | Instruction::SubNeg { .. } | Instruction::ShiftLeft { .. } | Instruction::Random { .. } => self.execute_arithmetic(ins, rnd),
            Instruction::LoadIndex { .. } | Instruction::WaitKey { .. } | Instruction::LoadDelay { .. } | Instruction::SetDelay { .. } | Instruction::SetSound { .. } | Instruction::AddIndex { .. } | Instruction::LoadFont { .. } => self.execute_system(ins, rnd),
            Instruction::Draw { .. } | Instruction::StoreBcd { .. } | Instruction::StoreRegs { .. } | Instruction::LoadRegs { .. } => self.execute_memory(ins, rnd),
        }
    }

    /// Executes an instruction of the control flow: clear, return, jumps, calls and skips group.
    #[verifier::spinoff_prover]
    fn execute_control(&mut self, ins: Instruction, rnd: u8) -> (r: Result<(), Fault>)
        requires
            old(self).wf(),
            ins.wf(),
            old(self).program_counter as int + 1 < MEMORY_SIZE,
            ins is ClearScreen || ins is Return || ins is Jump || ins is Call || ins is SkipEqByte || ins is SkipNeByte || ins is SkipEqReg || ins is SkipNeReg || ins is JumpOffset || ins is SkipKeyPressed || ins is SkipKeyReleased,
        ensures
            performs(old(self)@, final(self)@, r, step(old(self)@, ins, rnd)),
            final(self).wf(),
    {
        match ins {
            Instruction::ClearScreen => {
                self.graphics = [0u8; 2048];
                assert(self@.display =~= Seq::new(DISPLAY_SIZE as nat, |c: int| 0u8));
                self.increment_program_counter();
            },
            Instruction::Return => {
                if self.stack_pointer == 0 {
                    return Err(Fault::StackUnderflow);
                }
                self.stack_pointer = self.stack_pointer - 1;
                self.program_counter = self.stack[self.stack_pointer as usize];
            },
            Instruction::Jump { addr } => {
                self.program_counter = addr;
            },
            Instruction::Call { addr } => {
                if self.stack_pointer >= STACK_DEPTH {
                    return Err(Fault::StackOverflow);
                }
                self.stack[self.stack_pointer as usize] = self.program_counter + 2;
                self.increment_stack_pointer();
                self.program_counter = addr;
            },
            Instruction::SkipEqByte { x, kk } => {
                if self.register[x as usize] == kk {
                    self.increment_program_counter();
                }
                self.increment_program_counter();
            },
            Instruction::SkipNeByte { x, kk } => {
                if self.register[x as usize] != kk {
                    self.increment_program_counter();
                }
                self.increment_program_counter();
            },
            Instruction::SkipEqReg { x, y } => {
                if self.register[x as usize] == self.register[y as usize] {
                    self.increment_program_counter();
                }
                self.increment_program_counter();
            },
            Instruction::SkipNeReg { x, y } => {
                if self.register[x as usize] != self.register[y as usize] {
                    self.increment_program_counter();
                }
                self.increment_program_counter();
            },
            Instruction::JumpOffset { addr } => {
                self.program_counter = addr + self.register[0] as u16;
            },
            Instruction::SkipKeyPressed { x } => {
                if self.keys[(self.register[x as usize] % 16) as usize] {
                    self.increment_program_counter();
                }
                self.increment_program_counter();
            },
            Instruction::SkipKeyReleased { x } => {
                if !self.keys[(self.register[x as usize] % 16) as usize] {
                    self.increment_program_counter();
                }
                self.increment_program_counter();
            },
            _ => {},
        }
        Ok(())
    }

    /// Executes an instruction of the register loads and arithmetic group.
    #[verifier::spinoff_prover]
    fn execute_arithmetic(&mut self, ins: Instruction, rnd: u8) -> (r: Result<(), Fault>)
        requires
            old(self).wf(),
            ins.wf(),
            old(self).program_counter as int + 1 < MEMORY_SIZE,
            ins is LoadByte || ins is AddByte || ins is Move || ins is Or || ins is And || ins is Xor || ins is AddReg || ins is SubReg || ins is ShiftRight || ins is SubNeg || ins is ShiftLeft || ins is Random,
        ensures
            performs(old(self)@, final(self)@, r, step(old(self)@, ins, rnd)),
            final(self).wf(),
    {
        match ins {
            Instruction::LoadByte { x, kk } => {
                self.register[x as usize] = kk;
                self.increment_program_counter();
            },
            Instruction::AddByte { x, kk } => {
                let a = self.register[x as usize];
                self.register[x as usize] = ((a as u16 + kk as u16) % 256) as u8;
                self.increment_program_counter();
            },
            Instruction::Move { x, y } => {
                self.register[x as usize] = self.register[y as usize];
                self.increment_program_counter();
            },
            Instruction::Or { x, y } => {
                self.register[x as usize] = self.register[x as usize] | self.register[y as usize];
                self.increment_program_counter();
            },
            Instruction::And { x, y } => {
                self.register[x as usize] = self.register[x as usize] & self.register[y as usize];
                self.increment_program_counter();
            },
            Instruction::Xor { x, y } => {
                self.register[x as usize] = self.register[x as usize] ^ self.register[y as usize];
                self.increment_program_counter();
            },
            Instruction::AddReg { x, y } => {
                let sum = self.register[x as usize] as u16 + self.register[y as usize] as u16;
                self.register[FLAG] = if sum > 255 { 1 } else { 0 };
                self.register[x as usize] = (sum % 256) as u8;
                self.increment_program_counter();
            },
            Instruction::SubReg { x, y } => {
                let a = self.register[x as usize];
                let b = self.register[y as usize];
                self.register[FLAG] = if a > b { 1 } else { 0 };
                self.register[x as usize] = ((a as u16 + 256 - b as u16) % 256) as u8;
                self.increment_program_counter();
            },
            Instruction::ShiftRight { x, y } => {
                let a = self.register[x as usize];
                self.register[x as usize] = a / 2;
                self.register[FLAG] = a % 2;
                self.increment_program_counter();
            },
            Instruction::SubNeg { x, y } => {
                let a = self.register[x as usize];
                let b = self.register[y as usize];
                self.register[FLAG] = if b > a { 1 } else { 0 };
                self.register[x as usize] = ((b as u16 + 256 - a as u16) % 256) as u8;
                self.increment_program_counter();
            },
            Instruction::ShiftLeft { x, y } => {
                let a = self.register[x as usize];
                self.register[x as usize] = ((a as u16 * 2) % 256) as u8;
                self.register[FLAG] = a / 128;
                self.increment_program_counter();
            },
            Instruction::Random { x, kk } => {
                self.register[x as usize] = rnd & kk;
                self.increment_program_counter();
            },
            _ => {},
        }
        Ok(())
    }

    /// Executes an instruction of the timers, keys and the index register group.
    #[verifier::spinoff_prover]
    fn execute_system(&mut self, ins: Instruction, rnd: u8) -> (r: Result<(), Fault>)
        requires
            old(self).wf(),
            ins.wf(),
            old(self).program_counter as int + 1 < MEMORY_SIZE,
            ins is LoadIndex || ins is WaitKey || ins is LoadDelay || ins is SetDelay || ins is SetSound || ins is AddIndex || ins is LoadFont,
        ensures
            performs(old(self)@, final(self)@, r, step(old(self)@, ins, rnd)),
            final(self).wf(),
    {
        match ins {
            Instruction::LoadIndex { addr } => {
                self.index_register = addr;
                self.increment_program_counter();
            },
            Instruction::WaitKey { x } => {
                let mut key: usize = 0;
                while key < 16 && !self.keys[key]
                    invariant
                        key <= 16,
                        self.wf(),
                        first_pressed(self@.keys, 0) == first_pressed(self@.keys, key as int),
                    decreases 16 - key,
                {
                    key += 1;
                }
                if key < 16 {
                    self.register[x as usize] = key as u8;
                    self.increment_program_counter();
                }
            },
            Instruction::LoadDelay { x } => {
                self.register[x as usize] = self.delay_timer;
                self.increment_program_counter();
            },
            Instruction::SetDelay { x } => {
                self.delay_timer = self.register[x as usize];
                self.increment_program_counter();
            },
            Instruction::SetSound { x } => {
                self.sound_timer = self.register[x as usize];
                self.increment_program_counter();
            },
            Instruction::AddIndex { x } => {
                self.index_register = ((self.index_register as u32 + self.register[x as usize] as u32)
                    % 0x10000) as u16;
                self.increment_program_counter();
            },
            Instruction::LoadFont { x } => {
                self.index_register = ((self.register[x as usize] % 16) as u16) * 5;
                self.increment_program_counter();
            },
            _ => {},
        }
        Ok(())
    }

    /// Executes an instruction of the drawing and block memory transfers group.
    #[verifier::spinoff_prover]
    fn execute_memory(&mut self, ins: Instruction, rnd: u8) -> (r: Result<(), Fault>)
        requires
            old(self).wf(),
            ins.wf(),
            old(self).program_counter as int + 1 < MEMORY_SIZE,
            ins is Draw || ins is StoreBcd || ins is StoreRegs || ins is LoadRegs,
        ensures
            performs(old(self)@, final(self)@, r, step(old(self)@, ins, rnd)),
            final(self).wf(),
    {
        match ins {
            Instruction::Draw { x, y, n } => {
                let drawn = self.draw_sprite(x, y, n);
                if drawn.is_err() {
                    return drawn;
                }
                self.increment_program_counter();
            },
            Instruction::StoreBcd { x } => {
                let at = self.index_register as usize;
                if at + 3 > MEMORY_SIZE {
                    return Err(Fault::OutOfBounds);
                }
                let b = self.register[x as usize];
                let ghost before = self@;
                self.memory[at] = b / 100;
                self.memory[at + 1] = b / 10 % 10;
                self.memory[at + 2] = b % 10;
                assert(self@.memory =~= Seq::new(
                    MEMORY_SIZE as nat,
                    |a: int|
                        if before.index <= a < before.index + 3 {
                            decimal_digit(b, a - before.index)
                        } else {
                            before.memory[a]
                        },
                ));
                self.increment_program_counter();
            },
            Instruction::StoreRegs { x } => {
                let at = self.index_register as usize;
                if at + x as usize + 1 > MEMORY_SIZE {
                    return Err(Fault::OutOfBounds);
                }
                let ghost before = self@;
                let mut i: usize = 0;
                while i <= x as usize
                    invariant
                        x < 16,
                        i <= x + 1,
                        at == before.index,
                        at + x + 1 <= MEMORY_SIZE,
                        before.wf(),
                        self@ == (Machine { memory: self@.memory, ..before }),
                        self@.memory.len() == MEMORY_SIZE,
                        forall|a: int|
                            0 <= a < MEMORY_SIZE ==> #[trigger] self@.memory[a] == if at <= a < at
                                + i {
                                before.v[a - at]
                            } else {
                                before.memory[a]
                            },
                    decreases x + 1 - i,
                {
                    self.memory[at + i] = self.register[i];
                    i += 1;
                }
                assert(self@.memory =~= Seq::new(
                    MEMORY_SIZE as nat,
                    |a: int|
                        if before.index <= a <= before.index + x {
                            before.v[a - before.index]
                        } else {
                            before.memory[a]
                        },
                ));
                self.increment_program_counter();
            },
            Instruction::LoadRegs { x } => {
                let at = self.index_register as usize;
                if at + x as usize + 1 > MEMORY_SIZE {
                    return Err(Fault::OutOfBounds);
                }
                let ghost before = self@;
                let mut i: usize = 0;
                while i <= x as usize
                    invariant
                        x < 16,
                        i <= x + 1,
                        at == before.index,
                        at + x + 1 <= MEMORY_SIZE,
                        before.wf(),
                        self@ == (Machine { v: self@.v, ..before }),
                        self@.v.len() == 16,
                        forall|j: int|
                            0 <= j < 16 ==> #[trigger] self@.v[j] == if j < i {
                                before.memory[at + j]
                            } else {
                                before.v[j]
                            },
                    decreases x + 1 - i,
                {
                    self.register[i] = self.memory[at + i];
                    i += 1;
                }
                assert(self@.v =~= Seq::new(
                    16,
                    |j: int|
                        if j <= x {
                            before.memory[before.index + j]
                        } else {
                            before.v[j]
                        },
                ));
                self.increment_program_counter();
            },
            _ => {},
        }
        Ok(())
    }

    /// Draws the sprite of `n` bytes at the index register at (VX, VY),
    /// toggling pixels with wraparound, and sets VF to whether any pixel was
    /// turned off. A sprite that runs past the end of memory is refused.
    fn draw_sprite(&mut self, x: u8, y: u8, n: u8) -> (r: Result<(), Fault>)
        requires
            old(self).wf(),
            x < 16,
            y < 16,
            n < 16,
        ensures
            r is Err <==> old(self)@.index + n > MEMORY_SIZE,
            r is Err ==> r == Err::<(), Fault>(Fault::OutOfBounds) && final(self)@ == old(self)@,
            r is Ok ==> final(self)@ == after_draw(old(self)@, x, y, n),
            final(self).wf(),
    {
        if self.index_register as usize + n as usize > MEMORY_SIZE {
            return Err(Fault::OutOfBounds);
        }
        let ghost before = self@;
        let ghost sprite = sprite_of(before, n);
        let base = self.index_register as usize;
        let vx = self.register[x as usize];
        let vy = self.register[y as usize];
        let mut collided = false;
        let mut r: u8 = 0;
        while r < n
            invariant
                self.wf(),
                before.wf(),
                r <= n < 16,
                base == before.index,
                base + n <= MEMORY_SIZE,
                sprite == sprite_of(before, n),
                vx == before.v[x as int],
                vy == before.v[y as int],
                self@ == (Machine { display: self@.display, ..before }),
                forall|c: int|
                    0 <= c < DISPLAY_SIZE ==> #[trigger] self@.display[c] == if lit_within(
                        sprite,
                        vx,
                        vy,
                        c,
                        r * 8,
                    ) {
                        before.display[c] ^ 1
                    } else {
                        before.display[c]
                    },
                collided == exists|c: int|
                    0 <= c < DISPLAY_SIZE && lit_within(sprite, vx, vy, c, r * 8)
                        && #[trigger] before.display[c] == 1,
            decreases n - r,
        {
            let bits = self.memory[base + r as usize];
            assert(bits == sprite[r as int]);
            let mut k: u8 = 0;
            while k < 8
                invariant
                    self.wf(),
                    before.wf(),
                    r < n < 16,
                    k <= 8,
                    base == before.index,
                    base + n <= MEMORY_SIZE,
                    sprite == sprite_of(before, n),
                    bits == sprite[r as int],
                    vx == before.v[x as int],
                    vy == before.v[y as int],
                    self@ == (Machine { display: self@.display, ..before }),
                    forall|c: int|
                        0 <= c < DISPLAY_SIZE ==> #[trigger] self@.display[c] == if lit_within(
                            sprite,
                            vx,
                            vy,
                            c,
                            r * 8 + k,
                        ) {
                            before.display[c] ^ 1
                        } else {
                            before.display[c]
                        },
                    collided == exists|c: int|
                        0 <= c < DISPLAY_SIZE && lit_within(sprite, vx, vy, c, r * 8 + k)
                            && #[trigger] before.display[c] == 1,
                decreases 8 - k,
            {
                let ghost limit = r * 8 + k;
                let ghost target = cell_at(vx, vy, r as int, k as int);
                proof {
                    assert forall|c: int| 0 <= c < DISPLAY_SIZE implies lit_within(
                        sprite,
                        vx,
                        vy,
                        c,
                        limit + 1,
                    ) == (lit_within(sprite, vx, vy, c, limit) || (c == target && pixel_set(
                        bits,
                        k as int,
                    ))) by {
                        lemma_cell_position(vx, vy, r as int, k as int, c);
                    }
                    lemma_cell_position(vx, vy, r as int, k as int, 0);
                }
                if bits & (0x80u8 >> k) != 0 {
                    let c = ((vy as usize + r as usize) % 32) * 64 + (vx as usize + k as usize)
                        % 64;
                    assert(c == target);
                    proof {
                        lemma_cell_position(vx, vy, r as int, k as int, c as int);
                        lemma_flip(before.display[c as int]);
                    }
                    if self.graphics[c] == 1 {
                        collided = true;
                    }
                    self.graphics[c] = self.graphics[c] ^ 1;
                    proof {
                        if !collided {
                            assert forall|d: int|
                                0 <= d < DISPLAY_SIZE && lit_within(sprite, vx, vy, d, limit + 1)
                                implies #[trigger] before.display[d] != 1 by {
                                if d != c {
                                    assert(!lit_within(sprite, vx, vy, d, limit) ==> !lit_within(
                                        sprite,
                                        vx,
                                        vy,
                                        d,
                                        limit + 1,
                                    ));
                                }
                            }
                        } else if before.display[c as int] == 1 {
                            assert(lit_within(sprite, vx, vy, c as int, limit + 1));
                        }
                    }
                    assert forall|d: int| 0 <= d < DISPLAY_SIZE implies #[trigger] self@.display[d]
                        <= 1 by {
                        lemma_flip(before.display[d]);
                    }
                } else {
                    proof {
                        if collided {
                            let w = choose|d: int|
                                0 <= d < DISPLAY_SIZE && lit_within(sprite, vx, vy, d, limit)
                                    && #[trigger] before.display[d] == 1;
                            assert(lit_within(sprite, vx, vy, w, limit + 1));
                        }
                    }
                }
                k += 1;
            }
            r += 1;
        }
        proof {
            assert(self@.display =~= drawn(before.display, sprite, vx, vy));
        }
        self.register[FLAG] = if collided { 1 } else { 0 };
        proof {
            assert forall|d: int| 0 <= d < DISPLAY_SIZE implies #[trigger] self@.display[d] <= 1 by {
                lemma_flip(before.display[d]);
            }
        }
        Ok(())
    }
}

} // verus!
