//! Laws of the instruction set, stated over the model and proved.

use vstd::prelude::*;
use crate::engine::{
    cell_at, collision_flag, lemma_cell_position, lemma_flip, lit, pixel_set, sprite_col, sprite_of,
    sprite_row, step,
};
use crate::instruction::{
    Instruction, addr_of, decoded, encode, family, kk_of, n_of, x_of, y_of,
};
use crate::state::{Fault, Machine, DISPLAY_SIZE, FLAG, MEMORY_SIZE};

verus! {

/// `8XY4` leaves VX holding the sum of the two operands modulo 256, and,
/// where VX is not VF itself, sets VF to one exactly when that sum exceeds
/// 255 and to zero otherwise.
pub proof fn lemma_add_sets_carry(m: Machine, x: u8, y: u8, rnd: u8)
    requires
        m.wf(),
        x < 16,
        y < 16,
    ensures
        step(m, Instruction::AddReg { x, y }, rnd) is Ok,
        step(m, Instruction::AddReg { x, y }, rnd)->Ok_0.v[x as int] == (m.v[x as int]
            + m.v[y as int]) % 256,
        x != FLAG ==> step(m, Instruction::AddReg { x, y }, rnd)->Ok_0.v[FLAG as int] == if m.v[x as int]
            + m.v[y as int] > 255 {
            1u8
        } else {
            0u8
        },
{
}

/// `8XY6` sets VF to the bit shifted out of VX, its lowest, and `8XYE` to
/// its highest, for every X; where X is not VF itself, VX is halved or
/// doubled in eight bits.
pub proof fn lemma_shift_flag_is_shifted_bit(m: Machine, x: u8, y: u8, rnd: u8)
    requires
        m.wf(),
        x < 16,
        y < 16,
    ensures
        step(m, Instruction::ShiftRight { x, y }, rnd) is Ok,
        step(m, Instruction::ShiftRight { x, y }, rnd)->Ok_0.v[FLAG as int] == m.v[x as int] & 1,
        x != FLAG ==> step(m, Instruction::ShiftRight { x, y }, rnd)->Ok_0.v[x as int] == m.v[x as int]
            >> 1u8,
        step(m, Instruction::ShiftLeft { x, y }, rnd) is Ok,
        step(m, Instruction::ShiftLeft { x, y }, rnd)->Ok_0.v[FLAG as int] == (m.v[x as int] >> 7u8)
            & 1,
        x != FLAG ==> step(m, Instruction::ShiftLeft { x, y }, rnd)->Ok_0.v[x as int] == m.v[x as int]
            << 1u8,
{
    let a = m.v[x as int];
    assert(a % 2 == a & 1 && a / 2 == a >> 1u8 && a / 128 == (a >> 7u8) & 1) by (bit_vector);
    assert(((a * 2) % 256) as u8 == a << 1u8) by (bit_vector);
}

/// `00E0` turns every display cell off.
pub proof fn lemma_clear_blanks_display(m: Machine, rnd: u8)
    requires
        m.wf(),
    ensures
        step(m, Instruction::ClearScreen, rnd) is Ok,
        forall|c: int|
            0 <= c < DISPLAY_SIZE ==> #[trigger] step(
                m,
                Instruction::ClearScreen,
                rnd,
            )->Ok_0.display[c] == 0,
{
}

/// Drawing a sprite twice at the same place gives the display back, and
/// each draw's VF speaks of that draw alone: the first is one when a lit
/// cell was on before it, the second when a lit cell was off before the
/// first. (Where X or Y names VF, the first draw's flag moves the second
/// sprite, so both stay other registers.)
pub proof fn lemma_draw_twice_restores(m: Machine, x: u8, y: u8, n: u8, rnd: u8)
    requires
        m.wf(),
        x < 16,
        y < 16,
        n < 16,
        x != FLAG,
        y != FLAG,
        m.index + n <= MEMORY_SIZE,
    ensures
        ({
            let d = Instruction::Draw { x, y, n };
            let sprite = sprite_of(m, n);
            let (vx, vy) = (m.v[x as int], m.v[y as int]);
            &&& step(m, d, rnd) is Ok
            &&& step(step(m, d, rnd)->Ok_0, d, rnd) is Ok
            &&& step(step(m, d, rnd)->Ok_0, d, rnd)->Ok_0.display == m.display
            &&& (step(m, d, rnd)->Ok_0.v[FLAG as int] == 1) == exists|c: int|
                0 <= c < DISPLAY_SIZE && lit(sprite, vx, vy, c) && #[trigger] m.display[c] == 1
            &&& (step(step(m, d, rnd)->Ok_0, d, rnd)->Ok_0.v[FLAG as int] == 1) == exists|c: int|
                0 <= c < DISPLAY_SIZE && lit(sprite, vx, vy, c) && #[trigger] m.display[c] == 0
        }),
{
    let d = Instruction::Draw { x, y, n };
    let sprite = sprite_of(m, n);
    let (vx, vy) = (m.v[x as int], m.v[y as int]);
    let m1 = step(m, d, rnd)->Ok_0;
    let m2 = step(m1, d, rnd)->Ok_0;
    assert(sprite_of(m1, n) == sprite);
    assert(m1.v[x as int] == vx && m1.v[y as int] == vy);
    assert forall|c: int| 0 <= c < DISPLAY_SIZE implies #[trigger] m2.display[c] == m.display[c] by {
        lemma_flip(m.display[c]);
    }
    assert(m2.display =~= m.display);
    if m2.v[FLAG as int] == 1 {
        let c = choose|c: int|
            0 <= c < DISPLAY_SIZE && lit(sprite, vx, vy, c) && #[trigger] m1.display[c] == 1;
        lemma_flip(m.display[c]);
    }
    assert forall|c: int|
        0 <= c < DISPLAY_SIZE && lit(sprite, vx, vy, c) && #[trigger] m.display[c] == 0 implies m2.v[
        FLAG as int] == 1 by {
        lemma_flip(m.display[c]);
        assert(m1.display[c] == 1);
    }
    assert(collision_flag(m.display, sprite, vx, vy) <= 1);
}

/// A sprite pixel never falls off the display: the pixel of row `r` and
/// column `k` toggles the cell whose column is VX + `k` modulo 64 and whose
/// row is VY + `r` modulo 32, when and only when that pixel is set.
pub proof fn lemma_draw_wraps(m: Machine, x: u8, y: u8, n: u8, r: int, k: int, rnd: u8)
    requires
        m.wf(),
        x < 16,
        y < 16,
        n < 16,
        m.index + n <= MEMORY_SIZE,
        0 <= r < n,
        0 <= k < 8,
    ensures
        ({
            let (vx, vy) = (m.v[x as int], m.v[y as int]);
            let c = cell_at(vx, vy, r, k);
            let next = step(m, Instruction::Draw { x, y, n }, rnd)->Ok_0;
            &&& step(m, Instruction::Draw { x, y, n }, rnd) is Ok
            &&& c == ((vy + r) % 32) * 64 + (vx + k) % 64
            &&& 0 <= c < DISPLAY_SIZE
            &&& next.display[c] == if pixel_set(sprite_of(m, n)[r], k) {
                m.display[c] ^ 1
            } else {
                m.display[c]
            }
        }),
{
    let (vx, vy) = (m.v[x as int], m.v[y as int]);
    lemma_cell_position(vx, vy, r, k, 0);
    let c = cell_at(vx, vy, r, k);
    lemma_cell_position(vx, vy, r, k, c);
}

/// The drawing rule as a whole: `DXYN` moves on to the next instruction,
/// leaves every cell that no sprite pixel lands on as it was, and sets VF to
/// one exactly when some set pixel of the whole sprite lands on a cell that
/// was on, and to zero otherwise, whatever VF held before.
pub proof fn lemma_draw_rule(m: Machine, x: u8, y: u8, n: u8, rnd: u8)
    requires
        m.wf(),
        x < 16,
        y < 16,
        n < 16,
        m.pc + 1 < MEMORY_SIZE,
        m.index + n <= MEMORY_SIZE,
    ensures
        ({
            let (vx, vy) = (m.v[x as int], m.v[y as int]);
            let sprite = sprite_of(m, n);
            let next = step(m, Instruction::Draw { x, y, n }, rnd)->Ok_0;
            &&& step(m, Instruction::Draw { x, y, n }, rnd) is Ok
            &&& next.pc == m.pc + 2
            &&& forall|c: int|
                0 <= c < DISPLAY_SIZE && (forall|r: int, k: int|
                    0 <= r < n && 0 <= k < 8 ==> c != #[trigger] cell_at(vx, vy, r, k))
                    ==> #[trigger] next.display[c] == m.display[c]
            &&& next.v[FLAG as int] == if exists|r: int, k: int|
                0 <= r < n && 0 <= k < 8 && pixel_set(sprite[r], k) && m.display[#[trigger] cell_at(
                    vx,
                    vy,
                    r,
                    k,
                )] == 1 {
                1u8
            } else {
                0u8
            }
        }),
{
    let (vx, vy) = (m.v[x as int], m.v[y as int]);
    let sprite = sprite_of(m, n);
    let next = step(m, Instruction::Draw { x, y, n }, rnd)->Ok_0;
    assert forall|c: int|
        0 <= c < DISPLAY_SIZE && (forall|r: int, k: int|
            0 <= r < n && 0 <= k < 8 ==> c != #[trigger] cell_at(vx, vy, r, k)) implies #[trigger] next.display[c]
        == m.display[c] by {
        let (r, k) = (sprite_row(vy, c), sprite_col(vx, c));
        if lit(sprite, vx, vy, c) {
            lemma_cell_position(vx, vy, r, k, c);
            assert(c != cell_at(vx, vy, r, k));
        }
    }
    let by_pixel = exists|r: int, k: int|
        0 <= r < n && 0 <= k < 8 && pixel_set(sprite[r], k) && m.display[#[trigger] cell_at(
            vx,
            vy,
            r,
            k,
        )] == 1;
    if by_pixel {
        let (r, k) = choose|r: int, k: int|
            0 <= r < n && 0 <= k < 8 && pixel_set(sprite[r], k) && m.display[#[trigger] cell_at(
                vx,
                vy,
                r,
                k,
            )] == 1;
        lemma_cell_position(vx, vy, r, k, 0);
        let c = cell_at(vx, vy, r, k);
        lemma_cell_position(vx, vy, r, k, c);
        assert(lit(sprite, vx, vy, c) && m.display[c] == 1);
    }
    if collision_flag(m.display, sprite, vx, vy) == 1 {
        let c = choose|c: int|
            0 <= c < DISPLAY_SIZE && lit(sprite, vx, vy, c) && m.display[c] == 1;
        let (r, k) = (sprite_row(vy, c), sprite_col(vx, c));
        lemma_cell_position(vx, vy, r, k, c);
        assert(pixel_set(sprite[r], k) && m.display[cell_at(vx, vy, r, k)] == 1);
    }
}

/// An opcode is the sum of its four nibbles, each in its place.
proof fn lemma_nibbles(op: u16)
    ensures
        op == family(op) * 0x1000 + x_of(op) * 0x100 + y_of(op) * 0x10 + n_of(op),
        addr_of(op) == x_of(op) * 0x100 + y_of(op) * 0x10 + n_of(op),
        kk_of(op) == y_of(op) * 0x10 + n_of(op),
        family(op) < 16,
{
    assert(op == family(op) * 0x1000 + x_of(op) * 0x100 + y_of(op) * 0x10 + n_of(op)
        && addr_of(op) == x_of(op) * 0x100 + y_of(op) * 0x10 + n_of(op)
        && kk_of(op) == y_of(op) * 0x10 + n_of(op)) by (nonlinear_arith);
}

/// The nibbles of the opcode assembled from four nibbles are those nibbles.
proof fn lemma_assemble(f: int, x: int, y: int, n: int)
    requires
        0 <= f < 16,
        0 <= x < 16,
        0 <= y < 16,
        0 <= n < 16,
    ensures
        ({
            let op = (f * 0x1000 + x * 0x100 + y * 0x10 + n) as u16;
            &&& family(op) == f
            &&& x_of(op) == x
            &&& y_of(op) == y
            &&& n_of(op) == n
        }),
{
    let op = (f * 0x1000 + x * 0x100 + y * 0x10 + n) as u16;
    lemma_nibbles(op);
    assert(family(op) == f && x_of(op) == x && y_of(op) == y && n_of(op) == n) by (nonlinear_arith)
        requires
            op == f * 0x1000 + x * 0x100 + y * 0x10 + n,
            op == family(op) * 0x1000 + x_of(op) * 0x100 + y_of(op) * 0x10 + n_of(op),
            0 <= f < 16,
            0 <= x < 16,
            0 <= y < 16,
            0 <= n < 16,
            family(op) < 16,
            x_of(op) < 16,
            y_of(op) < 16,
            n_of(op) < 16,
    ;
}

/// Every well-formed instruction decodes back from its opcode.
pub proof fn lemma_decode_encode(ins: Instruction)
    requires
        ins.wf(),
    ensures
        decoded(encode(ins)) == Ok::<Instruction, Fault>(ins),
{
    let w = encode(ins);
    lemma_nibbles(w);
    match ins {
        Instruction::ClearScreen | Instruction::Return => {},
        Instruction::Jump { addr } | Instruction::Call { addr } | Instruction::LoadIndex { addr }
        | Instruction::JumpOffset { addr } => {
            lemma_assemble(family(w) as int, (addr / 0x100) as int, (addr / 0x10 % 0x10) as int, (addr % 0x10) as int);
        },
        Instruction::SkipEqByte { x, kk } | Instruction::SkipNeByte { x, kk }
        | Instruction::LoadByte { x, kk } | Instruction::AddByte { x, kk }
        | Instruction::Random { x, kk } => {
            lemma_assemble(family(w) as int, x as int, (kk / 0x10) as int, (kk % 0x10) as int);
        },
        Instruction::SkipEqReg { x, y } | Instruction::Move { x, y } | Instruction::Or { x, y }
        | Instruction::And { x, y } | Instruction::Xor { x, y } | Instruction::AddReg { x, y }
        | Instruction::SubReg { x, y } | Instruction::ShiftRight { x, y }
        | Instruction::SubNeg { x, y } | Instruction::ShiftLeft { x, y }
        | Instruction::SkipNeReg { x, y } => {
            lemma_assemble(family(w) as int, x as int, y as int, n_of(w) as int);
        },
        Instruction::Draw { x, y, n } => {
            lemma_assemble(0xD, x as int, y as int, n as int);
        },
        Instruction::SkipKeyPressed { x } | Instruction::SkipKeyReleased { x }
        | Instruction::LoadDelay { x } | Instruction::WaitKey { x } | Instruction::SetDelay { x }
        | Instruction::SetSound { x } | Instruction::AddIndex { x } | Instruction::LoadFont { x }
        | Instruction::StoreBcd { x } | Instruction::StoreRegs { x }
        | Instruction::LoadRegs { x } => {
            lemma_assemble(family(w) as int, x as int, y_of(w) as int, n_of(w) as int);
        },
    }
}

/// Every opcode that decodes is the encoding of the instruction it decodes to.
pub proof fn lemma_encode_decode(op: u16)
    ensures
        decoded(op) matches Ok(i) ==> encode(i) == op,
{
    lemma_nibbles(op);
}

} // verus!
