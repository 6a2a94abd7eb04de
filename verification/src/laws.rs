//! Laws of the machine, proved of its model.

use vstd::prelude::*;
use crate::fault::Fault;
use crate::instruction::{decode_spec, Instruction};
use crate::model::{pixel_index, MachineState};

verus! {

/// A newly created machine is well formed.
pub proof fn initial_is_wf()
    ensures
        MachineState::initial().wf(),
{
}

/// A step keeps the machine well formed: the stack pointer stays at most
/// 15, the index register inside memory and the font as it was loaded.
pub proof fn step_preserves_wf(s: MachineState, random: u8)
    requires
        s.wf(),
    ensures
        s.step(random) matches Ok(next) ==> next.wf(),
{
}

/// So does every operation of the state container.
pub proof fn operations_preserve_wf(s: MachineState, addr: u16, value: u8, key: u8, rom: Seq<u8>)
    requires
        s.wf(),
    ensures
        s.write_byte(addr, value) matches Ok(next) ==> next.wf(),
        s.push(addr) matches Ok(next) ==> next.wf(),
        s.pop() matches Ok((next, _)) ==> next.wf(),
        s.load(rom) matches Ok(next) ==> next.wf(),
        s.tick().wf(),
        s.clear().wf(),
        s.press(key).wf(),
        s.release(key).wf(),
{
}

/// Every word that decodes gives an instruction whose register operands
/// name registers and whose address lies in memory.
pub proof fn decoded_is_wf(op: u16)
    ensures
        decode_spec(op) matches Some(instr) ==> instr.wf(),
{
}

/// The random byte matters only to a step that draws one: a step that does
/// not execute `Cxkk` has the same outcome whatever byte it is given.
pub proof fn random_matters_only_when_drawn(s: MachineState, r1: u8, r2: u8)
    requires
        !s.draws_random(),
    ensures
        s.step(r1) == s.step(r2),
{
}

/// The fields of the word spelled by the nibbles `t x y n`.
proof fn lemma_nibbles(t: u16, x: u16, y: u16, n: u16)
    by (bit_vector)
    requires
        t < 16,
        x < 16,
        y < 16,
        n < 16,
    ensures
        t * 0x1000 + x * 0x100 + y * 0x10 + n < 0x10000,
        (t * 0x1000 + x * 0x100 + y * 0x10 + n) / 0x1000 == t,
        ((t * 0x1000 + x * 0x100 + y * 0x10 + n) / 0x100) % 0x10 == x,
        ((t * 0x1000 + x * 0x100 + y * 0x10 + n) / 0x10) % 0x10 == y,
        (t * 0x1000 + x * 0x100 + y * 0x10 + n) % 0x10 == n,
        (t * 0x1000 + x * 0x100 + y * 0x10 + n) % 0x100 == y * 0x10 + n,
        (t * 0x1000 + x * 0x100 + y * 0x10 + n) % 0x1000 == x * 0x100 + y * 0x10 + n,
{
}

/// A running machine that holds the encoding of `instr` at the program
/// counter executes `instr`.
proof fn lemma_step_executes(s: MachineState, op: int, instr: Instruction, random: u8)
    requires
        !s.waiting_for_key,
        s.holds_word(s.pc as int, op),
        0 <= op < 0x10000,
        decode_spec(op as u16) == Some(instr),
    ensures
        s.step(random) == s.apply(instr, random),
{
}

/// `6xkk` then `7xkk2` leave `(kk + kk2) mod 256` in `Vx` and the program
/// counter after both; with `x` other than `F`, `VF` is what it was.
pub proof fn load_then_add_byte(s: MachineState, x: u8, kk: u8, kk2: u8, r1: u8, r2: u8)
    requires
        s.wf(),
        !s.waiting_for_key,
        x < 16,
        s.holds_word(s.pc as int, 0x6000 + x * 0x100 + kk),
        s.holds_word(s.pc + 2, 0x7000 + x * 0x100 + kk2),
    ensures
        s.step(r1) matches Ok(s1) && s1.step(r2) matches Ok(s2) && {
            &&& s2.reg(x) == (kk + kk2) % 256
            &&& s2.pc == s.pc + 4
            &&& x != 0xF ==> s1.reg(0xF) == s.reg(0xF) && s2.reg(0xF) == s.reg(0xF)
        },
{
    let load = Instruction::LoadByte { x, kk };
    let add = Instruction::AddByte { x, kk: kk2 };
    lemma_nibbles(6, x as u16, kk as u16 / 16, kk as u16 % 16);
    lemma_nibbles(7, x as u16, kk2 as u16 / 16, kk2 as u16 % 16);
    lemma_step_executes(s, 0x6000 + x * 0x100 + kk, load, r1);
    let s1 = s.apply(load, r1)->Ok_0;
    assert(s1.memory == s.memory);
    lemma_step_executes(s1, 0x7000 + x * 0x100 + kk2, add, r2);
}

/// Where `6xkk` then `7xkk2` behave as an addition that reports its carry
/// in `VF`. `7xkk` never writes a carry, so they do on these inputs and no
/// others: with `x` other than `F`, a sum without carry from a state whose
/// `VF` is not 1; with `x = F`, where `VF` itself receives the sum, a sum of
/// 257, or one without carry that is not 1. There `Vx` is
/// `(kk + kk2) mod 256`, `VF` keeps the value it had before the addition
/// only if no carry arose, and `VF` is 1 exactly if one did.
pub proof fn load_then_add_byte_as_carry(s: MachineState, x: u8, kk: u8, kk2: u8, r1: u8, r2: u8)
    requires
        s.wf(),
        !s.waiting_for_key,
        x < 16,
        s.holds_word(s.pc as int, 0x6000 + x * 0x100 + kk),
        s.holds_word(s.pc + 2, 0x7000 + x * 0x100 + kk2),
        if x == 0xF {
            kk + kk2 == 257 || (kk + kk2 <= 255 && kk + kk2 != 1)
        } else {
            kk + kk2 <= 255 && s.reg(0xF) != 1
        },
    ensures
        s.step(r1) matches Ok(s1) && s1.step(r2) matches Ok(s2) && {
            &&& s2.reg(x) == (kk + kk2) % 256
            &&& (s2.reg(0xF) == s1.reg(0xF) ==> kk + kk2 <= 255)
            &&& (s2.reg(0xF) == 1 <==> kk + kk2 > 255)
        },
{
    load_then_add_byte(s, x, kk, kk2, r1, r2);
}

/// A call followed by a return comes back to the instruction after the
/// call with the stack pointer as it was: of the whole state only the
/// program counter and the stack slot that held the return address differ.
/// The stack must have room for the call.
pub proof fn call_then_return(s: MachineState, addr: u16, r1: u8, r2: u8)
    requires
        s.wf(),
        !s.waiting_for_key,
        s.sp < 15,
        addr < 0x1000,
        s.holds_word(s.pc as int, 0x2000 + addr),
        s.holds_word(addr as int, 0x00EE),
    ensures
        s.step(r1) matches Ok(s1) && s1.step(r2) matches Ok(s2) && {
            &&& s1.pc == addr
            &&& s1.sp == s.sp + 1
            &&& s2.pc == s.pc + 2
            &&& s2.sp == s.sp
            &&& s2 == (MachineState {
                pc: (s.pc + 2) as u16,
                stack: s.stack.update(s.sp + 1, (s.pc + 2) as u16),
                ..s
            })
        },
{
    let call = Instruction::Call { addr };
    lemma_nibbles(2, addr / 0x100, (addr / 0x10) % 0x10, addr % 0x10);
    lemma_step_executes(s, 0x2000 + addr, call, r1);
    let s1 = s.apply(call, r1)->Ok_0;
    assert(s1.memory == s.memory);
    lemma_step_executes(s1, 0x00EE, Instruction::Return, r2);
    let s2 = s1.apply(Instruction::Return, r2)->Ok_0;
    assert(s2 =~= MachineState {
        pc: (s.pc + 2) as u16,
        stack: s.stack.update(s.sp + 1, (s.pc + 2) as u16),
        ..s
    });
}

/// Every column of a sprite row of all ones is set.
proof fn lemma_full_row(col: u8)
    by (bit_vector)
    requires
        col < 8,
    ensures
        (0xFFu8 & (0x80u8 >> col)) != 0,
{
}

/// Whether position `p` of the display lies in the first eight columns of
/// the first `n` rows.
spec fn in_corner(n: u8, p: int) -> bool {
    p % 64 < 8 && p / 64 < n
}

/// A sprite of `n` rows of all ones at the top-left corner covers the first
/// eight columns of the first `n` rows and nothing else.
proof fn lemma_full_sprite(s: MachineState, n: u8)
    requires
        n < 16,
        forall|a: int| s.i <= a < s.i + n ==> s.memory[a] == 0xFF,
    ensures
        forall|p: int| 0 <= p < 2048 ==> #[trigger] s.draws_on(0, 0, n, p) == in_corner(n, p),
{
    assert forall|p: int| 0 <= p < 2048 implies #[trigger] s.draws_on(0, 0, n, p) == in_corner(
        n,
        p,
    ) by {
        let col = (p % 64 - 0) % 64;
        let row = (p / 64 - 0) % 32;
        assert(col == p % 64);
        assert(row == p / 64);
        if in_corner(n, p) {
            lemma_full_row(col as u8);
            assert(s.memory[s.i + row] == 0xFF);
        }
    }
}

/// The pixels at columns below 8 and rows below `n` are those at the
/// positions in the corner.
proof fn lemma_corner_pixels(s: MachineState, n: u8, on: bool)
    requires
        n < 16,
    ensures
        (forall|px: int, py: int| 0 <= px < 8 && 0 <= py < n ==> #[trigger] s.pixel(px, py) == on)
            <==> (forall|p: int| 0 <= p < 2048 && #[trigger] in_corner(n, p) ==> s.display[p]
            == on),
{
    if forall|px: int, py: int| 0 <= px < 8 && 0 <= py < n ==> #[trigger] s.pixel(px, py) == on {
        assert forall|p: int| 0 <= p < 2048 && #[trigger] in_corner(n, p) implies s.display[p]
            == on by {
            assert(s.pixel(p % 64, p / 64) == on);
            assert(pixel_index(p % 64, p / 64) == p);
        }
    }
    if forall|p: int| 0 <= p < 2048 && #[trigger] in_corner(n, p) ==> s.display[p] == on {
        assert forall|px: int, py: int| 0 <= px < 8 && 0 <= py < n implies #[trigger] s.pixel(
            px,
            py,
        ) == on by {
            let p = py * 64 + px;
            assert(pixel_index(px, py) == p);
            assert(in_corner(n, p));
        }
    }
}

/// The display and flag that drawing a sprite of all ones at the top-left
/// corner leaves: the corner flipped, the flag set if a pixel in it was
/// on.
proof fn lemma_draw_full_sprite(s: MachineState, x: u8, y: u8, n: u8)
    requires
        s.wf(),
        x < 16,
        y < 16,
        n < 16,
        s.reg(x) == 0,
        s.reg(y) == 0,
        s.i + n <= 4096,
        s.pc + 2 <= 4096,
        !s.waiting_for_key,
        forall|a: int| s.i <= a < s.i + n ==> s.memory[a] == 0xFF,
    ensures
        s.draw(x, y, n) matches Ok(next) && {
            &&& next.memory == s.memory
            &&& next.i == s.i
            &&& next.pc == s.pc + 2
            &&& next.waiting_for_key == s.waiting_for_key
            &&& next.wf()
            &&& next.display.len() == 2048
            &&& forall|p: int|
                0 <= p < 2048 ==> #[trigger] next.display[p] == (s.display[p] != in_corner(n, p))
            &&& next.reg(0xF) == if exists|p: int|
                0 <= p < 2048 && s.display[p] && #[trigger] in_corner(n, p) {
                1u8
            } else {
                0u8
            }
            &&& forall|r: u8| r < 15 ==> next.reg(r) == s.reg(r)
        },
{
    lemma_full_sprite(s, n);
    let hit = exists|p: int| 0 <= p < 2048 && s.display[p] && #[trigger] in_corner(n, p);
    if hit {
        let p = choose|p: int| 0 <= p < 2048 && s.display[p] && #[trigger] in_corner(n, p);
        assert(s.draws_on(0, 0, n, p));
    }
    if s.collides(0, 0, n) {
        let p = choose|p: int| 0 <= p < 2048 && s.display[p] && #[trigger] s.draws_on(0, 0, n, p);
        assert(in_corner(n, p));
    }
    assert(s.collides(0, 0, n) == hit);
}

/// Drawing a sprite of `n >= 1` rows of all ones at the top-left corner
/// twice in succession, over pixels that were off: the first draw turns
/// every pixel under the sprite on and reports no collision, the second
/// turns them off again, leaves the display as it was before the first and
/// reports a collision.
pub proof fn draw_twice_erases(s: MachineState, x: u8, y: u8, n: u8, r1: u8, r2: u8)
    requires
        s.wf(),
        !s.waiting_for_key,
        x < 16,
        y < 16,
        1 <= n < 16,
        s.holds_word(s.pc as int, 0xD000 + x * 0x100 + y * 0x10 + n),
        s.holds_word(s.pc + 2, 0xD000 + x * 0x100 + y * 0x10 + n),
        s.reg(x) == 0,
        s.reg(y) == 0,
        s.i + n <= 4096,
        forall|a: int| s.i <= a < s.i + n ==> s.memory[a] == 0xFF,
        forall|px: int, py: int| 0 <= px < 8 && 0 <= py < n ==> !#[trigger] s.pixel(px, py),
    ensures
        s.step(r1) matches Ok(s1) && s1.step(r2) matches Ok(s2) && {
            &&& forall|px: int, py: int| 0 <= px < 8 && 0 <= py < n ==> #[trigger] s1.pixel(px, py)
            &&& s1.reg(0xF) == 0
            &&& forall|px: int, py: int|
                0 <= px < 8 && 0 <= py < n ==> !#[trigger] s2.pixel(px, py)
            &&& s2.display == s.display
            &&& s2.reg(0xF) == 1
        },
{
    let draw = Instruction::Draw { x, y, n };
    let op = 0xD000 + x * 0x100 + y * 0x10 + n;
    lemma_nibbles(0xD, x as u16, y as u16, n as u16);
    lemma_step_executes(s, op, draw, r1);
    lemma_draw_full_sprite(s, x, y, n);
    lemma_corner_pixels(s, n, false);
    let s1 = s.draw(x, y, n)->Ok_0;
    assert(s.step(r1) == Ok::<MachineState, Fault>(s1));
    assert(s1.reg(0xF) == 0);
    assert(s1.reg(x) == 0 && s1.reg(y) == 0);
    assert(s1.holds_word(s1.pc as int, op));
    lemma_step_executes(s1, op, draw, r2);
    lemma_draw_full_sprite(s1, x, y, n);
    lemma_corner_pixels(s1, n, true);
    let s2 = s1.draw(x, y, n)->Ok_0;
    assert(s1.step(r2) == Ok::<MachineState, Fault>(s2));
    assert(in_corner(n, 0) && s1.display[0]);
    assert(s2.reg(0xF) == 1);
    assert(s2.display =~= s.display);
    lemma_corner_pixels(s2, n, false);
}

/// Drawing the same sprite twice in succession, with coordinates taken
/// from registers other than `VF`, leaves the display as it was.
pub proof fn draw_twice_restores(s: MachineState, x: u8, y: u8, n: u8, r1: u8, r2: u8)
    requires
        s.wf(),
        !s.waiting_for_key,
        x < 15,
        y < 15,
        n < 16,
        s.holds_word(s.pc as int, 0xD000 + x * 0x100 + y * 0x10 + n),
        s.holds_word(s.pc + 2, 0xD000 + x * 0x100 + y * 0x10 + n),
        s.i + n <= 4096,
    ensures
        s.step(r1) matches Ok(s1) && s1.step(r2) matches Ok(s2) && s2.display == s.display,
{
    let draw = Instruction::Draw { x, y, n };
    lemma_nibbles(0xD, x as u16, y as u16, n as u16);
    lemma_step_executes(s, 0xD000 + x * 0x100 + y * 0x10 + n, draw, r1);
    let s1 = s.apply(draw, r1)->Ok_0;
    assert(s1.memory == s.memory);
    lemma_step_executes(s1, 0xD000 + x * 0x100 + y * 0x10 + n, draw, r2);
    let s2 = s1.apply(draw, r2)->Ok_0;
    assert forall|p: int| 0 <= p < 2048 implies #[trigger] s1.draws_on(
        s.reg(x),
        s.reg(y),
        n,
        p,
    ) == s.draws_on(s.reg(x), s.reg(y), n, p) by {}
    assert(s2.display =~= s.display);
}

/// `Fx0A` suspends the machine: the program counter stays on the
/// instruction and nothing else changes but the key-wait state.
pub proof fn wait_key_suspends(s: MachineState, x: u8, random: u8)
    requires
        s.wf(),
        !s.waiting_for_key,
        x < 16,
        s.holds_word(s.pc as int, 0xF00A + x * 0x100),
    ensures
        s.step(random) == Ok::<MachineState, Fault>(s.wait_key(x)),
        s.wait_key(x).waiting_for_key,
        s.wait_key(x).key_target == x,
        s.wait_key(x).pending_key is None,
        s.wait_key(x).pc == s.pc,
{
    lemma_nibbles(0xF, x as u16, 0x0, 0xA);
    lemma_step_executes(s, 0xF00A + x * 0x100, Instruction::WaitKey { x }, random);
}

/// While the machine waits and no key press has been reported, any number
/// of steps changes nothing.
pub proof fn key_wait_holds(s: MachineState, randoms: Seq<u8>)
    requires
        s.waiting_for_key,
        s.pending_key is None,
    ensures
        s.run(randoms) == Ok::<MachineState, Fault>(s),
    decreases randoms.len(),
{
    if randoms.len() > 0 {
        key_wait_holds(s, randoms.skip(1));
    }
}

/// Once a key press is reported to a waiting machine, exactly one step
/// ends the wait: it writes the key to the target register, moves the
/// program counter to the next instruction and changes nothing else but
/// the key-wait state. Steps after it execute instructions again.
pub proof fn key_press_resumes(s: MachineState, key: u8, random: u8)
    requires
        s.wf(),
        s.waiting_for_key,
        s.pending_key is None,
        key < 16,
    ensures
        s.press(key).step(random) matches Ok(next) && {
            &&& next == (MachineState {
                waiting_for_key: false,
                pending_key: None,
                keys: s.keys.update(key as int, true),
                v: s.v.update(s.key_target as int, key),
                pc: (s.pc + 2) as u16,
                ..s
            })
            &&& next.reg(s.key_target) == key
            &&& next.pc == s.pc + 2
            &&& !next.waiting_for_key
        },
{
}

/// The whole of a key wait: `Fx0A` suspends the machine with the program
/// counter on the instruction, any number of steps then changes nothing,
/// and once a key press is reported one step puts the key in `Vx`, moves
/// the program counter to the next instruction and ends the wait.
pub proof fn wait_key_round_trip(
    s: MachineState,
    x: u8,
    key: u8,
    enter: u8,
    idle: Seq<u8>,
    leave: u8,
)
    requires
        s.wf(),
        !s.waiting_for_key,
        x < 16,
        key < 16,
        s.holds_word(s.pc as int, 0xF00A + x * 0x100),
    ensures
        s.step(enter) matches Ok(waiting) && waiting.press(key).step(leave) matches Ok(next) && {
            &&& waiting.waiting_for_key
            &&& waiting.pc == s.pc
            &&& waiting.run(idle) == Ok::<MachineState, Fault>(waiting)
            &&& next.reg(x) == key
            &&& next.pc == s.pc + 2
            &&& !next.waiting_for_key
        },
{
    wait_key_suspends(s, x, enter);
    let waiting = s.wait_key(x);
    key_wait_holds(waiting, idle);
    key_press_resumes(waiting, key, leave);
}

/// After `n` ticks each timer has gone down by `n`, or to zero if it held
/// less, and nothing else has changed.
pub proof fn ticks_count_down(s: MachineState, n: nat)
    ensures
        s.ticks(n) == (MachineState {
            delay_timer: if s.delay_timer >= n {
                (s.delay_timer - n) as u8
            } else {
                0
            },
            sound_timer: if s.sound_timer >= n {
                (s.sound_timer - n) as u8
            } else {
                0
            },
            ..s
        }),
    decreases n,
{
    if n > 0 {
        ticks_count_down(s.tick(), (n - 1) as nat);
    }
}

/// Executing an instruction leaves the timers alone, unless it is one of
/// the two that set them.
pub proof fn step_leaves_timers(s: MachineState, random: u8)
    requires
        !(s.next_instruction() matches Ok(Instruction::SetDelay { .. })),
        !(s.next_instruction() matches Ok(Instruction::SetSound { .. })),
    ensures
        s.step(random) matches Ok(next) ==> next.delay_timer == s.delay_timer && next.sound_timer
            == s.sound_timer,
{
}

/// Registers stored with `Fx55` come back with `Fx65`: from any state
/// whose memory and index register are those that the store left, loading
/// `V0..=Vx` gives the values that were stored.
pub proof fn store_then_load(s: MachineState, t: MachineState, x: u8)
    requires
        s.wf(),
        x < 16,
        s.store_regs(x) matches Ok(stored) && t.memory == stored.memory && t.i == stored.i,
    ensures
        t.load_regs(x) matches Ok(loaded) && forall|k: int|
            0 <= k <= x ==> loaded.v[k] == s.v[k],
{
}

} // verus!
