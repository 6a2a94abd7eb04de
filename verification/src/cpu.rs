//! The instruction executor: fetch, decode, execute.

use vstd::prelude::*;
use crate::fault::Fault;
use crate::instruction::{decode, Instruction};
use crate::laws::random_matters_only_when_drawn;
use crate::machine::Chip8;
use crate::model::{pixel_index, settles, sprite_bit, MachineState};
use crate::rng::random_byte;

verus! {

/// Two bytes joined by shift and or are the big-endian word they spell.
proof fn lemma_word(hi: u8, lo: u8)
    by (bit_vector)
    ensures
        ((hi as u16) << 8) | (lo as u16) == (hi as u16) * 256 + (lo as u16),
{
}

/// Whether the part of a sprite drawn so far, that is the rows above `row`
/// and the first `col` columns of row `row`, puts a set bit on the pixel at
/// position `p`.
spec fn drawn_before(s: MachineState, vx: u8, vy: u8, row: int, col: int, p: int) -> bool {
    let c = (p % 64 - vx) % 64;
    let r = (p / 64 - vy) % 32;
    c < 8 && (r < row || (r == row && c < col)) && sprite_bit(s.memory[s.i + r], c as u8)
}

/// Whether that part of the sprite lies on a pixel that was on.
spec fn collides_before(s: MachineState, vx: u8, vy: u8, row: int, col: int) -> bool {
    exists|p: int|
        0 <= p < 2048 && s.display[p] && #[trigger] drawn_before(s, vx, vy, row, col, p)
}

/// On a ring of 64 positions, `a` lies `d` places past `v` exactly when it
/// is where `v + d` wraps to.
proof fn lemma_wrap_64(a: int, v: int, d: int)
    requires
        0 <= a < 64,
        0 <= d < 64,
    ensures
        ((a - v) % 64 == d) <==> (a == (v + d) % 64),
{
}

/// The same on a ring of 32 positions.
proof fn lemma_wrap_32(a: int, v: int, d: int)
    requires
        0 <= a < 32,
        0 <= d < 32,
    ensures
        ((a - v) % 32 == d) <==> (a == (v + d) % 32),
{
}

/// The pixel that column `col` of row `row` of a sprite at `(vx, vy)` falls
/// on is the only one that lies `col` places right of `vx` and `row` places
/// below `vy`.
proof fn lemma_sprite_position(vx: int, vy: int, row: int, col: int, p: int)
    requires
        0 <= row < 32,
        0 <= col < 64,
        0 <= p < 2048,
    ensures
        0 <= pixel_index(vx + col, vy + row) < 2048,
        ((p % 64 - vx) % 64 == col && (p / 64 - vy) % 32 == row) <==> p == pixel_index(
            vx + col,
            vy + row,
        ),
{
    lemma_wrap_64(p % 64, vx, col);
    lemma_wrap_32(p / 64, vy, row);
}

/// Drawing one more column of a row adds exactly the pixel under it.
proof fn lemma_draw_column(s: MachineState, vx: u8, vy: u8, row: int, col: int)
    requires
        0 <= row < 32,
        0 <= col < 8,
    ensures
        0 <= pixel_index(vx + col, vy + row) < 2048,
        forall|p: int|
            0 <= p < 2048 ==> #[trigger] drawn_before(s, vx, vy, row, col + 1, p) == (
            drawn_before(s, vx, vy, row, col, p) || (p == pixel_index(vx + col, vy + row)
                && sprite_bit(s.memory[s.i + row], col as u8))),
        !drawn_before(s, vx, vy, row, col, pixel_index(vx + col, vy + row)),
        collides_before(s, vx, vy, row, col + 1) == (collides_before(s, vx, vy, row, col) || (
        s.display[pixel_index(vx + col, vy + row)] && sprite_bit(
            s.memory[s.i + row],
            col as u8,
        ))),
{
    let q = pixel_index(vx + col, vy + row);
    assert forall|p: int| 0 <= p < 2048 implies #[trigger] drawn_before(
        s,
        vx,
        vy,
        row,
        col + 1,
        p,
    ) == (drawn_before(s, vx, vy, row, col, p) || (p == q && sprite_bit(
        s.memory[s.i + row],
        col as u8,
    ))) by {
        lemma_sprite_position(vx as int, vy as int, row, col, p);
    }
    lemma_sprite_position(vx as int, vy as int, row, col, q);
    let bit = sprite_bit(s.memory[s.i + row], col as u8);
    if collides_before(s, vx, vy, row, col + 1) {
        let p = choose|p: int|
            0 <= p < 2048 && s.display[p] && #[trigger] drawn_before(s, vx, vy, row, col + 1, p);
        if !(p == q && bit) {
            assert(drawn_before(s, vx, vy, row, col, p));
        }
    }
    if collides_before(s, vx, vy, row, col) {
        let p = choose|p: int|
            0 <= p < 2048 && s.display[p] && #[trigger] drawn_before(s, vx, vy, row, col, p);
        assert(drawn_before(s, vx, vy, row, col + 1, p));
    }
    if s.display[q] && bit {
        assert(drawn_before(s, vx, vy, row, col + 1, q));
    }
}

/// A whole row drawn is the next row not yet begun.
proof fn lemma_draw_row(s: MachineState, vx: u8, vy: u8, row: int)
    ensures
        forall|p: int| #[trigger]
            drawn_before(s, vx, vy, row, 8, p) == drawn_before(s, vx, vy, row + 1, 0, p),
        collides_before(s, vx, vy, row, 8) == collides_before(s, vx, vy, row + 1, 0),
{
    if collides_before(s, vx, vy, row, 8) {
        let p = choose|p: int|
            0 <= p < 2048 && s.display[p] && #[trigger] drawn_before(s, vx, vy, row, 8, p);
        assert(drawn_before(s, vx, vy, row + 1, 0, p));
    }
    if collides_before(s, vx, vy, row + 1, 0) {
        let p = choose|p: int|
            0 <= p < 2048 && s.display[p] && #[trigger] drawn_before(s, vx, vy, row + 1, 0, p);
        assert(drawn_before(s, vx, vy, row, 8, p));
    }
}

/// Nothing is drawn before the first row, and all of the sprite before the
/// row after its last.
proof fn lemma_draw_ends(s: MachineState, vx: u8, vy: u8, n: u8)
    ensures
        forall|p: int| !#[trigger] drawn_before(s, vx, vy, 0, 0, p),
        !collides_before(s, vx, vy, 0, 0),
        forall|p: int| #[trigger]
            drawn_before(s, vx, vy, n as int, 0, p) == s.draws_on(vx, vy, n, p),
        collides_before(s, vx, vy, n as int, 0) == s.collides(vx, vy, n),
{
    if collides_before(s, vx, vy, n as int, 0) {
        let p = choose|p: int|
            0 <= p < 2048 && s.display[p] && #[trigger] drawn_before(s, vx, vy, n as int, 0, p);
        assert(s.draws_on(vx, vy, n, p));
    }
    if s.collides(vx, vy, n) {
        let p = choose|p: int|
            0 <= p < 2048 && s.display[p] && #[trigger] s.draws_on(vx, vy, n, p);
        assert(drawn_before(s, vx, vy, n as int, 0, p));
    }
}

/// The sum of two bytes, wrapping around at 256.
fn wrapping_sum(a: u8, b: u8) -> (sum: u8)
    ensures
        sum == ((a + b) % 256) as u8,
{
    a.wrapping_add(b)
}

/// The difference of two bytes, wrapping around at 256.
fn wrapping_difference(a: u8, b: u8) -> (difference: u8)
    ensures
        difference == ((a - b) % 256) as u8,
{
    a.wrapping_sub(b)
}

impl Chip8 {
    /// Reads the word at the program counter.
    pub(crate) fn fetch(&self) -> (res: Result<u16, Fault>)
        ensures
            res == self@.fetch(),
    {
        let pc = self.pc();
        if pc < 4095 {
            let hi = self.mem(pc);
            let lo = self.mem(pc + 1);
            proof {
                lemma_word(hi, lo);
            }
            Ok(((hi as u16) << 8) | (lo as u16))
        } else {
            Err(Fault::AddressViolation)
        }
    }

    /// Fetches and decodes the instruction at the program counter.
    pub fn next_instruction(&self) -> (res: Result<Instruction, Fault>)
        ensures
            res == self@.next_instruction(),
            res matches Ok(instr) ==> instr.wf() && self@.pc + 2 <= 4096,
    {
        match self.fetch() {
            Ok(op) => match decode(op) {
                Some(instr) => Ok(instr),
                None => Err(Fault::Decode(op)),
            },
            Err(fault) => Err(fault),
        }
    }

    /// Moves the program counter to the next instruction.
    fn advance(&mut self)
        requires
            !old(self)@.waiting_for_key,
            old(self)@.pc + 2 <= 4096,
        ensures
            final(self)@ == old(self)@.advance(),
    {
        let pc = self.pc();
        self.set_pc(pc + 2);
    }

    /// Moves the program counter past the next instruction if `skip`
    /// holds, and to the next instruction otherwise.
    fn skip_next_if(&mut self, skip: bool)
        requires
            !old(self)@.waiting_for_key,
            old(self)@.pc + 2 <= 4096,
        ensures
            final(self)@ == old(self)@.skip_if(skip),
    {
        let pc = self.pc();
        if skip {
            self.set_pc(pc + 4);
        } else {
            self.set_pc(pc + 2);
        }
    }

    /// Executes `instr`, fetched at the program counter, with `random` as
    /// the byte drawn for `Cxkk`. On a fault nothing changes.
    pub(crate) fn execute(&mut self, instr: Instruction, random: u8) -> (res: Result<(), Fault>)
        requires
            instr.wf(),
            !old(self)@.waiting_for_key,
            old(self)@.pc + 2 <= 4096,
        ensures
            settles(old(self)@, old(self)@.apply(instr, random), final(self)@, res),
    {
        match instr {
            Instruction::ClearScreen => {
                self.clear_display();
                self.advance();
                Ok(())
            },
            Instruction::Return => {
                match self.pop() {
                    Ok(addr) => {
                        self.set_pc(addr);
                        Ok(())
                    },
                    Err(fault) => Err(fault),
                }
            },
            Instruction::Jump { addr } => {
                self.set_pc(addr);
                Ok(())
            },
            Instruction::Call { addr } => {
                let pc = self.pc();
                match self.push(pc + 2) {
                    Ok(()) => {
                        self.set_pc(addr);
                        Ok(())
                    },
                    Err(fault) => Err(fault),
                }
            },
            Instruction::SkipEqByte { x, kk } => {
                let vx = self.reg(x);
                self.skip_next_if(vx == kk);
                Ok(())
            },
            Instruction::SkipNeByte { x, kk } => {
                let vx = self.reg(x);
                self.skip_next_if(vx != kk);
                Ok(())
            },
            Instruction::SkipEqReg { x, y } => {
                let vx = self.reg(x);
                let vy = self.reg(y);
                self.skip_next_if(vx == vy);
                Ok(())
            },
            Instruction::LoadByte { x, kk } => {
                self.put_reg(x, kk);
                self.advance();
                Ok(())
            },
            Instruction::AddByte { x, kk } => {
                let vx = self.reg(x);
                self.put_reg(x, wrapping_sum(vx, kk));
                self.advance();
                Ok(())
            },
            Instruction::Move { x, y } => {
                let vy = self.reg(y);
                self.put_reg(x, vy);
                self.advance();
                Ok(())
            },
            Instruction::Or { x, y } => {
                let vx = self.reg(x);
                let vy = self.reg(y);
                self.put_reg(x, vx | vy);
                self.advance();
                Ok(())
            },
            Instruction::And { x, y } => {
                let vx = self.reg(x);
                let vy = self.reg(y);
                self.put_reg(x, vx & vy);
                self.advance();
                Ok(())
            },
            Instruction::Xor { x, y } => {
                let vx = self.reg(x);
                let vy = self.reg(y);
                self.put_reg(x, vx ^ vy);
                self.advance();
                Ok(())
            },
            Instruction::AddReg { x, y } => {
                let vx = self.reg(x);
                let vy = self.reg(y);
                self.put_flag(vx as u16 + vy as u16 > 255);
                self.put_reg(x, wrapping_sum(vx, vy));
                self.advance();
                Ok(())
            },
            Instruction::Sub { x, y } => {
                let vx = self.reg(x);
                let vy = self.reg(y);
                self.put_flag(vx >= vy);
                self.put_reg(x, wrapping_difference(vx, vy));
                self.advance();
                Ok(())
            },
            Instruction::ShiftRight { x } => {
                let vx = self.reg(x);
                self.put_reg(0xF, vx & 1);
                self.put_reg(x, vx >> 1u8);
                self.advance();
                Ok(())
            },
            Instruction::SubFrom { x, y } => {
                let vx = self.reg(x);
                let vy = self.reg(y);
                self.put_flag(vy >= vx);
                self.put_reg(x, wrapping_difference(vy, vx));
                self.advance();
                Ok(())
            },
            Instruction::ShiftLeft { x } => {
                let vx = self.reg(x);
                self.put_reg(0xF, (vx >> 7u8) & 1);
                self.put_reg(x, vx << 1u8);
                self.advance();
                Ok(())
            },
            Instruction::SkipNeReg { x, y } => {
                let vx = self.reg(x);
                let vy = self.reg(y);
                self.skip_next_if(vx != vy);
                Ok(())
            },
            Instruction::LoadIndex { addr } => {
                self.set_index(addr);
                self.advance();
                Ok(())
            },
            Instruction::JumpOffset { addr } => {
                let v0 = self.reg(0);
                self.set_pc(addr + v0 as u16);
                Ok(())
            },
            Instruction::Random { x, kk } => {
                self.put_reg(x, random & kk);
                self.advance();
                Ok(())
            },
            Instruction::Draw { x, y, n } => self.draw(x, y, n),
            Instruction::SkipKeyDown { x } => {
                let vx = self.reg(x);
                let down = self.is_key_down(vx);
                self.skip_next_if(down);
                Ok(())
            },
            Instruction::SkipKeyUp { x } => {
                let vx = self.reg(x);
                let down = self.is_key_down(vx);
                self.skip_next_if(!down);
                Ok(())
            },
            Instruction::ReadDelay { x } => {
                let t = self.delay_timer();
                self.put_reg(x, t);
                self.advance();
                Ok(())
            },
            Instruction::WaitKey { x } => {
                self.begin_key_wait(x);
                Ok(())
            },
            Instruction::SetDelay { x } => {
                let vx = self.reg(x);
                self.set_delay_timer(vx);
                self.advance();
                Ok(())
            },
            Instruction::SetSound { x } => {
                let vx = self.reg(x);
                self.set_sound_timer(vx);
                self.advance();
                Ok(())
            },
            Instruction::AddIndex { x } => {
                let vx = self.reg(x);
                let i = self.index();
                self.set_index((i + vx as u16) % 4096);
                self.advance();
                Ok(())
            },
            Instruction::FontAddress { x } => {
                let vx = self.reg(x);
                if vx < 16 {
                    self.set_index(vx as u16 * 5);
                    self.advance();
                    Ok(())
                } else {
                    Err(Fault::AddressViolation)
                }
            },
            Instruction::StoreBcd { x } => self.store_bcd(x),
            Instruction::StoreRegs { x } => self.store_regs(x),
            Instruction::LoadRegs { x } => self.load_regs(x),
        }
    }

    /// `Fx33`.
    fn store_bcd(&mut self, x: u8) -> (res: Result<(), Fault>)
        requires
            x < 16,
            !old(self)@.waiting_for_key,
            old(self)@.pc + 2 <= 4096,
        ensures
            settles(old(self)@, old(self)@.store_bcd(x), final(self)@, res),
    {
        let i = self.index();
        if 80 <= i && i + 2 < 4096 {
            let vx = self.reg(x);
            self.put_byte(i, vx / 100);
            self.put_byte(i + 1, (vx / 10) % 10);
            self.put_byte(i + 2, vx % 10);
            self.advance();
            Ok(())
        } else {
            Err(Fault::AddressViolation)
        }
    }

    /// `Fx55`.
    fn store_regs(&mut self, x: u8) -> (res: Result<(), Fault>)
        requires
            x < 16,
            !old(self)@.waiting_for_key,
            old(self)@.pc + 2 <= 4096,
        ensures
            settles(old(self)@, old(self)@.store_regs(x), final(self)@, res),
    {
        let i = self.index();
        if !(80 <= i && i + (x as u16) < 4096) {
            return Err(Fault::AddressViolation);
        }
        proof {
            use_type_invariant(&*self);
            assert(self@ =~= MachineState {
                memory: Seq::new(
                    4096,
                    |a: int|
                        if i <= a < i + 0 {
                            self@.v[a - i]
                        } else {
                            self@.memory[a]
                        },
                ),
                ..self@
            });
        }
        let mut r: u8 = 0;
        while r <= x
            invariant
                x < 16,
                r <= x + 1,
                80 <= i,
                i + x < 4096,
                i == old(self)@.i,
                old(self)@.wf(),
                self@ == (MachineState {
                    memory: Seq::new(
                        4096,
                        |a: int|
                            if i <= a < i + r {
                                old(self)@.v[a - i]
                            } else {
                                old(self)@.memory[a]
                            },
                    ),
                    ..old(self)@
                }),
            decreases x + 1 - r,
        {
            let value = self.reg(r);
            self.put_byte(i + r as u16, value);
            r += 1;
        }
        assert(self@ =~= MachineState {
            memory: Seq::new(
                4096,
                |a: int|
                    if i <= a <= i + x {
                        old(self)@.v[a - i]
                    } else {
                        old(self)@.memory[a]
                    },
            ),
            ..old(self)@
        });
        self.advance();
        Ok(())
    }

    /// `Fx65`.
    fn load_regs(&mut self, x: u8) -> (res: Result<(), Fault>)
        requires
            x < 16,
            !old(self)@.waiting_for_key,
            old(self)@.pc + 2 <= 4096,
        ensures
            settles(old(self)@, old(self)@.load_regs(x), final(self)@, res),
    {
        let i = self.index();
        if !(i + (x as u16) < 4096) {
            return Err(Fault::AddressViolation);
        }
        proof {
            use_type_invariant(&*self);
            assert(self@ =~= MachineState {
                v: Seq::new(
                    16,
                    |k: int|
                        if k < 0 {
                            self@.memory[i + k]
                        } else {
                            self@.v[k]
                        },
                ),
                ..self@
            });
        }
        let mut r: u8 = 0;
        while r <= x
            invariant
                x < 16,
                r <= x + 1,
                i + x < 4096,
                i == old(self)@.i,
                old(self)@.wf(),
                self@ == (MachineState {
                    v: Seq::new(
                        16,
                        |k: int|
                            if k < r {
                                old(self)@.memory[i + k]
                            } else {
                                old(self)@.v[k]
                            },
                    ),
                    ..old(self)@
                }),
            decreases x + 1 - r,
        {
            let value = self.mem(i + r as u16);
            self.put_reg(r, value);
            r += 1;
        }
        assert(self@ =~= MachineState {
            v: Seq::new(
                16,
                |k: int|
                    if k <= x {
                        old(self)@.memory[i + k]
                    } else {
                        old(self)@.v[k]
                    },
            ),
            ..old(self)@
        });
        self.advance();
        Ok(())
    }

    /// `Dxyn`.
    fn draw(&mut self, x: u8, y: u8, n: u8) -> (res: Result<(), Fault>)
        requires
            x < 16,
            y < 16,
            n < 16,
            !old(self)@.waiting_for_key,
            old(self)@.pc + 2 <= 4096,
        ensures
            settles(old(self)@, old(self)@.draw(x, y, n), final(self)@, res),
    {
        let i = self.index();
        if i + n as u16 > 4096 {
            return Err(Fault::AddressViolation);
        }
        let vx = self.reg(x);
        let vy = self.reg(y);
        let mut collision = false;
        let mut row: u8 = 0;
        proof {
            use_type_invariant(&*self);
            lemma_draw_ends(self@, vx, vy, n);
            assert(self@ =~= MachineState { display: self@.display, ..self@ });
        }
        while row < n
            invariant
                row <= n < 16,
                i + n <= 4096,
                i == old(self)@.i,
                old(self)@.wf(),
                self@ == (MachineState { display: self@.display, ..old(self)@ }),
                self@.display.len() == 2048,
                forall|p: int|
                    0 <= p < 2048 ==> self@.display[p] == (old(self)@.display[p] != drawn_before(
                        old(self)@,
                        vx,
                        vy,
                        row as int,
                        0,
                        p,
                    )),
                collision == collides_before(old(self)@, vx, vy, row as int, 0),
            decreases n - row,
        {
            let byte = self.mem(i + row as u16);
            let mut col: u8 = 0;
            while col < 8
                invariant
                    col <= 8,
                    row < n < 16,
                    i + n <= 4096,
                    i == old(self)@.i,
                    old(self)@.wf(),
                    byte == old(self)@.memory[i + row],
                    self@ == (MachineState { display: self@.display, ..old(self)@ }),
                    self@.display.len() == 2048,
                    forall|p: int|
                        0 <= p < 2048 ==> self@.display[p] == (old(self)@.display[p]
                            != drawn_before(old(self)@, vx, vy, row as int, col as int, p)),
                    collision == collides_before(old(self)@, vx, vy, row as int, col as int),
                decreases 8 - col,
            {
                proof {
                    lemma_draw_column(old(self)@, vx, vy, row as int, col as int);
                }
                if byte & (0x80u8 >> col) != 0 {
                    let was_on = self.toggle_pixel(
                        vx as usize + col as usize,
                        vy as usize + row as usize,
                    );
                    if was_on {
                        collision = true;
                    }
                }
                col += 1;
            }
            proof {
                lemma_draw_row(old(self)@, vx, vy, row as int);
            }
            row += 1;
        }
        proof {
            lemma_draw_ends(old(self)@, vx, vy, n);
            assert(self@.display =~= Seq::new(
                2048,
                |p: int| old(self)@.display[p] != old(self)@.draws_on(vx, vy, n, p),
            ));
        }
        self.put_flag(collision);
        self.advance();
        Ok(())
    }

    /// Executes one step with `random` as the byte drawn if the instruction
    /// is `Cxkk`. While the machine waits for a key, the step ends the wait
    /// if a key press has been reported and does nothing otherwise. On a
    /// fault nothing changes.
    pub fn step(&mut self, random: u8) -> (res: Result<(), Fault>)
        ensures
            settles(old(self)@, old(self)@.step(random), final(self)@, res),
    {
        if self.is_waiting_for_key() {
            self.end_key_wait();
            Ok(())
        } else {
            match self.next_instruction() {
                Ok(instr) => self.execute(instr, random),
                Err(fault) => Err(fault),
            }
        }
    }

    /// Whether the next step draws a random byte: the machine is running
    /// and the instruction at the program counter is `Cxkk`.
    pub fn draws_random(&self) -> (draws: bool)
        ensures
            draws == self@.draws_random(),
    {
        if self.is_waiting_for_key() {
            false
        } else {
            match self.next_instruction() {
                Ok(Instruction::Random { .. }) => true,
                _ => false,
            }
        }
    }

    /// Executes one step, drawing the random byte for `Cxkk` from the
    /// system's generator. The outcome is that of [`Chip8::step`] with
    /// some byte, and with every byte where the step draws none.
    pub fn process_instruction(&mut self) -> (res: Result<(), Fault>)
        ensures
            exists|random: u8|
                settles(old(self)@, #[trigger] old(self)@.step(random), final(self)@, res),
            !old(self)@.draws_random() ==> forall|random: u8|
                settles(old(self)@, #[trigger] old(self)@.step(random), final(self)@, res),
    {
        let random = if self.draws_random() {
            random_byte()
        } else {
            0
        };
        proof {
            if !self@.draws_random() {
                assert forall|other: u8| #[trigger] self@.step(other) == self@.step(random) by {
                    random_matters_only_when_drawn(self@, other, random);
                }
            }
        }
        let res = self.step(random);
        assert(settles(old(self)@, old(self)@.step(random), self@, res));
        res
    }
}

} // verus!
