//! The mathematical model of the machine: its state as plain sequences and
//! integers, and every state transition as a function on that state.

use vstd::prelude::*;
use crate::fault::Fault;
use crate::font::{font_set, FONT_SIZE, GLYPH_SIZE};
use crate::instruction::{decode_spec, Instruction};

verus! {

/// Number of bytes of memory.
pub const MEMORY_SIZE: usize = 4096;

/// Address at which programs are loaded and execution starts.
pub const PROGRAM_START: u16 = 0x200;

/// Number of general-purpose registers.
pub const NUM_REGISTERS: usize = 16;

/// Number of slots in the call stack.
pub const STACK_SIZE: usize = 16;

/// Number of keys on the keypad.
pub const NUM_KEYS: usize = 16;

/// Width of the display in pixels.
pub const DISPLAY_WIDTH: usize = 64;

/// Height of the display in pixels.
pub const DISPLAY_HEIGHT: usize = 32;

/// Number of pixels of the display.
pub const DISPLAY_SIZE: usize = 2048;

/// The state of a machine.
#[verifier::ext_equal]
pub struct MachineState {
    /// The 4096 bytes of memory.
    pub memory: Seq<u8>,
    /// The registers V0..VF.
    pub v: Seq<u8>,
    /// The index register I.
    pub i: u16,
    /// The program counter.
    pub pc: u16,
    /// The call stack; slots `1..=sp` hold the active return addresses.
    pub stack: Seq<u16>,
    /// The stack pointer.
    pub sp: u8,
    /// The delay timer.
    pub delay_timer: u8,
    /// The sound timer.
    pub sound_timer: u8,
    /// The pixels, row by row from the top-left corner.
    pub display: Seq<bool>,
    /// Which keys are currently held down.
    pub keys: Seq<bool>,
    /// Whether execution is suspended until a key is pressed.
    pub waiting_for_key: bool,
    /// The register that receives the key that ends the wait.
    pub key_target: u8,
    /// The key press reported since the wait began, if any.
    pub pending_key: Option<u8>,
}

/// The big-endian word made of two bytes.
pub open spec fn word(hi: u8, lo: u8) -> u16 {
    (hi * 256 + lo) as u16
}

/// The position in the display of the pixel at column `x`, row `y`, both
/// taken modulo the display's size.
pub open spec fn pixel_index(x: int, y: int) -> int {
    (y % 32) * 64 + x % 64
}

/// Whether a sprite row `byte` has a pixel in column `col`; column 0, the
/// leftmost, is the most significant bit.
pub open spec fn sprite_bit(byte: u8, col: u8) -> bool {
    (byte & (0x80u8 >> col)) != 0
}

/// Whether a store may write at `addr`: inside memory and past the font.
pub open spec fn writable(addr: int) -> bool {
    FONT_SIZE <= addr < MEMORY_SIZE
}

/// Whether `after` and `res` are what an operation leaves behind that was
/// to turn `before` into `expected`: on success the new state, on a fault
/// the fault and the state untouched.
pub open spec fn settles(
    before: MachineState,
    expected: Result<MachineState, Fault>,
    after: MachineState,
    res: Result<(), Fault>,
) -> bool {
    match expected {
        Ok(next) => res is Ok && after == next,
        Err(fault) => res == Err::<(), Fault>(fault) && after == before,
    }
}

impl MachineState {
    /// The invariant that every reachable state satisfies.
    pub open spec fn wf(self) -> bool {
        &&& self.memory.len() == MEMORY_SIZE
        &&& self.v.len() == NUM_REGISTERS
        &&& self.stack.len() == STACK_SIZE
        &&& self.display.len() == DISPLAY_SIZE
        &&& self.keys.len() == NUM_KEYS
        &&& self.sp <= 15
        &&& self.i < MEMORY_SIZE
        &&& self.key_target < NUM_REGISTERS
        &&& (self.waiting_for_key ==> self.pc + 2 <= MEMORY_SIZE)
        &&& (self.pending_key matches Some(k) ==> self.waiting_for_key && k < NUM_KEYS)
        &&& forall|a: int| 0 <= a < FONT_SIZE ==> self.memory[a] == font_set()[a]
    }

    /// The state of a machine that has just been created.
    pub open spec fn initial() -> MachineState {
        MachineState {
            memory: Seq::new(4096, |a: int| if a < 80 { font_set()[a] } else { 0u8 }),
            v: Seq::new(16, |r: int| 0u8),
            i: 0,
            pc: PROGRAM_START,
            stack: Seq::new(16, |k: int| 0u16),
            sp: 0,
            delay_timer: 0,
            sound_timer: 0,
            display: Seq::new(2048, |p: int| false),
            keys: Seq::new(16, |k: int| false),
            waiting_for_key: false,
            key_target: 0,
            pending_key: None,
        }
    }

    // ----- fields -----

    /// The value of register `x`.
    pub open spec fn reg(self, x: u8) -> u8 {
        self.v[x as int]
    }

    /// This state with register `x` set to `value`.
    pub open spec fn with_reg(self, x: u8, value: u8) -> MachineState {
        MachineState { v: self.v.update(x as int, value), ..self }
    }

    /// This state with `VF` set to 1 if `flag` holds and to 0 otherwise.
    pub open spec fn with_flag(self, flag: bool) -> MachineState {
        self.with_reg(0xF, if flag { 1u8 } else { 0u8 })
    }

    /// This state with the program counter set to `pc`.
    pub open spec fn with_pc(self, pc: u16) -> MachineState {
        MachineState { pc, ..self }
    }

    /// This state with the index register set to `i`.
    pub open spec fn with_index(self, i: u16) -> MachineState {
        MachineState { i, ..self }
    }

    /// This state with the byte at `addr` set to `value`.
    pub open spec fn with_byte(self, addr: int, value: u8) -> MachineState {
        MachineState { memory: self.memory.update(addr, value), ..self }
    }

    /// This state with the pixel at position `p` of the display set to `on`.
    pub open spec fn with_pixel(self, p: int, on: bool) -> MachineState {
        MachineState { display: self.display.update(p, on), ..self }
    }

    /// This state with the delay timer set to `value`.
    pub open spec fn with_delay(self, value: u8) -> MachineState {
        MachineState { delay_timer: value, ..self }
    }

    /// This state with the sound timer set to `value`.
    pub open spec fn with_sound(self, value: u8) -> MachineState {
        MachineState { sound_timer: value, ..self }
    }

    /// This state with the program counter moved to the next instruction.
    pub open spec fn advance(self) -> MachineState {
        self.with_pc((self.pc + 2) as u16)
    }

    /// This state with the program counter moved past the next instruction
    /// if `skip` holds, and to the next instruction otherwise.
    pub open spec fn skip_if(self, skip: bool) -> MachineState {
        self.with_pc((self.pc + if skip { 4int } else { 2int }) as u16)
    }

    /// Whether `key` names one of the sixteen keys and that key is down.
    pub open spec fn key_down(self, key: u8) -> bool {
        key < 16 && self.keys[key as int]
    }

    /// Whether the pixel at column `x`, row `y` is on, with both
    /// coordinates wrapping around the display.
    pub open spec fn pixel(self, x: int, y: int) -> bool {
        self.display[pixel_index(x, y)]
    }

    // ----- the state container's operations -----

    /// Reading the byte at `addr`.
    pub open spec fn read_byte(self, addr: u16) -> Result<u8, Fault> {
        if addr < 4096 {
            Ok(self.memory[addr as int])
        } else {
            Err(Fault::AddressViolation)
        }
    }

    /// Writing `value` at `addr`.
    pub open spec fn write_byte(self, addr: u16, value: u8) -> Result<MachineState, Fault> {
        if writable(addr as int) {
            Ok(self.with_byte(addr as int, value))
        } else {
            Err(Fault::AddressViolation)
        }
    }

    /// Pushing the return address `addr` on the call stack.
    pub open spec fn push(self, addr: u16) -> Result<MachineState, Fault> {
        if self.sp >= 15 {
            Err(Fault::StackOverflow)
        } else {
            Ok(
                MachineState {
                    sp: (self.sp + 1) as u8,
                    stack: self.stack.update(self.sp + 1, addr),
                    ..self
                },
            )
        }
    }

    /// Popping a return address off the call stack.
    pub open spec fn pop(self) -> Result<(MachineState, u16), Fault> {
        if self.sp == 0 {
            Err(Fault::StackUnderflow)
        } else {
            Ok((MachineState { sp: (self.sp - 1) as u8, ..self }, self.stack[self.sp as int]))
        }
    }

    /// This state with every pixel off.
    pub open spec fn clear(self) -> MachineState {
        MachineState { display: Seq::new(2048, |p: int| false), ..self }
    }

    /// This state after one tick of the 60 Hz clock: each timer that is not
    /// zero goes down by one.
    pub open spec fn tick(self) -> MachineState {
        MachineState {
            delay_timer: if self.delay_timer > 0 {
                (self.delay_timer - 1) as u8
            } else {
                0
            },
            sound_timer: if self.sound_timer > 0 {
                (self.sound_timer - 1) as u8
            } else {
                0
            },
            ..self
        }
    }

    /// Loading the program `rom` at the start of program memory.
    pub open spec fn load(self, rom: Seq<u8>) -> Result<MachineState, Fault> {
        if 0x200 + rom.len() > 4096 {
            Err(Fault::AddressViolation)
        } else {
            Ok(
                MachineState {
                    memory: Seq::new(
                        4096,
                        |a: int|
                            if 0x200 <= a < 0x200 + rom.len() {
                                rom[a - 0x200]
                            } else {
                                self.memory[a]
                            },
                    ),
                    ..self
                },
            )
        }
    }

    /// This state after the driver reports that `key` went down. The first
    /// press reported during a key wait is kept to end the wait. A `key`
    /// that names no key changes nothing.
    pub open spec fn press(self, key: u8) -> MachineState {
        if key < 16 {
            MachineState {
                keys: self.keys.update(key as int, true),
                pending_key: if self.waiting_for_key && self.pending_key is None {
                    Some(key)
                } else {
                    self.pending_key
                },
                ..self
            }
        } else {
            self
        }
    }

    /// This state after the driver reports that `key` went up.
    pub open spec fn release(self, key: u8) -> MachineState {
        if key < 16 {
            MachineState { keys: self.keys.update(key as int, false), ..self }
        } else {
            self
        }
    }

    // ----- instruction semantics -----

    /// Whether drawing the `n`-row sprite stored at `I` with its top-left
    /// corner at `(vx, vy)` puts a set sprite bit on the pixel at position
    /// `p` of the display. Rows and columns wrap around the display.
    pub open spec fn draws_on(self, vx: u8, vy: u8, n: u8, p: int) -> bool {
        let col = (p % 64 - vx) % 64;
        let row = (p / 64 - vy) % 32;
        col < 8 && row < n && sprite_bit(self.memory[self.i + row], col as u8)
    }

    /// Whether that draw turns off a pixel that was on.
    pub open spec fn collides(self, vx: u8, vy: u8, n: u8) -> bool {
        exists|p: int| 0 <= p < 2048 && self.display[p] && #[trigger] self.draws_on(vx, vy, n, p)
    }

    /// `Dxyn`: every pixel under a set sprite bit is flipped, `VF` tells
    /// whether any pixel went from on to off.
    pub open spec fn draw(self, x: u8, y: u8, n: u8) -> Result<MachineState, Fault> {
        let vx = self.reg(x);
        let vy = self.reg(y);
        if self.i + n > 4096 {
            Err(Fault::AddressViolation)
        } else {
            Ok(
                MachineState {
                    display: Seq::new(
                        2048,
                        |p: int| self.display[p] != self.draws_on(vx, vy, n, p),
                    ),
                    ..self
                }.with_flag(self.collides(vx, vy, n)).advance(),
            )
        }
    }

    /// `Fx33`: the hundreds, tens and ones of `Vx` go to `I`, `I+1`, `I+2`.
    pub open spec fn store_bcd(self, x: u8) -> Result<MachineState, Fault> {
        let vx = self.reg(x);
        if writable(self.i as int) && writable(self.i + 2) {
            Ok(
                self.with_byte(self.i as int, vx / 100).with_byte(
                    self.i + 1,
                    (vx / 10) % 10,
                ).with_byte(self.i + 2, vx % 10).advance(),
            )
        } else {
            Err(Fault::AddressViolation)
        }
    }

    /// `Fx55`: `V0..=Vx` go to `I..=I+x`.
    pub open spec fn store_regs(self, x: u8) -> Result<MachineState, Fault> {
        if writable(self.i as int) && writable(self.i + x) {
            Ok(
                MachineState {
                    memory: Seq::new(
                        4096,
                        |a: int|
                            if self.i <= a <= self.i + x {
                                self.v[a - self.i]
                            } else {
                                self.memory[a]
                            },
                    ),
                    ..self
                }.advance(),
            )
        } else {
            Err(Fault::AddressViolation)
        }
    }

    /// `Fx65`: `V0..=Vx` come from `I..=I+x`.
    pub open spec fn load_regs(self, x: u8) -> Result<MachineState, Fault> {
        if self.i + x < 4096 {
            Ok(
                MachineState {
                    v: Seq::new(
                        16,
                        |r: int|
                            if r <= x {
                                self.memory[self.i + r]
                            } else {
                                self.v[r]
                            },
                    ),
                    ..self
                }.advance(),
            )
        } else {
            Err(Fault::AddressViolation)
        }
    }

    /// `2nnn`: the address of the next instruction is pushed, then the
    /// program counter goes to `addr`.
    pub open spec fn call(self, addr: u16) -> Result<MachineState, Fault> {
        match self.push((self.pc + 2) as u16) {
            Ok(pushed) => Ok(pushed.with_pc(addr)),
            Err(fault) => Err(fault),
        }
    }

    /// `00EE`: the program counter goes to the address popped off the stack.
    pub open spec fn ret(self) -> Result<MachineState, Fault> {
        match self.pop() {
            Ok((popped, addr)) => Ok(popped.with_pc(addr)),
            Err(fault) => Err(fault),
        }
    }

    /// `Fx29`: `I` points at the glyph of the hexadecimal digit `Vx`.
    pub open spec fn font_address(self, x: u8) -> Result<MachineState, Fault> {
        let vx = self.reg(x);
        if vx < 16 {
            Ok(self.with_index((vx * GLYPH_SIZE) as u16).advance())
        } else {
            Err(Fault::AddressViolation)
        }
    }

    /// `Fx0A`: the machine starts waiting for a key, to be stored in `Vx`.
    /// The program counter stays on the instruction.
    pub open spec fn wait_key(self, x: u8) -> MachineState {
        MachineState { waiting_for_key: true, key_target: x, pending_key: None, ..self }
    }

    /// The end of a key wait: `key` goes to the target register and
    /// execution goes on with the next instruction.
    pub open spec fn resume(self, key: u8) -> MachineState {
        MachineState { waiting_for_key: false, pending_key: None, ..self }.with_reg(
            self.key_target,
            key,
        ).advance()
    }

    /// The effect of executing `instr`, fetched at the program counter, with
    /// `random` as the byte drawn for `Cxkk`.
    ///
    /// Operands are read before anything is written. Where an instruction
    /// sets both `VF` and `Vx`, `VF` is written first, so that with `x = F`
    /// the result is what stays in `VF`.
    pub open spec fn apply(self, instr: Instruction, random: u8) -> Result<MachineState, Fault> {
        match instr {
            Instruction::ClearScreen => Ok(self.clear().advance()),
            Instruction::Return => self.ret(),
            Instruction::Jump { addr } => Ok(self.with_pc(addr)),
            Instruction::Call { addr } => self.call(addr),
            Instruction::SkipEqByte { x, kk } => Ok(self.skip_if(self.reg(x) == kk)),
            Instruction::SkipNeByte { x, kk } => Ok(self.skip_if(self.reg(x) != kk)),
            Instruction::SkipEqReg { x, y } => Ok(self.skip_if(self.reg(x) == self.reg(y))),
            Instruction::LoadByte { x, kk } => Ok(self.with_reg(x, kk).advance()),
            Instruction::AddByte { x, kk } => Ok(
                self.with_reg(x, ((self.reg(x) + kk) % 256) as u8).advance(),
            ),
            Instruction::Move { x, y } => Ok(self.with_reg(x, self.reg(y)).advance()),
            Instruction::Or { x, y } => Ok(self.with_reg(x, self.reg(x) | self.reg(y)).advance()),
            Instruction::And { x, y } => Ok(self.with_reg(x, self.reg(x) & self.reg(y)).advance()),
            Instruction::Xor { x, y } => Ok(self.with_reg(x, self.reg(x) ^ self.reg(y)).advance()),
            Instruction::AddReg { x, y } => {
                let sum = self.reg(x) + self.reg(y);
                Ok(self.with_flag(sum > 255).with_reg(x, (sum % 256) as u8).advance())
            },
            Instruction::Sub { x, y } => {
                let vx = self.reg(x);
                let vy = self.reg(y);
                Ok(self.with_flag(vx >= vy).with_reg(x, ((vx - vy) % 256) as u8).advance())
            },
            Instruction::ShiftRight { x } => {
                let vx = self.reg(x);
                Ok(self.with_reg(0xF, vx & 1).with_reg(x, vx >> 1u8).advance())
            },
            Instruction::SubFrom { x, y } => {
                let vx = self.reg(x);
                let vy = self.reg(y);
                Ok(self.with_flag(vy >= vx).with_reg(x, ((vy - vx) % 256) as u8).advance())
            },
            Instruction::ShiftLeft { x } => {
                let vx = self.reg(x);
                Ok(self.with_reg(0xF, (vx >> 7u8) & 1).with_reg(x, vx << 1u8).advance())
            },
            Instruction::SkipNeReg { x, y } => Ok(self.skip_if(self.reg(x) != self.reg(y))),
            Instruction::LoadIndex { addr } => Ok(self.with_index(addr).advance()),
            Instruction::JumpOffset { addr } => Ok(self.with_pc((addr + self.reg(0)) as u16)),
            Instruction::Random { x, kk } => Ok(self.with_reg(x, random & kk).advance()),
            Instruction::Draw { x, y, n } => self.draw(x, y, n),
            Instruction::SkipKeyDown { x } => Ok(self.skip_if(self.key_down(self.reg(x)))),
            Instruction::SkipKeyUp { x } => Ok(self.skip_if(!self.key_down(self.reg(x)))),
            Instruction::ReadDelay { x } => Ok(self.with_reg(x, self.delay_timer).advance()),
            Instruction::WaitKey { x } => Ok(self.wait_key(x)),
            Instruction::SetDelay { x } => Ok(self.with_delay(self.reg(x)).advance()),
            Instruction::SetSound { x } => Ok(self.with_sound(self.reg(x)).advance()),
            Instruction::AddIndex { x } => Ok(
                self.with_index(((self.i + self.reg(x)) % 4096) as u16).advance(),
            ),
            Instruction::FontAddress { x } => self.font_address(x),
            Instruction::StoreBcd { x } => self.store_bcd(x),
            Instruction::StoreRegs { x } => self.store_regs(x),
            Instruction::LoadRegs { x } => self.load_regs(x),
        }
    }

    /// The big-endian word stored at `addr` and `addr + 1`.
    pub open spec fn word_at(self, addr: int) -> u16 {
        word(self.memory[addr], self.memory[addr + 1])
    }

    /// Whether the word `op` is stored at `addr`, inside memory.
    pub open spec fn holds_word(self, addr: int, op: int) -> bool {
        0 <= addr && addr + 1 < 4096 && self.word_at(addr) == op
    }

    /// The word at the program counter.
    pub open spec fn fetch(self) -> Result<u16, Fault> {
        if self.pc + 1 < 4096 {
            Ok(self.word_at(self.pc as int))
        } else {
            Err(Fault::AddressViolation)
        }
    }

    /// The instruction at the program counter, or the fault that fetching
    /// or decoding it raises.
    pub open spec fn next_instruction(self) -> Result<Instruction, Fault> {
        match self.fetch() {
            Ok(op) => match decode_spec(op) {
                Some(instr) => Ok(instr),
                None => Err(Fault::Decode(op)),
            },
            Err(fault) => Err(fault),
        }
    }

    /// One step of the machine, with `random` as the byte drawn if the
    /// instruction is `Cxkk`.
    ///
    /// While the machine waits for a key, a step fetches nothing: it ends
    /// the wait if a key press has been reported and does nothing otherwise.
    pub open spec fn step(self, random: u8) -> Result<MachineState, Fault> {
        if self.waiting_for_key {
            match self.pending_key {
                Some(key) => Ok(self.resume(key)),
                None => Ok(self),
            }
        } else {
            match self.next_instruction() {
                Ok(instr) => self.apply(instr, random),
                Err(fault) => Err(fault),
            }
        }
    }

    /// Whether the next step draws a random byte.
    pub open spec fn draws_random(self) -> bool {
        !self.waiting_for_key && self.next_instruction() matches Ok(Instruction::Random { .. })
    }

    /// This state after `n` ticks of the 60 Hz clock.
    pub open spec fn ticks(self, n: nat) -> MachineState
        decreases n,
    {
        if n == 0 {
            self
        } else {
            self.tick().ticks((n - 1) as nat)
        }
    }

    /// As many steps as `randoms` has bytes, each with its byte, stopping
    /// at the first fault.
    pub open spec fn run(self, randoms: Seq<u8>) -> Result<MachineState, Fault>
        decreases randoms.len(),
    {
        if randoms.len() == 0 {
            Ok(self)
        } else {
            match self.step(randoms[0]) {
                Ok(next) => next.run(randoms.skip(1)),
                Err(fault) => Err(fault),
            }
        }
    }
}

} // verus!
