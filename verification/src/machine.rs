//! The machine state container: the machine's memory, registers, call
//! stack, timers, display and keypad, with the operations that read and
//! change them one at a time.

use vstd::prelude::*;
use crate::fault::Fault;
use crate::font::{font_set, FONT_SET};
use crate::model::{pixel_index, settles, writable, MachineState};

verus! {

/// A CHIP-8 machine. Its abstract value, `self@`, is a [`MachineState`],
/// and every machine satisfies [`MachineState::wf`].
pub struct Chip8 {
    memory: [u8; 4096],
    stack: [u16; 16],
    v: [u8; 16],
    gfx: [bool; 2048],
    keys: [bool; 16],
    delay_timer: u8,
    sound_timer: u8,
    pc: u16,
    sp: u8,
    i: u16,
    waiting_for_key: bool,
    key_target: u8,
    pending_key: Option<u8>,
}

impl View for Chip8 {
    type V = MachineState;

    closed spec fn view(&self) -> MachineState {
        MachineState {
            memory: self.memory@,
            v: self.v@,
            i: self.i,
            pc: self.pc,
            stack: self.stack@,
            sp: self.sp,
            delay_timer: self.delay_timer,
            sound_timer: self.sound_timer,
            display: self.gfx@,
            keys: self.keys@,
            waiting_for_key: self.waiting_for_key,
            key_target: self.key_target,
            pending_key: self.pending_key,
        }
    }
}

impl Clone for Chip8 {
    /// A copy of the machine, to be read or run apart from it.
    fn clone(&self) -> (copy: Chip8)
        ensures
            copy@ == self@,
    {
        proof {
            use_type_invariant(self);
        }
        Chip8 {
            memory: self.memory,
            stack: self.stack,
            v: self.v,
            gfx: self.gfx,
            keys: self.keys,
            delay_timer: self.delay_timer,
            sound_timer: self.sound_timer,
            pc: self.pc,
            sp: self.sp,
            i: self.i,
            waiting_for_key: self.waiting_for_key,
            key_target: self.key_target,
            pending_key: self.pending_key,
        }
    }
}

impl Chip8 {
    /// Every machine is well formed.
    #[verifier::type_invariant]
    pub open spec fn inv(self) -> bool {
        self@.wf()
    }

    /// Creates a machine: memory zeroed but for the font, registers, timers
    /// and stack pointer zero, the display blank, no key down, and the
    /// program counter at the start of program memory.
    pub fn new() -> (m: Chip8)
        ensures
            m@ == MachineState::initial(),
    {
        let mut memory = [0u8; 4096];
        let mut k: usize = 0;
        while k < 80
            invariant
                k <= 80,
                forall|a: int| 0 <= a < k ==> memory@[a] == font_set()[a],
                forall|a: int| k <= a < 4096 ==> memory@[a] == 0u8,
            decreases 80 - k,
        {
            memory[k] = FONT_SET[k];
            k += 1;
        }
        let m = Chip8 {
            memory,
            stack: [0u16; 16],
            v: [0u8; 16],
            gfx: [false; 2048],
            keys: [false; 16],
            delay_timer: 0,
            sound_timer: 0,
            pc: 0x200,
            sp: 0,
            i: 0,
            waiting_for_key: false,
            key_target: 0,
            pending_key: None,
        };
        assert(m@ =~= MachineState::initial());
        m
    }

    // ----- queries -----

    /// The program counter.
    pub fn pc(&self) -> (pc: u16)
        ensures
            pc == self@.pc,
    {
        self.pc
    }

    /// The stack pointer: the number of active call frames.
    pub fn sp(&self) -> (sp: u8)
        ensures
            sp == self@.sp,
            sp <= 15,
    {
        proof {
            use_type_invariant(self);
        }
        self.sp
    }

    /// The index register I.
    pub fn index(&self) -> (i: u16)
        ensures
            i == self@.i,
            i < 4096,
    {
        proof {
            use_type_invariant(self);
        }
        self.i
    }

    /// The delay timer.
    pub fn delay_timer(&self) -> (t: u8)
        ensures
            t == self@.delay_timer,
    {
        self.delay_timer
    }

    /// The sound timer.
    pub fn sound_timer(&self) -> (t: u8)
        ensures
            t == self@.sound_timer,
    {
        self.sound_timer
    }

    /// Whether the machine is suspended, waiting for a key press.
    pub fn is_waiting_for_key(&self) -> (w: bool)
        ensures
            w == self@.waiting_for_key,
    {
        self.waiting_for_key
    }

    /// The key press that will end the current key wait, if one was
    /// reported.
    pub fn pending_key(&self) -> (k: Option<u8>)
        ensures
            k == self@.pending_key,
    {
        self.pending_key
    }

    /// The whole display, row by row from the top-left corner.
    pub fn display(&self) -> (d: &[bool; 2048])
        ensures
            d@ == self@.display,
    {
        &self.gfx
    }

    /// Whether `key` names one of the sixteen keys and that key is down.
    pub fn is_key_down(&self, key: u8) -> (down: bool)
        ensures
            down == self@.key_down(key),
    {
        key < 16 && self.keys[key as usize]
    }

    /// Reads register `x`, which must name a register.
    pub(crate) fn reg(&self, x: u8) -> (value: u8)
        requires
            x < 16,
        ensures
            value == self@.reg(x),
    {
        self.v[x as usize]
    }

    /// Reads register `x`, or returns `None` if `x` names no register.
    pub fn register(&self, x: u8) -> (value: Option<u8>)
        ensures
            value == if x < 16 {
                Some(self@.reg(x))
            } else {
                None
            },
    {
        if x < 16 {
            Some(self.reg(x))
        } else {
            None
        }
    }

    /// Reads the byte at `addr`, which must lie in memory.
    pub(crate) fn mem(&self, addr: u16) -> (value: u8)
        requires
            addr < 4096,
        ensures
            value == self@.memory[addr as int],
    {
        self.memory[addr as usize]
    }

    /// Reads the byte at `addr`, or faults if `addr` lies outside memory.
    pub fn read_byte(&self, addr: u16) -> (res: Result<u8, Fault>)
        ensures
            res == self@.read_byte(addr),
    {
        if addr < 4096 {
            Ok(self.mem(addr))
        } else {
            Err(Fault::AddressViolation)
        }
    }

    /// Whether the pixel at column `x`, row `y` is on. Both coordinates
    /// wrap around the display.
    pub fn pixel(&self, x: usize, y: usize) -> (on: bool)
        ensures
            on == self@.pixel(x as int, y as int),
    {
        self.gfx[(y % 32) * 64 + x % 64]
    }

    // ----- changes -----

    /// Writes register `x`, which must name a register.
    pub(crate) fn put_reg(&mut self, x: u8, value: u8)
        requires
            x < 16,
        ensures
            final(self)@ == old(self)@.with_reg(x, value),
    {
        proof {
            use_type_invariant(&*self);
        }
        self.v[x as usize] = value;
    }

    /// Writes register `x` and returns `true`, or changes nothing and
    /// returns `false` if `x` names no register.
    pub fn set_register(&mut self, x: u8, value: u8) -> (done: bool)
        ensures
            done == (x < 16),
            final(self)@ == if x < 16 {
                old(self)@.with_reg(x, value)
            } else {
                old(self)@
            },
    {
        if x < 16 {
            self.put_reg(x, value);
            true
        } else {
            false
        }
    }

    /// Sets `VF` to 1 if `flag` holds and to 0 otherwise.
    pub(crate) fn put_flag(&mut self, flag: bool)
        ensures
            final(self)@ == old(self)@.with_flag(flag),
    {
        self.put_reg(0xF, if flag { 1 } else { 0 });
    }

    /// Writes `value` at `addr`, which must be writable.
    pub(crate) fn put_byte(&mut self, addr: u16, value: u8)
        requires
            writable(addr as int),
        ensures
            final(self)@ == old(self)@.with_byte(addr as int, value),
    {
        proof {
            use_type_invariant(&*self);
        }
        self.memory[addr as usize] = value;
    }

    /// Writes `value` at `addr`, or faults and changes nothing if `addr`
    /// lies outside memory or inside the font.
    pub fn write_byte(&mut self, addr: u16, value: u8) -> (res: Result<(), Fault>)
        ensures
            settles(old(self)@, old(self)@.write_byte(addr, value), final(self)@, res),
    {
        if 80 <= addr && addr < 4096 {
            self.put_byte(addr, value);
            Ok(())
        } else {
            Err(Fault::AddressViolation)
        }
    }

    /// Pushes a return address, or faults and changes nothing if the stack
    /// is at its maximum depth.
    pub fn push(&mut self, addr: u16) -> (res: Result<(), Fault>)
        ensures
            settles(old(self)@, old(self)@.push(addr), final(self)@, res),
    {
        proof {
            use_type_invariant(&*self);
        }
        if self.sp >= 15 {
            Err(Fault::StackOverflow)
        } else {
            self.stack[(self.sp + 1) as usize] = addr;
            self.sp = self.sp + 1;
            Ok(())
        }
    }

    /// Pops a return address, or faults and changes nothing if the stack
    /// holds none.
    pub fn pop(&mut self) -> (res: Result<u16, Fault>)
        ensures
            match old(self)@.pop() {
                Ok((popped, addr)) => res == Ok::<u16, Fault>(addr) && final(self)@ == popped,
                Err(fault) => res == Err::<u16, Fault>(fault) && final(self)@ == old(self)@,
            },
    {
        proof {
            use_type_invariant(&*self);
        }
        if self.sp == 0 {
            Err(Fault::StackUnderflow)
        } else {
            let addr = self.stack[self.sp as usize];
            self.sp = self.sp - 1;
            Ok(addr)
        }
    }

    /// Sets the program counter. While the machine waits for a key, the
    /// program counter must stay on an instruction inside memory.
    pub(crate) fn set_pc(&mut self, pc: u16)
        requires
            old(self)@.waiting_for_key ==> pc + 2 <= 4096,
        ensures
            final(self)@ == old(self)@.with_pc(pc),
    {
        proof {
            use_type_invariant(&*self);
        }
        self.pc = pc;
    }

    /// Sets the index register to an address inside memory.
    pub(crate) fn set_index(&mut self, i: u16)
        requires
            i < 4096,
        ensures
            final(self)@ == old(self)@.with_index(i),
    {
        proof {
            use_type_invariant(&*self);
        }
        self.i = i;
    }

    /// Sets the delay timer.
    pub(crate) fn set_delay_timer(&mut self, value: u8)
        ensures
            final(self)@ == old(self)@.with_delay(value),
    {
        proof {
            use_type_invariant(&*self);
        }
        self.delay_timer = value;
    }

    /// Sets the sound timer.
    pub(crate) fn set_sound_timer(&mut self, value: u8)
        ensures
            final(self)@ == old(self)@.with_sound(value),
    {
        proof {
            use_type_invariant(&*self);
        }
        self.sound_timer = value;
    }

    /// Turns the pixel at column `x`, row `y` on or off. Both coordinates
    /// wrap around the display.
    pub fn set_pixel(&mut self, x: usize, y: usize, on: bool)
        ensures
            final(self)@ == old(self)@.with_pixel(pixel_index(x as int, y as int), on),
    {
        proof {
            use_type_invariant(&*self);
        }
        self.gfx[(y % 32) * 64 + x % 64] = on;
    }

    /// Flips the pixel at column `x`, row `y` and returns whether it was
    /// on before. Both coordinates wrap around the display.
    pub fn toggle_pixel(&mut self, x: usize, y: usize) -> (was_on: bool)
        ensures
            was_on == old(self)@.pixel(x as int, y as int),
            final(self)@ == old(self)@.with_pixel(pixel_index(x as int, y as int), !was_on),
    {
        let was_on = self.pixel(x, y);
        self.set_pixel(x, y, !was_on);
        was_on
    }

    /// Turns every pixel off.
    pub fn clear_display(&mut self)
        ensures
            final(self)@ == old(self)@.clear(),
    {
        proof {
            use_type_invariant(&*self);
        }
        self.gfx = [false; 2048];
        assert(self@ =~= old(self)@.clear());
    }

    /// Advances the 60 Hz clock by one tick: each timer that is not zero
    /// goes down by one, a timer at zero stays there.
    pub fn tick_timers(&mut self)
        ensures
            final(self)@ == old(self)@.tick(),
    {
        proof {
            use_type_invariant(&*self);
        }
        if self.delay_timer > 0 {
            self.delay_timer = self.delay_timer - 1;
        }
        if self.sound_timer > 0 {
            self.sound_timer = self.sound_timer - 1;
        }
    }

    /// Copies the program `rom` into memory from address 0x200 on, or
    /// faults and changes nothing if it does not fit.
    pub fn load_rom(&mut self, rom: &[u8]) -> (res: Result<(), Fault>)
        ensures
            settles(old(self)@, old(self)@.load(rom@), final(self)@, res),
    {
        if rom.len() > 4096 - 0x200 {
            return Err(Fault::AddressViolation);
        }
        let mut k: usize = 0;
        while k < rom.len()
            invariant
                k <= rom.len() <= 4096 - 0x200,
                self@ == (MachineState {
                    memory: Seq::new(
                        4096,
                        |a: int|
                            if 0x200 <= a < 0x200 + k {
                                rom@[a - 0x200]
                            } else {
                                old(self)@.memory[a]
                            },
                    ),
                    ..old(self)@
                }),
            decreases rom.len() - k,
        {
            proof {
                use_type_invariant(&*self);
            }
            self.memory[0x200 + k] = rom[k];
            k += 1;
        }
        Ok(())
    }

    /// Starts a key wait with target register `x`. The program counter
    /// must be on an instruction inside memory.
    pub(crate) fn begin_key_wait(&mut self, x: u8)
        requires
            x < 16,
            old(self)@.pc + 2 <= 4096,
        ensures
            final(self)@ == old(self)@.wait_key(x),
    {
        proof {
            use_type_invariant(&*self);
        }
        self.pending_key = None;
        self.key_target = x;
        self.waiting_for_key = true;
    }

    /// Ends a key wait for which a key press was reported: the key goes
    /// to the target register, execution goes on after the instruction.
    /// Returns `false` and changes nothing if there is no such wait.
    pub(crate) fn end_key_wait(&mut self) -> (ended: bool)
        ensures
            ended == (old(self)@.pending_key is Some),
            final(self)@ == match old(self)@.pending_key {
                Some(key) => old(self)@.resume(key),
                None => old(self)@,
            },
    {
        proof {
            use_type_invariant(&*self);
        }
        match self.pending_key {
            Some(key) => {
                self.pending_key = None;
                self.waiting_for_key = false;
                self.v[self.key_target as usize] = key;
                self.pc = self.pc + 2;
                true
            },
            None => false,
        }
    }

    /// Reports that `key` went down. During a key wait the first press
    /// reported is kept to end the wait at the next step. Returns whether
    /// `key` names a key; if not, nothing changes.
    pub fn press_key(&mut self, key: u8) -> (known: bool)
        ensures
            known == (key < 16),
            final(self)@ == old(self)@.press(key),
    {
        proof {
            use_type_invariant(&*self);
        }
        if key < 16 {
            self.keys[key as usize] = true;
            if self.waiting_for_key && self.pending_key.is_none() {
                self.pending_key = Some(key);
            }
            true
        } else {
            false
        }
    }

    /// Reports that `key` went up. Returns whether `key` names a key; if
    /// not, nothing changes.
    pub fn release_key(&mut self, key: u8) -> (known: bool)
        ensures
            known == (key < 16),
            final(self)@ == old(self)@.release(key),
    {
        proof {
            use_type_invariant(&*self);
        }
        if key < 16 {
            self.keys[key as usize] = false;
            true
        } else {
            false
        }
    }
}

} // verus!
