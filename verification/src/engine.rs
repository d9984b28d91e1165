//! The engine: memory, registers, display and keypad, and the instructions
//! that work on them.

use crate::display::Display;
use crate::error::{ExecError, LoadError};
use crate::keypad::Keypad;
use crate::machine::Machine;
use crate::memory::{Memory, PROGRAM_START};
use crate::opcode::{decode, lemma_decode_wf, Instruction};
use crate::random::random_byte;
use vstd::prelude::*;

verus! {

/// The register file.
#[derive(Debug, Clone, Copy, PartialEq, Eq)]
pub struct Registers {
    /// `V0` to `VF`.
    pub v: [u8; 16],
    /// The address register.
    pub i: u16,
    /// The delay timer.
    pub dt: u8,
    /// The sound timer.
    pub st: u8,
    /// The program counter.
    pub pc: u16,
    /// The stack pointer.
    pub sp: u8,
    /// The return addresses.
    pub stack: [u16; 16],
}

/// The engine.
pub struct Chip8 {
    mem: Memory,
    reg: Registers,
    dis: Display,
    keys: Keypad,
    run: bool,
    image: Vec<u8>,
}

impl View for Chip8 {
    type V = Machine;

    closed spec fn view(&self) -> Machine {
        Machine {
            mem: self.mem@,
            v: self.reg.v@,
            i: self.reg.i,
            pc: self.reg.pc,
            sp: self.reg.sp,
            stack: self.reg.stack@,
            dt: self.reg.dt,
            st: self.reg.st,
            display: self.dis@,
            keys: self.keys@,
            run: self.run,
            image: self.image@,
        }
    }
}

impl Chip8 {
    /// The invariant of the engine: its view is a machine of the right shape.
    pub open spec fn wf(&self) -> bool {
        self@.wf()
    }

    /// An engine switched on with the interpreter image `image`, which must
    /// fit below the program area.
    pub fn new(image: &[u8]) -> (res: Result<Chip8, LoadError>)
        ensures
            match res {
                Ok(c) => image@.len() <= 0x200 && c.wf() && c@ == Machine::power_on(image@),
                Err(e) => image@.len() > 0x200 && e == LoadError::ImageTooLarge,
            },
    {
        let mut c = Chip8 {
            mem: Memory::new(),
            reg: Registers {
                v: [0; 16],
                i: 0,
                dt: 0,
                st: 0,
                pc: PROGRAM_START,
                sp: 0,
                stack: [0; 16],
            },
            dis: Display::new(),
            keys: Keypad::new(),
            run: false,
            image: Vec::new(),
        };
        match c.load_int(image) {
            Ok(()) => {
                assert(c@ =~= Machine::power_on(image@));
                Ok(c)
            },
            Err(e) => Err(e),
        }
    }

    /// Puts the machine back to how it was switched on: memory zeroed and the
    /// interpreter image loaded again, registers, stack and timers zero, the
    /// program counter at `0x200`, the display dark, the run flag cleared.
    /// The keys stay as the host set them.
    pub fn reset(&mut self)
        requires
            old(self).wf(),
        ensures
            final(self).wf(),
            final(self)@ == old(self)@.reset(),
    {
        self.mem = Memory::new();
        self.reg = Registers {
            v: [0; 16],
            i: 0,
            dt: 0,
            st: 0,
            pc: PROGRAM_START,
            sp: 0,
            stack: [0; 16],
        };
        self.dis.clear();
        self.run = false;
        let _ = self.mem.load(self.image.as_slice(), 0, 0x200);
        assert(self@ =~= old(self)@.reset());
    }

    /// Installs `image` as the interpreter image: copies it to address 0 and
    /// keeps it for `reset`. An image that would reach into the program area
    /// is refused, and nothing changes.
    pub fn load_int(&mut self, image: &[u8]) -> (res: Result<(), LoadError>)
        requires
            old(self).wf(),
        ensures
            final(self).wf(),
            match res {
                Ok(()) => image@.len() <= 0x200 && final(self)@ == old(self)@.load_int(image@),
                Err(e) => {
                    &&& image@.len() > 0x200
                    &&& e == LoadError::ImageTooLarge
                    &&& final(self)@ == old(self)@
                },
            },
    {
        match self.mem.load(image, 0, 0x200) {
            Ok(()) => {
                self.image = vstd::slice::slice_to_vec(image);
                assert(self@ =~= old(self)@.load_int(image@));
                Ok(())
            },
            Err(e) => Err(e),
        }
    }

    /// Copies `image` into memory from address `base` on, over what was
    /// there. An image that would reach past the end of memory is refused,
    /// and nothing changes.
    pub fn load_image(&mut self, image: &[u8], base: u16) -> (res: Result<(), LoadError>)
        requires
            old(self).wf(),
        ensures
            final(self).wf(),
            match res {
                Ok(()) => {
                    &&& base + image@.len() <= 4096
                    &&& final(self)@ == old(self)@.load_image(image@, base as int)
                },
                Err(e) => {
                    &&& base + image@.len() > 4096
                    &&& e == LoadError::ImageTooLarge
                    &&& final(self)@ == old(self)@
                },
            },
    {
        let res = self.mem.load(image, base as usize, 4096);
        assert(res is Ok ==> self@ =~= old(self)@.load_image(image@, base as int));
        res
    }

    /// Loads a program: `image` goes to address `0x200`.
    pub fn load_rom(&mut self, image: &[u8]) -> (res: Result<(), LoadError>)
        requires
            old(self).wf(),
        ensures
            final(self).wf(),
            match res {
                Ok(()) => {
                    &&& 0x200 + image@.len() <= 4096
                    &&& final(self)@ == old(self)@.load_image(image@, 0x200)
                },
                Err(e) => {
                    &&& 0x200 + image@.len() > 4096
                    &&& e == LoadError::ImageTooLarge
                    &&& final(self)@ == old(self)@
                },
            },
    {
        self.load_image(image, PROGRAM_START)
    }

    /// One tick of the 60 Hz clock: each timer that is not yet 0 goes down
    /// by one.
    pub fn tick_timers(&mut self)
        requires
            old(self).wf(),
        ensures
            final(self).wf(),
            final(self)@ == old(self)@.tick_timers(),
    {
        if self.reg.dt > 0 {
            self.reg.dt -= 1;
        }
        if self.reg.st > 0 {
            self.reg.st -= 1;
        }
        assert(self@ =~= old(self)@.tick_timers());
    }

    /// Records that key `key` went down or up.
    pub fn set_key(&mut self, key: u8, down: bool)
        requires
            old(self).wf(),
            key < 16,
        ensures
            final(self).wf(),
            final(self)@ == old(self)@.set_key(key, down),
    {
        self.keys.set(key, down);
        assert(self@ =~= old(self)@.set_key(key, down));
    }

    /// Sets or clears the run flag.
    pub fn set_running(&mut self, run: bool)
        requires
            old(self).wf(),
        ensures
            final(self).wf(),
            final(self)@ == old(self)@.set_running(run),
    {
        self.run = run;
        assert(self@ =~= old(self)@.set_running(run));
    }

    /// Whether the host runs the machine freely.
    pub fn is_running(&self) -> (run: bool)
        ensures
            run == self@.run,
    {
        self.run
    }

    /// A snapshot of the registers.
    pub fn registers(&self) -> (r: Registers)
        ensures
            r.v@ == self@.v,
            r.i == self@.i,
            r.dt == self@.dt,
            r.st == self@.st,
            r.pc == self@.pc,
            r.sp == self@.sp,
            r.stack@ == self@.stack,
    {
        self.reg
    }

    /// A snapshot of the stack.
    pub fn stack(&self) -> (s: [u16; 16])
        ensures
            s@ == self@.stack,
    {
        self.reg.stack
    }

    /// The display.
    pub fn display(&self) -> (d: &Display)
        ensures
            d@ == self@.display,
    {
        &self.dis
    }

    /// The memory.
    pub fn memory(&self) -> (m: &Memory)
        ensures
            m@ == self@.mem,
    {
        &self.mem
    }

    /// The keypad.
    pub fn keypad(&self) -> (k: &Keypad)
        ensures
            k@ == self@.keys,
    {
        &self.keys
    }

    /// The text that shows the display on a terminal: the sequence that
    /// clears the terminal and homes the cursor, then the rows, top to
    /// bottom.
    pub fn blit(&self) -> (out: Vec<char>)
        ensures
            out@ == crate::display::text(self@.display),
    {
        self.dis.blit()
    }
}

/// The instructions, one function each.
impl Chip8 {
    /// `0nnn`, a call into machine code: ignored. The program counter stays.
    pub fn sys_addr(&mut self)
        requires
            old(self).wf(),
        ensures
            final(self).wf(),
            final(self)@ == old(self)@.sys_addr(),
    {
    }

    /// `00E0`: clears the display.
    pub fn cls(&mut self)
        requires
            old(self).wf(),
        ensures
            final(self).wf(),
            final(self)@ == old(self)@.cls(),
    {
        self.dis.clear();
        self.reg.pc = self.reg.pc.wrapping_add(2);
        assert(self@ =~= old(self)@.cls());
    }

    /// `00EE`: returns to the address on top of the stack. With no call
    /// outstanding it is refused.
    pub fn ret(&mut self) -> (res: Result<(), ExecError>)
        requires
            old(self).wf(),
        ensures
            final(self).wf(),
            match res {
                Ok(()) => old(self)@.sp > 0 && final(self)@ == old(self)@.ret(),
                Err(e) => {
                    &&& old(self)@.sp == 0
                    &&& e == ExecError::StackUnderflow
                    &&& final(self)@ == old(self)@
                },
            },
    {
        if self.reg.sp == 0 {
            return Err(ExecError::StackUnderflow);
        }
        self.reg.pc = self.reg.stack[self.reg.sp as usize];
        self.reg.sp -= 1;
        assert(self@ =~= old(self)@.ret());
        Ok(())
    }

    /// `1nnn`: jumps to `nnn`.
    pub fn jp_addr(&mut self, nnn: u16)
        requires
            old(self).wf(),
        ensures
            final(self).wf(),
            final(self)@ == old(self)@.jp_addr(nnn),
    {
        self.reg.pc = nnn;
        assert(self@ =~= old(self)@.jp_addr(nnn));
    }

    /// `2nnn`: pushes the address of the next instruction and jumps to
    /// `nnn`. With level 15 of the stack in use it is refused.
    pub fn call_addr(&mut self, nnn: u16) -> (res: Result<(), ExecError>)
        requires
            old(self).wf(),
        ensures
            final(self).wf(),
            match res {
                Ok(()) => old(self)@.sp < 15 && final(self)@ == old(self)@.call_addr(nnn),
                Err(e) => {
                    &&& old(self)@.sp == 15
                    &&& e == ExecError::StackOverflow
                    &&& final(self)@ == old(self)@
                },
            },
    {
        if self.reg.sp >= 15 {
            return Err(ExecError::StackOverflow);
        }
        self.reg.sp += 1;
        self.reg.stack[self.reg.sp as usize] = self.reg.pc.wrapping_add(2);
        self.reg.pc = nnn;
        assert(self@ =~= old(self)@.call_addr(nnn));
        Ok(())
    }

    /// `3xkk`: skips the next instruction if `Vx == kk`.
    pub fn se_vx_byte(&mut self, x: u8, kk: u8)
        requires
            old(self).wf(),
            x < 16,
        ensures
            final(self).wf(),
            final(self)@ == old(self)@.se_vx_byte(x, kk),
    {
        if self.reg.v[x as usize] == kk {
            self.reg.pc = self.reg.pc.wrapping_add(2);
        }
        self.reg.pc = self.reg.pc.wrapping_add(2);
        assert(self@ =~= old(self)@.se_vx_byte(x, kk));
    }

    /// `4xkk`: skips the next instruction if `Vx != kk`.
    pub fn sne_vx_byte(&mut self, x: u8, kk: u8)
        requires
            old(self).wf(),
            x < 16,
        ensures
            final(self).wf(),
            final(self)@ == old(self)@.sne_vx_byte(x, kk),
    {
        if self.reg.v[x as usize] != kk {
            self.reg.pc = self.reg.pc.wrapping_add(2);
        }
        self.reg.pc = self.reg.pc.wrapping_add(2);
        assert(self@ =~= old(self)@.sne_vx_byte(x, kk));
    }

    /// `5xy0`: skips the next instruction if `Vx == Vy`.
    pub fn se_vx_vy(&mut self, x: u8, y: u8)
        requires
            old(self).wf(),
            x < 16,
            y < 16,
        ensures
            final(self).wf(),
            final(self)@ == old(self)@.se_vx_vy(x, y),
    {
        if self.reg.v[x as usize] == self.reg.v[y as usize] {
            self.reg.pc = self.reg.pc.wrapping_add(2);
        }
        self.reg.pc = self.reg.pc.wrapping_add(2);
        assert(self@ =~= old(self)@.se_vx_vy(x, y));
    }

    /// `6xkk`: `Vx = kk`.
    pub fn ld_vx_byte(&mut self, x: u8, kk: u8)
        requires
            old(self).wf(),
            x < 16,
        ensures
            final(self).wf(),
            final(self)@ == old(self)@.ld_vx_byte(x, kk),
    {
        self.reg.v[x as usize] = kk;
        self.reg.pc = self.reg.pc.wrapping_add(2);
        assert(self@ =~= old(self)@.ld_vx_byte(x, kk));
    }

    /// `7xkk`: `Vx = Vx + kk` modulo 256. No flag is set.
    pub fn add_vx_byte(&mut self, x: u8, kk: u8)
        requires
            old(self).wf(),
            x < 16,
        ensures
            final(self).wf(),
            final(self)@ == old(self)@.add_vx_byte(x, kk),
    {
        self.reg.v[x as usize] = self.reg.v[x as usize].wrapping_add(kk);
        self.reg.pc = self.reg.pc.wrapping_add(2);
        assert(self@ =~= old(self)@.add_vx_byte(x, kk));
    }

    /// `8xy0`: `Vx = Vy`.
    pub fn ld_vx_vy(&mut self, x: u8, y: u8)
        requires
            old(self).wf(),
            x < 16,
            y < 16,
        ensures
            final(self).wf(),
            final(self)@ == old(self)@.ld_vx_vy(x, y),
    {
        self.reg.v[x as usize] = self.reg.v[y as usize];
        self.reg.pc = self.reg.pc.wrapping_add(2);
        assert(self@ =~= old(self)@.ld_vx_vy(x, y));
    }

    /// `8xy1`: `Vx = Vx | Vy`. No flag is set.
    pub fn or_vx_vy(&mut self, x: u8, y: u8)
        requires
            old(self).wf(),
            x < 16,
            y < 16,
        ensures
            final(self).wf(),
            final(self)@ == old(self)@.or_vx_vy(x, y),
    {
        self.reg.v[x as usize] = self.reg.v[x as usize] | self.reg.v[y as usize];
        self.reg.pc = self.reg.pc.wrapping_add(2);
        assert(self@ =~= old(self)@.or_vx_vy(x, y));
    }

    /// `8xy2`: `Vx = Vx & Vy`. No flag is set.
    pub fn and_vx_vy(&mut self, x: u8, y: u8)
        requires
            old(self).wf(),
            x < 16,
            y < 16,
        ensures
            final(self).wf(),
            final(self)@ == old(self)@.and_vx_vy(x, y),
    {
        self.reg.v[x as usize] = self.reg.v[x as usize] & self.reg.v[y as usize];
        self.reg.pc = self.reg.pc.wrapping_add(2);
        assert(self@ =~= old(self)@.and_vx_vy(x, y));
    }

    /// `8xy3`: `Vx = Vx ^ Vy`. No flag is set.
    pub fn xor_vx_vy(&mut self, x: u8, y: u8)
        requires
            old(self).wf(),
            x < 16,
            y < 16,
        ensures
            final(self).wf(),
            final(self)@ == old(self)@.xor_vx_vy(x, y),
    {
        self.reg.v[x as usize] = self.reg.v[x as usize] ^ self.reg.v[y as usize];
        self.reg.pc = self.reg.pc.wrapping_add(2);
        assert(self@ =~= old(self)@.xor_vx_vy(x, y));
    }

    /// `8xy4`: `Vx = Vx + Vy` modulo 256; then `VF` is 1 if the sum passed
    /// 255 and 0 if not.
    pub fn add_vx_vy(&mut self, x: u8, y: u8)
        requires
            old(self).wf(),
            x < 16,
            y < 16,
        ensures
            final(self).wf(),
            final(self)@ == old(self)@.add_vx_vy(x, y),
    {
        let vx: u8 = self.reg.v[x as usize];
        let vy: u8 = self.reg.v[y as usize];
        self.reg.v[x as usize] = vx.wrapping_add(vy);
        self.reg.v[0xF] = if vy > 255 - vx {
            1
        } else {
            0
        };
        self.reg.pc = self.reg.pc.wrapping_add(2);
        assert(self@ =~= old(self)@.add_vx_vy(x, y));
    }

    /// `8xy5`: `Vx = Vx - Vy` modulo 256; then `VF` is 1 if nothing was
    /// borrowed, that is if `Vx >= Vy` before, and 0 if not.
    pub fn sub_vx_vy(&mut self, x: u8, y: u8)
        requires
            old(self).wf(),
            x < 16,
            y < 16,
        ensures
            final(self).wf(),
            final(self)@ == old(self)@.sub_vx_vy(x, y),
    {
        let vx: u8 = self.reg.v[x as usize];
        let vy: u8 = self.reg.v[y as usize];
        self.reg.v[x as usize] = vx.wrapping_sub(vy);
        self.reg.v[0xF] = if vx >= vy {
            1
        } else {
            0
        };
        self.reg.pc = self.reg.pc.wrapping_add(2);
        assert(self@ =~= old(self)@.sub_vx_vy(x, y));
    }

    /// `8xy6`: `Vx` is halved; then `VF` is the bit that fell off.
    pub fn shr_vx(&mut self, x: u8)
        requires
            old(self).wf(),
            x < 16,
        ensures
            final(self).wf(),
            final(self)@ == old(self)@.shr_vx(x),
    {
        let vx: u8 = self.reg.v[x as usize];
        let low: bool = vx & 1 == 1;
        assert((vx & 1 == 1) == (vx % 2 == 1)) by (bit_vector);
        self.reg.v[x as usize] = vx / 2;
        self.reg.v[0xF] = if low {
            1
        } else {
            0
        };
        self.reg.pc = self.reg.pc.wrapping_add(2);
        assert(self@ =~= old(self)@.shr_vx(x));
    }

    /// `8xy7`: `Vx = Vy - Vx` modulo 256; then `VF` is 1 if `Vy > Vx`
    /// before and 0 if not.
    pub fn subn_vx_vy(&mut self, x: u8, y: u8)
        requires
            old(self).wf(),
            x < 16,
            y < 16,
        ensures
            final(self).wf(),
            final(self)@ == old(self)@.subn_vx_vy(x, y),
    {
        let vx: u8 = self.reg.v[x as usize];
        let vy: u8 = self.reg.v[y as usize];
        self.reg.v[x as usize] = vy.wrapping_sub(vx);
        self.reg.v[0xF] = if vy > vx {
            1
        } else {
            0
        };
        self.reg.pc = self.reg.pc.wrapping_add(2);
        assert(self@ =~= old(self)@.subn_vx_vy(x, y));
    }

    /// `8xyE`: `Vx` is doubled modulo 256; then `VF` is the bit that fell
    /// off.
    pub fn shl_vx(&mut self, x: u8)
        requires
            old(self).wf(),
            x < 16,
        ensures
            final(self).wf(),
            final(self)@ == old(self)@.shl_vx(x),
    {
        let vx: u8 = self.reg.v[x as usize];
        self.reg.v[x as usize] = vx.wrapping_mul(2);
        self.reg.v[0xF] = if vx >= 128 {
            1
        } else {
            0
        };
        self.reg.pc = self.reg.pc.wrapping_add(2);
        assert(self@ =~= old(self)@.shl_vx(x));
    }

    /// `9xy0`: skips the next instruction if `Vx != Vy`.
    pub fn sne_vx_vy(&mut self, x: u8, y: u8)
        requires
            old(self).wf(),
            x < 16,
            y < 16,
        ensures
            final(self).wf(),
            final(self)@ == old(self)@.sne_vx_vy(x, y),
    {
        if self.reg.v[x as usize] != self.reg.v[y as usize] {
            self.reg.pc = self.reg.pc.wrapping_add(2);
        }
        self.reg.pc = self.reg.pc.wrapping_add(2);
        assert(self@ =~= old(self)@.sne_vx_vy(x, y));
    }

    /// `Annn`: `I = nnn`.
    pub fn ld_i_addr(&mut self, nnn: u16)
        requires
            old(self).wf(),
        ensures
            final(self).wf(),
            final(self)@ == old(self)@.ld_i_addr(nnn),
    {
        self.reg.i = nnn;
        self.reg.pc = self.reg.pc.wrapping_add(2);
        assert(self@ =~= old(self)@.ld_i_addr(nnn));
    }

    /// `Bnnn`: jumps to `nnn + V0`.
    pub fn jp_v0_addr(&mut self, nnn: u16)
        requires
            old(self).wf(),
        ensures
            final(self).wf(),
            final(self)@ == old(self)@.jp_v0_addr(nnn),
    {
        self.reg.pc = nnn.wrapping_add(self.reg.v[0] as u16);
        assert(self@ =~= old(self)@.jp_v0_addr(nnn));
    }

    /// `Cxkk`: `Vx` = a random byte masked by `kk`.
    pub fn rnd_vx_byte(&mut self, x: u8, kk: u8)
        requires
            old(self).wf(),
            x < 16,
        ensures
            final(self).wf(),
            exists|random: u8| final(self)@ == old(self)@.rnd_vx_byte(x, kk, random),
    {
        let random = random_byte();
        self.rnd_vx_byte_with(x, kk, random);
    }

    /// `Cxkk` with the random byte given: `Vx = random & kk`.
    pub fn rnd_vx_byte_with(&mut self, x: u8, kk: u8, random: u8)
        requires
            old(self).wf(),
            x < 16,
        ensures
            final(self).wf(),
            final(self)@ == old(self)@.rnd_vx_byte(x, kk, random),
    {
        self.reg.v[x as usize] = random & kk;
        self.reg.pc = self.reg.pc.wrapping_add(2);
        assert(self@ =~= old(self)@.rnd_vx_byte(x, kk, random));
    }

    /// `Ex9E`: skips the next instruction if the key that `Vx` names is
    /// down.
    pub fn skp_vx(&mut self, x: u8)
        requires
            old(self).wf(),
            x < 16,
        ensures
            final(self).wf(),
            final(self)@ == old(self)@.skp_vx(x),
    {
        let key: u8 = self.reg.v[x as usize];
        if self.keys.is_down(key) {
            self.reg.pc = self.reg.pc.wrapping_add(2);
        }
        self.reg.pc = self.reg.pc.wrapping_add(2);
        assert(self@ =~= old(self)@.skp_vx(x));
    }

    /// `ExA1`: skips the next instruction if the key that `Vx` names is
    /// not down.
    pub fn sknp_vx(&mut self, x: u8)
        requires
            old(self).wf(),
            x < 16,
        ensures
            final(self).wf(),
            final(self)@ == old(self)@.sknp_vx(x),
    {
        let key: u8 = self.reg.v[x as usize];
        if !self.keys.is_down(key) {
            self.reg.pc = self.reg.pc.wrapping_add(2);
        }
        self.reg.pc = self.reg.pc.wrapping_add(2);
        assert(self@ =~= old(self)@.sknp_vx(x));
    }

    /// `Fx07`: `Vx = DT`.
    pub fn ld_vx_dt(&mut self, x: u8)
        requires
            old(self).wf(),
            x < 16,
        ensures
            final(self).wf(),
            final(self)@ == old(self)@.ld_vx_dt(x),
    {
        self.reg.v[x as usize] = self.reg.dt;
        self.reg.pc = self.reg.pc.wrapping_add(2);
        assert(self@ =~= old(self)@.ld_vx_dt(x));
    }

    /// `Fx0A`: waits for a key. While no key is down nothing changes, so
    /// the next step meets this instruction again; once one is, `Vx` is the
    /// lowest key that is down and the program goes on.
    pub fn ld_vx_k(&mut self, x: u8)
        requires
            old(self).wf(),
            x < 16,
        ensures
            final(self).wf(),
            final(self)@ == old(self)@.ld_vx_k(x),
    {
        match self.keys.first_down() {
            Some(key) => {
                self.reg.v[x as usize] = key;
                self.reg.pc = self.reg.pc.wrapping_add(2);
            },
            None => {},
        }
        assert(self@ =~= old(self)@.ld_vx_k(x));
    }

    /// `Fx15`: `DT = Vx`.
    pub fn ld_dt_vx(&mut self, x: u8)
        requires
            old(self).wf(),
            x < 16,
        ensures
            final(self).wf(),
            final(self)@ == old(self)@.ld_dt_vx(x),
    {
        self.reg.dt = self.reg.v[x as usize];
        self.reg.pc = self.reg.pc.wrapping_add(2);
        assert(self@ =~= old(self)@.ld_dt_vx(x));
    }

    /// `Fx18`: `ST = Vx`.
    pub fn ld_st_vx(&mut self, x: u8)
        requires
            old(self).wf(),
            x < 16,
        ensures
            final(self).wf(),
            final(self)@ == old(self)@.ld_st_vx(x),
    {
        self.reg.st = self.reg.v[x as usize];
        self.reg.pc = self.reg.pc.wrapping_add(2);
        assert(self@ =~= old(self)@.ld_st_vx(x));
    }

    /// `Fx1E`: `I = I + Vx` modulo 65536.
    pub fn add_i_vx(&mut self, x: u8)
        requires
            old(self).wf(),
            x < 16,
        ensures
            final(self).wf(),
            final(self)@ == old(self)@.add_i_vx(x),
    {
        self.reg.i = self.reg.i.wrapping_add(self.reg.v[x as usize] as u16);
        self.reg.pc = self.reg.pc.wrapping_add(2);
        assert(self@ =~= old(self)@.add_i_vx(x));
    }

    /// `Fx29`: `I` = the address of the glyph for `Vx`, five times `Vx`
    /// modulo 256.
    pub fn ld_f_vx(&mut self, x: u8)
        requires
            old(self).wf(),
            x < 16,
        ensures
            final(self).wf(),
            final(self)@ == old(self)@.ld_f_vx(x),
    {
        let vx: u8 = self.reg.v[x as usize];
        self.reg.i = vx.wrapping_mul(5) as u16;
        self.reg.pc = self.reg.pc.wrapping_add(2);
        assert(self@ =~= old(self)@.ld_f_vx(x));
    }

    /// `Fx33`: stores the hundreds, tens and ones of `Vx` at `I`, `I + 1`
    /// and `I + 2`.
    pub fn ld_b_vx(&mut self, x: u8)
        requires
            old(self).wf(),
            x < 16,
            old(self)@.i + 2 < 4096,
        ensures
            final(self).wf(),
            final(self)@ == old(self)@.ld_b_vx(x),
    {
        let mut val: u8 = self.reg.v[x as usize];
        let ones: u8 = val % 10;
        val /= 10;
        let tens: u8 = val % 10;
        val /= 10;
        let huns: u8 = val % 10;
        let at: usize = self.reg.i as usize;
        self.mem.write(at, huns);
        self.mem.write(at + 1, tens);
        self.mem.write(at + 2, ones);
        self.reg.pc = self.reg.pc.wrapping_add(2);
        assert(self@ =~= old(self)@.ld_b_vx(x));
    }

    /// `Fx55`: stores `V0` to `Vx`, `Vx` included, at `I` onwards.
    pub fn ld_i_vx(&mut self, x: u8)
        requires
            old(self).wf(),
            x < 16,
            old(self)@.i + x < 4096,
        ensures
            final(self).wf(),
            final(self)@ == old(self)@.ld_i_vx(x),
    {
        let at: usize = self.reg.i as usize;
        let mut k: usize = 0;
        while k <= x as usize
            invariant
                k <= x + 1,
                x < 16,
                at + x < 4096,
                at == old(self)@.i,
                self.wf(),
                self@ == (Machine {
                    mem: crate::memory::overlay(
                        old(self)@.mem,
                        old(self)@.v.take(k as int),
                        at as int,
                    ),
                    ..old(self)@
                }),
            decreases x + 1 - k,
        {
            self.mem.write(at + k, self.reg.v[k]);
            assert(self@.mem =~= crate::memory::overlay(
                old(self)@.mem,
                old(self)@.v.take(k + 1),
                at as int,
            ));
            k += 1;
        }
        self.reg.pc = self.reg.pc.wrapping_add(2);
        assert(self@ =~= old(self)@.ld_i_vx(x));
    }

    /// `Fx65`: loads `V0` to `Vx`, `Vx` included, from `I` onwards.
    pub fn ld_vx_i(&mut self, x: u8)
        requires
            old(self).wf(),
            x < 16,
            old(self)@.i + x < 4096,
        ensures
            final(self).wf(),
            final(self)@ == old(self)@.ld_vx_i(x),
    {
        let at: usize = self.reg.i as usize;
        let mut k: usize = 0;
        while k <= x as usize
            invariant
                k <= x + 1,
                x < 16,
                at + x < 4096,
                at == old(self)@.i,
                self.wf(),
                self@ == (Machine {
                    v: crate::memory::overlay(old(self)@.v, old(self)@.bytes_at_i(k as int), 0),
                    ..old(self)@
                }),
            decreases x + 1 - k,
        {
            self.reg.v[k] = self.mem.read(at + k);
            assert(self@.v =~= crate::memory::overlay(
                old(self)@.v,
                old(self)@.bytes_at_i(k + 1),
                0,
            ));
            k += 1;
        }
        self.reg.pc = self.reg.pc.wrapping_add(2);
        assert(self@ =~= old(self)@.ld_vx_i(x));
    }
}

/// Drawing, and the fetch-decode-execute cycle.
impl Chip8 {
    /// Whether the sprite of `Dxyn` lies on the display.
    pub fn sprite_fits(&self, x: u8, y: u8, n: u8) -> (fits: bool)
        requires
            self.wf(),
            x < 16,
            y < 16,
        ensures
            fits == self@.sprite_fits(x, y, n),
    {
        let x0: usize = (self.reg.v[x as usize] % 64) as usize;
        let y0: usize = (self.reg.v[y as usize] % 32) as usize;
        n == 0 || (x0 + 8 <= 64 && y0 + n as usize <= 32)
    }

    /// `Dxyn`: draws the sprite of `n` rows that lies at `I`, with its top
    /// left corner at column `Vx mod 64` and row `Vy mod 32`. Each pixel
    /// under a set bit of the sprite flips; then `VF` is 1 if a lit pixel
    /// went dark and 0 if none did. A sprite that reaches past the right or
    /// bottom edge is refused, and nothing changes.
    pub fn drw_vx_vy_n(&mut self, x: u8, y: u8, n: u8) -> (res: Result<(), ExecError>)
        requires
            old(self).wf(),
            x < 16,
            y < 16,
            old(self)@.sprite_fits(x, y, n) && n > 0 ==> old(self)@.i + n <= 4096,
        ensures
            final(self).wf(),
            match res {
                Ok(()) => {
                    &&& old(self)@.sprite_fits(x, y, n)
                    &&& final(self)@ == old(self)@.drw_vx_vy_n(x, y, n)
                },
                Err(e) => {
                    &&& !old(self)@.sprite_fits(x, y, n)
                    &&& e == ExecError::DisplayOutOfBounds
                    &&& final(self)@ == old(self)@
                },
            },
    {
        if !self.sprite_fits(x, y, n) {
            return Err(ExecError::DisplayOutOfBounds);
        }
        let x_coord: usize = (self.reg.v[x as usize] % 64) as usize;
        let y_coord: usize = (self.reg.v[y as usize] % 32) as usize;
        let mut erased: bool = false;
        if n > 0 {
            let sprite = self.mem.slice(self.reg.i as usize, n as usize);
            assert(sprite@ =~= old(self)@.sprite(n));
            erased = self.dis.draw(x_coord, y_coord, sprite);
        } else {
            assert(old(self)@.sprite(n) =~= Seq::<u8>::empty());
            assert(self@.display =~= crate::display::drawn(
                self@.display,
                x_coord as int,
                y_coord as int,
                Seq::<u8>::empty(),
            ));
        }
        self.reg.v[0xF] = if erased {
            1
        } else {
            0
        };
        self.reg.pc = self.reg.pc.wrapping_add(2);
        assert(self@ =~= old(self)@.drw_vx_vy_n(x, y, n));
        Ok(())
    }

    /// The instruction word at the program counter.
    pub fn fetch(&self) -> (word: u16)
        requires
            self.wf(),
            self@.pc + 1 < 4096,
        ensures
            word == self@.fetch(),
    {
        let at: usize = self.reg.pc as usize;
        let upper: u8 = self.mem.read(at);
        let lower: u8 = self.mem.read(at + 1);
        assert(((upper as u16) << 8) | (lower as u16) == upper * 256 + lower) by (bit_vector);
        ((upper as u16) << 8) | (lower as u16)
    }

    /// Whether `ins`, if it is not refused, stays within memory.
    pub fn in_bounds(&self, ins: Instruction) -> (ok: bool)
        requires
            self.wf(),
            ins.wf(),
        ensures
            ok == self@.in_bounds(ins),
    {
        let i: usize = self.reg.i as usize;
        match ins {
            Instruction::Drw { x, y, n } => !(self.sprite_fits(x, y, n) && n > 0) || i + n as usize
                <= 4096,
            Instruction::LdB { x } => i + 2 < 4096,
            Instruction::LdIVx { x } => i + (x as usize) < 4096,
            Instruction::LdVxI { x } => i + (x as usize) < 4096,
            _ => true,
        }
    }

    /// Whether a step stays within memory. Where it does not, `step` must
    /// not be called.
    pub fn can_step(&self) -> (ok: bool)
        requires
            self.wf(),
        ensures
            ok == self@.can_step(),
    {
        if self.reg.pc as usize + 1 >= 4096 {
            return false;
        }
        let word = self.fetch();
        proof {
            lemma_decode_wf(word);
        }
        match decode(word) {
            Some(ins) => self.in_bounds(ins),
            None => true,
        }
    }

    /// Executes `ins`, with `random` as the byte that `Cxkk` draws.
    pub fn execute(&mut self, ins: Instruction, random: u8) -> (res: Result<(), ExecError>)
        requires
            old(self).wf(),
            ins.wf(),
            old(self)@.in_bounds(ins),
        ensures
            final(self).wf(),
            final(self)@ == old(self)@.execute(ins, random),
            match res {
                Ok(()) => old(self)@.fault(ins) is None,
                Err(e) => old(self)@.fault(ins) == Some(e),
            },
    {
        match ins {
            Instruction::Sys => self.sys_addr(),
            Instruction::Cls => self.cls(),
            Instruction::Ret => {
                return self.ret();
            },
            Instruction::Jp { nnn } => self.jp_addr(nnn),
            Instruction::Call { nnn } => {
                return self.call_addr(nnn);
            },
            Instruction::SeByte { x, kk } => self.se_vx_byte(x, kk),
            Instruction::SneByte { x, kk } => self.sne_vx_byte(x, kk),
            Instruction::SeReg { x, y } => self.se_vx_vy(x, y),
            Instruction::LdByte { x, kk } => self.ld_vx_byte(x, kk),
            Instruction::AddByte { x, kk } => self.add_vx_byte(x, kk),
            Instruction::LdReg { x, y } => self.ld_vx_vy(x, y),
            Instruction::Or { x, y } => self.or_vx_vy(x, y),
            Instruction::And { x, y } => self.and_vx_vy(x, y),
            Instruction::Xor { x, y } => self.xor_vx_vy(x, y),
            Instruction::AddReg { x, y } => self.add_vx_vy(x, y),
            Instruction::SubReg { x, y } => self.sub_vx_vy(x, y),
            Instruction::Shr { x } => self.shr_vx(x),
            Instruction::Subn { x, y } => self.subn_vx_vy(x, y),
            Instruction::Shl { x } => self.shl_vx(x),
            Instruction::SneReg { x, y } => self.sne_vx_vy(x, y),
            Instruction::LdI { nnn } => self.ld_i_addr(nnn),
            Instruction::JpV0 { nnn } => self.jp_v0_addr(nnn),
            Instruction::Rnd { x, kk } => self.rnd_vx_byte_with(x, kk, random),
            Instruction::Drw { x, y, n } => {
                return self.drw_vx_vy_n(x, y, n);
            },
            Instruction::Skp { x } => self.skp_vx(x),
            Instruction::Sknp { x } => self.sknp_vx(x),
            Instruction::LdVxDt { x } => self.ld_vx_dt(x),
            Instruction::LdVxK { x } => self.ld_vx_k(x),
            Instruction::LdDtVx { x } => self.ld_dt_vx(x),
            Instruction::LdStVx { x } => self.ld_st_vx(x),
            Instruction::AddI { x } => self.add_i_vx(x),
            Instruction::LdF { x } => self.ld_f_vx(x),
            Instruction::LdB { x } => self.ld_b_vx(x),
            Instruction::LdIVx { x } => self.ld_i_vx(x),
            Instruction::LdVxI { x } => self.ld_vx_i(x),
        }
        Ok(())
    }

    /// One step with `random` as the byte that `Cxkk` draws: fetches the word
    /// at the program counter, decodes it and executes the instruction. A
    /// word that is no instruction, and an instruction that is refused,
    /// change nothing and are reported.
    pub fn step_with(&mut self, random: u8) -> (res: Result<(), ExecError>)
        requires
            old(self).wf(),
            old(self)@.can_step(),
        ensures
            final(self).wf(),
            final(self)@ == old(self)@.step(random),
            match res {
                Ok(()) => old(self)@.step_fault() is None,
                Err(e) => old(self)@.step_fault() == Some(e),
            },
    {
        let word = self.fetch();
        proof {
            lemma_decode_wf(word);
        }
        match decode(word) {
            Some(ins) => self.execute(ins, random),
            None => Err(ExecError::UnknownOpcode),
        }
    }

    /// One step: fetches the word at the program counter, decodes it and
    /// executes the instruction, drawing a random byte where the instruction
    /// is `Cxkk`. A word that is no instruction, and an instruction that is
    /// refused, change nothing and are reported.
    pub fn step(&mut self) -> (res: Result<(), ExecError>)
        requires
            old(self).wf(),
            old(self)@.can_step(),
        ensures
            final(self).wf(),
            exists|random: u8| final(self)@ == old(self)@.step(random),
            !old(self)@.draws_random() ==> forall|random: u8|
                final(self)@ == #[trigger] old(self)@.step(random),
            match res {
                Ok(()) => old(self)@.step_fault() is None,
                Err(e) => old(self)@.step_fault() == Some(e),
            },
    {
        let word = self.fetch();
        proof {
            lemma_decode_wf(word);
        }
        match decode(word) {
            Some(Instruction::Rnd { x, kk }) => {
                let random = random_byte();
                let res = self.execute(Instruction::Rnd { x, kk }, random);
                assert(self@ == old(self)@.step(random));
                res
            },
            Some(ins) => {
                let res = self.execute(ins, 0);
                assert(self@ == old(self)@.step(0));
                res
            },
            None => {
                assert(self@ == old(self)@.step(0));
                Err(ExecError::UnknownOpcode)
            },
        }
    }
}

} // verus!
