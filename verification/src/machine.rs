//! The machine as a mathematical value, and what each instruction does to it.
//!
//! `Machine` is the view of the engine. Every operation of the engine is
//! specified here as a function from machines to machines; the engine's
//! contracts and the laws of the instruction set are stated over these.

use crate::display::{blank, drawn, erased, fits, well_shaped};
use crate::error::ExecError;
use crate::keypad::{first_down, key_down, released};
use crate::memory::{overlay, zeroed};
use crate::opcode::{decode_spec, Instruction};
use vstd::prelude::*;

verus! {

/// `n` reduced to a byte.
pub open spec fn wrap8(n: int) -> u8 {
    (n % 256) as u8
}

/// `n` reduced to a 16-bit word.
pub open spec fn wrap16(n: int) -> u16 {
    (n % 65536) as u16
}

/// The state of the machine.
#[verifier::ext_equal]
pub struct Machine {
    /// The 4096 bytes of memory.
    pub mem: Seq<u8>,
    /// The registers `V0` to `VF`. `VF` is also the flag that arithmetic and
    /// drawing set.
    pub v: Seq<u8>,
    /// The address register.
    pub i: u16,
    /// The program counter.
    pub pc: u16,
    /// The stack pointer: the level of the innermost call, 0 when none is
    /// outstanding.
    pub sp: u8,
    /// The return addresses. Level 0 is never written.
    pub stack: Seq<u16>,
    /// The delay timer.
    pub dt: u8,
    /// The sound timer.
    pub st: u8,
    /// The display, row by row.
    pub display: Seq<Seq<bool>>,
    /// The keys, down or up.
    pub keys: Seq<bool>,
    /// Whether the host runs the machine freely.
    pub run: bool,
    /// The interpreter image that a reset puts back at address 0.
    pub image: Seq<u8>,
}

impl Machine {
    /// The shape that every machine has: the sizes of its parts, a stack
    /// pointer within the stack, an interpreter image within its region.
    pub open spec fn wf(self) -> bool {
        &&& self.mem.len() == 4096
        &&& self.v.len() == 16
        &&& self.stack.len() == 16
        &&& self.sp <= 15
        &&& well_shaped(self.display)
        &&& self.keys.len() == 16
        &&& self.image.len() <= 0x200
    }

    /// The machine as it is switched on with the interpreter image `image`:
    /// the image at address 0 of otherwise zeroed memory, the program
    /// counter at the start of the program area, everything else zero, dark
    /// or up.
    pub open spec fn power_on(image: Seq<u8>) -> Machine {
        Machine {
            mem: overlay(zeroed(), image, 0),
            v: Seq::new(16, |k: int| 0u8),
            i: 0,
            pc: 0x200,
            sp: 0,
            stack: Seq::new(16, |k: int| 0u16),
            dt: 0,
            st: 0,
            display: blank(),
            keys: released(),
            run: false,
            image,
        }
    }

    /// The machine after a reset: as switched on with the same interpreter
    /// image, but for the keys, which are the host's.
    pub open spec fn reset(self) -> Machine {
        Machine { keys: self.keys, ..Machine::power_on(self.image) }
    }

    /// The machine with `image` copied into memory from address `base` on.
    pub open spec fn load_image(self, image: Seq<u8>, base: int) -> Machine {
        Machine { mem: overlay(self.mem, image, base), ..self }
    }

    /// The machine with `image` as its interpreter image, copied to
    /// address 0.
    pub open spec fn load_int(self, image: Seq<u8>) -> Machine {
        Machine { mem: overlay(self.mem, image, 0), image, ..self }
    }

    /// The machine after one tick of the 60 Hz clock: each timer that is not
    /// yet 0 is one lower.
    pub open spec fn tick_timers(self) -> Machine {
        Machine {
            dt: if self.dt > 0 {
                (self.dt - 1) as u8
            } else {
                0
            },
            st: if self.st > 0 {
                (self.st - 1) as u8
            } else {
                0
            },
            ..self
        }
    }

    /// The machine with key `key` down or up.
    pub open spec fn set_key(self, key: u8, down: bool) -> Machine {
        Machine { keys: self.keys.update(key as int, down), ..self }
    }

    /// The machine with the run flag set or cleared.
    pub open spec fn set_running(self, run: bool) -> Machine {
        Machine { run, ..self }
    }

    /// The program counter moved to the next instruction.
    pub open spec fn advance(self) -> Machine {
        Machine { pc: wrap16(self.pc + 2), ..self }
    }

    /// The program counter moved past the next instruction if `skip` holds,
    /// to it otherwise.
    pub open spec fn skip_if(self, skip: bool) -> Machine {
        Machine {
            pc: if skip {
                wrap16(self.pc + 4)
            } else {
                wrap16(self.pc + 2)
            },
            ..self
        }
    }

    /// Register `x` set to `value`.
    pub open spec fn set_v(self, x: u8, value: u8) -> Machine {
        Machine { v: self.v.update(x as int, value), ..self }
    }

    /// `VF` set to 1 if `flag` holds and to 0 otherwise.
    pub open spec fn set_flag(self, flag: bool) -> Machine {
        self.set_v(
            0xF,
            if flag {
                1
            } else {
                0
            },
        )
    }

    /// `0nnn`: nothing happens, and the program counter stays.
    pub open spec fn sys_addr(self) -> Machine {
        self
    }

    /// `00E0`: the display goes dark.
    pub open spec fn cls(self) -> Machine {
        Machine { display: blank(), ..self }.advance()
    }

    /// `00EE`: the program counter is taken from the stack, which loses a
    /// level. Meant for `sp > 0`.
    pub open spec fn ret(self) -> Machine {
        Machine { pc: self.stack[self.sp as int], sp: (self.sp - 1) as u8, ..self }
    }

    /// `1nnn`.
    pub open spec fn jp_addr(self, nnn: u16) -> Machine {
        Machine { pc: nnn, ..self }
    }

    /// `2nnn`: the stack gains a level, which holds the address of the next
    /// instruction. Meant for `sp < 15`.
    pub open spec fn call_addr(self, nnn: u16) -> Machine {
        Machine {
            sp: (self.sp + 1) as u8,
            stack: self.stack.update(self.sp + 1, wrap16(self.pc + 2)),
            pc: nnn,
            ..self
        }
    }

    /// `3xkk`.
    pub open spec fn se_vx_byte(self, x: u8, kk: u8) -> Machine {
        self.skip_if(self.v[x as int] == kk)
    }

    /// `4xkk`.
    pub open spec fn sne_vx_byte(self, x: u8, kk: u8) -> Machine {
        self.skip_if(self.v[x as int] != kk)
    }

    /// `5xy0`.
    pub open spec fn se_vx_vy(self, x: u8, y: u8) -> Machine {
        self.skip_if(self.v[x as int] == self.v[y as int])
    }

    /// `6xkk`.
    pub open spec fn ld_vx_byte(self, x: u8, kk: u8) -> Machine {
        self.set_v(x, kk).advance()
    }

    /// `7xkk`: the sum modulo 256; no flag.
    pub open spec fn add_vx_byte(self, x: u8, kk: u8) -> Machine {
        self.set_v(x, wrap8(self.v[x as int] + kk)).advance()
    }

    /// `8xy0`.
    pub open spec fn ld_vx_vy(self, x: u8, y: u8) -> Machine {
        self.set_v(x, self.v[y as int]).advance()
    }

    /// `8xy1`: no flag.
    pub open spec fn or_vx_vy(self, x: u8, y: u8) -> Machine {
        self.set_v(x, self.v[x as int] | self.v[y as int]).advance()
    }

    /// `8xy2`: no flag.
    pub open spec fn and_vx_vy(self, x: u8, y: u8) -> Machine {
        self.set_v(x, self.v[x as int] & self.v[y as int]).advance()
    }

    /// `8xy3`: no flag.
    pub open spec fn xor_vx_vy(self, x: u8, y: u8) -> Machine {
        self.set_v(x, self.v[x as int] ^ self.v[y as int]).advance()
    }

    /// `8xy4`: the sum modulo 256; `VF` says whether it passed 255.
    pub open spec fn add_vx_vy(self, x: u8, y: u8) -> Machine {
        let sum = self.v[x as int] + self.v[y as int];
        self.set_v(x, wrap8(sum)).set_flag(sum > 255).advance()
    }

    /// `8xy5`: the difference modulo 256; `VF` says that nothing was
    /// borrowed.
    pub open spec fn sub_vx_vy(self, x: u8, y: u8) -> Machine {
        let vx = self.v[x as int];
        let vy = self.v[y as int];
        self.set_v(x, wrap8(vx - vy)).set_flag(vx >= vy).advance()
    }

    /// `8xy6`: `Vx` halved; `VF` is the bit that fell off.
    pub open spec fn shr_vx(self, x: u8) -> Machine {
        let vx = self.v[x as int];
        self.set_v(x, vx / 2).set_flag(vx % 2 == 1).advance()
    }

    /// `8xy7`: `Vy - Vx` modulo 256; `VF` says whether `Vy` was the greater.
    pub open spec fn subn_vx_vy(self, x: u8, y: u8) -> Machine {
        let vx = self.v[x as int];
        let vy = self.v[y as int];
        self.set_v(x, wrap8(vy - vx)).set_flag(vy > vx).advance()
    }

    /// `8xyE`: `Vx` doubled modulo 256; `VF` is the bit that fell off.
    pub open spec fn shl_vx(self, x: u8) -> Machine {
        let vx = self.v[x as int];
        self.set_v(x, wrap8(2 * vx)).set_flag(vx >= 128).advance()
    }

    /// `9xy0`.
    pub open spec fn sne_vx_vy(self, x: u8, y: u8) -> Machine {
        self.skip_if(self.v[x as int] != self.v[y as int])
    }

    /// `Annn`.
    pub open spec fn ld_i_addr(self, nnn: u16) -> Machine {
        Machine { i: nnn, ..self }.advance()
    }

    /// `Bnnn`.
    pub open spec fn jp_v0_addr(self, nnn: u16) -> Machine {
        Machine { pc: wrap16(nnn + self.v[0]), ..self }
    }

    /// `Cxkk`, where `random` is the byte that was drawn.
    pub open spec fn rnd_vx_byte(self, x: u8, kk: u8, random: u8) -> Machine {
        self.set_v(x, random & kk).advance()
    }

    /// The column at which `Dxyn` puts the left edge of the sprite.
    pub open spec fn sprite_x(self, x: u8) -> int {
        self.v[x as int] as int % 64
    }

    /// The row at which `Dxyn` puts the top edge of the sprite.
    pub open spec fn sprite_y(self, y: u8) -> int {
        self.v[y as int] as int % 32
    }

    /// The `len` bytes of memory from `I` on.
    pub open spec fn bytes_at_i(self, len: int) -> Seq<u8> {
        Seq::new(len as nat, |k: int| self.mem[self.i + k])
    }

    /// The `n` bytes at `I`: the sprite that `Dxyn` draws, a byte per row.
    pub open spec fn sprite(self, n: u8) -> Seq<u8> {
        self.bytes_at_i(n as int)
    }

    /// Whether the sprite of `Dxyn` lies on the display.
    pub open spec fn sprite_fits(self, x: u8, y: u8, n: u8) -> bool {
        fits(self.sprite_x(x), self.sprite_y(y), n as int)
    }

    /// `Dxyn`: the sprite is drawn at `(Vx mod 64, Vy mod 32)`; `VF` says
    /// whether a lit pixel went dark. Meant for a sprite that fits.
    pub open spec fn drw_vx_vy_n(self, x: u8, y: u8, n: u8) -> Machine {
        let x0 = self.sprite_x(x);
        let y0 = self.sprite_y(y);
        Machine { display: drawn(self.display, x0, y0, self.sprite(n)), ..self }.set_flag(
            erased(self.display, x0, y0, self.sprite(n)),
        ).advance()
    }

    /// `Ex9E`.
    pub open spec fn skp_vx(self, x: u8) -> Machine {
        self.skip_if(key_down(self.keys, self.v[x as int]))
    }

    /// `ExA1`.
    pub open spec fn sknp_vx(self, x: u8) -> Machine {
        self.skip_if(!key_down(self.keys, self.v[x as int]))
    }

    /// `Fx07`.
    pub open spec fn ld_vx_dt(self, x: u8) -> Machine {
        self.set_v(x, self.dt).advance()
    }

    /// `Fx0A`: while no key is down nothing happens, and the program counter
    /// stays; once one is, `Vx` is the lowest key that is down.
    pub open spec fn ld_vx_k(self, x: u8) -> Machine {
        match first_down(self.keys) {
            Some(key) => self.set_v(x, key).advance(),
            None => self,
        }
    }

    /// `Fx15`.
    pub open spec fn ld_dt_vx(self, x: u8) -> Machine {
        Machine { dt: self.v[x as int], ..self }.advance()
    }

    /// `Fx18`.
    pub open spec fn ld_st_vx(self, x: u8) -> Machine {
        Machine { st: self.v[x as int], ..self }.advance()
    }

    /// `Fx1E`: the sum modulo 65536.
    pub open spec fn add_i_vx(self, x: u8) -> Machine {
        Machine { i: wrap16(self.i + self.v[x as int]), ..self }.advance()
    }

    /// `Fx29`: glyphs are five bytes each, from address 0 on. The product is
    /// taken modulo 256.
    pub open spec fn ld_f_vx(self, x: u8) -> Machine {
        Machine { i: wrap8(5 * self.v[x as int]) as u16, ..self }.advance()
    }

    /// `Fx33`: hundreds, tens and ones of `Vx` at `I`, `I + 1` and `I + 2`.
    pub open spec fn ld_b_vx(self, x: u8) -> Machine {
        let vx = self.v[x as int];
        let i = self.i as int;
        Machine {
            mem: self.mem.update(i, vx / 100).update(i + 1, (vx / 10) % 10).update(i + 2, vx % 10),
            ..self
        }.advance()
    }

    /// `Fx55`: `V0` to `Vx`, `Vx` included, at `I` onwards. `I` stays.
    pub open spec fn ld_i_vx(self, x: u8) -> Machine {
        Machine { mem: overlay(self.mem, self.v.take(x + 1), self.i as int), ..self }.advance()
    }

    /// `Fx65`: `V0` to `Vx`, `Vx` included, from `I` onwards. `I` stays.
    pub open spec fn ld_vx_i(self, x: u8) -> Machine {
        Machine { v: overlay(self.v, self.bytes_at_i(x + 1), 0), ..self }.advance()
    }

    /// The error with which `ins` is refused, if it is.
    pub open spec fn fault(self, ins: Instruction) -> Option<ExecError> {
        match ins {
            Instruction::Ret => if self.sp == 0 {
                Some(ExecError::StackUnderflow)
            } else {
                None
            },
            Instruction::Call { nnn } => if self.sp >= 15 {
                Some(ExecError::StackOverflow)
            } else {
                None
            },
            Instruction::Drw { x, y, n } => if self.sprite_fits(x, y, n) {
                None
            } else {
                Some(ExecError::DisplayOutOfBounds)
            },
            _ => None,
        }
    }

    /// Whether `ins`, if it is not refused, stays within memory: the sprite
    /// that it draws, the three digits that it stores or the registers that
    /// it copies lie below address 4096.
    pub open spec fn in_bounds(self, ins: Instruction) -> bool {
        match ins {
            Instruction::Drw { x, y, n } => self.sprite_fits(x, y, n) && n > 0 ==> self.i + n
                <= 4096,
            Instruction::LdB { x } => self.i + 2 < 4096,
            Instruction::LdIVx { x } => self.i + x < 4096,
            Instruction::LdVxI { x } => self.i + x < 4096,
            _ => true,
        }
    }

    /// The machine after `ins`, where `random` is the byte that `Cxkk` draws.
    /// A refused instruction changes nothing.
    pub open spec fn execute(self, ins: Instruction, random: u8) -> Machine {
        if self.fault(ins).is_some() {
            self
        } else {
            match ins {
                Instruction::Sys => self.sys_addr(),
                Instruction::Cls => self.cls(),
                Instruction::Ret => self.ret(),
                Instruction::Jp { nnn } => self.jp_addr(nnn),
                Instruction::Call { nnn } => self.call_addr(nnn),
                Instruction::SeByte { x, kk } => self.se_vx_byte(x, kk),
                Instruction::SneByte { x, kk } => self.sne_vx_byte(x, kk),
                Instruction::SeReg { x, y } => self.se_vx_vy(x, y),
                Instruction::LdByte { x, kk } => self.ld_vx_byte(x, kk),
                Instruction::AddByte { x, kk } => self.add_vx_byte(x, kk),
                Instruction::LdReg { x, y } => self.ld_vx_vy(x, y),
                Instruction::Or { x, y } => self.or_vx_vy(x, y),
                Instruction::And { x, y } => self.and_vx_vy(x, y),
                Instruction::Xor { x, y } => self.xor_vx_vy(x, y),
                Instruction::AddReg { x, y } => self.add_vx_vy(x, y),
                Instruction::SubReg { x, y } => self.sub_vx_vy(x, y),
                Instruction::Shr { x } => self.shr_vx(x),
                Instruction::Subn { x, y } => self.subn_vx_vy(x, y),
                Instruction::Shl { x } => self.shl_vx(x),
                Instruction::SneReg { x, y } => self.sne_vx_vy(x, y),
                Instruction::LdI { nnn } => self.ld_i_addr(nnn),
                Instruction::JpV0 { nnn } => self.jp_v0_addr(nnn),
                Instruction::Rnd { x, kk } => self.rnd_vx_byte(x, kk, random),
                Instruction::Drw { x, y, n } => self.drw_vx_vy_n(x, y, n),
                Instruction::Skp { x } => self.skp_vx(x),
                Instruction::Sknp { x } => self.sknp_vx(x),
                Instruction::LdVxDt { x } => self.ld_vx_dt(x),
                Instruction::LdVxK { x } => self.ld_vx_k(x),
                Instruction::LdDtVx { x } => self.ld_dt_vx(x),
                Instruction::LdStVx { x } => self.ld_st_vx(x),
                Instruction::AddI { x } => self.add_i_vx(x),
                Instruction::LdF { x } => self.ld_f_vx(x),
                Instruction::LdB { x } => self.ld_b_vx(x),
                Instruction::LdIVx { x } => self.ld_i_vx(x),
                Instruction::LdVxI { x } => self.ld_vx_i(x),
            }
        }
    }

    /// The word at the program counter: two bytes, the high one first.
    pub open spec fn fetch(self) -> u16 {
        (self.mem[self.pc as int] * 256 + self.mem[self.pc + 1]) as u16
    }

    /// Whether a step stays within memory: the fetch does, and so does the
    /// instruction fetched.
    pub open spec fn can_step(self) -> bool {
        &&& self.pc + 1 < 4096
        &&& match decode_spec(self.fetch()) {
            Some(ins) => self.in_bounds(ins),
            None => true,
        }
    }

    /// Whether the word at the program counter is a `Cxkk`: the one
    /// instruction whose effect depends on chance.
    pub open spec fn draws_random(self) -> bool {
        decode_spec(self.fetch()) matches Some(Instruction::Rnd { .. })
    }

    /// What a step reports: the error with which the word at the program
    /// counter is refused, if it is.
    pub open spec fn step_fault(self) -> Option<ExecError> {
        match decode_spec(self.fetch()) {
            Some(ins) => self.fault(ins),
            None => Some(ExecError::UnknownOpcode),
        }
    }

    /// The machine after one step, where `random` is the byte that `Cxkk`
    /// draws. A word that is refused changes nothing.
    pub open spec fn step(self, random: u8) -> Machine {
        match decode_spec(self.fetch()) {
            Some(ins) => self.execute(ins, random),
            None => self,
        }
    }
}

} // verus!
