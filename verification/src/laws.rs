//! Laws of the instruction set, proved of the machine that the engine's
//! contracts speak of.

use crate::display::sprite_bit;
use crate::keypad::lemma_first_down;
use crate::machine::{wrap16, wrap8, Machine};
use crate::opcode::Instruction;
use vstd::prelude::*;

verus! {

/// `7xkk` leaves in `Vx` the sum modulo 256 and changes no other register:
/// unless `Vx` is `VF` itself, `VF` is as it was.
pub proof fn law_add_byte_wraps(m: Machine, x: u8, kk: u8)
    requires
        m.wf(),
        x < 16,
    ensures
        m.add_vx_byte(x, kk).v[x as int] == (m.v[x as int] + kk) % 256,
        forall|r: int| 0 <= r < 16 && r != x ==> m.add_vx_byte(x, kk).v[r] == m.v[r],
        x != 0xF ==> m.add_vx_byte(x, kk).v[0xF] == m.v[0xF],
{
}

/// `7xkk` is associative with wraparound: to add `a` and then `b` is to add
/// their sum modulo 256.
pub proof fn law_add_byte_associative(m: Machine, x: u8, a: u8, b: u8)
    requires
        m.wf(),
        x < 16,
    ensures
        m.add_vx_byte(x, a).add_vx_byte(x, b).v == m.add_vx_byte(x, wrap8(a + b)).v,
{
    let v = m.v[x as int];
    lemma_wrap8_sum(v as int, a as int, b as int);
    assert(m.add_vx_byte(x, a).add_vx_byte(x, b).v =~= m.add_vx_byte(x, wrap8(a + b)).v);
}

/// Reducing a sum of three bytes modulo 256 gives the same whichever two are
/// added first.
proof fn lemma_wrap8_sum(v: int, a: int, b: int)
    requires
        0 <= v < 256,
        0 <= a < 256,
        0 <= b < 256,
    ensures
        wrap8(wrap8(v + a) + b) == wrap8(v + wrap8(a + b)),
{
    let left = if v + a < 256 {
        v + a
    } else {
        v + a - 256
    };
    let right = if a + b < 256 {
        a + b
    } else {
        a + b - 256
    };
    assert((v + a) % 256 == left);
    assert((a + b) % 256 == right);
    let total = if v + a + b < 256 {
        v + a + b
    } else if v + a + b < 512 {
        v + a + b - 256
    } else {
        v + a + b - 512
    };
    assert((left + b) % 256 == total);
    assert((v + right) % 256 == total);
}

/// `8xy4` leaves in `VF` exactly 1 when the sum passes 255 and exactly 0
/// when it does not, whichever registers it names; in `Vx`, unless that is
/// `VF`, it leaves the sum modulo 256.
pub proof fn law_add_reg_carry(m: Machine, x: u8, y: u8)
    requires
        m.wf(),
        x < 16,
        y < 16,
    ensures
        m.v[x as int] + m.v[y as int] >= 256 ==> m.add_vx_vy(x, y).v[0xF] == 1,
        m.v[x as int] + m.v[y as int] < 256 ==> m.add_vx_vy(x, y).v[0xF] == 0,
        x != 0xF ==> m.add_vx_vy(x, y).v[x as int] == (m.v[x as int] + m.v[y as int]) % 256,
{
}

/// `8xy5` leaves in `VF` 1 if `Vx >= Vy` held before and 0 if not; in `Vx`,
/// unless that is `VF`, it leaves the difference modulo 256.
pub proof fn law_sub_reg_borrow(m: Machine, x: u8, y: u8)
    requires
        m.wf(),
        x < 16,
        y < 16,
    ensures
        m.v[x as int] >= m.v[y as int] ==> m.sub_vx_vy(x, y).v[0xF] == 1,
        m.v[x as int] < m.v[y as int] ==> m.sub_vx_vy(x, y).v[0xF] == 0,
        x != 0xF ==> m.sub_vx_vy(x, y).v[x as int] == (m.v[x as int] - m.v[y as int]) % 256,
{
}

/// `8xy6` leaves in `VF` the lowest bit that `Vx` had before the shift; in
/// `Vx`, unless that is `VF`, it leaves the half.
pub proof fn law_shift_right(m: Machine, x: u8)
    requires
        m.wf(),
        x < 16,
    ensures
        m.shr_vx(x).v[0xF] == m.v[x as int] % 2,
        x != 0xF ==> m.shr_vx(x).v[x as int] == m.v[x as int] / 2,
        x != 0xF ==> m.v[x as int] == 2 * m.shr_vx(x).v[x as int] + m.shr_vx(x).v[0xF],
{
}

/// `8xyE` leaves in `VF` the highest bit that `Vx` had before the shift; in
/// `Vx`, unless that is `VF`, it leaves the double modulo 256.
pub proof fn law_shift_left(m: Machine, x: u8)
    requires
        m.wf(),
        x < 16,
    ensures
        m.shl_vx(x).v[0xF] == m.v[x as int] / 128,
        x != 0xF ==> m.shl_vx(x).v[x as int] == (2 * m.v[x as int]) % 256,
        x != 0xF ==> 2 * m.v[x as int] == 256 * m.shl_vx(x).v[0xF] + m.shl_vx(x).v[x as int],
{
}

/// Round trip: after `Fx55`, an `Fx65` with the same `x` and the same `I`
/// brings `V0` to `Vx` back, `Vx` included, whatever the registers held in
/// between; the registers above `Vx` keep what they held.
pub proof fn law_store_load_round_trip(m: Machine, x: u8, between: Seq<u8>)
    requires
        m.wf(),
        x < 16,
        m.i + x < 4096,
        between.len() == 16,
    ensures
        ({
            let stored = Machine { v: between, ..m.ld_i_vx(x) };
            let loaded = stored.ld_vx_i(x);
            &&& stored.i == m.i
            &&& forall|k: int| 0 <= k <= x ==> loaded.v[k] == m.v[k]
            &&& forall|k: int| x < k < 16 ==> loaded.v[k] == between[k]
        }),
{
}

/// Drawing the same sprite twice at the same place leaves the display as
/// it was, and the second drawing sets `VF` to 1 exactly when the first lit
/// a pixel. The coordinates must not come from `VF`, which the first
/// drawing overwrites.
pub proof fn law_draw_twice(m: Machine, x: u8, y: u8, n: u8)
    requires
        m.wf(),
        x < 15,
        y < 15,
        m.sprite_fits(x, y, n),
        m.i + n <= 4096,
    ensures
        ({
            let once = m.drw_vx_vy_n(x, y, n);
            let twice = once.drw_vx_vy_n(x, y, n);
            &&& once.sprite_fits(x, y, n)
            &&& twice.display == m.display
            &&& twice.v[0xF] == 1 <==> exists|r: int, c: int|
                0 <= r < 32 && 0 <= c < 64 && !m.display[r][c] && #[trigger] once.display[r][c]
            &&& twice.v[0xF] == 0 || twice.v[0xF] == 1
        }),
{
    let once = m.drw_vx_vy_n(x, y, n);
    let twice = once.drw_vx_vy_n(x, y, n);
    let x0 = m.sprite_x(x);
    let y0 = m.sprite_y(y);
    let sprite = m.sprite(n);
    assert(once.sprite(n) =~= sprite);
    assert(once.sprite_x(x) == x0 && once.sprite_y(y) == y0);
    assert(twice.display =~~= m.display);
    let lit_by_first = exists|r: int, c: int|
        0 <= r < 32 && 0 <= c < 64 && !m.display[r][c] && #[trigger] once.display[r][c];
    if twice.v[0xF] == 1 {
        let k = choose|k: int|
            0 <= k < sprite.len() && crate::display::row_erased(
                #[trigger] once.display[y0 + k],
                x0,
                sprite[k],
            );
        let c = choose|c: int|
            x0 <= c < x0 + 8 && #[trigger] once.display[y0 + k][c] && sprite_bit(sprite[k], c - x0);
        assert(!m.display[y0 + k][c] && once.display[y0 + k][c]);
        assert(lit_by_first);
    }
    if lit_by_first {
        let (r, c) = choose|r: int, c: int|
            0 <= r < 32 && 0 <= c < 64 && !m.display[r][c] && #[trigger] once.display[r][c];
        assert(y0 <= r < y0 + n && x0 <= c < x0 + 8);
        assert(once.display[r][c] && sprite_bit(sprite[r - y0], c - x0));
        assert(crate::display::row_erased(once.display[y0 + (r - y0)], x0, sprite[r - y0]));
        assert(twice.v[0xF] == 1);
    }
}

/// A call followed by a return brings the program counter to the
/// instruction after the call and the stack pointer to where it was, at
/// every depth that admits the call: the first call of a program, at
/// depth 1, among them.
pub proof fn law_call_then_return(m: Machine, nnn: u16)
    requires
        m.wf(),
        m.sp < 15,
    ensures
        m.call_addr(nnn).ret().pc == wrap16(m.pc + 2),
        m.pc + 2 < 65536 ==> m.call_addr(nnn).ret().pc == m.pc + 2,
        m.call_addr(nnn).ret().sp == m.sp,
        m.fault(Instruction::Call { nnn }) is None,
        m.call_addr(nnn).fault(Instruction::Ret) is None,
{
}

/// `Fx0A` waits: with every key up it changes nothing, so the program
/// counter stays on it; with a key down it stores the lowest such key in
/// `Vx` and moves on.
pub proof fn law_wait_for_key(m: Machine, x: u8, key: u8)
    requires
        m.wf(),
        x < 16,
    ensures
        (forall|k: int| 0 <= k < 16 ==> !m.keys[k]) ==> m.ld_vx_k(x) == m,
        key < 16 && m.keys[key as int] && (forall|k: int| 0 <= k < key ==> !m.keys[k])
            ==> m.ld_vx_k(x) == m.set_v(x, key).advance(),
{
    lemma_first_down(m.keys);
}

/// Chance enters a step only through `Cxkk`: at any other word the step is
/// the same whatever byte is drawn.
pub proof fn law_step_deterministic(m: Machine, r1: u8, r2: u8)
    requires
        !m.draws_random(),
    ensures
        m.step(r1) == m.step(r2),
{
}

/// The timers go down only by ticks: no instruction but `Fx15` changes the
/// delay timer, and none but `Fx18` the sound timer.
pub proof fn law_timers_kept(m: Machine, ins: Instruction, random: u8)
    requires
        m.wf(),
        ins.wf(),
    ensures
        !(ins is LdDtVx) ==> m.execute(ins, random).dt == m.dt,
        !(ins is LdStVx) ==> m.execute(ins, random).st == m.st,
{
}

/// The display changes only by `00E0` and `Dxyn`, and no instruction
/// touches the keys, the run flag or the interpreter image.
pub proof fn law_display_and_keys_kept(m: Machine, ins: Instruction, random: u8)
    requires
        m.wf(),
        ins.wf(),
    ensures
        !(ins is Cls) && !(ins is Drw) ==> m.execute(ins, random).display == m.display,
        m.execute(ins, random).keys == m.keys,
        m.execute(ins, random).run == m.run,
        m.execute(ins, random).image == m.image,
{
}

/// A tick never takes a timer below 0: a timer at 0 stays there, any other
/// loses exactly one.
pub proof fn law_tick_floor(m: Machine)
    ensures
        m.dt == 0 ==> m.tick_timers().dt == 0,
        m.dt > 0 ==> m.tick_timers().dt == m.dt - 1,
        m.st == 0 ==> m.tick_timers().st == 0,
        m.st > 0 ==> m.tick_timers().st == m.st - 1,
{
}

} // verus!
