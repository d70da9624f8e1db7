//! The interpreter: fetch, decode and execute one instruction per step.
//!
//! `execute_next_instruction` performs one fetch/decode/execute cycle on the
//! machine state, the framebuffer and the keypad. Every opcode's effect is
//! stated by `step_rel`; the fatal conditions (out-of-range memory access,
//! stack underflow) are pinned down by `step_error_of`.

use vstd::prelude::*;

use crate::arith::add_overflow;
use crate::arith::least_significant_bit;
use crate::arith::most_significant_bit;
use crate::arith::sub_overflow;
use crate::chip::Chip8Components;
use crate::chip::font_seq;
use crate::decode::Instruction;
use crate::decode::decode;
use crate::decode::lemma_decode_fields_bounded;
use crate::decode::spec_decode;
use crate::display::Framebuffer;
use crate::hexfmt::hex_digit;
use crate::hexfmt::hex_encode;
use crate::keypad::Keypad;
use crate::keypad::key_down;
use crate::keypad::key_val;
use crate::rng::random_byte;

verus! {

/// The fatal conditions a step or a load can report.
#[derive(Clone, Copy, PartialEq, Eq, Structural, Debug)]
pub enum EmuError {
    /// The program image does not fit between `0x200` and the end of memory.
    RomTooLarge,
    /// A fetch or an opcode would touch an address past the end of memory.
    MemoryOutOfRange,
    /// A return was executed with an empty call stack.
    StackUnderflow,
}

/// The machine state together with the framebuffer and the keypad the
/// opcodes act on, plus a copy of the loaded program image.
pub struct Emulation {
    pub instructions: Vec<u8>,
    pub chip8_data: Chip8Components,
    pub canvas: Framebuffer,
    pub events_handler: Keypad,
}

/// The big-endian 16-bit word at `pc`.
pub open spec fn fetched_word(c: Chip8Components) -> u16 {
    ((c.memory@[c.pc as int] as int) * 256 + (c.memory@[c.pc as int + 1] as int)) as u16
}

/// The machine equals the given parts, field by field.
pub open spec fn machine_is(
    p: Chip8Components,
    mem: Seq<u8>,
    pc: u16,
    index: u16,
    stack: Seq<u16>,
    delay: u8,
    sound: u8,
    regs: Seq<u8>,
) -> bool {
    &&& p.memory@ == mem
    &&& p.pc == pc
    &&& p.index == index
    &&& p.stack@ == stack
    &&& p.delay_timer == delay
    &&& p.sound_timer == sound
    &&& p.var_registers@ == regs
}

/// The keypad queue is the same before and after.
pub open spec fn keys_unchanged(pre: Emulation, post: Emulation) -> bool {
    post.events_handler.events@ == pre.events_handler.events@
}

/// The framebuffer is the same before and after.
pub open spec fn canvas_unchanged(pre: Emulation, post: Emulation) -> bool {
    post.canvas@ == pre.canvas@
}

/// Neither the framebuffer nor the keypad changed.
pub open spec fn io_unchanged(pre: Emulation, post: Emulation) -> bool {
    canvas_unchanged(pre, post) && keys_unchanged(pre, post)
}

/// Nothing about the emulation changed.
pub open spec fn emu_unchanged(pre: Emulation, post: Emulation) -> bool {
    let c = pre.chip8_data;
    &&& machine_is(
        post.chip8_data,
        c.memory@,
        c.pc,
        c.index,
        c.stack@,
        c.delay_timer,
        c.sound_timer,
        c.var_registers@,
    )
    &&& io_unchanged(pre, post)
    &&& post.instructions@ == pre.instructions@
}

/// The program counter advanced past the fetched instruction, with an extra
/// skip when `cond` holds.
pub open spec fn skip_pc(c: Chip8Components, cond: bool) -> u16 {
    if cond {
        (c.pc + 4) as u16
    } else {
        (c.pc + 2) as u16
    }
}

/// `(a + b) mod 256`.
pub open spec fn wrap_add(a: u8, b: u8) -> u8 {
    ((a + b) % 256) as u8
}

/// `(a - b) mod 256`.
pub open spec fn wrap_sub(a: u8, b: u8) -> u8 {
    ((a - b + 256) % 256) as u8
}

/// Bit `c` of a sprite byte, most significant bit first: bit 0 is the
/// leftmost drawn pixel.
pub open spec fn bit_of(b: u8, c: int) -> bool {
    if c == 0 {
        b / 128 % 2 == 1
    } else if c == 1 {
        b / 64 % 2 == 1
    } else if c == 2 {
        b / 32 % 2 == 1
    } else if c == 3 {
        b / 16 % 2 == 1
    } else if c == 4 {
        b / 8 % 2 == 1
    } else if c == 5 {
        b / 4 % 2 == 1
    } else if c == 6 {
        b / 2 % 2 == 1
    } else {
        b % 2 == 1
    }
}

/// Whether the sprite of `n` rows at `(x0, y0)`, read from `mem` at `index`,
/// has a set bit aimed at pixel `(px, py)`.
pub open spec fn draw_hits(
    mem: Seq<u8>,
    index: int,
    x0: int,
    y0: int,
    n: int,
    px: int,
    py: int,
) -> bool {
    &&& y0 <= py < y0 + n
    &&& x0 <= px < x0 + 8
    &&& bit_of(mem[index + (py - y0)], px - x0)
}

/// The sprite bits aimed at pixels drawn so far: all of the first `r` rows,
/// and the first `cc` columns of row `r`.
pub open spec fn hits_upto(
    mem: Seq<u8>,
    index: int,
    x0: int,
    y0: int,
    r: int,
    cc: int,
    px: int,
    py: int,
) -> bool {
    &&& y0 <= py
    &&& x0 <= px < x0 + 8
    &&& (py - y0 < r || (py - y0 == r && px - x0 < cc))
    &&& bit_of(mem[index + (py - y0)], px - x0)
}

/// `fb1` is `fb0` with every visible pixel the sprite aims at toggled;
/// pixels at or beyond the 64 by 32 bounds are clipped, not wrapped.
pub open spec fn draw_fb_rel(
    fb0: Seq<bool>,
    fb1: Seq<bool>,
    mem: Seq<u8>,
    index: int,
    x0: int,
    y0: int,
    n: int,
) -> bool {
    &&& fb1.len() == fb0.len()
    &&& forall|px: int, py: int|
        0 <= px < 64 && 0 <= py < 32 ==> fb1[py * 64 + px] == (fb0[py * 64 + px] != #[trigger] draw_hits(
            mem,
            index,
            x0,
            y0,
            n,
            px,
            py,
        ))
}

/// The sprite turns some visible, currently lit pixel off.
pub open spec fn draw_collides(
    fb: Seq<bool>,
    mem: Seq<u8>,
    index: int,
    x0: int,
    y0: int,
    n: int,
) -> bool {
    exists|px: int, py: int|
        0 <= px < 64 && 0 <= py < 32 && #[trigger] draw_hits(mem, index, x0, y0, n, px, py)
            && fb[py * 64 + px]
}

/// As `draw_collides`, over the pixels drawn so far.
pub open spec fn collides_upto(
    fb: Seq<bool>,
    mem: Seq<u8>,
    index: int,
    x0: int,
    y0: int,
    r: int,
    cc: int,
) -> bool {
    exists|px: int, py: int|
        0 <= px < 64 && 0 <= py < 32 && #[trigger] hits_upto(mem, index, x0, y0, r, cc, px, py)
            && fb[py * 64 + px]
}

/// The effect of the draw opcode on everything but the program counter:
/// the framebuffer is toggled under the sprite, `VF` is set to 1 exactly
/// when some visible lit pixel went off, and the rest of the machine stays.
pub open spec fn draw_effect(pre: Emulation, post: Emulation, x: u8, y: u8, n: u8) -> bool {
    let c = pre.chip8_data;
    let regs = c.var_registers@;
    let x0 = regs[x as int] as int;
    let y0 = regs[y as int] as int;
    &&& post.chip8_data.memory@ == c.memory@
    &&& post.chip8_data.index == c.index
    &&& post.chip8_data.stack@ == c.stack@
    &&& post.chip8_data.delay_timer == c.delay_timer
    &&& post.chip8_data.sound_timer == c.sound_timer
    &&& post.instructions@ == pre.instructions@
    &&& keys_unchanged(pre, post)
    &&& draw_fb_rel(pre.canvas@, post.canvas@, c.memory@, c.index as int, x0, y0, n as int)
    &&& post.chip8_data.var_registers@ == if draw_collides(
        pre.canvas@,
        c.memory@,
        c.index as int,
        x0,
        y0,
        n as int,
    ) {
        regs.update(15, 1u8)
    } else {
        regs
    }
}

/// Memory after storing `regs[0..x]` at `index ..`.
pub open spec fn mem_after_dump(mem: Seq<u8>, regs: Seq<u8>, index: int, x: int) -> Seq<u8> {
    Seq::new(
        mem.len(),
        |j: int|
            if index <= j <= index + x {
                regs[j - index]
            } else {
                mem[j]
            },
    )
}

/// Registers after loading `V0..Vx` from `mem` at `index ..`.
pub open spec fn regs_after_load(mem: Seq<u8>, regs: Seq<u8>, index: int, x: int) -> Seq<u8> {
    Seq::new(
        regs.len(),
        |j: int|
            if j <= x {
                mem[index + j]
            } else {
                regs[j]
            },
    )
}

/// The fatal condition one step from `pre` runs into, if any: a fetch past
/// the end of memory, a return on an empty stack, or an opcode whose memory
/// window reaches past the end of memory. `None` means the step succeeds.
pub open spec fn step_error_of(pre: Emulation) -> Option<EmuError> {
    let c = pre.chip8_data;
    if c.pc > 4094 {
        Option::Some(EmuError::MemoryOutOfRange)
    } else {
        match spec_decode(fetched_word(c)) {
            Instruction::Return => if c.stack@.len() == 0 {
                Option::Some(EmuError::StackUnderflow)
            } else {
                Option::None
            },
            Instruction::Draw { x, y, n } => if n > 0 && c.index + n > 4096 {
                Option::Some(EmuError::MemoryOutOfRange)
            } else {
                Option::None
            },
            Instruction::StoreBcd { x } => if c.index + 2 > 4095 {
                Option::Some(EmuError::MemoryOutOfRange)
            } else {
                Option::None
            },
            Instruction::DumpRegisters { x } => if c.index + x > 4095 {
                Option::Some(EmuError::MemoryOutOfRange)
            } else {
                Option::None
            },
            Instruction::LoadRegisters { x } => if c.index + x > 4095 {
                Option::Some(EmuError::MemoryOutOfRange)
            } else {
                Option::None
            },
            _ => Option::None,
        }
    }
}

/// What one successful step does: the instruction at `pc` is fetched,
/// decoded and executed exactly as the opcode table says, and `presented`
/// reports whether a frame is to be shown (only the draw opcode presents).
pub open spec fn step_rel(pre: Emulation, post: Emulation, presented: bool) -> bool {
    let c = pre.chip8_data;
    let p = post.chip8_data;
    let mem = c.memory@;
    let stk = c.stack@;
    let d = c.delay_timer;
    let s = c.sound_timer;
    let regs = c.var_registers@;
    let instr = spec_decode(fetched_word(c));
    &&& post.instructions@ == pre.instructions@
    &&& (presented <==> instr is Draw)
    &&& match instr {
        Instruction::ClearScreen => {
            &&& machine_is(p, mem, skip_pc(c, false), c.index, stk, d, s, regs)
            &&& post.canvas@.len() == 2048
            &&& (forall|i: int| 0 <= i < 2048 ==> !post.canvas@[i])
            &&& keys_unchanged(pre, post)
        },
        Instruction::Return => {
            &&& machine_is(
                p,
                mem,
                (stk.last() + 2) as u16,
                c.index,
                stk.drop_last(),
                d,
                s,
                regs,
            )
            &&& io_unchanged(pre, post)
        },
        Instruction::Jump { nnn } => {
            &&& machine_is(p, mem, nnn, c.index, stk, d, s, regs)
            &&& io_unchanged(pre, post)
        },
        Instruction::Call { nnn } => {
            &&& machine_is(p, mem, nnn, c.index, stk.push(c.pc), d, s, regs)
            &&& io_unchanged(pre, post)
        },
        Instruction::SkipEqImm { x, nn } => {
            &&& machine_is(p, mem, skip_pc(c, regs[x as int] == nn), c.index, stk, d, s, regs)
            &&& io_unchanged(pre, post)
        },
        Instruction::SkipNeImm { x, nn } => {
            &&& machine_is(p, mem, skip_pc(c, regs[x as int] != nn), c.index, stk, d, s, regs)
            &&& io_unchanged(pre, post)
        },
        Instruction::SkipEqReg { x, y } => {
            &&& machine_is(
                p,
                mem,
                skip_pc(c, regs[x as int] == regs[y as int]),
                c.index,
                stk,
                d,
                s,
                regs,
            )
            &&& io_unchanged(pre, post)
        },
        Instruction::SetReg { x, nn } => {
            &&& machine_is(
                p,
                mem,
                skip_pc(c, false),
                c.index,
                stk,
                d,
                s,
                regs.update(x as int, nn),
            )
            &&& io_unchanged(pre, post)
        },
        Instruction::AddReg { x, nn } => {
            &&& machine_is(
                p,
                mem,
                skip_pc(c, false),
                c.index,
                stk,
                d,
                s,
                regs.update(x as int, wrap_add(regs[x as int], nn)),
            )
            &&& io_unchanged(pre, post)
        },
        Instruction::AluAssign { x, y } => {
            &&& machine_is(
                p,
                mem,
                skip_pc(c, false),
                c.index,
                stk,
                d,
                s,
                regs.update(x as int, regs[y as int]),
            )
            &&& io_unchanged(pre, post)
        },
        Instruction::AluOr { x, y } => {
            &&& machine_is(
                p,
                mem,
                skip_pc(c, false),
                c.index,
                stk,
                d,
                s,
                regs.update(x as int, regs[x as int] | regs[y as int]),
            )
            &&& io_unchanged(pre, post)
        },
        Instruction::AluAnd { x, y } => {
            &&& machine_is(
                p,
                mem,
                skip_pc(c, false),
                c.index,
                stk,
                d,
                s,
                regs.update(x as int, regs[x as int] & regs[y as int]),
            )
            &&& io_unchanged(pre, post)
        },
        Instruction::AluXor { x, y } => {
            &&& machine_is(
                p,
                mem,
                skip_pc(c, false),
                c.index,
                stk,
                d,
                s,
                regs.update(x as int, regs[x as int] ^ regs[y as int]),
            )
            &&& io_unchanged(pre, post)
        },
        Instruction::AluAdd { x, y } => {
            &&& machine_is(
                p,
                mem,
                skip_pc(c, false),
                c.index,
                stk,
                d,
                s,
                regs.update(x as int, wrap_add(regs[x as int], regs[y as int])).update(
                    15,
                    if regs[x as int] + regs[y as int] > 255 {
                        1u8
                    } else {
                        0u8
                    },
                ),
            )
            &&& io_unchanged(pre, post)
        },
        Instruction::AluSub { x, y } => {
            &&& machine_is(
                p,
                mem,
                skip_pc(c, false),
                c.index,
                stk,
                d,
                s,
                regs.update(x as int, wrap_sub(regs[x as int], regs[y as int])).update(
                    15,
                    if regs[x as int] >= regs[y as int] {
                        1u8
                    } else {
                        0u8
                    },
                ),
            )
            &&& io_unchanged(pre, post)
        },
        Instruction::AluShr { x } => {
            &&& machine_is(
                p,
                mem,
                skip_pc(c, false),
                c.index,
                stk,
                d,
                s,
                regs.update(x as int, (regs[x as int] / 2) as u8).update(
                    15,
                    (regs[x as int] % 2) as u8,
                ),
            )
            &&& io_unchanged(pre, post)
        },
        Instruction::AluSubRev { x, y } => {
            &&& machine_is(
                p,
                mem,
                skip_pc(c, false),
                c.index,
                stk,
                d,
                s,
                regs.update(x as int, wrap_sub(regs[y as int], regs[x as int])).update(
                    15,
                    if regs[y as int] >= regs[x as int] {
                        1u8
                    } else {
                        0u8
                    },
                ),
            )
            &&& io_unchanged(pre, post)
        },
        Instruction::AluShl { x } => {
            &&& machine_is(
                p,
                mem,
                skip_pc(c, false),
                c.index,
                stk,
                d,
                s,
                regs.update(x as int, ((regs[x as int] * 2) % 256) as u8).update(
                    15,
                    (regs[x as int] / 128) as u8,
                ),
            )
            &&& io_unchanged(pre, post)
        },
        Instruction::SkipNeReg { x, y } => {
            &&& machine_is(
                p,
                mem,
                skip_pc(c, regs[x as int] != regs[y as int]),
                c.index,
                stk,
                d,
                s,
                regs,
            )
            &&& io_unchanged(pre, post)
        },
        Instruction::SetIndex { nnn } => {
            &&& machine_is(p, mem, skip_pc(c, false), nnn, stk, d, s, regs)
            &&& io_unchanged(pre, post)
        },
        Instruction::JumpOffset { x, nn } => {
            &&& machine_is(p, mem, (nn + regs[x as int]) as u16, c.index, stk, d, s, regs)
            &&& io_unchanged(pre, post)
        },
        Instruction::RandomMask { x, nn } => {
            &&& p.memory@ == mem
            &&& p.pc == skip_pc(c, false)
            &&& p.index == c.index
            &&& p.stack@ == stk
            &&& p.delay_timer == d
            &&& p.sound_timer == s
            &&& (exists|rb: u8| p.var_registers@ == #[trigger] regs.update(x as int, rb & nn))
            &&& io_unchanged(pre, post)
        },
        Instruction::Draw { x, y, n } => {
            &&& draw_effect(pre, post, x, y, n)
            &&& p.pc == skip_pc(c, false)
        },
        Instruction::SkipKeyPressed { x } => {
            &&& machine_is(
                p,
                mem,
                skip_pc(c, key_down(pre.events_handler.events@, regs[x as int])),
                c.index,
                stk,
                d,
                s,
                regs,
            )
            &&& io_unchanged(pre, post)
        },
        Instruction::SkipKeyNotPressed { x } => {
            &&& machine_is(
                p,
                mem,
                skip_pc(c, !key_down(pre.events_handler.events@, regs[x as int])),
                c.index,
                stk,
                d,
                s,
                regs,
            )
            &&& io_unchanged(pre, post)
        },
        Instruction::ReadDelay { x } => {
            &&& machine_is(
                p,
                mem,
                skip_pc(c, false),
                c.index,
                stk,
                d,
                s,
                regs.update(x as int, d),
            )
            &&& io_unchanged(pre, post)
        },
        Instruction::SetDelay { x } => {
            &&& machine_is(p, mem, skip_pc(c, false), c.index, stk, regs[x as int], s, regs)
            &&& io_unchanged(pre, post)
        },
        Instruction::SetSound { x } => {
            &&& machine_is(p, mem, skip_pc(c, false), c.index, stk, d, regs[x as int], regs)
            &&& io_unchanged(pre, post)
        },
        Instruction::AddIndex { x } => {
            &&& machine_is(
                p,
                mem,
                skip_pc(c, false),
                ((c.index + regs[x as int]) % 65536) as u16,
                stk,
                d,
                s,
                regs,
            )
            &&& io_unchanged(pre, post)
        },
        Instruction::WaitKey { x } => {
            if pre.events_handler.events@.len() == 0 {
                &&& machine_is(p, mem, c.pc, c.index, stk, d, s, regs)
                &&& io_unchanged(pre, post)
            } else {
                &&& machine_is(
                    p,
                    mem,
                    skip_pc(c, false),
                    c.index,
                    stk,
                    d,
                    s,
                    regs.update(x as int, key_val(pre.events_handler.events@.last())),
                )
                &&& canvas_unchanged(pre, post)
                &&& post.events_handler.events@ == pre.events_handler.events@.drop_last()
            }
        },
        Instruction::FontChar { x } => {
            &&& machine_is(
                p,
                mem,
                skip_pc(c, false),
                (5 * regs[x as int]) as u16,
                stk,
                d,
                s,
                regs,
            )
            &&& io_unchanged(pre, post)
        },
        Instruction::StoreBcd { x } => {
            &&& machine_is(
                p,
                mem.update(c.index as int, (regs[x as int] / 100) as u8).update(
                    c.index as int + 1,
                    ((regs[x as int] / 10) % 10) as u8,
                ).update(c.index as int + 2, (regs[x as int] % 10) as u8),
                skip_pc(c, false),
                c.index,
                stk,
                d,
                s,
                regs,
            )
            &&& io_unchanged(pre, post)
        },
        Instruction::DumpRegisters { x } => {
            &&& machine_is(
                p,
                mem_after_dump(mem, regs, c.index as int, x as int),
                skip_pc(c, false),
                c.index,
                stk,
                d,
                s,
                regs,
            )
            &&& io_unchanged(pre, post)
        },
        Instruction::LoadRegisters { x } => {
            &&& machine_is(
                p,
                mem,
                skip_pc(c, false),
                c.index,
                stk,
                d,
                s,
                regs_after_load(mem, regs, c.index as int, x as int),
            )
            &&& io_unchanged(pre, post)
        },
        Instruction::Nop => {
            &&& machine_is(p, mem, skip_pc(c, false), c.index, stk, d, s, regs)
            &&& io_unchanged(pre, post)
        },
    }
}

/// After the clear-screen instruction executes, every framebuffer pixel is
/// off, whatever was lit before.
pub proof fn lemma_clear_screen_blanks(pre: Emulation, post: Emulation, presented: bool)
    requires
        step_rel(pre, post, presented),
        spec_decode(fetched_word(pre.chip8_data)) is ClearScreen,
    ensures
        forall|i: int| 0 <= i < post.canvas@.len() ==> !post.canvas@[i],
{
}

/// Storing `V0..Vx` to memory and loading them back with the same `x` and
/// the same index restores exactly the original register values.
pub proof fn lemma_dump_load_round_trip(mem: Seq<u8>, regs: Seq<u8>, index: int, x: int)
    requires
        mem.len() == 4096,
        regs.len() == 16,
        0 <= x < 16,
        0 <= index,
        index + x < 4096,
    ensures
        regs_after_load(mem_after_dump(mem, regs, index, x), regs, index, x) == regs,
{
    assert(regs_after_load(mem_after_dump(mem, regs, index, x), regs, index, x) =~= regs);
}

/// Toggling the same sprite at the same coordinates twice restores the
/// framebuffer to its pre-draw state; and whenever the sprite aims a set bit
/// at a visible pixel that was off beforehand, the second draw sees that
/// pixel lit, so it reports a collision.
pub proof fn lemma_draw_twice(
    fb0: Seq<bool>,
    fb1: Seq<bool>,
    fb2: Seq<bool>,
    mem: Seq<u8>,
    index: int,
    x0: int,
    y0: int,
    n: int,
)
    requires
        fb0.len() == 2048,
        draw_fb_rel(fb0, fb1, mem, index, x0, y0, n),
        draw_fb_rel(fb1, fb2, mem, index, x0, y0, n),
    ensures
        fb2 == fb0,
        (exists|px: int, py: int|
            0 <= px < 64 && 0 <= py < 32 && #[trigger] draw_hits(mem, index, x0, y0, n, px, py)
                && !fb0[py * 64 + px]) ==> draw_collides(fb1, mem, index, x0, y0, n),
{
    assert forall|i: int| 0 <= i < 2048 implies fb2[i] == fb0[i] by {
        let px = i % 64;
        let py = i / 64;
        assert(i == py * 64 + px);
        assert(0 <= px < 64 && 0 <= py < 32);
        assert(fb1[py * 64 + px] == (fb0[py * 64 + px] != draw_hits(
            mem,
            index,
            x0,
            y0,
            n,
            px,
            py,
        )));
        assert(fb2[py * 64 + px] == (fb1[py * 64 + px] != draw_hits(
            mem,
            index,
            x0,
            y0,
            n,
            px,
            py,
        )));
    }
    assert(fb2 =~= fb0);
    if exists|px: int, py: int|
        0 <= px < 64 && 0 <= py < 32 && #[trigger] draw_hits(mem, index, x0, y0, n, px, py)
            && !fb0[py * 64 + px] {
        let (px, py) = choose|px: int, py: int|
            0 <= px < 64 && 0 <= py < 32 && #[trigger] draw_hits(mem, index, x0, y0, n, px, py)
                && !fb0[py * 64 + px];
        assert(fb1[py * 64 + px] == (fb0[py * 64 + px] != draw_hits(
            mem,
            index,
            x0,
            y0,
            n,
            px,
            py,
        )));
        assert(draw_collides(fb1, mem, index, x0, y0, n));
    }
}

impl Emulation {
    /// The machine, the framebuffer and the keypad are all well-formed.
    pub open spec fn wf(&self) -> bool {
        self.chip8_data.wf() && self.canvas.wf()
    }

    /// A machine ready to run the given program image: font at address 0,
    /// the image copied to `0x200`, `pc` at `0x200`, everything else zeroed,
    /// the framebuffer dark and the keypad idle. Fails exactly when the
    /// image does not fit in memory.
    pub fn new(rom_bytes: Vec<u8>) -> (r: Result<Emulation, EmuError>)
        ensures
            match r {
                Result::Ok(emu) => {
                    &&& rom_bytes@.len() <= 3584
                    &&& emu.wf()
                    &&& emu.instructions@ == rom_bytes@
                    &&& emu.chip8_data.pc == 0x200
                    &&& emu.chip8_data.index == 0
                    &&& emu.chip8_data.stack@.len() == 0
                    &&& emu.chip8_data.delay_timer == 0
                    &&& emu.chip8_data.sound_timer == 0
                    &&& (forall|i: int| 0 <= i < 16 ==> emu.chip8_data.var_registers@[i] == 0)
                    &&& (forall|i: int| 0 <= i < 80 ==> emu.chip8_data.memory@[i] == font_seq()[i])
                    &&& (forall|i: int| 80 <= i < 512 ==> emu.chip8_data.memory@[i] == 0)
                    &&& (forall|i: int|
                        0 <= i < rom_bytes@.len() ==> emu.chip8_data.memory@[512 + i]
                            == rom_bytes@[i])
                    &&& (forall|i: int|
                        512 + rom_bytes@.len() <= i < 4096 ==> emu.chip8_data.memory@[i] == 0)
                    &&& (forall|i: int| 0 <= i < 2048 ==> !emu.canvas@[i])
                    &&& emu.events_handler.events@.len() == 0
                },
                Result::Err(e) => e == EmuError::RomTooLarge && rom_bytes@.len() > 3584,
            },
    {
        if rom_bytes.len() > 3584 {
            return Result::Err(EmuError::RomTooLarge);
        }
        let mut chip8_data = Chip8Components::new();
        let mut i: usize = 0;
        while i < rom_bytes.len()
            invariant
                i <= rom_bytes@.len(),
                rom_bytes@.len() <= 3584,
                chip8_data.memory@.len() == 4096,
                chip8_data.var_registers@.len() == 16,
                chip8_data.pc == 0,
                chip8_data.index == 0,
                chip8_data.stack@.len() == 0,
                chip8_data.delay_timer == 0,
                chip8_data.sound_timer == 0,
                forall|j: int| 0 <= j < 16 ==> chip8_data.var_registers@[j] == 0,
                forall|j: int| 0 <= j < 80 ==> chip8_data.memory@[j] == font_seq()[j],
                forall|j: int| 80 <= j < 512 ==> chip8_data.memory@[j] == 0,
                forall|j: int| 0 <= j < i ==> chip8_data.memory@[512 + j] == rom_bytes@[j],
                forall|j: int| 512 + i <= j < 4096 ==> chip8_data.memory@[j] == 0,
            decreases rom_bytes@.len() - i,
        {
            chip8_data.memory[512 + i] = rom_bytes[i];
            i = i + 1;
        }
        chip8_data.pc = 0x200;
        Result::Ok(
            Emulation {
                instructions: rom_bytes,
                chip8_data,
                canvas: Framebuffer::new(),
                events_handler: Keypad::new(),
            },
        )
    }

    /// Runtime check of the invariants the step function relies on, for a
    /// host that cannot carry the proof.
    pub fn is_well_formed(&self) -> (r: bool)
        ensures
            r == self.wf(),
    {
        if self.chip8_data.memory.len() != 4096 {
            return false;
        }
        if self.chip8_data.var_registers.len() != 16 {
            return false;
        }
        if !self.canvas.is_well_formed() {
            return false;
        }
        let mut i: usize = 0;
        while i < self.chip8_data.stack.len()
            invariant
                i <= self.chip8_data.stack@.len(),
                forall|j: int| 0 <= j < i ==> self.chip8_data.stack@[j] <= 4094,
            decreases self.chip8_data.stack@.len() - i,
        {
            if self.chip8_data.stack[i] > 4094 {
                return false;
            }
            i = i + 1;
        }
        true
    }

    /// Decrement each timer by one, stopping at zero; nothing else moves.
    /// The host calls this at a fixed 60 Hz, independent of the step rate.
    pub fn tick_timers(&mut self)
        ensures
            final(self).chip8_data.delay_timer == if old(self).chip8_data.delay_timer > 0 {
                (old(self).chip8_data.delay_timer - 1) as u8
            } else {
                0u8
            },
            final(self).chip8_data.sound_timer == if old(self).chip8_data.sound_timer > 0 {
                (old(self).chip8_data.sound_timer - 1) as u8
            } else {
                0u8
            },
            final(self).chip8_data.memory@ == old(self).chip8_data.memory@,
            final(self).chip8_data.pc == old(self).chip8_data.pc,
            final(self).chip8_data.index == old(self).chip8_data.index,
            final(self).chip8_data.stack@ == old(self).chip8_data.stack@,
            final(self).chip8_data.var_registers@ == old(self).chip8_data.var_registers@,
            final(self).canvas@ == old(self).canvas@,
            final(self).events_handler.events@ == old(self).events_handler.events@,
            final(self).instructions@ == old(self).instructions@,
    {
        if self.chip8_data.delay_timer > 0 {
            self.chip8_data.delay_timer = self.chip8_data.delay_timer - 1;
        }
        if self.chip8_data.sound_timer > 0 {
            self.chip8_data.sound_timer = self.chip8_data.sound_timer - 1;
        }
    }

    /// The loaded program image, one byte per entry, each as two lowercase
    /// hexadecimal digits.
    pub fn debug_file(&self) -> (r: Vec<String>)
        ensures
            r@.len() == self.instructions@.len(),
            forall|i: int|
                0 <= i < r@.len() ==> (#[trigger] r@[i])@ == seq![
                    hex_digit((self.instructions@[i] / 16) as u8),
                    hex_digit((self.instructions@[i] % 16) as u8),
                ],
    {
        let mut out: Vec<String> = Vec::new();
        let mut i: usize = 0;
        while i < self.instructions.len()
            invariant
                i <= self.instructions@.len(),
                out@.len() == i,
                forall|j: int|
                    0 <= j < i ==> (#[trigger] out@[j])@ == seq![
                        hex_digit((self.instructions@[j] / 16) as u8),
                        hex_digit((self.instructions@[j] % 16) as u8),
                    ],
            decreases self.instructions@.len() - i,
        {
            let mut one: Vec<u8> = Vec::new();
            one.push(self.instructions[i]);
            let s = hex_encode(&one);
            proof {
                assert(one@[0] == self.instructions@[i as int]);
                assert(s@ =~= seq![
                    hex_digit((self.instructions@[i as int] / 16) as u8),
                    hex_digit((self.instructions@[i as int] % 16) as u8),
                ]);
            }
            out.push(s);
            i = i + 1;
        }
        out
    }

    /// One fetch/decode/execute cycle. `Ok(presented)` reports whether a
    /// frame is to be shown; the step's effect is `step_rel`. An error is
    /// returned, with the machine untouched, exactly when `step_error_of`
    /// names one.
    pub fn execute_next_instruction(&mut self) -> (r: Result<bool, EmuError>)
        requires
            old(self).wf(),
        ensures
            final(self).wf(),
            match r {
                Result::Ok(presented) => step_error_of(*old(self)) is None && step_rel(
                    *old(self),
                    *final(self),
                    presented,
                ),
                Result::Err(e) => step_error_of(*old(self)) == Option::Some(e) && emu_unchanged(
                    *old(self),
                    *final(self),
                ),
            },
    {
        if self.chip8_data.pc >= 4095 {
            return Result::Err(EmuError::MemoryOutOfRange);
        }
        let pc = self.chip8_data.pc as usize;
        let hi = self.chip8_data.memory[pc];
        let lo = self.chip8_data.memory[pc + 1];
        let word: u16 = (hi as u16) * 256 + (lo as u16);
        proof {
            assert(word == fetched_word(old(self).chip8_data));
            lemma_decode_fields_bounded(word);
        }
        let instr = decode(word);
        let mut jumped = false;
        let mut presented = false;
        match instr {
            Instruction::ClearScreen => {
                self.canvas.clear_screen();
            },
            Instruction::Return => {
                if self.chip8_data.stack.len() == 0 {
                    return Result::Err(EmuError::StackUnderflow);
                }
                match self.chip8_data.stack.pop() {
                    Option::Some(addr) => {
                        self.chip8_data.pc = addr;
                    },
                    Option::None => unreached(),
                }
            },
            Instruction::Jump { nnn } => {
                self.chip8_data.pc = nnn;
                jumped = true;
            },
            Instruction::Call { nnn } => {
                let cur = self.chip8_data.pc;
                self.chip8_data.stack.push(cur);
                self.chip8_data.pc = nnn;
                jumped = true;
            },
            Instruction::SkipEqImm { x, nn } => {
                if self.chip8_data.var_registers[x as usize] == nn {
                    self.chip8_data.pc = self.chip8_data.pc + 2;
                }
            },
            Instruction::SkipNeImm { x, nn } => {
                if self.chip8_data.var_registers[x as usize] != nn {
                    self.chip8_data.pc = self.chip8_data.pc + 2;
                }
            },
            Instruction::SkipEqReg { x, y } => {
                if self.chip8_data.var_registers[x as usize]
                    == self.chip8_data.var_registers[y as usize] {
                    self.chip8_data.pc = self.chip8_data.pc + 2;
                }
            },
            Instruction::SetReg { x, nn } => {
                self.chip8_data.var_registers[x as usize] = nn;
            },
            Instruction::AddReg { x, nn } => {
                let vx = self.chip8_data.var_registers[x as usize];
                let val = add_overflow(vx, nn);
                self.chip8_data.var_registers[x as usize] = val.1;
            },
            Instruction::AluAssign { x, y } => {
                let vy = self.chip8_data.var_registers[y as usize];
                self.chip8_data.var_registers[x as usize] = vy;
            },
            Instruction::AluOr { x, y } => {
                let vx = self.chip8_data.var_registers[x as usize];
                let vy = self.chip8_data.var_registers[y as usize];
                self.chip8_data.var_registers[x as usize] = vx | vy;
            },
            Instruction::AluAnd { x, y } => {
                let vx = self.chip8_data.var_registers[x as usize];
                let vy = self.chip8_data.var_registers[y as usize];
                self.chip8_data.var_registers[x as usize] = vx & vy;
            },
            Instruction::AluXor { x, y } => {
                let vx = self.chip8_data.var_registers[x as usize];
                let vy = self.chip8_data.var_registers[y as usize];
                self.chip8_data.var_registers[x as usize] = vx ^ vy;
            },
            Instruction::AluAdd { x, y } => {
                let vx = self.chip8_data.var_registers[x as usize];
                let vy = self.chip8_data.var_registers[y as usize];
                let (carry, val) = add_overflow(vx, vy);
                self.chip8_data.var_registers[x as usize] = val;
                self.chip8_data.var_registers[15] = if carry {
                    1
                } else {
                    0
                };
            },
            Instruction::AluSub { x, y } => {
                let vx = self.chip8_data.var_registers[x as usize];
                let vy = self.chip8_data.var_registers[y as usize];
                let (no_borrow, val) = sub_overflow(vx, vy);
                self.chip8_data.var_registers[x as usize] = val;
                self.chip8_data.var_registers[15] = if no_borrow {
                    1
                } else {
                    0
                };
            },
            Instruction::AluShr { x } => {
                let vx = self.chip8_data.var_registers[x as usize];
                let carry = least_significant_bit(vx);
                self.chip8_data.var_registers[x as usize] = vx / 2;
                self.chip8_data.var_registers[15] = carry;
            },
            Instruction::AluSubRev { x, y } => {
                let vx = self.chip8_data.var_registers[x as usize];
                let vy = self.chip8_data.var_registers[y as usize];
                let (no_borrow, val) = sub_overflow(vy, vx);
                self.chip8_data.var_registers[x as usize] = val;
                self.chip8_data.var_registers[15] = if no_borrow {
                    1
                } else {
                    0
                };
            },
            Instruction::AluShl { x } => {
                let vx = self.chip8_data.var_registers[x as usize];
                let carry = most_significant_bit(vx);
                let wide: u16 = vx as u16 * 2;
                self.chip8_data.var_registers[x as usize] = (wide % 256) as u8;
                self.chip8_data.var_registers[15] = carry;
            },
            Instruction::SkipNeReg { x, y } => {
                if self.chip8_data.var_registers[x as usize]
                    != self.chip8_data.var_registers[y as usize] {
                    self.chip8_data.pc = self.chip8_data.pc + 2;
                }
            },
            Instruction::SetIndex { nnn } => {
                self.chip8_data.index = nnn;
            },
            Instruction::JumpOffset { x, nn } => {
                let vx = self.chip8_data.var_registers[x as usize];
                self.chip8_data.pc = nn as u16 + vx as u16;
                jumped = true;
            },
            Instruction::RandomMask { x, nn } => {
                let rb = random_byte();
                self.chip8_data.var_registers[x as usize] = rb & nn;
                proof {
                    assert(self.chip8_data.var_registers@ == old(
                        self,
                    ).chip8_data.var_registers@.update(x as int, rb & nn));
                }
            },
            Instruction::Draw { x, y, n } => {
                let idx = self.chip8_data.index as usize;
                if n > 0 && idx + n as usize > 4096 {
                    return Result::Err(EmuError::MemoryOutOfRange);
                }
                self.exec_draw(x, y, n);
                presented = true;
            },
            Instruction::SkipKeyPressed { x } => {
                let vx = self.chip8_data.var_registers[x as usize];
                if self.events_handler.is_pressed(vx) {
                    self.chip8_data.pc = self.chip8_data.pc + 2;
                }
            },
            Instruction::SkipKeyNotPressed { x } => {
                let vx = self.chip8_data.var_registers[x as usize];
                if !self.events_handler.is_pressed(vx) {
                    self.chip8_data.pc = self.chip8_data.pc + 2;
                }
            },
            Instruction::ReadDelay { x } => {
                let d = self.chip8_data.delay_timer;
                self.chip8_data.var_registers[x as usize] = d;
            },
            Instruction::SetDelay { x } => {
                self.chip8_data.delay_timer = self.chip8_data.var_registers[x as usize];
            },
            Instruction::SetSound { x } => {
                self.chip8_data.sound_timer = self.chip8_data.var_registers[x as usize];
            },
            Instruction::AddIndex { x } => {
                let vx = self.chip8_data.var_registers[x as usize];
                let sum: u32 = self.chip8_data.index as u32 + vx as u32;
                self.chip8_data.index = (sum % 65536) as u16;
            },
            Instruction::WaitKey { x } => {
                if self.events_handler.events.len() == 0 {
                    jumped = true;
                } else {
                    let k = self.events_handler.grab_key();
                    self.chip8_data.var_registers[x as usize] = k;
                }
            },
            Instruction::FontChar { x } => {
                let vx = self.chip8_data.var_registers[x as usize];
                self.chip8_data.index = 5 * (vx as u16);
            },
            Instruction::StoreBcd { x } => {
                let idx = self.chip8_data.index as usize;
                if idx + 2 >= 4096 {
                    return Result::Err(EmuError::MemoryOutOfRange);
                }
                let vx = self.chip8_data.var_registers[x as usize];
                self.chip8_data.memory[idx] = vx / 100;
                self.chip8_data.memory[idx + 1] = (vx / 10) % 10;
                self.chip8_data.memory[idx + 2] = vx % 10;
            },
            Instruction::DumpRegisters { x } => {
                let idx = self.chip8_data.index as usize;
                if idx + x as usize >= 4096 {
                    return Result::Err(EmuError::MemoryOutOfRange);
                }
                self.exec_dump(x);
            },
            Instruction::LoadRegisters { x } => {
                let idx = self.chip8_data.index as usize;
                if idx + x as usize >= 4096 {
                    return Result::Err(EmuError::MemoryOutOfRange);
                }
                self.exec_load(x);
            },
            Instruction::Nop => {},
        }
        if !jumped {
            self.chip8_data.pc = self.chip8_data.pc + 2;
        }
        Result::Ok(presented)
    }

    /// Store `V0..Vx` inclusive into memory at `index ..`.
    #[verifier::loop_isolation(false)]
    fn exec_dump(&mut self, x: u8)
        requires
            old(self).wf(),
            x < 16,
            old(self).chip8_data.index + x < 4096,
        ensures
            final(self).wf(),
            final(self).chip8_data == (Chip8Components {
                memory: final(self).chip8_data.memory,
                ..old(self).chip8_data
            }),
            final(self).chip8_data.memory@ == mem_after_dump(
                old(self).chip8_data.memory@,
                old(self).chip8_data.var_registers@,
                old(self).chip8_data.index as int,
                x as int,
            ),
            final(self).canvas@ == old(self).canvas@,
            final(self).events_handler.events@ == old(self).events_handler.events@,
            final(self).instructions@ == old(self).instructions@,
    {
        let idx = self.chip8_data.index as usize;
        let mut i: usize = 0;
        while i <= x as usize
            invariant
                i <= x + 1,
                self.chip8_data == (Chip8Components {
                    memory: self.chip8_data.memory,
                    ..old(self).chip8_data
                }),
                self.chip8_data.memory@.len() == 4096,
                forall|j: int|
                    0 <= j < 4096 ==> self.chip8_data.memory@[j] == if idx <= j < idx + i {
                        old(self).chip8_data.var_registers@[j - idx]
                    } else {
                        old(self).chip8_data.memory@[j]
                    },
                self.canvas == old(self).canvas,
                self.events_handler == old(self).events_handler,
                self.instructions == old(self).instructions,
            decreases x + 1 - i,
        {
            let v = self.chip8_data.var_registers[i];
            self.chip8_data.memory[idx + i] = v;
            i = i + 1;
        }
        proof {
            assert(self.chip8_data.memory@ =~= mem_after_dump(
                old(self).chip8_data.memory@,
                old(self).chip8_data.var_registers@,
                old(self).chip8_data.index as int,
                x as int,
            ));
        }
    }

    /// Load `V0..Vx` inclusive from memory at `index ..`.
    #[verifier::loop_isolation(false)]
    fn exec_load(&mut self, x: u8)
        requires
            old(self).wf(),
            x < 16,
            old(self).chip8_data.index + x < 4096,
        ensures
            final(self).wf(),
            final(self).chip8_data == (Chip8Components {
                var_registers: final(self).chip8_data.var_registers,
                ..old(self).chip8_data
            }),
            final(self).chip8_data.var_registers@ == regs_after_load(
                old(self).chip8_data.memory@,
                old(self).chip8_data.var_registers@,
                old(self).chip8_data.index as int,
                x as int,
            ),
            final(self).canvas@ == old(self).canvas@,
            final(self).events_handler.events@ == old(self).events_handler.events@,
            final(self).instructions@ == old(self).instructions@,
    {
        let idx = self.chip8_data.index as usize;
        let mut i: usize = 0;
        while i <= x as usize
            invariant
                i <= x + 1,
                self.chip8_data == (Chip8Components {
                    var_registers: self.chip8_data.var_registers,
                    ..old(self).chip8_data
                }),
                self.chip8_data.var_registers@.len() == 16,
                forall|j: int|
                    0 <= j < 16 ==> self.chip8_data.var_registers@[j] == if 0 <= j < i {
                        old(self).chip8_data.memory@[idx + j]
                    } else {
                        old(self).chip8_data.var_registers@[j]
                    },
                self.canvas == old(self).canvas,
                self.events_handler == old(self).events_handler,
                self.instructions == old(self).instructions,
            decreases x + 1 - i,
        {
            let v = self.chip8_data.memory[idx + i];
            self.chip8_data.var_registers[i] = v;
            i = i + 1;
        }
        proof {
            assert(self.chip8_data.var_registers@ =~= regs_after_load(
                old(self).chip8_data.memory@,
                old(self).chip8_data.var_registers@,
                old(self).chip8_data.index as int,
                x as int,
            ));
        }
    }

    /// Draw an `n`-row sprite at `(Vx, Vy)`: toggle the visible pixels the
    /// sprite's set bits aim at, clipping at the screen edge, and set `VF`
    /// when some lit pixel goes off.
    #[verifier::loop_isolation(false)]
    fn exec_draw(&mut self, x: u8, y: u8, n: u8)
        requires
            old(self).wf(),
            x < 16,
            y < 16,
            n < 16,
            n > 0 ==> old(self).chip8_data.index + n <= 4096,
        ensures
            final(self).wf(),
            final(self).chip8_data.pc == old(self).chip8_data.pc,
            draw_effect(*old(self), *final(self), x, y, n),
    {
        let x0 = self.chip8_data.var_registers[x as usize] as usize;
        let y0 = self.chip8_data.var_registers[y as usize] as usize;
        let idx = self.chip8_data.index as usize;
        let ghost mem = old(self).chip8_data.memory@;
        let ghost fb0 = old(self).canvas@;
        let ghost regs0 = old(self).chip8_data.var_registers@;
        let ghost gidx = idx as int;
        let ghost gx0 = x0 as int;
        let ghost gy0 = y0 as int;
        let mut row: usize = 0;
        while row < n as usize
            invariant
                row <= n,
                self.chip8_data.memory == old(self).chip8_data.memory,
                self.chip8_data.pc == old(self).chip8_data.pc,
                self.chip8_data.index == old(self).chip8_data.index,
                self.chip8_data.stack == old(self).chip8_data.stack,
                self.chip8_data.delay_timer == old(self).chip8_data.delay_timer,
                self.chip8_data.sound_timer == old(self).chip8_data.sound_timer,
                self.instructions == old(self).instructions,
                self.events_handler == old(self).events_handler,
                self.canvas.wf(),
                forall|px: int, py: int|
                    0 <= px < 64 && 0 <= py < 32 ==> self.canvas@[py * 64 + px] == (fb0[py * 64
                        + px] != #[trigger] hits_upto(mem, gidx, gx0, gy0, row as int, 0, px, py)),
                self.chip8_data.var_registers@ == if collides_upto(
                    fb0,
                    mem,
                    gidx,
                    gx0,
                    gy0,
                    row as int,
                    0,
                ) {
                    regs0.update(15, 1u8)
                } else {
                    regs0
                },
            decreases n - row,
        {
            let byte = self.chip8_data.memory[idx + row];
            let mut col: usize = 0;
            while col < 8
                invariant
                    col <= 8,
                    byte == mem[gidx + row],
                    self.chip8_data.memory == old(self).chip8_data.memory,
                    self.chip8_data.pc == old(self).chip8_data.pc,
                    self.chip8_data.index == old(self).chip8_data.index,
                    self.chip8_data.stack == old(self).chip8_data.stack,
                    self.chip8_data.delay_timer == old(self).chip8_data.delay_timer,
                    self.chip8_data.sound_timer == old(self).chip8_data.sound_timer,
                    self.instructions == old(self).instructions,
                    self.events_handler == old(self).events_handler,
                    self.canvas.wf(),
                    forall|px: int, py: int|
                        0 <= px < 64 && 0 <= py < 32 ==> self.canvas@[py * 64 + px] == (fb0[py * 64
                            + px] != #[trigger] hits_upto(
                            mem,
                            gidx,
                            gx0,
                            gy0,
                            row as int,
                            col as int,
                            px,
                            py,
                        )),
                    self.chip8_data.var_registers@ == if collides_upto(
                        fb0,
                        mem,
                        gidx,
                        gx0,
                        gy0,
                        row as int,
                        col as int,
                    ) {
                        regs0.update(15, 1u8)
                    } else {
                        regs0
                    },
                decreases 8 - col,
            {
                let bit: u8 = if col == 0 {
                    byte / 128 % 2
                } else if col == 1 {
                    byte / 64 % 2
                } else if col == 2 {
                    byte / 32 % 2
                } else if col == 3 {
                    byte / 16 % 2
                } else if col == 4 {
                    byte / 8 % 2
                } else if col == 5 {
                    byte / 4 % 2
                } else if col == 6 {
                    byte / 2 % 2
                } else {
                    byte % 2
                };
                proof {
                    assert((bit == 1) == bit_of(byte, col as int));
                }
                if bit == 1 && x0 + col < 64 && y0 + row < 32 {
                    let ghost cur = self.canvas@;
                    let ghost regs_cur = self.chip8_data.var_registers@;
                    let was = self.canvas.invert_pixel(x0 + col, y0 + row);
                    proof {
                        let tx = gx0 + col;
                        let ty = gy0 + row;
                        assert(!hits_upto(mem, gidx, gx0, gy0, row as int, col as int, tx, ty));
                        assert(was == fb0[ty * 64 + tx]);
                        assert(hits_upto(mem, gidx, gx0, gy0, row as int, col as int + 1, tx, ty));
                        assert forall|px: int, py: int|
                            0 <= px < 64 && 0 <= py < 32 implies self.canvas@[py * 64 + px] == (
                        fb0[py * 64 + px] != #[trigger] hits_upto(
                            mem,
                            gidx,
                            gx0,
                            gy0,
                            row as int,
                            col as int + 1,
                            px,
                            py,
                        )) by {
                            if px == tx && py == ty {
                            } else {
                                assert(py * 64 + px != ty * 64 + tx);
                                assert(hits_upto(mem, gidx, gx0, gy0, row as int, col as int + 1, px, py)
                                    == hits_upto(mem, gidx, gx0, gy0, row as int, col as int, px, py));
                            }
                        }
                    }
                    if was {
                        self.chip8_data.var_registers[15] = 1;
                        proof {
                            assert(regs0.update(15, 1u8).update(15, 1u8) =~= regs0.update(15, 1u8));
                            assert(hits_upto(
                                mem,
                                gidx,
                                gx0,
                                gy0,
                                row as int,
                                col as int + 1,
                                gx0 + col,
                                gy0 + row,
                            ) && fb0[(gy0 + row) * 64 + (gx0 + col)]);
                            assert(collides_upto(
                                fb0,
                                mem,
                                gidx,
                                gx0,
                                gy0,
                                row as int,
                                col as int + 1,
                            ));
                        }
                    } else {
                        proof {
                            assert(collides_upto(fb0, mem, gidx, gx0, gy0, row as int, col as int + 1)
                                == collides_upto(fb0, mem, gidx, gx0, gy0, row as int, col as int)) by {
                                if collides_upto(fb0, mem, gidx, gx0, gy0, row as int, col as int + 1) {
                                    let (px, py) = choose|px: int, py: int|
                                        0 <= px < 64 && 0 <= py < 32 && #[trigger] hits_upto(
                                            mem,
                                            gidx,
                                            gx0,
                                            gy0,
                                            row as int,
                                            col as int + 1,
                                            px,
                                            py,
                                        ) && fb0[py * 64 + px];
                                    if px == gx0 + col && py == gy0 + row {
                                        assert(false);
                                    } else {
                                        assert(hits_upto(
                                            mem,
                                            gidx,
                                            gx0,
                                            gy0,
                                            row as int,
                                            col as int,
                                            px,
                                            py,
                                        ));
                                    }
                                }
                                if collides_upto(fb0, mem, gidx, gx0, gy0, row as int, col as int) {
                                    let (px, py) = choose|px: int, py: int|
                                        0 <= px < 64 && 0 <= py < 32 && #[trigger] hits_upto(
                                            mem,
                                            gidx,
                                            gx0,
                                            gy0,
                                            row as int,
                                            col as int,
                                            px,
                                            py,
                                        ) && fb0[py * 64 + px];
                                    assert(hits_upto(
                                        mem,
                                        gidx,
                                        gx0,
                                        gy0,
                                        row as int,
                                        col as int + 1,
                                        px,
                                        py,
                                    ));
                                }
                            }
                        }
                    }
                } else {
                    proof {
                        assert forall|px: int, py: int|
                            0 <= px < 64 && 0 <= py < 32 implies #[trigger] hits_upto(
                            mem,
                            gidx,
                            gx0,
                            gy0,
                            row as int,
                            col as int + 1,
                            px,
                            py,
                        ) == hits_upto(mem, gidx, gx0, gy0, row as int, col as int, px, py) by {
                        }
                        assert(collides_upto(fb0, mem, gidx, gx0, gy0, row as int, col as int + 1)
                            == collides_upto(fb0, mem, gidx, gx0, gy0, row as int, col as int)) by {
                            if collides_upto(fb0, mem, gidx, gx0, gy0, row as int, col as int + 1) {
                                let (px, py) = choose|px: int, py: int|
                                    0 <= px < 64 && 0 <= py < 32 && #[trigger] hits_upto(
                                        mem,
                                        gidx,
                                        gx0,
                                        gy0,
                                        row as int,
                                        col as int + 1,
                                        px,
                                        py,
                                    ) && fb0[py * 64 + px];
                                assert(hits_upto(mem, gidx, gx0, gy0, row as int, col as int, px, py));
                            }
                            if collides_upto(fb0, mem, gidx, gx0, gy0, row as int, col as int) {
                                let (px, py) = choose|px: int, py: int|
                                    0 <= px < 64 && 0 <= py < 32 && #[trigger] hits_upto(
                                        mem,
                                        gidx,
                                        gx0,
                                        gy0,
                                        row as int,
                                        col as int,
                                        px,
                                        py,
                                    ) && fb0[py * 64 + px];
                                assert(hits_upto(mem, gidx, gx0, gy0, row as int, col as int + 1, px, py));
                            }
                        }
                    }
                }
                col = col + 1;
            }
            proof {
                assert forall|px: int, py: int|
                    0 <= px < 64 && 0 <= py < 32 implies self.canvas@[py * 64 + px] == (fb0[py * 64
                    + px] != #[trigger] hits_upto(
                    mem,
                    gidx,
                    gx0,
                    gy0,
                    row as int + 1,
                    0,
                    px,
                    py,
                )) by {
                    assert(self.canvas@[py * 64 + px] == (fb0[py * 64 + px] != hits_upto(
                        mem,
                        gidx,
                        gx0,
                        gy0,
                        row as int,
                        8,
                        px,
                        py,
                    )));
                }
                assert(collides_upto(fb0, mem, gidx, gx0, gy0, row as int, 8) == collides_upto(
                    fb0,
                    mem,
                    gidx,
                    gx0,
                    gy0,
                    row as int + 1,
                    0,
                )) by {
                    if collides_upto(fb0, mem, gidx, gx0, gy0, row as int, 8) {
                        let (px, py) = choose|px: int, py: int|
                            0 <= px < 64 && 0 <= py < 32 && #[trigger] hits_upto(
                                mem,
                                gidx,
                                gx0,
                                gy0,
                                row as int,
                                8,
                                px,
                                py,
                            ) && fb0[py * 64 + px];
                        assert(hits_upto(mem, gidx, gx0, gy0, row as int + 1, 0, px, py));
                    }
                    if collides_upto(fb0, mem, gidx, gx0, gy0, row as int + 1, 0) {
                        let (px, py) = choose|px: int, py: int|
                            0 <= px < 64 && 0 <= py < 32 && #[trigger] hits_upto(
                                mem,
                                gidx,
                                gx0,
                                gy0,
                                row as int + 1,
                                0,
                                px,
                                py,
                            ) && fb0[py * 64 + px];
                        assert(hits_upto(mem, gidx, gx0, gy0, row as int, 8, px, py));
                    }
                }
            }
            row = row + 1;
        }
        proof {
            assert forall|px: int, py: int|
                0 <= px < 64 && 0 <= py < 32 implies #[trigger] hits_upto(
                mem,
                gidx,
                gx0,
                gy0,
                n as int,
                0,
                px,
                py,
            ) == draw_hits(mem, gidx, gx0, gy0, n as int, px, py) by {}
            assert forall|px: int, py: int|
                0 <= px < 64 && 0 <= py < 32 implies self.canvas@[py * 64 + px] == (fb0[py * 64
                + px] != #[trigger] draw_hits(mem, gidx, gx0, gy0, n as int, px, py)) by {
                assert(self.canvas@[py * 64 + px] == (fb0[py * 64 + px] != hits_upto(
                    mem,
                    gidx,
                    gx0,
                    gy0,
                    n as int,
                    0,
                    px,
                    py,
                )));
            }
            assert(draw_collides(fb0, mem, gidx, gx0, gy0, n as int) == collides_upto(
                fb0,
                mem,
                gidx,
                gx0,
                gy0,
                n as int,
                0,
            )) by {
                if draw_collides(fb0, mem, gidx, gx0, gy0, n as int) {
                    let (px, py) = choose|px: int, py: int|
                        0 <= px < 64 && 0 <= py < 32 && #[trigger] draw_hits(
                            mem,
                            gidx,
                            gx0,
                            gy0,
                            n as int,
                            px,
                            py,
                        ) && fb0[py * 64 + px];
                    assert(hits_upto(mem, gidx, gx0, gy0, n as int, 0, px, py));
                    assert(collides_upto(fb0, mem, gidx, gx0, gy0, n as int, 0));
                }
                if collides_upto(fb0, mem, gidx, gx0, gy0, n as int, 0) {
                    let (px, py) = choose|px: int, py: int|
                        0 <= px < 64 && 0 <= py < 32 && #[trigger] hits_upto(
                            mem,
                            gidx,
                            gx0,
                            gy0,
                            n as int,
                            0,
                            px,
                            py,
                        ) && fb0[py * 64 + px];
                    assert(draw_hits(mem, gidx, gx0, gy0, n as int, px, py));
                    assert(draw_collides(fb0, mem, gidx, gx0, gy0, n as int));
                }
            }
        }
    }
}

} // verus!
