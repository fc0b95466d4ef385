//! Transition relations: one spec predicate per instruction, relating the
//! machine state before an instruction to the state after it.
//!
//! Each predicate pins down every field of the machine: the fields an
//! instruction writes are given their new values, and a frame predicate
//! (`same_but_*`) states that every other field is unchanged. The dispatcher
//! relation [`step_rel`] selects the predicate that the fetched opcode names,
//! and [`cycle_rel`] composes a fetch with it.

use vstd::prelude::*;
use crate::cpu::{CPU, Chip8Error};
use crate::cpu::{op_family, op_x, op_y, op_n, op_nn, op_nnn, reg_x, reg_y};
use crate::cpu::{MEM_SIZE, GFX_COLS, GFX_ROWS, GFX_SIZE, FONT_LOC, FONT_NUM_ROWS, NUM_KEYS};
use crate::display::{pixel_index, sprite_bit, sprite_hits};

verus! {

/// Everything except the register file is unchanged.
pub open spec fn same_but_regs(pre: CPU, post: CPU) -> bool {
    &&& post.opcode == pre.opcode
    &&& post.mem@ == pre.mem@
    &&& post.keys@ == pre.keys@
    &&& post.gfx@ == pre.gfx@
    &&& post.stack@ == pre.stack@
    &&& post.sp == pre.sp
    &&& post.i == pre.i
    &&& post.pc == pre.pc
    &&& post.delay_timer == pre.delay_timer
    &&& post.sound_timer == pre.sound_timer
    &&& post.ignore_keypress == pre.ignore_keypress
}

/// Everything except the program counter is unchanged.
pub open spec fn same_but_pc(pre: CPU, post: CPU) -> bool {
    &&& post.opcode == pre.opcode
    &&& post.mem@ == pre.mem@
    &&& post.regs@ == pre.regs@
    &&& post.keys@ == pre.keys@
    &&& post.gfx@ == pre.gfx@
    &&& post.stack@ == pre.stack@
    &&& post.sp == pre.sp
    &&& post.i == pre.i
    &&& post.delay_timer == pre.delay_timer
    &&& post.sound_timer == pre.sound_timer
    &&& post.ignore_keypress == pre.ignore_keypress
}

/// Everything except the index register is unchanged.
pub open spec fn same_but_i(pre: CPU, post: CPU) -> bool {
    &&& post.opcode == pre.opcode
    &&& post.mem@ == pre.mem@
    &&& post.regs@ == pre.regs@
    &&& post.keys@ == pre.keys@
    &&& post.gfx@ == pre.gfx@
    &&& post.stack@ == pre.stack@
    &&& post.sp == pre.sp
    &&& post.pc == pre.pc
    &&& post.delay_timer == pre.delay_timer
    &&& post.sound_timer == pre.sound_timer
    &&& post.ignore_keypress == pre.ignore_keypress
}

/// Everything except memory is unchanged.
pub open spec fn same_but_mem(pre: CPU, post: CPU) -> bool {
    &&& post.opcode == pre.opcode
    &&& post.regs@ == pre.regs@
    &&& post.keys@ == pre.keys@
    &&& post.gfx@ == pre.gfx@
    &&& post.stack@ == pre.stack@
    &&& post.sp == pre.sp
    &&& post.i == pre.i
    &&& post.pc == pre.pc
    &&& post.delay_timer == pre.delay_timer
    &&& post.sound_timer == pre.sound_timer
    &&& post.ignore_keypress == pre.ignore_keypress
}

/// Everything except the display buffer is unchanged.
pub open spec fn same_but_gfx(pre: CPU, post: CPU) -> bool {
    &&& post.opcode == pre.opcode
    &&& post.mem@ == pre.mem@
    &&& post.regs@ == pre.regs@
    &&& post.keys@ == pre.keys@
    &&& post.stack@ == pre.stack@
    &&& post.sp == pre.sp
    &&& post.i == pre.i
    &&& post.pc == pre.pc
    &&& post.delay_timer == pre.delay_timer
    &&& post.sound_timer == pre.sound_timer
    &&& post.ignore_keypress == pre.ignore_keypress
}

/// Everything except the display buffer and the register file is unchanged.
pub open spec fn same_but_gfx_regs(pre: CPU, post: CPU) -> bool {
    &&& post.opcode == pre.opcode
    &&& post.mem@ == pre.mem@
    &&& post.keys@ == pre.keys@
    &&& post.stack@ == pre.stack@
    &&& post.sp == pre.sp
    &&& post.i == pre.i
    &&& post.pc == pre.pc
    &&& post.delay_timer == pre.delay_timer
    &&& post.sound_timer == pre.sound_timer
    &&& post.ignore_keypress == pre.ignore_keypress
}

/// Everything except the stack, the stack pointer and the program counter
/// is unchanged.
pub open spec fn same_but_stack_sp_pc(pre: CPU, post: CPU) -> bool {
    &&& post.opcode == pre.opcode
    &&& post.mem@ == pre.mem@
    &&& post.regs@ == pre.regs@
    &&& post.keys@ == pre.keys@
    &&& post.gfx@ == pre.gfx@
    &&& post.delay_timer == pre.delay_timer
    &&& post.sound_timer == pre.sound_timer
    &&& post.ignore_keypress == pre.ignore_keypress
}

/// Everything except the two timers is unchanged.
pub open spec fn same_but_timers(pre: CPU, post: CPU) -> bool {
    &&& post.opcode == pre.opcode
    &&& post.mem@ == pre.mem@
    &&& post.regs@ == pre.regs@
    &&& post.keys@ == pre.keys@
    &&& post.gfx@ == pre.gfx@
    &&& post.stack@ == pre.stack@
    &&& post.sp == pre.sp
    &&& post.i == pre.i
    &&& post.pc == pre.pc
    &&& post.ignore_keypress == pre.ignore_keypress
}

/// Everything except the register file, the program counter and the
/// key-wait latch is unchanged.
pub open spec fn same_but_regs_pc_ignore(pre: CPU, post: CPU) -> bool {
    &&& post.opcode == pre.opcode
    &&& post.mem@ == pre.mem@
    &&& post.keys@ == pre.keys@
    &&& post.gfx@ == pre.gfx@
    &&& post.stack@ == pre.stack@
    &&& post.sp == pre.sp
    &&& post.i == pre.i
    &&& post.delay_timer == pre.delay_timer
    &&& post.sound_timer == pre.sound_timer
}

/// Everything except the keypad is unchanged.
pub open spec fn same_but_keys(pre: CPU, post: CPU) -> bool {
    &&& post.opcode == pre.opcode
    &&& post.mem@ == pre.mem@
    &&& post.regs@ == pre.regs@
    &&& post.gfx@ == pre.gfx@
    &&& post.stack@ == pre.stack@
    &&& post.sp == pre.sp
    &&& post.i == pre.i
    &&& post.pc == pre.pc
    &&& post.delay_timer == pre.delay_timer
    &&& post.sound_timer == pre.sound_timer
    &&& post.ignore_keypress == pre.ignore_keypress
}

/// Everything except the fetched opcode and the program counter is unchanged.
pub open spec fn same_but_opcode_pc(pre: CPU, post: CPU) -> bool {
    &&& post.mem@ == pre.mem@
    &&& post.regs@ == pre.regs@
    &&& post.keys@ == pre.keys@
    &&& post.gfx@ == pre.gfx@
    &&& post.stack@ == pre.stack@
    &&& post.sp == pre.sp
    &&& post.i == pre.i
    &&& post.delay_timer == pre.delay_timer
    &&& post.sound_timer == pre.sound_timer
    &&& post.ignore_keypress == pre.ignore_keypress
}

/// The 16-bit big-endian instruction word stored at address `pc`.
pub open spec fn word_at(mem: Seq<u8>, pc: int) -> u16 {
    (mem[pc] * 256 + mem[pc + 1]) as u16
}

/// 00E0: the whole display is cleared.
pub open spec fn clear_screen_rel(pre: CPU, post: CPU) -> bool {
    &&& same_but_gfx(pre, post)
    &&& post.gfx@ == Seq::new(GFX_SIZE as nat, |j: int| false)
}

/// 00EE: the stack pointer is decremented and the program counter restored
/// from the popped slot; a return with no active call is a memory fault.
pub open spec fn subroutine_return_rel(pre: CPU, post: CPU, r: Result<(), Chip8Error>) -> bool {
    if pre.sp >= 1 {
        &&& r is Ok
        &&& same_but_stack_sp_pc(pre, post)
        &&& post.stack@ == pre.stack@
        &&& post.sp == pre.sp - 1
        &&& post.pc == pre.stack@[pre.sp - 1]
    } else {
        &&& r == Err::<(), Chip8Error>(Chip8Error::MemoryFault)
        &&& post == pre
    }
}

/// 1NNN (and legacy 0NNN): the program counter is set to the address
/// immediate.
pub open spec fn jump_rel(pre: CPU, post: CPU) -> bool {
    &&& same_but_pc(pre, post)
    &&& post.pc == op_nnn(pre.opcode)
}

/// 2NNN: the post-fetch program counter is pushed and control moves to the
/// address immediate; a call with the stack full is a memory fault.
pub open spec fn subroutine_call_rel(pre: CPU, post: CPU, r: Result<(), Chip8Error>) -> bool {
    if pre.sp < 16 {
        &&& r is Ok
        &&& same_but_stack_sp_pc(pre, post)
        &&& post.stack@ == pre.stack@.update(pre.sp as int, pre.pc)
        &&& post.sp == pre.sp + 1
        &&& post.pc == op_nnn(pre.opcode)
    } else {
        &&& r == Err::<(), Chip8Error>(Chip8Error::MemoryFault)
        &&& post == pre
    }
}

/// 3XNN: the next instruction is skipped when VX equals the immediate.
pub open spec fn skip_if_rel(pre: CPU, post: CPU) -> bool {
    &&& same_but_pc(pre, post)
    &&& post.pc == pre.pc + (if reg_x(pre) == op_nn(pre.opcode) { 2int } else { 0int })
}

/// 4XNN: the next instruction is skipped when VX differs from the immediate.
pub open spec fn skip_if_not_rel(pre: CPU, post: CPU) -> bool {
    &&& same_but_pc(pre, post)
    &&& post.pc == pre.pc + (if reg_x(pre) != op_nn(pre.opcode) { 2int } else { 0int })
}

/// 5XY0: the next instruction is skipped when VX equals VY.
pub open spec fn skip_if_xy_eq_rel(pre: CPU, post: CPU) -> bool {
    &&& same_but_pc(pre, post)
    &&& post.pc == pre.pc + (if reg_x(pre) == reg_y(pre) { 2int } else { 0int })
}

/// 9XY0: the next instruction is skipped when VX differs from VY.
pub open spec fn skip_if_xy_neq_rel(pre: CPU, post: CPU) -> bool {
    &&& same_but_pc(pre, post)
    &&& post.pc == pre.pc + (if reg_x(pre) != reg_y(pre) { 2int } else { 0int })
}

/// 6XNN: VX is set to the immediate.
pub open spec fn set_immediate_rel(pre: CPU, post: CPU) -> bool {
    &&& same_but_regs(pre, post)
    &&& post.regs@ == pre.regs@.update(op_x(pre.opcode) as int, op_nn(pre.opcode))
}

/// 7XNN: the immediate is added to VX with 8-bit wraparound; no flag effect.
pub open spec fn add_immediate_rel(pre: CPU, post: CPU) -> bool {
    let sum = reg_x(pre) + op_nn(pre.opcode);
    let wrapped: u8 = (if sum > 255 { sum - 256 } else { sum }) as u8;
    &&& same_but_regs(pre, post)
    &&& post.regs@ == pre.regs@.update(op_x(pre.opcode) as int, wrapped)
}

/// 8XY0: VX is set to VY.
pub open spec fn set_rel(pre: CPU, post: CPU) -> bool {
    &&& same_but_regs(pre, post)
    &&& post.regs@ == pre.regs@.update(op_x(pre.opcode) as int, reg_y(pre))
}

/// 8XY1: VX is set to VX | VY.
pub open spec fn or_rel(pre: CPU, post: CPU) -> bool {
    &&& same_but_regs(pre, post)
    &&& post.regs@ == pre.regs@.update(op_x(pre.opcode) as int, reg_x(pre) | reg_y(pre))
}

/// 8XY2: VX is set to VX & VY.
pub open spec fn and_rel(pre: CPU, post: CPU) -> bool {
    &&& same_but_regs(pre, post)
    &&& post.regs@ == pre.regs@.update(op_x(pre.opcode) as int, reg_x(pre) & reg_y(pre))
}

/// 8XY3: VX is set to VX ^ VY.
pub open spec fn xor_rel(pre: CPU, post: CPU) -> bool {
    &&& same_but_regs(pre, post)
    &&& post.regs@ == pre.regs@.update(op_x(pre.opcode) as int, reg_x(pre) ^ reg_y(pre))
}

/// 8XY4: VX is set to VX + VY with 8-bit wraparound; VF is set to 1 exactly
/// when the mathematical sum exceeds 255. The flag is written before the
/// result, so when X is 15 the result wins.
pub open spec fn add_rel(pre: CPU, post: CPU) -> bool {
    let sum = reg_x(pre) + reg_y(pre);
    let wrapped: u8 = (if sum > 255 { sum - 256 } else { sum }) as u8;
    let carry: u8 = if sum > 255 { 1u8 } else { 0u8 };
    &&& same_but_regs(pre, post)
    &&& post.regs@ == pre.regs@.update(15, carry).update(op_x(pre.opcode) as int, wrapped)
}

/// 8XY5: VX is set to VX - VY with 8-bit wraparound; VF is set to 1 exactly
/// when no borrow occurs (VX >= VY).
pub open spec fn sub_xy_rel(pre: CPU, post: CPU) -> bool {
    let diff = reg_x(pre) - reg_y(pre);
    let wrapped: u8 = (if diff < 0 { diff + 256 } else { diff }) as u8;
    let no_borrow: u8 = if reg_x(pre) >= reg_y(pre) { 1u8 } else { 0u8 };
    &&& same_but_regs(pre, post)
    &&& post.regs@ == pre.regs@.update(15, no_borrow).update(op_x(pre.opcode) as int, wrapped)
}

/// 8XY7: VX is set to VY - VX with 8-bit wraparound; VF is set to 1 exactly
/// when no borrow occurs (VY >= VX).
pub open spec fn sub_yx_rel(pre: CPU, post: CPU) -> bool {
    let diff = reg_y(pre) - reg_x(pre);
    let wrapped: u8 = (if diff < 0 { diff + 256 } else { diff }) as u8;
    let no_borrow: u8 = if reg_y(pre) >= reg_x(pre) { 1u8 } else { 0u8 };
    &&& same_but_regs(pre, post)
    &&& post.regs@ == pre.regs@.update(15, no_borrow).update(op_x(pre.opcode) as int, wrapped)
}

/// 8XY6: VF captures the least-significant bit of VX, then VX is shifted
/// right once. The flag is written first, so when X is 15 the shift reads
/// the captured bit.
pub open spec fn right_shift_rel(pre: CPU, post: CPU) -> bool {
    let flagged = pre.regs@.update(15, reg_x(pre) % 2);
    let x = op_x(pre.opcode) as int;
    &&& same_but_regs(pre, post)
    &&& post.regs@ == flagged.update(x, flagged[x] / 2)
}

/// 8XYE: VF captures the most-significant bit of VX, then VX is shifted
/// left once, dropping that bit. The flag is written first, so when X is 15
/// the shift reads the captured bit.
pub open spec fn left_shift_rel(pre: CPU, post: CPU) -> bool {
    let flagged = pre.regs@.update(15, reg_x(pre) / 128);
    let x = op_x(pre.opcode) as int;
    &&& same_but_regs(pre, post)
    &&& post.regs@ == flagged.update(x, ((flagged[x] * 2) % 256) as u8)
}

/// ANNN: the index register is set to the address immediate.
pub open spec fn set_i_immediate_rel(pre: CPU, post: CPU) -> bool {
    &&& same_but_i(pre, post)
    &&& post.i == op_nnn(pre.opcode)
}

/// BNNN: the program counter is set to the address immediate plus V0.
pub open spec fn jump_offset_rel(pre: CPU, post: CPU) -> bool {
    &&& same_but_pc(pre, post)
    &&& post.pc == op_nnn(pre.opcode) + pre.regs@[0]
}

/// CXNN: VX is set to a random byte masked with the immediate. Only the
/// mask effect is promised; the byte itself is whatever the generator gave.
pub open spec fn set_rand_rel(pre: CPU, post: CPU) -> bool {
    &&& same_but_regs(pre, post)
    &&& exists|b: u8|
            post.regs@ == pre.regs@.update(
                op_x(pre.opcode) as int,
                #[trigger] (b & op_nn(pre.opcode)),
            )
}

/// EX9E: the next instruction is skipped when the key indexed by VX is held;
/// a key index outside the keypad is a memory fault.
pub open spec fn skip_if_key_rel(pre: CPU, post: CPU, r: Result<(), Chip8Error>) -> bool {
    if reg_x(pre) < NUM_KEYS {
        &&& r is Ok
        &&& same_but_pc(pre, post)
        &&& post.pc == pre.pc + (if pre.keys@[reg_x(pre) as int] { 2int } else { 0int })
    } else {
        &&& r == Err::<(), Chip8Error>(Chip8Error::MemoryFault)
        &&& post == pre
    }
}

/// EXA1: the next instruction is skipped when the key indexed by VX is not
/// held; a key index outside the keypad is a memory fault.
pub open spec fn skip_if_not_key_rel(pre: CPU, post: CPU, r: Result<(), Chip8Error>) -> bool {
    if reg_x(pre) < NUM_KEYS {
        &&& r is Ok
        &&& same_but_pc(pre, post)
        &&& post.pc == pre.pc + (if !pre.keys@[reg_x(pre) as int] { 2int } else { 0int })
    } else {
        &&& r == Err::<(), Chip8Error>(Chip8Error::MemoryFault)
        &&& post == pre
    }
}

/// FX07: VX is set to the delay timer.
pub open spec fn get_delay_rel(pre: CPU, post: CPU) -> bool {
    &&& same_but_regs(pre, post)
    &&& post.regs@ == pre.regs@.update(op_x(pre.opcode) as int, pre.delay_timer)
}

/// The lowest pressed key at or above index `k`, or `NUM_KEYS` when none is.
pub open spec fn first_pressed_from(keys: Seq<bool>, k: int) -> int
    decreases NUM_KEYS - k,
{
    if k < 0 || k >= NUM_KEYS {
        NUM_KEYS as int
    } else if keys[k] {
        k
    } else {
        first_pressed_from(keys, k + 1)
    }
}

/// The lowest pressed key, or `NUM_KEYS` when none is pressed.
pub open spec fn first_pressed(keys: Seq<bool>) -> int {
    first_pressed_from(keys, 0)
}

proof fn lemma_first_pressed_from_at(keys: Seq<bool>, from: int, k: int)
    requires
        0 <= from <= k < NUM_KEYS,
        keys[k],
        forall|j: int| from <= j < k ==> !keys[j],
    ensures
        first_pressed_from(keys, from) == k,
    decreases k - from,
{
    if from < k {
        lemma_first_pressed_from_at(keys, from + 1, k);
    }
}

proof fn lemma_first_pressed_from_none(keys: Seq<bool>, from: int)
    requires
        0 <= from <= NUM_KEYS,
        forall|j: int| from <= j < NUM_KEYS ==> !keys[j],
    ensures
        first_pressed_from(keys, from) == NUM_KEYS,
    decreases NUM_KEYS - from,
{
    if from < NUM_KEYS {
        lemma_first_pressed_from_none(keys, from + 1);
    }
}

proof fn lemma_first_pressed_from_props(keys: Seq<bool>, from: int)
    requires
        0 <= from <= NUM_KEYS,
    ensures
        from <= first_pressed_from(keys, from) <= NUM_KEYS,
        first_pressed_from(keys, from) < NUM_KEYS ==> keys[first_pressed_from(keys, from)],
        forall|j: int| from <= j < first_pressed_from(keys, from) ==> !keys[j],
        (exists|k: int| from <= k < NUM_KEYS && keys[k]) ==> first_pressed_from(keys, from)
            < NUM_KEYS,
    decreases NUM_KEYS - from,
{
    if from < NUM_KEYS && !keys[from] {
        lemma_first_pressed_from_props(keys, from + 1);
        if exists|k: int| from <= k < NUM_KEYS && keys[k] {
            let k = choose|k: int| from <= k < NUM_KEYS && keys[k];
            assert(from + 1 <= k);
        }
    }
}

/// What the left-to-right scan yields: the lowest pressed key when one is
/// pressed, the keypad size when none is.
pub proof fn lemma_first_pressed_props(keys: Seq<bool>)
    ensures
        0 <= first_pressed(keys) <= NUM_KEYS,
        first_pressed(keys) < NUM_KEYS ==> keys[first_pressed(keys)],
        forall|j: int| 0 <= j < first_pressed(keys) ==> !keys[j],
        (exists|k: int| 0 <= k < NUM_KEYS && keys[k]) ==> first_pressed(keys) < NUM_KEYS,
{
    lemma_first_pressed_from_props(keys, 0);
}

/// The lowest pressed key is where the first left-to-right scan stops.
pub proof fn lemma_first_pressed_at(keys: Seq<bool>, k: int)
    requires
        0 <= k < NUM_KEYS,
        keys[k],
        forall|j: int| 0 <= j < k ==> !keys[j],
    ensures
        first_pressed(keys) == k,
{
    lemma_first_pressed_from_at(keys, 0, k);
}

/// With no key pressed, the scan runs off the end of the keypad.
pub proof fn lemma_first_pressed_none(keys: Seq<bool>)
    requires
        forall|j: int| 0 <= j < NUM_KEYS ==> !keys[j],
    ensures
        first_pressed(keys) == NUM_KEYS,
{
    lemma_first_pressed_from_none(keys, 0);
}

/// FX0A, the blocking key wait. While the latch is raised or no key is
/// pressed, the program counter is rewound past the just-fetched word, so
/// the same instruction repeats on the next cycle. When an unconsumed key
/// press is found, the lowest pressed key's index is stored in VX, the
/// program counter is left pointing past the instruction, and the latch is
/// raised so a held key is consumed only once.
pub open spec fn get_key_rel(pre: CPU, post: CPU) -> bool {
    &&& same_but_regs_pc_ignore(pre, post)
    &&& if pre.ignore_keypress {
            &&& post.pc == pre.pc - 2
            &&& post.regs@ == pre.regs@
            &&& post.ignore_keypress
        } else if first_pressed(pre.keys@) < NUM_KEYS {
            &&& post.pc == pre.pc
            &&& post.regs@ == pre.regs@.update(
                    op_x(pre.opcode) as int,
                    first_pressed(pre.keys@) as u8,
                )
            &&& post.ignore_keypress
        } else {
            &&& post.pc == pre.pc - 2
            &&& post.regs@ == pre.regs@
            &&& !post.ignore_keypress
        }
}

/// FX15: the delay timer is set to VX.
pub open spec fn set_delay_rel(pre: CPU, post: CPU) -> bool {
    &&& same_but_timers(pre, post)
    &&& post.delay_timer == reg_x(pre)
    &&& post.sound_timer == pre.sound_timer
}

/// FX18: the sound timer is set to VX.
pub open spec fn set_sound_rel(pre: CPU, post: CPU) -> bool {
    &&& same_but_timers(pre, post)
    &&& post.delay_timer == pre.delay_timer
    &&& post.sound_timer == reg_x(pre)
}

/// FX1E: VX is added to the index register with 16-bit wraparound.
pub open spec fn add_i_rel(pre: CPU, post: CPU) -> bool {
    let sum = pre.i + reg_x(pre);
    &&& same_but_i(pre, post)
    &&& post.i == (if sum > 0xFFFF { sum - 0x10000 } else { sum }) as u16
}

/// FX29: the index register is pointed at the font glyph selected by VX.
/// The offset multiplication wraps at 8 bits, exactly as the register
/// arithmetic does; for the hex digits 0..=15 this is `FONT_LOC + 5 * VX`.
pub open spec fn get_char_rel(pre: CPU, post: CPU) -> bool {
    &&& same_but_i(pre, post)
    &&& post.i == FONT_LOC + (reg_x(pre) * FONT_NUM_ROWS) % 256
}

/// FX33: the decimal digits of VX (hundreds, tens, ones) are stored at the
/// index register; an access past the end of memory is a memory fault.
pub open spec fn store_bcd_rel(pre: CPU, post: CPU, r: Result<(), Chip8Error>) -> bool {
    if pre.i + 3 <= MEM_SIZE {
        let v = reg_x(pre);
        &&& r is Ok
        &&& same_but_mem(pre, post)
        &&& post.mem@ == pre.mem@
                .update(pre.i as int, (v / 100) as u8)
                .update(pre.i + 1, ((v % 100) / 10) as u8)
                .update(pre.i + 2, (v % 10) as u8)
    } else {
        &&& r == Err::<(), Chip8Error>(Chip8Error::MemoryFault)
        &&& post == pre
    }
}

/// FX55: registers V0..=VX are copied to memory at the index register;
/// an access past the end of memory is a memory fault.
pub open spec fn reg_dump_rel(pre: CPU, post: CPU, r: Result<(), Chip8Error>) -> bool {
    let x = op_x(pre.opcode) as int;
    if pre.i + x + 1 <= MEM_SIZE {
        &&& r is Ok
        &&& same_but_mem(pre, post)
        &&& post.mem@.len() == pre.mem@.len()
        &&& forall|a: int|
                pre.i <= a <= pre.i + x ==> post.mem@[a] == pre.regs@[a - pre.i]
        &&& forall|a: int|
                0 <= a < MEM_SIZE && !(pre.i <= a <= pre.i + x) ==> post.mem@[a] == pre.mem@[a]
    } else {
        &&& r == Err::<(), Chip8Error>(Chip8Error::MemoryFault)
        &&& post == pre
    }
}

/// FX65: registers V0..=VX are loaded from memory at the index register;
/// an access past the end of memory is a memory fault.
pub open spec fn reg_load_rel(pre: CPU, post: CPU, r: Result<(), Chip8Error>) -> bool {
    let x = op_x(pre.opcode) as int;
    if pre.i + x + 1 <= MEM_SIZE {
        &&& r is Ok
        &&& same_but_regs(pre, post)
        &&& post.regs@.len() == pre.regs@.len()
        &&& forall|k: int| 0 <= k <= x ==> post.regs@[k] == pre.mem@[pre.i + k]
        &&& forall|k: int| x < k < 16 ==> post.regs@[k] == pre.regs@[k]
    } else {
        &&& r == Err::<(), Chip8Error>(Chip8Error::MemoryFault)
        &&& post == pre
    }
}

/// DXYN, the sprite draw. The sprite is 8 pixels wide and N rows tall, its
/// rows read from memory at the index register. The origin is (VX mod 64,
/// VY mod 32), and each pixel's destination wraps around both display edges
/// independently. Every sprite bit is XORed into the display; VF reports
/// whether any lit pixel was turned off (the collision flag). Reading rows
/// past the end of memory is a memory fault.
pub open spec fn draw_sprite_rel(pre: CPU, post: CPU, r: Result<(), Chip8Error>) -> bool {
    let n = op_n(pre.opcode) as int;
    if pre.i + n <= MEM_SIZE {
        let vx = reg_x(pre) as int % GFX_COLS as int;
        let vy = reg_y(pre) as int % GFX_ROWS as int;
        let collision = exists|row: int, col: int|
                0 <= row < n && 0 <= col < 8 && sprite_bit(pre.mem@[pre.i + row], col)
                && pre.gfx@[#[trigger] pixel_index(vx, vy, row, col)];
        &&& r is Ok
        &&& same_but_gfx_regs(pre, post)
        &&& post.gfx@.len() == pre.gfx@.len()
        &&& forall|row: int, col: int|
                0 <= row < n && 0 <= col < 8 ==> post.gfx@[#[trigger] pixel_index(vx, vy, row, col)]
                    == (pre.gfx@[pixel_index(vx, vy, row, col)]
                        ^ sprite_bit(pre.mem@[pre.i + row], col))
        &&& forall|j: int|
                0 <= j < GFX_SIZE
                    && !(exists|row: int, col: int| sprite_hits(vx, vy, n, j, row, col))
                    ==> post.gfx@[j] == pre.gfx@[j]
        &&& post.regs@ == pre.regs@.update(15, if collision { 1u8 } else { 0u8 })
    } else {
        &&& r == Err::<(), Chip8Error>(Chip8Error::MemoryFault)
        &&& post == pre
    }
}

/// The opcode matched no known instruction pattern.
pub open spec fn invalid_rel(pre: CPU, post: CPU, r: Result<(), Chip8Error>) -> bool {
    &&& r == Err::<(), Chip8Error>(Chip8Error::InvalidOpcode)
    &&& post == pre
}

/// The dispatcher: which instruction relation the current opcode selects.
///
/// The top nibble names the family. Family 0 is resolved by exact match
/// against the clear-display and subroutine-return codes, every other 0NNN
/// word acting as a legacy jump. Family 8 discriminates on the low nibble,
/// families E and F on the low byte; an unmatched discriminant is an invalid
/// opcode. In families 5 and 9 only words up to x FF0 dispatch; the few
/// above that window are invalid.
pub open spec fn step_rel(pre: CPU, post: CPU, r: Result<(), Chip8Error>) -> bool {
    let op = pre.opcode;
    if op == 0x00E0 {
        r is Ok && clear_screen_rel(pre, post)
    } else if op == 0x00EE {
        subroutine_return_rel(pre, post, r)
    } else if op_family(op) == 0x0 || op_family(op) == 0x1 {
        r is Ok && jump_rel(pre, post)
    } else if op_family(op) == 0x2 {
        subroutine_call_rel(pre, post, r)
    } else if op_family(op) == 0x3 {
        r is Ok && skip_if_rel(pre, post)
    } else if op_family(op) == 0x4 {
        r is Ok && skip_if_not_rel(pre, post)
    } else if op_family(op) == 0x5 {
        if op <= 0x5FF0 {
            r is Ok && skip_if_xy_eq_rel(pre, post)
        } else {
            invalid_rel(pre, post, r)
        }
    } else if op_family(op) == 0x6 {
        r is Ok && set_immediate_rel(pre, post)
    } else if op_family(op) == 0x7 {
        r is Ok && add_immediate_rel(pre, post)
    } else if op_family(op) == 0x8 {
        if op_n(op) == 0x0 {
            r is Ok && set_rel(pre, post)
        } else if op_n(op) == 0x1 {
            r is Ok && or_rel(pre, post)
        } else if op_n(op) == 0x2 {
            r is Ok && and_rel(pre, post)
        } else if op_n(op) == 0x3 {
            r is Ok && xor_rel(pre, post)
        } else if op_n(op) == 0x4 {
            r is Ok && add_rel(pre, post)
        } else if op_n(op) == 0x5 {
            r is Ok && sub_xy_rel(pre, post)
        } else if op_n(op) == 0x6 {
            r is Ok && right_shift_rel(pre, post)
        } else if op_n(op) == 0x7 {
            r is Ok && sub_yx_rel(pre, post)
        } else if op_n(op) == 0xE {
            r is Ok && left_shift_rel(pre, post)
        } else {
            invalid_rel(pre, post, r)
        }
    } else if op_family(op) == 0x9 {
        if op <= 0x9FF0 {
            r is Ok && skip_if_xy_neq_rel(pre, post)
        } else {
            invalid_rel(pre, post, r)
        }
    } else if op_family(op) == 0xA {
        r is Ok && set_i_immediate_rel(pre, post)
    } else if op_family(op) == 0xB {
        r is Ok && jump_offset_rel(pre, post)
    } else if op_family(op) == 0xC {
        r is Ok && set_rand_rel(pre, post)
    } else if op_family(op) == 0xD {
        draw_sprite_rel(pre, post, r)
    } else if op_family(op) == 0xE {
        if op_nn(op) == 0x9E {
            skip_if_key_rel(pre, post, r)
        } else if op_nn(op) == 0xA1 {
            skip_if_not_key_rel(pre, post, r)
        } else {
            invalid_rel(pre, post, r)
        }
    } else {
        if op_nn(op) == 0x07 {
            r is Ok && get_delay_rel(pre, post)
        } else if op_nn(op) == 0x0A {
            r is Ok && get_key_rel(pre, post)
        } else if op_nn(op) == 0x15 {
            r is Ok && set_delay_rel(pre, post)
        } else if op_nn(op) == 0x18 {
            r is Ok && set_sound_rel(pre, post)
        } else if op_nn(op) == 0x1E {
            r is Ok && add_i_rel(pre, post)
        } else if op_nn(op) == 0x29 {
            r is Ok && get_char_rel(pre, post)
        } else if op_nn(op) == 0x33 {
            store_bcd_rel(pre, post, r)
        } else if op_nn(op) == 0x55 {
            reg_dump_rel(pre, post, r)
        } else if op_nn(op) == 0x65 {
            reg_load_rel(pre, post, r)
        } else {
            invalid_rel(pre, post, r)
        }
    }
}

/// A successful fetch: the word at the program counter is latched into the
/// opcode register and the program counter advances past it.
pub open spec fn fetch_ok_rel(pre: CPU, post: CPU) -> bool {
    &&& same_but_opcode_pc(pre, post)
    &&& post.opcode == word_at(pre.mem@, pre.pc as int)
    &&& post.pc == pre.pc + 2
}

/// One full cycle: fetch, then execute what was fetched. A fetch past the
/// end of memory is a memory fault that leaves the machine unchanged.
pub open spec fn cycle_rel(pre: CPU, post: CPU, r: Result<(), Chip8Error>) -> bool {
    if pre.pc + 1 < MEM_SIZE {
        exists|mid: CPU| #[trigger] fetch_ok_rel(pre, mid) && step_rel(mid, post, r)
    } else {
        &&& r == Err::<(), Chip8Error>(Chip8Error::MemoryFault)
        &&& post == pre
    }
}

/// A timer tick: both timers move one step toward zero and saturate there.
pub open spec fn update_timers_rel(pre: CPU, post: CPU) -> bool {
    &&& same_but_timers(pre, post)
    &&& post.delay_timer == (if pre.delay_timer > 0 { pre.delay_timer - 1 } else { 0int })
    &&& post.sound_timer == (if pre.sound_timer > 0 { pre.sound_timer - 1 } else { 0int })
}

} // verus!
