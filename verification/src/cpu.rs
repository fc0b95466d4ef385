//! The interpreter core: machine state, instruction decoding and execution.
//!
//! The machine owns 4096 bytes of memory, sixteen 8-bit registers V0..VF,
//! a sixteen-entry call stack, an index register, a program counter, two
//! timers, a 64x32 monochrome display buffer and a sixteen-key keypad.
//! Every instruction is a 16-bit big-endian word; the top nibble selects
//! the instruction family.

use vstd::prelude::*;
use crate::step::{
    same_but_mem, same_but_regs, same_but_gfx, same_but_keys, clear_screen_rel, subroutine_return_rel, jump_rel, subroutine_call_rel,
    skip_if_rel, skip_if_not_rel, skip_if_xy_eq_rel, skip_if_xy_neq_rel, set_immediate_rel,
    add_immediate_rel, set_rel, or_rel, and_rel, xor_rel, add_rel, sub_xy_rel, sub_yx_rel,
    right_shift_rel, left_shift_rel, set_i_immediate_rel, jump_offset_rel, set_rand_rel,
    skip_if_key_rel, skip_if_not_key_rel, get_delay_rel, get_key_rel, set_delay_rel,
    set_sound_rel, add_i_rel, get_char_rel, store_bcd_rel, reg_dump_rel, reg_load_rel,
    draw_sprite_rel, step_rel, fetch_ok_rel, cycle_rel, update_timers_rel,
    lemma_first_pressed_at, lemma_first_pressed_none,
};
use crate::display::{
    pixel_index, pixel_row, sprite_bit, sprite_hits, pix_before, drawn_prefix, untouched_prefix,
    collision_prefix, lemma_pixel_index_injective,
};

verus! {

/// Total bytes of addressable memory (addresses 0x000..0xFFF).
pub const MEM_SIZE: usize = 0x1000;
/// Address at which a loaded program begins.
pub const ROM_START: usize = 0x200;
/// Largest program that fits between `ROM_START` and the end of memory.
pub const ROM_SIZE: usize = MEM_SIZE - ROM_START;
/// Display width in pixels.
pub const GFX_COLS: usize = 64;
/// Display height in pixels.
pub const GFX_ROWS: usize = 32;
/// Number of pixels in the display buffer.
pub const GFX_SIZE: usize = GFX_COLS * GFX_ROWS;
/// Address of the built-in font table.
pub const FONT_LOC: usize = 0x50;
/// Bytes per font glyph (one byte per row).
pub const FONT_NUM_ROWS: usize = 5;
/// Number of general-purpose registers.
pub const NUM_REGS: usize = 16;
/// Number of keypad keys.
pub const NUM_KEYS: usize = 16;
/// Call-stack capacity.
pub const STACK_SIZE: usize = 16;
/// Total bytes of the font table: sixteen glyphs of `FONT_NUM_ROWS` bytes.
pub const FONT_BYTES: usize = FONT_NUM_ROWS * 16;

/// Why an instruction cycle (or a program load) failed.
///
/// `InvalidOpcode` is raised by the dispatcher when a fetched word matches no
/// known instruction pattern. `MemoryFault` is this implementation's explicit
/// policy for every address computed outside memory: a call with the stack
/// full, a return with the stack empty, an index-register-relative access
/// past the end of memory, a fetch past the end of memory, and a key index
/// outside the keypad. `LoadError` is raised when a program exceeds the
/// loadable capacity. A failed instruction leaves the machine unchanged.
#[derive(Clone, Copy, Debug, PartialEq, Eq, Structural)]
pub enum Chip8Error {
    InvalidOpcode,
    MemoryFault,
    LoadError,
}

/// Flatten display coordinates to an index into the display buffer
/// (row-major: `y * GFX_COLS + x`).
pub fn coords_to_index(x: u8, y: u8) -> (r: usize)
    ensures
        r == y * GFX_COLS + x,
{
    (y as usize * GFX_COLS) + x as usize
}

/// The inverse of [`coords_to_index`]: recover `(x, y)` from a buffer index.
pub fn index_to_coords(i: u16) -> (r: (usize, usize))
    ensures
        r.0 == (i as usize) % GFX_COLS,
        r.1 == (i as usize) / GFX_COLS,
{
    (
        i as usize % GFX_COLS,
        i as usize / GFX_COLS,
    )
}

/// The machine state: registers, memory, stack, timers, display and keypad.
pub struct CPU {
    /// The most recently fetched instruction word (big-endian).
    pub opcode: u16,
    /// Flat byte memory; the font table lives at `FONT_LOC`, programs at `ROM_START`.
    pub mem: Vec<u8>,
    /// General-purpose registers V0..VF. VF doubles as the flags output of
    /// arithmetic, shift and draw instructions.
    pub regs: Vec<u8>,
    /// Keypad state: `true` while the key is held down.
    pub keys: Vec<bool>,
    /// Display buffer, row-major, `true` for a lit pixel.
    pub gfx: Vec<bool>,
    /// Call stack holding return addresses.
    pub stack: Vec<u16>,
    /// Stack pointer: number of active stack entries (0..=STACK_SIZE).
    pub sp: u8,
    /// Index register, addressing memory for sprite, BCD and bulk transfers.
    pub i: u16,
    /// Program counter.
    pub pc: u16,
    /// Delay timer, decremented toward zero at the timer cadence.
    pub delay_timer: u8,
    /// Sound timer; a tone plays while it is nonzero.
    pub sound_timer: u8,
    /// Edge-trigger latch for the key-wait instruction: set once a press has
    /// been consumed, cleared by the driver when the key is released.
    pub ignore_keypress: bool,
}

impl CPU {
    /// The machine's structural invariant: every fixed-size store has its
    /// fixed size, and the stack pointer stays within the stack.
    pub open spec fn wf(self) -> bool {
        &&& self.mem@.len() == MEM_SIZE
        &&& self.regs@.len() == NUM_REGS
        &&& self.keys@.len() == NUM_KEYS
        &&& self.gfx@.len() == GFX_SIZE
        &&& self.stack@.len() == STACK_SIZE
        &&& self.sp <= STACK_SIZE
    }
}

/// Top nibble of an instruction word: the instruction family.
pub open spec fn op_family(op: u16) -> u16 {
    op >> 12
}

/// Second nibble: the index of register VX.
pub open spec fn op_x(op: u16) -> u16 {
    (op & 0xF00) >> 8
}

/// Third nibble: the index of register VY.
pub open spec fn op_y(op: u16) -> u16 {
    (op & 0xF0) >> 4
}

/// Low nibble: a 4-bit immediate.
pub open spec fn op_n(op: u16) -> u8 {
    (op & 0xF) as u8
}

/// Low byte: an 8-bit immediate.
pub open spec fn op_nn(op: u16) -> u8 {
    (op & 0xFF) as u8
}

/// Low twelve bits: an address immediate.
pub open spec fn op_nnn(op: u16) -> u16 {
    op & 0xFFF
}

/// Ranges of the operand fields of an instruction word.
pub proof fn lemma_op_bounds(op: u16)
    by (bit_vector)
    ensures
        op_family(op) < 16,
        op_x(op) < 16,
        op_y(op) < 16,
        op_n(op) < 16,
        op_nnn(op) < 0x1000,
{
}

/// The register VX named by the current opcode.
pub open spec fn reg_x(pre: CPU) -> u8 {
    pre.regs@[op_x(pre.opcode) as int]
}

/// The register VY named by the current opcode.
pub open spec fn reg_y(pre: CPU) -> u8 {
    pre.regs@[op_y(pre.opcode) as int]
}

impl CPU {
    /// Index of register VX, read from the current opcode.
    pub fn nibble2_usize(&self) -> (r: usize)
        ensures
            r == op_x(self.opcode) as usize,
            r < NUM_REGS,
    {
        proof {
            lemma_op_bounds(self.opcode);
        }
        ((self.opcode & 0xF00) >> 8) as usize
    }

    /// Index of register VY, read from the current opcode.
    pub fn nibble3_usize(&self) -> (r: usize)
        ensures
            r == op_y(self.opcode) as usize,
            r < NUM_REGS,
    {
        proof {
            lemma_op_bounds(self.opcode);
        }
        ((self.opcode & 0xF0) >> 4) as usize
    }

    /// Value of register VX, read through the current opcode.
    pub fn nibble2_reg(&self) -> (r: u8)
        requires
            self.wf(),
        ensures
            r == reg_x(*self),
    {
        let idx = self.nibble2_usize();
        self.regs[idx]
    }

    /// Value of register VY, read through the current opcode.
    pub fn nibble3_reg(&self) -> (r: u8)
        requires
            self.wf(),
        ensures
            r == reg_y(*self),
    {
        let idx = self.nibble3_usize();
        self.regs[idx]
    }

    /// The current opcode's 4-bit immediate.
    pub fn lower_4_val(&self) -> (r: u8)
        ensures
            r == op_n(self.opcode),
    {
        (self.opcode & 0xF) as u8
    }

    /// The current opcode's 8-bit immediate.
    pub fn lower_8_val(&self) -> (r: u8)
        ensures
            r == op_nn(self.opcode),
    {
        (self.opcode & 0xFF) as u8
    }

    /// The current opcode's 12-bit address immediate.
    pub fn lower_12_val(&self) -> (r: u16)
        ensures
            r == op_nnn(self.opcode),
    {
        self.opcode & 0xFFF
    }
}

/// The built-in font table: sixteen 8x5 glyphs for the hex digits 0..=F,
/// one byte per row, stored in memory at `FONT_LOC`.
pub open spec fn font_sprites() -> Seq<u8> {
    seq![
        0xF0u8, 0x90, 0x90, 0x90, 0xF0, // 0
        0x20, 0x60, 0x20, 0x20, 0x70, // 1
        0xF0, 0x10, 0xF0, 0x80, 0xF0, // 2
        0xF0, 0x10, 0xF0, 0x10, 0xF0, // 3
        0x90, 0x90, 0xF0, 0x10, 0x10, // 4
        0xF0, 0x80, 0xF0, 0x10, 0xF0, // 5
        0xF0, 0x80, 0xF0, 0x90, 0xF0, // 6
        0xF0, 0x10, 0x20, 0x40, 0x40, // 7
        0xF0, 0x90, 0xF0, 0x90, 0xF0, // 8
        0xF0, 0x90, 0xF0, 0x10, 0xF0, // 9
        0xF0, 0x90, 0xF0, 0x90, 0x90, // A
        0xE0, 0x90, 0xE0, 0x90, 0xE0, // B
        0xF0, 0x80, 0x80, 0x80, 0xF0, // C
        0xE0, 0x90, 0x90, 0x90, 0xE0, // D
        0xF0, 0x80, 0xF0, 0x80, 0xF0, // E
        0xF0, 0x80, 0xF0, 0x80, 0x80, // F
    ]
}

/// A vector holding `len` copies of `val`.
fn filled_vec<T: Copy>(val: T, len: usize) -> (v: Vec<T>)
    ensures
        v@.len() == len,
        forall|j: int| 0 <= j < len ==> v@[j] == val,
{
    let mut v: Vec<T> = Vec::new();
    let mut k: usize = 0;
    while k < len
        invariant
            k <= len,
            v@.len() == k,
            forall|j: int| 0 <= j < k ==> v@[j] == val,
        decreases len - k,
    {
        v.push(val);
        k = k + 1;
    }
    v
}

/// Append one five-row glyph to a font table under construction.
fn push_glyph(v: &mut Vec<u8>, r0: u8, r1: u8, r2: u8, r3: u8, r4: u8)
    ensures
        final(v)@ == old(v)@ + seq![r0, r1, r2, r3, r4],
{
    v.push(r0);
    v.push(r1);
    v.push(r2);
    v.push(r3);
    v.push(r4);
    proof {
        assert(v@ =~= old(v)@ + seq![r0, r1, r2, r3, r4]);
    }
}

/// The font table as bytes, glyph by glyph.
fn font_data() -> (v: Vec<u8>)
    ensures
        v@ == font_sprites(),
{
    let mut v: Vec<u8> = Vec::new();
    push_glyph(&mut v, 0xF0, 0x90, 0x90, 0x90, 0xF0); // 0
    push_glyph(&mut v, 0x20, 0x60, 0x20, 0x20, 0x70); // 1
    push_glyph(&mut v, 0xF0, 0x10, 0xF0, 0x80, 0xF0); // 2
    push_glyph(&mut v, 0xF0, 0x10, 0xF0, 0x10, 0xF0); // 3
    push_glyph(&mut v, 0x90, 0x90, 0xF0, 0x10, 0x10); // 4
    push_glyph(&mut v, 0xF0, 0x80, 0xF0, 0x10, 0xF0); // 5
    push_glyph(&mut v, 0xF0, 0x80, 0xF0, 0x90, 0xF0); // 6
    push_glyph(&mut v, 0xF0, 0x10, 0x20, 0x40, 0x40); // 7
    push_glyph(&mut v, 0xF0, 0x90, 0xF0, 0x90, 0xF0); // 8
    push_glyph(&mut v, 0xF0, 0x90, 0xF0, 0x10, 0xF0); // 9
    push_glyph(&mut v, 0xF0, 0x90, 0xF0, 0x90, 0x90); // A
    push_glyph(&mut v, 0xE0, 0x90, 0xE0, 0x90, 0xE0); // B
    push_glyph(&mut v, 0xF0, 0x80, 0x80, 0x80, 0xF0); // C
    push_glyph(&mut v, 0xE0, 0x90, 0x90, 0x90, 0xE0); // D
    push_glyph(&mut v, 0xF0, 0x80, 0xF0, 0x80, 0xF0); // E
    push_glyph(&mut v, 0xF0, 0x80, 0xF0, 0x80, 0x80); // F
    proof {
        assert(v@ =~= font_sprites());
    }
    v
}

impl CPU {
    /// A fresh machine: cleared registers, stack, keypad, display and
    /// timers, the program counter at `ROM_START`, and the font table
    /// loaded at `FONT_LOC`; all other memory is zero.
    pub fn new() -> (cpu: CPU)
        ensures
            cpu.wf(),
            cpu.opcode == 0,
            cpu.sp == 0,
            cpu.i == 0,
            cpu.pc == ROM_START,
            cpu.delay_timer == 0,
            cpu.sound_timer == 0,
            !cpu.ignore_keypress,
            forall|k: int| 0 <= k < NUM_REGS ==> cpu.regs@[k] == 0u8,
            forall|k: int| 0 <= k < NUM_KEYS ==> !cpu.keys@[k],
            forall|j: int| 0 <= j < GFX_SIZE ==> !cpu.gfx@[j],
            forall|k: int| 0 <= k < STACK_SIZE ==> cpu.stack@[k] == 0u16,
            forall|a: int|
                FONT_LOC <= a < FONT_LOC + FONT_BYTES ==> cpu.mem@[a] == font_sprites()[
                    a - FONT_LOC
                ],
            forall|a: int|
                0 <= a < MEM_SIZE && !(FONT_LOC <= a < FONT_LOC + FONT_BYTES) ==> cpu.mem@[a]
                    == 0u8,
    {
        let mut cpu = CPU {
            opcode: 0,
            mem: filled_vec(0u8, MEM_SIZE),
            regs: filled_vec(0u8, NUM_REGS),
            keys: filled_vec(false, NUM_KEYS),
            gfx: filled_vec(false, GFX_SIZE),
            stack: filled_vec(0u16, STACK_SIZE),
            sp: 0,
            i: 0,
            pc: ROM_START as u16,
            delay_timer: 0,
            sound_timer: 0,
            ignore_keypress: false,
        };
        cpu.load_font();
        cpu
    }

    /// Copy the font table into memory at `FONT_LOC`; nothing else changes.
    pub fn load_font(&mut self)
        requires
            old(self).wf(),
        ensures
            final(self).wf(),
            same_but_mem(*old(self), *final(self)),
            final(self).mem@.len() == old(self).mem@.len(),
            forall|a: int|
                FONT_LOC <= a < FONT_LOC + FONT_BYTES ==> final(self).mem@[a] == font_sprites()[
                    a - FONT_LOC
                ],
            forall|a: int|
                0 <= a < MEM_SIZE && !(FONT_LOC <= a < FONT_LOC + FONT_BYTES)
                    ==> final(self).mem@[a] == old(self).mem@[a],
    {
        let font = font_data();
        let mut k: usize = 0;
        while k < FONT_BYTES
            invariant
                old(self).wf(),
                self.wf(),
                k <= FONT_BYTES,
                font@ == font_sprites(),
                same_but_mem(*old(self), *self),
                forall|a: int|
                    FONT_LOC <= a < FONT_LOC + k ==> self.mem@[a] == font_sprites()[a - FONT_LOC],
                forall|a: int|
                    0 <= a < MEM_SIZE && !(FONT_LOC <= a < FONT_LOC + k)
                        ==> self.mem@[a] == old(self).mem@[a],
            decreases FONT_BYTES - k,
        {
            self.mem[FONT_LOC + k] = font[k];
            k = k + 1;
        }
    }

    /// 00E0: clear the display.
    pub fn clear_screen(&mut self)
        requires
            old(self).wf(),
        ensures
            final(self).wf(),
            clear_screen_rel(*old(self), *final(self)),
    {
        self.gfx = filled_vec(false, GFX_SIZE);
        proof {
            assert(self.gfx@ =~= Seq::new(GFX_SIZE as nat, |j: int| false));
        }
    }

    /// 00EE: return from a subroutine.
    pub fn subroutine_return(&mut self) -> (r: Result<(), Chip8Error>)
        requires
            old(self).wf(),
        ensures
            final(self).wf(),
            subroutine_return_rel(*old(self), *final(self), r),
    {
        if self.sp == 0 {
            return Err(Chip8Error::MemoryFault);
        }
        self.sp = self.sp - 1;
        self.pc = self.stack[self.sp as usize];
        Ok(())
    }

    /// 1NNN (and legacy 0NNN): jump to the address immediate.
    pub fn jump(&mut self)
        requires
            old(self).wf(),
        ensures
            final(self).wf(),
            jump_rel(*old(self), *final(self)),
    {
        self.pc = self.lower_12_val();
    }

    /// 2NNN: call the subroutine at the address immediate.
    pub fn subroutine_call(&mut self) -> (r: Result<(), Chip8Error>)
        requires
            old(self).wf(),
        ensures
            final(self).wf(),
            subroutine_call_rel(*old(self), *final(self), r),
    {
        if self.sp as usize >= STACK_SIZE {
            return Err(Chip8Error::MemoryFault);
        }
        self.stack[self.sp as usize] = self.pc;
        self.pc = self.lower_12_val();
        self.sp = self.sp + 1;
        Ok(())
    }

    /// 3XNN: skip the next instruction when VX equals the immediate.
    pub fn skip_if(&mut self)
        requires
            old(self).wf(),
            old(self).pc + 2 <= u16::MAX,
        ensures
            final(self).wf(),
            skip_if_rel(*old(self), *final(self)),
    {
        if self.nibble2_reg() == self.lower_8_val() {
            self.pc = self.pc + 2;
        }
    }

    /// 4XNN: skip the next instruction when VX differs from the immediate.
    pub fn skip_if_not(&mut self)
        requires
            old(self).wf(),
            old(self).pc + 2 <= u16::MAX,
        ensures
            final(self).wf(),
            skip_if_not_rel(*old(self), *final(self)),
    {
        if self.nibble2_reg() != self.lower_8_val() {
            self.pc = self.pc + 2;
        }
    }

    /// 5XY0: skip the next instruction when VX equals VY.
    pub fn skip_if_xy_eq(&mut self)
        requires
            old(self).wf(),
            old(self).pc + 2 <= u16::MAX,
        ensures
            final(self).wf(),
            skip_if_xy_eq_rel(*old(self), *final(self)),
    {
        if self.nibble2_reg() == self.nibble3_reg() {
            self.pc = self.pc + 2;
        }
    }

    /// 9XY0: skip the next instruction when VX differs from VY.
    pub fn skip_if_xy_neq(&mut self)
        requires
            old(self).wf(),
            old(self).pc + 2 <= u16::MAX,
        ensures
            final(self).wf(),
            skip_if_xy_neq_rel(*old(self), *final(self)),
    {
        if self.nibble2_reg() != self.nibble3_reg() {
            self.pc = self.pc + 2;
        }
    }

    /// 6XNN: set VX to the immediate.
    pub fn set_immediate(&mut self)
        requires
            old(self).wf(),
        ensures
            final(self).wf(),
            set_immediate_rel(*old(self), *final(self)),
    {
        let xi = self.nibble2_usize();
        let nn = self.lower_8_val();
        self.regs[xi] = nn;
    }

    /// 7XNN: add the immediate to VX, wrapping at 8 bits; no flag effect.
    pub fn add_immediate(&mut self)
        requires
            old(self).wf(),
        ensures
            final(self).wf(),
            add_immediate_rel(*old(self), *final(self)),
    {
        let val = self.nibble2_reg().wrapping_add(self.lower_8_val());
        let xi = self.nibble2_usize();
        self.regs[xi] = val;
    }

    /// 8XY0: set VX to VY.
    pub fn set(&mut self)
        requires
            old(self).wf(),
        ensures
            final(self).wf(),
            set_rel(*old(self), *final(self)),
    {
        let val = self.nibble3_reg();
        let xi = self.nibble2_usize();
        self.regs[xi] = val;
    }

    /// 8XY1: set VX to VX | VY.
    pub fn or(&mut self)
        requires
            old(self).wf(),
        ensures
            final(self).wf(),
            or_rel(*old(self), *final(self)),
    {
        let val = self.nibble2_reg() | self.nibble3_reg();
        let xi = self.nibble2_usize();
        self.regs[xi] = val;
    }

    /// 8XY2: set VX to VX & VY.
    pub fn and(&mut self)
        requires
            old(self).wf(),
        ensures
            final(self).wf(),
            and_rel(*old(self), *final(self)),
    {
        let val = self.nibble2_reg() & self.nibble3_reg();
        let xi = self.nibble2_usize();
        self.regs[xi] = val;
    }

    /// 8XY3: set VX to VX ^ VY.
    pub fn xor(&mut self)
        requires
            old(self).wf(),
        ensures
            final(self).wf(),
            xor_rel(*old(self), *final(self)),
    {
        let val = self.nibble2_reg() ^ self.nibble3_reg();
        let xi = self.nibble2_usize();
        self.regs[xi] = val;
    }

    /// 8XY4: add VY into VX, wrapping at 8 bits; VF reports the carry.
    pub fn add(&mut self)
        requires
            old(self).wf(),
        ensures
            final(self).wf(),
            add_rel(*old(self), *final(self)),
    {
        let a = self.nibble2_reg();
        let b = self.nibble3_reg();
        let carry: u8 = if (a as u16) + (b as u16) > 255 {
            1
        } else {
            0
        };
        let val = a.wrapping_add(b);
        self.regs[15] = carry;
        let xi = self.nibble2_usize();
        self.regs[xi] = val;
    }

    /// 8XY5: subtract VY from VX, wrapping at 8 bits; VF reports that no
    /// borrow occurred.
    pub fn sub_xy(&mut self)
        requires
            old(self).wf(),
        ensures
            final(self).wf(),
            sub_xy_rel(*old(self), *final(self)),
    {
        let a = self.nibble2_reg();
        let b = self.nibble3_reg();
        let no_borrow: u8 = if a >= b {
            1
        } else {
            0
        };
        let val = a.wrapping_sub(b);
        self.regs[15] = no_borrow;
        let xi = self.nibble2_usize();
        self.regs[xi] = val;
    }

    /// 8XY7: store VY minus VX into VX, wrapping at 8 bits; VF reports that
    /// no borrow occurred.
    pub fn sub_yx(&mut self)
        requires
            old(self).wf(),
        ensures
            final(self).wf(),
            sub_yx_rel(*old(self), *final(self)),
    {
        let a = self.nibble2_reg();
        let b = self.nibble3_reg();
        let no_borrow: u8 = if b >= a {
            1
        } else {
            0
        };
        let val = b.wrapping_sub(a);
        self.regs[15] = no_borrow;
        let xi = self.nibble2_usize();
        self.regs[xi] = val;
    }

    /// 8XY6: capture the low bit of VX in VF, then shift VX right once.
    pub fn right_shift(&mut self)
        requires
            old(self).wf(),
        ensures
            final(self).wf(),
            right_shift_rel(*old(self), *final(self)),
    {
        let a = self.nibble2_reg();
        proof {
            assert(a & 1 == a % 2) by (bit_vector);
        }
        self.regs[15] = a & 1;
        let cur = self.nibble2_reg();
        proof {
            assert(cur >> 1u8 == cur / 2) by (bit_vector);
        }
        let xi = self.nibble2_usize();
        self.regs[xi] = cur >> 1u8;
    }

    /// 8XYE: capture the high bit of VX in VF, then shift VX left once.
    pub fn left_shift(&mut self)
        requires
            old(self).wf(),
        ensures
            final(self).wf(),
            left_shift_rel(*old(self), *final(self)),
    {
        let a = self.nibble2_reg();
        proof {
            assert(a >> 7u8 == a / 128) by (bit_vector);
        }
        self.regs[15] = a >> 7u8;
        let cur = self.nibble2_reg();
        proof {
            assert(cur << 1u8 == ((cur * 2) % 256) as u8) by (bit_vector);
        }
        let xi = self.nibble2_usize();
        self.regs[xi] = cur << 1u8;
    }

    /// ANNN: set the index register to the address immediate.
    pub fn set_i_immediate(&mut self)
        requires
            old(self).wf(),
        ensures
            final(self).wf(),
            set_i_immediate_rel(*old(self), *final(self)),
    {
        self.i = self.lower_12_val();
    }

    /// BNNN: jump to the address immediate plus V0.
    pub fn jump_offset(&mut self)
        requires
            old(self).wf(),
        ensures
            final(self).wf(),
            jump_offset_rel(*old(self), *final(self)),
    {
        proof {
            lemma_op_bounds(self.opcode);
        }
        self.pc = self.lower_12_val() + self.regs[0] as u16;
    }

    /// FX07: set VX to the delay timer.
    pub fn get_delay(&mut self)
        requires
            old(self).wf(),
        ensures
            final(self).wf(),
            get_delay_rel(*old(self), *final(self)),
    {
        let val = self.delay_timer;
        let xi = self.nibble2_usize();
        self.regs[xi] = val;
    }

    /// FX15: set the delay timer to VX.
    pub fn set_delay(&mut self)
        requires
            old(self).wf(),
        ensures
            final(self).wf(),
            set_delay_rel(*old(self), *final(self)),
    {
        self.delay_timer = self.nibble2_reg();
    }

    /// FX18: set the sound timer to VX.
    pub fn set_sound(&mut self)
        requires
            old(self).wf(),
        ensures
            final(self).wf(),
            set_sound_rel(*old(self), *final(self)),
    {
        self.sound_timer = self.nibble2_reg();
    }

    /// FX1E: add VX to the index register, wrapping at 16 bits.
    pub fn add_i(&mut self)
        requires
            old(self).wf(),
        ensures
            final(self).wf(),
            add_i_rel(*old(self), *final(self)),
    {
        self.i = self.i.wrapping_add(self.nibble2_reg() as u16);
    }

    /// FX29: point the index register at the font glyph named by VX.
    pub fn get_char(&mut self)
        requires
            old(self).wf(),
        ensures
            final(self).wf(),
            get_char_rel(*old(self), *final(self)),
    {
        let offset = self.nibble2_reg().wrapping_mul(FONT_NUM_ROWS as u8);
        self.i = FONT_LOC as u16 + offset as u16;
    }

    /// CXNN: set VX to a random byte masked with the immediate.
    pub fn set_rand(&mut self)
        requires
            old(self).wf(),
        ensures
            final(self).wf(),
            set_rand_rel(*old(self), *final(self)),
    {
        let b: u8 = rand::random();
        let nn = self.lower_8_val();
        let xi = self.nibble2_usize();
        self.regs[xi] = b & nn;
    }

    /// EX9E: skip the next instruction when the key indexed by VX is held.
    pub fn skip_if_key(&mut self) -> (r: Result<(), Chip8Error>)
        requires
            old(self).wf(),
            old(self).pc + 2 <= u16::MAX,
        ensures
            final(self).wf(),
            skip_if_key_rel(*old(self), *final(self), r),
    {
        let k = self.nibble2_reg();
        if k as usize >= NUM_KEYS {
            return Err(Chip8Error::MemoryFault);
        }
        if self.keys[k as usize] {
            self.pc = self.pc + 2;
        }
        Ok(())
    }

    /// EXA1: skip the next instruction when the key indexed by VX is not
    /// held.
    pub fn skip_if_not_key(&mut self) -> (r: Result<(), Chip8Error>)
        requires
            old(self).wf(),
            old(self).pc + 2 <= u16::MAX,
        ensures
            final(self).wf(),
            skip_if_not_key_rel(*old(self), *final(self), r),
    {
        let k = self.nibble2_reg();
        if k as usize >= NUM_KEYS {
            return Err(Chip8Error::MemoryFault);
        }
        if !self.keys[k as usize] {
            self.pc = self.pc + 2;
        }
        Ok(())
    }

    /// FX0A: the blocking key wait. The program counter is first rewound
    /// past this instruction; only a fresh key press (lowest index first)
    /// advances it again, stores the key in VX and raises the latch.
    ///
    /// The caller guarantees `pc >= 2`: the instruction was just fetched,
    /// so the program counter sits past it.
    #[verifier::loop_isolation(false)]
    pub fn get_key(&mut self)
        requires
            old(self).wf(),
            old(self).pc >= 2,
        ensures
            final(self).wf(),
            get_key_rel(*old(self), *final(self)),
    {
        self.pc = self.pc - 2;
        if self.ignore_keypress {
            return;
        }
        let ghost snap = *self;
        let mut k: usize = 0;
        while k < NUM_KEYS
            invariant
                *self == snap,
                snap.wf(),
                k <= NUM_KEYS,
                forall|j: int| 0 <= j < k ==> !snap.keys@[j],
            decreases NUM_KEYS - k,
        {
            if self.keys[k] {
                proof {
                    lemma_first_pressed_at(self.keys@, k as int);
                }
                self.pc = self.pc + 2;
                let xi = self.nibble2_usize();
                self.regs[xi] = k as u8;
                self.ignore_keypress = true;
                return;
            }
            k = k + 1;
        }
        proof {
            lemma_first_pressed_none(self.keys@);
        }
    }

    /// FX33: store the decimal digits of VX at the index register.
    pub fn store_bcd(&mut self) -> (r: Result<(), Chip8Error>)
        requires
            old(self).wf(),
        ensures
            final(self).wf(),
            store_bcd_rel(*old(self), *final(self), r),
    {
        if self.i as usize + 3 > MEM_SIZE {
            return Err(Chip8Error::MemoryFault);
        }
        let v = self.nibble2_reg();
        let base = self.i as usize;
        self.mem[base] = v / 100;
        self.mem[base + 1] = (v % 100) / 10;
        self.mem[base + 2] = v % 10;
        Ok(())
    }

    /// FX55: copy registers V0..=VX to memory at the index register.
    pub fn reg_dump(&mut self) -> (r: Result<(), Chip8Error>)
        requires
            old(self).wf(),
        ensures
            final(self).wf(),
            reg_dump_rel(*old(self), *final(self), r),
    {
        let x = self.nibble2_usize();
        if self.i as usize + x + 1 > MEM_SIZE {
            return Err(Chip8Error::MemoryFault);
        }
        let base = self.i as usize;
        let mut k: usize = 0;
        while k <= x
            invariant
                old(self).wf(),
                self.wf(),
                same_but_mem(*old(self), *self),
                k <= x + 1,
                x == op_x(old(self).opcode) as usize,
                x < NUM_REGS,
                base == old(self).i,
                base + x + 1 <= MEM_SIZE,
                forall|a: int|
                    base <= a < base + k ==> self.mem@[a] == old(self).regs@[a - base],
                forall|a: int|
                    0 <= a < MEM_SIZE && !(base <= a < base + k)
                        ==> self.mem@[a] == old(self).mem@[a],
            decreases x + 1 - k,
        {
            self.mem[base + k] = self.regs[k];
            k = k + 1;
        }
        Ok(())
    }

    /// FX65: load registers V0..=VX from memory at the index register.
    pub fn reg_load(&mut self) -> (r: Result<(), Chip8Error>)
        requires
            old(self).wf(),
        ensures
            final(self).wf(),
            reg_load_rel(*old(self), *final(self), r),
    {
        let x = self.nibble2_usize();
        if self.i as usize + x + 1 > MEM_SIZE {
            return Err(Chip8Error::MemoryFault);
        }
        let base = self.i as usize;
        let mut k: usize = 0;
        while k <= x
            invariant
                old(self).wf(),
                self.wf(),
                same_but_regs(*old(self), *self),
                k <= x + 1,
                x == op_x(old(self).opcode) as usize,
                x < NUM_REGS,
                base == old(self).i,
                base + x + 1 <= MEM_SIZE,
                forall|kk: int| 0 <= kk < k ==> self.regs@[kk] == old(self).mem@[base + kk],
                forall|kk: int| k <= kk < NUM_REGS ==> self.regs@[kk] == old(self).regs@[kk],
            decreases x + 1 - k,
        {
            self.regs[k] = self.mem[base + k];
            k = k + 1;
        }
        Ok(())
    }

    /// The 8 pixels of one sprite row, read from memory at `addr`,
    /// most-significant bit first.
    pub fn fetch_sprite_row(&self, addr: usize) -> (row: Vec<bool>)
        requires
            self.wf(),
            addr < MEM_SIZE,
        ensures
            row@.len() == 8,
            forall|c: int| 0 <= c < 8 ==> row@[c] == sprite_bit(self.mem@[addr as int], c),
    {
        let b = self.mem[addr];
        let mut row: Vec<bool> = Vec::new();
        let mut c: usize = 0;
        while c < 8
            invariant
                c <= 8,
                row@.len() == c,
                b == self.mem@[addr as int],
                forall|cc: int| 0 <= cc < c ==> row@[cc] == sprite_bit(b, cc),
            decreases 8 - c,
        {
            let sh: u8 = (7 - c) as u8;
            row.push((b >> sh) & 1 == 1);
            c = c + 1;
        }
        row
    }

    /// DXYN: draw an 8-pixel-wide, N-row sprite at origin (VX mod 64,
    /// VY mod 32) by XORing its bits into the display; both coordinates
    /// wrap around their edge per pixel. VF reports whether any lit pixel
    /// was turned off. The index register is not modified.
    #[verifier::loop_isolation(false)]
    #[verifier::rlimit(60)]
    pub fn draw_sprite(&mut self) -> (r: Result<(), Chip8Error>)
        requires
            old(self).wf(),
        ensures
            final(self).wf(),
            draw_sprite_rel(*old(self), *final(self), r),
    {
        proof {
            lemma_op_bounds(self.opcode);
        }
        let height = self.lower_4_val();
        if self.i as usize + height as usize > MEM_SIZE {
            return Err(Chip8Error::MemoryFault);
        }
        let vx = self.nibble2_reg() % (GFX_COLS as u8);
        let vy = self.nibble3_reg() % (GFX_ROWS as u8);
        let base = self.i as usize;
        let ghost gfx0 = self.gfx@;
        let ghost m = self.mem@;
        let ghost vxi = vx as int;
        let ghost vyi = vy as int;
        let ghost ii = self.i as int;
        let mut collision = false;
        let mut row: u8 = 0;
        while row < height
            invariant
                self.wf(),
                same_but_gfx(*old(self), *self),
                row <= height,
                drawn_prefix(gfx0, m, ii, vxi, vyi, 8 * row as int, self.gfx@),
                untouched_prefix(gfx0, vxi, vyi, 8 * row as int, self.gfx@),
                collision == collision_prefix(gfx0, m, ii, vxi, vyi, 8 * row as int),
            decreases height - row,
        {
            let row_bits = self.fetch_sprite_row(base + row as usize);
            let wy = (vy + row) % (GFX_ROWS as u8);
            let mut col: u8 = 0;
            while col < 8
                invariant
                    self.wf(),
                    same_but_gfx(*old(self), *self),
                    col <= 8,
                    row < height,
                    row_bits@.len() == 8,
                    forall|c: int| 0 <= c < 8 ==> row_bits@[c] == sprite_bit(m[ii + row], c),
                    wy == pixel_row(vyi, row as int),
                    drawn_prefix(gfx0, m, ii, vxi, vyi, 8 * row as int + col as int, self.gfx@),
                    untouched_prefix(gfx0, vxi, vyi, 8 * row as int + col as int, self.gfx@),
                    collision == collision_prefix(
                        gfx0,
                        m,
                        ii,
                        vxi,
                        vyi,
                        8 * row as int + col as int,
                    ),
                decreases 8 - col,
            {
                let ghost p: int = 8 * row as int + col as int;
                let bit = row_bits[col as usize];
                let wx = (vx + col) % (GFX_COLS as u8);
                let j = coords_to_index(wx, wy);
                proof {
                    assert(j == pixel_index(vxi, vyi, row as int, col as int));
                    // no earlier sprite pixel has landed on this cell
                    assert(!(exists|rr: int, cc: int|
                        0 <= rr && 0 <= cc < 8 && pix_before(p, rr, cc) && j == pixel_index(
                            vxi,
                            vyi,
                            rr,
                            cc,
                        ))) by {
                        if exists|rr: int, cc: int|
                            0 <= rr && 0 <= cc < 8 && pix_before(p, rr, cc) && j == pixel_index(
                                vxi,
                                vyi,
                                rr,
                                cc,
                            ) {
                            let (rr, cc) = choose|rr: int, cc: int|
                                0 <= rr && 0 <= cc < 8 && pix_before(p, rr, cc) && j
                                    == pixel_index(vxi, vyi, rr, cc);
                            lemma_pixel_index_injective(
                                vxi,
                                vyi,
                                rr,
                                cc,
                                row as int,
                                col as int,
                            );
                        }
                    }
                }
                let pix = self.gfx[j];
                proof {
                    assert(pix == gfx0[j as int]);
                }
                self.gfx[j] = pix ^ bit;
                if bit && pix {
                    collision = true;
                }
                proof {
                    assert(drawn_prefix(gfx0, m, ii, vxi, vyi, p + 1, self.gfx@)) by {
                        assert forall|rr: int, cc: int|
                            0 <= rr && 0 <= cc < 8 && pix_before(p + 1, rr, cc)
                                implies self.gfx@[#[trigger] pixel_index(vxi, vyi, rr, cc)] == (
                            gfx0[pixel_index(vxi, vyi, rr, cc)] ^ sprite_bit(m[ii + rr], cc)) by {
                            if rr != row as int || cc != col as int {
                                if pixel_index(vxi, vyi, rr, cc) == j {
                                    lemma_pixel_index_injective(
                                        vxi,
                                        vyi,
                                        rr,
                                        cc,
                                        row as int,
                                        col as int,
                                    );
                                }
                            }
                        }
                    }
                    assert(untouched_prefix(gfx0, vxi, vyi, p + 1, self.gfx@)) by {
                        assert forall|jj: int|
                            0 <= jj < GFX_SIZE && !(exists|rr: int, cc: int|
                                0 <= rr && 0 <= cc < 8 && pix_before(p + 1, rr, cc) && jj
                                    == pixel_index(vxi, vyi, rr, cc))
                                implies self.gfx@[jj] == gfx0[jj] by {
                            assert(pix_before(p + 1, row as int, col as int));
                            assert(jj != j);
                        }
                    }
                    assert(collision == collision_prefix(gfx0, m, ii, vxi, vyi, p + 1)) by {
                        if collision_prefix(gfx0, m, ii, vxi, vyi, p + 1) {
                            let (rr, cc) = choose|rr: int, cc: int|
                                0 <= rr && 0 <= cc < 8 && pix_before(p + 1, rr, cc)
                                    && sprite_bit(m[ii + rr], cc) && gfx0[pixel_index(
                                    vxi,
                                    vyi,
                                    rr,
                                    cc,
                                )];
                            if pix_before(p, rr, cc) {
                                assert(collision_prefix(gfx0, m, ii, vxi, vyi, p));
                            } else {
                                assert(rr == row as int && cc == col as int);
                            }
                        }
                    }
                }
                col = col + 1;
            }
            row = row + 1;
        }
        let flag: u8 = if collision {
            1
        } else {
            0
        };
        self.regs[15] = flag;
        proof {
            let pre = *old(self);
            let n = op_n(pre.opcode) as int;
            assert forall|rr: int, cc: int| 0 <= rr < n && 0 <= cc < 8 implies self.gfx@[
                #[trigger] pixel_index(vxi, vyi, rr, cc)] == (gfx0[pixel_index(vxi, vyi, rr, cc)]
                ^ sprite_bit(m[ii + rr], cc)) by {
                assert(pix_before(8 * n, rr, cc));
            }
            assert forall|j: int|
                0 <= j < GFX_SIZE && !(exists|rr: int, cc: int|
                    sprite_hits(vxi, vyi, n, j, rr, cc)) implies self.gfx@[j] == gfx0[j] by {
                if exists|rr: int, cc: int|
                    0 <= rr && 0 <= cc < 8 && pix_before(8 * n, rr, cc) && j == pixel_index(
                        vxi,
                        vyi,
                        rr,
                        cc,
                    ) {
                    let (rr, cc) = choose|rr: int, cc: int|
                        0 <= rr && 0 <= cc < 8 && pix_before(8 * n, rr, cc) && j == pixel_index(
                            vxi,
                            vyi,
                            rr,
                            cc,
                        );
                    assert(sprite_hits(vxi, vyi, n, j, rr, cc));
                }
            }
            let coll_spec = exists|rr: int, cc: int|
                0 <= rr < n && 0 <= cc < 8 && sprite_bit(pre.mem@[pre.i + rr], cc)
                    && pre.gfx@[#[trigger] pixel_index(vxi, vyi, rr, cc)];
            assert(collision == coll_spec) by {
                if collision {
                    let (rr, cc) = choose|rr: int, cc: int|
                        0 <= rr && 0 <= cc < 8 && pix_before(8 * n, rr, cc) && sprite_bit(
                            m[ii + rr],
                            cc,
                        ) && gfx0[pixel_index(vxi, vyi, rr, cc)];
                    assert(0 <= rr < n && 0 <= cc < 8 && sprite_bit(pre.mem@[pre.i + rr], cc)
                        && pre.gfx@[pixel_index(vxi, vyi, rr, cc)]);
                } else {
                    if coll_spec {
                        let (rr, cc) = choose|rr: int, cc: int|
                            0 <= rr < n && 0 <= cc < 8 && sprite_bit(pre.mem@[pre.i + rr], cc)
                                && pre.gfx@[pixel_index(vxi, vyi, rr, cc)];
                        assert(pix_before(8 * n, rr, cc));
                        assert(collision_prefix(gfx0, m, ii, vxi, vyi, 8 * n));
                    }
                }
            }
        }
        Ok(())
    }

    /// Read the instruction word at the program counter into the opcode
    /// register and advance the program counter past it. A fetch past the
    /// end of memory is a memory fault.
    pub fn fetch(&mut self) -> (r: Result<(), Chip8Error>)
        requires
            old(self).wf(),
        ensures
            final(self).wf(),
            old(self).pc + 1 < MEM_SIZE ==> r is Ok && fetch_ok_rel(*old(self), *final(self)),
            old(self).pc + 1 >= MEM_SIZE ==> r == Err::<(), Chip8Error>(Chip8Error::MemoryFault)
                && *final(self) == *old(self),
    {
        if self.pc as usize + 1 >= MEM_SIZE {
            return Err(Chip8Error::MemoryFault);
        }
        let hi = self.mem[self.pc as usize];
        let lo = self.mem[self.pc as usize + 1];
        proof {
            assert((hi as u16) << 8u16 | (lo as u16) == hi as u16 * 256 + lo as u16)
                by (bit_vector);
        }
        self.opcode = (hi as u16) << 8u16 | (lo as u16);
        self.pc = self.pc + 2;
        Ok(())
    }

    /// Decode the current opcode and run the instruction it names.
    ///
    /// The caller guarantees the program counter sits just past the fetched
    /// instruction: at least 2 (the key wait rewinds by 2) and small enough
    /// that a conditional skip cannot overflow it.
    pub fn execute(&mut self) -> (r: Result<(), Chip8Error>)
        requires
            old(self).wf(),
            2 <= old(self).pc,
            old(self).pc + 2 <= u16::MAX,
        ensures
            final(self).wf(),
            step_rel(*old(self), *final(self), r),
    {
        proof {
            lemma_op_bounds(self.opcode);
        }
        let op = self.opcode;
        if op == 0x00E0 {
            self.clear_screen();
            Ok(())
        } else if op == 0x00EE {
            self.subroutine_return()
        } else {
            let fam = op >> 12u16;
            if fam == 0x0 || fam == 0x1 {
                self.jump();
                Ok(())
            } else if fam == 0x2 {
                self.subroutine_call()
            } else if fam == 0x3 {
                self.skip_if();
                Ok(())
            } else if fam == 0x4 {
                self.skip_if_not();
                Ok(())
            } else if fam == 0x5 {
                if op <= 0x5FF0 {
                    self.skip_if_xy_eq();
                    Ok(())
                } else {
                    Err(Chip8Error::InvalidOpcode)
                }
            } else if fam == 0x6 {
                self.set_immediate();
                Ok(())
            } else if fam == 0x7 {
                self.add_immediate();
                Ok(())
            } else if fam == 0x8 {
                let low = self.lower_4_val();
                if low == 0x0 {
                    self.set();
                    Ok(())
                } else if low == 0x1 {
                    self.or();
                    Ok(())
                } else if low == 0x2 {
                    self.and();
                    Ok(())
                } else if low == 0x3 {
                    self.xor();
                    Ok(())
                } else if low == 0x4 {
                    self.add();
                    Ok(())
                } else if low == 0x5 {
                    self.sub_xy();
                    Ok(())
                } else if low == 0x6 {
                    self.right_shift();
                    Ok(())
                } else if low == 0x7 {
                    self.sub_yx();
                    Ok(())
                } else if low == 0xE {
                    self.left_shift();
                    Ok(())
                } else {
                    Err(Chip8Error::InvalidOpcode)
                }
            } else if fam == 0x9 {
                if op <= 0x9FF0 {
                    self.skip_if_xy_neq();
                    Ok(())
                } else {
                    Err(Chip8Error::InvalidOpcode)
                }
            } else if fam == 0xA {
                self.set_i_immediate();
                Ok(())
            } else if fam == 0xB {
                self.jump_offset();
                Ok(())
            } else if fam == 0xC {
                self.set_rand();
                Ok(())
            } else if fam == 0xD {
                self.draw_sprite()
            } else if fam == 0xE {
                let low = self.lower_8_val();
                if low == 0x9E {
                    self.skip_if_key()
                } else if low == 0xA1 {
                    self.skip_if_not_key()
                } else {
                    Err(Chip8Error::InvalidOpcode)
                }
            } else {
                let low = self.lower_8_val();
                if low == 0x07 {
                    self.get_delay();
                    Ok(())
                } else if low == 0x0A {
                    self.get_key();
                    Ok(())
                } else if low == 0x15 {
                    self.set_delay();
                    Ok(())
                } else if low == 0x18 {
                    self.set_sound();
                    Ok(())
                } else if low == 0x1E {
                    self.add_i();
                    Ok(())
                } else if low == 0x29 {
                    self.get_char();
                    Ok(())
                } else if low == 0x33 {
                    self.store_bcd()
                } else if low == 0x55 {
                    self.reg_dump()
                } else if low == 0x65 {
                    self.reg_load()
                } else {
                    Err(Chip8Error::InvalidOpcode)
                }
            }
        }
    }

    /// One full cycle: fetch the word at the program counter, then execute
    /// it. A fetch past the end of memory is a memory fault that leaves the
    /// machine unchanged.
    pub fn perform_cycle(&mut self) -> (r: Result<(), Chip8Error>)
        requires
            old(self).wf(),
        ensures
            final(self).wf(),
            cycle_rel(*old(self), *final(self), r),
    {
        match self.fetch() {
            Err(e) => Err(e),
            Ok(()) => {
                let ghost mid = *self;
                let r2 = self.execute();
                proof {
                    assert(fetch_ok_rel(*old(self), mid) && step_rel(mid, *self, r2));
                }
                r2
            },
        }
    }

    /// Whether the most recently executed instruction was the draw
    /// instruction; the driver re-renders only then.
    pub fn just_drew(&mut self) -> (r: bool)
        ensures
            *final(self) == *old(self),
            r == (op_family(old(self).opcode) == 0xD),
    {
        let op = self.opcode;
        proof {
            assert((op & 0xF000) >> 12u16 == op >> 12u16) by (bit_vector);
        }
        (op & 0xF000) >> 12u16 == 0xD
    }

    /// Whether a tone should be playing: the sound timer is running.
    pub fn should_play_sound(&self) -> (r: bool)
        ensures
            r == (self.sound_timer > 0),
    {
        self.sound_timer > 0
    }

    /// Record a key press or release reported by the driver.
    pub fn set_key(&mut self, key: usize, state: bool)
        requires
            old(self).wf(),
            key < NUM_KEYS,
        ensures
            final(self).wf(),
            same_but_keys(*old(self), *final(self)),
            final(self).keys@ == old(self).keys@.update(key as int, state),
    {
        self.keys[key] = state;
    }

    /// Move both timers one step toward zero; they saturate at zero.
    pub fn update_timers(&mut self)
        requires
            old(self).wf(),
        ensures
            final(self).wf(),
            update_timers_rel(*old(self), *final(self)),
    {
        self.delay_timer = self.delay_timer.saturating_sub(1);
        self.sound_timer = self.sound_timer.saturating_sub(1);
    }

    /// Load a program: its bytes are copied verbatim to `ROM_START`, the
    /// rest of memory is left as it is. A program longer than `ROM_SIZE`
    /// is refused and nothing changes.
    pub fn load_rom(&mut self, rom: &Vec<u8>) -> (r: Result<(), Chip8Error>)
        requires
            old(self).wf(),
        ensures
            final(self).wf(),
            rom@.len() > ROM_SIZE ==> r == Err::<(), Chip8Error>(Chip8Error::LoadError)
                && *final(self) == *old(self),
            rom@.len() <= ROM_SIZE ==> {
                &&& r is Ok
                &&& same_but_mem(*old(self), *final(self))
                &&& forall|k: int|
                        0 <= k < rom@.len() ==> final(self).mem@[ROM_START + k] == rom@[k]
                &&& forall|a: int|
                        0 <= a < MEM_SIZE && !(ROM_START <= a < ROM_START + rom@.len())
                            ==> final(self).mem@[a] == old(self).mem@[a]
            },
    {
        if rom.len() > ROM_SIZE {
            return Err(Chip8Error::LoadError);
        }
        let mut k: usize = 0;
        while k < rom.len()
            invariant
                old(self).wf(),
                self.wf(),
                same_but_mem(*old(self), *self),
                k <= rom@.len(),
                rom@.len() <= ROM_SIZE,
                forall|kk: int| 0 <= kk < k ==> self.mem@[ROM_START + kk] == rom@[kk],
                forall|a: int|
                    0 <= a < MEM_SIZE && !(ROM_START <= a < ROM_START + k)
                        ==> self.mem@[a] == old(self).mem@[a],
            decreases rom@.len() - k,
        {
            self.mem[ROM_START + k] = rom[k];
            k = k + 1;
        }
        Ok(())
    }

    /// The display buffer, for the driver to render.
    pub fn get_gfx(&self) -> (g: &Vec<bool>)
        ensures
            g@ == self.gfx@,
    {
        &self.gfx
    }
}

} // verus!
