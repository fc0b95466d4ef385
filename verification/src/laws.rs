//! Machine-wide laws: facts that relate several instructions or several
//! cycles, proved from the transition relations alone.

use vstd::prelude::*;
use crate::cpu::{CPU, Chip8Error, op_family, op_x, op_nn, op_nnn, NUM_KEYS};
use crate::step::{
    cycle_rel, fetch_ok_rel, step_rel, subroutine_call_rel, subroutine_return_rel, get_key_rel,
    update_timers_rel, word_at, first_pressed, lemma_first_pressed_props,
};

verus! {

/// Which words the call and the miscellaneous families cover.
proof fn lemma_op_family_window(op: u16)
    by (bit_vector)
    ensures
        op_family(op) == 0x2 <==> 0x2000 <= op < 0x3000,
        op_family(op) == 0xF <==> 0xF000 <= op,
{
}

/// Call/return round trip: when the word at the program counter is a call
/// and the called address holds a return, two cycles bring the program
/// counter to exactly the instruction after the call.
pub proof fn lemma_call_return_round_trip(s0: CPU, s1: CPU, s2: CPU)
    requires
        s0.wf(),
        cycle_rel(s0, s1, Ok::<(), Chip8Error>(())),
        cycle_rel(s1, s2, Ok::<(), Chip8Error>(())),
        op_family(word_at(s0.mem@, s0.pc as int)) == 0x2,
        word_at(s0.mem@, op_nnn(word_at(s0.mem@, s0.pc as int)) as int) == 0x00EE,
    ensures
        s2.pc == s0.pc + 2,
{
    let opc = word_at(s0.mem@, s0.pc as int);
    lemma_op_family_window(opc);
    let mid1 = choose|mid: CPU|
        fetch_ok_rel(s0, mid) && step_rel(mid, s1, Ok::<(), Chip8Error>(()));
    assert(subroutine_call_rel(mid1, s1, Ok::<(), Chip8Error>(())));
    assert(s1.stack@[s0.sp as int] == s0.pc + 2);
    let mid2 = choose|mid: CPU|
        fetch_ok_rel(s1, mid) && step_rel(mid, s2, Ok::<(), Chip8Error>(()));
    assert(mid2.opcode == 0x00EE);
    assert(subroutine_return_rel(mid2, s2, Ok::<(), Chip8Error>(())));
    assert(s2.pc == mid2.stack@[mid2.sp - 1]);
}

/// Timer saturation: a tick never carries a timer below zero; one already
/// at zero stays there.
pub proof fn lemma_timer_saturation(pre: CPU, post: CPU)
    requires
        update_timers_rel(pre, post),
    ensures
        pre.delay_timer == 0 ==> post.delay_timer == 0,
        pre.sound_timer == 0 ==> post.sound_timer == 0,
{
}

/// Key-wait liveness, stalled half: while no key is pressed, a cycle that
/// fetches the key-wait instruction changes nothing but the latched opcode;
/// in particular the program counter stays put, so the same instruction is
/// fetched again on the next cycle.
pub proof fn lemma_key_wait_stalls(pre: CPU, post: CPU)
    requires
        pre.wf(),
        cycle_rel(pre, post, Ok::<(), Chip8Error>(())),
        op_family(word_at(pre.mem@, pre.pc as int)) == 0xF,
        op_nn(word_at(pre.mem@, pre.pc as int)) == 0x0A,
        forall|k: int| 0 <= k < NUM_KEYS ==> !pre.keys@[k],
    ensures
        post.pc == pre.pc,
        post.regs@ == pre.regs@,
        post.mem@ == pre.mem@,
        post.keys@ == pre.keys@,
        post.gfx@ == pre.gfx@,
        post.stack@ == pre.stack@,
        post.sp == pre.sp,
        post.i == pre.i,
        post.delay_timer == pre.delay_timer,
        post.sound_timer == pre.sound_timer,
        post.ignore_keypress == pre.ignore_keypress,
{
    let opc = word_at(pre.mem@, pre.pc as int);
    lemma_op_family_window(opc);
    let mid = choose|mid: CPU|
        fetch_ok_rel(pre, mid) && step_rel(mid, post, Ok::<(), Chip8Error>(()));
    assert(get_key_rel(mid, post));
    lemma_first_pressed_props(pre.keys@);
}

/// Key-wait liveness over a whole run of cycles: while no key is pressed,
/// any number of consecutive cycles at the key-wait instruction leaves the
/// program counter (and the rest of the visible state) unchanged every
/// time, so the wait can end the moment the driver reports a press.
pub proof fn lemma_key_wait_stalls_many(states: Seq<CPU>)
    requires
        states.len() >= 1,
        states[0].wf(),
        op_family(word_at(states[0].mem@, states[0].pc as int)) == 0xF,
        op_nn(word_at(states[0].mem@, states[0].pc as int)) == 0x0A,
        forall|k: int| 0 <= k < NUM_KEYS ==> !states[0].keys@[k],
        forall|t: int|
            #![trigger states[t]]
            0 <= t < states.len() - 1 ==> cycle_rel(
                states[t],
                states[t + 1],
                Ok::<(), Chip8Error>(()),
            ),
    ensures
        forall|t: int| #![trigger states[t]] 0 <= t < states.len() ==> states[t].pc == states[0].pc,
        forall|t: int|
            #![trigger states[t]]
            0 <= t < states.len() ==> states[t].regs@ == states[0].regs@,
        forall|t: int|
            #![trigger states[t]]
            0 <= t < states.len() ==> states[t].mem@ == states[0].mem@,
        forall|t: int|
            #![trigger states[t]]
            0 <= t < states.len() ==> states[t].keys@ == states[0].keys@,
        forall|t: int|
            #![trigger states[t]]
            0 <= t < states.len() ==> states[t].ignore_keypress == states[0].ignore_keypress,
    decreases states.len(),
{
    if states.len() >= 2 {
        lemma_key_wait_stalls(states[0], states[1]);
        assert(states[1].wf());
        let rest = states.subrange(1, states.len() as int);
        assert(rest[0] == states[1]);
        assert forall|t: int|
            #![trigger rest[t]]
            0 <= t < rest.len() - 1 implies cycle_rel(
            rest[t],
            rest[t + 1],
            Ok::<(), Chip8Error>(()),
        ) by {
            assert(rest[t] == states[t + 1]);
            assert(rest[t + 1] == states[t + 2]);
        }
        lemma_key_wait_stalls_many(rest);
        assert forall|t: int|
            #![trigger states[t]]
            0 <= t < states.len() implies states[t].pc == states[0].pc && states[t].regs@
            == states[0].regs@ && states[t].mem@ == states[0].mem@ && states[t].keys@ == states[
            0].keys@ && states[t].ignore_keypress == states[0].ignore_keypress by {
            if t >= 1 {
                assert(rest[t - 1] == states[t]);
            }
        }
    }
}

/// Key-wait liveness, advancing half: with an unconsumed key press
/// pending, the cycle that fetches the key-wait instruction advances the
/// program counter past it, stores the lowest pressed key's index in VX,
/// and raises the latch.
pub proof fn lemma_key_wait_advances(pre: CPU, post: CPU)
    requires
        pre.wf(),
        cycle_rel(pre, post, Ok::<(), Chip8Error>(())),
        op_family(word_at(pre.mem@, pre.pc as int)) == 0xF,
        op_nn(word_at(pre.mem@, pre.pc as int)) == 0x0A,
        !pre.ignore_keypress,
        exists|k: int| 0 <= k < NUM_KEYS && pre.keys@[k],
    ensures
        post.pc == pre.pc + 2,
        0 <= first_pressed(pre.keys@) < NUM_KEYS,
        pre.keys@[first_pressed(pre.keys@)],
        forall|j: int| 0 <= j < first_pressed(pre.keys@) ==> !pre.keys@[j],
        post.regs@ == pre.regs@.update(
            op_x(word_at(pre.mem@, pre.pc as int)) as int,
            first_pressed(pre.keys@) as u8,
        ),
        post.ignore_keypress,
        post.mem@ == pre.mem@,
        post.keys@ == pre.keys@,
{
    let opc = word_at(pre.mem@, pre.pc as int);
    lemma_op_family_window(opc);
    let mid = choose|mid: CPU|
        fetch_ok_rel(pre, mid) && step_rel(mid, post, Ok::<(), Chip8Error>(()));
    assert(get_key_rel(mid, post));
    lemma_first_pressed_props(pre.keys@);
}

} // verus!
