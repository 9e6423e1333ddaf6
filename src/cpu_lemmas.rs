//! What the engine guarantees across operations: the register file, the
//! stack, decoding, and the calling convention.

use vstd::prelude::*;
use crate::cpu::ExecuteError;
use crate::device::Device;
use crate::device::{bytes_read_u16, lemma_word_of_bytes};
use crate::instructions::{
    MOV_LIT_REG, MOV_REG_REG, MOV_REG_MEM, MOV_MEM_REG, ADD_REG_REG, JMP_NOT_EQ, PSH_LIT, PSH_REG,
    POP, CAL_LIT, CAL_REG, RET, HLT,
};
use crate::memory::Memory;
use crate::register::{Register, REGISTER_COUNT};
use crate::semantics::{
    CpuState, wrap16, ip_ord, sp_ord, fp_ord, push_spec, pop_spec, push_all_spec, pop_into_spec,
    pop_n_spec, push_state_spec, pop_state_spec, saved_registers, restore_order, step_spec,
};

verus! {

/// Setting a register and reading it back gives the value set; the other
/// registers keep theirs.
pub proof fn lemma_set_then_get<V>(s: CpuState<V>, r: Register, v: u16)
    requires
        s.registers.len() == REGISTER_COUNT,
    ensures
        s.with_reg(r.ordinal() as int, v).reg(r) == v,
        forall|o: Register| o != r ==> #[trigger] s.with_reg(r.ordinal() as int, v).reg(o) == s.reg(o),
{
    assert forall|o: Register| o != r implies #[trigger] s.with_reg(r.ordinal() as int, v).reg(o)
        == s.reg(o) by {
        crate::register::lemma_ordinal_injective(o, r);
    }
}

/// On plain memory, two pushes and two pops give the values back in reverse
/// order, and leave SP and the frame size as they were. The pushes succeed
/// when both words fit below SP.
pub proof fn lemma_push_pop_lifo(s: CpuState<Seq<u8>>, v1: u16, v2: u16)
    requires
        s.registers.len() == REGISTER_COUNT,
        4 <= s.registers[sp_ord()],
        s.registers[sp_ord()] + 2 <= s.memory.len(),
    ensures
        ({
            let (s1, r1) = push_spec::<Memory>(s, v1);
            let (s2, r2) = push_spec::<Memory>(s1, v2);
            let (s3, r3) = pop_spec::<Memory>(s2);
            let (s4, r4) = pop_spec::<Memory>(s3);
            &&& r1 is Ok
            &&& r2 is Ok
            &&& r3 == Ok::<u16, ExecuteError>(v2)
            &&& r4 == Ok::<u16, ExecuteError>(v1)
            &&& s4.registers == s.registers
            &&& s4.frame_size == s.frame_size
        }),
{
    let sp = s.registers[sp_ord()];
    let (s1, r1) = push_spec::<Memory>(s, v1);
    let (s2, r2) = push_spec::<Memory>(s1, v2);
    let (s3, r3) = pop_spec::<Memory>(s2);
    let (s4, r4) = pop_spec::<Memory>(s3);
    lemma_word_of_bytes(v1);
    lemma_word_of_bytes(v2);
    let f = s.frame_size as int;
    lemma_wrap16_add(f + 2, 2);
    lemma_wrap16_add(f + 4, -2);
    lemma_wrap16_add(f + 2, -2);
    assert(s1.registers[sp_ord()] == sp - 2);
    assert(s2.registers[sp_ord()] == sp - 4);
    assert(s3.registers[sp_ord()] == sp - 2);
    assert(s4.registers[sp_ord()] == sp);
    assert(s4.registers =~= s.registers);
}

/// A byte that names no instruction, fetched as an opcode, ends the step
/// with a decode error that carries it; nothing but IP changes.
pub proof fn lemma_unknown_opcode<D: Device>(s: CpuState<D::V>)
    requires
        s.registers.len() == REGISTER_COUNT,
        D::read_u8_spec(s.memory, s.registers[ip_ord()] as int) is Some,
    ensures
        ({
            let op = D::read_u8_spec(s.memory, s.registers[ip_ord()] as int)->Some_0;
            let known = op == MOV_LIT_REG || op == MOV_REG_REG || op == MOV_REG_MEM || op
                == MOV_MEM_REG || op == ADD_REG_REG || op == JMP_NOT_EQ || op == PSH_LIT || op
                == PSH_REG || op == POP || op == CAL_LIT || op == CAL_REG || op == RET || op == HLT;
            !known && op != 0 ==> step_spec::<D>(s) == (
                s.with_reg(ip_ord(), wrap16(s.registers[ip_ord()] + 1)),
                Err::<bool, ExecuteError>(ExecuteError::UnknownInstruction(op)),
            )
        }),
{
}

/// Adding in two wrapped steps is adding in one.
proof fn lemma_wrap16_add(x: int, y: int)
    ensures
        wrap16(wrap16(x) + y) == wrap16(x + y),
{
    assert((((x % 0x10000) + y) % 0x10000) == ((x + y) % 0x10000)) by (nonlinear_arith);
}

/// Pushing a run of words onto plain memory with room below SP: every push
/// succeeds, the k-th word sits at `SP - 2k`, and no byte outside the words
/// written changes.
proof fn lemma_push_all_memory(s: CpuState<Seq<u8>>, vals: Seq<u16>)
    requires
        s.registers.len() == REGISTER_COUNT,
        2 * vals.len() <= s.registers[sp_ord()],
        s.registers[sp_ord()] + 2 <= s.memory.len(),
    ensures
        ({
            let (s1, r) = push_all_spec::<Memory>(s, vals);
            let sp = s.registers[sp_ord()] as int;
            &&& r is Ok
            &&& s1.registers == s.registers.update(sp_ord(), (sp - 2 * vals.len()) as u16)
            &&& s1.frame_size == wrap16(s.frame_size + 2 * vals.len())
            &&& s1.memory.len() == s.memory.len()
            &&& forall|k: int|
                0 <= k < vals.len() ==> bytes_read_u16(s1.memory, sp - 2 * k) == Some(
                    #[trigger] vals[k],
                )
            &&& forall|a: int|
                0 <= a < s.memory.len() && (a < sp - 2 * vals.len() + 2 || a >= sp + 2)
                    ==> #[trigger] s1.memory[a] == s.memory[a]
        }),
    decreases vals.len(),
{
    let sp = s.registers[sp_ord()] as int;
    if vals.len() == 0 {
        assert(s.registers.update(sp_ord(), sp as u16) =~= s.registers);
    } else {
        let prefix = vals.drop_last();
        lemma_push_all_memory(s, prefix);
        let (s1, r1) = push_all_spec::<Memory>(s, prefix);
        let (s2, r2) = push_spec::<Memory>(s1, vals.last());
        lemma_word_of_bytes(vals.last());
        lemma_wrap16_add(s.frame_size + 2 * prefix.len(), 2);
        assert(s2.registers =~= s.registers.update(sp_ord(), (sp - 2 * vals.len()) as u16));
        assert forall|k: int| 0 <= k < vals.len() implies bytes_read_u16(s2.memory, sp - 2 * k)
            == Some(#[trigger] vals[k]) by {
            if k < prefix.len() {
                assert(prefix[k] == vals[k]);
            }
        }
    }
}

/// Popping into distinct registers other than SP from plain memory: every
/// pop succeeds, the k-th register gets the word at `SP + 2(k + 1)`, and
/// memory does not change.
proof fn lemma_pop_into_memory(s: CpuState<Seq<u8>>, ords: Seq<int>)
    requires
        s.registers.len() == REGISTER_COUNT,
        s.registers[sp_ord()] + 2 * ords.len() + 2 <= s.memory.len(),
        s.memory.len() <= 0x10000,
        forall|k: int| 0 <= k < ords.len() ==> 0 <= #[trigger] ords[k] < REGISTER_COUNT && ords[k] != sp_ord(),
        forall|k: int, l: int| 0 <= k < l < ords.len() ==> ords[k] != ords[l],
    ensures
        ({
            let (s1, r) = pop_into_spec::<Memory>(s, ords);
            let sp = s.registers[sp_ord()] as int;
            &&& r is Ok
            &&& s1.memory == s.memory
            &&& s1.frame_size == wrap16(s.frame_size - 2 * ords.len())
            &&& s1.registers.len() == REGISTER_COUNT
            &&& s1.registers[sp_ord()] == sp + 2 * ords.len()
            &&& forall|k: int|
                0 <= k < ords.len() ==> Some(s1.registers[#[trigger] ords[k]]) == bytes_read_u16(
                    s.memory,
                    sp + 2 * (k + 1),
                )
            &&& forall|j: int|
                0 <= j < REGISTER_COUNT && j != sp_ord() && !ords.contains(j)
                    ==> #[trigger] s1.registers[j] == s.registers[j]
        }),
    decreases ords.len(),
{
    let sp = s.registers[sp_ord()] as int;
    if ords.len() > 0 {
        let prefix = ords.drop_last();
        lemma_pop_into_memory(s, prefix);
        let (s1, r1) = pop_into_spec::<Memory>(s, prefix);
        lemma_wrap16_add(s.frame_size - 2 * prefix.len(), -2);
        let (s2, r2) = pop_spec::<Memory>(s1);
        let s3 = s2.with_reg(ords.last(), r2->Ok_0);
        assert forall|k: int| 0 <= k < ords.len() implies Some(s3.registers[#[trigger] ords[k]])
            == bytes_read_u16(s.memory, sp + 2 * (k + 1)) by {
            if k < prefix.len() {
                assert(prefix[k] == ords[k]);
            }
        }
        assert forall|j: int|
            0 <= j < REGISTER_COUNT && j != sp_ord() && !ords.contains(j) implies #[trigger] s3.registers[j]
            == s.registers[j] by {
            if prefix.contains(j) {
                let k = choose|k: int| 0 <= k < prefix.len() && prefix[k] == j;
                assert(ords[k] == j);
            }
            assert(ords[ords.len() - 1] == ords.last());
        }
    }
}

/// Popping `n` words from plain memory: every pop succeeds, SP moves up by
/// `2n`, and nothing else but the frame size changes.
proof fn lemma_pop_n_memory(s: CpuState<Seq<u8>>, n: nat)
    requires
        s.registers.len() == REGISTER_COUNT,
        s.registers[sp_ord()] + 2 * n + 2 <= s.memory.len(),
        s.memory.len() <= 0x10000,
    ensures
        ({
            let (s1, r) = pop_n_spec::<Memory>(s, n);
            &&& r is Ok
            &&& s1.memory == s.memory
            &&& s1.frame_size == wrap16(s.frame_size - 2 * n)
            &&& s1.registers == s.registers.update(sp_ord(), (s.registers[sp_ord()] + 2 * n) as u16)
        }),
    decreases n,
{
    if n == 0 {
        assert(s.registers.update(sp_ord(), s.registers[sp_ord()]) =~= s.registers);
    } else {
        lemma_pop_n_memory(s, (n - 1) as nat);
        lemma_wrap16_add(s.frame_size - 2 * (n - 1), -2);
        let (s1, r1) = pop_n_spec::<Memory>(s, (n - 1) as nat);
        let (s2, r2) = pop_spec::<Memory>(s1);
        assert(s2.registers =~= s.registers.update(sp_ord(), (s.registers[sp_ord()] + 2 * n) as u16));
    }
}

/// What a call leaves on plain memory with room for its frame: the saved
/// words at `SP`, `SP - 2`, ..., then the frame size plus twenty at
/// `SP - 18`; SP and FP just below; nothing from `SP + 2` up changed.
proof fn lemma_call_frame(s0: CpuState<Seq<u8>>)
    requires
        s0.registers.len() == REGISTER_COUNT,
        s0.memory.len() == 0x10000,
        20 <= s0.registers[sp_ord()],
        s0.registers[sp_ord()] + 2 <= s0.memory.len(),
    ensures
        ({
            let (s1, r1) = push_state_spec::<Memory>(s0);
            let sp0 = s0.registers[sp_ord()] as int;
            &&& r1 is Ok
            &&& s1.registers == s0.registers.update(sp_ord(), (sp0 - 20) as u16).update(
                fp_ord(),
                (sp0 - 20) as u16,
            )
            &&& s1.frame_size == 0
            &&& s1.memory.len() == s0.memory.len()
            &&& bytes_read_u16(s1.memory, sp0 - 18) == Some(wrap16(s0.frame_size + 20))
            &&& forall|k: int|
                0 <= k < 9 ==> bytes_read_u16(s1.memory, sp0 - 2 * k) == Some(
                    #[trigger] saved_registers(s0)[k],
                )
            &&& forall|a: int| sp0 + 2 <= a < s0.memory.len() ==> #[trigger] s1.memory[a] == s0.memory[a]
        }),
{
    reveal(push_state_spec);
    let sp0 = s0.registers[sp_ord()] as int;
    let fs0 = s0.frame_size as int;
    let vals = saved_registers(s0);
    let saved = wrap16(fs0 + 20);
    let all = vals.push(saved);
    lemma_push_all_memory(s0, vals);
    lemma_wrap16_add(fs0 + 18, 2);
    assert(all.drop_last() =~= vals);
    lemma_push_all_memory(s0, all);
    let (s1, r1) = push_state_spec::<Memory>(s0);
    assert(all[9] == saved);
    assert forall|k: int| 0 <= k < 9 implies bytes_read_u16(s1.memory, sp0 - 2 * k) == Some(
        #[trigger] vals[k],
    ) by {
        assert(all[k] == vals[k]);
    }
    assert(s1.registers =~= s0.registers.update(sp_ord(), (sp0 - 20) as u16).update(
        fp_ord(),
        (sp0 - 20) as u16,
    ));
}

/// What a return does on plain memory from a frame at FP: it pops the saved
/// frame size at `FP + 2`, the nine saved words above it into IP and R8..R1,
/// then the argument count at `FP + 22` and that many words.
#[verifier::rlimit(40)]
proof fn lemma_return_frame(s2: CpuState<Seq<u8>>, regs: Seq<u16>, saved: u16, n_args: u16)
    requires
        s2.registers.len() == REGISTER_COUNT,
        s2.memory.len() == 0x10000,
        regs.len() == 9,
        bytes_read_u16(s2.memory, s2.registers[fp_ord()] + 2) == Some(saved),
        forall|k: int|
            0 <= k < 9 ==> bytes_read_u16(s2.memory, s2.registers[fp_ord()] + 20 - 2 * k) == Some(
                #[trigger] regs[k],
            ),
        bytes_read_u16(s2.memory, s2.registers[fp_ord()] + 22) == Some(n_args),
        s2.registers[fp_ord()] + 22 + 2 * n_args + 2 <= s2.memory.len(),
    ensures
        ({
            let (s3, r3) = pop_state_spec::<Memory>(s2);
            let fp = s2.registers[fp_ord()] as int;
            &&& r3 is Ok
            &&& forall|j: int| 2 <= j < 10 ==> #[trigger] s3.registers[j] == regs[j - 2]
            &&& s3.registers[ip_ord()] == regs[8]
            &&& s3.registers[sp_ord()] == fp + 22 + 2 * n_args
            &&& s3.registers[fp_ord()] == wrap16(fp + saved)
            &&& s3.frame_size == wrap16(saved - 20 - 2 * n_args)
            &&& s3.memory == s2.memory
        }),
{
    reveal(pop_state_spec);
    let fp = s2.registers[fp_ord()] as int;
    let t0 = s2.with_reg(sp_ord(), fp as u16);
    let (t1, q1) = pop_spec::<Memory>(t0);
    assert(q1 == Ok::<u16, ExecuteError>(saved));
    let t1b = CpuState { frame_size: saved, ..t1 };
    let ords = restore_order();
    assert forall|k: int| 0 <= k < ords.len() implies 0 <= #[trigger] ords[k] < REGISTER_COUNT
        && ords[k] != sp_ord() && (k == 0 ==> ords[k] == ip_ord()) && (k > 0 ==> ords[k] == 10
        - k) by {}
    lemma_pop_into_memory(t1b, ords);
    let (t2, q2) = pop_into_spec::<Memory>(t1b, ords);
    assert(t2.registers[ip_ord()] == regs[8]) by {
        assert(ords[0] == ip_ord());
        assert(bytes_read_u16(s2.memory, fp + 20 - 2 * 8) == Some(regs[8]));
    }
    assert forall|j: int| 2 <= j < 10 implies #[trigger] t2.registers[j] == regs[j - 2] by {
        let k = 10 - j;
        assert(ords[k] == j);
        assert(bytes_read_u16(s2.memory, fp + 20 - 2 * (j - 2)) == Some(regs[j - 2]));
    }
    let (t3, q3) = pop_spec::<Memory>(t2);
    assert(q3 == Ok::<u16, ExecuteError>(n_args));
    lemma_pop_n_memory(t3, n_args as nat);
    lemma_wrap16_add(saved - 18, -2);
    lemma_wrap16_add(saved - 20, -2 * n_args);
    let (s3, r3) = pop_state_spec::<Memory>(s2);
    assert forall|j: int| 2 <= j < 10 implies #[trigger] s3.registers[j] == regs[j - 2] by {
        assert(t2.registers[j] == regs[j - 2]);
    }
}

/// The calling convention on plain memory. A caller has pushed its argument
/// words and then their count, so SP sits just below the count. A call saves
/// the caller's state (`push_state_spec`, what CAL_LIT and CAL_REG do after
/// reading their target). The callee may then do anything that keeps FP and
/// leaves the memory from its frame upward alone: change any register,
/// push, pop, write memory below its frame. A return (`pop_state_spec`,
/// what RET does) then brings back R1..R8 and IP as they were before the
/// call, drops the arguments and their count, and leaves the caller's stack
/// (the memory from the count upward) as it was before the call.
pub proof fn lemma_call_return_round_trip(s0: CpuState<Seq<u8>>, s2: CpuState<Seq<u8>>)
    requires
        s0.registers.len() == REGISTER_COUNT,
        s0.memory.len() == 0x10000,
        20 <= s0.registers[sp_ord()],
        s0.registers[sp_ord()] + 4 <= s0.memory.len(),
        s0.registers[sp_ord()] + 2 + 2 * bytes_read_u16(
            s0.memory,
            s0.registers[sp_ord()] + 2,
        )->Some_0 + 2 <= s0.memory.len(),
        s2.registers.len() == REGISTER_COUNT,
        s2.registers[fp_ord()] == push_state_spec::<Memory>(s0).0.registers[fp_ord()],
        s2.memory.len() == s0.memory.len(),
        forall|a: int|
            s0.registers[sp_ord()] - 18 <= a < s0.memory.len() ==> #[trigger] s2.memory[a]
                == push_state_spec::<Memory>(s0).0.memory[a],
    ensures
        ({
            let (s1, r1) = push_state_spec::<Memory>(s0);
            let sp0 = s0.registers[sp_ord()] as int;
            &&& r1 is Ok
            &&& s1.registers[fp_ord()] == sp0 - 20
            &&& s1.registers[sp_ord()] == sp0 - 20
            &&& s1.frame_size == 0
        }),
        ({
            let (s3, r3) = pop_state_spec::<Memory>(s2);
            let sp0 = s0.registers[sp_ord()] as int;
            let n_args = bytes_read_u16(s0.memory, sp0 + 2)->Some_0;
            &&& r3 is Ok
            &&& forall|j: int| 2 <= j < 10 ==> #[trigger] s3.registers[j] == s0.registers[j]
            &&& s3.registers[ip_ord()] == s0.registers[ip_ord()]
            &&& s3.registers[sp_ord()] == sp0 + 2 + 2 * n_args
            &&& s3.registers[fp_ord()] == wrap16(sp0 + s0.frame_size)
            &&& s3.frame_size == wrap16(s0.frame_size - 2 * n_args)
            &&& s3.memory == s2.memory
            &&& forall|a: int| sp0 + 2 <= a < s0.memory.len() ==> #[trigger] s3.memory[a] == s0.memory[a]
        }),
{
    let sp0 = s0.registers[sp_ord()] as int;
    let fs0 = s0.frame_size as int;
    lemma_call_frame(s0);
    let (s1, r1) = push_state_spec::<Memory>(s0);
    let regs = saved_registers(s0);
    assert forall|a: int| sp0 - 18 <= a && a + 2 <= s0.memory.len() implies bytes_read_u16(
        s2.memory,
        a,
    ) == bytes_read_u16(s1.memory, a) by {
        assert(s2.memory[a] == s1.memory[a]);
        assert(s2.memory[a + 1] == s1.memory[a + 1]);
    }
    assert(bytes_read_u16(s2.memory, sp0 + 2) == bytes_read_u16(s0.memory, sp0 + 2)) by {
        assert(s2.memory[sp0 + 2] == s0.memory[sp0 + 2]);
        assert(s2.memory[sp0 + 3] == s0.memory[sp0 + 3]);
    }
    assert forall|k: int| 0 <= k < 9 implies bytes_read_u16(
        s2.memory,
        s2.registers[fp_ord()] + 20 - 2 * k,
    ) == Some(#[trigger] regs[k]) by {
        assert(bytes_read_u16(s1.memory, sp0 - 2 * k) == Some(regs[k]));
    }
    let n_args = bytes_read_u16(s0.memory, sp0 + 2)->Some_0;
    let saved = wrap16(fs0 + 20);
    lemma_return_frame(s2, regs, saved, n_args);
    lemma_wrap16_add(fs0 + 20, sp0 - 20);
    lemma_wrap16_add(fs0 + 20, -20 - 2 * n_args);
    let (s3, r3) = pop_state_spec::<Memory>(s2);
    assert forall|j: int| 2 <= j < 10 implies #[trigger] s3.registers[j] == s0.registers[j] by {
        assert(regs[j - 2] == s0.registers[j]);
    }
    assert(regs[8] == s0.registers[ip_ord()]);
}

} // verus!
