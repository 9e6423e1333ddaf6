//! The engine's semantics: each operation as a function from a state to
//! the next state and a result.
//!
//! Arithmetic on IP, SP, FP, the frame-size counter and ADD_REG_REG wraps
//! modulo 2^16. A register ordinal outside the register file is a decode
//! error. A memory access that the address space refuses ends the step with
//! an error; what the instruction had done before that stays done.

use vstd::prelude::*;
use crate::cpu::ExecuteError;
use crate::device::Device;
use crate::instructions::{
    MOV_LIT_REG, MOV_REG_REG, MOV_REG_MEM, MOV_MEM_REG, ADD_REG_REG, JMP_NOT_EQ, PSH_LIT, PSH_REG,
    POP, CAL_LIT, CAL_REG, RET, HLT,
};
use crate::register::{Register, REGISTER_COUNT};

verus! {

pub open spec fn wrap16(x: int) -> u16 {
    (x % 0x10000) as u16
}

/// Ordinals used by the engine's own bookkeeping.
pub open spec fn ip_ord() -> int { 0 }
pub open spec fn acc_ord() -> int { 1 }
pub open spec fn sp_ord() -> int { 10 }
pub open spec fn fp_ord() -> int { 11 }

/// The engine as a mathematical value: the address space's state, the
/// registers by ordinal, and the bytes pushed since the last call boundary.
pub struct CpuState<V> {
    pub memory: V,
    pub registers: Seq<u16>,
    pub frame_size: u16,
}

/// A state after an operation, with the operation's result.
pub type Outcome<V, T> = (CpuState<V>, Result<T, ExecuteError>);

impl<V> CpuState<V> {
    pub open spec fn reg(self, r: Register) -> u16 {
        self.registers[r.ordinal() as int]
    }

    pub open spec fn with_reg(self, ordinal: int, v: u16) -> Self {
        CpuState { registers: self.registers.update(ordinal, v), ..self }
    }
}

/// Runs `f` on the state and value of a successful outcome; an error passes
/// through with its state.
pub open spec fn bind<V, T, U>(
    o: Outcome<V, T>,
    f: spec_fn(CpuState<V>, T) -> Outcome<V, U>,
) -> Outcome<V, U> {
    match o.1 {
        Ok(t) => f(o.0, t),
        Err(e) => (o.0, Err(e)),
    }
}

/// Reads the byte at IP and advances IP by one.
pub open spec fn fetch_spec<D: Device>(s: CpuState<D::V>) -> Outcome<D::V, u8> {
    let ip = s.registers[ip_ord()];
    match D::read_u8_spec(s.memory, ip as int) {
        Some(b) => (s.with_reg(ip_ord(), wrap16(ip + 1)), Ok(b)),
        None => (s, Err(ExecuteError::AddressFault(ip))),
    }
}

/// Reads the word at IP and advances IP by two.
pub open spec fn fetch16_spec<D: Device>(s: CpuState<D::V>) -> Outcome<D::V, u16> {
    let ip = s.registers[ip_ord()];
    match D::read_u16_spec(s.memory, ip as int) {
        Some(w) => (s.with_reg(ip_ord(), wrap16(ip + 2)), Ok(w)),
        None => (s, Err(ExecuteError::AddressFault(ip))),
    }
}

/// Reads a register ordinal at IP; the result is its byte offset in the
/// register file.
pub open spec fn fetch_register_spec<D: Device>(s: CpuState<D::V>) -> Outcome<D::V, usize> {
    bind(
        fetch_spec::<D>(s),
        |s1: CpuState<D::V>, b: u8|
            if b < REGISTER_COUNT {
                (s1, Ok((2 * b) as usize))
            } else {
                (s1, Err(ExecuteError::InvalidRegister(b)))
            },
    )
}

/// Writes `v` at SP, then moves SP down one word.
pub open spec fn push_spec<D: Device>(s: CpuState<D::V>, v: u16) -> Outcome<D::V, ()> {
    let sp = s.registers[sp_ord()];
    match D::write_u16_spec(s.memory, sp as int, v) {
        Some(m) => (
            CpuState {
                memory: m,
                registers: s.registers.update(sp_ord(), wrap16(sp - 2)),
                frame_size: wrap16(s.frame_size + 2),
            },
            Ok(()),
        ),
        None => (s, Err(ExecuteError::AddressFault(sp))),
    }
}

/// Moves SP up one word, then reads the word there.
pub open spec fn pop_spec<D: Device>(s: CpuState<D::V>) -> Outcome<D::V, u16> {
    let next = wrap16(s.registers[sp_ord()] + 2);
    match D::read_u16_spec(s.memory, next as int) {
        Some(v) => (
            CpuState {
                registers: s.registers.update(sp_ord(), next),
                frame_size: wrap16(s.frame_size - 2),
                ..s
            },
            Ok(v),
        ),
        None => (s, Err(ExecuteError::AddressFault(next))),
    }
}

/// Pushes `vals` in order, stopping at the first failure.
pub open spec fn push_all_spec<D: Device>(s: CpuState<D::V>, vals: Seq<u16>) -> Outcome<D::V, ()>
    decreases vals.len(),
{
    if vals.len() == 0 {
        (s, Ok(()))
    } else {
        bind(
            push_all_spec::<D>(s, vals.drop_last()),
            |s1: CpuState<D::V>, u: ()| push_spec::<D>(s1, vals.last()),
        )
    }
}

/// Pops into the registers with the given ordinals, in order.
pub open spec fn pop_into_spec<D: Device>(s: CpuState<D::V>, ords: Seq<int>) -> Outcome<D::V, ()>
    decreases ords.len(),
{
    if ords.len() == 0 {
        (s, Ok(()))
    } else {
        bind(
            pop_into_spec::<D>(s, ords.drop_last()),
            |s1: CpuState<D::V>, u: ()|
                bind(
                    pop_spec::<D>(s1),
                    |s2: CpuState<D::V>, v: u16| (s2.with_reg(ords.last(), v), Ok(())),
                ),
        )
    }
}

/// Pops `n` words and drops them.
pub open spec fn pop_n_spec<D: Device>(s: CpuState<D::V>, n: nat) -> Outcome<D::V, ()>
    decreases n,
{
    if n == 0 {
        (s, Ok(()))
    } else {
        bind(
            pop_n_spec::<D>(s, (n - 1) as nat),
            |s1: CpuState<D::V>, u: ()|
                bind(pop_spec::<D>(s1), |s2: CpuState<D::V>, v: u16| (s2, Ok(()))),
        )
    }
}

/// What a call saves: R1..R8, then IP.
pub open spec fn saved_registers<V>(s: CpuState<V>) -> Seq<u16> {
    s.registers.subrange(2, 10).push(s.registers[ip_ord()])
}

/// The order in which a return restores: IP, then R8 down to R1.
pub open spec fn restore_order() -> Seq<int> {
    seq![ip_ord(), 9, 8, 7, 6, 5, 4, 3, 2]
}

/// Entering a call: pushes R1..R8 and IP, then the frame size plus two, then
/// sets FP to SP and starts a new frame.
#[verifier::opaque]
pub open spec fn push_state_spec<D: Device>(s: CpuState<D::V>) -> Outcome<D::V, ()> {
    bind(
        push_all_spec::<D>(s, saved_registers(s)),
        |s1: CpuState<D::V>, u: ()|
            bind(
                push_spec::<D>(s1, wrap16(s1.frame_size + 2)),
                |s2: CpuState<D::V>, u2: ()|
                    (
                        CpuState {
                            registers: s2.registers.update(fp_ord(), s2.registers[sp_ord()]),
                            frame_size: 0,
                            ..s2
                        },
                        Ok(()),
                    ),
            ),
    )
}

/// Returning: SP goes back to FP; pops the saved frame size, then IP and
/// R8..R1, then the argument count and that many arguments; FP moves up by
/// the saved frame size.
#[verifier::opaque]
pub open spec fn pop_state_spec<D: Device>(s: CpuState<D::V>) -> Outcome<D::V, ()> {
    let fp = s.registers[fp_ord()];
    bind(
        pop_spec::<D>(s.with_reg(sp_ord(), fp)),
        |s1: CpuState<D::V>, saved: u16|
            bind(
                pop_into_spec::<D>(CpuState { frame_size: saved, ..s1 }, restore_order()),
                |s2: CpuState<D::V>, u: ()|
                    bind(
                        pop_spec::<D>(s2),
                        |s3: CpuState<D::V>, n_args: u16|
                            bind(
                                pop_n_spec::<D>(s3, n_args as nat),
                                |s4: CpuState<D::V>, u4: ()|
                                    (s4.with_reg(fp_ord(), wrap16(fp + saved)), Ok(())),
                            ),
                    ),
            ),
    )
}

/// Writes a word into the register at byte offset `index`.
pub open spec fn set_at<V>(s: CpuState<V>, index: usize, v: u16) -> CpuState<V> {
    s.with_reg(index as int / 2, v)
}

pub open spec fn get_at<V>(s: CpuState<V>, index: usize) -> u16 {
    s.registers[index as int / 2]
}

/// `MOV_LIT_REG lit16 reg`: the register gets the literal.
pub open spec fn mov_lit_reg_spec<D: Device>(s: CpuState<D::V>) -> Outcome<D::V, bool> {
    bind(
        fetch16_spec::<D>(s),
        |s1: CpuState<D::V>, lit: u16|
            bind(
                fetch_register_spec::<D>(s1),
                |s2: CpuState<D::V>, r: usize| (set_at(s2, r, lit), Ok(false)),
            ),
    )
}

/// `MOV_REG_REG from to`: `to` gets the value of `from`.
pub open spec fn mov_reg_reg_spec<D: Device>(s: CpuState<D::V>) -> Outcome<D::V, bool> {
    bind(
        fetch_register_spec::<D>(s),
        |s1: CpuState<D::V>, from: usize|
            bind(
                fetch_register_spec::<D>(s1),
                |s2: CpuState<D::V>, to: usize|
                    (set_at(s2, to, get_at(s2, from)), Ok(false)),
            ),
    )
}

/// `MOV_REG_MEM reg addr16`: the word at the address gets the register.
pub open spec fn mov_reg_mem_spec<D: Device>(s: CpuState<D::V>) -> Outcome<D::V, bool> {
    bind(
        fetch_register_spec::<D>(s),
        |s1: CpuState<D::V>, from: usize|
            bind(
                fetch16_spec::<D>(s1),
                |s2: CpuState<D::V>, address: u16|
                    match D::write_u16_spec(s2.memory, address as int, get_at(s2, from)) {
                        Some(m) => (CpuState { memory: m, ..s2 }, Ok(false)),
                        None => (s2, Err(ExecuteError::AddressFault(address))),
                    },
            ),
    )
}

/// `MOV_MEM_REG addr16 reg`: the register gets the word at the address.
pub open spec fn mov_mem_reg_spec<D: Device>(s: CpuState<D::V>) -> Outcome<D::V, bool> {
    bind(
        fetch16_spec::<D>(s),
        |s1: CpuState<D::V>, address: u16|
            bind(
                fetch_register_spec::<D>(s1),
                |s2: CpuState<D::V>, to: usize|
                    match D::read_u16_spec(s2.memory, address as int) {
                        Some(v) => (set_at(s2, to, v), Ok(false)),
                        None => (s2, Err(ExecuteError::AddressFault(address))),
                    },
            ),
    )
}

/// `ADD_REG_REG a b`: ACC gets `a + b`, wrapping.
pub open spec fn add_reg_reg_spec<D: Device>(s: CpuState<D::V>) -> Outcome<D::V, bool> {
    bind(
        fetch_register_spec::<D>(s),
        |s1: CpuState<D::V>, a: usize|
            bind(
                fetch_register_spec::<D>(s1),
                |s2: CpuState<D::V>, b: usize|
                    (
                        s2.with_reg(acc_ord(), wrap16(get_at(s2, a) + get_at(s2, b))),
                        Ok(false),
                    ),
            ),
    )
}

/// `JMP_NOT_EQ lit16 addr16`: IP gets the address when ACC differs from the literal.
pub open spec fn jmp_not_eq_spec<D: Device>(s: CpuState<D::V>) -> Outcome<D::V, bool> {
    bind(
        fetch16_spec::<D>(s),
        |s1: CpuState<D::V>, value: u16|
            bind(
                fetch16_spec::<D>(s1),
                |s2: CpuState<D::V>, address: u16|
                    if value != s2.registers[acc_ord()] {
                        (s2.with_reg(ip_ord(), address), Ok(false))
                    } else {
                        (s2, Ok(false))
                    },
            ),
    )
}

/// `PSH_LIT lit16`: pushes the literal.
pub open spec fn psh_lit_spec<D: Device>(s: CpuState<D::V>) -> Outcome<D::V, bool> {
    bind(
        fetch16_spec::<D>(s),
        |s1: CpuState<D::V>, value: u16|
            bind(push_spec::<D>(s1, value), |s2: CpuState<D::V>, u: ()| (s2, Ok(false))),
    )
}

/// `PSH_REG reg`: pushes the register.
pub open spec fn psh_reg_spec<D: Device>(s: CpuState<D::V>) -> Outcome<D::V, bool> {
    bind(
        fetch_register_spec::<D>(s),
        |s1: CpuState<D::V>, r: usize|
            bind(
                push_spec::<D>(s1, get_at(s1, r)),
                |s2: CpuState<D::V>, u: ()| (s2, Ok(false)),
            ),
    )
}

/// `POP reg`: the register gets a popped word.
pub open spec fn pop_reg_spec<D: Device>(s: CpuState<D::V>) -> Outcome<D::V, bool> {
    bind(
        fetch_register_spec::<D>(s),
        |s1: CpuState<D::V>, r: usize|
            bind(
                pop_spec::<D>(s1),
                |s2: CpuState<D::V>, v: u16| (set_at(s2, r, v), Ok(false)),
            ),
    )
}

/// `CAL_LIT addr16`: saves the caller's state, then IP gets the address.
pub open spec fn cal_lit_spec<D: Device>(s: CpuState<D::V>) -> Outcome<D::V, bool> {
    bind(
        fetch16_spec::<D>(s),
        |s1: CpuState<D::V>, address: u16|
            bind(
                push_state_spec::<D>(s1),
                |s2: CpuState<D::V>, u: ()| (s2.with_reg(ip_ord(), address), Ok(false)),
            ),
    )
}

/// `CAL_REG reg`: saves the caller's state, then IP gets the register's value.
pub open spec fn cal_reg_spec<D: Device>(s: CpuState<D::V>) -> Outcome<D::V, bool> {
    bind(
        fetch_register_spec::<D>(s),
        |s1: CpuState<D::V>, r: usize|
            bind(
                push_state_spec::<D>(s1),
                |s2: CpuState<D::V>, u: ()|
                    (s2.with_reg(ip_ord(), get_at(s1, r)), Ok(false)),
            ),
    )
}

/// `RET`: restores the caller's state.
pub open spec fn ret_spec<D: Device>(s: CpuState<D::V>) -> Outcome<D::V, bool> {
    bind(pop_state_spec::<D>(s), |s1: CpuState<D::V>, u: ()| (s1, Ok(false)))
}

/// What one instruction does, after its opcode was fetched. `Ok(true)`
/// means halt.
pub open spec fn execute_spec<D: Device>(s: CpuState<D::V>, op: u8) -> Outcome<D::V, bool> {
    if op == MOV_LIT_REG {
        mov_lit_reg_spec::<D>(s)
    } else if op == MOV_REG_REG {
        mov_reg_reg_spec::<D>(s)
    } else if op == MOV_REG_MEM {
        mov_reg_mem_spec::<D>(s)
    } else if op == MOV_MEM_REG {
        mov_mem_reg_spec::<D>(s)
    } else if op == ADD_REG_REG {
        add_reg_reg_spec::<D>(s)
    } else if op == JMP_NOT_EQ {
        jmp_not_eq_spec::<D>(s)
    } else if op == PSH_LIT {
        psh_lit_spec::<D>(s)
    } else if op == PSH_REG {
        psh_reg_spec::<D>(s)
    } else if op == POP {
        pop_reg_spec::<D>(s)
    } else if op == CAL_LIT {
        cal_lit_spec::<D>(s)
    } else if op == CAL_REG {
        cal_reg_spec::<D>(s)
    } else if op == RET {
        ret_spec::<D>(s)
    } else if op == HLT {
        (s, Ok(true))
    } else if op == 0 {
        (s, Err(ExecuteError::NullByte))
    } else {
        (s, Err(ExecuteError::UnknownInstruction(op)))
    }
}

/// One fetch-decode-execute cycle.
pub open spec fn step_spec<D: Device>(s: CpuState<D::V>) -> Outcome<D::V, bool> {
    bind(fetch_spec::<D>(s), |s1: CpuState<D::V>, op: u8| execute_spec::<D>(s1, op))
}

/// Steps until a halt, an error, or `fuel` steps, whichever comes first.
/// `Ok(true)` means halted; `Ok(false)` means the steps ran out.
pub open spec fn run_spec<D: Device>(s: CpuState<D::V>, fuel: nat) -> Outcome<D::V, bool>
    decreases fuel,
{
    if fuel == 0 {
        (s, Ok(false))
    } else {
        let (s1, r) = step_spec::<D>(s);
        match r {
            Ok(false) => run_spec::<D>(s1, (fuel - 1) as nat),
            _ => (s1, r),
        }
    }
}

/// Once a prefix of the pushes fails, the whole sequence fails the same way.
pub proof fn lemma_push_all_stops<D: Device>(s: CpuState<D::V>, vals: Seq<u16>, i: int)
    requires
        0 <= i <= vals.len(),
        push_all_spec::<D>(s, vals.take(i)).1 is Err,
    ensures
        push_all_spec::<D>(s, vals) == push_all_spec::<D>(s, vals.take(i)),
    decreases vals.len() - i,
{
    if i < vals.len() {
        assert(vals.take(i + 1).drop_last() =~= vals.take(i));
        lemma_push_all_stops::<D>(s, vals, i + 1);
    } else {
        assert(vals.take(i) =~= vals);
    }
}

/// Once a prefix of the pops fails, the whole sequence fails the same way.
pub proof fn lemma_pop_into_stops<D: Device>(s: CpuState<D::V>, ords: Seq<int>, i: int)
    requires
        0 <= i <= ords.len(),
        pop_into_spec::<D>(s, ords.take(i)).1 is Err,
    ensures
        pop_into_spec::<D>(s, ords) == pop_into_spec::<D>(s, ords.take(i)),
    decreases ords.len() - i,
{
    if i < ords.len() {
        assert(ords.take(i + 1).drop_last() =~= ords.take(i));
        lemma_pop_into_stops::<D>(s, ords, i + 1);
    } else {
        assert(ords.take(i) =~= ords);
    }
}

/// Once some of the pops fail, all of them fail the same way.
pub proof fn lemma_pop_n_stops<D: Device>(s: CpuState<D::V>, n: nat, k: nat)
    requires
        k <= n,
        pop_n_spec::<D>(s, k).1 is Err,
    ensures
        pop_n_spec::<D>(s, n) == pop_n_spec::<D>(s, k),
    decreases n - k,
{
    if k < n {
        lemma_pop_n_stops::<D>(s, n, k + 1);
    }
}

/// Register values at start-up: SP and FP at the top of the address space,
/// the rest zero.
pub open spec fn initial_registers() -> Seq<u16> {
    Seq::new(REGISTER_COUNT as nat, |i: int| if i == sp_ord() || i == fp_ord() { 0xFFFEu16 } else { 0u16 })
}

} // verus!
