//! The execution engine: fetch, decode and execute over a device. Each
//! operation is proved to do what its function in `semantics` says.

use vstd::prelude::*;
use crate::device::Device;
use crate::device::{word_of, lemma_word_of_bytes};
use crate::instructions::{
    MOV_LIT_REG, MOV_REG_REG, MOV_REG_MEM, MOV_MEM_REG, ADD_REG_REG, JMP_NOT_EQ, PSH_LIT, PSH_REG,
    POP, CAL_LIT, CAL_REG, RET, HLT,
};
use crate::memory::create_memory;
use crate::register::{Register, REGISTER_COUNT};
use crate::semantics::{
    CpuState, get_at, set_at, initial_registers, fetch_spec, fetch16_spec, fetch_register_spec,
    push_spec, pop_spec, push_all_spec, pop_into_spec, pop_n_spec, saved_registers, restore_order,
    push_state_spec, pop_state_spec, lemma_push_all_stops, lemma_pop_into_stops, lemma_pop_n_stops,
    mov_lit_reg_spec, mov_reg_reg_spec, mov_reg_mem_spec, mov_mem_reg_spec, add_reg_reg_spec,
    jmp_not_eq_spec, psh_lit_spec, psh_reg_spec, pop_reg_spec, cal_lit_spec, cal_reg_spec, ret_spec,
    execute_spec, step_spec, run_spec,
};

verus! {

/// Why a step could not complete.
#[derive(Copy, Clone, Debug, PartialEq, Eq, Structural)]
pub enum ExecuteError {
    /// The opcode byte names no instruction.
    UnknownInstruction(u8),
    /// The opcode byte is 0x00: execution ran into empty memory.
    NullByte,
    /// A register operand names no register.
    InvalidRegister(u8),
    /// The address space refused an access at this address.
    AddressFault(u16),
}

/// The engine: an address space, a register file of big-endian words, and
/// the number of bytes pushed since the last call boundary.
pub struct CPU<D> {
    memory: Box<D>,
    registers: Vec<u8>,
    stack_frame_size: u16,
}

impl<D: Device> View for CPU<D> {
    type V = CpuState<D::V>;

    closed spec fn view(&self) -> CpuState<D::V> {
        CpuState {
            memory: self.memory@,
            registers: Seq::new(
                REGISTER_COUNT as nat,
                |i: int| word_of(self.registers@[2 * i], self.registers@[2 * i + 1]),
            ),
            frame_size: self.stack_frame_size,
        }
    }
}

impl<D: Device> CPU<D> {
    /// The register file holds one word per register.
    pub closed spec fn wf(&self) -> bool {
        self.registers@.len() == 2 * REGISTER_COUNT
    }

    pub fn new(memory: Box<D>) -> (r: Self)
        ensures
            r.wf(),
            r@ == (CpuState { memory: memory@, registers: initial_registers(), frame_size: 0 }),
    {
        let mut cpu = CPU {
            memory,
            // two bytes per register
            registers: create_memory(REGISTER_COUNT * 2),
            stack_frame_size: 0,
        };
        cpu.set_register(Register::Sp, 0xFFFF - 1);
        cpu.set_register(Register::Fp, 0xFFFF - 1);
        assert(cpu@.registers =~= initial_registers());
        cpu
    }

    /// The word at byte offset `index` of the register file.
    fn read_register_at(&self, index: usize) -> (r: u16)
        requires
            self.wf(),
            index % 2 == 0,
            index < 2 * REGISTER_COUNT,
        ensures
            r == get_at(self@, index),
    {
        self.registers.read_at_u16(index).unwrap()
    }

    fn write_register_at(&mut self, index: usize, value: u16)
        requires
            old(self).wf(),
            index % 2 == 0,
            index < 2 * REGISTER_COUNT,
        ensures
            final(self).wf(),
            final(self)@ == set_at(old(self)@, index, value),
    {
        self.registers.write_at_u16(index, value).unwrap();
        proof {
            lemma_word_of_bytes(value);
            assert(self@.registers =~= old(self)@.registers.update(index as int / 2, value));
        }
    }

    pub fn get_register(&self, register: Register) -> (r: u16)
        requires
            self.wf(),
        ensures
            r == self@.reg(register),
    {
        self.read_register_at(register.as_index())
    }

    pub fn set_register(&mut self, register: Register, value: u16)
        requires
            old(self).wf(),
        ensures
            final(self).wf(),
            final(self)@ == old(self)@.with_reg(register.ordinal() as int, value),
    {
        self.write_register_at(register.as_index(), value)
    }

    fn fetch(&mut self) -> (r: Result<u8, ExecuteError>)
        requires
            old(self).wf(),
        ensures
            final(self).wf(),
            (final(self)@, r) == fetch_spec::<D>(old(self)@),
    {
        let ip = self.get_register(Register::Ip);
        match self.memory.read_at_u8(ip as usize) {
            Some(b) => {
                self.set_register(Register::Ip, ip.wrapping_add(1));
                Ok(b)
            },
            None => Err(ExecuteError::AddressFault(ip)),
        }
    }

    fn fetch16(&mut self) -> (r: Result<u16, ExecuteError>)
        requires
            old(self).wf(),
        ensures
            final(self).wf(),
            (final(self)@, r) == fetch16_spec::<D>(old(self)@),
    {
        let ip = self.get_register(Register::Ip);
        match self.memory.read_at_u16(ip as usize) {
            Some(w) => {
                self.set_register(Register::Ip, ip.wrapping_add(2));
                Ok(w)
            },
            None => Err(ExecuteError::AddressFault(ip)),
        }
    }

    /// Fetches a register ordinal and gives its byte offset in the register
    /// file.
    fn fetch_register_index(&mut self) -> (r: Result<usize, ExecuteError>)
        requires
            old(self).wf(),
        ensures
            final(self).wf(),
            (final(self)@, r) == fetch_register_spec::<D>(old(self)@),
            r is Ok ==> r->Ok_0 % 2 == 0 && r->Ok_0 < 2 * REGISTER_COUNT,
    {
        let b = self.fetch()?;
        if (b as usize) < REGISTER_COUNT {
            // two bytes per register
            Ok(b as usize * 2)
        } else {
            Err(ExecuteError::InvalidRegister(b))
        }
    }

    /// Writes `value` at SP and moves SP down one word.
    pub fn push(&mut self, value: u16) -> (r: Result<(), ExecuteError>)
        requires
            old(self).wf(),
        ensures
            final(self).wf(),
            (final(self)@, r) == push_spec::<D>(old(self)@, value),
    {
        let sp = self.get_register(Register::Sp);
        match self.memory.write_at_u16(sp as usize, value) {
            Ok(()) => {
                self.set_register(Register::Sp, sp.wrapping_sub(2));
                self.stack_frame_size = self.stack_frame_size.wrapping_add(2);
                Ok(())
            },
            Err(()) => Err(ExecuteError::AddressFault(sp)),
        }
    }

    /// Moves SP up one word and reads the word there.
    pub fn pop(&mut self) -> (r: Result<u16, ExecuteError>)
        requires
            old(self).wf(),
        ensures
            final(self).wf(),
            (final(self)@, r) == pop_spec::<D>(old(self)@),
    {
        let next = self.get_register(Register::Sp).wrapping_add(2);
        match self.memory.read_at_u16(next as usize) {
            Some(v) => {
                self.set_register(Register::Sp, next);
                self.stack_frame_size = self.stack_frame_size.wrapping_sub(2);
                Ok(v)
            },
            None => Err(ExecuteError::AddressFault(next)),
        }
    }
    /// Pushes `vals` in order, stopping at the first failure.
    fn push_all(&mut self, vals: &Vec<u16>) -> (r: Result<(), ExecuteError>)
        requires
            old(self).wf(),
        ensures
            final(self).wf(),
            (final(self)@, r) == push_all_spec::<D>(old(self)@, vals@),
    {
        let mut i: usize = 0;
        while i < vals.len()
            invariant
                self.wf(),
                i <= vals@.len(),
                push_all_spec::<D>(old(self)@, vals@.take(i as int)) == (
                    self@,
                    Ok::<(), ExecuteError>(()),
                ),
            decreases vals@.len() - i,
        {
            let r = self.push(vals[i]);
            assert(vals@.take(i + 1).drop_last() =~= vals@.take(i as int));
            if r.is_err() {
                proof {
                    lemma_push_all_stops::<D>(old(self)@, vals@, i + 1);
                }
                return r;
            }
            i = i + 1;
        }
        assert(vals@.take(i as int) =~= vals@);
        Ok(())
    }

    /// Saves the caller's state for a call; see `push_state_spec`.
    fn push_state(&mut self) -> (r: Result<(), ExecuteError>)
        requires
            old(self).wf(),
        ensures
            final(self).wf(),
            (final(self)@, r) == push_state_spec::<D>(old(self)@),
    {
        reveal(push_state_spec);
        let vals: Vec<u16> = vec![
            self.get_register(Register::R1),
            self.get_register(Register::R2),
            self.get_register(Register::R3),
            self.get_register(Register::R4),
            self.get_register(Register::R5),
            self.get_register(Register::R6),
            self.get_register(Register::R7),
            self.get_register(Register::R8),
            self.get_register(Register::Ip),
        ];
        assert(vals@ =~= saved_registers(self@));
        self.push_all(&vals)?;
        let frame = self.stack_frame_size.wrapping_add(2);
        self.push(frame)?;
        let sp = self.get_register(Register::Sp);
        self.set_register(Register::Fp, sp);
        self.stack_frame_size = 0;
        Ok(())
    }

    /// Pops `n` words and drops them.
    fn pop_n(&mut self, n: u16) -> (r: Result<(), ExecuteError>)
        requires
            old(self).wf(),
        ensures
            final(self).wf(),
            (final(self)@, r) == pop_n_spec::<D>(old(self)@, n as nat),
    {
        let mut k: u16 = 0;
        while k < n
            invariant
                self.wf(),
                k <= n,
                pop_n_spec::<D>(old(self)@, k as nat) == (self@, Ok::<(), ExecuteError>(())),
            decreases n - k,
        {
            match self.pop() {
                Ok(_) => {},
                Err(e) => {
                    proof {
                        lemma_pop_n_stops::<D>(old(self)@, n as nat, (k + 1) as nat);
                    }
                    return Err(e);
                },
            }
            k = k + 1;
        }
        Ok(())
    }

    /// Pops into IP, then R8 down to R1.
    fn pop_into_saved_registers(&mut self) -> (r: Result<(), ExecuteError>)
        requires
            old(self).wf(),
        ensures
            final(self).wf(),
            (final(self)@, r) == pop_into_spec::<D>(old(self)@, restore_order()),
    {
        let order: Vec<Register> = vec![
            Register::Ip,
            Register::R8,
            Register::R7,
            Register::R6,
            Register::R5,
            Register::R4,
            Register::R3,
            Register::R2,
            Register::R1,
        ];
        let ghost ords = restore_order();
        assert forall|j: int| 0 <= j < 9 implies (#[trigger] order@[j]).ordinal() == ords[j] by {}
        let mut i: usize = 0;
        while i < order.len()
            invariant
                self.wf(),
                i <= order@.len(),
                order@.len() == 9,
                ords == restore_order(),
                forall|j: int| 0 <= j < 9 ==> (#[trigger] order@[j]).ordinal() == ords[j],
                pop_into_spec::<D>(old(self)@, ords.take(i as int)) == (
                    self@,
                    Ok::<(), ExecuteError>(()),
                ),
            decreases order@.len() - i,
        {
            assert(ords.take(i + 1).drop_last() =~= ords.take(i as int));
            match self.pop() {
                Ok(v) => {
                    self.set_register(order[i], v);
                },
                Err(e) => {
                    proof {
                        lemma_pop_into_stops::<D>(old(self)@, ords, i + 1);
                    }
                    return Err(e);
                },
            }
            i = i + 1;
        }
        assert(ords.take(i as int) =~= ords);
        Ok(())
    }

    /// Restores the caller's state on return; see `pop_state_spec`.
    fn pop_state(&mut self) -> (r: Result<(), ExecuteError>)
        requires
            old(self).wf(),
        ensures
            final(self).wf(),
            (final(self)@, r) == pop_state_spec::<D>(old(self)@),
    {
        reveal(pop_state_spec);
        let frame_pointer_address = self.get_register(Register::Fp);
        self.set_register(Register::Sp, frame_pointer_address);
        let saved = self.pop()?;
        self.stack_frame_size = saved;
        self.pop_into_saved_registers()?;
        let n_args = self.pop()?;
        self.pop_n(n_args)?;
        self.set_register(Register::Fp, frame_pointer_address.wrapping_add(saved));
        Ok(())
    }
    /// `MOV_LIT_REG lit16 reg`: the register gets the literal.
    fn exec_mov_lit_reg(&mut self) -> (r: Result<bool, ExecuteError>)
        requires
            old(self).wf(),
        ensures
            final(self).wf(),
            (final(self)@, r) == mov_lit_reg_spec::<D>(old(self)@),
    {
        let literal = self.fetch16()?;
        let register = self.fetch_register_index()?;
        self.write_register_at(register, literal);
        Ok(false)
    }

    /// `MOV_REG_REG from to`: `to` gets the value of `from`.
    fn exec_mov_reg_reg(&mut self) -> (r: Result<bool, ExecuteError>)
        requires
            old(self).wf(),
        ensures
            final(self).wf(),
            (final(self)@, r) == mov_reg_reg_spec::<D>(old(self)@),
    {
        let reg_from = self.fetch_register_index()?;
        let reg_to = self.fetch_register_index()?;
        let value = self.read_register_at(reg_from);
        self.write_register_at(reg_to, value);
        Ok(false)
    }

    /// `MOV_REG_MEM reg addr16`: the word at the address gets the register.
    fn exec_mov_reg_mem(&mut self) -> (r: Result<bool, ExecuteError>)
        requires
            old(self).wf(),
        ensures
            final(self).wf(),
            (final(self)@, r) == mov_reg_mem_spec::<D>(old(self)@),
    {
        let reg_from = self.fetch_register_index()?;
        let address = self.fetch16()?;
        let value = self.read_register_at(reg_from);
        if self.memory.write_at_u16(address as usize, value).is_err() {
            return Err(ExecuteError::AddressFault(address));
        }
        Ok(false)
    }

    /// `MOV_MEM_REG addr16 reg`: the register gets the word at the address.
    fn exec_mov_mem_reg(&mut self) -> (r: Result<bool, ExecuteError>)
        requires
            old(self).wf(),
        ensures
            final(self).wf(),
            (final(self)@, r) == mov_mem_reg_spec::<D>(old(self)@),
    {
        let address = self.fetch16()?;
        let reg_to = self.fetch_register_index()?;
        match self.memory.read_at_u16(address as usize) {
            Some(value) => self.write_register_at(reg_to, value),
            None => return Err(ExecuteError::AddressFault(address)),
        }
        Ok(false)
    }

    /// `ADD_REG_REG a b`: ACC gets `a + b`, wrapping.
    fn exec_add_reg_reg(&mut self) -> (r: Result<bool, ExecuteError>)
        requires
            old(self).wf(),
        ensures
            final(self).wf(),
            (final(self)@, r) == add_reg_reg_spec::<D>(old(self)@),
    {
        let reg1 = self.fetch_register_index()?;
        let reg2 = self.fetch_register_index()?;
        let reg1_value = self.read_register_at(reg1);
        let reg2_value = self.read_register_at(reg2);
        self.set_register(Register::Acc, reg1_value.wrapping_add(reg2_value));
        Ok(false)
    }

    /// `JMP_NOT_EQ lit16 addr16`: IP gets the address when ACC differs from the literal.
    fn exec_jmp_not_eq(&mut self) -> (r: Result<bool, ExecuteError>)
        requires
            old(self).wf(),
        ensures
            final(self).wf(),
            (final(self)@, r) == jmp_not_eq_spec::<D>(old(self)@),
    {
        let value = self.fetch16()?;
        let address = self.fetch16()?;
        if value != self.get_register(Register::Acc) {
            self.set_register(Register::Ip, address);
        }
        Ok(false)
    }

    /// `PSH_LIT lit16`: pushes the literal.
    fn exec_psh_lit(&mut self) -> (r: Result<bool, ExecuteError>)
        requires
            old(self).wf(),
        ensures
            final(self).wf(),
            (final(self)@, r) == psh_lit_spec::<D>(old(self)@),
    {
        let value = self.fetch16()?;
        self.push(value)?;
        Ok(false)
    }

    /// `PSH_REG reg`: pushes the register.
    fn exec_psh_reg(&mut self) -> (r: Result<bool, ExecuteError>)
        requires
            old(self).wf(),
        ensures
            final(self).wf(),
            (final(self)@, r) == psh_reg_spec::<D>(old(self)@),
    {
        let reg = self.fetch_register_index()?;
        let value = self.read_register_at(reg);
        self.push(value)?;
        Ok(false)
    }

    /// `POP reg`: the register gets a popped word.
    fn exec_pop_reg(&mut self) -> (r: Result<bool, ExecuteError>)
        requires
            old(self).wf(),
        ensures
            final(self).wf(),
            (final(self)@, r) == pop_reg_spec::<D>(old(self)@),
    {
        let reg = self.fetch_register_index()?;
        let value = self.pop()?;
        self.write_register_at(reg, value);
        Ok(false)
    }

    /// `CAL_LIT addr16`: saves the caller's state, then IP gets the address.
    fn exec_cal_lit(&mut self) -> (r: Result<bool, ExecuteError>)
        requires
            old(self).wf(),
        ensures
            final(self).wf(),
            (final(self)@, r) == cal_lit_spec::<D>(old(self)@),
    {
        let address = self.fetch16()?;
        self.push_state()?;
        self.set_register(Register::Ip, address);
        Ok(false)
    }

    /// `CAL_REG reg`: saves the caller's state, then IP gets the register's value.
    fn exec_cal_reg(&mut self) -> (r: Result<bool, ExecuteError>)
        requires
            old(self).wf(),
        ensures
            final(self).wf(),
            (final(self)@, r) == cal_reg_spec::<D>(old(self)@),
    {
        let reg = self.fetch_register_index()?;
        let address = self.read_register_at(reg);
        self.push_state()?;
        self.set_register(Register::Ip, address);
        Ok(false)
    }

    /// `RET`: restores the caller's state.
    fn exec_ret(&mut self) -> (r: Result<bool, ExecuteError>)
        requires
            old(self).wf(),
        ensures
            final(self).wf(),
            (final(self)@, r) == ret_spec::<D>(old(self)@),
    {
        self.pop_state()?;
        Ok(false)
    }

    /// Executes one instruction whose opcode was fetched; `Ok(true)` means
    /// halt.
    pub fn execute(&mut self, instruction: u8) -> (r: Result<bool, ExecuteError>)
        requires
            old(self).wf(),
        ensures
            final(self).wf(),
            (final(self)@, r) == execute_spec::<D>(old(self)@, instruction),
    {
        if instruction == MOV_LIT_REG {
            self.exec_mov_lit_reg()
        } else if instruction == MOV_REG_REG {
            self.exec_mov_reg_reg()
        } else if instruction == MOV_REG_MEM {
            self.exec_mov_reg_mem()
        } else if instruction == MOV_MEM_REG {
            self.exec_mov_mem_reg()
        } else if instruction == ADD_REG_REG {
            self.exec_add_reg_reg()
        } else if instruction == JMP_NOT_EQ {
            self.exec_jmp_not_eq()
        } else if instruction == PSH_LIT {
            self.exec_psh_lit()
        } else if instruction == PSH_REG {
            self.exec_psh_reg()
        } else if instruction == POP {
            self.exec_pop_reg()
        } else if instruction == CAL_LIT {
            self.exec_cal_lit()
        } else if instruction == CAL_REG {
            self.exec_cal_reg()
        } else if instruction == RET {
            self.exec_ret()
        } else if instruction == HLT {
            Ok(true)
        } else if instruction == 0 {
            Err(ExecuteError::NullByte)
        } else {
            Err(ExecuteError::UnknownInstruction(instruction))
        }
    }

    /// One fetch-decode-execute cycle; `Ok(true)` means halt.
    pub fn step(&mut self) -> (r: Result<bool, ExecuteError>)
        requires
            old(self).wf(),
        ensures
            final(self).wf(),
            (final(self)@, r) == step_spec::<D>(old(self)@),
    {
        let instruction = self.fetch()?;
        self.execute(instruction)
    }

    /// Steps until the program halts (`Ok(true)`) or a step fails. After
    /// `u64::MAX` steps without either it stops with `Ok(false)`.
    pub fn run(&mut self) -> (r: Result<bool, ExecuteError>)
        requires
            old(self).wf(),
        ensures
            final(self).wf(),
            (final(self)@, r) == run_spec::<D>(old(self)@, u64::MAX as nat),
    {
        let mut fuel: u64 = u64::MAX;
        while fuel > 0
            invariant
                self.wf(),
                run_spec::<D>(self@, fuel as nat) == run_spec::<D>(old(self)@, u64::MAX as nat),
            decreases fuel,
        {
            let r = self.step();
            match r {
                Ok(false) => {},
                _ => return r,
            }
            fuel = fuel - 1;
        }
        Ok(false)
    }

    /// The `n + 1` bytes from `address` on, or `Err` if the address space
    /// cannot read one of them.
    pub fn view_memory_at(&self, address: usize, n: usize) -> (r: Result<Vec<u8>, ()>)
        requires
            address + n < usize::MAX,
        ensures
            (forall|i: int| 0 <= i <= n ==> #[trigger] D::read_u8_spec(self@.memory, address + i) is Some)
                <==> r is Ok,
            r is Ok ==> r->Ok_0@.len() == n + 1 && forall|i: int|
                0 <= i <= n ==> D::read_u8_spec(self@.memory, address + i) == Some(
                    #[trigger] r->Ok_0@[i],
                ),
    {
        let mut next_bytes: Vec<u8> = Vec::new();
        let mut i: usize = 0;
        while i <= n
            invariant
                address + n < usize::MAX,
                i <= n + 1,
                next_bytes@.len() == i,
                forall|j: int| 0 <= j < i ==> D::read_u8_spec(self@.memory, address + j) == Some(
                    #[trigger] next_bytes@[j],
                ),
            decreases n + 1 - i,
        {
            match self.memory.read_at_u8(address + i) {
                Some(b) => next_bytes.push(b),
                None => return Err(()),
            }
            i = i + 1;
        }
        assert forall|j: int| 0 <= j <= n implies #[trigger] D::read_u8_spec(self@.memory, address + j)
            is Some by {
            assert(D::read_u8_spec(self@.memory, address + j) == Some(next_bytes@[j]));
        }
        Ok(next_bytes)
    }

    /// The address space, for draining peripherals between steps.
    pub fn memory_mut(&mut self) -> (r: &mut D)
        ensures
            r@ == old(self)@.memory,
            final(self)@ == (CpuState { memory: final(r)@, ..old(self)@ }),
            old(self).wf() ==> final(self).wf(),
    {
        &mut self.memory
    }

    /// Gives back the address space.
    pub fn into_memory(self) -> (r: D)
        ensures
            r@ == self@.memory,
    {
        *self.memory
    }
}

} // verus!
