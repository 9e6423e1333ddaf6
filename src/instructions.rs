//! Opcodes of the instruction set.

use vstd::prelude::*;

verus! {

/// `MOV_LIT_REG lit16 reg`: reg <- lit16
pub const MOV_LIT_REG: u8 = 0x10;

/// `MOV_REG_REG reg reg`: second <- first
pub const MOV_REG_REG: u8 = 0x11;

/// `MOV_REG_MEM reg addr16`: memory[addr] <- reg
pub const MOV_REG_MEM: u8 = 0x12;

/// `MOV_MEM_REG addr16 reg`: reg <- memory[addr]
pub const MOV_MEM_REG: u8 = 0x13;

/// `ADD_REG_REG reg reg`: ACC <- first + second, wrapping
pub const ADD_REG_REG: u8 = 0x14;

/// `JMP_NOT_EQ lit16 addr16`: IP <- addr when ACC differs from lit16
pub const JMP_NOT_EQ: u8 = 0x15;

/// `PSH_LIT lit16`: push lit16
pub const PSH_LIT: u8 = 0x17;

/// `PSH_REG reg`: push the register's value
pub const PSH_REG: u8 = 0x18;

/// `POP reg`: reg <- pop
pub const POP: u8 = 0x1A;

/// `CAL_LIT addr16`: save the caller's state, IP <- addr
pub const CAL_LIT: u8 = 0x5E;

/// `CAL_REG reg`: save the caller's state, IP <- reg
pub const CAL_REG: u8 = 0x5F;

/// `RET`: restore the caller's state
pub const RET: u8 = 0x60;

/// `HLT`: stop
pub const HLT: u8 = 0xFF;

} // verus!
