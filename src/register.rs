//! Register names and their place in the register file.

use vstd::prelude::*;

verus! {

/// Number of registers in the register file.
pub const REGISTER_COUNT: usize = 12;

/// The registers, in ordinal order. Each is a 16-bit value stored at
/// `ordinal * 2` in the register file.
#[derive(Copy, Clone, Debug, PartialEq, Eq, Structural)]
pub enum Register {
    Ip,
    Acc,
    R1,
    R2,
    R3,
    R4,
    R5,
    R6,
    R7,
    R8,
    Sp,
    Fp,
}

impl Register {
    /// The register's ordinal: its number in encoded programs.
    pub open spec fn ordinal(self) -> nat {
        match self {
            Register::Ip => 0,
            Register::Acc => 1,
            Register::R1 => 2,
            Register::R2 => 3,
            Register::R3 => 4,
            Register::R4 => 5,
            Register::R5 => 6,
            Register::R6 => 7,
            Register::R7 => 8,
            Register::R8 => 9,
            Register::Sp => 10,
            Register::Fp => 11,
        }
    }

    /// Byte offset of the register in the register file.
    pub fn as_index(&self) -> (r: usize)
        ensures
            r == 2 * self.ordinal(),
            r + 2 <= 2 * REGISTER_COUNT,
    {
        // each register is two bytes wide
        match self {
            Register::Ip => 0,
            Register::Acc => 2,
            Register::R1 => 4,
            Register::R2 => 6,
            Register::R3 => 8,
            Register::R4 => 10,
            Register::R5 => 12,
            Register::R6 => 14,
            Register::R7 => 16,
            Register::R8 => 18,
            Register::Sp => 20,
            Register::Fp => 22,
        }
    }

    /// The register with the given ordinal, if there is one.
    pub fn from_ordinal(n: u8) -> (r: Option<Register>)
        ensures
            n < REGISTER_COUNT ==> r is Some && r->0.ordinal() == n,
            n >= REGISTER_COUNT ==> r is None,
    {
        match n {
            0 => Some(Register::Ip),
            1 => Some(Register::Acc),
            2 => Some(Register::R1),
            3 => Some(Register::R2),
            4 => Some(Register::R3),
            5 => Some(Register::R4),
            6 => Some(Register::R5),
            7 => Some(Register::R6),
            8 => Some(Register::R7),
            9 => Some(Register::R8),
            10 => Some(Register::Sp),
            11 => Some(Register::Fp),
            _ => None,
        }
    }
}

/// Distinct registers sit at distinct offsets.
pub proof fn lemma_ordinal_injective(a: Register, b: Register)
    ensures
        a.ordinal() == b.ordinal() ==> a == b,
        a.ordinal() < REGISTER_COUNT,
{
}

} // verus!
