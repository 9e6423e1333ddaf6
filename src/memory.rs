//! Plain memory: a byte buffer that serves every offset inside it.

use vstd::prelude::*;
use crate::device::Device;
use crate::device::{bytes_read_u8, bytes_read_u16, bytes_write_u8, bytes_write_u16};

verus! {

/// A zero-filled buffer of `bytes` bytes.
pub fn create_memory(bytes: usize) -> (r: Vec<u8>)
    requires
        bytes > 0,
    ensures
        r@ == Seq::new(bytes as nat, |_i: int| 0u8),
{
    let mut v: Vec<u8> = Vec::with_capacity(bytes);
    let mut i: usize = 0;
    while i < bytes
        invariant
            i <= bytes,
            v@ == Seq::new(i as nat, |_i: int| 0u8),
        decreases bytes - i,
    {
        v.push(0);
        i = i + 1;
    }
    v
}

/// The most basic device: a byte buffer.
pub struct Memory {
    internal_mem: Vec<u8>,
}

impl View for Memory {
    type V = Seq<u8>;

    closed spec fn view(&self) -> Seq<u8> {
        self.internal_mem@
    }
}

impl Memory {
    pub fn from_num_of_bytes(bytes: usize) -> (r: Self)
        requires
            bytes > 0,
        ensures
            r@ == Seq::new(bytes as nat, |_i: int| 0u8),
    {
        Self { internal_mem: create_memory(bytes) }
    }

    pub fn from_vec(mem: Vec<u8>) -> (r: Self)
        ensures
            r@ == mem@,
    {
        Self { internal_mem: mem }
    }

    /// The bytes held, for inspection once a run is over.
    pub fn into_vec(self) -> (r: Vec<u8>)
        ensures
            r@ == self@,
    {
        self.internal_mem
    }
}

impl Device for Memory {
    open spec fn read_u8_spec(state: Seq<u8>, offset: int) -> Option<u8> {
        bytes_read_u8(state, offset)
    }

    open spec fn read_u16_spec(state: Seq<u8>, offset: int) -> Option<u16> {
        bytes_read_u16(state, offset)
    }

    open spec fn write_u8_spec(state: Seq<u8>, offset: int, num: u8) -> Option<Seq<u8>> {
        bytes_write_u8(state, offset, num)
    }

    open spec fn write_u16_spec(state: Seq<u8>, offset: int, num: u16) -> Option<Seq<u8>> {
        bytes_write_u16(state, offset, num)
    }

    fn read_at_u8(&self, offset: usize) -> (r: Option<u8>) {
        self.internal_mem.read_at_u8(offset)
    }

    fn read_at_u16(&self, offset: usize) -> (r: Option<u16>) {
        self.internal_mem.read_at_u16(offset)
    }

    fn write_at_u8(&mut self, offset: usize, num: u8) -> (r: Result<(), ()>) {
        self.internal_mem.write_at_u8(offset, num)
    }

    fn write_at_u16(&mut self, offset: usize, num: u16) -> (r: Result<(), ()>) {
        self.internal_mem.write_at_u16(offset, num)
    }
}

} // verus!
