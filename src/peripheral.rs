//! The devices that this library provides, as one type, so that a single
//! memory mapper can hold memory and a screen side by side.

use vstd::prelude::*;
use crate::device::Device;
use crate::memory::Memory;
use crate::screen_device::{ScreenDevice, ScreenWrite};

verus! {

pub enum Peripheral {
    Memory(Memory),
    Screen(ScreenDevice),
}

pub enum PeripheralState {
    Memory(Seq<u8>),
    Screen(Seq<ScreenWrite>),
}

impl View for Peripheral {
    type V = PeripheralState;

    open spec fn view(&self) -> PeripheralState {
        match self {
            Peripheral::Memory(m) => PeripheralState::Memory(m@),
            Peripheral::Screen(d) => PeripheralState::Screen(d@),
        }
    }
}

impl Peripheral {
    /// The screen's queued writes, which are then gone from it; nothing for
    /// memory.
    pub fn take_screen_output(&mut self) -> (r: Vec<ScreenWrite>)
        ensures
            match old(self)@ {
                PeripheralState::Screen(q) => r@ == q && final(self)@ == PeripheralState::Screen(
                    Seq::empty(),
                ),
                PeripheralState::Memory(b) => r@.len() == 0 && final(self)@ == old(self)@,
            },
    {
        match self {
            Peripheral::Memory(_) => Vec::new(),
            Peripheral::Screen(d) => d.take_output(),
        }
    }
}

impl Device for Peripheral {
    open spec fn read_u8_spec(state: PeripheralState, offset: int) -> Option<u8> {
        match state {
            PeripheralState::Memory(b) => Memory::read_u8_spec(b, offset),
            PeripheralState::Screen(q) => ScreenDevice::read_u8_spec(q, offset),
        }
    }

    open spec fn read_u16_spec(state: PeripheralState, offset: int) -> Option<u16> {
        match state {
            PeripheralState::Memory(b) => Memory::read_u16_spec(b, offset),
            PeripheralState::Screen(q) => ScreenDevice::read_u16_spec(q, offset),
        }
    }

    open spec fn write_u8_spec(state: PeripheralState, offset: int, num: u8) -> Option<
        PeripheralState,
    > {
        match state {
            PeripheralState::Memory(b) => match Memory::write_u8_spec(b, offset, num) {
                Some(b2) => Some(PeripheralState::Memory(b2)),
                None => None,
            },
            PeripheralState::Screen(q) => match ScreenDevice::write_u8_spec(q, offset, num) {
                Some(q2) => Some(PeripheralState::Screen(q2)),
                None => None,
            },
        }
    }

    open spec fn write_u16_spec(state: PeripheralState, offset: int, num: u16) -> Option<
        PeripheralState,
    > {
        match state {
            PeripheralState::Memory(b) => match Memory::write_u16_spec(b, offset, num) {
                Some(b2) => Some(PeripheralState::Memory(b2)),
                None => None,
            },
            PeripheralState::Screen(q) => match ScreenDevice::write_u16_spec(q, offset, num) {
                Some(q2) => Some(PeripheralState::Screen(q2)),
                None => None,
            },
        }
    }

    fn read_at_u8(&self, offset: usize) -> (r: Option<u8>) {
        match self {
            Peripheral::Memory(m) => m.read_at_u8(offset),
            Peripheral::Screen(d) => d.read_at_u8(offset),
        }
    }

    fn read_at_u16(&self, offset: usize) -> (r: Option<u16>) {
        match self {
            Peripheral::Memory(m) => m.read_at_u16(offset),
            Peripheral::Screen(d) => d.read_at_u16(offset),
        }
    }

    fn write_at_u8(&mut self, offset: usize, num: u8) -> (r: Result<(), ()>) {
        match self {
            Peripheral::Memory(m) => m.write_at_u8(offset, num),
            Peripheral::Screen(d) => d.write_at_u8(offset, num),
        }
    }

    fn write_at_u16(&mut self, offset: usize, num: u16) -> (r: Result<(), ()>) {
        match self {
            Peripheral::Memory(m) => m.write_at_u16(offset, num),
            Peripheral::Screen(d) => d.write_at_u16(offset, num),
        }
    }
}

} // verus!
