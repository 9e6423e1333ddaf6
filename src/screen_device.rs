//! A write-only character screen. Each word written to it is one cell:
//! the high byte a command, the low byte a character, the offset the cell
//! (16 cells to a row). The device decodes writes and queues them; whoever
//! owns the terminal takes the queue and draws it.

use vstd::prelude::*;
use crate::device::Device;
use crate::device::{high_byte, low_byte};

verus! {

/// Cells per screen row.
pub const SCREEN_WIDTH: usize = 16;

/// What a write asks of the terminal before the character is drawn.
#[derive(Copy, Clone, Debug, PartialEq, Eq, Structural)]
pub enum ScreenCommand {
    /// Command byte 0xFF: clear the whole screen.
    Clear,
    /// Command byte 0x01: draw in bold from now on.
    Bold,
    /// Command byte 0x02: draw in the regular weight from now on.
    Regular,
    /// Any other command byte: draw only.
    Draw,
}

/// One decoded write: the command, the terminal position, and the character.
#[derive(Copy, Clone, Debug, PartialEq, Eq, Structural)]
pub struct ScreenWrite {
    pub command: ScreenCommand,
    /// Terminal column: two columns per cell.
    pub column: usize,
    pub row: usize,
    pub character: u8,
}

pub open spec fn command_of(byte: u8) -> ScreenCommand {
    if byte == 0xFF {
        ScreenCommand::Clear
    } else if byte == 0x01 {
        ScreenCommand::Bold
    } else if byte == 0x02 {
        ScreenCommand::Regular
    } else {
        ScreenCommand::Draw
    }
}

/// The write that the word `num` at cell `offset` stands for.
pub open spec fn screen_write_of(offset: usize, num: u16) -> ScreenWrite {
    ScreenWrite {
        command: command_of(high_byte(num)),
        column: ((offset % SCREEN_WIDTH) * 2) as usize,
        row: (offset / SCREEN_WIDTH) as usize,
        character: low_byte(num),
    }
}

/// Decodes a word written at a cell.
pub fn decode_screen_write(offset: usize, num: u16) -> (r: ScreenWrite)
    ensures
        r == screen_write_of(offset, num),
{
    let command_byte = (num / 256) as u8;
    let command = if command_byte == 0xFF {
        ScreenCommand::Clear
    } else if command_byte == 0x01 {
        ScreenCommand::Bold
    } else if command_byte == 0x02 {
        ScreenCommand::Regular
    } else {
        ScreenCommand::Draw
    };
    ScreenWrite {
        command,
        column: (offset % SCREEN_WIDTH) * 2,
        row: offset / SCREEN_WIDTH,
        character: (num % 256) as u8,
    }
}

/// The screen, with the writes not yet drawn.
pub struct ScreenDevice {
    pending: Vec<ScreenWrite>,
}

impl View for ScreenDevice {
    type V = Seq<ScreenWrite>;

    closed spec fn view(&self) -> Seq<ScreenWrite> {
        self.pending@
    }
}

impl ScreenDevice {
    pub fn new() -> (r: Self)
        ensures
            r@ == Seq::<ScreenWrite>::empty(),
    {
        Self { pending: Vec::new() }
    }

    /// Hands out the writes queued so far, oldest first, and empties the queue.
    pub fn take_output(&mut self) -> (r: Vec<ScreenWrite>)
        ensures
            r@ == old(self)@,
            final(self)@ == Seq::<ScreenWrite>::empty(),
    {
        let mut out: Vec<ScreenWrite> = Vec::new();
        std::mem::swap(&mut out, &mut self.pending);
        out
    }
}

impl Device for ScreenDevice {
    /// The screen cannot be read.
    open spec fn read_u8_spec(state: Seq<ScreenWrite>, offset: int) -> Option<u8> {
        None
    }

    open spec fn read_u16_spec(state: Seq<ScreenWrite>, offset: int) -> Option<u16> {
        None
    }

    /// Cells are written a word at a time; byte writes are refused.
    open spec fn write_u8_spec(state: Seq<ScreenWrite>, offset: int, num: u8) -> Option<
        Seq<ScreenWrite>,
    > {
        None
    }

    open spec fn write_u16_spec(state: Seq<ScreenWrite>, offset: int, num: u16) -> Option<
        Seq<ScreenWrite>,
    > {
        Some(state.push(screen_write_of(offset as usize, num)))
    }

    fn read_at_u8(&self, offset: usize) -> (r: Option<u8>) {
        None
    }

    fn read_at_u16(&self, offset: usize) -> (r: Option<u16>) {
        None
    }

    fn write_at_u8(&mut self, offset: usize, num: u8) -> (r: Result<(), ()>) {
        Err(())
    }

    fn write_at_u16(&mut self, offset: usize, num: u16) -> (r: Result<(), ()>) {
        let w = decode_screen_write(offset, num);
        self.pending.push(w);
        Ok(())
    }
}

} // verus!
