//! The device capability: byte and word access over a local offset space.
//!
//! Words are two bytes in big-endian order, everywhere: in memory, in the
//! register file and on peripherals.

use vstd::prelude::*;

verus! {

/// The word whose high byte is `hi` and whose low byte is `lo`.
pub open spec fn word_of(hi: u8, lo: u8) -> u16 {
    (hi as nat * 256 + lo as nat) as u16
}

pub open spec fn high_byte(v: u16) -> u8 {
    (v as nat / 256) as u8
}

pub open spec fn low_byte(v: u16) -> u8 {
    (v as nat % 256) as u8
}

/// Reading back the two bytes of a word gives the word.
pub proof fn lemma_word_of_bytes(v: u16)
    ensures
        word_of(high_byte(v), low_byte(v)) == v,
{
}

/// The byte at `offset`, or `None` past the end.
pub open spec fn bytes_read_u8(b: Seq<u8>, offset: int) -> Option<u8> {
    if 0 <= offset < b.len() {
        Some(b[offset])
    } else {
        None
    }
}

/// The big-endian word at `offset`, or `None` where it does not fit.
pub open spec fn bytes_read_u16(b: Seq<u8>, offset: int) -> Option<u16> {
    if 0 <= offset && offset + 2 <= b.len() {
        Some(word_of(b[offset], b[offset + 1]))
    } else {
        None
    }
}

pub open spec fn bytes_write_u8(b: Seq<u8>, offset: int, num: u8) -> Option<Seq<u8>> {
    if 0 <= offset < b.len() {
        Some(b.update(offset, num))
    } else {
        None
    }
}

pub open spec fn bytes_write_u16(b: Seq<u8>, offset: int, num: u16) -> Option<Seq<u8>> {
    if 0 <= offset && offset + 2 <= b.len() {
        Some(b.update(offset, high_byte(num)).update(offset + 1, low_byte(num)))
    } else {
        None
    }
}

/// Anything that can be read and written by byte and by word at local
/// offsets. A read that returns `None`, or a write that returns `Err`, means
/// that the device cannot serve that offset or that operation; a failed write
/// leaves the device as it was.
pub trait Device: View + Sized {
    spec fn read_u8_spec(state: Self::V, offset: int) -> Option<u8>;

    spec fn read_u16_spec(state: Self::V, offset: int) -> Option<u16>;

    spec fn write_u8_spec(state: Self::V, offset: int, num: u8) -> Option<Self::V>;

    spec fn write_u16_spec(state: Self::V, offset: int, num: u16) -> Option<Self::V>;

    fn read_at_u8(&self, offset: usize) -> (r: Option<u8>)
        ensures
            r == Self::read_u8_spec(self@, offset as int),
    ;

    fn read_at_u16(&self, offset: usize) -> (r: Option<u16>)
        ensures
            r == Self::read_u16_spec(self@, offset as int),
    ;

    fn write_at_u8(&mut self, offset: usize, num: u8) -> (r: Result<(), ()>)
        ensures
            match Self::write_u8_spec(old(self)@, offset as int, num) {
                Some(s) => r is Ok && final(self)@ == s,
                None => r is Err && final(self)@ == old(self)@,
            },
    ;

    fn write_at_u16(&mut self, offset: usize, num: u16) -> (r: Result<(), ()>)
        ensures
            match Self::write_u16_spec(old(self)@, offset as int, num) {
                Some(s) => r is Ok && final(self)@ == s,
                None => r is Err && final(self)@ == old(self)@,
            },
    ;
}

/// Relies on data_view::View::read_at::<u8> on a byte slice: the byte at
/// `offset`, or `None` when `offset + 1` passes the end.
#[verifier::external_body]
fn view_read_u8(bytes: &Vec<u8>, offset: usize) -> (r: Option<u8>)
    requires
        offset < usize::MAX,
    ensures
        r == bytes_read_u8(bytes@, offset as int),
{
    data_view::View::read_at::<u8>(bytes.as_slice(), offset)
}

/// Relies on data_view::View::read_at::<u16> on a byte slice, built with the
/// crate's `BE` feature: the big-endian word at `offset`, or `None` when
/// `offset + 2` passes the end.
#[verifier::external_body]
fn view_read_u16(bytes: &Vec<u8>, offset: usize) -> (r: Option<u16>)
    requires
        offset < usize::MAX - 1,
    ensures
        r == bytes_read_u16(bytes@, offset as int),
{
    data_view::View::read_at::<u16>(bytes.as_slice(), offset)
}

/// Relies on data_view::View::write_at::<u8> on a byte slice: stores the byte
/// at `offset`, or fails and changes nothing when `offset + 1` passes the end.
#[verifier::external_body]
fn view_write_u8(bytes: &mut Vec<u8>, offset: usize, num: u8) -> (r: Result<(), ()>)
    requires
        offset < usize::MAX,
    ensures
        match bytes_write_u8(old(bytes)@, offset as int, num) {
            Some(s) => r is Ok && final(bytes)@ == s,
            None => r is Err && final(bytes)@ == old(bytes)@,
        },
{
    data_view::View::write_at::<u8>(bytes.as_mut_slice(), offset, num)
}

/// Relies on data_view::View::write_at::<u16> on a byte slice, built with the
/// crate's `BE` feature: stores the word big-endian at `offset`, or fails and
/// changes nothing when `offset + 2` passes the end.
#[verifier::external_body]
fn view_write_u16(bytes: &mut Vec<u8>, offset: usize, num: u16) -> (r: Result<(), ()>)
    requires
        offset < usize::MAX - 1,
    ensures
        match bytes_write_u16(old(bytes)@, offset as int, num) {
            Some(s) => r is Ok && final(bytes)@ == s,
            None => r is Err && final(bytes)@ == old(bytes)@,
        },
{
    data_view::View::write_at::<u16>(bytes.as_mut_slice(), offset, num)
}

impl Device for Vec<u8> {
    open spec fn read_u8_spec(state: Seq<u8>, offset: int) -> Option<u8> {
        bytes_read_u8(state, offset)
    }

    open spec fn read_u16_spec(state: Seq<u8>, offset: int) -> Option<u16> {
        bytes_read_u16(state, offset)
    }

    open spec fn write_u8_spec(state: Seq<u8>, offset: int, num: u8) -> Option<Seq<u8>> {
        bytes_write_u8(state, offset, num)
    }

    open spec fn write_u16_spec(state: Seq<u8>, offset: int, num: u16) -> Option<Seq<u8>> {
        bytes_write_u16(state, offset, num)
    }

    fn read_at_u8(&self, offset: usize) -> (r: Option<u8>) {
        if offset >= self.len() {
            return None;
        }
        view_read_u8(self, offset)
    }

    fn read_at_u16(&self, offset: usize) -> (r: Option<u16>) {
        if offset >= self.len() || offset >= usize::MAX - 1 {
            return None;
        }
        view_read_u16(self, offset)
    }

    fn write_at_u8(&mut self, offset: usize, num: u8) -> (r: Result<(), ()>) {
        if offset >= self.len() {
            return Err(());
        }
        view_write_u8(self, offset, num)
    }

    fn write_at_u16(&mut self, offset: usize, num: u16) -> (r: Result<(), ()>) {
        if offset >= self.len() || offset >= usize::MAX - 1 {
            return Err(());
        }
        view_write_u16(self, offset, num)
    }
}

} // verus!
