//! Cartridges without banking: the ROM is mapped as it is and there is no RAM.
use super::{byte_or_zero, read_or_zero};
use vstd::prelude::*;

verus! {

pub struct MBC0 {
    pub rom: Vec<u8>,
}

impl MBC0 {
    pub fn new(raw: Vec<u8>) -> (r: Result<Self, &'static str>)
        ensures
            r is Ok,
            r.unwrap().rom@ == raw@,
    {
        Ok(MBC0 { rom: raw })
    }

    /// The byte at `addr` of the ROM, or 0 past its end.
    pub fn read_rom(&self, addr: u16) -> (r: u8)
        ensures
            r == byte_or_zero(self.rom@, addr as int),
    {
        read_or_zero(&self.rom, addr as usize)
    }

    pub fn read_ram(&self, _addr: u16) -> (r: u8)
        ensures
            r == 0,
    {
        0
    }

    pub fn write_rom(&mut self, _addr: u16, _data: u8)
        ensures
            *final(self) == *old(self),
    {
    }

    pub fn write_ram(&mut self, _addr: u16, _data: u8)
        ensures
            *final(self) == *old(self),
    {
    }
}

} // verus!
