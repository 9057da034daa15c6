//! The combo controller: a 7-bit ROM bank number whose two upper bits share
//! a register with the 2-bit RAM bank number, chosen by a mode flag.
use super::{byte_or_zero, get_ram_size, ram_size_of, read_or_zero, store_if_in, store_if_in_range};
use vstd::prelude::*;

verus! {

/// The value that enables cartridge RAM when written to 0x0000..=0x1FFF.
pub const RAM_ENABLE_SENTINEL: u8 = 0x0A;

pub struct MBC1 {
    pub rom: Vec<u8>,
    pub ram: Vec<u8>,
    pub rom_bank_idx: usize,
    pub ram_bank_idx: usize,
    pub ram_enabled: bool,
    /// Set: the shared register selects the RAM bank; clear: the upper ROM bank bits.
    pub ram_mode: bool,
    /// Whether the cartridge keeps its RAM on a battery.
    pub battery: bool,
}

/// The low five bits of a ROM bank number written to 0x2000..=0x3FFF; bank 0 reads as 1.
pub open spec fn low_bank_bits(data: u8) -> usize {
    if data % 32 == 0 {
        1
    } else {
        (data % 32) as usize
    }
}

impl MBC1 {
    pub open spec fn wf(&self) -> bool {
        &&& 1 <= self.rom_bank_idx % 32
        &&& self.rom_bank_idx < 128
        &&& self.ram_bank_idx < 4
    }

    /// The RAM bank that accesses to 0xA000..=0xBFFF go to.
    pub open spec fn ram_bank(&self) -> int {
        if self.ram_mode {
            self.ram_bank_idx as int
        } else {
            0
        }
    }

    pub open spec fn rom_byte(&self, addr: u16) -> u8 {
        if addr <= 0x3FFF {
            byte_or_zero(self.rom@, addr as int)
        } else {
            byte_or_zero(self.rom@, self.rom_bank_idx * 0x4000 + (addr - 0x4000))
        }
    }

    /// Offset into the RAM of an access to the bus address `addr`
    /// (0xA000..=0xBFFF): the bank times 0x2000, plus `addr - 0x2000`. An
    /// offset past the end of the RAM reads 0 and drops writes.
    pub open spec fn ram_index(&self, addr: u16) -> int {
        self.ram_bank() * 0x2000 + (addr - 0x2000)
    }

    pub open spec fn ram_byte(&self, addr: u16) -> u8 {
        if self.ram_enabled {
            byte_or_zero(self.ram@, self.ram_index(addr))
        } else {
            0
        }
    }

    /// `self` is `pre` after a write of `data` to the control register at `addr`.
    pub open spec fn after_control_write(&self, pre: Self, addr: u16, data: u8) -> bool {
        &&& self.rom@ == pre.rom@
        &&& self.ram@ == pre.ram@
        &&& self.battery == pre.battery
        &&& if addr <= 0x1FFF {
            &&& self.ram_enabled == (data == RAM_ENABLE_SENTINEL)
            &&& self.rom_bank_idx == pre.rom_bank_idx
            &&& self.ram_bank_idx == pre.ram_bank_idx
            &&& self.ram_mode == pre.ram_mode
        } else if addr <= 0x3FFF {
            &&& self.ram_enabled == pre.ram_enabled
            &&& self.rom_bank_idx == (pre.rom_bank_idx / 32) * 32 + low_bank_bits(data)
            &&& self.ram_bank_idx == pre.ram_bank_idx
            &&& self.ram_mode == pre.ram_mode
        } else if addr <= 0x5FFF {
            &&& self.ram_enabled == pre.ram_enabled
            &&& self.ram_mode == pre.ram_mode
            &&& if pre.ram_mode {
                self.ram_bank_idx == data % 4 && self.rom_bank_idx == pre.rom_bank_idx
            } else {
                self.ram_bank_idx == pre.ram_bank_idx && self.rom_bank_idx == pre.rom_bank_idx % 32
                    + (data % 4) * 32
            }
        } else {
            &&& self.ram_enabled == pre.ram_enabled
            &&& self.rom_bank_idx == pre.rom_bank_idx
            &&& self.ram_bank_idx == pre.ram_bank_idx
            &&& self.ram_mode == (data % 2 == 1)
        }
    }

    /// `self` is `pre` after a write of `data` to `addr` in 0xA000..=0xBFFF.
    pub open spec fn after_ram_write(&self, pre: Self, addr: u16, data: u8) -> bool {
        &&& self.rom@ == pre.rom@
        &&& self.ram@ == if pre.ram_enabled {
            store_if_in(pre.ram@, pre.ram_index(addr), data)
        } else {
            pre.ram@
        }
        &&& self.rom_bank_idx == pre.rom_bank_idx
        &&& self.ram_bank_idx == pre.ram_bank_idx
        &&& self.ram_enabled == pre.ram_enabled
        &&& self.ram_mode == pre.ram_mode
        &&& self.battery == pre.battery
    }

    /// A controller for `raw`: RAM sized by the header for the types that have
    /// RAM (0x02, 0x03), a battery for 0x03; bank 1 selected, RAM disabled.
    pub fn new(raw: Vec<u8>) -> (r: Result<Self, &'static str>)
        ensures
            r is Ok,
            r.unwrap().wf(),
            r.unwrap().rom@ == raw@,
            r.unwrap().ram@.len() == if byte_or_zero(raw@, 0x147) == 0x02 || byte_or_zero(raw@, 0x147) == 0x03 {
                ram_size_of(byte_or_zero(raw@, 0x149)) as int
            } else {
                0
            },
            forall|i: int| 0 <= i < r.unwrap().ram@.len() ==> r.unwrap().ram@[i] == 0,
            r.unwrap().battery == (byte_or_zero(raw@, 0x147) == 0x03),
            r.unwrap().rom_bank_idx == 1,
            r.unwrap().ram_bank_idx == 0,
            !r.unwrap().ram_enabled,
            !r.unwrap().ram_mode,
    {
        let kind = read_or_zero(&raw, 0x147);
        let ram_size = if kind == 0x02 || kind == 0x03 {
            get_ram_size(read_or_zero(&raw, 0x149))
        } else {
            0
        };
        Ok(MBC1 {
            rom: raw,
            ram: vec![0; ram_size as usize],
            rom_bank_idx: 1,
            ram_bank_idx: 0,
            ram_enabled: false,
            ram_mode: false,
            battery: kind == 0x03,
        })
    }

    pub fn read_rom(&self, addr: u16) -> (r: u8)
        requires
            self.wf(),
            addr <= 0x7FFF,
        ensures
            r == self.rom_byte(addr),
    {
        let index = if addr <= 0x3FFF {
            addr as usize
        } else {
            self.rom_bank_idx * 0x4000 + (addr as usize - 0x4000)
        };
        read_or_zero(&self.rom, index)
    }

    pub fn read_ram(&self, addr: u16) -> (r: u8)
        requires
            self.wf(),
            0xA000 <= addr <= 0xBFFF,
        ensures
            r == self.ram_byte(addr),
    {
        if !self.ram_enabled {
            return 0;
        }
        let bank = if self.ram_mode {
            self.ram_bank_idx
        } else {
            0
        };
        read_or_zero(&self.ram, bank * 0x2000 + (addr as usize - 0x2000))
    }

    pub fn write_rom(&mut self, addr: u16, data: u8)
        requires
            old(self).wf(),
            addr <= 0x7FFF,
        ensures
            final(self).wf(),
            final(self).after_control_write(*old(self), addr, data),
    {
        if addr <= 0x1FFF {
            self.ram_enabled = data == RAM_ENABLE_SENTINEL;
        } else if addr <= 0x3FFF {
            let low = (data as usize & 0x1F);
            let low = if low == 0 {
                1
            } else {
                low
            };
            let bank = self.rom_bank_idx;
            assert((bank & 0x60) == (bank / 32) * 32 && (data as usize & 0x1F) == data % 32)
                by (bit_vector)
                requires
                    bank < 128,
            ;
            assert(1 <= low < 32 ==> ((bank & 0x60) | low) == (bank & 0x60) + low) by (bit_vector);
            self.rom_bank_idx = (bank & 0x60) | low;
        } else if addr <= 0x5FFF {
            if self.ram_mode {
                assert((data as usize & 3) == data % 4) by (bit_vector);
                self.ram_bank_idx = data as usize & 0b0000_0011;
            } else {
                let bank = self.rom_bank_idx;
                let hi = data as usize & 0b0000_0011;
                assert((bank & 0x1F) == bank % 32 && (data as usize & 3) == data % 4) by (bit_vector);
                assert(hi < 4 ==> ((bank & 0x1F) | (hi << 5)) == (bank & 0x1F) + hi * 32) by (bit_vector);
                self.rom_bank_idx = (bank & 0x1F) | (hi << 5);
            }
        } else {
            assert((data & 1) == data % 2) by (bit_vector);
            self.ram_mode = data & 0b1 == 1;
        }
    }

    pub fn write_ram(&mut self, addr: u16, data: u8)
        requires
            old(self).wf(),
            0xA000 <= addr <= 0xBFFF,
        ensures
            final(self).wf(),
            final(self).after_ram_write(*old(self), addr, data),
    {
        if !self.ram_enabled {
            return;
        }
        let bank = if self.ram_mode {
            self.ram_bank_idx
        } else {
            0
        };
        let index = bank * 0x2000 + (addr as usize - 0x2000);
        store_if_in_range(&mut self.ram, index, data);
    }
}

} // verus!
