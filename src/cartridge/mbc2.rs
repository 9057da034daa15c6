//! The RAM-only controller: a 4-bit ROM bank number and 512 built-in RAM
//! cells of four bits each, mirrored over the whole RAM window.
use super::{byte_or_zero, read_or_zero, store_if_in, store_if_in_range};
use vstd::prelude::*;

verus! {

/// Number of built-in RAM cells.
pub const MBC2_RAM_LEN: usize = 0x200;

pub struct MBC2 {
    pub rom: Vec<u8>,
    pub ram: Vec<u8>,
    pub rom_bank_idx: usize,
    pub ram_enabled: bool,
    /// Whether the cartridge keeps its RAM on a battery.
    pub battery: bool,
}

impl MBC2 {
    pub open spec fn wf(&self) -> bool {
        1 <= self.rom_bank_idx < 16 && self.ram@.len() == MBC2_RAM_LEN
    }

    pub open spec fn rom_byte(&self, addr: u16) -> u8 {
        if addr <= 0x3FFF {
            byte_or_zero(self.rom@, addr as int)
        } else {
            byte_or_zero(self.rom@, self.rom_bank_idx * 0x4000 + (addr - 0x4000))
        }
    }

    pub open spec fn ram_index(addr: u16) -> int {
        (addr - 0xA000) % 0x200
    }

    pub open spec fn ram_byte(&self, addr: u16) -> u8 {
        if self.ram_enabled {
            (byte_or_zero(self.ram@, Self::ram_index(addr)) % 16) as u8
        } else {
            0
        }
    }

    /// `self` is `pre` after a write of `data` to the control register at
    /// `addr`. The control bytes in 0x0000..=0x3FFF come in blocks of 0x100
    /// addresses; an even-numbered block (address bit 8 clear: 0x00xx,
    /// 0x02xx, ...) gates the RAM, an odd-numbered one (bit 8 set) selects
    /// the ROM bank. Writes above 0x3FFF change nothing.
    pub open spec fn after_control_write(&self, pre: Self, addr: u16, data: u8) -> bool {
        &&& self.rom@ == pre.rom@
        &&& self.ram@ == pre.ram@
        &&& self.battery == pre.battery
        &&& if addr <= 0x3FFF && (addr / 0x100) % 2 == 0 {
            self.ram_enabled == (data % 16 == 0x0A) && self.rom_bank_idx == pre.rom_bank_idx
        } else if addr <= 0x3FFF {
            &&& self.ram_enabled == pre.ram_enabled
            &&& self.rom_bank_idx == if data % 16 == 0 {
                1
            } else {
                data % 16
            }
        } else {
            self.ram_enabled == pre.ram_enabled && self.rom_bank_idx == pre.rom_bank_idx
        }
    }

    pub open spec fn after_ram_write(&self, pre: Self, addr: u16, data: u8) -> bool {
        &&& self.rom@ == pre.rom@
        &&& self.ram@ == if pre.ram_enabled {
            store_if_in(pre.ram@, Self::ram_index(addr), (data % 16) as u8)
        } else {
            pre.ram@
        }
        &&& self.rom_bank_idx == pre.rom_bank_idx
        &&& self.ram_enabled == pre.ram_enabled
        &&& self.battery == pre.battery
    }

    /// A controller for `raw` with cleared RAM, bank 1 selected and RAM
    /// disabled; type 0x06 has a battery.
    pub fn new(raw: Vec<u8>) -> (r: Result<Self, &'static str>)
        ensures
            r is Ok,
            r.unwrap().wf(),
            r.unwrap().rom@ == raw@,
            r.unwrap().ram@ == Seq::new(MBC2_RAM_LEN as nat, |i: int| 0u8),
            r.unwrap().battery == (byte_or_zero(raw@, 0x147) == 0x06),
            r.unwrap().rom_bank_idx == 1,
            !r.unwrap().ram_enabled,
    {
        let battery = read_or_zero(&raw, 0x147) == 0x06;
        let ram = vec![0u8; MBC2_RAM_LEN];
        assert(ram@ =~= Seq::new(MBC2_RAM_LEN as nat, |i: int| 0u8));
        Ok(MBC2 { rom: raw, ram, rom_bank_idx: 1, ram_enabled: false, battery })
    }

    pub fn read_rom(&self, addr: u16) -> (r: u8)
        requires
            self.wf(),
            addr <= 0x7FFF,
        ensures
            r == self.rom_byte(addr),
    {
        let index = if addr <= 0x3FFF {
            addr as usize
        } else {
            self.rom_bank_idx * 0x4000 + (addr as usize - 0x4000)
        };
        read_or_zero(&self.rom, index)
    }

    pub fn read_ram(&self, addr: u16) -> (r: u8)
        requires
            self.wf(),
            0xA000 <= addr <= 0xBFFF,
        ensures
            r == self.ram_byte(addr),
    {
        if !self.ram_enabled {
            return 0;
        }
        let index = (addr as usize - 0xA000) % MBC2_RAM_LEN;
        let v = read_or_zero(&self.ram, index);
        assert((v & 0x0F) == v % 16) by (bit_vector);
        v & 0x0F
    }

    pub fn write_rom(&mut self, addr: u16, data: u8)
        requires
            old(self).wf(),
            addr <= 0x7FFF,
        ensures
            final(self).wf(),
            final(self).after_control_write(*old(self), addr, data),
    {
        assert((data & 0x0F) == data % 16) by (bit_vector);
        assert((addr & 0x0100) == 0 <==> (addr / 0x100) % 2 == 0) by (bit_vector);
        if addr <= 0x3FFF {
            if addr & 0x0100 == 0 {
                self.ram_enabled = (data & 0x0F) == 0x0A;
            } else {
                let bank = (data & 0x0F) as usize;
                self.rom_bank_idx = if bank == 0 {
                    1
                } else {
                    bank
                };
            }
        }
    }

    pub fn write_ram(&mut self, addr: u16, data: u8)
        requires
            old(self).wf(),
            0xA000 <= addr <= 0xBFFF,
        ensures
            final(self).wf(),
            final(self).after_ram_write(*old(self), addr, data),
    {
        if !self.ram_enabled {
            return;
        }
        let index = (addr as usize - 0xA000) % MBC2_RAM_LEN;
        assert((data & 0x0F) == data % 16) by (bit_vector);
        store_if_in_range(&mut self.ram, index, data & 0x0F);
    }
}

} // verus!
