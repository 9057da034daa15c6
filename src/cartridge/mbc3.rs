//! The clock controller: a 7-bit ROM bank number, four RAM banks, and a set
//! of clock registers reached through the RAM bank number (0x08..=0x0C).
use super::{byte_or_zero, get_ram_size, ram_size_of, read_or_zero, store_if_in, store_if_in_range};
use vstd::prelude::*;

verus! {

/// Clock registers: seconds, minutes, hours, and the day counter in two bytes
/// (bit 0 of `day_high` is bit 8 of the day, bit 6 halts the clock, bit 7 is
/// the day counter's carry).
#[derive(PartialEq, Eq, Structural, Clone, Copy, Debug)]
pub struct RTCRegister {
    pub sec: u8,
    pub min: u8,
    pub hour: u8,
    pub day_low: u8,
    pub day_high: u8,
}

impl RTCRegister {
    pub fn new() -> (r: Self)
        ensures
            r == (RTCRegister { sec: 0, min: 0, hour: 0, day_low: 0, day_high: 0 }),
    {
        RTCRegister { sec: 0, min: 0, hour: 0, day_low: 0, day_high: 0 }
    }

    pub fn copy_from(&mut self, source: &RTCRegister)
        ensures
            *final(self) == *source,
    {
        self.sec = source.sec;
        self.min = source.min;
        self.hour = source.hour;
        self.day_low = source.day_low;
        self.day_high = source.day_high;
    }

    /// The register that RAM bank number `sel` (0x08..=0x0C) names.
    pub open spec fn get(&self, sel: usize) -> u8 {
        if sel == 0x08 {
            self.sec
        } else if sel == 0x09 {
            self.min
        } else if sel == 0x0A {
            self.hour
        } else if sel == 0x0B {
            self.day_low
        } else {
            self.day_high
        }
    }

    pub open spec fn with(&self, sel: usize, v: u8) -> Self {
        if sel == 0x08 {
            RTCRegister { sec: v, ..*self }
        } else if sel == 0x09 {
            RTCRegister { min: v, ..*self }
        } else if sel == 0x0A {
            RTCRegister { hour: v, ..*self }
        } else if sel == 0x0B {
            RTCRegister { day_low: v, ..*self }
        } else {
            RTCRegister { day_high: v, ..*self }
        }
    }

    fn read(&self, sel: usize) -> (r: u8)
        ensures
            r == self.get(sel),
    {
        if sel == 0x08 {
            self.sec
        } else if sel == 0x09 {
            self.min
        } else if sel == 0x0A {
            self.hour
        } else if sel == 0x0B {
            self.day_low
        } else {
            self.day_high
        }
    }

    fn write(&mut self, sel: usize, v: u8)
        ensures
            *final(self) == old(self).with(sel, v),
    {
        if sel == 0x08 {
            self.sec = v;
        } else if sel == 0x09 {
            self.min = v;
        } else if sel == 0x0A {
            self.hour = v;
        } else if sel == 0x0B {
            self.day_low = v;
        } else {
            self.day_high = v;
        }
    }
}

pub open spec fn is_clock_register(sel: usize) -> bool {
    0x08 <= sel <= 0x0C
}

pub struct MBC3 {
    pub rom: Vec<u8>,
    pub ram: Vec<u8>,
    pub rom_bank_idx: usize,
    pub ram_bank_idx: usize,
    pub ram_enabled: bool,
    pub rtc_reg: RTCRegister,
    pub rtc_reg_latch: RTCRegister,
    /// Whether the cartridge keeps its RAM on a battery.
    pub battery: bool,
}

impl MBC3 {
    pub open spec fn wf(&self) -> bool {
        1 <= self.rom_bank_idx < 128 && self.ram_bank_idx < 256
    }

    pub open spec fn rom_byte(&self, addr: u16) -> u8 {
        if addr <= 0x3FFF {
            byte_or_zero(self.rom@, addr as int)
        } else {
            byte_or_zero(self.rom@, self.rom_bank_idx * 0x4000 + (addr - 0x4000))
        }
    }

    pub open spec fn ram_index(&self, addr: u16) -> int {
        self.ram_bank_idx * 0x2000 + (addr - 0xA000)
    }

    /// RAM banks 0..=3 read the RAM; 0x08..=0x0C read the latched clock.
    pub open spec fn ram_byte(&self, addr: u16) -> u8 {
        if !self.ram_enabled {
            0
        } else if self.ram_bank_idx <= 3 {
            byte_or_zero(self.ram@, self.ram_index(addr))
        } else if is_clock_register(self.ram_bank_idx) {
            self.rtc_reg_latch.get(self.ram_bank_idx)
        } else {
            0
        }
    }

    /// Writing 0x01 to 0x6000..=0x7FFF latches the clock registers.
    pub open spec fn after_control_write(&self, pre: Self, addr: u16, data: u8) -> bool {
        &&& self.rom@ == pre.rom@
        &&& self.ram@ == pre.ram@
        &&& self.battery == pre.battery
        &&& self.rtc_reg == pre.rtc_reg
        &&& if addr <= 0x1FFF {
            &&& self.ram_enabled == (data == 0x0A)
            &&& self.rom_bank_idx == pre.rom_bank_idx
            &&& self.ram_bank_idx == pre.ram_bank_idx
            &&& self.rtc_reg_latch == pre.rtc_reg_latch
        } else if addr <= 0x3FFF {
            &&& self.ram_enabled == pre.ram_enabled
            &&& self.rom_bank_idx == if data % 128 == 0 {
                1
            } else {
                data % 128
            }
            &&& self.ram_bank_idx == pre.ram_bank_idx
            &&& self.rtc_reg_latch == pre.rtc_reg_latch
        } else if addr <= 0x5FFF {
            &&& self.ram_enabled == pre.ram_enabled
            &&& self.rom_bank_idx == pre.rom_bank_idx
            &&& self.ram_bank_idx == data
            &&& self.rtc_reg_latch == pre.rtc_reg_latch
        } else {
            &&& self.ram_enabled == pre.ram_enabled
            &&& self.rom_bank_idx == pre.rom_bank_idx
            &&& self.ram_bank_idx == pre.ram_bank_idx
            &&& self.rtc_reg_latch == if data == 0x01 {
                pre.rtc_reg
            } else {
                pre.rtc_reg_latch
            }
        }
    }

    pub open spec fn after_ram_write(&self, pre: Self, addr: u16, data: u8) -> bool {
        &&& self.rom@ == pre.rom@
        &&& self.ram@ == if pre.ram_enabled && pre.ram_bank_idx <= 3 {
            store_if_in(pre.ram@, pre.ram_index(addr), data)
        } else {
            pre.ram@
        }
        &&& self.rtc_reg == if pre.ram_enabled && is_clock_register(pre.ram_bank_idx) {
            pre.rtc_reg.with(pre.ram_bank_idx, data)
        } else {
            pre.rtc_reg
        }
        &&& self.rtc_reg_latch == pre.rtc_reg_latch
        &&& self.rom_bank_idx == pre.rom_bank_idx
        &&& self.ram_bank_idx == pre.ram_bank_idx
        &&& self.ram_enabled == pre.ram_enabled
        &&& self.battery == pre.battery
    }

    /// A controller for `raw`: RAM sized by the header for types 0x10, 0x12
    /// and 0x13, a battery for 0x0F, 0x10 and 0x13.
    pub fn new(raw: Vec<u8>) -> (r: Result<Self, &'static str>)
        ensures
            r is Ok,
            r.unwrap().wf(),
            r.unwrap().rom@ == raw@,
            r.unwrap().ram@.len() == if byte_or_zero(raw@, 0x147) == 0x10 || byte_or_zero(raw@, 0x147)
                == 0x12 || byte_or_zero(raw@, 0x147) == 0x13 {
                ram_size_of(byte_or_zero(raw@, 0x149)) as int
            } else {
                0
            },
            r.unwrap().battery == (byte_or_zero(raw@, 0x147) == 0x0F || byte_or_zero(raw@, 0x147)
                == 0x10 || byte_or_zero(raw@, 0x147) == 0x13),
            forall|i: int| 0 <= i < r.unwrap().ram@.len() ==> r.unwrap().ram@[i] == 0,
            r.unwrap().rtc_reg == (RTCRegister { sec: 0, min: 0, hour: 0, day_low: 0, day_high: 0 }),
            r.unwrap().rtc_reg_latch == (RTCRegister { sec: 0, min: 0, hour: 0, day_low: 0, day_high: 0 }),
            r.unwrap().rom_bank_idx == 1,
            r.unwrap().ram_bank_idx == 0,
            !r.unwrap().ram_enabled,
    {
        let subtype = read_or_zero(&raw, 0x147);
        let battery = subtype == 0x0F || subtype == 0x10 || subtype == 0x13;
        let ram_size = if subtype == 0x10 || subtype == 0x12 || subtype == 0x13 {
            get_ram_size(read_or_zero(&raw, 0x149))
        } else {
            0
        };
        Ok(MBC3 {
            rom: raw,
            ram: vec![0; ram_size as usize],
            rom_bank_idx: 1,
            ram_bank_idx: 0,
            ram_enabled: false,
            rtc_reg: RTCRegister::new(),
            rtc_reg_latch: RTCRegister::new(),
            battery,
        })
    }

    /// Copies the running clock registers into the latched ones.
    fn latch_clock_data(&mut self)
        ensures
            final(self).rtc_reg_latch == old(self).rtc_reg,
            final(self).rtc_reg == old(self).rtc_reg,
            final(self).rom@ == old(self).rom@,
            final(self).ram@ == old(self).ram@,
            final(self).rom_bank_idx == old(self).rom_bank_idx,
            final(self).ram_bank_idx == old(self).ram_bank_idx,
            final(self).ram_enabled == old(self).ram_enabled,
            final(self).battery == old(self).battery,
    {
        let now = self.rtc_reg;
        self.rtc_reg_latch.copy_from(&now);
    }

    pub fn read_rom(&self, addr: u16) -> (r: u8)
        requires
            self.wf(),
            addr <= 0x7FFF,
        ensures
            r == self.rom_byte(addr),
    {
        let index = if addr <= 0x3FFF {
            addr as usize
        } else {
            self.rom_bank_idx * 0x4000 + (addr as usize - 0x4000)
        };
        read_or_zero(&self.rom, index)
    }

    pub fn read_ram(&self, addr: u16) -> (r: u8)
        requires
            self.wf(),
            0xA000 <= addr <= 0xBFFF,
        ensures
            r == self.ram_byte(addr),
    {
        if !self.ram_enabled {
            0
        } else if self.ram_bank_idx <= 3 {
            read_or_zero(&self.ram, self.ram_bank_idx * 0x2000 + (addr as usize - 0xA000))
        } else if 0x08 <= self.ram_bank_idx && self.ram_bank_idx <= 0x0C {
            self.rtc_reg_latch.read(self.ram_bank_idx)
        } else {
            0
        }
    }

    pub fn write_rom(&mut self, addr: u16, data: u8)
        requires
            old(self).wf(),
            addr <= 0x7FFF,
        ensures
            final(self).wf(),
            final(self).after_control_write(*old(self), addr, data),
    {
        if addr <= 0x1FFF {
            self.ram_enabled = data == 0x0A;
        } else if addr <= 0x3FFF {
            assert((data as usize & 0x7F) == data % 128) by (bit_vector);
            let bank = data as usize & 0b0111_1111;
            self.rom_bank_idx = if bank == 0 {
                1
            } else {
                bank
            };
        } else if addr <= 0x5FFF {
            self.ram_bank_idx = data as usize;
        } else if data == 0x01 {
            self.latch_clock_data();
        }
    }

    pub fn write_ram(&mut self, addr: u16, data: u8)
        requires
            old(self).wf(),
            0xA000 <= addr <= 0xBFFF,
        ensures
            final(self).wf(),
            final(self).after_ram_write(*old(self), addr, data),
    {
        if !self.ram_enabled {
            return;
        }
        if self.ram_bank_idx <= 3 {
            let index = self.ram_bank_idx * 0x2000 + (addr as usize - 0xA000);
            store_if_in_range(&mut self.ram, index, data);
        } else if 0x08 <= self.ram_bank_idx && self.ram_bank_idx <= 0x0C {
            let sel = self.ram_bank_idx;
            self.rtc_reg.write(sel, data);
        }
    }
}

} // verus!
