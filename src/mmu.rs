//! The memory map: decodes every 16-bit address to the cartridge, the
//! built-in RAMs, the timer or the other I/O registers.
use crate::cartridge::{get_mbc, LoadError, MBC};
use crate::cartridge::mbc0::MBC0;
use crate::cpu::Mem;
use crate::timer::Timer;
use vstd::prelude::*;

verus! {

pub const VRAM_LEN: usize = 0x2000;
pub const WRAM_LEN: usize = 0x8000;
pub const OAM_LEN: usize = 0xA0;
pub const IO_LEN: usize = 0x80;
pub const HRAM_LEN: usize = 0x7F;

#[derive(PartialEq, Eq, Structural, Copy, Clone, Debug)]
pub enum GbMode {
    Classic,
    Color,
    ColorAsClassic,
}

/// The ranges that have no backing storage: the echo of work RAM and the
/// unused block after sprite memory.
pub open spec fn prohibited(addr: u16) -> bool {
    (0xE000 <= addr <= 0xFDFF) || (0xFEA0 <= addr <= 0xFEFF)
}

pub open spec fn is_timer_register(addr: u16) -> bool {
    0xFF04 <= addr <= 0xFF07
}

/// The work RAM bank number that a write of `data` to 0xFF70 selects.
pub open spec fn wram_bank_of(data: u8) -> usize {
    if data % 8 == 0 {
        1
    } else {
        (data % 8) as usize
    }
}

/// `n` zero bytes.
pub open spec fn zeros(n: nat) -> Seq<u8> {
    Seq::new(n, |i: int| 0u8)
}

pub struct MMU {
    pub mbc: MBC,
    pub vram: Vec<u8>,
    pub wram: Vec<u8>,
    pub wram_bank_idx: usize,
    pub timer: Timer,
    pub oam: Vec<u8>,
    pub io: Vec<u8>,
    pub hram: Vec<u8>,
    pub interrupt_enable: u8,
    pub mode: GbMode,
}

impl MMU {
    pub open spec fn wf(&self) -> bool {
        &&& self.mbc.wf()
        &&& self.timer.wf()
        &&& self.vram@.len() == VRAM_LEN
        &&& self.wram@.len() == WRAM_LEN
        &&& self.oam@.len() == OAM_LEN
        &&& self.io@.len() == IO_LEN
        &&& self.hram@.len() == HRAM_LEN
        &&& 1 <= self.wram_bank_idx <= 7
    }

    /// Index into the work RAM of an address in 0xC000..=0xDFFF: the lower
    /// half is bank 0, the upper half the selected bank.
    pub open spec fn wram_index(&self, addr: u16) -> int {
        if addr <= 0xCFFF {
            addr - 0xC000
        } else {
            self.wram_bank_idx * 0x1000 + (addr - 0xD000)
        }
    }

    /// The byte that a read of `addr` gives (0 for a prohibited address).
    pub open spec fn read_spec(&self, addr: u16) -> u8 {
        if addr <= 0x7FFF {
            self.mbc.rom_byte(addr)
        } else if addr <= 0x9FFF {
            self.vram@[addr - 0x8000]
        } else if addr <= 0xBFFF {
            self.mbc.ram_byte(addr)
        } else if addr <= 0xDFFF {
            self.wram@[self.wram_index(addr)]
        } else if prohibited(addr) {
            0
        } else if addr <= 0xFE9F {
            self.oam@[addr - 0xFE00]
        } else if is_timer_register(addr) {
            self.timer.register(addr)
        } else if addr == 0xFF70 {
            self.wram_bank_idx as u8
        } else if addr <= 0xFF7F {
            self.io@[addr - 0xFF00]
        } else if addr <= 0xFFFE {
            self.hram@[addr - 0xFF80]
        } else {
            self.interrupt_enable
        }
    }

    /// `self` is `pre` after a write of `v` to `addr`.
    pub open spec fn wrote(&self, pre: MMU, addr: u16, v: u8) -> bool {
        &&& if addr <= 0x7FFF {
            self.mbc.after_control_write(pre.mbc, addr, v)
        } else if 0xA000 <= addr <= 0xBFFF {
            self.mbc.after_ram_write(pre.mbc, addr, v)
        } else {
            self.mbc == pre.mbc
        }
        &&& self.vram@ == if 0x8000 <= addr <= 0x9FFF {
            pre.vram@.update(addr - 0x8000, v)
        } else {
            pre.vram@
        }
        &&& self.wram@ == if 0xC000 <= addr <= 0xDFFF {
            pre.wram@.update(pre.wram_index(addr), v)
        } else {
            pre.wram@
        }
        &&& self.wram_bank_idx == if addr == 0xFF70 {
            wram_bank_of(v)
        } else {
            pre.wram_bank_idx
        }
        &&& self.timer == if is_timer_register(addr) {
            pre.timer.after_write(addr, v)
        } else {
            pre.timer
        }
        &&& self.oam@ == if 0xFE00 <= addr <= 0xFE9F {
            pre.oam@.update(addr - 0xFE00, v)
        } else {
            pre.oam@
        }
        &&& self.io@ == if 0xFF00 <= addr <= 0xFF7F && !is_timer_register(addr) && addr != 0xFF70 {
            pre.io@.update(addr - 0xFF00, v)
        } else {
            pre.io@
        }
        &&& self.hram@ == if 0xFF80 <= addr <= 0xFFFE {
            pre.hram@.update(addr - 0xFF80, v)
        } else {
            pre.hram@
        }
        &&& self.interrupt_enable == if addr == 0xFFFF {
            v
        } else {
            pre.interrupt_enable
        }
        &&& self.mode == pre.mode
    }

    /// The state at power-on, apart from the cartridge: every built-in RAM
    /// and I/O register zero, the timer at power-on, work RAM bank 1 in the
    /// upper half, interrupts disabled.
    pub open spec fn fresh(&self) -> bool {
        &&& self.vram@ == zeros(VRAM_LEN as nat)
        &&& self.wram@ == zeros(WRAM_LEN as nat)
        &&& self.oam@ == zeros(OAM_LEN as nat)
        &&& self.io@ == zeros(IO_LEN as nat)
        &&& self.hram@ == zeros(HRAM_LEN as nat)
        &&& self.timer == Timer::initial()
        &&& self.wram_bank_idx == 1
        &&& self.interrupt_enable == 0
        &&& self.mode == GbMode::Classic
    }

    /// A memory map around the cartridge `mbc`, with cleared RAMs.
    pub fn with_cartridge(mbc: MBC) -> (r: Self)
        requires
            mbc.wf(),
        ensures
            r.wf(),
            r.mbc == mbc,
            r.fresh(),
    {
        let vram = vec![0u8; VRAM_LEN];
        let wram = vec![0u8; WRAM_LEN];
        let oam = vec![0u8; OAM_LEN];
        let io = vec![0u8; IO_LEN];
        let hram = vec![0u8; HRAM_LEN];
        assert(vram@ =~= zeros(VRAM_LEN as nat));
        assert(wram@ =~= zeros(WRAM_LEN as nat));
        assert(oam@ =~= zeros(OAM_LEN as nat));
        assert(io@ =~= zeros(IO_LEN as nat));
        assert(hram@ =~= zeros(HRAM_LEN as nat));
        MMU {
            mbc,
            vram,
            wram,
            wram_bank_idx: 1,
            timer: Timer::new(),
            oam,
            io,
            hram,
            interrupt_enable: 0,
            mode: GbMode::Classic,
        }
    }

    /// A memory map for the cartridge image `rom`, or why it was refused.
    pub fn new(rom: Vec<u8>) -> (r: Result<Self, LoadError>)
        ensures
            match crate::cartridge::load_outcome(rom@) {
                Ok(k) => r is Ok && r.unwrap().wf() && r.unwrap().mbc.kind() == Some(k)
                    && r.unwrap().fresh(),
                Err(e) => r == Err::<MMU, LoadError>(e),
            },
    {
        match get_mbc(rom) {
            Ok(mbc) => Ok(MMU::with_cartridge(mbc)),
            Err(e) => Err(e),
        }
    }

    /// Replaces the cartridge with a plain one holding `program` from address 0.
    pub fn load_program(&mut self, program: Vec<u8>)
        requires
            old(self).wf(),
        ensures
            final(self).wf(),
            *final(self) == (MMU { mbc: MBC::Plain(MBC0 { rom: program }), ..*old(self) }),
            forall|a: u16| (0x8000 <= a <= 0x9FFF || 0xC000 <= a) ==> final(self).read_spec(a) == old(self).read_spec(a),
    {
        self.mbc = MBC::Plain(MBC0 { rom: program });
    }

    /// Advances the timer by `cycles`.
    pub fn execute_cycle(&mut self, cycles: u32)
        requires
            old(self).wf(),
        ensures
            final(self).wf(),
            final(self).timer.ticked(old(self).timer, cycles),
            *final(self) == (MMU { timer: final(self).timer, ..*old(self) }),
    {
        self.timer.execute_cycle(cycles);
    }
}

impl Mem for MMU {
    open spec fn mem_ok(&self) -> bool {
        self.wf()
    }

    open spec fn can_access(addr: u16) -> bool {
        !prohibited(addr)
    }

    open spec fn peek(&self, addr: u16) -> u8 {
        self.read_spec(addr)
    }

    open spec fn written(&self, pre: MMU, addr: u16, data: u8) -> bool {
        self.wrote(pre, addr, data)
    }

    fn mem_read_u8(&self, addr: u16) -> (r: u8) {
        if addr <= 0x7FFF {
            self.mbc.read_rom(addr)
        } else if addr <= 0x9FFF {
            self.vram[addr as usize - 0x8000]
        } else if addr <= 0xBFFF {
            self.mbc.read_ram(addr)
        } else if addr <= 0xCFFF {
            self.wram[addr as usize - 0xC000]
        } else if addr <= 0xDFFF {
            self.wram[self.wram_bank_idx * 0x1000 + (addr as usize - 0xD000)]
        } else if addr <= 0xFE9F {
            self.oam[addr as usize - 0xFE00]
        } else if 0xFF04 <= addr && addr <= 0xFF07 {
            self.timer.mem_read_u8(addr)
        } else if addr == 0xFF70 {
            self.wram_bank_idx as u8
        } else if addr <= 0xFF7F {
            self.io[addr as usize - 0xFF00]
        } else if addr <= 0xFFFE {
            self.hram[addr as usize - 0xFF80]
        } else {
            self.interrupt_enable
        }
    }

    fn mem_write_u8(&mut self, addr: u16, data: u8) {
        if addr <= 0x7FFF {
            self.mbc.write_rom(addr, data);
        } else if addr <= 0x9FFF {
            self.vram.set(addr as usize - 0x8000, data);
        } else if addr <= 0xBFFF {
            self.mbc.write_ram(addr, data);
        } else if addr <= 0xCFFF {
            self.wram.set(addr as usize - 0xC000, data);
        } else if addr <= 0xDFFF {
            let i = self.wram_bank_idx * 0x1000 + (addr as usize - 0xD000);
            self.wram.set(i, data);
        } else if addr <= 0xFE9F {
            self.oam.set(addr as usize - 0xFE00, data);
        } else if 0xFF04 <= addr && addr <= 0xFF07 {
            self.timer.mem_write_u8(addr, data);
        } else if addr == 0xFF70 {
            assert((data & 7) == data % 8) by (bit_vector);
            let bank = (data & 0b111) as usize;
            self.wram_bank_idx = if bank == 0 {
                1
            } else {
                bank
            };
        } else if addr <= 0xFF7F {
            self.io.set(addr as usize - 0xFF00, data);
        } else if addr <= 0xFFFE {
            self.hram.set(addr as usize - 0xFF80, data);
        } else {
            self.interrupt_enable = data;
        }
    }
}

} // verus!
