//! Cartridges: the header, and the bank controllers that map a cartridge's
//! ROM and RAM into the 16-bit address space.
pub mod mbc0;
pub mod mbc1;
pub mod mbc2;
pub mod mbc3;

use self::mbc0::MBC0;
use self::mbc1::MBC1;
use self::mbc2::MBC2;
use self::mbc3::MBC3;
use vstd::prelude::*;

verus! {

/// The byte at index `i` of `s`, or 0 where `s` has none.
pub open spec fn byte_or_zero(s: Seq<u8>, i: int) -> u8 {
    if 0 <= i < s.len() {
        s[i]
    } else {
        0
    }
}

/// `s` with the byte at `i` replaced, or `s` itself where `i` is past its end.
pub open spec fn store_if_in(s: Seq<u8>, i: int, v: u8) -> Seq<u8> {
    if 0 <= i < s.len() {
        s.update(i, v)
    } else {
        s
    }
}

pub fn read_or_zero(v: &Vec<u8>, i: usize) -> (r: u8)
    ensures
        r == byte_or_zero(v@, i as int),
{
    if i < v.len() {
        v[i]
    } else {
        0
    }
}

pub fn store_if_in_range(v: &mut Vec<u8>, i: usize, data: u8)
    ensures
        final(v)@ == store_if_in(old(v)@, i as int, data),
{
    if i < v.len() {
        v.set(i, data);
    }
}

/// RAM size in bytes for the header's RAM size code.
pub open spec fn ram_size_of(code: u8) -> u32 {
    if code == 0x02 {
        0x2000
    } else if code == 0x03 {
        0x8000
    } else if code == 0x04 {
        0x20000
    } else if code == 0x05 {
        0x4000
    } else {
        0
    }
}

/// RAM size in bytes for the header's RAM size code (header byte 0x0149).
pub fn get_ram_size(byte_0149: u8) -> (r: u32)
    ensures
        r == ram_size_of(byte_0149),
{
    match byte_0149 {
        0x02 => 0x2000,
        0x03 => 0x8000,
        0x04 => 0x20000,
        0x05 => 0x4000,
        _ => 0,
    }
}

/// Offset of the logo bitmap in the header.
pub const LOGO_START: usize = 0x0104;

/// Offset of the cartridge type byte in the header.
pub const TYPE_OFFSET: usize = 0x0147;

/// Offset of the RAM size code in the header.
pub const RAM_SIZE_OFFSET: usize = 0x0149;

/// Smallest image that holds the header fields read at load time.
pub const MIN_IMAGE_LEN: usize = 0x0148;

/// The bitmap that every cartridge must carry at 0x0104..=0x0133.
pub open spec fn logo() -> Seq<u8> {
    seq![
        0xCEu8, 0xED, 0x66, 0x66, 0xCC, 0x0D, 0x00, 0x0B, 0x03, 0x73, 0x00, 0x83,
        0x00, 0x0C, 0x00, 0x0D, 0x00, 0x08, 0x11, 0x1F, 0x88, 0x89, 0x00, 0x0E,
        0xDC, 0xCC, 0x6E, 0xE6, 0xDD, 0xDD, 0xD9, 0x99, 0xBB, 0xBB, 0x67, 0x63,
        0x6E, 0x0E, 0xEC, 0xCC, 0xDD, 0xDC, 0x99, 0x9F, 0xBB, 0xB9, 0x33, 0x3E,
    ]
}

pub fn logo_bytes() -> (r: Vec<u8>)
    ensures
        r@ == logo(),
{
    let r = vec![
        0xCEu8, 0xED, 0x66, 0x66, 0xCC, 0x0D, 0x00, 0x0B, 0x03, 0x73, 0x00, 0x83,
        0x00, 0x0C, 0x00, 0x0D, 0x00, 0x08, 0x11, 0x1F, 0x88, 0x89, 0x00, 0x0E,
        0xDC, 0xCC, 0x6E, 0xE6, 0xDD, 0xDD, 0xD9, 0x99, 0xBB, 0xBB, 0x67, 0x63,
        0x6E, 0x0E, 0xEC, 0xCC, 0xDD, 0xDC, 0x99, 0x9F, 0xBB, 0xB9, 0x33, 0x3E,
    ];
    assert(r@ =~= logo());
    r
}

/// Whether the image carries the logo bitmap at its place in the header.
pub open spec fn has_logo(data: Seq<u8>) -> bool {
    data.len() >= LOGO_START + 48 && data.subrange(LOGO_START as int, LOGO_START + 48) == logo()
}

/// Whether the image carries the logo bitmap at its place in the header.
pub fn check_logo(data: &Vec<u8>) -> (r: bool)
    ensures
        r == has_logo(data@),
{
    if data.len() < LOGO_START + 48 {
        return false;
    }
    let expected = logo_bytes();
    let mut i: usize = 0;
    while i < 48
        invariant
            i <= 48,
            data.len() >= LOGO_START + 48,
            expected@ == logo(),
            forall|j: int| 0 <= j < i ==> data@[LOGO_START + j] == logo()[j],
        decreases 48 - i,
    {
        if data[LOGO_START + i] != expected[i] {
            assert(data@.subrange(LOGO_START as int, LOGO_START + 48)[i as int] != logo()[i as int]);
            return false;
        }
        i += 1;
    }
    assert(data@.subrange(LOGO_START as int, LOGO_START + 48) =~= logo());
    true
}

/// Offset of the title in the header.
pub const TITLE_START: usize = 0x0134;

/// Length of the title in the header.
pub const TITLE_LEN: usize = 15;

/// The title bytes of the header, as far as the image holds them.
pub fn title(data: &Vec<u8>) -> (r: Vec<u8>)
    ensures
        data@.len() >= TITLE_START + TITLE_LEN ==> r@ == data@.subrange(
            TITLE_START as int,
            TITLE_START + TITLE_LEN,
        ),
        data@.len() < TITLE_START + TITLE_LEN ==> r@.len() == 0,
{
    let mut r: Vec<u8> = Vec::new();
    if data.len() < TITLE_START + TITLE_LEN {
        return r;
    }
    let mut i: usize = 0;
    while i < TITLE_LEN
        invariant
            i <= TITLE_LEN,
            data@.len() >= TITLE_START + TITLE_LEN,
            r@ == data@.subrange(TITLE_START as int, TITLE_START + i),
        decreases TITLE_LEN - i,
    {
        r.push(data[TITLE_START + i]);
        i += 1;
    }
    r
}

/// Why a cartridge image was refused.
#[derive(PartialEq, Eq, Structural, Clone, Copy, Debug)]
pub enum LoadError {
    /// The image is shorter than its header.
    TooSmall,
    /// The logo bitmap differs from the reference one.
    BadLogo,
    /// The cartridge type names a controller this core does not have.
    Unsupported(u8),
}

/// Which controller a cartridge type byte selects.
pub enum ControllerKind {
    Plain,
    Combo,
    RamOnly,
}

pub open spec fn controller_kind(type_byte: u8) -> Option<ControllerKind> {
    if type_byte == 0x00 {
        Some(ControllerKind::Plain)
    } else if 0x01 <= type_byte <= 0x03 {
        Some(ControllerKind::Combo)
    } else if 0x05 <= type_byte <= 0x06 {
        Some(ControllerKind::RamOnly)
    } else {
        None
    }
}

/// What loading `data` gives: the error, or the kind of controller chosen.
pub open spec fn load_outcome(data: Seq<u8>) -> Result<ControllerKind, LoadError> {
    if data.len() < MIN_IMAGE_LEN {
        Err(LoadError::TooSmall)
    } else if !has_logo(data) {
        Err(LoadError::BadLogo)
    } else {
        match controller_kind(data[TYPE_OFFSET as int]) {
            Some(k) => Ok(k),
            None => Err(LoadError::Unsupported(data[TYPE_OFFSET as int])),
        }
    }
}

/// The active bank controller: one of a closed set of variants.
pub enum MBC {
    Plain(MBC0),
    Combo(MBC1),
    RamOnly(MBC2),
    Clock(MBC3),
}

impl MBC {
    pub open spec fn kind(&self) -> Option<ControllerKind> {
        match self {
            MBC::Plain(_) => Some(ControllerKind::Plain),
            MBC::Combo(_) => Some(ControllerKind::Combo),
            MBC::RamOnly(_) => Some(ControllerKind::RamOnly),
            MBC::Clock(_) => None,
        }
    }

    pub open spec fn wf(&self) -> bool {
        match self {
            MBC::Plain(_) => true,
            MBC::Combo(m) => m.wf(),
            MBC::RamOnly(m) => m.wf(),
            MBC::Clock(m) => m.wf(),
        }
    }

    /// The byte that a read of `addr` in 0x0000..=0x7FFF gives.
    pub open spec fn rom_byte(&self, addr: u16) -> u8 {
        match self {
            MBC::Plain(m) => byte_or_zero(m.rom@, addr as int),
            MBC::Combo(m) => m.rom_byte(addr),
            MBC::RamOnly(m) => m.rom_byte(addr),
            MBC::Clock(m) => m.rom_byte(addr),
        }
    }

    /// The byte that a read of `addr` in 0xA000..=0xBFFF gives.
    pub open spec fn ram_byte(&self, addr: u16) -> u8 {
        match self {
            MBC::Plain(_) => 0,
            MBC::Combo(m) => m.ram_byte(addr),
            MBC::RamOnly(m) => m.ram_byte(addr),
            MBC::Clock(m) => m.ram_byte(addr),
        }
    }

    /// `self` is `pre` after a write of `data` to the control register at `addr`.
    pub open spec fn after_control_write(&self, pre: MBC, addr: u16, data: u8) -> bool {
        match (pre, *self) {
            (MBC::Plain(a), MBC::Plain(b)) => b == a,
            (MBC::Combo(a), MBC::Combo(b)) => b.after_control_write(a, addr, data),
            (MBC::RamOnly(a), MBC::RamOnly(b)) => b.after_control_write(a, addr, data),
            (MBC::Clock(a), MBC::Clock(b)) => b.after_control_write(a, addr, data),
            _ => false,
        }
    }

    /// `self` is `pre` after a write of `data` to `addr` in 0xA000..=0xBFFF.
    pub open spec fn after_ram_write(&self, pre: MBC, addr: u16, data: u8) -> bool {
        match (pre, *self) {
            (MBC::Plain(a), MBC::Plain(b)) => b == a,
            (MBC::Combo(a), MBC::Combo(b)) => b.after_ram_write(a, addr, data),
            (MBC::RamOnly(a), MBC::RamOnly(b)) => b.after_ram_write(a, addr, data),
            (MBC::Clock(a), MBC::Clock(b)) => b.after_ram_write(a, addr, data),
            _ => false,
        }
    }

    /// The cartridge RAM as a byte sequence.
    pub open spec fn ram_view(&self) -> Seq<u8> {
        match self {
            MBC::Plain(_) => Seq::empty(),
            MBC::Combo(m) => m.ram@,
            MBC::RamOnly(m) => m.ram@,
            MBC::Clock(m) => m.ram@,
        }
    }

    pub fn read_rom(&self, addr: u16) -> (r: u8)
        requires
            self.wf(),
            addr <= 0x7FFF,
        ensures
            r == self.rom_byte(addr),
    {
        match self {
            MBC::Plain(m) => m.read_rom(addr),
            MBC::Combo(m) => m.read_rom(addr),
            MBC::RamOnly(m) => m.read_rom(addr),
            MBC::Clock(m) => m.read_rom(addr),
        }
    }

    pub fn read_ram(&self, addr: u16) -> (r: u8)
        requires
            self.wf(),
            0xA000 <= addr <= 0xBFFF,
        ensures
            r == self.ram_byte(addr),
    {
        match self {
            MBC::Plain(m) => m.read_ram(addr),
            MBC::Combo(m) => m.read_ram(addr),
            MBC::RamOnly(m) => m.read_ram(addr),
            MBC::Clock(m) => m.read_ram(addr),
        }
    }

    /// A write to the control registers that live in 0x0000..=0x7FFF.
    pub fn write_rom(&mut self, addr: u16, data: u8)
        requires
            old(self).wf(),
            addr <= 0x7FFF,
        ensures
            final(self).wf(),
            final(self).kind() == old(self).kind(),
            final(self).after_control_write(*old(self), addr, data),
    {
        match self {
            MBC::Plain(m) => m.write_rom(addr, data),
            MBC::Combo(m) => m.write_rom(addr, data),
            MBC::RamOnly(m) => m.write_rom(addr, data),
            MBC::Clock(m) => m.write_rom(addr, data),
        }
    }

    pub fn write_ram(&mut self, addr: u16, data: u8)
        requires
            old(self).wf(),
            0xA000 <= addr <= 0xBFFF,
        ensures
            final(self).wf(),
            final(self).kind() == old(self).kind(),
            final(self).after_ram_write(*old(self), addr, data),
    {
        match self {
            MBC::Plain(m) => m.write_ram(addr, data),
            MBC::Combo(m) => m.write_ram(addr, data),
            MBC::RamOnly(m) => m.write_ram(addr, data),
            MBC::Clock(m) => m.write_ram(addr, data),
        }
    }
    /// Whether the cartridge keeps its RAM on a battery, so that a host saves it.
    pub fn has_battery(&self) -> (r: bool)
        ensures
            r == self.battery(),
    {
        match self {
            MBC::Plain(_) => false,
            MBC::Combo(m) => m.battery,
            MBC::RamOnly(m) => m.battery,
            MBC::Clock(m) => m.battery,
        }
    }

    /// Whether the cartridge keeps its RAM on a battery.
    pub open spec fn battery(&self) -> bool {
        match self {
            MBC::Plain(_) => false,
            MBC::Combo(m) => m.battery,
            MBC::RamOnly(m) => m.battery,
            MBC::Clock(m) => m.battery,
        }
    }

    /// What a host must save when it shuts the cartridge down: the RAM of a
    /// battery-backed cartridge, nothing for the others. RAM changes that no
    /// host saves are lost.
    pub fn flush(&self) -> (r: Option<Vec<u8>>)
        ensures
            r is Some <==> self.battery(),
            r is Some ==> r.unwrap()@ == self.ram_view(),
    {
        if self.has_battery() {
            Some(self.ram_bytes())
        } else {
            None
        }
    }

    /// A copy of the cartridge RAM, for a host to save.
    pub fn ram_bytes(&self) -> (r: Vec<u8>)
        ensures
            r@ == self.ram_view(),
    {
        match self {
            MBC::Plain(_) => Vec::new(),
            MBC::Combo(m) => m.ram.clone(),
            MBC::RamOnly(m) => m.ram.clone(),
            MBC::Clock(m) => m.ram.clone(),
        }
    }

    /// Fills the cartridge RAM from saved bytes: as many as both hold, the
    /// rest of the RAM unchanged.
    pub fn load_ram(&mut self, saved: &Vec<u8>)
        requires
            old(self).wf(),
        ensures
            final(self).wf(),
            final(self).kind() == old(self).kind(),
            final(self).ram_view().len() == old(self).ram_view().len(),
            forall|i: int|
                0 <= i < old(self).ram_view().len() ==> final(self).ram_view()[i] == if i
                    < saved@.len() {
                    saved@[i]
                } else {
                    old(self).ram_view()[i]
                },
    {
        match self {
            MBC::Plain(_) => {},
            MBC::Combo(m) => copy_prefix(&mut m.ram, saved),
            MBC::RamOnly(m) => copy_prefix(&mut m.ram, saved),
            MBC::Clock(m) => copy_prefix(&mut m.ram, saved),
        }
    }
}

/// Overwrites the start of `dst` with as much of `src` as fits.
fn copy_prefix(dst: &mut Vec<u8>, src: &Vec<u8>)
    ensures
        final(dst)@.len() == old(dst)@.len(),
        forall|i: int|
            0 <= i < old(dst)@.len() ==> final(dst)@[i] == if i < src@.len() {
                src@[i]
            } else {
                old(dst)@[i]
            },
{
    let mut i: usize = 0;
    while i < dst.len() && i < src.len()
        invariant
            i <= dst@.len(),
            i <= src@.len(),
            dst@.len() == old(dst)@.len(),
            forall|j: int|
                0 <= j < dst@.len() ==> dst@[j] == if j < i {
                    src@[j]
                } else {
                    old(dst)@[j]
                },
        decreases dst@.len() - i,
    {
        dst.set(i, src[i]);
        i += 1;
    }
}

/// Picks the controller that the header's type byte names, after checking
/// the image's length and logo.
pub fn get_mbc(data: Vec<u8>) -> (r: Result<MBC, LoadError>)
    ensures
        match load_outcome(data@) {
            Ok(k) => r is Ok && r.unwrap().kind() == Some(k) && r.unwrap().wf(),
            Err(e) => r == Err::<MBC, LoadError>(e),
        },
        r is Ok ==> match r.unwrap() {
            MBC::Plain(m) => m.rom@ == data@,
            MBC::Combo(m) => m.rom@ == data@,
            MBC::RamOnly(m) => m.rom@ == data@,
            MBC::Clock(m) => false,
        },
{
    if data.len() < MIN_IMAGE_LEN {
        return Err(LoadError::TooSmall);
    }
    if !check_logo(&data) {
        return Err(LoadError::BadLogo);
    }
    let kind = data[TYPE_OFFSET];
    if kind == 0x00 {
        match MBC0::new(data) {
            Ok(m) => Ok(MBC::Plain(m)),
            Err(_) => Err(LoadError::Unsupported(kind)),
        }
    } else if 0x01 <= kind && kind <= 0x03 {
        match MBC1::new(data) {
            Ok(m) => Ok(MBC::Combo(m)),
            Err(_) => Err(LoadError::Unsupported(kind)),
        }
    } else if 0x05 <= kind && kind <= 0x06 {
        match MBC2::new(data) {
            Ok(m) => Ok(MBC::RamOnly(m)),
            Err(_) => Err(LoadError::Unsupported(kind)),
        }
    } else {
        Err(LoadError::Unsupported(kind))
    }
}

} // verus!
