//! The 64 KiB memory bus: address decoding, cartridge bank controllers,
//! VRAM/OAM access gating and the side effects of register writes.
use crate::timeline::{Event, EventKind, DMA_CYCLES};
use vstd::prelude::*;

verus! {

pub const VRAM_SIZE: usize = 0x4000;

pub const ERAM_SIZE: usize = 0x20000;

pub const WRAM_SIZE: usize = 0x8000;

pub const OAM_SIZE: usize = 0xA0;

pub const IO_SIZE: usize = 0x80;

pub const HRAM_SIZE: usize = 0x7F;

pub const PALETTE_SIZE: usize = 0x40;

pub const RTC_SIZE: usize = 5;

/// Largest cartridge ROM that any supported bank controller can address.
pub const MAX_ROM_SIZE: usize = 0x800000;

#[derive(Clone, Copy, Debug, PartialEq, Eq, Structural)]
pub enum CartridgeType {
    RomOnly,
    Mbc1,
    Mbc2,
    Mbc3,
    Mbc5,
}

#[derive(Clone, Copy, Debug, PartialEq, Eq, Structural)]
pub enum MemError {
    /// The header names a bank controller that is not implemented.
    UnsupportedCartridge(u8),
    /// The image is not a whole number of 16 KiB banks, or is larger than its
    /// bank controller can address.
    InvalidRomSize(usize),
}

/// The bank controller that header byte 0x147 selects, if it is supported.
pub open spec fn cartridge_type_of(code: u8) -> Option<CartridgeType> {
    if code == 0x00 || code == 0x08 || code == 0x09 {
        Some(CartridgeType::RomOnly)
    } else if 0x01 <= code <= 0x03 {
        Some(CartridgeType::Mbc1)
    } else if 0x05 <= code <= 0x06 {
        Some(CartridgeType::Mbc2)
    } else if 0x0F <= code <= 0x13 {
        Some(CartridgeType::Mbc3)
    } else if 0x19 <= code <= 0x1E {
        Some(CartridgeType::Mbc5)
    } else {
        None
    }
}

/// The largest ROM, in bytes, that a bank controller addresses.
pub open spec fn max_rom_size(t: CartridgeType) -> int {
    match t {
        CartridgeType::RomOnly => 0x8000,
        CartridgeType::Mbc1 => 0x200000,
        CartridgeType::Mbc2 => 0x40000,
        CartridgeType::Mbc3 => 0x200000,
        CartridgeType::Mbc5 => 0x800000,
    }
}

/// An event that a CPU write can synthesize.
pub open spec fn synthesized(e: Event) -> bool {
    &&& e.duration == (if e.kind == EventKind::DmaTransfer {
        DMA_CYCLES
    } else {
        0
    })
    &&& e.kind == EventKind::BootstrapFinished || e.kind == EventKind::DmaTransfer || e.kind
        == EventKind::JoypadPressed
}

/// The abstract state of the bus.
pub struct MemView {
    pub rom: Seq<u8>,
    pub boot: Seq<u8>,
    pub boot_on: bool,
    pub vram: Seq<u8>,
    pub eram: Seq<u8>,
    pub wram: Seq<u8>,
    pub oam: Seq<u8>,
    pub io: Seq<u8>,
    pub hram: Seq<u8>,
    pub ie: u8,
    pub bg_palette: Seq<u8>,
    pub obj_palette: Seq<u8>,
    pub rtc: Seq<u8>,
    pub cartridge_type: CartridgeType,
    pub rom_bank: u16,
    pub ram_bank: u8,
    pub ram_enabled: bool,
    pub rom_banking_mode: bool,
    pub access_vram: bool,
    pub access_oam: bool,
    pub div_written: bool,
    pub pending_event: Option<Event>,
}

/// The ROM bank that a write of `v` to 0x2000-0x3FFF selects on an MBC1.
pub open spec fn mbc1_low_bank(bank: u16, v: u8) -> u16 {
    let b = (bank / 0x20) * 0x20 + v % 0x20;
    if b % 0x20 == 0 {
        (b + 1) as u16
    } else {
        b as u16
    }
}

/// The ROM bank that a write of `v` to 0x4000-0x5FFF selects on an MBC1 in
/// ROM banking mode.
pub open spec fn mbc1_high_bank(bank: u16, v: u8) -> u16 {
    ((v % 4) * 0x20 + bank % 0x20) as u16
}

pub open spec fn enables_ram(v: u8) -> bool {
    v % 16 == 0xA
}

/// The index into work RAM of an address in 0xC000-0xDFFF.
pub open spec fn wram_index(svbk: u8, addr: int) -> int {
    if addr < 0xD000 {
        addr - 0xC000
    } else {
        let bank = if svbk % 8 == 0 { 1 } else { svbk % 8 };
        bank * 0x1000 + (addr - 0xD000)
    }
}

impl MemView {
    pub open spec fn wf(self) -> bool {
        &&& self.rom.len() <= MAX_ROM_SIZE
        &&& self.vram.len() == VRAM_SIZE
        &&& self.eram.len() == ERAM_SIZE
        &&& self.wram.len() == WRAM_SIZE
        &&& self.oam.len() == OAM_SIZE
        &&& self.io.len() == IO_SIZE
        &&& self.hram.len() == HRAM_SIZE
        &&& self.bg_palette.len() == PALETTE_SIZE
        &&& self.obj_palette.len() == PALETTE_SIZE
        &&& self.rtc.len() == RTC_SIZE
        &&& self.ram_bank < 0x10
        &&& self.bank_valid()
        &&& self.pending_event is Some ==> synthesized(self.pending_event->0)
    }

    /// The bank controller's register ranges.
    pub open spec fn bank_valid(self) -> bool {
        match self.cartridge_type {
            CartridgeType::RomOnly => self.rom_bank == 1 && self.ram_bank == 0,
            CartridgeType::Mbc1 => self.rom_bank < 0x80 && self.rom_bank % 0x20 != 0
                && self.ram_bank < 4,
            CartridgeType::Mbc2 => 1 <= self.rom_bank <= 0xF && self.ram_bank == 0,
            CartridgeType::Mbc3 => 1 <= self.rom_bank <= 0x7F,
            CartridgeType::Mbc5 => self.rom_bank <= 0x1FF,
        }
    }

    pub open spec fn rom_at(self, i: int) -> u8 {
        if 0 <= i < self.rom.len() {
            self.rom[i]
        } else {
            0xFF
        }
    }

    pub open spec fn boot_covers(self, addr: int) -> bool {
        self.boot_on && addr < self.boot.len()
    }

    pub open spec fn vram_bank(self) -> int {
        (self.io[0x4F] % 2) as int
    }

    pub open spec fn svbk(self) -> u8 {
        self.io[0x70]
    }

    pub open spec fn eram_enabled(self) -> bool {
        self.cartridge_type == CartridgeType::RomOnly || self.ram_enabled
    }

    pub open spec fn rtc_selected(self) -> bool {
        self.cartridge_type == CartridgeType::Mbc3 && self.ram_bank >= 8
    }

    pub open spec fn eram_read(self, addr: int) -> u8 {
        if !self.eram_enabled() {
            0xFF
        } else if self.cartridge_type == CartridgeType::Mbc2 {
            (self.eram[(addr - 0xA000) % 0x200] % 16 + 0xF0) as u8
        } else if self.rtc_selected() {
            if self.ram_bank <= 0xC {
                self.rtc[self.ram_bank - 8]
            } else {
                0xFF
            }
        } else {
            self.eram[self.ram_bank * 0x2000 + (addr - 0xA000)]
        }
    }

    /// The byte that the CPU reads at `addr`.
    pub open spec fn read(self, addr: u16) -> u8 {
        let a = addr as int;
        if a < 0x4000 {
            if self.boot_covers(a) {
                self.boot[a]
            } else {
                self.rom_at(a)
            }
        } else if a < 0x8000 {
            self.rom_at(self.rom_bank * 0x4000 + (a - 0x4000))
        } else if a < 0xA000 {
            if self.access_vram {
                self.vram[self.vram_bank() * 0x2000 + (a - 0x8000)]
            } else {
                0xFF
            }
        } else if a < 0xC000 {
            self.eram_read(a)
        } else if a < 0xE000 {
            self.wram[wram_index(self.svbk(), a)]
        } else if a < 0xFE00 {
            self.wram[wram_index(self.svbk(), a - 0x2000)]
        } else if a < 0xFEA0 {
            if self.access_oam {
                self.oam[a - 0xFE00]
            } else {
                0xFF
            }
        } else if a < 0xFF00 {
            0xFF
        } else if a < 0xFF80 {
            self.io[a - 0xFF00]
        } else if a < 0xFFFF {
            self.hram[a - 0xFF80]
        } else {
            self.ie
        }
    }

    /// The ROM bank after a write to the low bank-number register.
    pub open spec fn lower_bank_after(self, v: u8) -> u16 {
        match self.cartridge_type {
            CartridgeType::RomOnly => self.rom_bank,
            CartridgeType::Mbc1 => mbc1_low_bank(self.rom_bank, v),
            CartridgeType::Mbc2 => (if v % 16 == 0 { 1 } else { v % 16 }) as u16,
            CartridgeType::Mbc3 => (if v % 0x80 == 0 { 1 } else { v % 0x80 }) as u16,
            CartridgeType::Mbc5 => ((self.rom_bank / 0x100) * 0x100 + v) as u16,
        }
    }

    /// The ROM bank after a write to the high bank-number register.
    pub open spec fn upper_bank_after(self, v: u8) -> u16 {
        match self.cartridge_type {
            CartridgeType::Mbc1 => mbc1_high_bank(self.rom_bank, v),
            CartridgeType::Mbc5 => (self.rom_bank % 0x100 + (v % 2) * 0x100) as u16,
            _ => self.rom_bank,
        }
    }

    /// The RAM bank after a write to the RAM bank register.
    pub open spec fn ram_bank_after(self, v: u8) -> u8 {
        match self.cartridge_type {
            CartridgeType::Mbc1 => v % 4,
            CartridgeType::Mbc3 => v % 0x10,
            CartridgeType::Mbc5 => v % 0x10,
            _ => self.ram_bank,
        }
    }

    pub open spec fn ram_enable_written(self, addr: int, v: u8) -> MemView {
        if self.cartridge_type == CartridgeType::Mbc2 && (addr / 0x100) % 2 == 1 {
            self
        } else {
            MemView { ram_enabled: enables_ram(v), ..self }
        }
    }

    pub open spec fn mbc1_mode_written(self, v: u8) -> MemView {
        if v % 2 == 0 {
            MemView { rom_banking_mode: true, ram_bank: 0, ..self }
        } else {
            MemView { rom_banking_mode: false, ..self }
        }
    }

    /// A write to the bank controller's registers (0x0000-0x7FFF).
    pub open spec fn mbc_write(self, addr: int, v: u8) -> MemView {
        match self.cartridge_type {
            CartridgeType::RomOnly => self,
            CartridgeType::Mbc1 => if addr < 0x2000 {
                self.ram_enable_written(addr, v)
            } else if addr < 0x4000 {
                MemView { rom_bank: self.lower_bank_after(v), ..self }
            } else if addr < 0x6000 {
                if self.rom_banking_mode {
                    MemView { rom_bank: self.upper_bank_after(v), ..self }
                } else {
                    MemView { ram_bank: self.ram_bank_after(v), ..self }
                }
            } else {
                self.mbc1_mode_written(v)
            },
            CartridgeType::Mbc2 => if addr >= 0x4000 {
                self
            } else if (addr / 0x100) % 2 == 0 {
                self.ram_enable_written(addr, v)
            } else {
                MemView { rom_bank: self.lower_bank_after(v), ..self }
            },
            CartridgeType::Mbc3 => if addr < 0x2000 {
                self.ram_enable_written(addr, v)
            } else if addr < 0x4000 {
                MemView { rom_bank: self.lower_bank_after(v), ..self }
            } else if addr < 0x6000 {
                MemView { ram_bank: self.ram_bank_after(v), ..self }
            } else {
                self
            },
            CartridgeType::Mbc5 => if addr < 0x2000 {
                self.ram_enable_written(addr, v)
            } else if addr < 0x3000 {
                MemView { rom_bank: self.lower_bank_after(v), ..self }
            } else if addr < 0x4000 {
                MemView { rom_bank: self.upper_bank_after(v), ..self }
            } else if addr < 0x6000 {
                MemView { ram_bank: self.ram_bank_after(v), ..self }
            } else {
                self
            },
        }
    }

    pub open spec fn eram_write(self, addr: int, v: u8) -> MemView {
        if !self.eram_enabled() {
            self
        } else if self.cartridge_type == CartridgeType::Mbc2 {
            MemView { eram: self.eram.update((addr - 0xA000) % 0x200, v % 16), ..self }
        } else if self.rtc_selected() {
            if self.ram_bank <= 0xC {
                MemView { rtc: self.rtc.update(self.ram_bank - 8, v), ..self }
            } else {
                self
            }
        } else {
            MemView { eram: self.eram.update(self.ram_bank * 0x2000 + (addr - 0xA000), v), ..self }
        }
    }

    /// A write to an I/O register (0xFF00-0xFF7F).
    pub open spec fn io_write(self, addr: int, v: u8) -> MemView {
        let i = addr - 0xFF00;
        if i == 0x00 {
            MemView {
                io: self.io.update(0, (0xC0 + (v / 16 % 4) * 16 + self.io[0] % 16) as u8),
                pending_event: Some(Event { kind: EventKind::JoypadPressed, duration: 0, extra: v }),
                ..self
            }
        } else if i == 0x04 {
            MemView { io: self.io.update(4, 0), div_written: true, ..self }
        } else if i == 0x44 {
            self
        } else if i == 0x46 {
            MemView {
                io: self.io.update(0x46, v),
                pending_event: Some(
                    Event { kind: EventKind::DmaTransfer, duration: DMA_CYCLES, extra: v },
                ),
                ..self
            }
        } else if i == 0x50 && v != 0 {
            MemView {
                io: self.io.update(0x50, v),
                pending_event: Some(
                    Event { kind: EventKind::BootstrapFinished, duration: 0, extra: v },
                ),
                ..self
            }
        } else if i == 0x69 {
            let idx = self.io[0x68];
            MemView {
                io: self.io.update(0x69, v).update(0x68, palette_index_after(idx)),
                bg_palette: self.bg_palette.update(idx as int % 0x40, v),
                ..self
            }
        } else if i == 0x6B {
            let idx = self.io[0x6A];
            MemView {
                io: self.io.update(0x6B, v).update(0x6A, palette_index_after(idx)),
                obj_palette: self.obj_palette.update(idx as int % 0x40, v),
                ..self
            }
        } else {
            MemView { io: self.io.update(i, v), ..self }
        }
    }

    /// The state after the CPU writes `v` at `addr`.
    #[verifier::opaque]
    pub open spec fn write(self, addr: u16, v: u8) -> MemView {
        let a = addr as int;
        if a < 0x8000 {
            self.mbc_write(a, v)
        } else if a < 0xA000 {
            if self.access_vram {
                MemView {
                    vram: self.vram.update(self.vram_bank() * 0x2000 + (a - 0x8000), v),
                    ..self
                }
            } else {
                self
            }
        } else if a < 0xC000 {
            self.eram_write(a, v)
        } else if a < 0xE000 {
            MemView { wram: self.wram.update(wram_index(self.svbk(), a), v), ..self }
        } else if a < 0xFE00 {
            MemView { wram: self.wram.update(wram_index(self.svbk(), a - 0x2000), v), ..self }
        } else if a < 0xFEA0 {
            if self.access_oam {
                MemView { oam: self.oam.update(a - 0xFE00, v), ..self }
            } else {
                self
            }
        } else if a < 0xFF00 {
            self
        } else if a < 0xFF80 {
            self.io_write(a, v)
        } else if a < 0xFFFF {
            MemView { hram: self.hram.update(a - 0xFF80, v), ..self }
        } else {
            MemView { ie: v, ..self }
        }
    }
}

/// The palette index register after a data write: bit 7 asks for the low six
/// bits to advance.
pub open spec fn palette_index_after(idx: u8) -> u8 {
    if idx >= 0x80 {
        (0x80 + (idx % 0x40 + 1) % 0x40) as u8
    } else {
        idx
    }
}

pub struct Memory {
    rom: Vec<u8>,
    boot: Vec<u8>,
    boot_on: bool,
    vram: Vec<u8>,
    eram: Vec<u8>,
    wram: Vec<u8>,
    oam: Vec<u8>,
    io: Vec<u8>,
    hram: Vec<u8>,
    ie: u8,
    bg_palette: Vec<u8>,
    obj_palette: Vec<u8>,
    rtc: Vec<u8>,
    cartridge_type: CartridgeType,
    rom_bank: u16,
    ram_bank: u8,
    ram_enabled: bool,
    rom_banking_mode: bool,
    access_vram: bool,
    access_oam: bool,
    div_written: bool,
    pending_event: Option<Event>,
}

impl View for Memory {
    type V = MemView;

    closed spec fn view(&self) -> MemView {
        MemView {
            rom: self.rom@,
            boot: self.boot@,
            boot_on: self.boot_on,
            vram: self.vram@,
            eram: self.eram@,
            wram: self.wram@,
            oam: self.oam@,
            io: self.io@,
            hram: self.hram@,
            ie: self.ie,
            bg_palette: self.bg_palette@,
            obj_palette: self.obj_palette@,
            rtc: self.rtc@,
            cartridge_type: self.cartridge_type,
            rom_bank: self.rom_bank,
            ram_bank: self.ram_bank,
            ram_enabled: self.ram_enabled,
            rom_banking_mode: self.rom_banking_mode,
            access_vram: self.access_vram,
            access_oam: self.access_oam,
            div_written: self.div_written,
            pending_event: self.pending_event,
        }
    }
}

/// A bus just powered on: no cartridge, every RAM zeroed, RAM banking off.
pub open spec fn powered_on(m: MemView) -> bool {
    &&& m.wf()
    &&& m.rom.len() == 0
    &&& m.boot.len() == 0
    &&& !m.boot_on
    &&& m.vram == Seq::new(VRAM_SIZE as nat, |i: int| 0u8)
    &&& m.eram == Seq::new(ERAM_SIZE as nat, |i: int| 0u8)
    &&& m.wram == Seq::new(WRAM_SIZE as nat, |i: int| 0u8)
    &&& m.oam == Seq::new(OAM_SIZE as nat, |i: int| 0u8)
    &&& m.io == Seq::new(IO_SIZE as nat, |i: int| 0u8)
    &&& m.hram == Seq::new(HRAM_SIZE as nat, |i: int| 0u8)
    &&& m.ie == 0
    &&& m.cartridge_type == CartridgeType::RomOnly
    &&& m.rom_bank == 1
    &&& m.ram_bank == 0
    &&& !m.ram_enabled
    &&& m.rom_banking_mode
    &&& m.access_vram
    &&& m.access_oam
    &&& !m.div_written
    &&& m.pending_event is None
}

fn zeroed(n: usize) -> (v: Vec<u8>)
    ensures
        v@ == Seq::new(n as nat, |i: int| 0u8),
{
    let v = vec![0u8; n];
    assert(v@ =~= Seq::new(n as nat, |i: int| 0u8));
    v
}

/// Whether a cartridge image loads: its length is a non-zero multiple of 16
/// KiB, header byte 0x147 names a supported bank controller, and the image
/// fits what that controller addresses.
pub open spec fn load_outcome(rom: Seq<u8>) -> Result<(), MemError> {
    if rom.len() == 0 || rom.len() % 0x4000 != 0 {
        Err(MemError::InvalidRomSize(rom.len() as usize))
    } else {
        match cartridge_type_of(rom[0x147]) {
            None => Err(MemError::UnsupportedCartridge(rom[0x147])),
            Some(t) => if rom.len() > max_rom_size(t) {
                Err(MemError::InvalidRomSize(rom.len() as usize))
            } else {
                Ok(())
            },
        }
    }
}

/// Once the boot ROM is mapped, each of its bytes (within the 16 KiB ROM
/// bank 0) is what the CPU reads at its address.
pub proof fn lemma_boot_rom_mapped(m: MemView, rom: Seq<u8>, i: int)
    requires
        m.wf(),
        0 <= i < rom.len(),
        i < 0x4000,
    ensures
        (MemView { boot: rom, boot_on: true, ..m }).read(i as u16) == rom[i],
{
}

/// The bus after a cartridge image of type `t` was loaded: banking is reset.
pub open spec fn with_cartridge(m: MemView, rom: Seq<u8>, t: CartridgeType) -> MemView {
    MemView {
        rom: rom,
        cartridge_type: t,
        rom_bank: 1,
        ram_bank: 0,
        ram_enabled: false,
        rom_banking_mode: true,
        ..m
    }
}

impl Memory {
    pub fn new() -> (m: Memory)
        ensures
            powered_on(m@),
    {
        Memory {
            rom: Vec::new(),
            boot: Vec::new(),
            boot_on: false,
            vram: zeroed(VRAM_SIZE),
            eram: zeroed(ERAM_SIZE),
            wram: zeroed(WRAM_SIZE),
            oam: zeroed(OAM_SIZE),
            io: zeroed(IO_SIZE),
            hram: zeroed(HRAM_SIZE),
            ie: 0,
            bg_palette: zeroed(PALETTE_SIZE),
            obj_palette: zeroed(PALETTE_SIZE),
            rtc: zeroed(RTC_SIZE),
            cartridge_type: CartridgeType::RomOnly,
            rom_bank: 1,
            ram_bank: 0,
            ram_enabled: false,
            rom_banking_mode: true,
            access_vram: true,
            access_oam: true,
            div_written: false,
            pending_event: None,
        }
    }

    fn rom_byte(&self, i: usize) -> (r: u8)
        ensures
            r == self@.rom_at(i as int),
    {
        if i < self.rom.len() {
            self.rom[i]
        } else {
            0xFF
        }
    }

    fn eram_byte(&self, address: u16) -> (r: u8)
        requires
            self@.wf(),
            0xA000 <= address < 0xC000,
        ensures
            r == self@.eram_read(address as int),
    {
        let offset: usize = (address - 0xA000) as usize;
        if !(self.cartridge_type == CartridgeType::RomOnly || self.ram_enabled) {
            0xFF
        } else if self.cartridge_type == CartridgeType::Mbc2 {
            self.eram[offset % 0x200] % 16 + 0xF0
        } else if self.cartridge_type == CartridgeType::Mbc3 && self.ram_bank >= 8 {
            if self.ram_bank <= 0xC {
                self.rtc[(self.ram_bank - 8) as usize]
            } else {
                0xFF
            }
        } else {
            self.eram[self.ram_bank as usize * 0x2000 + offset]
        }
    }

    fn wram_offset(&self, address: u16) -> (r: usize)
        requires
            self@.wf(),
            0xC000 <= address < 0xE000,
        ensures
            r == wram_index(self@.svbk(), address as int),
            r < WRAM_SIZE,
    {
        if address < 0xD000 {
            (address - 0xC000) as usize
        } else {
            let svbk: u8 = self.io[0x70] % 8;
            let bank: usize = if svbk == 0 { 1 } else { svbk as usize };
            bank * 0x1000 + (address - 0xD000) as usize
        }
    }

    /// The byte that the CPU reads at `address`; unmapped and blocked
    /// locations read as 0xFF.
    pub fn read_byte(&self, address: u16) -> (r: u8)
        requires
            self@.wf(),
        ensures
            r == self@.read(address),
    {
        if address < 0x4000 {
            if self.boot_on && (address as usize) < self.boot.len() {
                self.boot[address as usize]
            } else {
                self.rom_byte(address as usize)
            }
        } else if address < 0x8000 {
            self.rom_byte(self.rom_bank as usize * 0x4000 + (address - 0x4000) as usize)
        } else if address < 0xA000 {
            if self.access_vram {
                self.vram[(self.io[0x4F] % 2) as usize * 0x2000 + (address - 0x8000) as usize]
            } else {
                0xFF
            }
        } else if address < 0xC000 {
            self.eram_byte(address)
        } else if address < 0xE000 {
            self.wram[self.wram_offset(address)]
        } else if address < 0xFE00 {
            self.wram[self.wram_offset(address - 0x2000)]
        } else if address < 0xFEA0 {
            if self.access_oam {
                self.oam[(address - 0xFE00) as usize]
            } else {
                0xFF
            }
        } else if address < 0xFF00 {
            0xFF
        } else if address < 0xFF80 {
            self.io[(address - 0xFF00) as usize]
        } else if address < 0xFFFF {
            self.hram[(address - 0xFF80) as usize]
        } else {
            self.ie
        }
    }

    /// Sets or clears the RAM enable latch; on an MBC2 an address with bit 8
    /// set is not a RAM enable register.
    pub fn enable_ram_banking(&mut self, address: u16, byte: u8)
        ensures
            final(self)@ == old(self)@.ram_enable_written(address as int, byte),
    {
        if self.cartridge_type == CartridgeType::Mbc2 && (address / 0x100) % 2 == 1 {
            return;
        }
        self.ram_enabled = byte % 16 == 0x0A;
    }

    /// A write to the low ROM bank-number register. A bank number whose low
    /// bits are all zero selects the next bank on MBC1, MBC2 and MBC3.
    pub fn change_rom_bank_lower_bits(&mut self, byte: u8)
        requires
            old(self)@.wf(),
        ensures
            final(self)@ == (MemView { rom_bank: old(self)@.lower_bank_after(byte), ..old(self)@ }),
            final(self)@.wf(),
    {
        match self.cartridge_type {
            CartridgeType::RomOnly => {},
            CartridgeType::Mbc1 => {
                let b: u16 = (self.rom_bank / 0x20) * 0x20 + (byte % 0x20) as u16;
                self.rom_bank = if b % 0x20 == 0 { b + 1 } else { b };
            },
            CartridgeType::Mbc2 => {
                let b: u16 = (byte % 16) as u16;
                self.rom_bank = if b == 0 { 1 } else { b };
            },
            CartridgeType::Mbc3 => {
                let b: u16 = (byte % 0x80) as u16;
                self.rom_bank = if b == 0 { 1 } else { b };
            },
            CartridgeType::Mbc5 => {
                self.rom_bank = (self.rom_bank / 0x100) * 0x100 + byte as u16;
            },
        }
    }

    /// A write to the high ROM bank-number register: bits 5-6 of the bank on
    /// MBC1, bit 8 on MBC5.
    pub fn change_rom_bank_upper_bits(&mut self, byte: u8)
        requires
            old(self)@.wf(),
        ensures
            final(self)@ == (MemView { rom_bank: old(self)@.upper_bank_after(byte), ..old(self)@ }),
            final(self)@.wf(),
    {
        match self.cartridge_type {
            CartridgeType::Mbc1 => {
                self.rom_bank = (byte % 4) as u16 * 0x20 + self.rom_bank % 0x20;
            },
            CartridgeType::Mbc5 => {
                self.rom_bank = self.rom_bank % 0x100 + (byte % 2) as u16 * 0x100;
            },
            _ => {},
        }
    }

    pub fn change_ram_bank(&mut self, byte: u8)
        requires
            old(self)@.wf(),
        ensures
            final(self)@ == (MemView { ram_bank: old(self)@.ram_bank_after(byte), ..old(self)@ }),
            final(self)@.wf(),
    {
        match self.cartridge_type {
            CartridgeType::Mbc1 => {
                self.ram_bank = byte % 4;
            },
            CartridgeType::Mbc3 | CartridgeType::Mbc5 => {
                self.ram_bank = byte % 0x10;
            },
            _ => {},
        }
    }

    /// Bit 0 of a write to 0x6000-0x7FFF on an MBC1: 0 selects ROM banking
    /// (and RAM bank 0), 1 selects RAM banking.
    pub fn handle_mbc1_mode(&mut self, byte: u8)
        requires
            old(self)@.wf(),
        ensures
            final(self)@ == old(self)@.mbc1_mode_written(byte),
            final(self)@.wf(),
    {
        if byte % 2 == 0 {
            self.rom_banking_mode = true;
            self.ram_bank = 0;
        } else {
            self.rom_banking_mode = false;
        }
    }

    /// A write into the ROM area, which reaches the bank controller.
    pub fn handle_banking(&mut self, address: u16, byte: u8)
        requires
            old(self)@.wf(),
            address < 0x8000,
        ensures
            final(self)@ == old(self)@.mbc_write(address as int, byte),
            final(self)@.wf(),
    {
        match self.cartridge_type {
            CartridgeType::RomOnly => {},
            CartridgeType::Mbc1 => {
                if address < 0x2000 {
                    self.enable_ram_banking(address, byte);
                } else if address < 0x4000 {
                    self.change_rom_bank_lower_bits(byte);
                } else if address < 0x6000 {
                    if self.rom_banking_mode {
                        self.change_rom_bank_upper_bits(byte);
                    } else {
                        self.change_ram_bank(byte);
                    }
                } else {
                    self.handle_mbc1_mode(byte);
                }
            },
            CartridgeType::Mbc2 => {
                if address >= 0x4000 {
                } else if (address / 0x100) % 2 == 0 {
                    self.enable_ram_banking(address, byte);
                } else {
                    self.change_rom_bank_lower_bits(byte);
                }
            },
            CartridgeType::Mbc3 => {
                if address < 0x2000 {
                    self.enable_ram_banking(address, byte);
                } else if address < 0x4000 {
                    self.change_rom_bank_lower_bits(byte);
                } else if address < 0x6000 {
                    self.change_ram_bank(byte);
                }
            },
            CartridgeType::Mbc5 => {
                if address < 0x2000 {
                    self.enable_ram_banking(address, byte);
                } else if address < 0x3000 {
                    self.change_rom_bank_lower_bits(byte);
                } else if address < 0x4000 {
                    self.change_rom_bank_upper_bits(byte);
                } else if address < 0x6000 {
                    self.change_ram_bank(byte);
                }
            },
        }
    }

    fn eram_write_byte(&mut self, address: u16, value: u8)
        requires
            old(self)@.wf(),
            0xA000 <= address < 0xC000,
        ensures
            final(self)@ == old(self)@.eram_write(address as int, value),
            final(self)@.wf(),
    {
        let offset: usize = (address - 0xA000) as usize;
        if !(self.cartridge_type == CartridgeType::RomOnly || self.ram_enabled) {
        } else if self.cartridge_type == CartridgeType::Mbc2 {
            self.eram[offset % 0x200] = value % 16;
        } else if self.cartridge_type == CartridgeType::Mbc3 && self.ram_bank >= 8 {
            if self.ram_bank <= 0xC {
                self.rtc[(self.ram_bank - 8) as usize] = value;
            }
        } else {
            self.eram[self.ram_bank as usize * 0x2000 + offset] = value;
        }
    }

    fn io_write_byte(&mut self, address: u16, value: u8)
        requires
            old(self)@.wf(),
            0xFF00 <= address < 0xFF80,
        ensures
            final(self)@ == old(self)@.io_write(address as int, value),
            final(self)@.wf(),
    {
        let i: usize = (address - 0xFF00) as usize;
        if i == 0x00 {
            let joypad: u8 = 0xC0 + (value / 16 % 4) * 16 + self.io[0] % 16;
            self.io[0] = joypad;
            self.pending_event = Some(
                Event { kind: EventKind::JoypadPressed, duration: 0, extra: value },
            );
        } else if i == 0x04 {
            self.io[4] = 0;
            self.div_written = true;
        } else if i == 0x44 {
        } else if i == 0x46 {
            self.io[0x46] = value;
            self.pending_event = Some(
                Event { kind: EventKind::DmaTransfer, duration: DMA_CYCLES, extra: value },
            );
        } else if i == 0x50 && value != 0 {
            self.io[0x50] = value;
            self.pending_event = Some(
                Event { kind: EventKind::BootstrapFinished, duration: 0, extra: value },
            );
        } else if i == 0x69 {
            let idx: u8 = self.io[0x68];
            self.bg_palette[(idx % 0x40) as usize] = value;
            self.io[0x69] = value;
            self.io[0x68] = if idx >= 0x80 { 0x80 + (idx % 0x40 + 1) % 0x40 } else { idx };
        } else if i == 0x6B {
            let idx: u8 = self.io[0x6A];
            self.obj_palette[(idx % 0x40) as usize] = value;
            self.io[0x6B] = value;
            self.io[0x6A] = if idx >= 0x80 { 0x80 + (idx % 0x40 + 1) % 0x40 } else { idx };
        } else {
            self.io[i] = value;
        }
    }

    /// A write by the CPU: ROM addresses reach the bank controller, blocked
    /// VRAM/OAM and the unusable area drop the write, echo RAM writes work
    /// RAM, and some registers have side effects.
    #[verifier::rlimit(40)]
    pub fn write_byte(&mut self, address: u16, value: u8)
        requires
            old(self)@.wf(),
        ensures
            final(self)@ == old(self)@.write(address, value),
            final(self)@.wf(),
    {
        proof {
            reveal(MemView::write);
        }
        if address < 0x8000 {
            self.handle_banking(address, value);
        } else if address < 0xA000 {
            if self.access_vram {
                let i: usize = (self.io[0x4F] % 2) as usize * 0x2000 + (address - 0x8000) as usize;
                self.vram[i] = value;
            }
        } else if address < 0xC000 {
            self.eram_write_byte(address, value);
        } else if address < 0xE000 {
            let i: usize = self.wram_offset(address);
            self.wram[i] = value;
        } else if address < 0xFE00 {
            let i: usize = self.wram_offset(address - 0x2000);
            self.wram[i] = value;
        } else if address < 0xFEA0 {
            if self.access_oam {
                self.oam[(address - 0xFE00) as usize] = value;
            }
        } else if address < 0xFF00 {
        } else if address < 0xFF80 {
            self.io_write_byte(address, value);
        } else if address < 0xFFFF {
            self.hram[(address - 0xFF80) as usize] = value;
        } else {
            self.ie = value;
        }
    }

    /// Maps a boot ROM over the start of the ROM area until it is disabled.
    pub fn load_bootstrap_rom(&mut self, rom: &[u8])
        ensures
            final(self)@ == (MemView { boot: rom@, boot_on: true, ..old(self)@ }),
    {
        self.boot = copy_bytes(rom);
        self.boot_on = true;
    }

    pub fn disable_bootstrap(&mut self)
        ensures
            final(self)@ == (MemView { boot_on: false, ..old(self)@ }),
    {
        self.boot_on = false;
    }

    /// Loads a cartridge image; header byte 0x147 selects its bank controller.
    #[verifier::rlimit(40)]
    pub fn load_game_rom(&mut self, rom: &[u8]) -> (r: Result<(), MemError>)
        requires
            old(self)@.wf(),
        ensures
            final(self)@.wf(),
            r == load_outcome(rom@),
            r is Err ==> final(self)@ == old(self)@,
            r is Ok ==> final(self)@ == with_cartridge(
                old(self)@,
                rom@,
                cartridge_type_of(rom@[0x147])->0,
            ),
            rom@.len() == 0 || rom@.len() % 0x4000 != 0 ==> r == Err::<(), MemError>(
                MemError::InvalidRomSize(rom@.len() as usize),
            ) && final(self)@ == old(self)@,
            rom@.len() > 0 && rom@.len() % 0x4000 == 0 ==> match cartridge_type_of(rom@[0x147]) {
                None => r == Err::<(), MemError>(MemError::UnsupportedCartridge(rom@[0x147]))
                    && final(self)@ == old(self)@,
                Some(t) => if rom@.len() > max_rom_size(t) {
                    r == Err::<(), MemError>(MemError::InvalidRomSize(rom@.len() as usize))
                        && final(self)@ == old(self)@
                } else {
                    r == Ok::<(), MemError>(()) && final(self)@ == with_cartridge(
                        old(self)@,
                        rom@,
                        t,
                    )
                },
            },
    {
        let len: usize = rom.len();
        if len == 0 || len % 0x4000 != 0 {
            return Err(MemError::InvalidRomSize(len));
        }
        let code: u8 = rom[0x147];
        let t: CartridgeType = match cartridge_type_from_code(code) {
            Some(t) => t,
            None => {
                return Err(MemError::UnsupportedCartridge(code));
            },
        };
        if len > max_rom_size_of(t) {
            return Err(MemError::InvalidRomSize(len));
        }
        self.rom = copy_bytes(rom);
        self.cartridge_type = t;
        self.rom_bank = 1;
        self.ram_bank = 0;
        self.ram_enabled = false;
        self.rom_banking_mode = true;
        Ok(())
    }

    /// Set by the PPU: whether the CPU sees VRAM.
    pub fn set_access_vram(&mut self, on: bool)
        ensures
            final(self)@ == (MemView { access_vram: on, ..old(self)@ }),
    {
        self.access_vram = on;
    }

    /// Set by the PPU: whether the CPU sees OAM.
    pub fn set_access_oam(&mut self, on: bool)
        ensures
            final(self)@ == (MemView { access_oam: on, ..old(self)@ }),
    {
        self.access_oam = on;
    }

    /// A write to an I/O register by the hardware itself, without the side
    /// effects of a CPU write.
    pub fn set_io(&mut self, reg: u8, value: u8)
        requires
            old(self)@.wf(),
            reg < 0x80,
        ensures
            final(self)@ == (MemView { io: old(self)@.io.update(reg as int, value), ..old(self)@ }),
            final(self)@.wf(),
    {
        self.io[reg as usize] = value;
    }

    /// Reads an I/O register as the hardware sees it.
    pub fn io_reg(&self, reg: u8) -> (r: u8)
        requires
            self@.wf(),
            reg < 0x80,
        ensures
            r == self@.io[reg as int],
    {
        self.io[reg as usize]
    }

    /// Whether the CPU wrote DIV since the last call; clears the flag.
    pub fn take_div_written(&mut self) -> (r: bool)
        ensures
            r == old(self)@.div_written,
            final(self)@ == (MemView { div_written: false, ..old(self)@ }),
    {
        let r = self.div_written;
        self.div_written = false;
        r
    }

    /// The event that the last CPU write synthesized, if any; clears it.
    pub fn take_pending_event(&mut self) -> (r: Option<Event>)
        ensures
            r == old(self)@.pending_event,
            final(self)@ == (MemView { pending_event: None, ..old(self)@ }),
    {
        let r = self.pending_event;
        self.pending_event = None;
        r
    }

    /// OAM DMA: copies the 160 bytes at `value << 8` into OAM, whatever the
    /// CPU's access to OAM.
    pub fn dma_transfer(&mut self, value: u8)
        requires
            old(self)@.wf(),
        ensures
            final(self)@ == (MemView {
                oam: Seq::new(
                    OAM_SIZE as nat,
                    |i: int| old(self)@.read((value as int * 0x100 + i) as u16),
                ),
                ..old(self)@
            }),
            final(self)@.wf(),
    {
        let base: u16 = value as u16 * 0x100;
        let mut bytes: Vec<u8> = Vec::new();
        let mut i: u16 = 0;
        while i < OAM_SIZE as u16
            invariant
                self@.wf(),
                i <= OAM_SIZE,
                base == value as int * 0x100,
                bytes@.len() == i,
                forall|j: int|
                    0 <= j < i ==> bytes@[j] == self@.read((value as int * 0x100 + j) as u16),
            decreases OAM_SIZE - i,
        {
            bytes.push(self.read_byte(base + i));
            i = i + 1;
        }
        assert(bytes@ =~= Seq::new(
            OAM_SIZE as nat,
            |i: int| old(self)@.read((value as int * 0x100 + i) as u16),
        ));
        self.oam = bytes;
    }

    /// A byte of video RAM as the PPU sees it.
    pub fn vram_at(&self, bank: u8, offset: u16) -> (r: u8)
        requires
            self@.wf(),
            bank < 2,
            offset < 0x2000,
        ensures
            r == self@.vram[bank * 0x2000 + offset],
    {
        self.vram[bank as usize * 0x2000 + offset as usize]
    }

    /// A byte of the sprite attribute table as the PPU sees it.
    pub fn oam_at(&self, i: u8) -> (r: u8)
        requires
            self@.wf(),
            i < OAM_SIZE,
        ensures
            r == self@.oam[i as int],
    {
        self.oam[i as usize]
    }

    pub fn read_bg_palette(&self, i: u8) -> (r: u8)
        requires
            self@.wf(),
            i < PALETTE_SIZE,
        ensures
            r == self@.bg_palette[i as int],
    {
        self.bg_palette[i as usize]
    }

    pub fn read_sprite_palette(&self, i: u8) -> (r: u8)
        requires
            self@.wf(),
            i < PALETTE_SIZE,
        ensures
            r == self@.obj_palette[i as int],
    {
        self.obj_palette[i as usize]
    }

    /// Whether the cartridge asks for Game Boy Color mode (header byte 0x143,
    /// bit 7).
    pub fn is_color(&self) -> (r: bool)
        ensures
            r == (self@.rom.len() > 0x143 && self@.rom[0x143] >= 0x80),
    {
        self.rom.len() > 0x143 && self.rom[0x143] >= 0x80
    }

    /// The external RAM, in address order, for a battery save.
    pub fn external_ram(&self) -> (r: Vec<u8>)
        ensures
            r@ == self@.eram,
    {
        copy_bytes(self.eram.as_slice())
    }

    /// Restores a battery save into external RAM; bytes past its size are
    /// ignored.
    pub fn load_battery(&mut self, data: &[u8])
        requires
            old(self)@.wf(),
        ensures
            final(self)@.wf(),
            final(self)@ == (MemView {
                eram: Seq::new(
                    ERAM_SIZE as nat,
                    |i: int| if i < data@.len() { data@[i] } else { old(self)@.eram[i] },
                ),
                ..old(self)@
            }),
    {
        let mut i: usize = 0;
        while i < ERAM_SIZE && i < data.len()
            invariant
                i <= ERAM_SIZE,
                i <= data@.len(),
                old(self)@.wf(),
                self.eram@.len() == ERAM_SIZE,
                forall|j: int|
                    0 <= j < ERAM_SIZE ==> #[trigger] self.eram@[j] == if j < i {
                        data@[j]
                    } else {
                        old(self)@.eram[j]
                    },
                self@ == (MemView { eram: self.eram@, ..old(self)@ }),
            decreases ERAM_SIZE - i,
        {
            self.eram[i] = data[i];
            i = i + 1;
        }
        assert(self.eram@ =~= Seq::new(
            ERAM_SIZE as nat,
            |i: int| if i < data@.len() { data@[i] } else { old(self)@.eram[i] },
        ));
    }
}

fn copy_bytes(src: &[u8]) -> (v: Vec<u8>)
    ensures
        v@ == src@,
{
    let mut v: Vec<u8> = Vec::new();
    let mut i: usize = 0;
    while i < src.len()
        invariant
            i <= src@.len(),
            v@ == src@.subrange(0, i as int),
        decreases src@.len() - i,
    {
        v.push(src[i]);
        i = i + 1;
        assert(v@ =~= src@.subrange(0, i as int));
    }
    assert(v@ =~= src@);
    v
}

fn cartridge_type_from_code(code: u8) -> (r: Option<CartridgeType>)
    ensures
        r == cartridge_type_of(code),
{
    if code == 0x00 || code == 0x08 || code == 0x09 {
        Some(CartridgeType::RomOnly)
    } else if 0x01 <= code && code <= 0x03 {
        Some(CartridgeType::Mbc1)
    } else if 0x05 <= code && code <= 0x06 {
        Some(CartridgeType::Mbc2)
    } else if 0x0F <= code && code <= 0x13 {
        Some(CartridgeType::Mbc3)
    } else if 0x19 <= code && code <= 0x1E {
        Some(CartridgeType::Mbc5)
    } else {
        None
    }
}

fn max_rom_size_of(t: CartridgeType) -> (r: usize)
    ensures
        r == max_rom_size(t),
{
    match t {
        CartridgeType::RomOnly => 0x8000,
        CartridgeType::Mbc1 => 0x200000,
        CartridgeType::Mbc2 => 0x40000,
        CartridgeType::Mbc3 => 0x200000,
        CartridgeType::Mbc5 => 0x800000,
    }
}

/// The locations where a CPU write is read back unchanged: not the ROM area
/// (bank controller registers), not VRAM or OAM while the PPU blocks them, not
/// external RAM that is disabled, nibble-wide (MBC2) or an unmapped clock
/// register, not the unusable area, not the read-only LY register, and not
/// the joypad and DIV registers, whose writes mean something else.
pub open spec fn stores_plainly(m: MemView, addr: u16) -> bool {
    &&& addr >= 0x8000
    &&& 0x8000 <= addr < 0xA000 ==> m.access_vram
    &&& 0xA000 <= addr < 0xC000 ==> m.eram_enabled() && m.cartridge_type != CartridgeType::Mbc2
        && !(m.rtc_selected() && m.ram_bank > 0xC)
    &&& 0xFE00 <= addr < 0xFEA0 ==> m.access_oam
    &&& !(0xFEA0 <= addr < 0xFF00)
    &&& addr != 0xFF00
    &&& addr != 0xFF04
    &&& addr != 0xFF44
}

/// Every CPU write keeps the bus well formed.
#[verifier::rlimit(50)]
pub proof fn lemma_write_keeps_wf(m: MemView, addr: u16, v: u8)
    requires
        m.wf(),
    ensures
        m.write(addr, v).wf(),
{
    reveal(MemView::write);
}

/// Reading a location right after writing it yields the written value,
/// wherever the bus stores plainly.
pub proof fn lemma_read_after_write(m: MemView, addr: u16, v: u8)
    requires
        m.wf(),
        stores_plainly(m, addr),
    ensures
        m.write(addr, v).read(addr) == v,
{
    reveal(MemView::write);
}

/// Echo RAM mirrors 0xC000-0xDDFF in both directions.
pub proof fn lemma_echo_round_trip(m: MemView, k: u16, v: u8)
    requires
        m.wf(),
        k < 0x1E00,
    ensures
        m.write((0xC000 + k) as u16, v).read((0xE000 + k) as u16) == v,
        m.write((0xE000 + k) as u16, v).read((0xC000 + k) as u16) == v,
{
    reveal(MemView::write);
}

/// On an MBC1 the selected ROM bank is never 0x00, 0x20, 0x40 or 0x60,
/// whatever the CPU writes.
pub proof fn lemma_mbc1_bank_skips_multiples_of_0x20(m: MemView, addr: u16, v: u8)
    requires
        m.wf(),
        m.cartridge_type == CartridgeType::Mbc1,
    ensures
        m.write(addr, v).rom_bank != 0x00,
        m.write(addr, v).rom_bank != 0x20,
        m.write(addr, v).rom_bank != 0x40,
        m.write(addr, v).rom_bank != 0x60,
{
    reveal(MemView::write);
    lemma_write_keeps_wf(m, addr, v);
}

/// LY (0xFF44) is read-only to the CPU: only the PPU moves it, so it stays
/// within the lines the PPU produces.
pub proof fn lemma_write_keeps_ly(m: MemView, addr: u16, v: u8)
    requires
        m.wf(),
    ensures
        m.write(addr, v).io[0x44] == m.io[0x44],
{
    reveal(MemView::write);
}

/// A CPU write to DIV reads back as zero and tells the timer to restart its
/// counter.
pub proof fn lemma_div_write_resets(m: MemView, v: u8)
    requires
        m.wf(),
    ensures
        m.write(0xFF04, v).read(0xFF04) == 0,
        m.write(0xFF04, v).div_written,
{
    reveal(MemView::write);
}

pub open spec fn hex_char(d: int) -> char {
    if d == 0 {
        '0'
    } else if d == 1 {
        '1'
    } else if d == 2 {
        '2'
    } else if d == 3 {
        '3'
    } else if d == 4 {
        '4'
    } else if d == 5 {
        '5'
    } else if d == 6 {
        '6'
    } else if d == 7 {
        '7'
    } else if d == 8 {
        '8'
    } else if d == 9 {
        '9'
    } else if d == 10 {
        'a'
    } else if d == 11 {
        'b'
    } else if d == 12 {
        'c'
    } else if d == 13 {
        'd'
    } else if d == 14 {
        'e'
    } else {
        'f'
    }
}

/// The low `width` hex digits of `v`, zero-padded, lower case.
pub open spec fn hex_chars(v: int, width: nat) -> Seq<char>
    decreases width,
{
    if width == 0 {
        Seq::empty()
    } else {
        hex_chars(v / 16, (width - 1) as nat).push(hex_char(v % 16))
    }
}

/// The dump of the bytes from `i` up to `to`, two bytes a group; a line
/// starts with the address at every multiple of 16.
pub open spec fn dump_from(m: MemView, i: int, to: int) -> Seq<char>
    decreases to + 2 - i,
{
    if !(0 <= i < to && to <= 0xFFFF) {
        Seq::empty()
    } else {
        let head = if i % 16 == 0 {
            seq!['\n'] + hex_chars(i, 8) + seq![':', ' ']
        } else {
            Seq::empty()
        };
        head + hex_chars(m.read(i as u16) as int, 2) + hex_chars(m.read((i + 1) as u16) as int, 2)
            + seq![' '] + dump_from(m, i + 2, to)
    }
}

/// Relies on String::push: appends one character.
#[verifier::external_body]
fn push_char(s: &mut String, c: char)
    ensures
        final(s)@ == old(s)@.push(c),
{
    s.push(c);
}

fn hex_char_of(d: u32) -> (c: char)
    ensures
        c == hex_char(d as int),
{
    if d == 0 {
        '0'
    } else if d == 1 {
        '1'
    } else if d == 2 {
        '2'
    } else if d == 3 {
        '3'
    } else if d == 4 {
        '4'
    } else if d == 5 {
        '5'
    } else if d == 6 {
        '6'
    } else if d == 7 {
        '7'
    } else if d == 8 {
        '8'
    } else if d == 9 {
        '9'
    } else if d == 10 {
        'a'
    } else if d == 11 {
        'b'
    } else if d == 12 {
        'c'
    } else if d == 13 {
        'd'
    } else if d == 14 {
        'e'
    } else {
        'f'
    }
}

fn push_hex(s: &mut String, v: u32, width: u8)
    ensures
        final(s)@ == old(s)@ + hex_chars(v as int, width as nat),
    decreases width,
{
    if width > 0 {
        push_hex(s, v / 16, width - 1);
        push_char(s, hex_char_of(v % 16));
        assert(final(s)@ =~= old(s)@ + hex_chars(v as int, width as nat));
    } else {
        assert(s@ =~= old(s)@ + hex_chars(v as int, width as nat));
    }
}

impl Memory {
    /// A hex dump of the bytes from `min_addr` (default 0) up to `max_addr`
    /// (default 0xFFFF), as the CPU reads them.
    #[verifier::rlimit(40)]
    pub fn format(&self, min_addr: Option<u16>, max_addr: Option<u16>) -> (r: String)
        requires
            self@.wf(),
        ensures
            r@ == dump_from(
                self@,
                match min_addr {
                    Some(a) => a as int,
                    None => 0,
                },
                match max_addr {
                    Some(a) => a as int,
                    None => 0xFFFF,
                },
            ),
    {
        let from: usize = match min_addr {
            Some(a) => a as usize,
            None => 0,
        };
        let to: usize = match max_addr {
            Some(a) => a as usize,
            None => 0xFFFF,
        };
        let mut res: String = String::new();
        let mut i: usize = from;
        while i < to
            invariant
                self@.wf(),
                from <= i,
                to <= 0xFFFF,
                i <= 0x10000,
                res@ + dump_from(self@, i as int, to as int) == dump_from(
                    self@,
                    from as int,
                    to as int,
                ),
            decreases 0x10000 - i,
        {
            let ghost before = res@;
            if i % 16 == 0 {
                push_char(&mut res, '\n');
                push_hex(&mut res, i as u32, 8);
                push_char(&mut res, ':');
                push_char(&mut res, ' ');
            }
            let lhs: u8 = self.read_byte(i as u16);
            let rhs: u8 = self.read_byte((i + 1) as u16);
            push_hex(&mut res, lhs as u32, 2);
            push_hex(&mut res, rhs as u32, 2);
            push_char(&mut res, ' ');
            proof {
                let head = if i % 16 == 0 {
                    seq!['\n'] + hex_chars(i as int, 8) + seq![':', ' ']
                } else {
                    Seq::empty()
                };
                assert(res@ =~= before + head + hex_chars(lhs as int, 2) + hex_chars(rhs as int, 2)
                    + seq![' ']);
                assert(dump_from(self@, i as int, to as int) == head + hex_chars(lhs as int, 2)
                    + hex_chars(rhs as int, 2) + seq![' '] + dump_from(self@, i + 2, to as int));
                assert(res@ + dump_from(self@, i + 2, to as int) =~= before + dump_from(
                    self@,
                    i as int,
                    to as int,
                ));
            }
            i = i + 2;
        }
        proof {
            assert(res@ + dump_from(self@, i as int, to as int) =~= res@);
        }
        res
    }
}

} // verus!
