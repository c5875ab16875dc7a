use vstd::prelude::*;
use crate::memory::mbc::{
    Loadable, byte_or_open_bus, copy_into, read_or_open_bus, store, store_if_present, zeroed,
};
use crate::memory::memory::Memory;
use crate::util::bit_util::bit_of_u16;

verus! {

/// The MBC2 cartridge controller. Writes below 0x4000 select the ROM bank when address bit 8
/// is set and set the RAM enable otherwise. Bytes beyond the ROM or RAM read as 0xFF, and
/// writes there are dropped.
pub struct MBC2 {
    pub ram_enabled: bool,
    pub ram_banking_mode: bool,
    pub rom_bank: usize,
    pub bank2: usize,
    pub rom: Vec<u8>,
    pub ram: Vec<u8>,
}

/// Where in the ROM a read at `address` (below 0x8000) goes.
pub open spec fn mbc2_rom_index(mbc: MBC2, address: u16) -> usize {
    if address <= 0x3FFF {
        ((address as usize) & 0x1FFF) | (if mbc.ram_banking_mode { mbc.bank2 << 19usize } else { 0 })
    } else {
        ((address as usize) & 0x1FFF) | (mbc.rom_bank << 14usize) | (mbc.bank2 << 19usize)
    }
}

/// Where in the RAM an access at `address` (0xA000 to 0xBFFF) goes.
pub open spec fn mbc2_ram_index(mbc: MBC2, address: u16) -> usize {
    ((address as usize) & 0x1FFF) | (if mbc.ram_banking_mode { mbc.bank2 << 13usize } else { 0 })
}

impl MBC2 {
    /// A cartridge with zeroed ROM and RAM of the given sizes, ROM bank 1 selected.
    pub fn new(rom_size: usize, ram_size: usize) -> (r: MBC2)
        ensures
            !r.ram_enabled,
            !r.ram_banking_mode,
            r.rom_bank == 1,
            r.bank2 == 0,
            r.rom@ == Seq::new(rom_size as nat, |i: int| 0u8),
            r.ram@ == Seq::new(ram_size as nat, |i: int| 0u8),
    {
        MBC2 {
            ram_enabled: false,
            ram_banking_mode: false,
            rom_bank: 0x01,
            bank2: 0x00,
            ram: zeroed(ram_size),
            rom: zeroed(rom_size),
        }
    }
}

impl Loadable for MBC2 {
    open spec fn rom_contents(&self) -> Seq<u8> {
        self.rom@
    }

    fn load_byte(&mut self, address: usize, value: u8) {
        self.rom.set(address, value);
    }

    fn load_bytes(&mut self, address: usize, values: &[u8]) {
        copy_into(&mut self.rom, address, values);
    }
}

impl Memory for MBC2 {
    open spec fn maps(&self, address: u16) -> bool {
        &&& (address <= 0x7FFF || 0xA000 <= address <= 0xBFFF)
        &&& self.rom_bank <= 0x1F
        &&& self.bank2 <= 0x03
    }

    open spec fn peek(&self, address: u16) -> u8 {
        if address <= 0x7FFF {
            byte_or_open_bus(self.rom@, mbc2_rom_index(*self, address) as int)
        } else {
            byte_or_open_bus(self.ram@, mbc2_ram_index(*self, address) as int)
        }
    }

    open spec fn written(&self, address: u16, value: u8, post: Self) -> bool {
        &&& post.rom@ == self.rom@
        &&& if address <= 0x3FFF {
            &&& post.ram@ == self.ram@
            &&& post.ram_banking_mode == self.ram_banking_mode && post.bank2 == self.bank2
            &&& if bit_of_u16(address, 8) {
                post.rom_bank == (if value & 0x1F == 0 { 1 } else { (value & 0x1F) as usize })
                    && post.ram_enabled == self.ram_enabled
            } else {
                post.ram_enabled == (value & 0x0F == 0x0A) && post.rom_bank == self.rom_bank
            }
        } else if address <= 0x5FFF {
            post.ram@ == self.ram@ && post.bank2 == (value & 0x03) as usize && post.ram_enabled
                == self.ram_enabled && post.ram_banking_mode == self.ram_banking_mode && post.rom_bank
                == self.rom_bank
        } else if address <= 0x7FFF {
            post.ram@ == self.ram@ && post.ram_banking_mode == (value & 0x01 == 0x01) && post.ram_enabled
                == self.ram_enabled && post.rom_bank == self.rom_bank && post.bank2 == self.bank2
        } else {
            &&& post.ram@ == store_if_present(self.ram@, mbc2_ram_index(*self, address) as int, value)
            &&& post.ram_enabled == self.ram_enabled && post.ram_banking_mode == self.ram_banking_mode
                && post.rom_bank == self.rom_bank && post.bank2 == self.bank2
        }
    }

    fn read(&self, address: u16) -> (r: u8) {
        if address <= 0x3FFF {
            let address_in_rom = ((address as usize) & 0x1FFF) | (if self.ram_banking_mode {
                self.bank2 << 19usize
            } else {
                0
            });
            read_or_open_bus(&self.rom, address_in_rom)
        } else if address <= 0x7FFF {
            let address_in_rom = ((address as usize) & 0x1FFF) | (self.rom_bank << 14usize) | (self.bank2 << 19usize);
            read_or_open_bus(&self.rom, address_in_rom)
        } else {
            let address_in_ram = ((address as usize) & 0x1FFF) | (if self.ram_banking_mode {
                self.bank2 << 13usize
            } else {
                0
            });
            read_or_open_bus(&self.ram, address_in_ram)
        }
    }

    fn write(&mut self, address: u16, value: u8) {
        if address <= 0x3FFF {
            assert((address & 0x100 != 0) == bit_of_u16(address, 8)) by (bit_vector);
            if address & 0x100 != 0 {
                assert(value & 0x1F <= 0x1F) by (bit_vector);
                self.rom_bank = (value & 0x1F) as usize;
                if self.rom_bank == 0 {
                    self.rom_bank = 1;
                }
            } else {
                self.ram_enabled = (value & 0x0F) == 0x0A;
            }
        } else if address <= 0x5FFF {
            assert(value & 0x03 <= 0x03) by (bit_vector);
            self.bank2 = (value & 0x03) as usize;
        } else if address <= 0x7FFF {
            self.ram_banking_mode = (value & 0x01) == 0x01;
        } else {
            let address_in_ram = ((address as usize) & 0x1FFF) | (if self.ram_banking_mode {
                self.bank2 << 13usize
            } else {
                0
            });
            store(&mut self.ram, address_in_ram, value);
        }
    }
}

} // verus!
