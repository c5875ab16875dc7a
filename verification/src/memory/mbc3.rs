use vstd::prelude::*;
use crate::memory::mbc::{
    Loadable, byte_or_open_bus, copy_into, read_or_open_bus, store, store_if_present, zeroed,
};
use crate::memory::memory::{Memory, RAMSize, ROMSize};
use crate::time::duration::{Duration, whole_seconds};
use crate::time::time::ClockAware;
use crate::util::bit_util::{BitUtil, bit_of_u8};

verus! {

/// The registers of the cartridge real-time clock. Bit 0 of `days_high` is bit 8 of the day
/// counter, bit 6 halts the clock and bit 7 is the day counter's carry.
#[derive(Copy, Clone, PartialEq, Eq, Structural, Debug)]
pub struct RTCFields {
    pub seconds: u8,
    pub minutes: u8,
    pub hours: u8,
    pub days_low: u8,
    pub days_high: u8,
}

/// The number of seconds the clock registers stand for.
pub open spec fn rtc_fields_seconds(fields: RTCFields) -> int {
    fields.seconds + 60 * fields.minutes + 3600 * fields.hours + 86400 * rtc_day_count(fields)
}

/// The nine-bit day counter of the clock registers.
pub open spec fn rtc_day_count(fields: RTCFields) -> int {
    fields.days_low + 256 * ((fields.days_high & 0x01) as int)
}

/// The clock registers after `nanoseconds` more have passed on a running clock.
pub open spec fn rtc_advanced(fields: RTCFields, nanoseconds: u128) -> RTCFields {
    let total = (rtc_fields_seconds(fields) * 1_000_000_000 + nanoseconds) as u128;
    let s = whole_seconds(total);
    let days = (s / 86400) as u16;
    let carry = bit_of_u8(fields.days_high, 7) || days >= 512;
    RTCFields {
        seconds: (s % 60) as u8,
        minutes: (s % 3600 / 60) as u8,
        hours: (s % 86400 / 3600) as u8,
        days_low: (days % 256) as u8,
        days_high: ((if 256 <= days && days < 512 { 1u8 } else { 0u8 }) | (if carry { 0x80u8 } else { 0u8 })) as u8,
    }
}

/// The clock registers stand for fewer than 50 million seconds.
proof fn lemma_rtc_seconds_bound(fields: RTCFields)
    ensures
        0 <= rtc_fields_seconds(fields) < 50_000_000,
{
    let days_high = fields.days_high;
    assert(days_high & 0x01 <= 1) by (bit_vector);
    assert(rtc_day_count(fields) <= 511);
    assert(86400 * rtc_day_count(fields) <= 86400 * 511) by (nonlinear_arith)
        requires rtc_day_count(fields) <= 511;
    assert(0 <= 86400 * rtc_day_count(fields)) by (nonlinear_arith)
        requires 0 <= rtc_day_count(fields);
}

impl RTCFields {
    /// All registers zero: a running clock at day 0, 00:00:00.
    pub fn new() -> (r: RTCFields)
        ensures
            r == (RTCFields { seconds: 0, minutes: 0, hours: 0, days_low: 0, days_high: 0 }),
    {
        RTCFields { seconds: 0, minutes: 0, hours: 0, days_low: 0, days_high: 0 }
    }

    fn is_halted(&self) -> (r: bool)
        ensures
            r == bit_of_u8(self.days_high, 6),
    {
        self.days_high.get_bit(6)
    }

    /// The clock after `duration` more has passed: a halted clock stays as it is.
    pub fn tick(&self, duration: Duration) -> (r: RTCFields)
        requires
            rtc_fields_seconds(*self) * 1_000_000_000 + duration.nanoseconds <= u128::MAX,
        ensures
            bit_of_u8(self.days_high, 6) ==> r == *self,
            !bit_of_u8(self.days_high, 6) ==> r == rtc_advanced(*self, duration.nanoseconds),
    {
        if self.is_halted() {
            *self
        } else {
            let current = self.to_duration();
            let new_duration = Duration::from_nanoseconds(current.nanoseconds + duration.nanoseconds);
            let rtc_duration = new_duration.to_rtc_duration();
            let days_carry = self.days_high.get_bit(7) || rtc_duration.days >= 512;
            RTCFields {
                seconds: rtc_duration.seconds,
                minutes: rtc_duration.minutes,
                hours: rtc_duration.hours,
                days_low: (rtc_duration.days % 256) as u8,
                days_high: (if rtc_duration.days >= 256 && rtc_duration.days < 512 {
                    1u8
                } else {
                    0u8
                }) | (if days_carry {
                    0x80u8
                } else {
                    0u8
                }),
            }
        }
    }

    /// The span of time the registers stand for.
    pub fn to_duration(&self) -> (r: Duration)
        ensures
            r.nanoseconds == rtc_fields_seconds(*self) * 1_000_000_000,
    {
        let days_high = self.days_high;
        let high: u64 = (days_high & 0x01) as u64;
        assert(days_high & 0x01 <= 1) by (bit_vector);
        let day_count: u64 = self.days_low as u64 + 256 * high;
        assert(day_count == rtc_day_count(*self));
        let total: u64 = self.seconds as u64 + 60 * self.minutes as u64 + 3600 * self.hours as u64 + 86400 * day_count;
        Duration::from_seconds(total)
    }
}

/// The MBC3 cartridge controller: ROM banks, RAM banks 0 to 7, and the clock registers
/// mapped as RAM banks 8 to 12, latched into `rtc_registers` for reading. Bytes beyond the
/// ROM or RAM read as 0xFF, and writes there are dropped.
pub struct MBC3 {
    pub rtc: RTCFields,
    pub rtc_registers: RTCFields,
    pub clock_counter_data_latch: bool,
    pub ram_enabled: bool,
    pub rom_bank_address: usize,
    pub ram_bank_address: usize,
    pub rom: Vec<u8>,
    pub ram: Vec<u8>,
}

/// Where in the ROM a read at `address` (below 0x8000) goes.
pub open spec fn mbc3_rom_index(mbc: MBC3, address: u16) -> int {
    if address <= 0x3FFF {
        address as int
    } else {
        (((address as usize) & 0x3FFF) | (mbc.rom_bank_address << 14usize)) as int
    }
}

/// Where in the RAM an access at `address` goes while RAM bank `bank` (0 to 7) is selected.
pub open spec fn mbc3_ram_index(bank: usize, address: u16) -> int {
    ((bank << 13usize) | ((address as usize) & 0x1FFF)) as int
}

/// The clock register that RAM bank `bank` (8 to 12) shows.
pub open spec fn rtc_register(fields: RTCFields, bank: usize) -> u8 {
    if bank == 8 {
        fields.seconds
    } else if bank == 9 {
        fields.minutes
    } else if bank == 10 {
        fields.hours
    } else if bank == 11 {
        fields.days_low
    } else {
        fields.days_high
    }
}

/// `fields` with the clock register of RAM bank `bank` (8 to 12) set to `value`.
pub open spec fn with_rtc_register(fields: RTCFields, bank: usize, value: u8) -> RTCFields {
    if bank == 8 {
        RTCFields { seconds: value, ..fields }
    } else if bank == 9 {
        RTCFields { minutes: value, ..fields }
    } else if bank == 10 {
        RTCFields { hours: value, ..fields }
    } else if bank == 11 {
        RTCFields { days_low: value, ..fields }
    } else {
        RTCFields { days_high: value, ..fields }
    }
}

impl MBC3 {
    /// A cartridge with zeroed ROM and RAM of the sizes the header names, ROM bank 1 and RAM
    /// bank 0 selected, and a zeroed clock.
    pub fn new(rom_size: ROMSize, ram_size: RAMSize) -> (r: MBC3)
        ensures
            r.rtc == (RTCFields { seconds: 0, minutes: 0, hours: 0, days_low: 0, days_high: 0 }),
            r.rtc_registers == r.rtc,
            !r.clock_counter_data_latch,
            !r.ram_enabled,
            r.rom_bank_address == 1,
            r.ram_bank_address == 0,
            r.rom@ == Seq::new(rom_size.bytes_spec() as nat, |i: int| 0u8),
            r.ram@ == Seq::new(ram_size.bytes_spec() as nat, |i: int| 0u8),
    {
        MBC3 {
            rtc: RTCFields::new(),
            rtc_registers: RTCFields::new(),
            clock_counter_data_latch: false,
            ram_enabled: false,
            rom_bank_address: 0x01,
            ram_bank_address: 0x00,
            ram: zeroed(ram_size.bytes()),
            rom: zeroed(rom_size.bytes()),
        }
    }

    fn latch_counter_data(&mut self)
        ensures
            final(self).rtc_registers == old(self).rtc,
            final(self).rtc == old(self).rtc,
            final(self).rom@ == old(self).rom@,
            final(self).ram@ == old(self).ram@,
            final(self).clock_counter_data_latch == old(self).clock_counter_data_latch,
            final(self).ram_enabled == old(self).ram_enabled,
            final(self).rom_bank_address == old(self).rom_bank_address,
            final(self).ram_bank_address == old(self).ram_bank_address,
    {
        self.rtc_registers = self.rtc;
    }
}

impl Loadable for MBC3 {
    open spec fn rom_contents(&self) -> Seq<u8> {
        self.rom@
    }

    fn load_byte(&mut self, address: usize, value: u8) {
        self.rom.set(address, value);
    }

    fn load_bytes(&mut self, address: usize, values: &[u8]) {
        copy_into(&mut self.rom, address, values);
    }
}

impl ClockAware for MBC3 {
    open spec fn ready_to_tick(&self) -> bool {
        true
    }

    /// The clock advances by one microsecond.
    fn handle_tick(&mut self, double_speed: bool)
        ensures
            final(self).rtc == (if bit_of_u8(old(self).rtc.days_high, 6) {
                old(self).rtc
            } else {
                rtc_advanced(old(self).rtc, 1000)
            }),
            final(self).rtc_registers == old(self).rtc_registers,
            final(self).rom@ == old(self).rom@,
            final(self).ram@ == old(self).ram@,
            final(self).ram_enabled == old(self).ram_enabled,
            final(self).rom_bank_address == old(self).rom_bank_address,
            final(self).ram_bank_address == old(self).ram_bank_address,
            final(self).clock_counter_data_latch == old(self).clock_counter_data_latch,
    {
        proof {
            lemma_rtc_seconds_bound(self.rtc);
        }
        self.rtc = self.rtc.tick(Duration::from_nanoseconds(1000));
    }

    fn tick(&mut self)
        ensures
            final(self).rtc == (if bit_of_u8(old(self).rtc.days_high, 6) {
                old(self).rtc
            } else {
                rtc_advanced(old(self).rtc, 1000)
            }),
            final(self).rtc_registers == old(self).rtc_registers,
            final(self).rom@ == old(self).rom@,
            final(self).ram@ == old(self).ram@,
            final(self).ram_enabled == old(self).ram_enabled,
            final(self).rom_bank_address == old(self).rom_bank_address,
            final(self).ram_bank_address == old(self).ram_bank_address,
            final(self).clock_counter_data_latch == old(self).clock_counter_data_latch,
    {
        self.handle_tick(false);
    }
}

impl Memory for MBC3 {
    open spec fn maps(&self, address: u16) -> bool {
        &&& (address <= 0x7FFF || 0xA000 <= address <= 0xBFFF)
        &&& self.rom_bank_address <= 0xFF
        &&& self.ram_bank_address <= 0x0C
    }

    open spec fn peek(&self, address: u16) -> u8 {
        if address <= 0x7FFF {
            byte_or_open_bus(self.rom@, mbc3_rom_index(*self, address))
        } else if self.ram_bank_address <= 7 {
            byte_or_open_bus(self.ram@, mbc3_ram_index(self.ram_bank_address, address))
        } else {
            rtc_register(self.rtc_registers, self.ram_bank_address)
        }
    }

    /// Bank numbers above 12 written to 0x4000 to 0x5FFF are ignored.
    open spec fn written(&self, address: u16, value: u8, post: Self) -> bool {
        &&& post.rom@ == self.rom@
        &&& if address <= 0x1FFF {
            post == MBC3 { ram_enabled: value & 0x0F == 0x0A, rom: post.rom, ram: post.ram, ..*self }
                && post.ram@ == self.ram@
        } else if address <= 0x3FFF {
            post == MBC3 {
                rom_bank_address: if value == 0 { 1 } else { value as usize },
                rom: post.rom,
                ram: post.ram,
                ..*self
            } && post.ram@ == self.ram@
        } else if address <= 0x5FFF {
            post == MBC3 {
                ram_bank_address: if value <= 0x0C { (value & 0x0F) as usize } else { self.ram_bank_address },
                rom: post.rom,
                ram: post.ram,
                ..*self
            } && post.ram@ == self.ram@
        } else if address <= 0x7FFF {
            let latch = value & 1 == 1;
            post == MBC3 {
                clock_counter_data_latch: latch,
                rtc_registers: if latch && !self.clock_counter_data_latch { self.rtc } else { self.rtc_registers },
                rom: post.rom,
                ram: post.ram,
                ..*self
            } && post.ram@ == self.ram@
        } else if !self.ram_enabled {
            post == MBC3 { rom: post.rom, ram: post.ram, ..*self } && post.ram@ == self.ram@
        } else if self.ram_bank_address <= 7 {
            post == MBC3 { rom: post.rom, ram: post.ram, ..*self } && post.ram@ == store_if_present(
                self.ram@,
                mbc3_ram_index(self.ram_bank_address, address),
                value,
            )
        } else {
            post == MBC3 {
                rtc_registers: with_rtc_register(self.rtc_registers, self.ram_bank_address, value),
                rtc: with_rtc_register(self.rtc, self.ram_bank_address, value),
                rom: post.rom,
                ram: post.ram,
                ..*self
            } && post.ram@ == self.ram@
        }
    }

    fn read(&self, address: u16) -> (r: u8) {
        if address <= 0x3FFF {
            read_or_open_bus(&self.rom, address as usize)
        } else if address <= 0x7FFF {
            let address_in_rom = ((address as usize) & 0x3FFF) | (self.rom_bank_address << 14usize);
            read_or_open_bus(&self.rom, address_in_rom)
        } else if self.ram_bank_address <= 7 {
            let address_in_ram = (self.ram_bank_address << 13usize) | ((address as usize) & 0x1FFF);
            read_or_open_bus(&self.ram, address_in_ram)
        } else if self.ram_bank_address == 8 {
            self.rtc_registers.seconds
        } else if self.ram_bank_address == 9 {
            self.rtc_registers.minutes
        } else if self.ram_bank_address == 10 {
            self.rtc_registers.hours
        } else if self.ram_bank_address == 11 {
            self.rtc_registers.days_low
        } else {
            self.rtc_registers.days_high
        }
    }

    fn write(&mut self, address: u16, value: u8) {
        if address <= 0x1FFF {
            self.ram_enabled = (value & 0x0F) == 0x0A;
        } else if address <= 0x3FFF {
            self.rom_bank_address = value as usize;
            if self.rom_bank_address == 0 {
                self.rom_bank_address = 1;
            }
        } else if address <= 0x5FFF {
            if value <= 0x0C {
                assert(value <= 0x0C ==> value & 0x0F == value) by (bit_vector);
                self.ram_bank_address = (value & 0x0F) as usize;
            }
        } else if address <= 0x7FFF {
            let new_value = (value & 1u8) == 1;
            if new_value && !self.clock_counter_data_latch {
                self.latch_counter_data();
            }
            self.clock_counter_data_latch = new_value;
        } else if self.ram_enabled {
            if self.ram_bank_address <= 7 {
                let address_in_ram = (self.ram_bank_address << 13usize) | ((address as usize) & 0x1FFF);
                store(&mut self.ram, address_in_ram, value);
            } else if self.ram_bank_address == 8 {
                self.rtc_registers.seconds = value;
                self.rtc.seconds = value;
            } else if self.ram_bank_address == 9 {
                self.rtc_registers.minutes = value;
                self.rtc.minutes = value;
            } else if self.ram_bank_address == 10 {
                self.rtc_registers.hours = value;
                self.rtc.hours = value;
            } else if self.ram_bank_address == 11 {
                self.rtc_registers.days_low = value;
                self.rtc.days_low = value;
            } else {
                self.rtc_registers.days_high = value;
                self.rtc.days_high = value;
            }
        }
    }
}

/// Cartridge RAM reads back what was written to it while it was enabled, where the RAM holds the
/// addressed byte; a clock register selected in place of a RAM bank reads back the value written
/// to it; while RAM is disabled a write changes nothing that can be read.
pub proof fn law_mbc3_ram_read_after_write(memory: MBC3, post: MBC3, address: u16, value: u8, other: u16)
    requires
        memory.maps(address),
        0xA000 <= address <= 0xBFFF,
        memory.written(address, value, post),
        memory.maps(other),
    ensures
        post.maps(other),
        memory.ram_enabled && memory.ram_bank_address <= 7 && 0 <= mbc3_ram_index(memory.ram_bank_address, address)
            < memory.ram@.len() ==> post.peek(address) == value,
        memory.ram_enabled && memory.ram_bank_address >= 8 ==> post.peek(address) == value,
        !memory.ram_enabled ==> post.peek(other) == memory.peek(other),
{
}

/// RAM bank `bank` (0 to 7) occupies bytes 0x2000 * `bank` onward, and the address within
/// the 0xA000 to 0xBFFF window picks the byte within it.
proof fn lemma_ram_bank_offset(bank: usize, address: u16)
    by (bit_vector)
    requires
        bank <= 7,
        0xA000 <= address <= 0xBFFF,
    ensures
        (bank << 13usize) | ((address as usize) & 0x1FFF) == bank * 0x2000usize + ((address - 0xA000u16) as usize),
{
}

/// Cartridge RAM is banked: while RAM bank `b` (0 to 7) is selected, an address `a` of the
/// 0xA000 to 0xBFFF window reads RAM byte 0x2000 * `b` + (`a` - 0xA000), or 0xFF beyond the
/// RAM, and a write there with RAM enabled changes that byte alone. So distinct banks hold
/// distinct bytes: what is written in one bank does not show in another.
pub proof fn law_mbc3_ram_banks(memory: MBC3, post: MBC3, address: u16, value: u8)
    requires
        memory.maps(address),
        0xA000 <= address <= 0xBFFF,
        memory.ram_bank_address <= 7,
    ensures
        ({
            let index = 0x2000 * memory.ram_bank_address + (address - 0xA000);
            &&& memory.peek(address) == (if index < memory.ram@.len() { memory.ram@[index] } else { 0xFF })
            &&& memory.written(address, value, post) && memory.ram_enabled ==> post.ram@ == (if index
                < memory.ram@.len() {
                memory.ram@.update(index, value)
            } else {
                memory.ram@
            })
            &&& memory.written(address, value, post) && !memory.ram_enabled ==> post.ram@ == memory.ram@
        }),
{
    lemma_ram_bank_offset(memory.ram_bank_address, address);
}

} // verus!
