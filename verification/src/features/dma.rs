use vstd::prelude::*;
use crate::memory::memory::Memory;
use crate::time::time::ClockAware;
use crate::util::bit_util::{BitUtil, bit_of_u8};

verus! {

/// A transfer in progress: the legacy OAM transfer, or a general-purpose or HBlank
/// transfer into VRAM.
#[derive(Copy, Clone, PartialEq, Eq, Structural, Debug)]
pub enum DMATransfer {
    Legacy { source_address: u16, bytes_transferred: u8 },
    GeneralPurpose {
        source_address: u16,
        destination_address: u16,
        bytes_transferred: u8,
        bytes_to_transfer: u8,
        in_progress: bool,
    },
    HBlank {
        source_address: u16,
        destination_address: u16,
        bytes_transferred: u8,
        bytes_to_transfer: u8,
        in_progress: bool,
    },
}

/// The registers and transfer state of the DMA unit. `cpu` is the enable line of the
/// attached processor, which the unit holds low while a VRAM transfer copies; `None` while
/// no processor is attached.
#[derive(Copy, Clone, PartialEq, Eq, Structural, Debug)]
pub struct DMAState {
    pub cpu: Option<bool>,
    pub dma: u8,
    pub high_source_address: u8,
    pub low_source_address: u8,
    pub high_destination_address: u8,
    pub low_destination_address: u8,
    pub hdma5: u8,
    pub active_transfer: Option<DMATransfer>,
    pub double_speed_toggle: bool,
}

/// One byte copied: from the first address to the second.
pub type ByteCopy = Option<(u16, u16)>;

/// `cpu` with the processor enabled (`true`) or held (`false`), when one is attached.
pub open spec fn set_cpu_line(cpu: Option<bool>, enabled: bool) -> Option<bool> {
    match cpu {
        Some(_) => Some(enabled),
        None => None,
    }
}

/// One copy step of a VRAM transfer (general-purpose when `hblank` is false): the byte is
/// copied, the processor held, and the transfer finished when all bytes are copied. An
/// HBlank transfer that goes on reports the lines that remain, less one, in HDMA5.
pub open spec fn vram_copy_step(
    s: DMAState,
    source: u16,
    destination: u16,
    transferred: u8,
    to_transfer: u8,
    hblank: bool,
) -> (DMAState, ByteCopy) {
    let copy = Some((source.wrapping_add(transferred as u16), destination.wrapping_add(transferred as u16)));
    let next = transferred.wrapping_add(1);
    if next == to_transfer {
        (DMAState { cpu: set_cpu_line(s.cpu, true), active_transfer: None, hdma5: 0xFF, ..s }, copy)
    } else {
        let transfer = if hblank {
            DMATransfer::HBlank {
                source_address: source,
                destination_address: destination,
                bytes_transferred: next,
                bytes_to_transfer: to_transfer,
                in_progress: true,
            }
        } else {
            DMATransfer::GeneralPurpose {
                source_address: source,
                destination_address: destination,
                bytes_transferred: next,
                bytes_to_transfer: to_transfer,
                in_progress: true,
            }
        };
        let hdma5 = if hblank {
            ((to_transfer / 16) as u8).wrapping_sub((next / 16) as u8).wrapping_sub(1)
        } else {
            s.hdma5
        };
        (DMAState { cpu: set_cpu_line(s.cpu, false), active_transfer: Some(transfer), hdma5, ..s }, copy)
    }
}

/// One tick of the DMA unit, given whether the display is in HBlank and the speed mode:
/// the new state and the byte copied, if any. At double speed a VRAM transfer copies on
/// every other tick only.
pub open spec fn dma_tick_spec(s: DMAState, in_hblank: bool, double_speed: bool) -> (DMAState, ByteCopy) {
    match s.active_transfer {
        None => (s, None),
        Some(DMATransfer::Legacy { source_address, bytes_transferred }) => {
            let next = bytes_transferred.wrapping_add(1);
            let copy = Some((source_address.wrapping_add(bytes_transferred as u16), (0xFE00 + bytes_transferred) as u16));
            let transfer = if next == 160 {
                None
            } else {
                Some(DMATransfer::Legacy { source_address, bytes_transferred: next })
            };
            (DMAState { active_transfer: transfer, ..s }, copy)
        },
        Some(DMATransfer::GeneralPurpose {
            source_address,
            destination_address,
            bytes_transferred,
            bytes_to_transfer,
            in_progress,
        }) => {
            if double_speed && !s.double_speed_toggle {
                (DMAState { double_speed_toggle: true, ..s }, None)
            } else {
                let s1 = DMAState { double_speed_toggle: if double_speed { false } else { s.double_speed_toggle }, ..s };
                vram_copy_step(s1, source_address, destination_address, bytes_transferred, bytes_to_transfer, false)
            }
        },
        Some(DMATransfer::HBlank {
            source_address,
            destination_address,
            bytes_transferred,
            bytes_to_transfer,
            in_progress,
        }) => {
            if in_hblank {
                if double_speed && !s.double_speed_toggle {
                    (DMAState { double_speed_toggle: true, ..s }, None)
                } else {
                    let s1 = DMAState {
                        double_speed_toggle: if double_speed { false } else { s.double_speed_toggle },
                        ..s
                    };
                    vram_copy_step(s1, source_address, destination_address, bytes_transferred, bytes_to_transfer, true)
                }
            } else if in_progress {
                (
                    DMAState {
                        cpu: set_cpu_line(s.cpu, true),
                        active_transfer: Some(
                            DMATransfer::HBlank {
                                source_address,
                                destination_address,
                                bytes_transferred,
                                bytes_to_transfer,
                                in_progress: false,
                            },
                        ),
                        ..s
                    },
                    None,
                )
            } else {
                (s, None)
            }
        },
    }
}

/// The number of bytes a VRAM transfer started by writing `value` to HDMA5 copies: its low
/// seven bits plus one, in lines of 16 bytes, counted in eight bits.
pub open spec fn transfer_length(value: u8) -> u8 {
    (((value & 0x7F) + 1) as u8).wrapping_mul(16)
}

/// The DMA registers after writing `value` at `address` (0xFF46 or 0xFF51 to 0xFF55).
pub open spec fn dma_write_spec(s: DMAState, address: u16, value: u8) -> DMAState {
    if address == 0xFF46 {
        DMAState {
            dma: value,
            active_transfer: Some(
                DMATransfer::Legacy { source_address: (value as u16 * 0x100) as u16, bytes_transferred: 0 },
            ),
            ..s
        }
    } else if address == 0xFF51 {
        DMAState { high_source_address: value, ..s }
    } else if address == 0xFF52 {
        DMAState { low_source_address: value & 0xF0, ..s }
    } else if address == 0xFF53 {
        DMAState { high_destination_address: (value & 0x1F) | 0x80, ..s }
    } else if address == 0xFF54 {
        DMAState { low_destination_address: value & 0xF0, ..s }
    } else {
        let source = ((s.high_source_address as u16) << 8u16) | (s.low_source_address as u16);
        let destination = ((s.high_destination_address as u16) << 8u16) | (s.low_destination_address as u16);
        match s.active_transfer {
            None => {
                let transfer = if bit_of_u8(value, 7) {
                    DMATransfer::HBlank {
                        source_address: source,
                        destination_address: destination,
                        bytes_transferred: 0,
                        bytes_to_transfer: transfer_length(value),
                        in_progress: false,
                    }
                } else {
                    DMATransfer::GeneralPurpose {
                        source_address: source,
                        destination_address: destination,
                        bytes_transferred: 0,
                        bytes_to_transfer: transfer_length(value),
                        in_progress: false,
                    }
                };
                DMAState { active_transfer: Some(transfer), hdma5: 0x00, ..s }
            },
            Some(DMATransfer::HBlank { .. }) => {
                if !bit_of_u8(value, 7) {
                    DMAState {
                        cpu: set_cpu_line(s.cpu, true),
                        active_transfer: None,
                        hdma5: s.hdma5 | (1u8 << 7u8),
                        ..s
                    }
                } else {
                    s
                }
            },
            Some(_) => s,
        }
    }
}

/// The DMA unit: the legacy OAM transfer (DMA, 0xFF46) and the VRAM transfers (HDMA1 to
/// HDMA5, 0xFF51 to 0xFF55), copying over the attached memory.
pub struct DMA<M: Memory> {
    pub memory: Option<M>,
    pub state: DMAState,
}

impl<M: Memory> DMA<M> {
    /// A unit with no transfer, nothing attached, and HDMA5 reading 0xFF.
    pub fn new() -> (r: DMA<M>)
        ensures
            r.memory is None,
            r.state == (DMAState {
                cpu: None,
                dma: 0,
                high_source_address: 0,
                low_source_address: 0,
                high_destination_address: 0,
                low_destination_address: 0,
                hdma5: 0xFF,
                active_transfer: None,
                double_speed_toggle: true,
            }),
    {
        DMA {
            memory: None,
            state: DMAState {
                cpu: None,
                dma: 0,
                high_source_address: 0,
                low_source_address: 0,
                high_destination_address: 0,
                low_destination_address: 0,
                hdma5: 0xFF,
                active_transfer: None,
                double_speed_toggle: true,
            },
        }
    }

    pub fn set_memory(&mut self, memory: M)
        ensures
            final(self).memory == Some(memory),
            final(self).state == old(self).state,
    {
        self.memory = Some(memory);
    }

    /// Attaches a processor whose enable line is `cpu_enabled`.
    pub fn set_cpu(&mut self, cpu_enabled: bool)
        ensures
            final(self).state == (DMAState { cpu: Some(cpu_enabled), ..old(self).state }),
            final(self).memory == old(self).memory,
    {
        self.state.cpu = Some(cpu_enabled);
    }

    /// Copies one byte within the attached memory.
    fn copy_byte(&mut self, source: u16, destination: u16)
        requires
            old(self).memory is Some,
            forall|a: u16| #[trigger] old(self).memory->0.maps(a),
        ensures
            final(self).memory is Some,
            forall|a: u16| #[trigger] final(self).memory->0.maps(a),
            old(self).memory->0.written(destination, old(self).memory->0.peek(source), final(self).memory->0),
            final(self).state == old(self).state,
    {
        match &mut self.memory {
            Some(memory) => {
                let current_byte = memory.read(source);
                memory.write(destination, current_byte);
            },
            None => {},
        }
    }

    /// Whether the display is in HBlank, as the STAT mode bits in the attached memory say.
    fn display_in_hblank(&self) -> (r: bool)
        requires
            self.memory is Some,
            forall|a: u16| #[trigger] self.memory->0.maps(a),
        ensures
            r == (self.memory->0.peek(0xFF41) & 0x03 == 0),
    {
        match &self.memory {
            Some(memory) => (memory.read(0xFF41) & 0x03) == 0,
            None => false,
        }
    }

    /// One copy step of a VRAM transfer.
    fn vram_step(&mut self, source: u16, destination: u16, transferred: u8, to_transfer: u8, hblank: bool)
        requires
            old(self).memory is Some,
            forall|a: u16| #[trigger] old(self).memory->0.maps(a),
        ensures
            final(self).memory is Some,
            forall|a: u16| #[trigger] final(self).memory->0.maps(a),
            ({
                let (next, copy) = vram_copy_step(old(self).state, source, destination, transferred, to_transfer, hblank);
                let (from, to) = copy->0;
                &&& final(self).state == next
                &&& old(self).memory->0.written(to, old(self).memory->0.peek(from), final(self).memory->0)
            }),
    {
        self.copy_byte(source.wrapping_add(transferred as u16), destination.wrapping_add(transferred as u16));
        let next = transferred.wrapping_add(1);
        if next == to_transfer {
            if self.state.cpu.is_some() {
                self.state.cpu = Some(true);
            }
            self.state.active_transfer = None;
            self.state.hdma5 = 0xFF;
        } else {
            if self.state.cpu.is_some() {
                self.state.cpu = Some(false);
            }
            if hblank {
                self.state.active_transfer = Some(
                    DMATransfer::HBlank {
                        source_address: source,
                        destination_address: destination,
                        bytes_transferred: next,
                        bytes_to_transfer: to_transfer,
                        in_progress: true,
                    },
                );
                let lines_to_transfer = to_transfer / 16;
                let lines_transferred = next / 16;
                let lines_remaining = lines_to_transfer.wrapping_sub(lines_transferred);
                self.state.hdma5 = lines_remaining.wrapping_sub(1);
            } else {
                self.state.active_transfer = Some(
                    DMATransfer::GeneralPurpose {
                        source_address: source,
                        destination_address: destination,
                        bytes_transferred: next,
                        bytes_to_transfer: to_transfer,
                        in_progress: true,
                    },
                );
            }
        }
    }
}

impl<M: Memory> ClockAware for DMA<M> {
    /// While a transfer is active, a memory that answers everywhere is attached.
    open spec fn ready_to_tick(&self) -> bool {
        self.state.active_transfer is Some ==> {
            &&& self.memory is Some
            &&& forall|a: u16| #[trigger] self.memory->0.maps(a)
        }
    }

    fn handle_tick(&mut self, double_speed: bool)
        ensures
            final(self).ready_to_tick(),
            ({
                let in_hblank = old(self).state.active_transfer is Some && old(self).memory->0.peek(0xFF41) & 0x03
                    == 0;
                let (next, copy) = dma_tick_spec(old(self).state, in_hblank, double_speed);
                &&& final(self).state == next
                &&& match copy {
                    None => final(self).memory == old(self).memory,
                    Some((source, destination)) => {
                        &&& final(self).memory is Some
                        &&& old(self).memory->0.written(
                            destination,
                            old(self).memory->0.peek(source),
                            final(self).memory->0,
                        )
                    },
                }
            }),
    {
        match self.state.active_transfer {
            None => {},
            Some(DMATransfer::Legacy { source_address, bytes_transferred }) => {
                assert((0xFE00 + bytes_transferred) as u16 == 0xFE00u16 + bytes_transferred as u16);
                self.copy_byte(source_address.wrapping_add(bytes_transferred as u16), 0xFE00 + (bytes_transferred as u16));
                let next = bytes_transferred.wrapping_add(1);
                if next == 160 {
                    self.state.active_transfer = None;
                } else {
                    self.state.active_transfer = Some(DMATransfer::Legacy { source_address, bytes_transferred: next });
                }
            },
            Some(DMATransfer::GeneralPurpose {
                source_address,
                destination_address,
                bytes_transferred,
                bytes_to_transfer,
                in_progress,
            }) => {
                if double_speed {
                    self.state.double_speed_toggle = !self.state.double_speed_toggle;
                    if self.state.double_speed_toggle {
                        return;
                    }
                }
                self.vram_step(source_address, destination_address, bytes_transferred, bytes_to_transfer, false);
            },
            Some(DMATransfer::HBlank {
                source_address,
                destination_address,
                bytes_transferred,
                bytes_to_transfer,
                in_progress,
            }) => {
                let in_hblank = self.display_in_hblank();
                if in_hblank {
                    if double_speed {
                        self.state.double_speed_toggle = !self.state.double_speed_toggle;
                        if self.state.double_speed_toggle {
                            return;
                        }
                    }
                    self.vram_step(source_address, destination_address, bytes_transferred, bytes_to_transfer, true);
                } else if in_progress {
                    self.state.active_transfer = Some(
                        DMATransfer::HBlank {
                            source_address,
                            destination_address,
                            bytes_transferred,
                            bytes_to_transfer,
                            in_progress: false,
                        },
                    );
                    if self.state.cpu.is_some() {
                        self.state.cpu = Some(true);
                    }
                }
            },
        }
    }

    /// A tick at normal speed.
    fn tick(&mut self)
        ensures
            final(self).ready_to_tick(),
            ({
                let in_hblank = old(self).state.active_transfer is Some && old(self).memory->0.peek(0xFF41) & 0x03
                    == 0;
                let (next, copy) = dma_tick_spec(old(self).state, in_hblank, false);
                &&& final(self).state == next
                &&& match copy {
                    None => final(self).memory == old(self).memory,
                    Some((source, destination)) => {
                        &&& final(self).memory is Some
                        &&& old(self).memory->0.written(
                            destination,
                            old(self).memory->0.peek(source),
                            final(self).memory->0,
                        )
                    },
                }
            }),
    {
        self.handle_tick(false);
    }
}

impl<M: Memory> Memory for DMA<M> {
    open spec fn maps(&self, address: u16) -> bool {
        address == 0xFF46 || (0xFF51 <= address <= 0xFF55)
    }

    /// HDMA1 to HDMA4 cannot be read back and read as 0xFF.
    open spec fn peek(&self, address: u16) -> u8 {
        if address == 0xFF46 {
            self.state.dma
        } else if address == 0xFF55 {
            self.state.hdma5
        } else {
            0xFF
        }
    }

    open spec fn written(&self, address: u16, value: u8, post: Self) -> bool {
        &&& post.memory == self.memory
        &&& post.state == dma_write_spec(self.state, address, value)
    }

    fn read(&self, address: u16) -> (r: u8) {
        if address == 0xFF46 {
            self.state.dma
        } else if address == 0xFF55 {
            self.state.hdma5
        } else {
            0xFF
        }
    }

    fn write(&mut self, address: u16, value: u8) {
        if address == 0xFF46 {
            self.state.dma = value;
            self.state.active_transfer = Some(
                DMATransfer::Legacy { source_address: (value as u16) * 0x100, bytes_transferred: 0 },
            );
        } else if address == 0xFF51 {
            self.state.high_source_address = value;
        } else if address == 0xFF52 {
            self.state.low_source_address = value & 0xF0;
        } else if address == 0xFF53 {
            self.state.high_destination_address = (value & 0x1F) | (0x80);
        } else if address == 0xFF54 {
            self.state.low_destination_address = value & 0xF0;
        } else {
            match self.state.active_transfer {
                None => {
                    let source_address = ((self.state.high_source_address as u16) << 8u16)
                        | (self.state.low_source_address as u16);
                    let destination_address = ((self.state.high_destination_address as u16) << 8u16)
                        | (self.state.low_destination_address as u16);
                    assert((value & 0x7F) + 1 <= 128) by (bit_vector);
                    let bytes_to_transfer = ((value & 0x7F) + 1).wrapping_mul(16);
                    if value.get_bit(7) {
                        self.state.active_transfer = Some(
                            DMATransfer::HBlank {
                                source_address,
                                destination_address,
                                bytes_transferred: 0,
                                bytes_to_transfer,
                                in_progress: false,
                            },
                        );
                    } else {
                        self.state.active_transfer = Some(
                            DMATransfer::GeneralPurpose {
                                source_address,
                                destination_address,
                                bytes_transferred: 0,
                                bytes_to_transfer,
                                in_progress: false,
                            },
                        );
                    }
                    self.state.hdma5 = 0x00;
                },
                Some(DMATransfer::HBlank { .. }) => {
                    if !value.get_bit(7) {
                        if self.state.cpu.is_some() {
                            self.state.cpu = Some(true);
                        }
                        self.state.active_transfer = None;
                        self.state.hdma5 = self.state.hdma5.set_bit(7);
                    }
                },
                Some(_) => {},
            }
        }
    }
}

/// The DMA registers after `ticks` ticks, the display's HBlank state and the speed mode held fixed.
pub open spec fn dma_ticks(s: DMAState, in_hblank: bool, double_speed: bool, ticks: nat) -> DMAState
    decreases ticks,
{
    if ticks == 0 {
        s
    } else {
        dma_tick_spec(dma_ticks(s, in_hblank, double_speed, (ticks - 1) as nat), in_hblank, double_speed).0
    }
}

/// After `ticks` ticks of a legacy transfer from `source` that has not yet ended, it stands at
/// byte `ticks`.
proof fn lemma_legacy_progress(s: DMAState, in_hblank: bool, double_speed: bool, source: u16, ticks: nat)
    requires
        s.active_transfer == Some(DMATransfer::Legacy { source_address: source, bytes_transferred: 0 }),
        ticks < 160,
    ensures
        dma_ticks(s, in_hblank, double_speed, ticks) == (DMAState {
            active_transfer: Some(DMATransfer::Legacy { source_address: source, bytes_transferred: ticks as u8 }),
            ..s
        }),
    decreases ticks,
{
    if ticks > 0 {
        lemma_legacy_progress(s, in_hblank, double_speed, source, (ticks - 1) as nat);
    }
}

/// Writing the DMA register starts a legacy transfer that copies the 160 bytes from the page
/// it names to object attribute memory, byte `i` on tick `i`, whatever the display and speed
/// mode, and ends on the 160th tick.
pub proof fn law_legacy_transfer(s: DMAState, value: u8, in_hblank: bool, double_speed: bool, i: nat)
    requires
        i < 160,
    ensures
        dma_tick_spec(dma_ticks(dma_write_spec(s, 0xFF46, value), in_hblank, double_speed, i), in_hblank, double_speed).1
            == Some((((value as u16 * 0x100) + i) as u16, (0xFE00 + i) as u16)),
        dma_ticks(dma_write_spec(s, 0xFF46, value), in_hblank, double_speed, 160).active_transfer is None,
{
    let started = dma_write_spec(s, 0xFF46, value);
    let source = (value as u16 * 0x100) as u16;
    lemma_legacy_progress(started, in_hblank, double_speed, source, i);
    lemma_legacy_progress(started, in_hblank, double_speed, source, 159);
    assert(value as u16 * 0x100 + i <= 0xFF9F) by (nonlinear_arith)
        requires
            value <= 0xFF,
            i < 160,
    ;
}

/// The state after `ticks` ticks (0 < `ticks` < `length`) of a general-purpose transfer of
/// `length` bytes at normal speed: the processor held and the transfer at byte `ticks`.
proof fn lemma_general_purpose_progress(
    s: DMAState,
    in_hblank: bool,
    source: u16,
    destination: u16,
    length: u8,
    ticks: nat,
)
    requires
        s.active_transfer == Some(
            DMATransfer::GeneralPurpose {
                source_address: source,
                destination_address: destination,
                bytes_transferred: 0,
                bytes_to_transfer: length,
                in_progress: false,
            },
        ),
        0 < ticks < length,
    ensures
        dma_ticks(s, in_hblank, false, ticks) == (DMAState {
            cpu: set_cpu_line(s.cpu, false),
            active_transfer: Some(
                DMATransfer::GeneralPurpose {
                    source_address: source,
                    destination_address: destination,
                    bytes_transferred: ticks as u8,
                    bytes_to_transfer: length,
                    in_progress: true,
                },
            ),
            ..s
        }),
    decreases ticks,
{
    if ticks > 1 {
        lemma_general_purpose_progress(s, in_hblank, source, destination, length, (ticks - 1) as nat);
        let prior = dma_ticks(s, in_hblank, false, (ticks - 1) as nat);
        assert(set_cpu_line(prior.cpu, false) == set_cpu_line(s.cpu, false));
        assert(((ticks - 1) as u8).wrapping_add(1) == ticks as u8);
    } else {
        assert(0u8.wrapping_add(1) == 1u8);
    }
}

/// Writing HDMA5 with bit 7 clear while no VRAM transfer runs starts a general-purpose transfer
/// that, at normal speed and whatever the display, copies the bytes from the source that
/// HDMA1 and HDMA2 name to the destination that HDMA3 and HDMA4 name, byte `i` on tick `i`,
/// holds the processor while it copies, and ends, releasing it, on the tick that copies the
/// last byte. Stated for the lengths (up to 15 lines) whose byte count fits in eight bits.
pub proof fn law_general_purpose_transfer(s: DMAState, value: u8, in_hblank: bool, i: nat)
    requires
        s.active_transfer is None,
        !bit_of_u8(value, 7),
        value & 0x7F < 15,
        i < transfer_length(value),
    ensures
        ({
            let source = ((s.high_source_address as u16) << 8u16) | (s.low_source_address as u16);
            let destination = ((s.high_destination_address as u16) << 8u16) | (s.low_destination_address as u16);
            let started = dma_write_spec(s, 0xFF55, value);
            &&& dma_tick_spec(dma_ticks(started, in_hblank, false, i), in_hblank, false).1
                == Some((source.wrapping_add(i as u16), destination.wrapping_add(i as u16)))
            &&& i + 1 < transfer_length(value) ==> dma_ticks(started, in_hblank, false, i + 1).cpu == set_cpu_line(s.cpu, false)
            &&& dma_ticks(started, in_hblank, false, transfer_length(value) as nat).active_transfer is None
            &&& dma_ticks(started, in_hblank, false, transfer_length(value) as nat).cpu == set_cpu_line(s.cpu, true)
        }),
{
    let source = ((s.high_source_address as u16) << 8u16) | (s.low_source_address as u16);
    let destination = ((s.high_destination_address as u16) << 8u16) | (s.low_destination_address as u16);
    let length = transfer_length(value);
    let lines = value & 0x7F;
    assert(lines <= 14);
    assert(length == (lines + 1) * 16) by {
        assert(((lines + 1) as u8) as int == lines + 1);
        assert((lines + 1) * 16 < 256) by (nonlinear_arith)
            requires lines <= 14;
    }
    let started = dma_write_spec(s, 0xFF55, value);
    assert(started.active_transfer == Some(
        DMATransfer::GeneralPurpose {
            source_address: source,
            destination_address: destination,
            bytes_transferred: 0,
            bytes_to_transfer: length,
            in_progress: false,
        },
    ));
    if i > 0 {
        lemma_general_purpose_progress(started, in_hblank, source, destination, length, i);
    }
    if i + 1 < length {
        lemma_general_purpose_progress(started, in_hblank, source, destination, length, i + 1);
    }
    lemma_general_purpose_progress(started, in_hblank, source, destination, length, (length - 1) as nat);
}

/// The state after `ticks` ticks (0 < `ticks` < `length`) of an HBlank transfer of `length`
/// bytes, all in HBlank at normal speed: the processor held, the transfer at byte `ticks`,
/// and HDMA5 reporting the lines that remain, less one.
proof fn lemma_hblank_progress(s: DMAState, source: u16, destination: u16, length: u8, ticks: nat)
    requires
        s.active_transfer == Some(
            DMATransfer::HBlank {
                source_address: source,
                destination_address: destination,
                bytes_transferred: 0,
                bytes_to_transfer: length,
                in_progress: false,
            },
        ),
        0 < ticks < length,
    ensures
        dma_ticks(s, true, false, ticks) == (DMAState {
            cpu: set_cpu_line(s.cpu, false),
            active_transfer: Some(
                DMATransfer::HBlank {
                    source_address: source,
                    destination_address: destination,
                    bytes_transferred: ticks as u8,
                    bytes_to_transfer: length,
                    in_progress: true,
                },
            ),
            hdma5: ((length / 16) as u8).wrapping_sub(((ticks as u8) / 16) as u8).wrapping_sub(1),
            ..s
        }),
    decreases ticks,
{
    if ticks > 1 {
        lemma_hblank_progress(s, source, destination, length, (ticks - 1) as nat);
        let prior = dma_ticks(s, true, false, (ticks - 1) as nat);
        assert(set_cpu_line(prior.cpu, false) == set_cpu_line(s.cpu, false));
        assert(((ticks - 1) as u8).wrapping_add(1) == ticks as u8);
    } else {
        assert(0u8.wrapping_add(1) == 1u8);
    }
}

/// Writing HDMA5 with bit 7 set while no VRAM transfer runs starts an HBlank transfer. It
/// copies nothing on a tick outside HBlank; on ticks in HBlank at normal speed it copies the
/// bytes from the source that HDMA1 and HDMA2 name to the destination that HDMA3 and HDMA4
/// name, byte `i` on the `i`-th such tick, holding the processor while it copies, and on the
/// tick that copies the last byte it ends, releases the processor and sets HDMA5 to 0xFF.
/// Stated for the lengths (up to 15 lines) whose byte count fits in eight bits.
pub proof fn law_hblank_transfer(s: DMAState, value: u8, i: nat, double_speed: bool)
    requires
        s.active_transfer is None,
        bit_of_u8(value, 7),
        value & 0x7F < 15,
        i < transfer_length(value),
    ensures
        ({
            let source = ((s.high_source_address as u16) << 8u16) | (s.low_source_address as u16);
            let destination = ((s.high_destination_address as u16) << 8u16) | (s.low_destination_address as u16);
            let started = dma_write_spec(s, 0xFF55, value);
            &&& dma_tick_spec(started, false, double_speed).1 is None
            &&& dma_tick_spec(dma_ticks(started, true, false, i), true, false).1
                == Some((source.wrapping_add(i as u16), destination.wrapping_add(i as u16)))
            &&& i + 1 < transfer_length(value) ==> dma_ticks(started, true, false, i + 1).cpu == set_cpu_line(s.cpu, false)
            &&& dma_ticks(started, true, false, transfer_length(value) as nat).active_transfer is None
            &&& dma_ticks(started, true, false, transfer_length(value) as nat).cpu == set_cpu_line(s.cpu, true)
            &&& dma_ticks(started, true, false, transfer_length(value) as nat).hdma5 == 0xFF
        }),
{
    let source = ((s.high_source_address as u16) << 8u16) | (s.low_source_address as u16);
    let destination = ((s.high_destination_address as u16) << 8u16) | (s.low_destination_address as u16);
    let length = transfer_length(value);
    let lines = value & 0x7F;
    assert(lines <= 14);
    assert(length == (lines + 1) * 16) by {
        assert(((lines + 1) as u8) as int == lines + 1);
        assert((lines + 1) * 16 < 256) by (nonlinear_arith)
            requires lines <= 14;
    }
    let started = dma_write_spec(s, 0xFF55, value);
    assert(started.active_transfer == Some(
        DMATransfer::HBlank {
            source_address: source,
            destination_address: destination,
            bytes_transferred: 0,
            bytes_to_transfer: length,
            in_progress: false,
        },
    ));
    if i > 0 {
        lemma_hblank_progress(started, source, destination, length, i);
    }
    if i + 1 < length {
        lemma_hblank_progress(started, source, destination, length, i + 1);
    }
    lemma_hblank_progress(started, source, destination, length, (length - 1) as nat);
}

/// Writing HDMA5 with bit 7 clear while an HBlank transfer runs cancels it: no transfer is
/// active, the processor is released, and HDMA5 keeps its count with bit 7 set.
pub proof fn law_hblank_transfer_cancel(s: DMAState, value: u8)
    requires
        s.active_transfer matches Some(DMATransfer::HBlank { .. }),
        !bit_of_u8(value, 7),
    ensures
        dma_write_spec(s, 0xFF55, value).active_transfer is None,
        dma_write_spec(s, 0xFF55, value).cpu == set_cpu_line(s.cpu, true),
        dma_write_spec(s, 0xFF55, value).hdma5 == s.hdma5 | (1u8 << 7u8),
        dma_write_spec(s, 0xFF55, value) == (DMAState {
            cpu: set_cpu_line(s.cpu, true),
            active_transfer: None,
            hdma5: s.hdma5 | (1u8 << 7u8),
            ..s
        }),
{
}

} // verus!
