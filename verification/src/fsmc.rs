//! The flexible static memory controller of the STM32F4, used as a parallel
//! bus to a display: register values for switching bank 1 on, and the
//! packing of a byte buffer into the 16-bit words that go out on the bus.

use vstd::prelude::*;
use crate::bits::word;
use crate::errorcode::ReturnCode;
use crate::registers::modify;

verus! {

/// Width of the items that travel on a bus, with their byte order.
#[derive(Clone, Copy, Debug, PartialEq, Eq, Structural)]
pub enum BusWidth {
    Bits8,
    Bits16BE,
    Bits16LE,
    Bits32BE,
    Bits32LE,
    Bits64BE,
    Bits64LE,
}

/// Bits of the chip-select control register that `enable` writes.
pub const BCR_CONFIGURED: u32 = 0x003F_FB3F;

/// What `enable` writes into them: bank enabled, SRAM, 16 data bits, writes
/// enabled, extended mode, write FIFO disabled; everything else off.
pub const BCR_ENABLED: u32 = 0x0020_5011;

/// Bits of the chip-select timing register that `enable` writes.
pub const BTR_CONFIGURED: u32 = 0x3FFF_FFFF;

/// What `enable` writes into them: address setup 9, address hold 1, data
/// phase 36, bus turnaround 1, clock divider 2, data latency 2, access mode A.
pub const BTR_ENABLED: u32 = 0x0221_2419;

/// Bits of the write timing register that `enable` writes.
pub const BWTR_CONFIGURED: u32 = 0x300F_FFFF;

/// What `enable` writes into them: address setup 1, address hold 1, data
/// phase 7, bus turnaround 0, access mode A.
pub const BWTR_ENABLED: u32 = 0x0000_0711;

/// Number of bytes that the controller takes from the buffer per item.
///
/// One for 8 bits and two for 16 bits. The wider items, which the controller
/// does not transfer, count three and four.
pub fn bus_width_in_bytes(bus_width: &BusWidth) -> (bytes: usize)
    ensures
        bytes == match bus_width {
            BusWidth::Bits8 => 1usize,
            BusWidth::Bits16BE | BusWidth::Bits16LE => 2usize,
            BusWidth::Bits32BE | BusWidth::Bits32LE => 3usize,
            BusWidth::Bits64BE | BusWidth::Bits64LE => 4usize,
        },
{
    match bus_width {
        BusWidth::Bits8 => 1,
        BusWidth::Bits16BE | BusWidth::Bits16LE => 2,
        BusWidth::Bits32BE | BusWidth::Bits32LE => 3,
        BusWidth::Bits64BE | BusWidth::Bits64LE => 4,
    }
}

/// Whether the controller can transfer items of this width: 8 and 16 bits.
pub open spec fn supported(width: BusWidth) -> bool {
    width == BusWidth::Bits8 || width == BusWidth::Bits16BE || width == BusWidth::Bits16LE
}

/// The word that goes out for item `pos` of a buffer.
///
/// An 8-bit item is its byte. A 16-bit item is two bytes, low byte first in
/// little-endian order and high byte first in big-endian order.
pub open spec fn word_at(buffer: Seq<u8>, width: BusWidth, pos: int) -> u16 {
    match width {
        BusWidth::Bits8 => buffer[pos] as u16,
        BusWidth::Bits16LE => (buffer[2 * pos + 1] * 256 + buffer[2 * pos]) as u16,
        _ => (buffer[2 * pos] * 256 + buffer[2 * pos + 1]) as u16,
    }
}

/// The words that go out for the first `len` items of a buffer.
pub open spec fn packed_words(buffer: Seq<u8>, width: BusWidth, len: int) -> Seq<u16> {
    Seq::new(len as nat, |pos: int| word_at(buffer, width, pos))
}

/// The three registers of bank 1.
#[derive(Clone, Copy, Debug, PartialEq, Eq, Structural)]
pub struct FsmcRegisters {
    /// Chip-select control register.
    pub bcr1: u32,
    /// Chip-select timing register.
    pub btr1: u32,
    /// Write timing register.
    pub bwtr1: u32,
}

/// The controller.
#[derive(Debug)]
pub struct Fsmc {
    pub registers: FsmcRegisters,
    /// Token of the client that is told when a write is done.
    pub client: Option<usize>,
    /// Buffer of the write that is under way.
    pub buffer: Option<Vec<u8>>,
    /// Bytes per item of the last write.
    pub bus_width: usize,
    /// Items of the last write.
    pub len: usize,
}

/// Mathematical value of the controller.
pub struct FsmcView {
    pub registers: FsmcRegisters,
    pub client: Option<usize>,
    pub buffer: Option<Seq<u8>>,
    pub bus_width: usize,
    pub len: usize,
}

impl View for Fsmc {
    type V = FsmcView;

    open spec fn view(&self) -> FsmcView {
        FsmcView {
            registers: self.registers,
            client: self.client,
            buffer: match self.buffer {
                Some(b) => Some(b@),
                None => None,
            },
            bus_width: self.bus_width,
            len: self.len,
        }
    }
}

/// What a write with an address phase puts on the bus.
#[derive(Debug, PartialEq, Eq)]
pub struct AddressedWrite {
    /// The word for the address register, which goes out first.
    pub address: Option<u16>,
    /// The words for the data register, or the refusal with the buffer.
    pub data: Result<Vec<u16>, (ReturnCode, Vec<u8>)>,
}

/// Mathematical value of the answer to a write.
pub open spec fn write_view(answer: Result<Vec<u16>, (ReturnCode, Vec<u8>)>) -> Result<
    Seq<u16>,
    (ReturnCode, Seq<u8>),
> {
    match answer {
        Ok(words) => Ok(words@),
        Err((code, buffer)) => Err((code, buffer@)),
    }
}

impl FsmcView {
    /// What a write of `len` items of width `data_width` from `buffer`
    /// answers: the words to put on the bus, or `ENOSUPPORT` for a width
    /// that the controller does not transfer, or `ENOMEM` for a buffer that
    /// does not hold `len` items; a refusal hands the buffer back.
    pub open spec fn write_answer(data_width: BusWidth, buffer: Seq<u8>, len: usize) -> Result<
        Seq<u16>,
        (ReturnCode, Seq<u8>),
    > {
        if !supported(data_width) {
            Err((ReturnCode::ENOSUPPORT, buffer))
        } else if buffer.len() < len * (if data_width == BusWidth::Bits8 {
            1int
        } else {
            2int
        }) {
            Err((ReturnCode::ENOMEM, buffer))
        } else {
            Ok(packed_words(buffer, data_width, len as int))
        }
    }

    /// The controller after that write: an accepted write leaves its buffer,
    /// item size and item count behind; a refused one changes nothing.
    pub open spec fn write(self, data_width: BusWidth, buffer: Seq<u8>, len: usize) -> FsmcView {
        if Self::write_answer(data_width, buffer, len) is Ok {
            FsmcView {
                buffer: Some(buffer),
                bus_width: if data_width == BusWidth::Bits8 {
                    1
                } else {
                    2
                },
                len,
                ..self
            }
        } else {
            self
        }
    }

    /// Whether a write with an address phase is possible with these widths:
    /// addresses of 8 or 16 bits, data of 8 or 16 bits.
    pub open spec fn addressable(addr_width: BusWidth, data_width: BusWidth) -> bool {
        supported(addr_width) && supported(data_width)
    }
}

impl Fsmc {
    /// A controller with the register values `registers`, without client,
    /// with no write under way.
    pub fn new(registers: FsmcRegisters) -> (fsmc: Fsmc)
        ensures
            fsmc@ == (FsmcView { registers, client: None, buffer: None, bus_width: 1, len: 0 }),
    {
        Fsmc { registers, client: None, buffer: None, bus_width: 1, len: 0 }
    }

    /// Configures bank 1 as a 16-bit SRAM with separate read and write
    /// timings. Each register keeps the bits that are not configured.
    ///
    /// The caller writes the registers back and switches on the clock of the
    /// controller.
    pub fn enable(&mut self)
        ensures
            final(self)@ == (FsmcView {
                registers: FsmcRegisters {
                    bcr1: (old(self).registers.bcr1 & !BCR_CONFIGURED) | BCR_ENABLED,
                    btr1: (old(self).registers.btr1 & !BTR_CONFIGURED) | BTR_ENABLED,
                    bwtr1: (old(self).registers.bwtr1 & !BWTR_CONFIGURED) | BWTR_ENABLED,
                },
                ..old(self)@
            }),
    {
        let c0 = self.registers.bcr1;
        // bank enable, no multiplexing, SRAM, 16 data bits
        let c1 = modify(c0, 0b1, 0, 1);
        let c2 = modify(c1, 0b1, 1, 0);
        let c3 = modify(c2, 0b11, 2, 0);
        let c4 = modify(c3, 0b11, 4, 1);
        // no burst, wait signal unused
        let c5 = modify(c4, 0b1, 8, 0);
        let c6 = modify(c5, 0b1, 9, 0);
        let c7 = modify(c6, 0b1, 11, 0);
        // write enable, no wait, extended mode, no asynchronous wait
        let c8 = modify(c7, 0b1, 12, 1);
        let c9 = modify(c8, 0b1, 13, 0);
        let c10 = modify(c9, 0b1, 14, 1);
        let c11 = modify(c10, 0b1, 15, 0);
        // no write burst, write FIFO disabled, no page size, no continuous clock
        let c12 = modify(c11, 0b1, 19, 0);
        let c13 = modify(c12, 0b1, 21, 1);
        let c14 = modify(c13, 0b111, 16, 0);
        let c15 = modify(c14, 0b1, 20, 0);
        assert(c15 == (c0 & !0x003F_FB3Fu32) | 0x0020_5011u32) by (bit_vector)
            requires
                c1 == (c0 & !(0b1u32 << 0u32)) | ((1u32 & 0b1u32) << 0u32),
                c2 == (c1 & !(0b1u32 << 1u32)) | ((0u32 & 0b1u32) << 1u32),
                c3 == (c2 & !(0b11u32 << 2u32)) | ((0u32 & 0b11u32) << 2u32),
                c4 == (c3 & !(0b11u32 << 4u32)) | ((1u32 & 0b11u32) << 4u32),
                c5 == (c4 & !(0b1u32 << 8u32)) | ((0u32 & 0b1u32) << 8u32),
                c6 == (c5 & !(0b1u32 << 9u32)) | ((0u32 & 0b1u32) << 9u32),
                c7 == (c6 & !(0b1u32 << 11u32)) | ((0u32 & 0b1u32) << 11u32),
                c8 == (c7 & !(0b1u32 << 12u32)) | ((1u32 & 0b1u32) << 12u32),
                c9 == (c8 & !(0b1u32 << 13u32)) | ((0u32 & 0b1u32) << 13u32),
                c10 == (c9 & !(0b1u32 << 14u32)) | ((1u32 & 0b1u32) << 14u32),
                c11 == (c10 & !(0b1u32 << 15u32)) | ((0u32 & 0b1u32) << 15u32),
                c12 == (c11 & !(0b1u32 << 19u32)) | ((0u32 & 0b1u32) << 19u32),
                c13 == (c12 & !(0b1u32 << 21u32)) | ((1u32 & 0b1u32) << 21u32),
                c14 == (c13 & !(0b111u32 << 16u32)) | ((0u32 & 0b111u32) << 16u32),
                c15 == (c14 & !(0b1u32 << 20u32)) | ((0u32 & 0b1u32) << 20u32),
        ;
        self.registers.bcr1 = c15;

        let t0 = self.registers.btr1;
        // address setup, address hold, data phase
        let t1 = modify(t0, 0xF, 0, 9);
        let t2 = modify(t1, 0xF, 4, 1);
        let t3 = modify(t2, 0xFF, 8, 36);
        // bus turnaround, clock divider, data latency, access mode A
        let t4 = modify(t3, 0xF, 16, 1);
        let t5 = modify(t4, 0xF, 20, 2);
        let t6 = modify(t5, 0xF, 24, 2);
        let t7 = modify(t6, 0b11, 28, 0);
        assert(t7 == (t0 & !0x3FFF_FFFFu32) | 0x0221_2419u32) by (bit_vector)
            requires
                t1 == (t0 & !(0xFu32 << 0u32)) | ((9u32 & 0xFu32) << 0u32),
                t2 == (t1 & !(0xFu32 << 4u32)) | ((1u32 & 0xFu32) << 4u32),
                t3 == (t2 & !(0xFFu32 << 8u32)) | ((36u32 & 0xFFu32) << 8u32),
                t4 == (t3 & !(0xFu32 << 16u32)) | ((1u32 & 0xFu32) << 16u32),
                t5 == (t4 & !(0xFu32 << 20u32)) | ((2u32 & 0xFu32) << 20u32),
                t6 == (t5 & !(0xFu32 << 24u32)) | ((2u32 & 0xFu32) << 24u32),
                t7 == (t6 & !(0b11u32 << 28u32)) | ((0u32 & 0b11u32) << 28u32),
        ;
        self.registers.btr1 = t7;

        let w0 = self.registers.bwtr1;
        // address setup, address hold, data phase, bus turnaround, access mode A
        let w1 = modify(w0, 0xF, 0, 1);
        let w2 = modify(w1, 0xF, 4, 1);
        let w3 = modify(w2, 0xFF, 8, 7);
        let w4 = modify(w3, 0xF, 16, 0);
        let w5 = modify(w4, 0b11, 28, 0);
        assert(w5 == (w0 & !0x300F_FFFFu32) | 0x0000_0711u32) by (bit_vector)
            requires
                w1 == (w0 & !(0xFu32 << 0u32)) | ((1u32 & 0xFu32) << 0u32),
                w2 == (w1 & !(0xFu32 << 4u32)) | ((1u32 & 0xFu32) << 4u32),
                w3 == (w2 & !(0xFFu32 << 8u32)) | ((7u32 & 0xFFu32) << 8u32),
                w4 == (w3 & !(0xFu32 << 16u32)) | ((0u32 & 0xFu32) << 16u32),
                w5 == (w4 & !(0b11u32 << 28u32)) | ((0u32 & 0b11u32) << 28u32),
        ;
        self.registers.bwtr1 = w5;
    }

    /// Registers `client` in place of any earlier one.
    pub fn set_client(&mut self, client: usize)
        ensures
            final(self)@ == (FsmcView { client: Some(client), ..old(self)@ }),
    {
        self.client = Some(client);
    }

    /// The deferred call after a write: gives the buffer up and names the
    /// client to tell, with the buffer and the number of items written.
    ///
    /// Without a write under way nothing happens. Without a client the
    /// buffer is given up all the same, and dropped.
    pub fn handle_interrupt(&mut self) -> (done: Option<(usize, Vec<u8>, usize)>)
        ensures
            final(self)@ == (FsmcView { buffer: None, ..old(self)@ }),
            match (old(self)@.buffer, old(self).client) {
                (Some(b), Some(c)) => done matches Some((client, buffer, len)) && client == c
                    && buffer@ == b && len == old(self).len,
                _ => done is None,
            },
    {
        match self.buffer.take() {
            Some(buffer) => match self.client {
                Some(client) => Some((client, buffer, self.len)),
                None => None,
            },
            None => None,
        }
    }

    /// Packs the first `len` items of `buffer` into the words to put on the
    /// data register, one after the other, and keeps the buffer until the
    /// deferred call; the caller schedules that call after the last word.
    ///
    /// See [`FsmcView::write_answer`] for the refusals.
    pub fn write(&mut self, data_width: BusWidth, buffer: Vec<u8>, len: usize) -> (answer: Result<
        Vec<u16>,
        (ReturnCode, Vec<u8>),
    >)
        ensures
            write_view(answer) == FsmcView::write_answer(data_width, buffer@, len),
            final(self)@ == old(self)@.write(data_width, buffer@, len),
    {
        match data_width {
            BusWidth::Bits8 | BusWidth::Bits16BE | BusWidth::Bits16LE => {
                let bytes = bus_width_in_bytes(&data_width);
                if buffer.len() / bytes >= len {
                    assert(len * bytes <= buffer.len()) by (nonlinear_arith)
                        requires
                            buffer.len() / bytes >= len,
                            bytes == 1 || bytes == 2,
                    ;
                    let mut words: Vec<u16> = Vec::new();
                    let mut pos: usize = 0;
                    while pos < len
                        invariant
                            0 <= pos <= len,
                            len * bytes <= buffer.len(),
                            supported(data_width),
                            bytes == if data_width == BusWidth::Bits8 {
                                1usize
                            } else {
                                2usize
                            },
                            words@ == packed_words(buffer@, data_width, pos as int),
                        decreases len - pos,
                    {
                        let data = match data_width {
                            BusWidth::Bits8 => buffer[pos] as u16,
                            BusWidth::Bits16LE => word(buffer[2 * pos], buffer[2 * pos + 1]),
                            _ => word(buffer[2 * pos + 1], buffer[2 * pos]),
                        };
                        words.push(data);
                        pos += 1;
                        assert(words@ =~= packed_words(buffer@, data_width, pos as int));
                    }
                    self.buffer = Some(buffer);
                    self.bus_width = bytes;
                    self.len = len;
                    Ok(words)
                } else {
                    assert(len * bytes > buffer.len()) by (nonlinear_arith)
                        requires
                            buffer.len() / bytes < len,
                            bytes == 1 || bytes == 2,
                    ;
                    Err((ReturnCode::ENOMEM, buffer))
                }
            },
            _ => Err((ReturnCode::ENOSUPPORT, buffer)),
        }
    }

    /// Writes `len` items after an address phase.
    ///
    /// With address and data both 8 or 16 bits wide, the address goes to the
    /// address register, as a 16-bit word: of a wider address the low 16
    /// bits go out. The data follow as in [`Fsmc::write`], or not at all if
    /// that write is refused; the address has gone out by then. With any
    /// other width nothing goes out and the answer is `ENOSUPPORT`.
    pub fn write_addr(
        &mut self,
        addr_width: BusWidth,
        addr: usize,
        data_width: BusWidth,
        buffer: Vec<u8>,
        len: usize,
    ) -> (out: AddressedWrite)
        ensures
            out.address == if FsmcView::addressable(addr_width, data_width) {
                Some((addr % 0x1_0000) as u16)
            } else {
                None
            },
            write_view(out.data) == if FsmcView::addressable(addr_width, data_width) {
                FsmcView::write_answer(data_width, buffer@, len)
            } else {
                Err((ReturnCode::ENOSUPPORT, buffer@))
            },
            final(self)@ == if FsmcView::addressable(addr_width, data_width) {
                old(self)@.write(data_width, buffer@, len)
            } else {
                old(self)@
            },
    {
        match addr_width {
            BusWidth::Bits8 | BusWidth::Bits16BE | BusWidth::Bits16LE => match data_width {
                BusWidth::Bits8 | BusWidth::Bits16LE | BusWidth::Bits16BE => {
                    let address = (addr % 0x1_0000) as u16;
                    let data = self.write(data_width, buffer, len);
                    AddressedWrite { address: Some(address), data }
                },
                _ => AddressedWrite {
                    address: None,
                    data: Err((ReturnCode::ENOSUPPORT, buffer)),
                },
            },
            _ => AddressedWrite { address: None, data: Err((ReturnCode::ENOSUPPORT, buffer)) },
        }
    }

    /// Reading is not supported: `ENOSUPPORT`, with the buffer.
    pub fn read(&self, data_width: BusWidth, buffer: Vec<u8>, len: usize) -> (answer: Result<
        (),
        (ReturnCode, Vec<u8>),
    >)
        ensures
            answer matches Err((code, returned)) && code == ReturnCode::ENOSUPPORT && returned@
                == buffer@,
    {
        Err((ReturnCode::ENOSUPPORT, buffer))
    }

    /// Reading is not supported: `ENOSUPPORT`, with the buffer.
    pub fn read_addr(
        &self,
        addr_width: BusWidth,
        addr: usize,
        data_width: BusWidth,
        buffer: Vec<u8>,
        len: usize,
    ) -> (answer: Result<(), (ReturnCode, Vec<u8>)>)
        ensures
            answer matches Err((code, returned)) && code == ReturnCode::ENOSUPPORT && returned@
                == buffer@,
    {
        Err((ReturnCode::ENOSUPPORT, buffer))
    }
}

} // verus!
