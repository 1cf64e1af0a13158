//! The UARTs of the RP2040: baud rate divisors, line settings and the
//! transmit state machine, on an image of the UART's registers.
//!
//! The caller reads the registers into a [`UartRegisters`], applies an
//! operation, and writes back what changed. Operations that go with a change
//! of an interrupt line say so; the line is the caller's to switch.

use vstd::prelude::*;
use crate::errorcode::ReturnCode;
use crate::registers::{field_is_set, field_modify, is_set, modify};

verus! {

/// Interrupt line of UART0.
pub const UART0_IRQ: u32 = 20;

/// Interrupt line of UART1.
pub const UART1_IRQ: u32 = 21;

/// Frequency of the peripheral clock that feeds the UARTs, in Hz.
pub const CLOCK: u32 = 125_000_000;

/// Position of the transmit-FIFO-full flag in the flag register.
pub const UARTFR_TXFF: u32 = 5;

/// Position of the transmit-FIFO-empty flag in the flag register.
pub const UARTFR_TXFE: u32 = 7;

/// Position of the UART enable bit in the control register.
pub const UARTCR_UARTEN: u32 = 0;

/// Position of the transmit interrupt mask in the interrupt mask register.
pub const UARTIMSC_TXIM: u32 = 5;

/// Bits of the line control register that `configure` writes: break,
/// parity, stop bits, FIFO enable and word length.
pub const LCR_H_CONFIGURED: u32 = 0x7F;

/// Bits of the control register that `configure` writes: UART enable,
/// transmit enable, and the two flow control enables.
pub const CR_CONFIGURED: u32 = 0xC101;

/// Number of data bits in a frame.
#[derive(Clone, Copy, Debug, PartialEq, Eq, Structural)]
pub enum Width {
    Six,
    Seven,
    Eight,
}

/// Parity bit of a frame.
#[derive(Clone, Copy, Debug, PartialEq, Eq, Structural)]
pub enum Parity {
    NoParity,
    Odd,
    Even,
}

/// Number of stop bits of a frame.
#[derive(Clone, Copy, Debug, PartialEq, Eq, Structural)]
pub enum StopBits {
    One,
    Two,
}

/// Settings of the line.
#[derive(Clone, Copy, Debug, PartialEq, Eq, Structural)]
pub struct Parameters {
    /// Baud rate in bits per second.
    pub baud_rate: u32,
    pub width: Width,
    pub parity: Parity,
    pub stop_bits: StopBits,
    pub hw_flow_control: bool,
}

/// What the transmitter is doing.
#[allow(non_camel_case_types)]
#[derive(Copy, Clone, Debug, PartialEq, Eq, Structural)]
pub enum UARTStateTX {
    Idle,
    Transmitting,
    AbortRequested,
}

/// The registers of a UART that hold settings.
#[derive(Clone, Copy, Debug, PartialEq, Eq, Structural)]
pub struct UartRegisters {
    /// Integer baud rate divisor.
    pub uartibrd: u32,
    /// Fractional baud rate divisor.
    pub uartfbrd: u32,
    /// Line control.
    pub uartlcr_h: u32,
    /// Control.
    pub uartcr: u32,
    /// Interrupt FIFO level select.
    pub uartifls: u32,
    /// Interrupt mask set and clear.
    pub uartimsc: u32,
    /// DMA control.
    pub uartdmacr: u32,
}

/// The divisor of the peripheral clock for a baud rate, in 128ths of a bit
/// time times sixteen: eight times the clock over the rate, rounded down.
pub open spec fn baud_rate_div(baud_rate: u32) -> int {
    8 * CLOCK / (baud_rate as int)
}

/// Integer part of the divisor as the hardware takes it: at least 1 and at
/// most 65535.
pub open spec fn baud_ibrd(baud_rate: u32) -> int {
    let ibrd = baud_rate_div(baud_rate) / 128;
    if ibrd == 0 {
        1
    } else if ibrd >= 65535 {
        65535
    } else {
        ibrd
    }
}

/// Fractional part of the divisor, in 64ths and rounded to the nearest:
/// zero where the integer part had to be forced into its range.
pub open spec fn baud_fbrd(baud_rate: u32) -> int {
    let div = baud_rate_div(baud_rate);
    let ibrd = div / 128;
    if ibrd == 0 || ibrd >= 65535 {
        0
    } else {
        (div % 128 + 1) / 2
    }
}

/// Computes both parts of the divisor for a baud rate.
pub fn baud_divisors(baud_rate: u32) -> (divisors: (u32, u32))
    requires
        baud_rate > 0,
    ensures
        divisors.0 == baud_ibrd(baud_rate),
        divisors.1 == baud_fbrd(baud_rate),
        1 <= divisors.0 <= 65535,
        divisors.1 <= 64,
{
    let div: u32 = 8 * CLOCK / baud_rate;
    assert(div >> 7u32 == div / 128) by (bit_vector);
    assert(div & 0x7fu32 == div % 128) by (bit_vector);
    let ibrd: u32 = div >> 7;
    let fbrd: u32 = ((div & 0x7f) + 1) / 2;
    if ibrd == 0 {
        (1, 0)
    } else if ibrd >= 65535 {
        (65535, 0)
    } else {
        (ibrd, fbrd)
    }
}

/// The configured bits of the line control register for `params`: FIFOs on
/// (bit 4), no break; the word length in bits 5 and 6, where 6, 7 and 8 data
/// bits are 1, 2 and 3; parity enable in bit 1 and even parity in bit 2; two
/// stop bits in bit 3.
pub open spec fn line_control(params: Parameters) -> int {
    16 + 32 * (match params.width {
        Width::Six => 1int,
        Width::Seven => 2int,
        Width::Eight => 3int,
    }) + (match params.parity {
        Parity::NoParity => 0int,
        Parity::Odd => 2int,
        Parity::Even => 6int,
    }) + (match params.stop_bits {
        StopBits::One => 0int,
        StopBits::Two => 8int,
    })
}

/// The configured bits of the control register for `params`: UART enable
/// (bit 0) and transmit enable (bit 8), and with hardware flow control the
/// RTS and CTS enables (bits 14 and 15).
pub open spec fn control(params: Parameters) -> int {
    0x101 + if params.hw_flow_control {
        0xC000int
    } else {
        0int
    }
}

/// The registers after the line was configured with `params`.
///
/// The divisor registers hold the divisor, the fractional part cut to its
/// six bits; line control and control keep the bits that are not configured;
/// DMA is enabled in both directions.
pub open spec fn configured(r: UartRegisters, params: Parameters) -> UartRegisters {
    UartRegisters {
        uartibrd: baud_ibrd(params.baud_rate) as u32,
        uartfbrd: (baud_fbrd(params.baud_rate) % 64) as u32,
        uartlcr_h: (r.uartlcr_h & !LCR_H_CONFIGURED) | (line_control(params) as u32),
        uartcr: (r.uartcr & !CR_CONFIGURED) | (control(params) as u32),
        uartdmacr: 0b11,
        ..r
    }
}

/// One UART.
#[derive(Debug)]
pub struct Uart {
    pub registers: UartRegisters,
    /// Number of the UART's interrupt line.
    pub interrupt: u32,
    /// Token of the client that is told when a buffer has gone out.
    pub tx_client: Option<usize>,
    pub tx_buffer: Option<Vec<u8>>,
    /// Index of the next byte to send.
    pub tx_position: usize,
    /// Number of bytes to send.
    pub tx_len: usize,
    pub tx_status: UARTStateTX,
}

/// Mathematical value of a UART.
pub struct UartView {
    pub registers: UartRegisters,
    pub interrupt: u32,
    pub tx_client: Option<usize>,
    pub tx_buffer: Option<Seq<u8>>,
    pub tx_position: usize,
    pub tx_len: usize,
    pub tx_status: UARTStateTX,
}

impl View for Uart {
    type V = UartView;

    open spec fn view(&self) -> UartView {
        UartView {
            registers: self.registers,
            interrupt: self.interrupt,
            tx_client: self.tx_client,
            tx_buffer: match self.tx_buffer {
                Some(b) => Some(b@),
                None => None,
            },
            tx_position: self.tx_position,
            tx_len: self.tx_len,
            tx_status: self.tx_status,
        }
    }
}

impl UartView {
    /// A UART on interrupt line `interrupt` that has done nothing yet.
    pub open spec fn fresh(registers: UartRegisters, interrupt: u32) -> UartView {
        UartView {
            registers,
            interrupt,
            tx_client: None,
            tx_buffer: None,
            tx_position: 0,
            tx_len: 0,
            tx_status: UARTStateTX::Idle,
        }
    }

    /// The registers with the transmit interrupt armed: level one eighth of
    /// the FIFO, mask bit cleared.
    pub open spec fn transmit_interrupt_enabled(r: UartRegisters) -> UartRegisters {
        UartRegisters {
            uartifls: field_modify(r.uartifls, 0b111, 0, 0),
            uartimsc: field_modify(r.uartimsc, 0b1, UARTIMSC_TXIM, 0),
            ..r
        }
    }

    /// The registers with the transmit interrupt's mask bit set.
    pub open spec fn transmit_interrupt_disabled(r: UartRegisters) -> UartRegisters {
        UartRegisters { uartimsc: field_modify(r.uartimsc, 0b1, UARTIMSC_TXIM, 1), ..r }
    }

    /// Whether the feeding of the transmit FIFO goes on, with the flag
    /// register at `uartfr`.
    pub open spec fn feeds(self, uartfr: u32) -> bool {
        !field_is_set(uartfr, 0b1, UARTFR_TXFF) || self.tx_position == self.tx_len
    }

    /// Answer to a request to send the first `tx_len` bytes of a buffer of
    /// `capacity` bytes: `EBUSY` unless the transmitter is idle, else `ESIZE`
    /// if the count exceeds the buffer, else `SUCCESS`.
    pub open spec fn transmit_verdict(self, capacity: nat, tx_len: usize) -> ReturnCode {
        if self.tx_status != UARTStateTX::Idle {
            ReturnCode::EBUSY
        } else if tx_len > capacity {
            ReturnCode::ESIZE
        } else {
            ReturnCode::SUCCESS
        }
    }

    /// The UART after that request: an accepted buffer is kept, to be sent
    /// from its first byte, and the transmit interrupt is armed; a refused
    /// one changes nothing.
    pub open spec fn transmit_buffer(self, tx_buffer: Seq<u8>, tx_len: usize) -> UartView {
        if self.transmit_verdict(tx_buffer.len(), tx_len) == ReturnCode::SUCCESS {
            UartView {
                registers: Self::transmit_interrupt_enabled(self.registers),
                tx_buffer: Some(tx_buffer),
                tx_position: 0,
                tx_len,
                tx_status: UARTStateTX::Transmitting,
                ..self
            }
        } else {
            self
        }
    }
}

/// Whether the transmit FIFO takes another byte, from the flag register.
pub fn uart_is_writable(uartfr: u32) -> (writable: bool)
    ensures
        writable == !field_is_set(uartfr, 0b1, UARTFR_TXFF),
{
    !is_set(uartfr, 0b1, UARTFR_TXFF)
}

impl Uart {
    /// UART0, with the register values `registers`.
    pub fn new_uart0(registers: UartRegisters) -> (uart: Uart)
        ensures
            uart@ == UartView::fresh(registers, UART0_IRQ),
    {
        Uart {
            registers,
            interrupt: UART0_IRQ,
            tx_client: None,
            tx_buffer: None,
            tx_position: 0,
            tx_len: 0,
            tx_status: UARTStateTX::Idle,
        }
    }

    /// UART1, with the register values `registers`.
    pub fn new_uart1(registers: UartRegisters) -> (uart: Uart)
        ensures
            uart@ == UartView::fresh(registers, UART1_IRQ),
    {
        Uart {
            registers,
            interrupt: UART1_IRQ,
            tx_client: None,
            tx_buffer: None,
            tx_position: 0,
            tx_len: 0,
            tx_status: UARTStateTX::Idle,
        }
    }

    /// Sets the UART enable bit.
    pub fn enable(&mut self)
        ensures
            final(self)@ == (UartView {
                registers: UartRegisters {
                    uartcr: field_modify(old(self).registers.uartcr, 0b1, UARTCR_UARTEN, 1),
                    ..old(self).registers
                },
                ..old(self)@
            }),
    {
        self.registers.uartcr = modify(self.registers.uartcr, 0b1, UARTCR_UARTEN, 1);
    }

    /// Clears the UART enable bit.
    pub fn disable(&mut self)
        ensures
            final(self)@ == (UartView {
                registers: UartRegisters {
                    uartcr: field_modify(old(self).registers.uartcr, 0b1, UARTCR_UARTEN, 0),
                    ..old(self).registers
                },
                ..old(self)@
            }),
    {
        self.registers.uartcr = modify(self.registers.uartcr, 0b1, UARTCR_UARTEN, 0);
    }

    /// Arms the transmit interrupt. The caller enables the UART's interrupt
    /// line afterwards.
    pub fn enable_transmit_interrupt(&mut self)
        ensures
            final(self)@ == (UartView {
                registers: UartView::transmit_interrupt_enabled(old(self).registers),
                ..old(self)@
            }),
    {
        self.registers.uartifls = modify(self.registers.uartifls, 0b111, 0, 0);
        self.registers.uartimsc = modify(self.registers.uartimsc, 0b1, UARTIMSC_TXIM, 0);
    }

    /// Sets the mask bit of the transmit interrupt. The caller disables the
    /// UART's interrupt line afterwards.
    pub fn disable_transmit_interrupt(&mut self)
        ensures
            final(self)@ == (UartView {
                registers: UartView::transmit_interrupt_disabled(old(self).registers),
                ..old(self)@
            }),
    {
        self.registers.uartimsc = modify(self.registers.uartimsc, 0b1, UARTIMSC_TXIM, 1);
    }

    /// Whether an interrupt, taken with the flag register at `uartfr`, leads
    /// to feeding the transmit FIFO: the FIFO is empty and a buffer is being
    /// sent.
    pub fn handle_interrupt(&self, uartfr: u32) -> (feed: bool)
        requires
            !(field_is_set(uartfr, 0b1, UARTFR_TXFE) && self.tx_status == UARTStateTX::Idle),
        ensures
            feed == (field_is_set(uartfr, 0b1, UARTFR_TXFE) && self.tx_status
                == UARTStateTX::Transmitting),
    {
        is_set(uartfr, 0b1, UARTFR_TXFE) && self.tx_status == UARTStateTX::Transmitting
    }

    /// Whether the feeding of the transmit FIFO goes on, with the flag
    /// register at `uartfr`: while the FIFO takes a byte, and also once all
    /// requested bytes have gone out.
    pub fn feeding(&self, uartfr: u32) -> (goes_on: bool)
        ensures
            goes_on == self@.feeds(uartfr),
    {
        uart_is_writable(uartfr) || self.tx_position == self.tx_len
    }

    /// One round of feeding the transmit FIFO, with the flag register at
    /// `uartfr`: the byte to put into the data register, or `None` when the
    /// feeding ends and the transmit interrupt is to be disabled.
    ///
    /// The feeding goes on while the FIFO takes a byte, and also once all
    /// requested bytes have gone out. While it goes on there must be a
    /// buffer, with a byte at the index that is next.
    pub fn next_byte(&mut self, uartfr: u32) -> (byte: Option<u8>)
        requires
            old(self)@.feeds(uartfr) ==> (old(self)@.tx_buffer matches Some(b)
                && old(self).tx_position < b.len()),
        ensures
            old(self)@.feeds(uartfr) ==> byte == Some(
                old(self)@.tx_buffer->0[old(self).tx_position as int],
            ) && final(self)@ == (UartView {
                tx_position: (old(self).tx_position + 1) as usize,
                ..old(self)@
            }),
            !old(self)@.feeds(uartfr) ==> byte is None && final(self)@ == old(self)@,
    {
        if self.feeding(uartfr) {
            match &self.tx_buffer {
                Some(buffer) => {
                    assert(buffer@.len() == buffer.len());
                    let byte = buffer[self.tx_position];
                    self.tx_position = self.tx_position + 1;
                    Some(byte)
                },
                None => None,
            }
        } else {
            None
        }
    }

    /// Sets baud rate, frame format and flow control, and switches the UART
    /// and its transmitter on. Always `SUCCESS`.
    ///
    /// The caller disables the UART before it writes the registers back, and
    /// writes the control register last.
    pub fn configure(&mut self, params: Parameters) -> (code: ReturnCode)
        requires
            params.baud_rate > 0,
        ensures
            code == ReturnCode::SUCCESS,
            final(self)@ == (UartView {
                registers: configured(old(self).registers, params),
                ..old(self)@
            }),
    {
        let (baud_ibrd, baud_fbrd) = baud_divisors(params.baud_rate);
        let ibrd = modify(0, 0xFFFF, 0, baud_ibrd);
        let fbrd = modify(0, 0x3F, 0, baud_fbrd);
        assert(ibrd == baud_ibrd && fbrd == baud_fbrd % 64) by (bit_vector)
            requires
                baud_ibrd <= 65535,
                ibrd == (0u32 & !(0xFFFFu32 << 0u32)) | ((baud_ibrd & 0xFFFFu32) << 0u32),
                fbrd == (0u32 & !(0x3Fu32 << 0u32)) | ((baud_fbrd & 0x3Fu32) << 0u32),
        ;
        self.registers.uartibrd = ibrd;
        self.registers.uartfbrd = fbrd;

        let wlen: u32 = match params.width {
            Width::Six => 0b01,
            Width::Seven => 0b10,
            Width::Eight => 0b11,
        };
        let (pen, eps): (u32, u32) = match params.parity {
            Parity::NoParity => (0, 0),
            Parity::Odd => (1, 0),
            Parity::Even => (1, 1),
        };
        let stp2: u32 = match params.stop_bits {
            StopBits::One => 0,
            StopBits::Two => 1,
        };
        let l0 = self.registers.uartlcr_h;
        // word length, parity, stop bits; then break off and FIFOs on
        let l1 = modify(l0, 0b11, 5, wlen);
        let l2 = modify(l1, 0b1, 1, pen);
        let l3 = modify(l2, 0b1, 2, eps);
        let l4 = modify(l3, 0b1, 3, stp2);
        let l5 = modify(l4, 0b1, 0, 0);
        let l6 = modify(l5, 0b1, 4, 1);
        let line: u32 = 16 + 32 * wlen + 2 * pen + 4 * eps + 8 * stp2;
        assert(l6 == (l0 & !0x7Fu32) | line) by (bit_vector)
            requires
                1 <= wlen <= 3,
                pen <= 1,
                eps <= 1,
                stp2 <= 1,
                line == 16 + 32 * wlen + 2 * pen + 4 * eps + 8 * stp2,
                l1 == (l0 & !(0b11u32 << 5u32)) | ((wlen & 0b11u32) << 5u32),
                l2 == (l1 & !(0b1u32 << 1u32)) | ((pen & 0b1u32) << 1u32),
                l3 == (l2 & !(0b1u32 << 2u32)) | ((eps & 0b1u32) << 2u32),
                l4 == (l3 & !(0b1u32 << 3u32)) | ((stp2 & 0b1u32) << 3u32),
                l5 == (l4 & !(0b1u32 << 0u32)) | ((0u32 & 0b1u32) << 0u32),
                l6 == (l5 & !(0b1u32 << 4u32)) | ((1u32 & 0b1u32) << 4u32),
        ;
        self.registers.uartlcr_h = l6;

        let flow: u32 = if params.hw_flow_control {
            1
        } else {
            0
        };
        let c0 = self.registers.uartcr;
        // flow control, then UART and transmitter on
        let c1 = modify(c0, 0b1, 14, flow);
        let c2 = modify(c1, 0b1, 15, flow);
        let c3 = modify(c2, 0b1, 0, 1);
        let c4 = modify(c3, 0b1, 8, 1);
        let ctl: u32 = 0x101 + 0xC000 * flow;
        assert(c4 == (c0 & !0xC101u32) | ctl) by (bit_vector)
            requires
                flow <= 1,
                ctl == 0x101 + 0xC000 * flow,
                c1 == (c0 & !(0b1u32 << 14u32)) | ((flow & 0b1u32) << 14u32),
                c2 == (c1 & !(0b1u32 << 15u32)) | ((flow & 0b1u32) << 15u32),
                c3 == (c2 & !(0b1u32 << 0u32)) | ((1u32 & 0b1u32) << 0u32),
                c4 == (c3 & !(0b1u32 << 8u32)) | ((1u32 & 0b1u32) << 8u32),
        ;
        self.registers.uartcr = c4;

        self.registers.uartdmacr = 0b11;
        ReturnCode::SUCCESS
    }

    /// Registers `client` in place of any earlier one.
    pub fn set_transmit_client(&mut self, client: usize)
        ensures
            final(self)@ == (UartView { tx_client: Some(client), ..old(self)@ }),
    {
        self.tx_client = Some(client);
    }

    /// Starts sending the first `tx_len` bytes of `tx_buffer`.
    ///
    /// The answer is that of [`UartView::transmit_verdict`]; a refusal hands
    /// the buffer back. After `SUCCESS` the caller enables the UART's
    /// interrupt line.
    pub fn transmit_buffer(&mut self, tx_buffer: Vec<u8>, tx_len: usize) -> (answer: (
        ReturnCode,
        Option<Vec<u8>>,
    ))
        ensures
            answer.0 == old(self)@.transmit_verdict(tx_buffer@.len(), tx_len),
            final(self)@ == old(self)@.transmit_buffer(tx_buffer@, tx_len),
            answer.0 == ReturnCode::SUCCESS ==> answer.1 is None,
            answer.0 != ReturnCode::SUCCESS ==> (answer.1 matches Some(b) && b@ == tx_buffer@),
    {
        if self.tx_status == UARTStateTX::Idle {
            if tx_len <= tx_buffer.len() {
                self.tx_buffer = Some(tx_buffer);
                self.tx_position = 0;
                self.tx_len = tx_len;
                self.tx_status = UARTStateTX::Transmitting;
                self.enable_transmit_interrupt();
                (ReturnCode::SUCCESS, None)
            } else {
                (ReturnCode::ESIZE, Some(tx_buffer))
            }
        } else {
            (ReturnCode::EBUSY, Some(tx_buffer))
        }
    }

    /// Sending single words is not supported: `FAIL`.
    pub fn transmit_word(&self, word: u32) -> (code: ReturnCode)
        ensures
            code == ReturnCode::FAIL,
    {
        ReturnCode::FAIL
    }

    /// Aborting a transmission is not supported: `FAIL`.
    pub fn transmit_abort(&self) -> (code: ReturnCode)
        ensures
            code == ReturnCode::FAIL,
    {
        ReturnCode::FAIL
    }

    /// Receiving is not supported: `FAIL`, with the buffer.
    pub fn receive_buffer(&self, rx_buffer: Vec<u8>, rx_len: usize) -> (answer: (
        ReturnCode,
        Option<Vec<u8>>,
    ))
        ensures
            answer.0 == ReturnCode::FAIL,
            answer.1 matches Some(b) && b@ == rx_buffer@,
    {
        (ReturnCode::FAIL, Some(rx_buffer))
    }

    /// Receiving is not supported: `FAIL`.
    pub fn receive_word(&self) -> (code: ReturnCode)
        ensures
            code == ReturnCode::FAIL,
    {
        ReturnCode::FAIL
    }

    /// Receiving is not supported: `FAIL`.
    pub fn receive_abort(&self) -> (code: ReturnCode)
        ensures
            code == ReturnCode::FAIL,
    {
        ReturnCode::FAIL
    }
}

} // verus!
