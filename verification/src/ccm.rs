//! Clock gating of the i.MX RT1050 clock controller module, on an image of
//! its registers.
//!
//! The caller reads the registers into a [`CcmRegisters`], applies the
//! operations, and writes back what changed.

use vstd::prelude::*;
use crate::registers::{
    field_bits, field_is_set, field_modify, is_set, lemma_modify_keeps_other, modify,
};

verus! {

/// Width mask of a clock gate: two bits.
pub const GATE: u32 = 0b11;

/// Width mask of a one-bit field.
pub const BIT: u32 = 0b1;

/// Width mask of the UART clock divider: six bits.
pub const PODF: u32 = 0b11_1111;

/// Position of the low-power-mode field in CLPCR.
pub const CLPCR_LPM: u32 = 0;

/// Position of the UART clock selector in CSCDR1.
pub const CSCDR1_UART_CLK_SEL: u32 = 6;

/// Position of the UART clock divider in CSCDR1.
pub const CSCDR1_UART_CLK_PODF: u32 = 0;

/// Position of the first GPT1 gate (bus clock) in CCGR1.
pub const CCGR1_CG10: u32 = 20;

/// Position of the second GPT1 gate (serial clock) in CCGR1.
pub const CCGR1_CG11: u32 = 22;

/// Position of the GPIO1 gate in CCGR1.
pub const CCGR1_CG13: u32 = 26;

/// Position of the first IOMUXC gate in CCGR4.
pub const CCGR4_CG0: u32 = 0;

/// Position of the second IOMUXC gate in CCGR4.
pub const CCGR4_CG1: u32 = 2;

/// Position of the LPUART1 gate in CCGR5.
pub const CCGR5_CG12: u32 = 24;

/// The registers of the clock controller that the gates live in.
#[derive(Clone, Copy, Debug, PartialEq, Eq, Structural)]
pub struct CcmRegisters {
    /// Serial clock divider register 1.
    pub cscdr1: u32,
    /// Low power control register.
    pub clpcr: u32,
    /// Clock gating register 1.
    pub ccgr1: u32,
    /// Clock gating register 4.
    pub ccgr4: u32,
    /// Clock gating register 5.
    pub ccgr5: u32,
}

/// The clock controller module.
#[derive(Clone, Copy, Debug, PartialEq, Eq, Structural)]
pub struct Ccm {
    pub registers: CcmRegisters,
}

/// A peripheral clock, by the gating register that holds its gate.
pub enum PeripheralClock {
    CCGR1(HCLK1),
    CCGR4(HCLK4),
    CCGR5(HCLK5),
}

/// Clocks gated in CCGR1.
pub enum HCLK1 {
    GPIO1,
    GPT1,
}

/// Clocks gated in CCGR4.
pub enum HCLK4 {
    IOMUXC,
}

/// Clocks gated in CCGR5.
pub enum HCLK5 {
    LPUART1,
}

impl Ccm {
    /// The clock controller with the register values `registers`.
    pub fn new(registers: CcmRegisters) -> (ccm: Ccm)
        ensures
            ccm.registers == registers,
    {
        Ccm { registers }
    }

    /// Selects run mode: clears the low-power-mode field and nothing else.
    pub fn set_low_power_mode(&mut self)
        ensures
            final(self).registers == (CcmRegisters {
                clpcr: field_modify(old(self).registers.clpcr, GATE, CLPCR_LPM, 0),
                ..old(self).registers
            }),
    {
        self.registers.clpcr = modify(self.registers.clpcr, GATE, CLPCR_LPM, 0);
    }

    /// Both IOMUXC gates hold something other than zero.
    pub open spec fn iomuxc_clock_enabled(&self) -> bool {
        field_is_set(self.registers.ccgr4, GATE, CCGR4_CG0) && field_is_set(
            self.registers.ccgr4,
            GATE,
            CCGR4_CG1,
        )
    }

    /// Whether the clock is enabled; see [`Ccm::iomuxc_clock_enabled`].
    #[verifier::when_used_as_spec(iomuxc_clock_enabled)]
    pub fn is_enabled_iomuxc_clock(&self) -> (enabled: bool)
        ensures
            enabled == self.iomuxc_clock_enabled(),
    {
        is_set(self.registers.ccgr4, GATE, CCGR4_CG0) && is_set(
            self.registers.ccgr4,
            GATE,
            CCGR4_CG1,
        )
    }

    /// Sets both IOMUXC gates to 1: clock on in run mode.
    pub fn enable_iomuxc_clock(&mut self)
        ensures
            final(self).registers == (CcmRegisters {
                ccgr4: field_modify(
                    field_modify(old(self).registers.ccgr4, GATE, CCGR4_CG0, 0b01),
                    GATE,
                    CCGR4_CG1,
                    0b01,
                ),
                ..old(self).registers
            }),
            final(self).iomuxc_clock_enabled(),
    {
        let first = modify(self.registers.ccgr4, GATE, CCGR4_CG0, 0b01);
        self.registers.ccgr4 = modify(first, GATE, CCGR4_CG1, 0b01);
        proof {
            lemma_field_written(old(self).registers.ccgr4, GATE, CCGR4_CG0, 0b01);
            lemma_field_written(first, GATE, CCGR4_CG1, 0b01);
            lemma_gates_apart(CCGR4_CG1, CCGR4_CG0);
            lemma_modify_keeps_other(first, GATE, CCGR4_CG1, 0b01, GATE, CCGR4_CG0);
        }
    }

    /// Clears both IOMUXC gates.
    pub fn disable_iomuxc_clock(&mut self)
        ensures
            final(self).registers == (CcmRegisters {
                ccgr4: field_modify(
                    field_modify(old(self).registers.ccgr4, GATE, CCGR4_CG0, 0),
                    GATE,
                    CCGR4_CG1,
                    0,
                ),
                ..old(self).registers
            }),
            !final(self).iomuxc_clock_enabled(),
    {
        let first = modify(self.registers.ccgr4, GATE, CCGR4_CG0, 0);
        self.registers.ccgr4 = modify(first, GATE, CCGR4_CG1, 0);
        proof {
            lemma_field_written(first, GATE, CCGR4_CG1, 0);
        }
    }

    /// The GPIO1 gate holds something other than zero.
    pub open spec fn gpio1_clock_enabled(&self) -> bool {
        field_is_set(self.registers.ccgr1, GATE, CCGR1_CG13)
    }

    /// Whether the clock is enabled; see [`Ccm::gpio1_clock_enabled`].
    #[verifier::when_used_as_spec(gpio1_clock_enabled)]
    pub fn is_enabled_gpio1_clock(&self) -> (enabled: bool)
        ensures
            enabled == self.gpio1_clock_enabled(),
    {
        is_set(self.registers.ccgr1, GATE, CCGR1_CG13)
    }

    /// Sets the GPIO1 gate to 3: clock on in every mode but stop.
    pub fn enable_gpio1_clock(&mut self)
        ensures
            final(self).registers == (CcmRegisters {
                ccgr1: field_modify(old(self).registers.ccgr1, GATE, CCGR1_CG13, 0b11),
                ..old(self).registers
            }),
            final(self).gpio1_clock_enabled(),
    {
        self.registers.ccgr1 = modify(self.registers.ccgr1, GATE, CCGR1_CG13, 0b11);
        proof {
            lemma_field_written(old(self).registers.ccgr1, GATE, CCGR1_CG13, 0b11);
        }
    }

    /// Clears the GPIO1 gate.
    pub fn disable_gpio1_clock(&mut self)
        ensures
            final(self).registers == (CcmRegisters {
                ccgr1: field_modify(old(self).registers.ccgr1, GATE, CCGR1_CG13, 0),
                ..old(self).registers
            }),
            !final(self).gpio1_clock_enabled(),
    {
        self.registers.ccgr1 = modify(self.registers.ccgr1, GATE, CCGR1_CG13, 0);
        proof {
            lemma_field_written(old(self).registers.ccgr1, GATE, CCGR1_CG13, 0);
        }
    }

    /// The serial-clock gate of GPT1 holds something other than zero. The
    /// bus-clock gate is not looked at.
    pub open spec fn gpt1_clock_enabled(&self) -> bool {
        field_is_set(self.registers.ccgr1, GATE, CCGR1_CG11)
    }

    /// Whether the clock is enabled; see [`Ccm::gpt1_clock_enabled`].
    #[verifier::when_used_as_spec(gpt1_clock_enabled)]
    pub fn is_enabled_gpt1_clock(&self) -> (enabled: bool)
        ensures
            enabled == self.gpt1_clock_enabled(),
    {
        is_set(self.registers.ccgr1, GATE, CCGR1_CG11)
    }

    /// Sets both GPT1 gates, bus clock and serial clock, to 3.
    pub fn enable_gpt1_clock(&mut self)
        ensures
            final(self).registers == (CcmRegisters {
                ccgr1: field_modify(
                    field_modify(old(self).registers.ccgr1, GATE, CCGR1_CG10, 0b11),
                    GATE,
                    CCGR1_CG11,
                    0b11,
                ),
                ..old(self).registers
            }),
            final(self).gpt1_clock_enabled(),
    {
        let first = modify(self.registers.ccgr1, GATE, CCGR1_CG10, 0b11);
        self.registers.ccgr1 = modify(first, GATE, CCGR1_CG11, 0b11);
        proof {
            lemma_field_written(first, GATE, CCGR1_CG11, 0b11);
        }
    }

    /// Clears both GPT1 gates.
    pub fn disable_gpt1_clock(&mut self)
        ensures
            final(self).registers == (CcmRegisters {
                ccgr1: field_modify(
                    field_modify(old(self).registers.ccgr1, GATE, CCGR1_CG10, 0),
                    GATE,
                    CCGR1_CG11,
                    0,
                ),
                ..old(self).registers
            }),
            !final(self).gpt1_clock_enabled(),
    {
        let first = modify(self.registers.ccgr1, GATE, CCGR1_CG10, 0);
        self.registers.ccgr1 = modify(first, GATE, CCGR1_CG11, 0);
        proof {
            lemma_field_written(first, GATE, CCGR1_CG11, 0);
        }
    }

    /// The LPUART1 gate holds something other than zero.
    pub open spec fn lpuart1_clock_enabled(&self) -> bool {
        field_is_set(self.registers.ccgr5, GATE, CCGR5_CG12)
    }

    /// Whether the clock is enabled; see [`Ccm::lpuart1_clock_enabled`].
    #[verifier::when_used_as_spec(lpuart1_clock_enabled)]
    pub fn is_enabled_lpuart1_clock(&self) -> (enabled: bool)
        ensures
            enabled == self.lpuart1_clock_enabled(),
    {
        is_set(self.registers.ccgr5, GATE, CCGR5_CG12)
    }

    /// Sets the LPUART1 gate to 3.
    pub fn enable_lpuart1_clock(&mut self)
        ensures
            final(self).registers == (CcmRegisters {
                ccgr5: field_modify(old(self).registers.ccgr5, GATE, CCGR5_CG12, 0b11),
                ..old(self).registers
            }),
            final(self).lpuart1_clock_enabled(),
    {
        self.registers.ccgr5 = modify(self.registers.ccgr5, GATE, CCGR5_CG12, 0b11);
        proof {
            lemma_field_written(old(self).registers.ccgr5, GATE, CCGR5_CG12, 0b11);
        }
    }

    /// Clears the LPUART1 gate.
    pub fn disable_lpuart1_clock(&mut self)
        ensures
            final(self).registers == (CcmRegisters {
                ccgr5: field_modify(old(self).registers.ccgr5, GATE, CCGR5_CG12, 0),
                ..old(self).registers
            }),
            !final(self).lpuart1_clock_enabled(),
    {
        self.registers.ccgr5 = modify(self.registers.ccgr5, GATE, CCGR5_CG12, 0);
        proof {
            lemma_field_written(old(self).registers.ccgr5, GATE, CCGR5_CG12, 0);
        }
    }

    /// The UART clock selector is one: the UARTs run from the oscillator.
    pub open spec fn uart_clock_mux_enabled(&self) -> bool {
        field_is_set(self.registers.cscdr1, BIT, CSCDR1_UART_CLK_SEL)
    }

    /// Whether the clock is enabled; see [`Ccm::uart_clock_mux_enabled`].
    #[verifier::when_used_as_spec(uart_clock_mux_enabled)]
    pub fn is_enabled_uart_clock_mux(&self) -> (enabled: bool)
        ensures
            enabled == self.uart_clock_mux_enabled(),
    {
        is_set(self.registers.cscdr1, BIT, CSCDR1_UART_CLK_SEL)
    }

    /// Sets the UART clock selector.
    pub fn enable_uart_clock_mux(&mut self)
        ensures
            final(self).registers == (CcmRegisters {
                cscdr1: field_modify(old(self).registers.cscdr1, BIT, CSCDR1_UART_CLK_SEL, 1),
                ..old(self).registers
            }),
            final(self).uart_clock_mux_enabled(),
    {
        self.registers.cscdr1 = modify(self.registers.cscdr1, BIT, CSCDR1_UART_CLK_SEL, 1);
        proof {
            lemma_field_written(old(self).registers.cscdr1, BIT, CSCDR1_UART_CLK_SEL, 1);
        }
    }

    /// Clears the UART clock selector.
    pub fn disable_uart_clock_mux(&mut self)
        ensures
            final(self).registers == (CcmRegisters {
                cscdr1: field_modify(old(self).registers.cscdr1, BIT, CSCDR1_UART_CLK_SEL, 0),
                ..old(self).registers
            }),
            !final(self).uart_clock_mux_enabled(),
    {
        self.registers.cscdr1 = modify(self.registers.cscdr1, BIT, CSCDR1_UART_CLK_SEL, 0);
        proof {
            lemma_field_written(old(self).registers.cscdr1, BIT, CSCDR1_UART_CLK_SEL, 0);
        }
    }

    /// The UART clock divider holds something other than zero.
    pub open spec fn uart_clock_podf_enabled(&self) -> bool {
        field_is_set(self.registers.cscdr1, PODF, CSCDR1_UART_CLK_PODF)
    }

    /// Whether the clock is enabled; see [`Ccm::uart_clock_podf_enabled`].
    #[verifier::when_used_as_spec(uart_clock_podf_enabled)]
    pub fn is_enabled_uart_clock_podf(&self) -> (enabled: bool)
        ensures
            enabled == self.uart_clock_podf_enabled(),
    {
        is_set(self.registers.cscdr1, PODF, CSCDR1_UART_CLK_PODF)
    }

    /// Sets the UART clock divider to its largest value, 63.
    pub fn enable_uart_clock_podf(&mut self)
        ensures
            final(self).registers == (CcmRegisters {
                cscdr1: field_modify(
                    old(self).registers.cscdr1,
                    PODF,
                    CSCDR1_UART_CLK_PODF,
                    0b11_1111,
                ),
                ..old(self).registers
            }),
            final(self).uart_clock_podf_enabled(),
    {
        self.registers.cscdr1 = modify(
            self.registers.cscdr1,
            PODF,
            CSCDR1_UART_CLK_PODF,
            0b11_1111,
        );
        proof {
            lemma_field_written(old(self).registers.cscdr1, PODF, CSCDR1_UART_CLK_PODF, 0b11_1111);
        }
    }

    /// Clears the UART clock divider.
    pub fn disable_uart_clock_podf(&mut self)
        ensures
            final(self).registers == (CcmRegisters {
                cscdr1: field_modify(old(self).registers.cscdr1, PODF, CSCDR1_UART_CLK_PODF, 0),
                ..old(self).registers
            }),
            !final(self).uart_clock_podf_enabled(),
    {
        self.registers.cscdr1 = modify(self.registers.cscdr1, PODF, CSCDR1_UART_CLK_PODF, 0);
        proof {
            lemma_field_written(old(self).registers.cscdr1, PODF, CSCDR1_UART_CLK_PODF, 0);
        }
    }
}

/// A field of one, two or six bits that was written is set afterwards
/// exactly if the value written is not zero.
proof fn lemma_field_written(reg: u32, mask: u32, shift: u32, value: u32)
    requires
        mask == BIT || mask == GATE || mask == PODF,
        shift <= 26,
        value <= mask,
    ensures
        field_is_set(field_modify(reg, mask, shift, value), mask, shift) <==> value != 0,
{
    assert((((reg & !(mask << shift)) | ((value & mask) << shift)) & (mask << shift) != 0) <==> (
    value != 0)) by (bit_vector)
        requires
            mask == 1 || mask == 3 || mask == 0x3f,
            shift <= 26,
            value <= mask,
    ;
}

/// Two gates at different positions share no bit.
proof fn lemma_gates_apart(shift: u32, other_shift: u32)
    requires
        shift <= 30,
        other_shift <= 30,
        shift % 2 == 0,
        other_shift % 2 == 0,
        shift != other_shift,
    ensures
        field_bits(GATE, shift) & field_bits(GATE, other_shift) == 0,
{
    assert((3u32 << shift) & (3u32 << other_shift) == 0) by (bit_vector)
        requires
            shift <= 30,
            other_shift <= 30,
            shift % 2 == 0,
            other_shift % 2 == 0,
            shift != other_shift,
    ;
}

impl PeripheralClock {
    /// What it means for this clock to be enabled in `ccm`.
    pub open spec fn enabled_in(&self, ccm: &Ccm) -> bool {
        match self {
            PeripheralClock::CCGR1(HCLK1::GPIO1) => ccm.gpio1_clock_enabled(),
            PeripheralClock::CCGR1(HCLK1::GPT1) => ccm.gpt1_clock_enabled(),
            PeripheralClock::CCGR4(HCLK4::IOMUXC) => ccm.iomuxc_clock_enabled(),
            PeripheralClock::CCGR5(HCLK5::LPUART1) => ccm.lpuart1_clock_enabled(),
        }
    }

    /// Whether this clock is enabled in `ccm`; see
    /// [`PeripheralClock::enabled_in`].
    #[verifier::when_used_as_spec(enabled_in)]
    pub fn is_enabled(&self, ccm: &Ccm) -> (enabled: bool)
        ensures
            enabled == self.enabled_in(ccm),
    {
        match self {
            PeripheralClock::CCGR1(v) => match v {
                HCLK1::GPIO1 => ccm.is_enabled_gpio1_clock(),
                HCLK1::GPT1 => ccm.is_enabled_gpt1_clock(),
            },
            PeripheralClock::CCGR4(v) => match v {
                HCLK4::IOMUXC => ccm.is_enabled_iomuxc_clock(),
            },
            PeripheralClock::CCGR5(v) => match v {
                HCLK5::LPUART1 => ccm.is_enabled_lpuart1_clock(),
            },
        }
    }

    /// The registers after this clock was switched on.
    pub open spec fn enabled_registers(&self, r: CcmRegisters) -> CcmRegisters {
        match self {
            PeripheralClock::CCGR1(HCLK1::GPIO1) => CcmRegisters {
                ccgr1: field_modify(r.ccgr1, GATE, CCGR1_CG13, 0b11),
                ..r
            },
            PeripheralClock::CCGR1(HCLK1::GPT1) => CcmRegisters {
                ccgr1: field_modify(
                    field_modify(r.ccgr1, GATE, CCGR1_CG10, 0b11),
                    GATE,
                    CCGR1_CG11,
                    0b11,
                ),
                ..r
            },
            PeripheralClock::CCGR4(HCLK4::IOMUXC) => CcmRegisters {
                ccgr4: field_modify(
                    field_modify(r.ccgr4, GATE, CCGR4_CG0, 0b01),
                    GATE,
                    CCGR4_CG1,
                    0b01,
                ),
                ..r
            },
            PeripheralClock::CCGR5(HCLK5::LPUART1) => CcmRegisters {
                ccgr5: field_modify(r.ccgr5, GATE, CCGR5_CG12, 0b11),
                ..r
            },
        }
    }

    /// The registers after this clock was switched off.
    pub open spec fn disabled_registers(&self, r: CcmRegisters) -> CcmRegisters {
        match self {
            PeripheralClock::CCGR1(HCLK1::GPIO1) => CcmRegisters {
                ccgr1: field_modify(r.ccgr1, GATE, CCGR1_CG13, 0),
                ..r
            },
            PeripheralClock::CCGR1(HCLK1::GPT1) => CcmRegisters {
                ccgr1: field_modify(
                    field_modify(r.ccgr1, GATE, CCGR1_CG10, 0),
                    GATE,
                    CCGR1_CG11,
                    0,
                ),
                ..r
            },
            PeripheralClock::CCGR4(HCLK4::IOMUXC) => CcmRegisters {
                ccgr4: field_modify(field_modify(r.ccgr4, GATE, CCGR4_CG0, 0), GATE, CCGR4_CG1, 0),
                ..r
            },
            PeripheralClock::CCGR5(HCLK5::LPUART1) => CcmRegisters {
                ccgr5: field_modify(r.ccgr5, GATE, CCGR5_CG12, 0),
                ..r
            },
        }
    }

    /// Switches this clock on in `ccm`. Afterwards it is enabled, and only
    /// its own gates were written.
    pub fn enable(&self, ccm: &mut Ccm)
        ensures
            final(ccm).registers == self.enabled_registers(old(ccm).registers),
            self.enabled_in(final(ccm)),
    {
        match self {
            PeripheralClock::CCGR1(v) => match v {
                HCLK1::GPIO1 => {
                    ccm.enable_gpio1_clock();
                },
                HCLK1::GPT1 => {
                    ccm.enable_gpt1_clock();
                },
            },
            PeripheralClock::CCGR4(v) => match v {
                HCLK4::IOMUXC => {
                    ccm.enable_iomuxc_clock();
                },
            },
            PeripheralClock::CCGR5(v) => match v {
                HCLK5::LPUART1 => {
                    ccm.enable_lpuart1_clock();
                },
            },
        }
    }

    /// Switches this clock off in `ccm`. Afterwards it is not enabled, and
    /// only its own gates were written.
    pub fn disable(&self, ccm: &mut Ccm)
        ensures
            final(ccm).registers == self.disabled_registers(old(ccm).registers),
            !self.enabled_in(final(ccm)),
    {
        match self {
            PeripheralClock::CCGR1(v) => match v {
                HCLK1::GPIO1 => {
                    ccm.disable_gpio1_clock();
                },
                HCLK1::GPT1 => {
                    ccm.disable_gpt1_clock();
                },
            },
            PeripheralClock::CCGR4(v) => match v {
                HCLK4::IOMUXC => {
                    ccm.disable_iomuxc_clock();
                },
            },
            PeripheralClock::CCGR5(v) => match v {
                HCLK5::LPUART1 => {
                    ccm.disable_lpuart1_clock();
                },
            },
        }
    }
}

} // verus!
