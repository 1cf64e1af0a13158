use peripherals::ccm::{Ccm, CcmRegisters, PeripheralClock, HCLK1, HCLK4, HCLK5};
use peripherals::registers::{is_set, modify, read};

fn image(value: u32) -> Ccm {
    Ccm::new(CcmRegisters { cscdr1: value, clpcr: value, ccgr1: value, ccgr4: value, ccgr5: value })
}

fn registers(value: u32) -> CcmRegisters {
    CcmRegisters { cscdr1: value, clpcr: value, ccgr1: value, ccgr4: value, ccgr5: value }
}

#[test]
fn field_modify_read_and_is_set() {
    assert_eq!(modify(0, 0b11, 26, 0b11), 0x0C00_0000);
    assert_eq!(modify(0xFFFF_FFFF, 0b11, 26, 0), 0xF3FF_FFFF);
    assert_eq!(modify(0xFFFF_FFFF, 0b11, 2, 0b01), 0xFFFF_FFF7);
    // A value wider than the field is cut to the field.
    assert_eq!(modify(0, 0b11, 4, 0xFF), 0x30);
    assert_eq!(modify(0, 0x3F, 0, 64), 0);
    assert_eq!(read(0x0800_0000, 0b11, 26), 0b10);
    assert_eq!(read(0xFFFF_FFFF, 0x3F, 0), 0x3F);
    assert_eq!(read(0x1234_5678, 0xFF, 8), 0x56);
    assert!(is_set(0x0400_0000, 0b11, 26));
    assert!(!is_set(0xF3FF_FFFF, 0b11, 26));
    assert!(is_set(0x40, 0b1, 6));
    assert!(!is_set(0x40, 0b1, 5));
}

#[test]
fn gpio1_clock_gate() {
    let mut ccm = image(0);
    assert!(!ccm.is_enabled_gpio1_clock());
    ccm.enable_gpio1_clock();
    assert_eq!(ccm.registers, CcmRegisters { ccgr1: 0x0C00_0000, ..registers(0) });
    assert!(ccm.is_enabled_gpio1_clock());
    ccm.disable_gpio1_clock();
    assert_eq!(ccm.registers, registers(0));
    assert!(!ccm.is_enabled_gpio1_clock());

    // The other gates of the register are left alone.
    let mut ccm = image(0x00F0_0000);
    ccm.enable_gpio1_clock();
    assert_eq!(ccm.registers.ccgr1, 0x0CF0_0000);
    let mut ccm = image(0xFFFF_FFFF);
    ccm.disable_gpio1_clock();
    assert_eq!(ccm.registers, CcmRegisters { ccgr1: 0xF3FF_FFFF, ..registers(0xFFFF_FFFF) });
    // One bit set in the field is enough to count as enabled.
    assert!(Ccm::new(CcmRegisters { ccgr1: 0x0400_0000, ..registers(0) }).is_enabled_gpio1_clock());
    assert!(Ccm::new(CcmRegisters { ccgr1: 0x0800_0000, ..registers(0) }).is_enabled_gpio1_clock());
}

#[test]
fn gpt1_clock_gates() {
    let mut ccm = image(0);
    ccm.enable_gpt1_clock();
    assert_eq!(ccm.registers, CcmRegisters { ccgr1: 0x00F0_0000, ..registers(0) });
    assert!(ccm.is_enabled_gpt1_clock());
    ccm.disable_gpt1_clock();
    assert_eq!(ccm.registers, registers(0));
    assert!(!ccm.is_enabled_gpt1_clock());
    // Only the serial-clock gate decides.
    assert!(!Ccm::new(CcmRegisters { ccgr1: 0x0030_0000, ..registers(0) }).is_enabled_gpt1_clock());
    assert!(Ccm::new(CcmRegisters { ccgr1: 0x0040_0000, ..registers(0) }).is_enabled_gpt1_clock());
    let mut ccm = image(0xFFFF_FFFF);
    ccm.disable_gpt1_clock();
    assert_eq!(ccm.registers.ccgr1, 0xFF0F_FFFF);
}

#[test]
fn iomuxc_clock_gates() {
    let mut ccm = image(0);
    ccm.enable_iomuxc_clock();
    assert_eq!(ccm.registers, CcmRegisters { ccgr4: 0x5, ..registers(0) });
    assert!(ccm.is_enabled_iomuxc_clock());
    let mut ccm = image(0xFFFF_FFFF);
    ccm.enable_iomuxc_clock();
    assert_eq!(ccm.registers.ccgr4, 0xFFFF_FFF5);
    assert!(ccm.is_enabled_iomuxc_clock());
    ccm.disable_iomuxc_clock();
    assert_eq!(ccm.registers.ccgr4, 0xFFFF_FFF0);
    assert!(!ccm.is_enabled_iomuxc_clock());
    // Both gates are needed.
    assert!(!Ccm::new(CcmRegisters { ccgr4: 0x1, ..registers(0) }).is_enabled_iomuxc_clock());
    assert!(!Ccm::new(CcmRegisters { ccgr4: 0x4, ..registers(0) }).is_enabled_iomuxc_clock());
    assert!(Ccm::new(CcmRegisters { ccgr4: 0xA, ..registers(0) }).is_enabled_iomuxc_clock());
}

#[test]
fn lpuart1_clock_gate() {
    let mut ccm = image(0);
    ccm.enable_lpuart1_clock();
    assert_eq!(ccm.registers, CcmRegisters { ccgr5: 0x0300_0000, ..registers(0) });
    assert!(ccm.is_enabled_lpuart1_clock());
    ccm.disable_lpuart1_clock();
    assert_eq!(ccm.registers, registers(0));
    assert!(!ccm.is_enabled_lpuart1_clock());
}

#[test]
fn uart_clock_mux_and_divider() {
    let mut ccm = image(0);
    ccm.enable_uart_clock_mux();
    assert_eq!(ccm.registers, CcmRegisters { cscdr1: 0x40, ..registers(0) });
    assert!(ccm.is_enabled_uart_clock_mux());
    assert!(!ccm.is_enabled_uart_clock_podf());
    ccm.enable_uart_clock_podf();
    assert_eq!(ccm.registers.cscdr1, 0x7F);
    assert!(ccm.is_enabled_uart_clock_podf());
    ccm.disable_uart_clock_mux();
    assert_eq!(ccm.registers.cscdr1, 0x3F);
    assert!(!ccm.is_enabled_uart_clock_mux());
    ccm.disable_uart_clock_podf();
    assert_eq!(ccm.registers, registers(0));
    assert!(!ccm.is_enabled_uart_clock_podf());
}

#[test]
fn low_power_mode_is_cleared() {
    let mut ccm = image(0xFFFF_FFFF);
    ccm.set_low_power_mode();
    assert_eq!(ccm.registers, CcmRegisters { clpcr: 0xFFFF_FFFC, ..registers(0xFFFF_FFFF) });
    let mut ccm = image(0);
    ccm.set_low_power_mode();
    assert_eq!(ccm.registers, registers(0));
}

#[test]
fn peripheral_clock_switches_its_own_gate() {
    let clocks = [
        (PeripheralClock::CCGR1(HCLK1::GPIO1), CcmRegisters { ccgr1: 0x0C00_0000, ..registers(0) }),
        (PeripheralClock::CCGR1(HCLK1::GPT1), CcmRegisters { ccgr1: 0x00F0_0000, ..registers(0) }),
        (PeripheralClock::CCGR4(HCLK4::IOMUXC), CcmRegisters { ccgr4: 0x5, ..registers(0) }),
        (PeripheralClock::CCGR5(HCLK5::LPUART1), CcmRegisters { ccgr5: 0x0300_0000, ..registers(0) }),
    ];
    for (clock, enabled) in clocks {
        let mut ccm = image(0);
        assert!(!clock.is_enabled(&ccm));
        clock.enable(&mut ccm);
        assert_eq!(ccm.registers, enabled);
        assert!(clock.is_enabled(&ccm));
        clock.disable(&mut ccm);
        assert_eq!(ccm.registers, registers(0));
        assert!(!clock.is_enabled(&ccm));
    }
}

#[test]
fn enabling_one_clock_leaves_the_others() {
    let mut ccm = image(0);
    PeripheralClock::CCGR1(HCLK1::GPIO1).enable(&mut ccm);
    PeripheralClock::CCGR1(HCLK1::GPT1).enable(&mut ccm);
    assert_eq!(ccm.registers.ccgr1, 0x0CF0_0000);
    PeripheralClock::CCGR1(HCLK1::GPIO1).disable(&mut ccm);
    assert!(PeripheralClock::CCGR1(HCLK1::GPT1).is_enabled(&ccm));
    assert!(!PeripheralClock::CCGR1(HCLK1::GPIO1).is_enabled(&ccm));
    assert_eq!(ccm.registers.ccgr1, 0x00F0_0000);
}
