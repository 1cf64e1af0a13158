use peripherals::errorcode::ReturnCode;
use peripherals::uart::{
    baud_divisors, uart_is_writable, Parameters, Parity, StopBits, UARTStateTX, Uart,
    UartRegisters, Width,
};

const TXFF: u32 = 1 << 5;
const TXFE: u32 = 1 << 7;

fn registers(value: u32) -> UartRegisters {
    UartRegisters {
        uartibrd: value,
        uartfbrd: value,
        uartlcr_h: value,
        uartcr: value,
        uartifls: value,
        uartimsc: value,
        uartdmacr: value,
    }
}

fn params(baud_rate: u32) -> Parameters {
    Parameters {
        baud_rate,
        width: Width::Eight,
        parity: Parity::NoParity,
        stop_bits: StopBits::One,
        hw_flow_control: false,
    }
}

#[test]
fn baud_rate_divisors() {
    assert_eq!(baud_divisors(115200), (67, 52));
    assert_eq!(baud_divisors(9600), (813, 51));
    assert_eq!(baud_divisors(1_000_000), (7, 52));
    // Too slow and too fast are forced into the range of the divisor.
    assert_eq!(baud_divisors(1), (65535, 0));
    assert_eq!(baud_divisors(119), (65535, 0));
    assert_eq!(baud_divisors(10_000_000), (1, 0));
    assert_eq!(baud_divisors(u32::MAX), (1, 0));
    // The fraction can round up to a whole.
    assert_eq!(baud_divisors(3_921_568), (1, 64));
}

#[test]
fn new_uarts() {
    let uart = Uart::new_uart0(registers(5));
    assert_eq!(uart.interrupt, 20);
    assert_eq!(uart.registers, registers(5));
    assert_eq!(uart.tx_status, UARTStateTX::Idle);
    assert_eq!(uart.tx_client, None);
    assert_eq!(uart.tx_buffer, None);
    assert_eq!((uart.tx_position, uart.tx_len), (0, 0));
    let uart = Uart::new_uart1(registers(0));
    assert_eq!(uart.interrupt, 21);
    assert_eq!(uart.tx_status, UARTStateTX::Idle);
}

#[test]
fn enable_and_disable() {
    let mut uart = Uart::new_uart0(registers(0));
    uart.enable();
    assert_eq!(uart.registers, UartRegisters { uartcr: 1, ..registers(0) });
    uart.disable();
    assert_eq!(uart.registers, registers(0));
    let mut uart = Uart::new_uart0(registers(0xFFFF_FFFF));
    uart.disable();
    assert_eq!(uart.registers, UartRegisters { uartcr: 0xFFFF_FFFE, ..registers(0xFFFF_FFFF) });
}

#[test]
fn transmit_interrupt_mask() {
    let mut uart = Uart::new_uart0(registers(0xFFFF_FFFF));
    uart.enable_transmit_interrupt();
    assert_eq!(
        uart.registers,
        UartRegisters { uartifls: 0xFFFF_FFF8, uartimsc: 0xFFFF_FFDF, ..registers(0xFFFF_FFFF) }
    );
    uart.disable_transmit_interrupt();
    assert_eq!(
        uart.registers,
        UartRegisters { uartifls: 0xFFFF_FFF8, ..registers(0xFFFF_FFFF) }
    );
    let mut uart = Uart::new_uart0(registers(0));
    uart.disable_transmit_interrupt();
    assert_eq!(uart.registers, UartRegisters { uartimsc: 0x20, ..registers(0) });
}

#[test]
fn configure_plain_line() {
    let mut uart = Uart::new_uart0(registers(0));
    assert_eq!(uart.configure(params(115200)), ReturnCode::SUCCESS);
    assert_eq!(
        uart.registers,
        UartRegisters {
            uartibrd: 67,
            uartfbrd: 52,
            uartlcr_h: 0x70,
            uartcr: 0x101,
            uartifls: 0,
            uartimsc: 0,
            uartdmacr: 3,
        }
    );
}

#[test]
fn configure_every_setting() {
    let mut uart = Uart::new_uart1(registers(0));
    let line = Parameters {
        baud_rate: 9600,
        width: Width::Seven,
        parity: Parity::Even,
        stop_bits: StopBits::Two,
        hw_flow_control: true,
    };
    assert_eq!(uart.configure(line), ReturnCode::SUCCESS);
    assert_eq!(uart.registers.uartibrd, 813);
    assert_eq!(uart.registers.uartfbrd, 51);
    assert_eq!(uart.registers.uartlcr_h, 0x5E);
    assert_eq!(uart.registers.uartcr, 0xC101);

    let mut uart = Uart::new_uart1(registers(0));
    let line = Parameters { width: Width::Six, parity: Parity::Odd, ..params(115200) };
    uart.configure(line);
    assert_eq!(uart.registers.uartlcr_h, 0x32);
    assert_eq!(uart.registers.uartcr, 0x101);
}

#[test]
fn configure_keeps_the_other_bits() {
    let mut uart = Uart::new_uart0(registers(0xFFFF_FFFF));
    uart.configure(params(115200));
    assert_eq!(
        uart.registers,
        UartRegisters {
            uartibrd: 67,
            uartfbrd: 52,
            uartlcr_h: 0xFFFF_FFF0,
            uartcr: 0xFFFF_3FFF,
            uartifls: 0xFFFF_FFFF,
            uartimsc: 0xFFFF_FFFF,
            uartdmacr: 3,
        }
    );
}

#[test]
fn configure_cuts_the_fraction_to_six_bits() {
    let mut uart = Uart::new_uart0(registers(0));
    uart.configure(params(3_921_568));
    assert_eq!(uart.registers.uartibrd, 1);
    assert_eq!(uart.registers.uartfbrd, 0);
}

#[test]
fn transmit_buffer_verdicts() {
    let mut uart = Uart::new_uart0(registers(0xFFFF_FFFF));
    uart.set_transmit_client(8);
    assert_eq!(uart.tx_client, Some(8));

    // Too long: refused, nothing changes.
    assert_eq!(uart.transmit_buffer(vec![1, 2, 3], 4), (ReturnCode::ESIZE, Some(vec![1, 2, 3])));
    assert_eq!(uart.tx_status, UARTStateTX::Idle);
    assert_eq!(uart.registers, registers(0xFFFF_FFFF));

    assert_eq!(uart.transmit_buffer(vec![1, 2, 3], 2), (ReturnCode::SUCCESS, None));
    assert_eq!(uart.tx_status, UARTStateTX::Transmitting);
    assert_eq!(uart.tx_buffer, Some(vec![1, 2, 3]));
    assert_eq!((uart.tx_position, uart.tx_len), (0, 2));
    assert_eq!(uart.registers.uartifls, 0xFFFF_FFF8);
    assert_eq!(uart.registers.uartimsc, 0xFFFF_FFDF);

    // Busy comes before the length.
    assert_eq!(uart.transmit_buffer(vec![9], 1), (ReturnCode::EBUSY, Some(vec![9])));
    assert_eq!(uart.transmit_buffer(vec![9], 5), (ReturnCode::EBUSY, Some(vec![9])));
    assert_eq!(uart.tx_buffer, Some(vec![1, 2, 3]));
    assert_eq!((uart.tx_position, uart.tx_len), (0, 2));
}

#[test]
fn feeding_the_fifo() {
    let mut uart = Uart::new_uart0(registers(0));
    assert!(!uart.handle_interrupt(0));
    uart.transmit_buffer(vec![10, 20, 30, 40], 3);
    assert!(uart.handle_interrupt(TXFE));
    assert!(!uart.handle_interrupt(0));
    assert!(!uart.handle_interrupt(TXFF));

    assert!(uart.feeding(0));
    assert!(!uart.feeding(TXFF));
    assert_eq!(uart.next_byte(0), Some(10));
    assert_eq!(uart.next_byte(0), Some(20));
    assert_eq!(uart.tx_position, 2);
    // The FIFO is full: the feeding ends.
    assert_eq!(uart.next_byte(TXFF), None);
    assert_eq!(uart.tx_position, 2);
    assert_eq!(uart.next_byte(0), Some(30));
    // With all requested bytes out the feeding goes on, FIFO full or not.
    assert!(uart.feeding(TXFF));
    assert_eq!(uart.next_byte(TXFF), Some(40));
    assert_eq!(uart.tx_position, 4);
}

#[test]
fn writable_unless_the_fifo_is_full() {
    assert!(uart_is_writable(0));
    assert!(uart_is_writable(TXFE));
    assert!(uart_is_writable(0xFFFF_FFDF));
    assert!(!uart_is_writable(TXFF));
    assert!(!uart_is_writable(0xFFFF_FFFF));
}

#[test]
fn unsupported_operations_fail() {
    let uart = Uart::new_uart0(registers(0));
    assert_eq!(uart.transmit_word(0x55), ReturnCode::FAIL);
    assert_eq!(uart.transmit_abort(), ReturnCode::FAIL);
    assert_eq!(uart.receive_buffer(vec![1, 2], 2), (ReturnCode::FAIL, Some(vec![1, 2])));
    assert_eq!(uart.receive_word(), ReturnCode::FAIL);
    assert_eq!(uart.receive_abort(), ReturnCode::FAIL);
}
