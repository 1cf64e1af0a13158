use peripherals::errorcode::ReturnCode;
use peripherals::fsmc::{bus_width_in_bytes, AddressedWrite, BusWidth, Fsmc, FsmcRegisters};

fn controller(value: u32) -> Fsmc {
    Fsmc::new(FsmcRegisters { bcr1: value, btr1: value, bwtr1: value })
}

#[test]
fn bytes_per_item() {
    assert_eq!(bus_width_in_bytes(&BusWidth::Bits8), 1);
    assert_eq!(bus_width_in_bytes(&BusWidth::Bits16BE), 2);
    assert_eq!(bus_width_in_bytes(&BusWidth::Bits16LE), 2);
    assert_eq!(bus_width_in_bytes(&BusWidth::Bits32BE), 3);
    assert_eq!(bus_width_in_bytes(&BusWidth::Bits32LE), 3);
    assert_eq!(bus_width_in_bytes(&BusWidth::Bits64BE), 4);
    assert_eq!(bus_width_in_bytes(&BusWidth::Bits64LE), 4);
}

#[test]
fn new_controller() {
    let fsmc = controller(7);
    assert_eq!(fsmc.registers, FsmcRegisters { bcr1: 7, btr1: 7, bwtr1: 7 });
    assert_eq!(fsmc.client, None);
    assert_eq!(fsmc.buffer, None);
    assert_eq!(fsmc.bus_width, 1);
    assert_eq!(fsmc.len, 0);
}

#[test]
fn enable_writes_the_bank_configuration() {
    let mut fsmc = controller(0);
    fsmc.enable();
    assert_eq!(
        fsmc.registers,
        FsmcRegisters { bcr1: 0x0020_5011, btr1: 0x0221_2419, bwtr1: 0x0000_0711 }
    );
    // Bits outside the configured fields stay.
    let mut fsmc = controller(0xFFFF_FFFF);
    fsmc.enable();
    assert_eq!(
        fsmc.registers,
        FsmcRegisters { bcr1: 0xFFE0_54D1, btr1: 0xC221_2419, bwtr1: 0xCFF0_0711 }
    );
    // Enabling twice changes nothing more.
    fsmc.enable();
    assert_eq!(fsmc.registers.bcr1, 0xFFE0_54D1);
}

#[test]
fn write_packs_bytes_into_words() {
    let mut fsmc = controller(0);
    assert_eq!(fsmc.write(BusWidth::Bits8, vec![1, 2, 3], 3), Ok(vec![1, 2, 3]));
    assert_eq!(fsmc.buffer, Some(vec![1, 2, 3]));
    assert_eq!((fsmc.bus_width, fsmc.len), (1, 3));

    let bytes = vec![0x34, 0x12, 0x78, 0x56];
    assert_eq!(fsmc.write(BusWidth::Bits16LE, bytes.clone(), 2), Ok(vec![0x1234, 0x5678]));
    assert_eq!(fsmc.buffer, Some(bytes.clone()));
    assert_eq!((fsmc.bus_width, fsmc.len), (2, 2));
    assert_eq!(fsmc.write(BusWidth::Bits16BE, bytes.clone(), 2), Ok(vec![0x3412, 0x7856]));
    // Fewer items than the buffer holds: the rest is not sent.
    assert_eq!(fsmc.write(BusWidth::Bits16BE, bytes.clone(), 1), Ok(vec![0x3412]));
    assert_eq!((fsmc.bus_width, fsmc.len), (2, 1));
    assert_eq!(fsmc.write(BusWidth::Bits8, bytes, 0), Ok(vec![]));
    assert_eq!((fsmc.bus_width, fsmc.len), (1, 0));
}

#[test]
fn write_refusals_return_the_buffer() {
    let mut fsmc = controller(0);
    fsmc.write(BusWidth::Bits8, vec![9], 1).unwrap();
    let bytes = vec![1, 2, 3, 4];
    assert_eq!(
        fsmc.write(BusWidth::Bits16LE, bytes.clone(), 3),
        Err((ReturnCode::ENOMEM, bytes.clone()))
    );
    assert_eq!(
        fsmc.write(BusWidth::Bits8, bytes.clone(), 5),
        Err((ReturnCode::ENOMEM, bytes.clone()))
    );
    assert_eq!(
        fsmc.write(BusWidth::Bits16BE, bytes.clone(), usize::MAX),
        Err((ReturnCode::ENOMEM, bytes.clone()))
    );
    for width in [BusWidth::Bits32BE, BusWidth::Bits32LE, BusWidth::Bits64BE, BusWidth::Bits64LE] {
        assert_eq!(fsmc.write(width, bytes.clone(), 1), Err((ReturnCode::ENOSUPPORT, bytes.clone())));
    }
    // The accepted write is still the one on record.
    assert_eq!(fsmc.buffer, Some(vec![9]));
    assert_eq!((fsmc.bus_width, fsmc.len), (1, 1));
}

#[test]
fn write_with_address() {
    let mut fsmc = controller(0);
    assert_eq!(
        fsmc.write_addr(BusWidth::Bits16LE, 0x2C, BusWidth::Bits16BE, vec![0xAB, 0xCD], 1),
        AddressedWrite { address: Some(0x2C), data: Ok(vec![0xABCD]) }
    );
    assert_eq!(fsmc.buffer, Some(vec![0xAB, 0xCD]));
    // Of a wide address the low 16 bits go out.
    assert_eq!(
        fsmc.write_addr(BusWidth::Bits8, 0x1_2345, BusWidth::Bits8, vec![7], 1),
        AddressedWrite { address: Some(0x2345), data: Ok(vec![7]) }
    );
    // With a width that is not supported nothing goes out.
    assert_eq!(
        fsmc.write_addr(BusWidth::Bits32LE, 0, BusWidth::Bits8, vec![7], 1),
        AddressedWrite { address: None, data: Err((ReturnCode::ENOSUPPORT, vec![7])) }
    );
    assert_eq!(
        fsmc.write_addr(BusWidth::Bits8, 0, BusWidth::Bits64BE, vec![7], 1),
        AddressedWrite { address: None, data: Err((ReturnCode::ENOSUPPORT, vec![7])) }
    );
    // The address goes out even if the data are refused.
    assert_eq!(
        fsmc.write_addr(BusWidth::Bits8, 9, BusWidth::Bits16LE, vec![7], 1),
        AddressedWrite { address: Some(9), data: Err((ReturnCode::ENOMEM, vec![7])) }
    );
    assert_eq!(fsmc.buffer, Some(vec![7]));
    assert_eq!((fsmc.bus_width, fsmc.len), (1, 1));
}

#[test]
fn deferred_call_hands_the_buffer_to_the_client() {
    let mut fsmc = controller(0);
    fsmc.set_client(4);
    assert_eq!(fsmc.handle_interrupt(), None);
    fsmc.write(BusWidth::Bits16LE, vec![1, 2, 3, 4], 2).unwrap();
    assert_eq!(fsmc.handle_interrupt(), Some((4, vec![1, 2, 3, 4], 2)));
    assert_eq!(fsmc.buffer, None);
    assert_eq!(fsmc.handle_interrupt(), None);

    // Without a client the buffer is given up all the same.
    let mut fsmc = controller(0);
    fsmc.write(BusWidth::Bits8, vec![1], 1).unwrap();
    assert_eq!(fsmc.handle_interrupt(), None);
    assert_eq!(fsmc.buffer, None);
}

#[test]
fn reading_is_not_supported() {
    let fsmc = controller(0);
    assert_eq!(fsmc.read(BusWidth::Bits8, vec![1, 2], 2), Err((ReturnCode::ENOSUPPORT, vec![1, 2])));
    assert_eq!(
        fsmc.read_addr(BusWidth::Bits8, 3, BusWidth::Bits8, vec![1, 2], 2),
        Err((ReturnCode::ENOSUPPORT, vec![1, 2]))
    );
}
