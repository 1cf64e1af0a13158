use peripherals::errorcode::ReturnCode;
use peripherals::ft6206::{
    decode_gesture, decode_touch, Ft6206, GestureEvent, Notifications, State, TouchEvent,
    TouchStatus,
};
use peripherals::virtual_i2c::device::I2CDevice;
use peripherals::virtual_i2c::mux::MuxI2C;
use peripherals::virtual_i2c::types::{BusStatus, Operation};

fn panel() -> (I2CDevice, Ft6206) {
    let mut mux = MuxI2C::new();
    let i2c = I2CDevice::new(&mut mux, 0x38);
    (i2c, Ft6206::new(i2c, vec![0; 17]))
}

fn reply() -> Vec<u8> {
    vec![
        0x10, 0x01, // gesture, one touch
        0x81, 0x23, 0x02, 0x45, 0x10, 0x20, // first touch
        0x40, 0x0F, 0xFF, 0x00, 0x07, 0x01, 0x02, // second touch
        0x00, 0x00,
    ]
}

#[test]
fn touch_decoding() {
    let buffer = reply();
    assert_eq!(
        decode_touch(&buffer, 0),
        TouchEvent {
            status: TouchStatus::Pressed,
            x: 0x123,
            y: 0x245,
            id: 0,
            weight: Some(0x10),
            area: Some(0x20),
        }
    );
    assert_eq!(
        decode_touch(&buffer, 7),
        TouchEvent {
            status: TouchStatus::Released,
            x: 0xFFF,
            y: 0x007,
            id: 0,
            weight: Some(1),
            area: Some(2),
        }
    );
    // The two top bits tell a press from anything else.
    for (first, status) in [
        (0x00, TouchStatus::Pressed),
        (0x3F, TouchStatus::Pressed),
        (0x40, TouchStatus::Released),
        (0x80, TouchStatus::Released),
        (0xC0, TouchStatus::Released),
    ] {
        let buffer = vec![0, first, 0, 0, 0, 0, 0, 0];
        assert_eq!(decode_touch(&buffer, 0).status, status);
    }
}

#[test]
fn gesture_decoding() {
    assert_eq!(decode_gesture(0x10), Some(GestureEvent::MoveUp));
    assert_eq!(decode_gesture(0x14), Some(GestureEvent::MoveRight));
    assert_eq!(decode_gesture(0x18), Some(GestureEvent::MoveDown));
    assert_eq!(decode_gesture(0x1C), Some(GestureEvent::MoveLeft));
    assert_eq!(decode_gesture(0x48), Some(GestureEvent::ZoomIn));
    assert_eq!(decode_gesture(0x49), Some(GestureEvent::ZoomOut));
    assert_eq!(decode_gesture(0x00), None);
    assert_eq!(decode_gesture(0x11), None);
    assert_eq!(decode_gesture(0xFF), None);
}

#[test]
fn new_panel() {
    let (i2c, driver) = panel();
    assert_eq!(driver.i2c, i2c);
    assert_eq!(driver.state, State::Idle);
    assert_eq!(driver.num_touches, 0);
    assert_eq!(driver.touch_client, None);
    assert_eq!(driver.gesture_client, None);
    assert_eq!(driver.multi_touch_client, None);
    assert_eq!(driver.buffer, Some(vec![0; 17]));
    assert_eq!(driver.get_num_touches(), 2);
    assert_eq!(driver.enable(), ReturnCode::SUCCESS);
    assert_eq!(driver.disable(), ReturnCode::SUCCESS);
}

#[test]
fn interrupt_starts_a_read_of_fifteen_bytes() {
    let (i2c, mut driver) = panel();
    let transfer = driver.fired().unwrap();
    assert_eq!(transfer.device, i2c);
    assert_eq!(transfer.op, Operation::WriteRead { write_len: 1, read_len: 15 });
    assert_eq!(transfer.buffer[0], 0x01);
    assert_eq!(transfer.buffer.len(), 17);
    assert_eq!(driver.state, State::ReadingTouches);
    assert_eq!(driver.buffer, None);
    // A second interrupt before the completion does nothing.
    assert!(driver.fired().is_none());
    assert_eq!(driver.state, State::ReadingTouches);
}

#[test]
fn completion_notifies_all_clients() {
    let (_i2c, mut driver) = panel();
    driver.set_touch_client(1);
    driver.set_gesture_client(2);
    driver.set_multi_touch_client(3);
    driver.fired();
    let calls = driver.command_complete(reply(), BusStatus::CommandComplete);
    assert_eq!(
        calls,
        Notifications {
            touch: Some((
                1,
                TouchEvent {
                    status: TouchStatus::Pressed,
                    x: 0x123,
                    y: 0x245,
                    id: 0,
                    weight: Some(0x10),
                    area: Some(0x20),
                }
            )),
            gesture: Some((2, GestureEvent::MoveUp)),
            multi_touch: Some((3, 1)),
        }
    );
    assert_eq!(driver.state, State::Idle);
    assert_eq!(driver.num_touches, 1);
    assert_eq!(driver.buffer, Some(reply()));
}

#[test]
fn completion_is_decoded_whatever_the_status() {
    let (_i2c, mut driver) = panel();
    driver.set_multi_touch_client(3);
    driver.fired();
    let calls = driver.command_complete(reply(), BusStatus::DataNak);
    assert_eq!(calls.multi_touch, Some((3, 1)));
}

#[test]
fn only_registered_clients_are_notified() {
    let (_i2c, mut driver) = panel();
    driver.fired();
    let calls = driver.command_complete(reply(), BusStatus::CommandComplete);
    assert_eq!(calls, Notifications { touch: None, gesture: None, multi_touch: None });

    driver.set_gesture_client(2);
    driver.fired();
    let mut no_gesture = reply();
    no_gesture[0] = 0x00;
    let calls = driver.command_complete(no_gesture, BusStatus::CommandComplete);
    assert_eq!(calls, Notifications { touch: None, gesture: None, multi_touch: None });
}

#[test]
fn more_than_two_touches_are_not_passed_on() {
    let (_i2c, mut driver) = panel();
    driver.set_touch_client(1);
    driver.set_gesture_client(2);
    driver.set_multi_touch_client(3);
    driver.fired();
    let mut implausible = reply();
    implausible[1] = 0x03;
    let calls = driver.command_complete(implausible, BusStatus::CommandComplete);
    assert_eq!(calls, Notifications { touch: None, gesture: None, multi_touch: None });
    assert_eq!(driver.num_touches, 3);

    // Only the low four bits count.
    driver.fired();
    let mut two = reply();
    two[1] = 0xF2;
    let calls = driver.command_complete(two, BusStatus::CommandComplete);
    assert_eq!(calls.multi_touch, Some((3, 2)));
    assert_eq!(calls.touch.unwrap().1.status, TouchStatus::Released);
    assert_eq!(driver.num_touches, 2);
}

#[test]
fn touches_of_the_last_reply() {
    let (_i2c, mut driver) = panel();
    driver.fired();
    driver.command_complete(reply(), BusStatus::CommandComplete);
    assert_eq!(driver.num_touches, 1);
    assert_eq!(driver.get_touch(0).unwrap().x, 0x123);
    assert_eq!(driver.get_touch(1).unwrap().x, 0xFFF);
    assert_eq!(driver.get_touch(1).unwrap().status, TouchStatus::Released);
    assert_eq!(driver.get_touch(2), None);
    assert_eq!(driver.get_touch(usize::MAX), None);
    // While a read is under way the reply is away.
    driver.fired();
    assert_eq!(driver.get_touch(0), None);
}

#[test]
fn commands() {
    let (i2c, mut driver) = panel();
    let (code, transfer) = driver.command(0);
    assert_eq!(code, ReturnCode::SUCCESS);
    assert!(transfer.is_none());
    let (code, transfer) = driver.command(2);
    assert_eq!(code, ReturnCode::ENOSUPPORT);
    assert!(transfer.is_none());

    let (code, transfer) = driver.command(1);
    assert_eq!(code, ReturnCode::SUCCESS);
    let transfer = transfer.unwrap();
    assert_eq!(transfer.device, i2c);
    assert_eq!(transfer.op, Operation::Write { len: 2 });
    assert_eq!(&transfer.buffer[..3], &[0x92, 250, 0]);
    assert_eq!(driver.state, State::Idle);
    assert_eq!(driver.buffer, None);

    // Without the buffer the command succeeds and sends nothing.
    let (code, transfer) = driver.command(1);
    assert_eq!(code, ReturnCode::SUCCESS);
    assert!(transfer.is_none());
}

#[test]
fn is_present_resets_the_state() {
    let (_i2c, mut driver) = panel();
    driver.fired();
    assert_eq!(driver.state, State::ReadingTouches);
    assert!(driver.is_present().is_none());
    assert_eq!(driver.state, State::Idle);
}
