//! Driver for the FT6206 touch panel controller.
//!
//! The controller pulls its interrupt line when the panel is touched. The
//! driver then reads the gesture and touch registers in one transfer and
//! decodes what came back for up to three kinds of client: single touch,
//! gesture and multi-touch.

use vstd::prelude::*;
use crate::bits::{low_nibble, word};
use crate::errorcode::ReturnCode;
use crate::virtual_i2c::device::I2CDevice;
use crate::virtual_i2c::transfer::{transfer_view, Transfer, TransferView};
use crate::virtual_i2c::types::{BusStatus, Operation};

verus! {

/// Register that holds the gesture; the touch registers follow it.
pub const REG_GEST_ID: u8 = 0x01;

/// Register that holds the number of touches.
pub const REG_TD_STATUS: u8 = 0x02;

/// Register that holds the chip identification.
pub const REG_CHIPID: u8 = 0xA3;

/// Number of bytes that describe one touch.
pub const TOUCH_LEN: usize = 7;

/// Bytes that a reply must have for the first touch to be decoded.
pub const REPLY_LEN: usize = 8;

/// Whether the finger went down or up.
#[derive(Clone, Copy, Debug, PartialEq, Eq, Structural)]
pub enum TouchStatus {
    Pressed,
    Released,
}

/// One touch on the panel.
#[derive(Clone, Copy, Debug, PartialEq, Eq, Structural)]
pub struct TouchEvent {
    pub status: TouchStatus,
    pub x: usize,
    pub y: usize,
    /// Number of the finger; this controller does not tell fingers apart.
    pub id: usize,
    pub weight: Option<usize>,
    pub area: Option<usize>,
}

/// A gesture that the controller recognised.
#[derive(Clone, Copy, Debug, PartialEq, Eq, Structural)]
pub enum GestureEvent {
    MoveUp,
    MoveRight,
    MoveDown,
    MoveLeft,
    ZoomIn,
    ZoomOut,
}

/// What the driver is doing.
#[derive(Clone, Copy, Debug, PartialEq, Eq, Structural)]
pub enum State {
    Idle,
    ReadingTouches,
}

/// The touch that the seven bytes after `offset` describe.
///
/// The top two bits of the first byte tell a press (0) from a release; the
/// coordinates are twelve bits each, the high four in the low half of one
/// byte and the low eight in the next; weight and area are one byte each.
pub open spec fn touch_at(buffer: Seq<u8>, offset: int) -> TouchEvent {
    TouchEvent {
        status: if buffer[offset + 1] / 64 == 0 {
            TouchStatus::Pressed
        } else {
            TouchStatus::Released
        },
        x: ((buffer[offset + 2] % 16) * 256 + buffer[offset + 3]) as usize,
        y: ((buffer[offset + 4] % 16) * 256 + buffer[offset + 5]) as usize,
        id: 0,
        weight: Some(buffer[offset + 6] as usize),
        area: Some(buffer[offset + 7] as usize),
    }
}

/// The gesture that a gesture byte stands for.
pub open spec fn gesture_of(byte: u8) -> Option<GestureEvent> {
    if byte == 0x10 {
        Some(GestureEvent::MoveUp)
    } else if byte == 0x14 {
        Some(GestureEvent::MoveRight)
    } else if byte == 0x18 {
        Some(GestureEvent::MoveDown)
    } else if byte == 0x1C {
        Some(GestureEvent::MoveLeft)
    } else if byte == 0x48 {
        Some(GestureEvent::ZoomIn)
    } else if byte == 0x49 {
        Some(GestureEvent::ZoomOut)
    } else {
        None
    }
}

/// The number of touches that a status byte reports: its low four bits.
pub open spec fn touches_of(byte: u8) -> usize {
    (byte % 16) as usize
}

/// Decodes the touch that starts `offset` bytes into `buffer`.
pub fn decode_touch(buffer: &Vec<u8>, offset: usize) -> (touch: TouchEvent)
    requires
        offset + TOUCH_LEN < buffer.len(),
    ensures
        touch == touch_at(buffer@, offset as int),
{
    let first = buffer[offset + 1];
    assert(first >> 6u8 == first / 64) by (bit_vector);
    let status = match first >> 6 {
        0x00 => TouchStatus::Pressed,
        _ => TouchStatus::Released,
    };
    let x = word(buffer[offset + 3], low_nibble(buffer[offset + 2])) as usize;
    let y = word(buffer[offset + 5], low_nibble(buffer[offset + 4])) as usize;
    TouchEvent {
        status,
        x,
        y,
        id: 0,
        weight: Some(buffer[offset + 6] as usize),
        area: Some(buffer[offset + 7] as usize),
    }
}

/// Decodes a gesture byte.
pub fn decode_gesture(byte: u8) -> (gesture: Option<GestureEvent>)
    ensures
        gesture == gesture_of(byte),
{
    match byte {
        0x10 => Some(GestureEvent::MoveUp),
        0x14 => Some(GestureEvent::MoveRight),
        0x18 => Some(GestureEvent::MoveDown),
        0x1C => Some(GestureEvent::MoveLeft),
        0x48 => Some(GestureEvent::ZoomIn),
        0x49 => Some(GestureEvent::ZoomOut),
        _ => None,
    }
}

/// The calls that a completed read leads to, one per kind of client.
#[derive(Clone, Copy, Debug, PartialEq, Eq)]
pub struct Notifications {
    /// Client token and touch for the single-touch client.
    pub touch: Option<(usize, TouchEvent)>,
    /// Client token and gesture for the gesture client.
    pub gesture: Option<(usize, GestureEvent)>,
    /// Client token and number of touches for the multi-touch client.
    pub multi_touch: Option<(usize, usize)>,
}

/// The driver.
#[derive(Debug)]
pub struct Ft6206 {
    pub i2c: I2CDevice,
    pub touch_client: Option<usize>,
    pub gesture_client: Option<usize>,
    pub multi_touch_client: Option<usize>,
    pub state: State,
    /// Number of touches in the last reply.
    pub num_touches: usize,
    /// The driver's buffer, absent while a transfer has it. Between
    /// transfers it holds the last reply.
    pub buffer: Option<Vec<u8>>,
}

/// Mathematical value of the driver.
pub struct Ft6206View {
    pub i2c: I2CDevice,
    pub touch_client: Option<usize>,
    pub gesture_client: Option<usize>,
    pub multi_touch_client: Option<usize>,
    pub state: State,
    pub num_touches: usize,
    pub buffer: Option<Seq<u8>>,
}

impl View for Ft6206 {
    type V = Ft6206View;

    open spec fn view(&self) -> Ft6206View {
        Ft6206View {
            i2c: self.i2c,
            touch_client: self.touch_client,
            gesture_client: self.gesture_client,
            multi_touch_client: self.multi_touch_client,
            state: self.state,
            num_touches: self.num_touches,
            buffer: match self.buffer {
                Some(b) => Some(b@),
                None => None,
            },
        }
    }
}

impl Ft6206View {
    /// The buffer, while the driver holds it, is long enough for one touch.
    pub open spec fn wf(self) -> bool {
        self.buffer matches Some(b) ==> b.len() >= REPLY_LEN
    }

    /// Hands the buffer out for a transfer, with `head` written over its
    /// front. Without a buffer nothing changes and nothing is handed out.
    pub open spec fn issue(self, state: State, op: Operation, head: Seq<u8>) -> (
        Ft6206View,
        Option<TransferView>,
    ) {
        match self.buffer {
            Some(b) => (
                Ft6206View { state, buffer: None, ..self },
                Some(TransferView { device: self.i2c, op, buffer: head + b.skip(head.len() as int) }),
            ),
            None => (self, None),
        }
    }

    /// Wakes the controller: the driver turns idle and writes 250 to
    /// register 0x92.
    pub open spec fn is_present(self) -> (Ft6206View, Option<TransferView>) {
        Ft6206View { state: State::Idle, ..self }.issue(
            State::Idle,
            Operation::Write { len: 2 },
            seq![0x92u8, 250u8],
        )
    }

    /// The driver after a reply came back in `buffer`.
    pub open spec fn command_complete(self, buffer: Seq<u8>) -> Ft6206View {
        Ft6206View {
            state: State::Idle,
            num_touches: touches_of(buffer[1]),
            buffer: Some(buffer),
            ..self
        }
    }

    /// The calls that a reply in `buffer` leads to. A reply that reports
    /// more than two touches is not passed on to anybody.
    pub open spec fn notifications(self, buffer: Seq<u8>) -> Notifications {
        let plausible = touches_of(buffer[1]) <= 2;
        Notifications {
            touch: match self.touch_client {
                Some(client) if plausible => Some((client, touch_at(buffer, 0))),
                _ => None,
            },
            gesture: match (self.gesture_client, gesture_of(buffer[0])) {
                (Some(client), Some(gesture)) if plausible => Some((client, gesture)),
                _ => None,
            },
            multi_touch: match self.multi_touch_client {
                Some(client) if plausible => Some((client, touches_of(buffer[1]))),
                _ => None,
            },
        }
    }

    /// The touch with number `index` in the last reply, if the driver holds
    /// the reply and it has that many touches. Touch `index` lies seven bytes
    /// after touch `index - 1`.
    pub open spec fn get_touch(self, index: usize) -> Option<TouchEvent> {
        match self.buffer {
            Some(b) if index <= self.num_touches => Some(touch_at(b, index * TOUCH_LEN)),
            _ => None,
        }
    }
}

impl Ft6206 {
    /// A driver on the endpoint `i2c`, idle, without clients, with `buffer`
    /// for its transfers. The caller enables the interrupt on the falling
    /// edge of the controller's line.
    pub fn new(i2c: I2CDevice, buffer: Vec<u8>) -> (driver: Ft6206)
        requires
            buffer.len() >= REPLY_LEN,
        ensures
            driver@ == (Ft6206View {
                i2c,
                touch_client: None,
                gesture_client: None,
                multi_touch_client: None,
                state: State::Idle,
                num_touches: 0,
                buffer: Some(buffer@),
            }),
            driver@.wf(),
    {
        Ft6206 {
            i2c,
            touch_client: None,
            gesture_client: None,
            multi_touch_client: None,
            state: State::Idle,
            num_touches: 0,
            buffer: Some(buffer),
        }
    }

    /// Wakes the controller: writes 250 to register 0x92. The driver stays
    /// idle; without a buffer nothing is sent.
    pub fn is_present(&mut self) -> (transfer: Option<Transfer>)
        requires
            old(self)@.wf(),
        ensures
            (final(self)@, transfer_view(transfer)) == old(self)@.is_present(),
            final(self)@.wf(),
    {
        self.state = State::Idle;
        match self.buffer.take() {
            Some(mut buffer) => {
                let ghost before = buffer@;
                buffer.set(0, 0x92);
                buffer.set(1, 250);
                assert(buffer@ =~= seq![0x92u8, 250u8] + before.skip(2));
                Some(Transfer { device: self.i2c, op: Operation::Write { len: 2 }, buffer })
            },
            None => None,
        }
    }

    /// The interrupt line fired: starts reading the gesture and the touches,
    /// fifteen bytes from the gesture register on.
    ///
    /// Where a transfer is returned, the caller disables the interrupt until
    /// the completion. Without a buffer, because a transfer is under way,
    /// nothing happens.
    pub fn fired(&mut self) -> (transfer: Option<Transfer>)
        requires
            old(self)@.wf(),
        ensures
            (final(self)@, transfer_view(transfer)) == old(self)@.issue(
                State::ReadingTouches,
                Operation::WriteRead { write_len: 1, read_len: 15 },
                seq![REG_GEST_ID],
            ),
            final(self)@.wf(),
    {
        match self.buffer.take() {
            Some(mut buffer) => {
                let ghost before = buffer@;
                self.state = State::ReadingTouches;
                buffer.set(0, REG_GEST_ID);
                assert(buffer@ =~= seq![REG_GEST_ID] + before.skip(1));
                Some(
                    Transfer {
                        device: self.i2c,
                        op: Operation::WriteRead { write_len: 1, read_len: 15 },
                        buffer,
                    },
                )
            },
            None => None,
        }
    }

    /// Takes the completion of a transfer, whatever its status.
    ///
    /// The driver becomes idle, keeps the reply and the number of touches in
    /// it, and returns the calls to make on its clients. The caller enables
    /// the interrupt again afterwards.
    pub fn command_complete(&mut self, buffer: Vec<u8>, error: BusStatus) -> (calls: Notifications)
        requires
            buffer.len() >= REPLY_LEN,
        ensures
            final(self)@ == old(self)@.command_complete(buffer@),
            calls == old(self)@.notifications(buffer@),
            final(self)@.wf(),
    {
        self.state = State::Idle;
        self.num_touches = low_nibble(buffer[1]) as usize;
        let plausible = self.num_touches <= 2;
        let touch = match self.touch_client {
            Some(client) => {
                if plausible {
                    Some((client, decode_touch(&buffer, 0)))
                } else {
                    None
                }
            },
            None => None,
        };
        let gesture = match self.gesture_client {
            Some(client) => {
                if plausible {
                    match decode_gesture(buffer[0]) {
                        Some(gesture) => Some((client, gesture)),
                        None => None,
                    }
                } else {
                    None
                }
            },
            None => None,
        };
        let multi_touch = match self.multi_touch_client {
            Some(client) => {
                if plausible {
                    Some((client, self.num_touches))
                } else {
                    None
                }
            },
            None => None,
        };
        self.buffer = Some(buffer);
        Notifications { touch, gesture, multi_touch }
    }

    /// Registers the single-touch client in place of any earlier one.
    pub fn set_touch_client(&mut self, client: usize)
        ensures
            final(self)@ == (Ft6206View { touch_client: Some(client), ..old(self)@ }),
    {
        self.touch_client = Some(client);
    }

    /// Registers the gesture client in place of any earlier one.
    pub fn set_gesture_client(&mut self, client: usize)
        ensures
            final(self)@ == (Ft6206View { gesture_client: Some(client), ..old(self)@ }),
    {
        self.gesture_client = Some(client);
    }

    /// Registers the multi-touch client in place of any earlier one.
    pub fn set_multi_touch_client(&mut self, client: usize)
        ensures
            final(self)@ == (Ft6206View { multi_touch_client: Some(client), ..old(self)@ }),
    {
        self.multi_touch_client = Some(client);
    }

    /// Touch reporting is always on.
    pub fn enable(&self) -> (code: ReturnCode)
        ensures
            code == ReturnCode::SUCCESS,
    {
        ReturnCode::SUCCESS
    }

    /// Touch reporting cannot be switched off; the call succeeds and changes
    /// nothing.
    pub fn disable(&self) -> (code: ReturnCode)
        ensures
            code == ReturnCode::SUCCESS,
    {
        ReturnCode::SUCCESS
    }

    /// The number of simultaneous touches that the panel can report.
    pub fn get_num_touches(&self) -> (n: usize)
        ensures
            n == 2,
    {
        2
    }

    /// The touch with number `index` in the last reply.
    pub fn get_touch(&self, index: usize) -> (touch: Option<TouchEvent>)
        requires
            self.buffer matches Some(b) ==> index <= self.num_touches ==> index * TOUCH_LEN
                + TOUCH_LEN < b.len(),
        ensures
            touch == self@.get_touch(index),
    {
        match &self.buffer {
            Some(buffer) => {
                if index <= self.num_touches {
                    Some(decode_touch(buffer, index * TOUCH_LEN))
                } else {
                    None
                }
            },
            None => None,
        }
    }

    /// Carries out a command of an application: 0 asks whether the driver
    /// exists, 1 wakes the controller, anything else is `ENOSUPPORT`.
    pub fn command(&mut self, command_num: usize) -> (result: (ReturnCode, Option<Transfer>))
        requires
            old(self)@.wf(),
        ensures
            command_num == 0 ==> result.0 == ReturnCode::SUCCESS && result.1 is None
                && final(self)@ == old(self)@,
            command_num == 1 ==> result.0 == ReturnCode::SUCCESS && (
                final(self)@,
                transfer_view(result.1),
            ) == old(self)@.is_present(),
            command_num > 1 ==> result.0 == ReturnCode::ENOSUPPORT && result.1 is None
                && final(self)@ == old(self)@,
            final(self)@.wf(),
    {
        match command_num {
            0 => (ReturnCode::SUCCESS, None),
            1 => {
                let transfer = self.is_present();
                (ReturnCode::SUCCESS, transfer)
            },
            _ => (ReturnCode::ENOSUPPORT, None),
        }
    }
}

} // verus!
