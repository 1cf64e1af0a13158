//! Driver for the NINA-W102 Wi-Fi module, which is spoken to over SPI.
//!
//! A command goes out as a frame of four bytes. The reply is fetched one byte
//! at a time until the end mark arrives, then checked and acted upon: the
//! driver walks from the firmware version over the connection status to a
//! scan for networks, which it repeats every two seconds.
//!
//! The driver owns no pin, no SPI master and no timer. Every entry point
//! returns the steps to take on them, in order, and at most one SPI transfer
//! to start after the steps.

use vstd::prelude::*;
use crate::errorcode::ErrorCode;

verus! {

/// First byte of every frame.
pub const START_CMD: u8 = 0xe0;

/// Last byte of every frame.
pub const END_CMD: u8 = 0xee;

/// Stands in the place of the command in a frame that reports an error.
pub const ERROR_CMD: u8 = 0xef;

/// Index of the command in a frame.
pub const POS_CMD: usize = 1;

/// Index of the number of parameters in a frame.
pub const POS_PARAM_LEN: usize = 2;

/// Index of the first parameter in a frame.
pub const POS_PARAM: usize = 3;

/// Added to the command in a reply.
pub const REPLY_FLAG: u8 = 0x80;

/// Bytes that the write buffer must have: a command frame.
pub const COMMAND_LEN: usize = 4;

/// Rounds of fetching that a reply is given to start and to end.
pub const TIMEOUT: usize = 1000;

/// What the module can be asked.
#[derive(Copy, Clone, PartialEq, Eq, Debug, Structural)]
pub enum Command {
    GetFwVersion,
    StartScanNetworksCmd,
    ScanNetworksCmd,
    GetConnStatusCmd,
}

impl Command {
    /// The byte that stands for the command in a frame.
    pub open spec fn spec_code(&self) -> u8 {
        match self {
            Command::GetFwVersion => 0x37,
            Command::StartScanNetworksCmd => 0x36,
            Command::ScanNetworksCmd => 0x27,
            Command::GetConnStatusCmd => 0x20,
        }
    }

    /// The byte that stands for the command in a frame.
    #[verifier::when_used_as_spec(spec_code)]
    pub fn code(&self) -> (code: u8)
        ensures
            code == self.spec_code(),
            code < REPLY_FLAG,
    {
        match self {
            Command::GetFwVersion => 0x37,
            Command::StartScanNetworksCmd => 0x36,
            Command::ScanNetworksCmd => 0x27,
            Command::GetConnStatusCmd => 0x20,
        }
    }
}

/// How far the start of the module has come.
#[derive(Copy, Clone, PartialEq, Eq, Debug, Structural)]
pub enum InitStatus {
    Starting,
    Initialized,
}

/// What the driver is doing.
#[derive(Copy, Clone, PartialEq, Eq, Debug, Structural)]
pub enum Status {
    Idle,
    Init(InitStatus),
    /// A command frame is going out.
    Send(Command),
    /// A byte of the reply to the command is being fetched: the index at
    /// which it will be stored, and the rounds that are left.
    Receive(Command, usize, usize),
    GetFirmware,
    StartScanNetworks,
    ScanNetworks,
    GetConnStatus,
}

/// One thing for the caller to do on the pins, the SPI master or the timer.
#[derive(Copy, Clone, PartialEq, Eq, Debug, Structural)]
pub enum Step {
    /// Drive chip select high: the module is deselected.
    CsSet,
    /// Drive the reset line high.
    ResetSet,
    /// Drive the reset line low.
    ResetClear,
    /// Drive GPIO0 high.
    Gpio0Set,
    /// Drive GPIO0 low.
    Gpio0Clear,
    /// Turn GPIO0 into an input.
    Gpio0MakeInput,
    /// Wait until the ready line is low; give up for good if it stays high.
    WaitForChipReady,
    /// Drive chip select low and wait until the ready line is high; give up
    /// for good if it stays low.
    WaitForChipSelect,
    /// Have the SPI master keep its chip select low after the transfer.
    SpiHoldLow,
    /// Have the SPI master release its chip select after the transfer.
    SpiReleaseLow,
    /// Set the alarm to fire after this many milliseconds.
    SetAlarm(u32),
}

/// An SPI transfer of `len` bytes in both directions. A transfer that the
/// SPI master refuses is fatal.
#[derive(Debug)]
pub struct SpiTransfer {
    pub write_buffer: Vec<u8>,
    pub read_buffer: Option<Vec<u8>>,
    pub len: usize,
}

/// Mathematical value of an [`SpiTransfer`].
pub struct SpiTransferView {
    pub write_buffer: Seq<u8>,
    pub read_buffer: Option<Seq<u8>>,
    pub len: usize,
}

/// Mathematical value of a buffer that may be absent.
pub open spec fn buffer_view(buffer: Option<Vec<u8>>) -> Option<Seq<u8>> {
    match buffer {
        Some(b) => Some(b@),
        None => None,
    }
}

impl View for SpiTransfer {
    type V = SpiTransferView;

    open spec fn view(&self) -> SpiTransferView {
        SpiTransferView {
            write_buffer: self.write_buffer@,
            read_buffer: buffer_view(self.read_buffer),
            len: self.len,
        }
    }
}

/// What the caller has to do after an entry point returned: the steps in
/// order, then the transfer.
#[derive(Debug)]
pub struct Outcome {
    pub steps: Vec<Step>,
    pub transfer: Option<SpiTransfer>,
}

/// The driver.
#[derive(Debug)]
pub struct NinaW102 {
    pub write_buffer: Option<Vec<u8>>,
    pub read_buffer: Option<Vec<u8>>,
    pub one_byte_read_buffer: Option<Vec<u8>>,
    pub status: Status,
}

/// Mathematical value of the driver.
pub struct NinaW102View {
    pub write_buffer: Option<Seq<u8>>,
    pub read_buffer: Option<Seq<u8>>,
    pub one_byte_read_buffer: Option<Seq<u8>>,
    pub status: Status,
}

impl View for NinaW102 {
    type V = NinaW102View;

    open spec fn view(&self) -> NinaW102View {
        NinaW102View {
            write_buffer: buffer_view(self.write_buffer),
            read_buffer: buffer_view(self.read_buffer),
            one_byte_read_buffer: buffer_view(self.one_byte_read_buffer),
            status: self.status,
        }
    }
}

/// An entry point's whole effect: the driver afterwards, the answer, and
/// what the caller has to do.
pub struct Effect {
    pub state: NinaW102View,
    pub result: Result<(), ErrorCode>,
    pub steps: Seq<Step>,
    pub transfer: Option<SpiTransferView>,
}

impl Effect {
    /// The same effect with `steps` taken first.
    pub open spec fn after(self, steps: Seq<Step>) -> Effect {
        Effect { steps: steps + self.steps, ..self }
    }

    /// The same effect with the answer dropped in favour of success.
    pub open spec fn forgiven(self) -> Effect {
        Effect { result: Ok(()), ..self }
    }

    /// The effect that an entry point had, from what it left and returned.
    pub open spec fn of(state: NinaW102View, result: Result<(), ErrorCode>, outcome: Outcome) -> Effect {
        Effect {
            state,
            result,
            steps: outcome.steps@,
            transfer: match outcome.transfer {
                Some(t) => Some(t@),
                None => None,
            },
        }
    }
}

/// Offset, from the first parameter, of the byte behind the last parameter
/// of a reply, where `remaining` parameters are still to be skipped and
/// `current` bytes were skipped already.
///
/// A parameter is one length byte and as many bytes as it says. Skipping
/// stops early at a length byte that would lie outside the buffer.
pub open spec fn skip_params(buffer: Seq<u8>, remaining: nat, current: int) -> int
    decreases remaining,
{
    if remaining == 0 {
        current
    } else if POS_PARAM + current < buffer.len() {
        skip_params(buffer, (remaining - 1) as nat, current + buffer[POS_PARAM + current] + 1)
    } else {
        current
    }
}

/// Index in a reply at which its end mark is due.
pub open spec fn end_position(buffer: Seq<u8>) -> int {
    POS_PARAM + skip_params(buffer, buffer[POS_PARAM_LEN as int] as nat, 0)
}

/// How a reply to `command` is judged.
#[derive(Copy, Clone, PartialEq, Eq, Debug, Structural)]
pub enum Verdict {
    /// A well-formed reply to the command.
    Reply,
    /// A frame for something else; it is passed over.
    Other,
    /// Not a frame, or a reply without its end mark where it is due.
    Invalid,
    /// The module reports an error.
    Failed,
}

/// Judges a reply to `command` in `buffer`.
///
/// A reply starts with the start mark, carries the command with the reply
/// flag added, then the number of parameters and the parameters, then the end
/// mark.
pub open spec fn verdict(buffer: Seq<u8>, command: Command) -> Verdict {
    if buffer[0] != START_CMD {
        Verdict::Invalid
    } else if buffer[POS_CMD as int] == command.spec_code() + REPLY_FLAG {
        if end_position(buffer) < buffer.len() && buffer[end_position(buffer)] == END_CMD {
            Verdict::Reply
        } else {
            Verdict::Invalid
        }
    } else if buffer[POS_CMD as int] == ERROR_CMD {
        Verdict::Failed
    } else {
        Verdict::Other
    }
}

/// Judges a reply; see [`verdict`].
pub fn judge(buffer: &Vec<u8>, command: Command) -> (v: Verdict)
    requires
        buffer.len() >= POS_PARAM,
    ensures
        v == verdict(buffer@, command),
{
    if buffer[0] != START_CMD {
        return Verdict::Invalid;
    }
    let code = command.code();
    assert(code | 0x80u8 == code + 0x80) by (bit_vector)
        requires
            code < 0x80,
    ;
    if buffer[POS_CMD] == code | REPLY_FLAG {
        let param_len = buffer[POS_PARAM_LEN];
        let mut current_position: usize = 0;
        let mut parameter_index: u8 = 0;
        while parameter_index < param_len
            invariant
                parameter_index <= param_len,
                current_position <= 256 * parameter_index,
                skip_params(buffer@, param_len as nat, 0) == skip_params(
                    buffer@,
                    (param_len - parameter_index) as nat,
                    current_position as int,
                ),
            ensures
                skip_params(buffer@, param_len as nat, 0) == current_position,
            decreases param_len - parameter_index,
        {
            let pos = POS_PARAM + current_position;
            if pos < buffer.len() {
                current_position = current_position + buffer[pos] as usize + 1;
                parameter_index += 1;
            } else {
                break;
            }
        }
        let end_pos = POS_PARAM + current_position;
        if end_pos < buffer.len() && buffer[end_pos] == END_CMD {
            Verdict::Reply
        } else {
            Verdict::Invalid
        }
    } else if buffer[POS_CMD] == ERROR_CMD {
        Verdict::Failed
    } else {
        Verdict::Other
    }
}


impl NinaW102View {
    /// The buffers that the driver holds are long enough for what it does
    /// with them: a command frame, the head of a reply, one byte.
    pub open spec fn wf(self) -> bool {
        &&& self.write_buffer matches Some(b) ==> b.len() >= COMMAND_LEN
        &&& self.read_buffer matches Some(b) ==> b.len() >= POS_PARAM
        &&& self.one_byte_read_buffer matches Some(b) ==> b.len() >= 1
    }

    /// Nothing happens but the answer.
    pub open spec fn unchanged(self, result: Result<(), ErrorCode>) -> Effect {
        Effect { state: self, result, steps: Seq::empty(), transfer: None }
    }

    /// Sends the frame of `command`: waits for the module, selects it, and
    /// starts the transfer of the four bytes, with the read buffer to take
    /// what comes back. Without a write buffer the module is deselected
    /// again and the answer is `NOMEM`.
    pub open spec fn send_command(self, command: Command, num_params: u8) -> Effect {
        match self.write_buffer {
            Some(wb) => Effect {
                state: NinaW102View {
                    write_buffer: None,
                    read_buffer: None,
                    status: Status::Send(command),
                    ..self
                },
                result: Ok(()),
                steps: seq![Step::WaitForChipReady, Step::WaitForChipSelect, Step::SpiReleaseLow],
                transfer: Some(
                    SpiTransferView {
                        write_buffer: seq![START_CMD, command.spec_code(), num_params, END_CMD]
                            + wb.skip(COMMAND_LEN as int),
                        read_buffer: self.read_buffer,
                        len: COMMAND_LEN,
                    },
                ),
            },
            None => Effect {
                state: self,
                result: Err(ErrorCode::NOMEM),
                steps: seq![Step::WaitForChipReady, Step::WaitForChipSelect, Step::CsSet],
                transfer: None,
            },
        }
    }

    /// Whether the driver takes a request for `command` now: while idle,
    /// and a scan or its start also while that very thing is under way.
    pub open spec fn accepts(self, command: Command) -> bool {
        ||| self.status == Status::Idle
        ||| command == Command::ScanNetworksCmd && self.status == Status::ScanNetworks
        ||| command == Command::StartScanNetworksCmd && self.status == Status::StartScanNetworks
    }

    /// A request for `command`: `BUSY` unless the driver takes it; else the
    /// command is sent, and the answer is success whether or not the sending
    /// got under way.
    pub open spec fn request(self, command: Command) -> Effect {
        if self.accepts(command) {
            self.send_command(command, 0).forgiven()
        } else {
            self.unchanged(Err(ErrorCode::BUSY))
        }
    }

    /// Starts the module: deselects it, pulls reset low and GPIO0 high, and
    /// sets the alarm for the next step of the start, 10 ms on.
    pub open spec fn init(self) -> Effect {
        Effect {
            state: NinaW102View { status: Status::Init(InitStatus::Starting), ..self },
            result: Ok(()),
            steps: seq![Step::CsSet, Step::ResetClear, Step::Gpio0Set, Step::SetAlarm(10)],
            transfer: None,
        }
    }

    /// Fetches one byte of the reply to `command`, to be stored at
    /// `position`, with `timeout` rounds left: a transfer of one byte, 0xff
    /// out, with chip select held. It takes the write buffer and the
    /// one-byte buffer; if either is missing the module is deselected and the
    /// answer is `NOMEM`, and a write buffer that was there is given up.
    pub open spec fn receive_byte(self, command: Command, position: usize, timeout: usize) -> Effect {
        match (self.write_buffer, self.one_byte_read_buffer) {
            (Some(wb), Some(ob)) => Effect {
                state: NinaW102View {
                    write_buffer: None,
                    one_byte_read_buffer: None,
                    status: Status::Receive(command, position, timeout),
                    ..self
                },
                result: Ok(()),
                steps: seq![Step::SpiHoldLow],
                transfer: Some(
                    SpiTransferView {
                        write_buffer: wb.update(0, 0xff),
                        read_buffer: Some(ob),
                        len: 1,
                    },
                ),
            },
            _ => Effect {
                state: NinaW102View { write_buffer: None, ..self },
                result: Err(ErrorCode::NOMEM),
                steps: seq![Step::CsSet],
                transfer: None,
            },
        }
    }

    /// Starts fetching the reply to `command`: waits for the module, selects
    /// it, and fetches the first byte.
    pub open spec fn receive_command(self, command: Command) -> Effect {
        self.receive_byte(command, 0, TIMEOUT).after(
            seq![Step::WaitForChipReady, Step::WaitForChipSelect],
        )
    }

    /// Acts on the reply to `command` that the read buffer holds.
    ///
    /// Without a read buffer the answer is `NOMEM`. A reply that is not
    /// well formed is `INVAL`, an error report is `FAIL`, a frame for
    /// something else is passed over; in these three cases the read buffer
    /// is given up. A well-formed reply keeps the buffer and leads on: the
    /// firmware version to a request for the connection status, the
    /// connection status to a request to start a scan, the start of a scan
    /// to the state of scanning and an alarm 2 s on, a scan to nothing more.
    pub open spec fn process_buffer(self, command: Command) -> Effect {
        match self.read_buffer {
            None => self.unchanged(Err(ErrorCode::NOMEM)),
            Some(rb) => {
                let taken = NinaW102View { read_buffer: None, ..self };
                match verdict(rb, command) {
                    Verdict::Invalid => taken.unchanged(Err(ErrorCode::INVAL)),
                    Verdict::Failed => taken.unchanged(Err(ErrorCode::FAIL)),
                    Verdict::Other => taken.unchanged(Ok(())),
                    Verdict::Reply => match command {
                        Command::GetFwVersion => self.request(Command::GetConnStatusCmd),
                        Command::GetConnStatusCmd => self.request(Command::StartScanNetworksCmd),
                        Command::StartScanNetworksCmd => Effect {
                            state: NinaW102View { status: Status::ScanNetworks, ..self },
                            result: Ok(()),
                            steps: seq![Step::SetAlarm(2000)],
                            transfer: None,
                        },
                        Command::ScanNetworksCmd => self.unchanged(Ok(())),
                    },
                }
            },
        }
    }

    /// The driver with `byte` stored at `position` of the read buffer, if it
    /// holds one.
    pub open spec fn store(self, position: usize, byte: u8) -> NinaW102View {
        match self.read_buffer {
            Some(b) => NinaW102View { read_buffer: Some(b.update(position as int, byte)), ..self },
            None => self,
        }
    }

    /// What the byte that was fetched for `position` leads to, in a driver
    /// that has its buffers back.
    ///
    /// The first byte of a reply is waited for: a start mark is stored and
    /// the next byte fetched with a fresh count of rounds; an error mark is
    /// stored and ends the fetching; anything else is fetched over, and when
    /// the rounds are used up the module is deselected with `NOACK`. Every
    /// later byte is stored; the end mark deselects the module, releases
    /// the SPI chip select and has the reply acted upon; anything else has
    /// the next byte fetched, and when the rounds are used up the module is
    /// deselected with `SIZE`.
    pub open spec fn received(self, command: Command, position: usize, timeout: usize, byte: u8) -> Effect {
        if position == 0 {
            if byte == START_CMD {
                self.store(0, byte).receive_byte(command, 1, TIMEOUT)
            } else if byte == ERROR_CMD {
                self.store(0, byte).unchanged(Ok(()))
            } else if timeout > 0 {
                self.receive_byte(command, 0, (timeout - 1) as usize)
            } else {
                Effect {
                    state: self,
                    result: Err(ErrorCode::NOACK),
                    steps: seq![Step::CsSet],
                    transfer: None,
                }
            }
        } else {
            let stored = self.store(position, byte);
            if byte == END_CMD {
                stored.process_buffer(command).forgiven().after(
                    seq![Step::CsSet, Step::SpiReleaseLow],
                )
            } else if timeout > 0 {
                stored.receive_byte(command, (position + 1) as usize, (timeout - 1) as usize)
            } else {
                Effect {
                    state: stored,
                    result: Err(ErrorCode::SIZE),
                    steps: seq![Step::CsSet],
                    transfer: None,
                }
            }
        }
    }

    /// Whether `position` lies inside the read buffer, if the driver holds
    /// one.
    pub open spec fn holds(self, position: usize) -> bool {
        self.read_buffer matches Some(b) ==> position < b.len()
    }

    /// Whether the byte fetched for `position` is stored in the read buffer.
    pub open spec fn stores(position: usize, byte: u8) -> bool {
        position > 0 || byte == START_CMD || byte == ERROR_CMD
    }

    /// The end of an SPI transfer, which brings the buffers back.
    ///
    /// After a command frame the buffers return to the driver and the reply
    /// is fetched. After a byte of the reply the driver is idle for the
    /// moment, takes the write buffer back and, if a read buffer came with
    /// it, takes that as its one-byte buffer and goes by the byte in it, see
    /// [`NinaW102View::received`]; without a read buffer the answer is
    /// `NOMEM`. While idle the buffers return to the driver. In any other
    /// state nothing happens and the buffers are given up.
    pub open spec fn read_write_done(self, write_buffer: Seq<u8>, read_buffer: Option<Seq<u8>>) -> Effect {
        match self.status {
            Status::Send(command) => NinaW102View {
                write_buffer: Some(write_buffer),
                read_buffer: if read_buffer is Some {
                    read_buffer
                } else {
                    self.read_buffer
                },
                ..self
            }.receive_command(command),
            Status::Receive(command, position, timeout) => {
                let idle = NinaW102View {
                    status: Status::Idle,
                    write_buffer: Some(write_buffer),
                    ..self
                };
                match read_buffer {
                    Some(ob) => NinaW102View { one_byte_read_buffer: Some(ob), ..idle }.received(
                        command,
                        position,
                        timeout,
                        ob[0],
                    ),
                    None => idle.unchanged(Err(ErrorCode::NOMEM)),
                }
            },
            Status::Idle => NinaW102View {
                write_buffer: Some(write_buffer),
                read_buffer: if read_buffer is Some {
                    read_buffer
                } else {
                    self.read_buffer
                },
                ..self
            }.unchanged(Ok(())),
            _ => self.unchanged(Ok(())),
        }
    }

    /// Whether the alarm has a meaning in this state: during the start and
    /// in the four states named after the requests.
    pub open spec fn expects_alarm(self) -> bool {
        !(self.status is Idle || self.status is Send || self.status is Receive)
    }

    /// The alarm fired.
    ///
    /// During the start: first reset is released and the alarm set again,
    /// 750 ms on; then GPIO0 is pulled low and turned into an input, the
    /// driver becomes idle and asks for the firmware version. While a scan is
    /// to be started or under way, the request for it is made again. The
    /// answer is always success.
    pub open spec fn alarm(self) -> Effect {
        match self.status {
            Status::Init(InitStatus::Starting) => Effect {
                state: NinaW102View { status: Status::Init(InitStatus::Initialized), ..self },
                result: Ok(()),
                steps: seq![Step::ResetSet, Step::SetAlarm(750)],
                transfer: None,
            },
            Status::Init(InitStatus::Initialized) => NinaW102View {
                status: Status::Idle,
                ..self
            }.request(Command::GetFwVersion).forgiven().after(
                seq![Step::Gpio0Clear, Step::Gpio0MakeInput],
            ),
            Status::StartScanNetworks => self.request(Command::StartScanNetworksCmd).forgiven(),
            Status::ScanNetworks => self.request(Command::ScanNetworksCmd).forgiven(),
            _ => self.unchanged(Ok(())),
        }
    }
}

impl NinaW102 {
    /// A driver that is idle and holds its three buffers. The caller makes
    /// chip select, reset and GPIO0 outputs and the ready line an input.
    pub fn new(write_buffer: Vec<u8>, read_buffer: Vec<u8>, one_byte_read_buffer: Vec<u8>) -> (driver:
        NinaW102)
        requires
            write_buffer.len() >= COMMAND_LEN,
            read_buffer.len() >= POS_PARAM,
            one_byte_read_buffer.len() >= 1,
        ensures
            driver@ == (NinaW102View {
                write_buffer: Some(write_buffer@),
                read_buffer: Some(read_buffer@),
                one_byte_read_buffer: Some(one_byte_read_buffer@),
                status: Status::Idle,
            }),
            driver@.wf(),
    {
        NinaW102 {
            write_buffer: Some(write_buffer),
            read_buffer: Some(read_buffer),
            one_byte_read_buffer: Some(one_byte_read_buffer),
            status: Status::Idle,
        }
    }

    /// Starts the module; see [`NinaW102View::init`].
    pub fn init(&mut self) -> (r: (Result<(), ErrorCode>, Outcome))
        ensures
            Effect::of(final(self)@, r.0, r.1) == old(self)@.init(),
    {
        self.status = Status::Init(InitStatus::Starting);
        let steps = vec![Step::CsSet, Step::ResetClear, Step::Gpio0Set, Step::SetAlarm(10)];
        assert(steps@ =~= seq![Step::CsSet, Step::ResetClear, Step::Gpio0Set, Step::SetAlarm(10)]);
        (Ok(()), Outcome { steps, transfer: None })
    }

    fn send_command(&mut self, command: Command, num_params: u8, steps: Vec<Step>) -> (r: (
        Result<(), ErrorCode>,
        Outcome,
    ))
        requires
            old(self)@.wf(),
        ensures
            Effect::of(final(self)@, r.0, r.1) == old(self)@.send_command(
                command,
                num_params,
            ).after(steps@),
            final(self)@.wf(),
    {
        let mut steps = steps;
        let ghost before = steps@;
        steps.push(Step::WaitForChipReady);
        steps.push(Step::WaitForChipSelect);
        match self.write_buffer.take() {
            Some(mut buffer) => {
                let ghost old_buffer = buffer@;
                let code = command.code();
                assert(code & !0x80u8 == code) by (bit_vector)
                    requires
                        code < 0x80,
                ;
                buffer.set(0, START_CMD);
                buffer.set(POS_CMD, code & !REPLY_FLAG);
                buffer.set(POS_PARAM_LEN, num_params);
                buffer.set(3, END_CMD);
                steps.push(Step::SpiReleaseLow);
                let read_buffer = self.read_buffer.take();
                self.status = Status::Send(command);
                proof {
                    assert(buffer@ =~= seq![START_CMD, command.spec_code(), num_params, END_CMD]
                        + old_buffer.skip(COMMAND_LEN as int));
                    assert(steps@ =~= before + seq![
                        Step::WaitForChipReady,
                        Step::WaitForChipSelect,
                        Step::SpiReleaseLow,
                    ]);
                }
                (
                    Ok(()),
                    Outcome {
                        steps,
                        transfer: Some(
                            SpiTransfer { write_buffer: buffer, read_buffer, len: COMMAND_LEN },
                        ),
                    },
                )
            },
            None => {
                steps.push(Step::CsSet);
                proof {
                    assert(steps@ =~= before + seq![
                        Step::WaitForChipReady,
                        Step::WaitForChipSelect,
                        Step::CsSet,
                    ]);
                }
                (Err(ErrorCode::NOMEM), Outcome { steps, transfer: None })
            },
        }
    }

    fn request(&mut self, command: Command, steps: Vec<Step>) -> (r: (
        Result<(), ErrorCode>,
        Outcome,
    ))
        requires
            old(self)@.wf(),
        ensures
            Effect::of(final(self)@, r.0, r.1) == old(self)@.request(command).after(steps@),
            final(self)@.wf(),
    {
        let accepted = match self.status {
            Status::Idle => true,
            Status::ScanNetworks => command == Command::ScanNetworksCmd,
            Status::StartScanNetworks => command == Command::StartScanNetworksCmd,
            _ => false,
        };
        if accepted {
            let (_, outcome) = self.send_command(command, 0, steps);
            (Ok(()), outcome)
        } else {
            proof {
                assert(steps@ =~= steps@ + Seq::<Step>::empty());
            }
            (Err(ErrorCode::BUSY), Outcome { steps, transfer: None })
        }
    }

    /// Asks the module for its firmware version. Taken only while idle;
    /// see [`NinaW102View::request`].
    pub fn get_firmware_version(&mut self) -> (r: (Result<(), ErrorCode>, Outcome))
        requires
            old(self)@.wf(),
        ensures
            Effect::of(final(self)@, r.0, r.1) == old(self)@.request(Command::GetFwVersion),
            final(self)@.wf(),
    {
        let r = self.request(Command::GetFwVersion, Vec::new());
        proof {
            let e = old(self)@.request(Command::GetFwVersion);
            assert(Seq::<Step>::empty() + e.steps =~= e.steps);
        }
        r
    }

    /// Asks the module for the networks that its scan found. Taken while
    /// idle or scanning; see [`NinaW102View::request`].
    pub fn scan_networks(&mut self) -> (r: (Result<(), ErrorCode>, Outcome))
        requires
            old(self)@.wf(),
        ensures
            Effect::of(final(self)@, r.0, r.1) == old(self)@.request(Command::ScanNetworksCmd),
            final(self)@.wf(),
    {
        let r = self.request(Command::ScanNetworksCmd, Vec::new());
        proof {
            let e = old(self)@.request(Command::ScanNetworksCmd);
            assert(Seq::<Step>::empty() + e.steps =~= e.steps);
        }
        r
    }

    /// Asks the module to start a scan for networks. Taken while idle or
    /// while a scan is to be started; see [`NinaW102View::request`].
    pub fn start_scan_networks(&mut self) -> (r: (Result<(), ErrorCode>, Outcome))
        requires
            old(self)@.wf(),
        ensures
            Effect::of(final(self)@, r.0, r.1) == old(self)@.request(
                Command::StartScanNetworksCmd,
            ),
            final(self)@.wf(),
    {
        let r = self.request(Command::StartScanNetworksCmd, Vec::new());
        proof {
            let e = old(self)@.request(Command::StartScanNetworksCmd);
            assert(Seq::<Step>::empty() + e.steps =~= e.steps);
        }
        r
    }

    /// Asks the module for its connection status. Taken only while idle;
    /// see [`NinaW102View::request`].
    pub fn get_connection_status(&mut self) -> (r: (Result<(), ErrorCode>, Outcome))
        requires
            old(self)@.wf(),
        ensures
            Effect::of(final(self)@, r.0, r.1) == old(self)@.request(Command::GetConnStatusCmd),
            final(self)@.wf(),
    {
        let r = self.request(Command::GetConnStatusCmd, Vec::new());
        proof {
            let e = old(self)@.request(Command::GetConnStatusCmd);
            assert(Seq::<Step>::empty() + e.steps =~= e.steps);
        }
        r
    }

    fn receive_byte(
        &mut self,
        command: Command,
        position: usize,
        timeout: usize,
        steps: Vec<Step>,
    ) -> (r: (Result<(), ErrorCode>, Outcome))
        requires
            old(self)@.wf(),
        ensures
            Effect::of(final(self)@, r.0, r.1) == old(self)@.receive_byte(
                command,
                position,
                timeout,
            ).after(steps@),
            final(self)@.wf(),
    {
        let mut steps = steps;
        let ghost before = steps@;
        match self.write_buffer.take() {
            Some(mut buffer) => {
                buffer.set(0, 0xff);
                match self.one_byte_read_buffer.take() {
                    Some(read_buffer) => {
                        self.status = Status::Receive(command, position, timeout);
                        steps.push(Step::SpiHoldLow);
                        proof {
                            assert(steps@ =~= before + seq![Step::SpiHoldLow]);
                        }
                        (
                            Ok(()),
                            Outcome {
                                steps,
                                transfer: Some(
                                    SpiTransfer {
                                        write_buffer: buffer,
                                        read_buffer: Some(read_buffer),
                                        len: 1,
                                    },
                                ),
                            },
                        )
                    },
                    None => {
                        steps.push(Step::CsSet);
                        proof {
                            assert(steps@ =~= before + seq![Step::CsSet]);
                        }
                        (Err(ErrorCode::NOMEM), Outcome { steps, transfer: None })
                    },
                }
            },
            None => {
                steps.push(Step::CsSet);
                proof {
                    assert(steps@ =~= before + seq![Step::CsSet]);
                }
                (Err(ErrorCode::NOMEM), Outcome { steps, transfer: None })
            },
        }
    }

    fn receive_command(&mut self, command: Command) -> (r: (Result<(), ErrorCode>, Outcome))
        requires
            old(self)@.wf(),
        ensures
            Effect::of(final(self)@, r.0, r.1) == old(self)@.receive_command(command),
            final(self)@.wf(),
    {
        let steps = vec![Step::WaitForChipReady, Step::WaitForChipSelect];
        assert(steps@ =~= seq![Step::WaitForChipReady, Step::WaitForChipSelect]);
        self.receive_byte(command, 0, TIMEOUT, steps)
    }

    /// Acts on the reply to `command` that the read buffer holds; see
    /// [`NinaW102View::process_buffer`].
    pub fn process_buffer(&mut self, command: Command) -> (r: (Result<(), ErrorCode>, Outcome))
        requires
            old(self)@.wf(),
        ensures
            Effect::of(final(self)@, r.0, r.1) == old(self)@.process_buffer(command),
            final(self)@.wf(),
    {
        let r = self.process_buffer_after(command, Vec::new());
        proof {
            let e = old(self)@.process_buffer(command);
            assert(Seq::<Step>::empty() + e.steps =~= e.steps);
        }
        r
    }

    fn process_buffer_after(&mut self, command: Command, steps: Vec<Step>) -> (r: (
        Result<(), ErrorCode>,
        Outcome,
    ))
        requires
            old(self)@.wf(),
        ensures
            Effect::of(final(self)@, r.0, r.1) == old(self)@.process_buffer(command).after(steps@),
            final(self)@.wf(),
    {
        let ghost before = steps@;
        proof {
            assert(before =~= before + Seq::<Step>::empty());
        }
        match self.read_buffer.take() {
            None => (Err(ErrorCode::NOMEM), Outcome { steps, transfer: None }),
            Some(read_buffer) => match judge(&read_buffer, command) {
                Verdict::Invalid => (Err(ErrorCode::INVAL), Outcome { steps, transfer: None }),
                Verdict::Failed => (Err(ErrorCode::FAIL), Outcome { steps, transfer: None }),
                Verdict::Other => (Ok(()), Outcome { steps, transfer: None }),
                Verdict::Reply => {
                    self.read_buffer = Some(read_buffer);
                    match command {
                        Command::GetFwVersion => self.request(Command::GetConnStatusCmd, steps),
                        Command::GetConnStatusCmd => self.request(
                            Command::StartScanNetworksCmd,
                            steps,
                        ),
                        Command::StartScanNetworksCmd => {
                            self.status = Status::ScanNetworks;
                            let mut steps = steps;
                            steps.push(Step::SetAlarm(2000));
                            proof {
                                assert(steps@ =~= before + seq![Step::SetAlarm(2000)]);
                            }
                            (Ok(()), Outcome { steps, transfer: None })
                        },
                        Command::ScanNetworksCmd => (Ok(()), Outcome { steps, transfer: None }),
                    }
                },
            },
        }
    }

    fn store(&mut self, position: usize, byte: u8)
        requires
            old(self)@.wf(),
            old(self)@.read_buffer matches Some(b) ==> position < b.len(),
        ensures
            final(self)@ == old(self)@.store(position, byte),
            final(self)@.wf(),
    {
        match self.read_buffer.take() {
            Some(mut buffer) => {
                buffer.set(position, byte);
                self.read_buffer = Some(buffer);
            },
            None => {},
        }
    }

    fn received(&mut self, command: Command, position: usize, timeout: usize, byte: u8) -> (r: (
        Result<(), ErrorCode>,
        Outcome,
    ))
        requires
            old(self)@.wf(),
            position < usize::MAX,
            NinaW102View::stores(position, byte) ==> old(self)@.holds(position),
        ensures
            Effect::of(final(self)@, r.0, r.1) == old(self)@.received(
                command,
                position,
                timeout,
                byte,
            ),
            final(self)@.wf(),
    {
        if position == 0 {
            if byte == START_CMD || byte == ERROR_CMD {
                self.store(0, byte);
                if byte == START_CMD {
                    let ghost stored = self@;
                    let r = self.receive_byte(command, 1, TIMEOUT, Vec::new());
                    proof {
                        let e = stored.receive_byte(command, 1, TIMEOUT);
                        assert(Seq::<Step>::empty() + e.steps =~= e.steps);
                    }
                    r
                } else {
                    (Ok(()), Outcome { steps: Vec::new(), transfer: None })
                }
            } else if timeout > 0 {
                let r = self.receive_byte(command, 0, timeout - 1, Vec::new());
                proof {
                    let e = old(self)@.receive_byte(command, 0, (timeout - 1) as usize);
                    assert(Seq::<Step>::empty() + e.steps =~= e.steps);
                }
                r
            } else {
                let steps = vec![Step::CsSet];
                assert(steps@ =~= seq![Step::CsSet]);
                (Err(ErrorCode::NOACK), Outcome { steps, transfer: None })
            }
        } else {
            self.store(position, byte);
            let ghost stored = self@;
            if byte == END_CMD {
                let steps = vec![Step::CsSet, Step::SpiReleaseLow];
                assert(steps@ =~= seq![Step::CsSet, Step::SpiReleaseLow]);
                let (_, outcome) = self.process_buffer_after(command, steps);
                (Ok(()), outcome)
            } else if timeout > 0 {
                let r = self.receive_byte(command, position + 1, timeout - 1, Vec::new());
                proof {
                    let e = stored.receive_byte(
                        command,
                        (position + 1) as usize,
                        (timeout - 1) as usize,
                    );
                    assert(Seq::<Step>::empty() + e.steps =~= e.steps);
                }
                r
            } else {
                let steps = vec![Step::CsSet];
                assert(steps@ =~= seq![Step::CsSet]);
                (Err(ErrorCode::SIZE), Outcome { steps, transfer: None })
            }
        }
    }

    /// The SPI master finished a transfer and hands the buffers back; see
    /// [`NinaW102View::read_write_done`]. The answer tells how the driver
    /// fared; the SPI master has no use for it.
    ///
    /// The buffers must be as long as the driver needs them. While a byte of
    /// a reply is fetched, the index at which it is stored must lie inside
    /// the read buffer.
    pub fn read_write_done(&mut self, write_buffer: Vec<u8>, read_buffer: Option<Vec<u8>>) -> (r: (
        Result<(), ErrorCode>,
        Outcome,
    ))
        requires
            old(self)@.wf(),
            write_buffer.len() >= COMMAND_LEN,
            read_buffer matches Some(rb) ==> rb.len() >= 1,
            read_buffer matches Some(rb) ==> (old(self).status is Send || old(self).status is Idle)
                ==> rb.len() >= POS_PARAM,
            old(self).status matches Status::Receive(_, position, _) ==> position < usize::MAX,
            old(self).status matches Status::Receive(_, position, _) ==> (read_buffer matches Some(
                rb,
            ) ==> NinaW102View::stores(position, rb[0]) ==> old(self)@.holds(position)),
        ensures
            Effect::of(final(self)@, r.0, r.1) == old(self)@.read_write_done(
                write_buffer@,
                buffer_view(read_buffer),
            ),
            final(self)@.wf(),
    {
        match self.status {
            Status::Send(command) => {
                self.write_buffer = Some(write_buffer);
                match read_buffer {
                    Some(buffer) => {
                        self.read_buffer = Some(buffer);
                    },
                    None => {},
                }
                self.receive_command(command)
            },
            Status::Receive(command, position, timeout) => {
                self.status = Status::Idle;
                self.write_buffer = Some(write_buffer);
                match read_buffer {
                    Some(buffer) => {
                        let byte = buffer[0];
                        self.one_byte_read_buffer = Some(buffer);
                        self.received(command, position, timeout, byte)
                    },
                    None => (Err(ErrorCode::NOMEM), Outcome { steps: Vec::new(), transfer: None }),
                }
            },
            Status::Idle => {
                self.write_buffer = Some(write_buffer);
                match read_buffer {
                    Some(buffer) => {
                        self.read_buffer = Some(buffer);
                    },
                    None => {},
                }
                (Ok(()), Outcome { steps: Vec::new(), transfer: None })
            },
            _ => (Ok(()), Outcome { steps: Vec::new(), transfer: None }),
        }
    }

    /// The alarm fired; see [`NinaW102View::alarm`].
    pub fn alarm(&mut self) -> (outcome: Outcome)
        requires
            old(self)@.wf(),
            old(self)@.expects_alarm(),
        ensures
            Effect::of(final(self)@, Ok(()), outcome) == old(self)@.alarm(),
            final(self)@.wf(),
    {
        match self.status {
            Status::Init(InitStatus::Starting) => {
                self.status = Status::Init(InitStatus::Initialized);
                let steps = vec![Step::ResetSet, Step::SetAlarm(750)];
                assert(steps@ =~= seq![Step::ResetSet, Step::SetAlarm(750)]);
                Outcome { steps, transfer: None }
            },
            Status::Init(InitStatus::Initialized) => {
                self.status = Status::Idle;
                let steps = vec![Step::Gpio0Clear, Step::Gpio0MakeInput];
                assert(steps@ =~= seq![Step::Gpio0Clear, Step::Gpio0MakeInput]);
                let (_, outcome) = self.request(Command::GetFwVersion, steps);
                outcome
            },
            Status::StartScanNetworks => {
                let ghost e = self@.request(Command::StartScanNetworksCmd);
                let (_, outcome) = self.request(Command::StartScanNetworksCmd, Vec::new());
                proof {
                    assert(Seq::<Step>::empty() + e.steps =~= e.steps);
                }
                outcome
            },
            Status::ScanNetworks => {
                let ghost e = self@.request(Command::ScanNetworksCmd);
                let (_, outcome) = self.request(Command::ScanNetworksCmd, Vec::new());
                proof {
                    assert(Seq::<Step>::empty() + e.steps =~= e.steps);
                }
                outcome
            },
            _ => Outcome { steps: Vec::new(), transfer: None },
        }
    }
}

} // verus!
