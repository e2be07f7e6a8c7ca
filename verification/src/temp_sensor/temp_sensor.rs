use vstd::prelude::*;
use crate::temp_sensor::address::DeviceAddress;
use crate::temp_sensor::command::{CommandFrame, CONVERT_TEMP, READ_SCRATCH};
use crate::temp_sensor::error::SensorError;
use crate::temp_sensor::logic::{decode, ds18b20_raw_to_celsius, Celsius};

verus! {

/// Time in milliseconds that the sensor is given to power up before the bus is used.
pub const POWER_SETTLE_MS: u32 = 500;

/// Time in milliseconds that a conversion at the highest resolution may take.
pub const CONVERSION_WAIT_MS: u32 = 800;

/// Number of scratchpad bytes that a reading fetches.
pub const SCRATCHPAD_LEN: usize = 9;

/// How a reading ended.
#[derive(Clone, Copy, Debug, PartialEq, Eq)]
pub struct Outcome {
    /// The temperature, or the first failure of the reading.
    pub result: Result<Celsius, SensorError>,
    /// The code with which switching the power off failed, if it did. It is
    /// given beside `result` so that it never hides an earlier failure.
    pub power_down_error: Option<i32>,
}

/// What the caller is to do next for the sensor.
#[derive(Clone, Copy, Debug, PartialEq, Eq)]
pub enum Action {
    /// Drive the power pin high.
    PowerOn,
    /// Wait for the given number of milliseconds.
    Delay(u32),
    /// Start a search for the devices on the bus.
    StartSearch,
    /// Ask the running search for its next device.
    NextDevice,
    /// Reset the bus.
    ResetBus,
    /// Write the frame to the bus.
    Write(CommandFrame),
    /// Read the scratchpad from the bus.
    ReadScratchpad,
    /// Drive the power pin low.
    PowerOff,
    /// Nothing more: the reading is over, with this outcome.
    Finish(Outcome),
}

/// What came of the action that the caller carried out last.
#[derive(Clone, Copy, Debug, PartialEq, Eq)]
pub enum Event {
    /// The action succeeded and yields no data.
    Done,
    /// The action failed with the given code.
    Failed(i32),
    /// The search found a device.
    Device(DeviceAddress),
    /// The search has no further device.
    NoMoreDevices,
    /// The bytes read from the scratchpad.
    Scratchpad([u8; 9]),
}

/// Where a reading stands: each phase but `Idle` waits for the event of one action.
#[derive(Clone, Copy, Debug, PartialEq, Eq)]
pub enum Phase {
    /// No reading is under way.
    Idle,
    /// Waits for the power pin to be driven high.
    PoweringUp,
    /// Waits for the settle time to pass.
    Settling,
    /// Waits for the search to start.
    OpeningSearch,
    /// Waits for the next device of the search.
    Searching,
    /// Waits for the bus reset that precedes the conversion command.
    ResettingForConversion,
    /// Waits for the conversion command to be written.
    StartingConversion,
    /// Waits for the conversion time to pass.
    Converting,
    /// Waits for the bus reset that precedes the read command.
    ResettingForRead,
    /// Waits for the read command to be written.
    RequestingScratchpad,
    /// Waits for the scratchpad bytes.
    ReadingScratchpad,
    /// Waits for the power pin to be driven low; holds the reading's result so far.
    PoweringDown(Result<Celsius, SensorError>),
}

impl Phase {
    /// The sensor has power and the reading has not yet begun to switch it off.
    pub open spec fn powered(&self) -> bool {
        !(self is Idle || self is PoweringUp || self is PoweringDown)
    }

    /// The phase belongs to the search for a device.
    pub open spec fn searching(&self) -> bool {
        self is OpeningSearch || self is Searching
    }

    /// The phase needs the address of the device.
    pub open spec fn addressed(&self) -> bool {
        self is ResettingForConversion || self is StartingConversion || self is Converting
            || self is ResettingForRead || self is RequestingScratchpad
            || self is ReadingScratchpad
    }

    /// Whether `event` can be the answer to the action that the phase waits for.
    pub open spec fn accepts(&self, event: Event) -> bool {
        match self {
            Phase::Idle => false,
            Phase::Settling | Phase::Converting => event is Done,
            Phase::Searching => event is Device || event is Failed || event is NoMoreDevices,
            Phase::ReadingScratchpad => event is Scratchpad || event is Failed,
            _ => event is Done || event is Failed,
        }
    }
}

/// The state of a sensor session as the contracts see it.
pub struct SensorModel {
    /// The address found by an earlier search, if any.
    pub address: Option<DeviceAddress>,
    /// Where the current reading stands.
    pub phase: Phase,
}

impl SensorModel {
    /// A cached address is that of a DS18B20; a search runs only while no
    /// address is cached; and a phase that needs the address, or holds a
    /// temperature read from the device, has one.
    pub open spec fn wf(&self) -> bool {
        &&& self.address matches Some(a) ==> a.spec_is_ds18b20()
        &&& self.phase.searching() ==> self.address is None
        &&& self.phase.addressed() ==> self.address is Some
        &&& self.phase matches Phase::PoweringDown(Ok(_)) ==> self.address is Some
    }

    /// The model of a session that has not read yet.
    pub open spec fn initial() -> SensorModel {
        SensorModel { address: None, phase: Phase::Idle }
    }

    /// The start of a reading: the power is switched on first.
    pub open spec fn begin(self) -> (SensorModel, Action) {
        (SensorModel { phase: Phase::PoweringUp, ..self }, Action::PowerOn)
    }

    /// Leaves the powered part of a reading with `result`: the power is switched off.
    pub open spec fn power_down(self, result: Result<Celsius, SensorError>) -> (
        SensorModel,
        Action,
    ) {
        (SensorModel { phase: Phase::PoweringDown(result), ..self }, Action::PowerOff)
    }

    /// Moves on to `phase` with `action`.
    pub open spec fn proceed(self, phase: Phase, action: Action) -> (SensorModel, Action) {
        (SensorModel { phase, ..self }, action)
    }

    /// The frame that sends `opcode` to the cached device.
    pub open spec fn frame(self, opcode: u8) -> CommandFrame {
        CommandFrame { address: self.address.unwrap(), opcode }
    }

    /// The next state and the next action after `event`.
    ///
    /// Only an event that the phase accepts has a meaning here; an idle
    /// session accepts none, and its step is left open.
    pub open spec fn step(self, event: Event) -> (SensorModel, Action)
        recommends
            self.phase.accepts(event),
    {
        match self.phase {
            Phase::Idle => arbitrary(),
            Phase::PoweringUp => match event {
                Event::Failed(code) => (
                    SensorModel { phase: Phase::Idle, ..self },
                    Action::Finish(
                        Outcome {
                            result: Err(SensorError::PowerControl(code)),
                            power_down_error: None,
                        },
                    ),
                ),
                _ => self.proceed(Phase::Settling, Action::Delay(POWER_SETTLE_MS)),
            },
            Phase::Settling => if self.address is Some {
                self.proceed(Phase::ResettingForConversion, Action::ResetBus)
            } else {
                self.proceed(Phase::OpeningSearch, Action::StartSearch)
            },
            Phase::OpeningSearch => match event {
                Event::Failed(code) => self.power_down(Err(SensorError::Transport(code))),
                _ => self.proceed(Phase::Searching, Action::NextDevice),
            },
            Phase::Searching => match event {
                Event::Device(found) => if found.spec_is_ds18b20() {
                    (
                        SensorModel {
                            address: Some(found),
                            phase: Phase::ResettingForConversion,
                        },
                        Action::ResetBus,
                    )
                } else {
                    self.proceed(Phase::Searching, Action::NextDevice)
                },
                Event::NoMoreDevices => self.power_down(Err(SensorError::DeviceNotFound)),
                _ => self.proceed(Phase::Searching, Action::NextDevice),
            },
            Phase::ResettingForConversion => match event {
                Event::Failed(code) => self.power_down(Err(SensorError::Transport(code))),
                _ => self.proceed(
                    Phase::StartingConversion,
                    Action::Write(self.frame(CONVERT_TEMP)),
                ),
            },
            Phase::StartingConversion => match event {
                Event::Failed(code) => self.power_down(Err(SensorError::Transport(code))),
                _ => self.proceed(Phase::Converting, Action::Delay(CONVERSION_WAIT_MS)),
            },
            Phase::Converting => self.proceed(Phase::ResettingForRead, Action::ResetBus),
            Phase::ResettingForRead => match event {
                Event::Failed(code) => self.power_down(Err(SensorError::Transport(code))),
                _ => self.proceed(
                    Phase::RequestingScratchpad,
                    Action::Write(self.frame(READ_SCRATCH)),
                ),
            },
            Phase::RequestingScratchpad => match event {
                Event::Failed(code) => self.power_down(Err(SensorError::Transport(code))),
                _ => self.proceed(Phase::ReadingScratchpad, Action::ReadScratchpad),
            },
            Phase::ReadingScratchpad => match event {
                Event::Scratchpad(bytes) => self.power_down(Ok(decode(bytes@[0], bytes@[1]))),
                Event::Failed(code) => self.power_down(Err(SensorError::Transport(code))),
                _ => arbitrary(),
            },
            Phase::PoweringDown(result) => (
                SensorModel { phase: Phase::Idle, ..self },
                Action::Finish(closing_outcome(result, event)),
            ),
        }
    }
}

/// The outcome of a reading once the power-off has been answered by `event`:
/// a failure to switch off is reported, and becomes the result only where
/// the reading had succeeded until then.
pub open spec fn closing_outcome(result: Result<Celsius, SensorError>, event: Event) -> Outcome {
    match event {
        Event::Failed(code) => Outcome {
            result: match result {
                Ok(_) => Err(SensorError::PowerControl(code)),
                Err(earlier) => Err(earlier),
            },
            power_down_error: Some(code),
        },
        _ => Outcome { result, power_down_error: None },
    }
}

/// A sensor session: the address found so far and the state of the reading
/// under way.
///
/// The session drives nothing itself. [`TempSensor::read_temperature`] opens a
/// reading and names the first action; the caller carries each action out and
/// hands its result to [`TempSensor::handle`], until the action is
/// [`Action::Finish`].
#[derive(Debug)]
pub struct TempSensor {
    device_address: Option<DeviceAddress>,
    phase: Phase,
}

impl View for TempSensor {
    type V = SensorModel;

    closed spec fn view(&self) -> SensorModel {
        SensorModel { address: self.device_address, phase: self.phase }
    }
}

impl TempSensor {
    /// A session that knows no device yet and has no reading under way.
    pub fn new() -> (sensor: Self)
        ensures
            sensor@ == SensorModel::initial(),
            sensor@.wf(),
    {
        TempSensor { device_address: None, phase: Phase::Idle }
    }

    /// The address that an earlier search found, if any.
    pub fn device_address(&self) -> (address: Option<DeviceAddress>)
        ensures
            address == self@.address,
    {
        self.device_address
    }

    /// Where the reading stands.
    pub fn phase(&self) -> (phase: Phase)
        ensures
            phase == self@.phase,
    {
        self.phase
    }

    /// Whether no reading is under way, so that one may be started.
    pub fn is_idle(&self) -> (idle: bool)
        ensures
            idle == (self@.phase is Idle),
    {
        match self.phase {
            Phase::Idle => true,
            _ => false,
        }
    }

    /// Whether `event` can answer the action that the session waits for.
    pub fn accepts(&self, event: &Event) -> (accepted: bool)
        ensures
            accepted == self@.phase.accepts(*event),
    {
        match self.phase {
            Phase::Idle => false,
            Phase::Settling | Phase::Converting => match event {
                Event::Done => true,
                _ => false,
            },
            Phase::Searching => match event {
                Event::Device(_) | Event::Failed(_) | Event::NoMoreDevices => true,
                _ => false,
            },
            Phase::ReadingScratchpad => match event {
                Event::Scratchpad(_) | Event::Failed(_) => true,
                _ => false,
            },
            _ => match event {
                Event::Done | Event::Failed(_) => true,
                _ => false,
            },
        }
    }

    /// Starts a reading. The action returned is the first of the reading; its
    /// result goes to [`TempSensor::handle`].
    pub fn read_temperature(&mut self) -> (action: Action)
        requires
            old(self)@.wf(),
            old(self)@.phase is Idle,
        ensures
            (final(self)@, action) == old(self)@.begin(),
            final(self)@.wf(),
    {
        self.phase = Phase::PoweringUp;
        Action::PowerOn
    }

    /// Takes the result of the last action and names the next one.
    pub fn handle(&mut self, event: Event) -> (action: Action)
        requires
            old(self)@.wf(),
            old(self)@.phase.accepts(event),
        ensures
            (final(self)@, action) == old(self)@.step(event),
            final(self)@.wf(),
    {
        match self.phase {
            Phase::Idle => unreached(),
            Phase::PoweringUp => match event {
                Event::Failed(code) => {
                    self.phase = Phase::Idle;
                    Action::Finish(
                        Outcome {
                            result: Err(SensorError::PowerControl(code)),
                            power_down_error: None,
                        },
                    )
                },
                _ => self.proceed(Phase::Settling, Action::Delay(POWER_SETTLE_MS)),
            },
            Phase::Settling => match self.device_address {
                Some(_) => self.proceed(Phase::ResettingForConversion, Action::ResetBus),
                None => self.proceed(Phase::OpeningSearch, Action::StartSearch),
            },
            Phase::OpeningSearch => match event {
                Event::Failed(code) => self.power_down(Err(SensorError::Transport(code))),
                _ => self.proceed(Phase::Searching, Action::NextDevice),
            },
            Phase::Searching => match event {
                Event::Device(found) => {
                    if found.is_ds18b20() {
                        self.device_address = Some(found);
                        self.proceed(Phase::ResettingForConversion, Action::ResetBus)
                    } else {
                        self.proceed(Phase::Searching, Action::NextDevice)
                    }
                },
                Event::NoMoreDevices => self.power_down(Err(SensorError::DeviceNotFound)),
                _ => self.proceed(Phase::Searching, Action::NextDevice),
            },
            Phase::ResettingForConversion => match event {
                Event::Failed(code) => self.power_down(Err(SensorError::Transport(code))),
                _ => {
                    let frame = self.frame(CONVERT_TEMP);
                    self.proceed(Phase::StartingConversion, Action::Write(frame))
                },
            },
            Phase::StartingConversion => match event {
                Event::Failed(code) => self.power_down(Err(SensorError::Transport(code))),
                _ => self.proceed(Phase::Converting, Action::Delay(CONVERSION_WAIT_MS)),
            },
            Phase::Converting => self.proceed(Phase::ResettingForRead, Action::ResetBus),
            Phase::ResettingForRead => match event {
                Event::Failed(code) => self.power_down(Err(SensorError::Transport(code))),
                _ => {
                    let frame = self.frame(READ_SCRATCH);
                    self.proceed(Phase::RequestingScratchpad, Action::Write(frame))
                },
            },
            Phase::RequestingScratchpad => match event {
                Event::Failed(code) => self.power_down(Err(SensorError::Transport(code))),
                _ => self.proceed(Phase::ReadingScratchpad, Action::ReadScratchpad),
            },
            Phase::ReadingScratchpad => match event {
                Event::Scratchpad(bytes) => {
                    let temperature = ds18b20_raw_to_celsius(bytes[0], bytes[1]);
                    self.power_down(Ok(temperature))
                },
                Event::Failed(code) => self.power_down(Err(SensorError::Transport(code))),
                _ => unreached(),
            },
            Phase::PoweringDown(result) => {
                self.phase = Phase::Idle;
                Action::Finish(close_reading(result, event))
            },
        }
    }

    fn proceed(&mut self, phase: Phase, action: Action) -> (next: Action)
        ensures
            (final(self)@, next) == old(self)@.proceed(phase, action),
    {
        self.phase = phase;
        action
    }

    fn power_down(&mut self, result: Result<Celsius, SensorError>) -> (next: Action)
        ensures
            (final(self)@, next) == old(self)@.power_down(result),
    {
        self.phase = Phase::PoweringDown(result);
        Action::PowerOff
    }

    fn frame(&self, opcode: u8) -> (frame: CommandFrame)
        requires
            self@.address is Some,
        ensures
            frame == self@.frame(opcode),
    {
        match self.device_address {
            Some(address) => CommandFrame { address, opcode },
            None => unreached(),
        }
    }
}

/// Settles the outcome of a reading from its result so far and from the
/// answer to the power-off.
pub fn close_reading(result: Result<Celsius, SensorError>, event: Event) -> (outcome: Outcome)
    ensures
        outcome == closing_outcome(result, event),
{
    match event {
        Event::Failed(code) => Outcome {
            result: match result {
                Ok(_) => Err(SensorError::PowerControl(code)),
                Err(earlier) => Err(earlier),
            },
            power_down_error: Some(code),
        },
        _ => Outcome { result, power_down_error: None },
    }
}

} // verus!
