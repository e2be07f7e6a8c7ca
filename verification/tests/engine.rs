use simple_ds18b20_temp_sensor::temp_sensor::address::DeviceAddress;
use simple_ds18b20_temp_sensor::temp_sensor::command::CommandFrame;
use simple_ds18b20_temp_sensor::temp_sensor::error::SensorError;
use simple_ds18b20_temp_sensor::temp_sensor::logic::Celsius;
use simple_ds18b20_temp_sensor::temp_sensor::temp_sensor::{
    close_reading, Action, Event, Outcome, Phase, CONVERSION_WAIT_MS, POWER_SETTLE_MS,
    SCRATCHPAD_LEN,
};
use simple_ds18b20_temp_sensor::TempSensor;

const SENSOR: u64 = 0x9D7C_3A0F_1E64_FF28;
const SCRATCHPAD: [u8; 9] = [0x91, 0x01, 0x4B, 0x46, 0x7F, 0xFF, 0x0F, 0x10, 0x25];

/// The operations of the transport and of the power pin, as the stub counts them.
#[derive(Clone, Copy, Debug, PartialEq, Eq)]
enum Op {
    SetHigh,
    SetLow,
    StartSearch,
    Reset,
    Write,
    Read,
}

/// A transport and a power pin that answer from a script and record what they were asked.
struct Stub {
    devices: Vec<Result<u64, i32>>,
    scratchpad: [u8; 9],
    /// Fails the given occurrence (counted from 0) of the operation with the code.
    failure: Option<(Op, usize, i32)>,
    counts: Vec<(Op, usize)>,
    next_device: usize,
    pin: Vec<bool>,
    delays: Vec<u32>,
    writes: Vec<[u8; 10]>,
    searches: usize,
    lookups: usize,
    log: Vec<Action>,
}

impl Stub {
    fn new(devices: Vec<Result<u64, i32>>, scratchpad: [u8; 9]) -> Stub {
        Stub {
            devices,
            scratchpad,
            failure: None,
            counts: Vec::new(),
            next_device: 0,
            pin: Vec::new(),
            delays: Vec::new(),
            writes: Vec::new(),
            searches: 0,
            lookups: 0,
            log: Vec::new(),
        }
    }

    fn with_sensor() -> Stub {
        Stub::new(vec![Ok(SENSOR)], SCRATCHPAD)
    }

    fn failing(mut self, op: Op, occurrence: usize, code: i32) -> Stub {
        self.failure = Some((op, occurrence, code));
        self
    }

    fn attempt(&mut self, op: Op) -> Event {
        let mut seen = 0;
        let mut known = false;
        for entry in self.counts.iter_mut() {
            if entry.0 == op {
                seen = entry.1;
                entry.1 += 1;
                known = true;
            }
        }
        if !known {
            self.counts.push((op, 1));
        }
        match self.failure {
            Some((failing, occurrence, code)) if failing == op && occurrence == seen => {
                Event::Failed(code)
            }
            _ => Event::Done,
        }
    }

    fn perform(&mut self, action: Action) -> Event {
        self.log.push(action);
        match action {
            Action::PowerOn => {
                self.pin.push(true);
                self.attempt(Op::SetHigh)
            }
            Action::PowerOff => {
                self.pin.push(false);
                self.attempt(Op::SetLow)
            }
            Action::Delay(millis) => {
                self.delays.push(millis);
                Event::Done
            }
            Action::StartSearch => {
                self.searches += 1;
                self.next_device = 0;
                self.attempt(Op::StartSearch)
            }
            Action::NextDevice => {
                self.lookups += 1;
                let found = self.devices.get(self.next_device).copied();
                self.next_device += 1;
                match found {
                    Some(Ok(value)) => Event::Device(DeviceAddress::new(value)),
                    Some(Err(code)) => Event::Failed(code),
                    None => Event::NoMoreDevices,
                }
            }
            Action::ResetBus => self.attempt(Op::Reset),
            Action::Write(frame) => {
                self.writes.push(frame.to_bytes());
                self.attempt(Op::Write)
            }
            Action::ReadScratchpad => match self.attempt(Op::Read) {
                Event::Done => Event::Scratchpad(self.scratchpad),
                failed => failed,
            },
            Action::Finish(_) => unreachable!(),
        }
    }
}

/// One whole reading: what `read_temperature` of a driver over the stub does.
fn read_temperature(sensor: &mut TempSensor, stub: &mut Stub) -> Outcome {
    assert!(sensor.is_idle());
    let mut action = sensor.read_temperature();
    for _ in 0..1000 {
        if let Action::Finish(outcome) = action {
            stub.log.push(action);
            assert!(sensor.is_idle());
            return outcome;
        }
        let event = stub.perform(action);
        assert!(sensor.accepts(&event));
        action = sensor.handle(event);
    }
    panic!("the reading did not finish");
}

fn degrees(t: Celsius) -> f32 {
    f32::from(t.sixteenths()) / 16.0
}

fn frame(opcode: u8) -> [u8; 10] {
    [0x55, 0x28, 0xFF, 0x64, 0x1E, 0x0F, 0x3A, 0x7C, 0x9D, opcode]
}

#[test]
fn new_session_is_idle_and_knows_no_device() {
    let sensor = TempSensor::new();
    assert!(sensor.is_idle());
    assert_eq!(sensor.phase(), Phase::Idle);
    assert_eq!(sensor.device_address(), None);
    assert!(!sensor.accepts(&Event::Done));
    assert!(!sensor.accepts(&Event::Failed(1)));
    assert!(!sensor.accepts(&Event::NoMoreDevices));
}

#[test]
fn constants_are_the_fixed_delays() {
    assert_eq!(POWER_SETTLE_MS, 500);
    assert_eq!(CONVERSION_WAIT_MS, 800);
    assert_eq!(SCRATCHPAD_LEN, 9);
}

#[test]
fn end_to_end_reading() {
    let mut sensor = TempSensor::new();
    let mut stub = Stub::with_sensor();
    let outcome = read_temperature(&mut sensor, &mut stub);
    let temperature = outcome.result.unwrap();
    assert!((degrees(temperature) - 25.0625).abs() < 0.001);
    assert_eq!(temperature, Celsius { sixteenths: 401 });
    assert_eq!(outcome.power_down_error, None);
    assert_eq!(stub.pin, vec![true, false]);
    assert_eq!(sensor.device_address(), Some(DeviceAddress::new(SENSOR)));
}

#[test]
fn reading_follows_the_protocol_order() {
    let mut sensor = TempSensor::new();
    let mut stub = Stub::with_sensor();
    let outcome = read_temperature(&mut sensor, &mut stub);
    let address = DeviceAddress::new(SENSOR);
    assert_eq!(
        stub.log,
        vec![
            Action::PowerOn,
            Action::Delay(500),
            Action::StartSearch,
            Action::NextDevice,
            Action::ResetBus,
            Action::Write(CommandFrame { address, opcode: 0x44 }),
            Action::Delay(800),
            Action::ResetBus,
            Action::Write(CommandFrame { address, opcode: 0xBE }),
            Action::ReadScratchpad,
            Action::PowerOff,
            Action::Finish(outcome),
        ]
    );
    assert_eq!(stub.writes, vec![frame(0x44), frame(0xBE)]);
    assert_eq!(stub.delays, vec![500, 800]);
}

#[test]
fn phases_follow_the_reading() {
    let mut sensor = TempSensor::new();
    assert_eq!(sensor.read_temperature(), Action::PowerOn);
    assert_eq!(sensor.phase(), Phase::PoweringUp);
    assert!(!sensor.is_idle());
    assert!(!sensor.accepts(&Event::NoMoreDevices));
    assert_eq!(sensor.handle(Event::Done), Action::Delay(500));
    assert_eq!(sensor.phase(), Phase::Settling);
    assert!(!sensor.accepts(&Event::Failed(3)));
    assert_eq!(sensor.handle(Event::Done), Action::StartSearch);
    assert_eq!(sensor.phase(), Phase::OpeningSearch);
    assert_eq!(sensor.handle(Event::Done), Action::NextDevice);
    assert_eq!(sensor.phase(), Phase::Searching);
    assert!(!sensor.accepts(&Event::Done));
    assert!(sensor.accepts(&Event::NoMoreDevices));
    assert_eq!(sensor.handle(Event::Device(DeviceAddress::new(SENSOR))), Action::ResetBus);
    assert_eq!(sensor.phase(), Phase::ResettingForConversion);
    assert!(!sensor.accepts(&Event::Device(DeviceAddress::new(SENSOR))));
    assert!(matches!(sensor.handle(Event::Done), Action::Write(_)));
    assert_eq!(sensor.phase(), Phase::StartingConversion);
    assert_eq!(sensor.handle(Event::Done), Action::Delay(800));
    assert_eq!(sensor.phase(), Phase::Converting);
    assert_eq!(sensor.handle(Event::Done), Action::ResetBus);
    assert_eq!(sensor.phase(), Phase::ResettingForRead);
    assert!(matches!(sensor.handle(Event::Done), Action::Write(_)));
    assert_eq!(sensor.phase(), Phase::RequestingScratchpad);
    assert_eq!(sensor.handle(Event::Done), Action::ReadScratchpad);
    assert_eq!(sensor.phase(), Phase::ReadingScratchpad);
    assert!(!sensor.accepts(&Event::Done));
    assert!(sensor.accepts(&Event::Scratchpad(SCRATCHPAD)));
    assert_eq!(sensor.handle(Event::Scratchpad(SCRATCHPAD)), Action::PowerOff);
    assert_eq!(sensor.phase(), Phase::PoweringDown(Ok(Celsius { sixteenths: 401 })));
    assert!(!sensor.accepts(&Event::Scratchpad(SCRATCHPAD)));
    assert_eq!(
        sensor.handle(Event::Done),
        Action::Finish(Outcome { result: Ok(Celsius { sixteenths: 401 }), power_down_error: None })
    );
    assert_eq!(sensor.phase(), Phase::Idle);
}

#[test]
fn negative_temperature_end_to_end() {
    let mut sensor = TempSensor::new();
    let mut stub = Stub::new(vec![Ok(SENSOR)], [0x5F, 0xFF, 0, 0, 0, 0, 0, 0, 0]);
    let outcome = read_temperature(&mut sensor, &mut stub);
    assert_eq!(outcome.result, Ok(Celsius { sixteenths: -161 }));
    assert!((degrees(outcome.result.unwrap()) + 10.0625).abs() < 0.001);
}

#[test]
fn only_the_first_two_scratchpad_bytes_count() {
    let mut first = Stub::new(vec![Ok(SENSOR)], [0x91, 0x01, 0, 0, 0, 0, 0, 0, 0]);
    let mut second = Stub::new(vec![Ok(SENSOR)], [0x91, 0x01, 9, 8, 7, 6, 5, 4, 3]);
    let a = read_temperature(&mut TempSensor::new(), &mut first);
    let b = read_temperature(&mut TempSensor::new(), &mut second);
    assert_eq!(a, b);
    assert_eq!(a.result, Ok(Celsius { sixteenths: 401 }));
}

#[test]
fn second_reading_does_not_search_again() {
    let mut sensor = TempSensor::new();
    let mut stub = Stub::with_sensor();
    let first = read_temperature(&mut sensor, &mut stub);
    assert_eq!(stub.searches, 1);
    assert_eq!(stub.lookups, 1);
    let cached = sensor.device_address();
    stub.scratchpad = [0x5F, 0xFF, 0, 0, 0, 0, 0, 0, 0];
    stub.log.clear();
    let second = read_temperature(&mut sensor, &mut stub);
    assert_eq!(stub.searches, 1);
    assert_eq!(stub.lookups, 1);
    assert!(!stub.log.contains(&Action::StartSearch));
    assert!(!stub.log.contains(&Action::NextDevice));
    assert_eq!(sensor.device_address(), cached);
    assert_eq!(first.result, Ok(Celsius { sixteenths: 401 }));
    assert_eq!(second.result, Ok(Celsius { sixteenths: -161 }));
    assert_eq!(stub.writes, vec![frame(0x44), frame(0xBE), frame(0x44), frame(0xBE)]);
    assert_eq!(stub.pin, vec![true, false, true, false]);
}

#[test]
fn cached_address_survives_a_failed_reading() {
    let mut sensor = TempSensor::new();
    let mut stub = Stub::with_sensor();
    read_temperature(&mut sensor, &mut stub).result.unwrap();
    let mut broken = Stub::new(vec![], SCRATCHPAD).failing(Op::Reset, 0, -7);
    let outcome = read_temperature(&mut sensor, &mut broken);
    assert_eq!(outcome.result, Err(SensorError::Transport(-7)));
    assert_eq!(broken.searches, 0);
    assert_eq!(sensor.device_address(), Some(DeviceAddress::new(SENSOR)));
    let mut again = Stub::new(vec![], SCRATCHPAD);
    let outcome = read_temperature(&mut sensor, &mut again);
    assert_eq!(outcome.result, Ok(Celsius { sixteenths: 401 }));
    assert_eq!(again.searches, 0);
}

#[test]
fn search_is_repeated_after_device_not_found() {
    let mut sensor = TempSensor::new();
    let mut empty = Stub::new(vec![], SCRATCHPAD);
    let outcome = read_temperature(&mut sensor, &mut empty);
    assert_eq!(outcome.result, Err(SensorError::DeviceNotFound));
    assert_eq!(sensor.device_address(), None);
    let mut stub = Stub::with_sensor();
    let outcome = read_temperature(&mut sensor, &mut stub);
    assert_eq!(outcome.result, Ok(Celsius { sixteenths: 401 }));
    assert_eq!(stub.searches, 1);
}

#[test]
fn discovery_selects_the_nth_device() {
    for n in 0..5usize {
        let mut devices = Vec::new();
        for i in 0..5u64 {
            let family = if i as usize == n { 0x28 } else { 0x10 + i };
            devices.push(Ok((0xABCD_0000 + (i << 8)) | family));
        }
        let expected = DeviceAddress::new(*devices[n].as_ref().unwrap());
        let mut sensor = TempSensor::new();
        let mut stub = Stub::new(devices, SCRATCHPAD);
        let outcome = read_temperature(&mut sensor, &mut stub);
        assert_eq!(outcome.result, Ok(Celsius { sixteenths: 401 }));
        assert_eq!(sensor.device_address(), Some(expected));
        assert_eq!(stub.lookups, n + 1);
        assert_eq!(stub.writes[0][1..9], expected.to_le_bytes());
        assert_eq!(stub.writes[1][1..9], expected.to_le_bytes());
    }
}

#[test]
fn discovery_takes_the_first_of_two_sensors() {
    let mut sensor = TempSensor::new();
    let mut stub = Stub::new(vec![Ok(0x10), Ok(0x0128), Ok(0x0228)], SCRATCHPAD);
    read_temperature(&mut sensor, &mut stub).result.unwrap();
    assert_eq!(sensor.device_address(), Some(DeviceAddress::new(0x0128)));
    assert_eq!(stub.lookups, 2);
}

#[test]
fn discovery_passes_over_a_failed_lookup() {
    let mut sensor = TempSensor::new();
    let mut stub = Stub::new(vec![Err(-3), Ok(0x10), Err(-4), Ok(SENSOR)], SCRATCHPAD);
    let outcome = read_temperature(&mut sensor, &mut stub);
    assert_eq!(outcome.result, Ok(Celsius { sixteenths: 401 }));
    assert_eq!(stub.lookups, 4);
    assert_eq!(sensor.device_address(), Some(DeviceAddress::new(SENSOR)));
}

#[test]
fn device_not_found_when_no_device_matches() {
    let mut sensor = TempSensor::new();
    let mut stub = Stub::new(vec![Ok(0x10), Ok(0x2800), Ok(0x22)], SCRATCHPAD);
    let outcome = read_temperature(&mut sensor, &mut stub);
    assert_eq!(outcome.result, Err(SensorError::DeviceNotFound));
    assert_eq!(outcome.power_down_error, None);
    assert_eq!(stub.lookups, 4);
    assert_eq!(stub.pin, vec![true, false]);
    assert!(stub.writes.is_empty());
    assert_eq!(sensor.device_address(), None);
    assert_eq!(
        DeviceAddress::new(0x10).check_family(),
        Err(SensorError::UnexpectedFamily(0x10))
    );
}

#[test]
fn power_is_bracketed_on_every_outcome() {
    let cases = [
        (Op::StartSearch, 0),
        (Op::Reset, 0),
        (Op::Write, 0),
        (Op::Reset, 1),
        (Op::Write, 1),
        (Op::Read, 0),
    ];
    for (op, occurrence) in cases {
        let mut sensor = TempSensor::new();
        let mut stub = Stub::with_sensor().failing(op, occurrence, 0x107);
        let outcome = read_temperature(&mut sensor, &mut stub);
        assert_eq!(outcome.result, Err(SensorError::Transport(0x107)), "{:?} {}", op, occurrence);
        assert_eq!(outcome.power_down_error, None);
        assert_eq!(stub.pin, vec![true, false], "{:?} {}", op, occurrence);
        assert_eq!(stub.log[stub.log.len() - 2], Action::PowerOff);
        assert_eq!(stub.log[0], Action::PowerOn);
    }
    let mut stub = Stub::with_sensor();
    read_temperature(&mut TempSensor::new(), &mut stub).result.unwrap();
    assert_eq!(stub.pin, vec![true, false]);
    let mut stub = Stub::new(vec![], SCRATCHPAD);
    assert!(read_temperature(&mut TempSensor::new(), &mut stub).result.is_err());
    assert_eq!(stub.pin, vec![true, false]);
}

#[test]
fn transport_failure_stops_the_reading_where_it_happens() {
    let mut stub = Stub::with_sensor().failing(Op::Reset, 0, 5);
    read_temperature(&mut TempSensor::new(), &mut stub);
    assert!(stub.writes.is_empty());
    assert_eq!(stub.delays, vec![500]);

    let mut stub = Stub::with_sensor().failing(Op::Write, 0, 5);
    read_temperature(&mut TempSensor::new(), &mut stub);
    assert_eq!(stub.writes, vec![frame(0x44)]);
    assert_eq!(stub.delays, vec![500]);

    let mut stub = Stub::with_sensor().failing(Op::Reset, 1, 5);
    read_temperature(&mut TempSensor::new(), &mut stub);
    assert_eq!(stub.writes, vec![frame(0x44)]);
    assert_eq!(stub.delays, vec![500, 800]);

    let mut stub = Stub::with_sensor().failing(Op::Read, 0, 5);
    read_temperature(&mut TempSensor::new(), &mut stub);
    assert_eq!(stub.writes, vec![frame(0x44), frame(0xBE)]);

    let mut stub = Stub::with_sensor().failing(Op::StartSearch, 0, 5);
    let mut sensor = TempSensor::new();
    read_temperature(&mut sensor, &mut stub);
    assert_eq!(stub.lookups, 0);
    assert_eq!(sensor.device_address(), None);
}

#[test]
fn power_on_failure_ends_the_reading_at_once() {
    let mut sensor = TempSensor::new();
    let mut stub = Stub::with_sensor().failing(Op::SetHigh, 0, -1);
    let outcome = read_temperature(&mut sensor, &mut stub);
    assert_eq!(outcome.result, Err(SensorError::PowerControl(-1)));
    assert_eq!(outcome.power_down_error, None);
    assert_eq!(stub.pin, vec![true]);
    assert_eq!(stub.log.len(), 2);
    assert!(stub.delays.is_empty());
    assert_eq!(stub.searches, 0);
}

#[test]
fn power_off_failure_after_a_good_reading_is_the_error() {
    let mut sensor = TempSensor::new();
    let mut stub = Stub::with_sensor().failing(Op::SetLow, 0, 0x103);
    let outcome = read_temperature(&mut sensor, &mut stub);
    assert_eq!(outcome.result, Err(SensorError::PowerControl(0x103)));
    assert_eq!(outcome.power_down_error, Some(0x103));
    assert_eq!(stub.pin, vec![true, false]);
    assert_eq!(sensor.device_address(), Some(DeviceAddress::new(SENSOR)));
}

#[test]
fn power_off_failure_does_not_hide_the_read_failure() {
    let mut sensor = TempSensor::new();
    let mut stub = Stub::with_sensor();
    stub.failure = Some((Op::Read, 0, 0x107));
    let mut action = sensor.read_temperature();
    let mut outcome = None;
    while outcome.is_none() {
        let event = match action {
            Action::PowerOff => {
                stub.pin.push(false);
                Event::Failed(0x103)
            }
            Action::Finish(o) => {
                outcome = Some(o);
                break;
            }
            other => stub.perform(other),
        };
        assert!(sensor.accepts(&event));
        action = sensor.handle(event);
    }
    let outcome = outcome.unwrap();
    assert_eq!(outcome.result, Err(SensorError::Transport(0x107)));
    assert_eq!(outcome.power_down_error, Some(0x103));
    assert_eq!(stub.pin, vec![true, false]);
    assert!(sensor.is_idle());
}

#[test]
fn close_reading_settles_the_outcome() {
    let good = Ok(Celsius { sixteenths: 401 });
    let bad = Err(SensorError::DeviceNotFound);
    assert_eq!(close_reading(good, Event::Done), Outcome { result: good, power_down_error: None });
    assert_eq!(close_reading(bad, Event::Done), Outcome { result: bad, power_down_error: None });
    assert_eq!(
        close_reading(good, Event::Failed(9)),
        Outcome { result: Err(SensorError::PowerControl(9)), power_down_error: Some(9) }
    );
    assert_eq!(
        close_reading(bad, Event::Failed(9)),
        Outcome { result: bad, power_down_error: Some(9) }
    );
    assert_eq!(
        close_reading(Err(SensorError::Transport(4)), Event::Failed(9)),
        Outcome { result: Err(SensorError::Transport(4)), power_down_error: Some(9) }
    );
}
