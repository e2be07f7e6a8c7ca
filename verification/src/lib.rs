//! Driver logic for DS18B20 temperature sensors on a OneWire bus.
//!
//! The crate holds the protocol engine of the driver: how a raw sample is
//! decoded, how a command frame is laid out, which device a search selects,
//! and in which order the power rail and the bus are driven during a reading.
//!
//! It performs no I/O itself. [`TempSensor::read_temperature`] opens a
//! reading and names the first [`temp_sensor::temp_sensor::Action`]; the
//! caller carries each action out on its pin and bus and reports what
//! happened as a [`temp_sensor::temp_sensor::Event`] to
//! [`TempSensor::handle`], until the action is `Finish`. What holds of every
//! such exchange is proved in [`temp_sensor::laws`].

pub mod temp_sensor;

pub use temp_sensor::TempSensor;
