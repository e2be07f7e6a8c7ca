pub mod address;
pub mod command;
pub mod error;
pub mod laws;
pub mod logic;
pub mod search;
pub mod temp_sensor;

pub use self::temp_sensor::TempSensor;
