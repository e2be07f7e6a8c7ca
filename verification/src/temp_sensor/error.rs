use vstd::prelude::*;

verus! {

/// Why a reading, or a step on the way to one, did not succeed.
///
/// The codes are those that the transport or the pin driver reported; the
/// engine hands them on unchanged.
#[derive(Clone, Copy, Debug, PartialEq, Eq, Structural)]
pub enum SensorError {
    /// A bus reset, write or read failed with the given code.
    Transport(i32),
    /// The search ended without a device of the expected family.
    DeviceNotFound,
    /// A device answered whose family code, given here, is not the expected one.
    UnexpectedFamily(u8),
    /// The power pin could not be driven; the code is the pin driver's.
    PowerControl(i32),
}

} // verus!
