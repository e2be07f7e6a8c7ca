use vstd::prelude::*;
use crate::temp_sensor::address::DeviceAddress;
use crate::temp_sensor::error::SensorError;

verus! {

/// The device at `n` is a DS18B20, and none before it in `devices` is.
pub open spec fn is_first_ds18b20(devices: Seq<DeviceAddress>, n: int) -> bool {
    &&& 0 <= n < devices.len()
    &&& devices[n].spec_is_ds18b20()
    &&& forall|j: int| 0 <= j < n ==> !(#[trigger] devices[j]).spec_is_ds18b20()
}

/// No device in `devices` is a DS18B20.
pub open spec fn has_no_ds18b20(devices: Seq<DeviceAddress>) -> bool {
    forall|j: int| 0 <= j < devices.len() ==> !(#[trigger] devices[j]).spec_is_ds18b20()
}

/// Picks the sensor among the devices that a search found, in the order in
/// which it found them: the first DS18B20. Devices of other families are
/// passed over; without a DS18B20 the answer is `DeviceNotFound`.
pub fn search_device(devices: &[DeviceAddress]) -> (selected: Result<DeviceAddress, SensorError>)
    ensures
        match selected {
            Ok(address) => exists|n: int| is_first_ds18b20(devices@, n) && address == devices@[n],
            Err(error) => error == SensorError::DeviceNotFound && has_no_ds18b20(devices@),
        },
{
    let mut i: usize = 0;
    while i < devices.len()
        invariant
            i <= devices.len(),
            forall|j: int| 0 <= j < i ==> !(#[trigger] devices@[j]).spec_is_ds18b20(),
        decreases devices.len() - i,
    {
        let candidate: DeviceAddress = devices[i];
        if candidate.is_ds18b20() {
            assert(is_first_ds18b20(devices@, i as int));
            return Ok(candidate);
        }
        i += 1;
    }
    Err(SensorError::DeviceNotFound)
}

} // verus!
