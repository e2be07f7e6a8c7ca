use vstd::prelude::*;

verus! {

/// A temperature in sixteenths of a degree Celsius, the resolution of the sensor.
#[derive(Clone, Copy, Debug, PartialEq, Eq, Structural)]
pub struct Celsius {
    pub sixteenths: i16,
}

/// Lowest temperature that the sensor can report, in sixteenths: -55 degrees.
pub const MIN_SIXTEENTHS: i16 = -880;

/// Highest temperature that the sensor can report, in sixteenths: 125 degrees.
pub const MAX_SIXTEENTHS: i16 = 2000;

impl Celsius {
    /// The temperature in ten-thousandths of a degree, which is exact: a
    /// sixteenth is 625 of them.
    pub open spec fn spec_ten_thousandths(&self) -> int {
        self.sixteenths as int * 625
    }

    /// Whether the sensor can measure this temperature. A value outside the
    /// range points to a fault on the bus, not to a real temperature.
    pub open spec fn spec_in_sensor_range(&self) -> bool {
        MIN_SIXTEENTHS <= self.sixteenths <= MAX_SIXTEENTHS
    }

    /// The temperature in sixteenths of a degree.
    pub fn sixteenths(&self) -> (value: i16)
        ensures
            value == self.sixteenths,
    {
        self.sixteenths
    }

    /// The temperature in ten-thousandths of a degree.
    pub fn ten_thousandths(&self) -> (value: i32)
        ensures
            value == self.spec_ten_thousandths(),
    {
        let sixteenths: i32 = self.sixteenths as i32;
        sixteenths * 625
    }

    /// Whether the temperature lies between -55 and 125 degrees, the limits of the sensor.
    #[verifier::when_used_as_spec(spec_in_sensor_range)]
    pub fn in_sensor_range(&self) -> (inside: bool)
        ensures
            inside == self.spec_in_sensor_range(),
    {
        MIN_SIXTEENTHS <= self.sixteenths && self.sixteenths <= MAX_SIXTEENTHS
    }
}

/// The signed value of the 16-bit word `msb << 8 | lsb` in two's complement.
pub open spec fn raw_sample(lsb: u8, msb: u8) -> int {
    let word = msb as int * 256 + lsb as int;
    if word >= 32768 {
        word - 65536
    } else {
        word
    }
}

/// The temperature that the two bytes of a sample stand for.
pub open spec fn decode(lsb: u8, msb: u8) -> Celsius {
    Celsius { sixteenths: raw_sample(lsb, msb) as i16 }
}

/// Decodes the temperature field of a scratchpad into sixteenths of a degree.
pub fn ds18b20_raw_to_celsius(lsb: u8, msb: u8) -> (t: Celsius)
    ensures
        t == decode(lsb, msb),
        t.sixteenths as int == raw_sample(lsb, msb),
{
    let temp_raw: i16 = ((msb as i16) << 8) | (lsb as i16);
    assert(temp_raw as int == raw_sample(lsb, msb)) by {
        assert((((msb as i16) << 8) | (lsb as i16)) as int == (if msb as int * 256 + lsb as int >= 32768 {
            msb as int * 256 + lsb as int - 65536
        } else {
            msb as int * 256 + lsb as int
        })) by (bit_vector);
    }
    Celsius { sixteenths: temp_raw }
}

/// The sample is the 16-bit word `msb << 8 | lsb` read as a signed number:
/// a set top bit of `msb` makes it negative.
pub proof fn lemma_raw_sample_is_sign_extension(lsb: u8, msb: u8)
    ensures
        raw_sample(lsb, msb) == ((((msb as u16) << 8) | (lsb as u16)) as i16) as int,
        -32768 <= raw_sample(lsb, msb) <= 32767,
        raw_sample(lsb, msb) < 0 <==> msb >= 0x80,
        decode(lsb, msb).sixteenths as int == raw_sample(lsb, msb),
{
    assert(((((msb as u16) << 8) | (lsb as u16)) as i16) as int == (if msb as int * 256 + lsb as int
        >= 32768 {
        msb as int * 256 + lsb as int - 65536
    } else {
        msb as int * 256 + lsb as int
    })) by (bit_vector);
}

} // verus!
