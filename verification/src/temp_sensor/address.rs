use vstd::prelude::*;
use crate::temp_sensor::error::SensorError;

verus! {

/// Family code of the DS18B20, the leading byte of its address.
pub const DS18B20_FAMILY_CODE: u8 = 0x28;

/// The eight bytes of a 64-bit value, least significant first.
pub open spec fn le_bytes(value: u64) -> Seq<u8> {
    seq![
        (value % 0x100) as u8,
        (value / 0x100 % 0x100) as u8,
        (value / 0x1_0000 % 0x100) as u8,
        (value / 0x100_0000 % 0x100) as u8,
        (value / 0x1_0000_0000 % 0x100) as u8,
        (value / 0x100_0000_0000 % 0x100) as u8,
        (value / 0x1_0000_0000_0000 % 0x100) as u8,
        (value / 0x100_0000_0000_0000 % 0x100) as u8,
    ]
}

/// The unique 64-bit address of a device on the bus.
///
/// On the wire it is eight bytes, least significant first: the family code,
/// six bytes of serial number, and a CRC byte. The view is that byte sequence.
#[derive(Clone, Copy, Debug, PartialEq, Eq, Structural)]
pub struct DeviceAddress {
    pub value: u64,
}

impl View for DeviceAddress {
    type V = Seq<u8>;

    open spec fn view(&self) -> Seq<u8> {
        le_bytes(self.value)
    }
}

impl DeviceAddress {
    /// The family code: the first byte of the address on the wire.
    pub open spec fn spec_family_code(&self) -> u8 {
        (self.value % 0x100) as u8
    }

    /// Whether the address belongs to a DS18B20.
    pub open spec fn spec_is_ds18b20(&self) -> bool {
        self.spec_family_code() == DS18B20_FAMILY_CODE
    }

    /// An address from its 64-bit value, as the bus search reports it.
    pub fn new(value: u64) -> (address: Self)
        ensures
            address.value == value,
    {
        DeviceAddress { value }
    }

    /// An address from its eight bytes in wire order.
    pub fn from_bytes(bytes: [u8; 8]) -> (address: Self)
        ensures
            address@ == bytes@,
    {
        let b0: u64 = bytes[0] as u64;
        let b1: u64 = bytes[1] as u64;
        let b2: u64 = bytes[2] as u64;
        let b3: u64 = bytes[3] as u64;
        let b4: u64 = bytes[4] as u64;
        let b5: u64 = bytes[5] as u64;
        let b6: u64 = bytes[6] as u64;
        let b7: u64 = bytes[7] as u64;
        let value: u64 = b0 | (b1 << 8) | (b2 << 16) | (b3 << 24) | (b4 << 32) | (b5 << 40) | (b6
            << 48) | (b7 << 56);
        assert(value % 0x100 == b0 && value / 0x100 % 0x100 == b1 && value / 0x1_0000 % 0x100
            == b2 && value / 0x100_0000 % 0x100 == b3 && value / 0x1_0000_0000 % 0x100 == b4
            && value / 0x100_0000_0000 % 0x100 == b5 && value / 0x1_0000_0000_0000 % 0x100
            == b6 && value / 0x100_0000_0000_0000 % 0x100 == b7) by (bit_vector)
            requires
                b0 < 0x100,
                b1 < 0x100,
                b2 < 0x100,
                b3 < 0x100,
                b4 < 0x100,
                b5 < 0x100,
                b6 < 0x100,
                b7 < 0x100,
                value == b0 | (b1 << 8) | (b2 << 16) | (b3 << 24) | (b4 << 32) | (b5 << 40) | (b6
                    << 48) | (b7 << 56),
        ;
        let address = DeviceAddress { value };
        assert(address@ =~= bytes@);
        address
    }

    /// The 64-bit value of the address.
    pub fn address(&self) -> (value: u64)
        ensures
            value == self.value,
    {
        self.value
    }

    /// The eight bytes of the address in wire order.
    pub fn to_le_bytes(&self) -> (bytes: [u8; 8])
        ensures
            bytes@ == self@,
    {
        let v: u64 = self.value;
        assert((v & 0xff) == v % 0x100 && ((v >> 8) & 0xff) == v / 0x100 % 0x100 && ((v >> 16)
            & 0xff) == v / 0x1_0000 % 0x100 && ((v >> 24) & 0xff) == v / 0x100_0000 % 0x100 && ((v
            >> 32) & 0xff) == v / 0x1_0000_0000 % 0x100 && ((v >> 40) & 0xff) == v
            / 0x100_0000_0000 % 0x100 && ((v >> 48) & 0xff) == v / 0x1_0000_0000_0000 % 0x100
            && ((v >> 56) & 0xff) == v / 0x100_0000_0000_0000 % 0x100) by (bit_vector);
        let bytes: [u8; 8] = [
            (v & 0xff) as u8,
            ((v >> 8) & 0xff) as u8,
            ((v >> 16) & 0xff) as u8,
            ((v >> 24) & 0xff) as u8,
            ((v >> 32) & 0xff) as u8,
            ((v >> 40) & 0xff) as u8,
            ((v >> 48) & 0xff) as u8,
            ((v >> 56) & 0xff) as u8,
        ];
        assert(bytes@ =~= self@);
        bytes
    }

    /// The family code of the device.
    #[verifier::when_used_as_spec(spec_family_code)]
    pub fn family_code(&self) -> (code: u8)
        ensures
            code == self.spec_family_code(),
            code == self@[0],
    {
        let v: u64 = self.value;
        assert((v & 0xff) == v % 0x100) by (bit_vector);
        (v & 0xff) as u8
    }

    /// Whether the device is a DS18B20.
    #[verifier::when_used_as_spec(spec_is_ds18b20)]
    pub fn is_ds18b20(&self) -> (matches: bool)
        ensures
            matches == self.spec_is_ds18b20(),
    {
        self.family_code() == DS18B20_FAMILY_CODE
    }

    /// Accepts a DS18B20 and names the family code of any other device.
    pub fn check_family(&self) -> (checked: Result<(), SensorError>)
        ensures
            checked == (if self.spec_is_ds18b20() {
                Ok::<(), SensorError>(())
            } else {
                Err::<(), SensorError>(SensorError::UnexpectedFamily(self.spec_family_code()))
            }),
    {
        let code: u8 = self.family_code();
        if code == DS18B20_FAMILY_CODE {
            Ok(())
        } else {
            Err(SensorError::UnexpectedFamily(code))
        }
    }
}

/// Two 64-bit values with the same eight bytes are the same value.
pub proof fn lemma_le_bytes_identify_value(a: u64, b: u64)
    requires
        le_bytes(a) == le_bytes(b),
    ensures
        a == b,
{
    let x = le_bytes(a);
    let y = le_bytes(b);
    assert(x[0] == y[0] && x[1] == y[1] && x[2] == y[2] && x[3] == y[3] && x[4] == y[4] && x[5]
        == y[5] && x[6] == y[6] && x[7] == y[7]);
    assert(a == b) by (bit_vector)
        requires
            a % 0x100 == b % 0x100,
            a / 0x100 % 0x100 == b / 0x100 % 0x100,
            a / 0x1_0000 % 0x100 == b / 0x1_0000 % 0x100,
            a / 0x100_0000 % 0x100 == b / 0x100_0000 % 0x100,
            a / 0x1_0000_0000 % 0x100 == b / 0x1_0000_0000 % 0x100,
            a / 0x100_0000_0000 % 0x100 == b / 0x100_0000_0000 % 0x100,
            a / 0x1_0000_0000_0000 % 0x100 == b / 0x1_0000_0000_0000 % 0x100,
            a / 0x100_0000_0000_0000 % 0x100 == b / 0x100_0000_0000_0000 % 0x100,
    ;
}

} // verus!
