use vstd::prelude::*;
use crate::temp_sensor::address::{lemma_le_bytes_identify_value, DeviceAddress};

verus! {

/// Addressing-mode byte that opens a frame meant for one device, named by its address.
pub const MATCH_ROM: u8 = 0x55;

/// Opcode that starts a temperature conversion.
pub const CONVERT_TEMP: u8 = 0x44;

/// Opcode that writes the scratchpad.
pub const WRITE_SCRATCH: u8 = 0x4E;

/// Opcode that reads the scratchpad.
pub const READ_SCRATCH: u8 = 0xBE;

/// Number of bytes in a command frame.
pub const FRAME_LEN: usize = 10;

/// The commands of the DS18B20 that the driver knows.
#[derive(Clone, Copy, Debug, PartialEq, Eq, Structural)]
pub enum Ds18b20Command {
    ConvertTemp,
    WriteScratch,
    ReadScratch,
}

impl Ds18b20Command {
    /// The byte that stands for the command on the wire.
    pub open spec fn spec_opcode(&self) -> u8 {
        match self {
            Ds18b20Command::ConvertTemp => CONVERT_TEMP,
            Ds18b20Command::WriteScratch => WRITE_SCRATCH,
            Ds18b20Command::ReadScratch => READ_SCRATCH,
        }
    }

    /// The command that a byte stands for, if it is a recognized opcode.
    pub open spec fn spec_from_opcode(opcode: u8) -> Option<Ds18b20Command> {
        if opcode == CONVERT_TEMP {
            Some(Ds18b20Command::ConvertTemp)
        } else if opcode == WRITE_SCRATCH {
            Some(Ds18b20Command::WriteScratch)
        } else if opcode == READ_SCRATCH {
            Some(Ds18b20Command::ReadScratch)
        } else {
            None
        }
    }

    /// The byte that stands for the command on the wire.
    #[verifier::when_used_as_spec(spec_opcode)]
    pub fn opcode(&self) -> (opcode: u8)
        ensures
            opcode == self.spec_opcode(),
    {
        match self {
            Ds18b20Command::ConvertTemp => CONVERT_TEMP,
            Ds18b20Command::WriteScratch => WRITE_SCRATCH,
            Ds18b20Command::ReadScratch => READ_SCRATCH,
        }
    }

    /// Recognizes an opcode: `Some` for the three known bytes, `None` for every other.
    pub fn from_opcode(opcode: u8) -> (command: Option<Ds18b20Command>)
        ensures
            command == Self::spec_from_opcode(opcode),
    {
        if opcode == CONVERT_TEMP {
            Some(Ds18b20Command::ConvertTemp)
        } else if opcode == WRITE_SCRATCH {
            Some(Ds18b20Command::WriteScratch)
        } else if opcode == READ_SCRATCH {
            Some(Ds18b20Command::ReadScratch)
        } else {
            None
        }
    }
}

/// The frame that sends `opcode` to the device at `address`: the addressing
/// byte, the eight address bytes least significant first, then the opcode.
pub open spec fn command_frame(address: DeviceAddress, opcode: u8) -> Seq<u8> {
    seq![MATCH_ROM] + address@ + seq![opcode]
}

/// Builds the frame that sends `opcode` to the device at `address`.
pub fn encode_command(address: &DeviceAddress, opcode: u8) -> (frame: [u8; 10])
    ensures
        frame@ == command_frame(*address, opcode),
{
    let a: [u8; 8] = address.to_le_bytes();
    let frame: [u8; 10] = [MATCH_ROM, a[0], a[1], a[2], a[3], a[4], a[5], a[6], a[7], opcode];
    assert(frame@ =~= command_frame(*address, opcode));
    frame
}

/// A command addressed to one device, before it is laid out as bytes.
#[derive(Clone, Copy, Debug, PartialEq, Eq, Structural)]
pub struct CommandFrame {
    pub address: DeviceAddress,
    pub opcode: u8,
}

impl View for CommandFrame {
    type V = Seq<u8>;

    open spec fn view(&self) -> Seq<u8> {
        command_frame(self.address, self.opcode)
    }
}

impl CommandFrame {
    /// The bytes to write to the bus.
    pub fn to_bytes(&self) -> (bytes: [u8; 10])
        ensures
            bytes@ == self@,
    {
        encode_command(&self.address, self.opcode)
    }
}

/// A frame is ten bytes long: it opens with the addressing byte, carries the
/// address in wire order in bytes 1 to 8, and closes with the opcode.
pub proof fn lemma_frame_shape(address: DeviceAddress, opcode: u8)
    ensures
        command_frame(address, opcode).len() == FRAME_LEN,
        command_frame(address, opcode)[0] == MATCH_ROM,
        command_frame(address, opcode).subrange(1, 9) == address@,
        command_frame(address, opcode)[1] == address.spec_family_code(),
        command_frame(address, opcode)[9] == opcode,
{
    assert(command_frame(address, opcode).subrange(1, 9) =~= address@);
}

/// Encoding is a function of the address and the opcode: the same pair gives
/// the same frame, and two pairs that differ give frames that differ.
pub proof fn lemma_frame_identifies_command(
    first: DeviceAddress,
    first_opcode: u8,
    second: DeviceAddress,
    second_opcode: u8,
)
    ensures
        command_frame(first, first_opcode) == command_frame(second, second_opcode) <==> (first
            == second && first_opcode == second_opcode),
{
    let f = command_frame(first, first_opcode);
    let g = command_frame(second, second_opcode);
    if f == g {
        lemma_frame_shape(first, first_opcode);
        lemma_frame_shape(second, second_opcode);
        assert(first@ == second@);
        lemma_le_bytes_identify_value(first.value, second.value);
    }
}

} // verus!
