//! The commands by which the unlocker talks to an NVM Express controller:
//! Identify, Security Send and Security Receive.
use vstd::prelude::*;
use vstd::slice::{slice_subrange, slice_to_vec};

use crate::nvme_passthru::{CdwValidityFlags, Command};

verus! {

/// Opcode of the Identify command.
pub const IDENTIFY: u8 = 0x06;

/// The controller structure, as the Identify command selects it.
pub const IDENTIFY_CONTROLLER: u32 = 1;

/// Size of the data that Identify returns.
pub const IDENTIFY_LEN: usize = 4096;

/// Where the serial number starts in the Identify data.
pub const SERIAL_START: usize = 4;

/// Where the serial number ends in the Identify data.
pub const SERIAL_END: usize = 24;

/// Direction of a security command.
#[derive(Debug, Copy, Clone, PartialEq, Eq, Structural)]
pub enum Direction {
    Send,
    Recv,
}

impl Direction {
    /// The opcode of the security command in this direction.
    pub open spec fn spec_opcode(&self) -> u8 {
        match self {
            Direction::Send => 0x81,
            Direction::Recv => 0x82,
        }
    }

    /// The opcode of the security command in this direction.
    pub fn opcode(&self) -> (op: u8)
        ensures
            op == self.spec_opcode(),
    {
        match self {
            Direction::Send => 0x81,
            Direction::Recv => 0x82,
        }
    }
}

/// The command that asks a controller to identify itself.
pub fn identify_command() -> (command: Command)
    ensures
        command == (Command { cdw_10: IDENTIFY_CONTROLLER, ..Command::blank(IDENTIFY) }).marked(
            CdwValidityFlags::CDW_10,
        ),
{
    Command::new(IDENTIFY).cdw_10(IDENTIFY_CONTROLLER)
}

/// Double word 10 of a security command: the protocol in the top byte, the
/// ComID in the two bytes below it.
pub open spec fn security_cdw_10(protocol: u8, com_id: u16) -> u32 {
    (protocol as int * 0x100_0000 + com_id as int * 0x100) as u32
}

/// The security command for a transfer of `len` bytes: the protocol and
/// the ComID go into double word 10, the length, cut to 32 bits, into
/// double word 11.
pub fn security_command(direction: Direction, protocol: u8, com_id: u16, len: usize) -> (command:
    Command)
    ensures
        command == (Command {
            cdw_10: security_cdw_10(protocol, com_id),
            cdw_11: (len as int % 0x1_0000_0000) as u32,
            ..Command::blank(direction.spec_opcode())
        }).marked(CdwValidityFlags::CDW_10).marked(CdwValidityFlags::CDW_11),
{
    let cdw_10: u32 = protocol as u32 * 0x100_0000 + com_id as u32 * 0x100;
    let cdw_11: u32 = (len as u64 % 0x1_0000_0000) as u32;
    Command::new(direction.opcode()).cdw_10(cdw_10).cdw_11(cdw_11)
}

/// The serial number of a controller: bytes 4 to 23 of its Identify data.
pub fn serial_number(identify: &[u8]) -> (serial: Vec<u8>)
    requires
        identify@.len() >= SERIAL_END,
    ensures
        serial@ == identify@.subrange(SERIAL_START as int, SERIAL_END as int),
{
    slice_to_vec(slice_subrange(identify, SERIAL_START, SERIAL_END))
}

} // verus!
