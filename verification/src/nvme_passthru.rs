//! The values of the NVM Express pass-through protocol: what a command
//! holds and what the controller says of itself. The firmware's own
//! structures, which hold addresses, are the caller's.
use vstd::prelude::*;

verus! {

/// Time that a command may take, in microseconds: five seconds.
pub const NVME_GENERIC_TIMEOUT: u64 = 5_000_000;

/// Where a command goes.
#[derive(Debug)]
pub enum SendTarget {
    Controller,
    Namespace(NamespaceId),
    AllNamespaces,
}

impl SendTarget {
    /// The namespace number that addresses the target: 0 for the
    /// controller, all ones for every namespace.
    pub open spec fn spec_to_u32(&self) -> u32 {
        match self {
            SendTarget::Controller => 0,
            SendTarget::Namespace(id) => id@,
            SendTarget::AllNamespaces => 0xFFFF_FFFF,
        }
    }

    /// The namespace number that addresses the target.
    pub fn to_u32(&self) -> (id: u32)
        ensures
            id == self.spec_to_u32(),
    {
        match self {
            SendTarget::Controller => 0,
            SendTarget::Namespace(id) => id.to_u32(),
            SendTarget::AllNamespaces => 0xFFFF_FFFF,
        }
    }
}

/// Queue that a command is put on.
#[derive(Debug, Copy, Clone, PartialEq, Eq, Structural)]
pub struct QueueType(pub u8);

impl QueueType {
    pub const ADMIN: u8 = 0;

    pub const IO: u8 = 1;
}

/// What the pass-through protocol says of its controller.
#[derive(Debug, Copy, Clone, PartialEq, Eq, Structural)]
pub struct Attributes {
    pub bits: u32,
}

impl Attributes {
    pub const PHYSICAL: u32 = 0x01;

    pub const LOGICAL: u32 = 0x02;

    pub const NONBLOCKIO: u32 = 0x04;

    pub const CMD_SET_NVM: u32 = 0x08;

    /// Every flag of `flags` is set.
    pub open spec fn has(&self, flags: u32) -> bool {
        self.bits & flags == flags
    }

    /// Whether every flag of `flags` is set.
    pub fn contains(&self, flags: u32) -> (b: bool)
        ensures
            b == self.has(flags),
    {
        self.bits & flags == flags
    }
}

/// Version of the NVM Express specification that a controller follows.
#[derive(Debug, Copy, Clone)]
pub struct Version {
    pub data: [u8; 4],
}

impl Version {
    /// The major version: the first two bytes, big-endian.
    pub fn major(&self) -> (v: u16)
        ensures
            v == self.data@[0] * 256 + self.data@[1],
    {
        self.data[0] as u16 * 256 + self.data[1] as u16
    }

    /// The minor version: the third byte.
    pub fn minor(&self) -> (v: u8)
        ensures
            v == self.data@[2],
    {
        self.data[2]
    }

    /// The tertiary version: the fourth byte.
    pub fn tertiary(&self) -> (v: u8)
        ensures
            v == self.data@[3],
    {
        self.data[3]
    }
}

/// Mode of the pass-through protocol.
#[derive(Debug, Copy, Clone)]
pub struct Mode {
    pub attributes: Attributes,
    pub io_align: u32,
    pub version: Version,
}

/// Number of a namespace of a controller. Zero and all ones are no
/// namespace numbers.
#[derive(Debug, Copy, Clone, PartialEq, Eq, Structural)]
pub struct NamespaceId(u32);

impl View for NamespaceId {
    type V = u32;

    closed spec fn view(&self) -> u32 {
        self.0
    }
}

impl NamespaceId {
    /// The namespace with the given number.
    pub fn new(id: u32) -> (namespace: NamespaceId)
        requires
            id != 0,
            id != 0xFFFF_FFFF,
        ensures
            namespace@ == id,
    {
        NamespaceId(id)
    }

    /// The number of the namespace.
    pub fn to_u32(self) -> (id: u32)
        ensures
            id == self@,
    {
        self.0
    }
}

/// First double word of a command: the opcode and the fused-operation bits.
#[derive(Debug, Copy, Clone, PartialEq, Eq, Structural)]
pub struct Cdw0 {
    pub opcode: u8,
    pub fused: u8,
}

/// Flags that say which of the optional double words of a command count.
#[derive(Debug, Copy, Clone, PartialEq, Eq, Structural)]
pub struct CdwValidityFlags {
    pub bits: u8,
}

impl CdwValidityFlags {
    pub const CDW_2: u8 = 0x01;

    pub const CDW_3: u8 = 0x02;

    pub const CDW_10: u8 = 0x04;

    pub const CDW_11: u8 = 0x08;

    pub const CDW_12: u8 = 0x10;

    pub const CDW_13: u8 = 0x20;

    pub const CDW_14: u8 = 0x40;

    pub const CDW_15: u8 = 0x80;
}

/// An NVM Express command.
#[derive(Debug, Copy, Clone, PartialEq, Eq, Structural)]
pub struct Command {
    pub cdw_0: Cdw0,
    pub flags: CdwValidityFlags,
    pub nsid: u32,
    pub cdw_2: u32,
    pub cdw_3: u32,
    pub cdw_10: u32,
    pub cdw_11: u32,
    pub cdw_12: u32,
    pub cdw_13: u32,
    pub cdw_14: u32,
    pub cdw_15: u32,
}

impl Command {
    /// The command with the given opcode and nothing else set.
    pub open spec fn blank(opcode: u8) -> Command {
        Command {
            cdw_0: Cdw0 { opcode, fused: 0 },
            flags: CdwValidityFlags { bits: 0 },
            nsid: 0,
            cdw_2: 0,
            cdw_3: 0,
            cdw_10: 0,
            cdw_11: 0,
            cdw_12: 0,
            cdw_13: 0,
            cdw_14: 0,
            cdw_15: 0,
        }
    }

    /// The command with one more double word marked as counting.
    pub open spec fn marked(self, flag: u8) -> Command {
        Command { flags: CdwValidityFlags { bits: self.flags.bits | flag }, ..self }
    }

    /// The command with the given opcode and nothing else set.
    pub fn new(opcode: u8) -> (command: Command)
        ensures
            command == Command::blank(opcode),
    {
        Command {
            cdw_0: Cdw0 { opcode, fused: 0 },
            flags: CdwValidityFlags { bits: 0 },
            nsid: 0,
            cdw_2: 0,
            cdw_3: 0,
            cdw_10: 0,
            cdw_11: 0,
            cdw_12: 0,
            cdw_13: 0,
            cdw_14: 0,
            cdw_15: 0,
        }
    }

    /// Marks the command as the first of a fused pair.
    pub fn fused_first(self) -> (command: Command)
        ensures
            command == (Command {
                cdw_0: Cdw0 { fused: self.cdw_0.fused | 0b1000_0000, ..self.cdw_0 },
                ..self
            }),
    {
        let mut command = self;
        command.cdw_0.fused = command.cdw_0.fused | 0b1000_0000;
        command
    }

    /// Marks the command as the second of a fused pair.
    pub fn fused_second(self) -> (command: Command)
        ensures
            command == (Command {
                cdw_0: Cdw0 { fused: self.cdw_0.fused | 0b0100_0000, ..self.cdw_0 },
                ..self
            }),
    {
        let mut command = self;
        command.cdw_0.fused = command.cdw_0.fused | 0b0100_0000;
        command
    }

    /// Addresses the command to a namespace.
    pub fn ns(self, namespace: NamespaceId) -> (command: Command)
        ensures
            command == (Command { nsid: namespace@, ..self }),
    {
        let mut command = self;
        command.nsid = namespace.to_u32();
        command
    }

    /// Sets double word 2 and marks it as counting.
    pub fn cdw_2(self, cdw_2: u32) -> (command: Command)
        ensures
            command == (Command { cdw_2, ..self }).marked(CdwValidityFlags::CDW_2),
    {
        let mut command = self;
        command.cdw_2 = cdw_2;
        command.flags.bits = command.flags.bits | CdwValidityFlags::CDW_2;
        command
    }

    /// Sets double word 3 and marks it as counting.
    pub fn cdw_3(self, cdw_3: u32) -> (command: Command)
        ensures
            command == (Command { cdw_3, ..self }).marked(CdwValidityFlags::CDW_3),
    {
        let mut command = self;
        command.cdw_3 = cdw_3;
        command.flags.bits = command.flags.bits | CdwValidityFlags::CDW_3;
        command
    }

    /// Sets double word 10 and marks it as counting.
    pub fn cdw_10(self, cdw_10: u32) -> (command: Command)
        ensures
            command == (Command { cdw_10, ..self }).marked(CdwValidityFlags::CDW_10),
    {
        let mut command = self;
        command.cdw_10 = cdw_10;
        command.flags.bits = command.flags.bits | CdwValidityFlags::CDW_10;
        command
    }

    /// Sets double word 11 and marks it as counting.
    pub fn cdw_11(self, cdw_11: u32) -> (command: Command)
        ensures
            command == (Command { cdw_11, ..self }).marked(CdwValidityFlags::CDW_11),
    {
        let mut command = self;
        command.cdw_11 = cdw_11;
        command.flags.bits = command.flags.bits | CdwValidityFlags::CDW_11;
        command
    }

    /// Sets double word 12 and marks it as counting.
    pub fn cdw_12(self, cdw_12: u32) -> (command: Command)
        ensures
            command == (Command { cdw_12, ..self }).marked(CdwValidityFlags::CDW_12),
    {
        let mut command = self;
        command.cdw_12 = cdw_12;
        command.flags.bits = command.flags.bits | CdwValidityFlags::CDW_12;
        command
    }

    /// Sets double word 13 and marks it as counting.
    pub fn cdw_13(self, cdw_13: u32) -> (command: Command)
        ensures
            command == (Command { cdw_13, ..self }).marked(CdwValidityFlags::CDW_13),
    {
        let mut command = self;
        command.cdw_13 = cdw_13;
        command.flags.bits = command.flags.bits | CdwValidityFlags::CDW_13;
        command
    }

    /// Sets double word 14 and marks it as counting.
    pub fn cdw_14(self, cdw_14: u32) -> (command: Command)
        ensures
            command == (Command { cdw_14, ..self }).marked(CdwValidityFlags::CDW_14),
    {
        let mut command = self;
        command.cdw_14 = cdw_14;
        command.flags.bits = command.flags.bits | CdwValidityFlags::CDW_14;
        command
    }

    /// Sets double word 15 and marks it as counting.
    pub fn cdw_15(self, cdw_15: u32) -> (command: Command)
        ensures
            command == (Command { cdw_15, ..self }).marked(CdwValidityFlags::CDW_15),
    {
        let mut command = self;
        command.cdw_15 = cdw_15;
        command.flags.bits = command.flags.bits | CdwValidityFlags::CDW_15;
        command
    }
}

/// What the controller reports when a command has completed.
#[derive(Debug, Copy, Clone, PartialEq, Eq, Structural)]
pub struct NvmeCompletion {
    pub dw_0: u32,
    pub dw_1: u32,
    pub dw_2: u32,
    pub dw_3: u32,
}

impl Default for NvmeCompletion {
    fn default() -> (completion: NvmeCompletion)
        ensures
            completion == (NvmeCompletion { dw_0: 0, dw_1: 0, dw_2: 0, dw_3: 0 }),
    {
        NvmeCompletion { dw_0: 0, dw_1: 0, dw_2: 0, dw_3: 0 }
    }
}

/// A command together with what the firmware needs to pass it through:
/// the timeout in microseconds, the sizes of the two buffers, and the
/// queue.
#[derive(Debug)]
pub struct CommandPacket<'a> {
    pub timeout: u64,
    pub transfer_length: u32,
    pub metadata_length: u32,
    pub queue_type: QueueType,
    pub cmd: &'a Command,
}

/// The size of a buffer as the packet holds it: cut to 32 bits, and 0 for
/// no buffer.
pub open spec fn packet_length(len: Option<usize>) -> u32 {
    match len {
        Some(n) => (n as int % 0x1_0000_0000) as u32,
        None => 0,
    }
}

impl<'a> CommandPacket<'a> {
    /// The packet for a command and the sizes of its transfer buffer and
    /// its metadata buffer, where it has them.
    pub fn new(
        timeout: u64,
        transfer_len: Option<usize>,
        metadata_len: Option<usize>,
        queue_type: QueueType,
        cmd: &'a Command,
    ) -> (packet: CommandPacket<'a>)
        ensures
            packet.timeout == timeout,
            packet.transfer_length == packet_length(transfer_len),
            packet.metadata_length == packet_length(metadata_len),
            packet.queue_type == queue_type,
            packet.cmd == cmd,
    {
        let transfer_length: u32 = match transfer_len {
            Some(n) => (n as u64 % 0x1_0000_0000) as u32,
            None => 0,
        };
        let metadata_length: u32 = match metadata_len {
            Some(n) => (n as u64 % 0x1_0000_0000) as u32,
            None => 0,
        };
        CommandPacket { timeout, transfer_length, metadata_length, queue_type, cmd }
    }
}

} // verus!
