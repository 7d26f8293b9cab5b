use opal_uefi_greeter::nvme_device::{identify_command, security_command, serial_number};
use opal_uefi_greeter::nvme_device::{Direction, IDENTIFY_LEN};
use opal_uefi_greeter::nvme_passthru::{Attributes, CdwValidityFlags, Command, CommandPacket};
use opal_uefi_greeter::nvme_passthru::{Mode, NamespaceId, NvmeCompletion, QueueType};
use opal_uefi_greeter::nvme_passthru::{SendTarget, Version, NVME_GENERIC_TIMEOUT};

#[test]
fn version_fields() {
    let version = Version { data: [0x01, 0x04, 0x02, 0x07] };
    assert_eq!(version.major(), 0x0104);
    assert_eq!(version.minor(), 0x02);
    assert_eq!(version.tertiary(), 0x07);
    let top = Version { data: [0xFF; 4] };
    assert_eq!(top.major(), 0xFFFF);
    let mode = Mode { attributes: Attributes { bits: 0x0B }, io_align: 4, version };
    assert!(mode.attributes.contains(Attributes::PHYSICAL | Attributes::LOGICAL));
    assert!(mode.attributes.contains(Attributes::CMD_SET_NVM));
    assert!(!mode.attributes.contains(Attributes::NONBLOCKIO));
    assert_eq!(mode.io_align, 4);
}

#[test]
fn send_targets() {
    assert_eq!(SendTarget::Controller.to_u32(), 0);
    assert_eq!(SendTarget::AllNamespaces.to_u32(), 0xFFFF_FFFF);
    assert_eq!(SendTarget::Namespace(NamespaceId::new(7)).to_u32(), 7);
    assert_eq!(NamespaceId::new(0xFFFF_FFFE).to_u32(), 0xFFFF_FFFE);
    assert_eq!(QueueType::ADMIN, 0);
    assert_eq!(QueueType::IO, 1);
    assert_eq!(NVME_GENERIC_TIMEOUT, 5_000_000);
}

#[test]
fn new_command_is_blank() {
    let command = Command::new(0x06);
    assert_eq!(command.cdw_0.opcode, 0x06);
    assert_eq!(command.cdw_0.fused, 0);
    assert_eq!(command.flags.bits, 0);
    assert_eq!(command.nsid, 0);
    assert_eq!(
        [
            command.cdw_2,
            command.cdw_3,
            command.cdw_10,
            command.cdw_11,
            command.cdw_12,
            command.cdw_13,
            command.cdw_14,
            command.cdw_15
        ],
        [0; 8]
    );
}

#[test]
fn command_builders_set_field_and_flag() {
    let command = Command::new(0x02)
        .cdw_2(2)
        .cdw_3(3)
        .cdw_10(10)
        .cdw_11(11)
        .cdw_12(12)
        .cdw_13(13)
        .cdw_14(14)
        .cdw_15(15);
    assert_eq!(command.flags.bits, 0xFF);
    assert_eq!(command.cdw_2, 2);
    assert_eq!(command.cdw_3, 3);
    assert_eq!(command.cdw_10, 10);
    assert_eq!(command.cdw_11, 11);
    assert_eq!(command.cdw_12, 12);
    assert_eq!(command.cdw_13, 13);
    assert_eq!(command.cdw_14, 14);
    assert_eq!(command.cdw_15, 15);

    assert_eq!(Command::new(1).cdw_2(9).flags.bits, CdwValidityFlags::CDW_2);
    assert_eq!(Command::new(1).cdw_3(9).flags.bits, 0x02);
    assert_eq!(Command::new(1).cdw_10(9).flags.bits, 0x04);
    assert_eq!(Command::new(1).cdw_11(9).flags.bits, 0x08);
    assert_eq!(Command::new(1).cdw_12(9).flags.bits, 0x10);
    assert_eq!(Command::new(1).cdw_13(9).flags.bits, 0x20);
    assert_eq!(Command::new(1).cdw_14(9).flags.bits, 0x40);
    assert_eq!(Command::new(1).cdw_15(9).flags.bits, 0x80);
    assert_eq!(Command::new(1).cdw_10(9).cdw_10(8).flags.bits, 0x04);
    assert_eq!(Command::new(1).cdw_10(9).cdw_10(8).cdw_10, 8);
}

#[test]
fn fused_bits_and_namespace() {
    assert_eq!(Command::new(1).fused_first().cdw_0.fused, 0x80);
    assert_eq!(Command::new(1).fused_second().cdw_0.fused, 0x40);
    assert_eq!(Command::new(1).fused_first().fused_second().cdw_0.fused, 0xC0);
    let command = Command::new(1).ns(NamespaceId::new(3));
    assert_eq!(command.nsid, 3);
    assert_eq!(command.flags.bits, 0);
    assert_eq!(command.cdw_0.opcode, 1);
}

#[test]
fn command_packet_holds_the_buffer_sizes() {
    let command = Command::new(0x06);
    let packet =
        CommandPacket::new(NVME_GENERIC_TIMEOUT, Some(4096), None, QueueType(QueueType::ADMIN), &command);
    assert_eq!(packet.timeout, 5_000_000);
    assert_eq!(packet.transfer_length, 4096);
    assert_eq!(packet.metadata_length, 0);
    assert_eq!(packet.queue_type, QueueType(0));
    assert_eq!(*packet.cmd, command);
    let packet = CommandPacket::new(1, None, Some(16), QueueType(QueueType::IO), &command);
    assert_eq!(packet.transfer_length, 0);
    assert_eq!(packet.metadata_length, 16);
    assert_eq!(packet.queue_type.0, 1);
}

#[test]
fn completion_starts_at_zero() {
    assert_eq!(NvmeCompletion::default(), NvmeCompletion { dw_0: 0, dw_1: 0, dw_2: 0, dw_3: 0 });
}

#[test]
fn identify_asks_for_the_controller() {
    let command = identify_command();
    assert_eq!(command.cdw_0.opcode, 0x06);
    assert_eq!(command.cdw_10, 1);
    assert_eq!(command.flags.bits, CdwValidityFlags::CDW_10);
    assert_eq!(command.cdw_11, 0);
    assert_eq!(IDENTIFY_LEN, 4096);
}

#[test]
fn security_commands() {
    let send = security_command(Direction::Send, 0x01, 0x07FE, 84);
    assert_eq!(send.cdw_0.opcode, 0x81);
    assert_eq!(send.cdw_10, 0x0107_FE00);
    assert_eq!(send.cdw_11, 84);
    assert_eq!(send.flags.bits, CdwValidityFlags::CDW_10 | CdwValidityFlags::CDW_11);

    let recv = security_command(Direction::Recv, 0x01, 0x0001, 1024);
    assert_eq!(recv.cdw_0.opcode, 0x82);
    assert_eq!(recv.cdw_10, 0x0100_0100);
    assert_eq!(recv.cdw_11, 1024);

    let top = security_command(Direction::Recv, 0xFF, 0xFFFF, 2048);
    assert_eq!(top.cdw_10, 0xFFFF_FF00);
    assert_eq!(top.cdw_11, 2048);
    assert_eq!(Direction::Send.opcode(), 0x81);
    assert_eq!(Direction::Recv.opcode(), 0x82);
}

#[test]
fn serial_number_is_bytes_4_to_23() {
    let mut identify = vec![0u8; 4096];
    identify[0..4].copy_from_slice(&[0xDE, 0xAD, 0xBE, 0xEF]);
    identify[4..24].copy_from_slice(b"ABCD1234            ");
    identify[24] = b'M';
    assert_eq!(serial_number(&identify), b"ABCD1234            ".to_vec());
    let short: Vec<u8> = (0u8..24).collect();
    assert_eq!(serial_number(&short), (4u8..24).collect::<Vec<u8>>());
}
