use sdio::common::{
    app_cmd, block_size, card_status, read_multiple_blocks, select_card, set_block_length, CardCapacity,
};
use sdio::device::{
    app_cmd_prefix, card_address, read_transfer, select_card_command, select_card_result,
    write_transfer, BlockTransfer,
};
use sdio::emmc::{modify_ext_csd, AccessMode};
use sdio::sd::{send_if_cond, sd_send_op_cond, set_bus_width};
use sdio::sdio::{
    cmd52_outcome, cmd52_read_command, cmd52_write_command, cmd52_write_read_command, cmd53_split,
    disabled_functions, enable_interrupts_command, functions_ready, interrupt_enable_value,
    io_send_op_cond, set_block_size_commands, Cmd52, Cmd53BlockRead, Cmd53ByteWrite, SdioResponse,
};
use sdio::spi::{command_frame, crc7, pack_response, poll, response_data_bytes, write_accepted, PollOutcome, SpiWait};
use sdio::{BlockCommand, ByteCommand, Command, MmcError, ResponseLen, R1, R5};

#[test]
fn crc7_of_known_commands() {
    // CMD0 with argument 0 ends in 0x95; CMD8 with 0x1AA ends in 0x87.
    assert_eq!(command_frame(0, 0), [0x40, 0, 0, 0, 0, 0x95]);
    assert_eq!(command_frame(8, 0x1AA), [0x48, 0x00, 0x00, 0x01, 0xAA, 0x87]);
    // CMD55 with argument 0: 0x65
    assert_eq!(command_frame(55, 0)[5], 0x65);
    // ACMD41 with HCS: 0x77
    assert_eq!(command_frame(41, 0x4000_0000)[5], 0x77);
    assert_eq!(crc7(0x40_0000_0000), 0x95);
}

#[test]
fn command_frame_keeps_six_index_bits() {
    let f = command_frame(0xFF, 0x1234_5678);
    assert_eq!(&f[..5], &[0x7F, 0x12, 0x34, 0x56, 0x78]);
    assert_eq!(f[5] & 1, 1);
}

#[test]
fn response_lengths_in_spi_mode() {
    assert_eq!(response_data_bytes(ResponseLen::Zero), 0);
    assert_eq!(response_data_bytes(ResponseLen::R48), 4);
    assert_eq!(response_data_bytes(ResponseLen::R136), 15);
}

#[test]
fn pack_response_big_endian_words() {
    let w = pack_response(&[0x01, 0x02, 0x03, 0x04, 0x05]);
    assert_eq!(w, [0x0102_0304, 0x05, 0, 0]);
    let bytes: Vec<u8> = (1..=16).collect();
    let w = pack_response(&bytes);
    assert_eq!(w, [0x0102_0304, 0x0506_0708, 0x090A_0B0C, 0x0D0E_0F10]);
    assert_eq!(pack_response(&[]), [0, 0, 0, 0]);
}

#[test]
fn spi_waits() {
    assert!(matches!(poll(SpiWait::Response, 0x01, 0), PollOutcome::Found));
    assert!(matches!(poll(SpiWait::Response, 0xFF, 6), PollOutcome::Again));
    assert!(matches!(poll(SpiWait::Response, 0xFF, 7), PollOutcome::GiveUp(MmcError::Timeout)));
    assert!(matches!(poll(SpiWait::NotBusy, 0x00, 65534), PollOutcome::Again));
    assert!(matches!(poll(SpiWait::NotBusy, 0x00, 65535), PollOutcome::GiveUp(MmcError::Busy)));
    assert!(matches!(poll(SpiWait::NotBusy, 0xFF, 65535), PollOutcome::Found));
    assert!(matches!(poll(SpiWait::DataToken, 0xFE, 3), PollOutcome::Found));
    assert!(matches!(poll(SpiWait::DataToken, 0xFF, 65535), PollOutcome::GiveUp(MmcError::Timeout)));
}

#[test]
fn data_response_token() {
    assert!(write_accepted(0xE5));
    assert!(write_accepted(0x05));
    assert!(!write_accepted(0x0B));
    assert!(!write_accepted(0x0D));
}

#[test]
fn command_arguments() {
    assert_eq!(send_if_cond(1, 0xAA).arg(), 0x1AA);
    assert_eq!(app_cmd(0x1234).arg(), 0x1234_0000);
    assert_eq!(select_card(0x1234).arg(), 0x1234_0000);
    assert_eq!(card_status(0x1234, false).arg(), 0x1234_0000);
    assert_eq!(card_status(0x1234, true).arg(), 0x1234_8000);
    assert_eq!(set_block_length(512).arg(), 512);
    assert_eq!(set_bus_width(true).arg(), 2);
    assert_eq!(set_bus_width(false).arg(), 0);
    assert_eq!(sd_send_op_cond(true, false, true, 0x1FF).arg(), 0x41FF_8000);
    assert_eq!(modify_ext_csd(AccessMode::WriteByte, 183, 2).arg(), 0x03B7_0200);
    assert_eq!(io_send_op_cond(true, 0x1FF).arg(), 0x01FF_8000);
    assert_eq!(read_multiple_blocks::<512>(0x10, 3).arg(), 0x10);
    assert_eq!(read_multiple_blocks::<512>(0x10, 3).block_count(), 3);
    assert_eq!(read_multiple_blocks::<512>(0x10, 3).block_size().len(), 512);
    assert_eq!(app_cmd(0x1234).index(), 55);
}

#[test]
fn cmd52_and_cmd53_arguments() {
    assert_eq!(cmd52_read_command(0, 0x08).arg(), 0x0000_1000);
    assert_eq!(cmd52_write_command(1, 0x110, 0x40).arg(), 0x9002_2040);
    assert_eq!(cmd52_write_read_command(1, 0x110, 0x40).arg(), 0x9802_2040);
    // the data byte is not sent with a read
    assert_eq!(Cmd52 { write: false, function: 0, raw: false, addr: 0x08, data: 0x55 }.arg(), 0x1000);
    let blocks = Cmd53BlockRead::<64> { function: 1, increment: true, addr: 0x1000, blocks: 4 };
    assert_eq!(blocks.arg(), 0x1C20_0004);
    assert_eq!(blocks.block_size().len(), 64);
    let bytes = Cmd53ByteWrite { function: 2, increment: false, addr: 0x20, len: 12 };
    assert_eq!(bytes.arg(), 0xA000_400C);
    assert_eq!(bytes.byte_count(), 12);
}

#[test]
fn cmd52_outcome_reports_flag_errors() {
    assert!(matches!(cmd52_outcome(&R5 { flags: 0x10, data: 0x42 }), Ok(0x42)));
    assert!(matches!(cmd52_outcome(&R5 { flags: 0x80, data: 0 }), Err(MmcError::Crc)));
    assert!(matches!(cmd52_outcome(&R5 { flags: 0x40, data: 0 }), Err(MmcError::IllegalCommand)));
    assert!(matches!(cmd52_outcome(&R5 { flags: 0x20, data: 0 }), Err(MmcError::Io)));
    assert!(matches!(cmd52_outcome(&R5 { flags: 0x02, data: 0 }), Err(MmcError::Io)));
    assert!(matches!(cmd52_outcome(&R5 { flags: 0x01, data: 0 }), Err(MmcError::Io)));
    assert!(R5 { flags: 0x01, data: 0 }.is_error());
    assert!(!R5 { flags: 0x1C, data: 0 }.is_error());
    let resp = SdioResponse::from(R5 { flags: 0x10, data: 0x42 });
    assert_eq!((resp.data, resp.flags), (0x42, 0x10));
}

#[test]
fn function_register_values() {
    assert_eq!(disabled_functions(0x0E, 0x06), 0x08);
    assert_eq!(interrupt_enable_value(0x06), 0x07);
    assert_eq!(enable_interrupts_command(0x02).data, 0x03);
    assert_eq!(enable_interrupts_command(0x02).addr, 0x04);
    assert!(functions_ready(0x07, 0x06));
    assert!(!functions_ready(0x04, 0x06));
    let (lo, hi) = set_block_size_commands(1, 0x0200);
    assert_eq!((lo.addr, lo.data), (0x110, 0x00));
    assert_eq!((hi.addr, hi.data), (0x111, 0x02));
    assert!(lo.write && hi.write);
}

#[test]
fn cmd53_split_blocks_then_bytes() {
    let s = cmd53_split(64, 0x1000, 200);
    assert_eq!(s.blocks, Some((3, 0x1000)));
    assert_eq!(s.bytes, Some((8, 0x1000 + 192)));
    let s = cmd53_split(64, 0x1000, 128);
    assert_eq!(s.blocks, Some((2, 0x1000)));
    assert_eq!(s.bytes, None);
    let s = cmd53_split(64, 0x1000, 10);
    assert_eq!(s.blocks, None);
    assert_eq!(s.bytes, Some((10, 0x1000)));
    let s = cmd53_split(64, 0x1000, 0);
    assert_eq!(s.blocks, None);
    assert_eq!(s.bytes, None);
}

#[test]
fn block_addresses_by_capacity() {
    assert_eq!(card_address::<512>(CardCapacity::StandardCapacity, 3), 1536);
    assert_eq!(card_address::<512>(CardCapacity::HighCapacity, 3), 3);
    let (c16, t) = read_transfer::<512>(CardCapacity::StandardCapacity, 2, 1);
    assert_eq!(c16.block_len, 512);
    assert!(matches!(t, BlockTransfer::ReadSingle(c) if c.addr == 1024));
    let (_, t) = read_transfer::<512>(CardCapacity::HighCapacity, 2, 3);
    assert!(matches!(t, BlockTransfer::ReadMultiple(c) if c.addr == 2 && c.blocks == 3));
    let (_, t) = write_transfer::<512>(CardCapacity::HighCapacity, 7, 1);
    assert!(matches!(t, BlockTransfer::WriteSingle(c) if c.addr == 7));
    let (c16, t) = write_transfer::<1024>(CardCapacity::StandardCapacity, 1, 2);
    assert_eq!(c16.block_len, 1024);
    assert!(matches!(t, BlockTransfer::WriteMultiple(c) if c.addr == 1024 && c.blocks == 2));
    // A block size the protocol does not name gives a zero block length.
    assert_eq!(block_size(500).len(), 0);
}

#[test]
fn select_and_app_commands() {
    assert_eq!(select_card_command(Some(7)).rca, 7);
    assert_eq!(select_card_command(None).rca, 0);
    assert!(select_card_result(None, Err(MmcError::Timeout)).is_ok());
    assert!(matches!(select_card_result(Some(7), Err(MmcError::Timeout)), Err(MmcError::Timeout)));
    assert!(matches!(select_card_result(None, Err(MmcError::Io)), Err(MmcError::Io)));
    assert!(app_cmd_prefix(None).is_none());
    assert_eq!(app_cmd_prefix(Some(9)).map(|c| c.rca), Some(9));
}

#[test]
fn r1_status_bits() {
    let r = R1 { status: (4 << 9) | 0x120 };
    assert!(r.ready_for_data());
    assert!(r.app_cmd());
    assert!(!r.is_error());
    assert!(R1 { status: 0x8000_0000 }.is_error());
}
