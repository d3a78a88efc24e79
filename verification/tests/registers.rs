use sdio::common::{BlockSize, CSD, OCR, RCA};
use sdio::emmc::EMMC;
use sdio::sd::{SDStatus, SD};
use sdio::{BusWidth, R3, R6};
use sdio::sdio::{fbr_base, fbr_block_size_high, fbr_block_size_low, FBR_BLKSZ_HI, FBR_BLKSZ_LO};
use sdio::sd::{SDEraseDataStatus, SDSecurity, SDSpecVersion, SCR};
use sdio::emmc::ExtCSD;
use sdio::common::CurrentState;
use sdio::common::block_size;
use sdio::common::CID;
use sdio::R2;
use sdio::emmc::AccessMode;
use sdio::common::{app_cmd, card_status, select_card, send_csd, set_block_length};
use sdio::Command;

#[test]
fn test_sd_status_parse() {
    // The first 64 bytes of an ACMD13 response
    let status = SDStatus::from([
        128, 0, 0, 0, 3, 0, 0, 0, 4, 0, 144, 0, 20, 5, 26, 0, 0, 0, 0, 0, 0, 0, 0, 0, 0, 0, 0, 0,
        0, 0, 0, 0, 0, 0, 0, 0, 0, 0, 0, 0, 0, 0, 0, 0, 0, 0, 0, 0, 0, 0, 0, 0, 0, 0, 0, 0, 0, 0,
        0, 0, 0, 0, 0, 0,
    ]);

    // Bus width: (word 15 >> 30) & 3 = (0x80000000 >> 30) & 3 = 0b10 → W4
    assert!(matches!(status.bus_width(), Some(BusWidth::W4)));

    // Secure mode: bit 29 of word 15 → 0
    assert_eq!(status.secure_mode(), false);

    // SD Memory Card Type: low 16 bits of word 15 → 0x0000
    assert_eq!(status.sd_memory_card_type(), 0);

    // Protected area size: word 14 = 0x03000000
    assert_eq!(status.protected_area_size(), 0x03000000);

    // Speed class: byte 8 = 4
    assert_eq!(status.speed_class(), 4);

    // Move performance: byte 9 = 0
    assert_eq!(status.move_performance(), 0);

    // AU size: nibble in byte 10 = 0x9 → 9
    assert_eq!(status.allocation_unit_size(), 9);

    // Erase size: bytes 11–12 = 0x00 0x14 → 0x0014 = 20 AU
    assert_eq!(status.erase_size(), 20);

    // Erase timeout: bits 23:18 of word 12 = 1
    assert_eq!(status.erase_timeout(), 1);

    // Video speed class: byte 16 = 0
    assert_eq!(status.video_speed_class(), 0);

    // Application performance class: nibble in byte 22 = 0
    assert_eq!(status.app_perf_class(), 0);

    // Discard support: bit 25 of word 8 = 0
    assert_eq!(status.discard_support(), false);
}

#[test]
fn test_rca_from_r6_preserves_address_and_status() {
    // RCA must be `(rca << 16) | status`, not `(rca << 16) & status`.
    let rca: RCA<SD> = R6 { rca: 0x0007, status: 0x0500 }.into();
    assert_eq!(rca.address(), 0x0007);
    assert_eq!(rca.status(), 0x0500);
}

#[test]
fn test_block_size_len_is_byte_count_not_discriminant() {
    // The enum tag is not the byte count; only len() returns 512.
    assert_eq!(BlockSize::B512.len(), 512);
    assert_ne!(BlockSize::B512 as usize, 512);
}

#[test]
fn test_emmc_access_mode_reads_high_bits() {
    // Sector mode = OCR bits [30:29] == 0b10.
    let sector: OCR<EMMC> = R3 { ocr: 0x4000_0000 }.into();
    assert_eq!(sector.access_mode(), 0b10);

    let byte: OCR<EMMC> = R3 { ocr: 0x0000_0000 }.into();
    assert_eq!(byte.access_mode(), 0b00);
}

#[test]
fn test_emmc_erase_size_blocks_multiplies() {
    // (erase_grp_size + 1) * (erase_grp_mult + 1), not a sum.
    let csd: CSD<EMMC> = (((3u128) << 42) | (4u128 << 37)).into();
    assert_eq!(csd.erase_size_blocks(), (3 + 1) * (4 + 1));
}

#[test]
fn test_fbr_base_maps_function_to_its_own_block() {
    // FBR for function N lives at 0x100 * N (FN1 = 0x100 ... FN7 = 0x700).

    assert_eq!(fbr_base(1), 0x100);
    assert_eq!(fbr_base(2), 0x200);
    assert_eq!(fbr_base(7), 0x700);

    // Derived helpers must land inside the same function's block.
    assert_eq!(fbr_block_size_low(1), 0x100 + FBR_BLKSZ_LO);
    assert_eq!(fbr_block_size_high(1), 0x100 + FBR_BLKSZ_HI);

    // FN1's block-size register must never collide with FN2's base.
    assert!(fbr_block_size_high(1) < fbr_base(2));
}

// The SSR is 512 bits, transmitted MSB first, so byte 0 = bits [511:504] and
// byte b = bits [511-8b : 504-8b].
#[test]
fn test_sd_status_decodes_all_fields() {
    let mut raw = [0u8; 64];

    raw[0] = 0xA0; // DAT_BUS_WIDTH=0b10 (4-bit) [511:510], SECURED_MODE=1 [509]
    raw[2] = 0x12; // SD_CARD_TYPE [495:480] = 0x1234
    raw[3] = 0x34;
    raw[4] = 0xDE; // SIZE_OF_PROTECTED_AREA [479:448] = 0xDEADBEEF
    raw[5] = 0xAD;
    raw[6] = 0xBE;
    raw[7] = 0xEF;
    raw[8] = 0x04; // SPEED_CLASS [447:440] (Class 10)
    raw[9] = 0x10; // PERFORMANCE_MOVE [439:432] = 16 MB/s
    raw[10] = 0x90; // AU_SIZE [431:428] = 9 (top nibble of byte 10)
    raw[11] = 0x12; // ERASE_SIZE [423:408] = 0x1234
    raw[12] = 0x34;
    raw[13] = 0x30; // ERASE_TIMEOUT [407:402] = 0x0C (top 6 bits of byte 13)
    raw[15] = 0x1E; // VIDEO_SPEED_CLASS [391:384] = V30
    raw[21] = 0x02; // APP_PERF_CLASS [339:336] = A2 (low nibble of byte 21)
    raw[24] = 0x02; // DISCARD_SUPPORT [313] = bit 1 of byte 24

    let ssr = SDStatus::from(raw);

    assert!(matches!(ssr.bus_width(), Some(BusWidth::W4)));
    assert!(ssr.secure_mode());
    assert_eq!(ssr.sd_memory_card_type(), 0x1234);
    assert_eq!(ssr.protected_area_size(), 0xDEAD_BEEF);
    assert_eq!(ssr.speed_class(), 0x04);
    assert_eq!(ssr.move_performance(), 0x10);
    assert_eq!(ssr.allocation_unit_size(), 0x9);
    assert_eq!(ssr.erase_size(), 0x1234);
    assert_eq!(ssr.erase_timeout(), 0x0C);
    assert_eq!(ssr.video_speed_class(), 0x1E);
    assert_eq!(ssr.app_perf_class(), 0x2);
    assert!(ssr.discard_support());
}

// SCR is 64 bits, bit 63 = byte 0 bit 7.
#[test]
fn test_scr_decodes_all_fields() {

    //   SD_SPEC       [59:56] = 2, SD_SPEC3 [47] = 1 -> SDSpecVersion::V3
    //   DATA_STAT_AFTER_ERASE [55] = 0
    //   SD_SECURITY   [54:52] = 4 (SDXC)              -> byte1 = 0b0_100_0101 = 0x45
    //   SD_BUS_WIDTHS [51:48] = 5 (1-bit + 4-bit)
    //   CMD_SUPPORT   [35:32] = 0b1111 (CMD20/23/48/49/58/59) -> byte3 = 0x0F
    let scr = SCR::from([0x02, 0x45, 0x80, 0x0F, 0x00, 0x00, 0x00, 0x00]);

    assert_eq!(scr.version(), SDSpecVersion::V3);
    assert_eq!(scr.security(), SDSecurity::Unknown(4));
    assert_eq!(scr.data_after_erase(), SDEraseDataStatus::Zero);
    assert_eq!(scr.bus_widths(), 0x5);
    assert!(scr.bus_width_one());
    assert!(scr.bus_width_four());
    assert!(scr.supports_cmd20());
    assert!(scr.supports_cmd23());
    assert!(scr.supports_cmd48());
    assert!(scr.supports_cmd49());
}

// EXT_CSD is a 512-byte register; each field lives at a fixed byte offset.
// Multi-byte fields (e.g. SEC_COUNT) are little-endian.
#[test]
fn test_ext_csd_decodes_all_fields() {

    let mut raw = [0u8; 512];

    raw[16] = 0x21; // SECURE_REMOVAL_TYPE
    raw[61] = 0x01; // DATA_SECTOR_SIZE
    raw[192] = 0x08; // EXT_CSD_REV
    raw[194] = 0x02; // CSD_STRUCTURE
    raw[196] = 0x57; // CARD_TYPE
    raw[197] = 0x1F; // DRIVER_STRENGTH
    raw[212] = 0x78; // SEC_COUNT [215:212], little-endian = 0x12345678
    raw[213] = 0x56;
    raw[214] = 0x34;
    raw[215] = 0x12;
    raw[216] = 0x0A; // SLEEP_NOTIFICATION_TIME
    raw[217] = 0x13; // S_A_TIMEOUT
    raw[228] = 0x07; // BOOT_INFO

    let ext = ExtCSD { inner: raw };

    assert_eq!(ext.secure_removal_type(), 0x21);
    assert_eq!(ext.data_sector_size(), 0x01);
    assert_eq!(ext.extended_csd_revision(), 0x08);
    assert_eq!(ext.csd_structure_version(), 0x02);
    assert_eq!(ext.card_type(), 0x57);
    assert_eq!(ext.driver_strength(), 0x1F);
    assert_eq!(ext.sector_count(), 0x1234_5678);
    assert_eq!(ext.sleep_notification_time(), 0x0A);
    assert_eq!(ext.sleep_awake_timeout(), 0x13);
    assert_eq!(ext.boot_info(), 0x07);
}

#[test]
fn current_state_decodes_every_code() {
    assert_eq!(CurrentState::from(0u8), CurrentState::Error);
    assert_eq!(CurrentState::from(1u8), CurrentState::Ready);
    assert_eq!(CurrentState::from(4u8), CurrentState::Transfer);
    assert_eq!(CurrentState::from(8u8), CurrentState::Disconnected);
    assert_eq!(CurrentState::from(10u8), CurrentState::Sleep);
    assert_eq!(CurrentState::from(15u8), CurrentState::Error);
}

#[test]
fn ocr_voltage_window_spans_the_set_bits() {
    // bits 15..23 set: 2.7 V to 3.6 V
    let ocr: OCR<SD> = R3 { ocr: 0x00FF_8000 }.into();
    assert_eq!(ocr.voltage_window_mv(), Some((2700, 3600)));
    // only bit 20 (3.2–3.3 V)
    let ocr: OCR<SD> = R3 { ocr: 0x0010_0000 }.into();
    assert_eq!(ocr.voltage_window_mv(), Some((3200, 3300)));
    let none: OCR<SD> = R3 { ocr: 0 }.into();
    assert_eq!(none.voltage_window_mv(), None);
}

#[test]
fn ocr_busy_bit_is_active_low() {
    let busy: OCR<SD> = R3 { ocr: 0x40FF_8000 }.into();
    assert!(busy.is_busy());
    let ready: OCR<SD> = R3 { ocr: 0xC0FF_8000 }.into();
    assert!(!ready.is_busy());
    assert!(ready.high_capacity());
}

#[test]
fn sd_csd_v2_block_count() {
    // CSD version 2: C_SIZE at bits 69:48; capacity (C_SIZE + 1) * 512 KiB
    let c_size: u128 = 0x3B37;
    let csd: CSD<SD> = ((1u128 << 126) | (9u128 << 80) | (c_size << 48)).into();
    assert_eq!(csd.version(), 1);
    assert_eq!(csd.block_count(), (0x3B37 + 1) * 1024);
    assert_eq!(csd.card_size(), (0x3B37 + 1) * 1024 * 512);
}

#[test]
fn block_size_round_trips_powers_of_two() {
    assert_eq!(block_size(512), BlockSize::B512);
    assert_eq!(block_size(512).len(), 512);
    assert_eq!(block_size(1).len(), 1);
    assert_eq!(block_size(16384).len(), 16384);
}

#[test]
fn cid_product_name_reads_ascii() {
    // PNM occupies bytes 3..8: "SD64G"
    // R2 words come least significant first.
    let words = [
        0x7801_4A00u32,
        0x8012_3456u32,
        0x4436_3447u32, // "D64G"
        0x0353_4453u32, // MID 0x03, OID "SD", PNM first byte 'S'
    ];
    let cid: CID<SD> = R2 { words }.into();
    assert_eq!(cid.manufacturer_id(), 0x03);
    assert_eq!(cid.oem_id(), "SD");
    assert_eq!(cid.product_name(), "SD64G");
}

#[test]
fn cid_text_that_is_not_utf8_reads_err() {
    let words = [0, 0, 0xFF00_0000u32, 0x03FF_FE41u32];
    let cid: CID<SD> = R2 { words }.into();
    assert_eq!(cid.oem_id(), "<ERR>");
    assert_eq!(cid.product_name(), "<ERR>");
    let emmc: CID<EMMC> = R2 { words: [0, 0x4142_0000, 0x4344_4546, 0x1501_0047] }.into();
    assert_eq!(emmc.product_name(), "GCDEFA");
}

#[test]
fn scr_from_words_matches_scr_from_bytes() {
    let from_bytes = SCR::from([0x02, 0x45, 0x80, 0x0F, 0x12, 0x34, 0x56, 0x78]);
    let from_words: SCR = [0x1234_5678u32, 0x0245_800Fu32].into();
    assert_eq!(from_bytes.0, from_words.0);
    assert_eq!(from_words.bus_widths(), 0x5);
}

#[test]
fn emmc_assigned_rca_round_trips() {
    let rca: RCA<EMMC> = 0x0042u16.into();
    assert_eq!(rca.address(), 0x0042);
    assert_eq!(rca.0, 0x0042_0000);
}

#[test]
fn state_and_access_mode_codes() {
    assert_eq!(CurrentState::Ready.code(), 1);
    assert_eq!(CurrentState::Transfer.code(), 4);
    assert_eq!(CurrentState::Sleep.code(), 10);
    assert_eq!(CurrentState::Error.code(), 128);
    assert_eq!(CurrentState::from(CurrentState::Programming.code()), CurrentState::Programming);
    assert_eq!(AccessMode::SetBits.code(), 0b01);
    assert_eq!(AccessMode::ClearBits.code(), 0b10);
    assert_eq!(AccessMode::WriteByte.code(), 0b11);
}

#[test]
fn command_indices() {
    assert_eq!(select_card(1).index(), 7);
    assert_eq!(card_status(1, false).index(), 13);
    assert_eq!(set_block_length(512).index(), 16);
    assert_eq!(app_cmd(1).index(), 55);
    assert_eq!(send_csd(1).index(), 9);
    assert_eq!(sdio::emmc::assign_relative_address(1).index(), 3);
    assert_eq!(sdio::emmc::send_op_cond(0).index(), 1);
    assert_eq!(sdio::sd::sd_send_op_cond(true, false, false, 0x1FF).index(), 41);
    assert_eq!(sdio::sd::set_bus_width(true).index(), 6);
    assert_eq!(sdio::sdio::io_send_op_cond(false, 0x1FF).index(), 5);
    assert_eq!(sdio::sdio::io_send_op_cond(false, 0x1FF).arg(), 0x00FF_8000);
}
