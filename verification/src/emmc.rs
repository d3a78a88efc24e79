//! eMMC-specific extensions to the core SDMMC protocol.

use vstd::prelude::*;
use core::marker::PhantomData;

pub use crate::common::{BlockSize, CardCapacity, CardStatus, CID, CSD, OCR, RCA};
use crate::common::{
    all_ascii, ascii_chars, be_value, block_size, block_size_of, rca_arg, text_field, text_of,
};
use crate::{Addressable, BlockCommand, Command, ControlCommand, R1, R1b, R3};

verus! {

// ============================================================================
// eMMC COMMANDS (MMC protocol)
// ============================================================================

/// CMD1 — SEND_OP_COND (MMC only). Response: R3 (no CRC)
pub struct Cmd1 {
    pub ocr: u32,
}

impl Command for Cmd1 {
    const INDEX: u8 = 1;
    type Resp<'a> = R3;

    /// The command index, 1.
    fn index(&self) -> (r: u8)
        ensures
            r == 1,
    {
        1
    }

    fn arg(&self) -> (r: u32)
        ensures
            r == self.ocr,
    {
        self.ocr
    }
}

impl ControlCommand for Cmd1 {}

/// CMD1: Ask all cards to send their supported OCR, or become inactive if they cannot be
/// supported.
pub fn send_op_cond(ocr: u32) -> (r: Cmd1)
    ensures
        r.ocr == ocr,
{
    Cmd1 { ocr }
}

/// CMD3 — ASSIGN_RELATIVE_ADDR (RCA)
pub struct Cmd3 {
    pub address: u16,
}

impl Command for Cmd3 {
    const INDEX: u8 = 3;
    type Resp<'a> = R1;

    /// The command index, 3.
    fn index(&self) -> (r: u8)
        ensures
            r == 3,
    {
        3
    }

    fn arg(&self) -> (r: u32)
        ensures
            r == rca_arg(self.address),
    {
        let x = self.address as u32;
        proof {
            crate::common::lemma_shl16(x);
        }
        x << 16
    }
}

impl ControlCommand for Cmd3 {}

/// CMD3: Assigns relative address (RCA) to the Device
pub fn assign_relative_address(address: u16) -> (r: Cmd3)
    ensures
        r.address == address,
{
    Cmd3 { address }
}

/// CMD5 — SLEEP / AWAKE (MMC version). This is *not* SDIO CMD5.
pub struct Cmd5 {
    pub sleep: bool,
    pub rca: u16,
}

impl Command for Cmd5 {
    const INDEX: u8 = 5;
    type Resp<'a> = R1;

    /// The command index, 5.
    fn index(&self) -> (r: u8)
        ensures
            r == 5,
    {
        5
    }

    fn arg(&self) -> (r: u32)
        ensures
            r == rca_arg(self.rca) + if self.sleep { 0x8000u32 } else { 0u32 },
    {
        let s: u32 = if self.sleep { 1 } else { 0 };
        let x = self.rca as u32;
        assert(s <= 1 && x <= 0xFFFF ==> (s << 15u32) | (x << 16u32) == x * 0x10000 + s * 0x8000)
            by (bit_vector);
        (s << 15) | (x << 16)
    }
}

impl ControlCommand for Cmd5 {}

/// CMD6 — SWITCH (MMC version). Used to write EXT_CSD fields.
pub struct Cmd6 {
    /// 0 = command set, 1 = set bits, 2 = clear bits, 3 = write byte
    pub access: u8,
    /// EXT_CSD index
    pub index: u8,
    /// value to write
    pub value: u8,
    /// usually 0
    pub cmd_set: u8,
}

impl Command for Cmd6 {
    const INDEX: u8 = 6;
    type Resp<'a> = R1b;

    /// The command index, 6.
    fn index(&self) -> (r: u8)
        ensures
            r == 6,
    {
        6
    }

    fn arg(&self) -> (r: u32)
        ensures
            r == self.access as int * 0x100_0000 + self.index as int * 0x1_0000 + self.value as int
                * 0x100 + self.cmd_set as int,
    {
        let a = self.access as u32;
        let i = self.index as u32;
        let v = self.value as u32;
        let c = self.cmd_set as u32;
        assert(a <= 0xFF && i <= 0xFF && v <= 0xFF && c <= 0xFF ==> (a << 24u32) | (i << 16u32) | (v
            << 8u32) | c == a * 0x100_0000 + i * 0x1_0000 + v * 0x100 + c) by (bit_vector);
        (a << 24) | (i << 16) | (v << 8) | c
    }
}

impl ControlCommand for Cmd6 {}

/// Specifies a method of modifying a field of EXT_CSD. Used for CMD6.
/// (The 0b00 pattern corresponds to Command Set, which has different semantics.)
#[derive(Debug, Clone, Copy, PartialEq, Eq)]
pub enum AccessMode {
    /// 0b01
    SetBits,
    /// 0b10
    ClearBits,
    /// 0b11
    WriteByte,
}

/// The two-bit code of an access mode.
pub open spec fn access_mode_code(m: AccessMode) -> u8 {
    match m {
        AccessMode::SetBits => 0b01,
        AccessMode::ClearBits => 0b10,
        AccessMode::WriteByte => 0b11,
    }
}

impl AccessMode {
    /// The two-bit code of the access mode.
    pub fn code(&self) -> (r: u8)
        ensures
            r == access_mode_code(*self),
    {
        match self {
            AccessMode::SetBits => 0b01,
            AccessMode::ClearBits => 0b10,
            AccessMode::WriteByte => 0b11,
        }
    }
}

/// Uses CMD6 to modify a field of the EXT_CSD.
pub fn modify_ext_csd(access_mode: AccessMode, index: u8, value: u8) -> (r: Cmd6)
    ensures
        r.access == access_mode_code(access_mode),
        r.index == index,
        r.value == value,
        r.cmd_set == 0,
{
    Cmd6 { access: access_mode.code(), index, value, cmd_set: 0 }
}

/// CMD8 — SEND_EXT_CSD (MMC version). Reads the 512-byte EXT_CSD register.
pub struct Cmd8;

impl Command for Cmd8 {
    const INDEX: u8 = 8;
    type Resp<'b> = R1;

    /// The command index, 8.
    fn index(&self) -> (r: u8)
        ensures
            r == 8,
    {
        8
    }

    fn arg(&self) -> (r: u32)
        ensures
            r == 0,
    {
        0
    }
}

impl BlockCommand for Cmd8 {
    fn block_size(&self) -> (r: BlockSize)
        ensures
            r == block_size_of(512),
    {
        block_size(512)
    }

    fn block_count(&self) -> (r: u32)
        ensures
            r == 1,
    {
        1
    }
}

/// CMD8: Device sends its EXT_CSD register as a block of data.
pub fn send_ext_csd() -> (r: Cmd8) {
    Cmd8
}

/// CMD35 — ERASE_GROUP_START
pub struct Cmd35 {
    pub addr: u32,
}

impl Command for Cmd35 {
    const INDEX: u8 = 35;
    type Resp<'a> = R1;

    /// The command index, 35.
    fn index(&self) -> (r: u8)
        ensures
            r == 35,
    {
        35
    }

    fn arg(&self) -> (r: u32)
        ensures
            r == self.addr,
    {
        self.addr
    }
}

impl ControlCommand for Cmd35 {}

/// CMD36 — ERASE_GROUP_END
pub struct Cmd36 {
    pub addr: u32,
}

impl Command for Cmd36 {
    const INDEX: u8 = 36;
    type Resp<'a> = R1;

    /// The command index, 36.
    fn index(&self) -> (r: u8)
        ensures
            r == 36,
    {
        36
    }

    fn arg(&self) -> (r: u32)
        ensures
            r == self.addr,
    {
        self.addr
    }
}

impl ControlCommand for Cmd36 {}

/// CMD39 — FAST_IO (rarely used)
pub struct Cmd39 {
    pub addr: u8,
    pub data: u8,
}

impl Command for Cmd39 {
    const INDEX: u8 = 39;
    type Resp<'a> = R1;

    /// The command index, 39.
    fn index(&self) -> (r: u8)
        ensures
            r == 39,
    {
        39
    }

    fn arg(&self) -> (r: u32)
        ensures
            r == self.addr as int * 0x100 + self.data as int,
    {
        let a = self.addr as u32;
        let d = self.data as u32;
        assert(a <= 0xFF && d <= 0xFF ==> (a << 8u32) | d == a * 0x100 + d) by (bit_vector);
        (a << 8) | d
    }
}

impl ControlCommand for Cmd39 {}

/// CMD40 — GO_IRQ_STATE (rare)
pub struct Cmd40;

impl Command for Cmd40 {
    const INDEX: u8 = 40;
    type Resp<'a> = R1;

    /// The command index, 40.
    fn index(&self) -> (r: u8)
        ensures
            r == 40,
    {
        40
    }

    fn arg(&self) -> (r: u32)
        ensures
            r == 0,
    {
        0
    }
}

impl ControlCommand for Cmd40 {}

/// Type marker for eMMC-specific extensions.
#[derive(Clone, Copy, Default, Debug)]
pub struct EMMC;

impl OCR<EMMC> {
    /// OCR \[7\]. False for High Voltage, true for Dual voltage
    pub fn is_dual_voltage_card(&self) -> (r: bool)
        ensures
            r == (self.0 & 0x80 != 0),
    {
        self.0 & 0x0000_0080 != 0
    }

    /// OCR \[30:29\]. Access mode. Defines the addressing mode used between host and card
    ///
    /// 0b00: byte mode
    /// 0b10: sector mode
    pub fn access_mode(&self) -> (r: u8)
        ensures
            r == (self.0 / 0x2000_0000) % 4,
    {
        let v = self.0;
        assert(((v & 0x6000_0000) >> 29u32) as u8 == (v / 0x2000_0000) % 4) by (bit_vector);
        ((v & 0x6000_0000) >> 29) as u8
    }
}

/// All possible values of the CBX field of the CID register on eMMC devices.
#[derive(Debug, Copy, Clone, Eq, PartialEq)]
pub enum DeviceType {
    /// 0b00
    RemovableDevice,
    /// 0b01
    BGA,
    /// 0b10
    POP,
    /// 0b11
    Unknown,
}

impl CID<EMMC> {
    /// CBX field, indicating device type.
    pub fn device_type(&self) -> (r: DeviceType)
        ensures
            r == if self.bytes@[1] % 4 == 0 {
                DeviceType::RemovableDevice
            } else if self.bytes@[1] % 4 == 1 {
                DeviceType::BGA
            } else if self.bytes@[1] % 4 == 2 {
                DeviceType::POP
            } else {
                DeviceType::Unknown
            },
    {
        let b = self.bytes[1];
        proof {
            crate::common::lemma_u8_low_masks(b);
        }
        match b & 0x3 {
            0b00 => DeviceType::RemovableDevice,
            0b01 => DeviceType::BGA,
            0b10 => DeviceType::POP,
            _ => DeviceType::Unknown,
        }
    }

    /// OID field, indicating OEM/Application ID.
    ///
    /// The OID number is controlled, defined and allocated to an eMMC manufacturer by JEDEC.
    pub fn oem_application_id(&self) -> (r: u8)
        ensures
            r == self.bytes@[2],
    {
        self.bytes[2]
    }

    /// PNM field (bytes 3 to 8), indicating product name; `"<ERR>"` when not UTF-8.
    pub fn product_name(&self) -> (r: &str)
        ensures
            r@ == text_field(self.bytes@, 3, 9),
            all_ascii(self.bytes@.subrange(3, 9)) ==> r@ == ascii_chars(self.bytes@.subrange(3, 9)),
    {
        text_of(self.bytes.as_slice(), 3, 9)
    }

    /// PRV field, indicating product revision.
    ///
    /// The return value is a (major, minor) version tuple.
    pub fn product_revision(&self) -> (r: (u8, u8))
        ensures
            r.0 == self.bytes@[9] / 16,
            r.1 == self.bytes@[9] % 16,
    {
        let b = self.bytes[9];
        proof {
            crate::common::lemma_u8_low_masks(b);
        }
        let major = (b & 0xF0) >> 4;
        let minor = b & 0x0F;
        (major, minor)
    }

    /// PSN field, indicating product serial number (CID [47:16]).
    pub fn serial(&self) -> (r: u32)
        ensures
            r == (be_value(self.bytes@) >> 16u128) as u32,
    {
        (self.inner() >> 16) as u32
    }

    /// MDT field, indicating manufacturing date.
    ///
    /// The return value is a (month, year) tuple where the month code has 1 = January and the year
    /// is an offset from either 1997 or 2013 depending on the value of `EXT_CSD_REV`.
    pub fn manufacturing_date(&self) -> (r: (u8, u8))
        ensures
            r.0 == (be_value(self.bytes@) >> 12u128) as u8 & 0xF,
            r.1 == (be_value(self.bytes@) >> 8u128) as u8 & 0xF,
    {
        let v = self.inner();
        let month = (v >> 12) as u8 & 0xF;
        let year = (v >> 8) as u8 & 0xF;
        (month, year)
    }
}

impl CSD<EMMC> {
    /// Erase size (in blocks)
    ///
    /// Minimum number of write blocks that must be erased in a single erase
    /// command: (ERASE_GRP_SIZE + 1) * (ERASE_GRP_MULT + 1)
    pub fn erase_size_blocks(&self) -> (r: u32)
        ensures
            r == (((self.0 >> 42u128) & 0x1F) + 1) * (((self.0 >> 37u128) & 0x1F) + 1),
    {
        let v = self.0;
        let erase_grp_size = (v >> 42) & 0x1F;
        let erase_grp_mult = (v >> 37) & 0x1F;
        assert(erase_grp_size <= 31 && erase_grp_mult <= 31) by (bit_vector)
            requires
                erase_grp_size == (v >> 42u128) & 0x1F,
                erase_grp_mult == (v >> 37u128) & 0x1F,
        ;
        assert((erase_grp_size + 1) * (erase_grp_mult + 1) <= 32 * 32) by (nonlinear_arith)
            requires
                erase_grp_size <= 31,
                erase_grp_mult <= 31,
        ;
        (erase_grp_size as u32 + 1) * (erase_grp_mult as u32 + 1)
    }
}

impl CardStatus<EMMC> {
    /// If set, the Device did not switch to the expected mode as requested by the SWITCH command
    pub fn switch_error(&self) -> (r: bool)
        ensures
            r == (self.0 & 0x80 != 0),
    {
        self.0 & 0x80 != 0
    }

    /// If set, one of the exception bits in field EXCEPTION_EVENTS_STATUS was set to indicate some
    /// exception has occurred.
    pub fn exception_event(&self) -> (r: bool)
        ensures
            r == (self.0 & 0x40 != 0),
    {
        self.0 & 0x40 != 0
    }
}

/// Extended Card Specific Data: the 512 EXT_CSD bytes, byte `i` at offset `i`.
///
/// Ref JEDEC 84-A43 Section 8.4
pub struct ExtCSD {
    pub inner: [u8; 512],
}

impl Clone for ExtCSD {
    fn clone(&self) -> (r: Self)
        ensures
            r == *self,
    {
        ExtCSD { inner: self.inner }
    }
}

impl Copy for ExtCSD {}

impl Default for ExtCSD {
    fn default() -> (r: Self)
        ensures
            forall|i: int| 0 <= i < 512 ==> r.inner@[i] == 0,
    {
        Self::new()
    }
}

impl ExtCSD {
    /// Create a new `ExtCSD`
    #[inline]
    pub fn new() -> (r: Self)
        ensures
            forall|i: int| 0 <= i < 512 ==> r.inner@[i] == 0,
    {
        Self { inner: [0u8; 512] }
    }

    /// Read the little-endian 32-bit word at byte offset `i * 4`.
    fn inner_word(&self, i: usize) -> (r: u32)
        requires
            i < 128,
        ensures
            r == (self.inner@[4 * i] as u32) | ((self.inner@[4 * i + 1] as u32) << 8u32) | ((
            self.inner@[4 * i + 2] as u32) << 16u32) | ((self.inner@[4 * i + 3] as u32) << 24u32),
    {
        let b = &self.inner;
        (b[i * 4] as u32) | ((b[i * 4 + 1] as u32) << 8) | ((b[i * 4 + 2] as u32) << 16) | ((b[i * 4
            + 3] as u32) << 24)
    }

    /// Read the single byte at EXT_CSD offset `i`.
    fn byte(&self, i: usize) -> (r: u8)
        requires
            i < 512,
        ensures
            r == self.inner@[i as int],
    {
        self.inner[i]
    }

    /// BOOT_INFO (byte 228)
    pub fn boot_info(&self) -> (r: u8)
        ensures
            r == self.inner@[228],
    {
        self.byte(228)
    }

    /// S_A_TIMEOUT (byte 217)
    pub fn sleep_awake_timeout(&self) -> (r: u8)
        ensures
            r == self.inner@[217],
    {
        self.byte(217)
    }

    /// SLEEP_NOTIFICATION_TIME (byte 216)
    pub fn sleep_notification_time(&self) -> (r: u8)
        ensures
            r == self.inner@[216],
    {
        self.byte(216)
    }

    /// SEC_COUNT (bytes 215:212, little-endian)
    pub fn sector_count(&self) -> (r: u32)
        ensures
            r == (self.inner@[212] as u32) | ((self.inner@[213] as u32) << 8u32) | ((
            self.inner@[214] as u32) << 16u32) | ((self.inner@[215] as u32) << 24u32),
    {
        self.inner_word(53)
    }

    /// DRIVER_STRENGTH (byte 197)
    pub fn driver_strength(&self) -> (r: u8)
        ensures
            r == self.inner@[197],
    {
        self.byte(197)
    }

    /// CARD_TYPE (byte 196)
    pub fn card_type(&self) -> (r: u8)
        ensures
            r == self.inner@[196],
    {
        self.byte(196)
    }

    /// CSD_STRUCTURE (byte 194)
    pub fn csd_structure_version(&self) -> (r: u8)
        ensures
            r == self.inner@[194],
    {
        self.byte(194)
    }

    /// EXT_CSD_REV (byte 192)
    pub fn extended_csd_revision(&self) -> (r: u8)
        ensures
            r == self.inner@[192],
    {
        self.byte(192)
    }

    /// DATA_SECTOR_SIZE (byte 61)
    pub fn data_sector_size(&self) -> (r: u8)
        ensures
            r == self.inner@[61],
    {
        self.byte(61)
    }

    /// SECURE_REMOVAL_TYPE (byte 16)
    pub fn secure_removal_type(&self) -> (r: u8)
        ensures
            r == self.inner@[16],
    {
        self.byte(16)
    }
}

/// eMMC hosts assign relative card addresses to devices; SD hosts only ever
/// retrieve RCAs from 32-bit card responses.
impl From<u16> for RCA<EMMC> {
    fn from(address: u16) -> (r: Self) {
        let x = address as u32;
        proof {
            crate::common::lemma_shl16(x);
        }
        Self(x << 16, PhantomData)
    }
}

impl vstd::std_specs::convert::FromSpecImpl<u16> for RCA<EMMC> {
    open spec fn obeys_from_spec() -> bool {
        true
    }

    open spec fn from_spec(address: u16) -> Self {
        RCA((address as u32 * 0x10000) as u32, PhantomData)
    }
}

/// An address assigned to a device reads back unchanged.
pub proof fn lemma_assigned_rca_round_trip(address: u16)
    ensures
        ({
            let r: RCA<EMMC> = vstd::std_specs::convert::FromSpec::from_spec(address);
            r.0 / 0x10000 == address
        }),
{
}

/// eMMC storage
pub struct Emmc {
    /// Operation Conditions Register
    pub ocr: OCR<EMMC>,
    /// Card ID
    pub cid: CID<EMMC>,
    /// Card Specific Data
    pub csd: CSD<EMMC>,
    /// Extended Card Specific Data
    pub ext_csd: ExtCSD,
}

impl Clone for Emmc {
    fn clone(&self) -> (r: Self)
        ensures
            r == *self,
    {
        *self
    }
}

impl Copy for Emmc {}

impl Default for Emmc {
    fn default() -> (r: Self)
        ensures
            r.ocr.0 == 0,
            r.csd.0 == 0,
    {
        Emmc { ocr: OCR::default(), cid: CID::default(), csd: CSD::default(), ext_csd: ExtCSD::new() }
    }
}

impl Emmc {
    /// Number of 512-byte sectors (EXT_CSD SEC_COUNT).
    pub fn block_count(&self) -> (r: u32)
        ensures
            r == self.ext_csd.sector_count_spec(),
    {
        self.ext_csd.sector_count()
    }

    /// App commands are not supported on eMMC.
    pub fn supports_acmd23(&self) -> (r: bool)
        ensures
            !r,
    {
        false
    }
}

impl ExtCSD {
    /// SEC_COUNT as a value.
    pub open spec fn sector_count_spec(&self) -> u32 {
        (self.inner@[212] as u32) | ((self.inner@[213] as u32) << 8u32) | ((self.inner@[214] as u32)
            << 16u32) | ((self.inner@[215] as u32) << 24u32)
    }
}

impl Addressable for Emmc {
    type Ext = EMMC;

    /// Sector (high capacity) addressing when the OCR access mode is 0b10.
    fn get_capacity(&self) -> (r: CardCapacity)
        ensures
            r == if (self.ocr.0 / 0x2000_0000) % 4 == 2 {
                CardCapacity::HighCapacity
            } else {
                CardCapacity::StandardCapacity
            },
    {
        if self.ocr.access_mode() == 0b10 {
            CardCapacity::HighCapacity
        } else {
            CardCapacity::StandardCapacity
        }
    }

    /// Size in bytes: 512 bytes per sector of SEC_COUNT.
    fn size(&self) -> (r: u64)
        ensures
            r == self.ext_csd.sector_count_spec() as int * 512,
    {
        self.block_count() as u64 * 512
    }

    /// CMD23 is mandatory on eMMC since spec v4.1
    fn supports_cmd23(&self) -> (r: bool)
        ensures
            r,
    {
        true
    }
}

} // verus!
