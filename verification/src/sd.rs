//! SD-specific extensions to the core SDMMC protocol.

use vstd::prelude::*;
use core::marker::PhantomData;

pub use crate::common::{BlockSize, CardCapacity, CardStatus, CID, CSD, OCR, RCA};
use crate::common::{all_ascii, ascii_chars, be_value, text_field, text_of};
use crate::{
    Addressable, BlockCommand, BusWidth, Command, ControlCommand, R1, R3, R6, R7,
};

verus! {

/// Type marker for SD-specific extensions.
#[derive(Clone, Copy, Default, Debug)]
pub struct SD;

// ============================================================================
// SD MEMORY COMMANDS
// ============================================================================

/// CMD3 — SEND_RELATIVE_ADDR (RCA)
pub struct Cmd3;

impl Command for Cmd3 {
    const INDEX: u8 = 3;
    type Resp<'a> = R6;

    /// The command index, 3.
    fn index(&self) -> (r: u8)
        ensures
            r == 3,
    {
        3
    }

    fn arg(&self) -> (r: u32)
        ensures
            r == 0,
    {
        0
    }
}

impl ControlCommand for Cmd3 {}

/// CMD3 — SEND_RELATIVE_ADDR (RCA)
pub fn send_relative_address() -> (r: Cmd3) {
    Cmd3
}

/// CMD6 — SWITCH_FUNCTION; reads the 64-byte switch status.
pub struct Cmd6 {
    pub arg: u32,
}

impl Command for Cmd6 {
    const INDEX: u8 = 6;
    type Resp<'b> = R1;

    /// The command index, 6.
    fn index(&self) -> (r: u8)
        ensures
            r == 6,
    {
        6
    }

    fn arg(&self) -> (r: u32)
        ensures
            r == self.arg,
    {
        self.arg
    }
}

impl BlockCommand for Cmd6 {
    fn block_size(&self) -> (r: BlockSize)
        ensures
            r == BlockSize::B64,
    {
        BlockSize::B64
    }

    fn block_count(&self) -> (r: u32)
        ensures
            r == 1,
    {
        1
    }
}

/// CMD6 — SWITCH_FUNCTION
pub fn cmd6(arg: u32) -> (r: Cmd6)
    ensures
        r.arg == arg,
{
    Cmd6 { arg }
}

/// CMD8 — SEND_IF_COND
pub struct Cmd8 {
    pub voltage: u8,
    pub checkpattern: u8,
}

impl Command for Cmd8 {
    const INDEX: u8 = 8;
    type Resp<'a> = R7;

    /// The command index, 8.
    fn index(&self) -> (r: u8)
        ensures
            r == 8,
    {
        8
    }

    fn arg(&self) -> (r: u32)
        ensures
            r == (self.voltage % 0x10) as int * 0x100 + self.checkpattern,
    {
        let v = self.voltage as u32;
        let c = self.checkpattern as u32;
        assert(v <= 0xFF && c <= 0xFF ==> ((v & 0xF) << 8u32) | c == (v % 0x10) * 0x100 + c)
            by (bit_vector);
        ((v & 0xF) << 8) | c
    }
}

impl ControlCommand for Cmd8 {}

/// CMD8 — SEND_IF_COND
pub fn send_if_cond(voltage: u8, checkpattern: u8) -> (r: Cmd8)
    ensures
        r.voltage == voltage,
        r.checkpattern == checkpattern,
{
    Cmd8 { voltage, checkpattern }
}

/// A card answers CMD8 by echoing the voltage it accepts and the check
/// pattern: the R7 read from the command's own argument gives back the
/// voltage (its low four bits) and the pattern.
pub proof fn lemma_if_cond_echo(voltage: u8, checkpattern: u8, arg: u32)
    requires
        arg == (voltage % 0x10) as int * 0x100 + checkpattern,
    ensures
        (arg / 0x100) % 0x10 == voltage % 0x10,
        arg % 0x100 == checkpattern,
{
}

/// CMD11 — VOLTAGE_SWITCH
pub struct Cmd11;

impl Command for Cmd11 {
    const INDEX: u8 = 11;
    type Resp<'a> = R1;

    /// The command index, 11.
    fn index(&self) -> (r: u8)
        ensures
            r == 11,
    {
        11
    }

    fn arg(&self) -> (r: u32)
        ensures
            r == 0,
    {
        0
    }
}

impl ControlCommand for Cmd11 {}

/// CMD11 — VOLTAGE_SWITCH
pub fn voltage_switch() -> (r: Cmd11) {
    Cmd11
}

/// CMD19 — SEND_TUNING_BLOCK
pub struct Cmd19 {
    pub addr: u32,
}

impl Command for Cmd19 {
    const INDEX: u8 = 19;
    type Resp<'a> = R1;

    /// The command index, 19.
    fn index(&self) -> (r: u8)
        ensures
            r == 19,
    {
        19
    }

    fn arg(&self) -> (r: u32)
        ensures
            r == self.addr,
    {
        self.addr
    }
}

impl ControlCommand for Cmd19 {}

/// CMD19 — SEND_TUNING_BLOCK
pub fn send_tuning_block(addr: u32) -> (r: Cmd19)
    ensures
        r.addr == addr,
{
    Cmd19 { addr }
}

/// CMD20 — SPEED_CLASS_CONTROL
pub struct Cmd20 {
    pub arg: u32,
}

impl Command for Cmd20 {
    const INDEX: u8 = 20;
    type Resp<'a> = R1;

    /// The command index, 20.
    fn index(&self) -> (r: u8)
        ensures
            r == 20,
    {
        20
    }

    fn arg(&self) -> (r: u32)
        ensures
            r == self.arg,
    {
        self.arg
    }
}

impl ControlCommand for Cmd20 {}

/// CMD20 — SPEED_CLASS_CONTROL
pub fn speed_class_control(arg: u32) -> (r: Cmd20)
    ensures
        r.arg == arg,
{
    Cmd20 { arg }
}

/// CMD22 — ADDRESS_EXTENSION
pub struct Cmd22 {
    pub arg: u32,
}

impl Command for Cmd22 {
    const INDEX: u8 = 22;
    type Resp<'a> = R1;

    /// The command index, 22.
    fn index(&self) -> (r: u8)
        ensures
            r == 22,
    {
        22
    }

    fn arg(&self) -> (r: u32)
        ensures
            r == self.arg,
    {
        self.arg
    }
}

impl ControlCommand for Cmd22 {}

/// CMD22 — ADDRESS_EXTENSION
pub fn address_extension(arg: u32) -> (r: Cmd22)
    ensures
        r.arg == arg,
{
    Cmd22 { arg }
}

/// CMD23 — SET_BLOCK_COUNT
pub struct Cmd23 {
    pub blockcount: u32,
}

impl Command for Cmd23 {
    const INDEX: u8 = 23;
    type Resp<'a> = R1;

    /// The command index, 23.
    fn index(&self) -> (r: u8)
        ensures
            r == 23,
    {
        23
    }

    fn arg(&self) -> (r: u32)
        ensures
            r == self.blockcount,
    {
        self.blockcount
    }
}

impl ControlCommand for Cmd23 {}

/// CMD23 — SET_BLOCK_COUNT
pub fn set_block_count(blockcount: u32) -> (r: Cmd23)
    ensures
        r.blockcount == blockcount,
{
    Cmd23 { blockcount }
}

/// CMD32 — ERASE_WR_BLK_START_ADDR
pub struct Cmd32 {
    pub address: u32,
}

impl Command for Cmd32 {
    const INDEX: u8 = 32;
    type Resp<'a> = R1;

    /// The command index, 32.
    fn index(&self) -> (r: u8)
        ensures
            r == 32,
    {
        32
    }

    fn arg(&self) -> (r: u32)
        ensures
            r == self.address,
    {
        self.address
    }
}

impl ControlCommand for Cmd32 {}

/// CMD32 — ERASE_WR_BLK_START_ADDR
pub fn erase_wr_blk_start_addr(address: u32) -> (r: Cmd32)
    ensures
        r.address == address,
{
    Cmd32 { address }
}

/// CMD33 — ERASE_WR_BLK_END_ADDR
pub struct Cmd33 {
    pub address: u32,
}

impl Command for Cmd33 {
    const INDEX: u8 = 33;
    type Resp<'a> = R1;

    /// The command index, 33.
    fn index(&self) -> (r: u8)
        ensures
            r == 33,
    {
        33
    }

    fn arg(&self) -> (r: u32)
        ensures
            r == self.address,
    {
        self.address
    }
}

impl ControlCommand for Cmd33 {}

/// CMD33 — ERASE_WR_BLK_END_ADDR
pub fn erase_wr_blk_end_addr(address: u32) -> (r: Cmd33)
    ensures
        r.address == address,
{
    Cmd33 { address }
}

/// CMD36 — ERASE_GROUP_END
pub struct Cmd36 {
    pub address: u32,
}

impl Command for Cmd36 {
    const INDEX: u8 = 36;
    type Resp<'a> = R1;

    /// The command index, 36.
    fn index(&self) -> (r: u8)
        ensures
            r == 36,
    {
        36
    }

    fn arg(&self) -> (r: u32)
        ensures
            r == self.address,
    {
        self.address
    }
}

impl ControlCommand for Cmd36 {}

/// CMD36: Sets the address of the last erase group within a continuous range to
/// be selected for erase
///
/// Address is either byte address or sector address (set in OCR)
pub fn erase_group_end(address: u32) -> (r: Cmd36)
    ensures
        r.address == address,
{
    Cmd36 { address }
}

/// CMD58 — READ_OCR
pub struct Cmd58;

impl Command for Cmd58 {
    const INDEX: u8 = 58;
    type Resp<'a> = R3;

    /// The command index, 58.
    fn index(&self) -> (r: u8)
        ensures
            r == 58,
    {
        58
    }

    fn arg(&self) -> (r: u32)
        ensures
            r == 0,
    {
        0
    }
}

impl ControlCommand for Cmd58 {}

/// CMD58 — READ_OCR
pub fn read_ocr() -> (r: Cmd58) {
    Cmd58
}

// ============================================================================
// APPLICATION COMMANDS (ACMD)
// ============================================================================

/// ACMD6 — SET_BUS_WIDTH
pub struct Acmd6 {
    pub bw4bit: bool,
}

impl Command for Acmd6 {
    const INDEX: u8 = 6;
    type Resp<'a> = R1;

    /// The command index, 6.
    fn index(&self) -> (r: u8)
        ensures
            r == 6,
    {
        6
    }

    fn arg(&self) -> (r: u32)
        ensures
            r == if self.bw4bit { 0b10u32 } else { 0u32 },
    {
        if self.bw4bit {
            0b10
        } else {
            0b00
        }
    }
}

impl ControlCommand for Acmd6 {}

/// ACMD6 — SET_BUS_WIDTH
pub fn set_bus_width(bw4bit: bool) -> (r: Acmd6)
    ensures
        r.bw4bit == bw4bit,
{
    Acmd6 { bw4bit }
}

/// ACMD13 — SD_STATUS (block read, 64 bytes)
pub struct Acmd13;

impl Command for Acmd13 {
    const INDEX: u8 = 13;
    type Resp<'b> = R1;

    /// The command index, 13.
    fn index(&self) -> (r: u8)
        ensures
            r == 13,
    {
        13
    }

    fn arg(&self) -> (r: u32)
        ensures
            r == 0,
    {
        0
    }
}

impl BlockCommand for Acmd13 {
    fn block_size(&self) -> (r: BlockSize)
        ensures
            r == BlockSize::B64,
    {
        BlockSize::B64
    }

    fn block_count(&self) -> (r: u32)
        ensures
            r == 1,
    {
        1
    }
}

/// ACMD13: SD Status
pub fn sd_status() -> (r: Acmd13) {
    Acmd13
}

/// ACMD41 — SD_SEND_OP_COND
pub struct Acmd41 {
    pub host_high_capacity_support: bool,
    pub sdxc_power_control: bool,
    pub switch_to_1_8v_request: bool,
    pub voltage_window: u16,
}

/// 1 for `true`, 0 for `false`.
pub open spec fn flag(b: bool) -> int {
    if b {
        1
    } else {
        0
    }
}

impl Command for Acmd41 {
    const INDEX: u8 = 41;
    type Resp<'a> = R3;

    /// The command index, 41.
    fn index(&self) -> (r: u8)
        ensures
            r == 41,
    {
        41
    }

    fn arg(&self) -> (r: u32)
        ensures
            r == flag(self.host_high_capacity_support) * 0x4000_0000 + flag(self.sdxc_power_control)
                * 0x1000_0000 + flag(self.switch_to_1_8v_request) * 0x100_0000 + (
            self.voltage_window % 0x200) as int * 0x8000,
    {
        let h: u32 = if self.host_high_capacity_support { 1 } else { 0 };
        let x: u32 = if self.sdxc_power_control { 1 } else { 0 };
        let s: u32 = if self.switch_to_1_8v_request { 1 } else { 0 };
        let v = self.voltage_window as u32;
        assert(h <= 1 && x <= 1 && s <= 1 && v <= 0xFFFF ==> (h << 30u32) | (x << 28u32) | (s
            << 24u32) | ((v & 0x1FF) << 15u32) == h * 0x4000_0000 + x * 0x1000_0000 + s * 0x100_0000
            + (v % 0x200) * 0x8000) by (bit_vector);
        (h << 30) | (x << 28) | (s << 24) | ((v & 0x1FF) << 15)
    }
}

impl ControlCommand for Acmd41 {}

/// ACMD41 — SD_SEND_OP_COND
pub fn sd_send_op_cond(
    host_high_capacity_support: bool,
    sdxc_power_control: bool,
    switch_to_1_8v_request: bool,
    voltage_window: u16,
) -> (r: Acmd41)
    ensures
        r.host_high_capacity_support == host_high_capacity_support,
        r.sdxc_power_control == sdxc_power_control,
        r.switch_to_1_8v_request == switch_to_1_8v_request,
        r.voltage_window == voltage_window,
{
    Acmd41 { host_high_capacity_support, sdxc_power_control, switch_to_1_8v_request, voltage_window }
}

/// ACMD51 — SEND_SCR (block read, 8 bytes)
pub struct Acmd51;

impl Command for Acmd51 {
    const INDEX: u8 = 51;
    type Resp<'b> = R1;

    /// The command index, 51.
    fn index(&self) -> (r: u8)
        ensures
            r == 51,
    {
        51
    }

    fn arg(&self) -> (r: u32)
        ensures
            r == 0,
    {
        0
    }
}

impl BlockCommand for Acmd51 {
    fn block_size(&self) -> (r: BlockSize)
        ensures
            r == BlockSize::B8,
    {
        BlockSize::B8
    }

    fn block_count(&self) -> (r: u32)
        ensures
            r == 1,
    {
        1
    }
}

/// ACMD51: Reads the SCR
pub fn send_scr() -> (r: Acmd51) {
    Acmd51
}


/// Physical Layer Specification versions that the SCR can report.
#[non_exhaustive]
#[derive(Debug, Copy, Clone, Eq, PartialEq)]
pub enum SDSpecVersion {
    /// Version 1.0 and and 1.0.1
    V1_0,
    /// Version 1.10
    V1_10,
    /// Version 2.0
    V2,
    /// Version 3.0
    V3,
    /// Version 4.0
    V4,
    /// Version 5.0
    V5,
    /// Version 6.0
    V6,
    /// Version 7.0
    V7,
    /// Version not known by this crate
    Unknown,
}

/// The version that the SCR fields SD_SPEC, SD_SPEC3, SD_SPEC4 and
/// SD_SPECX name (PLSS_v7_10 Table 5-17).
pub open spec fn sd_spec_version(spec: u64, spec3: u64, spec4: u64, specx: u64) -> SDSpecVersion {
    if spec == 0 && spec3 == 0 && spec4 == 0 && specx == 0 {
        SDSpecVersion::V1_0
    } else if spec == 1 && spec3 == 0 && spec4 == 0 && specx == 0 {
        SDSpecVersion::V1_10
    } else if spec == 2 && spec3 == 0 && spec4 == 0 && specx == 0 {
        SDSpecVersion::V2
    } else if spec == 2 && spec3 == 1 && spec4 == 0 && specx == 0 {
        SDSpecVersion::V3
    } else if spec == 2 && spec3 == 1 && spec4 == 1 && specx == 0 {
        SDSpecVersion::V4
    } else if spec == 2 && spec3 == 1 && specx == 1 {
        SDSpecVersion::V5
    } else if spec == 2 && spec3 == 1 && specx == 2 {
        SDSpecVersion::V6
    } else if spec == 2 && spec3 == 1 && specx == 3 {
        SDSpecVersion::V7
    } else {
        SDSpecVersion::Unknown
    }
}

/// Security versions that the SCR field SD_SECURITY can report.
#[derive(Debug, Copy, Clone, Eq, PartialEq)]
pub enum SDSecurity {
    /// No security
    NoSecurity,
    /// Not used
    NotUsed,
    /// SDSC card (security version 1.01)
    SDSC,
    /// SDHC card (security version 2.00)
    SDHC,
    /// A code this crate does not name
    Unknown(u8),
}

/// The security version that an SD_SECURITY code names.
pub open spec fn sd_security_of(code: u8) -> SDSecurity {
    if code == 0 {
        SDSecurity::NoSecurity
    } else if code == 1 {
        SDSecurity::NotUsed
    } else if code == 2 {
        SDSecurity::SDSC
    } else if code == 3 {
        SDSecurity::SDHC
    } else {
        SDSecurity::Unknown(code)
    }
}

/// What erased data reads as (SCR field DATA_STAT_AFTER_ERASE).
#[derive(Debug, Copy, Clone, Eq, PartialEq)]
pub enum SDEraseDataStatus {
    /// Erased bits read as 0
    Zero,
    /// Erased bits read as 1
    One,
}

/// The 64-bit little-endian value of 8 bytes.
pub open spec fn le_u64(b: Seq<u8>) -> u64 {
    (b[0] as u64) | ((b[1] as u64) << 8u64) | ((b[2] as u64) << 16u64) | ((b[3] as u64) << 24u64)
        | ((b[4] as u64) << 32u64) | ((b[5] as u64) << 40u64) | ((b[6] as u64) << 48u64) | ((
    b[7] as u64) << 56u64)
}

/// SD CARD Configuration Register (SCR).
///
/// The bytes are kept least significant first; `From<[u8; 8]>` takes them
/// in the order the card transmits them (most significant first).
pub struct SCR(pub [u8; 8]);

impl Clone for SCR {
    fn clone(&self) -> (r: Self)
        ensures
            r == *self,
    {
        SCR(self.0)
    }
}

impl Copy for SCR {}

impl Default for SCR {
    fn default() -> (r: Self)
        ensures
            r.value() == 0,
    {
        Self::new()
    }
}

impl From<[u8; 8]> for SCR {
    fn from(raw: [u8; 8]) -> (r: Self) {
        SCR([raw[7], raw[6], raw[5], raw[4], raw[3], raw[2], raw[1], raw[0]])
    }
}

impl vstd::std_specs::convert::FromSpecImpl<[u8; 8]> for SCR {
    open spec fn obeys_from_spec() -> bool {
        true
    }

    open spec fn from_spec(raw: [u8; 8]) -> Self {
        SCR([raw[7], raw[6], raw[5], raw[4], raw[3], raw[2], raw[1], raw[0]])
    }
}

/// From little endian words
impl From<[u32; 2]> for SCR {
    fn from(words: [u32; 2]) -> (r: Self) {
        let (w0, w1) = (words[0], words[1]);
        SCR(
            [
                w0 as u8,
                (w0 >> 8) as u8,
                (w0 >> 16) as u8,
                (w0 >> 24) as u8,
                w1 as u8,
                (w1 >> 8) as u8,
                (w1 >> 16) as u8,
                (w1 >> 24) as u8,
            ],
        )
    }
}

impl vstd::std_specs::convert::FromSpecImpl<[u32; 2]> for SCR {
    open spec fn obeys_from_spec() -> bool {
        true
    }

    open spec fn from_spec(words: [u32; 2]) -> Self {
        let (w0, w1) = (words[0], words[1]);
        SCR(
            [
                w0 as u8,
                (w0 >> 8u32) as u8,
                (w0 >> 16u32) as u8,
                (w0 >> 24u32) as u8,
                w1 as u8,
                (w1 >> 8u32) as u8,
                (w1 >> 16u32) as u8,
                (w1 >> 24u32) as u8,
            ],
        )
    }
}

impl SCR {
    /// The 64-bit value of the register.
    pub open spec fn value(self) -> u64 {
        le_u64(self.0@)
    }

    /// Create a new `SCR`
    #[inline]
    pub fn new() -> (r: Self)
        ensures
            r.value() == 0,
            forall|i: int| 0 <= i < 8 ==> r.0@[i] == 0,
    {
        let r = Self([0u8; 8]);
        assert(0u8 as u64 | ((0u8 as u64) << 8u64) | ((0u8 as u64) << 16u64) | ((0u8 as u64)
            << 24u64) | ((0u8 as u64) << 32u64) | ((0u8 as u64) << 40u64) | ((0u8 as u64) << 48u64)
            | ((0u8 as u64) << 56u64) == 0u64) by (bit_vector);
        r
    }

    fn inner_word(&self) -> (r: u64)
        ensures
            r == self.value(),
    {
        let b = self.0;
        (b[0] as u64) | ((b[1] as u64) << 8) | ((b[2] as u64) << 16) | ((b[3] as u64) << 24) | ((
        b[4] as u64) << 32) | ((b[5] as u64) << 40) | ((b[6] as u64) << 48) | ((b[7] as u64)
            << 56)
    }

    /// Physical Layer Specification Version Number
    pub fn version(&self) -> (r: SDSpecVersion)
        ensures
            r == sd_spec_version(
                (self.value() >> 56u64) & 0xF,
                (self.value() >> 47u64) & 1,
                (self.value() >> 42u64) & 1,
                (self.value() >> 38u64) & 0xF,
            ),
    {
        let w = self.inner_word();
        let spec = (w >> 56) & 0xF;
        let spec3 = (w >> 47) & 1;
        let spec4 = (w >> 42) & 1;
        let specx = (w >> 38) & 0xF;

        // Ref PLSS_v7_10 Table 5-17
        if spec == 0 && spec3 == 0 && spec4 == 0 && specx == 0 {
            SDSpecVersion::V1_0
        } else if spec == 1 && spec3 == 0 && spec4 == 0 && specx == 0 {
            SDSpecVersion::V1_10
        } else if spec == 2 && spec3 == 0 && spec4 == 0 && specx == 0 {
            SDSpecVersion::V2
        } else if spec == 2 && spec3 == 1 && spec4 == 0 && specx == 0 {
            SDSpecVersion::V3
        } else if spec == 2 && spec3 == 1 && spec4 == 1 && specx == 0 {
            SDSpecVersion::V4
        } else if spec == 2 && spec3 == 1 && specx == 1 {
            SDSpecVersion::V5
        } else if spec == 2 && spec3 == 1 && specx == 2 {
            SDSpecVersion::V6
        } else if spec == 2 && spec3 == 1 && specx == 3 {
            SDSpecVersion::V7
        } else {
            SDSpecVersion::Unknown
        }
    }

    /// Security version (SD_SECURITY, bits 54:52)
    pub fn security(&self) -> (r: SDSecurity)
        ensures
            r == sd_security_of(((self.value() >> 52u64) & 0x7) as u8),
    {
        let code = ((self.inner_word() >> 52) & 0x7) as u8;
        match code {
            0 => SDSecurity::NoSecurity,
            1 => SDSecurity::NotUsed,
            2 => SDSecurity::SDSC,
            3 => SDSecurity::SDHC,
            other => SDSecurity::Unknown(other),
        }
    }

    /// Data status after erase (DATA_STAT_AFTER_ERASE, bit 55)
    pub fn data_after_erase(&self) -> (r: SDEraseDataStatus)
        ensures
            r == if (self.value() >> 55u64) & 1 == 0 {
                SDEraseDataStatus::Zero
            } else {
                SDEraseDataStatus::One
            },
    {
        if (self.inner_word() >> 55) & 1 == 0 {
            SDEraseDataStatus::Zero
        } else {
            SDEraseDataStatus::One
        }
    }

    /// Bus widths supported
    pub fn bus_widths(&self) -> (r: u8)
        ensures
            r == ((self.value() >> 48u64) as u8) & 0xF,
    {
        // Ref PLSS_v7_10 Table 5-21
        ((self.inner_word() >> 48) as u8) & 0xF
    }

    /// Supports 1-bit bus width
    pub fn bus_width_one(&self) -> (r: bool)
        ensures
            r == ((self.value() >> 48u64) & 1 != 0),
    {
        (self.inner_word() >> 48) & 1 != 0
    }

    /// Supports 4-bit bus width
    pub fn bus_width_four(&self) -> (r: bool)
        ensures
            r == ((self.value() >> 50u64) & 1 != 0),
    {
        (self.inner_word() >> 50) & 1 != 0
    }

    /// Supports CMD20 (speed class control), CMD_SUPPORT bit 32
    pub fn supports_cmd20(&self) -> (r: bool)
        ensures
            r == ((self.value() >> 32u64) & 1 != 0),
    {
        (self.inner_word() >> 32) & 1 != 0
    }

    /// Supports CMD23 (set block count), CMD_SUPPORT bit 33
    pub fn supports_cmd23(&self) -> (r: bool)
        ensures
            r == ((self.value() >> 33u64) & 1 != 0),
    {
        (self.inner_word() >> 33) & 1 != 0
    }

    /// Supports CMD48 (read extension register), CMD_SUPPORT bit 34
    pub fn supports_cmd48(&self) -> (r: bool)
        ensures
            r == ((self.value() >> 34u64) & 1 != 0),
    {
        (self.inner_word() >> 34) & 1 != 0
    }

    /// Supports CMD49 (write extension register), CMD_SUPPORT bit 34
    pub fn supports_cmd49(&self) -> (r: bool)
        ensures
            r == ((self.value() >> 34u64) & 1 != 0),
    {
        (self.inner_word() >> 34) & 1 != 0
    }
}

/// The big-endian value of 8 bytes as the card transmits them.
pub open spec fn be_u64(b: Seq<u8>) -> u64 {
    ((b[0] as u64) << 56u64) | ((b[1] as u64) << 48u64) | ((b[2] as u64) << 40u64) | ((b[3] as u64)
        << 32u64) | ((b[4] as u64) << 24u64) | ((b[5] as u64) << 16u64) | ((b[6] as u64) << 8u64) | (
    b[7] as u64)
}

/// An SCR built from the bytes the card transmits holds their big-endian value.
pub proof fn lemma_scr_from_bytes(raw: [u8; 8])
    ensures
        ({
            let scr: SCR = vstd::std_specs::convert::FromSpec::from_spec(raw);
            scr.value() == be_u64(raw@)
        }),
{
    let scr: SCR = vstd::std_specs::convert::FromSpec::from_spec(raw);
    let (a, b, c, d, e, f, g, h) = (raw[0], raw[1], raw[2], raw[3], raw[4], raw[5], raw[6], raw[7]);
    assert((h as u64) | ((g as u64) << 8u64) | ((f as u64) << 16u64) | ((e as u64) << 24u64) | ((
    d as u64) << 32u64) | ((c as u64) << 40u64) | ((b as u64) << 48u64) | ((a as u64) << 56u64)
        == ((a as u64) << 56u64) | ((b as u64) << 48u64) | ((c as u64) << 40u64) | ((d as u64)
        << 32u64) | ((e as u64) << 24u64) | ((f as u64) << 16u64) | ((g as u64) << 8u64) | (h as u64))
        by (bit_vector);
}

/// An SCR built from two little endian words holds the 64-bit value whose
/// high half is the second word.
pub proof fn lemma_scr_from_words(words: [u32; 2])
    ensures
        ({
            let scr: SCR = vstd::std_specs::convert::FromSpec::from_spec(words);
            scr.value() == words[1] as int * 0x1_0000_0000 + words[0] as int
        }),
{
    let (w0, w1) = (words[0], words[1]);
    assert(((w0 as u8) as u64) | ((((w0 >> 8u32) as u8) as u64) << 8u64) | ((((w0 >> 16u32) as u8)
        as u64) << 16u64) | ((((w0 >> 24u32) as u8) as u64) << 24u64) | (((w1 as u8) as u64)
        << 32u64) | ((((w1 >> 8u32) as u8) as u64) << 40u64) | ((((w1 >> 16u32) as u8) as u64)
        << 48u64) | ((((w1 >> 24u32) as u8) as u64) << 56u64) == (w1 as u64) * 0x1_0000_0000 + (
    w0 as u64)) by (bit_vector);
}

/// Number of trailing zero bits of a non-negative number (0 for 0).
pub open spec fn trailing_zeros(w: nat) -> nat
    decreases w,
{
    if w == 0 || w % 2 == 1 {
        0
    } else {
        1 + trailing_zeros(w / 2)
    }
}

/// Number of significant bits of a non-negative number.
pub open spec fn bit_length(w: nat) -> nat
    decreases w,
{
    if w == 0 {
        0
    } else {
        1 + bit_length(w / 2)
    }
}

/// A non-zero number has fewer trailing zeros than significant bits.
pub proof fn lemma_trailing_zeros_below_bit_length(w: nat)
    requires
        w > 0,
    ensures
        trailing_zeros(w) < bit_length(w),
    decreases w,
{
    if w % 2 == 0 {
        lemma_trailing_zeros_below_bit_length(w / 2);
    }
}

/// A number below `2^n` has at most `n` significant bits.
proof fn lemma_bit_length_bound(w: nat, n: nat)
    requires
        w < vstd::arithmetic::power2::pow2(n),
    ensures
        bit_length(w) <= n,
    decreases n,
{
    if w > 0 {
        if n == 0 {
            vstd::arithmetic::power2::lemma2_to64();
        } else {
            vstd::arithmetic::power2::lemma_pow2_unfold(n);
            lemma_bit_length_bound(w / 2, (n - 1) as nat);
        }
    }
}

/// The voltage window (in mV) that the 9-bit VDD window field `w` of an SD
/// OCR describes: from 2.7 V plus 100 mV per trailing zero bit, to 2.7 V
/// plus 100 mV per significant bit; `None` for an empty window.
pub open spec fn voltage_window_of(w: nat) -> Option<(u16, u16)> {
    if w == 0 {
        None
    } else {
        Some(((2700 + 100 * trailing_zeros(w)) as u16, (2700 + 100 * bit_length(w)) as u16))
    }
}

impl OCR<SD> {
    /// VDD voltage window, OCR [23:15], in millivolts.
    pub fn voltage_window_mv(&self) -> (r: Option<(u16, u16)>)
        ensures
            r == voltage_window_of(((self.0 >> 15u32) & 0x1FF) as nat),
    {
        let ocr = self.0;
        let mut window = (ocr >> 15) & 0x1FF;
        let ghost w0 = window as nat;
        let ghost mut k: nat = 0;
        let mut min: u16 = 2_700;
        assert(window <= 0x1FF) by (bit_vector) requires window == (ocr >> 15u32) & 0x1FF;
        proof {
            vstd::arithmetic::power2::lemma2_to64();
            lemma_bit_length_bound(w0, 9);
        }
        while window & 1 == 0 && window != 0
            invariant
                window <= 0x1FF,
                min == 2700 + 100 * k,
                window == 0 ==> w0 == 0,
                trailing_zeros(w0) == k + trailing_zeros(window as nat),
                bit_length(w0) == k + bit_length(window as nat),
                bit_length(w0) <= 9,
            decreases window,
        {
            assert(window & 1 == window % 2 && window >> 1u32 == window / 2) by (bit_vector);
            min += 100;
            window >>= 1;
            proof {
                k = k + 1;
            }
        }
        assert(window & 1 == window % 2) by (bit_vector);
        let mut max = min;
        let ghost mut j: nat = 0;
        while window != 0
            invariant
                window <= 0x1FF,
                max == min + 100 * j,
                min == 2700 + 100 * k,
                bit_length(w0) == k + j + bit_length(window as nat),
                bit_length(w0) <= 9,
            decreases window,
        {
            assert(window >> 1u32 == window / 2) by (bit_vector);
            max += 100;
            window >>= 1;
            proof {
                j = j + 1;
            }
        }
        proof {
            if w0 > 0 {
                lemma_trailing_zeros_below_bit_length(w0);
            }
        }
        if max == min {
            None
        } else {
            Some((min, max))
        }
    }

    /// Switching to 1.8V Accepted (S18A), OCR [24]. Only UHS-I cards support this bit
    pub fn v18_allowed(&self) -> (r: bool)
        ensures
            r == (self.0 & 0x0100_0000 != 0),
    {
        self.0 & 0x0100_0000 != 0
    }

    /// Over 2TB support Status, OCR [27]. Only SDUC card support this bit
    pub fn over_2tb(&self) -> (r: bool)
        ensures
            r == (self.0 & 0x0800_0000 != 0),
    {
        self.0 & 0x0800_0000 != 0
    }

    /// Indicates whether the card supports UHS-II Interface, OCR [29]
    pub fn uhs2_card_status(&self) -> (r: bool)
        ensures
            r == (self.0 & 0x2000_0000 != 0),
    {
        self.0 & 0x2000_0000 != 0
    }

    /// Card Capacity Status (CCS), OCR [30]
    ///
    /// For SD cards, this is true for SDHC/SDXC/SDUC, false for SDSC
    pub fn high_capacity(&self) -> (r: bool)
        ensures
            r == (self.0 & 0x4000_0000 != 0),
    {
        self.0 & 0x4000_0000 != 0
    }
}

impl CID<SD> {
    /// OEM/Application ID (bytes 1 and 2), `"<ERR>"` when not UTF-8
    pub fn oem_id(&self) -> (r: &str)
        ensures
            r@ == text_field(self.bytes@, 1, 3),
            all_ascii(self.bytes@.subrange(1, 3)) ==> r@ == ascii_chars(self.bytes@.subrange(1, 3)),
    {
        text_of(self.bytes.as_slice(), 1, 3)
    }

    /// Product name (bytes 3 to 7), `"<ERR>"` when not UTF-8
    pub fn product_name(&self) -> (r: &str)
        ensures
            r@ == text_field(self.bytes@, 3, 8),
            all_ascii(self.bytes@.subrange(3, 8)) ==> r@ == ascii_chars(self.bytes@.subrange(3, 8)),
    {
        text_of(self.bytes.as_slice(), 3, 8)
    }

    /// Product revision
    pub fn product_revision(&self) -> (r: u8)
        ensures
            r == self.bytes@[8],
    {
        self.bytes[8]
    }

    /// Product serial number, CID [55:24]
    pub fn serial(&self) -> (r: u32)
        ensures
            r == (be_value(self.bytes@) >> 24u128) as u32,
    {
        (self.inner() >> 24) as u32
    }

    /// Manufacturing date as (month, year): month CID [11:8], year 2000 + CID [19:12]
    pub fn manufacturing_date(&self) -> (r: (u8, u16))
        ensures
            r.0 == (be_value(self.bytes@) >> 8u128) as u8 & 0xF,
            r.1 == (((be_value(self.bytes@) >> 12u128) as u16) & 0xFF) + 2000,
    {
        let v = self.inner();
        assert(((v >> 12u128) as u16) & 0xFF <= 0xFF) by (bit_vector);
        ((v >> 8) as u8 & 0xF, ((v >> 12) as u16 & 0xFF) + 2000)
    }
}

/// Number of blocks that an SD CSD (value `v`) describes.
pub open spec fn sd_block_count(v: u128) -> nat {
    let version = (v >> 126u128) & 3;
    if version == 0 {
        // SDSC: (C_SIZE + 1) * 2^(C_SIZE_MULT + 2)
        (((v >> 62u128) & 0xFFF) + 1) as nat * vstd::arithmetic::power2::pow2(
            (((v >> 47u128) & 7) + 2) as nat,
        )
    } else if version == 1 {
        // SDHC/SDXC
        (((v >> 48u128) & 0x3F_FFFF) + 1) as nat * 1024
    } else if version == 2 {
        // SDUC
        (((v >> 48u128) & 0xFFF_FFFF) + 1) as nat * 1024
    } else {
        0
    }
}

/// The capacity of a standard capacity card (CSD structure 0), as the
/// physical layer defines it: BLOCKNR = (C_SIZE + 1) * MULT with
/// MULT = 4 * 2^C_SIZE_MULT (from 4 to 512), C_SIZE = CSD[73:62] and
/// C_SIZE_MULT = CSD[49:47]; the size in bytes is BLOCKNR * 2^READ_BL_LEN,
/// READ_BL_LEN = CSD[83:80].
pub proof fn lemma_sdsc_capacity(v: u128)
    requires
        (v >> 126u128) & 3 == 0,
    ensures
        ({
            let c_size = (v / 0x4000_0000_0000_0000) % 0x1000;
            let c_size_mult = (v / 0x8000_0000_0000) % 8;
            let read_bl_len = (v / 0x1_0000_0000_0000_0000_0000) % 16;
            &&& sd_block_count(v) == (c_size + 1) * (4 * vstd::arithmetic::power2::pow2(
                c_size_mult as nat,
            ))
            &&& 4 * (c_size + 1) <= sd_block_count(v) <= 512 * (c_size + 1)
            &&& sd_block_count(v) * vstd::arithmetic::power2::pow2(read_bl_len as nat) == (c_size
                + 1) * vstd::arithmetic::power2::pow2((c_size_mult + 2 + read_bl_len) as nat)
        }),
{
    let c_size = (v / 0x4000_0000_0000_0000) % 0x1000;
    let c_size_mult = (v / 0x8000_0000_0000) % 8;
    let read_bl_len = (v / 0x1_0000_0000_0000_0000_0000) % 16;
    assert((v >> 62u128) & 0xFFF == (v / 0x4000_0000_0000_0000) % 0x1000 && (v >> 47u128) & 7 == (v
        / 0x8000_0000_0000) % 8) by (bit_vector);
    let m = c_size_mult as nat;
    vstd::arithmetic::power2::lemma_pow2_adds(2, m);
    vstd::arithmetic::power2::lemma2_to64();
    vstd::arithmetic::power2::lemma_pow2_pos(m);
    if m < 7 {
        vstd::arithmetic::power2::lemma_pow2_strictly_increases(m, 7);
    }
    let p = vstd::arithmetic::power2::pow2(m);
    assert(1 <= p <= 128);
    assert(4 * (c_size + 1) <= (c_size + 1) * (4 * p) <= 512 * (c_size + 1)) by (nonlinear_arith)
        requires
            1 <= p <= 128,
            c_size >= 0,
    ;
    vstd::arithmetic::power2::lemma_pow2_adds(m + 2, read_bl_len as nat);
    assert((c_size + 1) * (4 * p) * vstd::arithmetic::power2::pow2(read_bl_len as nat) == (c_size
        + 1) * (4 * p * vstd::arithmetic::power2::pow2(read_bl_len as nat))) by (nonlinear_arith);
}

impl CSD<SD> {
    /// Number of blocks in the card
    pub fn block_count(&self) -> (r: u64)
        ensures
            r == sd_block_count(self.0),
            r <= 0x40_0000_0000,
    {
        let v = self.0;
        proof {
            crate::common::lemma_u128_low_masks(v >> 126u128);
            crate::common::lemma_u128_low_masks(v >> 62u128);
            crate::common::lemma_u128_low_masks(v >> 47u128);
            crate::common::lemma_u128_low_masks(v >> 48u128);
        }
        let version = (v >> 126) & 3;
        if version == 0 {
            // SDSC
            let c_size = ((v >> 62) & 0xFFF) as u64;
            let c_size_mult = ((v >> 47) & 7) as u64;
            let shift = c_size_mult + 2;
            proof {
                vstd::arithmetic::power2::lemma2_to64();
                vstd::bits::lemma_u64_pow2_no_overflow(shift as nat);
                vstd::arithmetic::power2::lemma_pow2_strictly_increases(shift as nat, 10);
                vstd::bits::lemma_u64_shl_is_mul(1, shift);
            }
            let m: u64 = 1u64 << shift;
            assert(m <= 512);
            assert((c_size + 1) * m <= 0x1000 * 512) by (nonlinear_arith)
                requires
                    c_size <= 0xFFF,
                    m <= 512,
            ;
            (c_size + 1) * m
        } else if version == 1 {
            // SDHC/SDXC
            let c = ((v >> 48) & 0x3F_FFFF) as u64;
            (c + 1) * 1024
        } else if version == 2 {
            // SDUC
            let c = ((v >> 48) & 0xFFF_FFFF) as u64;
            (c + 1) * 1024
        } else {
            0
        }
    }

    /// Card size in bytes: the block count times 2^READ_BL_LEN
    pub fn card_size(&self) -> (r: u64)
        ensures
            r == sd_block_count(self.0) * vstd::arithmetic::power2::pow2(
                ((self.0 >> 80u128) & 0xF) as nat,
            ),
    {
        let v = self.0;
        proof {
            crate::common::lemma_u128_low_masks(v >> 80u128);
        }
        let e = ((v >> 80) & 0xF) as u64;
        proof {
            vstd::arithmetic::power2::lemma2_to64();
            vstd::bits::lemma_u64_pow2_no_overflow(e as nat);
            vstd::arithmetic::power2::lemma_pow2_strictly_increases(e as nat, 16);
            vstd::bits::lemma_u64_shl_is_mul(1, e);
        }
        let block_size_bytes: u64 = 1u64 << e;
        let count = self.block_count();
        assert(count * block_size_bytes <= 0x40_0000_0000 * 0x1_0000) by (nonlinear_arith)
            requires
                count <= 0x40_0000_0000,
                block_size_bytes <= 0x1_0000,
        ;
        count * block_size_bytes
    }

    /// Erase size (in blocks)
    pub fn erase_size_blocks(&self) -> (r: u32)
        ensures
            r == if (self.0 >> 46u128) & 1 == 1 {
                1
            } else {
                ((self.0 >> 43u128) & 0x7) as int * 10 + ((self.0 >> 39u128) & 0xF) as int
            },
    {
        let v = self.0;
        if (v >> 46) & 1 == 1 {
            // ERASE_BLK_EN
            1
        } else {
            let sector_size_tens = (v >> 43) & 0x7;
            let sector_size_units = (v >> 39) & 0xF;
            proof {
                crate::common::lemma_u128_low_masks(v >> 43u128);
                crate::common::lemma_u128_low_masks(v >> 39u128);
            }
            (sector_size_tens as u32 * 10) + (sector_size_units as u32)
        }
    }
}

impl CardStatus<SD> {
    /// Command was executed without internal ECC
    pub fn ecc_disabled(&self) -> (r: bool)
        ensures
            r == (self.0 & 0x4000 != 0),
    {
        self.0 & 0x4000 != 0
    }

    /// Extension function specific status
    pub fn fx_event(&self) -> (r: bool)
        ensures
            r == (self.0 & 0x40 != 0),
    {
        self.0 & 0x40 != 0
    }

    /// Authentication sequence error
    pub fn ake_seq_error(&self) -> (r: bool)
        ensures
            r == (self.0 & 0x8 != 0),
    {
        self.0 & 0x8 != 0
    }
}

/// The 32-bit word `i` of a 64-byte register kept least significant byte first.
pub open spec fn le_word(b: Seq<u8>, i: int) -> u32 {
    (b[4 * i] as u32) | ((b[4 * i + 1] as u32) << 8u32) | ((b[4 * i + 2] as u32) << 16u32) | ((b[4
        * i + 3] as u32) << 24u32)
}

/// SD Status: status bits related to SD Memory Card proprietary features.
///
/// The 512-bit register is kept least significant byte first, so that word
/// 15 holds its top 32 bits; `From<[u8; 64]>` takes the bytes in the order
/// the card transmits them (most significant first).
///
/// Ref PLSS_v7_10 Section 4.10.2 SD Status
pub struct SDStatus {
    pub inner: [u8; 64],
}

impl Clone for SDStatus {
    fn clone(&self) -> (r: Self)
        ensures
            r == *self,
    {
        SDStatus { inner: self.inner }
    }
}

impl Copy for SDStatus {}

impl Default for SDStatus {
    fn default() -> (r: Self)
        ensures
            forall|i: int| 0 <= i < 64 ==> r.inner@[i] == 0,
    {
        Self::new()
    }
}

impl From<[u8; 64]> for SDStatus {
    fn from(raw: [u8; 64]) -> (r: Self) {
        SDStatus { inner: [raw[63], raw[62], raw[61], raw[60], raw[59], raw[58], raw[57], raw[56], raw[55], raw[54], raw[53], raw[52], raw[51], raw[50], raw[49], raw[48], raw[47], raw[46], raw[45], raw[44], raw[43], raw[42], raw[41], raw[40], raw[39], raw[38], raw[37], raw[36], raw[35], raw[34], raw[33], raw[32], raw[31], raw[30], raw[29], raw[28], raw[27], raw[26], raw[25], raw[24], raw[23], raw[22], raw[21], raw[20], raw[19], raw[18], raw[17], raw[16], raw[15], raw[14], raw[13], raw[12], raw[11], raw[10], raw[9], raw[8], raw[7], raw[6], raw[5], raw[4], raw[3], raw[2], raw[1], raw[0]] }
    }
}

impl vstd::std_specs::convert::FromSpecImpl<[u8; 64]> for SDStatus {
    open spec fn obeys_from_spec() -> bool {
        true
    }

    open spec fn from_spec(raw: [u8; 64]) -> Self {
        SDStatus { inner: [raw[63], raw[62], raw[61], raw[60], raw[59], raw[58], raw[57], raw[56], raw[55], raw[54], raw[53], raw[52], raw[51], raw[50], raw[49], raw[48], raw[47], raw[46], raw[45], raw[44], raw[43], raw[42], raw[41], raw[40], raw[39], raw[38], raw[37], raw[36], raw[35], raw[34], raw[33], raw[32], raw[31], raw[30], raw[29], raw[28], raw[27], raw[26], raw[25], raw[24], raw[23], raw[22], raw[21], raw[20], raw[19], raw[18], raw[17], raw[16], raw[15], raw[14], raw[13], raw[12], raw[11], raw[10], raw[9], raw[8], raw[7], raw[6], raw[5], raw[4], raw[3], raw[2], raw[1], raw[0]] }
    }
}

impl SDStatus {
    /// Create a new `SDStatus`
    #[inline]
    pub fn new() -> (r: Self)
        ensures
            forall|i: int| 0 <= i < 64 ==> r.inner@[i] == 0,
    {
        Self { inner: [0u8; 64] }
    }

    /// Word `i` of the register (word 15 holds bits 511:480).
    pub open spec fn word(self, i: int) -> u32 {
        le_word(self.inner@, i)
    }

    fn inner_word(&self, i: usize) -> (r: u32)
        requires
            i < 16,
        ensures
            r == self.word(i as int),
    {
        let b = &self.inner;
        (b[i * 4] as u32) | ((b[i * 4 + 1] as u32) << 8) | ((b[i * 4 + 2] as u32) << 16) | ((b[i * 4
            + 3] as u32) << 24)
    }

    /// Current data bus width (DAT_BUS_WIDTH, bits 511:510)
    pub fn bus_width(&self) -> (r: Option<BusWidth>)
        ensures
            (self.word(15) >> 30u32) & 3 == 0 ==> r == Some(BusWidth::W1),
            (self.word(15) >> 30u32) & 3 == 2 ==> r == Some(BusWidth::W4),
            (self.word(15) >> 30u32) & 3 != 0 && (self.word(15) >> 30u32) & 3 != 2 ==> r is None,
    {
        match (self.inner_word(15) >> 30) & 3 {
            0 => Some(BusWidth::W1),
            2 => Some(BusWidth::W4),
            _ => None,
        }
    }

    /// Is the card currently in the secured mode (SECURED_MODE, bit 509)
    pub fn secure_mode(&self) -> (r: bool)
        ensures
            r == (self.word(15) & 0x2000_0000 != 0),
    {
        self.inner_word(15) & 0x2000_0000 != 0
    }

    /// SD Memory Card type (SD_CARD_TYPE, bits 495:480)
    pub fn sd_memory_card_type(&self) -> (r: u16)
        ensures
            r == self.word(15) as u16,
    {
        self.inner_word(15) as u16
    }

    /// SDHC / SDXC: Capacity of Protected Area in bytes (bits 479:448)
    pub fn protected_area_size(&self) -> (r: u32)
        ensures
            r == self.word(14),
    {
        self.inner_word(14)
    }

    /// Speed Class (bits 447:440)
    pub fn speed_class(&self) -> (r: u8)
        ensures
            r == (self.word(13) >> 24u32) as u8,
    {
        (self.inner_word(13) >> 24) as u8
    }

    /// "Performance Move" indicator in 1 MB/s units (bits 439:432)
    pub fn move_performance(&self) -> (r: u8)
        ensures
            r == (self.word(13) >> 16u32) as u8,
    {
        (self.inner_word(13) >> 16) as u8
    }

    /// Allocation Unit (AU) size (bits 431:428). Lookup in PLSS v7_10 Table 4-47
    pub fn allocation_unit_size(&self) -> (r: u8)
        ensures
            r == (self.word(13) >> 12u32) as u8 & 0xF,
    {
        (self.inner_word(13) >> 12) as u8 & 0xF
    }

    /// Indicates N_Erase, in units of AU (ERASE_SIZE, bits 423:408): high
    /// byte in the low byte of word 13, low byte in the top byte of word 12
    pub fn erase_size(&self) -> (r: u16)
        ensures
            r == (self.word(13) & 0xFF) * 0x100 + (self.word(12) >> 24u32),
    {
        let w13 = self.inner_word(13);
        let w12 = self.inner_word(12);
        let hi = w13 & 0xFF;
        let lo = w12 >> 24;
        assert(hi <= 0xFF && lo <= 0xFF && ((hi << 8u32) | lo) as u16 == hi * 0x100 + lo)
            by (bit_vector)
            requires
                hi == w13 & 0xFF,
                lo == w12 >> 24u32,
        ;
        ((hi << 8) | lo) as u16
    }

    /// Indicates T_Erase / Erase Timeout (s) (bits 407:402)
    pub fn erase_timeout(&self) -> (r: u8)
        ensures
            r == (self.word(12) >> 18u32) as u8 & 0x3F,
    {
        (self.inner_word(12) >> 18) as u8 & 0x3F
    }

    /// Video speed class (bits 391:384, the low byte of word 12)
    pub fn video_speed_class(&self) -> (r: u8)
        ensures
            r == (self.word(12) & 0xFF) as u8,
    {
        (self.inner_word(12) & 0xFF) as u8
    }

    /// Application Performance Class (bits 339:336)
    pub fn app_perf_class(&self) -> (r: u8)
        ensures
            r == (self.word(10) >> 16u32) as u8 & 0xF,
    {
        (self.inner_word(10) >> 16) as u8 & 0xF
    }

    /// Discard Support (bit 313)
    pub fn discard_support(&self) -> (r: bool)
        ensures
            r == (self.word(9) & 0x0200_0000 != 0),
    {
        self.inner_word(9) & 0x0200_0000 != 0
    }
}

/// Card interface condition (R7)
pub type CIC = R7;

impl RCA<SD> {
    /// Status bits of the R6 that published the address
    pub fn status(&self) -> (r: u16)
        ensures
            r == self.0 % 0x10000,
    {
        let v = self.0;
        assert(v as u16 == v % 0x10000) by (bit_vector);
        v as u16
    }
}

/// SD Card
pub struct Card {
    /// The type of this card
    pub card_type: CardCapacity,
    /// Operation Conditions Register
    pub ocr: OCR<SD>,
    /// Relative Card Address
    pub rca: u16,
    /// Card ID
    pub cid: CID<SD>,
    /// Card Specific Data
    pub csd: CSD<SD>,
    /// SD CARD Configuration Register
    pub scr: SCR,
    /// SD Status
    pub status: SDStatus,
}

impl Clone for Card {
    fn clone(&self) -> (r: Self)
        ensures
            r == *self,
    {
        *self
    }
}

impl Copy for Card {}

impl Default for Card {
    fn default() -> (r: Self)
        ensures
            r.is_blank(),
    {
        Card {
            card_type: CardCapacity::StandardCapacity,
            ocr: OCR::default(),
            rca: 0,
            cid: CID::default(),
            csd: CSD::default(),
            scr: SCR::new(),
            status: SDStatus::new(),
        }
    }
}

impl Card {
    /// A card about which nothing is known yet: every register reads zero.
    pub open spec fn is_blank(self) -> bool {
        &&& self.card_type == CardCapacity::StandardCapacity
        &&& self.ocr.0 == 0
        &&& self.rca == 0
        &&& forall|i: int| 0 <= i < 16 ==> self.cid.bytes@[i] == 0
        &&& self.csd.0 == 0
        &&& forall|i: int| 0 <= i < 8 ==> self.scr.0@[i] == 0
        &&& forall|i: int| 0 <= i < 64 ==> self.status.inner@[i] == 0
    }
}

impl Addressable for Card {
    type Ext = SD;

    /// Is this a standard or high capacity peripheral?
    fn get_capacity(&self) -> (r: CardCapacity)
        ensures
            r == self.card_type,
    {
        self.card_type
    }

    /// Size in bytes: 512 bytes per block of the CSD's block count
    fn size(&self) -> (r: u64)
        ensures
            r == sd_block_count(self.csd.0) * 512,
    {
        self.csd.block_count() * 512
    }

    /// SCR.CMD_SUPPORT[1] per PLSS Table 5-21 (Set Block Count).
    fn supports_cmd23(&self) -> (r: bool)
        ensures
            r == ((self.scr.value() >> 33u64) & 1 != 0),
    {
        self.scr.supports_cmd23()
    }
}

} // verus!
