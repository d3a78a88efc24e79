//! Commands and registers shared by SD cards and eMMC devices.

use vstd::prelude::*;
use core::marker::PhantomData;

use crate::{
    BlockCommand, Command, ControlCommand, R0, R1, R1b, R2, R3, R4, R6,
};

verus! {

/// Masking the low bits of a value keeps it modulo a power of two.
pub(crate) proof fn lemma_u128_low_masks(x: u128)
    by (bit_vector)
    ensures
        x & 0x3 == x % 0x4,
        x & 0x7 == x % 0x8,
        x & 0xF == x % 0x10,
        x & 0xFFF == x % 0x1000,
        x & 0x3F_FFFF == x % 0x40_0000,
        x & 0xFFF_FFFF == x % 0x1000_0000,
{
}

/// Masking the low nine bits of a word keeps it modulo 512.
pub(crate) proof fn lemma_u32_low_masks(x: u32)
    by (bit_vector)
    ensures
        x & 0x1FF == x % 0x200,
{
}

/// Masking the low bits of a byte keeps it modulo a power of two; its
/// high nibble shifted down is its quotient by 16.
pub(crate) proof fn lemma_u8_low_masks(b: u8)
    by (bit_vector)
    ensures
        b & 0x3 == b % 4,
        b & 0xF == b % 16,
        b & 0x1F == b % 32,
        (b & 0xF0) >> 4u8 == b / 16,
{
}

/// A 16-bit value shifted into the high half of a word is multiplied by
/// 0x10000.
pub(crate) proof fn lemma_shl16(x: u32)
    by (bit_vector)
    requires
        x <= 0xFFFF,
    ensures
        x << 16u32 == x * 0x10000,
{
}

// ============================================================================
// COMMON COMMANDS
// ============================================================================

/// CMD0 — GO_IDLE_STATE
pub struct Cmd0;

impl Command for Cmd0 {
    const INDEX: u8 = 0;
    type Resp<'a> = R0;

    /// The command index, 0.
    fn index(&self) -> (r: u8)
        ensures
            r == 0,
    {
        0
    }

    fn arg(&self) -> (r: u32)
        ensures
            r == 0,
    {
        0
    }
}

impl ControlCommand for Cmd0 {}

/// CMD0 — GO_IDLE_STATE
pub fn idle() -> (r: Cmd0) {
    Cmd0
}

/// CMD0 — GO_IDLE_STATE (SPI)
pub struct Cmd0S;

impl Command for Cmd0S {
    const INDEX: u8 = 0;
    type Resp<'a> = R1;

    /// The command index, 0.
    fn index(&self) -> (r: u8)
        ensures
            r == 0,
    {
        0
    }

    fn arg(&self) -> (r: u32)
        ensures
            r == 0,
    {
        0
    }
}

impl ControlCommand for Cmd0S {}

/// CMD0 — GO_IDLE_STATE (SPI)
pub fn idle_spi() -> (r: Cmd0S) {
    Cmd0S
}

/// CMD2 — ALL_SEND_CID
pub struct Cmd2;

impl Command for Cmd2 {
    const INDEX: u8 = 2;
    type Resp<'a> = R2;

    /// The command index, 2.
    fn index(&self) -> (r: u8)
        ensures
            r == 2,
    {
        2
    }

    fn arg(&self) -> (r: u32)
        ensures
            r == 0,
    {
        0
    }
}

impl ControlCommand for Cmd2 {}

/// CMD2: Ask any card to send their CID
pub fn all_send_cid() -> (r: Cmd2) {
    Cmd2
}

/// The argument of a command that addresses a card by its RCA: the RCA in
/// the upper 16 bits, zero below.
pub open spec fn rca_arg(rca: u16) -> int {
    (rca as u32) * 0x10000
}

/// Computes `rca_arg`.
fn rca_to_arg(rca: u16) -> (r: u32)
    ensures
        r == rca_arg(rca),
{
    let x = rca as u32;
    proof {
        lemma_shl16(x);
    }
    x << 16
}

/// CMD7 — SELECT/DESELECT_CARD
pub struct Cmd7 {
    pub rca: u16,
}

impl Command for Cmd7 {
    const INDEX: u8 = 7;
    type Resp<'a> = R1;

    /// The command index, 7.
    fn index(&self) -> (r: u8)
        ensures
            r == 7,
    {
        7
    }

    fn arg(&self) -> (r: u32)
        ensures
            r == rca_arg(self.rca),
    {
        rca_to_arg(self.rca)
    }
}

impl ControlCommand for Cmd7 {}

/// CMD7: Select or deselect card
pub fn select_card(rca: u16) -> (r: Cmd7)
    ensures
        r.rca == rca,
{
    Cmd7 { rca }
}

/// CMD9 — SEND_CSD
pub struct Cmd9 {
    pub rca: u16,
}

impl Command for Cmd9 {
    const INDEX: u8 = 9;
    type Resp<'a> = R2;

    /// The command index, 9.
    fn index(&self) -> (r: u8)
        ensures
            r == 9,
    {
        9
    }

    fn arg(&self) -> (r: u32)
        ensures
            r == rca_arg(self.rca),
    {
        rca_to_arg(self.rca)
    }
}

impl ControlCommand for Cmd9 {}

/// CMD9: Send CSD
pub fn send_csd(rca: u16) -> (r: Cmd9)
    ensures
        r.rca == rca,
{
    Cmd9 { rca }
}

/// CMD10 — SEND_CID
pub struct Cmd10 {
    pub rca: u16,
}

impl Command for Cmd10 {
    const INDEX: u8 = 10;
    type Resp<'a> = R2;

    /// The command index, 10.
    fn index(&self) -> (r: u8)
        ensures
            r == 10,
    {
        10
    }

    fn arg(&self) -> (r: u32)
        ensures
            r == rca_arg(self.rca),
    {
        rca_to_arg(self.rca)
    }
}

impl ControlCommand for Cmd10 {}

/// CMD10: Send CID
pub fn send_cid(rca: u16) -> (r: Cmd10)
    ensures
        r.rca == rca,
{
    Cmd10 { rca }
}

/// CMD12 — STOP_TRANSMISSION (R1b)
pub struct Cmd12;

impl Command for Cmd12 {
    const INDEX: u8 = 12;
    type Resp<'a> = R1b;

    /// The command index, 12.
    fn index(&self) -> (r: u8)
        ensures
            r == 12,
    {
        12
    }

    fn arg(&self) -> (r: u32)
        ensures
            r == 0,
    {
        0
    }
}

impl ControlCommand for Cmd12 {}

/// CMD12: Stop transmission
pub fn stop_transmission() -> (r: Cmd12) {
    Cmd12
}

/// CMD13 — SEND_STATUS
pub struct Cmd13 {
    pub rca: u16,
    pub task_status: bool,
}

impl Command for Cmd13 {
    const INDEX: u8 = 13;
    type Resp<'a> = R1;

    /// The command index, 13.
    fn index(&self) -> (r: u8)
        ensures
            r == 13,
    {
        13
    }

    fn arg(&self) -> (r: u32)
        ensures
            r == rca_arg(self.rca) + if self.task_status { 0x8000u32 } else { 0u32 },
    {
        let x = self.rca as u32;
        let t: u32 = if self.task_status { 1 } else { 0 };
        assert(x <= 0xFFFF && t <= 1 ==> (x << 16u32) | (t << 15u32) == x * 0x10000 + t * 0x8000)
            by (bit_vector);
        x << 16 | t << 15
    }
}

impl ControlCommand for Cmd13 {}

/// CMD13: Ask card to send status or task status
pub fn card_status(rca: u16, task_status: bool) -> (r: Cmd13)
    ensures
        r.rca == rca,
        r.task_status == task_status,
{
    Cmd13 { rca, task_status }
}

/// CMD16 — SET_BLOCKLEN (rarely used on SDHC/SDXC)
pub struct Cmd16 {
    pub block_len: u32,
}

impl Command for Cmd16 {
    const INDEX: u8 = 16;
    type Resp<'a> = R1;

    /// The command index, 16.
    fn index(&self) -> (r: u8)
        ensures
            r == 16,
    {
        16
    }

    fn arg(&self) -> (r: u32)
        ensures
            r == self.block_len,
    {
        self.block_len
    }
}

impl ControlCommand for Cmd16 {}

/// CMD16: Set block len
pub fn set_block_length(block_len: u32) -> (r: Cmd16)
    ensures
        r.block_len == block_len,
{
    Cmd16 { block_len }
}

/// CMD17 — READ_SINGLE_BLOCK of `BLOCK_SIZE` bytes at `addr`.
pub struct Cmd17<const BLOCK_SIZE: usize> {
    pub addr: u32,
}

impl<const BLOCK_SIZE: usize> Command for Cmd17<BLOCK_SIZE> {
    const INDEX: u8 = 17;
    type Resp<'b> = R1;

    /// The command index, 17.
    fn index(&self) -> (r: u8)
        ensures
            r == 17,
    {
        17
    }

    fn arg(&self) -> (r: u32)
        ensures
            r == self.addr,
    {
        self.addr
    }
}

impl<const BLOCK_SIZE: usize> BlockCommand for Cmd17<BLOCK_SIZE> {
    fn block_size(&self) -> (r: BlockSize)
        ensures
            r == block_size_of(BLOCK_SIZE as nat),
    {
        block_size(BLOCK_SIZE)
    }

    fn block_count(&self) -> (r: u32)
        ensures
            r == 1,
    {
        1
    }
}

/// CMD17: Read a single block from the card
pub fn read_single_block<const BLOCK_SIZE: usize>(addr: u32) -> (r: Cmd17<BLOCK_SIZE>)
    ensures
        r.addr == addr,
{
    Cmd17 { addr }
}

/// CMD18 — READ_MULTIPLE_BLOCK: `blocks` blocks of `BLOCK_SIZE` bytes from `addr`.
pub struct Cmd18<const BLOCK_SIZE: usize> {
    pub addr: u32,
    pub blocks: u32,
}

impl<const BLOCK_SIZE: usize> Command for Cmd18<BLOCK_SIZE> {
    const INDEX: u8 = 18;
    type Resp<'b> = R1;

    /// The command index, 18.
    fn index(&self) -> (r: u8)
        ensures
            r == 18,
    {
        18
    }

    fn arg(&self) -> (r: u32)
        ensures
            r == self.addr,
    {
        self.addr
    }
}

impl<const BLOCK_SIZE: usize> BlockCommand for Cmd18<BLOCK_SIZE> {
    fn block_size(&self) -> (r: BlockSize)
        ensures
            r == block_size_of(BLOCK_SIZE as nat),
    {
        block_size(BLOCK_SIZE)
    }

    fn block_count(&self) -> (r: u32)
        ensures
            r == self.blocks,
    {
        self.blocks
    }
}

/// CMD18: Read multiple blocks from the card
pub fn read_multiple_blocks<const BLOCK_SIZE: usize>(addr: u32, blocks: u32) -> (r: Cmd18<
    BLOCK_SIZE,
>)
    ensures
        r.addr == addr,
        r.blocks == blocks,
{
    Cmd18 { addr, blocks }
}

/// CMD24 — WRITE_BLOCK of `BLOCK_SIZE` bytes at `addr`.
pub struct Cmd24<const BLOCK_SIZE: usize> {
    pub addr: u32,
}

impl<const BLOCK_SIZE: usize> Command for Cmd24<BLOCK_SIZE> {
    const INDEX: u8 = 24;
    type Resp<'b> = R1b;

    /// The command index, 24.
    fn index(&self) -> (r: u8)
        ensures
            r == 24,
    {
        24
    }

    fn arg(&self) -> (r: u32)
        ensures
            r == self.addr,
    {
        self.addr
    }
}

impl<const BLOCK_SIZE: usize> BlockCommand for Cmd24<BLOCK_SIZE> {
    fn block_size(&self) -> (r: BlockSize)
        ensures
            r == block_size_of(BLOCK_SIZE as nat),
    {
        block_size(BLOCK_SIZE)
    }

    fn block_count(&self) -> (r: u32)
        ensures
            r == 1,
    {
        1
    }
}

/// CMD24: Write block
pub fn write_single_block<const BLOCK_SIZE: usize>(addr: u32) -> (r: Cmd24<BLOCK_SIZE>)
    ensures
        r.addr == addr,
{
    Cmd24 { addr }
}

/// CMD25 — WRITE_MULTIPLE_BLOCK: `blocks` blocks of `BLOCK_SIZE` bytes at `addr`.
pub struct Cmd25<const BLOCK_SIZE: usize> {
    pub addr: u32,
    pub blocks: u32,
}

impl<const BLOCK_SIZE: usize> Command for Cmd25<BLOCK_SIZE> {
    const INDEX: u8 = 25;
    type Resp<'b> = R1b;

    /// The command index, 25.
    fn index(&self) -> (r: u8)
        ensures
            r == 25,
    {
        25
    }

    fn arg(&self) -> (r: u32)
        ensures
            r == self.addr,
    {
        self.addr
    }
}

impl<const BLOCK_SIZE: usize> BlockCommand for Cmd25<BLOCK_SIZE> {
    fn block_size(&self) -> (r: BlockSize)
        ensures
            r == block_size_of(BLOCK_SIZE as nat),
    {
        block_size(BLOCK_SIZE)
    }

    fn block_count(&self) -> (r: u32)
        ensures
            r == self.blocks,
    {
        self.blocks
    }
}

/// CMD25: Write multiple blocks
pub fn write_multiple_blocks<const BLOCK_SIZE: usize>(addr: u32, blocks: u32) -> (r: Cmd25<
    BLOCK_SIZE,
>)
    ensures
        r.addr == addr,
        r.blocks == blocks,
{
    Cmd25 { addr, blocks }
}

/// CMD38 — ERASE (R1b)
pub struct Cmd38;

impl Command for Cmd38 {
    const INDEX: u8 = 38;
    type Resp<'a> = R1b;

    /// The command index, 38.
    fn index(&self) -> (r: u8)
        ensures
            r == 38,
    {
        38
    }

    fn arg(&self) -> (r: u32)
        ensures
            r == 0,
    {
        0
    }
}

impl ControlCommand for Cmd38 {}

/// CMD38: Erase all previously selected write blocks
pub fn erase() -> (r: Cmd38) {
    Cmd38
}

/// CMD55 — APP_CMD prefix
pub struct Cmd55 {
    pub rca: u16,
}

impl Command for Cmd55 {
    const INDEX: u8 = 55;
    type Resp<'a> = R1;

    /// The command index, 55.
    fn index(&self) -> (r: u8)
        ensures
            r == 55,
    {
        55
    }

    fn arg(&self) -> (r: u32)
        ensures
            r == rca_arg(self.rca),
    {
        rca_to_arg(self.rca)
    }
}

impl ControlCommand for Cmd55 {}

/// CMD55: App Command. Indicates that next command will be a app command
pub fn app_cmd(rca: u16) -> (r: Cmd55)
    ensures
        r.rca == rca,
{
    Cmd55 { rca }
}

/// Types of SD Card
#[derive(Debug, Copy, Clone, PartialEq, Eq)]
#[non_exhaustive]
pub enum CardCapacity {
    /// SDSC / Standard Capacity (<= 2GB)
    StandardCapacity,
    /// SDHC / High capacity (<= 32GB for SD cards, <= 256GB for eMMC)
    HighCapacity,
}

impl Default for CardCapacity {
    fn default() -> (r: Self)
        ensures
            r == CardCapacity::StandardCapacity,
    {
        CardCapacity::StandardCapacity
    }
}

/// Block sizes that a card can report (powers of two from 1 byte to 16 kB).
#[derive(Debug, Copy, Clone, Eq, PartialEq)]
pub enum BlockSize {
    B1,
    B2,
    B4,
    B8,
    B16,
    B32,
    B64,
    B128,
    B256,
    B512,
    B1024,
    B2048,
    B4096,
    B8192,
    B16kB,
    Unknown,
}

/// The exponent of a block size: `len == 2^exponent`; `None` when unknown.
pub open spec fn block_size_exponent(b: BlockSize) -> Option<nat> {
    match b {
        BlockSize::B1 => Some(0),
        BlockSize::B2 => Some(1),
        BlockSize::B4 => Some(2),
        BlockSize::B8 => Some(3),
        BlockSize::B16 => Some(4),
        BlockSize::B32 => Some(5),
        BlockSize::B64 => Some(6),
        BlockSize::B128 => Some(7),
        BlockSize::B256 => Some(8),
        BlockSize::B512 => Some(9),
        BlockSize::B1024 => Some(10),
        BlockSize::B2048 => Some(11),
        BlockSize::B4096 => Some(12),
        BlockSize::B8192 => Some(13),
        BlockSize::B16kB => Some(14),
        BlockSize::Unknown => None,
    }
}

/// The block size whose exponent (`log2` of its length) is `e`.
pub open spec fn block_size_of_exponent(e: nat) -> BlockSize {
    if e == 0 {
        BlockSize::B1
    } else if e == 1 {
        BlockSize::B2
    } else if e == 2 {
        BlockSize::B4
    } else if e == 3 {
        BlockSize::B8
    } else if e == 4 {
        BlockSize::B16
    } else if e == 5 {
        BlockSize::B32
    } else if e == 6 {
        BlockSize::B64
    } else if e == 7 {
        BlockSize::B128
    } else if e == 8 {
        BlockSize::B256
    } else if e == 9 {
        BlockSize::B512
    } else if e == 10 {
        BlockSize::B1024
    } else if e == 11 {
        BlockSize::B2048
    } else if e == 12 {
        BlockSize::B4096
    } else if e == 13 {
        BlockSize::B8192
    } else if e == 14 {
        BlockSize::B16kB
    } else {
        BlockSize::Unknown
    }
}

/// Byte length of a block size; 0 when unknown.
pub open spec fn block_size_len(b: BlockSize) -> nat {
    match block_size_exponent(b) {
        Some(e) => vstd::arithmetic::power2::pow2(e),
        None => 0,
    }
}

/// The block size whose byte length is `len`; `Unknown` when `len` is not
/// a power of two up to 16 kB.
pub open spec fn block_size_of(len: nat) -> BlockSize {
    if exists|e: nat| e <= 14 && vstd::arithmetic::power2::pow2(e) == len {
        block_size_of_exponent(choose|e: nat| e <= 14 && vstd::arithmetic::power2::pow2(e) == len)
    } else {
        BlockSize::Unknown
    }
}

/// The powers of two that block sizes use.
pub(crate) proof fn lemma_small_pow2()
    ensures
        vstd::arithmetic::power2::pow2(0) == 1,
        vstd::arithmetic::power2::pow2(1) == 2,
        vstd::arithmetic::power2::pow2(2) == 4,
        vstd::arithmetic::power2::pow2(3) == 8,
        vstd::arithmetic::power2::pow2(4) == 16,
        vstd::arithmetic::power2::pow2(5) == 32,
        vstd::arithmetic::power2::pow2(6) == 64,
        vstd::arithmetic::power2::pow2(7) == 128,
        vstd::arithmetic::power2::pow2(8) == 256,
        vstd::arithmetic::power2::pow2(9) == 512,
        vstd::arithmetic::power2::pow2(10) == 1024,
        vstd::arithmetic::power2::pow2(11) == 2048,
        vstd::arithmetic::power2::pow2(12) == 4096,
        vstd::arithmetic::power2::pow2(13) == 8192,
        vstd::arithmetic::power2::pow2(14) == 16384,
        vstd::arithmetic::power2::pow2(15) == 32768,
{
    vstd::arithmetic::power2::lemma2_to64();
}

/// `pow2` is strictly increasing, so each length names at most one exponent.
proof fn lemma_pow2_injective(a: nat, b: nat)
    requires
        vstd::arithmetic::power2::pow2(a) == vstd::arithmetic::power2::pow2(b),
    ensures
        a == b,
{
    if a < b {
        vstd::arithmetic::power2::lemma_pow2_strictly_increases(a, b);
    } else if b < a {
        vstd::arithmetic::power2::lemma_pow2_strictly_increases(b, a);
    }
}

/// The block size with the given exponent has that exponent.
proof fn lemma_block_size_of_exponent(e: nat)
    requires
        e <= 14,
    ensures
        block_size_exponent(block_size_of_exponent(e)) == Some(e),
{
}

/// `block_size_of` of a power of two up to 16 kB is the block size with that exponent.
proof fn lemma_block_size_of_pow2(e: nat)
    requires
        e <= 14,
    ensures
        block_size_of(vstd::arithmetic::power2::pow2(e)) == block_size_of_exponent(e),
{
    let len = vstd::arithmetic::power2::pow2(e);
    assert(exists|x: nat| x <= 14 && vstd::arithmetic::power2::pow2(x) == len);
    let c = choose|x: nat| x <= 14 && vstd::arithmetic::power2::pow2(x) == len;
    lemma_pow2_injective(c, e);
}

impl BlockSize {
    /// Length of the block size. Will return 0 if unknown.
    #[allow(clippy::len_without_is_empty)]
    pub fn len(&self) -> (r: usize)
        ensures
            r == block_size_len(*self),
    {
        proof {
            lemma_small_pow2();
        }
        match self {
            BlockSize::B1 => 1,
            BlockSize::B2 => 2,
            BlockSize::B4 => 4,
            BlockSize::B8 => 8,
            BlockSize::B16 => 16,
            BlockSize::B32 => 32,
            BlockSize::B64 => 64,
            BlockSize::B128 => 128,
            BlockSize::B256 => 256,
            BlockSize::B512 => 512,
            BlockSize::B1024 => 1024,
            BlockSize::B2048 => 2048,
            BlockSize::B4096 => 4096,
            BlockSize::B8192 => 8192,
            BlockSize::B16kB => 16384,
            _ => 0,
        }
    }
}

/// The block size whose length is `len` bytes, `Unknown` for any other length.
pub fn block_size(len: usize) -> (r: BlockSize)
    ensures
        r == block_size_of(len as nat),
{
    proof {
        lemma_small_pow2();
    }
    let r = match len {
        1 => BlockSize::B1,
        2 => BlockSize::B2,
        4 => BlockSize::B4,
        8 => BlockSize::B8,
        16 => BlockSize::B16,
        32 => BlockSize::B32,
        64 => BlockSize::B64,
        128 => BlockSize::B128,
        256 => BlockSize::B256,
        512 => BlockSize::B512,
        1024 => BlockSize::B1024,
        2048 => BlockSize::B2048,
        4096 => BlockSize::B4096,
        8192 => BlockSize::B8192,
        16384 => BlockSize::B16kB,
        _ => BlockSize::Unknown,
    };
    proof {
        if r != BlockSize::Unknown {
            let e = block_size_exponent(r)->Some_0;
            lemma_block_size_of_pow2(e);
        } else {
            if exists|e: nat| e <= 14 && vstd::arithmetic::power2::pow2(e) == len {
                let e = choose|e: nat| e <= 14 && vstd::arithmetic::power2::pow2(e) == len;
                assert(false);
            }
        }
    }
    r
}

/// Block sizes round-trip through their length: `block_size(b.len()) == b`
/// for every known block size, and `block_size(n).len()` is `n` whenever
/// `n` names a block size (0 otherwise).
pub proof fn lemma_block_size_round_trip(b: BlockSize, n: nat)
    ensures
        b != BlockSize::Unknown ==> block_size_of(block_size_len(b)) == b,
        block_size_len(block_size_of(n)) == n || (block_size_of(n) == BlockSize::Unknown
            && block_size_len(block_size_of(n)) == 0),
{
    if b != BlockSize::Unknown {
        let e = block_size_exponent(b)->Some_0;
        lemma_block_size_of_pow2(e);
    }
    if block_size_of(n) != BlockSize::Unknown {
        let e = choose|e: nat| e <= 14 && vstd::arithmetic::power2::pow2(e) == n;
        lemma_block_size_of_exponent(e);
    }
}


/// CURRENT_STATE enum. Used for R1 response in command queue mode in SD spec, or all R1 responses
/// in eMMC spec.
///
/// Ref PLSS_v7_10 Table 4-75
/// Ref JESD84-B51 Table 68
#[derive(Eq, PartialEq, Copy, Clone, Debug, Structural)]
pub enum CurrentState {
    /// Card state is ready
    Ready,
    /// Card is in identification state
    Identification,
    /// Card is in standby state
    Standby,
    /// Card is in transfer state
    Transfer,
    /// Card is sending an operation
    Sending,
    /// Card is receiving operation information
    Receiving,
    /// Card is in programming state
    Programming,
    /// Card is disconnected
    Disconnected,
    /// Card is in bus testing mode. Only valid for eMMC (reserved by SD spec).
    BusTest,
    /// Card is in sleep mode. Only valid for eMMC (reserved by SD spec).
    Sleep,
    /// Error (codes 0 and 11 to 255)
    Error,
}

/// The state that a CURRENT_STATE code names.
pub open spec fn current_state_of(n: u8) -> CurrentState {
    if n == 1 {
        CurrentState::Ready
    } else if n == 2 {
        CurrentState::Identification
    } else if n == 3 {
        CurrentState::Standby
    } else if n == 4 {
        CurrentState::Transfer
    } else if n == 5 {
        CurrentState::Sending
    } else if n == 6 {
        CurrentState::Receiving
    } else if n == 7 {
        CurrentState::Programming
    } else if n == 8 {
        CurrentState::Disconnected
    } else if n == 9 {
        CurrentState::BusTest
    } else if n == 10 {
        CurrentState::Sleep
    } else {
        CurrentState::Error
    }
}

/// The numeric code of a state: CURRENT_STATE 1 to 10, and 128 for
/// `Error`.
pub open spec fn current_state_code(s: CurrentState) -> u8 {
    match s {
        CurrentState::Ready => 1,
        CurrentState::Identification => 2,
        CurrentState::Standby => 3,
        CurrentState::Transfer => 4,
        CurrentState::Sending => 5,
        CurrentState::Receiving => 6,
        CurrentState::Programming => 7,
        CurrentState::Disconnected => 8,
        CurrentState::BusTest => 9,
        CurrentState::Sleep => 10,
        CurrentState::Error => 128,
    }
}

impl CurrentState {
    /// The numeric code of the state.
    pub fn code(&self) -> (r: u8)
        ensures
            r == current_state_code(*self),
    {
        match self {
            CurrentState::Ready => 1,
            CurrentState::Identification => 2,
            CurrentState::Standby => 3,
            CurrentState::Transfer => 4,
            CurrentState::Sending => 5,
            CurrentState::Receiving => 6,
            CurrentState::Programming => 7,
            CurrentState::Disconnected => 8,
            CurrentState::BusTest => 9,
            CurrentState::Sleep => 10,
            CurrentState::Error => 128,
        }
    }
}

/// A state's code decodes back to the state.
pub proof fn lemma_current_state_code_round_trip(s: CurrentState)
    ensures
        current_state_of(current_state_code(s)) == s,
{
}

impl From<u8> for CurrentState {
    fn from(n: u8) -> (r: Self) {
        match n {
            1 => Self::Ready,
            2 => Self::Identification,
            3 => Self::Standby,
            4 => Self::Transfer,
            5 => Self::Sending,
            6 => Self::Receiving,
            7 => Self::Programming,
            8 => Self::Disconnected,
            9 => Self::BusTest,
            10 => Self::Sleep,
            _ => Self::Error,
        }
    }
}

impl vstd::std_specs::convert::FromSpecImpl<u8> for CurrentState {
    open spec fn obeys_from_spec() -> bool {
        true
    }

    open spec fn from_spec(n: u8) -> Self {
        current_state_of(n)
    }
}

/// Maximum current ratings that the CSD encodes.
#[derive(Copy, Clone, Eq, PartialEq, Debug)]
#[allow(non_camel_case_types)]
pub enum CurrentConsumption {
    I_0mA,
    I_1mA,
    I_5mA,
    I_10mA,
    I_25mA,
    I_35mA,
    I_45mA,
    I_60mA,
    I_80mA,
    I_100mA,
    I_200mA,
}

/// Milliamperes of a current rating.
pub open spec fn milliamps(i: CurrentConsumption) -> u32 {
    match i {
        CurrentConsumption::I_0mA => 0,
        CurrentConsumption::I_1mA => 1,
        CurrentConsumption::I_5mA => 5,
        CurrentConsumption::I_10mA => 10,
        CurrentConsumption::I_25mA => 25,
        CurrentConsumption::I_35mA => 35,
        CurrentConsumption::I_45mA => 45,
        CurrentConsumption::I_60mA => 60,
        CurrentConsumption::I_80mA => 80,
        CurrentConsumption::I_100mA => 100,
        CurrentConsumption::I_200mA => 200,
    }
}

/// Rating that a 3-bit VDD_x_CURR_MIN code stands for.
pub open spec fn current_minimum_of(code: int) -> CurrentConsumption {
    if code == 0 {
        CurrentConsumption::I_0mA
    } else if code == 1 {
        CurrentConsumption::I_1mA
    } else if code == 2 {
        CurrentConsumption::I_5mA
    } else if code == 3 {
        CurrentConsumption::I_10mA
    } else if code == 4 {
        CurrentConsumption::I_25mA
    } else if code == 5 {
        CurrentConsumption::I_35mA
    } else if code == 6 {
        CurrentConsumption::I_60mA
    } else {
        CurrentConsumption::I_100mA
    }
}

/// Rating that a 3-bit VDD_x_CURR_MAX code stands for.
pub open spec fn current_maximum_of(code: int) -> CurrentConsumption {
    if code == 0 {
        CurrentConsumption::I_1mA
    } else if code == 1 {
        CurrentConsumption::I_5mA
    } else if code == 2 {
        CurrentConsumption::I_10mA
    } else if code == 3 {
        CurrentConsumption::I_25mA
    } else if code == 4 {
        CurrentConsumption::I_35mA
    } else if code == 5 {
        CurrentConsumption::I_45mA
    } else if code == 6 {
        CurrentConsumption::I_80mA
    } else {
        CurrentConsumption::I_200mA
    }
}

impl From<&CurrentConsumption> for u32 {
    fn from(i: &CurrentConsumption) -> (r: u32) {
        match i {
            CurrentConsumption::I_0mA => 0,
            CurrentConsumption::I_1mA => 1,
            CurrentConsumption::I_5mA => 5,
            CurrentConsumption::I_10mA => 10,
            CurrentConsumption::I_25mA => 25,
            CurrentConsumption::I_35mA => 35,
            CurrentConsumption::I_45mA => 45,
            CurrentConsumption::I_60mA => 60,
            CurrentConsumption::I_80mA => 80,
            CurrentConsumption::I_100mA => 100,
            CurrentConsumption::I_200mA => 200,
        }
    }
}

impl vstd::std_specs::convert::FromSpecImpl<&CurrentConsumption> for u32 {
    open spec fn obeys_from_spec() -> bool {
        true
    }

    open spec fn from_spec(i: &CurrentConsumption) -> u32 {
        milliamps(*i)
    }
}

impl CurrentConsumption {
    fn from_minimum_reg(reg: u128) -> (r: CurrentConsumption)
        ensures
            r == current_minimum_of((reg % 8) as int),
    {
        let code = reg & 0x7;
        proof {
            lemma_u128_low_masks(reg);
        }
        match code {
            0 => CurrentConsumption::I_0mA,
            1 => CurrentConsumption::I_1mA,
            2 => CurrentConsumption::I_5mA,
            3 => CurrentConsumption::I_10mA,
            4 => CurrentConsumption::I_25mA,
            5 => CurrentConsumption::I_35mA,
            6 => CurrentConsumption::I_60mA,
            _ => CurrentConsumption::I_100mA,
        }
    }

    fn from_maximum_reg(reg: u128) -> (r: CurrentConsumption)
        ensures
            r == current_maximum_of((reg % 8) as int),
    {
        let code = reg & 0x7;
        proof {
            lemma_u128_low_masks(reg);
        }
        match code {
            0 => CurrentConsumption::I_1mA,
            1 => CurrentConsumption::I_5mA,
            2 => CurrentConsumption::I_10mA,
            3 => CurrentConsumption::I_25mA,
            4 => CurrentConsumption::I_35mA,
            5 => CurrentConsumption::I_45mA,
            6 => CurrentConsumption::I_80mA,
            _ => CurrentConsumption::I_200mA,
        }
    }
}

/// Operation Conditions Register (OCR), as carried by R3 (SD, eMMC) or R4 (SDIO).
pub struct OCR<Ext>(pub u32, pub PhantomData<Ext>);

impl<Ext> Clone for OCR<Ext> {
    fn clone(&self) -> (r: Self)
        ensures
            r == *self,
    {
        OCR(self.0, PhantomData)
    }
}

impl<Ext> Copy for OCR<Ext> {}

impl<Ext> Default for OCR<Ext> {
    fn default() -> (r: Self)
        ensures
            r.0 == 0,
    {
        OCR(0, PhantomData)
    }
}

impl<Ext> From<R3> for OCR<Ext> {
    fn from(resp: R3) -> (r: Self) {
        Self(resp.ocr, PhantomData)
    }
}

impl<Ext> vstd::std_specs::convert::FromSpecImpl<R3> for OCR<Ext> {
    open spec fn obeys_from_spec() -> bool {
        true
    }

    open spec fn from_spec(resp: R3) -> Self {
        OCR(resp.ocr, PhantomData)
    }
}

impl<Ext> From<R4> for OCR<Ext> {
    fn from(resp: R4) -> (r: Self) {
        Self(resp.ocr, PhantomData)
    }
}

impl<Ext> vstd::std_specs::convert::FromSpecImpl<R4> for OCR<Ext> {
    open spec fn obeys_from_spec() -> bool {
        true
    }

    open spec fn from_spec(resp: R4) -> Self {
        OCR(resp.ocr, PhantomData)
    }
}

impl<Ext> OCR<Ext> {
    /// Card power up status bit (busy); the bit is active low.
    pub fn is_busy(&self) -> (r: bool)
        ensures
            r == (self.0 & 0x8000_0000 == 0),
    {
        self.0 & 0x8000_0000 == 0
    }
}

/// The 16 bytes of a CID, most significant first, from the four words of
/// an R2 (least significant word first).
pub open spec fn be_bytes_of_words(w: Seq<u32>) -> Seq<u8> {
    seq![
        (w[3] >> 24u32) as u8, (w[3] >> 16u32) as u8, (w[3] >> 8u32) as u8, w[3] as u8,
        (w[2] >> 24u32) as u8, (w[2] >> 16u32) as u8, (w[2] >> 8u32) as u8, w[2] as u8,
        (w[1] >> 24u32) as u8, (w[1] >> 16u32) as u8, (w[1] >> 8u32) as u8, w[1] as u8,
        (w[0] >> 24u32) as u8, (w[0] >> 16u32) as u8, (w[0] >> 8u32) as u8, w[0] as u8,
    ]
}

/// The 128-bit value of four response words, least significant word first.
pub open spec fn words_value(w: Seq<u32>) -> u128 {
    ((w[3] as u128) << 96u128) | ((w[2] as u128) << 64u128) | ((w[1] as u128) << 32u128)
        | (w[0] as u128)
}

/// The 128-bit big-endian value of 16 bytes.
pub open spec fn be_value(b: Seq<u8>) -> u128 {
    ((b[0] as u128) << 120u128) | ((b[1] as u128) << 112u128) | ((b[2] as u128) << 104u128)
        | ((b[3] as u128) << 96u128) | ((b[4] as u128) << 88u128) | ((b[5] as u128) << 80u128)
        | ((b[6] as u128) << 72u128) | ((b[7] as u128) << 64u128) | ((b[8] as u128) << 56u128)
        | ((b[9] as u128) << 48u128) | ((b[10] as u128) << 40u128) | ((b[11] as u128) << 32u128)
        | ((b[12] as u128) << 24u128) | ((b[13] as u128) << 16u128) | ((b[14] as u128) << 8u128)
        | (b[15] as u128)
}

/// Card Identification Register (CID), bytes as the card sends them.
pub struct CID<Ext> {
    pub bytes: [u8; 16],
    pub ext: PhantomData<Ext>,
}

impl<Ext> Clone for CID<Ext> {
    fn clone(&self) -> (r: Self)
        ensures
            r == *self,
    {
        CID { bytes: self.bytes, ext: PhantomData }
    }
}

impl<Ext> Copy for CID<Ext> {}

impl<Ext> Default for CID<Ext> {
    fn default() -> (r: Self)
        ensures
            forall|i: int| 0 <= i < 16 ==> r.bytes@[i] == 0,
    {
        CID { bytes: [0u8; 16], ext: PhantomData }
    }
}

/// From little endian words
impl<Ext> From<R2> for CID<Ext> {
    fn from(resp: R2) -> (r: Self) {
        let w = resp.words;
        let bytes: [u8; 16] = [
            (w[3] >> 24) as u8, (w[3] >> 16) as u8, (w[3] >> 8) as u8, w[3] as u8,
            (w[2] >> 24) as u8, (w[2] >> 16) as u8, (w[2] >> 8) as u8, w[2] as u8,
            (w[1] >> 24) as u8, (w[1] >> 16) as u8, (w[1] >> 8) as u8, w[1] as u8,
            (w[0] >> 24) as u8, (w[0] >> 16) as u8, (w[0] >> 8) as u8, w[0] as u8,
        ];
        let r = Self { bytes, ext: PhantomData };
        assert(r.bytes@ =~= be_bytes_of_words(resp.words@));
        r
    }
}

impl<Ext> vstd::std_specs::convert::FromSpecImpl<R2> for CID<Ext> {
    open spec fn obeys_from_spec() -> bool {
        true
    }

    open spec fn from_spec(resp: R2) -> Self {
        let w = resp.words;
        CID {
            bytes: [
                (w[3] >> 24u32) as u8, (w[3] >> 16u32) as u8, (w[3] >> 8u32) as u8, w[3] as u8,
                (w[2] >> 24u32) as u8, (w[2] >> 16u32) as u8, (w[2] >> 8u32) as u8, w[2] as u8,
                (w[1] >> 24u32) as u8, (w[1] >> 16u32) as u8, (w[1] >> 8u32) as u8, w[1] as u8,
                (w[0] >> 24u32) as u8, (w[0] >> 16u32) as u8, (w[0] >> 8u32) as u8, w[0] as u8,
            ],
            ext: PhantomData,
        }
    }
}


/// The text that a byte string decodes to as UTF-8, or `None` when the
/// bytes are not valid UTF-8.
pub uninterp spec fn utf8_text(bytes: Seq<u8>) -> Option<Seq<char>>;

/// Whether every byte is an ASCII code.
pub open spec fn all_ascii(bytes: Seq<u8>) -> bool {
    forall|i: int| 0 <= i < bytes.len() ==> #[trigger] bytes[i] < 0x80
}

/// The characters whose codes are the bytes.
pub open spec fn ascii_chars(bytes: Seq<u8>) -> Seq<char> {
    bytes.map_values(|b: u8| b as char)
}

/// Decodes `bytes` as UTF-8 with `core::str::from_utf8`: `Some` with the
/// text exactly when the bytes are valid UTF-8 (`utf8_text` names the
/// decoding; its rules are not written out here, except that ASCII bytes
/// decode to the characters of the same codes).
#[verifier::external_body]
pub(crate) fn str_from_utf8(bytes: &[u8]) -> (r: Option<&str>)
    ensures
        utf8_text(bytes@) is Some <==> r is Some,
        r matches Some(s) ==> utf8_text(bytes@) == Some(s@),
        all_ascii(bytes@) ==> r is Some,
        all_ascii(bytes@) && r is Some ==> r->Some_0@ == ascii_chars(bytes@),
{
    match core::str::from_utf8(bytes) {
        Ok(s) => Some(s),
        Err(_) => None,
    }
}

/// The text of the bytes `lo..hi` of a register, or `"<ERR>"` when they are
/// not valid UTF-8.
pub open spec fn text_field(bytes: Seq<u8>, lo: int, hi: int) -> Seq<char> {
    match utf8_text(bytes.subrange(lo, hi)) {
        Some(t) => t,
        None => "<ERR>"@,
    }
}

/// Decodes bytes `lo..hi` of `bytes` as text, `"<ERR>"` when they are not UTF-8.
pub(crate) fn text_of(bytes: &[u8], lo: usize, hi: usize) -> (r: &str)
    requires
        lo <= hi <= bytes@.len(),
    ensures
        r@ == text_field(bytes@, lo as int, hi as int),
        all_ascii(bytes@.subrange(lo as int, hi as int)) ==> r@ == ascii_chars(
            bytes@.subrange(lo as int, hi as int),
        ),
{
    match str_from_utf8(vstd::slice::slice_subrange(bytes, lo, hi)) {
        Some(s) => s,
        None => "<ERR>",
    }
}

impl<Ext> CID<Ext> {
    /// The CID as one 128-bit value.
    pub fn inner(&self) -> (r: u128)
        ensures
            r == be_value(self.bytes@),
    {
        let b = self.bytes;
        ((b[0] as u128) << 120) | ((b[1] as u128) << 112) | ((b[2] as u128) << 104) | ((
        b[3] as u128) << 96) | ((b[4] as u128) << 88) | ((b[5] as u128) << 80) | ((b[6] as u128)
            << 72) | ((b[7] as u128) << 64) | ((b[8] as u128) << 56) | ((b[9] as u128) << 48) | ((
        b[10] as u128) << 40) | ((b[11] as u128) << 32) | ((b[12] as u128) << 24) | ((
        b[13] as u128) << 16) | ((b[14] as u128) << 8) | (b[15] as u128)
    }

    /// Manufacturer ID
    pub fn manufacturer_id(&self) -> (r: u8)
        ensures
            r == self.bytes@[0],
    {
        self.bytes[0]
    }
}

/// The CID built from an R2 holds the value of the R2's words.
pub proof fn lemma_cid_value_of_words(w: Seq<u32>)
    requires
        w.len() == 4,
    ensures
        be_value(be_bytes_of_words(w)) == words_value(w),
{
    let (w0, w1, w2, w3) = (w[0], w[1], w[2], w[3]);
    let b = be_bytes_of_words(w);
    assert(be_value(b) == ((((w3 >> 24u32) as u8) as u128) << 120u128) | ((((w3 >> 16u32) as u8) as u128) << 112u128)
        | ((((w3 >> 8u32) as u8) as u128) << 104u128) | (((w3 as u8) as u128) << 96u128)
        | ((((w2 >> 24u32) as u8) as u128) << 88u128) | ((((w2 >> 16u32) as u8) as u128) << 80u128)
        | ((((w2 >> 8u32) as u8) as u128) << 72u128) | (((w2 as u8) as u128) << 64u128)
        | ((((w1 >> 24u32) as u8) as u128) << 56u128) | ((((w1 >> 16u32) as u8) as u128) << 48u128)
        | ((((w1 >> 8u32) as u8) as u128) << 40u128) | (((w1 as u8) as u128) << 32u128)
        | ((((w0 >> 24u32) as u8) as u128) << 24u128) | ((((w0 >> 16u32) as u8) as u128) << 16u128)
        | ((((w0 >> 8u32) as u8) as u128) << 8u128) | ((w0 as u8) as u128));
    assert(((((w3 >> 24u32) as u8) as u128) << 120u128) | ((((w3 >> 16u32) as u8) as u128) << 112u128)
        | ((((w3 >> 8u32) as u8) as u128) << 104u128) | (((w3 as u8) as u128) << 96u128)
        | ((((w2 >> 24u32) as u8) as u128) << 88u128) | ((((w2 >> 16u32) as u8) as u128) << 80u128)
        | ((((w2 >> 8u32) as u8) as u128) << 72u128) | (((w2 as u8) as u128) << 64u128)
        | ((((w1 >> 24u32) as u8) as u128) << 56u128) | ((((w1 >> 16u32) as u8) as u128) << 48u128)
        | ((((w1 >> 8u32) as u8) as u128) << 40u128) | (((w1 as u8) as u128) << 32u128)
        | ((((w0 >> 24u32) as u8) as u128) << 24u128) | ((((w0 >> 16u32) as u8) as u128) << 16u128)
        | ((((w0 >> 8u32) as u8) as u128) << 8u128) | ((w0 as u8) as u128)
        == ((w3 as u128) << 96u128) | ((w2 as u128) << 64u128) | ((w1 as u128) << 32u128)
        | (w0 as u128)) by (bit_vector);
}

/// Card Specific Data (CSD) as one 128-bit value.
pub struct CSD<Ext>(pub u128, pub PhantomData<Ext>);

impl<Ext> Clone for CSD<Ext> {
    fn clone(&self) -> (r: Self)
        ensures
            r == *self,
    {
        CSD(self.0, PhantomData)
    }
}

impl<Ext> Copy for CSD<Ext> {}

impl<Ext> Default for CSD<Ext> {
    fn default() -> (r: Self)
        ensures
            r.0 == 0,
    {
        CSD(0, PhantomData)
    }
}

impl<Ext> From<u128> for CSD<Ext> {
    fn from(inner: u128) -> (r: Self) {
        Self(inner, PhantomData)
    }
}

impl<Ext> vstd::std_specs::convert::FromSpecImpl<u128> for CSD<Ext> {
    open spec fn obeys_from_spec() -> bool {
        true
    }

    open spec fn from_spec(inner: u128) -> Self {
        CSD(inner, PhantomData)
    }
}

/// From little endian words
impl<Ext> From<R2> for CSD<Ext> {
    fn from(resp: R2) -> (r: Self) {
        let words = resp.words;
        let inner = ((words[3] as u128) << 96) | ((words[2] as u128) << 64) | ((
        words[1] as u128) << 32) | words[0] as u128;
        CSD(inner, PhantomData)
    }
}

impl<Ext> vstd::std_specs::convert::FromSpecImpl<R2> for CSD<Ext> {
    open spec fn obeys_from_spec() -> bool {
        true
    }

    open spec fn from_spec(resp: R2) -> Self {
        CSD(words_value(resp.words@), PhantomData)
    }
}

impl<Ext> CSD<Ext> {
    /// CSD structure version
    pub fn version(&self) -> (r: u8)
        ensures
            r == (self.0 >> 126u128) as u8 & 3,
    {
        (self.0 >> 126) as u8 & 3
    }

    /// Maximum data transfer rate per one data line
    pub fn transfer_rate(&self) -> (r: u8)
        ensures
            r == (self.0 >> 96u128) as u8,
    {
        (self.0 >> 96) as u8
    }

    /// Maximum block length (READ_BL_LEN). In an SD Memory Card the
    /// WRITE_BL_LEN is always equal to READ_BL_LEN
    pub fn block_length(&self) -> (r: BlockSize)
        ensures
            r == block_size_of_exponent(((self.0 >> 80u128) & 0xF) as nat),
    {
        match (self.0 >> 80) & 0xF {
            0 => BlockSize::B1,
            1 => BlockSize::B2,
            2 => BlockSize::B4,
            3 => BlockSize::B8,
            4 => BlockSize::B16,
            5 => BlockSize::B32,
            6 => BlockSize::B64,
            7 => BlockSize::B128,
            8 => BlockSize::B256,
            9 => BlockSize::B512,
            10 => BlockSize::B1024,
            11 => BlockSize::B2048,
            12 => BlockSize::B4096,
            13 => BlockSize::B8192,
            14 => BlockSize::B16kB,
            _ => BlockSize::Unknown,
        }
    }

    /// Maximum read current at the minimum VDD
    pub fn read_current_minimum_vdd(&self) -> (r: CurrentConsumption)
        ensures
            r == current_minimum_of(((self.0 >> 59u128) & 0x7) as int),
    {
        let x = self.0;
        let v = (x >> 59) & 0x7;
        proof {
            lemma_u128_low_masks(x >> 59u128);
        }
        CurrentConsumption::from_minimum_reg(v)
    }

    /// Maximum write current at the minimum VDD
    pub fn write_current_minimum_vdd(&self) -> (r: CurrentConsumption)
        ensures
            r == current_minimum_of(((self.0 >> 56u128) & 0x7) as int),
    {
        let x = self.0;
        let v = (x >> 56) & 0x7;
        proof {
            lemma_u128_low_masks(x >> 56u128);
        }
        CurrentConsumption::from_minimum_reg(v)
    }

    /// Maximum read current at the maximum VDD
    pub fn read_current_maximum_vdd(&self) -> (r: CurrentConsumption)
        ensures
            r == current_maximum_of(((self.0 >> 53u128) & 0x7) as int),
    {
        let x = self.0;
        let v = (x >> 53) & 0x7;
        proof {
            lemma_u128_low_masks(x >> 53u128);
        }
        CurrentConsumption::from_maximum_reg(v)
    }

    /// Maximum write current at the maximum VDD
    pub fn write_current_maximum_vdd(&self) -> (r: CurrentConsumption)
        ensures
            r == current_maximum_of(((self.0 >> 50u128) & 0x7) as int),
    {
        let x = self.0;
        let v = (x >> 50) & 0x7;
        proof {
            lemma_u128_low_masks(x >> 50u128);
        }
        CurrentConsumption::from_maximum_reg(v)
    }
}

/// Card Status (R1): error and state information of an executed command.
///
/// Ref PLSS_v7_10 Section 4.10.1
pub struct CardStatus<Ext>(pub u32, pub PhantomData<Ext>);

impl<Ext> Clone for CardStatus<Ext> {
    fn clone(&self) -> (r: Self)
        ensures
            r == *self,
    {
        CardStatus(self.0, PhantomData)
    }
}

impl<Ext> Copy for CardStatus<Ext> {}

impl<Ext> From<R1> for CardStatus<Ext> {
    fn from(resp: R1) -> (r: Self) {
        Self(resp.status, PhantomData)
    }
}

impl<Ext> vstd::std_specs::convert::FromSpecImpl<R1> for CardStatus<Ext> {
    open spec fn obeys_from_spec() -> bool {
        true
    }

    open spec fn from_spec(resp: R1) -> Self {
        CardStatus(resp.status, PhantomData)
    }
}

impl<Ext> CardStatus<Ext> {
    /// Command's argument was out of range
    pub fn out_of_range(&self) -> (r: bool)
        ensures
            r == (self.0 & 0x8000_0000 != 0),
    {
        self.0 & 0x8000_0000 != 0
    }

    /// Misaligned address
    pub fn address_error(&self) -> (r: bool)
        ensures
            r == (self.0 & 0x4000_0000 != 0),
    {
        self.0 & 0x4000_0000 != 0
    }

    /// Block len error
    pub fn block_len_error(&self) -> (r: bool)
        ensures
            r == (self.0 & 0x2000_0000 != 0),
    {
        self.0 & 0x2000_0000 != 0
    }

    /// Error in the erase commands sequence
    pub fn erase_seq_error(&self) -> (r: bool)
        ensures
            r == (self.0 & 0x1000_0000 != 0),
    {
        self.0 & 0x1000_0000 != 0
    }

    /// Invalid selection of blocks for erase
    pub fn erase_param(&self) -> (r: bool)
        ensures
            r == (self.0 & 0x800_0000 != 0),
    {
        self.0 & 0x800_0000 != 0
    }

    /// Host attempted to write to protected area
    pub fn wp_violation(&self) -> (r: bool)
        ensures
            r == (self.0 & 0x400_0000 != 0),
    {
        self.0 & 0x400_0000 != 0
    }

    /// Card is locked by the host
    pub fn card_is_locked(&self) -> (r: bool)
        ensures
            r == (self.0 & 0x200_0000 != 0),
    {
        self.0 & 0x200_0000 != 0
    }

    /// Password error
    pub fn lock_unlock_failed(&self) -> (r: bool)
        ensures
            r == (self.0 & 0x100_0000 != 0),
    {
        self.0 & 0x100_0000 != 0
    }

    /// Crc check of previous command failed
    pub fn com_crc_error(&self) -> (r: bool)
        ensures
            r == (self.0 & 0x80_0000 != 0),
    {
        self.0 & 0x80_0000 != 0
    }

    /// Command is not legal for the card state
    pub fn illegal_command(&self) -> (r: bool)
        ensures
            r == (self.0 & 0x40_0000 != 0),
    {
        self.0 & 0x40_0000 != 0
    }

    /// Card internal ECC failed
    pub fn card_ecc_failed(&self) -> (r: bool)
        ensures
            r == (self.0 & 0x20_0000 != 0),
    {
        self.0 & 0x20_0000 != 0
    }

    /// Internal controller error
    pub fn cc_error(&self) -> (r: bool)
        ensures
            r == (self.0 & 0x10_0000 != 0),
    {
        self.0 & 0x10_0000 != 0
    }

    /// A General error occurred
    pub fn error(&self) -> (r: bool)
        ensures
            r == (self.0 & 0x8_0000 != 0),
    {
        self.0 & 0x8_0000 != 0
    }

    /// CSD error
    pub fn csd_overwrite(&self) -> (r: bool)
        ensures
            r == (self.0 & 0x1_0000 != 0),
    {
        self.0 & 0x1_0000 != 0
    }

    /// Some blocks where skipped while erasing
    pub fn wp_erase_skip(&self) -> (r: bool)
        ensures
            r == (self.0 & 0x8000 != 0),
    {
        self.0 & 0x8000 != 0
    }

    /// Erase sequence was aborted
    pub fn erase_reset(&self) -> (r: bool)
        ensures
            r == (self.0 & 0x2000 != 0),
    {
        self.0 & 0x2000 != 0
    }

    /// Current card state
    pub fn state(&self) -> (r: CurrentState)
        ensures
            r == current_state_of(((self.0 >> 9u32) & 0xF) as u8),
    {
        CurrentState::from(((self.0 >> 9) & 0xF) as u8)
    }

    /// Corresponds to buffer empty signaling on the bus
    pub fn ready_for_data(&self) -> (r: bool)
        ensures
            r == (self.0 & 0x100 != 0),
    {
        self.0 & 0x100 != 0
    }

    /// The card will accept a ACMD
    pub fn app_cmd(&self) -> (r: bool)
        ensures
            r == (self.0 & 0x20 != 0),
    {
        self.0 & 0x20 != 0
    }
}

/// Relative Card Address (RCA) together with the status bits of the R6
/// that carried it: address in the upper half, status in the lower half.
pub struct RCA<Ext>(pub u32, pub PhantomData<Ext>);

impl<Ext> Clone for RCA<Ext> {
    fn clone(&self) -> (r: Self)
        ensures
            r == *self,
    {
        RCA(self.0, PhantomData)
    }
}

impl<Ext> Copy for RCA<Ext> {}

impl<Ext> Default for RCA<Ext> {
    fn default() -> (r: Self)
        ensures
            r.0 == 0,
    {
        RCA(0, PhantomData)
    }
}

impl<Ext> From<R6> for RCA<Ext> {
    fn from(resp: R6) -> (r: Self) {
        let a = resp.rca as u32;
        let s = resp.status as u32;
        assert(a <= 0xFFFF && s <= 0xFFFF ==> (a << 16u32) | s == a * 0x10000 + s) by (bit_vector);
        Self((a << 16) | s, PhantomData)
    }
}

impl<Ext> vstd::std_specs::convert::FromSpecImpl<R6> for RCA<Ext> {
    open spec fn obeys_from_spec() -> bool {
        true
    }

    open spec fn from_spec(resp: R6) -> Self {
        RCA((resp.rca as u32 * 0x10000 + resp.status as u32) as u32, PhantomData)
    }
}

impl<Ext> RCA<Ext> {
    /// Address of card
    pub fn address(&self) -> (r: u16)
        ensures
            r == self.0 / 0x10000,
    {
        let v = self.0;
        assert((v >> 16u32) as u16 == v / 0x10000) by (bit_vector);
        (v >> 16) as u16
    }
}

/// The address and status that an R6 publishes survive in the RCA built from it.
pub proof fn lemma_rca_from_r6<Ext>(resp: R6)
    ensures
        ({
            let r: RCA<Ext> = vstd::std_specs::convert::FromSpec::from_spec(resp);
            &&& r.0 / 0x10000 == resp.rca
            &&& r.0 % 0x10000 == resp.status
        }),
{
}

} // verus!
