//! Initialization of an SD memory card: the identification sequence from
//! CMD0 to the transfer state, bus width and signalling selection.

use vstd::prelude::*;
use core::marker::PhantomData;

use crate::common::{
    current_state_of, CardCapacity, CurrentState, Cmd0, Cmd13, Cmd16, Cmd2, Cmd55, Cmd7, Cmd9, CID,
    CSD, OCR,
};
use crate::device::{BusEvent, BusRequest, Control, HostCaps, RegisterData, RegisterRead, Reply, Step};
use crate::sd::{
    Acmd13, Acmd41, Acmd51, Acmd6, Card, Cmd11, Cmd3, Cmd58, Cmd6, Cmd8, SDStatus, SCR, SD,
};
use crate::{bus_width_lines, BusWidth, MmcError, Signalling, INIT_FREQ};

verus! {

/// Where the SD initialization stands: each phase names the request that
/// is out on the bus and awaits its outcome.
#[derive(Debug, Clone, Copy, PartialEq, Eq, Structural)]
pub enum SdPhase {
    /// Bus initialized at 400 kHz, one bit wide
    InitIdle,
    /// CMD0 GO_IDLE_STATE
    GoIdle,
    /// CMD8 SEND_IF_COND
    IfCond,
    /// CMD55 before ACMD41
    OpCondApp,
    /// ACMD41 SD_SEND_OP_COND
    OpCond,
    /// 1 ms pause before polling ACMD41 again
    OpCondWait,
    /// CMD58 READ_OCR (SPI mode)
    SpiReadOcr,
    /// Bus set to the target frequency (SPI mode)
    SpiSetBus,
    /// CMD11 VOLTAGE_SWITCH
    VoltageSwitch,
    /// CMD2 ALL_SEND_CID
    AllSendCid,
    /// CMD3 SEND_RELATIVE_ADDR
    SendRca,
    /// CMD9 SEND_CSD
    SendCsd,
    /// CMD7 SELECT_CARD
    Select,
    /// CMD16 before reading the SCR
    ScrBlockLen,
    /// CMD55 before ACMD51
    ScrApp,
    /// ACMD51 SEND_SCR
    Scr,
    /// CMD55 before ACMD6
    BusWidthApp,
    /// ACMD6 SET_BUS_WIDTH
    BusWidth,
    /// Bus set to the chosen width, at most 25 MHz
    SetBus,
    /// CMD16 before reading the SD status
    StatusBlockLen,
    /// CMD55 before ACMD13
    StatusApp,
    /// ACMD13 SD_STATUS
    Status,
    /// CMD16 before CMD6
    SwitchBlockLen,
    /// CMD6 SWITCH_FUNCTION
    Switch,
    /// 640 ns pause after the switch
    SwitchSettle,
    /// Bus set to the target frequency
    SetBusFast,
    /// CMD13 SEND_STATUS after the switch
    CheckState,
    /// CMD16 before reading the SD status again
    RereadBlockLen,
    /// CMD55 before ACMD13 again
    RereadApp,
    /// ACMD13 SD_STATUS again
    Reread,
    /// Initialization is over
    Finished,
}

/// The state of an SD card initialization.
pub struct SdInit {
    pub phase: SdPhase,
    /// What the host supports
    pub host: HostCaps,
    /// Target frequency, at most what the host supports
    pub freq: u32,
    /// Whether 1.8 V signalling is requested in ACMD41
    pub request_18v: bool,
    /// Number of ACMD41 answers that reported the card still busy
    pub attempts: u32,
    /// What has been learned of the card so far
    pub card: Card,
    /// The bus width chosen for the card
    pub bus_width: BusWidth,
    /// The signalling mode requested with CMD6
    pub signalling: Signalling,
    /// Function group 1 selection code of the CMD6 status
    pub selection: u8,
    /// The relative address the card published with CMD3, which CMD7,
    /// CMD9 and CMD55 carry
    pub rca: u16,
}

/// Phases that come after the card reported the end of its power up
/// (native mode).
pub open spec fn powered_up(p: SdPhase) -> bool {
    match p {
        SdPhase::InitIdle | SdPhase::GoIdle | SdPhase::IfCond | SdPhase::OpCondApp
        | SdPhase::OpCond | SdPhase::OpCondWait | SdPhase::SpiReadOcr | SdPhase::SpiSetBus
        | SdPhase::Finished => false,
        _ => true,
    }
}

impl SdInit {
    /// What every state of the initialization keeps.
    pub open spec fn inv(self) -> bool {
        &&& self.freq <= self.host.max_frequency
        &&& bus_width_lines(self.bus_width) <= bus_width_lines(self.host.bus_width)
        &&& self.attempts <= 751
        &&& self.phase == SdPhase::OpCondWait ==> self.attempts <= 750
        &&& self.request_18v == self.host.supports_1v8
        &&& powered_up(self.phase) ==> self.card.ocr.0 & 0x8000_0000 != 0
        &&& (self.phase == SdPhase::SpiReadOcr || self.phase == SdPhase::SpiSetBus)
            ==> !self.host.supports_mmc
        &&& self.bus_width == BusWidth::W4 ==> self.host.bus_width == BusWidth::W4 && (
        self.card.scr.value() >> 50u64) & 1 != 0
    }
}

/// The ACMD41 the host polls with: high capacity support, 3.2–3.3 V
/// window (bit 5 of the 9-bit window), and the 1.8 V request if any.
pub open spec fn op_cond_command(request_18v: bool) -> Control {
    Control::SdSendOpCond(
        Acmd41 {
            host_high_capacity_support: true,
            sdxc_power_control: false,
            switch_to_1_8v_request: request_18v,
            voltage_window: 32,
        },
    )
}

/// The signalling mode asked for a target frequency above 25 MHz.
pub open spec fn signalling_for(freq: u32) -> Signalling {
    if freq > 100_000_000 {
        Signalling::SDR104
    } else if freq > 50_000_000 {
        Signalling::SDR50
    } else {
        Signalling::SDR25
    }
}

/// The CMD6 argument that switches function group 1 to a signalling mode
/// (PLSS v7_10 Table 4-11).
pub open spec fn switch_arg(signalling: Signalling) -> u32 {
    match signalling {
        Signalling::DDR50 => 0x80FF_FF04,
        Signalling::SDR104 => 0x80FF_1F03,
        Signalling::SDR50 => 0x80FF_1F02,
        Signalling::SDR25 => 0x80FF_FF01,
        Signalling::SDR12 => 0x80FF_FF00,
    }
}

/// Computes `switch_arg`.
pub fn switch_function_arg(signalling: Signalling) -> (r: u32)
    ensures
        r == switch_arg(signalling),
{
    let f: u32 = match signalling {
        Signalling::DDR50 => 0xFF_FF04,
        Signalling::SDR104 => 0xFF_1F03,
        Signalling::SDR50 => 0xFF_1F02,
        Signalling::SDR25 => 0xFF_FF01,
        Signalling::SDR12 => 0xFF_FF00,
    };
    assert(0x8000_0000u32 | 0xFF_FF04u32 == 0x80FF_FF04u32 && 0x8000_0000u32 | 0xFF_1F03u32
        == 0x80FF_1F03u32 && 0x8000_0000u32 | 0xFF_1F02u32 == 0x80FF_1F02u32 && 0x8000_0000u32
        | 0xFF_FF01u32 == 0x80FF_FF01u32 && 0x8000_0000u32 | 0xFF_FF00u32 == 0x80FF_FF00u32)
        by (bit_vector);
    0x8000_0000 | f
}

/// The signalling mode that a function group 1 selection code names.
pub open spec fn selected_signalling_spec(code: u8) -> Result<Signalling, MmcError> {
    if code == 0 {
        Ok(Signalling::SDR12)
    } else if code == 1 {
        Ok(Signalling::SDR25)
    } else if code == 2 {
        Ok(Signalling::SDR50)
    } else if code == 3 {
        Ok(Signalling::SDR104)
    } else if code == 4 {
        Ok(Signalling::DDR50)
    } else {
        Err(MmcError::Unsupported)
    }
}

/// The function group 1 selection of a CMD6 status block (bits 379:376,
/// the low nibble of byte 16 as transmitted).
pub fn switch_selection(status: &[u8; 64]) -> (r: u8)
    ensures
        r == status@[16] % 16,
{
    let b = status[16];
    proof {
        crate::common::lemma_u8_low_masks(b);
    }
    b & 0xF
}

/// The signalling mode that the card reports as selected.
pub fn selected_signalling(code: u8) -> (r: Result<Signalling, MmcError>)
    ensures
        r == selected_signalling_spec(code),
{
    match code {
        0 => Ok(Signalling::SDR12),
        1 => Ok(Signalling::SDR25),
        2 => Ok(Signalling::SDR50),
        3 => Ok(Signalling::SDR104),
        4 => Ok(Signalling::DDR50),
        _ => Err(MmcError::Unsupported),
    }
}

/// Moves to phase `p` and asks for `req`.
pub open spec fn sd_go(s: SdInit, p: SdPhase, req: BusRequest) -> (SdInit, Step) {
    (SdInit { phase: p, ..s }, Step::Request(req))
}

/// Ends the initialization with `r`.
pub open spec fn sd_stop(s: SdInit, r: Result<(), MmcError>) -> (SdInit, Step) {
    (SdInit { phase: SdPhase::Finished, ..s }, Step::Done(r))
}

/// The prefix of an application command to the card.
pub open spec fn sd_app(s: SdInit) -> BusRequest {
    BusRequest::Send(Control::AppCmd(Cmd55 { rca: s.rca }))
}

/// The step after ACMD41 reported the end of the power up with `ocr`.
pub open spec fn sd_powered_up(s: SdInit, ocr: u32) -> (SdInit, Step) {
    let o = OCR::<SD>(ocr, PhantomData);
    let s1 = SdInit {
        card: Card {
            ocr: o,
            card_type: if ocr & 0x4000_0000 != 0 {
                CardCapacity::HighCapacity
            } else {
                CardCapacity::StandardCapacity
            },
            ..s.card
        },
        ..s
    };
    if !s.host.supports_mmc {
        sd_go(s1, SdPhase::SpiReadOcr, BusRequest::Send(Control::ReadOcr(Cmd58)))
    } else if s.request_18v && ocr & 0x0100_0000 != 0 {
        sd_go(s1, SdPhase::VoltageSwitch, BusRequest::Send(Control::VoltageSwitch(Cmd11)))
    } else {
        sd_go(s1, SdPhase::AllSendCid, BusRequest::Send(Control::AllSendCid(Cmd2)))
    }
}

/// The initialization before any request: the target frequency is capped
/// at the host's maximum; an 8-bit host is refused; otherwise the bus is
/// initialized at 400 kHz.
pub open spec fn sd_start_spec(freq: u32, host: HostCaps, s: SdInit, r: Step) -> bool {
    &&& s.host == host
    &&& s.freq == if freq <= host.max_frequency { freq } else { host.max_frequency }
    &&& s.request_18v == host.supports_1v8
    &&& s.attempts == 0
    &&& s.card.is_blank()
    &&& s.bus_width == BusWidth::W1
    &&& s.signalling == Signalling::SDR12
    &&& s.selection == 0
    &&& s.rca == 0
    &&& if host.bus_width == BusWidth::W8 {
        &&& s.phase == SdPhase::Finished
        &&& r == Step::Done(Err(MmcError::Unsupported))
    } else {
        &&& s.phase == SdPhase::InitIdle
        &&& r == Step::Request(BusRequest::InitIdle(INIT_FREQ))
    }
}

/// The step from phase `InitIdle`.
pub open spec fn sd_on_init_idle(s: SdInit, ev: BusEvent) -> (SdInit, Step) {
    match ev {
        BusEvent::Completed => sd_go(s, SdPhase::GoIdle, BusRequest::Send(Control::Idle(Cmd0))),
        _ => sd_stop(s, Err(MmcError::Other)),
    }
}

/// The step from phase `GoIdle`.
pub open spec fn sd_on_go_idle(s: SdInit, ev: BusEvent) -> (SdInit, Step) {
    match ev {
        BusEvent::Answered(_) => sd_go(
            s,
            SdPhase::IfCond,
            BusRequest::Send(Control::SendIfCond(Cmd8 { voltage: 1, checkpattern: 0xAA })),
        ),
        _ => sd_stop(s, Err(MmcError::Other)),
    }
}

/// The step from phase `IfCond`.
pub open spec fn sd_on_if_cond(s: SdInit, ev: BusEvent) -> (SdInit, Step) {
    match ev {
        BusEvent::Answered(Reply::R7(r)) => if r.check_pattern != 0xAA {
            sd_stop(s, Err(MmcError::Unsupported))
        } else if r.voltage & 1 == 0 {
            sd_stop(s, Err(MmcError::Unsupported))
        } else {
            sd_go(s, SdPhase::OpCondApp, sd_app(s))
        },
        _ => sd_stop(s, Err(MmcError::Other)),
    }
}

/// The step from phase `OpCondApp`.
pub open spec fn sd_on_op_cond_app(s: SdInit, ev: BusEvent) -> (SdInit, Step) {
    match ev {
        BusEvent::Answered(_) => sd_go(
            s,
            SdPhase::OpCond,
            BusRequest::Send(op_cond_command(s.request_18v)),
        ),
        _ => sd_stop(s, Err(MmcError::Other)),
    }
}

/// The step from phase `OpCond`.
pub open spec fn sd_on_op_cond(s: SdInit, ev: BusEvent) -> (SdInit, Step) {
    match ev {
        BusEvent::Answered(Reply::R3(r)) => if r.ocr & 0x8000_0000 != 0 {
            sd_powered_up(s, r.ocr)
        } else if s.attempts > 750 {
            sd_stop(s, Err(MmcError::Timeout))
        } else {
            sd_go(s, SdPhase::OpCondWait, BusRequest::DelayMs(1))
        },
        _ => sd_stop(s, Err(MmcError::Other)),
    }
}

/// The step from phase `OpCondWait`.
pub open spec fn sd_on_op_cond_wait(s: SdInit, ev: BusEvent) -> (SdInit, Step) {
    match ev {
        BusEvent::Completed => sd_go(
            SdInit { attempts: (s.attempts + 1) as u32, ..s },
            SdPhase::OpCondApp,
            sd_app(s),
        ),
        _ => sd_stop(s, Err(MmcError::Other)),
    }
}

/// The step from phase `SpiReadOcr`.
pub open spec fn sd_on_spi_read_ocr(s: SdInit, ev: BusEvent) -> (SdInit, Step) {
    match ev {
        BusEvent::Answered(Reply::R3(r)) => sd_go(
            SdInit { card: Card { ocr: OCR(r.ocr, PhantomData), ..s.card }, ..s },
            SdPhase::SpiSetBus,
            BusRequest::SetBus(BusWidth::W1, s.freq),
        ),
        _ => sd_stop(s, Err(MmcError::Other)),
    }
}

/// The step from phase `SpiSetBus`.
pub open spec fn sd_on_spi_set_bus(s: SdInit, ev: BusEvent) -> (SdInit, Step) {
    match ev {
        BusEvent::Completed => sd_stop(s, Ok(())),
        _ => sd_stop(s, Err(MmcError::Other)),
    }
}

/// The step from phase `VoltageSwitch`.
pub open spec fn sd_on_voltage_switch(s: SdInit, ev: BusEvent) -> (SdInit, Step) {
    match ev {
        BusEvent::Answered(_) => sd_go(
            s,
            SdPhase::AllSendCid,
            BusRequest::Send(Control::AllSendCid(Cmd2)),
        ),
        _ => sd_stop(s, Err(MmcError::Other)),
    }
}

/// The step from phase `AllSendCid`.
pub open spec fn sd_on_all_send_cid(s: SdInit, ev: BusEvent) -> (SdInit, Step) {
    match ev {
        BusEvent::Answered(Reply::R2(r)) => sd_go(
            SdInit {
                card: Card {
                    cid: vstd::std_specs::convert::FromSpec::from_spec(r),
                    ..s.card
                },
                ..s
            },
            SdPhase::SendRca,
            BusRequest::Send(Control::SendRelativeAddress(Cmd3)),
        ),
        _ => sd_stop(s, Err(MmcError::Other)),
    }
}

/// The step from phase `SendRca`.
pub open spec fn sd_on_send_rca(s: SdInit, ev: BusEvent) -> (SdInit, Step) {
    match ev {
        BusEvent::Answered(Reply::R6(r)) => sd_go(
            SdInit { rca: r.rca, ..s },
            SdPhase::SendCsd,
            BusRequest::Send(Control::SendCsd(Cmd9 { rca: r.rca })),
        ),
        _ => sd_stop(s, Err(MmcError::Other)),
    }
}

/// The step from phase `SendCsd`.
pub open spec fn sd_on_send_csd(s: SdInit, ev: BusEvent) -> (SdInit, Step) {
    match ev {
        BusEvent::Answered(Reply::R2(r)) => sd_go(
            SdInit {
                card: Card {
                    csd: vstd::std_specs::convert::FromSpec::from_spec(r),
                    ..s.card
                },
                ..s
            },
            SdPhase::Select,
            BusRequest::Send(Control::SelectCard(Cmd7 { rca: s.rca })),
        ),
        _ => sd_stop(s, Err(MmcError::Other)),
    }
}

/// The step from phase `Select`.
pub open spec fn sd_on_select(s: SdInit, ev: BusEvent) -> (SdInit, Step) {
    match ev {
        BusEvent::Answered(_) => sd_go(
            s,
            SdPhase::ScrBlockLen,
            BusRequest::Send(Control::SetBlockLength(Cmd16 { block_len: 8 })),
        ),
        _ => sd_stop(s, Err(MmcError::Other)),
    }
}

/// The step from phase `ScrBlockLen`.
pub open spec fn sd_on_scr_block_len(s: SdInit, ev: BusEvent) -> (SdInit, Step) {
    match ev {
        BusEvent::Answered(_) => sd_go(s, SdPhase::ScrApp, sd_app(s)),
        _ => sd_stop(s, Err(MmcError::Other)),
    }
}

/// The step from phase `ScrApp`.
pub open spec fn sd_on_scr_app(s: SdInit, ev: BusEvent) -> (SdInit, Step) {
    match ev {
        BusEvent::Answered(_) => sd_go(
            s,
            SdPhase::Scr,
            BusRequest::ReadRegister(RegisterRead::Scr(Acmd51)),
        ),
        _ => sd_stop(s, Err(MmcError::Other)),
    }
}

/// The step from phase `Scr`.
pub open spec fn sd_on_scr(s: SdInit, ev: BusEvent) -> (SdInit, Step) {
    match ev {
        BusEvent::Read(RegisterData::Scr(raw)) => {
            let scr: SCR = vstd::std_specs::convert::FromSpec::from_spec(raw);
            let w = if s.host.bus_width == BusWidth::W4 && (scr.value() >> 50u64) & 1 != 0 {
                BusWidth::W4
            } else {
                BusWidth::W1
            };
            sd_go(
                SdInit { card: Card { scr, ..s.card }, bus_width: w, ..s },
                SdPhase::BusWidthApp,
                sd_app(s),
            )
        },
        _ => sd_stop(s, Err(MmcError::Other)),
    }
}

/// The step from phase `BusWidthApp`.
pub open spec fn sd_on_bus_width_app(s: SdInit, ev: BusEvent) -> (SdInit, Step) {
    match ev {
        BusEvent::Answered(_) => sd_go(
            s,
            SdPhase::BusWidth,
            BusRequest::Send(
                Control::SetBusWidth(Acmd6 { bw4bit: s.bus_width == BusWidth::W4 }),
            ),
        ),
        _ => sd_stop(s, Err(MmcError::Other)),
    }
}

/// The step from phase `BusWidth`.
pub open spec fn sd_on_bus_width(s: SdInit, ev: BusEvent) -> (SdInit, Step) {
    match ev {
        BusEvent::Answered(_) => sd_go(
            s,
            SdPhase::SetBus,
            BusRequest::SetBus(
                s.bus_width,
                if s.freq <= 25_000_000 { s.freq } else { 25_000_000 },
            ),
        ),
        _ => sd_stop(s, Err(MmcError::Other)),
    }
}

/// The step from phase `SetBus`.
pub open spec fn sd_on_set_bus(s: SdInit, ev: BusEvent) -> (SdInit, Step) {
    match ev {
        BusEvent::Completed => sd_go(
            s,
            SdPhase::StatusBlockLen,
            BusRequest::Send(Control::SetBlockLength(Cmd16 { block_len: 64 })),
        ),
        _ => sd_stop(s, Err(MmcError::Other)),
    }
}

/// The step from phase `StatusBlockLen`.
pub open spec fn sd_on_status_block_len(s: SdInit, ev: BusEvent) -> (SdInit, Step) {
    match ev {
        BusEvent::Answered(_) => sd_go(s, SdPhase::StatusApp, sd_app(s)),
        _ => sd_stop(s, Err(MmcError::Other)),
    }
}

/// The step from phase `StatusApp`.
pub open spec fn sd_on_status_app(s: SdInit, ev: BusEvent) -> (SdInit, Step) {
    match ev {
        BusEvent::Answered(_) => sd_go(
            s,
            SdPhase::Status,
            BusRequest::ReadRegister(RegisterRead::SdStatus(Acmd13)),
        ),
        _ => sd_stop(s, Err(MmcError::Other)),
    }
}

/// The step from phase `Status`.
pub open spec fn sd_on_status(s: SdInit, ev: BusEvent) -> (SdInit, Step) {
    match ev {
        BusEvent::Read(RegisterData::SdStatus(raw)) => {
            let s1 = SdInit {
                card: Card {
                    status: vstd::std_specs::convert::FromSpec::from_spec(raw),
                    ..s.card
                },
                ..s
            };
            if s.freq > 25_000_000 {
                sd_go(
                    SdInit { signalling: signalling_for(s.freq), ..s1 },
                    SdPhase::SwitchBlockLen,
                    BusRequest::Send(Control::SetBlockLength(Cmd16 { block_len: 64 })),
                )
            } else {
                sd_stop(s1, Ok(()))
            }
        },
        _ => sd_stop(s, Err(MmcError::Other)),
    }
}

/// The step from phase `SwitchBlockLen`.
pub open spec fn sd_on_switch_block_len(s: SdInit, ev: BusEvent) -> (SdInit, Step) {
    match ev {
        BusEvent::Answered(_) => sd_go(
            s,
            SdPhase::Switch,
            BusRequest::ReadRegister(
                RegisterRead::SwitchFunction(Cmd6 { arg: switch_arg(s.signalling) }),
            ),
        ),
        _ => sd_stop(s, Err(MmcError::Other)),
    }
}

/// The step from phase `Switch`.
pub open spec fn sd_on_switch(s: SdInit, ev: BusEvent) -> (SdInit, Step) {
    match ev {
        BusEvent::Read(RegisterData::SwitchStatus(raw)) => sd_go(
            SdInit { selection: (raw@[16] % 16) as u8, ..s },
            SdPhase::SwitchSettle,
            BusRequest::DelayNs(640),
        ),
        _ => sd_stop(s, Err(MmcError::Other)),
    }
}

/// The step from phase `SwitchSettle`.
pub open spec fn sd_on_switch_settle(s: SdInit, ev: BusEvent) -> (SdInit, Step) {
    match ev {
        BusEvent::Completed => match selected_signalling_spec(s.selection) {
            Err(e) => sd_stop(s, Err(e)),
            Ok(sel) => if sel == s.signalling {
                sd_go(s, SdPhase::SetBusFast, BusRequest::SetBus(s.bus_width, s.freq))
            } else {
                sd_go(
                    s,
                    SdPhase::RereadBlockLen,
                    BusRequest::Send(Control::SetBlockLength(Cmd16 { block_len: 64 })),
                )
            },
        },
        _ => sd_stop(s, Err(MmcError::Other)),
    }
}

/// The step from phase `SetBusFast`: CMD13 carries the address of the
/// card record, which the initialization leaves at its default (0).
pub open spec fn sd_on_set_bus_fast(s: SdInit, ev: BusEvent) -> (SdInit, Step) {
    match ev {
        BusEvent::Completed => sd_go(
            s,
            SdPhase::CheckState,
            BusRequest::Send(
                Control::CardStatus(Cmd13 { rca: s.card.rca, task_status: false }),
            ),
        ),
        _ => sd_stop(s, Err(MmcError::Other)),
    }
}

/// The step from phase `CheckState`.
pub open spec fn sd_on_check_state(s: SdInit, ev: BusEvent) -> (SdInit, Step) {
    match ev {
        BusEvent::Answered(Reply::R1(r)) => if current_state_of(
            ((r.status >> 9u32) & 0xF) as u8,
        ) != CurrentState::Transfer {
            sd_stop(s, Err(MmcError::SignalingSwitchFailed))
        } else {
            sd_go(
                s,
                SdPhase::RereadBlockLen,
                BusRequest::Send(Control::SetBlockLength(Cmd16 { block_len: 64 })),
            )
        },
        _ => sd_stop(s, Err(MmcError::Other)),
    }
}

/// The step from phase `RereadBlockLen`.
pub open spec fn sd_on_reread_block_len(s: SdInit, ev: BusEvent) -> (SdInit, Step) {
    match ev {
        BusEvent::Answered(_) => sd_go(s, SdPhase::RereadApp, sd_app(s)),
        _ => sd_stop(s, Err(MmcError::Other)),
    }
}

/// The step from phase `RereadApp`.
pub open spec fn sd_on_reread_app(s: SdInit, ev: BusEvent) -> (SdInit, Step) {
    match ev {
        BusEvent::Answered(_) => sd_go(
            s,
            SdPhase::Reread,
            BusRequest::ReadRegister(RegisterRead::SdStatus(Acmd13)),
        ),
        _ => sd_stop(s, Err(MmcError::Other)),
    }
}

/// The step from phase `Reread`.
pub open spec fn sd_on_reread(s: SdInit, ev: BusEvent) -> (SdInit, Step) {
    match ev {
        BusEvent::Read(RegisterData::SdStatus(raw)) => sd_stop(
            SdInit {
                card: Card {
                    status: vstd::std_specs::convert::FromSpec::from_spec(raw),
                    ..s.card
                },
                ..s
            },
            Ok(()),
        ),
        _ => sd_stop(s, Err(MmcError::Other)),
    }
}

/// The step from phase `Finished`.
pub open spec fn sd_on_finished(s: SdInit, ev: BusEvent) -> (SdInit, Step) {
    sd_stop(s, Err(MmcError::Other))
}

/// The next state and step of an SD initialization in state `s` once the
/// bus reported `ev` for the request out.
///
/// A failure of the bus ends the initialization with that error; an event
/// of another kind than the request calls for ends it with `Other`.
pub open spec fn sd_next(s: SdInit, ev: BusEvent) -> (SdInit, Step) {
    match ev {
        BusEvent::Failed(e) => sd_stop(s, Err(e)),
        _ => match s.phase {
            SdPhase::InitIdle => sd_on_init_idle(s, ev),
            SdPhase::GoIdle => sd_on_go_idle(s, ev),
            SdPhase::IfCond => sd_on_if_cond(s, ev),
            SdPhase::OpCondApp => sd_on_op_cond_app(s, ev),
            SdPhase::OpCond => sd_on_op_cond(s, ev),
            SdPhase::OpCondWait => sd_on_op_cond_wait(s, ev),
            SdPhase::SpiReadOcr => sd_on_spi_read_ocr(s, ev),
            SdPhase::SpiSetBus => sd_on_spi_set_bus(s, ev),
            SdPhase::VoltageSwitch => sd_on_voltage_switch(s, ev),
            SdPhase::AllSendCid => sd_on_all_send_cid(s, ev),
            SdPhase::SendRca => sd_on_send_rca(s, ev),
            SdPhase::SendCsd => sd_on_send_csd(s, ev),
            SdPhase::Select => sd_on_select(s, ev),
            SdPhase::ScrBlockLen => sd_on_scr_block_len(s, ev),
            SdPhase::ScrApp => sd_on_scr_app(s, ev),
            SdPhase::Scr => sd_on_scr(s, ev),
            SdPhase::BusWidthApp => sd_on_bus_width_app(s, ev),
            SdPhase::BusWidth => sd_on_bus_width(s, ev),
            SdPhase::SetBus => sd_on_set_bus(s, ev),
            SdPhase::StatusBlockLen => sd_on_status_block_len(s, ev),
            SdPhase::StatusApp => sd_on_status_app(s, ev),
            SdPhase::Status => sd_on_status(s, ev),
            SdPhase::SwitchBlockLen => sd_on_switch_block_len(s, ev),
            SdPhase::Switch => sd_on_switch(s, ev),
            SdPhase::SwitchSettle => sd_on_switch_settle(s, ev),
            SdPhase::SetBusFast => sd_on_set_bus_fast(s, ev),
            SdPhase::CheckState => sd_on_check_state(s, ev),
            SdPhase::RereadBlockLen => sd_on_reread_block_len(s, ev),
            SdPhase::RereadApp => sd_on_reread_app(s, ev),
            SdPhase::Reread => sd_on_reread(s, ev),
            SdPhase::Finished => sd_on_finished(s, ev),
        },
    }
}

/// Every step keeps the invariant, never initializes the bus again (the
/// first request is the only one at 400 kHz), configures the bus only
/// within the host's limits, requests 1.8 V in ACMD41 only when the host
/// supports it, sends CMD11 only when both sides accept 1.8 V, selects a
/// 4-bit bus only when the host and the card's SCR both allow it, starts
/// identification only after power up, and (in native mode) succeeds only
/// after the card finished its power up.
#[verifier::spinoff_prover]
#[verifier::rlimit(40)]
pub proof fn lemma_sd_next_laws(s: SdInit, ev: BusEvent)
    requires
        s.inv(),
    ensures
        ({
            let (n, r) = sd_next(s, ev);
            &&& n.inv()
            &&& n.host == s.host
            &&& !(r matches Step::Request(BusRequest::InitIdle(_)))
            &&& r matches Step::Request(BusRequest::SetBus(w, hz)) ==> hz <= s.host.max_frequency
                && bus_width_lines(w) <= bus_width_lines(s.host.bus_width)
            &&& r matches Step::Request(BusRequest::Send(Control::SdSendOpCond(c)))
                ==> c.switch_to_1_8v_request == s.host.supports_1v8
            &&& r matches Step::Request(BusRequest::Send(Control::SetBusWidth(c))) ==> (c.bw4bit
                ==> s.host.bus_width == BusWidth::W4 && (n.card.scr.value() >> 50u64) & 1 != 0)
            &&& r matches Step::Request(BusRequest::Send(Control::VoltageSwitch(_)))
                ==> s.host.supports_1v8 && n.card.ocr.0 & 0x0100_0000 != 0
            &&& (r == Step::Done(Ok(())) && s.host.supports_mmc) ==> n.card.ocr.0 & 0x8000_0000 != 0
            &&& r matches Step::Request(BusRequest::Send(Control::AllSendCid(_)))
                ==> n.card.ocr.0 & 0x8000_0000 != 0
        }),
{
    // One case per phase keeps each proof obligation small.
    match ev {
        BusEvent::Failed(_) => {},
        _ => match s.phase {
            SdPhase::InitIdle => {},
            SdPhase::GoIdle => {},
            SdPhase::IfCond => {},
            SdPhase::OpCondApp => {},
            SdPhase::OpCond => {},
            SdPhase::OpCondWait => {},
            SdPhase::SpiReadOcr => {},
            SdPhase::SpiSetBus => {},
            SdPhase::VoltageSwitch => {},
            SdPhase::AllSendCid => {},
            SdPhase::SendRca => {},
            SdPhase::SendCsd => {},
            SdPhase::Select => {},
            SdPhase::ScrBlockLen => {},
            SdPhase::ScrApp => {},
            SdPhase::Scr => {},
            SdPhase::BusWidthApp => {},
            SdPhase::BusWidth => {},
            SdPhase::SetBus => {},
            SdPhase::StatusBlockLen => {},
            SdPhase::StatusApp => {},
            SdPhase::Status => {},
            SdPhase::SwitchBlockLen => {},
            SdPhase::Switch => {},
            SdPhase::SwitchSettle => {},
            SdPhase::SetBusFast => {},
            SdPhase::CheckState => {},
            SdPhase::RereadBlockLen => {},
            SdPhase::RereadApp => {},
            SdPhase::Reread => {},
            SdPhase::Finished => {},
        },
    }
}

/// The CMD6 that asks for the signalling mode of a target frequency above
/// 25 MHz, as sent once the SD status has been read and CMD16 answered:
/// SDR104 (argument 0x80FF_1F03) only above 100 MHz, SDR50 (0x80FF_1F02)
/// above 50 MHz up to 100 MHz, SDR25 (0x80FF_FF01) up to 50 MHz. The mode
/// asked for is the slowest whose clock reaches the target, SDR50 being the
/// fastest one asked for up to 100 MHz.
pub proof fn lemma_sd_signalling_request(s: SdInit, raw: [u8; 64], answer: BusEvent)
    requires
        s.phase == SdPhase::Status,
        s.freq > 25_000_000,
        answer is Answered,
    ensures
        ({
            let (n1, r1) = sd_next(s, BusEvent::Read(RegisterData::SdStatus(raw)));
            let (n2, r2) = sd_next(n1, answer);
            &&& r1 == Step::Request(
                BusRequest::Send(Control::SetBlockLength(Cmd16 { block_len: 64 })),
            )
            &&& r2 == Step::Request(
                BusRequest::ReadRegister(
                    RegisterRead::SwitchFunction(
                        Cmd6 {
                            arg: if s.freq > 100_000_000 {
                                0x80FF_1F03
                            } else if s.freq > 50_000_000 {
                                0x80FF_1F02
                            } else {
                                0x80FF_FF01
                            },
                        },
                    ),
                ),
            )
            &&& (n1.signalling == Signalling::SDR104 <==> s.freq > 100_000_000)
            &&& (n1.signalling == Signalling::SDR50 <==> 50_000_000 < s.freq <= 100_000_000)
            &&& (n1.signalling == Signalling::SDR25 <==> s.freq <= 50_000_000)
        }),
{
}

impl SdInit {
    /// Begins the initialization of an SD card at target frequency `freq`
    /// on a host with capabilities `host`.
    pub fn start(freq: u32, host: HostCaps) -> (r: (SdInit, Step))
        ensures
            sd_start_spec(freq, host, r.0, r.1),
            r.0.inv(),
    {
        // Clamp the frequency to the supported bus frequency.
        let freq = if freq <= host.max_frequency {
            freq
        } else {
            host.max_frequency
        };
        let s = SdInit {
            phase: SdPhase::InitIdle,
            host,
            freq,
            request_18v: host.supports_1v8,
            attempts: 0,
            card: Card::default(),
            bus_width: BusWidth::W1,
            signalling: Signalling::SDR12,
            selection: 0,
            rca: 0,
        };
        match host.bus_width {
            BusWidth::W8 => (SdInit { phase: SdPhase::Finished, ..s }, Step::Done(Err(MmcError::Unsupported))),
            _ => {
                // While the card is in identification mode, the clock must
                // be no more than 400 kHz.
                (s, Step::Request(BusRequest::InitIdle(INIT_FREQ)))
            },
        }
    }

    fn go(&mut self, p: SdPhase, req: BusRequest) -> (r: Step)
        ensures
            (*final(self), r) == sd_go(*old(self), p, req),
    {
        self.phase = p;
        Step::Request(req)
    }

    fn stop(&mut self, res: Result<(), MmcError>) -> (r: Step)
        ensures
            (*final(self), r) == sd_stop(*old(self), res),
    {
        self.phase = SdPhase::Finished;
        Step::Done(res)
    }

    fn app(&self) -> (r: BusRequest)
        ensures
            r == sd_app(*self),
    {
        BusRequest::Send(Control::AppCmd(crate::common::app_cmd(self.rca)))
    }

    fn on_init_idle(&mut self, ev: BusEvent) -> (r: Step)
        requires
            old(self).phase == SdPhase::InitIdle,
        ensures
            (*final(self), r) == sd_on_init_idle(*old(self), ev),
    {
        match ev {
            BusEvent::Completed => self.go(
                SdPhase::GoIdle,
                BusRequest::Send(Control::Idle(crate::common::idle())),
            ),
            _ => self.stop(Err(MmcError::Other)),
        }
    }

    fn on_go_idle(&mut self, ev: BusEvent) -> (r: Step)
        requires
            old(self).phase == SdPhase::GoIdle,
        ensures
            (*final(self), r) == sd_on_go_idle(*old(self), ev),
    {
        match ev {
            BusEvent::Answered(_) => self.go(
                SdPhase::IfCond,
                BusRequest::Send(Control::SendIfCond(crate::sd::send_if_cond(1, 0xAA))),
            ),
            _ => self.stop(Err(MmcError::Other)),
        }
    }

    fn on_if_cond(&mut self, ev: BusEvent) -> (r: Step)
        requires
            old(self).phase == SdPhase::IfCond,
        ensures
            (*final(self), r) == sd_on_if_cond(*old(self), ev),
    {
        match ev {
            BusEvent::Answered(Reply::R7(r)) => {
                if r.check_pattern != 0xAA {
                    self.stop(Err(MmcError::Unsupported))
                } else if r.voltage & 1 == 0 {
                    self.stop(Err(MmcError::Unsupported))
                } else {
                    let req = self.app();
                    self.go(SdPhase::OpCondApp, req)
                }
            },
            _ => self.stop(Err(MmcError::Other)),
        }
    }

    fn on_op_cond_app(&mut self, ev: BusEvent) -> (r: Step)
        requires
            old(self).phase == SdPhase::OpCondApp,
        ensures
            (*final(self), r) == sd_on_op_cond_app(*old(self), ev),
    {
        match ev {
            BusEvent::Answered(_) => {
                // 3.2-3.3V
                let voltage_window: u16 = 32;
                let cmd = crate::sd::sd_send_op_cond(
                    true,
                    false,
                    self.request_18v,
                    voltage_window,
                );
                self.go(SdPhase::OpCond, BusRequest::Send(Control::SdSendOpCond(cmd)))
            },
            _ => self.stop(Err(MmcError::Other)),
        }
    }

    fn on_op_cond(&mut self, ev: BusEvent) -> (r: Step)
        requires
            old(self).phase == SdPhase::OpCond,
        ensures
            (*final(self), r) == sd_on_op_cond(*old(self), ev),
    {
        match ev {
            BusEvent::Answered(Reply::R3(r)) => {
                let ocr: OCR<SD> = OCR::from(r);
                if !ocr.is_busy() {
                    // Power up done
                    self.card.ocr = ocr;
                    self.card.card_type = if ocr.high_capacity() {
                        CardCapacity::HighCapacity
                    } else {
                        CardCapacity::StandardCapacity
                    };
                    if !self.host.supports_mmc {
                        self.go(
                            SdPhase::SpiReadOcr,
                            BusRequest::Send(Control::ReadOcr(crate::sd::read_ocr())),
                        )
                    } else if self.request_18v && ocr.v18_allowed() {
                        // UHS-I voltage switch: only while the card
                        // is in the ready state, before CMD2.
                        self.go(
                            SdPhase::VoltageSwitch,
                            BusRequest::Send(
                                Control::VoltageSwitch(crate::sd::voltage_switch()),
                            ),
                        )
                    } else {
                        self.go(
                            SdPhase::AllSendCid,
                            BusRequest::Send(
                                Control::AllSendCid(crate::common::all_send_cid()),
                            ),
                        )
                    }
                } else if self.attempts > 750 {
                    self.stop(Err(MmcError::Timeout))
                } else {
                    self.go(SdPhase::OpCondWait, BusRequest::DelayMs(1))
                }
            },
            _ => self.stop(Err(MmcError::Other)),
        }
    }

    fn on_op_cond_wait(&mut self, ev: BusEvent) -> (r: Step)
        requires
            old(self).phase == SdPhase::OpCondWait,
            old(self).attempts <= 750,
        ensures
            (*final(self), r) == sd_on_op_cond_wait(*old(self), ev),
    {
        match ev {
            BusEvent::Completed => {
                let req = self.app();
                self.attempts = self.attempts + 1;
                self.go(SdPhase::OpCondApp, req)
            },
            _ => self.stop(Err(MmcError::Other)),
        }
    }

    fn on_spi_read_ocr(&mut self, ev: BusEvent) -> (r: Step)
        requires
            old(self).phase == SdPhase::SpiReadOcr,
        ensures
            (*final(self), r) == sd_on_spi_read_ocr(*old(self), ev),
    {
        match ev {
            BusEvent::Answered(Reply::R3(r)) => {
                self.card.ocr = OCR::from(r);
                let freq = self.freq;
                self.go(SdPhase::SpiSetBus, BusRequest::SetBus(BusWidth::W1, freq))
            },
            _ => self.stop(Err(MmcError::Other)),
        }
    }

    fn on_spi_set_bus(&mut self, ev: BusEvent) -> (r: Step)
        requires
            old(self).phase == SdPhase::SpiSetBus,
        ensures
            (*final(self), r) == sd_on_spi_set_bus(*old(self), ev),
    {
        match ev {
            BusEvent::Completed => self.stop(Ok(())),
            _ => self.stop(Err(MmcError::Other)),
        }
    }

    fn on_voltage_switch(&mut self, ev: BusEvent) -> (r: Step)
        requires
            old(self).phase == SdPhase::VoltageSwitch,
        ensures
            (*final(self), r) == sd_on_voltage_switch(*old(self), ev),
    {
        match ev {
            BusEvent::Answered(_) => self.go(
                SdPhase::AllSendCid,
                BusRequest::Send(Control::AllSendCid(crate::common::all_send_cid())),
            ),
            _ => self.stop(Err(MmcError::Other)),
        }
    }

    fn on_all_send_cid(&mut self, ev: BusEvent) -> (r: Step)
        requires
            old(self).phase == SdPhase::AllSendCid,
        ensures
            (*final(self), r) == sd_on_all_send_cid(*old(self), ev),
    {
        match ev {
            BusEvent::Answered(Reply::R2(r)) => {
                self.card.cid = CID::from(r);
                self.go(
                    SdPhase::SendRca,
                    BusRequest::Send(
                        Control::SendRelativeAddress(crate::sd::send_relative_address()),
                    ),
                )
            },
            _ => self.stop(Err(MmcError::Other)),
        }
    }

    fn on_send_rca(&mut self, ev: BusEvent) -> (r: Step)
        requires
            old(self).phase == SdPhase::SendRca,
        ensures
            (*final(self), r) == sd_on_send_rca(*old(self), ev),
    {
        match ev {
            BusEvent::Answered(Reply::R6(r)) => {
                let rca = r.rca;
                self.rca = rca;
                self.go(
                    SdPhase::SendCsd,
                    BusRequest::Send(Control::SendCsd(crate::common::send_csd(rca))),
                )
            },
            _ => self.stop(Err(MmcError::Other)),
        }
    }

    fn on_send_csd(&mut self, ev: BusEvent) -> (r: Step)
        requires
            old(self).phase == SdPhase::SendCsd,
        ensures
            (*final(self), r) == sd_on_send_csd(*old(self), ev),
    {
        match ev {
            BusEvent::Answered(Reply::R2(r)) => {
                self.card.csd = CSD::from(r);
                let rca = self.rca;
                self.go(
                    SdPhase::Select,
                    BusRequest::Send(Control::SelectCard(crate::common::select_card(rca))),
                )
            },
            _ => self.stop(Err(MmcError::Other)),
        }
    }

    fn on_select(&mut self, ev: BusEvent) -> (r: Step)
        requires
            old(self).phase == SdPhase::Select,
        ensures
            (*final(self), r) == sd_on_select(*old(self), ev),
    {
        match ev {
            BusEvent::Answered(_) => self.go(
                SdPhase::ScrBlockLen,
                BusRequest::Send(
                    Control::SetBlockLength(crate::common::set_block_length(8)),
                ),
            ),
            _ => self.stop(Err(MmcError::Other)),
        }
    }

    fn on_scr_block_len(&mut self, ev: BusEvent) -> (r: Step)
        requires
            old(self).phase == SdPhase::ScrBlockLen,
        ensures
            (*final(self), r) == sd_on_scr_block_len(*old(self), ev),
    {
        match ev {
            BusEvent::Answered(_) => {
                let req = self.app();
                self.go(SdPhase::ScrApp, req)
            },
            _ => self.stop(Err(MmcError::Other)),
        }
    }

    fn on_scr_app(&mut self, ev: BusEvent) -> (r: Step)
        requires
            old(self).phase == SdPhase::ScrApp,
        ensures
            (*final(self), r) == sd_on_scr_app(*old(self), ev),
    {
        match ev {
            BusEvent::Answered(_) => self.go(
                SdPhase::Scr,
                BusRequest::ReadRegister(RegisterRead::Scr(crate::sd::send_scr())),
            ),
            _ => self.stop(Err(MmcError::Other)),
        }
    }

    fn on_scr(&mut self, ev: BusEvent) -> (r: Step)
        requires
            old(self).phase == SdPhase::Scr,
        ensures
            (*final(self), r) == sd_on_scr(*old(self), ev),
    {
        match ev {
            BusEvent::Read(RegisterData::Scr(raw)) => {
                let req = self.app();
                let scr = SCR::from(raw);
                self.card.scr = scr;
                // Use 4-bit only if both the host and the card support it.
                self.bus_width = match self.host.bus_width {
                    BusWidth::W4 => if scr.bus_width_four() {
                        BusWidth::W4
                    } else {
                        BusWidth::W1
                    },
                    _ => BusWidth::W1,
                };
                self.go(SdPhase::BusWidthApp, req)
            },
            _ => self.stop(Err(MmcError::Other)),
        }
    }

    fn on_bus_width_app(&mut self, ev: BusEvent) -> (r: Step)
        requires
            old(self).phase == SdPhase::BusWidthApp,
        ensures
            (*final(self), r) == sd_on_bus_width_app(*old(self), ev),
    {
        match ev {
            BusEvent::Answered(_) => {
                let four = match self.bus_width {
                    BusWidth::W4 => true,
                    _ => false,
                };
                self.go(
                    SdPhase::BusWidth,
                    BusRequest::Send(Control::SetBusWidth(crate::sd::set_bus_width(four))),
                )
            },
            _ => self.stop(Err(MmcError::Other)),
        }
    }

    fn on_bus_width(&mut self, ev: BusEvent) -> (r: Step)
        requires
            old(self).phase == SdPhase::BusWidth,
        ensures
            (*final(self), r) == sd_on_bus_width(*old(self), ev),
    {
        match ev {
            BusEvent::Answered(_) => {
                // Up to 25Mhz
                let hz = if self.freq <= 25_000_000 {
                    self.freq
                } else {
                    25_000_000
                };
                let w = self.bus_width;
                self.go(SdPhase::SetBus, BusRequest::SetBus(w, hz))
            },
            _ => self.stop(Err(MmcError::Other)),
        }
    }

    fn on_set_bus(&mut self, ev: BusEvent) -> (r: Step)
        requires
            old(self).phase == SdPhase::SetBus,
        ensures
            (*final(self), r) == sd_on_set_bus(*old(self), ev),
    {
        match ev {
            BusEvent::Completed => self.go(
                SdPhase::StatusBlockLen,
                BusRequest::Send(
                    Control::SetBlockLength(crate::common::set_block_length(64)),
                ),
            ),
            _ => self.stop(Err(MmcError::Other)),
        }
    }

    fn on_status_block_len(&mut self, ev: BusEvent) -> (r: Step)
        requires
            old(self).phase == SdPhase::StatusBlockLen,
        ensures
            (*final(self), r) == sd_on_status_block_len(*old(self), ev),
    {
        match ev {
            BusEvent::Answered(_) => {
                let req = self.app();
                self.go(SdPhase::StatusApp, req)
            },
            _ => self.stop(Err(MmcError::Other)),
        }
    }

    fn on_status_app(&mut self, ev: BusEvent) -> (r: Step)
        requires
            old(self).phase == SdPhase::StatusApp,
        ensures
            (*final(self), r) == sd_on_status_app(*old(self), ev),
    {
        match ev {
            BusEvent::Answered(_) => self.go(
                SdPhase::Status,
                BusRequest::ReadRegister(RegisterRead::SdStatus(crate::sd::sd_status())),
            ),
            _ => self.stop(Err(MmcError::Other)),
        }
    }

    fn on_status(&mut self, ev: BusEvent) -> (r: Step)
        requires
            old(self).phase == SdPhase::Status,
        ensures
            (*final(self), r) == sd_on_status(*old(self), ev),
    {
        match ev {
            BusEvent::Read(RegisterData::SdStatus(raw)) => {
                self.card.status = SDStatus::from(raw);
                if self.freq > 25_000_000 {
                    // Below 50 MHz we cap at SDR25/HS.
                    self.signalling = if self.freq > 100_000_000 {
                        Signalling::SDR104
                    } else if self.freq > 50_000_000 {
                        Signalling::SDR50
                    } else {
                        Signalling::SDR25
                    };
                    self.go(
                        SdPhase::SwitchBlockLen,
                        BusRequest::Send(
                            Control::SetBlockLength(crate::common::set_block_length(64)),
                        ),
                    )
                } else {
                    self.stop(Ok(()))
                }
            },
            _ => self.stop(Err(MmcError::Other)),
        }
    }

    fn on_switch_block_len(&mut self, ev: BusEvent) -> (r: Step)
        requires
            old(self).phase == SdPhase::SwitchBlockLen,
        ensures
            (*final(self), r) == sd_on_switch_block_len(*old(self), ev),
    {
        match ev {
            BusEvent::Answered(_) => {
                let arg = switch_function_arg(self.signalling);
                self.go(
                    SdPhase::Switch,
                    BusRequest::ReadRegister(
                        RegisterRead::SwitchFunction(crate::sd::cmd6(arg)),
                    ),
                )
            },
            _ => self.stop(Err(MmcError::Other)),
        }
    }

    fn on_switch(&mut self, ev: BusEvent) -> (r: Step)
        requires
            old(self).phase == SdPhase::Switch,
        ensures
            (*final(self), r) == sd_on_switch(*old(self), ev),
    {
        match ev {
            BusEvent::Read(RegisterData::SwitchStatus(raw)) => {
                self.selection = switch_selection(&raw);
                // The host may use the new function 8 clocks after
                // the switch; a clock period is below 80 ns.
                self.go(SdPhase::SwitchSettle, BusRequest::DelayNs(640))
            },
            _ => self.stop(Err(MmcError::Other)),
        }
    }

    fn on_switch_settle(&mut self, ev: BusEvent) -> (r: Step)
        requires
            old(self).phase == SdPhase::SwitchSettle,
        ensures
            (*final(self), r) == sd_on_switch_settle(*old(self), ev),
    {
        match ev {
            BusEvent::Completed => match selected_signalling(self.selection) {
                Err(e) => self.stop(Err(e)),
                Ok(sel) => {
                    if sel == self.signalling {
                        let w = self.bus_width;
                        let hz = self.freq;
                        self.go(SdPhase::SetBusFast, BusRequest::SetBus(w, hz))
                    } else {
                        self.go(
                            SdPhase::RereadBlockLen,
                            BusRequest::Send(
                                Control::SetBlockLength(crate::common::set_block_length(64)),
                            ),
                        )
                    }
                },
            },
            _ => self.stop(Err(MmcError::Other)),
        }
    }

    fn on_set_bus_fast(&mut self, ev: BusEvent) -> (r: Step)
        requires
            old(self).phase == SdPhase::SetBusFast,
        ensures
            (*final(self), r) == sd_on_set_bus_fast(*old(self), ev),
    {
        match ev {
            BusEvent::Completed => {
                let rca = self.card.rca;
                self.go(
                    SdPhase::CheckState,
                    BusRequest::Send(
                        Control::CardStatus(crate::common::card_status(rca, false)),
                    ),
                )
            },
            _ => self.stop(Err(MmcError::Other)),
        }
    }

    fn on_check_state(&mut self, ev: BusEvent) -> (r: Step)
        requires
            old(self).phase == SdPhase::CheckState,
        ensures
            (*final(self), r) == sd_on_check_state(*old(self), ev),
    {
        match ev {
            BusEvent::Answered(Reply::R1(r)) => {
                let status: crate::common::CardStatus<SD> = crate::common::CardStatus::from(r);
                if status.state() != CurrentState::Transfer {
                    self.stop(Err(MmcError::SignalingSwitchFailed))
                } else {
                    self.go(
                        SdPhase::RereadBlockLen,
                        BusRequest::Send(
                            Control::SetBlockLength(crate::common::set_block_length(64)),
                        ),
                    )
                }
            },
            _ => self.stop(Err(MmcError::Other)),
        }
    }

    fn on_reread_block_len(&mut self, ev: BusEvent) -> (r: Step)
        requires
            old(self).phase == SdPhase::RereadBlockLen,
        ensures
            (*final(self), r) == sd_on_reread_block_len(*old(self), ev),
    {
        match ev {
            BusEvent::Answered(_) => {
                let req = self.app();
                self.go(SdPhase::RereadApp, req)
            },
            _ => self.stop(Err(MmcError::Other)),
        }
    }

    fn on_reread_app(&mut self, ev: BusEvent) -> (r: Step)
        requires
            old(self).phase == SdPhase::RereadApp,
        ensures
            (*final(self), r) == sd_on_reread_app(*old(self), ev),
    {
        match ev {
            BusEvent::Answered(_) => self.go(
                SdPhase::Reread,
                BusRequest::ReadRegister(RegisterRead::SdStatus(crate::sd::sd_status())),
            ),
            _ => self.stop(Err(MmcError::Other)),
        }
    }

    fn on_reread(&mut self, ev: BusEvent) -> (r: Step)
        requires
            old(self).phase == SdPhase::Reread,
        ensures
            (*final(self), r) == sd_on_reread(*old(self), ev),
    {
        match ev {
            BusEvent::Read(RegisterData::SdStatus(raw)) => {
                self.card.status = SDStatus::from(raw);
                self.stop(Ok(()))
            },
            _ => self.stop(Err(MmcError::Other)),
        }
    }

    fn on_finished(&mut self, ev: BusEvent) -> (r: Step)
        requires
            old(self).phase == SdPhase::Finished,
        ensures
            (*final(self), r) == sd_on_finished(*old(self), ev),
    {
        self.stop(Err(MmcError::Other))
    }

    /// Advances the initialization with what the bus reported for the
    /// request out.
    pub fn step(&mut self, ev: BusEvent) -> (r: Step)
        requires
            old(self).inv(),
            old(self).phase != SdPhase::Finished,
        ensures
            (*final(self), r) == sd_next(*old(self), ev),
            final(self).inv(),
            final(self).host == old(self).host,
            // The bus is never configured beyond what the host supports.
            r matches Step::Request(BusRequest::SetBus(w, hz)) ==> hz <= old(self).host.max_frequency
                && bus_width_lines(w) <= bus_width_lines(old(self).host.bus_width),
            // CMD11 is only sent when the host can switch to 1.8 V and the
            // card accepted the switch.
            r matches Step::Request(BusRequest::Send(Control::VoltageSwitch(_)))
                ==> old(self).host.supports_1v8 && final(self).card.ocr.0 & 0x0100_0000 != 0,
            // Identification starts only once the card has powered up.
            r matches Step::Request(BusRequest::Send(Control::AllSendCid(_)))
                ==> final(self).card.ocr.0 & 0x8000_0000 != 0,
    {
        match ev {
            BusEvent::Failed(e) => self.stop(Err(e)),
            ev => match self.phase {
                SdPhase::InitIdle => self.on_init_idle(ev),
                SdPhase::GoIdle => self.on_go_idle(ev),
                SdPhase::IfCond => self.on_if_cond(ev),
                SdPhase::OpCondApp => self.on_op_cond_app(ev),
                SdPhase::OpCond => self.on_op_cond(ev),
                SdPhase::OpCondWait => self.on_op_cond_wait(ev),
                SdPhase::SpiReadOcr => self.on_spi_read_ocr(ev),
                SdPhase::SpiSetBus => self.on_spi_set_bus(ev),
                SdPhase::VoltageSwitch => self.on_voltage_switch(ev),
                SdPhase::AllSendCid => self.on_all_send_cid(ev),
                SdPhase::SendRca => self.on_send_rca(ev),
                SdPhase::SendCsd => self.on_send_csd(ev),
                SdPhase::Select => self.on_select(ev),
                SdPhase::ScrBlockLen => self.on_scr_block_len(ev),
                SdPhase::ScrApp => self.on_scr_app(ev),
                SdPhase::Scr => self.on_scr(ev),
                SdPhase::BusWidthApp => self.on_bus_width_app(ev),
                SdPhase::BusWidth => self.on_bus_width(ev),
                SdPhase::SetBus => self.on_set_bus(ev),
                SdPhase::StatusBlockLen => self.on_status_block_len(ev),
                SdPhase::StatusApp => self.on_status_app(ev),
                SdPhase::Status => self.on_status(ev),
                SdPhase::SwitchBlockLen => self.on_switch_block_len(ev),
                SdPhase::Switch => self.on_switch(ev),
                SdPhase::SwitchSettle => self.on_switch_settle(ev),
                SdPhase::SetBusFast => self.on_set_bus_fast(ev),
                SdPhase::CheckState => self.on_check_state(ev),
                SdPhase::RereadBlockLen => self.on_reread_block_len(ev),
                SdPhase::RereadApp => self.on_reread_app(ev),
                SdPhase::Reread => self.on_reread(ev),
                SdPhase::Finished => self.on_finished(ev),
            },
        }
    }
}

} // verus!
