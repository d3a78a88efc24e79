//! Initialization of an SDIO card (power up with CMD5, address, bus width
//! and high speed through the CCCR), and the enabling and disabling of its
//! I/O functions.

use vstd::prelude::*;
use core::marker::PhantomData;

use crate::common::{Cmd7, OCR, RCA};
use crate::device::{BusEvent, BusRequest, Control, HostCaps, Reply, Step};
use crate::sd;
use crate::sdio::{
    cmd52_result, Cmd5, Cmd52, SDIO, CCCR_BUS_CTRL, CCCR_CARD_CAP, CCCR_HIGH_SPEED, CCCR_IO_ENABLE,
    CCCR_IO_READY,
};
use crate::{bus_width_lines, BusWidth, MmcError, INIT_FREQ};

verus! {

/// Where the SDIO initialization stands: each phase names the request
/// that is out on the bus and awaits its outcome.
#[derive(Debug, Clone, Copy, PartialEq, Eq, Structural)]
pub enum SdioPhase {
    /// Bus initialized at 400 kHz, one bit wide
    InitIdle,
    /// CMD5 with an empty voltage window: the card reports its window
    Inquiry,
    /// CMD5 with a voltage window: the card powers up
    OpCond,
    /// 1 ms pause before polling CMD5 again
    OpCondWait,
    /// CMD3 SEND_RELATIVE_ADDR
    SendRca,
    /// CMD7 SELECT_CARD
    Select,
    /// CMD52 read of CARD_CAP
    CardCap,
    /// CMD52 read of BUS_CTRL
    BusCtrlRead,
    /// CMD52 write of BUS_CTRL with the bus width
    BusCtrlWrite,
    /// Bus set to the chosen width, at most 25 MHz
    SetBus,
    /// CMD52 read of HIGH_SPEED
    HighSpeedRead,
    /// CMD52 write of HIGH_SPEED enabling high speed
    HighSpeedWrite,
    /// Bus set to the chosen width and the target frequency
    SetBusFast,
    /// Initialization is over
    Finished,
}

/// The highest frequency before high speed is enabled.
pub const SDIO_DEFAULT_SPEED_HZ: u32 = 25_000_000;

/// The state of an SDIO initialization.
pub struct SdioInit {
    pub phase: SdioPhase,
    /// What the host supports
    pub host: HostCaps,
    /// Target frequency, at most what the host supports
    pub freq: u32,
    /// The voltage window that CMD5 powers the card up with
    pub window: u16,
    /// Number of CMD5 answers that reported the card still busy
    pub attempts: u32,
    /// The OCR the card reported when it finished its power up
    pub ocr: OCR<SDIO>,
    /// The card's relative address
    pub rca: u16,
    /// The bus width the card and the host both support
    pub bus_width: BusWidth,
    /// The BUS_CTRL width code of `bus_width`
    pub width_code: u8,
}

/// Phases that come after the card reported the end of its power up.
pub open spec fn sdio_powered_up(p: SdioPhase) -> bool {
    match p {
        SdioPhase::InitIdle | SdioPhase::Inquiry | SdioPhase::OpCond | SdioPhase::OpCondWait
        | SdioPhase::Finished => false,
        _ => true,
    }
}

impl SdioInit {
    /// What every state of the initialization keeps.
    pub open spec fn inv(self) -> bool {
        &&& self.freq <= self.host.max_frequency
        &&& self.attempts <= 751
        &&& self.phase == SdioPhase::OpCondWait ==> self.attempts <= 750
        &&& bus_width_lines(self.bus_width) <= bus_width_lines(self.host.bus_width)
        &&& sdio_powered_up(self.phase) ==> self.ocr.0 & 0x8000_0000 != 0
    }
}

/// The request of a CMD52 read of a common register.
pub open spec fn sdio_read(addr: u32) -> BusRequest {
    BusRequest::Send(
        Control::IoRwDirect(Cmd52 { write: false, function: 0, raw: false, addr, data: 0 }),
    )
}

/// The request of a CMD52 write of a common register.
pub open spec fn sdio_write(addr: u32, data: u8) -> BusRequest {
    BusRequest::Send(Control::IoRwDirect(Cmd52 { write: true, function: 0, raw: false, addr, data }))
}

/// The CMD5 the card powers up with.
pub open spec fn sdio_op_cond(window: u16) -> BusRequest {
    BusRequest::Send(
        Control::IoSendOpCond(Cmd5 { switch_to_1_8v_request: false, voltage_window: window }),
    )
}

/// The voltage window the card powers up with: the one it reported
/// (OCR bits 23:15), or the full range where it reported none.
pub open spec fn power_up_window(inquiry: u32) -> u16 {
    let w = (inquiry / 0x8000) % 0x200;
    if w == 0 {
        0x1FF
    } else {
        w as u16
    }
}

/// Whether the card has four data lines: a full-speed card always has,
/// a low-speed card only if it reports 4BLS.
pub open spec fn card_supports_4bit(cap: u8) -> bool {
    cap & 0x80 != 0 || cap & 0x40 == 0
}

/// The bus width chosen from the host's widest bus and the card's
/// CARD_CAP: four lines where both have them, otherwise one.
pub open spec fn sdio_bus_width(host: BusWidth, cap: u8) -> BusWidth {
    if host == BusWidth::W4 && card_supports_4bit(cap) {
        BusWidth::W4
    } else {
        BusWidth::W1
    }
}

/// The BUS_CTRL width code of the chosen width.
pub open spec fn sdio_width_code(host: BusWidth, cap: u8) -> u8 {
    if host == BusWidth::W4 && card_supports_4bit(cap) {
        0x02
    } else {
        0x00
    }
}

/// The frequency of the bus before high speed: the target, at most 25 MHz.
pub open spec fn default_speed(freq: u32) -> u32 {
    if freq <= SDIO_DEFAULT_SPEED_HZ {
        freq
    } else {
        SDIO_DEFAULT_SPEED_HZ
    }
}

/// Moves to phase `p` and asks for `req`.
pub open spec fn sdio_go(s: SdioInit, p: SdioPhase, req: BusRequest) -> (SdioInit, Step) {
    (SdioInit { phase: p, ..s }, Step::Request(req))
}

/// Ends the initialization with `r`.
pub open spec fn sdio_stop(s: SdioInit, r: Result<(), MmcError>) -> (SdioInit, Step) {
    (SdioInit { phase: SdioPhase::Finished, ..s }, Step::Done(r))
}

/// The initialization before any request: the target frequency is capped
/// at the host's maximum and the bus is initialized at 400 kHz.
pub open spec fn sdio_start_spec(freq: u32, host: HostCaps, s: SdioInit, r: Step) -> bool {
    &&& s.phase == SdioPhase::InitIdle
    &&& s.host == host
    &&& s.freq == if freq <= host.max_frequency { freq } else { host.max_frequency }
    &&& s.attempts == 0
    &&& s.ocr.0 == 0
    &&& s.rca == 0
    &&& s.bus_width == BusWidth::W1
    &&& r == Step::Request(BusRequest::InitIdle(INIT_FREQ))
}

/// The step from phase `InitIdle`.
pub open spec fn sdio_on_init_idle(s: SdioInit, ev: BusEvent) -> (SdioInit, Step) {
    match ev {
        BusEvent::Completed => sdio_go(s, SdioPhase::Inquiry, sdio_op_cond(0)),
        _ => sdio_stop(s, Err(MmcError::Other)),
    }
}

/// The step from phase `Inquiry`.
pub open spec fn sdio_on_inquiry(s: SdioInit, ev: BusEvent) -> (SdioInit, Step) {
    match ev {
        BusEvent::Answered(Reply::R4(r)) => {
            let w = power_up_window(r.ocr);
            sdio_go(SdioInit { window: w, ..s }, SdioPhase::OpCond, sdio_op_cond(w))
        },
        _ => sdio_stop(s, Err(MmcError::Other)),
    }
}

/// The step from phase `OpCond`.
pub open spec fn sdio_on_op_cond(s: SdioInit, ev: BusEvent) -> (SdioInit, Step) {
    match ev {
        BusEvent::Answered(Reply::R4(r)) => if r.ocr & 0x8000_0000 != 0 {
            sdio_go(
                SdioInit { ocr: OCR(r.ocr, PhantomData), ..s },
                SdioPhase::SendRca,
                BusRequest::Send(Control::SendRelativeAddress(sd::Cmd3)),
            )
        } else if s.attempts > 750 {
            sdio_stop(s, Err(MmcError::Timeout))
        } else {
            sdio_go(s, SdioPhase::OpCondWait, BusRequest::DelayMs(1))
        },
        _ => sdio_stop(s, Err(MmcError::Other)),
    }
}

/// The step from phase `OpCondWait`.
pub open spec fn sdio_on_op_cond_wait(s: SdioInit, ev: BusEvent) -> (SdioInit, Step) {
    match ev {
        BusEvent::Completed => sdio_go(
            SdioInit { attempts: (s.attempts + 1) as u32, ..s },
            SdioPhase::OpCond,
            sdio_op_cond(s.window),
        ),
        _ => sdio_stop(s, Err(MmcError::Other)),
    }
}

/// The step from phase `SendRca`.
pub open spec fn sdio_on_send_rca(s: SdioInit, ev: BusEvent) -> (SdioInit, Step) {
    match ev {
        BusEvent::Answered(Reply::R6(r)) => sdio_go(
            SdioInit { rca: r.rca, ..s },
            SdioPhase::Select,
            BusRequest::Send(Control::SelectCard(Cmd7 { rca: r.rca })),
        ),
        _ => sdio_stop(s, Err(MmcError::Other)),
    }
}

/// The step from phase `Select`.
pub open spec fn sdio_on_select(s: SdioInit, ev: BusEvent) -> (SdioInit, Step) {
    match ev {
        BusEvent::Answered(_) => sdio_go(s, SdioPhase::CardCap, sdio_read(CCCR_CARD_CAP)),
        _ => sdio_stop(s, Err(MmcError::Other)),
    }
}

/// The step from phase `CardCap`.
pub open spec fn sdio_on_card_cap(s: SdioInit, ev: BusEvent) -> (SdioInit, Step) {
    match ev {
        BusEvent::Answered(Reply::R5(r)) => match cmd52_result(r) {
            Ok(cap) => sdio_go(
                SdioInit {
                    bus_width: sdio_bus_width(s.host.bus_width, cap),
                    width_code: sdio_width_code(s.host.bus_width, cap),
                    ..s
                },
                SdioPhase::BusCtrlRead,
                sdio_read(CCCR_BUS_CTRL),
            ),
            Err(e) => sdio_stop(s, Err(e)),
        },
        _ => sdio_stop(s, Err(MmcError::Other)),
    }
}

/// The step from phase `BusCtrlRead`.
pub open spec fn sdio_on_bus_ctrl_read(s: SdioInit, ev: BusEvent) -> (SdioInit, Step) {
    match ev {
        BusEvent::Answered(Reply::R5(r)) => match cmd52_result(r) {
            Ok(ctrl) => sdio_go(
                s,
                SdioPhase::BusCtrlWrite,
                sdio_write(CCCR_BUS_CTRL, (ctrl & !0x03u8) | s.width_code),
            ),
            Err(e) => sdio_stop(s, Err(e)),
        },
        _ => sdio_stop(s, Err(MmcError::Other)),
    }
}

/// The step from phase `BusCtrlWrite`.
pub open spec fn sdio_on_bus_ctrl_write(s: SdioInit, ev: BusEvent) -> (SdioInit, Step) {
    match ev {
        BusEvent::Answered(Reply::R5(r)) => match cmd52_result(r) {
            Ok(_) => sdio_go(
                s,
                SdioPhase::SetBus,
                BusRequest::SetBus(s.bus_width, default_speed(s.freq)),
            ),
            Err(e) => sdio_stop(s, Err(e)),
        },
        _ => sdio_stop(s, Err(MmcError::Other)),
    }
}

/// The step from phase `SetBus`.
pub open spec fn sdio_on_set_bus(s: SdioInit, ev: BusEvent) -> (SdioInit, Step) {
    match ev {
        BusEvent::Completed => sdio_go(s, SdioPhase::HighSpeedRead, sdio_read(CCCR_HIGH_SPEED)),
        _ => sdio_stop(s, Err(MmcError::Other)),
    }
}

/// The step from phase `HighSpeedRead`.
pub open spec fn sdio_on_high_speed_read(s: SdioInit, ev: BusEvent) -> (SdioInit, Step) {
    match ev {
        BusEvent::Answered(Reply::R5(r)) => match cmd52_result(r) {
            Ok(hs) => if s.freq > SDIO_DEFAULT_SPEED_HZ && hs & 0x01 != 0 {
                sdio_go(s, SdioPhase::HighSpeedWrite, sdio_write(CCCR_HIGH_SPEED, hs | 0x02))
            } else {
                sdio_stop(s, Ok(()))
            },
            Err(e) => sdio_stop(s, Err(e)),
        },
        _ => sdio_stop(s, Err(MmcError::Other)),
    }
}

/// The step from phase `HighSpeedWrite`.
pub open spec fn sdio_on_high_speed_write(s: SdioInit, ev: BusEvent) -> (SdioInit, Step) {
    match ev {
        BusEvent::Answered(Reply::R5(r)) => match cmd52_result(r) {
            Ok(_) => sdio_go(s, SdioPhase::SetBusFast, BusRequest::SetBus(s.bus_width, s.freq)),
            Err(e) => sdio_stop(s, Err(e)),
        },
        _ => sdio_stop(s, Err(MmcError::Other)),
    }
}

/// The step from phase `SetBusFast`.
pub open spec fn sdio_on_set_bus_fast(s: SdioInit, ev: BusEvent) -> (SdioInit, Step) {
    match ev {
        BusEvent::Completed => sdio_stop(s, Ok(())),
        _ => sdio_stop(s, Err(MmcError::Other)),
    }
}

/// The next state and step of an SDIO initialization in state `s` once
/// the bus reported `ev` for the request out.
///
/// A failure of the bus ends the initialization with that error, and so
/// does an error that a CMD52 response reports; an event of another kind
/// than the request calls for ends it with `Other`.
pub open spec fn sdio_next(s: SdioInit, ev: BusEvent) -> (SdioInit, Step) {
    match ev {
        BusEvent::Failed(e) => sdio_stop(s, Err(e)),
        _ => match s.phase {
            SdioPhase::InitIdle => sdio_on_init_idle(s, ev),
            SdioPhase::Inquiry => sdio_on_inquiry(s, ev),
            SdioPhase::OpCond => sdio_on_op_cond(s, ev),
            SdioPhase::OpCondWait => sdio_on_op_cond_wait(s, ev),
            SdioPhase::SendRca => sdio_on_send_rca(s, ev),
            SdioPhase::Select => sdio_on_select(s, ev),
            SdioPhase::CardCap => sdio_on_card_cap(s, ev),
            SdioPhase::BusCtrlRead => sdio_on_bus_ctrl_read(s, ev),
            SdioPhase::BusCtrlWrite => sdio_on_bus_ctrl_write(s, ev),
            SdioPhase::SetBus => sdio_on_set_bus(s, ev),
            SdioPhase::HighSpeedRead => sdio_on_high_speed_read(s, ev),
            SdioPhase::HighSpeedWrite => sdio_on_high_speed_write(s, ev),
            SdioPhase::SetBusFast => sdio_on_set_bus_fast(s, ev),
            SdioPhase::Finished => sdio_stop(s, Err(MmcError::Other)),
        },
    }
}

/// Every step keeps the invariant and never initializes the bus again (the
/// first request is the only one at 400 kHz); the bus is configured only within the
/// host's limits, and above 25 MHz only after high speed was enabled; high
/// speed is enabled only for a target above 25 MHz; addressing starts only
/// after power up, and the initialization succeeds only after it.
pub proof fn lemma_sdio_next_laws(s: SdioInit, ev: BusEvent)
    requires
        s.inv(),
    ensures
        ({
            let (n, r) = sdio_next(s, ev);
            &&& n.inv()
            &&& n.host == s.host
            &&& r == Step::Done(Ok(())) ==> n.ocr.0 & 0x8000_0000 != 0
            &&& !(r matches Step::Request(BusRequest::InitIdle(_)))
            &&& n.freq == s.freq
            &&& r matches Step::Request(BusRequest::SetBus(w, hz)) ==> hz <= s.host.max_frequency
                && bus_width_lines(w) <= bus_width_lines(s.host.bus_width)
                && (hz > SDIO_DEFAULT_SPEED_HZ ==> s.phase == SdioPhase::HighSpeedWrite)
            &&& r matches Step::Request(BusRequest::Send(Control::IoRwDirect(c))) ==> (c.write
                && c.addr == CCCR_HIGH_SPEED ==> s.freq > SDIO_DEFAULT_SPEED_HZ)
            &&& r matches Step::Request(BusRequest::Send(Control::SendRelativeAddress(_)))
                ==> n.ocr.0 & 0x8000_0000 != 0
        }),
{
}

/// High speed is enabled only on a card that reports it supports it: a
/// CMD52 write of HIGH_SPEED is asked for only right after the HIGH_SPEED
/// byte came back without error and with SHS (bit 0) set, for a target
/// above 25 MHz, and it writes that byte with EHS (bit 1) set. The phase
/// that leads to a bus above 25 MHz is reached only that way, and from any
/// other phase the bus is set to at most 25 MHz.
pub proof fn lemma_sdio_high_speed_needs_shs(s: SdioInit, ev: BusEvent)
    ensures
        ({
            let (n, r) = sdio_next(s, ev);
            &&& r matches Step::Request(BusRequest::Send(Control::IoRwDirect(c))) ==> (c.write
                && c.addr == CCCR_HIGH_SPEED ==> (s.phase == SdioPhase::HighSpeedRead
                && s.freq > 25_000_000 && (ev matches BusEvent::Answered(Reply::R5(x)) && x.flags
                & 0xE3 == 0 && x.data & 0x01 != 0 && c.data == x.data | 0x02)))
            &&& n.phase == SdioPhase::HighSpeedWrite ==> (s.phase == SdioPhase::HighSpeedRead && (
            ev matches BusEvent::Answered(Reply::R5(x)) && x.flags & 0xE3 == 0 && x.data & 0x01
                != 0))
            &&& r matches Step::Request(BusRequest::SetBus(w, hz)) ==> (s.phase
                != SdioPhase::HighSpeedWrite ==> hz <= 25_000_000)
        }),
{
    if let BusEvent::Answered(Reply::R5(x)) = ev {
        let f = x.flags;
        assert(f & 0xE3 != 0 <==> (f & 0x80 != 0 || f & 0x40 != 0 || f & 0x23 != 0)) by (bit_vector);
    }
}

impl SdioInit {
    /// Begins the initialization of an SDIO card at target frequency
    /// `freq`, on a host with capabilities `host`.
    pub fn start(freq: u32, host: HostCaps) -> (r: (SdioInit, Step))
        ensures
            sdio_start_spec(freq, host, r.0, r.1),
            r.0.inv(),
    {
        // Clamp the frequency to the supported bus frequency.
        let freq = if freq <= host.max_frequency {
            freq
        } else {
            host.max_frequency
        };
        let s = SdioInit {
            phase: SdioPhase::InitIdle,
            host,
            freq,
            window: 0,
            attempts: 0,
            ocr: OCR::default(),
            rca: 0,
            bus_width: BusWidth::W1,
            width_code: 0,
        };
        (s, Step::Request(BusRequest::InitIdle(INIT_FREQ)))
    }

    fn go(&mut self, p: SdioPhase, req: BusRequest) -> (r: Step)
        ensures
            (*final(self), r) == sdio_go(*old(self), p, req),
    {
        self.phase = p;
        Step::Request(req)
    }

    fn stop(&mut self, res: Result<(), MmcError>) -> (r: Step)
        ensures
            (*final(self), r) == sdio_stop(*old(self), res),
    {
        self.phase = SdioPhase::Finished;
        Step::Done(res)
    }

    fn read(addr: u32) -> (r: BusRequest)
        ensures
            r == sdio_read(addr),
    {
        BusRequest::Send(Control::IoRwDirect(crate::sdio::cmd52_read_command(0, addr)))
    }

    fn write(addr: u32, data: u8) -> (r: BusRequest)
        ensures
            r == sdio_write(addr, data),
    {
        BusRequest::Send(Control::IoRwDirect(crate::sdio::cmd52_write_command(0, addr, data)))
    }

    fn op_cond(window: u16) -> (r: BusRequest)
        ensures
            r == sdio_op_cond(window),
    {
        BusRequest::Send(Control::IoSendOpCond(crate::sdio::io_send_op_cond(false, window)))
    }

    fn on_inquiry(&mut self, ev: BusEvent) -> (r: Step)
        requires
            old(self).phase == SdioPhase::Inquiry,
        ensures
            (*final(self), r) == sdio_on_inquiry(*old(self), ev),
    {
        match ev {
            BusEvent::Answered(Reply::R4(r)) => {
                // The card reports the voltage window it supports in the
                // inquiry; an empty one falls back to the full range, as an
                // empty window would never power the card up.
                let inquiry: OCR<SDIO> = OCR::from(r);
                let v = inquiry.0;
                assert(((v >> 15u32) & 0x1FF) as u16 == (v / 0x8000) % 0x200) by (bit_vector);
                let mut window = ((v >> 15) & 0x1FF) as u16;
                if window == 0 {
                    window = 0x1FF;
                }
                self.window = window;
                self.go(SdioPhase::OpCond, Self::op_cond(window))
            },
            _ => self.stop(Err(MmcError::Other)),
        }
    }

    fn on_op_cond(&mut self, ev: BusEvent) -> (r: Step)
        requires
            old(self).phase == SdioPhase::OpCond,
        ensures
            (*final(self), r) == sdio_on_op_cond(*old(self), ev),
    {
        match ev {
            BusEvent::Answered(Reply::R4(r)) => {
                let ocr: OCR<SDIO> = OCR::from(r);
                if !ocr.is_busy() {
                    self.ocr = ocr;
                    self.go(
                        SdioPhase::SendRca,
                        BusRequest::Send(Control::SendRelativeAddress(sd::send_relative_address())),
                    )
                } else if self.attempts > 750 {
                    self.stop(Err(MmcError::Timeout))
                } else {
                    self.go(SdioPhase::OpCondWait, BusRequest::DelayMs(1))
                }
            },
            _ => self.stop(Err(MmcError::Other)),
        }
    }

    fn on_send_rca(&mut self, ev: BusEvent) -> (r: Step)
        requires
            old(self).phase == SdioPhase::SendRca,
        ensures
            (*final(self), r) == sdio_on_send_rca(*old(self), ev),
    {
        match ev {
            BusEvent::Answered(Reply::R6(r)) => {
                proof {
                    crate::common::lemma_rca_from_r6::<SDIO>(r);
                }
                let rca = RCA::<SDIO>::from(r).address();
                self.rca = rca;
                self.go(
                    SdioPhase::Select,
                    BusRequest::Send(Control::SelectCard(crate::common::select_card(rca))),
                )
            },
            _ => self.stop(Err(MmcError::Other)),
        }
    }

    fn on_card_cap(&mut self, ev: BusEvent) -> (r: Step)
        requires
            old(self).phase == SdioPhase::CardCap,
            old(self).inv(),
        ensures
            (*final(self), r) == sdio_on_card_cap(*old(self), ev),
    {
        match ev {
            BusEvent::Answered(Reply::R5(r)) => match crate::sdio::cmd52_outcome(&r) {
                Ok(cap) => {
                    // The widest bus the card and the host both support.
                    let four = cap & crate::sdio::CARD_CAP_4BLS != 0 || cap
                        & crate::sdio::CARD_CAP_LSC == 0;
                    let host_four = match self.host.bus_width {
                        BusWidth::W4 => true,
                        _ => false,
                    };
                    if host_four && four {
                        self.width_code = crate::sdio::BUS_CTRL_WIDTH_4BIT;
                        self.bus_width = BusWidth::W4;
                    } else {
                        self.width_code = crate::sdio::BUS_CTRL_WIDTH_1BIT;
                        self.bus_width = BusWidth::W1;
                    }
                    self.go(SdioPhase::BusCtrlRead, Self::read(CCCR_BUS_CTRL))
                },
                Err(e) => self.stop(Err(e)),
            },
            _ => self.stop(Err(MmcError::Other)),
        }
    }

    fn on_bus_ctrl_read(&mut self, ev: BusEvent) -> (r: Step)
        requires
            old(self).phase == SdioPhase::BusCtrlRead,
        ensures
            (*final(self), r) == sdio_on_bus_ctrl_read(*old(self), ev),
    {
        match ev {
            BusEvent::Answered(Reply::R5(r)) => match crate::sdio::cmd52_outcome(&r) {
                Ok(ctrl) => {
                    let v = (ctrl & !crate::sdio::BUS_CTRL_WIDTH_MASK) | self.width_code;
                    self.go(SdioPhase::BusCtrlWrite, Self::write(CCCR_BUS_CTRL, v))
                },
                Err(e) => self.stop(Err(e)),
            },
            _ => self.stop(Err(MmcError::Other)),
        }
    }

    fn on_bus_ctrl_write(&mut self, ev: BusEvent) -> (r: Step)
        requires
            old(self).phase == SdioPhase::BusCtrlWrite,
        ensures
            (*final(self), r) == sdio_on_bus_ctrl_write(*old(self), ev),
    {
        match ev {
            BusEvent::Answered(Reply::R5(r)) => match crate::sdio::cmd52_outcome(&r) {
                Ok(_) => {
                    // Up to 25 MHz
                    let hz = if self.freq <= SDIO_DEFAULT_SPEED_HZ {
                        self.freq
                    } else {
                        SDIO_DEFAULT_SPEED_HZ
                    };
                    let w = self.bus_width;
                    self.go(SdioPhase::SetBus, BusRequest::SetBus(w, hz))
                },
                Err(e) => self.stop(Err(e)),
            },
            _ => self.stop(Err(MmcError::Other)),
        }
    }

    fn on_high_speed_read(&mut self, ev: BusEvent) -> (r: Step)
        requires
            old(self).phase == SdioPhase::HighSpeedRead,
        ensures
            (*final(self), r) == sdio_on_high_speed_read(*old(self), ev),
    {
        match ev {
            BusEvent::Answered(Reply::R5(r)) => match crate::sdio::cmd52_outcome(&r) {
                Ok(hs) => {
                    if self.freq > SDIO_DEFAULT_SPEED_HZ && hs & crate::sdio::HIGH_SPEED_SHS != 0 {
                        self.go(
                            SdioPhase::HighSpeedWrite,
                            Self::write(CCCR_HIGH_SPEED, hs | crate::sdio::HIGH_SPEED_EHS),
                        )
                    } else {
                        self.stop(Ok(()))
                    }
                },
                Err(e) => self.stop(Err(e)),
            },
            _ => self.stop(Err(MmcError::Other)),
        }
    }

    fn on_high_speed_write(&mut self, ev: BusEvent) -> (r: Step)
        requires
            old(self).phase == SdioPhase::HighSpeedWrite,
        ensures
            (*final(self), r) == sdio_on_high_speed_write(*old(self), ev),
    {
        match ev {
            BusEvent::Answered(Reply::R5(r)) => match crate::sdio::cmd52_outcome(&r) {
                Ok(_) => {
                    // Up to the target frequency
                    let w = self.bus_width;
                    let hz = self.freq;
                    self.go(SdioPhase::SetBusFast, BusRequest::SetBus(w, hz))
                },
                Err(e) => self.stop(Err(e)),
            },
            _ => self.stop(Err(MmcError::Other)),
        }
    }

    /// Advances the initialization with what the bus reported for the
    /// request out.
    pub fn step(&mut self, ev: BusEvent) -> (r: Step)
        requires
            old(self).inv(),
            old(self).phase != SdioPhase::Finished,
        ensures
            (*final(self), r) == sdio_next(*old(self), ev),
            final(self).inv(),
            final(self).host == old(self).host,
            // The bus is never configured beyond what the host supports,
            // and above 25 MHz only once high speed is enabled.
            r matches Step::Request(BusRequest::SetBus(w, hz)) ==> hz <= old(self).host.max_frequency
                && bus_width_lines(w) <= bus_width_lines(old(self).host.bus_width) && (hz
                > SDIO_DEFAULT_SPEED_HZ ==> old(self).phase == SdioPhase::HighSpeedWrite),
            // Addressing starts only once the card has powered up.
            r matches Step::Request(BusRequest::Send(Control::SendRelativeAddress(_)))
                ==> final(self).ocr.0 & 0x8000_0000 != 0,
    {
        let ghost s0 = *self;
        let ghost ev0 = ev;
        proof {
            lemma_sdio_next_laws(s0, ev0);
        }
        match ev {
            BusEvent::Failed(e) => self.stop(Err(e)),
            ev => match self.phase {
                SdioPhase::InitIdle => match ev {
                    BusEvent::Completed => self.go(SdioPhase::Inquiry, Self::op_cond(0)),
                    _ => self.stop(Err(MmcError::Other)),
                },
                SdioPhase::Inquiry => self.on_inquiry(ev),
                SdioPhase::OpCond => self.on_op_cond(ev),
                SdioPhase::OpCondWait => match ev {
                    BusEvent::Completed => {
                        self.attempts = self.attempts + 1;
                        let w = self.window;
                        self.go(SdioPhase::OpCond, Self::op_cond(w))
                    },
                    _ => self.stop(Err(MmcError::Other)),
                },
                SdioPhase::SendRca => self.on_send_rca(ev),
                SdioPhase::Select => match ev {
                    BusEvent::Answered(_) => self.go(SdioPhase::CardCap, Self::read(CCCR_CARD_CAP)),
                    _ => self.stop(Err(MmcError::Other)),
                },
                SdioPhase::CardCap => self.on_card_cap(ev),
                SdioPhase::BusCtrlRead => self.on_bus_ctrl_read(ev),
                SdioPhase::BusCtrlWrite => self.on_bus_ctrl_write(ev),
                SdioPhase::SetBus => match ev {
                    BusEvent::Completed => self.go(
                        SdioPhase::HighSpeedRead,
                        Self::read(CCCR_HIGH_SPEED),
                    ),
                    _ => self.stop(Err(MmcError::Other)),
                },
                SdioPhase::HighSpeedRead => self.on_high_speed_read(ev),
                SdioPhase::HighSpeedWrite => self.on_high_speed_write(ev),
                SdioPhase::SetBusFast => match ev {
                    BusEvent::Completed => self.stop(Ok(())),
                    _ => self.stop(Err(MmcError::Other)),
                },
                SdioPhase::Finished => self.stop(Err(MmcError::Other)),
            },
        }
    }
}

/// Where the enabling or disabling of I/O functions stands.
#[derive(Debug, Clone, Copy, PartialEq, Eq, Structural)]
pub enum FunctionsPhase {
    /// CMD52 read of IO_ENABLE before enabling
    EnableRead,
    /// CMD52 write of IO_ENABLE with the functions' bits set
    EnableWrite,
    /// CMD52 read of IO_READY
    ReadyPoll,
    /// 2 ms pause before reading IO_READY again
    ReadyWait,
    /// CMD52 read of IO_ENABLE before disabling
    DisableRead,
    /// CMD52 write of IO_ENABLE with the functions' bits cleared
    DisableWrite,
    /// The operation is over
    Finished,
}

/// Enabling or disabling the I/O functions named by a mask, where bit N
/// stands for function N.
pub struct SdioFunctions {
    pub phase: FunctionsPhase,
    pub mask: u8,
}

/// Moves to phase `p` and asks for `req`.
pub open spec fn functions_go(s: SdioFunctions, p: FunctionsPhase, req: BusRequest) -> (
    SdioFunctions,
    Step,
) {
    (SdioFunctions { phase: p, ..s }, Step::Request(req))
}

/// Ends the operation with `r`.
pub open spec fn functions_stop(s: SdioFunctions, r: Result<(), MmcError>) -> (SdioFunctions, Step) {
    (SdioFunctions { phase: FunctionsPhase::Finished, ..s }, Step::Done(r))
}

/// The step after a CMD52 answer `ev` in phase `s`: on a register byte,
/// `ok`; on an error its flags report, that error.
pub open spec fn functions_on_cmd52(
    s: SdioFunctions,
    ev: BusEvent,
    ok: spec_fn(u8) -> (SdioFunctions, Step),
) -> (SdioFunctions, Step) {
    match ev {
        BusEvent::Answered(Reply::R5(r)) => match cmd52_result(r) {
            Ok(v) => ok(v),
            Err(e) => functions_stop(s, Err(e)),
        },
        _ => functions_stop(s, Err(MmcError::Other)),
    }
}

/// The next state and step once the bus reported `ev` for the request out.
///
/// Enabling reads IO_ENABLE, writes it back with the functions' bits set,
/// then reads IO_READY every 2 ms until all of them are ready. Disabling
/// reads IO_ENABLE and writes it back with their bits cleared.
pub open spec fn functions_next(s: SdioFunctions, ev: BusEvent) -> (SdioFunctions, Step) {
    match ev {
        BusEvent::Failed(e) => functions_stop(s, Err(e)),
        _ => match s.phase {
            FunctionsPhase::EnableRead => functions_on_cmd52(
                s,
                ev,
                |cur: u8|
                    functions_go(
                        s,
                        FunctionsPhase::EnableWrite,
                        sdio_write(CCCR_IO_ENABLE, cur | s.mask),
                    ),
            ),
            FunctionsPhase::EnableWrite => functions_on_cmd52(
                s,
                ev,
                |v: u8| functions_go(s, FunctionsPhase::ReadyPoll, sdio_read(CCCR_IO_READY)),
            ),
            FunctionsPhase::ReadyPoll => functions_on_cmd52(
                s,
                ev,
                |ready: u8|
                    if ready & s.mask == s.mask {
                        functions_stop(s, Ok(()))
                    } else {
                        functions_go(s, FunctionsPhase::ReadyWait, BusRequest::DelayMs(2))
                    },
            ),
            FunctionsPhase::ReadyWait => match ev {
                BusEvent::Completed => functions_go(
                    s,
                    FunctionsPhase::ReadyPoll,
                    sdio_read(CCCR_IO_READY),
                ),
                _ => functions_stop(s, Err(MmcError::Other)),
            },
            FunctionsPhase::DisableRead => functions_on_cmd52(
                s,
                ev,
                |cur: u8|
                    functions_go(
                        s,
                        FunctionsPhase::DisableWrite,
                        sdio_write(CCCR_IO_ENABLE, cur & !s.mask),
                    ),
            ),
            FunctionsPhase::DisableWrite => functions_on_cmd52(
                s,
                ev,
                |v: u8| functions_stop(s, Ok(())),
            ),
            FunctionsPhase::Finished => functions_stop(s, Err(MmcError::Other)),
        },
    }
}

/// Enabling writes IO_ENABLE with every bit of the mask set and the other
/// bits as read; disabling writes it with every bit of the mask cleared and
/// the other bits as read; enabling succeeds only once IO_READY reported
/// every function of the mask ready. The mask never changes.
pub proof fn lemma_functions_laws(s: SdioFunctions, ev: BusEvent)
    ensures
        ({
            let (n, r) = functions_next(s, ev);
            &&& n.mask == s.mask
            &&& s.phase == FunctionsPhase::EnableRead ==> (r matches Step::Request(
                BusRequest::Send(Control::IoRwDirect(c)),
            ) ==> (ev matches BusEvent::Answered(Reply::R5(x)) && c.addr == CCCR_IO_ENABLE
                && c.write && c.data & s.mask == s.mask && c.data & !s.mask == x.data & !s.mask))
            &&& s.phase == FunctionsPhase::DisableRead ==> (r matches Step::Request(
                BusRequest::Send(Control::IoRwDirect(c)),
            ) ==> (ev matches BusEvent::Answered(Reply::R5(x)) && c.addr == CCCR_IO_ENABLE
                && c.write && c.data & s.mask == 0 && c.data & !s.mask == x.data & !s.mask))
            &&& (s.phase == FunctionsPhase::ReadyPoll && r == Step::Done(Ok(()))) ==> (ev matches BusEvent::Answered(
                Reply::R5(x),
            ) && x.data & s.mask == s.mask)
        }),
{
    if let BusEvent::Answered(Reply::R5(x)) = ev {
        let cur = x.data;
        let m = s.mask;
        assert((cur | m) & m == m && (cur | m) & !m == cur & !m && (cur & !m) & m == 0 && (cur & !m)
            & !m == cur & !m) by (bit_vector);
    }
}

impl SdioFunctions {
    /// Begins enabling the functions of `mask`; a mask that names none of
    /// functions 1 to 7 succeeds at once.
    pub fn enable(mask: u8) -> (r: (SdioFunctions, Step))
        ensures
            r.0.mask == mask,
            mask & 0xFE == 0 ==> r.0.phase == FunctionsPhase::Finished && r.1 == Step::Done(Ok(())),
            mask & 0xFE != 0 ==> r.0.phase == FunctionsPhase::EnableRead && r.1 == Step::Request(
                sdio_read(CCCR_IO_ENABLE),
            ),
    {
        if mask & 0xFE == 0 {
            (SdioFunctions { phase: FunctionsPhase::Finished, mask }, Step::Done(Ok(())))
        } else {
            (
                SdioFunctions { phase: FunctionsPhase::EnableRead, mask },
                Step::Request(SdioInit::read(CCCR_IO_ENABLE)),
            )
        }
    }

    /// Begins disabling the functions of `mask`.
    pub fn disable(mask: u8) -> (r: (SdioFunctions, Step))
        ensures
            r.0.mask == mask,
            r.0.phase == FunctionsPhase::DisableRead,
            r.1 == Step::Request(sdio_read(CCCR_IO_ENABLE)),
    {
        (
            SdioFunctions { phase: FunctionsPhase::DisableRead, mask },
            Step::Request(SdioInit::read(CCCR_IO_ENABLE)),
        )
    }

    fn go(&mut self, p: FunctionsPhase, req: BusRequest) -> (r: Step)
        ensures
            (*final(self), r) == functions_go(*old(self), p, req),
    {
        self.phase = p;
        Step::Request(req)
    }

    fn stop(&mut self, res: Result<(), MmcError>) -> (r: Step)
        ensures
            (*final(self), r) == functions_stop(*old(self), res),
    {
        self.phase = FunctionsPhase::Finished;
        Step::Done(res)
    }

    /// Advances the operation with what the bus reported for the request
    /// out.
    pub fn step(&mut self, ev: BusEvent) -> (r: Step)
        requires
            old(self).phase != FunctionsPhase::Finished,
        ensures
            (*final(self), r) == functions_next(*old(self), ev),
    {
        let mask = self.mask;
        match ev {
            BusEvent::Failed(e) => self.stop(Err(e)),
            BusEvent::Answered(Reply::R5(r)) => {
                let out = crate::sdio::cmd52_outcome(&r);
                match out {
                    Err(e) => match self.phase {
                        FunctionsPhase::ReadyWait => self.stop(Err(MmcError::Other)),
                        FunctionsPhase::Finished => self.stop(Err(MmcError::Other)),
                        _ => self.stop(Err(e)),
                    },
                    Ok(v) => match self.phase {
                        FunctionsPhase::EnableRead => self.go(
                            FunctionsPhase::EnableWrite,
                            SdioInit::write(CCCR_IO_ENABLE, v | mask),
                        ),
                        FunctionsPhase::EnableWrite => self.go(
                            FunctionsPhase::ReadyPoll,
                            SdioInit::read(CCCR_IO_READY),
                        ),
                        FunctionsPhase::ReadyPoll => {
                            if crate::sdio::functions_ready(v, mask) {
                                self.stop(Ok(()))
                            } else {
                                self.go(FunctionsPhase::ReadyWait, BusRequest::DelayMs(2))
                            }
                        },
                        FunctionsPhase::DisableRead => self.go(
                            FunctionsPhase::DisableWrite,
                            SdioInit::write(CCCR_IO_ENABLE, crate::sdio::disabled_functions(v, mask)),
                        ),
                        FunctionsPhase::DisableWrite => self.stop(Ok(())),
                        _ => self.stop(Err(MmcError::Other)),
                    },
                }
            },
            BusEvent::Completed => match self.phase {
                FunctionsPhase::ReadyWait => self.go(
                    FunctionsPhase::ReadyPoll,
                    SdioInit::read(CCCR_IO_READY),
                ),
                _ => self.stop(Err(MmcError::Other)),
            },
            _ => self.stop(Err(MmcError::Other)),
        }
    }
}

} // verus!
