//! Initialization of an eMMC device: power up with CMD1, identification,
//! bus width through EXT_CSD, and the read of the EXT_CSD.

use vstd::prelude::*;
use core::marker::PhantomData;

use crate::common::{block_size_len, BlockSize, Cmd16, Cmd2, Cmd7, Cmd9, OCR};
use crate::device::{BusEvent, BusRequest, Control, HostCaps, RegisterData, RegisterRead, Reply, Step};
use crate::emmc::{access_mode_code, AccessMode, Cmd1, Cmd3, Cmd6, Cmd8, Emmc, ExtCSD, EMMC};
use crate::{bus_width_lines, BusWidth, MmcError, INIT_FREQ};

verus! {

/// Where the eMMC initialization stands: each phase names the request
/// that is out on the bus and awaits its outcome.
#[derive(Debug, Clone, Copy, PartialEq, Eq, Structural)]
pub enum EmmcPhase {
    /// Bus initialized at 400 kHz, one bit wide
    InitIdle,
    /// CMD1 SEND_OP_COND
    OpCond,
    /// 1 ms pause before polling CMD1 again
    OpCondWait,
    /// CMD2 ALL_SEND_CID
    AllSendCid,
    /// CMD3 SET_RELATIVE_ADDR
    AssignRca,
    /// CMD9 SEND_CSD
    SendCsd,
    /// CMD7 SELECT_CARD
    Select,
    /// CMD6 SWITCH of EXT_CSD BUS_WIDTH
    SetWidth,
    /// Bus set to the host's width and the target frequency
    SetBus,
    /// CMD16 before reading the EXT_CSD
    ExtCsdBlockLen,
    /// CMD8 SEND_EXT_CSD
    ExtCsd,
    /// Initialization is over
    Finished,
}

/// The relative address the host assigns to the device.
pub const EMMC_RCA: u16 = 1;

/// The CMD1 argument: high voltage, sector access mode (0b10 at bits
/// 30:29), full voltage window (bits 23:15).
pub const EMMC_OP_COND: u32 = 0x40FF_8000;

/// EXT_CSD byte index of BUS_WIDTH.
pub const EXT_CSD_BUS_WIDTH: u8 = 183;

/// The state of an eMMC initialization.
pub struct EmmcInit {
    pub phase: EmmcPhase,
    /// What the host supports
    pub host: HostCaps,
    /// Target frequency, at most what the host supports
    pub freq: u32,
    /// Number of CMD1 answers that reported the device still busy
    pub attempts: u32,
    /// What has been learned of the device so far
    pub device: Emmc,
}

/// The EXT_CSD BUS_WIDTH code of a bus width.
pub open spec fn bus_width_code(w: BusWidth) -> u8 {
    match w {
        BusWidth::W1 => 0,
        BusWidth::W4 => 1,
        BusWidth::W8 => 2,
    }
}

/// Phases that come after the device reported the end of its power up.
pub open spec fn emmc_powered_up(p: EmmcPhase) -> bool {
    match p {
        EmmcPhase::InitIdle | EmmcPhase::OpCond | EmmcPhase::OpCondWait | EmmcPhase::Finished => false,
        _ => true,
    }
}

impl EmmcInit {
    /// What every state of the initialization keeps.
    pub open spec fn inv(self) -> bool {
        &&& self.freq <= self.host.max_frequency
        &&& self.attempts <= 751
        &&& self.phase == EmmcPhase::OpCondWait ==> self.attempts <= 750
        &&& emmc_powered_up(self.phase) ==> self.device.ocr.0 & 0x8000_0000 != 0
    }
}

/// Moves to phase `p` and asks for `req`.
pub open spec fn emmc_go(s: EmmcInit, p: EmmcPhase, req: BusRequest) -> (EmmcInit, Step) {
    (EmmcInit { phase: p, ..s }, Step::Request(req))
}

/// Ends the initialization with `r`.
pub open spec fn emmc_stop(s: EmmcInit, r: Result<(), MmcError>) -> (EmmcInit, Step) {
    (EmmcInit { phase: EmmcPhase::Finished, ..s }, Step::Done(r))
}

/// The CMD1 the host polls with.
pub open spec fn emmc_op_cond() -> BusRequest {
    BusRequest::Send(Control::SendOpCond(Cmd1 { ocr: EMMC_OP_COND }))
}

/// The initialization before any request: the target frequency is capped
/// at the host's maximum; a block size other than 512 bytes is refused
/// with `Other`; otherwise the bus is initialized at 400 kHz.
pub open spec fn emmc_start_spec(block_size: BlockSize, freq: u32, host: HostCaps, s: EmmcInit, r: Step) -> bool {
    &&& s.host == host
    &&& s.freq == if freq <= host.max_frequency { freq } else { host.max_frequency }
    &&& s.attempts == 0
    &&& s.device.ocr.0 == 0
    &&& s.device.csd.0 == 0
    &&& if block_size_len(block_size) != 512 {
        &&& s.phase == EmmcPhase::Finished
        &&& r == Step::Done(Err(MmcError::Other))
    } else {
        &&& s.phase == EmmcPhase::InitIdle
        &&& r == Step::Request(BusRequest::InitIdle(INIT_FREQ))
    }
}

/// The step from phase `InitIdle`.
pub open spec fn emmc_on_init_idle(s: EmmcInit, ev: BusEvent) -> (EmmcInit, Step) {
    match ev {
        BusEvent::Completed => emmc_go(s, EmmcPhase::OpCond, emmc_op_cond()),
        _ => emmc_stop(s, Err(MmcError::Other)),
    }
}

/// The step from phase `OpCond`.
pub open spec fn emmc_on_op_cond(s: EmmcInit, ev: BusEvent) -> (EmmcInit, Step) {
    match ev {
        BusEvent::Answered(Reply::R3(r)) => if r.ocr & 0x8000_0000 != 0 {
            emmc_go(
                EmmcInit { device: Emmc { ocr: OCR(r.ocr, PhantomData), ..s.device }, ..s },
                EmmcPhase::AllSendCid,
                BusRequest::Send(Control::AllSendCid(Cmd2)),
            )
        } else if s.attempts > 750 {
            emmc_stop(s, Err(MmcError::Timeout))
        } else {
            emmc_go(s, EmmcPhase::OpCondWait, BusRequest::DelayMs(1))
        },
        _ => emmc_stop(s, Err(MmcError::Other)),
    }
}

/// The step from phase `OpCondWait`.
pub open spec fn emmc_on_op_cond_wait(s: EmmcInit, ev: BusEvent) -> (EmmcInit, Step) {
    match ev {
        BusEvent::Completed => emmc_go(
            EmmcInit { attempts: (s.attempts + 1) as u32, ..s },
            EmmcPhase::OpCond,
            emmc_op_cond(),
        ),
        _ => emmc_stop(s, Err(MmcError::Other)),
    }
}

/// The step from phase `AllSendCid`.
pub open spec fn emmc_on_all_send_cid(s: EmmcInit, ev: BusEvent) -> (EmmcInit, Step) {
    match ev {
        BusEvent::Answered(Reply::R2(r)) => emmc_go(
            EmmcInit {
                device: Emmc { cid: vstd::std_specs::convert::FromSpec::from_spec(r), ..s.device },
                ..s
            },
            EmmcPhase::AssignRca,
            BusRequest::Send(Control::AssignRelativeAddress(Cmd3 { address: EMMC_RCA })),
        ),
        _ => emmc_stop(s, Err(MmcError::Other)),
    }
}

/// The step from phase `AssignRca`.
pub open spec fn emmc_on_assign_rca(s: EmmcInit, ev: BusEvent) -> (EmmcInit, Step) {
    match ev {
        BusEvent::Answered(_) => emmc_go(
            s,
            EmmcPhase::SendCsd,
            BusRequest::Send(Control::SendCsd(Cmd9 { rca: EMMC_RCA })),
        ),
        _ => emmc_stop(s, Err(MmcError::Other)),
    }
}

/// The step from phase `SendCsd`.
pub open spec fn emmc_on_send_csd(s: EmmcInit, ev: BusEvent) -> (EmmcInit, Step) {
    match ev {
        BusEvent::Answered(Reply::R2(r)) => emmc_go(
            EmmcInit {
                device: Emmc { csd: vstd::std_specs::convert::FromSpec::from_spec(r), ..s.device },
                ..s
            },
            EmmcPhase::Select,
            BusRequest::Send(Control::SelectCard(Cmd7 { rca: EMMC_RCA })),
        ),
        _ => emmc_stop(s, Err(MmcError::Other)),
    }
}

/// The step from phase `Select`.
pub open spec fn emmc_on_select(s: EmmcInit, ev: BusEvent) -> (EmmcInit, Step) {
    match ev {
        BusEvent::Answered(_) => emmc_go(
            s,
            EmmcPhase::SetWidth,
            BusRequest::Send(
                Control::Switch(
                    Cmd6 {
                        access: access_mode_code(AccessMode::WriteByte),
                        index: EXT_CSD_BUS_WIDTH,
                        value: bus_width_code(s.host.bus_width),
                        cmd_set: 0,
                    },
                ),
            ),
        ),
        _ => emmc_stop(s, Err(MmcError::Other)),
    }
}

/// The step from phase `SetWidth`.
pub open spec fn emmc_on_set_width(s: EmmcInit, ev: BusEvent) -> (EmmcInit, Step) {
    match ev {
        BusEvent::Answered(_) => emmc_go(
            s,
            EmmcPhase::SetBus,
            BusRequest::SetBus(s.host.bus_width, s.freq),
        ),
        _ => emmc_stop(s, Err(MmcError::Other)),
    }
}

/// The step from phase `SetBus`.
pub open spec fn emmc_on_set_bus(s: EmmcInit, ev: BusEvent) -> (EmmcInit, Step) {
    match ev {
        BusEvent::Completed => emmc_go(
            s,
            EmmcPhase::ExtCsdBlockLen,
            BusRequest::Send(Control::SetBlockLength(Cmd16 { block_len: 512 })),
        ),
        _ => emmc_stop(s, Err(MmcError::Other)),
    }
}

/// The step from phase `ExtCsdBlockLen`.
pub open spec fn emmc_on_ext_csd_block_len(s: EmmcInit, ev: BusEvent) -> (EmmcInit, Step) {
    match ev {
        BusEvent::Answered(_) => emmc_go(
            s,
            EmmcPhase::ExtCsd,
            BusRequest::ReadRegister(RegisterRead::ExtCsd(Cmd8)),
        ),
        _ => emmc_stop(s, Err(MmcError::Other)),
    }
}

/// The step from phase `ExtCsd`.
pub open spec fn emmc_on_ext_csd(s: EmmcInit, ev: BusEvent) -> (EmmcInit, Step) {
    match ev {
        BusEvent::Read(RegisterData::ExtCsd(raw)) => emmc_stop(
            EmmcInit { device: Emmc { ext_csd: ExtCSD { inner: raw }, ..s.device }, ..s },
            Ok(()),
        ),
        _ => emmc_stop(s, Err(MmcError::Other)),
    }
}

/// The next state and step of an eMMC initialization in state `s` once
/// the bus reported `ev` for the request out.
///
/// A failure of the bus ends the initialization with that error; an event
/// of another kind than the request calls for ends it with `Other`.
pub open spec fn emmc_next(s: EmmcInit, ev: BusEvent) -> (EmmcInit, Step) {
    match ev {
        BusEvent::Failed(e) => emmc_stop(s, Err(e)),
        _ => match s.phase {
            EmmcPhase::InitIdle => emmc_on_init_idle(s, ev),
            EmmcPhase::OpCond => emmc_on_op_cond(s, ev),
            EmmcPhase::OpCondWait => emmc_on_op_cond_wait(s, ev),
            EmmcPhase::AllSendCid => emmc_on_all_send_cid(s, ev),
            EmmcPhase::AssignRca => emmc_on_assign_rca(s, ev),
            EmmcPhase::SendCsd => emmc_on_send_csd(s, ev),
            EmmcPhase::Select => emmc_on_select(s, ev),
            EmmcPhase::SetWidth => emmc_on_set_width(s, ev),
            EmmcPhase::SetBus => emmc_on_set_bus(s, ev),
            EmmcPhase::ExtCsdBlockLen => emmc_on_ext_csd_block_len(s, ev),
            EmmcPhase::ExtCsd => emmc_on_ext_csd(s, ev),
            EmmcPhase::Finished => emmc_stop(s, Err(MmcError::Other)),
        },
    }
}

/// Every step keeps the invariant, never initializes the bus again (the
/// first request is the only one at 400 kHz), configures the bus only
/// within the host's limits, starts identification only after power up,
/// and succeeds only after the device finished its power up.
pub proof fn lemma_emmc_next_laws(s: EmmcInit, ev: BusEvent)
    requires
        s.inv(),
    ensures
        ({
            let (n, r) = emmc_next(s, ev);
            &&& n.inv()
            &&& n.host == s.host
            &&& r == Step::Done(Ok(())) ==> n.device.ocr.0 & 0x8000_0000 != 0
            &&& !(r matches Step::Request(BusRequest::InitIdle(_)))
            &&& r matches Step::Request(BusRequest::SetBus(w, hz)) ==> hz <= s.host.max_frequency
                && bus_width_lines(w) <= bus_width_lines(s.host.bus_width)
            &&& r matches Step::Request(BusRequest::Send(Control::AllSendCid(_)))
                ==> n.device.ocr.0 & 0x8000_0000 != 0
        }),
{
}

/// The BUS_WIDTH the device is switched to matches the bus the host then
/// sets up: once the device is selected, CMD6 writes EXT_CSD byte 183 with
/// a byte write, and once that is answered the bus is set to a width with
/// the number of data lines the written value names (0 for one line, 1 for
/// four, 2 for eight), at the target frequency. That width is the host's.
pub proof fn lemma_emmc_bus_width_agrees(s: EmmcInit, selected: BusEvent, switched: BusEvent)
    requires
        s.phase == EmmcPhase::Select,
        selected is Answered,
        switched is Answered,
    ensures
        ({
            let (n1, r1) = emmc_next(s, selected);
            let (n2, r2) = emmc_next(n1, switched);
            &&& r1 matches Step::Request(BusRequest::Send(Control::Switch(c)))
            &&& r2 matches Step::Request(BusRequest::SetBus(w, hz))
            &&& r1->Request_0->Send_0->Switch_0.access == 0b11
            &&& r1->Request_0->Send_0->Switch_0.index == 183
            &&& r2->Request_0->SetBus_0 == s.host.bus_width
            &&& r2->Request_0->SetBus_1 == s.freq
            &&& ({
                let v = r1->Request_0->Send_0->Switch_0.value;
                let lines = bus_width_lines(r2->Request_0->SetBus_0);
                v == 0 && lines == 1 || v == 1 && lines == 4 || v == 2 && lines == 8
            })
        }),
{
}

impl EmmcInit {
    /// Begins the initialization of an eMMC device with blocks of
    /// `block_size`, at target frequency `freq`, on a host with
    /// capabilities `host`.
    pub fn start(block_size: BlockSize, freq: u32, host: HostCaps) -> (r: (EmmcInit, Step))
        ensures
            emmc_start_spec(block_size, freq, host, r.0, r.1),
            r.0.inv(),
    {
        let freq = if freq <= host.max_frequency {
            freq
        } else {
            host.max_frequency
        };
        let s = EmmcInit { phase: EmmcPhase::InitIdle, host, freq, attempts: 0, device: Emmc::default() };
        if block_size.len() != 512 {
            // eMMC requires 512 block size
            (EmmcInit { phase: EmmcPhase::Finished, ..s }, Step::Done(Err(MmcError::Other)))
        } else {
            (s, Step::Request(BusRequest::InitIdle(INIT_FREQ)))
        }
    }

    fn go(&mut self, p: EmmcPhase, req: BusRequest) -> (r: Step)
        ensures
            (*final(self), r) == emmc_go(*old(self), p, req),
    {
        self.phase = p;
        Step::Request(req)
    }

    fn stop(&mut self, res: Result<(), MmcError>) -> (r: Step)
        ensures
            (*final(self), r) == emmc_stop(*old(self), res),
    {
        self.phase = EmmcPhase::Finished;
        Step::Done(res)
    }

    fn op_cond() -> (r: BusRequest)
        ensures
            r == emmc_op_cond(),
    {
        BusRequest::Send(Control::SendOpCond(crate::emmc::send_op_cond(EMMC_OP_COND)))
    }

    fn on_op_cond(&mut self, ev: BusEvent) -> (r: Step)
        requires
            old(self).phase == EmmcPhase::OpCond,
        ensures
            (*final(self), r) == emmc_on_op_cond(*old(self), ev),
    {
        match ev {
            BusEvent::Answered(Reply::R3(r)) => {
                let ocr: OCR<EMMC> = OCR::from(r);
                if !ocr.is_busy() {
                    self.device.ocr = ocr;
                    self.go(
                        EmmcPhase::AllSendCid,
                        BusRequest::Send(Control::AllSendCid(crate::common::all_send_cid())),
                    )
                } else if self.attempts > 750 {
                    self.stop(Err(MmcError::Timeout))
                } else {
                    self.go(EmmcPhase::OpCondWait, BusRequest::DelayMs(1))
                }
            },
            _ => self.stop(Err(MmcError::Other)),
        }
    }

    fn on_select(&mut self, ev: BusEvent) -> (r: Step)
        requires
            old(self).phase == EmmcPhase::Select,
        ensures
            (*final(self), r) == emmc_on_select(*old(self), ev),
    {
        match ev {
            BusEvent::Answered(_) => {
                let widbus: u8 = match self.host.bus_width {
                    BusWidth::W1 => 0,
                    BusWidth::W4 => 1,
                    BusWidth::W8 => 2,
                };
                let cmd = crate::emmc::modify_ext_csd(AccessMode::WriteByte, EXT_CSD_BUS_WIDTH, widbus);
                self.go(EmmcPhase::SetWidth, BusRequest::Send(Control::Switch(cmd)))
            },
            _ => self.stop(Err(MmcError::Other)),
        }
    }

    /// Advances the initialization with what the bus reported for the
    /// request out.
    pub fn step(&mut self, ev: BusEvent) -> (r: Step)
        requires
            old(self).inv(),
            old(self).phase != EmmcPhase::Finished,
        ensures
            (*final(self), r) == emmc_next(*old(self), ev),
            final(self).inv(),
            final(self).host == old(self).host,
            // The bus is never configured beyond what the host supports.
            r matches Step::Request(BusRequest::SetBus(w, hz)) ==> hz <= old(self).host.max_frequency
                && bus_width_lines(w) <= bus_width_lines(old(self).host.bus_width),
            // Identification starts only once the device has powered up.
            r matches Step::Request(BusRequest::Send(Control::AllSendCid(_)))
                ==> final(self).device.ocr.0 & 0x8000_0000 != 0,
    {
        let ghost s0 = *self;
        let ghost ev0 = ev;
        proof {
            lemma_emmc_next_laws(s0, ev0);
        }
        match ev {
            BusEvent::Failed(e) => self.stop(Err(e)),
            ev => match self.phase {
                EmmcPhase::InitIdle => match ev {
                    BusEvent::Completed => self.go(EmmcPhase::OpCond, Self::op_cond()),
                    _ => self.stop(Err(MmcError::Other)),
                },
                EmmcPhase::OpCond => self.on_op_cond(ev),
                EmmcPhase::OpCondWait => match ev {
                    BusEvent::Completed => {
                        self.attempts = self.attempts + 1;
                        self.go(EmmcPhase::OpCond, Self::op_cond())
                    },
                    _ => self.stop(Err(MmcError::Other)),
                },
                EmmcPhase::AllSendCid => match ev {
                    BusEvent::Answered(Reply::R2(r)) => {
                        self.device.cid = crate::common::CID::from(r);
                        self.go(
                            EmmcPhase::AssignRca,
                            BusRequest::Send(
                                Control::AssignRelativeAddress(
                                    crate::emmc::assign_relative_address(EMMC_RCA),
                                ),
                            ),
                        )
                    },
                    _ => self.stop(Err(MmcError::Other)),
                },
                EmmcPhase::AssignRca => match ev {
                    BusEvent::Answered(_) => self.go(
                        EmmcPhase::SendCsd,
                        BusRequest::Send(Control::SendCsd(crate::common::send_csd(EMMC_RCA))),
                    ),
                    _ => self.stop(Err(MmcError::Other)),
                },
                EmmcPhase::SendCsd => match ev {
                    BusEvent::Answered(Reply::R2(r)) => {
                        self.device.csd = crate::common::CSD::from(r);
                        self.go(
                            EmmcPhase::Select,
                            BusRequest::Send(
                                Control::SelectCard(crate::common::select_card(EMMC_RCA)),
                            ),
                        )
                    },
                    _ => self.stop(Err(MmcError::Other)),
                },
                EmmcPhase::Select => self.on_select(ev),
                EmmcPhase::SetWidth => match ev {
                    BusEvent::Answered(_) => {
                        let w = self.host.bus_width;
                        let hz = self.freq;
                        self.go(EmmcPhase::SetBus, BusRequest::SetBus(w, hz))
                    },
                    _ => self.stop(Err(MmcError::Other)),
                },
                EmmcPhase::SetBus => match ev {
                    BusEvent::Completed => self.go(
                        EmmcPhase::ExtCsdBlockLen,
                        BusRequest::Send(
                            Control::SetBlockLength(crate::common::set_block_length(512)),
                        ),
                    ),
                    _ => self.stop(Err(MmcError::Other)),
                },
                EmmcPhase::ExtCsdBlockLen => match ev {
                    BusEvent::Answered(_) => self.go(
                        EmmcPhase::ExtCsd,
                        BusRequest::ReadRegister(RegisterRead::ExtCsd(crate::emmc::send_ext_csd())),
                    ),
                    _ => self.stop(Err(MmcError::Other)),
                },
                EmmcPhase::ExtCsd => match ev {
                    BusEvent::Read(RegisterData::ExtCsd(raw)) => {
                        self.device.ext_csd = ExtCSD { inner: raw };
                        self.stop(Ok(()))
                    },
                    _ => self.stop(Err(MmcError::Other)),
                },
                EmmcPhase::Finished => self.stop(Err(MmcError::Other)),
            },
        }
    }
}

} // verus!
