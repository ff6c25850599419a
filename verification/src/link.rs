//! The signalling-link state machine.
//!
//! [`Mtp2Link`] is a deterministic engine without I/O. It consumes inbound signal units
//! and timer ticks and produces outbound signal units plus events for level 3. Nothing
//! here touches a card or the clock: the composing runtime pulls SUs with
//! [`Mtp2Link::poll_transmit`], pushes received SUs with [`Mtp2Link::handle_su`] and
//! [`Mtp2Link::handle_corrupted_su`], advances time with [`Mtp2Link::tick`], and drains
//! [`Event`]s with [`Mtp2Link::poll_event`].
//!
//! It folds together these functions:
//!
//! * **Link state control** - the [`Mtp2State`] lifecycle: Out of Service, Not Aligned,
//!   Aligned, Proving, Aligned Ready, In Service, plus the Aligned Not Ready and
//!   Processor Outage branches.
//! * **Initial alignment control** - the SIO/SIN/SIE/SIOS status exchange that drives
//!   alignment, with normal or emergency proving.
//! * **Error-rate monitors** ([`crate::monitor`]) that abort proving or fail an
//!   in-service link.
//! * **Transmission and reception control** - the Basic and PCR retransmission methods
//!   ([`crate::retransmission`]).
//! * **Processor outage and flow control** - SIPO and SIB (busy) handling.

use std::collections::VecDeque;

use vstd::prelude::*;

use crate::error::Mtp2Error;
use crate::link_model;
use crate::link_model::LinkView;
use crate::monitor::{
    Aerm, Suerm, AERM_THRESHOLD_EMERGENCY, AERM_THRESHOLD_NORMAL, SUERM_DECREMENT_INTERVAL,
    SUERM_THRESHOLD,
};
use crate::retransmission::{
    MsuBody, RetransmissionMethod, RxControl, RxOutcome, TxBody, TxControl,
};
use crate::signal_unit;
use crate::signal_unit::{SignalUnit, StatusIndication, SuHeader};
use crate::MAX_MSU_BODY;

verus! {

broadcast use vstd::std_specs::vecdeque::group_vec_dequeue_axioms;

/// The link states.
#[derive(Debug, Clone, Copy, PartialEq, Eq, Structural)]
pub enum Mtp2State {
    /// Idle / failed: the link carries no traffic.
    OutOfService,
    /// Alignment started; sending SIO, waiting to hear the peer.
    NotAligned,
    /// Heard the peer; sending SIN/SIE, waiting for the peer to start proving.
    Aligned,
    /// Proving the link; the AERM is watching the error rate.
    Proving,
    /// Proving complete and the local processor is available; sending FISUs.
    AlignedReady,
    /// Proving complete but the local processor is unavailable; sending SIPO.
    AlignedNotReady,
    /// Carrying traffic.
    InService,
    /// In service but the local processor is out; sending SIPO, holding traffic.
    ProcessorOutage,
}

impl Mtp2State {
    /// The text of the state.
    pub open spec fn text(self) -> Seq<char> {
        match self {
            Mtp2State::OutOfService => "Out of Service"@,
            Mtp2State::NotAligned => "Not Aligned"@,
            Mtp2State::Aligned => "Aligned"@,
            Mtp2State::Proving => "Proving"@,
            Mtp2State::AlignedReady => "Aligned Ready"@,
            Mtp2State::AlignedNotReady => "Aligned Not Ready"@,
            Mtp2State::InService => "In Service"@,
            Mtp2State::ProcessorOutage => "Processor Outage"@,
        }
    }

    /// The state in words.
    pub fn to_string(&self) -> (s: String)
        ensures
            s@ == self.text(),
    {
        let s: &str = match self {
            Mtp2State::OutOfService => "Out of Service",
            Mtp2State::NotAligned => "Not Aligned",
            Mtp2State::Aligned => "Aligned",
            Mtp2State::Proving => "Proving",
            Mtp2State::AlignedReady => "Aligned Ready",
            Mtp2State::AlignedNotReady => "Aligned Not Ready",
            Mtp2State::InService => "In Service",
            Mtp2State::ProcessorOutage => "Processor Outage",
        };
        s.to_owned()
    }
}

/// Why a link left service.
#[derive(Debug, Clone, Copy, PartialEq, Eq, Structural)]
pub enum OutOfServiceReason {
    /// Level 3 asked to take the link down.
    Stopped,
    /// The peer sent SIOS (out of service).
    ReceivedSios,
    /// The peer restarted alignment (SIO/SIN/SIE received while in service).
    AlignmentLost,
    /// The SUERM declared the in-service error rate too high.
    SuermFailure,
    /// The remote-congestion timer T6 expired (peer stayed busy too long).
    T6Expired,
    /// The excessive-acknowledgement-delay timer T7 expired.
    T7Expired,
}

/// Why initial alignment failed.
#[derive(Debug, Clone, Copy, PartialEq, Eq, Structural)]
pub enum AlignmentFailure {
    /// The AERM aborted proving and all proving attempts were used.
    AermTripped,
    /// The peer sent SIOS during alignment.
    ReceivedSios,
    /// T2 expired in Not Aligned (no response from the peer).
    T2Expired,
    /// T3 expired in Aligned (the peer never started proving).
    T3Expired,
    /// T1 expired in Aligned Ready (the link never reached In Service).
    T1Expired,
}

/// Events the link raises for level 3 and management.
#[derive(Debug, Clone, PartialEq, Eq)]
pub enum Event {
    /// The link reached In Service.
    InService,
    /// The link left service.
    OutOfService(OutOfServiceReason),
    /// Initial alignment failed.
    AlignmentFailed(AlignmentFailure),
    /// An in-sequence MSU was accepted; deliver its SIO + SIF to level 3.
    Msu { sio: u8, sif: Vec<u8> },
    /// The peer signalled a processor outage (SIPO).
    RemoteProcessorOutage,
    /// The peer's processor recovered.
    RemoteProcessorRecovered,
    /// The peer signalled congestion (SIB).
    RemoteBusy,
    /// The peer's congestion cleared.
    RemoteBusyEnded,
    /// A gap was detected and a retransmission was requested (Basic method).
    RetransmissionRequested,
}

/// The mathematical value of an [`Event`].
pub enum EventView {
    InService,
    OutOfService(OutOfServiceReason),
    AlignmentFailed(AlignmentFailure),
    Msu(MsuBody),
    RemoteProcessorOutage,
    RemoteProcessorRecovered,
    RemoteBusy,
    RemoteBusyEnded,
    RetransmissionRequested,
}

impl View for Event {
    type V = EventView;

    open spec fn view(&self) -> EventView {
        match self {
            Event::InService => EventView::InService,
            Event::OutOfService(reason) => EventView::OutOfService(*reason),
            Event::AlignmentFailed(failure) => EventView::AlignmentFailed(*failure),
            Event::Msu { sio, sif } => EventView::Msu(MsuBody { sio: *sio, sif: sif@ }),
            Event::RemoteProcessorOutage => EventView::RemoteProcessorOutage,
            Event::RemoteProcessorRecovered => EventView::RemoteProcessorRecovered,
            Event::RemoteBusy => EventView::RemoteBusy,
            Event::RemoteBusyEnded => EventView::RemoteBusyEnded,
            Event::RetransmissionRequested => EventView::RetransmissionRequested,
        }
    }
}

/// Link timers and error-rate monitor parameters. Durations are in abstract ticks; the
/// caller defines what one [`Mtp2Link::tick`] represents.
#[derive(Debug, Clone, Copy)]
pub struct Mtp2Config {
    /// Error-correction method.
    pub method: RetransmissionMethod,
    /// Request emergency alignment (short proving).
    pub emergency: bool,
    /// T1 - Aligned Ready guard.
    pub t1_aligned_ready: u32,
    /// T2 - Not Aligned guard.
    pub t2_not_aligned: u32,
    /// T3 - Aligned guard.
    pub t3_aligned: u32,
    /// T4(n) - normal proving period.
    pub t4_proving_normal: u32,
    /// T4(e) - emergency proving period.
    pub t4_proving_emergency: u32,
    /// T6 - remote-congestion guard.
    pub t6_remote_congestion: u32,
    /// T7 - excessive acknowledgement delay guard.
    pub t7_excessive_delay: u32,
    /// AERM abort threshold for normal proving.
    pub aerm_threshold_normal: u32,
    /// AERM abort threshold for emergency proving.
    pub aerm_threshold_emergency: u32,
    /// SUERM failure threshold T.
    pub suerm_threshold: u32,
    /// SUERM leak interval D.
    pub suerm_decrement_interval: u32,
    /// Maximum proving attempts before alignment fails.
    pub proving_attempts: u32,
}

impl Mtp2Config {
    /// The values of [`Mtp2Config::default`].
    pub open spec fn standard() -> Mtp2Config {
        Mtp2Config {
            method: RetransmissionMethod::Basic,
            emergency: false,
            t1_aligned_ready: 500,
            t2_not_aligned: 250,
            t3_aligned: 20,
            t4_proving_normal: 120,
            t4_proving_emergency: 6,
            t6_remote_congestion: 60,
            t7_excessive_delay: 20,
            aerm_threshold_normal: 4,
            aerm_threshold_emergency: 1,
            suerm_threshold: 64,
            suerm_decrement_interval: 256,
            proving_attempts: 5,
        }
    }
}

impl Default for Mtp2Config {
    /// Tick counts are illustrative; a deployment provisions them for its tick period.
    fn default() -> (config: Self)
        ensures
            config == Mtp2Config::standard(),
    {
        Mtp2Config {
            method: RetransmissionMethod::Basic,
            emergency: false,
            t1_aligned_ready: 500,
            t2_not_aligned: 250,
            t3_aligned: 20,
            t4_proving_normal: 120,
            t4_proving_emergency: 6,
            t6_remote_congestion: 60,
            t7_excessive_delay: 20,
            aerm_threshold_normal: AERM_THRESHOLD_NORMAL,
            aerm_threshold_emergency: AERM_THRESHOLD_EMERGENCY,
            suerm_threshold: SUERM_THRESHOLD,
            suerm_decrement_interval: SUERM_DECREMENT_INTERVAL,
            proving_attempts: 5,
        }
    }
}

/// Decrement a running timer; return `true` if it expired on this step.
fn step_timer(t: &mut Option<u32>) -> (expired: bool)
    ensures
        *final(t) == link_model::stepped(*old(t)),
        expired == link_model::expires(*old(t)),
{
    if let Some(remaining) = *t {
        if remaining <= 1 {
            *t = None;
            return true;
        }
        *t = Some(remaining - 1);
    }
    false
}

/// The signalling-link engine.
pub struct Mtp2Link {
    config: Mtp2Config,
    state: Mtp2State,
    /// Whether the link is powered: after `start` it transmits (SIOS while out of
    /// service so a failed link still notifies the peer); after `stop` it is dark.
    active: bool,
    /// Effective emergency alignment (local request OR a received SIE).
    emergency: bool,
    /// Whether the proving period under way, or the last one, is an emergency one.
    emergency_proving: bool,
    /// A local request made while no alignment was under way, for the next one.
    next_emergency: Option<bool>,
    local_processor_outage: bool,
    remote_processor_outage: bool,
    local_busy: bool,
    remote_busy: bool,
    proving_attempt: u32,
    tx: TxControl,
    rx: RxControl,
    aerm: Aerm,
    suerm: Suerm,
    // Timers (remaining ticks; None = stopped).
    t1: Option<u32>,
    t2: Option<u32>,
    t3: Option<u32>,
    t4: Option<u32>,
    t6: Option<u32>,
    t7: Option<u32>,
    events: VecDeque<Event>,
}

impl View for Mtp2Link {
    type V = LinkView;

    closed spec fn view(&self) -> LinkView {
        LinkView {
            config: self.config,
            state: self.state,
            active: self.active,
            emergency: self.emergency,
            emergency_proving: self.emergency_proving,
            next_emergency: self.next_emergency,
            local_processor_outage: self.local_processor_outage,
            remote_processor_outage: self.remote_processor_outage,
            local_busy: self.local_busy,
            remote_busy: self.remote_busy,
            proving_attempt: self.proving_attempt as nat,
            tx: self.tx@,
            rx: self.rx@,
            aerm: self.aerm@,
            suerm: self.suerm@,
            t1: self.t1,
            t2: self.t2,
            t3: self.t3,
            t4: self.t4,
            t6: self.t6,
            t7: self.t7,
            events: self.events@.map_values(|e: Event| e@),
        }
    }
}

impl Mtp2Link {
    /// Create a powered-off link with `config`. Call [`start`](Self::start) to begin
    /// initial alignment.
    pub fn new(config: Mtp2Config) -> (link: Self)
        ensures
            link@ == LinkView::fresh(config),
            link@.wf(),
    {
        let aerm = Aerm::new(config.aerm_threshold_normal);
        let suerm = Suerm::new(config.suerm_threshold, config.suerm_decrement_interval);
        let link = Mtp2Link {
            config,
            state: Mtp2State::OutOfService,
            active: false,
            emergency: config.emergency,
            emergency_proving: false,
            next_emergency: None,
            local_processor_outage: false,
            remote_processor_outage: false,
            local_busy: false,
            remote_busy: false,
            proving_attempt: 0,
            tx: TxControl::new(config.method),
            rx: RxControl::new(config.method),
            aerm,
            suerm,
            t1: None,
            t2: None,
            t3: None,
            t4: None,
            t6: None,
            t7: None,
            events: VecDeque::new(),
        };
        assert(link@ =~= LinkView::fresh(config));
        link
    }

    /// The current link state.
    pub fn state(&self) -> (state: Mtp2State)
        ensures
            state == self@.state,
    {
        self.state
    }

    /// Pull the next raised event, if any.
    pub fn poll_event(&mut self) -> (event: Option<Event>)
        ensures
            match event {
                Some(e) => {
                    &&& old(self)@.events.len() > 0
                    &&& e@ == old(self)@.events[0]
                    &&& final(self)@ == (LinkView {
                        events: old(self)@.events.drop_first(),
                        ..old(self)@
                    })
                },
                None => old(self)@.events.len() == 0 && final(self)@ == old(self)@,
            },
            old(self)@.wf() ==> final(self)@.wf(),
    {
        let event = self.events.pop_front();
        proof {
            if event is Some {
                assert(self@ =~= LinkView {
                    events: old(self)@.events.drop_first(),
                    ..old(self)@
                });
            }
        }
        event
    }

    fn emit(&mut self, e: Event)
        ensures
            final(self)@ == old(self)@.raised(e@),
    {
        self.events.push_back(e);
        assert(self@ =~= old(self)@.raised(e@));
    }

    fn stop_all_timers(&mut self)
        ensures
            final(self)@ == old(self)@.timers_stopped(),
    {
        self.t1 = None;
        self.t2 = None;
        self.t3 = None;
        self.t4 = None;
        self.t6 = None;
        self.t7 = None;
    }

    // ── Primitives of level 3 and management ────────────────────────────────────

    /// Start initial alignment (emergency or normal). No-op unless out of service.
    pub fn start(&mut self)
        requires
            old(self)@.wf(),
        ensures
            final(self)@ == old(self)@.started(),
            final(self)@.wf(),
    {
        if self.state != Mtp2State::OutOfService {
            return;
        }
        self.active = true;
        self.emergency = match self.next_emergency {
            Some(emergency) => emergency,
            None => self.config.emergency,
        };
        self.emergency_proving = false;
        self.next_emergency = None;
        self.remote_processor_outage = false;
        self.remote_busy = false;
        self.proving_attempt = 0;
        // Fresh sequence state; an MSU queued beforehand waits for the service.
        self.tx.restart();
        self.rx = RxControl::new(self.config.method);
        self.suerm.reset();
        self.aerm.restart(self.config.aerm_threshold_normal);
        self.stop_all_timers();
        self.state = Mtp2State::NotAligned;
        self.t2 = Some(self.config.t2_not_aligned);
    }

    /// Take the link out of service on the request of level 3.
    pub fn stop(&mut self)
        requires
            old(self)@.wf(),
        ensures
            final(self)@ == old(self)@.stopped(),
            final(self)@.wf(),
    {
        self.active = false;
        self.stop_all_timers();
        self.state = Mtp2State::OutOfService;
        self.emit(Event::OutOfService(OutOfServiceReason::Stopped));
    }

    /// Request emergency alignment for the next/ongoing alignment.
    pub fn set_emergency(&mut self, emergency: bool)
        requires
            old(self)@.wf(),
        ensures
            final(self)@ == old(self)@.emergency_requested(emergency),
            final(self)@.wf(),
    {
        self.emergency = emergency;
        match self.state {
            Mtp2State::OutOfService | Mtp2State::InService | Mtp2State::ProcessorOutage => {
                self.next_emergency = Some(emergency);
            },
            _ => {},
        }
    }

    /// Signal a local processor outage (level 3 unavailable).
    pub fn local_processor_outage(&mut self)
        requires
            old(self)@.wf(),
        ensures
            final(self)@ == old(self)@.processor_out(),
            final(self)@.wf(),
    {
        self.local_processor_outage = true;
        match self.state {
            Mtp2State::InService => {
                self.state = Mtp2State::ProcessorOutage;
            },
            Mtp2State::AlignedReady => {
                self.t1 = None;
                self.state = Mtp2State::AlignedNotReady;
            },
            _ => {},
        }
    }

    /// Signal that the local processor has recovered.
    pub fn local_processor_recovered(&mut self)
        requires
            old(self)@.wf(),
        ensures
            final(self)@ == old(self)@.processor_back(),
            final(self)@.wf(),
    {
        self.local_processor_outage = false;
        match self.state {
            Mtp2State::ProcessorOutage => {
                self.state = Mtp2State::InService;
            },
            Mtp2State::AlignedNotReady => {
                self.state = Mtp2State::AlignedReady;
                self.t1 = Some(self.config.t1_aligned_ready);
            },
            _ => {},
        }
    }

    /// Signal local congestion: the link sends SIB until [`local_busy_ended`].
    ///
    /// [`local_busy_ended`]: Self::local_busy_ended
    pub fn local_busy(&mut self)
        ensures
            final(self)@ == (LinkView { local_busy: true, ..old(self)@ }),
            old(self)@.wf() ==> final(self)@.wf(),
    {
        self.local_busy = true;
    }

    /// Signal that local congestion has cleared.
    pub fn local_busy_ended(&mut self)
        ensures
            final(self)@ == (LinkView { local_busy: false, ..old(self)@ }),
            old(self)@.wf() ==> final(self)@.wf(),
    {
        self.local_busy = false;
    }

    /// Queue an MSU (SIO + SIF) for transmission. It flows once the link is in service;
    /// queued beforehand it waits. Fails only if the body exceeds the link maximum.
    pub fn submit_msu(&mut self, sio: u8, sif: Vec<u8>) -> (r: Result<(), Mtp2Error>)
        requires
            old(self)@.wf(),
        ensures
            match r {
                Ok(()) => {
                    &&& 1 + sif@.len() <= MAX_MSU_BODY
                    &&& final(self)@ == old(self)@.submitted(MsuBody { sio, sif: sif@ })
                },
                Err(e) => {
                    &&& 1 + sif@.len() > MAX_MSU_BODY
                    &&& e == Mtp2Error::MsuTooLarge(signal_unit::body_octets(sif@))
                    &&& final(self)@ == old(self)@
                },
            },
            final(self)@.wf(),
    {
        let body: usize = sif.len().saturating_add(1);
        if body > MAX_MSU_BODY {
            return Err(Mtp2Error::MsuTooLarge(body));
        }
        self.tx.submit(sio, sif);
        Ok(())
    }

    // ── Outbound ────────────────────────────────────────────────────────────────

    fn header_for_control(&self) -> (header: SuHeader)
        ensures
            header == self@.control_header(),
    {
        // BSN/BIB acknowledge the peer; FSN/FIB are the current transmit values.
        SuHeader {
            bsn: self.rx.bsn(),
            bib: self.rx.bib(),
            fsn: self.tx.last_fsn(),
            fib: self.tx.fib(),
        }
    }

    fn lssu(&self, status: StatusIndication) -> (su: SignalUnit)
        ensures
            su@ == self@.status_unit(status),
    {
        SignalUnit::lssu(self.header_for_control(), status)
    }

    /// Produce the next signal unit to transmit. An active link always has something to
    /// send (a FISU when idle); a powered-off link returns `None`.
    pub fn poll_transmit(&mut self) -> (su: Option<SignalUnit>)
        requires
            old(self)@.wf(),
        ensures
            match su {
                Some(su) => old(self)@.next_unit() == Some(su@),
                None => old(self)@.next_unit() is None,
            },
            final(self)@ == old(self)@.transmitted(),
            final(self)@.wf(),
    {
        let alignment_status = if self.emergency {
            StatusIndication::EmergencyAlignment
        } else {
            StatusIndication::NormalAlignment
        };
        let su = match self.state {
            Mtp2State::OutOfService => {
                if self.active {
                    self.lssu(StatusIndication::OutOfService)
                } else {
                    return None;
                }
            },
            Mtp2State::NotAligned => self.lssu(StatusIndication::OutOfAlignment),
            Mtp2State::Aligned | Mtp2State::Proving => self.lssu(alignment_status),
            Mtp2State::AlignedNotReady | Mtp2State::ProcessorOutage => {
                self.lssu(StatusIndication::ProcessorOutage)
            },
            Mtp2State::AlignedReady => SignalUnit::fisu(self.header_for_control()),
            Mtp2State::InService => {
                if self.local_busy {
                    self.lssu(StatusIndication::Busy)
                } else if self.remote_processor_outage || self.remote_busy {
                    // Hold the traffic; keep the link filled and acknowledging.
                    SignalUnit::fisu(self.header_for_control())
                } else {
                    let frame = self.tx.poll();
                    let header = SuHeader {
                        bsn: self.rx.bsn(),
                        bib: self.rx.bib(),
                        fsn: frame.fsn,
                        fib: frame.fib,
                    };
                    match frame.body {
                        TxBody::Fisu => SignalUnit::fisu(header),
                        TxBody::Msu { sio, sif } => {
                            // The body size was validated when the MSU was submitted.
                            match SignalUnit::msu(header, sio, sif) {
                                Ok(su) => su,
                                Err(_) => SignalUnit::fisu(header),
                            }
                        },
                    }
                }
            },
        };
        // Guard against a peer that never acknowledges our outstanding MSUs (T7).
        if self.state == Mtp2State::InService && self.tx.unacked_len() > 0 && self.t7.is_none() {
            self.t7 = Some(self.config.t7_excessive_delay);
        }
        Some(su)
    }

    // ── Inbound ─────────────────────────────────────────────────────────────────

    /// Whether the link can take a signal unit. It cannot compare an FSN that is far
    /// behind the last accepted one when that one lies outside the 7-bit field, which
    /// only a hand-built header brings about; and it counts no more than `u32::MAX`
    /// proving periods in one alignment.
    pub fn can_handle_su(&self, su: &SignalUnit) -> (can: bool)
        requires
            self@.wf(),
        ensures
            can == self@.can_receive(su@),
    {
        match su {
            SignalUnit::Lssu { status, .. } => {
                let enters = match self.state {
                    Mtp2State::Aligned => {
                        *status == StatusIndication::NormalAlignment || *status
                            == StatusIndication::EmergencyAlignment
                    },
                    Mtp2State::Proving => {
                        *status == StatusIndication::EmergencyAlignment && !self.emergency_proving
                    },
                    _ => false,
                };
                !enters || self.proving_attempt < u32::MAX
            },
            SignalUnit::Msu { header, .. } => {
                let checks = match self.state {
                    Mtp2State::AlignedReady => true,
                    Mtp2State::InService => self.config.suerm_threshold > 0,
                    _ => false,
                };
                !checks || self.rx.bsn() as u16 <= header.fsn as u16 + 128
            },
            SignalUnit::Fisu { .. } => true,
        }
    }

    /// Feed a correctly-received signal unit into the link.
    pub fn handle_su(&mut self, su: &SignalUnit)
        requires
            old(self)@.wf(),
            old(self)@.can_receive(su@),
        ensures
            final(self)@ == old(self)@.received(su@),
            final(self)@.wf(),
    {
        // In service, every received SU feeds the SUERM leak counter.
        match self.state {
            Mtp2State::InService | Mtp2State::ProcessorOutage => {
                if self.suerm.record(false) {
                    self.fail_out_of_service(OutOfServiceReason::SuermFailure);
                    return;
                }
            },
            _ => {},
        }
        match su {
            SignalUnit::Lssu { status, .. } => self.handle_lssu(*status),
            SignalUnit::Fisu { header } => self.handle_fisu_or_msu(*header, None),
            SignalUnit::Msu { header, sio, sif } => {
                let copy = sif.clone();
                assert(copy@ =~= sif@);
                self.handle_fisu_or_msu(*header, Some((*sio, copy)))
            },
        }
    }

    /// Report a signal unit that the framer received with bad check bits. This feeds
    /// the AERM (during proving) or the SUERM (in service).
    pub fn handle_corrupted_su(&mut self)
        requires
            old(self)@.wf(),
        ensures
            final(self)@ == old(self)@.corrupted(),
            final(self)@.wf(),
    {
        // The AERM only counts while proving, the SUERM only while carrying traffic.
        match self.state {
            Mtp2State::Proving => {
                if self.aerm.record_error() {
                    self.proving_aborted();
                }
            },
            Mtp2State::InService | Mtp2State::ProcessorOutage => {
                if self.suerm.record(true) {
                    self.fail_out_of_service(OutOfServiceReason::SuermFailure);
                }
            },
            _ => {},
        }
    }

    #[verifier::rlimit(40)]
    fn handle_lssu(&mut self, status: StatusIndication)
        requires
            old(self)@.wf(),
            old(self)@.enters_proving(status) ==> old(self)@.proving_attempt < u32::MAX,
        ensures
            final(self)@ == old(self)@.status_received(status),
            final(self)@.wf(),
    {
        // A received SIE upgrades alignment to emergency at any alignment phase.
        if status == StatusIndication::EmergencyAlignment {
            match self.state {
                Mtp2State::NotAligned | Mtp2State::Aligned | Mtp2State::Proving => {
                    self.emergency = true;
                },
                _ => {},
            }
        }
        match self.state {
            Mtp2State::NotAligned => match status {
                StatusIndication::OutOfAlignment | StatusIndication::NormalAlignment
                | StatusIndication::EmergencyAlignment => {
                    self.t2 = None;
                    self.state = Mtp2State::Aligned;
                    self.t3 = Some(self.config.t3_aligned);
                },
                // The peer is not ready yet; T2 guards.
                _ => {},
            },
            Mtp2State::Aligned => match status {
                StatusIndication::NormalAlignment | StatusIndication::EmergencyAlignment => {
                    self.t3 = None;
                    self.enter_proving();
                },
                StatusIndication::OutOfService => {
                    self.fail_alignment(AlignmentFailure::ReceivedSios);
                },
                // The peer restarted; keep waiting.
                _ => {},
            },
            Mtp2State::Proving => match status {
                StatusIndication::EmergencyAlignment => {
                    // Switch to (shorter) emergency proving, unless it is under way.
                    if !self.emergency_proving {
                        self.enter_proving();
                    }
                },
                StatusIndication::OutOfAlignment => {
                    // The peer fell back to Not Aligned: return to Aligned.
                    self.t4 = None;
                    self.state = Mtp2State::Aligned;
                    self.t3 = Some(self.config.t3_aligned);
                },
                StatusIndication::OutOfService => {
                    self.fail_alignment(AlignmentFailure::ReceivedSios);
                },
                _ => {},
            },
            Mtp2State::AlignedReady => match status {
                StatusIndication::ProcessorOutage => {
                    self.enter_in_service();
                    self.remote_processor_outage = true;
                    self.emit(Event::RemoteProcessorOutage);
                },
                StatusIndication::OutOfService => {
                    self.fail_alignment(AlignmentFailure::ReceivedSios);
                },
                // The peer is still aligning; keep sending FISUs.
                _ => {},
            },
            Mtp2State::AlignedNotReady => {
                if status == StatusIndication::OutOfService {
                    self.fail_alignment(AlignmentFailure::ReceivedSios);
                }
            },
            Mtp2State::InService | Mtp2State::ProcessorOutage => match status {
                StatusIndication::ProcessorOutage => {
                    if !self.remote_processor_outage {
                        self.remote_processor_outage = true;
                        self.emit(Event::RemoteProcessorOutage);
                    }
                },
                StatusIndication::Busy => {
                    // T6 guards from the first indication on.
                    if !self.remote_busy {
                        self.remote_busy = true;
                        self.t6 = Some(self.config.t6_remote_congestion);
                        self.emit(Event::RemoteBusy);
                    }
                },
                StatusIndication::OutOfService => {
                    self.fail_out_of_service(OutOfServiceReason::ReceivedSios);
                },
                _ => {
                    // The peer restarted alignment: the link has failed.
                    self.fail_out_of_service(OutOfServiceReason::AlignmentLost);
                },
            },
            // Realignment is initiated by level 3 via start().
            Mtp2State::OutOfService => {},
        }
    }

    fn handle_fisu_or_msu(&mut self, header: SuHeader, msu: Option<(u8, Vec<u8>)>)
        requires
            old(self)@.wf(),
            (old(self)@.state is AlignedReady || old(self)@.state is InService) && msu is Some
                ==> old(self)@.rx.can_take(header.fsn as int),
        ensures
            final(self)@ == old(self)@.unit_received(header, body_of(msu)),
            final(self)@.wf(),
    {
        match self.state {
            Mtp2State::AlignedReady => {
                // The peer finished proving and is transmitting FISUs/MSUs.
                self.enter_in_service();
                self.process_in_service_su(header, msu);
            },
            Mtp2State::InService | Mtp2State::ProcessorOutage => {
                self.process_in_service_su(header, msu);
            },
            // A FISU/MSU is unexpected during alignment; ignore.
            _ => {},
        }
    }

    /// Common in-service reception: apply the acknowledgement, clear remote outage and
    /// busy, and (for an MSU) run the sequence check.
    fn process_in_service_su(&mut self, header: SuHeader, msu: Option<(u8, Vec<u8>)>)
        requires
            old(self)@.wf(),
            old(self)@.in_traffic(),
            old(self)@.state is InService && msu is Some ==> old(self)@.rx.can_take(
                header.fsn as int,
            ),
        ensures
            final(self)@ == old(self)@.traffic_received(header, body_of(msu)),
            final(self)@.wf(),
    {
        // Positive/negative acknowledgement of our outstanding MSUs.
        let outstanding: usize = self.tx.unacked_len();
        self.tx.on_ack(header.bsn, header.bib);
        if self.tx.unacked_len() == 0 {
            self.t7 = None;
        } else if self.tx.unacked_len() < outstanding {
            self.t7 = Some(self.config.t7_excessive_delay);
        }
        assert(self@ =~= old(self)@.acknowledged(header));
        // Any FISU/MSU ends a remote processor outage or busy condition.
        if self.remote_processor_outage {
            self.remote_processor_outage = false;
            self.emit(Event::RemoteProcessorRecovered);
        }
        if self.remote_busy {
            self.remote_busy = false;
            self.t6 = None;
            self.emit(Event::RemoteBusyEnded);
        }
        assert(self@ =~= old(self)@.acknowledged(header).peer_back().peer_free());
        if let Some((sio, sif)) = msu {
            // During a local processor outage level 3 cannot take MSUs; drop the payload.
            if self.state == Mtp2State::ProcessorOutage {
                return;
            }
            match self.rx.on_msu(header.fsn, sio, sif) {
                RxOutcome::Accepted { sio, sif } => self.emit(Event::Msu { sio, sif }),
                RxOutcome::RetransmissionRequested => self.emit(Event::RetransmissionRequested),
                RxOutcome::Discarded => {},
            }
        }
    }

    // ── State helpers ───────────────────────────────────────────────────────────

    fn enter_proving(&mut self)
        requires
            old(self)@.proving_attempt < u32::MAX,
        ensures
            final(self)@ == (LinkView { t3: old(self)@.t3, ..old(self)@.proving() }),
    {
        self.state = Mtp2State::Proving;
        self.emergency_proving = self.emergency;
        self.proving_attempt = self.proving_attempt + 1;
        let (period, threshold) = if self.emergency {
            (self.config.t4_proving_emergency, self.config.aerm_threshold_emergency)
        } else {
            (self.config.t4_proving_normal, self.config.aerm_threshold_normal)
        };
        self.aerm.restart(threshold);
        self.t4 = Some(period);
    }

    fn proving_succeeded(&mut self)
        ensures
            final(self)@ == old(self)@.proving_succeeded(),
    {
        self.t4 = None;
        if self.local_processor_outage {
            self.state = Mtp2State::AlignedNotReady;
        } else {
            self.state = Mtp2State::AlignedReady;
            self.t1 = Some(self.config.t1_aligned_ready);
        }
    }

    fn proving_aborted(&mut self)
        requires
            old(self)@.t2 is None,
        ensures
            final(self)@ == old(self)@.proving_aborted(),
    {
        if self.proving_attempt < self.config.proving_attempts {
            // Another proving attempt: prove again from Aligned.
            self.t4 = None;
            self.state = Mtp2State::Aligned;
            self.t3 = Some(self.config.t3_aligned);
        } else {
            self.fail_alignment(AlignmentFailure::AermTripped);
        }
    }

    fn enter_in_service(&mut self)
        ensures
            final(self)@ == old(self)@.in_service(),
    {
        self.t1 = None;
        self.suerm.reset();
        self.state = Mtp2State::InService;
        self.emit(Event::InService);
    }

    fn fail_alignment(&mut self, failure: AlignmentFailure)
        ensures
            final(self)@ == old(self)@.alignment_failed(failure),
    {
        self.stop_all_timers();
        self.state = Mtp2State::OutOfService;
        self.emit(Event::AlignmentFailed(failure));
    }

    fn fail_out_of_service(&mut self, reason: OutOfServiceReason)
        ensures
            final(self)@ == old(self)@.traffic_failed(reason),
    {
        self.stop_all_timers();
        self.remote_processor_outage = false;
        self.remote_busy = false;
        self.state = Mtp2State::OutOfService;
        self.emit(Event::OutOfService(reason));
    }

    // ── Time ────────────────────────────────────────────────────────────────────

    /// Advance the link's timers by one tick and process any expiry.
    pub fn tick(&mut self)
        requires
            old(self)@.wf(),
        ensures
            final(self)@ == old(self)@.ticked(),
            final(self)@.wf(),
    {
        if step_timer(&mut self.t2) && self.state == Mtp2State::NotAligned {
            self.fail_alignment(AlignmentFailure::T2Expired);
            return;
        }
        if step_timer(&mut self.t3) && self.state == Mtp2State::Aligned {
            self.fail_alignment(AlignmentFailure::T3Expired);
            return;
        }
        if step_timer(&mut self.t4) && self.state == Mtp2State::Proving {
            self.proving_succeeded();
            return;
        }
        if step_timer(&mut self.t1) && self.state == Mtp2State::AlignedReady {
            self.fail_alignment(AlignmentFailure::T1Expired);
            return;
        }
        let in_traffic = self.state == Mtp2State::InService || self.state
            == Mtp2State::ProcessorOutage;
        if step_timer(&mut self.t6) && in_traffic {
            self.fail_out_of_service(OutOfServiceReason::T6Expired);
            return;
        }
        if step_timer(&mut self.t7) && in_traffic {
            self.fail_out_of_service(OutOfServiceReason::T7Expired);
        }
    }

    /// The text of a link.
    pub open spec fn text(&self) -> Seq<char> {
        "MTP2 Link [state="@ + self@.state.text() + "]"@
    }

    /// The link as a line for a human reader.
    pub fn to_string(&self) -> (s: String)
        ensures
            s@ == self.text(),
    {
        let mut s = String::new();
        s.append("MTP2 Link [state=");
        s.append(self.state.to_string().as_str());
        s.append("]");
        assert(s@ =~= self.text());
        s
    }
}

/// The payload handed on with a received unit, if it is an MSU.
pub open spec fn body_of(msu: Option<(u8, Vec<u8>)>) -> Option<MsuBody> {
    match msu {
        Some((sio, sif)) => Some(MsuBody { sio, sif: sif@ }),
        None => None,
    }
}

} // verus!
