//! The mathematical value of a signalling link, and what every input does to it.
//!
//! [`LinkView`] is the whole state of a [`crate::Mtp2Link`]. Its spec functions say
//! what the link transmits and how it moves on; the contracts of the link's operations
//! are stated with them.

use vstd::prelude::*;

use crate::link::{AlignmentFailure, EventView, Mtp2Config, Mtp2State, OutOfServiceReason};
use crate::monitor::{AermView, SuermView};
use crate::retransmission::{
    MsuBody, RxControlView, RxOutcomeView, TxBodyView, TxControlView, TxFrameView,
};
use crate::signal_unit::{SignalUnitView, StatusIndication, SuHeader};
use crate::MAX_MSU_BODY;

verus! {

/// A timer one tick on: remaining ticks, `None` when stopped.
pub open spec fn stepped(timer: Option<u32>) -> Option<u32> {
    match timer {
        Some(remaining) if remaining > 1 => Some((remaining - 1) as u32),
        _ => None,
    }
}

/// Whether a running timer expires with the next tick.
pub open spec fn expires(timer: Option<u32>) -> bool {
    timer matches Some(remaining) && remaining <= 1
}

/// The mathematical value of a [`crate::Mtp2Link`].
#[verifier::ext_equal]
pub struct LinkView {
    pub config: Mtp2Config,
    pub state: Mtp2State,
    /// Whether the link is powered.
    pub active: bool,
    /// Whether the alignment is an emergency one.
    pub emergency: bool,
    /// Whether the proving period under way, or the last one, is an emergency one.
    pub emergency_proving: bool,
    /// A request for the next alignment, made while none was under way.
    pub next_emergency: Option<bool>,
    pub local_processor_outage: bool,
    pub remote_processor_outage: bool,
    pub local_busy: bool,
    pub remote_busy: bool,
    /// Proving periods begun in this alignment.
    pub proving_attempt: nat,
    pub tx: TxControlView,
    pub rx: RxControlView,
    pub aerm: AermView,
    pub suerm: SuermView,
    pub t1: Option<u32>,
    pub t2: Option<u32>,
    pub t3: Option<u32>,
    pub t4: Option<u32>,
    pub t6: Option<u32>,
    pub t7: Option<u32>,
    /// Raised events that have not been pulled, oldest first.
    pub events: Seq<EventView>,
}

/// Every MSU that waits or is held for retransmission fits a link.
pub open spec fn bodies_fit(tx: TxControlView) -> bool {
    &&& forall|i: int|
        0 <= i < tx.pending.len() ==> (#[trigger] tx.pending[i]).octets() <= MAX_MSU_BODY
    &&& forall|i: int|
        0 <= i < tx.unacked.len() ==> (#[trigger] tx.unacked[i]).body.octets() <= MAX_MSU_BODY
}

impl LinkView {
    /// A powered-off link.
    pub open spec fn fresh(config: Mtp2Config) -> LinkView {
        LinkView {
            config,
            state: Mtp2State::OutOfService,
            active: false,
            emergency: config.emergency,
            emergency_proving: false,
            next_emergency: None,
            local_processor_outage: false,
            remote_processor_outage: false,
            local_busy: false,
            remote_busy: false,
            proving_attempt: 0,
            tx: TxControlView::fresh(config.method),
            rx: RxControlView::fresh(config.method),
            aerm: AermView::fresh(config.aerm_threshold_normal as nat),
            suerm: SuermView::fresh(
                config.suerm_threshold as nat,
                config.suerm_decrement_interval as nat,
            ),
            t1: None,
            t2: None,
            t3: None,
            t4: None,
            t6: None,
            t7: None,
            events: seq![],
        }
    }

    /// Whether the link carries traffic of level 3.
    pub open spec fn in_traffic(self) -> bool {
        self.state is InService || self.state is ProcessorOutage
    }

    /// Whether an initial alignment is under way.
    pub open spec fn aligning(self) -> bool {
        !(self.state is OutOfService) && !self.in_traffic()
    }

    /// What holds of every link.
    pub open spec fn wf(self) -> bool {
        // The sub-functions run as configured.
        &&& self.tx.wf()
        &&& bodies_fit(self.tx)
        &&& self.tx.method == self.config.method
        &&& self.rx.method == self.config.method
        &&& 0 <= self.rx.last_received < 256
        &&& self.suerm.wf()
        &&& self.suerm.threshold == self.config.suerm_threshold
        &&& self.suerm.decrement_interval == self.config.suerm_decrement_interval
        &&& self.proving_attempt
            <= u32::MAX
        // Only a link out of service is powered off.
        &&& !self.active ==> self.state is OutOfService
        // Each phase of the alignment has its guard running, and no other runs.
        &&& self.t1 is Some <==> self.state is AlignedReady
        &&& self.t2 is Some <==> self.state is NotAligned
        &&& self.t3 is Some <==> self.state is Aligned
        &&& self.t4 is Some <==> self.state is Proving
        // T6 runs while the peer is busy, T7 while an MSU is unacknowledged.
        &&& self.t6 is Some <==> self.in_traffic() && self.remote_busy
        &&& self.t7 is Some <==> self.in_traffic() && self.tx.unacked.len() > 0
        &&& self.aligning() ==> self.tx.unacked.len()
            == 0
        // The state knows of the local processor.
        &&& self.state is InService || self.state is AlignedReady ==> !self.local_processor_outage
        &&& self.state is ProcessorOutage || self.state is AlignedNotReady
            ==> self.local_processor_outage
        // Conditions of a link in traffic do not outlast it.
        &&& self.aligning() ==> !self.remote_busy && !self.remote_processor_outage
            && self.next_emergency is None
        &&& self.in_traffic() ==> !self.suerm.failed && (self.suerm.count < self.suerm.threshold
            || self.suerm.threshold == 0)
    }

    /// The link with one more event raised.
    pub open spec fn raised(self, event: EventView) -> LinkView {
        LinkView { events: self.events.push(event), ..self }
    }

    /// The link with all timers stopped.
    pub open spec fn timers_stopped(self) -> LinkView {
        LinkView { t1: None, t2: None, t3: None, t4: None, t6: None, t7: None, ..self }
    }

    /// The link after `start`: an idle link begins an alignment, with fresh sequence
    /// state and monitors; MSUs that wait stay queued, and local congestion goes on.
    pub open spec fn started(self) -> LinkView {
        if self.state is OutOfService {
            LinkView {
                active: true,
                state: Mtp2State::NotAligned,
                emergency: match self.next_emergency {
                    Some(emergency) => emergency,
                    None => self.config.emergency,
                },
                emergency_proving: false,
                next_emergency: None,
                remote_processor_outage: false,
                remote_busy: false,
                proving_attempt: 0,
                tx: self.tx.restarted(),
                rx: RxControlView::fresh(self.config.method),
                aerm: AermView::fresh(self.config.aerm_threshold_normal as nat),
                suerm: SuermView::fresh(self.suerm.threshold, self.suerm.decrement_interval),
                t2: Some(self.config.t2_not_aligned),
                ..self.timers_stopped()
            }
        } else {
            self
        }
    }

    /// The link after `stop`.
    pub open spec fn stopped(self) -> LinkView {
        LinkView {
            active: false,
            state: Mtp2State::OutOfService,
            ..self.timers_stopped()
        }.raised(EventView::OutOfService(OutOfServiceReason::Stopped))
    }

    /// The link after a request for emergency alignment, or against it: it applies to
    /// the alignment under way, or else to the next one.
    pub open spec fn emergency_requested(self, emergency: bool) -> LinkView {
        LinkView {
            emergency,
            next_emergency: if self.aligning() {
                self.next_emergency
            } else {
                Some(emergency)
            },
            ..self
        }
    }

    /// The link after a local processor outage.
    pub open spec fn processor_out(self) -> LinkView {
        LinkView {
            local_processor_outage: true,
            state: match self.state {
                Mtp2State::InService => Mtp2State::ProcessorOutage,
                Mtp2State::AlignedReady => Mtp2State::AlignedNotReady,
                other => other,
            },
            t1: if self.state is AlignedReady {
                None
            } else {
                self.t1
            },
            ..self
        }
    }

    /// The link after the local processor has recovered.
    pub open spec fn processor_back(self) -> LinkView {
        LinkView {
            local_processor_outage: false,
            state: match self.state {
                Mtp2State::ProcessorOutage => Mtp2State::InService,
                Mtp2State::AlignedNotReady => Mtp2State::AlignedReady,
                other => other,
            },
            t1: if self.state is AlignedNotReady {
                Some(self.config.t1_aligned_ready)
            } else {
                self.t1
            },
            ..self
        }
    }

    /// The link with one more MSU queued.
    pub open spec fn submitted(self, body: MsuBody) -> LinkView {
        LinkView { tx: self.tx.submitted(body), ..self }
    }

    /// The header of a unit that carries no MSU: BSN/BIB acknowledge the peer, FSN/FIB
    /// are the current transmit values.
    pub open spec fn control_header(self) -> SuHeader {
        SuHeader {
            bsn: self.rx.last_received as u8,
            bib: self.rx.bib,
            fsn: self.tx.last_fsn as u8,
            fib: self.tx.fib,
        }
    }

    /// A status unit of this link.
    pub open spec fn status_unit(self, status: StatusIndication) -> SignalUnitView {
        SignalUnitView::Lssu { header: self.control_header(), status, extended: false }
    }

    /// A fill-in unit of this link.
    pub open spec fn fill_in_unit(self) -> SignalUnitView {
        SignalUnitView::Fisu { header: self.control_header() }
    }

    /// A frame of the transmit side with the backward fields of the receive side.
    pub open spec fn frame_unit(self, frame: TxFrameView) -> SignalUnitView {
        let header = SuHeader {
            bsn: self.rx.last_received as u8,
            bib: self.rx.bib,
            fsn: frame.fsn as u8,
            fib: frame.fib,
        };
        match frame.body {
            TxBodyView::Fisu => SignalUnitView::Fisu { header },
            TxBodyView::Msu(body) => SignalUnitView::Msu { header, sio: body.sio, sif: body.sif },
        }
    }

    /// Whether traffic flows: in service, with neither side holding it up.
    pub open spec fn traffic_flows(self) -> bool {
        &&& self.state is InService
        &&& !self.local_busy
        &&& !self.remote_processor_outage
        &&& !self.remote_busy
    }

    /// The status that a link in alignment announces.
    pub open spec fn alignment_status(self) -> StatusIndication {
        if self.emergency {
            StatusIndication::EmergencyAlignment
        } else {
            StatusIndication::NormalAlignment
        }
    }

    /// The signal unit the link transmits next; nothing when it is powered off.
    pub open spec fn next_unit(self) -> Option<SignalUnitView> {
        match self.state {
            Mtp2State::OutOfService => if self.active {
                Some(self.status_unit(StatusIndication::OutOfService))
            } else {
                None
            },
            Mtp2State::NotAligned => Some(self.status_unit(StatusIndication::OutOfAlignment)),
            Mtp2State::Aligned => Some(self.status_unit(self.alignment_status())),
            Mtp2State::Proving => Some(self.status_unit(self.alignment_status())),
            Mtp2State::AlignedReady => Some(self.fill_in_unit()),
            Mtp2State::AlignedNotReady => Some(
                self.status_unit(StatusIndication::ProcessorOutage),
            ),
            Mtp2State::ProcessorOutage => Some(
                self.status_unit(StatusIndication::ProcessorOutage),
            ),
            Mtp2State::InService => if self.local_busy {
                Some(self.status_unit(StatusIndication::Busy))
            } else if !self.traffic_flows() {
                Some(self.fill_in_unit())
            } else {
                Some(self.frame_unit(self.tx.next_frame()))
            },
        }
    }

    /// The link after transmitting: the transmit side moves on when traffic flows, and
    /// T7 guards MSUs that a link in service has outstanding.
    pub open spec fn transmitted(self) -> LinkView {
        let tx = if self.traffic_flows() {
            self.tx.polled()
        } else {
            self.tx
        };
        LinkView {
            tx,
            t7: if self.state is InService && tx.unacked.len() > 0 && self.t7 is None {
                Some(self.config.t7_excessive_delay)
            } else {
                self.t7
            },
            ..self
        }
    }

    /// The link after a failed alignment.
    pub open spec fn alignment_failed(self, failure: AlignmentFailure) -> LinkView {
        LinkView { state: Mtp2State::OutOfService, ..self.timers_stopped() }.raised(
            EventView::AlignmentFailed(failure),
        )
    }

    /// The link after a failure in traffic.
    pub open spec fn traffic_failed(self, reason: OutOfServiceReason) -> LinkView {
        LinkView {
            state: Mtp2State::OutOfService,
            remote_processor_outage: false,
            remote_busy: false,
            ..self.timers_stopped()
        }.raised(EventView::OutOfService(reason))
    }

    /// The link that waits (again) for the peer to start proving.
    pub open spec fn waiting_aligned(self) -> LinkView {
        LinkView {
            state: Mtp2State::Aligned,
            t2: None,
            t3: Some(self.config.t3_aligned),
            t4: None,
            ..self
        }
    }

    /// The link at the start of a proving period, normal or emergency.
    pub open spec fn proving(self) -> LinkView {
        LinkView {
            state: Mtp2State::Proving,
            emergency_proving: self.emergency,
            proving_attempt: self.proving_attempt + 1,
            aerm: AermView::fresh(
                if self.emergency {
                    self.config.aerm_threshold_emergency as nat
                } else {
                    self.config.aerm_threshold_normal as nat
                },
            ),
            t3: None,
            t4: Some(
                if self.emergency {
                    self.config.t4_proving_emergency
                } else {
                    self.config.t4_proving_normal
                },
            ),
            ..self
        }
    }

    /// The link at the end of a proving period.
    pub open spec fn proving_succeeded(self) -> LinkView {
        if self.local_processor_outage {
            LinkView { state: Mtp2State::AlignedNotReady, t4: None, ..self }
        } else {
            LinkView {
                state: Mtp2State::AlignedReady,
                t1: Some(self.config.t1_aligned_ready),
                t4: None,
                ..self
            }
        }
    }

    /// The link after an aborted proving period: it proves again while attempts are
    /// left.
    pub open spec fn proving_aborted(self) -> LinkView {
        if self.proving_attempt < self.config.proving_attempts {
            self.waiting_aligned()
        } else {
            self.alignment_failed(AlignmentFailure::AermTripped)
        }
    }

    /// The link as it goes into service.
    pub open spec fn in_service(self) -> LinkView {
        LinkView {
            state: Mtp2State::InService,
            t1: None,
            suerm: SuermView::fresh(self.suerm.threshold, self.suerm.decrement_interval),
            ..self
        }.raised(EventView::InService)
    }

    /// The link with a processor outage of the peer on record, announced once.
    pub open spec fn peer_out(self) -> LinkView {
        if self.remote_processor_outage {
            self
        } else {
            LinkView { remote_processor_outage: true, ..self }.raised(
                EventView::RemoteProcessorOutage,
            )
        }
    }

    /// The link with congestion of the peer on record, announced once; T6 runs from the
    /// first indication on.
    pub open spec fn peer_busy(self) -> LinkView {
        if self.remote_busy {
            self
        } else {
            LinkView {
                remote_busy: true,
                t6: Some(self.config.t6_remote_congestion),
                ..self
            }.raised(EventView::RemoteBusy)
        }
    }

    /// Whether a status moves the link into a proving period: from Aligned, or from a
    /// normal period into an emergency one.
    pub open spec fn enters_proving(self, status: StatusIndication) -> bool {
        ||| self.state is Aligned && (status is NormalAlignment || status is EmergencyAlignment)
        ||| self.state is Proving && status is EmergencyAlignment && !self.emergency_proving
    }

    /// The link with an emergency indication of the peer taken over, which it is in the
    /// phases before the end of proving.
    pub open spec fn upgraded(self, status: StatusIndication) -> LinkView {
        LinkView {
            emergency: self.emergency || (status is EmergencyAlignment && (
            self.state is NotAligned || self.state is Aligned || self.state is Proving)),
            ..self
        }
    }

    /// The link after a status indication of the peer.
    pub open spec fn status_received(self, status: StatusIndication) -> LinkView {
        let link = self.upgraded(status);
        let aligns = status is OutOfAlignment || status is NormalAlignment
            || status is EmergencyAlignment;
        match self.state {
            Mtp2State::NotAligned => if aligns {
                link.waiting_aligned()
            } else {
                link
            },
            Mtp2State::Aligned => if self.enters_proving(status) {
                link.proving()
            } else if status is OutOfService {
                link.alignment_failed(AlignmentFailure::ReceivedSios)
            } else {
                link
            },
            Mtp2State::Proving => if self.enters_proving(status) {
                link.proving()
            } else if status is OutOfAlignment {
                link.waiting_aligned()
            } else if status is OutOfService {
                link.alignment_failed(AlignmentFailure::ReceivedSios)
            } else {
                link
            },
            Mtp2State::AlignedReady => if status is ProcessorOutage {
                link.in_service().peer_out()
            } else if status is OutOfService {
                link.alignment_failed(AlignmentFailure::ReceivedSios)
            } else {
                link
            },
            Mtp2State::AlignedNotReady => if status is OutOfService {
                link.alignment_failed(AlignmentFailure::ReceivedSios)
            } else {
                link
            },
            Mtp2State::OutOfService => link,
            _ => if aligns {
                link.traffic_failed(OutOfServiceReason::AlignmentLost)
            } else if status is OutOfService {
                link.traffic_failed(OutOfServiceReason::ReceivedSios)
            } else if status is ProcessorOutage {
                link.peer_out()
            } else {
                link.peer_busy()
            },
        }
    }

    /// The link with the acknowledgement of a unit applied. T7 stops when no MSU is
    /// outstanding any more, and starts anew when some are but fewer than before.
    pub open spec fn acknowledged(self, header: SuHeader) -> LinkView {
        let tx = self.tx.acked(header.bsn as int, header.bib);
        LinkView {
            tx,
            t7: if tx.unacked.len() == 0 {
                None
            } else if tx.unacked.len() < self.tx.unacked.len() {
                Some(self.config.t7_excessive_delay)
            } else {
                self.t7
            },
            ..self
        }
    }

    /// The link with an end of the peer's processor outage on record.
    pub open spec fn peer_back(self) -> LinkView {
        if self.remote_processor_outage {
            LinkView { remote_processor_outage: false, ..self }.raised(
                EventView::RemoteProcessorRecovered,
            )
        } else {
            self
        }
    }

    /// The link with an end of the peer's congestion on record.
    pub open spec fn peer_free(self) -> LinkView {
        if self.remote_busy {
            LinkView { remote_busy: false, t6: None, ..self }.raised(EventView::RemoteBusyEnded)
        } else {
            self
        }
    }

    /// The link after the sequence check of an MSU.
    pub open spec fn msu_checked(self, fsn: int, body: MsuBody) -> LinkView {
        let link = LinkView { rx: self.rx.received(fsn), ..self };
        match self.rx.outcome(fsn, body) {
            RxOutcomeView::Accepted(body) => link.raised(EventView::Msu(body)),
            RxOutcomeView::RetransmissionRequested => link.raised(
                EventView::RetransmissionRequested,
            ),
            RxOutcomeView::Discarded => link,
        }
    }

    /// The link in traffic after a FISU or MSU: the acknowledgement is applied, an
    /// outage or congestion of the peer is over, and an MSU is checked unless the local
    /// processor is out.
    pub open spec fn traffic_received(self, header: SuHeader, msu: Option<MsuBody>) -> LinkView {
        let link = self.acknowledged(header).peer_back().peer_free();
        match msu {
            Some(body) if !(self.state is ProcessorOutage) => link.msu_checked(
                header.fsn as int,
                body,
            ),
            _ => link,
        }
    }

    /// The link after a FISU or MSU: the first one of an aligned peer puts the link
    /// into service; one that comes earlier is ignored.
    pub open spec fn unit_received(self, header: SuHeader, msu: Option<MsuBody>) -> LinkView {
        if self.state is AlignedReady {
            self.in_service().traffic_received(header, msu)
        } else if self.in_traffic() {
            self.traffic_received(header, msu)
        } else {
            self
        }
    }

    /// The link with one signal unit counted by the in-service monitor.
    pub open spec fn monitored(self, in_error: bool) -> LinkView {
        if self.in_traffic() {
            LinkView { suerm: self.suerm.recorded(in_error), ..self }
        } else {
            self
        }
    }

    /// The link after a signal unit that was received correctly.
    pub open spec fn received(self, su: SignalUnitView) -> LinkView {
        let link = self.monitored(false);
        if self.in_traffic() && link.suerm.failed {
            link.traffic_failed(OutOfServiceReason::SuermFailure)
        } else {
            match su {
                SignalUnitView::Lssu { status, .. } => link.status_received(status),
                SignalUnitView::Fisu { header } => link.unit_received(header, None),
                SignalUnitView::Msu { header, sio, sif } => link.unit_received(
                    header,
                    Some(MsuBody { sio, sif }),
                ),
            }
        }
    }

    /// Whether an MSU is checked against the receive sequence state now.
    pub open spec fn checks_msus(self) -> bool {
        self.state is AlignedReady || (self.state is InService && self.suerm.threshold > 0)
    }

    /// Whether the link can take a signal unit: an MSU to be checked has an FSN that
    /// the receive side can compare, and a status does not begin a proving period
    /// beyond the last one that can be counted.
    pub open spec fn can_receive(self, su: SignalUnitView) -> bool {
        match su {
            SignalUnitView::Lssu { status, .. } => self.enters_proving(status)
                ==> self.proving_attempt < u32::MAX,
            SignalUnitView::Msu { header, .. } => self.checks_msus() ==> self.rx.can_take(
                header.fsn as int,
            ),
            SignalUnitView::Fisu { .. } => true,
        }
    }

    /// The link after a signal unit that was received in error: the monitor of the
    /// phase counts it.
    pub open spec fn corrupted(self) -> LinkView {
        if self.state is Proving {
            let link = LinkView { aerm: self.aerm.after_error(), ..self };
            if link.aerm.is_tripped() {
                link.proving_aborted()
            } else {
                link
            }
        } else {
            let link = self.monitored(true);
            if self.in_traffic() && link.suerm.failed {
                link.traffic_failed(OutOfServiceReason::SuermFailure)
            } else {
                link
            }
        }
    }

    /// The link one tick later: the timer that expires acts, or else all running
    /// timers step.
    pub open spec fn ticked(self) -> LinkView {
        if expires(self.t2) {
            self.alignment_failed(AlignmentFailure::T2Expired)
        } else if expires(self.t3) {
            self.alignment_failed(AlignmentFailure::T3Expired)
        } else if expires(self.t4) {
            self.proving_succeeded()
        } else if expires(self.t1) {
            self.alignment_failed(AlignmentFailure::T1Expired)
        } else if expires(self.t6) {
            self.traffic_failed(OutOfServiceReason::T6Expired)
        } else if expires(self.t7) {
            self.traffic_failed(OutOfServiceReason::T7Expired)
        } else {
            LinkView {
                t1: stepped(self.t1),
                t2: stepped(self.t2),
                t3: stepped(self.t3),
                t4: stepped(self.t4),
                t6: stepped(self.t6),
                t7: stepped(self.t7),
                ..self
            }
        }
    }
}

} // verus!
