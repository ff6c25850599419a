//! Laws of the link state machine, input by input: what each leaves as it is, what it
//! changes and to what, and which ways lead from one state to another.

use vstd::prelude::*;

use crate::link::{
    AlignmentFailure, Event, EventView, Mtp2Config, Mtp2State, OutOfServiceReason,
};
use crate::link_model;
use crate::link_model::LinkView;
use crate::monitor::{AermView, SuermView};
use crate::retransmission::{MsuBody, RxControlView, RxOutcomeView, TxBodyView, TxControlView};
use crate::signal_unit::{SignalUnitView, StatusIndication, SuHeader};

verus! {

// ── Power ───────────────────────────────────────────────────────────────────────────

/// A link in Out of Service, powered, that tells the peer so by SIOS.
pub open spec fn announces_failure(link: LinkView) -> bool {
    &&& link.state is OutOfService
    &&& link.active
    &&& link.next_unit() matches Some(SignalUnitView::Lssu { status, .. })
    && status is OutOfService
}

/// Nothing that is received switches the power of a link or changes its configuration, and
/// the states of the link follow one another.
pub proof fn receiving_keeps_power_and_order(link: LinkView, su: SignalUnitView)
    requires
        link.wf(),
    ensures
        link.received(su).active == link.active,
        link.received(su).config == link.config,
        follows(link.state, link.received(su).state),
        link.state is OutOfService ==> link.received(su) == link,
{
    match su {
        SignalUnitView::Lssu { header, status, extended } => {
            if link.in_traffic() {
                lemma_status_order_traffic(link, header, status, extended);
            } else if link.state is NotAligned || link.state is Aligned || link.state is Proving {
                lemma_status_order_early(link, header, status, extended);
            } else {
                lemma_status_order_ready(link, header, status, extended);
            }
        },
        SignalUnitView::Fisu { header } => {
            lemma_unit_order(link, header, None);
        },
        SignalUnitView::Msu { header, sio, sif } => {
            lemma_unit_order(link, header, Some(MsuBody { sio, sif }));
        },
    }
}

/// The same of a status before the end of proving.
proof fn lemma_status_order_early(
    link: LinkView,
    header: SuHeader,
    status: StatusIndication,
    extended: bool,
)
    requires
        link.wf(),
        link.state is NotAligned || link.state is Aligned || link.state is Proving,
    ensures
        ({
            let after = link.received(SignalUnitView::Lssu { header, status, extended });
            &&& after.active == link.active
            &&& after.config == link.config
            &&& follows(link.state, after.state)
            &&& link.state is OutOfService ==> after == link
        }),
{
    if link.state is NotAligned {
        status_in_not_aligned(link, header, status, extended);
    } else if link.state is Aligned {
        status_in_aligned(link, header, status, extended);
    } else {
        status_in_proving(link, header, status, extended);
    }
}

/// The same of a status at the end of the alignment, or out of service.
proof fn lemma_status_order_ready(
    link: LinkView,
    header: SuHeader,
    status: StatusIndication,
    extended: bool,
)
    requires
        link.wf(),
        link.state is AlignedReady || link.state is AlignedNotReady || link.state is OutOfService,
    ensures
        ({
            let after = link.received(SignalUnitView::Lssu { header, status, extended });
            &&& after.active == link.active
            &&& after.config == link.config
            &&& follows(link.state, after.state)
            &&& link.state is OutOfService ==> after == link
        }),
{
    if !(link.state is OutOfService) {
        status_when_ready(link, header, status, extended);
    }
}

/// The same of a status in traffic.
proof fn lemma_status_order_traffic(
    link: LinkView,
    header: SuHeader,
    status: StatusIndication,
    extended: bool,
)
    requires
        link.wf(),
        link.state is InService || link.state is ProcessorOutage,
    ensures
        ({
            let after = link.received(SignalUnitView::Lssu { header, status, extended });
            &&& after.active == link.active
            &&& after.config == link.config
            &&& follows(link.state, after.state)
            &&& link.state is OutOfService ==> after == link
        }),
{
    if link.config.suerm_threshold > 0 {
        status_in_traffic(link, header, status, extended);
    } else {
        units_in_traffic_are_recorded(link, SignalUnitView::Lssu { header, status, extended });
    }
}

/// The same of a FISU or MSU.
proof fn lemma_unit_order(link: LinkView, header: SuHeader, msu: Option<MsuBody>)
    requires
        link.wf(),
    ensures
        ({
            let after = after_unit(link, header, msu);
            &&& after.active == link.active
            &&& after.config == link.config
            &&& follows(link.state, after.state)
            &&& link.state is OutOfService ==> after == link
        }),
{
    let su = match msu {
        Some(body) => SignalUnitView::Msu { header, sio: body.sio, sif: body.sif },
        None => SignalUnitView::Fisu { header },
    };
    match link.state {
        Mtp2State::OutOfService => {},
        Mtp2State::AlignedReady => {
            first_unit_puts_into_service(link, header, msu);
        },
        Mtp2State::InService | Mtp2State::ProcessorOutage => {
            if link.config.suerm_threshold > 0 {
                unit_in_traffic(link, header, msu);
            } else {
                units_in_traffic_are_recorded(link, su);
            }
        },
        _ => {
            units_in_alignment_are_ignored(link, su);
        },
    }
}

/// Only `stop` powers a link off, and only `start` powers it on: no error and no tick does,
/// nor any other primitive. None of them changes the configuration either.
pub proof fn only_start_and_stop_switch_power(link: LinkView, body: MsuBody, on: bool)
    ensures
        link.corrupted().active == link.active,
        link.ticked().active == link.active,
        link.transmitted().active == link.active,
        link.submitted(body).active == link.active,
        link.emergency_requested(on).active == link.active,
        link.processor_out().active == link.active,
        link.processor_back().active == link.active,
        !link.stopped().active,
        link.state is OutOfService ==> link.started().active,
        link.corrupted().config == link.config,
        link.ticked().config == link.config,
        link.transmitted().config == link.config,
        link.started().config == link.config,
        link.stopped().config == link.config,
{
}

/// A powered link that falls out of service by anything but `stop` transmits SIOS next,
/// whatever it was that failed it.
pub proof fn failed_link_tells_the_peer(link: LinkView, su: SignalUnitView)
    requires
        link.wf(),
        !(link.state is OutOfService),
    ensures
        link.received(su).state is OutOfService ==> announces_failure(link.received(su)),
        link.corrupted().state is OutOfService ==> announces_failure(link.corrupted()),
        link.ticked().state is OutOfService ==> announces_failure(link.ticked()),
{
}

// ── Which state leads to which ──────────────────────────────────────────────────────

/// Whether one state follows another, other than by `start` or `stop`: the alignment goes
/// through its phases one by one, falls back from Proving to Aligned, and ends In Service;
/// every state may fail.
pub open spec fn follows(before: Mtp2State, after: Mtp2State) -> bool {
    ||| after == before
    ||| after is OutOfService
    ||| before is NotAligned && after is Aligned
    ||| before is Aligned && after is Proving
    ||| before is Proving && (after is Aligned || after is AlignedReady || after
        is AlignedNotReady)
    ||| before is AlignedReady && after is InService
}

/// The states of a link follow one another by errors and ticks too, and a link out of
/// service stays there until it is started.
pub proof fn errors_and_ticks_keep_order(link: LinkView)
    requires
        link.wf(),
    ensures
        follows(link.state, link.corrupted().state),
        follows(link.state, link.ticked().state),
        link.transmitted().state == link.state,
        link.state is OutOfService ==> link.corrupted() == link && link.ticked() == link,
{
}

/// A link that is Aligned Ready goes into service exactly on a FISU, an MSU or SIPO. Every
/// other status but SIOS leaves it as it is, with its events and T1: the peer is still
/// aligning.
pub proof fn ready_link_waits_for_the_peer(link: LinkView, su: SignalUnitView)
    requires
        link.wf(),
        link.state is AlignedReady,
    ensures
        link.received(su).state is InService <==> !(su is Lssu) || su->status is ProcessorOutage,
        su is Lssu && !(su->status is ProcessorOutage) && !(su->status is OutOfService)
            ==> link.received(su) == link,
        !(link.corrupted().state is InService),
        !(link.ticked().state is InService),
{
}

/// A link goes into service only from Aligned Ready, and says so by an event then and at
/// no other time.
pub proof fn service_is_announced(link: LinkView, su: SignalUnitView)
    requires
        link.wf(),
    ensures
        ({
            let after = link.received(su);
            let enters = link.state is AlignedReady && (!(su is Lssu) || su->status
                is ProcessorOutage);
            &&& enters ==> after.events.len() > link.events.len()
                && after.events[link.events.len() as int] is InService
            &&& !enters ==> !(after.state is InService && !(link.state is InService))
            &&& !enters ==> forall|i: int|
                link.events.len() <= i < after.events.len() ==> !(#[trigger] after.events[i]
                    is InService)
        }),
{
}

// ── Primitives ──────────────────────────────────────────────────────────────────────

/// A new link is dark and out of service, as configured, with nothing on record.
pub proof fn new_link(config: Mtp2Config)
    ensures
        ({
            let link = LinkView::fresh(config);
            &&& link.config == config
            &&& link.state is OutOfService
            &&& !link.active
            &&& link.emergency == config.emergency
            &&& !link.emergency_proving
            &&& link.next_emergency is None
            &&& !link.local_processor_outage && !link.remote_processor_outage
            &&& !link.local_busy && !link.remote_busy
            &&& link.proving_attempt == 0
            &&& link.tx == TxControlView::fresh(config.method)
            &&& link.rx == RxControlView::fresh(config.method)
            &&& link.aerm.count == 0
            &&& link.aerm.threshold == config.aerm_threshold_normal
            &&& link.suerm == SuermView::fresh(
                config.suerm_threshold as nat,
                config.suerm_decrement_interval as nat,
            )
            &&& link.t1 is None && link.t2 is None && link.t3 is None && link.t4 is None
            &&& link.t6 is None && link.t7 is None
            &&& link.events.len() == 0
        }),
{
}

/// Starting a link that is out of service begins an alignment afresh: Not Aligned, with T2
/// running alone, new sequence numbers and monitors and no conditions of the peer. The
/// local conditions, the queue and the events stay.
pub proof fn starting_aligns(link: LinkView)
    requires
        link.wf(),
        link.state is OutOfService,
    ensures
        link.started() == (LinkView {
            state: Mtp2State::NotAligned,
            active: true,
            emergency: match link.next_emergency {
                Some(requested) => requested,
                None => link.config.emergency,
            },
            emergency_proving: false,
            next_emergency: None,
            remote_processor_outage: false,
            remote_busy: false,
            proving_attempt: 0,
            tx: link.tx.restarted(),
            rx: RxControlView::fresh(link.config.method),
            aerm: AermView { count: 0, threshold: link.config.aerm_threshold_normal as nat },
            suerm: SuermView::fresh(
                link.config.suerm_threshold as nat,
                link.config.suerm_decrement_interval as nat,
            ),
            t2: Some(link.config.t2_not_aligned),
            ..link
        }),
{
}

/// Stopping takes a link out of service and powers it off, with an event; the timers stop,
/// and nothing else changes.
pub proof fn stopping_powers_off(link: LinkView)
    ensures
        link.stopped() == (LinkView {
            state: Mtp2State::OutOfService,
            active: false,
            t1: None,
            t2: None,
            t3: None,
            t4: None,
            t6: None,
            t7: None,
            events: link.events.push(EventView::OutOfService(OutOfServiceReason::Stopped)),
            ..link
        }),
{
}

/// A request for emergency alignment, or against it, sets what the link announces now; it
/// is kept for the next start where no alignment is under way. Nothing else changes.
pub proof fn requesting_emergency(link: LinkView, emergency: bool)
    requires
        link.wf(),
    ensures
        ({
            let aligning = link.state is NotAligned || link.state is Aligned || link.state
                is Proving || link.state is AlignedReady || link.state is AlignedNotReady;
            link.emergency_requested(emergency) == (LinkView {
                emergency,
                next_emergency: if aligning {
                    None
                } else {
                    Some(emergency)
                },
                ..link
            })
        }),
{
}

/// A local processor outage turns In Service into Processor Outage and Aligned Ready into
/// Aligned Not Ready, where T1 does not run; the recovery turns them back, with T1 anew.
/// Other states only keep it on record.
pub proof fn processor_outage_and_recovery(link: LinkView)
    requires
        link.wf(),
    ensures
        link.state is InService ==> link.processor_out() == (LinkView {
            state: Mtp2State::ProcessorOutage,
            local_processor_outage: true,
            ..link
        }),
        link.state is AlignedReady ==> link.processor_out() == (LinkView {
            state: Mtp2State::AlignedNotReady,
            local_processor_outage: true,
            t1: None,
            ..link
        }),
        !(link.state is InService) && !(link.state is AlignedReady) ==> link.processor_out() == (
        LinkView { local_processor_outage: true, ..link }),
        link.state is ProcessorOutage ==> link.processor_back() == (LinkView {
            state: Mtp2State::InService,
            local_processor_outage: false,
            ..link
        }),
        link.state is AlignedNotReady ==> link.processor_back() == (LinkView {
            state: Mtp2State::AlignedReady,
            local_processor_outage: false,
            t1: Some(link.config.t1_aligned_ready),
            ..link
        }),
        !(link.state is ProcessorOutage) && !(link.state is AlignedNotReady)
            ==> link.processor_back() == (LinkView { local_processor_outage: false, ..link }),
{
}

/// Submitting an MSU queues it at the transmit side in any state, and changes nothing else.
pub proof fn submitting_only_queues(link: LinkView, body: MsuBody)
    ensures
        link.submitted(body) == (LinkView {
            tx: TxControlView { pending: link.tx.pending.push(body), ..link.tx },
            ..link
        }),
{
}

// ── Transmission ────────────────────────────────────────────────────────────────────

/// The header that acknowledges the last accepted MSU and carries the last assigned number.
pub open spec fn is_control_header(link: LinkView, header: SuHeader) -> bool {
    &&& header.bsn == link.rx.last_received
    &&& header.bib == link.rx.bib
    &&& header.fsn == link.tx.last_fsn
    &&& header.fib == link.tx.fib
}

/// Whether a link transmits a status.
pub open spec fn transmits_status(link: LinkView, status: StatusIndication) -> bool {
    match link.next_unit() {
        Some(SignalUnitView::Lssu { header, status: s, extended }) => is_control_header(
            link,
            header,
        ) && s == status && !extended,
        _ => false,
    }
}

/// Whether a link fills the line.
pub open spec fn transmits_fisu(link: LinkView) -> bool {
    match link.next_unit() {
        Some(SignalUnitView::Fisu { header }) => is_control_header(link, header),
        _ => false,
    }
}

/// What a link transmits outside traffic: nothing when dark, SIOS out of service, SIO in
/// Not Aligned, SIN or SIE in Aligned and Proving, FISUs in Aligned Ready and SIPO in
/// Aligned Not Ready; all with the sequence numbers as they stand, which stay.
pub proof fn transmission_in_alignment(link: LinkView)
    requires
        link.wf(),
        !(link.state is InService),
    ensures
        link.transmitted() == link,
        link.state is OutOfService && !link.active ==> link.next_unit() is None,
        link.state is OutOfService && link.active ==> transmits_status(
            link,
            StatusIndication::OutOfService,
        ),
        link.state is NotAligned ==> transmits_status(link, StatusIndication::OutOfAlignment),
        (link.state is Aligned || link.state is Proving) && link.emergency ==> transmits_status(
            link,
            StatusIndication::EmergencyAlignment,
        ),
        (link.state is Aligned || link.state is Proving) && !link.emergency ==> transmits_status(
            link,
            StatusIndication::NormalAlignment,
        ),
        link.state is AlignedReady ==> transmits_fisu(link),
        link.state is AlignedNotReady ==> transmits_status(link, StatusIndication::ProcessorOutage),
        link.state is ProcessorOutage ==> transmits_status(link, StatusIndication::ProcessorOutage),
{
}

/// What a link in service transmits: SIB while it is busy; FISUs while the peer is out or
/// busy, with the transmit side untouched; else the frame of the transmit side, unchanged,
/// with the acknowledgement of the receive side. T7 starts with the first MSU outstanding
/// and goes on running.
pub proof fn transmission_in_service(link: LinkView)
    requires
        link.wf(),
        link.state is InService,
    ensures
        link.local_busy ==> transmits_status(link, StatusIndication::Busy)
            && link.transmitted() == link,
        !link.local_busy && (link.remote_processor_outage || link.remote_busy) ==> transmits_fisu(
            link,
        ) && link.transmitted() == link,
        !link.local_busy && !link.remote_processor_outage && !link.remote_busy ==> {
            let frame = link.tx.next_frame();
            let after = link.transmitted();
            &&& link.next_unit() is Some
            &&& match (link.next_unit()->0, frame.body) {
                (SignalUnitView::Fisu { header }, TxBodyView::Fisu) => header.bsn
                    == link.rx.last_received && header.bib == link.rx.bib && header.fsn == frame.fsn
                    && header.fib == frame.fib,
                (SignalUnitView::Msu { header, sio, sif }, TxBodyView::Msu(body)) => header.bsn
                    == link.rx.last_received && header.bib == link.rx.bib && header.fsn == frame.fsn
                    && header.fib == frame.fib && sio == body.sio && sif == body.sif,
                _ => false,
            }
            &&& after == (LinkView { tx: link.tx.polled(), t7: after.t7, ..link })
            &&& link.t7 is Some ==> after.t7 == link.t7
            &&& link.t7 is None && after.tx.unacked.len() > 0 ==> after.t7 == Some(
                link.config.t7_excessive_delay,
            )
            &&& link.t7 is None && after.tx.unacked.len() == 0 ==> after.t7 is None
        },
{
    match link.tx.resend_index() {
        Some(i) => {
            assert(link.tx.unacked[i].fsn == link.tx.fsn_at(i));
        },
        None => {},
    }
}

// ── Reception in alignment ──────────────────────────────────────────────────────────

/// The link that has given up its alignment, for this reason.
pub open spec fn gave_up(link: LinkView, failure: AlignmentFailure) -> LinkView {
    LinkView {
        state: Mtp2State::OutOfService,
        t1: None,
        t2: None,
        t3: None,
        t4: None,
        events: link.events.push(EventView::AlignmentFailed(failure)),
        ..link
    }
}

/// The link that waits in Aligned, with T3 running alone.
pub open spec fn waits_in_aligned(link: LinkView) -> LinkView {
    LinkView {
        state: Mtp2State::Aligned,
        t2: None,
        t3: Some(link.config.t3_aligned),
        t4: None,
        ..link
    }
}

/// The link that has begun a proving period: one attempt more, with T4 running alone and a
/// monitor at zero, both of the emergency or the normal kind.
pub open spec fn begins_proving(link: LinkView, emergency: bool) -> LinkView {
    LinkView {
        state: Mtp2State::Proving,
        emergency,
        emergency_proving: emergency,
        proving_attempt: link.proving_attempt + 1,
        aerm: AermView {
            count: 0,
            threshold: if emergency {
                link.config.aerm_threshold_emergency as nat
            } else {
                link.config.aerm_threshold_normal as nat
            },
        },
        t3: None,
        t4: Some(
            if emergency {
                link.config.t4_proving_emergency
            } else {
                link.config.t4_proving_normal
            },
        ),
        ..link
    }
}

/// A FISU or MSU before the end of proving is ignored.
pub proof fn units_in_alignment_are_ignored(link: LinkView, su: SignalUnitView)
    requires
        link.wf(),
        link.state is NotAligned || link.state is Aligned || link.state is Proving || link.state
            is AlignedNotReady,
        !(su is Lssu),
    ensures
        link.received(su) == link,
{
}

/// In Not Aligned, SIO, SIN and SIE tell that the peer is there, and the link is Aligned;
/// SIE makes the alignment an emergency one. Other statuses are ignored.
pub proof fn status_in_not_aligned(
    link: LinkView,
    header: SuHeader,
    status: StatusIndication,
    extended: bool,
)
    requires
        link.wf(),
        link.state is NotAligned,
    ensures
        ({
            let after = link.received(SignalUnitView::Lssu { header, status, extended });
            &&& status is OutOfAlignment || status is NormalAlignment ==> after
                == waits_in_aligned(link)
            &&& status is EmergencyAlignment ==> after == waits_in_aligned(
                LinkView { emergency: true, ..link },
            )
            &&& status is OutOfService || status is ProcessorOutage || status is Busy ==> after
                == link
        }),
{
}

/// In Aligned, SIN and SIE begin a proving period, an emergency one if either side wants
/// it; SIOS fails the alignment. Other statuses are ignored.
pub proof fn status_in_aligned(
    link: LinkView,
    header: SuHeader,
    status: StatusIndication,
    extended: bool,
)
    requires
        link.wf(),
        link.state is Aligned,
    ensures
        ({
            let after = link.received(SignalUnitView::Lssu { header, status, extended });
            &&& status is NormalAlignment ==> after == begins_proving(link, link.emergency)
            &&& status is EmergencyAlignment ==> after == begins_proving(link, true)
            &&& status is OutOfService ==> after == gave_up(link, AlignmentFailure::ReceivedSios)
            &&& status is OutOfAlignment || status is ProcessorOutage || status is Busy ==> after
                == link
        }),
{
}

/// In Proving, SIE begins an emergency period unless one is under way, SIO puts the link
/// back to Aligned, and SIOS fails the alignment. Other statuses are ignored.
pub proof fn status_in_proving(
    link: LinkView,
    header: SuHeader,
    status: StatusIndication,
    extended: bool,
)
    requires
        link.wf(),
        link.state is Proving,
    ensures
        ({
            let after = link.received(SignalUnitView::Lssu { header, status, extended });
            &&& status is EmergencyAlignment && !link.emergency_proving ==> after
                == begins_proving(link, true)
            &&& status is EmergencyAlignment && link.emergency_proving ==> after == (LinkView {
                emergency: true,
                ..link
            })
            &&& status is OutOfAlignment ==> after == waits_in_aligned(link)
            &&& status is OutOfService ==> after == gave_up(link, AlignmentFailure::ReceivedSios)
            &&& status is NormalAlignment || status is ProcessorOutage || status is Busy ==> after
                == link
        }),
{
}

/// In Aligned Ready, SIPO puts the link into service with the peer's processor out; in
/// Aligned Ready and Aligned Not Ready, SIOS fails the alignment. Other statuses are
/// ignored.
pub proof fn status_when_ready(
    link: LinkView,
    header: SuHeader,
    status: StatusIndication,
    extended: bool,
)
    requires
        link.wf(),
        link.state is AlignedReady || link.state is AlignedNotReady,
    ensures
        ({
            let after = link.received(SignalUnitView::Lssu { header, status, extended });
            &&& status is OutOfService ==> after == gave_up(link, AlignmentFailure::ReceivedSios)
            &&& status is ProcessorOutage && link.state is AlignedReady ==> after == (LinkView {
                state: Mtp2State::InService,
                t1: None,
                suerm: SuermView::fresh(
                    link.config.suerm_threshold as nat,
                    link.config.suerm_decrement_interval as nat,
                ),
                remote_processor_outage: true,
                events: link.events + seq![EventView::InService, EventView::RemoteProcessorOutage],
                ..link
            })
            &&& !(status is OutOfService) && !(status is ProcessorOutage && link.state
                is AlignedReady) ==> after == link
        }),
{
}

/// What the receive side makes known of an MSU: the MSU if it is accepted, a request if one
/// is made, and nothing of what it drops.
pub open spec fn msu_events(rx: RxControlView, fsn: int, msu: Option<MsuBody>) -> Seq<EventView> {
    match msu {
        Some(body) => match rx.outcome(fsn, body) {
            RxOutcomeView::Accepted(b) => seq![EventView::Msu(b)],
            RxOutcomeView::RetransmissionRequested => seq![EventView::RetransmissionRequested],
            RxOutcomeView::Discarded => seq![],
        },
        None => seq![],
    }
}

/// The link after a FISU, or an MSU with this payload.
pub open spec fn after_unit(link: LinkView, header: SuHeader, msu: Option<MsuBody>) -> LinkView {
    match msu {
        Some(body) => link.received(
            SignalUnitView::Msu { header, sio: body.sio, sif: body.sif },
        ),
        None => link.received(SignalUnitView::Fisu { header }),
    }
}

/// The first FISU or MSU of a peer that is ready puts the link into service, with a fresh
/// monitor, and is taken as one in service: its acknowledgement counts, and an MSU is
/// checked and delivered.
pub proof fn first_unit_puts_into_service(link: LinkView, header: SuHeader, msu: Option<MsuBody>)
    requires
        link.wf(),
        link.state is AlignedReady,
    ensures
        after_unit(link, header, msu) == (LinkView {
            state: Mtp2State::InService,
            t1: None,
            suerm: SuermView::fresh(
                link.config.suerm_threshold as nat,
                link.config.suerm_decrement_interval as nat,
            ),
            tx: link.tx.acked(header.bsn as int, header.bib),
            rx: if msu is Some {
                link.rx.received(header.fsn as int)
            } else {
                link.rx
            },
            events: link.events + seq![EventView::InService] + msu_events(
                link.rx,
                header.fsn as int,
                msu,
            ),
            ..link
        }),
{
    assert(link.tx.unacked.skip(0) =~= link.tx.unacked);
}

// ── Reception in traffic ────────────────────────────────────────────────────────────

/// The link that has fallen out of traffic, for this reason: the timers stop and the
/// conditions of the peer are over.
pub open spec fn fell_out(link: LinkView, reason: OutOfServiceReason) -> LinkView {
    LinkView {
        state: Mtp2State::OutOfService,
        remote_processor_outage: false,
        remote_busy: false,
        t6: None,
        t7: None,
        events: link.events.push(EventView::OutOfService(reason)),
        ..link
    }
}

/// Every unit of a link in traffic is recorded by the monitor as received correctly. If the
/// monitor declares a failure by it, the link fails and the unit is not looked at.
pub proof fn units_in_traffic_are_recorded(link: LinkView, su: SignalUnitView)
    requires
        link.wf(),
        link.in_traffic(),
    ensures
        ({
            let suerm = link.suerm.recorded(false);
            &&& suerm.failed ==> link.received(su) == fell_out(
                LinkView { suerm, ..link },
                OutOfServiceReason::SuermFailure,
            )
            &&& link.config.suerm_threshold > 0 ==> !suerm.failed
            &&& link.received(su).suerm == suerm
        }),
{
}

/// A status in traffic: SIOS and a restart of the alignment fail the link; SIPO and SIB put
/// a condition of the peer on record, with an event and, for SIB, T6, if it is not there
/// already.
pub proof fn status_in_traffic(
    link: LinkView,
    header: SuHeader,
    status: StatusIndication,
    extended: bool,
)
    requires
        link.wf(),
        link.state is InService || link.state is ProcessorOutage,
        link.config.suerm_threshold > 0,
    ensures
        ({
            let after = link.received(SignalUnitView::Lssu { header, status, extended });
            let counted = LinkView { suerm: link.suerm.recorded(false), ..link };
            &&& status is OutOfService ==> after == fell_out(
                counted,
                OutOfServiceReason::ReceivedSios,
            )
            &&& status is OutOfAlignment || status is NormalAlignment
                || status is EmergencyAlignment ==> after == fell_out(
                counted,
                OutOfServiceReason::AlignmentLost,
            )
            &&& status is ProcessorOutage && link.remote_processor_outage ==> after == counted
            &&& status is ProcessorOutage && !link.remote_processor_outage ==> after == (LinkView {
                remote_processor_outage: true,
                events: link.events.push(EventView::RemoteProcessorOutage),
                ..counted
            })
            &&& status is Busy && link.remote_busy ==> after == counted
            &&& status is Busy && !link.remote_busy ==> after == (LinkView {
                remote_busy: true,
                t6: Some(link.config.t6_remote_congestion),
                events: link.events.push(EventView::RemoteBusy),
                ..counted
            })
        }),
{
}

/// A FISU or MSU in traffic: its acknowledgement is applied, a condition of the peer is
/// over, each with its event, and an MSU is checked, unless the local processor is out. T7
/// stops when nothing is outstanding any more, starts anew when less is, and else goes on.
pub proof fn unit_in_traffic(link: LinkView, header: SuHeader, msu: Option<MsuBody>)
    requires
        link.wf(),
        link.state is InService || link.state is ProcessorOutage,
        link.config.suerm_threshold > 0,
    ensures
        ({
            let tx = link.tx.acked(header.bsn as int, header.bib);
            let checked = if link.state is InService {
                msu
            } else {
                None
            };
            let recovered = if link.remote_processor_outage {
                seq![EventView::RemoteProcessorRecovered]
            } else {
                seq![]
            };
            let freed = if link.remote_busy {
                seq![EventView::RemoteBusyEnded]
            } else {
                seq![]
            };
            after_unit(link, header, msu) == (LinkView {
                suerm: link.suerm.recorded(false),
                tx,
                rx: if checked is Some {
                    link.rx.received(header.fsn as int)
                } else {
                    link.rx
                },
                remote_processor_outage: false,
                remote_busy: false,
                t6: None,
                t7: if tx.unacked.len() == 0 {
                    None
                } else if tx.unacked.len() < link.tx.unacked.len() {
                    Some(link.config.t7_excessive_delay)
                } else {
                    link.t7
                },
                events: link.events + recovered + freed + msu_events(
                    link.rx,
                    header.fsn as int,
                    checked,
                ),
                ..link
            })
        }),
{
}

/// Which units a link can take: every FISU; every LSSU but one that begins a proving period
/// beyond the last that can be counted; and every MSU whose number the receive side can
/// compare, or that is not checked at all.
pub proof fn units_that_can_be_taken(link: LinkView, su: SignalUnitView)
    requires
        link.wf(),
    ensures
        su is Fisu ==> link.can_receive(su),
        su is Lssu && link.proving_attempt < u32::MAX ==> link.can_receive(su),
        su is Lssu && link.proving_attempt == u32::MAX ==> (!link.can_receive(su) <==> (link.state
            is Aligned && (su->status is NormalAlignment || su->status is EmergencyAlignment))
            || (link.state is Proving && su->status is EmergencyAlignment
            && !link.emergency_proving)),
        su matches SignalUnitView::Msu { header, .. } ==> (!link.can_receive(su) <==> (link.state
            is AlignedReady || link.state is InService && link.config.suerm_threshold > 0)
            && link.rx.last_received > header.fsn + 128),
{
}

// ── Errors and time ─────────────────────────────────────────────────────────────────

/// A unit received in error counts in the monitor of the phase. In Proving, at the
/// threshold, the link waits in Aligned for another attempt or gives up after the last. In
/// traffic it fails when the monitor says so. Elsewhere nothing happens.
pub proof fn errors_count(link: LinkView)
    requires
        link.wf(),
    ensures
        ({
            let after = link.corrupted();
            let aerm = link.aerm.after_error();
            let counted = LinkView { aerm, ..link };
            let suerm = link.suerm.recorded(true);
            let traffic = link.state is InService || link.state is ProcessorOutage;
            &&& link.state is Proving && aerm.count < aerm.threshold ==> after == counted
            &&& link.state is Proving && aerm.count >= aerm.threshold && link.proving_attempt
                < link.config.proving_attempts ==> after == waits_in_aligned(counted)
            &&& link.state is Proving && aerm.count >= aerm.threshold && link.proving_attempt
                >= link.config.proving_attempts ==> after == gave_up(
                counted,
                AlignmentFailure::AermTripped,
            )
            &&& traffic && !suerm.failed ==> after == (LinkView { suerm, ..link })
            &&& traffic && suerm.failed ==> after == fell_out(
                LinkView { suerm, ..link },
                OutOfServiceReason::SuermFailure,
            )
            &&& !(link.state is Proving) && !traffic ==> after == link
        }),
{
}

/// A tick in alignment takes one from the timer of the phase. At its end Not Aligned,
/// Aligned and Aligned Ready give up, each for its own reason, and Proving has succeeded.
/// Out of service and in Aligned Not Ready no timer runs.
pub proof fn tick_in_alignment(link: LinkView)
    requires
        link.wf(),
    ensures
        ({
            let after = link.ticked();
            &&& link.state is NotAligned && link.t2->0 > 1 ==> after == (LinkView {
                t2: Some((link.t2->0 - 1) as u32),
                ..link
            })
            &&& link.state is NotAligned && link.t2->0 <= 1 ==> after == gave_up(
                link,
                AlignmentFailure::T2Expired,
            )
            &&& link.state is Aligned && link.t3->0 > 1 ==> after == (LinkView {
                t3: Some((link.t3->0 - 1) as u32),
                ..link
            })
            &&& link.state is Aligned && link.t3->0 <= 1 ==> after == gave_up(
                link,
                AlignmentFailure::T3Expired,
            )
            &&& link.state is Proving && link.t4->0 > 1 ==> after == (LinkView {
                t4: Some((link.t4->0 - 1) as u32),
                ..link
            })
            &&& link.state is Proving && link.t4->0 <= 1 && !link.local_processor_outage ==> after
                == (LinkView {
                state: Mtp2State::AlignedReady,
                t1: Some(link.config.t1_aligned_ready),
                t4: None,
                ..link
            })
            &&& link.state is Proving && link.t4->0 <= 1 && link.local_processor_outage ==> after
                == (LinkView { state: Mtp2State::AlignedNotReady, t4: None, ..link })
            &&& link.state is AlignedReady && link.t1->0 > 1 ==> after == (LinkView {
                t1: Some((link.t1->0 - 1) as u32),
                ..link
            })
            &&& link.state is AlignedReady && link.t1->0 <= 1 ==> after == gave_up(
                link,
                AlignmentFailure::T1Expired,
            )
            &&& link.state is AlignedNotReady || link.state is OutOfService ==> after == link
        }),
{
}

/// A tick in traffic takes one from T6 and from T7 where they run. At the end of T6, or
/// else of T7, the link fails for that reason.
pub proof fn tick_in_traffic(link: LinkView)
    requires
        link.wf(),
        link.state is InService || link.state is ProcessorOutage,
    ensures
        ({
            let after = link.ticked();
            let t6_ends = link.t6 is Some && link.t6->0 <= 1;
            let t7_ends = link.t7 is Some && link.t7->0 <= 1;
            &&& t6_ends ==> after == fell_out(link, OutOfServiceReason::T6Expired)
            &&& !t6_ends && t7_ends ==> after == fell_out(link, OutOfServiceReason::T7Expired)
            &&& !t6_ends && !t7_ends ==> {
                &&& after == (LinkView { t6: after.t6, t7: after.t7, ..link })
                &&& link.t6 is None ==> after.t6 is None
                &&& link.t6 is Some ==> after.t6 is Some && after.t6->0 == link.t6->0 - 1
                &&& link.t7 is None ==> after.t7 is None
                &&& link.t7 is Some ==> after.t7 is Some && after.t7->0 == link.t7->0 - 1
            }
        }),
{
}

/// A timer runs down by one with a tick and expires with the tick that would leave it
/// nothing; one that is stopped stays so.
pub proof fn timers_run_down(ticks: u32)
    ensures
        ticks > 1 ==> link_model::stepped(Some(ticks)) == Some((ticks - 1) as u32)
            && !link_model::expires(Some(ticks)),
        ticks <= 1 ==> link_model::stepped(Some(ticks)) is None && link_model::expires(Some(ticks)),
        link_model::stepped(None) is None,
        !link_model::expires(None),
{
}

/// The states of a link in traffic and in alignment.
pub proof fn phases_of_a_link(link: LinkView)
    ensures
        link.in_traffic() <==> link.state is InService || link.state is ProcessorOutage,
        link.aligning() <==> link.state is NotAligned || link.state is Aligned || link.state
            is Proving || link.state is AlignedReady || link.state is AlignedNotReady,
        link.traffic_flows() <==> link.state is InService && !link.local_busy
            && !link.remote_processor_outage && !link.remote_busy,
{
}

/// The value of an event is that of its parts, one by one.
pub proof fn value_of_events(event: Event)
    ensures
        event is InService <==> event@ is InService,
        event matches Event::OutOfService(reason) ==> event@ == EventView::OutOfService(reason),
        event matches Event::AlignmentFailed(failure) ==> event@ == EventView::AlignmentFailed(
            failure,
        ),
        event matches Event::Msu { sio, sif } ==> event@ == EventView::Msu(
            MsuBody { sio, sif: sif@ },
        ),
        event is RemoteProcessorOutage <==> event@ is RemoteProcessorOutage,
        event is RemoteProcessorRecovered <==> event@ is RemoteProcessorRecovered,
        event is RemoteBusy <==> event@ is RemoteBusy,
        event is RemoteBusyEnded <==> event@ is RemoteBusyEnded,
        event is RetransmissionRequested <==> event@ is RetransmissionRequested,
{
}

} // verus!
