//! Laws of the link state machine.

use vstd::prelude::*;

use crate::error::Mtp2Error;
use crate::laws::codec;
use crate::laws::transfer;
use crate::laws::transfer::{Step, Transfer};
use crate::link::{AlignmentFailure, EventView, Mtp2Config, OutOfServiceReason};
use crate::link_model;
use crate::link_model::LinkView;
use crate::monitor::{AermView, SuermView};
use crate::retransmission::{MsuBody, TxBodyView, TxControlView};
use crate::signal_unit::{SignalUnitView, StatusIndication, SuHeader};
use crate::MAX_MSU_BODY;

verus! {

// ── What every operation keeps ──────────────────────────────────────────────────────

/// Sending and acknowledging keep the MSUs of a transmit side within the maximum.
proof fn lemma_bodies_fit(tx: TxControlView, bsn: int, bib: bool)
    requires
        tx.wf(),
        0 <= bsn < 256,
        link_model::bodies_fit(tx),
    ensures
        link_model::bodies_fit(tx.polled()),
        link_model::bodies_fit(tx.acked(bsn, bib)),
        link_model::bodies_fit(tx.restarted()),
{
    transfer::acknowledging_keeps_wf(tx, bsn, bib);
    assert forall|i: int| 0 <= i < tx.polled().pending.len() implies (
    #[trigger] tx.polled().pending[i]).octets() <= MAX_MSU_BODY by {
        if tx.sends_new() {
            assert(tx.polled().pending[i] == tx.pending[i + 1]);
        }
    }
    assert forall|i: int| 0 <= i < tx.polled().unacked.len() implies (
    #[trigger] tx.polled().unacked[i]).body.octets() <= MAX_MSU_BODY by {
        if i < tx.unacked.len() {
            assert(tx.polled().unacked[i] == tx.unacked[i]);
        } else {
            assert(tx.pending[0].octets() <= MAX_MSU_BODY);
        }
    }
    assert forall|i: int| 0 <= i < tx.acked(bsn, bib).unacked.len() implies (
    #[trigger] tx.acked(bsn, bib).unacked[i]).body.octets() <= MAX_MSU_BODY by {
        assert(tx.acked(bsn, bib).unacked[i] == tx.unacked[i + tx.acknowledged(bsn)]);
    }
}

/// A new link is well-formed, and every primitive of level 3 and management keeps it so.
pub proof fn primitives_keep_wf(config: Mtp2Config, link: LinkView, body: MsuBody, on: bool)
    requires
        link.wf(),
        body.octets() <= MAX_MSU_BODY,
    ensures
        LinkView::fresh(config).wf(),
        link.started().wf(),
        link.stopped().wf(),
        link.emergency_requested(on).wf(),
        link.processor_out().wf(),
        link.processor_back().wf(),
        (LinkView { local_busy: on, ..link }).wf(),
        link.submitted(body).wf(),
{
    lemma_bodies_fit(link.tx, 0, on);
    transfer::submitting_keeps_wf(link.tx, body);
}

/// Transmitting, and the passing of time, keep a link well-formed.
pub proof fn transmitting_and_ticking_keep_wf(link: LinkView)
    requires
        link.wf(),
    ensures
        link.transmitted().wf(),
        link.ticked().wf(),
{
    lemma_bodies_fit(link.tx, 0, true);
    transfer::polling_keeps_wf(link.tx);
}

/// A status indication keeps a link well-formed.
proof fn lemma_status_keeps_wf(link: LinkView, status: StatusIndication)
    requires
        link.wf(),
        link.enters_proving(status) ==> link.proving_attempt < u32::MAX,
    ensures
        link.status_received(status).wf(),
{
}

/// An acknowledgement keeps a link in traffic well-formed.
proof fn lemma_acknowledgement_keeps_wf(link: LinkView, header: SuHeader)
    requires
        link.wf(),
        link.in_traffic(),
    ensures
        link.acknowledged(header).wf(),
        link.acknowledged(header).state == link.state,
{
    lemma_bodies_fit(link.tx, header.bsn as int, header.bib);
    transfer::acknowledging_keeps_wf(link.tx, header.bsn as int, header.bib);
}

/// A FISU or MSU keeps a link in traffic well-formed.
proof fn lemma_traffic_keeps_wf(link: LinkView, header: SuHeader, msu: Option<MsuBody>)
    requires
        link.wf(),
        link.in_traffic(),
    ensures
        link.traffic_received(header, msu).wf(),
{
    lemma_acknowledgement_keeps_wf(link, header);
    let acknowledged = link.acknowledged(header);
    assert(acknowledged.peer_back().wf());
    assert(acknowledged.peer_back().peer_free().wf());
}

/// Receiving, correctly or in error, keeps a link well-formed.
pub proof fn receiving_keeps_wf(link: LinkView, su: SignalUnitView)
    requires
        link.wf(),
    ensures
        link.can_receive(su) ==> link.received(su).wf(),
        link.corrupted().wf(),
{
    let counted = link.monitored(false);
    if !(link.in_traffic() && counted.suerm.failed) {
        assert(counted.wf());
        match su {
            SignalUnitView::Lssu { status, .. } => {
                if link.can_receive(su) {
                    lemma_status_keeps_wf(counted, status);
                }
            },
            SignalUnitView::Fisu { header } => {
                lemma_unit_keeps_wf(counted, header, None);
            },
            SignalUnitView::Msu { header, sio, sif } => {
                lemma_unit_keeps_wf(counted, header, Some(MsuBody { sio, sif }));
            },
        }
    }
}

/// A FISU or MSU keeps a link well-formed.
proof fn lemma_unit_keeps_wf(link: LinkView, header: SuHeader, msu: Option<MsuBody>)
    requires
        link.wf(),
    ensures
        link.unit_received(header, msu).wf(),
{
    if link.state is AlignedReady {
        assert(link.in_service().wf());
        lemma_traffic_keeps_wf(link.in_service(), header, msu);
    } else if link.in_traffic() {
        lemma_traffic_keeps_wf(link, header, msu);
    }
}

/// What the history of a link keeps: the events raised so far, the MSUs that wait, and
/// local congestion.
pub open spec fn continues(before: LinkView, after: LinkView) -> bool {
    &&& before.events.is_prefix_of(after.events)
    &&& after.tx.pending == before.tx.pending
    &&& after.local_busy == before.local_busy
}

/// One link continues another over a third.
proof fn lemma_continues(a: LinkView, b: LinkView, c: LinkView)
    requires
        continues(a, b),
        continues(b, c),
    ensures
        continues(a, c),
{
    assert(a.events =~= c.events.subrange(0, a.events.len() as int));
}

/// A status indication adds events at most.
proof fn lemma_status_continues(link: LinkView, status: StatusIndication)
    ensures
        continues(link, link.status_received(status)),
{
    let upgraded = link.upgraded(status);
    assert(continues(link, upgraded));
    if link.state is AlignedReady && status is ProcessorOutage {
        assert(continues(upgraded, upgraded.in_service()));
        assert(continues(upgraded.in_service(), upgraded.in_service().peer_out()));
        lemma_continues(link, upgraded, upgraded.in_service());
        lemma_continues(link, upgraded.in_service(), upgraded.in_service().peer_out());
    } else {
        assert(continues(upgraded, link.status_received(status)));
    }
}

/// A FISU or MSU in traffic adds events at most.
proof fn lemma_traffic_continues(link: LinkView, header: SuHeader, msu: Option<MsuBody>)
    ensures
        continues(link, link.traffic_received(header, msu)),
{
    let a = link.acknowledged(header);
    let b = a.peer_back();
    let c = b.peer_free();
    let d = link.traffic_received(header, msu);
    assert(continues(link, a));
    assert(continues(a, b));
    assert(continues(b, c));
    assert(continues(c, d));
    lemma_continues(link, a, b);
    lemma_continues(link, b, c);
    lemma_continues(link, c, d);
}

/// What a link receives takes no waiting MSU out of the queue and no event back: events
/// are added at the end. Nor does it begin or end local congestion.
pub proof fn receiving_keeps_events_msus_and_congestion(link: LinkView, su: SignalUnitView)
    ensures
        continues(link, link.received(su)),
{
    let counted = link.monitored(false);
    let after = link.received(su);
    assert(continues(link, counted));
    if link.in_traffic() && counted.suerm.failed {
        assert(continues(counted, after));
    } else {
        match su {
            SignalUnitView::Lssu { status, .. } => {
                lemma_status_continues(counted, status);
            },
            SignalUnitView::Fisu { header } => {
                lemma_unit_continues(counted, header, None);
            },
            SignalUnitView::Msu { header, sio, sif } => {
                lemma_unit_continues(counted, header, Some(MsuBody { sio, sif }));
            },
        }
    }
    lemma_continues(link, counted, after);
}

/// A FISU or MSU adds events at most.
proof fn lemma_unit_continues(link: LinkView, header: SuHeader, msu: Option<MsuBody>)
    ensures
        continues(link, link.unit_received(header, msu)),
{
    if link.state is AlignedReady {
        assert(continues(link, link.in_service()));
        lemma_traffic_continues(link.in_service(), header, msu);
        lemma_continues(link, link.in_service(), link.unit_received(header, msu));
    } else if link.in_traffic() {
        lemma_traffic_continues(link, header, msu);
    }
}

/// The start of a link, its stop and the other primitives of level 3 and management keep
/// the events and the MSUs that wait, and local congestion lasts through them; so it is
/// with errors and the passing of time, also where the link fails by them.
pub proof fn primitives_keep_events_msus_and_congestion(link: LinkView, on: bool)
    ensures
        continues(link, link.started()),
        continues(link, link.stopped()),
        continues(link, link.emergency_requested(on)),
        continues(link, link.processor_out()),
        continues(link, link.processor_back()),
        continues(link, link.corrupted()),
        continues(link, link.ticked()),
{
}

/// An MSU that is submitted comes last in the queue, and only a transmission while traffic
/// flows takes one out, from the front and into the retransmission buffer.
pub proof fn msus_leave_the_queue_by_transmission(link: LinkView, body: MsuBody)
    ensures
        link.submitted(body).events == link.events,
        link.submitted(body).tx.pending == link.tx.pending.push(body),
        link.transmitted().events == link.events,
        link.transmitted().local_busy == link.local_busy,
        !link.traffic_flows() ==> link.transmitted().tx == link.tx,
        transfer::outstanding(link.transmitted().tx) == transfer::outstanding(link.tx),
{
    assert(transfer::outstanding(link.transmitted().tx) =~= transfer::outstanding(link.tx));
}

// ── Transmission ────────────────────────────────────────────────────────────────────

/// A powered link always has something to transmit, and a link that is powered off
/// never has.
pub proof fn active_link_always_transmits(link: LinkView)
    requires
        link.wf(),
    ensures
        link.next_unit() is Some <==> link.active,
{
}

/// A stopped link is dark until it is started.
pub proof fn stopped_link_is_dark(link: LinkView, su: SignalUnitView)
    requires
        link.wf(),
    ensures
        link.stopped().state is OutOfService,
        link.stopped().next_unit() is None,
        link.stopped().received(su) == link.stopped(),
        link.stopped().corrupted() == link.stopped(),
        link.stopped().ticked() == link.stopped(),
        link.stopped().started().next_unit() is Some,
{
}

/// What a link transmits can be encoded, as long as it has accepted no FSN outside the
/// 7-bit field.
pub proof fn transmitted_units_encode(link: LinkView)
    requires
        link.wf(),
        link.active,
        link.rx.last_received < 128,
    ensures
        link.next_unit()->0.encoded() is Ok,
        link.next_unit()->0.header().in_range(),
{
    let tx = link.tx;
    match tx.resend_index() {
        Some(i) => {
            assert(tx.unacked[i].fsn == tx.fsn_at(i));
            assert(tx.unacked[i].body.octets() <= MAX_MSU_BODY);
        },
        None => {
            if tx.sends_new() {
                assert(tx.pending[0].octets() <= MAX_MSU_BODY);
            }
        },
    }
}

/// A link that takes only units whose sequence numbers fit their field, as decoded ones
/// do, accepts no FSN outside it, and there is no MSU that it cannot take.
pub proof fn sequence_numbers_stay_in_range(link: LinkView, su: SignalUnitView)
    requires
        link.wf(),
        link.rx.last_received < 128,
        su.header().in_range(),
    ensures
        link.received(su).rx.last_received < 128,
        !(su is Lssu) ==> link.can_receive(su),
        link.started().rx.last_received < 128,
{
}

/// What one link transmits reaches its peer through the wire format unchanged, unless it
/// is an MSU too short for the format.
pub proof fn units_cross_the_wire(link: LinkView)
    requires
        link.wf(),
        link.active,
        link.rx.last_received < 128,
        link.next_unit()->0 is Msu ==> link.next_unit()->0.body().len() >= 3,
    ensures
        link.next_unit()->0.encoded() is Ok,
        SignalUnitView::decoded(link.next_unit()->0.encoded()->Ok_0) == Ok::<
            SignalUnitView,
            Mtp2Error,
        >(link.next_unit()->0),
{
    transmitted_units_encode(link);
    codec::decode_inverts_encode(link.next_unit()->0);
}

/// Traffic is held, and the link kept filled, while either side is busy or out: the
/// transmit side stays as it is, and no MSU is sent.
pub proof fn traffic_is_held(link: LinkView)
    requires
        link.wf(),
        !link.traffic_flows(),
    ensures
        link.transmitted().tx == link.tx,
        !(link.next_unit() matches Some(su) && su is Msu),
        link.state is InService && link.local_busy ==> link.next_unit() == Some(
            link.status_unit(StatusIndication::Busy),
        ),
        link.local_processor_outage && link.in_traffic() ==> link.next_unit() == Some(
            link.status_unit(StatusIndication::ProcessorOutage),
        ),
{
}

// ── Alignment ───────────────────────────────────────────────────────────────────────

/// Only a link out of service starts.
pub proof fn start_is_idle_unless_out_of_service(link: LinkView)
    ensures
        !(link.state is OutOfService) ==> link.started() == link,
        link.started().started() == link.started(),
{
}

/// A request for emergency alignment applies to the next alignment, or to the one under
/// way; a later start is not affected by it.
pub proof fn emergency_request_applies(link: LinkView, emergency: bool)
    requires
        link.wf(),
    ensures
        link.state is OutOfService ==> link.emergency_requested(emergency).started().emergency
            == emergency,
        link.in_traffic() ==> link.emergency_requested(emergency).stopped().started().emergency
            == emergency,
        link.aligning() ==> link.emergency_requested(emergency).emergency == emergency,
        link.aligning() ==> link.emergency_requested(emergency).stopped().started().emergency
            == link.config.emergency,
{
}

/// A link after `n` ticks.
pub open spec fn after_ticks(link: LinkView, n: nat) -> LinkView
    decreases n,
{
    if n == 0 {
        link
    } else {
        after_ticks(link, (n - 1) as nat).ticked()
    }
}

/// The ticks that a timer started with `ticks` runs.
pub open spec fn duration(ticks: u32) -> nat {
    if ticks == 0 {
        1
    } else {
        ticks as nat
    }
}

/// Without an answer of the peer, each phase of the alignment lasts as long as its guard
/// and then fails for its own reason.
pub proof fn unanswered_alignment_fails(link: LinkView, ticks: u32, n: nat)
    requires
        link.wf(),
        link.state is NotAligned && link.t2 == Some(ticks) || link.state is Aligned && link.t3
            == Some(ticks) || link.state is AlignedReady && link.t1 == Some(ticks),
        n <= duration(ticks),
    ensures
        n < duration(ticks) ==> after_ticks(link, n) == (LinkView {
            t1: if link.state is AlignedReady {
                Some((ticks - n) as u32)
            } else {
                None
            },
            t2: if link.state is NotAligned {
                Some((ticks - n) as u32)
            } else {
                None
            },
            t3: if link.state is Aligned {
                Some((ticks - n) as u32)
            } else {
                None
            },
            ..link
        }),
        n == duration(ticks) ==> after_ticks(link, n) == link.alignment_failed(
            if link.state is NotAligned {
                AlignmentFailure::T2Expired
            } else if link.state is Aligned {
                AlignmentFailure::T3Expired
            } else {
                AlignmentFailure::T1Expired
            },
        ),
    decreases n,
{
    if n > 0 {
        unanswered_alignment_fails(link, ticks, (n - 1) as nat);
    }
}

/// A proving period without errors ends after its time and leaves the link ready, or not
/// ready while the local processor is out.
pub proof fn error_free_proving_succeeds(link: LinkView, ticks: u32, n: nat)
    requires
        link.wf(),
        link.state is Proving,
        link.t4 == Some(ticks),
        n <= duration(ticks),
    ensures
        n < duration(ticks) ==> after_ticks(link, n) == (LinkView {
            t4: Some((ticks - n) as u32),
            ..link
        }),
        n == duration(ticks) ==> after_ticks(link, n) == link.proving_succeeded(),
    decreases n,
{
    if n > 0 {
        error_free_proving_succeeds(link, ticks, (n - 1) as nat);
    }
}

/// SIE switches a normal proving period to an emergency one, once: it leaves an emergency
/// period under way as it is.
pub proof fn emergency_indication_switches_proving_once(link: LinkView)
    requires
        link.wf(),
        link.state is Proving,
    ensures
        ({
            let sie = StatusIndication::EmergencyAlignment;
            let after = link.status_received(sie);
            &&& after.state is Proving
            &&& after.emergency_proving
            &&& !link.emergency_proving ==> after.t4 == Some(link.config.t4_proving_emergency)
            &&& link.emergency_proving ==> after == (LinkView { emergency: true, ..link })
            &&& after.status_received(sie) == after
        }),
{
}

/// A link after `n` signal units received in error.
pub open spec fn after_corruption(link: LinkView, n: nat) -> LinkView
    decreases n,
{
    if n == 0 {
        link
    } else {
        after_corruption(link, (n - 1) as nat).corrupted()
    }
}

/// The errors of a proving period abort it at the threshold of its monitor, not before;
/// the link then proves again, or fails when it was the last attempt.
pub proof fn proving_aborts_at_the_threshold(link: LinkView, n: nat)
    requires
        link.wf(),
        link.state is Proving,
        link.aerm.count == 0,
        0 < link.aerm.threshold <= u32::MAX,
        n <= link.aerm.threshold,
    ensures
        ({
            let after = after_corruption(link, n);
            let counted = LinkView {
                aerm: AermView { count: n, ..link.aerm },
                ..link
            };
            &&& n < link.aerm.threshold ==> after == counted
            &&& n == link.aerm.threshold ==> after == if link.proving_attempt
                < link.config.proving_attempts {
                counted.waiting_aligned()
            } else {
                counted.alignment_failed(AlignmentFailure::AermTripped)
            }
        }),
    decreases n,
{
    if n > 0 {
        proving_aborts_at_the_threshold(link, (n - 1) as nat);
    }
}

/// From the start over the status exchange and the proving period to the first FISU of
/// the peer: a link without errors reaches In Service, through every phase in turn.
pub proof fn alignment_reaches_in_service(
    link: LinkView,
    first: SignalUnitView,
    second: SignalUnitView,
    fisu: SignalUnitView,
)
    requires
        link.wf(),
        link.state is OutOfService,
        !link.local_processor_outage,
        first is Lssu,
        first->status is OutOfAlignment || first->status is NormalAlignment || first->status
            is EmergencyAlignment,
        second is Lssu,
        second->status is NormalAlignment || second->status is EmergencyAlignment,
        fisu is Fisu,
    ensures
        ({
            let started = link.started();
            let aligned = started.received(first);
            let proving = aligned.received(second);
            let ready = after_ticks(proving, duration(proving.t4->0));
            let serving = ready.received(fisu);
            &&& started.state is NotAligned
            &&& started.next_unit() == Some(
                started.status_unit(StatusIndication::OutOfAlignment),
            )
            &&& started.can_receive(first)
            &&& aligned.state is Aligned
            &&& aligned.can_receive(second)
            &&& proving.state is Proving
            &&& proving.t4 == Some(
                if proving.emergency {
                    link.config.t4_proving_emergency
                } else {
                    link.config.t4_proving_normal
                },
            )
            &&& ready.state is AlignedReady
            &&& ready.next_unit() matches Some(SignalUnitView::Fisu { .. })
            &&& ready.can_receive(fisu)
            &&& serving.state is InService
            &&& serving.events == link.events.push(EventView::InService)
        }),
{
    let started = link.started();
    let aligned = started.received(first);
    let proving = aligned.received(second);
    primitives_keep_wf(link.config, link, MsuBody { sio: 0, sif: seq![] }, true);
    receiving_keeps_wf(started, first);
    receiving_keeps_wf(aligned, second);
    error_free_proving_succeeds(proving, proving.t4->0, duration(proving.t4->0));
}

// ── Service ─────────────────────────────────────────────────────────────────────────

/// The recovery of the local processor undoes its outage: a link in service is as it was
/// before, a link that is ready has T1 started anew.
pub proof fn processor_recovery_undoes_outage(link: LinkView)
    requires
        link.wf(),
        !link.local_processor_outage,
    ensures
        link.processor_out().processor_back() == if link.state is AlignedReady {
            LinkView { t1: Some(link.config.t1_aligned_ready), ..link }
        } else {
            link
        },
{
}

/// A guard after `n` ticks in which it does not expire.
pub open spec fn ticked_down(timer: Option<u32>, n: nat) -> Option<u32> {
    match timer {
        Some(ticks) => Some((ticks - n) as u32),
        None => None,
    }
}

/// Whether T6 is the guard that expires first, or with T7.
pub open spec fn t6_is_first(link: LinkView) -> bool {
    link.t6 is Some && (link.t7 is None || duration(link.t6->0) <= duration(link.t7->0))
}

/// A peer that stays busy, or does not acknowledge, fails the link when the guard that
/// expires first does, and not before, if nothing is received.
pub proof fn guards_fail_a_link_in_traffic(link: LinkView, n: nat)
    requires
        link.wf(),
        link.in_traffic(),
        link.t6 is Some || link.t7 is Some,
    ensures
        ({
            let after = after_ticks(link, n);
            let ticks = if t6_is_first(link) {
                link.t6->0
            } else {
                link.t7->0
            };
            &&& n < duration(ticks) ==> after == (LinkView {
                t6: ticked_down(link.t6, n),
                t7: ticked_down(link.t7, n),
                ..link
            })
            &&& n == duration(ticks) ==> after == link.traffic_failed(
                if t6_is_first(link) {
                    OutOfServiceReason::T6Expired
                } else {
                    OutOfServiceReason::T7Expired
                },
            )
        }),
    decreases n,
{
    if n > 0 {
        guards_fail_a_link_in_traffic(link, (n - 1) as nat);
    }
}

/// A link after `n` rounds, in each of which it receives a unit and time passes by a tick.
pub open spec fn after_rounds(link: LinkView, su: SignalUnitView, n: nat) -> LinkView
    decreases n,
{
    if n == 0 {
        link
    } else {
        after_rounds(link, su, (n - 1) as nat).received(su).ticked()
    }
}

/// A peer that stays busy fails the link when T6 expires, however often it says so.
pub proof fn busy_peer_fails_the_link(link: LinkView, su: SignalUnitView, ticks: u32, n: nat)
    requires
        link.wf(),
        link.in_traffic(),
        link.suerm.threshold > 0,
        su is Lssu,
        su->status is Busy,
        link.t6 == Some(ticks),
        link.t7 is None,
        n <= duration(ticks),
    ensures
        ({
            let after = after_rounds(link, su, n);
            &&& n < duration(ticks) ==> after == (LinkView {
                suerm: after.suerm,
                t6: Some((ticks - n) as u32),
                ..link
            }) && after.wf()
            &&& n == duration(ticks) ==> after.state is OutOfService && after.events
                == link.events.push(EventView::OutOfService(OutOfServiceReason::T6Expired))
        }),
    decreases n,
{
    if n > 0 {
        let before = after_rounds(link, su, (n - 1) as nat);
        busy_peer_fails_the_link(link, su, ticks, (n - 1) as nat);
        receiving_keeps_wf(before, su);
        transmitting_and_ticking_keep_wf(before.received(su));
    }
}

/// A peer that acknowledges nothing new fails the link when T7 expires, however many
/// units it sends.
pub proof fn unacknowledging_peer_fails_the_link(
    link: LinkView,
    header: SuHeader,
    ticks: u32,
    n: nat,
)
    requires
        link.wf(),
        link.in_traffic(),
        link.suerm.threshold > 0,
        link.t7 == Some(ticks),
        link.t6 is None,
        link.tx.acknowledged(header.bsn as int) == 0,
        n <= duration(ticks),
    ensures
        ({
            let after = after_rounds(link, SignalUnitView::Fisu { header }, n);
            &&& n < duration(ticks) ==> {
                &&& after.wf()
                &&& after.state == link.state
                &&& after.suerm.threshold == link.suerm.threshold
                &&& after.t6 is None
                &&& after.t7 == Some((ticks - n) as u32)
                &&& after.tx.unacked == link.tx.unacked
            }
            &&& n == duration(ticks) ==> after.state is OutOfService && after.events.last()
                == EventView::OutOfService(OutOfServiceReason::T7Expired)
        }),
    decreases n,
{
    if n > 0 {
        let su = SignalUnitView::Fisu { header };
        let before = after_rounds(link, su, (n - 1) as nat);
        unacknowledging_peer_fails_the_link(link, header, ticks, (n - 1) as nat);
        assert(before.tx.acknowledged(header.bsn as int) == 0);
        assert(before.tx.unacked.skip(0) =~= before.tx.unacked);
        receiving_keeps_wf(before, su);
        transmitting_and_ticking_keep_wf(before.received(su));
    }
}

/// What a status of the peer does to a link in traffic: SIOS and a restart of the
/// alignment fail it, each for its own reason; SIPO and SIB leave it in its state and
/// put the condition on record, with an event if it was not there.
pub proof fn statuses_in_traffic(link: LinkView, status: StatusIndication)
    requires
        link.wf(),
        link.in_traffic(),
    ensures
        ({
            let after = link.status_received(status);
            &&& status is OutOfService ==> after == link.traffic_failed(
                OutOfServiceReason::ReceivedSios,
            )
            &&& status is OutOfAlignment || status is NormalAlignment
                || status is EmergencyAlignment ==> after == link.traffic_failed(
                OutOfServiceReason::AlignmentLost,
            )
            &&& status is ProcessorOutage ==> after.state == link.state
                && after.remote_processor_outage && after.events == if link.remote_processor_outage {
                link.events
            } else {
                link.events.push(EventView::RemoteProcessorOutage)
            }
            &&& status is Busy ==> after.state == link.state && after.remote_busy && after.events
                == if link.remote_busy {
                link.events
            } else {
                link.events.push(EventView::RemoteBusy)
            }
        }),
{
}

/// A link after a run of units.
pub open spec fn after_units(link: LinkView, units: Seq<SignalUnitView>) -> LinkView
    decreases units.len(),
{
    if units.len() == 0 {
        link
    } else {
        after_units(link, units.drop_last()).received(units.last())
    }
}

/// How often an event was raised.
pub open spec fn times(events: Seq<EventView>, event: EventView) -> nat
    decreases events.len(),
{
    if events.len() == 0 {
        0
    } else {
        times(events.drop_last(), event) + if events.last() == event {
            1nat
        } else {
            0nat
        }
    }
}

/// One more event counts once.
proof fn lemma_times(events: Seq<EventView>, raised: EventView, event: EventView)
    ensures
        times(events.push(raised), event) == times(events, event) + if raised == event {
            1nat
        } else {
            0nat
        },
{
    assert(events.push(raised).drop_last() =~= events);
}

/// Whether a unit is an LSSU with this status.
pub open spec fn shows(su: SignalUnitView, status: StatusIndication) -> bool {
    su is Lssu && su->status == status
}

/// Whether a run of units shows a status.
pub open spec fn run_shows(units: Seq<SignalUnitView>, status: StatusIndication) -> bool
    decreases units.len(),
{
    units.len() > 0 && (shows(units.last(), status) || run_shows(units.drop_last(), status))
}

/// A link in traffic stays in its state through a run of SIPO and SIB units, and announces
/// an outage and a congestion of the peer once each, at most.
pub proof fn remote_conditions_are_announced_once(link: LinkView, units: Seq<SignalUnitView>)
    requires
        link.wf(),
        link.in_traffic(),
        link.suerm.threshold > 0,
        forall|i: int|
            0 <= i < units.len() ==> shows(#[trigger] units[i], StatusIndication::ProcessorOutage)
                || shows(units[i], StatusIndication::Busy),
    ensures
        ({
            let after = after_units(link, units);
            let out = EventView::RemoteProcessorOutage;
            let busy = EventView::RemoteBusy;
            &&& after.wf()
            &&& after.state == link.state
            &&& after.suerm.threshold == link.suerm.threshold
            &&& after.remote_processor_outage <==> link.remote_processor_outage || run_shows(
                units,
                StatusIndication::ProcessorOutage,
            )
            &&& after.remote_busy <==> link.remote_busy || run_shows(units, StatusIndication::Busy)
            &&& times(after.events, out) == times(link.events, out)
                + if after.remote_processor_outage && !link.remote_processor_outage {
                1nat
            } else {
                0nat
            }
            &&& times(after.events, busy) == times(link.events, busy) + if after.remote_busy
                && !link.remote_busy {
                1nat
            } else {
                0nat
            }
        }),
    decreases units.len(),
{
    if units.len() > 0 {
        let before = after_units(link, units.drop_last());
        assert forall|i: int| 0 <= i < units.len() - 1 implies shows(
            #[trigger] units.drop_last()[i],
            StatusIndication::ProcessorOutage,
        ) || shows(units.drop_last()[i], StatusIndication::Busy) by {
            assert(units.drop_last()[i] == units[i]);
        }
        remote_conditions_are_announced_once(link, units.drop_last());
        receiving_keeps_wf(before, units.last());
        let last = units[units.len() - 1];
        assert(last == units.last());
        let raised = if shows(last, StatusIndication::Busy) {
            EventView::RemoteBusy
        } else {
            EventView::RemoteProcessorOutage
        };
        lemma_times(before.events, raised, EventView::RemoteProcessorOutage);
        lemma_times(before.events, raised, EventView::RemoteBusy);
    }
}

/// Outstanding MSUs of a link in traffic are always guarded by T7, and T7 guards nothing
/// else.
pub proof fn outstanding_msus_are_guarded(link: LinkView)
    requires
        link.wf(),
    ensures
        link.t7 is Some <==> link.in_traffic() && link.tx.unacked.len() > 0,
{
}

/// The errors of a link in service fail it at the threshold of its monitor, not before,
/// as long as no leak comes in between.
pub proof fn errors_fail_a_link_at_the_threshold(link: LinkView, n: nat)
    requires
        link.wf(),
        link.in_traffic(),
        link.suerm.count == 0,
        link.suerm.received_since_leak == 0,
        0 < link.suerm.threshold < link.suerm.decrement_interval,
        n <= link.suerm.threshold,
    ensures
        n < link.suerm.threshold ==> after_corruption(link, n).state == link.state,
        n == link.suerm.threshold ==> after_corruption(link, n).state is OutOfService
            && after_corruption(link, n).events == link.events.push(
            EventView::OutOfService(OutOfServiceReason::SuermFailure),
        ),
        n < link.suerm.threshold ==> after_corruption(link, n) == (LinkView {
            suerm: SuermView { count: n, received_since_leak: n, ..link.suerm },
            ..link
        }),
    decreases n,
{
    if n > 0 {
        errors_fail_a_link_at_the_threshold(link, (n - 1) as nat);
    }
}

/// The MSUs among events, in order.
pub open spec fn msus(events: Seq<EventView>) -> Seq<MsuBody>
    decreases events.len(),
{
    if events.len() == 0 {
        seq![]
    } else {
        let earlier = msus(events.drop_last());
        match events.last() {
            EventView::Msu(body) => earlier.push(body),
            _ => earlier,
        }
    }
}

/// The MSUs of a link that raises one more event.
proof fn lemma_raised(link: LinkView, event: EventView)
    ensures
        msus(link.raised(event).events) == match event {
            EventView::Msu(body) => msus(link.events).push(body),
            _ => msus(link.events),
        },
{
    assert(link.raised(event).events.drop_last() =~= link.events);
}

/// A link in service hands to level 3 exactly the MSUs that its receive side accepts, and
/// takes every acknowledgement over to its transmit side. While the local processor is
/// out it hands over none, and does not acknowledge them either.
pub proof fn link_delivers_what_it_accepts(link: LinkView, header: SuHeader, msu: Option<MsuBody>)
    requires
        link.wf(),
        link.in_traffic(),
        link.suerm.threshold > 0,
    ensures
        ({
            let after = match msu {
                Some(body) => link.received(
                    SignalUnitView::Msu { header, sio: body.sio, sif: body.sif },
                ),
                None => link.received(SignalUnitView::Fisu { header }),
            };
            let checked = msu is Some && link.state is InService;
            &&& after.state == link.state
            &&& after.tx == link.tx.acked(header.bsn as int, header.bib)
            &&& after.rx == if checked {
                link.rx.received(header.fsn as int)
            } else {
                link.rx
            }
            &&& msus(after.events) == if checked && link.rx.is_next(header.fsn as int) {
                msus(link.events).push(msu->0)
            } else {
                msus(link.events)
            }
        }),
{
    let counted = link.monitored(false);
    let acknowledged = counted.acknowledged(header);
    let heard = acknowledged.peer_back();
    if acknowledged.remote_processor_outage {
        lemma_raised(
            LinkView { remote_processor_outage: false, ..acknowledged },
            EventView::RemoteProcessorRecovered,
        );
    }
    if heard.remote_busy {
        lemma_raised(
            LinkView { remote_busy: false, t6: None, ..heard },
            EventView::RemoteBusyEnded,
        );
    }
    let heard = heard.peer_free();
    let after = counted.traffic_received(header, msu);
    if msu is Some && link.state is InService {
        let checked = LinkView { rx: heard.rx.received(header.fsn as int), ..heard };
        lemma_raised(checked, EventView::Msu(msu->0));
        lemma_raised(checked, EventView::RetransmissionRequested);
    }
}

/// Two links begin a transfer when they start, with the MSUs that waited at the one.
pub proof fn started_links_begin_a_transfer(a: LinkView, b: LinkView)
    requires
        a.wf(),
        b.wf(),
        a.state is OutOfService,
        b.state is OutOfService,
    ensures
        (Transfer {
            tx: a.started().tx,
            rx: b.started().rx,
            submitted: a.tx.pending,
            delivered: seq![],
            acknowledged: 0,
        }).inv(),
{
    let tx = a.started().tx;
    assert(transfer::outstanding(tx) =~= a.tx.pending);
    assert(a.tx.pending =~= a.tx.pending.take(0) + transfer::outstanding(tx));
    assert(a.tx.pending.take(0) =~= seq![]);
}

/// Two links in service carry a transfer between them: what the one transmits and the
/// other receives is a step of their transmit and receive sides, with everything that is
/// delivered raised as an event; and a unit back is an acknowledgement. So whatever holds
/// of every transfer holds of the links.
pub proof fn links_carry_a_transfer(a: LinkView, b: LinkView, t: Transfer)
    requires
        a.wf(),
        b.wf(),
        a.traffic_flows(),
        b.traffic_flows(),
        a.suerm.threshold > 0,
        b.suerm.threshold > 0,
        t.tx == a.tx,
        t.rx == b.rx,
        t.inv(),
    ensures
        ({
            let there = t.after(Step::Send { arrives: true });
            let back = t.after(
                Step::Acknowledge { delivered: t.delivered.len() as int, bib: b.rx.bib },
            );
            &&& a.next_unit() is Some
            &&& a.transmitted().tx == there.tx
            &&& b.received(a.next_unit()->0).rx == there.rx
            &&& msus(b.received(a.next_unit()->0).events) == msus(b.events)
                + there.delivered.skip(t.delivered.len() as int)
            &&& b.next_unit() is Some
            &&& a.received(b.next_unit()->0).tx == back.tx
        }),
{
    let frame = a.tx.next_frame();
    match a.tx.resend_index() {
        Some(i) => {
            assert(a.tx.unacked[i].fsn == a.tx.fsn_at(i));
        },
        None => {},
    }
    let there = t.after(Step::Send { arrives: true });
    let header = a.next_unit()->0.header();
    match frame.body {
        TxBodyView::Msu(body) => {
            link_delivers_what_it_accepts(b, header, Some(body));
            if b.rx.is_next(header.fsn as int) {
                assert(there.delivered.skip(t.delivered.len() as int) =~= seq![body]);
                assert(msus(b.events).push(body) =~= msus(b.events) + seq![body]);
            } else {
                assert(there.delivered.skip(t.delivered.len() as int) =~= seq![]);
                assert(msus(b.events) =~= msus(b.events) + seq![]);
            }
        },
        TxBodyView::Fisu => {
            link_delivers_what_it_accepts(b, header, None);
            assert(there.delivered.skip(t.delivered.len() as int) =~= seq![]);
            assert(msus(b.events) =~= msus(b.events) + seq![]);
        },
    }
    let reply = b.next_unit()->0;
    let msu = match b.tx.next_frame().body {
        TxBodyView::Msu(body) => Some(body),
        TxBodyView::Fisu => None,
    };
    link_delivers_what_it_accepts(a, reply.header(), msu);
}

/// A link under PCR never asks for a retransmission.
pub proof fn pcr_link_never_requests_retransmission(link: LinkView, su: SignalUnitView)
    requires
        link.wf(),
        link.config.method is Pcr,
    ensures
        !link.received(su).events.skip(link.events.len() as int).contains(
            EventView::RetransmissionRequested,
        ),
{
}

/// The first FISU or MSU after an outage or congestion of the peer ends it, with an event
/// each.
pub proof fn traffic_ends_remote_conditions(
    link: LinkView,
    header: SuHeader,
    msu: Option<MsuBody>,
)
    requires
        link.wf(),
        link.in_traffic(),
        link.suerm.threshold > 0,
    ensures
        ({
            let after = match msu {
                Some(body) => link.received(
                    SignalUnitView::Msu { header, sio: body.sio, sif: body.sif },
                ),
                None => link.received(SignalUnitView::Fisu { header }),
            };
            let new = after.events.skip(link.events.len() as int);
            &&& !after.remote_processor_outage
            &&& !after.remote_busy
            &&& after.t6 is None
            &&& new.contains(EventView::RemoteProcessorRecovered) <==> link.remote_processor_outage
            &&& new.contains(EventView::RemoteBusyEnded) <==> link.remote_busy
        }),
{
    let after = link.monitored(false).traffic_received(header, msu);
    let new = after.events.skip(link.events.len() as int);
    let ended: int = if link.remote_processor_outage {
        assert(new[0] == EventView::RemoteProcessorRecovered);
        1
    } else {
        0
    };
    if link.remote_busy {
        assert(new[ended] == EventView::RemoteBusyEnded);
    }
}

// ── Two links back to back ──────────────────────────────────────────────────────────

/// Two links after one cycle: each transmits one unit to the other, then both tick.
pub open spec fn cycled(pair: (LinkView, LinkView)) -> (LinkView, LinkView) {
    let (a, b) = pair;
    (
        match b.next_unit() {
            Some(su) => a.transmitted().received(su).ticked(),
            None => a.transmitted().ticked(),
        },
        match a.next_unit() {
            Some(su) => b.transmitted().received(su).ticked(),
            None => b.transmitted().ticked(),
        },
    )
}

/// Two links after `n` cycles.
pub open spec fn after_cycles(pair: (LinkView, LinkView), n: nat) -> (LinkView, LinkView)
    decreases n,
{
    if n == 0 {
        pair
    } else {
        cycled(after_cycles(pair, (n - 1) as nat))
    }
}

/// A newly started link, with a guard in Aligned that outlasts one cycle.
pub open spec fn newly_started(link: LinkView) -> bool {
    &&& link.wf()
    &&& link.state is NotAligned
    &&& !link.local_processor_outage
    &&& link.proving_attempt == 0
    &&& link.config.t3_aligned >= 2
}

/// The proving period of a pair of links: an emergency one as soon as one of them asks for
/// it.
pub open spec fn common_period(a: LinkView, b: LinkView) -> u32 {
    if a.emergency || b.emergency {
        a.config.t4_proving_emergency
    } else {
        a.config.t4_proving_normal
    }
}

/// The progress of a link of a pair in its `n`-th cycle, up to the end of proving, which is
/// an emergency one or not and lasts `t4`.
spec fn on_the_way(link: LinkView, n: nat, emergency: bool, t4: u32) -> bool {
    &&& link.wf()
    &&& !link.local_processor_outage
    &&& t4 == if emergency {
        link.config.t4_proving_emergency
    } else {
        link.config.t4_proving_normal
    }
    &&& link.config.t3_aligned >= 2
    &&& n == 0 ==> link.state is NotAligned && link.proving_attempt == 0
    &&& n == 1 ==> link.state is Aligned && link.proving_attempt == 0
    &&& n >= 2 ==> link.emergency == emergency && link.emergency_proving == emergency
    &&& 2 <= n < 1 + duration(t4) ==> link.state is Proving && link.t4 == Some(
        (t4 - (n - 1)) as u32,
    )
    &&& n >= 2 && n == 1 + duration(t4) ==> link.state is AlignedReady
}

/// One cycle moves the links of a pair on.
proof fn lemma_cycle(a: LinkView, b: LinkView, n: nat, emergency: bool, t4: u32)
    requires
        on_the_way(a, n, emergency, t4),
        on_the_way(b, n, emergency, t4),
        n <= 1 ==> emergency == (a.emergency || b.emergency),
        n < 1 + duration(t4),
    ensures
        on_the_way(cycled((a, b)).0, n + 1, emergency, t4),
        n == 0 ==> cycled((a, b)).0.emergency == a.emergency,
        cycled((a, b)).0.config == a.config,
        cycled((a, b)).0.events == a.events,
{
    transmitting_and_ticking_keep_wf(a);
    let su = b.next_unit()->0;
    receiving_keeps_wf(a.transmitted(), su);
    transmitting_and_ticking_keep_wf(a.transmitted().received(su));
}

/// After `n` cycles both links of a pair are on their way.
proof fn lemma_cycles(a: LinkView, b: LinkView, n: nat)
    requires
        newly_started(a),
        newly_started(b),
        a.config.t4_proving_normal == b.config.t4_proving_normal,
        a.config.t4_proving_emergency == b.config.t4_proving_emergency,
        n <= 1 + duration(common_period(a, b)),
    ensures
        ({
            let (c, d) = after_cycles((a, b), n);
            let emergency = a.emergency || b.emergency;
            &&& on_the_way(c, n, emergency, common_period(a, b))
            &&& on_the_way(d, n, emergency, common_period(a, b))
            &&& n <= 1 ==> c.emergency == a.emergency && d.emergency == b.emergency
            &&& c.events == a.events
            &&& d.events == b.events
        }),
    decreases n,
{
    if n > 0 {
        let k = (n - 1) as nat;
        lemma_cycles(a, b, k);
        let (c, d) = after_cycles((a, b), k);
        let emergency = a.emergency || b.emergency;
        lemma_cycle(c, d, k, emergency, common_period(a, b));
        lemma_cycle(d, c, k, emergency, common_period(a, b));
    }
}

/// Two links with the same proving periods, wired back to back and started, reach In
/// Service together: two cycles after the proving period, and with no other event. The
/// period is the emergency one if one of them or both align in emergency.
pub proof fn two_links_reach_in_service(a: LinkView, b: LinkView)
    requires
        newly_started(a),
        newly_started(b),
        a.config.t4_proving_normal == b.config.t4_proving_normal,
        a.config.t4_proving_emergency == b.config.t4_proving_emergency,
    ensures
        ({
            let (c, d) = after_cycles((a, b), duration(common_period(a, b)) + 2);
            &&& c.state is InService
            &&& d.state is InService
            &&& c.events == a.events.push(EventView::InService)
            &&& d.events == b.events.push(EventView::InService)
        }),
{
    let n = duration(common_period(a, b)) + 1;
    lemma_cycles(a, b, n);
    let (c, d) = after_cycles((a, b), n);
    transmitting_and_ticking_keep_wf(c);
    transmitting_and_ticking_keep_wf(d);
}

/// An MSU submitted to one link in service comes out of the other intact: with no other
/// MSU waiting and no retransmission under way or forced, it is the next unit the one
/// transmits, and the other raises it as an event on receipt.
pub proof fn submitted_msu_comes_out_of_the_peer(a: LinkView, b: LinkView, body: MsuBody)
    requires
        a.wf(),
        b.wf(),
        a.traffic_flows(),
        b.state is InService,
        b.suerm.threshold > 0,
        a.config.method is Basic ==> a.tx.resend_index() is None,
        a.tx.pending.len() == 0,
        !a.tx.forced(),
        b.rx.last_received == a.tx.last_fsn,
        body.octets() <= MAX_MSU_BODY,
    ensures
        ({
            let sending = a.submitted(body);
            let su = sending.next_unit()->0;
            &&& sending.next_unit() is Some
            &&& su matches SignalUnitView::Msu { sio, sif, .. } && sio == body.sio && sif
                == body.sif
            &&& b.can_receive(su)
            &&& b.received(su).events.last() == EventView::Msu(body)
            &&& b.received(su).rx.last_received == sending.transmitted().tx.last_fsn
        }),
{
    let sending = a.submitted(body);
    assert(sending.tx.pending[0] == body);
    assert(sending.tx.sends_new());
}

} // verus!
