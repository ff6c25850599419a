//! Laws of error correction: what the transmit and receive sides do together.

use vstd::prelude::*;

use crate::retransmission::{
    MsuBody, PcrParams, RetransmissionMethod, RxControlView, RxOutcome, RxOutcomeView, SentMsu,
    TxBody, TxBodyView, TxControlView, TxFrame, TxFrameView,
};
use crate::retransmission;

verus! {

/// The payloads of a retransmission buffer.
pub open spec fn payloads(buffer: Seq<SentMsu>) -> Seq<MsuBody> {
    buffer.map_values(|m: SentMsu| m.body)
}

/// All MSUs that a transmit side has taken over and that are not acknowledged, in the
/// order in which they were submitted.
pub open spec fn outstanding(tx: TxControlView) -> Seq<MsuBody> {
    payloads(tx.unacked) + tx.pending
}

/// Queueing keeps a transmit side well-formed.
pub proof fn submitting_keeps_wf(tx: TxControlView, body: MsuBody)
    requires
        tx.wf(),
    ensures
        tx.submitted(body).wf(),
{
    let after = tx.submitted(body);
    assert forall|i: int| 0 <= i < after.unacked.len() implies (
    #[trigger] after.unacked[i]).fsn == after.fsn_at(i) by {
        assert(tx.unacked[i].fsn == tx.fsn_at(i));
    }
}

/// Sending keeps a transmit side well-formed.
pub proof fn polling_keeps_wf(tx: TxControlView)
    requires
        tx.wf(),
    ensures
        tx.polled().wf(),
{
    if tx.sends_new() {
        retransmission::lemma_push_keeps_numbers(tx);
        let sent = tx.with_new_sent();
        assert forall|i: int| 0 <= i < sent.unacked.len() implies (
        #[trigger] tx.polled().unacked[i]).fsn == tx.polled().fsn_at(i) by {
            assert(sent.unacked[i].fsn == sent.fsn_at(i));
        }
    } else {
        assert forall|i: int| 0 <= i < tx.unacked.len() implies (
        #[trigger] tx.polled().unacked[i]).fsn == tx.polled().fsn_at(i) by {
            assert(tx.unacked[i].fsn == tx.fsn_at(i));
        }
    }
}

/// An acknowledgement keeps a transmit side well-formed.
pub proof fn acknowledging_keeps_wf(tx: TxControlView, bsn: int, bib: bool)
    requires
        tx.wf(),
        0 <= bsn < 256,
    ensures
        tx.acked(bsn, bib).wf(),
        0 <= tx.acknowledged(bsn) <= tx.unacked.len(),
{
    let after = tx.acked(bsn, bib);
    let freed = tx.acknowledged(bsn);
    retransmission::lemma_skip_keeps_numbers(tx, freed);
    let shorter = TxControlView { unacked: tx.unacked.skip(freed), ..tx };
    assert forall|i: int| 0 <= i < after.unacked.len() implies (
    #[trigger] after.unacked[i]).fsn == after.fsn_at(i) by {
        assert(shorter.unacked[i].fsn == shorter.fsn_at(i));
    }
}

/// A submitted MSU comes last, sending neither loses nor reorders an MSU, and an
/// acknowledgement takes away only the oldest MSUs that were sent.
pub proof fn no_msu_is_lost(tx: TxControlView, body: MsuBody, bsn: int, bib: bool)
    requires
        tx.wf(),
        0 <= bsn < 256,
    ensures
        outstanding(tx.submitted(body)) == outstanding(tx).push(body),
        outstanding(tx.polled()) == outstanding(tx),
        0 <= tx.acknowledged(bsn) <= tx.unacked.len(),
        outstanding(tx.acked(bsn, bib)) == outstanding(tx).skip(tx.acknowledged(bsn)),
{
    assert(outstanding(tx.submitted(body)) =~= outstanding(tx).push(body));
    assert(outstanding(tx.polled()) =~= outstanding(tx));
    assert(outstanding(tx.acked(bsn, bib)) =~= outstanding(tx).skip(tx.acknowledged(bsn)));
}

/// What a BSN frees. The number just before the oldest buffered MSU frees nothing.
/// Otherwise, where a buffered MSU has the number, it frees the MSUs up to and with the
/// first such one, however many they are. Otherwise it frees everything if it is ahead of
/// the oldest by less than half the sequence space, and nothing if not.
pub proof fn acknowledgement_frees_up_to_its_number(tx: TxControlView, bsn: int)
    requires
        tx.wf(),
        0 <= bsn < 256,
        tx.unacked.len() > 0,
    ensures
        ({
            let freed = tx.acknowledged(bsn);
            let oldest = tx.unacked[0].fsn;
            let held = exists|i: int|
                0 <= i < tx.unacked.len() && (#[trigger] tx.unacked[i]).fsn == bsn % 128;
            if retransmission::next_number(bsn) == oldest {
                freed == 0
            } else if held {
                &&& 0 < freed <= tx.unacked.len()
                &&& tx.unacked[freed - 1].fsn == bsn % 128
                &&& forall|i: int|
                    0 <= i < freed - 1 ==> (#[trigger] tx.unacked[i]).fsn != bsn % 128
            } else {
                freed == if retransmission::distance(bsn, oldest) < 64 {
                    tx.unacked.len() as int
                } else {
                    0
                }
            }
        }),
{
    let oldest = tx.unacked[0].fsn;
    let ahead = retransmission::distance(bsn, oldest);
    assert(oldest == tx.fsn_at(0));
    lemma_number_before(bsn, oldest);
    assert forall|i: int| 0 <= i < tx.unacked.len() && i <= ahead implies ((
    #[trigger] tx.unacked[i]).fsn == bsn % 128 <==> i == ahead) by {
        retransmission::lemma_distance_at(tx, bsn, i);
        assert(tx.unacked[i].fsn == tx.fsn_at(i));
        lemma_same_number(bsn, tx.unacked[i].fsn);
        lemma_around(ahead - i);
    }
    if ahead < tx.unacked.len() {
        assert(tx.unacked[ahead].fsn == bsn % 128);
    }
}

/// The number just before another is at distance 127 from it.
proof fn lemma_number_before(bsn: int, fsn: int)
    requires
        0 <= fsn < 128,
    ensures
        retransmission::next_number(bsn) == fsn <==> retransmission::distance(bsn, fsn) == 127,
{
}

/// Two sequence numbers are at distance zero exactly when they are the same.
proof fn lemma_same_number(bsn: int, fsn: int)
    requires
        0 <= fsn < 128,
    ensures
        retransmission::distance(bsn, fsn) == 0 <==> fsn == bsn % 128,
{
}

/// An acknowledgement that comes again frees nothing more and changes nothing else, as
/// every unit of the peer repeats the last one.
pub proof fn repeated_acknowledgement_changes_nothing(tx: TxControlView, bsn: int, bib: bool)
    requires
        tx.wf(),
        0 <= bsn < 256,
    ensures
        tx.acked(bsn, bib).acknowledged(bsn) == 0,
        tx.acked(bsn, bib).acked(bsn, bib) == tx.acked(bsn, bib),
{
    let freed = tx.acknowledged(bsn);
    let after = tx.acked(bsn, bib);
    if 0 < freed < tx.unacked.len() {
        assert(after.unacked[0] == tx.unacked[freed]);
        retransmission::lemma_distance_at(tx, bsn, freed);
        lemma_around(-1);
    } else if freed == 0 {
        assert(after.unacked =~= tx.unacked);
    }
    assert(after.unacked.skip(0) =~= after.unacked);
}

/// A transmit side after `n` frames.
pub open spec fn after_polls(tx: TxControlView, n: nat) -> TxControlView
    decreases n,
{
    if n == 0 {
        tx
    } else {
        after_polls(tx, (n - 1) as nat).polled()
    }
}

/// The frame that a transmit side sends after `n` others.
pub open spec fn frame(tx: TxControlView, n: nat) -> TxFrameView {
    after_polls(tx, n).next_frame()
}

/// Basic method: a negative acknowledgement is answered with everything in the buffer,
/// oldest first, under the FIB that the peer asked for; then the retransmission is over.
pub proof fn negative_acknowledgement_resends_everything(
    tx: TxControlView,
    bsn: int,
    bib: bool,
    n: nat,
)
    requires
        tx.wf(),
        0 <= bsn < 256,
        tx.is_nack(bib),
        n <= tx.acked(bsn, bib).unacked.len(),
    ensures
        ({
            let buffer = tx.acked(bsn, bib).unacked;
            let after = after_polls(tx.acked(bsn, bib), n);
            &&& after.unacked == buffer
            &&& after.pending == tx.pending
            &&& after.fib == bib
            &&& n < buffer.len() ==> after.next_frame() == (TxFrameView {
                fsn: buffer[n as int].fsn,
                fib: bib,
                body: TxBodyView::Msu(buffer[n as int].body),
            })
            &&& n == buffer.len() ==> after.resend_index() is None
            &&& buffer.len() > 0 ==> after == (TxControlView {
                basic_cursor: Some(n as int),
                ..tx.acked(bsn, bib)
            })
        }),
    decreases n,
{
    acknowledging_keeps_wf(tx, bsn, bib);
    if n > 0 {
        negative_acknowledgement_resends_everything(tx, bsn, bib, (n - 1) as nat);
    } else if tx.acked(bsn, bib).unacked.len() == 0 {
        assert(tx.acked(bsn, bib).resend_index() is None);
    }
}

/// The MSUs that a retransmission under way has still to send.
pub open spec fn to_resend(tx: TxControlView) -> Seq<SentMsu> {
    match tx.basic_cursor {
        Some(c) => tx.unacked.skip(c),
        None => seq![],
    }
}

/// Basic method: an acknowledgement that is not negative leaves a retransmission under
/// way at its place: of what it has still to send only acknowledged MSUs are left out.
pub proof fn acknowledgement_keeps_the_retransmission(tx: TxControlView, bsn: int)
    requires
        tx.wf(),
        0 <= bsn < 256,
        tx.basic_cursor is Some,
    ensures
        ({
            let sent = tx.basic_cursor->0;
            let freed = tx.acknowledged(bsn);
            to_resend(tx.acked(bsn, tx.fib)) == if freed <= sent {
                to_resend(tx)
            } else {
                to_resend(tx).skip(freed - sent)
            }
        }),
{
    let sent = tx.basic_cursor->0;
    let freed = tx.acknowledged(bsn);
    if freed <= sent {
        assert(to_resend(tx.acked(bsn, tx.fib)) =~= to_resend(tx));
    } else {
        assert(to_resend(tx.acked(bsn, tx.fib)) =~= to_resend(tx).skip(freed - sent));
    }
}

/// Whether a transmit side under PCR has nothing to send but its buffer.
pub open spec fn cycling(tx: TxControlView) -> bool {
    &&& tx.method is Pcr
    &&& tx.unacked.len() > 0
    &&& tx.pending.len() == 0 || tx.forced()
}

/// Where the cyclic sweep goes on.
pub open spec fn sweep_start(tx: TxControlView) -> int {
    if tx.pcr_cursor < tx.unacked.len() {
        tx.pcr_cursor
    } else {
        0
    }
}

/// PCR: with no new MSU to send, or none that may be sent, the buffer is sent round and
/// round, in order, and stays as it is.
pub proof fn idle_transmitter_cycles_through_the_buffer(tx: TxControlView, n: nat)
    requires
        tx.wf(),
        cycling(tx),
    ensures
        ({
            let size = tx.unacked.len() as int;
            let m = tx.unacked[(sweep_start(tx) + n) % size];
            let after = after_polls(tx, n);
            &&& after == (TxControlView { pcr_cursor: after.pcr_cursor, ..tx })
            &&& after.wf()
            &&& cycling(after)
            &&& sweep_start(after) == (sweep_start(tx) + n) % size
            &&& frame(tx, n) == (TxFrameView {
                fsn: m.fsn,
                fib: tx.fib,
                body: TxBodyView::Msu(m.body),
            })
        }),
    decreases n,
{
    let size = tx.unacked.len() as int;
    if n == 0 {
        vstd::arithmetic::div_mod::lemma_small_mod(sweep_start(tx) as nat, size as nat);
    } else {
        let k = (n - 1) as nat;
        idle_transmitter_cycles_through_the_buffer(tx, k);
        let before = after_polls(tx, k);
        let x = sweep_start(tx) + k;
        vstd::arithmetic::div_mod::lemma_fundamental_div_mod(x, size);
        let q = x / size;
        let r = x % size;
        if r + 1 < size {
            assert(q * size == size * q) by (nonlinear_arith);
            vstd::arithmetic::div_mod::lemma_fundamental_div_mod_converse(x + 1, size, q, r + 1);
        } else {
            assert((q + 1) * size == size * q + size) by (nonlinear_arith);
            vstd::arithmetic::div_mod::lemma_fundamental_div_mod_converse(x + 1, size, q + 1, 0);
        }
        polling_keeps_wf(before);
    }
}

/// PCR: a waiting MSU is sent at once exactly while the backlog is below both thresholds.
/// Otherwise the queues stay as they are, and an unacknowledged MSU is repeated, or a FISU
/// is sent if there is none.
pub proof fn forced_retransmission_holds_new_msus(tx: TxControlView, n1: usize, n2: usize)
    requires
        tx.wf(),
        tx.method == RetransmissionMethod::Pcr(PcrParams { n1, n2 }),
    ensures
        tx.sends_new() <==> tx.pending.len() > 0 && tx.unacked.len() < n1
            && retransmission::total_octets(tx.unacked) < n2,
        tx.sends_new() ==> tx.next_frame() == (TxFrameView {
            fsn: (tx.last_fsn + 1) % 128,
            fib: tx.fib,
            body: TxBodyView::Msu(tx.pending[0]),
        }),
        !tx.sends_new() ==> tx.polled().pending == tx.pending && tx.polled().unacked == tx.unacked,
        !tx.sends_new() && tx.unacked.len() > 0 ==> exists|i: int|
            0 <= i < tx.unacked.len() && tx.next_frame() == (TxFrameView {
                fsn: (#[trigger] tx.unacked[i]).fsn,
                fib: tx.fib,
                body: TxBodyView::Msu(tx.unacked[i].body),
            }),
        !tx.sends_new() && tx.unacked.len() == 0 ==> tx.next_frame().body is Fisu,
{
    if !tx.sends_new() && tx.unacked.len() > 0 {
        let i = tx.resend_index()->0;
        assert(tx.next_frame().fsn == tx.unacked[i].fsn);
    }
}

/// What can be done to a transmit side.
pub enum TxStep {
    Submit(MsuBody),
    Poll,
    Acknowledge { bsn: u8, bib: bool },
}

/// A transmit side after a run of steps.
pub open spec fn after_tx_steps(tx: TxControlView, steps: Seq<TxStep>) -> TxControlView
    decreases steps.len(),
{
    if steps.len() == 0 {
        tx
    } else {
        let before = after_tx_steps(tx, steps.drop_last());
        match steps.last() {
            TxStep::Submit(body) => before.submitted(body),
            TxStep::Poll => before.polled(),
            TxStep::Acknowledge { bsn, bib } => before.acked(bsn as int, bib),
        }
    }
}

/// PCR: whatever is submitted, sent and acknowledged, the backlog never exceeds `n1` MSUs.
pub proof fn pcr_backlog_stays_within_n1(params: PcrParams, steps: Seq<TxStep>)
    ensures
        ({
            let tx = after_tx_steps(
                TxControlView::fresh(RetransmissionMethod::Pcr(params)),
                steps,
            );
            &&& tx.wf()
            &&& tx.method == RetransmissionMethod::Pcr(params)
            &&& tx.unacked.len() <= params.n1
        }),
    decreases steps.len(),
{
    if steps.len() > 0 {
        pcr_backlog_stays_within_n1(params, steps.drop_last());
        let before = after_tx_steps(
            TxControlView::fresh(RetransmissionMethod::Pcr(params)),
            steps.drop_last(),
        );
        match steps.last() {
            TxStep::Submit(body) => {
                submitting_keeps_wf(before, body);
            },
            TxStep::Poll => {
                polling_keeps_wf(before);
            },
            TxStep::Acknowledge { bsn, bib } => {
                acknowledging_keeps_wf(before, bsn as int, bib);
            },
        }
    }
}

/// PCR: the indicator bits never toggle and no retransmission is ever requested.
pub proof fn pcr_never_toggles_bits(
    tx: TxControlView,
    rx: RxControlView,
    bsn: int,
    bib: bool,
    fsn: int,
    body: MsuBody,
)
    requires
        tx.method is Pcr,
        rx.method is Pcr,
    ensures
        tx.polled().fib == tx.fib,
        tx.acked(bsn, bib).fib == tx.fib,
        rx.received(fsn).bib == rx.bib,
        !(rx.outcome(fsn, body) is RetransmissionRequested),
{
}

/// Basic method: the FIB follows the BIB of the last acknowledgement, and only
/// acknowledgements change it.
pub proof fn fib_echoes_bib(tx: TxControlView, bsn: int, bib: bool)
    requires
        tx.method is Basic,
    ensures
        tx.acked(bsn, bib).fib == bib,
        tx.polled().fib == tx.fib,
{
}

/// A gap toggles the BIB once: until an MSU is accepted, further out-of-sequence MSUs
/// leave it as it is. An accepted MSU leaves it as it is too.
pub proof fn gap_toggles_bib_once(rx: RxControlView, first: int, second: int)
    requires
        rx.method is Basic,
        rx.is_gap(first),
    ensures
        !rx.nack_pending ==> rx.received(first).bib == !rx.bib,
        rx.received(first).nack_pending,
        rx.received(first).last_received == rx.last_received,
        rx.received(first).received(second).bib == rx.received(first).bib,
{
}

/// A sequence number is the next in sequence, a gap, or a duplicate, and never two of
/// these; a duplicate changes nothing.
pub proof fn duplicates_change_nothing(rx: RxControlView, fsn: int, body: MsuBody)
    requires
        !rx.is_next(fsn),
        !rx.is_gap(fsn),
    ensures
        rx.received(fsn) == rx,
        rx.outcome(fsn, body) is Discarded,
{
}

/// One direction of a link: a transmit side, the receive side of the peer, and what
/// level 3 has submitted to the one and got from the other.
#[verifier::ext_equal]
pub struct Transfer {
    pub tx: TxControlView,
    pub rx: RxControlView,
    /// All MSUs that were submitted, in order.
    pub submitted: Seq<MsuBody>,
    /// All MSUs that were delivered, in order.
    pub delivered: Seq<MsuBody>,
    /// How many MSUs have been acknowledged.
    pub acknowledged: int,
}

/// What can happen on one direction of a link.
pub enum Step {
    /// Level 3 submits an MSU.
    Submit(MsuBody),
    /// The transmit side sends its next frame, which arrives or is lost.
    Send { arrives: bool },
    /// An MSU that was sent earlier arrives (late, or once more): the one with this
    /// index among the submitted ones.
    Late(int),
    /// An acknowledgement arrives that was sent when so many MSUs had been delivered.
    Acknowledge { delivered: int, bib: bool },
}

impl Transfer {
    /// Both sides in their initial state.
    pub open spec fn fresh(method: RetransmissionMethod) -> Transfer {
        Transfer {
            tx: TxControlView::fresh(method),
            rx: RxControlView::fresh(method),
            submitted: seq![],
            delivered: seq![],
            acknowledged: 0,
        }
    }

    /// How many MSUs have been sent.
    pub open spec fn sent(self) -> int {
        self.acknowledged + self.tx.unacked.len()
    }

    /// An MSU at the receive side.
    pub open spec fn arrival(self, fsn: int, body: MsuBody) -> Transfer {
        Transfer {
            rx: self.rx.received(fsn),
            delivered: match self.rx.outcome(fsn, body) {
                RxOutcomeView::Accepted(body) => self.delivered.push(body),
                _ => self.delivered,
            },
            ..self
        }
    }

    /// The transfer after a step.
    pub open spec fn after(self, step: Step) -> Transfer {
        match step {
            Step::Submit(body) => Transfer {
                tx: self.tx.submitted(body),
                submitted: self.submitted.push(body),
                ..self
            },
            Step::Send { arrives } => {
                let sending = Transfer { tx: self.tx.polled(), ..self };
                match self.tx.next_frame().body {
                    TxBodyView::Msu(body) if arrives => sending.arrival(
                        self.tx.next_frame().fsn,
                        body,
                    ),
                    _ => sending,
                }
            },
            Step::Late(j) => self.arrival(j % 128, self.submitted[j]),
            Step::Acknowledge { delivered, bib } => Transfer {
                tx: self.tx.acked((delivered - 1) % 128, bib),
                acknowledged: self.acknowledged + self.tx.acknowledged((delivered - 1) % 128),
                ..self
            },
        }
    }

    /// Whether a step respects the sequence number space: fewer than 128 MSUs are
    /// unacknowledged, no MSU and no acknowledgement is so late that its number has come
    /// round again, and no acknowledgement is half the space behind the last.
    pub open spec fn allows(self, step: Step) -> bool {
        match step {
            Step::Submit(_) => true,
            Step::Send { .. } => self.tx.polled().unacked.len() < 128,
            Step::Late(j) => 0 <= j < self.sent() && self.delivered.len() - 128 < j,
            Step::Acknowledge { delivered, .. } => 0 <= delivered <= self.delivered.len()
                && self.sent() - 128 < delivered && self.acknowledged - 64 < delivered,
        }
    }

    /// What holds at every moment: the delivered MSUs are the first of the submitted
    /// ones, the buffer holds those that were sent and are not acknowledged, and the
    /// queue those that were not sent.
    pub open spec fn inv(self) -> bool {
        &&& self.tx.wf()
        &&& self.tx.unacked.len() < 128
        &&& 0 <= self.acknowledged <= self.delivered.len() <= self.sent()
        &&& self.submitted == self.submitted.take(self.acknowledged) + outstanding(self.tx)
        &&& self.acknowledged <= self.submitted.len()
        &&& self.tx.last_fsn == (self.sent() - 1) % 128
        &&& self.delivered == self.submitted.take(self.delivered.len() as int)
        &&& self.rx.last_received == (self.delivered.len() - 1) % 128
    }
}

/// The MSU with index `j` among the submitted ones, while it is in the buffer, is there
/// under its own number.
proof fn lemma_buffered(t: Transfer, i: int)
    requires
        t.inv(),
        0 <= i < t.tx.unacked.len(),
    ensures
        t.tx.unacked[i].body == t.submitted[t.acknowledged + i],
        t.tx.unacked[i].fsn == (t.acknowledged + i) % 128,
{
    assert(outstanding(t.tx)[i] == t.tx.unacked[i].body);
    assert(t.submitted[t.acknowledged + i] == outstanding(t.tx)[i]);
    assert(t.tx.unacked[i].fsn == t.tx.fsn_at(i));
    lemma_counted_back(t.sent() - 1, t.tx.unacked.len() - 1 - i);
}

/// Sequence numbers are counted back along with what they count.
proof fn lemma_counted_back(n: int, back: int)
    ensures
        (n % 128 - back) % 128 == (n - back) % 128,
{
}

/// An MSU that arrives is delivered if and only if it is the next one to deliver.
proof fn lemma_arrival(t: Transfer, j: int)
    requires
        t.inv(),
        0 <= j < t.sent(),
        t.delivered.len() - 128 < j,
    ensures
        ({
            let after = t.arrival(j % 128, t.submitted[j]);
            &&& after.inv()
            &&& after.delivered.len() == if j == t.delivered.len() {
                t.delivered.len() + 1
            } else {
                t.delivered.len()
            }
        }),
{
    let d = t.delivered.len() as int;
    let after = t.arrival(j % 128, t.submitted[j]);
    lemma_difference(j, d - 1);
    assert(t.submitted.len() == t.acknowledged + outstanding(t.tx).len());
    if j == d {
        assert(after.delivered =~= t.submitted.take(d + 1));
    } else {
        assert((j - d + 1) % 128 != 1);
    }
}

/// A transfer starts in order.
pub proof fn transfer_starts_in_order(method: RetransmissionMethod)
    ensures
        Transfer::fresh(method).inv(),
{
    let t = Transfer::fresh(method);
    assert(t.submitted =~= t.submitted.take(0) + outstanding(t.tx));
    assert(t.delivered =~= t.submitted.take(0));
}

/// Submitting keeps a transfer in order.
proof fn lemma_submit_step(t: Transfer, body: MsuBody)
    requires
        t.inv(),
    ensures
        t.after(Step::Submit(body)).inv(),
{
    let after = t.after(Step::Submit(body));
    assert(outstanding(after.tx) =~= outstanding(t.tx).push(body));
    assert(after.submitted =~= after.submitted.take(t.acknowledged) + outstanding(after.tx));
    assert(after.delivered =~= after.submitted.take(t.delivered.len() as int));
    submitting_keeps_wf(t.tx, body);
}

/// Sending keeps a transfer in order, before the frame arrives.
proof fn lemma_sending(t: Transfer)
    requires
        t.inv(),
        t.tx.polled().unacked.len() < 128,
    ensures
        (Transfer { tx: t.tx.polled(), ..t }).inv(),
{
    let sending = Transfer { tx: t.tx.polled(), ..t };
    assert(sending.tx.wf()) by {
        polling_keeps_wf(t.tx);
    }
    assert(outstanding(sending.tx) == outstanding(t.tx)) by {
        no_msu_is_lost(t.tx, MsuBody { sio: 0, sif: seq![] }, 0, false);
    }
    lemma_counted_back(t.sent() - 1, -1);
    assert(sending.tx.last_fsn == (sending.sent() - 1) % 128);
}

/// Sending keeps a transfer in order, whether the frame arrives or not.
proof fn lemma_send_step(t: Transfer, arrives: bool)
    requires
        t.inv(),
        t.tx.polled().unacked.len() < 128,
    ensures
        t.after(Step::Send { arrives }).inv(),
        t.delivered.len() <= t.after(Step::Send { arrives }).delivered.len(),
        t.after(Step::Send { arrives }).submitted == t.submitted,
{
    let sending = Transfer { tx: t.tx.polled(), ..t };
    lemma_sending(t);
    match t.tx.next_frame().body {
        TxBodyView::Msu(body) => {
            let i = match t.tx.resend_index() {
                Some(i) => i,
                None => t.tx.unacked.len() as int,
            };
            lemma_buffered(sending, i);
            assert(t.tx.next_frame().fsn == sending.tx.unacked[i].fsn);
            assert(body == sending.tx.unacked[i].body);
            lemma_arrival(sending, t.acknowledged + i);
        },
        TxBodyView::Fisu => {},
    }
}

/// An acknowledgement keeps a transfer in order.
proof fn lemma_acknowledge_step(t: Transfer, delivered: int, bib: bool)
    requires
        t.inv(),
        t.allows(Step::Acknowledge { delivered, bib }),
    ensures
        t.after(Step::Acknowledge { delivered, bib }).inv(),
        t.after(Step::Acknowledge { delivered, bib }).sent() == t.sent(),
{
    let after = t.after(Step::Acknowledge { delivered, bib });
    let bsn = (delivered - 1) % 128;
    lemma_acknowledged_count(t, delivered);
    acknowledging_keeps_wf(t.tx, bsn, bib);
    no_msu_is_lost(t.tx, MsuBody { sio: 0, sif: seq![] }, bsn, bib);
    assert(t.submitted.len() == t.acknowledged + outstanding(t.tx).len());
    assert(after.submitted =~= after.submitted.take(after.acknowledged) + outstanding(after.tx));
}

/// Every step keeps a transfer in order, and nothing that was delivered is taken back.
pub proof fn transfer_stays_in_order(t: Transfer, step: Step)
    requires
        t.inv(),
        t.allows(step),
    ensures
        t.after(step).inv(),
        t.delivered.is_prefix_of(t.after(step).delivered),
{
    match step {
        Step::Submit(body) => {
            lemma_submit_step(t, body);
        },
        Step::Send { arrives } => {
            lemma_send_step(t, arrives);
        },
        Step::Late(j) => {
            lemma_arrival(t, j);
        },
        Step::Acknowledge { delivered, bib } => {
            lemma_acknowledge_step(t, delivered, bib);
        },
    }
}

/// An acknowledgement frees the MSUs that were delivered when it was sent and no others.
proof fn lemma_acknowledged_count(t: Transfer, delivered: int)
    requires
        t.inv(),
        t.sent() - 128 < delivered <= t.delivered.len(),
        t.acknowledged - 64 < delivered,
    ensures
        t.tx.acknowledged((delivered - 1) % 128) == if delivered > t.acknowledged {
            delivered - t.acknowledged
        } else {
            0
        },
{
    if t.tx.unacked.len() > 0 {
        lemma_buffered(t, 0);
        lemma_difference(delivered - 1, t.acknowledged);
        lemma_around(delivered - 1 - t.acknowledged);
    }
}

/// A distance of sequence numbers is the difference of what they count.
proof fn lemma_difference(to: int, from: int)
    ensures
        retransmission::distance(to % 128, from % 128) == (to - from) % 128,
{
}

/// Values near zero modulo 128.
proof fn lemma_around(x: int)
    requires
        -128 <= x < 128,
    ensures
        0 <= x ==> x % 128 == x,
        x < 0 ==> x % 128 == x + 128,
{
}

/// A transfer after a run of steps.
pub open spec fn after_run(t: Transfer, steps: Seq<Step>) -> Transfer
    decreases steps.len(),
{
    if steps.len() == 0 {
        t
    } else {
        after_run(t, steps.drop_last()).after(steps.last())
    }
}

/// Whether every step of a run respects the sequence number space.
pub open spec fn run_allowed(t: Transfer, steps: Seq<Step>) -> bool
    decreases steps.len(),
{
    steps.len() == 0 || (run_allowed(t, steps.drop_last()) && after_run(
        t,
        steps.drop_last(),
    ).allows(steps.last()))
}

/// The link is reliable: whatever is lost, comes late or comes twice, under either
/// method, what level 3 gets is at every moment the beginning of what was submitted -
/// every MSU once, in order and unchanged. This holds from the start of a transfer on, and
/// from any later moment.
pub proof fn delivery_is_in_order_and_exactly_once(t: Transfer, steps: Seq<Step>)
    requires
        t.inv(),
        run_allowed(t, steps),
    ensures
        after_run(t, steps).inv(),
        after_run(t, steps).delivered.is_prefix_of(after_run(t, steps).submitted),
        t.delivered.is_prefix_of(after_run(t, steps).delivered),
    decreases steps.len(),
{
    let after = after_run(t, steps);
    if steps.len() > 0 {
        let before = after_run(t, steps.drop_last());
        delivery_is_in_order_and_exactly_once(t, steps.drop_last());
        transfer_stays_in_order(before, steps.last());
        assert(t.delivered =~= after.delivered.subrange(0, t.delivered.len() as int));
    }
    assert(after.submitted.len() == after.acknowledged + outstanding(after.tx).len());
}

/// A transfer after `n` frames that all arrive.
pub open spec fn after_arrivals(t: Transfer, n: nat) -> Transfer
    decreases n,
{
    if n == 0 {
        t
    } else {
        after_arrivals(t, (n - 1) as nat).after(Step::Send { arrives: true })
    }
}

/// Sending a buffered MSU that arrives: the transmit side moves on, and the MSU is
/// delivered if it is the next one to deliver.
proof fn lemma_resend_arrives(t: Transfer, i: int)
    requires
        t.inv(),
        t.tx.resend_index() == Some(i),
        0 <= i < t.tx.unacked.len(),
    ensures
        ({
            let after = t.after(Step::Send { arrives: true });
            &&& after.inv()
            &&& after.tx == t.tx.polled()
            &&& after.submitted == t.submitted
            &&& after.acknowledged == t.acknowledged
            &&& after.delivered.len() == if t.acknowledged + i == t.delivered.len() {
                t.delivered.len() + 1
            } else {
                t.delivered.len()
            }
        }),
{
    let sending = Transfer { tx: t.tx.polled(), ..t };
    polling_keeps_wf(t.tx);
    assert(sending.tx.unacked =~= t.tx.unacked);
    assert(sending.inv());
    lemma_buffered(t, i);
    lemma_arrival(sending, t.acknowledged + i);
}

/// Basic method: an MSU that arrives behind a lost one makes the receive side ask for a
/// retransmission, and its next acknowledgement is a negative one.
pub proof fn gap_is_negatively_acknowledged(t: Transfer, j: int)
    requires
        t.inv(),
        t.tx.method is Basic,
        t.rx.method is Basic,
        t.rx.bib == t.tx.fib,
        !t.rx.nack_pending,
        t.delivered.len() < j < t.delivered.len() + 63,
        j < t.sent(),
    ensures
        t.rx.outcome(j % 128, t.submitted[j]) is RetransmissionRequested,
        t.after(Step::Late(j)).tx.is_nack(t.after(Step::Late(j)).rx.bib),
        t.after(Step::Late(j)).delivered == t.delivered,
{
    lemma_difference(j, t.delivered.len() - 1);
}

/// Basic method: when a negative acknowledgement of the peer has arrived and the
/// retransmission gets through, everything that was sent is delivered.
pub proof fn basic_method_recovers_lost_msus(t: Transfer)
    requires
        t.inv(),
        t.tx.is_nack(t.rx.bib),
    ensures
        ({
            let answered = t.after(
                Step::Acknowledge { delivered: t.delivered.len() as int, bib: t.rx.bib },
            );
            let after = after_arrivals(answered, answered.tx.unacked.len());
            &&& after.delivered == t.submitted.take(t.sent())
            &&& after.rx.last_received == t.tx.last_fsn
        }),
{
    let d = t.delivered.len() as int;
    let answered = t.after(Step::Acknowledge { delivered: d, bib: t.rx.bib });
    lemma_acknowledge_step(t, d, t.rx.bib);
    lemma_basic_resend(t, answered.tx.unacked.len());
    let after = after_arrivals(answered, answered.tx.unacked.len());
    negative_acknowledgement_resends_everything(
        t.tx,
        (d - 1) % 128,
        t.rx.bib,
        answered.tx.unacked.len(),
    );
    assert(after.tx.unacked.len() == answered.tx.unacked.len());
    assert(after.sent() == t.sent());
}

/// After `n` arrivals of a retransmission, the MSUs up to the `n`-th of the buffer are
/// delivered.
proof fn lemma_basic_resend(t: Transfer, n: nat)
    requires
        t.inv(),
        t.tx.is_nack(t.rx.bib),
        ({
            let answered = t.after(
                Step::Acknowledge { delivered: t.delivered.len() as int, bib: t.rx.bib },
            );
            n <= answered.tx.unacked.len()
        }),
    ensures
        ({
            let answered = t.after(
                Step::Acknowledge { delivered: t.delivered.len() as int, bib: t.rx.bib },
            );
            let after = after_arrivals(answered, n);
            &&& after.inv()
            &&& after.submitted == t.submitted
            &&& after.acknowledged == answered.acknowledged
            &&& after.tx == after_polls(answered.tx, n)
            &&& after.delivered.len() >= answered.acknowledged + n
        }),
    decreases n,
{
    let d = t.delivered.len() as int;
    let answered = t.after(Step::Acknowledge { delivered: d, bib: t.rx.bib });
    lemma_acknowledge_step(t, d, t.rx.bib);
    if n > 0 {
        let k = (n - 1) as nat;
        lemma_basic_resend(t, k);
        negative_acknowledgement_resends_everything(t.tx, (d - 1) % 128, t.rx.bib, k);
        lemma_resend_arrives(after_arrivals(answered, k), k as int);
    }
}

/// PCR: when two rounds of an idle transmit side get through, everything that was sent
/// is delivered, without any request.
pub proof fn pcr_recovers_lost_msus(t: Transfer)
    requires
        t.inv(),
        cycling(t.tx),
    ensures
        after_arrivals(t, 2 * t.tx.unacked.len()).delivered == t.submitted.take(t.sent()),
        after_arrivals(t, 2 * t.tx.unacked.len()).rx.last_received == t.tx.last_fsn,
{
    lemma_pcr_resend(t, 2 * t.tx.unacked.len());
}

/// After `n` arrivals under PCR the sweep has got as far in the second round as the MSUs
/// are delivered, at least.
proof fn lemma_pcr_resend(t: Transfer, n: nat)
    requires
        t.inv(),
        cycling(t.tx),
        n <= 2 * t.tx.unacked.len(),
    ensures
        ({
            let after = after_arrivals(t, n);
            let size = t.tx.unacked.len() as int;
            let into_second_round = sweep_start(t.tx) + n - size;
            &&& after.inv()
            &&& after.submitted == t.submitted
            &&& after.acknowledged == t.acknowledged
            &&& after.tx == after_polls(t.tx, n)
            &&& after.tx.unacked == t.tx.unacked
            &&& after.delivered.len() >= t.acknowledged + if into_second_round < size {
                into_second_round
            } else {
                size
            }
        }),
    decreases n,
{
    let size = t.tx.unacked.len() as int;
    if n > 0 {
        let k = (n - 1) as nat;
        lemma_pcr_resend(t, k);
        idle_transmitter_cycles_through_the_buffer(t.tx, k);
        let before = after_arrivals(t, k);
        let i = sweep_start(before.tx);
        assert(before.tx.resend_index() == Some(i));
        lemma_resend_arrives(before, i);
        let x = sweep_start(t.tx) + k;
        if size <= x < 2 * size {
            assert(1 * size == size) by (nonlinear_arith);
            vstd::arithmetic::div_mod::lemma_fundamental_div_mod_converse(x, size, 1, x - size);
        }
    }
}

// ── The two sides, one call at a time ───────────────────────────────────────────────

/// The transmit side starts with FSN 127 assigned and FIB 1, with nothing queued, sent or
/// under way; a restart goes back there with the MSUs that wait.
pub proof fn transmit_side_starts(method: RetransmissionMethod, tx: TxControlView)
    ensures
        ({
            let fresh = TxControlView::fresh(method);
            &&& fresh.method == method
            &&& fresh.last_fsn == 127
            &&& fresh.fib
            &&& fresh.pending.len() == 0
            &&& fresh.unacked.len() == 0
            &&& fresh.basic_cursor is None
            &&& fresh.pcr_cursor == 0
            &&& fresh.last_acked == 127
            &&& tx.restarted().pending == tx.pending
            &&& tx.method == method ==> tx.restarted() == (TxControlView {
                pending: tx.pending,
                ..fresh
            })
        }),
{
}

/// A submitted MSU waits behind the others, and nothing else changes.
pub proof fn submitting_queues_at_the_end(tx: TxControlView, body: MsuBody)
    ensures
        tx.submitted(body) == (TxControlView { pending: tx.pending.push(body), ..tx }),
{
}

/// The frame that carries an MSU under an FSN.
pub open spec fn carries(frame: TxFrameView, fsn: int, fib: bool, body: MsuBody) -> bool {
    &&& frame.fsn == fsn
    &&& frame.fib == fib
    &&& frame.body == TxBodyView::Msu(body)
}

/// The oldest waiting MSU is on its way: it is the frame that was sent, under the number
/// that follows the last one, and has moved from the queue to the end of the buffer. What
/// was in the buffer is still there.
pub open spec fn sends_oldest(tx: TxControlView) -> bool {
    let after = tx.polled();
    let fsn = (tx.last_fsn + 1) % 128;
    &&& carries(tx.next_frame(), fsn, tx.fib, tx.pending[0])
    &&& after.last_fsn == fsn
    &&& after.pending == tx.pending.skip(1)
    &&& after.unacked == tx.unacked.push(SentMsu { fsn, body: tx.pending[0] })
    &&& after.fib == tx.fib
    &&& after.method == tx.method
    &&& after.last_acked == tx.last_acked
    &&& after.basic_cursor is None || after.basic_cursor == tx.basic_cursor
}

/// A buffered MSU is sent again, and neither queue nor buffer nor any number changes.
pub open spec fn repeats(tx: TxControlView, i: int) -> bool {
    &&& carries(tx.next_frame(), tx.unacked[i].fsn, tx.fib, tx.unacked[i].body)
    &&& tx.polled() == (TxControlView {
        basic_cursor: tx.polled().basic_cursor,
        pcr_cursor: tx.polled().pcr_cursor,
        ..tx
    })
}

/// A FISU with the last number fills the link, and neither queue nor buffer nor any
/// number changes.
pub open spec fn fills(tx: TxControlView) -> bool {
    &&& tx.next_frame() == (TxFrameView { fsn: tx.last_fsn, fib: tx.fib, body: TxBodyView::Fisu })
    &&& tx.polled() == (TxControlView { basic_cursor: tx.polled().basic_cursor, ..tx })
}

/// Basic method, what a poll sends: the MSU at the cursor while a retransmission is under
/// way; else the oldest waiting MSU, however many wait and however many are buffered; else
/// a FISU. The cursor moves on by one with each repeated MSU, and is gone behind the last.
pub proof fn basic_poll_sends(tx: TxControlView)
    requires
        tx.wf(),
        tx.method is Basic,
    ensures
        ({
            let resending = tx.basic_cursor is Some && tx.basic_cursor->0 < tx.unacked.len();
            &&& resending ==> repeats(tx, tx.basic_cursor->0) && tx.polled().basic_cursor == Some(
                tx.basic_cursor->0 + 1,
            )
            &&& !resending && tx.pending.len() > 0 ==> sends_oldest(tx)
            &&& !resending && tx.pending.len() == 0 ==> fills(tx)
            &&& !resending ==> tx.polled().basic_cursor is None
            &&& tx.polled().pcr_cursor == tx.pcr_cursor
        }),
{
    assert(tx.pending.len() > 0 ==> tx.pending.drop_first() =~= tx.pending.skip(1));
}

/// Basic method: without an acknowledgement between, `n` polls send the first `n` waiting
/// MSUs in order, under consecutive numbers.
pub proof fn basic_polls_send_all_that_waits(tx: TxControlView, n: nat)
    requires
        tx.wf(),
        tx.method is Basic,
        tx.basic_cursor is None,
        n <= tx.pending.len(),
    ensures
        after_polls(tx, n).wf(),
        after_polls(tx, n).method is Basic,
        after_polls(tx, n).fib == tx.fib,
        after_polls(tx, n).basic_cursor is None,
        after_polls(tx, n).pending == tx.pending.skip(n as int),
        after_polls(tx, n).unacked.len() == tx.unacked.len() + n,
        after_polls(tx, n).last_fsn == (tx.last_fsn + n) % 128,
        n < tx.pending.len() ==> carries(
            frame(tx, n),
            (tx.last_fsn + n + 1) % 128,
            tx.fib,
            tx.pending[n as int],
        ),
    decreases n,
{
    if n > 0 {
        let k = (n - 1) as nat;
        basic_polls_send_all_that_waits(tx, k);
        let before = after_polls(tx, k);
        basic_poll_sends(before);
        polling_keeps_wf(before);
        lemma_counted_back(tx.last_fsn + k, -1);
        assert(before.pending.skip(1) =~= tx.pending.skip(n as int));
    } else {
        assert(tx.pending.skip(0) =~= tx.pending);
    }
    let now = after_polls(tx, n);
    if n < tx.pending.len() {
        basic_poll_sends(now);
        lemma_counted_back(tx.last_fsn + n, -1);
        assert(now.pending[0] == tx.pending[n as int]);
    }
}

/// PCR, what a poll sends: the oldest waiting MSU while fewer than `n1` MSUs and fewer than
/// `n2` octets are unacknowledged, which begins the sweep anew; else the MSU at the sweep,
/// which goes on behind it and begins at the oldest after the youngest; else a FISU.
pub proof fn pcr_poll_sends(tx: TxControlView, n1: usize, n2: usize)
    requires
        tx.wf(),
        tx.method == RetransmissionMethod::Pcr(PcrParams { n1, n2 }),
    ensures
        ({
            let open = tx.unacked.len() < n1 && retransmission::total_octets(tx.unacked) < n2;
            let at = if tx.pcr_cursor < tx.unacked.len() {
                tx.pcr_cursor
            } else {
                0
            };
            let new = open && tx.pending.len() > 0;
            &&& new ==> sends_oldest(tx) && tx.polled().pcr_cursor == 0
            &&& !new && tx.unacked.len() > 0 ==> repeats(tx, at) && tx.polled().pcr_cursor == at + 1
            &&& !new && tx.unacked.len() == 0 ==> fills(tx)
            &&& tx.polled().basic_cursor is None
        }),
{
    assert(tx.pending.len() > 0 ==> tx.pending.drop_first() =~= tx.pending.skip(1));
}

/// The octets of a buffer: none when it is empty, and for each MSU at its end one for the
/// SIO and those of the SIF more.
pub proof fn octets_of_a_buffer(buffer: Seq<SentMsu>, m: SentMsu)
    ensures
        retransmission::total_octets(seq![]) == 0,
        retransmission::total_octets(buffer.push(m)) == retransmission::total_octets(buffer) + 1
            + m.body.sif.len(),
{
    assert(buffer.push(m).drop_last() =~= buffer);
}

/// How many MSUs a BSN frees, with `ahead` its distance from the oldest: one more than that
/// while it lies in the buffer and is not the number just before the oldest; all of them if
/// it lies beyond the buffer by less than half the sequence space; and none otherwise.
pub proof fn acknowledgement_counts(tx: TxControlView, bsn: int)
    ensures
        ({
            let n = tx.unacked.len();
            let ahead = (bsn - tx.unacked[0].fsn) % 128;
            &&& n == 0 ==> tx.acknowledged(bsn) == 0
            &&& n > 0 && ahead < n && ahead < 127 ==> tx.acknowledged(bsn) == ahead + 1
            &&& n > 0 && n <= ahead < 64 ==> tx.acknowledged(bsn) == n
            &&& n > 0 && (ahead == 127 || ahead >= n && ahead >= 64) ==> tx.acknowledged(bsn) == 0
        }),
{
}

/// What an acknowledgement does besides freeing MSUs from the front of the buffer. A BIB
/// that differs from the FIB under the Basic method is a negative one: the FIB takes its
/// value, and what is left is sent again from the front. Otherwise a retransmission under
/// way stays at its MSU, or goes to the front if that is gone. An MSU that is freed begins
/// the cyclic sweep anew and puts the BSN on record. The queue and the numbers stay.
pub proof fn acknowledgement_effects(tx: TxControlView, bsn: int, bib: bool)
    requires
        tx.wf(),
        0 <= bsn < 256,
    ensures
        ({
            let after = tx.acked(bsn, bib);
            let freed = tx.acknowledged(bsn);
            let negative = tx.method is Basic && bib != tx.fib;
            &&& after.unacked == tx.unacked.skip(freed)
            &&& after.pending == tx.pending
            &&& after.last_fsn == tx.last_fsn
            &&& after.method == tx.method
            &&& after.fib == if negative {
                bib
            } else {
                tx.fib
            }
            &&& negative && after.unacked.len() > 0 ==> after.basic_cursor == Some(0int)
            &&& !(negative && after.unacked.len() > 0) ==> match tx.basic_cursor {
                None => after.basic_cursor is None,
                Some(c) => after.basic_cursor is Some && after.basic_cursor->0 >= 0
                    && after.basic_cursor->0 == if c >= freed {
                    c - freed
                } else {
                    0
                },
            }
            &&& freed > 0 ==> after.pcr_cursor == 0 && after.last_acked == bsn
            &&& freed == 0 ==> after.pcr_cursor == tx.pcr_cursor && after.last_acked
                == tx.last_acked
        }),
{
    acknowledging_keeps_wf(tx, bsn, bib);
}

/// The receive side starts with FSN 127 received and BIB 1, so that 0 is the next number.
pub proof fn receive_side_starts(method: RetransmissionMethod)
    ensures
        RxControlView::fresh(method) == (RxControlView {
            method,
            last_received: 127,
            bib: true,
            nack_pending: false,
        }),
{
}

/// What becomes of an MSU, with `ahead` its distance from the last accepted one. At one it
/// is accepted, with its payload unchanged, and closes a gap. From two to half the sequence
/// space, under the Basic method, it is refused with a request, and the BIB is toggled if
/// it was not for this gap. All others, and all of them under PCR, are dropped without a
/// trace.
pub proof fn reception_of_msus(rx: RxControlView, fsn: int, body: MsuBody)
    ensures
        ({
            let ahead = (fsn - rx.last_received) % 128;
            let gap = rx.method is Basic && 2 <= ahead <= 63;
            &&& ahead == 1 ==> rx.outcome(fsn, body) == RxOutcomeView::Accepted(body)
                && rx.received(fsn) == (RxControlView {
                last_received: fsn,
                nack_pending: false,
                ..rx
            })
            &&& gap ==> rx.outcome(fsn, body) is RetransmissionRequested
            &&& gap && !rx.nack_pending ==> rx.received(fsn) == (RxControlView {
                bib: !rx.bib,
                nack_pending: true,
                ..rx
            })
            &&& gap && rx.nack_pending ==> rx.received(fsn) == rx
            &&& ahead != 1 && !gap ==> rx.outcome(fsn, body) is Discarded && rx.received(fsn) == rx
            &&& rx.is_next(fsn) <==> ahead == 1
        }),
{
}

/// A receive side takes every number of the 7-bit field while the last accepted one lies
/// in it; in general, every number at most 128 below that one.
pub proof fn receive_side_takes(rx: RxControlView, fsn: int)
    ensures
        rx.can_take(fsn) <==> rx.last_received - fsn <= 128,
        0 <= fsn && rx.last_received <= 127 ==> rx.can_take(fsn),
{
}

/// The values of frames and outcomes are those of their parts, one by one.
pub proof fn values_of_frames_and_outcomes(frame: TxFrame, outcome: RxOutcome)
    ensures
        frame@.fsn == frame.fsn,
        frame@.fib == frame.fib,
        frame.body is Fisu ==> frame@.body is Fisu,
        frame.body matches TxBody::Msu { sio, sif } ==> frame@.body == TxBodyView::Msu(
            MsuBody { sio, sif: sif@ },
        ),
        outcome matches RxOutcome::Accepted { sio, sif } ==> outcome@ == RxOutcomeView::Accepted(
            MsuBody { sio, sif: sif@ },
        ),
        outcome is Discarded ==> outcome@ is Discarded,
        outcome is RetransmissionRequested ==> outcome@ is RetransmissionRequested,
{
}

} // verus!
