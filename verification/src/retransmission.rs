//! Error correction by retransmission.
//!
//! There are two methods; a link uses exactly one, chosen at configuration time.
//!
//! * **Basic method** - for terrestrial links with short round trips. Every MSU
//!   carries a Forward Sequence Number (FSN); the peer acknowledges with the Backward
//!   Sequence Number (BSN). A receiver that sees a gap discards the out-of-sequence
//!   MSU and *negatively acknowledges* by toggling its Backward Indicator Bit (BIB);
//!   the transmitter, seeing its FIB no longer match the returned BIB, retransmits
//!   everything from the buffer.
//!
//! * **Preventive Cyclic Retransmission (PCR)** - for links with a long propagation
//!   delay. There is no negative acknowledgement and the indicator bits never toggle:
//!   whenever the transmitter has no *new* MSU to send it cyclically retransmits every
//!   unacknowledged MSU. When the unacknowledged backlog reaches `n1` MSUs or `n2`
//!   octets, *forced retransmission* stops new MSUs until the buffer drains.
//!
//! Both methods share the receive-side sequence check and the positive acknowledgement
//! (BSN) that frees the retransmission buffer. The two sides are [`TxControl`] (assigns
//! FSNs, owns the retransmission buffer) and [`RxControl`] (checks sequence, drives
//! BSN/BIB), which [`crate::Mtp2Link`] composes into whole signal units.

use std::collections::VecDeque;

use vstd::prelude::*;

use crate::signal_unit::SEQ_MODULUS;

verus! {

broadcast use vstd::std_specs::vecdeque::group_vec_dequeue_axioms;

/// Half the sequence space; used for the "is a ahead of b" comparison.
const SEQ_HALF: u16 = SEQ_MODULUS / 2;

/// The sequence number that follows `n`.
pub open spec fn next_number(n: int) -> int {
    (n + 1) % 128
}

/// The forward distance from sequence number `from` to sequence number `to`.
pub open spec fn distance(to: int, from: int) -> int {
    (to - from) % 128
}

/// `(a + b) mod 128`.
fn seq_add(a: u8, b: u8) -> (sum: u8)
    ensures
        sum == (a + b) % 128,
        sum < 128,
{
    ((a as u16 + b as u16) % SEQ_MODULUS) as u8
}

/// `(a - b) mod 128` - the forward distance from `b` to `a`.
fn seq_forward(a: u8, b: u8) -> (d: u8)
    requires
        b <= a + 128,
    ensures
        d == distance(a as int, b as int),
        d < 128,
{
    ((a as u16 + SEQ_MODULUS - b as u16) % SEQ_MODULUS) as u8
}

/// The error-correction method a link runs.
#[derive(Debug, Clone, Copy, PartialEq, Eq, Structural)]
pub enum RetransmissionMethod {
    /// Basic method: retransmit on negative acknowledgement (BIB/FIB).
    Basic,
    /// Preventive Cyclic Retransmission: cyclic retransmit when idle, no negative
    /// acknowledgement.
    Pcr(PcrParams),
}

/// PCR forced-retransmission thresholds: stop sending new MSUs once the
/// unacknowledged buffer holds `n1` MSUs or `n2` octets, and force-retransmit until it
/// drains below them.
#[derive(Debug, Clone, Copy, PartialEq, Eq, Structural)]
pub struct PcrParams {
    /// Maximum number of unacknowledged MSUs before forced retransmission.
    pub n1: usize,
    /// Maximum number of unacknowledged MSU octets before forced retransmission.
    pub n2: usize,
}

impl Default for PcrParams {
    /// Representative values; the concrete ones depend on the bit rate and propagation
    /// delay of a link and are provisioned per link.
    fn default() -> (params: Self)
        ensures
            params == (PcrParams { n1: 127, n2: 8000 }),
    {
        PcrParams { n1: 127, n2: 8000 }
    }
}

/// The payload of an MSU: SIO and SIF.
pub struct MsuBody {
    pub sio: u8,
    pub sif: Seq<u8>,
}

impl MsuBody {
    /// The length of the payload in octets.
    pub open spec fn octets(self) -> nat {
        1 + self.sif.len()
    }
}

/// An MSU with the FSN it was sent under.
pub struct SentMsu {
    pub fsn: int,
    pub body: MsuBody,
}

/// The octets of all the payloads in a buffer.
pub open spec fn total_octets(buffer: Seq<SentMsu>) -> nat
    decreases buffer.len(),
{
    if buffer.len() == 0 {
        0
    } else {
        total_octets(buffer.drop_last()) + buffer.last().body.octets()
    }
}

/// One MSU held in the retransmission buffer with the FSN it was sent under.
#[derive(Debug, Clone, PartialEq, Eq)]
struct BufferedMsu {
    fsn: u8,
    sio: u8,
    sif: Vec<u8>,
}

impl View for BufferedMsu {
    type V = SentMsu;

    closed spec fn view(&self) -> SentMsu {
        SentMsu { fsn: self.fsn as int, body: MsuBody { sio: self.sio, sif: self.sif@ } }
    }
}

/// The body of a frame the transmitter wants to put on the link.
#[derive(Debug, Clone, PartialEq, Eq)]
pub enum TxBody {
    /// Nothing to send: a Fill-In Signal Unit keeps the link busy and carries
    /// acknowledgements.
    Fisu,
    /// An MSU (new, retransmitted, or cyclically retransmitted).
    Msu { sio: u8, sif: Vec<u8> },
}

/// The mathematical value of a [`TxBody`].
pub enum TxBodyView {
    Fisu,
    Msu(MsuBody),
}

impl View for TxBody {
    type V = TxBodyView;

    open spec fn view(&self) -> TxBodyView {
        match self {
            TxBody::Fisu => TxBodyView::Fisu,
            TxBody::Msu { sio, sif } => TxBodyView::Msu(MsuBody { sio: *sio, sif: sif@ }),
        }
    }
}

/// A frame the transmit side wants to emit: the forward fields plus a body. The
/// backward fields (BSN/BIB) are supplied by [`RxControl`] when the link assembles the
/// signal unit.
#[derive(Debug, Clone, PartialEq, Eq)]
pub struct TxFrame {
    pub fsn: u8,
    pub fib: bool,
    pub body: TxBody,
}

/// The mathematical value of a [`TxFrame`].
pub struct TxFrameView {
    pub fsn: int,
    pub fib: bool,
    pub body: TxBodyView,
}

impl View for TxFrame {
    type V = TxFrameView;

    open spec fn view(&self) -> TxFrameView {
        TxFrameView { fsn: self.fsn as int, fib: self.fib, body: self.body@ }
    }
}

/// The mathematical value of a [`TxControl`].
#[verifier::ext_equal]
pub struct TxControlView {
    pub method: RetransmissionMethod,
    /// FSN of the most recently assigned MSU.
    pub last_fsn: int,
    /// Forward Indicator Bit.
    pub fib: bool,
    /// New MSUs awaiting their first transmission, oldest first.
    pub pending: Seq<MsuBody>,
    /// Transmitted but unacknowledged MSUs, oldest first.
    pub unacked: Seq<SentMsu>,
    /// Basic method: where in `unacked` a retransmission goes on, if one is under way.
    pub basic_cursor: Option<int>,
    /// PCR: where in `unacked` the cyclic retransmission goes on.
    pub pcr_cursor: int,
    /// FSN most recently acknowledged by the peer's BSN.
    pub last_acked: int,
}

impl TxControlView {
    /// The initial transmit state: the first MSU will carry FSN 0, the FIB is set.
    pub open spec fn fresh(method: RetransmissionMethod) -> TxControlView {
        TxControlView {
            method,
            last_fsn: 127,
            fib: true,
            pending: seq![],
            unacked: seq![],
            basic_cursor: None,
            pcr_cursor: 0,
            last_acked: 127,
        }
    }

    /// The initial transmit state with the MSUs that still await transmission.
    pub open spec fn restarted(self) -> TxControlView {
        TxControlView { pending: self.pending, ..Self::fresh(self.method) }
    }

    /// The FSN of the buffered MSU at index `i`, counted back from the last assigned
    /// one: the buffer holds consecutive sequence numbers.
    pub open spec fn fsn_at(self, i: int) -> int {
        (self.last_fsn - (self.unacked.len() - 1 - i)) % 128
    }

    /// What holds of every transmit controller.
    pub open spec fn wf(self) -> bool {
        &&& 0 <= self.last_fsn < 128
        &&& 0 <= self.last_acked < 256
        &&& forall|i: int|
            0 <= i < self.unacked.len() ==> (#[trigger] self.unacked[i]).fsn == self.fsn_at(i)
        &&& self.basic_cursor matches Some(c) ==> self.method is Basic && 0 <= c
            <= self.unacked.len()
        &&& 0 <= self.pcr_cursor <= self.unacked.len()
        &&& self.method is Basic ==> self.pcr_cursor == 0
        // Forced retransmission keeps the backlog within its threshold.
        &&& self.method matches RetransmissionMethod::Pcr(params) ==> self.unacked.len()
            <= params.n1
    }

    /// PCR: whether the backlog has reached a threshold, so that no new MSU is sent.
    pub open spec fn forced(self) -> bool {
        &&& self.method is Pcr
        &&& {
            ||| self.unacked.len() >= self.method->Pcr_0.n1
            ||| total_octets(self.unacked) >= self.method->Pcr_0.n2
        }
    }

    /// Which buffered MSU is sent next, if a buffered one is. Basic: the one at the
    /// cursor of a retransmission under way. PCR: the one at the cyclic cursor, when
    /// there is no new MSU to send or none may be sent.
    pub open spec fn resend_index(self) -> Option<int> {
        match self.method {
            RetransmissionMethod::Basic => match self.basic_cursor {
                Some(c) if c < self.unacked.len() => Some(c),
                _ => None,
            },
            RetransmissionMethod::Pcr(_) => if self.unacked.len() > 0 && (self.forced()
                || self.pending.len() == 0) {
                Some(
                    if self.pcr_cursor < self.unacked.len() {
                        self.pcr_cursor
                    } else {
                        0
                    },
                )
            } else {
                None
            },
        }
    }

    /// Whether the oldest waiting MSU is sent next.
    pub open spec fn sends_new(self) -> bool {
        self.resend_index() is None && self.pending.len() > 0 && !self.forced()
    }

    /// The frame that is sent next: a buffered MSU, else the oldest waiting MSU under
    /// the next FSN, else a FISU.
    pub open spec fn next_frame(self) -> TxFrameView {
        match self.resend_index() {
            Some(i) => TxFrameView {
                fsn: self.unacked[i].fsn,
                fib: self.fib,
                body: TxBodyView::Msu(self.unacked[i].body),
            },
            None => if self.sends_new() {
                TxFrameView {
                    fsn: next_number(self.last_fsn),
                    fib: self.fib,
                    body: TxBodyView::Msu(self.pending[0]),
                }
            } else {
                TxFrameView { fsn: self.last_fsn, fib: self.fib, body: TxBodyView::Fisu }
            },
        }
    }

    /// The queues with the oldest waiting MSU moved to the end of the buffer, under the
    /// next FSN.
    pub open spec fn with_new_sent(self) -> TxControlView {
        TxControlView {
            last_fsn: next_number(self.last_fsn),
            pending: self.pending.drop_first(),
            unacked: self.unacked.push(
                SentMsu { fsn: next_number(self.last_fsn), body: self.pending[0] },
            ),
            ..self
        }
    }

    /// The state after sending: a cursor moves on behind a buffered MSU, and a new MSU
    /// goes to the end of the buffer. Where no buffered MSU is sent, a retransmission
    /// under the Basic method is over; a new MSU restarts the cyclic sweep.
    pub open spec fn polled(self) -> TxControlView {
        match self.resend_index() {
            Some(i) => if self.method is Basic {
                TxControlView { basic_cursor: Some(i + 1), ..self }
            } else {
                TxControlView { pcr_cursor: i + 1, ..self }
            },
            None => if self.sends_new() {
                TxControlView { basic_cursor: None, pcr_cursor: 0, ..self.with_new_sent() }
            } else {
                TxControlView { basic_cursor: None, ..self }
            },
        }
    }

    /// The state after one more MSU is queued.
    pub open spec fn submitted(self, body: MsuBody) -> TxControlView {
        TxControlView { pending: self.pending.push(body), ..self }
    }

    /// How many MSUs at the front of the buffer a BSN acknowledges. The numbers in the
    /// buffer are consecutive, so the distance from the oldest is the index of the first
    /// MSU of that number, and the MSUs up to and with it are acknowledged. A BSN ahead of
    /// the whole buffer, by less than half the sequence space from the oldest, acknowledges
    /// all of it. The number just before the oldest acknowledges nothing, even where the
    /// buffer is so long that an MSU in it has that number again.
    pub open spec fn acknowledged(self, bsn: int) -> int {
        if self.unacked.len() == 0 {
            0
        } else {
            let ahead = distance(bsn, self.unacked[0].fsn);
            if ahead < self.unacked.len() && ahead < 127 {
                ahead + 1
            } else if self.unacked.len() <= ahead < 64 {
                self.unacked.len() as int
            } else {
                0
            }
        }
    }

    /// Whether a BIB is a negative acknowledgement.
    pub open spec fn is_nack(self, bib: bool) -> bool {
        self.method is Basic && bib != self.fib
    }

    /// The state after an acknowledgement: the acknowledged MSUs leave the buffer. A
    /// negative acknowledgement makes the FIB follow the BIB and starts a
    /// retransmission of all that is left; without one, a retransmission under way
    /// goes on with the MSU it had reached.
    pub open spec fn acked(self, bsn: int, bib: bool) -> TxControlView {
        let freed = self.acknowledged(bsn);
        TxControlView {
            unacked: self.unacked.skip(freed),
            fib: if self.is_nack(bib) {
                bib
            } else {
                self.fib
            },
            basic_cursor: if self.is_nack(bib) && freed < self.unacked.len() {
                Some(0)
            } else {
                match self.basic_cursor {
                    Some(c) => Some(
                        if freed <= c {
                            c - freed
                        } else {
                            0
                        },
                    ),
                    None => None,
                }
            },
            pcr_cursor: if freed > 0 {
                0
            } else {
                self.pcr_cursor
            },
            last_acked: if freed > 0 {
                bsn
            } else {
                self.last_acked
            },
            ..self
        }
    }
}

/// Transmit-side error correction: FSN assignment, the retransmission buffer, and the
/// method-specific choice of what to send next.
#[derive(Debug, Clone)]
pub struct TxControl {
    method: RetransmissionMethod,
    /// FSN of the most recently assigned MSU. Starts at 127 so the first MSU is 0.
    last_fsn: u8,
    /// Forward Indicator Bit. Initial value 1.
    fib: bool,
    /// New MSUs awaiting their first transmission.
    pending: VecDeque<(u8, Vec<u8>)>,
    /// Transmitted but unacknowledged MSUs (the retransmission buffer).
    unacked: VecDeque<BufferedMsu>,
    /// Basic method: index into `unacked` of the next MSU to retransmit after a
    /// negative acknowledgement (`None` when not retransmitting).
    basic_cursor: Option<usize>,
    /// PCR: cursor for cyclic retransmission of `unacked`.
    pcr_cursor: usize,
    /// FSN most recently acknowledged by the peer's BSN.
    last_acked: u8,
}

/// The payloads of a queue of waiting MSUs.
closed spec fn bodies(queue: Seq<(u8, Vec<u8>)>) -> Seq<MsuBody> {
    queue.map_values(|m: (u8, Vec<u8>)| MsuBody { sio: m.0, sif: m.1@ })
}

/// The contents of a retransmission buffer.
closed spec fn contents(buffer: Seq<BufferedMsu>) -> Seq<SentMsu> {
    buffer.map_values(|m: BufferedMsu| m@)
}

impl View for TxControl {
    type V = TxControlView;

    closed spec fn view(&self) -> TxControlView {
        TxControlView {
            method: self.method,
            last_fsn: self.last_fsn as int,
            fib: self.fib,
            pending: bodies(self.pending@),
            unacked: contents(self.unacked@),
            basic_cursor: match self.basic_cursor {
                Some(c) => Some(c as int),
                None => None,
            },
            pcr_cursor: self.pcr_cursor as int,
            last_acked: self.last_acked as int,
        }
    }
}

impl TxControl {
    /// Create a transmit controller for `method`, with the initial sequence state
    /// (FSN 127, FIB 1).
    pub fn new(method: RetransmissionMethod) -> (tx: Self)
        ensures
            tx@ == TxControlView::fresh(method),
            tx@.wf(),
    {
        let tx = TxControl {
            method,
            last_fsn: (SEQ_MODULUS - 1) as u8,
            fib: true,
            pending: VecDeque::new(),
            unacked: VecDeque::new(),
            basic_cursor: None,
            pcr_cursor: 0,
            last_acked: (SEQ_MODULUS - 1) as u8,
        };
        assert(tx@ =~= TxControlView::fresh(method));
        tx
    }

    /// Return to the initial sequence state with an empty retransmission buffer; the
    /// MSUs that await their first transmission stay queued.
    pub(crate) fn restart(&mut self)
        ensures
            final(self)@ == old(self)@.restarted(),
            final(self)@.wf(),
    {
        self.last_fsn = (SEQ_MODULUS - 1) as u8;
        self.fib = true;
        self.unacked = VecDeque::new();
        self.basic_cursor = None;
        self.pcr_cursor = 0;
        self.last_acked = (SEQ_MODULUS - 1) as u8;
        assert(self@ =~= old(self)@.restarted());
    }

    /// Current Forward Indicator Bit.
    pub fn fib(&self) -> (fib: bool)
        ensures
            fib == self@.fib,
    {
        self.fib
    }

    /// FSN carried by a FISU/LSSU: the most recently assigned MSU sequence number.
    pub fn last_fsn(&self) -> (fsn: u8)
        ensures
            fsn == self@.last_fsn,
    {
        self.last_fsn
    }

    /// Number of unacknowledged MSUs held for retransmission.
    pub fn unacked_len(&self) -> (n: usize)
        ensures
            n == self@.unacked.len(),
    {
        self.unacked.len()
    }

    /// Queue a new MSU (SIO + SIF) from level 3 for transmission.
    pub fn submit(&mut self, sio: u8, sif: Vec<u8>)
        ensures
            final(self)@ == old(self)@.submitted(MsuBody { sio, sif: sif@ }),
            old(self)@.wf() ==> final(self)@.wf(),
    {
        self.pending.push_back((sio, sif));
        assert(self@ =~= old(self)@.submitted(MsuBody { sio, sif: sif@ }));
    }

    /// Total octets currently unacknowledged (for the PCR `n2` threshold), capped at
    /// the largest threshold there can be.
    fn unacked_octets(&self) -> (octets: usize)
        ensures
            octets == if total_octets(self@.unacked) <= usize::MAX {
                total_octets(self@.unacked) as int
            } else {
                usize::MAX as int
            },
    {
        let mut octets: usize = 0;
        let mut i: usize = 0;
        while i < self.unacked.len()
            invariant
                i <= self.unacked@.len(),
                self@.unacked.len() == self.unacked@.len(),
                octets == if total_octets(self@.unacked.take(i as int)) <= usize::MAX {
                    total_octets(self@.unacked.take(i as int)) as int
                } else {
                    usize::MAX as int
                },
            decreases self.unacked@.len() - i,
        {
            let body: usize = self.unacked[i].sif.len().saturating_add(1);
            assert(self@.unacked.take(i + 1).drop_last() =~= self@.unacked.take(i as int));
            assert(self@.unacked.take(i + 1).last() == self.unacked@[i as int]@);
            octets = octets.saturating_add(body);
            i = i + 1;
        }
        assert(self@.unacked.take(i as int) =~= self@.unacked);
        octets
    }

    /// Decide the next frame to transmit. An active link always transmits, so this
    /// returns a FISU when there is nothing else to send.
    pub fn poll(&mut self) -> (frame: TxFrame)
        requires
            old(self)@.wf(),
        ensures
            frame@ == old(self)@.next_frame(),
            final(self)@ == old(self)@.polled(),
            final(self)@.wf(),
    {
        match self.method {
            RetransmissionMethod::Basic => self.poll_basic(),
            RetransmissionMethod::Pcr(params) => self.poll_pcr(params),
        }
    }

    /// Send the buffered MSU at index `i`.
    fn buffered_frame(&self, i: usize) -> (frame: TxFrame)
        requires
            i < self@.unacked.len(),
        ensures
            frame@ == (TxFrameView {
                fsn: self@.unacked[i as int].fsn,
                fib: self@.fib,
                body: TxBodyView::Msu(self@.unacked[i as int].body),
            }),
    {
        let m = &self.unacked[i];
        let sif = m.sif.clone();
        assert(sif@ =~= m.sif@);
        TxFrame { fsn: m.fsn, fib: self.fib, body: TxBody::Msu { sio: m.sio, sif } }
    }

    /// Send the oldest waiting MSU, if there is one: it gets the next FSN and goes to
    /// the end of the retransmission buffer.
    fn send_new(&mut self) -> (frame: Option<TxFrame>)
        requires
            old(self)@.wf(),
            !old(self)@.forced(),
        ensures
            match frame {
                Some(frame) => {
                    &&& old(self)@.pending.len() > 0
                    &&& frame@ == (TxFrameView {
                        fsn: next_number(old(self)@.last_fsn),
                        fib: old(self)@.fib,
                        body: TxBodyView::Msu(old(self)@.pending[0]),
                    })
                    &&& final(self)@ == old(self)@.with_new_sent()
                    &&& final(self)@.wf()
                },
                None => old(self)@.pending.len() == 0 && final(self)@ == old(self)@,
            },
    {
        match self.pending.pop_front() {
            Some((sio, sif)) => {
                let fsn: u8 = seq_add(self.last_fsn, 1);
                self.last_fsn = fsn;
                let copy = sif.clone();
                assert(copy@ =~= sif@);
                self.unacked.push_back(BufferedMsu { fsn, sio, sif: copy });
                proof {
                    let before = old(self)@;
                    assert(before.pending[0] == (MsuBody { sio, sif: sif@ }));
                    assert(self@ =~= before.with_new_sent());
                    lemma_push_keeps_numbers(before);
                }
                Some(TxFrame { fsn, fib: self.fib, body: TxBody::Msu { sio, sif } })
            },
            None => None,
        }
    }

    fn poll_basic(&mut self) -> (frame: TxFrame)
        requires
            old(self)@.wf(),
            old(self)@.method is Basic,
        ensures
            frame@ == old(self)@.next_frame(),
            final(self)@ == old(self)@.polled(),
            final(self)@.wf(),
    {
        // A negative acknowledgement is being serviced: retransmit the buffer.
        if let Some(cursor) = self.basic_cursor {
            if cursor < self.unacked.len() {
                let frame = self.buffered_frame(cursor);
                self.basic_cursor = Some(cursor + 1);
                return frame;
            }
            // The buffer is fully retransmitted; resume normal transmission.
            self.basic_cursor = None;
        }
        // A new MSU is waiting: assign the next FSN and buffer it.
        if let Some(frame) = self.send_new() {
            return frame;
        }
        // Nothing to send: a FISU with the current FSN/FIB.
        TxFrame { fsn: self.last_fsn, fib: self.fib, body: TxBody::Fisu }
    }

    fn poll_pcr(&mut self, params: PcrParams) -> (frame: TxFrame)
        requires
            old(self)@.wf(),
            old(self)@.method == RetransmissionMethod::Pcr(params),
        ensures
            frame@ == old(self)@.next_frame(),
            final(self)@ == old(self)@.polled(),
            final(self)@.wf(),
            final(self)@.unacked.len() <= params.n1,
    {
        let forced = self.unacked.len() >= params.n1 || self.unacked_octets() >= params.n2;
        // A new MSU, and no forced retransmission: send it.
        if !forced {
            if let Some(frame) = self.send_new() {
                // A fresh MSU restarts the cyclic sweep from the buffer head.
                self.pcr_cursor = 0;
                return frame;
            }
        }
        // Idle (or forced): cyclically retransmit the unacknowledged buffer.
        if self.unacked.len() > 0 {
            if self.pcr_cursor >= self.unacked.len() {
                self.pcr_cursor = 0;
            }
            let frame = self.buffered_frame(self.pcr_cursor);
            self.pcr_cursor = self.pcr_cursor + 1;
            return frame;
        }
        // Nothing outstanding: a FISU.
        TxFrame { fsn: self.last_fsn, fib: self.fib, body: TxBody::Fisu }
    }

    /// Apply the peer's acknowledgement carried in every received SU: the BSN
    /// positively acknowledges (frees the buffer) and, under the Basic method, a BIB
    /// that no longer matches our FIB is a negative acknowledgement that triggers
    /// retransmission.
    pub fn on_ack(&mut self, bsn: u8, bib: bool)
        requires
            old(self)@.wf(),
        ensures
            final(self)@ == old(self)@.acked(bsn as int, bib),
            final(self)@.wf(),
    {
        // Positive acknowledgement: drop every buffered MSU at or before BSN. The number
        // just before the oldest is the one acknowledged last and frees nothing.
        let ghost before = self@;
        assert(before.unacked.len() == self.unacked@.len());
        let mut acknowledged: usize = 0;
        if self.unacked.len() > 0 {
            assert(self.unacked@[0]@ == before.unacked[0]);
            assert(before.unacked[0].fsn == before.fsn_at(0));
            let ahead: usize = seq_forward(bsn, self.unacked[0].fsn) as usize;
            if ahead < self.unacked.len() {
                if ahead < SEQ_MODULUS as usize - 1 {
                    acknowledged = ahead + 1;
                }
            } else if ahead < SEQ_HALF as usize {
                acknowledged = self.unacked.len();
            }
        }
        let mut freed: usize = 0;
        assert(before.unacked =~= before.unacked.skip(0));
        while freed < acknowledged
            invariant
                freed <= acknowledged <= before.unacked.len(),
                self@ == (TxControlView { unacked: before.unacked.skip(freed as int), ..before }),
            decreases acknowledged - freed,
        {
            assert(self@.unacked.len() == self.unacked@.len());
            let ghost held = self@.unacked;
            let _ = self.unacked.pop_front();
            assert(self@.unacked =~= held.skip(1));
            freed = freed + 1;
            assert(self@.unacked =~= before.unacked.skip(freed as int));
        }
        proof {
            lemma_skip_keeps_numbers(before, freed as int);
            assert(self@.unacked.len() == self.unacked@.len());
        }
        if freed > 0 {
            self.last_acked = bsn;
            self.pcr_cursor = 0;
            if let Some(cursor) = self.basic_cursor {
                // The buffer shrank from the front; keep the cursor on its MSU.
                self.basic_cursor = Some(cursor.saturating_sub(freed));
            }
        }
        // Negative acknowledgement is Basic-method only (PCR never toggles bits).
        if let RetransmissionMethod::Basic = self.method {
            if bib != self.fib {
                self.fib = bib;
                if self.unacked.len() > 0 {
                    self.basic_cursor = Some(0);
                }
            }
        }
        assert(self@.basic_cursor == before.acked(bsn as int, bib).basic_cursor);
        assert(self@ =~= before.acked(bsn as int, bib));
    }
}

/// A new MSU at the end of the buffer keeps the sequence numbers consecutive.
pub proof fn lemma_push_keeps_numbers(before: TxControlView)
    requires
        before.wf(),
        before.pending.len() > 0,
        !before.forced(),
    ensures
        before.with_new_sent().wf(),
{
    let after = before.with_new_sent();
    assert forall|i: int| 0 <= i < after.unacked.len() implies (
    #[trigger] after.unacked[i]).fsn == after.fsn_at(i) by {
        if i < before.unacked.len() {
            assert(after.unacked[i] == before.unacked[i]);
        }
    }
}

/// Dropping MSUs from the front keeps the sequence numbers consecutive.
pub proof fn lemma_skip_keeps_numbers(before: TxControlView, freed: int)
    requires
        before.wf(),
        0 <= freed <= before.unacked.len(),
    ensures
        ({
            let after = TxControlView { unacked: before.unacked.skip(freed), ..before };
            forall|i: int|
                0 <= i < after.unacked.len() ==> (#[trigger] after.unacked[i]).fsn
                    == after.fsn_at(i)
        }),
{
    let after = TxControlView { unacked: before.unacked.skip(freed), ..before };
    assert forall|i: int| 0 <= i < after.unacked.len() implies (
    #[trigger] after.unacked[i]).fsn == after.fsn_at(i) by {
        assert(after.unacked[i] == before.unacked[i + freed]);
    }
}

/// The distance to a BSN falls by one with every MSU further into the buffer.
pub proof fn lemma_distance_at(tx: TxControlView, bsn: int, i: int)
    requires
        tx.wf(),
        0 <= i < tx.unacked.len(),
    ensures
        distance(bsn, tx.unacked[i].fsn) == (distance(bsn, tx.unacked[0].fsn) - i) % 128,
{
    let first = tx.last_fsn - (tx.unacked.len() - 1);
    assert(tx.unacked[0].fsn == tx.fsn_at(0));
    assert(tx.unacked[i].fsn == tx.fsn_at(i));
    lemma_shift(bsn, first, i);
}

/// Distances modulo 128 shift along with their starting point.
proof fn lemma_shift(to: int, from: int, i: int)
    ensures
        (to - (from + i) % 128) % 128 == ((to - from % 128) % 128 - i) % 128,
{
}

/// The receive side's decision about a signal unit.
#[derive(Debug, Clone, PartialEq, Eq)]
pub enum RxOutcome {
    /// An in-sequence MSU whose SIO + SIF is delivered to level 3.
    Accepted { sio: u8, sif: Vec<u8> },
    /// A duplicate or otherwise ignorable SU; no action.
    Discarded,
    /// A gap was detected and (Basic method) the BIB was toggled to request
    /// retransmission.
    RetransmissionRequested,
}

/// The mathematical value of an [`RxOutcome`].
pub enum RxOutcomeView {
    Accepted(MsuBody),
    Discarded,
    RetransmissionRequested,
}

impl View for RxOutcome {
    type V = RxOutcomeView;

    open spec fn view(&self) -> RxOutcomeView {
        match self {
            RxOutcome::Accepted { sio, sif } => RxOutcomeView::Accepted(
                MsuBody { sio: *sio, sif: sif@ },
            ),
            RxOutcome::Discarded => RxOutcomeView::Discarded,
            RxOutcome::RetransmissionRequested => RxOutcomeView::RetransmissionRequested,
        }
    }
}

/// The mathematical value of an [`RxControl`].
pub struct RxControlView {
    pub method: RetransmissionMethod,
    /// FSN of the last accepted MSU.
    pub last_received: int,
    /// Backward Indicator Bit.
    pub bib: bool,
    /// Whether the BIB has been toggled for a gap that is still open.
    pub nack_pending: bool,
}

impl RxControlView {
    /// The initial receive state: FSN 0 is expected, the BIB is set.
    pub open spec fn fresh(method: RetransmissionMethod) -> RxControlView {
        RxControlView { method, last_received: 127, bib: true, nack_pending: false }
    }

    /// Whether the receive side can take an MSU with this FSN: a sequence number out
    /// of the 7-bit field, once accepted, leaves no distance to one far behind it.
    pub open spec fn can_take(self, fsn: int) -> bool {
        self.last_received <= fsn + 128
    }

    /// Whether an FSN is the next one expected.
    pub open spec fn is_next(self, fsn: int) -> bool {
        distance(fsn, self.last_received) == 1
    }

    /// Whether an FSN is ahead of the next one expected, so that something was lost.
    pub open spec fn is_gap(self, fsn: int) -> bool {
        1 < distance(fsn, self.last_received) < 64
    }

    /// The decision about an MSU: the next in sequence is accepted; a gap is answered
    /// with a retransmission request under the Basic method; all else is discarded.
    pub open spec fn outcome(self, fsn: int, body: MsuBody) -> RxOutcomeView {
        if self.is_next(fsn) {
            RxOutcomeView::Accepted(body)
        } else if self.method is Basic && self.is_gap(fsn) {
            RxOutcomeView::RetransmissionRequested
        } else {
            RxOutcomeView::Discarded
        }
    }

    /// The state after an MSU: an accepted one is the last received and closes a gap;
    /// the first out-of-sequence one of a gap toggles the BIB (Basic method).
    pub open spec fn received(self, fsn: int) -> RxControlView {
        if self.is_next(fsn) {
            RxControlView { last_received: fsn, nack_pending: false, ..self }
        } else if self.method is Basic && self.is_gap(fsn) && !self.nack_pending {
            RxControlView { bib: !self.bib, nack_pending: true, ..self }
        } else {
            self
        }
    }
}

/// Receive-side error correction: the sequence check that decides acceptance, and the
/// BSN/BIB the transmit side echoes back to the peer.
#[derive(Debug, Clone)]
pub struct RxControl {
    method: RetransmissionMethod,
    /// FSN of the last accepted MSU. Starts at 127; the first expected FSN is 0.
    last_received: u8,
    /// Backward Indicator Bit. Initial value 1.
    bib: bool,
    /// Whether a gap is currently outstanding (Basic: BIB already toggled once).
    nack_pending: bool,
}

impl View for RxControl {
    type V = RxControlView;

    closed spec fn view(&self) -> RxControlView {
        RxControlView {
            method: self.method,
            last_received: self.last_received as int,
            bib: self.bib,
            nack_pending: self.nack_pending,
        }
    }
}

impl RxControl {
    /// Create a receive controller for `method`, with the initial sequence state
    /// (BSN 127, BIB 1).
    pub fn new(method: RetransmissionMethod) -> (rx: Self)
        ensures
            rx@ == RxControlView::fresh(method),
    {
        RxControl {
            method,
            last_received: (SEQ_MODULUS - 1) as u8,
            bib: true,
            nack_pending: false,
        }
    }

    /// The BSN to place in outgoing SUs: the FSN of the last accepted MSU.
    pub fn bsn(&self) -> (bsn: u8)
        ensures
            bsn == self@.last_received,
    {
        self.last_received
    }

    /// The BIB to place in outgoing SUs.
    pub fn bib(&self) -> (bib: bool)
        ensures
            bib == self@.bib,
    {
        self.bib
    }

    /// Process a received MSU's forward sequence number and payload, returning whether
    /// it is delivered, discarded, or provokes a retransmission request.
    pub fn on_msu(&mut self, fsn: u8, sio: u8, sif: Vec<u8>) -> (outcome: RxOutcome)
        requires
            old(self)@.can_take(fsn as int),
        ensures
            outcome@ == old(self)@.outcome(fsn as int, MsuBody { sio, sif: sif@ }),
            final(self)@ == old(self)@.received(fsn as int),
    {
        let dist: u8 = seq_forward(fsn, self.last_received);
        if dist == 1 {
            // In sequence: accept and advance.
            self.last_received = fsn;
            self.nack_pending = false;
            return RxOutcome::Accepted { sio, sif };
        }
        // Not the next expected FSN: one that is ahead means that something was lost,
        // the last accepted one itself and those behind it are duplicates.
        let is_gap = dist != 0 && (dist as u16) < SEQ_HALF;
        match self.method {
            RetransmissionMethod::Basic => {
                if is_gap {
                    if !self.nack_pending {
                        // Toggle once to negatively acknowledge.
                        self.bib = !self.bib;
                        self.nack_pending = true;
                    }
                    RxOutcome::RetransmissionRequested
                } else {
                    RxOutcome::Discarded
                }
            },
            RetransmissionMethod::Pcr(_) => RxOutcome::Discarded,
        }
    }
}

} // verus!
