//! Error correction and the monitors at their edges.

use mtp2::monitor::{Aerm, Suerm};
use mtp2::retransmission::{RxControl, TxBody, TxControl};
use mtp2::{PcrParams, RetransmissionMethod, RxOutcome};

const BASIC: RetransmissionMethod = RetransmissionMethod::Basic;

fn pcr(n1: usize, n2: usize) -> RetransmissionMethod {
    RetransmissionMethod::Pcr(PcrParams { n1, n2 })
}

/// A transmit side with `n` MSUs sent.
fn sent(method: RetransmissionMethod, n: u8) -> TxControl {
    let mut tx = TxControl::new(method);
    for i in 0..n {
        tx.submit(0x83, vec![i]);
        tx.poll();
    }
    tx
}

fn payload(body: TxBody) -> Option<u8> {
    match body {
        TxBody::Msu { sif, .. } => Some(sif[0]),
        TxBody::Fisu => None,
    }
}

#[test]
fn initial_values() {
    let mut tx = TxControl::new(BASIC);
    assert_eq!(tx.last_fsn(), 127);
    assert!(tx.fib());
    assert_eq!(tx.unacked_len(), 0);
    let frame = tx.poll();
    assert_eq!((frame.fsn, frame.fib, frame.body), (127, true, TxBody::Fisu));
    let rx = RxControl::new(BASIC);
    assert_eq!((rx.bsn(), rx.bib()), (127, true));
    assert_eq!(PcrParams::default(), PcrParams { n1: 127, n2: 8000 });
}

#[test]
fn a_retransmission_goes_on_where_it_was_when_several_are_freed() {
    let mut tx = sent(BASIC, 6);
    tx.on_ack(127, false);
    assert_eq!(payload(tx.poll().body), Some(0));
    assert_eq!(payload(tx.poll().body), Some(1));
    assert_eq!(payload(tx.poll().body), Some(2));
    // The first three are acknowledged: three are left, none is skipped.
    tx.on_ack(2, false);
    assert_eq!(tx.unacked_len(), 3);
    let rest: Vec<Option<u8>> = (0..4).map(|_| payload(tx.poll().body)).collect();
    assert_eq!(rest, vec![Some(3), Some(4), Some(5), None]);
}

#[test]
fn an_acknowledgement_frees_up_to_its_number() {
    let mut tx = sent(BASIC, 70);
    tx.on_ack(63, true);
    assert_eq!(tx.unacked_len(), 6);
    let mut tx = sent(BASIC, 65);
    tx.on_ack(64, true);
    assert_eq!(tx.unacked_len(), 0);
    let mut tx = sent(BASIC, 127);
    tx.on_ack(125, true);
    assert_eq!(tx.unacked_len(), 1);
    // An old one frees nothing; one ahead of all that is held frees everything, up to
    // half the sequence space.
    let mut tx = sent(BASIC, 3);
    tx.on_ack(1, true);
    tx.on_ack(0, true);
    tx.on_ack(1, true);
    assert_eq!(tx.unacked_len(), 1);
    tx.on_ack(3, true);
    assert_eq!(tx.unacked_len(), 0);
    let mut tx = sent(BASIC, 3);
    tx.on_ack(64, true);
    assert_eq!(tx.unacked_len(), 3);
    tx.on_ack(63, true);
    assert_eq!(tx.unacked_len(), 0);
}

#[test]
fn a_repeated_acknowledgement_changes_nothing() {
    // 129 MSUs: the number 0 was assigned twice.
    let mut tx = sent(BASIC, 129);
    for _ in 0..3 {
        tx.on_ack(0, true);
        assert_eq!(tx.unacked_len(), 128);
    }
    // The initial BSN acknowledges nothing of however many.
    let mut tx = sent(BASIC, 200);
    tx.on_ack(127, true);
    assert_eq!(tx.unacked_len(), 200);
    tx.on_ack(126, true);
    assert_eq!(tx.unacked_len(), 73);
}

#[test]
fn the_pcr_backlog_stays_within_its_threshold() {
    let mut tx = TxControl::new(pcr(3, 8000));
    for i in 0..20u8 {
        tx.submit(0x83, vec![i]);
        tx.poll();
        assert!(tx.unacked_len() <= 3);
        if i % 4 == 3 {
            tx.on_ack(tx.last_fsn(), true);
        }
    }
    let mut tx = TxControl::new(pcr(0, 8000));
    tx.submit(0x83, vec![1]);
    assert_eq!(tx.poll().body, TxBody::Fisu);
}

#[test]
fn a_negative_acknowledgement_with_nothing_left_resends_nothing() {
    let mut tx = sent(BASIC, 2);
    tx.on_ack(1, false);
    assert!(!tx.fib());
    assert_eq!(tx.poll().body, TxBody::Fisu);
    tx.submit(0x83, vec![9]);
    let frame = tx.poll();
    assert_eq!((frame.fsn, frame.fib), (2, false));
}

#[test]
fn sequence_numbers_wrap() {
    let mut tx = TxControl::new(BASIC);
    let mut rx = RxControl::new(BASIC);
    for i in 0..300u32 {
        tx.submit(0x83, vec![(i % 256) as u8]);
        let frame = tx.poll();
        assert_eq!(frame.fsn as u32, i % 128);
        let outcome = match frame.body {
            TxBody::Msu { sio, sif } => rx.on_msu(frame.fsn, sio, sif),
            TxBody::Fisu => RxOutcome::Discarded,
        };
        assert_eq!(
            outcome,
            RxOutcome::Accepted { sio: 0x83, sif: vec![(i % 256) as u8] }
        );
        tx.on_ack(rx.bsn(), rx.bib());
        assert_eq!(tx.unacked_len(), 0);
    }
}

#[test]
fn duplicates_are_discarded_under_both_methods() {
    for method in [BASIC, pcr(127, 8000)] {
        let mut rx = RxControl::new(method);
        for fsn in 0..3 {
            rx.on_msu(fsn, 0x83, vec![fsn]);
        }
        for fsn in [2, 1, 0, 127] {
            assert_eq!(rx.on_msu(fsn, 0x83, vec![fsn]), RxOutcome::Discarded);
        }
        assert_eq!((rx.bsn(), rx.bib()), (2, true));
    }
}

#[test]
fn a_gap_ends_at_half_the_space() {
    let mut rx = RxControl::new(BASIC);
    assert_eq!(rx.on_msu(63, 0, vec![]), RxOutcome::Discarded);
    assert_eq!(rx.on_msu(62, 0, vec![]), RxOutcome::RetransmissionRequested);
    assert!(!rx.bib());
    // An accepted MSU ends the request; the next gap toggles again.
    assert_eq!(rx.on_msu(0, 1, vec![2]), RxOutcome::Accepted { sio: 1, sif: vec![2] });
    assert!(!rx.bib());
    assert_eq!(rx.on_msu(2, 0, vec![]), RxOutcome::RetransmissionRequested);
    assert!(rx.bib());
}

#[test]
fn pcr_drops_what_is_out_of_sequence() {
    let mut rx = RxControl::new(pcr(127, 8000));
    assert_eq!(rx.on_msu(1, 0, vec![]), RxOutcome::Discarded);
    assert_eq!((rx.bsn(), rx.bib()), (127, true));
}

#[test]
fn pcr_octet_threshold_forces_retransmission() {
    // Two MSUs of five octets each reach N2 = 10.
    let mut tx = TxControl::new(pcr(100, 10));
    for i in 0..3u8 {
        tx.submit(0x83, vec![i; 4]);
    }
    assert_eq!(tx.poll().fsn, 0);
    assert_eq!(tx.poll().fsn, 1);
    let forced: Vec<u8> = (0..4).map(|_| tx.poll().fsn).collect();
    assert_eq!(forced, vec![0, 1, 0, 1]);
    // With one acknowledged the backlog is below the threshold.
    tx.on_ack(0, true);
    assert_eq!(tx.poll().fsn, 2);
}

#[test]
fn pcr_ignores_the_indicator_bit() {
    let mut tx = sent(pcr(127, 8000), 2);
    tx.on_ack(127, false);
    assert!(tx.fib());
    assert_eq!(tx.unacked_len(), 2);
}

#[test]
fn monitors_saturate_and_leak() {
    let mut aerm = Aerm::new(0);
    assert!(aerm.is_tripped());
    assert!(aerm.record_error());
    // An error that completes an interval is leaked at once.
    let mut suerm = Suerm::new(3, 2);
    assert!(!suerm.record(true));
    assert!(!suerm.record(true));
    assert_eq!(suerm.count(), 1);
    assert!(!suerm.record(true));
    assert_eq!(suerm.count(), 2);
    assert!(!suerm.record(true));
    assert_eq!(suerm.count(), 2);
    // A failure stays until the reset.
    let mut suerm = Suerm::new(1, 256);
    assert!(suerm.record(true));
    assert!(suerm.record(false));
    suerm.reset();
    assert!(!suerm.record(false));
}
