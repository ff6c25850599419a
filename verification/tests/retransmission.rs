//! Error correction: both retransmission methods and the receive side.

use mtp2::retransmission::{RxControl, TxBody, TxControl, TxFrame};
use mtp2::{PcrParams, RetransmissionMethod, RxOutcome};

fn msu_body(frame: &TxFrame) -> Option<(u8, &[u8])> {
    match &frame.body {
        TxBody::Msu { sio, sif } => Some((*sio, sif)),
        TxBody::Fisu => None,
    }
}

#[test]
fn basic_assigns_sequential_fsns_from_zero() {
    let mut tx = TxControl::new(RetransmissionMethod::Basic);
    tx.submit(0x83, vec![1]);
    tx.submit(0x83, vec![2]);
    let f0 = tx.poll();
    let f1 = tx.poll();
    assert_eq!(f0.fsn, 0);
    assert_eq!(f1.fsn, 1);
    assert_eq!(tx.unacked_len(), 2);
}

#[test]
fn basic_positive_ack_frees_buffer() {
    let mut tx = TxControl::new(RetransmissionMethod::Basic);
    tx.submit(0x83, vec![1]);
    tx.submit(0x83, vec![2]);
    tx.poll();
    tx.poll();
    assert_eq!(tx.unacked_len(), 2);
    tx.on_ack(1, true); // BSN 1 acknowledges FSN 0 and 1
    assert_eq!(tx.unacked_len(), 0);
    // Idle now → FISU.
    assert_eq!(tx.poll().body, TxBody::Fisu);
}

#[test]
fn basic_negative_ack_retransmits_from_buffer() {
    // Transmitter sends FSN 0,1,2; peer negatively acknowledges after FSN 0.
    let mut tx = TxControl::new(RetransmissionMethod::Basic);
    for i in 0..3u8 {
        tx.submit(0x83, vec![i]);
        tx.poll();
    }
    assert_eq!(tx.unacked_len(), 3);
    // Peer acks FSN 0 and toggles BIB (was 1 → 0): NACK requesting 1,2.
    tx.on_ack(0, false);
    assert_eq!(tx.unacked_len(), 2); // FSN 0 freed
    assert!(!tx.fib()); // FIB now echoes the toggled BIB
                        // Next polls retransmit FSN 1 then FSN 2 from the buffer.
    let r1 = tx.poll();
    let r2 = tx.poll();
    assert_eq!(r1.fsn, 1);
    assert_eq!(msu_body(&r1).unwrap().1, &[1]);
    assert_eq!(r2.fsn, 2);
    assert_eq!(msu_body(&r2).unwrap().1, &[2]);
    // Buffer exhausted → back to FISU.
    assert_eq!(tx.poll().body, TxBody::Fisu);
}

#[test]
fn rx_accepts_in_sequence_and_delivers() {
    let mut rx = RxControl::new(RetransmissionMethod::Basic);
    let out = rx.on_msu(0, 0x83, vec![0xAA]);
    assert_eq!(
        out,
        RxOutcome::Accepted {
            sio: 0x83,
            sif: vec![0xAA]
        }
    );
    assert_eq!(rx.bsn(), 0);
}

#[test]
fn rx_basic_gap_toggles_bib_once() {
    let mut rx = RxControl::new(RetransmissionMethod::Basic);
    rx.on_msu(0, 0x83, vec![0]); // accept FSN 0
    let bib_before = rx.bib();
    // FSN 2 arrives (1 was lost) → gap → NACK, BIB toggles.
    assert_eq!(
        rx.on_msu(2, 0x83, vec![2]),
        RxOutcome::RetransmissionRequested
    );
    assert_eq!(rx.bib(), !bib_before);
    assert_eq!(rx.bsn(), 0); // still acknowledging FSN 0
                             // A second out-of-sequence SU does not toggle again.
    assert_eq!(
        rx.on_msu(3, 0x83, vec![3]),
        RxOutcome::RetransmissionRequested
    );
    assert_eq!(rx.bib(), !bib_before);
}

#[test]
fn basic_lost_msu_end_to_end_recovers_in_order() {
    // Model a lossy link between one TxControl and one RxControl (Basic).
    let mut tx = TxControl::new(RetransmissionMethod::Basic);
    let mut rx = RxControl::new(RetransmissionMethod::Basic);
    for i in 0..3u8 {
        tx.submit(0x83, vec![i]);
    }
    let mut delivered: Vec<u8> = Vec::new();

    // Send FSN 0 → delivered.
    let f0 = tx.poll();
    if let TxBody::Msu { sio, sif } = f0.body.clone() {
        if let RxOutcome::Accepted { sif, .. } = rx.on_msu(f0.fsn, sio, sif) {
            delivered.push(sif[0]);
        }
    }
    // Send FSN 1 but LOSE it (never handed to rx).
    let _f1_lost = tx.poll();
    // Send FSN 2 → rx sees a gap, NACKs.
    let f2 = tx.poll();
    if let TxBody::Msu { sio, sif } = f2.body.clone() {
        assert_eq!(
            rx.on_msu(f2.fsn, sio, sif),
            RxOutcome::RetransmissionRequested
        );
    }
    // The NACK (rx.bsn=0, rx.bib toggled) reaches tx.
    tx.on_ack(rx.bsn(), rx.bib());
    // tx retransmits FSN 1 then FSN 2; both now delivered in order.
    for _ in 0..2 {
        let r = tx.poll();
        if let TxBody::Msu { sio, sif } = r.body.clone() {
            if let RxOutcome::Accepted { sif, .. } = rx.on_msu(r.fsn, sio, sif) {
                delivered.push(sif[0]);
            }
        }
    }
    assert_eq!(delivered, vec![0, 1, 2]);
}

#[test]
fn pcr_cyclically_retransmits_when_idle() {
    let params = PcrParams::default();
    let mut tx = TxControl::new(RetransmissionMethod::Pcr(params));
    tx.submit(0x83, vec![1]);
    tx.submit(0x83, vec![2]);
    let f0 = tx.poll(); // new FSN 0
    let f1 = tx.poll(); // new FSN 1
    assert_eq!(f0.fsn, 0);
    assert_eq!(f1.fsn, 1);
    // Idle now: cyclic retransmission replays FSN 0, 1, 0, 1, ...
    assert_eq!(tx.poll().fsn, 0);
    assert_eq!(tx.poll().fsn, 1);
    assert_eq!(tx.poll().fsn, 0);
    // No BIB toggling in PCR: FIB is unchanged.
    assert!(tx.fib());
}

#[test]
fn pcr_never_nacks_and_recovers_by_cyclic_retransmit() {
    let params = PcrParams::default();
    let mut tx = TxControl::new(RetransmissionMethod::Pcr(params));
    let mut rx = RxControl::new(RetransmissionMethod::Pcr(params));
    tx.submit(0x83, vec![10]);
    tx.submit(0x83, vec![11]);
    let mut delivered = Vec::new();

    let f0 = tx.poll(); // FSN 0
    if let TxBody::Msu { sio, sif } = f0.body.clone() {
        if let RxOutcome::Accepted { sif, .. } = rx.on_msu(f0.fsn, sio, sif) {
            delivered.push(sif[0]);
        }
    }
    // FSN 1 sent but LOST.
    let _lost = tx.poll();
    // Idle: PCR retransmits cyclically. FSN 0 (duplicate → discarded), then FSN 1.
    for _ in 0..2 {
        let r = tx.poll();
        if let TxBody::Msu { sio, sif } = r.body.clone() {
            match rx.on_msu(r.fsn, sio, sif) {
                RxOutcome::Accepted { sif, .. } => delivered.push(sif[0]),
                // A duplicate is silently dropped; PCR never requests retransmit.
                RxOutcome::Discarded => {}
                RxOutcome::RetransmissionRequested => panic!("PCR must not NACK"),
            }
        }
    }
    assert_eq!(delivered, vec![10, 11]);
}

#[test]
fn pcr_forced_retransmission_holds_new_msus() {
    // N1 = 1: after one unacknowledged MSU, new MSUs are held.
    let params = PcrParams { n1: 1, n2: 100_000 };
    let mut tx = TxControl::new(RetransmissionMethod::Pcr(params));
    tx.submit(0x83, vec![1]);
    tx.submit(0x83, vec![2]);
    let f0 = tx.poll();
    assert_eq!(f0.fsn, 0); // first MSU goes out
                           // Now unacked_len == 1 == N1 → forced: the second MSU is held, FSN 0 replays.
    let f = tx.poll();
    assert_eq!(f.fsn, 0);
    assert_eq!(tx.unacked_len(), 1);
}
