//! The link state machine against a scripted peer.

use mtp2::{
    AlignmentFailure, Event, Mtp2Config, Mtp2Link, Mtp2State, OutOfServiceReason, SignalUnit,
    StatusIndication, SuHeader,
};

fn fast_config() -> Mtp2Config {
    // Large guard timers, short proving: only T4 drives the handshake here.
    Mtp2Config {
        t1_aligned_ready: 10_000,
        t2_not_aligned: 10_000,
        t3_aligned: 10_000,
        t4_proving_normal: 3,
        t7_excessive_delay: 10_000,
        t6_remote_congestion: 10_000,
        ..Mtp2Config::default()
    }
}

fn drain_states(link: &mut Mtp2Link) -> Vec<Event> {
    let mut out = Vec::new();
    while let Some(e) = link.poll_event() {
        out.push(e);
    }
    out
}

#[test]
fn start_enters_not_aligned_and_sends_sio() {
    let mut link = Mtp2Link::new(fast_config());
    link.start();
    assert_eq!(link.state(), Mtp2State::NotAligned);
    match link.poll_transmit() {
        Some(SignalUnit::Lssu { status, .. }) => {
            assert_eq!(status, StatusIndication::OutOfAlignment)
        }
        other => panic!("expected LSSU SIO, got {other:?}"),
    }
}

#[test]
fn alignment_sequence_reaches_aligned_ready() {
    let mut link = Mtp2Link::new(fast_config());
    link.start(); // NotAligned, sending SIO

    // Peer sends SIO → Aligned, now sending SIN.
    link.handle_su(&SignalUnit::lssu(
        SuHeader::new(127, true, 127, true).unwrap(),
        StatusIndication::OutOfAlignment,
    ));
    assert_eq!(link.state(), Mtp2State::Aligned);
    assert!(matches!(
        link.poll_transmit(),
        Some(SignalUnit::Lssu {
            status: StatusIndication::NormalAlignment,
            ..
        })
    ));

    // Peer sends SIN → Proving.
    link.handle_su(&SignalUnit::lssu(
        SuHeader::new(127, true, 127, true).unwrap(),
        StatusIndication::NormalAlignment,
    ));
    assert_eq!(link.state(), Mtp2State::Proving);

    // Proving period elapses (T4 = 3) with no errors → Aligned Ready.
    for _ in 0..3 {
        link.tick();
    }
    assert_eq!(link.state(), Mtp2State::AlignedReady);
}

#[test]
fn aerm_trips_and_exhausts_attempts_failing_alignment() {
    let cfg = Mtp2Config {
        aerm_threshold_normal: 2,
        proving_attempts: 1, // no retries
        ..fast_config()
    };
    let mut link = Mtp2Link::new(cfg);
    link.start();
    link.handle_su(&lssu(StatusIndication::OutOfAlignment));
    link.handle_su(&lssu(StatusIndication::NormalAlignment));
    assert_eq!(link.state(), Mtp2State::Proving);

    // Two corrupted SUs during proving trip the AERM.
    link.handle_corrupted_su();
    link.handle_corrupted_su();
    assert_eq!(link.state(), Mtp2State::OutOfService);
    assert!(drain_states(&mut link)
        .contains(&Event::AlignmentFailed(AlignmentFailure::AermTripped)));
}

#[test]
fn suerm_trips_in_service_and_fails_link() {
    let cfg = Mtp2Config {
        suerm_threshold: 3,
        suerm_decrement_interval: 10_000,
        ..fast_config()
    };
    let mut link = Mtp2Link::new(cfg);
    bring_in_service(&mut link);
    assert_eq!(link.state(), Mtp2State::InService);

    link.handle_corrupted_su();
    link.handle_corrupted_su();
    link.handle_corrupted_su();
    assert_eq!(link.state(), Mtp2State::OutOfService);
    assert!(drain_states(&mut link)
        .contains(&Event::OutOfService(OutOfServiceReason::SuermFailure)));
}

#[test]
fn received_sios_in_service_fails_link() {
    let mut link = Mtp2Link::new(fast_config());
    bring_in_service(&mut link);
    link.handle_su(&lssu(StatusIndication::OutOfService));
    assert_eq!(link.state(), Mtp2State::OutOfService);
}

#[test]
fn local_processor_outage_transitions_and_recovers() {
    let mut link = Mtp2Link::new(fast_config());
    bring_in_service(&mut link);
    link.local_processor_outage();
    assert_eq!(link.state(), Mtp2State::ProcessorOutage);
    // Sends SIPO while out.
    assert!(matches!(
        link.poll_transmit(),
        Some(SignalUnit::Lssu {
            status: StatusIndication::ProcessorOutage,
            ..
        })
    ));
    link.local_processor_recovered();
    assert_eq!(link.state(), Mtp2State::InService);
}

#[test]
fn remote_processor_outage_event_and_recovery() {
    let mut link = Mtp2Link::new(fast_config());
    bring_in_service(&mut link);
    let _ = drain_states(&mut link);
    link.handle_su(&lssu(StatusIndication::ProcessorOutage));
    assert!(drain_states(&mut link).contains(&Event::RemoteProcessorOutage));
    // A following FISU clears it.
    link.handle_su(&SignalUnit::fisu(SuHeader::new(0, true, 0, true).unwrap()));
    assert!(drain_states(&mut link).contains(&Event::RemoteProcessorRecovered));
}

#[test]
fn stop_forces_out_of_service() {
    let mut link = Mtp2Link::new(fast_config());
    bring_in_service(&mut link);
    link.stop();
    assert_eq!(link.state(), Mtp2State::OutOfService);
    assert!(link.poll_transmit().is_none()); // powered off
}

// Helpers.
fn lssu(status: StatusIndication) -> SignalUnit {
    SignalUnit::lssu(SuHeader::new(127, true, 127, true).unwrap(), status)
}

fn bring_in_service(link: &mut Mtp2Link) {
    link.start();
    link.handle_su(&lssu(StatusIndication::OutOfAlignment));
    link.handle_su(&lssu(StatusIndication::NormalAlignment));
    for _ in 0..3 {
        link.tick();
    }
    assert_eq!(link.state(), Mtp2State::AlignedReady);
    // Peer FISU → In Service.
    link.handle_su(&SignalUnit::fisu(SuHeader::new(0, true, 0, true).unwrap()));
}
