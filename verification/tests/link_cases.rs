//! The link at its edges: every reason to fail, primitives at odd moments, and what two
//! links do together.

use mtp2::{
    AlignmentFailure, Event, Mtp2Config, Mtp2Error, Mtp2Link, Mtp2State, OutOfServiceReason,
    PcrParams, RetransmissionMethod, SignalUnit, StatusIndication, SuHeader,
};

fn config() -> Mtp2Config {
    Mtp2Config {
        t1_aligned_ready: 5,
        t2_not_aligned: 4,
        t3_aligned: 6,
        t4_proving_normal: 3,
        t4_proving_emergency: 2,
        t6_remote_congestion: 7,
        t7_excessive_delay: 8,
        ..Mtp2Config::default()
    }
}

fn lssu(status: StatusIndication) -> SignalUnit {
    SignalUnit::lssu(SuHeader::new(127, true, 127, true).unwrap(), status)
}

fn fisu() -> SignalUnit {
    SignalUnit::fisu(SuHeader::new(127, true, 127, true).unwrap())
}

fn msu(fsn: u8, sif: Vec<u8>) -> SignalUnit {
    SignalUnit::msu(SuHeader::new(127, true, fsn, true).unwrap(), 0x83, sif).unwrap()
}

fn drain(link: &mut Mtp2Link) -> Vec<Event> {
    let mut out = Vec::new();
    while let Some(e) = link.poll_event() {
        out.push(e);
    }
    out
}

fn ticks(link: &mut Mtp2Link, n: u32) {
    for _ in 0..n {
        link.tick();
    }
}

fn proving(config: Mtp2Config) -> Mtp2Link {
    let mut link = Mtp2Link::new(config);
    link.start();
    link.handle_su(&lssu(StatusIndication::OutOfAlignment));
    link.handle_su(&lssu(StatusIndication::NormalAlignment));
    assert_eq!(link.state(), Mtp2State::Proving);
    link
}

fn ready(config: Mtp2Config) -> Mtp2Link {
    let mut link = proving(config);
    ticks(&mut link, config.t4_proving_normal);
    assert_eq!(link.state(), Mtp2State::AlignedReady);
    link
}

fn in_service(config: Mtp2Config) -> Mtp2Link {
    let mut link = ready(config);
    link.handle_su(&fisu());
    assert_eq!(drain(&mut link), vec![Event::InService]);
    link
}

fn status_of(link: &mut Mtp2Link) -> Option<StatusIndication> {
    match link.poll_transmit() {
        Some(SignalUnit::Lssu { status, .. }) => Some(status),
        _ => None,
    }
}

#[test]
fn default_configuration() {
    let d = Mtp2Config::default();
    assert_eq!(d.method, RetransmissionMethod::Basic);
    assert!(!d.emergency);
    assert_eq!((d.t1_aligned_ready, d.t2_not_aligned, d.t3_aligned), (500, 250, 20));
    assert_eq!((d.t4_proving_normal, d.t4_proving_emergency), (120, 6));
    assert_eq!((d.t6_remote_congestion, d.t7_excessive_delay), (60, 20));
    assert_eq!((d.aerm_threshold_normal, d.aerm_threshold_emergency), (4, 1));
    assert_eq!((d.suerm_threshold, d.suerm_decrement_interval), (64, 256));
    assert_eq!(d.proving_attempts, 5);
}

#[test]
fn texts_of_states_and_links() {
    let mut link = Mtp2Link::new(config());
    assert_eq!(link.to_string(), "MTP2 Link [state=Out of Service]");
    link.start();
    assert_eq!(link.state().to_string(), "Not Aligned");
    let texts: Vec<String> = [
        Mtp2State::Aligned,
        Mtp2State::Proving,
        Mtp2State::AlignedReady,
        Mtp2State::AlignedNotReady,
        Mtp2State::InService,
        Mtp2State::ProcessorOutage,
    ]
    .iter()
    .map(|s| s.to_string())
    .collect();
    assert_eq!(
        texts,
        vec![
            "Aligned",
            "Proving",
            "Aligned Ready",
            "Aligned Not Ready",
            "In Service",
            "Processor Outage"
        ]
    );
}

#[test]
fn guards_fail_an_alignment_that_is_not_answered() {
    let mut link = Mtp2Link::new(config());
    link.start();
    ticks(&mut link, 3);
    assert_eq!(link.state(), Mtp2State::NotAligned);
    link.tick();
    assert_eq!(link.state(), Mtp2State::OutOfService);
    assert_eq!(drain(&mut link), vec![Event::AlignmentFailed(AlignmentFailure::T2Expired)]);
    // A failed link still tells the peer.
    assert_eq!(status_of(&mut link), Some(StatusIndication::OutOfService));

    let mut link = Mtp2Link::new(config());
    link.start();
    link.handle_su(&lssu(StatusIndication::NormalAlignment));
    ticks(&mut link, 5);
    assert_eq!(link.state(), Mtp2State::Aligned);
    link.tick();
    assert_eq!(drain(&mut link), vec![Event::AlignmentFailed(AlignmentFailure::T3Expired)]);

    let mut link = ready(config());
    ticks(&mut link, 4);
    assert_eq!(link.state(), Mtp2State::AlignedReady);
    link.tick();
    assert_eq!(drain(&mut link), vec![Event::AlignmentFailed(AlignmentFailure::T1Expired)]);
}

#[test]
fn a_timer_of_zero_ticks_expires_with_the_first() {
    let mut link = Mtp2Link::new(Mtp2Config { t2_not_aligned: 0, ..config() });
    link.start();
    assert_eq!(link.state(), Mtp2State::NotAligned);
    link.tick();
    assert_eq!(link.state(), Mtp2State::OutOfService);
}

#[test]
fn sios_fails_an_alignment_except_at_its_beginning() {
    let mut link = Mtp2Link::new(config());
    link.start();
    link.handle_su(&lssu(StatusIndication::OutOfService));
    assert_eq!(link.state(), Mtp2State::NotAligned);
    let mut aligned = Mtp2Link::new(config());
    aligned.start();
    aligned.handle_su(&lssu(StatusIndication::OutOfAlignment));
    let mut not_ready = ready(config());
    not_ready.local_processor_outage();
    for mut link in [aligned, proving(config()), ready(config()), not_ready] {
        link.handle_su(&lssu(StatusIndication::OutOfService));
        assert_eq!(link.state(), Mtp2State::OutOfService);
        assert_eq!(
            drain(&mut link),
            vec![Event::AlignmentFailed(AlignmentFailure::ReceivedSios)]
        );
    }
}

#[test]
fn aborted_proving_is_tried_again() {
    let mut link = proving(Mtp2Config {
        aerm_threshold_normal: 2,
        proving_attempts: 2,
        ..config()
    });
    link.handle_corrupted_su();
    assert_eq!(link.state(), Mtp2State::Proving);
    link.handle_corrupted_su();
    assert_eq!(link.state(), Mtp2State::Aligned);
    assert!(link.poll_event().is_none());
    link.handle_su(&lssu(StatusIndication::NormalAlignment));
    assert_eq!(link.state(), Mtp2State::Proving);
    link.handle_corrupted_su();
    link.handle_corrupted_su();
    assert_eq!(drain(&mut link), vec![Event::AlignmentFailed(AlignmentFailure::AermTripped)]);
}

#[test]
fn the_peer_can_fall_back_or_upgrade_while_proving() {
    let mut link = proving(config());
    link.handle_su(&lssu(StatusIndication::OutOfAlignment));
    assert_eq!(link.state(), Mtp2State::Aligned);

    // SIE switches to the shorter proving, and the link announces it.
    let mut link = proving(config());
    link.tick();
    link.handle_su(&lssu(StatusIndication::EmergencyAlignment));
    assert_eq!(status_of(&mut link), Some(StatusIndication::EmergencyAlignment));
    ticks(&mut link, 2);
    assert_eq!(link.state(), Mtp2State::AlignedReady);

    // Once: a further SIE does not begin the period anew.
    let mut link = proving(config());
    link.handle_su(&lssu(StatusIndication::EmergencyAlignment));
    link.tick();
    link.handle_su(&lssu(StatusIndication::EmergencyAlignment));
    link.tick();
    assert_eq!(link.state(), Mtp2State::AlignedReady);

    // A local request alone does not switch; the peer's SIE then does.
    let mut link = proving(config());
    link.set_emergency(true);
    ticks(&mut link, 2);
    assert_eq!(link.state(), Mtp2State::Proving);
    link.handle_su(&lssu(StatusIndication::EmergencyAlignment));
    link.tick();
    assert_eq!(link.state(), Mtp2State::Proving);
    link.tick();
    assert_eq!(link.state(), Mtp2State::AlignedReady);

    // One error aborts an emergency proving.
    let mut link = proving(config());
    link.handle_su(&lssu(StatusIndication::EmergencyAlignment));
    link.handle_corrupted_su();
    assert_eq!(link.state(), Mtp2State::Aligned);
}

#[test]
fn an_emergency_request_applies_to_the_next_alignment() {
    let mut link = Mtp2Link::new(config());
    link.set_emergency(true);
    link.start();
    link.handle_su(&lssu(StatusIndication::OutOfAlignment));
    assert_eq!(status_of(&mut link), Some(StatusIndication::EmergencyAlignment));
    // To that one only.
    link.stop();
    link.start();
    link.handle_su(&lssu(StatusIndication::OutOfAlignment));
    assert_eq!(status_of(&mut link), Some(StatusIndication::NormalAlignment));
    // And to the one under way.
    link.set_emergency(true);
    assert_eq!(status_of(&mut link), Some(StatusIndication::EmergencyAlignment));
}

#[test]
fn an_msu_queued_before_the_start_waits_for_the_service() {
    let mut link = Mtp2Link::new(config());
    link.submit_msu(0x83, vec![1, 2, 3]).unwrap();
    link.start();
    link.handle_su(&lssu(StatusIndication::OutOfAlignment));
    link.handle_su(&lssu(StatusIndication::NormalAlignment));
    ticks(&mut link, 3);
    assert!(matches!(link.poll_transmit(), Some(SignalUnit::Fisu { .. })));
    link.handle_su(&fisu());
    match link.poll_transmit() {
        Some(SignalUnit::Msu { header, sio, sif }) => {
            assert_eq!((header.fsn, sio, sif), (0, 0x83, vec![1, 2, 3]));
        }
        other => panic!("expected an MSU, got {other:?}"),
    }
}

#[test]
fn submit_rejects_only_what_is_too_large() {
    let mut link = Mtp2Link::new(config());
    assert_eq!(link.submit_msu(0, vec![0; 272]), Ok(()));
    assert_eq!(link.submit_msu(0, vec![]), Ok(()));
    assert_eq!(link.submit_msu(0, vec![0; 273]), Err(Mtp2Error::MsuTooLarge(274)));
}

#[test]
fn start_and_stop() {
    let mut link = in_service(config());
    link.start();
    assert_eq!(link.state(), Mtp2State::InService);
    link.stop();
    assert_eq!(drain(&mut link), vec![Event::OutOfService(OutOfServiceReason::Stopped)]);
    // Dark, deaf and out of time.
    link.handle_su(&lssu(StatusIndication::OutOfAlignment));
    link.handle_corrupted_su();
    link.tick();
    assert_eq!(link.state(), Mtp2State::OutOfService);
    assert!(link.poll_transmit().is_none());
    assert!(link.poll_event().is_none());
    link.start();
    assert_eq!(status_of(&mut link), Some(StatusIndication::OutOfAlignment));
}

#[test]
fn the_peer_restarting_fails_the_link() {
    for status in [
        StatusIndication::OutOfAlignment,
        StatusIndication::NormalAlignment,
        StatusIndication::EmergencyAlignment,
    ] {
        let mut link = in_service(config());
        link.handle_su(&lssu(status));
        assert_eq!(
            drain(&mut link),
            vec![Event::OutOfService(OutOfServiceReason::AlignmentLost)]
        );
    }
    let mut link = in_service(config());
    link.handle_su(&lssu(StatusIndication::OutOfService));
    assert_eq!(drain(&mut link), vec![Event::OutOfService(OutOfServiceReason::ReceivedSios)]);
}

#[test]
fn a_busy_peer_holds_traffic_until_it_ends_or_t6_expires() {
    let mut link = in_service(config());
    link.submit_msu(0x83, vec![1, 2, 3]).unwrap();
    link.handle_su(&lssu(StatusIndication::Busy));
    link.handle_su(&lssu(StatusIndication::Busy));
    assert_eq!(drain(&mut link), vec![Event::RemoteBusy]);
    assert!(matches!(link.poll_transmit(), Some(SignalUnit::Fisu { .. })));
    link.handle_su(&fisu());
    assert_eq!(drain(&mut link), vec![Event::RemoteBusyEnded]);
    assert!(matches!(link.poll_transmit(), Some(SignalUnit::Msu { .. })));

    // Saying so again and again does not put T6 off.
    let mut link = in_service(config());
    for _ in 0..6 {
        link.handle_su(&lssu(StatusIndication::Busy));
        link.tick();
    }
    assert_eq!(link.state(), Mtp2State::InService);
    link.handle_su(&lssu(StatusIndication::Busy));
    link.tick();
    assert_eq!(
        drain(&mut link),
        vec![Event::RemoteBusy, Event::OutOfService(OutOfServiceReason::T6Expired)]
    );
}

#[test]
fn an_msu_that_is_not_acknowledged_fails_the_link() {
    let mut link = in_service(config());
    link.submit_msu(0x83, vec![1, 2, 3]).unwrap();
    link.poll_transmit();
    ticks(&mut link, 7);
    assert_eq!(link.state(), Mtp2State::InService);
    link.tick();
    assert_eq!(drain(&mut link), vec![Event::OutOfService(OutOfServiceReason::T7Expired)]);

    // Units that acknowledge nothing do not put T7 off.
    let mut link = in_service(config());
    link.submit_msu(0x83, vec![1, 2, 3]).unwrap();
    link.poll_transmit();
    for _ in 0..7 {
        link.handle_su(&fisu());
        link.tick();
    }
    assert_eq!(link.state(), Mtp2State::InService);
    link.handle_su(&fisu());
    link.tick();
    assert_eq!(drain(&mut link), vec![Event::OutOfService(OutOfServiceReason::T7Expired)]);

    // One of two acknowledged: T7 starts anew for the other.
    let mut link = in_service(config());
    for i in 0..2u8 {
        link.submit_msu(0x83, vec![i, 2, 3]).unwrap();
        link.poll_transmit();
    }
    ticks(&mut link, 7);
    link.handle_su(&SignalUnit::fisu(SuHeader::new(0, true, 127, true).unwrap()));
    ticks(&mut link, 7);
    assert_eq!(link.state(), Mtp2State::InService);
    link.tick();
    assert_eq!(link.state(), Mtp2State::OutOfService);

    // Acknowledged in time, nothing happens.
    let mut link = in_service(config());
    link.submit_msu(0x83, vec![1, 2, 3]).unwrap();
    link.poll_transmit();
    link.handle_su(&SignalUnit::fisu(SuHeader::new(0, true, 127, true).unwrap()));
    ticks(&mut link, 20);
    assert_eq!(link.state(), Mtp2State::InService);
}

#[test]
fn local_congestion_sends_sib() {
    let mut link = in_service(config());
    link.local_busy();
    assert_eq!(status_of(&mut link), Some(StatusIndication::Busy));
    link.local_busy_ended();
    assert!(matches!(link.poll_transmit(), Some(SignalUnit::Fisu { .. })));

    // It lasts through a start and a failure.
    let mut link = Mtp2Link::new(config());
    link.local_busy();
    for _ in 0..2 {
        link.start();
        link.handle_su(&lssu(StatusIndication::OutOfAlignment));
        link.handle_su(&lssu(StatusIndication::NormalAlignment));
        ticks(&mut link, 3);
        link.handle_su(&fisu());
        assert_eq!(status_of(&mut link), Some(StatusIndication::Busy));
        link.handle_su(&lssu(StatusIndication::OutOfService));
        assert_eq!(link.state(), Mtp2State::OutOfService);
    }
}

#[test]
fn remote_conditions_are_announced_once() {
    let mut link = in_service(config());
    for status in [
        StatusIndication::ProcessorOutage,
        StatusIndication::Busy,
        StatusIndication::ProcessorOutage,
        StatusIndication::Busy,
    ] {
        link.handle_su(&lssu(status));
    }
    assert_eq!(drain(&mut link), vec![Event::RemoteProcessorOutage, Event::RemoteBusy]);
}

#[test]
fn a_processor_outage_holds_and_drops_traffic() {
    let mut link = in_service(config());
    link.local_processor_outage();
    // The payload is dropped and not acknowledged, so it can come again.
    link.handle_su(&msu(0, vec![1, 2, 3]));
    assert!(link.poll_event().is_none());
    link.local_processor_recovered();
    match link.poll_transmit() {
        Some(su) => assert_eq!(su.header().bsn, 127),
        None => panic!("a link in service transmits"),
    }
    link.handle_su(&msu(0, vec![1, 2, 3]));
    assert_eq!(drain(&mut link), vec![Event::Msu { sio: 0x83, sif: vec![1, 2, 3] }]);

    // An outage in alignment.
    let mut link = proving(config());
    link.local_processor_outage();
    ticks(&mut link, 3);
    assert_eq!(link.state(), Mtp2State::AlignedNotReady);
    assert_eq!(status_of(&mut link), Some(StatusIndication::ProcessorOutage));
    ticks(&mut link, 100);
    assert_eq!(link.state(), Mtp2State::AlignedNotReady);
    link.local_processor_recovered();
    assert_eq!(link.state(), Mtp2State::AlignedReady);
}

#[test]
fn a_peer_without_processor_still_brings_the_link_into_service() {
    let mut link = ready(config());
    link.handle_su(&lssu(StatusIndication::ProcessorOutage));
    assert_eq!(drain(&mut link), vec![Event::InService, Event::RemoteProcessorOutage]);
    link.handle_su(&lssu(StatusIndication::ProcessorOutage));
    assert!(link.poll_event().is_none());
    link.handle_su(&fisu());
    assert_eq!(drain(&mut link), vec![Event::RemoteProcessorRecovered]);
}

#[test]
fn the_first_msu_brings_the_link_into_service_and_is_delivered() {
    let mut link = ready(config());
    link.handle_su(&msu(0, vec![7, 7]));
    assert_eq!(
        drain(&mut link),
        vec![Event::InService, Event::Msu { sio: 0x83, sif: vec![7, 7] }]
    );
    // A gap, then a duplicate.
    link.handle_su(&msu(2, vec![9, 9]));
    link.handle_su(&msu(0, vec![7, 7]));
    assert_eq!(drain(&mut link), vec![Event::RetransmissionRequested]);
}

#[test]
fn the_leak_keeps_a_link_with_few_errors_in_service() {
    let mut link = in_service(Mtp2Config {
        suerm_threshold: 2,
        suerm_decrement_interval: 4,
        ..config()
    });
    for _ in 0..50 {
        link.handle_corrupted_su();
        for _ in 0..3 {
            link.handle_su(&fisu());
        }
    }
    assert_eq!(link.state(), Mtp2State::InService);
    link.handle_corrupted_su();
    link.handle_corrupted_su();
    assert_eq!(drain(&mut link), vec![Event::OutOfService(OutOfServiceReason::SuermFailure)]);
}

#[test]
fn a_link_takes_every_unit_that_was_decoded() {
    let mut link = in_service(config());
    for fsn in [0u8, 1, 127, 64, 2] {
        assert!(link.can_handle_su(&msu(fsn, vec![1])));
        link.handle_su(&msu(fsn, vec![1]));
    }
}

#[test]
fn a_hand_built_number_puts_others_out_of_reach() {
    let mut link = in_service(config());
    for fsn in 0..=126u8 {
        link.handle_su(&msu(fsn, vec![1]));
    }
    drain(&mut link);
    // 255 stands for 127, the next in sequence.
    let odd = SignalUnit::Msu {
        header: SuHeader { bsn: 127, bib: true, fsn: 255, fib: true },
        sio: 1,
        sif: vec![2],
    };
    assert!(link.can_handle_su(&odd));
    link.handle_su(&odd);
    assert_eq!(drain(&mut link), vec![Event::Msu { sio: 1, sif: vec![2] }]);
    assert!(!link.can_handle_su(&msu(0, vec![1])));
    assert!(!link.can_handle_su(&msu(126, vec![1])));
    assert!(link.can_handle_su(&msu(127, vec![1])));
    assert!(link.can_handle_su(&fisu()));
}

/// One cycle of two links over an in-memory pipe that carries encoded units.
fn cycle(a: &mut Mtp2Link, b: &mut Mtp2Link) {
    let from_a = a.poll_transmit().map(|su| su.encode().unwrap());
    let from_b = b.poll_transmit().map(|su| su.encode().unwrap());
    if let Some(bytes) = from_a {
        b.handle_su(&SignalUnit::decode(&bytes).unwrap());
    }
    if let Some(bytes) = from_b {
        a.handle_su(&SignalUnit::decode(&bytes).unwrap());
    }
    a.tick();
    b.tick();
}

#[test]
fn two_links_are_in_service_two_cycles_after_proving() {
    let mut a = Mtp2Link::new(config());
    let mut b = Mtp2Link::new(config());
    a.start();
    b.start();
    for _ in 0..4 {
        cycle(&mut a, &mut b);
    }
    assert_eq!((a.state(), b.state()), (Mtp2State::AlignedReady, Mtp2State::AlignedReady));
    cycle(&mut a, &mut b);
    assert_eq!((a.state(), b.state()), (Mtp2State::InService, Mtp2State::InService));
    assert_eq!(drain(&mut a), vec![Event::InService]);
    assert_eq!(drain(&mut b), vec![Event::InService]);
}

#[test]
fn two_links_align_in_emergency() {
    for (first, second) in [(true, true), (true, false), (false, true)] {
        let mut a = Mtp2Link::new(Mtp2Config { emergency: first, ..config() });
        let mut b = Mtp2Link::new(Mtp2Config { emergency: second, ..config() });
        a.start();
        b.start();
        // Two cycles more than the emergency period of two ticks.
        for _ in 0..3 {
            cycle(&mut a, &mut b);
        }
        assert_eq!((a.state(), b.state()), (Mtp2State::AlignedReady, Mtp2State::AlignedReady));
        cycle(&mut a, &mut b);
        assert_eq!((a.state(), b.state()), (Mtp2State::InService, Mtp2State::InService));
        assert_eq!(drain(&mut a), vec![Event::InService]);
        assert_eq!(drain(&mut b), vec![Event::InService]);
    }
    let emergency = Mtp2Config { emergency: true, ..Mtp2Config::default() };
    let mut a = Mtp2Link::new(emergency);
    let mut b = Mtp2Link::new(emergency);
    a.start();
    b.start();
    for _ in 0..64 {
        cycle(&mut a, &mut b);
    }
    assert_eq!((a.state(), b.state()), (Mtp2State::InService, Mtp2State::InService));
}

/// Two links in service that use `method`.
fn pair(method: RetransmissionMethod) -> (Mtp2Link, Mtp2Link) {
    let config = Mtp2Config {
        method,
        t7_excessive_delay: 1000,
        ..config()
    };
    let mut a = Mtp2Link::new(config);
    let mut b = Mtp2Link::new(config);
    a.start();
    b.start();
    for _ in 0..5 {
        cycle(&mut a, &mut b);
    }
    drain(&mut b);
    (a, b)
}

/// One round of traffic; what `b` delivers is added to `delivered`.
fn round(a: &mut Mtp2Link, b: &mut Mtp2Link, there: bool, back: bool, delivered: &mut Vec<u8>) {
    if let Some(su) = a.poll_transmit() {
        if there {
            b.handle_su(&su);
        }
    }
    if let Some(su) = b.poll_transmit() {
        if back {
            a.handle_su(&su);
        }
    }
    for e in drain(b) {
        if let Event::Msu { sif, .. } = e {
            delivered.push(sif[0]);
        }
    }
}

#[test]
fn pcr_traffic_over_a_lossy_pipe_arrives_in_order() {
    let (mut a, mut b) = pair(RetransmissionMethod::Pcr(PcrParams { n1: 8, n2: 8000 }));
    for i in 0..40u8 {
        a.submit_msu(0x83, vec![i, 0, 0]).unwrap();
    }
    let mut delivered: Vec<u8> = Vec::new();
    for i in 0..400u32 {
        round(&mut a, &mut b, i * i / 5 % 3 != 1, i % 5 != 2, &mut delivered);
    }
    assert_eq!(delivered, (0..40).collect::<Vec<u8>>());
}

#[test]
fn basic_traffic_over_a_lossy_pipe_arrives_in_order() {
    let (mut a, mut b) = pair(RetransmissionMethod::Basic);
    let mut delivered: Vec<u8> = Vec::new();
    for i in 0..200u32 {
        if i % 5 == 0 {
            a.submit_msu(0x83, vec![(i / 5) as u8, 0, 0]).unwrap();
        }
        // Every tenth MSU is lost, and every third unit back.
        round(&mut a, &mut b, i % 50 != 10, i % 3 != 0, &mut delivered);
    }
    assert_eq!(delivered, (0..40).collect::<Vec<u8>>());
}
