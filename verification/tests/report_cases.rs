//! What a scripting host is shown.

use mtp2::report::{align_failure, method_named, oos_reason, EventReport, Overrides};
use mtp2::{
    AlignmentFailure, Event, Mtp2Config, Mtp2Link, OutOfServiceReason, PcrParams,
    RetransmissionMethod, SignalUnit, StatusIndication, SuHeader,
};

#[test]
fn reasons_have_names() {
    let names: Vec<&str> = [
        OutOfServiceReason::Stopped,
        OutOfServiceReason::ReceivedSios,
        OutOfServiceReason::AlignmentLost,
        OutOfServiceReason::SuermFailure,
        OutOfServiceReason::T6Expired,
        OutOfServiceReason::T7Expired,
    ]
    .iter()
    .map(|r| oos_reason(*r))
    .collect();
    assert_eq!(
        names,
        vec![
            "stopped",
            "received_sios",
            "alignment_lost",
            "suerm_failure",
            "t6_expired",
            "t7_expired"
        ]
    );
    let names: Vec<&str> = [
        AlignmentFailure::AermTripped,
        AlignmentFailure::ReceivedSios,
        AlignmentFailure::T2Expired,
        AlignmentFailure::T3Expired,
        AlignmentFailure::T1Expired,
    ]
    .iter()
    .map(|f| align_failure(*f))
    .collect();
    assert_eq!(
        names,
        vec!["aerm_tripped", "received_sios", "t2_expired", "t3_expired", "t1_expired"]
    );
}

#[test]
fn reports_of_events() {
    let msu = EventReport::new(Event::Msu { sio: 0x83, sif: vec![1, 2] });
    assert_eq!(msu.kind, "msu");
    assert_eq!(msu.sio, Some(0x83));
    assert_eq!(msu.sif, Some(vec![1, 2]));
    assert_eq!(msu.detail, None);
    assert_eq!(msu.repr, "Event(\"msu\", sio=0x83)");

    let failed = EventReport::new(Event::AlignmentFailed(AlignmentFailure::T2Expired));
    assert_eq!(failed.kind, "alignment_failed");
    assert_eq!(failed.detail, Some("t2_expired".to_string()));
    assert_eq!((failed.sio, failed.sif), (None, None));
    assert_eq!(failed.repr, "Event(\"alignment_failed\", detail=\"t2_expired\")");

    let stopped = EventReport::new(Event::OutOfService(OutOfServiceReason::Stopped));
    assert_eq!(stopped.repr, "Event(\"out_of_service\", detail=\"stopped\")");

    let plain: Vec<String> = vec![
        Event::InService,
        Event::RemoteProcessorOutage,
        Event::RemoteProcessorRecovered,
        Event::RemoteBusy,
        Event::RemoteBusyEnded,
        Event::RetransmissionRequested,
    ]
    .into_iter()
    .map(|e| EventReport::new(e).repr)
    .collect();
    assert_eq!(
        plain,
        vec![
            "Event(\"in_service\")",
            "Event(\"remote_processor_outage\")",
            "Event(\"remote_processor_recovered\")",
            "Event(\"remote_busy\")",
            "Event(\"remote_busy_ended\")",
            "Event(\"retransmission_requested\")"
        ]
    );
}

#[test]
fn representations_of_units_and_links() {
    let header = SuHeader { bsn: 127, bib: true, fsn: 200, fib: false };
    assert_eq!(
        SignalUnit::fisu(header).repr(),
        "Fisu(bsn=127, bib=1, fsn=200, fib=0)"
    );
    assert_eq!(
        SignalUnit::lssu(header, StatusIndication::NormalAlignment).repr(),
        "Lssu(SIN, bsn=127, fsn=200)"
    );
    assert_eq!(
        SignalUnit::Msu { header, sio: 5, sif: vec![0; 10] }.repr(),
        "Msu(sio=0x05, sif_len=10, bsn=127, fsn=200)"
    );
    assert_eq!(
        Mtp2Link::new(Mtp2Config::default()).repr(),
        "Link(state=Out of Service)"
    );
}

#[test]
fn methods_have_names() {
    let params = PcrParams { n1: 3, n2: 4 };
    assert_eq!(method_named("basic", params), Some(RetransmissionMethod::Basic));
    assert_eq!(method_named("pcr", params), Some(RetransmissionMethod::Pcr(params)));
    assert_eq!(method_named("Basic", params), None);
    assert_eq!(method_named("", params), None);
}

#[test]
fn overrides_replace_their_defaults_only() {
    let none = Overrides {
        t1: None,
        t2: None,
        t3: None,
        t4_normal: None,
        t4_emergency: None,
        t6: None,
        t7: None,
        aerm_normal: None,
        aerm_emergency: None,
        suerm_threshold: None,
        suerm_interval: None,
        proving_attempts: None,
    };
    let config = none.configure(RetransmissionMethod::Basic, true);
    assert!(config.emergency);
    assert_eq!(config.t1_aligned_ready, 500);
    assert_eq!(config.proving_attempts, 5);
    let some = Overrides { t4_normal: Some(3), suerm_interval: Some(9), ..none };
    let config = some.configure(RetransmissionMethod::Basic, false);
    assert_eq!((config.t4_proving_normal, config.t4_proving_emergency), (3, 6));
    assert_eq!((config.suerm_threshold, config.suerm_decrement_interval), (64, 9));
}
