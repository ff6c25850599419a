//! Links, signal units and events for a scripting host: names for events and their
//! reasons, one-line representations, and a link configuration made from a method name
//! and the parameters to be overridden.

use vstd::prelude::*;

use crate::link::{
    AlignmentFailure, Event, EventView, Mtp2Config, Mtp2Link, OutOfServiceReason,
};
use crate::retransmission::{PcrParams, RetransmissionMethod};
use crate::signal_unit::{SignalUnit, SignalUnitView};
use crate::text;

verus! {

impl OutOfServiceReason {
    /// The name of the reason.
    pub open spec fn name(self) -> Seq<char> {
        match self {
            OutOfServiceReason::Stopped => "stopped"@,
            OutOfServiceReason::ReceivedSios => "received_sios"@,
            OutOfServiceReason::AlignmentLost => "alignment_lost"@,
            OutOfServiceReason::SuermFailure => "suerm_failure"@,
            OutOfServiceReason::T6Expired => "t6_expired"@,
            OutOfServiceReason::T7Expired => "t7_expired"@,
        }
    }
}

impl AlignmentFailure {
    /// The name of the failure.
    pub open spec fn name(self) -> Seq<char> {
        match self {
            AlignmentFailure::AermTripped => "aerm_tripped"@,
            AlignmentFailure::ReceivedSios => "received_sios"@,
            AlignmentFailure::T2Expired => "t2_expired"@,
            AlignmentFailure::T3Expired => "t3_expired"@,
            AlignmentFailure::T1Expired => "t1_expired"@,
        }
    }
}

impl EventView {
    /// The name of the event.
    pub open spec fn kind(self) -> Seq<char> {
        match self {
            EventView::InService => "in_service"@,
            EventView::OutOfService(_) => "out_of_service"@,
            EventView::AlignmentFailed(_) => "alignment_failed"@,
            EventView::Msu(_) => "msu"@,
            EventView::RemoteProcessorOutage => "remote_processor_outage"@,
            EventView::RemoteProcessorRecovered => "remote_processor_recovered"@,
            EventView::RemoteBusy => "remote_busy"@,
            EventView::RemoteBusyEnded => "remote_busy_ended"@,
            EventView::RetransmissionRequested => "retransmission_requested"@,
        }
    }

    /// The name of the reason, for an event that has one.
    pub open spec fn detail(self) -> Option<Seq<char>> {
        match self {
            EventView::OutOfService(reason) => Some(reason.name()),
            EventView::AlignmentFailed(failure) => Some(failure.name()),
            _ => None,
        }
    }

    /// The representation of the event.
    pub open spec fn repr(self) -> Seq<char> {
        let more = match self {
            EventView::Msu(body) => ", sio="@ + text::hex_octet(body.sio),
            _ => match self.detail() {
                Some(detail) => ", detail=\""@ + detail + "\""@,
                None => seq![],
            },
        };
        "Event(\""@ + self.kind() + "\""@ + more + ")"@
    }
}

/// The name of the reason for which a link left service.
pub fn oos_reason(r: OutOfServiceReason) -> (s: &'static str)
    ensures
        s@ == r.name(),
{
    match r {
        OutOfServiceReason::Stopped => "stopped",
        OutOfServiceReason::ReceivedSios => "received_sios",
        OutOfServiceReason::AlignmentLost => "alignment_lost",
        OutOfServiceReason::SuermFailure => "suerm_failure",
        OutOfServiceReason::T6Expired => "t6_expired",
        OutOfServiceReason::T7Expired => "t7_expired",
    }
}

/// The name of the reason for which an alignment failed.
pub fn align_failure(f: AlignmentFailure) -> (s: &'static str)
    ensures
        s@ == f.name(),
{
    match f {
        AlignmentFailure::AermTripped => "aerm_tripped",
        AlignmentFailure::ReceivedSios => "received_sios",
        AlignmentFailure::T2Expired => "t2_expired",
        AlignmentFailure::T3Expired => "t3_expired",
        AlignmentFailure::T1Expired => "t1_expired",
    }
}

/// What a scripting host is told of an event. `kind` names the event; `sio` and `sif` are
/// set for a delivered MSU, and `detail` carries the reason for a failure or outage event.
#[derive(Debug, Clone, PartialEq, Eq)]
pub struct EventReport {
    pub kind: String,
    pub sio: Option<u8>,
    pub sif: Option<Vec<u8>>,
    pub detail: Option<String>,
    /// The one-line representation.
    pub repr: String,
}

impl EventReport {
    /// Whether the report tells everything of an event.
    pub open spec fn tells(self, event: EventView) -> bool {
        &&& self.kind@ == event.kind()
        &&& self.repr@ == event.repr()
        &&& match self.detail {
            Some(detail) => event.detail() == Some(detail@),
            None => event.detail() is None,
        }
        &&& match event {
            EventView::Msu(body) => self.sio == Some(body.sio) && self.sif is Some && self.sif->0@
                == body.sif,
            _ => self.sio is None && self.sif is None,
        }
    }

    /// Report an event.
    pub fn new(e: Event) -> (report: Self)
        ensures
            report.tells(e@),
    {
        let mut repr = String::new();
        repr.append("Event(\"");
        let kind: &'static str = match e {
            Event::InService => "in_service",
            Event::OutOfService(_) => "out_of_service",
            Event::AlignmentFailed(_) => "alignment_failed",
            Event::Msu { .. } => "msu",
            Event::RemoteProcessorOutage => "remote_processor_outage",
            Event::RemoteProcessorRecovered => "remote_processor_recovered",
            Event::RemoteBusy => "remote_busy",
            Event::RemoteBusyEnded => "remote_busy_ended",
            Event::RetransmissionRequested => "retransmission_requested",
        };
        let detail: Option<&'static str> = match e {
            Event::OutOfService(r) => Some(oos_reason(r)),
            Event::AlignmentFailed(f) => Some(align_failure(f)),
            _ => None,
        };
        repr.append(kind);
        repr.append("\"");
        if let Some(d) = detail {
            repr.append(", detail=\"");
            repr.append(d);
            repr.append("\"");
        } else if let Event::Msu { sio, .. } = e {
            repr.append(", sio=");
            text::push_hex_octet(&mut repr, sio);
        }
        repr.append(")");
        assert(repr@ =~= e@.repr());
        let detail = match detail {
            Some(d) => Some(d.to_owned()),
            None => None,
        };
        let kind = kind.to_owned();
        match e {
            Event::Msu { sio, sif } => EventReport {
                kind,
                sio: Some(sio),
                sif: Some(sif),
                detail,
                repr,
            },
            _ => EventReport { kind, sio: None, sif: None, detail, repr },
        }
    }
}

impl SignalUnitView {
    /// The representation of the signal unit.
    pub open spec fn repr(self) -> Seq<char> {
        let h = self.header();
        match self {
            SignalUnitView::Fisu { .. } => "Fisu(bsn="@ + text::decimal(h.bsn as nat) + ", bib="@
                + text::bit(h.bib) + ", fsn="@ + text::decimal(h.fsn as nat) + ", fib="@
                + text::bit(h.fib) + ")"@,
            SignalUnitView::Lssu { status, .. } => "Lssu("@ + status.text() + ", bsn="@
                + text::decimal(h.bsn as nat) + ", fsn="@ + text::decimal(h.fsn as nat) + ")"@,
            SignalUnitView::Msu { sio, sif, .. } => "Msu(sio="@ + text::hex_octet(sio)
                + ", sif_len="@ + text::decimal(sif.len()) + ", bsn="@ + text::decimal(
                h.bsn as nat,
            ) + ", fsn="@ + text::decimal(h.fsn as nat) + ")"@,
        }
    }
}

impl SignalUnit {
    /// The signal unit as a scripting host shows it.
    pub fn repr(&self) -> (s: String)
        ensures
            s@ == self@.repr(),
    {
        let mut s = String::new();
        let h = self.header();
        match self {
            SignalUnit::Fisu { .. } => {
                s.append("Fisu(bsn=");
                text::push_decimal(&mut s, h.bsn as usize);
                s.append(", bib=");
                text::push_bit(&mut s, h.bib);
                s.append(", fsn=");
                text::push_decimal(&mut s, h.fsn as usize);
                s.append(", fib=");
                text::push_bit(&mut s, h.fib);
            },
            SignalUnit::Lssu { status, .. } => {
                s.append("Lssu(");
                s.append(status.mnemonic());
                s.append(", bsn=");
                text::push_decimal(&mut s, h.bsn as usize);
                s.append(", fsn=");
                text::push_decimal(&mut s, h.fsn as usize);
            },
            SignalUnit::Msu { sio, sif, .. } => {
                s.append("Msu(sio=");
                text::push_hex_octet(&mut s, *sio);
                s.append(", sif_len=");
                text::push_decimal(&mut s, sif.len());
                s.append(", bsn=");
                text::push_decimal(&mut s, h.bsn as usize);
                s.append(", fsn=");
                text::push_decimal(&mut s, h.fsn as usize);
            },
        }
        s.append(")");
        assert(s@ =~= self@.repr());
        s
    }
}

impl Mtp2Link {
    /// The link as a scripting host shows it.
    pub fn repr(&self) -> (s: String)
        ensures
            s@ == "Link(state="@ + self@.state.text() + ")"@,
    {
        let mut s = String::new();
        s.append("Link(state=");
        s.append(self.state().to_string().as_str());
        s.append(")");
        s
    }
}

/// The parameters of a link that override their defaults; `None` keeps the default.
#[derive(Debug, Clone, Copy)]
pub struct Overrides {
    pub t1: Option<u32>,
    pub t2: Option<u32>,
    pub t3: Option<u32>,
    pub t4_normal: Option<u32>,
    pub t4_emergency: Option<u32>,
    pub t6: Option<u32>,
    pub t7: Option<u32>,
    pub aerm_normal: Option<u32>,
    pub aerm_emergency: Option<u32>,
    pub suerm_threshold: Option<u32>,
    pub suerm_interval: Option<u32>,
    pub proving_attempts: Option<u32>,
}

/// A value, or its default.
pub open spec fn value_or(value: Option<u32>, default: u32) -> u32 {
    match value {
        Some(v) => v,
        None => default,
    }
}

/// A value, or its default.
fn pick(value: Option<u32>, default: u32) -> (v: u32)
    ensures
        v == value_or(value, default),
{
    match value {
        Some(v) => v,
        None => default,
    }
}

impl Overrides {
    /// The configuration with these overrides.
    pub open spec fn applied(self, method: RetransmissionMethod, emergency: bool) -> Mtp2Config {
        let d = Mtp2Config::standard();
        Mtp2Config {
            method,
            emergency,
            t1_aligned_ready: value_or(self.t1, d.t1_aligned_ready),
            t2_not_aligned: value_or(self.t2, d.t2_not_aligned),
            t3_aligned: value_or(self.t3, d.t3_aligned),
            t4_proving_normal: value_or(self.t4_normal, d.t4_proving_normal),
            t4_proving_emergency: value_or(self.t4_emergency, d.t4_proving_emergency),
            t6_remote_congestion: value_or(self.t6, d.t6_remote_congestion),
            t7_excessive_delay: value_or(self.t7, d.t7_excessive_delay),
            aerm_threshold_normal: value_or(self.aerm_normal, d.aerm_threshold_normal),
            aerm_threshold_emergency: value_or(self.aerm_emergency, d.aerm_threshold_emergency),
            suerm_threshold: value_or(self.suerm_threshold, d.suerm_threshold),
            suerm_decrement_interval: value_or(self.suerm_interval, d.suerm_decrement_interval),
            proving_attempts: value_or(self.proving_attempts, d.proving_attempts),
        }
    }

    /// The default configuration with `method`, `emergency` and these overrides.
    pub fn configure(&self, method: RetransmissionMethod, emergency: bool) -> (config: Mtp2Config)
        ensures
            config == self.applied(method, emergency),
    {
        let d = Mtp2Config::default();
        Mtp2Config {
            method,
            emergency,
            t1_aligned_ready: pick(self.t1, d.t1_aligned_ready),
            t2_not_aligned: pick(self.t2, d.t2_not_aligned),
            t3_aligned: pick(self.t3, d.t3_aligned),
            t4_proving_normal: pick(self.t4_normal, d.t4_proving_normal),
            t4_proving_emergency: pick(self.t4_emergency, d.t4_proving_emergency),
            t6_remote_congestion: pick(self.t6, d.t6_remote_congestion),
            t7_excessive_delay: pick(self.t7, d.t7_excessive_delay),
            aerm_threshold_normal: pick(self.aerm_normal, d.aerm_threshold_normal),
            aerm_threshold_emergency: pick(self.aerm_emergency, d.aerm_threshold_emergency),
            suerm_threshold: pick(self.suerm_threshold, d.suerm_threshold),
            suerm_decrement_interval: pick(self.suerm_interval, d.suerm_decrement_interval),
            proving_attempts: pick(self.proving_attempts, d.proving_attempts),
        }
    }
}

/// The retransmission method with this name: `"basic"`, or `"pcr"` with the thresholds
/// `params`; there is no other.
pub fn method_named(name: &str, params: PcrParams) -> (method: Option<RetransmissionMethod>)
    ensures
        method == if name@ == "basic"@ {
            Some(RetransmissionMethod::Basic)
        } else if name@ == "pcr"@ {
            Some(RetransmissionMethod::Pcr(params))
        } else {
            None
        },
{
    let name = name.to_owned();
    if name == "basic".to_owned() {
        Some(RetransmissionMethod::Basic)
    } else if name == "pcr".to_owned() {
        Some(RetransmissionMethod::Pcr(params))
    } else {
        None
    }
}

} // verus!
