//! Laws of the human-readable forms: that numbers can be read back from them, and what
//! stands where.

use vstd::prelude::*;

use crate::error::Mtp2Error;
use crate::link::{AlignmentFailure, EventView, Mtp2Link, Mtp2State, OutOfServiceReason};
use crate::report;
use crate::report::{EventReport, Overrides};
use crate::retransmission::{MsuBody, RetransmissionMethod};
use crate::signal_unit::{SignalUnitView, StatusIndication, SuHeader};
use crate::text;

verus! {

// ── Numbers ─────────────────────────────────────────────────────────────────────────

/// Whether a character is a decimal digit.
pub open spec fn is_digit(c: char) -> bool {
    '0' <= c <= '9'
}

/// The number that decimal digits stand for.
pub open spec fn number(digits: Seq<char>) -> int
    decreases digits.len(),
{
    if digits.len() == 0 {
        0
    } else {
        number(digits.drop_last()) * 10 + (digits.last() as int - '0' as int)
    }
}

/// The digits of a number, read as a number, are the number. They are decimal digits, and
/// the first of several is not zero.
pub proof fn decimal_reads_back(n: nat)
    ensures
        number(text::decimal(n)) == n,
        text::decimal(n).len() > 0,
        forall|i: int|
            0 <= i < text::decimal(n).len() ==> is_digit(#[trigger] text::decimal(n)[i]),
        n > 0 ==> text::decimal(n)[0] != '0',
        n == 0 ==> text::decimal(n) == seq!['0'],
    decreases n,
{
    let digits = text::decimal(n);
    if n < 10 {
        assert(digits.drop_last() =~= seq![]);
        assert(number(digits.drop_last()) == 0);
    } else {
        decimal_reads_back(n / 10);
        assert(digits.drop_last() =~= text::decimal(n / 10));
        assert(digits[0] == text::decimal(n / 10)[0]);
        assert forall|i: int| 0 <= i < digits.len() implies is_digit(#[trigger] digits[i]) by {
            if i < digits.len() - 1 {
                assert(digits[i] == text::decimal(n / 10)[i]);
            }
        }
    }
}

/// The value of a lower-case hexadecimal digit.
pub open spec fn hex_value(c: char) -> int {
    if '0' <= c <= '9' {
        c as int - '0' as int
    } else if 'a' <= c <= 'f' {
        c as int - 'a' as int + 10
    } else {
        -1
    }
}

/// An octet is `0x` and two lower-case digits that stand for it, the high one first.
pub proof fn hex_octet_reads_back(b: u8)
    ensures
        ({
            let s = text::hex_octet(b);
            &&& s.len() == 4
            &&& s[0] == '0' && s[1] == 'x'
            &&& 0 <= hex_value(s[2]) < 16
            &&& 0 <= hex_value(s[3]) < 16
            &&& hex_value(s[2]) * 16 + hex_value(s[3]) == b
        }),
{
    reveal_strlit("0x");
}

/// A bit is the digit 1 when set and 0 when not.
pub proof fn bit_reads_back(b: bool)
    ensures
        text::bit(b) == if b {
            seq!['1']
        } else {
            seq!['0']
        },
{
    reveal_strlit("1");
    reveal_strlit("0");
}

// ── Errors and units ────────────────────────────────────────────────────────────────

/// Every error says what it is and gives its numbers, in this order.
pub proof fn errors_give_their_numbers(a: usize, b: usize, small: u8, medium: u16)
    ensures
        (Mtp2Error::TooShort { expected: a, actual: b }).text()
            == "signal unit too short: expected at least "@ + text::decimal(a as nat)
            + " octets, got "@ + text::decimal(b as nat),
        (Mtp2Error::LengthIndicatorMismatch { li: small, octets: a }).text() == "length indicator "@
            + text::decimal(small as nat) + " inconsistent with a "@ + text::decimal(a as nat)
            + "-octet body"@,
        Mtp2Error::InvalidStatusIndication(small).text() == "invalid status indication: "@
            + text::decimal(small as nat),
        Mtp2Error::SequenceNumberOutOfRange(medium).text() == "sequence number "@ + text::decimal(
            medium as nat,
        ) + " out of range (must be 0..=127)"@,
        Mtp2Error::MsuTooLarge(a).text() == "message signal unit body too large: "@ + text::decimal(
            a as nat,
        ) + " octets (max "@ + text::decimal(273) + ")"@,
{
}

/// Every status has its mnemonic.
pub proof fn mnemonics()
    ensures
        StatusIndication::OutOfAlignment.text() == "SIO"@,
        StatusIndication::NormalAlignment.text() == "SIN"@,
        StatusIndication::EmergencyAlignment.text() == "SIE"@,
        StatusIndication::OutOfService.text() == "SIOS"@,
        StatusIndication::ProcessorOutage.text() == "SIPO"@,
        StatusIndication::Busy.text() == "SIB"@,
{
}

/// The line of a unit names its kind and gives its header, and for an LSSU the status, for
/// an MSU the SIO and the length of the SIF.
pub proof fn lines_of_units(header: SuHeader, status: StatusIndication, sio: u8, sif: Seq<u8>)
    ensures
        ({
            let h = "bsn="@ + text::decimal(header.bsn as nat) + " bib="@ + text::bit(header.bib)
                + " fsn="@ + text::decimal(header.fsn as nat) + " fib="@ + text::bit(header.fib);
            &&& header.text() == h
            &&& (SignalUnitView::Fisu { header }).text() == "FISU ["@ + h + "]"@
            &&& (SignalUnitView::Lssu { header, status, extended: false }).text() == "LSSU "@
                + status.text() + " ["@ + h + "]"@
            &&& (SignalUnitView::Lssu { header, status, extended: true }).text() == "LSSU "@
                + status.text() + " ["@ + h + "]"@
            &&& (SignalUnitView::Msu { header, sio, sif }).text() == "MSU ["@ + h + "] sio="@
                + text::hex_octet(sio) + " sif_len="@ + text::decimal(sif.len())
        }),
{
}

/// The representation of a unit for a host is a call that would build it, without the
/// payload.
pub proof fn representations_of_units(
    header: SuHeader,
    status: StatusIndication,
    extended: bool,
    sio: u8,
    sif: Seq<u8>,
)
    ensures
        (SignalUnitView::Fisu { header }).repr() == "Fisu(bsn="@ + text::decimal(
            header.bsn as nat,
        ) + ", bib="@ + text::bit(header.bib) + ", fsn="@ + text::decimal(header.fsn as nat)
            + ", fib="@ + text::bit(header.fib) + ")"@,
        (SignalUnitView::Lssu { header, status, extended }).repr() == "Lssu("@ + status.text()
            + ", bsn="@ + text::decimal(header.bsn as nat) + ", fsn="@ + text::decimal(
            header.fsn as nat,
        ) + ")"@,
        (SignalUnitView::Msu { header, sio, sif }).repr() == "Msu(sio="@ + text::hex_octet(sio)
            + ", sif_len="@ + text::decimal(sif.len()) + ", bsn="@ + text::decimal(
            header.bsn as nat,
        ) + ", fsn="@ + text::decimal(header.fsn as nat) + ")"@,
{
}

// ── Links and events ────────────────────────────────────────────────────────────────

/// Every state has its words, and a link is shown by its state.
pub proof fn words_of_states(link: Mtp2Link)
    ensures
        Mtp2State::OutOfService.text() == "Out of Service"@,
        Mtp2State::NotAligned.text() == "Not Aligned"@,
        Mtp2State::Aligned.text() == "Aligned"@,
        Mtp2State::Proving.text() == "Proving"@,
        Mtp2State::AlignedReady.text() == "Aligned Ready"@,
        Mtp2State::AlignedNotReady.text() == "Aligned Not Ready"@,
        Mtp2State::InService.text() == "In Service"@,
        Mtp2State::ProcessorOutage.text() == "Processor Outage"@,
        link.text() == "MTP2 Link [state="@ + link@.state.text() + "]"@,
{
}

/// Every event and every reason has its name.
pub proof fn names_of_events(reason: OutOfServiceReason, failure: AlignmentFailure, body: MsuBody)
    ensures
        EventView::InService.kind() == "in_service"@,
        EventView::OutOfService(reason).kind() == "out_of_service"@,
        EventView::AlignmentFailed(failure).kind() == "alignment_failed"@,
        EventView::Msu(body).kind() == "msu"@,
        EventView::RemoteProcessorOutage.kind() == "remote_processor_outage"@,
        EventView::RemoteProcessorRecovered.kind() == "remote_processor_recovered"@,
        EventView::RemoteBusy.kind() == "remote_busy"@,
        EventView::RemoteBusyEnded.kind() == "remote_busy_ended"@,
        EventView::RetransmissionRequested.kind() == "retransmission_requested"@,
        OutOfServiceReason::Stopped.name() == "stopped"@,
        OutOfServiceReason::ReceivedSios.name() == "received_sios"@,
        OutOfServiceReason::AlignmentLost.name() == "alignment_lost"@,
        OutOfServiceReason::SuermFailure.name() == "suerm_failure"@,
        OutOfServiceReason::T6Expired.name() == "t6_expired"@,
        OutOfServiceReason::T7Expired.name() == "t7_expired"@,
        AlignmentFailure::AermTripped.name() == "aerm_tripped"@,
        AlignmentFailure::ReceivedSios.name() == "received_sios"@,
        AlignmentFailure::T2Expired.name() == "t2_expired"@,
        AlignmentFailure::T3Expired.name() == "t3_expired"@,
        AlignmentFailure::T1Expired.name() == "t1_expired"@,
{
}

/// A report tells exactly its event: the name, the reason if the event has one, and the
/// payload, octet for octet, if it is an MSU. The representation shows the same, with the
/// SIO alone of the payload.
pub proof fn reports_tell_their_event(report: EventReport, event: EventView)
    requires
        report.tells(event),
    ensures
        report.kind@ == event.kind(),
        match event {
            EventView::OutOfService(reason) => report.detail is Some && report.detail->0@
                == reason.name() && report.repr@ == "Event(\""@ + "out_of_service"@ + "\""@ + (
            ", detail=\""@ + reason.name() + "\""@) + ")"@,
            EventView::AlignmentFailed(failure) => report.detail is Some && report.detail->0@
                == failure.name() && report.repr@ == "Event(\""@ + "alignment_failed"@ + "\""@ + (
            ", detail=\""@ + failure.name() + "\""@) + ")"@,
            EventView::Msu(body) => report.detail is None && report.repr@ == "Event(\""@ + "msu"@
                + "\""@ + (", sio="@ + text::hex_octet(body.sio)) + ")"@,
            _ => report.detail is None && report.repr@ == "Event(\""@ + event.kind() + "\""@
                + seq![] + ")"@,
        },
        match event {
            EventView::Msu(body) => report.sio == Some(body.sio) && report.sif is Some
                && report.sif->0@ == body.sif,
            _ => report.sio is None && report.sif is None,
        },
{
}

/// A configuration with overrides has each overridden value as it was given, whatever it
/// is, and the default of every other, and the method and the kind of alignment asked for.
pub proof fn overrides_are_taken(o: Overrides, method: RetransmissionMethod, emergency: bool)
    ensures
        ({
            let config = o.applied(method, emergency);
            &&& config.method == method
            &&& config.emergency == emergency
            &&& config.t1_aligned_ready == if o.t1 is Some {
                o.t1->0
            } else {
                500
            }
            &&& config.t2_not_aligned == if o.t2 is Some {
                o.t2->0
            } else {
                250
            }
            &&& config.t3_aligned == if o.t3 is Some {
                o.t3->0
            } else {
                20
            }
            &&& config.t4_proving_normal == if o.t4_normal is Some {
                o.t4_normal->0
            } else {
                120
            }
            &&& config.t4_proving_emergency == if o.t4_emergency is Some {
                o.t4_emergency->0
            } else {
                6
            }
            &&& config.t6_remote_congestion == if o.t6 is Some {
                o.t6->0
            } else {
                60
            }
            &&& config.t7_excessive_delay == if o.t7 is Some {
                o.t7->0
            } else {
                20
            }
            &&& config.aerm_threshold_normal == if o.aerm_normal is Some {
                o.aerm_normal->0
            } else {
                4
            }
            &&& config.aerm_threshold_emergency == if o.aerm_emergency is Some {
                o.aerm_emergency->0
            } else {
                1
            }
            &&& config.suerm_threshold == if o.suerm_threshold is Some {
                o.suerm_threshold->0
            } else {
                64
            }
            &&& config.suerm_decrement_interval == if o.suerm_interval is Some {
                o.suerm_interval->0
            } else {
                256
            }
            &&& config.proving_attempts == if o.proving_attempts is Some {
                o.proving_attempts->0
            } else {
                5
            }
        }),
{
}

/// A value that is given is taken, and its default only if it is not.
pub proof fn values_and_defaults(value: Option<u32>, default: u32)
    ensures
        value is Some ==> report::value_or(value, default) == value->0,
        value is None ==> report::value_or(value, default) == default,
{
}

} // verus!
