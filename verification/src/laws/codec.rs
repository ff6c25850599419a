//! Laws of signal-unit framing.

use vstd::prelude::*;

use crate::error::Mtp2Error;
use crate::signal_unit;
use crate::signal_unit::{SignalUnit, SignalUnitView, StatusIndication, SuHeader, LI_MAX};
use crate::MAX_MSU_BODY;

verus! {

/// A signal unit that the wire format can carry: its sequence numbers fit their fields,
/// and the body of an MSU is neither longer than a link carries nor shorter than the
/// smallest Length Indicator of an MSU.
pub open spec fn carriable(su: SignalUnitView) -> bool {
    &&& su.header().in_range()
    &&& su is Msu ==> 3 <= su.body().len() <= MAX_MSU_BODY
}

/// The octets of a signal unit with the spare bits cleared: the two bits beside the
/// Length Indicator, and in an LSSU all but the status code.
pub open spec fn without_spare_bits(bytes: Seq<u8>) -> Seq<u8> {
    let li = bytes[2] % 64;
    let is_status = li == 1 || li == 2;
    Seq::new(
        bytes.len(),
        |i: int|
            if i == 2 {
                li
            } else if is_status && i == 3 {
                bytes[i] % 8
            } else if is_status && i == 4 {
                0
            } else {
                bytes[i]
            },
    )
}

/// Encoding a carriable signal unit succeeds, and decoding gives the unit back.
pub proof fn decode_inverts_encode(su: SignalUnitView)
    requires
        carriable(su),
    ensures
        su.encoded() == Ok::<Seq<u8>, Mtp2Error>(su.wire()),
        SignalUnitView::decoded(su.wire()) == Ok::<SignalUnitView, Mtp2Error>(su),
{
    let bytes = su.wire();
    assert(bytes.skip(3) =~= su.body());
    assert(SuHeader::in_octets(bytes[0], bytes[1]) == su.header());
    match su {
        SignalUnitView::Msu { sif, .. } => {
            assert(su.body().skip(1) =~= sif);
        },
        _ => {},
    }
}

/// A decoded signal unit is carriable, and encoding it gives back the octets it was
/// decoded from, with the spare bits cleared.
pub proof fn encode_inverts_decode(bytes: Seq<u8>)
    requires
        SignalUnitView::decoded(bytes) is Ok,
    ensures
        carriable(SignalUnitView::decoded(bytes)->Ok_0),
        SignalUnitView::decoded(bytes)->Ok_0.encoded() == Ok::<Seq<u8>, Mtp2Error>(
            without_spare_bits(bytes),
        ),
{
    let su = SignalUnitView::decoded(bytes)->Ok_0;
    let body = bytes.skip(3);
    match su {
        SignalUnitView::Fisu { .. } => {
            assert(su.wire() =~= without_spare_bits(bytes));
        },
        SignalUnitView::Lssu { .. } => {
            assert(body[0] == bytes[3]);
            assert(su.wire() =~= without_spare_bits(bytes));
        },
        SignalUnitView::Msu { sio, sif, .. } => {
            assert(seq![sio] + sif =~= body);
            assert(su.wire() =~= without_spare_bits(bytes));
        },
    }
}

/// Different carriable signal units are different on the wire.
pub proof fn encoding_is_injective(a: SignalUnitView, b: SignalUnitView)
    requires
        carriable(a),
        carriable(b),
        a.wire() == b.wire(),
    ensures
        a == b,
{
    decode_inverts_encode(a);
    decode_inverts_encode(b);
}

/// The Length Indicator on the wire tells the kind of any signal unit: 0 is a FISU, 1 and 2
/// are an LSSU, 3 to 63 are an MSU. It counts the octets that follow it, up to 62; at 63
/// there are at least as many, and at 3 there may be fewer.
pub proof fn length_indicator_tells_the_kind(su: SignalUnitView)
    ensures
        ({
            let li = su.wire()[2];
            let octets = su.wire().len() - 3;
            &&& li == 0 <==> su is Fisu
            &&& 1 <= li <= 2 <==> su is Lssu
            &&& 3 <= li <= LI_MAX <==> su is Msu
            &&& li < LI_MAX && li != 3 ==> octets == li
            &&& li == 3 ==> octets <= 3
            &&& carriable(su) && li < LI_MAX ==> octets == li
            &&& li == LI_MAX ==> octets >= LI_MAX
        }),
{
}

/// An MSU too short for the wire format is refused by whoever decodes it, and never read as
/// a unit of another kind.
pub proof fn short_msu_is_refused(su: SignalUnitView)
    requires
        su is Msu,
        su.header().in_range(),
        su.body().len() < 3,
    ensures
        su.encoded() == Ok::<Seq<u8>, Mtp2Error>(su.wire()),
        SignalUnitView::decoded(su.wire()) == Err::<SignalUnitView, Mtp2Error>(
            Mtp2Error::LengthIndicatorMismatch { li: 3, octets: su.body().len() as usize },
        ),
{
    assert(su.wire().skip(3) =~= su.body());
}

/// The two sequence octets and the header they hold determine each other: packing what
/// was unpacked gives the octets back, and unpacking what was packed gives the header
/// back where it fits its fields. What is unpacked always fits.
pub proof fn sequence_octets_round_trip(b0: u8, b1: u8, header: SuHeader)
    ensures
        ({
            let unpacked = SuHeader::in_octets(b0, b1);
            &&& unpacked.in_range()
            &&& signal_unit::seq_octet(unpacked.bsn % 128, unpacked.bib) == b0
            &&& signal_unit::seq_octet(unpacked.fsn % 128, unpacked.fib) == b1
        }),
        header.in_range() ==> SuHeader::in_octets(
            signal_unit::seq_octet(header.bsn % 128, header.bib),
            signal_unit::seq_octet(header.fsn % 128, header.fib),
        ) == header,
{
}

/// Every status indication is the one in an octet with its code, whatever the spare
/// bits hold, and an octet holds none exactly for the two codes that are not defined.
pub proof fn status_codes_round_trip(status: StatusIndication, octet: u8)
    ensures
        octet % 8 == status.wire_code() <==> StatusIndication::in_octet(octet) == Ok::<
            StatusIndication,
            Mtp2Error,
        >(status),
        StatusIndication::in_octet(octet) is Err <==> octet % 8 >= 6,
{
}

// ── Octet by octet ──────────────────────────────────────────────────────────────────

/// Whether the first two octets carry these sequence numbers and indicator bits: each
/// number in the seven low bits, its bit on top.
pub open spec fn carries_header(bytes: Seq<u8>, header: SuHeader) -> bool {
    &&& bytes[0] == header.bsn + if header.bib {
        128int
    } else {
        0
    }
    &&& bytes[1] == header.fsn + if header.fib {
        128int
    } else {
        0
    }
}

/// A FISU on the wire is its header and a Length Indicator of zero, and nothing else.
pub proof fn fisu_octets(header: SuHeader)
    requires
        header.bsn < 128,
        header.fsn < 128,
    ensures
        ({
            let encoded = (SignalUnitView::Fisu { header }).encoded();
            &&& encoded is Ok
            &&& encoded->Ok_0.len() == 3
            &&& carries_header(encoded->Ok_0, header)
            &&& encoded->Ok_0[2] == 0
        }),
{
}

/// An LSSU on the wire is its header, the number of its status octets, and these: the code
/// of the status, 0 to 5 in the order SIO, SIN, SIE, SIOS, SIPO, SIB, and a zero in the
/// two-octet form.
pub proof fn lssu_octets(header: SuHeader, status: StatusIndication, extended: bool)
    requires
        header.bsn < 128,
        header.fsn < 128,
    ensures
        ({
            let encoded = (SignalUnitView::Lssu { header, status, extended }).encoded();
            let bytes = encoded->Ok_0;
            &&& encoded is Ok
            &&& bytes.len() == if extended {
                5nat
            } else {
                4
            }
            &&& carries_header(bytes, header)
            &&& bytes[2] == bytes.len() - 3
            &&& status is OutOfAlignment ==> bytes[3] == 0
            &&& status is NormalAlignment ==> bytes[3] == 1
            &&& status is EmergencyAlignment ==> bytes[3] == 2
            &&& status is OutOfService ==> bytes[3] == 3
            &&& status is ProcessorOutage ==> bytes[3] == 4
            &&& status is Busy ==> bytes[3] == 5
            &&& extended ==> bytes[4] == 0
        }),
{
}

/// An MSU on the wire, of any length, is its header, the Length Indicator, the SIO and the
/// SIF behind it, octet for octet. The indicator is the number of octets that follow it,
/// raised to 3 and cut off at 63.
pub proof fn msu_octets(header: SuHeader, sio: u8, sif: Seq<u8>)
    requires
        header.bsn < 128,
        header.fsn < 128,
        sif.len() <= 272,
    ensures
        ({
            let encoded = (SignalUnitView::Msu { header, sio, sif }).encoded();
            let bytes = encoded->Ok_0;
            &&& encoded is Ok
            &&& bytes.len() == 4 + sif.len()
            &&& carries_header(bytes, header)
            &&& 3 <= bytes[2] <= 63
            &&& 3 <= bytes.len() - 3 <= 63 ==> bytes[2] == bytes.len() - 3
            &&& bytes.len() - 3 < 3 ==> bytes[2] == 3
            &&& bytes.len() - 3 > 63 ==> bytes[2] == 63
            &&& bytes[3] == sio
            &&& forall|i: int| 0 <= i < sif.len() ==> #[trigger] bytes[4 + i] == sif[i]
            &&& bytes.skip(4) == sif
        }),
{
    let bytes = (SignalUnitView::Msu { header, sio, sif }).encoded()->Ok_0;
    assert(bytes.skip(4) =~= sif);
}

/// Encoding refuses a unit exactly when a sequence number does not fit seven bits or an
/// MSU is longer than a link carries, and names what is wrong: the BSN before the FSN
/// before the length.
pub proof fn encoding_refuses(su: SignalUnitView)
    ensures
        ({
            let (header, octets) = match su {
                SignalUnitView::Fisu { header } => (header, 0nat),
                SignalUnitView::Lssu { header, .. } => (header, 0nat),
                SignalUnitView::Msu { header, sif, .. } => (header, 1 + sif.len()),
            };
            &&& su.encoded() is Ok <==> header.bsn <= 127 && header.fsn <= 127 && octets <= 273
            &&& header.bsn > 127 ==> su.encoded() == Err::<Seq<u8>, Mtp2Error>(
                Mtp2Error::SequenceNumberOutOfRange(header.bsn as u16),
            )
            &&& header.bsn <= 127 && header.fsn > 127 ==> su.encoded() == Err::<
                Seq<u8>,
                Mtp2Error,
            >(Mtp2Error::SequenceNumberOutOfRange(header.fsn as u16))
            &&& header.bsn <= 127 && header.fsn <= 127 && 273 < octets <= usize::MAX
                ==> su.encoded() == Err::<Seq<u8>, Mtp2Error>(
                Mtp2Error::MsuTooLarge(octets as usize),
            )
        }),
{
}

/// Which octets decode: a header with a Length Indicator of 0 and nothing behind it, of 1
/// or 2 and as many octets, the first with a defined code, of 3 to 62 and as many octets,
/// or of 63 and at least as many but no more than a link carries.
pub proof fn decoding_accepts(bytes: Seq<u8>)
    ensures
        SignalUnitView::decoded(bytes) is Ok <==> bytes.len() >= 3 && ({
            let li = bytes[2] % 64;
            let octets = bytes.len() - 3;
            ||| li == 0 && octets == 0
            ||| 1 <= li <= 2 && octets == li && bytes[3] % 8 <= 5
            ||| 3 <= li <= 62 && octets == li
            ||| li == 63 && 63 <= octets <= 273
        }),
{
}

/// What octets decode to. The sequence numbers are the seven low bits of the first two
/// octets, the indicator bits those on top. The Length Indicator selects the kind. The
/// fourth octet is the status in an LSSU and the SIO in an MSU, and all that is behind the
/// SIO is the SIF.
pub proof fn decoding_reads_the_fields(bytes: Seq<u8>)
    requires
        SignalUnitView::decoded(bytes) is Ok,
    ensures
        ({
            let li = bytes[2] % 64;
            let su = SignalUnitView::decoded(bytes)->Ok_0;
            let header = SuHeader {
                bsn: bytes[0] % 128,
                bib: bytes[0] >= 128,
                fsn: bytes[1] % 128,
                fib: bytes[1] >= 128,
            };
            &&& li == 0 ==> su == (SignalUnitView::Fisu { header })
            &&& 1 <= li <= 2 ==> {
                &&& su matches SignalUnitView::Lssu { header: h, extended, .. } && h == header
                    && extended == (li == 2)
                &&& su->status is OutOfAlignment <==> bytes[3] % 8 == 0
                &&& su->status is NormalAlignment <==> bytes[3] % 8 == 1
                &&& su->status is EmergencyAlignment <==> bytes[3] % 8 == 2
                &&& su->status is OutOfService <==> bytes[3] % 8 == 3
                &&& su->status is ProcessorOutage <==> bytes[3] % 8 == 4
                &&& su->status is Busy <==> bytes[3] % 8 == 5
            }
            &&& li >= 3 ==> su == (SignalUnitView::Msu {
                header,
                sio: bytes[3],
                sif: bytes.skip(4),
            })
        }),
{
    assert(bytes.len() > 3 ==> bytes.skip(3).skip(1) =~= bytes.skip(4));
}

/// Why octets do not decode, the first reason that applies: fewer than the header, an MSU
/// without a body, a body that the Length Indicator does not count, a status code that is
/// not defined, or a body longer than a link carries.
pub proof fn decoding_refuses(bytes: Seq<u8>)
    requires
        bytes.len() <= usize::MAX,
    ensures
        ({
            let li = bytes[2] % 64;
            let octets = bytes.len() - 3;
            let counted = octets == li || li == 63 && octets > 63;
            let r = SignalUnitView::decoded(bytes);
            &&& bytes.len() < 3 ==> r == Err::<SignalUnitView, Mtp2Error>(
                Mtp2Error::TooShort { expected: 3, actual: bytes.len() as usize },
            )
            &&& octets == 0 && li >= 3 ==> r == Err::<SignalUnitView, Mtp2Error>(
                Mtp2Error::TooShort { expected: 4, actual: 3 },
            )
            &&& octets >= 0 && !(octets == 0 && li >= 3) && !counted ==> r == Err::<
                SignalUnitView,
                Mtp2Error,
            >(Mtp2Error::LengthIndicatorMismatch { li, octets: octets as usize })
            &&& octets >= 0 && counted && 1 <= li <= 2 && bytes[3] % 8 > 5 ==> r == Err::<
                SignalUnitView,
                Mtp2Error,
            >(Mtp2Error::InvalidStatusIndication(bytes[3] % 8))
            &&& octets > 273 && li == 63 ==> r == Err::<SignalUnitView, Mtp2Error>(
                Mtp2Error::MsuTooLarge(octets as usize),
            )
        }),
{
}

/// A status octet holds the status of its three low bits, 0 to 5 in the order SIO, SIN,
/// SIE, SIOS, SIPO, SIB; the other two values are refused by their number.
pub proof fn status_octets(octet: u8)
    ensures
        ({
            let r = StatusIndication::in_octet(octet);
            let code = octet % 8;
            &&& r is Ok <==> code <= 5
            &&& code == 0 ==> r->Ok_0 is OutOfAlignment
            &&& code == 1 ==> r->Ok_0 is NormalAlignment
            &&& code == 2 ==> r->Ok_0 is EmergencyAlignment
            &&& code == 3 ==> r->Ok_0 is OutOfService
            &&& code == 4 ==> r->Ok_0 is ProcessorOutage
            &&& code == 5 ==> r->Ok_0 is Busy
            &&& code >= 6 ==> r == Err::<StatusIndication, Mtp2Error>(
                Mtp2Error::InvalidStatusIndication(code),
            )
        }),
{
}

/// A header fits when both numbers are at most 127; the error names the BSN if it does not
/// fit, else the FSN.
pub proof fn headers_fit(header: SuHeader)
    ensures
        header.in_range() <==> header.bsn <= 127 && header.fsn <= 127,
        header.bsn > 127 ==> header.range_error() == Mtp2Error::SequenceNumberOutOfRange(
            header.bsn as u16,
        ),
        header.bsn <= 127 ==> header.range_error() == Mtp2Error::SequenceNumberOutOfRange(
            header.fsn as u16,
        ),
{
}

/// The header and the Length Indicator of a unit before it is encoded are those that it
/// has on the wire, also of a unit that cannot be encoded.
pub proof fn header_and_length_of_units(su: SignalUnitView)
    ensures
        su matches SignalUnitView::Fisu { header } ==> su.header() == header
            && su.length_indicator() == 0,
        su matches SignalUnitView::Lssu { header, extended, .. } ==> su.header() == header
            && su.length_indicator() == if extended {
            2int
        } else {
            1int
        },
        su matches SignalUnitView::Msu { header, sif, .. } ==> {
            &&& su.header() == header
            &&& sif.len() <= 2 ==> su.length_indicator() == 3
            &&& 2 <= sif.len() <= 62 ==> su.length_indicator() == 1 + sif.len()
            &&& sif.len() >= 62 ==> su.length_indicator() == 63
        },
{
}

/// An error reports the length of an MSU body as one more than the SIF has octets.
pub proof fn reported_length(sif: Seq<u8>)
    requires
        sif.len() < usize::MAX,
    ensures
        signal_unit::body_octets(sif) == 1 + sif.len(),
{
}

/// The value of a signal unit is that of its parts, one by one.
pub proof fn value_of_units(su: SignalUnit)
    ensures
        su matches SignalUnit::Fisu { header } ==> su@ == (SignalUnitView::Fisu { header }),
        su matches SignalUnit::Lssu { header, status, extended } ==> su@ == (SignalUnitView::Lssu {
            header,
            status,
            extended,
        }),
        su matches SignalUnit::Msu { header, sio, sif } ==> su@ == (SignalUnitView::Msu {
            header,
            sio,
            sif: sif@,
        }),
{
}

} // verus!
