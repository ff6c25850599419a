//! Signal-unit framing.
//!
//! A signalling link carries exactly three kinds of signal unit (SU):
//!
//! * **FISU** - Fill-In Signal Unit. Header only; keeps the link busy and carries
//!   acknowledgements when there is no traffic.
//! * **LSSU** - Link Status Signal Unit. Header and a status field of one or two
//!   octets with one of the six status indications.
//! * **MSU** - Message Signal Unit. Header, Service Information Octet (SIO) and
//!   Service Information Field (SIF): the payload of level 3.
//!
//! A signal unit is the content between the flags and before the check bits: flag
//! delimitation, bit stuffing and the check bits belong to the line framer. Three
//! octets precede the body:
//!
//! ```text
//!  octet 0:  BSN (bits 1-7) + BIB (bit 8)
//!  octet 1:  FSN (bits 1-7) + FIB (bit 8)
//!  octet 2:  LI  (bits 1-6) + 2 spare bits
//! ```
//!
//! The Length Indicator (LI) selects the kind of unit: `0` is a FISU, `1` and `2` are an
//! LSSU, `3..=63` are an MSU. It counts the body octets and saturates at 63; the length of a
//! longer body comes from the delimitation by the framer. An MSU with a body of fewer than
//! three octets carries LI 3 all the same, and a receiver refuses it.

use vstd::prelude::*;
use vstd::slice::{slice_subrange, slice_to_vec};

use crate::error::Mtp2Error;
use crate::text;
use crate::MAX_MSU_BODY;

verus! {

/// LI value for a Fill-In Signal Unit.
pub const LI_FISU: u8 = 0;

/// LI value for a one-octet Link Status Signal Unit.
pub const LI_LSSU_ONE: u8 = 1;

/// LI value for a two-octet Link Status Signal Unit.
pub const LI_LSSU_TWO: u8 = 2;

/// Smallest LI value of a Message Signal Unit.
pub const LI_MSU_MIN: u8 = 3;

/// Largest value the 6-bit Length Indicator can hold; also the LI of any MSU whose
/// SIO + SIF is this long or longer.
pub const LI_MAX: u8 = 63;

/// Number of values of the 7-bit BSN/FSN fields.
pub const SEQ_MODULUS: u16 = 128;

/// The six status indications carried in the status field of an LSSU.
///
/// The 3-bit code lives in the least-significant bits of the first status octet;
/// the remaining bits (and the optional second octet) are spare.
#[derive(Debug, Clone, Copy, PartialEq, Eq, Structural)]
pub enum StatusIndication {
    /// SIO - out of alignment.
    OutOfAlignment,
    /// SIN - normal alignment.
    NormalAlignment,
    /// SIE - emergency alignment.
    EmergencyAlignment,
    /// SIOS - out of service.
    OutOfService,
    /// SIPO - processor outage.
    ProcessorOutage,
    /// SIB - busy.
    Busy,
}

impl StatusIndication {
    /// The 3-bit code of the indication on the wire.
    pub open spec fn wire_code(self) -> u8 {
        match self {
            StatusIndication::OutOfAlignment => 0,
            StatusIndication::NormalAlignment => 1,
            StatusIndication::EmergencyAlignment => 2,
            StatusIndication::OutOfService => 3,
            StatusIndication::ProcessorOutage => 4,
            StatusIndication::Busy => 5,
        }
    }

    /// The indication in a status octet: the one whose code is the value of the
    /// three least-significant bits, if one has it.
    pub open spec fn in_octet(octet: u8) -> Result<StatusIndication, Mtp2Error> {
        let code = octet % 8;
        if code == 0 {
            Ok(StatusIndication::OutOfAlignment)
        } else if code == 1 {
            Ok(StatusIndication::NormalAlignment)
        } else if code == 2 {
            Ok(StatusIndication::EmergencyAlignment)
        } else if code == 3 {
            Ok(StatusIndication::OutOfService)
        } else if code == 4 {
            Ok(StatusIndication::ProcessorOutage)
        } else if code == 5 {
            Ok(StatusIndication::Busy)
        } else {
            Err(Mtp2Error::InvalidStatusIndication(code))
        }
    }

    /// The text of the mnemonic.
    pub open spec fn text(self) -> Seq<char> {
        match self {
            StatusIndication::OutOfAlignment => "SIO"@,
            StatusIndication::NormalAlignment => "SIN"@,
            StatusIndication::EmergencyAlignment => "SIE"@,
            StatusIndication::OutOfService => "SIOS"@,
            StatusIndication::ProcessorOutage => "SIPO"@,
            StatusIndication::Busy => "SIB"@,
        }
    }

    /// Parse the 3-bit status code from an LSSU status octet.
    pub fn from_u8(value: u8) -> (r: Result<Self, Mtp2Error>)
        ensures
            r == Self::in_octet(value),
    {
        let code: u8 = value & 0x07;
        assert(value & 0x07 == value % 8) by (bit_vector);
        match code {
            0 => Ok(StatusIndication::OutOfAlignment),
            1 => Ok(StatusIndication::NormalAlignment),
            2 => Ok(StatusIndication::EmergencyAlignment),
            3 => Ok(StatusIndication::OutOfService),
            4 => Ok(StatusIndication::ProcessorOutage),
            5 => Ok(StatusIndication::Busy),
            other => Err(Mtp2Error::InvalidStatusIndication(other)),
        }
    }

    /// The code of the indication on the wire.
    fn code(self) -> (code: u8)
        ensures
            code == self.wire_code(),
            code < 8,
    {
        match self {
            StatusIndication::OutOfAlignment => 0,
            StatusIndication::NormalAlignment => 1,
            StatusIndication::EmergencyAlignment => 2,
            StatusIndication::OutOfService => 3,
            StatusIndication::ProcessorOutage => 4,
            StatusIndication::Busy => 5,
        }
    }

    /// The short mnemonic (`SIO`, `SIN`, `SIE`, `SIOS`, `SIPO`, `SIB`).
    pub fn mnemonic(self) -> (s: &'static str)
        ensures
            s@ == self.text(),
    {
        match self {
            StatusIndication::OutOfAlignment => "SIO",
            StatusIndication::NormalAlignment => "SIN",
            StatusIndication::EmergencyAlignment => "SIE",
            StatusIndication::OutOfService => "SIOS",
            StatusIndication::ProcessorOutage => "SIPO",
            StatusIndication::Busy => "SIB",
        }
    }

    /// The mnemonic as an owned string.
    pub fn to_string(&self) -> (s: String)
        ensures
            s@ == self.text(),
    {
        self.mnemonic().to_owned()
    }
}

/// The signal-unit header common to every SU: the two sequence numbers with their
/// indicator bits. The Length Indicator is not stored here - it is a function of the
/// body and is derived on [`SignalUnit::encode`].
#[derive(Debug, Clone, Copy, PartialEq, Eq, Structural)]
pub struct SuHeader {
    /// Backward Sequence Number (7-bit): FSN of the last MSU accepted from the peer.
    pub bsn: u8,
    /// Backward Indicator Bit: toggled to negatively acknowledge (Basic method).
    pub bib: bool,
    /// Forward Sequence Number (7-bit): sequence number of this SU's MSU.
    pub fsn: u8,
    /// Forward Indicator Bit: echoes the peer's BIB after a retransmission request.
    pub fib: bool,
}

/// A sequence number with its indicator bit, as one octet.
pub open spec fn seq_octet(number: u8, indicator: bool) -> u8 {
    if indicator {
        (number + 128) as u8
    } else {
        number
    }
}

impl SuHeader {
    /// Whether both sequence numbers fit their 7-bit field.
    pub open spec fn in_range(self) -> bool {
        self.bsn < SEQ_MODULUS && self.fsn < SEQ_MODULUS
    }

    /// The error for a header that is not in range: it names the first sequence
    /// number that does not fit.
    pub open spec fn range_error(self) -> Mtp2Error {
        if self.bsn >= SEQ_MODULUS {
            Mtp2Error::SequenceNumberOutOfRange(self.bsn as u16)
        } else {
            Mtp2Error::SequenceNumberOutOfRange(self.fsn as u16)
        }
    }

    /// The header in the first two octets of a signal unit.
    pub open spec fn in_octets(b0: u8, b1: u8) -> SuHeader {
        SuHeader { bsn: b0 % 128, bib: b0 >= 128, fsn: b1 % 128, fib: b1 >= 128 }
    }

    /// The text of the header.
    pub open spec fn text(self) -> Seq<char> {
        "bsn="@ + text::decimal(self.bsn as nat) + " bib="@ + text::bit(self.bib) + " fsn="@
            + text::decimal(self.fsn as nat) + " fib="@ + text::bit(self.fib)
    }

    /// Build a header, validating that both sequence numbers fit the 7-bit field.
    pub fn new(bsn: u8, bib: bool, fsn: u8, fib: bool) -> (r: Result<Self, Mtp2Error>)
        ensures
            ({
                let header = SuHeader { bsn, bib, fsn, fib };
                r == if header.in_range() {
                    Ok::<SuHeader, Mtp2Error>(header)
                } else {
                    Err(header.range_error())
                }
            }),
    {
        if bsn as u16 >= SEQ_MODULUS {
            return Err(Mtp2Error::SequenceNumberOutOfRange(bsn as u16));
        }
        if fsn as u16 >= SEQ_MODULUS {
            return Err(Mtp2Error::SequenceNumberOutOfRange(fsn as u16));
        }
        Ok(SuHeader { bsn, bib, fsn, fib })
    }

    /// Encode the two header sequence octets (BSN+BIB, FSN+FIB); of a number that does not
    /// fit its field, the seven low bits are taken. The LI octet is written by
    /// [`SignalUnit::encode`], which knows the body.
    fn encode_seq_octets(&self) -> (octets: [u8; 2])
        ensures
            octets@ == seq![
                seq_octet(self.bsn % 128, self.bib),
                seq_octet(self.fsn % 128, self.fib),
            ],
            self.in_range() ==> Self::in_octets(octets@[0], octets@[1]) == *self,
    {
        let bsn: u8 = (self.bsn & 0x7f) | (if self.bib { 0x80u8 } else { 0u8 });
        let fsn: u8 = (self.fsn & 0x7f) | (if self.fib { 0x80u8 } else { 0u8 });
        proof {
            lemma_pack_octet(self.bsn);
            lemma_pack_octet(self.fsn);
        }
        let octets = [bsn, fsn];
        assert(octets@ =~= seq![
            seq_octet(self.bsn % 128, self.bib),
            seq_octet(self.fsn % 128, self.fib),
        ]);
        octets
    }

    /// Decode BSN/BIB/FSN/FIB from the first two header octets.
    fn decode_seq_octets(b0: u8, b1: u8) -> (header: Self)
        ensures
            header == Self::in_octets(b0, b1),
            header.in_range(),
            seq_octet(header.bsn % 128, header.bib) == b0,
            seq_octet(header.fsn % 128, header.fib) == b1,
    {
        proof {
            lemma_unpack_octet(b0);
            lemma_unpack_octet(b1);
        }
        SuHeader { bsn: b0 & 0x7f, bib: b0 & 0x80 != 0, fsn: b1 & 0x7f, fib: b1 & 0x80 != 0 }
    }

    /// The header as `bsn=.. bib=.. fsn=.. fib=..`.
    pub fn to_string(&self) -> (s: String)
        ensures
            s@ == self.text(),
    {
        let mut s = String::new();
        s.append("bsn=");
        text::push_decimal(&mut s, self.bsn as usize);
        s.append(" bib=");
        text::push_bit(&mut s, self.bib);
        s.append(" fsn=");
        text::push_decimal(&mut s, self.fsn as usize);
        s.append(" fib=");
        text::push_bit(&mut s, self.fib);
        assert(s@ =~= self.text());
        s
    }
}

/// Setting the indicator bit beside the seven low bits of a number adds 128 to them.
proof fn lemma_pack_octet(n: u8)
    by (bit_vector)
    ensures
        (n & 0x7f) | 0x80 == n % 128 + 128,
        (n & 0x7f) | 0 == n % 128,
{
}

/// Masking an octet splits it into its value modulo 128 and its top bit.
proof fn lemma_unpack_octet(b: u8)
    by (bit_vector)
    ensures
        b & 0x7f == b % 128,
        (b & 0x80 != 0) == (b >= 128),
{
}

/// A signal unit: FISU, LSSU or MSU.
///
/// Every variant carries the common [`SuHeader`]; the Length Indicator that selects
/// the variant on the wire is computed at encode time.
#[derive(Debug, Clone, PartialEq, Eq)]
pub enum SignalUnit {
    /// Fill-In Signal Unit (LI = 0). Header only.
    Fisu { header: SuHeader },
    /// Link Status Signal Unit (LI = 1 or 2). Carries a status indication.
    Lssu {
        header: SuHeader,
        status: StatusIndication,
        /// `true` for the two-octet status field (LI = 2); the second octet is spare.
        /// Most implementations send the one-octet form.
        extended: bool,
    },
    /// Message Signal Unit (LI = 3..=63). Carries the SIO + SIF of level 3.
    Msu {
        header: SuHeader,
        /// Service Information Octet (network indicator + service indicator).
        sio: u8,
        /// Service Information Field (routing label + payload).
        sif: Vec<u8>,
    },
}

/// The mathematical value of a [`SignalUnit`].
pub enum SignalUnitView {
    Fisu { header: SuHeader },
    Lssu { header: SuHeader, status: StatusIndication, extended: bool },
    Msu { header: SuHeader, sio: u8, sif: Seq<u8> },
}

impl View for SignalUnit {
    type V = SignalUnitView;

    open spec fn view(&self) -> SignalUnitView {
        match self {
            SignalUnit::Fisu { header } => SignalUnitView::Fisu { header: *header },
            SignalUnit::Lssu { header, status, extended } => SignalUnitView::Lssu {
                header: *header,
                status: *status,
                extended: *extended,
            },
            SignalUnit::Msu { header, sio, sif } => SignalUnitView::Msu {
                header: *header,
                sio: *sio,
                sif: sif@,
            },
        }
    }
}

/// The octets of an MSU body with this SIF, as an error reports them. No vector is
/// as long as the address space, so the count stays below the cap.
pub open spec fn body_octets(sif: Seq<u8>) -> usize {
    if sif.len() < usize::MAX {
        (1 + sif.len()) as usize
    } else {
        usize::MAX
    }
}

impl SignalUnitView {
    /// The common header.
    pub open spec fn header(self) -> SuHeader {
        match self {
            SignalUnitView::Fisu { header } => header,
            SignalUnitView::Lssu { header, .. } => header,
            SignalUnitView::Msu { header, .. } => header,
        }
    }

    /// The octets after the header: none, the status field, or SIO and SIF.
    pub open spec fn body(self) -> Seq<u8> {
        match self {
            SignalUnitView::Fisu { .. } => seq![],
            SignalUnitView::Lssu { status, extended, .. } => if extended {
                seq![status.wire_code(), 0u8]
            } else {
                seq![status.wire_code()]
            },
            SignalUnitView::Msu { sio, sif, .. } => seq![sio] + sif,
        }
    }

    /// The Length Indicator: the number of body octets, saturating at 63 and, for an MSU,
    /// not below 3.
    pub open spec fn length_indicator(self) -> int {
        if self is Msu && self.body().len() < LI_MSU_MIN {
            LI_MSU_MIN as int
        } else if self.body().len() < LI_MAX {
            self.body().len() as int
        } else {
            LI_MAX as int
        }
    }

    /// The signal unit on the wire: the two sequence octets, the Length Indicator
    /// and the body.
    pub open spec fn wire(self) -> Seq<u8> {
        seq![
            seq_octet(self.header().bsn, self.header().bib),
            seq_octet(self.header().fsn, self.header().fib),
            self.length_indicator() as u8,
        ] + self.body()
    }

    /// What encoding gives: the wire form, unless a sequence number does not fit its
    /// field or the body is longer than a link carries.
    pub open spec fn encoded(self) -> Result<Seq<u8>, Mtp2Error> {
        if !self.header().in_range() {
            Err(self.header().range_error())
        } else if self.body().len() > MAX_MSU_BODY {
            Err(Mtp2Error::MsuTooLarge(body_octets(self->sif)))
        } else {
            Ok(self.wire())
        }
    }

    /// What decoding gives. The Length Indicator selects the kind of unit and must
    /// count the body, except that 63 stands for every body of 63 octets or more.
    pub open spec fn decoded(bytes: Seq<u8>) -> Result<SignalUnitView, Mtp2Error> {
        if bytes.len() < 3 {
            Err(Mtp2Error::TooShort { expected: 3, actual: bytes.len() as usize })
        } else {
            let header = SuHeader::in_octets(bytes[0], bytes[1]);
            let li = bytes[2] % 64;
            let body = bytes.skip(3);
            if li > LI_LSSU_TWO && body.len() == 0 {
                Err(Mtp2Error::TooShort { expected: 4, actual: 3 })
            } else if body.len() != li && !(li == LI_MAX && body.len() > LI_MAX) {
                Err(Mtp2Error::LengthIndicatorMismatch { li, octets: body.len() as usize })
            } else if li == LI_FISU {
                Ok(SignalUnitView::Fisu { header })
            } else if li <= LI_LSSU_TWO {
                match StatusIndication::in_octet(body[0]) {
                    Ok(status) => Ok(
                        SignalUnitView::Lssu { header, status, extended: li == LI_LSSU_TWO },
                    ),
                    Err(e) => Err(e),
                }
            } else if body.len() > MAX_MSU_BODY {
                Err(Mtp2Error::MsuTooLarge(body.len() as usize))
            } else {
                Ok(SignalUnitView::Msu { header, sio: body[0], sif: body.skip(1) })
            }
        }
    }

    /// The text of the signal unit.
    pub open spec fn text(self) -> Seq<char> {
        match self {
            SignalUnitView::Fisu { header } => "FISU ["@ + header.text() + "]"@,
            SignalUnitView::Lssu { header, status, .. } => "LSSU "@ + status.text() + " ["@
                + header.text() + "]"@,
            SignalUnitView::Msu { header, sio, sif } => "MSU ["@ + header.text() + "] sio="@
                + text::hex_octet(sio) + " sif_len="@ + text::decimal(sif.len()),
        }
    }
}

impl SignalUnit {
    /// Construct a FISU with the given acknowledgement header.
    pub fn fisu(header: SuHeader) -> (su: Self)
        ensures
            su@ == (SignalUnitView::Fisu { header }),
    {
        SignalUnit::Fisu { header }
    }

    /// Construct a one-octet LSSU carrying `status`.
    pub fn lssu(header: SuHeader, status: StatusIndication) -> (su: Self)
        ensures
            su@ == (SignalUnitView::Lssu { header, status, extended: false }),
    {
        SignalUnit::Lssu { header, status, extended: false }
    }

    /// Construct an MSU, validating the SIO + SIF against the link maximum.
    pub fn msu(header: SuHeader, sio: u8, sif: Vec<u8>) -> (r: Result<Self, Mtp2Error>)
        ensures
            match r {
                Ok(su) => 1 + sif@.len() <= MAX_MSU_BODY && su@ == (SignalUnitView::Msu {
                    header,
                    sio,
                    sif: sif@,
                }),
                Err(e) => 1 + sif@.len() > MAX_MSU_BODY && e == Mtp2Error::MsuTooLarge(
                    body_octets(sif@),
                ),
            },
    {
        let body: usize = sif.len().saturating_add(1);
        if body > MAX_MSU_BODY {
            return Err(Mtp2Error::MsuTooLarge(body));
        }
        Ok(SignalUnit::Msu { header, sio, sif })
    }

    /// The common header of any SU.
    pub fn header(&self) -> (header: SuHeader)
        ensures
            header == self@.header(),
    {
        match self {
            SignalUnit::Fisu { header } => *header,
            SignalUnit::Lssu { header, .. } => *header,
            SignalUnit::Msu { header, .. } => *header,
        }
    }

    /// The Length Indicator this SU encodes to. For an MSU whose SIO + SIF is 63
    /// octets or longer this saturates at [`LI_MAX`]; it is never below [`LI_MSU_MIN`],
    /// so that no MSU passes for a unit of another kind.
    pub fn length_indicator(&self) -> (li: u8)
        ensures
            li == self@.length_indicator(),
            li <= LI_MAX,
            self is Msu ==> LI_MSU_MIN <= li,
    {
        match self {
            SignalUnit::Fisu { .. } => LI_FISU,
            SignalUnit::Lssu { extended, .. } => {
                if *extended {
                    LI_LSSU_TWO
                } else {
                    LI_LSSU_ONE
                }
            },
            SignalUnit::Msu { sif, .. } => {
                let body: usize = sif.len().saturating_add(1);
                if body >= LI_MAX as usize {
                    LI_MAX
                } else if body < LI_MSU_MIN as usize {
                    LI_MSU_MIN
                } else {
                    body as u8
                }
            },
        }
    }

    /// Serialise the SU to its on-link content (header + body), without the flags
    /// and check bits of the framer.
    pub fn encode(&self) -> (r: Result<Vec<u8>, Mtp2Error>)
        ensures
            match r {
                Ok(bytes) => self@.encoded() == Ok::<Seq<u8>, Mtp2Error>(bytes@),
                Err(e) => self@.encoded() == Err::<Seq<u8>, Mtp2Error>(e),
            },
    {
        let header = self.header();
        // A hand-built header may hold a sequence number that does not fit.
        if let Err(e) = SuHeader::new(header.bsn, header.bib, header.fsn, header.fib) {
            return Err(e);
        }
        let seq = header.encode_seq_octets();
        let li: u8 = self.length_indicator();
        let mut out: Vec<u8> = Vec::with_capacity(3 + 2);
        out.push(seq[0]);
        out.push(seq[1]);
        assert(li & 0x3f == li) by (bit_vector)
            requires
                li <= 63,
        ;
        out.push(li & 0x3f);
        match self {
            SignalUnit::Fisu { .. } => {},
            SignalUnit::Lssu { status, extended, .. } => {
                let code: u8 = status.code();
                assert(code & 0x07 == code) by (bit_vector)
                    requires
                        code < 8,
                ;
                out.push(code & 0x07);
                if *extended {
                    // The second status octet is spare.
                    out.push(0);
                }
            },
            SignalUnit::Msu { sio, sif, .. } => {
                let body: usize = sif.len().saturating_add(1);
                if body > MAX_MSU_BODY {
                    return Err(Mtp2Error::MsuTooLarge(body));
                }
                out.push(*sio);
                out.extend_from_slice(sif.as_slice());
            },
        }
        assert(out@ =~= self@.wire());
        Ok(out)
    }

    /// Parse an SU from its on-link content (header + body). The caller has already
    /// stripped the flags and validated and removed the check bits.
    pub fn decode(bytes: &[u8]) -> (r: Result<Self, Mtp2Error>)
        ensures
            match r {
                Ok(su) => SignalUnitView::decoded(bytes@) == Ok::<SignalUnitView, Mtp2Error>(su@),
                Err(e) => SignalUnitView::decoded(bytes@) == Err::<SignalUnitView, Mtp2Error>(e),
            },
    {
        if bytes.len() < 3 {
            return Err(Mtp2Error::TooShort { expected: 3, actual: bytes.len() });
        }
        let header = SuHeader::decode_seq_octets(bytes[0], bytes[1]);
        let octet: u8 = bytes[2];
        assert(octet & 0x3f == octet % 64) by (bit_vector);
        let li: u8 = octet & 0x3f;
        let body = slice_subrange(bytes, 3, bytes.len());
        assert(body@ =~= bytes@.skip(3));
        if li == LI_FISU {
            if body.len() != 0 {
                return Err(Mtp2Error::LengthIndicatorMismatch { li, octets: body.len() });
            }
            Ok(SignalUnit::Fisu { header })
        } else if li == LI_LSSU_ONE || li == LI_LSSU_TWO {
            let want: usize = li as usize;
            if body.len() != want {
                return Err(Mtp2Error::LengthIndicatorMismatch { li, octets: body.len() });
            }
            match StatusIndication::from_u8(body[0]) {
                Ok(status) => Ok(
                    SignalUnit::Lssu { header, status, extended: li == LI_LSSU_TWO },
                ),
                Err(e) => Err(e),
            }
        } else {
            // MSU: the body is the SIO followed by the SIF.
            if body.len() == 0 {
                return Err(Mtp2Error::TooShort { expected: 4, actual: bytes.len() });
            }
            // Below 63 the indicator states the exact body length; at 63 it saturates.
            if li < LI_MAX && body.len() != li as usize {
                return Err(Mtp2Error::LengthIndicatorMismatch { li, octets: body.len() });
            }
            if li == LI_MAX && body.len() < LI_MAX as usize {
                return Err(Mtp2Error::LengthIndicatorMismatch { li, octets: body.len() });
            }
            let sio: u8 = body[0];
            let rest = slice_subrange(body, 1, body.len());
            assert(rest@ =~= body@.skip(1));
            let sif = slice_to_vec(rest);
            let total: usize = 1 + sif.len();
            if total > MAX_MSU_BODY {
                return Err(Mtp2Error::MsuTooLarge(total));
            }
            Ok(SignalUnit::Msu { header, sio, sif })
        }
    }

    /// The signal unit as a line for a human reader.
    pub fn to_string(&self) -> (s: String)
        ensures
            s@ == self@.text(),
    {
        let mut s = String::new();
        match self {
            SignalUnit::Fisu { header } => {
                s.append("FISU [");
                s.append(header.to_string().as_str());
                s.append("]");
            },
            SignalUnit::Lssu { header, status, .. } => {
                s.append("LSSU ");
                s.append(status.mnemonic());
                s.append(" [");
                s.append(header.to_string().as_str());
                s.append("]");
            },
            SignalUnit::Msu { header, sio, sif } => {
                s.append("MSU [");
                s.append(header.to_string().as_str());
                s.append("] sio=");
                text::push_hex_octet(&mut s, *sio);
                s.append(" sif_len=");
                text::push_decimal(&mut s, sif.len());
            },
        }
        assert(s@ =~= self@.text());
        s
    }
}

} // verus!
