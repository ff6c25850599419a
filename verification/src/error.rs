//! The errors of framing and parsing signal units.

use vstd::prelude::*;

use crate::text;
use crate::MAX_MSU_BODY;

verus! {

/// Errors that can occur while framing or parsing signal units.
#[derive(Debug, PartialEq, Eq)]
pub enum Mtp2Error {
    /// A signal unit was shorter than its mandatory header.
    TooShort { expected: usize, actual: usize },
    /// The Length Indicator did not match the signal unit body that followed it:
    /// `0` stands for a FISU, `1` and `2` for an LSSU, `3..=63` for an MSU.
    LengthIndicatorMismatch { li: u8, octets: usize },
    /// The 3-bit status indication of an LSSU was not one of the six defined codes.
    InvalidStatusIndication(u8),
    /// A sequence number (BSN/FSN) exceeded its 7-bit field (0..=127).
    SequenceNumberOutOfRange(u16),
    /// An MSU's SIO + SIF exceeded the maximum a signalling link may carry.
    MsuTooLarge(usize),
}

impl Mtp2Error {
    /// The text of the error.
    pub open spec fn text(self) -> Seq<char> {
        match self {
            Mtp2Error::TooShort { expected, actual } => "signal unit too short: expected at least "@
                + text::decimal(expected as nat) + " octets, got "@ + text::decimal(actual as nat),
            Mtp2Error::LengthIndicatorMismatch { li, octets } => "length indicator "@ + text::decimal(
                li as nat,
            ) + " inconsistent with a "@ + text::decimal(octets as nat) + "-octet body"@,
            Mtp2Error::InvalidStatusIndication(code) => "invalid status indication: "@ + text::decimal(
                code as nat,
            ),
            Mtp2Error::SequenceNumberOutOfRange(number) => "sequence number "@ + text::decimal(
                number as nat,
            ) + " out of range (must be 0..=127)"@,
            Mtp2Error::MsuTooLarge(octets) => "message signal unit body too large: "@ + text::decimal(
                octets as nat,
            ) + " octets (max "@ + text::decimal(MAX_MSU_BODY as nat) + ")"@,
        }
    }

    /// The error as a line for a human reader.
    pub fn to_string(&self) -> (s: String)
        ensures
            s@ == self.text(),
    {
        let mut s = String::new();
        match self {
            Mtp2Error::TooShort { expected, actual } => {
                s.append("signal unit too short: expected at least ");
                text::push_decimal(&mut s, *expected);
                s.append(" octets, got ");
                text::push_decimal(&mut s, *actual);
            },
            Mtp2Error::LengthIndicatorMismatch { li, octets } => {
                s.append("length indicator ");
                text::push_decimal(&mut s, *li as usize);
                s.append(" inconsistent with a ");
                text::push_decimal(&mut s, *octets);
                s.append("-octet body");
            },
            Mtp2Error::InvalidStatusIndication(code) => {
                s.append("invalid status indication: ");
                text::push_decimal(&mut s, *code as usize);
            },
            Mtp2Error::SequenceNumberOutOfRange(number) => {
                s.append("sequence number ");
                text::push_decimal(&mut s, *number as usize);
                s.append(" out of range (must be 0..=127)");
            },
            Mtp2Error::MsuTooLarge(octets) => {
                s.append("message signal unit body too large: ");
                text::push_decimal(&mut s, *octets);
                s.append(" octets (max ");
                text::push_decimal(&mut s, MAX_MSU_BODY);
                s.append(")");
            },
        }
        assert(s@ =~= self.text());
        s
    }
}

} // verus!
