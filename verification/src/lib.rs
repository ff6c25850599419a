//! MTP2 - Message Transfer Part Level 2: signal-unit framing and the signalling-link
//! state machine, verified.
//!
//! MTP2 is the SS7 data-link layer: it turns a single timeslot of an E1/T1 span into a
//! reliable signalling link for level 3. The library is deterministic and does no I/O:
//!
//! * **Signal-unit framing** ([`signal_unit`]) - FISU, LSSU and MSU, with the BSN/BIB,
//!   FSN/FIB and Length-Indicator header.
//! * **The link state machine** ([`link`]) - initial alignment, proving, in service,
//!   processor outage and flow control; [`link_model`] says what each input does.
//! * **The error-rate monitors** ([`monitor`]) - AERM (proving) and SUERM (in service).
//! * **Both retransmission methods** ([`retransmission`]) - Basic (negative
//!   acknowledgement) and Preventive Cyclic Retransmission (PCR).
//! * **Names and representations** ([`report`], [`text`]) for hosts and human readers.
//!
//! [`laws`] states what holds of these together. Flag delimitation, bit stuffing and the
//! check bits belong to the line framer and are not here.

use vstd::prelude::*;

pub mod error;
pub mod laws;
pub mod link;
pub mod link_model;
pub mod monitor;
pub mod report;
pub mod retransmission;
pub mod signal_unit;
pub mod text;

pub use error::Mtp2Error;
pub use link::{AlignmentFailure, Event, Mtp2Config, Mtp2Link, Mtp2State, OutOfServiceReason};
pub use retransmission::{PcrParams, RetransmissionMethod, RxOutcome};
pub use signal_unit::{SignalUnit, StatusIndication, SuHeader};

verus! {

/// Largest MSU body (SIO + SIF) a link carries, in octets: a Service Information
/// Field of at most 272 octets and the Service Information Octet.
pub const MAX_MSU_BODY: usize = 273;

} // verus!
