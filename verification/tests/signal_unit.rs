//! Framing: exact octets, round trips and rejections.

use mtp2::signal_unit::LI_MAX;
use mtp2::{Mtp2Error, SignalUnit, StatusIndication, SuHeader, MAX_MSU_BODY};

fn hdr(bsn: u8, bib: bool, fsn: u8, fib: bool) -> SuHeader {
    SuHeader::new(bsn, bib, fsn, fib).unwrap()
}

// ── Known-answer vectors (exact bytes) ──────

#[test]
fn fisu_kat_exact_bytes() {
    // bsn=0 bib=1 fsn=0 fib=1 → octet0 0x80, octet1 0x80, LI=0.
    let su = SignalUnit::fisu(hdr(0, true, 0, true));
    assert_eq!(su.encode().unwrap(), vec![0x80, 0x80, 0x00]);
    assert_eq!(su.length_indicator(), 0);
}

#[test]
fn lssu_sin_kat_exact_bytes() {
    // bsn=127 bib=0 fsn=0 fib=1, SIN (=1), one-octet SF, LI=1.
    // octet0 0x7f, octet1 0x80, LI 0x01, SF 0x01.
    let su = SignalUnit::lssu(hdr(127, false, 0, true), StatusIndication::NormalAlignment);
    assert_eq!(su.encode().unwrap(), vec![0x7f, 0x80, 0x01, 0x01]);
}

#[test]
fn lssu_sios_two_octet_kat() {
    // SIOS (=3), two-octet SF (LI=2), spare second octet 0.
    let su = SignalUnit::Lssu {
        header: hdr(0, false, 0, false),
        status: StatusIndication::OutOfService,
        extended: true,
    };
    assert_eq!(su.encode().unwrap(), vec![0x00, 0x00, 0x02, 0x03, 0x00]);
}

#[test]
fn msu_kat_exact_bytes() {
    // bsn=5 bib=1 fsn=6 fib=1, SIO=0x83, SIF=[01 02 03], body=4 → LI=4.
    // octet0 0x85, octet1 0x86, LI 0x04, SIO 0x83, SIF 01 02 03.
    let su = SignalUnit::msu(hdr(5, true, 6, true), 0x83, vec![0x01, 0x02, 0x03]).unwrap();
    assert_eq!(
        su.encode().unwrap(),
        vec![0x85, 0x86, 0x04, 0x83, 0x01, 0x02, 0x03]
    );
    assert_eq!(su.length_indicator(), 4);
}

#[test]
fn decode_real_shaped_hex_fields() {
    // Decode an MSU hex string and assert every parsed field.
    let bytes = hex::decode("85860483010203").unwrap();
    let su = SignalUnit::decode(&bytes).unwrap();
    match su {
        SignalUnit::Msu { header, sio, sif } => {
            assert_eq!(header.bsn, 5);
            assert!(header.bib);
            assert_eq!(header.fsn, 6);
            assert!(header.fib);
            assert_eq!(sio, 0x83);
            assert_eq!(sif, vec![0x01, 0x02, 0x03]);
        }
        other => panic!("expected MSU, got {other:?}"),
    }
}

#[test]
fn decode_lssu_status_fields() {
    // One-octet SIE.
    let su = SignalUnit::decode(&hex::decode("00000102").unwrap()).unwrap();
    match su {
        SignalUnit::Lssu {
            status, extended, ..
        } => {
            assert_eq!(status, StatusIndication::EmergencyAlignment);
            assert!(!extended);
        }
        other => panic!("expected LSSU, got {other:?}"),
    }
}

// ── Round trips + validation ────────────────────────────────────────────────

#[test]
fn round_trip_all_status_indications() {
    for code in 0u8..=5 {
        let status = StatusIndication::from_u8(code).unwrap();
        let su = SignalUnit::lssu(hdr(1, false, 2, true), status);
        let decoded = SignalUnit::decode(&su.encode().unwrap()).unwrap();
        assert_eq!(su, decoded);
    }
}

#[test]
fn status_indication_rejects_reserved_code() {
    assert_eq!(
        StatusIndication::from_u8(6),
        Err(Mtp2Error::InvalidStatusIndication(6))
    );
    assert_eq!(
        StatusIndication::from_u8(7),
        Err(Mtp2Error::InvalidStatusIndication(7))
    );
}

#[test]
fn decode_rejects_too_short() {
    assert_eq!(
        SignalUnit::decode(&[0x00, 0x00]),
        Err(Mtp2Error::TooShort {
            expected: 3,
            actual: 2
        })
    );
}

#[test]
fn decode_rejects_li_body_mismatch() {
    // LI says FISU (0) but a body follows.
    assert!(matches!(
        SignalUnit::decode(&[0x00, 0x00, 0x00, 0xAA]),
        Err(Mtp2Error::LengthIndicatorMismatch { .. })
    ));
    // LI says 1-octet LSSU but two body octets follow.
    assert!(matches!(
        SignalUnit::decode(&[0x00, 0x00, 0x01, 0x01, 0x00]),
        Err(Mtp2Error::LengthIndicatorMismatch { .. })
    ));
}

#[test]
fn large_msu_saturates_li_at_63() {
    // A 100-octet SIF (+ SIO) exceeds the 6-bit LI, which saturates at 63.
    let sif = vec![0xABu8; 100];
    let su = SignalUnit::msu(hdr(0, false, 0, false), 0x83, sif.clone()).unwrap();
    assert_eq!(su.length_indicator(), LI_MAX);
    let decoded = SignalUnit::decode(&su.encode().unwrap()).unwrap();
    match decoded {
        SignalUnit::Msu { sif: got, .. } => assert_eq!(got, sif),
        other => panic!("expected MSU, got {other:?}"),
    }
}

#[test]
fn msu_body_over_maximum_rejected() {
    let sif = vec![0u8; MAX_MSU_BODY]; // +SIO pushes past the max
    assert!(matches!(
        SignalUnit::msu(hdr(0, false, 0, false), 0x83, sif),
        Err(Mtp2Error::MsuTooLarge(_))
    ));
}

#[test]
fn header_rejects_out_of_range_sequence() {
    assert_eq!(
        SuHeader::new(128, false, 0, false),
        Err(Mtp2Error::SequenceNumberOutOfRange(128))
    );
}

#[test]
fn display_forms() {
    assert_eq!(StatusIndication::ProcessorOutage.to_string(), "SIPO");
    let su = SignalUnit::fisu(hdr(3, false, 4, true));
    assert!(su.to_string().starts_with("FISU"));
}
