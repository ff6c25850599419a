//! Framing at its edges: every error with an input that gives it, every text, and units
//! through the wire and back.

use mtp2::signal_unit::{LI_FISU, LI_LSSU_ONE, LI_LSSU_TWO, LI_MAX, LI_MSU_MIN};
use mtp2::{Mtp2Error, SignalUnit, StatusIndication, SuHeader, MAX_MSU_BODY};

fn header(bsn: u8, bib: bool, fsn: u8, fib: bool) -> SuHeader {
    SuHeader { bsn, bib, fsn, fib }
}

fn msu_of(octets: usize) -> SignalUnit {
    let sif: Vec<u8> = (0..octets - 1).map(|i| (i % 251) as u8).collect();
    SignalUnit::msu(header(100, true, 101, false), 0x85, sif).unwrap()
}

#[test]
fn every_unit_comes_back_from_the_wire() {
    let mut units = vec![
        SignalUnit::fisu(header(127, false, 127, true)),
        SignalUnit::fisu(header(0, false, 0, false)),
    ];
    for code in 0..=5u8 {
        for extended in [false, true] {
            units.push(SignalUnit::Lssu {
                header: header(1, true, 2, true),
                status: StatusIndication::from_u8(code).unwrap(),
                extended,
            });
        }
    }
    for octets in [3, 4, 61, 62, 63, 64, 272, 273] {
        units.push(msu_of(octets));
    }
    for su in units {
        assert_eq!(SignalUnit::decode(&su.encode().unwrap()), Ok(su));
    }
}

#[test]
fn octets_come_back_from_a_unit() {
    let wire = vec![0x85, 0x06, 0x03, 0x83, 0x01, 0x02];
    let su = SignalUnit::decode(&wire).unwrap();
    assert_eq!(su.encode().unwrap(), wire);
}

#[test]
fn spare_bits_are_ignored() {
    // The two high bits of the LI octet.
    assert_eq!(
        SignalUnit::decode(&[0x80, 0x80, 0xC0]),
        Ok(SignalUnit::fisu(header(0, true, 0, true)))
    );
    // The five high bits of a status octet, and the whole second one.
    assert_eq!(
        SignalUnit::decode(&[0x00, 0x00, 0x02, 0xFB, 0xFF]),
        Ok(SignalUnit::Lssu {
            header: header(0, false, 0, false),
            status: StatusIndication::OutOfService,
            extended: true,
        })
    );
    assert_eq!(
        StatusIndication::from_u8(0xF9),
        Ok(StatusIndication::NormalAlignment)
    );
}

#[test]
fn length_indicator_counts_the_body() {
    let h = header(0, true, 0, true);
    assert_eq!(SignalUnit::fisu(h).length_indicator(), LI_FISU);
    let status = StatusIndication::Busy;
    assert_eq!(SignalUnit::lssu(h, status).length_indicator(), LI_LSSU_ONE);
    let extended = SignalUnit::Lssu { header: h, status, extended: true };
    assert_eq!(extended.length_indicator(), LI_LSSU_TWO);
    assert_eq!(msu_of(62).length_indicator(), 62);
    assert_eq!(msu_of(63).length_indicator(), LI_MAX);
    assert_eq!(msu_of(273).length_indicator(), LI_MAX);
}

#[test]
fn an_msu_too_short_for_the_wire_is_refused() {
    for octets in [1usize, 2] {
        let su = msu_of(octets);
        assert_eq!(su.length_indicator(), LI_MSU_MIN);
        let wire = su.encode().unwrap();
        assert_eq!(wire[2], 3);
        assert_eq!(
            SignalUnit::decode(&wire),
            Err(Mtp2Error::LengthIndicatorMismatch { li: 3, octets })
        );
    }
    let su = SignalUnit::msu(header(0, true, 0, true), 0x83, vec![]).unwrap();
    assert_eq!(su.encode().unwrap(), vec![0x80, 0x80, 0x03, 0x83]);
    assert_eq!(msu_of(3).length_indicator(), 3);
}

#[test]
fn sequence_octets_come_back() {
    for b0 in 0..=255u8 {
        for b1 in [0x00u8, 0x7f, 0x80, 0xff] {
            let su = SignalUnit::decode(&[b0, b1, 0]).unwrap();
            assert!(su.header().bsn <= 127 && su.header().fsn <= 127);
            assert_eq!(su.encode().unwrap(), vec![b0, b1, 0]);
        }
    }
}

#[test]
fn decode_errors_name_what_is_wrong() {
    assert_eq!(
        SignalUnit::decode(&[]),
        Err(Mtp2Error::TooShort { expected: 3, actual: 0 })
    );
    assert_eq!(
        SignalUnit::decode(&[0, 0, 3]),
        Err(Mtp2Error::TooShort { expected: 4, actual: 3 })
    );
    assert_eq!(
        SignalUnit::decode(&[0, 0, 1]),
        Err(Mtp2Error::LengthIndicatorMismatch { li: 1, octets: 0 })
    );
    assert_eq!(
        SignalUnit::decode(&[0, 0, 5, 1, 2, 3, 4]),
        Err(Mtp2Error::LengthIndicatorMismatch { li: 5, octets: 4 })
    );
    let mut short = vec![0, 0, 63];
    short.extend(vec![7; 62]);
    assert_eq!(
        SignalUnit::decode(&short),
        Err(Mtp2Error::LengthIndicatorMismatch { li: 63, octets: 62 })
    );
    let mut long = vec![0, 0, 63];
    long.extend(vec![7; MAX_MSU_BODY + 1]);
    assert_eq!(SignalUnit::decode(&long), Err(Mtp2Error::MsuTooLarge(274)));
    assert_eq!(
        SignalUnit::decode(&[0, 0, 1, 6]),
        Err(Mtp2Error::InvalidStatusIndication(6))
    );
    assert_eq!(
        SignalUnit::decode(&[0, 0, 2, 15, 0]),
        Err(Mtp2Error::InvalidStatusIndication(7))
    );
}

#[test]
fn encode_errors_name_what_is_wrong() {
    assert_eq!(
        SignalUnit::fisu(header(200, true, 201, true)).encode(),
        Err(Mtp2Error::SequenceNumberOutOfRange(200))
    );
    assert_eq!(
        SignalUnit::fisu(header(1, true, 128, true)).encode(),
        Err(Mtp2Error::SequenceNumberOutOfRange(128))
    );
    assert_eq!(
        SuHeader::new(127, false, 255, false),
        Err(Mtp2Error::SequenceNumberOutOfRange(255))
    );
    let hand_built = SignalUnit::Msu {
        header: header(0, true, 0, true),
        sio: 0,
        sif: vec![0; 300],
    };
    assert_eq!(hand_built.encode(), Err(Mtp2Error::MsuTooLarge(301)));
    assert_eq!(
        SignalUnit::msu(header(0, true, 0, true), 0, vec![0; 273]),
        Err(Mtp2Error::MsuTooLarge(274))
    );
    assert!(SignalUnit::msu(header(0, true, 0, true), 0, vec![0; 272]).is_ok());
}

#[test]
fn error_texts() {
    assert_eq!(
        Mtp2Error::TooShort { expected: 3, actual: 2 }.to_string(),
        "signal unit too short: expected at least 3 octets, got 2"
    );
    assert_eq!(
        Mtp2Error::LengthIndicatorMismatch { li: 63, octets: 10 }.to_string(),
        "length indicator 63 inconsistent with a 10-octet body"
    );
    assert_eq!(
        Mtp2Error::InvalidStatusIndication(6).to_string(),
        "invalid status indication: 6"
    );
    assert_eq!(
        Mtp2Error::SequenceNumberOutOfRange(128).to_string(),
        "sequence number 128 out of range (must be 0..=127)"
    );
    assert_eq!(
        Mtp2Error::MsuTooLarge(1024).to_string(),
        "message signal unit body too large: 1024 octets (max 273)"
    );
}

#[test]
fn unit_texts() {
    let h = header(3, false, 104, true);
    assert_eq!(h.to_string(), "bsn=3 bib=0 fsn=104 fib=1");
    assert_eq!(
        SignalUnit::fisu(h).to_string(),
        "FISU [bsn=3 bib=0 fsn=104 fib=1]"
    );
    assert_eq!(
        SignalUnit::lssu(h, StatusIndication::ProcessorOutage).to_string(),
        "LSSU SIPO [bsn=3 bib=0 fsn=104 fib=1]"
    );
    assert_eq!(
        SignalUnit::msu(h, 0x0f, vec![1, 2, 3]).unwrap().to_string(),
        "MSU [bsn=3 bib=0 fsn=104 fib=1] sio=0x0f sif_len=3"
    );
    let mnemonics: Vec<&str> = (0..6u8)
        .map(|code| StatusIndication::from_u8(code).unwrap().mnemonic())
        .collect();
    assert_eq!(mnemonics, vec!["SIO", "SIN", "SIE", "SIOS", "SIPO", "SIB"]);
}

#[test]
fn header_of_every_unit() {
    let h = header(9, true, 8, false);
    assert_eq!(SignalUnit::fisu(h).header(), h);
    assert_eq!(SignalUnit::lssu(h, StatusIndication::Busy).header(), h);
    assert_eq!(SignalUnit::msu(h, 1, vec![2]).unwrap().header(), h);
}
