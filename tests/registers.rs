use decode1090::commb::{
    decode_bds05, decode_bds10, decode_bds17, decode_bds20, decode_bds40, decode_bds44,
    decode_bds50, decode_bds60, decode_bds65,
};
use decode1090::frame::{Band, DecodeError};
use rs1090::decode::bds::bds65::AircraftOperationStatus;

const EVEN: &str = "8d40621d58c386435cc412692ad6";

#[test]
fn bds05_reads_an_airborne_position() {
    assert!(decode_bds05(EVEN).is_ok());
}

#[test]
fn bds05_refuses_a_typecode_outside_its_band() {
    let r = decode_bds05("8d40621df8000000000000000000");
    assert_eq!(
        r,
        Err(DecodeError::Range { typecode: 31, category: None, band: Band::AirbornePosition })
    );
    let r = decode_bds05("8d40621d98000000000000000000");
    assert_eq!(
        r,
        Err(DecodeError::Range { typecode: 19, category: None, band: Band::AirbornePosition })
    );
}

#[test]
fn bds65_refuses_other_typecodes_and_categories() {
    let r = decode_bds65(EVEN);
    assert_eq!(
        r,
        Err(DecodeError::Range { typecode: 11, category: Some(0), band: Band::OperationStatus })
    );
    let r = decode_bds65("8d40621dfa000000000000000000");
    assert_eq!(
        r,
        Err(DecodeError::Range { typecode: 31, category: Some(2), band: Band::OperationStatus })
    );
    assert_eq!(Band::OperationStatus.typecodes(), "31");
    assert_eq!(Band::OperationStatus.categories(), Some("0 or 1"));
    assert_eq!(Band::AirbornePosition.typecodes(), "9 to 18 or 20 to 22");
    assert_eq!(Band::AirbornePosition.categories(), None);
}

#[test]
fn strict_decoders_report_format_errors() {
    assert!(matches!(decode_bds05("8d40621d58c3"), Err(DecodeError::Format)));
    assert!(matches!(decode_bds10("xyz"), Err(DecodeError::Format)));
    assert!(matches!(decode_bds20("8d40621d58c386435cc412692ad"), Err(DecodeError::Format)));
    assert!(matches!(decode_bds65("not hex at all"), Err(DecodeError::Format)));
    // A short frame carries no 56-bit payload.
    assert!(matches!(decode_bds65("5d4840d6abcdef"), Err(DecodeError::Format)));
    assert!(matches!(decode_bds05("5d4840d658cdef"), Err(DecodeError::Format)));
    assert!(matches!(decode_bds10("5d4840d6abcdef"), Err(DecodeError::Format)));
}

#[test]
fn bds20_reads_an_identification() {
    let r = decode_bds20("a0001838201584f23468207cdfa5").unwrap();
    assert_eq!(r.callsign, "EXS2MF");
    assert!(decode_bds20("a800178d10010080f50000d5893c").is_err());
}

#[test]
fn bds10_reads_a_data_link_capability() {
    let r = decode_bds10("a800178d10010080f50000d5893c").unwrap();
    assert_eq!(r.bds, 16);
    assert!(r.acas);
    assert!(r.mode_s);
}

#[test]
fn bds65_reads_an_operational_status() {
    let r = decode_bds65("903a33fff90200040049001ea8e2").unwrap();
    assert!(matches!(r, AircraftOperationStatus::Surface(_)));
}

#[test]
fn other_registers_read_their_payloads() {
    assert!(decode_bds17("a0000638fa81c10000000081a92f").is_ok());
    assert!(decode_bds40("a000029c85e42f313000007047d3").is_ok());
    assert!(decode_bds44("a0001692185bd5cf400000dfc696").is_ok());
    assert!(decode_bds50("a000139381951536e024d4ccf6b5").is_ok());
    assert!(decode_bds60("a80004aaa74a072bfdefc1d5cb4f").is_ok());
}

#[test]
fn strict_decode_is_repeatable() {
    let bad = "a0000000ff000000000000000000";
    assert_eq!(decode_bds60(bad), decode_bds60(bad));
    let msg = "a80004aaa74a072bfdefc1d5cb4f";
    assert_eq!(decode_bds60(msg), decode_bds60(&msg.to_uppercase()));
    let wrong = "a800178d10010080f50000d5893c";
    assert_eq!(decode_bds20(wrong), decode_bds20(wrong));
    assert!(decode_bds20(wrong).is_err());
}
