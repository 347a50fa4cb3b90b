use decode1090::frame::{decode_1090, decode_1090_vec, decode_sequence, frame_bytes, DecodeError};
use decode1090::hextext::{decode_hex, parse_hex_u32};
use rs1090::decode::cpr::decode_positions;
use rs1090::decode::adsb::ME;
use rs1090::decode::{TimedMessage, DF};

// The well-known pair of address 40621d: this frame has odd CPR parity ...
const ODD: &str = "8d40621d58c386435cc412692ad6";
// ... and this one even parity.
const EVEN: &str = "8d40621d58c382d690c8ac2863a7";

#[test]
fn decode_hex_reads_pairs_of_digits() {
    assert_eq!(decode_hex("0aFf10"), Some(vec![10, 255, 16]));
    assert_eq!(decode_hex(""), Some(vec![]));
    assert_eq!(decode_hex("abc"), None);
    assert_eq!(decode_hex("zz"), None);
}

#[test]
fn parse_hex_u32_reads_base_16() {
    assert_eq!(parse_hex_u32("4840D6"), Some(0x4840d6));
    assert_eq!(parse_hex_u32("+1f"), Some(31));
    assert_eq!(parse_hex_u32("ffffffff"), Some(u32::MAX));
    assert_eq!(parse_hex_u32("100000000"), None);
    assert_eq!(parse_hex_u32(""), None);
    assert_eq!(parse_hex_u32("+"), None);
    assert_eq!(parse_hex_u32("12g4"), None);
}

#[test]
fn frame_bytes_accepts_short_and_long_frames() {
    assert_eq!(frame_bytes("5d4840d6abcdef").unwrap().len(), 7);
    assert_eq!(frame_bytes(EVEN).unwrap()[0], 0x8d);
    assert_eq!(frame_bytes("8d4062"), Err(DecodeError::Format));
}

#[test]
fn malformed_text_is_a_format_error() {
    assert_eq!(decode_1090("8d40621d58c386435cc412692ad"), Err(DecodeError::Format));
    assert_eq!(decode_1090("8d40621d58c386435cc412692azz"), Err(DecodeError::Format));
    assert_eq!(decode_1090("8d40621d58"), Err(DecodeError::Format));
    assert_eq!(decode_1090(""), Err(DecodeError::Format));
}

#[test]
fn decodes_an_airborne_position() {
    let m = decode_1090(EVEN).unwrap();
    assert!(m.is_some());
}

#[test]
fn a_frame_failing_its_parity_gives_no_value() {
    assert_eq!(decode_1090("8d40621d58c382d690c8ac2863a8"), Ok(None));
}

#[test]
fn decoding_twice_gives_the_same_message() {
    let a = decode_1090(EVEN).unwrap().unwrap();
    let b = decode_1090(EVEN).unwrap().unwrap();
    assert_eq!(a, b);
    let upper = decode_1090(&EVEN.to_uppercase()).unwrap().unwrap();
    assert_eq!(a, upper);
}

#[test]
fn a_failed_frame_is_dropped_from_a_sequence() {
    let msgs = vec![
        EVEN.to_string(),
        "nothex".to_string(),
        ODD.to_string(),
        EVEN.to_string(),
    ];
    let out = decode_sequence(&msgs);
    assert_eq!(out.len(), 3);
    assert_eq!(out[0], decode_1090(EVEN).unwrap().unwrap());
    assert_eq!(out[1], decode_1090(ODD).unwrap().unwrap());
    assert_eq!(out[2], decode_1090(EVEN).unwrap().unwrap());
}

#[test]
fn a_batch_flattens_its_sequences() {
    let sets = vec![
        vec![EVEN.to_string(), "8d40".to_string()],
        vec![],
        vec![ODD.to_string()],
    ];
    let out = decode_1090_vec(&sets);
    assert_eq!(out.len(), 2);
    assert_eq!(out[0], decode_1090(EVEN).unwrap().unwrap());
    assert_eq!(out[1], decode_1090(ODD).unwrap().unwrap());
}

#[test]
fn a_position_pair_resolves_globally() {
    let mut res: Vec<TimedMessage> = [(ODD, 0.0), (EVEN, 1.0)]
        .iter()
        .map(|(hex, ts)| TimedMessage {
            timestamp: *ts,
            frame: frame_bytes(hex).unwrap(),
            message: decode_1090(hex).unwrap(),
            metadata: vec![],
            decode_time: None,
        })
        .collect();
    decode_positions(&mut res, None, &None);
    let message = res[1].message.as_ref().unwrap();
    let (lat, lon) = match &message.df {
        DF::ExtendedSquitterADSB(adsb) => match &adsb.message {
            ME::BDS05 { inner, .. } => (inner.latitude.unwrap(), inner.longitude.unwrap()),
            other => panic!("not a position: {other:?}"),
        },
        other => panic!("not an extended squitter: {other:?}"),
    };
    assert!((lat - 52.2572).abs() < 1e-3, "{lat}");
    assert!((lon - 3.9194).abs() < 1e-3, "{lon}");
}
