//! Field decoders: octet strings, timestamps, fixed-point decimals and
//! fixed-width integers.

use dsmr5::Error;
use dsmr5::types::OctetString;
use dsmr5::types::TST;
use dsmr5::types::UFixedDouble;
use dsmr5::types::UFixedInteger;

#[test]
fn fixed_point_scenario() {
    // Width 9, point 3: mantissa 576239, point 3, float 576.239.
    let mr = UFixedDouble::parse(b"(000576.239*kWh)", 9, 3).unwrap();
    assert_eq!(mr, UFixedDouble { buffer: 576239, point: 3 });
    let float = mr.buffer as f64 / 10f64.powi(mr.point as i32);
    assert_eq!(float, 576.239);
}

#[test]
fn fixed_point_round_trip_within_precision() {
    // Encoding 576.239 at width 9, point 3 and decoding reproduces it.
    let rendered = format!("({:010.3}", 576.239);
    let mr = UFixedDouble::parse(rendered.as_bytes(), 9, 3).unwrap();
    let float = mr.buffer as f64 / 10f64.powi(mr.point as i32);
    assert!((float - 576.239).abs() < 1e-3);
}

#[test]
fn fixed_point_too_short_fails() {
    assert_eq!(
        UFixedDouble::parse(b"(00576.23", 9, 3).unwrap_err(),
        Error::InvalidFormat
    );
}

#[test]
fn fixed_point_non_digit_fails() {
    assert_eq!(
        UFixedDouble::parse(b"(0x0576.239", 9, 3).unwrap_err(),
        Error::InvalidFormat
    );
}

#[test]
fn timestamp_scenario() {
    // Year 19, month 3, day 20, hour 18, minute 14, second 3, dst inactive.
    let tst = TST::parse(b"(190320181403W)").unwrap();
    assert_eq!(
        tst,
        TST {
            year: 19,
            month: 3,
            day: 20,
            hour: 18,
            minute: 14,
            second: 3,
            dst: false
        }
    );
}

#[test]
fn timestamp_summer_mark() {
    let tst = TST::parse(b"(220901152201S)").unwrap();
    assert!(tst.dst);
}

#[test]
fn timestamp_bad_mark_fails() {
    assert_eq!(
        TST::parse(b"(190320181403X)").unwrap_err(),
        Error::InvalidFormat
    );
}

#[test]
fn timestamp_short_body_fails() {
    assert_eq!(TST::parse(b"(1903201814W)").unwrap_err(), Error::InvalidFormat);
}

#[test]
fn timestamp_non_digit_field_fails() {
    assert_eq!(
        TST::parse(b"(19a320181403W)").unwrap_err(),
        Error::InvalidFormat
    );
}

#[test]
fn decoding_is_deterministic() {
    let body: &[u8] = b"(000576.239*kWh)";
    let a = UFixedDouble::parse(body, 9, 3).unwrap();
    let b = UFixedDouble::parse(body, 9, 3).unwrap();
    assert_eq!(a, b);
    let t1 = TST::parse(b"(190320181403W)").unwrap();
    let t2 = TST::parse(b"(190320181403W)").unwrap();
    assert_eq!(t1, t2);
}

#[test]
fn octet_string_decodes_hex_pairs() {
    let os = OctetString::parse(b"(4546)", 4).unwrap();
    assert_eq!(os.as_octets().unwrap(), vec![0x45, 0x46]);
}

#[test]
fn octet_string_bad_hex_fails() {
    let os = OctetString::parse(b"(45zz)", 4).unwrap();
    assert_eq!(os.as_octets().unwrap_err(), Error::InvalidFormat);
}

#[test]
fn octet_string_too_short_fails() {
    assert_eq!(
        OctetString::parse(b"(45", 4).unwrap_err(),
        Error::InvalidFormat
    );
}

#[test]
fn octet_string_max_respects_bound() {
    let os = OctetString::parse_max(b"(4546)", 96).unwrap();
    assert_eq!(os.as_octets().unwrap(), vec![0x45, 0x46]);
    assert_eq!(
        OctetString::parse_max(b"(4546)", 2).unwrap_err(),
        Error::InvalidFormat
    );
}

#[test]
fn fixed_integer_decodes() {
    assert_eq!(
        UFixedInteger::parse(b"(00009)", 5).unwrap(),
        UFixedInteger(9)
    );
}

#[test]
fn fixed_integer_non_digit_fails() {
    assert_eq!(
        UFixedInteger::parse(b"(0000a)", 5).unwrap_err(),
        Error::InvalidFormat
    );
}
