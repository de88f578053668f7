//! Frame extraction: checksums, headers, and failure modes.

use dsmr5::Error;
use dsmr5::Parseable;
use dsmr5::Readout;
use dsmr5::Tariff;
use dsmr5::obis::dsmr5::OBIS;
use dsmr5::obis::dsmr4::OBIS as Base;

fn build_frame(header: &str, lines: &[&str]) -> Vec<u8> {
    let mut v: Vec<u8> = Vec::new();
    v.extend_from_slice(header.as_bytes());
    v.extend_from_slice(b"\r\n\r\n");
    for l in lines {
        v.extend_from_slice(l.as_bytes());
        v.extend_from_slice(b"\r\n");
    }
    v.push(b'!');
    let crc = crc16::State::<crc16::ARC>::calculate(&v);
    v.extend_from_slice(format!("{:04X}", crc).as_bytes());
    v.extend_from_slice(b"\r\n");
    v
}

fn to_readout(v: &[u8]) -> Readout {
    let mut buffer = [0u8; 2048];
    buffer[..v.len()].copy_from_slice(v);
    Readout { buffer }
}

fn readout(header: &str, lines: &[&str]) -> Readout {
    to_readout(&build_frame(header, lines))
}

const ISK_LINES: &[&str] = &[
    "1-3:0.2.8(50)",
    "0-0:1.0.0(190320181403W)",
    "0-0:96.1.1(45303034333030343330303433303034)",
    "1-0:1.8.1(000576.239*kWh)",
    "1-0:1.8.2(000465.162*kWh)",
    "0-0:96.14.0(0002)",
    "1-0:1.7.0(00.193*kW)",
];

#[test]
fn well_formed_frame_parses() {
    let r = readout("/ISK5\\2M550E-1012", ISK_LINES);
    let telegram = r.to_telegram().unwrap();
    assert_eq!(telegram.prefix, b"ISK".to_vec());
    assert_eq!(telegram.identification, b"\\2M550E-1012".to_vec());
}

#[test]
fn embedded_checksum_equals_recomputed_digest() {
    let r = readout("/ISK5\\2M550E-1012", ISK_LINES);
    let telegram = r.to_telegram().unwrap();
    let end = r.buffer.iter().position(|&b| b == b'!').unwrap();
    let digest = crc16::State::<crc16::ARC>::calculate(&r.buffer[..=end]);
    assert_eq!(telegram.checksum, digest);
}

#[test]
fn tampered_checksum_trailer_is_a_checksum_violation() {
    let mut buffer = build_frame("/ISK5\\2M550E-1012", ISK_LINES);
    let end = buffer.iter().position(|&b| b == b'!').unwrap();
    // Flip one hex digit of the checksum trailer.
    buffer[end + 1] = if buffer[end + 1] == b'0' { b'1' } else { b'0' };
    let r = to_readout(&buffer);
    assert_eq!(r.to_telegram().unwrap_err(), Error::InvalidChecksum);
}

#[test]
fn corrupted_body_byte_is_a_checksum_violation() {
    let mut buffer = build_frame("/ISK5\\2M550E-1012", ISK_LINES);
    let i = buffer.iter().position(|&b| b == b'6').unwrap();
    buffer[i] = b'7';
    let r = to_readout(&buffer);
    assert_eq!(r.to_telegram().unwrap_err(), Error::InvalidChecksum);
}

#[test]
fn missing_terminator_is_a_format_violation() {
    let mut buffer = build_frame("/ISK5\\2M550E-1012", ISK_LINES);
    let end = buffer.iter().position(|&b| b == b'!').unwrap();
    buffer[end] = b'.';
    let r = to_readout(&buffer);
    assert_eq!(r.to_telegram().unwrap_err(), Error::InvalidFormat);
}

#[test]
fn invalid_text_is_a_format_violation() {
    let mut buffer = build_frame("/ISK5\\2M550E-1012", ISK_LINES);
    let i = buffer.iter().position(|&b| b == b'6').unwrap();
    buffer[i] = 0xff;
    let r = to_readout(&buffer);
    assert_eq!(r.to_telegram().unwrap_err(), Error::InvalidFormat);
}

#[test]
fn buffer_without_terminator_is_a_format_violation() {
    let r = to_readout(b"/ISK5\\2M550E-1012\r\n\r\n");
    assert_eq!(r.to_telegram().unwrap_err(), Error::InvalidFormat);
}

#[test]
fn example_kaifa() {
    let r = readout(
        "/KFM5KAIFA-METER",
        &[
            "1-3:0.2.8(42)",
            "0-0:1.0.0(220901152201S)",
            "0-0:96.1.1(4530303236303030303234313533363135)",
            "1-0:1.8.1(006285.065*kWh)",
            "1-0:1.8.2(006758.327*kWh)",
            "0-0:96.14.0(0002)",
            "0-0:96.7.21(00003)",
        ],
    );
    let telegram = r.to_telegram().unwrap();

    assert_eq!(telegram.prefix, b"KFM".to_vec());
    assert_eq!(telegram.identification, b"KAIFA-METER".to_vec());

    for o in telegram.objects::<OBIS>() {
        match o.unwrap() {
            OBIS::DSMR4(Base::Version(v)) => {
                assert_eq!(v.as_octets().unwrap(), vec![66]);
            }
            OBIS::DSMR4(Base::DateTime(tst)) => {
                assert_eq!(
                    tst,
                    dsmr5::types::TST {
                        year: 22,
                        month: 9,
                        day: 1,
                        hour: 15,
                        minute: 22,
                        second: 1,
                        dst: true
                    }
                );
            }
            OBIS::DSMR4(Base::EquipmentIdentifier(ei)) => {
                let b = ei.as_octets().unwrap();
                assert_eq!(String::from_utf8(b).unwrap(), "E0026000024153615");
            }
            OBIS::DSMR4(Base::MeterReadingTo(Tariff::Tariff1, mr)) => {
                assert_eq!(mr.buffer as f64 / 1000.0, 6285.065);
            }
            OBIS::DSMR4(Base::MeterReadingTo(Tariff::Tariff2, mr)) => {
                assert_eq!(mr.buffer as f64 / 1000.0, 6758.327);
            }
            OBIS::DSMR4(Base::TariffIndicator(ti)) => {
                assert_eq!(ti.as_octets().unwrap(), vec![0, 2]);
            }
            OBIS::DSMR4(Base::PowerFailures(dsmr5::types::UFixedInteger(pf))) => {
                assert_eq!(pf, 3);
            }
            _ => (),
        }
    }
}

#[test]
fn non_hexadecimal_trailer_is_a_format_violation() {
    let mut buffer = build_frame("/ISK5\\2M550E-1012", ISK_LINES);
    let end = buffer.iter().position(|&b| b == b'!').unwrap();
    buffer[end + 1] = b'G';
    let r = to_readout(&buffer);
    assert_eq!(r.to_telegram().unwrap_err(), Error::InvalidFormat);
}
