//! Folding decoded objects into flat snapshot records, layer by layer.

use dsmr5::Error;
use dsmr5::Parseable;
use dsmr5::Readout;
use dsmr5::obis;
use dsmr5::state;
use dsmr5::types::TST;
use dsmr5::types::UFixedDouble;

fn readout(header: &str, lines: &[&str]) -> Readout {
    let mut v: Vec<u8> = Vec::new();
    v.extend_from_slice(header.as_bytes());
    v.extend_from_slice(b"\r\n\r\n");
    for l in lines {
        v.extend_from_slice(l.as_bytes());
        v.extend_from_slice(b"\r\n");
    }
    v.push(b'!');
    let crc = crc16::State::<crc16::ARC>::calculate(&v);
    v.extend_from_slice(format!("{:04X}", crc).as_bytes());
    v.extend_from_slice(b"\r\n");
    let mut buffer = [0u8; 2048];
    buffer[..v.len()].copy_from_slice(&v);
    Readout { buffer }
}

// The extended-layer lines: the base vocabulary knows all but the
// instantaneous voltage.
const ISK_BASE_LINES: &[&str] = &[
    "1-3:0.2.8(50)",
    "0-0:1.0.0(190320181403W)",
    "0-0:96.1.1(4530303433303034)",
    "1-0:1.8.1(000576.239*kWh)",
    "1-0:1.8.2(000465.162*kWh)",
    "0-0:96.14.0(0002)",
    "1-0:1.7.0(00.193*kW)",
    "0-0:96.7.21(00009)",
    "0-0:96.7.9(00008)",
    "1-0:32.32.0(00006)",
    "1-0:32.36.0(00001)",
    "1-0:31.7.0(001*A)",
    "1-0:21.7.0(00.193*kW)",
    "1-0:22.7.0(00.000*kW)",
    "0-1:24.1.0(003)",
    "0-1:96.1.0(4730303539)",
    "0-1:24.2.1(190320181003W)(00304.089*m3)",
];

const ISK_LINES: &[&str] = &[
    "1-3:0.2.8(50)",
    "0-0:1.0.0(190320181403W)",
    "0-0:96.1.1(4530303433303034)",
    "1-0:1.8.1(000576.239*kWh)",
    "1-0:1.8.2(000465.162*kWh)",
    "0-0:96.14.0(0002)",
    "1-0:1.7.0(00.193*kW)",
    "0-0:96.7.21(00009)",
    "0-0:96.7.9(00008)",
    "1-0:32.32.0(00006)",
    "1-0:32.36.0(00001)",
    "1-0:32.7.0(236.1*V)",
    "1-0:31.7.0(001*A)",
    "1-0:21.7.0(00.193*kW)",
    "1-0:22.7.0(00.000*kW)",
    "0-1:24.1.0(003)",
    "0-1:96.1.0(4730303539)",
    "0-1:24.2.1(190320181003W)(00304.089*m3)",
];

#[test]
fn example() {
    let telegram = readout("/ISK5\\2M550E-1012", ISK_BASE_LINES).to_telegram().unwrap();
    let s = state::common::State::from_telegram(&telegram).unwrap();

    assert_eq!(
        s.datetime.unwrap(),
        TST { year: 19, month: 3, day: 20, hour: 18, minute: 14, second: 3, dst: false }
    );
    assert_eq!(s.meterreadings[0].to.unwrap(), UFixedDouble { buffer: 576239, point: 3 });
    assert_eq!(s.meterreadings[1].to.unwrap(), UFixedDouble { buffer: 465162, point: 3 });
    assert_eq!(s.tariff_indicator.unwrap(), [0, 2]);
    assert_eq!(s.power_delivered.unwrap(), UFixedDouble { buffer: 193, point: 3 });
    assert_eq!(s.power_failures.unwrap(), 9);
    assert_eq!(s.long_power_failures.unwrap(), 8);
}

#[test]
fn dsmr4_example() {
    let telegram = readout("/ISK5\\2M550E-1012", ISK_BASE_LINES).to_telegram().unwrap();
    let s = state::dsmr4::State::from_telegram(&telegram).unwrap();

    assert_eq!(s.parent.power_failures.unwrap(), 9);
    assert_eq!(
        s.lines[0],
        state::dsmr4::Line {
            voltage_sags: Some(6),
            voltage_swells: Some(1),
            active_power_plus: Some(UFixedDouble { buffer: 193, point: 3 }),
            active_power_neg: Some(UFixedDouble { buffer: 0, point: 3 }),
            current: Some(1),
        }
    );
    assert_eq!(
        s.slaves[0],
        state::dsmr4::Slave {
            device_type: Some(3),
            meter_reading: Some((
                TST { year: 19, month: 3, day: 20, hour: 18, minute: 10, second: 3, dst: false },
                UFixedDouble { buffer: 304089, point: 3 },
            )),
        }
    );
}

#[test]
fn dsmr5_example_isk() {
    let telegram = readout("/ISK5\\2M550E-1012", ISK_LINES).to_telegram().unwrap();
    let s = state::dsmr5::State::from_telegram(&telegram).unwrap();

    assert_eq!(
        s.parent.datetime.unwrap(),
        TST { year: 19, month: 3, day: 20, hour: 18, minute: 14, second: 3, dst: false }
    );
    assert_eq!(s.parent.meterreadings[0].to.unwrap(), UFixedDouble { buffer: 576239, point: 3 });
    assert_eq!(s.parent.meterreadings[1].to.unwrap(), UFixedDouble { buffer: 465162, point: 3 });
    assert_eq!(s.parent.tariff_indicator.unwrap(), [0, 2]);
    assert_eq!(s.parent.power_delivered.unwrap(), UFixedDouble { buffer: 193, point: 3 });
    assert_eq!(s.parent.power_failures.unwrap(), 9);
    assert_eq!(s.parent.long_power_failures.unwrap(), 8);
    assert_eq!(
        s.lines[0],
        state::dsmr5::Line {
            parent: state::dsmr4::Line {
                voltage_sags: Some(6),
                voltage_swells: Some(1),
                active_power_plus: Some(UFixedDouble { buffer: 193, point: 3 }),
                active_power_neg: Some(UFixedDouble { buffer: 0, point: 3 }),
                current: Some(1),
            },
            voltage: Some(UFixedDouble { buffer: 2361, point: 1 }),
        }
    );
    assert_eq!(
        s.slaves[0],
        state::dsmr5::Slave(state::dsmr4::Slave {
            device_type: Some(3),
            meter_reading: Some((
                TST { year: 19, month: 3, day: 20, hour: 18, minute: 10, second: 3, dst: false },
                UFixedDouble { buffer: 304089, point: 3 },
            )),
        })
    );
}

const FLU_LINES: &[&str] = &[
    "0-0:96.1.4(50217)",
    "0-0:1.0.0(230211111541W)",
    "0-0:96.1.1(3141534131313035303637323236)",
    "1-0:1.8.1(001114.057*kWh)",
    "1-0:1.8.2(000997.282*kWh)",
    "1-0:2.8.1(000000.407*kWh)",
    "1-0:2.8.2(000000.281*kWh)",
    "0-0:96.14.0(0002)",
    "1-0:1.7.0(00.031*kW)",
    "1-0:2.7.0(00.000*kW)",
    "1-0:1.4.0(00.000*kW)",
    "0-0:96.3.10(1)",
    "0-0:17.0.0(999.9*kW)",
    "1-0:31.4.0(999*A)",
    "1-0:31.7.0(001.23*A)",
    "0-1:24.4.0(1)",
];

#[test]
fn e_mucs_example_flu() {
    let telegram = readout("/FLU5\\253770234_A", FLU_LINES).to_telegram().unwrap();
    assert_eq!(telegram.prefix, b"FLU".to_vec());
    assert_eq!(telegram.identification, b"\\253770234_A".to_vec());

    let s = state::e_mucs::State::from_telegram(&telegram).unwrap();

    assert_eq!(
        s.parent.datetime.unwrap(),
        TST { year: 23, month: 2, day: 11, hour: 11, minute: 15, second: 41, dst: false }
    );
    assert_eq!(s.parent.meterreadings[0].to.unwrap(), UFixedDouble { buffer: 1114057, point: 3 });
    assert_eq!(s.parent.meterreadings[0].by.unwrap(), UFixedDouble { buffer: 407, point: 3 });
    assert_eq!(s.parent.meterreadings[1].to.unwrap(), UFixedDouble { buffer: 997282, point: 3 });
    assert_eq!(s.parent.meterreadings[1].by.unwrap(), UFixedDouble { buffer: 281, point: 3 });
    assert_eq!(s.parent.tariff_indicator.unwrap(), [0, 2]);
    assert_eq!(s.parent.power_delivered.unwrap(), UFixedDouble { buffer: 31, point: 3 });
    assert_eq!(s.parent.power_received.unwrap(), UFixedDouble { buffer: 0, point: 3 });
    assert_eq!(s.breaker_state.unwrap(), 1);
    assert_eq!(s.limiter_threshold.unwrap(), UFixedDouble { buffer: 9999, point: 1 });
    assert_eq!(s.fuse_supervision_threshold.unwrap(), 999);
    assert_eq!(s.average_demand.unwrap(), UFixedDouble { buffer: 0, point: 3 });
    assert_eq!(s.lines[0].current.unwrap(), UFixedDouble { buffer: 123, point: 2 });
    assert_eq!(s.slaves[0].valve_state.unwrap(), 1);
}

#[test]
fn reducer_gap_is_distinct_from_a_format_violation() {
    // A slave record understands slave readings only: any other recognized
    // object is a gap between the snapshot and dispatch vocabularies.
    let o = match obis::dsmr4::OBIS::parse_line(b"0-0:1.0.0(190320181403W)").unwrap() {
        o @ obis::dsmr4::OBIS::DateTime(_) => o,
        other => panic!("unexpected object {:?}", other),
    };
    let mut slave = state::dsmr4::Slave::default();
    assert_eq!(slave.apply(o).unwrap_err(), Error::ObisForgotten);
}

#[test]
fn last_write_wins_on_repeated_references() {
    let telegram = readout(
        "/ISK5\\2M550E-1012",
        &["0-0:96.7.21(00009)", "0-0:96.7.21(00012)"],
    )
    .to_telegram()
    .unwrap();
    let s = state::common::State::from_telegram(&telegram).unwrap();
    assert_eq!(s.power_failures.unwrap(), 12);
}

#[test]
fn fold_stops_on_the_first_malformed_line() {
    let telegram = readout(
        "/ISK5\\2M550E-1012",
        &["0-0:96.7.21(0000x)", "0-0:96.7.9(00008)"],
    )
    .to_telegram()
    .unwrap();
    assert_eq!(
        state::common::State::from_telegram(&telegram).unwrap_err(),
        Error::InvalidFormat
    );
}
