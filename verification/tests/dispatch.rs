//! OBIS dispatch through the three vocabulary layers.

use dsmr5::Error;
use dsmr5::obis::Line;
use dsmr5::obis::Parseable;
use dsmr5::obis::Slave;
use dsmr5::obis::Tariff;
use dsmr5::obis::dsmr4;
use dsmr5::obis::dsmr5 as ext;
use dsmr5::obis::e_mucs;
use dsmr5::types::UFixedDouble;
use dsmr5::types::UFixedInteger;

#[test]
fn base_layer_meter_reading() {
    let o = dsmr4::OBIS::parse_line(b"1-0:1.8.1(000576.239*kWh)").unwrap();
    assert!(matches!(
        o,
        dsmr4::OBIS::MeterReadingTo(
            Tariff::Tariff1,
            UFixedDouble { buffer: 576239, point: 3 }
        )
    ));
}

#[test]
fn base_layer_slave_reading_derives_point_from_dot() {
    let o = dsmr4::OBIS::parse_line(b"0-1:24.2.1(190320181003W)(00304.089*m3)").unwrap();
    match o {
        dsmr4::OBIS::SlaveMeterReading(Slave::Slave1, tst, mr) => {
            assert_eq!(tst.hour, 18);
            assert_eq!(tst.minute, 10);
            assert_eq!(mr, UFixedDouble { buffer: 304089, point: 3 });
        }
        other => panic!("unexpected object {:?}", other),
    }
}

#[test]
fn out_of_range_channel_is_a_format_violation() {
    // The channel digit 5 exceeds the slave range 1 through 4.
    assert_eq!(
        dsmr4::OBIS::parse_line(b"0-5:24.2.1(190320181003W)(00304.089*m3)").unwrap_err(),
        Error::InvalidFormat
    );
    assert_eq!(
        e_mucs::OBIS::parse_line(b"0-5:24.2.1(190320181003W)(00304.089*m3)").unwrap_err(),
        Error::InvalidFormat
    );
}

#[test]
fn unknown_reference_is_recoverable() {
    assert_eq!(
        dsmr4::OBIS::parse_line(b"9-9:99.99.9(00)").unwrap_err(),
        Error::UnknownObis
    );
    assert_eq!(
        e_mucs::OBIS::parse_line(b"9-9:99.99.9(00)").unwrap_err(),
        Error::UnknownObis
    );
}

#[test]
fn line_without_parenthesis_is_a_format_violation() {
    assert_eq!(
        dsmr4::OBIS::parse_line(b"1-0:1.8.1").unwrap_err(),
        Error::InvalidFormat
    );
}

#[test]
fn base_reference_reaches_extended_layer_wrapped() {
    let o = ext::OBIS::parse_line(b"1-0:1.8.1(000576.239*kWh)").unwrap();
    assert!(matches!(
        o,
        ext::OBIS::DSMR4(dsmr4::OBIS::MeterReadingTo(
            Tariff::Tariff1,
            UFixedDouble { buffer: 576239, point: 3 }
        ))
    ));
}

#[test]
fn base_reference_reaches_further_extended_layer_wrapped() {
    let o = e_mucs::OBIS::parse_line(b"1-0:1.8.1(000576.239*kWh)").unwrap();
    assert!(matches!(
        o,
        e_mucs::OBIS::DSMR5(ext::OBIS::DSMR4(dsmr4::OBIS::MeterReadingTo(
            Tariff::Tariff1,
            UFixedDouble { buffer: 576239, point: 3 }
        )))
    ));
}

#[test]
fn extended_layer_adds_voltage() {
    let o = ext::OBIS::parse_line(b"1-0:32.7.0(236.1*V)").unwrap();
    assert!(matches!(
        o,
        ext::OBIS::InstantaneousVoltage(Line::Line1, UFixedDouble { buffer: 2361, point: 1 })
    ));
}

#[test]
fn further_extended_layer_overrides_current_as_decimal() {
    // The base layer reads this reference as a 3-digit integer; the
    // further-extended layer overrides it as a 5-digit decimal.
    let base = dsmr4::OBIS::parse_line(b"1-0:31.7.0(001*A)").unwrap();
    assert!(matches!(
        base,
        dsmr4::OBIS::InstantaneousCurrent(Line::Line1, UFixedInteger(1))
    ));
    let over = e_mucs::OBIS::parse_line(b"1-0:31.7.0(001.23*A)").unwrap();
    assert!(matches!(
        over,
        e_mucs::OBIS::InstantaneousCurrent(Line::Line1, UFixedDouble { buffer: 123, point: 2 })
    ));
}

#[test]
fn further_extended_layer_own_entries() {
    let o = e_mucs::OBIS::parse_line(b"0-0:96.3.10(1)").unwrap();
    assert!(matches!(o, e_mucs::OBIS::BreakerState(UFixedInteger(1))));
    let o = e_mucs::OBIS::parse_line(b"0-0:17.0.0(999.9*kW)").unwrap();
    assert!(matches!(
        o,
        e_mucs::OBIS::LimiterThreshold(UFixedDouble { buffer: 9999, point: 1 })
    ));
    let o = e_mucs::OBIS::parse_line(b"0-1:24.4.0(1)").unwrap();
    assert!(matches!(
        o,
        e_mucs::OBIS::SlaveValveState(Slave::Slave1, UFixedInteger(1))
    ));
}

#[test]
fn channel_association_is_recoverable_through_wrapping() {
    let o = e_mucs::OBIS::parse_line(b"1-0:32.7.0(236.1*V)").unwrap();
    assert_eq!(o.line(), Some(Line::Line1));
    assert_eq!(o.slave(), None);
    let o = e_mucs::OBIS::parse_line(b"0-2:24.1.0(003)").unwrap();
    assert_eq!(o.slave(), Some(Slave::Slave2));
    assert_eq!(o.line(), None);
}
