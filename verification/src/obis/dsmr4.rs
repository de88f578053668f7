//! The base vocabulary layer of OBIS references.

use vstd::prelude::*;
use vstd::string::StringSliceAdditionalSpecFns;

use crate::Error;
use crate::obis::Line;
use crate::obis::Parseable;
use crate::obis::Slave;
use crate::obis::Tariff;
use crate::obis::spec_slave_of_digit;
use crate::obis::spec_slave_reading;
use crate::obis::parse_slave_reading;
use crate::obis::view_result;
use crate::text::bytes_eq;
use crate::text::is_digit;
use crate::types::LPAREN;
use crate::types::OctetString;
use crate::types::TST;
use crate::types::UFixedDouble;
use crate::types::UFixedInteger;

verus! {

/// OBIS data objects like the current power usage.
#[derive(Debug)]
pub enum OBIS {
    Version(OctetString),
    DateTime(TST),
    EquipmentIdentifier(OctetString),
    MeterReadingTo(Tariff, UFixedDouble),
    MeterReadingBy(Tariff, UFixedDouble),
    /// Current Tariff applicable as reported by the meter.
    TariffIndicator(OctetString),
    PowerDelivered(UFixedDouble),
    PowerReceived(UFixedDouble),
    PowerFailures(UFixedInteger),
    LongPowerFailures(UFixedInteger),
    PowerFailureEventLog,
    TextMessage,
    TextMessageCode,
    VoltageSags(Line, UFixedInteger),
    VoltageSwells(Line, UFixedInteger),
    InstantaneousCurrent(Line, UFixedInteger),
    InstantaneousActivePowerPlus(Line, UFixedDouble),
    InstantaneousActivePowerNeg(Line, UFixedDouble),
    SlaveDeviceType(Slave, UFixedInteger),
    SlaveEquipmentIdentifier(Slave, OctetString),
    SlaveMeterReading(Slave, TST, UFixedDouble),
}

/// The mathematical shape of a decoded base-layer object: octet strings
/// appear as their character sequences.
pub enum ObisModel {
    Version(Seq<u8>),
    DateTime(TST),
    EquipmentIdentifier(Seq<u8>),
    MeterReadingTo(Tariff, UFixedDouble),
    MeterReadingBy(Tariff, UFixedDouble),
    TariffIndicator(Seq<u8>),
    PowerDelivered(UFixedDouble),
    PowerReceived(UFixedDouble),
    PowerFailures(UFixedInteger),
    LongPowerFailures(UFixedInteger),
    PowerFailureEventLog,
    TextMessage,
    TextMessageCode,
    VoltageSags(Line, UFixedInteger),
    VoltageSwells(Line, UFixedInteger),
    InstantaneousCurrent(Line, UFixedInteger),
    InstantaneousActivePowerPlus(Line, UFixedDouble),
    InstantaneousActivePowerNeg(Line, UFixedDouble),
    SlaveDeviceType(Slave, UFixedInteger),
    SlaveEquipmentIdentifier(Slave, Seq<u8>),
    SlaveMeterReading(Slave, TST, UFixedDouble),
}

impl View for OBIS {
    type V = ObisModel;

    open spec fn view(&self) -> ObisModel {
        match self {
            OBIS::Version(o) => ObisModel::Version(o@),
            OBIS::DateTime(t) => ObisModel::DateTime(*t),
            OBIS::EquipmentIdentifier(o) => ObisModel::EquipmentIdentifier(o@),
            OBIS::MeterReadingTo(t, m) => ObisModel::MeterReadingTo(*t, *m),
            OBIS::MeterReadingBy(t, m) => ObisModel::MeterReadingBy(*t, *m),
            OBIS::TariffIndicator(o) => ObisModel::TariffIndicator(o@),
            OBIS::PowerDelivered(m) => ObisModel::PowerDelivered(*m),
            OBIS::PowerReceived(m) => ObisModel::PowerReceived(*m),
            OBIS::PowerFailures(n) => ObisModel::PowerFailures(*n),
            OBIS::LongPowerFailures(n) => ObisModel::LongPowerFailures(*n),
            OBIS::PowerFailureEventLog => ObisModel::PowerFailureEventLog,
            OBIS::TextMessage => ObisModel::TextMessage,
            OBIS::TextMessageCode => ObisModel::TextMessageCode,
            OBIS::VoltageSags(l, n) => ObisModel::VoltageSags(*l, *n),
            OBIS::VoltageSwells(l, n) => ObisModel::VoltageSwells(*l, *n),
            OBIS::InstantaneousCurrent(l, n) => ObisModel::InstantaneousCurrent(*l, *n),
            OBIS::InstantaneousActivePowerPlus(l, m) => ObisModel::InstantaneousActivePowerPlus(
                *l,
                *m,
            ),
            OBIS::InstantaneousActivePowerNeg(l, m) => ObisModel::InstantaneousActivePowerNeg(
                *l,
                *m,
            ),
            OBIS::SlaveDeviceType(s, n) => ObisModel::SlaveDeviceType(*s, *n),
            OBIS::SlaveEquipmentIdentifier(s, o) => ObisModel::SlaveEquipmentIdentifier(*s, o@),
            OBIS::SlaveMeterReading(s, t, m) => ObisModel::SlaveMeterReading(*s, *t, *m),
        }
    }
}

/// What dispatching the generic channel pattern yields for this layer:
/// references of exactly 10 characters beginning `0-`, whose digit at
/// offset 2 selects a slave channel 1 through 4.
pub open spec fn spec_parse_channel(reference: Seq<u8>, body: Seq<u8>) -> Result<ObisModel, Error> {
    if reference.len() != 10 || reference[0] != 48 || reference[1] != 45 {
        Err(Error::UnknownObis)
    } else if !is_digit(reference[2]) || reference[2] == 48 {
        // A device digit 0 addresses a fixed, table-known quantity, not a
        // sub-meter: the reference is unknown here and defers.
        Err(Error::UnknownObis)
    } else if !(49 <= reference[2] <= 52) {
        Err(Error::InvalidFormat)
    } else {
        let channel = spec_slave_of_digit(reference[2]);
        let sub = reference.subrange(4, 10);
        if sub == "24.1.0".spec_bytes() {
            match UFixedInteger::spec_parse(body, 3) {
                Ok(n) => Ok(ObisModel::SlaveDeviceType(channel, n)),
                Err(e) => Err(e),
            }
        } else if sub == "96.1.0".spec_bytes() {
            match OctetString::spec_parse_max(body, 96) {
                Ok(o) => Ok(ObisModel::SlaveEquipmentIdentifier(channel, o)),
                Err(e) => Err(e),
            }
        } else if sub == "24.2.1".spec_bytes() {
            match spec_slave_reading(body) {
                Ok(tm) => Ok(ObisModel::SlaveMeterReading(channel, tm.0, tm.1)),
                Err(e) => Err(e),
            }
        } else {
            Err(Error::UnknownObis)
        }
    }
}

impl OBIS {
    /// What the base layer's exact-match table yields for a reference and
    /// body, falling back to the generic channel pattern.
    pub open spec fn spec_parse_obis(reference: Seq<u8>, body: Seq<u8>) -> Result<ObisModel, Error> {
        if reference == "1-3:0.2.8".spec_bytes() {
            match OctetString::spec_parse(body, 2) {
                Ok(o) => Ok(ObisModel::Version(o)),
                Err(e) => Err(e),
            }
        } else if reference == "0-0:1.0.0".spec_bytes() {
            match TST::spec_parse(body) {
                Ok(t) => Ok(ObisModel::DateTime(t)),
                Err(e) => Err(e),
            }
        } else if reference == "0-0:96.1.1".spec_bytes() {
            match OctetString::spec_parse_max(body, 96) {
                Ok(o) => Ok(ObisModel::EquipmentIdentifier(o)),
                Err(e) => Err(e),
            }
        } else if reference == "1-0:1.8.1".spec_bytes() {
            match UFixedDouble::spec_parse(body, 9, 3) {
                Ok(m) => Ok(ObisModel::MeterReadingTo(Tariff::Tariff1, m)),
                Err(e) => Err(e),
            }
        } else if reference == "1-0:1.8.2".spec_bytes() {
            match UFixedDouble::spec_parse(body, 9, 3) {
                Ok(m) => Ok(ObisModel::MeterReadingTo(Tariff::Tariff2, m)),
                Err(e) => Err(e),
            }
        } else if reference == "1-0:2.8.1".spec_bytes() {
            match UFixedDouble::spec_parse(body, 9, 3) {
                Ok(m) => Ok(ObisModel::MeterReadingBy(Tariff::Tariff1, m)),
                Err(e) => Err(e),
            }
        } else if reference == "1-0:2.8.2".spec_bytes() {
            match UFixedDouble::spec_parse(body, 9, 3) {
                Ok(m) => Ok(ObisModel::MeterReadingBy(Tariff::Tariff2, m)),
                Err(e) => Err(e),
            }
        } else if reference == "0-0:96.14.0".spec_bytes() {
            match OctetString::spec_parse(body, 4) {
                Ok(o) => Ok(ObisModel::TariffIndicator(o)),
                Err(e) => Err(e),
            }
        } else if reference == "1-0:1.7.0".spec_bytes() {
            match UFixedDouble::spec_parse(body, 5, 3) {
                Ok(m) => Ok(ObisModel::PowerDelivered(m)),
                Err(e) => Err(e),
            }
        } else if reference == "1-0:2.7.0".spec_bytes() {
            match UFixedDouble::spec_parse(body, 5, 3) {
                Ok(m) => Ok(ObisModel::PowerReceived(m)),
                Err(e) => Err(e),
            }
        } else if reference == "0-0:96.7.21".spec_bytes() {
            match UFixedInteger::spec_parse(body, 5) {
                Ok(n) => Ok(ObisModel::PowerFailures(n)),
                Err(e) => Err(e),
            }
        } else if reference == "0-0:96.7.9".spec_bytes() {
            match UFixedInteger::spec_parse(body, 5) {
                Ok(n) => Ok(ObisModel::LongPowerFailures(n)),
                Err(e) => Err(e),
            }
        } else if reference == "1-0:99.97.0".spec_bytes() {
            Ok(ObisModel::PowerFailureEventLog)
        } else if reference == "1-0:32.32.0".spec_bytes() {
            match UFixedInteger::spec_parse(body, 5) {
                Ok(n) => Ok(ObisModel::VoltageSags(Line::Line1, n)),
                Err(e) => Err(e),
            }
        } else if reference == "1-0:52.32.0".spec_bytes() {
            match UFixedInteger::spec_parse(body, 5) {
                Ok(n) => Ok(ObisModel::VoltageSags(Line::Line2, n)),
                Err(e) => Err(e),
            }
        } else if reference == "1-0:72.32.0".spec_bytes() {
            match UFixedInteger::spec_parse(body, 5) {
                Ok(n) => Ok(ObisModel::VoltageSags(Line::Line3, n)),
                Err(e) => Err(e),
            }
        } else if reference == "1-0:32.36.0".spec_bytes() {
            match UFixedInteger::spec_parse(body, 5) {
                Ok(n) => Ok(ObisModel::VoltageSwells(Line::Line1, n)),
                Err(e) => Err(e),
            }
        } else if reference == "1-0:52.36.0".spec_bytes() {
            match UFixedInteger::spec_parse(body, 5) {
                Ok(n) => Ok(ObisModel::VoltageSwells(Line::Line2, n)),
                Err(e) => Err(e),
            }
        } else if reference == "1-0:72.36.0".spec_bytes() {
            match UFixedInteger::spec_parse(body, 5) {
                Ok(n) => Ok(ObisModel::VoltageSwells(Line::Line3, n)),
                Err(e) => Err(e),
            }
        } else if reference == "0-0:96.13.1".spec_bytes() {
            Ok(ObisModel::TextMessageCode)
        } else if reference == "0-0:96.13.0".spec_bytes() {
            Ok(ObisModel::TextMessage)
        } else if reference == "1-0:31.7.0".spec_bytes() {
            match UFixedInteger::spec_parse(body, 3) {
                Ok(n) => Ok(ObisModel::InstantaneousCurrent(Line::Line1, n)),
                Err(e) => Err(e),
            }
        } else if reference == "1-0:51.7.0".spec_bytes() {
            match UFixedInteger::spec_parse(body, 3) {
                Ok(n) => Ok(ObisModel::InstantaneousCurrent(Line::Line2, n)),
                Err(e) => Err(e),
            }
        } else if reference == "1-0:71.7.0".spec_bytes() {
            match UFixedInteger::spec_parse(body, 3) {
                Ok(n) => Ok(ObisModel::InstantaneousCurrent(Line::Line3, n)),
                Err(e) => Err(e),
            }
        } else if reference == "1-0:21.7.0".spec_bytes() {
            match UFixedDouble::spec_parse(body, 5, 3) {
                Ok(m) => Ok(ObisModel::InstantaneousActivePowerPlus(Line::Line1, m)),
                Err(e) => Err(e),
            }
        } else if reference == "1-0:41.7.0".spec_bytes() {
            match UFixedDouble::spec_parse(body, 5, 3) {
                Ok(m) => Ok(ObisModel::InstantaneousActivePowerPlus(Line::Line2, m)),
                Err(e) => Err(e),
            }
        } else if reference == "1-0:61.7.0".spec_bytes() {
            match UFixedDouble::spec_parse(body, 5, 3) {
                Ok(m) => Ok(ObisModel::InstantaneousActivePowerPlus(Line::Line3, m)),
                Err(e) => Err(e),
            }
        } else if reference == "1-0:22.7.0".spec_bytes() {
            match UFixedDouble::spec_parse(body, 5, 3) {
                Ok(m) => Ok(ObisModel::InstantaneousActivePowerNeg(Line::Line1, m)),
                Err(e) => Err(e),
            }
        } else if reference == "1-0:42.7.0".spec_bytes() {
            match UFixedDouble::spec_parse(body, 5, 3) {
                Ok(m) => Ok(ObisModel::InstantaneousActivePowerNeg(Line::Line2, m)),
                Err(e) => Err(e),
            }
        } else if reference == "1-0:62.7.0".spec_bytes() {
            match UFixedDouble::spec_parse(body, 5, 3) {
                Ok(m) => Ok(ObisModel::InstantaneousActivePowerNeg(Line::Line3, m)),
                Err(e) => Err(e),
            }
        } else {
            spec_parse_channel(reference, body)
        }
    }

    /// What objects of this layer carry which line association.
    pub open spec fn spec_line(m: ObisModel) -> Option<Line> {
        match m {
            ObisModel::VoltageSags(l, _) => Some(l),
            ObisModel::VoltageSwells(l, _) => Some(l),
            ObisModel::InstantaneousCurrent(l, _) => Some(l),
            ObisModel::InstantaneousActivePowerPlus(l, _) => Some(l),
            ObisModel::InstantaneousActivePowerNeg(l, _) => Some(l),
            _ => None,
        }
    }

    /// What objects of this layer carry which slave association.
    pub open spec fn spec_slave(m: ObisModel) -> Option<Slave> {
        match m {
            ObisModel::SlaveDeviceType(s, _) => Some(s),
            ObisModel::SlaveEquipmentIdentifier(s, _) => Some(s),
            ObisModel::SlaveMeterReading(s, _, _) => Some(s),
            _ => None,
        }
    }

    pub fn line(&self) -> (r: Option<Line>)
        ensures
            r == Self::spec_line(self@),
    {
        match self {
            OBIS::VoltageSags(l, _) => Some(*l),
            OBIS::VoltageSwells(l, _) => Some(*l),
            OBIS::InstantaneousCurrent(l, _) => Some(*l),
            OBIS::InstantaneousActivePowerPlus(l, _) => Some(*l),
            OBIS::InstantaneousActivePowerNeg(l, _) => Some(*l),
            _ => None,
        }
    }

    pub fn slave(&self) -> (r: Option<Slave>)
        ensures
            r == Self::spec_slave(self@),
    {
        match self {
            OBIS::SlaveDeviceType(s, _) => Some(*s),
            OBIS::SlaveEquipmentIdentifier(s, _) => Some(*s),
            OBIS::SlaveMeterReading(s, _, _) => Some(*s),
            _ => None,
        }
    }
}

impl Parseable for OBIS {
    open spec fn spec_parse(reference: Seq<u8>, body: Seq<u8>) -> Result<ObisModel, Error> {
        Self::spec_parse_obis(reference, body)
    }

    fn parse(reference: &[u8], body: &[u8]) -> (r: Result<OBIS, Error>)
        ensures
            view_result(r) == Self::spec_parse(reference@, body@),
    {
        if bytes_eq(reference, "1-3:0.2.8".as_bytes()) {
            match OctetString::parse(body, 2) {
                Ok(o) => Ok(OBIS::Version(o)),
                Err(e) => Err(e),
            }
        } else if bytes_eq(reference, "0-0:1.0.0".as_bytes()) {
            match TST::parse(body) {
                Ok(t) => Ok(OBIS::DateTime(t)),
                Err(e) => Err(e),
            }
        } else if bytes_eq(reference, "0-0:96.1.1".as_bytes()) {
            match OctetString::parse_max(body, 96) {
                Ok(o) => Ok(OBIS::EquipmentIdentifier(o)),
                Err(e) => Err(e),
            }
        } else if bytes_eq(reference, "1-0:1.8.1".as_bytes()) {
            match UFixedDouble::parse(body, 9, 3) {
                Ok(m) => Ok(OBIS::MeterReadingTo(Tariff::Tariff1, m)),
                Err(e) => Err(e),
            }
        } else if bytes_eq(reference, "1-0:1.8.2".as_bytes()) {
            match UFixedDouble::parse(body, 9, 3) {
                Ok(m) => Ok(OBIS::MeterReadingTo(Tariff::Tariff2, m)),
                Err(e) => Err(e),
            }
        } else if bytes_eq(reference, "1-0:2.8.1".as_bytes()) {
            match UFixedDouble::parse(body, 9, 3) {
                Ok(m) => Ok(OBIS::MeterReadingBy(Tariff::Tariff1, m)),
                Err(e) => Err(e),
            }
        } else if bytes_eq(reference, "1-0:2.8.2".as_bytes()) {
            match UFixedDouble::parse(body, 9, 3) {
                Ok(m) => Ok(OBIS::MeterReadingBy(Tariff::Tariff2, m)),
                Err(e) => Err(e),
            }
        } else if bytes_eq(reference, "0-0:96.14.0".as_bytes()) {
            match OctetString::parse(body, 4) {
                Ok(o) => Ok(OBIS::TariffIndicator(o)),
                Err(e) => Err(e),
            }
        } else if bytes_eq(reference, "1-0:1.7.0".as_bytes()) {
            match UFixedDouble::parse(body, 5, 3) {
                Ok(m) => Ok(OBIS::PowerDelivered(m)),
                Err(e) => Err(e),
            }
        } else if bytes_eq(reference, "1-0:2.7.0".as_bytes()) {
            match UFixedDouble::parse(body, 5, 3) {
                Ok(m) => Ok(OBIS::PowerReceived(m)),
                Err(e) => Err(e),
            }
        } else if bytes_eq(reference, "0-0:96.7.21".as_bytes()) {
            match UFixedInteger::parse(body, 5) {
                Ok(n) => Ok(OBIS::PowerFailures(n)),
                Err(e) => Err(e),
            }
        } else if bytes_eq(reference, "0-0:96.7.9".as_bytes()) {
            match UFixedInteger::parse(body, 5) {
                Ok(n) => Ok(OBIS::LongPowerFailures(n)),
                Err(e) => Err(e),
            }
        } else if bytes_eq(reference, "1-0:99.97.0".as_bytes()) {
            Ok(OBIS::PowerFailureEventLog)
        } else if bytes_eq(reference, "1-0:32.32.0".as_bytes()) {
            match UFixedInteger::parse(body, 5) {
                Ok(n) => Ok(OBIS::VoltageSags(Line::Line1, n)),
                Err(e) => Err(e),
            }
        } else if bytes_eq(reference, "1-0:52.32.0".as_bytes()) {
            match UFixedInteger::parse(body, 5) {
                Ok(n) => Ok(OBIS::VoltageSags(Line::Line2, n)),
                Err(e) => Err(e),
            }
        } else if bytes_eq(reference, "1-0:72.32.0".as_bytes()) {
            match UFixedInteger::parse(body, 5) {
                Ok(n) => Ok(OBIS::VoltageSags(Line::Line3, n)),
                Err(e) => Err(e),
            }
        } else if bytes_eq(reference, "1-0:32.36.0".as_bytes()) {
            match UFixedInteger::parse(body, 5) {
                Ok(n) => Ok(OBIS::VoltageSwells(Line::Line1, n)),
                Err(e) => Err(e),
            }
        } else if bytes_eq(reference, "1-0:52.36.0".as_bytes()) {
            match UFixedInteger::parse(body, 5) {
                Ok(n) => Ok(OBIS::VoltageSwells(Line::Line2, n)),
                Err(e) => Err(e),
            }
        } else if bytes_eq(reference, "1-0:72.36.0".as_bytes()) {
            match UFixedInteger::parse(body, 5) {
                Ok(n) => Ok(OBIS::VoltageSwells(Line::Line3, n)),
                Err(e) => Err(e),
            }
        } else if bytes_eq(reference, "0-0:96.13.1".as_bytes()) {
            Ok(OBIS::TextMessageCode)
        } else if bytes_eq(reference, "0-0:96.13.0".as_bytes()) {
            Ok(OBIS::TextMessage)
        } else if bytes_eq(reference, "1-0:31.7.0".as_bytes()) {
            match UFixedInteger::parse(body, 3) {
                Ok(n) => Ok(OBIS::InstantaneousCurrent(Line::Line1, n)),
                Err(e) => Err(e),
            }
        } else if bytes_eq(reference, "1-0:51.7.0".as_bytes()) {
            match UFixedInteger::parse(body, 3) {
                Ok(n) => Ok(OBIS::InstantaneousCurrent(Line::Line2, n)),
                Err(e) => Err(e),
            }
        } else if bytes_eq(reference, "1-0:71.7.0".as_bytes()) {
            match UFixedInteger::parse(body, 3) {
                Ok(n) => Ok(OBIS::InstantaneousCurrent(Line::Line3, n)),
                Err(e) => Err(e),
            }
        } else if bytes_eq(reference, "1-0:21.7.0".as_bytes()) {
            match UFixedDouble::parse(body, 5, 3) {
                Ok(m) => Ok(OBIS::InstantaneousActivePowerPlus(Line::Line1, m)),
                Err(e) => Err(e),
            }
        } else if bytes_eq(reference, "1-0:41.7.0".as_bytes()) {
            match UFixedDouble::parse(body, 5, 3) {
                Ok(m) => Ok(OBIS::InstantaneousActivePowerPlus(Line::Line2, m)),
                Err(e) => Err(e),
            }
        } else if bytes_eq(reference, "1-0:61.7.0".as_bytes()) {
            match UFixedDouble::parse(body, 5, 3) {
                Ok(m) => Ok(OBIS::InstantaneousActivePowerPlus(Line::Line3, m)),
                Err(e) => Err(e),
            }
        } else if bytes_eq(reference, "1-0:22.7.0".as_bytes()) {
            match UFixedDouble::parse(body, 5, 3) {
                Ok(m) => Ok(OBIS::InstantaneousActivePowerNeg(Line::Line1, m)),
                Err(e) => Err(e),
            }
        } else if bytes_eq(reference, "1-0:42.7.0".as_bytes()) {
            match UFixedDouble::parse(body, 5, 3) {
                Ok(m) => Ok(OBIS::InstantaneousActivePowerNeg(Line::Line2, m)),
                Err(e) => Err(e),
            }
        } else if bytes_eq(reference, "1-0:62.7.0".as_bytes()) {
            match UFixedDouble::parse(body, 5, 3) {
                Ok(m) => Ok(OBIS::InstantaneousActivePowerNeg(Line::Line3, m)),
                Err(e) => Err(e),
            }
        } else {
            parse_channel(reference, body)
        }
    }
}

/// Dispatches the generic channel pattern for the base layer.
fn parse_channel(reference: &[u8], body: &[u8]) -> (r: Result<OBIS, Error>)
    requires
        body@.len() > 0,
        body@[0] == LPAREN,
    ensures
        view_result(r) == spec_parse_channel(reference@, body@),
{
    if reference.len() != 10 || reference[0] != 48 || reference[1] != 45 {
        return Err(Error::UnknownObis);
    }
    let c: u8 = reference[2];
    if !(48 <= c && c <= 57) || c == 48 {
        return Err(Error::UnknownObis);
    }
    if !(49 <= c && c <= 52) {
        return Err(Error::InvalidFormat);
    }
    let channel = if c == 49 {
        Slave::Slave1
    } else if c == 50 {
        Slave::Slave2
    } else if c == 51 {
        Slave::Slave3
    } else {
        Slave::Slave4
    };
    let sub = vstd::slice::slice_subrange(reference, 4, 10);
    if bytes_eq(sub, "24.1.0".as_bytes()) {
        match UFixedInteger::parse(body, 3) {
            Ok(n) => Ok(OBIS::SlaveDeviceType(channel, n)),
            Err(e) => Err(e),
        }
    } else if bytes_eq(sub, "96.1.0".as_bytes()) {
        match OctetString::parse_max(body, 96) {
            Ok(o) => Ok(OBIS::SlaveEquipmentIdentifier(channel, o)),
            Err(e) => Err(e),
        }
    } else if bytes_eq(sub, "24.2.1".as_bytes()) {
        match parse_slave_reading(body) {
            Ok(tm) => Ok(OBIS::SlaveMeterReading(channel, tm.0, tm.1)),
            Err(e) => Err(e),
        }
    } else {
        Err(Error::UnknownObis)
    }
}

} // verus!
