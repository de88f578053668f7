//! The further-extended vocabulary layer of OBIS references: adds breaker,
//! limiter, demand and valve readings, overrides a few base entries, and
//! forwards everything else to the extended layer.

use vstd::prelude::*;
use vstd::string::StringSliceAdditionalSpecFns;

use crate::Error;
use crate::obis::Line;
use crate::obis::Parseable;
use crate::obis::Slave;
use crate::obis::dsmr4;
use crate::obis::dsmr5;
use crate::obis::parse_slave_reading;
use crate::obis::spec_slave_of_digit;
use crate::obis::spec_slave_reading;
use crate::obis::spec_split_fields;
use crate::obis::split_fields;
use crate::obis::view_result;
use crate::text::bytes_eq;
use crate::text::is_digit;
use crate::types::LPAREN;
use crate::types::OctetString;
use crate::types::TST;
use crate::types::UFixedDouble;
use crate::types::UFixedInteger;

verus! {

#[derive(Debug)]
pub enum OBIS {
    DSMR5(dsmr5::OBIS),
    InstantaneousCurrent(Line, UFixedDouble),
    /// A reading that is not temperature corrected.
    SlaveMeterReadingNonCorrected(Slave, TST, UFixedDouble),
    SlaveValveState(Slave, UFixedInteger),
    BreakerState(UFixedInteger),
    LimiterThreshold(UFixedDouble),
    FuseSupervisionThreshold(UFixedInteger),
    CurrentAverageDemand(UFixedDouble),
    MaximumDemandMonth(TST, UFixedDouble),
    MaximumDemandYear,
}

/// The mathematical shape of a decoded further-extended-layer object.
pub enum ObisModel {
    DSMR5(dsmr5::ObisModel),
    InstantaneousCurrent(Line, UFixedDouble),
    SlaveMeterReadingNonCorrected(Slave, TST, UFixedDouble),
    SlaveValveState(Slave, UFixedInteger),
    BreakerState(UFixedInteger),
    LimiterThreshold(UFixedDouble),
    FuseSupervisionThreshold(UFixedInteger),
    CurrentAverageDemand(UFixedDouble),
    MaximumDemandMonth(TST, UFixedDouble),
    MaximumDemandYear,
}

impl View for OBIS {
    type V = ObisModel;

    open spec fn view(&self) -> ObisModel {
        match self {
            OBIS::DSMR5(o) => ObisModel::DSMR5(o@),
            OBIS::InstantaneousCurrent(l, m) => ObisModel::InstantaneousCurrent(*l, *m),
            OBIS::SlaveMeterReadingNonCorrected(s, t, m) => ObisModel::SlaveMeterReadingNonCorrected(
                *s,
                *t,
                *m,
            ),
            OBIS::SlaveValveState(s, n) => ObisModel::SlaveValveState(*s, *n),
            OBIS::BreakerState(n) => ObisModel::BreakerState(*n),
            OBIS::LimiterThreshold(m) => ObisModel::LimiterThreshold(*m),
            OBIS::FuseSupervisionThreshold(n) => ObisModel::FuseSupervisionThreshold(*n),
            OBIS::CurrentAverageDemand(m) => ObisModel::CurrentAverageDemand(*m),
            OBIS::MaximumDemandMonth(t, m) => ObisModel::MaximumDemandMonth(*t, *m),
            OBIS::MaximumDemandYear => ObisModel::MaximumDemandYear,
        }
    }
}

/// What decoding the maximum-demand reading yields: a timestamp group
/// followed by a five-digit decimal group with three fractional digits.
pub open spec fn spec_demand_reading(body: Seq<u8>) -> Result<(TST, UFixedDouble), Error> {
    match spec_split_fields(body) {
        None => Err(Error::InvalidFormat),
        Some(fields) => match TST::spec_parse(fields.0) {
            Err(e) => Err(e),
            Ok(t) => match UFixedDouble::spec_parse(fields.1, 5, 3) {
                Err(e) => Err(e),
                Ok(m) => Ok((t, m)),
            },
        },
    }
}

fn parse_demand_reading(body: &[u8]) -> (r: Result<(TST, UFixedDouble), Error>)
    ensures
        r == spec_demand_reading(body@),
{
    match split_fields(body) {
        None => Err(Error::InvalidFormat),
        Some((time, meas)) => match TST::parse(time) {
            Err(e) => Err(e),
            Ok(t) => match UFixedDouble::parse(meas, 5, 3) {
                Err(e) => Err(e),
                Ok(m) => Ok((t, m)),
            },
        },
    }
}

/// What dispatching the generic channel pattern yields for this layer.
pub open spec fn spec_parse_channel(reference: Seq<u8>, body: Seq<u8>) -> Result<ObisModel, Error> {
    if reference.len() != 10 || reference[0] != 48 || reference[1] != 45 {
        Err(Error::UnknownObis)
    } else if !is_digit(reference[2]) || reference[2] == 48 {
        // A device digit 0 addresses a fixed, table-known quantity, not a
        // sub-meter: the reference is unknown here and defers.
        Err(Error::UnknownObis)
    } else if !(49 <= reference[2] <= 52) {
        Err(Error::InvalidFormat)
    } else {
        let channel = spec_slave_of_digit(reference[2]);
        let sub = reference.subrange(4, 10);
        if sub == "24.4.0".spec_bytes() {
            match UFixedInteger::spec_parse(body, 1) {
                Ok(n) => Ok(ObisModel::SlaveValveState(channel, n)),
                Err(e) => Err(e),
            }
        } else if sub == "24.2.3".spec_bytes() {
            match spec_slave_reading(body) {
                Ok(tm) => Ok(ObisModel::SlaveMeterReadingNonCorrected(channel, tm.0, tm.1)),
                Err(e) => Err(e),
            }
        } else if sub == "96.1.1".spec_bytes() {
            match OctetString::spec_parse_max(body, 96) {
                Ok(o) => Ok(
                    ObisModel::DSMR5(
                        dsmr5::ObisModel::DSMR4(dsmr4::ObisModel::SlaveEquipmentIdentifier(
                            channel,
                            o,
                        )),
                    ),
                ),
                Err(e) => Err(e),
            }
        } else {
            Err(Error::UnknownObis)
        }
    }
}

fn parse_channel(reference: &[u8], body: &[u8]) -> (r: Result<OBIS, Error>)
    requires
        body@.len() > 0,
        body@[0] == LPAREN,
    ensures
        view_result(r) == spec_parse_channel(reference@, body@),
{
    if reference.len() != 10 || reference[0] != 48 || reference[1] != 45 {
        return Err(Error::UnknownObis);
    }
    let c: u8 = reference[2];
    if !(48 <= c && c <= 57) || c == 48 {
        return Err(Error::UnknownObis);
    }
    if !(49 <= c && c <= 52) {
        return Err(Error::InvalidFormat);
    }
    let channel = if c == 49 {
        Slave::Slave1
    } else if c == 50 {
        Slave::Slave2
    } else if c == 51 {
        Slave::Slave3
    } else {
        Slave::Slave4
    };
    let sub = vstd::slice::slice_subrange(reference, 4, 10);
    if bytes_eq(sub, "24.4.0".as_bytes()) {
        match UFixedInteger::parse(body, 1) {
            Ok(n) => Ok(OBIS::SlaveValveState(channel, n)),
            Err(e) => Err(e),
        }
    } else if bytes_eq(sub, "24.2.3".as_bytes()) {
        match parse_slave_reading(body) {
            Ok(tm) => Ok(OBIS::SlaveMeterReadingNonCorrected(channel, tm.0, tm.1)),
            Err(e) => Err(e),
        }
    } else if bytes_eq(sub, "96.1.1".as_bytes()) {
        match OctetString::parse_max(body, 96) {
            Ok(o) => Ok(
                OBIS::DSMR5(dsmr5::OBIS::DSMR4(dsmr4::OBIS::SlaveEquipmentIdentifier(channel, o))),
            ),
            Err(e) => Err(e),
        }
    } else {
        Err(Error::UnknownObis)
    }
}

impl OBIS {
    /// What this layer's own table yields, overriding a few base entries
    /// with different widths or decoder kinds.
    pub open spec fn spec_parse_specific(reference: Seq<u8>, body: Seq<u8>) -> Result<
        ObisModel,
        Error,
    > {
        if reference == "0-0:96.1.4".spec_bytes() {
            match OctetString::spec_parse(body, 5) {
                Ok(o) => Ok(
                    ObisModel::DSMR5(dsmr5::ObisModel::DSMR4(dsmr4::ObisModel::Version(o))),
                ),
                Err(e) => Err(e),
            }
        } else if reference == "1-0:31.7.0".spec_bytes() {
            match UFixedDouble::spec_parse(body, 5, 2) {
                Ok(m) => Ok(ObisModel::InstantaneousCurrent(Line::Line1, m)),
                Err(e) => Err(e),
            }
        } else if reference == "1-0:51.7.0".spec_bytes() {
            match UFixedDouble::spec_parse(body, 5, 2) {
                Ok(m) => Ok(ObisModel::InstantaneousCurrent(Line::Line2, m)),
                Err(e) => Err(e),
            }
        } else if reference == "1-0:71.7.0".spec_bytes() {
            match UFixedDouble::spec_parse(body, 5, 2) {
                Ok(m) => Ok(ObisModel::InstantaneousCurrent(Line::Line3, m)),
                Err(e) => Err(e),
            }
        } else if reference == "0-0:96.3.10".spec_bytes() {
            match UFixedInteger::spec_parse(body, 1) {
                Ok(n) => Ok(ObisModel::BreakerState(n)),
                Err(e) => Err(e),
            }
        } else if reference == "0-0:17.0.0".spec_bytes() {
            match UFixedDouble::spec_parse(body, 4, 1) {
                Ok(m) => Ok(ObisModel::LimiterThreshold(m)),
                Err(e) => Err(e),
            }
        } else if reference == "1-0:31.4.0".spec_bytes() {
            match UFixedInteger::spec_parse(body, 3) {
                Ok(n) => Ok(ObisModel::FuseSupervisionThreshold(n)),
                Err(e) => Err(e),
            }
        } else if reference == "1-0:1.4.0".spec_bytes() {
            match UFixedDouble::spec_parse(body, 5, 3) {
                Ok(m) => Ok(ObisModel::CurrentAverageDemand(m)),
                Err(e) => Err(e),
            }
        } else if reference == "1-0:1.6.0".spec_bytes() {
            match spec_demand_reading(body) {
                Ok(tm) => Ok(ObisModel::MaximumDemandMonth(tm.0, tm.1)),
                Err(e) => Err(e),
            }
        } else if reference == "0-0:98.1.0".spec_bytes() {
            Ok(ObisModel::MaximumDemandYear)
        } else {
            spec_parse_channel(reference, body)
        }
    }

    fn parse_specific(reference: &[u8], body: &[u8]) -> (r: Result<OBIS, Error>)
        requires
            body@.len() > 0,
            body@[0] == LPAREN,
        ensures
            view_result(r) == Self::spec_parse_specific(reference@, body@),
    {
        if bytes_eq(reference, "0-0:96.1.4".as_bytes()) {
            match OctetString::parse(body, 5) {
                Ok(o) => Ok(OBIS::DSMR5(dsmr5::OBIS::DSMR4(dsmr4::OBIS::Version(o)))),
                Err(e) => Err(e),
            }
        } else if bytes_eq(reference, "1-0:31.7.0".as_bytes()) {
            match UFixedDouble::parse(body, 5, 2) {
                Ok(m) => Ok(OBIS::InstantaneousCurrent(Line::Line1, m)),
                Err(e) => Err(e),
            }
        } else if bytes_eq(reference, "1-0:51.7.0".as_bytes()) {
            match UFixedDouble::parse(body, 5, 2) {
                Ok(m) => Ok(OBIS::InstantaneousCurrent(Line::Line2, m)),
                Err(e) => Err(e),
            }
        } else if bytes_eq(reference, "1-0:71.7.0".as_bytes()) {
            match UFixedDouble::parse(body, 5, 2) {
                Ok(m) => Ok(OBIS::InstantaneousCurrent(Line::Line3, m)),
                Err(e) => Err(e),
            }
        } else if bytes_eq(reference, "0-0:96.3.10".as_bytes()) {
            match UFixedInteger::parse(body, 1) {
                Ok(n) => Ok(OBIS::BreakerState(n)),
                Err(e) => Err(e),
            }
        } else if bytes_eq(reference, "0-0:17.0.0".as_bytes()) {
            match UFixedDouble::parse(body, 4, 1) {
                Ok(m) => Ok(OBIS::LimiterThreshold(m)),
                Err(e) => Err(e),
            }
        } else if bytes_eq(reference, "1-0:31.4.0".as_bytes()) {
            match UFixedInteger::parse(body, 3) {
                Ok(n) => Ok(OBIS::FuseSupervisionThreshold(n)),
                Err(e) => Err(e),
            }
        } else if bytes_eq(reference, "1-0:1.4.0".as_bytes()) {
            match UFixedDouble::parse(body, 5, 3) {
                Ok(m) => Ok(OBIS::CurrentAverageDemand(m)),
                Err(e) => Err(e),
            }
        } else if bytes_eq(reference, "1-0:1.6.0".as_bytes()) {
            match parse_demand_reading(body) {
                Ok(tm) => Ok(OBIS::MaximumDemandMonth(tm.0, tm.1)),
                Err(e) => Err(e),
            }
        } else if bytes_eq(reference, "0-0:98.1.0".as_bytes()) {
            Ok(OBIS::MaximumDemandYear)
        } else {
            parse_channel(reference, body)
        }
    }

    /// What objects of this layer carry which line association.
    pub open spec fn spec_line(m: ObisModel) -> Option<Line> {
        match m {
            ObisModel::DSMR5(o) => dsmr5::OBIS::spec_line(o),
            ObisModel::InstantaneousCurrent(l, _) => Some(l),
            _ => None,
        }
    }

    /// What objects of this layer carry which slave association.
    pub open spec fn spec_slave(m: ObisModel) -> Option<Slave> {
        match m {
            ObisModel::DSMR5(o) => dsmr5::OBIS::spec_slave(o),
            ObisModel::SlaveMeterReadingNonCorrected(s, _, _) => Some(s),
            ObisModel::SlaveValveState(s, _) => Some(s),
            _ => None,
        }
    }

    pub fn line(&self) -> (r: Option<Line>)
        ensures
            r == Self::spec_line(self@),
    {
        match self {
            OBIS::DSMR5(o) => o.line(),
            OBIS::InstantaneousCurrent(l, _) => Some(*l),
            _ => None,
        }
    }

    pub fn slave(&self) -> (r: Option<Slave>)
        ensures
            r == Self::spec_slave(self@),
    {
        match self {
            OBIS::DSMR5(o) => o.slave(),
            OBIS::SlaveMeterReadingNonCorrected(s, _, _) => Some(*s),
            OBIS::SlaveValveState(s, _) => Some(*s),
            _ => None,
        }
    }
}

impl Parseable for OBIS {
    /// This layer's own table is attempted first; on an unknown reference
    /// the extended layer decides, and its object is wrapped.
    open spec fn spec_parse(reference: Seq<u8>, body: Seq<u8>) -> Result<ObisModel, Error> {
        match Self::spec_parse_specific(reference, body) {
            Ok(o) => Ok(o),
            Err(Error::UnknownObis) => match dsmr5::OBIS::spec_parse(reference, body) {
                Ok(o) => Ok(ObisModel::DSMR5(o)),
                Err(e) => Err(e),
            },
            Err(e) => Err(e),
        }
    }

    fn parse(reference: &[u8], body: &[u8]) -> (r: Result<OBIS, Error>)
        ensures
            view_result(r) == Self::spec_parse(reference@, body@),
    {
        match Self::parse_specific(reference, body) {
            Ok(o) => Ok(o),
            Err(Error::UnknownObis) => match dsmr5::OBIS::parse(reference, body) {
                Ok(o) => Ok(OBIS::DSMR5(o)),
                Err(e) => Err(e),
            },
            Err(e) => Err(e),
        }
    }
}

/// Every reference the extended vocabulary decodes and this layer's own
/// table does not claim stays reachable here, wrapped as this layer's
/// extended variant.
pub proof fn lemma_extended_reachable(reference: Seq<u8>, body: Seq<u8>, o: dsmr5::ObisModel)
    requires
        OBIS::spec_parse_specific(reference, body) == Err::<ObisModel, Error>(Error::UnknownObis),
        dsmr5::OBIS::spec_parse(reference, body) == Ok::<dsmr5::ObisModel, Error>(o),
    ensures
        OBIS::spec_parse(reference, body) == Ok::<ObisModel, Error>(ObisModel::DSMR5(o)),
{
}

/// Every reference only the base vocabulary defines stays reachable through
/// both higher layers, wrapped in turn as their base variants.
pub proof fn lemma_base_reachable_everywhere(
    reference: Seq<u8>,
    body: Seq<u8>,
    o: dsmr4::ObisModel,
)
    requires
        OBIS::spec_parse_specific(reference, body) == Err::<ObisModel, Error>(Error::UnknownObis),
        dsmr5::OBIS::spec_parse_specific(reference, body) == Err::<dsmr5::ObisModel, Error>(
            Error::UnknownObis,
        ),
        dsmr4::OBIS::spec_parse(reference, body) == Ok::<dsmr4::ObisModel, Error>(o),
    ensures
        OBIS::spec_parse(reference, body) == Ok::<ObisModel, Error>(
            ObisModel::DSMR5(dsmr5::ObisModel::DSMR4(o)),
        ),
{
    dsmr5::lemma_base_reachable(reference, body, o);
    lemma_extended_reachable(reference, body, dsmr5::ObisModel::DSMR4(o));
}

} // verus!
