//! The extended vocabulary layer of OBIS references: adds instantaneous
//! voltage readings and forwards everything else to the base layer.

use vstd::prelude::*;
use vstd::string::StringSliceAdditionalSpecFns;

use crate::Error;
use crate::obis::Line;
use crate::obis::Parseable;
use crate::obis::Slave;
use crate::obis::dsmr4;
use crate::obis::view_result;
use crate::text::bytes_eq;
use crate::types::LPAREN;
use crate::types::UFixedDouble;

verus! {

#[derive(Debug)]
pub enum OBIS {
    DSMR4(dsmr4::OBIS),
    InstantaneousVoltage(Line, UFixedDouble),
}

/// The mathematical shape of a decoded extended-layer object.
pub enum ObisModel {
    DSMR4(dsmr4::ObisModel),
    InstantaneousVoltage(Line, UFixedDouble),
}

impl View for OBIS {
    type V = ObisModel;

    open spec fn view(&self) -> ObisModel {
        match self {
            OBIS::DSMR4(o) => ObisModel::DSMR4(o@),
            OBIS::InstantaneousVoltage(l, m) => ObisModel::InstantaneousVoltage(*l, *m),
        }
    }
}

impl OBIS {
    /// What this layer's own table yields: the three instantaneous-voltage
    /// references, everything else unknown here.
    pub open spec fn spec_parse_specific(reference: Seq<u8>, body: Seq<u8>) -> Result<
        ObisModel,
        Error,
    > {
        if reference == "1-0:32.7.0".spec_bytes() {
            match UFixedDouble::spec_parse(body, 4, 1) {
                Ok(m) => Ok(ObisModel::InstantaneousVoltage(Line::Line1, m)),
                Err(e) => Err(e),
            }
        } else if reference == "1-0:52.7.0".spec_bytes() {
            match UFixedDouble::spec_parse(body, 4, 1) {
                Ok(m) => Ok(ObisModel::InstantaneousVoltage(Line::Line2, m)),
                Err(e) => Err(e),
            }
        } else if reference == "1-0:72.7.0".spec_bytes() {
            match UFixedDouble::spec_parse(body, 4, 1) {
                Ok(m) => Ok(ObisModel::InstantaneousVoltage(Line::Line3, m)),
                Err(e) => Err(e),
            }
        } else {
            Err(Error::UnknownObis)
        }
    }

    fn parse_specific(reference: &[u8], body: &[u8]) -> (r: Result<OBIS, Error>)
        requires
            body@.len() > 0,
            body@[0] == LPAREN,
        ensures
            view_result(r) == Self::spec_parse_specific(reference@, body@),
    {
        if bytes_eq(reference, "1-0:32.7.0".as_bytes()) {
            match UFixedDouble::parse(body, 4, 1) {
                Ok(m) => Ok(OBIS::InstantaneousVoltage(Line::Line1, m)),
                Err(e) => Err(e),
            }
        } else if bytes_eq(reference, "1-0:52.7.0".as_bytes()) {
            match UFixedDouble::parse(body, 4, 1) {
                Ok(m) => Ok(OBIS::InstantaneousVoltage(Line::Line2, m)),
                Err(e) => Err(e),
            }
        } else if bytes_eq(reference, "1-0:72.7.0".as_bytes()) {
            match UFixedDouble::parse(body, 4, 1) {
                Ok(m) => Ok(OBIS::InstantaneousVoltage(Line::Line3, m)),
                Err(e) => Err(e),
            }
        } else {
            Err(Error::UnknownObis)
        }
    }

    /// What objects of this layer carry which line association.
    pub open spec fn spec_line(m: ObisModel) -> Option<Line> {
        match m {
            ObisModel::DSMR4(o) => dsmr4::OBIS::spec_line(o),
            ObisModel::InstantaneousVoltage(l, _) => Some(l),
        }
    }

    /// What objects of this layer carry which slave association.
    pub open spec fn spec_slave(m: ObisModel) -> Option<Slave> {
        match m {
            ObisModel::DSMR4(o) => dsmr4::OBIS::spec_slave(o),
            _ => None,
        }
    }

    pub fn line(&self) -> (r: Option<Line>)
        ensures
            r == Self::spec_line(self@),
    {
        match self {
            OBIS::DSMR4(o) => o.line(),
            OBIS::InstantaneousVoltage(l, _) => Some(*l),
        }
    }

    pub fn slave(&self) -> (r: Option<Slave>)
        ensures
            r == Self::spec_slave(self@),
    {
        match self {
            OBIS::DSMR4(o) => o.slave(),
            _ => None,
        }
    }
}

impl Parseable for OBIS {
    /// This layer's own table is attempted first; on an unknown reference
    /// the base layer decides, and its object is wrapped.
    open spec fn spec_parse(reference: Seq<u8>, body: Seq<u8>) -> Result<ObisModel, Error> {
        match Self::spec_parse_specific(reference, body) {
            Ok(o) => Ok(o),
            Err(Error::UnknownObis) => match dsmr4::OBIS::spec_parse(reference, body) {
                Ok(o) => Ok(ObisModel::DSMR4(o)),
                Err(e) => Err(e),
            },
            Err(e) => Err(e),
        }
    }

    fn parse(reference: &[u8], body: &[u8]) -> (r: Result<OBIS, Error>)
        ensures
            view_result(r) == Self::spec_parse(reference@, body@),
    {
        match Self::parse_specific(reference, body) {
            Ok(o) => Ok(o),
            Err(Error::UnknownObis) => match dsmr4::OBIS::parse(reference, body) {
                Ok(o) => Ok(OBIS::DSMR4(o)),
                Err(e) => Err(e),
            },
            Err(e) => Err(e),
        }
    }
}

/// Every reference the base vocabulary decodes and this layer's own table
/// does not claim stays reachable here, wrapped as this layer's base
/// variant.
pub proof fn lemma_base_reachable(reference: Seq<u8>, body: Seq<u8>, o: dsmr4::ObisModel)
    requires
        OBIS::spec_parse_specific(reference, body) == Err::<ObisModel, Error>(Error::UnknownObis),
        dsmr4::OBIS::spec_parse(reference, body) == Ok::<dsmr4::ObisModel, Error>(o),
    ensures
        OBIS::spec_parse(reference, body) == Ok::<ObisModel, Error>(ObisModel::DSMR4(o)),
{
}

} // verus!
