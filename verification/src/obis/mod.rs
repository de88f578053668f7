//! OBIS reference dispatch: maps a dotted reference code to a decoded,
//! tagged value, across three vocabulary layers.

pub mod dsmr4;
pub mod dsmr5;
pub mod e_mucs;

use vstd::prelude::*;

use crate::Error;
use crate::text::find_byte;
use crate::text::find_byte_from;
use crate::text::lemma_find_byte_in_range;
use crate::types::DOT;
use crate::types::LPAREN;
use crate::types::TST;
use crate::types::UFixedDouble;

verus! {

/// One of two tariffs used by the meter.
#[derive(Debug, Clone, Copy, PartialEq, Eq, Structural)]
pub enum Tariff {
    Tariff1,
    Tariff2,
}

impl Tariff {
    pub open spec fn as_index(self) -> int {
        match self {
            Tariff::Tariff1 => 0,
            Tariff::Tariff2 => 1,
        }
    }

    /// The array slot this tariff addresses.
    pub fn index(self) -> (r: usize)
        ensures
            r == self.as_index(),
    {
        match self {
            Tariff::Tariff1 => 0,
            Tariff::Tariff2 => 1,
        }
    }
}

/// One of up to three powerlines connected to the meter.
#[derive(Debug, Clone, Copy, PartialEq, Eq, Structural)]
pub enum Line {
    Line1,
    Line2,
    Line3,
}

impl Line {
    pub open spec fn as_index(self) -> int {
        match self {
            Line::Line1 => 0,
            Line::Line2 => 1,
            Line::Line3 => 2,
        }
    }

    /// The array slot this line addresses.
    pub fn index(self) -> (r: usize)
        ensures
            r == self.as_index(),
    {
        match self {
            Line::Line1 => 0,
            Line::Line2 => 1,
            Line::Line3 => 2,
        }
    }
}

/// One of up to four slave meters connected to the meter.
#[derive(Debug, Clone, Copy, PartialEq, Eq, Structural)]
pub enum Slave {
    Slave1,
    Slave2,
    Slave3,
    Slave4,
}

impl Slave {
    pub open spec fn as_index(self) -> int {
        match self {
            Slave::Slave1 => 0,
            Slave::Slave2 => 1,
            Slave::Slave3 => 2,
            Slave::Slave4 => 3,
        }
    }

    /// The array slot this slave addresses.
    pub fn index(self) -> (r: usize)
        ensures
            r == self.as_index(),
    {
        match self {
            Slave::Slave1 => 0,
            Slave::Slave2 => 1,
            Slave::Slave3 => 2,
            Slave::Slave4 => 3,
        }
    }
}

/// The slave channel denoted by the digit at offset 2 of a channel-pattern
/// reference, for digits 1 through 4.
pub open spec fn spec_slave_of_digit(b: u8) -> Slave
    recommends
        49 <= b <= 52,
{
    if b == 49 {
        Slave::Slave1
    } else if b == 50 {
        Slave::Slave2
    } else if b == 51 {
        Slave::Slave3
    } else {
        Slave::Slave4
    }
}

/// The view of a decode result: values viewed, errors kept.
pub open spec fn view_result<T: View>(r: Result<T, Error>) -> Result<T::V, Error> {
    match r {
        Ok(o) => Ok(o@),
        Err(e) => Err(e),
    }
}

/// What splitting one body line and dispatching it through layer `T`
/// yields: the line is split at its first `(` into reference and body.
pub open spec fn spec_parse_line<T: Parseable>(line: Seq<u8>) -> Result<T::V, Error> {
    match find_byte_from(line, LPAREN, 0) {
        None => Err(Error::InvalidFormat),
        Some(j) => T::spec_parse(line.subrange(0, j), line.subrange(j, line.len() as int)),
    }
}

/// A vocabulary layer: decodes one reference and body pair.
pub trait Parseable: Sized + View {
    /// What this layer's dispatcher yields for a reference and body.
    spec fn spec_parse(reference: Seq<u8>, body: Seq<u8>) -> Result<Self::V, Error>;

    fn parse(reference: &[u8], body: &[u8]) -> (r: Result<Self, Error>)
        requires
            body@.len() > 0,
            body@[0] == LPAREN,
        ensures
            view_result(r) == Self::spec_parse(reference@, body@),
    ;

    fn parse_line(line: &[u8]) -> (r: Result<Self, Error>)
        ensures
            view_result(r) == (match find_byte_from(line@, LPAREN, 0) {
                None => Err::<Self::V, Error>(Error::InvalidFormat),
                Some(j) => Self::spec_parse(
                    line@.subrange(0, j),
                    line@.subrange(j, line@.len() as int),
                ),
            }),
    {
        match find_byte(line, LPAREN, 0) {
            None => Err(Error::InvalidFormat),
            Some(j) => {
                proof {
                    lemma_find_byte_in_range(line@, LPAREN, 0);
                }
                let reference = vstd::slice::slice_subrange(line, 0, j);
                let body = vstd::slice::slice_subrange(line, j, line.len());
                Self::parse(reference, body)
            },
        }
    }
}

// ---------------------------------------------------------------------------
// Two-field bodies
// ---------------------------------------------------------------------------

/// Splits a two-field body at its second `(`: the timestamp group and the
/// measurement group.
pub open spec fn spec_split_fields(body: Seq<u8>) -> Option<(Seq<u8>, Seq<u8>)> {
    match find_byte_from(body, LPAREN, 1) {
        None => None,
        Some(p) => Some((body.subrange(0, p), body.subrange(p, body.len() as int))),
    }
}

pub fn split_fields(body: &[u8]) -> (r: Option<(&[u8], &[u8])>)
    ensures
        match r {
            Some(p) => spec_split_fields(body@) == Some((p.0@, p.1@)) && p.1@.len() > 0 && p.1@[0]
                == LPAREN,
            None => spec_split_fields(body@) is None,
        },
{
    match find_byte(body, LPAREN, 1) {
        None => None,
        Some(p) => {
            proof {
                lemma_find_byte_in_range(body@, LPAREN, 1);
            }
            let time = vstd::slice::slice_subrange(body, 0, p);
            let meas = vstd::slice::slice_subrange(body, p, body.len());
            Some((time, meas))
        },
    }
}

/// What decoding a slave meter reading yields: a timestamp group followed
/// by a decimal group of eight digits whose decimal-point offset is derived
/// from the position of the `.` inside the group.
pub open spec fn spec_slave_reading(body: Seq<u8>) -> Result<(TST, UFixedDouble), Error> {
    match spec_split_fields(body) {
        None => Err(Error::InvalidFormat),
        Some(fields) => {
            let time = fields.0;
            let meas = fields.1;
            match find_byte_from(meas, DOT, 0) {
                None => Err(Error::InvalidFormat),
                Some(period) => if period < 1 || period > 9 {
                    Err(Error::InvalidFormat)
                } else {
                    match TST::spec_parse(time) {
                        Err(e) => Err(e),
                        Ok(t) => match UFixedDouble::spec_parse(meas, 8, 9 - period) {
                            Err(e) => Err(e),
                            Ok(m) => Ok((t, m)),
                        },
                    }
                },
            }
        },
    }
}

pub fn parse_slave_reading(body: &[u8]) -> (r: Result<(TST, UFixedDouble), Error>)
    ensures
        r == spec_slave_reading(body@),
{
    match split_fields(body) {
        None => Err(Error::InvalidFormat),
        Some((time, meas)) => {
            match find_byte(meas, DOT, 0) {
                None => Err(Error::InvalidFormat),
                Some(period) => {
                    proof {
                        lemma_find_byte_in_range(meas@, DOT, 0);
                    }
                    if period < 1 || period > 9 {
                        Err(Error::InvalidFormat)
                    } else {
                        match TST::parse(time) {
                            Err(e) => Err(e),
                            Ok(t) => match UFixedDouble::parse(meas, 8, (9 - period) as u8) {
                                Err(e) => Err(e),
                                Ok(m) => Ok((t, m)),
                            },
                        }
                    }
                },
            }
        },
    }
}

} // verus!
