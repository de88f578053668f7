//! The snapshot fields shared by every vocabulary layer's state.

use vstd::prelude::*;
use vstd::array::spec_array_fill_for_copy_type;
use vstd::array::spec_array_update;

use crate::Error;
use crate::Telegram;
use crate::obis::Tariff;
use crate::obis::dsmr4::OBIS;
use crate::obis::dsmr4::ObisModel;
use crate::obis::spec_parse_line;
use crate::obis::view_result;
use crate::text::split_lines;
use crate::types::TST;
use crate::types::UFixedDouble;
use crate::types::octets_ok;
use crate::types::octets_value;

verus! {

/// A reading from a power meter, per Tariff.
#[derive(Debug, Clone, Copy, PartialEq)]
pub struct MeterReading {
    pub to: Option<UFixedDouble>,
    pub by: Option<UFixedDouble>,
}

impl MeterReading {
    pub open spec fn spec_default() -> MeterReading {
        MeterReading { to: None, by: None }
    }
}

impl Default for MeterReading {
    fn default() -> (r: MeterReading)
        ensures
            r == Self::spec_default(),
    {
        MeterReading { to: None, by: None }
    }
}

/// A pair of bytes as a two-element array.
pub open spec fn spec_byte_pair(a: u8, b: u8) -> [u8; 2] {
    spec_array_update(spec_array_update(spec_array_fill_for_copy_type(0u8), 0, a), 1, b)
}

fn byte_pair(a: u8, b: u8) -> (r: [u8; 2])
    ensures
        r == spec_byte_pair(a, b),
{
    let mut buf: [u8; 2] = [0u8; 2];
    buf[0] = a;
    buf[1] = b;
    proof {
        assert(buf =~= spec_byte_pair(a, b));
    }
    buf
}

/// One of three possible lines in the meter.
#[derive(Debug, Clone, Copy, PartialEq)]
pub struct Line {
    pub voltage_sags: Option<u64>,
    pub voltage_swells: Option<u64>,
    pub active_power_plus: Option<UFixedDouble>,
    pub active_power_neg: Option<UFixedDouble>,
    pub current: Option<u64>,
}

impl Line {
    pub open spec fn spec_default() -> Line {
        Line {
            voltage_sags: None,
            voltage_swells: None,
            active_power_plus: None,
            active_power_neg: None,
            current: None,
        }
    }
}

impl Default for Line {
    fn default() -> (r: Line)
        ensures
            r == Self::spec_default(),
    {
        Line {
            voltage_sags: None,
            voltage_swells: None,
            active_power_plus: None,
            active_power_neg: None,
            current: None,
        }
    }
}

/// One of 4 possible slaves to the meter.
///
/// Such as a gas meter, water meter or heat supply.
#[derive(Debug, Clone, Copy, PartialEq)]
pub struct Slave {
    pub device_type: Option<u64>,
    pub meter_reading: Option<(TST, UFixedDouble)>,
}

impl Slave {
    pub open spec fn spec_default() -> Slave {
        Slave { device_type: None, meter_reading: None }
    }
}

impl Default for Slave {
    fn default() -> (r: Slave)
        ensures
            r == Self::spec_default(),
    {
        Slave { device_type: None, meter_reading: None }
    }
}

/// The metering state surmised for a single Telegram.
#[derive(Debug, Clone, Copy, PartialEq)]
pub struct State {
    pub datetime: Option<TST>,
    pub meterreadings: [MeterReading; 2],
    pub tariff_indicator: Option<[u8; 2]>,
    pub power_delivered: Option<UFixedDouble>,
    pub power_received: Option<UFixedDouble>,
    pub power_failures: Option<u64>,
    pub long_power_failures: Option<u64>,
}

impl State {
    pub open spec fn spec_default() -> State {
        State {
            datetime: None,
            meterreadings: spec_array_fill_for_copy_type(MeterReading::spec_default()),
            tariff_indicator: None,
            power_delivered: None,
            power_received: None,
            power_failures: None,
            long_power_failures: None,
        }
    }

    /// What folding one decoded object into the snapshot yields:
    /// last-write-wins on the field the object addresses, objects of other
    /// layers ignored, a malformed tariff indicator reported.
    pub open spec fn spec_apply(s: State, o: ObisModel) -> Result<State, Error> {
        match o {
            ObisModel::DateTime(tst) => Ok(State { datetime: Some(tst), ..s }),
            ObisModel::MeterReadingTo(t, mr) => Ok(
                State {
                    meterreadings: spec_array_update(
                        s.meterreadings,
                        t.as_index(),
                        (MeterReading { to: Some(mr), ..s.meterreadings[t.as_index()] }),
                    ),
                    ..s
                },
            ),
            ObisModel::MeterReadingBy(t, mr) => Ok(
                State {
                    meterreadings: spec_array_update(
                        s.meterreadings,
                        t.as_index(),
                        (MeterReading { by: Some(mr), ..s.meterreadings[t.as_index()] }),
                    ),
                    ..s
                },
            ),
            ObisModel::TariffIndicator(ti) => if !octets_ok(ti) || octets_value(ti).len() < 2 {
                Err(Error::InvalidFormat)
            } else {
                Ok(
                    State {
                        tariff_indicator: Some(
                            spec_byte_pair(octets_value(ti)[0], octets_value(ti)[1]),
                        ),
                        ..s
                    },
                )
            },
            ObisModel::PowerDelivered(p) => Ok(State { power_delivered: Some(p), ..s }),
            ObisModel::PowerReceived(p) => Ok(State { power_received: Some(p), ..s }),
            ObisModel::PowerFailures(pf) => Ok(State { power_failures: Some(pf.0), ..s }),
            ObisModel::LongPowerFailures(lpf) => Ok(State { long_power_failures: Some(lpf.0), ..s }),
            _ => Ok(s),
        }
    }

    /// What folding a whole sequence of body lines yields, short-circuiting
    /// on the first error.
    pub open spec fn spec_fold(s: State, lines: Seq<Seq<u8>>) -> Result<State, Error>
        decreases lines.len(),
    {
        if lines.len() == 0 {
            Ok(s)
        } else {
            match spec_parse_line::<OBIS>(lines[0]) {
                Err(e) => Err(e),
                Ok(o) => match Self::spec_apply(s, o) {
                    Err(e) => Err(e),
                    Ok(s2) => Self::spec_fold(s2, lines.skip(1)),
                },
            }
        }
    }

    pub fn apply(&mut self, o: OBIS) -> (r: Result<(), Error>)
        ensures
            match Self::spec_apply(*old(self), o@) {
                Ok(s2) => r is Ok && *final(self) == s2,
                Err(e) => r == Err::<(), Error>(e) && *final(self) == *old(self),
            },
    {
        match o {
            OBIS::DateTime(tst) => {
                self.datetime = Some(tst);
            },
            OBIS::MeterReadingTo(t, mr) => {
                let i = t.index();
                let mut reading = self.meterreadings[i];
                reading.to = Some(mr);
                self.meterreadings[i] = reading;
                proof {
                    assert(final(self).meterreadings =~= spec_array_update(
                        old(self).meterreadings,
                        t.as_index(),
                        (MeterReading {
                            to: Some(mr),
                            ..old(self).meterreadings[t.as_index()]
                        }),
                    ));
                }
            },
            OBIS::MeterReadingBy(t, mr) => {
                let i = t.index();
                let mut reading = self.meterreadings[i];
                reading.by = Some(mr);
                self.meterreadings[i] = reading;
                proof {
                    assert(final(self).meterreadings =~= spec_array_update(
                        old(self).meterreadings,
                        t.as_index(),
                        (MeterReading {
                            by: Some(mr),
                            ..old(self).meterreadings[t.as_index()]
                        }),
                    ));
                }
            },
            OBIS::TariffIndicator(ti) => {
                match ti.as_octets() {
                    Err(e) => {
                        return Err(e);
                    },
                    Ok(v) => {
                        if v.len() < 2 {
                            return Err(Error::InvalidFormat);
                        }
                        self.tariff_indicator = Some(byte_pair(v[0], v[1]));
                    },
                }
            },
            OBIS::PowerDelivered(p) => {
                self.power_delivered = Some(p);
            },
            OBIS::PowerReceived(p) => {
                self.power_received = Some(p);
            },
            OBIS::PowerFailures(pf) => {
                self.power_failures = Some(pf.0);
            },
            OBIS::LongPowerFailures(lpf) => {
                self.long_power_failures = Some(lpf.0);
            },
            _ => {},
        }
        Ok(())
    }
}

impl Default for State {
    fn default() -> (r: State)
        ensures
            r == Self::spec_default(),
    {
        let reading = MeterReading::default();
        State {
            datetime: None,
            meterreadings: [reading; 2],
            tariff_indicator: None,
            power_delivered: None,
            power_received: None,
            power_failures: None,
            long_power_failures: None,
        }
    }
}

impl State {
    /// Folds every body line of the telegram, decoded through the base
    /// vocabulary, into a fresh snapshot.
    pub fn from_telegram(t: &Telegram) -> (r: Result<State, Error>)
        ensures
            r == Self::spec_fold(Self::spec_default(), split_lines(t@.body)),
    {
        let mut objects = t.objects::<OBIS>();
        let ghost all = objects@;
        let ghost lines = split_lines(t@.body);
        let mut s = State::default();
        let ghost mut done: int = 0;
        proof {
            assert(objects@ =~= all.skip(0));
            assert(lines.skip(0) =~= lines);
        }
        loop
            invariant
                lines == split_lines(t@.body),
                0 <= done <= all.len(),
                objects@ == all.skip(done),
                all.len() == lines.len(),
                forall|i: int|
                    0 <= i < all.len() ==> view_result(#[trigger] all[i]) == spec_parse_line::<
                        OBIS,
                    >(lines[i]),
                Self::spec_fold(Self::spec_default(), lines) == Self::spec_fold(
                    s,
                    lines.skip(done),
                ),
            decreases objects@.len(),
        {
            if objects.len() == 0 {
                proof {
                    assert(lines.skip(done).len() == 0);
                }
                return Ok(s);
            }
            let ghost pre = objects@;
            let item = objects.remove(0);
            proof {
                assert(objects@ =~= pre.skip(1));
                assert(pre[0] == all[done]);
                assert(lines.skip(done)[0] == lines[done]);
                assert(lines.skip(done).skip(1) =~= lines.skip(done + 1));
                assert(objects@ =~= all.skip(done + 1));
            }
            match item {
                Err(e) => {
                    return Err(e);
                },
                Ok(o) => {
                    match s.apply(o) {
                        Err(e) => {
                            return Err(e);
                        },
                        Ok(_) => {},
                    }
                },
            }
            proof {
                done = done + 1;
            }
        }
    }
}

} // verus!
