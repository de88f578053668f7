//! The snapshot for the extended vocabulary: adds per-line instantaneous
//! voltage over the base snapshot.

use vstd::prelude::*;
use vstd::array::spec_array_fill_for_copy_type;
use vstd::array::spec_array_update;

use crate::Error;
use crate::Telegram;
use crate::obis::dsmr5::OBIS;
use crate::obis::dsmr5::ObisModel;
use crate::obis::spec_parse_line;
use crate::obis::view_result;
use crate::state::common;
use crate::state::dsmr4;
use crate::text::split_lines;
use crate::types::UFixedDouble;

verus! {

/// One of three possible lines in the meter.
#[derive(Debug, Clone, Copy, PartialEq)]
pub struct Line {
    pub parent: dsmr4::Line,
    pub voltage: Option<UFixedDouble>,
}

impl Line {
    pub open spec fn spec_default() -> Line {
        Line { parent: dsmr4::Line::spec_default(), voltage: None }
    }

    /// What folding one extended-layer object into this line record yields.
    pub open spec fn spec_apply(li: Line, o: ObisModel) -> Result<Line, Error> {
        match o {
            ObisModel::InstantaneousVoltage(_, v) => Ok((Line { voltage: Some(v), ..li })),
            ObisModel::DSMR4(o4) => match dsmr4::Line::spec_apply(li.parent, o4) {
                Ok(p) => Ok((Line { parent: p, ..li })),
                Err(e) => Err(e),
            },
        }
    }

    pub fn apply(&mut self, o: OBIS) -> (r: Result<(), Error>)
        ensures
            match Self::spec_apply(*old(self), o@) {
                Ok(l2) => r is Ok && *final(self) == l2,
                Err(e) => r == Err::<(), Error>(e) && *final(self) == *old(self),
            },
    {
        match o {
            OBIS::InstantaneousVoltage(_, v) => {
                self.voltage = Some(v);
                Ok(())
            },
            OBIS::DSMR4(o4) => {
                match self.parent.apply(o4) {
                    Ok(_) => Ok(()),
                    Err(e) => Err(e),
                }
            },
        }
    }
}

impl Default for Line {
    fn default() -> (r: Line)
        ensures
            r == Self::spec_default(),
    {
        Line { parent: dsmr4::Line::default(), voltage: None }
    }
}

/// One of 4 possible slaves to the meter.
#[derive(Debug, Clone, Copy, PartialEq)]
pub struct Slave(pub dsmr4::Slave);

impl Slave {
    pub open spec fn spec_default() -> Slave {
        Slave(dsmr4::Slave::spec_default())
    }

    /// What folding one extended-layer object into this slave record
    /// yields: only wrapped base-layer slave objects are handled.
    pub open spec fn spec_apply(sl: Slave, o: ObisModel) -> Result<Slave, Error> {
        match o {
            ObisModel::DSMR4(o4) => match dsmr4::Slave::spec_apply(sl.0, o4) {
                Ok(p) => Ok(Slave(p)),
                Err(e) => Err(e),
            },
            _ => Err(Error::ObisForgotten),
        }
    }

    pub fn apply(&mut self, o: OBIS) -> (r: Result<(), Error>)
        ensures
            match Self::spec_apply(*old(self), o@) {
                Ok(s2) => r is Ok && *final(self) == s2,
                Err(e) => r == Err::<(), Error>(e) && *final(self) == *old(self),
            },
    {
        match o {
            OBIS::DSMR4(o4) => {
                match self.0.apply(o4) {
                    Ok(_) => Ok(()),
                    Err(e) => Err(e),
                }
            },
            _ => Err(Error::ObisForgotten),
        }
    }
}

impl Default for Slave {
    fn default() -> (r: Slave)
        ensures
            r == Self::spec_default(),
    {
        Slave(dsmr4::Slave::default())
    }
}

/// The metering state surmised for a single Telegram.
#[derive(Debug, Clone, Copy, PartialEq)]
pub struct State {
    pub parent: common::State,
    pub lines: [Line; 3],
    pub slaves: [Slave; 4],
}

impl State {
    pub open spec fn spec_default() -> State {
        State {
            parent: common::State::spec_default(),
            lines: spec_array_fill_for_copy_type(Line::spec_default()),
            slaves: spec_array_fill_for_copy_type(Slave::spec_default()),
        }
    }

    /// What folding one decoded object into the snapshot yields: objects
    /// with a line or slave association land in their array slot, wrapped
    /// base objects in the shared fields, anything else is a reducer gap.
    pub open spec fn spec_apply(s: State, o: ObisModel) -> Result<State, Error> {
        match OBIS::spec_line(o) {
            Some(l) => match Line::spec_apply(s.lines[l.as_index()], o) {
                Ok(li) => Ok((State { lines: spec_array_update(s.lines, l.as_index(), li), ..s })),
                Err(e) => Err(e),
            },
            None => match OBIS::spec_slave(o) {
                Some(sl) => match Slave::spec_apply(s.slaves[sl.as_index()], o) {
                    Ok(sv) => Ok(
                        (State { slaves: spec_array_update(s.slaves, sl.as_index(), sv), ..s }),
                    ),
                    Err(e) => Err(e),
                },
                None => match o {
                    ObisModel::DSMR4(o4) => match common::State::spec_apply(s.parent, o4) {
                        Ok(p) => Ok((State { parent: p, ..s })),
                        Err(e) => Err(e),
                    },
                    _ => Err(Error::ObisForgotten),
                },
            },
        }
    }

    pub fn apply(&mut self, o: OBIS) -> (r: Result<(), Error>)
        ensures
            match Self::spec_apply(*old(self), o@) {
                Ok(s2) => r is Ok && *final(self) == s2,
                Err(e) => r == Err::<(), Error>(e) && *final(self) == *old(self),
            },
    {
        match o.line() {
            Some(l) => {
                let i = l.index();
                let mut li = self.lines[i];
                let rr = li.apply(o);
                self.lines[i] = li;
                match rr {
                    Ok(_) => {
                        proof {
                            assert(final(self).lines =~= spec_array_update(
                                old(self).lines,
                                l.as_index(),
                                final(self).lines[l.as_index()],
                            ));
                        }
                        Ok(())
                    },
                    Err(e) => {
                        proof {
                            assert(final(self).lines =~= old(self).lines);
                        }
                        Err(e)
                    },
                }
            },
            None => {
                match o.slave() {
                    Some(sl) => {
                        let i = sl.index();
                        let mut sv = self.slaves[i];
                        let rr = sv.apply(o);
                        self.slaves[i] = sv;
                        match rr {
                            Ok(_) => {
                                proof {
                                    assert(final(self).slaves =~= spec_array_update(
                                        old(self).slaves,
                                        sl.as_index(),
                                        final(self).slaves[sl.as_index()],
                                    ));
                                }
                                Ok(())
                            },
                            Err(e) => {
                                proof {
                                    assert(final(self).slaves =~= old(self).slaves);
                                }
                                Err(e)
                            },
                        }
                    },
                    None => {
                        match o {
                            OBIS::DSMR4(o4) => {
                                match self.parent.apply(o4) {
                                    Ok(_) => Ok(()),
                                    Err(e) => Err(e),
                                }
                            },
                            _ => Err(Error::ObisForgotten),
                        }
                    },
                }
            },
        }
    }

    /// What folding a whole sequence of body lines yields, short-circuiting
    /// on the first error.
    pub open spec fn spec_fold(s: State, lines: Seq<Seq<u8>>) -> Result<State, Error>
        decreases lines.len(),
    {
        if lines.len() == 0 {
            Ok(s)
        } else {
            match spec_parse_line::<OBIS>(lines[0]) {
                Err(e) => Err(e),
                Ok(o) => match Self::spec_apply(s, o) {
                    Err(e) => Err(e),
                    Ok(s2) => Self::spec_fold(s2, lines.skip(1)),
                },
            }
        }
    }

    /// Folds every body line of the telegram, decoded through the extended
    /// vocabulary, into a fresh snapshot.
    #[verifier::rlimit(60)]
    pub fn from_telegram(t: &Telegram) -> (r: Result<State, Error>)
        ensures
            r == Self::spec_fold(Self::spec_default(), split_lines(t@.body)),
    {
        let mut objects = t.objects::<OBIS>();
        let ghost all = objects@;
        let ghost lines = split_lines(t@.body);
        let mut s = State::default();
        let ghost mut done: int = 0;
        proof {
            assert(objects@ =~= all.skip(0));
            assert(lines.skip(0) =~= lines);
        }
        loop
            invariant
                lines == split_lines(t@.body),
                0 <= done <= all.len(),
                objects@ == all.skip(done),
                all.len() == lines.len(),
                forall|i: int|
                    0 <= i < all.len() ==> view_result(#[trigger] all[i]) == spec_parse_line::<
                        OBIS,
                    >(lines[i]),
                Self::spec_fold(Self::spec_default(), lines) == Self::spec_fold(
                    s,
                    lines.skip(done),
                ),
            decreases objects@.len(),
        {
            if objects.len() == 0 {
                proof {
                    assert(lines.skip(done).len() == 0);
                }
                return Ok(s);
            }
            let ghost pre = objects@;
            let item = objects.remove(0);
            proof {
                assert(objects@ =~= pre.skip(1));
                assert(pre[0] == all[done]);
                assert(lines.skip(done)[0] == lines[done]);
                assert(lines.skip(done).skip(1) =~= lines.skip(done + 1));
                assert(objects@ =~= all.skip(done + 1));
            }
            match item {
                Err(e) => {
                    return Err(e);
                },
                Ok(o) => {
                    match s.apply(o) {
                        Err(e) => {
                            return Err(e);
                        },
                        Ok(_) => {},
                    }
                },
            }
            proof {
                done = done + 1;
            }
        }
    }
}

impl Default for State {
    fn default() -> (r: State)
        ensures
            r == Self::spec_default(),
    {
        let li = Line::default();
        let sl = Slave::default();
        State { parent: common::State::default(), lines: [li; 3], slaves: [sl; 4] }
    }
}

} // verus!
