//! The streaming frame reader: consumes a byte sequence, finds frame
//! boundaries, and yields raw readouts, re-synchronizing after faults and
//! oversized frames.

use vstd::prelude::*;

use crate::Readout;

verus! {

/// The start marker `/` opening a frame.
pub const START_MARKER: u8 = 47;

/// The fixed capacity of a readout buffer.
pub const READOUT_CAPACITY: usize = 2048;

/// How a reader call went wrong: a fault of the byte source, or a frame
/// that exceeded the readout capacity.
#[derive(Debug)]
pub enum ReaderError<E> {
    IOError(E),
    BufferOverFlow,
}

/// What one reader step yields before padding: exhaustion of the source, a
/// source fault, an overflowing frame, or the bytes of one completed frame.
pub enum NextOutcome<E> {
    End,
    Fault(E),
    Overflow,
    Frame(Seq<u8>),
}

/// What copying a frame out of the stream `s` yields, with `buf` already
/// copied and, once the terminator was seen, `trailing` checksum characters
/// still owed.  Returns the outcome and the stream left over.
pub open spec fn spec_copy<E>(
    s: Seq<Result<u8, E>>,
    buf: Seq<u8>,
    trailing: Option<int>,
) -> (NextOutcome<E>, Seq<Result<u8, E>>)
    decreases s.len(),
{
    if s.len() == 0 {
        (NextOutcome::End, s)
    } else {
        match s[0] {
            Err(e) => (NextOutcome::Fault(e), s.skip(1)),
            Ok(b) => if buf.len() >= READOUT_CAPACITY {
                (NextOutcome::Overflow, s.skip(1))
            } else {
                match trailing {
                    None => spec_copy(
                        s.skip(1),
                        buf.push(b),
                        if b == crate::TERMINATOR {
                            Some(4)
                        } else {
                            None
                        },
                    ),
                    Some(m) => if m <= 1 {
                        (NextOutcome::Frame(buf.push(b)), s.skip(1))
                    } else {
                        spec_copy(s.skip(1), buf.push(b), Some(m - 1))
                    },
                }
            },
        }
    }
}

/// What one full reader step yields: bytes are discarded until a start
/// marker or a fault, then one frame is copied.
pub open spec fn spec_next<E>(s: Seq<Result<u8, E>>) -> (NextOutcome<E>, Seq<Result<u8, E>>)
    decreases s.len(),
{
    if s.len() == 0 {
        (NextOutcome::End, s)
    } else {
        match s[0] {
            Err(e) => (NextOutcome::Fault(e), s.skip(1)),
            Ok(b) => if b == START_MARKER {
                spec_copy(s.skip(1), seq![START_MARKER], None)
            } else {
                spec_next(s.skip(1))
            },
        }
    }
}

/// A completed frame padded with zero bytes up to the readout capacity.
pub open spec fn spec_pad(buf: Seq<u8>) -> Seq<u8>
    recommends
        buf.len() <= READOUT_CAPACITY,
{
    buf + Seq::new((READOUT_CAPACITY - buf.len()) as nat, |i: int| 0u8)
}

/// A blocking reader that turns a byte source into readouts.  The source
/// supplies a byte or an error per item.
pub struct Reader<E> {
    stream: Vec<Result<u8, E>>,
}

impl<E> Reader<E> {
    /// The part of the byte source this reader has not consumed yet.
    pub closed spec fn remaining(&self) -> Seq<Result<u8, E>> {
        self.stream@
    }

    pub fn new(stream: Vec<Result<u8, E>>) -> (r: Reader<E>)
        ensures
            r.remaining() == stream@,
    {
        Reader { stream }
    }

    /// Generates a readout by consuming the byte source until a full frame
    /// was passed.  Ignores all bytes until a start marker is spotted.
    pub fn next(&mut self) -> (r: Option<Result<Readout, ReaderError<E>>>)
        ensures
            ({
                let step = spec_next(old(self).remaining());
                &&& final(self).remaining() == step.1
                &&& match step.0 {
                    NextOutcome::End => r is None,
                    NextOutcome::Fault(e) => r matches Some(rr) && rr matches Err(re) && re matches
                        ReaderError::IOError(e2) && e2 == e,
                    NextOutcome::Overflow => r matches Some(rr) && rr matches Err(re) && re matches
                        ReaderError::BufferOverFlow,
                    NextOutcome::Frame(b) => r matches Some(rr) && rr matches Ok(ro) && ro.buffer@
                        == spec_pad(b),
                }
            }),
    {
        loop
            invariant_except_break
                spec_next(old(self).remaining()) == spec_next(self.stream@),
            ensures
                spec_next(old(self).remaining()) == spec_copy(
                    self.stream@,
                    seq![START_MARKER],
                    None::<int>,
                ),
            decreases self.stream@.len(),
        {
            if self.stream.len() == 0 {
                return None;
            }
            let ghost pre = self.stream@;
            let item = self.stream.remove(0);
            proof {
                assert(self.stream@ =~= pre.skip(1));
            }
            match item {
                Err(e) => {
                    return Some(Err(ReaderError::IOError(e)));
                },
                Ok(b) => {
                    if b == START_MARKER {
                        break;
                    }
                },
            }
        }
        let mut buffer: [u8; 2048] = [0u8; 2048];
        buffer[0] = START_MARKER;
        let mut written: usize = 1;
        let ghost mut copied: Seq<u8> = seq![START_MARKER];
        let mut trailing: Option<u8> = None;
        proof {
            assert(buffer@.subrange(0, 1) =~= copied);
        }
        loop
            invariant
                spec_next(old(self).remaining()) == spec_copy(
                    self.stream@,
                    copied,
                    match trailing {
                        None => None::<int>,
                        Some(m) => Some(m as int),
                    },
                ),
                match trailing {
                    None => true,
                    Some(m) => 1 <= m <= 4,
                },
                written == copied.len(),
                written <= READOUT_CAPACITY,
                buffer@.len() == READOUT_CAPACITY,
                buffer@.subrange(0, written as int) == copied,
                forall|k: int| written <= k < READOUT_CAPACITY ==> buffer@[k] == 0,
            decreases self.stream@.len(),
        {
            if self.stream.len() == 0 {
                return None;
            }
            let ghost pre = self.stream@;
            let item = self.stream.remove(0);
            proof {
                assert(self.stream@ =~= pre.skip(1));
            }
            match item {
                Err(e) => {
                    return Some(Err(ReaderError::IOError(e)));
                },
                Ok(b) => {
                    if written >= READOUT_CAPACITY {
                        return Some(Err(ReaderError::BufferOverFlow));
                    }
                    buffer[written] = b;
                    written = written + 1;
                    proof {
                        copied = copied.push(b);
                        assert(buffer@.subrange(0, written as int) =~= copied);
                    }
                    match trailing {
                        None => {
                            if b == crate::TERMINATOR {
                                trailing = Some(4);
                            }
                        },
                        Some(m) => {
                            if m <= 1 {
                                proof {
                                    assert(buffer@ =~= spec_pad(copied));
                                }
                                return Some(Ok(Readout { buffer }));
                            } else {
                                trailing = Some(m - 1);
                            }
                        },
                    }
                },
            }
        }
    }
}

/// No bytes or state leak across frames: a frame yielded by a reader step
/// opens with the start marker, and its bytes are exactly the bytes the
/// stream holds between that start marker and the stream left over.  A
/// step after a fault or an overflow runs on the leftover stream alone, so
/// a later well-formed frame is unaffected by what came before it.
pub proof fn lemma_frame_isolation<E>(s: Seq<Result<u8, E>>, b: Seq<u8>, rest: Seq<Result<u8, E>>)
    requires
        spec_next(s) == (NextOutcome::<E>::Frame(b), rest),
    ensures
        rest.len() < s.len(),
        rest == s.skip(s.len() - rest.len()),
        b.len() >= 1,
        b[0] == START_MARKER,
        s.len() - rest.len() - b.len() >= 0,
        forall|j: int|
            0 <= j < b.len() ==> (#[trigger] s[s.len() - rest.len() - b.len() + j]) is Ok
                && (s[s.len() - rest.len() - b.len() + j])->Ok_0 == b[j],
    decreases s.len(),
{
    if s.len() == 0 {
    } else {
        match s[0] {
            Err(_) => {},
            Ok(byte) => {
                if byte == START_MARKER {
                    lemma_frame_from_stream(s.skip(1), seq![START_MARKER], None, b, rest);
                    assert(rest =~= s.skip(s.len() - rest.len()));
                    assert(b[0] == b.subrange(0, 1)[0]);
                    assert forall|j: int| 1 <= j < b.len() implies (#[trigger] s[s.len()
                        - rest.len() - b.len() + j]) is Ok && s[s.len() - rest.len() - b.len()
                        + j]->Ok_0 == b[j] by {
                        assert(s.skip(1)[j - 1] == s[j]);
                        assert(b[1 + (j - 1)] == s.skip(1)[j - 1]->Ok_0);
                    }
                } else {
                    lemma_frame_isolation(s.skip(1), b, rest);
                    let k0 = s.len() - rest.len() - b.len();
                    assert(rest =~= s.skip(s.len() - rest.len()));
                    assert forall|j: int| 0 <= j < b.len() implies (#[trigger] s[k0 + j]) is Ok
                        && s[k0 + j]->Ok_0 == b[j] by {
                        assert(s.skip(1)[k0 - 1 + j] == s[k0 + j]);
                        assert(s.skip(1)[(s.skip(1).len() - rest.len() - b.len()) + j] is Ok);
                        assert(s.skip(1)[(s.skip(1).len() - rest.len() - b.len()) + j]->Ok_0
                            == b[j]);
                    }
                }
            },
        }
    }
}

/// A frame yielded by the copying phase is built from the bytes of the
/// consumed stream items alone, in order: nothing already in the buffer is
/// dropped and nothing else leaks in.
pub proof fn lemma_frame_from_stream<E>(
    s: Seq<Result<u8, E>>,
    buf: Seq<u8>,
    trailing: Option<int>,
    b: Seq<u8>,
    rest: Seq<Result<u8, E>>,
)
    requires
        spec_copy(s, buf, trailing) == (NextOutcome::<E>::Frame(b), rest),
    ensures
        rest.len() < s.len(),
        rest == s.skip(s.len() - rest.len()),
        b.len() == buf.len() + (s.len() - rest.len()),
        b.subrange(0, buf.len() as int) == buf,
        forall|j: int| 0 <= j < s.len() - rest.len() ==> (#[trigger] s[j]) is Ok,
        forall|j: int|
            0 <= j < s.len() - rest.len() ==> b[buf.len() + j] == (#[trigger] s[j])->Ok_0,
    decreases s.len(),
{
    if s.len() == 0 {
    } else {
        match s[0] {
            Err(_) => {},
            Ok(byte) => {
                if buf.len() >= READOUT_CAPACITY {
                } else {
                    let frame_done = trailing matches Some(m) && m <= 1;
                    if frame_done {
                        assert(b == buf.push(byte));
                        assert(rest =~= s.skip(s.len() - rest.len()));
                        assert(b.subrange(0, buf.len() as int) =~= buf);
                        assert(b[buf.len() as int] == byte);
                    } else {
                        let buf2 = buf.push(byte);
                        let tr2 = match trailing {
                            None => if byte == crate::TERMINATOR {
                                Some(4int)
                            } else {
                                None
                            },
                            Some(m) => Some(m - 1),
                        };
                        lemma_frame_from_stream(s.skip(1), buf2, tr2, b, rest);
                        let k = s.len() - rest.len();
                        assert(rest =~= s.skip(k));
                        assert(b.subrange(0, buf.len() as int) =~= buf);
                        let bl = buf.len() as int;
                        assert(b[bl] == b.subrange(0, bl + 1)[bl]);
                        assert forall|j: int| 1 <= j < k implies (#[trigger] s[j]) is Ok && b[bl
                            + j] == s[j]->Ok_0 by {
                            assert(s.skip(1)[j - 1] == s[j]);
                            assert(b[(bl + 1) + (j - 1)] == s.skip(1)[j - 1]->Ok_0);
                        }
                    }
                }
            },
        }
    }
}

} // verus!
