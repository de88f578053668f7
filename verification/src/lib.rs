//! Decoder for the periodic text telegrams of DSMR-style smart utility
//! meters: an integrity-checked frame extractor, a layered OBIS reference
//! dispatcher, a streaming frame reader, and a snapshot state reducer.

use vstd::prelude::*;

pub mod crc;
pub mod encoding;
pub mod obis;
pub mod reader;
pub mod state;
pub mod text;
pub mod types;

use crate::crc::crc16_arc;
use crate::crc::crc16_arc_of;
use crate::encoding::is_valid_utf8;
use crate::obis::spec_parse_line;
use crate::obis::view_result;
use crate::text::find_byte;
use crate::text::find_byte_from;
use crate::text::find_sep;
use crate::text::find_sep_from;
use crate::text::hex16_spec;
use crate::text::lemma_find_byte_in_range;
use crate::text::parse_hex16;
use crate::text::split_into_lines;
use crate::text::split_lines;
use crate::text::subvec;
use vstd::utf8::valid_utf8;

pub use crate::obis::Line;
pub use crate::obis::Parseable;
pub use crate::obis::Slave;
pub use crate::obis::Tariff;
pub use crate::reader::Reader;
pub use crate::reader::ReaderError;

verus! {

/// Why a telegram or one of its lines could not be decoded.
#[derive(Debug, Clone, Copy, PartialEq, Eq, Structural)]
pub enum Error {
    /// Bad text encoding, a missing delimiter, a wrong field width, an
    /// unparsable numeral, or an out-of-range channel index.
    InvalidFormat,
    /// A structurally sound frame whose recomputed digest does not match
    /// the embedded checksum.
    InvalidChecksum,
    /// A well-formed reference that no vocabulary layer defines.
    UnknownObis,
    /// A reference the dispatcher recognizes but no reducer handles.
    ObisForgotten,
}

/// The terminator `!` closing a frame's body.
pub const TERMINATOR: u8 = 33;

/// A data readout message from the metering system: one candidate frame,
/// in a buffer of the maximum size of a readout.
#[derive(Debug)]
pub struct Readout {
    pub buffer: [u8; 2048],
}

/// The mathematical shape of a validated telegram.
pub struct TelegramModel {
    pub checksum: u16,
    pub prefix: Seq<u8>,
    pub identification: Seq<u8>,
    pub body: Seq<u8>,
}

/// What validating a raw buffer yields.  The buffer must be valid text of
/// at least 16 bytes holding a terminator; the four characters after the
/// terminator must be hexadecimal digits spelling the CRC-16/ARC digest of
/// every byte up to and including the terminator; and the checksummed
/// region must split at a blank line into a header of at least five
/// characters and an object body.
pub open spec fn extract_spec(s: Seq<u8>) -> Result<TelegramModel, Error> {
    if !valid_utf8(s) {
        Err(Error::InvalidFormat)
    } else if s.len() < 16 {
        Err(Error::InvalidFormat)
    } else {
        match find_byte_from(s, TERMINATOR, 0) {
            None => Err(Error::InvalidFormat),
            Some(e) => {
                let region = s.subrange(0, e + 1);
                let post = s.subrange(e + 1, s.len() as int);
                if post.len() < 4 {
                    Err(Error::InvalidFormat)
                } else {
                    match hex16_spec(post.subrange(0, 4)) {
                        Err(_) => Err(Error::InvalidFormat),
                        Ok(given) => if given != crc16_arc_of(region) {
                            Err(Error::InvalidChecksum)
                        } else {
                            match find_sep_from(region, 0) {
                                None => Err(Error::InvalidFormat),
                                Some(ds) => {
                                    let header = region.subrange(0, ds);
                                    let data = region.subrange(ds, region.len() as int);
                                    if header.len() < 5 {
                                        Err(Error::InvalidFormat)
                                    } else if data.len() < 7 {
                                        Err(Error::InvalidFormat)
                                    } else {
                                        Ok(
                                            (TelegramModel {
                                                checksum: given,
                                                prefix: header.subrange(1, 4),
                                                identification: header.subrange(
                                                    5,
                                                    header.len() as int,
                                                ),
                                                body: data.subrange(4, data.len() - 3),
                                            }),
                                        )
                                    }
                                },
                            }
                        },
                    }
                }
            },
        }
    }
}

impl Readout {
    /// Parse the readout to an actual telegram message.
    ///
    /// Checks the integrity of the telegram by the CRC16 checksum included.
    /// Parses the prefix and identification, and allows the parsing of the
    /// COSEM objects.
    pub fn to_telegram(&self) -> (r: Result<Telegram, Error>)
        ensures
            match r {
                Ok(t) => extract_spec(self.buffer@) == Ok::<TelegramModel, Error>(t@),
                Err(e) => extract_spec(self.buffer@) == Err::<TelegramModel, Error>(e),
            },
    {
        let buf = self.buffer.as_slice();
        if !is_valid_utf8(buf) {
            return Err(Error::InvalidFormat);
        }
        if buf.len() < 16 {
            return Err(Error::InvalidFormat);
        }
        let data_end: usize = match find_byte(buf, TERMINATOR, 0) {
            None => {
                return Err(Error::InvalidFormat);
            },
            Some(j) => j,
        };
        proof {
            lemma_find_byte_in_range(buf@, TERMINATOR, 0);
        }
        if buf.len() - (data_end + 1) < 4 {
            return Err(Error::InvalidFormat);
        }
        let postfix = vstd::slice::slice_subrange(buf, data_end + 1, data_end + 5);
        proof {
            assert(postfix@ =~= buf@.subrange(data_end + 1, buf@.len() as int).subrange(0, 4));
        }
        let given: u16 = match parse_hex16(postfix) {
            Err(_) => {
                return Err(Error::InvalidFormat);
            },
            Ok(v) => v,
        };
        let region = vstd::slice::slice_subrange(buf, 0, data_end + 1);
        let computed: u16 = crc16_arc(region);
        if given != computed {
            return Err(Error::InvalidChecksum);
        }
        match find_sep(region) {
            None => Err(Error::InvalidFormat),
            Some(ds) => {
                proof {
                    crate::text::lemma_find_sep_in_range(region@, 0);
                }
                let header = vstd::slice::slice_subrange(region, 0, ds);
                let data = vstd::slice::slice_subrange(region, ds, region.len());
                if header.len() < 5 {
                    return Err(Error::InvalidFormat);
                }
                if data.len() < 7 {
                    return Err(Error::InvalidFormat);
                }
                Ok(
                    Telegram {
                        checksum: given,
                        prefix: subvec(header, 1, 4),
                        identification: subvec(header, 5, header.len()),
                        object_buffer: subvec(data, 4, data.len() - 3),
                    },
                )
            },
        }
    }
}

/// A P1 telegram from the metering system: a validated view over one
/// readout.
#[derive(Debug)]
pub struct Telegram {
    /// The verified CRC16 checksum of the telegram data.
    pub checksum: u16,
    /// The first 3 characters of the datagram.
    pub prefix: Vec<u8>,
    /// Metering system identification.
    pub identification: Vec<u8>,
    /// String buffer representing the COSEM objects.
    object_buffer: Vec<u8>,
}

impl View for Telegram {
    type V = TelegramModel;

    closed spec fn view(&self) -> TelegramModel {
        TelegramModel {
            checksum: self.checksum,
            prefix: self.prefix@,
            identification: self.identification@,
            body: self.object_buffer@,
        }
    }
}

impl Telegram {
    /// Parse the COSEM objects, one decode result per body line, through
    /// the vocabulary layer `T`.
    pub fn objects<T: Parseable>(&self) -> (r: Vec<Result<T, Error>>)
        ensures
            r@.len() == split_lines(self@.body).len(),
            forall|i: int|
                0 <= i < r@.len() ==> view_result(#[trigger] r@[i]) == spec_parse_line::<T>(
                    split_lines(self@.body)[i],
                ),
    {
        let lines = split_into_lines(self.object_buffer.as_slice());
        let mut out: Vec<Result<T, Error>> = Vec::new();
        let mut i: usize = 0;
        while i < lines.len()
            invariant
                0 <= i <= lines@.len(),
                lines.deep_view() == split_lines(self@.body),
                out@.len() == i,
                forall|k: int|
                    0 <= k < i ==> view_result(#[trigger] out@[k]) == spec_parse_line::<T>(
                        lines.deep_view()[k],
                    ),
            decreases lines@.len() - i,
        {
            proof {
                assert(lines@[i as int]@ == lines.deep_view()[i as int]);
            }
            out.push(T::parse_line(lines[i].as_slice()));
            i = i + 1;
        }
        out
    }
}

/// For any well-formed frame the embedded four-hex-digit checksum equals
/// the CRC-16/ARC digest recomputed over the bytes from the start of the
/// buffer through the terminator.
pub proof fn lemma_checksum_integrity(s: Seq<u8>, m: TelegramModel)
    requires
        extract_spec(s) == Ok::<TelegramModel, Error>(m),
    ensures
        find_byte_from(s, TERMINATOR, 0) matches Some(e) && m.checksum == crc16_arc_of(
            s.subrange(0, e + 1),
        ),
{
}

} // verus!
