//! The validator's on-chain identity, stored as its canonical
//! hexadecimal text and parsed back on read.

use crate::codec::{hex_text, lemma_hex_text_value, parse_hex, parse_hex_range, push_hex};
use crate::util::copy_bytes;
use vstd::prelude::*;
use vstd::string::StrSliceExecFns;

verus! {

/// The number of bytes in an account identifier.
pub const AUTHOR_LEN: usize = 16;

/// A validator's on-chain account identifier.
#[derive(Debug, PartialEq, Eq)]
pub struct Author {
    pub bytes: Vec<u8>,
}

impl View for Author {
    type V = Seq<u8>;

    open spec fn view(&self) -> Seq<u8> {
        self.bytes@
    }
}

impl Author {
    /// The identifier is exactly [`AUTHOR_LEN`] bytes.
    pub open spec fn wf(&self) -> bool {
        self@.len() == AUTHOR_LEN
    }

    pub fn new(bytes: Vec<u8>) -> (r: Self)
        requires
            bytes@.len() == AUTHOR_LEN,
        ensures
            r@ == bytes@,
            r.wf(),
    {
        Author { bytes }
    }

    /// The canonical text form: lower-case hexadecimal, two characters
    /// per byte.
    pub fn to_text(&self) -> (r: String)
        ensures
            r@ == spec_author_text(self@),
    {
        let mut out = String::new();
        push_hex(&mut out, &self.bytes);
        out
    }

    /// Parses the canonical text form; yields nothing where the text is
    /// not exactly the hexadecimal of an identifier-sized byte string.
    pub fn from_text(s: &str) -> (r: Option<Author>)
        ensures
            match r {
                Some(a) => spec_parse_author(s@) == Some(a@) && a.wf(),
                None => spec_parse_author(s@) is None,
            },
    {
        let n = s.unicode_len();
        match parse_hex_range(s, 0, n) {
            Some(bytes) => {
                proof {
                    assert(s@.subrange(0, s@.len() as int) =~= s@);
                }
                if bytes.len() == AUTHOR_LEN {
                    Some(Author { bytes })
                } else {
                    None
                }
            },
            None => {
                proof {
                    assert(s@.subrange(0, s@.len() as int) =~= s@);
                }
                None
            },
        }
    }
}

impl Clone for Author {
    fn clone(&self) -> (r: Self)
        ensures
            r@ == self@,
    {
        Author { bytes: copy_bytes(&self.bytes) }
    }
}

/// The canonical text of an identifier: its hexadecimal, two characters
/// per byte.
pub open spec fn spec_author_text(a: Seq<u8>) -> Seq<char> {
    hex_text(a)
}

/// What parsing identifier text yields: the bytes of the hexadecimal of
/// an identifier-sized byte string, and nothing otherwise.
pub open spec fn spec_parse_author(s: Seq<char>) -> Option<Seq<u8>> {
    match parse_hex(s) {
        Some(b) => if b.len() == AUTHOR_LEN {
            Some(b)
        } else {
            None
        },
        None => None,
    }
}

/// The identifier text round-trips: rendering then parsing yields the
/// identifier unchanged.
pub proof fn lemma_author_text_round_trip(a: Seq<u8>)
    requires
        a.len() == AUTHOR_LEN,
    ensures
        spec_parse_author(spec_author_text(a)) == Some(a),
{
    lemma_hex_text_value(a);
}

} // verus!
