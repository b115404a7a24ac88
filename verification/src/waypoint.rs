//! The trust anchor bounding acceptable ledger history: a ledger version
//! and a digest, stored as the text `version:digest` and parsed back on
//! read.

use crate::codec::{char_digit, dec_digits, find_colon, first_colon, hex_text, is_dec_char,
    lemma_dec_digits_value, lemma_first_colon_at, lemma_hex_text_value, parse_dec, parse_dec_range,
    parse_hex, parse_hex_range, push_char, push_dec_digits, push_hex};
use crate::util::copy_bytes;
use vstd::prelude::*;
use vstd::string::StrSliceExecFns;

verus! {

/// The number of bytes in a waypoint's digest.
pub const DIGEST_LEN: usize = 32;

/// The mathematical content of a [`Waypoint`].
pub struct WaypointView {
    pub version: u64,
    pub value: Seq<u8>,
}

/// A waypoint: the ledger version it anchors and the digest of the
/// ledger state at that version.
#[derive(Debug, PartialEq, Eq)]
pub struct Waypoint {
    pub version: u64,
    pub value: Vec<u8>,
}

impl View for Waypoint {
    type V = WaypointView;

    open spec fn view(&self) -> WaypointView {
        WaypointView { version: self.version, value: self.value@ }
    }
}

impl Waypoint {
    /// The digest is exactly [`DIGEST_LEN`] bytes.
    pub open spec fn wf(&self) -> bool {
        spec_waypoint_wf(self@)
    }

    pub fn new(version: u64, value: Vec<u8>) -> (r: Self)
        requires
            value@.len() == DIGEST_LEN,
        ensures
            r@ == (WaypointView { version, value: value@ }),
            r.wf(),
    {
        Waypoint { version, value }
    }

    /// The canonical text form: the decimal version, a colon, and the
    /// lower-case hexadecimal digest.
    pub fn to_text(&self) -> (r: String)
        ensures
            r@ == spec_waypoint_text(self@),
    {
        let mut out = String::new();
        push_dec_digits(&mut out, self.version);
        push_char(&mut out, ':');
        push_hex(&mut out, &self.value);
        out
    }

    /// Parses the canonical text form; yields nothing where the text is
    /// not a decimal version, a colon, and a digest-sized hexadecimal.
    pub fn from_text(s: &str) -> (r: Option<Waypoint>)
        ensures
            match r {
                Some(w) => spec_parse_waypoint(s@) == Some(w@) && w.wf(),
                None => spec_parse_waypoint(s@) is None,
            },
    {
        let n = s.unicode_len();
        let colon = match find_colon(s) {
            Some(i) => i,
            None => {
                return None;
            },
        };
        let version = match parse_dec_range(s, 0, colon) {
            Some(v) => v,
            None => {
                return None;
            },
        };
        let value = match parse_hex_range(s, colon + 1, n) {
            Some(v) => v,
            None => {
                return None;
            },
        };
        if value.len() == DIGEST_LEN {
            Some(Waypoint { version, value })
        } else {
            None
        }
    }
}

impl Clone for Waypoint {
    fn clone(&self) -> (r: Self)
        ensures
            r@ == self@,
    {
        Waypoint { version: self.version, value: copy_bytes(&self.value) }
    }
}

impl Default for Waypoint {
    /// The waypoint of an unconfigured store: version zero and an
    /// all-zero digest.
    fn default() -> (r: Self)
        ensures
            r@ == spec_default_waypoint(),
            r.wf(),
    {
        let mut value: Vec<u8> = Vec::new();
        let mut i: usize = 0;
        while i < DIGEST_LEN
            invariant
                i <= DIGEST_LEN,
                value@ =~= Seq::new(i as nat, |j: int| 0u8),
            decreases DIGEST_LEN - i,
        {
            value.push(0u8);
            i = i + 1;
        }
        Waypoint { version: 0, value }
    }
}

pub open spec fn spec_waypoint_wf(w: WaypointView) -> bool {
    w.value.len() == DIGEST_LEN
}

/// The waypoint of an unconfigured store.
pub open spec fn spec_default_waypoint() -> WaypointView {
    WaypointView { version: 0, value: Seq::new(DIGEST_LEN as nat, |j: int| 0u8) }
}

/// The canonical text of a waypoint: decimal version, colon, hexadecimal
/// digest.
pub open spec fn spec_waypoint_text(w: WaypointView) -> Seq<char> {
    dec_digits(w.version as nat) + seq![':'] + hex_text(w.value)
}

/// What parsing waypoint text yields: the text split at its first colon,
/// with a decimal version on the left and a digest-sized hexadecimal on
/// the right, and nothing otherwise.
pub open spec fn spec_parse_waypoint(s: Seq<char>) -> Option<WaypointView> {
    let c = first_colon(s);
    if c < 0 {
        None
    } else {
        match (parse_dec(s.take(c)), parse_hex(s.skip(c + 1))) {
            (Some(version), Some(value)) => if value.len() == DIGEST_LEN {
                Some(WaypointView { version, value })
            } else {
                None
            },
            _ => None,
        }
    }
}

/// The waypoint text round-trips: rendering then parsing yields the
/// waypoint unchanged.
pub proof fn lemma_waypoint_text_round_trip(w: WaypointView)
    requires
        spec_waypoint_wf(w),
    ensures
        spec_parse_waypoint(spec_waypoint_text(w)) == Some(w),
{
    let s = spec_waypoint_text(w);
    let d = dec_digits(w.version as nat);
    let h = hex_text(w.value);
    lemma_dec_digits_value(w.version as nat);
    lemma_hex_text_value(w.value);
    let c = d.len() as int;
    assert(s[c] == ':');
    assert(forall|j: int| 0 <= j < c ==> s[j] == d[j]);
    assert(forall|j: int| 0 <= j < c ==> is_dec_char(#[trigger] s[j]));
    assert(forall|j: int| 0 <= j < c ==> s[j] != ':') by {
        assert(forall|j: int| 0 <= j < c ==> is_dec_char(#[trigger] s[j]));
        assert(char_digit(':') < 0);
    }
    lemma_first_colon_at(s, c);
    assert(s.take(c) =~= d);
    assert(s.skip(c + 1) =~= h);
    assert(parse_dec(s.take(c)) == Some(w.version));
    assert(parse_hex(s.skip(c + 1)) == Some(w.value));
}

} // verus!
