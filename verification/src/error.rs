//! The closed set of errors the store and the typed accessors report.

use crate::storage::RecordName;
use vstd::prelude::*;

verus! {

/// Every way a store operation or a typed accessor can fail.
///
/// Each variant carries the record name it concerns, except the value-type
/// mismatch, which is reported by the value itself during narrowing.
#[derive(Clone, Copy, PartialEq, Eq, Structural, Debug)]
pub enum Error {
    /// A private key is already stored under this name; importing another
    /// is refused. Initialization recognises this error on the consensus
    /// key as "store already initialized" and recovers.
    KeyAlreadyExists(RecordName),
    /// No record is stored under this name. A read before initialization
    /// reports this rather than inventing a default.
    KeyNotFound(RecordName),
    /// A key is stored under this name, but its public half does not match
    /// the requested version.
    KeyVersionNotFound(RecordName),
    /// The stored value is not of the variant the accessor expected.
    UnexpectedValueType,
    /// The stored text under this name does not parse as the expected type.
    Parse(RecordName),
}

} // verus!
