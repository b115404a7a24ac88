//! The voting-progress record a consensus participant persists so that it
//! never signs conflicting votes after a restart.

use crate::util::copy_bytes;
use vstd::prelude::*;

verus! {

/// The mathematical content of a [`SafetyData`] record.
pub struct SafetyDataView {
    pub epoch: u64,
    pub last_voted_round: u64,
    pub preferred_round: u64,
    pub last_vote: Option<Seq<u8>>,
}

/// Voting progress: the current epoch, the last round voted in, the
/// preferred round, and the last vote cast, if any, as encoded bytes.
///
/// The store only guarantees atomic replacement; monotonicity of these
/// values is the caller's responsibility.
#[derive(Debug, PartialEq, Eq)]
pub struct SafetyData {
    pub epoch: u64,
    pub last_voted_round: u64,
    pub preferred_round: u64,
    pub last_vote: Option<Vec<u8>>,
}

impl View for SafetyData {
    type V = SafetyDataView;

    open spec fn view(&self) -> SafetyDataView {
        SafetyDataView {
            epoch: self.epoch,
            last_voted_round: self.last_voted_round,
            preferred_round: self.preferred_round,
            last_vote: match self.last_vote {
                Some(v) => Some(v@),
                None => None,
            },
        }
    }
}

impl SafetyData {
    pub fn new(
        epoch: u64,
        last_voted_round: u64,
        preferred_round: u64,
        last_vote: Option<Vec<u8>>,
    ) -> (r: Self)
        ensures
            r@ == (SafetyDataView {
                epoch,
                last_voted_round,
                preferred_round,
                last_vote: match last_vote {
                    Some(v) => Some(v@),
                    None => None,
                },
            }),
    {
        SafetyData { epoch, last_voted_round, preferred_round, last_vote }
    }
}

impl Clone for SafetyData {
    fn clone(&self) -> (r: Self)
        ensures
            r@ == self@,
    {
        SafetyData {
            epoch: self.epoch,
            last_voted_round: self.last_voted_round,
            preferred_round: self.preferred_round,
            last_vote: match &self.last_vote {
                Some(v) => Some(copy_bytes(v)),
                None => None,
            },
        }
    }
}

/// The record written by initialization: the first epoch, no round voted,
/// no preferred round, and no vote cast yet.
pub open spec fn spec_initial_safety_data() -> SafetyDataView {
    SafetyDataView { epoch: 1, last_voted_round: 0, preferred_round: 0, last_vote: None }
}

} // verus!
