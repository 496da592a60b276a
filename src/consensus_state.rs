use vstd::prelude::*;

verus! {

/// A point in time: seconds since the Unix epoch and the nanoseconds beyond them.
#[derive(Clone, Copy, Debug, PartialEq, Eq, Structural)]
pub struct Timestamp {
    pub seconds: i64,
    pub nanos: u32,
}

/// What the consensus state reads of the signed header at a height.
#[derive(Clone, Copy, Debug, PartialEq, Eq)]
pub struct CommitHeader {
    /// The height that the chain recorded in the header.
    pub height: u64,
    /// The hash of the application state.
    pub app_hash: [u8; 32],
    /// The hash of the validator set of the next height.
    pub next_validators_hash: [u8; 32],
    /// The time of the header.
    pub time: Timestamp,
}

/// A snapshot of the chain at one height, against which the next header is
/// verified.
#[derive(Clone, Copy, Debug, PartialEq, Eq)]
pub struct ConsensusState {
    pub root: [u8; 32],
    pub next_validators_hash: [u8; 32],
    pub timestamp: Timestamp,
}

/// The consensus state of a header: its fields copied as they are.
pub open spec fn consensus_state_of(header: CommitHeader) -> ConsensusState {
    ConsensusState {
        root: header.app_hash,
        next_validators_hash: header.next_validators_hash,
        timestamp: header.time,
    }
}

pub fn build_consensus_state(header: &CommitHeader) -> (r: ConsensusState)
    ensures
        r == consensus_state_of(*header),
{
    ConsensusState {
        root: header.app_hash,
        next_validators_hash: header.next_validators_hash,
        timestamp: header.time,
    }
}

/// Identical commit data gives identical consensus states.
pub proof fn lemma_consensus_state_deterministic(a: CommitHeader, b: CommitHeader)
    requires
        a == b,
    ensures
        consensus_state_of(a) == consensus_state_of(b),
        consensus_state_of(a).root == a.app_hash,
        consensus_state_of(a).next_validators_hash == a.next_validators_hash,
        consensus_state_of(a).timestamp == a.time,
{
}

} // verus!
