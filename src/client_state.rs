use crate::duration::Duration;
use crate::height::Height;
use ics23::ProofSpec;
use vstd::prelude::*;

verus! {

#[verifier::external_type_specification]
#[verifier::external_body]
pub struct ExProofSpec(ics23::ProofSpec);

/// Relies on ics23::iavl_spec: the proof format of an IAVL store of the Cosmos SDK.
pub assume_specification[ ics23::iavl_spec ]() -> ics23::ProofSpec;

/// Relies on ics23::tendermint_spec: the proof format of the multistore that
/// commits to the IAVL stores.
pub assume_specification[ ics23::tendermint_spec ]() -> ics23::ProofSpec;

/// A ratio of two integers.
#[derive(Clone, Copy, Debug, PartialEq, Eq, Structural)]
pub struct Fraction {
    pub numerator: u64,
    pub denominator: u64,
}

/// Numerator and denominator of the share of voting power that must sign a
/// header for it to be trusted: more than a third, the fault tolerance of
/// the consensus.
pub const TRUST_LEVEL_NUMERATOR: u64 = 1;

pub const TRUST_LEVEL_DENOMINATOR: u64 = 3;

/// The trusting period is this many hundredths of the unbonding period, which
/// leaves a relayer time to update the client before evidence expires.
pub const TRUSTING_PERIOD_PERCENT: u32 = 85;

/// The clock skew tolerated between the chain and the client's host, in seconds.
pub const MAX_CLOCK_DRIFT_SECS: u64 = 600;

/// The state of a Tendermint light client, as it is installed.
#[derive(Clone, Debug)]
pub struct ClientState {
    pub chain_id: String,
    pub trust_level: Fraction,
    pub trusting_period: Duration,
    pub unbonding_period: Duration,
    pub max_clock_drift: Duration,
    pub frozen_height: Option<Height>,
    pub latest_height: Height,
    pub proof_specs: Vec<ProofSpec>,
    pub upgrade_path: Vec<String>,
    pub contract_address: [u8; 32],
}

/// The nanoseconds of the trusting period that goes with an unbonding period
/// of `unbonding` nanoseconds, rounded down.
pub open spec fn trusting_nanos(unbonding: int) -> int {
    unbonding * 85 / 100
}

/// The trusting period for an unbonding period: 85% of it, to the nanosecond
/// (rounded down).
pub fn trusting_period(unbonding_period: Duration) -> (r: Duration)
    requires
        unbonding_period.wf(),
    ensures
        r.wf(),
        r.total_nanos() == trusting_nanos(unbonding_period.total_nanos()),
{
    unbonding_period.mul_div(TRUSTING_PERIOD_PERCENT, 100)
}

/// A trusting period `t` derived from an unbonding period `u` falls short of
/// `u` wherever `u` is not zero, is 85% of `u` less under one nanosecond, and
/// its seconds and nanoseconds are exactly the decomposition of that count.
pub proof fn lemma_trusting_period_bounds(u: Duration, t: Duration)
    requires
        u.wf(),
        t.wf(),
        t.total_nanos() == trusting_nanos(u.total_nanos()),
    ensures
        u.total_nanos() > 0 ==> t.total_nanos() < u.total_nanos(),
        0 <= t.total_nanos() <= u.total_nanos(),
        100 * t.total_nanos() <= 85 * u.total_nanos(),
        85 * u.total_nanos() < 100 * t.total_nanos() + 100,
        t.seconds == t.total_nanos() / 1_000_000_000,
        t.nanos == t.total_nanos() % 1_000_000_000,
{
    let n = t.total_nanos();
    assert(t.seconds == n / 1_000_000_000 && t.nanos == n % 1_000_000_000) by (nonlinear_arith)
        requires
            n == t.seconds * 1_000_000_000 + t.nanos,
            0 <= t.nanos < 1_000_000_000,
            t.seconds >= 0,
    ;
}

/// `cs` is the client state that a bootstrap derives for chain `chain_id` at
/// block `height` of revision `revision`, with an unbonding period of
/// `unbonding` nanoseconds and the IBC host contract at `contract_address`.
pub open spec fn is_bootstrap_client_state(
    cs: ClientState,
    chain_id: Seq<char>,
    revision: u64,
    unbonding: int,
    height: u64,
    contract_address: [u8; 32],
) -> bool {
    &&& cs.chain_id@ == chain_id
    &&& cs.trust_level == Fraction { numerator: 1, denominator: 3 }
    &&& cs.unbonding_period.wf()
    &&& cs.unbonding_period.total_nanos() == unbonding
    &&& cs.trusting_period.wf()
    &&& cs.trusting_period.total_nanos() == trusting_nanos(unbonding)
    &&& cs.max_clock_drift == Duration { seconds: 600, nanos: 0 }
    &&& cs.frozen_height is None
    &&& cs.latest_height == Height { revision_number: revision, revision_height: height }
    &&& cs.proof_specs@.len() == 2
    &&& cs.upgrade_path@.len() == 2
    &&& cs.upgrade_path@[0]@ == "upgrade"@
    &&& cs.upgrade_path@[1]@ == "upgradedIBCState"@
    &&& cs.contract_address == contract_address
}

/// The client state of a freshly bootstrapped client: the chain's own data
/// and the fixed parameters of the protocol.
pub fn build_client_state(
    chain_id: &str,
    revision: u64,
    unbonding_period: Duration,
    latest_height: u64,
    contract_address: [u8; 32],
) -> (r: ClientState)
    requires
        unbonding_period.wf(),
    ensures
        is_bootstrap_client_state(
            r,
            chain_id@,
            revision,
            unbonding_period.total_nanos(),
            latest_height,
            contract_address,
        ),
        r.unbonding_period == unbonding_period,
        unbonding_period.total_nanos() > 0 ==> r.trusting_period.total_nanos()
            < r.unbonding_period.total_nanos(),
{
    let proof_specs = vec![ics23::iavl_spec(), ics23::tendermint_spec()];
    let upgrade_path = vec![String::from_str("upgrade"), String::from_str("upgradedIBCState")];
    let r = ClientState {
        chain_id: chain_id.to_string(),
        trust_level: Fraction {
            numerator: TRUST_LEVEL_NUMERATOR,
            denominator: TRUST_LEVEL_DENOMINATOR,
        },
        trusting_period: trusting_period(unbonding_period),
        unbonding_period,
        max_clock_drift: Duration::from_secs(MAX_CLOCK_DRIFT_SECS),
        frozen_height: None,
        latest_height: Height::new_with_revision(revision, latest_height),
        proof_specs,
        upgrade_path,
        contract_address,
    };
    proof {
        lemma_trusting_period_bounds(unbonding_period, r.trusting_period);
    }
    r
}

} // verus!
