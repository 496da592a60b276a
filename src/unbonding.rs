use crate::duration::Duration;
use crate::error::QueryFault;
use vstd::prelude::*;

verus! {

/// The family of a Tendermint chain, which decides where its unbonding
/// period comes from. A standalone proof-of-stake chain has none (`None`).
#[derive(Clone, Copy, Debug, PartialEq, Eq, Structural)]
pub enum TendermintChainType {
    /// A consumer chain, whose validator set is delegated from a provider chain.
    CcvConsumer,
    /// A chain whose finality is anchored to Bitcoin checkpoints.
    Babylon,
}

/// The time between two Bitcoin blocks, in seconds.
pub const BITCOIN_BLOCK_TIME: u64 = 600;

/// The parameter query that the unbonding period is read from.
#[derive(Clone, Copy, Debug, PartialEq, Eq, Structural)]
pub enum ParamsQuery {
    /// The staking module's parameters, with an unbonding time.
    StakingParams,
    /// The consumer module's parameters, with an unbonding period.
    ConsumerParams,
    /// The Bitcoin checkpointing parameters, with a finalization timeout.
    CheckpointingParams,
}

pub open spec fn params_query_of(chain_type: Option<TendermintChainType>) -> ParamsQuery {
    match chain_type {
        None => ParamsQuery::StakingParams,
        Some(TendermintChainType::CcvConsumer) => ParamsQuery::ConsumerParams,
        Some(TendermintChainType::Babylon) => ParamsQuery::CheckpointingParams,
    }
}

/// The query that gives the unbonding period of a chain of this family.
pub fn params_query(chain_type: Option<TendermintChainType>) -> (r: ParamsQuery)
    ensures
        r == params_query_of(chain_type),
{
    match chain_type {
        None => ParamsQuery::StakingParams,
        Some(TendermintChainType::CcvConsumer) => ParamsQuery::ConsumerParams,
        Some(TendermintChainType::Babylon) => ParamsQuery::CheckpointingParams,
    }
}

impl ParamsQuery {
    /// The gRPC path of the query.
    pub fn path(&self) -> (r: &'static str)
        ensures
            *self == ParamsQuery::StakingParams ==> r@ == "/cosmos.staking.v1beta1.Query/Params"@,
            *self == ParamsQuery::ConsumerParams ==> r@
                == "/interchain_security.ccv.consumer.v1.Query/QueryParams"@,
            *self == ParamsQuery::CheckpointingParams ==> r@
                == "/babylon.btccheckpoint.v1.Query/Params"@,
    {
        match self {
            ParamsQuery::StakingParams => "/cosmos.staking.v1beta1.Query/Params",
            ParamsQuery::ConsumerParams => "/interchain_security.ccv.consumer.v1.Query/QueryParams",
            ParamsQuery::CheckpointingParams => "/babylon.btccheckpoint.v1.Query/Params",
        }
    }
}

/// A duration as the wire carries it: signed seconds and signed nanoseconds.
#[derive(Clone, Copy, Debug, PartialEq, Eq, Structural)]
pub struct ProtoDuration {
    pub seconds: i64,
    pub nanos: i32,
}

/// The parameters that a [`ParamsQuery`] returned, as far as the unbonding
/// period needs them.
#[derive(Clone, Copy, Debug, PartialEq, Eq, Structural)]
pub enum UnbondingParams {
    /// Staking or consumer parameters: their unbonding duration field.
    UnbondingTime(Option<ProtoDuration>),
    /// Checkpointing parameters: the finalization timeout, in Bitcoin blocks.
    FinalizationTimeout(u32),
}

/// The nanoseconds that a wire duration stands for, where it is non-negative.
pub open spec fn proto_duration_nanos(d: ProtoDuration) -> Result<int, QueryFault> {
    if d.seconds < 0 || d.nanos < 0 {
        Err(QueryFault::OutOfRange)
    } else {
        Ok(d.seconds * 1_000_000_000 + d.nanos)
    }
}

/// The unbonding period, in nanoseconds, that a chain of this family has
/// according to the parameters that its query returned (`None`: the response
/// held no parameters).
pub open spec fn unbonding_nanos(
    chain_type: Option<TendermintChainType>,
    params: Option<UnbondingParams>,
) -> Result<int, QueryFault> {
    match params {
        None => Err(QueryFault::MissingField),
        Some(UnbondingParams::UnbondingTime(d)) => {
            if chain_type == Some(TendermintChainType::Babylon) {
                Err(QueryFault::UnexpectedResponse)
            } else {
                match d {
                    None => Err(QueryFault::MissingField),
                    Some(d) => proto_duration_nanos(d),
                }
            }
        },
        Some(UnbondingParams::FinalizationTimeout(t)) => {
            if chain_type == Some(TendermintChainType::Babylon) {
                Ok(t * BITCOIN_BLOCK_TIME * 1_000_000_000)
            } else {
                Err(QueryFault::UnexpectedResponse)
            }
        },
    }
}

/// A wire duration as a [`Duration`]; nanoseconds of a second or more are
/// carried into the seconds.
pub fn duration_from_proto(d: ProtoDuration) -> (r: Result<Duration, QueryFault>)
    ensures
        r is Ok <==> proto_duration_nanos(d) is Ok,
        r matches Ok(v) ==> v.wf() && proto_duration_nanos(d) == Ok::<int, QueryFault>(
            v.total_nanos(),
        ),
        r matches Err(f) ==> proto_duration_nanos(d) == Err::<int, QueryFault>(f),
{
    if d.seconds < 0 || d.nanos < 0 {
        return Err(QueryFault::OutOfRange);
    }
    match Duration::new(d.seconds as u64, d.nanos as u32) {
        Some(v) => Ok(v),
        None => Err(QueryFault::OutOfRange),
    }
}

/// The unbonding period of a chain anchored to Bitcoin: not a duration that
/// the chain reports, but its checkpoint finalization timeout, a count of
/// Bitcoin blocks, times the Bitcoin block time.
pub fn anchored_unbonding_period(finalization_timeout: u32) -> (r: Duration)
    ensures
        r.wf(),
        r.seconds == finalization_timeout * BITCOIN_BLOCK_TIME,
        r.nanos == 0,
        r.total_nanos() == finalization_timeout * BITCOIN_BLOCK_TIME * 1_000_000_000,
{
    Duration::from_secs(finalization_timeout as u64 * BITCOIN_BLOCK_TIME)
}

/// The unbonding period of a chain of this family, from the parameters that
/// its [`params_query`] returned.
pub fn resolve_unbonding_period(
    chain_type: Option<TendermintChainType>,
    params: Option<UnbondingParams>,
) -> (r: Result<Duration, QueryFault>)
    ensures
        r is Ok <==> unbonding_nanos(chain_type, params) is Ok,
        r matches Ok(v) ==> v.wf() && unbonding_nanos(chain_type, params) == Ok::<
            int,
            QueryFault,
        >(v.total_nanos()),
        r matches Err(f) ==> unbonding_nanos(chain_type, params) == Err::<int, QueryFault>(f),
{
    let is_babylon = match chain_type {
        Some(TendermintChainType::Babylon) => true,
        _ => false,
    };
    match params {
        None => Err(QueryFault::MissingField),
        Some(UnbondingParams::UnbondingTime(d)) => {
            if is_babylon {
                Err(QueryFault::UnexpectedResponse)
            } else {
                match d {
                    None => Err(QueryFault::MissingField),
                    Some(d) => duration_from_proto(d),
                }
            }
        },
        Some(UnbondingParams::FinalizationTimeout(t)) => {
            if is_babylon {
                Ok(anchored_unbonding_period(t))
            } else {
                Err(QueryFault::UnexpectedResponse)
            }
        },
    }
}

} // verus!
