use crate::chain_id::{parse_chain_revision, revision_of, ChainIdParseError};
use crate::client_state::{build_client_state, is_bootstrap_client_state, ClientState};
use crate::consensus_state::{build_consensus_state, consensus_state_of, CommitHeader, ConsensusState};
use crate::error::{BootstrapError, Query, QueryFault};
use crate::height::Height;
use crate::unbonding::{
    params_query, params_query_of, resolve_unbonding_period, unbonding_nanos, ParamsQuery,
    TendermintChainType, UnbondingParams,
};
use serde_json::Value;
use vstd::prelude::*;

verus! {

#[verifier::external_type_specification]
#[verifier::external_body]
pub struct ExValue(serde_json::Value);

/// Whether a JSON value is `null`.
pub uninterp spec fn json_is_null(v: serde_json::Value) -> bool;

/// Relies on serde_json::Value::is_null: true exactly for `Value::Null`.
pub assume_specification[ serde_json::Value::is_null ](v: &serde_json::Value) -> (r: bool)
    ensures
        r == json_is_null(*v),
;

/// Accepts only the empty (`null`) configuration: the bootstrap takes no
/// options.
pub fn ensure_null(config: &Value) -> (r: Result<(), BootstrapError>)
    ensures
        r is Ok <==> json_is_null(*config),
        r is Err ==> r == Err::<(), BootstrapError>(BootstrapError::ConfigurationRejected),
{
    if config.is_null() {
        Ok(())
    } else {
        Err(BootstrapError::ConfigurationRejected)
    }
}

/// The largest height that a query to the chain can name.
pub const MAX_QUERY_HEIGHT: u64 = 0x7fff_ffff_ffff_ffff;

/// The bootstrap of a Tendermint chain's light client: what was learnt of
/// the chain when the module was set up, fixed for its lifetime.
#[derive(Clone, Debug)]
pub struct Module {
    pub chain_id: String,
    pub chain_revision: u64,
    pub tendermint_chain_type: Option<TendermintChainType>,
    pub ibc_host_contract_address: [u8; 32],
}

impl Module {
    /// The module for the chain whose identifier is `chain_id`; its revision
    /// is read from the identifier. Without an IBC host contract the address
    /// is all zeros.
    pub fn new(
        chain_id: String,
        tendermint_chain_type: Option<TendermintChainType>,
        ibc_host_contract_address: Option<[u8; 32]>,
    ) -> (r: Result<Module, ChainIdParseError>)
        ensures
            r is Ok <==> revision_of(chain_id@) is Some,
            r matches Ok(m) ==> {
                &&& m.chain_id@ == chain_id@
                &&& Some(m.chain_revision) == revision_of(chain_id@)
                &&& m.tendermint_chain_type == tendermint_chain_type
                &&& ibc_host_contract_address matches Some(a) ==> m.ibc_host_contract_address == a
                &&& ibc_host_contract_address is None ==> m.ibc_host_contract_address@ == Seq::new(
                    32,
                    |i: int| 0u8,
                )
            },
            r matches Err(e) ==> e.found@ == chain_id@,
    {
        let chain_revision = match parse_chain_revision(chain_id.as_str()) {
            Ok(n) => n,
            Err(e) => return Err(e),
        };
        let ibc_host_contract_address = match ibc_host_contract_address {
            Some(a) => a,
            None => [0u8; 32],
        };
        Ok(Module { chain_id, chain_revision, tendermint_chain_type, ibc_host_contract_address })
    }

    /// The height `height` of this chain's revision.
    pub fn make_height(&self, height: u64) -> (r: Height)
        ensures
            r == (Height { revision_number: self.chain_revision, revision_height: height }),
    {
        Height::new_with_revision(self.chain_revision, height)
    }

    /// The parameter query that gives this chain's unbonding period at
    /// `height`, and the height to pin it to.
    pub fn unbonding_query(&self, height: Height) -> (r: Result<(ParamsQuery, i64), BootstrapError>)
        ensures
            r is Ok <==> height.revision_height <= MAX_QUERY_HEIGHT,
            r matches Ok((q, h)) ==> q == params_query_of(self.tendermint_chain_type) && h
                == height.revision_height,
            r matches Err(e) ==> e == (BootstrapError::ConnectorQuery {
                query: Query::Params(params_query_of(self.tendermint_chain_type)),
                fault: QueryFault::OutOfRange,
            }),
    {
        let q = params_query(self.tendermint_chain_type);
        if height.height() > MAX_QUERY_HEIGHT {
            Err(BootstrapError::ConnectorQuery { query: Query::Params(q), fault: QueryFault::OutOfRange })
        } else {
            Ok((q, height.height() as i64))
        }
    }

    /// The height to fetch the commit at, for a bootstrap at `height`.
    pub fn commit_query(&self, height: Height) -> (r: Result<i64, BootstrapError>)
        ensures
            r is Ok <==> height.revision_height <= MAX_QUERY_HEIGHT,
            r matches Ok(h) ==> h == height.revision_height,
            r matches Err(e) ==> e == (BootstrapError::ConnectorQuery {
                query: Query::Commit,
                fault: QueryFault::OutOfRange,
            }),
    {
        if height.height() > MAX_QUERY_HEIGHT {
            Err(BootstrapError::ConnectorQuery { query: Query::Commit, fault: QueryFault::OutOfRange })
        } else {
            Ok(height.height() as i64)
        }
    }

    /// The client state to install for this chain, from the configuration
    /// (which must be `null`), the parameters that [`Module::unbonding_query`]
    /// returned, and the header of the commit at the requested height. The
    /// latest height is the one that the chain recorded in that header.
    pub fn self_client_state(
        &self,
        config: &Value,
        params: Option<UnbondingParams>,
        commit: &CommitHeader,
    ) -> (r: Result<ClientState, BootstrapError>)
        ensures
            !json_is_null(*config) ==> r == Err::<ClientState, BootstrapError>(
                BootstrapError::ConfigurationRejected,
            ),
            json_is_null(*config) ==> (r is Ok <==> unbonding_nanos(
                self.tendermint_chain_type,
                params,
            ) is Ok),
            json_is_null(*config) ==> match unbonding_nanos(self.tendermint_chain_type, params) {
                Ok(u) => r matches Ok(cs) && is_bootstrap_client_state(
                    cs,
                    self.chain_id@,
                    self.chain_revision,
                    u,
                    commit.height,
                    self.ibc_host_contract_address,
                ),
                Err(f) => r == Err::<ClientState, BootstrapError>(
                    BootstrapError::ConnectorQuery {
                        query: Query::Params(params_query_of(self.tendermint_chain_type)),
                        fault: f,
                    },
                ),
            },
    {
        match ensure_null(config) {
            Ok(()) => {},
            Err(e) => return Err(e),
        }
        let unbonding_period = match resolve_unbonding_period(self.tendermint_chain_type, params) {
            Ok(d) => d,
            Err(fault) => {
                return Err(
                    BootstrapError::ConnectorQuery {
                        query: Query::Params(params_query(self.tendermint_chain_type)),
                        fault,
                    },
                );
            },
        };
        Ok(
            build_client_state(
                self.chain_id.as_str(),
                self.chain_revision,
                unbonding_period,
                commit.height,
                self.ibc_host_contract_address,
            ),
        )
    }

    /// The consensus state of this chain at the height of `commit`, from the
    /// configuration (which must be `null`) and the header of that commit.
    pub fn self_consensus_state(&self, config: &Value, commit: &CommitHeader) -> (r: Result<
        ConsensusState,
        BootstrapError,
    >)
        ensures
            !json_is_null(*config) ==> r == Err::<ConsensusState, BootstrapError>(
                BootstrapError::ConfigurationRejected,
            ),
            json_is_null(*config) ==> r == Ok::<ConsensusState, BootstrapError>(
                consensus_state_of(*commit),
            ),
    {
        match ensure_null(config) {
            Ok(()) => {},
            Err(e) => return Err(e),
        }
        Ok(build_consensus_state(commit))
    }
}

} // verus!
