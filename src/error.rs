use crate::unbonding::ParamsQuery;
use vstd::prelude::*;

verus! {

/// The round trip to the chain that failed.
#[derive(Clone, Copy, Debug, PartialEq, Eq, Structural)]
pub enum Query {
    /// A parameter query that the unbonding period is read from.
    Params(ParamsQuery),
    /// The signed header and commit at a height.
    Commit,
}

/// How a round trip to the chain failed.
#[derive(Clone, Debug)]
pub enum QueryFault {
    /// The connection or the node failed; its own words.
    Transport(String),
    /// The response lacks a field that it must hold.
    MissingField,
    /// A value is out of the range that it must lie in.
    OutOfRange,
    /// The response has the schema of another query.
    UnexpectedResponse,
}

/// Why a bootstrap call failed. There is no partial result.
#[derive(Clone, Debug)]
pub enum BootstrapError {
    /// A configuration was given to an operation that accepts none.
    ConfigurationRejected,
    /// A round trip to the chain failed.
    ConnectorQuery { query: Query, fault: QueryFault },
}

} // verus!
