use serde_json::Value;
use tendermint_bootstrap::chain_id::parse_chain_revision;
use tendermint_bootstrap::client_state::{build_client_state, trusting_period, Fraction};
use tendermint_bootstrap::consensus_state::{build_consensus_state, CommitHeader, Timestamp};
use tendermint_bootstrap::duration::Duration;
use tendermint_bootstrap::error::{BootstrapError, Query, QueryFault};
use tendermint_bootstrap::height::Height;
use tendermint_bootstrap::module::{ensure_null, Module};
use tendermint_bootstrap::unbonding::{
    anchored_unbonding_period, duration_from_proto, params_query, resolve_unbonding_period,
    ParamsQuery, ProtoDuration, TendermintChainType, UnbondingParams,
};

fn commit(height: u64) -> CommitHeader {
    CommitHeader {
        height,
        app_hash: [0xab; 32],
        next_validators_hash: [0x11; 32],
        time: Timestamp { seconds: 1_700_000_000, nanos: 123 },
    }
}

fn staking(seconds: i64, nanos: i32) -> Option<UnbondingParams> {
    Some(UnbondingParams::UnbondingTime(Some(ProtoDuration { seconds, nanos })))
}

#[test]
fn revision_after_last_dash() {
    assert_eq!(parse_chain_revision("testchain-7").unwrap(), 7);
    assert_eq!(parse_chain_revision("my-long-chain-name-12").unwrap(), 12);
    assert_eq!(parse_chain_revision("chain-0").unwrap(), 0);
    assert_eq!(parse_chain_revision("chain--1").unwrap(), 1);
    assert_eq!(parse_chain_revision("chain-+5").unwrap(), 5);
    assert_eq!(parse_chain_revision("c-18446744073709551615").unwrap(), u64::MAX);
}

#[test]
fn identifier_without_dash_is_rejected() {
    let e = parse_chain_revision("testchain7").unwrap_err();
    assert_eq!(e.found, "testchain7");
    assert!(e.source.is_none());
    assert_eq!(
        e.message(),
        "unable to parse chain id: expected format `<chain>-<revision-number>`, found `testchain7`"
    );
}

#[test]
fn identifier_with_bad_revision_is_rejected() {
    for id in ["chain-abc", "chain-", "chain-1-x", "c-18446744073709551616", "chain-1 ", "chain-1-"] {
        let e = parse_chain_revision(id).unwrap_err();
        assert_eq!(e.found, id);
        assert!(e.source.is_some());
    }
}

#[test]
fn trusting_period_of_three_weeks() {
    let t = trusting_period(Duration { seconds: 1_814_400, nanos: 0 });
    assert_eq!(t, Duration { seconds: 1_542_240, nanos: 0 });
}

#[test]
fn trusting_period_keeps_subsecond_precision() {
    assert_eq!(trusting_period(Duration { seconds: 1, nanos: 0 }), Duration { seconds: 0, nanos: 850_000_000 });
    assert_eq!(
        trusting_period(Duration { seconds: 10, nanos: 999_999_999 }),
        Duration { seconds: 9, nanos: 349_999_999 }
    );
    assert_eq!(trusting_period(Duration { seconds: 0, nanos: 1 }), Duration { seconds: 0, nanos: 0 });
    assert_eq!(trusting_period(Duration { seconds: 0, nanos: 0 }), Duration { seconds: 0, nanos: 0 });
}

#[test]
fn trusting_period_below_unbonding_period() {
    let samples = [
        Duration { seconds: 0, nanos: 1 },
        Duration { seconds: 1, nanos: 0 },
        Duration { seconds: 3_600, nanos: 7 },
        Duration { seconds: u64::MAX, nanos: 999_999_999 },
    ];
    for u in samples {
        let t = trusting_period(u);
        let total = |d: Duration| d.seconds as u128 * 1_000_000_000 + d.nanos as u128;
        assert!(total(t) < total(u));
        assert!(100 * total(t) <= 85 * total(u));
        assert!(85 * total(u) < 100 * total(t) + 100);
    }
}

#[test]
fn largest_unbonding_period() {
    let u = Duration { seconds: u64::MAX, nanos: 999_999_999 };
    let expected = (u64::MAX as u128 * 1_000_000_000 + 999_999_999) * 85 / 100;
    let t = trusting_period(u);
    assert_eq!(t.seconds as u128, expected / 1_000_000_000);
    assert_eq!(t.nanos as u128, expected % 1_000_000_000);
}

#[test]
fn duration_new_carries_nanoseconds() {
    assert_eq!(Duration::new(5, 1_500_000_000), Some(Duration { seconds: 6, nanos: 500_000_000 }));
    assert_eq!(Duration::new(u64::MAX, 999_999_999), Some(Duration { seconds: u64::MAX, nanos: 999_999_999 }));
    assert_eq!(Duration::new(u64::MAX, 1_000_000_000), None);
    assert_eq!(Duration::from_secs(600), Duration { seconds: 600, nanos: 0 });
}

#[test]
fn client_state_constants() {
    for u in [Duration { seconds: 1, nanos: 0 }, Duration { seconds: 99, nanos: 5 }] {
        let cs = build_client_state("a-1", 1, u, 10, [7; 32]);
        assert_eq!(cs.trust_level, Fraction { numerator: 1, denominator: 3 });
        assert_eq!(cs.max_clock_drift, Duration { seconds: 600, nanos: 0 });
        assert_eq!(cs.frozen_height, None);
        assert_eq!(cs.upgrade_path, vec!["upgrade".to_string(), "upgradedIBCState".to_string()]);
        assert_eq!(cs.proof_specs, vec![ics23::iavl_spec(), ics23::tendermint_spec()]);
        assert_eq!(cs.contract_address, [7; 32]);
        assert_eq!(cs.latest_height, Height { revision_number: 1, revision_height: 10 });
    }
}

#[test]
fn anchored_unbonding_period_is_six_blocks() {
    assert_eq!(anchored_unbonding_period(6), Duration { seconds: 3_600, nanos: 0 });
    assert_eq!(
        resolve_unbonding_period(
            Some(TendermintChainType::Babylon),
            Some(UnbondingParams::FinalizationTimeout(6))
        )
        .unwrap(),
        Duration { seconds: 3_600, nanos: 0 }
    );
    assert_eq!(
        anchored_unbonding_period(u32::MAX),
        Duration { seconds: u32::MAX as u64 * 600, nanos: 0 }
    );
}

#[test]
fn reported_unbonding_periods() {
    assert_eq!(
        resolve_unbonding_period(None, staking(1_814_400, 0)).unwrap(),
        Duration { seconds: 1_814_400, nanos: 0 }
    );
    assert_eq!(
        resolve_unbonding_period(Some(TendermintChainType::CcvConsumer), staking(100, 2_000_000_001)).unwrap(),
        Duration { seconds: 102, nanos: 1 }
    );
}

#[test]
fn malformed_unbonding_responses() {
    assert!(matches!(resolve_unbonding_period(None, None), Err(QueryFault::MissingField)));
    assert!(matches!(
        resolve_unbonding_period(None, Some(UnbondingParams::UnbondingTime(None))),
        Err(QueryFault::MissingField)
    ));
    assert!(matches!(resolve_unbonding_period(None, staking(-1, 0)), Err(QueryFault::OutOfRange)));
    assert!(matches!(duration_from_proto(ProtoDuration { seconds: 1, nanos: -1 }), Err(QueryFault::OutOfRange)));
    assert!(matches!(
        resolve_unbonding_period(None, Some(UnbondingParams::FinalizationTimeout(6))),
        Err(QueryFault::UnexpectedResponse)
    ));
    assert!(matches!(
        resolve_unbonding_period(Some(TendermintChainType::Babylon), staking(1, 0)),
        Err(QueryFault::UnexpectedResponse)
    ));
}

#[test]
fn queries_per_family() {
    assert_eq!(params_query(None), ParamsQuery::StakingParams);
    assert_eq!(params_query(Some(TendermintChainType::CcvConsumer)), ParamsQuery::ConsumerParams);
    assert_eq!(params_query(Some(TendermintChainType::Babylon)), ParamsQuery::CheckpointingParams);
    assert_eq!(ParamsQuery::StakingParams.path(), "/cosmos.staking.v1beta1.Query/Params");
    assert_eq!(
        ParamsQuery::ConsumerParams.path(),
        "/interchain_security.ccv.consumer.v1.Query/QueryParams"
    );
    assert_eq!(ParamsQuery::CheckpointingParams.path(), "/babylon.btccheckpoint.v1.Query/Params");
}

#[test]
fn module_reads_revision() {
    let m = Module::new("testchain-7".to_string(), None, None).unwrap();
    assert_eq!(m.chain_id, "testchain-7");
    assert_eq!(m.chain_revision, 7);
    assert_eq!(m.ibc_host_contract_address, [0; 32]);
    assert_eq!(m.make_height(100), Height { revision_number: 7, revision_height: 100 });
    let m = Module::new("x-1".to_string(), Some(TendermintChainType::CcvConsumer), Some([3; 32])).unwrap();
    assert_eq!(m.ibc_host_contract_address, [3; 32]);
    assert_eq!(m.tendermint_chain_type, Some(TendermintChainType::CcvConsumer));
    assert_eq!(Module::new("nodash".to_string(), None, None).unwrap_err().found, "nodash");
}

#[test]
fn query_heights() {
    let m = Module::new("testchain-7".to_string(), Some(TendermintChainType::Babylon), None).unwrap();
    let (q, h) = m.unbonding_query(Height { revision_number: 7, revision_height: 100 }).unwrap();
    assert_eq!(q, ParamsQuery::CheckpointingParams);
    assert_eq!(h, 100);
    assert_eq!(m.commit_query(Height { revision_number: 7, revision_height: i64::MAX as u64 }).unwrap(), i64::MAX);
    assert!(matches!(
        m.commit_query(Height { revision_number: 7, revision_height: i64::MAX as u64 + 1 }),
        Err(BootstrapError::ConnectorQuery { query: Query::Commit, fault: QueryFault::OutOfRange })
    ));
    assert!(matches!(
        m.unbonding_query(Height { revision_number: 7, revision_height: u64::MAX }),
        Err(BootstrapError::ConnectorQuery {
            query: Query::Params(ParamsQuery::CheckpointingParams),
            fault: QueryFault::OutOfRange
        })
    ));
}

#[test]
fn configuration_must_be_null() {
    let m = Module::new("testchain-7".to_string(), None, None).unwrap();
    for config in [Value::Bool(false), Value::String(String::new()), Value::from(0), Value::Array(vec![])] {
        assert!(matches!(ensure_null(&config), Err(BootstrapError::ConfigurationRejected)));
        assert!(matches!(
            m.self_client_state(&config, staking(1_814_400, 0), &commit(100)),
            Err(BootstrapError::ConfigurationRejected)
        ));
        assert!(matches!(
            m.self_consensus_state(&config, &commit(100)),
            Err(BootstrapError::ConfigurationRejected)
        ));
    }
    assert!(ensure_null(&Value::Null).is_ok());
    assert!(m.self_client_state(&Value::Null, staking(1_814_400, 0), &commit(100)).is_ok());
    assert!(m.self_consensus_state(&Value::Null, &commit(100)).is_ok());
}

#[test]
fn consensus_state_copies_header() {
    let m = Module::new("testchain-7".to_string(), None, None).unwrap();
    let c = commit(42);
    let a = m.self_consensus_state(&Value::Null, &c).unwrap();
    let b = m.self_consensus_state(&Value::Null, &c).unwrap();
    assert_eq!(a, b);
    assert_eq!(a, build_consensus_state(&c));
    assert_eq!(a.root, [0xab; 32]);
    assert_eq!(a.next_validators_hash, [0x11; 32]);
    assert_eq!(a.timestamp, Timestamp { seconds: 1_700_000_000, nanos: 123 });
}

#[test]
fn client_state_of_standard_chain() {
    let m = Module::new("testchain-7".to_string(), None, None).unwrap();
    let cs = m.self_client_state(&Value::Null, staking(1_814_400, 0), &commit(100)).unwrap();
    assert_eq!(cs.chain_id, "testchain-7");
    assert_eq!(cs.trust_level, Fraction { numerator: 1, denominator: 3 });
    assert_eq!(cs.trusting_period, Duration { seconds: 1_542_240, nanos: 0 });
    assert_eq!(cs.unbonding_period, Duration { seconds: 1_814_400, nanos: 0 });
    assert_eq!(cs.max_clock_drift, Duration { seconds: 600, nanos: 0 });
    assert_eq!(cs.frozen_height, None);
    assert_eq!(cs.latest_height, Height { revision_number: 7, revision_height: 100 });
    assert_eq!(cs.contract_address, [0; 32]);
}

#[test]
fn client_state_takes_reported_height() {
    let m = Module::new("testchain-7".to_string(), Some(TendermintChainType::Babylon), None).unwrap();
    let cs = m
        .self_client_state(&Value::Null, Some(UnbondingParams::FinalizationTimeout(6)), &commit(101))
        .unwrap();
    assert_eq!(cs.latest_height, Height { revision_number: 7, revision_height: 101 });
    assert_eq!(cs.unbonding_period, Duration { seconds: 3_600, nanos: 0 });
    assert_eq!(cs.trusting_period, Duration { seconds: 3_060, nanos: 0 });
}

#[test]
fn client_state_query_failure() {
    let m = Module::new("testchain-7".to_string(), Some(TendermintChainType::CcvConsumer), None).unwrap();
    assert!(matches!(
        m.self_client_state(&Value::Null, None, &commit(100)),
        Err(BootstrapError::ConnectorQuery {
            query: Query::Params(ParamsQuery::ConsumerParams),
            fault: QueryFault::MissingField
        })
    ));
}

#[test]
fn height_order() {
    let a = Height { revision_number: 1, revision_height: 100 };
    let b = Height { revision_number: 2, revision_height: 1 };
    assert!(a.is_before(&b));
    assert!(!b.is_before(&a));
    assert!(!a.is_before(&a));
    assert!(Height::new_with_revision(1, 5).is_before(&a));
    assert_eq!(a.height(), 100);
}
