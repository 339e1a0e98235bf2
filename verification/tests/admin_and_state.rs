//! Tests of the administrative path, instantiation, the dispatcher and the
//! read-only queries.

use asteroid_maker::admin::{update_bridges, update_config};
use asteroid_maker::asset::{AssetInfo, AssetWithLimit};
use asteroid_maker::bridge::BridgeTable;
use asteroid_maker::config::{Config, DEFAULT_MAX_SPREAD_BPS};
use asteroid_maker::error::ContractError;
use asteroid_maker::instr::Instruction;
use asteroid_maker::market::{BalanceSheet, PoolSet};
use asteroid_maker::msgs::{ExecuteMsg, InstantiateMsg, QueryAnswer, QueryMsg};
use asteroid_maker::state::{execute, instantiate, query, MakerState};

fn native(s: &str) -> AssetInfo {
    AssetInfo::Native { denom: s.to_string() }
}

fn config() -> Config {
    Config {
        owner: "owner".to_string(),
        factory_contract: "factory".to_string(),
        asteroid_contract: "asteroid".to_string(),
        default_bridge: None,
        roids_token: native("roids"),
        max_spread: 500,
        collect_cooldown: None,
    }
}

fn init_msg() -> InstantiateMsg {
    InstantiateMsg {
        owner: "owner".to_string(),
        default_bridge: None,
        roids_token: native("roids"),
        factory_contract: "factory".to_string(),
        asteroid_contract: "asteroid".to_string(),
        max_spread: None,
        collect_cooldown: Some(60),
    }
}

fn pools_with(pairs: &[(&str, &str)]) -> PoolSet {
    let mut p = PoolSet::new();
    for (a, b) in pairs {
        p.add(native(a), native(b));
    }
    p
}

#[test]
fn instantiate_applies_defaults_and_limits() {
    let st = instantiate(init_msg(), 123).unwrap();
    assert_eq!(st.config.max_spread, DEFAULT_MAX_SPREAD_BPS);
    assert_eq!(st.config.collect_cooldown, Some(60));
    assert_eq!(st.last_collect_ts, 123);
    assert_eq!(st.bridges.len(), 0);

    let mut zero_spread = init_msg();
    zero_spread.max_spread = Some(0);
    assert!(matches!(
        instantiate(zero_spread, 0),
        Err(ContractError::IncorrectMaxSpread)
    ));

    let mut wide_spread = init_msg();
    wide_spread.max_spread = Some(5001);
    assert!(matches!(
        instantiate(wide_spread, 0),
        Err(ContractError::IncorrectMaxSpread)
    ));

    let mut short_cooldown = init_msg();
    short_cooldown.collect_cooldown = Some(10);
    assert!(matches!(
        instantiate(short_cooldown, 0),
        Err(ContractError::IncorrectCooldown)
    ));

    let mut long_cooldown = init_msg();
    long_cooldown.collect_cooldown = Some(601);
    assert!(matches!(
        instantiate(long_cooldown, 0),
        Err(ContractError::IncorrectCooldown)
    ));
}

#[test]
fn self_loop_bridge_rejected() {
    let cfg = config();
    let pools = pools_with(&[("tok_a", "tok_a")]);
    let owner = "owner".to_string();

    let r = update_bridges(
        &cfg,
        &pools,
        BridgeTable::new(),
        &owner,
        &Some(vec![(native("tok_a"), native("tok_a"))]),
        &None,
    );
    match r {
        Err(ContractError::InvalidBridge(s, b)) => {
            assert_eq!(s, native("tok_a"));
            assert_eq!(b, native("tok_a"));
        }
        _ => panic!("expected the invalid-bridge error"),
    }
}

#[test]
fn non_terminating_bridge_rejected() {
    let cfg = config();
    let owner = "owner".to_string();

    // The pool to the bridge exists, but nothing leads from the bridge to
    // the target token.
    let pools = pools_with(&[("tok_a", "tok_b")]);
    let r = update_bridges(
        &cfg,
        &pools,
        BridgeTable::new(),
        &owner,
        &Some(vec![(native("tok_a"), native("tok_b"))]),
        &None,
    );
    assert!(matches!(r, Err(ContractError::InvalidBridge(_, _))));

    // The first pool itself is missing.
    let no_pools = PoolSet::new();
    let r = update_bridges(
        &cfg,
        &no_pools,
        BridgeTable::new(),
        &owner,
        &Some(vec![(native("tok_a"), native("tok_b"))]),
        &None,
    );
    assert!(matches!(r, Err(ContractError::InvalidBridge(_, _))));
}

#[test]
fn bridge_chain_validates_within_bound() {
    let cfg = config();
    let owner = "owner".to_string();
    // b1 -> b2 is already on file; adding a -> b1 walks a, b1, b2, target.
    let pools = pools_with(&[
        ("tok_a", "tok_b1"),
        ("tok_b1", "tok_b2"),
        ("tok_b2", "roids"),
    ]);
    let t = update_bridges(
        &cfg,
        &pools,
        BridgeTable::new(),
        &owner,
        &Some(vec![
            (native("tok_b1"), native("tok_b2")),
            (native("tok_a"), native("tok_b1")),
        ]),
        &None,
    )
    .unwrap();
    assert_eq!(t.len(), 2);
}

#[test]
fn bridge_updates_need_the_owner() {
    let cfg = config();
    let pools = PoolSet::new();
    let stranger = "someone".to_string();
    let r = update_bridges(&cfg, &pools, BridgeTable::new(), &stranger, &None, &None);
    assert!(matches!(r, Err(ContractError::Unauthorized)));
}

#[test]
fn bridge_remove_then_readd() {
    let cfg = config();
    let owner = "owner".to_string();
    let pools = pools_with(&[("tok_a", "tok_b"), ("tok_b", "roids")]);

    let t = update_bridges(
        &cfg,
        &pools,
        BridgeTable::new(),
        &owner,
        &Some(vec![(native("tok_a"), native("tok_b"))]),
        &None,
    )
    .unwrap();
    assert_eq!(t.len(), 1);

    let t = update_bridges(
        &cfg,
        &pools,
        t,
        &owner,
        &None,
        &Some(vec![native("tok_a")]),
    )
    .unwrap();
    assert_eq!(t.len(), 0);
}

#[test]
fn config_updates_need_the_owner_and_valid_ranges() {
    let stranger = "someone".to_string();
    let r = update_config(config(), &stranger, None, None, None, None, None, None);
    assert!(matches!(r, Err(ContractError::Unauthorized)));

    let owner = "owner".to_string();
    let r = update_config(config(), &owner, None, None, Some(0), None, None, None);
    assert!(matches!(r, Err(ContractError::IncorrectMaxSpread)));

    let r = update_config(config(), &owner, None, None, None, Some(5), None, None);
    assert!(matches!(r, Err(ContractError::IncorrectCooldown)));

    let c = update_config(
        config(),
        &owner,
        Some("factory2".to_string()),
        Some(native("luna")),
        Some(1000),
        Some(120),
        None,
        None,
    )
    .unwrap();
    assert_eq!(c.factory_contract, "factory2".to_string());
    assert_eq!(c.default_bridge, Some(native("luna")));
    assert_eq!(c.max_spread, 1000);
    assert_eq!(c.collect_cooldown, Some(120));
    assert_eq!(c.owner, "owner".to_string());
    assert_eq!(c.roids_token, native("roids"));
}

#[test]
fn execute_collect_advances_the_timestamp() {
    let mut st = instantiate(init_msg(), 0).unwrap();
    let pools = pools_with(&[("tok_a", "roids")]);
    let mut balances = BalanceSheet::new();
    balances.add(native("tok_a"), 9);
    let own = "maker".to_string();
    let caller = "anyone".to_string();

    let (st2, instrs) = execute(
        st,
        &pools,
        &balances,
        &caller,
        &own,
        1000,
        ExecuteMsg::Collect {
            assets: vec![AssetWithLimit { info: native("tok_a"), limit: None }],
        },
    )
    .unwrap();
    assert_eq!(st2.last_collect_ts, 1000);
    assert_eq!(instrs.len(), 2);
    st = st2;

    // Within the cooldown window the next collection is refused and the
    // state stays as it was (the error returns nothing to store).
    let r = execute(
        st,
        &pools,
        &balances,
        &caller,
        &own,
        1030,
        ExecuteMsg::Collect { assets: vec![] },
    );
    match r {
        Err(ContractError::CooldownActive { next_collect_ts }) => {
            assert_eq!(next_collect_ts, 1060)
        }
        _ => panic!("expected the cooldown error"),
    }
}

#[test]
fn execute_distribute_requires_self() {
    let st = instantiate(init_msg(), 0).unwrap();
    let pools = PoolSet::new();
    let mut balances = BalanceSheet::new();
    balances.add(native("roids"), 77);
    let own = "maker".to_string();
    let caller = "anyone".to_string();

    let r = execute(
        st,
        &pools,
        &balances,
        &caller,
        &own,
        0,
        ExecuteMsg::DistributeAstro {},
    );
    assert!(matches!(r, Err(ContractError::Unauthorized)));

    let st = instantiate(init_msg(), 0).unwrap();
    let (_, instrs) = execute(
        st,
        &pools,
        &balances,
        &own,
        &own,
        0,
        ExecuteMsg::DistributeAstro {},
    )
    .unwrap();
    assert_eq!(instrs.len(), 1);
    match &instrs[0] {
        Instruction::Transfer { amount } => assert_eq!(*amount, 77),
        _ => panic!("expected a transfer"),
    }
}

#[test]
fn queries_report_config_balances_and_bridges() {
    let cfg = config();
    let owner = "owner".to_string();
    let pools = pools_with(&[("tok_a", "tok_b"), ("tok_b", "roids")]);
    let bridges = update_bridges(
        &cfg,
        &pools,
        BridgeTable::new(),
        &owner,
        &Some(vec![(native("tok_a"), native("tok_b"))]),
        &None,
    )
    .unwrap();
    let st = MakerState { config: cfg, bridges, last_collect_ts: 0 };

    let mut balances = BalanceSheet::new();
    balances.add(native("tok_a"), 5);
    balances.add(native("tok_b"), 0);

    match query(&st, &balances, QueryMsg::Config {}) {
        QueryAnswer::Config(c) => {
            assert_eq!(c.owner, "owner".to_string());
            assert_eq!(c.roids_token, native("roids"));
            assert_eq!(c.max_spread, 500);
        }
        _ => panic!("expected the configuration"),
    }

    match query(
        &st,
        &balances,
        QueryMsg::Balances { assets: vec![native("tok_a"), native("tok_b")] },
    ) {
        QueryAnswer::Balances(b) => {
            // The zero balance is left out.
            assert_eq!(b.balances.len(), 1);
            assert_eq!(b.balances[0].info, native("tok_a"));
            assert_eq!(b.balances[0].amount, 5);
        }
        _ => panic!("expected balances"),
    }

    match query(&st, &balances, QueryMsg::Bridges {}) {
        QueryAnswer::Bridges(list) => {
            assert_eq!(list.len(), 1);
            assert_eq!(list[0].0, "tok_a".to_string());
            assert_eq!(list[0].1, "tok_b".to_string());
        }
        _ => panic!("expected bridges"),
    }
}
