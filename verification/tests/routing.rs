//! End-to-end scenarios for the routing core: collection cycles, multi-hop
//! continuations, and the distribution step.

use asteroid_maker::asset::{AssetInfo, AssetWithLimit};
use asteroid_maker::bridge::BridgeTable;
use asteroid_maker::collect::collect;
use asteroid_maker::config::Config;
use asteroid_maker::dispatch::{distribute, swap_bridge_assets, MAX_ROUTE_DEPTH};
use asteroid_maker::error::ContractError;
use asteroid_maker::instr::Instruction;
use asteroid_maker::market::{BalanceSheet, PoolSet};

fn native(s: &str) -> AssetInfo {
    AssetInfo::Native { denom: s.to_string() }
}

fn item(s: &str) -> AssetWithLimit {
    AssetWithLimit { info: native(s), limit: None }
}

fn config() -> Config {
    Config {
        owner: "owner".to_string(),
        factory_contract: "factory".to_string(),
        asteroid_contract: "asteroid".to_string(),
        default_bridge: None,
        roids_token: native("roids"),
        max_spread: 500,
        collect_cooldown: None,
    }
}

fn table_with(entries: &[(&str, &str)]) -> BridgeTable {
    let mut t = BridgeTable::new();
    for (src, bri) in entries {
        t.insert(native(src), native(bri));
    }
    t
}

fn pools_with(pairs: &[(&str, &str)]) -> PoolSet {
    let mut p = PoolSet::new();
    for (a, b) in pairs {
        p.add(native(a), native(b));
    }
    p
}

fn balances_with(entries: &[(&str, u128)]) -> BalanceSheet {
    let mut b = BalanceSheet::new();
    for (t, amount) in entries {
        b.add(native(t), *amount);
    }
    b
}

#[test]
fn bridge_hop_then_direct_hop_completes() {
    // Token A bridges to B; B has a direct pool to the target token.
    let cfg = config();
    let table = table_with(&[("tok_a", "tok_b")]);
    let pools = pools_with(&[("tok_a", "tok_b"), ("tok_b", "roids")]);
    let balances = balances_with(&[("tok_a", 100)]);

    let (ts, instrs) =
        collect(&cfg, &table, &pools, &balances, 0, 50, &vec![item("tok_a")]).unwrap();
    assert_eq!(ts, 50);
    assert_eq!(instrs.len(), 2);
    match &instrs[0] {
        Instruction::Swap { offer, ask, amount } => {
            assert_eq!(*offer, native("tok_a"));
            assert_eq!(*ask, native("tok_b"));
            assert_eq!(*amount, 100);
        }
        _ => panic!("expected a swap"),
    }
    let bridge_set = match &instrs[1] {
        Instruction::ContinueRouting { assets, depth } => {
            assert_eq!(*depth, 1);
            assert_eq!(assets.len(), 1);
            assert_eq!(assets[0], native("tok_b"));
            assets.clone()
        }
        _ => panic!("expected a continuation"),
    };

    // The continuation swaps B straight to the target and ends with the
    // distribution step instead of a further continuation.
    let own = "maker".to_string();
    let balances2 = balances_with(&[("tok_b", 95)]);
    let instrs2 = swap_bridge_assets(
        &cfg, &table, &pools, &balances2, &own, &own, &bridge_set, 1,
    )
    .unwrap();
    assert_eq!(instrs2.len(), 2);
    match &instrs2[0] {
        Instruction::Swap { offer, ask, amount } => {
            assert_eq!(*offer, native("tok_b"));
            assert_eq!(*ask, native("roids"));
            assert_eq!(*amount, 95);
        }
        _ => panic!("expected a swap"),
    }
    assert!(matches!(instrs2[1], Instruction::Distribute));
}

#[test]
fn cooldown_blocks_then_allows() {
    let mut cfg = config();
    cfg.collect_cooldown = Some(60);
    let table = BridgeTable::new();
    let pools = pools_with(&[("tok_a", "roids")]);
    let balances = balances_with(&[("tok_a", 10)]);

    let early = collect(&cfg, &table, &pools, &balances, 1000, 1030, &vec![item("tok_a")]);
    match early {
        Err(ContractError::CooldownActive { next_collect_ts }) => {
            assert_eq!(next_collect_ts, 1060)
        }
        _ => panic!("expected the cooldown error"),
    }

    let (ts, _) =
        collect(&cfg, &table, &pools, &balances, 1000, 1061, &vec![item("tok_a")]).unwrap();
    assert_eq!(ts, 1061);
}

#[test]
fn unroutable_token_aborts_collection() {
    // Token X has no bridge entry, no default bridge, and no direct pool.
    let cfg = config();
    let table = BridgeTable::new();
    let pools = PoolSet::new();
    let balances = balances_with(&[("tok_x", 5)]);

    let r = collect(&cfg, &table, &pools, &balances, 0, 10, &vec![item("tok_x")]);
    match r {
        Err(ContractError::UnroutableToken(t)) => assert_eq!(t, native("tok_x")),
        _ => panic!("expected the unroutable-token error"),
    }
}

#[test]
fn duplicate_token_rejected() {
    let cfg = config();
    let table = BridgeTable::new();
    let pools = pools_with(&[("tok_a", "roids")]);
    let balances = balances_with(&[("tok_a", 10)]);

    let r = collect(
        &cfg,
        &table,
        &pools,
        &balances,
        0,
        10,
        &vec![item("tok_a"), item("tok_b"), item("tok_a")],
    );
    assert!(matches!(r, Err(ContractError::DuplicateAsset)));
}

#[test]
fn zero_balance_emits_no_instruction() {
    let cfg = config();
    let table = BridgeTable::new();
    let pools = pools_with(&[("tok_a", "roids")]);
    let balances = BalanceSheet::new();

    let (_, instrs) =
        collect(&cfg, &table, &pools, &balances, 0, 10, &vec![item("tok_a")]).unwrap();
    // No swap at all: only the follow-up distribution step.
    assert_eq!(instrs.len(), 1);
    assert!(matches!(instrs[0], Instruction::Distribute));
}

#[test]
fn cap_limits_the_swapped_amount() {
    let cfg = config();
    let table = BridgeTable::new();
    let pools = pools_with(&[("tok_a", "roids")]);
    let balances = balances_with(&[("tok_a", 100)]);

    let capped = AssetWithLimit { info: native("tok_a"), limit: Some(40) };
    let (_, instrs) = collect(&cfg, &table, &pools, &balances, 0, 10, &vec![capped]).unwrap();
    match &instrs[0] {
        Instruction::Swap { amount, .. } => assert_eq!(*amount, 40),
        _ => panic!("expected a swap"),
    }

    // A zero cap and a cap above the balance are both ignored.
    let zero_cap = AssetWithLimit { info: native("tok_a"), limit: Some(0) };
    let (_, instrs) = collect(&cfg, &table, &pools, &balances, 0, 10, &vec![zero_cap]).unwrap();
    match &instrs[0] {
        Instruction::Swap { amount, .. } => assert_eq!(*amount, 100),
        _ => panic!("expected a swap"),
    }
    let high_cap = AssetWithLimit { info: native("tok_a"), limit: Some(500) };
    let (_, instrs) = collect(&cfg, &table, &pools, &balances, 0, 10, &vec![high_cap]).unwrap();
    match &instrs[0] {
        Instruction::Swap { amount, .. } => assert_eq!(*amount, 100),
        _ => panic!("expected a swap"),
    }
}

#[test]
fn target_token_items_are_skipped() {
    let cfg = config();
    let table = BridgeTable::new();
    let pools = PoolSet::new();
    let balances = balances_with(&[("roids", 1000)]);

    // The target token itself is never swapped, and an unroutable pool set
    // does not matter for it.
    let (_, instrs) =
        collect(&cfg, &table, &pools, &balances, 0, 10, &vec![item("roids")]).unwrap();
    assert_eq!(instrs.len(), 1);
    assert!(matches!(instrs[0], Instruction::Distribute));
}

#[test]
fn default_bridge_is_second_choice() {
    let mut cfg = config();
    cfg.default_bridge = Some(native("luna"));
    let table = BridgeTable::new();
    // No direct pool to the target, but a pool against the default bridge.
    let pools = pools_with(&[("tok_a", "luna"), ("luna", "roids")]);
    let balances = balances_with(&[("tok_a", 7)]);

    let (_, instrs) =
        collect(&cfg, &table, &pools, &balances, 0, 10, &vec![item("tok_a")]).unwrap();
    assert_eq!(instrs.len(), 2);
    match &instrs[0] {
        Instruction::Swap { offer, ask, amount } => {
            assert_eq!(*offer, native("tok_a"));
            assert_eq!(*ask, native("luna"));
            assert_eq!(*amount, 7);
        }
        _ => panic!("expected a swap"),
    }
    match &instrs[1] {
        Instruction::ContinueRouting { assets, depth } => {
            assert_eq!(*depth, 1);
            assert_eq!(assets.len(), 1);
            assert_eq!(assets[0], native("luna"));
        }
        _ => panic!("expected a continuation"),
    }
}

#[test]
fn bridge_tokens_are_deduplicated() {
    let cfg = config();
    let table = table_with(&[("tok_a", "tok_b"), ("tok_c", "tok_b")]);
    let pools = pools_with(&[("tok_a", "tok_b"), ("tok_c", "tok_b"), ("tok_b", "roids")]);
    let balances = balances_with(&[("tok_a", 1), ("tok_c", 2)]);

    let (_, instrs) = collect(
        &cfg,
        &table,
        &pools,
        &balances,
        0,
        10,
        &vec![item("tok_a"), item("tok_c")],
    )
    .unwrap();
    // Two swaps into the same bridge token, one continuation over it.
    assert_eq!(instrs.len(), 3);
    match &instrs[2] {
        Instruction::ContinueRouting { assets, depth } => {
            assert_eq!(*depth, 1);
            assert_eq!(assets.len(), 1);
            assert_eq!(assets[0], native("tok_b"));
        }
        _ => panic!("expected a continuation"),
    }
}

#[test]
fn external_continuation_rejected() {
    let cfg = config();
    let table = BridgeTable::new();
    let pools = PoolSet::new();
    let balances = BalanceSheet::new();
    let own = "maker".to_string();
    let stranger = "someone".to_string();

    let r = swap_bridge_assets(
        &cfg,
        &table,
        &pools,
        &balances,
        &stranger,
        &own,
        &vec![native("tok_b")],
        1,
    );
    assert!(matches!(r, Err(ContractError::Unauthorized)));
}

#[test]
fn empty_continuation_is_a_noop() {
    let cfg = config();
    let table = BridgeTable::new();
    let pools = PoolSet::new();
    let balances = BalanceSheet::new();
    let own = "maker".to_string();

    let instrs =
        swap_bridge_assets(&cfg, &table, &pools, &balances, &own, &own, &vec![], 7).unwrap();
    assert!(instrs.is_empty());
}

#[test]
fn continuation_refused_at_depth_ceiling() {
    let cfg = config();
    let table = BridgeTable::new();
    let pools = pools_with(&[("tok_b", "roids")]);
    let balances = balances_with(&[("tok_b", 3)]);
    let own = "maker".to_string();

    let r = swap_bridge_assets(
        &cfg,
        &table,
        &pools,
        &balances,
        &own,
        &own,
        &vec![native("tok_b")],
        MAX_ROUTE_DEPTH,
    );
    match r {
        Err(ContractError::DepthExceeded(d)) => assert_eq!(d, MAX_ROUTE_DEPTH),
        _ => panic!("expected the depth error"),
    }

    // One hop below the ceiling, a valid path still goes through.
    let r = swap_bridge_assets(
        &cfg,
        &table,
        &pools,
        &balances,
        &own,
        &own,
        &vec![native("tok_b")],
        MAX_ROUTE_DEPTH - 1,
    );
    assert!(r.is_ok());
}

#[test]
fn continuation_with_no_progress_is_inconsistent() {
    // A continuation over a token whose balance is zero resolves to no swap
    // at all: the previous hop expected progress, so this is an error.
    let cfg = config();
    let table = BridgeTable::new();
    let pools = pools_with(&[("tok_b", "roids")]);
    let balances = BalanceSheet::new();
    let own = "maker".to_string();

    let r = swap_bridge_assets(
        &cfg,
        &table,
        &pools,
        &balances,
        &own,
        &own,
        &vec![native("tok_b")],
        1,
    );
    assert!(matches!(r, Err(ContractError::InternalInconsistency)));
}

#[test]
fn distribute_forwards_once_then_nothing() {
    let first = distribute(250);
    assert_eq!(first.len(), 1);
    match &first[0] {
        Instruction::Transfer { amount } => assert_eq!(*amount, 250),
        _ => panic!("expected a transfer"),
    }
    // After one distribution everything was forwarded: a second run over the
    // remaining (zero) balance does nothing and reports no error.
    let second = distribute(0);
    assert!(second.is_empty());
}

#[test]
fn table_entry_wins_over_default_bridge() {
    // With both a table entry and a default-bridge pool on offer, the table
    // entry decides.
    let mut cfg = config();
    cfg.default_bridge = Some(native("luna"));
    let table = table_with(&[("tok_a", "tok_b")]);
    let pools = pools_with(&[("tok_a", "tok_b"), ("tok_b", "roids"), ("tok_a", "luna")]);
    let balances = balances_with(&[("tok_a", 8)]);

    let (_, instrs) =
        collect(&cfg, &table, &pools, &balances, 0, 10, &vec![item("tok_a")]).unwrap();
    match &instrs[0] {
        Instruction::Swap { ask, .. } => assert_eq!(*ask, native("tok_b")),
        _ => panic!("expected a swap"),
    }
}

#[test]
fn bridge_entry_to_target_needs_no_continuation() {
    // A table entry that maps straight to the target token is target-bound:
    // no bridge token is produced, so the cycle ends with the distribution
    // step.
    let cfg = config();
    let table = table_with(&[("tok_a", "roids")]);
    let pools = pools_with(&[("tok_a", "roids")]);
    let balances = balances_with(&[("tok_a", 6)]);

    let (_, instrs) =
        collect(&cfg, &table, &pools, &balances, 0, 10, &vec![item("tok_a")]).unwrap();
    assert_eq!(instrs.len(), 2);
    match &instrs[0] {
        Instruction::Swap { offer, ask, amount } => {
            assert_eq!(*offer, native("tok_a"));
            assert_eq!(*ask, native("roids"));
            assert_eq!(*amount, 6);
        }
        _ => panic!("expected a swap"),
    }
    assert!(matches!(instrs[1], Instruction::Distribute));
}

#[test]
fn invalid_bridge_path_aborts_collection() {
    // A bridge entry exists but its pool has vanished: the batch aborts.
    let cfg = config();
    let table = table_with(&[("tok_a", "tok_b")]);
    let pools = PoolSet::new();
    let balances = balances_with(&[("tok_a", 4)]);

    let r = collect(&cfg, &table, &pools, &balances, 0, 10, &vec![item("tok_a")]);
    match r {
        Err(ContractError::InvalidBridge(s, b)) => {
            assert_eq!(s, native("tok_a"));
            assert_eq!(b, native("tok_b"));
        }
        _ => panic!("expected the invalid-bridge error"),
    }
}
