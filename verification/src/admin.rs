//! The administrative path: configuration updates and bridge-table writes.
//!
//! Both operations are restricted to the configured owner. A bridge-table
//! write is validated for cycle safety before it is stored: a self-loop is
//! rejected outright, and the path from the new bridge token must terminate
//! at the target token within the lookup bound, following the table as
//! already mutated by the earlier removals and additions of the same
//! request.

use vstd::prelude::*;
use crate::asset::{AssetInfo, TokenId};
use crate::bridge::{
    bridge_path_valid, path_ok, table_remove, table_upsert, BridgeTable,
};
use crate::config::{
    cooldown_accepted, opt_token_view, spread_accepted, Config, ConfigV,
};
use crate::error::{ContractError, ErrV};
use crate::market::PoolSet;

verus! {

/// The view of an optional address or denomination string.
pub open spec fn opt_text_view(o: Option<String>) -> Option<Seq<char>> {
    match o {
        Some(s) => Some(s@),
        None => None,
    }
}

/// The view of an optional list of bridge entries.
pub open spec fn opt_pairs_view(o: Option<Vec<(AssetInfo, AssetInfo)>>) -> Seq<
    (TokenId, TokenId),
> {
    match o {
        Some(v) => v@.map_values(|p: (AssetInfo, AssetInfo)| (p.0@, p.1@)),
        None => Seq::empty(),
    }
}

/// The view of an optional list of tokens.
pub open spec fn opt_tokens_view(o: Option<Vec<AssetInfo>>) -> Seq<TokenId> {
    match o {
        Some(v) => v.deep_view(),
        None => Seq::empty(),
    }
}

/// What a configuration update returns: the new record, or the error that
/// rejects the whole update. Only the owner may update; a supplied maximum
/// spread or cooldown outside its accepted range is rejected; every supplied
/// field replaces the stored one, the rest keep their values.
pub open spec fn update_config_spec(
    cfg: ConfigV,
    sender: Seq<char>,
    factory_contract: Option<Seq<char>>,
    default_bridge_opt: Option<TokenId>,
    max_spread: Option<u64>,
    collect_cooldown: Option<u64>,
    roids_token: Option<TokenId>,
    asteroid_contract: Option<Seq<char>>,
) -> Result<ConfigV, ErrV> {
    if sender != cfg.owner {
        Err(ErrV::Unauthorized)
    } else if max_spread matches Some(ms) && !spread_accepted(ms) {
        Err(ErrV::IncorrectMaxSpread)
    } else if collect_cooldown matches Some(cd) && !cooldown_accepted(Some(cd)) {
        Err(ErrV::IncorrectCooldown)
    } else {
        Ok(
            ConfigV {
                owner: cfg.owner,
                factory_contract: match factory_contract {
                    Some(f) => f,
                    None => cfg.factory_contract,
                },
                asteroid_contract: match asteroid_contract {
                    Some(a) => a,
                    None => cfg.asteroid_contract,
                },
                default_bridge: match default_bridge_opt {
                    Some(db) => Some(db),
                    None => cfg.default_bridge,
                },
                roids_token: match roids_token {
                    Some(rt) => rt,
                    None => cfg.roids_token,
                },
                max_spread: match max_spread {
                    Some(ms) => ms,
                    None => cfg.max_spread,
                },
                collect_cooldown: match collect_cooldown {
                    Some(cd) => Some(cd),
                    None => cfg.collect_cooldown,
                },
            },
        )
    }
}

/// Applies a configuration update, exactly as [`update_config_spec`] states.
/// On failure the caller keeps its stored record.
pub fn update_config(
    cfg: Config,
    sender: &String,
    factory_contract: Option<String>,
    default_bridge_opt: Option<AssetInfo>,
    max_spread: Option<u64>,
    collect_cooldown: Option<u64>,
    roids_token: Option<AssetInfo>,
    asteroid_contract: Option<String>,
) -> (r: Result<Config, ContractError>)
    ensures
        ({
            let s = update_config_spec(
                cfg@,
                sender@,
                opt_text_view(factory_contract),
                opt_token_view(default_bridge_opt),
                max_spread,
                collect_cooldown,
                opt_token_view(roids_token),
                opt_text_view(asteroid_contract),
            );
            match r {
                Ok(c2) => s matches Ok(sv) && c2@ == sv,
                Err(e) => s matches Err(ev) && e@ == ev,
            }
        }),
{
    let mut config = cfg;
    if !(*sender == config.owner) {
        return Err(ContractError::Unauthorized);
    }
    if let Some(ms) = max_spread {
        if !(0 < ms && ms <= crate::config::MAX_ALLOWED_SPREAD_BPS) {
            return Err(ContractError::IncorrectMaxSpread);
        }
    }
    if let Some(cd) = collect_cooldown {
        if !(crate::config::MIN_COOLDOWN_SECONDS <= cd
            && cd <= crate::config::MAX_COOLDOWN_SECONDS) {
            return Err(ContractError::IncorrectCooldown);
        }
    }
    if let Some(f) = factory_contract {
        config.factory_contract = f;
    }
    if let Some(a) = asteroid_contract {
        config.asteroid_contract = a;
    }
    if let Some(db) = default_bridge_opt {
        config.default_bridge = Some(db);
    }
    if let Some(ms) = max_spread {
        config.max_spread = ms;
    }
    if let Some(cd) = collect_cooldown {
        config.collect_cooldown = Some(cd);
    }
    if let Some(rt) = roids_token {
        config.roids_token = rt;
    }
    Ok(config)
}

/// The table after removing every listed token's entry, in list order.
pub open spec fn remove_all(
    table: Seq<(TokenId, TokenId)>,
    removes: Seq<TokenId>,
) -> Seq<(TokenId, TokenId)>
    decreases removes.len(),
{
    if removes.len() == 0 {
        table
    } else {
        table_remove(remove_all(table, removes.drop_last()), removes.last())
    }
}

/// The table after writing every listed entry in order, each validated
/// against the table as mutated so far: a self-loop, or a path that does not
/// terminate at `cfg.roids_token` within the lookup bound, rejects the whole
/// request.
pub open spec fn add_all(
    cfg: ConfigV,
    pools: Seq<(TokenId, TokenId)>,
    table: Seq<(TokenId, TokenId)>,
    adds: Seq<(TokenId, TokenId)>,
) -> Result<Seq<(TokenId, TokenId)>, ErrV>
    decreases adds.len(),
{
    if adds.len() == 0 {
        Ok(table)
    } else if adds[0].0 == adds[0].1 {
        Err(ErrV::InvalidBridge(adds[0].0, adds[0].1))
    } else if !path_ok(table, pools, adds[0].0, adds[0].1, cfg.roids_token, 0) {
        Err(ErrV::InvalidBridge(adds[0].0, adds[0].1))
    } else {
        add_all(cfg, pools, table_upsert(table, adds[0].0, adds[0].1), adds.drop_first())
    }
}

/// What a bridge-table update returns: the new table, or the error that
/// rejects the whole request. Only the owner may update; removals apply
/// first, then each addition is validated and written in order.
pub open spec fn update_bridges_spec(
    cfg: ConfigV,
    pools: Seq<(TokenId, TokenId)>,
    table: Seq<(TokenId, TokenId)>,
    sender: Seq<char>,
    adds: Seq<(TokenId, TokenId)>,
    removes: Seq<TokenId>,
) -> Result<Seq<(TokenId, TokenId)>, ErrV> {
    if sender != cfg.owner {
        Err(ErrV::Unauthorized)
    } else {
        add_all(cfg, pools, remove_all(table, removes), adds)
    }
}

/// Applies a bridge-table update, exactly as [`update_bridges_spec`] states.
/// On failure the caller keeps its stored table.
pub fn update_bridges(
    cfg: &Config,
    pools: &PoolSet,
    table: BridgeTable,
    sender: &String,
    add: &Option<Vec<(AssetInfo, AssetInfo)>>,
    remove: &Option<Vec<AssetInfo>>,
) -> (r: Result<BridgeTable, ContractError>)
    requires
        table.wf(),
    ensures
        ({
            let s = update_bridges_spec(
                cfg@,
                pools@,
                table@,
                sender@,
                opt_pairs_view(*add),
                opt_tokens_view(*remove),
            );
            match r {
                Ok(t2) => s matches Ok(sv) && t2@ == sv && t2.wf(),
                Err(e) => s matches Err(ev) && e@ == ev,
            }
        }),
{
    if !(*sender == cfg.owner) {
        return Err(ContractError::Unauthorized);
    }
    let mut t = table;
    let ghost removes_v = opt_tokens_view(*remove);
    if let Some(removes) = remove {
        let n = removes.len();
        let mut j: usize = 0;
        while j < n
            invariant
                0 <= j <= n,
                n == removes.len(),
                removes_v == removes.deep_view(),
                t.wf(),
                t@ == remove_all(table@, removes_v.take(j as int)),
            decreases n - j,
        {
            proof {
                assert(removes_v.take(j as int + 1).drop_last() =~= removes_v.take(j as int));
                assert(removes_v.take(j as int + 1).last() == removes_v[j as int]);
            }
            t.remove(&removes[j]);
            j = j + 1;
        }
        proof {
            assert(removes_v.take(n as int) =~= removes_v);
        }
    }
    proof {
        assert(t@ == remove_all(table@, removes_v));
    }
    let ghost t_base = t@;
    let ghost adds_v = opt_pairs_view(*add);
    proof {
        assert(adds_v.skip(0) =~= adds_v);
    }
    if let Some(adds) = add {
        let n = adds.len();
        let mut i: usize = 0;
        while i < n
            invariant
                0 <= i <= n,
                n == adds.len(),
                sender@ == cfg@.owner,
                adds_v == opt_pairs_view(*add),
                removes_v == opt_tokens_view(*remove),
                t_base == remove_all(table@, removes_v),
                adds_v.len() == n,
                forall|p: int| 0 <= p < n ==> adds_v[p] == (adds@[p].0@, adds@[p].1@),
                t.wf(),
                add_all(cfg@, pools@, t@, adds_v.skip(i as int)) == add_all(
                    cfg@,
                    pools@,
                    t_base,
                    adds_v,
                ),
            decreases n - i,
        {
            proof {
                assert(adds_v.skip(i as int).drop_first() =~= adds_v.skip(i as int + 1));
                assert(adds_v.skip(i as int)[0] == adds_v[i as int]);
            }
            let pair = &adds[i];
            if pair.0 == pair.1 {
                return Err(ContractError::InvalidBridge(pair.0.clone(), pair.1.clone()));
            }
            if !bridge_path_valid(&t, pools, &pair.0, &pair.1, &cfg.roids_token, 0) {
                return Err(ContractError::InvalidBridge(pair.0.clone(), pair.1.clone()));
            }
            t.insert(pair.0.clone(), pair.1.clone());
            i = i + 1;
        }
        proof {
            assert(adds_v.skip(n as int) =~= Seq::<(TokenId, TokenId)>::empty());
        }
    }
    proof {
        assert(add_all(cfg@, pools@, t@, Seq::empty()) == Ok::<_, ErrV>(t@));
    }
    Ok(t)
}

} // verus!
