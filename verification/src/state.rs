//! The persistent state, its creation, and the operation dispatcher.
//!
//! Three things survive across invocations: the configuration record, the
//! bridge table, and the last-collection timestamp. An operation takes the
//! current state together with snapshots of the external world and returns
//! the new state and the instructions to perform, or the error that aborts
//! the invocation; on an error the caller keeps its stored state, so no
//! partial effect persists.

use vstd::prelude::*;
use crate::admin::{
    opt_pairs_view, opt_text_view, opt_tokens_view, update_bridges, update_bridges_spec,
    update_config, update_config_spec,
};
use crate::asset::{Asset, AssetV, TokenId};
use crate::bridge::{table_wf, BridgeTable};
use crate::collect::{collect, collect_spec};
use crate::config::{
    cooldown_accepted, opt_token_view, spread_accepted, Config, ConfigV, DEFAULT_MAX_SPREAD_BPS,
};
use crate::dispatch::{continue_spec, distribute_amount, distribute_roids, swap_bridge_assets};
use crate::error::{ContractError, ErrV};
use crate::instr::{InstrV, Instruction};
use crate::market::{balance_in, BalanceSheet, PoolSet};
use crate::msgs::{
    BalancesResponse, ConfigResponse, ExecuteMsg, InstantiateMsg, InstantiateMsgV, QueryAnswer,
    QueryMsg,
};

verus! {

/// Mathematical model of a [`MakerState`].
pub ghost struct StateV {
    pub config: ConfigV,
    pub bridges: Seq<(TokenId, TokenId)>,
    pub last_collect_ts: u64,
}

/// Everything the routing core keeps across invocations.
pub struct MakerState {
    /// The configuration record.
    pub config: Config,
    /// The bridge table.
    pub bridges: BridgeTable,
    /// When the last collection cycle was accepted.
    pub last_collect_ts: u64,
}

impl View for MakerState {
    type V = StateV;

    open spec fn view(&self) -> StateV {
        StateV {
            config: self.config@,
            bridges: self.bridges@,
            last_collect_ts: self.last_collect_ts,
        }
    }
}

impl MakerState {
    /// Well-formedness: the bridge table is well-formed.
    pub open spec fn wf(&self) -> bool {
        table_wf(self@.bridges)
    }
}

/// What instantiation returns: the initial state, or the error that rejects
/// the parameters. A supplied maximum spread must be accepted (a default
/// applies when none is supplied), the cooldown must be accepted, the bridge
/// table starts empty, and the last-collection timestamp starts at the
/// current time.
pub open spec fn instantiate_spec(msg: InstantiateMsgV, now: u64) -> Result<StateV, ErrV> {
    if msg.max_spread matches Some(ms) && !spread_accepted(ms) {
        Err(ErrV::IncorrectMaxSpread)
    } else if !cooldown_accepted(msg.collect_cooldown) {
        Err(ErrV::IncorrectCooldown)
    } else {
        Ok(
            StateV {
                config: ConfigV {
                    owner: msg.owner,
                    factory_contract: msg.factory_contract,
                    asteroid_contract: msg.asteroid_contract,
                    default_bridge: msg.default_bridge,
                    roids_token: msg.roids_token,
                    max_spread: match msg.max_spread {
                        Some(ms) => ms,
                        None => DEFAULT_MAX_SPREAD_BPS,
                    },
                    collect_cooldown: msg.collect_cooldown,
                },
                bridges: Seq::empty(),
                last_collect_ts: now,
            },
        )
    }
}

/// Creates the initial state, exactly as [`instantiate_spec`] states.
pub fn instantiate(msg: InstantiateMsg, now: u64) -> (r: Result<MakerState, ContractError>)
    ensures
        ({
            let s = instantiate_spec(msg@, now);
            match r {
                Ok(st) => s matches Ok(sv) && st@ == sv && st.wf(),
                Err(e) => s matches Err(ev) && e@ == ev,
            }
        }),
{
    let max_spread = if let Some(ms) = msg.max_spread {
        if !(0 < ms && ms <= crate::config::MAX_ALLOWED_SPREAD_BPS) {
            return Err(ContractError::IncorrectMaxSpread);
        }
        ms
    } else {
        DEFAULT_MAX_SPREAD_BPS
    };
    if let Some(cd) = msg.collect_cooldown {
        if !(crate::config::MIN_COOLDOWN_SECONDS <= cd
            && cd <= crate::config::MAX_COOLDOWN_SECONDS) {
            return Err(ContractError::IncorrectCooldown);
        }
    }
    let config = Config {
        owner: msg.owner,
        factory_contract: msg.factory_contract,
        asteroid_contract: msg.asteroid_contract,
        default_bridge: msg.default_bridge,
        roids_token: msg.roids_token,
        max_spread,
        collect_cooldown: msg.collect_cooldown,
    };
    Ok(MakerState { config, bridges: BridgeTable::new(), last_collect_ts: now })
}

/// Dispatches one operation over the current state, exactly as the
/// operation's own description states: `Collect` runs the cooldown gate, the
/// duplicate guard and the planner and advances the timestamp;
/// `UpdateConfig` and `UpdateBridges` run the administrative path under
/// owner authorization; `SwapBridgeAssets` runs one continuation hop and
/// `DistributeAstro` the distribution step, both only for the system's own
/// identity. On an error the caller keeps its stored state.
pub fn execute(
    state: MakerState,
    pools: &PoolSet,
    balances: &BalanceSheet,
    sender: &String,
    self_addr: &String,
    now: u64,
    msg: ExecuteMsg,
) -> (r: Result<(MakerState, Vec<Instruction>), ContractError>)
    requires
        state.wf(),
        msg matches ExecuteMsg::Collect { .. } ==> (state.config@.collect_cooldown matches Some(
            cd,
        ) ==> state.last_collect_ts + cd <= u64::MAX),
    ensures
        r matches Ok(out) ==> out.0.wf(),
        (msg matches ExecuteMsg::Collect { assets } ==> ({
            let s = collect_spec(
                state.config@,
                state.bridges@,
                pools@,
                balances@,
                state.last_collect_ts,
                now,
                assets.deep_view(),
            );
            match r {
                Ok(out) => s matches Ok(sv) && out.0@.config == state.config@ && out.0@.bridges
                    == state.bridges@ && out.0@.last_collect_ts == sv.0 && out.1.deep_view()
                    == sv.1,
                Err(e) => s matches Err(ev) && e@ == ev,
            }
        })),
        (msg matches ExecuteMsg::UpdateConfig {
            factory_contract,
            basic_asset,
            max_spread,
            collect_cooldown,
            roids_token,
            asteroid_contract,
        } ==> ({
            let s = update_config_spec(
                state.config@,
                sender@,
                opt_text_view(factory_contract),
                opt_token_view(basic_asset),
                max_spread,
                collect_cooldown,
                opt_token_view(roids_token),
                opt_text_view(asteroid_contract),
            );
            match r {
                Ok(out) => s matches Ok(sv) && out.0@.config == sv && out.0@.bridges
                    == state.bridges@ && out.0@.last_collect_ts == state.last_collect_ts
                    && out.1.deep_view() == Seq::<InstrV>::empty(),
                Err(e) => s matches Err(ev) && e@ == ev,
            }
        })),
        (msg matches ExecuteMsg::UpdateBridges { add, remove } ==> ({
            let s = update_bridges_spec(
                state.config@,
                pools@,
                state.bridges@,
                sender@,
                opt_pairs_view(add),
                opt_tokens_view(remove),
            );
            match r {
                Ok(out) => s matches Ok(sv) && out.0@.bridges == sv && out.0@.config
                    == state.config@ && out.0@.last_collect_ts == state.last_collect_ts
                    && out.1.deep_view() == Seq::<InstrV>::empty(),
                Err(e) => s matches Err(ev) && e@ == ev,
            }
        })),
        (msg matches ExecuteMsg::SwapBridgeAssets { assets, depth } ==> ({
            let s = continue_spec(
                state.config@,
                state.bridges@,
                pools@,
                balances@,
                sender@,
                self_addr@,
                assets.deep_view(),
                depth,
            );
            match r {
                Ok(out) => s matches Ok(sv) && out.0@ == state@ && out.1.deep_view() == sv,
                Err(e) => s matches Err(ev) && e@ == ev,
            }
        })),
        (msg matches ExecuteMsg::DistributeAstro {  } ==> ({
            let held = balance_in(balances@, state.config@.roids_token);
            match r {
                Ok(out) => sender@ == self_addr@ && out.0@ == state@ && out.1.deep_view() == (
                match distribute_amount(held) {
                    Some(a) => seq![InstrV::Transfer { amount: a }],
                    None => Seq::<InstrV>::empty(),
                }),
                Err(e) => sender@ != self_addr@ && e@ == ErrV::Unauthorized,
            }
        })),
{
    match msg {
        ExecuteMsg::Collect { assets } => {
            match collect(
                &state.config,
                &state.bridges,
                pools,
                balances,
                state.last_collect_ts,
                now,
                &assets,
            ) {
                Ok((ts, instrs)) => Ok(
                    (
                        MakerState {
                            config: state.config,
                            bridges: state.bridges,
                            last_collect_ts: ts,
                        },
                        instrs,
                    ),
                ),
                Err(e) => Err(e),
            }
        },
        ExecuteMsg::UpdateConfig {
            factory_contract,
            basic_asset,
            max_spread,
            collect_cooldown,
            roids_token,
            asteroid_contract,
        } => {
            match update_config(
                state.config,
                sender,
                factory_contract,
                basic_asset,
                max_spread,
                collect_cooldown,
                roids_token,
                asteroid_contract,
            ) {
                Ok(config) => Ok(
                    (
                        MakerState {
                            config,
                            bridges: state.bridges,
                            last_collect_ts: state.last_collect_ts,
                        },
                        Vec::new(),
                    ),
                ),
                Err(e) => Err(e),
            }
        },
        ExecuteMsg::UpdateBridges { add, remove } => {
            match update_bridges(&state.config, pools, state.bridges, sender, &add, &remove) {
                Ok(bridges) => Ok(
                    (
                        MakerState {
                            config: state.config,
                            bridges,
                            last_collect_ts: state.last_collect_ts,
                        },
                        Vec::new(),
                    ),
                ),
                Err(e) => Err(e),
            }
        },
        ExecuteMsg::SwapBridgeAssets { assets, depth } => {
            match swap_bridge_assets(
                &state.config,
                &state.bridges,
                pools,
                balances,
                sender,
                self_addr,
                &assets,
                depth,
            ) {
                Ok(instrs) => Ok((state, instrs)),
                Err(e) => Err(e),
            }
        },
        ExecuteMsg::DistributeAstro {  } => {
            let held = balances.balance_of(&state.config.roids_token);
            match distribute_roids(sender, self_addr, held) {
                Ok(instrs) => Ok((state, instrs)),
                Err(e) => Err(e),
            }
        },
    }
}

/// The balances report for the listed tokens: each token with its held
/// balance, in list order, tokens with balance zero left out.
pub open spec fn nonzero_balances(assets: Seq<TokenId>, bals: Seq<(TokenId, u128)>) -> Seq<AssetV>
    decreases assets.len(),
{
    if assets.len() == 0 {
        Seq::empty()
    } else {
        let rest = nonzero_balances(assets.drop_last(), bals);
        let held = balance_in(bals, assets.last());
        if held != 0 {
            rest.push(AssetV { token: assets.last(), amount: held })
        } else {
            rest
        }
    }
}

/// Answers one read-only query: the configuration record, the non-zero
/// balances of the listed tokens, or every bridge-table entry as identifier
/// strings in table order.
pub fn query(state: &MakerState, balances: &BalanceSheet, msg: QueryMsg) -> (r: QueryAnswer)
    ensures
        (msg matches QueryMsg::Config {  } ==> (r matches QueryAnswer::Config(c) && c.owner@
            == state.config@.owner && opt_token_view(c.default_bridge)
            == state.config@.default_bridge && c.roids_token@ == state.config@.roids_token
            && c.factory_contract@ == state.config@.factory_contract && c.asteroid_contract@
            == state.config@.asteroid_contract && c.max_spread == state.config@.max_spread)),
        (msg matches QueryMsg::Balances { assets } ==> (r matches QueryAnswer::Balances(b)
            && b.balances.deep_view() == nonzero_balances(assets.deep_view(), balances@))),
        (msg matches QueryMsg::Bridges {  } ==> (r matches QueryAnswer::Bridges(list)
            && list@.len() == state.bridges@.len() && (forall|i: int|
            0 <= i < list@.len() ==> list@[i].0@ == state.bridges@[i].0.text() && list@[i].1@
                == state.bridges@[i].1.text()))),
{
    match msg {
        QueryMsg::Config {  } => {
            QueryAnswer::Config(
                ConfigResponse {
                    owner: state.config.owner.clone(),
                    default_bridge: match &state.config.default_bridge {
                        Some(db) => Some(db.clone()),
                        None => None,
                    },
                    roids_token: state.config.roids_token.clone(),
                    factory_contract: state.config.factory_contract.clone(),
                    asteroid_contract: state.config.asteroid_contract.clone(),
                    max_spread: state.config.max_spread,
                },
            )
        },
        QueryMsg::Balances { assets } => {
            let n = assets.len();
            let mut found: Vec<Asset> = Vec::new();
            let mut i: usize = 0;
            while i < n
                invariant
                    0 <= i <= n,
                    n == assets.len(),
                    found.deep_view() =~= nonzero_balances(
                        assets.deep_view().take(i as int),
                        balances@,
                    ),
                decreases n - i,
            {
                proof {
                    assert(assets.deep_view().take(i as int + 1).drop_last()
                        =~= assets.deep_view().take(i as int));
                    assert(assets.deep_view().take(i as int + 1).last() == assets.deep_view()[
                        i as int
                    ]);
                }
                let held = balances.balance_of(&assets[i]);
                if held != 0 {
                    let ghost pre = found.deep_view();
                    found.push(Asset { info: assets[i].clone(), amount: held });
                    proof {
                        assert(found.deep_view() =~= pre.push(
                            AssetV { token: assets.deep_view()[i as int], amount: held },
                        ));
                    }
                }
                i = i + 1;
            }
            proof {
                assert(assets.deep_view().take(n as int) =~= assets.deep_view());
            }
            QueryAnswer::Balances(BalancesResponse { balances: found })
        },
        QueryMsg::Bridges {  } => QueryAnswer::Bridges(state.bridges.list_entries()),
    }
}

} // verus!
