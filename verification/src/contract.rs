//! The handlers: initialization, the two state-changing invocations
//! (`Pull` and `ReceiveEntropy`), the read-only `Game` query, and the no-op
//! migration.

use vstd::prelude::*;

use crate::error::ContractError;
use crate::msg::{
    BankSend, BeaconRequest, Coin, EntropyCallbackData, Env, ExecuteMsg, GameResponse, GameResult,
    InstantiateMsg, MessageInfo, MigrateMsg, OutMsg, QueryMsg, Response,
};
use crate::state::{Game, State, Store};

verus! {

/// The gas provisioned for the beacon's callback on every request.
pub const CALLBACK_GAS_LIMIT: u64 = 100000;

/// The fixed Kujira fee-collection address, to which the configured fee of
/// every play is sent.
pub open spec fn fee_collector() -> Seq<char> {
    "kujira17xpfvakm2amg962yls6f84z3kell8c5lp3pcxh"@
}

/// Relies on `kujira::fee_address`: it returns the fixed fee-collection
/// address `kujira17xpfvakm2amg962yls6f84z3kell8c5lp3pcxh`, from no input at
/// all.
#[verifier::external_body]
fn fee_collector_address() -> (r: String)
    ensures
        r@ == fee_collector(),
{
    kujira::fee_address().into_string()
}

/// A deposit is valid when it is exactly one coin of the accepted
/// denomination, of exactly the required amount.
pub open spec fn valid_deposit(st: State, funds: Seq<Coin>) -> bool {
    &&& funds.len() == 1
    &&& funds[0].denom@ == st.token@
    &&& funds[0].amount == st.play_amount
}

/// The randomness request a `Pull` by `sender` for game `id` emits.
pub open spec fn beacon_request(st: State, env: Env, sender: String, id: u64) -> OutMsg {
    OutMsg::Beacon(BeaconRequest {
        beacon_addr: st.entropy_beacon_addr,
        callback_address: env.contract_address,
        callback_gas_limit: CALLBACK_GAS_LIMIT,
        callback_msg: EntropyCallbackData { game: id, original_sender: sender },
    })
}

/// Whether `m` is the transfer of the configured fee to the fixed
/// fee-collection address, in the accepted denomination.
pub open spec fn is_fee_transfer(m: OutMsg, st: State) -> bool {
    match m {
        OutMsg::Bank(b) => {
            &&& b.to_address@ == fee_collector()
            &&& b.denom@ == st.token@
            &&& b.amount == st.fee_amount
        },
        OutMsg::Beacon(_) => false,
    }
}

/// What a successful `Pull` reports: the new game identifier and its
/// player, the randomness request first, and the fee transfer after it
/// exactly when the configured fee is non-zero.
pub open spec fn pull_response(resp: Response, st: State, env: Env, sender: String, id: u64) -> bool {
    &&& resp.game == Some(id)
    &&& resp.player == Some(sender)
    &&& resp.result is None
    &&& resp.messages@.len() >= 1
    &&& resp.messages@[0] == beacon_request(st, env, sender, id)
    &&& st.fee_amount == 0 ==> resp.messages@.len() == 1
    &&& st.fee_amount != 0 ==> resp.messages@.len() == 2 && is_fee_transfer(resp.messages@[1], st)
}

/// Everything a `Pull` does. On a valid deposit it appends one pending game
/// owned by the caller, moves the counter up by exactly one, and succeeds
/// with `pull_response`; on any other deposit it fails with
/// `InvalidDeposit` and changes nothing.
pub open spec fn pull_post(
    pre: Store,
    post: Store,
    env: Env,
    info: MessageInfo,
    r: Result<Response, ContractError>,
) -> bool {
    &&& post.state == pre.state
    &&& if valid_deposit(pre.state, info.funds@) {
        &&& post.idx == pre.idx + 1
        &&& post.games@ == pre.games@.push(Game::pending(info.sender))
        &&& r matches Ok(resp) && pull_response(resp, pre.state, env, info.sender, pre.idx)
    } else {
        &&& r == Err::<Response, ContractError>(ContractError::InvalidDeposit {})
        &&& post == pre
    }
}

/// Validates the attached deposit, allocates the next game identifier,
/// persists a pending game for the caller, and emits the randomness request
/// plus, when a fee is configured, the fee transfer.
pub fn pull(store: &mut Store, env: &Env, info: &MessageInfo) -> (r: Result<
    Response,
    ContractError,
>)
    requires
        old(store).wf(),
        old(store).idx < u64::MAX,
    ensures
        final(store).wf(),
        pull_post(*old(store), *final(store), *env, *info, r),
{
    let valid = info.funds.len() == 1 && info.funds[0].denom == store.state.token
        && info.funds[0].amount == store.state.play_amount;
    if !valid {
        return Err(ContractError::InvalidDeposit {});
    }
    let idx = store.idx;
    store.games.push(Game { player: info.sender.clone(), result: None });
    store.idx = idx + 1;

    let mut messages: Vec<OutMsg> = Vec::new();
    messages.push(OutMsg::Beacon(BeaconRequest {
        beacon_addr: store.state.entropy_beacon_addr.clone(),
        callback_address: env.contract_address.clone(),
        callback_gas_limit: CALLBACK_GAS_LIMIT,
        callback_msg: EntropyCallbackData { game: idx, original_sender: info.sender.clone() },
    }));
    if store.state.fee_amount != 0 {
        messages.push(OutMsg::Bank(BankSend {
            to_address: fee_collector_address(),
            denom: store.state.token.clone(),
            amount: store.state.fee_amount,
        }));
    }
    Ok(Response {
        messages,
        game: Some(idx),
        player: Some(info.sender.clone()),
        result: None,
    })
}

/// The fee a configuration takes per play: the given amount, or zero where
/// the field is absent.
pub open spec fn fee_of(fee_amount: Option<u128>) -> u128 {
    match fee_amount {
        None => 0u128,
        Some(f) => f,
    }
}

/// Sets up a fresh store from the initialization input: the given
/// configuration, a counter at zero, and no game records.
pub fn instantiate(msg: InstantiateMsg) -> (store: Store)
    requires
        msg.play_amount > 0,
    ensures
        store.wf(),
        store.idx == 0,
        store.games@.len() == 0,
        store.state == (State {
            entropy_beacon_addr: msg.entropy_beacon_addr,
            token: msg.token,
            play_amount: msg.play_amount,
            win_amount: msg.win_amount,
            fee_amount: fee_of(msg.fee_amount),
        }),
{
    let fee: u128 = match msg.fee_amount {
        None => 0,
        Some(f) => f,
    };
    Store {
        state: State {
            entropy_beacon_addr: msg.entropy_beacon_addr,
            token: msg.token,
            play_amount: msg.play_amount,
            win_amount: msg.win_amount,
            fee_amount: fee,
        },
        idx: 0,
        games: Vec::new(),
    }
}

/// A callback is authorized when the caller is the configured randomness
/// provider and the echoed original requester is this system's own address.
pub open spec fn callback_authorized(st: State, env: Env, sender: String, requester: String) -> bool {
    &&& sender@ == st.entropy_beacon_addr@
    &&& requester@ == env.contract_address@
}

/// The record game `id` takes when it resolves with `entropy`: the player
/// stays, the result becomes the first three entropy bytes.
pub open spec fn resolved_game(pre: Store, id: u64, entropy: Seq<u8>) -> Game {
    Game { player: pre.games@[id as int].player, result: Some((entropy[0], entropy[1], entropy[2])) }
}

/// Everything a successful resolution does: game `id` takes the first three
/// entropy bytes as its result, every other record stays, and the report
/// names the game, its player, and the outcome, with the payout transfer
/// emitted exactly on a win.
pub open spec fn resolve_ok(
    pre: Store,
    post: Store,
    id: u64,
    entropy: Seq<u8>,
    r: Result<Response, ContractError>,
) -> bool {
    let won = resolved_game(pre, id, entropy).win_spec();
    &&& post.games@ == pre.games@.update(id as int, resolved_game(pre, id, entropy))
    &&& r matches Ok(resp) && {
        &&& resp.game == Some(id)
        &&& resp.player == Some(pre.games@[id as int].player)
        &&& resp.result == Some(if won { GameResult::Win } else { GameResult::Lose })
        &&& won ==> resp.messages@ == seq![
            OutMsg::Bank(BankSend {
                to_address: pre.games@[id as int].player,
                denom: pre.state.token,
                amount: pre.state.win_amount,
            }),
        ]
        &&& !won ==> resp.messages@.len() == 0
    }
}

/// Everything a `ReceiveEntropy` does. An unauthorized callback fails with
/// `Unauthorized`; an undecodable payload with `DeserializationError`; an
/// identifier no game exists for with `NotFound`; entropy of fewer than
/// three bytes with `InsufficientEntropy` — each checked in that order, and
/// each leaving the store unchanged. Otherwise the game resolves as
/// `resolve_ok` says.
pub open spec fn receive_post(
    pre: Store,
    post: Store,
    env: Env,
    sender: String,
    requester: String,
    entropy: Seq<u8>,
    msg: Option<EntropyCallbackData>,
    r: Result<Response, ContractError>,
) -> bool {
    &&& post.state == pre.state
    &&& post.idx == pre.idx
    &&& if !callback_authorized(pre.state, env, sender, requester) {
        r == Err::<Response, ContractError>(ContractError::Unauthorized {}) && post == pre
    } else {
        match msg {
            None => r == Err::<Response, ContractError>(ContractError::DeserializationError {})
                && post == pre,
            Some(data) => {
                if data.game >= pre.idx {
                    r == Err::<Response, ContractError>(ContractError::NotFound {}) && post == pre
                } else if entropy.len() < 3 {
                    r == Err::<Response, ContractError>(ContractError::InsufficientEntropy {})
                        && post == pre
                } else {
                    resolve_ok(pre, post, data.game, entropy, r)
                }
            },
        }
    }
}

/// Authenticates the randomness provider's callback, resolves the named
/// game from the first three bytes of entropy, persists the outcome, and on
/// a win emits the payout transfer to the player.
pub fn receive_entropy(
    store: &mut Store,
    env: &Env,
    info: &MessageInfo,
    requester: &String,
    entropy: &Vec<u8>,
    msg: &Option<EntropyCallbackData>,
) -> (r: Result<Response, ContractError>)
    requires
        old(store).wf(),
    ensures
        final(store).wf(),
        receive_post(
            *old(store),
            *final(store),
            *env,
            info.sender,
            *requester,
            entropy@,
            *msg,
            r,
        ),
{
    if !(info.sender == store.state.entropy_beacon_addr) {
        return Err(ContractError::Unauthorized {});
    }
    if !(*requester == env.contract_address) {
        return Err(ContractError::Unauthorized {});
    }
    match msg {
        None => Err(ContractError::DeserializationError {}),
        Some(data) => {
            if data.game >= store.idx {
                return Err(ContractError::NotFound {});
            }
            if entropy.len() < 3 {
                return Err(ContractError::InsufficientEntropy {});
            }
            let n = store.games.len();
            assert(data.game < n);
            let i = data.game as usize;
            let player = store.games[i].player.clone();
            let game = Game {
                player: player.clone(),
                result: Some((entropy[0], entropy[1], entropy[2])),
            };
            let won = game.win();
            store.games[i] = game;

            let mut messages: Vec<OutMsg> = Vec::new();
            if won {
                messages.push(OutMsg::Bank(BankSend {
                    to_address: player.clone(),
                    denom: store.state.token.clone(),
                    amount: store.state.win_amount,
                }));
            }
            Ok(Response {
                messages,
                game: Some(data.game),
                player: Some(player),
                result: Some(if won { GameResult::Win } else { GameResult::Lose }),
            })
        },
    }
}

/// Everything an `execute` call does: `Pull` as `pull_post`,
/// `ReceiveEntropy` as `receive_post`.
pub open spec fn execute_post(
    pre: Store,
    post: Store,
    env: Env,
    info: MessageInfo,
    msg: ExecuteMsg,
    r: Result<Response, ContractError>,
) -> bool {
    match msg {
        ExecuteMsg::Pull {} => pull_post(pre, post, env, info, r),
        ExecuteMsg::ReceiveEntropy { requester, entropy, msg: data } => receive_post(
            pre,
            post,
            env,
            info.sender,
            requester,
            entropy@,
            data,
            r,
        ),
    }
}

/// Dispatches a state-changing invocation to its handler.
pub fn execute(store: &mut Store, env: &Env, info: &MessageInfo, msg: ExecuteMsg) -> (r: Result<
    Response,
    ContractError,
>)
    requires
        old(store).wf(),
        old(store).idx < u64::MAX,
    ensures
        final(store).wf(),
        execute_post(*old(store), *final(store), *env, *info, msg, r),
{
    match msg {
        ExecuteMsg::Pull {} => pull(store, env, info),
        ExecuteMsg::ReceiveEntropy { requester, entropy, msg: data } => receive_entropy(
            store,
            env,
            info,
            &requester,
            &entropy,
            &data,
        ),
    }
}

/// Looks up one game record: its player, its stored byte triple where it
/// has resolved, and the win predicate computed on demand. Fails with
/// `NotFound` exactly when the identifier is at or above the counter, that
/// is, when no such game exists.
pub fn query(store: &Store, msg: QueryMsg) -> (r: Result<GameResponse, ContractError>)
    requires
        store.wf(),
    ensures
        match msg {
            QueryMsg::Game { idx } => {
                &&& (idx >= store.idx) <==> (r == Err::<GameResponse, ContractError>(
                    ContractError::NotFound {},
                ))
                &&& idx < store.idx ==> (r matches Ok(resp) && {
                    &&& resp.idx == idx
                    &&& resp.player == store.games@[idx as int].player
                    &&& resp.result == store.games@[idx as int].result
                    &&& resp.win == store.games@[idx as int].win_spec()
                })
            },
        },
{
    match msg {
        QueryMsg::Game { idx } => {
            if idx >= store.idx {
                return Err(ContractError::NotFound {});
            }
            let n = store.games.len();
            assert(idx < n);
            let i = idx as usize;
            let game = &store.games[i];
            Ok(GameResponse {
                idx,
                player: game.player.clone(),
                result: game.result,
                win: game.win(),
            })
        },
    }
}

/// The migration entry point: a no-op state transition that reports
/// success.
pub fn migrate(store: &mut Store, _msg: MigrateMsg) -> (r: Result<Response, ContractError>)
    requires
        old(store).wf(),
    ensures
        *final(store) == *old(store),
        r matches Ok(resp) && {
            &&& resp.messages@.len() == 0
            &&& resp.game is None
            &&& resp.player is None
            &&& resp.result is None
        },
{
    let messages: Vec<OutMsg> = Vec::new();
    Ok(Response { messages, game: None, player: None, result: None })
}

/// Law: a game resolved with bytes `(b0, b1, b2)` wins exactly when the
/// three bytes fall in the same sixteenth of the byte range, that is, when
/// they agree after integer division by 16.
pub proof fn lemma_win_same_bucket(g: Game, b0: u8, b1: u8, b2: u8)
    requires
        g.result == Some((b0, b1, b2)),
    ensures
        g.win_spec() <==> (b0 / 16 == b1 / 16 && b1 / 16 == b2 / 16),
{
}

/// Law: a pending game never counts as won, whoever owns it.
pub proof fn lemma_pending_never_wins(player: String)
    ensures
        !Game::pending(player).win_spec(),
{
}

/// Law: no invocation ever moves the counter down, removes a game record,
/// or changes who owns an existing game — a player identity is set once, at
/// creation.
pub proof fn lemma_games_persist(
    pre: Store,
    post: Store,
    env: Env,
    info: MessageInfo,
    msg: ExecuteMsg,
    r: Result<Response, ContractError>,
)
    requires
        pre.wf(),
        execute_post(pre, post, env, info, msg, r),
    ensures
        post.idx >= pre.idx,
        post.games@.len() >= pre.games@.len(),
        forall|i: int|
            0 <= i < pre.games@.len() ==> post.games@[i].player == pre.games@[i].player,
{
    match msg {
        ExecuteMsg::Pull {} => {
            if valid_deposit(pre.state, info.funds@) {
                assert(post.games@ == pre.games@.push(Game::pending(info.sender)));
            }
        },
        ExecuteMsg::ReceiveEntropy { requester, entropy, msg: data } => {
            if callback_authorized(pre.state, env, info.sender, requester) {
                match data {
                    None => {},
                    Some(d) => {
                        if d.game < pre.idx && entropy@.len() >= 3 {
                            let g1 = resolved_game(pre, d.game, entropy@);
                            assert(post.games@ == pre.games@.update(d.game as int, g1));
                            assert(g1.player == pre.games@[d.game as int].player);
                        }
                    },
                }
            }
        },
    }
}

} // verus!
