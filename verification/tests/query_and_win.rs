use pull_game::contract::{execute, instantiate, query};
use pull_game::error::ContractError;
use pull_game::msg::{
    Coin, EntropyCallbackData, Env, ExecuteMsg, GameResult, InstantiateMsg, MessageInfo, QueryMsg,
};
use pull_game::state::{Game, Store};

fn setup() -> (Store, Env) {
    let store = instantiate(InstantiateMsg {
        entropy_beacon_addr: "beacon".to_string(),
        token: "ukrw".to_string(),
        play_amount: 100,
        win_amount: 1000,
        fee_amount: Some(0),
    });
    let env = Env { contract_address: "game_contract".to_string() };
    (store, env)
}

fn run_pull(store: &mut Store, env: &Env) {
    let info = MessageInfo {
        sender: "player_a".to_string(),
        funds: vec![Coin { denom: "ukrw".to_string(), amount: 100 }],
    };
    execute(store, env, &info, ExecuteMsg::Pull {}).unwrap();
}

fn run_callback(store: &mut Store, env: &Env, entropy: Vec<u8>, game: u64) {
    let info = MessageInfo { sender: "beacon".to_string(), funds: vec![] };
    execute(
        store,
        env,
        &info,
        ExecuteMsg::ReceiveEntropy {
            requester: "game_contract".to_string(),
            entropy,
            msg: Some(EntropyCallbackData { game, original_sender: "player_a".to_string() }),
        },
    )
    .unwrap();
}

#[test]
fn query_empty_store_not_found() {
    let (store, _env) = setup();
    let err = query(&store, QueryMsg::Game { idx: 0 }).unwrap_err();
    assert_eq!(err, ContractError::NotFound {});
}

#[test]
fn query_at_or_above_counter_not_found() {
    let (mut store, env) = setup();
    run_pull(&mut store, &env);
    assert_eq!(store.idx, 1);
    let err = query(&store, QueryMsg::Game { idx: 1 }).unwrap_err();
    assert_eq!(err, ContractError::NotFound {});
    let err = query(&store, QueryMsg::Game { idx: 7 }).unwrap_err();
    assert_eq!(err, ContractError::NotFound {});
}

#[test]
fn query_pending_game() {
    let (mut store, env) = setup();
    run_pull(&mut store, &env);
    let resp = query(&store, QueryMsg::Game { idx: 0 }).unwrap();
    assert_eq!(resp.idx, 0);
    assert_eq!(resp.player, "player_a");
    assert_eq!(resp.result, None);
    assert!(!resp.win);
}

#[test]
fn query_resolved_winning_game() {
    let (mut store, env) = setup();
    run_pull(&mut store, &env);
    run_callback(&mut store, &env, vec![0x10, 0x1f, 0x15, 0x00], 0);
    let resp = query(&store, QueryMsg::Game { idx: 0 }).unwrap();
    assert_eq!(resp.result, Some((0x10, 0x1f, 0x15)));
    assert!(resp.win);
}

#[test]
fn query_resolved_losing_game() {
    let (mut store, env) = setup();
    run_pull(&mut store, &env);
    run_callback(&mut store, &env, vec![0x05, 0x20, 0x99], 0);
    let resp = query(&store, QueryMsg::Game { idx: 0 }).unwrap();
    assert_eq!(resp.result, Some((0x05, 0x20, 0x99)));
    assert!(!resp.win);
}

#[test]
fn execute_dispatches_both_arms() {
    let (mut store, env) = setup();
    run_pull(&mut store, &env);
    run_callback(&mut store, &env, vec![0xff, 0xf0, 0xfa], 0);
    let resp = query(&store, QueryMsg::Game { idx: 0 }).unwrap();
    assert_eq!(resp.result, Some((0xff, 0xf0, 0xfa)));
    assert!(resp.win);
}

#[test]
fn execute_reports_resolution() {
    let (mut store, env) = setup();
    run_pull(&mut store, &env);
    let info = MessageInfo { sender: "beacon".to_string(), funds: vec![] };
    let resp = execute(
        &mut store,
        &env,
        &info,
        ExecuteMsg::ReceiveEntropy {
            requester: "game_contract".to_string(),
            entropy: vec![0x00, 0x0f, 0x01],
            msg: Some(EntropyCallbackData { game: 0, original_sender: "player_a".to_string() }),
        },
    )
    .unwrap();
    assert_eq!(resp.game, Some(0));
    assert_eq!(resp.player, Some("player_a".to_string()));
    assert_eq!(resp.result, Some(GameResult::Win));
}

#[test]
fn win_predicate_buckets() {
    let pending = Game { player: "p".to_string(), result: None };
    assert!(!pending.win());
    let same_low = Game { player: "p".to_string(), result: Some((0x00, 0x0f, 0x05)) };
    assert!(same_low.win());
    let boundary = Game { player: "p".to_string(), result: Some((0x0f, 0x10, 0x11)) };
    assert!(!boundary.win());
    let same_high = Game { player: "p".to_string(), result: Some((0xf0, 0xff, 0xf7)) };
    assert!(same_high.win());
    let two_agree = Game { player: "p".to_string(), result: Some((0x10, 0x1f, 0x20)) };
    assert!(!two_agree.win());
}
