//! The interface types: invocation messages, the query response, and the
//! outbound instructions a handler emits. The host's wire encoding of these
//! values is glue outside this crate; the handlers see and return plain
//! values.

use vstd::prelude::*;

verus! {

/// One coin of attached funds.
#[derive(Clone, Debug, PartialEq, Eq)]
pub struct Coin {
    /// The token denomination.
    pub denom: String,
    /// The amount, in the token's smallest unit.
    pub amount: u128,
}

/// The call environment the host hands to every invocation.
#[derive(Clone, Debug, PartialEq, Eq)]
pub struct Env {
    /// This system's own address.
    pub contract_address: String,
}

/// The authenticated caller and the funds attached to the call.
#[derive(Clone, Debug, PartialEq, Eq)]
pub struct MessageInfo {
    /// The caller identity, authenticated by the host.
    pub sender: String,
    /// The funds attached to the call.
    pub funds: Vec<Coin>,
}

/// The initialization input.
#[derive(Clone, Debug, PartialEq, Eq)]
pub struct InstantiateMsg {
    /// Identity of the trusted randomness beacon.
    pub entropy_beacon_addr: String,
    /// The accepted token denomination.
    pub token: String,
    /// The required deposit amount; positive.
    pub play_amount: u128,
    /// The amount paid out on a win.
    pub win_amount: u128,
    /// The fixed fee per play; absent means zero.
    pub fee_amount: Option<u128>,
}

/// The typed form of the opaque payload a `Pull` hands to the beacon and the
/// beacon echoes back unchanged with its callback.
#[derive(Clone, Debug, PartialEq, Eq)]
pub struct EntropyCallbackData {
    /// The identifier of the game awaiting this entropy.
    pub game: u64,
    /// The player that requested the game.
    pub original_sender: String,
}

/// An invocation that may change state.
#[derive(Clone, Debug, PartialEq, Eq)]
pub enum ExecuteMsg {
    /// Deposit and open a new game; funds are attached to the call.
    Pull {},
    /// The randomness provider's callback.
    ReceiveEntropy {
        /// The original requester the provider echoes back; it must be this
        /// system's own address.
        requester: String,
        /// The delivered block of random bytes.
        entropy: Vec<u8>,
        /// The echoed opaque payload, already decoded from its wire form;
        /// `None` stands for a blob that did not decode.
        msg: Option<EntropyCallbackData>,
    },
}

/// A read-only invocation.
#[derive(Clone, Debug, PartialEq, Eq)]
pub enum QueryMsg {
    /// Look up one game record.
    Game {
        /// The game identifier.
        idx: u64,
    },
}

/// The migration input: the migration entry point is a no-op state
/// transition.
#[derive(Clone, Debug, PartialEq, Eq)]
pub struct MigrateMsg {}

/// The answer to a `Game` query.
#[derive(Clone, Debug, PartialEq, Eq)]
pub struct GameResponse {
    /// The queried identifier.
    pub idx: u64,
    /// The player that owns the game.
    pub player: String,
    /// The stored byte triple, absent while the game is pending.
    pub result: Option<(u8, u8, u8)>,
    /// The win predicate; `false` while pending.
    pub win: bool,
}

/// A transfer instruction for the host's message-passing layer; settlement
/// itself is external.
#[derive(Clone, Debug, PartialEq, Eq)]
pub struct BankSend {
    /// The receiving identity.
    pub to_address: String,
    /// The denomination transferred.
    pub denom: String,
    /// The amount transferred.
    pub amount: u128,
}

/// A randomness request for the external beacon.
#[derive(Clone, Debug, PartialEq, Eq)]
pub struct BeaconRequest {
    /// The beacon the request goes to.
    pub beacon_addr: String,
    /// Where the beacon must deliver its callback: this system's address.
    pub callback_address: String,
    /// The gas provisioned for the callback.
    pub callback_gas_limit: u64,
    /// The opaque payload the beacon echoes back unchanged.
    pub callback_msg: EntropyCallbackData,
}

/// One outbound instruction.
#[derive(Clone, Debug, PartialEq, Eq)]
pub enum OutMsg {
    /// A request to the randomness beacon.
    Beacon(BeaconRequest),
    /// A token transfer.
    Bank(BankSend),
}

/// What the game resolved to.
#[derive(Clone, Copy, Debug, PartialEq, Eq, Structural)]
pub enum GameResult {
    /// The three entropy bytes fell in the same bucket.
    Win,
    /// They did not.
    Lose,
}

/// What a successful invocation reports: the outbound instructions, in
/// order, and the metadata accompanying the call.
#[derive(Clone, Debug, PartialEq, Eq)]
pub struct Response {
    /// The outbound instructions, in emission order.
    pub messages: Vec<OutMsg>,
    /// The game identifier the call concerned, if any.
    pub game: Option<u64>,
    /// The player the call concerned, if any.
    pub player: Option<String>,
    /// The reported outcome, on a resolution.
    pub result: Option<GameResult>,
}

} // verus!
