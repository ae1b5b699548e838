//! Call parameters and response payloads.
//!
//! These are the plain-value shapes the host hands in and receives back.
//! Identities are carried as canonical address bytes; token amounts as
//! unsigned 128-bit integers of the single supported denomination. The
//! on-wire envelope (JSON encoding, address canonicalization) is owned by
//! the host and stays outside this crate.

use vstd::prelude::*;

use crate::expiration::Expiration;

verus! {

/// One token amount attached to a call, as the host reports it.
#[derive(Debug)]
pub struct Coin {
    pub denom: String,
    pub amount: u128,
}

/// Parameters of contract initialization. `creator` defaults to the calling
/// principal; `expiration` to a game that never closes.
#[derive(Debug)]
pub struct InitMsg {
    pub entropy: String,
    pub creator: Option<Vec<u8>>,
    pub expiration: Option<Expiration>,
}

/// A state-mutating call: withdraw from the pot, or stake the attached
/// funds on one spin.
#[derive(Debug)]
pub enum HandleMsg {
    CashOut { quantity: Option<u128> },
    Spin {},
}

/// A read-only query; none mutates state or needs authorization.
#[derive(Clone, Copy, Debug, PartialEq, Eq, Structural)]
pub enum QueryMsg {
    Pot {},
    Creator {},
    Round {},
    Expiration {},
}

/// The current pot balance.
#[derive(Clone, Copy, Debug, PartialEq, Eq, Structural)]
pub struct PotResponse {
    pub quantity: u128,
}

/// The contract creator's canonical address bytes.
#[derive(Debug)]
pub struct CreatorResponse {
    pub creator: Vec<u8>,
}

/// The outcome text of one spin, with the winnings on a win.
#[derive(Debug)]
pub struct SpinResponse {
    pub result: String,
    pub winnings: Option<u128>,
}

/// The current round counter.
#[derive(Clone, Copy, Debug, PartialEq, Eq, Structural)]
pub struct RoundResponse {
    pub round: u8,
}

/// The game's deadline.
#[derive(Clone, Copy, Debug, PartialEq, Eq, Structural)]
pub struct ExpirationResponse {
    pub expiration: Expiration,
}

} // verus!
