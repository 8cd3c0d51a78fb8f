use vstd::prelude::*;

use crate::uint::Uint256;

verus! {

/// The registries a new marketplace deals with.
#[derive(Clone, Debug, PartialEq, Eq)]
pub struct InstantiateMsg {
    pub cw721_address: String,
    pub cw20_address: String,
}

/// An amount of a coin of the given denomination.
#[derive(Clone, Debug, PartialEq, Eq)]
pub struct Coin {
    pub denom: String,
    pub amount: u128,
}

/// Who calls, and the coins attached to the call, in order.
#[derive(Clone, Debug, PartialEq, Eq)]
pub struct MessageInfo {
    pub sender: String,
    pub funds: Vec<Coin>,
}

/// A deposit of payment tokens, as the token registry reports it.
#[derive(Clone, Debug, PartialEq, Eq)]
pub struct TokenDeposit {
    /// Who sent the tokens.
    pub sender: String,
    pub amount: u128,
    /// What the sender asks to be done with them.
    pub msg: ReceiveMsg,
}

/// A deposit of an item, as the item registry reports it.
#[derive(Clone, Debug, PartialEq, Eq)]
pub struct ItemDeposit {
    /// Who sent the item.
    pub sender: String,
    pub token_id: String,
    /// What the sender asks to be done with it.
    pub msg: ReceiveNftMsg,
}

/// The operations a caller can ask for.
#[derive(Clone, Debug, PartialEq, Eq)]
pub enum ExecuteMsg {
    Buy { id: String },
    Offer { target: String, offered_price: Uint256 },
    AcceptOffer { id: String, offerer: String },
    CancelOffer { id: String },
    RejectOffer { id: String, offerer: String },
    AcceptTrade { id: String, trader: String },
    CancelTrade { id: String },
    CancelListing { id: String },
    Receive(TokenDeposit),
    ReceiveNft(ItemDeposit),
}

/// What a deposit of payment tokens asks for.
#[derive(Clone, Debug, PartialEq, Eq)]
pub enum ReceiveMsg {
    Buy { id: String },
    Offer { target: String, offered_price: Uint256 },
}

/// What a deposit of an item asks for.
#[derive(Clone, Debug, PartialEq, Eq)]
pub enum ReceiveNftMsg {
    NewListing { price: Uint256, tradeable: bool },
    NewTrade { target: String },
}

/// The read-only questions the marketplace answers.
#[derive(Clone, Debug, PartialEq, Eq)]
pub enum QueryMsg {
    GetListing { id: String },
    GetListingsBySeller { seller: String, from_index: Option<u64>, limit: Option<u64> },
    GetAllListings { from_index: Option<u64>, limit: Option<u64> },
    GetListingCount {  },
    GetTrade { id: String, trader: String },
    GetTradesByAddress { address: String, from_index: Option<u64>, limit: Option<u64> },
    GetTradesById { id: String, from_index: Option<u64>, limit: Option<u64> },
    GetAllTrades { from_index: Option<u64>, limit: Option<u64> },
    GetOffer { id: String, offerer: String },
    GetOffersByAddress { address: String, from_index: Option<u64>, limit: Option<u64> },
    GetOffersById { id: String, from_index: Option<u64>, limit: Option<u64> },
    GetAllOffers { from_index: Option<u64>, limit: Option<u64> },
}

/// Carries nothing: a migration changes no record.
#[derive(Clone, Copy, Debug, PartialEq, Eq, Structural)]
pub struct MigrateMsg {}

} // verus!
