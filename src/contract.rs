use vstd::prelude::*;

use crate::error::{ContractError, RecordKind};
use crate::msg::{
    Coin, ExecuteMsg, InstantiateMsg, ItemDeposit, MessageInfo, ReceiveMsg, ReceiveNftMsg, TokenDeposit,
};
use crate::state::{
    coin_token, has_listing, has_offer, has_trade, is_item_transfer, is_payment, listing_index,
    listing_of, listings_put, listings_without, offer_index, offer_of, offers_put, trade_index,
    trade_of, trades_put, CoinType, Config, Effect, Listing, Offer, ReplyKind, Store, Trade,
};
use crate::uint::{lemma_value_fits, Uint256};
use crate::wire::{encode_token_transfer, encode_transfer_nft};

verus! {

/// Confirmation tag of an item sold from a listing.
pub const LISTING_REPLY: u64 = 1;

/// Confirmation tag of an item that changed hands in a trade.
pub const TRADE_REPLY: u64 = 2;

/// Confirmation tag of an item sold on an accepted offer.
pub const OFFER_REPLY: u64 = 3;

/// The operation was refused with `e`, and nothing changed.
pub open spec fn refused(
    s: Store,
    t: Store,
    r: Result<Vec<Effect>, ContractError>,
    e: ContractError,
) -> bool {
    r == Err::<Vec<Effect>, ContractError>(e) && t == s
}

/// The outcome of `buyer` paying `paid` (natively, or in `token`) for item `id`:
/// from store `s` to store `t` with result `r`.
pub open spec fn buy_spec(
    s: Store,
    t: Store,
    buyer: String,
    paid: u128,
    id: String,
    token: Option<String>,
    r: Result<Vec<Effect>, ContractError>,
) -> bool {
    if !has_listing(s.listings@, id@) {
        refused(s, t, r, ContractError::NotFound { kind: RecordKind::Listing })
    } else if listing_of(s.listings@, id@).price.value() != paid as nat {
        refused(
            s,
            t,
            r,
            ContractError::IncorrectPayment { price: listing_of(s.listings@, id@).price },
        )
    } else {
        let l = listing_of(s.listings@, id@);
        &&& r matches Ok(v) && v@.len() == 2 && is_payment(v@[0], token, l.owner@, paid)
            && is_item_transfer(v@[1], s.config, buyer@, l.nft_id@, Some(ReplyKind::Listing))
        &&& t.listings@ == s.listings@.remove(listing_index(s.listings@, id@))
        &&& t.listing_counter == s.listing_counter - 1
        &&& t.config == s.config
        &&& t.trades == s.trades
        &&& t.offers == s.offers
    }
}

/// The outcome of `offerer` paying `paid` (natively, or in `token`) to offer
/// `amount_offered` for item `asked_id`, the payment being escrowed with
/// `escrow_to`.
pub open spec fn offer_spec(
    s: Store,
    t: Store,
    offerer: String,
    paid: u128,
    asked_id: String,
    amount_offered: Uint256,
    token: Option<String>,
    escrow_to: String,
    r: Result<Vec<Effect>, ContractError>,
) -> bool {
    if amount_offered.value() != paid as nat {
        refused(s, t, r, ContractError::IncorrectPayment { price: amount_offered })
    } else {
        let kind = if token is None {
            CoinType::Native
        } else {
            CoinType::Cw20
        };
        &&& r matches Ok(v) && v@.len() == 1 && is_payment(v@[0], token, escrow_to@, paid)
        &&& t.offers@ == offers_put(
            s.offers@,
            (Offer { asked_id, offerer, amount_offered, amount_type: kind }),
        )
        &&& t.config == s.config
        &&& t.listings == s.listings
        &&& t.trades == s.trades
        &&& t.listing_counter == s.listing_counter
    }
}

/// The outcome of `caller` accepting the offer of `offerer` for item `asked_id`.
pub open spec fn accept_offer_spec(
    s: Store,
    t: Store,
    caller: String,
    asked_id: String,
    offerer: String,
    r: Result<Vec<Effect>, ContractError>,
) -> bool {
    if !has_offer(s.offers@, asked_id@, offerer@) {
        refused(s, t, r, ContractError::NotFound { kind: RecordKind::Offer })
    } else if !has_listing(s.listings@, asked_id@) {
        refused(s, t, r, ContractError::NotFound { kind: RecordKind::Listing })
    } else if listing_of(s.listings@, asked_id@).owner@ != caller@ {
        refused(s, t, r, ContractError::Unauthorized {  })
    } else {
        let o = offer_of(s.offers@, asked_id@, offerer@);
        &&& r matches Ok(v) && v@.len() == 2 && is_payment(
            v@[0],
            coin_token(s.config, o.amount_type),
            caller@,
            o.amount_offered.lo,
        ) && is_item_transfer(
            v@[1],
            s.config,
            o.offerer@,
            o.asked_id@,
            Some(ReplyKind::Offer),
        )
        &&& t.offers@ == s.offers@.remove(offer_index(s.offers@, asked_id@, offerer@))
        &&& t.listings@ == s.listings@.remove(listing_index(s.listings@, asked_id@))
        &&& t.listing_counter == s.listing_counter - 1
        &&& t.config == s.config
        &&& t.trades == s.trades
    }
}

/// The outcome of the offer of `offerer` for item `asked_id` being withdrawn,
/// by the offerer itself (`owner_needed` false) or refused by the listing's
/// owner `caller` (`owner_needed` true); the escrowed payment goes back.
pub open spec fn refund_offer_spec(
    s: Store,
    t: Store,
    caller: String,
    asked_id: String,
    offerer: String,
    owner_needed: bool,
    r: Result<Vec<Effect>, ContractError>,
) -> bool {
    if !has_offer(s.offers@, asked_id@, offerer@) {
        refused(s, t, r, ContractError::NotFound { kind: RecordKind::Offer })
    } else if owner_needed && !has_listing(s.listings@, asked_id@) {
        refused(s, t, r, ContractError::NotFound { kind: RecordKind::Listing })
    } else if owner_needed && listing_of(s.listings@, asked_id@).owner@ != caller@ {
        refused(s, t, r, ContractError::Unauthorized {  })
    } else {
        let o = offer_of(s.offers@, asked_id@, offerer@);
        &&& r matches Ok(v) && v@.len() == 1 && is_payment(
            v@[0],
            coin_token(s.config, o.amount_type),
            o.offerer@,
            o.amount_offered.lo,
        )
        &&& t.offers@ == s.offers@.remove(offer_index(s.offers@, asked_id@, offerer@))
        &&& t.config == s.config
        &&& t.listings == s.listings
        &&& t.trades == s.trades
        &&& t.listing_counter == s.listing_counter
    }
}

/// The outcome of `caller` accepting the trade that `trader` proposed for item
/// `asked_id`: both items change hands, and the listings of both go.
pub open spec fn accept_trade_spec(
    s: Store,
    t: Store,
    caller: String,
    asked_id: String,
    trader: String,
    r: Result<Vec<Effect>, ContractError>,
) -> bool {
    if !has_trade(s.trades@, asked_id@, trader@) {
        refused(s, t, r, ContractError::NotFound { kind: RecordKind::Trade })
    } else if !has_listing(s.listings@, asked_id@) {
        refused(s, t, r, ContractError::NotFound { kind: RecordKind::Listing })
    } else if listing_of(s.listings@, asked_id@).owner@ != caller@ {
        refused(s, t, r, ContractError::Unauthorized {  })
    } else {
        let tr = trade_of(s.trades@, asked_id@, trader@);
        let l = listing_of(s.listings@, asked_id@);
        let rest = s.listings@.remove(listing_index(s.listings@, asked_id@));
        &&& r matches Ok(v) && v@.len() == 2 && is_item_transfer(
            v@[0],
            s.config,
            tr.trader@,
            tr.asked_id@,
            Some(ReplyKind::Trade),
        ) && is_item_transfer(
            v@[1],
            s.config,
            l.owner@,
            tr.to_trade_id@,
            Some(ReplyKind::Trade),
        )
        &&& t.trades@ == s.trades@.remove(trade_index(s.trades@, asked_id@, trader@))
        &&& t.listings@ == listings_without(rest, tr.to_trade_id@)
        &&& t.listing_counter == s.listing_counter - (if has_listing(rest, tr.to_trade_id@) {
            2int
        } else {
            1int
        })
        &&& t.config == s.config
        &&& t.offers == s.offers
    }
}

/// The outcome of `caller` withdrawing the listing of item `id`.
pub open spec fn cancel_listing_spec(
    s: Store,
    t: Store,
    caller: String,
    id: String,
    r: Result<Vec<Effect>, ContractError>,
) -> bool {
    if !has_listing(s.listings@, id@) {
        refused(s, t, r, ContractError::NotFound { kind: RecordKind::Listing })
    } else if listing_of(s.listings@, id@).owner@ != caller@ {
        refused(s, t, r, ContractError::Unauthorized {  })
    } else {
        let l = listing_of(s.listings@, id@);
        &&& r matches Ok(v) && v@.len() == 1 && is_item_transfer(
            v@[0],
            s.config,
            l.owner@,
            l.nft_id@,
            None,
        )
        &&& t.listings@ == s.listings@.remove(listing_index(s.listings@, id@))
        &&& t.listing_counter == s.listing_counter - 1
        &&& t.config == s.config
        &&& t.trades == s.trades
        &&& t.offers == s.offers
    }
}

/// The outcome of `caller` withdrawing its trade proposal for item `asked_id`.
pub open spec fn cancel_trade_spec(
    s: Store,
    t: Store,
    caller: String,
    asked_id: String,
    r: Result<Vec<Effect>, ContractError>,
) -> bool {
    if !has_trade(s.trades@, asked_id@, caller@) {
        refused(s, t, r, ContractError::NotFound { kind: RecordKind::Trade })
    } else {
        let tr = trade_of(s.trades@, asked_id@, caller@);
        &&& r matches Ok(v) && v@.len() == 1 && is_item_transfer(
            v@[0],
            s.config,
            tr.trader@,
            tr.to_trade_id@,
            None,
        )
        &&& t.trades@ == s.trades@.remove(trade_index(s.trades@, asked_id@, caller@))
        &&& t.config == s.config
        &&& t.listings == s.listings
        &&& t.offers == s.offers
        &&& t.listing_counter == s.listing_counter
    }
}

/// The outcome of `owner` depositing item `id` to list it.
pub open spec fn new_listing_spec(
    s: Store,
    t: Store,
    owner: String,
    id: String,
    price: Uint256,
    tradeable: bool,
    r: Result<Vec<Effect>, ContractError>,
) -> bool {
    &&& r matches Ok(v) && v@.len() == 0
    &&& t.listings@ == listings_put(
        s.listings@,
        (Listing { nft_id: id, price, owner, tradeable }),
    )
    &&& t.listing_counter == t.listings@.len()
    &&& t.config == s.config
    &&& t.trades == s.trades
    &&& t.offers == s.offers
}

/// The outcome of `trader` depositing item `offered_id` to propose it in
/// exchange for item `asked_id`; `offered_owner` is the owner of `offered_id`
/// as the item registry reported it, if it did.
pub open spec fn new_trade_spec(
    s: Store,
    t: Store,
    trader: String,
    offered_id: String,
    asked_id: String,
    offered_owner: Option<String>,
    r: Result<Vec<Effect>, ContractError>,
) -> bool {
    if !(offered_owner matches Some(o) && o@ == trader@) {
        refused(s, t, r, ContractError::Unauthorized {  })
    } else if !has_listing(s.listings@, asked_id@) {
        refused(s, t, r, ContractError::NotFound { kind: RecordKind::Listing })
    } else if !listing_of(s.listings@, asked_id@).tradeable {
        refused(s, t, r, ContractError::NonTradeable {  })
    } else {
        &&& r matches Ok(v) && v@.len() == 0
        &&& t.trades@ == trades_put(
            s.trades@,
            (Trade { asked_id, to_trade_id: offered_id, trader }),
        )
        &&& t.config == s.config
        &&& t.listings == s.listings
        &&& t.offers == s.offers
        &&& t.listing_counter == s.listing_counter
    }
}

/// The instruction to move item `id` to `to` through the configured item
/// registry.
fn send_item(cfg: &Config, to: &String, id: &String, confirm: Option<ReplyKind>) -> (r: Effect)
    ensures
        is_item_transfer(r, *cfg, to@, id@, confirm),
{
    let msg = encode_transfer_nft(to, id).unwrap();
    Effect::TransferItem { registry: cfg.cw721_address.clone(), msg, confirm }
}

/// The payment of `amount` to `to`: in the native coin when `token` is
/// `None`, else through that token registry.
fn pay(token: Option<String>, to: &String, amount: u128) -> (r: Effect)
    ensures
        is_payment(r, token, to@, amount),
{
    match token {
        None => Effect::SendNative { to_address: to.clone(), amount },
        Some(t) => {
            let msg = encode_token_transfer(to, amount).unwrap();
            Effect::TransferTokens { token: t, msg }
        },
    }
}

/// The token registry that pays out offers of kind `kind`, if any.
fn token_of(cfg: &Config, kind: CoinType) -> (r: Option<String>)
    ensures
        r == coin_token(*cfg, kind),
{
    match kind {
        CoinType::Native => None,
        CoinType::Cw20 => Some(cfg.cw20_address.clone()),
    }
}

/// Sells item `id` to `buyer` for `paid`, paid natively or in `token`.
fn settle_sale(
    store: &mut Store,
    id: String,
    buyer: String,
    paid: u128,
    token: Option<String>,
) -> (r: Result<Vec<Effect>, ContractError>)
    requires
        old(store).wf(),
    ensures
        final(store).wf(),
        buy_spec(*old(store), *final(store), buyer, paid, id, token, r),
{
    let i = match store.find_listing(&id) {
        Some(i) => i,
        None => {
            return Err(ContractError::NotFound { kind: RecordKind::Listing });
        },
    };
    let price = store.listings[i].price;
    if !price.equals_uint128(paid) {
        return Err(ContractError::IncorrectPayment { price });
    }
    let payment = pay(token, &store.listings[i].owner, paid);
    let item = send_item(
        &store.config,
        &buyer,
        &store.listings[i].nft_id,
        Some(ReplyKind::Listing),
    );
    store.remove_listing_at(i);
    let mut effects: Vec<Effect> = Vec::new();
    effects.push(payment);
    effects.push(item);
    Ok(effects)
}

/// Buys item `id` for `paid` of the native coin: the seller is paid and the
/// item goes to `sender`.
pub fn execute_buy(store: &mut Store, sender: String, paid: u128, id: String) -> (r: Result<
    Vec<Effect>,
    ContractError,
>)
    requires
        old(store).wf(),
    ensures
        final(store).wf(),
        buy_spec(*old(store), *final(store), sender, paid, id, None, r),
{
    settle_sale(store, id, sender, paid, None)
}

/// Buys item `id` for `amount` of the payment token that `cw20_address` holds.
pub fn receive_buy(
    store: &mut Store,
    id: String,
    sender: String,
    amount: u128,
    cw20_address: String,
) -> (r: Result<Vec<Effect>, ContractError>)
    requires
        old(store).wf(),
    ensures
        final(store).wf(),
        buy_spec(*old(store), *final(store), sender, amount, id, Some(cw20_address), r),
{
    settle_sale(store, id, sender, amount, Some(cw20_address))
}

/// Records an offer once its payment is checked against the amount offered,
/// and escrows the payment with `escrow_to`.
fn place_offer(
    store: &mut Store,
    offerer: String,
    paid: u128,
    asked_id: String,
    amount_offered: Uint256,
    token: Option<String>,
    escrow_to: String,
) -> (r: Result<Vec<Effect>, ContractError>)
    requires
        old(store).wf(),
    ensures
        final(store).wf(),
        offer_spec(
            *old(store),
            *final(store),
            offerer,
            paid,
            asked_id,
            amount_offered,
            token,
            escrow_to,
            r,
        ),
{
    if !amount_offered.equals_uint128(paid) {
        return Err(ContractError::IncorrectPayment { price: amount_offered });
    }
    proof {
        lemma_value_fits(amount_offered);
    }
    let kind = match token {
        None => CoinType::Native,
        Some(_) => CoinType::Cw20,
    };
    let escrow = pay(token, &escrow_to, paid);
    store.put_offer(Offer { asked_id, offerer, amount_offered, amount_type: kind });
    let mut effects: Vec<Effect> = Vec::new();
    effects.push(escrow);
    Ok(effects)
}

/// Offers `amount_offered` of the native coin for item `asked_id`; the
/// payment `paid` must equal it and is held by `contract_address`.
pub fn execute_offer(
    store: &mut Store,
    sender: String,
    paid: u128,
    contract_address: String,
    asked_id: String,
    amount_offered: Uint256,
) -> (r: Result<Vec<Effect>, ContractError>)
    requires
        old(store).wf(),
    ensures
        final(store).wf(),
        offer_spec(
            *old(store),
            *final(store),
            sender,
            paid,
            asked_id,
            amount_offered,
            None,
            contract_address,
            r,
        ),
{
    place_offer(store, sender, paid, asked_id, amount_offered, None, contract_address)
}

/// Offers `amount_offered` of the payment token for item `asked_id`; the
/// deposited `amount` must equal it and is held by `contract_address`.
pub fn receive_offer(
    store: &mut Store,
    contract_address: String,
    asked_id: String,
    amount_offered: Uint256,
    sender: String,
    amount: u128,
    cw20_address: String,
) -> (r: Result<Vec<Effect>, ContractError>)
    requires
        old(store).wf(),
    ensures
        final(store).wf(),
        offer_spec(
            *old(store),
            *final(store),
            sender,
            amount,
            asked_id,
            amount_offered,
            Some(cw20_address),
            contract_address,
            r,
        ),
{
    place_offer(
        store,
        sender,
        amount,
        asked_id,
        amount_offered,
        Some(cw20_address),
        contract_address,
    )
}

/// The owner of item `asked_id`'s listing accepts the offer of `offerer`:
/// the escrowed payment goes to the owner and the item to the offerer.
pub fn execute_accept_offer(
    store: &mut Store,
    sender: String,
    asked_id: String,
    offerer: String,
) -> (r: Result<Vec<Effect>, ContractError>)
    requires
        old(store).wf(),
    ensures
        final(store).wf(),
        accept_offer_spec(*old(store), *final(store), sender, asked_id, offerer, r),
{
    let oi = match store.find_offer(&asked_id, &offerer) {
        Some(i) => i,
        None => {
            return Err(ContractError::NotFound { kind: RecordKind::Offer });
        },
    };
    let li = match store.find_listing(&asked_id) {
        Some(i) => i,
        None => {
            return Err(ContractError::NotFound { kind: RecordKind::Listing });
        },
    };
    if !(store.listings[li].owner == sender) {
        return Err(ContractError::Unauthorized {  });
    }
    let token = token_of(&store.config, store.offers[oi].amount_type);
    // every stored offer fits in 128 bits, so its low half is the whole amount
    let payment = pay(token, &sender, store.offers[oi].amount_offered.lo);
    let item = send_item(
        &store.config,
        &store.offers[oi].offerer,
        &store.offers[oi].asked_id,
        Some(ReplyKind::Offer),
    );
    store.remove_offer_at(oi);
    store.remove_listing_at(li);
    let mut effects: Vec<Effect> = Vec::new();
    effects.push(payment);
    effects.push(item);
    Ok(effects)
}

/// Takes out the offer of `offerer` for item `asked_id` and refunds it; where
/// `owner_needed`, only the owner of that item's listing may do so.
fn refund_offer(
    store: &mut Store,
    sender: String,
    asked_id: String,
    offerer: String,
    owner_needed: bool,
) -> (r: Result<Vec<Effect>, ContractError>)
    requires
        old(store).wf(),
    ensures
        final(store).wf(),
        refund_offer_spec(*old(store), *final(store), sender, asked_id, offerer, owner_needed, r),
{
    let oi = match store.find_offer(&asked_id, &offerer) {
        Some(i) => i,
        None => {
            return Err(ContractError::NotFound { kind: RecordKind::Offer });
        },
    };
    if owner_needed {
        let li = match store.find_listing(&asked_id) {
            Some(i) => i,
            None => {
                return Err(ContractError::NotFound { kind: RecordKind::Listing });
            },
        };
        if !(store.listings[li].owner == sender) {
            return Err(ContractError::Unauthorized {  });
        }
    }
    let token = token_of(&store.config, store.offers[oi].amount_type);
    let payment = pay(
        token,
        &store.offers[oi].offerer,
        store.offers[oi].amount_offered.lo,
    );
    store.remove_offer_at(oi);
    let mut effects: Vec<Effect> = Vec::new();
    effects.push(payment);
    Ok(effects)
}

/// `sender` withdraws its own offer for item `asked_id` and is refunded.
pub fn execute_cancel_offer(store: &mut Store, sender: String, asked_id: String) -> (r: Result<
    Vec<Effect>,
    ContractError,
>)
    requires
        old(store).wf(),
    ensures
        final(store).wf(),
        refund_offer_spec(*old(store), *final(store), sender, asked_id, sender, false, r),
{
    let offerer = sender.clone();
    refund_offer(store, sender, asked_id, offerer, false)
}

/// The owner of item `asked_id`'s listing refuses the offer of `offerer`,
/// who is refunded; the listing stays.
pub fn execute_reject_offer(
    store: &mut Store,
    sender: String,
    asked_id: String,
    offerer: String,
) -> (r: Result<Vec<Effect>, ContractError>)
    requires
        old(store).wf(),
    ensures
        final(store).wf(),
        refund_offer_spec(*old(store), *final(store), sender, asked_id, offerer, true, r),
{
    refund_offer(store, sender, asked_id, offerer, true)
}

/// The owner of item `asked_id`'s listing accepts the trade `trader`
/// proposed: each item goes to the other party, and the listings of both
/// items are taken out.
pub fn execute_accept_trade(
    store: &mut Store,
    sender: String,
    asked_id: String,
    trader: String,
) -> (r: Result<Vec<Effect>, ContractError>)
    requires
        old(store).wf(),
    ensures
        final(store).wf(),
        accept_trade_spec(*old(store), *final(store), sender, asked_id, trader, r),
{
    let ti = match store.find_trade(&asked_id, &trader) {
        Some(i) => i,
        None => {
            return Err(ContractError::NotFound { kind: RecordKind::Trade });
        },
    };
    let li = match store.find_listing(&asked_id) {
        Some(i) => i,
        None => {
            return Err(ContractError::NotFound { kind: RecordKind::Listing });
        },
    };
    if !(store.listings[li].owner == sender) {
        return Err(ContractError::Unauthorized {  });
    }
    let asked = send_item(
        &store.config,
        &store.trades[ti].trader,
        &store.trades[ti].asked_id,
        Some(ReplyKind::Trade),
    );
    let offered = send_item(
        &store.config,
        &store.listings[li].owner,
        &store.trades[ti].to_trade_id,
        Some(ReplyKind::Trade),
    );
    let trade = store.remove_trade_at(ti);
    store.remove_listing_at(li);
    match store.find_listing(&trade.to_trade_id) {
        Some(j) => {
            store.remove_listing_at(j);
        },
        None => {},
    }
    let mut effects: Vec<Effect> = Vec::new();
    effects.push(asked);
    effects.push(offered);
    Ok(effects)
}

/// The owner of item `id`'s listing withdraws it and gets the item back.
pub fn execute_cancel_listing(store: &mut Store, sender: String, id: String) -> (r: Result<
    Vec<Effect>,
    ContractError,
>)
    requires
        old(store).wf(),
    ensures
        final(store).wf(),
        cancel_listing_spec(*old(store), *final(store), sender, id, r),
{
    let li = match store.find_listing(&id) {
        Some(i) => i,
        None => {
            return Err(ContractError::NotFound { kind: RecordKind::Listing });
        },
    };
    if !(store.listings[li].owner == sender) {
        return Err(ContractError::Unauthorized {  });
    }
    let item = send_item(
        &store.config,
        &store.listings[li].owner,
        &store.listings[li].nft_id,
        None,
    );
    store.remove_listing_at(li);
    let mut effects: Vec<Effect> = Vec::new();
    effects.push(item);
    Ok(effects)
}

/// `sender` withdraws its trade proposal for item `asked_id` and gets its
/// escrowed item back.
pub fn execute_cancel_trade(store: &mut Store, sender: String, asked_id: String) -> (r: Result<
    Vec<Effect>,
    ContractError,
>)
    requires
        old(store).wf(),
    ensures
        final(store).wf(),
        cancel_trade_spec(*old(store), *final(store), sender, asked_id, r),
{
    let ti = match store.find_trade(&asked_id, &sender) {
        Some(i) => i,
        None => {
            return Err(ContractError::NotFound { kind: RecordKind::Trade });
        },
    };
    let item = send_item(
        &store.config,
        &store.trades[ti].trader,
        &store.trades[ti].to_trade_id,
        None,
    );
    store.remove_trade_at(ti);
    let mut effects: Vec<Effect> = Vec::new();
    effects.push(item);
    Ok(effects)
}

/// Lists the deposited item `id` for `sender` at `price`; a listing already
/// standing for that item is replaced.
pub fn receive_new_listing(
    store: &mut Store,
    sender: String,
    id: String,
    price: Uint256,
    tradeable: bool,
) -> (r: Result<Vec<Effect>, ContractError>)
    requires
        old(store).wf(),
    ensures
        final(store).wf(),
        new_listing_spec(*old(store), *final(store), sender, id, price, tradeable, r),
{
    store.put_listing(Listing { nft_id: id, price, owner: sender, tradeable });
    Ok(Vec::new())
}

/// Records the proposal of `sender` to trade its deposited item `offered_id`
/// for item `asked_id`. `offered_owner` is what the item registry reports as
/// the owner of `offered_id`.
pub fn receive_new_trade(
    store: &mut Store,
    sender: String,
    offered_id: String,
    asked_id: String,
    offered_owner: Option<String>,
) -> (r: Result<Vec<Effect>, ContractError>)
    requires
        old(store).wf(),
    ensures
        final(store).wf(),
        new_trade_spec(*old(store), *final(store), sender, offered_id, asked_id, offered_owner, r),
{
    let owns = match &offered_owner {
        Some(o) => *o == sender,
        None => false,
    };
    if !owns {
        return Err(ContractError::Unauthorized {  });
    }
    let li = match store.find_listing(&asked_id) {
        Some(i) => i,
        None => {
            return Err(ContractError::NotFound { kind: RecordKind::Listing });
        },
    };
    if !store.listings[li].tradeable {
        return Err(ContractError::NonTradeable {  });
    }
    store.put_trade(Trade { asked_id, to_trade_id: offered_id, trader: sender });
    Ok(Vec::new())
}

/// The kind of operation a confirmation tag stands for.
pub fn reply(id: u64) -> (r: Result<ReplyKind, ContractError>)
    ensures
        id == LISTING_REPLY ==> r == Ok::<ReplyKind, ContractError>(ReplyKind::Listing),
        id == TRADE_REPLY ==> r == Ok::<ReplyKind, ContractError>(ReplyKind::Trade),
        id == OFFER_REPLY ==> r == Ok::<ReplyKind, ContractError>(ReplyKind::Offer),
        id != LISTING_REPLY && id != TRADE_REPLY && id != OFFER_REPLY ==> r == Err::<
            ReplyKind,
            ContractError,
        >(ContractError::UnrecognizedReply {  }),
{
    if id == LISTING_REPLY {
        Ok(ReplyKind::Listing)
    } else if id == TRADE_REPLY {
        Ok(ReplyKind::Trade)
    } else if id == OFFER_REPLY {
        Ok(ReplyKind::Offer)
    } else {
        Err(ContractError::UnrecognizedReply {  })
    }
}

/// The outcome of the token registry `caller` reporting `deposit`; the
/// marketplace itself is `contract_address`.
pub open spec fn receive_spec(
    s: Store,
    t: Store,
    contract_address: String,
    caller: String,
    deposit: TokenDeposit,
    r: Result<Vec<Effect>, ContractError>,
) -> bool {
    if caller@ != s.config.cw20_address@ {
        r == Err::<Vec<Effect>, ContractError>(ContractError::Unauthorized {  }) && t == s
    } else {
        match deposit.msg {
            ReceiveMsg::Buy { id } => buy_spec(
                s,
                t,
                deposit.sender,
                deposit.amount,
                id,
                Some(caller),
                r,
            ),
            ReceiveMsg::Offer { target, offered_price } => offer_spec(
                s,
                t,
                deposit.sender,
                deposit.amount,
                target,
                offered_price,
                Some(caller),
                contract_address,
                r,
            ),
        }
    }
}

/// The outcome of the item registry `caller` reporting `deposit`;
/// `offered_owner` is the owner it reports of the deposited item.
pub open spec fn receive_nft_spec(
    s: Store,
    t: Store,
    caller: String,
    deposit: ItemDeposit,
    offered_owner: Option<String>,
    r: Result<Vec<Effect>, ContractError>,
) -> bool {
    if caller@ != s.config.cw721_address@ {
        r == Err::<Vec<Effect>, ContractError>(ContractError::Unauthorized {  }) && t == s
    } else {
        match deposit.msg {
            ReceiveNftMsg::NewListing { price, tradeable } => new_listing_spec(
                s,
                t,
                deposit.sender,
                deposit.token_id,
                price,
                tradeable,
                r,
            ),
            ReceiveNftMsg::NewTrade { target } => new_trade_spec(
                s,
                t,
                deposit.sender,
                deposit.token_id,
                target,
                offered_owner,
                r,
            ),
        }
    }
}

/// The denomination of the native coin.
pub open spec fn native_denom() -> Seq<char> {
    "uxion"@
}

/// What the call pays in the native coin: the amount of the first attached
/// coin of the native denomination, or nothing when there is none.
pub open spec fn native_paid(funds: Seq<Coin>) -> u128
    decreases funds.len(),
{
    if funds.len() == 0 {
        0
    } else if funds[0].denom@ == native_denom() {
        funds[0].amount
    } else {
        native_paid(funds.drop_first())
    }
}

/// The native coin paid by the coins `funds`.
pub fn native_payment(funds: &Vec<Coin>) -> (r: u128)
    ensures
        r == native_paid(funds@),
{
    let native: String = "uxion".to_owned();
    let mut i: usize = 0;
    assert(funds@.skip(0) =~= funds@);
    while i < funds.len()
        invariant
            i <= funds@.len(),
            native@ == native_denom(),
            native_paid(funds@) == native_paid(funds@.skip(i as int)),
        decreases funds@.len() - i,
    {
        assert(funds@.skip(i as int).drop_first() =~= funds@.skip(i + 1));
        if funds[i].denom == native {
            return funds[i].amount;
        }
        i = i + 1;
    }
    assert(funds@.skip(i as int).len() == 0);
    0
}

/// The outcome of the call `info` asking for `msg`.
pub open spec fn execute_spec(
    s: Store,
    t: Store,
    contract_address: String,
    info: MessageInfo,
    msg: ExecuteMsg,
    offered_owner: Option<String>,
    r: Result<Vec<Effect>, ContractError>,
) -> bool {
    match msg {
        ExecuteMsg::Buy { id } => buy_spec(s, t, info.sender, native_paid(info.funds@), id, None, r),
        ExecuteMsg::Offer { target, offered_price } => offer_spec(
            s,
            t,
            info.sender,
            native_paid(info.funds@),
            target,
            offered_price,
            None,
            contract_address,
            r,
        ),
        ExecuteMsg::AcceptOffer { id, offerer } => accept_offer_spec(
            s,
            t,
            info.sender,
            id,
            offerer,
            r,
        ),
        ExecuteMsg::CancelOffer { id } => refund_offer_spec(
            s,
            t,
            info.sender,
            id,
            info.sender,
            false,
            r,
        ),
        ExecuteMsg::RejectOffer { id, offerer } => refund_offer_spec(
            s,
            t,
            info.sender,
            id,
            offerer,
            true,
            r,
        ),
        ExecuteMsg::AcceptTrade { id, trader } => accept_trade_spec(
            s,
            t,
            info.sender,
            id,
            trader,
            r,
        ),
        ExecuteMsg::CancelTrade { id } => cancel_trade_spec(s, t, info.sender, id, r),
        ExecuteMsg::CancelListing { id } => cancel_listing_spec(s, t, info.sender, id, r),
        ExecuteMsg::Receive(deposit) => receive_spec(
            s,
            t,
            contract_address,
            info.sender,
            deposit,
            r,
        ),
        ExecuteMsg::ReceiveNft(deposit) => receive_nft_spec(
            s,
            t,
            info.sender,
            deposit,
            offered_owner,
            r,
        ),
    }
}

/// A new marketplace for the given registries, with no records.
pub fn instantiate(msg: InstantiateMsg) -> (r: Store)
    ensures
        r.wf(),
        r.config.cw721_address == msg.cw721_address,
        r.config.cw20_address == msg.cw20_address,
        r.listings@.len() == 0,
        r.trades@.len() == 0,
        r.offers@.len() == 0,
        r.listing_counter == 0,
{
    Store::new(Config { cw721_address: msg.cw721_address, cw20_address: msg.cw20_address })
}

/// Handles a deposit of payment tokens reported by `caller`, which must be
/// the configured token registry.
pub fn execute_receive(
    store: &mut Store,
    contract_address: String,
    caller: String,
    deposit: TokenDeposit,
) -> (r: Result<Vec<Effect>, ContractError>)
    requires
        old(store).wf(),
    ensures
        final(store).wf(),
        receive_spec(*old(store), *final(store), contract_address, caller, deposit, r),
{
    if !(store.config.cw20_address == caller) {
        return Err(ContractError::Unauthorized {  });
    }
    match deposit.msg {
        ReceiveMsg::Buy { id } => receive_buy(store, id, deposit.sender, deposit.amount, caller),
        ReceiveMsg::Offer { target, offered_price } => receive_offer(
            store,
            contract_address,
            target,
            offered_price,
            deposit.sender,
            deposit.amount,
            caller,
        ),
    }
}

/// Handles a deposit of an item reported by `caller`, which must be the
/// configured item registry.
pub fn execute_receive_nft(
    store: &mut Store,
    caller: String,
    deposit: ItemDeposit,
    offered_owner: Option<String>,
) -> (r: Result<Vec<Effect>, ContractError>)
    requires
        old(store).wf(),
    ensures
        final(store).wf(),
        receive_nft_spec(*old(store), *final(store), caller, deposit, offered_owner, r),
{
    if !(store.config.cw721_address == caller) {
        return Err(ContractError::Unauthorized {  });
    }
    match deposit.msg {
        ReceiveNftMsg::NewListing { price, tradeable } => receive_new_listing(
            store,
            deposit.sender,
            deposit.token_id,
            price,
            tradeable,
        ),
        ReceiveNftMsg::NewTrade { target } => receive_new_trade(
            store,
            deposit.sender,
            deposit.token_id,
            target,
            offered_owner,
        ),
    }
}

/// Carries out the operation `msg` for the call `info`. `contract_address`
/// is the marketplace's own address; `offered_owner` is the owner the item
/// registry reports of an item deposited to propose a trade.
pub fn execute(
    store: &mut Store,
    contract_address: String,
    info: MessageInfo,
    msg: ExecuteMsg,
    offered_owner: Option<String>,
) -> (r: Result<Vec<Effect>, ContractError>)
    requires
        old(store).wf(),
    ensures
        final(store).wf(),
        execute_spec(*old(store), *final(store), contract_address, info, msg, offered_owner, r),
{
    match msg {
        ExecuteMsg::Buy { id } => {
            let paid = native_payment(&info.funds);
            execute_buy(store, info.sender, paid, id)
        },
        ExecuteMsg::Offer { target, offered_price } => {
            let paid = native_payment(&info.funds);
            execute_offer(store, info.sender, paid, contract_address, target, offered_price)
        },
        ExecuteMsg::AcceptOffer { id, offerer } => execute_accept_offer(
            store,
            info.sender,
            id,
            offerer,
        ),
        ExecuteMsg::CancelOffer { id } => execute_cancel_offer(store, info.sender, id),
        ExecuteMsg::RejectOffer { id, offerer } => execute_reject_offer(
            store,
            info.sender,
            id,
            offerer,
        ),
        ExecuteMsg::AcceptTrade { id, trader } => execute_accept_trade(
            store,
            info.sender,
            id,
            trader,
        ),
        ExecuteMsg::CancelTrade { id } => execute_cancel_trade(store, info.sender, id),
        ExecuteMsg::CancelListing { id } => execute_cancel_listing(store, info.sender, id),
        ExecuteMsg::Receive(deposit) => execute_receive(
            store,
            contract_address,
            info.sender,
            deposit,
        ),
        ExecuteMsg::ReceiveNft(deposit) => execute_receive_nft(
            store,
            info.sender,
            deposit,
            offered_owner,
        ),
    }
}

} // verus!
