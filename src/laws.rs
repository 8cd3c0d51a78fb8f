use vstd::prelude::*;

use crate::contract::{
    accept_offer_spec, accept_trade_spec, buy_spec, cancel_listing_spec, cancel_trade_spec,
    execute_spec, new_trade_spec, refund_offer_spec,
};
use crate::error::{ContractError, RecordKind};
use crate::msg::{ExecuteMsg, MessageInfo, ReceiveMsg};
use crate::state::{
    has_listing, has_offer, has_trade, lemma_trade_index, lemma_trade_slot, trade_slot, listing_index, listing_of,
    listings_unique, listings_without, trade_at, trade_index, trade_of, trades_unique, Effect,
    Listing, Store, Trade,
};

verus! {

/// Taking out the listing of an item that has one leaves one listing fewer.
pub proof fn lemma_without_len(s: Seq<Listing>, id: Seq<char>)
    ensures
        listings_without(s, id).len() == if has_listing(s, id) {
            s.len() - 1
        } else {
            s.len() as int
        },
{
    if has_listing(s, id) {
        let i = listing_index(s, id);
        assert(0 <= i < s.len());
    }
}

/// Taking a listing out of a table with unique keys leaves no listing for its item.
pub proof fn lemma_listing_gone(s: Seq<Listing>, i: int)
    requires
        listings_unique(s),
        0 <= i < s.len(),
    ensures
        !has_listing(s.remove(i), s[i].nft_id@),
{
    let t = s.remove(i);
    assert forall|j: int| 0 <= j < t.len() implies (#[trigger] t[j]).nft_id@ != s[i].nft_id@ by {
        let j0 = if j < i { j } else { j + 1 };
        assert(t[j] == s[j0]);
    }
}

/// Removing listings never brings back an item that had none.
pub proof fn lemma_absent_stays_absent(s: Seq<Listing>, x: Seq<char>, id: Seq<char>)
    requires
        !has_listing(s, id),
    ensures
        !has_listing(listings_without(s, x), id),
{
    if has_listing(s, x) {
        let i = listing_index(s, x);
        let t = s.remove(i);
        assert forall|j: int| 0 <= j < t.len() implies (#[trigger] t[j]).nft_id@ != id by {
            let j0 = if j < i { j } else { j + 1 };
            assert(t[j] == s[j0]);
        }
    }
}

/// Taking a trade out of a table with unique keys leaves no trade at its key.
pub proof fn lemma_trade_gone(s: Seq<Trade>, i: int)
    requires
        trades_unique(s),
        0 <= i < s.len(),
    ensures
        !has_trade(s.remove(i), s[i].asked_id@, s[i].trader@),
{
    let t = s.remove(i);
    assert forall|j: int| 0 <= j < t.len() implies !trade_at(
        #[trigger] t[j],
        s[i].asked_id@,
        s[i].trader@,
    ) by {
        let j0 = if j < i { j } else { j + 1 };
        assert(t[j] == s[j0]);
    }
}

/// Whatever operation is carried out, and whether it succeeds or fails, the
/// listing counter afterwards equals the number of listings standing.
pub proof fn lemma_counter_tracks_listings(
    s: Store,
    t: Store,
    contract_address: String,
    info: MessageInfo,
    msg: ExecuteMsg,
    offered_owner: Option<String>,
    r: Result<Vec<Effect>, ContractError>,
)
    requires
        s.wf(),
        execute_spec(s, t, contract_address, info, msg, offered_owner, r),
    ensures
        t.listing_counter == t.listings@.len(),
{
    let ls = s.listings@;
    match msg {
        ExecuteMsg::AcceptTrade { id, trader } => {
            if has_listing(ls, id@) {
                lemma_without_len(ls, id@);
                let rest = ls.remove(listing_index(ls, id@));
                lemma_without_len(rest, trade_of(s.trades@, id@, trader@).to_trade_id@);
            }
        },
        ExecuteMsg::Buy { id } => {
            lemma_without_len(ls, id@);
        },
        ExecuteMsg::AcceptOffer { id, offerer } => {
            lemma_without_len(ls, id@);
        },
        ExecuteMsg::CancelListing { id } => {
            lemma_without_len(ls, id@);
        },
        ExecuteMsg::Receive(deposit) => {
            match deposit.msg {
                ReceiveMsg::Buy { id } => {
                    lemma_without_len(ls, id@);
                },
                _ => {},
            }
        },
        _ => {},
    }
}

/// A purchase whose payment differs from the listed price fails with the
/// price and leaves the listing, the counter, and every offer and trade as
/// they were.
pub proof fn lemma_wrong_payment_changes_nothing(
    s: Store,
    t: Store,
    buyer: String,
    paid: u128,
    id: String,
    token: Option<String>,
    r: Result<Vec<Effect>, ContractError>,
)
    requires
        s.wf(),
        has_listing(s.listings@, id@),
        listing_of(s.listings@, id@).price.value() != paid as nat,
        buy_spec(s, t, buyer, paid, id, token, r),
    ensures
        r == Err::<Vec<Effect>, ContractError>(
            ContractError::IncorrectPayment { price: listing_of(s.listings@, id@).price },
        ),
        t == s,
{
}

/// Accepting an offer for a listing the caller does not own fails as
/// unauthorized and changes nothing.
pub proof fn lemma_accept_offer_needs_owner(
    s: Store,
    t: Store,
    caller: String,
    asked_id: String,
    offerer: String,
    r: Result<Vec<Effect>, ContractError>,
)
    requires
        s.wf(),
        has_offer(s.offers@, asked_id@, offerer@),
        has_listing(s.listings@, asked_id@),
        listing_of(s.listings@, asked_id@).owner@ != caller@,
        accept_offer_spec(s, t, caller, asked_id, offerer, r),
    ensures
        r == Err::<Vec<Effect>, ContractError>(ContractError::Unauthorized {  }),
        t == s,
{
}

/// A trade proposed by the owner of the offered item against a listing fails
/// when that listing does not accept trades, and otherwise leaves exactly
/// one trade at key `(asked_id, trader)`: the one proposed.
pub proof fn lemma_trade_proposal(
    s: Store,
    t: Store,
    trader: String,
    offered_id: String,
    asked_id: String,
    offered_owner: Option<String>,
    r: Result<Vec<Effect>, ContractError>,
)
    requires
        s.wf(),
        t.wf(),
        offered_owner matches Some(o) && o@ == trader@,
        has_listing(s.listings@, asked_id@),
        new_trade_spec(s, t, trader, offered_id, asked_id, offered_owner, r),
    ensures
        !listing_of(s.listings@, asked_id@).tradeable ==> r == Err::<Vec<Effect>, ContractError>(
            ContractError::NonTradeable {  },
        ) && t == s,
        listing_of(s.listings@, asked_id@).tradeable ==> {
            &&& r is Ok
            &&& has_trade(t.trades@, asked_id@, trader@)
            &&& forall|i: int|
                0 <= i < t.trades@.len() && trade_at(#[trigger] t.trades@[i], asked_id@, trader@)
                    ==> t.trades@[i] == (Trade { asked_id, to_trade_id: offered_id, trader })
        },
{
    if listing_of(s.listings@, asked_id@).tradeable {
        let new = Trade { asked_id, to_trade_id: offered_id, trader };
        let pos = if has_trade(s.trades@, asked_id@, trader@) {
            trade_index(s.trades@, asked_id@, trader@)
        } else {
            lemma_trade_slot(s.trades@, (asked_id@, trader@));
            trade_slot(s.trades@, (asked_id@, trader@))
        };
        if !has_trade(s.trades@, asked_id@, trader@) {
            s.trades@.insert_ensures(pos, new);
        }
        assert(t.trades@[pos] == new);
        lemma_trade_index(t.trades@, pos);
        assert forall|i: int|
            0 <= i < t.trades@.len() && trade_at(
                #[trigger] t.trades@[i],
                asked_id@,
                trader@,
            ) implies t.trades@[i] == new by {
            if i != pos {
                assert(!trade_at(t.trades@[i], t.trades@[pos].asked_id@, t.trades@[pos].trader@));
            }
        }
    }
}

/// Accepting a trade succeeds, takes out the trade and the asked item's
/// listing, takes one off the counter for each listing taken out (two where
/// the offered item was listed too), and dispatches exactly two item
/// transfers.
pub proof fn lemma_accept_trade_settles(
    s: Store,
    t: Store,
    caller: String,
    asked_id: String,
    trader: String,
    r: Result<Vec<Effect>, ContractError>,
)
    requires
        s.wf(),
        has_trade(s.trades@, asked_id@, trader@),
        has_listing(s.listings@, asked_id@),
        listing_of(s.listings@, asked_id@).owner@ == caller@,
        accept_trade_spec(s, t, caller, asked_id, trader, r),
    ensures
        r is Ok,
        !has_trade(t.trades@, asked_id@, trader@),
        !has_listing(t.listings@, asked_id@),
        has_listing(s.listings@, trade_of(s.trades@, asked_id@, trader@).to_trade_id@)
            && trade_of(s.trades@, asked_id@, trader@).to_trade_id@ != asked_id@
            ==> t.listing_counter == s.listing_counter - 2,
        !has_listing(s.listings@, trade_of(s.trades@, asked_id@, trader@).to_trade_id@)
            ==> t.listing_counter == s.listing_counter - 1,
        r matches Ok(v) ==> v@.len() == 2 && (v@[0] is TransferItem) && (v@[1] is TransferItem),
{
    let ti = trade_index(s.trades@, asked_id@, trader@);
    let li = listing_index(s.listings@, asked_id@);
    let ls = s.listings@;
    let rest = ls.remove(li);
    let offered = trade_of(s.trades@, asked_id@, trader@).to_trade_id@;
    lemma_trade_gone(s.trades@, ti);
    lemma_listing_gone(ls, li);
    lemma_absent_stays_absent(rest, offered, asked_id@);
    if has_listing(ls, offered) && offered != asked_id@ {
        let k = listing_index(ls, offered);
        let k2 = if k < li { k } else { k - 1 };
        assert(k != li);
        assert(rest[k2] == ls[k]);
        assert(has_listing(rest, offered));
    }
    if !has_listing(ls, offered) {
        assert forall|j: int| 0 <= j < rest.len() implies (#[trigger] rest[j]).nft_id@
            != offered by {
            let j0 = if j < li { j } else { j + 1 };
            assert(rest[j] == ls[j0]);
        }
    }
}

/// Withdrawing an offer, a trade or a listing that does not exist fails as
/// not found and changes nothing.
pub proof fn lemma_cancel_missing_fails(
    s: Store,
    t1: Store,
    t2: Store,
    t3: Store,
    caller: String,
    id: String,
    r1: Result<Vec<Effect>, ContractError>,
    r2: Result<Vec<Effect>, ContractError>,
    r3: Result<Vec<Effect>, ContractError>,
)
    requires
        s.wf(),
        refund_offer_spec(s, t1, caller, id, caller, false, r1),
        cancel_trade_spec(s, t2, caller, id, r2),
        cancel_listing_spec(s, t3, caller, id, r3),
    ensures
        !has_offer(s.offers@, id@, caller@) ==> r1 == Err::<Vec<Effect>, ContractError>(
            ContractError::NotFound { kind: RecordKind::Offer },
        ) && t1 == s,
        !has_trade(s.trades@, id@, caller@) ==> r2 == Err::<Vec<Effect>, ContractError>(
            ContractError::NotFound { kind: RecordKind::Trade },
        ) && t2 == s,
        !has_listing(s.listings@, id@) ==> r3 == Err::<Vec<Effect>, ContractError>(
            ContractError::NotFound { kind: RecordKind::Listing },
        ) && t3 == s,
{
}

} // verus!
