use vstd::prelude::*;

use crate::error::{ContractError, RecordKind};
use crate::msg::QueryMsg;
use crate::state::{
    has_listing, has_offer, has_trade, listing_of, offer_of, trade_of, Listing, Offer, Store,
    Trade,
};

verus! {

/// How many records a page holds when the caller names no limit.
pub const DEFAULT_LIMIT: u64 = 10;

/// Where a page of a table of `len` records starts: `from_index`, or 0, but
/// not past the end.
pub open spec fn page_start(len: nat, from_index: Option<u64>) -> int {
    let from = match from_index {
        Some(f) => f as int,
        None => 0,
    };
    if from < len {
        from
    } else {
        len as int
    }
}

/// Where that page ends: `limit` records on, or 10, but not past the end.
pub open spec fn page_end(len: nat, from_index: Option<u64>, limit: Option<u64>) -> int {
    let start = page_start(len, from_index);
    let lim = match limit {
        Some(l) => l as int,
        None => DEFAULT_LIMIT as int,
    };
    if start + lim < len {
        start + lim
    } else {
        len as int
    }
}

/// The window of `s` that a page covers, before any filter.
pub open spec fn page<T>(s: Seq<T>, from_index: Option<u64>, limit: Option<u64>) -> Seq<T> {
    s.subrange(page_start(s.len(), from_index), page_end(s.len(), from_index, limit))
}

/// Listings of `seller`, or all listings when there is none.
pub open spec fn listing_filter(seller: Option<String>) -> spec_fn(Listing) -> bool {
    |l: Listing|
        match seller {
            Some(s) => l.owner@ == s@,
            None => true,
        }
}

/// Trades by `trader` and for item `id`, each where given.
pub open spec fn trade_filter(trader: Option<String>, id: Option<String>) -> spec_fn(Trade) -> bool {
    |t: Trade|
        (match trader {
            Some(a) => t.trader@ == a@,
            None => true,
        }) && (match id {
            Some(i) => t.asked_id@ == i@,
            None => true,
        })
}

/// Offers by `offerer` and for item `id`, each where given.
pub open spec fn offer_filter(offerer: Option<String>, id: Option<String>) -> spec_fn(Offer) -> bool {
    |o: Offer|
        (match offerer {
            Some(a) => o.offerer@ == a@,
            None => true,
        }) && (match id {
            Some(i) => o.asked_id@ == i@,
            None => true,
        })
}

/// The bounds of a page over a table of `len` records.
fn page_bounds(len: usize, from_index: Option<u64>, limit: Option<u64>) -> (r: (usize, usize))
    ensures
        r.0 == page_start(len as nat, from_index),
        r.1 == page_end(len as nat, from_index, limit),
        r.0 <= r.1 <= len,
{
    let from: u64 = match from_index {
        Some(f) => f,
        None => 0,
    };
    let lim: u64 = match limit {
        Some(l) => l,
        None => DEFAULT_LIMIT,
    };
    let start: usize = if (from as u128) < (len as u128) {
        from as usize
    } else {
        len
    };
    let rest: usize = len - start;
    let take: usize = if (lim as u128) < (rest as u128) {
        lim as usize
    } else {
        rest
    };
    (start, start + take)
}

/// The number of listings standing.
pub fn get_listing_count(store: &Store) -> (r: u128)
    requires
        store.wf(),
    ensures
        r == store.listings@.len(),
{
    store.listing_counter
}

/// The listing of item `id`.
pub fn get_listing(store: &Store, id: String) -> (r: Result<Listing, ContractError>)
    requires
        store.wf(),
    ensures
        has_listing(store.listings@, id@) ==> r == Ok::<Listing, ContractError>(
            listing_of(store.listings@, id@),
        ),
        !has_listing(store.listings@, id@) ==> r == Err::<Listing, ContractError>(
            ContractError::NotFound { kind: RecordKind::Listing },
        ),
{
    match store.find_listing(&id) {
        Some(i) => Ok(store.listings[i].duplicate()),
        None => Err(ContractError::NotFound { kind: RecordKind::Listing }),
    }
}

/// The trade `trader` proposed for item `id`.
pub fn get_trade(store: &Store, id: String, trader: String) -> (r: Result<Trade, ContractError>)
    requires
        store.wf(),
    ensures
        has_trade(store.trades@, id@, trader@) ==> r == Ok::<Trade, ContractError>(
            trade_of(store.trades@, id@, trader@),
        ),
        !has_trade(store.trades@, id@, trader@) ==> r == Err::<Trade, ContractError>(
            ContractError::NotFound { kind: RecordKind::Trade },
        ),
{
    match store.find_trade(&id, &trader) {
        Some(i) => Ok(store.trades[i].duplicate()),
        None => Err(ContractError::NotFound { kind: RecordKind::Trade }),
    }
}

/// The offer of `offerer` for item `id`.
pub fn get_offer(store: &Store, id: String, offerer: String) -> (r: Result<Offer, ContractError>)
    requires
        store.wf(),
    ensures
        has_offer(store.offers@, id@, offerer@) ==> r == Ok::<Offer, ContractError>(
            offer_of(store.offers@, id@, offerer@),
        ),
        !has_offer(store.offers@, id@, offerer@) ==> r == Err::<Offer, ContractError>(
            ContractError::NotFound { kind: RecordKind::Offer },
        ),
{
    match store.find_offer(&id, &offerer) {
        Some(i) => Ok(store.offers[i].duplicate()),
        None => Err(ContractError::NotFound { kind: RecordKind::Offer }),
    }
}

/// The listings of a page that pass the seller filter.
fn scan_listings(
    store: &Store,
    seller: Option<String>,
    from_index: Option<u64>,
    limit: Option<u64>,
) -> (r: Vec<Listing>)
    ensures
        r@ == page(store.listings@, from_index, limit).filter(listing_filter(seller)),
{
    let ghost s = store.listings@;
    let ghost pred = listing_filter(seller);
    let (start, end) = page_bounds(store.listings.len(), from_index, limit);
    let mut out: Vec<Listing> = Vec::new();
    let mut k: usize = start;
    while k < end
        invariant
            s == store.listings@,
            pred == listing_filter(seller),
            start <= k <= end <= s.len(),
            out@ == s.subrange(start as int, k as int).filter(pred),
        decreases end - k,
    {
        let keep = match &seller {
            Some(a) => store.listings[k].owner == *a,
            None => true,
        };
        if keep {
            out.push(store.listings[k].duplicate());
        }
        proof {
            let w = s.subrange(start as int, k + 1);
            assert(w.drop_last() =~= s.subrange(start as int, k as int));
            reveal_with_fuel(Seq::filter, 1);
        }
        k = k + 1;
    }
    out
}

/// The trades of a page that pass the filter.
fn scan_trades(
    store: &Store,
    trader: Option<String>,
    id: Option<String>,
    from_index: Option<u64>,
    limit: Option<u64>,
) -> (r: Vec<Trade>)
    ensures
        r@ == page(store.trades@, from_index, limit).filter(trade_filter(trader, id)),
{
    let ghost s = store.trades@;
    let ghost pred = trade_filter(trader, id);
    let (start, end) = page_bounds(store.trades.len(), from_index, limit);
    let mut out: Vec<Trade> = Vec::new();
    let mut k: usize = start;
    while k < end
        invariant
            s == store.trades@,
            pred == trade_filter(trader, id),
            start <= k <= end <= s.len(),
            out@ == s.subrange(start as int, k as int).filter(pred),
        decreases end - k,
    {
        let by_who = match &trader {
            Some(a) => store.trades[k].trader == *a,
            None => true,
        };
        let by_id = match &id {
            Some(i) => store.trades[k].asked_id == *i,
            None => true,
        };
        let keep = by_who && by_id;
        if keep {
            out.push(store.trades[k].duplicate());
        }
        proof {
            let w = s.subrange(start as int, k + 1);
            assert(w.drop_last() =~= s.subrange(start as int, k as int));
            reveal_with_fuel(Seq::filter, 1);
        }
        k = k + 1;
    }
    out
}

/// The offers of a page that pass the filter.
fn scan_offers(
    store: &Store,
    offerer: Option<String>,
    id: Option<String>,
    from_index: Option<u64>,
    limit: Option<u64>,
) -> (r: Vec<Offer>)
    ensures
        r@ == page(store.offers@, from_index, limit).filter(offer_filter(offerer, id)),
{
    let ghost s = store.offers@;
    let ghost pred = offer_filter(offerer, id);
    let (start, end) = page_bounds(store.offers.len(), from_index, limit);
    let mut out: Vec<Offer> = Vec::new();
    let mut k: usize = start;
    while k < end
        invariant
            s == store.offers@,
            pred == offer_filter(offerer, id),
            start <= k <= end <= s.len(),
            out@ == s.subrange(start as int, k as int).filter(pred),
        decreases end - k,
    {
        let by_who = match &offerer {
            Some(a) => store.offers[k].offerer == *a,
            None => true,
        };
        let by_id = match &id {
            Some(i) => store.offers[k].asked_id == *i,
            None => true,
        };
        let keep = by_who && by_id;
        if keep {
            out.push(store.offers[k].duplicate());
        }
        proof {
            let w = s.subrange(start as int, k + 1);
            assert(w.drop_last() =~= s.subrange(start as int, k as int));
            reveal_with_fuel(Seq::filter, 1);
        }
        k = k + 1;
    }
    out
}

/// The listings of `seller` within the window `from_index`, `limit` (by
/// default 0 and 10) of all listings: the filter applies after the window.
pub fn get_listings_seller(
    store: &Store,
    seller: String,
    from_index: Option<u64>,
    limit: Option<u64>,
) -> (r: Vec<Listing>)
    requires
        store.wf(),
    ensures
        r@ == page(store.listings@, from_index, limit).filter(listing_filter(Some(seller))),
{
    scan_listings(store, Some(seller), from_index, limit)
}

/// The listings within the window `from_index`, `limit` (by default 0 and 10),
/// in ascending order of item, as the store keeps them.
pub fn get_all_listings(store: &Store, from_index: Option<u64>, limit: Option<u64>) -> (r: Vec<
    Listing,
>)
    requires
        store.wf(),
    ensures
        r@ == page(store.listings@, from_index, limit),
{
    let r = scan_listings(store, None, from_index, limit);
    proof {
        lemma_filter_all(page(store.listings@, from_index, limit), listing_filter(None));
    }
    r
}

/// The trades proposed by `address` within the window `from_index`, `limit`
/// of all trades.
pub fn get_trades_address(
    store: &Store,
    address: String,
    from_index: Option<u64>,
    limit: Option<u64>,
) -> (r: Vec<Trade>)
    requires
        store.wf(),
    ensures
        r@ == page(store.trades@, from_index, limit).filter(trade_filter(Some(address), None)),
{
    scan_trades(store, Some(address), None, from_index, limit)
}

/// The trades asking for item `id` within the window `from_index`, `limit`
/// of all trades.
pub fn get_trades_id(
    store: &Store,
    id: String,
    from_index: Option<u64>,
    limit: Option<u64>,
) -> (r: Vec<Trade>)
    requires
        store.wf(),
    ensures
        r@ == page(store.trades@, from_index, limit).filter(trade_filter(None, Some(id))),
{
    scan_trades(store, None, Some(id), from_index, limit)
}

/// The trades within the window `from_index`, `limit`, in ascending order of
/// key, as the store keeps them.
pub fn get_all_trades(store: &Store, from_index: Option<u64>, limit: Option<u64>) -> (r: Vec<
    Trade,
>)
    requires
        store.wf(),
    ensures
        r@ == page(store.trades@, from_index, limit),
{
    let r = scan_trades(store, None, None, from_index, limit);
    proof {
        lemma_filter_all(page(store.trades@, from_index, limit), trade_filter(None, None));
    }
    r
}

/// The offers made by `address` within the window `from_index`, `limit`
/// of all offers.
pub fn get_offers_address(
    store: &Store,
    address: String,
    from_index: Option<u64>,
    limit: Option<u64>,
) -> (r: Vec<Offer>)
    requires
        store.wf(),
    ensures
        r@ == page(store.offers@, from_index, limit).filter(offer_filter(Some(address), None)),
{
    scan_offers(store, Some(address), None, from_index, limit)
}

/// The offers for item `id` within the window `from_index`, `limit` of all
/// offers.
pub fn get_offers_id(
    store: &Store,
    id: String,
    from_index: Option<u64>,
    limit: Option<u64>,
) -> (r: Vec<Offer>)
    requires
        store.wf(),
    ensures
        r@ == page(store.offers@, from_index, limit).filter(offer_filter(None, Some(id))),
{
    scan_offers(store, None, Some(id), from_index, limit)
}

/// The offers within the window `from_index`, `limit`, in ascending order of
/// key, as the store keeps them.
pub fn get_all_offers(store: &Store, from_index: Option<u64>, limit: Option<u64>) -> (r: Vec<
    Offer,
>)
    requires
        store.wf(),
    ensures
        r@ == page(store.offers@, from_index, limit),
{
    let r = scan_offers(store, None, None, from_index, limit);
    proof {
        lemma_filter_all(page(store.offers@, from_index, limit), offer_filter(None, None));
    }
    r
}

/// A filter that keeps everything leaves a sequence as it is.
proof fn lemma_filter_all<T>(s: Seq<T>, pred: spec_fn(T) -> bool)
    requires
        forall|x: T| #[trigger] pred(x),
    ensures
        s.filter(pred) == s,
    decreases s.len(),
{
    reveal_with_fuel(Seq::filter, 1);
    if s.len() > 0 {
        lemma_filter_all(s.drop_last(), pred);
        assert(s.drop_last().push(s.last()) =~= s);
    }
}

/// The answer to a question of [`QueryMsg`].
#[derive(Clone, Debug, PartialEq, Eq)]
pub enum QueryResponse {
    Listing(Listing),
    Listings(Vec<Listing>),
    Count(u128),
    Trade(Trade),
    Trades(Vec<Trade>),
    Offer(Offer),
    Offers(Vec<Offer>),
}

/// Answers the question `msg`.
pub fn query(store: &Store, msg: QueryMsg) -> (r: Result<QueryResponse, ContractError>)
    requires
        store.wf(),
    ensures
        match msg {
            QueryMsg::GetListing { id } => if has_listing(store.listings@, id@) {
                r == Ok::<QueryResponse, ContractError>(
                    QueryResponse::Listing(listing_of(store.listings@, id@)),
                )
            } else {
                r == Err::<QueryResponse, ContractError>(
                    ContractError::NotFound { kind: RecordKind::Listing },
                )
            },
            QueryMsg::GetListingsBySeller { seller, from_index, limit } => r matches Ok(
                QueryResponse::Listings(v),
            ) && v@ == page(store.listings@, from_index, limit).filter(
                listing_filter(Some(seller)),
            ),
            QueryMsg::GetAllListings { from_index, limit } => r matches Ok(
                QueryResponse::Listings(v),
            ) && v@ == page(store.listings@, from_index, limit),
            QueryMsg::GetListingCount {  } => r == Ok::<QueryResponse, ContractError>(
                QueryResponse::Count(store.listings@.len() as u128),
            ),
            QueryMsg::GetTrade { id, trader } => if has_trade(store.trades@, id@, trader@) {
                r == Ok::<QueryResponse, ContractError>(
                    QueryResponse::Trade(trade_of(store.trades@, id@, trader@)),
                )
            } else {
                r == Err::<QueryResponse, ContractError>(
                    ContractError::NotFound { kind: RecordKind::Trade },
                )
            },
            QueryMsg::GetTradesByAddress { address, from_index, limit } => r matches Ok(
                QueryResponse::Trades(v),
            ) && v@ == page(store.trades@, from_index, limit).filter(
                trade_filter(Some(address), None),
            ),
            QueryMsg::GetTradesById { id, from_index, limit } => r matches Ok(
                QueryResponse::Trades(v),
            ) && v@ == page(store.trades@, from_index, limit).filter(
                trade_filter(None, Some(id)),
            ),
            QueryMsg::GetAllTrades { from_index, limit } => r matches Ok(
                QueryResponse::Trades(v),
            ) && v@ == page(store.trades@, from_index, limit),
            QueryMsg::GetOffer { id, offerer } => if has_offer(store.offers@, id@, offerer@) {
                r == Ok::<QueryResponse, ContractError>(
                    QueryResponse::Offer(offer_of(store.offers@, id@, offerer@)),
                )
            } else {
                r == Err::<QueryResponse, ContractError>(
                    ContractError::NotFound { kind: RecordKind::Offer },
                )
            },
            QueryMsg::GetOffersByAddress { address, from_index, limit } => r matches Ok(
                QueryResponse::Offers(v),
            ) && v@ == page(store.offers@, from_index, limit).filter(
                offer_filter(Some(address), None),
            ),
            QueryMsg::GetOffersById { id, from_index, limit } => r matches Ok(
                QueryResponse::Offers(v),
            ) && v@ == page(store.offers@, from_index, limit).filter(
                offer_filter(None, Some(id)),
            ),
            QueryMsg::GetAllOffers { from_index, limit } => r matches Ok(
                QueryResponse::Offers(v),
            ) && v@ == page(store.offers@, from_index, limit),
        },
{
    match msg {
        QueryMsg::GetListing { id } => match get_listing(store, id) {
            Ok(l) => Ok(QueryResponse::Listing(l)),
            Err(e) => Err(e),
        },
        QueryMsg::GetListingsBySeller { seller, from_index, limit } => Ok(
            QueryResponse::Listings(get_listings_seller(store, seller, from_index, limit)),
        ),
        QueryMsg::GetAllListings { from_index, limit } => Ok(
            QueryResponse::Listings(get_all_listings(store, from_index, limit)),
        ),
        QueryMsg::GetListingCount {  } => Ok(QueryResponse::Count(get_listing_count(store))),
        QueryMsg::GetTrade { id, trader } => match get_trade(store, id, trader) {
            Ok(t) => Ok(QueryResponse::Trade(t)),
            Err(e) => Err(e),
        },
        QueryMsg::GetTradesByAddress { address, from_index, limit } => Ok(
            QueryResponse::Trades(get_trades_address(store, address, from_index, limit)),
        ),
        QueryMsg::GetTradesById { id, from_index, limit } => Ok(
            QueryResponse::Trades(get_trades_id(store, id, from_index, limit)),
        ),
        QueryMsg::GetAllTrades { from_index, limit } => Ok(
            QueryResponse::Trades(get_all_trades(store, from_index, limit)),
        ),
        QueryMsg::GetOffer { id, offerer } => match get_offer(store, id, offerer) {
            Ok(o) => Ok(QueryResponse::Offer(o)),
            Err(e) => Err(e),
        },
        QueryMsg::GetOffersByAddress { address, from_index, limit } => Ok(
            QueryResponse::Offers(get_offers_address(store, address, from_index, limit)),
        ),
        QueryMsg::GetOffersById { id, from_index, limit } => Ok(
            QueryResponse::Offers(get_offers_id(store, id, from_index, limit)),
        ),
        QueryMsg::GetAllOffers { from_index, limit } => Ok(
            QueryResponse::Offers(get_all_offers(store, from_index, limit)),
        ),
    }
}

} // verus!
