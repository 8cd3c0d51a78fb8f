use vstd::prelude::*;

use crate::order::{
    key_lt, lemma_key_order, lemma_pair_order, pair_lt, pair_str_lt, str_lt,
};
use crate::uint::Uint256;
use crate::wire::{token_transfer_json, transfer_nft_json};

verus! {

/// The two registries the marketplace deals with; fixed once created.
#[derive(Clone, Debug, PartialEq, Eq)]
pub struct Config {
    /// The item registry.
    pub cw721_address: String,
    /// The payment-token registry.
    pub cw20_address: String,
}

/// An item offered for sale, keyed by its identifier.
#[derive(Clone, Debug, PartialEq, Eq)]
pub struct Listing {
    pub nft_id: String,
    pub price: Uint256,
    pub owner: String,
    pub tradeable: bool,
}

/// A standing proposal to swap the escrowed item `to_trade_id` for the
/// listed item `asked_id`, keyed by `(asked_id, trader)`.
#[derive(Clone, Debug, PartialEq, Eq)]
pub struct Trade {
    pub asked_id: String,
    pub to_trade_id: String,
    pub trader: String,
}

impl Listing {
    /// A copy of this listing.
    pub fn duplicate(&self) -> (r: Listing)
        ensures
            r == *self,
    {
        Listing {
            nft_id: self.nft_id.clone(),
            price: self.price,
            owner: self.owner.clone(),
            tradeable: self.tradeable,
        }
    }
}

impl Trade {
    /// A copy of this trade.
    pub fn duplicate(&self) -> (r: Trade)
        ensures
            r == *self,
    {
        Trade {
            asked_id: self.asked_id.clone(),
            to_trade_id: self.to_trade_id.clone(),
            trader: self.trader.clone(),
        }
    }
}

/// How an offer was paid, and so how it is paid out again.
#[derive(Clone, Copy, Debug, PartialEq, Eq, Structural)]
pub enum CoinType {
    Native,
    Cw20,
}

/// A standing bid for a listed item, keyed by `(asked_id, offerer)`.
#[derive(Clone, Debug, PartialEq, Eq)]
pub struct Offer {
    pub asked_id: String,
    pub offerer: String,
    pub amount_offered: Uint256,
    pub amount_type: CoinType,
}

impl Offer {
    /// A copy of this offer.
    pub fn duplicate(&self) -> (r: Offer)
        ensures
            r == *self,
    {
        Offer {
            asked_id: self.asked_id.clone(),
            offerer: self.offerer.clone(),
            amount_offered: self.amount_offered,
            amount_type: self.amount_type,
        }
    }
}

/// The tag an item transfer carries so that its confirmation can be told apart.
#[derive(Clone, Copy, Debug, PartialEq, Eq, Structural)]
pub enum ReplyKind {
    Listing,
    Trade,
    Offer,
}

/// An outbound call, dispatched by the operation that returns it.
#[derive(Clone, Debug, PartialEq, Eq)]
pub enum Effect {
    /// Send `amount` of the native coin to `to_address`.
    SendNative { to_address: String, amount: u128 },
    /// Have the token registry `token` carry out the encoded instruction `msg`.
    TransferTokens { token: String, msg: Vec<u8> },
    /// Have the item registry `registry` carry out the encoded instruction
    /// `msg`; with `confirm` set, the registry confirms under that tag.
    TransferItem { registry: String, msg: Vec<u8>, confirm: Option<ReplyKind> },
}

/// The token registry an offer of kind `kind` is paid through, if any.
pub open spec fn coin_token(cfg: Config, kind: CoinType) -> Option<String> {
    match kind {
        CoinType::Native => None,
        CoinType::Cw20 => Some(cfg.cw20_address),
    }
}

/// Whether `e` pays `amount` to `to`: in the native coin when `token` is
/// `None`, else through that token registry.
pub open spec fn is_payment(e: Effect, token: Option<String>, to: Seq<char>, amount: u128) -> bool {
    match token {
        None => e matches Effect::SendNative { to_address, amount: a } && to_address@ == to && a
            == amount,
        Some(t) => e matches Effect::TransferTokens { token: reg, msg } && reg == t && msg@
            == token_transfer_json(to, amount),
    }
}

/// Whether `e` moves item `id` to `to` through the configured item registry,
/// asking for a confirmation under `confirm`.
pub open spec fn is_item_transfer(
    e: Effect,
    cfg: Config,
    to: Seq<char>,
    id: Seq<char>,
    confirm: Option<ReplyKind>,
) -> bool {
    e matches Effect::TransferItem { registry, msg, confirm: c } && registry == cfg.cw721_address
        && msg@ == transfer_nft_json(to, id) && c == confirm
}

/// Whether a listing for item `id` stands in `s`.
pub open spec fn has_listing(s: Seq<Listing>, id: Seq<char>) -> bool {
    exists|i: int| 0 <= i < s.len() && (#[trigger] s[i]).nft_id@ == id
}

/// Where the listing for item `id` stands in `s`, if it does.
pub open spec fn listing_index(s: Seq<Listing>, id: Seq<char>) -> int {
    choose|i: int| 0 <= i < s.len() && (#[trigger] s[i]).nft_id@ == id
}

/// The listing for item `id` in `s`, if it stands there.
pub open spec fn listing_of(s: Seq<Listing>, id: Seq<char>) -> Listing {
    s[listing_index(s, id)]
}

/// No two listings of `s` share an item.
pub open spec fn listings_unique(s: Seq<Listing>) -> bool {
    forall|i: int, j: int|
        0 <= i < s.len() && 0 <= j < s.len() && i != j ==> (#[trigger] s[i]).nft_id@
            != (#[trigger] s[j]).nft_id@
}

/// Whether `t` stands at key `(id, trader)`.
pub open spec fn trade_at(t: Trade, id: Seq<char>, trader: Seq<char>) -> bool {
    t.asked_id@ == id && t.trader@ == trader
}

pub open spec fn has_trade(s: Seq<Trade>, id: Seq<char>, trader: Seq<char>) -> bool {
    exists|i: int| 0 <= i < s.len() && trade_at(#[trigger] s[i], id, trader)
}

pub open spec fn trade_index(s: Seq<Trade>, id: Seq<char>, trader: Seq<char>) -> int {
    choose|i: int| 0 <= i < s.len() && trade_at(#[trigger] s[i], id, trader)
}

pub open spec fn trade_of(s: Seq<Trade>, id: Seq<char>, trader: Seq<char>) -> Trade {
    s[trade_index(s, id, trader)]
}

/// No two trades of `s` share a key.
pub open spec fn trades_unique(s: Seq<Trade>) -> bool {
    forall|i: int, j: int|
        0 <= i < s.len() && 0 <= j < s.len() && i != j ==> !trade_at(
            #[trigger] s[i],
            (#[trigger] s[j]).asked_id@,
            s[j].trader@,
        )
}

/// Whether `o` stands at key `(id, offerer)`.
pub open spec fn offer_at(o: Offer, id: Seq<char>, offerer: Seq<char>) -> bool {
    o.asked_id@ == id && o.offerer@ == offerer
}

pub open spec fn has_offer(s: Seq<Offer>, id: Seq<char>, offerer: Seq<char>) -> bool {
    exists|i: int| 0 <= i < s.len() && offer_at(#[trigger] s[i], id, offerer)
}

pub open spec fn offer_index(s: Seq<Offer>, id: Seq<char>, offerer: Seq<char>) -> int {
    choose|i: int| 0 <= i < s.len() && offer_at(#[trigger] s[i], id, offerer)
}

pub open spec fn offer_of(s: Seq<Offer>, id: Seq<char>, offerer: Seq<char>) -> Offer {
    s[offer_index(s, id, offerer)]
}

/// No two offers of `s` share a key.
pub open spec fn offers_unique(s: Seq<Offer>) -> bool {
    forall|i: int, j: int|
        0 <= i < s.len() && 0 <= j < s.len() && i != j ==> !offer_at(
            #[trigger] s[i],
            (#[trigger] s[j]).asked_id@,
            s[j].offerer@,
        )
}

/// Every offer of `s` fits in 128 bits.
pub open spec fn offers_fit(s: Seq<Offer>) -> bool {
    forall|i: int| 0 <= i < s.len() ==> (#[trigger] s[i]).amount_offered.hi == 0
}

/// No two offers of `s` share a key, and every amount fits in 128 bits
/// (an offer is only ever made of funds that were actually paid).
pub open spec fn offers_wf(s: Seq<Offer>) -> bool {
    offers_unique(s) && offers_fit(s)
}

/// `s` with `l` stored under its item: in place of the listing there, if any,
/// else at the place of its key.
pub open spec fn listings_put(s: Seq<Listing>, l: Listing) -> Seq<Listing> {
    if has_listing(s, l.nft_id@) {
        s.update(listing_index(s, l.nft_id@), l)
    } else {
        s.insert(listing_slot(s, l.nft_id@), l)
    }
}

/// `s` with the listing for item `id` taken out, if there is one.
pub open spec fn listings_without(s: Seq<Listing>, id: Seq<char>) -> Seq<Listing> {
    if has_listing(s, id) {
        s.remove(listing_index(s, id))
    } else {
        s
    }
}

/// `s` with `t` stored under its key: in place of the trade there, if any,
/// else at the place of its key.
pub open spec fn trades_put(s: Seq<Trade>, t: Trade) -> Seq<Trade> {
    if has_trade(s, t.asked_id@, t.trader@) {
        s.update(trade_index(s, t.asked_id@, t.trader@), t)
    } else {
        s.insert(trade_slot(s, (t.asked_id@, t.trader@)), t)
    }
}

/// `s` with `o` stored under its key: in place of the offer there, if any,
/// else at the place of its key.
pub open spec fn offers_put(s: Seq<Offer>, o: Offer) -> Seq<Offer> {
    if has_offer(s, o.asked_id@, o.offerer@) {
        s.update(offer_index(s, o.asked_id@, o.offerer@), o)
    } else {
        s.insert(offer_slot(s, (o.asked_id@, o.offerer@)), o)
    }
}

/// The listings of `s` come in ascending order of key (item).
pub open spec fn listings_sorted(s: Seq<Listing>) -> bool {
    forall|i: int, j: int| 0 <= i < j < s.len() ==> key_lt((#[trigger] s[i]).nft_id@, (#[trigger] s[j]).nft_id@)
}

/// Whether position `p` of `s` is where a listing with key `k` belongs: after
/// every listing with a smaller key, ahead of every listing with a larger one.
pub open spec fn listing_slot_at(s: Seq<Listing>, k: Seq<char>, p: int) -> bool {
    &&& 0 <= p <= s.len()
    &&& forall|i: int| 0 <= i < p ==> key_lt((#[trigger] s[i]).nft_id@, k)
    &&& forall|i: int| p <= i < s.len() ==> key_lt(k, (#[trigger] s[i]).nft_id@)
}

/// Where a listing with key `k` belongs in `s`.
pub open spec fn listing_slot(s: Seq<Listing>, k: Seq<char>) -> int {
    choose|p: int| listing_slot_at(s, k, p)
}

/// The trades of `s` come in ascending order of key (asked item, then trader).
pub open spec fn trades_sorted(s: Seq<Trade>) -> bool {
    forall|i: int, j: int| 0 <= i < j < s.len() ==> pair_lt(((#[trigger] s[i]).asked_id@, s[i].trader@), ((#[trigger] s[j]).asked_id@, s[j].trader@))
}

/// Whether position `p` of `s` is where a trade with key `k` belongs: after
/// every trade with a smaller key, ahead of every trade with a larger one.
pub open spec fn trade_slot_at(s: Seq<Trade>, k: (Seq<char>, Seq<char>), p: int) -> bool {
    &&& 0 <= p <= s.len()
    &&& forall|i: int| 0 <= i < p ==> pair_lt(((#[trigger] s[i]).asked_id@, s[i].trader@), k)
    &&& forall|i: int| p <= i < s.len() ==> pair_lt(k, ((#[trigger] s[i]).asked_id@, s[i].trader@))
}

/// Where a trade with key `k` belongs in `s`.
pub open spec fn trade_slot(s: Seq<Trade>, k: (Seq<char>, Seq<char>)) -> int {
    choose|p: int| trade_slot_at(s, k, p)
}

/// The offers of `s` come in ascending order of key (asked item, then offerer).
pub open spec fn offers_sorted(s: Seq<Offer>) -> bool {
    forall|i: int, j: int| 0 <= i < j < s.len() ==> pair_lt(((#[trigger] s[i]).asked_id@, s[i].offerer@), ((#[trigger] s[j]).asked_id@, s[j].offerer@))
}

/// Whether position `p` of `s` is where a offer with key `k` belongs: after
/// every offer with a smaller key, ahead of every offer with a larger one.
pub open spec fn offer_slot_at(s: Seq<Offer>, k: (Seq<char>, Seq<char>), p: int) -> bool {
    &&& 0 <= p <= s.len()
    &&& forall|i: int| 0 <= i < p ==> pair_lt(((#[trigger] s[i]).asked_id@, s[i].offerer@), k)
    &&& forall|i: int| p <= i < s.len() ==> pair_lt(k, ((#[trigger] s[i]).asked_id@, s[i].offerer@))
}

/// Where a offer with key `k` belongs in `s`.
pub open spec fn offer_slot(s: Seq<Offer>, k: (Seq<char>, Seq<char>)) -> int {
    choose|p: int| offer_slot_at(s, k, p)
}

/// Every record the marketplace holds, and the running count of listings.
#[derive(Clone, Debug)]
pub struct Store {
    pub config: Config,
    pub listings: Vec<Listing>,
    pub trades: Vec<Trade>,
    pub offers: Vec<Offer>,
    pub listing_counter: u128,
}

impl Store {
    /// Each table is in ascending key order with unique keys, offers fit in
    /// 128 bits, and the counter equals the number of listings.
    pub open spec fn wf(&self) -> bool {
        &&& listings_sorted(self.listings@)
        &&& trades_sorted(self.trades@)
        &&& offers_sorted(self.offers@)
        &&& listings_unique(self.listings@)
        &&& trades_unique(self.trades@)
        &&& offers_wf(self.offers@)
        &&& self.listing_counter == self.listings@.len()
    }

    /// Whether `caller` is the configured payment-token registry.
    pub fn is_token_registry(&self, caller: &String) -> (r: bool)
        ensures
            r == (caller@ == self.config.cw20_address@),
    {
        *caller == self.config.cw20_address
    }

    /// Whether `caller` is the configured item registry.
    pub fn is_item_registry(&self, caller: &String) -> (r: bool)
        ensures
            r == (caller@ == self.config.cw721_address@),
    {
        *caller == self.config.cw721_address
    }

    /// An empty store for the given registries.
    pub fn new(config: Config) -> (r: Store)
        ensures
            r.wf(),
            r.config == config,
            r.listings@.len() == 0,
            r.trades@.len() == 0,
            r.offers@.len() == 0,
            r.listing_counter == 0,
    {
        Store {
            config,
            listings: Vec::new(),
            trades: Vec::new(),
            offers: Vec::new(),
            listing_counter: 0,
        }
    }

    /// Where the listing for item `id` stands.
    pub fn find_listing(&self, id: &String) -> (r: Option<usize>)
        requires
            self.wf(),
        ensures
            r is None <==> !has_listing(self.listings@, id@),
            r matches Some(i) ==> i == listing_index(self.listings@, id@) && i
                < self.listings@.len(),
    {
        let mut i: usize = 0;
        while i < self.listings.len()
            invariant
                self.wf(),
                i <= self.listings@.len(),
                forall|j: int| 0 <= j < i ==> (#[trigger] self.listings@[j]).nft_id@ != id@,
            decreases self.listings@.len() - i,
        {
            if self.listings[i].nft_id == *id {
                proof {
                    lemma_listing_index(self.listings@, i as int);
                }
                return Some(i);
            }
            i = i + 1;
        }
        None
    }

    /// Where the trade at key `(id, trader)` stands.
    pub fn find_trade(&self, id: &String, trader: &String) -> (r: Option<usize>)
        requires
            self.wf(),
        ensures
            r is None <==> !has_trade(self.trades@, id@, trader@),
            r matches Some(i) ==> i == trade_index(self.trades@, id@, trader@) && i
                < self.trades@.len(),
    {
        let mut i: usize = 0;
        while i < self.trades.len()
            invariant
                self.wf(),
                i <= self.trades@.len(),
                forall|j: int| 0 <= j < i ==> !trade_at(#[trigger] self.trades@[j], id@, trader@),
            decreases self.trades@.len() - i,
        {
            if self.trades[i].asked_id == *id && self.trades[i].trader == *trader {
                proof {
                    lemma_trade_index(self.trades@, i as int);
                }
                return Some(i);
            }
            i = i + 1;
        }
        None
    }

    /// Where the offer at key `(id, offerer)` stands.
    pub fn find_offer(&self, id: &String, offerer: &String) -> (r: Option<usize>)
        requires
            self.wf(),
        ensures
            r is None <==> !has_offer(self.offers@, id@, offerer@),
            r matches Some(i) ==> i == offer_index(self.offers@, id@, offerer@) && i
                < self.offers@.len(),
    {
        let mut i: usize = 0;
        while i < self.offers.len()
            invariant
                self.wf(),
                i <= self.offers@.len(),
                forall|j: int| 0 <= j < i ==> !offer_at(#[trigger] self.offers@[j], id@, offerer@),
            decreases self.offers@.len() - i,
        {
            if self.offers[i].asked_id == *id && self.offers[i].offerer == *offerer {
                proof {
                    lemma_offer_index(self.offers@, i as int);
                }
                return Some(i);
            }
            i = i + 1;
        }
        None
    }

    /// Takes out the listing at `i`, one fewer on the counter.
    pub fn remove_listing_at(&mut self, i: usize) -> (r: Listing)
        requires
            old(self).wf(),
            i < old(self).listings@.len(),
        ensures
            final(self).wf(),
            r == old(self).listings@[i as int],
            final(self).listings@ == old(self).listings@.remove(i as int),
            final(self).listing_counter == old(self).listing_counter - 1,
            final(self).config == old(self).config,
            final(self).trades == old(self).trades,
            final(self).offers == old(self).offers,
    {
        let ghost s = self.listings@;
        let r = self.listings.remove(i);
        self.listing_counter = self.listing_counter - 1;
        proof {
            let t = self.listings@;
            assert forall|a: int, b: int|
                0 <= a < t.len() && 0 <= b < t.len() && a != b implies (#[trigger] t[a]).nft_id@
                != (#[trigger] t[b]).nft_id@ by {
                let a0 = if a < i { a } else { a + 1 };
                let b0 = if b < i { b } else { b + 1 };
                assert(t[a] == s[a0] && t[b] == s[b0]);
            }
            assert forall|a: int, b: int| 0 <= a < b < t.len() implies key_lt(
                (#[trigger] t[a]).nft_id@,
                (#[trigger] t[b]).nft_id@,
            ) by {
                let a0 = if a < i { a } else { a + 1 };
                let b0 = if b < i { b } else { b + 1 };
                assert(t[a] == s[a0] && t[b] == s[b0]);
            }
        }
        r
    }

    /// Takes out the trade at `i`.
    pub fn remove_trade_at(&mut self, i: usize) -> (r: Trade)
        requires
            old(self).wf(),
            i < old(self).trades@.len(),
        ensures
            final(self).wf(),
            r == old(self).trades@[i as int],
            final(self).trades@ == old(self).trades@.remove(i as int),
            final(self).config == old(self).config,
            final(self).listings == old(self).listings,
            final(self).offers == old(self).offers,
            final(self).listing_counter == old(self).listing_counter,
    {
        let ghost s = self.trades@;
        let r = self.trades.remove(i);
        proof {
            let t = self.trades@;
            assert forall|a: int, b: int|
                0 <= a < t.len() && 0 <= b < t.len() && a != b implies !trade_at(
                #[trigger] t[a],
                (#[trigger] t[b]).asked_id@,
                t[b].trader@,
            ) by {
                let a0 = if a < i { a } else { a + 1 };
                let b0 = if b < i { b } else { b + 1 };
                assert(t[a] == s[a0] && t[b] == s[b0]);
            }
            assert forall|a: int, b: int| 0 <= a < b < t.len() implies pair_lt(
                ((#[trigger] t[a]).asked_id@, t[a].trader@),
                ((#[trigger] t[b]).asked_id@, t[b].trader@),
            ) by {
                let a0 = if a < i { a } else { a + 1 };
                let b0 = if b < i { b } else { b + 1 };
                assert(t[a] == s[a0] && t[b] == s[b0]);
            }
        }
        r
    }

    /// Takes out the offer at `i`.
    pub fn remove_offer_at(&mut self, i: usize) -> (r: Offer)
        requires
            old(self).wf(),
            i < old(self).offers@.len(),
        ensures
            final(self).wf(),
            r == old(self).offers@[i as int],
            final(self).offers@ == old(self).offers@.remove(i as int),
            final(self).config == old(self).config,
            final(self).listings == old(self).listings,
            final(self).trades == old(self).trades,
            final(self).listing_counter == old(self).listing_counter,
    {
        let ghost s = self.offers@;
        let r = self.offers.remove(i);
        proof {
            let t = self.offers@;
            assert forall|a: int, b: int|
                0 <= a < t.len() && 0 <= b < t.len() && a != b implies !offer_at(
                #[trigger] t[a],
                (#[trigger] t[b]).asked_id@,
                t[b].offerer@,
            ) by {
                let a0 = if a < i { a } else { a + 1 };
                let b0 = if b < i { b } else { b + 1 };
                assert(t[a] == s[a0] && t[b] == s[b0]);
            }
            assert forall|a: int| 0 <= a < t.len() implies (#[trigger] t[a]).amount_offered.hi
                == 0 by {
                let a0 = if a < i { a } else { a + 1 };
                assert(t[a] == s[a0]);
            }
            assert forall|a: int, b: int| 0 <= a < b < t.len() implies pair_lt(
                ((#[trigger] t[a]).asked_id@, t[a].offerer@),
                ((#[trigger] t[b]).asked_id@, t[b].offerer@),
            ) by {
                let a0 = if a < i { a } else { a + 1 };
                let b0 = if b < i { b } else { b + 1 };
                assert(t[a] == s[a0] && t[b] == s[b0]);
            }
        }
        r
    }

    /// Stores `l` under its item: it replaces the listing there, if any, and
    /// otherwise is added, one more on the counter.
    pub fn put_listing(&mut self, l: Listing)
        requires
            old(self).wf(),
        ensures
            final(self).wf(),
            final(self).listings@ == listings_put(old(self).listings@, l),
            final(self).listing_counter == final(self).listings@.len(),
            final(self).config == old(self).config,
            final(self).trades == old(self).trades,
            final(self).offers == old(self).offers,
    {
        let ghost s = self.listings@;
        let ghost k = l.nft_id@;
        match self.find_listing(&l.nft_id) {
            Some(i) => {
                self.listings.set(i, l);
                proof {
                    let u = self.listings@;
                    assert forall|a: int, b: int| 0 <= a < b < u.len() implies key_lt(
                        (#[trigger] u[a]).nft_id@,
                        (#[trigger] u[b]).nft_id@,
                    ) by {
                        assert(u[a].nft_id@ == s[a].nft_id@ && u[b].nft_id@ == s[b].nft_id@);
                    }
                    lemma_listings_sorted_unique(u);
                }
            },
            None => {
                let mut p: usize = 0;
                loop
                    invariant
                        self.listings@ == s,
                        k == l.nft_id@,
                        p <= s.len(),
                        forall|i: int| 0 <= i < p ==> key_lt((#[trigger] s[i]).nft_id@, k),
                    ensures
                        p <= s.len(),
                        forall|i: int| 0 <= i < p ==> key_lt((#[trigger] s[i]).nft_id@, k),
                        p == s.len() || !key_lt(s[p as int].nft_id@, k),
                    decreases s.len() - p,
                {
                    if p >= self.listings.len() || !str_lt(&self.listings[p].nft_id, &l.nft_id) {
                        break;
                    }
                    p = p + 1;
                }
                proof {
                    if p < s.len() {
                        assert(s[p as int].nft_id@ != k);
                        lemma_key_order(s[p as int].nft_id@, k, k);
                        assert forall|i: int| p <= i < s.len() implies key_lt(k, s[i].nft_id@) by {
                            if i > p {
                                lemma_key_order(k, s[p as int].nft_id@, s[i].nft_id@);
                            }
                        }
                    }
                    lemma_listing_slot(s, k);
                    assert(listing_slot_at(s, k, p as int));
                }
                self.listings.insert(p, l);
                let len = self.listings.len();
                self.listing_counter = self.listing_counter + 1;
                assert(len == s.len() + 1);
                proof {
                    let u = self.listings@;
                    s.insert_ensures(p as int, l);
                    assert forall|a: int, b: int| 0 <= a < b < u.len() implies key_lt(
                        (#[trigger] u[a]).nft_id@,
                        (#[trigger] u[b]).nft_id@,
                    ) by {
                        if a > p {
                            assert(u[a] == s[a - 1] && u[b] == s[b - 1]);
                        } else if a == p {
                            assert(u[b] == s[b - 1]);
                        } else if b > p {
                            assert(u[b] == s[b - 1]);
                        }
                    }
                    lemma_listings_sorted_unique(u);
                }
            },
        }
    }

    /// Stores `t` under its key, replacing the trade there, if any.
    pub fn put_trade(&mut self, t: Trade)
        requires
            old(self).wf(),
        ensures
            final(self).wf(),
            final(self).trades@ == trades_put(old(self).trades@, t),
            final(self).config == old(self).config,
            final(self).listings == old(self).listings,
            final(self).offers == old(self).offers,
            final(self).listing_counter == old(self).listing_counter,
    {
        let ghost s = self.trades@;
        let ghost k = (t.asked_id@, t.trader@);
        match self.find_trade(&t.asked_id, &t.trader) {
            Some(i) => {
                self.trades.set(i, t);
                proof {
                    let u = self.trades@;
                    assert forall|a: int, b: int| 0 <= a < b < u.len() implies pair_lt(
                        ((#[trigger] u[a]).asked_id@, u[a].trader@),
                        ((#[trigger] u[b]).asked_id@, u[b].trader@),
                    ) by {
                        assert((u[a].asked_id@, u[a].trader@) == (s[a].asked_id@, s[a].trader@) && (u[b].asked_id@, u[b].trader@) == (s[b].asked_id@, s[b].trader@));
                    }
                    lemma_trades_sorted_unique(u);
                }
            },
            None => {
                let mut p: usize = 0;
                loop
                    invariant
                        self.trades@ == s,
                        k == (t.asked_id@, t.trader@),
                        p <= s.len(),
                        forall|i: int| 0 <= i < p ==> pair_lt(((#[trigger] s[i]).asked_id@, s[i].trader@), k),
                    ensures
                        p <= s.len(),
                        forall|i: int| 0 <= i < p ==> pair_lt(((#[trigger] s[i]).asked_id@, s[i].trader@), k),
                        p == s.len() || !pair_lt((s[p as int].asked_id@, s[p as int].trader@), k),
                    decreases s.len() - p,
                {
                    if p >= self.trades.len() || !pair_str_lt(&self.trades[p].asked_id, &self.trades[p].trader, &t.asked_id, &t.trader) {
                        break;
                    }
                    p = p + 1;
                }
                proof {
                    if p < s.len() {
                        assert(!trade_at(s[p as int], k.0, k.1));
                        lemma_pair_order((s[p as int].asked_id@, s[p as int].trader@), k, k);
                        assert forall|i: int| p <= i < s.len() implies pair_lt(k, (s[i].asked_id@, s[i].trader@)) by {
                            if i > p {
                                lemma_pair_order(k, (s[p as int].asked_id@, s[p as int].trader@), (s[i].asked_id@, s[i].trader@));
                            }
                        }
                    }
                    lemma_trade_slot(s, k);
                    assert(trade_slot_at(s, k, p as int));
                }
                self.trades.insert(p, t);
                proof {
                    let u = self.trades@;
                    s.insert_ensures(p as int, t);
                    assert forall|a: int, b: int| 0 <= a < b < u.len() implies pair_lt(
                        ((#[trigger] u[a]).asked_id@, u[a].trader@),
                        ((#[trigger] u[b]).asked_id@, u[b].trader@),
                    ) by {
                        if a > p {
                            assert(u[a] == s[a - 1] && u[b] == s[b - 1]);
                        } else if a == p {
                            assert(u[b] == s[b - 1]);
                        } else if b > p {
                            assert(u[b] == s[b - 1]);
                        }
                    }
                    lemma_trades_sorted_unique(u);
                }
            },
        }
    }

    /// Stores `o` under its key, replacing the offer there, if any.
    pub fn put_offer(&mut self, o: Offer)
        requires
            old(self).wf(),
            o.amount_offered.hi == 0,
        ensures
            final(self).wf(),
            final(self).offers@ == offers_put(old(self).offers@, o),
            final(self).config == old(self).config,
            final(self).listings == old(self).listings,
            final(self).trades == old(self).trades,
            final(self).listing_counter == old(self).listing_counter,
    {
        let ghost s = self.offers@;
        let ghost k = (o.asked_id@, o.offerer@);
        match self.find_offer(&o.asked_id, &o.offerer) {
            Some(i) => {
                self.offers.set(i, o);
                proof {
                    let u = self.offers@;
                    assert forall|a: int, b: int| 0 <= a < b < u.len() implies pair_lt(
                        ((#[trigger] u[a]).asked_id@, u[a].offerer@),
                        ((#[trigger] u[b]).asked_id@, u[b].offerer@),
                    ) by {
                        assert((u[a].asked_id@, u[a].offerer@) == (s[a].asked_id@, s[a].offerer@) && (u[b].asked_id@, u[b].offerer@) == (s[b].asked_id@, s[b].offerer@));
                    }
                    lemma_offers_sorted_unique(u);
                    assert forall|a: int| 0 <= a < u.len() implies (
                    #[trigger] u[a]).amount_offered.hi == 0 by {
                        if a != i {
                            assert(u[a] == s[a]);
                        }
                    }
                }
            },
            None => {
                let mut p: usize = 0;
                loop
                    invariant
                        self.offers@ == s,
                        k == (o.asked_id@, o.offerer@),
                        p <= s.len(),
                        forall|i: int| 0 <= i < p ==> pair_lt(((#[trigger] s[i]).asked_id@, s[i].offerer@), k),
                    ensures
                        p <= s.len(),
                        forall|i: int| 0 <= i < p ==> pair_lt(((#[trigger] s[i]).asked_id@, s[i].offerer@), k),
                        p == s.len() || !pair_lt((s[p as int].asked_id@, s[p as int].offerer@), k),
                    decreases s.len() - p,
                {
                    if p >= self.offers.len() || !pair_str_lt(&self.offers[p].asked_id, &self.offers[p].offerer, &o.asked_id, &o.offerer) {
                        break;
                    }
                    p = p + 1;
                }
                proof {
                    if p < s.len() {
                        assert(!offer_at(s[p as int], k.0, k.1));
                        lemma_pair_order((s[p as int].asked_id@, s[p as int].offerer@), k, k);
                        assert forall|i: int| p <= i < s.len() implies pair_lt(k, (s[i].asked_id@, s[i].offerer@)) by {
                            if i > p {
                                lemma_pair_order(k, (s[p as int].asked_id@, s[p as int].offerer@), (s[i].asked_id@, s[i].offerer@));
                            }
                        }
                    }
                    lemma_offer_slot(s, k);
                    assert(offer_slot_at(s, k, p as int));
                }
                self.offers.insert(p, o);
                proof {
                    let u = self.offers@;
                    s.insert_ensures(p as int, o);
                    assert forall|a: int, b: int| 0 <= a < b < u.len() implies pair_lt(
                        ((#[trigger] u[a]).asked_id@, u[a].offerer@),
                        ((#[trigger] u[b]).asked_id@, u[b].offerer@),
                    ) by {
                        if a > p {
                            assert(u[a] == s[a - 1] && u[b] == s[b - 1]);
                        } else if a == p {
                            assert(u[b] == s[b - 1]);
                        } else if b > p {
                            assert(u[b] == s[b - 1]);
                        }
                    }
                    lemma_offers_sorted_unique(u);
                    assert forall|a: int| 0 <= a < u.len() implies (
                    #[trigger] u[a]).amount_offered.hi == 0 by {
                        if a > p {
                            assert(u[a] == s[a - 1]);
                        }
                    }
                }
            },
        }
    }
}

/// In a table with unique keys, the listing found at `i` is the one its key names.
pub proof fn lemma_listing_index(s: Seq<Listing>, i: int)
    requires
        listings_unique(s),
        0 <= i < s.len(),
    ensures
        has_listing(s, s[i].nft_id@),
        listing_index(s, s[i].nft_id@) == i,
{
    assert(has_listing(s, s[i].nft_id@));
}

pub proof fn lemma_trade_index(s: Seq<Trade>, i: int)
    requires
        trades_unique(s),
        0 <= i < s.len(),
    ensures
        has_trade(s, s[i].asked_id@, s[i].trader@),
        trade_index(s, s[i].asked_id@, s[i].trader@) == i,
{
    assert(trade_at(s[i], s[i].asked_id@, s[i].trader@));
    assert(has_trade(s, s[i].asked_id@, s[i].trader@));
}

pub proof fn lemma_offer_index(s: Seq<Offer>, i: int)
    requires
        offers_wf(s),
        0 <= i < s.len(),
    ensures
        has_offer(s, s[i].asked_id@, s[i].offerer@),
        offer_index(s, s[i].asked_id@, s[i].offerer@) == i,
{
    assert(offer_at(s[i], s[i].asked_id@, s[i].offerer@));
    assert(has_offer(s, s[i].asked_id@, s[i].offerer@));
}

/// Listings in ascending key order have unique keys.
pub proof fn lemma_listings_sorted_unique(s: Seq<Listing>)
    requires
        listings_sorted(s),
    ensures
        listings_unique(s),
{
    assert forall|a: int, b: int| 0 <= a < s.len() && 0 <= b < s.len() && a != b implies s[a].nft_id@ != s[b].nft_id@ by {
        if a < b {
            lemma_key_order(s[a].nft_id@, s[b].nft_id@, s[b].nft_id@);
        } else {
            lemma_key_order(s[b].nft_id@, s[a].nft_id@, s[a].nft_id@);
        }
    }
}

/// In a sorted table without key `k`, key `k` has exactly one place.
pub proof fn lemma_listing_slot(s: Seq<Listing>, k: Seq<char>)
    requires
        listings_sorted(s),
        !has_listing(s, k),
    ensures
        listing_slot_at(s, k, listing_slot(s, k)),
        forall|p: int| listing_slot_at(s, k, p) ==> p == listing_slot(s, k),
    decreases s.len(),
{
    lemma_listing_slot_exists(s, k);
    let q = listing_slot(s, k);
    assert forall|p: int| listing_slot_at(s, k, p) implies p == q by {
        if p < q {
            lemma_key_order(s[p].nft_id@, k, k);
        } else if p > q {
            lemma_key_order(s[q].nft_id@, k, k);
        }
    }
}

proof fn lemma_listing_slot_exists(s: Seq<Listing>, k: Seq<char>)
    requires
        listings_sorted(s),
        !has_listing(s, k),
    ensures
        exists|p: int| listing_slot_at(s, k, p),
    decreases s.len(),
{
    if s.len() == 0 {
        assert(listing_slot_at(s, k, 0));
    } else {
        let last = s.len() - 1;
        let d = s.drop_last();
        assert forall|i: int| 0 <= i < d.len() implies d[i] == s[i] by {}
        assert(listings_sorted(d));
        assert(!has_listing(d, k)) by {
            assert forall|i: int| 0 <= i < d.len() implies d[i].nft_id@ != k by {
                assert(s[i].nft_id@ != k);
            }
        }
        lemma_listing_slot_exists(d, k);
        let p0 = choose|p: int| listing_slot_at(d, k, p);
        assert(s[last].nft_id@ != k);
        lemma_key_order(s[last].nft_id@, k, k);
        if key_lt(s[last].nft_id@, k) {
            assert forall|i: int| 0 <= i < s.len() implies key_lt(s[i].nft_id@, k) by {
                if i < last {
                    lemma_key_order(s[i].nft_id@, s[last].nft_id@, k);
                }
            }
            assert(listing_slot_at(s, k, s.len() as int));
        } else {
            assert(listing_slot_at(s, k, p0));
        }
    }
}

/// Trades in ascending key order have unique keys.
pub proof fn lemma_trades_sorted_unique(s: Seq<Trade>)
    requires
        trades_sorted(s),
    ensures
        trades_unique(s),
{
    assert forall|a: int, b: int| 0 <= a < s.len() && 0 <= b < s.len() && a != b implies (s[a].asked_id@, s[a].trader@) != (s[b].asked_id@, s[b].trader@) by {
        if a < b {
            lemma_pair_order((s[a].asked_id@, s[a].trader@), (s[b].asked_id@, s[b].trader@), (s[b].asked_id@, s[b].trader@));
        } else {
            lemma_pair_order((s[b].asked_id@, s[b].trader@), (s[a].asked_id@, s[a].trader@), (s[a].asked_id@, s[a].trader@));
        }
    }
}

/// In a sorted table without key `k`, key `k` has exactly one place.
pub proof fn lemma_trade_slot(s: Seq<Trade>, k: (Seq<char>, Seq<char>))
    requires
        trades_sorted(s),
        !has_trade(s, k.0, k.1),
    ensures
        trade_slot_at(s, k, trade_slot(s, k)),
        forall|p: int| trade_slot_at(s, k, p) ==> p == trade_slot(s, k),
    decreases s.len(),
{
    lemma_trade_slot_exists(s, k);
    let q = trade_slot(s, k);
    assert forall|p: int| trade_slot_at(s, k, p) implies p == q by {
        if p < q {
            lemma_pair_order((s[p].asked_id@, s[p].trader@), k, k);
        } else if p > q {
            lemma_pair_order((s[q].asked_id@, s[q].trader@), k, k);
        }
    }
}

proof fn lemma_trade_slot_exists(s: Seq<Trade>, k: (Seq<char>, Seq<char>))
    requires
        trades_sorted(s),
        !has_trade(s, k.0, k.1),
    ensures
        exists|p: int| trade_slot_at(s, k, p),
    decreases s.len(),
{
    if s.len() == 0 {
        assert(trade_slot_at(s, k, 0));
    } else {
        let last = s.len() - 1;
        let d = s.drop_last();
        assert forall|i: int| 0 <= i < d.len() implies d[i] == s[i] by {}
        assert(trades_sorted(d));
        assert(!has_trade(d, k.0, k.1)) by {
            assert forall|i: int| 0 <= i < d.len() implies !trade_at(d[i], k.0, k.1) by {
                assert(!trade_at(s[i], k.0, k.1));
            }
        }
        lemma_trade_slot_exists(d, k);
        let p0 = choose|p: int| trade_slot_at(d, k, p);
        assert(!trade_at(s[last], k.0, k.1));
        lemma_pair_order((s[last].asked_id@, s[last].trader@), k, k);
        if pair_lt((s[last].asked_id@, s[last].trader@), k) {
            assert forall|i: int| 0 <= i < s.len() implies pair_lt((s[i].asked_id@, s[i].trader@), k) by {
                if i < last {
                    lemma_pair_order((s[i].asked_id@, s[i].trader@), (s[last].asked_id@, s[last].trader@), k);
                }
            }
            assert(trade_slot_at(s, k, s.len() as int));
        } else {
            assert(trade_slot_at(s, k, p0));
        }
    }
}

/// Offers in ascending key order have unique keys.
pub proof fn lemma_offers_sorted_unique(s: Seq<Offer>)
    requires
        offers_sorted(s),
    ensures
        offers_unique(s),
{
    assert forall|a: int, b: int| 0 <= a < s.len() && 0 <= b < s.len() && a != b implies (s[a].asked_id@, s[a].offerer@) != (s[b].asked_id@, s[b].offerer@) by {
        if a < b {
            lemma_pair_order((s[a].asked_id@, s[a].offerer@), (s[b].asked_id@, s[b].offerer@), (s[b].asked_id@, s[b].offerer@));
        } else {
            lemma_pair_order((s[b].asked_id@, s[b].offerer@), (s[a].asked_id@, s[a].offerer@), (s[a].asked_id@, s[a].offerer@));
        }
    }
}

/// In a sorted table without key `k`, key `k` has exactly one place.
pub proof fn lemma_offer_slot(s: Seq<Offer>, k: (Seq<char>, Seq<char>))
    requires
        offers_sorted(s),
        !has_offer(s, k.0, k.1),
    ensures
        offer_slot_at(s, k, offer_slot(s, k)),
        forall|p: int| offer_slot_at(s, k, p) ==> p == offer_slot(s, k),
    decreases s.len(),
{
    lemma_offer_slot_exists(s, k);
    let q = offer_slot(s, k);
    assert forall|p: int| offer_slot_at(s, k, p) implies p == q by {
        if p < q {
            lemma_pair_order((s[p].asked_id@, s[p].offerer@), k, k);
        } else if p > q {
            lemma_pair_order((s[q].asked_id@, s[q].offerer@), k, k);
        }
    }
}

proof fn lemma_offer_slot_exists(s: Seq<Offer>, k: (Seq<char>, Seq<char>))
    requires
        offers_sorted(s),
        !has_offer(s, k.0, k.1),
    ensures
        exists|p: int| offer_slot_at(s, k, p),
    decreases s.len(),
{
    if s.len() == 0 {
        assert(offer_slot_at(s, k, 0));
    } else {
        let last = s.len() - 1;
        let d = s.drop_last();
        assert forall|i: int| 0 <= i < d.len() implies d[i] == s[i] by {}
        assert(offers_sorted(d));
        assert(!has_offer(d, k.0, k.1)) by {
            assert forall|i: int| 0 <= i < d.len() implies !offer_at(d[i], k.0, k.1) by {
                assert(!offer_at(s[i], k.0, k.1));
            }
        }
        lemma_offer_slot_exists(d, k);
        let p0 = choose|p: int| offer_slot_at(d, k, p);
        assert(!offer_at(s[last], k.0, k.1));
        lemma_pair_order((s[last].asked_id@, s[last].offerer@), k, k);
        if pair_lt((s[last].asked_id@, s[last].offerer@), k) {
            assert forall|i: int| 0 <= i < s.len() implies pair_lt((s[i].asked_id@, s[i].offerer@), k) by {
                if i < last {
                    lemma_pair_order((s[i].asked_id@, s[i].offerer@), (s[last].asked_id@, s[last].offerer@), k);
                }
            }
            assert(offer_slot_at(s, k, s.len() as int));
        } else {
            assert(offer_slot_at(s, k, p0));
        }
    }
}

} // verus!
