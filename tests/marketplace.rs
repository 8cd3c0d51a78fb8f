use gecko_party_marketplace::contract::{
    execute, execute_accept_offer, execute_accept_trade, execute_buy, execute_cancel_listing,
    execute_cancel_offer, execute_cancel_trade, execute_offer, execute_receive,
    execute_receive_nft, execute_reject_offer, instantiate, receive_new_listing,
    receive_new_trade, reply, LISTING_REPLY, OFFER_REPLY, TRADE_REPLY,
};
use gecko_party_marketplace::error::{ContractError, RecordKind};
use gecko_party_marketplace::msg::{
    Coin, ExecuteMsg, InstantiateMsg, ItemDeposit, MessageInfo, QueryMsg, ReceiveMsg, ReceiveNftMsg,
    TokenDeposit,
};
use gecko_party_marketplace::query::{
    get_all_listings, get_all_offers, get_all_trades, get_listing, get_listing_count,
    get_listings_seller, get_offer, get_offers_address, get_offers_id, get_trade,
    get_trades_address, get_trades_id, query, QueryResponse,
};
use gecko_party_marketplace::state::{CoinType, Effect, Offer, ReplyKind, Store, Trade};
use gecko_party_marketplace::uint::Uint256;

const NFT: &str = "nft_registry";
const TOKEN: &str = "token_registry";
const MARKET: &str = "market";

fn s(x: &str) -> String {
    x.to_string()
}

fn new_store() -> Store {
    instantiate(InstantiateMsg { cw721_address: s(NFT), cw20_address: s(TOKEN) })
}

fn list(store: &mut Store, owner: &str, id: &str, price: u128, tradeable: bool) {
    let r = receive_new_listing(store, s(owner), s(id), Uint256::from_uint128(price), tradeable);
    assert_eq!(r, Ok(vec![]));
}

fn item(to: &str, id: &str, confirm: Option<ReplyKind>) -> Effect {
    let msg = format!(r#"{{"transfer_nft":{{"recipient":"{}","token_id":"{}"}}}}"#, to, id);
    Effect::TransferItem { registry: s(NFT), msg: msg.into_bytes(), confirm }
}

fn tokens(to: &str, amount: u128) -> Effect {
    let msg = format!(r#"{{"transfer":{{"recipient":"{}","amount":"{}"}}}}"#, to, amount);
    Effect::TransferTokens { token: s(TOKEN), msg: msg.into_bytes() }
}

fn uxion(amount: u128) -> Coin {
    Coin { denom: s("uxion"), amount }
}

fn not_found(kind: RecordKind) -> ContractError {
    ContractError::NotFound { kind }
}

#[test]
fn deposit_then_buy_then_buy_again() {
    let mut store = new_store();
    let deposit = ItemDeposit {
        sender: s("seller"),
        token_id: s("X"),
        msg: ReceiveNftMsg::NewListing { price: Uint256::from_uint128(100), tradeable: false },
    };
    let info = MessageInfo { sender: s(NFT), funds: vec![] };
    let r = execute(&mut store, s(MARKET), info, ExecuteMsg::ReceiveNft(deposit), None);
    assert_eq!(r, Ok(vec![]));
    assert_eq!(get_listing_count(&store), 1);

    let info = MessageInfo { sender: s("buyer"), funds: vec![uxion(100)] };
    let r = execute(&mut store, s(MARKET), info, ExecuteMsg::Buy { id: s("X") }, None);
    assert_eq!(
        r,
        Ok(vec![
            Effect::SendNative { to_address: s("seller"), amount: 100 },
            item("buyer", "X", Some(ReplyKind::Listing)),
        ])
    );
    assert_eq!(get_listing(&store, s("X")), Err(not_found(RecordKind::Listing)));
    assert_eq!(get_listing_count(&store), 0);

    let again = execute_buy(&mut store, s("buyer"), 100, s("X"));
    assert_eq!(again, Err(not_found(RecordKind::Listing)));
    assert_eq!(get_listing_count(&store), 0);
}

#[test]
fn offer_then_reject_refunds_and_keeps_listing() {
    let mut store = new_store();
    list(&mut store, "owner", "Y", 80, false);

    let r = execute_offer(&mut store, s("bidder"), 50, s(MARKET), s("Y"), Uint256::from_uint128(50));
    assert_eq!(r, Ok(vec![Effect::SendNative { to_address: s(MARKET), amount: 50 }]));
    assert_eq!(
        get_offer(&store, s("Y"), s("bidder")),
        Ok(Offer {
            asked_id: s("Y"),
            offerer: s("bidder"),
            amount_offered: Uint256::from_uint128(50),
            amount_type: CoinType::Native,
        })
    );

    let r = execute_reject_offer(&mut store, s("owner"), s("Y"), s("bidder"));
    assert_eq!(r, Ok(vec![Effect::SendNative { to_address: s("bidder"), amount: 50 }]));
    assert_eq!(get_offer(&store, s("Y"), s("bidder")), Err(not_found(RecordKind::Offer)));
    assert!(get_listing(&store, s("Y")).is_ok());
    assert_eq!(get_listing_count(&store), 1);
}

#[test]
fn buy_with_wrong_payment_changes_nothing() {
    let mut store = new_store();
    list(&mut store, "seller", "X", 100, true);
    execute_offer(&mut store, s("bidder"), 5, s(MARKET), s("X"), Uint256::from_uint128(5)).unwrap();
    let r = execute_buy(&mut store, s("buyer"), 99, s("X"));
    assert_eq!(r, Err(ContractError::IncorrectPayment { price: Uint256::from_uint128(100) }));
    assert_eq!(get_listing_count(&store), 1);
    assert!(get_listing(&store, s("X")).is_ok());
    assert!(get_offer(&store, s("X"), s("bidder")).is_ok());
}

#[test]
fn buy_with_price_above_128_bits_is_refused() {
    let mut store = new_store();
    let big = Uint256::new(1, 0);
    receive_new_listing(&mut store, s("seller"), s("X"), big, false).unwrap();
    let r = execute_buy(&mut store, s("buyer"), 0, s("X"));
    assert_eq!(r, Err(ContractError::IncorrectPayment { price: big }));
    assert_eq!(get_listing_count(&store), 1);
}

#[test]
fn offer_with_mismatched_funds_is_refused() {
    let mut store = new_store();
    let r = execute_offer(&mut store, s("bidder"), 49, s(MARKET), s("Y"), Uint256::from_uint128(50));
    assert_eq!(r, Err(ContractError::IncorrectPayment { price: Uint256::from_uint128(50) }));
    assert!(get_all_offers(&store, None, None).is_empty());
}

#[test]
fn accept_offer_pays_owner_and_delivers_item() {
    let mut store = new_store();
    list(&mut store, "owner", "Y", 80, false);
    execute_offer(&mut store, s("bidder"), 60, s(MARKET), s("Y"), Uint256::from_uint128(60)).unwrap();
    let r = execute_accept_offer(&mut store, s("owner"), s("Y"), s("bidder"));
    assert_eq!(
        r,
        Ok(vec![
            Effect::SendNative { to_address: s("owner"), amount: 60 },
            item("bidder", "Y", Some(ReplyKind::Offer)),
        ])
    );
    assert_eq!(get_listing_count(&store), 0);
    assert!(get_all_offers(&store, None, None).is_empty());
}

#[test]
fn accept_offer_by_non_owner_is_unauthorized() {
    let mut store = new_store();
    list(&mut store, "owner", "Y", 80, false);
    execute_offer(&mut store, s("bidder"), 60, s(MARKET), s("Y"), Uint256::from_uint128(60)).unwrap();
    let r = execute_accept_offer(&mut store, s("mallory"), s("Y"), s("bidder"));
    assert_eq!(r, Err(ContractError::Unauthorized {}));
    assert_eq!(get_listing_count(&store), 1);
    assert!(get_offer(&store, s("Y"), s("bidder")).is_ok());
}

#[test]
fn accept_missing_offer_or_listing_is_not_found() {
    let mut store = new_store();
    let r = execute_accept_offer(&mut store, s("owner"), s("Y"), s("bidder"));
    assert_eq!(r, Err(not_found(RecordKind::Offer)));
    execute_offer(&mut store, s("bidder"), 60, s(MARKET), s("Y"), Uint256::from_uint128(60)).unwrap();
    let r = execute_accept_offer(&mut store, s("owner"), s("Y"), s("bidder"));
    assert_eq!(r, Err(not_found(RecordKind::Listing)));
}

#[test]
fn token_offer_is_escrowed_and_refunded_in_tokens() {
    let mut store = new_store();
    list(&mut store, "owner", "Y", 80, false);
    let deposit = TokenDeposit {
        sender: s("bidder"),
        amount: 70,
        msg: ReceiveMsg::Offer { target: s("Y"), offered_price: Uint256::from_uint128(70) },
    };
    let r = execute_receive(&mut store, s(MARKET), s(TOKEN), deposit);
    assert_eq!(
        r,
        Ok(vec![tokens(MARKET, 70)])
    );
    assert_eq!(get_offer(&store, s("Y"), s("bidder")).unwrap().amount_type, CoinType::Cw20);
    let r = execute_cancel_offer(&mut store, s("bidder"), s("Y"));
    assert_eq!(
        r,
        Ok(vec![tokens("bidder", 70)])
    );
    assert!(get_all_offers(&store, None, None).is_empty());
}

#[test]
fn token_buy_pays_seller_in_tokens() {
    let mut store = new_store();
    list(&mut store, "seller", "X", 30, false);
    let deposit =
        TokenDeposit { sender: s("buyer"), amount: 30, msg: ReceiveMsg::Buy { id: s("X") } };
    let r = execute_receive(&mut store, s(MARKET), s(TOKEN), deposit);
    assert_eq!(
        r,
        Ok(vec![
            tokens("seller", 30),
            item("buyer", "X", Some(ReplyKind::Listing)),
        ])
    );
    assert_eq!(get_listing_count(&store), 0);
}

#[test]
fn deposits_from_unknown_registries_are_refused() {
    let mut store = new_store();
    let deposit =
        TokenDeposit { sender: s("buyer"), amount: 30, msg: ReceiveMsg::Buy { id: s("X") } };
    let r = execute_receive(&mut store, s(MARKET), s("fake_token"), deposit);
    assert_eq!(r, Err(ContractError::Unauthorized {}));
    let deposit = ItemDeposit {
        sender: s("owner"),
        token_id: s("X"),
        msg: ReceiveNftMsg::NewListing { price: Uint256::from_uint128(1), tradeable: true },
    };
    let r = execute_receive_nft(&mut store, s("fake_nft"), deposit, None);
    assert_eq!(r, Err(ContractError::Unauthorized {}));
    assert_eq!(get_listing_count(&store), 0);
}

#[test]
fn item_deposit_lists_the_item() {
    let mut store = new_store();
    let deposit = ItemDeposit {
        sender: s("owner"),
        token_id: s("X"),
        msg: ReceiveNftMsg::NewListing { price: Uint256::from_uint128(5), tradeable: true },
    };
    assert_eq!(execute_receive_nft(&mut store, s(NFT), deposit, None), Ok(vec![]));
    let l = get_listing(&store, s("X")).unwrap();
    assert_eq!(l.owner, s("owner"));
    assert_eq!(l.price, Uint256::from_uint128(5));
    assert!(l.tradeable);
    assert_eq!(get_listing_count(&store), 1);
}

#[test]
fn relisting_an_item_replaces_its_listing() {
    let mut store = new_store();
    list(&mut store, "owner", "X", 5, false);
    list(&mut store, "owner", "X", 7, true);
    assert_eq!(get_listing_count(&store), 1);
    assert_eq!(get_listing(&store, s("X")).unwrap().price, Uint256::from_uint128(7));
}

#[test]
fn propose_trade_against_non_tradeable_listing_fails() {
    let mut store = new_store();
    list(&mut store, "owner", "A", 10, false);
    let r = receive_new_trade(&mut store, s("trader"), s("B"), s("A"), Some(s("trader")));
    assert_eq!(r, Err(ContractError::NonTradeable {}));
    assert!(get_all_trades(&store, None, None).is_empty());
}

#[test]
fn propose_trade_creates_one_trade() {
    let mut store = new_store();
    list(&mut store, "owner", "A", 10, true);
    let r = receive_new_trade(&mut store, s("trader"), s("B"), s("A"), Some(s("trader")));
    assert_eq!(r, Ok(vec![]));
    let r = receive_new_trade(&mut store, s("trader"), s("C"), s("A"), Some(s("trader")));
    assert_eq!(r, Ok(vec![]));
    let all = get_all_trades(&store, None, None);
    assert_eq!(all, vec![Trade { asked_id: s("A"), to_trade_id: s("C"), trader: s("trader") }]);
}

#[test]
fn propose_trade_needs_ownership_and_listing() {
    let mut store = new_store();
    list(&mut store, "owner", "A", 10, true);
    let r = receive_new_trade(&mut store, s("trader"), s("B"), s("A"), Some(s("other")));
    assert_eq!(r, Err(ContractError::Unauthorized {}));
    let r = receive_new_trade(&mut store, s("trader"), s("B"), s("A"), None);
    assert_eq!(r, Err(ContractError::Unauthorized {}));
    let r = receive_new_trade(&mut store, s("trader"), s("B"), s("Z"), Some(s("trader")));
    assert_eq!(r, Err(not_found(RecordKind::Listing)));
    assert!(get_all_trades(&store, None, None).is_empty());
}

#[test]
fn accept_trade_swaps_items_and_drops_one_listing() {
    let mut store = new_store();
    list(&mut store, "owner", "A", 10, true);
    list(&mut store, "someone", "C", 3, false);
    receive_new_trade(&mut store, s("trader"), s("B"), s("A"), Some(s("trader"))).unwrap();
    let r = execute_accept_trade(&mut store, s("owner"), s("A"), s("trader"));
    assert_eq!(
        r,
        Ok(vec![
            item("trader", "A", Some(ReplyKind::Trade)),
            item("owner", "B", Some(ReplyKind::Trade)),
        ])
    );
    assert_eq!(get_listing_count(&store), 1);
    assert!(get_all_trades(&store, None, None).is_empty());
    assert!(get_listing(&store, s("C")).is_ok());
}

#[test]
fn accept_trade_drops_listing_of_offered_item_too() {
    let mut store = new_store();
    list(&mut store, "owner", "A", 10, true);
    list(&mut store, "trader", "B", 4, false);
    receive_new_trade(&mut store, s("trader"), s("B"), s("A"), Some(s("trader"))).unwrap();
    let r = execute_accept_trade(&mut store, s("owner"), s("A"), s("trader"));
    assert_eq!(r.unwrap().len(), 2);
    assert_eq!(get_listing_count(&store), 0);
    assert!(get_all_listings(&store, None, None).is_empty());
}

#[test]
fn accept_trade_by_non_owner_is_unauthorized() {
    let mut store = new_store();
    list(&mut store, "owner", "A", 10, true);
    receive_new_trade(&mut store, s("trader"), s("B"), s("A"), Some(s("trader"))).unwrap();
    let r = execute_accept_trade(&mut store, s("trader"), s("A"), s("trader"));
    assert_eq!(r, Err(ContractError::Unauthorized {}));
    assert_eq!(get_all_trades(&store, None, None).len(), 1);
    assert_eq!(get_listing_count(&store), 1);
}

#[test]
fn cancelling_missing_records_is_not_found() {
    let mut store = new_store();
    assert_eq!(execute_cancel_offer(&mut store, s("a"), s("X")), Err(not_found(RecordKind::Offer)));
    assert_eq!(execute_cancel_trade(&mut store, s("a"), s("X")), Err(not_found(RecordKind::Trade)));
    assert_eq!(
        execute_cancel_listing(&mut store, s("a"), s("X")),
        Err(not_found(RecordKind::Listing))
    );
    assert_eq!(
        execute_reject_offer(&mut store, s("a"), s("X"), s("b")),
        Err(not_found(RecordKind::Offer))
    );
}

#[test]
fn cancel_listing_returns_item_to_owner() {
    let mut store = new_store();
    list(&mut store, "owner", "X", 1, false);
    assert_eq!(
        execute_cancel_listing(&mut store, s("other"), s("X")),
        Err(ContractError::Unauthorized {})
    );
    let r = execute_cancel_listing(&mut store, s("owner"), s("X"));
    assert_eq!(r, Ok(vec![item("owner", "X", None)]));
    assert_eq!(get_listing_count(&store), 0);
}

#[test]
fn cancel_trade_returns_offered_item() {
    let mut store = new_store();
    list(&mut store, "owner", "A", 10, true);
    receive_new_trade(&mut store, s("trader"), s("B"), s("A"), Some(s("trader"))).unwrap();
    let r = execute_cancel_trade(&mut store, s("trader"), s("A"));
    assert_eq!(r, Ok(vec![item("trader", "B", None)]));
    assert_eq!(get_trade(&store, s("A"), s("trader")), Err(not_found(RecordKind::Trade)));
    assert_eq!(get_listing_count(&store), 1);
}

#[test]
fn reject_offer_by_non_owner_is_unauthorized() {
    let mut store = new_store();
    list(&mut store, "owner", "Y", 80, false);
    execute_offer(&mut store, s("bidder"), 60, s(MARKET), s("Y"), Uint256::from_uint128(60)).unwrap();
    let r = execute_reject_offer(&mut store, s("bidder"), s("Y"), s("bidder"));
    assert_eq!(r, Err(ContractError::Unauthorized {}));
    assert!(get_offer(&store, s("Y"), s("bidder")).is_ok());
}

#[test]
fn reply_tags() {
    assert_eq!(reply(LISTING_REPLY), Ok(ReplyKind::Listing));
    assert_eq!(reply(TRADE_REPLY), Ok(ReplyKind::Trade));
    assert_eq!(reply(OFFER_REPLY), Ok(ReplyKind::Offer));
    assert_eq!(reply(0), Err(ContractError::UnrecognizedReply {}));
    assert_eq!(reply(4), Err(ContractError::UnrecognizedReply {}));
}

#[test]
fn execute_routes_messages() {
    let mut store = new_store();
    let info = MessageInfo { sender: s(NFT), funds: vec![] };
    let deposit = ItemDeposit {
        sender: s("owner"),
        token_id: s("X"),
        msg: ReceiveNftMsg::NewListing { price: Uint256::from_uint128(9), tradeable: false },
    };
    assert_eq!(execute(&mut store, s(MARKET), info, ExecuteMsg::ReceiveNft(deposit), None), Ok(vec![]));
    let info = MessageInfo { sender: s("buyer"), funds: vec![uxion(9)] };
    let r = execute(&mut store, s(MARKET), info, ExecuteMsg::Buy { id: s("X") }, None);
    assert_eq!(r.unwrap().len(), 2);
    let info = MessageInfo { sender: s("buyer"), funds: vec![] };
    let r = execute(&mut store, s(MARKET), info, ExecuteMsg::CancelListing { id: s("X") }, None);
    assert_eq!(r, Err(not_found(RecordKind::Listing)));
}

#[test]
fn paging_applies_window_then_filter() {
    let mut store = new_store();
    list(&mut store, "alice", "1", 1, false);
    list(&mut store, "bob", "2", 1, false);
    list(&mut store, "alice", "3", 1, false);
    list(&mut store, "alice", "4", 1, false);
    let ids = |v: Vec<gecko_party_marketplace::state::Listing>| -> Vec<String> {
        v.into_iter().map(|l| l.nft_id).collect()
    };
    assert_eq!(ids(get_all_listings(&store, None, None)), vec![s("1"), s("2"), s("3"), s("4")]);
    assert_eq!(ids(get_all_listings(&store, Some(1), Some(2))), vec![s("2"), s("3")]);
    assert_eq!(ids(get_listings_seller(&store, s("alice"), Some(1), Some(2))), vec![s("3")]);
    assert_eq!(ids(get_all_listings(&store, Some(9), None)), Vec::<String>::new());
    assert_eq!(ids(get_all_listings(&store, Some(3), Some(u64::MAX))), vec![s("4")]);
}

#[test]
fn paging_defaults_to_ten() {
    let mut store = new_store();
    for i in 0..12 {
        list(&mut store, "alice", &i.to_string(), 1, false);
    }
    assert_eq!(get_all_listings(&store, None, None).len(), 10);
    assert_eq!(get_all_listings(&store, Some(10), None).len(), 2);
}

#[test]
fn trade_and_offer_scans_filter() {
    let mut store = new_store();
    list(&mut store, "owner", "A", 10, true);
    list(&mut store, "owner", "B", 10, true);
    receive_new_trade(&mut store, s("t1"), s("X"), s("A"), Some(s("t1"))).unwrap();
    receive_new_trade(&mut store, s("t2"), s("Y"), s("B"), Some(s("t2"))).unwrap();
    assert_eq!(get_trades_address(&store, s("t2"), None, None).len(), 1);
    assert_eq!(get_trades_id(&store, s("A"), None, None)[0].trader, s("t1"));
    execute_offer(&mut store, s("b1"), 1, s(MARKET), s("A"), Uint256::from_uint128(1)).unwrap();
    execute_offer(&mut store, s("b1"), 2, s(MARKET), s("B"), Uint256::from_uint128(2)).unwrap();
    assert_eq!(get_offers_address(&store, s("b1"), None, None).len(), 2);
    assert_eq!(get_offers_id(&store, s("B"), None, None)[0].amount_offered, Uint256::from_uint128(2));
}

#[test]
fn query_answers() {
    let mut store = new_store();
    list(&mut store, "owner", "A", 10, true);
    assert_eq!(query(&store, QueryMsg::GetListingCount {}), Ok(QueryResponse::Count(1)));
    assert_eq!(
        query(&store, QueryMsg::GetOffer { id: s("A"), offerer: s("x") }),
        Err(not_found(RecordKind::Offer))
    );
    match query(&store, QueryMsg::GetListing { id: s("A") }) {
        Ok(QueryResponse::Listing(l)) => assert_eq!(l.owner, s("owner")),
        other => panic!("unexpected answer {:?}", other),
    }
}

#[test]
fn amounts_convert_to_128_bits_only_when_they_fit() {
    assert_eq!(Uint256::from_uint128(7).to_uint128(), Some(7));
    assert_eq!(Uint256::new(1, 0).to_uint128(), None);
    assert!(Uint256::from_uint128(u128::MAX).equals_uint128(u128::MAX));
    assert!(!Uint256::new(1, 5).equals_uint128(5));
}

#[test]
fn accept_token_offer_pays_owner_in_tokens() {
    let mut store = new_store();
    list(&mut store, "owner", "Y", 80, false);
    let deposit = TokenDeposit {
        sender: s("bidder"),
        amount: 75,
        msg: ReceiveMsg::Offer { target: s("Y"), offered_price: Uint256::from_uint128(75) },
    };
    execute_receive(&mut store, s(MARKET), s(TOKEN), deposit).unwrap();
    let r = execute_accept_offer(&mut store, s("owner"), s("Y"), s("bidder"));
    assert_eq!(r, Ok(vec![tokens("owner", 75), item("bidder", "Y", Some(ReplyKind::Offer))]));
    assert_eq!(get_listing_count(&store), 0);
}

#[test]
fn encoded_instructions_are_registry_json() {
    let mut store = new_store();
    list(&mut store, "seller", "item-7", 12, false);
    let r = execute_buy(&mut store, s("buyer"), 12, s("item-7")).unwrap();
    match &r[1] {
        Effect::TransferItem { msg, .. } => assert_eq!(
            String::from_utf8(msg.clone()).unwrap(),
            r#"{"transfer_nft":{"recipient":"buyer","token_id":"item-7"}}"#
        ),
        other => panic!("unexpected effect {:?}", other),
    }
}

#[test]
fn missing_or_foreign_coins_pay_nothing() {
    let mut store = new_store();
    list(&mut store, "seller", "X", 100, false);
    let info = MessageInfo { sender: s("buyer"), funds: vec![] };
    let r = execute(&mut store, s(MARKET), info, ExecuteMsg::Buy { id: s("X") }, None);
    assert_eq!(r, Err(ContractError::IncorrectPayment { price: Uint256::from_uint128(100) }));
    let foreign = Coin { denom: s("uatom"), amount: 100 };
    let info = MessageInfo { sender: s("buyer"), funds: vec![foreign.clone()] };
    let r = execute(&mut store, s(MARKET), info, ExecuteMsg::Buy { id: s("X") }, None);
    assert_eq!(r, Err(ContractError::IncorrectPayment { price: Uint256::from_uint128(100) }));
    assert_eq!(get_listing_count(&store), 1);
    let info = MessageInfo { sender: s("buyer"), funds: vec![foreign, uxion(100)] };
    let r = execute(&mut store, s(MARKET), info, ExecuteMsg::Buy { id: s("X") }, None);
    assert!(r.is_ok());
    assert_eq!(get_listing_count(&store), 0);
}

#[test]
fn free_listing_is_bought_with_no_coin() {
    let mut store = new_store();
    list(&mut store, "seller", "X", 0, false);
    let info = MessageInfo { sender: s("buyer"), funds: vec![] };
    let r = execute(&mut store, s(MARKET), info, ExecuteMsg::Buy { id: s("X") }, None);
    assert!(r.is_ok());
}

#[test]
fn records_are_kept_in_key_order() {
    let mut store = new_store();
    for id in ["m", "b", "z", "ba", "a", "\u{e9}"] {
        list(&mut store, "owner", id, 1, true);
    }
    let ids: Vec<String> =
        get_all_listings(&store, None, Some(10)).into_iter().map(|l| l.nft_id).collect();
    assert_eq!(ids, vec![s("a"), s("b"), s("ba"), s("m"), s("z"), s("\u{e9}")]);
    receive_new_trade(&mut store, s("t2"), s("q"), s("b"), Some(s("t2"))).unwrap();
    receive_new_trade(&mut store, s("t1"), s("r"), s("b"), Some(s("t1"))).unwrap();
    receive_new_trade(&mut store, s("t0"), s("p"), s("m"), Some(s("t0"))).unwrap();
    receive_new_trade(&mut store, s("t9"), s("o"), s("a"), Some(s("t9"))).unwrap();
    let keys: Vec<(String, String)> = get_all_trades(&store, None, None)
        .into_iter()
        .map(|t| (t.asked_id, t.trader))
        .collect();
    assert_eq!(
        keys,
        vec![(s("a"), s("t9")), (s("b"), s("t1")), (s("b"), s("t2")), (s("m"), s("t0"))]
    );
    execute_offer(&mut store, s("y"), 1, s(MARKET), s("m"), Uint256::from_uint128(1)).unwrap();
    execute_offer(&mut store, s("x"), 1, s(MARKET), s("m"), Uint256::from_uint128(1)).unwrap();
    execute_offer(&mut store, s("w"), 1, s(MARKET), s("b"), Uint256::from_uint128(1)).unwrap();
    let offers: Vec<String> =
        get_all_offers(&store, None, None).into_iter().map(|o| o.offerer).collect();
    assert_eq!(offers, vec![s("w"), s("x"), s("y")]);
}
