use auction_house::auction::{attached_funds, Contract, ExecuteMsg};
use auction_house::chain::{Coin, Message, ReplyOn, Response};
use auction_house::error::Error;
use auction_house::shared::{Auction, Pagination, SaleInfo};
use fadroma::scrt::vk::ViewingKey;

fn name(text: &str) -> String {
    text.to_string()
}

fn uscrt(amount: u128) -> Vec<Coin> {
    vec![Coin { denom: name("uscrt"), amount }]
}

/// A sale that ends at block 100, opened by "creator" with "admin" as admin.
fn sale() -> Contract {
    let (contract, _) =
        Contract::new(Some(name("admin")), name("Road 23"), 100, &name("creator"), &name("sale"))
            .unwrap();
    contract
}

fn balances(contract: &Contract) -> Vec<u128> {
    contract.active_bids(Pagination { start: 0, limit: 30 }).entries
}

/// The one payment that a response asks for.
fn payment(response: &Response) -> (String, u128) {
    assert_eq!(response.messages.len(), 1);
    assert!(response.data.is_none());
    let sub = &response.messages[0];
    assert_eq!(sub.reply_on, ReplyOn::Never);
    match &sub.msg {
        Message::Send { to_address, amount } => {
            assert_eq!(amount.denom, "uscrt");
            (to_address.clone(), amount.amount)
        }
        other => panic!("not a payment: {:?}", other),
    }
}

#[test]
fn new_sale_carries_its_address_as_json() {
    let (contract, response) =
        Contract::new(None, name("Road 23"), 100, &name("creator"), &name("secret1abc")).unwrap();
    assert!(response.messages.is_empty());
    assert_eq!(response.data, Some(b"\"secret1abc\"".to_vec()));
    assert_eq!(contract.admin(), Some(name("creator")));
    assert_eq!(contract.highest_bidder(), None);
    let status = contract.sale_status(1);
    assert_eq!(status.info.name, "Road 23");
    assert_eq!(status.info.end_block, 100);
    assert_eq!(status.current_highest, 0);
    assert!(!status.is_finished);
    assert_eq!(contract.active_bids(Pagination { start: 0, limit: 30 }).total, 0);
}

#[test]
fn open_takes_the_payload_as_given() {
    let (contract, response) =
        Contract::open(Some(name("admin")), name("x"), 7, &name("creator"), vec![1, 2, 3]);
    assert_eq!(response.data, Some(vec![1, 2, 3]));
    assert!(response.messages.is_empty());
    assert_eq!(contract.admin(), Some(name("admin")));
}

/// Creation makes no check of the end block against the current height: a
/// sale whose end block has passed is opened like any other, takes no bid
/// and can be settled at once.
#[test]
fn a_sale_may_be_opened_with_its_end_in_the_past() {
    let (mut contract, _) =
        Contract::new(Some(name("admin")), name("Road 23"), 100, &name("creator"), &name("sale"))
            .unwrap();
    let status = contract.sale_status(101);
    assert!(status.is_finished);
    assert_eq!(status.info.end_block, 100);
    assert_eq!(contract.bid(101, &name("a"), &uscrt(1)).unwrap_err(), Error::SaleFinished);
    assert!(contract.claim_proceeds(101, &name("admin")).unwrap().messages.is_empty());

    let (contract, _) =
        Contract::new(None, name("Road 23"), 0, &name("creator"), &name("sale")).unwrap();
    assert!(!contract.sale_status(0).is_finished);
    assert!(contract.sale_status(1).is_finished);
}

#[test]
fn first_bid_leads_even_without_funds() {
    let mut contract = sale();
    let response = contract.bid(1, &name("a"), &vec![]).unwrap();
    assert!(response.messages.is_empty());
    assert!(response.data.is_none());
    assert_eq!(contract.highest_bidder(), Some(name("a")));
    assert_eq!(contract.sale_status(1).current_highest, 0);
    assert_eq!(balances(&contract), vec![0]);
}

#[test]
fn a_tie_does_not_displace_the_leader() {
    let mut contract = sale();
    contract.bid(1, &name("a"), &uscrt(10)).unwrap();
    contract.bid(2, &name("b"), &uscrt(10)).unwrap();
    assert_eq!(contract.highest_bidder(), Some(name("a")));
    contract.bid(3, &name("b"), &uscrt(1)).unwrap();
    assert_eq!(contract.highest_bidder(), Some(name("b")));
    assert_eq!(contract.sale_status(3).current_highest, 11);
    assert_eq!(balances(&contract), vec![10, 11]);
}

#[test]
fn bids_accumulate_and_the_leader_stays_highest() {
    let mut contract = sale();
    let bids = [("a", 5u128), ("b", 3), ("c", 4), ("b", 2), ("c", 2), ("a", 1), ("d", 0)];
    for (who, amount) in bids {
        contract.bid(10, &name(who), &uscrt(amount)).unwrap();
        let highest = contract.sale_status(10).current_highest;
        assert!(balances(&contract).iter().all(|b| *b <= highest));
    }
    assert_eq!(balances(&contract), vec![6, 5, 6, 0]);
    assert_eq!(contract.highest_bidder(), Some(name("c")));
    contract.bid(10, &name("a"), &uscrt(1)).unwrap();
    assert_eq!(contract.highest_bidder(), Some(name("a")));
}

#[test]
fn the_leader_may_raise_their_own_bid() {
    let mut contract = sale();
    contract.bid(1, &name("a"), &uscrt(10)).unwrap();
    contract.bid(1, &name("a"), &uscrt(5)).unwrap();
    assert_eq!(contract.highest_bidder(), Some(name("a")));
    assert_eq!(contract.sale_status(1).current_highest, 15);
}

#[test]
fn every_coin_of_the_denomination_counts() {
    let coin = |denom: &str, amount: u128| Coin { denom: name(denom), amount };
    assert_eq!(attached_funds(&vec![]), Some(0));
    assert_eq!(attached_funds(&vec![coin("uatom", 9)]), Some(0));
    assert_eq!(attached_funds(&vec![coin("uatom", 9), coin("uscrt", 4)]), Some(4));
    assert_eq!(attached_funds(&vec![coin("uscrt", 4), coin("uscrt", 6)]), Some(10));
    assert_eq!(
        attached_funds(&vec![coin("uscrt", 4), coin("uatom", 1), coin("uscrt", 6), coin("x", 2)]),
        Some(10)
    );
    assert_eq!(attached_funds(&vec![coin("USCRT", 4)]), Some(0));
    assert_eq!(
        attached_funds(&vec![coin("uscrt", u128::MAX), coin("uatom", 1)]),
        Some(u128::MAX)
    );
    assert_eq!(attached_funds(&vec![coin("uscrt", u128::MAX), coin("uscrt", 1)]), None);

    let mut contract = sale();
    contract.bid(1, &name("a"), &vec![coin("uscrt", 5), coin("uscrt", 7)]).unwrap();
    assert_eq!(balances(&contract), vec![12]);
    contract.bid(1, &name("a"), &vec![coin("uatom", 9), coin("uscrt", 4)]).unwrap();
    assert_eq!(balances(&contract), vec![16]);
    assert_eq!(contract.sale_status(1).current_highest, 16);
}

#[test]
fn coins_that_add_up_past_a_balance_are_refused() {
    let coin = |amount: u128| Coin { denom: name("uscrt"), amount };
    let mut contract = sale();
    contract.bid(1, &name("a"), &uscrt(1)).unwrap();
    let err = contract.bid(1, &name("b"), &vec![coin(u128::MAX), coin(1)]).unwrap_err();
    assert_eq!(err, Error::Overflow);
    let err = contract.bid(1, &name("a"), &vec![coin(u128::MAX - 1), coin(1)]).unwrap_err();
    assert_eq!(err, Error::Overflow);
    assert_eq!(balances(&contract), vec![1]);
    assert_eq!(contract.highest_bidder(), Some(name("a")));
    // once the sale is closed that is the failure, whatever is attached
    let err = contract.bid(101, &name("b"), &vec![coin(u128::MAX), coin(1)]).unwrap_err();
    assert_eq!(err, Error::SaleFinished);
}

#[test]
fn bids_are_taken_up_to_the_end_block_and_not_after() {
    let mut contract = sale();
    contract.bid(100, &name("a"), &uscrt(1)).unwrap();
    let err = contract.bid(101, &name("a"), &uscrt(1)).unwrap_err();
    assert_eq!(err, Error::SaleFinished);
    assert!(err.is_phase_violation());
    assert_eq!(err.message(), "Sale has finished.");
    assert_eq!(balances(&contract), vec![1]);
}

#[test]
fn nothing_is_settled_up_to_the_end_block() {
    let mut contract = sale();
    contract.bid(1, &name("a"), &uscrt(3)).unwrap();
    contract.bid(1, &name("b"), &uscrt(2)).unwrap();
    for height in [0, 50, 100] {
        let err = contract.retract_bid(height, &name("b")).unwrap_err();
        assert_eq!(err, Error::SaleNotFinished);
        assert!(err.is_phase_violation());
        let err = contract.claim_proceeds(height, &name("admin")).unwrap_err();
        assert_eq!(err, Error::SaleNotFinished);
        assert_eq!(err.message(), "Sale hasn't finished yet.");
        assert!(contract.claim_proceeds(height, &name("b")).is_err());
    }
    assert_eq!(balances(&contract), vec![3, 2]);
    assert!(contract.retract_bid(101, &name("b")).is_ok());
}

#[test]
fn the_winner_cannot_retract() {
    let mut contract = sale();
    contract.bid(1, &name("a"), &uscrt(3)).unwrap();
    let err = contract.retract_bid(101, &name("a")).unwrap_err();
    assert_eq!(err, Error::WinnerCannotRetract);
    assert!(!err.is_phase_violation());
    assert_ne!(err, Error::SaleNotFinished);
    assert_eq!(err.message(), "You have won the sale and cannot retract your bid.");
    assert_eq!(balances(&contract), vec![3]);
}

#[test]
fn retracting_twice_refunds_once() {
    let mut contract = sale();
    contract.bid(1, &name("a"), &uscrt(3)).unwrap();
    contract.bid(1, &name("b"), &uscrt(2)).unwrap();
    let first = contract.retract_bid(101, &name("b")).unwrap();
    assert_eq!(payment(&first), (name("b"), 2));
    assert_eq!(balances(&contract), vec![3, 0]);
    let second = contract.retract_bid(500, &name("b")).unwrap();
    assert!(second.messages.is_empty());
    assert!(second.data.is_none());
    assert_eq!(balances(&contract), vec![3, 0]);
}

#[test]
fn retracting_without_a_bid_records_a_zero() {
    let mut contract = sale();
    contract.bid(1, &name("a"), &uscrt(3)).unwrap();
    let response = contract.retract_bid(101, &name("stranger")).unwrap();
    assert!(response.messages.is_empty());
    let page = contract.active_bids(Pagination { start: 0, limit: 30 });
    assert_eq!(page.entries, vec![3, 0]);
    assert_eq!(page.total, 2);
}

#[test]
fn retracting_from_a_sale_without_bids_sends_nothing() {
    let mut contract = sale();
    assert_eq!(contract.retract_bid(100, &name("a")).unwrap_err(), Error::SaleNotFinished);
    for who in ["a", "b", "a", "admin"] {
        let response = contract.retract_bid(101, &name(who)).unwrap();
        assert!(response.messages.is_empty());
        assert!(response.data.is_none());
    }
    assert_eq!(contract.highest_bidder(), None);
    assert_eq!(contract.sale_status(101).current_highest, 0);
    let page = contract.active_bids(Pagination { start: 0, limit: 30 });
    assert_eq!(page.entries, vec![0, 0, 0]);
    assert_eq!(page.total, 3);
    assert!(contract.claim_proceeds(101, &name("admin")).unwrap().messages.is_empty());
}

#[test]
fn claiming_twice_pays_once() {
    let mut contract = sale();
    contract.bid(1, &name("a"), &uscrt(3)).unwrap();
    contract.bid(1, &name("b"), &uscrt(2)).unwrap();
    let first = contract.claim_proceeds(101, &name("admin")).unwrap();
    assert_eq!(payment(&first), (name("admin"), 3));
    assert_eq!(balances(&contract), vec![0, 2]);
    assert_eq!(contract.highest_bidder(), Some(name("a")));
    let second = contract.claim_proceeds(102, &name("admin")).unwrap();
    assert_eq!(payment(&second), (name("admin"), 0));
    assert_eq!(balances(&contract), vec![0, 2]);
}

#[test]
fn claiming_without_bids_sends_nothing() {
    let mut contract = sale();
    let response = contract.claim_proceeds(101, &name("admin")).unwrap();
    assert!(response.messages.is_empty());
    assert!(response.data.is_none());
}

#[test]
fn only_the_admin_claims() {
    let mut contract = sale();
    contract.bid(1, &name("a"), &uscrt(3)).unwrap();
    for height in [1, 101] {
        let err = contract.claim_proceeds(height, &name("a")).unwrap_err();
        assert_eq!(err, Error::Unauthorized);
        assert_eq!(err.message(), "Unauthorized");
    }
    assert_eq!(balances(&contract), vec![3]);
}

#[test]
fn a_balance_cannot_overflow() {
    let mut contract = sale();
    contract.bid(1, &name("a"), &uscrt(u128::MAX - 1)).unwrap();
    contract.bid(1, &name("a"), &uscrt(1)).unwrap();
    let err = contract.bid(1, &name("a"), &uscrt(1)).unwrap_err();
    assert_eq!(err, Error::Overflow);
    assert_eq!(err.message(), "Balance overflow.");
    assert_eq!(balances(&contract), vec![u128::MAX]);
    contract.bid(1, &name("a"), &uscrt(0)).unwrap();
}

#[test]
fn a_bid_is_shown_to_the_holder_of_the_key() {
    let mut contract = sale();
    contract.bid(1, &name("a"), &uscrt(3)).unwrap();
    let stored = ViewingKey(name("key")).to_hashed().as_slice().to_vec();
    assert_ne!(stored, b"key".to_vec());
    assert_eq!(contract.view_bid(&name("a"), &name("key"), Some(&stored)), Ok(3));
    assert_eq!(contract.view_bid(&name("nobody"), &name("key"), Some(&stored)), Ok(0));
    assert_eq!(
        contract.view_bid(&name("a"), &name("other"), Some(&stored)),
        Err(Error::Unauthorized)
    );
    assert_eq!(contract.view_bid(&name("a"), &name("key"), None), Err(Error::Unauthorized));
    assert_eq!(
        contract.view_bid(&name("a"), &name("key"), Some(&b"key".to_vec())),
        Err(Error::Unauthorized)
    );
    assert_eq!(contract.balance_for(&name("a"), true), Ok(3));
    assert_eq!(contract.balance_for(&name("a"), false), Err(Error::Unauthorized));
}

#[test]
fn a_paused_contract_lets_only_a_change_of_status_through() {
    let paused: Result<(), String> = Err(name("Paused"));
    let all = [
        ExecuteMsg::Bid,
        ExecuteMsg::RetractBid,
        ExecuteMsg::ClaimProceeds,
        ExecuteMsg::CreateViewingKey,
        ExecuteMsg::SetViewingKey,
        ExecuteMsg::ChangeAdmin,
    ];
    for msg in all {
        assert_eq!(Contract::guard(paused.clone(), &msg), Err(name("Paused")));
        assert_eq!(Contract::guard(Ok::<(), String>(()), &msg), Ok(()));
    }
    assert_eq!(Contract::guard(paused, &ExecuteMsg::SetStatus), Ok(()));
    assert_eq!(Contract::guard(Ok::<(), String>(()), &ExecuteMsg::SetStatus), Ok(()));
}

#[test]
fn a_sale_is_restored_from_its_parts() {
    let mut contract = sale();
    contract.bid(1, &name("a"), &uscrt(3)).unwrap();
    contract.bid(1, &name("b"), &uscrt(5)).unwrap();
    let (info, admin, highest, bidders, amounts) = contract.into_parts();
    assert_eq!(info.name, "Road 23");
    assert_eq!(info.end_block, 100);
    assert_eq!(admin, Some(name("admin")));
    assert_eq!(highest, Some(name("b")));
    assert_eq!(bidders, vec![name("a"), name("b")]);
    assert_eq!(amounts, vec![3, 5]);
    let mut restored = Contract::restore(info, admin, highest, bidders, amounts).unwrap();
    restored.bid(2, &name("a"), &uscrt(3)).unwrap();
    assert_eq!(restored.highest_bidder(), Some(name("a")));
    assert_eq!(balances(&restored), vec![6, 5]);
}

#[test]
fn parts_that_make_no_sale_are_refused() {
    let info = || SaleInfo { name: name("x"), end_block: 1 };
    let names = |list: &[&str]| list.iter().map(|n| name(n)).collect::<Vec<String>>();
    // one balance short
    assert!(Contract::restore(info(), None, Some(name("a")), names(&["a", "b"]), vec![1]).is_none());
    // a bidder with two entries
    assert!(
        Contract::restore(info(), None, Some(name("a")), names(&["a", "b", "a"]), vec![1, 2, 3])
            .is_none()
    );
    // a leader without an entry
    assert!(Contract::restore(info(), None, Some(name("c")), names(&["a", "b"]), vec![1, 2]).is_none());
    // something recorded without a leader
    assert!(Contract::restore(info(), None, None, names(&["a"]), vec![1]).is_none());
    assert!(Contract::restore(info(), None, None, names(&["a", "b"]), vec![0, 1]).is_none());
    // entries of zero without a leader are a sale
    assert!(Contract::restore(info(), None, None, names(&["a", "b"]), vec![0, 0]).is_some());
    // nothing at all is a sale
    assert!(Contract::restore(info(), None, None, vec![], vec![]).is_some());
    assert!(Contract::restore(info(), None, Some(name("b")), names(&["a", "b"]), vec![1, 2]).is_some());
}

#[test]
fn windows_into_the_ledger_are_capped_and_stop_at_the_end() {
    let mut contract = sale();
    for i in 0..40u128 {
        contract.bid(1, &format!("bidder {}", i), &uscrt(i)).unwrap();
    }
    let window = |start: u64, limit: u8| -> Vec<u128> {
        let page = contract.active_bids(Pagination { start, limit });
        assert_eq!(page.total, 40);
        page.entries
    };
    let expected = |from: u128, to: u128| -> Vec<u128> { (from..to).collect() };
    assert_eq!(window(0, 255), expected(0, 30));
    assert_eq!(window(0, 31), expected(0, 30));
    assert_eq!(window(5, 30), expected(5, 35));
    assert_eq!(window(20, 30), expected(20, 40));
    assert_eq!(window(7, 2), expected(7, 9));
    assert_eq!(window(39, 1), expected(39, 40));
    assert_eq!(window(0, 0), expected(0, 0));
    assert_eq!(window(40, 30), expected(0, 0));
    assert_eq!(window(41, 30), expected(0, 0));
    assert_eq!(window(u64::MAX, 30), expected(0, 0));
}

#[test]
fn every_failure_has_its_text() {
    let texts = [
        (Error::SaleFinished, "Sale has finished.", true),
        (Error::SaleNotFinished, "Sale hasn't finished yet.", true),
        (
            Error::WinnerCannotRetract,
            "You have won the sale and cannot retract your bid.",
            false,
        ),
        (Error::Unauthorized, "Unauthorized", false),
        (Error::NotFound, "Not found.", false),
        (Error::UnexpectedReplyId, "Unexpected reply id.", false),
        (Error::MalformedReply, "Malformed reply.", false),
        (Error::Overflow, "Balance overflow.", false),
    ];
    for (err, text, phase) in texts {
        assert_eq!(err.message(), text);
        assert_eq!(err.is_phase_violation(), phase);
    }
}

#[test]
fn the_status_follows_the_leader_and_the_height() {
    let mut contract = sale();
    let status = |contract: &Contract, height: u64, current_highest: u128, is_finished: bool| {
        assert_eq!(
            contract.sale_status(height),
            auction_house::shared::SaleStatus {
                info: SaleInfo { name: name("Road 23"), end_block: 100 },
                current_highest,
                is_finished,
            }
        );
    };
    status(&contract, 0, 0, false);
    contract.bid(1, &name("a"), &uscrt(3)).unwrap();
    contract.bid(1, &name("b"), &uscrt(2)).unwrap();
    status(&contract, 99, 3, false);
    status(&contract, 100, 3, false);
    status(&contract, 101, 3, true);
    contract.retract_bid(101, &name("b")).unwrap();
    status(&contract, 101, 3, true);
    contract.claim_proceeds(101, &name("admin")).unwrap();
    status(&contract, u64::MAX, 0, true);
}
