//! The auction: bids accumulate per bidder while the sale is open; once it
//! is closed every bid but the leader's can be taken back, and the leader's
//! goes to the admin.

use vstd::prelude::*;
use crate::chain::{sale_denom, sale_denomination, Coin, Response, ResponseView};
use crate::codec::{check_viewing_key, compare_nothing, encode_address};
use crate::error::Error;
use crate::sale::{lemma_entry_found, lemma_sale_funds_grow, lemma_with_balance, sale_funds, Sale};
use crate::shared::{
    opt_view,
    views,
    Auction,
    PaginatedResponse,
    Pagination,
    SaleInfo,
    SaleInfoView,
    SaleStatus,
};

verus! {

/// The kinds of message that change an auction.
#[derive(Debug, Clone, Copy, PartialEq, Eq, Structural)]
pub enum ExecuteMsg {
    Bid,
    RetractBid,
    ClaimProceeds,
    CreateViewingKey,
    SetViewingKey,
    SetStatus,
    ChangeAdmin,
}

/// The state of an auction.
#[derive(Debug)]
pub struct Contract {
    info: SaleInfo,
    admin: Option<String>,
    highest_bid: Option<String>,
    bidders: Vec<String>,
    balances: Vec<u128>,
}

impl View for Contract {
    type V = Sale;

    closed spec fn view(&self) -> Sale {
        Sale {
            info: self.info@,
            admin: opt_view(self.admin),
            highest: opt_view(self.highest_bid),
            bidders: views(self.bidders@),
            balances: self.balances@,
        }
    }
}

/// What comes with a call for the sale: all the coins of the sale's
/// denomination, taken together; nothing where they are more than a
/// balance can hold.
pub fn attached_funds(funds: &Vec<Coin>) -> (amount: Option<u128>)
    ensures
        match amount {
            Some(amount) => amount == sale_funds(views(funds@)),
            None => sale_funds(views(funds@)) > u128::MAX,
        },
{
    let denom = sale_denomination();
    let mut total: u128 = 0;
    let mut i: usize = 0;
    while i < funds.len()
        invariant
            i <= funds.len(),
            denom@ == sale_denom(),
            total == sale_funds(views(funds@).take(i as int)),
        decreases funds.len() - i,
    {
        proof {
            let coins = views(funds@);
            assert(coins.take(i + 1).drop_last() =~= coins.take(i as int));
            assert(coins.take(i + 1).last() == coins[i as int]);
            lemma_sale_funds_grow(coins, i + 1);
        }
        if funds[i].denom == denom {
            total = match total.checked_add(funds[i].amount) {
                Some(more) => more,
                None => {
                    return None;
                },
            };
        }
        i += 1;
    }
    proof {
        assert(views(funds@).take(i as int) =~= views(funds@));
    }
    Some(total)
}

/// Whether every balance is zero.
fn all_zero(balances: &Vec<u128>) -> (zero: bool)
    ensures
        zero == (forall|i: int| 0 <= i < balances@.len() ==> balances@[i] == 0),
{
    let mut i: usize = 0;
    while i < balances.len()
        invariant
            i <= balances.len(),
            forall|j: int| 0 <= j < i ==> balances@[j] == 0,
        decreases balances.len() - i,
    {
        if balances[i] != 0 {
            return false;
        }
        i += 1;
    }
    true
}

/// The first place at which `who` stands among `names`.
fn position(names: &Vec<String>, who: &String) -> (slot: Option<usize>)
    ensures
        match slot {
            Some(i) => i < names.len() && views(names@)[i as int] == who@,
            None => !views(names@).contains(who@),
        },
{
    let mut i: usize = 0;
    while i < names.len()
        invariant
            i <= names.len(),
            forall|j: int| 0 <= j < i ==> views(names@)[j] != who@,
        decreases names.len() - i,
    {
        if names[i] == *who {
            return Some(i);
        }
        i += 1;
    }
    None
}

/// Whether no name stands twice among `names`.
fn all_distinct(names: &Vec<String>) -> (distinct: bool)
    ensures
        distinct == views(names@).no_duplicates(),
{
    let mut i: usize = 0;
    while i < names.len()
        invariant
            i <= names.len(),
            forall|a: int, b: int| 0 <= a < b < i ==> views(names@)[a] != views(names@)[b],
        decreases names.len() - i,
    {
        let mut j: usize = 0;
        while j < i
            invariant
                j <= i < names.len(),
                forall|a: int| 0 <= a < j ==> views(names@)[a] != views(names@)[i as int],
            decreases i - j,
        {
            if names[j] == names[i] {
                assert(views(names@)[j as int] == views(names@)[i as int]);
                return false;
            }
            j += 1;
        }
        i += 1;
    }
    true
}

impl Contract {
    /// Whether a message may go ahead, given what the pause switch says:
    /// while the contract is not operational only a change of its status
    /// is let through, so that a pause can always be lifted.
    pub fn guard<E>(operational: Result<(), E>, msg: &ExecuteMsg) -> (r: Result<(), E>)
        ensures
            r == (if *msg == ExecuteMsg::SetStatus {
                Ok(())
            } else {
                operational
            }),
    {
        match msg {
            ExecuteMsg::SetStatus => Ok(()),
            _ => operational,
        }
    }

    /// The sale opened with `payload` as the data of its response.
    pub fn open(
        admin: Option<String>,
        name: String,
        end_block: u64,
        sender: &String,
        payload: Vec<u8>,
    ) -> (made: (Contract, Response))
        ensures
            made.0@ == Sale::fresh(
                SaleInfoView { name: name@, end_block },
                Some(
                    match admin {
                        Some(named) => named@,
                        None => sender@,
                    },
                ),
            ),
            made.0@.wf(),
            made.1@ == (ResponseView { messages: Seq::empty(), data: Some(payload@) }),
    {
        let admin = match admin {
            Some(named) => named,
            None => sender.clone(),
        };
        let contract = Contract {
            info: SaleInfo { name, end_block },
            admin: Some(admin),
            highest_bid: None,
            bidders: Vec::new(),
            balances: Vec::new(),
        };
        let response = Response { messages: Vec::new(), data: Some(payload) };
        proof {
            assert(views(contract.bidders@) =~= Seq::empty());
            assert(contract.balances@ =~= Seq::empty());
            assert(views(response.messages@) =~= Seq::empty());
        }
        (contract, response)
    }

    /// Where `who` stands in the ledger.
    fn find(&self, who: &String) -> (slot: Option<usize>)
        requires
            self@.wf(),
        ensures
            match slot {
                Some(i) => {
                    &&& i < self.bidders.len()
                    &&& self@.bidders.contains(who@)
                    &&& self@.bidders.index_of(who@) == i
                    &&& self@.balance_of(who@) == self.balances[i as int]
                },
                None => !self@.bidders.contains(who@) && self@.balance_of(who@) == 0,
            },
    {
        let slot = position(&self.bidders, who);
        proof {
            if let Some(i) = slot {
                lemma_entry_found(self@, i as int);
            }
        }
        slot
    }

    /// The auction that holds the given parts, where they make up a sale
    /// that is well formed; nothing where they do not.
    pub fn restore(
        info: SaleInfo,
        admin: Option<String>,
        highest_bid: Option<String>,
        bidders: Vec<String>,
        balances: Vec<u128>,
    ) -> (restored: Option<Contract>)
        ensures
            match restored {
                Some(contract) => {
                    &&& contract@.wf()
                    &&& contract@ == (Sale {
                        info: info@,
                        admin: opt_view(admin),
                        highest: opt_view(highest_bid),
                        bidders: views(bidders@),
                        balances: balances@,
                    })
                },
                None => !(Sale {
                    info: info@,
                    admin: opt_view(admin),
                    highest: opt_view(highest_bid),
                    bidders: views(bidders@),
                    balances: balances@,
                }).wf(),
            },
    {
        if bidders.len() != balances.len() {
            return None;
        }
        if !all_distinct(&bidders) {
            return None;
        }
        let led = match &highest_bid {
            Some(leader) => position(&bidders, leader).is_some(),
            None => all_zero(&balances),
        };
        if !led {
            return None;
        }
        Some(Contract { info, admin, highest_bid, bidders, balances })
    }

    /// The parts of the auction: the sale's description, the admin, the
    /// leader, and the ledger as bidders and balances, index for index.
    pub fn into_parts(self) -> (parts: (
        SaleInfo,
        Option<String>,
        Option<String>,
        Vec<String>,
        Vec<u128>,
    ))
        ensures
            self@ == (Sale {
                info: parts.0@,
                admin: opt_view(parts.1),
                highest: opt_view(parts.2),
                bidders: views(parts.3@),
                balances: parts.4@,
            }),
    {
        (self.info, self.admin, self.highest_bid, self.bidders, self.balances)
    }

    /// Record `amount` for `who`, whose place in the ledger is `slot`.
    fn record(&mut self, who: &String, slot: Option<usize>, amount: u128)
        requires
            old(self)@.wf(),
            match slot {
                Some(i) => old(self)@.bidders.contains(who@) && old(self)@.bidders.index_of(who@)
                    == i,
                None => !old(self)@.bidders.contains(who@),
            },
        ensures
            final(self)@ == old(self)@.with_balance(who@, amount),
    {
        match slot {
            Some(i) => {
                self.balances.set(i, amount);
            },
            None => {
                self.bidders.push(who.clone());
                self.balances.push(amount);
                proof {
                    assert(views(self.bidders@) =~= views(old(self).bidders@).push(who@));
                }
            },
        }
    }

    /// The current admin.
    pub fn admin(&self) -> (admin: Option<String>)
        ensures
            opt_view(admin) == self@.admin,
    {
        match &self.admin {
            Some(admin) => Some(admin.clone()),
            None => None,
        }
    }

    /// Who leads.
    pub fn highest_bidder(&self) -> (leader: Option<String>)
        ensures
            opt_view(leader) == self@.highest,
    {
        match &self.highest_bid {
            Some(leader) => Some(leader.clone()),
            None => None,
        }
    }

    /// What is recorded for `address`, for a caller who has shown that the
    /// balance is theirs to see.
    pub fn balance_for(&self, address: &String, authenticated: bool) -> (r: Result<u128, Error>)
        requires
            self@.wf(),
        ensures
            r == (if authenticated {
                Ok(self@.balance_of(address@))
            } else {
                Err(Error::Unauthorized)
            }),
    {
        if !authenticated {
            return Err(Error::Unauthorized);
        }
        match self.find(address) {
            Some(i) => Ok(self.balances[i]),
            None => Ok(0),
        }
    }
}

impl Auction for Contract {
    fn new(
        admin: Option<String>,
        name: String,
        end_block: u64,
        sender: &String,
        address: &String,
    ) -> (r: Result<(Self, Response), Error>) {
        match encode_address(address) {
            Ok(payload) => Ok(Contract::open(admin, name, end_block, sender, payload)),
            // An address is always written: see `encode_address`.
            Err(_) => unreached(),
        }
    }

    fn bid(&mut self, height: u64, sender: &String, funds: &Vec<Coin>) -> (r: Result<
        Response,
        Error,
    >) {
        if self.info.end_block < height {
            return Err(Error::SaleFinished);
        }
        let amount = match attached_funds(funds) {
            Some(amount) => amount,
            None => {
                return Err(Error::Overflow);
            },
        };
        let slot = self.find(sender);
        let balance = match slot {
            Some(i) => self.balances[i],
            None => 0,
        };
        let raised = match balance.checked_add(amount) {
            Some(raised) => raised,
            None => {
                return Err(Error::Overflow);
            },
        };
        let takes_lead = match &self.highest_bid {
            None => true,
            Some(leader) => {
                if *leader == *sender {
                    false
                } else {
                    match self.find(leader) {
                        Some(at) => raised > self.balances[at],
                        None => false,
                    }
                }
            },
        };
        proof {
            lemma_with_balance(self@, sender@, raised);
        }
        self.record(sender, slot, raised);
        if takes_lead {
            self.highest_bid = Some(sender.clone());
        }
        Ok(Response::new())
    }

    fn retract_bid(&mut self, height: u64, sender: &String) -> (r: Result<Response, Error>) {
        if height <= self.info.end_block {
            return Err(Error::SaleNotFinished);
        }
        let leads = match &self.highest_bid {
            Some(leader) => *leader == *sender,
            None => false,
        };
        if leads {
            return Err(Error::WinnerCannotRetract);
        }
        let slot = self.find(sender);
        let refund = match slot {
            Some(i) => self.balances[i],
            None => 0,
        };
        proof {
            lemma_with_balance(self@, sender@, 0);
        }
        self.record(sender, slot, 0);
        if refund > 0 {
            Ok(Response::pay(sender, refund))
        } else {
            Ok(Response::new())
        }
    }

    fn claim_proceeds(&mut self, height: u64, sender: &String) -> (r: Result<Response, Error>) {
        let authorized = match &self.admin {
            Some(admin) => *admin == *sender,
            None => false,
        };
        if !authorized {
            return Err(Error::Unauthorized);
        }
        if height <= self.info.end_block {
            return Err(Error::SaleNotFinished);
        }
        let leader = match &self.highest_bid {
            None => {
                return Ok(Response::new());
            },
            Some(leader) => leader.clone(),
        };
        let slot = self.find(&leader);
        let paid = match slot {
            Some(i) => self.balances[i],
            None => 0,
        };
        proof {
            lemma_with_balance(self@, leader@, 0);
        }
        self.record(&leader, slot, 0);
        Ok(Response::pay(sender, paid))
    }

    fn view_bid(&self, address: &String, key: &String, stored_key: Option<&Vec<u8>>) -> (r: Result<
        u128,
        Error,
    >) {
        let authenticated = match stored_key {
            Some(hashed) => check_viewing_key(key, hashed),
            None => false,
        };
        if !authenticated {
            compare_nothing();
        }
        self.balance_for(address, authenticated)
    }

    fn active_bids(&self, pagination: Pagination) -> (page: PaginatedResponse<u128>) {
        let (lower, upper) = pagination.bounds(self.balances.len());
        let mut entries: Vec<u128> = Vec::new();
        let mut i: usize = lower;
        while i < upper
            invariant
                lower <= i <= upper <= self.balances.len(),
                entries@ == self.balances@.subrange(lower as int, i as int),
            decreases upper - i,
        {
            entries.push(self.balances[i]);
            i += 1;
        }
        PaginatedResponse { entries, total: self.balances.len() as u64 }
    }

    fn sale_status(&self, height: u64) -> (status: SaleStatus) {
        let current_highest = match &self.highest_bid {
            Some(leader) => match self.find(leader) {
                Some(at) => self.balances[at],
                None => 0,
            },
            None => 0,
        };
        SaleStatus {
            info: self.info.clone(),
            current_highest,
            is_finished: self.info.end_block < height,
        }
    }
}

} // verus!
