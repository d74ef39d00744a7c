//! The values that the auction and the factory share.

use vstd::prelude::*;
use crate::chain::{Coin, Response, ResponseView};
use crate::codec::{payload_of_address, viewing_key_opens};
use crate::error::Error;
use crate::sale::{sale_funds, Sale};

verus! {

/// What is sold and until when. Fixed once the auction exists.
#[derive(Debug)]
pub struct SaleInfo {
    pub name: String,
    pub end_block: u64,
}

/// A `SaleInfo` as contracts speak of it.
pub struct SaleInfoView {
    pub name: Seq<char>,
    pub end_block: u64,
}

impl View for SaleInfo {
    type V = SaleInfoView;

    open spec fn view(&self) -> SaleInfoView {
        SaleInfoView { name: self.name@, end_block: self.end_block }
    }
}

impl PartialEq for SaleInfo {
    fn eq(&self, other: &Self) -> (equal: bool) {
        self.name == other.name && self.end_block == other.end_block
    }
}

impl vstd::std_specs::cmp::PartialEqSpecImpl for SaleInfo {
    open spec fn obeys_eq_spec() -> bool {
        true
    }

    open spec fn eq_spec(&self, other: &Self) -> bool {
        self.name@ == other.name@ && self.end_block == other.end_block
    }
}

impl Clone for SaleInfo {
    fn clone(&self) -> (copy: Self)
        ensures
            copy@ == self@,
    {
        SaleInfo { name: self.name.clone(), end_block: self.end_block }
    }
}

/// What a new auction is told when it is created.
#[derive(Debug)]
pub struct InstantiateMsg {
    pub admin: Option<String>,
    pub name: String,
    pub end_block: u64,
}

/// An `InstantiateMsg` as contracts speak of it.
pub struct InstantiateMsgView {
    pub admin: Option<Seq<char>>,
    pub name: Seq<char>,
    pub end_block: u64,
}

impl View for InstantiateMsg {
    type V = InstantiateMsgView;

    open spec fn view(&self) -> InstantiateMsgView {
        InstantiateMsgView {
            admin: opt_view(self.admin),
            name: self.name@,
            end_block: self.end_block,
        }
    }
}

/// The views of the items of a sequence, in the same order.
pub open spec fn views<T: View>(items: Seq<T>) -> Seq<T::V> {
    items.map_values(|item: T| item@)
}

/// The view of what an option holds, if it holds anything.
pub open spec fn opt_view<T: View>(item: Option<T>) -> Option<T::V> {
    match item {
        Some(held) => Some(held@),
        None => None,
    }
}

/// Which part of a list a query asks for.
#[derive(Debug, Clone, Copy)]
pub struct Pagination {
    pub start: u64,
    pub limit: u8,
}

impl Pagination {
    /// The most entries that one query returns.
    pub const LIMIT: u8 = 30;

    /// The number of entries asked for, capped.
    pub open spec fn capped(self) -> nat {
        if self.limit < 30 {
            self.limit as nat
        } else {
            30
        }
    }

    /// Where the window into a list of `total` entries begins.
    pub open spec fn lower(self, total: nat) -> nat {
        if self.start < total {
            self.start as nat
        } else {
            total
        }
    }

    /// Where the window into a list of `total` entries ends.
    pub open spec fn upper(self, total: nat) -> nat {
        if self.lower(total) + self.capped() < total {
            self.lower(total) + self.capped()
        } else {
            total
        }
    }

    /// The entries of `items` that the window holds, in their order.
    pub open spec fn window<T>(self, items: Seq<T>) -> Seq<T> {
        items.subrange(self.lower(items.len()) as int, self.upper(items.len()) as int)
    }

    /// The bounds of the window into a list of `total` entries.
    pub fn bounds(&self, total: usize) -> (range: (usize, usize))
        ensures
            range.0 == self.lower(total as nat),
            range.1 == self.upper(total as nat),
            range.0 <= range.1 <= total,
    {
        let limit: usize = if self.limit < Self::LIMIT {
            self.limit as usize
        } else {
            Self::LIMIT as usize
        };
        let lower: usize = if self.start < total as u64 {
            self.start as usize
        } else {
            total
        };
        let upper: usize = if limit < total - lower {
            lower + limit
        } else {
            total
        };
        (lower, upper)
    }
}

/// How a sale stands.
#[derive(Debug)]
pub struct SaleStatus {
    pub info: SaleInfo,
    pub current_highest: u128,
    pub is_finished: bool,
}

/// A `SaleStatus` as contracts speak of it.
pub struct SaleStatusView {
    pub info: SaleInfoView,
    pub current_highest: u128,
    pub is_finished: bool,
}

impl View for SaleStatus {
    type V = SaleStatusView;

    open spec fn view(&self) -> SaleStatusView {
        SaleStatusView {
            info: self.info@,
            current_highest: self.current_highest,
            is_finished: self.is_finished,
        }
    }
}

impl PartialEq for SaleStatus {
    fn eq(&self, other: &Self) -> (equal: bool) {
        self.info == other.info && self.current_highest == other.current_highest
            && self.is_finished == other.is_finished
    }
}

impl vstd::std_specs::cmp::PartialEqSpecImpl for SaleStatus {
    open spec fn obeys_eq_spec() -> bool {
        true
    }

    open spec fn eq_spec(&self, other: &Self) -> bool {
        self@ == other@
    }
}

/// The response to a refund of `amount` to `who`: one payment, or nothing
/// where nothing is owed.
pub open spec fn refund_response(who: Seq<char>, amount: u128) -> ResponseView {
    if amount > 0 {
        ResponseView::payment(who, amount)
    } else {
        ResponseView::empty()
    }
}

/// The response to a claim by `who`: one payment of what the leader had
/// recorded, or nothing where nobody has bid.
pub open spec fn proceeds_response(who: Seq<char>, amount: Option<u128>) -> ResponseView {
    match amount {
        Some(amount) => ResponseView::payment(who, amount),
        None => ResponseView::empty(),
    }
}

/// A sale in escrow: bids are held until the end block has passed, then the
/// leader's bid goes to the admin and every other bid back to its bidder.
///
/// Every operation that fails leaves the sale as it was.
pub trait Auction: Sized + View<V = Sale> {
    /// Open a sale, at the address `address`, on behalf of `sender`. The
    /// admin is the one named, or else the sender. The response carries the
    /// sale's own address as data, for whoever asked for the sale.
    ///
    /// Any end block is taken as it is given. Creation does not look at the
    /// current block height, so a sale may be opened with its end block
    /// already reached or passed: such a sale takes no bid, or only those
    /// of the blocks that are left, and can be settled as soon as its end
    /// block has passed.
    fn new(
        admin: Option<String>,
        name: String,
        end_block: u64,
        sender: &String,
        address: &String,
    ) -> (r: Result<(Self, Response), Error>)
        ensures
            r matches Ok(made) && {
                &&& made.0@.wf()
                &&& made.0@ == Sale::fresh(
                    SaleInfoView { name: name@, end_block },
                    Some(
                        match admin {
                            Some(named) => named@,
                            None => sender@,
                        },
                    ),
                )
                &&& made.1@ == (ResponseView {
                    messages: Seq::empty(),
                    data: Some(payload_of_address(address@)),
                })
            },
    ;

    /// Bid what comes with the call: all the attached coins of the sale's
    /// denomination, taken together.
    fn bid(&mut self, height: u64, sender: &String, funds: &Vec<Coin>) -> (r: Result<
        Response,
        Error,
    >)
        requires
            old(self)@.wf(),
        ensures
            final(self)@.wf(),
            match old(self)@.bid(height, sender@, sale_funds(views(funds@))) {
                Ok(next) => {
                    &&& r matches Ok(sent)
                    &&& sent@ == ResponseView::empty()
                    &&& final(self)@ == next
                },
                Err(e) => r == Err::<Response, Error>(e) && final(self)@ == old(self)@,
            },
    ;

    /// Take back a bid that did not win.
    fn retract_bid(&mut self, height: u64, sender: &String) -> (r: Result<Response, Error>)
        requires
            old(self)@.wf(),
        ensures
            final(self)@.wf(),
            match old(self)@.retract_bid(height, sender@) {
                Ok((next, refund)) => {
                    &&& r matches Ok(sent)
                    &&& sent@ == refund_response(sender@, refund)
                    &&& final(self)@ == next
                },
                Err(e) => r == Err::<Response, Error>(e) && final(self)@ == old(self)@,
            },
    ;

    /// Collect the winning bid.
    fn claim_proceeds(&mut self, height: u64, sender: &String) -> (r: Result<Response, Error>)
        requires
            old(self)@.wf(),
        ensures
            final(self)@.wf(),
            match old(self)@.claim_proceeds(height, sender@) {
                Ok((next, paid)) => {
                    &&& r matches Ok(sent)
                    &&& sent@ == proceeds_response(sender@, paid)
                    &&& final(self)@ == next
                },
                Err(e) => r == Err::<Response, Error>(e) && final(self)@ == old(self)@,
            },
    ;

    /// What is recorded for `address`, for whoever holds the viewing key
    /// whose hash is stored for that address. Without a stored hash, and
    /// with stored bytes that are no hash, nobody is shown anything.
    fn view_bid(&self, address: &String, key: &String, stored_key: Option<&Vec<u8>>) -> (r: Result<
        u128,
        Error,
    >)
        requires
            self@.wf(),
        ensures
            r == (match stored_key {
                Some(hashed) if viewing_key_opens(key@, hashed@) => Ok(self@.balance_of(address@)),
                _ => Err(Error::Unauthorized),
            }),
            stored_key matches Some(hashed) && hashed@.len() != 32 ==> r == Err::<u128, Error>(
                Error::Unauthorized,
            ),
    ;

    /// The recorded balances that the window holds, in the order of the
    /// ledger, and the number of entries in the ledger.
    fn active_bids(&self, pagination: Pagination) -> (page: PaginatedResponse<u128>)
        requires
            self@.wf(),
        ensures
            page.entries@ == pagination.window(self@.balances),
            page.total == self@.balances.len(),
    ;

    /// How the sale stands at block `height`.
    fn sale_status(&self, height: u64) -> (status: SaleStatus)
        requires
            self@.wf(),
        ensures
            status@ == (SaleStatusView {
                info: self@.info,
                current_highest: self@.current_highest(),
                is_finished: !self@.open_at(height),
            }),
    ;
}

/// A window never holds more than `Pagination::LIMIT` entries, whatever
/// the limit asked for, and none where it starts at or past the end of the
/// list. Otherwise it holds the entries from its start on: as many as
/// asked for under the cap, or all that are left.
pub proof fn lemma_window_bounds<T>(pagination: Pagination, items: Seq<T>)
    ensures
        pagination.window(items).len() <= 30,
        pagination.window(items).len() <= pagination.limit,
        pagination.start >= items.len() ==> pagination.window(items).len() == 0,
        pagination.start < items.len() ==> pagination.window(items).len() == (if items.len()
            - pagination.start < pagination.capped() {
            items.len() - pagination.start
        } else {
            pagination.capped() as int
        }),
        forall|i: int|
            0 <= i < pagination.window(items).len() ==> #[trigger] pagination.window(items)[i]
                == items[pagination.start + i],
{
}

/// One window of a list, and the length of the whole list.
#[derive(Debug)]
pub struct PaginatedResponse<T> {
    pub entries: Vec<T>,
    pub total: u64,
}

} // verus!
