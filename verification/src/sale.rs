//! One sale as contracts speak of it: who has bid how much, who leads, and
//! what each operation makes of that.
//!
//! The ledger keeps the bidders in the order of their first entry, each with
//! the balance recorded for them. A balance only grows while the sale is
//! open. Once the sale is closed a balance is paid out and set to zero; the
//! entry itself stays. Someone without an entry counts as having a balance
//! of zero, and gets an entry of zero when they ask for their bid back.

use vstd::prelude::*;
use crate::chain::{sale_denom, CoinView};
use crate::error::Error;
use crate::shared::SaleInfoView;

verus! {

/// What a call brings to the sale: all the attached coins of the sale's
/// denomination, taken together; zero where there is none.
pub open spec fn sale_funds(funds: Seq<CoinView>) -> nat
    decreases funds.len(),
{
    if funds.len() == 0 {
        0
    } else if funds.last().denom == sale_denom() {
        sale_funds(funds.drop_last()) + funds.last().amount as nat
    } else {
        sale_funds(funds.drop_last())
    }
}

/// The first coins of a call bring no more than all of them.
pub proof fn lemma_sale_funds_grow(funds: Seq<CoinView>, count: int)
    requires
        0 <= count <= funds.len(),
    ensures
        sale_funds(funds.take(count)) <= sale_funds(funds),
    decreases funds.len(),
{
    if count == funds.len() {
        assert(funds.take(count) =~= funds);
    } else {
        lemma_sale_funds_grow(funds.drop_last(), count);
        assert(funds.drop_last().take(count) =~= funds.take(count));
    }
}

/// The sum of the balances.
pub open spec fn sum(balances: Seq<u128>) -> nat
    decreases balances.len(),
{
    if balances.len() == 0 {
        0
    } else {
        sum(balances.drop_last()) + balances.last() as nat
    }
}

/// The state of one sale.
pub struct Sale {
    pub info: SaleInfoView,
    /// Who may claim the proceeds, if anyone.
    pub admin: Option<Seq<char>>,
    /// Who leads; nobody before the first bid.
    pub highest: Option<Seq<char>>,
    /// Everyone with an entry in the ledger, in the order of their first entry.
    pub bidders: Seq<Seq<char>>,
    /// The balance recorded for each of `bidders`, index for index.
    pub balances: Seq<u128>,
}

impl Sale {
    /// What holds of every sale: nobody has two entries, and the leader,
    /// once there is one, has an entry. Without a leader nothing is
    /// recorded for anyone: every entry there is holds zero.
    pub open spec fn wf(self) -> bool {
        &&& self.bidders.len() == self.balances.len()
        &&& self.bidders.no_duplicates()
        &&& match self.highest {
            Some(leader) => self.bidders.contains(leader),
            None => forall|i: int| 0 <= i < self.balances.len() ==> self.balances[i] == 0,
        }
    }

    /// A sale on which nobody has bid.
    pub open spec fn fresh(info: SaleInfoView, admin: Option<Seq<char>>) -> Sale {
        Sale { info, admin, highest: None, bidders: Seq::empty(), balances: Seq::empty() }
    }

    /// Whether bids are still taken at block `height`.
    pub open spec fn open_at(self, height: u64) -> bool {
        height <= self.info.end_block
    }

    /// The balance recorded for `who`; zero for someone without an entry.
    pub open spec fn balance_of(self, who: Seq<char>) -> u128 {
        if self.bidders.contains(who) {
            self.balances[self.bidders.index_of(who)]
        } else {
            0
        }
    }

    /// The leader's balance; zero before the first bid.
    pub open spec fn current_highest(self) -> u128 {
        match self.highest {
            Some(leader) => self.balance_of(leader),
            None => 0,
        }
    }

    /// Everything that the ledger records, taken together.
    pub open spec fn total(self) -> nat {
        sum(self.balances)
    }

    /// Whether nobody has more recorded than the leader.
    pub open spec fn leader_is_highest(self) -> bool {
        forall|i: int| 0 <= i < self.balances.len() ==> self.balances[i] <= self.current_highest()
    }

    /// The sale with `amount` recorded for `who`: in their entry where they
    /// have one, in a new last entry where they have none.
    pub open spec fn with_balance(self, who: Seq<char>, amount: u128) -> Sale {
        if self.bidders.contains(who) {
            Sale { balances: self.balances.update(self.bidders.index_of(who), amount), ..self }
        } else {
            Sale {
                bidders: self.bidders.push(who),
                balances: self.balances.push(amount),
                ..self
            }
        }
    }

    /// A bid of `amount` by `who` at block `height`.
    ///
    /// It is refused once the end block has passed, and where the bidder's
    /// balance would leave the range of `u128`. Otherwise the amount is added to what is
    /// recorded for the bidder. The first bidder leads whatever the amount.
    /// After that the bidder takes the lead only with strictly more than the
    /// leader has; a tie leaves the leader in place.
    pub open spec fn bid(self, height: u64, who: Seq<char>, amount: nat) -> Result<Sale, Error> {
        if !self.open_at(height) {
            Err(Error::SaleFinished)
        } else if self.balance_of(who) + amount > u128::MAX {
            Err(Error::Overflow)
        } else {
            let raised = (self.balance_of(who) + amount) as u128;
            let leader = match self.highest {
                Some(leader) => if leader != who && raised > self.balance_of(leader) {
                    who
                } else {
                    leader
                },
                None => who,
            };
            Ok(Sale { highest: Some(leader), ..self.with_balance(who, raised) })
        }
    }

    /// The request of `who` at block `height` to have their bid back. On
    /// success the second part of the result is the amount to refund.
    ///
    /// It is refused while the sale is open, and to the leader. Otherwise
    /// the caller's balance is set to zero and what was recorded is owed to
    /// them: nothing, for a caller who never bid.
    pub open spec fn retract_bid(self, height: u64, who: Seq<char>) -> Result<(Sale, u128), Error> {
        if self.open_at(height) {
            Err(Error::SaleNotFinished)
        } else if self.highest == Some(who) {
            Err(Error::WinnerCannotRetract)
        } else {
            Ok((self.with_balance(who, 0), self.balance_of(who)))
        }
    }

    /// The request of `who` at block `height` for the proceeds. On success
    /// the second part of the result is the amount to pay, where there is a
    /// leader whose bid is paid out.
    ///
    /// It is refused to anyone but the admin, and while the sale is open.
    /// Otherwise the leader's balance is set to zero and what was recorded
    /// is owed to the caller.
    pub open spec fn claim_proceeds(self, height: u64, who: Seq<char>) -> Result<
        (Sale, Option<u128>),
        Error,
    > {
        if self.admin != Some(who) {
            Err(Error::Unauthorized)
        } else if self.open_at(height) {
            Err(Error::SaleNotFinished)
        } else {
            match self.highest {
                None => Ok((self, None)),
                Some(leader) => Ok((self.with_balance(leader, 0), Some(self.balance_of(leader)))),
            }
        }
    }
}

/// In a ledger without doubles an entry is found where it stands.
pub proof fn lemma_entry_found(sale: Sale, i: int)
    requires
        sale.bidders.no_duplicates(),
        0 <= i < sale.bidders.len(),
    ensures
        sale.bidders.contains(sale.bidders[i]),
        sale.bidders.index_of(sale.bidders[i]) == i,
        sale.balance_of(sale.bidders[i]) == sale.balances[i],
{
    let who = sale.bidders[i];
    let found = sale.bidders.index_of(who);
    assert(0 <= found < sale.bidders.len() && sale.bidders[found] == who);
}

/// Adding an entry adds its balance to the sum.
pub proof fn lemma_sum_push(balances: Seq<u128>, amount: u128)
    ensures
        sum(balances.push(amount)) == sum(balances) + amount,
{
    assert(balances.push(amount).drop_last() =~= balances);
}

/// Changing one balance changes the sum by the difference.
pub proof fn lemma_sum_update(balances: Seq<u128>, i: int, amount: u128)
    requires
        0 <= i < balances.len(),
    ensures
        sum(balances.update(i, amount)) + balances[i] == sum(balances) + amount,
    decreases balances.len(),
{
    let changed = balances.update(i, amount);
    if i == balances.len() - 1 {
        assert(changed.drop_last() =~= balances.drop_last());
    } else {
        assert(changed.drop_last() =~= balances.drop_last().update(i, amount));
        lemma_sum_update(balances.drop_last(), i, amount);
    }
}

/// What recording a balance does: the one entry holds the new balance, every
/// other entry holds what it held, nobody loses their place, and the sum
/// moves by the difference.
pub proof fn lemma_with_balance(sale: Sale, who: Seq<char>, amount: u128)
    requires
        sale.bidders.len() == sale.balances.len(),
        sale.bidders.no_duplicates(),
    ensures
        ({
            let next = sale.with_balance(who, amount);
            &&& next.bidders.len() == next.balances.len()
            &&& next.bidders.no_duplicates()
            &&& next.bidders.contains(who)
            &&& next.balance_of(who) == amount
            &&& forall|other: Seq<char>|
                other != who ==> #[trigger] next.balance_of(other) == sale.balance_of(other)
            &&& forall|other: Seq<char>|
                sale.bidders.contains(other) ==> #[trigger] next.bidders.contains(other)
            &&& forall|i: int|
                0 <= i < sale.bidders.len() ==> #[trigger] next.bidders[i] == sale.bidders[i]
            &&& next.total() + sale.balance_of(who) == sale.total() + amount
            &&& next.info == sale.info
            &&& next.admin == sale.admin
            &&& next.highest == sale.highest
        }),
{
    let next = sale.with_balance(who, amount);
    if sale.bidders.contains(who) {
        let at = sale.bidders.index_of(who);
        lemma_sum_update(sale.balances, at, amount);
        assert(next.bidders[at] == who);
        assert forall|other: Seq<char>| other != who implies #[trigger] next.balance_of(other)
            == sale.balance_of(other) by {
            if sale.bidders.contains(other) {
                let j = sale.bidders.index_of(other);
                assert(next.bidders[j] == other);
            }
        }
    } else {
        let at = sale.bidders.len() as int;
        lemma_sum_push(sale.balances, amount);
        assert(next.bidders[at] == who);
        assert forall|i: int, j: int|
            0 <= i < next.bidders.len() && 0 <= j < next.bidders.len() && i != j implies next.bidders[i]
            != next.bidders[j] by {
            if i == at {
                assert(sale.bidders[j] == next.bidders[j]);
            } else if j == at {
                assert(sale.bidders[i] == next.bidders[i]);
            }
        }
        assert(next.bidders.index_of(who) == at);
        assert forall|other: Seq<char>| other != who implies #[trigger] next.balance_of(other)
            == sale.balance_of(other) by {
            if sale.bidders.contains(other) {
                let j = sale.bidders.index_of(other);
                assert(next.bidders[j] == other);
                let k = next.bidders.index_of(other);
                assert(next.bidders[k] == other);
                assert(k == j);
            } else if next.bidders.contains(other) {
                let k = next.bidders.index_of(other);
                assert(next.bidders[k] == other);
                assert(k < at);
                assert(sale.bidders[k] == other);
            }
        }
        assert forall|other: Seq<char>| sale.bidders.contains(other) implies #[trigger] next.bidders.contains(
            other,
        ) by {
            let j = sale.bidders.index_of(other);
            assert(next.bidders[j] == other);
        }
    }
}

/// Every operation that succeeds leaves a sale that is well formed.
pub proof fn lemma_operations_keep_wf(sale: Sale, height: u64, who: Seq<char>, amount: nat)
    requires
        sale.wf(),
    ensures
        sale.bid(height, who, amount) matches Ok(next) ==> next.wf(),
        sale.retract_bid(height, who) matches Ok(done) ==> done.0.wf(),
        sale.claim_proceeds(height, who) matches Ok(done) ==> done.0.wf(),
{
    if sale.bid(height, who, amount) is Ok {
        lemma_with_balance(sale, who, (sale.balance_of(who) + amount) as u128);
    }
    if sale.retract_bid(height, who) is Ok {
        lemma_with_balance(sale, who, 0);
    }
    if sale.claim_proceeds(height, who) is Ok && sale.highest is Some {
        lemma_with_balance(sale, sale.highest->Some_0, 0);
    }
}

/// The phases gate the operations: once the end block has passed no bid is
/// taken, and up to and including the end block nothing is settled.
pub proof fn lemma_phase_gating(sale: Sale, height: u64, who: Seq<char>, amount: nat)
    ensures
        height > sale.info.end_block ==> sale.bid(height, who, amount) == Err::<Sale, Error>(
            Error::SaleFinished,
        ),
        height <= sale.info.end_block ==> sale.retract_bid(height, who) == Err::<
            (Sale, u128),
            Error,
        >(Error::SaleNotFinished),
        height <= sale.info.end_block ==> sale.claim_proceeds(height, who) is Err,
        height <= sale.info.end_block && sale.admin == Some(who) ==> sale.claim_proceeds(
            height,
            who,
        ) == Err::<(Sale, Option<u128>), Error>(Error::SaleNotFinished),
{
}

/// The leader cannot have the bid back, and is told so by a failure that
/// is not the one for a sale in the wrong phase.
pub proof fn lemma_winner_cannot_retract(sale: Sale, height: u64, who: Seq<char>)
    requires
        sale.highest == Some(who),
        height > sale.info.end_block,
    ensures
        sale.retract_bid(height, who) == Err::<(Sale, u128), Error>(Error::WinnerCannotRetract),
        !Error::WinnerCannotRetract.phase_violation(),
{
}

/// A retraction is refused in two cases only: while the sale is open, and
/// to the leader. Anyone else is owed success and is refunded what was
/// recorded for them; for a caller without an entry, and on a sale on
/// which nobody has bid, that is nothing.
pub proof fn lemma_retract_is_owed(sale: Sale, height: u64, who: Seq<char>)
    requires
        sale.wf(),
        height > sale.info.end_block,
        sale.highest != Some(who),
    ensures
        sale.retract_bid(height, who) matches Ok(done) && done.1 == sale.balance_of(who),
        !sale.bidders.contains(who) || sale.highest is None ==> sale.retract_bid(
            height,
            who,
        )->Ok_0.1 == 0,
{
}

/// What is sold, until when, and who the admin is never changes.
pub proof fn lemma_terms_are_fixed(sale: Sale, height: u64, who: Seq<char>, amount: nat)
    ensures
        sale.bid(height, who, amount) matches Ok(next) ==> next.info == sale.info && next.admin
            == sale.admin,
        sale.retract_bid(height, who) matches Ok(done) ==> done.0.info == sale.info
            && done.0.admin == sale.admin && done.0.highest == sale.highest,
        sale.claim_proceeds(height, who) matches Ok(done) ==> done.0.info == sale.info
            && done.0.admin == sale.admin && done.0.highest == sale.highest,
{
}

/// The ledger never forgets, and a bid never lowers it: after a bid every
/// entry stands where it stood and holds at least what it held.
pub proof fn lemma_bid_never_lowers(sale: Sale, height: u64, who: Seq<char>, amount: nat)
    requires
        sale.wf(),
        sale.bid(height, who, amount) is Ok,
    ensures
        ({
            let next = sale.bid(height, who, amount)->Ok_0;
            &&& next.bidders.len() >= sale.bidders.len()
            &&& forall|i: int|
                0 <= i < sale.bidders.len() ==> #[trigger] next.bidders[i] == sale.bidders[i]
                    && next.balances[i] >= sale.balances[i]
        }),
{
}

/// A settlement leaves every entry where it stood, holding what it held or
/// nothing.
pub proof fn lemma_settlement_keeps_entries(sale: Sale, height: u64, who: Seq<char>)
    requires
        sale.wf(),
    ensures
        sale.retract_bid(height, who) matches Ok(done) ==> forall|i: int|
            0 <= i < sale.bidders.len() ==> #[trigger] done.0.bidders[i] == sale.bidders[i] && (
            done.0.balances[i] == sale.balances[i] || done.0.balances[i] == 0),
        sale.claim_proceeds(height, who) matches Ok(done) ==> forall|i: int|
            0 <= i < sale.bidders.len() ==> #[trigger] done.0.bidders[i] == sale.bidders[i] && (
            done.0.balances[i] == sale.balances[i] || done.0.balances[i] == 0),
{
}

/// The first bid on a sale is accepted while the sale is open, and makes
/// its bidder the leader, whatever the amount, zero included.
pub proof fn lemma_first_bid_leads(sale: Sale, height: u64, who: Seq<char>, amount: u128)
    requires
        sale.wf(),
        sale.highest is None,
        sale.open_at(height),
    ensures
        sale.bid(height, who, amount as nat) matches Ok(next) && next.highest == Some(who)
            && next.balance_of(who) == amount && next.current_highest() == amount,
{
    assert(sale.balance_of(who) == 0);
    lemma_with_balance(sale, who, amount);
}

/// A bid keeps the leader ahead: where nobody had more recorded than the
/// leader before the bid, nobody has after it.
pub proof fn lemma_bid_keeps_leader_highest(sale: Sale, height: u64, who: Seq<char>, amount: nat)
    requires
        sale.wf(),
        sale.leader_is_highest(),
        sale.bid(height, who, amount) is Ok,
    ensures
        sale.bid(height, who, amount)->Ok_0.wf(),
        sale.bid(height, who, amount)->Ok_0.leader_is_highest(),
{
    let raised = (sale.balance_of(who) + amount) as u128;
    let next = sale.bid(height, who, amount)->Ok_0;
    let credited = sale.with_balance(who, raised);
    lemma_with_balance(sale, who, raised);
    assert(next.bidders == credited.bidders && next.balances == credited.balances);
    let leader = next.highest->Some_0;
    assert(next.balance_of(leader) == credited.balance_of(leader));
    assert forall|i: int| 0 <= i < next.balances.len() implies next.balances[i]
        <= next.current_highest() by {
        lemma_entry_found(credited, i);
        let other = credited.bidders[i];
        if other != who {
            assert(credited.balance_of(other) == sale.balance_of(other));
            assert(i < sale.bidders.len()) by {
                if i >= sale.bidders.len() {
                    assert(!sale.bidders.contains(who));
                    assert(credited.bidders[i] == who);
                }
            }
            assert(sale.bidders[i] == other);
            lemma_entry_found(sale, i);
            assert(sale.balances[i] <= sale.current_highest());
        }
    }
}

/// A bid that does not bring its bidder strictly above the leader leaves
/// the leader in place: a tie does not displace.
pub proof fn lemma_tie_keeps_leader(sale: Sale, height: u64, who: Seq<char>, amount: nat)
    requires
        sale.wf(),
        sale.highest is Some,
        sale.bid(height, who, amount) is Ok,
        sale.balance_of(who) + amount <= sale.balance_of(sale.highest->Some_0),
    ensures
        sale.bid(height, who, amount)->Ok_0.highest == sale.highest,
{
}

/// One bid in a run of bids.
pub struct BidEvent {
    pub height: u64,
    pub who: Seq<char>,
    pub funds: Seq<CoinView>,
}

impl Sale {
    /// The sale after a run of bids, each taken or refused on its own.
    pub open spec fn after_bids(self, bids: Seq<BidEvent>) -> Sale
        decreases bids.len(),
    {
        if bids.len() == 0 {
            self
        } else {
            let before = self.after_bids(bids.drop_last());
            let last = bids.last();
            match before.bid(last.height, last.who, sale_funds(last.funds)) {
                Ok(next) => next,
                Err(_) => before,
            }
        }
    }
}

/// After any run of bids on a new sale, nobody has more recorded than the
/// leader.
pub proof fn lemma_leader_is_highest_after_bids(
    info: SaleInfoView,
    admin: Option<Seq<char>>,
    bids: Seq<BidEvent>,
)
    ensures
        Sale::fresh(info, admin).after_bids(bids).wf(),
        Sale::fresh(info, admin).after_bids(bids).leader_is_highest(),
    decreases bids.len(),
{
    let fresh = Sale::fresh(info, admin);
    if bids.len() > 0 {
        lemma_leader_is_highest_after_bids(info, admin, bids.drop_last());
        let before = fresh.after_bids(bids.drop_last());
        let last = bids.last();
        if before.bid(last.height, last.who, sale_funds(last.funds)) is Ok {
            lemma_bid_keeps_leader_highest(before, last.height, last.who, sale_funds(last.funds));
        }
    }
}

/// Asking twice for a bid back pays once: after a retraction that went
/// through, another one by the same bidder changes nothing and refunds
/// nothing.
pub proof fn lemma_retract_twice(sale: Sale, first: u64, second: u64, who: Seq<char>)
    requires
        sale.wf(),
        sale.retract_bid(first, who) is Ok,
        !sale.open_at(second),
    ensures
        ({
            let next = sale.retract_bid(first, who)->Ok_0.0;
            next.retract_bid(second, who) == Ok::<(Sale, u128), Error>((next, 0u128))
        }),
{
    let next = sale.retract_bid(first, who)->Ok_0.0;
    lemma_with_balance(sale, who, 0);
    assert(next.with_balance(who, 0).balances =~= next.balances);
}

/// Claiming the proceeds twice pays once: after a claim that went through,
/// another one changes nothing and pays nothing (a payment of zero where
/// there is a leader).
pub proof fn lemma_claim_twice(sale: Sale, first: u64, second: u64, who: Seq<char>)
    requires
        sale.wf(),
        sale.claim_proceeds(first, who) is Ok,
        !sale.open_at(second),
    ensures
        ({
            let next = sale.claim_proceeds(first, who)->Ok_0.0;
            next.claim_proceeds(second, who) == Ok::<(Sale, Option<u128>), Error>(
                (
                    next,
                    match sale.highest {
                        Some(_) => Some(0u128),
                        None => None,
                    },
                ),
            )
        }),
{
    let next = sale.claim_proceeds(first, who)->Ok_0.0;
    if sale.highest is Some {
        let leader = sale.highest->Some_0;
        lemma_with_balance(sale, leader, 0);
        assert(next.with_balance(leader, 0).balances =~= next.balances);
    }
}

/// What can happen to a sale.
pub enum Event {
    Bid { height: u64, who: Seq<char>, funds: Seq<CoinView> },
    RetractBid { height: u64, who: Seq<char> },
    ClaimProceeds { height: u64, who: Seq<char> },
}

/// A sale together with the funds of its denomination that the contract
/// holds for it.
pub struct Escrow {
    pub sale: Sale,
    pub held: int,
}

impl Escrow {
    /// The sale and the funds after one event. What is attached to a bid
    /// that is taken comes in; what a settlement sends goes out; an event
    /// that is refused changes nothing.
    pub open spec fn step(self, event: Event) -> Escrow {
        match event {
            Event::Bid { height, who, funds } => match self.sale.bid(
                height,
                who,
                sale_funds(funds),
            ) {
                Ok(next) => Escrow { sale: next, held: self.held + sale_funds(funds) },
                Err(_) => self,
            },
            Event::RetractBid { height, who } => match self.sale.retract_bid(height, who) {
                Ok((next, refund)) => Escrow { sale: next, held: self.held - refund },
                Err(_) => self,
            },
            Event::ClaimProceeds { height, who } => match self.sale.claim_proceeds(height, who) {
                Ok((next, Some(paid))) => Escrow { sale: next, held: self.held - paid },
                Ok((next, None)) => Escrow { sale: next, held: self.held },
                Err(_) => self,
            },
        }
    }

    /// The sale and the funds after a run of events.
    pub open spec fn run(self, events: Seq<Event>) -> Escrow
        decreases events.len(),
    {
        if events.len() == 0 {
            self
        } else {
            self.run(events.drop_last()).step(events.last())
        }
    }

    /// Whether the ledger accounts for exactly what is held.
    pub open spec fn balanced(self) -> bool {
        self.sale.wf() && self.held == self.sale.total()
    }
}

/// No event breaks the books: a bid adds to the ledger what it brings, and
/// a settlement takes from the ledger what it sends.
pub proof fn lemma_step_keeps_balance(escrow: Escrow, event: Event)
    requires
        escrow.balanced(),
    ensures
        escrow.step(event).balanced(),
{
    let sale = escrow.sale;
    match event {
        Event::Bid { height, who, funds } => {
            lemma_operations_keep_wf(sale, height, who, sale_funds(funds));
            if sale.bid(height, who, sale_funds(funds)) is Ok {
                lemma_with_balance(sale, who, (sale.balance_of(who) + sale_funds(funds)) as u128);
            }
        },
        Event::RetractBid { height, who } => {
            lemma_operations_keep_wf(sale, height, who, 0);
            lemma_with_balance(sale, who, 0);
        },
        Event::ClaimProceeds { height, who } => {
            lemma_operations_keep_wf(sale, height, who, 0);
            if sale.highest is Some {
                lemma_with_balance(sale, sale.highest->Some_0, 0);
            }
        },
    }
}

/// The funds that the contract holds for a sale are, at every point, the
/// sum of what its ledger records: from the first bid on, through every
/// retraction and claim.
pub proof fn lemma_funds_are_conserved(
    info: SaleInfoView,
    admin: Option<Seq<char>>,
    events: Seq<Event>,
)
    ensures
        (Escrow { sale: Sale::fresh(info, admin), held: 0 }).run(events).balanced(),
    decreases events.len(),
{
    let start = Escrow { sale: Sale::fresh(info, admin), held: 0 };
    if events.len() > 0 {
        lemma_funds_are_conserved(info, admin, events.drop_last());
        assert(events[events.len() - 1] == events.last());
        lemma_step_keeps_balance(start.run(events.drop_last()), events.last());
    }
}

} // verus!
