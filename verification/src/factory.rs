//! The factory: it keeps the template from which auctions are made, asks the
//! ledger to instantiate them, and lists them with their addresses.

use vstd::prelude::*;
use crate::chain::{Message, Reply, ReplyOn, Response, ResponseView, SubMsg};
use crate::codec::{decode_address, format_label};
use crate::error::Error;
use crate::registry::{AuctionEntryView, ContractLinkView, Registry, TemplateView};
use crate::shared::{opt_view, views, InstantiateMsg, PaginatedResponse, Pagination, SaleInfo};

verus! {

/// The code that a contract is instantiated from: where it is stored, and
/// the hash it must have.
#[derive(Debug)]
pub struct ContractInstantiationInfo {
    pub id: u64,
    pub code_hash: String,
}

impl View for ContractInstantiationInfo {
    type V = TemplateView;

    open spec fn view(&self) -> TemplateView {
        TemplateView { id: self.id, code_hash: self.code_hash@ }
    }
}

/// Where a contract lives and which code it runs. An empty address stands
/// for one that is not known yet.
#[derive(Debug)]
pub struct ContractLink {
    pub address: String,
    pub code_hash: String,
}

impl View for ContractLink {
    type V = ContractLinkView;

    open spec fn view(&self) -> ContractLinkView {
        ContractLinkView { address: self.address@, code_hash: self.code_hash@ }
    }
}

/// One auction that the factory has made, or is making.
#[derive(Debug)]
pub struct AuctionEntry {
    pub contract: ContractLink,
    pub info: SaleInfo,
}

impl View for AuctionEntry {
    type V = AuctionEntryView;

    open spec fn view(&self) -> AuctionEntryView {
        AuctionEntryView { contract: self.contract@, info: self.info@ }
    }
}

impl Clone for AuctionEntry {
    fn clone(&self) -> (copy: Self)
        ensures
            copy@ == self@,
    {
        AuctionEntry {
            contract: ContractLink {
                address: self.contract.address.clone(),
                code_hash: self.contract.code_hash.clone(),
            },
            info: self.info.clone(),
        }
    }
}

/// The state of a factory: its template and the auctions in the order in
/// which they were asked for.
#[derive(Debug)]
pub struct Contract {
    pub auction: ContractInstantiationInfo,
    pub auctions: Vec<AuctionEntry>,
}

impl View for Contract {
    type V = Registry;

    open spec fn view(&self) -> Registry {
        Registry { template: self.auction@, auctions: views(self.auctions@) }
    }
}

impl Contract {
    /// The tag under which completions are expected.
    pub const REPLY_ID: u64 = 0;

    /// A factory that makes auctions from the given template and has made
    /// none yet.
    pub fn new(auction: ContractInstantiationInfo) -> (made: (Contract, Response))
        ensures
            made.0@ == (Registry { template: auction@, auctions: Seq::empty() }),
            made.1@ == ResponseView::empty(),
    {
        let contract = Contract { auction, auctions: Vec::new() };
        assert(views(contract.auctions@) =~= Seq::empty());
        (contract, Response::new())
    }

    /// Begin the creation of an auction at block `height`. It always
    /// succeeds: the list has a new last entry with an open address, and
    /// the response holds the one request to instantiate the auction.
    pub fn create_auction(
        &mut self,
        admin: Option<String>,
        name: String,
        end_block: u64,
        height: u64,
    ) -> (r: Result<Response, Error>)
        ensures
            r matches Ok(sent) && {
                &&& sent@ == old(self)@.create_auction(opt_view(admin), name@, end_block, height).1
                &&& final(self)@ == old(self)@.create_auction(
                    opt_view(admin),
                    name@,
                    end_block,
                    height,
                ).0
            },
    {
        let ending: u128 = height as u128 + end_block as u128;
        let label = format_label(&name, height, ending);
        let entry = AuctionEntry {
            contract: ContractLink {
                address: String::new(),
                code_hash: self.auction.code_hash.clone(),
            },
            info: SaleInfo { name: name.clone(), end_block },
        };
        let msg = SubMsg {
            id: Self::REPLY_ID,
            msg: Message::Instantiate {
                code_id: self.auction.id,
                code_hash: self.auction.code_hash.clone(),
                msg: InstantiateMsg { admin, name, end_block },
                label,
            },
            reply_on: ReplyOn::Success,
        };
        let ghost expected = old(self)@.create_auction(opt_view(admin), name@, end_block, height);
        self.auctions.push(entry);
        let mut messages: Vec<SubMsg> = Vec::new();
        messages.push(msg);
        let response = Response { messages, data: None };
        proof {
            assert(views(self.auctions@) =~= expected.0.auctions);
            assert(views(response.messages@) =~= expected.1.messages);
        }
        Ok(response)
    }

    /// Write `address` into the last entry of the list. Fails, changing
    /// nothing, when the list is empty.
    pub fn resolve(&mut self, address: String) -> (r: Result<Response, Error>)
        ensures
            match old(self)@.resolve(address@) {
                Ok(next) => {
                    &&& r matches Ok(sent)
                    &&& sent@ == ResponseView::empty()
                    &&& final(self)@ == next
                },
                Err(e) => r == Err::<Response, Error>(e) && *final(self) == *old(self),
            },
    {
        let count = self.auctions.len();
        if count == 0 {
            return Err(Error::NotFound);
        }
        let last = count - 1;
        let entry = AuctionEntry {
            contract: ContractLink {
                address,
                code_hash: self.auctions[last].contract.code_hash.clone(),
            },
            info: self.auctions[last].info.clone(),
        };
        self.auctions.set(last, entry);
        proof {
            assert(views(self.auctions@) =~= old(self)@.resolved(address@).auctions);
        }
        Ok(Response::new())
    }

    /// Take in the completion of an instantiation: under the expected tag,
    /// with a payload that holds an address, it fills in the last entry of
    /// the list. Any other completion fails and changes nothing.
    pub fn reply(&mut self, reply: Reply) -> (r: Result<Response, Error>)
        ensures
            match old(self)@.reply(reply.id, reply_result(reply)) {
                Ok(next) => {
                    &&& r matches Ok(sent)
                    &&& sent@ == ResponseView::empty()
                    &&& final(self)@ == next
                },
                Err(e) => r == Err::<Response, Error>(e) && *final(self) == *old(self),
            },
    {
        if reply.id != Self::REPLY_ID {
            return Err(Error::UnexpectedReplyId);
        }
        let data = match reply.result {
            Ok(Some(data)) => data,
            _ => {
                return Err(Error::MalformedReply);
            },
        };
        match decode_address(&data) {
            Ok(address) => self.resolve(address),
            Err(_) => Err(Error::MalformedReply),
        }
    }

    /// The entries that the window holds, in the order of the list, and the
    /// length of the whole list.
    pub fn list_auctions(&self, pagination: Pagination) -> (page: PaginatedResponse<AuctionEntry>)
        ensures
            views(page.entries@) == pagination.window(self@.auctions),
            page.total == self@.auctions.len(),
    {
        let (lower, upper) = pagination.bounds(self.auctions.len());
        let mut entries: Vec<AuctionEntry> = Vec::new();
        let mut i: usize = lower;
        while i < upper
            invariant
                lower <= i <= upper <= self.auctions.len(),
                entries@.len() == i - lower,
                views(entries@) == views(self.auctions@).subrange(lower as int, i as int),
            decreases upper - i,
        {
            let ghost before = entries@;
            entries.push(self.auctions[i].clone());
            i += 1;
            proof {
                let all = views(self.auctions@);
                assert forall|k: int| 0 <= k < entries@.len() implies views(entries@)[k]
                    == all.subrange(lower as int, i as int)[k] by {
                    if k < before.len() {
                        assert(views(before)[k] == all.subrange(lower as int, i - 1)[k]);
                    }
                }
                assert(views(entries@) =~= all.subrange(lower as int, i as int));
            }
        }
        PaginatedResponse { entries, total: self.auctions.len() as u64 }
    }
}

/// What a completion carries, as contracts speak of it.
pub open spec fn reply_result(reply: Reply) -> Result<Option<Seq<u8>>, Seq<char>> {
    match reply.result {
        Ok(data) => Ok(opt_view(data)),
        Err(reason) => Err(reason@),
    }
}

} // verus!
