//! The factory as contracts speak of it: the template from which auctions
//! are made, and the list of the auctions made so far.
//!
//! A new auction's address is not known when its entry is written. The entry
//! is appended with a placeholder, and the completion of the instantiation
//! fills in the last entry. The two belong together because nothing else
//! touches the list between them.

use vstd::prelude::*;
use crate::chain::{MessageView, ReplyOn, ResponseView, SubMsgView};
use crate::codec::{address_in_payload, label_text};
use crate::error::Error;
use crate::shared::{InstantiateMsgView, SaleInfoView};

verus! {

/// The code that auctions are made from.
pub struct TemplateView {
    pub id: u64,
    pub code_hash: Seq<char>,
}

/// Where a contract lives and which code it runs.
pub struct ContractLinkView {
    pub address: Seq<char>,
    pub code_hash: Seq<char>,
}

/// One auction in the list.
pub struct AuctionEntryView {
    pub contract: ContractLinkView,
    pub info: SaleInfoView,
}

/// One creation that ran to its end: what was asked for, and the address
/// that the instantiation reported.
pub struct Round {
    pub info: SaleInfoView,
    pub address: Seq<char>,
}

/// The tag under which the factory expects completions.
pub open spec fn reply_id() -> u64 {
    0
}

/// The address that an entry holds until its auction has reported in.
pub open spec fn placeholder() -> Seq<char> {
    Seq::empty()
}

/// The state of a factory.
pub struct Registry {
    pub template: TemplateView,
    pub auctions: Seq<AuctionEntryView>,
}

impl Registry {
    /// The list with one more entry, whose address is still open.
    pub open spec fn appended(self, info: SaleInfoView) -> Registry {
        Registry {
            auctions: self.auctions.push(
                AuctionEntryView {
                    contract: ContractLinkView {
                        address: placeholder(),
                        code_hash: self.template.code_hash,
                    },
                    info,
                },
            ),
            ..self
        }
    }

    /// The list with `address` written into its last entry.
    pub open spec fn resolved(self, address: Seq<char>) -> Registry
        recommends
            self.auctions.len() > 0,
    {
        let last = self.auctions.len() - 1;
        Registry {
            auctions: self.auctions.update(
                last,
                AuctionEntryView {
                    contract: ContractLinkView { address, ..self.auctions[last].contract },
                    ..self.auctions[last]
                },
            ),
            ..self
        }
    }

    /// The request to instantiate an auction from the template, to be
    /// answered under `reply_id()` and only if it succeeds. The auction is
    /// told the end block as it was given. The label shows the name, the
    /// block at which the request is made, and the sum of that block and
    /// the end block; the sum is shown in full, also where it is past the
    /// last block height that a `u64` holds.
    pub open spec fn instantiation(
        self,
        admin: Option<Seq<char>>,
        name: Seq<char>,
        end_block: u64,
        height: u64,
    ) -> SubMsgView {
        SubMsgView {
            id: reply_id(),
            msg: MessageView::Instantiate {
                code_id: self.template.id,
                code_hash: self.template.code_hash,
                msg: InstantiateMsgView { admin, name, end_block },
                label: label_text(name, height as nat, (height + end_block) as nat),
            },
            reply_on: ReplyOn::Success,
        }
    }

    /// Begin the creation of an auction at block `height`: append its entry
    /// and ask for the one instantiation. No creation is refused.
    pub open spec fn create_auction(
        self,
        admin: Option<Seq<char>>,
        name: Seq<char>,
        end_block: u64,
        height: u64,
    ) -> (Registry, ResponseView) {
        (
            self.appended(SaleInfoView { name, end_block }),
            ResponseView {
                messages: seq![self.instantiation(admin, name, end_block, height)],
                data: None,
            },
        )
    }

    /// Write a reported address into the entry that waits for it.
    pub open spec fn resolve(self, address: Seq<char>) -> Result<Registry, Error> {
        if self.auctions.len() == 0 {
            Err(Error::NotFound)
        } else {
            Ok(self.resolved(address))
        }
    }

    /// Take in the completion of an instantiation.
    pub open spec fn reply(self, id: u64, result: Result<Option<Seq<u8>>, Seq<char>>) -> Result<
        Registry,
        Error,
    > {
        if id != reply_id() {
            Err(Error::UnexpectedReplyId)
        } else {
            match result {
                Ok(Some(data)) => match address_in_payload(data) {
                    Some(address) => self.resolve(address),
                    None => Err(Error::MalformedReply),
                },
                _ => Err(Error::MalformedReply),
            }
        }
    }

    /// The list after one creation that ran to its end.
    pub open spec fn completed(self, round: Round) -> Registry {
        self.appended(round.info).resolved(round.address)
    }

    /// The list after creations that each ran to its end before the next
    /// began.
    pub open spec fn after_rounds(self, rounds: Seq<Round>) -> Registry
        decreases rounds.len(),
    {
        if rounds.len() == 0 {
            self
        } else {
            self.after_rounds(rounds.drop_last()).completed(rounds.last())
        }
    }
}

/// A creation that runs to its end adds exactly one entry, which holds what
/// was asked for and the address that was reported, and leaves the entries
/// before it alone.
pub proof fn lemma_completed_round(registry: Registry, round: Round)
    ensures
        registry.completed(round).template == registry.template,
        registry.completed(round).auctions == registry.auctions.push(
            AuctionEntryView {
                contract: ContractLinkView {
                    address: round.address,
                    code_hash: registry.template.code_hash,
                },
                info: round.info,
            },
        ),
{
    let appended = registry.appended(round.info);
    assert(appended.auctions.len() == registry.auctions.len() + 1);
    assert(registry.completed(round).auctions =~= registry.auctions.push(
        AuctionEntryView {
            contract: ContractLinkView {
                address: round.address,
                code_hash: registry.template.code_hash,
            },
            info: round.info,
        },
    ));
}

/// The template never changes, and no entry is ever dropped or reordered: a
/// creation leaves the entries that were there as they were, and a
/// completion touches nothing but the address of the last one. A creation
/// passes on what was asked for as it was given, to the new entry and to
/// the auction, whatever the end block.
pub proof fn lemma_entries_stay(
    registry: Registry,
    admin: Option<Seq<char>>,
    name: Seq<char>,
    end_block: u64,
    height: u64,
    id: u64,
    result: Result<Option<Seq<u8>>, Seq<char>>,
)
    ensures
        ({
            let done = registry.create_auction(admin, name, end_block, height);
            &&& done.0.template == registry.template
            &&& done.0.auctions.len() == registry.auctions.len() + 1
            &&& forall|i: int|
                0 <= i < registry.auctions.len() ==> #[trigger] done.0.auctions[i]
                    == registry.auctions[i]
            &&& done.0.auctions.last().info == (SaleInfoView { name, end_block })
            &&& done.0.auctions.last().contract.address == placeholder()
            &&& done.1.messages.len() == 1
            &&& done.1.messages[0].msg matches MessageView::Instantiate { msg, .. } && msg
                == (InstantiateMsgView { admin, name, end_block })
        }),
        registry.reply(id, result) matches Ok(next) ==> {
            &&& next.template == registry.template
            &&& next.auctions.len() == registry.auctions.len()
            &&& forall|i: int|
                0 <= i < registry.auctions.len() - 1 ==> #[trigger] next.auctions[i]
                    == registry.auctions[i]
            &&& next.auctions.last().info == registry.auctions.last().info
            &&& next.auctions.last().contract.code_hash
                == registry.auctions.last().contract.code_hash
        },
{
}

/// A creation followed by its completion is a creation that ran to its
/// end: the completion, under the expected tag and with a payload that
/// holds an address, resolves the entry that the creation appended.
pub proof fn lemma_create_then_reply(
    registry: Registry,
    admin: Option<Seq<char>>,
    name: Seq<char>,
    end_block: u64,
    height: u64,
    data: Seq<u8>,
)
    requires
        address_in_payload(data) is Some,
    ensures
        registry.create_auction(admin, name, end_block, height).0.reply(
            reply_id(),
            Ok(Some(data)),
        ) == Ok::<Registry, Error>(
            registry.completed(
                Round {
                    info: SaleInfoView { name, end_block },
                    address: address_in_payload(data)->Some_0,
                },
            ),
        ),
{
}

/// After any number of creations that each ran to its end before the next
/// began, the list holds one entry for each, in the order in which they
/// were asked for, each with the address that its own instantiation
/// reported; the entries that were there before are unchanged.
pub proof fn lemma_rounds_correlate(registry: Registry, rounds: Seq<Round>)
    ensures
        registry.after_rounds(rounds).template == registry.template,
        registry.after_rounds(rounds).auctions.len() == registry.auctions.len() + rounds.len(),
        forall|i: int|
            0 <= i < registry.auctions.len() ==> #[trigger] registry.after_rounds(
                rounds,
            ).auctions[i] == registry.auctions[i],
        forall|i: int|
            0 <= i < rounds.len() ==> #[trigger] registry.after_rounds(
                rounds,
            ).auctions[registry.auctions.len() + i] == (AuctionEntryView {
                contract: ContractLinkView {
                    address: rounds[i].address,
                    code_hash: registry.template.code_hash,
                },
                info: rounds[i].info,
            }),
    decreases rounds.len(),
{
    if rounds.len() > 0 {
        let before = registry.after_rounds(rounds.drop_last());
        lemma_rounds_correlate(registry, rounds.drop_last());
        lemma_completed_round(before, rounds.last());
        let after = registry.after_rounds(rounds);
        assert forall|i: int| 0 <= i < rounds.len() implies #[trigger] after.auctions[registry.auctions.len()
            + i] == (AuctionEntryView {
            contract: ContractLinkView {
                address: rounds[i].address,
                code_hash: registry.template.code_hash,
            },
            info: rounds[i].info,
        }) by {
            if i < rounds.len() - 1 {
                assert(rounds.drop_last()[i] == rounds[i]);
                assert(after.auctions[registry.auctions.len() + i] == before.auctions[registry.auctions.len()
                    + i]);
            }
        }
    }
}

} // verus!
