//! The plain values that pass between a contract and the ledger it runs on:
//! the funds that come with a call, the messages that a call leaves behind,
//! and the completion of a deferred instantiation.

use vstd::prelude::*;
use vstd::string::StringExecFns;
use crate::shared::{opt_view, views, InstantiateMsg, InstantiateMsgView};

verus! {

/// The denomination in which bids are made and paid out.
pub open spec fn sale_denom() -> Seq<char> {
    "uscrt"@
}

/// An amount of one denomination.
#[derive(Debug)]
pub struct Coin {
    pub denom: String,
    pub amount: u128,
}

/// A `Coin` as contracts speak of it.
pub struct CoinView {
    pub denom: Seq<char>,
    pub amount: u128,
}

impl View for Coin {
    type V = CoinView;

    open spec fn view(&self) -> CoinView {
        CoinView { denom: self.denom@, amount: self.amount }
    }
}

/// The name of the sale's denomination.
pub fn sale_denomination() -> (denom: String)
    ensures
        denom@ == sale_denom(),
{
    String::from_str("uscrt")
}

/// An amount of the sale's denomination.
pub fn sale_coin(amount: u128) -> (coin: Coin)
    ensures
        coin@ == (CoinView { denom: sale_denom(), amount }),
{
    Coin { denom: sale_denomination(), amount }
}

/// When the sender of a message wants to hear how it went.
#[derive(Debug, Clone, Copy, PartialEq, Eq, Structural)]
pub enum ReplyOn {
    Always,
    Error,
    Success,
    Never,
}

/// What a contract asks the ledger to do once the call has succeeded.
#[derive(Debug)]
pub enum Message {
    /// Move funds out of the contract.
    Send { to_address: String, amount: Coin },
    /// Create a contract from a stored template.
    Instantiate { code_id: u64, code_hash: String, msg: InstantiateMsg, label: String },
}

/// A `Message` as contracts speak of it.
pub enum MessageView {
    Send { to_address: Seq<char>, amount: CoinView },
    Instantiate { code_id: u64, code_hash: Seq<char>, msg: InstantiateMsgView, label: Seq<char> },
}

impl View for Message {
    type V = MessageView;

    open spec fn view(&self) -> MessageView {
        match self {
            Message::Send { to_address, amount } => MessageView::Send {
                to_address: to_address@,
                amount: amount@,
            },
            Message::Instantiate { code_id, code_hash, msg, label } => MessageView::Instantiate {
                code_id: *code_id,
                code_hash: code_hash@,
                msg: msg@,
                label: label@,
            },
        }
    }
}

/// A message, the tag under which its completion comes back, and whether it
/// comes back at all.
#[derive(Debug)]
pub struct SubMsg {
    pub id: u64,
    pub msg: Message,
    pub reply_on: ReplyOn,
}

/// A `SubMsg` as contracts speak of it.
pub struct SubMsgView {
    pub id: u64,
    pub msg: MessageView,
    pub reply_on: ReplyOn,
}

impl View for SubMsg {
    type V = SubMsgView;

    open spec fn view(&self) -> SubMsgView {
        SubMsgView { id: self.id, msg: self.msg@, reply_on: self.reply_on }
    }
}

/// What a successful call leaves behind: messages to send, in order, and
/// data for whoever made the call.
#[derive(Debug)]
pub struct Response {
    pub messages: Vec<SubMsg>,
    pub data: Option<Vec<u8>>,
}

/// A `Response` as contracts speak of it.
pub struct ResponseView {
    pub messages: Seq<SubMsgView>,
    pub data: Option<Seq<u8>>,
}

impl ResponseView {
    /// Nothing to send and nothing to tell.
    pub open spec fn empty() -> ResponseView {
        ResponseView { messages: Seq::empty(), data: None }
    }

    /// The one payment of `amount` of the sale's denomination to `to`, about
    /// which nothing is to be reported back.
    pub open spec fn payment(to: Seq<char>, amount: u128) -> ResponseView {
        ResponseView {
            messages: seq![
                SubMsgView {
                    id: 0,
                    msg: MessageView::Send {
                        to_address: to,
                        amount: CoinView { denom: sale_denom(), amount },
                    },
                    reply_on: ReplyOn::Never,
                },
            ],
            data: None,
        }
    }
}

impl View for Response {
    type V = ResponseView;

    open spec fn view(&self) -> ResponseView {
        ResponseView { messages: views(self.messages@), data: opt_view(self.data) }
    }
}

impl Response {
    pub fn new() -> (response: Response)
        ensures
            response@ == ResponseView::empty(),
    {
        let response = Response { messages: Vec::new(), data: None };
        assert(views(response.messages@) =~= Seq::empty());
        response
    }

    /// The response that pays `amount` of the sale's denomination to `to`.
    pub fn pay(to: &String, amount: u128) -> (response: Response)
        ensures
            response@ == ResponseView::payment(to@, amount),
    {
        let mut messages: Vec<SubMsg> = Vec::new();
        messages.push(
            SubMsg {
                id: 0,
                msg: Message::Send { to_address: to.clone(), amount: sale_coin(amount) },
                reply_on: ReplyOn::Never,
            },
        );
        let response = Response { messages, data: None };
        assert(views(response.messages@) =~= ResponseView::payment(to@, amount).messages);
        response
    }
}

/// How a deferred message ended, handed back under the message's tag. A
/// success may carry data; a failure carries its reason.
#[derive(Debug)]
pub struct Reply {
    pub id: u64,
    pub result: Result<Option<Vec<u8>>, String>,
}

} // verus!
