//! The hub's answer to a call: the attributes it logs and the messages it
//! asks the host to send on its behalf.

use vstd::prelude::*;
use crate::msg::{Coin, CoinView};

verus! {

/// When the host calls the hub back with the result of a sub-message.
#[derive(Debug, Clone, Copy, PartialEq, Eq, Structural)]
pub enum ReplyOn {
    Always,
    Error,
    Success,
    Never,
}

/// The messages the hub sends to the ticket contract. The host writes them
/// in the ticket contract's JSON form.
#[derive(Debug, Clone, PartialEq, Eq)]
pub enum TicketNftMsg {
    /// Instantiates a ticket contract whose minter is `minter`.
    Instantiate { name: String, symbol: String, minter: String },
    /// Mints token `token_id` (ticket number `count`) for `owner`; its
    /// metadata is the ticket contract's metadata for `package_option`
    /// and `ticket_holder`.
    Mint {
        count: u32,
        token_id: String,
        owner: String,
        token_uri: Option<String>,
        package_option: u8,
        ticket_holder: String,
    },
    /// Burns token `token_id`.
    Burn { token_id: String },
}

pub enum TicketNftMsgView {
    Instantiate { name: Seq<char>, symbol: Seq<char>, minter: Seq<char> },
    Mint {
        count: u32,
        token_id: Seq<char>,
        owner: Seq<char>,
        token_uri: Option<Seq<char>>,
        package_option: u8,
        ticket_holder: Seq<char>,
    },
    Burn { token_id: Seq<char> },
}

pub open spec fn opt_text(o: Option<String>) -> Option<Seq<char>> {
    match o {
        Some(s) => Some(s@),
        None => None,
    }
}

impl View for TicketNftMsg {
    type V = TicketNftMsgView;

    open spec fn view(&self) -> TicketNftMsgView {
        match self {
            TicketNftMsg::Instantiate { name, symbol, minter } => TicketNftMsgView::Instantiate {
                name: name@,
                symbol: symbol@,
                minter: minter@,
            },
            TicketNftMsg::Mint { count, token_id, owner, token_uri, package_option, ticket_holder } =>
                TicketNftMsgView::Mint {
                count: *count,
                token_id: token_id@,
                owner: owner@,
                token_uri: opt_text(*token_uri),
                package_option: *package_option,
                ticket_holder: ticket_holder@,
            },
            TicketNftMsg::Burn { token_id } => TicketNftMsgView::Burn { token_id: token_id@ },
        }
    }
}

pub open spec fn coins_view(funds: Seq<Coin>) -> Seq<CoinView> {
    funds.map_values(|c: Coin| c@)
}

/// A message to another contract.
#[derive(Debug, Clone, PartialEq, Eq)]
pub enum CosmosMsg {
    WasmInstantiate {
        admin: Option<String>,
        code_id: u64,
        msg: TicketNftMsg,
        funds: Vec<Coin>,
        label: String,
    },
    WasmExecute { contract_addr: String, msg: TicketNftMsg, funds: Vec<Coin> },
}

pub enum CosmosMsgView {
    WasmInstantiate {
        admin: Option<Seq<char>>,
        code_id: u64,
        msg: TicketNftMsgView,
        funds: Seq<CoinView>,
        label: Seq<char>,
    },
    WasmExecute { contract_addr: Seq<char>, msg: TicketNftMsgView, funds: Seq<CoinView> },
}

impl View for CosmosMsg {
    type V = CosmosMsgView;

    open spec fn view(&self) -> CosmosMsgView {
        match self {
            CosmosMsg::WasmInstantiate { admin, code_id, msg, funds, label } =>
                CosmosMsgView::WasmInstantiate {
                admin: opt_text(*admin),
                code_id: *code_id,
                msg: msg@,
                funds: coins_view(funds@),
                label: label@,
            },
            CosmosMsg::WasmExecute { contract_addr, msg, funds } => CosmosMsgView::WasmExecute {
                contract_addr: contract_addr@,
                msg: msg@,
                funds: coins_view(funds@),
            },
        }
    }
}

/// A message with the id under which its reply comes back.
#[derive(Debug, Clone, PartialEq, Eq)]
pub struct SubMsg {
    pub id: u64,
    pub msg: CosmosMsg,
    pub gas_limit: Option<u64>,
    pub reply_on: ReplyOn,
}

pub struct SubMsgView {
    pub id: u64,
    pub msg: CosmosMsgView,
    pub gas_limit: Option<u64>,
    pub reply_on: ReplyOn,
}

impl View for SubMsg {
    type V = SubMsgView;

    open spec fn view(&self) -> SubMsgView {
        SubMsgView { id: self.id, msg: self.msg@, gas_limit: self.gas_limit, reply_on: self.reply_on }
    }
}

/// A logged key and value.
#[derive(Debug, Clone, PartialEq, Eq)]
pub struct Attribute {
    pub key: String,
    pub value: String,
}

/// The hub's answer to a successful call.
#[derive(Debug, Clone, PartialEq, Eq)]
pub struct Response {
    pub messages: Vec<SubMsg>,
    pub attributes: Vec<Attribute>,
}

pub struct ResponseView {
    pub messages: Seq<SubMsgView>,
    pub attributes: Seq<(Seq<char>, Seq<char>)>,
}

impl View for Response {
    type V = ResponseView;

    open spec fn view(&self) -> ResponseView {
        ResponseView {
            messages: self.messages@.map_values(|m: SubMsg| m@),
            attributes: self.attributes@.map_values(|a: Attribute| (a.key@, a.value@)),
        }
    }
}

/// The response that holds nothing.
pub open spec fn empty_response() -> ResponseView {
    ResponseView { messages: Seq::empty(), attributes: Seq::empty() }
}

impl Response {
    pub fn new() -> (r: Response)
        ensures
            r@ == empty_response(),
    {
        let r = Response { messages: Vec::new(), attributes: Vec::new() };
        assert(r@.messages =~= Seq::<SubMsgView>::empty());
        assert(r@.attributes =~= Seq::<(Seq<char>, Seq<char>)>::empty());
        r
    }

    /// Logs `key` with `value`.
    pub fn add_attribute(self, key: &str, value: String) -> (r: Response)
        ensures
            r@ == (ResponseView {
                messages: self@.messages,
                attributes: self@.attributes.push((key@, value@)),
            }),
    {
        let mut r = self;
        let ghost old_attrs = r.attributes@;
        r.attributes.push(Attribute { key: key.to_owned(), value });
        assert(r@.attributes =~= self@.attributes.push((key@, value@)));
        assert(r@.messages =~= self@.messages);
        r
    }

    /// Sends `msg` with its reply settings.
    pub fn add_submessage(self, msg: SubMsg) -> (r: Response)
        ensures
            r@ == (ResponseView {
                messages: self@.messages.push(msg@),
                attributes: self@.attributes,
            }),
    {
        let mut r = self;
        let ghost m = msg@;
        r.messages.push(msg);
        assert(r@.messages =~= self@.messages.push(m));
        assert(r@.attributes =~= self@.attributes);
        r
    }

    /// Sends `msg` without asking for a reply.
    pub fn add_message(self, msg: CosmosMsg) -> (r: Response)
        ensures
            r@ == (ResponseView {
                messages: self@.messages.push(
                    SubMsgView { id: 0, msg: msg@, gas_limit: None, reply_on: ReplyOn::Never },
                ),
                attributes: self@.attributes,
            }),
    {
        self.add_submessage(SubMsg { id: 0, msg, gas_limit: None, reply_on: ReplyOn::Never })
    }
}

} // verus!
