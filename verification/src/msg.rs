use vstd::prelude::*;

verus! {

/// An amount of one denomination of tokens.
#[derive(Debug, Clone, PartialEq, Eq)]
pub struct Coin {
    pub denom: String,
    pub amount: u128,
}

pub struct CoinView {
    pub denom: Seq<char>,
    pub amount: u128,
}

impl View for Coin {
    type V = CoinView;

    open spec fn view(&self) -> CoinView {
        CoinView { denom: self.denom@, amount: self.amount }
    }
}

/// Builds a coin, as the host's `coin(amount, denom)` does.
pub fn coin(amount: u128, denom: &str) -> (c: Coin)
    ensures
        c@ == (CoinView { denom: denom@, amount }),
{
    Coin { denom: denom.to_owned(), amount }
}

/// Who sent a message and which funds came with it.
#[derive(Debug, Clone, PartialEq, Eq)]
pub struct MessageInfo {
    pub sender: String,
    pub funds: Vec<Coin>,
}

/// What the hub reads of the environment of a call.
#[derive(Debug, Clone, PartialEq, Eq)]
pub struct Env {
    /// Height of the block that runs the call.
    pub block_height: u64,
    /// Address of the hub itself.
    pub contract_address: String,
}

#[derive(Debug, Clone, PartialEq, Eq)]
pub struct InstantiateMsg {
    pub admin: Option<String>,
}

/// The message with which a ticket contract hands an NFT to the hub: the
/// previous owner, the token and the message bytes that came with it.
#[derive(Debug, Clone, PartialEq, Eq)]
pub struct Cw721ReceiveMsg {
    pub sender: String,
    pub token_id: String,
    pub msg: Vec<u8>,
}

#[derive(Debug, Clone, PartialEq, Eq)]
pub enum ExecuteMsg {
    ReceiveNft(Cw721ReceiveMsg),
    InitTicketContract { code_id: u64, name: String, symbol: String },
    BuyTicket { package_option: u8 },
}

/// What a ticket holder may ask when sending a ticket to the hub.
#[derive(Debug, Clone, Copy, PartialEq, Eq)]
pub enum ReceiveNftMsg {
    UseTicket {},
}

#[derive(Debug, Clone, PartialEq, Eq)]
pub enum QueryMsg {
    GetUserStatus { user_address: String },
}

/// Whether a user has checked in, and the traits of the ticket used.
#[derive(Debug, Clone, PartialEq, Eq)]
pub struct UserStatusResponse {
    pub checked_in: bool,
    pub ticket_data: Option<Vec<String>>,
}

pub struct UserStatusResponseView {
    pub checked_in: bool,
    pub ticket_data: Option<Seq<Seq<char>>>,
}

impl View for UserStatusResponse {
    type V = UserStatusResponseView;

    open spec fn view(&self) -> UserStatusResponseView {
        UserStatusResponseView {
            checked_in: self.checked_in,
            ticket_data: match self.ticket_data {
                Some(v) => Some(v.deep_view()),
                None => None,
            },
        }
    }
}

/// One trait of a ticket's on-chain metadata.
#[derive(Debug, Clone, PartialEq, Eq)]
pub struct Trait {
    pub trait_type: String,
    pub value: String,
}

/// The metadata that the ticket contract keeps with a ticket, as far as the
/// hub reads it.
#[derive(Debug, Clone, PartialEq, Eq)]
pub struct TicketNftExtension {
    pub attributes: Option<Vec<Trait>>,
}

/// The ticket contract's answer to a query for one token's information.
#[derive(Debug, Clone, PartialEq, Eq)]
pub struct NftInfoResponse {
    pub extension: Option<TicketNftExtension>,
}

/// What a sub-message that asked for a reply gave back: its response data,
/// or the error text with which it failed.
#[derive(Debug, Clone, PartialEq, Eq)]
pub enum SubMsgResult {
    Success { data: Option<Vec<u8>> },
    Failure { error: String },
}

impl View for SubMsgResult {
    type V = Result<Option<Seq<u8>>, Seq<char>>;

    open spec fn view(&self) -> Result<Option<Seq<u8>>, Seq<char>> {
        match self {
            SubMsgResult::Success { data } => Ok(
                match data {
                    Some(d) => Some(d@),
                    None => None,
                },
            ),
            SubMsgResult::Failure { error } => Err(error@),
        }
    }
}

/// A reply to a sub-message, routed by the id that the sub-message carried.
#[derive(Debug, Clone, PartialEq, Eq)]
pub struct Reply {
    pub id: u64,
    pub result: SubMsgResult,
}

} // verus!
