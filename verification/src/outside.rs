//! The calls that the hub makes into the host's libraries, with the contract
//! that each is believed to keep.

use vstd::prelude::*;
use crate::msg::{Coin, Reply, SubMsgResult};

verus! {

/// Whether the first coin of `funds` in denomination `denom` holds at least
/// `amount` (false where no coin has that denomination).
pub open spec fn covers(funds: Seq<Coin>, denom: Seq<char>, amount: u128) -> bool {
    exists|i: int|
        #![trigger funds[i]]
        0 <= i < funds.len() && funds[i].denom@ == denom
            && (forall|j: int| 0 <= j < i ==> funds[j].denom@ != denom)
            && funds[i].amount >= amount
}

/// Calls `cosmwasm_std::has_coins`, which finds the first coin with the
/// required denomination and compares its amount with the required one.
#[verifier::external_body]
pub(crate) fn has_coins(funds: &Vec<Coin>, required: &Coin) -> (r: bool)
    ensures
        r == covers(funds@, required.denom@, required.amount),
{
    let host = |c: &Coin| cosmwasm_std::Coin { denom: c.denom.clone(), amount: c.amount.into() };
    let coins: Vec<cosmwasm_std::Coin> = funds.iter().map(host).collect();
    cosmwasm_std::has_coins(&coins, &host(required))
}

/// The contract address and the data that `cw_utils::parse_reply_instantiate_data`
/// decodes from a sub-message result, or `None` where it fails.
pub uninterp spec fn reply_instantiate_data(
    result: Result<Option<Seq<u8>>, Seq<char>>,
) -> Option<(Seq<char>, Option<Seq<u8>>)>;

/// The data that `cw_utils::parse_reply_execute_data` decodes from a
/// sub-message result, or `None` where it fails.
pub uninterp spec fn reply_execute_data(
    result: Result<Option<Seq<u8>>, Seq<char>>,
) -> Option<Option<Seq<u8>>>;

pub open spec fn address_and_data_view(
    r: Option<(String, Option<Vec<u8>>)>,
) -> Option<(Seq<char>, Option<Seq<u8>>)> {
    match r {
        Some((a, d)) => Some((a@, match d {
            Some(b) => Some(b@),
            None => None,
        })),
        None => None,
    }
}

/// Calls `cw_utils::parse_reply_instantiate_data` on the reply, and keeps the
/// decoded contract address and data; its error becomes `None`. The source
/// shows that a failed sub-message, or one without data, gives an error; the
/// protobuf decoding of the data is left to the name `reply_instantiate_data`.
#[verifier::external_body]
pub(crate) fn parse_reply_instantiate_data(reply: &Reply) -> (r: Option<(String, Option<Vec<u8>>)>)
    ensures
        address_and_data_view(r) == reply_instantiate_data(reply.result@),
        reply.result is Failure ==> r is None,
        reply.result matches SubMsgResult::Success { data: None } ==> r is None,
{
    let result = match &reply.result {
        SubMsgResult::Success { data } => cosmwasm_std::SubMsgResult::Ok(cosmwasm_std::SubMsgResponse {
            events: vec![],
            data: data.clone().map(cosmwasm_std::Binary),
        }),
        SubMsgResult::Failure { error } => cosmwasm_std::SubMsgResult::Err(error.clone()),
    };
    let host = cosmwasm_std::Reply { id: reply.id, result };
    match cw_utils::parse_reply_instantiate_data(host) {
        Ok(res) => Some((res.contract_address, res.data.map(|b| b.0))),
        Err(_) => None,
    }
}

/// Calls `cw_utils::parse_reply_execute_data` on the reply, and keeps the
/// decoded data; its error becomes `None`. The source shows that a failed
/// sub-message, or one without data, gives an error; the protobuf decoding of
/// the data is left to the name `reply_execute_data`.
#[verifier::external_body]
pub(crate) fn parse_reply_execute_data(reply: &Reply) -> (r: Option<Option<Vec<u8>>>)
    ensures
        (match r {
            Some(d) => Some(match d {
                Some(b) => Some(b@),
                None => None,
            }),
            None => None,
        }) == reply_execute_data(reply.result@),
        reply.result is Failure ==> r is None,
        reply.result matches SubMsgResult::Success { data: None } ==> r is None,
{
    let result = match &reply.result {
        SubMsgResult::Success { data } => cosmwasm_std::SubMsgResult::Ok(cosmwasm_std::SubMsgResponse {
            events: vec![],
            data: data.clone().map(cosmwasm_std::Binary),
        }),
        SubMsgResult::Failure { error } => cosmwasm_std::SubMsgResult::Err(error.clone()),
    };
    let host = cosmwasm_std::Reply { id: reply.id, result };
    match cw_utils::parse_reply_execute_data(host) {
        Ok(res) => Some(res.data.map(|b| b.0)),
        Err(_) => None,
    }
}

} // verus!

