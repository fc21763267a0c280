//! The messages the hub sends to the ticket contract.

use vstd::prelude::*;
use crate::error::{ContractError, ContractErrorView};
use crate::response::{coins_view, CosmosMsg, CosmosMsgView, ReplyOn, SubMsg, SubMsgView, TicketNftMsg, TicketNftMsgView};
use crate::text::{decimal, decimal_string};

verus! {

/// The sub-message that mints ticket `token_id` of package `package_option`
/// for `ticket_holder` on `contract`; its reply comes back under id 2.
pub open spec fn mint_submsg_view(contract: Seq<char>, ticket_holder: Seq<char>, token_id: u32, package_option: u8) -> SubMsgView {
    SubMsgView {
        id: 2,
        msg: CosmosMsgView::WasmExecute {
            contract_addr: contract,
            msg: TicketNftMsgView::Mint {
                count: token_id,
                token_id: decimal(token_id as nat),
                owner: ticket_holder,
                token_uri: None,
                package_option,
                ticket_holder,
            },
            funds: Seq::empty(),
        },
        gas_limit: None,
        reply_on: ReplyOn::Success,
    }
}

/// The message that burns `token_id` on `nft_contract`.
pub open spec fn burn_msg_view(nft_contract: Seq<char>, token_id: Seq<char>) -> CosmosMsgView {
    CosmosMsgView::WasmExecute {
        contract_addr: nft_contract,
        msg: TicketNftMsgView::Burn { token_id },
        funds: Seq::empty(),
    }
}

/// Builds the mint sub-message; the host writes its message in the ticket
/// contract's JSON form, which cannot fail for these fields.
pub fn make_mint_submsg(contract: String, ticket_holder: String, token_id: u32, package_option: u8) -> (r: Result<SubMsg, ContractError>)
    ensures
        r matches Ok(m) && m@ == mint_submsg_view(contract@, ticket_holder@, token_id, package_option),
{
    let mint = TicketNftMsg::Mint {
        count: token_id,
        token_id: decimal_string(token_id),
        owner: ticket_holder.clone(),
        token_uri: None,
        package_option,
        ticket_holder,
    };
    let funds = Vec::new();
    let msg = CosmosMsg::WasmExecute { contract_addr: contract, msg: mint, funds };
    let m = SubMsg { id: 2, msg, gas_limit: None, reply_on: ReplyOn::Success };
    assert(coins_view(funds@) =~= Seq::empty());
    Ok(m)
}

/// Builds the message that burns a used ticket.
pub fn make_burn_msg(nft_contract: String, token_id: String) -> (r: Result<CosmosMsg, ContractError>)
    ensures
        r matches Ok(m) && m@ == burn_msg_view(nft_contract@, token_id@),
{
    let funds = Vec::new();
    assert(coins_view(funds@) =~= Seq::empty());
    Ok(CosmosMsg::WasmExecute { contract_addr: nft_contract, msg: TicketNftMsg::Burn { token_id }, funds })
}

} // verus!
