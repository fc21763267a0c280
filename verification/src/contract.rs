//! The hub's entry points: instantiation, the three executable messages,
//! the replies to its sub-messages, and the user status query.

use vstd::prelude::*;
use vstd::string::*;
use crate::error::{check_view, ContractError, ContractErrorView, StdError, StdErrorView};
use crate::msg::{
    coin, Coin, Cw721ReceiveMsg, Env, ExecuteMsg, InstantiateMsg, MessageInfo, NftInfoResponse, QueryMsg,
    ReceiveNftMsg, Reply, Trait, UserStatusResponse, UserStatusResponseView,
};
use crate::outside::{
    covers, has_coins, parse_reply_execute_data, parse_reply_instantiate_data, reply_execute_data,
    reply_instantiate_data,
};
use crate::response::{
    coins_view, CosmosMsg, CosmosMsgView, ReplyOn, Response, ResponseView, SubMsg, SubMsgView, TicketNftMsg,
    TicketNftMsgView,
};
use crate::state::{
    config_not_found, first_record_of, first_ticket_of, lemma_first_ticket_unique, ticker_not_found,
    ticket_id_in_use, tickets_of, violates_unique, Configuration, ConfigurationView, ContractVersion, HubState,
    HubStateView, TicketInfo, TicketInfoView,
};
use crate::text::join;
use crate::utils::{burn_msg_view, make_burn_msg, make_mint_submsg, mint_submsg_view};

verus! {

/// The name under which the contract records itself.
pub open spec fn contract_name() -> Seq<char> {
    "crates.io:ticket-dapp"@
}

/// The version under which the contract records itself.
pub open spec fn contract_version() -> Seq<char> {
    "0.1.0"@
}

/// The denomination in which tickets are paid.
pub open spec fn ticket_price_denom() -> Seq<char> {
    "ujuno"@
}

/// Price of the normal package, in the ticket denomination.
pub const NORMAL_PRICE: u128 = 1000000u128;
/// Price of the VIP package.
pub const VIP_PRICE: u128 = 5000000u128;
/// Price of the ultra VIP package.
pub const ULTRA_VIP_PRICE: u128 = 10000000u128;

/// The price of each ticket package: 1 is normal, 2 is VIP, 3 is ultra VIP.
pub open spec fn package_price(package_option: u8) -> Option<u128> {
    if package_option == 1 {
        Some(NORMAL_PRICE)
    } else if package_option == 2 {
        Some(VIP_PRICE)
    } else if package_option == 3 {
        Some(ULTRA_VIP_PRICE)
    } else {
        None
    }
}

/// The ticket counter after a sale: the next number, starting again at 1
/// once it reaches `u32::MAX - 1`.
pub open spec fn next_ticker(t: u32) -> u32 {
    if t >= u32::MAX - 1 {
        1
    } else {
        (t + 1) as u32
    }
}

pub open spec fn result_view(r: Result<Response, ContractError>) -> Result<ResponseView, ContractErrorView> {
    match r {
        Ok(resp) => Ok(resp@),
        Err(e) => Err(e@),
    }
}

/// The address that instantiation makes admin: the one in the message, or
/// else the sender.
pub open spec fn admin_candidate(info: MessageInfo, msg: InstantiateMsg) -> String {
    match msg.admin {
        Some(a) => a,
        None => info.sender,
    }
}

/// Instantiation, given the host's check of the admin candidate.
pub open spec fn instantiate_spec(
    s: HubStateView,
    info: MessageInfo,
    msg: InstantiateMsg,
    admin_check: Result<Seq<char>, StdErrorView>,
) -> (HubStateView, Result<ResponseView, ContractErrorView>) {
    let versioned = HubStateView { contract_version: Some((contract_name(), contract_version())), ..s };
    match admin_check {
        Err(e) => (versioned, Err(ContractErrorView::Std(e))),
        Ok(admin) => (
            HubStateView {
                config: Some(ConfigurationView { admin, ticket_nft_addr: None }),
                ticker: Some(1),
                ..versioned
            },
            Ok(ResponseView {
                messages: Seq::empty(),
                attributes: seq![("method"@, "instantiate"@), ("admin"@, admin_candidate(info, msg)@)],
            }),
        ),
    }
}

/// Instantiates the hub: records the contract's name and version, makes the
/// validated admin candidate admin with no ticket contract yet, and starts
/// the ticket counter at 1. `validate` is the host's address validation.
pub fn instantiate<V: Fn(String) -> Result<String, StdError>>(
    state: &mut HubState,
    _env: &Env,
    info: &MessageInfo,
    msg: InstantiateMsg,
    validate: V,
) -> (r: Result<Response, ContractError>)
    requires
        forall|a: String| validate.requires((a,)),
    ensures
        exists|c: Result<String, StdError>|
            #[trigger] validate.ensures((admin_candidate(*info, msg),), c) && (final(state)@, result_view(r))
                == instantiate_spec(old(state)@, *info, msg, check_view(c)),
{
    proof {
        reveal_strlit("crates.io:ticket-dapp");
        reveal_strlit("0.1.0");
    }
    state.contract_version = Some(ContractVersion {
        contract: String::from_str("crates.io:ticket-dapp"),
        version: String::from_str("0.1.0"),
    });
    let admin = match &msg.admin {
        Some(a) => a.clone(),
        None => info.sender.clone(),
    };
    let candidate = admin.clone();
    assert(candidate == admin_candidate(*info, msg));
    let checked = validate(candidate);
    let ghost c = checked;
    assert(validate.ensures((admin_candidate(*info, msg),), c));
    let validated_admin = match checked {
        Ok(a) => a,
        Err(e) => {
            let r = Err(ContractError::Std(e));
            assert((state@, result_view(r)) == instantiate_spec(old(state)@, *info, msg, check_view(c)));
            return r;
        },
    };
    state.config = Some(Configuration { admin: validated_admin, ticket_nft_addr: None });
    state.ticker = Some(1);
    let resp = Response::new().add_attribute("method", String::from_str("instantiate")).add_attribute(
        "admin",
        admin,
    );
    assert(resp@.attributes =~= seq![("method"@, "instantiate"@), ("admin"@, admin_candidate(*info, msg)@)]);
    assert((state@, result_view(Ok(resp))) == instantiate_spec(old(state)@, *info, msg, check_view(c)));
    Ok(resp)
}

/// A purchase of package `package_option`.
pub open spec fn buy_ticket_spec(s: HubStateView, info: MessageInfo, package_option: u8) -> (
    HubStateView,
    Result<ResponseView, ContractErrorView>,
) {
    match s.config {
        None => (s, Err(ContractErrorView::Std(config_not_found()))),
        Some(config) => match s.ticker {
            None => (s, Err(ContractErrorView::Std(ticker_not_found()))),
            Some(token_id) => match config.ticket_nft_addr {
                None => (s, Err(ContractErrorView::GenericError)),
                Some(nft_addr) => {
                    let sold = HubStateView { ticker: Some(next_ticker(token_id)), ..s };
                    match package_price(package_option) {
                        None => (sold, Err(ContractErrorView::GenericError)),
                        Some(price) => if !covers(info.funds@, ticket_price_denom(), price) {
                            (sold, Err(ContractErrorView::InvalidPayment))
                        } else if info.funds@.len() > 1 {
                            (sold, Err(ContractErrorView::GenericError))
                        } else {
                            (
                                sold,
                                Ok(ResponseView {
                                    messages: seq![
                                        mint_submsg_view(nft_addr, info.sender@, token_id, package_option),
                                    ],
                                    attributes: Seq::empty(),
                                }),
                            )
                        },
                    }
                },
            },
        },
    }
}

/// Sells a ticket: mints the ticket numbered by the counter for the sender,
/// once the sender paid the package's price in its one coin, and advances
/// the counter. The counter advances before the package and payment are
/// checked, as the stored counter does when the call fails there.
pub fn execute_buy_ticket(state: &mut HubState, info: &MessageInfo, _env: &Env, package_option: u8) -> (r: Result<
    Response,
    ContractError,
>)
    ensures
        (final(state)@, result_view(r)) == buy_ticket_spec(old(state)@, *info, package_option),
{
    let config = match state.load_config() {
        Ok(c) => c,
        Err(e) => {
            return Err(ContractError::Std(e));
        },
    };
    let token_id = match state.load_ticker() {
        Ok(t) => t,
        Err(e) => {
            return Err(ContractError::Std(e));
        },
    };
    let nft_addr = match config.ticket_nft_addr {
        Some(a) => a,
        None => {
            return Err(ContractError::GenericError {  });
        },
    };
    let next = if token_id >= u32::MAX - 1 {
        1
    } else {
        token_id + 1
    };
    state.ticker = Some(next);
    let price = if package_option == 1 {
        NORMAL_PRICE
    } else if package_option == 2 {
        VIP_PRICE
    } else if package_option == 3 {
        ULTRA_VIP_PRICE
    } else {
        return Err(ContractError::GenericError {  });
    };
    proof {
        reveal_strlit("ujuno");
    }
    let required = coin(price, "ujuno");
    if !has_coins(&info.funds, &required) {
        return Err(ContractError::InvalidPayment {  });
    }
    if info.funds.len() > 1 {
        return Err(ContractError::GenericError {  });
    }
    let submsg = match make_mint_submsg(nft_addr, info.sender.clone(), token_id, package_option) {
        Ok(m) => m,
        Err(e) => {
            return Err(e);
        },
    };
    let resp = Response::new().add_submessage(submsg);
    assert(resp@.messages =~= seq![mint_submsg_view(config@.ticket_nft_addr->0, info.sender@, token_id, package_option)]);
    Ok(resp)
}

/// The sub-message that instantiates the ticket contract from code `code_id`,
/// minted by the hub at `minter`; its reply comes back under id 1.
pub open spec fn init_ticket_submsg_view(code_id: u64, name: Seq<char>, symbol: Seq<char>, minter: Seq<char>) -> SubMsgView {
    SubMsgView {
        id: 1,
        msg: CosmosMsgView::WasmInstantiate {
            admin: None,
            code_id,
            msg: TicketNftMsgView::Instantiate { name, symbol, minter },
            funds: Seq::empty(),
            label: "Nft Ticket Contract"@,
        },
        gas_limit: None,
        reply_on: ReplyOn::Success,
    }
}

/// The request to instantiate the ticket contract.
pub open spec fn init_ticket_spec(
    s: HubStateView,
    env: Env,
    sender: Seq<char>,
    code_id: u64,
    name: Seq<char>,
    symbol: Seq<char>,
) -> Result<ResponseView, ContractErrorView> {
    match s.config {
        None => Err(ContractErrorView::Std(config_not_found())),
        Some(config) => if config.admin != sender {
            Err(ContractErrorView::GenericError)
        } else {
            Ok(ResponseView {
                messages: seq![init_ticket_submsg_view(code_id, name, symbol, env.contract_address@)],
                attributes: seq![("Innit NFT ticket contract"@, "innit"@)],
            })
        },
    }
}

/// Lets the admin have the host instantiate the ticket contract, with the hub
/// as its minter. Storage is only read.
pub fn execute_init_ticket(
    state: &HubState,
    env: &Env,
    sender: &String,
    code_id: u64,
    name: String,
    symbol: String,
) -> (r: Result<Response, ContractError>)
    ensures
        result_view(r) == init_ticket_spec(state@, *env, sender@, code_id, name@, symbol@),
{
    let config = match state.load_config() {
        Ok(c) => c,
        Err(e) => {
            return Err(ContractError::Std(e));
        },
    };
    if config.admin != *sender {
        return Err(ContractError::GenericError {  });
    }
    let ghost (n, sy) = (name@, symbol@);
    let init = TicketNftMsg::Instantiate { name, symbol, minter: env.contract_address.clone() };
    let funds: Vec<Coin> = Vec::new();
    assert(coins_view(funds@) =~= Seq::empty());
    proof {
        reveal_strlit("Nft Ticket Contract");
    }
    let cosmos_msg = CosmosMsg::WasmInstantiate {
        admin: None,
        code_id,
        msg: init,
        funds,
        label: String::from_str("Nft Ticket Contract"),
    };
    let sub_msg = SubMsg { id: 1, msg: cosmos_msg, gas_limit: None, reply_on: ReplyOn::Success };
    let resp = Response::new().add_attribute("Innit NFT ticket contract", String::from_str("innit")).add_submessage(
        sub_msg,
    );
    assert(resp@.messages =~= seq![init_ticket_submsg_view(code_id, n, sy, env.contract_address@)]);
    assert(resp@.attributes =~= seq![("Innit NFT ticket contract"@, "innit"@)]);
    Ok(resp)
}

/// The error of a save that would give two records the same ticket id.
pub open spec fn unique_violation() -> StdErrorView {
    StdErrorView::GenericErr { msg: "Violates unique constraint on index"@ }
}

/// Recording the use of a ticket.
pub open spec fn use_ticket_spec(
    s: HubStateView,
    block_used: u64,
    user: Seq<char>,
    ticket_id: Seq<char>,
    nft_contract: Seq<char>,
) -> (HubStateView, Result<ResponseView, ContractErrorView>) {
    let info = TicketInfoView { ticket_id, block_used };
    if violates_unique(s.used, (user, ticket_id), info) {
        (s, Err(ContractErrorView::Std(unique_violation())))
    } else {
        (
            HubStateView { used: s.used.insert((user, ticket_id), info), ..s },
            Ok(ResponseView {
                messages: seq![
                    SubMsgView {
                        id: 0,
                        msg: burn_msg_view(nft_contract, ticket_id),
                        gas_limit: None,
                        reply_on: ReplyOn::Never,
                    },
                ],
                attributes: Seq::empty(),
            }),
        )
    }
}

/// Records that `user` used ticket `ticket_id` at block `block_used`, and
/// burns the ticket on `nft_contract`.
pub fn use_ticket(
    state: &mut HubState,
    block_used: u64,
    user: String,
    ticket_id: String,
    nft_contract: String,
) -> (r: Result<Response, ContractError>)
    ensures
        (final(state)@, result_view(r)) == use_ticket_spec(old(state)@, block_used, user@, ticket_id@, nft_contract@),
{
    let info = TicketInfo { ticket_id: ticket_id.clone(), block_used };
    match state.used_tickets.save(user, ticket_id.clone(), info) {
        Ok(()) => {},
        Err(e) => {
            return Err(ContractError::Std(e));
        },
    }
    let burn = match make_burn_msg(nft_contract, ticket_id) {
        Ok(m) => m,
        Err(e) => {
            return Err(e);
        },
    };
    let resp = Response::new().add_message(burn);
    assert(resp@.messages =~= use_ticket_spec(old(state)@, block_used, user@, ticket_id@, nft_contract@).1->Ok_0.messages);
    assert(resp@.attributes =~= Seq::<(Seq<char>, Seq<char>)>::empty());
    Ok(resp)
}

/// The handling of a ticket sent back to the hub, once the message that came
/// with it was parsed and its sender's address checked.
pub open spec fn receive_nft_spec(
    s: HubStateView,
    block: u64,
    info: MessageInfo,
    wrapper: Cw721ReceiveMsg,
    msg: ReceiveNftMsg,
    user_check: Result<Seq<char>, StdErrorView>,
) -> (HubStateView, Result<ResponseView, ContractErrorView>) {
    match user_check {
        Err(e) => (s, Err(ContractErrorView::Std(e))),
        Ok(user) => match s.config {
            None => (s, Err(ContractErrorView::Std(config_not_found()))),
            Some(config) => if config.ticket_nft_addr != Some(info.sender@) {
                (s, Err(ContractErrorView::GenericError))
            } else if ticket_id_in_use(s.used, wrapper.token_id@) {
                (s, Err(ContractErrorView::GenericError))
            } else if tickets_of(s.used, user).len() > 0 {
                (s, Err(ContractErrorView::AlreadyUsed))
            } else {
                match msg {
                    ReceiveNftMsg::UseTicket {  } => use_ticket_spec(
                        s,
                        block,
                        user,
                        wrapper.token_id@,
                        info.sender@,
                    ),
                }
            },
        },
    }
}

pub open spec fn parse_view(p: Result<ReceiveNftMsg, StdError>) -> Result<ReceiveNftMsg, StdErrorView> {
    match p {
        Ok(m) => Ok(m),
        Err(e) => Err(e@),
    }
}

/// What `execute_receive_nft` does, given what the host's parser and
/// address check may return: a parse error is returned with storage
/// unchanged; otherwise `receive_nft_spec` holds of the check's outcome.
pub open spec fn receive_nft_ensures<
    P: Fn(Vec<u8>) -> Result<ReceiveNftMsg, StdError>,
    V: Fn(String) -> Result<String, StdError>,
>(
    old_state: HubStateView,
    new_state: HubStateView,
    block: u64,
    info: MessageInfo,
    wrapper: Cw721ReceiveMsg,
    parse: P,
    validate: V,
    r: Result<Response, ContractError>,
) -> bool {
    exists|p: Result<ReceiveNftMsg, StdError>|
        #[trigger] parse.ensures((wrapper.msg,), p) && match p {
            Err(e) => new_state == old_state && result_view(r) == Err::<ResponseView, ContractErrorView>(
                ContractErrorView::Std(e@),
            ),
            Ok(m) => exists|c: Result<String, StdError>|
                #[trigger] validate.ensures((wrapper.sender,), c) && (new_state, result_view(r))
                    == receive_nft_spec(old_state, block, info, wrapper, m, check_view(c)),
        }
}

/// Checks in a ticket that the ticket contract sent to the hub: the message
/// that came with it must parse (`parse`, the host's parser), its previous
/// owner must be a valid address (`validate`), the sender must be the ticket
/// contract, the ticket must be unused, and its owner must not have used a
/// ticket before (else `AlreadyUsed`). The ticket is then recorded as used and
/// burnt.
pub fn execute_receive_nft<
    P: Fn(Vec<u8>) -> Result<ReceiveNftMsg, StdError>,
    V: Fn(String) -> Result<String, StdError>,
>(
    state: &mut HubState,
    block: u64,
    info: &MessageInfo,
    wrapper: Cw721ReceiveMsg,
    parse: P,
    validate: V,
) -> (r: Result<Response, ContractError>)
    requires
        forall|b: Vec<u8>| parse.requires((b,)),
        forall|a: String| validate.requires((a,)),
    ensures
        receive_nft_ensures(old(state)@, final(state)@, block, *info, wrapper, parse, validate, r),
{
    let ghost w = wrapper;
    let Cw721ReceiveMsg { sender, token_id, msg: bytes } = wrapper;
    let parsed = parse(bytes);
    let ghost p = parsed;
    assert(parse.ensures((w.msg,), p));
    let msg = match parsed {
        Ok(m) => m,
        Err(e) => {
            return Err(ContractError::Std(e));
        },
    };
    let checked = validate(sender);
    let ghost c = checked;
    assert(validate.ensures((w.sender,), c));
    let user_wallet = match checked {
        Ok(a) => a,
        Err(e) => {
            return Err(ContractError::Std(e));
        },
    };
    let config = match state.load_config() {
        Ok(c) => c,
        Err(e) => {
            return Err(ContractError::Std(e));
        },
    };
    let from_ticket_contract = match &config.ticket_nft_addr {
        Some(a) => *a == info.sender,
        None => false,
    };
    if !from_ticket_contract {
        return Err(ContractError::GenericError {  });
    }
    if state.used_tickets.ticket_id_used(&token_id) {
        return Err(ContractError::GenericError {  });
    }
    if state.used_tickets.count_for_user(&user_wallet) > 0 {
        return Err(ContractError::AlreadyUsed {  });
    }
    match msg {
        ReceiveNftMsg::UseTicket {  } => use_ticket(state, block, user_wallet, token_id, info.sender.clone()),
    }
}

/// The handling of the reply that names the instantiated ticket contract,
/// once its address was checked.
pub open spec fn ticket_contract_reply_spec(s: HubStateView, addr_check: Result<Seq<char>, StdErrorView>) -> (
    HubStateView,
    Result<ResponseView, ContractErrorView>,
) {
    match addr_check {
        Err(e) => (s, Err(ContractErrorView::Std(e))),
        Ok(addr) => match s.config {
            None => (s, Err(ContractErrorView::Std(config_not_found()))),
            Some(config) => (
                HubStateView {
                    config: Some(ConfigurationView { admin: config.admin, ticket_nft_addr: Some(addr) }),
                    ..s
                },
                Ok(ResponseView {
                    messages: Seq::empty(),
                    attributes: seq![("Instantiated NFT Ticket contract"@, "Address: "@ + addr)],
                }),
            ),
        },
    }
}

/// The answer to the reply of a mint.
pub open spec fn mint_reply_spec(result: Result<Option<Seq<u8>>, Seq<char>>) -> Result<ResponseView, ContractErrorView> {
    if reply_execute_data(result) is Some {
        Ok(ResponseView { messages: Seq::empty(), attributes: seq![("Mint Ticket"@, "Success"@)] })
    } else {
        Err(ContractErrorView::GenericError)
    }
}

/// Handles the replies to the hub's sub-messages: under id 1 the
/// instantiation of the ticket contract, whose address (checked by
/// `validate`) the configuration then keeps; under id 2 a mint.
pub fn reply<V: Fn(String) -> Result<String, StdError>>(
    state: &mut HubState,
    _env: &Env,
    msg: Reply,
    validate: V,
) -> (r: Result<Response, ContractError>)
    requires
        forall|a: String| validate.requires((a,)),
    ensures
        msg.id == 1 ==> match reply_instantiate_data(msg.result@) {
            None => final(state)@ == old(state)@ && result_view(r) == Err::<ResponseView, ContractErrorView>(
                ContractErrorView::GenericError,
            ),
            Some((addr, _)) => exists|a: String, c: Result<String, StdError>|
                a@ == addr && #[trigger] validate.ensures((a,), c) && (final(state)@, result_view(r))
                    == ticket_contract_reply_spec(old(state)@, check_view(c)),
        },
        msg.id == 2 ==> final(state)@ == old(state)@ && result_view(r) == mint_reply_spec(msg.result@),
        msg.id != 1 && msg.id != 2 ==> final(state)@ == old(state)@ && result_view(r)
            == Err::<ResponseView, ContractErrorView>(ContractErrorView::GenericError),
{
    if msg.id == 1 {
        let (contract_address, _data) = match parse_reply_instantiate_data(&msg) {
            Some(res) => res,
            None => {
                return Err(ContractError::GenericError {  });
            },
        };
        let ghost a = contract_address;
        let checked = validate(contract_address);
        let ghost c = checked;
        assert(validate.ensures((a,), c));
        let ticket_contract = match checked {
            Ok(t) => t,
            Err(e) => {
                return Err(ContractError::Std(e));
            },
        };
        let old_config = match state.load_config() {
            Ok(cfg) => cfg,
            Err(e) => {
                return Err(ContractError::Std(e));
            },
        };
        state.config = Some(Configuration {
            admin: old_config.admin,
            ticket_nft_addr: Some(ticket_contract.clone()),
        });
        proof {
            reveal_strlit("Address: ");
        }
        let resp = Response::new().add_attribute(
            "Instantiated NFT Ticket contract",
            join("Address: ", ticket_contract.as_str()),
        );
        assert(resp@.attributes =~= seq![("Instantiated NFT Ticket contract"@, "Address: "@ + ticket_contract@)]);
        assert(resp@.messages =~= Seq::<SubMsgView>::empty());
        Ok(resp)
    } else if msg.id == 2 {
        match parse_reply_execute_data(&msg) {
            Some(_res) => {
                let resp = Response::new().add_attribute("Mint Ticket", String::from_str("Success"));
                assert(resp@.attributes =~= seq![("Mint Ticket"@, "Success"@)]);
                assert(resp@.messages =~= Seq::<SubMsgView>::empty());
                Ok(resp)
            },
            None => Err(ContractError::GenericError {  }),
        }
    } else {
        Err(ContractError::GenericError {  })
    }
}

/// The text of the query that asks the ticket contract for a token's
/// information.
pub open spec fn nft_info_query(ticket_id: Seq<char>) -> Seq<char> {
    "NftInfo { token_id: "@ + ticket_id + " }"@
}

/// How a trait of a ticket is shown: its type, a colon, and its value.
pub open spec fn trait_text(t: Trait) -> Seq<char> {
    t.trait_type@ + ": "@ + t.value@
}

pub open spec fn metadata_missing() -> StdErrorView {
    StdErrorView::GenericErr { msg: "Should always have metadata"@ }
}

pub open spec fn user_check_failed() -> StdErrorView {
    StdErrorView::GenericErr { msg: "Error checking for user"@ }
}

/// The status of a user whose ticket the ticket contract described by `resp`.
pub open spec fn status_from_nft_info(resp: NftInfoResponse) -> Result<UserStatusResponseView, StdErrorView> {
    match resp.extension {
        None => Err(metadata_missing()),
        Some(ext) => match ext.attributes {
            None => Err(metadata_missing()),
            Some(attrs) => Ok(
                UserStatusResponseView {
                    checked_in: true,
                    ticket_data: Some(attrs@.map_values(|t: Trait| trait_text(t))),
                },
            ),
        },
    }
}

pub open spec fn status_result_view(r: Result<UserStatusResponse, StdError>) -> Result<UserStatusResponseView, StdErrorView> {
    match r {
        Ok(s) => Ok(s@),
        Err(e) => Err(e@),
    }
}

/// Reads a user's status from the ticket contract's description of the
/// ticket: checked in, with each trait of the ticket's metadata.
pub fn user_status_from_nft_info(resp: NftInfoResponse) -> (r: Result<UserStatusResponse, StdError>)
    ensures
        status_result_view(r) == status_from_nft_info(resp),
{
    proof {
        reveal_strlit("Should always have metadata");
        reveal_strlit(": ");
    }
    let ghost whole = resp;
    let ext = match resp.extension {
        Some(e) => e,
        None => {
            return Err(StdError::GenericErr { msg: String::from_str("Should always have metadata") });
        },
    };
    let attributes = match ext.attributes {
        Some(a) => a,
        None => {
            return Err(StdError::GenericErr { msg: String::from_str("Should always have metadata") });
        },
    };
    let mut traits: Vec<String> = Vec::new();
    let n = attributes.len();
    let mut i: usize = 0;
    while i < n
        invariant
            n == attributes@.len(),
            i <= n,
            traits.deep_view() =~= attributes@.take(i as int).map_values(|t: Trait| trait_text(t)),
        decreases n - i,
    {
        let t = &attributes[i];
        let line = join(join(t.trait_type.as_str(), ": ").as_str(), t.value.as_str());
        assert(line@ == trait_text(attributes@[i as int]));
        let ghost before = traits.deep_view();
        traits.push(line);
        assert(traits.deep_view() =~= before.push(trait_text(attributes@[i as int])));
        assert(attributes@.take(i + 1) =~= attributes@.take(i as int).push(attributes@[i as int]));
        i = i + 1;
    }
    assert(attributes@.take(n as int) =~= attributes@);
    Ok(UserStatusResponse { checked_in: true, ticket_data: Some(traits) })
}

/// What `get_user_status` gives for `wallet` on storage `s`, given what the
/// host's address check and query may return: an error where the hub is not
/// configured or has no ticket contract; otherwise the check's error, or
/// "not checked in" where the user used no ticket, or else what the ticket
/// contract says of the user's first used ticket.
pub open spec fn get_user_status_ensures<
    V: Fn(String) -> Result<String, StdError>,
    Q: Fn(String, String) -> Result<NftInfoResponse, StdError>,
>(s: HubStateView, wallet: String, validate: V, nft_info: Q, r: Result<UserStatusResponse, StdError>) -> bool {
    match s.config {
        None => status_result_view(r) == Err::<UserStatusResponseView, StdErrorView>(config_not_found()),
        Some(config) => match config.ticket_nft_addr {
            None => status_result_view(r) == Err::<UserStatusResponseView, StdErrorView>(user_check_failed()),
            Some(nft_addr) => exists|c: Result<String, StdError>|
                #[trigger] validate.ensures((wallet,), c) && match c {
                    Err(e) => status_result_view(r) == Err::<UserStatusResponseView, StdErrorView>(e@),
                    Ok(user) => match first_record_of(s.used, user@) {
                        None => status_result_view(r) == Ok::<UserStatusResponseView, StdErrorView>(
                            UserStatusResponseView { checked_in: false, ticket_data: None },
                        ),
                        Some(record) => exists|a: String, m: String, q: Result<NftInfoResponse, StdError>|
                            a@ == nft_addr && m@ == nft_info_query(record.ticket_id)
                                && #[trigger] nft_info.ensures((a, m), q) && match q {
                                Err(e) => status_result_view(r) == Err::<UserStatusResponseView, StdErrorView>(e@),
                                Ok(resp) => status_result_view(r) == status_from_nft_info(resp),
                            },
                    },
                },
        },
    }
}

/// Reports whether `wallet` (checked by `validate`) has checked in: not if it
/// has used no ticket; otherwise the ticket contract at the configured
/// address is asked (`nft_info`, the host's query) for the information of the
/// user's first used ticket, and its traits are reported.
pub fn get_user_status<
    V: Fn(String) -> Result<String, StdError>,
    Q: Fn(String, String) -> Result<NftInfoResponse, StdError>,
>(state: &HubState, wallet: String, validate: V, nft_info: Q) -> (r: Result<UserStatusResponse, StdError>)
    requires
        forall|a: String| validate.requires((a,)),
        forall|a: String, m: String| nft_info.requires((a, m)),
    ensures
        get_user_status_ensures(state@, wallet, validate, nft_info, r),
{
    let config = match state.load_config() {
        Ok(c) => c,
        Err(e) => {
            return Err(e);
        },
    };
    proof {
        reveal_strlit("Error checking for user");
        reveal_strlit("NftInfo { token_id: ");
        reveal_strlit(" }");
    }
    let nft_addr = match config.ticket_nft_addr {
        Some(a) => a,
        None => {
            return Err(StdError::GenericErr { msg: String::from_str("Error checking for user") });
        },
    };
    let ghost w = wallet;
    let checked = validate(wallet);
    let ghost c = checked;
    assert(validate.ensures((w,), c));
    let user_wallet = match checked {
        Ok(u) => u,
        Err(e) => {
            return Err(e);
        },
    };
    let first = state.used_tickets.first_for_user(&user_wallet);
    let record = match first {
        None => {
            proof {
                if exists|t: Seq<char>| first_ticket_of(state@.used, user_wallet@, t) {
                    let t = choose|t: Seq<char>| first_ticket_of(state@.used, user_wallet@, t);
                    assert(tickets_of(state@.used, user_wallet@).contains(t));
                }
            }
            let resp = UserStatusResponse { checked_in: false, ticket_data: None };
            return Ok(resp);
        },
        Some(rec) => rec,
    };
    proof {
        let t = choose|t: Seq<char>| first_ticket_of(state@.used, user_wallet@, t) && state@.used[(user_wallet@, t)] == record@;
        let t2 = choose|t: Seq<char>| first_ticket_of(state@.used, user_wallet@, t);
        lemma_first_ticket_unique(state@.used, user_wallet@, t, t2);
        assert(first_record_of(state@.used, user_wallet@) == Some(record@));
    }
    let query = join(join("NftInfo { token_id: ", record.ticket_id.as_str()).as_str(), " }");
    let ghost (a, m) = (nft_addr, query);
    let answer = nft_info(nft_addr, query);
    let ghost q = answer;
    assert(nft_info.ensures((a, m), q));
    match answer {
        Ok(resp) => user_status_from_nft_info(resp),
        Err(e) => Err(e),
    }
}

/// Answers a query.
pub fn query<
    V: Fn(String) -> Result<String, StdError>,
    Q: Fn(String, String) -> Result<NftInfoResponse, StdError>,
>(state: &HubState, _env: &Env, msg: QueryMsg, validate: V, nft_info: Q) -> (r: Result<UserStatusResponse, StdError>)
    requires
        forall|a: String| validate.requires((a,)),
        forall|a: String, m: String| nft_info.requires((a, m)),
    ensures
        match msg {
            QueryMsg::GetUserStatus { user_address } => get_user_status_ensures(state@, user_address, validate, nft_info, r),
        },
{
    match msg {
        QueryMsg::GetUserStatus { user_address } => get_user_status(state, user_address, validate, nft_info),
    }
}

/// Runs an executable message: checking in a received ticket, instantiating
/// the ticket contract, or buying a ticket.
pub fn execute<P: Fn(Vec<u8>) -> Result<ReceiveNftMsg, StdError>, V: Fn(String) -> Result<String, StdError>>(
    state: &mut HubState,
    env: &Env,
    info: &MessageInfo,
    msg: ExecuteMsg,
    parse: P,
    validate: V,
) -> (r: Result<Response, ContractError>)
    requires
        forall|b: Vec<u8>| parse.requires((b,)),
        forall|a: String| validate.requires((a,)),
    ensures
        match msg {
            ExecuteMsg::ReceiveNft(wrapper) => receive_nft_ensures(
                old(state)@,
                final(state)@,
                env.block_height,
                *info,
                wrapper,
                parse,
                validate,
                r,
            ),
            ExecuteMsg::InitTicketContract { code_id, name, symbol } => final(state)@ == old(state)@
                && result_view(r) == init_ticket_spec(old(state)@, *env, info.sender@, code_id, name@, symbol@),
            ExecuteMsg::BuyTicket { package_option } => (final(state)@, result_view(r)) == buy_ticket_spec(
                old(state)@,
                *info,
                package_option,
            ),
        },
{
    match msg {
        ExecuteMsg::ReceiveNft(receive_nft_msg) => execute_receive_nft(
            state,
            env.block_height,
            info,
            receive_nft_msg,
            parse,
            validate,
        ),
        ExecuteMsg::InitTicketContract { code_id, name, symbol } => execute_init_ticket(
            state,
            env,
            &info.sender,
            code_id,
            name,
            symbol,
        ),
        ExecuteMsg::BuyTicket { package_option } => execute_buy_ticket(state, info, env, package_option),
    }
}

} // verus!
