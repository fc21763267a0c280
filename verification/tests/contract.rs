use hub::contract::{
    execute, execute_buy_ticket, execute_init_ticket, execute_receive_nft, get_user_status, instantiate, query,
    reply, use_ticket, user_status_from_nft_info,
};
use hub::error::{ContractError, StdError};
use hub::msg::{
    Coin, Cw721ReceiveMsg, Env, ExecuteMsg, InstantiateMsg, MessageInfo, NftInfoResponse, QueryMsg, ReceiveNftMsg,
    Reply, SubMsgResult, TicketNftExtension, Trait, UserStatusResponse,
};
use hub::response::{Attribute, CosmosMsg, ReplyOn, Response, SubMsg, TicketNftMsg};
use hub::state::{Configuration, ContractVersion, HubState, TicketInfo};

const CONFIG_MISSING: &str =
    "type: hub::state::Configuration; key: [74, 69, 63, 6B, 65, 74, 5F, 68, 75, 62, 5F, 63, 6F, 6E, 66, 69, 67]";
const TICKER_MISSING: &str = "type: u32; key: [74, 69, 63, 6B, 65, 72]";

fn s(x: &str) -> String {
    x.to_string()
}

fn env() -> Env {
    Env { block_height: 12345, contract_address: s("hub0") }
}

fn info(sender: &str, funds: Vec<Coin>) -> MessageInfo {
    MessageInfo { sender: s(sender), funds }
}

fn ujuno(amount: u128) -> Coin {
    Coin { denom: s("ujuno"), amount }
}

fn accept(a: String) -> Result<String, StdError> {
    Ok(a)
}

fn reject(_a: String) -> Result<String, StdError> {
    Err(StdError::GenericErr { msg: s("Invalid input: address not normalized") })
}

fn parse_use_ticket(_b: Vec<u8>) -> Result<ReceiveNftMsg, StdError> {
    Ok(ReceiveNftMsg::UseTicket {})
}

fn no_query(_a: String, _m: String) -> Result<NftInfoResponse, StdError> {
    panic!("the ticket contract must not be asked")
}

/// Protobuf of an instantiation response naming `addr`.
fn instantiate_data(addr: &str) -> Vec<u8> {
    let mut v = vec![0x0a, addr.len() as u8];
    v.extend_from_slice(addr.as_bytes());
    v
}

fn attr(k: &str, v: &str) -> Attribute {
    Attribute { key: s(k), value: s(v) }
}

fn instantiated() -> HubState {
    let mut st = HubState::new();
    let r = instantiate(&mut st, &env(), &info("creator", vec![]), InstantiateMsg { admin: Some(s("admin")) }, accept);
    assert!(r.is_ok());
    st
}

fn registered() -> HubState {
    let mut st = instantiated();
    let r = reply(
        &mut st,
        &env(),
        Reply { id: 1, result: SubMsgResult::Success { data: Some(instantiate_data("nft01")) } },
        accept,
    );
    assert!(r.is_ok());
    st
}

fn check_in(st: &mut HubState, owner: &str, token: &str) -> Result<Response, ContractError> {
    execute_receive_nft(
        st,
        99,
        &info("nft01", vec![]),
        Cw721ReceiveMsg { sender: s(owner), token_id: s(token), msg: b"{\"use_ticket\":{}}".to_vec() },
        parse_use_ticket,
        accept,
    )
}

#[test]
fn instantiate_makes_sender_admin_by_default() {
    let mut st = HubState::new();
    let r = instantiate(&mut st, &env(), &info("creator", vec![]), InstantiateMsg { admin: None }, accept).unwrap();
    assert_eq!(r.attributes, vec![attr("method", "instantiate"), attr("admin", "creator")]);
    assert!(r.messages.is_empty());
    assert_eq!(st.config, Some(Configuration { admin: s("creator"), ticket_nft_addr: None }));
    assert_eq!(st.ticker, Some(1));
    assert_eq!(
        st.contract_version,
        Some(ContractVersion { contract: s("crates.io:ticket-dapp"), version: s("0.1.0") })
    );
}

#[test]
fn instantiate_uses_given_admin_validated() {
    let mut st = HubState::new();
    let r = instantiate(&mut st, &env(), &info("creator", vec![]), InstantiateMsg { admin: Some(s("Boss")) }, |a: String| {
        Ok(a.to_lowercase())
    })
    .unwrap();
    // the attribute shows the address as given, the configuration the validated one
    assert_eq!(r.attributes, vec![attr("method", "instantiate"), attr("admin", "Boss")]);
    assert_eq!(st.config.unwrap().admin, s("boss"));
}

#[test]
fn instantiate_rejects_invalid_admin() {
    let mut st = HubState::new();
    let r = instantiate(&mut st, &env(), &info("creator", vec![]), InstantiateMsg { admin: None }, reject);
    assert_eq!(
        r,
        Err(ContractError::Std(StdError::GenericErr { msg: s("Invalid input: address not normalized") }))
    );
    assert_eq!(st.config, None);
    assert_eq!(st.ticker, None);
}

#[test]
fn init_ticket_contract_by_admin() {
    let st = instantiated();
    let r = execute_init_ticket(&st, &env(), &s("admin"), 7, s("Tickets"), s("TIX")).unwrap();
    assert_eq!(r.attributes, vec![attr("Innit NFT ticket contract", "innit")]);
    assert_eq!(
        r.messages,
        vec![SubMsg {
            id: 1,
            msg: CosmosMsg::WasmInstantiate {
                admin: None,
                code_id: 7,
                msg: TicketNftMsg::Instantiate { name: s("Tickets"), symbol: s("TIX"), minter: s("hub0") },
                funds: vec![],
                label: s("Nft Ticket Contract"),
            },
            gas_limit: None,
            reply_on: ReplyOn::Success,
        }]
    );
}

#[test]
fn init_ticket_contract_refused_to_others() {
    let st = instantiated();
    let r = execute_init_ticket(&st, &env(), &s("mallory"), 7, s("Tickets"), s("TIX"));
    assert_eq!(r, Err(ContractError::GenericError {}));
}

#[test]
fn init_ticket_contract_before_instantiation() {
    let st = HubState::new();
    let r = execute_init_ticket(&st, &env(), &s("admin"), 7, s("Tickets"), s("TIX"));
    assert_eq!(r, Err(ContractError::Std(StdError::NotFound { kind: s(CONFIG_MISSING) })));
}

#[test]
fn reply_registers_ticket_contract() {
    let mut st = instantiated();
    let r = reply(
        &mut st,
        &env(),
        Reply { id: 1, result: SubMsgResult::Success { data: Some(instantiate_data("nft01")) } },
        accept,
    )
    .unwrap();
    assert_eq!(r.attributes, vec![attr("Instantiated NFT Ticket contract", "Address: nft01")]);
    assert_eq!(st.config, Some(Configuration { admin: s("admin"), ticket_nft_addr: Some(s("nft01")) }));
    // the same reply again answers the same and leaves the same configuration
    let again = reply(
        &mut st,
        &env(),
        Reply { id: 1, result: SubMsgResult::Success { data: Some(instantiate_data("nft01")) } },
        accept,
    )
    .unwrap();
    assert_eq!(again, r);
    assert_eq!(st.config, Some(Configuration { admin: s("admin"), ticket_nft_addr: Some(s("nft01")) }));
}

#[test]
fn reply_with_invalid_contract_address() {
    let mut st = instantiated();
    let r = reply(
        &mut st,
        &env(),
        Reply { id: 1, result: SubMsgResult::Success { data: Some(instantiate_data("nft01")) } },
        reject,
    );
    assert!(matches!(r, Err(ContractError::Std(StdError::GenericErr { .. }))));
    assert_eq!(st.config.unwrap().ticket_nft_addr, None);
}

#[test]
fn reply_without_data_or_failed_is_refused() {
    let mut st = instantiated();
    let r = reply(&mut st, &env(), Reply { id: 1, result: SubMsgResult::Success { data: None } }, accept);
    assert_eq!(r, Err(ContractError::GenericError {}));
    let r = reply(&mut st, &env(), Reply { id: 1, result: SubMsgResult::Failure { error: s("out of gas") } }, accept);
    assert_eq!(r, Err(ContractError::GenericError {}));
    // a field other than the address
    let r = reply(&mut st, &env(), Reply { id: 1, result: SubMsgResult::Success { data: Some(vec![0x12, 1, b'x']) } }, accept);
    assert_eq!(r, Err(ContractError::GenericError {}));
    assert_eq!(st.config.unwrap().ticket_nft_addr, None);
}

#[test]
fn reply_before_instantiation() {
    let mut st = HubState::new();
    let r = reply(
        &mut st,
        &env(),
        Reply { id: 1, result: SubMsgResult::Success { data: Some(instantiate_data("nft01")) } },
        accept,
    );
    assert_eq!(r, Err(ContractError::Std(StdError::NotFound { kind: s(CONFIG_MISSING) })));
}

#[test]
fn reply_to_mint() {
    let mut st = registered();
    let r = reply(&mut st, &env(), Reply { id: 2, result: SubMsgResult::Success { data: Some(vec![]) } }, accept)
        .unwrap();
    assert_eq!(r.attributes, vec![attr("Mint Ticket", "Success")]);
    let r = reply(&mut st, &env(), Reply { id: 2, result: SubMsgResult::Success { data: None } }, accept);
    assert_eq!(r, Err(ContractError::GenericError {}));
    let r = reply(&mut st, &env(), Reply { id: 3, result: SubMsgResult::Success { data: Some(vec![]) } }, accept);
    assert_eq!(r, Err(ContractError::GenericError {}));
}

fn mint(nft: &str, holder: &str, id: u32, token: &str, package: u8) -> SubMsg {
    SubMsg {
        id: 2,
        msg: CosmosMsg::WasmExecute {
            contract_addr: s(nft),
            msg: TicketNftMsg::Mint {
                count: id,
                token_id: s(token),
                owner: s(holder),
                token_uri: None,
                package_option: package,
                ticket_holder: s(holder),
            },
            funds: vec![],
        },
        gas_limit: None,
        reply_on: ReplyOn::Success,
    }
}

#[test]
fn buy_each_package() {
    let mut st = registered();
    let r = execute_buy_ticket(&mut st, &info("alice", vec![ujuno(1_000_000)]), &env(), 1).unwrap();
    assert_eq!(r.messages, vec![mint("nft01", "alice", 1, "1", 1)]);
    assert!(r.attributes.is_empty());
    let r = execute_buy_ticket(&mut st, &info("bob", vec![ujuno(5_000_000)]), &env(), 2).unwrap();
    assert_eq!(r.messages, vec![mint("nft01", "bob", 2, "2", 2)]);
    let r = execute_buy_ticket(&mut st, &info("carol", vec![ujuno(12_000_000)]), &env(), 3).unwrap();
    assert_eq!(r.messages, vec![mint("nft01", "carol", 3, "3", 3)]);
    assert_eq!(st.ticker, Some(4));
}

#[test]
fn buy_with_too_little_pays_invalid_payment_and_still_counts() {
    let mut st = registered();
    let r = execute_buy_ticket(&mut st, &info("alice", vec![ujuno(4_999_999)]), &env(), 2);
    assert_eq!(r, Err(ContractError::InvalidPayment {}));
    assert_eq!(st.ticker, Some(2));
}

#[test]
fn buy_checks_first_coin_of_the_denomination() {
    let mut st = registered();
    let r = execute_buy_ticket(&mut st, &info("alice", vec![ujuno(1), ujuno(1_000_000)]), &env(), 1);
    assert_eq!(r, Err(ContractError::InvalidPayment {}));
}

#[test]
fn buy_with_wrong_denomination() {
    let mut st = registered();
    let r = execute_buy_ticket(&mut st, &info("alice", vec![Coin { denom: s("uatom"), amount: 1_000_000 }]), &env(), 1);
    assert_eq!(r, Err(ContractError::InvalidPayment {}));
}

#[test]
fn buy_with_two_coins_is_refused() {
    let mut st = registered();
    let funds = vec![ujuno(1_000_000), Coin { denom: s("uatom"), amount: 5 }];
    let r = execute_buy_ticket(&mut st, &info("alice", funds), &env(), 1);
    assert_eq!(r, Err(ContractError::GenericError {}));
}

#[test]
fn buy_unknown_package_is_refused() {
    let mut st = registered();
    let r = execute_buy_ticket(&mut st, &info("alice", vec![ujuno(50_000_000)]), &env(), 4);
    assert_eq!(r, Err(ContractError::GenericError {}));
    let r = execute_buy_ticket(&mut st, &info("alice", vec![ujuno(50_000_000)]), &env(), 0);
    assert_eq!(r, Err(ContractError::GenericError {}));
}

#[test]
fn buy_before_ticket_contract_is_refused() {
    let mut st = instantiated();
    let r = execute_buy_ticket(&mut st, &info("alice", vec![ujuno(1_000_000)]), &env(), 1);
    assert_eq!(r, Err(ContractError::GenericError {}));
    assert_eq!(st.ticker, Some(1));
}

#[test]
fn buy_before_instantiation() {
    let mut st = HubState::new();
    let r = execute_buy_ticket(&mut st, &info("alice", vec![ujuno(1_000_000)]), &env(), 1);
    assert_eq!(r, Err(ContractError::Std(StdError::NotFound { kind: s(CONFIG_MISSING) })));
    let mut st = registered();
    st.ticker = None;
    let r = execute_buy_ticket(&mut st, &info("alice", vec![ujuno(1_000_000)]), &env(), 1);
    assert_eq!(r, Err(ContractError::Std(StdError::NotFound { kind: s(TICKER_MISSING) })));
}

#[test]
fn ticker_wraps_to_one() {
    let mut st = registered();
    st.ticker = Some(u32::MAX - 1);
    let r = execute_buy_ticket(&mut st, &info("alice", vec![ujuno(1_000_000)]), &env(), 1).unwrap();
    assert_eq!(r.messages, vec![mint("nft01", "alice", u32::MAX - 1, "4294967294", 1)]);
    assert_eq!(st.ticker, Some(1));
}

#[test]
fn successive_purchases_mint_distinct_tickets() {
    let mut st = registered();
    st.ticker = Some(41);
    let a = execute_buy_ticket(&mut st, &info("alice", vec![ujuno(1_000_000)]), &env(), 1).unwrap();
    let b = execute_buy_ticket(&mut st, &info("alice", vec![ujuno(1_000_000)]), &env(), 1).unwrap();
    assert_eq!(a.messages, vec![mint("nft01", "alice", 41, "41", 1)]);
    assert_eq!(b.messages, vec![mint("nft01", "alice", 42, "42", 1)]);
}

#[test]
fn check_in_records_and_burns() {
    let mut st = registered();
    let r = check_in(&mut st, "alice", "17").unwrap();
    assert_eq!(
        r.messages,
        vec![SubMsg {
            id: 0,
            msg: CosmosMsg::WasmExecute {
                contract_addr: s("nft01"),
                msg: TicketNftMsg::Burn { token_id: s("17") },
                funds: vec![],
            },
            gas_limit: None,
            reply_on: ReplyOn::Never,
        }]
    );
    assert!(r.attributes.is_empty());
    assert_eq!(st.used_tickets.len(), 1);
    let e = st.used_tickets.entry(0);
    assert_eq!((e.user.as_str(), e.ticket_id.as_str()), ("alice", "17"));
    assert_eq!(e.info, TicketInfo { ticket_id: s("17"), block_used: 99 });
}

#[test]
fn ticket_checks_in_once() {
    let mut st = registered();
    check_in(&mut st, "alice", "17").unwrap();
    let r = check_in(&mut st, "bob", "17");
    assert_eq!(r, Err(ContractError::GenericError {}));
    let r = check_in(&mut st, "alice", "17");
    assert_eq!(r, Err(ContractError::GenericError {}));
    assert_eq!(st.used_tickets.len(), 1);
}

#[test]
fn second_ticket_of_a_user_is_refused() {
    let mut st = registered();
    check_in(&mut st, "alice", "1").unwrap();
    let r = check_in(&mut st, "alice", "2");
    assert_eq!(r, Err(ContractError::AlreadyUsed {}));
    assert_eq!(st.used_tickets.count_for_user(&s("alice")), 1);
    assert_eq!(st.used_tickets.len(), 1);
    check_in(&mut st, "bob", "2").unwrap();
    assert_eq!(st.used_tickets.count_for_user(&s("bob")), 1);
}

#[test]
fn check_in_only_from_ticket_contract() {
    let mut st = registered();
    let r = execute_receive_nft(
        &mut st,
        99,
        &info("fake-nft", vec![]),
        Cw721ReceiveMsg { sender: s("alice"), token_id: s("1"), msg: vec![] },
        parse_use_ticket,
        accept,
    );
    assert_eq!(r, Err(ContractError::GenericError {}));
    assert_eq!(st.used_tickets.len(), 0);
}

#[test]
fn check_in_with_unparsable_message() {
    let mut st = registered();
    let r = execute_receive_nft(
        &mut st,
        99,
        &info("nft01", vec![]),
        Cw721ReceiveMsg { sender: s("alice"), token_id: s("1"), msg: b"{}".to_vec() },
        |_b: Vec<u8>| Err(StdError::ParseErr { target_type: s("ReceiveNftMsg"), msg: s("expected value") }),
        accept,
    );
    assert_eq!(
        r,
        Err(ContractError::Std(StdError::ParseErr { target_type: s("ReceiveNftMsg"), msg: s("expected value") }))
    );
}

#[test]
fn check_in_with_invalid_owner() {
    let mut st = registered();
    let r = execute_receive_nft(
        &mut st,
        99,
        &info("nft01", vec![]),
        Cw721ReceiveMsg { sender: s("A"), token_id: s("1"), msg: vec![] },
        parse_use_ticket,
        reject,
    );
    assert!(matches!(r, Err(ContractError::Std(StdError::GenericErr { .. }))));
    assert_eq!(st.used_tickets.len(), 0);
}

#[test]
fn check_in_before_instantiation() {
    let mut st = HubState::new();
    let r = check_in(&mut st, "alice", "1");
    assert_eq!(r, Err(ContractError::Std(StdError::NotFound { kind: s(CONFIG_MISSING) })));
}

#[test]
fn use_ticket_keeps_ticket_ids_unique() {
    let mut st = registered();
    use_ticket(&mut st, 5, s("alice"), s("9"), s("nft01")).unwrap();
    let r = use_ticket(&mut st, 6, s("bob"), s("9"), s("nft01"));
    assert_eq!(
        r,
        Err(ContractError::Std(StdError::GenericErr { msg: s("Violates unique constraint on index") }))
    );
    // the same key may be written again
    use_ticket(&mut st, 7, s("alice"), s("9"), s("nft01")).unwrap();
    assert_eq!(st.used_tickets.len(), 1);
    assert_eq!(st.used_tickets.entry(0).info.block_used, 7);
}

fn vip_info(contract: String, msg: String) -> Result<NftInfoResponse, StdError> {
    assert_eq!(contract, "nft01");
    let token = msg.trim_start_matches("NftInfo { token_id: ").trim_end_matches(" }").to_string();
    Ok(NftInfoResponse {
        extension: Some(TicketNftExtension {
            attributes: Some(vec![
                Trait { trait_type: s("package"), value: s("VIP") },
                Trait { trait_type: s("token"), value: token },
            ]),
        }),
    })
}

#[test]
fn status_of_user_without_tickets() {
    let st = registered();
    let r = get_user_status(&st, s("alice"), accept, no_query).unwrap();
    assert_eq!(r, UserStatusResponse { checked_in: false, ticket_data: None });
}

#[test]
fn status_after_check_in() {
    let mut st = registered();
    check_in(&mut st, "alice", "17").unwrap();
    let r = get_user_status(&st, s("alice"), accept, |a: String, m: String| {
        assert_eq!(m, "NftInfo { token_id: 17 }");
        vip_info(a, m)
    })
    .unwrap();
    assert_eq!(
        r,
        UserStatusResponse { checked_in: true, ticket_data: Some(vec![s("package: VIP"), s("token: 17")]) }
    );
}

#[test]
fn status_reads_first_ticket_in_key_order() {
    let mut st = registered();
    use_ticket(&mut st, 5, s("alice"), s("9"), s("nft01")).unwrap();
    use_ticket(&mut st, 6, s("alice"), s("10"), s("nft01")).unwrap();
    let r = get_user_status(&st, s("alice"), accept, vip_info).unwrap();
    assert_eq!(r.ticket_data, Some(vec![s("package: VIP"), s("token: 10")]));
}

#[test]
fn status_without_metadata() {
    let mut st = registered();
    check_in(&mut st, "alice", "17").unwrap();
    let missing = Err(StdError::GenericErr { msg: s("Should always have metadata") });
    let r = get_user_status(&st, s("alice"), accept, |_a: String, _m: String| Ok(NftInfoResponse { extension: None }));
    assert_eq!(r, missing);
    let r = get_user_status(&st, s("alice"), accept, |_a: String, _m: String| {
        Ok(NftInfoResponse { extension: Some(TicketNftExtension { attributes: None }) })
    });
    assert_eq!(r, missing);
}

#[test]
fn status_passes_query_errors_on() {
    let mut st = registered();
    check_in(&mut st, "alice", "17").unwrap();
    let r = get_user_status(&st, s("alice"), accept, |_a: String, _m: String| {
        Err(StdError::GenericErr { msg: s("Querier system error") })
    });
    assert_eq!(r, Err(StdError::GenericErr { msg: s("Querier system error") }));
}

#[test]
fn status_before_ticket_contract() {
    let st = instantiated();
    let r = get_user_status(&st, s("alice"), accept, no_query);
    assert_eq!(r, Err(StdError::GenericErr { msg: s("Error checking for user") }));
    let st = HubState::new();
    let r = get_user_status(&st, s("alice"), accept, no_query);
    assert_eq!(r, Err(StdError::NotFound { kind: s(CONFIG_MISSING) }));
}

#[test]
fn status_of_invalid_wallet() {
    let st = registered();
    let r = get_user_status(&st, s("A"), reject, no_query);
    assert!(matches!(r, Err(StdError::GenericErr { .. })));
}

#[test]
fn status_from_empty_trait_list() {
    let r = user_status_from_nft_info(NftInfoResponse {
        extension: Some(TicketNftExtension { attributes: Some(vec![]) }),
    });
    assert_eq!(r, Ok(UserStatusResponse { checked_in: true, ticket_data: Some(vec![]) }));
}

#[test]
fn query_dispatches_to_user_status() {
    let mut st = registered();
    check_in(&mut st, "bob", "3").unwrap();
    let r = query(&st, &env(), QueryMsg::GetUserStatus { user_address: s("bob") }, accept, vip_info).unwrap();
    assert_eq!(r.checked_in, true);
}

#[test]
fn execute_dispatches_each_message() {
    let mut st = instantiated();
    let r = execute(
        &mut st,
        &env(),
        &info("admin", vec![]),
        ExecuteMsg::InitTicketContract { code_id: 3, name: s("T"), symbol: s("T") },
        parse_use_ticket,
        accept,
    )
    .unwrap();
    assert_eq!(r.messages.len(), 1);
    reply(&mut st, &env(), Reply { id: 1, result: SubMsgResult::Success { data: Some(instantiate_data("nft01")) } }, accept)
        .unwrap();
    let r = execute(
        &mut st,
        &env(),
        &info("alice", vec![ujuno(10_000_000)]),
        ExecuteMsg::BuyTicket { package_option: 3 },
        parse_use_ticket,
        accept,
    )
    .unwrap();
    assert_eq!(r.messages, vec![mint("nft01", "alice", 1, "1", 3)]);
    let r = execute(
        &mut st,
        &Env { block_height: 777, contract_address: s("hub0") },
        &info("nft01", vec![]),
        ExecuteMsg::ReceiveNft(Cw721ReceiveMsg { sender: s("alice"), token_id: s("1"), msg: vec![] }),
        parse_use_ticket,
        accept,
    );
    assert!(r.is_ok());
    assert_eq!(st.used_tickets.entry(0).info, TicketInfo { ticket_id: s("1"), block_used: 777 });
}
