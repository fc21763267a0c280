//! What holds of the hub across calls: the ticket counter's range, the
//! uniqueness of used tickets, the per-user limit of check-ins, and what one
//! entry point lets the next one do.

use vstd::prelude::*;
use vstd::set_lib::*;
use crate::contract::{
    buy_ticket_spec, init_ticket_spec, instantiate_spec, next_ticker, package_price, receive_nft_spec,
    status_from_nft_info, ticket_contract_reply_spec, ticket_price_denom, use_ticket_spec,
};
use crate::error::{ContractErrorView, StdErrorView};
use crate::msg::{Cw721ReceiveMsg, Env, InstantiateMsg, MessageInfo, NftInfoResponse, ReceiveNftMsg};
use crate::response::{CosmosMsgView, ReplyOn, ResponseView, SubMsgView, TicketNftMsgView};
use crate::state::{
    first_record_of, first_ticket_of, ticket_id_in_use, tickets_of, unique_ticket_ids, violates_unique,
    ConfigurationView, HubStateView, TicketInfoView, UsedMap,
};
use crate::text::{decimal, lemma_text_lt_total, lemma_text_lt_transitive, text_lt};
use crate::utils::mint_submsg_view;

verus! {

/// The ticket counter, once saved, lies in 1..=u32::MAX - 1.
pub open spec fn ticker_in_range(s: HubStateView) -> bool {
    s.ticker matches Some(t) ==> 1 <= t <= u32::MAX - 1
}

/// Instantiation starts the counter in range, and a purchase keeps it there,
/// whether it succeeds or fails.
pub proof fn law_ticker_stays_in_range(
    s: HubStateView,
    info: MessageInfo,
    msg: InstantiateMsg,
    admin_check: Result<Seq<char>, StdErrorView>,
    package_option: u8,
)
    requires
        ticker_in_range(s),
    ensures
        ticker_in_range(instantiate_spec(s, info, msg, admin_check).0),
        ticker_in_range(buy_ticket_spec(s, info, package_option).0),
{
}

/// Two successive successful purchases mint tickets numbered by the counter
/// and its successor, which differ.
pub proof fn law_successive_purchases_mint_distinct_tickets(
    s: HubStateView,
    first: MessageInfo,
    first_option: u8,
    second: MessageInfo,
    second_option: u8,
)
    requires
        ticker_in_range(s),
        buy_ticket_spec(s, first, first_option).1 is Ok,
        buy_ticket_spec(buy_ticket_spec(s, first, first_option).0, second, second_option).1 is Ok,
    ensures
        ({
            let t = s.ticker->0;
            let nft = s.config->0.ticket_nft_addr->0;
            let after = buy_ticket_spec(s, first, first_option);
            &&& after.1->Ok_0.messages == seq![mint_submsg_view(nft, first.sender@, t, first_option)]
            &&& buy_ticket_spec(after.0, second, second_option).1->Ok_0.messages == seq![
                mint_submsg_view(nft, second.sender@, next_ticker(t), second_option),
            ]
            &&& t != next_ticker(t)
        }),
{
}

/// Once the ticket contract is registered, a purchase of a listed package
/// paid with one coin of at least its price in the ticket denomination
/// succeeds.
pub proof fn law_registered_contract_sells(
    s: HubStateView,
    addr: Seq<char>,
    info: MessageInfo,
    package_option: u8,
)
    requires
        ticket_contract_reply_spec(s, Ok(addr)).1 is Ok,
        s.ticker is Some,
        package_price(package_option) is Some,
        info.funds@.len() == 1,
        info.funds@[0].denom@ == ticket_price_denom(),
        info.funds@[0].amount >= package_price(package_option)->0,
    ensures
        buy_ticket_spec(ticket_contract_reply_spec(s, Ok(addr)).0, info, package_option).1 is Ok,
{
    let f = info.funds@;
    assert(f[0].denom@ == ticket_price_denom() && (forall|j: int| 0 <= j < 0 ==> f[j].denom@
        != ticket_price_denom()) && f[0].amount >= package_price(package_option)->0);
}

/// Only the admin can have the ticket contract instantiated, and asking
/// never changes storage.
pub proof fn law_only_admin_inits(
    s: HubStateView,
    env: Env,
    sender: Seq<char>,
    code_id: u64,
    name: Seq<char>,
    symbol: Seq<char>,
)
    requires
        init_ticket_spec(s, env, sender, code_id, name, symbol) is Ok,
    ensures
        s.config->0.admin == sender,
{
}

/// A refused check-in leaves storage as it was; an accepted one comes from
/// the registered ticket contract and records exactly the checked-in
/// ticket.
pub proof fn law_check_in_outcomes(
    s: HubStateView,
    block: u64,
    info: MessageInfo,
    wrapper: Cw721ReceiveMsg,
    msg: ReceiveNftMsg,
    user_check: Result<Seq<char>, StdErrorView>,
)
    ensures
        ({
            let (s1, r) = receive_nft_spec(s, block, info, wrapper, msg, user_check);
            &&& r is Err ==> s1 == s
            &&& r is Ok ==> {
                &&& s.config->0.ticket_nft_addr == Some(info.sender@)
                &&& user_check is Ok
                &&& s1 == HubStateView {
                    used: s.used.insert(
                        (user_check->Ok_0, wrapper.token_id@),
                        TicketInfoView { ticket_id: wrapper.token_id@, block_used: block },
                    ),
                    ..s
                }
            }
        }),
{
    let key = (user_check->Ok_0, wrapper.token_id@);
    let info_v = TicketInfoView { ticket_id: wrapper.token_id@, block_used: block };
    if !ticket_id_in_use(s.used, wrapper.token_id@) && violates_unique(s.used, key, info_v) {
        let k = choose|k: (Seq<char>, Seq<char>)| #![trigger s.used[k]] s.used.dom().contains(k) && k != key && s.used[k].ticket_id == info_v.ticket_id;
        assert(s.used.dom().contains(k) && s.used[k].ticket_id == wrapper.token_id@);
    }
}

/// A ticket that was checked in cannot be checked in again: any later
/// attempt with the same token, by anyone, fails.
pub proof fn law_ticket_checks_in_once(
    s: HubStateView,
    block: u64,
    info: MessageInfo,
    wrapper: Cw721ReceiveMsg,
    msg: ReceiveNftMsg,
    user_check: Result<Seq<char>, StdErrorView>,
    later_block: u64,
    later_info: MessageInfo,
    later_wrapper: Cw721ReceiveMsg,
    later_msg: ReceiveNftMsg,
    later_check: Result<Seq<char>, StdErrorView>,
)
    requires
        receive_nft_spec(s, block, info, wrapper, msg, user_check).1 is Ok,
        later_wrapper.token_id@ == wrapper.token_id@,
    ensures
        ({
            let s1 = receive_nft_spec(s, block, info, wrapper, msg, user_check).0;
            let (s2, r2) = receive_nft_spec(s1, later_block, later_info, later_wrapper, later_msg, later_check);
            &&& r2 is Err
            &&& s2 == s1
            &&& (later_check is Ok && s1.config->0.ticket_nft_addr == Some(later_info.sender@)) ==> r2
                == Err::<ResponseView, ContractErrorView>(ContractErrorView::GenericError)
        }),
{
    law_check_in_outcomes(s, block, info, wrapper, msg, user_check);
    let s1 = receive_nft_spec(s, block, info, wrapper, msg, user_check).0;
    let key = (user_check->Ok_0, wrapper.token_id@);
    assert(s1.used.dom().contains(key) && s1.used[key].ticket_id == later_wrapper.token_id@);
    assert(ticket_id_in_use(s1.used, later_wrapper.token_id@));
}

/// Recording a used ticket keeps the ticket ids of the records distinct.
pub proof fn law_use_ticket_keeps_ids_unique(
    s: HubStateView,
    block_used: u64,
    user: Seq<char>,
    ticket_id: Seq<char>,
    nft_contract: Seq<char>,
)
    requires
        unique_ticket_ids(s.used),
    ensures
        unique_ticket_ids(use_ticket_spec(s, block_used, user, ticket_id, nft_contract).0.used),
{
    let key = (user, ticket_id);
    let info = TicketInfoView { ticket_id, block_used };
    if !violates_unique(s.used, key, info) {
        let m = s.used.insert(key, info);
        assert forall|k1: (Seq<char>, Seq<char>), k2: (Seq<char>, Seq<char>)|
            m.dom().contains(k1) && m.dom().contains(k2) && k1 != k2 implies #[trigger] m[k1].ticket_id
                != #[trigger] m[k2].ticket_id by {
            if k1 == key {
                assert(s.used.dom().contains(k2) && k2 != key);
                if s.used[k2].ticket_id == info.ticket_id {
                    assert(violates_unique(s.used, key, info));
                }
            } else if k2 == key {
                assert(s.used.dom().contains(k1) && k1 != key);
                if s.used[k1].ticket_id == info.ticket_id {
                    assert(violates_unique(s.used, key, info));
                }
            } else {
                assert(s.used[k1] == m[k1] && s.used[k2] == m[k2]);
            }
        }
    }
}

/// The ticket ids of one user's records form a finite set when the record
/// does.
pub proof fn lemma_tickets_of_finite(m: UsedMap, user: Seq<char>)
    requires
        m.dom().finite(),
    ensures
        tickets_of(m, user).finite(),
{
    let ids = m.dom().map(|k: (Seq<char>, Seq<char>)| k.1);
    m.dom().lemma_map_finite(|k: (Seq<char>, Seq<char>)| k.1);
    assert(tickets_of(m, user).subset_of(ids)) by {
        assert forall|t: Seq<char>| tickets_of(m, user).contains(t) implies ids.contains(t) by {
            assert(m.dom().contains((user, t)));
            assert((user, t).1 == t);
        }
    }
    lemma_set_subset_finite(ids, tickets_of(m, user));
}

/// No user has more than one record.
pub open spec fn at_most_one_per_user(m: UsedMap) -> bool {
    forall|u: Seq<char>| #[trigger] tickets_of(m, u).len() <= 1
}

/// A user checks in with at most one ticket: a check-in never gives a user a
/// second used ticket.
pub proof fn law_check_in_keeps_one_ticket_per_user(
    s: HubStateView,
    block: u64,
    info: MessageInfo,
    wrapper: Cw721ReceiveMsg,
    msg: ReceiveNftMsg,
    user_check: Result<Seq<char>, StdErrorView>,
)
    requires
        s.used.dom().finite(),
        at_most_one_per_user(s.used),
    ensures
        receive_nft_spec(s, block, info, wrapper, msg, user_check).0.used.dom().finite(),
        at_most_one_per_user(receive_nft_spec(s, block, info, wrapper, msg, user_check).0.used),
{
    law_check_in_outcomes(s, block, info, wrapper, msg, user_check);
    let (s1, r) = receive_nft_spec(s, block, info, wrapper, msg, user_check);
    if r is Ok {
        let user = user_check->Ok_0;
        let t = wrapper.token_id@;
        let m1 = s1.used;
        assert forall|u: Seq<char>| #[trigger] tickets_of(m1, u).len() <= 1 by {
            lemma_tickets_of_finite(s.used, u);
            if u == user {
                assert(tickets_of(s.used, u).len() == 0);
                tickets_of(s.used, u).lemma_len0_is_empty();
                assert(tickets_of(m1, u) =~= Set::<Seq<char>>::empty().insert(t));
            } else {
                assert(tickets_of(m1, u) =~= tickets_of(s.used, u));
            }
        }
    }
}

/// A user who already used a ticket is refused with `AlreadyUsed` when
/// checking in another one from the ticket contract, and storage stays as it
/// was.
pub proof fn law_used_ticket_holder_is_refused(
    s: HubStateView,
    block: u64,
    info: MessageInfo,
    wrapper: Cw721ReceiveMsg,
    msg: ReceiveNftMsg,
    user: Seq<char>,
    used: Seq<char>,
)
    requires
        s.used.dom().finite(),
        s.used.dom().contains((user, used)),
        s.config matches Some(c) && c.ticket_nft_addr == Some(info.sender@),
        !ticket_id_in_use(s.used, wrapper.token_id@),
    ensures
        receive_nft_spec(s, block, info, wrapper, msg, Ok(user))
            == (s, Err::<ResponseView, ContractErrorView>(ContractErrorView::AlreadyUsed)),
{
    lemma_tickets_of_finite(s.used, user);
    assert(tickets_of(s.used, user).contains(used));
}

/// The reply that names the ticket contract answers the same when it comes
/// again with an address that checks the same: the configuration it leaves is
/// the one the first reply left, and the response is the same.
pub proof fn law_ticket_contract_reply_repeats(s: HubStateView, addr_check: Result<Seq<char>, StdErrorView>)
    requires
        ticket_contract_reply_spec(s, addr_check).1 is Ok,
    ensures
        ({
            let (s1, r1) = ticket_contract_reply_spec(s, addr_check);
            ticket_contract_reply_spec(s1, addr_check) == (s1, r1)
        }),
{
}

/// A finite, non-empty set of texts has a first element in code point order.
pub proof fn lemma_first_text_exists(s: Set<Seq<char>>) -> (t: Seq<char>)
    requires
        s.finite(),
        s.len() > 0,
    ensures
        s.contains(t),
        forall|t2: Seq<char>| s.contains(t2) && t2 != t ==> text_lt(t, t2),
    decreases s.len(),
{
    let x = s.choose();
    let rest = s.remove(x);
    if rest.len() == 0 {
        assert forall|t2: Seq<char>| s.contains(t2) && t2 != x implies text_lt(x, t2) by {
            assert(rest.contains(t2));
        }
        x
    } else {
        let y = lemma_first_text_exists(rest);
        if text_lt(x, y) {
            assert forall|t2: Seq<char>| s.contains(t2) && t2 != x implies text_lt(x, t2) by {
                if t2 != y {
                    assert(rest.contains(t2));
                    lemma_text_lt_transitive(x, y, t2);
                }
            }
            x
        } else {
            lemma_text_lt_total(x, y);
            assert forall|t2: Seq<char>| s.contains(t2) && t2 != y implies text_lt(y, t2) by {
                if t2 != x {
                    assert(rest.contains(t2));
                }
            }
            y
        }
    }
}

/// After a user checks in, the user has a first used ticket, so the status
/// query asks the ticket contract about it instead of reporting the user as
/// not checked in.
pub proof fn law_checked_in_user_has_status(
    s: HubStateView,
    block: u64,
    info: MessageInfo,
    wrapper: Cw721ReceiveMsg,
    msg: ReceiveNftMsg,
    user_check: Result<Seq<char>, StdErrorView>,
)
    requires
        s.used.dom().finite(),
        receive_nft_spec(s, block, info, wrapper, msg, user_check).1 is Ok,
    ensures
        first_record_of(receive_nft_spec(s, block, info, wrapper, msg, user_check).0.used, user_check->Ok_0)
            is Some,
{
    law_check_in_outcomes(s, block, info, wrapper, msg, user_check);
    let s1 = receive_nft_spec(s, block, info, wrapper, msg, user_check).0;
    let user = user_check->Ok_0;
    let t0 = wrapper.token_id@;
    lemma_tickets_of_finite(s1.used, user);
    assert(tickets_of(s1.used, user).contains(t0));
    let t = lemma_first_text_exists(tickets_of(s1.used, user));
    assert(first_ticket_of(s1.used, user, t));
}

/// The response of a successful purchase: one sub-message, replied to under
/// id 2, that asks the ticket contract `nft` to mint ticket number `t`
/// (token id `t` in decimal) of package `package_option` to `buyer`.
pub open spec fn mints_ticket(r: ResponseView, nft: Seq<char>, buyer: Seq<char>, t: u32, package_option: u8) -> bool {
    r == ResponseView {
        messages: seq![
            SubMsgView {
                id: 2,
                msg: CosmosMsgView::WasmExecute {
                    contract_addr: nft,
                    msg: TicketNftMsgView::Mint {
                        count: t,
                        token_id: decimal(t as nat),
                        owner: buyer,
                        token_uri: None,
                        package_option,
                        ticket_holder: buyer,
                    },
                    funds: Seq::empty(),
                },
                gas_limit: None,
                reply_on: ReplyOn::Success,
            },
        ],
        attributes: Seq::empty(),
    }
}

/// The price list. On a hub with a registered ticket contract, a purchase
/// paid with a single ujuno coin succeeds exactly when the coin holds the
/// package's price: 1000000 for package 1 (normal), 5000000 for package 2
/// (VIP), 10000000 for package 3 (ultra VIP). Otherwise it fails with
/// `InvalidPayment`; any other package number fails with `GenericError`. A
/// success mints the ticket numbered by the counter to the buyer, on the
/// registered ticket contract, for the package bought.
pub proof fn law_package_prices(s: HubStateView, info: MessageInfo, package_option: u8)
    requires
        s.config matches Some(c) && c.ticket_nft_addr is Some,
        s.ticker is Some,
        info.funds@.len() == 1,
        info.funds@[0].denom@ == "ujuno"@,
    ensures
        ({
            let r = buy_ticket_spec(s, info, package_option).1;
            let paid = info.funds@[0].amount;
            let price: u128 = if package_option == 1 {
                1000000u128
            } else if package_option == 2 {
                5000000u128
            } else {
                10000000u128
            };
            &&& (package_option < 1 || package_option > 3) ==> r == Err::<ResponseView, ContractErrorView>(
                ContractErrorView::GenericError,
            )
            &&& (1 <= package_option <= 3 && paid < price) ==> r == Err::<ResponseView, ContractErrorView>(
                ContractErrorView::InvalidPayment,
            )
            &&& (1 <= package_option <= 3 && paid >= price) ==> r is Ok && mints_ticket(
                r->Ok_0,
                s.config->0.ticket_nft_addr->0,
                info.sender@,
                s.ticker->0,
                package_option,
            )
        }),
{
    let f = info.funds@;
    if 1 <= package_option <= 3 {
        let p = package_price(package_option)->0;
        if f[0].amount >= p {
            assert(f[0].denom@ == ticket_price_denom() && (forall|j: int| 0 <= j < 0 ==> f[j].denom@
                != ticket_price_denom()) && f[0].amount >= p);
        }
    }
}

/// A user who has no used ticket checks in any ticket not yet in use, sent
/// by the registered ticket contract, whatever other users have used: the
/// record gains exactly (user, token id) at the block, and the ticket is
/// burnt on the ticket contract.
pub proof fn law_fresh_user_checks_in(
    s: HubStateView,
    block: u64,
    info: MessageInfo,
    wrapper: Cw721ReceiveMsg,
    msg: ReceiveNftMsg,
    user: Seq<char>,
)
    requires
        s.config matches Some(c) && c.ticket_nft_addr == Some(info.sender@),
        !ticket_id_in_use(s.used, wrapper.token_id@),
        forall|t: Seq<char>| !s.used.dom().contains((user, t)),
    ensures
        receive_nft_spec(s, block, info, wrapper, msg, Ok(user)) == (
            HubStateView {
                used: s.used.insert(
                    (user, wrapper.token_id@),
                    TicketInfoView { ticket_id: wrapper.token_id@, block_used: block },
                ),
                ..s
            },
            Ok::<ResponseView, ContractErrorView>(
                ResponseView {
                    messages: seq![
                        SubMsgView {
                            id: 0,
                            msg: CosmosMsgView::WasmExecute {
                                contract_addr: info.sender@,
                                msg: TicketNftMsgView::Burn { token_id: wrapper.token_id@ },
                                funds: Seq::empty(),
                            },
                            gas_limit: None,
                            reply_on: ReplyOn::Never,
                        },
                    ],
                    attributes: Seq::empty(),
                },
            ),
        ),
{
    assert(tickets_of(s.used, user) =~= Set::<Seq<char>>::empty());
    let key = (user, wrapper.token_id@);
    let info_v = TicketInfoView { ticket_id: wrapper.token_id@, block_used: block };
    if violates_unique(s.used, key, info_v) {
        let k = choose|k: (Seq<char>, Seq<char>)|
            #![trigger s.used[k]]
            s.used.dom().contains(k) && k != key && s.used[k].ticket_id == info_v.ticket_id;
        assert(s.used.dom().contains(k) && s.used[k].ticket_id == wrapper.token_id@);
    }
}

/// The reply that names the instantiated ticket contract registers the
/// validated address, replacing any address registered before, keeps the
/// admin, the counter and the used tickets, and logs the address.
pub proof fn law_reply_registers_address(s: HubStateView, addr: Seq<char>)
    requires
        s.config is Some,
    ensures
        ticket_contract_reply_spec(s, Ok(addr)) == (
            HubStateView {
                config: Some(ConfigurationView { admin: s.config->0.admin, ticket_nft_addr: Some(addr) }),
                ..s
            },
            Ok::<ResponseView, ContractErrorView>(
                ResponseView {
                    messages: Seq::empty(),
                    attributes: seq![("Instantiated NFT Ticket contract"@, "Address: "@ + addr)],
                },
            ),
        ),
{
}

/// Asking for the ticket contract succeeds exactly when the hub is configured
/// and the sender is its admin, whether or not a ticket contract is already
/// registered; the answer is one sub-message, replied to under id 1, that
/// instantiates code `code_id` with the given name and symbol and the hub as
/// minter.
pub proof fn law_admin_init_succeeds(
    s: HubStateView,
    env: Env,
    sender: Seq<char>,
    code_id: u64,
    name: Seq<char>,
    symbol: Seq<char>,
)
    ensures
        init_ticket_spec(s, env, sender, code_id, name, symbol) is Ok <==> (s.config matches Some(c) && c.admin
            == sender),
        init_ticket_spec(s, env, sender, code_id, name, symbol) is Ok ==> init_ticket_spec(
            s,
            env,
            sender,
            code_id,
            name,
            symbol,
        )->Ok_0 == (ResponseView {
            messages: seq![
                SubMsgView {
                    id: 1,
                    msg: CosmosMsgView::WasmInstantiate {
                        admin: None,
                        code_id,
                        msg: TicketNftMsgView::Instantiate { name, symbol, minter: env.contract_address@ },
                        funds: Seq::empty(),
                        label: "Nft Ticket Contract"@,
                    },
                    gas_limit: None,
                    reply_on: ReplyOn::Success,
                },
            ],
            attributes: seq![("Innit NFT ticket contract"@, "innit"@)],
        }),
{
}

/// The status read from a ticket's metadata lists every trait of it, in
/// order, as its type, ": " and its value; it fails only where the metadata
/// or its attribute list is missing.
pub proof fn law_status_lists_every_trait(resp: NftInfoResponse)
    ensures
        status_from_nft_info(resp) is Ok <==> (resp.extension matches Some(e) && e.attributes is Some),
        status_from_nft_info(resp) is Ok ==> ({
            let attrs = resp.extension->0.attributes->0@;
            let v = status_from_nft_info(resp)->Ok_0;
            &&& v.checked_in
            &&& v.ticket_data is Some
            &&& v.ticket_data->0.len() == attrs.len()
            &&& forall|i: int|
                0 <= i < attrs.len() ==> #[trigger] v.ticket_data->0[i] == attrs[i].trait_type@ + ": "@
                    + attrs[i].value@
        }),
{
}

} // verus!
