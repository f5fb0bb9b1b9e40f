use vstd::prelude::*;

use crate::error::{ContractError, StdError};
use crate::msg::{
    Coin, CoinView, ExecuteMsg, MessageInfo, MigrateMsg, OutMsg, OutMsgView, QueryAnswer, QueryMsg,
    Response,
};
use crate::state::{read_config, store_config, CanonicalAddr, Config, ConfigStorage};

verus! {

/// The JSON bytes of the swap venue's `Swap` call for a given offered
/// amount and denomination. The exact encoding belongs to the venue's
/// interface crate; this module only promises that it depends on these two
/// values alone.
pub uninterp spec fn swap_call_bytes(amount: u128, offer_denom: Seq<char>) -> Seq<u8>;

/// Relies on `cosmwasm_std::to_json_vec` applied to terraswap's pair
/// `ExecuteMsg::Swap`: the serialized bytes are a function of the offered
/// amount and denomination alone, with `belief_price`, `max_spread`, the
/// recipient and the deadline all left unset. The call cannot fail: the
/// serializer writes JSON into a growable buffer, and this message shape —
/// strings, a string-encoded integer amount and absent options — has no
/// failing or panicking path in it.
#[verifier::external_body]
fn encode_swap_call(amount: u128, offer_denom: String) -> (r: Vec<u8>)
    ensures
        r@ == swap_call_bytes(amount, offer_denom@),
{
    let msg = terraswap::pair::ExecuteMsg::Swap {
        offer_asset: terraswap::asset::Asset {
            info: terraswap::asset::AssetInfo::NativeToken { denom: offer_denom },
            amount: cosmwasm_std::Uint128::new(amount),
        },
        belief_price: None,
        max_spread: None,
        to: None,
        deadline: None,
    };
    cosmwasm_std::to_json_vec(&msg).expect("serializing the venue swap message cannot fail")
}

/// What storage looks like after initialization with `owner`, and what the
/// initialization call returns: the record is written and the response
/// carries no outbound instruction.
pub open spec fn instantiate_post(
    stored_after: Option<Seq<u8>>,
    owner: Seq<u8>,
    r: Result<Response, ContractError>,
) -> bool {
    &&& stored_after == Some(owner)
    &&& r matches Ok(resp) && resp@ == Seq::<OutMsgView>::empty()
}

/// Initialization: writes the config record with the given canonical owner
/// address and instructs the host to do nothing else. There is no
/// authorization check; the host invokes this exactly once, at deployment,
/// on behalf of the deployer.
pub fn instantiate(storage: &mut ConfigStorage, owner: CanonicalAddr) -> (r: Result<
    Response,
    ContractError,
>)
    ensures
        instantiate_post(final(storage)@, owner@, r),
{
    store_config(storage, Config { owner });
    Ok(Response::new())
}

/// The whole withdrawal policy, as a relation between the storage state,
/// the caller, the request fields and the result:
/// - before initialization, the storage error is passed through;
/// - a caller whose canonical address differs from the stored owner is
///   turned away with `Unauthorized`, whatever the request;
/// - the owner with an amount and a denomination gets exactly one bank
///   transfer of that amount and denomination, addressed to the caller;
/// - the owner with an amount but no denomination gets `TokenErr`;
/// - the owner with no amount gets a response with no instruction at all.
pub open spec fn tokens_post(
    stored: Option<Seq<u8>>,
    sender: Seq<char>,
    sender_canonical: Seq<u8>,
    amount: Option<u128>,
    denom: Option<Seq<char>>,
    r: Result<Response, ContractError>,
) -> bool {
    match stored {
        None => r matches Err(ContractError::Std(StdError::NotFound { kind })) && kind@
            == "Config"@,
        Some(owner) => if sender_canonical != owner {
            r matches Err(ContractError::Unauthorized { .. })
        } else {
            match amount {
                Some(a) => match denom {
                    Some(d) => r matches Ok(resp) && resp@ == seq![
                        (OutMsgView::BankSend {
                            to_address: sender,
                            amount: seq![(CoinView { denom: d, amount: a })],
                        }),
                    ],
                    None => r matches Err(ContractError::TokenErr { denom: e }) && e@ == "token"@,
                },
                None => r matches Ok(resp) && resp@ == Seq::<OutMsgView>::empty(),
            }
        },
    }
}

/// Withdrawal: sends `amount` of `denom` from the module's balance to the
/// owner. Only reads the stored config; the one state write of this module
/// happens at initialization.
pub fn tokens(
    storage: &ConfigStorage,
    info: MessageInfo,
    amount: Option<u128>,
    denom: Option<String>,
) -> (r: Result<Response, ContractError>)
    ensures
        tokens_post(
            storage@,
            info.sender@,
            info.sender_canonical@,
            amount,
            denom.deep_view(),
            r,
        ),
{
    let config = match read_config(storage) {
        Ok(c) => c,
        Err(e) => { return Err(ContractError::Std(e)); },
    };
    if !info.sender_canonical.addr_eq(&config.owner) {
        return Err(ContractError::Unauthorized {});
    }
    match amount {
        Some(amount) => match denom {
            Some(denom) => {
                let ghost d = denom@;
                let ghost s = info.sender@;
                let mut coins: Vec<Coin> = Vec::new();
                coins.push(Coin { denom, amount });
                proof {
                    assert(coins.deep_view() =~= seq![(CoinView { denom: d, amount: amount })]);
                }
                let ghost cv = coins.deep_view();
                let mut messages: Vec<OutMsg> = Vec::new();
                messages.push(OutMsg::BankSend { to_address: info.sender, amount: coins });
                let resp = Response { messages };
                proof {
                    assert(resp@ =~= seq![(OutMsgView::BankSend { to_address: s, amount: cv })]);
                }
                Ok(resp)
            },
            None => Err(ContractError::TokenErr { denom: "token".to_owned() }),
        },
        None => Ok(Response::new()),
    }
}

/// The single instruction a swap request produces: one call into the venue
/// at `contract_addr` carrying the encoded swap message and the attached
/// funds.
pub open spec fn swap_forward_msgs(
    contract_addr: Seq<char>,
    msg: Seq<u8>,
    funds: Seq<CoinView>,
) -> Seq<OutMsgView> {
    seq![(OutMsgView::WasmExecute { contract_addr, msg, funds })]
}

/// What a swap request returns, for every input: it always succeeds
/// locally (failure is deferred to the venue at execution time), and the
/// response is exactly one call to the venue offering `amount` of
/// `offer_denom` with the caller's funds attached — a function of those
/// inputs alone.
pub open spec fn swap_post(
    funds: Seq<CoinView>,
    swap_address: Seq<char>,
    amount: u128,
    offer_denom: Seq<char>,
    r: Result<Response, ContractError>,
) -> bool {
    r matches Ok(resp) && resp@ == swap_forward_msgs(
        swap_address,
        swap_call_bytes(amount, offer_denom),
        funds,
    )
}

/// Wraps already-encoded venue call bytes into the response: one call to
/// `swap_address` with `funds` attached, and nothing else.
pub fn build_swap_response(swap_address: String, msg: Vec<u8>, funds: Vec<Coin>) -> (r: Response)
    ensures
        r@ == swap_forward_msgs(swap_address@, msg@, funds.deep_view()),
{
    let ghost expected = swap_forward_msgs(swap_address@, msg@, funds.deep_view());
    let mut messages: Vec<OutMsg> = Vec::new();
    messages.push(OutMsg::WasmExecute { contract_addr: swap_address, msg, funds });
    let resp = Response { messages };
    proof {
        assert(resp@ =~= expected);
    }
    resp
}

/// Swap forwarding: builds one call into the swap venue at `swap_address`,
/// offering `amount` of `offer_denom` and attaching whatever funds the
/// caller sent. Deliberately unauthorized: any caller may route a
/// self-funded swap through this module, and no price or spread limit is
/// set. It always succeeds locally; whether the swap itself goes through is
/// the venue's affair at execution time.
pub fn swap_asset(
    info: MessageInfo,
    swap_address: String,
    amount: u128,
    offer_denom: String,
) -> (r: Result<Response, ContractError>)
    ensures
        swap_post(info.funds.deep_view(), swap_address@, amount, offer_denom@, r),
{
    let message = encode_swap_call(amount, offer_denom);
    Ok(build_swap_response(swap_address, message, info.funds))
}

/// Command dispatch: `Bank` follows the withdrawal policy, `Swap` the swap
/// forwarding policy. No command mutates storage.
pub fn execute(storage: &ConfigStorage, info: MessageInfo, msg: ExecuteMsg) -> (r: Result<
    Response,
    ContractError,
>)
    ensures
        (msg matches ExecuteMsg::Bank { amount, denom } ==> tokens_post(
            storage@,
            info.sender@,
            info.sender_canonical@,
            amount,
            denom.deep_view(),
            r,
        )),
        (msg matches ExecuteMsg::Swap { swap_address, amount, offer_denom } ==> swap_post(
            info.funds.deep_view(),
            swap_address@,
            amount,
            offer_denom@,
            r,
        )),
{
    match msg {
        ExecuteMsg::Bank { amount, denom } => tokens(storage, info, amount, denom),
        ExecuteMsg::Swap { swap_address, amount, offer_denom } => swap_asset(
            info,
            swap_address,
            amount,
            offer_denom,
        ),
    }
}

/// What a query returns: the stored canonical owner for `Config` (or the
/// storage error before initialization), and the constant zero for
/// `ContractValue`.
pub open spec fn query_post(
    stored: Option<Seq<u8>>,
    msg: QueryMsg,
    r: Result<QueryAnswer, StdError>,
) -> bool {
    match msg {
        QueryMsg::Config {  } => match stored {
            Some(owner) => r matches Ok(QueryAnswer::Config { owner: o }) && o@ == owner,
            None => r matches Err(StdError::NotFound { kind }) && kind@ == "Config"@,
        },
        QueryMsg::ContractValue {  } => r matches Ok(QueryAnswer::ContractValue { value })
            && value == 0,
    }
}

/// Read-only query dispatch. The host renders a `Config` answer's canonical
/// owner back to its display form before returning it to the client.
pub fn query(storage: &ConfigStorage, msg: QueryMsg) -> (r: Result<QueryAnswer, StdError>)
    ensures
        query_post(storage@, msg, r),
{
    match msg {
        QueryMsg::Config {  } => match query_config(storage) {
            Ok(owner) => Ok(QueryAnswer::Config { owner }),
            Err(e) => Err(e),
        },
        QueryMsg::ContractValue {  } => match query_contract_value() {
            Ok(value) => Ok(QueryAnswer::ContractValue { value }),
            Err(e) => Err(e),
        },
    }
}

/// The config projection: the stored owner's canonical address, to be
/// rendered to its display form by the host.
pub fn query_config(storage: &ConfigStorage) -> (r: Result<CanonicalAddr, StdError>)
    ensures
        (storage@ matches Some(owner) ==> (r matches Ok(o) && o@ == owner)),
        (storage@ is None ==> (r matches Err(StdError::NotFound { kind }) && kind@ == "Config"@)),
{
    match read_config(storage) {
        Ok(config) => Ok(config.owner),
        Err(e) => Err(e),
    }
}

/// The valuation stub: always zero, an extension point rather than a real
/// valuation.
pub fn query_contract_value() -> (r: Result<u128, StdError>)
    ensures
        r matches Ok(v) && v == 0,
{
    Ok(0)
}

/// The upgrade hook: performs no state transformation and emits nothing; it
/// exists only to satisfy the host's upgrade interface.
pub fn migrate(_msg: MigrateMsg) -> (r: Result<Response, StdError>)
    ensures
        r matches Ok(resp) && resp@ == Seq::<OutMsgView>::empty(),
{
    Ok(Response::new())
}

/// Authorization: once initialized, a withdrawal request with amount and
/// denomination both present fails with `Unauthorized` for every caller
/// whose canonical address differs from the stored owner, and succeeds for
/// the owner.
pub proof fn lemma_withdraw_authorization(
    owner: Seq<u8>,
    sender: Seq<char>,
    sender_canonical: Seq<u8>,
    amount: u128,
    denom: Seq<char>,
    r: Result<Response, ContractError>,
)
    requires
        tokens_post(Some(owner), sender, sender_canonical, Some(amount), Some(denom), r),
    ensures
        sender_canonical != owner ==> r matches Err(ContractError::Unauthorized { .. }),
        sender_canonical == owner ==> r is Ok,
{
}

/// Amount/denomination coupling: a withdrawal that gives an amount but no
/// denomination never succeeds, whoever calls and whatever storage holds;
/// when the owner calls it, the error is `TokenErr`. (A caller other than
/// the owner is turned away with `Unauthorized` before the request fields
/// are looked at.)
pub proof fn lemma_amount_requires_denomination(
    stored: Option<Seq<u8>>,
    sender: Seq<char>,
    sender_canonical: Seq<u8>,
    amount: u128,
    r: Result<Response, ContractError>,
)
    requires
        tokens_post(stored, sender, sender_canonical, Some(amount), None, r),
    ensures
        r is Err,
        (stored == Some(sender_canonical)) ==> (r matches Err(ContractError::TokenErr { denom })
            && denom@ == "token"@),
{
}

/// No-op case: a withdrawal by the owner with no amount succeeds and emits
/// zero outbound instructions, whatever the denomination field holds.
pub proof fn lemma_withdraw_noop(
    owner: Seq<u8>,
    sender: Seq<char>,
    denom: Option<Seq<char>>,
    r: Result<Response, ContractError>,
)
    requires
        tokens_post(Some(owner), sender, owner, None, denom, r),
    ensures
        r matches Ok(resp) && resp@ == Seq::<OutMsgView>::empty(),
{
}

/// Transfer construction: a withdrawal by the owner with amount and
/// denomination present emits exactly one bank transfer of that amount and
/// denomination, addressed to the caller, and nothing else. No execute
/// path writes storage: only initialization does.
pub proof fn lemma_withdraw_transfer(
    owner: Seq<u8>,
    sender: Seq<char>,
    amount: u128,
    denom: Seq<char>,
    r: Result<Response, ContractError>,
)
    requires
        tokens_post(Some(owner), sender, owner, Some(amount), Some(denom), r),
    ensures
        r matches Ok(resp) && resp@ == seq![
            (OutMsgView::BankSend {
                to_address: sender,
                amount: seq![(CoinView { denom, amount })],
            }),
        ],
{
}

/// Swap construction: a swap request by any caller — owner or not —
/// succeeds and emits exactly one call to the named venue carrying the
/// encoded offer of `amount` of `offer_denom` and the caller's funds,
/// nothing else; the result is a function of those inputs alone.
pub proof fn lemma_swap_forward(
    funds: Seq<CoinView>,
    swap_address: Seq<char>,
    amount: u128,
    offer_denom: Seq<char>,
    r: Result<Response, ContractError>,
)
    requires
        swap_post(funds, swap_address, amount, offer_denom, r),
    ensures
        r matches Ok(resp) && resp@ == seq![
            (OutMsgView::WasmExecute {
                contract_addr: swap_address,
                msg: swap_call_bytes(amount, offer_denom),
                funds,
            }),
        ],
{
}

/// The swap reads and writes no storage, and its result is deterministic
/// in its inputs: two responses to the same request carry the same
/// instructions.
pub proof fn lemma_swap_deterministic(
    funds: Seq<CoinView>,
    swap_address: Seq<char>,
    amount: u128,
    offer_denom: Seq<char>,
    r1: Result<Response, ContractError>,
    r2: Result<Response, ContractError>,
)
    requires
        swap_post(funds, swap_address, amount, offer_denom, r1),
        swap_post(funds, swap_address, amount, offer_denom, r2),
    ensures
        r1 matches Ok(a) && r2 matches Ok(b) && a@ == b@,
{
}

/// Query roundtrip: after initialization with a canonical owner address,
/// the config query answers with exactly that address. The host's
/// display rendering of it — and the property that rendering a canonical
/// form gives back the original display string — belongs to the host's
/// canonicalize/humanize pair, outside this module.
pub proof fn lemma_initialize_then_query(
    stored_after: Option<Seq<u8>>,
    owner: Seq<u8>,
    r_init: Result<Response, ContractError>,
    r_query: Result<QueryAnswer, StdError>,
)
    requires
        instantiate_post(stored_after, owner, r_init),
        query_post(stored_after, QueryMsg::Config {  }, r_query),
    ensures
        r_query matches Ok(QueryAnswer::Config { owner: o }) && o@ == owner,
{
}

} // verus!
