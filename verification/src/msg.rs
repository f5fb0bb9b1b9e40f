use vstd::prelude::*;

use crate::state::CanonicalAddr;

verus! {

/// One native-token sum: an amount of a denomination.
pub struct Coin {
    pub denom: String,
    pub amount: u128,
}

/// Mathematical value of a `Coin`.
pub struct CoinView {
    pub denom: Seq<char>,
    pub amount: u128,
}

impl View for Coin {
    type V = CoinView;

    open spec fn view(&self) -> CoinView {
        CoinView { denom: self.denom@, amount: self.amount }
    }
}

impl DeepView for Coin {
    type V = CoinView;

    open spec fn deep_view(&self) -> CoinView {
        self@
    }
}

/// Everything the host tells the module about the caller of the current
/// invocation: the display form of the caller's address, its canonical
/// form, and the funds sent along with the call.
pub struct MessageInfo {
    pub sender: String,
    pub sender_canonical: CanonicalAddr,
    pub funds: Vec<Coin>,
}

/// A declarative outbound instruction. The module never moves funds or
/// calls another module itself: it returns these for the host to execute
/// atomically with the invocation that produced them.
pub enum OutMsg {
    /// Send native tokens from the module's balance to an address.
    BankSend { to_address: String, amount: Vec<Coin> },
    /// Call another module with an encoded message and attached funds.
    WasmExecute { contract_addr: String, msg: Vec<u8>, funds: Vec<Coin> },
}

/// Mathematical value of an `OutMsg`.
pub enum OutMsgView {
    BankSend { to_address: Seq<char>, amount: Seq<CoinView> },
    WasmExecute { contract_addr: Seq<char>, msg: Seq<u8>, funds: Seq<CoinView> },
}

impl View for OutMsg {
    type V = OutMsgView;

    open spec fn view(&self) -> OutMsgView {
        match self {
            OutMsg::BankSend { to_address, amount } => OutMsgView::BankSend {
                to_address: to_address@,
                amount: amount.deep_view(),
            },
            OutMsg::WasmExecute { contract_addr, msg, funds } => OutMsgView::WasmExecute {
                contract_addr: contract_addr@,
                msg: msg@,
                funds: funds.deep_view(),
            },
        }
    }
}

impl DeepView for OutMsg {
    type V = OutMsgView;

    open spec fn deep_view(&self) -> OutMsgView {
        self@
    }
}

/// What an operation hands back to the host: the outbound instructions to
/// execute, in order. A response with no messages is a successful no-op.
pub struct Response {
    pub messages: Vec<OutMsg>,
}

impl View for Response {
    type V = Seq<OutMsgView>;

    open spec fn view(&self) -> Seq<OutMsgView> {
        self.messages.deep_view()
    }
}

impl Response {
    /// A response that instructs the host to do nothing.
    pub fn new() -> (r: Response)
        ensures
            r@ =~= Seq::<OutMsgView>::empty(),
    {
        Response { messages: Vec::new() }
    }
}

/// An executable command, dispatched by `contract::execute`.
pub enum ExecuteMsg {
    /// Withdraw `amount` of `denom` from the module's balance to the owner.
    Bank { amount: Option<u128>, denom: Option<String> },
    /// Forward `amount` of `offer_denom` into the swap venue at
    /// `swap_address`, attaching the caller's funds.
    Swap { swap_address: String, amount: u128, offer_denom: String },
}

/// A read-only query, dispatched by `contract::query`.
pub enum QueryMsg {
    /// Ask for the configured owner.
    Config {},
    /// Ask for the module's valuation stub.
    ContractValue {},
}

/// The answer to a query. For `Config` it carries the stored canonical
/// owner; the host renders it back to its display form for the client.
pub enum QueryAnswer {
    Config { owner: CanonicalAddr },
    ContractValue { value: u128 },
}

/// The upgrade entry point's message: it carries nothing.
pub struct MigrateMsg {}

} // verus!
