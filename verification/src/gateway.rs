use crate::order::OrderSide;
use crate::types::{Address, TxHash};
use vstd::prelude::*;

verus! {

/// What can be asked of the trading venue.
#[derive(Clone, Copy, Debug, PartialEq, Eq, Structural)]
pub enum GatewayAction {
    CreateMarketPair,
    PlaceOrder,
    CancelAllOrders,
    DepositCollateral,
    WithdrawCollateral,
    SettleMarket,
    GetL2Book,
    GetUserPosition,
}

/// One request to the trading venue. An order without a limit is to be
/// filled at the market's price.
#[derive(Clone, Debug, PartialEq, Eq)]
pub enum GatewayRequest {
    CreateMarketPair { market_id: String, collateral_token: String },
    PlaceOrder { token: String, side: OrderSide, limit: Option<u64>, amount: u64 },
    CancelAllOrders { token: String },
    DepositCollateral { token: String, amount: u64 },
    WithdrawCollateral { token: String, amount: u64 },
    SettleMarket { token: String, amount: u64 },
    GetL2Book { token: String },
    GetUserPosition { user: Address, token: String },
}

impl GatewayRequest {
    /// What the request asks for.
    pub open spec fn kind(self) -> GatewayAction {
        match self {
            GatewayRequest::CreateMarketPair { .. } => GatewayAction::CreateMarketPair,
            GatewayRequest::PlaceOrder { .. } => GatewayAction::PlaceOrder,
            GatewayRequest::CancelAllOrders { .. } => GatewayAction::CancelAllOrders,
            GatewayRequest::DepositCollateral { .. } => GatewayAction::DepositCollateral,
            GatewayRequest::WithdrawCollateral { .. } => GatewayAction::WithdrawCollateral,
            GatewayRequest::SettleMarket { .. } => GatewayAction::SettleMarket,
            GatewayRequest::GetL2Book { .. } => GatewayAction::GetL2Book,
            GatewayRequest::GetUserPosition { .. } => GatewayAction::GetUserPosition,
        }
    }

    /// What the request asks for.
    pub fn action(&self) -> (a: GatewayAction)
        ensures
            a == self.kind(),
    {
        match self {
            GatewayRequest::CreateMarketPair { .. } => GatewayAction::CreateMarketPair,
            GatewayRequest::PlaceOrder { .. } => GatewayAction::PlaceOrder,
            GatewayRequest::CancelAllOrders { .. } => GatewayAction::CancelAllOrders,
            GatewayRequest::DepositCollateral { .. } => GatewayAction::DepositCollateral,
            GatewayRequest::WithdrawCollateral { .. } => GatewayAction::WithdrawCollateral,
            GatewayRequest::SettleMarket { .. } => GatewayAction::SettleMarket,
            GatewayRequest::GetL2Book { .. } => GatewayAction::GetL2Book,
            GatewayRequest::GetUserPosition { .. } => GatewayAction::GetUserPosition,
        }
    }

    /// The fault to report where the venue did not carry the request out.
    pub fn failed(&self, detail: String) -> (fault: GatewayFault)
        ensures
            fault.action == self.kind(),
            fault.detail == detail,
    {
        GatewayFault { action: self.action(), detail }
    }
}

/// A request that the venue did not carry out, with the venue's own words.
#[derive(Clone, Debug, PartialEq, Eq)]
pub struct GatewayFault {
    pub action: GatewayAction,
    pub detail: String,
}

/// What came back from the venue: the reference of the transaction, or the
/// request that failed.
pub type GatewayReply = Result<TxHash, GatewayFault>;

} // verus!
