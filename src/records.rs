//! The records that the listings and the order endpoint return, one struct
//! per resource kind. Their fields are the server's, verbatim.

use vstd::prelude::*;

verus! {

/// An instant, as seconds since the Unix epoch (UTC) and the nanoseconds
/// within that second.
#[derive(Clone, Copy, Debug, PartialEq, Eq)]
pub struct Timestamp {
    pub seconds: i64,
    pub nanos: u32,
}

/// A calendar date.
#[derive(Clone, Copy, Debug, PartialEq, Eq)]
pub struct Date {
    pub year: i32,
    pub month: u32,
    pub day: u32,
}

/// A tradable instrument.
#[derive(Clone, Debug, PartialEq)]
pub struct Instrument {
    pub min_tick_size: Option<String>,
    pub type_field: String,
    pub splits: String,
    pub margin_initial_ratio: String,
    pub url: String,
    pub quote: String,
    pub tradability: String,
    pub bloomberg_unique: String,
    pub list_date: Option<Date>,
    pub name: String,
    pub symbol: String,
    pub fundamentals: String,
    pub state: String,
    pub country: String,
    pub day_trade_ratio: String,
    pub tradeable: bool,
    pub maintenance_ratio: String,
    pub id: String,
    pub market: String,
    pub simple_name: Option<String>,
    pub rhs_tradability: String,
    pub tradable_chain_id: Option<String>,
}

/// The margin figures of an account.
#[derive(Clone, Debug, PartialEq)]
pub struct MarginBalances {
    pub day_trade_buying_power: String,
    pub start_of_day_overnight_buying_power: String,
    pub overnight_buying_power_held_for_orders: String,
    pub cash_held_for_orders: String,
    pub created_at: Timestamp,
    pub unsettled_debit: String,
    pub start_of_day_dtbp: String,
    pub day_trade_buying_power_held_for_orders: String,
    pub overnight_buying_power: String,
    pub marked_pattern_day_trader_date: Option<Date>,
    pub cash: String,
    pub unallocated_margin_cash: String,
    pub updated_at: Timestamp,
    pub cash_available_for_withdrawal: String,
    pub margin_limit: String,
    pub outstanding_interest: String,
    pub uncleared_deposits: String,
    pub unsettled_funds: String,
    pub gold_equity_requirement: String,
    pub day_trade_ratio: String,
    pub overnight_ratio: String,
}

/// Whether an account may use deposits before they settle.
#[derive(Clone, Debug, PartialEq)]
pub struct InstantEligibility {
    pub updated_at: Option<Timestamp>,
    pub reason: String,
    pub reinstatement_date: Option<Timestamp>,
    /// The JSON text of this field, as the server sent it.
    pub reversal: Option<String>,
    pub state: String,
}

/// A brokerage account of the logged-in user.
#[derive(Clone, Debug, PartialEq)]
pub struct Account {
    pub deactivated: bool,
    pub updated_at: Timestamp,
    pub margin_balances: MarginBalances,
    pub portfolio: String,
    /// The JSON text of this field, as the server sent it.
    pub cash_balances: String,
    pub can_downgrade_to_cash: String,
    pub withdrawal_halted: bool,
    pub cash_available_for_withdrawal: String,
    pub type_field: String,
    pub sma: String,
    pub sweep_enabled: bool,
    pub deposit_halted: bool,
    pub buying_power: String,
    pub user: String,
    pub max_ach_early_access_amount: String,
    pub instant_eligibility: InstantEligibility,
    pub cash_held_for_orders: String,
    pub only_position_closing_trades: bool,
    pub url: String,
    pub positions: String,
    pub created_at: Timestamp,
    pub cash: String,
    pub sma_held_for_orders: String,
    pub unsettled_debit: String,
    pub account_number: String,
    pub uncleared_deposits: String,
    pub unsettled_funds: String,
    pub nummus_enabled: Option<bool>,
    pub option_level: String,
    pub is_pinnacle_account: bool,
}

/// One fill of an order.
#[derive(Clone, Debug, PartialEq)]
pub struct Execution {
    pub timestamp: String,
    pub price: String,
    pub settlement_date: String,
    pub id: String,
    pub quantity: String,
}

/// An order, as the server records it.
#[derive(Clone, Debug, PartialEq)]
pub struct Order {
    pub account: String,
    pub average_price: Option<String>,
    pub can_cancel: Option<String>,
    pub created_at: Timestamp,
    pub cumulative_quantity: String,
    pub executions: Vec<Execution>,
    pub extended_hours: bool,
    pub fees: String,
    pub id: String,
    pub instrument: String,
    pub last_transaction_at: Timestamp,
    pub override_day_trade_checks: bool,
    pub override_dtbp_checks: bool,
    pub position: String,
    pub price: Option<String>,
    pub quantity: String,
    pub ref_id: Option<String>,
    pub reject_reason: Option<String>,
    pub response_category: Option<String>,
    pub side: String,
    pub state: String,
    pub stop_price: Option<String>,
    pub time_in_force: String,
    pub trigger: String,
    pub type_field: String,
    pub updated_at: Timestamp,
    pub url: String,
}

/// A holding of one instrument in one account.
#[derive(Clone, Debug, PartialEq)]
pub struct Position {
    pub shares_held_for_stock_grants: String,
    pub account: String,
    pub intraday_quantity: String,
    pub intraday_average_buy_price: String,
    pub url: String,
    pub created_at: Timestamp,
    pub updated_at: Timestamp,
    pub shares_held_for_buys: String,
    pub average_buy_price: String,
    pub instrument: String,
    pub shares_held_for_sells: String,
    pub quantity: String,
}

} // verus!
