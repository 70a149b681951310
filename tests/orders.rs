use robinhood::client::Client;
use robinhood::error::Error;
use robinhood::pagination::Pull;
use robinhood::order::{OrderType, Price, Side, TimeInForce};
use robinhood::records::{Account, Date, Execution, InstantEligibility, Instrument, MarginBalances, Order, Timestamp};

fn stamp() -> Timestamp {
    Timestamp { seconds: 1_500_000_000, nanos: 0 }
}

fn sample_instrument() -> Instrument {
    Instrument {
        min_tick_size: None,
        type_field: "stock".to_string(),
        splits: "https://api.robinhood.com/instruments/50810c35/splits/".to_string(),
        margin_initial_ratio: "0.5000".to_string(),
        url: "https://api.robinhood.com/instruments/50810c35/".to_string(),
        quote: "https://api.robinhood.com/quotes/MSFT/".to_string(),
        tradability: "tradable".to_string(),
        bloomberg_unique: "EQ0010174300001000".to_string(),
        list_date: Some(Date { year: 1987, month: 9, day: 17 }),
        name: "Microsoft Corporation Common Stock".to_string(),
        symbol: "MSFT".to_string(),
        fundamentals: "https://api.robinhood.com/fundamentals/MSFT/".to_string(),
        state: "active".to_string(),
        country: "US".to_string(),
        day_trade_ratio: "0.2500".to_string(),
        tradeable: true,
        maintenance_ratio: "0.2500".to_string(),
        id: "50810c35".to_string(),
        market: "https://api.robinhood.com/markets/XNAS/".to_string(),
        simple_name: Some("Microsoft".to_string()),
        rhs_tradability: "tradable".to_string(),
        tradable_chain_id: None,
    }
}

fn sample_account() -> Account {
    let margin = MarginBalances {
        day_trade_buying_power: "0.0000".to_string(),
        start_of_day_overnight_buying_power: "0.0000".to_string(),
        overnight_buying_power_held_for_orders: "0.0000".to_string(),
        cash_held_for_orders: "0.0000".to_string(),
        created_at: stamp(),
        unsettled_debit: "0.0000".to_string(),
        start_of_day_dtbp: "0.0000".to_string(),
        day_trade_buying_power_held_for_orders: "0.0000".to_string(),
        overnight_buying_power: "0.0000".to_string(),
        marked_pattern_day_trader_date: None,
        cash: "100.0000".to_string(),
        unallocated_margin_cash: "0.0000".to_string(),
        updated_at: stamp(),
        cash_available_for_withdrawal: "100.0000".to_string(),
        margin_limit: "0.0000".to_string(),
        outstanding_interest: "0.0000".to_string(),
        uncleared_deposits: "0.0000".to_string(),
        unsettled_funds: "0.0000".to_string(),
        gold_equity_requirement: "0.0000".to_string(),
        day_trade_ratio: "0.25".to_string(),
        overnight_ratio: "0.50".to_string(),
    };
    let eligibility = InstantEligibility {
        updated_at: None,
        reason: "".to_string(),
        reinstatement_date: None,
        reversal: None,
        state: "ok".to_string(),
    };
    Account {
        deactivated: false,
        updated_at: stamp(),
        margin_balances: margin,
        portfolio: "https://api.robinhood.com/portfolios/5QR24141/".to_string(),
        cash_balances: "null".to_string(),
        can_downgrade_to_cash: "https://api.robinhood.com/accounts/5QR24141/can_downgrade_to_cash/".to_string(),
        withdrawal_halted: false,
        cash_available_for_withdrawal: "100.0000".to_string(),
        type_field: "margin".to_string(),
        sma: "0.0000".to_string(),
        sweep_enabled: false,
        deposit_halted: false,
        buying_power: "100.0000".to_string(),
        user: "https://api.robinhood.com/user/".to_string(),
        max_ach_early_access_amount: "1000.00".to_string(),
        instant_eligibility: eligibility,
        cash_held_for_orders: "0.0000".to_string(),
        only_position_closing_trades: false,
        url: "https://api.robinhood.com/accounts/5QR24141/".to_string(),
        positions: "https://api.robinhood.com/accounts/5QR24141/positions/".to_string(),
        created_at: stamp(),
        cash: "100.0000".to_string(),
        sma_held_for_orders: "0.0000".to_string(),
        unsettled_debit: "0.0000".to_string(),
        account_number: "5QR24141".to_string(),
        uncleared_deposits: "0.0000".to_string(),
        unsettled_funds: "0.0000".to_string(),
        nummus_enabled: None,
        option_level: "".to_string(),
        is_pinnacle_account: false,
    }
}

fn sample_order(cancel: Option<&str>) -> Order {
    Order {
        account: "https://api.robinhood.com/accounts/5QR24141/".to_string(),
        average_price: None,
        can_cancel: cancel.map(|c| c.to_string()),
        created_at: stamp(),
        cumulative_quantity: "0.00000".to_string(),
        executions: vec![Execution {
            timestamp: "2017-07-14T13:40:00Z".to_string(),
            price: "72.50".to_string(),
            settlement_date: "2017-07-18".to_string(),
            id: "e1".to_string(),
            quantity: "1.00000".to_string(),
        }],
        extended_hours: false,
        fees: "0.00".to_string(),
        id: "o1".to_string(),
        instrument: "https://api.robinhood.com/instruments/50810c35/".to_string(),
        last_transaction_at: stamp(),
        override_day_trade_checks: false,
        override_dtbp_checks: false,
        position: "https://api.robinhood.com/positions/5QR24141/50810c35/".to_string(),
        price: None,
        quantity: "10.00000".to_string(),
        ref_id: None,
        reject_reason: None,
        response_category: None,
        side: "buy".to_string(),
        state: "queued".to_string(),
        stop_price: None,
        time_in_force: "gfd".to_string(),
        trigger: "immediate".to_string(),
        type_field: "market".to_string(),
        updated_at: stamp(),
        url: "https://api.robinhood.com/orders/o1/".to_string(),
    }
}

fn pairs(form: &[(String, String)]) -> Vec<(&str, &str)> {
    form.iter().map(|(k, v)| (k.as_str(), v.as_str())).collect()
}

fn field<'a>(form: &'a [(String, String)], name: &str) -> Option<&'a str> {
    form.iter().find(|(k, _)| k == name).map(|(_, v)| v.as_str())
}

#[test]
fn it_works() {
    assert_eq!(2 + 2, 4);
}

#[test]
fn order_builder() {
    let rh = Client::new().session(None);
    let b = rh.buy_with_account(1, sample_instrument(), sample_account());
    assert_eq!(b.side, Side::Buy);
    assert_eq!(b.order_type, OrderType::Market);
    assert_eq!(b.time_in_force, TimeInForce::Gfd);
    assert_eq!(b.price, None);
    assert_eq!(b.stop_price, None);
    assert!(!b.override_dtbp_checks && !b.override_day_trade_checks && !b.extended_hours);
}

#[test]
fn default_buy_posts_market_order_without_price() {
    let rh = Client::new().session(None);
    let req = rh.buy_with_account(10, sample_instrument(), sample_account()).send();
    assert_eq!(req.url, "https://api.robinhood.com/orders/");
    assert_eq!(
        pairs(&req.form),
        vec![
            ("account", "https://api.robinhood.com/accounts/5QR24141/"),
            ("instrument", "https://api.robinhood.com/instruments/50810c35/"),
            ("symbol", "MSFT"),
            ("type", "market"),
            ("time_in_force", "gfd"),
            ("trigger", "immediate"),
            ("quantity", "10"),
            ("side", "buy"),
            ("override_day_trade_checks", "true"),
        ]
    );
    assert_eq!(field(&req.form, "price"), None);
}

#[test]
fn limit_sets_type_and_price() {
    let rh = Client::new().session(None);
    let mut b = rh.buy_with_account(10, sample_instrument(), sample_account());
    b.limit(Price { cents: 2550 });
    let req = b.send();
    assert_eq!(field(&req.form, "type"), Some("limit"));
    assert_eq!(field(&req.form, "price"), Some("25.50"));
    assert_eq!(field(&req.form, "trigger"), Some("immediate"));
    assert_eq!(field(&req.form, "quantity"), Some("10"));
    assert_eq!(field(&req.form, "side"), Some("buy"));
}

#[test]
fn limit_twice_keeps_last_price() {
    let rh = Client::new().session(None);
    let mut b = rh.sell_with_account(3, sample_instrument(), sample_account());
    b.limit(Price { cents: 100 }).limit(Price { cents: 12345 });
    let req = b.send();
    assert_eq!(field(&req.form, "price"), Some("123.45"));
    assert_eq!(field(&req.form, "side"), Some("sell"));
    assert_eq!(field(&req.form, "quantity"), Some("3"));
}

#[test]
fn stop_then_limit_keeps_both() {
    let rh = Client::new().session(None);
    let mut b = rh.buy_with_account(7, sample_instrument(), sample_account());
    b.stop(Price { cents: 2005 }).limit(Price { cents: 2100 }).gtc();
    let req = b.send();
    assert_eq!(field(&req.form, "trigger"), Some("stop"));
    assert_eq!(field(&req.form, "stop_price"), Some("20.05"));
    assert_eq!(field(&req.form, "price"), Some("21.00"));
    assert_eq!(field(&req.form, "type"), Some("limit"));
    assert_eq!(field(&req.form, "time_in_force"), Some("gtc"));
}

#[test]
fn time_in_force_overwrites() {
    let rh = Client::new().session(None);
    let mut b = rh.buy_with_account(1, sample_instrument(), sample_account());
    b.opg();
    assert_eq!(field(&b.send().form, "time_in_force"), Some("opg"));
    b.gfd();
    assert_eq!(field(&b.send().form, "time_in_force"), Some("gfd"));
}

#[test]
fn collar_price_keeps_market_type() {
    let rh = Client::new().session(None);
    let mut b = rh.buy_with_account(2, sample_instrument(), sample_account());
    b.collar_price(Price { cents: 5 });
    let req = b.send();
    assert_eq!(field(&req.form, "type"), Some("market"));
    assert_eq!(field(&req.form, "price"), Some("0.05"));
}

#[test]
fn large_quantity_renders_all_digits() {
    let rh = Client::new().session(None);
    let req = rh.buy_with_account(u64::MAX, sample_instrument(), sample_account()).send();
    assert_eq!(field(&req.form, "quantity"), Some("18446744073709551615"));
    let zero = rh.buy_with_account(0, sample_instrument(), sample_account()).send();
    assert_eq!(field(&zero.form, "quantity"), Some("0"));
}

#[test]
fn price_text_pads_cents() {
    assert_eq!(Price { cents: 0 }.text(), "0.00");
    assert_eq!(Price { cents: 7 }.text(), "0.07");
    assert_eq!(Price { cents: 2550 }.text(), "25.50");
    assert_eq!(Price { cents: 100000 }.text(), "1000.00");
}

#[test]
fn cancel_without_link_fails() {
    let rh = Client::new().session(Some("Token abc".to_string()));
    assert_eq!(rh.cancel(&sample_order(None)).err(), Some(Error::CancelUnavailable));
}

#[test]
fn cancel_follows_link() {
    let rh = Client::new().session(Some("Token abc".to_string()));
    let req = rh.cancel(&sample_order(Some("https://api.robinhood.com/orders/o1/cancel/"))).ok().unwrap();
    assert_eq!(req.url, "https://api.robinhood.com/orders/o1/cancel/");
    assert!(req.form.is_empty());
}

#[test]
fn positions_listings_start_at_account_links() {
    let rh = Client::new().session(None);
    let mut p = rh.positions_with_account(&sample_account());
    assert!(matches!(p.pull(), Pull::Fetch(u) if u == "https://api.robinhood.com/accounts/5QR24141/positions/"));
    let mut n = rh.positions_nonzero_with_account(&sample_account());
    assert!(matches!(n.pull(), Pull::Fetch(u) if u == "https://api.robinhood.com/accounts/5QR24141/positions/?nonzero=true"));
    let mut all = rh.positions_nonzero();
    assert!(matches!(all.pull(), Pull::Fetch(u) if u == "https://api.robinhood.com/positions/?nonzero=true"));
}
