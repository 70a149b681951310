//! Building and submitting a single order.

use vstd::prelude::*;
use vstd::string::*;
use crate::endpoints::ORDERS_URL;
use crate::records::{Account, Instrument};
use crate::request::{form_view, push_field, FieldModel, PostRequest};
use crate::text::{decimal, decimal_string, digit_char, digit_str};

verus! {

/// A price, in hundredths of the currency unit.
#[derive(Clone, Copy, Debug, PartialEq, Eq)]
pub struct Price {
    pub cents: u64,
}

/// The text of a price: whole units, a point, and two digits of cents.
pub open spec fn price_text(p: Price) -> Seq<char> {
    decimal((p.cents / 100) as nat) + seq!['.', digit_char(((p.cents % 100) / 10) as nat), digit_char(
        (p.cents % 10) as nat,
    )]
}

impl Price {
    /// The price's text, as the order endpoint takes it (`25.50`).
    pub fn text(&self) -> (s: String)
        ensures
            s@ == price_text(*self),
    {
        let mut s = decimal_string(self.cents / 100);
        proof {
            reveal_strlit(".");
        }
        s.append(".");
        s.append(digit_str((self.cents % 100) / 10));
        s.append(digit_str(self.cents % 10));
        proof {
            assert(s@ =~= price_text(*self));
        }
        s
    }
}

/// Which way an order trades.
#[derive(Clone, Copy, Debug, PartialEq, Eq)]
pub enum Side {
    Buy,
    Sell,
}

/// How an order is priced.
#[derive(Clone, Copy, Debug, PartialEq, Eq)]
pub enum OrderType {
    Market,
    Limit,
}

/// How long an order stays open.
#[derive(Clone, Copy, Debug, PartialEq, Eq)]
pub enum TimeInForce {
    /// Good for the day.
    Gfd,
    /// Good till cancelled.
    Gtc,
    /// At the opening.
    Opg,
}

pub open spec fn side_text(s: Side) -> Seq<char> {
    match s {
        Side::Buy => "buy"@,
        Side::Sell => "sell"@,
    }
}

pub open spec fn type_text(t: OrderType) -> Seq<char> {
    match t {
        OrderType::Market => "market"@,
        OrderType::Limit => "limit"@,
    }
}

pub open spec fn time_in_force_text(t: TimeInForce) -> Seq<char> {
    match t {
        TimeInForce::Gfd => "gfd"@,
        TimeInForce::Gtc => "gtc"@,
        TimeInForce::Opg => "opg"@,
    }
}

fn side_string(s: Side) -> (r: String)
    ensures
        r@ == side_text(s),
{
    match s {
        Side::Buy => String::from_str("buy"),
        Side::Sell => String::from_str("sell"),
    }
}

fn type_string(t: OrderType) -> (r: String)
    ensures
        r@ == type_text(t),
{
    match t {
        OrderType::Market => String::from_str("market"),
        OrderType::Limit => String::from_str("limit"),
    }
}

fn time_in_force_string(t: TimeInForce) -> (r: String)
    ensures
        r@ == time_in_force_text(t),
{
    match t {
        TimeInForce::Gfd => String::from_str("gfd"),
        TimeInForce::Gtc => String::from_str("gtc"),
        TimeInForce::Opg => String::from_str("opg"),
    }
}

/// The settings of one order on one instrument in one account.
#[derive(Clone, Debug)]
pub struct OrderBuilder {
    pub side: Side,
    pub quantity: u64,
    pub instrument: Instrument,
    pub account: Account,
    pub order_type: OrderType,
    pub time_in_force: TimeInForce,
    /// The limit price, or the collar price of a market order.
    pub price: Option<Price>,
    pub stop_price: Option<Price>,
    pub override_dtbp_checks: bool,
    pub override_day_trade_checks: bool,
    pub extended_hours: bool,
}

/// The `trigger` of an order: on a stop price, or at once.
pub open spec fn trigger_text(b: OrderBuilder) -> Seq<char> {
    if b.stop_price is Some {
        "stop"@
    } else {
        "immediate"@
    }
}

/// The form that creates the order `b` describes.
///
/// A price field appears only where a price was set: a market order carries
/// none unless a collar price was given.
pub open spec fn order_form(b: OrderBuilder) -> Seq<FieldModel> {
    seq![
        ("account"@, b.account.url@),
        ("instrument"@, b.instrument.url@),
        ("symbol"@, b.instrument.symbol@),
        ("type"@, type_text(b.order_type)),
        ("time_in_force"@, time_in_force_text(b.time_in_force)),
        ("trigger"@, trigger_text(b)),
        ("quantity"@, decimal(b.quantity as nat)),
        ("side"@, side_text(b.side)),
    ] + match b.stop_price {
        Some(p) => seq![("stop_price"@, price_text(p))],
        None => Seq::empty(),
    } + match b.price {
        Some(p) => seq![("price"@, price_text(p))],
        None => Seq::empty(),
    } + seq![("override_day_trade_checks"@, "true"@)]
}

impl OrderBuilder {
    /// A market order, good for the day, with no price, no stop and no
    /// overrides.
    pub open spec fn new_spec(side: Side, quantity: u64, instrument: Instrument, account: Account) -> Self {
        OrderBuilder {
            side,
            quantity,
            instrument,
            account,
            order_type: OrderType::Market,
            time_in_force: TimeInForce::Gfd,
            price: None,
            stop_price: None,
            override_dtbp_checks: false,
            override_day_trade_checks: false,
            extended_hours: false,
        }
    }

    /// A market order, good for the day, with no price, no stop and no
    /// overrides; see [`Self::new_spec`].
    pub fn new(side: Side, quantity: u64, instrument: Instrument, account: Account) -> (r: Self)
        ensures
            r == Self::new_spec(side, quantity, instrument, account),
    {
        OrderBuilder {
            side,
            quantity,
            instrument,
            account,
            order_type: OrderType::Market,
            time_in_force: TimeInForce::Gfd,
            price: None,
            stop_price: None,
            override_dtbp_checks: false,
            override_day_trade_checks: false,
            extended_hours: false,
        }
    }

    /// Good for the day.
    pub fn gfd(&mut self) -> (r: &mut Self)
        ensures
            *r == (OrderBuilder { time_in_force: TimeInForce::Gfd, ..*old(self) }),
            *final(self) == *final(r),
    {
        self.time_in_force = TimeInForce::Gfd;
        self
    }

    /// Good till cancelled.
    pub fn gtc(&mut self) -> (r: &mut Self)
        ensures
            *r == (OrderBuilder { time_in_force: TimeInForce::Gtc, ..*old(self) }),
            *final(self) == *final(r),
    {
        self.time_in_force = TimeInForce::Gtc;
        self
    }

    /// At the opening.
    pub fn opg(&mut self) -> (r: &mut Self)
        ensures
            *r == (OrderBuilder { time_in_force: TimeInForce::Opg, ..*old(self) }),
            *final(self) == *final(r),
    {
        self.time_in_force = TimeInForce::Opg;
        self
    }

    /// Triggers the order when the market reaches `price`.
    pub fn stop(&mut self, price: Price) -> (r: &mut Self)
        ensures
            *r == (OrderBuilder { stop_price: Some(price), ..*old(self) }),
            *final(self) == *final(r),
    {
        self.stop_price = Some(price);
        self
    }

    /// Makes this a limit order at `price`.
    pub fn limit(&mut self, price: Price) -> (r: &mut Self)
        ensures
            *r == (OrderBuilder { price: Some(price), order_type: OrderType::Limit, ..*old(self) }),
            *final(self) == *final(r),
    {
        self.price = Some(price);
        self.order_type = OrderType::Limit;
        self
    }

    /// Sets the collar price of a market order, keeping its type.
    pub fn collar_price(&mut self, price: Price) -> (r: &mut Self)
        ensures
            *r == (OrderBuilder { price: Some(price), ..*old(self) }),
            *final(self) == *final(r),
    {
        self.price = Some(price);
        self
    }

    /// The request that creates this order: a POST of [`order_form`] to the
    /// order endpoint. The server answers with the created [`crate::records::Order`].
    pub fn send(&self) -> (r: PostRequest)
        ensures
            r.url@ == ORDERS_URL@,
            form_view(r.form@) == order_form(*self),
    {
        let mut form: Vec<(String, String)> = Vec::new();
        push_field(&mut form, "account", self.account.url.clone());
        push_field(&mut form, "instrument", self.instrument.url.clone());
        push_field(&mut form, "symbol", self.instrument.symbol.clone());
        push_field(&mut form, "type", type_string(self.order_type));
        push_field(&mut form, "time_in_force", time_in_force_string(self.time_in_force));
        let trigger = match self.stop_price {
            Some(_) => String::from_str("stop"),
            None => String::from_str("immediate"),
        };
        push_field(&mut form, "trigger", trigger);
        push_field(&mut form, "quantity", decimal_string(self.quantity));
        push_field(&mut form, "side", side_string(self.side));
        let ghost head = form_view(form@);
        match self.stop_price {
            Some(p) => push_field(&mut form, "stop_price", p.text()),
            None => {},
        }
        let ghost with_stop = form_view(form@);
        match self.price {
            Some(p) => push_field(&mut form, "price", p.text()),
            None => {},
        }
        let ghost with_price = form_view(form@);
        push_field(&mut form, "override_day_trade_checks", String::from_str("true"));
        proof {
            let stop_part = match self.stop_price {
                Some(p) => seq![("stop_price"@, price_text(p))],
                None => Seq::<FieldModel>::empty(),
            };
            let price_part = match self.price {
                Some(p) => seq![("price"@, price_text(p))],
                None => Seq::<FieldModel>::empty(),
            };
            assert(with_stop =~= head + stop_part);
            assert(with_price =~= head + stop_part + price_part);
            assert(form_view(form@) =~= order_form(*self));
        }
        PostRequest { url: String::from_str(ORDERS_URL), form }
    }
}

/// A new order posts a market order that triggers at once, with its quantity
/// in decimal and no price field; made a limit order at `p`, it posts type
/// `limit` and `p` as its price.
pub proof fn lemma_default_and_limit_forms(
    side: Side,
    quantity: u64,
    instrument: Instrument,
    account: Account,
    p: Price,
)
    ensures
        ({
            let f = order_form(OrderBuilder::new_spec(side, quantity, instrument, account));
            &&& f.contains(("type"@, "market"@))
            &&& f.contains(("trigger"@, "immediate"@))
            &&& f.contains(("quantity"@, decimal(quantity as nat)))
            &&& forall|i: int| 0 <= i < f.len() ==> (#[trigger] f[i]).0 != "price"@
        }),
        ({
            let b = OrderBuilder::new_spec(side, quantity, instrument, account);
            let f = order_form(OrderBuilder { price: Some(p), order_type: OrderType::Limit, ..b });
            &&& f.contains(("type"@, "limit"@))
            &&& f.contains(("price"@, price_text(p)))
        }),
{
    reveal_strlit("price");
    reveal_strlit("account");
    reveal_strlit("instrument");
    reveal_strlit("symbol");
    reveal_strlit("type");
    reveal_strlit("time_in_force");
    reveal_strlit("trigger");
    reveal_strlit("quantity");
    reveal_strlit("side");
    reveal_strlit("override_day_trade_checks");
    let b = OrderBuilder::new_spec(side, quantity, instrument, account);
    let f = order_form(b);
    assert(f[3] == ("type"@, "market"@));
    assert(f[5] == ("trigger"@, "immediate"@));
    assert(f[6] == ("quantity"@, decimal(quantity as nat)));
    assert forall|i: int| 0 <= i < f.len() implies (#[trigger] f[i]).0 != "price"@ by {
        assert(f[i].0.len() != "price"@.len());
    }
    let l = OrderBuilder { price: Some(p), order_type: OrderType::Limit, ..b };
    let g = order_form(l);
    assert(g[3] == ("type"@, "limit"@));
    assert(g[8] == ("price"@, price_text(p)));
}

} // verus!
