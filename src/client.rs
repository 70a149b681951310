//! The session and the configuration it is built from.

use vstd::prelude::*;
use vstd::string::*;
use crate::auth::{Grant, LoginFlow};
use crate::endpoints::{
    ACCOUNTS_URL, INSTRUMENTS_URL, INSTRUMENT_SEARCH_URL, NONZERO_POSITIONS_URL, NONZERO_QUERY,
    ORDERS_URL, TOKEN_LOGOUT_URL,
};
use crate::error::Error;
use crate::order::{OrderBuilder, Side};
use crate::pagination::{opt_text, start_spec, ResourceIter};
use crate::records::{Account, Instrument, Order, Position};
use crate::request::{bare_post, form_view, push_field, FieldModel, PostRequest};
use crate::text::joined;

verus! {

/// The instrument listing.
pub type Instruments = ResourceIter<Instrument>;

/// The account listing.
pub type Accounts = ResourceIter<Account>;

/// The order listing.
pub type Orders = ResourceIter<Order>;

/// A positions listing.
pub type Positions = ResourceIter<Position>;

impl ResourceIter<Instrument> {
    /// A listing of the instruments whose symbol is `symbol`; its first
    /// record is the match.
    pub fn search_by_symbol(symbol: &str) -> (r: Self)
        ensures
            r@ == start_spec::<Instrument>(INSTRUMENT_SEARCH_URL@ + symbol@),
    {
        ResourceIter::starting_at(joined(INSTRUMENT_SEARCH_URL, symbol))
    }
}

/// The user agent sent when none is configured.
pub const DEFAULT_AGENT: &'static str = "Robinhood/2672 (Android 6.1;)";

/// The OAuth2 scope asked for when none is configured.
pub const DEFAULT_SCOPE: &'static str = "internal";

/// What a session is built from.
#[derive(Clone, Debug)]
pub struct ClientBuilder {
    pub username: Option<String>,
    pub password: Option<String>,
    pub agent: String,
    /// The OAuth2 client; with none, the legacy login is used.
    pub client_string: Option<String>,
    pub scope: String,
}

/// The login a configuration asks for: none without both a username and a
/// password; else OAuth2 where a client is set, the legacy login where not.
pub open spec fn chosen_login(b: ClientBuilder) -> Option<LoginFlow> {
    match (b.username, b.password) {
        (Some(u), Some(p)) => Some(
            LoginFlow {
                username: u,
                password: p,
                grant: match b.client_string {
                    Some(c) => Grant::OAuth { client_id: c, scope: b.scope },
                    None => Grant::Legacy,
                },
                mfa_code: None,
            },
        ),
        _ => None,
    }
}

/// The text of a session: its user agent and its `Authorization` header.
pub ghost struct ClientModel {
    pub agent: Seq<char>,
    pub authorization: Option<Seq<char>>,
}

/// A session with the API. Its headers are fixed when it is built.
#[derive(Clone, Debug)]
pub struct Client {
    agent: String,
    authorization: Option<String>,
}

impl View for Client {
    type V = ClientModel;

    closed spec fn view(&self) -> ClientModel {
        ClientModel { agent: self.agent@, authorization: opt_text(self.authorization) }
    }
}

/// The headers every request of a session carries.
pub open spec fn session_headers(c: ClientModel) -> Seq<FieldModel> {
    seq![("User-Agent"@, c.agent)] + match c.authorization {
        Some(a) => seq![("Authorization"@, a)],
        None => Seq::empty(),
    }
}

/// What cancelling an order whose cancel link is `link` gives: a POST to that
/// link, or, without one, [`Error::CancelUnavailable`].
pub open spec fn cancel_request_spec(link: Option<String>, r: Result<PostRequest, Error>) -> bool {
    match link {
        Some(u) => r is Ok && r->Ok_0.url@ == u@ && r->Ok_0.form@.len() == 0,
        None => r == Err::<PostRequest, Error>(Error::CancelUnavailable),
    }
}

impl ClientBuilder {
    /// Sets the user agent.
    pub fn user_agent(&mut self, agent: &str) -> (r: &mut Self)
        ensures
            r.agent@ == agent@,
            *r == (ClientBuilder { agent: r.agent, ..*old(self) }),
            *final(self) == *final(r),
    {
        self.agent = String::from_str(agent);
        self
    }

    /// Logs in through OAuth2 as this client.
    pub fn oauth_client(&mut self, client_string: &str) -> (r: &mut Self)
        ensures
            opt_text(r.client_string) == Some(client_string@),
            *r == (ClientBuilder { client_string: r.client_string, ..*old(self) }),
            *final(self) == *final(r),
    {
        self.client_string = Some(String::from_str(client_string));
        self
    }

    /// Sets the OAuth2 scope.
    pub fn oauth_scope(&mut self, scope: &str) -> (r: &mut Self)
        ensures
            r.scope@ == scope@,
            *r == (ClientBuilder { scope: r.scope, ..*old(self) }),
            *final(self) == *final(r),
    {
        self.scope = String::from_str(scope);
        self
    }

    /// Sets the credentials to log in with.
    pub fn login(&mut self, username: &str, password: &str) -> (r: &mut Self)
        ensures
            opt_text(r.username) == Some(username@),
            opt_text(r.password) == Some(password@),
            *r == (ClientBuilder { username: r.username, password: r.password, ..*old(self) }),
            *final(self) == *final(r),
    {
        self.username = Some(String::from_str(username));
        self.password = Some(String::from_str(password));
        self
    }

    /// The login to run before the session is built; see [`chosen_login`].
    pub fn login_flow(&self) -> (r: Option<LoginFlow>)
        ensures
            r == chosen_login(*self),
    {
        match (&self.username, &self.password) {
            (Some(u), Some(p)) => {
                let grant = match &self.client_string {
                    Some(c) => Grant::OAuth { client_id: c.clone(), scope: self.scope.clone() },
                    None => Grant::Legacy,
                };
                let r = Some(LoginFlow { username: u.clone(), password: p.clone(), grant, mfa_code: None });
                proof {
                    assert(r == chosen_login(*self));
                }
                r
            },
            _ => None,
        }
    }

    /// The session, with the `Authorization` header a login produced (none:
    /// the session is not logged in).
    pub fn session(&self, authorization: Option<String>) -> (r: Client)
        ensures
            r@ == (ClientModel { agent: self.agent@, authorization: opt_text(authorization) }),
    {
        Client { agent: self.agent.clone(), authorization }
    }
}

impl Client {
    /// A configuration with the default user agent and scope, no credentials
    /// and no OAuth2 client.
    pub fn new() -> (r: ClientBuilder)
        ensures
            r.username is None,
            r.password is None,
            r.agent@ == DEFAULT_AGENT@,
            r.client_string is None,
            r.scope@ == DEFAULT_SCOPE@,
    {
        ClientBuilder {
            username: None,
            password: None,
            agent: String::from_str(DEFAULT_AGENT),
            client_string: None,
            scope: String::from_str(DEFAULT_SCOPE),
        }
    }

    /// Whether the session is logged in.
    pub fn authorized(&self) -> (r: bool)
        ensures
            r == self@.authorization is Some,
    {
        self.authorization.is_some()
    }

    /// The headers to send with every request of this session.
    pub fn headers(&self) -> (r: Vec<(String, String)>)
        ensures
            form_view(r@) == session_headers(self@),
    {
        let mut h: Vec<(String, String)> = Vec::new();
        push_field(&mut h, "User-Agent", self.agent.clone());
        match &self.authorization {
            Some(a) => push_field(&mut h, "Authorization", a.clone()),
            None => {},
        }
        proof {
            assert(form_view(h@) =~= session_headers(self@));
        }
        h
    }

    /// The request that ends the session's token on the server; only a
    /// session that is logged in has one.
    pub fn logout(&self) -> (r: Option<PostRequest>)
        ensures
            r is Some <==> self@.authorization is Some,
            r matches Some(q) ==> q.url@ == TOKEN_LOGOUT_URL@ && q.form@.len() == 0,
    {
        if self.authorized() {
            Some(bare_post(String::from_str(TOKEN_LOGOUT_URL)))
        } else {
            None
        }
    }

    /// Whether the logout was taken: the server answers it with an empty body.
    pub fn logout_accepted(body: &str) -> (r: bool)
        ensures
            r == (body@.len() == 0),
    {
        body.is_empty()
    }

    /// The instrument listing.
    pub fn instruments(&self) -> (r: Instruments)
        ensures
            r@ == start_spec::<Instrument>(INSTRUMENTS_URL@),
    {
        ResourceIter::starting_at(String::from_str(INSTRUMENTS_URL))
    }

    /// A listing whose first record is the instrument with this symbol.
    pub fn instrument_by_symbol(&self, symbol: &str) -> (r: Instruments)
        ensures
            r@ == start_spec::<Instrument>(INSTRUMENT_SEARCH_URL@ + symbol@),
    {
        ResourceIter::<Instrument>::search_by_symbol(symbol)
    }

    /// The account listing.
    pub fn accounts(&self) -> (r: Accounts)
        ensures
            r@ == start_spec::<Account>(ACCOUNTS_URL@),
    {
        ResourceIter::starting_at(String::from_str(ACCOUNTS_URL))
    }

    /// The order listing.
    pub fn orders(&self) -> (r: Orders)
        ensures
            r@ == start_spec::<Order>(ORDERS_URL@),
    {
        ResourceIter::starting_at(String::from_str(ORDERS_URL))
    }

    /// The positions of `account`.
    pub fn positions_with_account(&self, account: &Account) -> (r: Positions)
        ensures
            r@ == start_spec::<Position>(account.positions@),
    {
        ResourceIter::starting_at(account.positions.clone())
    }

    /// The nonzero positions of every account.
    pub fn positions_nonzero(&self) -> (r: Positions)
        ensures
            r@ == start_spec::<Position>(NONZERO_POSITIONS_URL@),
    {
        ResourceIter::starting_at(String::from_str(NONZERO_POSITIONS_URL))
    }

    /// The nonzero positions of `account`.
    pub fn positions_nonzero_with_account(&self, account: &Account) -> (r: Positions)
        ensures
            r@ == start_spec::<Position>(account.positions@ + NONZERO_QUERY@),
    {
        ResourceIter::starting_at(joined(account.positions.as_str(), NONZERO_QUERY))
    }

    /// An order to buy `quantity` of `instrument` in `account`.
    pub fn buy_with_account(&self, quantity: u64, instrument: Instrument, account: Account) -> (r: OrderBuilder)
        ensures
            r == OrderBuilder::new_spec(Side::Buy, quantity, instrument, account),
    {
        OrderBuilder::new(Side::Buy, quantity, instrument, account)
    }

    /// An order to sell `quantity` of `instrument` in `account`.
    pub fn sell_with_account(&self, quantity: u64, instrument: Instrument, account: Account) -> (r: OrderBuilder)
        ensures
            r == OrderBuilder::new_spec(Side::Sell, quantity, instrument, account),
    {
        OrderBuilder::new(Side::Sell, quantity, instrument, account)
    }

    /// The request that cancels `order`, through the cancel link the server
    /// gave it; an order without one cannot be cancelled, and no request is
    /// made for it.
    pub fn cancel(&self, order: &Order) -> (r: Result<PostRequest, Error>)
        ensures
            cancel_request_spec(order.can_cancel, r),
    {
        match &order.can_cancel {
            Some(u) => Ok(bare_post(u.clone())),
            None => Err(Error::CancelUnavailable),
        }
    }
}

} // verus!
