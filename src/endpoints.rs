//! The API's fixed endpoints.

use vstd::prelude::*;

verus! {

/// Token endpoint of the OAuth2 password grant.
pub const OAUTH_TOKEN_URL: &'static str = "https://api.robinhood.com/oauth2/token/";

/// Token endpoint of the legacy login.
pub const TOKEN_AUTH_URL: &'static str = "https://api.robinhood.com/api-token-auth/";

/// Invalidates the token of the legacy login.
pub const TOKEN_LOGOUT_URL: &'static str = "https://api.robinhood.com/api-token-logout/";

/// The instrument listing.
pub const INSTRUMENTS_URL: &'static str = "https://api.robinhood.com/instruments/";

/// The instrument listing, filtered by the symbol that follows.
pub const INSTRUMENT_SEARCH_URL: &'static str = "https://api.robinhood.com/instruments/?symbol=";

/// The account listing.
pub const ACCOUNTS_URL: &'static str = "https://api.robinhood.com/accounts/";

/// The order listing; orders are also created here.
pub const ORDERS_URL: &'static str = "https://api.robinhood.com/orders/";

/// The positions of all accounts that hold a nonzero quantity.
pub const NONZERO_POSITIONS_URL: &'static str = "https://api.robinhood.com/positions/?nonzero=true";

/// Appended to a positions listing to keep nonzero positions only.
pub const NONZERO_QUERY: &'static str = "?nonzero=true";

} // verus!
