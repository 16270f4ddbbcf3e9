//! The configuration of a process, settled from what its environment holds.
//!
//! Reading the environment is the caller's part. Which value stands in for a
//! variable that is not set, what counts as switching the dry run on, and
//! that the endpoint must be an absolute URL is decided here.

use vstd::prelude::*;

verus! {

/// The endpoint of the market-data source where `WEBSOCKET_URL` is not set.
pub const DEFAULT_WEBSOCKET_URL: &'static str =
    "wss://demo-exchange.kalshi.com/trade-api/v2/market-data";

/// The order-entry target where `FIX_TARGET` is not set.
pub const DEFAULT_FIX_TARGET: &'static str = "demo-fix.kalshi.com:1234";

/// The market where `MARKET` is not set.
pub const DEFAULT_MARKET: &'static str = "BTC-HOURLY";

/// The account where `ACCOUNT` is not set.
pub const DEFAULT_ACCOUNT: &'static str = "SIM-ACCOUNT";

/// What the environment holds of the variables that configure the process:
/// `None` for a variable that is not set.
#[derive(Debug, PartialEq, Eq)]
pub struct Environment {
    pub websocket_url: Option<String>,
    pub fix_target: Option<String>,
    pub market: Option<String>,
    pub account: Option<String>,
    pub dry_run: Option<String>,
}

/// The configuration of the process.
#[derive(Debug, PartialEq, Eq)]
pub struct Config {
    /// The endpoint of the market-data source, an absolute URL in its
    /// normal form.
    pub websocket_url: String,
    pub fix_target: String,
    pub market: String,
    pub account: String,
    pub dry_run: bool,
}

/// Why no configuration could be settled.
#[derive(Clone, Copy, Debug, PartialEq, Eq, Structural)]
pub enum ConfigError {
    /// The endpoint of the market-data source is not an absolute URL.
    InvalidWebsocketUrl,
}

#[verifier::external_type_specification]
#[verifier::external_body]
pub struct ExParseError(url::ParseError);

/// What `url::Url::parse` makes of a text: the URL in its serialised, normal
/// form, or `None` where the text is not an absolute URL.
pub uninterp spec fn parsed_url(text: Seq<char>) -> Option<Seq<char>>;

/// Calls `url::Url::parse` and, where the text is accepted, takes the URL's
/// serialisation out of the parsed value.
#[verifier::external_body]
fn parse_url(text: &str) -> (parsed: Result<String, url::ParseError>)
    ensures
        match parsed {
            Ok(url) => parsed_url(text@) == Some(url@),
            Err(_) => parsed_url(text@) is None,
        },
{
    url::Url::parse(text).map(String::from)
}

/// The value of a variable, or `fallback` where it is not set.
pub open spec fn value_or(variable: Option<String>, fallback: Seq<char>) -> Seq<char> {
    match variable {
        Some(value) => value@,
        None => fallback,
    }
}

/// Whether the character is `letter`, a lower-case ASCII letter, in either
/// case.
pub open spec fn is_letter_in_any_case(character: char, letter: char, capital: char) -> bool {
    character == letter || character == capital
}

/// Whether the text switches a flag on: it is `1`, or it is `true` in any
/// mix of upper and lower case.
pub open spec fn switches_on(text: Seq<char>) -> bool {
    ||| (text.len() == 1 && text[0] == '1')
    ||| (text.len() == 4 && is_letter_in_any_case(text[0], 't', 'T') && is_letter_in_any_case(
        text[1],
        'r',
        'R',
    ) && is_letter_in_any_case(text[2], 'u', 'U') && is_letter_in_any_case(text[3], 'e', 'E'))
}

/// Whether the dry run is on: it is unless `DRY_RUN` is set to something
/// that does not switch it on.
pub open spec fn dry_run_of(variable: Option<String>) -> bool {
    match variable {
        Some(value) => switches_on(value@),
        None => true,
    }
}

/// Whether the text switches a flag on.
pub fn is_switched_on(text: &str) -> (on: bool)
    ensures
        on == switches_on(text@),
{
    let length = text.unicode_len();
    if length == 1 {
        text.get_char(0) == '1'
    } else if length == 4 {
        let t = text.get_char(0);
        let r = text.get_char(1);
        let u = text.get_char(2);
        let e = text.get_char(3);
        (t == 't' || t == 'T') && (r == 'r' || r == 'R') && (u == 'u' || u == 'U') && (e == 'e'
            || e == 'E')
    } else {
        false
    }
}

/// The value of a variable, or `fallback` where it is not set.
fn or_default(variable: Option<String>, fallback: &str) -> (value: String)
    ensures
        value@ == value_or(variable, fallback@),
{
    match variable {
        Some(value) => value,
        None => String::from_str(fallback),
    }
}

impl Config {
    /// The configuration around an endpoint that is already known to be a
    /// URL: every other variable that is not set gets its default, and the
    /// dry run is on unless `dry_run` says otherwise.
    pub fn with_endpoint(
        websocket_url: String,
        fix_target: Option<String>,
        market: Option<String>,
        account: Option<String>,
        dry_run: Option<String>,
    ) -> (config: Config)
        ensures
            config.websocket_url@ == websocket_url@,
            config.fix_target@ == value_or(fix_target, DEFAULT_FIX_TARGET@),
            config.market@ == value_or(market, DEFAULT_MARKET@),
            config.account@ == value_or(account, DEFAULT_ACCOUNT@),
            config.dry_run == dry_run_of(dry_run),
    {
        let dry_run = match &dry_run {
            Some(value) => is_switched_on(value.as_str()),
            None => true,
        };
        Config {
            websocket_url,
            fix_target: or_default(fix_target, DEFAULT_FIX_TARGET),
            market: or_default(market, DEFAULT_MARKET),
            account: or_default(account, DEFAULT_ACCOUNT),
            dry_run,
        }
    }

    /// Settles the configuration from what the environment holds. It fails
    /// exactly where the endpoint, set or by default, is not an absolute
    /// URL.
    pub fn from_env(environment: Environment) -> (settled: Result<Config, ConfigError>)
        ensures
            match settled {
                Ok(config) => {
                    &&& parsed_url(value_or(environment.websocket_url, DEFAULT_WEBSOCKET_URL@))
                        == Some(config.websocket_url@)
                    &&& config.fix_target@ == value_or(environment.fix_target, DEFAULT_FIX_TARGET@)
                    &&& config.market@ == value_or(environment.market, DEFAULT_MARKET@)
                    &&& config.account@ == value_or(environment.account, DEFAULT_ACCOUNT@)
                    &&& config.dry_run == dry_run_of(environment.dry_run)
                },
                Err(error) => {
                    &&& parsed_url(value_or(environment.websocket_url, DEFAULT_WEBSOCKET_URL@))
                        is None
                    &&& error == ConfigError::InvalidWebsocketUrl
                },
            },
    {
        let endpoint = or_default(environment.websocket_url, DEFAULT_WEBSOCKET_URL);
        match parse_url(endpoint.as_str()) {
            Ok(websocket_url) => Ok(
                Config::with_endpoint(
                    websocket_url,
                    environment.fix_target,
                    environment.market,
                    environment.account,
                    environment.dry_run,
                ),
            ),
            Err(_) => Err(ConfigError::InvalidWebsocketUrl),
        }
    }
}

} // verus!
