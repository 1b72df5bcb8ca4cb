//! Server configuration: where the server is meant to listen.

use vstd::prelude::*;
use vstd::string::StringExecFns;

verus! {

/// Application configuration.
pub struct AppConfig {
    pub host: String,
    pub port: u16,
}

/// The mathematical content of an [`AppConfig`].
pub ghost struct AppConfigView {
    pub host: Seq<char>,
    pub port: nat,
}

impl View for AppConfig {
    type V = AppConfigView;

    open spec fn view(&self) -> AppConfigView {
        AppConfigView { host: self.host@, port: self.port as nat }
    }
}

/// Port of the default configuration.
pub const DEFAULT_PORT: u16 = 3000;

/// The default configuration: the loopback host and [`DEFAULT_PORT`].
pub open spec fn default_config() -> AppConfigView {
    AppConfigView { host: "127.0.0.1"@, port: DEFAULT_PORT as nat }
}

/// The character that stands for the digit `d`, for `d` below ten.
pub open spec fn digit_char(d: nat) -> char
    recommends
        d < 10,
{
    seq!['0', '1', '2', '3', '4', '5', '6', '7', '8', '9'][d as int]
}

/// The decimal numeral of `n`, without leading zeros.
pub open spec fn decimal(n: nat) -> Seq<char>
    decreases n,
{
    if n < 10 {
        seq![digit_char(n)]
    } else {
        decimal(n / 10).push(digit_char(n % 10))
    }
}

/// The text of an address: host, a colon, and the port in decimal.
pub open spec fn address_text(config: AppConfigView) -> Seq<char> {
    config.host + seq![':'] + decimal(config.port)
}

impl Default for AppConfig {
    fn default() -> (config: Self)
        ensures
            config@ == default_config(),
    {
        Self { host: "127.0.0.1".to_string(), port: DEFAULT_PORT }
    }
}

/// Initialize the application: the configuration to start from is the default.
pub fn init() -> (config: AppConfig)
    ensures
        config@ == default_config(),
{
    AppConfig::default()
}

/// The one-character text of a decimal digit.
fn digit_text(d: u16) -> (text: &'static str)
    requires
        d < 10,
    ensures
        text@ == seq![digit_char(d as nat)],
{
    proof {
        reveal_strlit("0");
        reveal_strlit("1");
        reveal_strlit("2");
        reveal_strlit("3");
        reveal_strlit("4");
        reveal_strlit("5");
        reveal_strlit("6");
        reveal_strlit("7");
        reveal_strlit("8");
        reveal_strlit("9");
    }
    match d {
        0 => "0",
        1 => "1",
        2 => "2",
        3 => "3",
        4 => "4",
        5 => "5",
        6 => "6",
        7 => "7",
        8 => "8",
        _ => "9",
    }
}

/// Writes `n` in decimal.
fn decimal_text(n: u16) -> (text: String)
    ensures
        text@ == decimal(n as nat),
    decreases n,
{
    if n < 10 {
        digit_text(n).to_string()
    } else {
        decimal_text(n / 10).concat(digit_text(n % 10))
    }
}

impl AppConfig {
    /// The address the configuration names, as `host:port`.
    pub fn address(&self) -> (text: String)
        ensures
            text@ == address_text(self@),
    {
        proof {
            reveal_strlit(":");
        }
        self.host.clone().concat(":").concat(decimal_text(self.port).as_str())
    }
}

} // verus!
