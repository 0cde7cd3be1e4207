//! Configuration from environment variables.
//!
//! | Variable | Default |
//! |---|---|
//! | `GATE_SPOT_SYMBOL`, then `SPOT_SYMBOL` | `BTC_USDT` |
//! | `GATE_PERP_SYMBOL`, then `PERP_SYMBOL` | `BTC_USDT` |
//! | `GATE_SPREAD_THRESHOLD_BPS` | 50 |
//! | `GATE_FRONTEND_PORT`, then `FRONTEND_PORT` | 8080 |
//! | `GATE_HEALTH_PORT`, then `HEALTH_PORT` | 8081 |
//! | `GATE_MAX_POSITION_USD` | 1000 |
//! | `PAPER_MODE` | true, unless it is `false` |

use vstd::prelude::*;
use vstd::utf8::*;

use crate::decimal::{
    append_decimal, decimal, decimal_round_trip, number_or, numbers_are_read_as_written, parse_u16,
    parse_u64, parse_uint,
};
use crate::json::{append_json_bool, json_bool};
use crate::text::{opt_text, same_text};
use crate::types::SCALE;

verus! {

/// The variables that are read. One that is not set is `None`.
#[derive(Debug, Clone)]
pub struct Vars {
    pub gate_spot_symbol: Option<String>,
    pub gate_perp_symbol: Option<String>,
    pub gate_spread_threshold_bps: Option<String>,
    pub gate_frontend_port: Option<String>,
    pub gate_health_port: Option<String>,
    pub gate_max_position_usd: Option<String>,
    pub paper_mode: Option<String>,
    pub spot_symbol: Option<String>,
    pub perp_symbol: Option<String>,
    pub frontend_port: Option<String>,
    pub health_port: Option<String>,
}

impl Default for Vars {
    fn default() -> (r: Self)
        ensures
            r == (Vars {
                gate_spot_symbol: None,
                gate_perp_symbol: None,
                gate_spread_threshold_bps: None,
                gate_frontend_port: None,
                gate_health_port: None,
                gate_max_position_usd: None,
                paper_mode: None,
                spot_symbol: None,
                perp_symbol: None,
                frontend_port: None,
                health_port: None,
            }),
    {
        Vars {
            gate_spot_symbol: None,
            gate_perp_symbol: None,
            gate_spread_threshold_bps: None,
            gate_frontend_port: None,
            gate_health_port: None,
            gate_max_position_usd: None,
            paper_mode: None,
            spot_symbol: None,
            perp_symbol: None,
            frontend_port: None,
            health_port: None,
        }
    }
}

/// Configuration of the process.
#[derive(Debug, Clone)]
pub struct Config {
    /// Spot trading pair.
    pub spot_symbol: String,
    /// Perpetual contract.
    pub perp_symbol: String,
    /// Spread threshold in basis points.
    pub spread_threshold_bps: u64,
    /// Spread threshold in raw units, at a reference price of 50 000 USD.
    pub spread_threshold_raw: u64,
    /// Port of the dashboard.
    pub frontend_port: u16,
    /// Port of the health endpoint.
    pub health_port: u16,
    /// Largest position in USD.
    pub max_position_usd: u64,
    /// No real orders are placed.
    pub paper_mode: bool,
}

/// The first of two variables, or the second if the first is not set.
pub open spec fn first_set(a: Option<Seq<char>>, b: Option<Seq<char>>) -> Option<Seq<char>> {
    match a {
        Some(s) => Some(s),
        None => b,
    }
}

/// A variable, or a default if it is not set.
pub open spec fn text_or(v: Option<Seq<char>>, default: Seq<char>) -> Seq<char> {
    match v {
        Some(s) => s,
        None => default,
    }
}

/// Raw spread of so many basis points at the reference price of 50 000 USD.
pub open spec fn threshold_raw(bps: nat) -> nat {
    bps * (50_000 * SCALE as nat) / 10_000
}

/// The threshold in basis points.
pub open spec fn threshold_bps(vars: Vars) -> nat {
    number_or(opt_text(vars.gate_spread_threshold_bps), u64::MAX as nat, 50)
}

/// The configuration that variables give.
pub open spec fn is_config_of(c: Config, vars: Vars) -> bool {
    &&& c.spot_symbol@ == text_or(
        first_set(opt_text(vars.gate_spot_symbol), opt_text(vars.spot_symbol)),
        "BTC_USDT"@,
    )
    &&& c.perp_symbol@ == text_or(
        first_set(opt_text(vars.gate_perp_symbol), opt_text(vars.perp_symbol)),
        "BTC_USDT"@,
    )
    &&& c.spread_threshold_bps == threshold_bps(vars)
    &&& c.spread_threshold_raw == threshold_raw(threshold_bps(vars))
    &&& c.frontend_port == number_or(
        first_set(opt_text(vars.gate_frontend_port), opt_text(vars.frontend_port)),
        u16::MAX as nat,
        8080,
    )
    &&& c.health_port == number_or(
        first_set(opt_text(vars.gate_health_port), opt_text(vars.health_port)),
        u16::MAX as nat,
        8081,
    )
    &&& c.max_position_usd == number_or(
        opt_text(vars.gate_max_position_usd),
        u64::MAX as nat,
        1000,
    )
    &&& c.paper_mode <==> opt_text(vars.paper_mode) != Some("false"@)
}

/// A raw threshold is five hundred million raw units per basis point.
proof fn threshold_raw_is_linear(bps: nat)
    ensures
        threshold_raw(bps) == bps * 500_000_000,
{
    assert(bps * (50_000 * SCALE as nat) == bps * 500_000_000 * 10_000) by (nonlinear_arith)
        requires
            SCALE == 100_000_000,
    ;
}

/// The first of two variables that is set, or a default.
fn pick(a: &Option<String>, b: &Option<String>, default: &str) -> (r: String)
    ensures
        r@ == text_or(first_set(opt_text(*a), opt_text(*b)), default@),
{
    match a {
        Some(s) => s.clone(),
        None => match b {
            Some(s) => s.clone(),
            None => default.to_string(),
        },
    }
}

/// The number in a variable, or a default.
fn number(v: &Option<String>, default: u64) -> (r: u64)
    ensures
        r == number_or(opt_text(*v), u64::MAX as nat, default as nat),
{
    match v {
        Some(s) => match parse_u64(s.as_str()) {
            Some(n) => n,
            None => default,
        },
        None => default,
    }
}

/// The port in the first of two variables that is set, or a default.
fn port(a: &Option<String>, b: &Option<String>, default: u16) -> (r: u16)
    ensures
        r == number_or(
            first_set(opt_text(*a), opt_text(*b)),
            u16::MAX as nat,
            default as nat,
        ),
{
    let v = match a {
        Some(s) => s.as_str(),
        None => match b {
            Some(s) => s.as_str(),
            None => return default,
        },
    };
    match parse_u16(v) {
        Some(n) => n,
        None => default,
    }
}

impl Config {
    /// Whether the raw threshold that the variables ask for fits.
    pub fn threshold_fits(vars: &Vars) -> (r: bool)
        ensures
            r <==> threshold_raw(threshold_bps(*vars)) <= u64::MAX,
    {
        let bps: u64 = number(&vars.gate_spread_threshold_bps, 50);
        proof {
            threshold_raw_is_linear(bps as nat);
        }
        bps as u128 * 500_000_000 <= u64::MAX as u128
    }

    /// The configuration that variables give. The raw threshold must fit: see `threshold_fits`.
    pub fn from_vars(vars: &Vars) -> (r: Self)
        requires
            threshold_raw(threshold_bps(*vars)) <= u64::MAX,
        ensures
            is_config_of(r, *vars),
    {
        let spread_threshold_bps: u64 = number(&vars.gate_spread_threshold_bps, 50);
        proof {
            threshold_raw_is_linear(spread_threshold_bps as nat);
        }
        let paper_mode = match &vars.paper_mode {
            Some(v) => !same_text(v.as_str(), "false"),
            None => true,
        };
        Config {
            spot_symbol: pick(&vars.gate_spot_symbol, &vars.spot_symbol, "BTC_USDT"),
            perp_symbol: pick(&vars.gate_perp_symbol, &vars.perp_symbol, "BTC_USDT"),
            spread_threshold_bps,
            spread_threshold_raw: spread_threshold_bps * SCALE * 5,
            frontend_port: port(&vars.gate_frontend_port, &vars.frontend_port, 8080),
            health_port: port(&vars.gate_health_port, &vars.health_port, 8081),
            max_position_usd: number(&vars.gate_max_position_usd, 1000),
            paper_mode,
        }
    }

    /// The line that logs the effective configuration.
    pub fn log_effective(&self) -> (r: String)
        ensures
            r@ == "Config: spot="@ + self.spot_symbol@ + " perp="@ + self.perp_symbol@
                + " threshold="@ + decimal(self.spread_threshold_bps as nat)
                + "bps frontend_port="@ + decimal(self.frontend_port as nat) + " health_port="@
                + decimal(self.health_port as nat) + " max_pos_usd="@ + decimal(
                self.max_position_usd as nat,
            ) + " paper_mode="@ + json_bool(self.paper_mode),
    {
        let mut out = "Config: spot=".to_string();
        out.append(self.spot_symbol.as_str());
        out.append(" perp=");
        out.append(self.perp_symbol.as_str());
        out.append(" threshold=");
        append_decimal(&mut out, self.spread_threshold_bps);
        out.append("bps frontend_port=");
        append_decimal(&mut out, self.frontend_port as u64);
        out.append(" health_port=");
        append_decimal(&mut out, self.health_port as u64);
        out.append(" max_pos_usd=");
        append_decimal(&mut out, self.max_position_usd);
        out.append(" paper_mode=");
        append_json_bool(&mut out, self.paper_mode);
        out
    }
}

/// The names with the `GATE_` prefix take precedence: once one is set, its older name has no
/// effect, whether or not it holds a usable value.
pub proof fn gate_names_take_precedence(c: Config, d: Config, vars: Vars, other: Vars)
    requires
        is_config_of(c, vars),
        is_config_of(d, other),
        other == (Vars {
            spot_symbol: other.spot_symbol,
            perp_symbol: other.perp_symbol,
            frontend_port: other.frontend_port,
            health_port: other.health_port,
            ..vars
        }),
        vars.gate_spot_symbol is Some,
        vars.gate_perp_symbol is Some,
        vars.gate_frontend_port is Some,
        vars.gate_health_port is Some,
    ensures
        c.spot_symbol@ == d.spot_symbol@,
        c.perp_symbol@ == d.perp_symbol@,
        c.frontend_port == d.frontend_port,
        c.health_port == d.health_port,
{
}

/// Paper mode is left only by `PAPER_MODE=false`.
pub proof fn paper_mode_is_the_default(c: Config, vars: Vars)
    requires
        is_config_of(c, vars),
    ensures
        !c.paper_mode <==> (vars.paper_mode matches Some(v) && v@ == "false"@),
{
}

/// The raw threshold is the one in basis points at 50 000 USD: five USD per basis point.
pub proof fn threshold_is_five_usd_per_basis_point(vars: Vars, c: Config, fits: bool)
    requires
        threshold_bps(vars) * 500_000_000 <= u64::MAX,
        call_ensures(Config::from_vars, (&vars,), c),
        call_ensures(Config::threshold_fits, (&vars,), fits),
    ensures
        c.spread_threshold_raw == c.spread_threshold_bps * 500_000_000,
        fits,
{
    threshold_raw_is_linear(threshold_bps(vars));
}

/// A threshold whose raw value does not fit is told apart beforehand.
pub proof fn threshold_that_does_not_fit_is_told(vars: Vars, fits: bool, n: u64)
    requires
        call_ensures(Config::threshold_fits, (&vars,), fits),
        vars.gate_spread_threshold_bps is Some,
        vars.gate_spread_threshold_bps->0@ == decimal(n as nat),
    ensures
        fits <==> n * 500_000_000 <= u64::MAX,
{
    decimal_round_trip(n);
    threshold_raw_is_linear(n as nat);
}

/// Each setting is read from its own variable, the newer name before the older, and a number as it
/// was written.
pub proof fn settings_are_read_from_their_variables(vars: Vars, c: Config, n: u64, port: u16)
    requires
        threshold_bps(vars) * 500_000_000 <= u64::MAX,
        call_ensures(Config::from_vars, (&vars,), c),
    ensures
        vars.gate_spot_symbol matches Some(s) ==> c.spot_symbol@ == s@,
        vars.gate_spot_symbol is None ==> (vars.spot_symbol matches Some(s) ==> c.spot_symbol@
            == s@),
        vars.gate_perp_symbol matches Some(s) ==> c.perp_symbol@ == s@,
        vars.gate_perp_symbol is None ==> (vars.perp_symbol matches Some(s) ==> c.perp_symbol@
            == s@),
        vars.gate_spread_threshold_bps matches Some(s) ==> s@ == decimal(n as nat)
            ==> c.spread_threshold_bps == n,
        vars.gate_frontend_port matches Some(s) ==> s@ == decimal(port as nat) ==> c.frontend_port
            == port,
        vars.gate_frontend_port is None ==> (vars.frontend_port matches Some(s) ==> s@ == decimal(
            port as nat,
        ) ==> c.frontend_port == port),
        vars.gate_health_port matches Some(s) ==> s@ == decimal(port as nat) ==> c.health_port
            == port,
        vars.gate_health_port is None ==> (vars.health_port matches Some(s) ==> s@ == decimal(
            port as nat,
        ) ==> c.health_port == port),
        vars.gate_max_position_usd matches Some(s) ==> s@ == decimal(n as nat)
            ==> c.max_position_usd == n,
        c.paper_mode <==> !(vars.paper_mode matches Some(s) && s@ == "false"@),
{
    decimal_round_trip(n);
    numbers_are_read_as_written(port as nat, u16::MAX as nat);
    threshold_raw_is_linear(threshold_bps(vars));
}

/// A setting that is not set, or whose number cannot be read, takes its default: the pair BTC_USDT on
/// both sides, 50 basis points, port 8080 for the dashboard and 8081 for the health, 1000 USD.
pub proof fn settings_have_their_defaults(vars: Vars, c: Config)
    requires
        threshold_bps(vars) * 500_000_000 <= u64::MAX,
        call_ensures(Config::from_vars, (&vars,), c),
    ensures
        vars.gate_spot_symbol is None && vars.spot_symbol is None ==> c.spot_symbol@
            == "BTC_USDT"@,
        vars.gate_perp_symbol is None && vars.perp_symbol is None ==> c.perp_symbol@
            == "BTC_USDT"@,
        vars.gate_spread_threshold_bps is None || parse_uint(
            encode_utf8(vars.gate_spread_threshold_bps->0@),
            u64::MAX as nat,
        ) is None ==> c.spread_threshold_bps == 50,
        vars.gate_frontend_port is None && vars.frontend_port is None ==> c.frontend_port == 8080,
        vars.gate_frontend_port matches Some(s) ==> parse_uint(
            encode_utf8(s@),
            u16::MAX as nat,
        ) is None ==> c.frontend_port == 8080,
        vars.gate_health_port is None && vars.health_port is None ==> c.health_port == 8081,
        vars.gate_health_port matches Some(s) ==> parse_uint(
            encode_utf8(s@),
            u16::MAX as nat,
        ) is None ==> c.health_port == 8081,
        vars.gate_max_position_usd is None || parse_uint(
            encode_utf8(vars.gate_max_position_usd->0@),
            u64::MAX as nat,
        ) is None ==> c.max_position_usd == 1000,
        vars.paper_mode is None ==> c.paper_mode,
{
    threshold_raw_is_linear(threshold_bps(vars));
}

/// The line that is logged shows each setting under its own name.
pub proof fn logged_settings_are_the_effective_ones(c: Config, r: String)
    requires
        call_ensures(Config::log_effective, (&c,), r),
    ensures
        r@ == "Config: spot="@ + c.spot_symbol@ + " perp="@ + c.perp_symbol@ + " threshold="@
            + decimal(c.spread_threshold_bps as nat) + "bps frontend_port="@ + decimal(
            c.frontend_port as nat,
        ) + " health_port="@ + decimal(c.health_port as nat) + " max_pos_usd="@ + decimal(
            c.max_position_usd as nat,
        ) + " paper_mode="@ + (if c.paper_mode {
            "true"@
        } else {
            "false"@
        }),
{
}

} // verus!
