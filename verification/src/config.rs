//! The configuration of the gateway: where it listens and where its two stores lie.

use crate::text::{chars_of, opt_view};
use vstd::prelude::*;

verus! {

/// Where the gateway listens.
#[derive(Debug, Clone)]
pub struct ServerConfig {
    pub port: u16,
    pub host: String,
}

/// Where the two stores lie.
#[derive(Debug, Clone)]
pub struct DatabaseConfig {
    pub path: String,
    pub log_path: String,
}

/// The configuration of the gateway.
#[derive(Debug, Clone)]
pub struct Config {
    pub server: ServerConfig,
    pub database: DatabaseConfig,
}

/// What the surroundings say: the variables that override the defaults, and the home
/// directory.
#[derive(Debug, Clone)]
pub struct Environment {
    /// `GATEWAY_PORT`
    pub gateway_port: Option<String>,
    /// `GATEWAY_HOST`
    pub gateway_host: Option<String>,
    /// `CCG_DATA_DIR`
    pub data_dir: Option<String>,
    /// The home directory of the user, if there is one.
    pub home_dir: Option<String>,
}

/// The number that decimal digits stand for.
pub open spec fn digits_value(digits: Seq<char>) -> int
    decreases digits.len(),
{
    if digits.len() == 0 {
        0
    } else {
        digits_value(digits.drop_last()) * 10 + (digits.last() as int - '0' as int)
    }
}

/// Whether every character is a decimal digit.
pub open spec fn all_digits(s: Seq<char>) -> bool {
    forall|i: int| 0 <= i < s.len() ==> '0' <= #[trigger] s[i] <= '9'
}

/// The port that a text stands for: decimal digits, with `+` before them or not, that give
/// a number up to 65535.
pub open spec fn port_of(text: Seq<char>) -> Option<u16> {
    let digits = if text.len() > 0 && text[0] == '+' {
        text.skip(1)
    } else {
        text
    };
    if digits.len() > 0 && all_digits(digits) && digits_value(digits) <= 65535 {
        Some(digits_value(digits) as u16)
    } else {
        None
    }
}

/// `dir` and `file` as one path, with `/` between them where `dir` does not end in one.
pub open spec fn path_in(dir: Seq<char>, file: Seq<char>) -> Seq<char> {
    if dir.len() == 0 {
        file
    } else if dir.last() == '/' {
        dir + file
    } else {
        dir + "/"@ + file
    }
}

/// The directory of the stores: the override where it is set, else `.ccg-gateway` in the
/// home directory, else `.ccg-gateway` in the working directory.
pub open spec fn data_dir_of(data_dir: Option<Seq<char>>, home_dir: Option<Seq<char>>) -> Seq<
    char,
> {
    match data_dir {
        Some(dir) => dir,
        None => match home_dir {
            Some(home) => path_in(home, ".ccg-gateway"@),
            None => path_in("."@, ".ccg-gateway"@),
        },
    }
}

proof fn lemma_digits_grow(digits: Seq<char>, n: int)
    requires
        0 <= n <= digits.len(),
        all_digits(digits),
    ensures
        0 <= digits_value(digits.take(n)) <= digits_value(digits),
    decreases digits.len() - n,
{
    if n < digits.len() {
        lemma_digits_grow(digits, n + 1);
        assert(digits.take(n + 1).drop_last() =~= digits.take(n));
        lemma_digits_nonneg(digits.take(n));
    } else {
        assert(digits.take(n) =~= digits);
        lemma_digits_nonneg(digits);
    }
}

proof fn lemma_digits_nonneg(digits: Seq<char>)
    requires
        all_digits(digits),
    ensures
        digits_value(digits) >= 0,
    decreases digits.len(),
{
    if digits.len() > 0 {
        assert(all_digits(digits.drop_last())) by {
            assert forall|i: int| 0 <= i < digits.drop_last().len() implies '0'
                <= #[trigger] digits.drop_last()[i] <= '9' by {
                assert(digits.drop_last()[i] == digits[i]);
            }
        }
        lemma_digits_nonneg(digits.drop_last());
    }
}

/// The port that a text stands for.
pub fn parse_port(text: &str) -> (r: Option<u16>)
    ensures
        r == port_of(text@),
{
    let chars = chars_of(text);
    let start: usize = if chars.len() > 0 && chars[0] == '+' {
        1
    } else {
        0
    };
    let ghost digits = chars@.skip(start as int);
    if chars.len() == start {
        return None;
    }
    let mut value: u32 = 0;
    let mut i: usize = start;
    assert(digits.take(0) =~= Seq::empty());
    while i < chars.len()
        invariant
            start <= i <= chars.len(),
            chars@ == text@,
            start < chars.len(),
            start == (if text@.len() > 0 && text@[0] == '+' {
                1int
            } else {
                0int
            }),
            digits == chars@.skip(start as int),
            all_digits(digits.take(i - start)),
            value == digits_value(digits.take(i - start)),
            value <= 65535,
        decreases chars.len() - i,
    {
        let c = chars[i];
        let ghost longer = digits.take(i - start + 1);
        assert(longer.drop_last() =~= digits.take(i - start));
        assert(longer.last() == c);
        if !('0' <= c && c <= '9') {
            assert(!all_digits(digits)) by {
                assert(digits[i - start] == c);
            }
            assert(chars@.skip(0) =~= chars@);
            return None;
        }
        let d: u32 = (c as u32) - ('0' as u32);
        let next: u32 = value * 10 + d;
        assert(digits_value(longer) == next);
        if next > 65535 {
            proof {
                assert(chars@.skip(0) =~= chars@);
                if all_digits(digits) {
                    lemma_digits_grow(digits, i - start + 1);
                }
            }
            return None;
        }
        value = next;
        assert(all_digits(longer)) by {
            assert forall|j: int| 0 <= j < longer.len() implies '0' <= #[trigger] longer[j]
                <= '9' by {
                if j < longer.len() - 1 {
                    assert(digits.take(i - start)[j] == longer[j]);
                }
            }
        }
        i += 1;
    }
    assert(digits.take(chars.len() - start) =~= digits);
    assert(chars@.skip(0) =~= chars@);
    Some(value as u16)
}

/// `dir` and `file` as one path.
pub fn join_path(dir: &str, file: &str) -> (r: String)
    ensures
        r@ == path_in(dir@, file@),
{
    let chars = chars_of(dir);
    if chars.len() == 0 {
        String::from_str(file)
    } else if chars[chars.len() - 1] == '/' {
        String::from_str(dir).concat(file)
    } else {
        String::from_str(dir).concat("/").concat(file)
    }
}

/// The directory of the stores.
pub fn get_data_dir(env: &Environment) -> (r: String)
    ensures
        r@ == data_dir_of(opt_view(env.data_dir), opt_view(env.home_dir)),
{
    match &env.data_dir {
        Some(dir) => dir.clone(),
        None => match &env.home_dir {
            Some(home) => join_path(home.as_str(), ".ccg-gateway"),
            None => join_path(".", ".ccg-gateway"),
        },
    }
}

/// Where the configuration store lies unless told otherwise.
pub fn default_db_path(env: &Environment) -> (r: String)
    ensures
        r@ == path_in(
            data_dir_of(opt_view(env.data_dir), opt_view(env.home_dir)),
            "ccg_gateway.db"@,
        ),
{
    join_path(get_data_dir(env).as_str(), "ccg_gateway.db")
}

/// Where the telemetry store lies unless told otherwise.
pub fn default_log_db_path(env: &Environment) -> (r: String)
    ensures
        r@ == path_in(data_dir_of(opt_view(env.data_dir), opt_view(env.home_dir)), "ccg_logs.db"@),
{
    join_path(get_data_dir(env).as_str(), "ccg_logs.db")
}

/// The port to listen on: 7788 unless `GATEWAY_PORT` names another.
pub open spec fn port_setting(gateway_port: Option<Seq<char>>) -> u16 {
    match gateway_port {
        Some(text) => match port_of(text) {
            Some(port) => port,
            None => 7788,
        },
        None => 7788,
    }
}

/// Whether `config` is the configuration that the surroundings give.
pub open spec fn config_is(config: Config, env: Environment) -> bool {
    let dir = data_dir_of(opt_view(env.data_dir), opt_view(env.home_dir));
    &&& config.server.port == port_setting(opt_view(env.gateway_port))
    &&& config.server.host@ == match env.gateway_host {
        Some(host) => host@,
        None => "127.0.0.1"@,
    }
    &&& config.database.path@ == path_in(dir, "ccg_gateway.db"@)
    &&& config.database.log_path@ == path_in(dir, "ccg_logs.db"@)
}

impl Config {
    /// The configuration of the gateway: the defaults, overridden by the surroundings.
    pub fn load(env: &Environment) -> (r: Config)
        ensures
            config_is(r, *env),
    {
        let port: u16 = match &env.gateway_port {
            Some(text) => match parse_port(text.as_str()) {
                Some(p) => p,
                None => 7788,
            },
            None => 7788,
        };
        let host = match &env.gateway_host {
            Some(h) => h.clone(),
            None => String::from_str("127.0.0.1"),
        };
        Config {
            server: ServerConfig { port, host },
            database: DatabaseConfig {
                path: default_db_path(env),
                log_path: default_log_db_path(env),
            },
        }
    }
}

} // verus!
