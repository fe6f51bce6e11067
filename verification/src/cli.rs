//! The bridge's command line: long options, each of which may also come
//! from an environment variable, with defaults and the rules that tie the
//! ntfy credentials together.
//!
//! Options: `--ntfy-url`, `--ntfy-username`, `--ntfy-password`,
//! `--ntfy-token`, `--api-token`, `--listen-addr`, `--base-path`,
//! `--log-level`, each written `--name value` or `--name=value`, at most
//! once; `--help`/`-h` and `--version`/`-V` ask for help and version.

use vstd::prelude::*;
use crate::config::{AuthConfig, Config, ConfigView, Credentials};
use crate::text::str_eq;
use crate::url_check::{ntfy_url_verdict_spec, parse_ntfy_url, url_parse_outcome};

verus! {

/// The number of options.
pub const OPTION_COUNT: usize = 8;

/// The long name of option `i`.
pub open spec fn option_name(i: int) -> Seq<char> {
    if i == 0 {
        "ntfy-url"@
    } else if i == 1 {
        "ntfy-username"@
    } else if i == 2 {
        "ntfy-password"@
    } else if i == 3 {
        "ntfy-token"@
    } else if i == 4 {
        "api-token"@
    } else if i == 5 {
        "listen-addr"@
    } else if i == 6 {
        "base-path"@
    } else {
        "log-level"@
    }
}

/// The environment variable that stands in for option `i`.
pub open spec fn option_variable(i: int) -> Seq<char> {
    if i == 0 {
        "NTFY_URL"@
    } else if i == 1 {
        "NTFY_USERNAME"@
    } else if i == 2 {
        "NTFY_PASSWORD"@
    } else if i == 3 {
        "NTFY_TOKEN"@
    } else if i == 4 {
        "API_TOKEN"@
    } else if i == 5 {
        "LISTEN_ADDR"@
    } else if i == 6 {
        "BASE_PATH"@
    } else {
        "LOG_LEVEL"@
    }
}

/// The option that a long name names.
pub open spec fn option_named(name: Seq<char>) -> Option<int> {
    if name == option_name(0) {
        Some(0)
    } else if name == option_name(1) {
        Some(1)
    } else if name == option_name(2) {
        Some(2)
    } else if name == option_name(3) {
        Some(3)
    } else if name == option_name(4) {
        Some(4)
    } else if name == option_name(5) {
        Some(5)
    } else if name == option_name(6) {
        Some(6)
    } else if name == option_name(7) {
        Some(7)
    } else {
        None
    }
}

/// Why a command line is not a configuration, or that it asks for help or
/// the version instead.
#[derive(Clone, Debug)]
pub enum ConfigError {
    /// `--help` or `-h`.
    Help,
    /// `--version` or `-V`.
    Version,
    /// An option or flag that the bridge does not have.
    UnknownArgument(String),
    /// An argument that is not an option.
    UnexpectedArgument(String),
    /// A value attached to a flag that takes none.
    UnexpectedValue(String),
    /// An option without its value.
    MissingValue(String),
    /// An option given twice.
    RepeatedArgument(String),
    /// An option whose value is refused, with the reason.
    InvalidValue(String, String),
    /// Two options that cannot be used together.
    ArgumentConflict(String, String),
    /// An option that another option needs, missing.
    MissingRequired(String),
}

/// The mathematical model of a [`ConfigError`].
pub enum ConfigErrorView {
    Help,
    Version,
    UnknownArgument(Seq<char>),
    UnexpectedArgument(Seq<char>),
    UnexpectedValue(Seq<char>),
    MissingValue(Seq<char>),
    RepeatedArgument(Seq<char>),
    InvalidValue(Seq<char>, Seq<char>),
    ArgumentConflict(Seq<char>, Seq<char>),
    MissingRequired(Seq<char>),
}

impl View for ConfigError {
    type V = ConfigErrorView;

    open spec fn view(&self) -> ConfigErrorView {
        match self {
            ConfigError::Help => ConfigErrorView::Help,
            ConfigError::Version => ConfigErrorView::Version,
            ConfigError::UnknownArgument(a) => ConfigErrorView::UnknownArgument(a@),
            ConfigError::UnexpectedArgument(a) => ConfigErrorView::UnexpectedArgument(a@),
            ConfigError::UnexpectedValue(a) => ConfigErrorView::UnexpectedValue(a@),
            ConfigError::MissingValue(a) => ConfigErrorView::MissingValue(a@),
            ConfigError::RepeatedArgument(a) => ConfigErrorView::RepeatedArgument(a@),
            ConfigError::InvalidValue(a, m) => ConfigErrorView::InvalidValue(a@, m@),
            ConfigError::ArgumentConflict(a, b) => ConfigErrorView::ArgumentConflict(a@, b@),
            ConfigError::MissingRequired(a) => ConfigErrorView::MissingRequired(a@),
        }
    }
}

/// A token that starts a new argument rather than being a value: two or
/// more characters, the first a `-`.
pub open spec fn starts_argument(t: Seq<char>) -> bool {
    t.len() >= 2 && t[0] == '-'
}

/// A long option or flag: starts with `--`.
pub open spec fn is_long(t: Seq<char>) -> bool {
    t.len() >= 2 && t[0] == '-' && t[1] == '-'
}

/// The name of a long option token: what follows `--`, up to the first `=`.
pub open spec fn long_name(t: Seq<char>) -> Seq<char> {
    let body = t.skip(2);
    match body.index_of_first('=') {
        Some(k) => body.take(k),
        None => body,
    }
}

/// The value attached to a long option token: what follows the first `=`.
pub open spec fn long_value(t: Seq<char>) -> Option<Seq<char>> {
    let body = t.skip(2);
    match body.index_of_first('=') {
        Some(k) => Some(body.skip(k + 1)),
        None => None,
    }
}

/// Why a value of option `i` is refused: only the ntfy URL is checked.
pub open spec fn value_error(i: int, v: Seq<char>) -> Option<ConfigErrorView> {
    if i == 0 {
        match ntfy_url_verdict_spec(v, url_parse_outcome(v)) {
            Err(msg) => Some(ConfigErrorView::InvalidValue(option_name(0), msg)),
            Ok(_) => None,
        }
    } else {
        None
    }
}

/// How reading the command line ends: stopped with an error (or a request
/// for help or the version), or finished with the value of each option that
/// it gives.
pub enum Scan {
    Stopped(ConfigErrorView),
    Finished(Seq<Option<Seq<char>>>),
}

/// Reads command-line tokens from left to right, with `given` the values of
/// the options read so far.
pub open spec fn scan(tokens: Seq<Seq<char>>, given: Seq<Option<Seq<char>>>) -> Scan
    decreases tokens.len(),
{
    if tokens.len() == 0 {
        Scan::Finished(given)
    } else {
        let t = tokens[0];
        if t == "--"@ {
            if tokens.len() > 1 {
                Scan::Stopped(ConfigErrorView::UnexpectedArgument(tokens[1]))
            } else {
                Scan::Finished(given)
            }
        } else if is_long(t) {
            let name = long_name(t);
            let value = long_value(t);
            if name == "help"@ || name == "version"@ {
                if value is Some {
                    Scan::Stopped(ConfigErrorView::UnexpectedValue(name))
                } else if name == "help"@ {
                    Scan::Stopped(ConfigErrorView::Help)
                } else {
                    Scan::Stopped(ConfigErrorView::Version)
                }
            } else {
                match option_named(name) {
                    None => Scan::Stopped(ConfigErrorView::UnknownArgument(t)),
                    Some(i) => {
                        if given[i] is Some {
                            Scan::Stopped(ConfigErrorView::RepeatedArgument(name))
                        } else {
                            match value {
                                Some(v) => match value_error(i, v) {
                                    Some(e) => Scan::Stopped(e),
                                    None => scan(tokens.drop_first(), given.update(i, Some(v))),
                                },
                                None => {
                                    if tokens.len() > 1 && !starts_argument(tokens[1]) {
                                        match value_error(i, tokens[1]) {
                                            Some(e) => Scan::Stopped(e),
                                            None => scan(tokens.skip(2), given.update(i, Some(tokens[1]))),
                                        }
                                    } else {
                                        Scan::Stopped(ConfigErrorView::MissingValue(name))
                                    }
                                },
                            }
                        }
                    },
                }
            }
        } else if t.len() >= 2 && t[0] == '-' {
            if t[1] == 'h' {
                Scan::Stopped(ConfigErrorView::Help)
            } else if t[1] == 'V' {
                Scan::Stopped(ConfigErrorView::Version)
            } else {
                Scan::Stopped(ConfigErrorView::UnknownArgument(t))
            }
        } else {
            Scan::Stopped(ConfigErrorView::UnexpectedArgument(t))
        }
    }
}

/// The value of the first variable of that name in an environment.
pub open spec fn env_lookup(env: Seq<(Seq<char>, Seq<char>)>, name: Seq<char>) -> Option<Seq<char>>
    decreases env.len(),
{
    if env.len() == 0 {
        None
    } else if env[0].0 == name {
        Some(env[0].1)
    } else {
        env_lookup(env.drop_first(), name)
    }
}

/// The value of option `i`: from the command line where it is given there,
/// else from its environment variable where that is set.
pub open spec fn present(given: Seq<Option<Seq<char>>>, env: Seq<(Seq<char>, Seq<char>)>, i: int) -> Option<Seq<char>> {
    if given[i] is Some {
        given[i]
    } else {
        env_lookup(env, option_variable(i))
    }
}

pub open spec fn or_default(o: Option<Seq<char>>, d: Seq<char>) -> Seq<char> {
    match o {
        Some(v) => v,
        None => d,
    }
}

/// The default ntfy server.
pub open spec fn default_ntfy_url() -> Seq<char> {
    "https://ntfy.sh"@
}

/// The configuration from the option values that the command line gives and
/// the environment: the ntfy URL from the environment or the default must
/// pass its check too; an access token cannot go with a username or a
/// password; a username needs a password and a password a username.
/// `listen_addr`, `base_path` and `log_level` default to `0.0.0.0:8080`,
/// `api` and `info`.
pub open spec fn resolve(given: Seq<Option<Seq<char>>>, env: Seq<(Seq<char>, Seq<char>)>) -> Result<ConfigView, ConfigErrorView> {
    let url = or_default(present(given, env, 0), default_ntfy_url());
    let username = present(given, env, 1);
    let password = present(given, env, 2);
    let token = present(given, env, 3);
    if given[0] is None && value_error(0, url) is Some {
        Err(value_error(0, url)->Some_0)
    } else if token is Some && (username is Some || password is Some) {
        Err(ConfigErrorView::ArgumentConflict(
            option_name(3),
            if username is Some { option_name(1) } else { option_name(2) },
        ))
    } else if username is Some && password is None {
        Err(ConfigErrorView::MissingRequired(option_name(2)))
    } else if password is Some && username is None {
        Err(ConfigErrorView::MissingRequired(option_name(1)))
    } else {
        Ok(ConfigView {
            ntfy_url: url,
            ntfy_username: username,
            ntfy_password: password,
            ntfy_token: token,
            api_token: present(given, env, 4),
            listen_addr: or_default(present(given, env, 5), "0.0.0.0:8080"@),
            base_path: or_default(present(given, env, 6), "api"@),
            log_level: or_default(present(given, env, 7), "info"@),
        })
    }
}

/// The tokens after the program's name.
pub open spec fn command_tokens(args: Seq<Seq<char>>) -> Seq<Seq<char>> {
    if args.len() == 0 {
        args
    } else {
        args.drop_first()
    }
}

pub open spec fn no_values() -> Seq<Option<Seq<char>>> {
    Seq::new(OPTION_COUNT as nat, |i: int| None)
}

/// The configuration that a command line (program name first) and an
/// environment give, or why they give none.
pub open spec fn parse_spec(args: Seq<Seq<char>>, env: Seq<(Seq<char>, Seq<char>)>) -> Result<ConfigView, ConfigErrorView> {
    match scan(command_tokens(args), no_values()) {
        Scan::Stopped(e) => Err(e),
        Scan::Finished(given) => resolve(given, env),
    }
}

pub open spec fn parse_result_view(r: Result<Config, ConfigError>) -> Result<ConfigView, ConfigErrorView> {
    match r {
        Ok(c) => Ok(c@),
        Err(e) => Err(e@),
    }
}

fn option_long_name(i: usize) -> (r: &'static str)
    requires
        i < OPTION_COUNT,
    ensures
        r@ == option_name(i as int),
{
    if i == 0 {
        "ntfy-url"
    } else if i == 1 {
        "ntfy-username"
    } else if i == 2 {
        "ntfy-password"
    } else if i == 3 {
        "ntfy-token"
    } else if i == 4 {
        "api-token"
    } else if i == 5 {
        "listen-addr"
    } else if i == 6 {
        "base-path"
    } else {
        "log-level"
    }
}

fn option_variable_name(i: usize) -> (r: &'static str)
    requires
        i < OPTION_COUNT,
    ensures
        r@ == option_variable(i as int),
{
    if i == 0 {
        "NTFY_URL"
    } else if i == 1 {
        "NTFY_USERNAME"
    } else if i == 2 {
        "NTFY_PASSWORD"
    } else if i == 3 {
        "NTFY_TOKEN"
    } else if i == 4 {
        "API_TOKEN"
    } else if i == 5 {
        "LISTEN_ADDR"
    } else if i == 6 {
        "BASE_PATH"
    } else {
        "LOG_LEVEL"
    }
}

fn find_option(name: &str) -> (r: Option<usize>)
    ensures
        match r {
            Some(i) => i < OPTION_COUNT && option_named(name@) == Some(i as int),
            None => option_named(name@) is None,
        },
{
    if str_eq(name, "ntfy-url") {
        Some(0)
    } else if str_eq(name, "ntfy-username") {
        Some(1)
    } else if str_eq(name, "ntfy-password") {
        Some(2)
    } else if str_eq(name, "ntfy-token") {
        Some(3)
    } else if str_eq(name, "api-token") {
        Some(4)
    } else if str_eq(name, "listen-addr") {
        Some(5)
    } else if str_eq(name, "base-path") {
        Some(6)
    } else if str_eq(name, "log-level") {
        Some(7)
    } else {
        None
    }
}

fn starts_argument_token(t: &str) -> (r: bool)
    ensures
        r == starts_argument(t@),
{
    t.unicode_len() >= 2 && t.get_char(0) == '-'
}

fn is_long_token(t: &str) -> (r: bool)
    ensures
        r == is_long(t@),
{
    t.unicode_len() >= 2 && t.get_char(0) == '-' && t.get_char(1) == '-'
}

fn split_long<'a>(t: &'a str) -> (r: (&'a str, Option<&'a str>))
    requires
        is_long(t@),
    ensures
        r.0@ == long_name(t@),
        match r.1 {
            Some(v) => long_value(t@) == Some(v@),
            None => long_value(t@) is None,
        },
{
    let n = t.unicode_len();
    let body = t.substring_char(2, n);
    let bn = n - 2;
    let ghost b = body@;
    assert(b == t@.skip(2));
    let mut k: usize = 0;
    while k < bn
        invariant
            bn == b.len(),
            b == body@,
            b == t@.skip(2),
            k <= bn,
            forall|j: int| 0 <= j < k ==> b[j] != '=',
        decreases bn - k,
    {
        if body.get_char(k) == '=' {
            proof {
                b.index_of_first_ensures('=');
                match b.index_of_first('=') {
                    Some(idx) => {
                        if idx < k {
                            assert(b[idx] != '=');
                        }
                        if idx > k {
                            assert(b[k as int] != '=');
                        }
                        assert(idx == k);
                    },
                    None => {
                        assert(b.contains('='));
                    },
                }
                assert(b.take(k as int) =~= b.subrange(0, k as int));
                assert(b.skip(k + 1) =~= b.subrange(k + 1, bn as int));
            }
            return (body.substring_char(0, k), Some(body.substring_char(k + 1, bn)));
        }
        k = k + 1;
    }
    proof {
        b.index_of_first_ensures('=');
        match b.index_of_first('=') {
            Some(idx) => {
                assert(b[idx] != '=');
            },
            None => {},
        }
        assert(b.take(b.len() as int) =~= b);
    }
    (body, None)
}

pub open spec fn error_option_view(r: Option<ConfigError>) -> Option<ConfigErrorView> {
    match r {
        Some(e) => Some(e@),
        None => None,
    }
}

fn value_error_of(i: usize, v: &str) -> (r: Option<ConfigError>)
    requires
        i < OPTION_COUNT,
    ensures
        error_option_view(r) == value_error(i as int, v@),
{
    if i == 0 {
        match parse_ntfy_url(v) {
            Err(msg) => Some(ConfigError::InvalidValue(String::from_str("ntfy-url"), msg)),
            Ok(_) => None,
        }
    } else {
        None
    }
}

/// Reads the command line (program name first) from left to right.
fn scan_command_line(args: &Vec<String>) -> (r: Result<Vec<Option<String>>, ConfigError>)
    ensures
        match r {
            Ok(given) => given.len() == OPTION_COUNT
                && scan(command_tokens(args.deep_view()), no_values()) == Scan::Finished(given.deep_view()),
            Err(e) => scan(command_tokens(args.deep_view()), no_values()) == Scan::Stopped(e@),
        },
{
    let mut given: Vec<Option<String>> = vec![None, None, None, None, None, None, None, None];
    assert(given.deep_view() =~= no_values());
    let n = args.len();
    let ghost all = args.deep_view();
    if n == 0 {
        return Ok(given);
    }
    assert(command_tokens(all) =~= all.skip(1));
    let mut i: usize = 1;
    while i < n
        invariant
            n == args.len(),
            all == args.deep_view(),
            1 <= i <= n,
            given.len() == OPTION_COUNT,
            scan(command_tokens(all), no_values()) == scan(all.skip(i as int), given.deep_view()),
        decreases n - i,
    {
        let t: &str = args[i].as_str();
        let ghost tokens = all.skip(i as int);
        let ghost g = given.deep_view();
        assert(tokens[0] == t@);
        assert(tokens.drop_first() =~= all.skip(i + 1));
        if i + 1 < n {
            assert(tokens[1] == args[i + 1 as int]@);
            assert(tokens.skip(2) =~= all.skip(i + 2));
        }
        if str_eq(t, "--") {
            if i + 1 < n {
                return Err(ConfigError::UnexpectedArgument(args[i + 1].clone()));
            } else {
                return Ok(given);
            }
        } else if is_long_token(t) {
            let (name, value) = split_long(t);
            if str_eq(name, "help") || str_eq(name, "version") {
                if value.is_some() {
                    return Err(ConfigError::UnexpectedValue(String::from_str(name)));
                } else if str_eq(name, "help") {
                    return Err(ConfigError::Help);
                } else {
                    return Err(ConfigError::Version);
                }
            }
            match find_option(name) {
                None => {
                    return Err(ConfigError::UnknownArgument(args[i].clone()));
                },
                Some(k) => {
                    if given[k].is_some() {
                        return Err(ConfigError::RepeatedArgument(String::from_str(name)));
                    }
                    match value {
                        Some(v) => {
                            if let Some(e) = value_error_of(k, v) {
                                return Err(e);
                            }
                            given.set(k, Some(String::from_str(v)));
                            assert(given.deep_view() =~= g.update(k as int, Some(v@)));
                            i = i + 1;
                        },
                        None => {
                            if i + 1 < n && !starts_argument_token(args[i + 1].as_str()) {
                                if let Some(e) = value_error_of(k, args[i + 1].as_str()) {
                                    return Err(e);
                                }
                                given.set(k, Some(args[i + 1].clone()));
                                assert(given.deep_view() =~= g.update(k as int, Some(tokens[1])));
                                i = i + 2;
                            } else {
                                return Err(ConfigError::MissingValue(String::from_str(name)));
                            }
                        },
                    }
                },
            }
        } else if t.unicode_len() >= 2 && t.get_char(0) == '-' {
            let c = t.get_char(1);
            if c == 'h' {
                return Err(ConfigError::Help);
            } else if c == 'V' {
                return Err(ConfigError::Version);
            } else {
                return Err(ConfigError::UnknownArgument(args[i].clone()));
            }
        } else {
            return Err(ConfigError::UnexpectedArgument(args[i].clone()));
        }
    }
    assert(all.skip(n as int) =~= Seq::<Seq<char>>::empty());
    Ok(given)
}

/// The value of the first variable named `name` in the environment.
fn lookup_env(env: &Vec<(String, String)>, name: &str) -> (r: Option<String>)
    ensures
        r.deep_view() == env_lookup(env.deep_view(), name@),
{
    let ghost e = env.deep_view();
    let n = env.len();
    assert(e.skip(0) =~= e);
    let mut j: usize = 0;
    while j < n
        invariant
            n == env.len(),
            e == env.deep_view(),
            j <= n,
            env_lookup(e, name@) == env_lookup(e.skip(j as int), name@),
        decreases n - j,
    {
        let ghost rest = e.skip(j as int);
        assert(rest[0] == e[j as int]);
        assert(rest.drop_first() =~= e.skip(j + 1));
        if str_eq(env[j].0.as_str(), name) {
            return Some(env[j].1.clone());
        }
        j = j + 1;
    }
    assert(e.skip(n as int) =~= Seq::<(Seq<char>, Seq<char>)>::empty());
    None
}

fn present_value(given: &Vec<Option<String>>, env: &Vec<(String, String)>, i: usize) -> (r: Option<String>)
    requires
        given.len() == OPTION_COUNT,
        i < OPTION_COUNT,
    ensures
        r.deep_view() == present(given.deep_view(), env.deep_view(), i as int),
{
    match &given[i] {
        Some(v) => Some(v.clone()),
        None => lookup_env(env, option_variable_name(i)),
    }
}

fn text_or(o: Option<String>, d: &str) -> (r: String)
    ensures
        r@ == or_default(o.deep_view(), d@),
{
    match o {
        Some(v) => v,
        None => String::from_str(d),
    }
}

/// Applies the environment, the defaults and the rules on credentials to the
/// option values that the command line gives.
fn resolve_values(given: &Vec<Option<String>>, env: &Vec<(String, String)>) -> (r: Result<Config, ConfigError>)
    requires
        given.len() == OPTION_COUNT,
    ensures
        parse_result_view(r) == resolve(given.deep_view(), env.deep_view()),
{
    let url = text_or(present_value(given, env, 0), "https://ntfy.sh");
    let username = present_value(given, env, 1);
    let password = present_value(given, env, 2);
    let token = present_value(given, env, 3);
    if given[0].is_none() {
        if let Some(e) = value_error_of(0, url.as_str()) {
            return Err(e);
        }
    }
    if token.is_some() && (username.is_some() || password.is_some()) {
        let other = if username.is_some() {
            "ntfy-username"
        } else {
            "ntfy-password"
        };
        return Err(ConfigError::ArgumentConflict(String::from_str("ntfy-token"), String::from_str(other)));
    }
    if username.is_some() && password.is_none() {
        return Err(ConfigError::MissingRequired(String::from_str("ntfy-password")));
    }
    if password.is_some() && username.is_none() {
        return Err(ConfigError::MissingRequired(String::from_str("ntfy-username")));
    }
    let api_token = present_value(given, env, 4);
    let listen_addr = text_or(present_value(given, env, 5), "0.0.0.0:8080");
    let base_path = text_or(present_value(given, env, 6), "api");
    let log_level = text_or(present_value(given, env, 7), "info");
    Ok(Config {
        ntfy_url: url,
        ntfy_auth: AuthConfig {
            credentials: Credentials { ntfy_username: username, ntfy_password: password },
            ntfy_token: token,
        },
        api_token,
        listen_addr,
        base_path,
        log_level,
    })
}

impl Config {
    /// Reads the configuration from a command line (program name first) and
    /// the environment's variables, given as name and value. An option on
    /// the command line wins over its environment variable.
    pub fn try_parse_with_env(args: &Vec<String>, env: &Vec<(String, String)>) -> (r: Result<Config, ConfigError>)
        ensures
            parse_result_view(r) == parse_spec(args.deep_view(), env.deep_view()),
    {
        match scan_command_line(args) {
            Err(e) => Err(e),
            Ok(given) => resolve_values(&given, env),
        }
    }

    /// Reads the configuration from a command line (program name first),
    /// with no environment variable set.
    pub fn try_parse_from(args: Vec<String>) -> (r: Result<Config, ConfigError>)
        ensures
            parse_result_view(r) == parse_spec(args.deep_view(), Seq::empty()),
    {
        let env: Vec<(String, String)> = Vec::new();
        assert(env.deep_view() =~= Seq::<(Seq<char>, Seq<char>)>::empty());
        Config::try_parse_with_env(&args, &env)
    }
}

/// Reading the command line keeps one value per option, and any ntfy URL it
/// records passed the URL check.
proof fn lemma_scan_records_checked_urls(tokens: Seq<Seq<char>>, given: Seq<Option<Seq<char>>>)
    requires
        given.len() == OPTION_COUNT,
        given[0] is Some ==> value_error(0, given[0]->Some_0) is None,
    ensures
        scan(tokens, given) matches Scan::Finished(g) ==> {
            &&& g.len() == OPTION_COUNT
            &&& g[0] is Some ==> value_error(0, g[0]->Some_0) is None
        },
    decreases tokens.len(),
{
    if tokens.len() > 0 {
        let t = tokens[0];
        if t != "--"@ && is_long(t) {
            let name = long_name(t);
            let value = long_value(t);
            if !(name == "help"@ || name == "version"@) {
                if let Some(i) = option_named(name) {
                    if given[i] is None {
                        match value {
                            Some(v) => {
                                if value_error(i, v) is None {
                                    lemma_scan_records_checked_urls(tokens.drop_first(), given.update(i, Some(v)));
                                }
                            },
                            None => {
                                if tokens.len() > 1 && !starts_argument(tokens[1]) && value_error(i, tokens[1]) is None {
                                    lemma_scan_records_checked_urls(tokens.skip(2), given.update(i, Some(tokens[1])));
                                }
                            },
                        }
                    }
                }
            }
        }
    }
}

proof fn lemma_option_names_have_no_equals(n: Seq<char>)
    requires
        option_named(n) is Some,
    ensures
        !n.contains('='),
        n.len() > 0,
        n != "help"@,
        n != "version"@,
{
    reveal_strlit("help");
    reveal_strlit("version");
    reveal_strlit("ntfy-url");
    reveal_strlit("ntfy-username");
    reveal_strlit("ntfy-password");
    reveal_strlit("ntfy-token");
    reveal_strlit("api-token");
    reveal_strlit("listen-addr");
    reveal_strlit("base-path");
    reveal_strlit("log-level");
}

/// An option's value may follow as the next token or be attached with `=`:
/// from any point of the command line, `--name value` and `--name=value`
/// read alike (the value not looking like an argument of its own).
pub proof fn lemma_attached_value_reads_like_separate_value(
    n: Seq<char>,
    v: Seq<char>,
    rest: Seq<Seq<char>>,
    given: Seq<Option<Seq<char>>>,
)
    requires
        option_named(n) is Some,
        !starts_argument(v),
    ensures
        scan(seq!["--"@ + n, v] + rest, given) == scan(seq!["--"@ + n + "="@ + v] + rest, given),
{
    reveal_strlit("--");
    reveal_strlit("=");
    reveal_strlit("help");
    reveal_strlit("version");
    lemma_option_names_have_no_equals(n);
    let separate = seq!["--"@ + n, v] + rest;
    let attached = seq!["--"@ + n + "="@ + v] + rest;
    let t1 = "--"@ + n;
    let t2 = "--"@ + n + "="@ + v;
    assert(separate[0] == t1);
    assert(separate[1] == v);
    assert(attached[0] == t2);
    assert(t1.skip(2) =~= n);
    assert(t2.skip(2) =~= n + "="@ + v);
    let b = n + "="@ + v;
    n.index_of_first_ensures('=');
    b.index_of_first_ensures('=');
    assert(b[n.len() as int] == '=');
    match b.index_of_first('=') {
        Some(k) => {
            if k < n.len() {
                assert(n[k] == '=');
                assert(n.contains('='));
            }
            if k > n.len() {
                assert(b[n.len() as int] != '=');
            }
            assert(k == n.len());
        },
        None => {
            assert(b.contains('='));
        },
    }
    assert(b.take(n.len() as int) =~= n);
    assert(b.skip(n.len() as int + 1) =~= v);
    assert(long_name(t1) == n);
    assert(long_value(t1) is None);
    assert(long_name(t2) == n);
    assert(long_value(t2) == Some(v));
    assert(t1 != "--"@);
    assert(t2 != "--"@);
    assert(separate.skip(2) =~= rest);
    assert(attached.drop_first() =~= rest);
    assert(is_long(t1) && is_long(t2));
    assert(n != "help"@ && n != "version"@);
    assert(separate.len() > 1 && !starts_argument(separate[1]));
}

proof fn lemma_option_literals()
    ensures
        forall|j: int, k: int| 0 <= j < OPTION_COUNT && 0 <= k < OPTION_COUNT && j != k ==>
            option_variable(j) != option_variable(k) && option_name(j) != option_name(k),
        forall|j: int| 0 <= j < OPTION_COUNT ==> {
            &&& !(#[trigger] option_name(j)).contains('=')
            &&& option_name(j).len() > 0
            &&& option_name(j) != "help"@
            &&& option_name(j) != "version"@
            &&& option_name(j) != Seq::<char>::empty()
        },
{
    reveal_strlit("ntfy-url");
    reveal_strlit("ntfy-username");
    reveal_strlit("ntfy-password");
    reveal_strlit("ntfy-token");
    reveal_strlit("api-token");
    reveal_strlit("listen-addr");
    reveal_strlit("base-path");
    reveal_strlit("log-level");
    reveal_strlit("NTFY_URL");
    reveal_strlit("NTFY_USERNAME");
    reveal_strlit("NTFY_PASSWORD");
    reveal_strlit("NTFY_TOKEN");
    reveal_strlit("API_TOKEN");
    reveal_strlit("LISTEN_ADDR");
    reveal_strlit("BASE_PATH");
    reveal_strlit("LOG_LEVEL");
    reveal_strlit("help");
    reveal_strlit("version");
    assert forall|j: int, k: int| 0 <= j < OPTION_COUNT && 0 <= k < OPTION_COUNT && j != k implies
        option_variable(j) != option_variable(k) && option_name(j) != option_name(k) by {
        let vj = option_variable(j);
        let vk = option_variable(k);
        let nj = option_name(j);
        let nk = option_name(k);
        if vj == vk {
            assert(vj.len() == vk.len());
            assert(vj[0] == vk[0]);
            assert(vj[5] == vk[5]);
        }
        if nj == nk {
            assert(nj.len() == nk.len());
            assert(nj[0] == nk[0]);
            assert(nj[5] == nk[5]);
        }
    }
    assert forall|j: int| 0 <= j < OPTION_COUNT implies {
        &&& !(#[trigger] option_name(j)).contains('=')
        &&& option_name(j).len() > 0
        &&& option_name(j) != "help"@
        &&& option_name(j) != "version"@
        &&& option_name(j) != Seq::<char>::empty()
    } by {
        if 0 <= j < OPTION_COUNT {
            assert(option_named(option_name(j)) is Some);
            lemma_option_names_have_no_equals(option_name(j));
        }
    }
}

proof fn lemma_long_token_of_option(i: int)
    requires
        0 <= i < OPTION_COUNT,
    ensures
        is_long("--"@ + option_name(i)),
        "--"@ + option_name(i) != "--"@,
        long_name("--"@ + option_name(i)) == option_name(i),
        long_value("--"@ + option_name(i)) is None,
        option_named(option_name(i)) == Some(i),
        option_name(i) != "help"@,
        option_name(i) != "version"@,
{
    reveal_strlit("--");
    lemma_option_literals();
    let n = option_name(i);
    let t = "--"@ + n;
    assert(t.skip(2) =~= n);
    n.index_of_first_ensures('=');
    assert(t.len() == n.len() + 2);
    assert forall|j: int| 0 <= j < i implies n != option_name(j) by {}
}

/// Option `i` (one of the access token, API token, listen address, base
/// path, log level) set alone, from its variable or on the command line.
proof fn lemma_single_option(p: Seq<char>, i: int, v: Seq<char>)
    requires
        3 <= i < OPTION_COUNT,
    ensures
        ({
            let r = parse_spec(seq![p], seq![(option_variable(i), v)]);
            &&& r is Ok <==> value_error(0, default_ntfy_url()) is None
            &&& r matches Ok(c) ==> option_value(c, i) == Some(v) && c.ntfy_url == default_ntfy_url()
        }),
        !starts_argument(v) ==> ({
            let r = parse_spec(seq![p, "--"@ + option_name(i), v], Seq::empty());
            &&& r is Ok <==> value_error(0, default_ntfy_url()) is None
            &&& r matches Ok(c) ==> option_value(c, i) == Some(v) && c.ntfy_url == default_ntfy_url()
        }),
{
    lemma_option_literals();
    lemma_long_token_of_option(i);
    let none = no_values();
    let empty_env = Seq::<(Seq<char>, Seq<char>)>::empty();
    let env = seq![(option_variable(i), v)];
    assert(env.drop_first() =~= empty_env);
    assert(command_tokens(seq![p]) =~= Seq::<Seq<char>>::empty());
    assert(scan(command_tokens(seq![p]), none) == Scan::Finished(none));
    assert forall|j: int| 0 <= j < OPTION_COUNT implies #[trigger] present(none, env, j)
        == (if j == i { Some(v) } else { None }) by {
        if j != i {
            assert(env[0].0 != option_variable(j));
            assert(env_lookup(empty_env, option_variable(j)) is None);
        }
    }
    assert(present(none, env, 0) is None);
    assert(present(none, env, 1) is None);
    assert(present(none, env, 2) is None);
    assert(present(none, env, i) == Some(v));
    if !starts_argument(v) {
        let t = "--"@ + option_name(i);
        let tokens = command_tokens(seq![p, t, v]);
        assert(tokens =~= seq![t, v]);
        assert(tokens.skip(2) =~= Seq::<Seq<char>>::empty());
        let g = none.update(i, Some(v));
        assert(scan(tokens.skip(2), g) == Scan::Finished(g));
        assert(tokens[1] == v);
        assert(scan(tokens, none) == Scan::Finished(g));
        assert forall|j: int| 0 <= j < OPTION_COUNT implies #[trigger] present(g, empty_env, j)
            == (if j == i { Some(v) } else { None }) by {}
        assert(present(g, empty_env, 0) is None);
        assert(present(g, empty_env, 1) is None);
        assert(present(g, empty_env, 2) is None);
        assert(present(g, empty_env, i) == Some(v));
    }
}

/// Username and password set together, from their variables or on the
/// command line.
proof fn lemma_username_and_password(p: Seq<char>, u: Seq<char>, w: Seq<char>)
    ensures
        ({
            let r = parse_spec(seq![p], seq![(option_variable(1), u), (option_variable(2), w)]);
            &&& r is Ok <==> value_error(0, default_ntfy_url()) is None
            &&& r matches Ok(c) ==> c.ntfy_username == Some(u) && c.ntfy_password == Some(w) && c.ntfy_token is None
        }),
        !starts_argument(u) && !starts_argument(w) ==> ({
            let r = parse_spec(seq![p, "--"@ + option_name(1), u, "--"@ + option_name(2), w], Seq::empty());
            &&& r is Ok <==> value_error(0, default_ntfy_url()) is None
            &&& r matches Ok(c) ==> c.ntfy_username == Some(u) && c.ntfy_password == Some(w) && c.ntfy_token is None
        }),
{
    lemma_option_literals();
    lemma_long_token_of_option(1);
    lemma_long_token_of_option(2);
    let none = no_values();
    let empty_env = Seq::<(Seq<char>, Seq<char>)>::empty();
    let env = seq![(option_variable(1), u), (option_variable(2), w)];
    assert(env.drop_first() =~= seq![(option_variable(2), w)]);
    assert(env.drop_first().drop_first() =~= empty_env);
    assert(command_tokens(seq![p]) =~= Seq::<Seq<char>>::empty());
    assert(scan(command_tokens(seq![p]), none) == Scan::Finished(none));
    assert(env[0].0 != option_variable(0) && env[1].0 != option_variable(0));
    assert(env[0].0 != option_variable(2) && env[1].0 != option_variable(3) && env[0].0 != option_variable(3));
    assert(env_lookup(empty_env, option_variable(0)) is None);
    assert(env_lookup(empty_env, option_variable(3)) is None);
    assert(env_lookup(env.drop_first(), option_variable(0)) is None);
    assert(env_lookup(env.drop_first(), option_variable(3)) is None);
    assert(env_lookup(env.drop_first(), option_variable(2)) == Some(w));
    assert(present(none, env, 0) is None);
    assert(present(none, env, 1) == Some(u));
    assert(present(none, env, 2) == Some(w));
    assert(present(none, env, 3) is None);
    if !starts_argument(u) && !starts_argument(w) {
        let t1 = "--"@ + option_name(1);
        let t2 = "--"@ + option_name(2);
        let tokens = command_tokens(seq![p, t1, u, t2, w]);
        assert(tokens =~= seq![t1, u, t2, w]);
        let rest = tokens.skip(2);
        assert(rest =~= seq![t2, w]);
        assert(rest.skip(2) =~= Seq::<Seq<char>>::empty());
        let g1 = none.update(1, Some(u));
        let g2 = g1.update(2, Some(w));
        assert(scan(rest.skip(2), g2) == Scan::Finished(g2));
        assert(rest[0] == t2 && rest[1] == w);
        assert(g1[2] is None);
        assert(scan(rest, g1) == Scan::Finished(g2));
        assert(tokens[0] == t1 && tokens[1] == u);
        assert(scan(tokens, none) == Scan::Finished(g2));
        assert(present(g2, empty_env, 0) is None);
        assert(present(g2, empty_env, 1) == Some(u));
        assert(present(g2, empty_env, 2) == Some(w));
        assert(present(g2, empty_env, 3) is None);
    }
}

/// Which environment variable and which long option set each option, and
/// the defaults of the options left unset. Each variable or option given
/// alone (username and password together) yields a configuration exactly
/// when the default ntfy URL passes its check, and that configuration holds
/// the given value.
pub proof fn lemma_option_sources_and_defaults(p: Seq<char>, v: Seq<char>, w: Seq<char>)
    ensures
        ({
            let r = parse_spec(seq![p], Seq::empty());
            &&& r is Ok <==> ntfy_url_verdict_spec("https://ntfy.sh"@, url_parse_outcome("https://ntfy.sh"@)) is Ok
            &&& r matches Ok(c) ==> {
                &&& c.ntfy_url == "https://ntfy.sh"@
                &&& c.listen_addr == "0.0.0.0:8080"@
                &&& c.base_path == "api"@
                &&& c.log_level == "info"@
                &&& c.api_token is None
                &&& c.ntfy_token is None
                &&& c.ntfy_username is None
                &&& c.ntfy_password is None
            }
        }),
        ({
            let ok = ntfy_url_verdict_spec("https://ntfy.sh"@, url_parse_outcome("https://ntfy.sh"@)) is Ok;
            let a = parse_spec(seq![p], seq![("LISTEN_ADDR"@, v)]);
            let b = parse_spec(seq![p], seq![("BASE_PATH"@, v)]);
            let l = parse_spec(seq![p], seq![("LOG_LEVEL"@, v)]);
            let k = parse_spec(seq![p], seq![("API_TOKEN"@, v)]);
            let t = parse_spec(seq![p], seq![("NTFY_TOKEN"@, v)]);
            let up = parse_spec(seq![p], seq![("NTFY_USERNAME"@, v), ("NTFY_PASSWORD"@, w)]);
            &&& (a is Ok <==> ok) && (a matches Ok(c) ==> c.listen_addr == v)
            &&& (b is Ok <==> ok) && (b matches Ok(c) ==> c.base_path == v)
            &&& (l is Ok <==> ok) && (l matches Ok(c) ==> c.log_level == v)
            &&& (k is Ok <==> ok) && (k matches Ok(c) ==> c.api_token == Some(v))
            &&& (t is Ok <==> ok) && (t matches Ok(c) ==> c.ntfy_token == Some(v))
            &&& (up is Ok <==> ok) && (up matches Ok(c) ==> c.ntfy_username == Some(v) && c.ntfy_password == Some(w))
        }),
        !starts_argument(v) && !starts_argument(w) ==> ({
            let ok = ntfy_url_verdict_spec("https://ntfy.sh"@, url_parse_outcome("https://ntfy.sh"@)) is Ok;
            let e = Seq::<(Seq<char>, Seq<char>)>::empty();
            let a = parse_spec(seq![p, "--listen-addr"@, v], e);
            let b = parse_spec(seq![p, "--base-path"@, v], e);
            let l = parse_spec(seq![p, "--log-level"@, v], e);
            let k = parse_spec(seq![p, "--api-token"@, v], e);
            let t = parse_spec(seq![p, "--ntfy-token"@, v], e);
            let up = parse_spec(seq![p, "--ntfy-username"@, v, "--ntfy-password"@, w], e);
            &&& (a is Ok <==> ok) && (a matches Ok(c) ==> c.listen_addr == v)
            &&& (b is Ok <==> ok) && (b matches Ok(c) ==> c.base_path == v)
            &&& (l is Ok <==> ok) && (l matches Ok(c) ==> c.log_level == v)
            &&& (k is Ok <==> ok) && (k matches Ok(c) ==> c.api_token == Some(v))
            &&& (t is Ok <==> ok) && (t matches Ok(c) ==> c.ntfy_token == Some(v))
            &&& (up is Ok <==> ok) && (up matches Ok(c) ==> c.ntfy_username == Some(v) && c.ntfy_password == Some(w))
        }),
{
    reveal_strlit("--");
    reveal_strlit("--listen-addr");
    reveal_strlit("listen-addr");
    reveal_strlit("--base-path");
    reveal_strlit("base-path");
    reveal_strlit("--log-level");
    reveal_strlit("log-level");
    reveal_strlit("--api-token");
    reveal_strlit("api-token");
    reveal_strlit("--ntfy-token");
    reveal_strlit("ntfy-token");
    reveal_strlit("--ntfy-username");
    reveal_strlit("ntfy-username");
    reveal_strlit("--ntfy-password");
    reveal_strlit("ntfy-password");
    assert("--listen-addr"@ =~= "--"@ + option_name(5));
    assert("--base-path"@ =~= "--"@ + option_name(6));
    assert("--log-level"@ =~= "--"@ + option_name(7));
    assert("--api-token"@ =~= "--"@ + option_name(4));
    assert("--ntfy-token"@ =~= "--"@ + option_name(3));
    assert("--ntfy-username"@ =~= "--"@ + option_name(1));
    assert("--ntfy-password"@ =~= "--"@ + option_name(2));
    lemma_single_option(p, 3, v);
    lemma_single_option(p, 4, v);
    lemma_single_option(p, 5, v);
    lemma_single_option(p, 6, v);
    lemma_single_option(p, 7, v);
    lemma_username_and_password(p, v, w);
    let none = no_values();
    let e = Seq::<(Seq<char>, Seq<char>)>::empty();
    assert(command_tokens(seq![p]) =~= Seq::<Seq<char>>::empty());
    assert(scan(command_tokens(seq![p]), none) == Scan::Finished(none));
    assert(present(none, e, 0) is None);
    assert(present(none, e, 1) is None);
    assert(present(none, e, 2) is None);
    assert(present(none, e, 3) is None);
    assert(present(none, e, 4) is None);
    assert(present(none, e, 5) is None);
    assert(present(none, e, 6) is None);
    assert(present(none, e, 7) is None);
}

/// A request for help or for the version, as the first argument, is
/// answered whatever follows it and whatever the environment holds.
pub proof fn lemma_help_and_version_come_first(
    p: Seq<char>,
    rest: Seq<Seq<char>>,
    env: Seq<(Seq<char>, Seq<char>)>,
)
    ensures
        parse_spec(seq![p, "--help"@] + rest, env) == Err::<ConfigView, ConfigErrorView>(ConfigErrorView::Help),
        parse_spec(seq![p, "-h"@] + rest, env) == Err::<ConfigView, ConfigErrorView>(ConfigErrorView::Help),
        parse_spec(seq![p, "--version"@] + rest, env) == Err::<ConfigView, ConfigErrorView>(ConfigErrorView::Version),
        parse_spec(seq![p, "-V"@] + rest, env) == Err::<ConfigView, ConfigErrorView>(ConfigErrorView::Version),
{
    reveal_strlit("--help");
    reveal_strlit("help");
    reveal_strlit("-h");
    reveal_strlit("--version");
    reveal_strlit("version");
    reveal_strlit("-V");
    reveal_strlit("--");
    let th = "--help"@;
    let tv = "--version"@;
    assert(th.skip(2) =~= "help"@);
    assert(tv.skip(2) =~= "version"@);
    "help"@.index_of_first_ensures('=');
    "version"@.index_of_first_ensures('=');
    assert(long_name(th) == "help"@ && long_value(th) is None);
    assert(long_name(tv) == "version"@ && long_value(tv) is None);
    assert(command_tokens(seq![p, th] + rest)[0] == th);
    assert(command_tokens(seq![p, tv] + rest)[0] == tv);
    assert(command_tokens(seq![p, "-h"@] + rest)[0] == "-h"@);
    assert(command_tokens(seq![p, "-V"@] + rest)[0] == "-V"@);
    assert("-h"@[1] != "--"@[1] && "-V"@[1] != "--"@[1]);
    assert(th != "--"@ && tv != "--"@ && "-h"@ != "--"@ && "-V"@ != "--"@);
}

/// The ntfy URL given on its own decides alone whether a configuration
/// results: `--ntfy-url u` (for a `u` that does not look like an argument of
/// its own), `--ntfy-url=u` (for any `u`), or `NTFY_URL=u` in the
/// environment, with nothing else set, give a configuration exactly when `u`
/// passes the URL check, and then its ntfy URL is `u`.
pub proof fn lemma_ntfy_url_alone_decides(program: Seq<char>, u: Seq<char>)
    ensures
        !starts_argument(u) ==> {
            let r = parse_spec(seq![program, "--ntfy-url"@, u], Seq::empty());
            &&& r is Ok <==> ntfy_url_verdict_spec(u, url_parse_outcome(u)) is Ok
            &&& r matches Ok(c) ==> c.ntfy_url == u
        },
        ({
            let r = parse_spec(seq![program, "--ntfy-url"@ + "="@ + u], Seq::empty());
            &&& r is Ok <==> ntfy_url_verdict_spec(u, url_parse_outcome(u)) is Ok
            &&& r matches Ok(c) ==> c.ntfy_url == u
        }),
        ({
            let r = parse_spec(seq![program], seq![("NTFY_URL"@, u)]);
            &&& r is Ok <==> ntfy_url_verdict_spec(u, url_parse_outcome(u)) is Ok
            &&& r matches Ok(c) ==> c.ntfy_url == u
        }),
{
    reveal_strlit("--ntfy-url");
    reveal_strlit("ntfy-url");
    reveal_strlit("--");
    reveal_strlit("=");
    reveal_strlit("help");
    reveal_strlit("version");
    reveal_strlit("NTFY_URL");
    reveal_strlit("NTFY_USERNAME");
    reveal_strlit("NTFY_PASSWORD");
    reveal_strlit("NTFY_TOKEN");
    reveal_strlit("API_TOKEN");
    reveal_strlit("LISTEN_ADDR");
    reveal_strlit("BASE_PATH");
    reveal_strlit("LOG_LEVEL");
    let empty_env = Seq::<(Seq<char>, Seq<char>)>::empty();
    let none = no_values();
    let name = "ntfy-url"@;
    assert(option_named(name) == Some(0int));
    lemma_option_names_have_no_equals(name);
    // `--ntfy-url u`
    let t = "--ntfy-url"@;
    assert(t.skip(2) =~= name);
    name.index_of_first_ensures('=');
    assert(long_name(t) == name);
    assert(long_value(t) is None);
    assert(is_long(t) && t != "--"@);
    if !starts_argument(u) {
        let args = seq![program, t, u];
        let tokens = command_tokens(args);
        assert(tokens =~= seq![t, u]);
        assert(tokens.skip(2) =~= Seq::<Seq<char>>::empty());
        let g = none.update(0, Some(u));
        assert(scan(tokens.skip(2), g) == Scan::Finished(g));
        assert(tokens[1] == u);
        if value_error(0, u) is None {
            assert(scan(tokens, none) == Scan::Finished(g));
            assert(env_lookup(empty_env, option_variable(1)) is None);
            assert(env_lookup(empty_env, option_variable(2)) is None);
            assert(env_lookup(empty_env, option_variable(3)) is None);
        } else {
            assert(scan(tokens, none) == Scan::Stopped(value_error(0, u)->Some_0));
        }
    }
    // `--ntfy-url=u`
    let ta = t + "="@ + u;
    let b = name + "="@ + u;
    assert(ta.skip(2) =~= b);
    b.index_of_first_ensures('=');
    assert(b[name.len() as int] == '=');
    match b.index_of_first('=') {
        Some(k) => {
            if k < name.len() {
                assert(name[k] == '=');
                assert(name.contains('='));
            }
            if k > name.len() {
                assert(b[name.len() as int] != '=');
            }
        },
        None => {
            assert(b.contains('='));
        },
    }
    assert(b.take(name.len() as int) =~= name);
    assert(b.skip(name.len() as int + 1) =~= u);
    assert(long_name(ta) == name);
    assert(long_value(ta) == Some(u));
    assert(is_long(ta) && ta != "--"@);
    let args_a = seq![program, ta];
    let tokens_a = command_tokens(args_a);
    assert(tokens_a =~= seq![ta]);
    assert(tokens_a.drop_first() =~= Seq::<Seq<char>>::empty());
    let ga = none.update(0, Some(u));
    assert(scan(tokens_a.drop_first(), ga) == Scan::Finished(ga));
    assert(env_lookup(empty_env, option_variable(1)) is None);
    assert(env_lookup(empty_env, option_variable(2)) is None);
    assert(env_lookup(empty_env, option_variable(3)) is None);
    // `NTFY_URL=u`
    let env = seq![("NTFY_URL"@, u)];
    let tokens_e = command_tokens(seq![program]);
    assert(tokens_e =~= Seq::<Seq<char>>::empty());
    assert(scan(tokens_e, none) == Scan::Finished(none));
    assert(env.drop_first() =~= empty_env);
    assert(env_lookup(env, option_variable(0)) == Some(u));
    assert(env_lookup(empty_env, option_variable(1)) is None);
    assert(env_lookup(empty_env, option_variable(2)) is None);
    assert(option_variable(1).len() != env[0].0.len());
    assert(option_variable(2).len() != env[0].0.len());
    assert(env_lookup(env, option_variable(1)) is None);
    assert(env_lookup(env, option_variable(2)) is None);
    assert(env_lookup(env, option_variable(3)) is None);
}

/// Every configuration that is read from a command line and an environment
/// has an ntfy URL that passes the URL check: it parses, its scheme is
/// `http` or `https`, and it has a host.
pub proof fn lemma_parsed_ntfy_url_is_checked(args: Seq<Seq<char>>, env: Seq<(Seq<char>, Seq<char>)>)
    ensures
        parse_spec(args, env) matches Ok(c) ==> ntfy_url_verdict_spec(c.ntfy_url, url_parse_outcome(c.ntfy_url))
            == Ok::<Seq<char>, Seq<char>>(c.ntfy_url),
{
    lemma_scan_records_checked_urls(command_tokens(args), no_values());
}

/// The value that a configuration holds for option `i`.
pub open spec fn option_value(c: ConfigView, i: int) -> Option<Seq<char>> {
    if i == 0 {
        Some(c.ntfy_url)
    } else if i == 1 {
        c.ntfy_username
    } else if i == 2 {
        c.ntfy_password
    } else if i == 3 {
        c.ntfy_token
    } else if i == 4 {
        c.api_token
    } else if i == 5 {
        Some(c.listen_addr)
    } else if i == 6 {
        Some(c.base_path)
    } else {
        Some(c.log_level)
    }
}

/// Where each option's value comes from: an option on the command line wins
/// over its environment variable, and the variable counts only where the
/// command line does not give the option.
pub proof fn lemma_command_line_wins_over_environment(args: Seq<Seq<char>>, env: Seq<(Seq<char>, Seq<char>)>, i: int)
    requires
        0 <= i < OPTION_COUNT,
    ensures
        parse_spec(args, env) matches Ok(c) ==> (scan(command_tokens(args), no_values()) matches Scan::Finished(g) && {
            &&& g[i] is Some ==> option_value(c, i) == g[i]
            &&& g[i] is None && env_lookup(env, option_variable(i)) is Some ==> option_value(c, i)
                == env_lookup(env, option_variable(i))
        }),
{
}

/// Every configuration that is read from a command line and an environment
/// has consistent ntfy credentials: no access token together with a
/// username or a password, and a username exactly when a password.
pub proof fn lemma_parsed_credentials_are_consistent(args: Seq<Seq<char>>, env: Seq<(Seq<char>, Seq<char>)>)
    ensures
        parse_spec(args, env) matches Ok(c) ==> {
            &&& c.ntfy_token is Some ==> c.ntfy_username is None && c.ntfy_password is None
            &&& c.ntfy_username is Some <==> c.ntfy_password is Some
        },
{
}

} // verus!
