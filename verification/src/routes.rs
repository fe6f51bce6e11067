//! Where the bridge answers and what it puts in its fixed responses.

use vstd::prelude::*;

verus! {

/// The path of the health check under a base path: `/{base}/v1/health`.
pub open spec fn health_route_spec(base_path: Seq<char>) -> Seq<char> {
    "/"@ + base_path + "/v1/health"@
}

/// The prefix of the API routes under a base path: `/{base}/v1`.
pub open spec fn api_prefix_spec(base_path: Seq<char>) -> Seq<char> {
    "/"@ + base_path + "/v1"@
}

/// Each base path has its own health check: two base paths that differ give
/// two different health routes, so the routes of one are not those of
/// another.
pub proof fn lemma_health_route_determines_base_path(a: Seq<char>, b: Seq<char>)
    requires
        health_route_spec(a) == health_route_spec(b),
    ensures
        a == b,
{
    reveal_strlit("/");
    reveal_strlit("/v1/health");
    let ra = health_route_spec(a);
    let rb = health_route_spec(b);
    assert(ra.len() == a.len() + 11);
    assert(rb.len() == b.len() as int + 11);
    assert forall|j: int| 0 <= j < a.len() implies a[j] == b[j] by {
        assert(ra[1 + j] == a[j]);
        assert(rb[1 + j] == b[j]);
    }
    assert(a =~= b);
}

/// Where the routes stand under a base path `b`: the API prefix is `/`, then
/// `b`, then `/v1`; the health check is the API prefix followed by
/// `/health`; and two base paths that differ give two different API
/// prefixes.
pub proof fn lemma_routes_follow_base_path(b: Seq<char>, c: Seq<char>)
    ensures
        api_prefix_spec(b).len() == b.len() + 4,
        api_prefix_spec(b)[0] == '/',
        api_prefix_spec(b).subrange(1, b.len() as int + 1) == b,
        api_prefix_spec(b).subrange(b.len() as int + 1, b.len() as int + 4) == "/v1"@,
        health_route_spec(b) == api_prefix_spec(b) + "/health"@,
        api_prefix_spec(b) == api_prefix_spec(c) ==> b == c,
{
    reveal_strlit("/");
    reveal_strlit("/v1");
    reveal_strlit("/v1/health");
    reveal_strlit("/health");
    let p = api_prefix_spec(b);
    assert(p.subrange(1, b.len() as int + 1) =~= b);
    assert(p.subrange(b.len() as int + 1, b.len() as int + 4) =~= "/v1"@);
    assert(health_route_spec(b) =~= p + "/health"@);
    if api_prefix_spec(b) == api_prefix_spec(c) {
        let q = api_prefix_spec(c);
        assert(b.len() == c.len());
        assert(b =~= p.subrange(1, b.len() as int + 1));
        assert(c =~= q.subrange(1, c.len() as int + 1));
    }
}

/// The path of the health check.
pub fn health_route(base_path: &str) -> (r: String)
    ensures
        r@ == health_route_spec(base_path@),
{
    String::from_str("/").concat(base_path).concat("/v1/health")
}

/// The prefix under which the API routes are nested.
pub fn api_prefix(base_path: &str) -> (r: String)
    ensures
        r@ == api_prefix_spec(base_path@),
{
    String::from_str("/").concat(base_path).concat("/v1")
}

/// The route, under the API prefix, that takes Netdata webhooks for a topic.
pub const NETDATA_ROUTE: &'static str = "/{topic}/netdata";

/// The body of `/robots.txt`: no crawling anywhere.
pub const ROBOTS_TXT: &'static str = "User-agent: *\nDisallow: /";

/// The body of the health check.
pub const HEALTH_BODY: &'static str = "OK";

/// How many requests per second each client may make, unless configured
/// otherwise.
pub const DEFAULT_RATE_LIMIT_PER_SECOND: u64 = 2;

/// How many requests each client may make in a burst, unless configured
/// otherwise.
pub const DEFAULT_RATE_LIMIT_BURST: u32 = 5;

/// How long `/robots.txt` may be cached, in seconds.
pub const ROBOTS_TXT_MAX_AGE: u64 = 86400;

/// How long an answer to an unknown path may be cached, in seconds.
pub const NOT_FOUND_MAX_AGE: u64 = 3600;

/// The decimal digit for `d`.
pub open spec fn digit_char(d: nat) -> char {
    if d == 0 {
        '0'
    } else if d == 1 {
        '1'
    } else if d == 2 {
        '2'
    } else if d == 3 {
        '3'
    } else if d == 4 {
        '4'
    } else if d == 5 {
        '5'
    } else if d == 6 {
        '6'
    } else if d == 7 {
        '7'
    } else if d == 8 {
        '8'
    } else {
        '9'
    }
}

/// The decimal numeral of a number, without leading zeros.
pub open spec fn decimal(n: nat) -> Seq<char>
    decreases n,
{
    if n < 10 {
        seq![digit_char(n)]
    } else {
        decimal(n / 10) + seq![digit_char(n % 10)]
    }
}

/// The number that a string of decimal digits stands for.
pub open spec fn numeral_value(s: Seq<char>) -> int
    decreases s.len(),
{
    if s.len() == 0 {
        0
    } else {
        numeral_value(s.drop_last()) * 10 + ((s.last() as u32) - 48)
    }
}

/// The decimal numeral of a number is made of the digits `0` to `9`, has no
/// leading zero (but for zero itself), and stands for the number.
pub proof fn lemma_decimal_is_the_numeral(n: nat)
    ensures
        numeral_value(decimal(n)) == n,
        decimal(n).len() > 0,
        forall|i: int| 0 <= i < decimal(n).len() ==> '0' <= #[trigger] decimal(n)[i] <= '9',
        n > 0 ==> decimal(n)[0] != '0',
    decreases n,
{
    if n >= 10 {
        lemma_decimal_is_the_numeral(n / 10);
        let d = decimal(n);
        assert(d.drop_last() =~= decimal(n / 10));
        assert(d.last() == digit_char(n % 10));
        assert((digit_char((n % 10) as nat) as u32) - 48 == n % 10);
        assert(d[0] == decimal(n / 10)[0]);
        assert(numeral_value(d) == numeral_value(d.drop_last()) * 10 + ((d.last() as u32) - 48));
        assert(n == (n / 10) * 10 + n % 10);
    } else {
        let d = decimal(n);
        assert(d.drop_last() =~= Seq::<char>::empty());
        assert((digit_char(n) as u32) - 48 == n);
        assert(numeral_value(d) == numeral_value(d.drop_last()) * 10 + ((d.last() as u32) - 48));
    }
}

fn digit_str(d: u64) -> (r: &'static str)
    requires
        d < 10,
    ensures
        r@ == seq![digit_char(d as nat)],
{
    proof {
        reveal_strlit("0");
        reveal_strlit("1");
        reveal_strlit("2");
        reveal_strlit("3");
        reveal_strlit("4");
        reveal_strlit("5");
        reveal_strlit("6");
        reveal_strlit("7");
        reveal_strlit("8");
        reveal_strlit("9");
    }
    let r = if d == 0 {
        "0"
    } else if d == 1 {
        "1"
    } else if d == 2 {
        "2"
    } else if d == 3 {
        "3"
    } else if d == 4 {
        "4"
    } else if d == 5 {
        "5"
    } else if d == 6 {
        "6"
    } else if d == 7 {
        "7"
    } else if d == 8 {
        "8"
    } else {
        "9"
    };
    assert(r@ =~= seq![digit_char(d as nat)]);
    r
}

/// The decimal numeral of a number.
pub fn decimal_string(n: u64) -> (r: String)
    ensures
        r@ == decimal(n as nat),
    decreases n,
{
    if n < 10 {
        String::from_str(digit_str(n))
    } else {
        decimal_string(n / 10).concat(digit_str(n % 10))
    }
}

/// The `Cache-Control` value that lets an answer be cached publicly for a
/// number of seconds.
pub fn public_cache_control(seconds: u64) -> (r: String)
    ensures
        r@ == "public, max-age="@ + decimal(seconds as nat),
{
    String::from_str("public, max-age=").concat(decimal_string(seconds).as_str())
}

/// The `Cache-Control` value of every answer that sets none of its own.
pub const NO_STORE_CACHE_CONTROL: &'static str = "no-store, no-cache, must-revalidate, proxy-revalidate";

/// The `Expires` value of every answer that sets none of its own.
pub const NO_STORE_EXPIRES: &'static str = "0";

/// The `Server` value of every answer.
pub const SERVER_NAME: &'static str = "ntfy-bridge";

} // verus!
