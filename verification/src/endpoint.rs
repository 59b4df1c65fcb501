//! Resolution of the managed server's endpoint: the port and host that the
//! control scripts are told to bind and that the health prober checks.
//!
//! Reading environment variables is I/O and stays outside the library; the
//! precedence and parsing rules live here.

use vstd::prelude::*;

verus! {

/// The default port of the managed server.
pub const DEFAULT_PORT: u16 = 8868;

/// The default loopback host of the managed server.
pub fn default_host() -> (r: String)
    ensures
        r@ == "127.0.0.1"@,
{
    String::from_str("127.0.0.1")
}

/// Whether `c` is a decimal digit.
pub open spec fn is_digit(c: char) -> bool {
    '0' <= c && c <= '9'
}

/// The value of a decimal digit.
pub open spec fn digit_val(c: char) -> int {
    match c {
        '0' => 0,
        '1' => 1,
        '2' => 2,
        '3' => 3,
        '4' => 4,
        '5' => 5,
        '6' => 6,
        '7' => 7,
        '8' => 8,
        '9' => 9,
        _ => 0,
    }
}

/// The digit character of a value below ten.
pub open spec fn digit_char(d: int) -> char {
    if d == 0 {
        '0'
    } else if d == 1 {
        '1'
    } else if d == 2 {
        '2'
    } else if d == 3 {
        '3'
    } else if d == 4 {
        '4'
    } else if d == 5 {
        '5'
    } else if d == 6 {
        '6'
    } else if d == 7 {
        '7'
    } else if d == 8 {
        '8'
    } else if d == 9 {
        '9'
    } else {
        '0'
    }
}

/// The value of a digit string, read left to right.
pub open spec fn dec_val(s: Seq<char>) -> int
    decreases s.len(),
{
    if s.len() == 0 {
        0
    } else {
        dec_val(s.take(s.len() - 1)) * 10 + digit_val(s.last())
    }
}

/// Whether every character of `s` is a decimal digit.
pub open spec fn all_digits(s: Seq<char>) -> bool {
    forall|i: int| 0 <= i < s.len() ==> is_digit(#[trigger] s[i])
}

/// The digits of a port string: everything after an optional leading plus
/// sign.
pub open spec fn parse_body(s: Seq<char>) -> Seq<char> {
    if s.len() > 0 && s[0] == '+' {
        s.skip(1)
    } else {
        s
    }
}

/// How a port string parses, as `str::parse::<u16>` decides it: an
/// optional leading plus sign, then at least one digit, and a value that
/// fits.
pub open spec fn parse_u16_spec(s: Seq<char>) -> Option<u16> {
    let body = parse_body(s);
    if body.len() > 0 && all_digits(body) && dec_val(body) <= 65535 {
        Option::Some(dec_val(body) as u16)
    } else {
        Option::None
    }
}

/// Digit values are never negative.
proof fn lemma_dec_val_nonneg(s: Seq<char>)
    ensures
        dec_val(s) >= 0,
    decreases s.len(),
{
    if s.len() > 0 {
        lemma_dec_val_nonneg(s.take(s.len() - 1));
    }
}

/// A digit string is worth at least any of its prefixes.
proof fn lemma_dec_val_prefix(s: Seq<char>, k: int)
    requires
        0 <= k <= s.len(),
    ensures
        dec_val(s) >= dec_val(s.take(k)),
    decreases s.len() - k,
{
    if k == s.len() {
        assert(s.take(k) =~= s);
    } else {
        let shorter = s.take(s.len() - 1);
        lemma_dec_val_prefix(shorter, k);
        assert(shorter.take(k) =~= s.take(k));
        lemma_dec_val_nonneg(shorter);
    }
}

/// The digit of `c`, if it is one.
fn digit_of(c: char) -> (r: Option<u8>)
    ensures
        r is Some <==> is_digit(c),
        r matches Some(d) ==> d as int == digit_val(c),
{
    match c {
        '0' => Some(0),
        '1' => Some(1),
        '2' => Some(2),
        '3' => Some(3),
        '4' => Some(4),
        '5' => Some(5),
        '6' => Some(6),
        '7' => Some(7),
        '8' => Some(8),
        '9' => Some(9),
        _ => None,
    }
}

/// Parses a port number, accepting exactly what `str::parse::<u16>`
/// accepts.
pub fn parse_u16(s: &str) -> (r: Option<u16>)
    ensures
        r == parse_u16_spec(s@),
{
    let n = s.unicode_len();
    let start: usize = if n > 0 && s.get_char(0) == '+' {
        1
    } else {
        0
    };
    let ghost body = parse_body(s@);
    proof {
        assert(body =~= s@.skip(start as int));
    }
    if start == n {
        return None;
    }
    let mut val: u32 = 0;
    let mut i = start;
    while i < n
        invariant
            start <= i <= n,
            n == s@.len(),
            body == parse_body(s@),
            body == s@.skip(start as int),
            body.len() == n - start,
            val <= 65535,
            val as int == dec_val(body.take(i - start)),
            forall|m: int| 0 <= m < i - start ==> is_digit(#[trigger] body[m]),
        decreases n - i,
    {
        let c = s.get_char(i);
        proof {
            assert(body[i - start] == s@[i as int]);
        }
        match digit_of(c) {
            None => {
                return None;
            },
            Some(d) => {
                proof {
                    assert(body.take(i + 1 - start) =~= body.take(i - start).push(body[i - start]));
                    assert(body.take(i + 1 - start).last() == body[i - start]);
                    assert(body.take(i + 1 - start).take(i - start) =~= body.take(i - start));
                }
                val = val * 10 + d as u32;
                if val > 65535 {
                    proof {
                        if all_digits(body) {
                            lemma_dec_val_prefix(body, i + 1 - start);
                        }
                    }
                    return None;
                }
            },
        }
        i = i + 1;
    }
    proof {
        assert(body.take(n - start) =~= body);
    }
    Some(val as u16)
}

/// The resolved port: the dedicated override wins over the generic one;
/// whichever is present must parse, else the default applies.  With no
/// override at all, the default applies.
pub fn resolve_port(dedicated: Option<&str>, generic: Option<&str>) -> (r: u16)
    ensures
        ({
            let chosen = match dedicated {
                Option::Some(d) => Option::Some(d@),
                Option::None => match generic {
                    Option::Some(g) => Option::Some(g@),
                    Option::None => Option::None,
                },
            };
            r == (match chosen {
                Option::Some(s) => match parse_u16_spec(s) {
                    Option::Some(v) => v,
                    Option::None => DEFAULT_PORT,
                },
                Option::None => DEFAULT_PORT,
            })
        }),
{
    let chosen = match dedicated {
        Some(d) => Some(d),
        None => generic,
    };
    match chosen {
        Some(s) => match parse_u16(s) {
            Some(v) => v,
            None => DEFAULT_PORT,
        },
        None => DEFAULT_PORT,
    }
}

/// The resolved host: the dedicated override wins over the generic one,
/// and the loopback default applies when neither is set.
pub fn resolve_host(dedicated: Option<String>, generic: Option<String>) -> (r: String)
    ensures
        r@ == (match dedicated {
            Option::Some(d) => d@,
            Option::None => match generic {
                Option::Some(g) => g@,
                Option::None => "127.0.0.1"@,
            },
        }),
{
    match dedicated {
        Some(d) => d,
        None => match generic {
            Some(g) => g,
            None => default_host(),
        },
    }
}

/// The decimal rendering of a value, most significant digit first.
pub open spec fn dec_str(n: int) -> Seq<char>
    decreases n,
{
    if n < 10 {
        seq![digit_char(n)]
    } else {
        dec_str(n / 10) + seq![digit_char(n % 10)]
    }
}

/// One digit as a string.
fn digit_str(d: u16) -> (r: String)
    requires
        d < 10,
    ensures
        r@ == seq![digit_char(d as int)],
{
    proof {
        reveal_strlit("0");
        reveal_strlit("1");
        reveal_strlit("2");
        reveal_strlit("3");
        reveal_strlit("4");
        reveal_strlit("5");
        reveal_strlit("6");
        reveal_strlit("7");
        reveal_strlit("8");
        reveal_strlit("9");
    }
    match d {
        0 => String::from_str("0"),
        1 => String::from_str("1"),
        2 => String::from_str("2"),
        3 => String::from_str("3"),
        4 => String::from_str("4"),
        5 => String::from_str("5"),
        6 => String::from_str("6"),
        7 => String::from_str("7"),
        8 => String::from_str("8"),
        _ => String::from_str("9"),
    }
}

/// Renders a port number in decimal.
pub fn u16_to_string(n: u16) -> (r: String)
    ensures
        r@ == dec_str(n as int),
    decreases n,
{
    if n < 10 {
        digit_str(n)
    } else {
        let head = u16_to_string(n / 10);
        let tail = digit_str(n % 10);
        head.concat(tail.as_str())
    }
}

/// The health endpoint checked by the prober: the well-known URL for the
/// default host and port, else one built from the resolved pair.
pub open spec fn health_endpoint_spec(host: Seq<char>, port: u16) -> Seq<char> {
    if host == "127.0.0.1"@ && port == DEFAULT_PORT {
        "http://127.0.0.1:8868/health"@
    } else {
        "http://"@ + host + ":"@ + dec_str(port as int) + "/health"@
    }
}

/// Builds the health endpoint URL for the resolved host and port.
pub fn health_endpoint(host: &str, port: u16) -> (r: String)
    ensures
        r@ == health_endpoint_spec(host@, port),
{
    let host_owned = host.to_owned();
    let loopback = default_host();
    if host_owned.eq(&loopback) && port == DEFAULT_PORT {
        String::from_str("http://127.0.0.1:8868/health")
    } else {
        let mut url = String::from_str("http://");
        url.append(host);
        url.append(":");
        let port_str = u16_to_string(port);
        url.append(port_str.as_str());
        url.append("/health");
        url
    }
}

} // verus!
