//! OAuth callback handling: parsing the loopback HTTP request that carries
//! the provider's redirect, extracting the payload parameter, and
//! classifying the decoded payload.
//!
//! The loopback HTTP server itself (sockets, response writing) is I/O and
//! stays outside the library, as does JSON parsing of the payload; the
//! request-line parser, the query-string extraction and the acceptance
//! rules live here.

use vstd::prelude::*;

use crate::text::{
    find_char, lemma_find_char_at, lemma_ws_tokens_skip_spaces, lemma_ws_tokens_token, is_space,
    string_views, split_on, split_on_char, trimmed, ws_tokens,
};

verus! {

/// Port of the loopback OAuth callback server.
pub const OAUTH_SERVER_PORT: u16 = 17842;

/// The callback URL served by the loopback OAuth server.
pub fn get_callback_url() -> (r: String)
    ensures
        r@ == "http://127.0.0.1:17842/oauth/callback"@,
{
    String::from_str("http://127.0.0.1:17842/oauth/callback")
}

/// Whether the process runs with elevated administrator rights.  Elevation
/// is a platform-API affair outside this library; here, as on every
/// platform without that notion, the answer is no.
pub fn is_running_as_admin() -> (r: bool)
    ensures
        !r,
{
    false
}

/// The first line of a request: everything before the first line feed,
/// minus a trailing carriage return.
pub open spec fn first_line_spec(s: Seq<char>) -> Seq<char> {
    let raw = s.take(find_char(s, '\n'));
    if raw.len() > 0 && raw.last() == '\r' {
        raw.take(raw.len() - 1)
    } else {
        raw
    }
}

/// The path of an HTTP request: the second whitespace-separated token of
/// the first line, provided the first token is `GET`.
pub open spec fn request_path_spec(s: Seq<char>) -> Option<Seq<char>> {
    let toks = ws_tokens(first_line_spec(s));
    if toks.len() >= 2 && toks[0] == "GET"@ {
        Option::Some(toks[1])
    } else {
        Option::None
    }
}

/// Parses the request path out of a raw HTTP request.
#[verifier::rlimit(100)]
pub fn parse_request_path(request: &str) -> (r: Option<String>)
    ensures
        r is Some <==> request_path_spec(request@) is Some,
        r matches Some(p) ==> request_path_spec(request@) == Option::Some(p@),
{
    let n = request.unicode_len();
    let mut e: usize = 0;
    while e < n && request.get_char(e) != '\n'
        invariant
            0 <= e <= n,
            n == request@.len(),
            forall|m: int| 0 <= m < e ==> request@[m] != '\n',
        decreases n - e,
    {
        e = e + 1;
    }
    proof {
        lemma_find_char_at(request@, '\n', e as int);
    }
    let le: usize = if e > 0 && request.get_char(e - 1) == '\r' {
        e - 1
    } else {
        e
    };
    let ghost line = first_line_spec(request@);
    proof {
        if e > 0 && request@[e - 1] == '\r' {
            assert(request@.take(e as int).take(e - 1) =~= request@.take(e - 1));
        }
        assert(line =~= request@.take(le as int));
    }
    let mut i: usize = 0;
    while i < le && is_space(request.get_char(i))
        invariant
            0 <= i <= le <= n,
            n == request@.len(),
            line == request@.take(le as int),
            forall|m: int| 0 <= m < i ==> crate::text::is_space_char(line[m]),
        decreases le - i,
    {
        i = i + 1;
    }
    proof {
        lemma_ws_tokens_skip_spaces(line, i as int);
    }
    if i == le {
        proof {
            assert(line.skip(i as int) =~= Seq::<char>::empty());
        }
        return None;
    }
    let mut j: usize = i + 1;
    while j < le && !is_space(request.get_char(j))
        invariant
            i < j <= le <= n,
            n == request@.len(),
            line == request@.take(le as int),
            forall|m: int| i <= m < j ==> !crate::text::is_space_char(line[m]),
        decreases le - j,
    {
        j = j + 1;
    }
    proof {
        lemma_ws_tokens_token(line.skip(i as int), j - i);
        assert(line.skip(i as int).take(j - i) =~= request@.subrange(i as int, j as int));
        assert(line.skip(i as int).skip(j - i) =~= line.skip(j as int));
    }
    let tok1 = request.substring_char(i, j).to_owned();
    let get_lit = String::from_str("GET");
    if !tok1.eq(&get_lit) {
        proof {
            assert(ws_tokens(line)[0] == tok1@);
        }
        return None;
    }
    let mut k: usize = j;
    while k < le && is_space(request.get_char(k))
        invariant
            j <= k <= le <= n,
            n == request@.len(),
            line == request@.take(le as int),
            forall|m: int| j <= m < k ==> crate::text::is_space_char(line[m]),
        decreases le - k,
    {
        k = k + 1;
    }
    proof {
        lemma_ws_tokens_skip_spaces(line.skip(j as int), k - j);
        assert(line.skip(j as int).skip(k - j) =~= line.skip(k as int));
    }
    if k == le {
        proof {
            assert(line.skip(k as int) =~= Seq::<char>::empty());
            assert(ws_tokens(line).len() == 1);
        }
        return None;
    }
    let mut m: usize = k + 1;
    while m < le && !is_space(request.get_char(m))
        invariant
            k < m <= le <= n,
            n == request@.len(),
            line == request@.take(le as int),
            forall|q: int| k <= q < m ==> !crate::text::is_space_char(line[q]),
        decreases le - m,
    {
        m = m + 1;
    }
    proof {
        lemma_ws_tokens_token(line.skip(k as int), m - k);
        assert(line.skip(k as int).take(m - k) =~= request@.subrange(k as int, m as int));
        assert(ws_tokens(line).len() >= 2);
        assert(ws_tokens(line)[1] == request@.subrange(k as int, m as int));
    }
    let tok2 = request.substring_char(k, m).to_owned();
    Some(tok2)
}

/// The query string of a path: everything after the first question mark,
/// or empty when there is none.
pub open spec fn query_of(path: Seq<char>) -> Seq<char> {
    if find_char(path, '?') < path.len() {
        path.skip(find_char(path, '?') + 1)
    } else {
        Seq::empty()
    }
}

/// Extracts the query string of a request path.
pub fn callback_query(path: &str) -> (r: String)
    ensures
        r@ == query_of(path@),
{
    let n = path.unicode_len();
    let mut f: usize = 0;
    while f < n && path.get_char(f) != '?'
        invariant
            0 <= f <= n,
            n == path@.len(),
            forall|m: int| 0 <= m < f ==> path@[m] != '?',
        decreases n - f,
    {
        f = f + 1;
    }
    proof {
        lemma_find_char_at(path@, '?', f as int);
    }
    if f == n {
        proof {
            assert(query_of(path@) =~= Seq::<char>::empty());
        }
        String::new()
    } else {
        proof {
            assert(path@.subrange(f + 1, n as int) =~= query_of(path@));
        }
        path.substring_char(f + 1, n).to_owned()
    }
}

/// The key of a `key=value` query parameter (everything before the first
/// equals sign).
pub open spec fn kv_key(p: Seq<char>) -> Seq<char> {
    p.take(find_char(p, '='))
}

/// Whether a query parameter has a value at all.
pub open spec fn kv_has_value(p: Seq<char>) -> bool {
    find_char(p, '=') < p.len()
}

/// The value of a `key=value` query parameter.
pub open spec fn kv_value(p: Seq<char>) -> Seq<char> {
    p.skip(find_char(p, '=') + 1)
}

/// The raw (still percent-encoded) values of the `payload` parameters
/// among the given `&`-separated pieces, in order.
pub open spec fn payload_values_of(pieces: Seq<Seq<char>>) -> Seq<Seq<char>>
    decreases pieces.len(),
{
    if pieces.len() == 0 {
        Seq::empty()
    } else {
        let rest = payload_values_of(pieces.skip(1));
        if kv_has_value(pieces[0]) && kv_key(pieces[0]) == "payload"@ {
            seq![kv_value(pieces[0])] + rest
        } else {
            rest
        }
    }
}

/// One unfolding of [`payload_values_of`].
proof fn lemma_payload_values_unfold(pieces: Seq<Seq<char>>)
    requires
        pieces.len() > 0,
    ensures
        payload_values_of(pieces) == (if kv_has_value(pieces[0]) && kv_key(pieces[0])
            == "payload"@ {
            seq![kv_value(pieces[0])] + payload_values_of(pieces.skip(1))
        } else {
            payload_values_of(pieces.skip(1))
        }),
{
}

/// The raw values of the `payload` parameters of a query string.
pub open spec fn payload_params_spec(q: Seq<char>) -> Seq<Seq<char>> {
    payload_values_of(split_on(q, '&'))
}

/// Collects the raw values of the `payload` parameters of a query string.
pub fn payload_params(query: &str) -> (r: Vec<String>)
    ensures
        string_views(r@) == payload_params_spec(query@),
{
    let pieces = split_on_char(query, '&');
    let key_lit = String::from_str("payload");
    let mut out: Vec<String> = Vec::new();
    let mut idx: usize = 0;
    proof {
        assert(string_views(pieces@).skip(0) =~= string_views(pieces@));
        assert(string_views(out@) + payload_values_of(string_views(pieces@)) =~= payload_values_of(
            string_views(pieces@),
        ));
    }
    while idx < pieces.len()
        invariant
            0 <= idx <= pieces.len(),
            key_lit@ == "payload"@,
            string_views(pieces@) == split_on(query@, '&'),
            payload_params_spec(query@) == string_views(out@) + payload_values_of(
                string_views(pieces@).skip(idx as int),
            ),
        decreases pieces.len() - idx,
    {
        let ghost pre_out = out@;
        let ghost remaining = string_views(pieces@).skip(idx as int);
        let p = &pieces[idx];
        let pn = p.as_str().unicode_len();
        let mut f: usize = 0;
        while f < pn && p.as_str().get_char(f) != '='
            invariant
                0 <= f <= pn,
                pn == p@.len(),
                forall|m: int| 0 <= m < f ==> p@[m] != '=',
            decreases pn - f,
        {
            f = f + 1;
        }
        proof {
            lemma_find_char_at(p@, '=', f as int);
            assert(remaining.len() > 0);
            assert(remaining[0] == p@);
            assert(remaining.skip(1) =~= string_views(pieces@).skip(idx + 1));
            lemma_payload_values_unfold(remaining);
        }
        if f < pn {
            let key = p.as_str().substring_char(0, f).to_owned();
            proof {
                assert(key@ =~= kv_key(p@));
            }
            if key.eq(&key_lit) {
                let value = p.as_str().substring_char(f + 1, pn).to_owned();
                proof {
                    assert(value@ =~= kv_value(p@));
                }
                out.push(value);
                proof {
                    assert(payload_values_of(remaining) == seq![kv_value(p@)]
                        + payload_values_of(remaining.skip(1)));
                    assert(string_views(out@) =~= string_views(pre_out).push(kv_value(p@)));
                    assert(string_views(pre_out).push(kv_value(p@)) + payload_values_of(
                        remaining.skip(1),
                    ) =~= string_views(pre_out) + (seq![kv_value(p@)] + payload_values_of(
                        remaining.skip(1),
                    )));
                }
            } else {
                proof {
                    assert(payload_values_of(remaining) == payload_values_of(remaining.skip(1)));
                }
            }
        } else {
            proof {
                assert(!kv_has_value(p@));
                assert(payload_values_of(remaining) == payload_values_of(remaining.skip(1)));
            }
        }
        idx = idx + 1;
    }
    proof {
        assert(string_views(pieces@).skip(pieces@.len() as int) =~= Seq::<Seq<char>>::empty());
        assert(string_views(out@) + Seq::<Seq<char>>::empty() =~= string_views(out@));
    }
    out
}

/// The percent-decoding of `s`, as `urlencoding::decode` computes it: a
/// pure function of the characters alone, left unspecified here beyond the
/// fact that a string without percent signs decodes to itself.
pub uninterp spec fn decoded_of(s: Seq<char>) -> Seq<char>;

/// Relies on `urlencoding::decode`: percent-decodes `s`, failing only when
/// the decoded bytes are not valid UTF-8.  A string without `%` is returned
/// unchanged.
#[verifier::external_body]
fn url_decode(s: &str) -> (r: Option<String>)
    ensures
        match r {
            Option::Some(d) => d@ == decoded_of(s@),
            Option::None => true,
        },
        match r {
            Option::Some(d) => (forall|i: int| 0 <= i < s@.len() ==> s@[i] != '%') ==> d@ == s@,
            Option::None => exists|i: int| 0 <= i < s@.len() && s@[i] == '%',
        },
{
    match urlencoding::decode(s) {
        Ok(cow) => Some(cow.into_owned()),
        Err(_) => None,
    }
}

/// The decoded payload of a callback query: the last `payload` parameter
/// that decodes successfully, if any.
pub fn decode_payload_param(query: &str) -> (r: Option<String>)
    ensures
        payload_params_spec(query@).len() == 0 ==> r is None,
        r matches Some(d) ==> exists|i: int|
            0 <= i < payload_params_spec(query@).len() && d@ == decoded_of(
                #[trigger] payload_params_spec(query@)[i],
            ),
{
    let params = payload_params(query);
    let mut result: Option<String> = None;
    let mut idx: usize = 0;
    while idx < params.len()
        invariant
            0 <= idx <= params.len(),
            string_views(params@) == payload_params_spec(query@),
            result matches Some(d) ==> exists|i: int|
                0 <= i < idx && d@ == decoded_of(#[trigger] payload_params_spec(query@)[i]),
        decreases params.len() - idx,
    {
        proof {
            assert(string_views(params@)[idx as int] == params@[idx as int]@);
        }
        match url_decode(params[idx].as_str()) {
            Some(decoded) => {
                result = Some(decoded);
                proof {
                    assert(payload_params_spec(query@)[idx as int] == params@[idx as int]@);
                }
            },
            None => {},
        }
        idx = idx + 1;
    }
    result
}

/// Authentication tokens delivered by an OAuth redirect.
#[derive(Debug)]
pub struct AuthTokensPayload {
    pub access: String,
    pub refresh: Option<String>,
}

/// The classified outcome of an OAuth redirect payload.
#[derive(Debug)]
pub enum AuthDeepLinkPayload {
    Success { provider: String, tokens: AuthTokensPayload, user: Option<String> },
    Error { provider: String, error: String },
}

/// Classifies the fields extracted from a decoded OAuth payload.  The
/// payload is accepted only when it is addressed to this application; an
/// explicit non-blank error field wins over the tokens; tokens must be
/// present and carry an access token.
pub fn classify_payload(
    provider: Option<String>,
    app_name: Option<String>,
    error: Option<String>,
    has_tokens: bool,
    access: Option<String>,
    refresh: Option<String>,
    user: Option<String>,
) -> (r: Result<AuthDeepLinkPayload, String>)
    ensures
        ({
            let prov = match provider {
                Option::Some(p) => p@,
                Option::None => "unknown"@,
            };
            let wrong_app = match app_name {
                Option::Some(a) => a@ != "winky"@,
                Option::None => true,
            };
            let explicit_error = match error {
                Option::Some(e) => trimmed(e@).len() > 0,
                Option::None => false,
            };
            if wrong_app {
                r matches Ok(p) && p matches AuthDeepLinkPayload::Error { provider: pv, error: er }
                    && pv@ == prov && er@ == "Invalid OAuth payload: wrong app"@
            } else if explicit_error {
                r matches Ok(p) && p matches AuthDeepLinkPayload::Error { provider: pv, error: er }
                    && pv@ == prov && er@ == error.unwrap()@
            } else if !has_tokens {
                r matches Err(e) && e@ == "Missing tokens"@
            } else if access is None {
                r matches Err(e) && e@ == "Missing access token"@
            } else {
                r matches Ok(p) && p matches AuthDeepLinkPayload::Success {
                    provider: pv,
                    tokens,
                    user: u,
                } && pv@ == prov && tokens.access == access.unwrap() && tokens.refresh == refresh
                    && u == user
            }
        }),
{
    let prov = match provider {
        Some(p) => p,
        None => String::from_str("unknown"),
    };
    let right_app = match &app_name {
        Some(a) => a.eq(&String::from_str("winky")),
        None => false,
    };
    if !right_app {
        return Ok(
            AuthDeepLinkPayload::Error {
                provider: prov,
                error: String::from_str("Invalid OAuth payload: wrong app"),
            },
        );
    }
    if let Some(e) = error {
        if !crate::text::is_blank(e.as_str()) {
            return Ok(AuthDeepLinkPayload::Error { provider: prov, error: e });
        }
    }
    if !has_tokens {
        return Err(String::from_str("Missing tokens"));
    }
    match access {
        None => Err(String::from_str("Missing access token")),
        Some(a) => Ok(
            AuthDeepLinkPayload::Success {
                provider: prov,
                tokens: AuthTokensPayload { access: a, refresh },
                user,
            },
        ),
    }
}

} // verus!
