//! The authorization rules: bearer tokens, query-string tokens, and caller
//! addresses, checked against the server's or the project's policy.
//!
//! Reading the HTTP request is an adapter's job; the checks here take the
//! header value, the raw query string and the remote address as plain text.

use vstd::prelude::*;
use vstd::string::*;
use crate::config::{AuthConfig, Config};
use crate::strutil;

verus! {

/// The position of the first occurrence of `c`, or the length when absent.
pub open spec fn first_pos(s: Seq<char>, c: char) -> int
    decreases s.len(),
{
    if s.len() == 0 {
        0
    } else if s[0] == c {
        0
    } else {
        1 + first_pos(s.skip(1), c)
    }
}

pub proof fn lemma_first_pos_bounds(s: Seq<char>, c: char)
    ensures
        0 <= first_pos(s, c) <= s.len(),
        first_pos(s, c) < s.len() ==> s[first_pos(s, c)] == c,
        forall|j: int| 0 <= j < first_pos(s, c) ==> s[j] != c,
    decreases s.len(),
{
    if s.len() > 0 && s[0] != c {
        lemma_first_pos_bounds(s.skip(1), c);
        assert(forall|j: int| 1 <= j < first_pos(s, c) ==> s[j] == s.skip(1)[j - 1]);
    }
}

/// The text appears in the list.
pub open spec fn in_list(s: Seq<char>, list: Seq<String>) -> bool {
    exists|i: int| 0 <= i < list.len() && #[trigger] list[i]@ == s
}

/// The text appears in the list.
pub fn contains_str(list: &Vec<String>, s: &str) -> (r: bool)
    ensures
        r == in_list(s@, list@),
{
    let n = list.len();
    let mut i: usize = 0;
    while i < n
        invariant
            i <= n,
            n == list@.len(),
            forall|j: int| 0 <= j < i ==> #[trigger] list@[j]@ != s@,
        decreases n - i,
    {
        if strutil::str_eq(list[i].as_str(), s) {
            return true;
        }
        i = i + 1;
    }
    false
}

/// The token after a `Bearer ` prefix, when the header has that shape.
pub open spec fn bearer_of(header: Seq<char>) -> Option<Seq<char>> {
    if strutil::match_at(header, "Bearer "@, 0) {
        Some(header.skip("Bearer "@.len() as int))
    } else {
        None
    }
}

/// The token after a `Bearer ` prefix, when the header has that shape.
pub fn extract_bearer_token(header: &str) -> (r: Option<String>)
    ensures
        match r {
            Some(t) => bearer_of(header@) == Some(t@),
            None => bearer_of(header@) is None,
        },
{
    if strutil::str_starts_with(header, "Bearer ") {
        let plen = "Bearer ".unicode_len();
        let t = strutil::str_suffix(header, plen);
        Some(t)
    } else {
        None
    }
}

/// One `key=value` query segment carries an allowed token: its key is
/// `token` and its value, the text after the first `=`, is in the list.
pub open spec fn segment_token_ok(seg: Seq<char>, allowed: Seq<String>) -> bool {
    {
        let eq = first_pos(seg, '=');
        &&& eq < seg.len()
        &&& seg.subrange(0, eq) == "token"@
        &&& in_list(seg.skip(eq + 1), allowed)
    }
}

/// Some `&`-separated segment of the query string carries an allowed token.
pub open spec fn query_token_ok(q: Seq<char>, allowed: Seq<String>) -> bool
    decreases q.len(),
{
    {
        let amp = first_pos(q, '&');
        if 0 <= amp < q.len() {
            segment_token_ok(q.subrange(0, amp), allowed) || query_token_ok(
                q.skip(amp + 1),
                allowed,
            )
        } else {
            segment_token_ok(q, allowed)
        }
    }
}

/// Whether one query segment carries an allowed token.
fn check_segment(seg: &str, allowed: &Vec<String>) -> (r: bool)
    ensures
        r == segment_token_ok(seg@, allowed@),
{
    proof {
        lemma_first_pos_bounds(seg@, '=');
    }
    match strutil::find_char_from(seg, '=', 0) {
        Some(eq) => {
            proof {
                assert(first_pos(seg@, '=') == eq as int) by {
                    lemma_first_pos_bounds(seg@, '=');
                    let f = first_pos(seg@, '=');
                    assert(seg@[eq as int] == '=');
                    assert(f <= eq);
                    assert(eq <= f);
                }
            }
            let key = seg.substring_char(0, eq);
            proof {
                assert(key@ =~= seg@.subrange(0, eq as int));
            }
            if !strutil::str_eq(key, "token") {
                proof {
                    reveal_strlit("token");
                }
                return false;
            }
            proof {
                reveal_strlit("token");
            }
            let value = strutil::str_suffix(seg, eq + 1);
            contains_str(allowed, value.as_str())
        },
        None => {
            proof {
                assert(first_pos(seg@, '=') == seg@.len()) by {
                    lemma_first_pos_bounds(seg@, '=');
                    let f = first_pos(seg@, '=');
                    if f < seg@.len() {
                        assert(seg@[f] == '=');
                    }
                }
            }
            false
        },
    }
}

/// Whether any query segment carries an allowed token.
pub fn check_query_token(query: &str, allowed: &Vec<String>) -> (r: bool)
    ensures
        r == query_token_ok(query@, allowed@),
{
    let qlen = query.unicode_len();
    let mut start: usize = 0;
    proof {
        assert(query@.skip(0) =~= query@);
    }
    loop
        invariant
            start <= qlen,
            qlen == query@.len(),
            query_token_ok(query@, allowed@) == query_token_ok(query@.skip(start as int), allowed@),
        decreases qlen - start,
    {
        let rest_view = Ghost(query@.skip(start as int));
        match strutil::find_char_from(query, '&', start) {
            Some(amp) => {
                proof {
                    lemma_first_pos_bounds(rest_view@, '&');
                    assert(first_pos(rest_view@, '&') == amp - start) by {
                        let f = first_pos(rest_view@, '&');
                        assert(forall|j: int|
                            0 <= j < rest_view@.len() ==> rest_view@[j] == query@[start + j]);
                        assert(rest_view@[amp - start] == '&');
                        if f < amp - start {
                            assert(query@[start + f] == '&');
                        }
                    }
                }
                let seg = query.substring_char(start, amp);
                proof {
                    assert(seg@ =~= rest_view@.subrange(0, amp - start));
                }
                if check_segment(seg, allowed) {
                    return true;
                }
                proof {
                    assert(rest_view@.skip(amp - start + 1) =~= query@.skip(amp + 1));
                }
                start = amp + 1;
            },
            None => {
                proof {
                    lemma_first_pos_bounds(rest_view@, '&');
                    assert(first_pos(rest_view@, '&') == rest_view@.len()) by {
                        let f = first_pos(rest_view@, '&');
                        assert(forall|j: int|
                            0 <= j < rest_view@.len() ==> rest_view@[j] == query@[start + j]);
                        if f < rest_view@.len() {
                            assert(query@[start + f] == '&');
                        }
                    }
                }
                let seg = query.substring_char(start, qlen);
                proof {
                    assert(seg@ =~= rest_view@);
                }
                return check_segment(seg, allowed);
            },
        }
    }
}

/// The token policy: a `Bearer` header decides alone when present and well
/// shaped; otherwise any query segment `token=<allowed>` passes.
pub open spec fn token_auth_ok(
    header: Option<Seq<char>>,
    query: Seq<char>,
    cfg: AuthConfig,
) -> bool {
    match header {
        Some(h) => match bearer_of(h) {
            Some(t) => in_list(t, cfg.allowed_tokens@),
            None => query_token_ok(query, cfg.allowed_tokens@),
        },
        None => query_token_ok(query, cfg.allowed_tokens@),
    }
}

/// Check the token policy against the `Authorization` header, when the
/// request carried one, and the raw query string.
pub fn check_token_auth(header: Option<&str>, query: &str, cfg: &AuthConfig) -> (r: bool)
    ensures
        r == token_auth_ok(
            match header {
                Some(h) => Some(h@),
                None => None,
            },
            query@,
            *cfg,
        ),
{
    if let Some(h) = header {
        if let Some(token) = extract_bearer_token(h) {
            return contains_str(&cfg.allowed_tokens, token.as_str());
        }
    }
    check_query_token(query, &cfg.allowed_tokens)
}

/// The address policy: under `ip` the caller's address must parse as an IP
/// and its canonical text must be allowed; under `hostname` the address
/// text itself must be allowed; any other policy allows nobody.
pub open spec fn address_auth_ok(
    remote_addr: Seq<char>,
    canonical_ip: Option<Seq<char>>,
    cfg: AuthConfig,
) -> bool {
    if cfg.address_type@ == "ip"@ {
        match canonical_ip {
            Some(ip) => in_list(ip, cfg.allowed_addresses@),
            None => false,
        }
    } else if cfg.address_type@ == "hostname"@ {
        in_list(remote_addr, cfg.allowed_addresses@)
    } else {
        false
    }
}

/// Check the address policy.
///
/// `canonical_ip` must be the remote address parsed as an IP address and
/// rendered back to text, when it parses as one; parsing addresses is the
/// caller's to do.
pub fn check_address_auth(
    remote_addr: &str,
    canonical_ip: Option<&str>,
    cfg: &AuthConfig,
) -> (r: bool)
    ensures
        r == address_auth_ok(
            remote_addr@,
            match canonical_ip {
                Some(ip) => Some(ip@),
                None => None,
            },
            *cfg,
        ),
{
    if strutil::str_eq(cfg.address_type.as_str(), "ip") {
        match canonical_ip {
            Some(ip) => contains_str(&cfg.allowed_addresses, ip),
            None => false,
        }
    } else if strutil::str_eq(cfg.address_type.as_str(), "hostname") {
        contains_str(&cfg.allowed_addresses, remote_addr)
    } else {
        false
    }
}

/// The policy that governs a request: the project's own when the project
/// exists and declares one, else the server's.
pub open spec fn effective_auth(config: Config, project_name: Option<Seq<char>>) -> AuthConfig {
    match project_name {
        Some(name) => match config.spec_project_index(name) {
            Some(i) => match config.projects@[i].project.auth {
                Some(a) => a,
                None => config.auth,
            },
            None => config.auth,
        },
        None => config.auth,
    }
}

/// The full verdict of one policy over one request's credentials.
pub open spec fn auth_verdict(
    cfg: AuthConfig,
    header: Option<Seq<char>>,
    query: Seq<char>,
    remote_addr: Seq<char>,
    canonical_ip: Option<Seq<char>>,
) -> bool {
    if cfg.auth_type@ == "token"@ {
        token_auth_ok(header, query, cfg)
    } else if cfg.auth_type@ == "address"@ {
        address_auth_ok(remote_addr, canonical_ip, cfg)
    } else if cfg.auth_type@ == "both"@ {
        token_auth_ok(header, query, cfg) && address_auth_ok(remote_addr, canonical_ip, cfg)
    } else {
        false
    }
}

/// Authorize one request: pick the governing policy, then apply it to the
/// request's header, query string and remote address.
pub fn is_authorized(
    config: &Config,
    project_name: Option<&str>,
    header: Option<&str>,
    query: &str,
    remote_addr: &str,
    canonical_ip: Option<&str>,
) -> (r: bool)
    ensures
        r == auth_verdict(
            effective_auth(
                *config,
                match project_name {
                    Some(n) => Some(n@),
                    None => None,
                },
            ),
            match header {
                Some(h) => Some(h@),
                None => None,
            },
            query@,
            remote_addr@,
            match canonical_ip {
                Some(ip) => Some(ip@),
                None => None,
            },
        ),
{
    let cfg: &AuthConfig = match project_name {
        Some(name) => match config.project_named(name) {
            Some(project) => match &project.auth {
                Some(a) => a,
                None => &config.auth,
            },
            None => &config.auth,
        },
        None => &config.auth,
    };
    if strutil::str_eq(cfg.auth_type.as_str(), "token") {
        check_token_auth(header, query, cfg)
    } else if strutil::str_eq(cfg.auth_type.as_str(), "address") {
        check_address_auth(remote_addr, canonical_ip, cfg)
    } else if strutil::str_eq(cfg.auth_type.as_str(), "both") {
        let token_ok = check_token_auth(header, query, cfg);
        let address_ok = check_address_auth(remote_addr, canonical_ip, cfg);
        token_ok && address_ok
    } else {
        false
    }
}

} // verus!
