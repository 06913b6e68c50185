//! The access decisions of the browser console's HTTP and WebSocket routes.
//! The HTTP server hands over the header values; these functions decide.

use vstd::prelude::*;

use crate::text::{is_blank, is_blank_str, push_char, str_equal, to_string, trim, trim_view};
use crate::web::auth::{authorizes_view, opt_str_view, LocalAuth, LocalAuthView};

verus! {

/// The status a route answers with.
#[derive(Debug, Clone, Copy, PartialEq, Eq)]
pub enum ApiStatus {
    Success,
    NoContent,
    BadRequest,
    Unauthorized,
    Forbidden,
    InternalServerError,
}

/// The header that carries the access token of HTTP requests.
pub const TOKEN_HEADER: &'static str = "x-grok-local-token";

/// The WebSocket route of the event stream.
pub const EVENTS_PATH: &'static str = "/api/events";

/// HTTP requests: a missing or wrong token is unauthorized; with the right
/// token, any origin but the exact loopback origin is forbidden.
pub open spec fn authorize_view(
    auth: LocalAuthView,
    token: Option<Seq<char>>,
    origin: Option<Seq<char>>,
) -> Result<(), ApiStatus> {
    if token != Some(auth.token) {
        Err(ApiStatus::Unauthorized)
    } else if origin != Some(auth.origin) {
        Err(ApiStatus::Forbidden)
    } else {
        Ok(())
    }
}

/// The WebSocket sub-protocol that carries the token: `grok-local.<token>`.
pub open spec fn websocket_protocol_view(token: Seq<char>) -> Seq<char> {
    "grok-local."@ + token
}

/// The pieces of `s` between commas, as `str::split(',')` yields them.
pub open spec fn split_commas(s: Seq<char>) -> Seq<Seq<char>>
    decreases s.len(),
{
    if s.len() == 0 {
        seq![Seq::empty()]
    } else if s.last() == ',' {
        split_commas(s.drop_last()).push(Seq::empty())
    } else {
        let p = split_commas(s.drop_last());
        p.update(p.len() - 1, p.last().push(s.last()))
    }
}

/// Whether one of the comma-separated entries of `header`, trimmed, is
/// `expected`.
pub open spec fn lists_protocol(header: Seq<char>, expected: Seq<char>) -> bool {
    exists|i: int|
        0 <= i < split_commas(header).len() && #[trigger] trim_view(split_commas(header)[i])
            == expected
}

/// WebSocket handshakes: any origin but the exact loopback origin is
/// forbidden; then the token must be offered as a sub-protocol.
pub open spec fn authorize_websocket_view(
    auth: LocalAuthView,
    origin: Option<Seq<char>>,
    protocol: Option<Seq<char>>,
) -> Result<(), ApiStatus> {
    if origin != Some(auth.origin) {
        Err(ApiStatus::Forbidden)
    } else if protocol is Some && lists_protocol(
        protocol->0,
        websocket_protocol_view(auth.token),
    ) {
        Ok(())
    } else {
        Err(ApiStatus::Unauthorized)
    }
}

/// The guard in front of every API route: the event stream is checked as a
/// WebSocket handshake, every other route as an HTTP request.
pub open spec fn authorize_request_view(
    auth: LocalAuthView,
    path: Seq<char>,
    token: Option<Seq<char>>,
    origin: Option<Seq<char>>,
    protocol: Option<Seq<char>>,
) -> Result<(), ApiStatus> {
    if path == "/api/events"@ {
        authorize_websocket_view(auth, origin, protocol)
    } else {
        authorize_view(auth, token, origin)
    }
}

/// A request field that must hold more than whitespace.
pub open spec fn require_text_view(s: Seq<char>) -> Result<(), ApiStatus> {
    if is_blank(s) {
        Err(ApiStatus::BadRequest)
    } else {
        Ok(())
    }
}

/// Checks the token header and the origin of an HTTP request.
pub fn authorize(auth: &LocalAuth, token: Option<&str>, origin: Option<&str>) -> (r: Result<
    (),
    ApiStatus,
>)
    ensures
        r == authorize_view(auth@, opt_str_view(token), opt_str_view(origin)),
{
    let token_ok = match token {
        Some(t) => str_equal(t, auth.token()),
        None => false,
    };
    if !token_ok {
        return Err(ApiStatus::Unauthorized);
    }
    let origin_ok = match origin {
        Some(o) => str_equal(o, auth.origin()),
        None => false,
    };
    if !origin_ok {
        return Err(ApiStatus::Forbidden);
    }
    Ok(())
}

/// The WebSocket sub-protocol that carries the token: `grok-local.<token>`.
pub fn websocket_protocol(auth: &LocalAuth) -> (r: String)
    ensures
        r@ == websocket_protocol_view(auth@.token),
{
    let mut r = to_string("grok-local.");
    r.append(auth.token());
    r
}

/// Whether a comma-separated header value lists `expected`.
pub fn offers_protocol(header: &str, expected: &str) -> (r: bool)
    ensures
        r == lists_protocol(header@, expected@),
{
    let n = header.unicode_len();
    let mut current = String::new();
    let mut found = false;
    let ghost mut done: Seq<Seq<char>> = Seq::empty();
    let mut i: usize = 0;
    assert(header@.take(0) =~= Seq::<char>::empty());
    assert(done.push(current@) =~= seq![Seq::<char>::empty()]);
    while i < n
        invariant
            n == header@.len(),
            i <= n,
            split_commas(header@.take(i as int)) == done.push(current@),
            found == (exists|j: int|
                0 <= j < done.len() && #[trigger] trim_view(done[j]) == expected@),
        decreases n - i,
    {
        let c = header.get_char(i);
        let ghost prefix = header@.take(i as int);
        assert(header@.take(i + 1).drop_last() =~= prefix);
        assert(header@.take(i + 1).last() == c);
        if c == ',' {
            let hit = str_equal(trim(current.as_str()), expected);
            proof {
                let old_done = done;
                done = done.push(current@);
                assert(trim_view(done[done.len() - 1]) == trim_view(current@));
                assert forall|j: int| 0 <= j < old_done.len() implies done[j] == old_done[j] by {}
                if found {
                    let j = choose|j: int|
                        0 <= j < old_done.len() && #[trigger] trim_view(old_done[j]) == expected@;
                    assert(trim_view(done[j]) == expected@);
                }
            }
            found = found || hit;
            current = String::new();
            proof {
                assert(split_commas(header@.take(i + 1)) == split_commas(prefix).push(
                    Seq::empty(),
                ));
            }
        } else {
            push_char(&mut current, c);
            proof {
                let p = split_commas(prefix);
                assert(split_commas(header@.take(i + 1)) == p.update(
                    p.len() - 1,
                    p.last().push(c),
                ));
                assert(p.update(p.len() - 1, p.last().push(c)) =~= done.push(current@));
            }
        }
        i = i + 1;
    }
    let hit = str_equal(trim(current.as_str()), expected);
    proof {
        assert(header@.take(n as int) =~= header@);
        let parts = done.push(current@);
        if found {
            let j = choose|j: int| 0 <= j < done.len() && #[trigger] trim_view(done[j]) == expected@;
            assert(parts[j] == done[j]);
            assert(trim_view(parts[j]) == expected@);
        }
        if hit {
            assert(trim_view(parts[parts.len() - 1]) == expected@);
        }
        if lists_protocol(header@, expected@) {
            let j = choose|j: int|
                0 <= j < parts.len() && #[trigger] trim_view(parts[j]) == expected@;
            if j < done.len() {
                assert(parts[j] == done[j]);
                assert(trim_view(done[j]) == expected@);
            }
        }
    }
    found || hit
}

/// Checks the origin and the offered sub-protocols of a WebSocket handshake.
pub fn authorize_websocket(auth: &LocalAuth, origin: Option<&str>, protocol: Option<&str>) -> (r:
    Result<(), ApiStatus>)
    ensures
        r == authorize_websocket_view(auth@, opt_str_view(origin), opt_str_view(protocol)),
{
    let origin_ok = match origin {
        Some(o) => str_equal(o, auth.origin()),
        None => false,
    };
    if !origin_ok {
        return Err(ApiStatus::Forbidden);
    }
    let expected = websocket_protocol(auth);
    let offered = match protocol {
        Some(p) => offers_protocol(p, expected.as_str()),
        None => false,
    };
    if offered {
        Ok(())
    } else {
        Err(ApiStatus::Unauthorized)
    }
}

/// The guard that runs before any API route reads a body or upgrades a
/// connection.
pub fn authorize_request(
    auth: &LocalAuth,
    path: &str,
    token: Option<&str>,
    origin: Option<&str>,
    protocol: Option<&str>,
) -> (r: Result<(), ApiStatus>)
    ensures
        r == authorize_request_view(
            auth@,
            path@,
            opt_str_view(token),
            opt_str_view(origin),
            opt_str_view(protocol),
        ),
{
    if str_equal(path, EVENTS_PATH) {
        authorize_websocket(auth, origin, protocol)
    } else {
        authorize(auth, token, origin)
    }
}

/// Rejects a request field that holds nothing but whitespace.
pub fn require_text(s: &str) -> (r: Result<(), ApiStatus>)
    ensures
        r == require_text_view(s@),
{
    if is_blank_str(s) {
        Err(ApiStatus::BadRequest)
    } else {
        Ok(())
    }
}

/// An HTTP request passes the guard exactly when the credentials authorize
/// it: the right token and the exact loopback origin. A request without the
/// right token is unauthorized whatever its origin.
pub proof fn lemma_http_guard_matches_credentials(
    auth: LocalAuthView,
    token: Option<Seq<char>>,
    origin: Option<Seq<char>>,
)
    ensures
        (authorize_view(auth, token, origin) is Ok) <==> authorizes_view(auth, token, origin),
        token != Some(auth.token) ==> authorize_view(auth, token, origin) == Err::<(), ApiStatus>(
            ApiStatus::Unauthorized,
        ),
{
}

/// A WebSocket handshake from any origin but the exact loopback origin is
/// forbidden, whatever protocols it offers; without a protocol header it is
/// never let in.
pub proof fn lemma_websocket_guard_requires_origin_and_protocol(
    auth: LocalAuthView,
    origin: Option<Seq<char>>,
    protocol: Option<Seq<char>>,
)
    ensures
        origin != Some(auth.origin) ==> authorize_websocket_view(auth, origin, protocol) == Err::<
            (),
            ApiStatus,
        >(ApiStatus::Forbidden),
        protocol is None ==> authorize_websocket_view(auth, origin, protocol) is Err,
{
}

} // verus!
