//! The per-launch access token and loopback origin of the browser console.

use vstd::prelude::*;

use crate::text::{decimal_view, hex_view, push_decimal, push_hex, str_equal, to_string};

verus! {

/// The only origin the console accepts: `http://127.0.0.1:<port>`.
pub open spec fn loopback_origin_view(port: u16) -> Seq<char> {
    "http://127.0.0.1:"@ + decimal_view(port as nat)
}

/// A lower-case hexadecimal digit.
pub open spec fn is_hex_digit(c: char) -> bool {
    ('0' <= c && c <= '9') || ('a' <= c && c <= 'f')
}

/// A launch token: 32 lower-case hexadecimal digits.
pub open spec fn is_hex_token(t: Seq<char>) -> bool {
    t.len() == 32 && forall|i: int| 0 <= i < t.len() ==> is_hex_digit(#[trigger] t[i])
}

/// The abstract value of an optional string slice.
pub open spec fn opt_str_view(s: Option<&str>) -> Option<Seq<char>> {
    match s {
        Some(s) => Some(s@),
        None => None,
    }
}

/// The credentials one console instance accepts.
#[derive(Debug, Clone)]
pub struct LocalAuth {
    token: String,
    origin: String,
}

/// The abstract value of a [`LocalAuth`].
pub struct LocalAuthView {
    pub token: Seq<char>,
    pub origin: Seq<char>,
}

impl View for LocalAuth {
    type V = LocalAuthView;

    closed spec fn view(&self) -> LocalAuthView {
        LocalAuthView { token: self.token@, origin: self.origin@ }
    }
}

/// Whether a request carrying `token` and `origin` is let in.
pub open spec fn authorizes_view(
    auth: LocalAuthView,
    token: Option<Seq<char>>,
    origin: Option<Seq<char>>,
) -> bool {
    token == Some(auth.token) && origin == Some(auth.origin)
}

/// `rand::random::<u128>()`: 128 bits from the thread-local generator. What
/// comes back depends on chance alone, so nothing is stated of it.
#[verifier::external_body]
fn random_u128() -> u128 {
    rand::random::<u128>()
}

proof fn lemma_hex_view_is_token(n: nat, width: nat)
    ensures
        hex_view(n, width).len() == width,
        forall|i: int| 0 <= i < width ==> is_hex_digit(#[trigger] hex_view(n, width)[i]),
    decreases width,
{
    if width > 0 {
        lemma_hex_view_is_token(n / 16, (width - 1) as nat);
    }
}

/// Renders `http://127.0.0.1:<port>`.
pub fn loopback_origin(port: u16) -> (r: String)
    ensures
        r@ == loopback_origin_view(port),
{
    let mut r = to_string("http://127.0.0.1:");
    push_decimal(&mut r, port as u64);
    r
}

impl LocalAuth {
    /// Fresh credentials for a console listening on `port`: a random
    /// 32-digit hexadecimal token and the loopback origin of that port.
    pub fn new(port: u16) -> (r: Self)
        ensures
            r@.origin == loopback_origin_view(port),
            is_hex_token(r@.token),
    {
        let n = random_u128();
        let mut token = String::new();
        push_hex(&mut token, n, 32);
        proof {
            lemma_hex_view_is_token(n as nat, 32);
            assert(token@ =~= hex_view(n as nat, 32));
        }
        LocalAuth { token, origin: loopback_origin(port) }
    }

    /// Credentials with a chosen token, for a console listening on `port`.
    pub fn new_for_test(token: &str, port: u16) -> (r: Self)
        ensures
            r@.token == token@,
            r@.origin == loopback_origin_view(port),
    {
        LocalAuth { token: to_string(token), origin: loopback_origin(port) }
    }

    /// The access token.
    pub fn token(&self) -> (r: &str)
        ensures
            r@ == self@.token,
    {
        self.token.as_str()
    }

    /// The only accepted origin.
    pub fn origin(&self) -> (r: &str)
        ensures
            r@ == self@.origin,
    {
        self.origin.as_str()
    }

    /// Whether both the token and the exact loopback origin match.
    pub fn authorizes(&self, token: Option<&str>, origin: Option<&str>) -> (r: bool)
        ensures
            r == authorizes_view(self@, opt_str_view(token), opt_str_view(origin)),
    {
        let token_ok = match token {
            Some(t) => str_equal(t, self.token.as_str()),
            None => false,
        };
        let origin_ok = match origin {
            Some(o) => str_equal(o, self.origin.as_str()),
            None => false,
        };
        token_ok && origin_ok
    }
}

} // verus!
