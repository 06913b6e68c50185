//! Local-only access rules of the browser console.

pub mod auth;
pub mod routes;


use vstd::prelude::*;

use crate::web::auth::loopback_origin_view;

verus! {

/// The address the console opens in the browser: the loopback origin of
/// `port`, with the access token carried in the URL fragment.
pub open spec fn local_url_view(port: u16, token: Seq<char>) -> Seq<char> {
    loopback_origin_view(port) + "#token="@ + token
}

/// Renders `http://127.0.0.1:<port>#token=<token>`.
pub fn local_url(port: u16, token: &str) -> (r: String)
    ensures
        r@ == local_url_view(port, token@),
{
    let mut r = crate::web::auth::loopback_origin(port);
    r.append("#token=");
    r.append(token);
    r
}

} // verus!
