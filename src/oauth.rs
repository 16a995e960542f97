//! The check on the browser redirect that ends a login: the redirect must
//! carry the `state` the login began with before its `code` is taken.
use vstd::prelude::*;
use crate::external::{json_str_member, str_member, url_query, url_query_pairs};

verus! {

/// Where the authorization code is exchanged for a token.
pub const TOKEN_ENDPOINT: &'static str = "https://oauth2.googleapis.com/token";

/// Where the identity provider sends the browser back to.
pub const REDIRECT_URI: &'static str = "http://localhost:8000";

/// The client identity registered with the identity provider.
pub const CLIENT_ID: &'static str = "YOUR_CLIENT_ID";

/// The client secret registered with the identity provider.
pub const CLIENT_SECRET: &'static str = "YOUR_CLIENT_SECRET";

/// The form fields of a token request for an authorization code.
pub open spec fn token_form(code: Seq<char>) -> Seq<(Seq<char>, Seq<char>)> {
    seq![
        ("code"@, code),
        ("client_id"@, CLIENT_ID@),
        ("client_secret"@, CLIENT_SECRET@),
        ("redirect_uri"@, REDIRECT_URI@),
        ("grant_type"@, "authorization_code"@),
    ]
}

/// The access token of a token response: its `access_token` string, or the
/// empty string where it has none.
pub open spec fn token_of(response: serde_json::Value) -> Seq<char> {
    match json_str_member(response, "access_token"@) {
        Some(t) => t,
        None => Seq::empty(),
    }
}

/// The value of the first pair whose key is `key`.
pub open spec fn first_value(pairs: Seq<(Seq<char>, Seq<char>)>, key: Seq<char>) -> Option<Seq<char>>
    decreases pairs.len(),
{
    if pairs.len() == 0 {
        None
    } else if pairs[0].0 == key {
        Some(pairs[0].1)
    } else {
        first_value(pairs.drop_first(), key)
    }
}

/// The authorization code a redirect URL carries, where the URL parses, its
/// first `state` parameter equals `state`, and it has a `code` parameter.
pub open spec fn callback_code(url: Seq<char>, state: Seq<char>) -> Option<Seq<char>> {
    match url_query(url) {
        Some(pairs) => if first_value(pairs, "state"@) == Some(state) {
            first_value(pairs, "code"@)
        } else {
            None
        },
        None => None,
    }
}

/// The form fields of a token request for an authorization code.
pub fn token_request_form(code: String) -> (r: Vec<(String, String)>)
    ensures
        r@.map_values(|p: (String, String)| (p.0@, p.1@)) == token_form(code@),
{
    let r = vec![
        (String::from_str("code"), code),
        (String::from_str("client_id"), String::from_str(CLIENT_ID)),
        (String::from_str("client_secret"), String::from_str(CLIENT_SECRET)),
        (String::from_str("redirect_uri"), String::from_str(REDIRECT_URI)),
        (String::from_str("grant_type"), String::from_str("authorization_code")),
    ];
    assert(r@.map_values(|p: (String, String)| (p.0@, p.1@)) =~= token_form(code@));
    r
}

/// The access token of a token response, empty where it carries none.
pub fn access_token(response: &serde_json::Value) -> (r: String)
    ensures
        r@ == token_of(*response),
{
    match str_member(response, "access_token") {
        Some(t) => t,
        None => String::new(),
    }
}

/// The value of the first pair whose key is `key`.
fn find_value(pairs: &Vec<(String, String)>, key: &str) -> (r: Option<String>)
    ensures
        match r {
            Some(v) => first_value(pairs@.map_values(|p: (String, String)| (p.0@, p.1@)), key@) == Some(v@),
            None => first_value(pairs@.map_values(|p: (String, String)| (p.0@, p.1@)), key@) is None,
        },
{
    let ghost all = pairs@.map_values(|p: (String, String)| (p.0@, p.1@));
    let wanted = String::from_str(key);
    let mut i: usize = 0;
    assert(all.subrange(0, all.len() as int) =~= all);
    while i < pairs.len()
        invariant
            i <= pairs@.len(),
            all == pairs@.map_values(|p: (String, String)| (p.0@, p.1@)),
            wanted@ == key@,
            first_value(all, key@) == first_value(all.subrange(i as int, all.len() as int), key@),
        decreases pairs@.len() - i,
    {
        let ghost tail = all.subrange(i as int, all.len() as int);
        assert(tail.drop_first() =~= all.subrange(i + 1, all.len() as int));
        if pairs[i].0 == wanted {
            return Some(pairs[i].1.clone());
        }
        i = i + 1;
    }
    None
}

/// The authorization code of a login redirect, or `None` where the URL does
/// not parse, does not carry the expected `state`, or carries no `code`.
pub fn verify_callback(url: &str, state: &str) -> (r: Option<String>)
    ensures
        match r {
            Some(code) => callback_code(url@, state@) == Some(code@),
            None => callback_code(url@, state@) is None,
        },
{
    let pairs = match url_query_pairs(url) {
        Some(p) => p,
        None => return None,
    };
    let expected = String::from_str(state);
    match find_value(&pairs, "state") {
        Some(found) => if found == expected {
            find_value(&pairs, "code")
        } else {
            None
        },
        None => None,
    }
}

} // verus!
