//! The signed session cookie: signing an id, checking a cookie's value, and
//! the `Set-Cookie` text that carries a new id to the browser.
use vstd::prelude::*;

use actix_web::cookie::{Cookie, CookieJar, Key};

verus! {

/// The SameSite attribute of the session cookie.
#[derive(Clone, Copy, Debug, PartialEq, Eq, Structural)]
pub enum SameSite {
    Strict,
    Lax,
    /// Sent as `SameSite=None`.
    Unrestricted,
}

/// The cookie value that signing `value` with a key derived from `secret`
/// gives: the signature followed by `value`.
pub uninterp spec fn signed_value(secret: Seq<u8>, value: Seq<char>) -> Seq<char>;

/// What checking the cookie value `raw` against a key derived from `secret`
/// gives: the signed value where the signature holds, else `None`.
pub uninterp spec fn verified_value(secret: Seq<u8>, raw: Seq<char>) -> Option<Seq<char>>;

/// The text of a cookie with the given name, value and attributes, marked
/// HttpOnly.
pub uninterp spec fn set_cookie_text(
    name: Seq<char>,
    value: Seq<char>,
    path: Seq<char>,
    domain: Option<Seq<char>>,
    secure: bool,
    max_age: Option<i64>,
    same_site: Option<SameSite>,
) -> Seq<char>;

pub open spec fn opt_view(o: Option<String>) -> Option<Seq<char>> {
    match o {
        Some(s) => Some(s@),
        None => None,
    }
}

/// Relies on Key::derive_from and SignedJar::add: the value stored is the
/// HMAC-SHA256 of `value` in base64 followed by `value`, and SignedJar::verify
/// with the same key recomputes that HMAC and gives `value` back. Key::derive_from
/// panics on a secret under 32 bytes.
#[verifier::external_body]
fn sign(secret: &[u8], value: &str) -> (r: String)
    requires
        secret@.len() >= 32,
    ensures
        r@ == signed_value(secret@, value@),
        verified_value(secret@, r@) == Some(value@),
{
    let key = Key::derive_from(secret);
    let mut jar = CookieJar::new();
    jar.signed_mut(&key).add(Cookie::new("", value.to_owned()));
    jar.get("").map(|c| c.value().to_owned()).unwrap_or_default()
}

/// Relies on Key::derive_from and SignedJar::verify: the value without its
/// signature where the HMAC-SHA256 in front of it matches, else `None`.
#[verifier::external_body]
fn verify(secret: &[u8], raw: &str) -> (r: Option<String>)
    requires
        secret@.len() >= 32,
    ensures
        opt_view(r) == verified_value(secret@, raw@),
{
    let key = Key::derive_from(secret);
    let jar = CookieJar::new();
    jar.signed(&key).verify(Cookie::new("", raw.to_owned())).map(|c| c.value().to_owned())
}

/// Relies on Cookie's setters and its `Display`: the `Set-Cookie` text of a
/// cookie built from these attributes, with HttpOnly set.
#[verifier::external_body]
pub(crate) fn render_cookie(
    name: &str,
    value: &str,
    path: &str,
    domain: &Option<String>,
    secure: bool,
    max_age: Option<i64>,
    same_site: Option<SameSite>,
) -> (r: String)
    ensures
        r@ == set_cookie_text(name@, value@, path@, opt_view(*domain), secure, max_age, same_site),
{
    let mut c = Cookie::new(name.to_owned(), value.to_owned());
    c.set_path(path.to_owned());
    c.set_secure(secure);
    c.set_http_only(true);
    if let Some(d) = domain { c.set_domain(d.clone()); }
    c.set_max_age(max_age.map(time::Duration::seconds));
    c.set_same_site(same_site.map(|s| match s {
        SameSite::Strict => actix_web::cookie::SameSite::Strict,
        SameSite::Lax => actix_web::cookie::SameSite::Lax,
        SameSite::Unrestricted => actix_web::cookie::SameSite::None,
    }));
    c.to_string()
}

/// Signs a session id for a cookie. Checking the result with the same secret
/// gives the id back.
pub fn sign_session_id(secret: &[u8], id: &str) -> (r: String)
    requires
        secret@.len() >= 32,
    ensures
        r@ == signed_value(secret@, id@),
        verified_value(secret@, r@) == Some(id@),
{
    sign(secret, id)
}

/// Checks a cookie's value; the session id it carries where its signature
/// holds, else `None`.
pub fn verify_session_cookie(secret: &[u8], raw: &str) -> (r: Option<String>)
    requires
        secret@.len() >= 32,
    ensures
        opt_view(r) == verified_value(secret@, raw@),
{
    verify(secret, raw)
}

/// The value of the first cookie called `name`.
pub open spec fn first_named(cookies: Seq<(String, String)>, name: Seq<char>) -> Option<Seq<char>>
    decreases cookies.len(),
{
    if cookies.len() == 0 {
        None
    } else if cookies[0].0@ == name {
        Some(cookies[0].1@)
    } else {
        first_named(cookies.drop_first(), name)
    }
}

/// Finds the first cookie of the request called `name` and gives its value.
pub fn find_cookie(cookies: &Vec<(String, String)>, name: &String) -> (r: Option<String>)
    ensures
        opt_view(r) == first_named(cookies@, name@),
{
    let mut i: usize = 0;
    assert(cookies@.subrange(0, cookies@.len() as int) =~= cookies@);
    while i < cookies.len()
        invariant
            i <= cookies@.len(),
            first_named(cookies@, name@) == first_named(cookies@.subrange(i as int, cookies@.len() as int), name@),
        decreases cookies@.len() - i,
    {
        let ghost rest = cookies@.subrange(i as int, cookies@.len() as int);
        if cookies[i].0 == *name {
            return Some(cookies[i].1.clone());
        }
        assert(rest.drop_first() =~= cookies@.subrange(i + 1, cookies@.len() as int));
        i = i + 1;
    }
    None
}

} // verus!
