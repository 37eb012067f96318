//! Sessions. The authenticated user, as JSON, is kept in an encrypted and
//! signed cookie, so a restart does not log anyone out as long as the
//! configured secret stays the same. This module seals and opens that cookie
//! with the `cookie` crate's private jar, and decides on the user found in
//! it (if any); turning the user into JSON and back happens outside.

use vstd::prelude::*;

use vstd::utf8::encode_utf8;

use crate::api::ApiError;
use crate::models::{AuthenticatedUser, PermissionLevel};
use crate::text::{eq_ignore_case_true, is_true_word, opt_chars};

verus! {

/// Name of the cookie that holds the session.
pub const COOKIE_NAME: &'static str = "auth";

/// The key used to encrypt session cookies when none is configured. It is
/// public, so sessions are only safe with a configured key.
pub const DEFAULT_COOKIE_SECRET: &'static str = "hejjakwdjaklwjdlka jwkldjalkwdjalkwjdlkajlkdja klwd231ahwdah widuhalwiudh aliuwhdjlad";

/// The secret session cookies are encrypted with: the configured one, or
/// the insecure default.
pub fn cookie_secret(configured: Option<String>) -> (res: String)
    ensures
        configured matches Some(s) ==> res == s,
        configured is None ==> res@ == DEFAULT_COOKIE_SECRET@,
{
    match configured {
        Some(s) => s,
        None => String::from_str(DEFAULT_COOKIE_SECRET),
    }
}

/// Whether session cookies are only sent over HTTPS: when the configured
/// value is `true` in any letter case; an unset value counts as `false`.
pub fn cookie_secure(configured: &Option<String>) -> (res: bool)
    ensures
        res == (match *configured {
            Some(s) => is_true_word(s@),
            None => false,
        }),
{
    match configured {
        Some(s) => eq_ignore_case_true(s.as_str()),
        None => false,
    }
}

/// The text of the secret session cookies are encrypted with.
pub open spec fn session_secret(configured: Option<String>) -> Seq<char> {
    match configured {
        Some(s) => s@,
        None => DEFAULT_COOKIE_SECRET@,
    }
}

/// The bytes the session key is made of.
pub open spec fn session_key(configured: Option<String>) -> Seq<u8> {
    encode_utf8(session_secret(configured))
}

/// A key can be made of the secret: it has at least 64 bytes.
pub open spec fn key_long_enough(configured: Option<String>) -> bool {
    session_key(configured).len() >= 64
}

proof fn lemma_encode_utf8_len(chars: Seq<char>)
    ensures
        encode_utf8(chars).len() >= chars.len(),
    decreases chars.len(),
{
    if chars.len() > 0 {
        lemma_encode_utf8_len(chars.drop_first());
    }
}

/// The default secret is long enough to make a key of.
pub proof fn lemma_default_key_long_enough()
    ensures
        key_long_enough(None),
{
    reveal_strlit("hejjakwdjaklwjdlka jwkldjalkwdjalkwjdlkajlkdja klwd231ahwdah widuhalwiudh aliuwhdjlad");
    lemma_encode_utf8_len(DEFAULT_COOKIE_SECRET@);
}

/// A cookie name that percent-encoding leaves as it is: ASCII letters and
/// digits only.
pub open spec fn is_cookie_token(s: Seq<char>) -> bool {
    &&& s.len() > 0
    &&& forall|i: int|
        0 <= i < s.len() ==> ('a' <= #[trigger] s[i] <= 'z' || 'A' <= s[i] <= 'Z' || '0' <= s[i] <= '9')
}

/// The `SameSite` policy of a cookie.
#[derive(Debug, Clone, Copy, PartialEq, Eq, Structural)]
pub enum SameSitePolicy {
    Strict,
    Lax,
    /// No restriction (written `None`).
    Unrestricted,
}

/// How the policy is written in a `Set-Cookie` header.
pub open spec fn same_site_text(p: SameSitePolicy) -> Seq<char> {
    match p {
        SameSitePolicy::Strict => "Strict"@,
        SameSitePolicy::Lax => "Lax"@,
        SameSitePolicy::Unrestricted => "None"@,
    }
}

/// The attributes a `Set-Cookie` header carries after the name and value.
pub open spec fn cookie_attributes(path: Seq<char>, http_only: bool, same_site: SameSitePolicy, secure: bool) -> Seq<
    char,
> {
    (if http_only {
        "; HttpOnly"@
    } else {
        Seq::<char>::empty()
    }) + "; SameSite="@ + same_site_text(same_site) + (if secure {
        "; Secure"@
    } else {
        Seq::<char>::empty()
    }) + "; Path="@ + path
}

/// What a private cookie jar seeded from the `Cookie` header `header` gives
/// for the cookie `name`, with the key made of `secret`: the decrypted value,
/// or none when there is no such cookie or it does not authenticate.
pub uninterp spec fn opened_private_cookie(header: Seq<char>, secret: Seq<u8>, name: Seq<char>) -> Option<
    Seq<char>,
>;

/// Parses the `Cookie` header with `cookie::Cookie::split_parse_encoded`,
/// seeds a `cookie::CookieJar` with the pairs that parse, and reads the
/// cookie `name` through the jar's private child with `cookie::Key::from`
/// made of `secret`.
///
/// The result is named `opened_private_cookie`. `Key::from` panics on fewer
/// than 64 bytes, hence the `requires`.
#[verifier::external_body]
fn open_private_cookie(header: &str, secret: &[u8], name: &str) -> (res: Option<String>)
    requires
        secret@.len() >= 64,
    ensures
        opt_chars(res) == opened_private_cookie(header@, secret@, name@),
{
    let mut jar = cookie::CookieJar::new();
    for pair in cookie::Cookie::split_parse_encoded(header.to_string()).flatten() {
        jar.add_original(pair.into_owned());
    }
    jar.private(&cookie::Key::from(secret)).get(name).map(|c| c.value().to_string())
}

/// `set_cookie` is a `Set-Cookie` header for the cookie `name`: the name,
/// `=`, a sealed value without `;` that opens to `value` with the key made
/// of `secret`, and then `attributes`.
pub open spec fn sealed_cookie(
    set_cookie: Seq<char>,
    name: Seq<char>,
    value: Seq<char>,
    secret: Seq<u8>,
    attributes: Seq<char>,
) -> bool {
    exists|v: Seq<char>|
        {
            &&& !v.contains(';')
            &&& set_cookie == name + "="@ + v + attributes
            &&& opened_private_cookie(name + "="@ + v, secret, name) == Some(value)
        }
}

/// Builds a `cookie::Cookie` with these name, value and attributes, adds it
/// to a fresh `cookie::CookieJar` through the private child made with
/// `cookie::Key::from(secret)`, and writes the jar's delta with
/// `encoded()`.
///
/// The encrypted value carries a random nonce, so what is stated holds of
/// every outcome. The source shows one header: the percent-encoded name (a
/// token stays as it is), `=`, the percent-encoded sealed value (which holds
/// no `;`), and the attributes in the order `Display` writes them (an
/// explicit `secure(false)` writes no `Secure`). The crate documents that a
/// cookie its private jar made always authenticates and decrypts with the
/// same key, which is stated over `opened_private_cookie`.
#[verifier::external_body]
fn sealed_cookie_headers(
    name: &str,
    value: &str,
    secret: &[u8],
    path: &str,
    http_only: bool,
    same_site: SameSitePolicy,
    secure: bool,
) -> (res: Vec<String>)
    requires
        secret@.len() >= 64,
        is_cookie_token(name@),
    ensures
        res@.len() == 1,
        sealed_cookie(res@[0]@, name@, value@, secret@, cookie_attributes(path@, http_only, same_site, secure)),
{
    let same_site = match same_site {
        SameSitePolicy::Strict => cookie::SameSite::Strict,
        SameSitePolicy::Lax => cookie::SameSite::Lax,
        SameSitePolicy::Unrestricted => cookie::SameSite::None,
    };
    let built = cookie::Cookie::build((name.to_string(), value.to_string())).path(path.to_string());
    let built = built.http_only(http_only).same_site(same_site).secure(secure).build();
    let mut jar = cookie::CookieJar::new();
    jar.private_mut(&cookie::Key::from(secret)).add(built);
    jar.delta().map(|c| c.encoded().to_string()).collect()
}

/// Adds `cookie::Cookie::new(name, "")` to a fresh `cookie::CookieJar`,
/// removes it with `remove`, and writes the jar's delta.
///
/// The source shows that removing a cookie the jar did not receive as
/// original only drops it from the delta: no header comes out.
#[verifier::external_body]
fn cleared_cookie_headers(name: &str) -> (res: Vec<String>)
    ensures
        res@.len() == 0,
{
    let mut jar = cookie::CookieJar::new();
    jar.add(cookie::Cookie::new(name.to_string(), ""));
    jar.remove(name.to_string());
    jar.delta().map(|c| c.encoded().to_string()).collect()
}

/// The attributes of the session cookie: sent on every path, hidden from
/// scripts, kept to same-site requests, and HTTPS-only when so configured.
pub open spec fn session_cookie_attributes(secure: bool) -> Seq<char> {
    cookie_attributes("/"@, true, SameSitePolicy::Lax, secure)
}

/// `set_cookie` starts a session holding `value`, sealed with the key made
/// of `key`, with the session cookie's attributes.
pub open spec fn sealed_session(set_cookie: Seq<char>, value: Seq<char>, key: Seq<u8>, secure: bool) -> bool {
    sealed_cookie(set_cookie, COOKIE_NAME@, value, key, session_cookie_attributes(secure))
}

/// The configured secure flag, read as `cookie_secure` reads it.
pub open spec fn secure_configured(configured: Option<String>) -> bool {
    match configured {
        Some(s) => is_true_word(s@),
        None => false,
    }
}

/// The value the session cookie of a request holds, read with the key made
/// of the configured secret (or the default): none without a `Cookie`
/// header.
pub fn session_value(cookie_header: Option<&str>, configured_secret: Option<String>) -> (res: Option<String>)
    requires
        key_long_enough(configured_secret),
    ensures
        cookie_header is None ==> res is None,
        cookie_header matches Some(h) ==> opt_chars(res) == opened_private_cookie(
            h@,
            session_key(configured_secret),
            COOKIE_NAME@,
        ),
{
    let header = match cookie_header {
        Some(h) => h,
        None => return None,
    };
    let secret = cookie_secret(configured_secret);
    open_private_cookie(header, secret.as_str().as_bytes(), COOKIE_NAME)
}

/// The `Set-Cookie` headers that start a session holding `value` (the
/// logged-in user, as JSON), sealed with the key made of the configured
/// secret (or the default).
pub fn start_session(value: &str, configured_secret: Option<String>, configured_secure: &Option<String>) -> (res:
    Vec<String>)
    requires
        key_long_enough(configured_secret),
    ensures
        res@.len() == 1,
        sealed_session(
            res@[0]@,
            value@,
            session_key(configured_secret),
            secure_configured(*configured_secure),
        ),
{
    proof {
        reveal_strlit("auth");
    }
    let secure = cookie_secure(configured_secure);
    let secret = cookie_secret(configured_secret);
    sealed_cookie_headers(COOKIE_NAME, value, secret.as_str().as_bytes(), "/", true, SameSitePolicy::Lax, secure)
}

/// The `Set-Cookie` headers that end the session: the session cookie is
/// added to a fresh jar and removed again, which leaves no header.
pub fn end_session() -> (res: Vec<String>)
    ensures
        res@.len() == 0,
{
    cleared_cookie_headers(COOKIE_NAME)
}

/// The `name=value` pair a browser sends back for a `Set-Cookie` header:
/// everything before the first `;`.
pub open spec fn cookie_pair(set_cookie: Seq<char>) -> Seq<char>
    decreases set_cookie.len(),
{
    if set_cookie.len() == 0 {
        set_cookie
    } else if set_cookie[0] == ';' {
        Seq::empty()
    } else {
        seq![set_cookie[0]] + cookie_pair(set_cookie.drop_first())
    }
}

proof fn lemma_cookie_pair_prefix(a: Seq<char>, b: Seq<char>)
    requires
        !a.contains(';'),
    ensures
        cookie_pair(a + b) == a + cookie_pair(b),
    decreases a.len(),
{
    if a.len() > 0 {
        assert(!a.drop_first().contains(';')) by {
            if a.drop_first().contains(';') {
                let k = choose|k: int| 0 <= k < a.drop_first().len() && a.drop_first()[k] == ';';
                assert(a[k + 1] == ';');
            }
        }
        assert(a[0] != ';') by {
            if a[0] == ';' {
                assert(a.contains(';'));
            }
        }
        lemma_cookie_pair_prefix(a.drop_first(), b);
        assert((a + b).drop_first() =~= a.drop_first() + b);
        assert(seq![a[0]] + (a.drop_first() + cookie_pair(b)) =~= a + cookie_pair(b));
    } else {
        assert(a + b =~= b);
        assert(a + cookie_pair(b) =~= cookie_pair(b));
    }
}

/// A session survives a restart: the pair a browser sends back for the
/// `Set-Cookie` header that started a session opens to the session's value
/// with any key made of the same secret, so `session_value` gives it back
/// as long as the configured secret stays the same.
pub proof fn lemma_session_survives_restart(set_cookie: Seq<char>, value: Seq<char>, key: Seq<u8>, secure: bool)
    requires
        sealed_session(set_cookie, value, key, secure),
    ensures
        opened_private_cookie(cookie_pair(set_cookie), key, COOKIE_NAME@) == Some(value),
{
    reveal_strlit("auth");
    let v = choose|v: Seq<char>|
        {
            &&& !v.contains(';')
            &&& set_cookie == COOKIE_NAME@ + "="@ + v + session_cookie_attributes(secure)
            &&& opened_private_cookie(COOKIE_NAME@ + "="@ + v, key, COOKIE_NAME@) == Some(value)
        };
    reveal_strlit("=");
    let head = COOKIE_NAME@ + "="@;
    let pair = head + v;
    assert(head.len() == 5);
    assert(!pair.contains(';')) by {
        if pair.contains(';') {
            let k = choose|k: int| 0 <= k < pair.len() && pair[k] == ';';
            if k >= 5 {
                assert(pair[k] == v[k - 5]);
                assert(v.contains(';'));
            } else {
                assert(pair[k] == head[k]);
            }
        }
    }
    assert(COOKIE_NAME@ + "="@ + v == pair);
    let attrs = session_cookie_attributes(secure);
    assert(set_cookie == pair + attrs);
    lemma_cookie_pair_prefix(pair, attrs);
    reveal_strlit("; HttpOnly");
    assert(attrs[0] == ';');
    assert(cookie_pair(attrs) == Seq::<char>::empty());
    assert(pair + Seq::<char>::empty() =~= pair);
}

/// The logged-in user, or a refusal when there is none.
pub fn require_auth(current: Option<AuthenticatedUser>) -> (res: Result<AuthenticatedUser, ApiError>)
    ensures
        current matches Some(u) ==> res matches Ok(v) && v == u,
        current is None ==> res matches Err(ApiError::NotLoggedIn),
{
    match current {
        Some(u) => Ok(u),
        None => Err(ApiError::NotLoggedIn),
    }
}

/// The logged-in user if that user is an administrator; otherwise a refusal
/// that says whether anyone is logged in at all.
pub fn require_admin(current: Option<AuthenticatedUser>) -> (res: Result<AuthenticatedUser, ApiError>)
    ensures
        current is None ==> res matches Err(ApiError::NotLoggedIn),
        current matches Some(u) ==> (if u.permission == PermissionLevel::Admin {
            res matches Ok(v) && v == u
        } else {
            res matches Err(ApiError::Forbidden)
        }),
{
    let user = match require_auth(current) {
        Ok(u) => u,
        Err(e) => return Err(e),
    };
    if user.permission == PermissionLevel::Admin {
        Ok(user)
    } else {
        Err(ApiError::Forbidden)
    }
}

} // verus!
