//! Session cookies: finding them in request headers and writing the
//! `Set-Cookie` values that set or clear them.

use crate::config::{domain_attr, secure_flag, Config, Environment};
use crate::text::{
    decimal, from_chars, list_view, opt_view, push_decimal, push_str_chars, slice_chars,
    split, split_chars, starts_with, to_chars, trim_blanks, trim_chars, views,
};
use vstd::prelude::*;
use vstd::string::*;

verus! {

broadcast use crate::text::group_list_view;

/// Cookie that carries the access token.
pub const ACCESS_TOKEN_COOKIE: &'static str = "access_token";

/// Cookie that carries the identity token.
pub const ID_TOKEN_COOKIE: &'static str = "id_token";

/// Cookie that carries the CSRF state of a login in progress.
pub const OAUTH_STATE_COOKIE: &'static str = "oauth_state";

/// Path of the token cookies.
pub const SESSION_PATH: &'static str = "/";

/// Path of the CSRF state cookie.
pub const AUTH_PATH: &'static str = "/auth";

/// Lifetime of the CSRF state cookie, in seconds.
pub const OAUTH_STATE_MAX_AGE: u64 = 600;

// ---------------------------------------------------------------------------
// Reading
// ---------------------------------------------------------------------------

/// Printable ASCII or horizontal tab: the characters of a header value that
/// can be read as text.
pub open spec fn is_visible_ascii(c: char) -> bool {
    (' ' <= c && c < '\x7f') || c == '\t'
}

/// Whether a header value can be read as text.
pub open spec fn is_header_text(s: Seq<char>) -> bool {
    forall|i: int| 0 <= i < s.len() ==> is_visible_ascii(#[trigger] s[i])
}

/// The value of the first piece among `pieces` that, trimmed, begins with
/// `prefix`.
pub open spec fn cookie_in_pieces(pieces: Seq<Seq<char>>, prefix: Seq<char>) -> Option<Seq<char>>
    decreases pieces.len(),
{
    if pieces.len() == 0 {
        None
    } else {
        let piece = trim_blanks(pieces[0]);
        if prefix.is_prefix_of(piece) {
            Some(piece.skip(prefix.len() as int))
        } else {
            cookie_in_pieces(pieces.skip(1), prefix)
        }
    }
}

/// The value of cookie `name` in one `Cookie` header: the header is cut at
/// every `;`, each piece is trimmed, and the first piece that begins with
/// `name=` gives the value. A header that cannot be read as text holds none.
pub open spec fn cookie_in_header(header: Seq<char>, name: Seq<char>) -> Option<Seq<char>> {
    if is_header_text(header) {
        cookie_in_pieces(split(header, ';'), name.push('='))
    } else {
        None
    }
}

/// The value of cookie `name` in the first header that holds it.
pub open spec fn cookie_in_headers(headers: Seq<Seq<char>>, name: Seq<char>) -> Option<Seq<char>>
    decreases headers.len(),
{
    if headers.len() == 0 {
        None
    } else {
        match cookie_in_header(headers[0], name) {
            Some(v) => Some(v),
            None => cookie_in_headers(headers.skip(1), name),
        }
    }
}

/// Whether every character of `v` is printable ASCII or a tab.
pub fn is_text(v: &Vec<char>) -> (r: bool)
    ensures
        r == is_header_text(v@),
{
    let mut i: usize = 0;
    while i < v.len()
        invariant
            i <= v.len(),
            forall|j: int| 0 <= j < i ==> is_visible_ascii(#[trigger] v@[j]),
        decreases v.len() - i,
    {
        let c = v[i];
        if !((c >= ' ' && c < '\x7f') || c == '\t') {
            assert(!is_visible_ascii(v@[i as int]));
            return false;
        }
        i += 1;
    }
    true
}

/// Looks for cookie `name` in one `Cookie` header.
pub fn cookie_from_header(header: &str, name: &str) -> (r: Option<String>)
    ensures
        opt_view(r) == cookie_in_header(header@, name@),
{
    let chars = to_chars(header);
    if !is_text(&chars) {
        return None;
    }
    let mut prefix = to_chars(name);
    prefix.push('=');
    let pieces = split_chars(&chars, ';');
    let mut i: usize = 0;
    proof {
        assert(views(pieces@).skip(0) == views(pieces@));
    }
    while i < pieces.len()
        invariant
            i <= pieces.len(),
            prefix@ == name@.push('='),
            chars@ == header@,
            is_header_text(chars@),
            views(pieces@) == split(chars@, ';'),
            cookie_in_pieces(views(pieces@), prefix@) == cookie_in_pieces(
                views(pieces@).skip(i as int),
                prefix@,
            ),
        decreases pieces.len() - i,
    {
        let piece = trim_chars(&pieces[i]);
        proof {
            let rest = views(pieces@).skip(i as int);
            assert(rest[0] == pieces@[i as int]@);
            assert(rest.skip(1) == views(pieces@).skip(i + 1));
        }
        if starts_with(&piece, &prefix) {
            let value = slice_chars(&piece, prefix.len(), piece.len());
            assert(value@ == piece@.skip(prefix@.len() as int));
            return Some(from_chars(&value));
        }
        i += 1;
    }
    None
}

/// Looks for cookie `name` in the values of the request's `Cookie` headers,
/// taken in order. The first header that holds the cookie decides; within a
/// header, the first piece named `name` decides.
pub fn extract_cookie(cookie_headers: &Vec<String>, name: &str) -> (r: Option<String>)
    ensures
        opt_view(r) == cookie_in_headers(list_view(cookie_headers@), name@),
{
    let ghost all = list_view(cookie_headers@);
    let mut i: usize = 0;
    proof {
        assert(all.skip(0) == all);
    }
    while i < cookie_headers.len()
        invariant
            i <= cookie_headers.len(),
            all == list_view(cookie_headers@),
            cookie_in_headers(all, name@) == cookie_in_headers(all.skip(i as int), name@),
        decreases cookie_headers.len() - i,
    {
        proof {
            let rest = all.skip(i as int);
            assert(rest[0] == cookie_headers@[i as int]@);
            assert(rest.skip(1) == all.skip(i + 1));
        }
        match cookie_from_header(cookie_headers[i].as_str(), name) {
            Some(value) => {
                return Some(value);
            },
            None => {},
        }
        i += 1;
    }
    None
}

// ---------------------------------------------------------------------------
// Writing
// ---------------------------------------------------------------------------

/// A `Set-Cookie` value: always `HttpOnly` and `SameSite=Lax`, with the
/// `Domain` and `Secure` attributes that the configuration asks for.
pub open spec fn set_cookie_value(
    name: Seq<char>,
    value: Seq<char>,
    path: Seq<char>,
    max_age: nat,
    cookie_domain: Option<Seq<char>>,
    environment: Environment,
) -> Seq<char> {
    name + seq!['='] + value + "; HttpOnly; Path="@ + path + "; Max-Age="@ + decimal(max_age)
        + "; SameSite=Lax"@ + domain_attr(cookie_domain) + secure_flag(environment)
}

/// The `Set-Cookie` value that removes a cookie: empty value, `Max-Age=0`.
pub open spec fn clear_cookie_value(
    name: Seq<char>,
    path: Seq<char>,
    cookie_domain: Option<Seq<char>>,
    environment: Environment,
) -> Seq<char> {
    set_cookie_value(name, Seq::empty(), path, 0, cookie_domain, environment)
}

/// Writes the `Set-Cookie` value for cookie `name`.
pub fn set_cookie(config: &Config, name: &str, value: &str, path: &str, max_age: u64) -> (r: String)
    ensures
        r@ == set_cookie_value(
            name@,
            value@,
            path@,
            max_age as nat,
            opt_view(config.cookie_domain),
            config.environment,
        ),
{
    let mut out: Vec<char> = Vec::new();
    push_str_chars(&mut out, name);
    out.push('=');
    push_str_chars(&mut out, value);
    push_str_chars(&mut out, "; HttpOnly; Path=");
    push_str_chars(&mut out, path);
    push_str_chars(&mut out, "; Max-Age=");
    push_decimal(&mut out, max_age);
    push_str_chars(&mut out, "; SameSite=Lax");
    let domain = config.cookie_domain_attr();
    push_str_chars(&mut out, domain.as_str());
    push_str_chars(&mut out, config.cookie_secure_flag());
    proof {
        assert(Seq::<char>::empty() + name@ == name@);
        assert(name@.push('=') == name@ + seq!['=']);
    }
    from_chars(&out)
}

/// Writes the `Set-Cookie` value that removes cookie `name`.
pub fn clear_cookie(config: &Config, name: &str, path: &str) -> (r: String)
    ensures
        r@ == clear_cookie_value(
            name@,
            path@,
            opt_view(config.cookie_domain),
            config.environment,
        ),
{
    proof {
        reveal_strlit("");
        assert(""@ == Seq::<char>::empty());
    }
    set_cookie(config, name, "", path, 0)
}

/// Characters that a header value may hold: anything but control characters,
/// the tab excepted.
pub open spec fn is_header_char(c: char) -> bool {
    (' ' <= c && c != '\x7f') || c == '\t'
}

/// Whether `s` can be sent as a header value.
pub open spec fn is_header_value(s: Seq<char>) -> bool {
    forall|i: int| 0 <= i < s.len() ==> is_header_char(#[trigger] s[i])
}

/// Whether `value` can be sent as a header value. Calls
/// `HeaderValue::from_str` of the `http` crate as axum re-exports it, which
/// refuses a string exactly when one of its bytes is below 32 and no tab, or
/// is 127. Bytes of 128 and above pass, and those are the bytes that encode
/// the characters beyond ASCII, so the rule reads the same on characters.
#[verifier::external_body]
pub(crate) fn header_value(value: &str) -> (ok: bool)
    ensures
        ok == is_header_value(value@),
{
    axum::http::HeaderValue::from_str(value).is_ok()
}

} // verus!
