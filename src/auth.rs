//! Reading a caller's credentials: the bearer token, the API key's parts,
//! the organization and project headers, and the role check.

use vstd::prelude::*;
use vstd::string::*;
use crate::error::{ApiError, ErrorKind, error_of};

verus! {

/// Relies on `str::strip_prefix`: the rest of `s` when it starts with `prefix`.
#[verifier::external_body]
fn strip_prefix<'a>(s: &'a str, prefix: &str) -> (r: Option<&'a str>)
    ensures
        r is Some <==> prefix@.is_prefix_of(s@),
        r matches Some(t) ==> t@ == s@.skip(prefix@.len() as int),
{
    s.strip_prefix(prefix)
}

/// Relies on `str::split_once`: the parts before and after the first `sep`.
#[verifier::external_body]
fn split_once<'a>(s: &'a str, sep: char) -> (r: Option<(&'a str, &'a str)>)
    ensures
        r is Some <==> s@.contains(sep),
        r matches Some((a, b)) ==> !a@.contains(sep) && s@ == a@ + seq![sep] + b@,
{
    s.split_once(sep)
}

/// The text after `prefix` when it starts with it, else the text itself.
pub open spec fn without_prefix(s: Seq<char>, prefix: Seq<char>) -> Seq<char> {
    if prefix.is_prefix_of(s) {
        s.skip(prefix.len() as int)
    } else {
        s
    }
}

fn strip_or_keep<'a>(s: &'a str, prefix: &str) -> (r: &'a str)
    ensures
        r@ == without_prefix(s@, prefix@),
{
    match strip_prefix(s, prefix) {
        Some(t) => t,
        None => s,
    }
}

/// The token of an `Authorization` header, which must start with `Bearer `.
pub fn bearer_token(header: &str) -> (r: Option<String>)
    ensures
        r is Some <==> "Bearer "@.is_prefix_of(header@),
        r matches Some(t) ==> t@ == header@.skip(7),
{
    proof {
        reveal_strlit("Bearer ");
    }
    match strip_prefix(header, "Bearer ") {
        Some(t) => Some(t.to_owned()),
        None => None,
    }
}

/// An organization or project id from its header, without the optional
/// label prefix (`org-` or `proj-`).
pub fn scoped_uid(value: &str, label: &str) -> (r: String)
    ensures
        r@ == without_prefix(value@, label@),
{
    strip_or_keep(value, label).to_owned()
}

/// The three parts of an API key: wallet address, nonce and signature.
#[derive(Debug)]
pub struct ParsedApiKey {
    pub address: String,
    pub nonce: String,
    pub signature: String,
}

/// Whether a text holds no dot.
pub open spec fn dot_free(s: Seq<char>) -> bool {
    !s.contains('.')
}

/// Whether `s` is made of three dot-free parts `a`, `b`, `c` joined by dots.
pub open spec fn three_parts(s: Seq<char>, a: Seq<char>, b: Seq<char>, c: Seq<char>) -> bool {
    &&& s == a + seq!['.'] + b + seq!['.'] + c
    &&& dot_free(a)
    &&& dot_free(b)
    &&& dot_free(c)
}

/// The body of an API key: the key without its optional `sk-` prefix.
pub open spec fn key_body(api_key: Seq<char>) -> Seq<char> {
    without_prefix(api_key, "sk-"@)
}

proof fn lemma_first_dot_unique(s: Seq<char>, a: Seq<char>, x: Seq<char>, p: Seq<char>, r: Seq<char>)
    requires
        s == a + seq!['.'] + x,
        s == p + seq!['.'] + r,
        dot_free(a),
        dot_free(p),
    ensures
        a == p,
        x == r,
{
    if a.len() < p.len() {
        assert(p[a.len() as int] == s[a.len() as int]);
        assert(p.contains('.'));
    } else if p.len() < a.len() {
        assert(a[p.len() as int] == s[p.len() as int]);
        assert(a.contains('.'));
    }
    assert(a =~= s.take(a.len() as int));
    assert(p =~= s.take(p.len() as int));
    assert(x =~= s.skip(a.len() as int + 1));
    assert(r =~= s.skip(p.len() as int + 1));
}

proof fn lemma_joined_has_dot(a: Seq<char>, x: Seq<char>)
    ensures
        (a + seq!['.'] + x).contains('.'),
{
    assert((a + seq!['.'] + x)[a.len() as int] == '.');
}

/// Splits an API key of the form `[sk-]A.N.S` into `0xA`, `N` and `0xS`.
pub fn parse_api_key(api_key: &str) -> (r: Result<ParsedApiKey, ApiError>)
    ensures
        match r {
            Ok(k) => exists|a: Seq<char>, b: Seq<char>, c: Seq<char>|
                {
                    &&& three_parts(key_body(api_key@), a, b, c)
                    &&& k.address@ == seq!['0', 'x'] + a
                    &&& k.nonce@ == b
                    &&& k.signature@ == seq!['0', 'x'] + c
                },
            Err(e) => e@ == error_of(
                ErrorKind::Unauthorized,
                "Unauthorized"@,
            ) && forall|a: Seq<char>, b: Seq<char>, c: Seq<char>|
                !three_parts(key_body(api_key@), a, b, c),
        },
{
    let body = strip_or_keep(api_key, "sk-");
    let (a, rest) = match split_once(body, '.') {
        Some(p) => p,
        None => {
            assert forall|a: Seq<char>, b: Seq<char>, c: Seq<char>|
                !three_parts(key_body(api_key@), a, b, c) by {
                lemma_joined_has_dot(a, b + seq!['.'] + c);
                assert(a + seq!['.'] + b + seq!['.'] + c =~= a + seq!['.'] + (b + seq!['.'] + c));
            }
            return Err(ApiError::Unauthorized);
        },
    };
    let (b, c) = match split_once(rest, '.') {
        Some(p) => p,
        None => {
            assert forall|x: Seq<char>, y: Seq<char>, z: Seq<char>|
                !three_parts(key_body(api_key@), x, y, z) by {
                if three_parts(key_body(api_key@), x, y, z) {
                    assert(x + seq!['.'] + y + seq!['.'] + z =~= x + seq!['.'] + (y + seq!['.']
                        + z));
                    lemma_first_dot_unique(body@, x, y + seq!['.'] + z, a@, rest@);
                    lemma_joined_has_dot(y, z);
                }
            }
            return Err(ApiError::Unauthorized);
        },
    };
    if split_once(c, '.').is_some() {
        assert forall|x: Seq<char>, y: Seq<char>, z: Seq<char>|
            !three_parts(key_body(api_key@), x, y, z) by {
            if three_parts(key_body(api_key@), x, y, z) {
                assert(x + seq!['.'] + y + seq!['.'] + z =~= x + seq!['.'] + (y + seq!['.'] + z));
                lemma_first_dot_unique(body@, x, y + seq!['.'] + z, a@, rest@);
                lemma_first_dot_unique(rest@, y, z, b@, c@);
            }
        }
        return Err(ApiError::Unauthorized);
    }
    let mut address = "0x".to_owned();
    address.append(a);
    let mut signature = "0x".to_owned();
    signature.append(c);
    proof {
        reveal_strlit("0x");
        assert(body@ =~= a@ + seq!['.'] + b@ + seq!['.'] + c@);
        assert(three_parts(key_body(api_key@), a@, b@, c@));
    }
    Ok(ParsedApiKey { address, nonce: b.to_owned(), signature })
}

/// Whether an organization role allows calls: owners and admins.
pub open spec fn org_role_allows(role: Option<Seq<char>>) -> bool {
    role == Some("owner"@) || role == Some("admin"@)
}

/// Whether a project role allows calls: admins and developers.
pub open spec fn project_role_allows(role: Option<Seq<char>>) -> bool {
    role == Some("admin"@) || role == Some("developer"@)
}

/// The characters of an optional text.
pub open spec fn opt_text(r: Option<&str>) -> Option<Seq<char>> {
    match r {
        Some(t) => Some(t@),
        None => None,
    }
}

/// Whether a caller with these roles may call on the project's behalf.
pub fn caller_allowed(org_role: Option<&str>, project_role: Option<&str>) -> (r: bool)
    ensures
        r == (org_role_allows(opt_text(org_role)) || project_role_allows(opt_text(project_role))),
{
    let org_ok = match org_role {
        Some(role) => role.eq("owner") || role.eq("admin"),
        None => false,
    };
    let project_ok = match project_role {
        Some(role) => role.eq("admin") || role.eq("developer"),
        None => false,
    };
    org_ok || project_ok
}

} // verus!
