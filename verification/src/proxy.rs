//! The reverse proxy's request rewriting: which client headers are forwarded
//! and which identity headers are asserted for the authenticated user.

use vstd::prelude::*;
use vstd::string::*;
use crate::ident::{uuid_text, uuid_to_string};
use crate::models::User;
use crate::text::chars_of;

verus! {

/// ASCII lower-casing of one character.
pub open spec fn ascii_lower(c: char) -> char {
    if 'A' <= c && c <= 'Z' {
        ((c as u8) + 32) as char
    } else {
        c
    }
}

/// Whether `a` and `b` are equal ignoring ASCII case.
pub open spec fn eq_ignore_ascii_case(a: Seq<char>, b: Seq<char>) -> bool {
    a.len() == b.len() && forall|i: int| 0 <= i < a.len() ==> ascii_lower(#[trigger] a[i]) == ascii_lower(b[i])
}

/// Whether a header name is one the proxy asserts itself (`x-user-id`,
/// `x-user-email`, `x-user-name`, in any case).
pub open spec fn is_identity_header(name: Seq<char>) -> bool {
    eq_ignore_ascii_case(name, "x-user-id"@) || eq_ignore_ascii_case(name, "x-user-email"@)
        || eq_ignore_ascii_case(name, "x-user-name"@)
}

/// Whether a client header is passed on upstream: not `Host`, and not one of
/// the identity headers.
pub open spec fn forwarded(name: Seq<char>) -> bool {
    !eq_ignore_ascii_case(name, "host"@) && !is_identity_header(name)
}

fn lower_char(c: char) -> (l: char)
    ensures
        l == ascii_lower(c),
{
    if 'A' <= c && c <= 'Z' {
        ((c as u8) + 32) as char
    } else {
        c
    }
}

/// Compares `a` with `b` ignoring ASCII case.
pub fn equals_ignore_ascii_case(a: &str, b: &str) -> (r: bool)
    ensures
        r == eq_ignore_ascii_case(a@, b@),
{
    let va = chars_of(a);
    let vb = chars_of(b);
    if va.len() != vb.len() {
        return false;
    }
    let mut i: usize = 0;
    while i < va.len()
        invariant
            va@ == a@,
            vb@ == b@,
            va@.len() == vb@.len(),
            i <= va@.len(),
            forall|k: int| 0 <= k < i ==> ascii_lower(#[trigger] a@[k]) == ascii_lower(b@[k]),
        decreases va@.len() - i,
    {
        if lower_char(va[i]) != lower_char(vb[i]) {
            return false;
        }
        i = i + 1;
    }
    true
}

/// Whether the client header `name` is passed on upstream.
pub fn is_forwarded(name: &str) -> (r: bool)
    ensures
        r == forwarded(name@),
        r == !(eq_ignore_ascii_case(name@, "host"@) || eq_ignore_ascii_case(name@, "x-user-id"@)
            || eq_ignore_ascii_case(name@, "x-user-email"@) || eq_ignore_ascii_case(
            name@,
            "x-user-name"@,
        )),
{
    let host = "host";
    let id = "x-user-id";
    let email = "x-user-email";
    let uname = "x-user-name";
    !equals_ignore_ascii_case(name, host) && !equals_ignore_ascii_case(name, id)
        && !equals_ignore_ascii_case(name, email) && !equals_ignore_ascii_case(name, uname)
}

/// The client headers passed on upstream, in their original order: every
/// header but `Host` and the identity headers.
pub open spec fn forwarded_headers<V>(headers: Seq<(String, V)>) -> Seq<(String, V)> {
    headers.filter(|h: (String, V)| forwarded(h.0@))
}

/// Filters the client's headers for the upstream request.
pub fn forward_headers<V>(headers: Vec<(String, V)>) -> (out: Vec<(String, V)>)
    ensures
        out@ == forwarded_headers(headers@),
{
    let mut out: Vec<(String, V)> = Vec::new();
    let ghost all = headers@;
    let mut rest = headers;
    let mut taken: Vec<(String, V)> = Vec::new();
    // Take the headers in order by reversing once, then popping.
    while rest.len() > 0
        invariant
            taken@.len() + rest@.len() == all.len(),
            rest@ == all.take(rest@.len() as int),
            forall|k: int| 0 <= k < taken@.len() ==> taken@[k] == all[all.len() - 1 - k],
        decreases rest@.len(),
    {
        let h = rest.pop().unwrap();
        taken.push(h);
    }
    let ghost n = all.len();
    while taken.len() > 0
        invariant
            0 <= taken@.len() <= n,
            n == all.len(),
            forall|k: int| 0 <= k < taken@.len() ==> taken@[k] == all[n - 1 - k],
            out@ == forwarded_headers(all.take(n - taken@.len())),
        decreases taken@.len(),
    {
        let ghost before = all.take(n - taken@.len());
        let h = taken.pop().unwrap();
        let ghost after = all.take(n - taken@.len());
        assert(after.drop_last() =~= before);
        assert(after.last() == h);
        reveal(Seq::filter);
        if is_forwarded(h.0.as_str()) {
            out.push(h);
        }
    }
    assert(all.take(n as int) =~= all);
    out
}

/// The identity headers asserted for `user`, in the order they are set.
pub fn identity_headers(user: &User) -> (h: Vec<(String, String)>)
    ensures
        h@.len() == 3,
        h@[0].0@ == "X-User-Id"@ && h@[0].1@ == uuid_text(user.sub),
        h@[1].0@ == "X-User-Email"@ && h@[1].1@ == user.email@,
        h@[2].0@ == "X-User-Name"@ && h@[2].1@ == user.username@,
{
    let mut h: Vec<(String, String)> = Vec::new();
    h.push((String::from_str("X-User-Id"), uuid_to_string(user.sub)));
    h.push((String::from_str("X-User-Email"), user.email.clone()));
    h.push((String::from_str("X-User-Name"), user.username.clone()));
    h
}

/// No client-supplied identity header (in any case) and no `Host` header is
/// ever passed on upstream.
pub proof fn law_no_spoofed_identity<V>(headers: Seq<(String, V)>)
    ensures
        forall|i: int|
            0 <= i < forwarded_headers(headers).len() ==> !is_identity_header(
                #[trigger] forwarded_headers(headers)[i].0@,
            ) && !eq_ignore_ascii_case(forwarded_headers(headers)[i].0@, "host"@),
{
    let f = |h: (String, V)| forwarded(h.0@);
    assert forall|i: int| 0 <= i < headers.filter(f).len() implies f(
        #[trigger] headers.filter(f)[i],
    ) by {
        broadcast use vstd::seq_lib::group_filter_ensures;
    }
}

/// Only `Host` and the three identity headers are held back: a header is
/// forwarded exactly when its name is none of `host`, `x-user-id`,
/// `x-user-email`, `x-user-name` (in any case), and every client header so
/// named reaches upstream, with nothing added.
pub proof fn law_every_other_header_is_forwarded<V>(headers: Seq<(String, V)>)
    ensures
        forall|n: Seq<char>|
            #[trigger] forwarded(n) == !(eq_ignore_ascii_case(n, "host"@) || eq_ignore_ascii_case(
                n,
                "x-user-id"@,
            ) || eq_ignore_ascii_case(n, "x-user-email"@) || eq_ignore_ascii_case(n, "x-user-name"@)),
        forall|i: int|
            0 <= i < headers.len() && !eq_ignore_ascii_case(headers[i].0@, "host"@)
                && !eq_ignore_ascii_case(headers[i].0@, "x-user-id"@) && !eq_ignore_ascii_case(
                headers[i].0@,
                "x-user-email"@,
            ) && !eq_ignore_ascii_case(headers[i].0@, "x-user-name"@) ==> forwarded_headers(
                headers,
            ).contains(#[trigger] headers[i]),
        forall|h: (String, V)| #[trigger] forwarded_headers(headers).contains(h) ==> headers.contains(h),
{
    let f = |h: (String, V)| forwarded(h.0@);
    assert forall|i: int|
        0 <= i < headers.len() && !eq_ignore_ascii_case(headers[i].0@, "host"@)
            && !eq_ignore_ascii_case(headers[i].0@, "x-user-id"@) && !eq_ignore_ascii_case(
            headers[i].0@,
            "x-user-email"@,
        ) && !eq_ignore_ascii_case(headers[i].0@, "x-user-name"@) implies forwarded_headers(
        headers,
    ).contains(#[trigger] headers[i]) by {
        assert(f(headers[i]));
        headers.lemma_filter_contains(f, i);
    }
    assert forall|h: (String, V)| #[trigger] forwarded_headers(headers).contains(h) implies headers.contains(h) by {
        headers.lemma_filter_contains_rev(f, h);
    }
}

/// The upstream URL: the upstream base followed by the request's path and
/// query (or its path when there is no query part).
pub fn upstream_url(upstream: &str, path_and_query: Option<&str>, path: &str) -> (url: String)
    ensures
        url@ == upstream@ + match path_and_query {
            Some(pq) => pq@,
            None => path@,
        },
{
    let uri = match path_and_query {
        Some(pq) => pq,
        None => path,
    };
    String::from_str(upstream).concat(uri)
}

} // verus!
