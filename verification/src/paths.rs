//! Tenant resolution and path normalization.
//!
//! A request's host header yields a tenant (its leftmost dot-separated
//! label), and its raw URL path yields a normalized storage path (leading
//! slash stripped, percent-decoded, directory requests mapped to
//! `index.html`) together with a display path for pageview records.

use vstd::prelude::*;
use vstd::string::StrSliceExecFns;
use vstd::string::StringExecFns;
use crate::text::eq_str;
use crate::text::prefix_before;
use crate::text::spec_prefix_before;

verus! {

/// The leftmost label of a host: every character before the first `.`,
/// or the whole host when it has no `.`.
pub open spec fn spec_tenant_of(host: Seq<char>) -> Seq<char> {
    spec_prefix_before(host, '.')
}

/// Extracts the tenant from the host header: the label before the first
/// `.`, possibly empty, with no validation against any registry.
pub fn tenant_of(host: &str) -> (t: String)
    ensures
        t@ == spec_tenant_of(host@),
{
    prefix_before(host, '.')
}

/// Holds when no character of the sequence is a `%`, so that
/// percent-decoding passes every character through unchanged.
pub open spec fn no_percent(s: Seq<char>) -> bool {
    forall|i: int| 0 <= i < s.len() ==> s[i] != '%'
}

/// The text that percent-decoding yields for an input that holds at least
/// one `%`: `Some` decoded text, or `None` when the decoded bytes are not
/// well-formed UTF-8. Left unspecified; it stands for whatever the decoder
/// returns, which depends on the input characters alone.
pub uninterp spec fn escaped_decoded(s: Seq<char>) -> Option<Seq<char>>;

/// What percent-decoding an entire path yields: an input without `%` is
/// passed through unchanged; any other input decodes to `escaped_decoded`
/// of it.
pub open spec fn spec_percent_decoded(s: Seq<char>) -> Option<Seq<char>> {
    if no_percent(s) {
        Some(s)
    } else {
        escaped_decoded(s)
    }
}

/// Relies on `percent_encoding::percent_decode_str` and its
/// `decode_utf8`: each `%XY` triple with two hex digits becomes the byte
/// `XY`, every other byte passes through unchanged, and the decoded bytes
/// are validated as UTF-8. The result is a function of the input
/// characters alone; an input without `%` comes back unchanged.
#[verifier::external_body]
fn percent_decode_path(s: &str) -> (r: Option<String>)
    ensures
        match r {
            Some(t) => if no_percent(s@) {
                t@ == s@
            } else {
                escaped_decoded(s@) == Some(t@)
            },
            None => !no_percent(s@) && escaped_decoded(s@) is None,
        },
{
    match percent_encoding::percent_decode_str(s).decode_utf8() {
        Ok(decoded) => Some(decoded.into_owned()),
        Err(_) => None,
    }
}

/// The raw path with a single leading `/` stripped.
pub open spec fn spec_stripped(raw: Seq<char>) -> Seq<char> {
    if raw.len() > 0 && raw[0] == '/' {
        raw.subrange(1, raw.len() as int)
    } else {
        raw
    }
}

/// The decoded form of a raw path: one leading `/` stripped, then
/// percent-decoded; a path whose decoding fails is treated as empty.
pub open spec fn spec_decoded_path(raw: Seq<char>) -> Seq<char> {
    match spec_percent_decoded(spec_stripped(raw)) {
        Some(d) => d,
        None => Seq::<char>::empty(),
    }
}

/// Strips one leading `/` from the raw path, then percent-decodes it.
/// A decoding failure never aborts a request: it yields the empty path.
pub fn decoded_path(raw: &str) -> (d: String)
    ensures
        d@ == spec_decoded_path(raw@),
{
    let n = raw.unicode_len();
    let stripped: &str = if n > 0 && raw.get_char(0) == '/' {
        raw.substring_char(1, n)
    } else {
        raw
    };
    match percent_decode_path(stripped) {
        Some(d) => d,
        None => String::new(),
    }
}

/// The normalized storage path of a decoded path: empty paths and
/// `index.html` itself map to `index.html`, directory paths (ending in
/// `/`) gain an `index.html` suffix, and every other path is unchanged.
pub open spec fn spec_normalized_of(d: Seq<char>) -> Seq<char> {
    if d.len() == 0 || d == "index.html"@ {
        "index.html"@
    } else if d[d.len() - 1] == '/' {
        d + "index.html"@
    } else {
        d
    }
}

/// Normalizes a decoded path for storage lookup.
pub fn normalized_of(d: &str) -> (p: String)
    ensures
        p@ == spec_normalized_of(d@),
{
    let n = d.unicode_len();
    if n == 0 || eq_str(d, "index.html") {
        return String::from_str("index.html");
    }
    if d.get_char(n - 1) == '/' {
        return d.to_owned().concat("index.html");
    }
    d.to_owned()
}

/// The decoded path with one trailing `index.html` suffix removed.
pub open spec fn spec_strip_index_suffix(d: Seq<char>) -> Seq<char> {
    if d.len() >= 10 && d.subrange(d.len() - 10, d.len() as int) == "index.html"@ {
        d.subrange(0, d.len() - 10)
    } else {
        d
    }
}

/// The sequence with every trailing `/` removed.
pub open spec fn spec_strip_trailing_slashes(d: Seq<char>) -> Seq<char>
    decreases d.len(),
{
    if d.len() > 0 && d[d.len() - 1] == '/' {
        spec_strip_trailing_slashes(d.drop_last())
    } else {
        d
    }
}

/// The display path logged for a pageview: `/` for the empty decoded
/// path; otherwise the decoded path with one trailing `index.html` and
/// all trailing slashes stripped, prefixed with `/`.
pub open spec fn spec_pageview_of(d: Seq<char>) -> Seq<char> {
    if d.len() == 0 {
        "/"@
    } else {
        "/"@ + spec_strip_trailing_slashes(spec_strip_index_suffix(d))
    }
}

/// Derives the pageview display path from a decoded path.
pub fn pageview_of(d: &str) -> (pv: String)
    ensures
        pv@ == spec_pageview_of(d@),
{
    let n = d.unicode_len();
    if n == 0 {
        return String::from_str("/");
    }
    let mut end: usize = n;
    if n >= 10 && eq_str(d.substring_char(n - 10, n), "index.html") {
        end = n - 10;
    }
    proof {
        assert(d@.subrange(0, end as int) == spec_strip_index_suffix(d@));
    }
    while end > 0 && d.get_char(end - 1) == '/'
        invariant
            0 <= end <= n,
            n == d@.len(),
            spec_strip_trailing_slashes(d@.subrange(0, end as int))
                == spec_strip_trailing_slashes(spec_strip_index_suffix(d@)),
        decreases end,
    {
        proof {
            let cur = d@.subrange(0, end as int);
            assert(cur.drop_last() =~= d@.subrange(0, end - 1));
        }
        end = end - 1;
    }
    proof {
        let cur = d@.subrange(0, end as int);
        assert(spec_strip_trailing_slashes(cur) == cur);
    }
    String::from_str("/").concat(d.substring_char(0, end))
}

} // verus!
