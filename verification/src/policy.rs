//! Storage-key derivation and the serve-or-redirect policy.
//!
//! The storage key namespaces a normalized path under the tenant. The
//! policy looks at the normalized path's file extension: markup and script
//! content is served through the proxy, everything else is redirected to
//! the public asset host.

use vstd::prelude::*;
use vstd::string::StrSliceExecFns;
use vstd::string::StringExecFns;
use crate::text::eq_str;

verus! {

/// Whether some character of the sequence is `c`.
pub open spec fn has_char(s: Seq<char>, c: char) -> bool {
    exists|i: int| 0 <= i < s.len() && s[i] == c
}

/// The file extension of a path: the characters after the last `.`,
/// empty when the path holds no `.` at all.
pub open spec fn spec_extension_of(p: Seq<char>) -> Seq<char>
    decreases p.len(),
{
    if !has_char(p, '.') {
        Seq::<char>::empty()
    } else if p[p.len() - 1] == '.' {
        Seq::<char>::empty()
    } else {
        spec_extension_of(p.drop_last()).push(p[p.len() - 1])
    }
}

proof fn lemma_extension_no_dot(p: Seq<char>)
    requires
        forall|j: int| 0 <= j < p.len() ==> p[j] != '.',
    ensures
        spec_extension_of(p) == Seq::<char>::empty(),
{
    assert(!has_char(p, '.'));
}

proof fn lemma_extension_after_dot(p: Seq<char>, i: int)
    requires
        0 <= i < p.len(),
        p[i] == '.',
        forall|j: int| i < j < p.len() ==> p[j] != '.',
    ensures
        spec_extension_of(p) == p.subrange(i + 1, p.len() as int),
    decreases p.len(),
{
    assert(has_char(p, '.'));
    if i == p.len() - 1 {
        assert(spec_extension_of(p) =~= p.subrange(i + 1, p.len() as int));
    } else {
        let front = p.drop_last();
        assert(front[i] == '.');
        lemma_extension_after_dot(front, i);
        assert(spec_extension_of(front).push(p[p.len() - 1])
            =~= p.subrange(i + 1, p.len() as int));
    }
}

/// Computes the file extension of a normalized path.
pub fn extension_of(p: &str) -> (e: String)
    ensures
        e@ == spec_extension_of(p@),
{
    let n = p.unicode_len();
    let mut i: usize = n;
    while i > 0
        invariant
            0 <= i <= n,
            n == p@.len(),
            forall|j: int| i <= j < n ==> p@[j] != '.',
        decreases i,
    {
        if p.get_char(i - 1) == '.' {
            proof {
                lemma_extension_after_dot(p@, i - 1);
            }
            return String::from_str(p.substring_char(i, n));
        }
        i = i - 1;
    }
    proof {
        lemma_extension_no_dot(p@);
    }
    String::new()
}

/// Whether an extension is one the proxy serves directly.
pub open spec fn spec_servable_ext(e: Seq<char>) -> bool {
    e == "html"@ || e == "htm"@ || e == "js"@ || e == "json"@
}

/// Whether an extension marks an HTML page, the only content whose views
/// are recorded.
pub open spec fn spec_page_ext(e: Seq<char>) -> bool {
    e == "html"@ || e == "htm"@
}

/// Whether a normalized path is served through the proxy or redirected to
/// the public asset host.
#[derive(Clone, Copy, Debug, PartialEq, Eq, Structural)]
pub enum ContentPolicy {
    Servable,
    RedirectOnly,
}

/// The policy of a normalized path: servable exactly when its extension
/// is one of `html`, `htm`, `js`, `json`.
pub open spec fn spec_policy_of(p: Seq<char>) -> ContentPolicy {
    if spec_servable_ext(spec_extension_of(p)) {
        ContentPolicy::Servable
    } else {
        ContentPolicy::RedirectOnly
    }
}

/// Classifies a normalized path as servable or redirect-only.
pub fn policy_of(p: &str) -> (c: ContentPolicy)
    ensures
        c == spec_policy_of(p@),
{
    let e = extension_of(p);
    if eq_str(e.as_str(), "html") || eq_str(e.as_str(), "htm") || eq_str(e.as_str(), "js")
        || eq_str(e.as_str(), "json") {
        ContentPolicy::Servable
    } else {
        ContentPolicy::RedirectOnly
    }
}

/// Whether a normalized path is an HTML page.
pub fn is_page(p: &str) -> (b: bool)
    ensures
        b == spec_page_ext(spec_extension_of(p@)),
{
    let e = extension_of(p);
    eq_str(e.as_str(), "html") || eq_str(e.as_str(), "htm")
}

/// The storage key of a normalized path under a tenant: the path itself
/// when the tenant is empty, else `{tenant}/{path}`.
pub open spec fn spec_key_of(tenant: Seq<char>, p: Seq<char>) -> Seq<char> {
    if tenant.len() == 0 {
        p
    } else {
        tenant + "/"@ + p
    }
}

/// Derives the storage key addressing an object in the shared bucket.
pub fn storage_key(tenant: &str, p: &str) -> (k: String)
    ensures
        k@ == spec_key_of(tenant@, p@),
{
    if tenant.is_empty() {
        p.to_owned()
    } else {
        tenant.to_owned().concat("/").concat(p)
    }
}

/// The fixed base URL of the public asset host that redirect-only content
/// is sent to.
pub open spec fn spec_asset_base() -> Seq<char> {
    "https://r2.naru.pub/"@
}

/// The redirect target of a redirect-only path:
/// `{asset base}{tenant}/{path}`. A request without a subdomain leaves
/// the tenant segment empty, so its URL carries a double slash; that
/// looks like an artifact, but it is kept, as the asset host resolves
/// such keys.
pub open spec fn spec_redirect_url_of(tenant: Seq<char>, p: Seq<char>) -> Seq<char> {
    spec_asset_base() + tenant + "/"@ + p
}

/// Builds the redirect target on the public asset host.
pub fn redirect_url(tenant: &str, p: &str) -> (u: String)
    ensures
        u@ == spec_redirect_url_of(tenant@, p@),
{
    let u = String::from_str("https://r2.naru.pub/").concat(tenant).concat("/").concat(p);
    proof {
        assert(u@ =~= spec_redirect_url_of(tenant@, p@));
    }
    u
}

} // verus!
