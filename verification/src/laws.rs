//! General properties of the routing logic, stated and proved once for
//! all inputs.

use vstd::prelude::*;
use crate::handler::spec_pageview_path;
use crate::handler::spec_request_policy;
use crate::handler::spec_storage_key;
use crate::paths::spec_normalized_of;

verus! {

/// Routing is a pure, deterministic function: the same host and raw path
/// always yield the same storage key, the same policy and the same
/// pageview path.
pub proof fn lemma_routing_deterministic(
    host1: Seq<char>,
    raw1: Seq<char>,
    host2: Seq<char>,
    raw2: Seq<char>,
)
    requires
        host1 == host2,
        raw1 == raw2,
    ensures
        spec_storage_key(host1, raw1) == spec_storage_key(host2, raw2),
        spec_request_policy(raw1) == spec_request_policy(raw2),
        spec_pageview_path(raw1) == spec_pageview_path(raw2),
{
}

/// The root path and `/index.html` round-trip to the same place: under
/// any host they yield the same storage key, and both log the pageview
/// path `/`.
pub proof fn lemma_root_equals_index(host: Seq<char>)
    ensures
        spec_storage_key(host, "/"@) == spec_storage_key(host, "/index.html"@),
        spec_pageview_path("/"@) == "/"@,
        spec_pageview_path("/index.html"@) == "/"@,
{
    reveal_strlit("/");
    reveal_strlit("/index.html");
    reveal_strlit("index.html");
    let root = "/"@;
    let slash_index = "/index.html"@;
    let index = "index.html"@;
    assert(root.subrange(1, 1) =~= Seq::<char>::empty());
    assert(slash_index.subrange(1, 11) =~= index);
    assert forall|i: int| 0 <= i < index.len() implies index[i] != '%' by {
        if i == 0 {
        } else if i == 1 {
        } else if i == 2 {
        } else if i == 3 {
        } else if i == 4 {
        } else if i == 5 {
        } else if i == 6 {
        } else if i == 7 {
        } else if i == 8 {
        } else {
            assert(i == 9);
        }
    }
    assert(spec_normalized_of(Seq::<char>::empty()) == index);
    assert(spec_normalized_of(index) == index);
    assert(index.subrange(0, 0) =~= Seq::<char>::empty());
    assert(index.subrange(index.len() - 10, index.len() as int) =~= index);
    assert(spec_pageview_path("/"@) =~= "/"@);
    assert(spec_pageview_path(slash_index) =~= "/"@);
}

/// A normalized path is never empty: even the empty decoded path maps to
/// `index.html`.
pub proof fn lemma_normalized_nonempty(d: Seq<char>)
    ensures
        spec_normalized_of(d).len() > 0,
{
    reveal_strlit("index.html");
}

/// Normalizing introduces no leading slash: the normalized path begins
/// with `/` only when the decoded path itself does (one leading slash of
/// the raw path having been stripped before decoding).
pub proof fn lemma_normalized_keeps_first_char(d: Seq<char>)
    requires
        d.len() == 0 || d[0] != '/',
    ensures
        spec_normalized_of(d)[0] != '/',
{
    reveal_strlit("index.html");
}

/// Normalizing is idempotent: normalizing an already-normalized path
/// yields it unchanged.
pub proof fn lemma_normalize_idempotent(d: Seq<char>)
    ensures
        spec_normalized_of(spec_normalized_of(d)) == spec_normalized_of(d),
{
    reveal_strlit("index.html");
    let index = "index.html"@;
    if d.len() == 0 || d == index {
        assert(spec_normalized_of(d) == index);
        assert(spec_normalized_of(index) == index);
    } else if d[d.len() - 1] == '/' {
        let e = d + index;
        assert(e.len() == d.len() + 10);
        assert(e != index);
        assert(e[e.len() - 1] == 'l');
        assert(spec_normalized_of(e) == e);
    } else {
        assert(spec_normalized_of(d) == d);
    }
}

} // verus!
