//! Static asset path resolution.
//!
//! The rule the asset server follows: strip the leading slashes from the
//! request path, and serve the index page when nothing is left.

use vstd::prelude::*;
use vstd::string::StrSliceExecFns;

verus! {

/// The request path with its leading slashes removed.
pub open spec fn spec_trim_slashes(s: Seq<char>) -> Seq<char>
    decreases s.len(),
{
    if s.len() > 0 && s[0] == '/' {
        spec_trim_slashes(s.drop_first())
    } else {
        s
    }
}

/// The asset key of a request path: the path without its leading slashes,
/// or the index page when that is empty.
pub open spec fn spec_asset_key(s: Seq<char>) -> Seq<char> {
    if spec_trim_slashes(s).len() == 0 {
        "index.html"@
    } else {
        spec_trim_slashes(s)
    }
}

proof fn lemma_trim_slashes(s: Seq<char>, k: int)
    requires
        0 <= k <= s.len(),
        forall|j: int| 0 <= j < k ==> s[j] == '/',
        k == s.len() || s[k] != '/',
    ensures
        spec_trim_slashes(s) == s.subrange(k, s.len() as int),
    decreases k,
{
    if k == 0 {
        assert(s.subrange(0, s.len() as int) =~= s);
    } else {
        let t = s.drop_first();
        assert(s[0] == '/');
        lemma_trim_slashes(t, k - 1);
        assert(t.subrange(k - 1, t.len() as int) =~= s.subrange(k, s.len() as int));
    }
}

/// Resolves a request path to the asset key to serve: the path without its
/// leading slashes, or the index page when nothing is left.
pub fn asset_key<'a>(path: &'a str) -> (r: &'a str)
    ensures
        r@ == spec_asset_key(path@),
{
    let n = path.unicode_len();
    let mut k: usize = 0;
    while k < n && path.get_char(k) == '/'
        invariant
            0 <= k <= n,
            n == path@.len(),
            forall|j: int| 0 <= j < k ==> path@[j] == '/',
        decreases n - k,
    {
        k += 1;
    }
    proof {
        lemma_trim_slashes(path@, k as int);
    }
    let rest = path.substring_char(k, n);
    if rest.is_empty() {
        "index.html"
    } else {
        rest
    }
}

} // verus!
