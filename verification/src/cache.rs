//! The cache store's logic: deriving a stable local file name from a remote
//! URL, and the resolve decision over a model of the cache directory's
//! contents. A file already present under the derived name is a strict cache
//! hit: no download and no overwrite. The directory probing, writing and
//! deleting themselves are filesystem work done by the unverified driver.

use vstd::prelude::*;
use vstd::string::*;

verus! {

/// The suffix of `url` after its last `/`; the whole string when it holds
/// no `/`; empty when `url` ends in `/`.
pub open spec fn last_segment(url: Seq<char>) -> Seq<char>
    decreases url.len(),
{
    if url.len() == 0 {
        Seq::empty()
    } else if url[url.len() - 1] == '/' {
        Seq::empty()
    } else {
        last_segment(url.drop_last()).push(url[url.len() - 1])
    }
}

/// The local file name derived from a remote URL: its final path segment,
/// or the fixed fallback name when that segment is empty.
pub open spec fn file_name_spec(url: Seq<char>) -> Seq<char> {
    if last_segment(url).len() == 0 {
        "wallpaper"@
    } else {
        last_segment(url)
    }
}

/// When nothing from position `k` on is a `/`, and `k` is either the start
/// of the string or just after a `/`, the last segment is exactly the
/// suffix from `k`.
proof fn lemma_last_segment_after_slash(s: Seq<char>, k: int)
    requires
        0 <= k <= s.len(),
        forall|j: int| k <= j < s.len() ==> s[j] != '/',
        k == 0 || s[k - 1] == '/',
    ensures
        last_segment(s) == s.subrange(k, s.len() as int),
    decreases s.len(),
{
    if s.len() == k {
        assert(last_segment(s) =~= s.subrange(k, s.len() as int));
    } else {
        let s2 = s.drop_last();
        assert(forall|j: int| k <= j < s2.len() ==> s2[j] == s[j]);
        lemma_last_segment_after_slash(s2, k);
        assert(last_segment(s) =~= s.subrange(k, s.len() as int));
    }
}

/// Derives the cache file name for a remote URL: the final path segment,
/// or `"wallpaper"` when the URL ends in `/`.
pub fn derive_file_name(url: &str) -> (r: String)
    ensures
        r@ == file_name_spec(url@),
{
    let n: usize = url.unicode_len();
    let mut i: usize = n;
    while i > 0 && url.get_char(i - 1) != '/'
        invariant
            i <= n,
            n == url@.len(),
            forall|j: int| i <= j < n ==> url@[j] != '/',
        decreases i,
    {
        i = i - 1;
    }
    proof {
        lemma_last_segment_after_slash(url@, i as int);
    }
    let seg = url.substring_char(i, n);
    if seg.unicode_len() == 0 {
        let r = String::from_str("wallpaper");
        r
    } else {
        String::from_str(seg)
    }
}

/// The resolve decision over the cache directory's contents, modelled as
/// the set of file names it holds: a download happens exactly when the
/// derived name is not yet present.
pub open spec fn resolve_downloads(cache: Set<Seq<char>>, url: Seq<char>) -> bool {
    !cache.contains(file_name_spec(url))
}

/// The cache contents after a resolve of `url`: whether it was a hit or a
/// fresh download, the derived name is present afterwards.
pub open spec fn cache_after_resolve(cache: Set<Seq<char>>, url: Seq<char>) -> Set<Seq<char>> {
    cache.insert(file_name_spec(url))
}

/// Cache idempotence: resolving the same URL twice against an otherwise
/// untouched cache downloads at most once — after the first resolve has
/// stored the file, the second resolve of that URL is a hit, and both
/// resolves use the same derived file name.
pub proof fn lemma_resolve_idempotent(cache: Set<Seq<char>>, url: Seq<char>)
    ensures
        !resolve_downloads(cache_after_resolve(cache, url), url),
        cache_after_resolve(cache_after_resolve(cache, url), url) == cache_after_resolve(
            cache,
            url,
        ),
{
    assert(cache_after_resolve(cache_after_resolve(cache, url), url) =~= cache_after_resolve(
        cache,
        url,
    ));
}

/// Emptying the cache removes every entry: a later resolve of any URL,
/// previously cached or not, is a fresh download.
pub proof fn lemma_empty_cache_redownloads(url: Seq<char>)
    ensures
        resolve_downloads(Set::empty(), url),
{
}

} // verus!
