//! Building search queries against the remote wallpaper API: one base query
//! per wallpaper-change operation, derived from a randomly chosen collection
//! tag and the configured content filters, and page-scoped queries appended
//! to that same base.

use vstd::prelude::*;
use vstd::string::*;
use crate::config::Config;
use crate::rng::random_in_range;

verus! {

/// The character of a single decimal digit.
pub open spec fn dec_digit(d: nat) -> char
    recommends
        d < 10,
{
    if d == 0 {
        '0'
    } else if d == 1 {
        '1'
    } else if d == 2 {
        '2'
    } else if d == 3 {
        '3'
    } else if d == 4 {
        '4'
    } else if d == 5 {
        '5'
    } else if d == 6 {
        '6'
    } else if d == 7 {
        '7'
    } else if d == 8 {
        '8'
    } else {
        '9'
    }
}

/// The decimal rendering of a natural number, most significant digit first.
pub open spec fn dec_str(n: nat) -> Seq<char>
    decreases n,
{
    if n < 10 {
        seq![dec_digit(n)]
    } else {
        dec_str(n / 10) + seq![dec_digit(n % 10)]
    }
}

/// Renders one decimal digit.
fn digit_str(d: u64) -> (r: &'static str)
    requires
        d < 10,
    ensures
        r@ == seq![dec_digit(d as nat)],
{
    proof {
        reveal_strlit("0");
        reveal_strlit("1");
        reveal_strlit("2");
        reveal_strlit("3");
        reveal_strlit("4");
        reveal_strlit("5");
        reveal_strlit("6");
        reveal_strlit("7");
        reveal_strlit("8");
        reveal_strlit("9");
    }
    let s: &'static str = if d == 0 {
        "0"
    } else if d == 1 {
        "1"
    } else if d == 2 {
        "2"
    } else if d == 3 {
        "3"
    } else if d == 4 {
        "4"
    } else if d == 5 {
        "5"
    } else if d == 6 {
        "6"
    } else if d == 7 {
        "7"
    } else if d == 8 {
        "8"
    } else {
        "9"
    };
    proof {
        assert(s@ =~= seq![dec_digit(d as nat)]);
    }
    s
}

/// Renders a number in decimal, as the page parameter of a query needs it.
pub fn u64_to_string(n: u64) -> (s: String)
    ensures
        s@ == dec_str(n as nat),
    decreases n,
{
    if n < 10 {
        let mut s = String::new();
        s.append(digit_str(n));
        proof {
            assert(s@ =~= dec_str(n as nat));
        }
        s
    } else {
        let mut s = u64_to_string(n / 10);
        s.append(digit_str(n % 10));
        proof {
            assert(s@ =~= dec_str(n as nat));
        }
        s
    }
}

/// The optional API-key parameter, appended only when a key is configured.
pub open spec fn api_key_part(key: Option<Seq<char>>) -> Seq<char> {
    match key {
        Some(k) => "&apikey="@ + k,
        None => Seq::empty(),
    }
}

/// The view of an optional key string.
pub open spec fn api_key_view(key: Option<String>) -> Option<Seq<char>> {
    match key {
        Some(k) => Some(k@),
        None => None,
    }
}

/// The full base query for one search: tag, category bit-string, purity
/// bit-string, and the optional API key.
pub open spec fn base_query_spec(
    tag: Seq<char>,
    cats: Seq<char>,
    pur: Seq<char>,
    key: Option<Seq<char>>,
) -> Seq<char> {
    "https://wallhaven.cc/api/v1/search?q="@ + tag + "&categories="@ + cats + "&purity="@ + pur
        + api_key_part(key)
}

/// `q` is a base query that the given configuration can produce: its tag is
/// one of the configured collection tags, and the filters and key are the
/// configured ones.
pub open spec fn is_search_url_for(q: Seq<char>, c: Config) -> bool {
    exists|i: int|
        0 <= i < c.collections->Some_0@.len() && q == base_query_spec(
            c.collections->Some_0@[i]@,
            c.categories->Some_0.bits_spec(),
            c.purity->Some_0.bits_spec(),
            api_key_view(c.api_key),
        )
}

/// Builds the base query for one wallpaper-change operation, choosing the
/// collection tag at random; the tag stays fixed for the whole operation.
pub fn search_url(config: &Config) -> (r: String)
    requires
        config.search_ready(),
    ensures
        is_search_url_for(r@, *config),
{
    let collections = config.collections.as_ref().unwrap();
    let pick = random_in_range(0, collections.len() as u64);
    let idx = pick as usize;
    let tag: &String = &collections[idx];
    let cats = config.categories.as_ref().unwrap().bit_string();
    let pur = config.purity.as_ref().unwrap().bit_string();
    let mut s = String::from_str("https://wallhaven.cc/api/v1/search?q=");
    s.append(tag.as_str());
    s.append("&categories=");
    s.append(cats.as_str());
    s.append("&purity=");
    s.append(pur.as_str());
    match config.api_key.as_ref() {
        Some(k) => {
            s.append("&apikey=");
            s.append(k.as_str());
        },
        None => {},
    }
    proof {
        let i = idx as int;
        assert(s@ =~= base_query_spec(
            config.collections->Some_0@[i]@,
            config.categories->Some_0.bits_spec(),
            config.purity->Some_0.bits_spec(),
            api_key_view(config.api_key),
        ));
    }
    s
}

/// A page-scoped query: the base query with the page number appended.
pub open spec fn page_url_spec(base: Seq<char>, page: nat) -> Seq<char> {
    base + "&page="@ + dec_str(page)
}

/// Appends the page parameter to an already-built base query.
pub fn page_url(base: &str, page: u64) -> (r: String)
    ensures
        r@ == page_url_spec(base@, page as nat),
{
    let mut s = String::from_str(base);
    s.append("&page=");
    let digits = u64_to_string(page);
    s.append(digits.as_str());
    proof {
        assert(s@ =~= page_url_spec(base@, page as nat));
    }
    s
}

/// For a non-empty collections list all of whose entries are non-empty
/// tags, every base query the search client can issue carries a non-empty
/// tag: a request with an empty tag is never built.
pub proof fn lemma_search_tag_nonempty(q: Seq<char>, c: Config)
    requires
        c.search_ready(),
        forall|i: int|
            0 <= i < c.collections->Some_0@.len() ==> (#[trigger] c.collections->Some_0@[i])@.len()
                > 0,
        is_search_url_for(q, c),
    ensures
        exists|t: Seq<char>|
            t.len() > 0 && q == base_query_spec(
                t,
                c.categories->Some_0.bits_spec(),
                c.purity->Some_0.bits_spec(),
                api_key_view(c.api_key),
            ),
{
    let i = choose|i: int|
        0 <= i < c.collections->Some_0@.len() && q == base_query_spec(
            c.collections->Some_0@[i]@,
            c.categories->Some_0.bits_spec(),
            c.purity->Some_0.bits_spec(),
            api_key_view(c.api_key),
        );
    let t = c.collections->Some_0@[i]@;
    assert(t.len() > 0);
    assert(q == base_query_spec(
        t,
        c.categories->Some_0.bits_spec(),
        c.purity->Some_0.bits_spec(),
        api_key_view(c.api_key),
    ));
}

} // verus!
