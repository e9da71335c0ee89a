//! Mosque search: case-insensitive query filtering, and the merge of
//! external results with locally favorited mosques — duplicates by
//! identifier suppressed, favorites flagged.

use vstd::prelude::*;
use crate::mosque::{clone_mosque, Mosque, MosqueSearchResult};

verus! {

/// What `str::to_lowercase` returns for a given character sequence; the
/// result depends on the characters alone.
pub uninterp spec fn lower_of(s: Seq<char>) -> Seq<char>;

/// Relies on str::to_lowercase: the lowercased text is a function of the
/// input characters alone.
#[verifier::external_body]
fn to_lowercase(s: &str) -> (r: String)
    ensures
        r@ == lower_of(s@),
{
    s.to_lowercase()
}

/// Whether `needle` occurs in `hay` as a contiguous run of characters.
pub open spec fn seq_contains_sub(hay: Seq<char>, needle: Seq<char>) -> bool {
    exists|i: int|
        0 <= i <= hay.len() - needle.len() && #[trigger] hay.subrange(
            i,
            i + needle.len() as int,
        ) == needle
}

/// Relies on str::contains with a string pattern: true exactly when the
/// pattern occurs as a contiguous substring.
#[verifier::external_body]
fn str_contains(hay: &str, needle: &str) -> (r: bool)
    ensures
        r == seq_contains_sub(hay@, needle@),
{
    hay.contains(needle)
}

/// Whether a mosque matches a lowercased query: its name, city or address
/// contains the query, compared case-insensitively.
pub open spec fn spec_mosque_matches(m: Mosque, query_lower: Seq<char>) -> bool {
    ||| seq_contains_sub(lower_of(m.name@), query_lower)
    ||| (m.city is Some && seq_contains_sub(lower_of(m.city->0@), query_lower))
    ||| (m.address is Some && seq_contains_sub(lower_of(m.address->0@), query_lower))
}

fn mosque_matches(m: &Mosque, query_lower: &str) -> (r: bool)
    ensures
        r == spec_mosque_matches(*m, query_lower@),
{
    if str_contains(to_lowercase(m.name.as_str()).as_str(), query_lower) {
        return true;
    }
    let city_hit = match &m.city {
        Some(c) => str_contains(to_lowercase(c.as_str()).as_str(), query_lower),
        None => false,
    };
    if city_hit {
        return true;
    }
    match &m.address {
        Some(a) => str_contains(to_lowercase(a.as_str()).as_str(), query_lower),
        None => false,
    }
}

/// Keeps the mosques matching the query, in order, compared
/// case-insensitively against name, city and address.
pub fn filter_mosques_by_query(mosques: Vec<Mosque>, query: &str) -> (r: Vec<Mosque>)
    ensures
        r@ == mosques@.filter(|m: Mosque| spec_mosque_matches(m, lower_of(query@))),
{
    let query_lower = to_lowercase(query);
    let ghost pred = |m: Mosque| spec_mosque_matches(m, lower_of(query@));
    let mut out: Vec<Mosque> = Vec::new();
    let n = mosques.len();
    let mut i: usize = 0;
    proof {
        reveal(Seq::filter);
        assert(mosques@.take(0).filter(pred) =~= Seq::<Mosque>::empty());
    }
    while i < n
        invariant
            n == mosques@.len(),
            0 <= i <= n,
            query_lower@ == lower_of(query@),
            pred == (|m: Mosque| spec_mosque_matches(m, lower_of(query@))),
            out@ == mosques@.take(i as int).filter(pred),
        decreases n - i,
    {
        proof {
            reveal(Seq::filter);
            assert(mosques@.take(i + 1 as int).drop_last() =~= mosques@.take(i as int));
            assert(mosques@.take(i + 1 as int).last() == mosques@[i as int]);
        }
        if mosque_matches(&mosques[i], query_lower.as_str()) {
            out.push(clone_mosque(&mosques[i]));
        }
        i = i + 1;
    }
    proof {
        assert(mosques@.take(n as int) =~= mosques@);
    }
    out
}

/// Whether a stored favorite matches a lowercased query: only its name or
/// city is consulted, never its address.
pub open spec fn spec_favorite_matches(m: Mosque, query_lower: Seq<char>) -> bool {
    ||| seq_contains_sub(lower_of(m.name@), query_lower)
    ||| (m.city is Some && seq_contains_sub(lower_of(m.city->0@), query_lower))
}

fn favorite_matches(m: &Mosque, query_lower: &str) -> (r: bool)
    ensures
        r == spec_favorite_matches(*m, query_lower@),
{
    if str_contains(to_lowercase(m.name.as_str()).as_str(), query_lower) {
        return true;
    }
    match &m.city {
        Some(c) => str_contains(to_lowercase(c.as_str()).as_str(), query_lower),
        None => false,
    }
}

/// Keeps the favorites matching the query by name or city, in order,
/// compared case-insensitively; addresses are not consulted here.
pub fn filter_favorites_by_query(favorites: &Vec<Mosque>, query: &str) -> (r: Vec<Mosque>)
    ensures
        r@ == favorites@.filter(|m: Mosque| spec_favorite_matches(m, lower_of(query@))),
{
    let query_lower = to_lowercase(query);
    let ghost pred = |m: Mosque| spec_favorite_matches(m, lower_of(query@));
    let mut out: Vec<Mosque> = Vec::new();
    let n = favorites.len();
    let mut i: usize = 0;
    proof {
        reveal(Seq::filter);
        assert(favorites@.take(0).filter(pred) =~= Seq::<Mosque>::empty());
    }
    while i < n
        invariant
            n == favorites@.len(),
            0 <= i <= n,
            query_lower@ == lower_of(query@),
            pred == (|m: Mosque| spec_favorite_matches(m, lower_of(query@))),
            out@ == favorites@.take(i as int).filter(pred),
        decreases n - i,
    {
        proof {
            reveal(Seq::filter);
            assert(favorites@.take(i + 1 as int).drop_last() =~= favorites@.take(i as int));
            assert(favorites@.take(i + 1 as int).last() == favorites@[i as int]);
        }
        if favorite_matches(&favorites[i], query_lower.as_str()) {
            out.push(clone_mosque(&favorites[i]));
        }
        i = i + 1;
    }
    proof {
        assert(favorites@.take(n as int) =~= favorites@);
    }
    out
}

/// Whether some mosque in the list carries this identifier.
pub open spec fn spec_has_id(s: Seq<Mosque>, id: Seq<char>) -> bool {
    exists|i: int| 0 <= i < s.len() && (#[trigger] s[i]).id@ == id
}

fn has_id(list: &Vec<Mosque>, id: &String) -> (r: bool)
    ensures
        r == spec_has_id(list@, id@),
{
    let n = list.len();
    let mut i: usize = 0;
    while i < n
        invariant
            n == list@.len(),
            0 <= i <= n,
            forall|j: int| 0 <= j < i ==> (#[trigger] list@[j]).id@ != id@,
        decreases n - i,
    {
        if list[i].id == *id {
            proof {
                assert((list@[i as int]).id@ == id@);
            }
            return true;
        }
        i = i + 1;
    }
    false
}

/// The external results followed by those favorites whose identifier is not
/// already present.
pub open spec fn spec_append_missing(base: Seq<Mosque>, favs: Seq<Mosque>) -> Seq<Mosque>
    decreases favs.len(),
{
    if favs.len() == 0 {
        base
    } else {
        let next = if spec_has_id(base, favs[0].id@) {
            base
        } else {
            base.push(favs[0])
        };
        spec_append_missing(next, favs.drop_first())
    }
}

/// The same mosques with the favorite flag raised on every entry whose
/// identifier appears among the favorites.
pub open spec fn spec_mark_favorites(s: Seq<Mosque>, favs: Seq<Mosque>) -> Seq<Mosque> {
    Seq::new(
        s.len(),
        |i: int|
            if spec_has_id(favs, s[i].id@) {
                Mosque { is_favorite: true, ..s[i] }
            } else {
                s[i]
            },
    )
}

/// Merges external search results with the favorites: externals first, then
/// each query-matching favorite whose identifier is not already present; the
/// favorite flag is decided against the full favorites list, so an external
/// result that is a stored favorite is flagged even when that favorite did
/// not match the query.
pub fn merge_search_results(
    external: Vec<Mosque>,
    matching_favorites: &Vec<Mosque>,
    favorites: &Vec<Mosque>,
) -> (r: MosqueSearchResult)
    ensures
        r.mosques@ == spec_mark_favorites(
            spec_append_missing(external@, matching_favorites@),
            favorites@,
        ),
        r.total == r.mosques@.len(),
{
    let ghost orig = external@;
    let mut all = external;
    let n = matching_favorites.len();
    let mut i: usize = 0;
    proof {
        assert(matching_favorites@.skip(0) =~= matching_favorites@);
    }
    while i < n
        invariant
            n == matching_favorites@.len(),
            0 <= i <= n,
            spec_append_missing(orig, matching_favorites@) == spec_append_missing(
                all@,
                matching_favorites@.skip(i as int),
            ),
        decreases n - i,
    {
        let ghost rest = matching_favorites@.skip(i as int);
        proof {
            assert(rest.drop_first() =~= matching_favorites@.skip(i + 1 as int));
            assert(rest[0] == matching_favorites@[i as int]);
        }
        if !has_id(&all, &matching_favorites[i].id) {
            all.push(clone_mosque(&matching_favorites[i]));
        }
        i = i + 1;
    }
    proof {
        assert(matching_favorites@.skip(n as int) =~= Seq::<Mosque>::empty());
    }

    let ghost merged = all@;
    let mut out: Vec<Mosque> = Vec::new();
    let total = all.len();
    let mut j: usize = 0;
    while j < total
        invariant
            total == all@.len(),
            all@ == merged,
            0 <= j <= total,
            out@.len() == j,
            forall|k: int| 0 <= k < j ==> out@[k] == spec_mark_favorites(merged, favorites@)[k],
        decreases total - j,
    {
        let mut m = clone_mosque(&all[j]);
        if has_id(favorites, &m.id) {
            m.is_favorite = true;
        }
        out.push(m);
        j = j + 1;
    }
    proof {
        assert(out@ =~= spec_mark_favorites(merged, favorites@));
    }
    let count = out.len();
    MosqueSearchResult { mosques: out, total: count }
}

} // verus!
