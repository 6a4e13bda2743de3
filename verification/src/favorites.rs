use vstd::prelude::*;

verus! {

/// The favorites store: an ordered list of unique city names. The durable
/// record is a JSON array of strings; reading and writing the file itself
/// is the caller's business, this module owns everything between the raw
/// record text and the list.

/// Reading a favorites record fails only when the record text is not a
/// JSON array of strings.
#[derive(Clone, Copy, PartialEq, Eq, Structural, Debug)]
pub enum FavoritesError {
    CorruptFavoritesData,
}

/// What a favorites record text denotes: the list of city names, or
/// nothing when the text is not a JSON array of strings.
pub uninterp spec fn city_list_of(s: Seq<char>) -> Option<Seq<Seq<char>>>;

/// Relies on serde_json::from_str::<Vec<String>>: what a text parses to is
/// a function of the text alone.
#[verifier::external_body]
fn parse_city_list(s: &str) -> (r: Option<Vec<String>>)
    ensures
        match r {
            Some(v) => city_list_of(s@) == Some(v.deep_view()),
            None => city_list_of(s@) is None,
        },
{
    serde_json::from_str::<Vec<String>>(s).ok()
}

/// Relies on serde_json::to_string: on a vector of strings it cannot fail,
/// and serde_json::from_str reads the same vector back from its output.
#[verifier::external_body]
fn encode_city_list(v: &Vec<String>) -> (r: String)
    ensures
        city_list_of(r@) == Some(v.deep_view()),
{
    serde_json::to_string(v).unwrap_or_default()
}

/// Whether `city` occurs in the list.
pub open spec fn has_city(s: Seq<Seq<char>>, city: Seq<char>) -> bool {
    exists|i: int| 0 <= i < s.len() && s[i] == city
}

/// The store's invariant: no city occurs twice.
pub open spec fn favs_wf(s: Seq<Seq<char>>) -> bool {
    forall|i: int, j: int| 0 <= i < j < s.len() ==> s[i] != s[j]
}

/// Adding appends a missing city and leaves a present one alone.
pub open spec fn add_fav_spec(s: Seq<Seq<char>>, city: Seq<char>) -> Seq<Seq<char>> {
    if has_city(s, city) {
        s
    } else {
        s.push(city)
    }
}

/// Removing drops every exact match and keeps the rest in order.
pub open spec fn remove_fav_spec(s: Seq<Seq<char>>, city: Seq<char>) -> Seq<Seq<char>> {
    s.filter(|x: Seq<char>| x != city)
}

/// Turns a loaded record into the favorites list. An absent record is an
/// empty list; unreadable record text is the corrupt-data error.
pub fn load_favorites(record: Option<&str>) -> (r: Result<Vec<String>, FavoritesError>)
    ensures
        match r {
            Ok(v) => match record {
                Some(s) => city_list_of(s@) == Some(v.deep_view()),
                None => v.deep_view() == Seq::<Seq<char>>::empty(),
            },
            Err(e) => {
                &&& e == FavoritesError::CorruptFavoritesData
                &&& record is Some
                &&& city_list_of(record->Some_0@) is None
            },
        },
{
    match record {
        None => {
            let v: Vec<String> = Vec::new();
            proof {
                assert(v.deep_view() =~= Seq::<Seq<char>>::empty());
            }
            Ok(v)
        },
        Some(s) => match parse_city_list(s) {
            Some(v) => Ok(v),
            None => Err(FavoritesError::CorruptFavoritesData),
        },
    }
}

/// The record text that persists the list.
pub fn save_favorites(favorites: &Vec<String>) -> (r: String)
    ensures
        city_list_of(r@) == Some(favorites.deep_view()),
{
    encode_city_list(favorites)
}

fn contains_city(favorites: &Vec<String>, city: &String) -> (r: bool)
    ensures
        r == has_city(favorites.deep_view(), city@),
{
    let n = favorites.len();
    let mut i: usize = 0;
    while i < n
        invariant
            n == favorites.len(),
            0 <= i <= n,
            forall|j: int| 0 <= j < i ==> favorites.deep_view()[j] != city@,
        decreases n - i,
    {
        if favorites[i] == *city {
            proof {
                assert(favorites.deep_view()[i as int] == city@);
            }
            return true;
        }
        i = i + 1;
    }
    false
}

/// Appends the city unless it is already listed (exact, case-sensitive
/// match); a second add of the same city changes nothing.
pub fn add_favorite(favorites: &mut Vec<String>, city: &str)
    ensures
        final(favorites).deep_view() == add_fav_spec(old(favorites).deep_view(), city@),
{
    let owned: String = city.to_owned();
    if !contains_city(favorites, &owned) {
        favorites.push(owned);
        proof {
            assert(favorites.deep_view() =~= add_fav_spec(old(favorites).deep_view(), city@));
        }
    }
}

/// Drops every entry exactly matching the city; removing an absent city
/// leaves the list as it was.
pub fn remove_favorite(favorites: &mut Vec<String>, city: &str)
    ensures
        final(favorites).deep_view() == remove_fav_spec(old(favorites).deep_view(), city@),
{
    broadcast use vstd::std_specs::vec::group_vec_axioms;

    let owned: String = city.to_owned();
    let n = favorites.len();
    let mut kept: Vec<String> = Vec::new();
    let mut i: usize = 0;
    proof {
        reveal(Seq::filter);
    }
    while i < n
        invariant
            n == favorites.len(),
            0 <= i <= n,
            kept.deep_view() == favorites.deep_view().subrange(0, i as int).filter(
                |x: Seq<char>| x != city@,
            ),
            owned@ == city@,
        decreases n - i,
    {
        proof {
            reveal(Seq::filter);
            let dv = favorites.deep_view();
            assert(dv.subrange(0, i + 1).drop_last() =~= dv.subrange(0, i as int));
            assert(dv.subrange(0, i + 1).last() == dv[i as int]);
        }
        if !(favorites[i] == owned) {
            let entry = favorites[i].clone();
            proof {
                assert(entry@ == favorites.deep_view()[i as int]);
            }
            kept.push(entry);
        }
        proof {
            assert(kept.deep_view() =~= favorites.deep_view().subrange(0, i + 1).filter(
                |x: Seq<char>| x != city@,
            ));
        }
        i = i + 1;
    }
    proof {
        assert(favorites.deep_view().subrange(0, n as int) =~= favorites.deep_view());
    }
    *favorites = kept;
}

/// The list as it is shown: one city per line, in stored order.
pub open spec fn list_lines(s: Seq<Seq<char>>) -> Seq<char>
    decreases s.len(),
{
    if s.len() == 0 {
        Seq::empty()
    } else {
        list_lines(s.drop_last()) + s.last() + "\n"@
    }
}

/// Renders the favorites list for display.
#[verifier::loop_isolation(false)]
pub fn list_favorites(favorites: &Vec<String>) -> (r: String)
    ensures
        r@ == list_lines(favorites.deep_view()),
{
    let ghost dv: Seq<Seq<char>> = favorites.deep_view();
    let mut out = String::new();
    let mut i: usize = 0;
    while i < favorites.len()
        invariant
            0 <= i <= favorites.len(),
            out@ == list_lines(dv.subrange(0, i as int)),
        decreases favorites.len() - i,
    {
        proof {
            assert(dv.subrange(0, i + 1).drop_last() =~= dv.subrange(0, i as int));
            assert(dv.subrange(0, i + 1).last() == dv[i as int]);
        }
        out.append(favorites[i].as_str());
        out.append("\n");
        i = i + 1;
    }
    proof {
        assert(dv.subrange(0, dv.len() as int) =~= dv);
    }
    out
}

/// How often a city occurs in the list.
pub open spec fn count_city(s: Seq<Seq<char>>, city: Seq<char>) -> nat {
    s.filter(|x: Seq<char>| x == city).len()
}

proof fn lemma_count_absent(s: Seq<Seq<char>>, city: Seq<char>)
    requires
        !has_city(s, city),
    ensures
        count_city(s, city) == 0,
    decreases s.len(),
{
    reveal(Seq::filter);
    if s.len() > 0 {
        assert(forall|i: int| 0 <= i < s.len() - 1 ==> s.drop_last()[i] == s[i]);
        assert(!has_city(s.drop_last(), city));
        lemma_count_absent(s.drop_last(), city);
        assert(s.last() == s[s.len() - 1]);
    }
}

proof fn lemma_count_one(s: Seq<Seq<char>>, city: Seq<char>)
    requires
        favs_wf(s),
        has_city(s, city),
    ensures
        count_city(s, city) == 1,
    decreases s.len(),
{
    reveal(Seq::filter);
    let d = s.drop_last();
    assert(forall|i: int| 0 <= i < s.len() - 1 ==> d[i] == s[i]);
    assert(favs_wf(d));
    if s.last() == city {
        assert(!has_city(d, city)) by {
            assert(forall|i: int| 0 <= i < d.len() ==> #[trigger] s[i] != s[s.len() - 1]);
        }
        lemma_count_absent(d, city);
    } else {
        assert(has_city(d, city)) by {
            let w = choose|i: int| 0 <= i < s.len() && s[i] == city;
            assert(s[w] == city);
            assert(w != s.len() - 1);
            assert(d[w] == city);
        }
        lemma_count_one(d, city);
    }
}

/// Adding a city twice is the same as adding it once, and on a
/// well-formed list the added city ends up listed exactly once.
pub proof fn lemma_add_favorite_idempotent(s: Seq<Seq<char>>, city: Seq<char>)
    ensures
        add_fav_spec(add_fav_spec(s, city), city) == add_fav_spec(s, city),
        favs_wf(s) ==> count_city(add_fav_spec(s, city), city) == 1,
{
    if has_city(s, city) {
        if favs_wf(s) {
            lemma_count_one(s, city);
        }
    } else {
        let s2 = s.push(city);
        assert(s2[s.len() as int] == city);
        assert(has_city(s2, city));
        if favs_wf(s) {
            assert(favs_wf(s2)) by {
                assert(forall|i: int| 0 <= i < s.len() ==> s2[i] == s[i] && s[i] != city);
            }
            lemma_count_one(s2, city);
        }
    }
}

/// Removing a city that is not listed leaves the list exactly as it was.
pub proof fn lemma_remove_absent_identity(s: Seq<Seq<char>>, city: Seq<char>)
    requires
        !has_city(s, city),
    ensures
        remove_fav_spec(s, city) == s,
    decreases s.len(),
{
    reveal(Seq::filter);
    if s.len() > 0 {
        let d = s.drop_last();
        assert(forall|i: int| 0 <= i < s.len() - 1 ==> d[i] == s[i]);
        assert(!has_city(d, city));
        lemma_remove_absent_identity(d, city);
        assert(s.last() != city);
        assert(remove_fav_spec(s, city) =~= s);
    } else {
        assert(remove_fav_spec(s, city) =~= s);
    }
}

proof fn lemma_remove_is_subset(s: Seq<Seq<char>>, city: Seq<char>, k: int)
    requires
        0 <= k < remove_fav_spec(s, city).len(),
    ensures
        exists|j: int| 0 <= j < s.len() && s[j] == remove_fav_spec(s, city)[k],
    decreases s.len(),
{
    reveal(Seq::filter);
    if s.len() > 0 {
        let d = s.drop_last();
        let r = remove_fav_spec(s, city);
        let rd = remove_fav_spec(d, city);
        if s.last() != city && k == r.len() - 1 {
            assert(r == rd.push(s.last()));
            assert(s[s.len() - 1] == r[k]);
        } else {
            assert(r[k] == rd[k]);
            lemma_remove_is_subset(d, city, k);
            let j = choose|j: int| 0 <= j < d.len() && d[j] == rd[k];
            assert(s[j] == r[k]);
        }
    }
}

/// Adding keeps the no-duplicates invariant.
pub proof fn lemma_add_preserves_wf(s: Seq<Seq<char>>, city: Seq<char>)
    requires
        favs_wf(s),
    ensures
        favs_wf(add_fav_spec(s, city)),
{
    if !has_city(s, city) {
        let s2 = s.push(city);
        assert(forall|i: int| 0 <= i < s.len() ==> s2[i] == s[i] && s[i] != city);
        assert(favs_wf(s2));
    }
}

/// Removing keeps the no-duplicates invariant.
pub proof fn lemma_remove_preserves_wf(s: Seq<Seq<char>>, city: Seq<char>)
    requires
        favs_wf(s),
    ensures
        favs_wf(remove_fav_spec(s, city)),
    decreases s.len(),
{
    reveal(Seq::filter);
    if s.len() > 0 {
        let d = s.drop_last();
        assert(forall|i: int| 0 <= i < s.len() - 1 ==> d[i] == s[i]);
        assert(favs_wf(d));
        lemma_remove_preserves_wf(d, city);
        let rd = remove_fav_spec(d, city);
        if s.last() != city {
            let f = remove_fav_spec(s, city);
            assert(f == rd.push(s.last()));
            assert forall|i: int, j: int| 0 <= i < j < f.len() implies f[i] != f[j] by {
                if j == f.len() - 1 {
                    lemma_remove_is_subset(d, city, i);
                    let w = choose|w: int| 0 <= w < d.len() && d[w] == rd[i];
                    assert(s[w] != s[s.len() - 1]);
                } else {
                    assert(f[i] == rd[i] && f[j] == rd[j]);
                }
            }
        }
    }
}

} // verus!
