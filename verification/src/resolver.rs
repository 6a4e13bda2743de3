use vstd::prelude::*;

verus! {

/// Expands the user's city tokens into the concrete list of cities to
/// query. The reserved token `favorites`, matched without regard to ASCII
/// case, splices the whole favorites list in at its position; every other
/// token passes through verbatim, duplicates and all.

/// Whether a token is the reserved word, compared letter by letter in
/// either case.
pub open spec fn is_favorites_token(s: Seq<char>) -> bool {
    &&& s.len() == 9
    &&& (s[0] == 'f' || s[0] == 'F')
    &&& (s[1] == 'a' || s[1] == 'A')
    &&& (s[2] == 'v' || s[2] == 'V')
    &&& (s[3] == 'o' || s[3] == 'O')
    &&& (s[4] == 'r' || s[4] == 'R')
    &&& (s[5] == 'i' || s[5] == 'I')
    &&& (s[6] == 't' || s[6] == 'T')
    &&& (s[7] == 'e' || s[7] == 'E')
    &&& (s[8] == 's' || s[8] == 'S')
}

pub fn favorites_token(s: &str) -> (r: bool)
    ensures
        r == is_favorites_token(s@),
{
    if s.unicode_len() != 9 {
        return false;
    }
    let c0 = s.get_char(0);
    let c1 = s.get_char(1);
    let c2 = s.get_char(2);
    let c3 = s.get_char(3);
    let c4 = s.get_char(4);
    let c5 = s.get_char(5);
    let c6 = s.get_char(6);
    let c7 = s.get_char(7);
    let c8 = s.get_char(8);
    (c0 == 'f' || c0 == 'F') && (c1 == 'a' || c1 == 'A') && (c2 == 'v' || c2 == 'V') && (c3 == 'o'
        || c3 == 'O') && (c4 == 'r' || c4 == 'R') && (c5 == 'i' || c5 == 'I') && (c6 == 't' || c6
        == 'T') && (c7 == 'e' || c7 == 'E') && (c8 == 's' || c8 == 'S')
}

/// The resolved city list: tokens in order, the reserved token replaced by
/// the favorites list, nothing deduplicated.
pub open spec fn resolve_spec(tokens: Seq<Seq<char>>, favs: Seq<Seq<char>>) -> Seq<Seq<char>>
    decreases tokens.len(),
{
    if tokens.len() == 0 {
        Seq::empty()
    } else {
        resolve_spec(tokens.drop_last(), favs) + (if is_favorites_token(tokens.last()) {
            favs
        } else {
            seq![tokens.last()]
        })
    }
}

/// Expands the tokens against the given favorites list.
#[verifier::loop_isolation(false)]
pub fn resolve(tokens: &Vec<String>, favorites: &Vec<String>) -> (r: Vec<String>)
    ensures
        r.deep_view() == resolve_spec(tokens.deep_view(), favorites.deep_view()),
{
    let ghost td: Seq<Seq<char>> = tokens.deep_view();
    let ghost fd: Seq<Seq<char>> = favorites.deep_view();
    let mut out: Vec<String> = Vec::new();
    let mut i: usize = 0;
    proof {
        assert(out.deep_view() =~= resolve_spec(td.subrange(0, 0), fd));
    }
    while i < tokens.len()
        invariant
            0 <= i <= tokens.len(),
            out.deep_view() == resolve_spec(td.subrange(0, i as int), fd),
        decreases tokens.len() - i,
    {
        proof {
            assert(td.subrange(0, i + 1).drop_last() =~= td.subrange(0, i as int));
            assert(td.subrange(0, i + 1).last() == td[i as int]);
        }
        if favorites_token(tokens[i].as_str()) {
            let ghost mark: Seq<Seq<char>> = out.deep_view();
            let mut k: usize = 0;
            while k < favorites.len()
                invariant
                    0 <= k <= favorites.len(),
                    out.deep_view() == mark + fd.subrange(0, k as int),
                decreases favorites.len() - k,
            {
                let entry = favorites[k].clone();
                proof {
                    assert(entry@ == fd[k as int]);
                }
                let ghost pre = out.deep_view();
                out.push(entry);
                proof {
                    let rhs = mark + fd.subrange(0, k + 1);
                    assert(out.deep_view().len() == rhs.len());
                    assert forall|q: int| 0 <= q < rhs.len() implies out.deep_view()[q]
                        == rhs[q] by {
                        if q < pre.len() {
                            assert(out.deep_view()[q] == pre[q]);
                            assert(pre[q] == (mark + fd.subrange(0, k as int))[q]);
                        } else {
                            assert(out.deep_view()[q] == fd[k as int]);
                        }
                    }
                    assert(out.deep_view() =~= rhs);
                }
                k = k + 1;
            }
            proof {
                assert(fd.subrange(0, fd.len() as int) =~= fd);
                assert(out.deep_view() =~= resolve_spec(td.subrange(0, i + 1), fd));
            }
        } else {
            let entry = tokens[i].clone();
            out.push(entry);
            proof {
                assert(out.deep_view() =~= resolve_spec(td.subrange(0, i + 1), fd));
            }
        }
        i = i + 1;
    }
    proof {
        assert(td.subrange(0, td.len() as int) =~= td);
    }
    out
}

} // verus!
