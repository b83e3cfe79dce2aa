//! The deterministic cache layout: one directory per cache hash, a fixed
//! provider subdirectory, one file per tier.

use vstd::prelude::*;

use crate::tier::Tier;
use crate::tier::tier_name_spec;

verus! {

/// The directory all of one request's cache entries live in:
/// `<root>/<hash>/zvuk`.
pub open spec fn cache_dir_spec(root: Seq<char>, hash: Seq<char>) -> Seq<char> {
    root + "/"@ + hash + "/zvuk"@
}

/// The file path of one tier's cache entry:
/// `<root>/<hash>/zvuk/<tier>[.<ext>]`.
pub open spec fn cache_path_spec(root: Seq<char>, hash: Seq<char>, t: Tier, ext: Option<Seq<char>>) -> Seq<char> {
    cache_dir_spec(root, hash) + "/"@ + tier_name_spec(t) + (match ext {
        Option::Some(e) => "."@ + e,
        Option::None => Seq::<char>::empty(),
    })
}

/// Builds the cache directory for a request's hash.
pub fn cache_dir(root: &str, hash: &str) -> (r: String)
    ensures
        r@ == cache_dir_spec(root@, hash@),
{
    let mut s = String::from_str(root);
    s.append("/");
    s.append(hash);
    s.append("/zvuk");
    proof {
        assert(s@ =~= cache_dir_spec(root@, hash@));
    }
    s
}

/// Builds the cache file path for one tier of a request.
pub fn cache_file_path(root: &str, hash: &str, t: Tier, ext: Option<&String>) -> (r: String)
    ensures
        r@ == cache_path_spec(root@, hash@, t, match ext {
            Option::Some(e) => Option::Some(e@),
            Option::None => Option::None,
        }),
{
    let mut s = cache_dir(root, hash);
    s.append("/");
    s.append(t.name());
    match ext {
        Option::Some(e) => {
            s.append(".");
            s.append(e.as_str());
            proof {
                assert(s@ =~= cache_path_spec(root@, hash@, t, Option::Some(e@)));
            }
        },
        Option::None => {
            proof {
                assert(s@ =~= cache_path_spec(root@, hash@, t, Option::<Seq<char>>::None));
            }
        },
    }
    s
}

/// Distinct tiers of one request can never collide on a cache path: the
/// best and mid entries are two different files, whatever extensions their
/// responses carried.
pub proof fn lemma_tier_paths_distinct(root: Seq<char>, hash: Seq<char>, e1: Option<Seq<char>>, e2: Option<Seq<char>>)
    ensures
        cache_path_spec(root, hash, Tier::Best, e1) != cache_path_spec(root, hash, Tier::Mid, e2),
{
    reveal_strlit("best");
    reveal_strlit("mid");
    reveal_strlit("/");
    reveal_strlit(".");
    let p1 = cache_path_spec(root, hash, Tier::Best, e1);
    let p2 = cache_path_spec(root, hash, Tier::Mid, e2);
    let k = (cache_dir_spec(root, hash) + "/"@).len();
    assert(p1[k as int] == 'b');
    assert(p2[k as int] == 'm');
    assert(p1[k as int] != p2[k as int]);
}

} // verus!
