//! The list of favourites and the rules for adding and removing entries.

use vstd::prelude::*;
use crate::favorites::{Favorite, FavoriteError};
use crate::text::{owned, path_join, path_join_str, str_eq};

verus! {

/// The identifiers of a list of favourites, in order.
pub open spec fn favorite_ids(s: Seq<Favorite>) -> Seq<Seq<char>> {
    s.map_values(|f: Favorite| f.id_spec())
}

/// `s` without its first favourite whose identifier is `name`.
pub open spec fn remove_first_id(s: Seq<Favorite>, name: Seq<char>) -> Seq<Favorite>
    decreases s.len(),
{
    if s.len() == 0 {
        s
    } else if s[0].id_spec() == name {
        s.drop_first()
    } else {
        seq![s[0]] + remove_first_id(s.drop_first(), name)
    }
}

/// The favourites list, in the order the entries were added.
#[derive(Debug)]
pub struct FavoriteConfig {
    favorites: Vec<Favorite>,
}

impl View for FavoriteConfig {
    type V = Seq<Favorite>;

    closed spec fn view(&self) -> Seq<Favorite> {
        self.favorites@
    }
}

impl FavoriteConfig {
    /// Where the list is saved: `.cargo-actions/favorite.json` under the
    /// home directory `home`.
    pub fn config_file(home: &str) -> (r: String)
        ensures
            r@ == path_join(home@, ".cargo-actions/favorite.json"@),
    {
        path_join_str(home, ".cargo-actions/favorite.json")
    }

    /// An empty list (what is used when no list has been saved yet).
    pub fn new() -> (r: FavoriteConfig)
        ensures
            r@ == Seq::<Favorite>::empty(),
    {
        FavoriteConfig { favorites: Vec::new() }
    }

    /// The list holding `favorites` (what was read back from disk).
    pub fn from_favorites(favorites: Vec<Favorite>) -> (r: FavoriteConfig)
        ensures
            r@ == favorites@,
    {
        FavoriteConfig { favorites }
    }

    /// The entries of the list.
    pub fn favorites(&self) -> (r: &Vec<Favorite>)
        ensures
            r@ == self@,
    {
        &self.favorites
    }

    /// Whether some favourite has the identifier `name`.
    pub fn has_id(&self, name: &str) -> (r: bool)
        ensures
            r == favorite_ids(self@).contains(name@),
    {
        let n = self.favorites.len();
        let mut i: usize = 0;
        while i < n
            invariant
                n == self@.len(),
                i <= n,
                forall|j: int| 0 <= j < i ==> favorite_ids(self@)[j] != name@,
            decreases n - i,
        {
            if str_eq(self.favorites[i].get_id(), name) {
                assert(favorite_ids(self@)[i as int] == name@);
                return true;
            }
            i = i + 1;
        }
        false
    }

    /// Adds `favorite` at the end of the list and returns its identifier,
    /// unless a favourite with the same identifier is already there; then
    /// the list is left as it was.
    pub fn add_favorite(&mut self, favorite: Favorite) -> (r: Result<String, FavoriteError>)
        ensures
            favorite_ids(old(self)@).contains(favorite.id_spec()) ==> {
                &&& r matches Err(FavoriteError::AlreadyExists(id)) && id@ == favorite.id_spec()
                &&& final(self)@ == old(self)@
            },
            !favorite_ids(old(self)@).contains(favorite.id_spec()) ==> {
                &&& r matches Ok(id) && id@ == favorite.id_spec()
                &&& final(self)@ == old(self)@.push(favorite)
            },
    {
        let id = owned(favorite.get_id());
        if self.has_id(favorite.get_id()) {
            return Err(FavoriteError::AlreadyExists(id));
        }
        self.favorites.push(favorite);
        Ok(id)
    }

    /// Removes the first favourite whose identifier is `name`; fails, and
    /// leaves the list as it was, when there is none.
    pub fn remove_favorite(&mut self, name: &str) -> (r: Result<(), FavoriteError>)
        ensures
            favorite_ids(old(self)@).contains(name@) ==> r is Ok && final(self)@ == remove_first_id(
                old(self)@,
                name@,
            ),
            !favorite_ids(old(self)@).contains(name@) ==> (r matches Err(FavoriteError::NotFound)
                && final(self)@ == old(self)@),
    {
        let n = self.favorites.len();
        let mut i: usize = 0;
        let ghost s = self@;
        assert(s.take(0) + s.skip(0) =~= s);
        while i < n
            invariant
                n == s.len(),
                s == self@,
                s == old(self)@,
                i <= n,
                forall|j: int| 0 <= j < i ==> favorite_ids(s)[j] != name@,
                remove_first_id(s, name@) == s.take(i as int) + remove_first_id(
                    s.skip(i as int),
                    name@,
                ),
            decreases n - i,
        {
            let ghost rest = s.skip(i as int);
            assert(rest[0] == s[i as int]);
            assert(rest.drop_first() =~= s.skip(i + 1));
            assert(favorite_ids(s)[i as int] == s[i as int].id_spec());
            if str_eq(self.favorites[i].get_id(), name) {
                assert(favorite_ids(s)[i as int] == name@);
                assert(favorite_ids(s).contains(name@));
                self.favorites.remove(i);
                assert(s.take(i as int) + s.skip(i + 1) =~= s.remove(i as int));
                return Ok(());
            }
            assert(s.take(i as int) + (seq![s[i as int]] + remove_first_id(s.skip(i + 1), name@))
                =~= s.take(i + 1) + remove_first_id(s.skip(i + 1), name@));
            i = i + 1;
        }
        assert(!favorite_ids(s).contains(name@));
        Err(FavoriteError::NotFound)
    }

    /// The identifiers of the favourites, in order.
    pub fn get_ids(&self) -> (r: Vec<&str>)
        ensures
            r@.len() == self@.len(),
            forall|i: int| 0 <= i < r@.len() ==> #[trigger] r@[i]@ == favorite_ids(self@)[i],
    {
        let n = self.favorites.len();
        let mut r: Vec<&str> = Vec::new();
        let mut i: usize = 0;
        while i < n
            invariant
                n == self@.len(),
                i <= n,
                r@.len() == i,
                forall|k: int| 0 <= k < i ==> #[trigger] r@[k]@ == favorite_ids(self@)[k],
            decreases n - i,
        {
            r.push(self.favorites[i].get_id());
            i = i + 1;
        }
        r
    }
}

/// Adding a favourite whose identifier is new keeps the identifiers of the
/// list distinct.
pub proof fn law_add_keeps_ids_distinct(s: Seq<Favorite>, f: Favorite)
    requires
        favorite_ids(s).no_duplicates(),
        !favorite_ids(s).contains(f.id_spec()),
    ensures
        favorite_ids(s.push(f)).no_duplicates(),
        favorite_ids(s.push(f)).contains(f.id_spec()),
{
    let t = favorite_ids(s.push(f));
    assert(t =~= favorite_ids(s).push(f.id_spec()));
    assert(t[s.len() as int] == f.id_spec());
}

proof fn lemma_remove_first_id_after(s: Seq<Favorite>, extra: Favorite, name: Seq<char>)
    requires
        !favorite_ids(s).contains(name),
    ensures
        remove_first_id(s.push(extra), name) == s + remove_first_id(seq![extra], name),
    decreases s.len(),
{
    if s.len() > 0 {
        assert(favorite_ids(s)[0] == s[0].id_spec());
        assert forall|x: Seq<char>| favorite_ids(s.drop_first()).contains(x) implies favorite_ids(
            s,
        ).contains(x) by {
            let k = choose|k: int|
                0 <= k < favorite_ids(s.drop_first()).len() && favorite_ids(s.drop_first())[k]
                    == x;
            assert(favorite_ids(s)[k + 1] == x);
        }
        lemma_remove_first_id_after(s.drop_first(), extra, name);
        assert(s.push(extra).drop_first() =~= s.drop_first().push(extra));
        assert(seq![s[0]] + (s.drop_first() + remove_first_id(seq![extra], name)) =~= s
            + remove_first_id(seq![extra], name));
    } else {
        assert(s.push(extra) =~= seq![extra]);
        assert(s + remove_first_id(seq![extra], name) =~= remove_first_id(seq![extra], name));
    }
}

/// Removing a favourite right after adding it gives the list back, when its
/// identifier was new.
pub proof fn law_add_then_remove_restores(s: Seq<Favorite>, f: Favorite)
    requires
        !favorite_ids(s).contains(f.id_spec()),
    ensures
        remove_first_id(s.push(f), f.id_spec()) == s,
{
    lemma_remove_first_id_after(s, f, f.id_spec());
    assert(seq![f].drop_first() =~= Seq::<Favorite>::empty());
    assert(s + Seq::<Favorite>::empty() =~= s);
}

/// In a list whose identifiers are distinct, removing the favourite with
/// identifier `name` leaves no favourite with that identifier, and the
/// identifiers stay distinct.
pub proof fn law_remove_drops_the_id(s: Seq<Favorite>, name: Seq<char>)
    requires
        favorite_ids(s).no_duplicates(),
    ensures
        !favorite_ids(remove_first_id(s, name)).contains(name),
        favorite_ids(remove_first_id(s, name)).no_duplicates(),
        remove_first_id(s, name).len() == if favorite_ids(s).contains(name) {
            s.len() - 1
        } else {
            s.len() as int
        },
    decreases s.len(),
{
    let ids = favorite_ids(s);
    if s.len() > 0 {
        let tail = s.drop_first();
        assert(favorite_ids(tail) =~= ids.drop_first());
        assert(ids[0] == s[0].id_spec());
        if s[0].id_spec() == name {
            assert forall|k: int| 0 <= k < favorite_ids(tail).len() implies favorite_ids(tail)[k]
                != name by {
                assert(ids[k + 1] == favorite_ids(tail)[k]);
            }
        } else {
            law_remove_drops_the_id(tail, name);
            let r = remove_first_id(s, name);
            let rt = remove_first_id(tail, name);
            assert(r == seq![s[0]] + rt);
            let rids = favorite_ids(r);
            assert(rids =~= seq![s[0].id_spec()] + favorite_ids(rt));
            lemma_remove_first_id_subset(tail, name);
            assert forall|a: int, b: int| 0 <= a < b < rids.len() implies rids[a] != rids[b] by {
                if a == 0 {
                    let x = favorite_ids(rt)[b - 1];
                    assert(favorite_ids(rt).contains(x));
                    assert(favorite_ids(tail).contains(x));
                    let k = choose|k: int| 0 <= k < favorite_ids(tail).len() && favorite_ids(tail)[k] == x;
                    assert(ids[k + 1] == x);
                }
            }
            if favorite_ids(s).contains(name) {
                let k = choose|k: int| 0 <= k < ids.len() && ids[k] == name;
                assert(k != 0);
                assert(favorite_ids(tail)[k - 1] == name);
            } else {
                assert forall|k: int| 0 <= k < favorite_ids(tail).len() implies favorite_ids(tail)[k]
                    != name by {
                    assert(ids[k + 1] == favorite_ids(tail)[k]);
                }
            }
        }
    }
}

/// Every identifier left after a removal was in the list before.
pub proof fn lemma_remove_first_id_subset(s: Seq<Favorite>, name: Seq<char>)
    ensures
        forall|x: Seq<char>| favorite_ids(remove_first_id(s, name)).contains(x) ==> favorite_ids(
            s,
        ).contains(x),
    decreases s.len(),
{
    if s.len() > 0 {
        let tail = s.drop_first();
        let ids = favorite_ids(s);
        let r = remove_first_id(s, name);
        assert(favorite_ids(tail) =~= ids.drop_first());
        lemma_remove_first_id_subset(tail, name);
        if s[0].id_spec() == name {
            assert(r == tail);
            assert forall|x: Seq<char>| favorite_ids(r).contains(x) implies ids.contains(x) by {
                let k = choose|k: int| 0 <= k < favorite_ids(r).len() && favorite_ids(r)[k] == x;
                assert(ids[k + 1] == x);
            }
        } else {
            let rt = remove_first_id(tail, name);
            assert(r == seq![s[0]] + rt);
            assert(favorite_ids(r) =~= seq![s[0].id_spec()] + favorite_ids(rt));
            assert forall|x: Seq<char>| favorite_ids(r).contains(x) implies ids.contains(x) by {
                let k = choose|k: int| 0 <= k < favorite_ids(r).len() && favorite_ids(r)[k] == x;
                if k == 0 {
                    assert(ids[0] == x);
                } else {
                    assert(favorite_ids(rt)[k - 1] == x);
                    assert(favorite_ids(rt).contains(x));
                    assert(favorite_ids(tail).contains(x));
                    let j = choose|j: int|
                        0 <= j < favorite_ids(tail).len() && favorite_ids(tail)[j] == x;
                    assert(ids[j + 1] == x);
                }
            }
        }
    }
}

} // verus!
