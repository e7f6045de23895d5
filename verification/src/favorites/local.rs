//! Favourites kept on the local file system.

use vstd::prelude::*;
use crate::digest::{md5_hex, md5_id};
use crate::favorites::{
    clone_opt, collect_actions, copy_plan_fails, copy_plan_ok, make_copy_plan, same_opt,
    ActionEntry, ConfigWrite, CopyPlan, FavoriteError, FavoriteLocal, FavoriteMeta,
};
use crate::paths::{file_name_of, parent_of, path_parent};
use crate::text::{owned, path_join, path_join_str};

verus! {

/// `out` is the favourite (and its copy, when `copy` is asked) made from the
/// action `a` in the favourites directory of `home`: its identifier is the
/// digest of the configuration's path, which is also its origin.
pub open spec fn generated_local(
    copy: bool,
    home: Seq<char>,
    a: ActionEntry,
    out: (FavoriteLocal, Option<CopyPlan>),
) -> bool {
    let id = md5_id(a.config_file@);
    &&& out.0.meta.id@ == id
    &&& out.0.meta.origin@ == a.config_file@
    &&& out.0.meta.description@ == a.description@
    &&& same_opt(out.0.meta.author, a.author)
    &&& if copy {
        &&& out.1 matches Some(p)
        &&& copy_plan_ok(home, id, a.config_file@, a.template@, p)
        &&& out.0.path@ == p.config_to@
    } else {
        &&& out.1 is None
        &&& out.0.path@ == a.config_file@
    }
}

/// The actions chosen from `n` found ones: the only one when there is one,
/// otherwise those the user picked.
pub open spec fn picked(n: nat, chosen: Seq<usize>) -> Seq<usize> {
    if n == 1 {
        seq![0usize]
    } else {
        chosen
    }
}

impl FavoriteLocal {
    /// A favourite for the configuration at `path`, not yet filled in.
    pub fn new(path: &str) -> (r: FavoriteLocal)
        ensures
            r.path@ == path@,
            r.meta.id@ == Seq::<char>::empty(),
            r.meta.origin@ == Seq::<char>::empty(),
            r.meta.description@ == Seq::<char>::empty(),
            r.meta.author is None,
    {
        FavoriteLocal { path: owned(path), meta: FavoriteMeta::default() }
    }

    /// The path to search for actions: this favourite's path, taken
    /// relative to the working directory `cwd` unless it is absolute.
    pub fn search_root(&self, cwd: &str) -> (r: String)
        ensures
            r@ == path_join(cwd@, self.path@),
    {
        let n = self.path.as_str().unicode_len();
        if n > 0 && self.path.as_str().get_char(0) == '/' {
            owned(self.path.as_str())
        } else {
            path_join_str(cwd, self.path.as_str())
        }
    }

    /// The action configurations under this favourite's path, given what a
    /// search of `search_root(cwd)` found (see `collect_actions`).
    pub fn find_actions(&self, cwd: &str, is_dir: bool, found: Vec<String>) -> (r: Result<
        Vec<String>,
        FavoriteError,
    >)
        ensures
            is_dir && found@.len() > 0 ==> (r matches Ok(v) && v@ == found@),
            is_dir && found@.len() == 0 ==> r matches Err(FavoriteError::NoActions),
            !is_dir && file_name_of(path_join(cwd@, self.path@)) == Some("cargo-action.json"@)
                ==> (r matches Ok(v) && v@.len() == 1 && v@[0]@ == path_join(cwd@, self.path@)),
            !is_dir && file_name_of(path_join(cwd@, self.path@)) != Some("cargo-action.json"@)
                ==> r matches Err(FavoriteError::NoActions),
    {
        let root = self.search_root(cwd);
        collect_actions(root.as_str(), is_dir, found)
    }

    /// Makes the favourite for the action `a`; with `copy`, also plans the
    /// copy of the action into the favourites directory of `home`, and the
    /// favourite then points at the copied configuration. Fails only when
    /// the copy cannot be planned.
    pub fn gen_favorite(&self, copy: bool, home: &str, a: &ActionEntry) -> (r: Option<
        (FavoriteLocal, Option<CopyPlan>),
    >)
        ensures
            r is None <==> copy && copy_plan_fails(a.config_file@, a.template@),
            r matches Some(out) ==> generated_local(copy, home@, *a, out),
    {
        let id = md5_hex(a.config_file.as_str());
        let mut meta = FavoriteMeta::default();
        meta.set_id(id.as_str());
        meta.set_origin(a.config_file.as_str());
        meta.set_describe(a.description.as_str());
        meta.author = clone_opt(&a.author);
        if copy {
            match make_copy_plan(home, id.as_str(), a.config_file.as_str(), a.template.as_str()) {
                Some(plan) => {
                    let fav = FavoriteLocal { path: owned(plan.config_to.as_str()), meta };
                    Some((fav, Some(plan)))
                },
                None => None,
            }
        } else {
            let fav = FavoriteLocal { path: owned(a.config_file.as_str()), meta };
            Some((fav, None))
        }
    }

    /// Makes the favourites for the found actions: the only one when there
    /// is one, otherwise each action the user `chosen`, in that order.
    /// Fails when any of them fails.
    pub fn select(&self, copy: bool, home: &str, actions: &Vec<ActionEntry>, chosen: &Vec<usize>) -> (r:
        Option<Vec<(FavoriteLocal, Option<CopyPlan>)>>)
        requires
            actions@.len() != 1 ==> forall|k: int|
                0 <= k < chosen@.len() ==> chosen@[k] < actions@.len(),
        ensures
            r is Some <==> forall|k: int|
                0 <= k < picked(actions@.len(), chosen@).len() ==> !(copy && copy_plan_fails(
                    actions@[#[trigger] picked(actions@.len(), chosen@)[k] as int].config_file@,
                    actions@[picked(actions@.len(), chosen@)[k] as int].template@,
                )),
            r matches Some(v) ==> {
                &&& v@.len() == picked(actions@.len(), chosen@).len()
                &&& forall|k: int|
                    0 <= k < v@.len() ==> generated_local(
                        copy,
                        home@,
                        actions@[picked(actions@.len(), chosen@)[k] as int],
                        #[trigger] v@[k],
                    )
            },
    {
        let mut idx: Vec<usize> = Vec::new();
        if actions.len() == 1 {
            idx.push(0);
        } else {
            let mut j: usize = 0;
            while j < chosen.len()
                invariant
                    j <= chosen@.len(),
                    idx@ == chosen@.take(j as int),
                decreases chosen@.len() - j,
            {
                idx.push(chosen[j]);
                assert(chosen@.take(j + 1) =~= chosen@.take(j as int).push(chosen@[j as int]));
                j = j + 1;
            }
            assert(chosen@.take(chosen@.len() as int) =~= chosen@);
        }
        let ghost pk = picked(actions@.len(), chosen@);
        assert(idx@ =~= pk);
        let mut res: Vec<(FavoriteLocal, Option<CopyPlan>)> = Vec::new();
        let mut k: usize = 0;
        while k < idx.len()
            invariant
                idx@ == pk,
                pk == picked(actions@.len(), chosen@),
                forall|t: int| 0 <= t < pk.len() ==> #[trigger] pk[t] < actions@.len(),
                k <= idx@.len(),
                res@.len() == k,
                forall|t: int|
                    0 <= t < k ==> !(copy && copy_plan_fails(
                        actions@[#[trigger] pk[t] as int].config_file@,
                        actions@[pk[t] as int].template@,
                    )),
                forall|t: int|
                    0 <= t < k ==> generated_local(
                        copy,
                        home@,
                        actions@[pk[t] as int],
                        #[trigger] res@[t],
                    ),
            decreases idx@.len() - k,
        {
            match self.gen_favorite(copy, home, &actions[idx[k]]) {
                Some(out) => {
                    res.push(out);
                },
                None => {
                    return None;
                },
            }
            k = k + 1;
        }
        Some(res)
    }

    /// What rendering this favourite involves: its configuration file and
    /// the directory that holds it; `None` when the path has no parent.
    pub fn write(&self) -> (r: Option<ConfigWrite>)
        ensures
            r matches Some(w) ==> w.config_file@ == self.path@ && parent_of(self.path@) == Some(
                w.base_dir@,
            ),
            r is None <==> parent_of(self.path@) is None,
    {
        match path_parent(self.path.as_str()) {
            Some(dir) => Some(ConfigWrite { config_file: owned(self.path.as_str()), base_dir: dir }),
            None => None,
        }
    }
}

} // verus!
