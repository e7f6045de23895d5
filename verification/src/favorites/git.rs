//! Favourites kept in git repositories.

use vstd::prelude::*;
use crate::digest::{md5_hex, md5_id};
use crate::favorites::local::picked;
use crate::favorites::{
    clone_opt, collect_actions, copy_plan_fails, copy_plan_ok, make_copy_plan, same_opt,
    ActionEntry, ConfigWrite, CopyPlan, FavoriteError, FavoriteGit, FavoriteMeta,
};
use crate::git_url::{normalized_url, CloneRequest, GitUrl};
use crate::paths::{file_name_of, parent_of, path_parent};
use crate::text::{
    concat3, owned, path_join, path_join_str, remove_all, remove_all_str, remove_first,
    remove_first_str,
};

verus! {

/// The path of a found configuration relative to the clone directory
/// `clone_dir`: every occurrence of the clone directory removed, then the
/// first `/`.
pub open spec fn relative_to_clone(config_file: Seq<char>, clone_dir: Seq<char>) -> Seq<char> {
    remove_first(remove_all(config_file, clone_dir), "/"@)
}

/// Where a configuration found in a clone comes from: the repository
/// address, a `/`, and the configuration's path in the repository.
pub open spec fn git_origin_path(url: Seq<char>, relative: Seq<char>) -> Seq<char> {
    url + "/"@ + relative
}

/// `out` is the favourite (and its copy, when `copy` is asked) made from the
/// action `a`, found in a clone of `fav`'s repository in `clone_dir`, with
/// copies going to the favourites directory of `home`.
pub open spec fn generated_git(
    fav: FavoriteGit,
    copy: bool,
    home: Seq<char>,
    clone_dir: Seq<char>,
    a: ActionEntry,
    out: (FavoriteGit, Option<CopyPlan>),
) -> bool {
    let relative = relative_to_clone(a.config_file@, clone_dir);
    let id = md5_id(git_origin_path(fav.url@, relative));
    &&& out.0.url@ == fav.url@
    &&& out.0.subpath matches Some(sp) && sp@ == relative
    &&& out.0.meta.id@ == id
    &&& out.0.meta.origin@ == normalized_url(fav.url@)
    &&& out.0.meta.description@ == a.description@
    &&& same_opt(out.0.meta.author, a.author)
    &&& if copy {
        &&& out.1 matches Some(p)
        &&& copy_plan_ok(home, id, a.config_file@, a.template@, p)
        &&& out.0.path matches Some(path) && path@ == p.config_to@
    } else {
        &&& out.1 is None
        &&& same_opt(out.0.path, fav.path)
    }
}

/// `p` occurs somewhere in `t`.
pub open spec fn occurs_in(t: Seq<char>, p: Seq<char>) -> bool {
    exists|i: int| 0 <= i && i + p.len() <= t.len() && #[trigger] t.subrange(i, i + p.len()) == p
}

proof fn lemma_remove_all_absent(t: Seq<char>, p: Seq<char>)
    requires
        p.len() > 0,
        !occurs_in(t, p),
    ensures
        remove_all(t, p) == t,
    decreases t.len(),
{
    if t.len() >= p.len() {
        assert(t.take(p.len() as int) =~= t.subrange(0, p.len() as int));
        assert(t.subrange(0, 0 + p.len() as int) != p);
        assert(t.take(p.len() as int) != p);
        let u = t.drop_first();
        assert forall|i: int| 0 <= i && i + p.len() <= u.len() implies #[trigger] u.subrange(
            i,
            i + p.len(),
        ) != p by {
            assert(u.subrange(i, i + p.len()) =~= t.subrange(i + 1, i + 1 + p.len()));
        }
        lemma_remove_all_absent(u, p);
        assert(seq![t[0]] + u =~= t);
    }
}

/// The sub-path recorded for a favourite found in a clone is the
/// configuration's path inside the repository: for a configuration at
/// `clone_dir/rel`, where the clone directory does not occur again, it is
/// `rel`.
pub proof fn law_relative_path_in_clone(clone_dir: Seq<char>, rel: Seq<char>)
    requires
        clone_dir.len() > 0,
        !occurs_in(seq!['/'] + rel, clone_dir),
    ensures
        relative_to_clone(clone_dir + seq!['/'] + rel, clone_dir) == rel,
{
    reveal_strlit("/");
    let full = clone_dir + seq!['/'] + rel;
    let tail = seq!['/'] + rel;
    assert(full =~= clone_dir + tail);
    assert(full.take(clone_dir.len() as int) =~= clone_dir);
    assert(full.skip(clone_dir.len() as int) =~= tail);
    lemma_remove_all_absent(tail, clone_dir);
    assert(remove_all(full, clone_dir) == tail);
    assert("/"@ =~= seq!['/']);
    assert(tail.take(1) =~= seq!['/']);
    assert(tail.skip(1) =~= rel);
}

/// What rendering a git favourite involves: a clone to make first, when no
/// local copy of the configuration exists, and the configuration to render.
#[derive(Debug, Clone)]
pub struct GitWrite {
    pub clone: Option<CloneRequest>,
    pub config: ConfigWrite,
}

impl FavoriteGit {
    /// A favourite for the repository `url`, not yet filled in.
    pub fn new(url: &str, subpath: Option<String>) -> (r: FavoriteGit)
        ensures
            r.url@ == url@,
            r.path is None,
            r.subpath == subpath,
            r.meta.id@ == Seq::<char>::empty(),
            r.meta.origin@ == Seq::<char>::empty(),
            r.meta.description@ == Seq::<char>::empty(),
            r.meta.author is None,
    {
        FavoriteGit { path: None, subpath, url: owned(url), meta: FavoriteMeta::default() }
    }

    /// The path to search for actions in a clone made in `clone_dir`: the
    /// sub-path, if one is given, under the clone.
    pub fn search_root(&self, clone_dir: &str) -> (r: String)
        ensures
            self.subpath matches Some(sp) ==> r@ == path_join(clone_dir@, sp@),
            self.subpath is None ==> r@ == clone_dir@,
    {
        match &self.subpath {
            Some(sp) => path_join_str(clone_dir, sp.as_str()),
            None => owned(clone_dir),
        }
    }

    /// The clone that finding this favourite's actions starts with.
    pub fn clone_request(&self, clone_dir: &str) -> (r: CloneRequest)
        ensures
            r.url@ == normalized_url(self.url@),
            r.path@ == clone_dir@,
            r.branch@ == "master"@,
    {
        GitUrl::from(self.url.as_str()).clone(clone_dir)
    }

    /// The action configurations in the clone, given what a search of
    /// `search_root(clone_dir)` found (see `collect_actions`).
    pub fn find_actions(&self, clone_dir: &str, is_dir: bool, found: Vec<String>) -> (r: Result<
        Vec<String>,
        FavoriteError,
    >)
        ensures
            is_dir && found@.len() > 0 ==> (r matches Ok(v) && v@ == found@),
            is_dir && found@.len() == 0 ==> r matches Err(FavoriteError::NoActions),
            !is_dir ==> ({
                let root = if self.subpath is Some {
                    path_join(clone_dir@, self.subpath->0@)
                } else {
                    clone_dir@
                };
                &&& file_name_of(root) == Some("cargo-action.json"@) ==> (r matches Ok(v)
                    && v@.len() == 1 && v@[0]@ == root)
                &&& file_name_of(root) != Some("cargo-action.json"@) ==> r matches Err(
                    FavoriteError::NoActions,
                )
            }),
    {
        let root = self.search_root(clone_dir);
        collect_actions(root.as_str(), is_dir, found)
    }

    /// A copy of this favourite.
    pub fn duplicate(&self) -> (r: FavoriteGit)
        ensures
            r.url@ == self.url@,
            same_opt(r.path, self.path),
            same_opt(r.subpath, self.subpath),
            r.meta.same_as(self.meta),
    {
        FavoriteGit {
            url: owned(self.url.as_str()),
            path: clone_opt(&self.path),
            subpath: clone_opt(&self.subpath),
            meta: self.meta.duplicate(),
        }
    }

    /// Makes the favourite for the action `a` found in a clone of this
    /// repository in `clone_dir`; with `copy`, also plans the copy of the
    /// action into the favourites directory of `home`, and the favourite
    /// then points at the copied configuration. Fails only when the copy
    /// cannot be planned.
    pub fn gen_favorite(&self, copy: bool, home: &str, clone_dir: &str, a: &ActionEntry) -> (r:
        Option<(FavoriteGit, Option<CopyPlan>)>)
        ensures
            r is None <==> copy && copy_plan_fails(a.config_file@, a.template@),
            r matches Some(out) ==> generated_git(*self, copy, home@, clone_dir@, *a, out),
    {
        let mut favorite = self.duplicate();
        let stripped = remove_all_str(a.config_file.as_str(), clone_dir);
        let relative = remove_first_str(stripped.as_str(), "/");
        let origin_path = concat3(self.url.as_str(), "/", relative.as_str());
        let id = md5_hex(origin_path.as_str());
        favorite.subpath = Some(relative);
        favorite.meta.set_id(id.as_str());
        let mut plan: Option<CopyPlan> = None;
        if copy {
            match make_copy_plan(home, id.as_str(), a.config_file.as_str(), a.template.as_str()) {
                Some(p) => {
                    favorite.path = Some(owned(p.config_to.as_str()));
                    plan = Some(p);
                },
                None => {
                    return None;
                },
            }
        }
        favorite.meta.author = clone_opt(&a.author);
        let git_url = GitUrl::from(self.url.as_str());
        let origin = git_url.to_string();
        favorite.meta.set_origin(origin.as_str());
        favorite.meta.set_describe(a.description.as_str());
        Some((favorite, plan))
    }

    /// Makes the favourites for the actions found in a clone made in
    /// `clone_dir`: the only one when there is one, otherwise each action
    /// the user `chosen`, in that order. Fails when any of them fails.
    pub fn select(
        &self,
        copy: bool,
        home: &str,
        clone_dir: &str,
        actions: &Vec<ActionEntry>,
        chosen: &Vec<usize>,
    ) -> (r: Option<Vec<(FavoriteGit, Option<CopyPlan>)>>)
        requires
            actions@.len() != 1 ==> forall|k: int|
                0 <= k < chosen@.len() ==> chosen@[k] < actions@.len(),
        ensures
            r is Some <==> forall|k: int|
                0 <= k < picked(actions@.len(), chosen@).len() ==> !(copy && copy_plan_fails(
                    actions@[#[trigger] picked(actions@.len(), chosen@)[k] as int].config_file@,
                    actions@[picked(actions@.len(), chosen@)[k] as int].template@,
                )),
            r matches Some(v) ==> {
                &&& v@.len() == picked(actions@.len(), chosen@).len()
                &&& forall|k: int|
                    0 <= k < v@.len() ==> generated_git(
                        *self,
                        copy,
                        home@,
                        clone_dir@,
                        actions@[picked(actions@.len(), chosen@)[k] as int],
                        #[trigger] v@[k],
                    )
            },
    {
        let mut idx: Vec<usize> = Vec::new();
        if actions.len() == 1 {
            idx.push(0);
        } else {
            let mut j: usize = 0;
            while j < chosen.len()
                invariant
                    j <= chosen@.len(),
                    idx@ == chosen@.take(j as int),
                decreases chosen@.len() - j,
            {
                idx.push(chosen[j]);
                assert(chosen@.take(j + 1) =~= chosen@.take(j as int).push(chosen@[j as int]));
                j = j + 1;
            }
            assert(chosen@.take(chosen@.len() as int) =~= chosen@);
        }
        let ghost pk = picked(actions@.len(), chosen@);
        assert(idx@ =~= pk);
        let mut res: Vec<(FavoriteGit, Option<CopyPlan>)> = Vec::new();
        let mut k: usize = 0;
        while k < idx.len()
            invariant
                idx@ == pk,
                pk == picked(actions@.len(), chosen@),
                forall|t: int| 0 <= t < pk.len() ==> #[trigger] pk[t] < actions@.len(),
                k <= idx@.len(),
                res@.len() == k,
                forall|t: int|
                    0 <= t < k ==> !(copy && copy_plan_fails(
                        actions@[#[trigger] pk[t] as int].config_file@,
                        actions@[pk[t] as int].template@,
                    )),
                forall|t: int|
                    0 <= t < k ==> generated_git(
                        *self,
                        copy,
                        home@,
                        clone_dir@,
                        actions@[pk[t] as int],
                        #[trigger] res@[t],
                    ),
            decreases idx@.len() - k,
        {
            match self.gen_favorite(copy, home, clone_dir, &actions[idx[k]]) {
                Some(out) => {
                    res.push(out);
                },
                None => {
                    return None;
                },
            }
            k = k + 1;
        }
        Some(res)
    }

    /// What rendering this favourite involves. With a local copy, its
    /// configuration is rendered from there; otherwise the repository is
    /// cloned into `clone_dir` first and the configuration at the sub-path
    /// in the clone is rendered. `None` when the configuration's path has
    /// no parent.
    pub fn write(&self, clone_dir: &str) -> (r: Option<GitWrite>)
        requires
            self.path is Some || self.subpath is Some,
        ensures
            ({
                let file = if self.path is Some {
                    self.path->0@
                } else {
                    path_join(clone_dir@, self.subpath->0@)
                };
                &&& r is None <==> parent_of(file) is None
                &&& r matches Some(w) ==> {
                    &&& w.config.config_file@ == file
                    &&& parent_of(file) == Some(w.config.base_dir@)
                    &&& (self.path is Some <==> w.clone is None)
                    &&& w.clone matches Some(c) ==> c.url@ == normalized_url(self.url@)
                        && c.path@ == clone_dir@ && c.branch@ == "master"@
                }
            }),
    {
        let (file, clone) = match &self.path {
            Some(p) => (owned(p.as_str()), None),
            None => {
                let sp = self.subpath.as_ref().unwrap();
                (path_join_str(clone_dir, sp.as_str()), Some(self.clone_request(clone_dir)))
            },
        };
        match path_parent(file.as_str()) {
            Some(dir) => Some(
                GitWrite { clone, config: ConfigWrite { config_file: file, base_dir: dir } },
            ),
            None => None,
        }
    }
}

} // verus!
