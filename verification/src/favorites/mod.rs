//! Favourite workflow templates: their records, the favourites list, how a
//! favourite is made from a found action, and the `favorite` sub-commands.

pub mod commands;
pub mod config;
pub mod git;
pub mod local;

use vstd::prelude::*;
use crate::paths::{file_name_of, parent_of, path_file_name, path_parent};
use crate::text::{concat2, owned, path_join, path_join_str, str_eq};

verus! {

/// What is recorded of every favourite.
#[derive(Debug, Clone)]
pub struct FavoriteMeta {
    pub id: String,
    pub origin: String,
    pub description: String,
    pub author: Option<String>,
}

/// A copy of an optional string.
pub fn clone_opt(s: &Option<String>) -> (r: Option<String>)
    ensures
        r matches Some(x) ==> s matches Some(y) && x@ == y@,
        r is None <==> s is None,
{
    match s {
        Some(x) => Some(owned(x.as_str())),
        None => None,
    }
}

/// Two optional strings hold the same text.
pub open spec fn same_opt(a: Option<String>, b: Option<String>) -> bool {
    match (a, b) {
        (Some(x), Some(y)) => x@ == y@,
        (None, None) => true,
        _ => false,
    }
}

impl FavoriteMeta {
    /// The record of a favourite not yet filled in: empty texts, no author.
    pub fn default() -> (r: FavoriteMeta)
        ensures
            r.id@ == Seq::<char>::empty(),
            r.origin@ == Seq::<char>::empty(),
            r.description@ == Seq::<char>::empty(),
            r.author is None,
    {
        FavoriteMeta {
            id: String::new(),
            origin: String::new(),
            description: String::new(),
            author: None,
        }
    }

    /// This record and `other` hold the same texts.
    pub open spec fn same_as(&self, other: FavoriteMeta) -> bool {
        &&& self.id@ == other.id@
        &&& self.origin@ == other.origin@
        &&& self.description@ == other.description@
        &&& same_opt(self.author, other.author)
    }

    /// A copy of this record.
    pub fn duplicate(&self) -> (r: FavoriteMeta)
        ensures
            r.same_as(*self),
    {
        FavoriteMeta {
            id: owned(self.id.as_str()),
            origin: owned(self.origin.as_str()),
            description: owned(self.description.as_str()),
            author: clone_opt(&self.author),
        }
    }

    /// Sets the identifier; the other fields stay.
    pub fn set_id(&mut self, id: &str) -> (r: &mut Self)
        ensures
            r.id@ == id@,
            r.origin == old(self).origin,
            r.description == old(self).description,
            r.author == old(self).author,
            *final(self) == *final(r),
    {
        self.id = owned(id);
        self
    }

    /// Sets the origin; the other fields stay.
    pub fn set_origin(&mut self, origin: &str) -> (r: &mut Self)
        ensures
            r.origin@ == origin@,
            r.id == old(self).id,
            r.description == old(self).description,
            r.author == old(self).author,
            *final(self) == *final(r),
    {
        self.origin = owned(origin);
        self
    }

    /// Sets the description; the other fields stay.
    pub fn set_describe(&mut self, describe: &str) -> (r: &mut Self)
        ensures
            r.description@ == describe@,
            r.id == old(self).id,
            r.origin == old(self).origin,
            r.author == old(self).author,
            *final(self) == *final(r),
    {
        self.description = owned(describe);
        self
    }
}

/// A favourite kept in a git repository.
#[derive(Debug, Clone)]
pub struct FavoriteGit {
    pub url: String,
    /// Where a local copy of its configuration lives, if one was made.
    pub path: Option<String>,
    /// The configuration file's path inside the repository.
    pub subpath: Option<String>,
    pub meta: FavoriteMeta,
}

/// A favourite kept on the local file system.
#[derive(Debug, Clone)]
pub struct FavoriteLocal {
    /// The path of its configuration file.
    pub path: String,
    pub meta: FavoriteMeta,
}

/// A favourite.
#[derive(Debug, Clone)]
pub enum Favorite {
    Git(FavoriteGit),
    Local(FavoriteLocal),
}

impl Favorite {
    /// The identifier of this favourite.
    pub open spec fn id_spec(&self) -> Seq<char> {
        match self {
            Favorite::Git(git) => git.meta.id@,
            Favorite::Local(local) => local.meta.id@,
        }
    }

    /// The identifier of this favourite.
    pub fn get_id(&self) -> (r: &str)
        ensures
            r@ == self.id_spec(),
    {
        match self {
            Favorite::Git(git) => git.meta.id.as_str(),
            Favorite::Local(local) => local.meta.id.as_str(),
        }
    }
}

/// An action configuration (`cargo-action.json`) found on disk, with the
/// fields of it that a favourite records.
#[derive(Debug, Clone)]
pub struct ActionEntry {
    /// The path of the configuration file.
    pub config_file: String,
    /// The template path the configuration names, relative to its directory.
    pub template: String,
    pub author: Option<String>,
    pub description: String,
}

/// The copy of an action into the favourites directory: the template file
/// to copy and where to, and where the rewritten configuration goes, naming
/// the copied template by `template_name`.
#[derive(Debug, Clone)]
pub struct CopyPlan {
    pub template_from: String,
    pub template_to: String,
    pub config_to: String,
    pub template_name: String,
}

/// A configuration to render: the configuration file and the directory its
/// template paths are relative to.
#[derive(Debug, Clone)]
pub struct ConfigWrite {
    pub config_file: String,
    pub base_dir: String,
}

/// The directory that holds copied favourites, under the home directory.
pub open spec fn favorites_home(home: Seq<char>) -> Seq<char> {
    path_join(home, ".cargo-actions"@)
}

/// `plan` is the copy, into the favourites directory of `home` under the
/// identifier `id`, of the action whose configuration is `config_file` and
/// whose template is `template`.
pub open spec fn copy_plan_ok(
    home: Seq<char>,
    id: Seq<char>,
    config_file: Seq<char>,
    template: Seq<char>,
    plan: CopyPlan,
) -> bool {
    &&& parent_of(config_file) matches Some(dir)
    &&& file_name_of(path_join(dir, template)) matches Some(name)
    &&& plan.template_from@ == path_join(dir, template)
    &&& plan.template_name@ == name
    &&& plan.template_to@ == path_join(path_join(favorites_home(home), id), name)
    &&& plan.config_to@ == path_join(path_join(favorites_home(home), id), "cargo-action.json"@)
}

/// No copy can be planned: the configuration file has no parent directory,
/// or the template path has no file name.
pub open spec fn copy_plan_fails(config_file: Seq<char>, template: Seq<char>) -> bool {
    match parent_of(config_file) {
        None => true,
        Some(dir) => file_name_of(path_join(dir, template)) is None,
    }
}

/// Plans the copy of an action into the favourites directory.
pub fn make_copy_plan(home: &str, id: &str, config_file: &str, template: &str) -> (r: Option<
    CopyPlan,
>)
    ensures
        r matches Some(p) ==> copy_plan_ok(home@, id@, config_file@, template@, p),
        r is None <==> copy_plan_fails(config_file@, template@),
{
    let dir = match path_parent(config_file) {
        Some(d) => d,
        None => return None,
    };
    let template_from = path_join_str(dir.as_str(), template);
    let name = match path_file_name(template_from.as_str()) {
        Some(n) => n,
        None => return None,
    };
    let fav_home = path_join_str(home, ".cargo-actions");
    let target_dir = path_join_str(fav_home.as_str(), id);
    let template_to = path_join_str(target_dir.as_str(), name.as_str());
    let config_to = path_join_str(target_dir.as_str(), "cargo-action.json");
    Some(CopyPlan { template_from, template_to, config_to, template_name: name })
}

/// The pattern that finds every action configuration under `root`.
pub fn action_glob(root: &str) -> (r: String)
    ensures
        r@ == root@ + "/**/cargo-action.json"@,
{
    concat2(root, "/**/cargo-action.json")
}

/// The action configurations to use, given the searched path: every file
/// the search found when the path is a directory, or the path itself when
/// it names a `cargo-action.json`; none found is an error.
pub fn collect_actions(root: &str, is_dir: bool, found: Vec<String>) -> (r: Result<
    Vec<String>,
    FavoriteError,
>)
    ensures
        is_dir && found@.len() > 0 ==> (r matches Ok(v) && v@ == found@),
        is_dir && found@.len() == 0 ==> r matches Err(FavoriteError::NoActions),
        !is_dir && file_name_of(root@) == Some("cargo-action.json"@) ==> (r matches Ok(v)
            && v@.len() == 1 && v@[0]@ == root@),
        !is_dir && file_name_of(root@) != Some("cargo-action.json"@) ==> r matches Err(
            FavoriteError::NoActions,
        ),
{
    if is_dir {
        if found.len() == 0 {
            return Err(FavoriteError::NoActions);
        }
        return Ok(found);
    }
    match path_file_name(root) {
        Some(name) => {
            if str_eq(name.as_str(), "cargo-action.json") {
                let mut v = Vec::new();
                v.push(owned(root));
                Ok(v)
            } else {
                Err(FavoriteError::NoActions)
            }
        },
        None => Err(FavoriteError::NoActions),
    }
}

/// Why a change to the favourites list was refused.
#[derive(Debug, Clone)]
pub enum FavoriteError {
    /// A favourite with this identifier is already in the list.
    AlreadyExists(String),
    /// No favourite has the identifier to remove.
    NotFound,
    /// No action configuration was found where one was looked for.
    NoActions,
}

impl FavoriteError {
    /// The text of the error, as the user sees it.
    pub open spec fn message_spec(&self) -> Seq<char> {
        match self {
            FavoriteError::AlreadyExists(id) => "The favorite "@ + id@ + " already exists"@,
            FavoriteError::NotFound => "favorite not found"@,
            FavoriteError::NoActions => "not found actions"@,
        }
    }

    /// The text of the error, as the user sees it.
    pub fn message(&self) -> (r: String)
        ensures
            r@ == self.message_spec(),
    {
        match self {
            FavoriteError::AlreadyExists(id) => crate::text::concat3(
                "The favorite ",
                id.as_str(),
                " already exists",
            ),
            FavoriteError::NotFound => owned("favorite not found"),
            FavoriteError::NoActions => owned("not found actions"),
        }
    }
}

} // verus!
