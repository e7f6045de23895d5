//! The command line: its commands and arguments, and the decisions of the
//! `init` command.

use vstd::prelude::*;
use crate::git_url::{normalized_url, url_kind_of, GitUrl};
use crate::graphql::{messages, IncreaseTemplateVariables, QueryTemplate, QueryTemplateVariables, Template};
use crate::numbers::{parse_i32, parse_i32_spec, ParseIntError};
use crate::paths::{parent_of, path_parent};
use crate::text::{concat2, owned, path_join, path_join_str, str_eq};
use crate::upload::UploadArgs;

verus! {

/// The template server.
pub const CARGO_ACTIONS_URL: &'static str = "https://actions-workflow.shuttleapp.rs";

/// `cargo actions ...`
#[derive(Debug, Clone)]
pub enum CargoAction {
    Actions(ActionsArgs),
}

/// The actions the tool performs.
#[derive(Debug, Clone)]
pub enum ActionsArgs {
    /// Initializes a new GitHub Actions workflow in your project.
    Init(InitArgs),
    /// Authenticates the user with GitHub.
    Login,
    /// Uploads a custom template to Cargo Actions for future use.
    Upload(UploadArgs),
    /// Initializes a GitHub Actions workflow based on a template saved by the user.
    Mine,
    /// Initializes a GitHub Actions workflow using a template from the user's favorites.
    Favorite,
}

/// The arguments of `init`.
#[derive(Debug, Clone)]
pub struct InitArgs {
    /// The GitHub name or address of the repository holding the actions.
    pub url: Option<String>,
    /// The sub-path of the actions in the repository.
    pub subpath: Option<String>,
    /// Use the favourites instead.
    pub favorite: bool,
    /// Read the argument as the identifier of a template on the server.
    pub id: bool,
}

/// The arguments of `mine`.
#[derive(Debug, Clone)]
pub struct MineArgs {
    pub favorite: bool,
}

/// The arguments of `check`.
#[derive(Debug, Clone)]
pub struct CheckArgs {
    /// The directory of the action to check.
    pub path: Option<String>,
}

/// An entry met while walking a clone: its file name and its path.
#[derive(Debug, Clone)]
pub struct WalkEntry {
    pub name: String,
    pub path: String,
}

/// Why `init` stopped.
#[derive(Debug, Clone)]
pub enum InitError {
    /// The repository could not be cloned, for the given reason.
    CloneFailed(String),
    /// A configuration file has no parent directory.
    ParentNotFound,
    /// No action was found in the repository with this address.
    NoActions(String),
}

impl InitError {
    /// The text of the error, as the user sees it.
    pub open spec fn message_spec(&self) -> Seq<char> {
        match self {
            InitError::CloneFailed(e) => "Please check if the Git user / repository exists. \n Failed to download actions from github: "@
                + e@,
            InitError::ParentNotFound => "cargo-action.json parent not found"@,
            InitError::NoActions(url) => "No cargo action found in "@ + url@,
        }
    }

    /// The text of the error, as the user sees it.
    pub fn message(&self) -> (r: String)
        ensures
            r@ == self.message_spec(),
    {
        match self {
            InitError::CloneFailed(e) => concat2(
                "Please check if the Git user / repository exists. \n Failed to download actions from github: ",
                e.as_str(),
            ),
            InitError::ParentNotFound => owned("cargo-action.json parent not found"),
            InitError::NoActions(url) => concat2("No cargo action found in ", url.as_str()),
        }
    }
}

/// The query for the server template whose identifier is the text `id`;
/// fails as reading `id` as an `i32` fails.
pub fn use_template_id(id: &str) -> (r: Result<QueryTemplateVariables, ParseIntError>)
    ensures
        match parse_i32_spec(id@) {
            Ok(v) => r matches Ok(q) && q.id == v,
            Err(e) => r == Err::<QueryTemplateVariables, ParseIntError>(e),
        },
{
    match parse_i32(id) {
        Ok(v) => Ok(QueryTemplateVariables { id: v }),
        Err(e) => Err(e),
    }
}

/// The message shown when the server has no template `id`.
pub fn template_not_found(id: &str) -> (r: String)
    ensures
        r@ == "template "@ + id@ + " not found"@,
{
    crate::text::concat3("template ", id, " not found")
}

/// What `init` does with the server's answer to the template query.
#[derive(Debug, Clone)]
pub struct TemplateIdPlan {
    /// The answer carried data: `download template success` is shown.
    pub downloaded: bool,
    /// The template to render and write.
    pub found: Option<Template>,
    /// The message shown when the server has no such template.
    pub not_found: Option<String>,
    /// The server's error messages, shown in order.
    pub errors: Vec<String>,
    /// The download count, sent whatever the answer.
    pub count: IncreaseTemplateVariables,
}

/// Reads the server's answer to the query `query` for the template whose
/// identifier is the text `id`: its `data` and its `errors`. Data tells of
/// a successful download and holds the template, or none, which is
/// reported as not found; every error is shown; the download of `query.id`
/// is counted in every case.
pub fn template_id_reply(
    query: &QueryTemplateVariables,
    id: &str,
    data: Option<QueryTemplate>,
    errors: &Vec<String>,
) -> (r: TemplateIdPlan)
    ensures
        r.downloaded == data is Some,
        r.found == (match data {
            Some(q) => q.template_by_id,
            None => None,
        }),
        r.not_found is Some <==> (data is Some && data->0.template_by_id is None),
        r.not_found matches Some(m) ==> m@ == "template "@ + id@ + " not found"@,
        messages(r.errors@) == messages(errors@),
        r.count.id == query.id,
{
    let mut shown: Vec<String> = Vec::new();
    let mut i: usize = 0;
    while i < errors.len()
        invariant
            i <= errors@.len(),
            shown@.len() == i,
            forall|j: int| 0 <= j < i ==> #[trigger] shown@[j]@ == errors@[j]@,
        decreases errors@.len() - i,
    {
        shown.push(owned(errors[i].as_str()));
        i = i + 1;
    }
    assert(messages(shown@) =~= messages(errors@));
    let downloaded = data.is_some();
    let (found, not_found) = match data {
        Some(q) => match q.template_by_id {
            Some(t) => (Some(t), None),
            None => (None, Some(template_not_found(id))),
        },
        None => (None, None),
    };
    TemplateIdPlan {
        downloaded,
        found,
        not_found,
        errors: shown,
        count: IncreaseTemplateVariables { id: query.id },
    }
}

/// Where `init` takes its workflow from.
#[derive(Debug, Clone)]
pub enum InitSource {
    /// The favourites.
    Favorites,
    /// The template on the server that this query asks for.
    Server(QueryTemplateVariables),
    /// The repository at this address.
    Repository(GitUrl),
}

/// What `init` does once the actions in the repository are read.
#[derive(Debug, Clone, Copy, PartialEq, Eq, Structural)]
pub enum InitPlan {
    /// Write the only action found.
    Single,
    /// Let the user pick among the actions found.
    Choose,
}

impl InitArgs {
    /// The repository to take actions from: the argument read as an
    /// address; `None` when the favourites are used instead.
    pub fn source(&self) -> (r: Option<GitUrl>)
        requires
            !self.favorite ==> self.url is Some,
        ensures
            self.favorite ==> r is None,
            !self.favorite ==> (r matches Some(u) && u.url() == normalized_url(self.url->0@)
                && u.kind_spec() == url_kind_of(self.url->0@)),
    {
        if self.favorite {
            None
        } else {
            Some(GitUrl::from(self.url.as_ref().unwrap().as_str()))
        }
    }

    /// Where the workflow comes from: the favourites when asked for; else,
    /// with `-i`, the server template whose identifier is the argument,
    /// which must read as an `i32`; else the repository the argument names.
    pub fn init_source(&self) -> (r: Result<InitSource, ParseIntError>)
        requires
            !self.favorite ==> self.url is Some,
        ensures
            self.favorite ==> (r matches Ok(InitSource::Favorites)),
            !self.favorite && self.id ==> match parse_i32_spec(self.url->0@) {
                Ok(v) => (r matches Ok(InitSource::Server(q)) && q.id == v),
                Err(e) => r == Err::<InitSource, ParseIntError>(e),
            },
            !self.favorite && !self.id ==> (r matches Ok(InitSource::Repository(u)) && u.url()
                == normalized_url(self.url->0@) && u.kind_spec() == url_kind_of(self.url->0@)),
    {
        if self.favorite {
            Ok(InitSource::Favorites)
        } else if self.id {
            match use_template_id(self.url.as_ref().unwrap().as_str()) {
                Ok(q) => Ok(InitSource::Server(q)),
                Err(e) => Err(e),
            }
        } else {
            Ok(InitSource::Repository(GitUrl::from(self.url.as_ref().unwrap().as_str())))
        }
    }

    /// Where to look for actions in a clone made in `clone_dir`: the
    /// sub-path, if one is given, under the clone.
    pub fn search_root(&self, clone_dir: &str) -> (r: String)
        ensures
            self.subpath matches Some(sp) ==> r@ == path_join(clone_dir@, sp@),
            self.subpath is None ==> r@ == clone_dir@,
    {
        match &self.subpath {
            Some(sp) => path_join_str(clone_dir, sp.as_str()),
            None => owned(clone_dir),
        }
    }
}

/// The directories of the actions met while walking a clone: the parent of
/// every entry named `cargo-action.json`, in walking order; an error when
/// such an entry has no parent.
pub fn action_dirs(entries: &Vec<WalkEntry>) -> (r: Result<Vec<String>, InitError>)
    ensures
        r matches Ok(dirs) ==> {
            let named = entries@.filter(|e: WalkEntry| e.name@ == "cargo-action.json"@);
            &&& dirs@.len() == named.len()
            &&& forall|i: int|
                0 <= i < dirs@.len() ==> parent_of(named[i].path@) == Some(#[trigger] dirs@[i]@)
        },
        r is Err ==> (r matches Err(InitError::ParentNotFound) && exists|i: int|
            0 <= i < entries@.len() && entries@[i].name@ == "cargo-action.json"@ && parent_of(
                entries@[i].path@,
            ) is None),
{
    let ghost pred = |e: WalkEntry| e.name@ == "cargo-action.json"@;
    let mut dirs: Vec<String> = Vec::new();
    let mut i: usize = 0;
    assert(entries@.take(0) =~= Seq::<WalkEntry>::empty());
    while i < entries.len()
        invariant
            i <= entries@.len(),
            pred == (|e: WalkEntry| e.name@ == "cargo-action.json"@),
            dirs@.len() == entries@.take(i as int).filter(pred).len(),
            forall|k: int|
                0 <= k < dirs@.len() ==> parent_of(entries@.take(i as int).filter(pred)[k].path@)
                    == Some(#[trigger] dirs@[k]@),
        decreases entries@.len() - i,
    {
        proof {
            assert(entries@.take(i + 1).drop_last() =~= entries@.take(i as int));
            reveal_with_fuel(Seq::<_>::filter, 1);
        }
        if str_eq(entries[i].name.as_str(), "cargo-action.json") {
            match path_parent(entries[i].path.as_str()) {
                Some(dir) => {
                    dirs.push(dir);
                },
                None => {
                    return Err(InitError::ParentNotFound);
                },
            }
        }
        i = i + 1;
    }
    assert(entries@.take(entries@.len() as int) =~= entries@);
    Ok(dirs)
}

/// What `init` does with the actions it read from the repository `url`:
/// none is an error, one is written, several are offered to choose from.
pub fn init_plan(found: usize, url: &GitUrl) -> (r: Result<InitPlan, InitError>)
    ensures
        found == 0 ==> (r matches Err(InitError::NoActions(u)) && u@ == url.url()),
        found == 1 ==> r == Ok::<InitPlan, InitError>(InitPlan::Single),
        found > 1 ==> r == Ok::<InitPlan, InitError>(InitPlan::Choose),
{
    if found == 0 {
        Err(InitError::NoActions(url.to_string()))
    } else if found == 1 {
        Ok(InitPlan::Single)
    } else {
        Ok(InitPlan::Choose)
    }
}

} // verus!
