//! The `favorite add`, `favorite remove` and `favorite --list` commands:
//! which questions they ask and what they do to the favourites list.

use vstd::prelude::*;
use crate::favorites::config::{favorite_ids, law_add_keeps_ids_distinct, FavoriteConfig};
use crate::favorites::{Favorite, FavoriteError};
use crate::text::{concat3, owned};

verus! {

/// The arguments of `favorite add`.
#[derive(Debug, Clone)]
pub struct AddArgs {
    /// Where the favourite lives: a git address or a local path.
    pub url: Option<String>,
    /// The configuration's path inside the repository.
    pub subpath: Option<String>,
    /// The favourite lives on the local file system.
    pub local: bool,
    /// Copy the favourite into the favourites directory.
    pub copy: bool,
}

/// The questions `favorite add` may ask, in the order it asks them.
#[derive(Debug, Clone, Copy, PartialEq, Eq, Structural)]
pub enum AddStep {
    UseLocal,
    Location,
    Subpath,
    Copy,
}

/// A question to put to the user.
#[derive(Debug, Clone)]
pub enum Question {
    /// A yes/no question with its default answer.
    Confirm { prompt: String, default: bool },
    /// A text question; `allow_empty` accepts an empty answer.
    Input { prompt: String, allow_empty: bool },
}

/// An answer to a question.
#[derive(Debug, Clone)]
pub enum Answer {
    Yes(bool),
    Text(String),
}


/// "Use local path?" is never asked when `--local` was given, nor when a
/// sub-path was given; it is asked otherwise.
pub proof fn law_use_local_not_asked_with_local(args: AddArgs)
    ensures
        args.local ==> !args.asks(AddStep::UseLocal),
        args.subpath is Some ==> !args.asks(AddStep::UseLocal),
        !args.local && args.subpath is None ==> args.asks(AddStep::UseLocal),
{
}

impl AddArgs {
    /// Whether the question of `step` is asked, given the arguments so far:
    /// whether to use a local path when neither a sub-path nor `--local` was
    /// given; the location when none was given; the sub-path of a git
    /// favourite when none was given; whether to copy unless `--copy` was
    /// given.
    pub open spec fn asks(&self, step: AddStep) -> bool {
        match step {
            AddStep::UseLocal => self.subpath is None && !self.local,
            AddStep::Location => self.url is None,
            AddStep::Subpath => !self.local && self.subpath is None,
            AddStep::Copy => !self.copy,
        }
    }

    /// The question of `step`, when it is asked; `home` is the user's home
    /// directory, named in the copy question.
    pub fn question(&self, step: AddStep, home: &str) -> (r: Option<Question>)
        ensures
            r is Some <==> self.asks(step),
            step == AddStep::UseLocal && self.local ==> r is None,
            step == AddStep::UseLocal ==> (r is Some <==> (self.subpath is None && !self.local)),
            r matches Some(q) ==> match step {
                AddStep::UseLocal => q matches Question::Confirm { prompt, default } && prompt@
                    == "Use local path?"@ && !default,
                AddStep::Location => q matches Question::Input { prompt, allow_empty } && prompt@
                    == (if self.local {
                    "Enter the local path"@
                } else {
                    "Enter the git url"@
                }) && !allow_empty,
                AddStep::Subpath => q matches Question::Input { prompt, allow_empty } && prompt@
                    == "Enter the subpath"@ && allow_empty,
                AddStep::Copy => q matches Question::Confirm { prompt, default } && prompt@
                    == "Copy the favorite to the "@ + home@ + "/.cargo-actions?"@ && !default,
            },
    {
        match step {
            AddStep::UseLocal => {
                if self.subpath.is_none() && !self.local {
                    Some(Question::Confirm { prompt: owned("Use local path?"), default: false })
                } else {
                    None
                }
            },
            AddStep::Location => {
                if self.url.is_none() {
                    let prompt = if self.local {
                        owned("Enter the local path")
                    } else {
                        owned("Enter the git url")
                    };
                    Some(Question::Input { prompt, allow_empty: false })
                } else {
                    None
                }
            },
            AddStep::Subpath => {
                if !self.local && self.subpath.is_none() {
                    Some(Question::Input { prompt: owned("Enter the subpath"), allow_empty: true })
                } else {
                    None
                }
            },
            AddStep::Copy => {
                if !self.copy {
                    Some(
                        Question::Confirm {
                            prompt: concat3("Copy the favorite to the ", home, "/.cargo-actions?"),
                            default: false,
                        },
                    )
                } else {
                    None
                }
            },
        }
    }

    /// Records the answer to the question of `step`: a yes/no answer sets
    /// `local` or `copy`, a text answer sets the location or the sub-path.
    /// An answer of the other kind changes nothing.
    pub fn answer(&mut self, step: AddStep, answer: Answer)
        ensures
            match (step, answer) {
                (AddStep::UseLocal, Answer::Yes(b)) => *final(self) == (AddArgs { local: b, ..*old(self) }),
                (AddStep::Location, Answer::Text(t)) => final(self).url == Some(t) && final(self).subpath == old(self).subpath
                    && final(self).local == old(self).local && final(self).copy == old(self).copy,
                (AddStep::Subpath, Answer::Text(t)) => final(self).subpath == Some(t) && final(self).url == old(self).url
                    && final(self).local == old(self).local && final(self).copy == old(self).copy,
                (AddStep::Copy, Answer::Yes(b)) => *final(self) == (AddArgs { copy: b, ..*old(self) }),
                _ => *final(self) == *old(self),
            },
    {
        match (step, answer) {
            (AddStep::UseLocal, Answer::Yes(b)) => {
                self.local = b;
            },
            (AddStep::Location, Answer::Text(t)) => {
                self.url = Some(t);
            },
            (AddStep::Subpath, Answer::Text(t)) => {
                self.subpath = Some(t);
            },
            (AddStep::Copy, Answer::Yes(b)) => {
                self.copy = b;
            },
            _ => {},
        }
    }

    /// Adds each of the `selected` favourites to the list in turn and
    /// reports, for each, its identifier or why it was refused (see
    /// `FavoriteConfig::add_favorite`).
    pub fn add_favorites(&self, favorites: &mut FavoriteConfig, selected: Vec<Favorite>) -> (r: Vec<
        Result<String, FavoriteError>,
    >)
        ensures
            final(favorites)@ == add_all(old(favorites)@, selected@),
            r@.len() == selected@.len(),
            forall|i: int|
                0 <= i < r@.len() ==> {
                    let before = add_all(old(favorites)@, selected@.take(i));
                    let id = selected@[i].id_spec();
                    &&& !favorite_ids(before).contains(id) ==> (#[trigger] r@[i] matches Ok(x) && x@ == id)
                    &&& favorite_ids(before).contains(id) ==> (r@[i] matches Err(
                        FavoriteError::AlreadyExists(x),
                    ) && x@ == id)
                },
    {
        let ghost s0 = favorites@;
        let n = selected.len();
        let mut r: Vec<Result<String, FavoriteError>> = Vec::new();
        let mut i: usize = 0;
        assert(selected@.take(0) =~= Seq::<Favorite>::empty());
        let mut rest = selected;
        let ghost items = rest@;
        assert(items.skip(0) =~= items);
        while i < n
            invariant
                n == items.len(),
                i <= n,
                rest@ == items.skip(i as int),
                favorites@ == add_all(s0, items.take(i as int)),
                r@.len() == i,
                forall|k: int|
                    0 <= k < i ==> {
                        let before = add_all(s0, items.take(k));
                        let id = items[k].id_spec();
                        &&& !favorite_ids(before).contains(id) ==> (#[trigger] r@[k] matches Ok(x)
                            && x@ == id)
                        &&& favorite_ids(before).contains(id) ==> (r@[k] matches Err(
                            FavoriteError::AlreadyExists(x),
                        ) && x@ == id)
                    },
            decreases n - i,
        {
            let f = rest.remove(0);
            assert(f == items[i as int]);
            assert(items.skip(i as int).remove(0) =~= items.skip(i + 1));
            assert(items.take(i + 1).drop_last() =~= items.take(i as int));
            assert(items.take(i + 1).last() == items[i as int]);
            let out = favorites.add_favorite(f);
            r.push(out);
            i = i + 1;
        }
        assert(items.take(n as int) =~= items);
        r
    }
}

/// The list after offering each of `items` to `add_favorite` in turn.
pub open spec fn add_all(s: Seq<Favorite>, items: Seq<Favorite>) -> Seq<Favorite>
    decreases items.len(),
{
    if items.len() == 0 {
        s
    } else {
        let before = add_all(s, items.drop_last());
        if favorite_ids(before).contains(items.last().id_spec()) {
            before
        } else {
            before.push(items.last())
        }
    }
}

/// Offering favourites one by one to a list whose identifiers are distinct
/// keeps them distinct, and afterwards every offered identifier is in the
/// list.
pub proof fn law_add_all_distinct_and_complete(s: Seq<Favorite>, items: Seq<Favorite>)
    requires
        favorite_ids(s).no_duplicates(),
    ensures
        favorite_ids(add_all(s, items)).no_duplicates(),
        forall|i: int|
            0 <= i < items.len() ==> favorite_ids(add_all(s, items)).contains(
                #[trigger] items[i].id_spec(),
            ),
        forall|x: Seq<char>| favorite_ids(s).contains(x) ==> favorite_ids(add_all(s, items)).contains(x),
    decreases items.len(),
{
    if items.len() > 0 {
        let prefix = items.drop_last();
        law_add_all_distinct_and_complete(s, prefix);
        let before = add_all(s, prefix);
        let f = items.last();
        let after = add_all(s, items);
        if !favorite_ids(before).contains(f.id_spec()) {
            law_add_keeps_ids_distinct(before, f);
            assert(favorite_ids(after) =~= favorite_ids(before).push(f.id_spec()));
        }
        assert forall|x: Seq<char>| favorite_ids(before).contains(x) implies favorite_ids(after).contains(x) by {
            let k = choose|k: int| 0 <= k < favorite_ids(before).len() && favorite_ids(before)[k] == x;
            assert(favorite_ids(after)[k] == x);
        }
        assert forall|i: int| 0 <= i < items.len() implies favorite_ids(after).contains(
            #[trigger] items[i].id_spec(),
        ) by {
            if i < items.len() - 1 {
                assert(prefix[i] == items[i]);
                assert(favorite_ids(before).contains(prefix[i].id_spec()));
            } else if !favorite_ids(before).contains(f.id_spec()) {
                assert(favorite_ids(after)[before.len() as int] == f.id_spec());
            }
        }
    }
}

/// The arguments of `favorite remove`.
#[derive(Debug, Clone)]
pub struct RemoveArgs {
    /// The identifier of the favourite to remove.
    pub name: Option<String>,
}

impl RemoveArgs {
    /// Takes the identifier the user picked, at `index` among `ids`, when
    /// no identifier was given.
    pub fn choose_name(&mut self, ids: &Vec<&str>, index: usize)
        requires
            old(self).name is None ==> index < ids@.len(),
        ensures
            old(self).name is Some ==> *final(self) == *old(self),
            old(self).name is None ==> (final(self).name matches Some(n) && n@ == ids@[index as int]@),
    {
        if self.name.is_none() {
            self.name = Some(owned(ids[index]));
        }
    }

    /// Removes the named favourite from the list.
    pub fn run(&self, favorites: &mut FavoriteConfig) -> (r: Result<(), FavoriteError>)
        requires
            self.name is Some,
        ensures
            favorite_ids(old(favorites)@).contains(self.name->0@) ==> r is Ok
                && final(favorites)@ == crate::favorites::config::remove_first_id(
                old(favorites)@,
                self.name->0@,
            ),
            !favorite_ids(old(favorites)@).contains(self.name->0@) ==> (r matches Err(
                FavoriteError::NotFound,
            ) && final(favorites)@ == old(favorites)@),
    {
        match &self.name {
            Some(n) => favorites.remove_favorite(n.as_str()),
            None => Err(FavoriteError::NotFound),
        }
    }
}

/// The sub-commands of `favorite`.
#[derive(Debug, Clone)]
pub enum FavoriteCommand {
    Add(AddArgs),
    Remove(RemoveArgs),
}

/// The arguments of `favorite`.
#[derive(Debug, Clone)]
pub struct FavoriteArgs {
    /// List the favourites instead of running a sub-command.
    pub list: bool,
    pub subcommand: Option<FavoriteCommand>,
}

} // verus!
