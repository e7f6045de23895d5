//! The `upload` command: its questions, the defaults it offers, and what it
//! sends to the template server.

use vstd::prelude::*;
use crate::favorites::commands::{Answer, Question};
use crate::graphql::{
    Category, CategoryAndTags, Json, Tag, TemplateCreateInput, TemplateTagInput, TemplateTags,
    TemplateUpdateInput,
};
use crate::numbers::{decimal, i32_to_string};
use crate::templates::ActionConfig;
use crate::text::{concat3, owned, path_join, path_join_str};

verus! {

/// The web front end of the template server.
pub const CARGO_ACTIONS_FRONT_URL: &'static str = "https://yexiyue.github.io/actions-workflow";

/// The arguments of `upload`.
#[derive(Debug, Clone)]
pub struct UploadArgs {
    /// The directory of the action to upload.
    pub path: Option<String>,
    /// Update an existing template instead of creating one.
    pub update: Option<bool>,
    /// The template to update.
    pub id: Option<i32>,
}

/// The questions `upload` may ask, in the order it asks them.
#[derive(Debug, Clone, Copy, PartialEq, Eq, Structural)]
pub enum UploadStep {
    Update,
    Id,
    Path,
}

/// What the user picks when uploading.
#[derive(Debug, Clone)]
pub struct Inputs {
    pub category_id: Category,
    pub tags_id: Vec<Tag>,
    pub is_public: bool,
}

/// The answers offered first: the category's position, which tags start
/// checked, and whether the template is public.
#[derive(Debug, Clone)]
pub struct InputDefaults {
    pub category: usize,
    pub tags: Vec<bool>,
    pub is_public: bool,
}

/// Why an upload stopped.
#[derive(Debug, Clone, Copy, PartialEq, Eq, Structural)]
pub enum UploadError {
    /// The given action path names a file, not a directory.
    PathIsFile,
}

impl UploadError {
    /// The text of the error, as the user sees it.
    pub fn message(&self) -> (r: String)
        ensures
            r@ == "actions template文件夹路径不能是文件"@,
    {
        owned("actions template文件夹路径不能是文件")
    }
}


/// The template's identifier is asked for only when updating a template
/// whose identifier was not given: never for a new upload, and never when
/// `--id` was given.
pub proof fn law_id_asked_only_when_updating(args: UploadArgs)
    ensures
        args.asks(UploadStep::Id) ==> args.update == Some(true),
        args.asks(UploadStep::Id) ==> args.id is None,
        args.update == Some(false) ==> !args.asks(UploadStep::Id),
        args.update is None ==> !args.asks(UploadStep::Id),
        args.update == Some(true) && args.id is None ==> args.asks(UploadStep::Id),
{
}

impl UploadArgs {
    /// Whether the question of `step` is asked, given the arguments so far:
    /// whether to update, unless updating was asked for; which template,
    /// when updating and none was given; the action's directory, when none
    /// was given.
    pub open spec fn asks(&self, step: UploadStep) -> bool {
        match step {
            UploadStep::Update => self.update == Some(false),
            UploadStep::Id => self.update == Some(true) && self.id is None,
            UploadStep::Path => self.path is None,
        }
    }

    /// The question of `step`, when it is asked.
    pub fn question(&self, step: UploadStep) -> (r: Option<Question>)
        requires
            step == UploadStep::Update ==> self.update is Some,
        ensures
            r is Some <==> self.asks(step),
            step == UploadStep::Id ==> (r is Some <==> (self.update == Some(true) && self.id is None)),
            r matches Some(q) ==> match step {
                UploadStep::Update => q matches Question::Confirm { prompt, default } && prompt@
                    == "您想要更新您的模版吗？"@ && !default,
                UploadStep::Id => q matches Question::Input { prompt, allow_empty } && prompt@
                    == "请输入actions template模版ID："@ && !allow_empty,
                UploadStep::Path => q matches Question::Input { prompt, allow_empty } && prompt@
                    == "请输入actions template文件夹路径："@ && !allow_empty,
            },
    {
        match step {
            UploadStep::Update => {
                if self.update == Some(false) {
                    Some(Question::Confirm { prompt: owned("您想要更新您的模版吗？"), default: false })
                } else {
                    None
                }
            },
            UploadStep::Id => {
                if self.update == Some(true) && self.id.is_none() {
                    Some(
                        Question::Input {
                            prompt: owned("请输入actions template模版ID："),
                            allow_empty: false,
                        },
                    )
                } else {
                    None
                }
            },
            UploadStep::Path => {
                if self.path.is_none() {
                    Some(
                        Question::Input {
                            prompt: owned("请输入actions template文件夹路径："),
                            allow_empty: false,
                        },
                    )
                } else {
                    None
                }
            },
        }
    }

    /// Records the answer to the question of `step`: a yes/no answer sets
    /// `update`, a text answer the action's directory. The template
    /// identifier is recorded by `answer_id`.
    pub fn answer(&mut self, step: UploadStep, answer: Answer)
        ensures
            match (step, answer) {
                (UploadStep::Update, Answer::Yes(b)) => final(self).update == Some(b)
                    && final(self).id == old(self).id && final(self).path == old(self).path,
                (UploadStep::Path, Answer::Text(t)) => final(self).path == Some(t)
                    && final(self).id == old(self).id && final(self).update == old(self).update,
                _ => *final(self) == *old(self),
            },
    {
        match (step, answer) {
            (UploadStep::Update, Answer::Yes(b)) => {
                self.update = Some(b);
            },
            (UploadStep::Path, Answer::Text(t)) => {
                self.path = Some(t);
            },
            _ => {},
        }
    }

    /// Records the identifier of the template to update.
    pub fn answer_id(&mut self, id: i32)
        ensures
            final(self).id == Some(id),
            final(self).update == old(self).update,
            final(self).path == old(self).path,
    {
        self.id = Some(id);
    }

    /// The directory of the action: the given path, relative to the working
    /// directory `cwd` unless it is absolute.
    pub fn template_dir(&self, cwd: &str) -> (r: String)
        requires
            self.path is Some,
        ensures
            r@ == path_join(cwd@, self.path->0@),
    {
        let p = self.path.as_ref().unwrap();
        let n = p.as_str().unicode_len();
        if n > 0 && p.as_str().get_char(0) == '/' {
            owned(p.as_str())
        } else {
            path_join_str(cwd, p.as_str())
        }
    }
}

/// The position of the first category whose identifier is `id`.
pub fn category_position(categories: &Vec<Category>, id: i32) -> (r: Option<usize>)
    ensures
        r matches Some(i) ==> i < categories@.len() && categories@[i as int].id == id && forall|
            j: int,
        |
            0 <= j < i ==> categories@[j].id != id,
        r is None ==> forall|j: int| 0 <= j < categories@.len() ==> categories@[j].id != id,
{
    let mut i: usize = 0;
    while i < categories.len()
        invariant
            i <= categories@.len(),
            forall|j: int| 0 <= j < i ==> categories@[j].id != id,
        decreases categories@.len() - i,
    {
        if categories[i].id == id {
            return Some(i);
        }
        i = i + 1;
    }
    None
}

/// Whether `tags` holds a tag equal to `t`.
pub open spec fn has_tag(tags: Seq<Tag>, t: Tag) -> bool {
    exists|j: int| 0 <= j < tags.len() && tags[j].same(t)
}

/// For each of the server's tags, whether the template carries it.
pub fn tag_flags(all: &Vec<Tag>, carried: &Vec<Tag>) -> (r: Vec<bool>)
    ensures
        r@.len() == all@.len(),
        forall|i: int| 0 <= i < r@.len() ==> #[trigger] r@[i] == has_tag(carried@, all@[i]),
{
    let mut r: Vec<bool> = Vec::new();
    let mut i: usize = 0;
    while i < all.len()
        invariant
            i <= all@.len(),
            r@.len() == i,
            forall|k: int| 0 <= k < i ==> #[trigger] r@[k] == has_tag(carried@, all@[k]),
        decreases all@.len() - i,
    {
        let mut found = false;
        let mut j: usize = 0;
        while j < carried.len()
            invariant
                i < all@.len(),
                j <= carried@.len(),
                found <==> exists|t: int| 0 <= t < j && carried@[t].same(all@[i as int]),
            decreases carried@.len() - j,
        {
            if carried[j].eq(&all[i]) {
                found = true;
            }
            proof {
                if carried@[j as int].same(all@[i as int]) {
                    assert(carried@[j as int].same(all@[i as int]));
                }
            }
            j = j + 1;
        }
        proof {
            if found {
                let t = choose|t: int| 0 <= t < carried@.len() && carried@[t].same(all@[i as int]);
                assert(carried@[t].id == all@[i as int].id);
            }
            if has_tag(carried@, all@[i as int]) {
                let t = choose|t: int| 0 <= t < carried@.len() && carried@[t].same(all@[i as int]);
                assert(carried@[t].same(all@[i as int]));
            }
        }
        r.push(found);
        i = i + 1;
    }
    r
}

/// The answers `upload` offers first: for an update, the template's
/// category, its tags and its visibility (`None` when its category is not
/// among the server's); for a new template, the first category, no tags,
/// and public.
pub fn input_defaults(choices: &CategoryAndTags, current: Option<&TemplateTags>) -> (r: Option<
    InputDefaults,
>)
    ensures
        current is None ==> (r matches Some(d) && d.category == 0 && d.tags@.len() == 0
            && d.is_public),
        current matches Some(t) ==> {
            &&& r is None <==> forall|j: int|
                0 <= j < choices.categories.categories@.len()
                    ==> choices.categories.categories@[j].id != t.template_by_id.category_id
            &&& r matches Some(d) ==> {
                &&& d.category < choices.categories.categories@.len()
                &&& choices.categories.categories@[d.category as int].id
                    == t.template_by_id.category_id
                &&& forall|j: int|
                    0 <= j < d.category ==> choices.categories.categories@[j].id
                        != t.template_by_id.category_id
                &&& d.tags@.len() == choices.tags.tags@.len()
                &&& forall|i: int|
                    0 <= i < d.tags@.len() ==> #[trigger] d.tags@[i] == has_tag(
                        t.template_tags@,
                        choices.tags.tags@[i],
                    )
                &&& d.is_public == t.template_by_id.is_public
            }
        },
{
    match current {
        None => Some(InputDefaults { category: 0, tags: Vec::new(), is_public: true }),
        Some(t) => {
            match category_position(&choices.categories.categories, t.template_by_id.category_id) {
                Some(pos) => Some(
                    InputDefaults {
                        category: pos,
                        tags: tag_flags(&choices.tags.tags, &t.template_tags),
                        is_public: t.template_by_id.is_public,
                    },
                ),
                None => None,
            }
        },
    }
}

/// The identifiers of the picked tags, in order.
pub fn tag_ids(tags: &Vec<Tag>) -> (r: Vec<i32>)
    ensures
        r@.len() == tags@.len(),
        forall|i: int| 0 <= i < r@.len() ==> #[trigger] r@[i] == tags@[i].id,
{
    let mut r: Vec<i32> = Vec::new();
    let mut i: usize = 0;
    while i < tags.len()
        invariant
            i <= tags@.len(),
            r@.len() == i,
            forall|k: int| 0 <= k < i ==> #[trigger] r@[k] == tags@[k].id,
        decreases tags@.len() - i,
    {
        r.push(tags[i].id);
        i = i + 1;
    }
    r
}

/// What creating the template of `action` sends: its name, configuration
/// (`config_json`, the configuration as JSON text), template and README,
/// the uploader, and the picked category and visibility.
pub fn create_input<'a>(action: &'a ActionConfig, config_json: String, user_id: i32, inputs: &Inputs) -> (r:
    TemplateCreateInput<'a>)
    ensures
        r.name@ == action.config.name@,
        r.config.0 == config_json,
        r.template@ == action.template.0@,
        r.user_id == user_id,
        r.category_id == inputs.category_id.id,
        action.readme matches Some(rd) ==> (r.readme matches Some(x) && x@ == rd.0@),
        action.readme is None ==> r.readme is None,
        r.source_code_url is None,
        r.is_public == inputs.is_public,
{
    let readme = match &action.readme {
        Some(rd) => Some(rd.as_str()),
        None => None,
    };
    TemplateCreateInput {
        name: action.config.name.as_str(),
        config: Json(config_json),
        template: action.template.as_str(),
        user_id,
        category_id: inputs.category_id.id,
        readme,
        source_code_url: None,
        is_public: inputs.is_public,
    }
}

/// What updating a template with `action` sends: every field it has, as
/// when creating it, except the uploader.
pub fn update_input<'a>(action: &'a ActionConfig, config_json: String, inputs: &Inputs) -> (r:
    TemplateUpdateInput<'a>)
    ensures
        r.name matches Some(n) && n@ == action.config.name@,
        r.config matches Some(c) && c.0 == config_json,
        r.template matches Some(t) && t@ == action.template.0@,
        r.category_id == Some(inputs.category_id.id),
        action.readme matches Some(rd) ==> (r.readme matches Some(x) && x@ == rd.0@),
        action.readme is None ==> r.readme is None,
        r.source_code_url is None,
        r.is_public == Some(inputs.is_public),
{
    let readme = match &action.readme {
        Some(rd) => Some(rd.as_str()),
        None => None,
    };
    TemplateUpdateInput {
        name: Some(action.config.name.as_str()),
        config: Some(Json(config_json)),
        template: Some(action.template.as_str()),
        category_id: Some(inputs.category_id.id),
        readme,
        source_code_url: None,
        is_public: Some(inputs.is_public),
    }
}

/// What setting the tags of the template `template_id` sends.
pub fn tag_input(inputs: &Inputs, template_id: i32) -> (r: TemplateTagInput)
    ensures
        r.template_id == template_id,
        r.tag_id@.len() == inputs.tags_id@.len(),
        forall|i: int| 0 <= i < r.tag_id@.len() ==> #[trigger] r.tag_id@[i] == inputs.tags_id@[i].id,
{
    TemplateTagInput { tag_id: tag_ids(&inputs.tags_id), template_id }
}

/// The message shown once the template is stored.
pub fn success_message(update: bool) -> (r: String)
    ensures
        r@ == if update {
            "模版更新成功"@
        } else {
            "模版上传成功"@
        },
{
    if update {
        owned("模版更新成功")
    } else {
        owned("模版上传成功")
    }
}

/// The address of the template `template_id` on the web front end.
pub fn template_url(template_id: i32) -> (r: String)
    ensures
        r@ == CARGO_ACTIONS_FRONT_URL@ + "/template/"@ + decimal(template_id as int),
{
    let id = i32_to_string(template_id);
    concat3(CARGO_ACTIONS_FRONT_URL, "/template/", id.as_str())
}

} // verus!
