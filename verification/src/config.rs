//! The configuration format of favourite actions: prompts with a
//! `finishTooltip`, rendered into `.github/workflows` with the package name
//! added to the template data.

use vstd::prelude::*;
use crate::json::{json_array, json_array_of, json_object_last, json_object_last_of, json_string, json_string_of};
use crate::paths::{file_name_of, path_file_name};
use crate::templates::prompts::json_bool;
use crate::templates::{handlebars_render, RenderError, Template};
use crate::text::{owned, path_join, path_join_str, remove_all, remove_all_str};

verus! {

/// A choice: the label shown and the value (JSON text) it stands for.
#[derive(Debug, Clone)]
pub struct ItemOption {
    pub label: String,
    pub value: String,
}

/// A text prompt.
#[derive(Debug, Clone)]
pub struct Input {
    pub prompt: String,
    pub field: String,
    pub default: Option<String>,
}

/// A prompt that picks one option.
#[derive(Debug, Clone)]
pub struct Select {
    pub prompt: String,
    pub field: String,
    pub default: Option<usize>,
    pub options: Vec<ItemOption>,
}

/// A yes/no prompt.
#[derive(Debug, Clone)]
pub struct Confirm {
    pub prompt: String,
    pub field: String,
    pub default: Option<bool>,
}

/// A prompt that picks any number of options.
#[derive(Debug, Clone)]
pub struct MultiSelect {
    pub prompt: String,
    pub field: String,
    pub default: Option<Vec<usize>>,
    pub options: Vec<ItemOption>,
}

/// A prompt of the configuration.
#[derive(Debug, Clone)]
pub enum Prompt {
    Input(Input),
    Select(Select),
    Confirm(Confirm),
    MultiSelect(MultiSelect),
}

/// The configuration of a favourite action.
#[derive(Debug, Clone)]
pub struct Config {
    /// The template file, relative to the configuration's directory.
    pub path: String,
    pub prompts: Vec<Prompt>,
    /// Shown once the workflow is written.
    pub finish_tooltip: String,
    pub author: Option<String>,
    pub description: String,
}

impl ItemOption {
    /// What the option displays as: its label.
    pub fn to_string(&self) -> (r: String)
        ensures
            r@ == self.label@,
    {
        owned(self.label.as_str())
    }
}

impl Prompt {
    /// The template variable this prompt sets.
    pub open spec fn field_spec(&self) -> Seq<char> {
        match self {
            Prompt::Input(p) => p.field@,
            Prompt::Select(p) => p.field@,
            Prompt::Confirm(p) => p.field@,
            Prompt::MultiSelect(p) => p.field@,
        }
    }

    /// The template variable this prompt sets.
    pub fn get_field(&self) -> (r: String)
        ensures
            r@ == self.field_spec(),
    {
        match self {
            Prompt::Input(p) => owned(p.field.as_str()),
            Prompt::Select(p) => owned(p.field.as_str()),
            Prompt::Confirm(p) => owned(p.field.as_str()),
            Prompt::MultiSelect(p) => owned(p.field.as_str()),
        }
    }
}

impl Input {
    /// The template value of the text `typed`: a JSON string.
    pub fn answer_value(&self, typed: &str) -> (r: String)
        ensures
            r@ == json_string(typed@),
    {
        json_string_of(typed)
    }
}

impl Confirm {
    /// The template value of a yes/no answer: a JSON boolean.
    pub fn answer_value(&self, yes: bool) -> (r: String)
        ensures
            r@ == json_bool(yes),
    {
        if yes {
            owned("true")
        } else {
            owned("false")
        }
    }
}

impl Select {
    /// The template value of the option picked at `selected`: its value.
    pub fn answer_value(&self, selected: usize) -> (r: String)
        requires
            selected < self.options@.len(),
        ensures
            r@ == self.options@[selected as int].value@,
    {
        owned(self.options[selected].value.as_str())
    }
}

impl MultiSelect {
    /// The template value of the options picked at `selected`: the JSON
    /// array of their values, in the order picked.
    pub fn answer_value(&self, selected: &Vec<usize>) -> (r: String)
        requires
            forall|k: int| 0 <= k < selected@.len() ==> selected@[k] < self.options@.len(),
        ensures
            r@ == json_array(
                selected@.map_values(|i: usize| self.options@[i as int].value@),
            ),
    {
        let mut values: Vec<String> = Vec::new();
        let mut k: usize = 0;
        while k < selected.len()
            invariant
                forall|t: int| 0 <= t < selected@.len() ==> selected@[t] < self.options@.len(),
                k <= selected@.len(),
                values@.len() == k,
                forall|t: int|
                    0 <= t < k ==> #[trigger] values@[t]@ == self.options@[selected@[t] as int].value@,
            decreases selected@.len() - k,
        {
            values.push(owned(self.options[selected[k]].value.as_str()));
            k = k + 1;
        }
        assert(values@.map_values(|x: String| x@) =~= selected@.map_values(
            |i: usize| self.options@[i as int].value@,
        ));
        json_array_of(&values)
    }
}

/// The template data of the answers: each prompt's variable mapped to its
/// answer, and then `package_name` to the package's name, which replaces
/// the answer of any prompt of that name; a variable set by several prompts
/// holds the last answer.
pub open spec fn config_data(
    fields: Seq<Seq<char>>,
    answers: Seq<Seq<char>>,
    package_name: Seq<char>,
) -> Seq<char> {
    json_object_last(fields.push("package_name"@), answers.push(json_string(package_name)))
}

impl Config {
    /// The template variables, in the order the prompts are asked.
    pub open spec fn fields(&self) -> Seq<Seq<char>> {
        self.prompts@.map_values(|p: Prompt| p.field_spec())
    }

    /// What the configuration displays as: its description.
    pub fn to_string(&self) -> (r: String)
        ensures
            r@ == self.description@,
    {
        owned(self.description.as_str())
    }

    /// The template data made from the `answers` (JSON texts, one per
    /// prompt, in order) and the package's name.
    pub fn template_data(&self, answers: &Vec<String>, package_name: &str) -> (r: String)
        requires
            answers@.len() == self.prompts@.len(),
        ensures
            r@ == config_data(self.fields(), answers@.map_values(|x: String| x@), package_name@),
    {
        let n = self.prompts.len();
        let mut owned_keys: Vec<String> = Vec::new();
        let mut k: usize = 0;
        while k < n
            invariant
                n == self.prompts@.len(),
                k <= n,
                owned_keys@.len() == k,
                forall|t: int| 0 <= t < k ==> #[trigger] owned_keys@[t]@ == self.prompts@[t].field_spec(),
            decreases n - k,
        {
            owned_keys.push(self.prompts[k].get_field());
            k = k + 1;
        }
        let mut keys: Vec<&str> = Vec::new();
        let mut j: usize = 0;
        while j < n
            invariant
                n == owned_keys@.len(),
                j <= n,
                keys@.len() == j,
                forall|t: int| 0 <= t < j ==> #[trigger] keys@[t]@ == owned_keys@[t]@,
            decreases n - j,
        {
            keys.push(owned_keys[j].as_str());
            j = j + 1;
        }
        keys.push("package_name");
        let mut values: Vec<String> = Vec::new();
        let mut i: usize = 0;
        while i < n
            invariant
                n == answers@.len(),
                i <= n,
                values@.len() == i,
                forall|t: int| 0 <= t < i ==> #[trigger] values@[t]@ == answers@[t]@,
            decreases n - i,
        {
            values.push(owned(answers[i].as_str()));
            assert(values@[i as int]@ == answers@[i as int]@);
            i = i + 1;
        }
        values.push(json_string_of(package_name));
        assert(keys@.map_values(|x: &str| x@) =~= self.fields().push("package_name"@));
        assert(values@.map_values(|x: String| x@) =~= answers@.map_values(|x: String| x@).push(
            json_string(package_name@),
        ));
        json_object_last_of(&keys, &values)
    }

    /// The template file of this configuration, whose directory is
    /// `base_path`.
    pub fn template_path(&self, base_path: &str) -> (r: String)
        ensures
            r@ == path_join(base_path@, self.path@),
    {
        path_join_str(base_path, self.path.as_str())
    }

    /// The workflow file name offered first: the template's file name
    /// without any `.hbs`; `None` when the template path has no file name.
    pub fn default_file_name(&self, base_path: &str) -> (r: Option<String>)
        ensures
            r is None <==> file_name_of(path_join(base_path@, self.path@)) is None,
            r matches Some(n) ==> file_name_of(path_join(base_path@, self.path@)) matches Some(f)
                && n@ == remove_all(f, ".hbs"@),
    {
        let template = self.template_path(base_path);
        match path_file_name(template.as_str()) {
            Some(f) => Some(remove_all_str(f.as_str(), ".hbs")),
            None => None,
        }
    }
}

/// What writing a workflow from a configuration comes to: the text written,
/// if any, and the two messages shown afterwards.
#[derive(Debug, Clone)]
pub struct WorkflowWrite {
    /// The rendered workflow, when the file is written.
    pub contents: Option<String>,
    /// The success message.
    pub success: String,
    /// The configuration's closing tooltip.
    pub tooltip: String,
}

impl Config {
    /// The workflow made from the template text `template`: the template
    /// rendered with the template data of the `answers` and the package's
    /// name.
    pub fn render_config(&self, template: &str, answers: &Vec<String>, package_name: &str) -> (r:
        Result<String, RenderError>)
        requires
            answers@.len() == self.prompts@.len(),
        ensures
            r matches Ok(s) ==> handlebars_render(
                template@,
                config_data(self.fields(), answers@.map_values(|x: String| x@), package_name@),
            ) == Some(s@),
            r is Err ==> handlebars_render(
                template@,
                config_data(self.fields(), answers@.map_values(|x: String| x@), package_name@),
            ) is None,
    {
        let data = self.template_data(answers, package_name);
        let t = Template::from(owned(template));
        t.render_to_string(data.as_str())
    }

    /// Writing the workflow once it is known whether the target file is
    /// `present` and whether the user `confirmed` overwriting it. When it is
    /// not written nothing is rendered and the write still succeeds; when
    /// it is, the contents are the rendered template and a failed render is
    /// the error. A successful write shows `Created successfully!` and then
    /// the configuration's `finishTooltip`.
    pub fn write_workflow(
        &self,
        template: &str,
        answers: &Vec<String>,
        package_name: &str,
        present: bool,
        confirmed: bool,
    ) -> (r: Result<WorkflowWrite, RenderError>)
        requires
            answers@.len() == self.prompts@.len(),
        ensures
            !(!present || confirmed) ==> (r matches Ok(w) && w.contents is None),
            (!present || confirmed) ==> {
                let rendered = handlebars_render(
                    template@,
                    config_data(self.fields(), answers@.map_values(|x: String| x@), package_name@),
                );
                &&& (r is Err <==> rendered is None)
                &&& (r matches Ok(w) ==> (w.contents matches Some(s) && rendered == Some(s@)))
            },
            r matches Ok(w) ==> w.success@ == "Created successfully!\n"@ && w.tooltip@
                == self.finish_tooltip@,
    {
        let contents = if should_write(present, confirmed) {
            match self.render_config(template, answers, package_name) {
                Ok(s) => Some(s),
                Err(e) => return Err(e),
            }
        } else {
            None
        };
        Ok(
            WorkflowWrite {
                contents,
                success: owned("Created successfully!\n"),
                tooltip: owned(self.finish_tooltip.as_str()),
            },
        )
    }
}

/// Where the workflow named `file_name` is written: in
/// `.github/workflows` under the working directory `cwd`.
pub fn workflow_target(cwd: &str, file_name: &str) -> (r: String)
    ensures
        r@ == path_join(path_join(cwd@, ".github/workflows"@), file_name@),
{
    let dir = path_join_str(cwd, ".github/workflows");
    path_join_str(dir.as_str(), file_name)
}

/// Whether the workflow is written: always to a new file, and over an
/// existing one only when the user confirmed it.
pub fn should_write(present: bool, confirmed: bool) -> (r: bool)
    ensures
        r == (!present || confirmed),
{
    !present || confirmed
}

} // verus!
