//! Workflow templates: the configuration of an action, its files, and the
//! rendering of its template with the user's answers.

pub mod prompts;

use vstd::prelude::*;
use crate::templates::prompts::Prompts;
use crate::text::{concat2, owned, path_join, path_join_str};

verus! {

/// The configuration of an action (`cargo-action.json`).
#[derive(Debug, Clone)]
pub struct Config {
    pub name: String,
    /// A short description, shown in the command line.
    pub description: Option<String>,
    /// The template file, relative to the action's directory; by default
    /// `<name>.yaml.hbs`.
    pub path: Option<String>,
    pub prompts: Prompts,
    pub success_message: Option<String>,
}

/// The README of an action.
#[derive(Debug, Clone)]
pub struct ReadME(pub String);

/// The Handlebars template of an action.
#[derive(Debug, Clone)]
pub struct Template(pub String);

/// An action: its configuration, README and template, and its identifier
/// on the server when it came from there.
#[derive(Debug, Clone)]
pub struct ActionConfig {
    pub id: Option<i32>,
    pub config: Config,
    pub readme: Option<ReadME>,
    pub template: Template,
}

/// Why a template could not be rendered.
#[derive(Debug, Clone)]
pub struct RenderError {
    pub message: String,
}

/// What the Handlebars engine, with no helpers or templates registered,
/// renders for the template text `template` and the data whose JSON text
/// is `data`; `None` when the data is not JSON or the template does not
/// render.
pub uninterp spec fn handlebars_render(template: Seq<char>, data: Seq<char>) -> Option<Seq<char>>;

/// Calls `handlebars::Handlebars::render_template` of a new registry on
/// `template`, with the data read from the JSON text `data` by
/// `serde_json::from_str`. The contract claims only that the result is
/// `handlebars_render(template, data)`, a value of the two texts alone;
/// the template language and the error messages are not stated.
#[verifier::external_body]
fn render_with_handlebars(template: &str, data: &str) -> (r: Result<String, RenderError>)
    ensures
        r matches Ok(s) ==> handlebars_render(template@, data@) == Some(s@),
        r is Err ==> handlebars_render(template@, data@) is None,
{
    let value: serde_json::Value = match serde_json::from_str(data) {
        Ok(v) => v,
        Err(e) => return Err(RenderError { message: e.to_string() }),
    };
    match handlebars::Handlebars::new().render_template(template, &value) {
        Ok(s) => Ok(s),
        Err(e) => Err(RenderError { message: e.to_string() }),
    }
}

impl ReadME {
    /// A README with the text `value`.
    pub fn from(value: String) -> (r: ReadME)
        ensures
            r.0 == value,
    {
        ReadME(value)
    }

    /// The README text.
    pub fn as_str(&self) -> (r: &str)
        ensures
            r@ == self.0@,
    {
        self.0.as_str()
    }
}

impl Template {
    /// A template with the text `value`.
    pub fn from(value: String) -> (r: Template)
        ensures
            r.0 == value,
    {
        Template(value)
    }

    /// The template text.
    pub fn as_str(&self) -> (r: &str)
        ensures
            r@ == self.0@,
    {
        self.0.as_str()
    }

    /// Renders the template with the data whose JSON text is `data`.
    pub fn render_to_string(&self, data: &str) -> (r: Result<String, RenderError>)
        ensures
            r matches Ok(s) ==> handlebars_render(self.0@, data@) == Some(s@),
            r is Err ==> handlebars_render(self.0@, data@) is None,
    {
        render_with_handlebars(self.0.as_str(), data)
    }
}

/// The template file an action's configuration names: its `path`, or
/// `<name>.yaml.hbs`.
pub open spec fn template_file_of(c: Config) -> Seq<char> {
    match c.path {
        Some(p) => p@,
        None => c.name@ + ".yaml.hbs"@,
    }
}

/// Where the workflow made from the action `name` is written by default:
/// `.github/workflows/<name>.yaml` under the working directory `cwd`.
pub open spec fn default_write_path_of(cwd: Seq<char>, name: Seq<char>) -> Seq<char> {
    path_join(path_join(cwd, ".github/workflows"@), name + ".yaml"@)
}

/// Where the workflow made from the action `name` is written by default.
pub fn default_write_path(cwd: &str, name: &str) -> (r: String)
    ensures
        r@ == default_write_path_of(cwd@, name@),
{
    let dir = path_join_str(cwd, ".github/workflows");
    let file = concat2(name, ".yaml");
    path_join_str(dir.as_str(), file.as_str())
}

/// The files of the action in the directory `dir`: its configuration, its
/// README and, once the configuration is read, its template.
#[derive(Debug, Clone)]
pub struct ActionFiles {
    pub config: String,
    pub readme: String,
}

/// A configuration that names a path reads its template from exactly that
/// path, whatever its name or extension; only a configuration without a
/// path falls back to `<name>.yaml.hbs`.
pub proof fn law_template_file_is_the_configured_path(c: Config)
    ensures
        c.path matches Some(p) ==> template_file_of(c) == p@,
        c.path is None ==> template_file_of(c) == c.name@ + ".yaml.hbs"@,
        forall|dir: Seq<char>|
            c.path matches Some(p) ==> #[trigger] path_join(dir, template_file_of(c)) == path_join(
                dir,
                p@,
            ),
{
}

impl Config {
    /// The template file this configuration names: its `path`, or
    /// `<name>.yaml.hbs`.
    pub fn template_file(&self) -> (r: String)
        ensures
            r@ == template_file_of(*self),
            self.path matches Some(p) ==> r@ == p@,
            self.path is None ==> r@ == self.name@ + ".yaml.hbs"@,
    {
        match &self.path {
            Some(p) => owned(p.as_str()),
            None => concat2(self.name.as_str(), ".yaml.hbs"),
        }
    }
}

impl ActionConfig {
    /// The configuration and README files of the action in `dir`.
    pub fn files_in(dir: &str) -> (r: ActionFiles)
        ensures
            r.config@ == path_join(dir@, "cargo-action.json"@),
            r.readme@ == path_join(dir@, "README.md"@),
    {
        ActionFiles {
            config: path_join_str(dir, "cargo-action.json"),
            readme: path_join_str(dir, "README.md"),
        }
    }

    /// The template file of the action in `dir` whose configuration is
    /// `config`.
    pub fn template_path_in(dir: &str, config: &Config) -> (r: String)
        ensures
            r@ == path_join(dir@, template_file_of(*config)),
    {
        let file = config.template_file();
        path_join_str(dir, file.as_str())
    }

    /// The action assembled from what was read in its directory.
    pub fn from_parts(config: Config, readme: Option<String>, template: String) -> (r:
        ActionConfig)
        ensures
            r.id is None,
            r.config == config,
            r.readme matches Some(rd) ==> readme matches Some(t) && rd.0 == t,
            r.readme is None <==> readme is None,
            r.template.0 == template,
    {
        let readme = match readme {
            Some(t) => Some(ReadME::from(t)),
            None => None,
        };
        ActionConfig { id: None, config, readme, template: Template::from(template) }
    }

    /// The action of the server template `t`, whose configuration, read
    /// from `t.config`, is `config`: it keeps the template's identifier and
    /// text, and has no README.
    pub fn from_server(t: &crate::graphql::Template, config: Config) -> (r: ActionConfig)
        ensures
            r.id == Some(t.id),
            r.config == config,
            r.readme is None,
            r.template.0@ == t.template@,
    {
        ActionConfig {
            id: Some(t.id),
            config,
            readme: None,
            template: Template::from(owned(t.template.as_str())),
        }
    }

    /// The workflow this action makes from the `answers` to its prompts
    /// (JSON texts, one per prompt, in order): its template rendered with
    /// the template data of the answers.
    pub fn render(&self, answers: &Vec<String>) -> (r: Result<String, RenderError>)
        requires
            answers@.len() == self.config.prompts.0@.len(),
        ensures
            r matches Ok(s) ==> handlebars_render(
                self.template.0@,
                crate::json::json_object_last(
                    self.config.prompts.fields(),
                    answers@.map_values(|x: String| x@),
                ),
            ) == Some(s@),
            r is Err ==> handlebars_render(
                self.template.0@,
                crate::json::json_object_last(
                    self.config.prompts.fields(),
                    answers@.map_values(|x: String| x@),
                ),
            ) is None,
    {
        let data = self.config.prompts.template_data(answers);
        self.template.render_to_string(data.as_str())
    }
}

} // verus!
