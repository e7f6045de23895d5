//! The data exchanged with the template server, and the rules for reading
//! its replies.

use vstd::prelude::*;
use crate::text::{owned, str_eq};

verus! {

#[derive(Debug, Clone)]
pub struct QueryTemplateVariables {
    pub id: i32,
}

#[derive(Debug, Clone)]
pub struct QueryTemplate {
    pub template_by_id: Option<Template>,
}

/// A template stored on the server.
#[derive(Debug, Clone)]
pub struct Template {
    pub id: i32,
    /// The action's configuration, as JSON text.
    pub config: String,
    pub template: String,
    pub is_public: bool,
    pub category_id: i32,
}

#[derive(Debug, Clone)]
pub struct UploadTemplateVariables<'a> {
    pub input: TemplateCreateInput<'a>,
}

/// What creating a template sends.
#[derive(Debug, Clone)]
pub struct TemplateCreateInput<'a> {
    pub name: &'a str,
    pub config: Json,
    pub template: &'a str,
    pub user_id: i32,
    pub category_id: i32,
    pub readme: Option<&'a str>,
    pub source_code_url: Option<&'a str>,
    pub is_public: bool,
}

/// A JSON value, as text.
#[derive(Debug, Clone)]
pub struct Json(pub String);

#[derive(Debug, Clone)]
pub struct UploadTemplate {
    pub create_template: i32,
}

#[derive(Debug, Clone)]
pub struct UserCreatedTemplates {
    pub templates_by_user: UserTemplates,
}

#[derive(Debug, Clone)]
pub struct UserTemplates {
    pub templates: Vec<Template>,
}

#[derive(Debug, Clone)]
pub struct IncreaseTemplateVariables {
    pub id: i32,
}

#[derive(Debug, Clone)]
pub struct IncreaseTemplate {
    pub increase_download_count: String,
}

#[derive(Debug, Clone)]
pub struct CategoryAndTags {
    pub categories: CategoryWithPagination,
    pub tags: TagWithPagination,
}

#[derive(Debug, Clone)]
pub struct TagWithPagination {
    pub tags: Vec<Tag>,
}

#[derive(Debug, Clone)]
pub struct CategoryWithPagination {
    pub categories: Vec<Category>,
}

/// A tag a template can carry.
#[derive(Debug, Clone)]
pub struct Tag {
    pub id: i32,
    pub name: String,
}

/// A category a template belongs to.
#[derive(Debug, Clone)]
pub struct Category {
    pub id: i32,
    pub name: String,
}

#[derive(Debug, Clone)]
pub struct AddTemplateTagsVariables {
    pub input: TemplateTagInput,
}

#[derive(Debug, Clone)]
pub struct AddTemplateTags {
    pub update_tags: String,
}

/// What setting a template's tags sends.
#[derive(Debug, Clone)]
pub struct TemplateTagInput {
    pub tag_id: Vec<i32>,
    pub template_id: i32,
}

#[derive(Debug, Clone)]
pub struct GetUserId {
    pub user: User,
}

#[derive(Debug, Clone)]
pub struct User {
    pub id: i32,
}

#[derive(Debug, Clone)]
pub struct FavoriteTemplates {
    pub favorite_templates: UserTemplates,
}

#[derive(Debug, Clone)]
pub struct TemplateTagsVariables {
    pub id: i32,
}

#[derive(Debug, Clone)]
pub struct TemplateTags {
    pub template_tags: Vec<Tag>,
    pub template_by_id: Template,
}

#[derive(Debug, Clone)]
pub struct UpdateTemplateVariables<'a> {
    pub id: i32,
    pub input: TemplateUpdateInput<'a>,
}

#[derive(Debug, Clone)]
pub struct UpdateTemplate {
    pub update_template: Template,
}

/// What updating a template sends; absent fields are left as they are.
#[derive(Debug, Clone)]
pub struct TemplateUpdateInput<'a> {
    pub name: Option<&'a str>,
    pub config: Option<Json>,
    pub template: Option<&'a str>,
    pub category_id: Option<i32>,
    pub readme: Option<&'a str>,
    pub source_code_url: Option<&'a str>,
    pub is_public: Option<bool>,
}

impl Tag {
    /// Whether two tags are equal: same identifier and same name.
    pub open spec fn same(&self, other: Tag) -> bool {
        self.id == other.id && self.name@ == other.name@
    }

    /// Whether two tags are equal: same identifier and same name.
    pub fn eq(&self, other: &Tag) -> (r: bool)
        ensures
            r == self.same(*other),
    {
        self.id == other.id && str_eq(self.name.as_str(), other.name.as_str())
    }

    /// What the tag displays as: its name.
    pub fn to_string(&self) -> (r: String)
        ensures
            r@ == self.name@,
    {
        owned(self.name.as_str())
    }
}

impl Category {
    /// What the category displays as: its name.
    pub fn to_string(&self) -> (r: String)
        ensures
            r@ == self.name@,
    {
        owned(self.name.as_str())
    }
}

/// Why the templates of a user could not be listed.
#[derive(Debug, Clone)]
pub enum TemplatesError {
    /// The server refused the token, with this message.
    Unauthorized(String),
    /// The user has no favourite templates.
    NoFavorites,
    /// The reply carried no data.
    Missing,
}

impl TemplatesError {
    /// The text of the error, as the user sees it.
    pub open spec fn message_spec(&self) -> Seq<char> {
        match self {
            TemplatesError::Unauthorized(m) => m@ + " 请重新登陆"@,
            TemplatesError::NoFavorites => "您没有收藏任何模版"@,
            TemplatesError::Missing => "获取模板失败"@,
        }
    }

    /// The text of the error, as the user sees it.
    pub fn message(&self) -> (r: String)
        ensures
            r@ == self.message_spec(),
    {
        match self {
            TemplatesError::Unauthorized(m) => crate::text::concat2(m.as_str(), " 请重新登陆"),
            TemplatesError::NoFavorites => owned("您没有收藏任何模版"),
            TemplatesError::Missing => owned("获取模板失败"),
        }
    }
}

/// The messages of a list of server errors.
pub open spec fn messages(errors: Seq<String>) -> Seq<Seq<char>> {
    errors.map_values(|e: String| e@)
}

/// Reads a reply that lists templates. The error messages are shown in
/// order up to the first `Unauthorized`, which ends the command; otherwise
/// the templates are the reply's data, which must be present and, when
/// `need_some` (favourites), not empty.
pub fn templates_reply(errors: &Vec<String>, data: Option<Vec<Template>>, need_some: bool) -> (r: (
    Vec<String>,
    Result<Vec<Template>, TemplatesError>,
))
    ensures
        (exists|k: int| 0 <= k < errors@.len() && errors@[k]@ == "Unauthorized"@) <==> r.1 is Err
            && r.1->Err_0 is Unauthorized,
        r.1 matches Err(TemplatesError::Unauthorized(m)) ==> {
            &&& m@ == "Unauthorized"@
            &&& r.0@.len() < errors@.len()
            &&& errors@[r.0@.len() as int]@ == "Unauthorized"@
            &&& messages(r.0@) == messages(errors@.take(r.0@.len() as int))
            &&& forall|j: int| 0 <= j < r.0@.len() ==> errors@[j]@ != "Unauthorized"@
        },
        !(r.1 matches Err(TemplatesError::Unauthorized(_))) ==> {
            &&& messages(r.0@) == messages(errors@)
            &&& (data is None ==> (r.1 matches Err(TemplatesError::Missing)))
            &&& (data matches Some(v) ==> if need_some && v@.len() == 0 {
                (r.1 matches Err(TemplatesError::NoFavorites))
            } else {
                (r.1 matches Ok(w) && w@ == v@)
            })
        },
{
    let mut logged: Vec<String> = Vec::new();
    let mut i: usize = 0;
    while i < errors.len()
        invariant
            i <= errors@.len(),
            logged@.len() == i,
            forall|j: int| 0 <= j < i ==> errors@[j]@ != "Unauthorized"@,
            forall|j: int| 0 <= j < i ==> #[trigger] logged@[j]@ == errors@[j]@,
        decreases errors@.len() - i,
    {
        if str_eq(errors[i].as_str(), "Unauthorized") {
            assert(messages(logged@) =~= messages(errors@.take(i as int)));
            return (logged, Err(TemplatesError::Unauthorized(owned(errors[i].as_str()))));
        }
        logged.push(owned(errors[i].as_str()));
        i = i + 1;
    }
    assert(messages(logged@) =~= messages(errors@));
    match data {
        None => (logged, Err(TemplatesError::Missing)),
        Some(v) => {
            if need_some && v.len() == 0 {
                (logged, Err(TemplatesError::NoFavorites))
            } else {
                (logged, Ok(v))
            }
        },
    }
}

/// What to do after asking the server who the user is.
#[derive(Debug, Clone)]
pub enum UserIdStep {
    /// The token expired: refresh it, and the user is the token's user.
    Refresh,
    /// The user's identifier.
    Found(i32),
    /// The reply carried no user.
    Missing,
}

/// Why the user's identifier could not be had.
#[derive(Debug, Clone, Copy, PartialEq, Eq, Structural)]
pub enum UserIdError {
    /// The server's reply carried no user.
    Missing,
    /// The expired login could not be renewed.
    RefreshFailed,
}

impl UserIdError {
    /// The text of the error, as the user sees it.
    pub open spec fn message_spec(&self) -> Seq<char> {
        match self {
            UserIdError::Missing => "获取用户id失败"@,
            UserIdError::RefreshFailed => "刷新token失败! 请重新登陆"@,
        }
    }

    /// The text of the error, as the user sees it.
    pub fn message(&self) -> (r: String)
        ensures
            r@ == self.message_spec(),
    {
        match self {
            UserIdError::Missing => owned("获取用户id失败"),
            UserIdError::RefreshFailed => owned("刷新token失败! 请重新登陆"),
        }
    }
}

impl UserIdStep {
    /// The error this step ends in: `Missing` for a reply without a user,
    /// none otherwise.
    pub fn error(&self) -> (r: Option<UserIdError>)
        ensures
            self is Missing <==> r == Some(UserIdError::Missing),
            !(self is Missing) <==> r is None,
    {
        match self {
            UserIdStep::Missing => Some(UserIdError::Missing),
            _ => None,
        }
    }

    /// The message this step ends with: the text of its error, if any.
    pub fn message(&self) -> (r: Option<String>)
        ensures
            self is Missing ==> (r matches Some(m) && m@ == "获取用户id失败"@),
            !(self is Missing) ==> r is None,
    {
        match self.error() {
            Some(e) => Some(e.message()),
            None => None,
        }
    }
}

/// Reads the reply to the user query. The error messages are shown in
/// order up to the first `token expired`, which asks for a refresh of the
/// token; otherwise the reply's user identifier is the answer.
pub fn user_id_reply(errors: &Vec<String>, data: Option<i32>) -> (r: (Vec<String>, UserIdStep))
    ensures
        (exists|k: int| 0 <= k < errors@.len() && errors@[k]@ == "token expired"@) <==> r.1 is Refresh,
        r.1 is Refresh ==> {
            &&& r.0@.len() < errors@.len()
            &&& errors@[r.0@.len() as int]@ == "token expired"@
            &&& messages(r.0@) == messages(errors@.take(r.0@.len() as int))
            &&& forall|j: int| 0 <= j < r.0@.len() ==> errors@[j]@ != "token expired"@
        },
        !(r.1 is Refresh) ==> {
            &&& messages(r.0@) == messages(errors@)
            &&& (data matches Some(id) ==> r.1 == UserIdStep::Found(id))
            &&& data is None ==> r.1 is Missing
        },
{
    let mut logged: Vec<String> = Vec::new();
    let mut i: usize = 0;
    while i < errors.len()
        invariant
            i <= errors@.len(),
            logged@.len() == i,
            forall|j: int| 0 <= j < i ==> errors@[j]@ != "token expired"@,
            forall|j: int| 0 <= j < i ==> #[trigger] logged@[j]@ == errors@[j]@,
        decreases errors@.len() - i,
    {
        if str_eq(errors[i].as_str(), "token expired") {
            assert(messages(logged@) =~= messages(errors@.take(i as int)));
            return (logged, UserIdStep::Refresh);
        }
        logged.push(owned(errors[i].as_str()));
        i = i + 1;
    }
    assert(messages(logged@) =~= messages(errors@));
    match data {
        Some(id) => (logged, UserIdStep::Found(id)),
        None => (logged, UserIdStep::Missing),
    }
}

} // verus!
