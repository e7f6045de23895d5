use cargo_actions::graphql::{
    templates_reply, user_id_reply, Category, CategoryAndTags, CategoryWithPagination, Tag,
    TagWithPagination, Template, TemplateTags, TemplatesError, UserIdError, UserIdStep,
};
use cargo_actions::templates::prompts::Prompts;
use cargo_actions::templates::{ActionConfig, Config};
use cargo_actions::token::{RefreshReply, Token, User};
use cargo_actions::upload::{
    category_position, create_input, input_defaults, success_message, tag_flags, tag_input,
    template_url, update_input, Inputs, UploadArgs, UploadError, UploadStep,
};
use cargo_actions::favorites::commands::{Answer, Question};

fn template(id: i32, category: i32) -> Template {
    Template { id, config: "{}".into(), template: "t".into(), is_public: false, category_id: category }
}

fn tag(id: i32, name: &str) -> Tag {
    Tag { id, name: name.into() }
}

fn cat(id: i32, name: &str) -> Category {
    Category { id, name: name.into() }
}

#[test]
fn templates_reply_stops_at_unauthorized() {
    let errors = vec!["boom".to_string(), "Unauthorized".to_string(), "later".to_string()];
    let (logged, r) = templates_reply(&errors, Some(vec![template(1, 1)]), false);
    assert_eq!(logged, vec!["boom"]);
    match r {
        Err(e @ TemplatesError::Unauthorized(_)) => assert_eq!(e.message(), "Unauthorized 请重新登陆"),
        other => panic!("unexpected {:?}", other),
    }
}

#[test]
fn templates_reply_data_rules() {
    let errors = vec!["warn".to_string()];
    let (logged, r) = templates_reply(&errors, Some(vec![template(1, 1)]), true);
    assert_eq!(logged, vec!["warn"]);
    assert_eq!(r.unwrap().len(), 1);
    let (_, r) = templates_reply(&vec![], Some(vec![]), true);
    let e = r.unwrap_err();
    assert!(matches!(e, TemplatesError::NoFavorites));
    assert_eq!(e.message(), "您没有收藏任何模版");
    let (_, r) = templates_reply(&vec![], Some(vec![]), false);
    assert_eq!(r.unwrap().len(), 0);
    let (_, r) = templates_reply(&vec![], None, false);
    let e = r.unwrap_err();
    assert!(matches!(e, TemplatesError::Missing));
    assert_eq!(e.message(), "获取模板失败");
}

#[test]
fn user_id_reply_rules() {
    let (logged, step) = user_id_reply(&vec!["a".into(), "token expired".into()], Some(3));
    assert_eq!(logged, vec!["a"]);
    assert!(matches!(step, UserIdStep::Refresh));
    let (logged, step) = user_id_reply(&vec!["a".into()], Some(3));
    assert_eq!(logged, vec!["a"]);
    assert!(matches!(step, UserIdStep::Found(3)));
    let (_, step) = user_id_reply(&vec![], None);
    assert!(matches!(step, UserIdStep::Missing));
}

#[test]
fn tags_and_categories() {
    let cats = vec![cat(4, "a"), cat(7, "b"), cat(7, "c")];
    assert_eq!(category_position(&cats, 7), Some(1));
    assert_eq!(category_position(&cats, 9), None);
    let all = vec![tag(1, "x"), tag(2, "y"), tag(3, "z")];
    let carried = vec![tag(3, "z"), tag(2, "other")];
    assert_eq!(tag_flags(&all, &carried), vec![false, false, true]);
    assert!(tag(1, "x").eq(&tag(1, "x")));
    assert!(!tag(1, "x").eq(&tag(1, "y")));
    assert_eq!(tag(1, "x").to_string(), "x");
    assert_eq!(cat(1, "c").to_string(), "c");
}

#[test]
fn upload_defaults() {
    let choices = CategoryAndTags {
        categories: CategoryWithPagination { categories: vec![cat(1, "a"), cat(2, "b")] },
        tags: TagWithPagination { tags: vec![tag(1, "x"), tag(2, "y")] },
    };
    let fresh = input_defaults(&choices, None).unwrap();
    assert_eq!((fresh.category, fresh.tags.len(), fresh.is_public), (0, 0, true));
    let current = TemplateTags { template_tags: vec![tag(2, "y")], template_by_id: template(9, 2) };
    let d = input_defaults(&choices, Some(&current)).unwrap();
    assert_eq!(d.category, 1);
    assert_eq!(d.tags, vec![false, true]);
    assert!(!d.is_public);
    let unknown = TemplateTags { template_tags: vec![], template_by_id: template(9, 5) };
    assert!(input_defaults(&choices, Some(&unknown)).is_none());
}

fn action() -> ActionConfig {
    let config = Config { name: "n".into(), description: None, path: None, prompts: Prompts(vec![]), success_message: None };
    ActionConfig::from_parts(config, Some("r".into()), "tpl".into())
}

#[test]
fn upload_payloads() {
    let a = action();
    let inputs = Inputs { category_id: cat(5, "c"), tags_id: vec![tag(1, "x"), tag(3, "z")], is_public: true };
    let c = create_input(&a, "{\"name\":\"n\"}".into(), 11, &inputs);
    assert_eq!((c.name, c.template, c.user_id, c.category_id, c.readme, c.is_public), ("n", "tpl", 11, 5, Some("r"), true));
    assert_eq!(c.config.0, "{\"name\":\"n\"}");
    assert!(c.source_code_url.is_none());
    let u = update_input(&a, "{}".into(), &inputs);
    assert_eq!((u.name, u.template, u.category_id, u.is_public), (Some("n"), Some("tpl"), Some(5), Some(true)));
    let t = tag_input(&inputs, 8);
    assert_eq!(t.tag_id, vec![1, 3]);
    assert_eq!(t.template_id, 8);
    assert_eq!(success_message(true), "模版更新成功");
    assert_eq!(success_message(false), "模版上传成功");
    assert_eq!(template_url(42), "https://yexiyue.github.io/actions-workflow/template/42");
    assert_eq!(UploadError::PathIsFile.message(), "actions template文件夹路径不能是文件");
}

#[test]
fn upload_questions() {
    let mut args = UploadArgs { path: None, update: Some(false), id: None };
    assert!(matches!(args.question(UploadStep::Update), Some(Question::Confirm { default: false, .. })));
    args.answer(UploadStep::Update, Answer::Yes(true));
    assert_eq!(args.update, Some(true));
    assert!(args.question(UploadStep::Update).is_none());
    match args.question(UploadStep::Id) {
        Some(Question::Input { prompt, .. }) => assert_eq!(prompt, "请输入actions template模版ID："),
        other => panic!("unexpected {:?}", other),
    }
    args.answer_id(12);
    assert!(args.question(UploadStep::Id).is_none());
    assert!(args.question(UploadStep::Path).is_some());
    args.answer(UploadStep::Path, Answer::Text("tpl".into()));
    assert!(args.question(UploadStep::Path).is_none());
    assert_eq!(args.template_dir("/cwd"), "/cwd/tpl");
    let abs = UploadArgs { path: Some("/abs".into()), update: Some(true), id: Some(1) };
    assert_eq!(abs.template_dir("/cwd"), "/abs");
}

#[test]
fn bearer_token() {
    let t = Token {
        token: "abc".into(),
        access_token: "x".into(),
        refresh_token: None,
        user: User { avatar_url: String::new(), create_at: None, id: 1, username: "u".into() },
    };
    assert_eq!(t.authorization(), "Bearer abc");
}

fn login() -> Token {
    Token {
        token: "old".into(),
        access_token: "old-access".into(),
        refresh_token: Some("old-refresh".into()),
        user: User { avatar_url: String::new(), create_at: None, id: 42, username: "u".into() },
    }
}

#[test]
fn user_id_messages() {
    assert_eq!(UserIdError::Missing.message(), "获取用户id失败");
    assert_eq!(UserIdError::RefreshFailed.message(), "刷新token失败! 请重新登陆");
    assert_eq!(UserIdStep::Missing.message().unwrap(), "获取用户id失败");
    assert_eq!(UserIdStep::Missing.error(), Some(UserIdError::Missing));
    assert!(UserIdStep::Found(3).message().is_none());
    assert!(UserIdStep::Refresh.error().is_none());
}

#[test]
fn refresh_request_sends_id_and_refresh_token() {
    let r = login().refresh_request();
    assert_eq!(r.id, 42);
    assert_eq!(r.refresh_token.as_deref(), Some("old-refresh"));
}

#[test]
fn refresh_failures_keep_the_login() {
    let mut t = login();
    assert_eq!(t.apply_refresh(None), Err(UserIdError::RefreshFailed));
    assert_eq!(t.token, "old");
    let refused = RefreshReply { code: Some(500), token: None, access_token: None, refresh_token: None };
    assert_eq!(t.apply_refresh(Some(refused)), Err(UserIdError::RefreshFailed));
    assert_eq!((t.token.as_str(), t.access_token.as_str()), ("old", "old-access"));
    assert_eq!(t.refresh_token.as_deref(), Some("old-refresh"));
}

#[test]
fn refresh_success_stores_new_tokens() {
    let mut t = login();
    let reply = RefreshReply {
        code: Some(200),
        token: Some("new".into()),
        access_token: Some("new-access".into()),
        refresh_token: Some("new-refresh".into()),
    };
    assert_eq!(t.apply_refresh(Some(reply)), Ok(42));
    assert_eq!((t.token.as_str(), t.access_token.as_str()), ("new", "new-access"));
    assert_eq!(t.refresh_token.as_deref(), Some("new-refresh"));
    assert_eq!(t.user.id, 42);
    let mut u = login();
    let no_code = RefreshReply { code: None, token: Some("a".into()), access_token: Some("b".into()), refresh_token: Some("c".into()) };
    assert_eq!(u.apply_refresh(Some(no_code)), Ok(42));
    assert_eq!(u.token, "a");
}
