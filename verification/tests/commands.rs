use cargo_actions::cli::{template_id_reply, template_not_found, use_template_id, InitSource};
use cargo_actions::graphql::{QueryTemplate, QueryTemplateVariables, Template};
use cargo_actions::numbers::ParseIntError;
use cargo_actions::cli::{action_dirs, init_plan, InitArgs, InitError, InitPlan, WalkEntry};
use cargo_actions::config::{should_write, workflow_target, Config, Confirm, Input, ItemOption, MultiSelect, Prompt, Select};
use cargo_actions::git_url::GitUrl;
use cargo_actions::path_configs::{ConfirmWrite, WriteError, WritePath};

fn walk(name: &str, path: &str) -> WalkEntry {
    WalkEntry { name: name.into(), path: path.into() }
}

#[test]
fn init_source_and_search_root() {
    let args = InitArgs { url: Some("yexiyue/cargo-actions".into()), subpath: Some("web".into()), favorite: false, id: false };
    assert_eq!(args.source().unwrap().as_str(), "git@github.com:yexiyue/cargo-actions.git");
    assert_eq!(args.search_root("/tmp/c"), "/tmp/c/web");
    let fav = InitArgs { url: None, subpath: None, favorite: true, id: false };
    assert!(fav.source().is_none());
    assert_eq!(fav.search_root("/tmp/c"), "/tmp/c");
}

#[test]
fn init_finds_action_directories() {
    let entries = vec![
        walk("c", "/t/c"),
        walk("cargo-action.json", "/t/a/cargo-action.json"),
        walk("README.md", "/t/a/README.md"),
        walk("cargo-action.json", "/t/b/x/cargo-action.json"),
    ];
    assert_eq!(action_dirs(&entries).unwrap(), vec!["/t/a", "/t/b/x"]);
    assert!(matches!(action_dirs(&vec![walk("cargo-action.json", "")]), Err(InitError::ParentNotFound)));
    assert_eq!(InitError::ParentNotFound.message(), "cargo-action.json parent not found");
}

#[test]
fn init_plans() {
    let url = GitUrl::from("a/b");
    match init_plan(0, &url) {
        Err(e @ InitError::NoActions(_)) => assert_eq!(e.message(), "No cargo action found in git@github.com:a/b.git"),
        other => panic!("unexpected {:?}", other),
    }
    assert_eq!(init_plan(1, &url).unwrap(), InitPlan::Single);
    assert_eq!(init_plan(3, &url).unwrap(), InitPlan::Choose);
    assert_eq!(
        InitError::CloneFailed("x".into()).message(),
        "Please check if the Git user / repository exists. \n Failed to download actions from github: x"
    );
}

#[test]
fn write_path_needs_confirmation_for_existing_files() {
    let w = WritePath { write_path: "/p/.github/workflows/x.yaml".into() };
    assert_eq!(w.input_and_confirm(false, None).unwrap(), "/p/.github/workflows/x.yaml");
    assert_eq!(w.input_and_confirm(true, Some(ConfirmWrite { confirm: true })).unwrap(), "/p/.github/workflows/x.yaml");
    assert_eq!(w.input_and_confirm(true, Some(ConfirmWrite { confirm: false })), Err(WriteError::Cancelled));
    assert_eq!(w.input_and_confirm(true, None), Err(WriteError::Cancelled));
    assert_eq!(WriteError::Cancelled.message(), "您已经取消写入");
    assert_eq!(w.as_str(), "/p/.github/workflows/x.yaml");
}

fn legacy() -> Config {
    Config {
        path: "rust.yaml.hbs".into(),
        prompts: vec![
            Prompt::Input(Input { prompt: "p".into(), field: "name".into(), default: None }),
            Prompt::Confirm(Confirm { prompt: "p".into(), field: "ok".into(), default: Some(true) }),
            Prompt::Select(Select { prompt: "p".into(), field: "s".into(), default: None, options: vec![ItemOption { label: "L".into(), value: "3".into() }] }),
            Prompt::MultiSelect(MultiSelect { prompt: "p".into(), field: "package_name".into(), default: None, options: vec![ItemOption { label: "L".into(), value: "1".into() }] }),
        ],
        finish_tooltip: "done".into(),
        author: None,
        description: "Rust CI".into(),
    }
}

#[test]
fn legacy_config_data_adds_the_package_name() {
    let c = legacy();
    assert_eq!(c.to_string(), "Rust CI");
    let answers = vec![
        Input { prompt: String::new(), field: String::new(), default: None }.answer_value("x"),
        Confirm { prompt: String::new(), field: String::new(), default: None }.answer_value(false),
        "3".to_string(),
        "[1]".to_string(),
    ];
    let data = c.template_data(&answers, "my-crate");
    assert_eq!(data, "{\"name\":\"x\",\"ok\":false,\"s\":3,\"package_name\":\"my-crate\"}");
    let v: serde_json::Value = serde_json::from_str(&data).unwrap();
    assert_eq!(v["package_name"], "my-crate");
    assert_eq!(c.prompts[3].get_field(), "package_name");
}

#[test]
fn legacy_config_files() {
    let c = legacy();
    assert_eq!(c.template_path("/fav/x"), "/fav/x/rust.yaml.hbs");
    assert_eq!(c.default_file_name("/fav/x").unwrap(), "rust.yaml");
    assert_eq!(workflow_target("/proj", "rust.yaml"), "/proj/.github/workflows/rust.yaml");
    assert!(should_write(false, false));
    assert!(should_write(true, true));
    assert!(!should_write(true, false));
}

#[test]
fn template_ids_are_read_as_numbers() {
    assert_eq!(use_template_id("12").unwrap().id, 12);
    assert!(matches!(use_template_id("x"), Err(ParseIntError::InvalidDigit)));
    assert_eq!(template_not_found("12"), "template 12 not found");
}

#[test]
fn init_source_picks_favorites_server_or_repository() {
    let fav = InitArgs { url: None, subpath: None, favorite: true, id: true };
    assert!(matches!(fav.init_source(), Ok(InitSource::Favorites)));
    let by_id = InitArgs { url: Some("1".into()), subpath: None, favorite: false, id: true };
    match by_id.init_source() {
        Ok(InitSource::Server(q)) => assert_eq!(q.id, 1),
        other => panic!("unexpected {:?}", other),
    }
    let bad = InitArgs { url: Some("yexiyue/cargo-actions".into()), subpath: None, favorite: false, id: true };
    assert!(matches!(bad.init_source(), Err(ParseIntError::InvalidDigit)));
    assert_eq!(ParseIntError::InvalidDigit.message(), "invalid digit found in string");
    assert_eq!(ParseIntError::Empty.message(), "cannot parse integer from empty string");
    assert_eq!(ParseIntError::PosOverflow.message(), "number too large to fit in target type");
    assert_eq!(ParseIntError::NegOverflow.message(), "number too small to fit in target type");
    let repo = InitArgs { url: Some("yexiyue/cargo-actions".into()), subpath: None, favorite: false, id: false };
    match repo.init_source() {
        Ok(InitSource::Repository(u)) => assert_eq!(u.as_str(), "git@github.com:yexiyue/cargo-actions.git"),
        other => panic!("unexpected {:?}", other),
    }
}

fn server_template() -> Template {
    Template { id: 7, config: "\"{}\"".into(), template: "t".into(), is_public: true, category_id: 2 }
}

#[test]
fn template_reply_found() {
    let q = QueryTemplateVariables { id: 7 };
    let data = Some(QueryTemplate { template_by_id: Some(server_template()) });
    let plan = template_id_reply(&q, "7", data, &vec!["warn".to_string()]);
    assert!(plan.downloaded);
    assert_eq!(plan.found.as_ref().map(|t| t.id), Some(7));
    assert_eq!(plan.found.unwrap().template, "t");
    assert!(plan.not_found.is_none());
    assert_eq!(plan.errors, vec!["warn"]);
    assert_eq!(plan.count.id, 7);
}

#[test]
fn template_reply_not_found_still_counts() {
    let q = QueryTemplateVariables { id: 9 };
    let plan = template_id_reply(&q, "9", Some(QueryTemplate { template_by_id: None }), &vec![]);
    assert!(plan.downloaded);
    assert!(plan.found.is_none());
    assert_eq!(plan.not_found.unwrap(), "template 9 not found");
    assert!(plan.errors.is_empty());
    assert_eq!(plan.count.id, 9);
    let none = template_id_reply(&q, "9", None, &vec!["boom".to_string(), "again".to_string()]);
    assert!(!none.downloaded);
    assert!(none.found.is_none() && none.not_found.is_none());
    assert_eq!(none.errors, vec!["boom", "again"]);
    assert_eq!(none.count.id, 9);
}

#[test]
fn legacy_config_renders_with_the_package_name() {
    let c = legacy();
    let answers = vec!["\"x\"".to_string(), "true".to_string(), "3".to_string(), "[1]".to_string()];
    let out = c.render_config("{{name}} {{ok}} {{s}} {{package_name}}", &answers, "my-crate").unwrap();
    assert_eq!(out, "x true 3 my-crate");
    assert!(c.render_config("{{#if}}", &answers, "my-crate").is_err());
}

#[test]
fn legacy_config_write_outcomes() {
    let c = legacy();
    let answers = vec!["\"x\"".to_string(), "true".to_string(), "3".to_string(), "[1]".to_string()];
    let w = c.write_workflow("name: {{name}}", &answers, "p", false, false).unwrap();
    assert_eq!(w.contents.unwrap(), "name: x");
    assert_eq!(w.success, "Created successfully!\n");
    assert_eq!(w.tooltip, "done");
    let w = c.write_workflow("name: {{name}}", &answers, "p", true, true).unwrap();
    assert_eq!(w.contents.unwrap(), "name: x");
    let declined = c.write_workflow("{{#if}}", &answers, "p", true, false).unwrap();
    assert!(declined.contents.is_none());
    assert_eq!(declined.success, "Created successfully!\n");
    assert_eq!(declined.tooltip, "done");
    assert!(c.write_workflow("{{#if}}", &answers, "p", false, false).is_err());
}
