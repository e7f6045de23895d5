use cargo_actions::json::{escape_json, json_array_of, json_object_last_of, json_object_of, json_string_of};
use cargo_actions::templates::prompts::{
    CommonFields, Confirm, Input, ItemOption, MultiSelect, Prompt, Prompts, Select,
};
use cargo_actions::templates::{default_write_path, ActionConfig, Config, ReadME, Template};

fn common(field: &str) -> CommonFields {
    CommonFields { prompt: format!("{field}?"), field: field.to_string() }
}

fn opt(label: &str, value: &str) -> ItemOption {
    ItemOption { label: label.to_string(), value: value.to_string() }
}

fn web_deploy() -> Config {
    Config {
        name: "web-deploy".into(),
        description: Some("构建web 应用到Github Pages".into()),
        path: None,
        prompts: Prompts(vec![
            Prompt::Select(Select {
                common: common("toolchain"),
                default: Some(0),
                options: vec![opt("npm", "\"npm\""), opt("yarn", "\"yarn\""), opt("pnpm", "\"pnpm\"")],
            }),
            Prompt::Confirm(Confirm { common: common("enable_cache"), default: Some(true) }),
            Prompt::Input(Input { common: common("node_version"), default: Some("node".into()) }),
        ]),
        success_message: None,
    }
}

#[test]
fn json_escaping_matches_serde_json() {
    for s in ["", "plain", "quote\"back\\slash", "ctl\u{1}\u{8}\t\n\u{c}\r\u{1f}", "中文 ✓"] {
        assert_eq!(json_string_of(s), serde_json::to_string(s).unwrap());
        let back: String = serde_json::from_str(&json_string_of(s)).unwrap();
        assert_eq!(back, s);
    }
    assert_eq!(escape_json("a\"b"), "a\\\"b");
}

#[test]
fn json_arrays_and_objects() {
    assert_eq!(json_array_of(&vec![]), "[]");
    assert_eq!(json_array_of(&vec!["1".into(), "\"x\"".into()]), "[1,\"x\"]");
    assert_eq!(json_object_of(&vec![], &vec![]), "{}");
    assert_eq!(json_object_of(&vec!["a", "b\""], &vec!["1".into(), "true".into()]), "{\"a\":1,\"b\\\"\":true}");
}

#[test]
fn answers_become_template_values() {
    let i = Input { common: common("n"), default: None };
    assert_eq!(i.answer_value("say \"hi\""), "\"say \\\"hi\\\"\"");
    let c = Confirm { common: common("c"), default: None };
    assert_eq!(c.answer_value(true), "true");
    assert_eq!(c.answer_value(false), "false");
    let s = Select { common: common("s"), default: None, options: vec![opt("A", "1"), opt("B", "{\"k\":2}")] };
    assert_eq!(s.answer_value(1), "{\"k\":2}");
    let m = MultiSelect { common: common("m"), default: Some(vec![2, 0]), options: vec![opt("A", "1"), opt("B", "2"), opt("C", "3")] };
    assert_eq!(m.answer_value(&vec![2, 0]), "[3,1]");
    assert_eq!(m.answer_value(&vec![]), "[]");
    assert_eq!(m.default_flags(), Some(vec![true, false, true]));
    let none = MultiSelect { common: common("m"), default: None, options: vec![opt("A", "1")] };
    assert_eq!(none.default_flags(), None);
    assert_eq!(opt("label", "1").to_string(), "label");
}

#[test]
fn prompts_make_an_object_where_later_fields_win() {
    let cfg = web_deploy();
    let data = cfg.prompts.template_data(&vec!["\"pnpm\"".into(), "true".into(), "\"18\"".into()]);
    assert_eq!(data, "{\"toolchain\":\"pnpm\",\"enable_cache\":true,\"node_version\":\"18\"}");
    let dup = Prompts(vec![
        Prompt::Input(Input { common: common("x"), default: None }),
        Prompt::Input(Input { common: common("x"), default: None }),
    ]);
    let data = dup.template_data(&vec!["\"first\"".into(), "\"second\"".into()]);
    assert_eq!(data, "{\"x\":\"second\"}");
    let v: serde_json::Value = serde_json::from_str(&data).unwrap();
    assert_eq!(v["x"], "second");
    assert_eq!(cfg.prompts.0[1].get_field(), "enable_cache");
}

#[test]
fn rendering_uses_handlebars() {
    let t = Template::from("Hello {{name}}!".to_string());
    assert_eq!(t.render_to_string("{\"name\":\"<b>\"}").unwrap(), "Hello &lt;b&gt;!");
    assert!(t.render_to_string("not json").is_err());
    let bad = Template::from("{{#if}}".to_string());
    assert!(bad.render_to_string("{}").is_err());
    let raw = Template::from("{{{{raw}}}}{{ github.ref }}{{{{/raw}}}}".to_string());
    assert_eq!(raw.render_to_string("{}").unwrap(), "{{ github.ref }}");
}

#[test]
fn action_renders_its_template_with_the_answers() {
    let action = ActionConfig::from_parts(
        web_deploy(),
        Some("readme".into()),
        "{{#if (eq toolchain \"pnpm\")}}pnpm {{/if}}cache={{enable_cache}} node={{node_version}}".into(),
    );
    assert_eq!(action.readme.as_ref().unwrap().as_str(), "readme");
    let out = action.render(&vec!["\"pnpm\"".into(), "false".into(), "\"20\"".into()]).unwrap();
    assert_eq!(out, "pnpm cache=false node=20");
}

#[test]
fn template_file_defaults_to_name_yaml_hbs() {
    let mut cfg = web_deploy();
    assert_eq!(cfg.template_file(), "web-deploy.yaml.hbs");
    assert_eq!(ActionConfig::template_path_in("/a", &cfg), "/a/web-deploy.yaml.hbs");
    cfg.path = Some("custom.hbs".into());
    assert_eq!(cfg.template_file(), "custom.hbs");
    let files = ActionConfig::files_in("/a");
    assert_eq!(files.config, "/a/cargo-action.json");
    assert_eq!(files.readme, "/a/README.md");
    assert_eq!(ReadME::from("x".to_string()).as_str(), "x");
    assert_eq!(Template::from("t".to_string()).as_str(), "t");
}

#[test]
fn workflows_go_to_github_workflows() {
    assert_eq!(default_write_path("/proj", "web-deploy"), "/proj/.github/workflows/web-deploy.yaml");
    assert_eq!(default_write_path("/proj/", "x"), "/proj/.github/workflows/x.yaml");
}

#[test]
fn server_templates_become_actions() {
    let t = cargo_actions::graphql::Template { id: 5, config: "{}".into(), template: "body".into(), is_public: false, category_id: 1 };
    let a = ActionConfig::from_server(&t, web_deploy());
    assert_eq!(a.id, Some(5));
    assert!(a.readme.is_none());
    assert_eq!(a.template.as_str(), "body");
    assert_eq!(a.config.name, web_deploy().name);
}

#[test]
fn later_entries_replace_earlier_ones() {
    let keys = vec!["a", "b", "a", "c", "b"];
    let values = vec!["1".to_string(), "2".into(), "3".into(), "4".into(), "5".into()];
    assert_eq!(json_object_last_of(&keys, &values), "{\"a\":3,\"c\":4,\"b\":5}");
    assert_eq!(json_object_last_of(&vec![], &vec![]), "{}");
    assert_eq!(json_object_last_of(&vec!["k"], &vec!["null".into()]), "{\"k\":null}");
}
