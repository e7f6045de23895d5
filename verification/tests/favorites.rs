use cargo_actions::favorites::commands::{AddArgs, AddStep, Answer, Question, RemoveArgs};
use cargo_actions::favorites::config::FavoriteConfig;
use cargo_actions::favorites::{
    action_glob, collect_actions, ActionEntry, Favorite, FavoriteError, FavoriteGit,
    FavoriteLocal, FavoriteMeta,
};

fn local(id: &str) -> Favorite {
    let mut f = FavoriteLocal::new("/x/cargo-action.json");
    f.meta.set_id(id);
    Favorite::Local(f)
}

fn git(id: &str) -> Favorite {
    let mut f = FavoriteGit::new("a/b", None);
    f.meta.set_id(id);
    Favorite::Git(f)
}

#[test]
fn meta_setters_chain() {
    let mut m = FavoriteMeta::default();
    m.set_id("i").set_origin("o").set_describe("d");
    assert_eq!(m.id, "i");
    assert_eq!(m.origin, "o");
    assert_eq!(m.description, "d");
    assert_eq!(m.author, None);
}

#[test]
fn add_then_has_id() {
    let mut c = FavoriteConfig::new();
    assert!(!c.has_id("a"));
    assert_eq!(c.add_favorite(local("a")).unwrap(), "a");
    assert!(c.has_id("a"));
    assert_eq!(c.add_favorite(git("b")).unwrap(), "b");
    assert_eq!(c.get_ids(), vec!["a", "b"]);
}

#[test]
fn adding_a_known_id_is_refused_and_changes_nothing() {
    let mut c = FavoriteConfig::new();
    c.add_favorite(local("a")).unwrap();
    match c.add_favorite(git("a")) {
        Err(FavoriteError::AlreadyExists(id)) => assert_eq!(id, "a"),
        other => panic!("unexpected {:?}", other),
    }
    assert_eq!(c.favorites().len(), 1);
    assert!(matches!(c.favorites()[0], Favorite::Local(_)));
    assert_eq!(
        FavoriteError::AlreadyExists("a".to_string()).message(),
        "The favorite a already exists"
    );
}

#[test]
fn remove_after_add_restores_the_list() {
    let mut c = FavoriteConfig::from_favorites(vec![local("a"), git("b")]);
    c.add_favorite(local("c")).unwrap();
    c.remove_favorite("c").unwrap();
    assert_eq!(c.get_ids(), vec!["a", "b"]);
    assert!(!c.has_id("c"));
}

#[test]
fn remove_takes_only_the_first_match() {
    let mut c = FavoriteConfig::from_favorites(vec![local("a"), git("b"), git("a")]);
    c.remove_favorite("a").unwrap();
    assert_eq!(c.get_ids(), vec!["b", "a"]);
    assert!(matches!(c.favorites()[1], Favorite::Git(_)));
}

#[test]
fn removing_an_unknown_id_fails() {
    let mut c = FavoriteConfig::from_favorites(vec![local("a")]);
    assert!(matches!(c.remove_favorite("z"), Err(FavoriteError::NotFound)));
    assert_eq!(c.get_ids(), vec!["a"]);
    assert_eq!(FavoriteError::NotFound.message(), "favorite not found");
}

#[test]
fn add_favorites_reports_each_item() {
    let args = AddArgs { url: None, subpath: None, local: true, copy: false };
    let mut c = FavoriteConfig::from_favorites(vec![local("a")]);
    let out = args.add_favorites(&mut c, vec![local("b"), git("a"), local("b"), git("c")]);
    assert_eq!(out.len(), 4);
    assert_eq!(out[0].as_ref().unwrap(), "b");
    assert!(matches!(&out[1], Err(FavoriteError::AlreadyExists(x)) if x == "a"));
    assert!(matches!(&out[2], Err(FavoriteError::AlreadyExists(x)) if x == "b"));
    assert_eq!(out[3].as_ref().unwrap(), "c");
    assert_eq!(c.get_ids(), vec!["a", "b", "c"]);
}

#[test]
fn remove_args_pick_and_run() {
    let mut c = FavoriteConfig::from_favorites(vec![local("a"), local("b")]);
    let ids: Vec<String> = c.get_ids().iter().map(|s| s.to_string()).collect();
    let id_refs: Vec<&str> = ids.iter().map(|s| s.as_str()).collect();
    let mut args = RemoveArgs { name: None };
    args.choose_name(&id_refs, 1);
    assert_eq!(args.name.as_deref(), Some("b"));
    args.run(&mut c).unwrap();
    assert_eq!(c.get_ids(), vec!["a"]);
    let mut named = RemoveArgs { name: Some("a".into()) };
    named.choose_name(&id_refs, 0);
    assert_eq!(named.name.as_deref(), Some("a"));
}

fn prompt_of(q: Option<Question>) -> Option<String> {
    q.map(|q| match q {
        Question::Confirm { prompt, .. } => prompt,
        Question::Input { prompt, .. } => prompt,
    })
}

#[test]
fn add_asks_in_order_and_skips_what_is_known() {
    let mut args = AddArgs { url: None, subpath: None, local: false, copy: false };
    assert_eq!(prompt_of(args.question(AddStep::UseLocal, "/h")).as_deref(), Some("Use local path?"));
    args.answer(AddStep::UseLocal, Answer::Yes(true));
    assert!(args.local);
    assert_eq!(prompt_of(args.question(AddStep::Location, "/h")).as_deref(), Some("Enter the local path"));
    args.answer(AddStep::Location, Answer::Text("./x".into()));
    assert_eq!(args.url.as_deref(), Some("./x"));
    assert!(args.question(AddStep::Subpath, "/h").is_none());
    assert_eq!(
        prompt_of(args.question(AddStep::Copy, "/h")).as_deref(),
        Some("Copy the favorite to the /h/.cargo-actions?")
    );
    args.answer(AddStep::Copy, Answer::Yes(true));
    assert!(args.copy);
    assert!(args.question(AddStep::Copy, "/h").is_none());

    let mut g = AddArgs { url: None, subpath: None, local: false, copy: true };
    g.answer(AddStep::UseLocal, Answer::Yes(false));
    assert_eq!(prompt_of(g.question(AddStep::Location, "/h")).as_deref(), Some("Enter the git url"));
    match g.question(AddStep::Subpath, "/h") {
        Some(Question::Input { prompt, allow_empty }) => {
            assert_eq!(prompt, "Enter the subpath");
            assert!(allow_empty);
        }
        other => panic!("unexpected {:?}", other),
    }
    // An answer of the wrong kind changes nothing.
    g.answer(AddStep::Subpath, Answer::Yes(true));
    assert_eq!(g.subpath, None);
    let with_subpath = AddArgs { url: Some("u".into()), subpath: Some("s".into()), local: false, copy: true };
    assert!(with_subpath.question(AddStep::UseLocal, "/h").is_none());
    assert!(with_subpath.question(AddStep::Location, "/h").is_none());
}

fn entry(file: &str) -> ActionEntry {
    ActionEntry {
        config_file: file.to_string(),
        template: "web.yaml.hbs".to_string(),
        author: Some("me".to_string()),
        description: "desc".to_string(),
    }
}

#[test]
fn local_favorite_without_copy() {
    let fav = FavoriteLocal::new("./actions");
    let (f, plan) = fav.gen_favorite(false, "/home/u", &entry("/p/web/cargo-action.json")).unwrap();
    assert!(plan.is_none());
    assert_eq!(f.path, "/p/web/cargo-action.json");
    assert_eq!(f.meta.origin, "/p/web/cargo-action.json");
    assert_eq!(f.meta.id, format!("{:?}", md5::compute("/p/web/cargo-action.json")));
    assert_eq!(f.meta.id.len(), 32);
    assert_eq!(f.meta.description, "desc");
    assert_eq!(f.meta.author.as_deref(), Some("me"));
}

#[test]
fn local_favorite_with_copy() {
    let fav = FavoriteLocal::new("./actions");
    let (f, plan) = fav.gen_favorite(true, "/home/u", &entry("/p/web/cargo-action.json")).unwrap();
    let plan = plan.unwrap();
    let id = format!("{:?}", md5::compute("/p/web/cargo-action.json"));
    assert_eq!(plan.template_from, "/p/web/web.yaml.hbs");
    assert_eq!(plan.template_name, "web.yaml.hbs");
    assert_eq!(plan.template_to, format!("/home/u/.cargo-actions/{id}/web.yaml.hbs"));
    assert_eq!(plan.config_to, format!("/home/u/.cargo-actions/{id}/cargo-action.json"));
    assert_eq!(f.path, plan.config_to);
}

#[test]
fn copy_needs_a_parent_directory() {
    let fav = FavoriteLocal::new("/");
    assert!(fav.gen_favorite(true, "/home/u", &entry("/")).is_none());
    assert!(fav.gen_favorite(false, "/home/u", &entry("/")).is_some());
}

#[test]
fn git_favorite_is_relative_to_the_clone() {
    let fav = FavoriteGit::new("yexiyue/cargo-actions", None);
    let (f, plan) = fav
        .gen_favorite(false, "/home/u", "/tmp/clone", &entry("/tmp/clone/web/cargo-action.json"))
        .unwrap();
    assert!(plan.is_none());
    assert_eq!(f.subpath.as_deref(), Some("web/cargo-action.json"));
    assert_eq!(
        f.meta.id,
        format!("{:?}", md5::compute("yexiyue/cargo-actions/web/cargo-action.json"))
    );
    assert_eq!(f.meta.origin, "git@github.com:yexiyue/cargo-actions.git");
    assert_eq!(f.url, "yexiyue/cargo-actions");
    assert_eq!(f.path, None);
}

#[test]
fn select_picks_the_only_action_or_the_chosen_ones() {
    let fav = FavoriteLocal::new(".");
    let one = vec![entry("/p/a/cargo-action.json")];
    let out = fav.select(false, "/h", &one, &vec![]).unwrap();
    assert_eq!(out.len(), 1);
    let many = vec![entry("/p/a/cargo-action.json"), entry("/p/b/cargo-action.json"), entry("/p/c/cargo-action.json")];
    let out = fav.select(false, "/h", &many, &vec![2, 0]).unwrap();
    assert_eq!(out.len(), 2);
    assert_eq!(out[0].0.path, "/p/c/cargo-action.json");
    assert_eq!(out[1].0.path, "/p/a/cargo-action.json");
    let git = FavoriteGit::new("a/b", None);
    let out = git.select(false, "/h", "/t", &many, &vec![1]).unwrap();
    assert_eq!(out[0].0.subpath.as_deref(), Some("p/b/cargo-action.json"));
}

#[test]
fn search_roots_and_found_actions() {
    assert_eq!(FavoriteLocal::new("/abs").search_root("/cwd"), "/abs");
    assert_eq!(FavoriteLocal::new("rel").search_root("/cwd"), "/cwd/rel");
    assert_eq!(FavoriteGit::new("a/b", Some("x".into())).search_root("/t"), "/t/x");
    assert_eq!(action_glob("/t"), "/t/**/cargo-action.json");
    assert!(matches!(collect_actions("/t", true, vec![]), Err(FavoriteError::NoActions)));
    assert_eq!(collect_actions("/t", true, vec!["/t/a".into()]).unwrap(), vec!["/t/a"]);
    assert_eq!(
        collect_actions("/t/cargo-action.json", false, vec![]).unwrap(),
        vec!["/t/cargo-action.json"]
    );
    assert!(matches!(collect_actions("/t/other.json", false, vec![]), Err(FavoriteError::NoActions)));
    assert_eq!(FavoriteError::NoActions.message(), "not found actions");
    let found = FavoriteLocal::new("x/cargo-action.json").find_actions("/c", false, vec![]).unwrap();
    assert_eq!(found, vec!["/c/x/cargo-action.json"]);
}

#[test]
fn writing_favorites() {
    let w = FavoriteLocal::new("/p/web/cargo-action.json").write().unwrap();
    assert_eq!(w.config_file, "/p/web/cargo-action.json");
    assert_eq!(w.base_dir, "/p/web");
    assert!(FavoriteLocal::new("/").write().is_none());
    let g = FavoriteGit::new("a/b", Some("web/cargo-action.json".into()));
    let w = g.write("/tmp/c").unwrap();
    let c = w.clone.unwrap();
    assert_eq!(c.url, "git@github.com:a/b.git");
    assert_eq!(c.path, "/tmp/c");
    assert_eq!(w.config.config_file, "/tmp/c/web/cargo-action.json");
    assert_eq!(w.config.base_dir, "/tmp/c/web");
    let mut copied = FavoriteGit::new("a/b", None);
    copied.path = Some("/h/.cargo-actions/x/cargo-action.json".into());
    let w = copied.write("/tmp/c").unwrap();
    assert!(w.clone.is_none());
    assert_eq!(w.config.base_dir, "/h/.cargo-actions/x");
}

#[test]
fn saved_files_live_under_home() {
    assert_eq!(FavoriteConfig::config_file("/home/u"), "/home/u/.cargo-actions/favorite.json");
    assert_eq!(cargo_actions::token::Token::token_file("/home/u/"), "/home/u/.cargo-actions/token.json");
}
