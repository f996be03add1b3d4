use wardex::config::{CleanRule, Config, CtfConfig, Organize, Paths, Rules};
use wardex::paths::join_path;

fn test_config() -> Config {
    Config {
        paths: Paths {
            workspace: "/home/user/workspace".to_string(),
            inbox: None,
            projects: None,
            areas: None,
            resources: None,
            archives: None,
            ctf_root: None,
            custom: Vec::new(),
        },
        rules: Rules { clean: Vec::<CleanRule>::new() },
        organize: Organize { ctf_dir: "projects/CTFs".to_string() },
        ctf: CtfConfig { default_categories: Vec::new(), template_file: None },
    }
}

#[test]
fn test_resolve_path_direct_keys() {
    let config = test_config();
    assert_eq!(config.resolve_path("workspace"), "/home/user/workspace");
    assert_eq!(config.resolve_path("inbox"), "/home/user/workspace/0_Inbox");
}

#[test]
fn test_resolve_path_ctf_root() {
    let config = test_config();
    assert_eq!(config.resolve_path("ctf_root"), "/home/user/workspace/1_Projects/CTFs");
}

#[test]
fn test_ctf_root_helper() {
    let config = test_config();
    assert_eq!(config.ctf_root(), "/home/user/workspace/1_Projects/CTFs");
}

#[test]
fn well_known_keys_have_defaults_under_the_workspace() {
    let config = test_config();
    assert_eq!(config.resolve_path("projects"), "/home/user/workspace/1_Projects");
    assert_eq!(config.resolve_path("areas"), "/home/user/workspace/2_Areas");
    assert_eq!(config.resolve_path("resources"), "/home/user/workspace/3_Resources");
    assert_eq!(config.resolve_path("archives"), "/home/user/workspace/4_Archives");
}

#[test]
fn explicit_paths_win_over_defaults() {
    let mut config = test_config();
    config.paths.inbox = Some("/data/drop".to_string());
    config.paths.projects = Some("/data/projects".to_string());
    config.paths.ctf_root = Some("/data/ctf".to_string());
    assert_eq!(config.resolve_path("inbox"), "/data/drop");
    assert_eq!(config.resolve_path("projects"), "/data/projects");
    assert_eq!(config.resolve_path("ctf_root"), "/data/ctf");
    assert_eq!(config.resolve_path("notes"), "/data/projects/notes");
}

#[test]
fn ctf_root_follows_explicit_projects() {
    let mut config = test_config();
    config.paths.projects = Some("/data/projects".to_string());
    assert_eq!(config.ctf_root(), "/data/projects/CTFs");
}

#[test]
fn custom_keys_resolve_to_their_path() {
    let mut config = test_config();
    config.paths.custom = vec![
        ("books".to_string(), "/library/books".to_string()),
        ("music".to_string(), "/library/music".to_string()),
    ];
    assert_eq!(config.resolve_path("music"), "/library/music");
    assert_eq!(config.resolve_path("books"), "/library/books");
}

#[test]
fn unknown_keys_fall_back_under_projects() {
    let config = test_config();
    assert_eq!(config.resolve_path("homework"), "/home/user/workspace/1_Projects/homework");
}

#[test]
fn nested_keys_resolve_their_first_segment() {
    let mut config = test_config();
    assert_eq!(config.resolve_path("projects/CTFs"), "/home/user/workspace/1_Projects/CTFs");
    assert_eq!(config.resolve_path("resources/papers/2024"), "/home/user/workspace/3_Resources/papers/2024");
    config.paths.custom = vec![("books".to_string(), "/library/books".to_string())];
    assert_eq!(config.resolve_path("books/novels"), "/library/books/novels");
    assert_eq!(config.resolve_path("misc/old"), "/home/user/workspace/1_Projects/misc/old");
}

#[test]
fn absolute_keys_are_taken_as_they_are() {
    let config = test_config();
    assert_eq!(config.resolve_path("/srv/dump"), "/srv/dump");
}

#[test]
fn join_places_one_separator() {
    assert_eq!(join_path("/a", "b"), "/a/b");
    assert_eq!(join_path("/a/", "b"), "/a/b");
    assert_eq!(join_path("", "b"), "b");
    assert_eq!(join_path("/a", "/b"), "/b");
    assert_eq!(join_path("/a", ""), "/a/");
}
