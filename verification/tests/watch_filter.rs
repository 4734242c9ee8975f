use echidna::watch::filter::{
    component_is_excluded, is_relevant, is_relevant_change, path_is_excluded, path_is_relevant,
    should_ignore_path, ChangeEvent, ChangeKind, WatchScope,
};

fn event(kind: ChangeKind, paths: &[&str]) -> ChangeEvent {
    ChangeEvent { kind, paths: paths.iter().map(|p| p.to_string()).collect(), timestamp: 0 }
}

fn relevant(path: &str) -> bool {
    is_relevant(&event(ChangeKind::Modified, &[path]), &WatchScope::for_project("/project"))
}

#[test]
fn test_should_ignore_path_dist() {
    assert!(should_ignore_path("project/dist/wheel.whl"));
    assert!(should_ignore_path("/abs/path/dist/file.py"));
}

#[test]
fn test_should_ignore_path_pycache() {
    assert!(should_ignore_path("src/__pycache__/module.pyc"));
}

#[test]
fn test_should_ignore_path_egg_info() {
    assert!(should_ignore_path("src/mypackage.egg-info/PKG-INFO"));
}

#[test]
fn test_should_not_ignore_normal_paths() {
    assert!(!should_ignore_path("src/module.py"));
    assert!(!should_ignore_path("tests/test_module.py"));
    assert!(!should_ignore_path("pyproject.toml"));
}

#[test]
fn test_should_not_ignore_substring_matches() {
    // "dist" as substring should NOT be ignored
    assert!(!should_ignore_path("src/redistribution.py"));
    // "build" as substring should NOT be ignored
    assert!(!should_ignore_path("src/rebuild_utils.py"));
}

#[test]
fn default_scope_of_a_project() {
    let scope = WatchScope::for_project("/p");
    assert_eq!(scope.root, "/p");
    assert_eq!(scope.watched_entries, vec!["src", "tests", "pyproject.toml"]);
    assert_eq!(
        scope.excluded_names,
        vec!["dist", "build", ".venv", "__pycache__", ".git", "htmlcov"]
    );
    assert_eq!(scope.excluded_suffixes, vec![".egg-info"]);
    assert_eq!(scope.allowed_extensions, vec!["py", "pyi", "toml", "cxc"]);
}

#[test]
fn excluded_component_rejects_whatever_the_extension() {
    for name in ["dist", "build", ".venv", "__pycache__", ".git", "htmlcov"] {
        for ext in ["py", "pyi", "toml", "cxc", "txt"] {
            assert!(!relevant(&format!("src/{}/module.{}", name, ext)));
            assert!(!relevant(&format!("{}/module.{}", name, ext)));
            assert!(!relevant(&format!("/abs/{}/deep/er/module.{}", name, ext)));
        }
        // The name of the file itself is a component too.
        assert!(!relevant(&format!("src/{}", name)));
    }
}

#[test]
fn substring_of_an_excluded_name_is_no_component() {
    assert!(relevant("src/rebuild_utils.py"));
    assert!(relevant("src/redistribution.py"));
    assert!(relevant("src/building/dist_x/a.py"));
    assert!(relevant("src/.gitx/a.py"));
}

#[test]
fn suffix_matched_component_rejects() {
    assert!(!relevant("src/mytool.egg-info/PKG-INFO"));
    assert!(!relevant("src/mytool.egg-info/top.py"));
    assert!(!relevant(".egg-info/a.py"));
    assert!(relevant("src/egg-info/a.py"));
    assert!(relevant("src/mytool.egg-info.d/a.py"));
}

#[test]
fn extension_decides_for_paths_that_are_not_excluded() {
    assert!(relevant("src/module.py"));
    assert!(relevant("src/module.pyi"));
    assert!(relevant("pyproject.toml"));
    assert!(relevant("scripts/smoke.cxc"));
    assert!(!relevant("notes.txt"));
    assert!(!relevant("src/module.PY"));
    assert!(!relevant("src/module"));
    assert!(!relevant("src/.py"));
    assert!(!relevant("src/module.py.bak"));
    assert!(!relevant("src/module."));
    assert!(!relevant(""));
    assert!(relevant("src/a.b/module.py"));
    assert!(relevant("src/module.py/"));
    assert!(!relevant("src/module.py/.."));
}

#[test]
fn dot_components_are_not_normal() {
    let scope = WatchScope {
        root: String::new(),
        watched_entries: vec![],
        excluded_names: vec![".".to_string(), "..".to_string(), "".to_string()],
        excluded_suffixes: vec![],
        allowed_extensions: vec!["py".to_string()],
    };
    assert!(!path_is_excluded("./a//b/../c.py", &scope));
    assert!(path_is_relevant("./a//b/../c.py", &scope));
}

#[test]
fn empty_suffix_excludes_every_component() {
    let scope = WatchScope {
        root: String::new(),
        watched_entries: vec![],
        excluded_names: vec![],
        excluded_suffixes: vec!["".to_string()],
        allowed_extensions: vec!["py".to_string()],
    };
    assert!(path_is_excluded("a.py", &scope));
    assert!(!path_is_excluded("/", &scope));
    let chars: Vec<char> = "x".chars().collect();
    assert!(component_is_excluded(&chars, &scope));
}

#[test]
fn kind_must_be_create_modify_or_remove() {
    let scope = WatchScope::for_project("/p");
    assert!(is_relevant(&event(ChangeKind::Created, &["src/a.py"]), &scope));
    assert!(is_relevant(&event(ChangeKind::Modified, &["src/a.py"]), &scope));
    assert!(is_relevant(&event(ChangeKind::Removed, &["src/a.py"]), &scope));
    assert!(!is_relevant(&event(ChangeKind::Other, &["src/a.py"]), &scope));
}

#[test]
fn one_relevant_path_is_enough() {
    let scope = WatchScope::for_project("/p");
    assert!(is_relevant(
        &event(ChangeKind::Modified, &["dist/a.py", "notes.txt", "src/a.py"]),
        &scope
    ));
    assert!(!is_relevant(&event(ChangeKind::Modified, &["dist/a.py", "notes.txt"]), &scope));
    assert!(!is_relevant(&event(ChangeKind::Modified, &[]), &scope));
}

#[test]
fn relevant_change_uses_the_default_scope() {
    assert!(is_relevant_change(&event(ChangeKind::Modified, &["/p/src/cmd.py"]), "/p"));
    assert!(!is_relevant_change(&event(ChangeKind::Modified, &["/p/build/cmd.py"]), "/p"));
    assert!(!is_relevant_change(&event(ChangeKind::Other, &["/p/src/cmd.py"]), "/p"));
}
