use echidna::config::{Config, CONFIG_FILE_NAME};

#[test]
fn test_default_config() {
    let config = Config::default();
    assert_eq!(config.bundle_name, None);
    assert_eq!(config.package_name, None);
    assert_eq!(config.chimerax_path, None);
    assert_eq!(config.default_script, None);
    assert!(!config.user_install);
}

#[test]
fn config_file_name() {
    assert_eq!(CONFIG_FILE_NAME, "echidna.toml");
}

#[test]
fn config_candidates_walk_upwards() {
    assert_eq!(
        Config::candidate_files("/a/b"),
        vec!["/a/b/echidna.toml", "/a/echidna.toml", "/echidna.toml"]
    );
    assert_eq!(Config::candidate_files("a"), vec!["a/echidna.toml", "echidna.toml"]);
}

#[test]
fn command_line_comes_before_configuration() {
    let config = Config {
        chimerax_path: Some("/cfg/chimerax".to_string()),
        default_script: Some("cfg.cxc".to_string()),
        user_install: true,
        ..Config::default()
    };
    assert_eq!(config.chimerax_choice(Some("/cli")), Some("/cli".to_string()));
    assert_eq!(config.chimerax_choice(None), Some("/cfg/chimerax".to_string()));
    assert_eq!(config.script_choice(Some("cli.cxc")), Some("cli.cxc".to_string()));
    assert_eq!(config.script_choice(None), Some("cfg.cxc".to_string()));
    assert!(config.user_install_choice(false));
    let empty = Config::default();
    assert_eq!(empty.chimerax_choice(None), None);
    assert_eq!(empty.script_choice(None), None);
    assert!(!empty.user_install_choice(false));
    assert!(empty.user_install_choice(true));
}
