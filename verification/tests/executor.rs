use echidna::chimerax::executor::{
    check_output, extract_json, python_command, validate_path_for_command, validate_path_on,
    ChimeraXExecutor,
};
use echidna::error::EchidnaError;

#[test]
fn test_validate_path_normal() {
    let path = "/Users/test/my-project";
    assert!(validate_path_for_command(path).is_ok());
}

#[test]
fn test_validate_path_with_spaces() {
    let path = "/Users/test/my project";
    assert!(validate_path_for_command(path).is_ok());
}

#[test]
fn test_validate_path_rejects_quotes() {
    let path = "/Users/test/my\"project";
    assert!(validate_path_for_command(path).is_err());

    let path = "/Users/test/my'project";
    assert!(validate_path_for_command(path).is_err());
}

#[test]
fn test_validate_path_rejects_semicolon() {
    let path = "/Users/test/my;project";
    assert!(validate_path_for_command(path).is_err());
}

#[test]
fn test_validate_path_rejects_newlines() {
    let path = "/Users/test/my\nproject";
    assert!(validate_path_for_command(path).is_err());
}

#[test]
fn test_validate_path_rejects_backtick() {
    let path = "/Users/test/my`project";
    assert!(validate_path_for_command(path).is_err());
}

#[test]
fn test_validate_path_rejects_dollar() {
    let path = "/Users/test/$HOME/project";
    assert!(validate_path_for_command(path).is_err());
}

#[test]
fn test_executor_new() {
    let executor = ChimeraXExecutor::new(String::from("/usr/bin/chimerax"), 0);
    assert_eq!(executor.verbosity(), 0);
}

#[test]
fn test_verbosity_levels() {
    // Level 0: quiet
    let executor = ChimeraXExecutor::new(String::from("/test"), 0);
    assert_eq!(executor.verbosity(), 0);

    // Level 1: normal
    let executor = ChimeraXExecutor::new(String::from("/test"), 1);
    assert_eq!(executor.verbosity(), 1);

    // Level 2: verbose
    let executor = ChimeraXExecutor::new(String::from("/test"), 2);
    assert_eq!(executor.verbosity(), 2);
}

#[test]
fn validate_path_names_the_first_offending_character() {
    let err = validate_path_for_command("/a;b\"c").unwrap_err();
    assert_eq!(
        err,
        EchidnaError::InvalidName("path contains invalid character '\"': /a;b\"c".to_string())
    );
    assert_eq!(
        err.message(),
        "Invalid name: path contains invalid character '\"': /a;b\"c"
    );
}

#[test]
fn validate_path_backslash_depends_on_platform() {
    assert!(validate_path_on("C:\\Users\\me", false).is_err());
    assert!(validate_path_on("C:\\Users\\me", true).is_ok());
    assert!(validate_path_on("C:\\Users\\$me", true).is_err());
}

#[test]
fn executor_keeps_its_executable() {
    let executor = ChimeraXExecutor::new(String::from("/usr/bin/chimerax"), 3);
    assert_eq!(executor.executable(), "/usr/bin/chimerax");
}

#[test]
fn executor_arguments() {
    let executor = ChimeraXExecutor::new(String::from("/cx"), 0);
    assert_eq!(
        executor.run_command_args("exit"),
        vec!["--nogui", "--exit", "--cmd", "exit"]
    );
    assert_eq!(
        executor.run_script_args("a.cxc"),
        vec!["--nogui", "--exit", "--script", "a.cxc"]
    );
    assert_eq!(executor.launch_args(Some("a.cxc")), vec!["--script", "a.cxc"]);
    assert!(executor.launch_args(None).is_empty());
}

#[test]
fn executor_descriptions() {
    let executor = ChimeraXExecutor::new(String::from("/cx"), 0);
    assert_eq!(
        executor.describe_command("exit"),
        "ChimeraX --nogui --exit --cmd 'exit'"
    );
    assert_eq!(
        executor.describe_script("a.cxc"),
        "ChimeraX --nogui --exit --script 'a.cxc'"
    );
    assert_eq!(executor.describe_launch(None), "ChimeraX");
    assert_eq!(
        executor.describe_launch(Some("a.cxc")),
        "ChimeraX --script 'a.cxc'"
    );
}

#[test]
fn executor_log_lines_follow_verbosity() {
    let quiet = ChimeraXExecutor::new(String::from("/cx"), 0);
    assert_eq!(quiet.execution_log("x"), None);
    assert!(quiet.output_log("out", "err").is_empty());

    let normal = ChimeraXExecutor::new(String::from("/cx"), 1);
    assert_eq!(
        normal.execution_log("x"),
        Some("[echidna] Executing: x".to_string())
    );
    assert!(normal.output_log("out", "err").is_empty());

    let verbose = ChimeraXExecutor::new(String::from("/cx"), 2);
    assert_eq!(
        verbose.output_log("out", "err"),
        vec!["[echidna] stdout:\nout", "[echidna] stderr:\nerr"]
    );
    assert_eq!(verbose.output_log("", "err"), vec!["[echidna] stderr:\nerr"]);
    assert!(verbose.output_log("", "").is_empty());
}

#[test]
fn devel_and_toolshed_commands() {
    let executor = ChimeraXExecutor::new(String::from("/cx"), 0);
    assert_eq!(
        executor.devel_build_command("/p/my bundle").unwrap(),
        "devel build \"/p/my bundle\" exit true"
    );
    assert_eq!(
        executor.devel_install_command("/p", true).unwrap(),
        "devel install \"/p\" user true exit true"
    );
    assert_eq!(
        executor.devel_install_command("/p", false).unwrap(),
        "devel install \"/p\" user false exit true"
    );
    assert_eq!(
        executor.toolshed_install_command("/p/a.whl", true).unwrap(),
        "toolshed install \"/p/a.whl\" user true"
    );
    assert_eq!(
        executor.toolshed_install_command("/p/a.whl", false).unwrap(),
        "toolshed install \"/p/a.whl\""
    );
    assert!(executor.devel_build_command("/p;rm").is_err());
    assert!(executor.devel_install_command("/p`x`", false).is_err());
    assert!(executor.toolshed_install_command("/p$", false).is_err());
}

#[test]
fn check_output_reports_failure_with_all_streams() {
    assert!(check_output(true, Some(0), "", "").is_ok());
    let err = check_output(false, Some(2), "out", "err").unwrap_err();
    assert_eq!(
        err,
        EchidnaError::ChimeraXCommandFailed(
            "exit code: Some(2)\nstdout: out\nstderr: err".to_string()
        )
    );
    let err = check_output(false, None, "", "").unwrap_err();
    assert_eq!(
        err,
        EchidnaError::ChimeraXCommandFailed("exit code: None\nstdout: \nstderr: ".to_string())
    );
    let err = check_output(false, Some(-11), "", "").unwrap_err();
    assert_eq!(
        err.message(),
        "ChimeraX command failed: exit code: Some(-11)\nstdout: \nstderr: "
    );
}

#[test]
fn python_command_escapes_line_feeds_and_quotes() {
    assert_eq!(
        python_command("print(\"a\")\nx = 1", true),
        "runscript python -c \"exec(\\\"print(\\\"a\\\")\\nx = 1\\\")\"; exit"
    );
    assert_eq!(
        python_command("pass", false),
        "runscript python -c \"exec(\\\"pass\\\")\""
    );
}

#[test]
fn python_info_command_wraps_the_script() {
    let executor = ChimeraXExecutor::new(String::from("/cx"), 0);
    let cmd = executor.python_info_command();
    assert!(cmd.starts_with("runscript python -c \"exec(\\\"\\nimport sys\\nimport json\\n"));
    assert!(cmd.contains("print(\\\"ECHIDNA_JSON_START\\\")"));
    assert!(cmd.ends_with("\\\")\"; exit"));
    assert!(!cmd.contains('\n'));
}

#[test]
fn extract_json_takes_what_stands_between_the_markers() {
    let stdout = "noise\nECHIDNA_JSON_START\n{\"a\": 1}\nECHIDNA_JSON_END\nmore";
    assert_eq!(extract_json(stdout).unwrap(), "{\"a\": 1}");
    assert_eq!(
        extract_json("ECHIDNA_JSON_STARTECHIDNA_JSON_END").unwrap(),
        ""
    );
}

#[test]
fn extract_json_fails_without_markers() {
    let missing = EchidnaError::ChimeraXCommandFailed("JSON output not found".to_string());
    assert_eq!(extract_json("nothing here").unwrap_err(), missing);
    assert_eq!(extract_json("ECHIDNA_JSON_START {}").unwrap_err(), missing);
    assert_eq!(extract_json("{} ECHIDNA_JSON_END").unwrap_err(), missing);
    assert_eq!(
        extract_json("ECHIDNA_JSON_END {} ECHIDNA_JSON_START").unwrap_err(),
        missing
    );
}
