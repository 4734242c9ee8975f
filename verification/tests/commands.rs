use echidna::chimerax::executor::PythonInfo;
use echidna::commands::clean::{
    clean_dirs, header_line, is_egg_info, path_line, pycache_step, summary_line, WalkStep,
    VENV_DIR,
};
use echidna::commands::debug::{announce, exit_line, launch_args, running_line};
use echidna::commands::init::{
    apply_overrides, display_path, next_step_lines, package_dir_of_package, plan_init, InitArgs,
};
use echidna::commands::install::{installing_lines, missing_wheel};
use echidna::commands::python::{describe_environment, leading_line, OutputFormat};
use echidna::commands::run::{plan_run, RunArgs, RunStep, DEFAULT_SCRIPT};
use echidna::commands::setup_ide::{is_config_type, summary_lines, unknown_config, venv_path};
use echidna::commands::watch::{
    change_lines, mode_line, registration_line, waiting_lines, watch_error_line, watch_targets,
    watched_recursively, WatchArgs,
};
use echidna::error::EchidnaError;
use echidna::templates::bundle::BundleTemplate;
use echidna::watch::filter::{ChangeEvent, ChangeKind, WatchScope};
use echidna::watch::pipeline::{PipelineMode, ReportLine};

fn info() -> PythonInfo {
    PythonInfo {
        executable: "/usr/bin/python3".to_string(),
        version: "3.11.6 (main, Oct  2 2023, 00:00:00)\r\n[GCC]".to_string(),
        prefix: "/usr".to_string(),
        path: vec![],
        chimerax_version: Some("1.7".to_string()),
        site_packages: vec!["/a".to_string(), "/b".to_string()],
    }
}

#[test]
fn clean_decisions() {
    assert_eq!(clean_dirs(), vec!["build", "dist"]);
    assert_eq!(VENV_DIR, ".venv");
    assert!(is_egg_info("mytool.egg-info"));
    assert!(is_egg_info(".egg-info"));
    assert!(!is_egg_info("mytool.egg-info.bak"));
    assert!(!is_egg_info("egg-info"));
    assert_eq!(pycache_step("__pycache__"), WalkStep::Remove);
    assert_eq!(pycache_step(".venv"), WalkStep::Skip);
    assert_eq!(pycache_step(".git"), WalkStep::Skip);
    assert_eq!(pycache_step("node_modules"), WalkStep::Skip);
    assert_eq!(pycache_step("src"), WalkStep::Descend);
    assert_eq!(pycache_step("build"), WalkStep::Descend);
    assert_eq!(pycache_step("__pycache__x"), WalkStep::Descend);
}

#[test]
fn clean_lines() {
    assert_eq!(header_line(true), "Dry run: showing what would be deleted...");
    assert_eq!(header_line(false), "Cleaning build artifacts...");
    assert_eq!(path_line("/p/build", true), "  Would delete: /p/build");
    assert_eq!(path_line("/p/build", false), "  Deleting: /p/build");
    assert_eq!(summary_line(0, true), "Nothing to clean.");
    assert_eq!(summary_line(0, false), "Nothing to clean.");
    assert_eq!(
        summary_line(3, true),
        "Would delete 3 item(s). Run without --dry-run to actually delete."
    );
    assert_eq!(summary_line(12, false), "Cleaned 12 item(s).");
}

#[test]
fn debug_launch() {
    assert_eq!(launch_args(false), vec!["--debug"]);
    assert_eq!(
        launch_args(true),
        vec![
            "--debug",
            "--cmd",
            "runscript python -c \"import sys; import pdb; sys.excepthook = lambda *args: (pdb.post_mortem(args[2]) if args[2] else None)\"",
        ]
    );
    assert_eq!(running_line("/cx"), "Running: /cx --debug");
    assert_eq!(exit_line(true, Some(0)), None);
    assert_eq!(exit_line(false, Some(3)), Some("ChimeraX exited with code: 3".to_string()));
    assert_eq!(exit_line(false, None), Some("ChimeraX exited with code: -1".to_string()));
}

#[test]
fn debug_announcement() {
    assert_eq!(
        announce(false, false),
        vec![
            "=== Launching ChimeraX in Debug Mode ===",
            "",
            "Debug mode features:",
            "  - Verbose logging enabled",
            "  - Stack traces on errors",
            "",
        ]
    );
    assert_eq!(
        announce(true, true),
        vec![
            "=== Launching ChimeraX in Debug Mode ===",
            "  Python debugger (pdb) enabled",
            "  Profiling enabled",
            "",
            "Debug mode features:",
            "  - Verbose logging enabled",
            "  - Stack traces on errors",
            "  - Post-mortem debugging on exceptions",
            "  - Performance profiling active",
            "",
        ]
    );
    assert_eq!(announce(true, false).len(), 8);
}

#[test]
fn init_plans_the_template() {
    let args = InitArgs {
        name: None,
        bundle_name: None,
        package: None,
        path: "/work/my-tool/".to_string(),
        force: false,
    };
    let template = plan_init(&args, false).unwrap();
    assert_eq!(template.bundle_name, "ChimeraX-MyTool");
    assert_eq!(template.package_dir, "mytool");

    let named = InitArgs { name: Some("other".to_string()), ..args.clone() };
    assert_eq!(plan_init(&named, false).unwrap().bundle_name, "ChimeraX-Other");

    assert_eq!(
        plan_init(&args, true).unwrap_err(),
        EchidnaError::DirectoryExists("/work/my-tool/".to_string())
    );
    let forced = InitArgs { force: true, ..args.clone() };
    assert!(plan_init(&forced, true).is_ok());

    let nameless = InitArgs { path: "/".to_string(), ..args.clone() };
    assert_eq!(
        plan_init(&nameless, false).unwrap_err(),
        EchidnaError::InvalidName("Could not determine project name from path".to_string())
    );
    let dotted = InitArgs { path: "..".to_string(), ..args.clone() };
    assert!(plan_init(&dotted, false).is_err());
    // An invalid name is reported before the state of the directory.
    let invalid = InitArgs { name: Some("1x".to_string()), ..args };
    assert_eq!(
        plan_init(&invalid, true).unwrap_err(),
        EchidnaError::InvalidName("name '1x' must start with a letter".to_string())
    );
}

#[test]
fn init_overrides() {
    let args = InitArgs {
        name: Some("my-tool".to_string()),
        bundle_name: Some("ChimeraX-Renamed".to_string()),
        package: Some("chimerax.sub.pkg".to_string()),
        path: "x".to_string(),
        force: false,
    };
    let template = plan_init(&args, false).unwrap();
    assert_eq!(template.bundle_name, "ChimeraX-Renamed");
    assert_eq!(template.package_name, "chimerax.sub.pkg");
    assert_eq!(template.package_dir, "pkg");
    assert_eq!(template.command_name, "my_tool");

    assert_eq!(package_dir_of_package("plain"), "plain");
    assert_eq!(package_dir_of_package("a.b."), "");
    assert_eq!(package_dir_of_package(""), "");
    let base = BundleTemplate::new("a").unwrap();
    let same = apply_overrides(base.clone(), &None, &None);
    assert_eq!(same.bundle_name, base.bundle_name);
    assert_eq!(same.package_dir, base.package_dir);
}

#[test]
fn init_lines() {
    assert_eq!(display_path("/t/src/cmd.py", "/t"), "src/cmd.py");
    assert_eq!(display_path("/other/cmd.py", "/t"), "/other/cmd.py");
    assert_eq!(
        next_step_lines("/t"),
        vec![
            "",
            "Next steps:",
            "  cd /t",
            "  echidna build      # Build the wheel",
            "  echidna install    # Install to ChimeraX",
            "  echidna run        # Build, install, and launch ChimeraX",
        ]
    );
}

#[test]
fn install_lines() {
    assert_eq!(
        missing_wheel("/x.whl"),
        EchidnaError::Io("Wheel not found: /x.whl".to_string())
    );
    assert_eq!(missing_wheel("/x.whl").message(), "IO error: Wheel not found: /x.whl");
    assert_eq!(installing_lines("/x.whl", false), vec!["Installing /x.whl..."]);
    assert_eq!(
        installing_lines("/x.whl", true),
        vec!["Installing /x.whl...", "Installing as user bundle"]
    );
}

#[test]
fn python_environment_lines() {
    assert!(OutputFormat::Text != OutputFormat::Json);
    assert_eq!(leading_line("a\nb"), "a");
    assert_eq!(leading_line("a\r\nb"), "a");
    assert_eq!(leading_line("a"), "a");
    assert_eq!(leading_line("a\r"), "a");
    assert_eq!(leading_line(""), "");
    assert_eq!(leading_line("\nb"), "");
    assert_eq!(
        describe_environment(&info()),
        vec![
            "",
            "ChimeraX Python Environment",
            "============================",
            "",
            "Executable: /usr/bin/python3",
            "Version:    3.11.6 (main, Oct  2 2023, 00:00:00)",
            "Prefix:     /usr",
            "ChimeraX:   1.7",
            "",
            "Site packages:",
            "  /a",
            "  /b",
            "",
            "Use this information to configure type checkers (ty, ruff):",
            "  pythonPath = \"/usr/bin/python3\"",
        ]
    );
    let bare = PythonInfo { chimerax_version: None, site_packages: vec![], ..info() };
    assert_eq!(describe_environment(&bare).len(), 10);
}

#[test]
fn run_plans() {
    let args = RunArgs {
        path: "/p".to_string(),
        script: None,
        no_build: false,
        no_install: false,
        nogui: false,
        chimerax: "/cx".to_string(),
        verbosity: 0,
    };
    assert_eq!(DEFAULT_SCRIPT, "scripts/smoke.cxc");
    assert_eq!(
        plan_run(&args, "/p", false),
        vec![RunStep::Build, RunStep::Install, RunStep::Launch(None)]
    );
    assert_eq!(
        plan_run(&args, "/p", true),
        vec![
            RunStep::Build,
            RunStep::Install,
            RunStep::Launch(Some("/p/scripts/smoke.cxc".to_string()))
        ]
    );
    let scripted = RunArgs {
        script: Some("mine.cxc".to_string()),
        no_build: true,
        nogui: true,
        ..args.clone()
    };
    assert_eq!(
        plan_run(&scripted, "/p", true),
        vec![RunStep::Install, RunStep::RunScript("mine.cxc".to_string())]
    );
    let headless = RunArgs { no_build: true, no_install: true, nogui: true, ..args };
    assert_eq!(plan_run(&headless, "/p", false), vec![RunStep::RunCommand("exit".to_string())]);
    assert_eq!(
        plan_run(&headless, "/p", true),
        vec![RunStep::RunScript("/p/scripts/smoke.cxc".to_string())]
    );
}

#[test]
fn setup_ide_lines() {
    assert_eq!(venv_path("/p", ".venv"), "/p/.venv");
    assert_eq!(venv_path("/p", "/abs/venv"), "/abs/venv");
    for name in ["ty", "ruff", "pyright", "vscode"] {
        assert!(is_config_type(name));
    }
    assert!(!is_config_type("mypy") && !is_config_type("Ty") && !is_config_type(""));
    assert_eq!(
        unknown_config("mypy"),
        "Warning: Unknown config type 'mypy', skipping. Valid types: ty, ruff, pyright, vscode"
    );
    assert_eq!(
        summary_lines(&info(), "/p/.venv"),
        vec![
            "",
            "IDE setup complete!",
            "",
            "Python executable: /usr/bin/python3",
            "Python version:    3.11.6 (main, Oct  2 2023, 00:00:00)",
            "ChimeraX version:  1.7",
            "Venv path:         /p/.venv",
            "",
            "Next steps:",
            "  1. Select '/p/.venv' as your Python interpreter in your IDE",
            "  2. Your IDE should now recognize 'chimerax' imports",
            "",
            "Type checking:",
            "  ty check         # Using ty",
            "  ruff check .     # Using ruff",
        ]
    );
    let bare = PythonInfo { chimerax_version: None, ..info() };
    assert_eq!(summary_lines(&bare, "v").len(), 14);
}

#[test]
fn watch_modes() {
    let args = |run: bool, test: bool| WatchArgs {
        path: "/p".to_string(),
        run,
        test,
        chimerax: "/cx".to_string(),
        verbosity: 2,
    };
    assert_eq!(args(false, false).mode(), PipelineMode::BuildInstall);
    assert_eq!(args(true, false).mode(), PipelineMode::BuildInstallRun);
    assert_eq!(args(false, true).mode(), PipelineMode::BuildInstallTest);
    assert_eq!(args(true, true).mode(), PipelineMode::BuildInstallRun);
    assert_eq!(mode_line(PipelineMode::BuildInstall), "Mode: build + install");
    assert_eq!(mode_line(PipelineMode::BuildInstallRun), "Mode: build + install + run ChimeraX");
    assert_eq!(mode_line(PipelineMode::BuildInstallTest), "Mode: build + install + test");
}

#[test]
fn watch_stage_arguments() {
    let args = WatchArgs {
        path: "p".to_string(),
        run: false,
        test: true,
        chimerax: "/cx".to_string(),
        verbosity: 2,
    };
    let build = args.build_args("/abs/p");
    assert_eq!((build.path.as_str(), build.clean), ("/abs/p", false));
    assert_eq!((build.chimerax.as_str(), build.verbosity), ("/cx", 2));
    let install = args.install_args("/abs/p");
    assert_eq!((install.path.as_str(), install.wheel, install.user), ("/abs/p", None, false));
    let run = args.run_args("/abs/p");
    assert!(run.no_build && run.no_install && !run.nogui && run.script.is_none());
    let test = args.test_args("/abs/p");
    assert!(test.no_build && test.no_install && !test.coverage && !test.verbose);
    assert!(test.filter.is_none() && test.pytest_args.is_empty());
    assert_eq!((test.chimerax.as_str(), test.verbosity), ("/cx", 2));
}

#[test]
fn watch_lines() {
    let event = ChangeEvent {
        kind: ChangeKind::Modified,
        paths: vec!["/p/src/a.py".to_string(), "/elsewhere/b.py".to_string(), "/p".to_string()],
        timestamp: 1,
    };
    assert_eq!(
        change_lines(&event, "/p"),
        vec!["", "=== Change Detected ===", "  Changed: src/a.py", "  Changed: "]
    );
    assert_eq!(
        watch_targets(&WatchScope::for_project("/p")),
        vec!["/p/src", "/p/tests", "/p/pyproject.toml"]
    );
    assert!(watched_recursively(true) && !watched_recursively(false));
    assert_eq!(
        registration_line("/p/src", None),
        ReportLine { error: false, text: "Watching: /p/src".to_string() }
    );
    assert_eq!(
        registration_line("/p/tests", Some("No such file")),
        ReportLine {
            error: true,
            text: "Warning: Failed to watch /p/tests: No such file".to_string()
        }
    );
    assert_eq!(
        watch_error_line("channel closed"),
        ReportLine { error: true, text: "Watch error: channel closed".to_string() }
    );
    assert_eq!(waiting_lines(), vec!["", "Waiting for changes..."]);
}
