use echidna::commands::validate::{
    report_findings, verdict, validate_build_system, validate_bundle, validate_chimerax_section, validate_document,
    validate_project_section, validate_source_structure, SourceLayout, ValidationResult,
};
use echidna::document::parse_document;
use echidna::error::EchidnaError;

const VALID: &str = r#"
[build-system]
requires = ["ChimeraX-BundleBuilder"]
build-backend = "chimerax.bundle_builder.cx_pep517"

[project]
name = "ChimeraX-Test"
version = "0.1.0"
description = "Test bundle"

[chimerax]
package = "chimerax.test"
categories = ["General"]
min-session-version = "1"
min-chimerax-version = "1.0"
"#;

fn layout(init_py: Option<&str>) -> SourceLayout {
    SourceLayout {
        has_src_dir: true,
        has_init_py: true,
        init_py: init_py.map(|s| s.to_string()),
        has_cmd_py: false,
        has_tool_py: false,
    }
}

fn no_src() -> SourceLayout {
    SourceLayout {
        has_src_dir: false,
        has_init_py: false,
        init_py: None,
        has_cmd_py: false,
        has_tool_py: false,
    }
}

#[test]
fn test_validate_valid_bundle() {
    let result = validate_bundle(Some(VALID), &layout(Some("bundle_api = None")));
    assert!(result.is_valid());
    assert!(result.errors.is_empty());
}

#[test]
fn test_validate_missing_pyproject() {
    let result = validate_bundle(None, &no_src());
    assert!(!result.is_valid());
    assert!(result.errors.iter().any(|e| e.contains("pyproject.toml")));
}

#[test]
fn test_validate_missing_src() {
    let pyproject = r#"
[build-system]
requires = ["ChimeraX-BundleBuilder"]
build-backend = "chimerax.bundle_builder.cx_pep517"

[project]
name = "ChimeraX-Test"
version = "0.1.0"

[chimerax]
package = "chimerax.test"
"#;
    let result = validate_bundle(Some(pyproject), &no_src());
    assert!(!result.is_valid());
    assert!(result.errors.iter().any(|e| e.contains("src/")));
}

#[test]
fn test_validate_missing_init_py() {
    let pyproject = r#"
[build-system]
requires = ["ChimeraX-BundleBuilder"]
build-backend = "chimerax.bundle_builder.cx_pep517"

[project]
name = "ChimeraX-Test"
version = "0.1.0"

[chimerax]
package = "chimerax.test"
"#;
    let result = validate_bundle(
        Some(pyproject),
        &SourceLayout { has_src_dir: true, ..no_src() },
    );
    assert!(!result.is_valid());
    assert!(result.errors.iter().any(|e| e.contains("__init__.py")));
}

#[test]
fn test_validate_warning_non_standard_name() {
    let pyproject = r#"
[build-system]
requires = ["ChimeraX-BundleBuilder"]
build-backend = "chimerax.bundle_builder.cx_pep517"

[project]
name = "MyBundle"
version = "0.1.0"

[chimerax]
package = "chimerax.test"
categories = ["General"]
"#;
    let result = validate_bundle(Some(pyproject), &layout(Some("bundle_api = None")));
    assert!(result.is_valid()); // Warnings don't fail validation
    assert!(!result.warnings.is_empty());
    assert!(result.warnings.iter().any(|w| w.contains("ChimeraX-")));
}

#[test]
fn test_strict_mode() {
    let pyproject = r#"
[build-system]
requires = ["ChimeraX-BundleBuilder"]
build-backend = "chimerax.bundle_builder.cx_pep517"

[project]
name = "MyBundle"
version = "0.1.0"

[chimerax]
package = "chimerax.test"
"#;
    let result = validate_bundle(Some(pyproject), &layout(Some("bundle_api = None")));
    assert!(result.is_valid()); // Normal mode: valid
    assert!(!result.is_valid_strict()); // Strict mode: invalid (has warnings)
}

#[test]
fn test_validate_missing_description_warning() {
    let pyproject = r#"
[build-system]
requires = ["ChimeraX-BundleBuilder"]
build-backend = "chimerax.bundle_builder.cx_pep517"

[project]
name = "ChimeraX-Test"
version = "0.1.0"

[chimerax]
package = "chimerax.test"
categories = ["General"]
"#;
    let result = validate_bundle(Some(pyproject), &layout(Some("bundle_api = None")));
    assert!(result.is_valid());
    assert!(result.warnings.iter().any(|w| w.contains("description")));
}

#[test]
fn test_validate_missing_bundle_api_warning() {
    let pyproject = r#"
[build-system]
requires = ["ChimeraX-BundleBuilder"]
build-backend = "chimerax.bundle_builder.cx_pep517"

[project]
name = "ChimeraX-Test"
version = "0.1.0"
description = "Test"

[chimerax]
package = "chimerax.test"
categories = ["General"]
min-session-version = "1"
min-chimerax-version = "1.0"
"#;
    let result = validate_bundle(Some(pyproject), &layout(Some("# empty")));
    assert!(result.is_valid());
    assert!(result.warnings.iter().any(|w| w.contains("bundle_api")));
}

#[test]
fn test_validate_commands_without_cmd_py() {
    let pyproject = r#"
[build-system]
requires = ["ChimeraX-BundleBuilder"]
build-backend = "chimerax.bundle_builder.cx_pep517"

[project]
name = "ChimeraX-Test"
version = "0.1.0"
description = "Test"

[chimerax]
package = "chimerax.test"
categories = ["General"]
min-session-version = "1"
min-chimerax-version = "1.0"

[chimerax.commands.mycommand]
"#;
    let result = validate_bundle(Some(pyproject), &layout(Some("bundle_api = None")));
    assert!(result.is_valid());
    assert!(result.warnings.iter().any(|w| w.contains("cmd.py")));
}

#[test]
fn validation_result_collects_in_order() {
    let mut result = ValidationResult::default();
    assert!(result.is_valid() && result.is_valid_strict());
    result.add_warning("w1");
    assert!(result.is_valid() && !result.is_valid_strict());
    result.add_error("e1");
    result.add_error("e2");
    result.add_warning("w2");
    assert!(!result.is_valid() && !result.is_valid_strict());
    assert_eq!(result.errors, vec!["e1", "e2"]);
    assert_eq!(result.warnings, vec!["w1", "w2"]);
}

#[test]
fn valid_bundle_has_no_findings_at_all() {
    let result = validate_bundle(Some(VALID), &layout(Some("def get_class(): pass")));
    assert!(result.errors.is_empty());
    assert!(result.warnings.is_empty());
}

#[test]
fn unparsable_manifest_is_one_error() {
    let result = validate_bundle(Some("this is not valid toml [[["), &layout(None));
    assert_eq!(result.errors.len(), 1);
    assert!(result.errors[0].starts_with("Failed to parse pyproject.toml: "));
    assert!(result.errors[0].len() > "Failed to parse pyproject.toml: ".len());
    assert!(result.warnings.is_empty());
    let missing = validate_bundle(None, &layout(None));
    assert_eq!(missing.errors, vec!["pyproject.toml not found"]);
    assert!(missing.warnings.is_empty());
}

#[test]
fn empty_manifest_misses_every_section() {
    let result = validate_bundle(Some(""), &no_src());
    assert_eq!(
        result.errors,
        vec![
            "[build-system] section missing",
            "[project] section missing",
            "[chimerax] section missing",
            "src/ directory not found",
        ]
    );
    assert!(result.warnings.is_empty());
}

#[test]
fn build_system_findings() {
    let check = |text: &str| {
        let doc = parse_document(text).unwrap();
        let mut result = ValidationResult::default();
        validate_build_system(&doc, &mut result);
        (result.errors, result.warnings)
    };
    assert_eq!(
        check("[build-system]\n").0,
        vec!["[build-system].requires is missing", "[build-system].build-backend is missing"]
    );
    assert_eq!(
        check("[build-system]\nrequires = \"x\"\nbuild-backend = 3\n"),
        (vec!["[build-system].requires must be an array".to_string()], vec![])
    );
    assert_eq!(
        check("[build-system]\nrequires = [\"setuptools\", 3]\nbuild-backend = \"other\"\n"),
        (
            vec!["[build-system].requires must include 'ChimeraX-BundleBuilder'".to_string()],
            vec![
                "Unexpected build-backend: 'other' (expected 'chimerax.bundle_builder.cx_pep517')"
                    .to_string()
            ]
        )
    );
    assert_eq!(
        check("[build-system]\nrequires = [\"x\", \"ChimeraX-BundleBuilder>=1.2\"]\nbuild-backend = \"chimerax.bundle_builder.cx_pep517\"\n"),
        (vec![], vec![])
    );
    // A section that is no table has no entries.
    assert_eq!(
        check("build-system = 3\n").0,
        vec!["[build-system].requires is missing", "[build-system].build-backend is missing"]
    );
}

#[test]
fn project_findings() {
    let check = |text: &str| {
        let doc = parse_document(text).unwrap();
        let mut result = ValidationResult::default();
        validate_project_section(&doc, &mut result);
        (result.errors, result.warnings)
    };
    assert_eq!(
        check("[project]\n"),
        (
            vec![
                "[project].name is missing".to_string(),
                "[project].version is missing".to_string()
            ],
            vec!["[project].description is not set (recommended for Toolshed)".to_string()]
        )
    );
    assert_eq!(
        check("[project]\nname = 1\nversion = 2\ndescription = 3\nclassifiers = [\"Topic\"]\n"),
        (
            vec!["[project].name must be a string".to_string()],
            vec!["[project].classifiers should include Python version classifier".to_string()]
        )
    );
    assert_eq!(
        check("[project]\nname = \"Mine\"\nversion = \"1\"\nclassifiers = [\"Programming Language :: Python :: 3\"]\n"),
        (
            vec![],
            vec![
                "Bundle name 'Mine' doesn't follow convention (should start with 'ChimeraX-')"
                    .to_string(),
                "[project].description is not set (recommended for Toolshed)".to_string(),
            ]
        )
    );
    // A classifier must begin with the words, not merely hold them.
    assert_eq!(
        check("[project]\nname = \"ChimeraX-A\"\nversion = \"1\"\ndescription = \"d\"\nclassifiers = [\"x Programming Language :: Python\"]\n")
            .1,
        vec!["[project].classifiers should include Python version classifier"]
    );
    assert_eq!(
        check("[project]\nname = \"ChimeraX-A\"\nversion = \"1\"\ndescription = \"d\"\nclassifiers = \"none\"\n"),
        (vec![], vec![])
    );
}

#[test]
fn chimerax_findings() {
    let check = |text: &str| {
        let doc = parse_document(text).unwrap();
        let mut result = ValidationResult::default();
        validate_chimerax_section(&doc, &mut result);
        (result.errors, result.warnings)
    };
    assert_eq!(
        check("[chimerax]\n"),
        (
            vec!["[chimerax].package is missing".to_string()],
            vec![
                "[chimerax].categories is not set".to_string(),
                "[chimerax].min-session-version is not set (recommended)".to_string(),
                "[chimerax].min-chimerax-version is not set (recommended)".to_string(),
            ]
        )
    );
    assert_eq!(
        check("[chimerax]\npackage = 3\ncategories = []\nmin-session-version = 1\nmin-chimerax-version = 1\n"),
        (vec!["[chimerax].package must be a string".to_string()], vec![])
    );
    assert_eq!(
        check("[chimerax]\npackage = \"mine\"\ncategories = []\nmin-session-version = 1\nmin-chimerax-version = 1\n"),
        (
            vec![],
            vec!["Package 'mine' doesn't follow convention (should start with 'chimerax.')"
                .to_string()]
        )
    );
}

#[test]
fn source_findings() {
    let check = |text: &str, layout: &SourceLayout| {
        let doc = parse_document(text).unwrap();
        let mut result = ValidationResult::default();
        validate_source_structure(layout, &doc, &mut result);
        (result.errors, result.warnings)
    };
    let declared = "[chimerax]\ncommands = [\"a\"]\n[chimerax.tools.t]\n";
    assert_eq!(
        check(declared, &layout(Some("x"))),
        (
            vec![],
            vec![
                "src/__init__.py should define bundle_api or get_class() for bundle registration"
                    .to_string(),
                "Commands declared but src/cmd.py not found (common pattern)".to_string(),
                "Tools declared but src/tool.py not found (common pattern)".to_string(),
            ]
        )
    );
    let complete = SourceLayout { has_cmd_py: true, has_tool_py: true, ..layout(Some("BundleAPI")) };
    assert_eq!(check(declared, &complete), (vec![], vec![]));
    // An unreadable __init__.py is not judged; a scalar declares nothing.
    assert_eq!(check("[chimerax]\ncommands = 3\ntools = \"t\"\n", &layout(None)), (vec![], vec![]));
    assert_eq!(
        check(declared, &no_src()),
        (vec!["src/ directory not found".to_string()], vec![])
    );
}

#[test]
fn findings_add_to_what_is_there() {
    let doc = parse_document("").unwrap();
    let mut result = ValidationResult::default();
    result.add_error("before");
    result.add_warning("kept");
    validate_project_section(&doc, &mut result);
    assert_eq!(result.errors, vec!["before", "[project] section missing"]);
    assert_eq!(result.warnings, vec!["kept"]);
    let all = validate_document(&doc, &layout(Some("get_class")));
    assert_eq!(all.errors.len(), 3);
}

#[test]
fn report_of_findings_in_both_modes() {
    let mut result = ValidationResult::default();
    assert_eq!(report_findings(&result, false), vec!["", "✓ Bundle is valid"]);
    assert_eq!(report_findings(&result, true), vec!["", "✓ Bundle is valid"]);
    assert!(verdict(&result, true).is_ok());

    result.add_warning("w1");
    assert_eq!(
        report_findings(&result, false),
        vec!["  ⚠ w1", "", "✓ Bundle is valid", "  (1 warning)"]
    );
    assert_eq!(
        report_findings(&result, true),
        vec!["  ✗ w1", "", "✗ Validation failed with 1 error"]
    );
    assert!(verdict(&result, false).is_ok());
    let failed = EchidnaError::ConfigError("bundle validation failed".to_string());
    assert_eq!(verdict(&result, true).unwrap_err(), failed);

    result.add_warning("w2");
    assert_eq!(report_findings(&result, false)[4], "  (2 warnings)");
    result.add_error("e1");
    assert_eq!(
        report_findings(&result, false),
        vec!["  ⚠ w1", "  ⚠ w2", "  ✗ e1", "", "✗ Validation failed with 1 error"]
    );
    assert_eq!(
        report_findings(&result, true),
        vec!["  ✗ w1", "  ✗ w2", "  ✗ e1", "", "✗ Validation failed with 3 errors"]
    );
    assert_eq!(verdict(&result, false).unwrap_err(), failed);
}
