use echidna::error::EchidnaError;
use echidna::templates::bundle::{
    capitalize_with, capitalize_words, capitalize_words_with_spaces, to_pascal_case, BundleTemplate, BundleType,
    PlannedFile, TemplateRole,
};

#[test]
fn test_name_derivation() {
    let template = BundleTemplate::new("my-tool").unwrap();
    assert_eq!(template.bundle_name, "ChimeraX-MyTool");
    assert_eq!(template.package_name, "chimerax.mytool");
    assert_eq!(template.package_dir, "mytool");
    assert_eq!(template.command_name, "my_tool");
    assert_eq!(template.tool_name, "My Tool");
    assert_eq!(template.bundle_type, BundleType::Command);
}

#[test]
fn test_underscore_name() {
    let template = BundleTemplate::new("my_tool").unwrap();
    assert_eq!(template.bundle_name, "ChimeraX-MyTool");
    assert_eq!(template.package_name, "chimerax.mytool");
    assert_eq!(template.package_dir, "mytool");
    assert_eq!(template.command_name, "my_tool");
}

#[test]
fn test_name_with_numbers() {
    let template = BundleTemplate::new("tool2").unwrap();
    assert_eq!(template.bundle_name, "ChimeraX-Tool2");
    assert_eq!(template.package_name, "chimerax.tool2");
    assert_eq!(template.package_dir, "tool2");
    assert_eq!(template.command_name, "tool2");
}

#[test]
fn test_single_character_name() {
    let template = BundleTemplate::new("x").unwrap();
    assert_eq!(template.bundle_name, "ChimeraX-X");
    assert_eq!(template.package_name, "chimerax.x");
    assert_eq!(template.package_dir, "x");
    assert_eq!(template.command_name, "x");
}

#[test]
fn test_capitalize_words() {
    assert_eq!(capitalize_words("my-tool"), "MyTool");
    assert_eq!(capitalize_words("my_tool"), "MyTool");
    assert_eq!(capitalize_words("mytool"), "Mytool");
    assert_eq!(capitalize_words("MyTool"), "MyTool"); // preserves existing caps
}

#[test]
fn test_pascal_case() {
    assert_eq!(to_pascal_case("my_tool"), "MyTool");
    assert_eq!(to_pascal_case("example"), "Example");
    assert_eq!(to_pascal_case("multi_word_name"), "MultiWordName");
}

#[test]
fn test_invalid_name() {
    assert!(BundleTemplate::new("").is_err());
    assert!(BundleTemplate::new("my tool").is_err()); // space not allowed
    assert!(BundleTemplate::new("my.tool").is_err()); // dot not allowed
}

#[test]
fn test_whitespace_only_name() {
    assert!(BundleTemplate::new("   ").is_err());
}

#[test]
fn test_name_with_special_chars() {
    assert!(BundleTemplate::new("my@tool").is_err());
    assert!(BundleTemplate::new("my#tool").is_err());
    assert!(BundleTemplate::new("my/tool").is_err());
}

#[test]
fn test_name_starting_with_number() {
    assert!(BundleTemplate::new("123tool").is_err());
    assert!(BundleTemplate::new("1st-tool").is_err());
    // But numbers after first char are OK
    assert!(BundleTemplate::new("tool123").is_ok());
    assert!(BundleTemplate::new("my2tool").is_ok());
}

#[test]
fn test_name_starting_with_hyphen_or_underscore() {
    assert!(BundleTemplate::new("-tool").is_err());
    assert!(BundleTemplate::new("_tool").is_err());
}

#[test]
fn test_render_template_substitution() {
    let template = BundleTemplate::new("example").unwrap();
    let input = "Name: {{bundle_name}}, Package: {{package_name}}, Dir: {{package_dir}}, Cmd: {{command_name}}";
    let output = template.render_template(input);
    assert_eq!(
        output,
        "Name: ChimeraX-Example, Package: chimerax.example, Dir: example, Cmd: example"
    );
}

#[test]
fn test_render_template_pascal_case() {
    let template = BundleTemplate::new("my-tool").unwrap();
    let input = "class {{command_name_pascal}}Command:";
    let output = template.render_template(input);
    assert_eq!(output, "class MyToolCommand:");
}

#[test]
fn test_render_template_version_and_description() {
    let template = BundleTemplate::new("test").unwrap();
    let input = "version = \"{{version}}\"\ndescription = \"{{description}}\"";
    let output = template.render_template(input);
    assert!(output.contains("version = \"0.1.0\""));
    assert!(output.contains("ChimeraX Test bundle"));
}

#[test]
fn test_generate_creates_files() {
    let template = BundleTemplate::new("test-bundle").unwrap();

    let created = template.plan();

    // Check expected files are planned
    let paths: Vec<&str> = created.iter().map(|f| f.path.as_str()).collect();
    assert!(paths.contains(&"pyproject.toml"));
    assert!(paths.contains(&"src/__init__.py"));
    assert!(paths.contains(&"src/cmd.py"));
    assert!(paths.contains(&"scripts/smoke.cxc"));
    assert!(paths.contains(&"README.md"));

    // Check created files list
    assert_eq!(created.len(), 5);
}

#[test]
fn test_trimmed_name() {
    let template = BundleTemplate::new("  my-tool  ").unwrap();
    assert_eq!(template.bundle_name, "ChimeraX-MyTool");
}

#[test]
fn test_bundle_type_from_str() {
    assert_eq!(BundleType::parse("command"), Some(BundleType::Command));
    assert_eq!(BundleType::parse("tool"), Some(BundleType::Tool));
    assert_eq!(BundleType::parse("tool-html"), Some(BundleType::ToolHtml));
    assert_eq!(BundleType::parse("toolhtml"), Some(BundleType::ToolHtml));
    assert_eq!(BundleType::parse("format"), Some(BundleType::Format));
    assert_eq!(BundleType::parse("fetch"), Some(BundleType::Fetch));
    assert_eq!(BundleType::parse("selector"), Some(BundleType::Selector));
    assert_eq!(BundleType::parse("preset"), Some(BundleType::Preset));
    assert_eq!(BundleType::parse("cpp"), Some(BundleType::Cpp));
    assert_eq!(BundleType::parse("c++"), Some(BundleType::Cpp));
    assert_eq!(BundleType::parse("COMMAND"), Some(BundleType::Command));
    assert_eq!(BundleType::parse("invalid"), None);
}

#[test]
fn test_bundle_type_display_name() {
    assert_eq!(BundleType::Command.display_name(), "command");
    assert_eq!(BundleType::Tool.display_name(), "tool (Qt)");
    assert_eq!(BundleType::ToolHtml.display_name(), "tool (HTML)");
    assert_eq!(BundleType::Format.display_name(), "format");
    assert_eq!(BundleType::Fetch.display_name(), "fetch");
    assert_eq!(BundleType::Selector.display_name(), "selector");
    assert_eq!(BundleType::Preset.display_name(), "preset");
    assert_eq!(BundleType::Cpp.display_name(), "C++ extension");
}

#[test]
fn test_with_type() {
    let template = BundleTemplate::with_type("my-tool", BundleType::Tool).unwrap();
    assert_eq!(template.bundle_type, BundleType::Tool);
    assert_eq!(template.bundle_name, "ChimeraX-MyTool");
}

#[test]
fn test_capitalize_words_with_spaces() {
    assert_eq!(capitalize_words_with_spaces("my-tool"), "My Tool");
    assert_eq!(capitalize_words_with_spaces("my_tool"), "My Tool");
    assert_eq!(capitalize_words_with_spaces("mytool"), "Mytool");
    assert_eq!(
        capitalize_words_with_spaces("multi-word-name"),
        "Multi Word Name"
    );
}

#[test]
fn test_generate_tool_creates_files() {
    let template = BundleTemplate::with_type("test-tool", BundleType::Tool).unwrap();

    let created = template.plan();
    let paths: Vec<&str> = created.iter().map(|f| f.path.as_str()).collect();

    assert!(paths.contains(&"pyproject.toml"));
    assert!(paths.contains(&"src/__init__.py"));
    assert!(paths.contains(&"src/tool.py"));
    assert!(paths.contains(&"scripts/smoke.cxc"));
    assert!(paths.contains(&"README.md"));
    assert_eq!(created.len(), 5);
}

#[test]
fn test_generate_format_creates_files() {
    let template = BundleTemplate::with_type("test-format", BundleType::Format).unwrap();

    let created = template.plan();
    let paths: Vec<&str> = created.iter().map(|f| f.path.as_str()).collect();

    assert!(paths.contains(&"pyproject.toml"));
    assert!(paths.contains(&"src/__init__.py"));
    assert!(paths.contains(&"src/open.py"));
    assert_eq!(created.len(), 5);
}

#[test]
fn test_generate_selector_creates_files() {
    let template = BundleTemplate::with_type("test-sel", BundleType::Selector).unwrap();

    let created = template.plan();
    let paths: Vec<&str> = created.iter().map(|f| f.path.as_str()).collect();

    assert!(paths.contains(&"pyproject.toml"));
    assert!(paths.contains(&"src/__init__.py"));
    assert!(paths.contains(&"src/selector.py"));
    assert_eq!(created.len(), 5);
}

#[test]
fn test_render_tool_name() {
    let template = BundleTemplate::with_type("my-tool", BundleType::Tool).unwrap();
    let input = "Tool: {{tool_name}}";
    let output = template.render_template(input);
    assert_eq!(output, "Tool: My Tool");
}

#[test]
fn test_generate_cpp_creates_files() {
    let template = BundleTemplate::with_type("test-cpp", BundleType::Cpp).unwrap();

    let created = template.plan();
    let paths: Vec<&str> = created.iter().map(|f| f.path.as_str()).collect();

    // C++ templates go in src/chimerax/<package>/
    assert!(paths.contains(&"pyproject.toml"));
    assert!(paths.contains(&"src/chimerax/testcpp/__init__.py"));
    assert!(paths.contains(&"src/chimerax/testcpp/cmd.py"));
    assert!(paths.contains(&"src/chimerax/testcpp/_extension.cpp"));
    assert!(paths.contains(&"scripts/smoke.cxc"));
    assert!(paths.contains(&"README.md"));
    assert_eq!(created.len(), 6);
}

#[test]
fn test_render_pascal_name() {
    let template = BundleTemplate::new("my-tool").unwrap();
    let input = "class _{{pascal_name}}API:";
    let output = template.render_template(input);
    assert_eq!(output, "class _MyToolAPI:");
}

#[test]
fn name_errors_are_told_apart() {
    assert_eq!(
        BundleTemplate::new(" \t ").unwrap_err(),
        EchidnaError::InvalidName("name cannot be empty".to_string())
    );
    assert_eq!(
        BundleTemplate::new(" 1tool ").unwrap_err(),
        EchidnaError::InvalidName("name '1tool' must start with a letter".to_string())
    );
    assert_eq!(
        BundleTemplate::new("my tool").unwrap_err(),
        EchidnaError::InvalidName(
            "name 'my tool' contains invalid characters (use alphanumeric, hyphens, or underscores)"
                .to_string()
        )
    );
    // The first character is judged before the rest.
    assert_eq!(
        BundleTemplate::new("-a b").unwrap_err(),
        EchidnaError::InvalidName("name '-a b' must start with a letter".to_string())
    );
}

#[test]
fn names_may_hold_letters_of_any_script() {
    let template = BundleTemplate::new("Über-tool").unwrap();
    assert_eq!(template.bundle_name, "ChimeraX-ÜberTool");
    assert_eq!(template.package_dir, "übertool");
    assert_eq!(template.command_name, "über_tool");
}

#[test]
fn capitalizing_may_lengthen_a_word() {
    assert_eq!(capitalize_words("ßa"), "SSa");
    assert_eq!(capitalize_words_with_spaces("ßa-b"), "SSa B");
}

#[test]
fn empty_words_are_dropped() {
    assert_eq!(capitalize_words("--my__tool-"), "MyTool");
    assert_eq!(capitalize_words_with_spaces("-a--b_"), "A B");
    assert_eq!(capitalize_words(""), "");
    assert_eq!(capitalize_words_with_spaces("-_-"), "");
    assert_eq!(to_pascal_case("__a_b"), "AB");
    assert_eq!(to_pascal_case("my-tool_x"), "My-toolX");
}

#[test]
fn assemble_builds_every_field() {
    let t = BundleTemplate::assemble(BundleType::Fetch, "my-to ol_x", "MyToolX", "My Tool X");
    assert_eq!(t.bundle_type, BundleType::Fetch);
    assert_eq!(t.bundle_name, "ChimeraX-MyToolX");
    assert_eq!(t.package_name, "chimerax.mytoolx");
    assert_eq!(t.package_dir, "mytoolx");
    assert_eq!(t.command_name, "my_to_ol_x");
    assert_eq!(t.tool_name, "My Tool X");
    assert_eq!(t.version, "0.1.0");
    assert_eq!(t.description, "ChimeraX MyToolX bundle");
}

#[test]
fn from_lowercase_is_exact() {
    assert_eq!(BundleType::from_lowercase("tool-html"), Some(BundleType::ToolHtml));
    assert_eq!(BundleType::from_lowercase("Tool"), None);
    assert_eq!(BundleType::from_lowercase(""), None);
    assert_eq!(BundleType::from_lowercase("tool "), None);
}

#[test]
fn default_bundle_type_is_command() {
    assert_eq!(BundleType::default(), BundleType::Command);
}

#[test]
fn rendering_replaces_in_a_fixed_order() {
    let mut template = BundleTemplate::new("a").unwrap();
    // A value that holds a later placeholder is substituted again.
    template.bundle_name = "{{version}}".to_string();
    assert_eq!(template.render_template("{{bundle_name}}"), "0.1.0");
    // A value that holds an earlier placeholder is not.
    template.description = "{{bundle_name}}".to_string();
    assert_eq!(template.render_template("{{description}}"), "{{bundle_name}}");
    assert_eq!(template.render_template("{{unknown}} {bundle_name}"), "{{unknown}} {bundle_name}");
}

#[test]
fn plan_orders_the_files() {
    let template = BundleTemplate::with_type("x", BundleType::Preset).unwrap();
    assert_eq!(
        template.plan(),
        vec![
            PlannedFile { path: "scripts/smoke.cxc".to_string(), role: TemplateRole::SmokeTest },
            PlannedFile { path: "README.md".to_string(), role: TemplateRole::Readme },
            PlannedFile { path: "pyproject.toml".to_string(), role: TemplateRole::Manifest },
            PlannedFile { path: "src/__init__.py".to_string(), role: TemplateRole::Init },
            PlannedFile { path: "src/preset.py".to_string(), role: TemplateRole::Feature },
        ]
    );
    let fetch = BundleTemplate::with_type("x", BundleType::Fetch).unwrap();
    assert_eq!(fetch.plan()[4].path, "src/fetch.py");
    let html = BundleTemplate::with_type("x", BundleType::ToolHtml).unwrap();
    assert_eq!(html.plan()[4].path, "src/tool.py");
}

#[test]
fn capitalize_with_replaces_the_first_character() {
    let word: Vec<char> = "straße".chars().collect();
    let upper: Vec<char> = "ST".chars().collect();
    let out: String = capitalize_with(&word, &upper).into_iter().collect();
    assert_eq!(out, "STtraße");
    let single: String = capitalize_with(&vec!['x'], &vec![]).into_iter().collect();
    assert_eq!(single, "");
    assert!(capitalize_with(&vec![], &upper).is_empty());
}

#[test]
fn template_files_by_type_and_role() {
    let command = BundleTemplate::new("x").unwrap();
    assert_eq!(command.template_file(TemplateRole::SmokeTest), "common/smoke_cxc.tmpl");
    assert_eq!(command.template_file(TemplateRole::Readme), "common/readme_md.tmpl");
    assert_eq!(command.template_file(TemplateRole::Manifest), "command/pyproject.toml.tmpl");
    assert_eq!(command.template_file(TemplateRole::Init), "command/init_py.tmpl");
    assert_eq!(command.template_file(TemplateRole::Feature), "command/cmd_py.tmpl");
    let expected = [
        (BundleType::Tool, "tool/tool_py.tmpl"),
        (BundleType::ToolHtml, "tool-html/tool_py.tmpl"),
        (BundleType::Format, "format/open_py.tmpl"),
        (BundleType::Fetch, "fetch/fetch_py.tmpl"),
        (BundleType::Selector, "selector/selector_py.tmpl"),
        (BundleType::Preset, "preset/preset_py.tmpl"),
        (BundleType::Cpp, "cpp/cmd_py.tmpl"),
    ];
    for (kind, feature) in expected {
        let template = BundleTemplate::with_type("x", kind).unwrap();
        assert_eq!(template.template_file(TemplateRole::Feature), feature);
    }
    let cpp = BundleTemplate::with_type("x", BundleType::Cpp).unwrap();
    assert_eq!(cpp.template_file(TemplateRole::Extension), "cpp/extension_cpp.tmpl");
    assert_eq!(cpp.template_file(TemplateRole::Manifest), "cpp/pyproject.toml.tmpl");
}
