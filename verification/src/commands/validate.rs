//! Validation of a bundle: its manifest and its source layout.

use vstd::prelude::*;
use crate::document::{parse_toml, parsed_document, value_models, DocModel, TomlValue};
use crate::error::{unit_outcome, EchidnaError, ErrorModel};
use crate::text::{
    chars_of, contains, contains_text, decimal, glue, glue3, has_prefix, marked, push_marked,
    push_str, push_wide_decimal, same_text, starts_with, string_of, texts,
};

verus! {

/// Arguments for the validate command.
#[derive(Clone, Debug)]
pub struct ValidateArgs {
    /// Project directory.
    pub path: String,
    /// Treat warnings as errors.
    pub strict: bool,
}

/// What validation found.
#[derive(Clone, Debug)]
pub struct ValidationResult {
    pub errors: Vec<String>,
    pub warnings: Vec<String>,
}

/// The mathematical content of a [`ValidationResult`].
pub struct FindingsModel {
    pub errors: Seq<Seq<char>>,
    pub warnings: Seq<Seq<char>>,
}

impl View for ValidationResult {
    type V = FindingsModel;

    open spec fn view(&self) -> FindingsModel {
        FindingsModel { errors: texts(self.errors@), warnings: texts(self.warnings@) }
    }
}

impl Default for ValidationResult {
    fn default() -> (result: ValidationResult)
        ensures
            result@.errors.len() == 0,
            result@.warnings.len() == 0,
    {
        ValidationResult { errors: Vec::new(), warnings: Vec::new() }
    }
}

impl ValidationResult {
    /// Whether no error was found.
    pub fn is_valid(&self) -> (valid: bool)
        ensures
            valid == (self@.errors.len() == 0),
    {
        self.errors.len() == 0
    }

    /// Whether neither an error nor a warning was found.
    pub fn is_valid_strict(&self) -> (valid: bool)
        ensures
            valid == (self@.errors.len() == 0 && self@.warnings.len() == 0),
    {
        self.errors.len() == 0 && self.warnings.len() == 0
    }

    /// Adds an error.
    pub fn add_error(&mut self, msg: &str)
        ensures
            final(self)@.errors == old(self)@.errors.push(msg@),
            final(self)@.warnings == old(self)@.warnings,
    {
        self.errors.push(msg.to_owned());
        assert(self@.errors =~= old(self)@.errors.push(msg@));
    }

    /// Adds a warning.
    pub fn add_warning(&mut self, msg: &str)
        ensures
            final(self)@.warnings == old(self)@.warnings.push(msg@),
            final(self)@.errors == old(self)@.errors,
    {
        self.warnings.push(msg.to_owned());
        assert(self@.warnings =~= old(self)@.warnings.push(msg@));
    }
}

/// What the file system shows of the sources of a bundle.
#[derive(Clone, Debug)]
pub struct SourceLayout {
    /// Whether `src/` exists.
    pub has_src_dir: bool,
    /// Whether `src/__init__.py` exists.
    pub has_init_py: bool,
    /// The text of `src/__init__.py`, if it could be read.
    pub init_py: Option<String>,
    /// Whether `src/cmd.py` exists.
    pub has_cmd_py: bool,
    /// Whether `src/tool.py` exists.
    pub has_tool_py: bool,
}

/// The mathematical content of a [`SourceLayout`].
pub struct LayoutModel {
    pub has_src_dir: bool,
    pub has_init_py: bool,
    pub init_py: Option<Seq<char>>,
    pub has_cmd_py: bool,
    pub has_tool_py: bool,
}

impl View for SourceLayout {
    type V = LayoutModel;

    open spec fn view(&self) -> LayoutModel {
        LayoutModel {
            has_src_dir: self.has_src_dir,
            has_init_py: self.has_init_py,
            init_py: match self.init_py {
                Some(text) => Some(text@),
                None => None,
            },
            has_cmd_py: self.has_cmd_py,
            has_tool_py: self.has_tool_py,
        }
    }
}

/// Nothing found.
pub open spec fn none_found() -> Seq<Seq<char>> {
    Seq::empty()
}

/// Whether some item of the array is a string that holds `needle`.
pub open spec fn some_item_contains(items: Seq<DocModel>, needle: Seq<char>) -> bool {
    exists|i: int|
        0 <= i < items.len() && (#[trigger] items[i]).text().is_some() && contains_text(
            items[i].text().unwrap(),
            needle,
        )
}

/// Whether some item of the array is a string that begins with `prefix`.
pub open spec fn some_item_starts_with(items: Seq<DocModel>, prefix: Seq<char>) -> bool {
    exists|i: int|
        0 <= i < items.len() && (#[trigger] items[i]).text().is_some() && starts_with(
            items[i].text().unwrap(),
            prefix,
        )
}

/// The errors in the requirements of the build system.
pub open spec fn requires_errors(build_system: DocModel) -> Seq<Seq<char>> {
    match build_system.entry("requires"@) {
        None => seq!["[build-system].requires is missing"@],
        Some(required) => match required.items() {
            None => seq!["[build-system].requires must be an array"@],
            Some(items) => if some_item_contains(items, "ChimeraX-BundleBuilder"@) {
                none_found()
            } else {
                seq!["[build-system].requires must include 'ChimeraX-BundleBuilder'"@]
            },
        },
    }
}

/// The errors in the `[build-system]` section.
pub open spec fn build_system_errors(doc: DocModel) -> Seq<Seq<char>> {
    match doc.entry("build-system"@) {
        None => seq!["[build-system] section missing"@],
        Some(build_system) => requires_errors(build_system) + (
        if build_system.entry("build-backend"@).is_none() {
            seq!["[build-system].build-backend is missing"@]
        } else {
            none_found()
        }),
    }
}

/// The build backend that a bundle is built with.
pub open spec fn expected_backend() -> Seq<char> {
    "chimerax.bundle_builder.cx_pep517"@
}

/// The warnings on the `[build-system]` section.
pub open spec fn build_system_warnings(doc: DocModel) -> Seq<Seq<char>> {
    match doc.entry("build-system"@) {
        None => none_found(),
        Some(build_system) => match build_system.entry("build-backend"@) {
            None => none_found(),
            Some(backend) => match backend.text() {
                None => none_found(),
                Some(name) => if name == expected_backend() {
                    none_found()
                } else {
                    seq![
                        "Unexpected build-backend: '"@ + name
                            + "' (expected 'chimerax.bundle_builder.cx_pep517')"@,
                    ]
                },
            },
        },
    }
}

/// The errors in the `[project]` section.
pub open spec fn project_errors(doc: DocModel) -> Seq<Seq<char>> {
    match doc.entry("project"@) {
        None => seq!["[project] section missing"@],
        Some(project) => (match project.entry("name"@) {
            None => seq!["[project].name is missing"@],
            Some(name) => if name.text().is_none() {
                seq!["[project].name must be a string"@]
            } else {
                none_found()
            },
        }) + (if project.entry("version"@).is_none() {
            seq!["[project].version is missing"@]
        } else {
            none_found()
        }),
    }
}

/// The warning on a bundle name that does not begin with `ChimeraX-`.
pub open spec fn name_warnings(project: DocModel) -> Seq<Seq<char>> {
    match project.entry("name"@) {
        None => none_found(),
        Some(name) => match name.text() {
            None => none_found(),
            Some(text) => if starts_with(text, "ChimeraX-"@) {
                none_found()
            } else {
                seq![
                    "Bundle name '"@ + text
                        + "' doesn't follow convention (should start with 'ChimeraX-')"@,
                ]
            },
        },
    }
}

/// The warning on classifiers that name no Python version.
pub open spec fn classifier_warnings(project: DocModel) -> Seq<Seq<char>> {
    match project.entry("classifiers"@) {
        None => none_found(),
        Some(classifiers) => match classifiers.items() {
            None => none_found(),
            Some(items) => if some_item_starts_with(items, "Programming Language :: Python"@) {
                none_found()
            } else {
                seq!["[project].classifiers should include Python version classifier"@]
            },
        },
    }
}

/// The warnings on the `[project]` section.
pub open spec fn project_warnings(doc: DocModel) -> Seq<Seq<char>> {
    match doc.entry("project"@) {
        None => none_found(),
        Some(project) => name_warnings(project) + (if project.entry("description"@).is_none() {
            seq!["[project].description is not set (recommended for Toolshed)"@]
        } else {
            none_found()
        }) + classifier_warnings(project),
    }
}

/// The errors in the `[chimerax]` section.
pub open spec fn chimerax_errors(doc: DocModel) -> Seq<Seq<char>> {
    match doc.entry("chimerax"@) {
        None => seq!["[chimerax] section missing"@],
        Some(chimerax) => match chimerax.entry("package"@) {
            None => seq!["[chimerax].package is missing"@],
            Some(package) => if package.text().is_none() {
                seq!["[chimerax].package must be a string"@]
            } else {
                none_found()
            },
        },
    }
}

/// The warning on a package name that does not begin with `chimerax.`.
pub open spec fn package_warnings(chimerax: DocModel) -> Seq<Seq<char>> {
    match chimerax.entry("package"@) {
        None => none_found(),
        Some(package) => match package.text() {
            None => none_found(),
            Some(text) => if starts_with(text, "chimerax."@) {
                none_found()
            } else {
                seq![
                    "Package '"@ + text
                        + "' doesn't follow convention (should start with 'chimerax.')"@,
                ]
            },
        },
    }
}

/// The warnings on the `[chimerax]` section.
pub open spec fn chimerax_warnings(doc: DocModel) -> Seq<Seq<char>> {
    match doc.entry("chimerax"@) {
        None => none_found(),
        Some(chimerax) => package_warnings(chimerax) + (
        if chimerax.entry("categories"@).is_none() {
            seq!["[chimerax].categories is not set"@]
        } else {
            none_found()
        }) + (if chimerax.entry("min-session-version"@).is_none() {
            seq!["[chimerax].min-session-version is not set (recommended)"@]
        } else {
            none_found()
        }) + (if chimerax.entry("min-chimerax-version"@).is_none() {
            seq!["[chimerax].min-chimerax-version is not set (recommended)"@]
        } else {
            none_found()
        }),
    }
}

/// The errors in the source layout.
pub open spec fn source_errors(layout: LayoutModel) -> Seq<Seq<char>> {
    if !layout.has_src_dir {
        seq!["src/ directory not found"@]
    } else if !layout.has_init_py {
        seq!["src/__init__.py not found"@]
    } else {
        none_found()
    }
}

/// Whether the text of `__init__.py` registers the bundle.
pub open spec fn registers_bundle(init_py: Seq<char>) -> bool {
    contains_text(init_py, "bundle_api"@) || contains_text(init_py, "get_class"@)
        || contains_text(init_py, "BundleAPI"@)
}

/// Whether the `[chimerax]` section declares entries under `key`, as a table
/// or as an array.
pub open spec fn declares(doc: DocModel, key: Seq<char>) -> bool {
    match doc.entry("chimerax"@) {
        None => false,
        Some(chimerax) => match chimerax.entry(key) {
            None => false,
            Some(declared) => declared.is_table() || declared.is_array(),
        },
    }
}

/// The warnings on the source layout; none where the layout has an error.
pub open spec fn source_warnings(layout: LayoutModel, doc: DocModel) -> Seq<Seq<char>> {
    if !layout.has_src_dir || !layout.has_init_py {
        none_found()
    } else {
        (match layout.init_py {
            Some(text) => if registers_bundle(text) {
                none_found()
            } else {
                seq![
                    "src/__init__.py should define bundle_api or get_class() for bundle registration"@,
                ]
            },
            None => none_found(),
        }) + (if declares(doc, "commands"@) && !layout.has_cmd_py {
            seq!["Commands declared but src/cmd.py not found (common pattern)"@]
        } else {
            none_found()
        }) + (if declares(doc, "tools"@) && !layout.has_tool_py {
            seq!["Tools declared but src/tool.py not found (common pattern)"@]
        } else {
            none_found()
        })
    }
}

/// The errors that validation of a parsed manifest and a layout finds.
pub open spec fn document_errors(doc: DocModel, layout: LayoutModel) -> Seq<Seq<char>> {
    build_system_errors(doc) + project_errors(doc) + chimerax_errors(doc) + source_errors(layout)
}

/// The warnings that validation of a parsed manifest and a layout finds.
pub open spec fn document_warnings(doc: DocModel, layout: LayoutModel) -> Seq<Seq<char>> {
    build_system_warnings(doc) + project_warnings(doc) + chimerax_warnings(doc) + source_warnings(
        layout,
        doc,
    )
}

/// What validation of a bundle finds, given what parsing its manifest
/// returned (`None` where the bundle has no manifest) and its layout.
pub open spec fn bundle_findings(
    parsed: Option<Result<DocModel, Seq<char>>>,
    layout: LayoutModel,
) -> FindingsModel {
    match parsed {
        None => FindingsModel { errors: seq!["pyproject.toml not found"@], warnings: none_found() },
        Some(Err(message)) => FindingsModel {
            errors: seq!["Failed to parse pyproject.toml: "@ + message],
            warnings: none_found(),
        },
        Some(Ok(doc)) => FindingsModel {
            errors: document_errors(doc, layout),
            warnings: document_warnings(doc, layout),
        },
    }
}

/// Whether some item of the array is a string that holds `needle`, or that
/// begins with it if `at_start` is set.
fn some_item_matches(items: &Vec<TomlValue>, needle: &str, at_start: bool) -> (found: bool)
    ensures
        found == (if at_start {
            some_item_starts_with(value_models(items@), needle@)
        } else {
            some_item_contains(value_models(items@), needle@)
        }),
{
    let wanted = chars_of(needle);
    let mut i: usize = 0;
    while i < items.len()
        invariant
            i <= items.len(),
            wanted@ == needle@,
            forall|j: int|
                0 <= j < i ==> !((#[trigger] value_models(items@)[j]).text().is_some() && (
                if at_start {
                    starts_with(value_models(items@)[j].text().unwrap(), needle@)
                } else {
                    contains_text(value_models(items@)[j].text().unwrap(), needle@)
                })),
        decreases items.len() - i,
    {
        match items[i].as_str() {
            Some(text) => {
                let chars = chars_of(text);
                let hit = if at_start {
                    has_prefix(&chars, &wanted)
                } else {
                    contains(&chars, &wanted)
                };
                if hit {
                    assert(value_models(items@)[i as int] == items@[i as int]@);
                    return true;
                }
            },
            None => {},
        }
        i += 1;
    }
    false
}

/// Validates the `[build-system]` section.
pub fn validate_build_system(pyproject: &TomlValue, result: &mut ValidationResult)
    ensures
        final(result)@.errors == old(result)@.errors + build_system_errors(pyproject@),
        final(result)@.warnings == old(result)@.warnings + build_system_warnings(pyproject@),
{
    let build_system = match pyproject.get("build-system") {
        Some(bs) => bs,
        None => {
            result.add_error("[build-system] section missing");
            assert(result@.errors =~= old(result)@.errors + build_system_errors(pyproject@));
            assert(result@.warnings =~= old(result)@.warnings + build_system_warnings(pyproject@));
            return ;
        },
    };
    match build_system.get("requires") {
        Some(required) => match required.as_array() {
            Some(items) => {
                if !some_item_matches(items, "ChimeraX-BundleBuilder", false) {
                    result.add_error(
                        "[build-system].requires must include 'ChimeraX-BundleBuilder'",
                    );
                }
            },
            None => {
                result.add_error("[build-system].requires must be an array");
            },
        },
        None => {
            result.add_error("[build-system].requires is missing");
        },
    }
    assert(result@.errors =~= old(result)@.errors + requires_errors(build_system@));
    match build_system.get("build-backend") {
        Some(backend) => match backend.as_str() {
            Some(name) => {
                if !same_text(name, "chimerax.bundle_builder.cx_pep517") {
                    let warning = glue3(
                        "Unexpected build-backend: '",
                        name,
                        "' (expected 'chimerax.bundle_builder.cx_pep517')",
                    );
                    result.add_warning(warning.as_str());
                }
            },
            None => {},
        },
        None => {
            result.add_error("[build-system].build-backend is missing");
        },
    }
    assert(result@.errors =~= old(result)@.errors + build_system_errors(pyproject@));
    assert(result@.warnings =~= old(result)@.warnings + build_system_warnings(pyproject@));
}

/// Validates the `[project]` section.
pub fn validate_project_section(pyproject: &TomlValue, result: &mut ValidationResult)
    ensures
        final(result)@.errors == old(result)@.errors + project_errors(pyproject@),
        final(result)@.warnings == old(result)@.warnings + project_warnings(pyproject@),
{
    let project = match pyproject.get("project") {
        Some(p) => p,
        None => {
            result.add_error("[project] section missing");
            assert(result@.errors =~= old(result)@.errors + project_errors(pyproject@));
            assert(result@.warnings =~= old(result)@.warnings + project_warnings(pyproject@));
            return ;
        },
    };
    match project.get("name") {
        Some(name) => match name.as_str() {
            Some(text) => {
                let chars = chars_of(text);
                let prefix = chars_of("ChimeraX-");
                if !has_prefix(&chars, &prefix) {
                    let warning = glue3(
                        "Bundle name '",
                        text,
                        "' doesn't follow convention (should start with 'ChimeraX-')",
                    );
                    result.add_warning(warning.as_str());
                }
            },
            None => {
                result.add_error("[project].name must be a string");
            },
        },
        None => {
            result.add_error("[project].name is missing");
        },
    }
    assert(result@.warnings =~= old(result)@.warnings + name_warnings(project@));
    if project.get("version").is_none() {
        result.add_error("[project].version is missing");
    }
    assert(result@.errors =~= old(result)@.errors + project_errors(pyproject@));
    if project.get("description").is_none() {
        result.add_warning("[project].description is not set (recommended for Toolshed)");
    }
    let ghost mid = result@.warnings;
    match project.get("classifiers") {
        Some(classifiers) => match classifiers.as_array() {
            Some(items) => {
                if !some_item_matches(items, "Programming Language :: Python", true) {
                    result.add_warning(
                        "[project].classifiers should include Python version classifier",
                    );
                }
            },
            None => {},
        },
        None => {},
    }
    assert(result@.warnings =~= mid + classifier_warnings(project@));
    assert(result@.warnings =~= old(result)@.warnings + project_warnings(pyproject@));
}

/// Validates the `[chimerax]` section.
pub fn validate_chimerax_section(pyproject: &TomlValue, result: &mut ValidationResult)
    ensures
        final(result)@.errors == old(result)@.errors + chimerax_errors(pyproject@),
        final(result)@.warnings == old(result)@.warnings + chimerax_warnings(pyproject@),
{
    let chimerax = match pyproject.get("chimerax") {
        Some(c) => c,
        None => {
            result.add_error("[chimerax] section missing");
            assert(result@.errors =~= old(result)@.errors + chimerax_errors(pyproject@));
            assert(result@.warnings =~= old(result)@.warnings + chimerax_warnings(pyproject@));
            return ;
        },
    };
    match chimerax.get("package") {
        Some(package) => match package.as_str() {
            Some(text) => {
                let chars = chars_of(text);
                let prefix = chars_of("chimerax.");
                if !has_prefix(&chars, &prefix) {
                    let warning = glue3(
                        "Package '",
                        text,
                        "' doesn't follow convention (should start with 'chimerax.')",
                    );
                    result.add_warning(warning.as_str());
                }
            },
            None => {
                result.add_error("[chimerax].package must be a string");
            },
        },
        None => {
            result.add_error("[chimerax].package is missing");
        },
    }
    assert(result@.errors =~= old(result)@.errors + chimerax_errors(pyproject@));
    assert(result@.warnings =~= old(result)@.warnings + package_warnings(chimerax@));
    if chimerax.get("categories").is_none() {
        result.add_warning("[chimerax].categories is not set");
    }
    if chimerax.get("min-session-version").is_none() {
        result.add_warning("[chimerax].min-session-version is not set (recommended)");
    }
    if chimerax.get("min-chimerax-version").is_none() {
        result.add_warning("[chimerax].min-chimerax-version is not set (recommended)");
    }
    assert(result@.warnings =~= old(result)@.warnings + chimerax_warnings(pyproject@));
}

/// Whether the text of `__init__.py` registers the bundle.
fn has_registration(init_py: &str) -> (found: bool)
    ensures
        found == registers_bundle(init_py@),
{
    let chars = chars_of(init_py);
    let a = chars_of("bundle_api");
    let b = chars_of("get_class");
    let c = chars_of("BundleAPI");
    contains(&chars, &a) || contains(&chars, &b) || contains(&chars, &c)
}

/// Whether the `[chimerax]` section declares entries under `key`.
fn has_declared(pyproject: &TomlValue, key: &str) -> (found: bool)
    ensures
        found == declares(pyproject@, key@),
{
    match pyproject.get("chimerax") {
        None => false,
        Some(chimerax) => match chimerax.get(key) {
            None => false,
            Some(declared) => declared.is_collection(),
        },
    }
}

/// Validates the source layout against the manifest.
pub fn validate_source_structure(
    layout: &SourceLayout,
    pyproject: &TomlValue,
    result: &mut ValidationResult,
)
    ensures
        final(result)@.errors == old(result)@.errors + source_errors(layout@),
        final(result)@.warnings == old(result)@.warnings + source_warnings(layout@, pyproject@),
{
    if !layout.has_src_dir {
        result.add_error("src/ directory not found");
        assert(result@.errors =~= old(result)@.errors + source_errors(layout@));
        assert(result@.warnings =~= old(result)@.warnings + source_warnings(layout@, pyproject@));
        return ;
    }
    if !layout.has_init_py {
        result.add_error("src/__init__.py not found");
        assert(result@.errors =~= old(result)@.errors + source_errors(layout@));
        assert(result@.warnings =~= old(result)@.warnings + source_warnings(layout@, pyproject@));
        return ;
    }
    match &layout.init_py {
        Some(text) => {
            if !has_registration(text.as_str()) {
                result.add_warning(
                    "src/__init__.py should define bundle_api or get_class() for bundle registration",
                );
            }
        },
        None => {},
    }
    if has_declared(pyproject, "commands") && !layout.has_cmd_py {
        result.add_warning("Commands declared but src/cmd.py not found (common pattern)");
    }
    if has_declared(pyproject, "tools") && !layout.has_tool_py {
        result.add_warning("Tools declared but src/tool.py not found (common pattern)");
    }
    assert(result@.errors =~= old(result)@.errors + source_errors(layout@));
    assert(result@.warnings =~= old(result)@.warnings + source_warnings(layout@, pyproject@));
}

/// Validates a parsed manifest and the source layout.
pub fn validate_document(pyproject: &TomlValue, layout: &SourceLayout) -> (result:
    ValidationResult)
    ensures
        result@.errors == document_errors(pyproject@, layout@),
        result@.warnings == document_warnings(pyproject@, layout@),
{
    let mut result = ValidationResult::default();
    assert(result@.errors =~= none_found());
    assert(result@.warnings =~= none_found());
    validate_build_system(pyproject, &mut result);
    validate_project_section(pyproject, &mut result);
    validate_chimerax_section(pyproject, &mut result);
    validate_source_structure(layout, pyproject, &mut result);
    assert(result@.errors =~= document_errors(pyproject@, layout@));
    assert(result@.warnings =~= document_warnings(pyproject@, layout@));
    result
}

/// What validation finds, given the outcome of parsing the manifest.
pub fn validate_parsed(parsed: Option<Result<TomlValue, String>>, layout: &SourceLayout) -> (result:
    ValidationResult)
    ensures
        result@ == bundle_findings(
            match parsed {
                None => None,
                Some(Ok(doc)) => Some(Ok(doc@)),
                Some(Err(message)) => Some(Err(message@)),
            },
            layout@,
        ),
{
    match parsed {
        None => {
            let mut result = ValidationResult::default();
            result.add_error("pyproject.toml not found");
            assert(result@.errors =~= seq!["pyproject.toml not found"@]);
            assert(result@.warnings =~= none_found());
            result
        },
        Some(Err(message)) => {
            let mut result = ValidationResult::default();
            let line = glue("Failed to parse pyproject.toml: ", message.as_str());
            result.add_error(line.as_str());
            assert(result@.errors =~= seq!["Failed to parse pyproject.toml: "@ + message@]);
            assert(result@.warnings =~= none_found());
            result
        },
        Some(Ok(doc)) => validate_document(&doc, layout),
    }
}

/// Validates a bundle, given the text of its manifest (`None` where the
/// bundle has none) and its source layout.
pub fn validate_bundle(manifest: Option<&str>, layout: &SourceLayout) -> (result: ValidationResult)
    ensures
        result@ == bundle_findings(
            match manifest {
                None => None,
                Some(content) => Some(parsed_document(content@)),
            },
            layout@,
        ),
{
    match manifest {
        None => validate_parsed(None, layout),
        Some(content) => validate_parsed(Some(parse_toml(content)), layout),
    }
}

/// Whether the findings let a bundle pass: no error, and in strict mode no
/// warning either.
pub open spec fn passes(findings: FindingsModel, strict: bool) -> bool {
    findings.errors.len() == 0 && (!strict || findings.warnings.len() == 0)
}

/// The number of findings that count as errors: the errors, and in strict
/// mode the warnings too.
pub open spec fn error_count(findings: FindingsModel, strict: bool) -> nat {
    if strict {
        findings.errors.len() + findings.warnings.len()
    } else {
        findings.errors.len()
    }
}

/// The ending of a noun for the given number.
pub open spec fn plural(n: nat) -> Seq<char> {
    if n == 1 {
        ""@
    } else {
        "s"@
    }
}

/// The lines that tell whether the bundle passed.
pub open spec fn verdict_lines(findings: FindingsModel, strict: bool) -> Seq<Seq<char>> {
    if passes(findings, strict) {
        if findings.warnings.len() > 0 {
            seq![
                "✓ Bundle is valid"@,
                "  ("@ + decimal(findings.warnings.len()) + " warning"@ + plural(
                    findings.warnings.len(),
                ) + ")"@,
            ]
        } else {
            seq!["✓ Bundle is valid"@]
        }
    } else {
        seq![
            "✗ Validation failed with "@ + decimal(error_count(findings, strict)) + " error"@
                + plural(error_count(findings, strict)),
        ]
    }
}

/// The lines that report the findings: the warnings, marked as errors in
/// strict mode, then the errors, then the verdict.
pub open spec fn findings_report(findings: FindingsModel, strict: bool) -> Seq<Seq<char>> {
    marked(
        if strict {
            "  ✗ "@
        } else {
            "  ⚠ "@
        },
        findings.warnings,
    ) + marked("  ✗ "@, findings.errors) + seq![""@] + verdict_lines(findings, strict)
}

/// The error for a bundle that did not pass.
pub open spec fn validation_failed() -> ErrorModel {
    ErrorModel::ConfigError("bundle validation failed"@)
}

/// The line that counts what was found.
fn count_line(head: &str, n: u128, noun: &str, tail: &str) -> (line: String)
    ensures
        line@ == head@ + decimal(n as nat) + noun@ + plural(n as nat) + tail@,
{
    let mut out: Vec<char> = Vec::new();
    push_str(&mut out, head);
    push_wide_decimal(&mut out, n);
    push_str(&mut out, noun);
    if n == 1 {
        push_str(&mut out, "");
    } else {
        push_str(&mut out, "s");
    }
    push_str(&mut out, tail);
    assert(out@ =~= head@ + decimal(n as nat) + noun@ + plural(n as nat) + tail@);
    string_of(&out)
}

/// The lines that report the findings.
pub fn report_findings(result: &ValidationResult, strict: bool) -> (lines: Vec<String>)
    ensures
        texts(lines@) == findings_report(result@, strict),
{
    let mut lines: Vec<String> = Vec::new();
    assert(texts(lines@) =~= Seq::<Seq<char>>::empty());
    if strict {
        push_marked(&mut lines, "  ✗ ", &result.warnings);
    } else {
        push_marked(&mut lines, "  ⚠ ", &result.warnings);
    }
    push_marked(&mut lines, "  ✗ ", &result.errors);
    lines.push("".to_owned());
    let ghost head = texts(lines@);
    assert(head =~= marked(
        if strict {
            "  ✗ "@
        } else {
            "  ⚠ "@
        },
        result@.warnings,
    ) + marked("  ✗ "@, result@.errors) + seq![""@]);
    let errors = result.errors.len() as u128;
    let warnings = result.warnings.len() as u128;
    if errors == 0 && (!strict || warnings == 0) {
        lines.push("✓ Bundle is valid".to_owned());
        if warnings > 0 {
            lines.push(count_line("  (", warnings, " warning", ")"));
        }
    } else {
        let count = if strict {
            errors + warnings
        } else {
            errors
        };
        lines.push(count_line("✗ Validation failed with ", count, " error", ""));
        assert("✗ Validation failed with "@ + decimal(count as nat) + " error"@ + plural(
            count as nat,
        ) + ""@ =~= "✗ Validation failed with "@ + decimal(count as nat) + " error"@ + plural(
            count as nat,
        )) by {
            reveal_strlit("");
        }
    }
    assert(texts(lines@) =~= head + verdict_lines(result@, strict));
    lines
}

/// Whether the bundle passed, as the result of the validate command.
pub fn verdict(result: &ValidationResult, strict: bool) -> (r: Result<(), EchidnaError>)
    ensures
        unit_outcome(r) == (if passes(result@, strict) {
            Ok::<(), ErrorModel>(())
        } else {
            Err::<(), ErrorModel>(validation_failed())
        }),
{
    let valid = if strict {
        result.is_valid_strict()
    } else {
        result.is_valid()
    };
    if valid {
        Ok(())
    } else {
        Err(EchidnaError::ConfigError("bundle validation failed".to_owned()))
    }
}

} // verus!
