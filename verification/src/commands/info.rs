//! The info command: what a bundle says of itself, and whether it is
//! installed.

use vstd::prelude::*;
use crate::chimerax::executor::{python_command, python_command_text, Verbosity};
use crate::document::{parse_toml, parsed_document, value_models, DocModel, TomlValue};
use crate::error::{config_error, text_outcome, EchidnaError, ErrorModel};
use crate::text::{
    ascii_letter, ascii_letter_or_digit, chars_of, contains, contains_text, decimal, glue, glue3,
    is_ascii_letter, is_ascii_letter_or_digit, join_strings, join_with, push_decimal, push_str,
    string_of, texts,
};

verus! {

/// Arguments for the info command.
#[derive(Clone, Debug)]
pub struct InfoArgs {
    /// Project directory.
    pub path: String,
    /// Path to the ChimeraX executable, if one is known.
    pub chimerax: Option<String>,
    pub verbosity: Verbosity,
}

/// What the manifest says of a bundle.
#[derive(Clone, Debug, PartialEq, Eq)]
pub struct BundleInfo {
    pub bundle_name: String,
    pub package_name: String,
    pub version: String,
    pub description: Option<String>,
    pub categories: Vec<String>,
}

/// The mathematical content of a [`BundleInfo`].
pub struct InfoModel {
    pub bundle_name: Seq<char>,
    pub package_name: Seq<char>,
    pub version: Seq<char>,
    pub description: Option<Seq<char>>,
    pub categories: Seq<Seq<char>>,
}

impl View for BundleInfo {
    type V = InfoModel;

    open spec fn view(&self) -> InfoModel {
        InfoModel {
            bundle_name: self.bundle_name@,
            package_name: self.package_name@,
            version: self.version@,
            description: match self.description {
                Some(d) => Some(d@),
                None => None,
            },
            categories: texts(self.categories@),
        }
    }
}

/// The text under `key` of a table, if that entry is a string.
pub open spec fn text_of(table: DocModel, key: Seq<char>) -> Option<Seq<char>> {
    match table.entry(key) {
        Some(v) => v.text(),
        None => None,
    }
}

/// The texts of the items that are strings, in order.
pub open spec fn string_items(items: Seq<DocModel>) -> Seq<Seq<char>>
    decreases items.len(),
{
    if items.len() == 0 {
        Seq::empty()
    } else {
        match items.last().text() {
            Some(t) => string_items(items.drop_last()).push(t),
            None => string_items(items.drop_last()),
        }
    }
}

/// The categories that the `[chimerax]` section declares.
pub open spec fn categories_of(chimerax: DocModel) -> Seq<Seq<char>> {
    match chimerax.entry("categories"@) {
        None => Seq::empty(),
        Some(v) => match v.items() {
            None => Seq::empty(),
            Some(items) => string_items(items),
        },
    }
}

/// A configuration error.
pub open spec fn missing(what: Seq<char>) -> ErrorModel {
    ErrorModel::ConfigError(what)
}

/// What a manifest says of its bundle, or the first thing that it lacks.
pub open spec fn info_of(doc: DocModel) -> Result<InfoModel, ErrorModel> {
    match doc.entry("project"@) {
        None => Err(missing("[project] section missing"@)),
        Some(project) => match text_of(project, "name"@) {
            None => Err(missing("[project].name missing"@)),
            Some(bundle_name) => match text_of(project, "version"@) {
                None => Err(missing("[project].version missing"@)),
                Some(version) => match doc.entry("chimerax"@) {
                    None => Err(missing("[chimerax] section missing"@)),
                    Some(chimerax) => match text_of(chimerax, "package"@) {
                        None => Err(missing("[chimerax].package missing"@)),
                        Some(package_name) => Ok(
                            InfoModel {
                                bundle_name,
                                package_name,
                                version,
                                description: text_of(project, "description"@),
                                categories: categories_of(chimerax),
                            },
                        ),
                    },
                },
            },
        },
    }
}

/// What a manifest says of its bundle, given what parsing it returned.
pub open spec fn info_of_parsed(parsed: Result<DocModel, Seq<char>>) -> Result<
    InfoModel,
    ErrorModel,
> {
    match parsed {
        Err(message) => Err(ErrorModel::TomlParse(message)),
        Ok(doc) => info_of(doc),
    }
}

/// The text under `key` of a table, if that entry is a string.
fn text_entry<'a>(table: &'a TomlValue, key: &str) -> (text: Option<&'a str>)
    ensures
        match text {
            Some(s) => text_of(table@, key@) == Some(s@),
            None => text_of(table@, key@).is_none(),
        },
{
    match table.get(key) {
        Some(v) => v.as_str(),
        None => None,
    }
}

/// The texts of the items that are strings.
fn collect_strings(items: &Vec<TomlValue>) -> (out: Vec<String>)
    ensures
        texts(out@) == string_items(value_models(items@)),
{
    let mut out: Vec<String> = Vec::new();
    let mut i: usize = 0;
    assert(value_models(items@).take(0) =~= Seq::<DocModel>::empty());
    assert(texts(out@) =~= Seq::<Seq<char>>::empty());
    while i < items.len()
        invariant
            i <= items.len(),
            texts(out@) == string_items(value_models(items@).take(i as int)),
        decreases items.len() - i,
    {
        let ghost done = texts(out@);
        assert(value_models(items@).take(i + 1).drop_last() =~= value_models(items@).take(
            i as int,
        ));
        assert(value_models(items@).take(i + 1).last() == items@[i as int]@);
        match items[i].as_str() {
            Some(s) => {
                out.push(s.to_owned());
                assert(texts(out@) =~= done.push(s@));
            },
            None => {},
        }
        i += 1;
    }
    assert(value_models(items@).take(items.len() as int) =~= value_models(items@));
    out
}

/// Reads the bundle information from a parsed manifest.
pub fn bundle_info(doc: &TomlValue) -> (r: Result<BundleInfo, EchidnaError>)
    ensures
        match r {
            Ok(info) => info_of(doc@) == Ok::<InfoModel, ErrorModel>(info@),
            Err(e) => info_of(doc@) == Err::<InfoModel, ErrorModel>(e@),
        },
{
    let project = match doc.get("project") {
        Some(p) => p,
        None => {
            return Err(config_error("[project] section missing"));
        },
    };
    let bundle_name = match text_entry(project, "name") {
        Some(s) => s.to_owned(),
        None => {
            return Err(config_error("[project].name missing"));
        },
    };
    let version = match text_entry(project, "version") {
        Some(s) => s.to_owned(),
        None => {
            return Err(config_error("[project].version missing"));
        },
    };
    let description = match text_entry(project, "description") {
        Some(s) => Some(s.to_owned()),
        None => None,
    };
    let chimerax = match doc.get("chimerax") {
        Some(c) => c,
        None => {
            return Err(config_error("[chimerax] section missing"));
        },
    };
    let package_name = match text_entry(chimerax, "package") {
        Some(s) => s.to_owned(),
        None => {
            return Err(config_error("[chimerax].package missing"));
        },
    };
    let categories = match chimerax.get("categories") {
        None => Vec::new(),
        Some(v) => match v.as_array() {
            None => Vec::new(),
            Some(items) => collect_strings(items),
        },
    };
    assert(texts(categories@) =~= categories_of(chimerax@));
    Ok(BundleInfo { bundle_name, package_name, version, description, categories })
}

/// Parses the bundle information from the text of a manifest.
pub fn parse_bundle_info(content: &str) -> (r: Result<BundleInfo, EchidnaError>)
    ensures
        match r {
            Ok(info) => info_of_parsed(parsed_document(content@)) == Ok::<InfoModel, ErrorModel>(
                info@,
            ),
            Err(e) => info_of_parsed(parsed_document(content@)) == Err::<InfoModel, ErrorModel>(
                e@,
            ),
        },
{
    match parse_toml(content) {
        Err(message) => Err(EchidnaError::TomlParse(message)),
        Ok(doc) => bundle_info(&doc),
    }
}

/// Whether a character may stand inside a package name.
pub open spec fn package_char(c: char) -> bool {
    is_ascii_letter_or_digit(c) || c == '_' || c == '.'
}

/// Whether a package name is safe to stand in Python code: it starts with
/// an ASCII letter or an underscore, and holds nothing but ASCII letters,
/// digits, underscores and dots.
pub open spec fn valid_package_name(name: Seq<char>) -> bool {
    name.len() > 0 && (is_ascii_letter(name[0]) || name[0] == '_') && forall|i: int|
        1 <= i < name.len() ==> package_char(#[trigger] name[i])
}

/// Whether a package name is safe to stand in Python code.
pub fn is_valid_package_name(name: &str) -> (valid: bool)
    ensures
        valid == valid_package_name(name@),
{
    let chars = chars_of(name);
    if chars.len() == 0 {
        return false;
    }
    if !(ascii_letter(chars[0]) || chars[0] == '_') {
        return false;
    }
    let mut i: usize = 1;
    while i < chars.len()
        invariant
            1 <= i <= chars.len(),
            chars@ == name@,
            forall|j: int| 1 <= j < i ==> package_char(#[trigger] chars@[j]),
        decreases chars.len() - i,
    {
        let c = chars[i];
        if !(ascii_letter_or_digit(c) || c == '_' || c == '.') {
            assert(!package_char(chars@[i as int]));
            return false;
        }
        i += 1;
    }
    true
}

/// The Python code that tells whether a package can be imported.
pub open spec fn installed_probe(package_name: Seq<char>) -> Seq<char> {
    "\nimport importlib.util\nspec = importlib.util.find_spec(\""@ + package_name
        + "\")\nprint(\"INSTALLED:YES\" if spec else \"INSTALLED:NO\")\n"@
}

/// The command that asks ChimeraX whether a bundle is installed, or the
/// error for a package name that may not stand in Python code.
pub open spec fn installed_check_text(package_name: Seq<char>) -> Result<Seq<char>, ErrorModel> {
    if valid_package_name(package_name) {
        Ok(python_command_text(installed_probe(package_name), true))
    } else {
        Err(ErrorModel::ConfigError("Invalid package name: "@ + package_name))
    }
}

/// The command that asks ChimeraX whether a bundle is installed.
pub fn installed_check_command(package_name: &str) -> (r: Result<String, EchidnaError>)
    ensures
        text_outcome(r) == installed_check_text(package_name@),
{
    if !is_valid_package_name(package_name) {
        let message = glue("Invalid package name: ", package_name);
        return Err(config_error(message.as_str()));
    }
    let code = glue3(
        "\nimport importlib.util\nspec = importlib.util.find_spec(\"",
        package_name,
        "\")\nprint(\"INSTALLED:YES\" if spec else \"INSTALLED:NO\")\n",
    );
    Ok(python_command(code.as_str(), true))
}

/// Whether the output of the installation check says that the bundle is
/// installed.
pub fn reports_installed(stdout: &str) -> (installed: bool)
    ensures
        installed == contains_text(stdout@, "INSTALLED:YES"@),
{
    let out = chars_of(stdout);
    let mark = chars_of("INSTALLED:YES");
    contains(&out, &mark)
}

/// How long ago something happened, in the largest unit that fits.
pub open spec fn elapsed_text(secs: nat) -> Seq<char> {
    if secs < 60 {
        decimal(secs) + " seconds ago"@
    } else if secs < 3600 {
        decimal(secs / 60) + " minutes ago"@
    } else if secs < 86400 {
        decimal(secs / 3600) + " hours ago"@
    } else {
        decimal(secs / 86400) + " days ago"@
    }
}

/// How long ago something happened, in the largest unit that fits.
pub fn format_elapsed(secs: u64) -> (text: String)
    ensures
        text@ == elapsed_text(secs as nat),
{
    let mut out: Vec<char> = Vec::new();
    if secs < 60 {
        push_decimal(&mut out, secs);
        push_str(&mut out, " seconds ago");
    } else if secs < 3600 {
        push_decimal(&mut out, secs / 60);
        push_str(&mut out, " minutes ago");
    } else if secs < 86400 {
        push_decimal(&mut out, secs / 3600);
        push_str(&mut out, " hours ago");
    } else {
        push_decimal(&mut out, secs / 86400);
        push_str(&mut out, " days ago");
    }
    assert(out@ =~= elapsed_text(secs as nat));
    string_of(&out)
}

/// The lines that present a bundle: its names and version, then its
/// description and its categories if it has any.
pub open spec fn info_lines(info: InfoModel) -> Seq<Seq<char>> {
    seq![
        "Bundle Information"@,
        "=================="@,
        ""@,
        "Bundle name:    "@ + info.bundle_name,
        "Package name:   "@ + info.package_name,
        "Version:        "@ + info.version,
    ] + (match info.description {
        Some(d) => seq!["Description:    "@ + d],
        None => Seq::empty(),
    }) + (if info.categories.len() > 0 {
        seq!["Categories:     "@ + join_with(info.categories, ", "@)]
    } else {
        Seq::empty()
    })
}

/// The lines that present a bundle.
pub fn describe_bundle(info: &BundleInfo) -> (lines: Vec<String>)
    ensures
        texts(lines@) == info_lines(info@),
{
    let mut lines: Vec<String> = Vec::new();
    lines.push("Bundle Information".to_owned());
    lines.push("==================".to_owned());
    lines.push("".to_owned());
    lines.push(glue("Bundle name:    ", info.bundle_name.as_str()));
    lines.push(glue("Package name:   ", info.package_name.as_str()));
    lines.push(glue("Version:        ", info.version.as_str()));
    match &info.description {
        Some(d) => {
            lines.push(glue("Description:    ", d.as_str()));
        },
        None => {},
    }
    if info.categories.len() > 0 {
        let joined = join_strings(&info.categories, ", ");
        lines.push(glue("Categories:     ", joined.as_str()));
    }
    assert(texts(lines@) =~= info_lines(info@));
    lines
}

} // verus!
