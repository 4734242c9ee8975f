//! Bundle templates: the names of a new bundle and the files it starts with.

use vstd::prelude::*;
use crate::error::{EchidnaError, ErrorModel};
use crate::text::{
    chars_of, concat_all, glue, glue3, join, join_with, push_all, replace, replace_all,
    replace_chars, replace_each, rows, same_text, slice_of, split, split_by, string_of, trim,
    trimmed,
};
use crate::unicode::{
    lowercase_text, unicode_alphabetic, unicode_alphanumeric, uppercase_char, uppercase_of,
};

verus! {

/// The kind of bundle that a template is for.
#[derive(Clone, Copy, Debug, PartialEq, Eq, Structural)]
pub enum BundleType {
    /// Command-only bundle.
    Command,
    /// Qt-based GUI tool.
    Tool,
    /// HTML-based GUI tool.
    ToolHtml,
    /// File format reader or writer.
    Format,
    /// Network database fetcher.
    Fetch,
    /// Chemical subgroup selector.
    Selector,
    /// Visualization presets.
    Preset,
    /// C/C++ extension bundle.
    Cpp,
}

impl Default for BundleType {
    fn default() -> (kind: BundleType)
        ensures
            kind == BundleType::Command,
    {
        BundleType::Command
    }
}

/// The bundle type that a lowercase name denotes.
pub open spec fn bundle_type_named(lower: Seq<char>) -> Option<BundleType> {
    if lower == "command"@ {
        Some(BundleType::Command)
    } else if lower == "tool"@ {
        Some(BundleType::Tool)
    } else if lower == "tool-html"@ || lower == "toolhtml"@ {
        Some(BundleType::ToolHtml)
    } else if lower == "format"@ {
        Some(BundleType::Format)
    } else if lower == "fetch"@ {
        Some(BundleType::Fetch)
    } else if lower == "selector"@ {
        Some(BundleType::Selector)
    } else if lower == "preset"@ {
        Some(BundleType::Preset)
    } else if lower == "cpp"@ || lower == "c++"@ {
        Some(BundleType::Cpp)
    } else {
        None
    }
}

/// The name under which a bundle type is shown.
pub open spec fn display_text(kind: BundleType) -> Seq<char> {
    match kind {
        BundleType::Command => "command"@,
        BundleType::Tool => "tool (Qt)"@,
        BundleType::ToolHtml => "tool (HTML)"@,
        BundleType::Format => "format"@,
        BundleType::Fetch => "fetch"@,
        BundleType::Selector => "selector"@,
        BundleType::Preset => "preset"@,
        BundleType::Cpp => "C++ extension"@,
    }
}

impl BundleType {
    /// The bundle type that a name in lowercase denotes.
    pub fn from_lowercase(lower: &str) -> (kind: Option<BundleType>)
        ensures
            kind == bundle_type_named(lower@),
    {
        if same_text(lower, "command") {
            Some(BundleType::Command)
        } else if same_text(lower, "tool") {
            Some(BundleType::Tool)
        } else if same_text(lower, "tool-html") || same_text(lower, "toolhtml") {
            Some(BundleType::ToolHtml)
        } else if same_text(lower, "format") {
            Some(BundleType::Format)
        } else if same_text(lower, "fetch") {
            Some(BundleType::Fetch)
        } else if same_text(lower, "selector") {
            Some(BundleType::Selector)
        } else if same_text(lower, "preset") {
            Some(BundleType::Preset)
        } else if same_text(lower, "cpp") || same_text(lower, "c++") {
            Some(BundleType::Cpp)
        } else {
            None
        }
    }

    /// Parses a bundle type, whatever the case of its letters.
    pub fn parse(s: &str) -> (kind: Option<BundleType>)
        ensures
            kind == bundle_type_named(lowercase_text(s@)),
    {
        let lower = s.to_lowercase();
        BundleType::from_lowercase(lower.as_str())
    }

    /// The name under which the bundle type is shown.
    pub fn display_name(&self) -> (name: &'static str)
        ensures
            name@ == display_text(*self),
    {
        match self {
            BundleType::Command => "command",
            BundleType::Tool => "tool (Qt)",
            BundleType::ToolHtml => "tool (HTML)",
            BundleType::Format => "format",
            BundleType::Fetch => "fetch",
            BundleType::Selector => "selector",
            BundleType::Preset => "preset",
            BundleType::Cpp => "C++ extension",
        }
    }
}

/// A word with its first character in uppercase.
pub open spec fn capitalized(word: Seq<char>) -> Seq<char> {
    if word.len() == 0 {
        word
    } else {
        uppercase_char(word[0]) + word.skip(1)
    }
}

/// The pieces that are not empty, each capitalized, in order.
pub open spec fn capitalized_pieces(pieces: Seq<Seq<char>>) -> Seq<Seq<char>>
    decreases pieces.len(),
{
    if pieces.len() == 0 {
        Seq::empty()
    } else if pieces.last().len() == 0 {
        capitalized_pieces(pieces.drop_last())
    } else {
        capitalized_pieces(pieces.drop_last()).push(capitalized(pieces.last()))
    }
}

/// The words of a name, capitalized: the pieces between the separators
/// that are not empty.
pub open spec fn capitalized_words(name: Seq<char>, seps: Seq<char>) -> Seq<Seq<char>> {
    capitalized_pieces(split_by(name, seps))
}

/// The separators of the words of a project name.
pub open spec fn word_separators() -> Seq<char> {
    seq!['-', '_']
}

/// The words of a name written together, each capitalized: `my-tool`
/// gives `MyTool`.
pub open spec fn words_joined(name: Seq<char>) -> Seq<char> {
    concat_all(capitalized_words(name, word_separators()))
}

/// The words of a name separated by spaces, each capitalized: `my-tool`
/// gives `My Tool`.
pub open spec fn words_spaced(name: Seq<char>) -> Seq<char> {
    join_with(capitalized_words(name, word_separators()), seq![' '])
}

/// A name in snake case, in Pascal case: `my_tool` gives `MyTool`.
pub open spec fn pascal_cased(name: Seq<char>) -> Seq<char> {
    concat_all(capitalized_words(name, seq!['_']))
}

/// A word with its first character replaced by the given uppercase form;
/// the empty word stays empty.
pub open spec fn recapitalized(word: Seq<char>, upper: Seq<char>) -> Seq<char> {
    if word.len() == 0 {
        word
    } else {
        upper + word.skip(1)
    }
}

/// A word with its first character replaced by the given uppercase form.
pub fn capitalize_with(word: &Vec<char>, upper: &Vec<char>) -> (out: Vec<char>)
    ensures
        out@ == recapitalized(word@, upper@),
{
    let mut out: Vec<char> = Vec::new();
    if word.len() == 0 {
        assert(out@ =~= word@);
        return out;
    }
    push_all(&mut out, upper);
    let rest = slice_of(word, 1, word.len());
    push_all(&mut out, &rest);
    assert(out@ =~= upper@ + word@.skip(1));
    out
}

/// The words of a name, capitalized.
fn capitalized_parts(name: &Vec<char>, seps: &Vec<char>) -> (words: Vec<Vec<char>>)
    ensures
        rows(words@) == capitalized_words(name@, seps@),
{
    let pieces = split(name, seps);
    let mut words: Vec<Vec<char>> = Vec::new();
    let mut i: usize = 0;
    assert(rows(pieces@).take(0) =~= Seq::<Seq<char>>::empty());
    assert(rows(words@) =~= Seq::<Seq<char>>::empty());
    while i < pieces.len()
        invariant
            i <= pieces.len(),
            rows(words@) == capitalized_pieces(rows(pieces@).take(i as int)),
        decreases pieces.len() - i,
    {
        let ghost upto = rows(pieces@).take(i + 1);
        let ghost done = rows(words@);
        assert(upto.drop_last() =~= rows(pieces@).take(i as int));
        assert(upto.last() == pieces@[i as int]@);
        let piece = &pieces[i];
        if piece.len() > 0 {
            let word = capitalize_with(piece, &uppercase_of(piece[0]));
            assert(word@ =~= capitalized(piece@));
            words.push(word);
            assert(rows(words@) =~= done.push(capitalized(piece@)));
        }
        i += 1;
    }
    assert(rows(pieces@).take(pieces.len() as int) =~= rows(pieces@));
    words
}

/// The texts of `parts` one after another.
fn concat(parts: &Vec<Vec<char>>) -> (out: Vec<char>)
    ensures
        out@ == concat_all(rows(parts@)),
{
    let mut out: Vec<char> = Vec::new();
    let mut i: usize = 0;
    assert(rows(parts@).take(0) =~= Seq::<Seq<char>>::empty());
    while i < parts.len()
        invariant
            i <= parts.len(),
            out@ == concat_all(rows(parts@).take(i as int)),
        decreases parts.len() - i,
    {
        let ghost upto = rows(parts@).take(i + 1);
        assert(upto.drop_last() =~= rows(parts@).take(i as int));
        assert(upto.last() == parts@[i as int]@);
        push_all(&mut out, &parts[i]);
        i += 1;
    }
    assert(rows(parts@).take(parts.len() as int) =~= rows(parts@));
    out
}

/// The separators of the words of a project name.
fn name_separators() -> (seps: Vec<char>)
    ensures
        seps@ == word_separators(),
{
    let mut seps: Vec<char> = Vec::new();
    seps.push('-');
    seps.push('_');
    assert(seps@ =~= word_separators());
    seps
}

/// Capitalizes the words of a name and writes them together.
pub fn capitalize_words(name: &str) -> (out: String)
    ensures
        out@ == words_joined(name@),
{
    let chars = chars_of(name);
    let words = capitalized_parts(&chars, &name_separators());
    string_of(&concat(&words))
}

/// Capitalizes the words of a name and separates them by spaces.
pub fn capitalize_words_with_spaces(name: &str) -> (out: String)
    ensures
        out@ == words_spaced(name@),
{
    let chars = chars_of(name);
    let words = capitalized_parts(&chars, &name_separators());
    let mut space: Vec<char> = Vec::new();
    space.push(' ');
    assert(space@ =~= seq![' ']);
    string_of(&join(&words, &space))
}

/// Converts a name in snake case to Pascal case.
pub fn to_pascal_case(name: &str) -> (out: String)
    ensures
        out@ == pascal_cased(name@),
{
    let chars = chars_of(name);
    let mut seps: Vec<char> = Vec::new();
    seps.push('_');
    assert(seps@ =~= seq!['_']);
    let words = capitalized_parts(&chars, &seps);
    string_of(&concat(&words))
}

/// A bundle template with the names derived from the project name.
#[derive(Clone, Debug)]
pub struct BundleTemplate {
    /// Bundle type.
    pub bundle_type: BundleType,
    /// Bundle name, such as `ChimeraX-MyTool`.
    pub bundle_name: String,
    /// Python package name, such as `chimerax.mytool`.
    pub package_name: String,
    /// Package directory name, such as `mytool`.
    pub package_dir: String,
    /// Command name, such as `my_tool`.
    pub command_name: String,
    /// Display name of a GUI tool, such as `My Tool`.
    pub tool_name: String,
    /// Version string.
    pub version: String,
    /// Description.
    pub description: String,
}

/// The mathematical content of a [`BundleTemplate`].
pub struct TemplateModel {
    pub bundle_type: BundleType,
    pub bundle_name: Seq<char>,
    pub package_name: Seq<char>,
    pub package_dir: Seq<char>,
    pub command_name: Seq<char>,
    pub tool_name: Seq<char>,
    pub version: Seq<char>,
    pub description: Seq<char>,
}

impl View for BundleTemplate {
    type V = TemplateModel;

    open spec fn view(&self) -> TemplateModel {
        TemplateModel {
            bundle_type: self.bundle_type,
            bundle_name: self.bundle_name@,
            package_name: self.package_name@,
            package_dir: self.package_dir@,
            command_name: self.command_name@,
            tool_name: self.tool_name@,
            version: self.version@,
            description: self.description@,
        }
    }
}

/// Whether a character may stand in a project name.
pub open spec fn name_char(c: char) -> bool {
    unicode_alphanumeric(c) || c == '-' || c == '_'
}

/// What is wrong with a project name, if anything: it is empty, it does not
/// start with a letter, or it holds a character that a name may not hold.
pub open spec fn name_error(name: Seq<char>) -> Option<ErrorModel> {
    if name.len() == 0 {
        Some(ErrorModel::InvalidName("name cannot be empty"@))
    } else if !unicode_alphabetic(name[0]) {
        Some(ErrorModel::InvalidName("name '"@ + name + "' must start with a letter"@))
    } else if exists|i: int| 0 <= i < name.len() && !name_char(#[trigger] name[i]) {
        Some(
            ErrorModel::InvalidName(
                "name '"@ + name
                    + "' contains invalid characters (use alphanumeric, hyphens, or underscores)"@,
            ),
        )
    } else {
        None
    }
}

/// The package directory of a project: its name in lowercase, without
/// hyphens, underscores and spaces.
pub open spec fn package_dir_of(lower: Seq<char>) -> Seq<char> {
    replace_each(lower, seq!['-', '_', ' '], Seq::<char>::empty())
}

/// The command name of a project: its name in lowercase, with an underscore
/// for each hyphen and each space.
pub open spec fn command_name_of(lower: Seq<char>) -> Seq<char> {
    replace_each(lower, seq!['-', ' '], seq!['_'])
}

/// The template made of the forms of a project name: in lowercase, with its
/// words capitalized and written together, and with them spaced.
pub open spec fn assembled(
    bundle_type: BundleType,
    lower: Seq<char>,
    joined: Seq<char>,
    spaced: Seq<char>,
) -> TemplateModel {
    TemplateModel {
        bundle_type,
        bundle_name: "ChimeraX-"@ + joined,
        package_name: "chimerax."@ + package_dir_of(lower),
        package_dir: package_dir_of(lower),
        command_name: command_name_of(lower),
        tool_name: spaced,
        version: "0.1.0"@,
        description: "ChimeraX "@ + joined + " bundle"@,
    }
}

/// The template of the project with the given name, or what is wrong with
/// the name. Whitespace around the name does not count.
pub open spec fn derived_template(name: Seq<char>, bundle_type: BundleType) -> Result<
    TemplateModel,
    ErrorModel,
> {
    let name = trimmed(name);
    match name_error(name) {
        Some(e) => Err(e),
        None => Ok(
            assembled(bundle_type, lowercase_text(name), words_joined(name), words_spaced(name)),
        ),
    }
}

/// The name of a placeholder with the text that stands in for it.
pub open spec fn substituted(
    template: Seq<char>,
    placeholder: Seq<char>,
    value: Seq<char>,
) -> Seq<char> {
    replace_all(template, placeholder, value)
}

/// A template text with each placeholder replaced by the name it stands
/// for. The placeholders are replaced one after another, in this order.
pub open spec fn rendered(t: TemplateModel, template: Seq<char>) -> Seq<char> {
    let pascal_case = pascal_cased(t.command_name);
    let pascal_name = words_joined(replace_each(t.command_name, seq!['_'], seq!['-']));
    let s1 = substituted(template, "{{bundle_name}}"@, t.bundle_name);
    let s2 = substituted(s1, "{{package_name}}"@, t.package_name);
    let s3 = substituted(s2, "{{package_dir}}"@, t.package_dir);
    let s4 = substituted(s3, "{{command_name}}"@, t.command_name);
    let s5 = substituted(s4, "{{command_name_pascal}}"@, pascal_case);
    let s6 = substituted(s5, "{{pascal_name}}"@, pascal_name);
    let s7 = substituted(s6, "{{tool_name}}"@, t.tool_name);
    let s8 = substituted(s7, "{{version}}"@, t.version);
    substituted(s8, "{{description}}"@, t.description)
}

/// Replaces a placeholder by the text that stands in for it.
fn substitute(template: &Vec<char>, placeholder: &str, value: &str) -> (out: Vec<char>)
    ensures
        out@ == substituted(template@, placeholder@, value@),
{
    let p = chars_of(placeholder);
    let v = chars_of(value);
    replace(template, &p, &v)
}

/// The role of a file in a new bundle.
#[derive(Clone, Copy, Debug, PartialEq, Eq, Structural)]
pub enum TemplateRole {
    /// The smoke test script.
    SmokeTest,
    /// The readme.
    Readme,
    /// The manifest.
    Manifest,
    /// The package initialisation.
    Init,
    /// The module with the feature of the bundle.
    Feature,
    /// The C++ source of an extension.
    Extension,
}

/// A file of a new bundle: where it goes below the project directory, and
/// which template it is rendered from.
#[derive(Clone, Debug, PartialEq, Eq)]
pub struct PlannedFile {
    pub path: String,
    pub role: TemplateRole,
}

/// The mathematical content of a [`PlannedFile`].
pub struct PlannedModel {
    pub path: Seq<char>,
    pub role: TemplateRole,
}

impl View for PlannedFile {
    type V = PlannedModel;

    open spec fn view(&self) -> PlannedModel {
        PlannedModel { path: self.path@, role: self.role }
    }
}

/// The models of a sequence of planned files, in order.
pub open spec fn planned_models(v: Seq<PlannedFile>) -> Seq<PlannedModel> {
    Seq::new(v.len(), |i: int| v[i]@)
}

/// The directory that holds the templates of a bundle type, below the
/// template directory.
pub open spec fn template_dir(kind: BundleType) -> Seq<char> {
    match kind {
        BundleType::Command => "command"@,
        BundleType::Tool => "tool"@,
        BundleType::ToolHtml => "tool-html"@,
        BundleType::Format => "format"@,
        BundleType::Fetch => "fetch"@,
        BundleType::Selector => "selector"@,
        BundleType::Preset => "preset"@,
        BundleType::Cpp => "cpp"@,
    }
}

/// The file name of the template of the module with the feature of a
/// bundle.
pub open spec fn feature_template(kind: BundleType) -> Seq<char> {
    match kind {
        BundleType::Command => "cmd_py.tmpl"@,
        BundleType::Tool => "tool_py.tmpl"@,
        BundleType::ToolHtml => "tool_py.tmpl"@,
        BundleType::Format => "open_py.tmpl"@,
        BundleType::Fetch => "fetch_py.tmpl"@,
        BundleType::Selector => "selector_py.tmpl"@,
        BundleType::Preset => "preset_py.tmpl"@,
        BundleType::Cpp => "cmd_py.tmpl"@,
    }
}

/// The template that a file of a bundle is rendered from, as a path below
/// the template directory. The smoke test and the readme are the same for
/// all bundle types.
pub open spec fn template_source(kind: BundleType, role: TemplateRole) -> Seq<char> {
    match role {
        TemplateRole::SmokeTest => "common/smoke_cxc.tmpl"@,
        TemplateRole::Readme => "common/readme_md.tmpl"@,
        TemplateRole::Manifest => template_dir(kind) + "/pyproject.toml.tmpl"@,
        TemplateRole::Init => template_dir(kind) + "/init_py.tmpl"@,
        TemplateRole::Feature => template_dir(kind) + "/"@ + feature_template(kind),
        TemplateRole::Extension => template_dir(kind) + "/extension_cpp.tmpl"@,
    }
}

/// The file name of the module with the feature of a bundle.
pub open spec fn feature_file(kind: BundleType) -> Seq<char> {
    match kind {
        BundleType::Command => "cmd.py"@,
        BundleType::Tool => "tool.py"@,
        BundleType::ToolHtml => "tool.py"@,
        BundleType::Format => "open.py"@,
        BundleType::Fetch => "fetch.py"@,
        BundleType::Selector => "selector.py"@,
        BundleType::Preset => "preset.py"@,
        BundleType::Cpp => "cmd.py"@,
    }
}

/// The directory of the Python sources of a bundle, with the separator that
/// ends it. An extension bundle keeps them in its package directory.
pub open spec fn source_dir(kind: BundleType, package_dir: Seq<char>) -> Seq<char> {
    if kind == BundleType::Cpp {
        "src/chimerax/"@ + package_dir + "/"@
    } else {
        "src/"@
    }
}

/// A planned file.
pub open spec fn planned(path: Seq<char>, role: TemplateRole) -> PlannedModel {
    PlannedModel { path, role }
}

/// The files of a new bundle, in the order they are written.
pub open spec fn planned_files(kind: BundleType, package_dir: Seq<char>) -> Seq<PlannedModel> {
    let dir = source_dir(kind, package_dir);
    let common = seq![
        planned("scripts/smoke.cxc"@, TemplateRole::SmokeTest),
        planned("README.md"@, TemplateRole::Readme),
        planned("pyproject.toml"@, TemplateRole::Manifest),
        planned(dir + "__init__.py"@, TemplateRole::Init),
        planned(dir + feature_file(kind), TemplateRole::Feature),
    ];
    if kind == BundleType::Cpp {
        common.push(planned(dir + "_extension.cpp"@, TemplateRole::Extension))
    } else {
        common
    }
}

impl BundleTemplate {
    /// The template made of the forms of a project name.
    pub fn assemble(bundle_type: BundleType, lower: &str, joined: &str, spaced: &str) -> (t:
        BundleTemplate)
        ensures
            t@ == assembled(bundle_type, lower@, joined@, spaced@),
    {
        let lower_chars = chars_of(lower);
        let mut dir_targets: Vec<char> = Vec::new();
        dir_targets.push('-');
        dir_targets.push('_');
        dir_targets.push(' ');
        assert(dir_targets@ =~= seq!['-', '_', ' ']);
        let mut command_targets: Vec<char> = Vec::new();
        command_targets.push('-');
        command_targets.push(' ');
        assert(command_targets@ =~= seq!['-', ' ']);
        let nothing: Vec<char> = Vec::new();
        assert(nothing@ =~= Seq::<char>::empty());
        let mut underscore: Vec<char> = Vec::new();
        underscore.push('_');
        assert(underscore@ =~= seq!['_']);
        let package_dir = string_of(&replace_chars(&lower_chars, &dir_targets, &nothing));
        let command_name = string_of(&replace_chars(&lower_chars, &command_targets, &underscore));
        BundleTemplate {
            bundle_type,
            bundle_name: glue("ChimeraX-", joined),
            package_name: glue("chimerax.", package_dir.as_str()),
            package_dir,
            command_name,
            tool_name: spaced.to_owned(),
            version: "0.1.0".to_owned(),
            description: glue3("ChimeraX ", joined, " bundle"),
        }
    }

    /// Creates the template of a command bundle from a project name.
    pub fn new(name: &str) -> (r: Result<BundleTemplate, EchidnaError>)
        ensures
            match r {
                Ok(t) => derived_template(name@, BundleType::Command) == Ok::<
                    TemplateModel,
                    ErrorModel,
                >(t@),
                Err(e) => derived_template(name@, BundleType::Command) == Err::<
                    TemplateModel,
                    ErrorModel,
                >(e@),
            },
    {
        BundleTemplate::with_type(name, BundleType::default())
    }

    /// Creates the template of a bundle of the given type from a project
    /// name.
    pub fn with_type(name: &str, bundle_type: BundleType) -> (r: Result<
        BundleTemplate,
        EchidnaError,
    >)
        ensures
            match r {
                Ok(t) => derived_template(name@, bundle_type) == Ok::<TemplateModel, ErrorModel>(
                    t@,
                ),
                Err(e) => derived_template(name@, bundle_type) == Err::<TemplateModel, ErrorModel>(
                    e@,
                ),
            },
    {
        let raw = chars_of(name);
        let chars = trim(&raw);
        if chars.len() == 0 {
            return Err(EchidnaError::InvalidName("name cannot be empty".to_owned()));
        }
        let clean = string_of(&chars);
        if !chars[0].is_alphabetic() {
            return Err(
                EchidnaError::InvalidName(
                    glue3("name '", clean.as_str(), "' must start with a letter"),
                ),
            );
        }
        let mut i: usize = 0;
        while i < chars.len()
            invariant
                i <= chars.len(),
                chars@ == trimmed(name@),
                chars@ == clean@,
                chars.len() > 0,
                unicode_alphabetic(chars@[0]),
                forall|j: int| 0 <= j < i ==> name_char(#[trigger] chars@[j]),
            decreases chars.len() - i,
        {
            let c = chars[i];
            if !(c.is_alphanumeric() || c == '-' || c == '_') {
                assert(!name_char(chars@[i as int]));
                return Err(
                    EchidnaError::InvalidName(
                        glue3(
                            "name '",
                            clean.as_str(),
                            "' contains invalid characters (use alphanumeric, hyphens, or underscores)",
                        ),
                    ),
                );
            }
            i += 1;
        }
        let lower = clean.as_str().to_lowercase();
        let joined = capitalize_words(clean.as_str());
        let spaced = capitalize_words_with_spaces(clean.as_str());
        Ok(BundleTemplate::assemble(bundle_type, lower.as_str(), joined.as_str(), spaced.as_str()))
    }

    /// Renders a template text: each placeholder is replaced by the name it
    /// stands for.
    pub fn render_template(&self, template: &str) -> (out: String)
        ensures
            out@ == rendered(self@, template@),
    {
        let pascal_case = to_pascal_case(self.command_name.as_str());
        let command_chars = chars_of(self.command_name.as_str());
        let mut underscore: Vec<char> = Vec::new();
        underscore.push('_');
        assert(underscore@ =~= seq!['_']);
        let mut hyphen: Vec<char> = Vec::new();
        hyphen.push('-');
        assert(hyphen@ =~= seq!['-']);
        let hyphenated = string_of(&replace_chars(&command_chars, &underscore, &hyphen));
        let pascal_name = capitalize_words(hyphenated.as_str());
        let s0 = chars_of(template);
        let s1 = substitute(&s0, "{{bundle_name}}", self.bundle_name.as_str());
        let s2 = substitute(&s1, "{{package_name}}", self.package_name.as_str());
        let s3 = substitute(&s2, "{{package_dir}}", self.package_dir.as_str());
        let s4 = substitute(&s3, "{{command_name}}", self.command_name.as_str());
        let s5 = substitute(&s4, "{{command_name_pascal}}", pascal_case.as_str());
        let s6 = substitute(&s5, "{{pascal_name}}", pascal_name.as_str());
        let s7 = substitute(&s6, "{{tool_name}}", self.tool_name.as_str());
        let s8 = substitute(&s7, "{{version}}", self.version.as_str());
        let s9 = substitute(&s8, "{{description}}", self.description.as_str());
        string_of(&s9)
    }

    /// The template that a file of the bundle is rendered from, as a path
    /// below the template directory.
    pub fn template_file(&self, role: TemplateRole) -> (path: String)
        ensures
            path@ == template_source(self@.bundle_type, role),
    {
        let dir = match self.bundle_type {
            BundleType::Command => "command",
            BundleType::Tool => "tool",
            BundleType::ToolHtml => "tool-html",
            BundleType::Format => "format",
            BundleType::Fetch => "fetch",
            BundleType::Selector => "selector",
            BundleType::Preset => "preset",
            BundleType::Cpp => "cpp",
        };
        match role {
            TemplateRole::SmokeTest => "common/smoke_cxc.tmpl".to_owned(),
            TemplateRole::Readme => "common/readme_md.tmpl".to_owned(),
            TemplateRole::Manifest => glue(dir, "/pyproject.toml.tmpl"),
            TemplateRole::Init => glue(dir, "/init_py.tmpl"),
            TemplateRole::Feature => {
                let file = match self.bundle_type {
                    BundleType::Command => "cmd_py.tmpl",
                    BundleType::Tool => "tool_py.tmpl",
                    BundleType::ToolHtml => "tool_py.tmpl",
                    BundleType::Format => "open_py.tmpl",
                    BundleType::Fetch => "fetch_py.tmpl",
                    BundleType::Selector => "selector_py.tmpl",
                    BundleType::Preset => "preset_py.tmpl",
                    BundleType::Cpp => "cmd_py.tmpl",
                };
                glue3(dir, "/", file)
            },
            TemplateRole::Extension => glue(dir, "/extension_cpp.tmpl"),
        }
    }

    /// The files of the new bundle, in the order they are written, each
    /// with its path below the project directory.
    pub fn plan(&self) -> (files: Vec<PlannedFile>)
        ensures
            planned_models(files@) == planned_files(self@.bundle_type, self@.package_dir),
    {
        let is_cpp = match self.bundle_type {
            BundleType::Cpp => true,
            _ => false,
        };
        let dir = if is_cpp {
            glue3("src/chimerax/", self.package_dir.as_str(), "/")
        } else {
            "src/".to_owned()
        };
        let feature = match self.bundle_type {
            BundleType::Command => "cmd.py",
            BundleType::Tool => "tool.py",
            BundleType::ToolHtml => "tool.py",
            BundleType::Format => "open.py",
            BundleType::Fetch => "fetch.py",
            BundleType::Selector => "selector.py",
            BundleType::Preset => "preset.py",
            BundleType::Cpp => "cmd.py",
        };
        let mut files: Vec<PlannedFile> = Vec::new();
        files.push(
            PlannedFile { path: "scripts/smoke.cxc".to_owned(), role: TemplateRole::SmokeTest },
        );
        files.push(PlannedFile { path: "README.md".to_owned(), role: TemplateRole::Readme });
        files.push(PlannedFile { path: "pyproject.toml".to_owned(), role: TemplateRole::Manifest });
        files.push(PlannedFile { path: glue(dir.as_str(), "__init__.py"), role: TemplateRole::Init });
        files.push(PlannedFile { path: glue(dir.as_str(), feature), role: TemplateRole::Feature });
        if is_cpp {
            files.push(
                PlannedFile {
                    path: glue(dir.as_str(), "_extension.cpp"),
                    role: TemplateRole::Extension,
                },
            );
        }
        assert(planned_models(files@) =~= planned_files(self@.bundle_type, self@.package_dir));
        files
    }
}

} // verus!
