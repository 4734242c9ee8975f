//! The version command: reading, bumping and setting the bundle version.

use vstd::prelude::*;
use crate::document::{parse_toml, parsed_document, DocModel, TomlValue};
use crate::error::{config_error, text_outcome, EchidnaError, ErrorModel};
use crate::text::{
    chars_of, contains, contains_text, decimal, find, find_from, first_match, first_match_from,
    glue, glue3, has_prefix, parse_u32, parsed_u32, push_all, push_decimal, replace, replace_all,
    rows, same_text, slice_of, split, split_by, starts_with, string_of, trim, trimmed,
};

verus! {

/// Arguments for the version command.
#[derive(Clone, Debug)]
pub struct VersionArgs {
    /// Project directory.
    pub path: String,
    /// What to do with the version.
    pub action: VersionAction,
}

/// What to do with the version.
#[derive(Clone, Debug, PartialEq, Eq)]
pub enum VersionAction {
    /// Show the current version.
    Show,
    /// Raise the patch number.
    BumpPatch,
    /// Raise the minor number and reset the patch number.
    BumpMinor,
    /// Raise the major number and reset the others.
    BumpMajor,
    /// Set the version to the given one.
    SetTo(String),
}

/// The mathematical content of a [`VersionAction`].
pub enum ActionModel {
    Show,
    BumpPatch,
    BumpMinor,
    BumpMajor,
    SetTo(Seq<char>),
}

impl View for VersionAction {
    type V = ActionModel;

    open spec fn view(&self) -> ActionModel {
        match self {
            VersionAction::Show => ActionModel::Show,
            VersionAction::BumpPatch => ActionModel::BumpPatch,
            VersionAction::BumpMinor => ActionModel::BumpMinor,
            VersionAction::BumpMajor => ActionModel::BumpMajor,
            VersionAction::SetTo(version) => ActionModel::SetTo(version@),
        }
    }
}

/// A semantic version.
#[derive(Clone, Copy, Debug, PartialEq, Eq, Structural)]
pub struct SemVer {
    pub major: u32,
    pub minor: u32,
    pub patch: u32,
}

/// The separator of the numbers of a version.
pub open spec fn dot() -> Seq<char> {
    seq!['.']
}

/// The version that a text denotes: three numbers separated by dots.
pub open spec fn parsed_semver(text: Seq<char>) -> Option<SemVer> {
    let parts = split_by(text, dot());
    if parts.len() != 3 {
        None
    } else {
        match (parsed_u32(parts[0]), parsed_u32(parts[1]), parsed_u32(parts[2])) {
            (Some(major), Some(minor), Some(patch)) => Some(SemVer { major, minor, patch }),
            _ => None,
        }
    }
}

/// The text of a version: its three numbers in decimal, separated by dots.
pub open spec fn semver_text(v: SemVer) -> Seq<char> {
    decimal(v.major as nat) + dot() + decimal(v.minor as nat) + dot() + decimal(v.patch as nat)
}

impl SemVer {
    /// The version with the patch number raised by one.
    pub open spec fn patch_bumped(self) -> SemVer {
        SemVer { major: self.major, minor: self.minor, patch: (self.patch + 1) as u32 }
    }

    /// The version with the minor number raised by one and the patch number
    /// reset.
    pub open spec fn minor_bumped(self) -> SemVer {
        SemVer { major: self.major, minor: (self.minor + 1) as u32, patch: 0 }
    }

    /// The version with the major number raised by one and the others reset.
    pub open spec fn major_bumped(self) -> SemVer {
        SemVer { major: (self.major + 1) as u32, minor: 0, patch: 0 }
    }

    /// Parses a version string.
    pub fn parse(version: &str) -> (parsed: Option<SemVer>)
        ensures
            parsed == parsed_semver(version@),
    {
        let chars = chars_of(version);
        let mut seps: Vec<char> = Vec::new();
        seps.push('.');
        assert(seps@ =~= dot());
        let parts = split(&chars, &seps);
        if parts.len() != 3 {
            return None;
        }
        assert(rows(parts@)[0] == parts@[0]@);
        assert(rows(parts@)[1] == parts@[1]@);
        assert(rows(parts@)[2] == parts@[2]@);
        let major = match parse_u32(&parts[0]) {
            Some(n) => n,
            None => {
                return None;
            },
        };
        let minor = match parse_u32(&parts[1]) {
            Some(n) => n,
            None => {
                return None;
            },
        };
        let patch = match parse_u32(&parts[2]) {
            Some(n) => n,
            None => {
                return None;
            },
        };
        Some(SemVer { major, minor, patch })
    }

    /// Bumps the patch number.
    pub fn bump_patch(&self) -> (bumped: SemVer)
        requires
            self.patch < u32::MAX,
        ensures
            bumped == self.patch_bumped(),
            bumped.patch == self.patch + 1,
    {
        SemVer { major: self.major, minor: self.minor, patch: self.patch + 1 }
    }

    /// Bumps the minor number.
    pub fn bump_minor(&self) -> (bumped: SemVer)
        requires
            self.minor < u32::MAX,
        ensures
            bumped == self.minor_bumped(),
            bumped.minor == self.minor + 1,
    {
        SemVer { major: self.major, minor: self.minor + 1, patch: 0 }
    }

    /// Bumps the major number.
    pub fn bump_major(&self) -> (bumped: SemVer)
        requires
            self.major < u32::MAX,
        ensures
            bumped == self.major_bumped(),
            bumped.major == self.major + 1,
    {
        SemVer { major: self.major + 1, minor: 0, patch: 0 }
    }

    /// The text of the version.
    pub fn to_string(&self) -> (text: String)
        ensures
            text@ == semver_text(*self),
    {
        let mut chars: Vec<char> = Vec::new();
        push_decimal(&mut chars, self.major as u64);
        chars.push('.');
        push_decimal(&mut chars, self.minor as u64);
        chars.push('.');
        push_decimal(&mut chars, self.patch as u64);
        assert(chars@ =~= semver_text(*self));
        string_of(&chars)
    }
}

/// The error for a current version that is no semantic version.
pub open spec fn unparsable_version(version: Seq<char>) -> ErrorModel {
    ErrorModel::ConfigError(
        "Cannot parse version '"@ + version + "' as semantic version (X.Y.Z)"@,
    )
}

/// The error for a version whose number cannot be raised any further.
pub open spec fn unbumpable_version(version: Seq<char>) -> ErrorModel {
    ErrorModel::ConfigError("Cannot bump version '"@ + version + "': number out of range"@)
}

/// The error for a new version that is no semantic version.
pub open spec fn invalid_version_format(version: Seq<char>) -> ErrorModel {
    ErrorModel::ConfigError("Invalid version format '"@ + version + "'. Expected X.Y.Z"@)
}

/// The text of the bumped version, or the error for numbers out of range.
pub open spec fn bumped_text(current: Seq<char>, in_range: bool, bumped: SemVer) -> Result<
    Seq<char>,
    ErrorModel,
> {
    if in_range {
        Ok(semver_text(bumped))
    } else {
        Err(unbumpable_version(current))
    }
}

/// The version that an action turns the current version into.
pub open spec fn new_version(action: ActionModel, current: Seq<char>) -> Result<
    Seq<char>,
    ErrorModel,
> {
    match action {
        ActionModel::SetTo(version) => if parsed_semver(version).is_none() {
            Err(invalid_version_format(version))
        } else {
            Ok(version)
        },
        _ => match parsed_semver(current) {
            None => Err(unparsable_version(current)),
            Some(v) => match action {
                ActionModel::BumpPatch => bumped_text(
                    current,
                    v.patch < u32::MAX,
                    v.patch_bumped(),
                ),
                ActionModel::BumpMinor => bumped_text(
                    current,
                    v.minor < u32::MAX,
                    v.minor_bumped(),
                ),
                _ => bumped_text(current, v.major < u32::MAX, v.major_bumped()),
            },
        },
    }
}

/// Parses a version string, with an error that names it.
pub fn parse_semver(version: &str) -> (r: Result<SemVer, EchidnaError>)
    ensures
        match r {
            Ok(v) => parsed_semver(version@) == Some(v),
            Err(e) => parsed_semver(version@).is_none() && e@ == unparsable_version(version@),
        },
{
    match SemVer::parse(version) {
        Some(v) => Ok(v),
        None => {
            let message = glue3(
                "Cannot parse version '",
                version,
                "' as semantic version (X.Y.Z)",
            );
            Err(config_error(message.as_str()))
        },
    }
}

/// The error for a version whose number cannot be raised any further.
fn out_of_range(version: &str) -> (e: EchidnaError)
    ensures
        e@ == unbumpable_version(version@),
{
    let message = glue3("Cannot bump version '", version, "': number out of range");
    config_error(message.as_str())
}

/// Computes the version that an action other than `Show` leads to.
pub fn compute_new_version(action: &VersionAction, current_version: &str) -> (r: Result<
    String,
    EchidnaError,
>)
    requires
        !(action is Show),
    ensures
        text_outcome(r) == new_version(action@, current_version@),
{
    match action {
        VersionAction::SetTo(version) => {
            if SemVer::parse(version.as_str()).is_none() {
                let message = glue3(
                    "Invalid version format '",
                    version.as_str(),
                    "'. Expected X.Y.Z",
                );
                return Err(config_error(message.as_str()));
            }
            Ok(version.clone())
        },
        VersionAction::BumpPatch => {
            let semver = match parse_semver(current_version) {
                Ok(v) => v,
                Err(e) => {
                    return Err(e);
                },
            };
            if semver.patch == u32::MAX {
                return Err(out_of_range(current_version));
            }
            Ok(semver.bump_patch().to_string())
        },
        VersionAction::BumpMinor => {
            let semver = match parse_semver(current_version) {
                Ok(v) => v,
                Err(e) => {
                    return Err(e);
                },
            };
            if semver.minor == u32::MAX {
                return Err(out_of_range(current_version));
            }
            Ok(semver.bump_minor().to_string())
        },
        _ => {
            let semver = match parse_semver(current_version) {
                Ok(v) => v,
                Err(e) => {
                    return Err(e);
                },
            };
            if semver.major == u32::MAX {
                return Err(out_of_range(current_version));
            }
            Ok(semver.bump_major().to_string())
        },
    }
}

/// The text under `key` of the table under `section`.
pub open spec fn text_in(doc: DocModel, section: Seq<char>, key: Seq<char>) -> Option<Seq<char>> {
    match doc.entry(section) {
        None => None,
        Some(table) => match table.entry(key) {
            None => None,
            Some(value) => value.text(),
        },
    }
}

/// The version that the `[tool.poetry]` section declares.
pub open spec fn poetry_version(doc: DocModel) -> Option<Seq<char>> {
    match doc.entry("tool"@) {
        None => None,
        Some(tool) => text_in(tool, "poetry"@, "version"@),
    }
}

/// The version of a manifest: that of its `[project]` section, else that of
/// its `[tool.poetry]` section.
pub open spec fn declared_version(doc: DocModel) -> Option<Seq<char>> {
    match text_in(doc, "project"@, "version"@) {
        Some(version) => Some(version),
        None => poetry_version(doc),
    }
}

/// The text under `key` of the table under `section`.
pub fn text_under<'a>(doc: &'a TomlValue, section: &str, key: &str) -> (text: Option<&'a str>)
    ensures
        match text {
            Some(s) => text_in(doc@, section@, key@) == Some(s@),
            None => text_in(doc@, section@, key@).is_none(),
        },
{
    match doc.get(section) {
        None => None,
        Some(table) => match table.get(key) {
            None => None,
            Some(value) => value.as_str(),
        },
    }
}

/// Extracts the version from a parsed manifest.
pub fn extract_version(toml: &TomlValue) -> (version: Option<String>)
    ensures
        match version {
            Some(v) => declared_version(toml@) == Some(v@),
            None => declared_version(toml@).is_none(),
        },
{
    match text_under(toml, "project", "version") {
        Some(version) => {
            return Some(version.to_owned());
        },
        None => {},
    }
    match toml.get("tool") {
        None => None,
        Some(tool) => match text_under(tool, "poetry", "version") {
            Some(version) => Some(version.to_owned()),
            None => None,
        },
    }
}

/// The line feed.
pub open spec fn line_feed() -> Seq<char> {
    seq!['\n']
}

/// The index at which the line that starts at `from` ends: that of the next
/// line feed, or the end of the text.
pub open spec fn line_end(content: Seq<char>, from: int) -> int {
    match first_match_from(content, line_feed(), from) {
        Some(i) => i,
        None => content.len() as int,
    }
}

/// Whether the line that starts at `from` sets a version that holds `old`:
/// without the whitespace around it, it begins with `version` and holds `old`.
pub open spec fn is_version_line(content: Seq<char>, old_version: Seq<char>, from: int) -> bool {
    let line = trimmed(content.subrange(from, line_end(content, from)));
    starts_with(line, "version"@) && contains_text(line, old_version)
}

/// The start of the first line that sets the version among the lines that
/// start after a line feed at an index from `from` up to `end`.
pub open spec fn first_version_line(
    content: Seq<char>,
    old_version: Seq<char>,
    from: int,
    end: int,
) -> Option<int>
    decreases end - from,
{
    if from >= end || from < 0 || end > content.len() {
        None
    } else if content[from] == '\n' && is_version_line(content, old_version, from + 1) {
        Some(from + 1)
    } else {
        first_version_line(content, old_version, from + 1, end)
    }
}

/// Where the section that starts at `start` ends: before the next line that
/// opens with a bracket, or at the end of the text.
pub open spec fn section_end(content: Seq<char>, after_header: int) -> int {
    match first_match_from(content, "\n["@, after_header) {
        Some(i) => i,
        None => content.len() as int,
    }
}

/// The start of the line of a section that sets the version: the first such
/// line below the line of the header, else the line of the header itself.
pub open spec fn version_line(
    content: Seq<char>,
    header: Seq<char>,
    old_version: Seq<char>,
) -> Option<int> {
    match first_match(content, header) {
        None => None,
        Some(start) => {
            let end = section_end(content, start + header.len());
            match first_version_line(content, old_version, start, end) {
                Some(line) => Some(line),
                None => if is_version_line(content, old_version, start) {
                    Some(start)
                } else {
                    None
                },
            }
        },
    }
}

/// The text with the old version replaced by the new one in the line of the
/// section that sets the version; `None` if there is no such section or line.
pub open spec fn version_replaced(
    content: Seq<char>,
    header: Seq<char>,
    old_version: Seq<char>,
    new_version: Seq<char>,
) -> Option<Seq<char>> {
    match version_line(content, header, old_version) {
        None => None,
        Some(from) => {
            let to = line_end(content, from);
            Some(
                content.take(from) + replace_all(
                    content.subrange(from, to),
                    old_version,
                    new_version,
                ) + content.skip(to),
            )
        },
    }
}

/// The index at which the line that starts at `from` ends.
fn end_of_line(content: &Vec<char>, from: usize) -> (to: usize)
    requires
        from <= content.len(),
    ensures
        to == line_end(content@, from as int),
        from <= to <= content.len(),
{
    let mut feed: Vec<char> = Vec::new();
    feed.push('\n');
    assert(feed@ =~= line_feed());
    match find_from(content, &feed, from) {
        Some(i) => i,
        None => content.len(),
    }
}

/// Whether the line that starts at `from` sets a version that holds `old`.
fn sets_version(content: &Vec<char>, old_version: &Vec<char>, from: usize) -> (b: bool)
    requires
        from <= content.len(),
    ensures
        b == is_version_line(content@, old_version@, from as int),
{
    let to = end_of_line(content, from);
    let line = slice_of(content, from, to);
    let line = trim(&line);
    let key = chars_of("version");
    has_prefix(&line, &key) && contains(&line, old_version)
}

/// Replaces the version in one section of a manifest.
pub fn replace_version_in_section(
    content: &str,
    section_header: &str,
    old_version: &str,
    new_version: &str,
) -> (replaced: Option<String>)
    ensures
        match replaced {
            Some(text) => version_replaced(content@, section_header@, old_version@, new_version@)
                == Some(text@),
            None => version_replaced(
                content@,
                section_header@,
                old_version@,
                new_version@,
            ).is_none(),
        },
{
    let text = chars_of(content);
    let header = chars_of(section_header);
    let old_chars = chars_of(old_version);
    let new_chars = chars_of(new_version);
    let start = match find(&text, &header) {
        Some(i) => i,
        None => {
            return None;
        },
    };
    let opener = chars_of("\n[");
    let end = match find_from(&text, &opener, start + header.len()) {
        Some(i) => i,
        None => text.len(),
    };
    assert(end == section_end(text@, start + header@.len()));
    let mut line: Option<usize> = None;
    let mut i: usize = start;
    while i < end
        invariant_except_break
            line.is_none(),
            first_version_line(text@, old_chars@, start as int, end as int) == first_version_line(
                text@,
                old_chars@,
                i as int,
                end as int,
            ),
        invariant
            start <= i <= end <= text.len(),
        ensures
            match line {
                Some(l) => first_version_line(text@, old_chars@, start as int, end as int) == Some(
                    l as int,
                ) && l <= text.len(),
                None => first_version_line(text@, old_chars@, start as int, end as int).is_none(),
            },
        decreases end - i,
    {
        if text[i] == '\n' && sets_version(&text, &old_chars, i + 1) {
            line = Some(i + 1);
            break ;
        }
        i += 1;
    }
    let from = match line {
        Some(l) => l,
        None => {
            if sets_version(&text, &old_chars, start) {
                start
            } else {
                return None;
            }
        },
    };
    assert(version_line(text@, header@, old_chars@) == Some(from as int));
    let to = end_of_line(&text, from);
    let old_line = slice_of(&text, from, to);
    let new_line = replace(&old_line, &old_chars, &new_chars);
    let mut result = slice_of(&text, 0, from);
    push_all(&mut result, &new_line);
    let tail = slice_of(&text, to, text.len());
    push_all(&mut result, &tail);
    proof {
        assert(text@.subrange(0, from as int) =~= text@.take(from as int));
        assert(text@.subrange(to as int, text@.len() as int) =~= text@.skip(to as int));
    }
    Some(string_of(&result))
}

/// The error for a manifest without a version to update.
pub open spec fn no_version_field() -> ErrorModel {
    ErrorModel::ConfigError("Cannot find version field to update in pyproject.toml"@)
}

/// The manifest with the version replaced: in its `[project]` section, else
/// in its `[tool.poetry]` section.
pub open spec fn manifest_with_version(
    content: Seq<char>,
    old_version: Seq<char>,
    new_version: Seq<char>,
) -> Result<Seq<char>, ErrorModel> {
    match version_replaced(content, "[project]"@, old_version, new_version) {
        Some(text) => Ok(text),
        None => match version_replaced(content, "[tool.poetry]"@, old_version, new_version) {
            Some(text) => Ok(text),
            None => Err(no_version_field()),
        },
    }
}

/// The text of a manifest with the old version replaced by the new one.
pub fn updated_manifest(content: &str, old_version: &str, new_version: &str) -> (r: Result<
    String,
    EchidnaError,
>)
    ensures
        text_outcome(r) == manifest_with_version(content@, old_version@, new_version@),
{
    match replace_version_in_section(content, "[project]", old_version, new_version) {
        Some(text) => Ok(text),
        None => match replace_version_in_section(
            content,
            "[tool.poetry]",
            old_version,
            new_version,
        ) {
            Some(text) => Ok(text),
            None => Err(config_error("Cannot find version field to update in pyproject.toml")),
        },
    }
}

/// The error for a version action that is neither a keyword nor a version.
pub open spec fn invalid_action(action: Seq<char>) -> ErrorModel {
    ErrorModel::ConfigError(
        "Invalid version action '"@ + action + "'. Use: show, patch, minor, major, or X.Y.Z"@,
    )
}

/// The action that a command-line word denotes.
pub open spec fn action_of(word: Seq<char>) -> Result<ActionModel, ErrorModel> {
    if word == "show"@ {
        Ok(ActionModel::Show)
    } else if word == "patch"@ {
        Ok(ActionModel::BumpPatch)
    } else if word == "minor"@ {
        Ok(ActionModel::BumpMinor)
    } else if word == "major"@ {
        Ok(ActionModel::BumpMajor)
    } else if parsed_semver(word).is_some() {
        Ok(ActionModel::SetTo(word))
    } else {
        Err(invalid_action(word))
    }
}

/// Parses the action word of the version command.
pub fn parse_version_action(action: &str) -> (r: Result<VersionAction, EchidnaError>)
    ensures
        match r {
            Ok(a) => action_of(action@) == Ok::<ActionModel, ErrorModel>(a@),
            Err(e) => action_of(action@) == Err::<ActionModel, ErrorModel>(e@),
        },
{
    if same_text(action, "show") {
        Ok(VersionAction::Show)
    } else if same_text(action, "patch") {
        Ok(VersionAction::BumpPatch)
    } else if same_text(action, "minor") {
        Ok(VersionAction::BumpMinor)
    } else if same_text(action, "major") {
        Ok(VersionAction::BumpMajor)
    } else if SemVer::parse(action).is_some() {
        Ok(VersionAction::SetTo(action.to_owned()))
    } else {
        let message = glue3(
            "Invalid version action '",
            action,
            "'. Use: show, patch, minor, major, or X.Y.Z",
        );
        Err(config_error(message.as_str()))
    }
}

/// What the version command does to a manifest.
#[derive(Clone, Debug, PartialEq, Eq)]
pub enum VersionChange {
    /// Nothing is written; the current version is shown.
    Shown { current: String },
    /// The manifest is rewritten.
    Updated { current: String, new_version: String, content: String },
}

/// The mathematical content of a [`VersionChange`].
pub enum ChangeModel {
    Shown { current: Seq<char> },
    Updated { current: Seq<char>, new_version: Seq<char>, content: Seq<char> },
}

impl View for VersionChange {
    type V = ChangeModel;

    open spec fn view(&self) -> ChangeModel {
        match self {
            VersionChange::Shown { current } => ChangeModel::Shown { current: current@ },
            VersionChange::Updated { current, new_version, content } => ChangeModel::Updated {
                current: current@,
                new_version: new_version@,
                content: content@,
            },
        }
    }
}

/// What an action does to a manifest whose parsed form is `doc`.
pub open spec fn change_of(content: Seq<char>, doc: DocModel, action: ActionModel) -> Result<
    ChangeModel,
    ErrorModel,
> {
    match declared_version(doc) {
        None => Err(ErrorModel::ConfigError("Cannot find version in pyproject.toml"@)),
        Some(current) => match action {
            ActionModel::Show => Ok(ChangeModel::Shown { current }),
            _ => match new_version(action, current) {
                Err(e) => Err(e),
                Ok(next) => match manifest_with_version(content, current, next) {
                    Err(e) => Err(e),
                    Ok(text) => Ok(
                        ChangeModel::Updated { current, new_version: next, content: text },
                    ),
                },
            },
        },
    }
}

/// What an action does to a manifest, given what parsing it returned.
pub open spec fn planned_change(
    content: Seq<char>,
    parsed: Result<DocModel, Seq<char>>,
    action: ActionModel,
) -> Result<ChangeModel, ErrorModel> {
    match parsed {
        Err(message) => Err(
            ErrorModel::ConfigError("Invalid TOML in pyproject.toml: "@ + message),
        ),
        Ok(doc) => change_of(content, doc, action),
    }
}

/// What an action does to a manifest whose parsed form is `doc`.
pub fn change_version(content: &str, doc: &TomlValue, action: &VersionAction) -> (r: Result<
    VersionChange,
    EchidnaError,
>)
    ensures
        match r {
            Ok(change) => change_of(content@, doc@, action@) == Ok::<ChangeModel, ErrorModel>(
                change@,
            ),
            Err(e) => change_of(content@, doc@, action@) == Err::<ChangeModel, ErrorModel>(e@),
        },
{
    let current = match extract_version(doc) {
        Some(v) => v,
        None => {
            return Err(config_error("Cannot find version in pyproject.toml"));
        },
    };
    match action {
        VersionAction::Show => Ok(VersionChange::Shown { current }),
        _ => {
            let next = match compute_new_version(action, current.as_str()) {
                Ok(v) => v,
                Err(e) => {
                    return Err(e);
                },
            };
            let text = match updated_manifest(content, current.as_str(), next.as_str()) {
                Ok(t) => t,
                Err(e) => {
                    return Err(e);
                },
            };
            Ok(VersionChange::Updated { current, new_version: next, content: text })
        },
    }
}

/// What the version command does to the manifest with the given text.
pub fn plan_version_change(content: &str, action: &VersionAction) -> (r: Result<
    VersionChange,
    EchidnaError,
>)
    ensures
        match r {
            Ok(change) => planned_change(content@, parsed_document(content@), action@) == Ok::<
                ChangeModel,
                ErrorModel,
            >(change@),
            Err(e) => planned_change(content@, parsed_document(content@), action@) == Err::<
                ChangeModel,
                ErrorModel,
            >(e@),
        },
{
    match parse_toml(content) {
        Err(message) => {
            let text = glue("Invalid TOML in pyproject.toml: ", message.as_str());
            Err(config_error(text.as_str()))
        },
        Ok(doc) => change_version(content, &doc, action),
    }
}

} // verus!
