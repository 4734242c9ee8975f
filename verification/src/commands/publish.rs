//! The publish command: whether a bundle is ready for the Toolshed.

use vstd::prelude::*;
use crate::commands::building::{
    file_models, is_newest_wheel, newest_wheel_index, no_wheel, FileInfo,
};
use crate::commands::validate::{
    bundle_findings, validate_bundle, FindingsModel, SourceLayout, ValidationResult,
};
use crate::document::parsed_document;
use crate::error::{config_error, EchidnaError, ErrorModel};
use crate::text::{chars_of, glue, holds_text, marked, push_marked, texts};

verus! {

/// The page of the ChimeraX Toolshed on which a bundle is submitted.
pub const TOOLSHED_SUBMIT_URL: &'static str = "https://cxtoolshed.rbvi.ucsf.edu/submit/";

/// Arguments for the publish command.
#[derive(Clone, Debug)]
pub struct PublishArgs {
    /// Path to the project directory.
    pub path: String,
    /// Validate without publishing.
    pub dry_run: bool,
}

/// What the checks before a submission found.
#[derive(Clone, Debug)]
pub struct PublishPreparation {
    /// What validation found.
    pub validation: ValidationResult,
    /// The wheel to submit, if one was found.
    pub wheel_path: Option<String>,
    /// Whether a license file exists.
    pub has_license: bool,
    /// Whether a readme exists.
    pub has_readme: bool,
}

/// The mathematical content of a [`PublishPreparation`].
pub struct PreparationModel {
    pub validation: FindingsModel,
    pub wheel_path: Option<Seq<char>>,
    pub has_license: bool,
    pub has_readme: bool,
}

impl View for PublishPreparation {
    type V = PreparationModel;

    open spec fn view(&self) -> PreparationModel {
        PreparationModel {
            validation: self.validation@,
            wheel_path: match self.wheel_path {
                Some(p) => Some(p@),
                None => None,
            },
            has_license: self.has_license,
            has_readme: self.has_readme,
        }
    }
}

/// Whether a bundle can be submitted: it is valid, it has a license, and
/// its wheel was found. A readme is not required.
pub open spec fn ready(prep: PreparationModel) -> bool {
    prep.validation.errors.len() == 0 && prep.has_license && prep.wheel_path.is_some()
}

impl PublishPreparation {
    /// Whether the bundle can be submitted.
    pub fn is_ready(&self) -> (ready_now: bool)
        ensures
            ready_now == ready(self@),
    {
        self.validation.is_valid() && self.has_license && self.wheel_path.is_some()
    }
}

/// The file names under which a license is looked for.
pub open spec fn license_names() -> Seq<Seq<char>> {
    seq!["LICENSE"@, "LICENSE.txt"@, "LICENSE.md"@, "LICENCE"@, "COPYING"@]
}

/// The file names under which a readme is looked for.
pub open spec fn readme_names() -> Seq<Seq<char>> {
    seq!["README.md"@, "README.txt"@, "README.rst"@, "README"@]
}

/// Whether one of the names is among the entries of a directory.
pub open spec fn some_present(entries: Seq<Seq<char>>, names: Seq<Seq<char>>) -> bool {
    exists|k: int| 0 <= k < names.len() && entries.contains(#[trigger] names[k])
}

/// Whether one of the names is among the entries of a directory.
fn any_present(entries: &Vec<String>, names: &Vec<String>) -> (found: bool)
    ensures
        found == some_present(texts(entries@), texts(names@)),
{
    let mut k: usize = 0;
    while k < names.len()
        invariant
            k <= names.len(),
            forall|j: int| 0 <= j < k ==> !texts(entries@).contains(#[trigger] texts(names@)[j]),
        decreases names.len() - k,
    {
        let name = chars_of(names[k].as_str());
        if holds_text(entries, &name) {
            assert(texts(entries@).contains(texts(names@)[k as int]));
            return true;
        }
        k += 1;
    }
    false
}

/// Whether a license file is among the entries of the project directory.
pub fn check_license_file(entries: &Vec<String>) -> (found: bool)
    ensures
        found == some_present(texts(entries@), license_names()),
{
    let mut names: Vec<String> = Vec::new();
    names.push("LICENSE".to_owned());
    names.push("LICENSE.txt".to_owned());
    names.push("LICENSE.md".to_owned());
    names.push("LICENCE".to_owned());
    names.push("COPYING".to_owned());
    assert(texts(names@) =~= license_names());
    any_present(entries, &names)
}

/// Whether a readme is among the entries of the project directory.
pub fn check_readme_file(entries: &Vec<String>) -> (found: bool)
    ensures
        found == some_present(texts(entries@), readme_names()),
{
    let mut names: Vec<String> = Vec::new();
    names.push("README.md".to_owned());
    names.push("README.txt".to_owned());
    names.push("README.rst".to_owned());
    names.push("README".to_owned());
    assert(texts(names@) =~= readme_names());
    any_present(entries, &names)
}

/// The most recent wheel among the entries of `dist/`.
pub fn find_wheel(dist: &Vec<FileInfo>) -> (wheel: Option<String>)
    ensures
        match wheel {
            Some(path) => exists|i: int|
                is_newest_wheel(file_models(dist@), i) && path@ == file_models(dist@)[i].path,
            None => no_wheel(file_models(dist@)),
        },
{
    match newest_wheel_index(dist) {
        Some(i) => {
            assert(is_newest_wheel(file_models(dist@), i as int));
            Some(dist[i].path.clone())
        },
        None => None,
    }
}

/// Runs all checks before a submission: on the text of the manifest
/// (`None` where the bundle has none), the source layout, the names of the
/// entries of the project directory, and the entries of `dist/`.
pub fn prepare_for_publish(
    manifest: Option<&str>,
    layout: &SourceLayout,
    entries: &Vec<String>,
    dist: &Vec<FileInfo>,
) -> (prep: PublishPreparation)
    ensures
        prep@.validation == bundle_findings(
            match manifest {
                None => None,
                Some(content) => Some(parsed_document(content@)),
            },
            layout@,
        ),
        prep@.has_license == some_present(texts(entries@), license_names()),
        prep@.has_readme == some_present(texts(entries@), readme_names()),
        match prep.wheel_path {
            Some(path) => exists|i: int|
                is_newest_wheel(file_models(dist@), i) && path@ == file_models(dist@)[i].path,
            None => no_wheel(file_models(dist@)),
        },
{
    let validation = validate_bundle(manifest, layout);
    let has_license = check_license_file(entries);
    let has_readme = check_readme_file(entries);
    let wheel_path = find_wheel(dist);
    PublishPreparation { validation, wheel_path, has_license, has_readme }
}

/// The lines that report what the checks found: the errors, the warnings,
/// then the license, the readme and the wheel.
pub open spec fn preparation_lines(prep: PreparationModel) -> Seq<Seq<char>> {
    marked("  ✗ "@, prep.validation.errors) + marked("  ⚠ "@, prep.validation.warnings) + seq![
        if prep.has_license {
            "  ✓ LICENSE file found"@
        } else {
            "  ✗ LICENSE file not found (required for Toolshed)"@
        },
        if prep.has_readme {
            "  ✓ README file found"@
        } else {
            "  ⚠ README file not found (recommended)"@
        },
        match prep.wheel_path {
            Some(path) => "  ✓ Wheel found: "@ + path,
            None => "  ✗ No wheel found in dist/. Run 'echidna build' first."@,
        },
    ]
}

/// The lines that report what the checks found.
pub fn preparation_report(prep: &PublishPreparation) -> (lines: Vec<String>)
    ensures
        texts(lines@) == preparation_lines(prep@),
{
    let mut lines: Vec<String> = Vec::new();
    assert(texts(lines@) =~= Seq::<Seq<char>>::empty());
    push_marked(&mut lines, "  ✗ ", &prep.validation.errors);
    push_marked(&mut lines, "  ⚠ ", &prep.validation.warnings);
    let ghost findings = texts(lines@);
    assert(findings =~= marked("  ✗ "@, prep@.validation.errors) + marked(
        "  ⚠ "@,
        prep@.validation.warnings,
    ));
    if prep.has_license {
        lines.push("  ✓ LICENSE file found".to_owned());
    } else {
        lines.push("  ✗ LICENSE file not found (required for Toolshed)".to_owned());
    }
    if prep.has_readme {
        lines.push("  ✓ README file found".to_owned());
    } else {
        lines.push("  ⚠ README file not found (recommended)".to_owned());
    }
    match &prep.wheel_path {
        Some(path) => {
            lines.push(glue("  ✓ Wheel found: ", path.as_str()));
        },
        None => {
            lines.push("  ✗ No wheel found in dist/. Run 'echidna build' first.".to_owned());
        },
    }
    assert(texts(lines@) =~= preparation_lines(prep@));
    lines
}

/// What the publish command does once the checks are reported.
#[derive(Clone, Copy, Debug, PartialEq, Eq, Structural)]
pub enum PublishStep {
    /// Nothing more: the bundle is ready, and this was a dry run.
    ReportReady,
    /// Open the submission page of the Toolshed.
    OpenSubmissionPage,
}

/// The error for a bundle that cannot be submitted.
pub open spec fn not_ready() -> ErrorModel {
    ErrorModel::ConfigError("bundle not ready for submission"@)
}

/// What the publish command does: nothing for a bundle that is not ready.
pub open spec fn publish_step(prep: PreparationModel, dry_run: bool) -> Result<
    PublishStep,
    ErrorModel,
> {
    if !ready(prep) {
        Err(not_ready())
    } else if dry_run {
        Ok(PublishStep::ReportReady)
    } else {
        Ok(PublishStep::OpenSubmissionPage)
    }
}

/// Decides what the publish command does once the checks are reported.
pub fn next_step(prep: &PublishPreparation, dry_run: bool) -> (r: Result<PublishStep, EchidnaError>)
    ensures
        match r {
            Ok(step) => publish_step(prep@, dry_run) == Ok::<PublishStep, ErrorModel>(step),
            Err(e) => publish_step(prep@, dry_run) == Err::<PublishStep, ErrorModel>(e@),
        },
{
    if !prep.is_ready() {
        Err(config_error("bundle not ready for submission"))
    } else if dry_run {
        Ok(PublishStep::ReportReady)
    } else {
        Ok(PublishStep::OpenSubmissionPage)
    }
}

} // verus!
