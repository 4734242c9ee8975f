//! The init command: the template of a new bundle project.

use vstd::prelude::*;
use crate::error::{EchidnaError, ErrorModel};
use crate::paths::{file_name, file_name_of, strip_base, relative_to};
use crate::templates::bundle::{
    derived_template, BundleTemplate, BundleType, TemplateModel,
};
use crate::text::{chars_of, glue, rows, split, split_by, string_of, texts};

verus! {

/// Arguments for the init command.
#[derive(Clone, Debug)]
pub struct InitArgs {
    /// Project name; the name of the directory if none is given.
    pub name: Option<String>,
    /// Bundle name that replaces the derived one.
    pub bundle_name: Option<String>,
    /// Python package name that replaces the derived one.
    pub package: Option<String>,
    /// The directory to create the project in.
    pub path: String,
    /// Write into a directory that is not empty.
    pub force: bool,
}

/// The mathematical content of an [`InitArgs`].
pub struct InitModel {
    pub name: Option<Seq<char>>,
    pub bundle_name: Option<Seq<char>>,
    pub package: Option<Seq<char>>,
    pub path: Seq<char>,
    pub force: bool,
}

impl View for InitArgs {
    type V = InitModel;

    open spec fn view(&self) -> InitModel {
        InitModel {
            name: given(self.name),
            bundle_name: given(self.bundle_name),
            package: given(self.package),
            path: self.path@,
            force: self.force,
        }
    }
}

/// The error for a path that names no project.
pub open spec fn no_project_name() -> ErrorModel {
    ErrorModel::InvalidName("Could not determine project name from path"@)
}

/// The name of the project: the given one, else that of the directory.
pub open spec fn project_name(name: Option<Seq<char>>, path: Seq<char>) -> Result<
    Seq<char>,
    ErrorModel,
> {
    match name {
        Some(n) => Ok(n),
        None => match file_name_of(path) {
            Some(n) => Ok(n),
            None => Err(no_project_name()),
        },
    }
}

/// The last segment of a package name: what follows its last dot.
pub open spec fn last_segment(package: Seq<char>) -> Seq<char> {
    split_by(package, seq!['.']).last()
}

/// A template with the names that the arguments set in place of the
/// derived ones. A package name sets the package directory too.
pub open spec fn overridden(
    t: TemplateModel,
    bundle_name: Option<Seq<char>>,
    package: Option<Seq<char>>,
) -> TemplateModel {
    let named = match bundle_name {
        Some(b) => TemplateModel { bundle_name: b, ..t },
        None => t,
    };
    match package {
        Some(p) => TemplateModel { package_name: p, package_dir: last_segment(p), ..named },
        None => named,
    }
}

/// What a text option holds.
pub open spec fn given(s: Option<String>) -> Option<Seq<char>> {
    match s {
        Some(x) => Some(x@),
        None => None,
    }
}

/// The template that the init command renders, or the reason for which it
/// renders none: no project name, an invalid one, or a target directory
/// that holds something and may not be written into.
pub open spec fn init_template(args: InitModel, target_has_content: bool) -> Result<
    TemplateModel,
    ErrorModel,
> {
    match project_name(args.name, args.path) {
        Err(e) => Err(e),
        Ok(name) => match derived_template(name, BundleType::Command) {
            Err(e) => Err(e),
            Ok(t) => if target_has_content && !args.force {
                Err(ErrorModel::DirectoryExists(args.path))
            } else {
                Ok(overridden(t, args.bundle_name, args.package))
            },
        },
    }
}

/// The last segment of a package name.
pub fn package_dir_of_package(package: &str) -> (dir: String)
    ensures
        dir@ == last_segment(package@),
{
    let chars = chars_of(package);
    let mut seps: Vec<char> = Vec::new();
    seps.push('.');
    assert(seps@ =~= seq!['.']);
    let parts = split(&chars, &seps);
    proof {
        crate::text::lemma_split_nonempty(chars@, seps@);
    }
    let last = &parts[parts.len() - 1];
    assert(rows(parts@).last() == last@);
    string_of(last)
}

/// Sets the names that the arguments give in place of the derived ones.
pub fn apply_overrides(
    template: BundleTemplate,
    bundle_name: &Option<String>,
    package: &Option<String>,
) -> (out: BundleTemplate)
    ensures
        out@ == overridden(template@, given(*bundle_name), given(*package)),
{
    let mut out = template;
    match bundle_name {
        Some(b) => {
            out.bundle_name = b.clone();
        },
        None => {},
    }
    match package {
        Some(p) => {
            out.package_name = p.clone();
            out.package_dir = package_dir_of_package(p.as_str());
        },
        None => {},
    }
    out
}

/// The template that the init command renders. `target_has_content` tells
/// whether the target directory exists and holds something.
pub fn plan_init(args: &InitArgs, target_has_content: bool) -> (r: Result<
    BundleTemplate,
    EchidnaError,
>)
    ensures
        match r {
            Ok(t) => init_template(args@, target_has_content) == Ok::<TemplateModel, ErrorModel>(
                t@,
            ),
            Err(e) => init_template(args@, target_has_content) == Err::<TemplateModel, ErrorModel>(
                e@,
            ),
        },
{
    let name = match &args.name {
        Some(n) => n.clone(),
        None => match file_name(args.path.as_str()) {
            Some(n) => n,
            None => {
                return Err(
                    EchidnaError::InvalidName(
                        "Could not determine project name from path".to_owned(),
                    ),
                );
            },
        },
    };
    let template = match BundleTemplate::new(name.as_str()) {
        Ok(t) => t,
        Err(e) => {
            return Err(e);
        },
    };
    if target_has_content && !args.force {
        return Err(EchidnaError::DirectoryExists(args.path.clone()));
    }
    Ok(apply_overrides(template, &args.bundle_name, &args.package))
}

/// How a created file is shown: relative to the target directory where it
/// lies below it, as it is otherwise.
pub open spec fn shown_path(file: Seq<char>, target_dir: Seq<char>) -> Seq<char> {
    match relative_to(file, target_dir) {
        Some(rest) => rest,
        None => file,
    }
}

/// How a created file is shown.
pub fn display_path(file: &str, target_dir: &str) -> (shown: String)
    ensures
        shown@ == shown_path(file@, target_dir@),
{
    match strip_base(file, target_dir) {
        Some(rest) => rest,
        None => file.to_owned(),
    }
}

/// The lines that tell what to do next.
pub open spec fn next_steps(target_dir: Seq<char>) -> Seq<Seq<char>> {
    seq![
        ""@,
        "Next steps:"@,
        "  cd "@ + target_dir,
        "  echidna build      # Build the wheel"@,
        "  echidna install    # Install to ChimeraX"@,
        "  echidna run        # Build, install, and launch ChimeraX"@,
    ]
}

/// The lines that tell what to do next.
pub fn next_step_lines(target_dir: &str) -> (lines: Vec<String>)
    ensures
        texts(lines@) == next_steps(target_dir@),
{
    let mut lines: Vec<String> = Vec::new();
    lines.push("".to_owned());
    lines.push("Next steps:".to_owned());
    lines.push(glue("  cd ", target_dir));
    lines.push("  echidna build      # Build the wheel".to_owned());
    lines.push("  echidna install    # Install to ChimeraX".to_owned());
    lines.push("  echidna run        # Build, install, and launch ChimeraX".to_owned());
    assert(texts(lines@) =~= next_steps(target_dir@));
    lines
}

} // verus!
