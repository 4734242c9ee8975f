//! The python command: the Python environment of ChimeraX.

use vstd::prelude::*;
use crate::chimerax::executor::{PythonInfo, PythonModel, Verbosity};
use crate::text::{chars_of, find, first_match, glue, glue3, slice_of, string_of, texts};

verus! {

/// How the environment is shown.
#[derive(Clone, Copy, Debug, PartialEq, Eq, Structural)]
pub enum OutputFormat {
    Text,
    Json,
}

/// Arguments for the python command.
#[derive(Clone, Debug)]
pub struct PythonArgs {
    pub format: OutputFormat,
    /// Path to the ChimeraX executable.
    pub chimerax: String,
    pub verbosity: Verbosity,
}

/// The first line of a text, without the line break that ends it.
pub open spec fn first_line(s: Seq<char>) -> Seq<char> {
    let line = match first_match(s, seq!['\n']) {
        Some(i) => s.take(i),
        None => s,
    };
    if line.len() > 0 && line.last() == '\r' {
        line.drop_last()
    } else {
        line
    }
}

/// The first line of a text.
pub fn leading_line(s: &str) -> (line: String)
    ensures
        line@ == first_line(s@),
{
    let chars = chars_of(s);
    let mut feed: Vec<char> = Vec::new();
    feed.push('\n');
    assert(feed@ =~= seq!['\n']);
    let end = match find(&chars, &feed) {
        Some(i) => i,
        None => chars.len(),
    };
    assert(chars@.take(chars.len() as int) =~= chars@);
    let to = if end > 0 && chars[end - 1] == '\r' {
        end - 1
    } else {
        end
    };
    let line = slice_of(&chars, 0, to);
    if end > 0 {
        assert(chars@.take(end as int).drop_last() =~= chars@.take(end - 1));
    }
    assert(line@ =~= chars@.take(to as int));
    string_of(&line)
}

/// Each line behind two spaces.
pub open spec fn indented(lines: Seq<Seq<char>>) -> Seq<Seq<char>> {
    Seq::new(lines.len(), |i: int| "  "@ + lines[i])
}

/// The lines that show the environment as text.
pub open spec fn environment_lines(info: PythonModel) -> Seq<Seq<char>> {
    seq![
        ""@,
        "ChimeraX Python Environment"@,
        "============================"@,
        ""@,
        "Executable: "@ + info.executable,
        "Version:    "@ + first_line(info.version),
        "Prefix:     "@ + info.prefix,
    ] + (match info.chimerax_version {
        Some(v) => seq!["ChimeraX:   "@ + v],
        None => Seq::empty(),
    }) + (if info.site_packages.len() > 0 {
        seq![""@, "Site packages:"@] + indented(info.site_packages)
    } else {
        Seq::empty()
    }) + seq![
        ""@,
        "Use this information to configure type checkers (ty, ruff):"@,
        "  pythonPath = \""@ + info.executable + "\""@,
    ]
}

/// The lines that show the environment as text.
pub fn describe_environment(info: &PythonInfo) -> (lines: Vec<String>)
    ensures
        texts(lines@) == environment_lines(info@),
{
    let mut lines: Vec<String> = Vec::new();
    lines.push("".to_owned());
    lines.push("ChimeraX Python Environment".to_owned());
    lines.push("============================".to_owned());
    lines.push("".to_owned());
    lines.push(glue("Executable: ", info.executable.as_str()));
    let version = leading_line(info.version.as_str());
    lines.push(glue("Version:    ", version.as_str()));
    lines.push(glue("Prefix:     ", info.prefix.as_str()));
    match &info.chimerax_version {
        Some(v) => {
            lines.push(glue("ChimeraX:   ", v.as_str()));
        },
        None => {},
    }
    let ghost head = texts(lines@);
    if info.site_packages.len() > 0 {
        lines.push("".to_owned());
        lines.push("Site packages:".to_owned());
        let ghost start = texts(lines@);
        let mut i: usize = 0;
        assert(texts(lines@) =~= start + indented(texts(info.site_packages@)).take(0));
        while i < info.site_packages.len()
            invariant
                i <= info.site_packages.len(),
                texts(lines@) == start + indented(texts(info.site_packages@)).take(i as int),
            decreases info.site_packages.len() - i,
        {
            let ghost before = texts(lines@);
            lines.push(glue("  ", info.site_packages[i].as_str()));
            assert(texts(lines@) =~= before.push("  "@ + info.site_packages@[i as int]@));
            assert(indented(texts(info.site_packages@)).take(i + 1) =~= indented(
                texts(info.site_packages@),
            ).take(i as int).push("  "@ + info.site_packages@[i as int]@));
            assert(texts(lines@) =~= start + indented(texts(info.site_packages@)).take(i + 1));
            i += 1;
        }
        assert(indented(texts(info.site_packages@)).take(info.site_packages.len() as int)
            =~= indented(texts(info.site_packages@)));
        assert(texts(lines@) =~= head + (seq![""@, "Site packages:"@] + indented(
            texts(info.site_packages@),
        )));
    }
    let ghost body = texts(lines@);
    lines.push("".to_owned());
    lines.push("Use this information to configure type checkers (ty, ruff):".to_owned());
    lines.push(glue3("  pythonPath = \"", info.executable.as_str(), "\""));
    assert(texts(lines@) =~= body + seq![
        ""@,
        "Use this information to configure type checkers (ty, ruff):"@,
        "  pythonPath = \""@ + info.executable@ + "\""@,
    ]);
    assert(texts(lines@) =~= environment_lines(info@));
    lines
}

} // verus!
