//! Commands for ChimeraX: their text, their arguments, and what their
//! outcome means.
//!
//! Nothing is executed here. The caller starts the process with the
//! arguments computed here and hands back what the process reported.

use vstd::prelude::*;
use crate::error::{unit_outcome, text_outcome, EchidnaError, ErrorModel};
use crate::text::{
    chars_of, find, first_match, glue, glue3, has_char, push_all, push_signed_decimal, push_str,
    replace, replace_all, signed_decimal, slice_of, string_of, texts, trim, trimmed,
};

verus! {

/// How much is reported: 0 errors only, 1 the commands, 2 their output too.
pub type Verbosity = u8;

/// The characters that end or escape a quoted argument of a ChimeraX
/// command.
pub open spec fn quoting_chars() -> Seq<char> {
    seq!['"', '\'', ';', '\n', '\r', '`', '$']
}

/// The characters that a path may not hold where it stands in a ChimeraX
/// command. The backslash is one of them except on Windows, where it
/// separates the components of a path.
pub open spec fn dangerous_chars(windows: bool) -> Seq<char> {
    if windows {
        quoting_chars()
    } else {
        quoting_chars().push('\\')
    }
}

/// The first of the candidates that the text holds.
pub open spec fn first_contained(s: Seq<char>, candidates: Seq<char>) -> Option<char>
    decreases candidates.len(),
{
    if candidates.len() == 0 {
        None
    } else if s.contains(candidates[0]) {
        Some(candidates[0])
    } else {
        first_contained(s, candidates.drop_first())
    }
}

/// The error for a path with a character that it may not hold.
pub open spec fn invalid_path_char(path: Seq<char>, c: char) -> ErrorModel {
    ErrorModel::InvalidName("path contains invalid character '"@ + seq![c] + "': "@ + path)
}

/// Whether a path may stand in a ChimeraX command, and if not, why.
pub open spec fn path_check(path: Seq<char>, windows: bool) -> Result<(), ErrorModel> {
    match first_contained(path, dangerous_chars(windows)) {
        Some(c) => Err(invalid_path_char(path, c)),
        None => Ok(()),
    }
}

/// The characters that a path may not hold.
pub fn dangerous(windows: bool) -> (chars: Vec<char>)
    ensures
        chars@ == dangerous_chars(windows),
{
    let mut chars: Vec<char> = Vec::new();
    chars.push('"');
    chars.push('\'');
    chars.push(';');
    chars.push('\n');
    chars.push('\r');
    chars.push('`');
    chars.push('$');
    assert(chars@ =~= quoting_chars());
    if !windows {
        chars.push('\\');
    }
    chars
}

/// The first of the candidates that the text holds.
pub fn find_contained(s: &Vec<char>, candidates: &Vec<char>) -> (found: Option<char>)
    ensures
        found == first_contained(s@, candidates@),
{
    let mut i: usize = 0;
    assert(candidates@.skip(0) =~= candidates@);
    while i < candidates.len()
        invariant
            i <= candidates.len(),
            first_contained(s@, candidates@) == first_contained(s@, candidates@.skip(i as int)),
        decreases candidates.len() - i,
    {
        assert(candidates@.skip(i as int)[0] == candidates@[i as int]);
        if has_char(s, candidates[i]) {
            return Some(candidates[i]);
        }
        assert(candidates@.skip(i as int).drop_first() =~= candidates@.skip(i + 1));
        i += 1;
    }
    None
}

/// Checks that a path may stand in a ChimeraX command on the given
/// platform.
pub fn validate_path_on(path: &str, windows: bool) -> (r: Result<(), EchidnaError>)
    ensures
        unit_outcome(r) == path_check(path@, windows),
{
    let chars = chars_of(path);
    match find_contained(&chars, &dangerous(windows)) {
        None => Ok(()),
        Some(c) => {
            let mut message: Vec<char> = Vec::new();
            push_str(&mut message, "path contains invalid character '");
            message.push(c);
            push_str(&mut message, "': ");
            push_all(&mut message, &chars);
            assert(message@ =~= "path contains invalid character '"@ + seq![c] + "': "@ + path@);
            Err(EchidnaError::InvalidName(string_of(&message)))
        },
    }
}

/// Checks that a path may stand in a ChimeraX command: it holds no quote,
/// semicolon, line break, backtick, dollar sign or backslash.
pub fn validate_path_for_command(path: &str) -> (r: Result<(), EchidnaError>)
    ensures
        unit_outcome(r) == path_check(path@, false),
{
    validate_path_on(path, false)
}

/// Python environment information from ChimeraX.
#[derive(Clone, Debug, PartialEq, Eq)]
pub struct PythonInfo {
    pub executable: String,
    pub version: String,
    pub prefix: String,
    pub path: Vec<String>,
    pub chimerax_version: Option<String>,
    pub site_packages: Vec<String>,
}

/// The mathematical content of a [`PythonInfo`].
pub struct PythonModel {
    pub executable: Seq<char>,
    pub version: Seq<char>,
    pub prefix: Seq<char>,
    pub path: Seq<Seq<char>>,
    pub chimerax_version: Option<Seq<char>>,
    pub site_packages: Seq<Seq<char>>,
}

impl View for PythonInfo {
    type V = PythonModel;

    open spec fn view(&self) -> PythonModel {
        PythonModel {
            executable: self.executable@,
            version: self.version@,
            prefix: self.prefix@,
            path: texts(self.path@),
            chimerax_version: match self.chimerax_version {
                Some(v) => Some(v@),
                None => None,
            },
            site_packages: texts(self.site_packages@),
        }
    }
}

/// The arguments that make ChimeraX run one command without its window.
pub open spec fn command_args(cmd: Seq<char>) -> Seq<Seq<char>> {
    seq!["--nogui"@, "--exit"@, "--cmd"@, cmd]
}

/// The arguments that make ChimeraX run one script without its window.
pub open spec fn script_args(script: Seq<char>) -> Seq<Seq<char>> {
    seq!["--nogui"@, "--exit"@, "--script"@, script]
}

/// The arguments that make ChimeraX open its window, with a script if one
/// is given.
pub open spec fn launch_args(script: Option<Seq<char>>) -> Seq<Seq<char>> {
    match script {
        Some(s) => seq!["--script"@, s],
        None => Seq::empty(),
    }
}

/// How the run of a command is described in the log.
pub open spec fn command_description(cmd: Seq<char>) -> Seq<char> {
    "ChimeraX --nogui --exit --cmd '"@ + cmd + "'"@
}

/// How the run of a script is described in the log.
pub open spec fn script_description(script: Seq<char>) -> Seq<char> {
    "ChimeraX --nogui --exit --script '"@ + script + "'"@
}

/// How a launch is described in the log.
pub open spec fn launch_description(script: Option<Seq<char>>) -> Seq<char> {
    match script {
        Some(s) => "ChimeraX"@ + " --script '"@ + s + "'"@,
        None => "ChimeraX"@,
    }
}

/// The text of an exit code that may be missing.
pub open spec fn exit_code_text(code: Option<int>) -> Seq<char> {
    match code {
        Some(c) => "Some("@ + signed_decimal(c) + ")"@,
        None => "None"@,
    }
}

/// The error for a command that ChimeraX failed.
pub open spec fn command_failure(code: Option<int>, stdout: Seq<char>, stderr: Seq<char>) -> ErrorModel {
    ErrorModel::ChimeraXCommandFailed(
        "exit code: "@ + exit_code_text(code) + "\nstdout: "@ + stdout + "\nstderr: "@ + stderr,
    )
}

/// What the outcome of a process means: a failure unless it succeeded.
pub open spec fn output_check(
    success: bool,
    code: Option<int>,
    stdout: Seq<char>,
    stderr: Seq<char>,
) -> Result<(), ErrorModel> {
    if success {
        Ok(())
    } else {
        Err(command_failure(code, stdout, stderr))
    }
}

/// The exit code as a mathematical integer.
pub open spec fn code_model(code: Option<i32>) -> Option<int> {
    match code {
        Some(c) => Some(c as int),
        None => None,
    }
}

/// What the outcome of a process means.
pub fn check_output(success: bool, code: Option<i32>, stdout: &str, stderr: &str) -> (r: Result<
    (),
    EchidnaError,
>)
    ensures
        unit_outcome(r) == output_check(success, code_model(code), stdout@, stderr@),
{
    if success {
        return Ok(());
    }
    let mut message: Vec<char> = Vec::new();
    push_str(&mut message, "exit code: ");
    match code {
        Some(c) => {
            push_str(&mut message, "Some(");
            push_signed_decimal(&mut message, c as i64);
            push_str(&mut message, ")");
            assert(message@ =~= "exit code: "@ + exit_code_text(code_model(code)));
        },
        None => {
            push_str(&mut message, "None");
        },
    }
    push_str(&mut message, "\nstdout: ");
    push_str(&mut message, stdout);
    push_str(&mut message, "\nstderr: ");
    push_str(&mut message, stderr);
    assert(message@ =~= "exit code: "@ + exit_code_text(code_model(code)) + "\nstdout: "@ + stdout@
        + "\nstderr: "@ + stderr@);
    Err(EchidnaError::ChimeraXCommandFailed(string_of(&message)))
}

/// The flag of a development install.
pub open spec fn devel_user_flag(user: bool) -> Seq<char> {
    if user {
        "user true"@
    } else {
        "user false"@
    }
}

/// The flag of a toolshed install.
pub open spec fn toolshed_user_flag(user: bool) -> Seq<char> {
    if user {
        " user true"@
    } else {
        ""@
    }
}

/// The command that builds the bundle at `path`, if the path may stand in
/// a command.
pub open spec fn devel_build_text(path: Seq<char>, windows: bool) -> Result<Seq<char>, ErrorModel> {
    match path_check(path, windows) {
        Err(e) => Err(e),
        Ok(_) => Ok("devel build \""@ + path + "\" exit true"@),
    }
}

/// The command that installs the bundle at `path` from its sources.
pub open spec fn devel_install_text(path: Seq<char>, user: bool, windows: bool) -> Result<
    Seq<char>,
    ErrorModel,
> {
    match path_check(path, windows) {
        Err(e) => Err(e),
        Ok(_) => Ok(
            "devel install \""@ + path + "\" "@ + devel_user_flag(user) + " exit true"@,
        ),
    }
}

/// The command that installs a wheel.
pub open spec fn toolshed_install_text(wheel: Seq<char>, user: bool, windows: bool) -> Result<
    Seq<char>,
    ErrorModel,
> {
    match path_check(wheel, windows) {
        Err(e) => Err(e),
        Ok(_) => Ok("toolshed install \""@ + wheel + "\""@ + toolshed_user_flag(user)),
    }
}

/// Python code as it stands inside the quoted argument of `exec`: each line
/// feed is written as `\n`, each double quote as `\"`.
pub open spec fn escaped_code(code: Seq<char>) -> Seq<char> {
    replace_all(replace_all(code, seq!['\n'], "\\n"@), seq!['"'], "\\\""@)
}

/// The command that makes ChimeraX run Python code, and exit after it if
/// `exit` is set.
pub open spec fn python_command_text(code: Seq<char>, exit: bool) -> Seq<char> {
    "runscript python -c \"exec(\\\""@ + escaped_code(code) + "\\\")\""@ + (if exit {
        "; exit"@
    } else {
        ""@
    })
}

/// The command that makes ChimeraX run Python code.
pub fn python_command(code: &str, exit: bool) -> (cmd: String)
    ensures
        cmd@ == python_command_text(code@, exit),
{
    let chars = chars_of(code);
    let mut feed: Vec<char> = Vec::new();
    feed.push('\n');
    assert(feed@ =~= seq!['\n']);
    let mut quote: Vec<char> = Vec::new();
    quote.push('"');
    assert(quote@ =~= seq!['"']);
    let step = replace(&chars, &feed, &chars_of("\\n"));
    let escaped = replace(&step, &quote, &chars_of("\\\""));
    let mut cmd: Vec<char> = Vec::new();
    push_str(&mut cmd, "runscript python -c \"exec(\\\"");
    push_all(&mut cmd, &escaped);
    push_str(&mut cmd, "\\\")\"");
    if exit {
        push_str(&mut cmd, "; exit");
    } else {
        push_str(&mut cmd, "");
    }
    assert(cmd@ =~= python_command_text(code@, exit));
    string_of(&cmd)
}

/// The Python code that prints the environment of ChimeraX as JSON between
/// two markers.
pub open spec fn info_script() -> Seq<char> {
"\nimport sys\nimport json\ninfo = {\n    \"executable\": sys.executable,\n    \"version\": sys.version,\n    \"prefix\": sys.prefix,\n    \"path\": sys.path,\n}\ntry:\n    import chimerax\n    info[\"chimerax_version\"] = getattr(chimerax, \"__version__\", \"unknown\")\nexcept Exception:\n    info[\"chimerax_version\"] = None\ntry:\n    import site\n    info[\"site_packages\"] = site.getsitepackages()\nexcept Exception:\n    info[\"site_packages\"] = []\nprint(\"ECHIDNA_JSON_START\")\nprint(json.dumps(info))\nprint(\"ECHIDNA_JSON_END\")\n"@
}

/// The Python code that prints the environment of ChimeraX as JSON between
/// two markers.
pub fn python_info_script() -> (code: &'static str)
    ensures
        code@ == info_script(),
{
    "\nimport sys\nimport json\ninfo = {\n    \"executable\": sys.executable,\n    \"version\": sys.version,\n    \"prefix\": sys.prefix,\n    \"path\": sys.path,\n}\ntry:\n    import chimerax\n    info[\"chimerax_version\"] = getattr(chimerax, \"__version__\", \"unknown\")\nexcept Exception:\n    info[\"chimerax_version\"] = None\ntry:\n    import site\n    info[\"site_packages\"] = site.getsitepackages()\nexcept Exception:\n    info[\"site_packages\"] = []\nprint(\"ECHIDNA_JSON_START\")\nprint(json.dumps(info))\nprint(\"ECHIDNA_JSON_END\")\n"
}

/// The marker before the JSON text.
pub open spec fn start_marker() -> Seq<char> {
    "ECHIDNA_JSON_START"@
}

/// The marker after the JSON text.
pub open spec fn end_marker() -> Seq<char> {
    "ECHIDNA_JSON_END"@
}

/// The error for output without the JSON text.
pub open spec fn json_not_found() -> ErrorModel {
    ErrorModel::ChimeraXCommandFailed("JSON output not found"@)
}

/// The JSON text in the output of ChimeraX: what stands between the first
/// start marker and the first end marker, without the whitespace around it.
/// It is missing if a marker is missing or if the end marker comes first.
pub open spec fn json_payload(stdout: Seq<char>) -> Result<Seq<char>, ErrorModel> {
    match (first_match(stdout, start_marker()), first_match(stdout, end_marker())) {
        (Some(start), Some(end)) => if start + start_marker().len() <= end {
            Ok(trimmed(stdout.subrange(start + start_marker().len(), end)))
        } else {
            Err(json_not_found())
        },
        _ => Err(json_not_found()),
    }
}

/// Extracts the JSON text from the output of ChimeraX.
pub fn extract_json(stdout: &str) -> (r: Result<String, EchidnaError>)
    ensures
        text_outcome(r) == json_payload(stdout@),
{
    let chars = chars_of(stdout);
    let start_mark = chars_of("ECHIDNA_JSON_START");
    let end_mark = chars_of("ECHIDNA_JSON_END");
    let start = match find(&chars, &start_mark) {
        Some(i) => i,
        None => {
            return Err(EchidnaError::ChimeraXCommandFailed("JSON output not found".to_owned()));
        },
    };
    let end = match find(&chars, &end_mark) {
        Some(i) => i,
        None => {
            return Err(EchidnaError::ChimeraXCommandFailed("JSON output not found".to_owned()));
        },
    };
    if start + start_mark.len() > end {
        return Err(EchidnaError::ChimeraXCommandFailed("JSON output not found".to_owned()));
    }
    let inner = slice_of(&chars, start + start_mark.len(), end);
    Ok(string_of(&trim(&inner)))
}

/// A runner of ChimeraX commands: the executable and how much is reported.
#[derive(Clone, Debug)]
pub struct ChimeraXExecutor {
    executable: String,
    verbosity: Verbosity,
}

impl ChimeraXExecutor {
    /// The path of the executable.
    pub closed spec fn executable_path(&self) -> Seq<char> {
        self.executable@
    }

    /// How much is reported.
    pub closed spec fn level(&self) -> Verbosity {
        self.verbosity
    }

    /// Creates an executor for the ChimeraX executable at the given path.
    pub fn new(executable: String, verbosity: Verbosity) -> (executor: ChimeraXExecutor)
        ensures
            executor.executable_path() == executable@,
            executor.level() == verbosity,
    {
        ChimeraXExecutor { executable, verbosity }
    }

    /// The path of the ChimeraX executable.
    pub fn executable(&self) -> (path: &String)
        ensures
            path@ == self.executable_path(),
    {
        &self.executable
    }

    /// How much is reported.
    pub fn verbosity(&self) -> (level: Verbosity)
        ensures
            level == self.level(),
    {
        self.verbosity
    }

    /// The arguments that make ChimeraX run one command without its window.
    pub fn run_command_args(&self, cmd: &str) -> (args: Vec<String>)
        ensures
            texts(args@) == command_args(cmd@),
    {
        let mut args: Vec<String> = Vec::new();
        args.push("--nogui".to_owned());
        args.push("--exit".to_owned());
        args.push("--cmd".to_owned());
        args.push(cmd.to_owned());
        assert(texts(args@) =~= command_args(cmd@));
        args
    }

    /// The arguments that make ChimeraX run one script without its window.
    pub fn run_script_args(&self, script: &str) -> (args: Vec<String>)
        ensures
            texts(args@) == script_args(script@),
    {
        let mut args: Vec<String> = Vec::new();
        args.push("--nogui".to_owned());
        args.push("--exit".to_owned());
        args.push("--script".to_owned());
        args.push(script.to_owned());
        assert(texts(args@) =~= script_args(script@));
        args
    }

    /// The arguments that make ChimeraX open its window.
    pub fn launch_args(&self, script: Option<&str>) -> (args: Vec<String>)
        ensures
            texts(args@) == launch_args(
                match script {
                    Some(s) => Some(s@),
                    None => None,
                },
            ),
    {
        let mut args: Vec<String> = Vec::new();
        match script {
            Some(s) => {
                args.push("--script".to_owned());
                args.push(s.to_owned());
                assert(texts(args@) =~= launch_args(Some(s@)));
            },
            None => {
                assert(texts(args@) =~= launch_args(None));
            },
        }
        args
    }

    /// The log line for an execution; `None` unless commands are reported.
    pub fn execution_log(&self, msg: &str) -> (line: Option<String>)
        ensures
            match line {
                Some(l) => self.level() >= 1 && l@ == "[echidna] Executing: "@ + msg@,
                None => self.level() < 1,
            },
    {
        if self.verbosity >= 1 {
            Some(glue("[echidna] Executing: ", msg))
        } else {
            None
        }
    }

    /// The log lines for the output of a process; none unless output is
    /// reported, and none for an empty stream.
    pub fn output_log(&self, stdout: &str, stderr: &str) -> (lines: Vec<String>)
        ensures
            texts(lines@) == output_log_lines(self.level(), stdout@, stderr@),
    {
        let mut lines: Vec<String> = Vec::new();
        if self.verbosity >= 2 {
            if stdout.unicode_len() > 0 {
                lines.push(glue("[echidna] stdout:\n", stdout));
            }
            if stderr.unicode_len() > 0 {
                lines.push(glue("[echidna] stderr:\n", stderr));
            }
        }
        assert(texts(lines@) =~= output_log_lines(self.level(), stdout@, stderr@));
        lines
    }

    /// How the run of a command is described in the log.
    pub fn describe_command(&self, cmd: &str) -> (text: String)
        ensures
            text@ == command_description(cmd@),
    {
        glue3("ChimeraX --nogui --exit --cmd '", cmd, "'")
    }

    /// How the run of a script is described in the log.
    pub fn describe_script(&self, script: &str) -> (text: String)
        ensures
            text@ == script_description(script@),
    {
        glue3("ChimeraX --nogui --exit --script '", script, "'")
    }

    /// How a launch is described in the log.
    pub fn describe_launch(&self, script: Option<&str>) -> (text: String)
        ensures
            text@ == launch_description(
                match script {
                    Some(s) => Some(s@),
                    None => None,
                },
            ),
    {
        match script {
            Some(s) => {
                let tail = glue3(" --script '", s, "'");
                let text = glue("ChimeraX", tail.as_str());
                assert(text@ =~= "ChimeraX"@ + " --script '"@ + s@ + "'"@);
                text
            },
            None => "ChimeraX".to_owned(),
        }
    }

    /// The command that builds the bundle at `path`.
    pub fn devel_build_command(&self, path: &str) -> (r: Result<String, EchidnaError>)
        ensures
            text_outcome(r) == devel_build_text(path@, false),
    {
        match validate_path_for_command(path) {
            Err(e) => Err(e),
            Ok(_) => Ok(glue3("devel build \"", path, "\" exit true")),
        }
    }

    /// The command that installs the bundle at `path` from its sources.
    pub fn devel_install_command(&self, path: &str, user: bool) -> (r: Result<String, EchidnaError>)
        ensures
            text_outcome(r) == devel_install_text(path@, user, false),
    {
        match validate_path_for_command(path) {
            Err(e) => Err(e),
            Ok(_) => {
                let mut cmd: Vec<char> = Vec::new();
                push_str(&mut cmd, "devel install \"");
                push_str(&mut cmd, path);
                push_str(&mut cmd, "\" ");
                if user {
                    push_str(&mut cmd, "user true");
                } else {
                    push_str(&mut cmd, "user false");
                }
                push_str(&mut cmd, " exit true");
                assert(cmd@ =~= "devel install \""@ + path@ + "\" "@ + devel_user_flag(user)
                    + " exit true"@);
                Ok(string_of(&cmd))
            },
        }
    }

    /// The command that installs a wheel.
    pub fn toolshed_install_command(&self, wheel: &str, user: bool) -> (r: Result<
        String,
        EchidnaError,
    >)
        ensures
            text_outcome(r) == toolshed_install_text(wheel@, user, false),
    {
        match validate_path_for_command(wheel) {
            Err(e) => Err(e),
            Ok(_) => {
                let mut cmd: Vec<char> = Vec::new();
                push_str(&mut cmd, "toolshed install \"");
                push_str(&mut cmd, wheel);
                push_str(&mut cmd, "\"");
                if user {
                    push_str(&mut cmd, " user true");
                } else {
                    push_str(&mut cmd, "");
                }
                assert(cmd@ =~= "toolshed install \""@ + wheel@ + "\""@ + toolshed_user_flag(user));
                Ok(string_of(&cmd))
            },
        }
    }

    /// The command that makes ChimeraX print its Python environment.
    pub fn python_info_command(&self) -> (cmd: String)
        ensures
            cmd@ == python_command_text(info_script(), true),
    {
        python_command(python_info_script(), true)
    }
}

/// The log lines for the output of a process.
pub open spec fn output_log_lines(level: Verbosity, stdout: Seq<char>, stderr: Seq<char>) -> Seq<
    Seq<char>,
> {
    if level >= 2 {
        (if stdout.len() > 0 {
            seq!["[echidna] stdout:\n"@ + stdout]
        } else {
            Seq::empty()
        }) + (if stderr.len() > 0 {
            seq!["[echidna] stderr:\n"@ + stderr]
        } else {
            Seq::empty()
        })
    } else {
        Seq::empty()
    }
}

} // verus!
