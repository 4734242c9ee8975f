//! The test command: running the test suite of a bundle with the Python of
//! ChimeraX.

use vstd::prelude::*;
use crate::chimerax::executor::{
    dangerous, dangerous_chars, find_contained, first_contained, python_command,
    python_command_text, Verbosity,
};
use crate::document::{parse_toml, parsed_document, DocModel, TomlValue};
use crate::error::{text_outcome, unit_outcome, EchidnaError, ErrorModel};
use crate::text::{
    chars_of, glue, glue3, has_char, join_strings, join_with, push_str, replace,
    replace_all, string_of, texts,
};

verus! {

/// Arguments for the test command.
#[derive(Clone, Debug)]
pub struct TestArgs {
    /// Project directory.
    pub path: String,
    /// Only run the tests that match this expression.
    pub filter: Option<String>,
    /// Increase the verbosity of pytest.
    pub verbose: bool,
    /// Skip the build.
    pub no_build: bool,
    /// Skip the install.
    pub no_install: bool,
    /// Generate a coverage report.
    pub coverage: bool,
    /// Further arguments for pytest.
    pub pytest_args: Vec<String>,
    /// Path to the ChimeraX executable.
    pub chimerax: String,
    pub verbosity: Verbosity,
}

/// Whether a filter expression may stand in the pytest call: it is not
/// empty and holds no quote, semicolon, line break, backtick, dollar sign
/// or backslash.
pub open spec fn valid_filter(filter: Seq<char>) -> bool {
    filter.len() > 0 && first_contained(filter, dangerous_chars(false)).is_none()
}

/// Whether a filter expression may stand in the pytest call.
pub fn is_valid_pytest_filter(filter: &str) -> (valid: bool)
    ensures
        valid == valid_filter(filter@),
{
    let chars = chars_of(filter);
    if chars.len() == 0 {
        return false;
    }
    find_contained(&chars, &dangerous(false)).is_none()
}

/// The package that the `[chimerax]` section of a manifest names.
pub open spec fn package_of(doc: DocModel) -> Option<Seq<char>> {
    match doc.entry("chimerax"@) {
        None => None,
        Some(chimerax) => match chimerax.entry("package"@) {
            None => None,
            Some(package) => package.text(),
        },
    }
}

/// The package that a manifest names, given what parsing it returned.
pub open spec fn package_of_parsed(parsed: Result<DocModel, Seq<char>>) -> Option<Seq<char>> {
    match parsed {
        Ok(doc) => package_of(doc),
        Err(_) => None,
    }
}

/// The package that the `[chimerax]` section of a parsed manifest names.
pub fn package_name(doc: &TomlValue) -> (name: Option<String>)
    ensures
        match name {
            Some(n) => package_of(doc@) == Some(n@),
            None => package_of(doc@).is_none(),
        },
{
    match doc.get("chimerax") {
        None => None,
        Some(chimerax) => match chimerax.get("package") {
            None => None,
            Some(package) => match package.as_str() {
                Some(s) => Some(s.to_owned()),
                None => None,
            },
        },
    }
}

/// The package that the manifest with the given text names, for coverage.
pub fn get_package_name(manifest: &str) -> (name: Option<String>)
    ensures
        match name {
            Some(n) => package_of_parsed(parsed_document(manifest@)) == Some(n@),
            None => package_of_parsed(parsed_document(manifest@)).is_none(),
        },
{
    match parse_toml(manifest) {
        Ok(doc) => package_name(&doc),
        Err(_) => None,
    }
}

/// A text between double quotes.
pub open spec fn quoted(s: Seq<char>) -> Seq<char> {
    "\""@ + s + "\""@
}

/// The arguments that make pytest measure coverage: of the package if it is
/// known, of `src` otherwise.
pub open spec fn coverage_args(package: Option<Seq<char>>) -> Seq<Seq<char>> {
    seq![
        match package {
            Some(p) => "\"--cov="@ + p + "\""@,
            None => "\"--cov=src\""@,
        },
        "\"--cov-report=term-missing\""@,
        "\"--cov-report=html:htmlcov\""@,
    ]
}

/// The error for a filter that may not stand in the pytest call.
pub open spec fn invalid_filter(filter: Seq<char>) -> ErrorModel {
    ErrorModel::InvalidName("Invalid test filter: "@ + filter)
}

/// The error for an argument with a line break.
pub open spec fn argument_with_newline() -> ErrorModel {
    ErrorModel::InvalidName("pytest arguments cannot contain newlines"@)
}

/// A further argument as it stands in the pytest call: between double
/// quotes, with a backslash before each double quote of its own.
pub open spec fn extra_arg(arg: Seq<char>) -> Result<Seq<char>, ErrorModel> {
    if arg.contains('\n') || arg.contains('\r') {
        Err(argument_with_newline())
    } else {
        Ok(quoted(replace_all(arg, seq!['"'], "\\\""@)))
    }
}

/// The further arguments as they stand in the pytest call, or the error of
/// the first that may not stand there.
pub open spec fn extra_args(args: Seq<Seq<char>>) -> Result<Seq<Seq<char>>, ErrorModel>
    decreases args.len(),
{
    if args.len() == 0 {
        Ok(Seq::empty())
    } else {
        match extra_args(args.drop_last()) {
            Err(e) => Err(e),
            Ok(done) => match extra_arg(args.last()) {
                Err(e) => Err(e),
                Ok(a) => Ok(done.push(a)),
            },
        }
    }
}

/// What the test command is asked for, as far as the pytest call goes.
pub struct PytestRequest {
    pub tests_dir: Seq<char>,
    pub verbose: bool,
    /// The package to measure coverage of (`Some(None)` if the package is
    /// not known); `None` without coverage.
    pub coverage: Option<Option<Seq<char>>>,
    pub filter: Option<Seq<char>>,
    pub extra: Seq<Seq<char>>,
}

/// The arguments up to the filter.
pub open spec fn leading_args(request: PytestRequest) -> Seq<Seq<char>> {
    seq![quoted(request.tests_dir)] + (if request.verbose {
        seq!["-v"@]
    } else {
        Seq::empty()
    }) + (match request.coverage {
        Some(package) => coverage_args(package),
        None => Seq::empty(),
    })
}

/// The arguments of the pytest call, in order: the tests directory, the
/// verbosity, the coverage, the filter, then the further arguments.
pub open spec fn pytest_arguments(request: PytestRequest) -> Result<Seq<Seq<char>>, ErrorModel> {
    match request.filter {
        Some(f) => if !valid_filter(f) {
            Err(invalid_filter(f))
        } else {
            match extra_args(request.extra) {
                Err(e) => Err(e),
                Ok(extra) => Ok(leading_args(request) + seq!["-k \""@ + f + "\""@] + extra),
            }
        },
        None => match extra_args(request.extra) {
            Err(e) => Err(e),
            Ok(extra) => Ok(leading_args(request) + extra),
        },
    }
}

/// The Python code that refuses to go on without `pytest-cov`.
pub open spec fn coverage_check() -> Seq<char> {
    "\n# Check for pytest-cov\ntry:\n    import pytest_cov\nexcept ImportError:\n    print(\"ERROR: pytest-cov is not installed in ChimeraX Python environment\")\n    print(\"Install it with: ChimeraX -m pip install pytest-cov\")\n    sys.exit(1)\n"@
}

/// The Python code that runs pytest in the project directory and exits
/// with its exit code.
pub open spec fn pytest_script(project_dir: Seq<char>, coverage: bool, arguments: Seq<char>) -> Seq<
    char,
> {
    "\nimport sys\nimport os\n\n# Change to project directory\nos.chdir(\""@ + project_dir
        + "\")\n\n# Try to import pytest\ntry:\n    import pytest\nexcept ImportError:\n    print(\"ERROR: pytest is not installed in ChimeraX Python environment\")\n    print(\"Install it with: ChimeraX -m pip install pytest\")\n    sys.exit(1)\n"@
        + (if coverage {
        coverage_check()
    } else {
        ""@
    }) + "\n# Run pytest\nexit_code = pytest.main(["@ + arguments + "])\nsys.exit(exit_code)\n"@
}

/// The ChimeraX command that runs the tests.
pub open spec fn pytest_command_text(project_dir: Seq<char>, request: PytestRequest) -> Result<
    Seq<char>,
    ErrorModel,
> {
    match pytest_arguments(request) {
        Err(e) => Err(e),
        Ok(args) => Ok(
            python_command_text(
                pytest_script(project_dir, request.coverage.is_some(), join_with(args, ", "@)),
                false,
            ),
        ),
    }
}

/// A text between double quotes.
fn quote(s: &str) -> (out: String)
    ensures
        out@ == quoted(s@),
{
    glue3("\"", s, "\"")
}

/// The further arguments as they stand in the pytest call.
fn quote_extra(args: &Vec<String>, out: &mut Vec<String>) -> (r: Result<(), EchidnaError>)
    ensures
        match r {
            Ok(_) => extra_args(texts(args@)).is_ok() && texts(final(out)@) == texts(old(out)@)
                + extra_args(texts(args@))->Ok_0,
            Err(e) => extra_args(texts(args@)) == Err::<Seq<Seq<char>>, ErrorModel>(e@),
        },
{
    let ghost start = texts(out@);
    let mut i: usize = 0;
    assert(texts(args@).take(0) =~= Seq::<Seq<char>>::empty());
    assert(texts(out@) =~= start + extra_args(texts(args@).take(0))->Ok_0);
    while i < args.len()
        invariant
            i <= args.len(),
            start == texts(old(out)@),
            extra_args(texts(args@).take(i as int)).is_ok(),
            texts(out@) == start + extra_args(texts(args@).take(i as int))->Ok_0,
        decreases args.len() - i,
    {
        let ghost upto = texts(args@).take(i + 1);
        let ghost done = extra_args(texts(args@).take(i as int))->Ok_0;
        assert(upto.drop_last() =~= texts(args@).take(i as int));
        assert(upto.last() == args@[i as int]@);
        let arg = chars_of(args[i].as_str());
        if has_char(&arg, '\n') || has_char(&arg, '\r') {
            proof {
                lemma_extra_args_error(texts(args@), i + 1);
            }
            return Err(
                EchidnaError::InvalidName("pytest arguments cannot contain newlines".to_owned()),
            );
        }
        let mut mark: Vec<char> = Vec::new();
        mark.push('"');
        assert(mark@ =~= seq!['"']);
        let escaped = replace(&arg, &mark, &chars_of("\\\""));
        let ghost before = texts(out@);
        out.push(quote(string_of(&escaped).as_str()));
        assert(texts(out@) =~= before.push(quoted(replace_all(arg@, seq!['"'], "\\\""@))));
        assert(texts(out@) =~= start + done.push(quoted(replace_all(arg@, seq!['"'], "\\\""@))));
        i += 1;
    }
    assert(texts(args@).take(args.len() as int) =~= texts(args@));
    Ok(())
}

/// Once the beginning of the arguments has an error, the whole has it.
pub proof fn lemma_extra_args_error(args: Seq<Seq<char>>, n: int)
    requires
        0 <= n <= args.len(),
        extra_args(args.take(n)).is_err(),
    ensures
        extra_args(args) == extra_args(args.take(n)),
    decreases args.len() - n,
{
    if n < args.len() {
        assert(args.take(n + 1).drop_last() =~= args.take(n));
        lemma_extra_args_error(args, n + 1);
    } else {
        assert(args.take(n) =~= args);
    }
}

/// The ChimeraX command that runs the tests of the project in `project_dir`
/// that lie in `tests_dir`. `package` is the package to measure coverage
/// of, if it is known; it counts only where coverage is asked for.
pub fn pytest_command(
    project_dir: &str,
    tests_dir: &str,
    verbose: bool,
    coverage: bool,
    package: Option<&str>,
    filter: Option<&str>,
    extra: &Vec<String>,
) -> (r: Result<String, EchidnaError>)
    ensures
        text_outcome(r) == pytest_command_text(
            project_dir@,
            PytestRequest {
                tests_dir: tests_dir@,
                verbose,
                coverage: if coverage {
                    Some(
                        match package {
                            Some(p) => Some(p@),
                            None => None,
                        },
                    )
                } else {
                    None
                },
                filter: match filter {
                    Some(f) => Some(f@),
                    None => None,
                },
                extra: texts(extra@),
            },
        ),
{
    let ghost request = PytestRequest {
        tests_dir: tests_dir@,
        verbose,
        coverage: if coverage {
            Some(
                match package {
                    Some(p) => Some(p@),
                    None => None,
                },
            )
        } else {
            None
        },
        filter: match filter {
            Some(f) => Some(f@),
            None => None,
        },
        extra: texts(extra@),
    };
    let mut args: Vec<String> = Vec::new();
    args.push(quote(tests_dir));
    if verbose {
        args.push("-v".to_owned());
    }
    if coverage {
        match package {
            Some(p) => {
                args.push(glue3("\"--cov=", p, "\""));
            },
            None => {
                args.push("\"--cov=src\"".to_owned());
            },
        }
        args.push("\"--cov-report=term-missing\"".to_owned());
        args.push("\"--cov-report=html:htmlcov\"".to_owned());
    }
    assert(texts(args@) =~= leading_args(request));
    match filter {
        Some(f) => {
            if !is_valid_pytest_filter(f) {
                return Err(EchidnaError::InvalidName(glue("Invalid test filter: ", f)));
            }
            args.push(glue3("-k \"", f, "\""));
            assert(texts(args@) =~= leading_args(request) + seq!["-k \""@ + f@ + "\""@]);
        },
        None => {},
    }
    match quote_extra(extra, &mut args) {
        Err(e) => {
            return Err(e);
        },
        Ok(_) => {},
    }
    assert(pytest_arguments(request) == Ok::<Seq<Seq<char>>, ErrorModel>(texts(args@)));
    let arguments = join_strings(&args, ", ");
    let mut code: Vec<char> = Vec::new();
    push_str(
        &mut code,
        "\nimport sys\nimport os\n\n# Change to project directory\nos.chdir(\"",
    );
    push_str(&mut code, project_dir);
    push_str(
        &mut code,
        "\")\n\n# Try to import pytest\ntry:\n    import pytest\nexcept ImportError:\n    print(\"ERROR: pytest is not installed in ChimeraX Python environment\")\n    print(\"Install it with: ChimeraX -m pip install pytest\")\n    sys.exit(1)\n",
    );
    if coverage {
        push_str(
            &mut code,
            "\n# Check for pytest-cov\ntry:\n    import pytest_cov\nexcept ImportError:\n    print(\"ERROR: pytest-cov is not installed in ChimeraX Python environment\")\n    print(\"Install it with: ChimeraX -m pip install pytest-cov\")\n    sys.exit(1)\n",
        );
    } else {
        push_str(&mut code, "");
    }
    push_str(&mut code, "\n# Run pytest\nexit_code = pytest.main([");
    push_str(&mut code, arguments.as_str());
    push_str(&mut code, "])\nsys.exit(exit_code)\n");
    assert(code@ =~= pytest_script(project_dir@, coverage, arguments@));
    Ok(python_command(string_of(&code).as_str(), false))
}

/// What the outcome of the pytest process means: the tests failed unless
/// the process succeeded. A process that was killed counts as exit code -1.
pub open spec fn test_outcome(success: bool, code: Option<i32>) -> Result<(), ErrorModel> {
    if success {
        Ok(())
    } else {
        Err(
            ErrorModel::TestFailed(
                match code {
                    Some(c) => c as int,
                    None => -1,
                },
            ),
        )
    }
}

/// What the outcome of the pytest process means.
pub fn check_test_outcome(success: bool, code: Option<i32>) -> (r: Result<(), EchidnaError>)
    ensures
        unit_outcome(r) == test_outcome(success, code),
{
    if success {
        Ok(())
    } else {
        match code {
            Some(c) => Err(EchidnaError::TestFailed(c)),
            None => Err(EchidnaError::TestFailed(-1)),
        }
    }
}

/// The error for a project without a tests directory.
pub fn missing_tests_dir() -> (e: EchidnaError)
    ensures
        e@ == ErrorModel::ConfigError(
            "tests/ directory not found. Create a tests/ directory with test files."@,
        ),
{
    EchidnaError::ConfigError(
        "tests/ directory not found. Create a tests/ directory with test files.".to_owned(),
    )
}

} // verus!
