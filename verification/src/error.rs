//! What can go wrong.

use vstd::prelude::*;
use crate::text::{glue, glue3, push_signed_decimal, push_str, signed_decimal, string_of};

verus! {

/// An error of this library or of the program around it.
#[derive(Clone, Debug, PartialEq, Eq)]
pub enum EchidnaError {
    /// No ChimeraX executable could be found.
    ChimeraXNotFound,
    /// ChimeraX ran a command and reported a failure.
    ChimeraXCommandFailed(String),
    /// The directory has no `pyproject.toml`.
    NotBundleDirectory(String),
    /// No wheel lies in `dist/`.
    NoWheelFound,
    /// The directory exists already and is not empty.
    DirectoryExists(String),
    /// A template could not be rendered or written.
    TemplateError(String),
    /// A configuration file or an argument is not as it must be.
    ConfigError(String),
    /// A name holds what it may not hold.
    InvalidName(String),
    /// The operating system refused an operation.
    Io(String),
    /// A text is no TOML document.
    TomlParse(String),
    /// A text is no JSON document of the expected shape.
    Json(String),
    /// The test suite ended with this exit code.
    TestFailed(i32),
    /// The virtual environment exists already.
    VenvExists(String),
}

/// The mathematical content of an [`EchidnaError`].
pub enum ErrorModel {
    ChimeraXNotFound,
    ChimeraXCommandFailed(Seq<char>),
    NotBundleDirectory(Seq<char>),
    NoWheelFound,
    DirectoryExists(Seq<char>),
    TemplateError(Seq<char>),
    ConfigError(Seq<char>),
    InvalidName(Seq<char>),
    Io(Seq<char>),
    TomlParse(Seq<char>),
    Json(Seq<char>),
    TestFailed(int),
    VenvExists(Seq<char>),
}

impl View for EchidnaError {
    type V = ErrorModel;

    open spec fn view(&self) -> ErrorModel {
        match self {
            EchidnaError::ChimeraXNotFound => ErrorModel::ChimeraXNotFound,
            EchidnaError::ChimeraXCommandFailed(detail) => ErrorModel::ChimeraXCommandFailed(
                detail@,
            ),
            EchidnaError::NotBundleDirectory(path) => ErrorModel::NotBundleDirectory(path@),
            EchidnaError::NoWheelFound => ErrorModel::NoWheelFound,
            EchidnaError::DirectoryExists(path) => ErrorModel::DirectoryExists(path@),
            EchidnaError::TemplateError(detail) => ErrorModel::TemplateError(detail@),
            EchidnaError::ConfigError(detail) => ErrorModel::ConfigError(detail@),
            EchidnaError::InvalidName(detail) => ErrorModel::InvalidName(detail@),
            EchidnaError::Io(detail) => ErrorModel::Io(detail@),
            EchidnaError::TomlParse(detail) => ErrorModel::TomlParse(detail@),
            EchidnaError::Json(detail) => ErrorModel::Json(detail@),
            EchidnaError::TestFailed(code) => ErrorModel::TestFailed(*code as int),
            EchidnaError::VenvExists(path) => ErrorModel::VenvExists(path@),
        }
    }
}

/// The content of a result that holds a text.
pub open spec fn text_outcome(r: Result<String, EchidnaError>) -> Result<Seq<char>, ErrorModel> {
    match r {
        Ok(s) => Ok(s@),
        Err(e) => Err(e@),
    }
}

/// The content of a result that holds nothing.
pub open spec fn unit_outcome(r: Result<(), EchidnaError>) -> Result<(), ErrorModel> {
    match r {
        Ok(_) => Ok(()),
        Err(e) => Err(e@),
    }
}

/// A configuration error with the given message.
pub fn config_error(message: &str) -> (e: EchidnaError)
    ensures
        e@ == ErrorModel::ConfigError(message@),
{
    EchidnaError::ConfigError(message.to_owned())
}

impl ErrorModel {
    /// The message of the error, as the user reads it.
    pub open spec fn text(self) -> Seq<char> {
        match self {
            ErrorModel::ChimeraXNotFound =>
                "ChimeraX not found. Install ChimeraX or specify path with --chimerax"@,
            ErrorModel::ChimeraXCommandFailed(detail) => "ChimeraX command failed: "@ + detail,
            ErrorModel::NotBundleDirectory(path) => "Not a valid bundle directory: "@ + path
                + " (missing pyproject.toml)"@,
            ErrorModel::NoWheelFound => "No wheel found in dist/. Run 'echidna build' first."@,
            ErrorModel::DirectoryExists(path) => "Directory already exists: "@ + path,
            ErrorModel::TemplateError(detail) => "Template generation failed: "@ + detail,
            ErrorModel::ConfigError(detail) => "Configuration error: "@ + detail,
            ErrorModel::InvalidName(detail) => "Invalid name: "@ + detail,
            ErrorModel::Io(detail) => "IO error: "@ + detail,
            ErrorModel::TomlParse(detail) => "TOML parsing error: "@ + detail,
            ErrorModel::Json(detail) => "JSON error: "@ + detail,
            ErrorModel::TestFailed(code) => "Tests failed with exit code "@ + signed_decimal(code),
            ErrorModel::VenvExists(path) => "Virtual environment already exists: "@ + path
                + " (use --force to overwrite)"@,
        }
    }
}

impl EchidnaError {
    /// The message of the error, as the user reads it.
    pub fn message(&self) -> (message: String)
        ensures
            message@ == self@.text(),
    {
        match self {
            EchidnaError::ChimeraXNotFound => {
                "ChimeraX not found. Install ChimeraX or specify path with --chimerax".to_owned()
            },
            EchidnaError::ChimeraXCommandFailed(detail) => glue(
                "ChimeraX command failed: ",
                detail.as_str(),
            ),
            EchidnaError::NotBundleDirectory(path) => glue3(
                "Not a valid bundle directory: ",
                path.as_str(),
                " (missing pyproject.toml)",
            ),
            EchidnaError::NoWheelFound => {
                "No wheel found in dist/. Run 'echidna build' first.".to_owned()
            },
            EchidnaError::DirectoryExists(path) => glue(
                "Directory already exists: ",
                path.as_str(),
            ),
            EchidnaError::TemplateError(detail) => glue(
                "Template generation failed: ",
                detail.as_str(),
            ),
            EchidnaError::ConfigError(detail) => glue("Configuration error: ", detail.as_str()),
            EchidnaError::InvalidName(detail) => glue("Invalid name: ", detail.as_str()),
            EchidnaError::Io(detail) => glue("IO error: ", detail.as_str()),
            EchidnaError::TomlParse(detail) => glue("TOML parsing error: ", detail.as_str()),
            EchidnaError::Json(detail) => glue("JSON error: ", detail.as_str()),
            EchidnaError::TestFailed(code) => {
                let mut chars: Vec<char> = Vec::new();
                push_str(&mut chars, "Tests failed with exit code ");
                push_signed_decimal(&mut chars, *code as i64);
                assert(chars@ =~= "Tests failed with exit code "@ + signed_decimal(*code as int));
                string_of(&chars)
            },
            EchidnaError::VenvExists(path) => glue3(
                "Virtual environment already exists: ",
                path.as_str(),
                " (use --force to overwrite)",
            ),
        }
    }
}

} // verus!
