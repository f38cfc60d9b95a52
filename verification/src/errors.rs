//! The error taxonomy of the whole pipeline.  Every failure of
//! configuration resolution, staging or compilation is one of these
//! kinds; none is retried.

use vstd::prelude::*;
use vstd::string::StringExecFns;

verus! {

/// Which configuration record a load or locate error refers to:
/// a directory at some height above the starting directory during the
/// upward walk, the contest root record, one day record, or one problem
/// record (day index, problem index).
#[derive(Debug, Clone, Copy, PartialEq, Eq, Structural)]
pub enum ConfigLoc {
    Walk(usize),
    Root,
    Day(usize),
    Problem(usize, usize),
}

/// One terminal error of the resolver or of the render pipeline.
///
/// `StatementMissing` and `StatementParseError` carry the zero-based
/// index of the problem within its day; `CompileFailure` carries the
/// compiler's captured standard-error text verbatim.
#[derive(Debug, Clone)]
pub enum ContestError {
    ConfigNotFound,
    ConfigVersionTooOld,
    ConfigParseError(ConfigLoc),
    ConfigIoError(ConfigLoc),
    TemplateNotFound,
    TemplateMissingRequiredFile(usize),
    ToolchainUnavailable,
    DayNotFound,
    StatementMissing(usize),
    StatementParseError(usize),
    CompileFailure(String),
    FilesystemError,
}

impl ContestError {
    /// A short user-facing description of the error kind; for a compile
    /// failure it carries the compiler's diagnostic text after the label.
    pub fn message(&self) -> (r: String)
        ensures
            self matches ContestError::CompileFailure(s) ==> r@ == "compile failed: "@ + s@,
    {
        match self {
            ContestError::ConfigNotFound => String::from_str("contest configuration not found"),
            ContestError::ConfigVersionTooOld => String::from_str(
                "configuration version too old",
            ),
            ContestError::ConfigParseError(_) => String::from_str("malformed configuration file"),
            ContestError::ConfigIoError(_) => String::from_str("configuration file unreadable"),
            ContestError::TemplateNotFound => String::from_str("template not found"),
            ContestError::TemplateMissingRequiredFile(_) => String::from_str(
                "template misses a required file",
            ),
            ContestError::ToolchainUnavailable => String::from_str("compiler unavailable"),
            ContestError::DayNotFound => String::from_str("day not found"),
            ContestError::StatementMissing(_) => String::from_str("statement file missing"),
            ContestError::StatementParseError(_) => String::from_str("statement failed to parse"),
            ContestError::CompileFailure(s) => {
                let mut m = String::from_str("compile failed: ");
                m.append(s.as_str());
                proof {
                    assert(m@ =~= "compile failed: "@ + s@);
                }
                m
            },
            ContestError::FilesystemError => String::from_str("filesystem operation failed"),
        }
    }
}

} // verus!
