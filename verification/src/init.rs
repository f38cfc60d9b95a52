//! Process start-up settings: the logging pattern and level chosen for
//! the run, and the fixed, explicit list of template search
//! directories.  The settings are plain values; wiring them into a
//! logging backend is the caller's concern.

use vstd::prelude::*;
use vstd::string::StringExecFns;

use crate::strutil::concat2;

verus! {

/// The explicit configuration the pipeline runs with: the template
/// search directories, probed in order.
#[derive(Debug)]
pub struct Context {
    pub template_dirs: Vec<String>,
}

/// The start-up settings derived from the command line: the log
/// pattern and verbosity, and the search context.
#[derive(Debug)]
pub struct InitSettings {
    /// The log line pattern: the detailed one with timestamp and
    /// target in verbose runs, the short one otherwise.
    pub log_pattern: String,
    /// Whether the run logs at trace level rather than warnings only.
    pub verbose_logging: bool,
    /// The template search directories: the per-user data path under
    /// the home directory, then the system-wide data path.
    pub context: Context,
}

/// Computes the start-up settings: the verbose flag selects the
/// detailed log pattern and trace-level logging, and the template
/// search list holds the per-user data path derived from the home
/// directory followed by the system-wide path, in that order.
pub fn init(verbose: &bool, home: &str) -> (r: InitSettings)
    ensures
        r.verbose_logging == *verbose,
        *verbose ==> r.log_pattern@ == "{d(%Y-%m-%d %H:%M:%S)} | {h({l})} | {t} | {m}{n}"@,
        !*verbose ==> r.log_pattern@ == "{h({l})} | {m}{n}"@,
        r.context.template_dirs@.len() == 2,
        r.context.template_dirs@[0]@ == home@ + "/.local/share/tuack-ng/templates"@,
        r.context.template_dirs@[1]@ == "/usr/share/tuack-ng/templates"@,
{
    let log_pattern = if *verbose {
        String::from_str("{d(%Y-%m-%d %H:%M:%S)} | {h({l})} | {t} | {m}{n}")
    } else {
        String::from_str("{h({l})} | {m}{n}")
    };
    let mut template_dirs: Vec<String> = Vec::new();
    template_dirs.push(concat2(home, "/.local/share/tuack-ng/templates"));
    template_dirs.push(String::from_str("/usr/share/tuack-ng/templates"));
    InitSettings { log_pattern, verbose_logging: *verbose, context: Context { template_dirs } }
}

} // verus!
