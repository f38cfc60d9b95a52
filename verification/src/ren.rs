//! The staging/render pipeline for one contest day, as an explicit
//! state machine.  The machine owns every decision of the pipeline —
//! what to stage, in what order, what counts as failure, what survives
//! a failure — while an outside driver performs the filesystem and
//! process work it requests and reports each outcome back.  Document
//! conversion delegates to an external markdown parser and renderer
//! behind one trusted seam.

use vstd::prelude::*;
use vstd::string::StringExecFns;

use crate::config::{ContestConfig, ContestDayConfig};
use crate::errors::ContestError;
use crate::manifest::{generate_data_json, manifest_ok, DataJson};
use crate::strutil::{concat2, join_path, spec_dec, spec_join, u64_to_dec};

verus! {

/// The line width handed to the external renderer: effectively
/// unbounded, so the rendered text keeps long logical lines and leaves
/// all wrapping to the downstream typesetting layer.
pub const RENDER_WIDTH: usize = 1000000;

/// What the external document conversion returns for given source text
/// and width: `None` when the text does not parse, else the rendered
/// target-language text.  The result depends on the text and the width
/// alone.
pub uninterp spec fn md_to_latex(s: Seq<char>, width: int) -> Option<Seq<char>>;

/// Relies on `markdown_ppp::parser::parse_markdown` and
/// `markdown_ppp::latex_printer::render_latex`: parsing given text
/// either fails or yields a document tree determined by the text alone,
/// and rendering is determined by the tree and the width setting, so
/// their composition is a function of the source text and the width.
#[verifier::external_body]
fn md_render(text: &str, width: usize) -> (r: Option<String>)
    ensures
        r is Some <==> md_to_latex(text@, width as int) is Some,
        r matches Some(s) ==> s@ == md_to_latex(text@, width as int)->0,
{
    let state = markdown_ppp::parser::MarkdownParserState::new();
    match markdown_ppp::parser::parse_markdown(state, text) {
        Ok(ast) => {
            let config = markdown_ppp::latex_printer::config::Config::default().with_width(width);
            Some(markdown_ppp::latex_printer::render_latex(&ast, config))
        },
        Err(_) => None,
    }
}

/// The fixed one-line import directive prepended to every converted
/// document.
pub open spec fn spec_preamble() -> Seq<char> {
    "#import \"utils.typ\": *\n"@
}

/// What converting one document yields: the import preamble followed
/// by the externally rendered text, or nothing when the source does
/// not parse.
pub open spec fn spec_convert(s: Seq<char>) -> Option<Seq<char>> {
    match md_to_latex(s, RENDER_WIDTH as int) {
        Some(body) => Some(spec_preamble() + body),
        None => None,
    }
}

/// Converts one statement source document to target-language text with
/// the fixed import preamble, or reports that the source does not
/// parse.
pub fn convert_document(text: &str) -> (r: Option<String>)
    ensures
        r is Some <==> spec_convert(text@) is Some,
        r matches Some(s) ==> s@ == spec_convert(text@)->0,
{
    match md_render(text, RENDER_WIDTH) {
        Some(body) => {
            let mut s = String::from_str("#import \"utils.typ\": *\n");
            s.append(body.as_str());
            proof {
                assert(s@ =~= spec_preamble() + md_to_latex(text@, RENDER_WIDTH as int)->0);
            }
            Some(s)
        },
        None => None,
    }
}

/// Checks that a template provides both required entry files; the
/// first missing one is the error, checked before any staging begins.
pub fn check_template_files(main_exists: bool, utils_exists: bool) -> (r: Result<
    (),
    ContestError,
>)
    ensures
        r is Ok <==> main_exists && utils_exists,
        !main_exists ==> r == Err::<(), ContestError>(ContestError::TemplateMissingRequiredFile(0)),
        main_exists && !utils_exists ==> r == Err::<(), ContestError>(
            ContestError::TemplateMissingRequiredFile(1),
        ),
{
    if !main_exists {
        Err(ContestError::TemplateMissingRequiredFile(0))
    } else if !utils_exists {
        Err(ContestError::TemplateMissingRequiredFile(1))
    } else {
        Ok(())
    }
}

/// The first index at which the probe list reports a hit, from `i` on.
pub open spec fn spec_first_hit(hits: Seq<bool>, i: int) -> Option<int>
    decreases hits.len() - i,
{
    if i < 0 || i >= hits.len() {
        None
    } else if hits[i] {
        Some(i)
    } else {
        spec_first_hit(hits, i + 1)
    }
}

/// Picks the template directory: the first search directory where the
/// driver found the target template, joined with the target name, in
/// the fixed search order; `TemplateNotFound` when no directory has it.
pub fn pick_template_dir(dirs: &Vec<String>, target: &str, hits: &Vec<bool>) -> (r: Result<
    String,
    ContestError,
>)
    requires
        dirs@.len() == hits@.len(),
    ensures
        match spec_first_hit(hits@, 0) {
            Some(i) => r matches Ok(p) && p@ == spec_join(dirs@[i]@, target@),
            None => r == Err::<String, ContestError>(ContestError::TemplateNotFound),
        },
{
    let n = dirs.len();
    let mut i: usize = 0;
    while i < n
        invariant
            0 <= i <= n,
            n == dirs@.len(),
            n == hits@.len(),
            spec_first_hit(hits@, 0) == spec_first_hit(hits@, i as int),
        decreases n - i,
    {
        if hits[i] {
            return Ok(join_path(dirs[i].as_str(), target));
        }
        i = i + 1;
    }
    Err(ContestError::TemplateNotFound)
}

/// The index of the first day whose name equals the filter, from `i`
/// on.
pub open spec fn spec_find_day(days: Seq<ContestDayConfig>, name: Seq<char>, i: int) -> Option<int>
    decreases days.len() - i,
{
    if i < 0 || i >= days.len() {
        None
    } else if days[i].name@ == name {
        Some(i)
    } else {
        spec_find_day(days, name, i + 1)
    }
}

/// Selects which days to render: all of them, in declared order, when
/// no day filter is given; with a filter, the first day of that name,
/// or `DayNotFound` when no day carries it.
pub fn select_days(config: &ContestConfig, day_filter: &Option<String>) -> (r: Result<
    Vec<usize>,
    ContestError,
>)
    ensures
        match *day_filter {
            None => r matches Ok(v) && v@.len() == config.subconfig@.len() && (forall|i: int|
                0 <= i < v@.len() ==> v@[i] == i),
            Some(name) => match spec_find_day(config.subconfig@, name@, 0) {
                Some(i) => r matches Ok(v) && v@.len() == 1 && v@[0] == i,
                None => r == Err::<Vec<usize>, ContestError>(ContestError::DayNotFound),
            },
        },
{
    let df = day_filter.as_ref();
    match df {
        None => {
            let n = config.subconfig.len();
            let mut v: Vec<usize> = Vec::new();
            let mut i: usize = 0;
            while i < n
                invariant
                    0 <= i <= n,
                    n == config.subconfig@.len(),
                    v@.len() == i,
                    forall|q: int| 0 <= q < i ==> v@[q] == q,
                decreases n - i,
            {
                v.push(i);
                i = i + 1;
            }
            Ok(v)
        },
        Some(name) => {
            let n = config.subconfig.len();
            let mut i: usize = 0;
            while i < n
                invariant
                    0 <= i <= n,
                    n == config.subconfig@.len(),
                    *day_filter == Some(*name),
                    spec_find_day(config.subconfig@, name@, 0) == spec_find_day(
                        config.subconfig@,
                        name@,
                        i as int,
                    ),
                decreases n - i,
            {
                if config.subconfig[i].name == *name {
                    let mut v: Vec<usize> = Vec::new();
                    v.push(i);
                    proof {
                        assert(spec_find_day(config.subconfig@, name@, i as int) == Some(
                            i as int,
                        ));
                    }
                    return Ok(v);
                }
                i = i + 1;
            }
            Err(ContestError::DayNotFound)
        },
    }
}

/// One filesystem or process request the pipeline asks its driver to
/// perform before reporting the outcome back.
#[derive(Debug)]
pub enum RenderAction {
    /// Does this directory exist?
    ProbeDir(String),
    /// Create this directory.
    CreateDir(String),
    /// Remove this directory and everything under it.
    RemoveDirAll(String),
    /// Copy every file and directory under the first path into the
    /// second, preserving relative structure.
    CopyTree(String, String),
    /// Serialize this manifest and write it to this path.
    WriteManifest(String, DataJson),
    /// Does this file exist?
    ProbeFile(String),
    /// Read this file as text.
    ReadFile(String),
    /// Write this text to this path.
    WriteFile(String, String),
    /// Run the external compiler in this working directory on the
    /// fixed entry file, producing the named output file; report the
    /// exit status and the captured standard-error text.
    RunCompiler { dir: String, entry: String, output: String },
    /// Copy one file to a new path.
    CopyFile(String, String),
}

/// What the driver reports back for the action it was asked to
/// perform.
#[derive(Debug)]
pub enum RenderEvent {
    /// The requested operation succeeded.
    Completed,
    /// The requested operation failed.
    Failed,
    /// The answer to a probe.
    Exists(bool),
    /// The text a read returned.
    Content(String),
    /// The compiler ran: whether it exited successfully, and its
    /// captured standard-error text.
    Compiled(bool, String),
}

/// Where the pipeline stands: each variant names the action the driver
/// is currently performing, or a terminal state.
#[derive(Debug)]
pub enum RenderPc {
    /// Probing whether the day's output directory exists.
    ProbeDayDir,
    /// Creating the day's output directory.
    CreateDayDir,
    /// Probing whether a stale staging directory is left over.
    ProbeStaging,
    /// Removing the stale staging directory.
    ClearStaging,
    /// Creating the staging directory afresh.
    CreateStaging,
    /// Seeding the staging directory from the template.
    SeedTemplate,
    /// Writing the serialized manifest into staging.
    WriteManifestFile,
    /// Probing whether this problem's statement file exists.
    ProbeStatement(usize),
    /// Reading this problem's statement file.
    ReadStatement(usize),
    /// Writing this problem's converted statement into staging.
    WriteStatement(usize),
    /// Probing whether the optional notice document exists.
    ProbeNotice,
    /// Reading the notice document.
    ReadNotice,
    /// Writing the converted notice document into staging.
    WriteNotice,
    /// Running the external compiler.
    Compile,
    /// Copying the produced artifact to the permanent output
    /// directory.
    Promote,
    /// Removing the staging directory after a successful build.
    Cleanup,
    /// The day rendered successfully.
    Done,
    /// The day failed with this error; the machine makes no further
    /// requests, so whatever was staged survives for inspection.
    Failed(ContestError),
}

/// The render pipeline for one contest day: the fixed paths of the
/// run, the manifest to write (until it is handed to the driver), and
/// the current position.
#[derive(Debug)]
pub struct RenderMachine {
    /// The day's name, which names the produced artifact.
    pub day_name: String,
    /// The permanent per-day output directory.
    pub day_out_dir: String,
    /// The isolated staging directory under the day's output
    /// directory.
    pub staging_dir: String,
    /// The template directory every staged build is seeded from.
    pub template_dir: String,
    /// Per problem, in declared order: the statement source file in
    /// the problem's own directory.
    pub statement_paths: Vec<String>,
    /// The contest-level optional notice document.
    pub precaution_path: String,
    /// The manifest, until the machine hands it to the driver.
    pub manifest: Option<DataJson>,
    /// Where the pipeline stands.
    pub pc: RenderPc,
}

impl RenderMachine {
    /// The machine holds what its current position needs: the manifest
    /// until it is written out, and a statement index within range.
    pub open spec fn wf(self) -> bool {
        &&& match self.pc {
            RenderPc::ProbeDayDir
            | RenderPc::CreateDayDir
            | RenderPc::ProbeStaging
            | RenderPc::ClearStaging
            | RenderPc::CreateStaging
            | RenderPc::SeedTemplate => self.manifest is Some,
            _ => true,
        }
        &&& match self.pc {
            RenderPc::ProbeStatement(i) => i < self.statement_paths@.len(),
            RenderPc::ReadStatement(i) => i < self.statement_paths@.len(),
            RenderPc::WriteStatement(i) => i < self.statement_paths@.len(),
            _ => true,
        }
    }

    /// The machine reached a terminal state and requests nothing more.
    pub open spec fn finished(self) -> bool {
        self.pc matches RenderPc::Done || self.pc matches RenderPc::Failed(_)
    }

    /// Whether the event is the kind of outcome the pending action can
    /// report.
    pub open spec fn event_matches(self, ev: RenderEvent) -> bool {
        match self.pc {
            RenderPc::ProbeDayDir
            | RenderPc::ProbeStaging
            | RenderPc::ProbeStatement(_)
            | RenderPc::ProbeNotice => ev matches RenderEvent::Exists(_),
            RenderPc::CreateDayDir
            | RenderPc::ClearStaging
            | RenderPc::CreateStaging
            | RenderPc::SeedTemplate
            | RenderPc::WriteManifestFile
            | RenderPc::WriteStatement(_)
            | RenderPc::WriteNotice
            | RenderPc::Promote
            | RenderPc::Cleanup => (ev matches RenderEvent::Completed) || (
            ev matches RenderEvent::Failed),
            RenderPc::ReadStatement(_) | RenderPc::ReadNotice => (ev
                matches RenderEvent::Content(_)) || (ev matches RenderEvent::Failed),
            RenderPc::Compile => (ev matches RenderEvent::Compiled(_, _)) || (
            ev matches RenderEvent::Failed),
            RenderPc::Done => false,
            RenderPc::Failed(_) => false,
        }
    }
}

/// The fixed entry filename of every staged build.
pub open spec fn spec_entry_name() -> Seq<char> {
    "main.typ"@
}

/// The artifact filename of a day: its name with the fixed extension.
pub open spec fn spec_artifact_name(day_name: Seq<char>) -> Seq<char> {
    day_name + ".pdf"@
}

/// The staged filename of the statement at this zero-based position in
/// the day's problem list — derived from the position, never from the
/// problem's own identifier.
pub open spec fn spec_statement_filename(i: int) -> Seq<char> {
    "problem-"@ + spec_dec(i) + ".typ"@
}

/// The action issued after the staging directory is ready to receive
/// the next statement or to move on: convert the next statement, else
/// probe the optional notice document.
pub open spec fn next_after_statement(m0: RenderMachine, m1: RenderMachine, i: int, a: Option<
    RenderAction,
>) -> bool {
    if i + 1 < m0.statement_paths@.len() {
        &&& m1.pc == RenderPc::ProbeStatement((i + 1) as usize)
        &&& a matches Some(RenderAction::ProbeFile(p)) && p@ == m0.statement_paths@[i + 1]@
    } else {
        &&& m1.pc == RenderPc::ProbeNotice
        &&& a matches Some(RenderAction::ProbeFile(p)) && p@ == m0.precaution_path@
    }
}

/// Everything about the machine that never changes across a step.
pub open spec fn frame_kept(m0: RenderMachine, m1: RenderMachine) -> bool {
    &&& m1.day_name == m0.day_name
    &&& m1.day_out_dir == m0.day_out_dir
    &&& m1.staging_dir == m0.staging_dir
    &&& m1.template_dir == m0.template_dir
    &&& m1.statement_paths@ == m0.statement_paths@
    &&& m1.precaution_path == m0.precaution_path
}

/// The exact transition relation of the pipeline: given the position
/// of `m0` and the reported event, which position the machine takes
/// and which action, if any, it issues next.  A failed filesystem
/// operation is terminal with `FilesystemError`; a missing statement,
/// an unparsable statement and a failed compile each take their own
/// error; an unparsable notice document is only a warning and the
/// pipeline continues; after any terminal state nothing more is
/// issued.
pub open spec fn spec_transition(
    m0: RenderMachine,
    ev: RenderEvent,
    m1: RenderMachine,
    a: Option<RenderAction>,
) -> bool {
    &&& frame_kept(m0, m1)
    &&& match m0.pc {
        RenderPc::ProbeDayDir => match ev {
            RenderEvent::Exists(true) => {
                &&& m1.pc == RenderPc::ProbeStaging
                &&& m1.manifest == m0.manifest
                &&& a matches Some(RenderAction::ProbeDir(p)) && p@ == m0.staging_dir@
            },
            RenderEvent::Exists(false) => {
                &&& m1.pc == RenderPc::CreateDayDir
                &&& m1.manifest == m0.manifest
                &&& a matches Some(RenderAction::CreateDir(p)) && p@ == m0.day_out_dir@
            },
            _ => true,
        },
        RenderPc::CreateDayDir => match ev {
            RenderEvent::Completed => {
                &&& m1.pc == RenderPc::ProbeStaging
                &&& m1.manifest == m0.manifest
                &&& a matches Some(RenderAction::ProbeDir(p)) && p@ == m0.staging_dir@
            },
            RenderEvent::Failed => {
                &&& m1.pc == RenderPc::Failed(ContestError::FilesystemError)
                &&& a is None
            },
            _ => true,
        },
        RenderPc::ProbeStaging => match ev {
            RenderEvent::Exists(true) => {
                &&& m1.pc == RenderPc::ClearStaging
                &&& m1.manifest == m0.manifest
                &&& a matches Some(RenderAction::RemoveDirAll(p)) && p@ == m0.staging_dir@
            },
            RenderEvent::Exists(false) => {
                &&& m1.pc == RenderPc::CreateStaging
                &&& m1.manifest == m0.manifest
                &&& a matches Some(RenderAction::CreateDir(p)) && p@ == m0.staging_dir@
            },
            _ => true,
        },
        RenderPc::ClearStaging => match ev {
            RenderEvent::Completed => {
                &&& m1.pc == RenderPc::CreateStaging
                &&& m1.manifest == m0.manifest
                &&& a matches Some(RenderAction::CreateDir(p)) && p@ == m0.staging_dir@
            },
            RenderEvent::Failed => {
                &&& m1.pc == RenderPc::Failed(ContestError::FilesystemError)
                &&& a is None
            },
            _ => true,
        },
        RenderPc::CreateStaging => match ev {
            RenderEvent::Completed => {
                &&& m1.pc == RenderPc::SeedTemplate
                &&& m1.manifest == m0.manifest
                &&& a matches Some(RenderAction::CopyTree(src, dst)) && src@ == m0.template_dir@
                    && dst@ == m0.staging_dir@
            },
            RenderEvent::Failed => {
                &&& m1.pc == RenderPc::Failed(ContestError::FilesystemError)
                &&& a is None
            },
            _ => true,
        },
        RenderPc::SeedTemplate => match ev {
            RenderEvent::Completed => {
                &&& m1.pc == RenderPc::WriteManifestFile
                &&& a matches Some(RenderAction::WriteManifest(p, mj)) && p@ == spec_join(
                    m0.staging_dir@,
                    "data.json"@,
                ) && mj == m0.manifest->0
            },
            RenderEvent::Failed => {
                &&& m1.pc == RenderPc::Failed(ContestError::FilesystemError)
                &&& a is None
            },
            _ => true,
        },
        RenderPc::WriteManifestFile => match ev {
            RenderEvent::Completed => {
                if m0.statement_paths@.len() > 0 {
                    &&& m1.pc == RenderPc::ProbeStatement(0)
                    &&& a matches Some(RenderAction::ProbeFile(p)) && p@
                        == m0.statement_paths@[0]@
                } else {
                    &&& m1.pc == RenderPc::ProbeNotice
                    &&& a matches Some(RenderAction::ProbeFile(p)) && p@ == m0.precaution_path@
                }
            },
            RenderEvent::Failed => {
                &&& m1.pc == RenderPc::Failed(ContestError::FilesystemError)
                &&& a is None
            },
            _ => true,
        },
        RenderPc::ProbeStatement(i) => match ev {
            RenderEvent::Exists(true) => {
                &&& m1.pc == RenderPc::ReadStatement(i)
                &&& a matches Some(RenderAction::ReadFile(p)) && p@ == m0.statement_paths@[
                    i as int
                ]@
            },
            RenderEvent::Exists(false) => {
                &&& m1.pc == RenderPc::Failed(ContestError::StatementMissing(i))
                &&& a is None
            },
            _ => true,
        },
        RenderPc::ReadStatement(i) => match ev {
            RenderEvent::Content(text) => match spec_convert(text@) {
                Some(converted) => {
                    &&& m1.pc == RenderPc::WriteStatement(i)
                    &&& a matches Some(RenderAction::WriteFile(p, t)) && p@ == spec_join(
                        m0.staging_dir@,
                        spec_statement_filename(i as int),
                    ) && t@ == converted
                },
                None => {
                    &&& m1.pc == RenderPc::Failed(ContestError::StatementParseError(i))
                    &&& a is None
                },
            },
            RenderEvent::Failed => {
                &&& m1.pc == RenderPc::Failed(ContestError::FilesystemError)
                &&& a is None
            },
            _ => true,
        },
        RenderPc::WriteStatement(i) => match ev {
            RenderEvent::Completed => next_after_statement(m0, m1, i as int, a),
            RenderEvent::Failed => {
                &&& m1.pc == RenderPc::Failed(ContestError::FilesystemError)
                &&& a is None
            },
            _ => true,
        },
        RenderPc::ProbeNotice => match ev {
            RenderEvent::Exists(true) => {
                &&& m1.pc == RenderPc::ReadNotice
                &&& a matches Some(RenderAction::ReadFile(p)) && p@ == m0.precaution_path@
            },
            RenderEvent::Exists(false) => {
                &&& m1.pc == RenderPc::Compile
                &&& compile_action(m0, a)
            },
            _ => true,
        },
        RenderPc::ReadNotice => match ev {
            RenderEvent::Content(text) => match spec_convert(text@) {
                Some(converted) => {
                    &&& m1.pc == RenderPc::WriteNotice
                    &&& a matches Some(RenderAction::WriteFile(p, t)) && p@ == spec_join(
                        m0.staging_dir@,
                        "precaution.typ"@,
                    ) && t@ == converted
                },
                None => {
                    // An unparsable notice is only a warning: the day
                    // goes on to compile without it.
                    &&& m1.pc == RenderPc::Compile
                    &&& compile_action(m0, a)
                },
            },
            RenderEvent::Failed => {
                &&& m1.pc == RenderPc::Failed(ContestError::FilesystemError)
                &&& a is None
            },
            _ => true,
        },
        RenderPc::WriteNotice => match ev {
            RenderEvent::Completed => {
                &&& m1.pc == RenderPc::Compile
                &&& compile_action(m0, a)
            },
            RenderEvent::Failed => {
                &&& m1.pc == RenderPc::Failed(ContestError::FilesystemError)
                &&& a is None
            },
            _ => true,
        },
        RenderPc::Compile => match ev {
            RenderEvent::Compiled(success, stderr) => {
                if success {
                    &&& m1.pc == RenderPc::Promote
                    &&& a matches Some(RenderAction::CopyFile(src, dst)) && src@ == spec_join(
                        m0.staging_dir@,
                        spec_artifact_name(m0.day_name@),
                    ) && dst@ == spec_join(m0.day_out_dir@, spec_artifact_name(m0.day_name@))
                } else {
                    &&& m1.pc == RenderPc::Failed(ContestError::CompileFailure(stderr))
                    &&& a is None
                }
            },
            RenderEvent::Failed => {
                &&& m1.pc == RenderPc::Failed(ContestError::FilesystemError)
                &&& a is None
            },
            _ => true,
        },
        RenderPc::Promote => match ev {
            RenderEvent::Completed => {
                &&& m1.pc == RenderPc::Cleanup
                &&& a matches Some(RenderAction::RemoveDirAll(p)) && p@ == m0.staging_dir@
            },
            RenderEvent::Failed => {
                &&& m1.pc == RenderPc::Failed(ContestError::FilesystemError)
                &&& a is None
            },
            _ => true,
        },
        RenderPc::Cleanup => match ev {
            RenderEvent::Completed => {
                &&& m1.pc == RenderPc::Done
                &&& a is None
            },
            RenderEvent::Failed => {
                &&& m1.pc == RenderPc::Failed(ContestError::FilesystemError)
                &&& a is None
            },
            _ => true,
        },
        RenderPc::Done => true,
        RenderPc::Failed(_) => true,
    }
}

/// The compiler invocation of this machine: run in the staging
/// directory on the fixed entry file, producing the day's artifact.
pub open spec fn compile_action(m0: RenderMachine, a: Option<RenderAction>) -> bool {
    a matches Some(RenderAction::RunCompiler { dir, entry, output }) && dir@ == m0.staging_dir@
        && entry@ == spec_entry_name() && output@ == spec_artifact_name(m0.day_name@)
}

impl RenderMachine {
    /// Sets up the pipeline for one day: derives the fixed paths,
    /// builds the day's manifest, and issues the first request —
    /// probing the day's permanent output directory.
    pub fn start(
        contest: &ContestConfig,
        day: &ContestDayConfig,
        template_dir: &str,
        output_dir: &str,
    ) -> (r: (RenderMachine, RenderAction))
        ensures
            r.0.wf(),
            r.0.pc == RenderPc::ProbeDayDir,
            r.0.day_name == day.name,
            r.0.day_out_dir@ == spec_join(output_dir@, day.name@),
            r.0.staging_dir@ == spec_join(spec_join(output_dir@, day.name@), "tmp"@),
            r.0.template_dir@ == template_dir@,
            r.0.statement_paths@.len() == day.subconfig@.len(),
            forall|i: int|
                0 <= i < day.subconfig@.len() ==> (#[trigger] r.0.statement_paths@[i])@
                    == spec_join(day.subconfig@[i].path@, "statement.md"@),
            r.0.precaution_path@ == spec_join(contest.path@, "precaution.md"@),
            r.0.manifest matches Some(m) && manifest_ok(m, *contest, *day),
            r.1 matches RenderAction::ProbeDir(p) && p@ == spec_join(output_dir@, day.name@),
    {
        let day_out_dir = join_path(output_dir, day.name.as_str());
        let staging_dir = join_path(day_out_dir.as_str(), "tmp");
        let mut statement_paths: Vec<String> = Vec::new();
        let n = day.subconfig.len();
        let mut i: usize = 0;
        while i < n
            invariant
                0 <= i <= n,
                n == day.subconfig@.len(),
                statement_paths@.len() == i,
                forall|q: int|
                    0 <= q < i ==> (#[trigger] statement_paths@[q])@ == spec_join(
                        day.subconfig@[q].path@,
                        "statement.md"@,
                    ),
            decreases n - i,
        {
            statement_paths.push(join_path(day.subconfig[i].path.as_str(), "statement.md"));
            i = i + 1;
        }
        let manifest = generate_data_json(contest, day);
        let first = RenderAction::ProbeDir(day_out_dir.clone());
        let m = RenderMachine {
            day_name: day.name.clone(),
            day_out_dir,
            staging_dir,
            template_dir: String::from_str(template_dir),
            statement_paths,
            precaution_path: join_path(contest.path.as_str(), "precaution.md"),
            manifest: Some(manifest),
            pc: RenderPc::ProbeDayDir,
        };
        (m, first)
    }

    /// Advances the pipeline by one reported outcome and returns the
    /// next request, or nothing when the machine reached a terminal
    /// state.  The exact behavior is [`spec_transition`].
    pub fn step(&mut self, ev: RenderEvent) -> (a: Option<RenderAction>)
        requires
            old(self).wf(),
            !old(self).finished(),
            old(self).event_matches(ev),
        ensures
            final(self).wf(),
            spec_transition(*old(self), ev, *final(self), a),
    {
        match &self.pc {
            RenderPc::ProbeDayDir => match ev {
                RenderEvent::Exists(true) => {
                    self.pc = RenderPc::ProbeStaging;
                    Some(RenderAction::ProbeDir(self.staging_dir.clone()))
                },
                RenderEvent::Exists(false) => {
                    self.pc = RenderPc::CreateDayDir;
                    Some(RenderAction::CreateDir(self.day_out_dir.clone()))
                },
                _ => {
                    proof {
                        assert(false);
                    }
                    None
                },
            },
            RenderPc::CreateDayDir => match ev {
                RenderEvent::Completed => {
                    self.pc = RenderPc::ProbeStaging;
                    Some(RenderAction::ProbeDir(self.staging_dir.clone()))
                },
                _ => {
                    self.pc = RenderPc::Failed(ContestError::FilesystemError);
                    None
                },
            },
            RenderPc::ProbeStaging => match ev {
                RenderEvent::Exists(true) => {
                    self.pc = RenderPc::ClearStaging;
                    Some(RenderAction::RemoveDirAll(self.staging_dir.clone()))
                },
                RenderEvent::Exists(false) => {
                    self.pc = RenderPc::CreateStaging;
                    Some(RenderAction::CreateDir(self.staging_dir.clone()))
                },
                _ => {
                    proof {
                        assert(false);
                    }
                    None
                },
            },
            RenderPc::ClearStaging => match ev {
                RenderEvent::Completed => {
                    self.pc = RenderPc::CreateStaging;
                    Some(RenderAction::CreateDir(self.staging_dir.clone()))
                },
                _ => {
                    self.pc = RenderPc::Failed(ContestError::FilesystemError);
                    None
                },
            },
            RenderPc::CreateStaging => match ev {
                RenderEvent::Completed => {
                    self.pc = RenderPc::SeedTemplate;
                    Some(
                        RenderAction::CopyTree(
                            self.template_dir.clone(),
                            self.staging_dir.clone(),
                        ),
                    )
                },
                _ => {
                    self.pc = RenderPc::Failed(ContestError::FilesystemError);
                    None
                },
            },
            RenderPc::SeedTemplate => match ev {
                RenderEvent::Completed => {
                    self.pc = RenderPc::WriteManifestFile;
                    let mj = self.manifest.take().unwrap();
                    Some(
                        RenderAction::WriteManifest(
                            join_path(self.staging_dir.as_str(), "data.json"),
                            mj,
                        ),
                    )
                },
                _ => {
                    self.pc = RenderPc::Failed(ContestError::FilesystemError);
                    None
                },
            },
            RenderPc::WriteManifestFile => match ev {
                RenderEvent::Completed => {
                    if self.statement_paths.len() > 0 {
                        self.pc = RenderPc::ProbeStatement(0);
                        Some(RenderAction::ProbeFile(self.statement_paths[0].clone()))
                    } else {
                        self.pc = RenderPc::ProbeNotice;
                        Some(RenderAction::ProbeFile(self.precaution_path.clone()))
                    }
                },
                _ => {
                    self.pc = RenderPc::Failed(ContestError::FilesystemError);
                    None
                },
            },
            RenderPc::ProbeStatement(i) => {
                let i = *i;
                match ev {
                    RenderEvent::Exists(true) => {
                        self.pc = RenderPc::ReadStatement(i);
                        Some(RenderAction::ReadFile(self.statement_paths[i].clone()))
                    },
                    RenderEvent::Exists(false) => {
                        self.pc = RenderPc::Failed(ContestError::StatementMissing(i));
                        None
                    },
                    _ => {
                        proof {
                            assert(false);
                        }
                        None
                    },
                }
            },
            RenderPc::ReadStatement(i) => {
                let i = *i;
                match ev {
                    RenderEvent::Content(text) => match convert_document(text.as_str()) {
                        Some(converted) => {
                            self.pc = RenderPc::WriteStatement(i);
                            let mut fname = String::from_str("problem-");
                            fname.append(u64_to_dec(i as u64).as_str());
                            fname.append(".typ");
                            proof {
                                assert(fname@ =~= spec_statement_filename(i as int));
                            }
                            Some(
                                RenderAction::WriteFile(
                                    join_path(self.staging_dir.as_str(), fname.as_str()),
                                    converted,
                                ),
                            )
                        },
                        None => {
                            self.pc = RenderPc::Failed(ContestError::StatementParseError(i));
                            None
                        },
                    },
                    _ => {
                        self.pc = RenderPc::Failed(ContestError::FilesystemError);
                        None
                    },
                }
            },
            RenderPc::WriteStatement(i) => {
                let i = *i;
                let nlen = self.statement_paths.len();
                proof {
                    assert(i < nlen);
                }
                match ev {
                    RenderEvent::Completed => {
                        if i + 1 < nlen {
                            self.pc = RenderPc::ProbeStatement(i + 1);
                            Some(RenderAction::ProbeFile(self.statement_paths[i + 1].clone()))
                        } else {
                            self.pc = RenderPc::ProbeNotice;
                            Some(RenderAction::ProbeFile(self.precaution_path.clone()))
                        }
                    },
                    _ => {
                        self.pc = RenderPc::Failed(ContestError::FilesystemError);
                        None
                    },
                }
            },
            RenderPc::ProbeNotice => match ev {
                RenderEvent::Exists(true) => {
                    self.pc = RenderPc::ReadNotice;
                    Some(RenderAction::ReadFile(self.precaution_path.clone()))
                },
                RenderEvent::Exists(false) => {
                    self.pc = RenderPc::Compile;
                    Some(self.make_compile_action())
                },
                _ => {
                    proof {
                        assert(false);
                    }
                    None
                },
            },
            RenderPc::ReadNotice => match ev {
                RenderEvent::Content(text) => match convert_document(text.as_str()) {
                    Some(converted) => {
                        self.pc = RenderPc::WriteNotice;
                        Some(
                            RenderAction::WriteFile(
                                join_path(self.staging_dir.as_str(), "precaution.typ"),
                                converted,
                            ),
                        )
                    },
                    None => {
                        self.pc = RenderPc::Compile;
                        Some(self.make_compile_action())
                    },
                },
                _ => {
                    self.pc = RenderPc::Failed(ContestError::FilesystemError);
                    None
                },
            },
            RenderPc::WriteNotice => match ev {
                RenderEvent::Completed => {
                    self.pc = RenderPc::Compile;
                    Some(self.make_compile_action())
                },
                _ => {
                    self.pc = RenderPc::Failed(ContestError::FilesystemError);
                    None
                },
            },
            RenderPc::Compile => match ev {
                RenderEvent::Compiled(success, stderr) => {
                    if success {
                        self.pc = RenderPc::Promote;
                        let artifact = concat2(self.day_name.as_str(), ".pdf");
                        Some(
                            RenderAction::CopyFile(
                                join_path(self.staging_dir.as_str(), artifact.as_str()),
                                join_path(self.day_out_dir.as_str(), artifact.as_str()),
                            ),
                        )
                    } else {
                        self.pc = RenderPc::Failed(ContestError::CompileFailure(stderr));
                        None
                    }
                },
                _ => {
                    self.pc = RenderPc::Failed(ContestError::FilesystemError);
                    None
                },
            },
            RenderPc::Promote => match ev {
                RenderEvent::Completed => {
                    self.pc = RenderPc::Cleanup;
                    Some(RenderAction::RemoveDirAll(self.staging_dir.clone()))
                },
                _ => {
                    self.pc = RenderPc::Failed(ContestError::FilesystemError);
                    None
                },
            },
            RenderPc::Cleanup => match ev {
                RenderEvent::Completed => {
                    self.pc = RenderPc::Done;
                    None
                },
                _ => {
                    self.pc = RenderPc::Failed(ContestError::FilesystemError);
                    None
                },
            },
            RenderPc::Done => {
                proof {
                    assert(false);
                }
                None
            },
            RenderPc::Failed(_) => {
                proof {
                    assert(false);
                }
                None
            },
        }
    }

    /// Builds this machine's compiler invocation.
    fn make_compile_action(&self) -> (a: RenderAction)
        ensures
            compile_action(*self, Some(a)),
    {
        RenderAction::RunCompiler {
            dir: self.staging_dir.clone(),
            entry: String::from_str("main.typ"),
            output: concat2(self.day_name.as_str(), ".pdf"),
        }
    }
}

/// Law: a staging directory that already exists before a render
/// attempt is removed, and the directory is then created afresh; stale
/// content is never merged into a new build.
pub proof fn lemma_stale_staging_cleared(
    m0: RenderMachine,
    m1: RenderMachine,
    a1: Option<RenderAction>,
    m2: RenderMachine,
    a2: Option<RenderAction>,
)
    requires
        m0.pc == RenderPc::ProbeStaging,
        spec_transition(m0, RenderEvent::Exists(true), m1, a1),
        spec_transition(m1, RenderEvent::Completed, m2, a2),
    ensures
        a1 matches Some(RenderAction::RemoveDirAll(p)) && p@ == m0.staging_dir@,
        m1.pc == RenderPc::ClearStaging,
        a2 matches Some(RenderAction::CreateDir(p)) && p@ == m0.staging_dir@,
        m2.pc == RenderPc::CreateStaging,
{
}

/// Law: a compiler exit with non-zero status is terminal; the machine
/// carries the captured standard-error text verbatim in its error and
/// issues no further request — in particular it never asks for the
/// staging directory to be removed, so the staged build survives for
/// inspection.
pub proof fn lemma_compile_failure_is_preserved(
    m0: RenderMachine,
    stderr: String,
    m1: RenderMachine,
    a: Option<RenderAction>,
)
    requires
        m0.pc == RenderPc::Compile,
        spec_transition(m0, RenderEvent::Compiled(false, stderr), m1, a),
    ensures
        m1.pc == RenderPc::Failed(ContestError::CompileFailure(stderr)),
        a is None,
        m1.finished(),
{
}

/// Law: a compiler exit with status zero promotes the named artifact
/// from staging into the permanent per-day output directory, and only
/// after that copy completes is the staging directory removed; the run
/// then finishes successfully.
pub proof fn lemma_compile_success_promotes(
    m0: RenderMachine,
    stderr: String,
    m1: RenderMachine,
    a1: Option<RenderAction>,
    m2: RenderMachine,
    a2: Option<RenderAction>,
    m3: RenderMachine,
    a3: Option<RenderAction>,
)
    requires
        m0.pc == RenderPc::Compile,
        spec_transition(m0, RenderEvent::Compiled(true, stderr), m1, a1),
        spec_transition(m1, RenderEvent::Completed, m2, a2),
        spec_transition(m2, RenderEvent::Completed, m3, a3),
    ensures
        a1 matches Some(RenderAction::CopyFile(src, dst)) && src@ == spec_join(
            m0.staging_dir@,
            spec_artifact_name(m0.day_name@),
        ) && dst@ == spec_join(m0.day_out_dir@, spec_artifact_name(m0.day_name@)),
        m1.pc == RenderPc::Promote,
        a2 matches Some(RenderAction::RemoveDirAll(p)) && p@ == m0.staging_dir@,
        m2.pc == RenderPc::Cleanup,
        m3.pc == RenderPc::Done,
        a3 is None,
{
}

} // verus!
