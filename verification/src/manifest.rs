//! The flat, template-facing manifest derived from one resolved
//! contest day: humanized problem types, formatted limits, scored test
//! group counts, and the declared supported languages.  Building the
//! manifest is pure and total: it never fails, whatever the records
//! hold.

use vstd::prelude::*;
use vstd::string::StringExecFns;

use crate::config::{ContestConfig, ContestDayConfig, ProblemConfig};
use crate::strutil::{concat2, digit_str, spec_dec, spec_digit, u64_to_dec};

verus! {

/// One problem as the manifest presents it to the template layer.
#[derive(Debug)]
pub struct Problem {
    pub name: String,
    pub title: String,
    pub problem_type: String,
    pub dir: String,
    pub exec_name: String,
    pub input: String,
    pub output: String,
    pub time_limit: String,
    pub memory_limit: String,
    pub testcase: String,
    pub point_equal: String,
    pub submit_filename: Vec<String>,
}

/// One declared supported language with its compile invocation.
#[derive(Debug)]
pub struct SupportLanguage {
    pub name: String,
    pub compile_options: String,
}

/// The day's start and end timestamps, each with six components from
/// year down to second.
#[derive(Debug, Clone, Copy)]
pub struct DateInfo {
    pub start: [u32; 6],
    pub end: [u32; 6],
}

/// The three presentation flags a template receives, with their
/// built-in defaults.
#[derive(Debug, Clone, Copy, PartialEq, Eq, Structural)]
pub struct TemplateManifest {
    pub use_pretest: bool,
    pub noi_style: bool,
    pub file_io: bool,
}

/// The built-in default of the use-pretest presentation flag.
pub fn default_use_pretest() -> (r: bool)
    ensures
        r == false,
{
    false
}

/// The built-in default of the noi-style presentation flag.
pub fn default_noi_style() -> (r: bool)
    ensures
        r == true,
{
    true
}

/// The built-in default of the file-io presentation flag.
pub fn default_file_io() -> (r: bool)
    ensures
        r == true,
{
    true
}

/// The manifest for one contest day, consumed by the template layer.
#[derive(Debug)]
pub struct DataJson {
    pub title: String,
    pub subtitle: String,
    pub dayname: String,
    pub date: DateInfo,
    pub use_pretest: bool,
    pub noi_style: bool,
    pub file_io: bool,
    pub support_languages: Vec<SupportLanguage>,
    pub problems: Vec<Problem>,
    pub images: Vec<String>,
}

/// The humanized display label of a problem-type tag.  The closed set
/// of recognized tags maps to its labels; every other tag gets the
/// default label of an ordinary program problem.
pub open spec fn spec_humanized_type(t: Seq<char>) -> Seq<char> {
    if t == "output"@ {
        "提交答案型"@
    } else if t == "interactive"@ {
        "交互型"@
    } else {
        "传统型"@
    }
}

/// An unrecognized problem-type tag humanizes to the same default
/// label as the ordinary program tag; no tag is rejected.
pub proof fn lemma_unknown_type_gets_default(t: Seq<char>)
    requires
        t != "program"@,
        t != "output"@,
        t != "interactive"@,
    ensures
        spec_humanized_type(t) == "传统型"@,
{
}

/// Maps a problem-type tag to its display label; an unrecognized tag
/// yields the default label and never fails the build.
pub fn humanize_problem_type(t: &String) -> (r: String)
    ensures
        r@ == spec_humanized_type(t@),
{
    let output = String::from_str("output");
    let interactive = String::from_str("interactive");
    if *t == output {
        String::from_str("提交答案型")
    } else if *t == interactive {
        String::from_str("交互型")
    } else {
        String::from_str("传统型")
    }
}

/// The display text of a time limit held in tenths of a second: the
/// whole seconds, one fractional digit, and the fixed unit suffix.
pub open spec fn spec_time_limit_text(tenths: int) -> Seq<char> {
    spec_dec(tenths / 10) + "."@ + seq![spec_digit(tenths % 10)] + " 秒"@
}

/// Formats a time limit of `tenths` tenths of a second for display.
pub fn format_time_limit(tenths: u64) -> (r: String)
    ensures
        r@ == spec_time_limit_text(tenths as int),
{
    let mut s = u64_to_dec(tenths / 10);
    s.append(".");
    s.append(digit_str(tenths % 10));
    s.append(" 秒");
    proof {
        assert(s@ =~= spec_time_limit_text(tenths as int));
    }
    s
}

/// The resolved value of one presentation flag: the day's override when
/// present, else the contest's, else the built-in default.
pub open spec fn spec_resolve_flag(day: Option<bool>, contest: Option<bool>, dflt: bool) -> bool {
    match day {
        Some(b) => b,
        None => match contest {
            Some(b) => b,
            None => dflt,
        },
    }
}

/// Resolves one presentation flag through the override chain: day
/// record over contest record over built-in default.
pub fn resolve_flag(day: Option<bool>, contest: Option<bool>, dflt: bool) -> (r: bool)
    ensures
        r == spec_resolve_flag(day, contest, dflt),
{
    match day {
        Some(b) => b,
        None => match contest {
            Some(b) => b,
            None => dflt,
        },
    }
}

/// Resolves the three presentation flags a template receives, each
/// through the override chain: the day record's value when present,
/// else the contest record's, else the built-in default.
pub fn resolve_template_flags(c: &ContestConfig, d: &ContestDayConfig) -> (r: TemplateManifest)
    ensures
        r.use_pretest == spec_resolve_flag(d.use_pretest, c.use_pretest, false),
        r.noi_style == spec_resolve_flag(d.noi_style, c.noi_style, true),
        r.file_io == spec_resolve_flag(d.file_io, c.file_io, true),
{
    TemplateManifest {
        use_pretest: resolve_flag(d.use_pretest, c.use_pretest, default_use_pretest()),
        noi_style: resolve_flag(d.noi_style, c.noi_style, default_noi_style()),
        file_io: resolve_flag(d.file_io, c.file_io, default_file_io()),
    }
}

/// One manifest problem entry against its resolved problem record.
pub open spec fn problem_entry_ok(p: Problem, pc: ProblemConfig) -> bool {
    &&& p.name == pc.name
    &&& p.title == pc.title
    &&& p.problem_type@ == spec_humanized_type(pc.problem_type@)
    &&& p.dir == pc.name
    &&& p.exec_name == pc.name
    &&& p.input@ == pc.name@ + ".in"@
    &&& p.output@ == pc.name@ + ".out"@
    &&& p.time_limit@ == spec_time_limit_text(pc.time_limit_tenths as int)
    &&& p.memory_limit == pc.memory_limit
    &&& p.testcase@ == spec_dec(pc.data@.len() as int)
    &&& p.point_equal@ == "是"@
    &&& p.submit_filename@.len() == 1
    &&& p.submit_filename@[0]@ == pc.name@ + ".cpp"@
}

/// The whole manifest against the resolved contest and day: titles and
/// dates copied, the three presentation flags resolved through the
/// override chain, exactly one declared language taken from the day's
/// compile configuration, and one problem entry per resolved problem,
/// in the same order.
pub open spec fn manifest_ok(m: DataJson, c: ContestConfig, d: ContestDayConfig) -> bool {
    &&& m.title == c.title
    &&& m.subtitle == c.short_title
    &&& m.dayname == d.title
    &&& m.date.start == d.start_time
    &&& m.date.end == d.end_time
    &&& m.use_pretest == spec_resolve_flag(d.use_pretest, c.use_pretest, false)
    &&& m.noi_style == spec_resolve_flag(d.noi_style, c.noi_style, true)
    &&& m.file_io == spec_resolve_flag(d.file_io, c.file_io, true)
    &&& m.support_languages@.len() == 1
    &&& m.support_languages@[0].name@ == "C++"@
    &&& m.support_languages@[0].compile_options == d.compile.cpp
    &&& m.problems@.len() == d.subconfig@.len()
    &&& forall|i: int|
        0 <= i < d.subconfig@.len() ==> problem_entry_ok(#[trigger] m.problems@[i], d.subconfig@[i])
    &&& m.images@.len() == 0
}

/// Builds the manifest entry of one resolved problem.
fn build_problem_entry(pc: &ProblemConfig) -> (r: Problem)
    ensures
        problem_entry_ok(r, *pc),
{
    let mut submit_filename: Vec<String> = Vec::new();
    submit_filename.push(concat2(pc.name.as_str(), ".cpp"));
    let ndata: u64 = pc.data.len() as u64;
    let r = Problem {
        name: pc.name.clone(),
        title: pc.title.clone(),
        problem_type: humanize_problem_type(&pc.problem_type),
        dir: pc.name.clone(),
        exec_name: pc.name.clone(),
        input: concat2(pc.name.as_str(), ".in"),
        output: concat2(pc.name.as_str(), ".out"),
        time_limit: format_time_limit(pc.time_limit_tenths),
        memory_limit: pc.memory_limit.clone(),
        testcase: u64_to_dec(ndata),
        point_equal: String::from_str("是"),
        submit_filename,
    };
    r
}

/// Projects one resolved contest day into its flat manifest.  Pure and
/// total: every problem contributes exactly one entry, in declared
/// order, and an unrecognized problem type never fails the build.
pub fn generate_data_json(contest: &ContestConfig, day: &ContestDayConfig) -> (r: DataJson)
    ensures
        manifest_ok(r, *contest, *day),
{
    let mut problems: Vec<Problem> = Vec::new();
    let n = day.subconfig.len();
    let mut i: usize = 0;
    while i < n
        invariant
            0 <= i <= n,
            n == day.subconfig@.len(),
            problems@.len() == i,
            forall|q: int|
                0 <= q < i ==> problem_entry_ok(#[trigger] problems@[q], day.subconfig@[q]),
        decreases n - i,
    {
        problems.push(build_problem_entry(&day.subconfig[i]));
        i = i + 1;
    }
    let flags = resolve_template_flags(contest, day);
    let mut support_languages: Vec<SupportLanguage> = Vec::new();
    support_languages.push(
        SupportLanguage {
            name: String::from_str("C++"),
            compile_options: day.compile.cpp.clone(),
        },
    );
    DataJson {
        title: contest.title.clone(),
        subtitle: contest.short_title.clone(),
        dayname: day.title.clone(),
        date: DateInfo { start: day.start_time, end: day.end_time },
        use_pretest: flags.use_pretest,
        noi_style: flags.noi_style,
        file_io: flags.file_io,
        support_languages,
        problems,
        images: Vec::new(),
    }
}

} // verus!
