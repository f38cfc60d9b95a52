//! The hierarchical configuration model: contest, contest day and
//! problem records, the default filling of sample and data filenames,
//! the upward search for the contest root, and the assembly of the
//! resolved three-level tree from the records read off disk.

use vstd::prelude::*;
use vstd::string::StringExecFns;

use crate::errors::{ConfigLoc, ContestError};
use crate::strutil::{join_path, spec_dec, spec_join, u64_to_dec, concat2};

verus! {

/// The lowest schema version this crate accepts; records tagged with an
/// older version belong to an unsupported legacy format and are
/// rejected, never migrated.
pub const MIN_CONFIG_VERSION: u64 = 3;

/// One sample test of a problem: its identifier and optional input and
/// output filenames, defaulted by [`SampleItem::finalize`] when absent.
#[derive(Debug, Clone)]
pub struct SampleItem {
    pub id: u32,
    pub input: Option<String>,
    pub output: Option<String>,
}

/// One scored test group of a problem: identifier, score, and optional
/// input and output filenames, defaulted by [`DataItem::finalize`].
#[derive(Debug, Clone)]
pub struct DataItem {
    pub id: u32,
    pub score: u32,
    pub input: Option<String>,
    pub output: Option<String>,
}

/// The character sequence of an optional filename field.
pub open spec fn opt_view(o: Option<String>) -> Option<Seq<char>> {
    match o {
        Some(s) => Some(s@),
        None => None,
    }
}

/// What a filename field holds after defaulting: the declared name when
/// one is present and non-empty, else the identifier rendered in
/// decimal followed by the fixed extension.
pub open spec fn spec_final_name(cur: Option<Seq<char>>, id: int, ext: Seq<char>) -> Seq<char> {
    match cur {
        Some(s) => if s.len() > 0 {
            s
        } else {
            spec_dec(id) + ext
        },
        None => spec_dec(id) + ext,
    }
}

/// A decimal rendering is never empty.
pub proof fn lemma_spec_dec_nonempty(n: int)
    ensures
        spec_dec(n).len() >= 1,
    decreases n,
{
    if n >= 10 {
        lemma_spec_dec_nonempty(n / 10);
    }
}

/// Defaulting a filename is idempotent: applying the default rule to a
/// field that already went through it changes nothing.
pub proof fn lemma_final_name_idempotent(cur: Option<Seq<char>>, id: int, ext: Seq<char>)
    requires
        ext.len() > 0,
    ensures
        spec_final_name(Some(spec_final_name(cur, id, ext)), id, ext) == spec_final_name(
            cur,
            id,
            ext,
        ),
{
    lemma_spec_dec_nonempty(id);
}

/// Computes the defaulted value of one filename field.
fn finalize_name(cur: Option<String>, id: u32, ext: &str) -> (r: String)
    ensures
        r@ == spec_final_name(opt_view(cur), id as int, ext@),
{
    match cur {
        Some(s) => {
            if s.as_str().unicode_len() > 0 {
                s
            } else {
                let d = u64_to_dec(id as u64);
                let r = concat2(d.as_str(), ext);
                proof {
                    assert(r@ =~= spec_final_name(opt_view(Some(s)), id as int, ext@));
                }
                r
            }
        },
        None => {
            let d = u64_to_dec(id as u64);
            let r = concat2(d.as_str(), ext);
            proof {
                assert(r@ =~= spec_final_name(opt_view(None::<String>), id as int, ext@));
            }
            r
        },
    }
}

/// The defaulted filenames of a sample item: `"<id>.in"` / `"<id>.ans"`
/// when the declared name is absent or empty, else the declared name.
pub open spec fn sample_finalized(r: SampleItem, s: SampleItem) -> bool {
    &&& r.id == s.id
    &&& r.input matches Some(x) && x@ == spec_final_name(opt_view(s.input), s.id as int, ".in"@)
    &&& r.output matches Some(y) && y@ == spec_final_name(opt_view(s.output), s.id as int, ".ans"@)
}

/// The defaulted filenames of a data item, same rule as for samples,
/// with the identifier and score kept.
pub open spec fn data_finalized(r: DataItem, d: DataItem) -> bool {
    &&& r.id == d.id
    &&& r.score == d.score
    &&& r.input matches Some(x) && x@ == spec_final_name(opt_view(d.input), d.id as int, ".in"@)
    &&& r.output matches Some(y) && y@ == spec_final_name(opt_view(d.output), d.id as int, ".ans"@)
}

impl SampleItem {
    /// Fills absent or empty input/output filenames with the defaults
    /// derived from the identifier.  Idempotent: see
    /// [`lemma_final_name_idempotent`].
    pub fn finalize(self) -> (r: Self)
        ensures
            sample_finalized(r, self),
    {
        let id = self.id;
        let input = finalize_name(self.input, id, ".in");
        let output = finalize_name(self.output, id, ".ans");
        SampleItem { id, input: Some(input), output: Some(output) }
    }
}

impl DataItem {
    /// Fills absent or empty input/output filenames with the defaults
    /// derived from the identifier.  Idempotent: see
    /// [`lemma_final_name_idempotent`].
    pub fn finalize(self) -> (r: Self)
        ensures
            data_finalized(r, self),
    {
        let id = self.id;
        let input = finalize_name(self.input, id, ".in");
        let output = finalize_name(self.output, id, ".ans");
        DataItem { id, score: self.score, input: Some(input), output: Some(output) }
    }
}

/// Re-finalizing an already finalized sample item keeps every field:
/// the defaulting pass is a no-op on its own output.
pub proof fn lemma_sample_finalize_idempotent(r2: SampleItem, r1: SampleItem, s: SampleItem)
    requires
        sample_finalized(r1, s),
        sample_finalized(r2, r1),
    ensures
        r2.id == r1.id,
        opt_view(r2.input) == opt_view(r1.input),
        opt_view(r2.output) == opt_view(r1.output),
{
    reveal_strlit(".in");
    reveal_strlit(".ans");
    lemma_final_name_idempotent(opt_view(s.input), s.id as int, ".in"@);
    lemma_final_name_idempotent(opt_view(s.output), s.id as int, ".ans"@);
}

/// Re-finalizing an already finalized data item keeps every field.
pub proof fn lemma_data_finalize_idempotent(r2: DataItem, r1: DataItem, d: DataItem)
    requires
        data_finalized(r1, d),
        data_finalized(r2, r1),
    ensures
        r2.id == r1.id,
        r2.score == r1.score,
        opt_view(r2.input) == opt_view(r1.input),
        opt_view(r2.output) == opt_view(r1.output),
{
    reveal_strlit(".in");
    reveal_strlit(".ans");
    lemma_final_name_idempotent(opt_view(d.input), d.id as int, ".in"@);
    lemma_final_name_idempotent(opt_view(d.output), d.id as int, ".ans"@);
}

/// The language-to-invocation mapping of one contest day.
#[derive(Debug, Clone)]
pub struct CompileConfig {
    pub cpp: String,
    pub c: String,
}

/// The contest-root record as it stands in its configuration file.
#[derive(Debug)]
pub struct ContestFile {
    pub version: u32,
    pub folder: String,
    pub name: String,
    pub subdir: Vec<String>,
    pub title: String,
    pub short_title: String,
    pub use_pretest: Option<bool>,
    pub noi_style: Option<bool>,
    pub file_io: Option<bool>,
}

/// A contest-day record as it stands in its configuration file.
#[derive(Debug)]
pub struct DayFile {
    pub version: u32,
    pub folder: String,
    pub name: String,
    pub subdir: Vec<String>,
    pub title: String,
    pub compile: CompileConfig,
    pub start_time: [u32; 6],
    pub end_time: [u32; 6],
    pub use_pretest: Option<bool>,
    pub noi_style: Option<bool>,
    pub file_io: Option<bool>,
}

/// A problem record as it stands in its configuration file.  The time
/// limit is held in tenths of a second, the granularity at which it is
/// displayed.
#[derive(Debug)]
pub struct ProblemFile {
    pub version: u32,
    pub folder: String,
    pub problem_type: String,
    pub name: String,
    pub title: String,
    pub time_limit_tenths: u64,
    pub memory_limit: String,
    pub partial_score: bool,
    pub samples: Vec<SampleItem>,
    pub data: Vec<DataItem>,
}

/// The resolved contest tree: the root record, the directory it was
/// loaded from, and its day children in declared order.
#[derive(Debug)]
pub struct ContestConfig {
    pub version: u32,
    pub folder: String,
    pub name: String,
    pub subdir: Vec<String>,
    pub title: String,
    pub short_title: String,
    pub use_pretest: Option<bool>,
    pub noi_style: Option<bool>,
    pub file_io: Option<bool>,
    pub subconfig: Vec<ContestDayConfig>,
    pub path: String,
}

/// One resolved contest day: its record, its own directory, and its
/// problem children in declared order.
#[derive(Debug)]
pub struct ContestDayConfig {
    pub version: u32,
    pub folder: String,
    pub name: String,
    pub subdir: Vec<String>,
    pub title: String,
    pub compile: CompileConfig,
    pub start_time: [u32; 6],
    pub end_time: [u32; 6],
    pub use_pretest: Option<bool>,
    pub noi_style: Option<bool>,
    pub file_io: Option<bool>,
    pub subconfig: Vec<ProblemConfig>,
    pub path: String,
}

/// One resolved problem: its record with defaulted sample and data
/// filenames, and its own directory.
#[derive(Debug)]
pub struct ProblemConfig {
    pub version: u32,
    pub folder: String,
    pub problem_type: String,
    pub name: String,
    pub title: String,
    pub time_limit_tenths: u64,
    pub memory_limit: String,
    pub partial_score: bool,
    pub path: String,
    pub samples: Vec<SampleItem>,
    pub data: Vec<DataItem>,
}

/// What reading and parsing one configuration file yielded.  `Json`
/// carries the version field as generic structured data showed it, and
/// the typed record when the file also deserializes to the expected
/// shape.
#[derive(Debug)]
pub enum ConfFile<T> {
    Missing,
    Unreadable,
    NotJson,
    Json { version: Option<u64>, record: Option<T> },
}

/// The two fields that decide whether a configuration file marks a
/// contest root, read as generic structured data.
#[derive(Debug)]
pub struct ConfProbe {
    pub version: Option<u64>,
    pub folder: Option<String>,
}

/// What probing one directory for a configuration file yielded.
#[derive(Debug)]
pub enum ProbeOutcome {
    NoFile,
    Unreadable,
    NotJson,
    Json(ConfProbe),
}

/// How the upward walk reacts to what one directory holds.
#[derive(Debug, Clone, Copy, PartialEq, Eq, Structural)]
pub enum ProbeClass {
    /// The directory is the contest root: stop here.
    IsRoot,
    /// No decisive file here: ascend to the parent directory.
    Ascend,
    /// A configuration file of an unsupported legacy version: abort.
    TooOld,
    /// A configuration file that could not be read: abort.
    Unreadable,
    /// A file that is not valid structured data: abort.
    Malformed,
}

/// The classification of one probed directory: a missing file or one
/// without a version field (or with a non-root folder tag) lets the
/// walk ascend; a version below the minimum, an unreadable file, or
/// malformed data each abort the whole search.
pub open spec fn spec_classify(p: ProbeOutcome) -> ProbeClass {
    match p {
        ProbeOutcome::NoFile => ProbeClass::Ascend,
        ProbeOutcome::Unreadable => ProbeClass::Unreadable,
        ProbeOutcome::NotJson => ProbeClass::Malformed,
        ProbeOutcome::Json(probe) => match probe.version {
            None => ProbeClass::Ascend,
            Some(v) => if v < MIN_CONFIG_VERSION {
                ProbeClass::TooOld
            } else {
                match probe.folder {
                    Some(f) => if f@ == "contest"@ {
                        ProbeClass::IsRoot
                    } else {
                        ProbeClass::Ascend
                    },
                    None => ProbeClass::Ascend,
                }
            },
        },
    }
}

/// Decides, for one directory of the upward walk, whether it is the
/// contest root, whether the walk continues to the parent, or whether
/// the search aborts.
pub fn classify_probe(p: &ProbeOutcome) -> (r: ProbeClass)
    ensures
        r == spec_classify(*p),
{
    match p {
        ProbeOutcome::NoFile => ProbeClass::Ascend,
        ProbeOutcome::Unreadable => ProbeClass::Unreadable,
        ProbeOutcome::NotJson => ProbeClass::Malformed,
        ProbeOutcome::Json(probe) => match probe.version {
            None => ProbeClass::Ascend,
            Some(v) => if v < MIN_CONFIG_VERSION {
                ProbeClass::TooOld
            } else {
                match &probe.folder {
                    Some(f) => {
                        let contest = String::from_str("contest");
                        if *f == contest {
                            ProbeClass::IsRoot
                        } else {
                            ProbeClass::Ascend
                        }
                    },
                    None => ProbeClass::Ascend,
                }
            },
        },
    }
}

/// Where the upward walk ends when probing the chain from position `i`
/// on: the index of the first contest root, or the error of the first
/// aborting directory, or `ConfigNotFound` when the chain is exhausted.
pub open spec fn spec_locate_from(chain: Seq<ProbeOutcome>, i: int) -> Result<int, ContestError>
    decreases chain.len() - i,
{
    if i < 0 || i >= chain.len() {
        Err(ContestError::ConfigNotFound)
    } else {
        match spec_classify(chain[i]) {
            ProbeClass::IsRoot => Ok(i),
            ProbeClass::Ascend => spec_locate_from(chain, i + 1),
            ProbeClass::TooOld => Err(ContestError::ConfigVersionTooOld),
            ProbeClass::Unreadable => Err(ContestError::ConfigIoError(ConfigLoc::Walk(i as usize))),
            ProbeClass::Malformed => Err(
                ContestError::ConfigParseError(ConfigLoc::Walk(i as usize)),
            ),
        }
    }
}

/// Where the upward walk over the whole chain ends.
pub open spec fn spec_locate(chain: Seq<ProbeOutcome>) -> Result<int, ContestError> {
    spec_locate_from(chain, 0)
}

/// Finds the contest root along a chain of probed directories, ordered
/// from the starting directory upward to the filesystem root: the
/// nearest directory whose configuration file has a supported version
/// and the contest folder tag.  A too-old configuration file found
/// below the root aborts the whole search with `ConfigVersionTooOld`.
pub fn locate_root(chain: &Vec<ProbeOutcome>) -> (r: Result<usize, ContestError>)
    ensures
        match r {
            Ok(i) => spec_locate(chain@) == Ok::<int, ContestError>(i as int),
            Err(e) => spec_locate(chain@) == Err::<int, ContestError>(e),
        },
{
    let n = chain.len();
    let mut i: usize = 0;
    while i < n
        invariant
            0 <= i <= n,
            n == chain@.len(),
            spec_locate(chain@) == spec_locate_from(chain@, i as int),
        decreases n - i,
    {
        match classify_probe(&chain[i]) {
            ProbeClass::IsRoot => {
                return Ok(i);
            },
            ProbeClass::Ascend => {
                i = i + 1;
            },
            ProbeClass::TooOld => {
                return Err(ContestError::ConfigVersionTooOld);
            },
            ProbeClass::Unreadable => {
                return Err(ContestError::ConfigIoError(ConfigLoc::Walk(i)));
            },
            ProbeClass::Malformed => {
                return Err(ContestError::ConfigParseError(ConfigLoc::Walk(i)));
            },
        }
    }
    Err(ContestError::ConfigNotFound)
}

/// The configuration files that one day folder contributed: the day's
/// own file and, in declared order, the file of each listed problem
/// folder.
#[derive(Debug)]
pub struct DayFiles {
    pub conf: ConfFile<DayFile>,
    pub problems: Vec<ConfFile<ProblemFile>>,
}

/// The error one configuration file contributes, if any: an unreadable
/// or missing file is an I/O error, text that is not structured data is
/// a parse error, a version below the minimum is a version error, and a
/// file whose shape does not match the typed record is a parse error.
/// The version is checked before the record's shape.
pub open spec fn file_err<T>(f: ConfFile<T>, loc: ConfigLoc) -> Option<ContestError> {
    match f {
        ConfFile::Missing => Some(ContestError::ConfigIoError(loc)),
        ConfFile::Unreadable => Some(ContestError::ConfigIoError(loc)),
        ConfFile::NotJson => Some(ContestError::ConfigParseError(loc)),
        ConfFile::Json { version, record } => {
            if version is Some && version->0 < MIN_CONFIG_VERSION {
                Some(ContestError::ConfigVersionTooOld)
            } else if record is None {
                Some(ContestError::ConfigParseError(loc))
            } else {
                None
            }
        },
    }
}

/// The typed record of a file that parsed.
pub open spec fn json_record<T>(f: ConfFile<T>) -> T {
    match f {
        ConfFile::Json { record: Some(r), .. } => r,
        _ => arbitrary(),
    }
}

/// The version field of a file whose generic parse showed one.
pub open spec fn file_version<T>(f: ConfFile<T>) -> u64 {
    match f {
        ConfFile::Json { version: Some(v), .. } => v,
        _ => arbitrary(),
    }
}

/// The first error among a day's problem files from position `j` on,
/// in declared order; a problem folder whose file was not provided
/// counts as missing.
pub open spec fn spec_problems_err(
    probs: Seq<ConfFile<ProblemFile>>,
    nsub: int,
    i: int,
    j: int,
) -> Option<ContestError>
    decreases nsub - j,
{
    if j < 0 || j >= nsub {
        None
    } else {
        let pf = if j < probs.len() {
            probs[j]
        } else {
            ConfFile::Missing
        };
        match file_err(pf, ConfigLoc::Problem(i as usize, j as usize)) {
            Some(e) => Some(e),
            None => spec_problems_err(probs, nsub, i, j + 1),
        }
    }
}

/// The first error among the day records and their problems from day
/// `i` on, in declared order.
pub open spec fn spec_days_err(subdir: Seq<String>, days: Seq<DayFiles>, i: int) -> Option<
    ContestError,
>
    decreases subdir.len() - i,
{
    if i < 0 || i >= subdir.len() {
        None
    } else {
        let df = if i < days.len() {
            days[i].conf
        } else {
            ConfFile::Missing
        };
        match file_err(df, ConfigLoc::Day(i as usize)) {
            Some(e) => Some(e),
            None => {
                let probs = if i < days.len() {
                    days[i].problems@
                } else {
                    Seq::empty()
                };
                match spec_problems_err(probs, json_record(df).subdir@.len() as int, i, 0) {
                    Some(e) => Some(e),
                    None => spec_days_err(subdir, days, i + 1),
                }
            },
        }
    }
}

/// The first error of the whole load, walking root record, then each
/// day in declared order, then each of its problems in declared order;
/// `None` when the load succeeds.
pub open spec fn spec_load_err(root: ConfFile<ContestFile>, days: Seq<DayFiles>) -> Option<
    ContestError,
> {
    match file_err(root, ConfigLoc::Root) {
        Some(e) => Some(e),
        None => spec_days_err(json_record(root).subdir@, days, 0),
    }
}

/// A resolved problem against its on-disk record: every field copied,
/// the directory recorded as the problem's own, and the sample and data
/// filename defaults filled in.
pub open spec fn problem_resolved(p: ProblemConfig, pf: ProblemFile, dir: Seq<char>) -> bool {
    &&& p.version == pf.version
    &&& p.folder == pf.folder
    &&& p.problem_type == pf.problem_type
    &&& p.name == pf.name
    &&& p.title == pf.title
    &&& p.time_limit_tenths == pf.time_limit_tenths
    &&& p.memory_limit == pf.memory_limit
    &&& p.partial_score == pf.partial_score
    &&& p.path@ == dir
    &&& p.samples.len() == pf.samples.len()
    &&& forall|k: int|
        0 <= k < pf.samples.len() ==> sample_finalized(#[trigger] p.samples[k], pf.samples[k])
    &&& p.data.len() == pf.data.len()
    &&& forall|k: int| 0 <= k < pf.data.len() ==> data_finalized(#[trigger] p.data[k], pf.data[k])
}

/// A resolved day against its on-disk record: every field copied, the
/// directory recorded as the day's own, and the problem children
/// resolved in the order the day's folder list declares them.
pub open spec fn day_resolved(
    d: ContestDayConfig,
    df: DayFile,
    probs: Seq<ConfFile<ProblemFile>>,
    dir: Seq<char>,
) -> bool {
    &&& d.version == df.version
    &&& d.folder == df.folder
    &&& d.name == df.name
    &&& d.subdir@ == df.subdir@
    &&& d.title == df.title
    &&& d.compile == df.compile
    &&& d.start_time == df.start_time
    &&& d.end_time == df.end_time
    &&& d.use_pretest == df.use_pretest
    &&& d.noi_style == df.noi_style
    &&& d.file_io == df.file_io
    &&& d.path@ == dir
    &&& d.subconfig.len() == df.subdir.len()
    &&& forall|j: int|
        0 <= j < df.subdir@.len() ==> problem_resolved(
            #[trigger] d.subconfig[j],
            json_record(probs[j]),
            spec_join(dir, df.subdir[j]@),
        )
}

/// The resolved contest tree against the root record and the provided
/// day files: every field copied, the root directory recorded, and the
/// day children resolved in the order the root's folder list declares
/// them — no extra, no missing, no reordering.
pub open spec fn tree_resolved(
    t: ContestConfig,
    rf: ContestFile,
    days: Seq<DayFiles>,
    root_dir: Seq<char>,
) -> bool {
    &&& t.version == rf.version
    &&& t.folder == rf.folder
    &&& t.name == rf.name
    &&& t.subdir@ == rf.subdir@
    &&& t.title == rf.title
    &&& t.short_title == rf.short_title
    &&& t.use_pretest == rf.use_pretest
    &&& t.noi_style == rf.noi_style
    &&& t.file_io == rf.file_io
    &&& t.path@ == root_dir
    &&& t.subconfig.len() == rf.subdir.len()
    &&& forall|i: int|
        0 <= i < rf.subdir@.len() ==> day_resolved(
            #[trigger] t.subconfig[i],
            json_record(days[i].conf),
            days[i].problems@,
            spec_join(root_dir, rf.subdir[i]@),
        )
}

/// A copy of an optional filename field with the same contents.
fn clone_opt_string(o: &Option<String>) -> (r: Option<String>)
    ensures
        r == *o,
{
    match o {
        Some(s) => Some(s.clone()),
        None => None,
    }
}

/// A copy of a folder list with the same entries.
fn clone_string_vec(v: &Vec<String>) -> (r: Vec<String>)
    ensures
        r@ == v@,
{
    let mut r: Vec<String> = Vec::new();
    let n = v.len();
    let mut i: usize = 0;
    while i < n
        invariant
            0 <= i <= n,
            n == v@.len(),
            r@.len() == i,
            forall|k: int| 0 <= k < i ==> r@[k] == v@[k],
        decreases n - i,
    {
        r.push(v[i].clone());
        i = i + 1;
    }
    proof {
        assert(r@ =~= v@);
    }
    r
}

/// A copy of a sample item with the same fields.
fn clone_sample(s: &SampleItem) -> (r: SampleItem)
    ensures
        r == *s,
{
    let r = SampleItem {
        id: s.id,
        input: clone_opt_string(&s.input),
        output: clone_opt_string(&s.output),
    };
    r
}

/// A copy of a data item with the same fields.
fn clone_data(d: &DataItem) -> (r: DataItem)
    ensures
        r == *d,
{
    let r = DataItem {
        id: d.id,
        score: d.score,
        input: clone_opt_string(&d.input),
        output: clone_opt_string(&d.output),
    };
    r
}

/// Resolves one problem record: copies its fields, records its own
/// directory, and fills the default sample and data filenames.
/// A problem after its defaulting pass, against the value before it:
/// every field kept, every sample and data filename defaulted.
pub open spec fn problem_items_finalized(r: ProblemConfig, p: ProblemConfig) -> bool {
    &&& r.version == p.version
    &&& r.folder == p.folder
    &&& r.problem_type == p.problem_type
    &&& r.name == p.name
    &&& r.title == p.title
    &&& r.time_limit_tenths == p.time_limit_tenths
    &&& r.memory_limit == p.memory_limit
    &&& r.partial_score == p.partial_score
    &&& r.path == p.path
    &&& r.samples.len() == p.samples.len()
    &&& forall|k: int|
        0 <= k < p.samples.len() ==> sample_finalized(#[trigger] r.samples[k], p.samples[k])
    &&& r.data.len() == p.data.len()
    &&& forall|k: int| 0 <= k < p.data.len() ==> data_finalized(#[trigger] r.data[k], p.data[k])
}

impl ProblemConfig {
    /// Fills the default sample and data filenames of every item of
    /// the problem, keeping every other field.
    pub fn finalize(self) -> (r: Self)
        ensures
            problem_items_finalized(r, self),
    {
        let mut samples: Vec<SampleItem> = Vec::new();
        let ns = self.samples.len();
        let mut k: usize = 0;
        while k < ns
            invariant
                0 <= k <= ns,
                ns == self.samples@.len(),
                samples@.len() == k,
                forall|q: int|
                    0 <= q < k ==> sample_finalized(#[trigger] samples@[q], self.samples@[q]),
            decreases ns - k,
        {
            samples.push(clone_sample(&self.samples[k]).finalize());
            k = k + 1;
        }
        let mut data: Vec<DataItem> = Vec::new();
        let nd = self.data.len();
        let mut k: usize = 0;
        while k < nd
            invariant
                0 <= k <= nd,
                nd == self.data@.len(),
                data@.len() == k,
                forall|q: int| 0 <= q < k ==> data_finalized(#[trigger] data@[q], self.data@[q]),
            decreases nd - k,
        {
            data.push(clone_data(&self.data[k]).finalize());
            k = k + 1;
        }
        ProblemConfig { samples, data, ..self }
    }
}

fn resolve_problem(pf: &ProblemFile, dir: String) -> (r: ProblemConfig)
    ensures
        problem_resolved(r, *pf, dir@),
{
    let raw = ProblemConfig {
        version: pf.version,
        folder: pf.folder.clone(),
        problem_type: pf.problem_type.clone(),
        name: pf.name.clone(),
        title: pf.title.clone(),
        time_limit_tenths: pf.time_limit_tenths,
        memory_limit: pf.memory_limit.clone(),
        partial_score: pf.partial_score,
        path: dir,
        samples: clone_samples(&pf.samples),
        data: clone_data_items(&pf.data),
    };
    raw.finalize()
}

/// A copy of a sample list with the same items.
fn clone_samples(v: &Vec<SampleItem>) -> (r: Vec<SampleItem>)
    ensures
        r@ == v@,
{
    let mut r: Vec<SampleItem> = Vec::new();
    let n = v.len();
    let mut i: usize = 0;
    while i < n
        invariant
            0 <= i <= n,
            n == v@.len(),
            r@.len() == i,
            forall|k: int| 0 <= k < i ==> r@[k] == v@[k],
        decreases n - i,
    {
        r.push(clone_sample(&v[i]));
        i = i + 1;
    }
    proof {
        assert(r@ =~= v@);
    }
    r
}

/// A copy of a data list with the same items.
fn clone_data_items(v: &Vec<DataItem>) -> (r: Vec<DataItem>)
    ensures
        r@ == v@,
{
    let mut r: Vec<DataItem> = Vec::new();
    let n = v.len();
    let mut i: usize = 0;
    while i < n
        invariant
            0 <= i <= n,
            n == v@.len(),
            r@.len() == i,
            forall|k: int| 0 <= k < i ==> r@[k] == v@[k],
        decreases n - i,
    {
        r.push(clone_data(&v[i]));
        i = i + 1;
    }
    proof {
        assert(r@ =~= v@);
    }
    r
}

/// Resolves one day: validates each listed problem file in order and
/// builds the day's resolved children; the first failing problem file
/// aborts with its error.
fn resolve_day(
    df: &DayFile,
    probs: &Vec<ConfFile<ProblemFile>>,
    dir: String,
    day_idx: usize,
) -> (r: Result<ContestDayConfig, ContestError>)
    ensures
        match r {
            Ok(d) => spec_problems_err(probs@, df.subdir@.len() as int, day_idx as int, 0)
                is None && day_resolved(d, *df, probs@, dir@),
            Err(e) => spec_problems_err(probs@, df.subdir@.len() as int, day_idx as int, 0)
                == Some(e),
        },
{
    let mut subconfig: Vec<ProblemConfig> = Vec::new();
    let n = df.subdir.len();
    let mut j: usize = 0;
    while j < n
        invariant
            0 <= j <= n,
            n == df.subdir@.len(),
            subconfig@.len() == j,
            spec_problems_err(probs@, n as int, day_idx as int, 0) == spec_problems_err(
                probs@,
                n as int,
                day_idx as int,
                j as int,
            ),
            forall|q: int|
                0 <= q < j ==> problem_resolved(
                    #[trigger] subconfig@[q],
                    json_record(probs@[q]),
                    spec_join(dir@, df.subdir@[q]@),
                ),
        decreases n - j,
    {
        if j >= probs.len() {
            return Err(ContestError::ConfigIoError(ConfigLoc::Problem(day_idx, j)));
        }
        match &probs[j] {
            ConfFile::Missing => {
                return Err(ContestError::ConfigIoError(ConfigLoc::Problem(day_idx, j)));
            },
            ConfFile::Unreadable => {
                return Err(ContestError::ConfigIoError(ConfigLoc::Problem(day_idx, j)));
            },
            ConfFile::NotJson => {
                return Err(ContestError::ConfigParseError(ConfigLoc::Problem(day_idx, j)));
            },
            ConfFile::Json { version, record } => {
                if let Some(v) = version {
                    if *v < MIN_CONFIG_VERSION {
                        return Err(ContestError::ConfigVersionTooOld);
                    }
                }
                match record {
                    None => {
                        return Err(ContestError::ConfigParseError(ConfigLoc::Problem(day_idx, j)));
                    },
                    Some(pf) => {
                        let pdir = join_path(dir.as_str(), df.subdir[j].as_str());
                        subconfig.push(resolve_problem(pf, pdir));
                    },
                }
            },
        }
        j = j + 1;
    }
    Ok(
        ContestDayConfig {
            version: df.version,
            folder: df.folder.clone(),
            name: df.name.clone(),
            subdir: clone_string_vec(&df.subdir),
            title: df.title.clone(),
            compile: CompileConfig { cpp: df.compile.cpp.clone(), c: df.compile.c.clone() },
            start_time: df.start_time,
            end_time: df.end_time,
            use_pretest: df.use_pretest,
            noi_style: df.noi_style,
            file_io: df.file_io,
            subconfig,
            path: dir,
        },
    )
}

/// Assembles the resolved contest tree from the records read off disk:
/// validates the root record, then each day file and each problem file
/// in the order the folder lists declare them, recording on every node
/// its own directory and defaulting sample and data filenames.  The
/// first failure in that order is the result; no partial tree is ever
/// returned.
pub fn load_config(root: &ConfFile<ContestFile>, root_dir: &str, days: &Vec<DayFiles>) -> (r:
    Result<ContestConfig, ContestError>)
    ensures
        match r {
            Ok(t) => spec_load_err(*root, days@) is None && tree_resolved(
                t,
                json_record(*root),
                days@,
                root_dir@,
            ),
            Err(e) => spec_load_err(*root, days@) == Some(e),
        },
{
    let rf = match root {
        ConfFile::Missing => {
            return Err(ContestError::ConfigIoError(ConfigLoc::Root));
        },
        ConfFile::Unreadable => {
            return Err(ContestError::ConfigIoError(ConfigLoc::Root));
        },
        ConfFile::NotJson => {
            return Err(ContestError::ConfigParseError(ConfigLoc::Root));
        },
        ConfFile::Json { version, record } => {
            if let Some(v) = version {
                if *v < MIN_CONFIG_VERSION {
                    return Err(ContestError::ConfigVersionTooOld);
                }
            }
            match record {
                None => {
                    return Err(ContestError::ConfigParseError(ConfigLoc::Root));
                },
                Some(rf) => rf,
            }
        },
    };
    let mut subconfig: Vec<ContestDayConfig> = Vec::new();
    let n = rf.subdir.len();
    let mut i: usize = 0;
    while i < n
        invariant
            0 <= i <= n,
            n == rf.subdir@.len(),
            *root matches ConfFile::Json { version, record } && record == Some(*rf) && !(version
                is Some && version->0 < MIN_CONFIG_VERSION),
            subconfig@.len() == i,
            spec_days_err(rf.subdir@, days@, 0) == spec_days_err(rf.subdir@, days@, i as int),
            forall|q: int|
                0 <= q < i ==> day_resolved(
                    #[trigger] subconfig@[q],
                    json_record(days@[q].conf),
                    days@[q].problems@,
                    spec_join(root_dir@, rf.subdir@[q]@),
                ),
        decreases n - i,
    {
        if i >= days.len() {
            return Err(ContestError::ConfigIoError(ConfigLoc::Day(i)));
        }
        let day_files = &days[i];
        match &day_files.conf {
            ConfFile::Missing => {
                return Err(ContestError::ConfigIoError(ConfigLoc::Day(i)));
            },
            ConfFile::Unreadable => {
                return Err(ContestError::ConfigIoError(ConfigLoc::Day(i)));
            },
            ConfFile::NotJson => {
                return Err(ContestError::ConfigParseError(ConfigLoc::Day(i)));
            },
            ConfFile::Json { version, record } => {
                if let Some(v) = version {
                    if *v < MIN_CONFIG_VERSION {
                        return Err(ContestError::ConfigVersionTooOld);
                    }
                }
                match record {
                    None => {
                        return Err(ContestError::ConfigParseError(ConfigLoc::Day(i)));
                    },
                    Some(df) => {
                        let ddir = join_path(root_dir, rf.subdir[i].as_str());
                        match resolve_day(df, &day_files.problems, ddir, i) {
                            Ok(d) => {
                                subconfig.push(d);
                            },
                            Err(e) => {
                                return Err(e);
                            },
                        }
                    },
                }
            },
        }
        i = i + 1;
    }
    Ok(
        ContestConfig {
            version: rf.version,
            folder: rf.folder.clone(),
            name: rf.name.clone(),
            subdir: clone_string_vec(&rf.subdir),
            title: rf.title.clone(),
            short_title: rf.short_title.clone(),
            use_pretest: rf.use_pretest,
            noi_style: rf.noi_style,
            file_io: rf.file_io,
            subconfig,
            path: String::from_str(root_dir),
        },
    )
}


/// A configuration file that was present and parsed: generic structured
/// data with a version field, and the typed record shape.
pub open spec fn file_parsed<T>(f: ConfFile<T>) -> bool {
    f matches ConfFile::Json { version: Some(_), record: Some(_) }
}

/// Every file of the store present and parsed, with the day and problem
/// file lists as long as the folder lists that declare them.
pub open spec fn store_parsed(root: ConfFile<ContestFile>, days: Seq<DayFiles>) -> bool {
    &&& file_parsed(root)
    &&& days.len() == json_record(root).subdir@.len()
    &&& forall|i: int| 0 <= i < days.len() ==> file_parsed((#[trigger] days[i]).conf)
    &&& forall|i: int|
        0 <= i < days.len() ==> (#[trigger] days[i]).problems@.len() == json_record(
            days[i].conf,
        ).subdir@.len()
    &&& forall|i: int, j: int|
        0 <= i < days.len() && 0 <= j < days[i].problems@.len() ==> file_parsed(
            #[trigger] days[i].problems@[j],
        )
}

/// Every record of the store carries a supported schema version.
pub open spec fn store_all_supported(root: ConfFile<ContestFile>, days: Seq<DayFiles>) -> bool {
    &&& file_version(root) >= MIN_CONFIG_VERSION
    &&& forall|i: int|
        0 <= i < days.len() ==> file_version((#[trigger] days[i]).conf) >= MIN_CONFIG_VERSION
    &&& forall|i: int, j: int|
        0 <= i < days.len() && 0 <= j < days[i].problems@.len() ==> file_version(
            #[trigger] days[i].problems@[j],
        ) >= MIN_CONFIG_VERSION
}

/// One day folder contributed a record of an unsupported version,
/// either in its own file or in one of its problem files.
pub open spec fn day_has_old(d: DayFiles) -> bool {
    ||| file_version(d.conf) < MIN_CONFIG_VERSION
    ||| exists|j: int|
        0 <= j < d.problems@.len() && file_version(#[trigger] d.problems@[j]) < MIN_CONFIG_VERSION
}

/// Some day from position `i` on contributed an unsupported version.
pub open spec fn days_have_old_from(days: Seq<DayFiles>, i: int) -> bool {
    exists|q: int| i <= q < days.len() && day_has_old(#[trigger] days[q])
}

/// Some record of the store carries a version below the minimum.
pub open spec fn store_has_old(root: ConfFile<ContestFile>, days: Seq<DayFiles>) -> bool {
    ||| file_version(root) < MIN_CONFIG_VERSION
    ||| days_have_old_from(days, 0)
}

proof fn lemma_problems_ok(probs: Seq<ConfFile<ProblemFile>>, nsub: int, i: int, j: int)
    requires
        0 <= j <= nsub,
        probs.len() == nsub,
        forall|q: int| 0 <= q < nsub ==> file_parsed(#[trigger] probs[q]),
        forall|q: int| 0 <= q < nsub ==> file_version(#[trigger] probs[q]) >= MIN_CONFIG_VERSION,
    ensures
        spec_problems_err(probs, nsub, i, j) is None,
    decreases nsub - j,
{
    if j < nsub {
        lemma_problems_ok(probs, nsub, i, j + 1);
    }
}

proof fn lemma_days_ok(subdir: Seq<String>, days: Seq<DayFiles>, i: int)
    requires
        0 <= i <= subdir.len(),
        days.len() == subdir.len(),
        forall|q: int| 0 <= q < days.len() ==> file_parsed((#[trigger] days[q]).conf),
        forall|q: int|
            0 <= q < days.len() ==> file_version((#[trigger] days[q]).conf) >= MIN_CONFIG_VERSION,
        forall|q: int|
            0 <= q < days.len() ==> (#[trigger] days[q]).problems@.len() == json_record(
                days[q].conf,
            ).subdir@.len(),
        forall|q: int, j: int|
            0 <= q < days.len() && 0 <= j < days[q].problems@.len() ==> file_parsed(
                #[trigger] days[q].problems@[j],
            ),
        forall|q: int, j: int|
            0 <= q < days.len() && 0 <= j < days[q].problems@.len() ==> file_version(
                #[trigger] days[q].problems@[j],
            ) >= MIN_CONFIG_VERSION,
    ensures
        spec_days_err(subdir, days, i) is None,
    decreases subdir.len() - i,
{
    if i < subdir.len() {
        lemma_problems_ok(
            days[i].problems@,
            json_record(days[i].conf).subdir@.len() as int,
            i,
            0,
        );
        lemma_days_ok(subdir, days, i + 1);
    }
}

/// Law: for every store whose configuration files are all present and
/// parsed with schema versions at or above the minimum, the load
/// succeeds.  Together with the postcondition of [`load_config`], the
/// resolved tree's day and problem lists then match the declared folder
/// lists at each level exactly, in order — no extra, no missing, no
/// reordering.
pub proof fn lemma_load_succeeds_on_complete_store(
    root: ConfFile<ContestFile>,
    days: Seq<DayFiles>,
)
    requires
        store_parsed(root, days),
        store_all_supported(root, days),
    ensures
        spec_load_err(root, days) is None,
{
    lemma_days_ok(json_record(root).subdir@, days, 0);
}

proof fn lemma_problems_old(probs: Seq<ConfFile<ProblemFile>>, nsub: int, i: int, j: int)
    requires
        0 <= j <= nsub,
        probs.len() == nsub,
        forall|q: int| 0 <= q < nsub ==> file_parsed(#[trigger] probs[q]),
    ensures
        (exists|q: int| j <= q < nsub && file_version(#[trigger] probs[q]) < MIN_CONFIG_VERSION)
            ==> spec_problems_err(probs, nsub, i, j) == Some(ContestError::ConfigVersionTooOld),
        !(exists|q: int| j <= q < nsub && file_version(#[trigger] probs[q]) < MIN_CONFIG_VERSION)
            ==> spec_problems_err(probs, nsub, i, j) is None,
    decreases nsub - j,
{
    if j < nsub {
        if file_version(probs[j]) < MIN_CONFIG_VERSION {
            assert(j <= j < nsub && file_version(probs[j]) < MIN_CONFIG_VERSION);
        } else {
            lemma_problems_old(probs, nsub, i, j + 1);
            if exists|q: int|
                j <= q < nsub && file_version(#[trigger] probs[q]) < MIN_CONFIG_VERSION {
                let q = choose|q: int|
                    j <= q < nsub && file_version(#[trigger] probs[q]) < MIN_CONFIG_VERSION;
                assert(j + 1 <= q < nsub && file_version(probs[q]) < MIN_CONFIG_VERSION);
            }
        }
    }
}

proof fn lemma_days_old(subdir: Seq<String>, days: Seq<DayFiles>, i: int)
    requires
        0 <= i <= subdir.len(),
        days.len() == subdir.len(),
        forall|q: int| 0 <= q < days.len() ==> file_parsed((#[trigger] days[q]).conf),
        forall|q: int|
            0 <= q < days.len() ==> (#[trigger] days[q]).problems@.len() == json_record(
                days[q].conf,
            ).subdir@.len(),
        forall|q: int, j: int|
            0 <= q < days.len() && 0 <= j < days[q].problems@.len() ==> file_parsed(
                #[trigger] days[q].problems@[j],
            ),
    ensures
        days_have_old_from(days, i) ==> spec_days_err(subdir, days, i) == Some(
            ContestError::ConfigVersionTooOld,
        ),
        !days_have_old_from(days, i) ==> spec_days_err(subdir, days, i) is None,
    decreases subdir.len() - i,
{
    if i < subdir.len() {
        let d = days[i];
        let nsub = json_record(d.conf).subdir@.len() as int;
        if file_version(d.conf) < MIN_CONFIG_VERSION {
            assert(day_has_old(d));
            assert(i <= i < days.len() && day_has_old(days[i]));
        } else {
            lemma_problems_old(d.problems@, nsub, i, 0);
            lemma_days_old(subdir, days, i + 1);
            if exists|j: int|
                0 <= j < nsub && file_version(#[trigger] d.problems@[j]) < MIN_CONFIG_VERSION {
                let j = choose|j: int|
                    0 <= j < nsub && file_version(#[trigger] d.problems@[j]) < MIN_CONFIG_VERSION;
                assert(0 <= j < d.problems@.len() && file_version(d.problems@[j])
                    < MIN_CONFIG_VERSION);
                assert(day_has_old(d));
                assert(i <= i < days.len() && day_has_old(days[i]));
                assert(days_have_old_from(days, i));
            } else {
                assert(!day_has_old(d)) by {
                    if exists|j: int|
                        0 <= j < d.problems@.len() && file_version(#[trigger] d.problems@[j])
                            < MIN_CONFIG_VERSION {
                        let j = choose|j: int|
                            0 <= j < d.problems@.len() && file_version(#[trigger] d.problems@[j])
                                < MIN_CONFIG_VERSION;
                        assert(0 <= j < nsub && file_version(d.problems@[j]) < MIN_CONFIG_VERSION);
                    }
                }
                if days_have_old_from(days, i) {
                    let q = choose|q: int| i <= q < days.len() && day_has_old(#[trigger] days[q]);
                    assert(q != i);
                    assert(i + 1 <= q < days.len() && day_has_old(days[q]));
                    assert(days_have_old_from(days, i + 1));
                } else {
                    if days_have_old_from(days, i + 1) {
                        let q = choose|q: int|
                            i + 1 <= q < days.len() && day_has_old(#[trigger] days[q]);
                        assert(i <= q < days.len() && day_has_old(days[q]));
                    }
                }
            }
        }
    }
}

/// Law: for every store whose configuration files are all present and
/// parsed but where some record — at the root, in a day, or in a
/// problem — carries a schema version below the minimum, the load fails
/// with `ConfigVersionTooOld`.  By the postcondition of [`load_config`]
/// the result is then that error alone: no partial tree is observable.
pub proof fn lemma_load_rejects_old_version(root: ConfFile<ContestFile>, days: Seq<DayFiles>)
    requires
        store_parsed(root, days),
        store_has_old(root, days),
    ensures
        spec_load_err(root, days) == Some(ContestError::ConfigVersionTooOld),
{
    if file_version(root) < MIN_CONFIG_VERSION {
    } else {
        lemma_days_old(json_record(root).subdir@, days, 0);
    }
}

} // verus!
