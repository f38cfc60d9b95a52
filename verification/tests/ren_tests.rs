use std::collections::{HashMap, HashSet};

use tuack_ng::config::{CompileConfig, ContestConfig, ContestDayConfig, ProblemConfig};
use tuack_ng::errors::ContestError;
use tuack_ng::ren::{
    check_template_files, convert_document, pick_template_dir, select_days, RenderAction,
    RenderEvent, RenderMachine, RenderPc,
};

/// An in-memory stand-in for the filesystem and the external compiler.
struct SimWorld {
    dirs: HashSet<String>,
    files: HashMap<String, String>,
    compiler_ok: bool,
    compiler_stderr: String,
}

impl SimWorld {
    fn remove_tree(&mut self, root: &str) {
        let prefix = format!("{}/", root);
        self.dirs.retain(|d| d != root && !d.starts_with(&prefix));
        self.files.retain(|f, _| !f.starts_with(&prefix));
    }

    fn perform(&mut self, action: &RenderAction) -> RenderEvent {
        match action {
            RenderAction::ProbeDir(p) => RenderEvent::Exists(self.dirs.contains(p)),
            RenderAction::CreateDir(p) => {
                self.dirs.insert(p.clone());
                RenderEvent::Completed
            }
            RenderAction::RemoveDirAll(p) => {
                self.remove_tree(p);
                RenderEvent::Completed
            }
            RenderAction::CopyTree(src, dst) => {
                let prefix = format!("{}/", src);
                let copies: Vec<(String, String)> = self
                    .files
                    .iter()
                    .filter(|(f, _)| f.starts_with(&prefix))
                    .map(|(f, c)| (format!("{}/{}", dst, &f[prefix.len()..]), c.clone()))
                    .collect();
                for (f, c) in copies {
                    self.files.insert(f, c);
                }
                RenderEvent::Completed
            }
            RenderAction::WriteManifest(p, m) => {
                self.files.insert(p.clone(), format!("manifest:{}", m.dayname));
                RenderEvent::Completed
            }
            RenderAction::ProbeFile(p) => RenderEvent::Exists(self.files.contains_key(p)),
            RenderAction::ReadFile(p) => RenderEvent::Content(self.files[p].clone()),
            RenderAction::WriteFile(p, t) => {
                self.files.insert(p.clone(), t.clone());
                RenderEvent::Completed
            }
            RenderAction::RunCompiler { dir, entry: _, output } => {
                if self.compiler_ok {
                    self.files
                        .insert(format!("{}/{}", dir, output), "pdf-bytes".to_string());
                    RenderEvent::Compiled(true, String::new())
                } else {
                    RenderEvent::Compiled(false, self.compiler_stderr.clone())
                }
            }
            RenderAction::CopyFile(src, dst) => {
                let content = self.files[src].clone();
                self.files.insert(dst.clone(), content);
                RenderEvent::Completed
            }
        }
    }
}

fn describe(action: &RenderAction) -> String {
    match action {
        RenderAction::ProbeDir(p) => format!("probe-dir {}", p),
        RenderAction::CreateDir(p) => format!("create-dir {}", p),
        RenderAction::RemoveDirAll(p) => format!("remove-dir {}", p),
        RenderAction::CopyTree(s, d) => format!("copy-tree {} {}", s, d),
        RenderAction::WriteManifest(p, _) => format!("write-manifest {}", p),
        RenderAction::ProbeFile(p) => format!("probe-file {}", p),
        RenderAction::ReadFile(p) => format!("read-file {}", p),
        RenderAction::WriteFile(p, _) => format!("write-file {}", p),
        RenderAction::RunCompiler { dir, .. } => format!("compile {}", dir),
        RenderAction::CopyFile(s, d) => format!("copy-file {} {}", s, d),
    }
}

fn run_day(
    contest: &ContestConfig,
    day: &ContestDayConfig,
    world: &mut SimWorld,
    trace: &mut Vec<String>,
) -> Result<(), ContestError> {
    let (mut machine, first) = RenderMachine::start(contest, day, "/templates/std", "/contest/statements");
    trace.push(describe(&first));
    let mut event = world.perform(&first);
    loop {
        let next = machine.step(event);
        match next {
            Some(action) => {
                trace.push(describe(&action));
                event = world.perform(&action);
            }
            None => {
                return match machine.pc {
                    RenderPc::Done => Ok(()),
                    RenderPc::Failed(e) => Err(e),
                    _ => panic!("machine stopped in a non-terminal state"),
                };
            }
        }
    }
}

fn problem(name: &str) -> ProblemConfig {
    ProblemConfig {
        version: 3,
        folder: name.to_string(),
        problem_type: "program".to_string(),
        name: name.to_string(),
        title: name.to_uppercase(),
        time_limit_tenths: 10,
        memory_limit: "512 MB".to_string(),
        partial_score: false,
        path: format!("/contest/day1/{}", name),
        samples: vec![],
        data: vec![],
    }
}

fn fixture() -> (ContestConfig, SimWorld) {
    let problems = vec![problem("apple"), problem("banana")];
    let day = ContestDayConfig {
        version: 3,
        folder: "day1".to_string(),
        name: "day1".to_string(),
        subdir: problems.iter().map(|p| p.name.clone()).collect(),
        title: "Day 1".to_string(),
        compile: CompileConfig {
            cpp: "g++ -O2".to_string(),
            c: String::new(),
        },
        start_time: [2024, 7, 1, 8, 0, 0],
        end_time: [2024, 7, 1, 13, 0, 0],
        use_pretest: None,
        noi_style: None,
        file_io: None,
        subconfig: problems,
        path: "/contest/day1".to_string(),
    };
    let contest = ContestConfig {
        version: 3,
        folder: "contest".to_string(),
        name: "noi2024".to_string(),
        subdir: vec!["day1".to_string()],
        title: "Grand Contest".to_string(),
        short_title: "GC".to_string(),
        use_pretest: None,
        noi_style: None,
        file_io: None,
        subconfig: vec![day],
        path: "/contest".to_string(),
    };
    let mut world = SimWorld {
        dirs: HashSet::new(),
        files: HashMap::new(),
        compiler_ok: true,
        compiler_stderr: String::new(),
    };
    world.dirs.insert("/contest/statements".to_string());
    world.dirs.insert("/templates/std".to_string());
    world
        .files
        .insert("/templates/std/main.typ".to_string(), "template-main".to_string());
    world
        .files
        .insert("/templates/std/utils.typ".to_string(), "template-utils".to_string());
    world.files.insert(
        "/contest/day1/apple/statement.md".to_string(),
        "# Apple\n\nPick **fresh** apples.\n".to_string(),
    );
    world.files.insert(
        "/contest/day1/banana/statement.md".to_string(),
        "# Banana\n\nPeel *ripe* bananas.\n".to_string(),
    );
    (contest, world)
}

#[test]
fn successful_render_promotes_artifact_and_removes_staging() {
    let (contest, mut world) = fixture();
    let day = &contest.subconfig[0];
    let mut trace = Vec::new();
    run_day(&contest, day, &mut world, &mut trace).unwrap();
    // The artifact stands in the permanent per-day output directory.
    assert!(world
        .files
        .contains_key("/contest/statements/day1/day1.pdf"));
    // The staging directory no longer exists.
    assert!(!world.dirs.contains("/contest/statements/day1/tmp"));
    assert!(world
        .files
        .keys()
        .all(|f| !f.starts_with("/contest/statements/day1/tmp/")));
}

#[test]
fn staged_statement_files_are_named_by_position() {
    let (contest, mut world) = fixture();
    let day = &contest.subconfig[0];
    let mut trace = Vec::new();
    run_day(&contest, day, &mut world, &mut trace).unwrap();
    assert!(trace
        .iter()
        .any(|a| a == "write-file /contest/statements/day1/tmp/problem-0.typ"));
    assert!(trace
        .iter()
        .any(|a| a == "write-file /contest/statements/day1/tmp/problem-1.typ"));
}

#[test]
fn stale_staging_is_removed_before_recreation() {
    let (contest, mut world) = fixture();
    let staging = "/contest/statements/day1/tmp";
    world.dirs.insert("/contest/statements/day1".to_string());
    world.dirs.insert(staging.to_string());
    world
        .files
        .insert(format!("{}/leftover.typ", staging), "stale".to_string());
    let day = &contest.subconfig[0];
    let mut trace = Vec::new();
    run_day(&contest, day, &mut world, &mut trace).unwrap();
    // The removal was requested before the fresh creation.
    let rm = trace
        .iter()
        .position(|a| a == &format!("remove-dir {}", staging))
        .expect("stale staging was never removed");
    let mk = trace
        .iter()
        .position(|a| a == &format!("create-dir {}", staging))
        .expect("staging was never created");
    assert!(rm < mk);
    // Nothing stale survived into the build.
    assert!(!world.files.contains_key(&format!("{}/leftover.typ", staging)));
}

#[test]
fn compile_failure_preserves_staging_and_carries_stderr() {
    let (contest, mut world) = fixture();
    world.compiler_ok = false;
    world.compiler_stderr = "error: missing glyph\n".to_string();
    let day = &contest.subconfig[0];
    let mut trace = Vec::new();
    let err = run_day(&contest, day, &mut world, &mut trace).unwrap_err();
    match err {
        ContestError::CompileFailure(stderr) => {
            assert_eq!(stderr, "error: missing glyph\n");
        }
        other => panic!("expected compile failure, got {:?}", other),
    }
    // The staging directory survives with everything staged so far.
    assert!(world.dirs.contains("/contest/statements/day1/tmp"));
    assert!(world
        .files
        .contains_key("/contest/statements/day1/tmp/problem-0.typ"));
    // No artifact was promoted.
    assert!(!world
        .files
        .contains_key("/contest/statements/day1/day1.pdf"));
}

#[test]
fn missing_statement_fails_the_day() {
    let (contest, mut world) = fixture();
    world.files.remove("/contest/day1/banana/statement.md");
    let day = &contest.subconfig[0];
    let mut trace = Vec::new();
    let err = run_day(&contest, day, &mut world, &mut trace).unwrap_err();
    match err {
        ContestError::StatementMissing(1) => {}
        other => panic!("expected missing statement, got {:?}", other),
    }
}

#[test]
fn notice_document_is_converted_when_present() {
    let (contest, mut world) = fixture();
    world.files.insert(
        "/contest/precaution.md".to_string(),
        "Be **careful** out there.\n".to_string(),
    );
    let day = &contest.subconfig[0];
    let mut trace = Vec::new();
    run_day(&contest, day, &mut world, &mut trace).unwrap();
    // Staging is gone after the successful run; the trace shows the
    // converted notice was staged before the compile.
    let wrote = trace
        .iter()
        .position(|a| a == "write-file /contest/statements/day1/tmp/precaution.typ")
        .expect("notice was never staged");
    let compiled = trace
        .iter()
        .position(|a| a == "compile /contest/statements/day1/tmp")
        .expect("compiler never ran");
    assert!(wrote < compiled);
}

#[test]
fn converted_statement_carries_preamble_and_rendered_body() {
    let converted = convert_document("Pick **fresh** apples.\n").unwrap();
    assert!(converted.starts_with("#import \"utils.typ\": *\n"));
    // The body is the renderer's output, not the source handed back.
    assert!(converted.contains("\\textbf{fresh}"));
    assert!(!converted.contains("**fresh**"));
}

#[test]
fn template_file_check_names_the_missing_file() {
    assert!(check_template_files(true, true).is_ok());
    match check_template_files(false, true) {
        Err(ContestError::TemplateMissingRequiredFile(0)) => {}
        other => panic!("unexpected {:?}", other),
    }
    match check_template_files(true, false) {
        Err(ContestError::TemplateMissingRequiredFile(1)) => {}
        other => panic!("unexpected {:?}", other),
    }
}

#[test]
fn template_search_takes_first_hit() {
    let dirs = vec![
        "/home/u/.local/share/tuack-ng/templates".to_string(),
        "/usr/share/tuack-ng/templates".to_string(),
    ];
    let hits = vec![false, true];
    let picked = pick_template_dir(&dirs, "template", &hits).unwrap();
    assert_eq!(picked, "/usr/share/tuack-ng/templates/template");
    let no_hits = vec![false, false];
    match pick_template_dir(&dirs, "template", &no_hits) {
        Err(ContestError::TemplateNotFound) => {}
        other => panic!("unexpected {:?}", other),
    }
}

#[test]
fn day_selection_filters_by_name() {
    let (contest, _) = fixture();
    let all = select_days(&contest, &None).unwrap();
    assert_eq!(all, vec![0]);
    let one = select_days(&contest, &Some("day1".to_string())).unwrap();
    assert_eq!(one, vec![0]);
    match select_days(&contest, &Some("day9".to_string())) {
        Err(ContestError::DayNotFound) => {}
        other => panic!("unexpected {:?}", other),
    }
}
