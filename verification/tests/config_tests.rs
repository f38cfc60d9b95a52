use tuack_ng::config::{
    classify_probe, load_config, locate_root, CompileConfig, ConfFile, ConfProbe, ContestFile,
    DataItem, DayFile, DayFiles, ProbeClass, ProbeOutcome, ProblemFile, SampleItem,
};
use tuack_ng::errors::{ConfigLoc, ContestError};

fn probe(version: Option<u64>, folder: Option<&str>) -> ProbeOutcome {
    ProbeOutcome::Json(ConfProbe {
        version,
        folder: folder.map(|s| s.to_string()),
    })
}

fn contest_file(version: u32, subdir: Vec<&str>) -> ContestFile {
    ContestFile {
        version,
        folder: "contest".to_string(),
        name: "noi2024".to_string(),
        subdir: subdir.into_iter().map(|s| s.to_string()).collect(),
        title: "Grand Contest".to_string(),
        short_title: "GC".to_string(),
        use_pretest: None,
        noi_style: None,
        file_io: None,
    }
}

fn day_file(version: u32, name: &str, subdir: Vec<&str>) -> DayFile {
    DayFile {
        version,
        folder: name.to_string(),
        name: name.to_string(),
        subdir: subdir.into_iter().map(|s| s.to_string()).collect(),
        title: format!("Day {}", name),
        compile: CompileConfig {
            cpp: "g++ -O2".to_string(),
            c: String::new(),
        },
        start_time: [2024, 7, 1, 8, 0, 0],
        end_time: [2024, 7, 1, 13, 0, 0],
        use_pretest: None,
        noi_style: None,
        file_io: None,
    }
}

fn problem_file(version: u32, name: &str) -> ProblemFile {
    ProblemFile {
        version,
        folder: name.to_string(),
        problem_type: "program".to_string(),
        name: name.to_string(),
        title: name.to_uppercase(),
        time_limit_tenths: 10,
        memory_limit: "512 MB".to_string(),
        partial_score: false,
        samples: vec![SampleItem {
            id: 7,
            input: None,
            output: None,
        }],
        data: vec![
            DataItem {
                id: 1,
                score: 50,
                input: None,
                output: None,
            },
            DataItem {
                id: 2,
                score: 50,
                input: Some("big.in".to_string()),
                output: Some(String::new()),
            },
        ],
    }
}

fn parsed<T>(version: u64, record: T) -> ConfFile<T> {
    ConfFile::Json {
        version: Some(version),
        record: Some(record),
    }
}

#[test]
fn sample_finalize_defaults_from_id() {
    let s = SampleItem {
        id: 7,
        input: None,
        output: None,
    };
    let s = s.finalize();
    assert_eq!(s.id, 7);
    assert_eq!(s.input.as_deref(), Some("7.in"));
    assert_eq!(s.output.as_deref(), Some("7.ans"));
}

#[test]
fn sample_finalize_is_idempotent() {
    let s = SampleItem {
        id: 7,
        input: None,
        output: None,
    };
    let once = s.finalize();
    let twice = SampleItem {
        id: once.id,
        input: once.input.clone(),
        output: once.output.clone(),
    }
    .finalize();
    assert_eq!(once.id, twice.id);
    assert_eq!(once.input, twice.input);
    assert_eq!(once.output, twice.output);
}

#[test]
fn sample_finalize_keeps_declared_names() {
    let s = SampleItem {
        id: 3,
        input: Some("given.in".to_string()),
        output: Some("given.ans".to_string()),
    };
    let s = s.finalize();
    assert_eq!(s.input.as_deref(), Some("given.in"));
    assert_eq!(s.output.as_deref(), Some("given.ans"));
}

#[test]
fn sample_finalize_replaces_empty_names() {
    let s = SampleItem {
        id: 12,
        input: Some(String::new()),
        output: Some(String::new()),
    };
    let s = s.finalize();
    assert_eq!(s.input.as_deref(), Some("12.in"));
    assert_eq!(s.output.as_deref(), Some("12.ans"));
}

#[test]
fn data_finalize_defaults_and_keeps_score() {
    let d = DataItem {
        id: 9,
        score: 25,
        input: None,
        output: Some(String::new()),
    };
    let d = d.finalize();
    assert_eq!(d.score, 25);
    assert_eq!(d.input.as_deref(), Some("9.in"));
    assert_eq!(d.output.as_deref(), Some("9.ans"));
}

#[test]
fn locate_from_three_levels_below() {
    // Three directories without any configuration file, then the root.
    let chain = vec![
        ProbeOutcome::NoFile,
        ProbeOutcome::NoFile,
        ProbeOutcome::NoFile,
        probe(Some(3), Some("contest")),
    ];
    assert_eq!(locate_root(&chain).unwrap(), 3);
}

#[test]
fn locate_skips_non_root_configs() {
    // A problem-level config without a version field does not stop the walk.
    let chain = vec![
        probe(None, Some("p1")),
        probe(Some(4), Some("day1")),
        probe(Some(4), Some("contest")),
    ];
    // The day config has a version and a non-contest folder: the walk ascends.
    assert_eq!(locate_root(&chain).unwrap(), 2);
}

#[test]
fn locate_aborts_on_old_version() {
    let chain = vec![
        ProbeOutcome::NoFile,
        probe(Some(2), Some("contest")),
        probe(Some(3), Some("contest")),
    ];
    match locate_root(&chain) {
        Err(ContestError::ConfigVersionTooOld) => {}
        other => panic!("expected version error, got {:?}", other),
    }
}

#[test]
fn locate_reports_not_found() {
    let chain = vec![ProbeOutcome::NoFile, ProbeOutcome::NoFile];
    match locate_root(&chain) {
        Err(ContestError::ConfigNotFound) => {}
        other => panic!("expected not-found, got {:?}", other),
    }
}

#[test]
fn locate_reports_unreadable_file() {
    let chain = vec![ProbeOutcome::Unreadable];
    match locate_root(&chain) {
        Err(ContestError::ConfigIoError(ConfigLoc::Walk(0))) => {}
        other => panic!("expected io error, got {:?}", other),
    }
}

#[test]
fn classify_recognizes_root() {
    assert_eq!(
        classify_probe(&probe(Some(3), Some("contest"))),
        ProbeClass::IsRoot
    );
    assert_eq!(
        classify_probe(&probe(Some(3), Some("day1"))),
        ProbeClass::Ascend
    );
    assert_eq!(classify_probe(&probe(Some(2), None)), ProbeClass::TooOld);
    assert_eq!(classify_probe(&ProbeOutcome::NotJson), ProbeClass::Malformed);
}

#[test]
fn load_builds_tree_in_declared_order() {
    let root = parsed(3, contest_file(3, vec!["day1", "day2"]));
    let days = vec![
        DayFiles {
            conf: parsed(3, day_file(3, "day1", vec!["apple", "banana"])),
            problems: vec![
                parsed(3, problem_file(3, "apple")),
                parsed(3, problem_file(3, "banana")),
            ],
        },
        DayFiles {
            conf: parsed(3, day_file(3, "day2", vec![])),
            problems: vec![],
        },
    ];
    let tree = load_config(&root, "/contest", &days).unwrap();
    assert_eq!(tree.path, "/contest");
    assert_eq!(tree.subconfig.len(), 2);
    assert_eq!(tree.subconfig[0].name, "day1");
    assert_eq!(tree.subconfig[0].path, "/contest/day1");
    assert_eq!(tree.subconfig[1].name, "day2");
    let d1 = &tree.subconfig[0];
    assert_eq!(d1.subconfig.len(), 2);
    assert_eq!(d1.subconfig[0].name, "apple");
    assert_eq!(d1.subconfig[0].path, "/contest/day1/apple");
    assert_eq!(d1.subconfig[1].name, "banana");
    assert_eq!(d1.subconfig[1].path, "/contest/day1/banana");
    // Sample and data defaults were filled during the load.
    let p = &d1.subconfig[0];
    assert_eq!(p.samples[0].input.as_deref(), Some("7.in"));
    assert_eq!(p.data[0].output.as_deref(), Some("1.ans"));
    assert_eq!(p.data[1].input.as_deref(), Some("big.in"));
    assert_eq!(p.data[1].output.as_deref(), Some("2.ans"));
}

#[test]
fn load_rejects_old_version_at_problem_level() {
    let root = parsed(3, contest_file(3, vec!["day1"]));
    let days = vec![DayFiles {
        conf: parsed(3, day_file(3, "day1", vec!["apple"])),
        problems: vec![parsed(2, problem_file(2, "apple"))],
    }];
    match load_config(&root, "/contest", &days) {
        Err(ContestError::ConfigVersionTooOld) => {}
        other => panic!("expected version error, got {:?}", other),
    }
}

#[test]
fn load_rejects_old_version_at_root() {
    let root = parsed(2, contest_file(2, vec![]));
    match load_config(&root, "/contest", &Vec::new()) {
        Err(ContestError::ConfigVersionTooOld) => {}
        other => panic!("expected version error, got {:?}", other),
    }
}

#[test]
fn load_reports_missing_day_file() {
    let root = parsed(3, contest_file(3, vec!["day1"]));
    let days = vec![DayFiles {
        conf: ConfFile::Missing,
        problems: vec![],
    }];
    match load_config(&root, "/contest", &days) {
        Err(ContestError::ConfigIoError(ConfigLoc::Day(0))) => {}
        other => panic!("expected io error, got {:?}", other),
    }
}

#[test]
fn load_reports_malformed_problem_file() {
    let root = parsed(3, contest_file(3, vec!["day1"]));
    let days = vec![DayFiles {
        conf: parsed(3, day_file(3, "day1", vec!["apple"])),
        problems: vec![ConfFile::NotJson],
    }];
    match load_config(&root, "/contest", &days) {
        Err(ContestError::ConfigParseError(ConfigLoc::Problem(0, 0))) => {}
        other => panic!("expected parse error, got {:?}", other),
    }
}

#[test]
fn load_reports_malformed_root() {
    let root: ConfFile<ContestFile> = ConfFile::Json {
        version: Some(3),
        record: None,
    };
    match load_config(&root, "/contest", &Vec::new()) {
        Err(ContestError::ConfigParseError(ConfigLoc::Root)) => {}
        other => panic!("expected parse error, got {:?}", other),
    }
}

#[test]
fn problem_finalize_defaults_every_item() {
    let p = tuack_ng::config::ProblemConfig {
        version: 3,
        folder: "apple".to_string(),
        problem_type: "program".to_string(),
        name: "apple".to_string(),
        title: "APPLE".to_string(),
        time_limit_tenths: 10,
        memory_limit: "512 MB".to_string(),
        partial_score: false,
        path: "/contest/day1/apple".to_string(),
        samples: vec![SampleItem {
            id: 7,
            input: None,
            output: None,
        }],
        data: vec![DataItem {
            id: 4,
            score: 100,
            input: Some(String::new()),
            output: Some("keep.ans".to_string()),
        }],
    };
    let p = p.finalize();
    assert_eq!(p.name, "apple");
    assert_eq!(p.samples[0].input.as_deref(), Some("7.in"));
    assert_eq!(p.samples[0].output.as_deref(), Some("7.ans"));
    assert_eq!(p.data[0].input.as_deref(), Some("4.in"));
    assert_eq!(p.data[0].output.as_deref(), Some("keep.ans"));
}
