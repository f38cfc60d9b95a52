use tuack_ng::config::{CompileConfig, ContestConfig, ContestDayConfig, DataItem, ProblemConfig};
use tuack_ng::manifest::{
    default_file_io, default_noi_style, default_use_pretest, format_time_limit,
    generate_data_json, humanize_problem_type, resolve_flag,
};

fn contest() -> ContestConfig {
    ContestConfig {
        version: 3,
        folder: "contest".to_string(),
        name: "noi2024".to_string(),
        subdir: vec!["day1".to_string()],
        title: "Grand Contest".to_string(),
        short_title: "GC".to_string(),
        use_pretest: None,
        noi_style: None,
        file_io: None,
        subconfig: vec![],
        path: "/contest".to_string(),
    }
}

fn problem(name: &str, ptype: &str, tenths: u64, ndata: usize) -> ProblemConfig {
    ProblemConfig {
        version: 3,
        folder: name.to_string(),
        problem_type: ptype.to_string(),
        name: name.to_string(),
        title: name.to_uppercase(),
        time_limit_tenths: tenths,
        memory_limit: "512 MB".to_string(),
        partial_score: false,
        path: format!("/contest/day1/{}", name),
        samples: vec![],
        data: (0..ndata)
            .map(|i| DataItem {
                id: i as u32,
                score: 10,
                input: None,
                output: None,
            })
            .collect(),
    }
}

fn day(problems: Vec<ProblemConfig>) -> ContestDayConfig {
    ContestDayConfig {
        version: 3,
        folder: "day1".to_string(),
        name: "day1".to_string(),
        subdir: problems.iter().map(|p| p.name.clone()).collect(),
        title: "Day 1".to_string(),
        compile: CompileConfig {
            cpp: "g++ -O2 -std=c++14".to_string(),
            c: String::new(),
        },
        start_time: [2024, 7, 1, 8, 0, 0],
        end_time: [2024, 7, 1, 13, 0, 0],
        use_pretest: None,
        noi_style: None,
        file_io: None,
        subconfig: problems,
        path: "/contest/day1".to_string(),
    }
}

#[test]
fn manifest_lists_problems_in_order() {
    let d = day(vec![
        problem("zebra", "program", 10, 10),
        problem("apple", "program", 20, 5),
    ]);
    let m = generate_data_json(&contest(), &d);
    assert_eq!(m.problems.len(), 2);
    assert_eq!(m.problems[0].name, "zebra");
    assert_eq!(m.problems[1].name, "apple");
}

#[test]
fn manifest_formats_problem_fields() {
    let d = day(vec![problem("apple", "program", 15, 10)]);
    let m = generate_data_json(&contest(), &d);
    let p = &m.problems[0];
    assert_eq!(p.problem_type, "传统型");
    assert_eq!(p.time_limit, "1.5 秒");
    assert_eq!(p.memory_limit, "512 MB");
    assert_eq!(p.testcase, "10");
    assert_eq!(p.dir, "apple");
    assert_eq!(p.exec_name, "apple");
    assert_eq!(p.input, "apple.in");
    assert_eq!(p.output, "apple.out");
    assert_eq!(p.point_equal, "是");
    assert_eq!(p.submit_filename, vec!["apple.cpp".to_string()]);
}

#[test]
fn manifest_copies_titles_and_language() {
    let d = day(vec![]);
    let m = generate_data_json(&contest(), &d);
    assert_eq!(m.title, "Grand Contest");
    assert_eq!(m.subtitle, "GC");
    assert_eq!(m.dayname, "Day 1");
    assert_eq!(m.date.start, [2024, 7, 1, 8, 0, 0]);
    assert_eq!(m.date.end, [2024, 7, 1, 13, 0, 0]);
    assert_eq!(m.support_languages.len(), 1);
    assert_eq!(m.support_languages[0].name, "C++");
    assert_eq!(m.support_languages[0].compile_options, "g++ -O2 -std=c++14");
    assert!(m.images.is_empty());
}

#[test]
fn unknown_problem_type_gets_default_label() {
    let d = day(vec![problem("weird", "quantum", 10, 1)]);
    let m = generate_data_json(&contest(), &d);
    assert_eq!(m.problems[0].problem_type, "传统型");
}

#[test]
fn known_problem_types_get_their_labels() {
    assert_eq!(humanize_problem_type(&"program".to_string()), "传统型");
    assert_eq!(humanize_problem_type(&"output".to_string()), "提交答案型");
    assert_eq!(humanize_problem_type(&"interactive".to_string()), "交互型");
}

#[test]
fn time_limit_formats_one_decimal() {
    assert_eq!(format_time_limit(10), "1.0 秒");
    assert_eq!(format_time_limit(25), "2.5 秒");
    assert_eq!(format_time_limit(5), "0.5 秒");
    assert_eq!(format_time_limit(0), "0.0 秒");
    assert_eq!(format_time_limit(105), "10.5 秒");
}

#[test]
fn flags_resolve_day_over_contest_over_default() {
    assert_eq!(resolve_flag(Some(true), Some(false), false), true);
    assert_eq!(resolve_flag(None, Some(false), true), false);
    assert_eq!(resolve_flag(None, None, true), true);
    assert_eq!(default_use_pretest(), false);
    assert_eq!(default_noi_style(), true);
    assert_eq!(default_file_io(), true);
}

#[test]
fn manifest_resolves_flag_overrides() {
    let mut c = contest();
    c.use_pretest = Some(true);
    c.noi_style = Some(false);
    let mut d = day(vec![]);
    d.noi_style = Some(true);
    let m = generate_data_json(&c, &d);
    // day override wins for noi_style, contest override for use_pretest,
    // the built-in default for file_io.
    assert_eq!(m.noi_style, true);
    assert_eq!(m.use_pretest, true);
    assert_eq!(m.file_io, true);
}
