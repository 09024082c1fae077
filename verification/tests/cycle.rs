use artifact_relay::calendar::Date;
use artifact_relay::config::AppConfig;
use artifact_relay::pattern::format_date;
use artifact_relay::pipeline::{
    evaluate_gate, start_decision, task_probe, tasks_of_config, ControlState, ScanResult,
    StartDecision, Task, TaskProbe, TaskRule,
};
use artifact_relay::select::{parse_listing, select_recent};
use artifact_relay::transfer::{copy_directive, CopyDirective, CopyJob, FileEntry};

const TODAY: Date = Date { year: 2026, month: 2, day: 11 };

#[test]
fn tasks_are_the_cross_product_of_paths_and_versions() {
    let mut c = AppConfig::default();
    c.remote_paths = vec!["\\\\share\\a".to_string(), "\\\\share\\b".to_string()];
    c.target_versions = vec!["1.0".to_string(), "2.0".to_string(), "3.0".to_string()];
    let tasks = tasks_of_config(&c);
    assert_eq!(tasks.len(), 6);
    assert_eq!(tasks[0].source, "\\\\share\\a");
    assert_eq!(tasks[2].source, "\\\\share\\a");
    assert_eq!(tasks[3].source, "\\\\share\\b");
    for (k, t) in tasks.iter().enumerate() {
        assert!(t.enabled);
        assert!(t.destination.is_none());
        match &t.rule {
            TaskRule::VersionMatch(v) => {
                assert_eq!(v, &c.target_versions[k % 3]);
            }
            TaskRule::DateMatch(_) => panic!("config tasks are version tasks"),
        }
    }
}

#[test]
fn version_tasks_probe_by_listing_and_date_tasks_by_name() {
    let vt = Task {
        name: "v".to_string(),
        enabled: true,
        source: "/src".to_string(),
        destination: None,
        rule: TaskRule::VersionMatch("1.0".to_string()),
    };
    match task_probe(&vt, TODAY) {
        TaskProbe::Listing => {}
        TaskProbe::Exact(_) => panic!("version rules scan listings"),
    }
    let dt = Task {
        name: "d".to_string(),
        enabled: true,
        source: "/src".to_string(),
        destination: None,
        rule: TaskRule::DateMatch("%y%m%d".to_string()),
    };
    match task_probe(&dt, TODAY) {
        TaskProbe::Exact(nm) => assert_eq!(nm, "260211"),
        TaskProbe::Listing => panic!("date rules look a name up"),
    }
}

#[test]
fn date_pattern_rendering() {
    assert_eq!(format_date("%y%m%d", TODAY), "260211");
    assert_eq!(format_date("%Y-%m-%d", TODAY), "2026-02-11");
    assert_eq!(format_date("build_%Y", TODAY), "build_2026");
    assert_eq!(format_date("100%%", TODAY), "100%");
    assert_eq!(format_date("%q", TODAY), "%q");
    assert_eq!(format_date("x%", TODAY), "x%");
    assert_eq!(format_date("", TODAY), "");
}

#[test]
fn only_one_cycle_runs_at_a_time() {
    assert_eq!(start_decision(false), StartDecision::Proceed);
    assert_eq!(start_decision(true), StartDecision::RejectedBusy);
}

#[test]
fn cancel_lifts_an_active_pause() {
    let mut s = ControlState::fresh();
    assert!(!s.cancel && !s.paused);
    s.request_pause();
    assert!(s.paused && !s.cancel);
    s.request_cancel();
    assert!(s.cancel && !s.paused);
    let mut s = ControlState::fresh();
    s.request_pause();
    s.request_resume();
    assert!(!s.paused && !s.cancel);
}

#[test]
fn gate_with_no_ranges_always_admits() {
    let none: Vec<String> = Vec::new();
    assert!(evaluate_gate(&none));
}

#[test]
fn scan_result_accumulates() {
    let mut r = ScanResult::new();
    r.record_scan();
    r.record_scan();
    r.record_found("f".to_string());
    r.record_copied("f".to_string());
    r.record_error("e".to_string());
    assert_eq!(r.scanned_paths, 2);
    assert_eq!(r.found_folders, vec!["f".to_string()]);
    assert_eq!(r.copied_folders, vec!["f".to_string()]);
    assert_eq!(r.errors, vec!["e".to_string()]);
}

#[test]
fn a_cycle_selects_copies_and_reports_the_fresh_candidate() {
    // One version task; the remote directory holds today's candidate and a
    // two-day-old one. The fresh one is selected, the destination does not
    // exist, the copy proceeds, and the cycle result names the folder.
    let listing = vec![
        "2026_02_09_10_00(1.3.7.P18)".to_string(),
        "2026_02_11_03_34(1.3.7.P18)".to_string(),
    ];
    let mut result = ScanResult::new();
    result.record_scan();

    let cands = parse_listing(&listing);
    let picked = select_recent(&cands, "1.3.7.P18", TODAY).expect("today's build is eligible");
    let name = cands[picked].name.clone();
    assert_eq!(name, "2026_02_11_03_34(1.3.7.P18)");
    result.record_found(name.clone());

    let files = vec![FileEntry {
        rel_path: "app.tar.gz".to_string(),
        name: "app.tar.gz".to_string(),
        size: 8,
    }];
    let dest_exists = false;
    assert_eq!(copy_directive(dest_exists, files.len()), CopyDirective::Proceed);

    let mut job = CopyJob::plan(
        name.clone(),
        "\\\\share\\a\\2026_02_11_03_34(1.3.7.P18)".to_string(),
        "E:\\UMS_TEMP\\2026_02_11_03_34(1.3.7.P18)".to_string(),
        files,
    )
    .unwrap();
    job.record_chunk(8);
    job.file_done();
    let audit = job.completed_entry();
    assert_eq!(audit.copied_files_count, 1);
    result.record_copied(job.folder_name.clone());

    assert_eq!(result.copied_folders, vec!["2026_02_11_03_34(1.3.7.P18)".to_string()]);
    assert!(result.errors.is_empty());
}
