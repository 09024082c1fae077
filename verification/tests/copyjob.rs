use artifact_relay::transfer::{
    chunk_step, copy_directive, progress_percent, remaining_seconds, sum_sizes, transfer_rate,
    ChunkStep, CopyDirective, CopyJob, FileEntry,
};

fn entry(rel: &str, name: &str, size: u64) -> FileEntry {
    FileEntry { rel_path: rel.to_string(), name: name.to_string(), size }
}

#[test]
fn existing_destination_is_always_skipped() {
    // Idempotence: with the destination present the directive is a skip,
    // however many files are planned, so running the copy again changes
    // nothing and is no error.
    assert_eq!(copy_directive(true, 0), CopyDirective::SkipExisting);
    assert_eq!(copy_directive(true, 3), CopyDirective::SkipExisting);
    assert_eq!(copy_directive(true, 1000), CopyDirective::SkipExisting);
    assert_eq!(copy_directive(false, 0), CopyDirective::NothingToCopy);
    assert_eq!(copy_directive(false, 2), CopyDirective::Proceed);
}

#[test]
fn cancellation_outranks_pause() {
    assert_eq!(chunk_step(true, true), ChunkStep::Abort);
    assert_eq!(chunk_step(true, false), ChunkStep::Abort);
    assert_eq!(chunk_step(false, true), ChunkStep::Wait);
    assert_eq!(chunk_step(false, false), ChunkStep::Proceed);
}

#[test]
fn byte_totals_are_planned_up_front() {
    let files = vec![entry("a.bin", "a.bin", 700), entry("d/b.bin", "b.bin", 300)];
    assert_eq!(sum_sizes(&files), Some(1000));
    let empty: Vec<FileEntry> = Vec::new();
    assert_eq!(sum_sizes(&empty), Some(0));
    let big = vec![entry("x", "x", u64::MAX), entry("y", "y", 1)];
    assert_eq!(sum_sizes(&big), None);
}

#[test]
fn cancelled_audit_counts_exactly_the_finished_files() {
    // Three planned files; the first two are written whole, then the
    // checkpoint before the third sees cancellation.
    let files = vec![
        entry("a.bin", "a.bin", 100),
        entry("b.bin", "b.bin", 200),
        entry("c.bin", "c.bin", 300),
    ];
    let mut job = CopyJob::plan(
        "2026_02_11_03_34(v1)".to_string(),
        "/remote/src".to_string(),
        "/local/dst".to_string(),
        files,
    )
    .expect("the total fits");
    assert_eq!(job.total_bytes, 600);

    job.record_chunk(100);
    job.file_done();
    job.record_chunk(200);
    job.file_done();
    assert_eq!(chunk_step(true, false), ChunkStep::Abort);

    let audit = job.cancelled_entry();
    assert_eq!(audit.action_type, "COPY_CANCELLED");
    assert_eq!(audit.copied_files_count, 2);
    assert_eq!(audit.files, vec!["a.bin".to_string(), "b.bin".to_string()]);
    assert_eq!(audit.total_size, 300);
    assert_eq!(audit.folder_name, "2026_02_11_03_34(v1) (Cancelled)");
    assert_eq!(audit.description, "Cancelled copying 2026_02_11_03_34(v1)");
    assert_eq!(audit.id.len(), 36);
}

#[test]
fn completed_audit_carries_the_file_list() {
    let files = vec![entry("a.bin", "a.bin", 64), entry("b.bin", "b.bin", 36)];
    let mut job = CopyJob::plan(
        "folder".to_string(),
        "src".to_string(),
        "dst".to_string(),
        files,
    )
    .unwrap();
    let started = job.started_entry();
    assert_eq!(started.action_type, "COPY_STARTED");
    assert_eq!(started.copied_files_count, 0);

    job.record_chunk(64);
    job.file_done();
    job.record_chunk(36);
    job.file_done();
    let audit = job.completed_entry();
    assert_eq!(audit.action_type, "COPY_COMPLETED");
    assert_eq!(audit.copied_files_count, 2);
    assert_eq!(audit.total_size, 100);
    assert_eq!(audit.files, vec!["a.bin".to_string(), "b.bin".to_string()]);
}

#[test]
fn failed_files_stay_out_of_the_audit_list() {
    let files = vec![entry("a.bin", "a.bin", 10), entry("b.bin", "b.bin", 10)];
    let mut job = CopyJob::plan(
        "folder".to_string(),
        "src".to_string(),
        "dst".to_string(),
        files,
    )
    .unwrap();
    job.file_failed();
    job.record_chunk(10);
    job.file_done();
    let audit = job.completed_entry();
    assert_eq!(audit.copied_files_count, 1);
    assert_eq!(audit.files, vec!["b.bin".to_string()]);
}

#[test]
fn progress_arithmetic() {
    assert_eq!(progress_percent(0, 0), 0);
    assert_eq!(progress_percent(50, 200), 25);
    assert_eq!(progress_percent(200, 200), 100);
    assert_eq!(progress_percent(300, 200), 100);
    assert_eq!(transfer_rate(1000, 0), 0);
    assert_eq!(transfer_rate(1000, 4), 250);
    assert_eq!(remaining_seconds(400, 1000, 200), 3);
    assert_eq!(remaining_seconds(1000, 1000, 200), 0);
    assert_eq!(remaining_seconds(400, 1000, 0), 0);
}
