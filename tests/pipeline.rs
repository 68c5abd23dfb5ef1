use scoop_core::bucket_app::BucketApp;
use scoop_core::dirs::Dirs;
use scoop_core::download::{cache_file_name, download_jobs_on, effective_version, show_name, to_decimal, DOWNLOAD_CONCURRENCY};
use scoop_core::fetch::{installable, FetchBatch, FetchError, Transfer};
use scoop_core::install::{link_plan, InstallRun, Step, STEP_COUNT};
use scoop_core::manifest::{Architecture, Manifest};

#[test]
fn cache_names_and_versions() {
    assert_eq!(cache_file_name("git", "2.40", "x.zip"), "git-2.40-x.zip");
    assert_eq!(effective_version("nightly", "2024-01-02"), "nightly-2024-01-02");
    assert_eq!(effective_version("1.0", "2024-01-02"), "1.0");
    assert_eq!(show_name("git", "2.40", 0, 1), "git 2.40");
    assert_eq!(show_name("git", "2.40", 11, 12), "git 2.40 (12)");
    assert_eq!(to_decimal(0), "0");
    assert_eq!(to_decimal(1207), "1207");
}

#[test]
fn jobs_follow_the_urls_of_the_architecture() {
    let m = Manifest::from_str(
        r#"{"version": "nightly", "homepage": "h", "license": "MIT",
            "url": ["https://x.org/a.zip", "https://x.org/b.zip#/b.7z"]}"#,
    )
    .unwrap();
    let app = BucketApp { name: "tool".to_string(), metadata_path: "tool.json".to_string(), bucket: "main".to_string() };
    let jobs = download_jobs_on(&app, m, Architecture::Amd64, "2024-05-06");
    assert_eq!(jobs.len(), 2);
    assert_eq!(jobs[0].url, "https://x.org/a.zip");
    assert_eq!(jobs[1].url, "https://x.org/b.zip");
    assert_eq!(jobs[0].show_name, "tool nightly-2024-05-06 (1)");
    assert_eq!(jobs[0].cache_file_name, "tool-nightly-2024-05-06-httpsx.orga.zip");
    assert_eq!(jobs[1].cache_file_name, "tool-nightly-2024-05-06-httpsx.orgb.zip");
}

#[test]
fn two_fetches_start_together_and_both_report() {
    let mut batch = FetchBatch::new(2, DOWNLOAD_CONCURRENCY);
    assert_eq!(batch.start_next(), Some(0));
    assert_eq!(batch.start_next(), Some(1));
    assert_eq!(batch.start_next(), None);
    let mut t1 = Transfer::new(Some(10));
    t1.on_chunk(4).unwrap();
    t1.on_chunk(6).unwrap();
    let mut t0 = Transfer::new(Some(3));
    t0.on_chunk(3).unwrap();
    batch.complete(1, t1.finish());
    assert!(!batch.is_finished());
    batch.complete(0, t0.finish());
    assert!(batch.is_finished());
    let results = batch.into_results();
    assert_eq!(results.len(), 2);
    assert_eq!(results[0].as_ref().unwrap(), &3);
    assert_eq!(results[1].as_ref().unwrap(), &10);
}

#[test]
fn fetch_limit_is_respected_and_failures_are_kept() {
    let mut batch = FetchBatch::new(3, 1);
    assert_eq!(batch.start_next(), Some(0));
    assert_eq!(batch.start_next(), None);
    batch.complete(0, Err(FetchError::Network("reset".to_string())));
    assert_eq!(batch.start_next(), Some(1));
    batch.complete(1, Ok(5));
    assert_eq!(batch.start_next(), Some(2));
    batch.complete(2, Ok(7));
    let results = batch.into_results();
    assert!(matches!(&results[0], Err(FetchError::Network(m)) if m == "reset"));
    assert_eq!(results[2].as_ref().unwrap(), &7);
}

#[test]
fn transfer_length_checks() {
    let mut t = Transfer::new(Some(5));
    t.on_chunk(4).unwrap();
    assert!(matches!(t.finish(), Err(FetchError::LengthMismatch { declared: 5, written: 4 })));
    let mut t = Transfer::new(None);
    t.on_chunk(9).unwrap();
    assert_eq!(t.progress_total(), 0);
    assert_eq!(t.finish().unwrap(), 9);
    let mut t = Transfer::new(None);
    t.on_chunk(u64::MAX).unwrap();
    assert!(matches!(t.on_chunk(1), Err(FetchError::TooLarge)));
    assert_eq!(t.written, u64::MAX);
}

fn run_until(fail_at: Option<Step>) -> InstallRun {
    let mut run = InstallRun::new("2.0".to_string(), Some("1.0".to_string()));
    while let Some(step) = run.next_step() {
        run.record(Some(step) != fail_at);
    }
    run
}

#[test]
fn failed_extract_keeps_the_old_version_current() {
    let run = run_until(Some(Step::Extract));
    assert_eq!(run.failed_step(), Some(Step::Extract));
    assert!(!run.is_complete());
    assert_eq!(run.current_version().as_deref(), Some("1.0"));
    let run = run_until(None);
    assert_eq!(run.current_version().as_deref(), Some("2.0"));
    let run = run_until(Some(Step::CreateShims));
    assert_eq!(run.current_version().as_deref(), Some("2.0"));
}

#[test]
fn steps_run_in_order() {
    let mut run = InstallRun::new("2.0".to_string(), Some("1.0".to_string()));
    let mut seen = Vec::new();
    while let Some(step) = run.next_step() {
        seen.push(step);
        run.record(true);
    }
    assert_eq!(seen.len(), STEP_COUNT);
    assert_eq!(seen[0], Step::PreInstallScript);
    assert_eq!(seen[1], Step::Extract);
    assert_eq!(seen[2], Step::RunInstaller);
    assert_eq!(seen[3], Step::LinkCurrent);
    assert_eq!(seen[11], Step::WriteInstallInfo);
    assert!(run.is_complete());
    assert_eq!(run.failed_step(), None);
}

#[test]
fn failure_after_link_stops_the_rest() {
    let run = run_until(Some(Step::Persist));
    assert_eq!(run.failed_step(), Some(Step::Persist));
    assert_eq!(run.next_step(), None);
}

#[test]
fn link_plan_replaces_by_rename() {
    let dirs = Dirs::new("/r");
    let p = link_plan(&dirs, "git", "2.0");
    assert_eq!(p.target, "/r/apps/git/2.0");
    assert_eq!(p.staging, "/r/apps/git/current.new");
    assert_eq!(p.current, "/r/apps/git/current");
}

#[test]
fn manifest_without_urls_has_no_jobs() {
    let m = Manifest::from_str(r#"{"version": "1", "homepage": "h", "license": "MIT"}"#).unwrap();
    let app = BucketApp { name: "e".to_string(), metadata_path: "e.json".to_string(), bucket: "main".to_string() };
    assert!(download_jobs_on(&app, m, Architecture::Arm64, "2024-01-01").is_empty());
}

#[test]
fn empty_batch_is_finished_at_once() {
    let mut batch = FetchBatch::new(0, 4);
    assert_eq!(batch.start_next(), None);
    assert!(batch.is_finished());
    assert!(batch.into_results().is_empty());
}

#[test]
fn first_install_has_no_previous_version() {
    let mut run = InstallRun::new("1.0".to_string(), None);
    assert_eq!(run.current_version(), None);
    run.record(true);
    run.record(true);
    run.record(true);
    assert_eq!(run.current_version(), None);
    assert_eq!(run.next_step(), Some(Step::LinkCurrent));
    run.record(true);
    assert_eq!(run.current_version().as_deref(), Some("1.0"));
}

#[test]
fn failed_fetch_skips_only_its_app() {
    let plan = vec![2, 0, 1];
    let owners = vec![2, 2, 0, 1];
    let results = vec![Ok(1), Err(FetchError::Storage("full".to_string())), Ok(3), Ok(4)];
    assert_eq!(installable(&plan, &owners, &results), vec![false, true, true]);
    assert_eq!(installable(&vec![5], &Vec::new(), &Vec::new()), vec![true]);
}
