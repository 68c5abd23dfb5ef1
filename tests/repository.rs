use scoop_core::bucket::{Bucket, ScanEntry};
use scoop_core::bucket_app::{BucketApp, BucketAppName, BucketsAppsRepository};
use scoop_core::dirs::Dirs;
use scoop_core::installed_app::{AppVersion, InstalledApp, StoreError};
use scoop_core::utils::get_stem;

fn entry(parts: &[&str]) -> ScanEntry {
    ScanEntry {
        components: parts.iter().map(|p| p.to_string()).collect(),
        path: format!("/b/{}", parts.join("/")),
        is_file: true,
    }
}

fn app(bucket: &str, name: &str) -> BucketApp {
    BucketApp {
        name: name.to_string(),
        metadata_path: format!("/b/{}/{}.json", bucket, name),
        bucket: bucket.to_string(),
    }
}

#[test]
fn scan_skips_dot_directories_and_other_files() {
    let bucket = Bucket::from_name("main");
    let entries = vec![entry(&["app.json"]), entry(&[".git", "config.json"]), entry(&["notes.txt"])];
    let apps = bucket.apps(&entries);
    assert_eq!(apps.len(), 1);
    assert_eq!(apps[0].name, "app");
    assert_eq!(apps[0].bucket, "main");
    assert_eq!(apps[0].metadata_path, "/b/app.json");
}

#[test]
fn scan_keeps_the_last_file_of_a_name() {
    let bucket = Bucket::from_name("main");
    let mut dir = entry(&["sub"]);
    dir.is_file = false;
    let entries = vec![entry(&["bucket", "git.json"]), dir, entry(&["old", "git.json"]), entry(&[".hidden.json"])];
    let apps = bucket.apps(&entries);
    assert_eq!(apps.len(), 1);
    assert_eq!(apps[0].metadata_path, "/b/old/git.json");
}

#[test]
fn stem_splits_at_the_last_dot() {
    assert_eq!(get_stem("a.exe"), ("a", Some("exe")));
    assert_eq!(get_stem("a.tar.gz"), ("a.tar", Some("gz")));
    assert_eq!(get_stem("noext"), ("noext", None));
}

#[test]
fn bucket_app_name_round_trips() {
    assert_eq!(BucketAppName::parse("bucket/app").to_string(), "bucket/app");
    assert_eq!(BucketAppName::parse("app").to_string(), "app");
    let n = BucketAppName::parse("extras/some/thing");
    assert_eq!(n.bucket_name.as_deref(), Some("extras"));
    assert_eq!(n.name, "some/thing");
    assert_eq!(n.to_string(), "extras/some/thing");
    let n: BucketAppName = "main/git".parse().unwrap();
    assert_eq!(n.name, "git");
}

fn repo() -> BucketsAppsRepository {
    BucketsAppsRepository::from_buckets(vec![
        (Bucket::from_name("main"), vec![app("main", "git"), app("main", "7zip")]),
        (Bucket::from_name("extras"), vec![app("extras", "git"), app("extras", "vscode")]),
    ])
}

#[test]
fn lookup_with_and_without_bucket() {
    let r = repo();
    assert_eq!(r.buckets.len(), 2);
    assert_eq!(r.apps.len(), 4);
    let a = BucketAppName::parse("extras/git").get_bucket_app(&r).unwrap();
    assert_eq!(a.bucket, "extras");
    let a = BucketAppName::parse("git").get_bucket_app(&r).unwrap();
    assert_eq!(a.bucket, "main");
    assert!(BucketAppName::parse("main/vscode").get_bucket_app(&r).is_none());
    assert!(BucketAppName::parse("nothing").get_bucket_app(&r).is_none());
    assert_eq!(r.position(&BucketAppName::parse("vscode")), Some(3));
}

#[test]
fn paths_under_the_root() {
    let dirs = Dirs::new("/home/u/scoop");
    assert_eq!(dirs.buckets_dir(), "/home/u/scoop/buckets");
    assert_eq!(dirs.cache_dir(), "/home/u/scoop/cache");
    assert_eq!(Bucket::from_name("main").path(&dirs), "/home/u/scoop/buckets/main");
    let app = InstalledApp::from_name("git");
    assert_eq!(app.path(&dirs), "/home/u/scoop/apps/git");
    assert_eq!(app.current_path(&dirs), "/home/u/scoop/apps/git/current");
    let v = AppVersion { app: "git".to_string(), version: "2.40".to_string() };
    assert_eq!(v.path(&dirs), "/home/u/scoop/apps/git/2.40");
    assert_eq!(v.install_info_path(&dirs), "/home/u/scoop/apps/git/2.40/install.json");
}

#[test]
fn versions_skip_the_current_pointer() {
    let app = InstalledApp::from_name("git");
    let v = app.versions(&vec!["2.39".to_string(), "current".to_string(), "2.40".to_string()]);
    let names: Vec<&str> = v.iter().map(|v| v.version.as_str()).collect();
    assert_eq!(names, vec!["2.39", "2.40"]);
    assert_eq!(app.current_version(Some("2.40")).unwrap().version, "2.40");
    assert_eq!(app.current_version(None).unwrap_err(), StoreError::NoCurrentVersion);
}

#[test]
fn empty_scan_has_no_apps() {
    assert!(Bucket::from_name("main").apps(&Vec::new()).is_empty());
    let r = BucketsAppsRepository::from_buckets(Vec::new());
    assert!(r.apps.is_empty());
    assert!(BucketAppName::parse("git").get_bucket_app(&r).is_none());
}

#[test]
fn bucket_app_install_dir() {
    let dirs = Dirs::new("/s");
    assert_eq!(app("main", "git").path(&dirs), "/s/apps/git");
}
