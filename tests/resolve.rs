use scoop_core::bucket::Bucket;
use scoop_core::bucket_app::{BucketApp, BucketsAppsRepository};
use scoop_core::manifest::Manifest;
use scoop_core::resolve::{resolve, Resolution};

fn repo(names: &[&str]) -> BucketsAppsRepository {
    let apps = names
        .iter()
        .map(|n| BucketApp { name: n.to_string(), metadata_path: format!("{}.json", n), bucket: "main".to_string() })
        .collect();
    BucketsAppsRepository::from_buckets(vec![(Bucket::from_name("main"), apps)])
}

fn with_deps(deps: &[&str]) -> Option<Manifest> {
    let list: Vec<String> = deps.iter().map(|d| format!("\"{}\"", d)).collect();
    let text = format!(
        r#"{{"version": "1", "homepage": "h", "license": "MIT", "depends": [{}]}}"#,
        list.join(", ")
    );
    Some(Manifest::from_str(&text).unwrap())
}

#[test]
fn acyclic_graph_gives_dependencies_first() {
    // a -> b, a -> c, b -> c
    let r = repo(&["a", "b", "c"]);
    let loaded = vec![with_deps(&["b", "c"]), with_deps(&["c"]), with_deps(&[])];
    match resolve(&r, &loaded, 0) {
        Resolution::Plan(p) => assert_eq!(p, vec![2, 1, 0]),
        other => panic!("unexpected {:?}", other),
    }
}

#[test]
fn shared_dependency_appears_once() {
    let r = repo(&["a", "b", "c", "d"]);
    let loaded = vec![with_deps(&["b", "c"]), with_deps(&["d"]), with_deps(&["d"]), with_deps(&[])];
    match resolve(&r, &loaded, 0) {
        Resolution::Plan(p) => {
            assert_eq!(p.len(), 4);
            let pos = |x: usize| p.iter().position(|&y| y == x).unwrap();
            assert!(pos(3) < pos(1) && pos(3) < pos(2) && pos(1) < pos(0) && pos(2) < pos(0));
        }
        other => panic!("unexpected {:?}", other),
    }
}

#[test]
fn two_app_cycle_is_reported() {
    let r = repo(&["a", "b"]);
    let loaded = vec![with_deps(&["b"]), with_deps(&["a"])];
    match resolve(&r, &loaded, 0) {
        Resolution::Cycle(c) => assert_eq!(c, vec![0, 1]),
        other => panic!("unexpected {:?}", other),
    }
}

#[test]
fn self_dependency_is_a_cycle() {
    let r = repo(&["a"]);
    let loaded = vec![with_deps(&["a"])];
    assert!(matches!(resolve(&r, &loaded, 0), Resolution::Cycle(c) if c == vec![0]));
}

#[test]
fn missing_dependency_names_requester() {
    let r = repo(&["a", "b"]);
    let loaded = vec![with_deps(&["b"]), with_deps(&["nope"])];
    match resolve(&r, &loaded, 0) {
        Resolution::DependencyNotFound { app, dependency } => {
            assert_eq!(app, 1);
            assert_eq!(dependency.to_string(), "nope");
        }
        other => panic!("unexpected {:?}", other),
    }
}

#[test]
fn unloaded_manifest_is_requested() {
    let r = repo(&["a", "b"]);
    let loaded = vec![with_deps(&["b"]), None];
    assert!(matches!(resolve(&r, &loaded, 0), Resolution::NeedManifest(1)));
    assert!(matches!(resolve(&r, &vec![None, None], 0), Resolution::NeedManifest(0)));
}

#[test]
fn app_without_dependencies_is_its_own_plan() {
    let r = repo(&["a", "b"]);
    let loaded = vec![with_deps(&[]), None];
    assert!(matches!(resolve(&r, &loaded, 0), Resolution::Plan(p) if p == vec![0]));
}
