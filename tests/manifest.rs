use scoop_core::json::{Json, ManifestError};
use scoop_core::manifest::{get_shim_name, Architecture, Bin, Checkver, CheckverTemplate, DownloadUrl, License, Manifest, Suggest};

fn manifest(extra: &str) -> Result<Manifest, ManifestError> {
    let text = format!(
        r#"{{"version": "1.0", "homepage": "https://example.org", "license": "MIT"{}}}"#,
        extra
    );
    Manifest::from_str(&text)
}

fn bins(m: &Manifest) -> Vec<(String, String, Option<Vec<String>>)> {
    m.bin
        .as_ref()
        .unwrap()
        .iter()
        .map(|b: &Bin| (b.target.clone(), b.name.clone(), b.args.clone()))
        .collect()
}

#[test]
fn bin_string_yields_one_shim() {
    let m = manifest(r#", "bin": "foo.exe""#).unwrap();
    assert_eq!(bins(&m), vec![("foo.exe".to_string(), "foo".to_string(), None)]);
}

#[test]
fn bin_list_with_tuple_carries_args() {
    let m = manifest(r#", "bin": ["a.exe", ["b.exe", "bee", "--flag"]]"#).unwrap();
    assert_eq!(
        bins(&m),
        vec![
            ("a.exe".to_string(), "a".to_string(), None),
            ("b.exe".to_string(), "bee".to_string(), Some(vec!["--flag".to_string()])),
        ]
    );
}

#[test]
fn bin_pair_has_no_args() {
    let m = manifest(r#", "bin": [["b.exe", "bee"]]"#).unwrap();
    assert_eq!(bins(&m), vec![("b.exe".to_string(), "bee".to_string(), None)]);
}

#[test]
fn bin_tuple_of_one_is_rejected() {
    match manifest(r#", "bin": [["b.exe"]]"#) {
        Err(ManifestError::Invalid { field }) => assert_eq!(field, "bin"),
        other => panic!("unexpected {:?}", other),
    }
}

#[test]
fn persist_uses_the_shim_shorthand() {
    let m = manifest(r#", "persist": ["data", ["conf", "config"]]"#).unwrap();
    let p = m.persist.unwrap();
    assert_eq!(p.len(), 2);
    assert_eq!(p[0].name, "data");
    assert_eq!(p[1].target, "conf");
    assert_eq!(p[1].name, "config");
}

#[test]
fn shim_names_drop_directory_and_extension() {
    assert_eq!(get_shim_name("bin\\tool.exe"), "tool");
    assert_eq!(get_shim_name("lib/app.tar.gz"), "app.tar");
    assert_eq!(get_shim_name(".bashrc"), ".bashrc");
    assert_eq!(get_shim_name("plain"), "plain");
    assert_eq!(get_shim_name("dir/"), "dir");
    assert_eq!(get_shim_name("a\\tool.exe\\"), "tool");
    assert_eq!(get_shim_name(".."), "..");
    assert_eq!(get_shim_name("x/."), "x/.");
    assert_eq!(get_shim_name(""), "");
}

#[test]
fn comment_aliases() {
    let m = manifest(r###", "##": "hello""###).unwrap();
    assert_eq!(m.comment, Some(vec!["hello".to_string()]));
    let m = manifest(r#", "_comment": ["a", "b"]"#).unwrap();
    assert_eq!(m.comment, Some(vec!["a".to_string(), "b".to_string()]));
}

#[test]
fn scalar_is_a_list_of_one() {
    let m = manifest(r#", "url": "https://x.org/a.zip", "notes": "note", "depends": "main/git""#).unwrap();
    let urls = m.url.unwrap();
    assert_eq!(urls.len(), 1);
    assert_eq!(urls[0].url, "https://x.org/a.zip");
    assert_eq!(m.notes, Some(vec!["note".to_string()]));
    let deps = m.depends.unwrap();
    assert_eq!(deps.len(), 1);
    assert_eq!(deps[0].bucket_name.as_deref(), Some("main"));
    assert_eq!(deps[0].name, "git");
}

#[test]
fn unknown_fields_are_ignored() {
    let m = manifest(r#", "something_new": {"x": 1}"#).unwrap();
    assert_eq!(m.version, "1.0");
}

#[test]
fn malformed_json_is_a_syntax_error() {
    match Manifest::from_str("{\"version\": ") {
        Err(ManifestError::Syntax { line, .. }) => assert_eq!(line, 1),
        other => panic!("unexpected {:?}", other),
    }
}

#[test]
fn missing_version_is_reported() {
    match Manifest::from_str(r#"{"homepage": "h", "license": "MIT"}"#) {
        Err(ManifestError::Missing { field }) => assert_eq!(field, "version"),
        other => panic!("unexpected {:?}", other),
    }
}

#[test]
fn empty_version_is_rejected() {
    let r = Manifest::from_str(r#"{"version": "", "homepage": "h", "license": "MIT"}"#);
    assert!(matches!(r, Err(ManifestError::EmptyVersion)));
}

#[test]
fn wrong_type_names_the_field() {
    match manifest(r#", "description": 5"#) {
        Err(ManifestError::Invalid { field }) => assert_eq!(field, "description"),
        other => panic!("unexpected {:?}", other),
    }
}

#[test]
fn top_level_must_be_an_object() {
    assert!(matches!(Manifest::from_str("[1, 2]"), Err(ManifestError::Shape)));
}

#[test]
fn license_object_and_string() {
    let m = Manifest::from_str(
        r#"{"version": "1", "homepage": "h", "license": {"identifier": "Freeware", "url": "https://l"}}"#,
    )
    .unwrap();
    match m.license {
        License::Details(d) => {
            assert_eq!(d.identifier.as_deref(), Some("Freeware"));
            assert_eq!(d.url.as_deref(), Some("https://l"));
        }
        other => panic!("unexpected {:?}", other),
    }
    assert!(matches!(manifest("").unwrap().license, License::String(s) if s == "MIT"));
}

#[test]
fn checkver_forms() {
    let m = manifest(r#", "checkver": "github""#).unwrap();
    assert!(matches!(m.checkver, Some(Checkver::Template(CheckverTemplate::Github))));
    let m = manifest(r#", "checkver": "v([\\d.]+)""#).unwrap();
    assert!(matches!(m.checkver, Some(Checkver::String(s)) if s == "v([\\d.]+)"));
    let m = manifest(r#", "checkver": {"url": "https://u", "jsonpath": "$.v"}"#).unwrap();
    match m.checkver {
        Some(Checkver::CheckverClass(c)) => {
            assert_eq!(c.url.as_deref(), Some("https://u"));
            assert_eq!(c.jsonpath.as_deref(), Some("$.v"));
        }
        other => panic!("unexpected {:?}", other),
    }
}

#[test]
fn hash_extraction_aliases() {
    let m = manifest(r#", "autoupdate": {"hash": {"jp": "$.sha", "find": "x([a-f0-9]+)", "mode": "json"}}"#)
        .unwrap();
    let h = m.autoupdate.unwrap().hash.unwrap();
    assert_eq!(h.len(), 1);
    assert_eq!(h[0].jsonpath.as_deref(), Some("$.sha"));
    assert_eq!(h[0].regex.as_deref(), Some("x([a-f0-9]+)"));
}

#[test]
fn suggest_dictionary() {
    let m = manifest(r#", "suggest": {"JDK": ["java/openjdk", "zulu"]}"#).unwrap();
    match m.suggest {
        Some(Suggest::Dict(d)) => {
            assert_eq!(d.len(), 1);
            assert_eq!(d[0].0, "JDK");
            let names = (d[0].1).0.as_ref().unwrap();
            assert_eq!(names[0].to_string(), "java/openjdk");
            assert_eq!(names[1].to_string(), "zulu");
        }
        other => panic!("unexpected {:?}", other),
    }
}

#[test]
fn env_set_values() {
    let m = manifest(r#", "env_set": {"JAVA_HOME": "$dir", "EMPTY": null, "LEVEL": 3, "LIST": [1, "a"]}"#)
        .unwrap();
    let env = m.env_set.unwrap();
    assert_eq!(env.len(), 4);
    let get = |k: &str| env.iter().find(|(n, _)| n == k).map(|(_, v)| v.clone()).unwrap();
    assert!(matches!(get("JAVA_HOME"), Some(Json::Str(s)) if s == "$dir"));
    assert!(get("EMPTY").is_none());
    assert!(matches!(get("LEVEL"), Some(Json::Number(n)) if n == "3"));
    match get("LIST") {
        Some(Json::Array(items)) => {
            assert_eq!(items.len(), 2);
            assert!(matches!(&items[1], Json::Str(s) if s == "a"));
        }
        other => panic!("unexpected {:?}", other),
    }
    let m = manifest(r#", "cookie": {"oraclelicense": "accept-securebackup-cookie"}"#).unwrap();
    assert_eq!(m.cookie.unwrap().len(), 1);
}

#[test]
fn architecture_override_wins_and_top_level_fills_in() {
    let m = manifest(
        r#", "url": "https://x/top.zip", "bin": "top.exe",
            "architecture": {"64bit": {"url": "https://x/64.zip"}}"#,
    )
    .unwrap();
    let a = m.clone().architecture(Architecture::Amd64);
    assert_eq!(a.url.unwrap()[0].url, "https://x/64.zip");
    assert_eq!(a.bin.unwrap()[0].target, "top.exe");
    let a = m.clone().architecture(Architecture::X86);
    assert_eq!(a.url.unwrap()[0].url, "https://x/top.zip");
    let a = m.architecture(Architecture::Generic);
    assert_eq!(a.url.unwrap()[0].url, "https://x/top.zip");
    assert!(a.hash.is_none());
}

#[test]
fn download_url_rename_suffix() {
    let u = DownloadUrl::parse("https://x.org/dl?id=1#/setup.exe");
    assert_eq!(u.url, "https://x.org/dl?id=1");
    assert_eq!(u.file_name.as_deref(), Some("setup.exe"));
    assert_eq!(u.to_string(), "https://x.org/dl?id=1/#setup.exe");
    let u = DownloadUrl::parse("https://x.org/a.zip");
    assert_eq!(u.url, "https://x.org/a.zip");
    assert!(u.file_name.is_none());
    assert_eq!(u.to_string(), "https://x.org/a.zip");
}

#[test]
fn decode_from_a_built_tree() {
    let j = Json::Object(vec![
        ("version".to_string(), Json::Str("2.0".to_string())),
        ("homepage".to_string(), Json::Str("h".to_string())),
        ("license".to_string(), Json::Str("MIT".to_string())),
        ("innosetup".to_string(), Json::Bool(true)),
    ]);
    let m = <Manifest as scoop_core::json::FromJson>::from_json(&j).unwrap();
    assert_eq!(m.version, "2.0");
    assert_eq!(m.innosetup, Some(true));
}
