//! Download planning: cache file names, the bounded pool of fetches, and the
//! accounting of one transfer.
use vstd::prelude::*;
use vstd::string::*;

use crate::bucket_app::BucketApp;
use crate::manifest::{project, Architecture, DownloadUrl, Manifest};
use crate::text::str_eq;

verus! {

/// How many fetches run at once unless asked otherwise.
pub const DOWNLOAD_CONCURRENCY: usize = 4;

/// A character that file names on some platform cannot hold.
pub open spec fn is_unsafe_file_char(c: char) -> bool {
    ||| c == '/' || c == '?' || c == '<' || c == '>' || c == '\\'
    ||| c == ':' || c == '*' || c == '|' || c == '"'
    ||| ('\u{0}' <= c <= '\u{1f}')
    ||| ('\u{80}' <= c <= '\u{9f}')
}

/// What `s` becomes as a file name: the characters that file names cannot
/// hold removed, by the Windows rules on every platform.
pub uninterp spec fn sanitized_name(s: Seq<char>) -> Seq<char>;

/// Relies on sanitize_filename::sanitize_with_options with the Windows rules,
/// truncation and an empty replacement: the result depends on the text alone,
/// and it removes the characters that file names cannot hold and adds none.
#[verifier::external_body]
fn sanitize(s: &str) -> (r: String)
    ensures
        r@ == sanitized_name(s@),
        forall|i: int| 0 <= i < r@.len() ==> !is_unsafe_file_char(#[trigger] r@[i]),
{
    let options = sanitize_filename::Options { windows: true, truncate: true, replacement: "" };
    sanitize_filename::sanitize_with_options(s, options)
}

/// The version under which an app's downloads are stored: a `nightly`
/// version is qualified with the date.
pub open spec fn cache_version(version: Seq<char>, today: Seq<char>) -> Seq<char> {
    if version == "nightly"@ {
        "nightly-"@ + today
    } else {
        version
    }
}

/// The version under which an app's downloads are stored.
pub fn effective_version(version: &str, today: &str) -> (r: String)
    ensures
        r@ == cache_version(version@, today@),
{
    if str_eq(version, "nightly") {
        let mut r = String::from_str("nightly-");
        r.append(today);
        r
    } else {
        String::from_str(version)
    }
}

/// `<app>-<version>-<url>`, with the URL already made safe for a file name.
pub open spec fn cache_name(app: Seq<char>, version: Seq<char>, safe_url: Seq<char>) -> Seq<char> {
    app + seq!['-'] + version + seq!['-'] + safe_url
}

/// The name of the cache file of a download.
pub fn cache_file_name(app: &str, version: &str, safe_url: &str) -> (r: String)
    ensures
        r@ == cache_name(app@, version@, safe_url@),
{
    let mut r = String::from_str(app);
    r.append("-");
    r.append(version);
    r.append("-");
    r.append(safe_url);
    proof {
        reveal_strlit("-");
    }
    r
}

pub open spec fn digit_char(d: int) -> char {
    if d == 0 {
        '0'
    } else if d == 1 {
        '1'
    } else if d == 2 {
        '2'
    } else if d == 3 {
        '3'
    } else if d == 4 {
        '4'
    } else if d == 5 {
        '5'
    } else if d == 6 {
        '6'
    } else if d == 7 {
        '7'
    } else if d == 8 {
        '8'
    } else {
        '9'
    }
}

/// The decimal digits of `n`.
pub open spec fn decimal(n: nat) -> Seq<char>
    decreases n,
{
    if n < 10 {
        seq![digit_char(n as int)]
    } else {
        decimal(n / 10) + seq![digit_char((n % 10) as int)]
    }
}

fn digit_str(d: usize) -> (r: &'static str)
    requires
        d < 10,
    ensures
        r@ == seq![digit_char(d as int)],
{
    if d == 0 {
        proof { reveal_strlit("0"); }
        "0"
    } else if d == 1 {
        proof { reveal_strlit("1"); }
        "1"
    } else if d == 2 {
        proof { reveal_strlit("2"); }
        "2"
    } else if d == 3 {
        proof { reveal_strlit("3"); }
        "3"
    } else if d == 4 {
        proof { reveal_strlit("4"); }
        "4"
    } else if d == 5 {
        proof { reveal_strlit("5"); }
        "5"
    } else if d == 6 {
        proof { reveal_strlit("6"); }
        "6"
    } else if d == 7 {
        proof { reveal_strlit("7"); }
        "7"
    } else if d == 8 {
        proof { reveal_strlit("8"); }
        "8"
    } else {
        proof { reveal_strlit("9"); }
        "9"
    }
}

/// `n` written in decimal.
pub fn to_decimal(n: usize) -> (r: String)
    ensures
        r@ == decimal(n as nat),
    decreases n,
{
    if n < 10 {
        String::from_str(digit_str(n))
    } else {
        let mut r = to_decimal(n / 10);
        r.append(digit_str(n % 10));
        r
    }
}

/// The label of download `index` (from 0) of `count` downloads of an app:
/// `<app> <version>`, numbered from 1 when the app has several.
pub open spec fn show_label(app: Seq<char>, version: Seq<char>, index: nat, count: nat) -> Seq<char> {
    if count == 1 {
        app + seq![' '] + version
    } else {
        app + seq![' '] + version + seq![' ', '('] + decimal(index + 1) + seq![')']
    }
}

/// The label under which a download's progress is shown.
pub fn show_name(app: &str, version: &str, index: usize, count: usize) -> (r: String)
    requires
        index < count,
    ensures
        r@ == show_label(app@, version@, index as nat, count as nat),
{
    let mut r = String::from_str(app);
    r.append(" ");
    r.append(version);
    proof {
        reveal_strlit(" ");
    }
    if count != 1 {
        r.append(" (");
        r.append(to_decimal(index + 1).as_str());
        r.append(")");
        proof {
            reveal_strlit(" (");
            reveal_strlit(")");
        }
    }
    r
}

/// One file to fetch into the cache.
#[derive(Debug, Clone)]
pub struct DownloadJob {
    pub url: String,
    pub cache_file_name: String,
    pub show_name: String,
}

/// The URLs that an app downloads on an architecture.
pub open spec fn urls_of(m: Manifest, arch: Architecture) -> Seq<crate::manifest::DownloadUrlV> {
    match project(m.deep_view(), arch).url {
        Some(u) => u,
        None => Seq::empty(),
    }
}

/// The fetches of one app: one per URL of the manifest projected onto `arch`,
/// each stored as `<app>-<version>-<url made safe>`, where a `nightly`
/// version is qualified with `today` (`YYYY-MM-DD`, read by the caller).
pub fn download_jobs_on(app: &BucketApp, manifest: Manifest, arch: Architecture, today: &str) -> (r:
    Vec<DownloadJob>)
    ensures
        r.len() == urls_of(manifest, arch).len(),
        forall|i: int|
            #![trigger r@[i]]
            0 <= i < r.len() ==> {
                let v = cache_version(manifest.version@, today@);
                &&& r@[i].url@ == urls_of(manifest, arch)[i].url
                &&& r@[i].show_name@ == show_label(app.name@, v, i as nat, r.len() as nat)
                &&& r@[i].cache_file_name@ == cache_name(
                    app.name@,
                    v,
                    sanitized_name(urls_of(manifest, arch)[i].url),
                )
            },
{
    let ghost m = manifest;
    let version = effective_version(manifest.version.as_str(), today);
    let urls: Vec<DownloadUrl> = match manifest.architecture(arch).url {
        Some(u) => u,
        None => Vec::new(),
    };
    assert(urls.deep_view() == urls_of(m, arch));
    let count = urls.len();
    let mut out: Vec<DownloadJob> = Vec::new();
    let mut i: usize = 0;
    while i < count
        invariant
            count == urls.len(),
            urls.deep_view() == urls_of(m, arch),
            version@ == cache_version(m.version@, today@),
            i <= count,
            out.len() == i,
            forall|q: int|
                #![trigger out@[q]]
                0 <= q < i ==> {
                    &&& out@[q].url@ == urls_of(m, arch)[q].url
                    &&& out@[q].show_name@ == show_label(app.name@, version@, q as nat, count as nat)
                    &&& out@[q].cache_file_name@ == cache_name(
                        app.name@,
                        version@,
                        sanitized_name(urls_of(m, arch)[q].url),
                    )
                },
        decreases count - i,
    {
        let u = &urls[i];
        let safe = sanitize(u.url.as_str());
        let job = DownloadJob {
            url: u.url.clone(),
            cache_file_name: cache_file_name(app.name.as_str(), version.as_str(), safe.as_str()),
            show_name: show_name(app.name.as_str(), version.as_str(), i, count),
        };
        assert(job.url@ == urls_of(m, arch)[i as int].url);
        out.push(job);
        i = i + 1;
    }
    out
}

} // verus!
