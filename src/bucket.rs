//! Buckets: named collections of manifests, and the scan of one on disk.
use vstd::prelude::*;
use vstd::string::*;

use crate::bucket_app::{BucketApp, BucketAppV};
use crate::dirs::{join, join_path, Dirs};
use crate::text::{is_last_index, str_eq};
use crate::utils::get_stem;

verus! {

/// A bucket, identified by its name.
#[derive(Debug, Clone)]
pub struct Bucket {
    pub name: String,
}

impl Bucket {
    pub fn from_name(name: &str) -> (r: Bucket)
        ensures
            r.name@ == name@,
    {
        Bucket { name: String::from_str(name) }
    }

    /// `<root>/buckets/<name>`
    pub fn path(&self, dirs: &Dirs) -> (r: String)
        ensures
            r@ == join(join(dirs.root@, "buckets"@), self.name@),
    {
        join_path(dirs.buckets_dir().as_str(), self.name.as_str())
    }
}

/// A file met while walking a bucket's directory tree.
#[derive(Debug, Clone)]
pub struct ScanEntry {
    /// The components of the path below the bucket's directory.
    pub components: Vec<String>,
    /// The full path of the file.
    pub path: String,
    pub is_file: bool,
}

/// The model of [`ScanEntry`].
pub struct ScanEntryV {
    pub components: Seq<Seq<char>>,
    pub path: Seq<char>,
    pub is_file: bool,
}

impl DeepView for ScanEntry {
    type V = ScanEntryV;

    open spec fn deep_view(&self) -> ScanEntryV {
        ScanEntryV {
            components: self.components.deep_view(),
            path: self.path@,
            is_file: self.is_file,
        }
    }
}

/// A name that the walk does not enter or take: it starts with a dot.
pub open spec fn is_hidden(name: Seq<char>) -> bool {
    name.len() > 0 && name[0] == '.'
}

/// Whether `name` starts with a dot.
pub fn is_hidden_name(name: &str) -> (r: bool)
    ensures
        r == is_hidden(name@),
{
    name.unicode_len() > 0 && name.get_char(0) == '.'
}

/// The stem of a file name whose extension is `json`.
pub open spec fn json_stem(name: Seq<char>) -> Option<Seq<char>> {
    if exists|i: int| is_last_index(name, '.', i) {
        let i = choose|i: int| is_last_index(name, '.', i);
        if name.skip(i + 1) == "json"@ {
            Some(name.take(i))
        } else {
            None
        }
    } else {
        None
    }
}

/// A scanned file that is the manifest of an app: a regular file, under no
/// dot-directory, named `<app>.json`. Gives the app's name.
pub open spec fn manifest_name(components: Seq<Seq<char>>, is_file: bool) -> Option<Seq<char>> {
    if is_file && components.len() > 0 && forall|k: int|
        0 <= k < components.len() ==> !is_hidden(#[trigger] components[k]) {
        json_stem(components.last())
    } else {
        None
    }
}

proof fn lemma_last_index_unique(s: Seq<char>, c: char, i: int, j: int)
    requires
        is_last_index(s, c, i),
        is_last_index(s, c, j),
    ensures
        i == j,
{
}

impl ScanEntry {
    /// The app that this entry is the manifest of, if any.
    pub fn app_name(&self) -> (r: Option<String>)
        ensures
            r.deep_view() == manifest_name(self.components.deep_view(), self.is_file),
    {
        let n = self.components.len();
        if !self.is_file || n == 0 {
            return None;
        }
        let mut k: usize = 0;
        while k < n
            invariant
                n == self.components.len(),
                k <= n,
                forall|q: int| 0 <= q < k ==> !is_hidden(#[trigger] self.components.deep_view()[q]),
            decreases n - k,
        {
            if is_hidden_name(self.components[k].as_str()) {
                assert(is_hidden(self.components.deep_view()[k as int]));
                return None;
            }
            k = k + 1;
        }
        let last = self.components[n - 1].as_str();
        assert(last@ == self.components.deep_view().last());
        let (stem, ext) = get_stem(last);
        match ext {
            Some(e) => {
                proof {
                    reveal_strlit("json");
                    assert(exists|i: int| is_last_index(last@, '.', i)) by {
                        assert(last@.contains('.')) by {
                            if !last@.contains('.') {
                                assert(ext is None);
                            }
                        }
                        let w = choose|w: int| 0 <= w < last@.len() && last@[w] == '.';
                        lemma_last_index_exists(last@, '.', w);
                    }
                    let i = choose|i: int| is_last_index(last@, '.', i);
                    assert(stem@ == last@.take(i) && e@ == last@.skip(i + 1));
                }
                if str_eq(e, "json") {
                    Some(String::from_str(stem))
                } else {
                    None
                }
            },
            None => {
                proof {
                    if exists|i: int| is_last_index(last@, '.', i) {
                        let i = choose|i: int| is_last_index(last@, '.', i);
                        assert(last@[i] == '.');
                    }
                }
                None
            },
        }
    }
}

/// The apps after one more scanned file: a manifest adds its app, or
/// replaces the app of the same name met before.
pub open spec fn scan_step(prev: Seq<BucketAppV>, bucket: Seq<char>, e: ScanEntryV) -> Seq<
    BucketAppV,
> {
    match manifest_name(e.components, e.is_file) {
        None => prev,
        Some(n) => {
            let app = BucketAppV { name: n, metadata_path: e.path, bucket };
            if exists|k: int| 0 <= k < prev.len() && prev[k].name == n {
                let k = choose|k: int| 0 <= k < prev.len() && prev[k].name == n;
                prev.update(k, app)
            } else {
                prev.push(app)
            }
        },
    }
}

/// The apps of a bucket whose walk met `entries`, in that order.
pub open spec fn scan_apps(bucket: Seq<char>, entries: Seq<ScanEntryV>) -> Seq<BucketAppV>
    decreases entries.len(),
{
    if entries.len() == 0 {
        Seq::empty()
    } else {
        scan_step(scan_apps(bucket, entries.drop_last()), bucket, entries.last())
    }
}

/// No two apps share a name.
pub open spec fn names_distinct(apps: Seq<BucketAppV>) -> bool {
    forall|i: int, j: int| 0 <= i < j < apps.len() ==> apps[i].name != apps[j].name
}

impl Bucket {
    /// The apps of this bucket, from the files that a walk of its directory
    /// met: one app per `<app>.json` file outside dot-directories, the file
    /// met last winning among files of the same name.
    pub fn apps(&self, entries: &Vec<ScanEntry>) -> (r: Vec<BucketApp>)
        ensures
            r.deep_view() == scan_apps(self.name@, entries.deep_view()),
            names_distinct(r.deep_view()),
            forall|i: int| 0 <= i < r.len() ==> (#[trigger] r.deep_view()[i]).bucket == self.name@,
    {
        let mut out: Vec<BucketApp> = Vec::new();
        let mut i: usize = 0;
        while i < entries.len()
            invariant
                i <= entries.len(),
                out.deep_view() == scan_apps(self.name@, entries.deep_view().take(i as int)),
                names_distinct(out.deep_view()),
                forall|q: int| 0 <= q < out.len() ==> (#[trigger] out.deep_view()[q]).bucket == self.name@,
            decreases entries.len() - i,
        {
            let ghost es = entries.deep_view();
            assert(es.take(i + 1).drop_last() =~= es.take(i as int));
            assert(es.take(i + 1).last() == es[i as int]);
            let e = &entries[i];
            match e.app_name() {
                None => {},
                Some(n) => {
                    let ghost prev = out.deep_view();
                    let app = BucketApp {
                        name: n.clone(),
                        metadata_path: e.path.clone(),
                        bucket: self.name.clone(),
                    };
                    match position_of_name(&out, &n) {
                        Some(k) => {
                            proof {
                                let c = choose|c: int| 0 <= c < prev.len() && prev[c].name == n@;
                                assert(c == k);
                            }
                            out[k] = app;
                            assert(out.deep_view() =~= prev.update(k as int, app.deep_view()));
                        },
                        None => {
                            out.push(app);
                            assert(out.deep_view() =~= prev.push(app.deep_view()));
                        },
                    }
                },
            }
            i = i + 1;
        }
        assert(entries.deep_view().take(i as int) =~= entries.deep_view());
        out
    }
}

/// Where the app named `name` stands in `apps`.
fn position_of_name(apps: &Vec<BucketApp>, name: &String) -> (r: Option<usize>)
    ensures
        r matches Some(k) ==> k < apps.len() && apps.deep_view()[k as int].name == name@
            && forall|q: int| 0 <= q < k ==> (#[trigger] apps.deep_view()[q]).name != name@,
        r is None ==> forall|q: int| 0 <= q < apps.len() ==> (#[trigger] apps.deep_view()[q]).name != name@,
{
    let mut k: usize = 0;
    while k < apps.len()
        invariant
            k <= apps.len(),
            forall|q: int| 0 <= q < k ==> (#[trigger] apps.deep_view()[q]).name != name@,
        decreases apps.len() - k,
    {
        if apps[k].name == *name {
            return Some(k);
        }
        k = k + 1;
    }
    None
}

proof fn lemma_last_index_exists(s: Seq<char>, c: char, k: int)
    requires
        0 <= k < s.len(),
        s[k] == c,
    ensures
        exists|i: int| is_last_index(s, c, i),
    decreases s.len() - k,
{
    if !is_last_index(s, c, k) {
        let j = choose|j: int| k < j < s.len() && s[j] == c;
        lemma_last_index_exists(s, c, j);
    }
}

} // verus!
