//! Apps of buckets and the `bucket/app` names that refer to them.
use vstd::prelude::*;
use vstd::string::*;

use crate::bucket::Bucket;
use crate::dirs::{join, join_path, Dirs};
use crate::json::{FromJson, Json, ManifestError, ManifestErrorV};
use crate::text::{find_char, is_first_index, slice_owned};

verus! {

/// An app of a bucket: its name, where its manifest lies, and the bucket's name.
#[derive(Debug, Clone)]
pub struct BucketApp {
    pub name: String,
    pub metadata_path: String,
    pub bucket: String,
}

/// The model of [`BucketApp`].
pub struct BucketAppV {
    pub name: Seq<char>,
    pub metadata_path: Seq<char>,
    pub bucket: Seq<char>,
}

impl BucketApp {
    /// `<root>/apps/<name>`, where the app is installed.
    pub fn path(&self, dirs: &Dirs) -> (r: String)
        ensures
            r@ == join(join(dirs.root@, "apps"@), self.name@),
    {
        join_path(dirs.apps_dir().as_str(), self.name.as_str())
    }
}

impl DeepView for BucketApp {
    type V = BucketAppV;

    open spec fn deep_view(&self) -> BucketAppV {
        BucketAppV { name: self.name@, metadata_path: self.metadata_path@, bucket: self.bucket@ }
    }
}

/// A reference to an app, written `bucket/app` or bare `app`.
#[derive(Debug, Clone)]
pub struct BucketAppName {
    pub bucket_name: Option<String>,
    pub name: String,
}

/// What a name holds, as character sequences.
pub open spec fn name_view(bucket_name: Option<String>, name: String) -> (
    Option<Seq<char>>,
    Seq<char>,
) {
    (
        match bucket_name {
            Some(b) => Some(b@),
            None => None,
        },
        name@,
    )
}

/// The name that the text `s` denotes: split at the first `/`, if any.
pub open spec fn parse_name(s: Seq<char>) -> (Option<Seq<char>>, Seq<char>) {
    if s.contains('/') {
        let i = choose|i: int| is_first_index(s, '/', i);
        (Some(s.take(i)), s.skip(i + 1))
    } else {
        (None, s)
    }
}

/// The text of a name.
pub open spec fn format_name(v: (Option<Seq<char>>, Seq<char>)) -> Seq<char> {
    match v.0 {
        Some(b) => b + seq!['/'] + v.1,
        None => v.1,
    }
}

impl View for BucketAppName {
    type V = (Option<Seq<char>>, Seq<char>);

    open spec fn view(&self) -> (Option<Seq<char>>, Seq<char>) {
        name_view(self.bucket_name, self.name)
    }
}

proof fn lemma_first_index_unique(s: Seq<char>, c: char, i: int, j: int)
    requires
        is_first_index(s, c, i),
        is_first_index(s, c, j),
    ensures
        i == j,
{
}

/// Formatting a parsed name gives back the text it was parsed from.
pub proof fn lemma_parse_format_round_trip(s: Seq<char>)
    ensures
        format_name(parse_name(s)) == s,
{
    if s.contains('/') {
        let k = choose|k: int| 0 <= k < s.len() && s[k] == '/';
        assert(exists|i: int| is_first_index(s, '/', i)) by {
            lemma_first_index_exists(s, '/', k);
        }
        let i = choose|i: int| is_first_index(s, '/', i);
        assert(s.take(i) + seq!['/'] + s.skip(i + 1) =~= s);
    }
}

proof fn lemma_first_index_exists(s: Seq<char>, c: char, k: int)
    requires
        0 <= k < s.len(),
        s[k] == c,
    ensures
        exists|i: int| is_first_index(s, c, i),
    decreases k,
{
    if forall|j: int| 0 <= j < k ==> s[j] != c {
        assert(is_first_index(s, c, k));
    } else {
        let j = choose|j: int| 0 <= j < k && s[j] != c;
        let j = choose|j: int| 0 <= j < k && s[j] == c;
        lemma_first_index_exists(s, c, j);
    }
}

/// Parsing the text of a name gives back the name, where the bucket part holds
/// no `/` and, without a bucket, the app part holds none either.
pub proof fn lemma_format_parse_round_trip(v: (Option<Seq<char>>, Seq<char>))
    requires
        v.0 matches Some(b) ==> !b.contains('/'),
        v.0 is None ==> !v.1.contains('/'),
    ensures
        parse_name(format_name(v)) == v,
{
    let s = format_name(v);
    match v.0 {
        Some(b) => {
            let i = b.len() as int;
            assert(s[i] == '/');
            assert forall|j: int| 0 <= j < i implies s[j] != '/' by {
                assert(s[j] == b[j]);
            }
            assert(is_first_index(s, '/', i));
            assert(s.contains('/'));
            let i2 = choose|i: int| is_first_index(s, '/', i);
            lemma_first_index_unique(s, '/', i, i2);
            assert(s.take(i) =~= b);
            assert(s.skip(i + 1) =~= v.1);
            assert(parse_name(s) == (Some(s.take(i2)), s.skip(i2 + 1)));
        },
        None => {},
    }
}

impl BucketAppName {
    /// Parses `bucket/app` (split at the first `/`) or a bare `app`.
    pub fn parse(s: &str) -> (r: BucketAppName)
        ensures
            r@ == parse_name(s@),
    {
        match find_char(s, '/') {
            Some(i) => {
                let n = s.unicode_len();
                let bucket = slice_owned(s, 0, i);
                let name = slice_owned(s, i + 1, n);
                proof {
                    let j = choose|j: int| is_first_index(s@, '/', j);
                    lemma_first_index_unique(s@, '/', i as int, j);
                }
                BucketAppName { bucket_name: Some(bucket), name }
            },
            None => BucketAppName { bucket_name: None, name: String::from_str(s) },
        }
    }

    /// A copy of this name.
    pub fn duplicate(&self) -> (r: BucketAppName)
        ensures
            r@ == self@,
    {
        let bucket_name = match &self.bucket_name {
            Some(b) => Some(b.clone()),
            None => None,
        };
        BucketAppName { bucket_name, name: self.name.clone() }
    }

    /// The text of this name: `bucket/app`, or `app` when no bucket is given.
    pub fn to_string(&self) -> (r: String)
        ensures
            r@ == format_name(self@),
    {
        match &self.bucket_name {
            Some(b) => {
                let mut r = b.clone();
                r.append("/");
                r.append(self.name.as_str());
                proof {
                    reveal_strlit("/");
                }
                r
            },
            None => self.name.clone(),
        }
    }
}

/// An app that the name `n` refers to: same app name, and same bucket when
/// the name gives one.
pub open spec fn refers_to(n: (Option<Seq<char>>, Seq<char>), a: BucketAppV) -> bool {
    &&& a.name == n.1
    &&& n.0 matches Some(b) ==> a.bucket == b
}

/// The first app from position `k` on that `n` refers to.
pub open spec fn lookup_from(apps: Seq<BucketAppV>, n: (Option<Seq<char>>, Seq<char>), k: int) -> Option<
    int,
>
    decreases apps.len() - k,
{
    if k < 0 || k >= apps.len() {
        None
    } else if refers_to(n, apps[k]) {
        Some(k)
    } else {
        lookup_from(apps, n, k + 1)
    }
}

/// A found app stands at or after `k` and is one that `n` refers to; before
/// it, from `k` on, stands none.
pub proof fn lemma_lookup_from(apps: Seq<BucketAppV>, n: (Option<Seq<char>>, Seq<char>), k: int)
    requires
        0 <= k,
    ensures
        lookup_from(apps, n, k) matches Some(j) ==> k <= j < apps.len() && refers_to(n, apps[j])
            && forall|q: int| k <= q < j ==> !refers_to(n, #[trigger] apps[q]),
        lookup_from(apps, n, k) is None ==> forall|q: int|
            k <= q < apps.len() ==> !refers_to(n, #[trigger] apps[q]),
    decreases apps.len() - k,
{
    if k < apps.len() && !refers_to(n, apps[k]) {
        lemma_lookup_from(apps, n, k + 1);
    }
}

/// The first app that `n` refers to. Without a bucket, the first match in
/// listing order wins, even when several buckets hold an app of that name.
pub open spec fn lookup(apps: Seq<BucketAppV>, n: (Option<Seq<char>>, Seq<char>)) -> Option<int> {
    lookup_from(apps, n, 0)
}

/// The apps of a list of scanned buckets, bucket after bucket.
pub open spec fn flatten_apps(scans: Seq<(Bucket, Vec<BucketApp>)>) -> Seq<BucketAppV>
    decreases scans.len(),
{
    if scans.len() == 0 {
        Seq::empty()
    } else {
        flatten_apps(scans.drop_last()) + scans.last().1.deep_view()
    }
}

/// The apps of all buckets, listed bucket by bucket.
#[derive(Debug)]
pub struct BucketsAppsRepository {
    pub buckets: Vec<Bucket>,
    pub apps: Vec<BucketApp>,
}

impl BucketsAppsRepository {
    /// A repository of the given buckets and the apps found in each.
    pub fn from_buckets(scans: Vec<(Bucket, Vec<BucketApp>)>) -> (r: BucketsAppsRepository)
        ensures
            r.buckets.len() == scans.len(),
            forall|i: int| 0 <= i < scans.len() ==> (#[trigger] r.buckets@[i]).name@ == scans@[i].0.name@,
            r.apps.deep_view() == flatten_apps(scans@),
    {
        let mut buckets: Vec<Bucket> = Vec::new();
        let mut apps: Vec<BucketApp> = Vec::new();
        let mut scans = scans;
        let ghost orig = scans@;
        let n = scans.len();
        let mut i: usize = 0;
        assert(orig.skip(0) =~= orig);
        assert(orig.take(0) =~= Seq::<(Bucket, Vec<BucketApp>)>::empty());
        assert(apps.deep_view() =~= Seq::<BucketAppV>::empty());
        while i < n
            invariant
                n == orig.len(),
                i <= n,
                scans@.len() == n - i,
                buckets.len() == i,
                forall|q: int| 0 <= q < i ==> (#[trigger] buckets@[q]).name@ == orig[q].0.name@,
                scans@ == orig.skip(i as int),
                apps.deep_view() == flatten_apps(orig.take(i as int)),
            decreases n - i,
        {
            let (b, mut list) = scans.remove(0);
            assert(orig.skip(i as int).drop_first() =~= orig.skip(i + 1));
            assert(orig.take(i + 1).drop_last() =~= orig.take(i as int));
            assert(list == orig[i as int].1);
            let ghost before = apps.deep_view();
            buckets.push(b);
            apps.append(&mut list);
            assert(apps.deep_view() =~= before + orig[i as int].1.deep_view());
            i = i + 1;
        }
        assert(orig.take(n as int) =~= orig);
        BucketsAppsRepository { buckets, apps }
    }

    /// Where the app that `name` refers to stands.
    pub fn position(&self, name: &BucketAppName) -> (r: Option<usize>)
        ensures
            r matches Some(k) ==> k < self.apps.len() && lookup(self.apps.deep_view(), name@) == Some(
                k as int,
            ),
            r is None ==> lookup(self.apps.deep_view(), name@) is None,
    {
        let ghost apps = self.apps.deep_view();
        let mut k: usize = 0;
        while k < self.apps.len()
            invariant
                apps == self.apps.deep_view(),
                k <= self.apps.len(),
                lookup(apps, name@) == lookup_from(apps, name@, k as int),
            decreases self.apps.len() - k,
        {
            let a = &self.apps[k];
            let same_bucket = match &name.bucket_name {
                Some(b) => a.bucket == *b,
                None => true,
            };
            if a.name == name.name && same_bucket {
                proof {
                    lemma_lookup_from(apps, name@, k as int);
                }
                return Some(k);
            }
            k = k + 1;
        }
        None
    }
}

impl BucketAppName {
    /// The app that this name refers to: with a bucket, the app of that name
    /// in that bucket; without, the first app of that name in listing order.
    pub fn get_bucket_app<'a>(&self, apps: &'a BucketsAppsRepository) -> (r: Option<&'a BucketApp>)
        ensures
            r matches Some(a) ==> lookup(apps.apps.deep_view(), self@) matches Some(k)
                && apps.apps.deep_view()[k] == a.deep_view(),
            r is None ==> lookup(apps.apps.deep_view(), self@) is None,
    {
        match apps.position(self) {
            Some(k) => Some(&apps.apps[k]),
            None => None,
        }
    }
}

impl DeepView for BucketAppName {
    type V = (Option<Seq<char>>, Seq<char>);

    open spec fn deep_view(&self) -> (Option<Seq<char>>, Seq<char>) {
        self@
    }
}

impl FromJson for BucketAppName {
    open spec fn json_spec(j: Json) -> Result<(Option<Seq<char>>, Seq<char>), ManifestErrorV> {
        match j {
            Json::Str(s) => Ok(parse_name(s@)),
            _ => Err(ManifestErrorV::Shape),
        }
    }

    fn from_json(j: &Json) -> (r: Result<BucketAppName, ManifestError>) {
        match j {
            Json::Str(s) => Ok(BucketAppName::parse(s.as_str())),
            _ => Err(ManifestError::Shape),
        }
    }
}

impl std::str::FromStr for BucketAppName {
    type Err = std::convert::Infallible;

    fn from_str(s: &str) -> Result<BucketAppName, std::convert::Infallible> {
        Ok(BucketAppName::parse(s))
    }
}

} // verus!
