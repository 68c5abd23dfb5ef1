//! The layout of the install root on disk.
use vstd::prelude::*;
use vstd::string::*;

verus! {

/// `a/b`.
pub open spec fn join(a: Seq<char>, b: Seq<char>) -> Seq<char> {
    a + seq!['/'] + b
}

/// Appends `/` and `b` to the path `a`.
pub fn join_path(a: &str, b: &str) -> (r: String)
    ensures
        r@ == join(a@, b@),
{
    let mut r = String::from_str(a);
    r.append("/");
    r.append(b);
    proof {
        reveal_strlit("/");
    }
    r
}

/// The install root: buckets, installed apps and the download cache live
/// under it. Built once at startup and handed to whatever needs a path.
#[derive(Debug, Clone)]
pub struct Dirs {
    pub root: String,
}

impl Dirs {
    pub fn new(root: &str) -> (r: Dirs)
        ensures
            r.root@ == root@,
    {
        Dirs { root: String::from_str(root) }
    }

    /// `<root>/buckets`
    pub fn buckets_dir(&self) -> (r: String)
        ensures
            r@ == join(self.root@, "buckets"@),
    {
        join_path(self.root.as_str(), "buckets")
    }

    /// `<root>/apps`
    pub fn apps_dir(&self) -> (r: String)
        ensures
            r@ == join(self.root@, "apps"@),
    {
        join_path(self.root.as_str(), "apps")
    }

    /// `<root>/cache`
    pub fn cache_dir(&self) -> (r: String)
        ensures
            r@ == join(self.root@, "cache"@),
    {
        join_path(self.root.as_str(), "cache")
    }
}

} // verus!
