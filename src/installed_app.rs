//! Installed apps, their versions, and the `current` pointer.
use vstd::prelude::*;
use vstd::string::*;

use crate::bucket::Bucket;
use crate::dirs::{join, join_path, Dirs};
use crate::text::str_eq;

verus! {

/// An installed app, identified by its name.
#[derive(Debug, Clone)]
pub struct InstalledApp {
    pub name: String,
}

/// One installed version of an app.
#[derive(Debug, Clone)]
pub struct AppVersion {
    /// The name of the app.
    pub app: String,
    pub version: String,
}

/// What produced an installed version, kept in its `install.json`.
#[derive(Debug, Clone)]
pub struct AppInstallInfo {
    pub bucket: Bucket,
    pub architecture: String,
}

/// Why the installed state of an app cannot be read.
#[derive(Debug, Clone, PartialEq, Eq)]
pub enum StoreError {
    /// Versions may exist, but no `current` pointer marks one as in use.
    NoCurrentVersion,
}

/// The entries of an app's directory that are versions: all but `current`.
pub open spec fn version_names(entries: Seq<Seq<char>>) -> Seq<Seq<char>>
    decreases entries.len(),
{
    if entries.len() == 0 {
        Seq::empty()
    } else if entries.last() == "current"@ {
        version_names(entries.drop_last())
    } else {
        version_names(entries.drop_last()).push(entries.last())
    }
}

impl InstalledApp {
    pub fn from_name(name: &str) -> (r: InstalledApp)
        ensures
            r.name@ == name@,
    {
        InstalledApp { name: String::from_str(name) }
    }

    /// `<root>/apps/<name>`
    pub fn path(&self, dirs: &Dirs) -> (r: String)
        ensures
            r@ == join(join(dirs.root@, "apps"@), self.name@),
    {
        join_path(dirs.apps_dir().as_str(), self.name.as_str())
    }

    /// `<root>/apps/<name>/current`, the pointer to the version in use.
    pub fn current_path(&self, dirs: &Dirs) -> (r: String)
        ensures
            r@ == join(join(join(dirs.root@, "apps"@), self.name@), "current"@),
    {
        join_path(self.path(dirs).as_str(), "current")
    }

    /// The versions of this app, from the names of the entries of its
    /// directory: every entry but the `current` pointer.
    pub fn versions(&self, entries: &Vec<String>) -> (r: Vec<AppVersion>)
        ensures
            r.len() == version_names(entries.deep_view()).len(),
            forall|i: int|
                0 <= i < r.len() ==> (#[trigger] r@[i]).app@ == self.name@ && r@[i].version@
                    == version_names(entries.deep_view())[i],
    {
        let mut out: Vec<AppVersion> = Vec::new();
        let mut i: usize = 0;
        while i < entries.len()
            invariant
                i <= entries.len(),
                out.len() == version_names(entries.deep_view().take(i as int)).len(),
                forall|q: int|
                    0 <= q < out.len() ==> (#[trigger] out@[q]).app@ == self.name@ && out@[q].version@
                        == version_names(entries.deep_view().take(i as int))[q],
            decreases entries.len() - i,
        {
            let ghost es = entries.deep_view();
            assert(es.take(i + 1).drop_last() =~= es.take(i as int));
            assert(es.take(i + 1).last() == entries@[i as int]@);
            if !str_eq(entries[i].as_str(), "current") {
                out.push(AppVersion { app: self.name.clone(), version: entries[i].clone() });
            }
            i = i + 1;
        }
        assert(entries.deep_view().take(i as int) =~= entries.deep_view());
        out
    }

    /// The version in use, from the last component of the target of the
    /// `current` pointer; `None` when there is no pointer.
    pub fn current_version(&self, link_target: Option<&str>) -> (r: Result<AppVersion, StoreError>)
        ensures
            link_target is None ==> r == Err::<AppVersion, StoreError>(StoreError::NoCurrentVersion),
            link_target matches Some(t) ==> r matches Ok(v) && v.app@ == self.name@ && v.version@ == t@,
    {
        match link_target {
            Some(t) => Ok(AppVersion { app: self.name.clone(), version: String::from_str(t) }),
            None => Err(StoreError::NoCurrentVersion),
        }
    }
}

impl AppVersion {
    /// `<root>/apps/<app>/<version>`
    pub fn path(&self, dirs: &Dirs) -> (r: String)
        ensures
            r@ == join(join(join(dirs.root@, "apps"@), self.app@), self.version@),
    {
        let app = InstalledApp { name: self.app.clone() };
        join_path(app.path(dirs).as_str(), self.version.as_str())
    }

    /// `<root>/apps/<app>/<version>/install.json`
    pub fn install_info_path(&self, dirs: &Dirs) -> (r: String)
        ensures
            r@ == join(join(join(join(dirs.root@, "apps"@), self.app@), self.version@), "install.json"@),
    {
        join_path(self.path(dirs).as_str(), "install.json")
    }
}

} // verus!
