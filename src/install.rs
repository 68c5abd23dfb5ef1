//! The install pipeline of one app: its steps in their fixed order, stopping
//! at the first failure, and the `current` pointer that only the link step
//! moves.
use vstd::prelude::*;
use vstd::string::*;

use crate::dirs::{join, join_path, Dirs};

verus! {

/// A step of the install pipeline.
#[derive(Debug, Clone, Copy, PartialEq, Eq, Structural)]
pub enum Step {
    PreInstallScript,
    Extract,
    RunInstaller,
    LinkCurrent,
    CreateShims,
    CreateShortcuts,
    InstallPsModule,
    SetEnvPath,
    SetEnvVars,
    Persist,
    PostInstallScript,
    WriteInstallInfo,
}

/// The number of steps.
pub const STEP_COUNT: usize = 12;

/// The position of the link step.
pub const LINK_STEP: usize = 3;

/// The `i`-th step.
pub open spec fn step_at(i: int) -> Step {
    if i == 0 {
        Step::PreInstallScript
    } else if i == 1 {
        Step::Extract
    } else if i == 2 {
        Step::RunInstaller
    } else if i == 3 {
        Step::LinkCurrent
    } else if i == 4 {
        Step::CreateShims
    } else if i == 5 {
        Step::CreateShortcuts
    } else if i == 6 {
        Step::InstallPsModule
    } else if i == 7 {
        Step::SetEnvPath
    } else if i == 8 {
        Step::SetEnvVars
    } else if i == 9 {
        Step::Persist
    } else if i == 10 {
        Step::PostInstallScript
    } else {
        Step::WriteInstallInfo
    }
}

/// The `i`-th step.
pub fn step_of(i: usize) -> (r: Step)
    requires
        i < STEP_COUNT,
    ensures
        r == step_at(i as int),
{
    match i {
        0 => Step::PreInstallScript,
        1 => Step::Extract,
        2 => Step::RunInstaller,
        3 => Step::LinkCurrent,
        4 => Step::CreateShims,
        5 => Step::CreateShortcuts,
        6 => Step::InstallPsModule,
        7 => Step::SetEnvPath,
        8 => Step::SetEnvVars,
        9 => Step::Persist,
        10 => Step::PostInstallScript,
        _ => Step::WriteInstallInfo,
    }
}

/// The install of one version of one app, step by step. `current` is the
/// version that the app's `current` pointer names: the one from before the
/// run until the link step succeeds, the new one after.
#[derive(Debug)]
pub struct InstallRun {
    done: usize,
    failed: Option<Step>,
    previous: Option<String>,
    current: Option<String>,
    new_version: String,
}

impl InstallRun {
    /// How many steps have succeeded.
    pub closed spec fn done(&self) -> nat {
        self.done as nat
    }

    /// The step that failed, if one did.
    pub closed spec fn failed(&self) -> Option<Step> {
        self.failed
    }

    /// The version that the pointer named before the run.
    pub closed spec fn previous(&self) -> Option<Seq<char>> {
        match self.previous {
            Some(v) => Some(v@),
            None => None,
        }
    }

    /// The version that the pointer names now.
    pub closed spec fn current(&self) -> Option<Seq<char>> {
        match self.current {
            Some(v) => Some(v@),
            None => None,
        }
    }

    /// The version being installed.
    pub closed spec fn new_version(&self) -> Seq<char> {
        self.new_version@
    }

    pub closed spec fn wf(&self) -> bool {
        &&& self.done <= STEP_COUNT
        &&& self.failed matches Some(s) ==> s == step_at(self.done as int) && self.done < STEP_COUNT
        &&& self.current() == if self.done > LINK_STEP {
            Some(self.new_version@)
        } else {
            self.previous()
        }
    }

    /// A run that installs `new_version` over an app whose pointer names
    /// `previous`, if anything.
    pub fn new(new_version: String, previous: Option<String>) -> (r: InstallRun)
        ensures
            r.wf(),
            r.done() == 0,
            r.failed() is None,
            r.new_version() == new_version@,
            r.previous() == match previous {
                Some(v) => Some(v@),
                None => None::<Seq<char>>,
            },
            r.current() == r.previous(),
    {
        let current = match &previous {
            Some(v) => Some(v.clone()),
            None => None,
        };
        InstallRun { done: 0, failed: None, previous, current, new_version }
    }

    /// The step to perform next: none after a failure or after the last step.
    pub fn next_step(&self) -> (r: Option<Step>)
        requires
            self.wf(),
        ensures
            self.failed() is None && self.done() < STEP_COUNT ==> r == Some(step_at(self.done() as int)),
            !(self.failed() is None && self.done() < STEP_COUNT) ==> r is None,
    {
        if self.failed.is_none() && self.done < STEP_COUNT {
            Some(step_of(self.done))
        } else {
            None
        }
    }

    /// Records the outcome of the step returned by `next_step`.
    pub fn record(&mut self, ok: bool)
        requires
            old(self).wf(),
            old(self).failed() is None,
            old(self).done() < STEP_COUNT,
        ensures
            final(self).wf(),
            final(self).previous() == old(self).previous(),
            final(self).new_version() == old(self).new_version(),
            ok ==> final(self).done() == old(self).done() + 1 && final(self).failed() is None,
            !ok ==> final(self).done() == old(self).done() && final(self).failed() == Some(
                step_at(old(self).done() as int),
            ),
            final(self).current() == if ok && step_at(old(self).done() as int) == Step::LinkCurrent {
                Some(old(self).new_version())
            } else {
                old(self).current()
            },
    {
        if ok {
            if self.done == LINK_STEP {
                self.current = Some(self.new_version.clone());
            }
            self.done = self.done + 1;
        } else {
            self.failed = Some(step_of(self.done));
        }
    }

    /// Whether every step succeeded.
    pub fn is_complete(&self) -> (r: bool)
        requires
            self.wf(),
        ensures
            r == (self.done() == STEP_COUNT),
    {
        self.done == STEP_COUNT
    }

    /// The version that the `current` pointer names.
    pub fn current_version(&self) -> (r: Option<String>)
        ensures
            (match r {
                Some(v) => Some(v@),
                None => None,
            }) == self.current(),
    {
        match &self.current {
            Some(v) => Some(v.clone()),
            None => None,
        }
    }

    /// The step that failed, if one did.
    pub fn failed_step(&self) -> (r: Option<Step>)
        ensures
            r == self.failed(),
    {
        self.failed
    }
}

/// The pointer of a run names the previous version until the link step has
/// succeeded and the new version from then on; it never names anything else.
/// So a failure at extraction or before the link leaves the previous version
/// in use.
pub proof fn lemma_pointer_moves_only_at_link(run: InstallRun)
    requires
        run.wf(),
    ensures
        run.current() == run.previous() || run.current() == Some(run.new_version()),
        run.done() <= LINK_STEP ==> run.current() == run.previous(),
        run.done() > LINK_STEP ==> run.current() == Some(run.new_version()),
        run.failed() matches Some(s) && (s == Step::PreInstallScript || s == Step::Extract || s
            == Step::RunInstaller || s == Step::LinkCurrent) ==> run.current() == run.previous(),
{
}

/// How to move the `current` pointer of an app to a version without a moment
/// in which it is missing: make a new link beside it, then rename the new link
/// over the old one.
#[derive(Debug, Clone)]
pub struct LinkPlan {
    /// The version directory that the pointer is to name.
    pub target: String,
    /// Where the new link is made first.
    pub staging: String,
    /// The pointer, replaced by renaming the new link onto it.
    pub current: String,
}

/// The plan that points `app`'s `current` at `version`.
pub fn link_plan(dirs: &Dirs, app: &str, version: &str) -> (r: LinkPlan)
    ensures
        r.target@ == join(join(join(dirs.root@, "apps"@), app@), version@),
        r.current@ == join(join(join(dirs.root@, "apps"@), app@), "current"@),
        r.staging@ == join(join(join(dirs.root@, "apps"@), app@), "current.new"@),
{
    let app_dir = join_path(dirs.apps_dir().as_str(), app);
    LinkPlan {
        target: join_path(app_dir.as_str(), version),
        staging: join_path(app_dir.as_str(), "current.new"),
        current: join_path(app_dir.as_str(), "current"),
    }
}

} // verus!
