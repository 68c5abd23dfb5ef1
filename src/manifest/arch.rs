//! The projection of a manifest onto one architecture.
use vstd::prelude::*;

use super::schema::{ArchManifest, ArchManifestV};
use super::{Manifest, ManifestV};

verus! {

/// A target architecture.
#[derive(Debug, Clone, Copy, PartialEq, Eq)]
pub enum Architecture {
    X86,
    Amd64,
    Arm64,
    /// No particular architecture: only the top-level fields count.
    Generic,
}

/// The first of two optional values that is set.
pub open spec fn or_else<T>(a: Option<T>, b: Option<T>) -> Option<T> {
    match a {
        Some(x) => Some(x),
        None => b,
    }
}

/// An override block that sets nothing.
pub open spec fn empty_arch() -> ArchManifestV {
    ArchManifestV {
        bin: None,
        checkver: None,
        env_add_path: None,
        env_set: None,
        extract_dir: None,
        hash: None,
        installer: None,
        msi: None,
        post_install: None,
        post_uninstall: None,
        pre_install: None,
        pre_uninstall: None,
        shortcuts: None,
        uninstaller: None,
        url: None,
    }
}

/// The override block that `m` declares for `arch`, or an empty one.
pub open spec fn override_for(m: ManifestV, arch: Architecture) -> ArchManifestV {
    let declared = match m.architecture {
        Some(a) => match arch {
            Architecture::X86 => a.the_32_bit,
            Architecture::Amd64 => a.the_64_bit,
            Architecture::Arm64 => a.arm64,
            Architecture::Generic => None,
        },
        None => None,
    };
    match declared {
        Some(o) => o,
        None => empty_arch(),
    }
}

/// The projection of `m` onto `arch`: each field of the override block, or
/// the top-level field where the block leaves it unset.
pub open spec fn project(m: ManifestV, arch: Architecture) -> ArchManifestV {
    let o = override_for(m, arch);
    ArchManifestV {
        bin: or_else(o.bin, m.bin),
        checkver: or_else(o.checkver, m.checkver),
        env_add_path: or_else(o.env_add_path, m.env_add_path),
        env_set: or_else(o.env_set, m.env_set),
        extract_dir: or_else(o.extract_dir, m.extract_dir),
        hash: or_else(o.hash, m.hash),
        installer: or_else(o.installer, m.installer),
        msi: or_else(o.msi, m.msi),
        post_install: or_else(o.post_install, m.post_install),
        post_uninstall: or_else(o.post_uninstall, m.post_uninstall),
        pre_install: or_else(o.pre_install, m.pre_install),
        pre_uninstall: or_else(o.pre_uninstall, m.pre_uninstall),
        shortcuts: or_else(o.shortcuts, m.shortcuts),
        uninstaller: or_else(o.uninstaller, m.uninstaller),
        url: or_else(o.url, m.url),
    }
}

/// Projecting a manifest onto an architecture keeps every value that the
/// override block sets, and leaves unset only the fields that neither the
/// block nor the top level sets.
pub proof fn lemma_projection_overlay(m: ManifestV, arch: Architecture)
    ensures
        override_for(m, arch).bin is Some ==> project(m, arch).bin == override_for(m, arch).bin,
        m.bin is Some ==> project(m, arch).bin is Some,
        override_for(m, arch).checkver is Some ==> project(m, arch).checkver == override_for(m, arch).checkver,
        m.checkver is Some ==> project(m, arch).checkver is Some,
        override_for(m, arch).env_add_path is Some ==> project(m, arch).env_add_path == override_for(m, arch).env_add_path,
        m.env_add_path is Some ==> project(m, arch).env_add_path is Some,
        override_for(m, arch).env_set is Some ==> project(m, arch).env_set == override_for(m, arch).env_set,
        m.env_set is Some ==> project(m, arch).env_set is Some,
        override_for(m, arch).extract_dir is Some ==> project(m, arch).extract_dir == override_for(m, arch).extract_dir,
        m.extract_dir is Some ==> project(m, arch).extract_dir is Some,
        override_for(m, arch).hash is Some ==> project(m, arch).hash == override_for(m, arch).hash,
        m.hash is Some ==> project(m, arch).hash is Some,
        override_for(m, arch).installer is Some ==> project(m, arch).installer == override_for(m, arch).installer,
        m.installer is Some ==> project(m, arch).installer is Some,
        override_for(m, arch).msi is Some ==> project(m, arch).msi == override_for(m, arch).msi,
        m.msi is Some ==> project(m, arch).msi is Some,
        override_for(m, arch).post_install is Some ==> project(m, arch).post_install == override_for(m, arch).post_install,
        m.post_install is Some ==> project(m, arch).post_install is Some,
        override_for(m, arch).post_uninstall is Some ==> project(m, arch).post_uninstall == override_for(m, arch).post_uninstall,
        m.post_uninstall is Some ==> project(m, arch).post_uninstall is Some,
        override_for(m, arch).pre_install is Some ==> project(m, arch).pre_install == override_for(m, arch).pre_install,
        m.pre_install is Some ==> project(m, arch).pre_install is Some,
        override_for(m, arch).pre_uninstall is Some ==> project(m, arch).pre_uninstall == override_for(m, arch).pre_uninstall,
        m.pre_uninstall is Some ==> project(m, arch).pre_uninstall is Some,
        override_for(m, arch).shortcuts is Some ==> project(m, arch).shortcuts == override_for(m, arch).shortcuts,
        m.shortcuts is Some ==> project(m, arch).shortcuts is Some,
        override_for(m, arch).uninstaller is Some ==> project(m, arch).uninstaller == override_for(m, arch).uninstaller,
        m.uninstaller is Some ==> project(m, arch).uninstaller is Some,
        override_for(m, arch).url is Some ==> project(m, arch).url == override_for(m, arch).url,
        m.url is Some ==> project(m, arch).url is Some,
{
}

impl ArchManifest {
    /// An override block that sets nothing.
    pub fn empty() -> (r: ArchManifest)
        ensures
            r.deep_view() == empty_arch(),
    {
        ArchManifest {
            bin: None,
            checkver: None,
            env_add_path: None,
            env_set: None,
            extract_dir: None,
            hash: None,
            installer: None,
            msi: None,
            post_install: None,
            post_uninstall: None,
            pre_install: None,
            pre_uninstall: None,
            shortcuts: None,
            uninstaller: None,
            url: None,
        }
    }
}

impl Manifest {
    /// The part of the manifest that depends on the architecture: the
    /// override block for `arch`, with each field that it leaves unset taken
    /// from the top level.
    pub fn architecture(self, arch: Architecture) -> (r: ArchManifest)
        ensures
            r.deep_view() == project(self.deep_view(), arch),
    {
        let declared = match self.architecture {
            Some(a) => match arch {
                Architecture::X86 => a.the_32_bit,
                Architecture::Amd64 => a.the_64_bit,
                Architecture::Arm64 => a.arm64,
                Architecture::Generic => None,
            },
            None => None,
        };
        let o = match declared {
            Some(o) => o,
            None => ArchManifest::empty(),
        };
        ArchManifest {
            bin: if o.bin.is_some() {
                o.bin
            } else {
                self.bin
            },
            checkver: if o.checkver.is_some() {
                o.checkver
            } else {
                self.checkver
            },
            env_add_path: if o.env_add_path.is_some() {
                o.env_add_path
            } else {
                self.env_add_path
            },
            env_set: if o.env_set.is_some() {
                o.env_set
            } else {
                self.env_set
            },
            extract_dir: if o.extract_dir.is_some() {
                o.extract_dir
            } else {
                self.extract_dir
            },
            hash: if o.hash.is_some() {
                o.hash
            } else {
                self.hash
            },
            installer: if o.installer.is_some() {
                o.installer
            } else {
                self.installer
            },
            msi: if o.msi.is_some() {
                o.msi
            } else {
                self.msi
            },
            post_install: if o.post_install.is_some() {
                o.post_install
            } else {
                self.post_install
            },
            post_uninstall: if o.post_uninstall.is_some() {
                o.post_uninstall
            } else {
                self.post_uninstall
            },
            pre_install: if o.pre_install.is_some() {
                o.pre_install
            } else {
                self.pre_install
            },
            pre_uninstall: if o.pre_uninstall.is_some() {
                o.pre_uninstall
            } else {
                self.pre_uninstall
            },
            shortcuts: if o.shortcuts.is_some() {
                o.shortcuts
            } else {
                self.shortcuts
            },
            uninstaller: if o.uninstaller.is_some() {
                o.uninstaller
            } else {
                self.uninstaller
            },
            url: if o.url.is_some() {
                o.url
            } else {
                self.url
            },
        }
    }
}

} // verus!
