//! The package descriptor of an app, read from JSON text.
use vstd::prelude::*;
use vstd::string::*;

pub mod arch;
pub mod bin;
pub mod download_url;
pub mod schema;

pub use arch::{empty_arch, lemma_projection_overlay, or_else, override_for, project, Architecture};
pub use bin::{get_shim_name, Bin, BinV};
pub use download_url::{DownloadUrl, DownloadUrlV};
pub use schema::{
    ArchManifest, ArchManifestV, Autoupdate, AutoupdateArch, AutoupdateArchV,
    AutoupdateArchitecture, AutoupdateArchitectureV, AutoupdateV, CheckVerSourceforge,
    CheckVerSourceforgeV, Checkver, CheckverClass, CheckverClassV, CheckverTemplate, CheckverV,
    DetailedLicense, DetailedLicenseV, HashExtraction, HashExtractionMode, HashExtractionType,
    HashExtractionV, HashV, Installer, InstallerV, License, LicenseV, ManifestArchitecture,
    ManifestArchitectureV, ManifestInstaller, ManifestInstallerV, Psmodule, PsmoduleV,
    SourceforgeDetail, SourceforgeDetailV, Suggest, SuggestV, Suggested, Uninstaller, UninstallerV,
};

use crate::bucket_app::BucketAppName;
use crate::json::{
    field, field_spec, json_of_text, many_field, many_field_spec, members_field,
    members_field_spec, parse_json, pick_key, pick_key_spec, req_field, req_field_spec, res_dv,
    FromJson, Json, JsonV, ManifestError, ManifestErrorV,
};

verus! {

/// The package descriptor of one app.
#[derive(Debug, Clone)]
pub struct Manifest {
    pub schema: Option<String>,
    /// `##` and the deprecated `_comment` are aliases.
    pub comment: Option<Vec<String>>,
    pub architecture: Option<ManifestArchitecture>,
    pub autoupdate: Option<Autoupdate>,
    pub bin: Option<Vec<Bin>>,
    pub checkver: Option<Checkver>,
    pub cookie: Option<Vec<(String, Option<Json>)>>,
    pub depends: Option<Vec<BucketAppName>>,
    pub description: Option<String>,
    pub env_add_path: Option<Vec<String>>,
    pub env_set: Option<Vec<(String, Option<Json>)>>,
    pub extract_dir: Option<Vec<String>>,
    pub extract_to: Option<Vec<String>>,
    pub hash: Option<schema::Hash>,
    pub homepage: String,
    /// True if the installer is InnoSetup based.
    pub innosetup: Option<bool>,
    pub installer: Option<ManifestInstaller>,
    pub license: License,
    /// Deprecated.
    pub msi: Option<Vec<String>>,
    pub notes: Option<Vec<String>>,
    pub persist: Option<Vec<Bin>>,
    pub post_install: Option<Vec<String>>,
    pub post_uninstall: Option<Vec<String>>,
    pub pre_install: Option<Vec<String>>,
    pub pre_uninstall: Option<Vec<String>>,
    pub psmodule: Option<Psmodule>,
    pub shortcuts: Option<Vec<Vec<String>>>,
    pub suggest: Option<Suggest>,
    pub uninstaller: Option<Uninstaller>,
    pub url: Option<Vec<DownloadUrl>>,
    pub version: String,
}

/// The model of [`Manifest`].
pub struct ManifestV {
    pub schema: Option<Seq<char>>,
    pub comment: Option<Seq<Seq<char>>>,
    pub architecture: Option<ManifestArchitectureV>,
    pub autoupdate: Option<AutoupdateV>,
    pub bin: Option<Seq<BinV>>,
    pub checkver: Option<CheckverV>,
    pub cookie: Option<Seq<(Seq<char>, Option<JsonV>)>>,
    pub depends: Option<Seq<(Option<Seq<char>>, Seq<char>)>>,
    pub description: Option<Seq<char>>,
    pub env_add_path: Option<Seq<Seq<char>>>,
    pub env_set: Option<Seq<(Seq<char>, Option<JsonV>)>>,
    pub extract_dir: Option<Seq<Seq<char>>>,
    pub extract_to: Option<Seq<Seq<char>>>,
    pub hash: Option<HashV>,
    pub homepage: Seq<char>,
    pub innosetup: Option<bool>,
    pub installer: Option<ManifestInstallerV>,
    pub license: LicenseV,
    pub msi: Option<Seq<Seq<char>>>,
    pub notes: Option<Seq<Seq<char>>>,
    pub persist: Option<Seq<BinV>>,
    pub post_install: Option<Seq<Seq<char>>>,
    pub post_uninstall: Option<Seq<Seq<char>>>,
    pub pre_install: Option<Seq<Seq<char>>>,
    pub pre_uninstall: Option<Seq<Seq<char>>>,
    pub psmodule: Option<PsmoduleV>,
    pub shortcuts: Option<Seq<Seq<Seq<char>>>>,
    pub suggest: Option<SuggestV>,
    pub uninstaller: Option<UninstallerV>,
    pub url: Option<Seq<DownloadUrlV>>,
    pub version: Seq<char>,
}

impl DeepView for Manifest {
    type V = ManifestV;

    open spec fn deep_view(&self) -> ManifestV {
        ManifestV {
            schema: self.schema.deep_view(),
            comment: self.comment.deep_view(),
            architecture: self.architecture.deep_view(),
            autoupdate: self.autoupdate.deep_view(),
            bin: self.bin.deep_view(),
            checkver: self.checkver.deep_view(),
            cookie: self.cookie.deep_view(),
            depends: self.depends.deep_view(),
            description: self.description.deep_view(),
            env_add_path: self.env_add_path.deep_view(),
            env_set: self.env_set.deep_view(),
            extract_dir: self.extract_dir.deep_view(),
            extract_to: self.extract_to.deep_view(),
            hash: self.hash.deep_view(),
            homepage: self.homepage.deep_view(),
            innosetup: self.innosetup.deep_view(),
            installer: self.installer.deep_view(),
            license: self.license.deep_view(),
            msi: self.msi.deep_view(),
            notes: self.notes.deep_view(),
            persist: self.persist.deep_view(),
            post_install: self.post_install.deep_view(),
            post_uninstall: self.post_uninstall.deep_view(),
            pre_install: self.pre_install.deep_view(),
            pre_uninstall: self.pre_uninstall.deep_view(),
            psmodule: self.psmodule.deep_view(),
            shortcuts: self.shortcuts.deep_view(),
            suggest: self.suggest.deep_view(),
            uninstaller: self.uninstaller.deep_view(),
            url: self.url.deep_view(),
            version: self.version.deep_view(),
        }
    }
}

impl FromJson for Manifest {
    open spec fn json_spec(j: Json) -> Result<ManifestV, ManifestErrorV> {
        match j {
            Json::Object(f) => {
                let schema = field_spec::<String>(f@, "$schema"@);
                let comment = many_field_spec::<String>(f@, pick_key_spec(f@, "comment"@, "##"@, "_comment"@));
                let architecture = field_spec::<ManifestArchitecture>(f@, "architecture"@);
                let autoupdate = field_spec::<Autoupdate>(f@, "autoupdate"@);
                let bin = many_field_spec::<Bin>(f@, "bin"@);
                let checkver = field_spec::<Checkver>(f@, "checkver"@);
                let cookie = members_field_spec::<Option<Json>>(f@, "cookie"@);
                let depends = many_field_spec::<BucketAppName>(f@, "depends"@);
                let description = field_spec::<String>(f@, "description"@);
                let env_add_path = many_field_spec::<String>(f@, "env_add_path"@);
                let env_set = members_field_spec::<Option<Json>>(f@, "env_set"@);
                let extract_dir = many_field_spec::<String>(f@, "extract_dir"@);
                let extract_to = many_field_spec::<String>(f@, "extract_to"@);
                let hash = field_spec::<schema::Hash>(f@, "hash"@);
                let homepage = req_field_spec::<String>(f@, "homepage"@);
                let innosetup = field_spec::<bool>(f@, "innosetup"@);
                let installer = field_spec::<ManifestInstaller>(f@, "installer"@);
                let license = req_field_spec::<License>(f@, "license"@);
                let msi = many_field_spec::<String>(f@, "msi"@);
                let notes = many_field_spec::<String>(f@, "notes"@);
                let persist = many_field_spec::<Bin>(f@, "persist"@);
                let post_install = many_field_spec::<String>(f@, "post_install"@);
                let post_uninstall = many_field_spec::<String>(f@, "post_uninstall"@);
                let pre_install = many_field_spec::<String>(f@, "pre_install"@);
                let pre_uninstall = many_field_spec::<String>(f@, "pre_uninstall"@);
                let psmodule = field_spec::<Psmodule>(f@, "psmodule"@);
                let shortcuts = field_spec::<Vec<Vec<String>>>(f@, "shortcuts"@);
                let suggest = field_spec::<Suggest>(f@, "suggest"@);
                let uninstaller = field_spec::<Uninstaller>(f@, "uninstaller"@);
                let url = many_field_spec::<DownloadUrl>(f@, "url"@);
                let version = req_field_spec::<String>(f@, "version"@);
                if schema is Err {
                    Err(schema->Err_0)
                } else if comment is Err {
                    Err(comment->Err_0)
                } else if architecture is Err {
                    Err(architecture->Err_0)
                } else if autoupdate is Err {
                    Err(autoupdate->Err_0)
                } else if bin is Err {
                    Err(bin->Err_0)
                } else if checkver is Err {
                    Err(checkver->Err_0)
                } else if cookie is Err {
                    Err(cookie->Err_0)
                } else if depends is Err {
                    Err(depends->Err_0)
                } else if description is Err {
                    Err(description->Err_0)
                } else if env_add_path is Err {
                    Err(env_add_path->Err_0)
                } else if env_set is Err {
                    Err(env_set->Err_0)
                } else if extract_dir is Err {
                    Err(extract_dir->Err_0)
                } else if extract_to is Err {
                    Err(extract_to->Err_0)
                } else if hash is Err {
                    Err(hash->Err_0)
                } else if homepage is Err {
                    Err(homepage->Err_0)
                } else if innosetup is Err {
                    Err(innosetup->Err_0)
                } else if installer is Err {
                    Err(installer->Err_0)
                } else if license is Err {
                    Err(license->Err_0)
                } else if msi is Err {
                    Err(msi->Err_0)
                } else if notes is Err {
                    Err(notes->Err_0)
                } else if persist is Err {
                    Err(persist->Err_0)
                } else if post_install is Err {
                    Err(post_install->Err_0)
                } else if post_uninstall is Err {
                    Err(post_uninstall->Err_0)
                } else if pre_install is Err {
                    Err(pre_install->Err_0)
                } else if pre_uninstall is Err {
                    Err(pre_uninstall->Err_0)
                } else if psmodule is Err {
                    Err(psmodule->Err_0)
                } else if shortcuts is Err {
                    Err(shortcuts->Err_0)
                } else if suggest is Err {
                    Err(suggest->Err_0)
                } else if uninstaller is Err {
                    Err(uninstaller->Err_0)
                } else if url is Err {
                    Err(url->Err_0)
                } else if version is Err {
                    Err(version->Err_0)
                } else if version->Ok_0.len() == 0 {
                    Err(ManifestErrorV::EmptyVersion)
                } else {
                    Ok(ManifestV {
                        schema: schema->Ok_0,
                        comment: comment->Ok_0,
                        architecture: architecture->Ok_0,
                        autoupdate: autoupdate->Ok_0,
                        bin: bin->Ok_0,
                        checkver: checkver->Ok_0,
                        cookie: cookie->Ok_0,
                        depends: depends->Ok_0,
                        description: description->Ok_0,
                        env_add_path: env_add_path->Ok_0,
                        env_set: env_set->Ok_0,
                        extract_dir: extract_dir->Ok_0,
                        extract_to: extract_to->Ok_0,
                        hash: hash->Ok_0,
                        homepage: homepage->Ok_0,
                        innosetup: innosetup->Ok_0,
                        installer: installer->Ok_0,
                        license: license->Ok_0,
                        msi: msi->Ok_0,
                        notes: notes->Ok_0,
                        persist: persist->Ok_0,
                        post_install: post_install->Ok_0,
                        post_uninstall: post_uninstall->Ok_0,
                        pre_install: pre_install->Ok_0,
                        pre_uninstall: pre_uninstall->Ok_0,
                        psmodule: psmodule->Ok_0,
                        shortcuts: shortcuts->Ok_0,
                        suggest: suggest->Ok_0,
                        uninstaller: uninstaller->Ok_0,
                        url: url->Ok_0,
                        version: version->Ok_0,
                    })
                }
            },
            _ => Err(ManifestErrorV::Shape),
        }
    }

    fn from_json(j: &Json) -> (r: Result<Manifest, ManifestError>) {
        match j {
            Json::Object(f) => {
                let schema = match field::<String>(f, "$schema") {
                    Ok(v) => v,
                    Err(e) => return Err(e),
                };
                let key = pick_key(f, "comment", "##", "_comment");
                let comment = match many_field::<String>(f, key) {
                    Ok(v) => v,
                    Err(e) => return Err(e),
                };
                let architecture = match field::<ManifestArchitecture>(f, "architecture") {
                    Ok(v) => v,
                    Err(e) => return Err(e),
                };
                let autoupdate = match field::<Autoupdate>(f, "autoupdate") {
                    Ok(v) => v,
                    Err(e) => return Err(e),
                };
                let bin = match many_field::<Bin>(f, "bin") {
                    Ok(v) => v,
                    Err(e) => return Err(e),
                };
                let checkver = match field::<Checkver>(f, "checkver") {
                    Ok(v) => v,
                    Err(e) => return Err(e),
                };
                let cookie = match members_field::<Option<Json>>(f, "cookie") {
                    Ok(v) => v,
                    Err(e) => return Err(e),
                };
                let depends = match many_field::<BucketAppName>(f, "depends") {
                    Ok(v) => v,
                    Err(e) => return Err(e),
                };
                let description = match field::<String>(f, "description") {
                    Ok(v) => v,
                    Err(e) => return Err(e),
                };
                let env_add_path = match many_field::<String>(f, "env_add_path") {
                    Ok(v) => v,
                    Err(e) => return Err(e),
                };
                let env_set = match members_field::<Option<Json>>(f, "env_set") {
                    Ok(v) => v,
                    Err(e) => return Err(e),
                };
                let extract_dir = match many_field::<String>(f, "extract_dir") {
                    Ok(v) => v,
                    Err(e) => return Err(e),
                };
                let extract_to = match many_field::<String>(f, "extract_to") {
                    Ok(v) => v,
                    Err(e) => return Err(e),
                };
                let hash = match field::<schema::Hash>(f, "hash") {
                    Ok(v) => v,
                    Err(e) => return Err(e),
                };
                let homepage = match req_field::<String>(f, "homepage") {
                    Ok(v) => v,
                    Err(e) => return Err(e),
                };
                let innosetup = match field::<bool>(f, "innosetup") {
                    Ok(v) => v,
                    Err(e) => return Err(e),
                };
                let installer = match field::<ManifestInstaller>(f, "installer") {
                    Ok(v) => v,
                    Err(e) => return Err(e),
                };
                let license = match req_field::<License>(f, "license") {
                    Ok(v) => v,
                    Err(e) => return Err(e),
                };
                let msi = match many_field::<String>(f, "msi") {
                    Ok(v) => v,
                    Err(e) => return Err(e),
                };
                let notes = match many_field::<String>(f, "notes") {
                    Ok(v) => v,
                    Err(e) => return Err(e),
                };
                let persist = match many_field::<Bin>(f, "persist") {
                    Ok(v) => v,
                    Err(e) => return Err(e),
                };
                let post_install = match many_field::<String>(f, "post_install") {
                    Ok(v) => v,
                    Err(e) => return Err(e),
                };
                let post_uninstall = match many_field::<String>(f, "post_uninstall") {
                    Ok(v) => v,
                    Err(e) => return Err(e),
                };
                let pre_install = match many_field::<String>(f, "pre_install") {
                    Ok(v) => v,
                    Err(e) => return Err(e),
                };
                let pre_uninstall = match many_field::<String>(f, "pre_uninstall") {
                    Ok(v) => v,
                    Err(e) => return Err(e),
                };
                let psmodule = match field::<Psmodule>(f, "psmodule") {
                    Ok(v) => v,
                    Err(e) => return Err(e),
                };
                let shortcuts = match field::<Vec<Vec<String>>>(f, "shortcuts") {
                    Ok(v) => v,
                    Err(e) => return Err(e),
                };
                let suggest = match field::<Suggest>(f, "suggest") {
                    Ok(v) => v,
                    Err(e) => return Err(e),
                };
                let uninstaller = match field::<Uninstaller>(f, "uninstaller") {
                    Ok(v) => v,
                    Err(e) => return Err(e),
                };
                let url = match many_field::<DownloadUrl>(f, "url") {
                    Ok(v) => v,
                    Err(e) => return Err(e),
                };
                let version = match req_field::<String>(f, "version") {
                    Ok(v) => v,
                    Err(e) => return Err(e),
                };
                if version.unicode_len() == 0 {
                    return Err(ManifestError::EmptyVersion);
                }
                Ok(
                    Manifest {
                        schema,
                        comment,
                        architecture,
                        autoupdate,
                        bin,
                        checkver,
                        cookie,
                        depends,
                        description,
                        env_add_path,
                        env_set,
                        extract_dir,
                        extract_to,
                        hash,
                        homepage,
                        innosetup,
                        installer,
                        license,
                        msi,
                        notes,
                        persist,
                        post_install,
                        post_uninstall,
                        pre_install,
                        pre_uninstall,
                        psmodule,
                        shortcuts,
                        suggest,
                        uninstaller,
                        url,
                        version,
                    },
                )
            },
            _ => Err(ManifestError::Shape),
        }
    }
}


impl Manifest {
    /// Parses a manifest from JSON text.
    pub fn from_str(text: &str) -> (r: Result<Manifest, ManifestError>)
        ensures
            json_of_text(text@) is None ==> r is Err && r->Err_0 is Syntax,
            json_of_text(text@) matches Some(j) ==> res_dv(r) == Manifest::json_spec(j),
    {
        match parse_json(text) {
            Ok(j) => Manifest::from_json(&j),
            Err(e) => Err(e),
        }
    }
}

} // verus!
