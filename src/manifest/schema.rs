//! The parts of a manifest: installers, hashes, licenses, update rules.
use vstd::prelude::*;

use crate::bucket_app::BucketAppName;
use crate::json::{
    decode_list, decode_members, field, field_spec, list_spec, many_field, many_field_spec,
    members_field, members_field_spec, members_spec, pick_key, pick_key_spec, req_field,
    req_field_spec, FromJson, Json, JsonV, ManifestError, ManifestErrorV,
};
use crate::text::str_eq;

use super::bin::{Bin, BinV};
use super::download_url::{DownloadUrl, DownloadUrlV};

verus! {

/// The per-architecture override blocks of a manifest.
#[derive(Debug, Clone)]
pub struct ManifestArchitecture {
    pub the_32_bit: Option<ArchManifest>,
    pub the_64_bit: Option<ArchManifest>,
    pub arm64: Option<ArchManifest>,
}

/// The model of [`ManifestArchitecture`].
pub struct ManifestArchitectureV {
    pub the_32_bit: Option<ArchManifestV>,
    pub the_64_bit: Option<ArchManifestV>,
    pub arm64: Option<ArchManifestV>,
}

impl DeepView for ManifestArchitecture {
    type V = ManifestArchitectureV;

    open spec fn deep_view(&self) -> ManifestArchitectureV {
        ManifestArchitectureV {
            the_32_bit: self.the_32_bit.deep_view(),
            the_64_bit: self.the_64_bit.deep_view(),
            arm64: self.arm64.deep_view(),
        }
    }
}

impl FromJson for ManifestArchitecture {
    open spec fn json_spec(j: Json) -> Result<ManifestArchitectureV, ManifestErrorV> {
        match j {
            Json::Object(f) => {
                let the_32_bit = field_spec::<ArchManifest>(f@, "32bit"@);
                let the_64_bit = field_spec::<ArchManifest>(f@, "64bit"@);
                let arm64 = field_spec::<ArchManifest>(f@, "arm64"@);
                if the_32_bit is Err {
                    Err(the_32_bit->Err_0)
                } else if the_64_bit is Err {
                    Err(the_64_bit->Err_0)
                } else if arm64 is Err {
                    Err(arm64->Err_0)
                } else {
                    Ok(ManifestArchitectureV {
                        the_32_bit: the_32_bit->Ok_0,
                        the_64_bit: the_64_bit->Ok_0,
                        arm64: arm64->Ok_0,
                    })
                }
            },
            _ => Err(ManifestErrorV::Shape),
        }
    }

    fn from_json(j: &Json) -> (r: Result<ManifestArchitecture, ManifestError>) {
        match j {
            Json::Object(f) => {
                let the_32_bit = match field::<ArchManifest>(f, "32bit") {
                    Ok(v) => v,
                    Err(e) => return Err(e),
                };
                let the_64_bit = match field::<ArchManifest>(f, "64bit") {
                    Ok(v) => v,
                    Err(e) => return Err(e),
                };
                let arm64 = match field::<ArchManifest>(f, "arm64") {
                    Ok(v) => v,
                    Err(e) => return Err(e),
                };
                Ok(ManifestArchitecture { the_32_bit, the_64_bit, arm64 })
            },
            _ => Err(ManifestError::Shape),
        }
    }
}

/// The fields of a manifest that an architecture may override.
#[derive(Debug, Clone)]
pub struct ArchManifest {
    pub bin: Option<Vec<Bin>>,
    pub checkver: Option<Checkver>,
    pub env_add_path: Option<Vec<String>>,
    pub env_set: Option<Vec<(String, Option<Json>)>>,
    pub extract_dir: Option<Vec<String>>,
    pub hash: Option<Hash>,
    pub installer: Option<ManifestInstaller>,
    /// Deprecated.
    pub msi: Option<Vec<String>>,
    pub post_install: Option<Vec<String>>,
    pub post_uninstall: Option<Vec<String>>,
    pub pre_install: Option<Vec<String>>,
    pub pre_uninstall: Option<Vec<String>>,
    pub shortcuts: Option<Vec<Vec<String>>>,
    pub uninstaller: Option<Uninstaller>,
    pub url: Option<Vec<DownloadUrl>>,
}

/// The model of [`ArchManifest`].
pub struct ArchManifestV {
    pub bin: Option<Seq<BinV>>,
    pub checkver: Option<CheckverV>,
    pub env_add_path: Option<Seq<Seq<char>>>,
    pub env_set: Option<Seq<(Seq<char>, Option<JsonV>)>>,
    pub extract_dir: Option<Seq<Seq<char>>>,
    pub hash: Option<HashV>,
    pub installer: Option<ManifestInstallerV>,
    pub msi: Option<Seq<Seq<char>>>,
    pub post_install: Option<Seq<Seq<char>>>,
    pub post_uninstall: Option<Seq<Seq<char>>>,
    pub pre_install: Option<Seq<Seq<char>>>,
    pub pre_uninstall: Option<Seq<Seq<char>>>,
    pub shortcuts: Option<Seq<Seq<Seq<char>>>>,
    pub uninstaller: Option<UninstallerV>,
    pub url: Option<Seq<DownloadUrlV>>,
}

impl DeepView for ArchManifest {
    type V = ArchManifestV;

    open spec fn deep_view(&self) -> ArchManifestV {
        ArchManifestV {
            bin: self.bin.deep_view(),
            checkver: self.checkver.deep_view(),
            env_add_path: self.env_add_path.deep_view(),
            env_set: self.env_set.deep_view(),
            extract_dir: self.extract_dir.deep_view(),
            hash: self.hash.deep_view(),
            installer: self.installer.deep_view(),
            msi: self.msi.deep_view(),
            post_install: self.post_install.deep_view(),
            post_uninstall: self.post_uninstall.deep_view(),
            pre_install: self.pre_install.deep_view(),
            pre_uninstall: self.pre_uninstall.deep_view(),
            shortcuts: self.shortcuts.deep_view(),
            uninstaller: self.uninstaller.deep_view(),
            url: self.url.deep_view(),
        }
    }
}

impl FromJson for ArchManifest {
    open spec fn json_spec(j: Json) -> Result<ArchManifestV, ManifestErrorV> {
        match j {
            Json::Object(f) => {
                let bin = many_field_spec::<Bin>(f@, "bin"@);
                let checkver = field_spec::<Checkver>(f@, "checkver"@);
                let env_add_path = many_field_spec::<String>(f@, "env_add_path"@);
                let env_set = members_field_spec::<Option<Json>>(f@, "env_set"@);
                let extract_dir = many_field_spec::<String>(f@, "extract_dir"@);
                let hash = field_spec::<Hash>(f@, "hash"@);
                let installer = field_spec::<ManifestInstaller>(f@, "installer"@);
                let msi = many_field_spec::<String>(f@, "msi"@);
                let post_install = many_field_spec::<String>(f@, "post_install"@);
                let post_uninstall = many_field_spec::<String>(f@, "post_uninstall"@);
                let pre_install = many_field_spec::<String>(f@, "pre_install"@);
                let pre_uninstall = many_field_spec::<String>(f@, "pre_uninstall"@);
                let shortcuts = field_spec::<Vec<Vec<String>>>(f@, "shortcuts"@);
                let uninstaller = field_spec::<Uninstaller>(f@, "uninstaller"@);
                let url = many_field_spec::<DownloadUrl>(f@, "url"@);
                if bin is Err {
                    Err(bin->Err_0)
                } else if checkver is Err {
                    Err(checkver->Err_0)
                } else if env_add_path is Err {
                    Err(env_add_path->Err_0)
                } else if env_set is Err {
                    Err(env_set->Err_0)
                } else if extract_dir is Err {
                    Err(extract_dir->Err_0)
                } else if hash is Err {
                    Err(hash->Err_0)
                } else if installer is Err {
                    Err(installer->Err_0)
                } else if msi is Err {
                    Err(msi->Err_0)
                } else if post_install is Err {
                    Err(post_install->Err_0)
                } else if post_uninstall is Err {
                    Err(post_uninstall->Err_0)
                } else if pre_install is Err {
                    Err(pre_install->Err_0)
                } else if pre_uninstall is Err {
                    Err(pre_uninstall->Err_0)
                } else if shortcuts is Err {
                    Err(shortcuts->Err_0)
                } else if uninstaller is Err {
                    Err(uninstaller->Err_0)
                } else if url is Err {
                    Err(url->Err_0)
                } else {
                    Ok(ArchManifestV {
                        bin: bin->Ok_0,
                        checkver: checkver->Ok_0,
                        env_add_path: env_add_path->Ok_0,
                        env_set: env_set->Ok_0,
                        extract_dir: extract_dir->Ok_0,
                        hash: hash->Ok_0,
                        installer: installer->Ok_0,
                        msi: msi->Ok_0,
                        post_install: post_install->Ok_0,
                        post_uninstall: post_uninstall->Ok_0,
                        pre_install: pre_install->Ok_0,
                        pre_uninstall: pre_uninstall->Ok_0,
                        shortcuts: shortcuts->Ok_0,
                        uninstaller: uninstaller->Ok_0,
                        url: url->Ok_0,
                    })
                }
            },
            _ => Err(ManifestErrorV::Shape),
        }
    }

    fn from_json(j: &Json) -> (r: Result<ArchManifest, ManifestError>) {
        match j {
            Json::Object(f) => {
                let bin = match many_field::<Bin>(f, "bin") {
                    Ok(v) => v,
                    Err(e) => return Err(e),
                };
                let checkver = match field::<Checkver>(f, "checkver") {
                    Ok(v) => v,
                    Err(e) => return Err(e),
                };
                let env_add_path = match many_field::<String>(f, "env_add_path") {
                    Ok(v) => v,
                    Err(e) => return Err(e),
                };
                let env_set = match members_field::<Option<Json>>(f, "env_set") {
                    Ok(v) => v,
                    Err(e) => return Err(e),
                };
                let extract_dir = match many_field::<String>(f, "extract_dir") {
                    Ok(v) => v,
                    Err(e) => return Err(e),
                };
                let hash = match field::<Hash>(f, "hash") {
                    Ok(v) => v,
                    Err(e) => return Err(e),
                };
                let installer = match field::<ManifestInstaller>(f, "installer") {
                    Ok(v) => v,
                    Err(e) => return Err(e),
                };
                let msi = match many_field::<String>(f, "msi") {
                    Ok(v) => v,
                    Err(e) => return Err(e),
                };
                let post_install = match many_field::<String>(f, "post_install") {
                    Ok(v) => v,
                    Err(e) => return Err(e),
                };
                let post_uninstall = match many_field::<String>(f, "post_uninstall") {
                    Ok(v) => v,
                    Err(e) => return Err(e),
                };
                let pre_install = match many_field::<String>(f, "pre_install") {
                    Ok(v) => v,
                    Err(e) => return Err(e),
                };
                let pre_uninstall = match many_field::<String>(f, "pre_uninstall") {
                    Ok(v) => v,
                    Err(e) => return Err(e),
                };
                let shortcuts = match field::<Vec<Vec<String>>>(f, "shortcuts") {
                    Ok(v) => v,
                    Err(e) => return Err(e),
                };
                let uninstaller = match field::<Uninstaller>(f, "uninstaller") {
                    Ok(v) => v,
                    Err(e) => return Err(e),
                };
                let url = match many_field::<DownloadUrl>(f, "url") {
                    Ok(v) => v,
                    Err(e) => return Err(e),
                };
                Ok(ArchManifest { bin, checkver, env_add_path, env_set, extract_dir, hash, installer, msi, post_install, post_uninstall, pre_install, pre_uninstall, shortcuts, uninstaller, url })
            },
            _ => Err(ManifestError::Shape),
        }
    }
}

/// How to find the latest version of an app.
#[derive(Debug, Clone)]
pub struct CheckverClass {
    pub github: Option<String>,
    /// Same as `jsonpath`.
    pub jp: Option<String>,
    pub jsonpath: Option<String>,
    /// Same as `regex`.
    pub re: Option<String>,
    pub regex: Option<String>,
    /// Rearranges the matches of the regex.
    pub replace: Option<String>,
    /// Takes the matches of the regex in reverse order.
    pub reverse: Option<bool>,
    /// A script that finds the version.
    pub script: Option<Vec<String>>,
    pub sourceforge: Option<CheckVerSourceforge>,
    pub url: Option<String>,
    pub useragent: Option<String>,
    pub xpath: Option<String>,
}

/// The model of [`CheckverClass`].
pub struct CheckverClassV {
    pub github: Option<Seq<char>>,
    pub jp: Option<Seq<char>>,
    pub jsonpath: Option<Seq<char>>,
    pub re: Option<Seq<char>>,
    pub regex: Option<Seq<char>>,
    pub replace: Option<Seq<char>>,
    pub reverse: Option<bool>,
    pub script: Option<Seq<Seq<char>>>,
    pub sourceforge: Option<CheckVerSourceforgeV>,
    pub url: Option<Seq<char>>,
    pub useragent: Option<Seq<char>>,
    pub xpath: Option<Seq<char>>,
}

impl DeepView for CheckverClass {
    type V = CheckverClassV;

    open spec fn deep_view(&self) -> CheckverClassV {
        CheckverClassV {
            github: self.github.deep_view(),
            jp: self.jp.deep_view(),
            jsonpath: self.jsonpath.deep_view(),
            re: self.re.deep_view(),
            regex: self.regex.deep_view(),
            replace: self.replace.deep_view(),
            reverse: self.reverse.deep_view(),
            script: self.script.deep_view(),
            sourceforge: self.sourceforge.deep_view(),
            url: self.url.deep_view(),
            useragent: self.useragent.deep_view(),
            xpath: self.xpath.deep_view(),
        }
    }
}

impl FromJson for CheckverClass {
    open spec fn json_spec(j: Json) -> Result<CheckverClassV, ManifestErrorV> {
        match j {
            Json::Object(f) => {
                let github = field_spec::<String>(f@, "github"@);
                let jp = field_spec::<String>(f@, "jp"@);
                let jsonpath = field_spec::<String>(f@, "jsonpath"@);
                let re = field_spec::<String>(f@, "re"@);
                let regex = field_spec::<String>(f@, "regex"@);
                let replace = field_spec::<String>(f@, "replace"@);
                let reverse = field_spec::<bool>(f@, "reverse"@);
                let script = many_field_spec::<String>(f@, "script"@);
                let sourceforge = field_spec::<CheckVerSourceforge>(f@, "sourceforge"@);
                let url = field_spec::<String>(f@, "url"@);
                let useragent = field_spec::<String>(f@, "useragent"@);
                let xpath = field_spec::<String>(f@, "xpath"@);
                if github is Err {
                    Err(github->Err_0)
                } else if jp is Err {
                    Err(jp->Err_0)
                } else if jsonpath is Err {
                    Err(jsonpath->Err_0)
                } else if re is Err {
                    Err(re->Err_0)
                } else if regex is Err {
                    Err(regex->Err_0)
                } else if replace is Err {
                    Err(replace->Err_0)
                } else if reverse is Err {
                    Err(reverse->Err_0)
                } else if script is Err {
                    Err(script->Err_0)
                } else if sourceforge is Err {
                    Err(sourceforge->Err_0)
                } else if url is Err {
                    Err(url->Err_0)
                } else if useragent is Err {
                    Err(useragent->Err_0)
                } else if xpath is Err {
                    Err(xpath->Err_0)
                } else {
                    Ok(CheckverClassV {
                        github: github->Ok_0,
                        jp: jp->Ok_0,
                        jsonpath: jsonpath->Ok_0,
                        re: re->Ok_0,
                        regex: regex->Ok_0,
                        replace: replace->Ok_0,
                        reverse: reverse->Ok_0,
                        script: script->Ok_0,
                        sourceforge: sourceforge->Ok_0,
                        url: url->Ok_0,
                        useragent: useragent->Ok_0,
                        xpath: xpath->Ok_0,
                    })
                }
            },
            _ => Err(ManifestErrorV::Shape),
        }
    }

    fn from_json(j: &Json) -> (r: Result<CheckverClass, ManifestError>) {
        match j {
            Json::Object(f) => {
                let github = match field::<String>(f, "github") {
                    Ok(v) => v,
                    Err(e) => return Err(e),
                };
                let jp = match field::<String>(f, "jp") {
                    Ok(v) => v,
                    Err(e) => return Err(e),
                };
                let jsonpath = match field::<String>(f, "jsonpath") {
                    Ok(v) => v,
                    Err(e) => return Err(e),
                };
                let re = match field::<String>(f, "re") {
                    Ok(v) => v,
                    Err(e) => return Err(e),
                };
                let regex = match field::<String>(f, "regex") {
                    Ok(v) => v,
                    Err(e) => return Err(e),
                };
                let replace = match field::<String>(f, "replace") {
                    Ok(v) => v,
                    Err(e) => return Err(e),
                };
                let reverse = match field::<bool>(f, "reverse") {
                    Ok(v) => v,
                    Err(e) => return Err(e),
                };
                let script = match many_field::<String>(f, "script") {
                    Ok(v) => v,
                    Err(e) => return Err(e),
                };
                let sourceforge = match field::<CheckVerSourceforge>(f, "sourceforge") {
                    Ok(v) => v,
                    Err(e) => return Err(e),
                };
                let url = match field::<String>(f, "url") {
                    Ok(v) => v,
                    Err(e) => return Err(e),
                };
                let useragent = match field::<String>(f, "useragent") {
                    Ok(v) => v,
                    Err(e) => return Err(e),
                };
                let xpath = match field::<String>(f, "xpath") {
                    Ok(v) => v,
                    Err(e) => return Err(e),
                };
                Ok(CheckverClass { github, jp, jsonpath, re, regex, replace, reverse, script, sourceforge, url, useragent, xpath })
            },
            _ => Err(ManifestError::Shape),
        }
    }
}

/// A SourceForge project and path.
#[derive(Debug, Clone)]
pub struct SourceforgeDetail {
    pub path: Option<String>,
    pub project: Option<String>,
}

/// The model of [`SourceforgeDetail`].
pub struct SourceforgeDetailV {
    pub path: Option<Seq<char>>,
    pub project: Option<Seq<char>>,
}

impl DeepView for SourceforgeDetail {
    type V = SourceforgeDetailV;

    open spec fn deep_view(&self) -> SourceforgeDetailV {
        SourceforgeDetailV {
            path: self.path.deep_view(),
            project: self.project.deep_view(),
        }
    }
}

impl FromJson for SourceforgeDetail {
    open spec fn json_spec(j: Json) -> Result<SourceforgeDetailV, ManifestErrorV> {
        match j {
            Json::Object(f) => {
                let path = field_spec::<String>(f@, "path"@);
                let project = field_spec::<String>(f@, "project"@);
                if path is Err {
                    Err(path->Err_0)
                } else if project is Err {
                    Err(project->Err_0)
                } else {
                    Ok(SourceforgeDetailV {
                        path: path->Ok_0,
                        project: project->Ok_0,
                    })
                }
            },
            _ => Err(ManifestErrorV::Shape),
        }
    }

    fn from_json(j: &Json) -> (r: Result<SourceforgeDetail, ManifestError>) {
        match j {
            Json::Object(f) => {
                let path = match field::<String>(f, "path") {
                    Ok(v) => v,
                    Err(e) => return Err(e),
                };
                let project = match field::<String>(f, "project") {
                    Ok(v) => v,
                    Err(e) => return Err(e),
                };
                Ok(SourceforgeDetail { path, project })
            },
            _ => Err(ManifestError::Shape),
        }
    }
}

/// How to run the installer of an app.
#[derive(Debug, Clone)]
pub struct ManifestInstaller {
    pub comment: Option<String>,
    pub args: Option<Vec<String>>,
    pub file: Option<String>,
    pub keep: Option<bool>,
    pub script: Option<Vec<String>>,
}

/// The model of [`ManifestInstaller`].
pub struct ManifestInstallerV {
    pub comment: Option<Seq<char>>,
    pub args: Option<Seq<Seq<char>>>,
    pub file: Option<Seq<char>>,
    pub keep: Option<bool>,
    pub script: Option<Seq<Seq<char>>>,
}

impl DeepView for ManifestInstaller {
    type V = ManifestInstallerV;

    open spec fn deep_view(&self) -> ManifestInstallerV {
        ManifestInstallerV {
            comment: self.comment.deep_view(),
            args: self.args.deep_view(),
            file: self.file.deep_view(),
            keep: self.keep.deep_view(),
            script: self.script.deep_view(),
        }
    }
}

impl FromJson for ManifestInstaller {
    open spec fn json_spec(j: Json) -> Result<ManifestInstallerV, ManifestErrorV> {
        match j {
            Json::Object(f) => {
                let comment = field_spec::<String>(f@, "_comment"@);
                let args = many_field_spec::<String>(f@, "args"@);
                let file = field_spec::<String>(f@, "file"@);
                let keep = field_spec::<bool>(f@, "keep"@);
                let script = many_field_spec::<String>(f@, "script"@);
                if comment is Err {
                    Err(comment->Err_0)
                } else if args is Err {
                    Err(args->Err_0)
                } else if file is Err {
                    Err(file->Err_0)
                } else if keep is Err {
                    Err(keep->Err_0)
                } else if script is Err {
                    Err(script->Err_0)
                } else {
                    Ok(ManifestInstallerV {
                        comment: comment->Ok_0,
                        args: args->Ok_0,
                        file: file->Ok_0,
                        keep: keep->Ok_0,
                        script: script->Ok_0,
                    })
                }
            },
            _ => Err(ManifestErrorV::Shape),
        }
    }

    fn from_json(j: &Json) -> (r: Result<ManifestInstaller, ManifestError>) {
        match j {
            Json::Object(f) => {
                let comment = match field::<String>(f, "_comment") {
                    Ok(v) => v,
                    Err(e) => return Err(e),
                };
                let args = match many_field::<String>(f, "args") {
                    Ok(v) => v,
                    Err(e) => return Err(e),
                };
                let file = match field::<String>(f, "file") {
                    Ok(v) => v,
                    Err(e) => return Err(e),
                };
                let keep = match field::<bool>(f, "keep") {
                    Ok(v) => v,
                    Err(e) => return Err(e),
                };
                let script = match many_field::<String>(f, "script") {
                    Ok(v) => v,
                    Err(e) => return Err(e),
                };
                Ok(ManifestInstaller { comment, args, file, keep, script })
            },
            _ => Err(ManifestError::Shape),
        }
    }
}

/// How to run the uninstaller of an app.
#[derive(Debug, Clone)]
pub struct Uninstaller {
    pub args: Option<Vec<String>>,
    pub file: Option<String>,
    pub script: Option<Vec<String>>,
}

/// The model of [`Uninstaller`].
pub struct UninstallerV {
    pub args: Option<Seq<Seq<char>>>,
    pub file: Option<Seq<char>>,
    pub script: Option<Seq<Seq<char>>>,
}

impl DeepView for Uninstaller {
    type V = UninstallerV;

    open spec fn deep_view(&self) -> UninstallerV {
        UninstallerV {
            args: self.args.deep_view(),
            file: self.file.deep_view(),
            script: self.script.deep_view(),
        }
    }
}

impl FromJson for Uninstaller {
    open spec fn json_spec(j: Json) -> Result<UninstallerV, ManifestErrorV> {
        match j {
            Json::Object(f) => {
                let args = many_field_spec::<String>(f@, "args"@);
                let file = field_spec::<String>(f@, "file"@);
                let script = many_field_spec::<String>(f@, "script"@);
                if args is Err {
                    Err(args->Err_0)
                } else if file is Err {
                    Err(file->Err_0)
                } else if script is Err {
                    Err(script->Err_0)
                } else {
                    Ok(UninstallerV {
                        args: args->Ok_0,
                        file: file->Ok_0,
                        script: script->Ok_0,
                    })
                }
            },
            _ => Err(ManifestErrorV::Shape),
        }
    }

    fn from_json(j: &Json) -> (r: Result<Uninstaller, ManifestError>) {
        match j {
            Json::Object(f) => {
                let args = match many_field::<String>(f, "args") {
                    Ok(v) => v,
                    Err(e) => return Err(e),
                };
                let file = match field::<String>(f, "file") {
                    Ok(v) => v,
                    Err(e) => return Err(e),
                };
                let script = match many_field::<String>(f, "script") {
                    Ok(v) => v,
                    Err(e) => return Err(e),
                };
                Ok(Uninstaller { args, file, script })
            },
            _ => Err(ManifestError::Shape),
        }
    }
}

/// How to update a manifest to a new version.
#[derive(Debug, Clone)]
pub struct Autoupdate {
    pub architecture: Option<AutoupdateArchitecture>,
    pub bin: Option<Vec<Bin>>,
    pub env_add_path: Option<Vec<String>>,
    pub env_set: Option<Vec<(String, Option<Json>)>>,
    pub extract_dir: Option<Vec<String>>,
    pub hash: Option<Vec<HashExtraction>>,
    pub installer: Option<Installer>,
    pub license: Option<License>,
    pub notes: Option<Vec<String>>,
    pub persist: Option<Vec<Bin>>,
    pub psmodule: Option<Psmodule>,
    pub shortcuts: Option<Vec<Vec<String>>>,
    /// URL templates, not complete URLs.
    pub url: Option<Vec<String>>,
}

/// The model of [`Autoupdate`].
pub struct AutoupdateV {
    pub architecture: Option<AutoupdateArchitectureV>,
    pub bin: Option<Seq<BinV>>,
    pub env_add_path: Option<Seq<Seq<char>>>,
    pub env_set: Option<Seq<(Seq<char>, Option<JsonV>)>>,
    pub extract_dir: Option<Seq<Seq<char>>>,
    pub hash: Option<Seq<HashExtractionV>>,
    pub installer: Option<InstallerV>,
    pub license: Option<LicenseV>,
    pub notes: Option<Seq<Seq<char>>>,
    pub persist: Option<Seq<BinV>>,
    pub psmodule: Option<PsmoduleV>,
    pub shortcuts: Option<Seq<Seq<Seq<char>>>>,
    pub url: Option<Seq<Seq<char>>>,
}

impl DeepView for Autoupdate {
    type V = AutoupdateV;

    open spec fn deep_view(&self) -> AutoupdateV {
        AutoupdateV {
            architecture: self.architecture.deep_view(),
            bin: self.bin.deep_view(),
            env_add_path: self.env_add_path.deep_view(),
            env_set: self.env_set.deep_view(),
            extract_dir: self.extract_dir.deep_view(),
            hash: self.hash.deep_view(),
            installer: self.installer.deep_view(),
            license: self.license.deep_view(),
            notes: self.notes.deep_view(),
            persist: self.persist.deep_view(),
            psmodule: self.psmodule.deep_view(),
            shortcuts: self.shortcuts.deep_view(),
            url: self.url.deep_view(),
        }
    }
}

impl FromJson for Autoupdate {
    open spec fn json_spec(j: Json) -> Result<AutoupdateV, ManifestErrorV> {
        match j {
            Json::Object(f) => {
                let architecture = field_spec::<AutoupdateArchitecture>(f@, "architecture"@);
                let bin = many_field_spec::<Bin>(f@, "bin"@);
                let env_add_path = many_field_spec::<String>(f@, "env_add_path"@);
                let env_set = members_field_spec::<Option<Json>>(f@, "env_set"@);
                let extract_dir = many_field_spec::<String>(f@, "extract_dir"@);
                let hash = many_field_spec::<HashExtraction>(f@, "hash"@);
                let installer = field_spec::<Installer>(f@, "installer"@);
                let license = field_spec::<License>(f@, "license"@);
                let notes = many_field_spec::<String>(f@, "notes"@);
                let persist = many_field_spec::<Bin>(f@, "persist"@);
                let psmodule = field_spec::<Psmodule>(f@, "psmodule"@);
                let shortcuts = field_spec::<Vec<Vec<String>>>(f@, "shortcuts"@);
                let url = many_field_spec::<String>(f@, "url"@);
                if architecture is Err {
                    Err(architecture->Err_0)
                } else if bin is Err {
                    Err(bin->Err_0)
                } else if env_add_path is Err {
                    Err(env_add_path->Err_0)
                } else if env_set is Err {
                    Err(env_set->Err_0)
                } else if extract_dir is Err {
                    Err(extract_dir->Err_0)
                } else if hash is Err {
                    Err(hash->Err_0)
                } else if installer is Err {
                    Err(installer->Err_0)
                } else if license is Err {
                    Err(license->Err_0)
                } else if notes is Err {
                    Err(notes->Err_0)
                } else if persist is Err {
                    Err(persist->Err_0)
                } else if psmodule is Err {
                    Err(psmodule->Err_0)
                } else if shortcuts is Err {
                    Err(shortcuts->Err_0)
                } else if url is Err {
                    Err(url->Err_0)
                } else {
                    Ok(AutoupdateV {
                        architecture: architecture->Ok_0,
                        bin: bin->Ok_0,
                        env_add_path: env_add_path->Ok_0,
                        env_set: env_set->Ok_0,
                        extract_dir: extract_dir->Ok_0,
                        hash: hash->Ok_0,
                        installer: installer->Ok_0,
                        license: license->Ok_0,
                        notes: notes->Ok_0,
                        persist: persist->Ok_0,
                        psmodule: psmodule->Ok_0,
                        shortcuts: shortcuts->Ok_0,
                        url: url->Ok_0,
                    })
                }
            },
            _ => Err(ManifestErrorV::Shape),
        }
    }

    fn from_json(j: &Json) -> (r: Result<Autoupdate, ManifestError>) {
        match j {
            Json::Object(f) => {
                let architecture = match field::<AutoupdateArchitecture>(f, "architecture") {
                    Ok(v) => v,
                    Err(e) => return Err(e),
                };
                let bin = match many_field::<Bin>(f, "bin") {
                    Ok(v) => v,
                    Err(e) => return Err(e),
                };
                let env_add_path = match many_field::<String>(f, "env_add_path") {
                    Ok(v) => v,
                    Err(e) => return Err(e),
                };
                let env_set = match members_field::<Option<Json>>(f, "env_set") {
                    Ok(v) => v,
                    Err(e) => return Err(e),
                };
                let extract_dir = match many_field::<String>(f, "extract_dir") {
                    Ok(v) => v,
                    Err(e) => return Err(e),
                };
                let hash = match many_field::<HashExtraction>(f, "hash") {
                    Ok(v) => v,
                    Err(e) => return Err(e),
                };
                let installer = match field::<Installer>(f, "installer") {
                    Ok(v) => v,
                    Err(e) => return Err(e),
                };
                let license = match field::<License>(f, "license") {
                    Ok(v) => v,
                    Err(e) => return Err(e),
                };
                let notes = match many_field::<String>(f, "notes") {
                    Ok(v) => v,
                    Err(e) => return Err(e),
                };
                let persist = match many_field::<Bin>(f, "persist") {
                    Ok(v) => v,
                    Err(e) => return Err(e),
                };
                let psmodule = match field::<Psmodule>(f, "psmodule") {
                    Ok(v) => v,
                    Err(e) => return Err(e),
                };
                let shortcuts = match field::<Vec<Vec<String>>>(f, "shortcuts") {
                    Ok(v) => v,
                    Err(e) => return Err(e),
                };
                let url = match many_field::<String>(f, "url") {
                    Ok(v) => v,
                    Err(e) => return Err(e),
                };
                Ok(Autoupdate { architecture, bin, env_add_path, env_set, extract_dir, hash, installer, license, notes, persist, psmodule, shortcuts, url })
            },
            _ => Err(ManifestError::Shape),
        }
    }
}

/// The per-architecture blocks of an autoupdate.
#[derive(Debug, Clone)]
pub struct AutoupdateArchitecture {
    pub the_32_bit: Option<AutoupdateArch>,
    pub the_64_bit: Option<AutoupdateArch>,
    pub arm64: Option<AutoupdateArch>,
}

/// The model of [`AutoupdateArchitecture`].
pub struct AutoupdateArchitectureV {
    pub the_32_bit: Option<AutoupdateArchV>,
    pub the_64_bit: Option<AutoupdateArchV>,
    pub arm64: Option<AutoupdateArchV>,
}

impl DeepView for AutoupdateArchitecture {
    type V = AutoupdateArchitectureV;

    open spec fn deep_view(&self) -> AutoupdateArchitectureV {
        AutoupdateArchitectureV {
            the_32_bit: self.the_32_bit.deep_view(),
            the_64_bit: self.the_64_bit.deep_view(),
            arm64: self.arm64.deep_view(),
        }
    }
}

impl FromJson for AutoupdateArchitecture {
    open spec fn json_spec(j: Json) -> Result<AutoupdateArchitectureV, ManifestErrorV> {
        match j {
            Json::Object(f) => {
                let the_32_bit = field_spec::<AutoupdateArch>(f@, "32bit"@);
                let the_64_bit = field_spec::<AutoupdateArch>(f@, "64bit"@);
                let arm64 = field_spec::<AutoupdateArch>(f@, "arm64"@);
                if the_32_bit is Err {
                    Err(the_32_bit->Err_0)
                } else if the_64_bit is Err {
                    Err(the_64_bit->Err_0)
                } else if arm64 is Err {
                    Err(arm64->Err_0)
                } else {
                    Ok(AutoupdateArchitectureV {
                        the_32_bit: the_32_bit->Ok_0,
                        the_64_bit: the_64_bit->Ok_0,
                        arm64: arm64->Ok_0,
                    })
                }
            },
            _ => Err(ManifestErrorV::Shape),
        }
    }

    fn from_json(j: &Json) -> (r: Result<AutoupdateArchitecture, ManifestError>) {
        match j {
            Json::Object(f) => {
                let the_32_bit = match field::<AutoupdateArch>(f, "32bit") {
                    Ok(v) => v,
                    Err(e) => return Err(e),
                };
                let the_64_bit = match field::<AutoupdateArch>(f, "64bit") {
                    Ok(v) => v,
                    Err(e) => return Err(e),
                };
                let arm64 = match field::<AutoupdateArch>(f, "arm64") {
                    Ok(v) => v,
                    Err(e) => return Err(e),
                };
                Ok(AutoupdateArchitecture { the_32_bit, the_64_bit, arm64 })
            },
            _ => Err(ManifestError::Shape),
        }
    }
}

/// The fields of an autoupdate that an architecture may override.
#[derive(Debug, Clone)]
pub struct AutoupdateArch {
    pub bin: Option<Vec<Bin>>,
    pub env_add_path: Option<Vec<String>>,
    pub env_set: Option<Vec<(String, Option<Json>)>>,
    pub extract_dir: Option<Vec<String>>,
    pub hash: Option<Vec<HashExtraction>>,
    pub installer: Option<Installer>,
    pub shortcuts: Option<Vec<Vec<String>>>,
    pub url: Option<Vec<String>>,
}

/// The model of [`AutoupdateArch`].
pub struct AutoupdateArchV {
    pub bin: Option<Seq<BinV>>,
    pub env_add_path: Option<Seq<Seq<char>>>,
    pub env_set: Option<Seq<(Seq<char>, Option<JsonV>)>>,
    pub extract_dir: Option<Seq<Seq<char>>>,
    pub hash: Option<Seq<HashExtractionV>>,
    pub installer: Option<InstallerV>,
    pub shortcuts: Option<Seq<Seq<Seq<char>>>>,
    pub url: Option<Seq<Seq<char>>>,
}

impl DeepView for AutoupdateArch {
    type V = AutoupdateArchV;

    open spec fn deep_view(&self) -> AutoupdateArchV {
        AutoupdateArchV {
            bin: self.bin.deep_view(),
            env_add_path: self.env_add_path.deep_view(),
            env_set: self.env_set.deep_view(),
            extract_dir: self.extract_dir.deep_view(),
            hash: self.hash.deep_view(),
            installer: self.installer.deep_view(),
            shortcuts: self.shortcuts.deep_view(),
            url: self.url.deep_view(),
        }
    }
}

impl FromJson for AutoupdateArch {
    open spec fn json_spec(j: Json) -> Result<AutoupdateArchV, ManifestErrorV> {
        match j {
            Json::Object(f) => {
                let bin = many_field_spec::<Bin>(f@, "bin"@);
                let env_add_path = many_field_spec::<String>(f@, "env_add_path"@);
                let env_set = members_field_spec::<Option<Json>>(f@, "env_set"@);
                let extract_dir = many_field_spec::<String>(f@, "extract_dir"@);
                let hash = many_field_spec::<HashExtraction>(f@, "hash"@);
                let installer = field_spec::<Installer>(f@, "installer"@);
                let shortcuts = field_spec::<Vec<Vec<String>>>(f@, "shortcuts"@);
                let url = many_field_spec::<String>(f@, "url"@);
                if bin is Err {
                    Err(bin->Err_0)
                } else if env_add_path is Err {
                    Err(env_add_path->Err_0)
                } else if env_set is Err {
                    Err(env_set->Err_0)
                } else if extract_dir is Err {
                    Err(extract_dir->Err_0)
                } else if hash is Err {
                    Err(hash->Err_0)
                } else if installer is Err {
                    Err(installer->Err_0)
                } else if shortcuts is Err {
                    Err(shortcuts->Err_0)
                } else if url is Err {
                    Err(url->Err_0)
                } else {
                    Ok(AutoupdateArchV {
                        bin: bin->Ok_0,
                        env_add_path: env_add_path->Ok_0,
                        env_set: env_set->Ok_0,
                        extract_dir: extract_dir->Ok_0,
                        hash: hash->Ok_0,
                        installer: installer->Ok_0,
                        shortcuts: shortcuts->Ok_0,
                        url: url->Ok_0,
                    })
                }
            },
            _ => Err(ManifestErrorV::Shape),
        }
    }

    fn from_json(j: &Json) -> (r: Result<AutoupdateArch, ManifestError>) {
        match j {
            Json::Object(f) => {
                let bin = match many_field::<Bin>(f, "bin") {
                    Ok(v) => v,
                    Err(e) => return Err(e),
                };
                let env_add_path = match many_field::<String>(f, "env_add_path") {
                    Ok(v) => v,
                    Err(e) => return Err(e),
                };
                let env_set = match members_field::<Option<Json>>(f, "env_set") {
                    Ok(v) => v,
                    Err(e) => return Err(e),
                };
                let extract_dir = match many_field::<String>(f, "extract_dir") {
                    Ok(v) => v,
                    Err(e) => return Err(e),
                };
                let hash = match many_field::<HashExtraction>(f, "hash") {
                    Ok(v) => v,
                    Err(e) => return Err(e),
                };
                let installer = match field::<Installer>(f, "installer") {
                    Ok(v) => v,
                    Err(e) => return Err(e),
                };
                let shortcuts = match field::<Vec<Vec<String>>>(f, "shortcuts") {
                    Ok(v) => v,
                    Err(e) => return Err(e),
                };
                let url = match many_field::<String>(f, "url") {
                    Ok(v) => v,
                    Err(e) => return Err(e),
                };
                Ok(AutoupdateArch { bin, env_add_path, env_set, extract_dir, hash, installer, shortcuts, url })
            },
            _ => Err(ManifestError::Shape),
        }
    }
}

/// Where an autoupdate finds the hash of a download.
#[derive(Debug, Clone)]
pub struct HashExtraction {
    /// `jp` is an alias.
    pub jsonpath: Option<String>,
    pub mode: Option<HashExtractionMode>,
    /// `find` is an alias.
    pub regex: Option<String>,
    /// Deprecated: the hash type is found from the hash itself.
    pub hash_extraction_type: Option<HashExtractionType>,
    pub url: Option<String>,
    pub xpath: Option<String>,
}

/// The model of [`HashExtraction`].
pub struct HashExtractionV {
    pub jsonpath: Option<Seq<char>>,
    pub mode: Option<HashExtractionMode>,
    pub regex: Option<Seq<char>>,
    pub hash_extraction_type: Option<HashExtractionType>,
    pub url: Option<Seq<char>>,
    pub xpath: Option<Seq<char>>,
}

impl DeepView for HashExtraction {
    type V = HashExtractionV;

    open spec fn deep_view(&self) -> HashExtractionV {
        HashExtractionV {
            jsonpath: self.jsonpath.deep_view(),
            mode: self.mode.deep_view(),
            regex: self.regex.deep_view(),
            hash_extraction_type: self.hash_extraction_type.deep_view(),
            url: self.url.deep_view(),
            xpath: self.xpath.deep_view(),
        }
    }
}

impl FromJson for HashExtraction {
    open spec fn json_spec(j: Json) -> Result<HashExtractionV, ManifestErrorV> {
        match j {
            Json::Object(f) => {
                let jsonpath = field_spec::<String>(f@, pick_key_spec(f@, "jsonpath"@, "jp"@, "jp"@));
                let mode = field_spec::<HashExtractionMode>(f@, "mode"@);
                let regex = field_spec::<String>(f@, pick_key_spec(f@, "regex"@, "find"@, "find"@));
                let hash_extraction_type = field_spec::<HashExtractionType>(f@, "type"@);
                let url = field_spec::<String>(f@, "url"@);
                let xpath = field_spec::<String>(f@, "xpath"@);
                if jsonpath is Err {
                    Err(jsonpath->Err_0)
                } else if mode is Err {
                    Err(mode->Err_0)
                } else if regex is Err {
                    Err(regex->Err_0)
                } else if hash_extraction_type is Err {
                    Err(hash_extraction_type->Err_0)
                } else if url is Err {
                    Err(url->Err_0)
                } else if xpath is Err {
                    Err(xpath->Err_0)
                } else {
                    Ok(HashExtractionV {
                        jsonpath: jsonpath->Ok_0,
                        mode: mode->Ok_0,
                        regex: regex->Ok_0,
                        hash_extraction_type: hash_extraction_type->Ok_0,
                        url: url->Ok_0,
                        xpath: xpath->Ok_0,
                    })
                }
            },
            _ => Err(ManifestErrorV::Shape),
        }
    }

    fn from_json(j: &Json) -> (r: Result<HashExtraction, ManifestError>) {
        match j {
            Json::Object(f) => {
                let key = pick_key(f, "jsonpath", "jp", "jp");
                let jsonpath = match field::<String>(f, key) {
                    Ok(v) => v,
                    Err(e) => return Err(e),
                };
                let mode = match field::<HashExtractionMode>(f, "mode") {
                    Ok(v) => v,
                    Err(e) => return Err(e),
                };
                let key = pick_key(f, "regex", "find", "find");
                let regex = match field::<String>(f, key) {
                    Ok(v) => v,
                    Err(e) => return Err(e),
                };
                let hash_extraction_type = match field::<HashExtractionType>(f, "type") {
                    Ok(v) => v,
                    Err(e) => return Err(e),
                };
                let url = match field::<String>(f, "url") {
                    Ok(v) => v,
                    Err(e) => return Err(e),
                };
                let xpath = match field::<String>(f, "xpath") {
                    Ok(v) => v,
                    Err(e) => return Err(e),
                };
                Ok(HashExtraction { jsonpath, mode, regex, hash_extraction_type, url, xpath })
            },
            _ => Err(ManifestError::Shape),
        }
    }
}

/// The installer file of an autoupdate.
#[derive(Debug, Clone)]
pub struct Installer {
    pub file: Option<String>,
}

/// The model of [`Installer`].
pub struct InstallerV {
    pub file: Option<Seq<char>>,
}

impl DeepView for Installer {
    type V = InstallerV;

    open spec fn deep_view(&self) -> InstallerV {
        InstallerV {
            file: self.file.deep_view(),
        }
    }
}

impl FromJson for Installer {
    open spec fn json_spec(j: Json) -> Result<InstallerV, ManifestErrorV> {
        match j {
            Json::Object(f) => {
                let file = field_spec::<String>(f@, "file"@);
                if file is Err {
                    Err(file->Err_0)
                } else {
                    Ok(InstallerV {
                        file: file->Ok_0,
                    })
                }
            },
            _ => Err(ManifestErrorV::Shape),
        }
    }

    fn from_json(j: &Json) -> (r: Result<Installer, ManifestError>) {
        match j {
            Json::Object(f) => {
                let file = match field::<String>(f, "file") {
                    Ok(v) => v,
                    Err(e) => return Err(e),
                };
                Ok(Installer { file })
            },
            _ => Err(ManifestError::Shape),
        }
    }
}

/// A license given by identifier and URL.
#[derive(Debug, Clone)]
pub struct DetailedLicense {
    pub identifier: Option<String>,
    pub url: Option<String>,
}

/// The model of [`DetailedLicense`].
pub struct DetailedLicenseV {
    pub identifier: Option<Seq<char>>,
    pub url: Option<Seq<char>>,
}

impl DeepView for DetailedLicense {
    type V = DetailedLicenseV;

    open spec fn deep_view(&self) -> DetailedLicenseV {
        DetailedLicenseV {
            identifier: self.identifier.deep_view(),
            url: self.url.deep_view(),
        }
    }
}

impl FromJson for DetailedLicense {
    open spec fn json_spec(j: Json) -> Result<DetailedLicenseV, ManifestErrorV> {
        match j {
            Json::Object(f) => {
                let identifier = field_spec::<String>(f@, "identifier"@);
                let url = field_spec::<String>(f@, "url"@);
                if identifier is Err {
                    Err(identifier->Err_0)
                } else if url is Err {
                    Err(url->Err_0)
                } else {
                    Ok(DetailedLicenseV {
                        identifier: identifier->Ok_0,
                        url: url->Ok_0,
                    })
                }
            },
            _ => Err(ManifestErrorV::Shape),
        }
    }

    fn from_json(j: &Json) -> (r: Result<DetailedLicense, ManifestError>) {
        match j {
            Json::Object(f) => {
                let identifier = match field::<String>(f, "identifier") {
                    Ok(v) => v,
                    Err(e) => return Err(e),
                };
                let url = match field::<String>(f, "url") {
                    Ok(v) => v,
                    Err(e) => return Err(e),
                };
                Ok(DetailedLicense { identifier, url })
            },
            _ => Err(ManifestError::Shape),
        }
    }
}

/// A PowerShell module that an app installs.
#[derive(Debug, Clone)]
pub struct Psmodule {
    pub name: String,
}

/// The model of [`Psmodule`].
pub struct PsmoduleV {
    pub name: Seq<char>,
}

impl DeepView for Psmodule {
    type V = PsmoduleV;

    open spec fn deep_view(&self) -> PsmoduleV {
        PsmoduleV {
            name: self.name.deep_view(),
        }
    }
}

impl FromJson for Psmodule {
    open spec fn json_spec(j: Json) -> Result<PsmoduleV, ManifestErrorV> {
        match j {
            Json::Object(f) => {
                let name = req_field_spec::<String>(f@, "name"@);
                if name is Err {
                    Err(name->Err_0)
                } else {
                    Ok(PsmoduleV {
                        name: name->Ok_0,
                    })
                }
            },
            _ => Err(ManifestErrorV::Shape),
        }
    }

    fn from_json(j: &Json) -> (r: Result<Psmodule, ManifestError>) {
        match j {
            Json::Object(f) => {
                let name = match req_field::<String>(f, "name") {
                    Ok(v) => v,
                    Err(e) => return Err(e),
                };
                Ok(Psmodule { name })
            },
            _ => Err(ManifestError::Shape),
        }
    }
}


/// A template for finding the latest version.
#[derive(Debug, Clone, Copy, PartialEq, Eq)]
pub enum CheckverTemplate {
    Github,
}

impl DeepView for CheckverTemplate {
    type V = CheckverTemplate;

    open spec fn deep_view(&self) -> CheckverTemplate {
        *self
    }
}

/// How to find the latest version: a detailed block, a template, or a regex.
#[derive(Debug, Clone)]
pub enum Checkver {
    CheckverClass(CheckverClass),
    Template(CheckverTemplate),
    String(String),
}

/// The model of [`Checkver`].
pub enum CheckverV {
    CheckverClass(CheckverClassV),
    Template(CheckverTemplate),
    String(Seq<char>),
}

impl DeepView for Checkver {
    type V = CheckverV;

    open spec fn deep_view(&self) -> CheckverV {
        match self {
            Checkver::CheckverClass(c) => CheckverV::CheckverClass(c.deep_view()),
            Checkver::Template(t) => CheckverV::Template(*t),
            Checkver::String(s) => CheckverV::String(s@),
        }
    }
}

impl FromJson for Checkver {
    open spec fn json_spec(j: Json) -> Result<CheckverV, ManifestErrorV> {
        match j {
            Json::Object(_) => match CheckverClass::json_spec(j) {
                Ok(c) => Ok(CheckverV::CheckverClass(c)),
                Err(e) => Err(e),
            },
            Json::Str(s) => if s@ == "github"@ {
                Ok(CheckverV::Template(CheckverTemplate::Github))
            } else {
                Ok(CheckverV::String(s@))
            },
            _ => Err(ManifestErrorV::Shape),
        }
    }

    fn from_json(j: &Json) -> (r: Result<Checkver, ManifestError>) {
        match j {
            Json::Object(_) => match CheckverClass::from_json(j) {
                Ok(c) => Ok(Checkver::CheckverClass(c)),
                Err(e) => Err(e),
            },
            Json::Str(s) => if str_eq(s.as_str(), "github") {
                Ok(Checkver::Template(CheckverTemplate::Github))
            } else {
                Ok(Checkver::String(s.clone()))
            },
            _ => Err(ManifestError::Shape),
        }
    }
}

/// A SourceForge source: a detailed block or a `project/path` string.
#[derive(Debug, Clone)]
pub enum CheckVerSourceforge {
    SourceforgeClass(SourceforgeDetail),
    String(String),
}

/// The model of [`CheckVerSourceforge`].
pub enum CheckVerSourceforgeV {
    SourceforgeClass(SourceforgeDetailV),
    String(Seq<char>),
}

impl DeepView for CheckVerSourceforge {
    type V = CheckVerSourceforgeV;

    open spec fn deep_view(&self) -> CheckVerSourceforgeV {
        match self {
            CheckVerSourceforge::SourceforgeClass(d) => CheckVerSourceforgeV::SourceforgeClass(
                d.deep_view(),
            ),
            CheckVerSourceforge::String(s) => CheckVerSourceforgeV::String(s@),
        }
    }
}

impl FromJson for CheckVerSourceforge {
    open spec fn json_spec(j: Json) -> Result<CheckVerSourceforgeV, ManifestErrorV> {
        match j {
            Json::Object(_) => match SourceforgeDetail::json_spec(j) {
                Ok(d) => Ok(CheckVerSourceforgeV::SourceforgeClass(d)),
                Err(e) => Err(e),
            },
            Json::Str(s) => Ok(CheckVerSourceforgeV::String(s@)),
            _ => Err(ManifestErrorV::Shape),
        }
    }

    fn from_json(j: &Json) -> (r: Result<CheckVerSourceforge, ManifestError>) {
        match j {
            Json::Object(_) => match SourceforgeDetail::from_json(j) {
                Ok(d) => Ok(CheckVerSourceforge::SourceforgeClass(d)),
                Err(e) => Err(e),
            },
            Json::Str(s) => Ok(CheckVerSourceforge::String(s.clone())),
            _ => Err(ManifestError::Shape),
        }
    }
}

/// One hash or a list of hashes, one for each URL.
#[derive(Debug, Clone)]
pub enum Hash {
    String(String),
    StringArray(Vec<String>),
}

/// The model of [`Hash`].
pub enum HashV {
    String(Seq<char>),
    StringArray(Seq<Seq<char>>),
}

impl DeepView for Hash {
    type V = HashV;

    open spec fn deep_view(&self) -> HashV {
        match self {
            Hash::String(s) => HashV::String(s@),
            Hash::StringArray(v) => HashV::StringArray(v.deep_view()),
        }
    }
}

impl FromJson for Hash {
    open spec fn json_spec(j: Json) -> Result<HashV, ManifestErrorV> {
        match j {
            Json::Str(s) => Ok(HashV::String(s@)),
            Json::Array(a) => match list_spec::<String>(a@) {
                Ok(v) => Ok(HashV::StringArray(v)),
                Err(e) => Err(e),
            },
            _ => Err(ManifestErrorV::Shape),
        }
    }

    fn from_json(j: &Json) -> (r: Result<Hash, ManifestError>) {
        match j {
            Json::Str(s) => Ok(Hash::String(s.clone())),
            Json::Array(a) => match decode_list::<String>(a) {
                Ok(v) => Ok(Hash::StringArray(v)),
                Err(e) => Err(e),
            },
            _ => Err(ManifestError::Shape),
        }
    }
}

/// The kind of a hash. Deprecated: the kind is found from the hash itself.
#[derive(Debug, Clone, Copy, PartialEq, Eq)]
pub enum HashExtractionType {
    Md5,
    Sha1,
    Sha256,
    Sha512,
}

impl DeepView for HashExtractionType {
    type V = HashExtractionType;

    open spec fn deep_view(&self) -> HashExtractionType {
        *self
    }
}

impl FromJson for HashExtractionType {
    open spec fn json_spec(j: Json) -> Result<HashExtractionType, ManifestErrorV> {
        match j {
            Json::Str(s) => if s@ == "md5"@ {
                Ok(HashExtractionType::Md5)
            } else if s@ == "sha1"@ {
                Ok(HashExtractionType::Sha1)
            } else if s@ == "sha256"@ {
                Ok(HashExtractionType::Sha256)
            } else if s@ == "sha512"@ {
                Ok(HashExtractionType::Sha512)
            } else {
                Err(ManifestErrorV::Shape)
            },
            _ => Err(ManifestErrorV::Shape),
        }
    }

    fn from_json(j: &Json) -> (r: Result<HashExtractionType, ManifestError>) {
        match j {
            Json::Str(s) => {
                let s = s.as_str();
                if str_eq(s, "md5") {
                    Ok(HashExtractionType::Md5)
                } else if str_eq(s, "sha1") {
                    Ok(HashExtractionType::Sha1)
                } else if str_eq(s, "sha256") {
                    Ok(HashExtractionType::Sha256)
                } else if str_eq(s, "sha512") {
                    Ok(HashExtractionType::Sha512)
                } else {
                    Err(ManifestError::Shape)
                }
            },
            _ => Err(ManifestError::Shape),
        }
    }
}

/// Where an autoupdate looks for a hash.
#[derive(Debug, Clone, Copy, PartialEq, Eq)]
pub enum HashExtractionMode {
    Download,
    Extract,
    Fosshub,
    Json,
    Metalink,
    Rdf,
    Sourceforge,
    Xpath,
}

impl DeepView for HashExtractionMode {
    type V = HashExtractionMode;

    open spec fn deep_view(&self) -> HashExtractionMode {
        *self
    }
}

impl FromJson for HashExtractionMode {
    open spec fn json_spec(j: Json) -> Result<HashExtractionMode, ManifestErrorV> {
        match j {
            Json::Str(s) => if s@ == "download"@ {
                Ok(HashExtractionMode::Download)
            } else if s@ == "extract"@ {
                Ok(HashExtractionMode::Extract)
            } else if s@ == "fosshub"@ {
                Ok(HashExtractionMode::Fosshub)
            } else if s@ == "json"@ {
                Ok(HashExtractionMode::Json)
            } else if s@ == "metalink"@ {
                Ok(HashExtractionMode::Metalink)
            } else if s@ == "rdf"@ {
                Ok(HashExtractionMode::Rdf)
            } else if s@ == "sourceforge"@ {
                Ok(HashExtractionMode::Sourceforge)
            } else if s@ == "xpath"@ {
                Ok(HashExtractionMode::Xpath)
            } else {
                Err(ManifestErrorV::Shape)
            },
            _ => Err(ManifestErrorV::Shape),
        }
    }

    fn from_json(j: &Json) -> (r: Result<HashExtractionMode, ManifestError>) {
        match j {
            Json::Str(s) => {
                let s = s.as_str();
                if str_eq(s, "download") {
                    Ok(HashExtractionMode::Download)
                } else if str_eq(s, "extract") {
                    Ok(HashExtractionMode::Extract)
                } else if str_eq(s, "fosshub") {
                    Ok(HashExtractionMode::Fosshub)
                } else if str_eq(s, "json") {
                    Ok(HashExtractionMode::Json)
                } else if str_eq(s, "metalink") {
                    Ok(HashExtractionMode::Metalink)
                } else if str_eq(s, "rdf") {
                    Ok(HashExtractionMode::Rdf)
                } else if str_eq(s, "sourceforge") {
                    Ok(HashExtractionMode::Sourceforge)
                } else if str_eq(s, "xpath") {
                    Ok(HashExtractionMode::Xpath)
                } else {
                    Err(ManifestError::Shape)
                }
            },
            _ => Err(ManifestError::Shape),
        }
    }
}

/// A license: an SPDX identifier, or an identifier with a URL.
#[derive(Debug, Clone)]
pub enum License {
    Details(DetailedLicense),
    String(String),
}

/// The model of [`License`].
pub enum LicenseV {
    Details(DetailedLicenseV),
    String(Seq<char>),
}

impl DeepView for License {
    type V = LicenseV;

    open spec fn deep_view(&self) -> LicenseV {
        match self {
            License::Details(d) => LicenseV::Details(d.deep_view()),
            License::String(s) => LicenseV::String(s@),
        }
    }
}

impl FromJson for License {
    open spec fn json_spec(j: Json) -> Result<LicenseV, ManifestErrorV> {
        match j {
            Json::Object(_) => match DetailedLicense::json_spec(j) {
                Ok(d) => Ok(LicenseV::Details(d)),
                Err(e) => Err(e),
            },
            Json::Str(s) => Ok(LicenseV::String(s@)),
            _ => Err(ManifestErrorV::Shape),
        }
    }

    fn from_json(j: &Json) -> (r: Result<License, ManifestError>) {
        match j {
            Json::Object(_) => match DetailedLicense::from_json(j) {
                Ok(d) => Ok(License::Details(d)),
                Err(e) => Err(e),
            },
            Json::Str(s) => Ok(License::String(s.clone())),
            _ => Err(ManifestError::Shape),
        }
    }
}

/// Apps suggested beside this one: none, one, or a list.
#[derive(Debug, Clone)]
pub struct Suggested(pub Option<Vec<BucketAppName>>);

impl DeepView for Suggested {
    type V = Option<Seq<(Option<Seq<char>>, Seq<char>)>>;

    open spec fn deep_view(&self) -> Option<Seq<(Option<Seq<char>>, Seq<char>)>> {
        self.0.deep_view()
    }
}

impl FromJson for Suggested {
    open spec fn json_spec(j: Json) -> Result<
        Option<Seq<(Option<Seq<char>>, Seq<char>)>>,
        ManifestErrorV,
    > {
        match j {
            Json::Null => Ok(None),
            Json::Array(a) => match list_spec::<BucketAppName>(a@) {
                Ok(v) => Ok(Some(v)),
                Err(e) => Err(e),
            },
            _ => match BucketAppName::json_spec(j) {
                Ok(n) => Ok(Some(seq![n])),
                Err(e) => Err(e),
            },
        }
    }

    fn from_json(j: &Json) -> (r: Result<Suggested, ManifestError>) {
        match j {
            Json::Null => Ok(Suggested(None)),
            Json::Array(a) => match decode_list::<BucketAppName>(a) {
                Ok(v) => Ok(Suggested(Some(v))),
                Err(e) => Err(e),
            },
            _ => match BucketAppName::from_json(j) {
                Ok(n) => {
                    let mut v: Vec<BucketAppName> = Vec::new();
                    v.push(n);
                    proof {
                        assert(v.deep_view() =~= seq![n.deep_view()]);
                    }
                    Ok(Suggested(Some(v)))
                },
                Err(e) => Err(e),
            },
        }
    }
}

/// Suggested apps: one group, or groups keyed by the feature they provide.
#[derive(Debug, Clone)]
pub enum Suggest {
    Array(Suggested),
    Dict(Vec<(String, Suggested)>),
}

/// The model of [`Suggest`].
pub enum SuggestV {
    Array(Option<Seq<(Option<Seq<char>>, Seq<char>)>>),
    Dict(Seq<(Seq<char>, Option<Seq<(Option<Seq<char>>, Seq<char>)>>)>),
}

impl DeepView for Suggest {
    type V = SuggestV;

    open spec fn deep_view(&self) -> SuggestV {
        match self {
            Suggest::Array(s) => SuggestV::Array(s.deep_view()),
            Suggest::Dict(d) => SuggestV::Dict(d.deep_view()),
        }
    }
}

impl FromJson for Suggest {
    open spec fn json_spec(j: Json) -> Result<SuggestV, ManifestErrorV> {
        match j {
            Json::Object(m) => match members_spec::<Suggested>(m@) {
                Ok(d) => Ok(SuggestV::Dict(d)),
                Err(e) => Err(e),
            },
            _ => match Suggested::json_spec(j) {
                Ok(s) => Ok(SuggestV::Array(s)),
                Err(e) => Err(e),
            },
        }
    }

    fn from_json(j: &Json) -> (r: Result<Suggest, ManifestError>) {
        match j {
            Json::Object(m) => match decode_members::<Suggested>(m) {
                Ok(d) => Ok(Suggest::Dict(d)),
                Err(e) => Err(e),
            },
            _ => match Suggested::from_json(j) {
                Ok(s) => Ok(Suggest::Array(s)),
                Err(e) => Err(e),
            },
        }
    }
}

} // verus!
