//! Download URLs, optionally renamed with a `#/name` suffix.
use vstd::prelude::*;
use vstd::string::*;

use crate::json::{FromJson, Json, ManifestError, ManifestErrorV};
use crate::text::{is_last_pair, pair_at, rfind_pair, slice_owned};

verus! {

/// A URL to download, and the file name to store it under when one is given.
#[derive(Debug, Clone)]
pub struct DownloadUrl {
    pub url: String,
    pub file_name: Option<String>,
}

/// The model of [`DownloadUrl`].
pub struct DownloadUrlV {
    pub url: Seq<char>,
    pub file_name: Option<Seq<char>>,
}

impl DeepView for DownloadUrl {
    type V = DownloadUrlV;

    open spec fn deep_view(&self) -> DownloadUrlV {
        DownloadUrlV { url: self.url@, file_name: self.file_name.deep_view() }
    }
}

/// The URL that the text `s` denotes: split at the last `#/`, if any.
pub open spec fn parse_download_url(s: Seq<char>) -> DownloadUrlV {
    if exists|i: int| pair_at(s, '#', '/', i) {
        let i = choose|i: int| is_last_pair(s, '#', '/', i);
        DownloadUrlV { url: s.take(i), file_name: Some(s.skip(i + 2)) }
    } else {
        DownloadUrlV { url: s, file_name: None }
    }
}

/// The text of a URL: the URL, then `/#` and the file name when there is one.
pub open spec fn format_download_url(u: DownloadUrlV) -> Seq<char> {
    match u.file_name {
        Some(f) => u.url + seq!['/', '#'] + f,
        None => u.url,
    }
}

proof fn lemma_last_pair_exists(s: Seq<char>, a: char, b: char, k: int)
    requires
        pair_at(s, a, b, k),
    ensures
        exists|i: int| is_last_pair(s, a, b, i),
    decreases s.len() - k,
{
    if !is_last_pair(s, a, b, k) {
        let j = choose|j: int| k < j && pair_at(s, a, b, j);
        lemma_last_pair_exists(s, a, b, j);
    }
}

impl DownloadUrl {
    /// Parses a URL, splitting off the file name after the last `#/`.
    pub fn parse(s: &str) -> (r: DownloadUrl)
        ensures
            r.deep_view() == parse_download_url(s@),
    {
        match rfind_pair(s, '#', '/') {
            Some(i) => {
                let n = s.unicode_len();
                proof {
                    let j = choose|j: int| is_last_pair(s@, '#', '/', j);
                    if j != i {
                        assert(pair_at(s@, '#', '/', j));
                        assert(pair_at(s@, '#', '/', i as int));
                    }
                }
                DownloadUrl { url: slice_owned(s, 0, i), file_name: Some(slice_owned(s, i + 2, n)) }
            },
            None => DownloadUrl { url: String::from_str(s), file_name: None },
        }
    }

    /// The text of this URL.
    pub fn to_string(&self) -> (r: String)
        ensures
            r@ == format_download_url(self.deep_view()),
    {
        match &self.file_name {
            Some(f) => {
                let mut r = self.url.clone();
                r.append("/#");
                r.append(f.as_str());
                proof {
                    reveal_strlit("/#");
                }
                r
            },
            None => self.url.clone(),
        }
    }
}

impl FromJson for DownloadUrl {
    open spec fn json_spec(j: Json) -> Result<DownloadUrlV, ManifestErrorV> {
        match j {
            Json::Str(s) => Ok(parse_download_url(s@)),
            _ => Err(ManifestErrorV::Shape),
        }
    }

    fn from_json(j: &Json) -> (r: Result<DownloadUrl, ManifestError>) {
        match j {
            Json::Str(s) => Ok(DownloadUrl::parse(s.as_str())),
            _ => Err(ManifestError::Shape),
        }
    }
}

} // verus!
