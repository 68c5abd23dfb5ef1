//! Shim entries: the `bin` and `persist` fields of a manifest.
use vstd::prelude::*;

use crate::json::{decode_list, list_spec, FromJson, Json, ManifestError, ManifestErrorV};
use crate::text::{is_last_index, rfind_char, slice_owned};

verus! {

/// A shim: an executable exposed under a command name, with fixed arguments.
#[derive(Debug, Clone)]
pub struct Bin {
    /// Shim target executable
    pub target: String,
    /// Shim name (without extension)
    pub name: String,
    pub args: Option<Vec<String>>,
}

/// The model of [`Bin`].
pub struct BinV {
    pub target: Seq<char>,
    pub name: Seq<char>,
    pub args: Option<Seq<Seq<char>>>,
}

impl DeepView for Bin {
    type V = BinV;

    open spec fn deep_view(&self) -> BinV {
        BinV { target: self.target@, name: self.name@, args: self.args.deep_view() }
    }
}

pub open spec fn is_separator(c: char) -> bool {
    c == '/' || c == '\\'
}

/// The last component of a path written with `/` or `\` separators.
pub open spec fn base_name(s: Seq<char>) -> Seq<char>
    decreases s.len(),
{
    if s.len() == 0 || is_separator(s.last()) {
        Seq::empty()
    } else {
        base_name(s.drop_last()).push(s.last())
    }
}

/// `s` without the separators that end it.
pub open spec fn strip_separators(s: Seq<char>) -> Seq<char>
    decreases s.len(),
{
    if s.len() > 0 && is_separator(s.last()) {
        strip_separators(s.drop_last())
    } else {
        s
    }
}

/// The command name of a shim for `target`: its last path component
/// (trailing separators aside) without the extension. A leading dot starts no
/// extension; where there is no such component (empty, `.` or `..`), the whole
/// target is the name.
pub open spec fn shim_name(target: Seq<char>) -> Seq<char> {
    let b = base_name(strip_separators(target));
    if b.len() == 0 || b == seq!['.'] || b == seq!['.', '.'] {
        target
    } else if exists|i: int| is_last_index(b, '.', i) && i > 0 {
        let i = choose|i: int| is_last_index(b, '.', i);
        b.take(i)
    } else {
        b
    }
}

proof fn lemma_last_index_unique(s: Seq<char>, c: char, i: int, j: int)
    requires
        is_last_index(s, c, i),
        is_last_index(s, c, j),
    ensures
        i == j,
{
}

/// Where the last path component of `s` starts.
fn base_start(s: &str) -> (k: usize)
    ensures
        k <= s@.len(),
        base_name(s@) == s@.skip(k as int),
{
    let n = s.unicode_len();
    let mut k: usize = n;
    proof {
        assert(s@.take(n as int) =~= s@);
        assert(s@.skip(n as int) =~= Seq::<char>::empty());
        assert(base_name(s@) =~= base_name(s@.take(n as int)) + s@.skip(n as int));
    }
    while k > 0
        invariant
            n == s@.len(),
            k <= n,
            base_name(s@) == base_name(s@.take(k as int)) + s@.skip(k as int),
        decreases k,
    {
        let c = s.get_char(k - 1);
        let ghost t = s@.take(k as int);
        if c == '/' || c == '\\' {
            assert(base_name(t) == Seq::<char>::empty());
            assert(base_name(s@) =~= s@.skip(k as int));
            return k;
        }
        assert(t.drop_last() =~= s@.take(k - 1));
        assert(base_name(s@.take(k - 1)) + s@.skip(k - 1) =~= base_name(t) + s@.skip(k as int));
        k = k - 1;
    }
    assert(s@.take(0) =~= Seq::<char>::empty());
    k
}

/// Where the separators that end `s` begin.
fn trailing_start(s: &str) -> (e: usize)
    ensures
        e <= s@.len(),
        strip_separators(s@) == s@.take(e as int),
{
    let n = s.unicode_len();
    let mut e: usize = n;
    assert(s@.take(n as int) =~= s@);
    while e > 0
        invariant
            n == s@.len(),
            e <= n,
            strip_separators(s@) == strip_separators(s@.take(e as int)),
        decreases e,
    {
        let c = s.get_char(e - 1);
        if c != '/' && c != '\\' {
            return e;
        }
        assert(s@.take(e as int).drop_last() =~= s@.take(e - 1));
        e = e - 1;
    }
    e
}

/// The command name of a shim for `target`.
pub fn get_shim_name(target: &str) -> (r: String)
    ensures
        r@ == shim_name(target@),
{
    let e = trailing_start(target);
    let path = target.substring_char(0, e);
    let k = base_start(path);
    let base = path.substring_char(k, e);
    let bl = e - k;
    if bl == 0 || (bl == 1 && base.get_char(0) == '.') || (bl == 2 && base.get_char(0) == '.'
        && base.get_char(1) == '.') {
        proof {
            if bl == 1 {
                assert(base@ =~= seq!['.']);
            }
            if bl == 2 {
                assert(base@ =~= seq!['.', '.']);
            }
        }
        return String::from_str(target);
    }
    proof {
        assert(base@ != seq!['.']) by {
            if base@ == seq!['.'] {
                assert(base@[0] == '.');
            }
        }
        assert(base@ != seq!['.', '.']) by {
            if base@ == seq!['.', '.'] {
                assert(base@[0] == '.' && base@[1] == '.');
            }
        }
    }
    match rfind_char(base, '.') {
        Some(i) => {
            if i > 0 {
                proof {
                    let j = choose|j: int| is_last_index(base@, '.', j);
                    lemma_last_index_unique(base@, '.', i as int, j);
                }
                slice_owned(base, 0, i)
            } else {
                proof {
                    assert forall|j: int| is_last_index(base@, '.', j) implies j <= 0 by {
                        lemma_last_index_unique(base@, '.', i as int, j);
                    }
                }
                String::from_str(base)
            }
        },
        None => String::from_str(base),
    }
}

impl FromJson for Bin {
    /// A string is a target named after itself; an array of strings is
    /// `[target, name, args...]` and needs at least two items.
    open spec fn json_spec(j: Json) -> Result<BinV, ManifestErrorV> {
        match j {
            Json::Str(s) => Ok(BinV { target: s@, name: shim_name(s@), args: None }),
            Json::Array(a) => match list_spec::<String>(a@) {
                Ok(v) => if v.len() < 2 {
                    Err(ManifestErrorV::Shape)
                } else {
                    Ok(
                        BinV {
                            target: v[0],
                            name: v[1],
                            args: if v.len() == 2 {
                                None
                            } else {
                                Some(v.skip(2))
                            },
                        },
                    )
                },
                Err(e) => Err(e),
            },
            _ => Err(ManifestErrorV::Shape),
        }
    }

    fn from_json(j: &Json) -> (r: Result<Bin, ManifestError>) {
        match j {
            Json::Str(s) => Ok(Bin { target: s.clone(), name: get_shim_name(s.as_str()), args: None }),
            Json::Array(a) => match decode_list::<String>(a) {
                Ok(v) => {
                    if v.len() < 2 {
                        return Err(ManifestError::Shape);
                    }
                    let mut v = v;
                    let ghost all = v.deep_view();
                    let rest = v.split_off(2);
                    let target = v[0].clone();
                    let name = v[1].clone();
                    let args = if rest.len() == 0 {
                        None
                    } else {
                        assert(rest.deep_view() =~= all.skip(2));
                        Some(rest)
                    };
                    Ok(Bin { target, name, args })
                },
                Err(e) => Err(e),
            },
            _ => Err(ManifestError::Shape),
        }
    }
}

} // verus!
