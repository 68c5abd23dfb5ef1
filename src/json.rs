//! A JSON document tree, its parsing through serde_json, and the decoding of
//! typed values out of it.
use vstd::prelude::*;
use vstd::string::*;

use crate::text::str_eq;

verus! {

/// A parsed JSON value. Numbers are held as text, in the form in which the
/// parser writes them back; object members keep the order in which the parser
/// handed them out.
#[derive(Debug)]
pub enum Json {
    Null,
    Bool(bool),
    Number(String),
    Str(String),
    Array(Vec<Json>),
    Object(Vec<(String, Json)>),
}

/// The model of a [`Json`] value.
pub enum JsonV {
    Null,
    Bool(bool),
    Number(Seq<char>),
    Str(Seq<char>),
    Array(Seq<JsonV>),
    Object(Seq<(Seq<char>, JsonV)>),
}

/// The model of a JSON value, strings and lists as sequences.
pub open spec fn json_model(j: Json) -> JsonV
    decreases j,
{
    match j {
        Json::Null => JsonV::Null,
        Json::Bool(b) => JsonV::Bool(b),
        Json::Number(n) => JsonV::Number(n@),
        Json::Str(s) => JsonV::Str(s@),
        Json::Array(a) => JsonV::Array(
            Seq::new(
                a.len() as nat,
                |i: int|
                    if 0 <= i < a.len() {
                        json_model(a@[i])
                    } else {
                        JsonV::Null
                    },
            ),
        ),
        Json::Object(f) => JsonV::Object(
            Seq::new(
                f.len() as nat,
                |i: int|
                    if 0 <= i < f.len() {
                        (f@[i].0@, json_model(f@[i].1))
                    } else {
                        (Seq::empty(), JsonV::Null)
                    },
            ),
        ),
    }
}

impl DeepView for Json {
    type V = JsonV;

    open spec fn deep_view(&self) -> JsonV {
        json_model(*self)
    }
}

impl Json {
    /// A copy of this value.
    pub fn duplicate(&self) -> (r: Json)
        ensures
            json_model(r) == json_model(*self),
        decreases self,
    {
        match self {
            Json::Null => Json::Null,
            Json::Bool(b) => Json::Bool(*b),
            Json::Number(n) => Json::Number(n.clone()),
            Json::Str(t) => Json::Str(t.clone()),
            Json::Array(items) => {
                let mut out: Vec<Json> = Vec::new();
                let mut i: usize = 0;
                while i < items.len()
                    invariant
                        *self == Json::Array(*items),
                        i <= items.len(),
                        out.len() == i,
                        forall|q: int| 0 <= q < i ==> json_model(#[trigger] out@[q]) == json_model(items@[q]),
                    decreases items.len() - i,
                {
                    proof {
                        vstd::std_specs::vec::axiom_vec_index_decreases(*items, i as int);
                        assert(decreases_to!(*self => (*self)->Array_0));
                    }
                    let x = items[i].duplicate();
                    out.push(x);
                    i = i + 1;
                }
                let r = Json::Array(out);
                assert(json_model(r) == json_model(*self)) by {
                    if let JsonV::Array(a) = json_model(r) {
                        if let JsonV::Array(b) = json_model(*self) {
                            assert(a =~= b);
                        }
                    }
                }
                r
            },
            Json::Object(members) => {
                let mut out: Vec<(String, Json)> = Vec::new();
                let mut i: usize = 0;
                while i < members.len()
                    invariant
                        *self == Json::Object(*members),
                        i <= members.len(),
                        out.len() == i,
                        forall|q: int|
                            0 <= q < i ==> (#[trigger] out@[q]).0@ == members@[q].0@ && json_model(out@[q].1)
                                == json_model(members@[q].1),
                    decreases members.len() - i,
                {
                    proof {
                        vstd::std_specs::vec::axiom_vec_index_decreases(*members, i as int);
                        assert(decreases_to!(*self => (*self)->Object_0));
                        assert(decreases_to!(members@[i as int] => members@[i as int].1));
                    }
                    let x = members[i].1.duplicate();
                    out.push((members[i].0.clone(), x));
                    i = i + 1;
                }
                let r = Json::Object(out);
                assert(json_model(r) == json_model(*self)) by {
                    if let JsonV::Object(a) = json_model(r) {
                        if let JsonV::Object(b) = json_model(*self) {
                            assert(a =~= b);
                        }
                    }
                }
                r
            },
        }
    }
}

impl Clone for Json {
    fn clone(&self) -> (r: Json)
        ensures
            json_model(r) == json_model(*self),
    {
        self.duplicate()
    }
}

impl FromJson for Json {
    open spec fn json_spec(j: Json) -> Result<JsonV, ManifestErrorV> {
        Ok(json_model(j))
    }

    fn from_json(j: &Json) -> (r: Result<Json, ManifestError>) {
        Ok(j.duplicate())
    }
}

/// What the JSON text `s` parses to, or `None` when it is not JSON.
pub uninterp spec fn json_of_text(s: Seq<char>) -> Option<Json>;

#[verifier::external_type_specification]
#[verifier::external_body]
pub struct ExJsonError(serde_json::Error);

#[verifier::external_type_specification]
#[verifier::external_body]
pub struct ExJsonValue(serde_json::Value);

pub assume_specification[ serde_json::Error::line ](e: &serde_json::Error) -> usize;

pub assume_specification[ serde_json::Error::column ](e: &serde_json::Error) -> usize;

/// Relies on serde_json::from_str into serde_json::Value: the tree depends on
/// the text alone, and the text is rejected exactly when it is not JSON.
#[verifier::external_body]
fn parse_json_text(text: &str) -> (r: Result<Json, serde_json::Error>)
    ensures
        r is Ok <==> json_of_text(text@) is Some,
        r matches Ok(v) ==> json_of_text(text@) == Some(v),
{
    serde_json::from_str::<serde_json::Value>(text).map(json_from_value)
}

/// Moves a serde_json::Value into the crate's tree, variant for variant.
#[verifier::external_body]
fn json_from_value(v: serde_json::Value) -> Json {
    match v {
        serde_json::Value::Null => Json::Null,
        serde_json::Value::Bool(b) => Json::Bool(b),
        serde_json::Value::Number(n) => Json::Number(n.to_string()),
        serde_json::Value::String(s) => Json::Str(s),
        serde_json::Value::Array(a) => Json::Array(a.into_iter().map(json_from_value).collect()),
        serde_json::Value::Object(o) => Json::Object(
            o.into_iter().map(|(k, v)| (k, json_from_value(v))).collect(),
        ),
    }
}

/// Why a document does not decode.
#[derive(Debug)]
pub enum ManifestError {
    /// The text is not JSON; the position is where the parser stopped.
    Syntax { line: usize, column: usize },
    /// A value does not have the shape that its place asks for.
    Shape,
    /// The member `field` does not have the shape that it asks for.
    Invalid { field: String },
    /// The required member `field` is absent or null.
    Missing { field: String },
    /// The version is the empty string.
    EmptyVersion,
}

/// The model of a [`ManifestError`].
pub enum ManifestErrorV {
    Syntax { line: usize, column: usize },
    Shape,
    Invalid { field: Seq<char> },
    Missing { field: Seq<char> },
    EmptyVersion,
}

impl DeepView for ManifestError {
    type V = ManifestErrorV;

    open spec fn deep_view(&self) -> ManifestErrorV {
        match self {
            ManifestError::Syntax { line, column } => ManifestErrorV::Syntax {
                line: *line,
                column: *column,
            },
            ManifestError::Shape => ManifestErrorV::Shape,
            ManifestError::Invalid { field } => ManifestErrorV::Invalid { field: field@ },
            ManifestError::Missing { field } => ManifestErrorV::Missing { field: field@ },
            ManifestError::EmptyVersion => ManifestErrorV::EmptyVersion,
        }
    }
}

/// The model of a decoding result.
pub open spec fn res_dv<T: DeepView>(r: Result<T, ManifestError>) -> Result<T::V, ManifestErrorV> {
    match r {
        Ok(v) => Ok(v.deep_view()),
        Err(e) => Err(e.deep_view()),
    }
}

/// A type that can be decoded from a JSON value.
pub trait FromJson: Sized + DeepView {
    /// What decoding `j` gives.
    spec fn json_spec(j: Json) -> Result<<Self as DeepView>::V, ManifestErrorV>;

    fn from_json(j: &Json) -> (r: Result<Self, ManifestError>)
        ensures
            res_dv(r) == Self::json_spec(*j),
    ;
}

/// The value of the first member named `key`.
pub open spec fn find_key(f: Seq<(String, Json)>, key: Seq<char>) -> Option<Json>
    decreases f.len(),
{
    if f.len() == 0 {
        None
    } else if f[0].0@ == key {
        Some(f[0].1)
    } else {
        find_key(f.drop_first(), key)
    }
}

/// Looks up the first member named `key`.
pub fn get_member<'a>(f: &'a Vec<(String, Json)>, key: &str) -> (r: Option<&'a Json>)
    ensures
        r matches Some(j) ==> find_key(f@, key@) == Some(*j),
        r is None ==> find_key(f@, key@) is None,
{
    let mut i: usize = 0;
    assert(f@.skip(0) =~= f@);
    while i < f.len()
        invariant
            i <= f.len(),
            find_key(f@, key@) == find_key(f@.skip(i as int), key@),
        decreases f.len() - i,
    {
        assert(f@.skip(i as int).drop_first() =~= f@.skip(i + 1));
        if str_eq(f[i].0.as_str(), key) {
            return Some(&f[i].1);
        }
        i = i + 1;
    }
    None
}

/// A shape error reported at the member `key`; deeper errors pass unchanged.
pub open spec fn locate(e: ManifestErrorV, key: Seq<char>) -> ManifestErrorV {
    match e {
        ManifestErrorV::Shape => ManifestErrorV::Invalid { field: key },
        _ => e,
    }
}

fn locate_exec(e: ManifestError, key: &str) -> (r: ManifestError)
    ensures
        r.deep_view() == locate(e.deep_view(), key@),
{
    match e {
        ManifestError::Shape => ManifestError::Invalid { field: String::from_str(key) },
        _ => e,
    }
}

/// An optional member: absent and null give `None`.
pub open spec fn field_spec<T: FromJson>(f: Seq<(String, Json)>, key: Seq<char>) -> Result<
    Option<<T as DeepView>::V>,
    ManifestErrorV,
> {
    match find_key(f, key) {
        None => Ok(None),
        Some(Json::Null) => Ok(None),
        Some(j) => match T::json_spec(j) {
            Ok(v) => Ok(Some(v)),
            Err(e) => Err(locate(e, key)),
        },
    }
}

/// Decodes an optional member.
pub fn field<T: FromJson>(f: &Vec<(String, Json)>, key: &str) -> (r: Result<Option<T>, ManifestError>)
    ensures
        res_dv(r) == field_spec::<T>(f@, key@),
{
    match get_member(f, key) {
        None => Ok(None),
        Some(Json::Null) => Ok(None),
        Some(j) => match T::from_json(j) {
            Ok(v) => Ok(Some(v)),
            Err(e) => Err(locate_exec(e, key)),
        },
    }
}

/// A required member: absent and null are errors.
pub open spec fn req_field_spec<T: FromJson>(f: Seq<(String, Json)>, key: Seq<char>) -> Result<
    <T as DeepView>::V,
    ManifestErrorV,
> {
    match field_spec::<T>(f, key) {
        Ok(Some(v)) => Ok(v),
        Ok(None) => Err(ManifestErrorV::Missing { field: key }),
        Err(e) => Err(e),
    }
}

/// Decodes a required member.
pub fn req_field<T: FromJson>(f: &Vec<(String, Json)>, key: &str) -> (r: Result<T, ManifestError>)
    ensures
        res_dv(r) == req_field_spec::<T>(f@, key@),
{
    match field::<T>(f, key) {
        Ok(Some(v)) => Ok(v),
        Ok(None) => Err(ManifestError::Missing { field: String::from_str(key) }),
        Err(e) => Err(e),
    }
}

/// An optional member that holds one value or an array of values; a single
/// value stands for a list of one.
pub open spec fn many_field_spec<T: FromJson>(f: Seq<(String, Json)>, key: Seq<char>) -> Result<
    Option<Seq<<T as DeepView>::V>>,
    ManifestErrorV,
> {
    match find_key(f, key) {
        None => Ok(None),
        Some(Json::Null) => Ok(None),
        Some(Json::Array(a)) => match list_spec::<T>(a@) {
            Ok(v) => Ok(Some(v)),
            Err(e) => Err(locate(e, key)),
        },
        Some(j) => match T::json_spec(j) {
            Ok(v) => Ok(Some(seq![v])),
            Err(e) => Err(locate(e, key)),
        },
    }
}

/// Decodes a member that holds one value or an array of values.
pub fn many_field<T: FromJson>(f: &Vec<(String, Json)>, key: &str) -> (r: Result<
    Option<Vec<T>>,
    ManifestError,
>)
    ensures
        res_dv(r) == many_field_spec::<T>(f@, key@),
{
    match get_member(f, key) {
        None => Ok(None),
        Some(Json::Null) => Ok(None),
        Some(Json::Array(a)) => match decode_list::<T>(a) {
            Ok(v) => Ok(Some(v)),
            Err(e) => Err(locate_exec(e, key)),
        },
        Some(j) => match T::from_json(j) {
            Ok(v) => {
                let mut out: Vec<T> = Vec::new();
                out.push(v);
                proof {
                    assert(out.deep_view() =~= seq![v.deep_view()]);
                }
                Ok(Some(out))
            },
            Err(e) => Err(locate_exec(e, key)),
        },
    }
}

/// Decoding each item of an array, stopping at the first failure.
pub open spec fn list_spec<T: FromJson>(items: Seq<Json>) -> Result<
    Seq<<T as DeepView>::V>,
    ManifestErrorV,
>
    decreases items.len(),
{
    if items.len() == 0 {
        Ok(Seq::empty())
    } else {
        match T::json_spec(items[0]) {
            Err(e) => Err(e),
            Ok(x) => match list_spec::<T>(items.drop_first()) {
                Err(e) => Err(e),
                Ok(rest) => Ok(seq![x] + rest),
            },
        }
    }
}

/// Decodes each item of an array.
pub fn decode_list<T: FromJson>(a: &Vec<Json>) -> (r: Result<Vec<T>, ManifestError>)
    ensures
        res_dv(r) == list_spec::<T>(a@),
{
    let mut out: Vec<T> = Vec::new();
    let mut i: usize = 0;
    proof {
        assert(a@.skip(0) =~= a@);
        if let Ok(rest) = list_spec::<T>(a@) {
            assert(out.deep_view() + rest =~= rest);
        }
    }
    while i < a.len()
        invariant
            i <= a.len(),
            list_spec::<T>(a@) == match list_spec::<T>(a@.skip(i as int)) {
                Ok(rest) => Ok(out.deep_view() + rest),
                Err(e) => Err(e),
            },
        decreases a.len() - i,
    {
        let ghost tail = a@.skip(i as int);
        assert(tail.drop_first() =~= a@.skip(i + 1));
        assert(tail[0] == a@[i as int]);
        match T::from_json(&a[i]) {
            Ok(x) => {
                let ghost before = out.deep_view();
                out.push(x);
                proof {
                    assert(out.deep_view() =~= before.push(x.deep_view()));
                    match list_spec::<T>(a@.skip(i + 1)) {
                        Ok(rest) => {
                            assert(before + (seq![x.deep_view()] + rest) =~= out.deep_view() + rest);
                        },
                        Err(e) => {},
                    }
                }
            },
            Err(e) => {
                return Err(e);
            },
        }
        i = i + 1;
    }
    assert(a@.skip(i as int) =~= Seq::<Json>::empty());
    assert(out.deep_view() + Seq::empty() =~= out.deep_view());
    Ok(out)
}

impl FromJson for String {
    open spec fn json_spec(j: Json) -> Result<Seq<char>, ManifestErrorV> {
        match j {
            Json::Str(s) => Ok(s@),
            _ => Err(ManifestErrorV::Shape),
        }
    }

    fn from_json(j: &Json) -> (r: Result<String, ManifestError>) {
        match j {
            Json::Str(s) => Ok(s.clone()),
            _ => Err(ManifestError::Shape),
        }
    }
}

impl FromJson for bool {
    open spec fn json_spec(j: Json) -> Result<bool, ManifestErrorV> {
        match j {
            Json::Bool(b) => Ok(b),
            _ => Err(ManifestErrorV::Shape),
        }
    }

    fn from_json(j: &Json) -> (r: Result<bool, ManifestError>) {
        match j {
            Json::Bool(b) => Ok(*b),
            _ => Err(ManifestError::Shape),
        }
    }
}

impl<T: FromJson> FromJson for Vec<T> {
    open spec fn json_spec(j: Json) -> Result<Seq<<T as DeepView>::V>, ManifestErrorV> {
        match j {
            Json::Array(a) => list_spec::<T>(a@),
            _ => Err(ManifestErrorV::Shape),
        }
    }

    fn from_json(j: &Json) -> (r: Result<Vec<T>, ManifestError>) {
        match j {
            Json::Array(a) => decode_list::<T>(a),
            _ => Err(ManifestError::Shape),
        }
    }
}

impl<T: FromJson> FromJson for Option<T> {
    open spec fn json_spec(j: Json) -> Result<Option<<T as DeepView>::V>, ManifestErrorV> {
        match j {
            Json::Null => Ok(None),
            _ => match T::json_spec(j) {
                Ok(v) => Ok(Some(v)),
                Err(e) => Err(e),
            },
        }
    }

    fn from_json(j: &Json) -> (r: Result<Option<T>, ManifestError>) {
        match j {
            Json::Null => Ok(None),
            _ => match T::from_json(j) {
                Ok(v) => Ok(Some(v)),
                Err(e) => Err(e),
            },
        }
    }
}

/// Decoding the value of each member of an object, stopping at the first failure.
pub open spec fn members_spec<T: FromJson>(f: Seq<(String, Json)>) -> Result<
    Seq<(Seq<char>, <T as DeepView>::V)>,
    ManifestErrorV,
>
    decreases f.len(),
{
    if f.len() == 0 {
        Ok(Seq::empty())
    } else {
        match T::json_spec(f[0].1) {
            Err(e) => Err(e),
            Ok(x) => match members_spec::<T>(f.drop_first()) {
                Err(e) => Err(e),
                Ok(rest) => Ok(seq![(f[0].0@, x)] + rest),
            },
        }
    }
}

/// Decodes the value of each member of an object.
pub fn decode_members<T: FromJson>(f: &Vec<(String, Json)>) -> (r: Result<
    Vec<(String, T)>,
    ManifestError,
>)
    ensures
        res_dv(r) == members_spec::<T>(f@),
{
    let mut out: Vec<(String, T)> = Vec::new();
    let mut i: usize = 0;
    proof {
        assert(f@.skip(0) =~= f@);
        if let Ok(rest) = members_spec::<T>(f@) {
            assert(out.deep_view() + rest =~= rest);
        }
    }
    while i < f.len()
        invariant
            i <= f.len(),
            members_spec::<T>(f@) == match members_spec::<T>(f@.skip(i as int)) {
                Ok(rest) => Ok(out.deep_view() + rest),
                Err(e) => Err(e),
            },
        decreases f.len() - i,
    {
        let ghost tail = f@.skip(i as int);
        assert(tail.drop_first() =~= f@.skip(i + 1));
        assert(tail[0] == f@[i as int]);
        match T::from_json(&f[i].1) {
            Ok(x) => {
                let ghost before = out.deep_view();
                let k = f[i].0.clone();
                out.push((k, x));
                proof {
                    assert(out.deep_view() =~= before.push((f@[i as int].0@, x.deep_view())));
                    match members_spec::<T>(f@.skip(i + 1)) {
                        Ok(rest) => {
                            assert(before + (seq![(f@[i as int].0@, x.deep_view())] + rest)
                                =~= out.deep_view() + rest);
                        },
                        Err(e) => {},
                    }
                }
            },
            Err(e) => {
                return Err(e);
            },
        }
        i = i + 1;
    }
    assert(f@.skip(i as int) =~= Seq::<(String, Json)>::empty());
    assert(out.deep_view() + Seq::empty() =~= out.deep_view());
    Ok(out)
}

/// An optional member that holds an object, each of whose member values
/// decodes as `T`.
pub open spec fn members_field_spec<T: FromJson>(f: Seq<(String, Json)>, key: Seq<char>) -> Result<
    Option<Seq<(Seq<char>, <T as DeepView>::V)>>,
    ManifestErrorV,
> {
    match find_key(f, key) {
        None => Ok(None),
        Some(Json::Null) => Ok(None),
        Some(Json::Object(m)) => match members_spec::<T>(m@) {
            Ok(v) => Ok(Some(v)),
            Err(e) => Err(locate(e, key)),
        },
        Some(_) => Err(ManifestErrorV::Invalid { field: key }),
    }
}

/// Decodes a member that holds an object of values.
pub fn members_field<T: FromJson>(f: &Vec<(String, Json)>, key: &str) -> (r: Result<
    Option<Vec<(String, T)>>,
    ManifestError,
>)
    ensures
        res_dv(r) == members_field_spec::<T>(f@, key@),
{
    match get_member(f, key) {
        None => Ok(None),
        Some(Json::Null) => Ok(None),
        Some(Json::Object(m)) => match decode_members::<T>(m) {
            Ok(v) => Ok(Some(v)),
            Err(e) => Err(locate_exec(e, key)),
        },
        Some(_) => Err(ManifestError::Invalid { field: String::from_str(key) }),
    }
}

/// The key under which a member with aliases is read: the first of the
/// spellings that is present, or the main spelling when none is.
pub open spec fn pick_key_spec(
    f: Seq<(String, Json)>,
    main: Seq<char>,
    alias1: Seq<char>,
    alias2: Seq<char>,
) -> Seq<char> {
    if find_key(f, main) is Some {
        main
    } else if find_key(f, alias1) is Some {
        alias1
    } else if find_key(f, alias2) is Some {
        alias2
    } else {
        main
    }
}

/// Chooses the spelling under which a member with aliases is read.
pub fn pick_key<'a>(f: &Vec<(String, Json)>, main: &'a str, alias1: &'a str, alias2: &'a str) -> (r:
    &'a str)
    ensures
        r@ == pick_key_spec(f@, main@, alias1@, alias2@),
{
    if get_member(f, main).is_some() {
        main
    } else if get_member(f, alias1).is_some() {
        alias1
    } else if get_member(f, alias2).is_some() {
        alias2
    } else {
        main
    }
}

/// Parses JSON text into a tree, reporting where malformed text stops.
pub fn parse_json(text: &str) -> (r: Result<Json, ManifestError>)
    ensures
        r matches Ok(v) ==> json_of_text(text@) == Some(v),
        r is Err ==> json_of_text(text@) is None && r->Err_0 is Syntax,
{
    match parse_json_text(text) {
        Ok(v) => Ok(v),
        Err(e) => Err(ManifestError::Syntax { line: e.line(), column: e.column() }),
    }
}

} // verus!
