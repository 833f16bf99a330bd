use vstd::prelude::*;

verus! {

/// A JSON document as the variable endpoints read it. Numbers keep the
/// text they were written with; objects keep their entries in order.
#[derive(Debug, PartialEq)]
pub enum Json {
    Null,
    Bool(bool),
    Number(String),
    Str(String),
    Array(Vec<Json>),
    Object(Vec<Member>),
}

/// One entry of a JSON object.
#[derive(Debug, PartialEq)]
pub struct Member {
    pub key: String,
    pub value: Json,
}

/// The mathematical value of a [`Json`] document.
#[verifier::ext_equal]
pub enum JsonV {
    Null,
    Bool(bool),
    Number(Seq<char>),
    Str(Seq<char>),
    Array(Seq<JsonV>),
    Object(Seq<Seq<char>>, Seq<JsonV>),
}

impl View for Json {
    type V = JsonV;

    open spec fn view(&self) -> JsonV
        decreases self,
    {
        match self {
            Json::Null => JsonV::Null,
            Json::Bool(b) => JsonV::Bool(*b),
            Json::Number(n) => JsonV::Number(n@),
            Json::Str(s) => JsonV::Str(s@),
            Json::Array(a) => JsonV::Array(Seq::new(a.len() as nat, |i: int| if 0 <= i < a.len() { a[i].view() } else { JsonV::Null })),
            Json::Object(o) => JsonV::Object(
                Seq::new(o.len() as nat, |i: int| if 0 <= i < o.len() { o[i].key@ } else { Seq::empty() }),
                Seq::new(o.len() as nat, |i: int| if 0 <= i < o.len() { o[i].value.view() } else { JsonV::Null }),
            ),
        }
    }
}


/// Every string leaf equal to `path` replaced by `npath`; every other leaf,
/// every key and the shape of arrays and objects unchanged.
pub open spec fn replaced(v: JsonV, path: Seq<char>, npath: Seq<char>) -> JsonV
    decreases v,
{
    match v {
        JsonV::Str(s) => if s == path { JsonV::Str(npath) } else { v },
        JsonV::Array(a) => JsonV::Array(
            Seq::new(a.len(), |i: int| if 0 <= i < a.len() { replaced(a[i], path, npath) } else { JsonV::Null }),
        ),
        JsonV::Object(k, o) => JsonV::Object(
            k,
            Seq::new(o.len(), |i: int| if 0 <= i < o.len() { replaced(o[i], path, npath) } else { JsonV::Null }),
        ),
        _ => v,
    }
}

fn replace_path_ref(v: &Json, path: &String, npath: &String) -> (r: Json)
    ensures
        r@ == replaced(v@, path@, npath@),
    decreases v@,
{
    match v {
        Json::Null => {
            assert(v@ == JsonV::Null);
            Json::Null
        },
        Json::Bool(b) => {
            assert(v@ == JsonV::Bool(*b));
            Json::Bool(*b)
        },
        Json::Number(n) => {
            assert(v@ == JsonV::Number(n@));
            Json::Number(n.clone())
        },
        Json::Str(s) => {
            assert(v@ == JsonV::Str(s@));
            if *s == *path {
                Json::Str(npath.clone())
            } else {
                Json::Str(s.clone())
            }
        },
        Json::Array(a) => {
            let mut out: Vec<Json> = Vec::new();
            let mut i: usize = 0;
            while i < a.len()
                invariant
                    i <= a.len(),
                    out.len() == i,
                    *v == Json::Array(*a),
                    forall|j: int| 0 <= j < i ==> #[trigger] out[j]@ == replaced(a[j]@, path@, npath@),
                decreases a.len() - i,
            {
                proof {
                    assert(v@->Array_0[i as int] == a[i as int]@);
                }
                let r = replace_path_ref(&a[i], path, npath);
                out.push(r);
                i = i + 1;
            }
            let r = Json::Array(out);
            proof {
                let x = Seq::new(out.len() as nat, |j: int| if 0 <= j < out.len() { out[j].view() } else { JsonV::Null });
                let av = Seq::new(a.len() as nat, |j: int| if 0 <= j < a.len() { a[j].view() } else { JsonV::Null });
                assert(r@->Array_0 =~= x);
                assert(v@->Array_0 =~= av);
                let y = Seq::new(av.len(), |j: int| if 0 <= j < av.len() { replaced(av[j], path@, npath@) } else { JsonV::Null });
                assert(x =~= y);
                assert(v@ == JsonV::Array(av));
                assert(replaced(v@, path@, npath@)->Array_0 =~= y);
                assert(r@ =~= replaced(v@, path@, npath@));
            }
            r
        },
        Json::Object(o) => {
            let mut out: Vec<Member> = Vec::new();
            let mut i: usize = 0;
            while i < o.len()
                invariant
                    i <= o.len(),
                    out.len() == i,
                    *v == Json::Object(*o),
                    forall|j: int| 0 <= j < i ==> #[trigger] out[j].key@ == o[j].key@,
                    forall|j: int| 0 <= j < i ==> #[trigger] out[j].value@ == replaced(o[j].value@, path@, npath@),
                decreases o.len() - i,
            {
                proof {
                    assert(v@->Object_1[i as int] == o[i as int].value@);
                }
                let r = replace_path_ref(&o[i].value, path, npath);
                out.push(Member { key: o[i].key.clone(), value: r });
                i = i + 1;
            }
            let r = Json::Object(out);
            proof {
                let rk = Seq::new(out.len() as nat, |j: int| if 0 <= j < out.len() { out[j].key@ } else { Seq::empty() });
                let rx = Seq::new(out.len() as nat, |j: int| if 0 <= j < out.len() { out[j].value.view() } else { JsonV::Null });
                let ok = Seq::new(o.len() as nat, |j: int| if 0 <= j < o.len() { o[j].key@ } else { Seq::empty() });
                let ox = Seq::new(o.len() as nat, |j: int| if 0 <= j < o.len() { o[j].value.view() } else { JsonV::Null });
                assert(r@->Object_0 =~= rk);
                assert(r@->Object_1 =~= rx);
                assert(v@->Object_0 =~= ok);
                assert(v@->Object_1 =~= ox);
                assert(rk =~= ok);
                let y = Seq::new(ox.len(), |j: int| if 0 <= j < ox.len() { replaced(ox[j], path@, npath@) } else { JsonV::Null });
                assert(rx =~= y);
                assert(v@ == JsonV::Object(ok, ox));
                assert(replaced(v@, path@, npath@)->Object_1 =~= y);
                assert(r@ =~= replaced(v@, path@, npath@));
            }
            r
        },
    }
}

/// Rewrites a resource's value after its variable moved from `path` to
/// `npath`: each string equal to `path` becomes `npath`.
pub fn replace_path(v: Json, path: &str, npath: &str) -> (r: Json)
    ensures
        r@ == replaced(v@, path@, npath@),
{
    let p = String::from_str(path);
    let q = String::from_str(npath);
    replace_path_ref(&v, &p, &q)
}


/// Whether some string leaf of `v` equals `s`.
pub open spec fn mentions(v: JsonV, s: Seq<char>) -> bool
    decreases v,
{
    match v {
        JsonV::Str(t) => t == s,
        JsonV::Array(a) => exists|i: int| 0 <= i < a.len() && mentions(#[trigger] a[i], s),
        JsonV::Object(k, o) => exists|i: int| 0 <= i < o.len() && mentions(#[trigger] o[i], s),
        _ => false,
    }
}

/// Renaming a path to itself leaves a document unchanged.
pub proof fn law_replace_same_path_is_identity(v: JsonV, path: Seq<char>)
    ensures
        replaced(v, path, path) == v,
    decreases v,
{
    match v {
        JsonV::Array(a) => {
            assert forall|i: int| 0 <= i < a.len() implies replaced(a[i], path, path) == a[i] by {
                law_replace_same_path_is_identity(a[i], path);
            }
            assert(replaced(v, path, path)->Array_0 =~= a);
        },
        JsonV::Object(k, o) => {
            assert forall|i: int| 0 <= i < o.len() implies replaced(o[i], path, path) == o[i] by {
                law_replace_same_path_is_identity(o[i], path);
            }
            assert(replaced(v, path, path)->Object_1 =~= o);
        },
        _ => {},
    }
}

/// After a rename to a different path, no string of the document is the
/// old path any more.
pub proof fn law_replace_leaves_no_old_path(v: JsonV, path: Seq<char>, npath: Seq<char>)
    requires
        path != npath,
    ensures
        !mentions(replaced(v, path, npath), path),
    decreases v,
{
    match v {
        JsonV::Array(a) => {
            let r = replaced(v, path, npath)->Array_0;
            assert forall|i: int| 0 <= i < r.len() implies !mentions(#[trigger] r[i], path) by {
                law_replace_leaves_no_old_path(a[i], path, npath);
            }
        },
        JsonV::Object(k, o) => {
            let r = replaced(v, path, npath)->Object_1;
            assert forall|i: int| 0 <= i < r.len() implies !mentions(#[trigger] r[i], path) by {
                law_replace_leaves_no_old_path(o[i], path, npath);
            }
        },
        _ => {},
    }
}

/// Renaming back undoes a rename, provided the new path did not already
/// occur in the document.
pub proof fn law_replace_back_undoes_replace(v: JsonV, path: Seq<char>, npath: Seq<char>)
    requires
        !mentions(v, npath),
    ensures
        replaced(replaced(v, path, npath), npath, path) == v,
    decreases v,
{
    match v {
        JsonV::Array(a) => {
            assert forall|i: int| 0 <= i < a.len() implies replaced(replaced(a[i], path, npath), npath, path) == a[i] by {
                law_replace_back_undoes_replace(a[i], path, npath);
            }
            assert(replaced(replaced(v, path, npath), npath, path)->Array_0 =~= a);
        },
        JsonV::Object(k, o) => {
            assert forall|i: int| 0 <= i < o.len() implies replaced(replaced(o[i], path, npath), npath, path) == o[i] by {
                law_replace_back_undoes_replace(o[i], path, npath);
            }
            assert(replaced(replaced(v, path, npath), npath, path)->Object_1 =~= o);
        },
        _ => {},
    }
}

/// serde_json's document type, which the permissions are printed from.
#[verifier::external_type_specification]
#[verifier::external_body]
pub struct ExJsonValue(serde_json::Value);

/// `serde_json::Value::Null`.
#[verifier::external_body]
fn value_null() -> (r: serde_json::Value) {
    serde_json::Value::Null
}

/// `serde_json::Value::Bool`.
#[verifier::external_body]
fn value_bool(b: bool) -> (r: serde_json::Value) {
    serde_json::Value::Bool(b)
}

/// A number read back from its text by `serde_json::Number`'s `FromStr`,
/// where the text is a JSON number.
#[verifier::external_body]
fn value_number(n: &String) -> (r: Option<serde_json::Value>) {
    n.parse::<serde_json::Number>().ok().map(serde_json::Value::Number)
}

/// `serde_json::Value::String`.
#[verifier::external_body]
fn value_string(s: String) -> (r: serde_json::Value) {
    serde_json::Value::String(s)
}

/// `serde_json::Value::Array`.
#[verifier::external_body]
fn value_array(items: Vec<serde_json::Value>) -> (r: serde_json::Value) {
    serde_json::Value::Array(items)
}

/// `serde_json::Value::Object`, its map collected from the keys and values
/// taken pairwise.
#[verifier::external_body]
fn value_object(keys: Vec<String>, values: Vec<serde_json::Value>) -> (r: serde_json::Value) {
    serde_json::Value::Object(keys.into_iter().zip(values).collect())
}

/// The same document as serde_json holds it: each node of `j` becomes the
/// node of the same kind, numbers read back from their text.
fn to_value(j: &Json) -> (r: serde_json::Value)
    decreases j@,
{
    match j {
        Json::Null => value_null(),
        Json::Bool(b) => value_bool(*b),
        Json::Number(n) => match value_number(n) {
            Some(v) => v,
            None => value_null(),
        },
        Json::Str(s) => value_string(s.clone()),
        Json::Array(a) => {
            let mut items: Vec<serde_json::Value> = Vec::new();
            let mut i: usize = 0;
            while i < a.len()
                invariant
                    i <= a.len(),
                    *j == Json::Array(*a),
                decreases a.len() - i,
            {
                proof {
                    assert(j@->Array_0[i as int] == a[i as int]@);
                }
                let v = to_value(&a[i]);
                items.push(v);
                i = i + 1;
            }
            value_array(items)
        },
        Json::Object(o) => {
            let mut keys: Vec<String> = Vec::new();
            let mut values: Vec<serde_json::Value> = Vec::new();
            let mut i: usize = 0;
            while i < o.len()
                invariant
                    i <= o.len(),
                    *j == Json::Object(*o),
                decreases o.len() - i,
            {
                proof {
                    assert(j@->Object_1[i as int] == o[i as int].value@);
                }
                let v = to_value(&o[i].value);
                keys.push(o[i].key.clone());
                values.push(v);
                i = i + 1;
            }
            value_object(keys, values)
        },
    }
}

/// The text `serde_json::to_string_pretty` writes for a document: two
/// spaces of indent per level, one entry per line. What it is for a given
/// document is left to serde_json.
pub uninterp spec fn pretty_json(j: JsonV) -> Seq<char>;

/// `serde_json::to_string_pretty` of the document, as serde_json holds it
/// (the empty text if serde_json reports an error, which it does not for a
/// document with string keys). The contract says only that the text depends
/// on the document alone; the layout itself is not stated.
#[verifier::external_body]
pub(crate) fn pretty_text(j: &Json) -> (r: String)
    ensures
        r@ == pretty_json(j@),
{
    serde_json::to_string_pretty(&to_value(j)).unwrap_or_default()
}

} // verus!
