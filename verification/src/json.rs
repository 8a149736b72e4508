//! The generic structured-value model: a tree of null, booleans, integers,
//! strings, ordered lists and ordered maps, as one line of protocol text
//! carries it. Every open-ended protocol field (identifier, parameters,
//! results) is held in this form at the boundary.

use vstd::prelude::*;

verus! {

broadcast use vstd::std_specs::vec::group_vec_axioms, vstd::seq::group_seq_axioms;

/// Mathematical model of a structured document; contracts speak of this.
#[verifier::ext_equal]
pub enum JsonV {
    Null,
    Bool(bool),
    Int(int),
    Num(Seq<char>),
    Str(Seq<char>),
    Arr(Seq<JsonV>),
    Obj(Seq<(Seq<char>, JsonV)>),
}

/// The texts that stand for numbers outside the signed machine-integer
/// range: exactly what the serializer writes for such a number. The logic
/// never reads a number's value, so these texts are carried opaquely; the
/// name is tied to the codec's wrappers through `wf`.
pub uninterp spec fn num_text(s: Seq<char>) -> bool;

/// A structured document: null, a boolean, a number, a string, an ordered
/// list, or an ordered map from string keys to documents. A number that
/// fits a signed machine integer is held as one; any other number — a
/// fraction, or an integer past the range — is held as its exact text and
/// passes through untouched.
pub enum Json {
    Null,
    Bool(bool),
    Int(i64),
    Num(String),
    Str(String),
    Arr(Vec<Json>),
    Obj(Vec<(String, Json)>),
}

impl View for Json {
    type V = JsonV;

    open spec fn view(&self) -> JsonV
        decreases self,
    {
        match self {
            Json::Null => JsonV::Null,
            Json::Bool(b) => JsonV::Bool(*b),
            Json::Int(i) => JsonV::Int(*i as int),
            Json::Num(s) => JsonV::Num(s@),
            Json::Str(s) => JsonV::Str(s@),
            Json::Arr(items) => JsonV::Arr(arr_view(items@)),
            Json::Obj(fields) => JsonV::Obj(obj_view(fields@)),
        }
    }
}

/// The models of a sequence of list items.
pub open spec fn arr_view(items: Seq<Json>) -> Seq<JsonV>
    decreases items,
{
    Seq::new(
        items.len(),
        |i: int|
            if 0 <= i < items.len() {
                items[i]@
            } else {
                JsonV::Null
            },
    )
}

/// The models of a sequence of keyed fields.
pub open spec fn obj_view(fields: Seq<(String, Json)>) -> Seq<(Seq<char>, JsonV)>
    decreases fields,
{
    Seq::new(
        fields.len(),
        |i: int|
            if 0 <= i < fields.len() {
                (fields[i].0@, fields[i].1@)
            } else {
                (Seq::<char>::empty(), JsonV::Null)
            },
    )
}

pub broadcast proof fn lemma_arr_view_index(items: Seq<Json>, i: int)
    requires
        0 <= i < items.len(),
    ensures
        #[trigger] arr_view(items)[i] == items[i]@,
        arr_view(items).len() == items.len(),
{
}

pub broadcast proof fn lemma_obj_view_index(fields: Seq<(String, Json)>, i: int)
    requires
        0 <= i < fields.len(),
    ensures
        #[trigger] obj_view(fields)[i] == (fields[i].0@, fields[i].1@),
        obj_view(fields).len() == fields.len(),
{
}

/// No two fields of an ordered map share a key.
pub open spec fn keys_unique(fields: Seq<(Seq<char>, JsonV)>) -> bool {
    forall|i: int, j: int| 0 <= i < j < fields.len() ==> fields[i].0 !== fields[j].0
}

/// A document is well formed within `budget` when no ordered map in it
/// repeats a key, and its lists and maps nest at most `budget` levels deep.
/// The budget matters because the parser refuses documents past a fixed
/// nesting depth, so only a bounded document is sure to parse back.
pub open spec fn wf(v: JsonV, budget: nat) -> bool
    decreases v,
{
    match v {
        JsonV::Arr(items) => budget > 0 && forall|i: int|
            0 <= i < items.len() ==> wf(#[trigger] items[i], (budget - 1) as nat),
        JsonV::Obj(fields) => budget > 0 && keys_unique(fields) && forall|i: int|
            0 <= i < fields.len() ==> wf(#[trigger] fields[i].1, (budget - 1) as nat),
        JsonV::Num(s) => num_text(s),
        _ => true,
    }
}

/// The first field of `fields` whose key is `key`, if any.
pub open spec fn lookup_in(fields: Seq<(Seq<char>, JsonV)>, key: Seq<char>) -> Option<JsonV>
    decreases fields.len(),
{
    if fields.len() == 0 {
        None
    } else if fields[0].0 == key {
        Some(fields[0].1)
    } else {
        lookup_in(fields.drop_first(), key)
    }
}

/// Field lookup on a document: `None` unless the document is an ordered
/// map carrying the key.
pub open spec fn lookup(v: JsonV, key: Seq<char>) -> Option<JsonV> {
    match v {
        JsonV::Obj(fields) => lookup_in(fields, key),
        _ => None,
    }
}

/// What a lookup finds in a well-formed document is well formed, one level
/// of the budget down.
pub proof fn lemma_lookup_wf(v: JsonV, key: Seq<char>, budget: nat)
    requires
        wf(v, budget),
    ensures
        lookup(v, key) matches Some(x) ==> budget > 0 && wf(x, (budget - 1) as nat),
{
    match v {
        JsonV::Obj(fields) => {
            lemma_lookup_in_wf(fields, key, (budget - 1) as nat);
        },
        _ => {},
    }
}

proof fn lemma_lookup_in_wf(fields: Seq<(Seq<char>, JsonV)>, key: Seq<char>, budget: nat)
    requires
        forall|i: int| 0 <= i < fields.len() ==> wf(#[trigger] fields[i].1, budget),
    ensures
        lookup_in(fields, key) matches Some(x) ==> wf(x, budget),
    decreases fields.len(),
{
    if fields.len() > 0 && fields[0].0 != key {
        assert(forall|i: int|
            0 <= i < fields.drop_first().len() ==> wf(
                #[trigger] fields.drop_first()[i].1,
                budget,
            ));
        lemma_lookup_in_wf(fields.drop_first(), key, budget);
    }
}

proof fn lemma_lookup_in_skip(fields: Seq<(Seq<char>, JsonV)>, key: Seq<char>, k: int)
    requires
        0 <= k <= fields.len(),
        forall|i: int| 0 <= i < k ==> fields[i].0 !== key,
    ensures
        lookup_in(fields, key) == lookup_in(fields.skip(k), key),
    decreases k,
{
    if k > 0 {
        lemma_lookup_in_skip(fields.drop_first(), key, k - 1);
        assert(fields.drop_first().skip(k - 1) =~= fields.skip(k));
    } else {
        assert(fields.skip(0) =~= fields);
    }
}

/// Character-for-character string comparison.
pub fn str_eq(a: &str, b: &str) -> (r: bool)
    ensures
        r == (a@ == b@),
{
    let alen = a.unicode_len();
    if alen != b.unicode_len() {
        return false;
    }
    let mut i: usize = 0;
    while i < alen
        invariant
            alen == a@.len(),
            alen == b@.len(),
            0 <= i <= alen,
            forall|k: int| 0 <= k < i ==> a@[k] == b@[k],
        decreases alen - i,
    {
        if a.get_char(i) != b.get_char(i) {
            return false;
        }
        i = i + 1;
    }
    proof {
        assert(a@ =~= b@);
    }
    true
}

impl Json {
    /// The first field under `key`, when this document is an ordered map
    /// that carries the key.
    pub fn get_field<'a>(&'a self, key: &str) -> (r: Option<&'a Json>)
        ensures
            match r {
                Some(f) => lookup(self@, key@) == Some(f@),
                None => lookup(self@, key@) is None,
            },
    {
        broadcast use lemma_obj_view_index;

        match self {
            Json::Obj(fields) => {
                let ghost fs = obj_view(fields@);
                proof {
                    assert(self@ == JsonV::Obj(fs));
                }
                let mut i: usize = 0;
                while i < fields.len()
                    invariant
                        self@ == JsonV::Obj(fs),
                        fs == obj_view(fields@),
                        fs.len() == fields@.len(),
                        0 <= i <= fields.len(),
                        forall|k: int| 0 <= k < i ==> fs[k].0 !== key@,
                    decreases fields.len() - i,
                {
                    if str_eq(fields[i].0.as_str(), key) {
                        proof {
                            lemma_lookup_in_skip(fs, key@, i as int);
                            assert(fs.skip(i as int)[0] == fs[i as int]);
                        }
                        return Some(&fields[i].1);
                    }
                    i = i + 1;
                }
                proof {
                    lemma_lookup_in_skip(fs, key@, fs.len() as int);
                    assert(fs.skip(fs.len() as int) =~= Seq::<(Seq<char>, JsonV)>::empty());
                }
                None
            },
            _ => None,
        }
    }

    /// A copy of this document, equal to it in the model.
    pub fn deep_copy(&self) -> (r: Json)
        ensures
            r@ == self@,
        decreases self,
    {
        match self {
            Json::Null => Json::Null,
            Json::Bool(b) => Json::Bool(*b),
            Json::Int(i) => Json::Int(*i),
            Json::Num(s) => Json::Num(s.clone()),
            Json::Str(s) => Json::Str(s.clone()),
            Json::Arr(items) => {
                let mut out: Vec<Json> = Vec::new();
                let mut i: usize = 0;
                while i < items.len()
                    invariant
                        *self == Json::Arr(*items),
                        0 <= i <= items.len(),
                        out@.len() == i,
                        forall|k: int| 0 <= k < i ==> #[trigger] out@[k]@ == items@[k]@,
                    decreases items.len() - i,
                {
                    proof {
                        assert(decreases_to!(*self => self->Arr_0));
                        assert(decreases_to!(*items => items@));
                        assert(decreases_to!(items@ => items@[i as int]));
                        assert(decreases_to!(*self => items@[i as int]));
                    }
                    out.push(items[i].deep_copy());
                    i = i + 1;
                }
                let r = Json::Arr(out);
                proof {
                    broadcast use lemma_arr_view_index;

                    assert(arr_view(out@) =~= arr_view(items@));
                }
                r
            },
            Json::Obj(fields) => {
                let mut out: Vec<(String, Json)> = Vec::new();
                let mut i: usize = 0;
                while i < fields.len()
                    invariant
                        *self == Json::Obj(*fields),
                        0 <= i <= fields.len(),
                        out@.len() == i,
                        forall|k: int|
                            0 <= k < i ==> (#[trigger] out@[k]).0@ == fields@[k].0@ && out@[k].1@
                                == fields@[k].1@,
                    decreases fields.len() - i,
                {
                    proof {
                        assert(decreases_to!(*self => self->Obj_0));
                        assert(decreases_to!(*fields => fields@));
                        assert(decreases_to!(fields@ => fields@[i as int]));
                        assert(decreases_to!(fields@[i as int] => fields@[i as int].1));
                        assert(decreases_to!(*self => fields@[i as int].1));
                    }
                    out.push((fields[i].0.clone(), fields[i].1.deep_copy()));
                    i = i + 1;
                }
                let r = Json::Obj(out);
                proof {
                    broadcast use lemma_obj_view_index;

                    assert(obj_view(out@) =~= obj_view(fields@));
                }
                r
            },
        }
    }
}

/// A string document from a borrowed string.
pub fn jstr(s: &str) -> (r: Json)
    ensures
        r@ == JsonV::Str(s@),
{
    Json::Str(String::from_str(s))
}

/// An ordered map with no fields.
pub fn obj0() -> (r: Json)
    ensures
        r@ == JsonV::Obj(Seq::<(Seq<char>, JsonV)>::empty()),
{
    let fields: Vec<(String, Json)> = Vec::new();
    let r = Json::Obj(fields);
    proof {
        broadcast use lemma_obj_view_index;

        assert(obj_view(fields@) =~= Seq::<(Seq<char>, JsonV)>::empty());
    }
    r
}

/// An ordered map of one field.
pub fn obj1(k: &str, v: Json) -> (r: Json)
    ensures
        r@ == JsonV::Obj(seq![(k@, v@)]),
{
    let ghost gv = v@;
    let mut fields: Vec<(String, Json)> = Vec::new();
    fields.push((String::from_str(k), v));
    let r = Json::Obj(fields);
    proof {
        broadcast use lemma_obj_view_index;

        assert(obj_view(fields@) =~= seq![(k@, gv)]);
    }
    r
}

/// An ordered map of two fields.
pub fn obj2(k1: &str, v1: Json, k2: &str, v2: Json) -> (r: Json)
    ensures
        r@ == JsonV::Obj(seq![(k1@, v1@), (k2@, v2@)]),
{
    let ghost g1 = v1@;
    let ghost g2 = v2@;
    let mut fields: Vec<(String, Json)> = Vec::new();
    fields.push((String::from_str(k1), v1));
    fields.push((String::from_str(k2), v2));
    let r = Json::Obj(fields);
    proof {
        broadcast use lemma_obj_view_index;

        assert(obj_view(fields@) =~= seq![(k1@, g1), (k2@, g2)]);
    }
    r
}

/// An ordered map of three fields.
pub fn obj3(k1: &str, v1: Json, k2: &str, v2: Json, k3: &str, v3: Json) -> (r: Json)
    ensures
        r@ == JsonV::Obj(seq![(k1@, v1@), (k2@, v2@), (k3@, v3@)]),
{
    let ghost g1 = v1@;
    let ghost g2 = v2@;
    let ghost g3 = v3@;
    let mut fields: Vec<(String, Json)> = Vec::new();
    fields.push((String::from_str(k1), v1));
    fields.push((String::from_str(k2), v2));
    fields.push((String::from_str(k3), v3));
    let r = Json::Obj(fields);
    proof {
        broadcast use lemma_obj_view_index;

        assert(obj_view(fields@) =~= seq![(k1@, g1), (k2@, g2), (k3@, g3)]);
    }
    r
}

/// An ordered map of five fields.
pub fn obj5(
    k1: &str,
    v1: Json,
    k2: &str,
    v2: Json,
    k3: &str,
    v3: Json,
    k4: &str,
    v4: Json,
    k5: &str,
    v5: Json,
) -> (r: Json)
    ensures
        r@ == JsonV::Obj(seq![(k1@, v1@), (k2@, v2@), (k3@, v3@), (k4@, v4@), (k5@, v5@)]),
{
    let ghost g1 = v1@;
    let ghost g2 = v2@;
    let ghost g3 = v3@;
    let ghost g4 = v4@;
    let ghost g5 = v5@;
    let mut fields: Vec<(String, Json)> = Vec::new();
    fields.push((String::from_str(k1), v1));
    fields.push((String::from_str(k2), v2));
    fields.push((String::from_str(k3), v3));
    fields.push((String::from_str(k4), v4));
    fields.push((String::from_str(k5), v5));
    let r = Json::Obj(fields);
    proof {
        broadcast use lemma_obj_view_index;

        assert(obj_view(fields@) =~= seq![(k1@, g1), (k2@, g2), (k3@, g3), (k4@, g4), (k5@, g5)]);
    }
    r
}

/// An ordered list of one item.
pub fn arr1(v: Json) -> (r: Json)
    ensures
        r@ == JsonV::Arr(seq![v@]),
{
    let ghost gv = v@;
    let mut items: Vec<Json> = Vec::new();
    items.push(v);
    let r = Json::Arr(items);
    proof {
        broadcast use lemma_arr_view_index;

        assert(arr_view(items@) =~= seq![gv]);
    }
    r
}

/// An ordered list of three items.
pub fn arr3(a: Json, b: Json, c: Json) -> (r: Json)
    ensures
        r@ == JsonV::Arr(seq![a@, b@, c@]),
{
    let ghost ga = a@;
    let ghost gb = b@;
    let ghost gc = c@;
    let mut items: Vec<Json> = Vec::new();
    items.push(a);
    items.push(b);
    items.push(c);
    let r = Json::Arr(items);
    proof {
        broadcast use lemma_arr_view_index;

        assert(arr_view(items@) =~= seq![ga, gb, gc]);
    }
    r
}

} // verus!
