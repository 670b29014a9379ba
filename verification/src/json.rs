//! A model of the JSON fragments that the login wire format is made of.
//!
//! The codec only ever distinguishes strings and one level of nested objects;
//! any other JSON value that a caller's parser may hand over is collapsed into
//! `Other`, which the codec uniformly treats as a field of the wrong type.

use vstd::prelude::*;

verus! {

/// A JSON value inside the nested `identifier` object.
///
/// Only string-valued fields are ever read at this depth.
#[derive(Debug, PartialEq, Eq)]
pub enum InnerValue {
    Str(String),
    Other,
}

/// A JSON value at the top level of a login document.
#[derive(Debug, PartialEq, Eq)]
pub enum TopValue {
    Str(String),
    Object(Vec<(String, InnerValue)>),
    Other,
}

/// A parsed JSON object: the ordered key/value pairs of the document.
///
/// Keys the codec does not recognize are carried along untouched and
/// never influence what a document decodes to.
#[derive(Debug, PartialEq, Eq)]
pub struct JsonObject {
    pub fields: Vec<(String, TopValue)>,
}

/// Mathematical model of an `InnerValue`.
pub enum InnerValueModel {
    Str(Seq<char>),
    Other,
}

/// Mathematical model of a `TopValue`.
pub enum TopValueModel {
    Str(Seq<char>),
    Object(Seq<(Seq<char>, InnerValueModel)>),
    Other,
}

/// The model of a field list: each key as a sequence of characters, each
/// value as its own model.
pub open spec fn fields_model<V: View>(fields: Seq<(String, V)>) -> Seq<(Seq<char>, V::V)> {
    fields.map_values(|p: (String, V)| (p.0@, p.1@))
}

impl View for InnerValue {
    type V = InnerValueModel;

    open spec fn view(&self) -> InnerValueModel {
        match self {
            InnerValue::Str(s) => InnerValueModel::Str(s@),
            InnerValue::Other => InnerValueModel::Other,
        }
    }
}

impl View for TopValue {
    type V = TopValueModel;

    open spec fn view(&self) -> TopValueModel {
        match self {
            TopValue::Str(s) => TopValueModel::Str(s@),
            TopValue::Object(fields) => TopValueModel::Object(fields_model(fields@)),
            TopValue::Other => TopValueModel::Other,
        }
    }
}

impl View for JsonObject {
    type V = Seq<(Seq<char>, TopValueModel)>;

    open spec fn view(&self) -> Seq<(Seq<char>, TopValueModel)> {
        fields_model(self.fields@)
    }
}

/// The value under the first occurrence of `key`, if any.
pub open spec fn lookup<T>(fields: Seq<(Seq<char>, T)>, key: Seq<char>) -> Option<T>
    decreases fields.len(),
{
    if fields.len() == 0 {
        None
    } else if fields[0].0 == key {
        Some(fields[0].1)
    } else {
        lookup(fields.drop_first(), key)
    }
}

/// Skipping past a leading field whose key does not match leaves the
/// result of `lookup` unchanged.
proof fn lemma_lookup_skip<T>(fields: Seq<(Seq<char>, T)>, key: Seq<char>, i: int)
    requires
        0 <= i < fields.len(),
        fields[i].0 != key,
        lookup(fields, key) == lookup(fields.skip(i), key),
    ensures
        lookup(fields, key) == lookup(fields.skip(i + 1), key),
{
    assert(fields.skip(i)[0] == fields[i]);
    assert(fields.skip(i).drop_first() =~= fields.skip(i + 1));
}

/// Compares a document key with a protocol constant.
pub fn str_eq_lit(a: &String, b: &str) -> (r: bool)
    ensures
        r == (a@ == b@),
{
    let bs: String = b.to_owned();
    *a == bs
}

/// The value stored under the first occurrence of `key` in `fields`.
pub fn lookup_value<'a, V: View>(fields: &'a Vec<(String, V)>, key: &str) -> (r: Option<&'a V>)
    ensures
        match r {
            Some(v) => lookup(fields_model(fields@), key@) == Some(v@),
            None => lookup(fields_model(fields@), key@) is None,
        },
{
    let ghost m: Seq<(Seq<char>, V::V)> = fields_model(fields@);
    proof {
        assert(m.skip(0) =~= m);
    }
    let n: usize = fields.len();
    let mut i: usize = 0;
    while i < n
        invariant
            n == fields@.len(),
            i <= n,
            m == fields_model(fields@),
            m.len() == n,
            lookup(m, key@) == lookup(m.skip(i as int), key@),
        decreases n - i,
    {
        let p = &fields[i];
        if str_eq_lit(&p.0, key) {
            proof {
                assert(m.skip(i as int)[0] == m[i as int]);
            }
            return Some(&p.1);
        }
        proof {
            lemma_lookup_skip(m, key@, i as int);
        }
        i = i + 1;
    }
    proof {
        assert(m.skip(n as int) =~= Seq::<(Seq<char>, V::V)>::empty());
    }
    None
}

} // verus!
