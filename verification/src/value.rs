//! The untyped host exchange format.
//!
//! The host hands the configuration payload in as an untyped tree of
//! values and receives the compiled artifact back in the same shape.
//! `Value` is that tree; `ValueModel` is its mathematical shape, used by
//! every contract that speaks about payloads or marshalled artifacts.

use vstd::prelude::*;

verus! {

/// One node of the untyped host exchange tree.
///
/// An object keeps its fields as an ordered list of `(key, value)` pairs;
/// a lookup takes the first pair whose key matches.
#[derive(Debug)]
pub enum Value {
    Null,
    Bool(bool),
    Int(i64),
    Str(String),
    Arr(Vec<Value>),
    Obj(Vec<(String, Value)>),
}

/// The mathematical shape of a `Value`.
pub ghost enum ValueModel {
    Null,
    Bool(bool),
    Int(int),
    Str(Seq<char>),
    Arr(Seq<ValueModel>),
    Obj(Seq<(Seq<char>, ValueModel)>),
}

/// The models of the elements of an array node, element-wise.
pub open spec fn arr_model(s: Seq<Value>) -> Seq<ValueModel>
    decreases s,
{
    Seq::new(s.len(), |i: int|
        if 0 <= i < s.len() {
            s[i]@
        } else {
            ValueModel::Null
        })
}

/// The models of the fields of an object node, pair-wise.
pub open spec fn pairs_model(s: Seq<(String, Value)>) -> Seq<(Seq<char>, ValueModel)>
    decreases s,
{
    Seq::new(s.len(), |i: int|
        if 0 <= i < s.len() {
            (s[i].0@, s[i].1@)
        } else {
            (Seq::empty(), ValueModel::Null)
        })
}

impl View for Value {
    type V = ValueModel;

    open spec fn view(&self) -> ValueModel
        decreases self,
    {
        match self {
            Value::Null => ValueModel::Null,
            Value::Bool(b) => ValueModel::Bool(*b),
            Value::Int(i) => ValueModel::Int(*i as int),
            Value::Str(s) => ValueModel::Str(s@),
            Value::Arr(items) => ValueModel::Arr(arr_model(items@)),
            Value::Obj(fields) => ValueModel::Obj(pairs_model(fields@)),
        }
    }
}

/// The value of the first field named `key`, if any.
///
/// An object keeps its fields in order; when a key repeats, the first
/// occurrence governs and the later ones are ignored.
pub open spec fn field_lookup(pairs: Seq<(Seq<char>, ValueModel)>, key: Seq<char>) -> Option<ValueModel>
    decreases pairs.len(),
{
    if pairs.len() == 0 {
        None
    } else if pairs[0].0 == key {
        Some(pairs[0].1)
    } else {
        field_lookup(pairs.drop_first(), key)
    }
}

/// A value and its model agree on which variant they are.
pub proof fn lemma_model_variant(v: Value)
    ensures
        (v is Null) <==> (v@ is Null),
        (v is Bool) <==> (v@ is Bool),
        (v is Int) <==> (v@ is Int),
        (v is Str) <==> (v@ is Str),
        (v is Arr) <==> (v@ is Arr),
        (v is Obj) <==> (v@ is Obj),
{
    match v {
        Value::Null => {
            assert(v@ is Null);
        },
        Value::Bool(_) => {
            assert(v@ is Bool);
        },
        Value::Int(_) => {
            assert(v@ is Int);
        },
        Value::Str(_) => {
            assert(v@ is Str);
        },
        Value::Arr(_) => {
            assert(v@ is Arr);
        },
        Value::Obj(_) => {
            assert(v@ is Obj);
        },
    }
}

/// Skipping one more element equals dropping the first of the skipped tail.
pub proof fn lemma_skip_succ<T>(s: Seq<T>, j: int)
    requires
        0 <= j < s.len(),
    ensures
        s.skip(j).drop_first() == s.skip(j + 1),
{
    assert(s.skip(j).drop_first() =~= s.skip(j + 1));
}

/// Removing the head commutes with taking field models.
pub proof fn lemma_pairs_model_tail(s: Seq<(String, Value)>)
    requires
        s.len() > 0,
    ensures
        pairs_model(s.remove(0)) == pairs_model(s).drop_first(),
{
    assert(pairs_model(s.remove(0)) =~= pairs_model(s).drop_first());
}

/// Removing the head commutes with taking element models.
pub proof fn lemma_arr_model_tail(s: Seq<Value>)
    requires
        s.len() > 0,
    ensures
        arr_model(s.remove(0)) == arr_model(s).drop_first(),
{
    assert(arr_model(s.remove(0)) =~= arr_model(s).drop_first());
}

} // verus!
