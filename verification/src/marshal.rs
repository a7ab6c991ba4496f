//! Marshalling artifacts into the host exchange format, and back.
//!
//! A compiled program is marshalled as an object with one `bytecode`
//! field; a flattened program list as an array of `[name, bytecode]`
//! pairs, in order. Bytecode travels as an array of byte-sized integers.
//! Unmarshalling inverts marshalling exactly; the round trip is stated
//! and proved in `law_marshal_program_round_trip` and
//! `law_marshal_flattened_round_trip`.

use vstd::prelude::*;
use vstd::string::*;

use crate::contract::{CompiledProgram, FlattenedProgram, ProgramModel, FlatModel, flat_seq_model};
use crate::value::{Value, ValueModel, arr_model, pairs_model, field_lookup, lemma_model_variant};

verus! {

/// Bytecode in the exchange format: an array of byte-sized integers.
pub open spec fn bytes_value_model(b: Seq<u8>) -> ValueModel {
    ValueModel::Arr(Seq::new(b.len(), |i: int|
        if 0 <= i < b.len() {
            ValueModel::Int(b[i] as int)
        } else {
            ValueModel::Null
        }))
}

/// The exchange shape of a compiled program: `{"bytecode": [...]}`.
pub open spec fn spec_marshal_program(p: ProgramModel) -> ValueModel {
    ValueModel::Obj(seq![("bytecode"@, bytes_value_model(p.bytecode))])
}

/// The exchange shape of one flattened entry: `[name, bytecode]`.
pub open spec fn spec_marshal_entry(f: FlatModel) -> ValueModel {
    ValueModel::Arr(seq![ValueModel::Str(f.program_name), bytes_value_model(f.bytecode)])
}

/// The exchange shape of the flattened program list, in order.
pub open spec fn spec_marshal_flattened(l: Seq<FlatModel>) -> ValueModel {
    ValueModel::Arr(Seq::new(l.len(), |i: int|
        if 0 <= i < l.len() {
            spec_marshal_entry(l[i])
        } else {
            ValueModel::Null
        }))
}

/// Reads bytecode back from the exchange format: every element must be
/// an integer in byte range.
pub open spec fn spec_unmarshal_bytes(m: ValueModel) -> Option<Seq<u8>> {
    match m {
        ValueModel::Arr(items) => {
            if forall|i: int| 0 <= i < items.len() ==> (#[trigger] items[i]) is Int && 0 <= items[i]->Int_0 < 256 {
                Some(Seq::new(items.len(), |i: int|
                    if 0 <= i < items.len() {
                        items[i]->Int_0 as u8
                    } else {
                        0u8
                    }))
            } else {
                None
            }
        },
        _ => None,
    }
}

/// Reads a compiled program back from the exchange format.
pub open spec fn spec_unmarshal_program(m: ValueModel) -> Option<ProgramModel> {
    match m {
        ValueModel::Obj(pairs) => match field_lookup(pairs, "bytecode"@) {
            Some(b) => match spec_unmarshal_bytes(b) {
                Some(bytes) => Some(ProgramModel { bytecode: bytes }),
                None => None,
            },
            None => None,
        },
        _ => None,
    }
}

/// Reads one flattened entry back from the exchange format.
pub open spec fn spec_unmarshal_entry(m: ValueModel) -> Option<FlatModel> {
    match m {
        ValueModel::Arr(items) => {
            if items.len() == 2 && items[0] is Str {
                match spec_unmarshal_bytes(items[1]) {
                    Some(bytes) => Some(FlatModel { program_name: items[0]->Str_0, bytecode: bytes }),
                    None => None,
                }
            } else {
                None
            }
        },
        _ => None,
    }
}

/// Reads the flattened program list back from the exchange format.
pub open spec fn spec_unmarshal_flattened(m: ValueModel) -> Option<Seq<FlatModel>> {
    match m {
        ValueModel::Arr(entries) => {
            if forall|i: int| 0 <= i < entries.len() ==> spec_unmarshal_entry(#[trigger] entries[i]) is Some {
                Some(Seq::new(entries.len(), |i: int|
                    if 0 <= i < entries.len() {
                        spec_unmarshal_entry(entries[i])->Some_0
                    } else {
                        FlatModel { program_name: Seq::empty(), bytecode: Seq::empty() }
                    }))
            } else {
                None
            }
        },
        _ => None,
    }
}

/// Unmarshalling bytecode inverts marshalling it.
pub proof fn law_bytes_round_trip(b: Seq<u8>)
    ensures
        spec_unmarshal_bytes(bytes_value_model(b)) == Some(b),
{
    assert(spec_unmarshal_bytes(bytes_value_model(b))->Some_0 =~= b);
}

/// The round trip of a compiled program through the exchange format
/// reproduces it exactly, bytecode byte for byte.
pub proof fn law_marshal_program_round_trip(p: ProgramModel)
    ensures
        spec_unmarshal_program(spec_marshal_program(p)) == Some(p),
{
    let pairs = seq![("bytecode"@, bytes_value_model(p.bytecode))];
    assert(field_lookup(pairs, "bytecode"@) == Some(bytes_value_model(p.bytecode)));
    law_bytes_round_trip(p.bytecode);
}

/// The round trip of the flattened program list through the exchange
/// format reproduces it exactly: the same names, byte-identical bytecode,
/// in the same order.
pub proof fn law_marshal_flattened_round_trip(l: Seq<FlatModel>)
    ensures
        spec_unmarshal_flattened(spec_marshal_flattened(l)) == Some(l),
{
    let entries = spec_marshal_flattened(l)->Arr_0;
    assert forall|i: int| 0 <= i < entries.len() implies spec_unmarshal_entry(#[trigger] entries[i]) is Some by {
        law_bytes_round_trip(l[i].bytecode);
    }
    assert forall|i: int| 0 <= i < entries.len() implies spec_unmarshal_entry(#[trigger] entries[i])->Some_0 == l[i] by {
        law_bytes_round_trip(l[i].bytecode);
    }
    assert(spec_unmarshal_flattened(spec_marshal_flattened(l))->Some_0 =~= l);
}

/// Renders a bytecode blob in the exchange format.
fn bytes_to_value(b: &Vec<u8>) -> (r: Value)
    ensures
        r@ == bytes_value_model(b@),
{
    let mut items: Vec<Value> = Vec::new();
    let mut i: usize = 0;
    while i < b.len()
        invariant
            0 <= i <= b@.len(),
            arr_model(items@) == bytes_value_model(b@)->Arr_0.take(i as int),
        decreases b@.len() - i,
    {
        let ghost prev = items@;
        items.push(Value::Int(b[i] as i64));
        proof {
            assert(arr_model(items@) =~= arr_model(prev).push(ValueModel::Int(b@[i as int] as int)));
            assert(arr_model(prev).push(ValueModel::Int(b@[i as int] as int))
                =~= bytes_value_model(b@)->Arr_0.take(i + 1));
        }
        i = i + 1;
    }
    proof {
        assert(bytes_value_model(b@)->Arr_0.take(b@.len() as int) =~= bytes_value_model(b@)->Arr_0);
    }
    Value::Arr(items)
}

/// Marshals a compiled program into the exchange format.
pub fn marshal_program(p: &CompiledProgram) -> (r: Value)
    ensures
        r@ == spec_marshal_program(p@),
{
    let bytes = bytes_to_value(&p.bytecode);
    let mut fields: Vec<(String, Value)> = Vec::new();
    fields.push((String::from_str("bytecode"), bytes));
    let r = Value::Obj(fields);
    proof {
        assert(r@->Obj_0 =~= spec_marshal_program(p@)->Obj_0);
    }
    r
}

/// Marshals the flattened program list into the exchange format.
pub fn marshal_flattened(l: &Vec<FlattenedProgram>) -> (r: Value)
    ensures
        r@ == spec_marshal_flattened(flat_seq_model(l@)),
{
    let ghost lm = flat_seq_model(l@);
    let mut entries: Vec<Value> = Vec::new();
    let mut i: usize = 0;
    while i < l.len()
        invariant
            0 <= i <= l@.len(),
            lm == flat_seq_model(l@),
            arr_model(entries@) == spec_marshal_flattened(lm)->Arr_0.take(i as int),
        decreases l@.len() - i,
    {
        let f = &l[i];
        let bytes = bytes_to_value(&f.bytecode);
        let mut inner: Vec<Value> = Vec::new();
        inner.push(Value::Str(f.program_name.clone()));
        inner.push(bytes);
        let entry = Value::Arr(inner);
        proof {
            assert(arr_model(entry->Arr_0@) =~= spec_marshal_entry(lm[i as int])->Arr_0);
            assert(entry@ == spec_marshal_entry(lm[i as int]));
        }
        let ghost prev = entries@;
        entries.push(entry);
        proof {
            assert(arr_model(entries@) =~= arr_model(prev).push(spec_marshal_entry(lm[i as int])));
            assert(arr_model(prev).push(spec_marshal_entry(lm[i as int]))
                =~= spec_marshal_flattened(lm)->Arr_0.take(i + 1));
        }
        i = i + 1;
    }
    proof {
        assert(spec_marshal_flattened(lm)->Arr_0.take(lm.len() as int) =~= spec_marshal_flattened(lm)->Arr_0);
    }
    Value::Arr(entries)
}

/// A lookup that has not matched among the first `i` fields continues in
/// the remaining tail.
proof fn lemma_lookup_from(pairs: Seq<(Seq<char>, ValueModel)>, key: Seq<char>, i: int)
    requires
        0 <= i <= pairs.len(),
        forall|t: int| 0 <= t < i ==> (#[trigger] pairs[t]).0 != key,
    ensures
        field_lookup(pairs, key) == field_lookup(pairs.skip(i), key),
    decreases i,
{
    if i == 0 {
        assert(pairs.skip(0) =~= pairs);
    } else {
        lemma_lookup_from(pairs, key, i - 1);
        assert(pairs.skip(i - 1)[0] == pairs[i - 1]);
        crate::value::lemma_skip_succ(pairs, i - 1);
    }
}

/// Reads bytecode back from an exchange value.
fn unmarshal_bytes_value(v: &Value) -> (r: Option<Vec<u8>>)
    ensures
        match r {
            Some(b) => spec_unmarshal_bytes(v@) == Some(b@),
            None => spec_unmarshal_bytes(v@) is None,
        },
{
    match v {
        Value::Arr(items) => {
            let ghost im = arr_model(items@);
            let mut out: Vec<u8> = Vec::new();
            let mut i: usize = 0;
            while i < items.len()
                invariant
                    0 <= i <= items@.len(),
                    im == arr_model(items@),
                    v@ == ValueModel::Arr(im),
                    out@.len() == i,
                    forall|t: int| 0 <= t < i ==> (#[trigger] im[t]) is Int && 0 <= im[t]->Int_0 < 256,
                    forall|t: int| 0 <= t < i ==> out@[t] == (#[trigger] im[t])->Int_0 as u8,
                decreases items@.len() - i,
            {
                let item = &items[i];
                match item {
                    Value::Int(n) => {
                        let x = *n;
                        if x < 0 || x > 255 {
                            proof {
                                assert(im[i as int] == ValueModel::Int(x as int));
                                assert(!(0 <= im[i as int]->Int_0 < 256));
                            }
                            return None;
                        }
                        out.push(x as u8);
                        proof {
                            assert(im[i as int] == ValueModel::Int(x as int));
                            assert((x as u8) as int == x as int);
                        }
                    },
                    _ => {
                        proof {
                            lemma_model_variant(items@[i as int]);
                            assert(!(im[i as int] is Int));
                        }
                        return None;
                    },
                }
                i = i + 1;
            }
            proof {
                assert(spec_unmarshal_bytes(v@) is Some);
                assert(spec_unmarshal_bytes(v@)->Some_0 =~= out@);
            }
            Some(out)
        },
        _ => {
            proof {
                lemma_model_variant(*v);
            }
            None
        },
    }
}

/// Reads one flattened entry back from an exchange value.
fn unmarshal_entry(v: &Value) -> (r: Option<FlattenedProgram>)
    ensures
        match r {
            Some(f) => spec_unmarshal_entry(v@) == Some(f@),
            None => spec_unmarshal_entry(v@) is None,
        },
{
    match v {
        Value::Arr(items) => {
            if items.len() != 2 {
                return None;
            }
            let name = match &items[0] {
                Value::Str(s) => s.clone(),
                _ => {
                    proof {
                        lemma_model_variant(items@[0]);
                        assert(!(arr_model(items@)[0] is Str));
                    }
                    return None;
                },
            };
            proof {
                assert(arr_model(items@)[0] is Str);
            }
            match unmarshal_bytes_value(&items[1]) {
                Some(bytecode) => Some(FlattenedProgram { program_name: name, bytecode }),
                None => None,
            }
        },
        _ => {
            proof {
                lemma_model_variant(*v);
            }
            None
        },
    }
}

/// Reads the flattened program list back from an exchange value: the
/// inverse of `marshal_flattened`.
pub fn unmarshal_flattened(v: &Value) -> (r: Option<Vec<FlattenedProgram>>)
    ensures
        match r {
            Some(l) => spec_unmarshal_flattened(v@) == Some(flat_seq_model(l@)),
            None => spec_unmarshal_flattened(v@) is None,
        },
{
    match v {
        Value::Arr(entries) => {
            let ghost em = arr_model(entries@);
            let mut out: Vec<FlattenedProgram> = Vec::new();
            let mut i: usize = 0;
            while i < entries.len()
                invariant
                    0 <= i <= entries@.len(),
                    em == arr_model(entries@),
                    v@ == ValueModel::Arr(em),
                    out@.len() == i,
                    forall|t: int| 0 <= t < i ==> spec_unmarshal_entry(#[trigger] em[t]) is Some,
                    forall|t: int| 0 <= t < i ==> spec_unmarshal_entry(#[trigger] em[t])->Some_0 == flat_seq_model(out@)[t],
                decreases entries@.len() - i,
            {
                let ghost prev = out@;
                match unmarshal_entry(&entries[i]) {
                    Some(f) => {
                        let ghost fm = f@;
                        out.push(f);
                        proof {
                            assert(flat_seq_model(out@) =~= flat_seq_model(prev).push(fm));
                        }
                    },
                    None => {
                        proof {
                            assert(spec_unmarshal_entry(em[i as int]) is None);
                        }
                        return None;
                    },
                }
                i = i + 1;
            }
            proof {
                assert(spec_unmarshal_flattened(v@) is Some);
                assert(spec_unmarshal_flattened(v@)->Some_0 =~= flat_seq_model(out@));
            }
            Some(out)
        },
        _ => {
            proof {
                lemma_model_variant(*v);
            }
            None
        },
    }
}

/// Reads a compiled program back from an exchange value: the inverse of
/// `marshal_program`.
pub fn unmarshal_program(v: &Value) -> (r: Option<CompiledProgram>)
    ensures
        match r {
            Some(p) => spec_unmarshal_program(v@) == Some(p@),
            None => spec_unmarshal_program(v@) is None,
        },
{
    match v {
        Value::Obj(fields) => {
            let ghost pm = pairs_model(fields@);
            let key = String::from_str("bytecode");
            let mut i: usize = 0;
            while i < fields.len()
                invariant
                    0 <= i <= fields@.len(),
                    pm == pairs_model(fields@),
                    v@ == ValueModel::Obj(pm),
                    key@ == "bytecode"@,
                    forall|t: int| 0 <= t < i ==> (#[trigger] pm[t]).0 != "bytecode"@,
                decreases fields@.len() - i,
            {
                let pair = &fields[i];
                if pair.0 == key {
                    proof {
                        lemma_lookup_from(pm, "bytecode"@, i as int);
                        assert(pm.skip(i as int)[0] == pm[i as int]);
                        assert(field_lookup(pm, "bytecode"@) == Some(pm[i as int].1));
                    }
                    return match unmarshal_bytes_value(&pair.1) {
                        Some(bytecode) => Some(CompiledProgram { bytecode }),
                        None => None,
                    };
                }
                i = i + 1;
            }
            proof {
                lemma_lookup_from(pm, "bytecode"@, pm.len() as int);
                assert(pm.skip(pm.len() as int).len() == 0);
                assert(field_lookup(pm, "bytecode"@) is None);
            }
            None
        },
        _ => {
            proof {
                lemma_model_variant(*v);
            }
            None
        },
    }
}

} // verus!
