//! Resolving the untyped host payload into typed compile options.
//!
//! Every field of the payload is optional and has a documented default;
//! a field that is present but of the wrong shape aborts the invocation
//! with `InvalidConfig`. A `Null` payload stands for an absent one and
//! resolves to the defaults wholesale. Fields that the options do not
//! know are ignored.

use vstd::prelude::*;
use vstd::string::*;

use crate::errors::FailureKind;
use crate::value::{Value, ValueModel, arr_model, pairs_model, field_lookup, lemma_skip_succ,
    lemma_pairs_model_tail, lemma_arr_model_tail, lemma_model_variant};

verus! {

/// The resolved, typed options of one compile invocation.
#[derive(Debug)]
pub struct WASMCompileOptions {
    /// Path of the root source file. Default `"main.nr"`.
    pub entry_point: String,
    /// Prefix of every flattened program name. Default `"contract"`.
    pub circuit_name: String,
    /// Compile every contract function rather than one program. Default `false`.
    pub contracts: bool,
    /// Nested backend configuration, opaque to this core: it is carried to
    /// the driver unread. Default: an empty object, standing for the
    /// backend's own defaults.
    pub compile_options: Value,
    /// Names of the libraries to add to the crate graph, in order.
    /// Default: none.
    pub optional_dependencies_set: Vec<String>,
    /// Logging verbosity of the hosting collaborator. Default `"info"`.
    pub log_level: String,
}

/// The mathematical shape of resolved options.
pub ghost struct OptionsModel {
    pub entry_point: Seq<char>,
    pub circuit_name: Seq<char>,
    pub contracts: bool,
    pub compile_options: ValueModel,
    pub optional_dependencies_set: Seq<Seq<char>>,
    pub log_level: Seq<char>,
}

/// The contents of a list of strings, element-wise.
pub open spec fn str_seq_model(s: Seq<String>) -> Seq<Seq<char>> {
    Seq::new(s.len(), |i: int|
        if 0 <= i < s.len() {
            s[i]@
        } else {
            Seq::empty()
        })
}

impl View for WASMCompileOptions {
    type V = OptionsModel;

    open spec fn view(&self) -> OptionsModel {
        OptionsModel {
            entry_point: self.entry_point@,
            circuit_name: self.circuit_name@,
            contracts: self.contracts,
            compile_options: self.compile_options@,
            optional_dependencies_set: str_seq_model(self.optional_dependencies_set@),
            log_level: self.log_level@,
        }
    }
}

/// The documented defaults: what an absent payload resolves to.
pub open spec fn spec_default_options() -> OptionsModel {
    OptionsModel {
        entry_point: "main.nr"@,
        circuit_name: "contract"@,
        contracts: false,
        compile_options: ValueModel::Obj(Seq::empty()),
        optional_dependencies_set: Seq::empty(),
        log_level: "info"@,
    }
}

/// A string field: absent means the default, any non-string shape is an error.
pub open spec fn typed_str(v: Option<ValueModel>, default: Seq<char>) -> Result<Seq<char>, ()> {
    match v {
        None => Ok(default),
        Some(ValueModel::Str(s)) => Ok(s),
        Some(_) => Err(()),
    }
}

/// A boolean field: absent means `false`, any non-boolean shape is an error.
pub open spec fn typed_bool(v: Option<ValueModel>) -> Result<bool, ()> {
    match v {
        None => Ok(false),
        Some(ValueModel::Bool(b)) => Ok(b),
        Some(_) => Err(()),
    }
}

/// The backend configuration field: absent means an empty object; a present
/// value must itself be an object, whose interior only the backend reads.
pub open spec fn typed_config(v: Option<ValueModel>) -> Result<ValueModel, ()> {
    match v {
        None => Ok(ValueModel::Obj(Seq::empty())),
        Some(ValueModel::Obj(fields)) => Ok(ValueModel::Obj(fields)),
        Some(_) => Err(()),
    }
}

/// Whether every element of an array is a string.
pub open spec fn all_strs(models: Seq<ValueModel>) -> bool {
    forall|i: int| 0 <= i < models.len() ==> models[i] is Str
}

/// The contents of an array of strings, in order; any non-string element
/// is an error.
pub open spec fn str_items(models: Seq<ValueModel>) -> Result<Seq<Seq<char>>, ()> {
    if all_strs(models) {
        Ok(Seq::new(models.len(), |i: int|
            if 0 <= i < models.len() {
                models[i]->Str_0
            } else {
                Seq::empty()
            }))
    } else {
        Err(())
    }
}

/// The dependency list field: absent means no dependencies, a present value
/// must be an array of strings.
pub open spec fn typed_str_list(v: Option<ValueModel>) -> Result<Seq<Seq<char>>, ()> {
    match v {
        None => Ok(Seq::empty()),
        Some(ValueModel::Arr(items)) => str_items(items),
        Some(_) => Err(()),
    }
}

/// Whether every known field of the payload has the right shape.
pub open spec fn pairs_well_typed(pairs: Seq<(Seq<char>, ValueModel)>) -> bool {
    &&& typed_str(field_lookup(pairs, "entry_point"@), "main.nr"@) is Ok
    &&& typed_str(field_lookup(pairs, "circuit_name"@), "contract"@) is Ok
    &&& typed_bool(field_lookup(pairs, "contracts"@)) is Ok
    &&& typed_config(field_lookup(pairs, "compile_options"@)) is Ok
    &&& typed_str_list(field_lookup(pairs, "optional_dependencies_set"@)) is Ok
    &&& typed_str(field_lookup(pairs, "log_level"@), "info"@) is Ok
}

/// Resolution of a present payload object: each known field falls back to
/// its default when absent, is taken as given when well shaped, and is an
/// error otherwise.
pub open spec fn resolve_pairs(pairs: Seq<(Seq<char>, ValueModel)>) -> Result<OptionsModel, ()> {
    if pairs_well_typed(pairs) {
        Ok(OptionsModel {
            entry_point: typed_str(field_lookup(pairs, "entry_point"@), "main.nr"@)->Ok_0,
            circuit_name: typed_str(field_lookup(pairs, "circuit_name"@), "contract"@)->Ok_0,
            contracts: typed_bool(field_lookup(pairs, "contracts"@))->Ok_0,
            compile_options: typed_config(field_lookup(pairs, "compile_options"@))->Ok_0,
            optional_dependencies_set: typed_str_list(field_lookup(pairs, "optional_dependencies_set"@))->Ok_0,
            log_level: typed_str(field_lookup(pairs, "log_level"@), "info"@)->Ok_0,
        })
    } else {
        Err(())
    }
}

/// Resolution of the whole payload: `Null` stands for an absent payload and
/// resolves to the defaults; an object resolves field by field; any other
/// shape is an error.
pub open spec fn resolve_model(m: ValueModel) -> Result<OptionsModel, ()> {
    match m {
        ValueModel::Null => Ok(spec_default_options()),
        ValueModel::Obj(pairs) => resolve_pairs(pairs),
        _ => Err(()),
    }
}

fn default_log_level() -> (r: String)
    ensures
        r@ == "info"@,
{
    String::from_str("info")
}

fn default_circuit_name() -> (r: String)
    ensures
        r@ == "contract"@,
{
    String::from_str("contract")
}

fn default_entry_point() -> (r: String)
    ensures
        r@ == "main.nr"@,
{
    String::from_str("main.nr")
}

impl Default for WASMCompileOptions {
    /// The documented defaults, used wholesale for an absent payload and
    /// field by field for absent fields.
    fn default() -> (r: Self)
        ensures
            r@ == spec_default_options(),
    {
        let r = WASMCompileOptions {
            entry_point: default_entry_point(),
            circuit_name: default_circuit_name(),
            log_level: default_log_level(),
            contracts: false,
            compile_options: Value::Obj(Vec::new()),
            optional_dependencies_set: Vec::new(),
        };
        proof {
            assert(pairs_model(Seq::<(String, Value)>::empty()) =~= Seq::<(Seq<char>, ValueModel)>::empty());
            assert(str_seq_model(Seq::<String>::empty()) =~= Seq::<Seq<char>>::empty());
        }
        r
    }
}

/// Resolution law: an absent payload resolves to the documented defaults
/// wholesale; in a present payload, every missing field resolves to its
/// documented default and every present, well-shaped field passes through
/// unchanged.
pub proof fn law_resolution_defaults_and_passthrough(pairs: Seq<(Seq<char>, ValueModel)>)
    requires
        resolve_pairs(pairs) is Ok,
    ensures
        resolve_model(ValueModel::Null) == Ok::<OptionsModel, ()>(spec_default_options()),
        ({
            let o = resolve_pairs(pairs)->Ok_0;
            &&& match field_lookup(pairs, "entry_point"@) {
                None => o.entry_point == "main.nr"@,
                Some(v) => o.entry_point == v->Str_0,
            }
            &&& match field_lookup(pairs, "circuit_name"@) {
                None => o.circuit_name == "contract"@,
                Some(v) => o.circuit_name == v->Str_0,
            }
            &&& match field_lookup(pairs, "contracts"@) {
                None => o.contracts == false,
                Some(v) => o.contracts == v->Bool_0,
            }
            &&& match field_lookup(pairs, "compile_options"@) {
                None => o.compile_options == ValueModel::Obj(Seq::<(Seq<char>, ValueModel)>::empty()),
                Some(v) => o.compile_options == v,
            }
            &&& match field_lookup(pairs, "optional_dependencies_set"@) {
                None => o.optional_dependencies_set == Seq::<Seq<char>>::empty(),
                Some(v) => str_items(v->Arr_0) == Ok::<Seq<Seq<char>>, ()>(o.optional_dependencies_set),
            }
            &&& match field_lookup(pairs, "log_level"@) {
                None => o.log_level == "info"@,
                Some(v) => o.log_level == v->Str_0,
            }
        }),
{
}

/// The six known field names differ pairwise.
proof fn lemma_keys_distinct()
    ensures
        "entry_point"@ != "circuit_name"@,
        "entry_point"@ != "contracts"@,
        "entry_point"@ != "compile_options"@,
        "entry_point"@ != "optional_dependencies_set"@,
        "entry_point"@ != "log_level"@,
        "circuit_name"@ != "contracts"@,
        "circuit_name"@ != "compile_options"@,
        "circuit_name"@ != "optional_dependencies_set"@,
        "circuit_name"@ != "log_level"@,
        "contracts"@ != "compile_options"@,
        "contracts"@ != "optional_dependencies_set"@,
        "contracts"@ != "log_level"@,
        "compile_options"@ != "optional_dependencies_set"@,
        "compile_options"@ != "log_level"@,
        "optional_dependencies_set"@ != "log_level"@,
{
    reveal_strlit("entry_point");
    reveal_strlit("circuit_name");
    reveal_strlit("contracts");
    reveal_strlit("compile_options");
    reveal_strlit("optional_dependencies_set");
    reveal_strlit("log_level");
    assert("entry_point"@.len() == 11);
    assert("circuit_name"@.len() == 12);
    assert("contracts"@.len() == 9);
    assert("compile_options"@.len() == 15);
    assert("optional_dependencies_set"@.len() == 25);
    assert("log_level"@.len() == 9);
    assert("contracts"@[0] == 'c');
    assert("log_level"@[0] == 'l');
}

/// One unfolding of `field_lookup` on the tail that starts at `j`.
proof fn lemma_lookup_step(pairs: Seq<(Seq<char>, ValueModel)>, key: Seq<char>, j: int)
    requires
        0 <= j < pairs.len(),
    ensures
        field_lookup(pairs.skip(j), key) == (if pairs[j].0 == key {
            Some(pairs[j].1)
        } else {
            field_lookup(pairs.skip(j + 1), key)
        }),
{
    let s = pairs.skip(j);
    assert(s[0] == pairs[j]);
    lemma_skip_succ(pairs, j);
}

/// What one slot of the field-collection loop says: a filled slot holds the
/// first value of its key, an empty one means the key was not seen among
/// the first `j` fields.
pub open spec fn slot_tracks(slot: Option<Value>, pairs: Seq<(Seq<char>, ValueModel)>, key: Seq<char>, j: int) -> bool {
    match slot {
        Some(v) => field_lookup(pairs, key) == Some(v@),
        None => field_lookup(pairs, key) == field_lookup(pairs.skip(j), key),
    }
}

/// The model of a slot's content.
pub open spec fn slot_model(slot: Option<Value>) -> Option<ValueModel> {
    match slot {
        Some(v) => Some(v@),
        None => None,
    }
}

/// Takes a string field out of its slot, falling back to the default.
fn take_str(slot: Option<Value>, default: String) -> (r: Result<String, FailureKind>)
    ensures
        match r {
            Ok(s) => typed_str(slot_model(slot), default@) == Ok::<Seq<char>, ()>(s@),
            Err(k) => k == FailureKind::InvalidConfig && typed_str(slot_model(slot), default@) is Err,
        },
{
    match slot {
        None => Ok(default),
        Some(Value::Str(s)) => Ok(s),
        Some(_) => Err(FailureKind::InvalidConfig),
    }
}

/// Takes the boolean `contracts` field out of its slot.
fn take_bool(slot: Option<Value>) -> (r: Result<bool, FailureKind>)
    ensures
        match r {
            Ok(b) => typed_bool(slot_model(slot)) == Ok::<bool, ()>(b),
            Err(k) => k == FailureKind::InvalidConfig && typed_bool(slot_model(slot)) is Err,
        },
{
    match slot {
        None => Ok(false),
        Some(Value::Bool(b)) => Ok(b),
        Some(_) => Err(FailureKind::InvalidConfig),
    }
}

/// Takes the backend configuration out of its slot.
fn take_config(slot: Option<Value>) -> (r: Result<Value, FailureKind>)
    ensures
        match r {
            Ok(v) => typed_config(slot_model(slot)) == Ok::<ValueModel, ()>(v@),
            Err(k) => k == FailureKind::InvalidConfig && typed_config(slot_model(slot)) is Err,
        },
{
    match slot {
        None => {
            let empty: Vec<(String, Value)> = Vec::new();
            proof {
                assert(pairs_model(Seq::<(String, Value)>::empty()) =~= Seq::<(Seq<char>, ValueModel)>::empty());
            }
            Ok(Value::Obj(empty))
        },
        Some(Value::Obj(fields)) => Ok(Value::Obj(fields)),
        Some(_) => Err(FailureKind::InvalidConfig),
    }
}

/// Converts an array of strings into the dependency list; any non-string
/// element is an `InvalidConfig` error. Consumes the array.
fn convert_deps(items: &mut Vec<Value>) -> (r: Result<Vec<String>, FailureKind>)
    ensures
        match r {
            Ok(v) => str_items(arr_model(old(items)@)) == Ok::<Seq<Seq<char>>, ()>(str_seq_model(v@)),
            Err(k) => k == FailureKind::InvalidConfig && str_items(arr_model(old(items)@)) is Err,
        },
{
    let ghost models = arr_model(items@);
    let mut out: Vec<String> = Vec::new();
    let ghost mut j: int = 0;
    proof {
        assert(models.skip(0) =~= models);
    }
    while items.len() > 0
        invariant
            0 <= j <= models.len(),
            models == arr_model(old(items)@),
            arr_model(items@) == models.skip(j),
            out@.len() == j,
            forall|i: int| 0 <= i < j ==> models[i] is Str,
            forall|i: int| 0 <= i < j ==> out@[i]@ == #[trigger] models[i]->Str_0,
        decreases items.len(),
    {
        let ghost prev = items@;
        proof {
            assert(arr_model(prev).len() == prev.len());
            assert(models.skip(j).len() == models.len() - j);
            assert(arr_model(prev)[0] == prev[0]@);
            assert(models.skip(j)[0] == models[j]);
            lemma_arr_model_tail(prev);
            lemma_skip_succ(models, j);
        }
        let v = items.remove(0);
        proof {
            assert(models[j] == v@);
            assert(arr_model(items@) == models.skip(j + 1));
        }
        match v {
            Value::Str(s) => {
                out.push(s);
            },
            other => {
                proof {
                    lemma_model_variant(other);
                    assert(!(models[j] is Str));
                    assert(!all_strs(models));
                }
                return Err(FailureKind::InvalidConfig);
            },
        }
        proof {
            j = j + 1;
        }
    }
    proof {
        assert(models.skip(j).len() == 0);
        assert(j == models.len());
        assert(all_strs(models));
        assert(str_items(models)->Ok_0 =~= str_seq_model(out@));
    }
    Ok(out)
}

/// Takes the dependency list out of its slot.
fn take_deps(slot: Option<Value>) -> (r: Result<Vec<String>, FailureKind>)
    ensures
        match r {
            Ok(v) => typed_str_list(slot_model(slot)) == Ok::<Seq<Seq<char>>, ()>(str_seq_model(v@)),
            Err(k) => k == FailureKind::InvalidConfig && typed_str_list(slot_model(slot)) is Err,
        },
{
    match slot {
        None => {
            let out: Vec<String> = Vec::new();
            proof {
                assert(str_seq_model(Seq::<String>::empty()) =~= Seq::<Seq<char>>::empty());
            }
            Ok(out)
        },
        Some(Value::Arr(mut items)) => convert_deps(&mut items),
        Some(_) => Err(FailureKind::InvalidConfig),
    }
}

/// Resolves a present payload object field by field. Consumes the fields.
fn resolve_fields(fields: &mut Vec<(String, Value)>) -> (r: Result<WASMCompileOptions, FailureKind>)
    ensures
        match r {
            Ok(o) => resolve_pairs(pairs_model(old(fields)@)) == Ok::<OptionsModel, ()>(o@),
            Err(k) => k == FailureKind::InvalidConfig && resolve_pairs(pairs_model(old(fields)@)) is Err,
        },
{
    let ghost pairs = pairs_model(old(fields)@);
    let key_entry = String::from_str("entry_point");
    let key_circuit = String::from_str("circuit_name");
    let key_contracts = String::from_str("contracts");
    let key_config = String::from_str("compile_options");
    let key_deps = String::from_str("optional_dependencies_set");
    let key_log = String::from_str("log_level");
    let mut slot_entry: Option<Value> = None;
    let mut slot_circuit: Option<Value> = None;
    let mut slot_contracts: Option<Value> = None;
    let mut slot_config: Option<Value> = None;
    let mut slot_deps: Option<Value> = None;
    let mut slot_log: Option<Value> = None;
    let ghost mut j: int = 0;
    proof {
        lemma_keys_distinct();
        assert(pairs.skip(0) =~= pairs);
    }
    while fields.len() > 0
        invariant
            0 <= j <= pairs.len(),
            pairs == pairs_model(old(fields)@),
            pairs_model(fields@) == pairs.skip(j),
            key_entry@ == "entry_point"@,
            key_circuit@ == "circuit_name"@,
            key_contracts@ == "contracts"@,
            key_config@ == "compile_options"@,
            key_deps@ == "optional_dependencies_set"@,
            key_log@ == "log_level"@,
            slot_tracks(slot_entry, pairs, "entry_point"@, j),
            slot_tracks(slot_circuit, pairs, "circuit_name"@, j),
            slot_tracks(slot_contracts, pairs, "contracts"@, j),
            slot_tracks(slot_config, pairs, "compile_options"@, j),
            slot_tracks(slot_deps, pairs, "optional_dependencies_set"@, j),
            slot_tracks(slot_log, pairs, "log_level"@, j),
        decreases fields.len(),
    {
        let ghost prev = fields@;
        proof {
            assert(pairs_model(prev).len() == prev.len());
            assert(pairs_model(prev)[0] == (prev[0].0@, prev[0].1@));
            assert(pairs.skip(j)[0] == pairs[j]);
            lemma_pairs_model_tail(prev);
            lemma_skip_succ(pairs, j);
            lemma_keys_distinct();
            lemma_lookup_step(pairs, "entry_point"@, j);
            lemma_lookup_step(pairs, "circuit_name"@, j);
            lemma_lookup_step(pairs, "contracts"@, j);
            lemma_lookup_step(pairs, "compile_options"@, j);
            lemma_lookup_step(pairs, "optional_dependencies_set"@, j);
            lemma_lookup_step(pairs, "log_level"@, j);
        }
        let pair = fields.remove(0);
        let k = pair.0;
        let v = pair.1;
        let ghost vm = v@;
        proof {
            assert(pairs[j] == (k@, vm));
            assert(pairs_model(fields@) == pairs.skip(j + 1));
        }
        if k == key_entry {
            if slot_entry.is_none() {
                slot_entry = Some(v);
            }
        } else if k == key_circuit {
            if slot_circuit.is_none() {
                slot_circuit = Some(v);
            }
        } else if k == key_contracts {
            if slot_contracts.is_none() {
                slot_contracts = Some(v);
            }
        } else if k == key_config {
            if slot_config.is_none() {
                slot_config = Some(v);
            }
        } else if k == key_deps {
            if slot_deps.is_none() {
                slot_deps = Some(v);
            }
        } else if k == key_log {
            if slot_log.is_none() {
                slot_log = Some(v);
            }
        }
        proof {
            j = j + 1;
        }
    }
    proof {
        assert(pairs.skip(j).len() == 0);
        assert(j == pairs.len());
    }
    let entry_point = match take_str(slot_entry, default_entry_point()) {
        Ok(s) => s,
        Err(k) => {
            return Err(k);
        },
    };
    let circuit_name = match take_str(slot_circuit, default_circuit_name()) {
        Ok(s) => s,
        Err(k) => {
            return Err(k);
        },
    };
    let contracts = match take_bool(slot_contracts) {
        Ok(b) => b,
        Err(k) => {
            return Err(k);
        },
    };
    let compile_options = match take_config(slot_config) {
        Ok(v) => v,
        Err(k) => {
            return Err(k);
        },
    };
    let optional_dependencies_set = match take_deps(slot_deps) {
        Ok(v) => v,
        Err(k) => {
            return Err(k);
        },
    };
    let log_level = match take_str(slot_log, default_log_level()) {
        Ok(s) => s,
        Err(k) => {
            return Err(k);
        },
    };
    Ok(WASMCompileOptions {
        entry_point,
        circuit_name,
        contracts,
        compile_options,
        optional_dependencies_set,
        log_level,
    })
}

/// Resolves the untyped host payload into typed options.
///
/// `Null` stands for an absent payload and resolves to the defaults; an
/// object resolves field by field, each absent field falling back to its
/// default; any other payload, and any known field of the wrong shape, is
/// an `InvalidConfig` failure.
pub fn resolve_options(payload: Value) -> (r: Result<WASMCompileOptions, FailureKind>)
    ensures
        match r {
            Ok(o) => resolve_model(payload@) == Ok::<OptionsModel, ()>(o@),
            Err(k) => k == FailureKind::InvalidConfig && resolve_model(payload@) is Err,
        },
{
    match payload {
        Value::Null => Ok(WASMCompileOptions::default()),
        Value::Obj(mut fields) => resolve_fields(&mut fields),
        _ => Err(FailureKind::InvalidConfig),
    }
}

} // verus!
