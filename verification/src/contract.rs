//! Contracts, compiled programs, and the contract flattener.
//!
//! In multi-function mode the driver hands back a sequence of contracts,
//! each a named group of compiled functions. The flattener turns that
//! nested structure into a flat list of programs, preserving contract
//! order and then function order, and gives each entry the deterministic
//! name `circuit_name-contract_name-function_name`.

use vstd::prelude::*;
use vstd::string::*;

verus! {

/// One compiled contract function: its name and its bytecode.
#[derive(Debug)]
pub struct ContractFunction {
    pub name: String,
    pub bytecode: Vec<u8>,
}

/// One contract: a named, ordered group of compiled functions.
#[derive(Debug)]
pub struct Contract {
    pub name: String,
    pub functions: Vec<ContractFunction>,
}

/// The sole artifact of single-program mode: an opaque bytecode blob.
#[derive(Debug)]
pub struct CompiledProgram {
    pub bytecode: Vec<u8>,
}

/// One entry of the flattened output: a uniquely named program.
#[derive(Debug)]
pub struct FlattenedProgram {
    pub program_name: String,
    pub bytecode: Vec<u8>,
}

/// The mathematical shape of a contract function.
pub ghost struct FunctionModel {
    pub name: Seq<char>,
    pub bytecode: Seq<u8>,
}

/// The mathematical shape of a contract.
pub ghost struct ContractModel {
    pub name: Seq<char>,
    pub functions: Seq<FunctionModel>,
}

/// The mathematical shape of a compiled program.
pub ghost struct ProgramModel {
    pub bytecode: Seq<u8>,
}

/// The mathematical shape of one flattened entry.
pub ghost struct FlatModel {
    pub program_name: Seq<char>,
    pub bytecode: Seq<u8>,
}

/// The models of a function list, element-wise.
pub open spec fn fn_seq_model(s: Seq<ContractFunction>) -> Seq<FunctionModel> {
    Seq::new(s.len(), |i: int|
        if 0 <= i < s.len() {
            s[i]@
        } else {
            FunctionModel { name: Seq::empty(), bytecode: Seq::empty() }
        })
}

/// The models of a contract list, element-wise.
pub open spec fn contract_seq_model(s: Seq<Contract>) -> Seq<ContractModel> {
    Seq::new(s.len(), |i: int|
        if 0 <= i < s.len() {
            s[i]@
        } else {
            ContractModel { name: Seq::empty(), functions: Seq::empty() }
        })
}

/// The models of a flattened list, element-wise.
pub open spec fn flat_seq_model(s: Seq<FlattenedProgram>) -> Seq<FlatModel> {
    Seq::new(s.len(), |i: int|
        if 0 <= i < s.len() {
            s[i]@
        } else {
            FlatModel { program_name: Seq::empty(), bytecode: Seq::empty() }
        })
}

impl View for ContractFunction {
    type V = FunctionModel;

    open spec fn view(&self) -> FunctionModel {
        FunctionModel { name: self.name@, bytecode: self.bytecode@ }
    }
}

impl View for Contract {
    type V = ContractModel;

    open spec fn view(&self) -> ContractModel {
        ContractModel { name: self.name@, functions: fn_seq_model(self.functions@) }
    }
}

impl View for CompiledProgram {
    type V = ProgramModel;

    open spec fn view(&self) -> ProgramModel {
        ProgramModel { bytecode: self.bytecode@ }
    }
}

impl View for FlattenedProgram {
    type V = FlatModel;

    open spec fn view(&self) -> FlatModel {
        FlatModel { program_name: self.program_name@, bytecode: self.bytecode@ }
    }
}

/// The deterministic name of one flattened program:
/// `circuit_name-contract_name-function_name`.
pub open spec fn spec_program_name(circuit: Seq<char>, contract: Seq<char>, function: Seq<char>) -> Seq<char> {
    circuit + "-"@ + contract + "-"@ + function
}

/// The flattened entries of one contract, in function order.
pub open spec fn spec_flatten_one(circuit: Seq<char>, c: ContractModel) -> Seq<FlatModel> {
    Seq::new(c.functions.len(), |i: int|
        if 0 <= i < c.functions.len() {
            FlatModel {
                program_name: spec_program_name(circuit, c.name, c.functions[i].name),
                bytecode: c.functions[i].bytecode,
            }
        } else {
            FlatModel { program_name: Seq::empty(), bytecode: Seq::empty() }
        })
}

/// The flattened entries of a contract sequence: contract order first,
/// then function order. A contract with no functions contributes nothing.
pub open spec fn spec_flatten(circuit: Seq<char>, cs: Seq<ContractModel>) -> Seq<FlatModel>
    decreases cs.len(),
{
    if cs.len() == 0 {
        Seq::empty()
    } else {
        spec_flatten_one(circuit, cs[0]) + spec_flatten(circuit, cs.drop_first())
    }
}

/// The total number of functions in the first `i` contracts: the position
/// at which contract `i`'s own entries start in the flattened output.
pub open spec fn flat_offset(cs: Seq<ContractModel>, i: int) -> int
    decreases i,
{
    if i <= 0 {
        0
    } else {
        flat_offset(cs, i - 1) + cs[i - 1].functions.len()
    }
}

/// Extending the flattened prefix by one contract appends that contract's
/// own entries.
proof fn lemma_flatten_snoc(circuit: Seq<char>, cs: Seq<ContractModel>, i: int)
    requires
        0 <= i < cs.len(),
    ensures
        spec_flatten(circuit, cs.take(i + 1)) == spec_flatten(circuit, cs.take(i)) + spec_flatten_one(circuit, cs[i]),
    decreases i,
{
    if i == 0 {
        assert(cs.take(0) =~= Seq::<ContractModel>::empty());
        assert(cs.take(1).drop_first() =~= Seq::<ContractModel>::empty());
        assert(cs.take(1)[0] == cs[0]);
        assert(spec_flatten_one(circuit, cs[0]) + Seq::<FlatModel>::empty() =~= spec_flatten_one(circuit, cs[0]));
        assert(Seq::<FlatModel>::empty() + spec_flatten_one(circuit, cs[0]) =~= spec_flatten_one(circuit, cs[0]));
    } else {
        let tail = cs.drop_first();
        lemma_flatten_snoc(circuit, tail, i - 1);
        assert(cs.take(i + 1).drop_first() =~= tail.take(i));
        assert(cs.take(i).drop_first() =~= tail.take(i - 1));
        assert(cs.take(i + 1)[0] == cs[0]);
        assert(cs.take(i)[0] == cs[0]);
        assert(tail[i - 1] == cs[i]);
        assert(spec_flatten(circuit, cs.take(i + 1)) == spec_flatten_one(circuit, cs[0]) + (spec_flatten(circuit, tail.take(i - 1)) + spec_flatten_one(circuit, cs[i])));
        assert(spec_flatten_one(circuit, cs[0]) + (spec_flatten(circuit, tail.take(i - 1)) + spec_flatten_one(circuit, cs[i]))
            =~= (spec_flatten_one(circuit, cs[0]) + spec_flatten(circuit, tail.take(i - 1))) + spec_flatten_one(circuit, cs[i]));
    }
}

/// A contract-block offset is never negative.
proof fn lemma_offset_nonneg(cs: Seq<ContractModel>, i: int)
    ensures
        flat_offset(cs, i) >= 0,
    decreases i,
{
    if i > 0 {
        lemma_offset_nonneg(cs, i - 1);
    }
}

/// The offset into the flattened output shifts by the head contract's
/// size when the head is dropped.
proof fn lemma_offset_shift(cs: Seq<ContractModel>, i: int)
    requires
        1 <= i <= cs.len(),
    ensures
        flat_offset(cs, i) == cs[0].functions.len() + flat_offset(cs.drop_first(), i - 1),
    decreases i,
{
    if i > 1 {
        lemma_offset_shift(cs, i - 1);
        assert(cs.drop_first()[i - 2] == cs[i - 1]);
    } else {
        assert(flat_offset(cs, 0) == 0);
        assert(flat_offset(cs.drop_first(), 0) == 0);
    }
}

/// The flattened output holds exactly as many entries as the contracts
/// hold functions.
pub proof fn lemma_flatten_total_len(circuit: Seq<char>, cs: Seq<ContractModel>)
    ensures
        spec_flatten(circuit, cs).len() == flat_offset(cs, cs.len() as int),
    decreases cs.len(),
{
    if cs.len() > 0 {
        lemma_flatten_total_len(circuit, cs.drop_first());
        lemma_offset_shift(cs, cs.len() as int);
    }
}

/// Order-preservation law: the entry at position `flat_offset(cs, i) + j`
/// of the flattened output is contract `i`'s function `j`, carrying its
/// bytecode under the deterministic name. Flattening therefore lists the
/// `(contract, function)` pairs in input order: contract order first,
/// then function order.
pub proof fn law_flatten_order(circuit: Seq<char>, cs: Seq<ContractModel>, i: int, j: int)
    requires
        0 <= i < cs.len(),
        0 <= j < cs[i].functions.len(),
    ensures
        0 <= flat_offset(cs, i) + j < spec_flatten(circuit, cs).len(),
        spec_flatten(circuit, cs)[flat_offset(cs, i) + j] == (FlatModel {
            program_name: spec_program_name(circuit, cs[i].name, cs[i].functions[j].name),
            bytecode: cs[i].functions[j].bytecode,
        }),
    decreases i,
{
    lemma_flatten_total_len(circuit, cs);
    lemma_offset_nonneg(cs, i);
    if i == 0 {
        assert(spec_flatten(circuit, cs)[j] == spec_flatten_one(circuit, cs[0])[j]);
    } else {
        let tail = cs.drop_first();
        assert(tail[i - 1] == cs[i]);
        law_flatten_order(circuit, tail, i - 1, j);
        lemma_offset_shift(cs, i);
        assert(spec_flatten(circuit, cs)[flat_offset(cs, i) + j]
            == spec_flatten(circuit, tail)[flat_offset(tail, i - 1) + j]);
    }
}

/// Whether a name contains no separator character.
pub open spec fn dash_free(s: Seq<char>) -> bool {
    forall|i: int| 0 <= i < s.len() ==> s[i] != '-'
}

/// Injectivity law for the naming formula: whenever contract names are
/// free of the separator, two equal program names under one circuit name
/// can only come from the same `(contract, function)` name pair. Without
/// that proviso the claim fails: contract `a-b` with function `c` and
/// contract `a` with function `b-c` share one program name.
pub proof fn law_program_name_injective(circuit: Seq<char>, c1: Seq<char>, f1: Seq<char>, c2: Seq<char>, f2: Seq<char>)
    requires
        dash_free(c1),
        dash_free(c2),
        spec_program_name(circuit, c1, f1) == spec_program_name(circuit, c2, f2),
    ensures
        c1 == c2,
        f1 == f2,
{
    reveal_strlit("-");
    assert("-"@.len() == 1);
    assert("-"@[0] == '-');
    let sep = "-"@;
    let n1 = spec_program_name(circuit, c1, f1);
    let n2 = spec_program_name(circuit, c2, f2);
    let pre = circuit.len() as int + 1;
    assert(n1.len() == circuit.len() + 1 + c1.len() + 1 + f1.len());
    assert(n2.len() == circuit.len() + 1 + c2.len() + 1 + f2.len());
    if c1.len() < c2.len() {
        let k = pre + c1.len() as int;
        assert(n1[k] == '-');
        assert(n2[k] == c2[c1.len() as int]);
        assert(false);
    }
    if c2.len() < c1.len() {
        let k = pre + c2.len() as int;
        assert(n2[k] == '-');
        assert(n1[k] == c1[c2.len() as int]);
        assert(false);
    }
    assert forall|t: int| 0 <= t < c1.len() implies c1[t] == c2[t] by {
        assert(n1[pre + t] == c1[t]);
        assert(n2[pre + t] == c2[t]);
    }
    assert(c1 =~= c2);
    let fs = pre + c1.len() as int + 1;
    assert forall|t: int| 0 <= t < f1.len() implies f1[t] == f2[t] by {
        assert(n1[fs + t] == f1[t]);
        assert(n2[fs + t] == f2[t]);
    }
    assert(f1 =~= f2);
}

/// Injectivity across the flattened output: two positions whose
/// `(contract name, function name)` pairs differ carry different program
/// names, provided the contract names are free of the separator.
pub proof fn law_flatten_names_injective(circuit: Seq<char>, cs: Seq<ContractModel>, i1: int, j1: int, i2: int, j2: int)
    requires
        0 <= i1 < cs.len(),
        0 <= j1 < cs[i1].functions.len(),
        0 <= i2 < cs.len(),
        0 <= j2 < cs[i2].functions.len(),
        dash_free(cs[i1].name),
        dash_free(cs[i2].name),
        cs[i1].name != cs[i2].name || cs[i1].functions[j1].name != cs[i2].functions[j2].name,
    ensures
        spec_flatten(circuit, cs)[flat_offset(cs, i1) + j1].program_name
            != spec_flatten(circuit, cs)[flat_offset(cs, i2) + j2].program_name,
{
    law_flatten_order(circuit, cs, i1, j1);
    law_flatten_order(circuit, cs, i2, j2);
    if spec_flatten(circuit, cs)[flat_offset(cs, i1) + j1].program_name
        == spec_flatten(circuit, cs)[flat_offset(cs, i2) + j2].program_name {
        law_program_name_injective(circuit, cs[i1].name, cs[i1].functions[j1].name, cs[i2].name, cs[i2].functions[j2].name);
        assert(false);
    }
}

/// Copies a bytecode blob.
fn clone_bytes(b: &Vec<u8>) -> (r: Vec<u8>)
    ensures
        r@ == b@,
{
    let mut r: Vec<u8> = Vec::new();
    let mut i: usize = 0;
    while i < b.len()
        invariant
            0 <= i <= b@.len(),
            r@ == b@.take(i as int),
        decreases b@.len() - i,
    {
        r.push(b[i]);
        proof {
            assert(b@.take(i + 1) =~= b@.take(i as int).push(b@[i as int]));
        }
        i = i + 1;
    }
    proof {
        assert(b@.take(b@.len() as int) =~= b@);
    }
    r
}

/// Flattens compiled contracts into a flat list of named programs,
/// preserving contract order and then function order; each entry's name
/// is `circuit_name-contract_name-function_name`.
pub fn flatten_contracts(circuit_name: &String, contracts: &Vec<Contract>) -> (r: Vec<FlattenedProgram>)
    ensures
        flat_seq_model(r@) == spec_flatten(circuit_name@, contract_seq_model(contracts@)),
{
    let ghost csm = contract_seq_model(contracts@);
    let mut out: Vec<FlattenedProgram> = Vec::new();
    proof {
        assert(csm.take(0) =~= Seq::<ContractModel>::empty());
        assert(flat_seq_model(out@) =~= Seq::<FlatModel>::empty());
    }
    let mut ci: usize = 0;
    while ci < contracts.len()
        invariant
            0 <= ci <= contracts@.len(),
            csm == contract_seq_model(contracts@),
            flat_seq_model(out@) == spec_flatten(circuit_name@, csm.take(ci as int)),
        decreases contracts@.len() - ci,
    {
        let contract = &contracts[ci];
        let contract_id = circuit_name.clone().concat("-").concat(contract.name.as_str());
        let ghost block = spec_flatten_one(circuit_name@, csm[ci as int]);
        let mut fi: usize = 0;
        while fi < contract.functions.len()
            invariant
                0 <= fi <= contract.functions@.len(),
                csm == contract_seq_model(contracts@),
                0 <= ci < contracts@.len(),
                contract == &contracts@[ci as int],
                contract_id@ == circuit_name@ + "-"@ + contract.name@,
                block == spec_flatten_one(circuit_name@, csm[ci as int]),
                csm[ci as int] == contracts@[ci as int]@,
                flat_seq_model(out@) == spec_flatten(circuit_name@, csm.take(ci as int)) + block.take(fi as int),
            decreases contract.functions@.len() - fi,
        {
            let f = &contract.functions[fi];
            let program_name = contract_id.clone().concat("-").concat(f.name.as_str());
            let bytecode = clone_bytes(&f.bytecode);
            let entry = FlattenedProgram { program_name, bytecode };
            let ghost em = entry@;
            let ghost prev = out@;
            proof {
                assert(csm[ci as int].functions[fi as int] == contract.functions@[fi as int]@);
                assert(block[fi as int] == em);
            }
            out.push(entry);
            proof {
                assert(flat_seq_model(out@) =~= flat_seq_model(prev).push(em));
                assert(flat_seq_model(prev).push(em)
                    =~= spec_flatten(circuit_name@, csm.take(ci as int)) + block.take(fi + 1));
            }
            fi = fi + 1;
        }
        proof {
            assert(block.take(block.len() as int) =~= block);
            lemma_flatten_snoc(circuit_name@, csm, ci as int);
        }
        ci = ci + 1;
    }
    proof {
        assert(csm.take(csm.len() as int) =~= csm);
    }
    out
}

} // verus!
