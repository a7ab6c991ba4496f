//! The invocation state machine.
//!
//! One compile invocation walks `begin` (resolve the payload, build the
//! crate graph), then the driver steps: whole-graph checking, and either
//! locating the distinguished `main` function and compiling one program,
//! or compiling every contract function and flattening the result. The
//! driver itself is an external capability run by the host; the host
//! reports each outcome through `on_check`, `on_main`, `on_program` and
//! `on_contracts`, and this module decides the next state. Any failure
//! moves directly to `Failed` and nothing partial is ever handed out.

use vstd::prelude::*;

use crate::contract::{Contract, CompiledProgram, FlattenedProgram, ProgramModel, FlatModel,
    contract_seq_model, flat_seq_model, spec_flatten};
use crate::errors::FailureKind;
use crate::graph::{CrateGraph, all_deps_valid, spec_graph};
use crate::marshal::{marshal_program, marshal_flattened, spec_marshal_program, spec_marshal_flattened};
use crate::options::{WASMCompileOptions, OptionsModel, resolve_options, resolve_model};
use crate::value::{Value, ValueModel};

verus! {

/// The terminal output of a successful invocation.
pub enum Artifact {
    /// Single-program mode: one compiled program.
    Program(CompiledProgram),
    /// Multi-function mode: the flattened, uniquely named program list.
    Contracts(Vec<FlattenedProgram>),
}

/// The mathematical shape of an artifact.
pub ghost enum ArtifactModel {
    Program(ProgramModel),
    Contracts(Seq<FlatModel>),
}

impl View for Artifact {
    type V = ArtifactModel;

    open spec fn view(&self) -> ArtifactModel {
        match self {
            Artifact::Program(p) => ArtifactModel::Program(p@),
            Artifact::Contracts(l) => ArtifactModel::Contracts(flat_seq_model(l@)),
        }
    }
}

/// Where one invocation stands. Every state before `Finished` names what
/// the host must do next; `Failed` aborts the invocation at once.
pub enum Stage {
    /// The graph is built; the host must run the driver's whole-graph check.
    AwaitingCheck { options: WASMCompileOptions, graph: CrateGraph },
    /// The check passed in single-program mode; the host must locate the
    /// distinguished `main` function in the root crate.
    AwaitingMain { options: WASMCompileOptions },
    /// `main` exists; the host must run program code generation.
    AwaitingProgram { options: WASMCompileOptions },
    /// The check passed in multi-function mode; the host must run contract
    /// code generation.
    AwaitingContracts { options: WASMCompileOptions },
    /// The artifact is ready to be marshalled.
    Finished { artifact: Artifact },
    /// The invocation aborted; nothing partial is handed out.
    Failed { kind: FailureKind },
}

/// The resolved options carried by a stage that still awaits the driver.
pub open spec fn stage_options(s: Stage) -> OptionsModel {
    match s {
        Stage::AwaitingCheck { options, graph } => options@,
        Stage::AwaitingMain { options } => options@,
        Stage::AwaitingProgram { options } => options@,
        Stage::AwaitingContracts { options } => options@,
        Stage::Finished { artifact } => arbitrary(),
        Stage::Failed { kind } => arbitrary(),
    }
}

/// What `begin` promises: the payload resolved and the graph built, or
/// the exact failure, with nothing run past the first one.
pub open spec fn begin_post(s: Stage, m: ValueModel) -> bool {
    match resolve_model(m) {
        Err(()) => s matches Stage::Failed { kind: FailureKind::InvalidConfig },
        Ok(o) => if all_deps_valid(o.optional_dependencies_set) {
            match s {
                Stage::AwaitingCheck { options, graph } => {
                    &&& options@ == o
                    &&& graph@ == spec_graph(o.entry_point, o.optional_dependencies_set)
                },
                _ => false,
            }
        } else {
            s matches Stage::Failed { kind: FailureKind::UnresolvedDependency }
        },
    }
}

/// Resolves the payload and builds the crate graph: everything that runs
/// before the driver. A malformed payload is `InvalidConfig`; an invalid
/// dependency name is `UnresolvedDependency`, raised before any check.
pub fn begin(payload: Value) -> (s: Stage)
    ensures
        begin_post(s, payload@),
{
    let options = match resolve_options(payload) {
        Ok(o) => o,
        Err(kind) => {
            return Stage::Failed { kind };
        },
    };
    let graph = match crate::graph::build_crate_graph(&options.entry_point, &options.optional_dependencies_set) {
        Ok(g) => g,
        Err(kind) => {
            return Stage::Failed { kind };
        },
    };
    Stage::AwaitingCheck { options, graph }
}

/// Consumes the driver's whole-graph check outcome: failure is fatal, and
/// success selects the mode that the `contracts` flag asked for.
pub fn on_check(s: Stage, ok: bool) -> (t: Stage)
    requires
        s is AwaitingCheck,
    ensures
        !ok ==> t matches Stage::Failed { kind: FailureKind::TypeCheckFailed },
        ok && stage_options(s).contracts ==> match t {
            Stage::AwaitingContracts { options } => options@ == stage_options(s),
            _ => false,
        },
        ok && !stage_options(s).contracts ==> match t {
            Stage::AwaitingMain { options } => options@ == stage_options(s),
            _ => false,
        },
{
    match s {
        Stage::AwaitingCheck { options, graph: _graph } => {
            if !ok {
                Stage::Failed { kind: FailureKind::TypeCheckFailed }
            } else if options.contracts {
                Stage::AwaitingContracts { options }
            } else {
                Stage::AwaitingMain { options }
            }
        },
        _ => unreached(),
    }
}

/// Consumes the host's search for the distinguished `main` function: its
/// absence is `EntryPointNotFound`.
pub fn on_main(s: Stage, found: bool) -> (t: Stage)
    requires
        s is AwaitingMain,
    ensures
        !found ==> t matches Stage::Failed { kind: FailureKind::EntryPointNotFound },
        found ==> match t {
            Stage::AwaitingProgram { options } => options@ == stage_options(s),
            _ => false,
        },
{
    match s {
        Stage::AwaitingMain { options } => {
            if found {
                Stage::AwaitingProgram { options }
            } else {
                Stage::Failed { kind: FailureKind::EntryPointNotFound }
            }
        },
        _ => unreached(),
    }
}

/// Consumes the driver's program code generation outcome.
pub fn on_program(s: Stage, result: Option<CompiledProgram>) -> (t: Stage)
    requires
        s is AwaitingProgram,
    ensures
        match result {
            None => t matches Stage::Failed { kind: FailureKind::CodegenFailed },
            Some(p) => match t {
                Stage::Finished { artifact } => artifact@ == ArtifactModel::Program(p@),
                _ => false,
            },
        },
{
    match result {
        Some(p) => Stage::Finished { artifact: Artifact::Program(p) },
        None => Stage::Failed { kind: FailureKind::CodegenFailed },
    }
}

/// Whether every program name in the flattened output is distinct.
pub open spec fn names_unique(l: Seq<FlatModel>) -> bool {
    forall|i: int, j: int| 0 <= i < j < l.len() ==> l[i].program_name != l[j].program_name
}

/// Whether every program name in a flattened list is distinct.
fn check_names_unique(l: &Vec<FlattenedProgram>) -> (r: bool)
    ensures
        r == names_unique(flat_seq_model(l@)),
{
    let ghost lm = flat_seq_model(l@);
    let mut i: usize = 0;
    while i < l.len()
        invariant
            0 <= i <= l@.len(),
            lm == flat_seq_model(l@),
            forall|a: int, b: int| 0 <= a < b < l@.len() && a < i ==> lm[a].program_name != lm[b].program_name,
        decreases l@.len() - i,
    {
        let mut j: usize = i + 1;
        while j < l.len()
            invariant
                0 <= i < l@.len(),
                i < j <= l@.len(),
                lm == flat_seq_model(l@),
                forall|b: int| i < b < j ==> lm[i as int].program_name != lm[b].program_name,
            decreases l@.len() - j,
        {
            if l[i].program_name == l[j].program_name {
                proof {
                    assert(lm[i as int].program_name == lm[j as int].program_name);
                    assert(!names_unique(lm));
                }
                return false;
            }
            j = j + 1;
        }
        i = i + 1;
    }
    true
}

/// Consumes the driver's contract code generation outcome: on success the
/// contracts are flattened in order; a would-be collision among the
/// flattened names is `CodegenFailed` rather than a silent overwrite.
pub fn on_contracts(s: Stage, result: Option<Vec<Contract>>) -> (t: Stage)
    requires
        s is AwaitingContracts,
    ensures
        match result {
            None => t matches Stage::Failed { kind: FailureKind::CodegenFailed },
            Some(cs) => {
                let flat = spec_flatten(stage_options(s).circuit_name, contract_seq_model(cs@));
                if names_unique(flat) {
                    match t {
                        Stage::Finished { artifact } => artifact@ == ArtifactModel::Contracts(flat),
                        _ => false,
                    }
                } else {
                    t matches Stage::Failed { kind: FailureKind::CodegenFailed }
                }
            },
        },
{
    match s {
        Stage::AwaitingContracts { options } => {
            match result {
                Some(cs) => {
                    let flat = crate::contract::flatten_contracts(&options.circuit_name, &cs);
                    if check_names_unique(&flat) {
                        Stage::Finished { artifact: Artifact::Contracts(flat) }
                    } else {
                        Stage::Failed { kind: FailureKind::CodegenFailed }
                    }
                },
                None => Stage::Failed { kind: FailureKind::CodegenFailed },
            }
        },
        _ => unreached(),
    }
}

/// The program names of a flattened list, in order.
pub open spec fn flat_names(l: Seq<FlatModel>) -> Seq<Seq<char>> {
    Seq::new(l.len(), |i: int|
        if 0 <= i < l.len() {
            l[i].program_name
        } else {
            Seq::empty()
        })
}

/// Idempotence law: compiling identical `(entry_point, dependencies,
/// options)` inputs twice yields an identical crate-graph shape, and
/// identical driver output flattens to identical program names. Every
/// step of the invocation before and after the driver is a function of
/// its inputs alone, so two runs on equal inputs cannot diverge.
pub proof fn law_compile_idempotent(m1: ValueModel, m2: ValueModel, cs1: Seq<crate::contract::ContractModel>, cs2: Seq<crate::contract::ContractModel>)
    requires
        m1 == m2,
        cs1 == cs2,
    ensures
        resolve_model(m1) == resolve_model(m2),
        resolve_model(m1) is Ok ==> {
            let o1 = resolve_model(m1)->Ok_0;
            let o2 = resolve_model(m2)->Ok_0;
            &&& spec_graph(o1.entry_point, o1.optional_dependencies_set) == spec_graph(o2.entry_point, o2.optional_dependencies_set)
            &&& flat_names(spec_flatten(o1.circuit_name, cs1)) == flat_names(spec_flatten(o2.circuit_name, cs2))
        },
{
}

/// The exchange shape of an artifact.
pub open spec fn spec_marshal_artifact(a: ArtifactModel) -> ValueModel {
    match a {
        ArtifactModel::Program(p) => spec_marshal_program(p),
        ArtifactModel::Contracts(l) => spec_marshal_flattened(l),
    }
}

/// Marshals the terminal artifact into the host exchange format.
pub fn marshal_artifact(a: &Artifact) -> (r: Value)
    ensures
        r@ == spec_marshal_artifact(a@),
{
    match a {
        Artifact::Program(p) => marshal_program(p),
        Artifact::Contracts(l) => marshal_flattened(l),
    }
}

} // verus!
