//! The compilation-unit graph of one compile invocation.
//!
//! One root binary crate at the entry point; the standard library is
//! always present as the first root dependency, followed by the optional
//! named libraries in their given order. Each library crate is rooted at
//! `<name>/lib.nr` and wired to the root by one edge labeled with the
//! dependency's public name.

use vstd::prelude::*;
use vstd::string::*;

use crate::errors::FailureKind;
use crate::options::str_seq_model;

verus! {

/// The kind of a compilation unit.
#[derive(Debug, Clone, Copy, PartialEq, Eq, Structural)]
pub enum CrateType {
    Binary,
    Library,
}

/// One compilation unit, rooted at a source path.
#[derive(Debug)]
pub struct Crate {
    pub path: String,
    pub kind: CrateType,
}

/// One dependency edge, from a dependent crate to the crate it depends
/// on, labeled with the dependency's public name. Crates are identified
/// by their index in the graph's crate list.
#[derive(Debug)]
pub struct DepEdge {
    pub from: usize,
    pub to: usize,
    pub name: String,
}

/// The crates and dependency edges assembled for one compile invocation.
#[derive(Debug)]
pub struct CrateGraph {
    pub crates: Vec<Crate>,
    pub edges: Vec<DepEdge>,
}

/// The mathematical shape of a crate.
pub ghost struct CrateModel {
    pub path: Seq<char>,
    pub kind: CrateType,
}

/// The mathematical shape of a dependency edge.
pub ghost struct EdgeModel {
    pub from: int,
    pub to: int,
    pub name: Seq<char>,
}

/// The mathematical shape of a crate graph.
pub ghost struct GraphModel {
    pub crates: Seq<CrateModel>,
    pub edges: Seq<EdgeModel>,
}

impl View for Crate {
    type V = CrateModel;

    open spec fn view(&self) -> CrateModel {
        CrateModel { path: self.path@, kind: self.kind }
    }
}

impl View for DepEdge {
    type V = EdgeModel;

    open spec fn view(&self) -> EdgeModel {
        EdgeModel { from: self.from as int, to: self.to as int, name: self.name@ }
    }
}

/// The models of a crate list, element-wise.
pub open spec fn crate_seq_model(s: Seq<Crate>) -> Seq<CrateModel> {
    Seq::new(s.len(), |i: int|
        if 0 <= i < s.len() {
            s[i]@
        } else {
            CrateModel { path: Seq::empty(), kind: CrateType::Binary }
        })
}

/// The models of an edge list, element-wise.
pub open spec fn edge_seq_model(s: Seq<DepEdge>) -> Seq<EdgeModel> {
    Seq::new(s.len(), |i: int|
        if 0 <= i < s.len() {
            s[i]@
        } else {
            EdgeModel { from: 0, to: 0, name: Seq::empty() }
        })
}

impl View for CrateGraph {
    type V = GraphModel;

    open spec fn view(&self) -> GraphModel {
        GraphModel {
            crates: crate_seq_model(self.crates@),
            edges: edge_seq_model(self.edges@),
        }
    }
}

/// Whether a dependency name can form a valid crate identifier: it must
/// be non-empty and free of path separators.
pub open spec fn valid_crate_name(name: Seq<char>) -> bool {
    name.len() > 0 && forall|i: int| 0 <= i < name.len() ==> name[i] != '/' && name[i] != '\\'
}

/// Whether every dependency name in the list is a valid crate identifier.
pub open spec fn all_deps_valid(deps: Seq<Seq<char>>) -> bool {
    forall|i: int| 0 <= i < deps.len() ==> valid_crate_name(#[trigger] deps[i])
}

/// The filesystem root of a library crate: `<name>/lib.nr`.
pub open spec fn spec_lib_path(name: Seq<char>) -> Seq<char> {
    name + "/lib.nr"@
}

/// The name of the root's `i`-th dependency: the implicit standard
/// library first, then the optional dependencies in their given order.
pub open spec fn dep_name(deps: Seq<Seq<char>>, i: int) -> Seq<char> {
    if i == 0 {
        "std"@
    } else {
        deps[i - 1]
    }
}

/// The graph built from one entry point and an ordered dependency list:
/// the root binary crate, then one library crate per dependency (the
/// standard library first), each wired to the root by one labeled edge.
pub open spec fn spec_graph(entry: Seq<char>, deps: Seq<Seq<char>>) -> GraphModel {
    GraphModel {
        crates: Seq::new(deps.len() + 2, |i: int|
            if i == 0 {
                CrateModel { path: entry, kind: CrateType::Binary }
            } else {
                CrateModel { path: spec_lib_path(dep_name(deps, i - 1)), kind: CrateType::Library }
            }),
        edges: Seq::new(deps.len() + 1, |i: int|
            EdgeModel { from: 0, to: i + 1, name: dep_name(deps, i) }),
    }
}

/// Graph-shape law: for an ordered dependency list of length `n`, the
/// built graph holds exactly `n + 2` crates (the root binary, the
/// implicit standard library, and one library per dependency, in order)
/// and `n + 1` edges, every one leaving the root, labeled `std` first and
/// then each dependency name in order.
pub proof fn law_graph_shape(entry: Seq<char>, deps: Seq<Seq<char>>)
    ensures
        spec_graph(entry, deps).crates.len() == deps.len() + 2,
        spec_graph(entry, deps).edges.len() == deps.len() + 1,
        spec_graph(entry, deps).crates[0] == (CrateModel { path: entry, kind: CrateType::Binary }),
        forall|i: int| 1 <= i < deps.len() + 2 ==> (#[trigger] spec_graph(entry, deps).crates[i]).kind == CrateType::Library,
        forall|i: int| 0 <= i < deps.len() + 1 ==> (#[trigger] spec_graph(entry, deps).edges[i]).from == 0,
        forall|i: int| 0 <= i < deps.len() + 1 ==> (#[trigger] spec_graph(entry, deps).edges[i]).to == i + 1,
        spec_graph(entry, deps).edges[0].name == "std"@,
        forall|i: int| 0 <= i < deps.len() ==> (#[trigger] spec_graph(entry, deps).edges[i + 1]).name == deps[i],
        forall|i: int| 0 <= i < deps.len() ==> (#[trigger] spec_graph(entry, deps).crates[i + 2]).path == spec_lib_path(deps[i]),
{
}

/// Edge labels are unique whenever the dependency names are pairwise
/// distinct and none of them is `std`.
pub proof fn law_edge_names_unique(entry: Seq<char>, deps: Seq<Seq<char>>)
    requires
        forall|i: int, j: int| 0 <= i < j < deps.len() ==> deps[i] != deps[j],
        forall|i: int| 0 <= i < deps.len() ==> #[trigger] deps[i] != "std"@,
    ensures
        forall|i: int, j: int| 0 <= i < j < spec_graph(entry, deps).edges.len()
            ==> (#[trigger] spec_graph(entry, deps).edges[i]).name != (#[trigger] spec_graph(entry, deps).edges[j]).name,
{
}

/// Whether a crate name is valid: non-empty and free of path separators.
fn check_crate_name(name: &String) -> (r: bool)
    ensures
        r == valid_crate_name(name@),
{
    let s = name.as_str();
    let n = s.unicode_len();
    if n == 0 {
        return false;
    }
    let mut i: usize = 0;
    while i < n
        invariant
            n == name@.len(),
            0 <= i <= n,
            s@ == name@,
            forall|t: int| 0 <= t < i ==> name@[t] != '/' && name@[t] != '\\',
        decreases n - i,
    {
        let c = s.get_char(i);
        if c == '/' || c == '\\' {
            return false;
        }
        i = i + 1;
    }
    true
}

/// The filesystem root of a library crate named `name`.
fn lib_path(name: &String) -> (r: String)
    ensures
        r@ == spec_lib_path(name@),
{
    let mut r = name.clone();
    r.append("/lib.nr");
    r
}

/// Builds the crate graph for one invocation: the root binary crate at
/// the entry point, the implicit standard library, then each optional
/// dependency in order. Fails with `UnresolvedDependency` if and only if
/// some dependency name cannot form a valid crate identifier.
pub fn build_crate_graph(entry_point: &String, optional_dependencies_set: &Vec<String>) -> (r: Result<CrateGraph, FailureKind>)
    ensures
        match r {
            Ok(g) => {
                &&& all_deps_valid(str_seq_model(optional_dependencies_set@))
                &&& g@ == spec_graph(entry_point@, str_seq_model(optional_dependencies_set@))
            },
            Err(k) => {
                &&& k == FailureKind::UnresolvedDependency
                &&& !all_deps_valid(str_seq_model(optional_dependencies_set@))
            },
        },
{
    let ghost depsm = str_seq_model(optional_dependencies_set@);
    let ghost target = spec_graph(entry_point@, depsm);
    let std_name = String::from_str("std");
    proof {
        reveal_strlit("std");
        assert("std"@.len() == 3);
        assert("std"@[0] == 's' && "std"@[1] == 't' && "std"@[2] == 'd');
        assert(valid_crate_name("std"@));
    }
    let mut crates: Vec<Crate> = Vec::new();
    let mut edges: Vec<DepEdge> = Vec::new();
    crates.push(Crate { path: entry_point.clone(), kind: CrateType::Binary });
    let std_path = lib_path(&std_name);
    crates.push(Crate { path: std_path, kind: CrateType::Library });
    edges.push(DepEdge { from: 0, to: 1, name: std_name });
    proof {
        assert(crate_seq_model(crates@) =~= target.crates.take(2));
        assert(edge_seq_model(edges@) =~= target.edges.take(1));
    }
    let mut idx: usize = 0;
    while idx < optional_dependencies_set.len()
        invariant
            0 <= idx <= optional_dependencies_set.len(),
            depsm == str_seq_model(optional_dependencies_set@),
            target == spec_graph(entry_point@, depsm),
            crates@.len() == idx + 2,
            edges@.len() == idx + 1,
            crate_seq_model(crates@) == target.crates.take(idx + 2),
            edge_seq_model(edges@) == target.edges.take(idx + 1),
            forall|t: int| 0 <= t < idx ==> valid_crate_name(#[trigger] depsm[t]),
        decreases optional_dependencies_set.len() - idx,
    {
        let name = &optional_dependencies_set[idx];
        proof {
            assert(depsm[idx as int] == name@);
        }
        if !check_crate_name(name) {
            proof {
                assert(!valid_crate_name(depsm[idx as int]));
                assert(!all_deps_valid(depsm));
            }
            return Err(FailureKind::UnresolvedDependency);
        }
        let to = crates.len();
        crates.push(Crate { path: lib_path(name), kind: CrateType::Library });
        edges.push(DepEdge { from: 0, to, name: name.clone() });
        proof {
            assert(crate_seq_model(crates@) =~= target.crates.take(idx + 3));
            assert(edge_seq_model(edges@) =~= target.edges.take(idx + 2));
        }
        idx = idx + 1;
    }
    proof {
        assert(target.crates.take(idx + 2) =~= target.crates);
        assert(target.edges.take(idx + 1) =~= target.edges);
    }
    Ok(CrateGraph { crates, edges })
}

} // verus!
