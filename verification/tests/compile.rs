use noir_compile::contract::{Contract, ContractFunction, CompiledProgram, FlattenedProgram};
use noir_compile::errors::FailureKind;
use noir_compile::graph::CrateType;
use noir_compile::marshal::{marshal_program, marshal_flattened, unmarshal_program, unmarshal_flattened};
use noir_compile::pipeline::{begin, on_check, on_main, on_program, on_contracts, marshal_artifact, Artifact, Stage};
use noir_compile::value::Value;

fn obj(fields: Vec<(&str, Value)>) -> Value {
    Value::Obj(fields.into_iter().map(|(k, v)| (k.to_string(), v)).collect())
}

fn s(x: &str) -> Value {
    Value::Str(x.to_string())
}

fn strings(xs: Vec<&str>) -> Value {
    Value::Arr(xs.into_iter().map(s).collect())
}

fn contract(name: &str, functions: Vec<(&str, Vec<u8>)>) -> Contract {
    Contract {
        name: name.to_string(),
        functions: functions
            .into_iter()
            .map(|(n, bytecode)| ContractFunction { name: n.to_string(), bytecode })
            .collect(),
    }
}

#[test]
fn null_payload_resolves_to_defaults() {
    match begin(Value::Null) {
        Stage::AwaitingCheck { options, graph } => {
            assert_eq!(options.entry_point, "main.nr");
            assert_eq!(options.circuit_name, "contract");
            assert!(!options.contracts);
            assert_eq!(options.log_level, "info");
            assert!(options.optional_dependencies_set.is_empty());
            assert!(matches!(options.compile_options, Value::Obj(ref f) if f.is_empty()));
            assert_eq!(graph.crates.len(), 2);
            assert_eq!(graph.edges.len(), 1);
        }
        _ => panic!("a null payload must resolve"),
    }
}

#[test]
fn empty_object_resolves_to_defaults() {
    match begin(obj(vec![])) {
        Stage::AwaitingCheck { options, .. } => {
            assert_eq!(options.entry_point, "main.nr");
            assert_eq!(options.circuit_name, "contract");
            assert!(!options.contracts);
            assert_eq!(options.log_level, "info");
            assert!(options.optional_dependencies_set.is_empty());
        }
        _ => panic!("an empty payload must resolve"),
    }
}

#[test]
fn present_fields_pass_through_unchanged() {
    let payload = obj(vec![
        ("entry_point", s("app.nr")),
        ("circuit_name", s("Token")),
        ("contracts", Value::Bool(true)),
        ("compile_options", obj(vec![("show_ssa", Value::Bool(true))])),
        ("optional_dependencies_set", strings(vec!["math", "curves"])),
        ("log_level", s("debug")),
    ]);
    match begin(payload) {
        Stage::AwaitingCheck { options, graph } => {
            assert_eq!(options.entry_point, "app.nr");
            assert_eq!(options.circuit_name, "Token");
            assert!(options.contracts);
            assert_eq!(options.log_level, "debug");
            assert_eq!(options.optional_dependencies_set, vec!["math".to_string(), "curves".to_string()]);
            match options.compile_options {
                Value::Obj(fields) => {
                    assert_eq!(fields.len(), 1);
                    assert_eq!(fields[0].0, "show_ssa");
                }
                _ => panic!("the backend configuration must pass through"),
            }
            assert_eq!(graph.crates.len(), 4);
            assert_eq!(graph.edges.len(), 3);
        }
        _ => panic!("a well-formed payload must resolve"),
    }
}

#[test]
fn unknown_fields_are_ignored() {
    let payload = obj(vec![
        ("unknown_field", Value::Int(3)),
        ("circuit_name", s("Token")),
    ]);
    match begin(payload) {
        Stage::AwaitingCheck { options, .. } => {
            assert_eq!(options.circuit_name, "Token");
            assert_eq!(options.entry_point, "main.nr");
        }
        _ => panic!("unknown fields must not fail resolution"),
    }
}

#[test]
fn first_occurrence_of_a_repeated_field_governs() {
    let payload = obj(vec![
        ("circuit_name", s("first")),
        ("circuit_name", s("second")),
    ]);
    match begin(payload) {
        Stage::AwaitingCheck { options, .. } => {
            assert_eq!(options.circuit_name, "first");
        }
        _ => panic!("a repeated field must not fail resolution"),
    }
}

#[test]
fn graph_holds_n_plus_2_crates_and_n_plus_1_root_edges() {
    let payload = obj(vec![(
        "optional_dependencies_set",
        strings(vec!["math", "curves", "hashes"]),
    )]);
    match begin(payload) {
        Stage::AwaitingCheck { graph, .. } => {
            assert_eq!(graph.crates.len(), 5);
            assert_eq!(graph.edges.len(), 4);
            assert!(matches!(graph.crates[0].kind, CrateType::Binary));
            assert_eq!(graph.crates[0].path, "main.nr");
            for c in &graph.crates[1..] {
                assert!(matches!(c.kind, CrateType::Library));
            }
            assert_eq!(graph.crates[1].path, "std/lib.nr");
            assert_eq!(graph.crates[2].path, "math/lib.nr");
            assert_eq!(graph.crates[3].path, "curves/lib.nr");
            assert_eq!(graph.crates[4].path, "hashes/lib.nr");
            let labels: Vec<&str> = graph.edges.iter().map(|e| e.name.as_str()).collect();
            assert_eq!(labels, vec!["std", "math", "curves", "hashes"]);
            for (i, e) in graph.edges.iter().enumerate() {
                assert_eq!(e.from, 0);
                assert_eq!(e.to, i + 1);
            }
        }
        _ => panic!("the graph must build"),
    }
}

#[test]
fn missing_main_is_entry_point_not_found() {
    let s0 = begin(obj(vec![]));
    let s1 = on_check(s0, true);
    assert!(matches!(s1, Stage::AwaitingMain { .. }));
    let s2 = on_main(s1, false);
    match s2 {
        Stage::Failed { kind } => {
            assert_eq!(kind, FailureKind::EntryPointNotFound);
            assert_eq!(kind.describe(), "Could not find main function!");
        }
        _ => panic!("a missing main must abort"),
    }
}

#[test]
fn contract_mode_flattens_in_order() {
    let payload = obj(vec![
        ("contracts", Value::Bool(true)),
        ("circuit_name", s("Token")),
        ("optional_dependencies_set", strings(vec!["math"])),
    ]);
    let s0 = begin(payload);
    match &s0 {
        Stage::AwaitingCheck { graph, .. } => {
            assert_eq!(graph.crates.len(), 3);
        }
        _ => panic!("the graph must build"),
    }
    let s1 = on_check(s0, true);
    assert!(matches!(s1, Stage::AwaitingContracts { .. }));
    let b1: Vec<u8> = vec![1, 2, 3];
    let b2: Vec<u8> = vec![4, 5];
    let produced = vec![contract("Token", vec![("transfer", b1.clone()), ("balance", b2.clone())])];
    match on_contracts(s1, Some(produced)) {
        Stage::Finished { artifact: Artifact::Contracts(flat) } => {
            assert_eq!(flat.len(), 2);
            assert_eq!(flat[0].program_name, "Token-Token-transfer");
            assert_eq!(flat[0].bytecode, b1);
            assert_eq!(flat[1].program_name, "Token-Token-balance");
            assert_eq!(flat[1].bytecode, b2);
        }
        _ => panic!("contract compilation must flatten"),
    }
}

#[test]
fn bad_dependency_name_aborts_before_check() {
    let payload = obj(vec![("optional_dependencies_set", strings(vec!["bad/name"]))]);
    match begin(payload) {
        Stage::Failed { kind } => {
            assert_eq!(kind, FailureKind::UnresolvedDependency);
            assert_eq!(kind.describe(), "Could not resolve dependency");
        }
        _ => panic!("an unsafe dependency name must abort"),
    }
}

#[test]
fn backslash_and_empty_dependency_names_abort() {
    for bad in ["bad\\name", ""] {
        let payload = obj(vec![("optional_dependencies_set", strings(vec![bad]))]);
        assert!(matches!(
            begin(payload),
            Stage::Failed { kind: FailureKind::UnresolvedDependency }
        ));
    }
}

#[test]
fn non_string_entry_point_is_invalid_config() {
    let payload = obj(vec![("entry_point", Value::Int(5))]);
    match begin(payload) {
        Stage::Failed { kind } => {
            assert_eq!(kind, FailureKind::InvalidConfig);
            assert_eq!(kind.describe(), "Could not deserialize compile arguments");
        }
        _ => panic!("a mistyped field must abort"),
    }
}

#[test]
fn each_mistyped_field_is_invalid_config() {
    let cases: Vec<Value> = vec![
        obj(vec![("circuit_name", Value::Bool(true))]),
        obj(vec![("contracts", s("yes"))]),
        obj(vec![("compile_options", Value::Int(1))]),
        obj(vec![("optional_dependencies_set", s("math"))]),
        obj(vec![("optional_dependencies_set", Value::Arr(vec![Value::Int(1)]))]),
        obj(vec![("log_level", Value::Null)]),
        Value::Bool(true),
        Value::Arr(vec![]),
    ];
    for payload in cases {
        assert!(matches!(
            begin(payload),
            Stage::Failed { kind: FailureKind::InvalidConfig }
        ));
    }
}

#[test]
fn failed_check_is_type_check_failed() {
    let s0 = begin(Value::Null);
    match on_check(s0, false) {
        Stage::Failed { kind } => {
            assert_eq!(kind, FailureKind::TypeCheckFailed);
            assert_eq!(kind.describe(), "Crate check failed");
        }
        _ => panic!("a failed check must abort"),
    }
}

#[test]
fn failed_codegen_is_codegen_failed() {
    let s0 = begin(obj(vec![]));
    let s1 = on_check(s0, true);
    let s2 = on_main(s1, true);
    assert!(matches!(s2, Stage::AwaitingProgram { .. }));
    match on_program(s2, None) {
        Stage::Failed { kind } => {
            assert_eq!(kind, FailureKind::CodegenFailed);
            assert_eq!(kind.describe(), "Compilation failed");
        }
        _ => panic!("failed codegen must abort"),
    }

    let t0 = begin(obj(vec![("contracts", Value::Bool(true))]));
    let t1 = on_check(t0, true);
    assert!(matches!(
        on_contracts(t1, None),
        Stage::Failed { kind: FailureKind::CodegenFailed }
    ));
}

#[test]
fn successful_program_compilation_finishes() {
    let s0 = begin(obj(vec![]));
    let s1 = on_check(s0, true);
    let s2 = on_main(s1, true);
    let program = CompiledProgram { bytecode: vec![9, 8, 7] };
    match on_program(s2, Some(program)) {
        Stage::Finished { artifact: Artifact::Program(p) } => {
            assert_eq!(p.bytecode, vec![9, 8, 7]);
        }
        _ => panic!("successful codegen must finish"),
    }
}

#[test]
fn name_collision_is_codegen_failed() {
    let s0 = begin(obj(vec![("contracts", Value::Bool(true))]));
    let s1 = on_check(s0, true);
    let produced = vec![
        contract("Token", vec![("transfer", vec![1])]),
        contract("Token", vec![("transfer", vec![2])]),
    ];
    assert!(matches!(
        on_contracts(s1, Some(produced)),
        Stage::Failed { kind: FailureKind::CodegenFailed }
    ));
}

#[test]
fn contract_without_functions_contributes_no_entries() {
    let circuit = "contract".to_string();
    let produced = vec![
        contract("Empty", vec![]),
        contract("Token", vec![("transfer", vec![1])]),
    ];
    let flat = noir_compile::contract::flatten_contracts(&circuit, &produced);
    assert_eq!(flat.len(), 1);
    assert_eq!(flat[0].program_name, "contract-Token-transfer");
}

#[test]
fn flattening_preserves_contract_then_function_order() {
    let circuit = "c".to_string();
    let produced = vec![
        contract("A", vec![("x", vec![1]), ("y", vec![2])]),
        contract("B", vec![("z", vec![3])]),
    ];
    let flat = noir_compile::contract::flatten_contracts(&circuit, &produced);
    let names: Vec<&str> = flat.iter().map(|f| f.program_name.as_str()).collect();
    assert_eq!(names, vec!["c-A-x", "c-A-y", "c-B-z"]);
    let bytes: Vec<&Vec<u8>> = flat.iter().map(|f| &f.bytecode).collect();
    assert_eq!(bytes, vec![&vec![1u8], &vec![2u8], &vec![3u8]]);
}

#[test]
fn marshalled_flattened_list_round_trips() {
    let flat = vec![
        FlattenedProgram { program_name: "Token-Token-transfer".to_string(), bytecode: vec![0, 255, 7] },
        FlattenedProgram { program_name: "Token-Token-balance".to_string(), bytecode: vec![] },
    ];
    let marshalled = marshal_flattened(&flat);
    let back = unmarshal_flattened(&marshalled).expect("the round trip must succeed");
    assert_eq!(back.len(), flat.len());
    for (a, b) in back.iter().zip(flat.iter()) {
        assert_eq!(a.program_name, b.program_name);
        assert_eq!(a.bytecode, b.bytecode);
    }
}

#[test]
fn marshalled_program_round_trips() {
    let program = CompiledProgram { bytecode: vec![1, 0, 255, 42] };
    let marshalled = marshal_program(&program);
    let back = unmarshal_program(&marshalled).expect("the round trip must succeed");
    assert_eq!(back.bytecode, program.bytecode);
}

#[test]
fn marshalled_artifact_has_the_documented_shape() {
    let flat = vec![FlattenedProgram { program_name: "c-A-x".to_string(), bytecode: vec![2, 3] }];
    let artifact = Artifact::Contracts(flat);
    match marshal_artifact(&artifact) {
        Value::Arr(entries) => {
            assert_eq!(entries.len(), 1);
            match &entries[0] {
                Value::Arr(pair) => {
                    assert_eq!(pair.len(), 2);
                    assert!(matches!(&pair[0], Value::Str(n) if n == "c-A-x"));
                    match &pair[1] {
                        Value::Arr(bytes) => {
                            assert!(matches!(bytes[0], Value::Int(2)));
                            assert!(matches!(bytes[1], Value::Int(3)));
                        }
                        _ => panic!("bytecode must marshal as an array"),
                    }
                }
                _ => panic!("each entry must marshal as a pair"),
            }
        }
        _ => panic!("the flattened list must marshal as an array"),
    }
}

#[test]
fn unmarshalling_rejects_out_of_range_bytes() {
    let bad = Value::Arr(vec![Value::Arr(vec![s("n"), Value::Arr(vec![Value::Int(256)])])]);
    assert!(unmarshal_flattened(&bad).is_none());
    let negative = Value::Arr(vec![Value::Arr(vec![s("n"), Value::Arr(vec![Value::Int(-1)])])]);
    assert!(unmarshal_flattened(&negative).is_none());
}

#[test]
fn identical_inputs_compile_identically() {
    let make_payload = || {
        obj(vec![
            ("contracts", Value::Bool(true)),
            ("circuit_name", s("Token")),
            ("optional_dependencies_set", strings(vec!["math"])),
        ])
    };
    let produced = || vec![contract("Token", vec![("transfer", vec![1, 2])])];

    let run = |payload: Value, contracts: Vec<Contract>| -> Vec<String> {
        let s0 = begin(payload);
        let s1 = on_check(s0, true);
        match on_contracts(s1, Some(contracts)) {
            Stage::Finished { artifact: Artifact::Contracts(flat) } => {
                flat.into_iter().map(|f| f.program_name).collect()
            }
            _ => panic!("the run must finish"),
        }
    };

    let first = run(make_payload(), produced());
    let second = run(make_payload(), produced());
    assert_eq!(first, second);

    let graph_shape = |payload: Value| -> Vec<(String, usize)> {
        match begin(payload) {
            Stage::AwaitingCheck { graph, .. } => {
                graph.crates.iter().map(|c| (c.path.clone(), graph.edges.len())).collect()
            }
            _ => panic!("the graph must build"),
        }
    };
    assert_eq!(graph_shape(make_payload()), graph_shape(make_payload()));
}

#[test]
fn every_failure_kind_has_its_message() {
    let cases = [
        (FailureKind::InvalidConfig, "Could not deserialize compile arguments"),
        (FailureKind::UnresolvedDependency, "Could not resolve dependency"),
        (FailureKind::TypeCheckFailed, "Crate check failed"),
        (FailureKind::EntryPointNotFound, "Could not find main function!"),
        (FailureKind::CodegenFailed, "Compilation failed"),
        (FailureKind::SerializationFailed, "Could not serialize compile result"),
    ];
    for (kind, message) in cases {
        assert_eq!(kind.describe(), message);
    }
}

#[test]
fn default_options_match_the_documented_defaults() {
    let options = noir_compile::options::WASMCompileOptions::default();
    assert_eq!(options.entry_point, "main.nr");
    assert_eq!(options.circuit_name, "contract");
    assert!(!options.contracts);
    assert_eq!(options.log_level, "info");
    assert!(options.optional_dependencies_set.is_empty());
    assert!(matches!(options.compile_options, Value::Obj(ref f) if f.is_empty()));
}
