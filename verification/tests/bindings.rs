use op_zisk::bindings::{
    bindings_plan, ensure_codegen_stub, forge_arguments, join_names, required_contracts,
    select_pattern, BindingsPlan,
};

#[test]
fn bindings_need_everything() {
    assert_eq!(bindings_plan(false, true, true), BindingsPlan::NoContracts);
    assert_eq!(bindings_plan(true, false, true), BindingsPlan::NoForge);
    assert_eq!(bindings_plan(true, true, false), BindingsPlan::NoDependencies);
    assert_eq!(bindings_plan(true, true, true), BindingsPlan::Generate);
    assert_eq!(bindings_plan(false, false, false), BindingsPlan::NoContracts);
}

#[test]
fn stub_never_overwrites() {
    assert_eq!(ensure_codegen_stub(true), None);
    let stub = ensure_codegen_stub(false).unwrap();
    assert_eq!(stub.lines().count(), 3);
    assert!(stub.lines().all(|line| line.starts_with("// ")));
}

#[test]
fn pattern_selects_the_contracts() {
    let names = required_contracts();
    assert_eq!(names.len(), 12);
    let pattern = select_pattern();
    assert_eq!(pattern, format!("^({})$", names.join("|")));
    assert!(pattern.starts_with("^(DisputeGameFactory|SuperchainConfig|"));
    assert!(pattern.ends_with("|IFaultDisputeGame)$"));
}

#[test]
fn names_are_joined_as_std_joins_them() {
    for names in [vec![], vec!["a"], vec!["a", "b", "c"], vec!["", ""]] {
        let names: Vec<String> = names.iter().map(|s| s.to_string()).collect();
        assert_eq!(join_names(&names, ", "), names.join(", "));
    }
}

#[test]
fn forge_is_told_where_to_put_the_bindings() {
    let args = forge_arguments("bindings/src/codegen");
    assert_eq!(args.len(), 8);
    assert_eq!(args[..3], ["bind", "--bindings-path", "bindings/src/codegen"]);
    assert_eq!(args[3..7], ["--module", "--overwrite", "--skip-extra-derives", "--select"]);
    assert_eq!(args[7], select_pattern());
}
