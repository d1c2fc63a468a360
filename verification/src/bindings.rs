//! The bindings to the contracts, generated by `forge`.

use crate::text::texts;
use vstd::prelude::*;
use vstd::string::*;

verus! {

/// What is done for the bindings.
#[derive(Clone, Copy, Debug, PartialEq, Eq, Structural)]
pub enum BindingsPlan {
    /// The contracts are not there: leave a stub.
    NoContracts,
    /// `forge` is not there: leave a stub.
    NoForge,
    /// What the contracts depend on is not there: leave a stub.
    NoDependencies,
    /// Generate the bindings.
    Generate,
}

/// What is done for the bindings: they are generated where the contracts, `forge` and what the
/// contracts depend on are all there.
pub fn bindings_plan(contracts: bool, forge: bool, dependencies: bool) -> (r: BindingsPlan)
    ensures
        r == if !contracts {
            BindingsPlan::NoContracts
        } else if !forge {
            BindingsPlan::NoForge
        } else if !dependencies {
            BindingsPlan::NoDependencies
        } else {
            BindingsPlan::Generate
        },
{
    if !contracts {
        return BindingsPlan::NoContracts;
    }
    if !forge {
        return BindingsPlan::NoForge;
    }
    if !dependencies {
        return BindingsPlan::NoDependencies;
    }
    BindingsPlan::Generate
}

/// What a stub holds.
pub const STUB: &'static str = "// Auto-generated stub.\n// Contract bindings were not generated (missing dependencies or forge unavailable).\n// Initialize contract dependencies and re-run the build to regenerate bindings.\n";

/// What is written in place of the bindings: a stub, where there is no file yet.
pub fn ensure_codegen_stub(exists: bool) -> (r: Option<String>)
    ensures
        match r {
            Some(text) => !exists && text@ == STUB@,
            None => exists,
        },
{
    if exists {
        None
    } else {
        Some(STUB.to_owned())
    }
}

/// The contracts that are bound.
pub open spec fn bound_contracts() -> Seq<Seq<char>> {
    seq![
        "DisputeGameFactory"@,
        "SuperchainConfig"@,
        "MockOptimismPortal2"@,
        "AnchorStateRegistry"@,
        "AccessManager"@,
        "SP1MockVerifier"@,
        "OPSuccinctFaultDisputeGame"@,
        "ERC1967Proxy"@,
        "MockPermissionedDisputeGame"@,
        "IDisputeGameFactory"@,
        "IDisputeGame"@,
        "IFaultDisputeGame"@,
    ]
}

/// The contracts that are bound.
pub fn required_contracts() -> (r: Vec<String>)
    ensures
        texts(r@) == bound_contracts(),
{
    let mut out: Vec<String> = Vec::new();
    out.push("DisputeGameFactory".to_owned());
    out.push("SuperchainConfig".to_owned());
    out.push("MockOptimismPortal2".to_owned());
    out.push("AnchorStateRegistry".to_owned());
    out.push("AccessManager".to_owned());
    out.push("SP1MockVerifier".to_owned());
    out.push("OPSuccinctFaultDisputeGame".to_owned());
    out.push("ERC1967Proxy".to_owned());
    out.push("MockPermissionedDisputeGame".to_owned());
    out.push("IDisputeGameFactory".to_owned());
    out.push("IDisputeGame".to_owned());
    out.push("IFaultDisputeGame".to_owned());
    assert(texts(out@) == bound_contracts());
    out
}

/// Every contract that is needed is bound: the factory, the games and their registry, what they are
/// governed by, and the mocks of tests.
pub proof fn law_needed_contracts_are_bound()
    ensures
        bound_contracts().len() == 12,
        bound_contracts().contains("DisputeGameFactory"@),
        bound_contracts().contains("SuperchainConfig"@),
        bound_contracts().contains("MockOptimismPortal2"@),
        bound_contracts().contains("AnchorStateRegistry"@),
        bound_contracts().contains("AccessManager"@),
        bound_contracts().contains("SP1MockVerifier"@),
        bound_contracts().contains("OPSuccinctFaultDisputeGame"@),
        bound_contracts().contains("ERC1967Proxy"@),
        bound_contracts().contains("MockPermissionedDisputeGame"@),
        bound_contracts().contains("IDisputeGameFactory"@),
        bound_contracts().contains("IDisputeGame"@),
        bound_contracts().contains("IFaultDisputeGame"@),
{
    let bound = bound_contracts();
    assert(bound[0] == "DisputeGameFactory"@);
    assert(bound[1] == "SuperchainConfig"@);
    assert(bound[2] == "MockOptimismPortal2"@);
    assert(bound[3] == "AnchorStateRegistry"@);
    assert(bound[4] == "AccessManager"@);
    assert(bound[5] == "SP1MockVerifier"@);
    assert(bound[6] == "OPSuccinctFaultDisputeGame"@);
    assert(bound[7] == "ERC1967Proxy"@);
    assert(bound[8] == "MockPermissionedDisputeGame"@);
    assert(bound[9] == "IDisputeGameFactory"@);
    assert(bound[10] == "IDisputeGame"@);
    assert(bound[11] == "IFaultDisputeGame"@);
}

/// The texts one behind the other, with `separator` between them.
pub open spec fn separated(names: Seq<Seq<char>>, separator: Seq<char>) -> Seq<char>
    decreases names.len(),
{
    if names.len() == 0 {
        Seq::<char>::empty()
    } else if names.len() == 1 {
        names[0]
    } else {
        separated(names.drop_last(), separator) + separator + names.last()
    }
}

/// The texts one behind the other, with `separator` between them.
pub fn join_names(names: &Vec<String>, separator: &str) -> (r: String)
    ensures
        r@ == separated(texts(names@), separator@),
{
    let mut out = String::new();
    let mut i: usize = 0;
    while i < names.len()
        invariant
            i <= names.len(),
            out@ == separated(texts(names@).take(i as int), separator@),
        decreases names.len() - i,
    {
        let ghost before = out@;
        if i > 0 {
            out.append(separator);
        }
        out.append(names[i].as_str());
        assert(out@ == separated(texts(names@).take(i + 1), separator@)) by {
            let next = texts(names@).take(i + 1);
            assert(next.drop_last() == texts(names@).take(i as int));
            assert(next.last() == names@[i as int]@);
        }
        i += 1;
    }
    assert(texts(names@).take(i as int) == texts(names@));
    out
}

/// Texts are put together one behind the other: nothing gives nothing, one text itself, and each
/// further one comes behind the separator.
pub proof fn law_separator_stands_between(
    names: Seq<Seq<char>>,
    name: Seq<char>,
    separator: Seq<char>,
)
    ensures
        separated(Seq::<Seq<char>>::empty(), separator) == Seq::<char>::empty(),
        separated(seq![name], separator) == name,
        names.len() > 0 ==> separated(names.push(name), separator) == separated(names, separator)
            + separator + name,
{
    assert(names.push(name).drop_last() == names);
}

/// The pattern that selects the contracts to bind, and no others.
pub fn select_pattern() -> (r: String)
    ensures
        r@ == "^("@ + separated(bound_contracts(), "|"@) + ")$"@,
{
    let mut out = "^(".to_owned();
    out.append(join_names(&required_contracts(), "|").as_str());
    out.append(")$");
    out
}

/// The arguments of `forge` for bindings at `path`.
pub fn forge_arguments(path: &str) -> (r: Vec<String>)
    ensures
        texts(r@) == seq![
            "bind"@,
            "--bindings-path"@,
            path@,
            "--module"@,
            "--overwrite"@,
            "--skip-extra-derives"@,
            "--select"@,
            "^("@ + separated(bound_contracts(), "|"@) + ")$"@,
        ],
{
    let mut out: Vec<String> = Vec::new();
    out.push("bind".to_owned());
    out.push("--bindings-path".to_owned());
    out.push(path.to_owned());
    out.push("--module".to_owned());
    out.push("--overwrite".to_owned());
    out.push("--skip-extra-derives".to_owned());
    out.push("--select".to_owned());
    out.push(select_pattern());
    assert(texts(out@) == seq![
        "bind"@,
        "--bindings-path"@,
        path@,
        "--module"@,
        "--overwrite"@,
        "--skip-extra-derives"@,
        "--select"@,
        "^("@ + separated(bound_contracts(), "|"@) + ")$"@,
    ]);
    out
}

} // verus!
