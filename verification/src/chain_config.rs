//! Where the configurations of the chains come from, and where they are kept.

use crate::config::{ConfigError, RpcVars};
use crate::errors::FetchError;
use crate::fetcher::{get_rpcs_from_env, rpcs_failure, OPZisKDataFetcher, RPCConfig, Step};
use crate::rpc::{opt_text, RpcError};
use crate::text::{
    chars_of, decimal, is_decimal_digit, law_numeral_round_trip, lemma_decimal_digits,
    numeral_value, push_decimal,
};
use crate::types::RollupConfig;
use vstd::prelude::*;
use vstd::string::*;

verus! {

// ---------------------------------------------------------------------------------------------
// Paths
// ---------------------------------------------------------------------------------------------

/// The path of `name` in the directory `dir`; an absolute path stands for itself.
pub open spec fn joined(dir: Seq<char>, name: Seq<char>) -> Seq<char> {
    if name.len() > 0 && name[0] == '/' {
        name
    } else if dir.len() == 0 || dir.last() == '/' {
        dir + name
    } else {
        dir + "/"@ + name
    }
}

/// The path of `name` in the directory `dir`; an absolute path stands for itself.
pub fn join_path(dir: &str, name: &str) -> (r: String)
    ensures
        r@ == joined(dir@, name@),
{
    let name_chars = chars_of(name);
    if name_chars.len() > 0 && name_chars[0] == '/' {
        return name.to_owned();
    }
    let mut out = dir.to_owned();
    let chars = chars_of(dir);
    if chars.len() > 0 && chars[chars.len() - 1] != '/' {
        out.append("/");
    }
    out.append(name);
    out
}

/// A path is the name itself where that is absolute; and else the directory, at most one slash that
/// the directory does not end with, and the name.
pub proof fn law_path_is_the_name_in_the_directory(dir: Seq<char>, name: Seq<char>)
    ensures
        name.len() > 0 && name[0] == '/' ==> joined(dir, name) == name,
        !(name.len() > 0 && name[0] == '/') ==> {
            let path = joined(dir, name);
            &&& path.take(dir.len() as int) == dir
            &&& path.skip(path.len() - name.len()) == name
            &&& dir.len() == 0 || dir[dir.len() - 1] == '/' ==> path.len() == dir.len() + name.len()
            &&& dir.len() > 0 && dir[dir.len() - 1] != '/' ==> path.len() == dir.len() + 1
                + name.len() && path[dir.len() as int] == '/'
        },
{
    reveal_strlit("/");
    let path = joined(dir, name);
    if !(name.len() > 0 && name[0] == '/') {
        assert(path.take(dir.len() as int) =~= dir);
        assert(path.skip(path.len() - name.len()) =~= name);
    }
}

/// The name of the file that holds the configuration of a chain.
pub open spec fn config_name(chain_id: u64) -> Seq<char> {
    decimal(chain_id as nat) + ".json"@
}

/// The path of the file in `dir` that holds the configuration of a chain.
pub open spec fn config_path(dir: Seq<char>, chain_id: u64) -> Seq<char> {
    joined(dir, config_name(chain_id))
}

/// The path of the file in `dir` that holds the configuration of a chain.
pub fn config_file(dir: &str, chain_id: u64) -> (r: String)
    ensures
        r@ == config_path(dir@, chain_id),
{
    let mut name = String::new();
    push_decimal(&mut name, chain_id);
    name.append(".json");
    assert(name@ == config_name(chain_id));
    join_path(dir, name.as_str())
}

/// The text of a setting, or `default` where it is not set.
pub open spec fn text_or(setting: Option<Seq<char>>, default: Seq<char>) -> Seq<char> {
    match setting {
        Some(text) => text,
        None => default,
    }
}

/// The text of a setting, or `default` where it is not set.
pub fn setting_or(setting: &Option<String>, default: &str) -> (r: String)
    ensures
        r@ == text_or(opt_text(*setting), default@),
{
    match setting {
        Some(text) => text.clone(),
        None => default.to_owned(),
    }
}

/// The configurations of different chains are kept in different files.
pub proof fn law_config_paths_differ(dir: Seq<char>, a: u64, b: u64)
    requires
        config_path(dir, a) == config_path(dir, b),
    ensures
        a == b,
{
    lemma_decimal_digits(a as nat);
    lemma_decimal_digits(b as nat);
    assert(is_decimal_digit(decimal(a as nat)[0]) && is_decimal_digit(decimal(b as nat)[0]));
    assert(config_name(a)[0] == decimal(a as nat)[0]);
    assert(config_name(b)[0] == decimal(b as nat)[0]);
    let prefix = if dir.len() == 0 || dir.last() == '/' {
        dir
    } else {
        dir + "/"@
    };
    assert(config_path(dir, a).skip(prefix.len() as int) == config_name(a));
    assert(config_path(dir, b).skip(prefix.len() as int) == config_name(b));
    let n = ".json"@.len() as int;
    assert(config_name(a).take(config_name(a).len() - n) == decimal(a as nat));
    assert(config_name(b).take(config_name(b).len() - n) == decimal(b as nat));
    law_numeral_round_trip(a as nat, 10);
    law_numeral_round_trip(b as nat, 10);
}

/// The configuration of a chain is kept in the directory, in the file that is named by the decimal
/// chain ID.
pub proof fn law_config_is_kept_under_its_chain_id(dir: Seq<char>, chain_id: u64)
    ensures
        ({
            let path = config_path(dir, chain_id);
            let stem = path.len() - 5;
            let digits = decimal(chain_id as nat).len();
            &&& path.skip(stem) == ".json"@
            &&& path.len() >= dir.len() + digits + 5
            &&& path.take(dir.len() as int) == dir
            &&& numeral_value(path.subrange(stem - digits, stem), 10) == chain_id
            &&& stem == digits || path[stem - digits - 1] == '/'
        }),
{
    reveal_strlit(".json");
    reveal_strlit("/");
    let name = config_name(chain_id);
    let path = config_path(dir, chain_id);
    let digits = decimal(chain_id as nat).len();
    lemma_decimal_digits(chain_id as nat);
    law_numeral_round_trip(chain_id as nat, 10);
    assert(is_decimal_digit(decimal(chain_id as nat)[0]));
    assert(name[0] == decimal(chain_id as nat)[0]);
    law_path_is_the_name_in_the_directory(dir, name);
    assert(path.skip(path.len() - 5) =~= ".json"@);
    assert(path.subrange(path.len() - 5 - digits, path.len() - 5) =~= decimal(chain_id as nat));
}

/// A setting counts where it is set, and the default where it is not.
pub proof fn law_setting_wins_over_the_default(text: Seq<char>, default: Seq<char>)
    ensures
        text_or(Some(text), default) == text,
        text_or(None, default) == default,
{
}

// ---------------------------------------------------------------------------------------------
// The rollup configuration
// ---------------------------------------------------------------------------------------------

/// What is done for the rollup configuration.
#[derive(Debug)]
pub enum RollupConfigProbe {
    /// Create the directory.
    CreateDir(String),
    /// Ask the rollup node for the configuration.
    Remote,
    /// Save the configuration that the rollup node gave at that path.
    Save(String),
    /// Ask the L2 endpoint for its chain ID.
    ChainId,
    /// See whether there is a file at that path.
    Exists(String),
    /// Load the configuration from that path.
    Load(String),
}

/// What has come of it so far. A failure to read or write is given by its text.
#[derive(Debug)]
pub struct RollupConfigAnswers {
    pub dir_created: Option<Result<(), String>>,
    pub remote: Option<Result<RollupConfig, RpcError>>,
    pub saved: Option<Result<(), String>>,
    /// The chain ID, or `None` where the L2 endpoint does not give it.
    pub chain_id: Option<Option<u64>>,
    /// Whether the files asked about exist, in the order in which they were asked about.
    pub exists: Vec<bool>,
    pub loaded: Option<Result<RollupConfig, String>>,
}

/// How far the procedure has come. Candidates are counted from zero.
pub ghost enum RollupConfigStage {
    CreateDir,
    Remote,
    Save,
    Saved(RollupConfig),
    ChainId,
    Exists(int),
    Load(int),
    Loaded(int, RollupConfig),
    Missing(RpcError),
    FileFailure(String),
}

/// The chains whose configuration is looked for on disk: the one that the L2 endpoint names, or
/// the common ones of development and test networks.
pub open spec fn candidates(chain_id: Option<u64>) -> Seq<u64> {
    match chain_id {
        Some(id) => seq![id],
        None => seq![901u64, 900, 420, 10],
    }
}

/// The first of the candidates from `i` on whose file exists is the one to load.
pub open spec fn candidate_stage(a: RollupConfigAnswers, i: int) -> RollupConfigStage
    decreases candidates(a.chain_id->0).len() - i,
{
    if i >= candidates(a.chain_id->0).len() {
        RollupConfigStage::Missing(a.remote->0->Err_0)
    } else if i >= a.exists@.len() {
        RollupConfigStage::Exists(i)
    } else if a.exists@[i] {
        match a.loaded {
            None => RollupConfigStage::Load(i),
            Some(Ok(config)) => RollupConfigStage::Loaded(i, config),
            Some(Err(text)) => RollupConfigStage::FileFailure(text),
        }
    } else {
        candidate_stage(a, i + 1)
    }
}

/// How far the procedure has come: the rollup node is asked first, and what it gives is saved;
/// where it fails, a file takes its place.
pub open spec fn rollup_config_stage(a: RollupConfigAnswers) -> RollupConfigStage {
    match (a.dir_created, a.remote) {
        (None, _) => RollupConfigStage::CreateDir,
        (Some(Err(text)), _) => RollupConfigStage::FileFailure(text),
        (Some(Ok(())), None) => RollupConfigStage::Remote,
        (Some(Ok(())), Some(Ok(config))) => match a.saved {
            None => RollupConfigStage::Save,
            Some(Err(text)) => RollupConfigStage::FileFailure(text),
            Some(Ok(())) => RollupConfigStage::Saved(config),
        },
        (Some(Ok(())), Some(Err(e))) => match a.chain_id {
            None => RollupConfigStage::ChainId,
            Some(chain_id) => candidate_stage(a, 0),
        },
    }
}

/// What a stage amounts to, for the configuration directory `dir`.
pub open spec fn rollup_config_step_is(
    r: Step<RollupConfigProbe, (RollupConfig, String)>,
    stage: RollupConfigStage,
    dir: Seq<char>,
    a: RollupConfigAnswers,
) -> bool {
    match stage {
        RollupConfigStage::CreateDir => r matches Step::Ask(RollupConfigProbe::CreateDir(d)) && d@
            == dir,
        RollupConfigStage::Remote => r == Step::<RollupConfigProbe, (RollupConfig, String)>::Ask(
            RollupConfigProbe::Remote,
        ),
        RollupConfigStage::Save => r matches Step::Ask(RollupConfigProbe::Save(path)) && path@
            == config_path(dir, a.remote->0->Ok_0.l2_chain_id),
        RollupConfigStage::Saved(config) => r matches Step::Done((c, path)) && c == config && path@
            == config_path(dir, config.l2_chain_id),
        RollupConfigStage::ChainId => r == Step::<RollupConfigProbe, (RollupConfig, String)>::Ask(
            RollupConfigProbe::ChainId,
        ),
        RollupConfigStage::Exists(i) => r matches Step::Ask(RollupConfigProbe::Exists(path))
            && path@ == config_path(dir, candidates(a.chain_id->0)[i]),
        RollupConfigStage::Load(i) => r matches Step::Ask(RollupConfigProbe::Load(path)) && path@
            == config_path(dir, candidates(a.chain_id->0)[i]),
        RollupConfigStage::Loaded(i, config) => r matches Step::Done((c, path)) && c == config
            && path@ == config_path(dir, candidates(a.chain_id->0)[i]),
        RollupConfigStage::Missing(e) => r matches Step::Fail(
            FetchError::RollupConfigUnavailable { cause, dir: d },
        ) && cause@ == e.summary@ && d@ == dir,
        RollupConfigStage::FileFailure(text) => r == Step::<
            RollupConfigProbe,
            (RollupConfig, String),
        >::Fail(FetchError::File(text)),
    }
}

/// The chains whose configuration is looked for on disk.
fn chain_ids_to_try(chain_id: Option<u64>) -> (r: Vec<u64>)
    ensures
        r@ == candidates(chain_id),
{
    match chain_id {
        Some(id) => vec![id],
        None => vec![901, 900, 420, 10],
    }
}

/// The directory of L2 configurations where none is set.
pub const DEFAULT_L2_CONFIG_DIR: &'static str = "configs/L2";

/// The directory of L1 configurations where none is set.
pub const DEFAULT_L1_CONFIG_DIR: &'static str = "configs/L1";

impl OPZisKDataFetcher {
    /// The rollup configuration and the path that it is kept at. The rollup node gives it, and it
    /// is saved; where the node fails, it comes from a file of an earlier run.
    pub fn fetch_and_save_rollup_config(
        l2_config_dir: &Option<String>,
        answers: &RollupConfigAnswers,
    ) -> (r: Step<RollupConfigProbe, (RollupConfig, String)>)
        ensures
            rollup_config_step_is(
                r,
                rollup_config_stage(*answers),
                text_or(opt_text(*l2_config_dir), DEFAULT_L2_CONFIG_DIR@),
                *answers,
            ),
    {
        let dir = setting_or(l2_config_dir, DEFAULT_L2_CONFIG_DIR);
        match &answers.dir_created {
            None => {
                return Step::Ask(RollupConfigProbe::CreateDir(dir));
            },
            Some(Err(text)) => {
                return Step::Fail(FetchError::File(text.clone()));
            },
            Some(Ok(())) => {},
        }
        let cause = match &answers.remote {
            None => {
                return Step::Ask(RollupConfigProbe::Remote);
            },
            Some(Ok(config)) => {
                let path = config_file(dir.as_str(), config.l2_chain_id);
                return match &answers.saved {
                    None => Step::Ask(RollupConfigProbe::Save(path)),
                    Some(Err(text)) => Step::Fail(FetchError::File(text.clone())),
                    Some(Ok(())) => Step::Done((*config, path)),
                };
            },
            Some(Err(e)) => e,
        };
        let chain_id = match &answers.chain_id {
            None => {
                return Step::Ask(RollupConfigProbe::ChainId);
            },
            Some(chain_id) => *chain_id,
        };
        let ids = chain_ids_to_try(chain_id);
        let mut i: usize = 0;
        while i < ids.len()
            invariant
                i <= ids.len(),
                ids@ == candidates(chain_id),
                answers.chain_id == Some(chain_id),
                answers.remote == Some(Err::<RollupConfig, RpcError>(*cause)),
                rollup_config_stage(*answers) == candidate_stage(*answers, i as int),
                dir@ == text_or(opt_text(*l2_config_dir), DEFAULT_L2_CONFIG_DIR@),
            decreases ids.len() - i,
        {
            let path = config_file(dir.as_str(), ids[i]);
            if i >= answers.exists.len() {
                return Step::Ask(RollupConfigProbe::Exists(path));
            }
            if answers.exists[i] {
                return match &answers.loaded {
                    None => Step::Ask(RollupConfigProbe::Load(path)),
                    Some(Ok(config)) => Step::Done((*config, path)),
                    Some(Err(text)) => Step::Fail(FetchError::File(text.clone())),
                };
            }
            i += 1;
        }
        Step::Fail(FetchError::RollupConfigUnavailable { cause: cause.summary.clone(), dir })
    }
}

proof fn lemma_candidate_stage(a: RollupConfigAnswers, i: int)
    requires
        0 <= i,
    ensures
        match candidate_stage(a, i) {
            RollupConfigStage::Exists(k) => k >= a.exists@.len(),
            RollupConfigStage::Load(_) => a.loaded is None,
            RollupConfigStage::Loaded(k, config) => a.loaded == Some(
                Ok::<RollupConfig, String>(config),
            ) && k < a.exists@.len() && a.exists@[k],
            RollupConfigStage::Missing(_) => true,
            RollupConfigStage::FileFailure(_) => true,
            _ => false,
        },
    decreases candidates(a.chain_id->0).len() - i,
{
    if i < candidates(a.chain_id->0).len() && i < a.exists@.len() && !a.exists@[i] {
        lemma_candidate_stage(a, i + 1);
    }
}

/// Nothing is done twice for the rollup configuration, so the procedure ends; and a configuration
/// is never loaded from a file that does not exist.
pub proof fn law_rollup_config_step_is_new(a: RollupConfigAnswers)
    ensures
        match rollup_config_stage(a) {
            RollupConfigStage::CreateDir => a.dir_created is None,
            RollupConfigStage::Remote => a.remote is None,
            RollupConfigStage::Save => a.saved is None,
            RollupConfigStage::ChainId => a.chain_id is None,
            RollupConfigStage::Exists(i) => i >= a.exists@.len(),
            RollupConfigStage::Load(_) => a.loaded is None,
            RollupConfigStage::Loaded(i, _) => i < a.exists@.len() && a.exists@[i],
            _ => true,
        },
{
    lemma_candidate_stage(a, 0);
}

/// The chain whose file is looked at as the one with that index: the one that the L2 endpoint names,
/// or the common ones of development and test networks in their order.
pub open spec fn is_candidate(chain_id: Option<u64>, k: int, id: u64) -> bool {
    match chain_id {
        Some(named) => k == 0 && id == named,
        None => (k == 0 && id == 901) || (k == 1 && id == 900) || (k == 2 && id == 420) || (k == 3
            && id == 10),
    }
}

proof fn lemma_candidate_index(a: RollupConfigAnswers, i: int)
    requires
        0 <= i,
        forall|j: int| 0 <= j < i && j < a.exists@.len() ==> !(#[trigger] a.exists@[j]),
        i <= a.exists@.len(),
    ensures
        match candidate_stage(a, i) {
            RollupConfigStage::Exists(k) => k == a.exists@.len() && k < candidates(
                a.chain_id->0,
            ).len() && forall|j: int| 0 <= j < k ==> !(#[trigger] a.exists@[j]),
            RollupConfigStage::Load(k) => 0 <= k < candidates(a.chain_id->0).len() && k
                < a.exists@.len() && a.exists@[k] && forall|j: int|
                0 <= j < k ==> !(#[trigger] a.exists@[j]),
            RollupConfigStage::Loaded(k, config) => 0 <= k < candidates(a.chain_id->0).len() && k
                < a.exists@.len() && a.exists@[k] && forall|j: int|
                0 <= j < k ==> !(#[trigger] a.exists@[j]),
            RollupConfigStage::Missing(e) => e == a.remote->0->Err_0 && candidates(
                a.chain_id->0,
            ).len() <= a.exists@.len() && forall|j: int|
                0 <= j < candidates(a.chain_id->0).len() ==> !(#[trigger] a.exists@[j]),
            RollupConfigStage::FileFailure(text) => a.loaded == Some(
                Err::<RollupConfig, String>(text),
            ),
            _ => false,
        },
    decreases candidates(a.chain_id->0).len() - i,
{
    if i < candidates(a.chain_id->0).len() && i < a.exists@.len() && !a.exists@[i] {
        lemma_candidate_index(a, i + 1);
    }
}

/// What the procedure does is done in the configuration directory: the rollup node is asked only
/// once the directory is there, and what it gives is saved under its own chain ID. Only where the
/// node fails are files looked at, one candidate at a time in their order, and the first that
/// exists is loaded.
pub proof fn law_rollup_config_actions_are_in_the_directory(
    r: Step<RollupConfigProbe, (RollupConfig, String)>,
    dir: Seq<char>,
    a: RollupConfigAnswers,
)
    requires
        rollup_config_step_is(r, rollup_config_stage(a), dir, a),
    ensures
        r matches Step::Ask(RollupConfigProbe::CreateDir(d)) ==> d@ == dir && a.dir_created is None,
        r matches Step::Ask(RollupConfigProbe::Remote) ==> a.dir_created matches Some(Ok(_)),
        r matches Step::Ask(RollupConfigProbe::Save(path)) ==> (a.remote matches Some(Ok(config))
            && path@ == config_path(dir, config.l2_chain_id)),
        r matches Step::Ask(RollupConfigProbe::ChainId) ==> a.remote matches Some(Err(_)),
        r matches Step::Ask(RollupConfigProbe::Exists(path)) ==> (a.remote matches Some(Err(_))) && (
        a.chain_id matches Some(named) && exists|id: u64|
            is_candidate(named, a.exists@.len() as int, id) && path@ == #[trigger] config_path(
                dir,
                id,
            )) && forall|j: int| 0 <= j < a.exists@.len() ==> !(#[trigger] a.exists@[j]),
        r matches Step::Ask(RollupConfigProbe::Load(path)) ==> (a.remote matches Some(Err(_))) && (
        a.chain_id matches Some(named) && exists|k: int, id: u64|
            {
                &&& 0 <= k < a.exists@.len()
                &&& #[trigger] a.exists@[k]
                &&& forall|j: int| 0 <= j < k ==> !(#[trigger] a.exists@[j])
                &&& is_candidate(named, k, id)
                &&& path@ == #[trigger] config_path(dir, id)
            }),
{
    if a.chain_id is Some {
        lemma_candidate_index(a, 0);
        match rollup_config_stage(a) {
            RollupConfigStage::Exists(k) => {
                let id = candidates(a.chain_id->0)[k];
                assert(is_candidate(a.chain_id->0, k, id));
            },
            RollupConfigStage::Load(k) => {
                let id = candidates(a.chain_id->0)[k];
                assert(is_candidate(a.chain_id->0, k, id));
            },
            _ => {},
        }
    }
}

/// The configuration that comes out is the one that the rollup node gave, once it was saved under
/// its chain ID, or the one that was loaded from the first file that exists; it fails with what
/// failed, and, where the node failed and no file exists, with the summary of that failure and the
/// directory.
pub proof fn law_rollup_config_is_the_given_or_the_kept_one(
    r: Step<RollupConfigProbe, (RollupConfig, String)>,
    dir: Seq<char>,
    a: RollupConfigAnswers,
)
    requires
        rollup_config_step_is(r, rollup_config_stage(a), dir, a),
    ensures
        r matches Step::Done((config, path)) ==> {
            ||| {
                &&& a.remote == Some(Ok::<RollupConfig, RpcError>(config))
                &&& a.saved matches Some(Ok(_))
                &&& path@ == config_path(dir, config.l2_chain_id)
            }
            ||| {
                &&& a.remote matches Some(Err(_))
                &&& a.loaded == Some(Ok::<RollupConfig, String>(config))
                &&& a.chain_id matches Some(named)
                &&& exists|k: int, id: u64|
                    {
                        &&& 0 <= k < a.exists@.len()
                        &&& #[trigger] a.exists@[k]
                        &&& forall|j: int| 0 <= j < k ==> !(#[trigger] a.exists@[j])
                        &&& is_candidate(named, k, id)
                        &&& path@ == #[trigger] config_path(dir, id)
                    }
            }
        },
        r matches Step::Fail(e) ==> match e {
            FetchError::File(text) => {
                ||| a.dir_created == Some(Err::<(), String>(text))
                ||| (a.remote matches Some(Ok(_))) && a.saved == Some(Err::<(), String>(text))
                ||| (a.remote matches Some(Err(_))) && a.loaded == Some(
                    Err::<RollupConfig, String>(text),
                )
            },
            FetchError::RollupConfigUnavailable { cause, dir: d } => {
                &&& a.remote matches Some(Err(failure)) && cause@ == failure.summary@
                &&& d@ == dir
                &&& a.chain_id matches Some(named)
                &&& a.exists@.len() >= (if named is Some {
                    1int
                } else {
                    4
                })
                &&& forall|j: int|
                    0 <= j < (if named is Some {
                        1int
                    } else {
                        4
                    }) ==> !(#[trigger] a.exists@[j])
            },
            _ => false,
        },
{
    if a.chain_id is Some {
        lemma_candidate_index(a, 0);
        lemma_candidate_stage(a, 0);
        if let RollupConfigStage::Loaded(k, config) = rollup_config_stage(a) {
            let id = candidates(a.chain_id->0)[k];
            assert(is_candidate(a.chain_id->0, k, id));
        }
    }
}

/// What is owed for the rollup configuration is done one thing at a time: the directory is created,
/// the rollup node is asked, what it gives is saved; and where it fails, the chain ID is asked for
/// before any file is looked at.
pub proof fn law_rollup_config_leaves_nothing_out(
    r: Step<RollupConfigProbe, (RollupConfig, String)>,
    dir: Seq<char>,
    a: RollupConfigAnswers,
)
    requires
        rollup_config_step_is(r, rollup_config_stage(a), dir, a),
    ensures
        ({
            let created = a.dir_created matches Some(Ok(_));
            let given = created && (a.remote matches Some(Ok(_)));
            let refused = created && (a.remote matches Some(Err(_)));
            &&& (r matches Step::Ask(RollupConfigProbe::CreateDir(_))) <==> a.dir_created is None
            &&& (r matches Step::Ask(RollupConfigProbe::Remote)) <==> created && a.remote is None
            &&& (r matches Step::Ask(RollupConfigProbe::Save(_))) <==> given && a.saved is None
            &&& (r matches Step::Ask(RollupConfigProbe::ChainId)) <==> refused && a.chain_id is None
            &&& (r matches Step::Ask(RollupConfigProbe::Exists(_))) || (r matches Step::Ask(
                RollupConfigProbe::Load(_),
            )) ==> refused && a.chain_id is Some
            &&& given && (a.saved matches Some(Ok(_))) ==> r is Done
            &&& r is Done ==> created
        }),
{
    if a.chain_id is Some {
        lemma_candidate_index(a, 0);
    }
}

/// A configuration that was saved is found again when the rollup node fails, as long as the L2
/// endpoint names the same chain.
pub proof fn law_saved_config_is_found_again(
    dir: Seq<char>,
    config: RollupConfig,
    saved: Step<RollupConfigProbe, (RollupConfig, String)>,
    a: RollupConfigAnswers,
    later: Step<RollupConfigProbe, (RollupConfig, String)>,
    b: RollupConfigAnswers,
)
    requires
        rollup_config_stage(a) == RollupConfigStage::Saved(config),
        rollup_config_step_is(saved, rollup_config_stage(a), dir, a),
        b.dir_created matches Some(Ok(_)),
        b.remote matches Some(Err(_)),
        b.chain_id == Some(Some(config.l2_chain_id)),
        b.exists@ == seq![true],
        b.loaded == Some(Ok::<RollupConfig, String>(config)),
        rollup_config_step_is(later, rollup_config_stage(b), dir, b),
    ensures
        saved matches Step::Done((c, path)) && later matches Step::Done((c2, path2)) && c == c2
            && path@ == path2@,
{
    assert(candidate_stage(b, 0) == RollupConfigStage::Loaded(0, config));
}

// ---------------------------------------------------------------------------------------------
// The L1 configuration
// ---------------------------------------------------------------------------------------------

/// What is done for the L1 configuration.
#[derive(Debug)]
pub enum L1ConfigProbe {
    /// See whether there is a file at that path.
    Exists(String),
    /// Load the file at that path.
    Load(String),
    /// Look the chain up among the built-in ones.
    Registry(u64),
    /// Create the directory.
    CreateDir(String),
    /// Save the built-in configuration at that path.
    Save(String),
}

/// What has come of it so far. A failure to read or write is given by its text.
#[derive(Debug)]
pub struct L1ConfigAnswers {
    pub exists: Option<bool>,
    pub loaded: Option<Result<(), String>>,
    pub registered: Option<bool>,
    pub dir_created: Option<Result<(), String>>,
    pub saved: Option<Result<(), String>>,
}

/// The file of an earlier run is used where there is one; else the built-in configuration is
/// saved, where there is one.
pub open spec fn l1_config_step_is(
    r: Step<L1ConfigProbe, String>,
    chain_id: u64,
    dir: Seq<char>,
    a: L1ConfigAnswers,
) -> bool {
    let path = config_path(dir, chain_id);
    match (a.exists, a.loaded, a.registered, a.dir_created, a.saved) {
        (None, _, _, _, _) => r matches Step::Ask(L1ConfigProbe::Exists(p)) && p@ == path,
        (Some(true), None, _, _, _) => r matches Step::Ask(L1ConfigProbe::Load(p)) && p@ == path,
        (Some(true), Some(Err(text)), _, _, _) => r == Step::<L1ConfigProbe, String>::Fail(
            FetchError::File(text),
        ),
        (Some(true), Some(Ok(())), _, _, _) => r matches Step::Done(p) && p@ == path,
        (Some(false), _, None, _, _) => r == Step::<L1ConfigProbe, String>::Ask(
            L1ConfigProbe::Registry(chain_id),
        ),
        (Some(false), _, Some(false), _, _) => r matches Step::Fail(
            FetchError::L1ConfigMissing { chain_id: id, path: p },
        ) && id == chain_id && p@ == path,
        (Some(false), _, Some(true), None, _) => r matches Step::Ask(L1ConfigProbe::CreateDir(d))
            && d@ == dir,
        (Some(false), _, Some(true), Some(Err(_)), _) => r matches Step::Fail(
            FetchError::CreateDir(d),
        ) && d@ == dir,
        (Some(false), _, Some(true), Some(Ok(())), None) => r matches Step::Ask(
            L1ConfigProbe::Save(p),
        ) && p@ == path,
        (Some(false), _, Some(true), Some(Ok(())), Some(Err(text))) => r == Step::<
            L1ConfigProbe,
            String,
        >::Fail(FetchError::File(text)),
        (Some(false), _, Some(true), Some(Ok(())), Some(Ok(()))) => r matches Step::Done(p) && p@
            == path,
    }
}

impl OPZisKDataFetcher {
    /// The path that the configuration of the L1 chain of the rollup is kept at.
    pub fn fetch_and_save_l1_config(
        l1_config_dir: &Option<String>,
        rollup_config: &RollupConfig,
        answers: &L1ConfigAnswers,
    ) -> (r: Step<L1ConfigProbe, String>)
        ensures
            l1_config_step_is(
                r,
                rollup_config.l1_chain_id,
                text_or(opt_text(*l1_config_dir), DEFAULT_L1_CONFIG_DIR@),
                *answers,
            ),
    {
        let dir = setting_or(l1_config_dir, DEFAULT_L1_CONFIG_DIR);
        let path = config_file(dir.as_str(), rollup_config.l1_chain_id);
        match answers.exists {
            None => {
                return Step::Ask(L1ConfigProbe::Exists(path));
            },
            Some(true) => {
                return match &answers.loaded {
                    None => Step::Ask(L1ConfigProbe::Load(path)),
                    Some(Err(text)) => Step::Fail(FetchError::File(text.clone())),
                    Some(Ok(())) => Step::Done(path),
                };
            },
            Some(false) => {},
        }
        match answers.registered {
            None => {
                return Step::Ask(L1ConfigProbe::Registry(rollup_config.l1_chain_id));
            },
            Some(false) => {
                return Step::Fail(
                    FetchError::L1ConfigMissing { chain_id: rollup_config.l1_chain_id, path },
                );
            },
            Some(true) => {},
        }
        match &answers.dir_created {
            None => {
                return Step::Ask(L1ConfigProbe::CreateDir(dir));
            },
            Some(Err(_)) => {
                return Step::Fail(FetchError::CreateDir(dir));
            },
            Some(Ok(())) => {},
        }
        match &answers.saved {
            None => Step::Ask(L1ConfigProbe::Save(path)),
            Some(Err(text)) => Step::Fail(FetchError::File(text.clone())),
            Some(Ok(())) => Step::Done(path),
        }
    }
}

/// The L1 configuration is that of the L1 chain of the rollup, in the file of that chain ID: it is
/// looked for there, loaded from there where it exists, and else the built-in one is saved there;
/// it is there once it was loaded or saved.
pub proof fn law_l1_config_is_that_of_the_chain(
    r: Step<L1ConfigProbe, String>,
    chain_id: u64,
    dir: Seq<char>,
    a: L1ConfigAnswers,
)
    requires
        l1_config_step_is(r, chain_id, dir, a),
    ensures
        r matches Step::Ask(L1ConfigProbe::Exists(path)) ==> path@ == config_path(dir, chain_id)
            && a.exists is None,
        r matches Step::Ask(L1ConfigProbe::Load(path)) ==> path@ == config_path(dir, chain_id)
            && a.exists == Some(true) && a.loaded is None,
        r matches Step::Ask(L1ConfigProbe::Registry(id)) ==> id == chain_id && a.exists == Some(
            false,
        ) && a.registered is None,
        r matches Step::Ask(L1ConfigProbe::CreateDir(d)) ==> d@ == dir && a.registered == Some(true)
            && a.exists == Some(false) && a.dir_created is None,
        r matches Step::Ask(L1ConfigProbe::Save(path)) ==> path@ == config_path(dir, chain_id)
            && a.registered == Some(true) && a.exists == Some(false) && (
        a.dir_created matches Some(Ok(_))) && a.saved is None,
        r is Done <==> (a.exists == Some(true) && (a.loaded matches Some(Ok(_)))) || (a.exists
            == Some(false) && a.registered == Some(true) && (a.dir_created matches Some(Ok(_))) && (
        a.saved matches Some(Ok(_)))),
        r matches Step::Done(path) ==> path@ == config_path(dir, chain_id),
        r matches Step::Fail(e) ==> match e {
            FetchError::File(text) => (a.exists == Some(true) && a.loaded == Some(
                Err::<(), String>(text),
            )) || (a.exists == Some(false) && a.saved == Some(Err::<(), String>(text))),
            FetchError::L1ConfigMissing { chain_id: id, path } => id == chain_id && path@
                == config_path(dir, chain_id) && a.exists == Some(false) && a.registered == Some(
                false,
            ),
            FetchError::CreateDir(d) => d@ == dir && (a.dir_created matches Some(Err(_))),
            _ => false,
        },
{
}

// ---------------------------------------------------------------------------------------------
// A fetcher with its configuration
// ---------------------------------------------------------------------------------------------

/// What a fetcher needs besides its endpoints.
#[derive(Clone, Copy, Debug)]
pub enum InitProbe {
    /// The rollup configuration.
    RollupConfig,
    /// The configuration of the L1 chain of that rollup.
    L1Config(RollupConfig),
}

/// What has come of it so far: the rollup configuration and its path, and the path of the L1
/// configuration.
#[derive(Debug)]
pub struct InitAnswers {
    pub rollup_config: Option<Result<(RollupConfig, String), FetchError>>,
    pub l1_config: Option<Result<String, FetchError>>,
}

/// The fetcher for the endpoints, once the rollup configuration is there and kept in its file: it
/// is asked for where it is `None`.
pub open spec fn new_step(
    rpc_config: RPCConfig,
    rollup_config: Option<Result<(RollupConfig, String), FetchError>>,
) -> Step<(), OPZisKDataFetcher> {
    match rollup_config {
        None => Step::Ask(()),
        Some(Err(e)) => Step::Fail(e),
        Some(Ok((config, path))) => Step::Done(
            OPZisKDataFetcher {
                rpc_config,
                rollup_config: Some(config),
                rollup_config_path: Some(path),
                l1_config_path: None,
            },
        ),
    }
}

/// The fetcher for the endpoints, once both configurations are there.
pub open spec fn init_step(rpc_config: RPCConfig, a: InitAnswers) -> Step<
    InitProbe,
    OPZisKDataFetcher,
> {
    match (a.rollup_config, a.l1_config) {
        (None, _) => Step::Ask(InitProbe::RollupConfig),
        (Some(Err(e)), _) => Step::Fail(e),
        (Some(Ok((config, _))), None) => Step::Ask(InitProbe::L1Config(config)),
        (Some(Ok(_)), Some(Err(e))) => Step::Fail(e),
        (Some(Ok((config, path))), Some(Ok(l1_path))) => Step::Done(
            OPZisKDataFetcher {
                rpc_config,
                rollup_config: Some(config),
                rollup_config_path: Some(path),
                l1_config_path: Some(l1_path),
            },
        ),
    }
}

impl OPZisKDataFetcher {
    /// A fetcher for the endpoints that the variables name, with the rollup configuration of the
    /// chain saved to its file: `rollup_config` is what
    /// [`fetch_and_save_rollup_config`](Self::fetch_and_save_rollup_config) ended with.
    pub fn new(
        vars: &RpcVars,
        rollup_config: &Option<Result<(RollupConfig, String), FetchError>>,
    ) -> (r: Result<Step<(), OPZisKDataFetcher>, ConfigError>)
        ensures
            match r {
                Ok(step) => rpcs_failure(*vars) is None && exists|rpc_config: RPCConfig|
                    #[trigger] rpc_config.spelled_by(*vars) && step == new_step(
                        rpc_config,
                        *rollup_config,
                    ),
                Err(e) => rpcs_failure(*vars) == Some(e),
            },
    {
        let rpc_config = match get_rpcs_from_env(vars) {
            Ok(rpc_config) => rpc_config,
            Err(e) => {
                return Err(e);
            },
        };
        let ghost endpoints = rpc_config;
        let step = match rollup_config {
            None => Step::Ask(()),
            Some(Err(e)) => Step::Fail(e.clone()),
            Some(Ok((config, path))) => Step::Done(
                OPZisKDataFetcher {
                    rpc_config,
                    rollup_config: Some(*config),
                    rollup_config_path: Some(path.clone()),
                    l1_config_path: None,
                },
            ),
        };
        assert(endpoints.spelled_by(*vars) && step == new_step(endpoints, *rollup_config));
        Ok(step)
    }

    /// A fetcher with its configuration, for the endpoints that the variables name.
    pub fn new_with_rollup_config(vars: &RpcVars, answers: &InitAnswers) -> (r: Result<
        Step<InitProbe, OPZisKDataFetcher>,
        ConfigError,
    >)
        ensures
            match r {
                Ok(step) => rpcs_failure(*vars) is None && exists|rpc_config: RPCConfig|
                    #[trigger] rpc_config.spelled_by(*vars) && step == init_step(
                        rpc_config,
                        *answers,
                    ),
                Err(e) => rpcs_failure(*vars) == Some(e),
            },
    {
        match get_rpcs_from_env(vars) {
            Ok(rpc_config) => Ok(Self::new_with_rpc_config_internal(rpc_config, answers)),
            Err(e) => Err(e),
        }
    }

    /// A fetcher with its configuration, for the endpoints of a run.
    pub fn new_with_rpc_config(rpc_config: crate::config::RPCConfig, answers: &InitAnswers) -> (r:
        Step<InitProbe, OPZisKDataFetcher>)
        ensures
            r == init_step(
                RPCConfig {
                    l1_rpc: rpc_config.l1_rpc,
                    l1_beacon_rpc: rpc_config.l1_beacon_rpc,
                    l2_rpc: rpc_config.l2_rpc,
                    l2_node_rpc: rpc_config.l2_node_rpc,
                },
                *answers,
            ),
    {
        Self::new_with_rpc_config_internal(
            RPCConfig {
                l1_rpc: rpc_config.l1_rpc,
                l1_beacon_rpc: rpc_config.l1_beacon_rpc,
                l2_rpc: rpc_config.l2_rpc,
                l2_node_rpc: rpc_config.l2_node_rpc,
            },
            answers,
        )
    }

    /// A fetcher with its configuration, for its endpoints.
    fn new_with_rpc_config_internal(rpc_config: RPCConfig, answers: &InitAnswers) -> (r: Step<
        InitProbe,
        OPZisKDataFetcher,
    >)
        ensures
            r == init_step(rpc_config, *answers),
    {
        match &answers.rollup_config {
            None => Step::Ask(InitProbe::RollupConfig),
            Some(Err(e)) => Step::Fail(e.clone()),
            Some(Ok((config, path))) => match &answers.l1_config {
                None => Step::Ask(InitProbe::L1Config(*config)),
                Some(Err(e)) => Step::Fail(e.clone()),
                Some(Ok(l1_path)) => Step::Done(
                    OPZisKDataFetcher {
                        rpc_config,
                        rollup_config: Some(*config),
                        rollup_config_path: Some(path.clone()),
                        l1_config_path: Some(l1_path.clone()),
                    },
                ),
            },
        }
    }
}

/// Nothing is asked twice for the configuration of a fetcher, and a fetcher with its configuration
/// holds all of it.
pub proof fn law_configured_fetcher_is_complete(rpc_config: RPCConfig, a: InitAnswers)
    ensures
        match init_step(rpc_config, a) {
            Step::Ask(InitProbe::RollupConfig) => a.rollup_config is None,
            Step::Ask(InitProbe::L1Config(_)) => a.l1_config is None,
            Step::Done(fetcher) => fetcher.rollup_config is Some && fetcher.rollup_config_path
                is Some && fetcher.l1_config_path is Some,
            Step::Fail(_) => true,
        },
{
}

/// A fetcher holds the endpoints that it was made for and the configurations that were answered,
/// each with its own path; the L1 configuration is asked for by the rollup configuration; the
/// first failure is handed on.
pub proof fn law_fetcher_holds_what_was_answered(rpc_config: RPCConfig, a: InitAnswers)
    ensures
        a.rollup_config is None ==> init_step(rpc_config, a) == Step::<
            InitProbe,
            OPZisKDataFetcher,
        >::Ask(InitProbe::RollupConfig),
        init_step(rpc_config, a) matches Step::Ask(InitProbe::L1Config(config)) ==> (
        a.rollup_config matches Some(Ok((answered, _))) && config == answered),
        init_step(rpc_config, a) is Done <==> (a.rollup_config matches Some(Ok(_))) && (
        a.l1_config matches Some(Ok(_))),
        init_step(rpc_config, a) matches Step::Done(fetcher) ==> {
            &&& a.rollup_config matches Some(Ok((config, path)))
            &&& a.l1_config matches Some(Ok(l1_path))
            &&& fetcher.rpc_config == rpc_config
            &&& fetcher.rollup_config == Some(config)
            &&& fetcher.rollup_config_path == Some(path)
            &&& fetcher.l1_config_path == Some(l1_path)
        },
        init_step(rpc_config, a) matches Step::Fail(e) ==> a.rollup_config == Some(
            Err::<(RollupConfig, String), FetchError>(e),
        ) || ((a.rollup_config matches Some(Ok(_))) && a.l1_config == Some(
            Err::<String, FetchError>(e),
        )),
        new_step(rpc_config, a.rollup_config) is Done <==> (a.rollup_config matches Some(Ok(_))),
        new_step(rpc_config, a.rollup_config) matches Step::Done(fetcher) ==> {
            &&& a.rollup_config matches Some(Ok((config, path)))
            &&& fetcher.rpc_config == rpc_config
            &&& fetcher.rollup_config == Some(config)
            &&& fetcher.rollup_config_path == Some(path)
            &&& fetcher.l1_config_path is None
        },
        new_step(rpc_config, a.rollup_config) matches Step::Fail(e) ==> a.rollup_config == Some(
            Err::<(RollupConfig, String), FetchError>(e),
        ),
{
}

/// A new fetcher holds the rollup configuration of its chain, and the path that it was saved to or
/// loaded from.
pub proof fn law_new_fetcher_has_its_rollup_config(
    dir: Seq<char>,
    a: RollupConfigAnswers,
    saved: Step<RollupConfigProbe, (RollupConfig, String)>,
    rpc_config: RPCConfig,
    config: RollupConfig,
    path: String,
)
    requires
        rollup_config_step_is(saved, rollup_config_stage(a), dir, a),
        saved == Step::<RollupConfigProbe, (RollupConfig, String)>::Done((config, path)),
    ensures
        new_step(rpc_config, Some(Ok::<(RollupConfig, String), FetchError>((config, path))))
            matches Step::Done(fetcher) && fetcher.rpc_config == rpc_config
            && fetcher.rollup_config == Some(config) && fetcher.rollup_config_path == Some(path),
        (a.remote matches Some(Ok(remote)) && a.saved matches Some(Ok(_)) && config == remote
            && path@ == config_path(dir, config.l2_chain_id)) || (a.loaded == Some(
            Ok::<RollupConfig, String>(config),
        ) && exists|id: u64| path@ == #[trigger] config_path(dir, id)),
{
    lemma_candidate_stage(a, 0);
    if let RollupConfigStage::Loaded(i, loaded) = rollup_config_stage(a) {
        assert(path@ == config_path(dir, candidates(a.chain_id->0)[i]));
    }
}

} // verus!
