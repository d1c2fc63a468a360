//! The data fetcher: its endpoints, and the calls it makes.

use crate::config::{clone_text, is_url, ConfigError, RpcVars};
use crate::errors::FetchError;
use crate::outside::{parse_url, parsed_url};
use crate::rpc::{opt_text, RpcError};
use crate::text::{
    hex_quantity, hex_quantity_text, law_hex_quantity_denotes_its_number, numeral_value, texts, trim,
    trimmed,
};
use crate::types::{RPCMode, RollupConfig, Url};
use vstd::prelude::*;
use vstd::string::*;

verus! {

// ---------------------------------------------------------------------------------------------
// Endpoints
// ---------------------------------------------------------------------------------------------

/// The endpoints that the fetcher talks to.
#[derive(Debug)]
pub struct RPCConfig {
    pub l1_rpc: Url,
    pub l1_beacon_rpc: Option<Url>,
    pub l2_rpc: Url,
    pub l2_node_rpc: Url,
}

impl Clone for RPCConfig {
    fn clone(&self) -> (r: RPCConfig)
        ensures
            r == *self,
    {
        RPCConfig {
            l1_rpc: self.l1_rpc.clone(),
            l1_beacon_rpc: match &self.l1_beacon_rpc {
                Some(url) => Some(url.clone()),
                None => None,
            },
            l2_rpc: self.l2_rpc.clone(),
            l2_node_rpc: self.l2_node_rpc.clone(),
        }
    }
}

/// What the variable of the beacon endpoint holds, without the space around it; `None` where it
/// is not set or blank.
pub open spec fn beacon_text(vars: RpcVars) -> Option<Seq<char>> {
    match vars.l1_beacon_rpc {
        Some(text) => if trimmed(text@).len() == 0 {
            None
        } else {
            Some(trimmed(text@))
        },
        None => None,
    }
}

/// Why the variables do not name the endpoints of a fetcher; `None` where they do.
pub open spec fn rpcs_failure(vars: RpcVars) -> Option<ConfigError> {
    if vars.l1_rpc is None {
        Some(ConfigError::Missing(RPCMode::L1))
    } else if beacon_text(vars) is Some && !is_url(beacon_text(vars)->0) {
        Some(ConfigError::InvalidBeaconUrl)
    } else if vars.l2_rpc is None {
        Some(ConfigError::Missing(RPCMode::L2))
    } else if vars.l2_node_rpc is None {
        Some(ConfigError::Missing(RPCMode::L2Node))
    } else if !is_url(vars.l1_rpc->0@) {
        Some(ConfigError::InvalidUrl { endpoint: RPCMode::L1, got: vars.l1_rpc->0 })
    } else if !is_url(vars.l2_rpc->0@) {
        Some(ConfigError::InvalidUrl { endpoint: RPCMode::L2, got: vars.l2_rpc->0 })
    } else if !is_url(vars.l2_node_rpc->0@) {
        Some(ConfigError::InvalidUrl { endpoint: RPCMode::L2Node, got: vars.l2_node_rpc->0 })
    } else {
        None
    }
}

impl RPCConfig {
    /// The endpoints are the URLs that the variables spell.
    pub open spec fn spelled_by(self, vars: RpcVars) -> bool {
        &&& parsed_url(vars.l1_rpc->0@) == Some(self.l1_rpc@)
        &&& parsed_url(vars.l2_rpc->0@) == Some(self.l2_rpc@)
        &&& parsed_url(vars.l2_node_rpc->0@) == Some(self.l2_node_rpc@)
        &&& match (beacon_text(vars), self.l1_beacon_rpc) {
            (Some(text), Some(url)) => parsed_url(text) == Some(url@),
            (None, None) => true,
            _ => false,
        }
    }
}

/// The endpoints that the variables name. The beacon endpoint is optional.
pub fn get_rpcs_from_env(vars: &RpcVars) -> (r: Result<RPCConfig, ConfigError>)
    ensures
        match r {
            Ok(config) => rpcs_failure(*vars) is None && config.spelled_by(*vars),
            Err(e) => rpcs_failure(*vars) == Some(e),
        },
{
    let l1_rpc = match &vars.l1_rpc {
        Some(text) => text,
        None => {
            return Err(ConfigError::Missing(RPCMode::L1));
        },
    };
    let beacon = match &vars.l1_beacon_rpc {
        Some(text) => {
            let bare = trim(text.as_str());
            if same_as_empty(&bare) {
                None
            } else {
                Some(bare)
            }
        },
        None => None,
    };
    let l1_beacon_url = match &beacon {
        Some(text) => match parse_url(text.as_str()) {
            Ok(url) => Some(url),
            Err(_) => {
                return Err(ConfigError::InvalidBeaconUrl);
            },
        },
        None => None,
    };
    let l2_rpc = match &vars.l2_rpc {
        Some(text) => text,
        None => {
            return Err(ConfigError::Missing(RPCMode::L2));
        },
    };
    let l2_node_rpc = match &vars.l2_node_rpc {
        Some(text) => text,
        None => {
            return Err(ConfigError::Missing(RPCMode::L2Node));
        },
    };
    let l1_url = match parse_url(l1_rpc.as_str()) {
        Ok(url) => url,
        Err(_) => {
            return Err(ConfigError::InvalidUrl { endpoint: RPCMode::L1, got: l1_rpc.clone() });
        },
    };
    let l2_url = match parse_url(l2_rpc.as_str()) {
        Ok(url) => url,
        Err(_) => {
            return Err(ConfigError::InvalidUrl { endpoint: RPCMode::L2, got: l2_rpc.clone() });
        },
    };
    let l2_node_url = match parse_url(l2_node_rpc.as_str()) {
        Ok(url) => url,
        Err(_) => {
            return Err(
                ConfigError::InvalidUrl { endpoint: RPCMode::L2Node, got: l2_node_rpc.clone() },
            );
        },
    };
    Ok(
        RPCConfig {
            l1_rpc: l1_url,
            l1_beacon_rpc: l1_beacon_url,
            l2_rpc: l2_url,
            l2_node_rpc: l2_node_url,
        },
    )
}

/// Whether the text has no character.
fn same_as_empty(s: &String) -> (r: bool)
    ensures
        r == (s@.len() == 0),
{
    s.as_str().unicode_len() == 0
}

/// Where the beacon variable is not set, or holds more than space and none around its text, the
/// configuration of a run and the endpoints of a fetcher come from the same variables.
pub proof fn law_env_readers_agree(vars: RpcVars)
    requires
        vars.l1_beacon_rpc matches Some(text) ==> trimmed(text@) == text@ && text@.len() > 0,
    ensures
        rpcs_failure(vars) is None <==> crate::config::env_failure(vars) is None,
        beacon_text(vars) == opt_text(vars.l1_beacon_rpc),
{
}

/// The variables name the endpoints of a fetcher exactly where those of the three chains are set
/// and spell URLs, and that of the beacon endpoint does so, too, or is blank or not set.
pub proof fn law_variables_name_the_endpoints_iff(vars: RpcVars)
    ensures
        rpcs_failure(vars) is None <==> {
            &&& vars.l1_rpc matches Some(text) && parsed_url(text@) is Some
            &&& vars.l2_rpc matches Some(text) && parsed_url(text@) is Some
            &&& vars.l2_node_rpc matches Some(text) && parsed_url(text@) is Some
            &&& vars.l1_beacon_rpc matches Some(text) ==> trimmed(text@).len() == 0 || parsed_url(
                trimmed(text@),
            ) is Some
        },
        rpcs_failure(vars) matches Some(e) ==> match e {
            ConfigError::Missing(RPCMode::L1) => vars.l1_rpc is None,
            ConfigError::Missing(RPCMode::L2) => vars.l2_rpc is None,
            ConfigError::Missing(RPCMode::L2Node) => vars.l2_node_rpc is None,
            ConfigError::InvalidUrl { endpoint: RPCMode::L1, got } => vars.l1_rpc == Some(got)
                && parsed_url(got@) is None,
            ConfigError::InvalidUrl { endpoint: RPCMode::L2, got } => vars.l2_rpc == Some(got)
                && parsed_url(got@) is None,
            ConfigError::InvalidUrl { endpoint: RPCMode::L2Node, got } => vars.l2_node_rpc == Some(
                got,
            ) && parsed_url(got@) is None,
            ConfigError::InvalidBeaconUrl => vars.l1_beacon_rpc matches Some(text) && trimmed(
                text@,
            ).len() > 0 && parsed_url(trimmed(text@)) is None,
            _ => false,
        },
{
}

/// Each endpoint is the URL that its own variable spells; the beacon endpoint is there where its
/// variable holds more than space.
pub proof fn law_endpoints_come_from_their_variables(config: RPCConfig, vars: RpcVars)
    requires
        config.spelled_by(vars),
    ensures
        parsed_url(vars.l1_rpc->0@) == Some((config.l1_rpc.href@, config.l1_rpc.scheme@)),
        parsed_url(vars.l2_rpc->0@) == Some((config.l2_rpc.href@, config.l2_rpc.scheme@)),
        parsed_url(vars.l2_node_rpc->0@) == Some(
            (config.l2_node_rpc.href@, config.l2_node_rpc.scheme@),
        ),
        config.l1_beacon_rpc is Some <==> (vars.l1_beacon_rpc matches Some(text) && trimmed(
            text@,
        ).len() > 0),
        config.l1_beacon_rpc matches Some(url) ==> parsed_url(trimmed(vars.l1_beacon_rpc->0@))
            == Some((url.href@, url.scheme@)),
{
}

// ---------------------------------------------------------------------------------------------
// The fetcher
// ---------------------------------------------------------------------------------------------

/// The fetcher: its endpoints, and the chain configuration once it is loaded.
#[derive(Debug)]
pub struct OPZisKDataFetcher {
    pub rpc_config: RPCConfig,
    pub rollup_config: Option<RollupConfig>,
    pub rollup_config_path: Option<String>,
    pub l1_config_path: Option<String>,
}

/// A step of a procedure that needs answers from the chain: ask for `P` and come back, or end.
#[derive(Debug)]
pub enum Step<P, T> {
    Ask(P),
    Done(T),
    Fail(FetchError),
}

impl Clone for OPZisKDataFetcher {
    fn clone(&self) -> (r: OPZisKDataFetcher)
        ensures
            r == *self,
    {
        OPZisKDataFetcher {
            rpc_config: self.rpc_config.clone(),
            rollup_config: self.rollup_config,
            rollup_config_path: clone_text(&self.rollup_config_path),
            l1_config_path: clone_text(&self.l1_config_path),
        }
    }
}

impl OPZisKDataFetcher {
    /// The endpoint of the given mode; `None` where it is not configured.
    pub open spec fn endpoint(self, rpc_mode: RPCMode) -> Option<Url> {
        match rpc_mode {
            RPCMode::L1 => Some(self.rpc_config.l1_rpc),
            RPCMode::L2 => Some(self.rpc_config.l2_rpc),
            RPCMode::L1Beacon => self.rpc_config.l1_beacon_rpc,
            RPCMode::L2Node => Some(self.rpc_config.l2_node_rpc),
        }
    }

    /// The endpoint of the given mode. Only that of the beacon chain may be missing.
    pub fn get_rpc_url(&self, rpc_mode: RPCMode) -> (r: Result<&Url, FetchError>)
        ensures
            match r {
                Ok(url) => self.endpoint(rpc_mode) == Some(*url),
                Err(e) => self.endpoint(rpc_mode) is None && rpc_mode == RPCMode::L1Beacon && e
                    == FetchError::L1BeaconNotSet,
            },
    {
        match rpc_mode {
            RPCMode::L1 => Ok(&self.rpc_config.l1_rpc),
            RPCMode::L2 => Ok(&self.rpc_config.l2_rpc),
            RPCMode::L1Beacon => match &self.rpc_config.l1_beacon_rpc {
                Some(url) => Ok(url),
                None => Err(FetchError::L1BeaconNotSet),
            },
            RPCMode::L2Node => Ok(&self.rpc_config.l2_node_rpc),
        }
    }
}

/// Each mode goes to its own endpoint, and only the beacon endpoint may be missing.
pub proof fn law_mode_goes_to_its_endpoint(fetcher: OPZisKDataFetcher)
    ensures
        fetcher.endpoint(RPCMode::L1) == Some(fetcher.rpc_config.l1_rpc),
        fetcher.endpoint(RPCMode::L2) == Some(fetcher.rpc_config.l2_rpc),
        fetcher.endpoint(RPCMode::L2Node) == Some(fetcher.rpc_config.l2_node_rpc),
        fetcher.endpoint(RPCMode::L1Beacon) == fetcher.rpc_config.l1_beacon_rpc,
{
}

// ---------------------------------------------------------------------------------------------
// Calls
// ---------------------------------------------------------------------------------------------

/// A JSON-RPC call: the endpoint, the method and its text parameters.
#[derive(Debug)]
pub struct RpcCall {
    pub mode: RPCMode,
    pub method: &'static str,
    pub params: Vec<String>,
}

impl RpcCall {
    /// The call is that of `method` at `mode` with the parameters `params`.
    pub open spec fn is(self, mode: RPCMode, method: Seq<char>, params: Seq<Seq<char>>) -> bool {
        self.mode == mode && self.method@ == method && texts(self.params@) == params
    }
}

/// A call with one number as its parameter, written as a hexadecimal quantity.
fn call_with_number(mode: RPCMode, method: &'static str, n: u64) -> (r: RpcCall)
    ensures
        r.is(mode, method@, seq![hex_quantity(n as nat)]),
{
    let mut params: Vec<String> = Vec::new();
    params.push(hex_quantity_text(n));
    assert(texts(params@) == seq![hex_quantity(n as nat)]);
    RpcCall { mode, method, params }
}

/// A call without parameters.
fn call_without_parameters(mode: RPCMode, method: &'static str) -> (r: RpcCall)
    ensures
        r.is(mode, method@, seq![]),
{
    let params: Vec<String> = Vec::new();
    assert(texts(params@) == Seq::<Seq<char>>::empty());
    RpcCall { mode, method, params }
}

impl OPZisKDataFetcher {
    /// The call that gives the rollup configuration.
    pub fn rollup_config_call() -> (r: RpcCall)
        ensures
            r.is(RPCMode::L2Node, "optimism_rollupConfig"@, seq![]),
    {
        call_without_parameters(RPCMode::L2Node, "optimism_rollupConfig")
    }

    /// The call that gives the chain ID of the L2 chain.
    pub fn get_l2_chain_id() -> (r: RpcCall)
        ensures
            r.is(RPCMode::L2, "eth_chainId"@, seq![]),
    {
        call_without_parameters(RPCMode::L2, "eth_chainId")
    }

    /// The call that gives the encoding of an L2 block.
    pub fn raw_block_call(block_number: u64) -> (r: RpcCall)
        ensures
            r.is(RPCMode::L2, "debug_getRawBlock"@, seq![hex_quantity(block_number as nat)]),
    {
        call_with_number(RPCMode::L2, "debug_getRawBlock", block_number)
    }

    /// The call that gives the output of the rollup at an L2 block.
    pub fn get_l2_output_at_block(block_number: u64) -> (r: RpcCall)
        ensures
            r.is(RPCMode::L2Node, "optimism_outputAtBlock"@, seq![hex_quantity(block_number as nat)]),
    {
        call_with_number(RPCMode::L2Node, "optimism_outputAtBlock", block_number)
    }

    /// The call that gives the L2 safe head as of an L1 block.
    pub fn get_l2_safe_head_from_l1_block_number(l1_block_number: u64) -> (r: RpcCall)
        ensures
            r.is(
                RPCMode::L2Node,
                "optimism_safeHeadAtL1Block"@,
                seq![hex_quantity(l1_block_number as nat)],
            ),
    {
        call_with_number(RPCMode::L2Node, "optimism_safeHeadAtL1Block", l1_block_number)
    }

    /// What a JSON-RPC answer to `method` amounts to: a failure where it holds an error, with the
    /// message of the error where that is a text.
    pub fn fetch_rpc_data(method: &str, error: &Option<Option<String>>) -> (r: Result<(), RpcError>)
        ensures
            match r {
                Ok(()) => error is None,
                Err(e) => {
                    let message = "Error calling "@ + method@ + ": "@ + (match error->0 {
                        Some(text) => text@,
                        None => "Unknown error"@,
                    });
                    error is Some && e.summary@ == message && e.chain@ == message && e.debug@
                        == message
                },
            },
    {
        match error {
            None => Ok(()),
            Some(message) => {
                let mut out = "Error calling ".to_owned();
                out.append(method);
                out.append(": ");
                match message {
                    Some(text) => {
                        out.append(text.as_str());
                    },
                    None => {
                        out.append("Unknown error");
                    },
                }
                Err(RpcError { summary: out.clone(), chain: out.clone(), debug: out })
            },
        }
    }

    /// Where a call goes.
    pub fn fetch_rpc_data_with_mode(&self, call: &RpcCall) -> (r: Result<&Url, FetchError>)
        ensures
            match r {
                Ok(url) => self.endpoint(call.mode) == Some(*url),
                Err(e) => self.endpoint(call.mode) is None && e == FetchError::L1BeaconNotSet,
            },
    {
        self.get_rpc_url(call.mode)
    }
}

/// A call that is about a block goes to its endpoint and method with one parameter, which denotes
/// the number of that block in hexadecimal behind `0x`; a call about nothing has no parameter.
pub proof fn law_call_denotes_its_block(
    call: RpcCall,
    mode: RPCMode,
    method: Seq<char>,
    n: u64,
)
    ensures
        call.is(mode, method, seq![hex_quantity(n as nat)]) ==> {
            &&& call.mode == mode
            &&& call.method@ == method
            &&& call.params@.len() == 1
            &&& call.params@[0]@[0] == '0' && call.params@[0]@[1] == 'x'
            &&& numeral_value(call.params@[0]@.skip(2), 16) == n
        },
        call.is(mode, method, seq![]) ==> call.mode == mode && call.method@ == method
            && call.params@.len() == 0,
{
    if call.is(mode, method, seq![hex_quantity(n as nat)]) {
        assert(texts(call.params@).len() == call.params@.len());
        assert(texts(call.params@)[0] == call.params@[0]@);
        law_hex_quantity_denotes_its_number(n as nat);
    }
    if call.is(mode, method, seq![]) {
        assert(texts(call.params@).len() == call.params@.len());
    }
}

/// Calls about different blocks differ.
pub proof fn law_calls_tell_blocks_apart(
    a: RpcCall,
    b: RpcCall,
    mode: RPCMode,
    method: Seq<char>,
    m: u64,
    n: u64,
)
    requires
        a.is(mode, method, seq![hex_quantity(m as nat)]),
        b.is(mode, method, seq![hex_quantity(n as nat)]),
        m != n,
    ensures
        texts(a.params@) != texts(b.params@),
{
    if texts(a.params@) == texts(b.params@) {
        assert(seq![hex_quantity(m as nat)][0] == seq![hex_quantity(n as nat)][0]);
        crate::text::law_hex_quantity_injective(m as nat, n as nat);
    }
}

} // verus!
