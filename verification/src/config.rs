//! The configuration of a proving run: endpoints, paths, block range and health.

use crate::errors::{ends_with, lemma_ends_with, lemma_grouping, lemma_message};
use crate::outside::{parse_url, parsed_url};
use crate::rpc::opt_text;
use crate::text::{
    contains_text, decimal, law_truth_values_are_read_off_their_names, lemma_contains_between,
    occurs_at, parse_bool, parsed_bool, push_decimal, same_text, trim_end_matches,
    without_trailing,
};
use crate::types::{RPCMode, Url};
use vstd::prelude::*;
use vstd::string::*;

verus! {

// ---------------------------------------------------------------------------------------------
// Errors
// ---------------------------------------------------------------------------------------------

/// Why a configuration is of no use.
#[derive(Debug)]
pub enum ConfigError {
    /// The variable of the endpoint is not set.
    Missing(RPCMode),
    /// The variable of the endpoint holds no URL.
    InvalidUrl { endpoint: RPCMode, got: String },
    /// `L1_BEACON_RPC` is set and holds no URL.
    InvalidBeaconUrl,
    /// The devnet API did not answer.
    ApiUnreachable,
    /// The devnet API answered with that status.
    ApiStatus(String),
    /// The answer of the devnet API does not name the endpoints.
    ApiUnreadable,
    /// The devnet API names an endpoint that is no URL.
    InvalidUrlFromApi { endpoint: RPCMode, got: String },
    /// The devnet API names a beacon endpoint that is no URL.
    InvalidBeaconUrlFromApi,
    /// The endpoint is spoken to in another protocol.
    NotHttp { endpoint: RPCMode, got: String },
    /// The block range is empty.
    InvalidRange { start: u64, end: u64 },
    /// The endpoint does not answer.
    Unavailable(RPCMode),
    /// The configuration file at that path cannot be read.
    UnreadableFile(String),
    /// The configuration file at that path holds no configuration.
    MalformedFile(String),
}

impl RPCMode {
    /// The variable that names the endpoint.
    pub open spec fn variable(self) -> Seq<char> {
        match self {
            RPCMode::L1 => "L1_RPC"@,
            RPCMode::L1Beacon => "L1_BEACON_RPC"@,
            RPCMode::L2 => "L2_RPC"@,
            RPCMode::L2Node => "L2_NODE_RPC"@,
        }
    }

    /// The variable that names the endpoint.
    pub fn variable_name(&self) -> (r: &'static str)
        ensures
            r@ == self.variable(),
    {
        match self {
            RPCMode::L1 => "L1_RPC",
            RPCMode::L1Beacon => "L1_BEACON_RPC",
            RPCMode::L2 => "L2_RPC",
            RPCMode::L2Node => "L2_NODE_RPC",
        }
    }

    /// How users call the endpoint.
    pub open spec fn title(self) -> Seq<char> {
        match self {
            RPCMode::L1 => "L1 RPC"@,
            RPCMode::L1Beacon => "L1 Beacon RPC"@,
            RPCMode::L2 => "L2 RPC"@,
            RPCMode::L2Node => "L2 Node RPC"@,
        }
    }

    /// How users call the endpoint.
    pub fn title_text(&self) -> (r: &'static str)
        ensures
            r@ == self.title(),
    {
        match self {
            RPCMode::L1 => "L1 RPC",
            RPCMode::L1Beacon => "L1 Beacon RPC",
            RPCMode::L2 => "L2 RPC",
            RPCMode::L2Node => "L2 Node RPC",
        }
    }
}

impl Clone for ConfigError {
    fn clone(&self) -> (r: ConfigError)
        ensures
            r == *self,
    {
        match self {
            ConfigError::Missing(endpoint) => ConfigError::Missing(*endpoint),
            ConfigError::InvalidUrl { endpoint, got } => ConfigError::InvalidUrl {
                endpoint: *endpoint,
                got: got.clone(),
            },
            ConfigError::InvalidBeaconUrl => ConfigError::InvalidBeaconUrl,
            ConfigError::ApiUnreachable => ConfigError::ApiUnreachable,
            ConfigError::ApiStatus(status) => ConfigError::ApiStatus(status.clone()),
            ConfigError::ApiUnreadable => ConfigError::ApiUnreadable,
            ConfigError::InvalidUrlFromApi { endpoint, got } => ConfigError::InvalidUrlFromApi {
                endpoint: *endpoint,
                got: got.clone(),
            },
            ConfigError::InvalidBeaconUrlFromApi => ConfigError::InvalidBeaconUrlFromApi,
            ConfigError::NotHttp { endpoint, got } => ConfigError::NotHttp {
                endpoint: *endpoint,
                got: got.clone(),
            },
            ConfigError::InvalidRange { start, end } => ConfigError::InvalidRange {
                start: *start,
                end: *end,
            },
            ConfigError::Unavailable(endpoint) => ConfigError::Unavailable(*endpoint),
            ConfigError::UnreadableFile(path) => ConfigError::UnreadableFile(path.clone()),
            ConfigError::MalformedFile(path) => ConfigError::MalformedFile(path.clone()),
        }
    }
}

impl ConfigError {
    /// What the user is told.
    pub open spec fn text(self) -> Seq<char> {
        match self {
            ConfigError::Missing(endpoint) => endpoint.variable()
                + " environment variable is required for proof generation"@,
            ConfigError::InvalidUrl { endpoint, got } => endpoint.variable()
                + " must be a valid URL, got: "@ + got@,
            ConfigError::InvalidBeaconUrl => "L1_BEACON_RPC must be a valid URL if provided"@,
            ConfigError::ApiUnreachable => "Failed to connect to DevnetManager API"@,
            ConfigError::ApiStatus(status) => "DevnetManager API returned error: "@ + status@,
            ConfigError::ApiUnreadable => "Failed to parse RPC endpoints from DevnetManager API"@,
            ConfigError::InvalidUrlFromApi { endpoint, got } => "Invalid "@ + endpoint.variable()
                + " from API: "@ + got@,
            ConfigError::InvalidBeaconUrlFromApi => "Invalid L1_BEACON_RPC from API"@,
            ConfigError::NotHttp { endpoint, got } => endpoint.variable()
                + " must be an HTTP/HTTPS URL, got: "@ + got@,
            ConfigError::InvalidRange { start, end } => "Block range invalid: start ("@ + decimal(
                start as nat,
            ) + ") must be less than end ("@ + decimal(end as nat) + ")"@,
            ConfigError::Unavailable(endpoint) => endpoint.title()
                + " is not available - check your "@ + endpoint.variable() + " configuration"@,
            ConfigError::UnreadableFile(path) => "Failed to read config file: "@ + path@,
            ConfigError::MalformedFile(path) => "Failed to parse config file: "@ + path@,
        }
    }

    /// What the user is told.
    pub fn message(&self) -> (r: String)
        ensures
            r@ == self.text(),
    {
        let mut out = String::new();
        match self {
            ConfigError::Missing(endpoint) => {
                out.append(endpoint.variable_name());
                out.append(" environment variable is required for proof generation");
            },
            ConfigError::InvalidUrl { endpoint, got } => {
                out.append(endpoint.variable_name());
                out.append(" must be a valid URL, got: ");
                out.append(got.as_str());
            },
            ConfigError::InvalidBeaconUrl => {
                out.append("L1_BEACON_RPC must be a valid URL if provided");
            },
            ConfigError::ApiUnreachable => {
                out.append("Failed to connect to DevnetManager API");
            },
            ConfigError::ApiStatus(status) => {
                out.append("DevnetManager API returned error: ");
                out.append(status.as_str());
            },
            ConfigError::ApiUnreadable => {
                out.append("Failed to parse RPC endpoints from DevnetManager API");
            },
            ConfigError::InvalidUrlFromApi { endpoint, got } => {
                out.append("Invalid ");
                out.append(endpoint.variable_name());
                out.append(" from API: ");
                out.append(got.as_str());
            },
            ConfigError::InvalidBeaconUrlFromApi => {
                out.append("Invalid L1_BEACON_RPC from API");
            },
            ConfigError::NotHttp { endpoint, got } => {
                out.append(endpoint.variable_name());
                out.append(" must be an HTTP/HTTPS URL, got: ");
                out.append(got.as_str());
            },
            ConfigError::InvalidRange { start, end } => {
                out.append("Block range invalid: start (");
                push_decimal(&mut out, *start);
                out.append(") must be less than end (");
                push_decimal(&mut out, *end);
                out.append(")");
            },
            ConfigError::Unavailable(endpoint) => {
                out.append(endpoint.title_text());
                out.append(" is not available - check your ");
                out.append(endpoint.variable_name());
                out.append(" configuration");
            },
            ConfigError::UnreadableFile(path) => {
                out.append("Failed to read config file: ");
                out.append(path.as_str());
            },
            ConfigError::MalformedFile(path) => {
                out.append("Failed to parse config file: ");
                out.append(path.as_str());
            },
        }
        assert(out@ == self.text());
        out
    }
}

// ---------------------------------------------------------------------------------------------
// Endpoints
// ---------------------------------------------------------------------------------------------

/// The endpoints of a run.
#[derive(Debug)]
pub struct RPCConfig {
    pub l1_rpc: Url,
    pub l2_rpc: Url,
    pub l2_node_rpc: Url,
    pub l1_beacon_rpc: Option<Url>,
}

impl Clone for RPCConfig {
    fn clone(&self) -> (r: RPCConfig)
        ensures
            r == *self,
    {
        RPCConfig {
            l1_rpc: self.l1_rpc.clone(),
            l2_rpc: self.l2_rpc.clone(),
            l2_node_rpc: self.l2_node_rpc.clone(),
            l1_beacon_rpc: match &self.l1_beacon_rpc {
                Some(url) => Some(url.clone()),
                None => None,
            },
        }
    }
}

/// What the variables of the endpoints hold.
#[derive(Debug)]
pub struct RpcVars {
    pub l1_rpc: Option<String>,
    pub l1_beacon_rpc: Option<String>,
    pub l2_rpc: Option<String>,
    pub l2_node_rpc: Option<String>,
}

/// The text spells a URL.
pub open spec fn is_url(text: Seq<char>) -> bool {
    parsed_url(text) is Some
}

/// Why the variables do not configure the endpoints; `None` where they do.
pub open spec fn env_failure(vars: RpcVars) -> Option<ConfigError> {
    if vars.l1_rpc is None {
        Some(ConfigError::Missing(RPCMode::L1))
    } else if vars.l2_rpc is None {
        Some(ConfigError::Missing(RPCMode::L2))
    } else if vars.l2_node_rpc is None {
        Some(ConfigError::Missing(RPCMode::L2Node))
    } else if !is_url(vars.l1_rpc->0@) {
        Some(ConfigError::InvalidUrl { endpoint: RPCMode::L1, got: vars.l1_rpc->0 })
    } else if !is_url(vars.l2_rpc->0@) {
        Some(ConfigError::InvalidUrl { endpoint: RPCMode::L2, got: vars.l2_rpc->0 })
    } else if !is_url(vars.l2_node_rpc->0@) {
        Some(ConfigError::InvalidUrl { endpoint: RPCMode::L2Node, got: vars.l2_node_rpc->0 })
    } else if vars.l1_beacon_rpc is Some && !is_url(vars.l1_beacon_rpc->0@) {
        Some(ConfigError::InvalidBeaconUrl)
    } else {
        None
    }
}

/// The endpoints as a devnet API or a file names them.
#[derive(Debug)]
pub struct RPCEndpoints {
    pub l1_rpc: String,
    pub l2_rpc: String,
    pub l2_node_rpc: String,
    pub l1_beacon_rpc: Option<String>,
}

/// What comes of asking the devnet API.
#[derive(Debug)]
pub enum DevnetReply {
    /// There was no answer.
    Unreachable,
    /// The answer has that status, which is no success.
    Status(String),
    /// The answer does not name the endpoints.
    Unreadable,
    /// The answer names the endpoints.
    Endpoints(RPCEndpoints),
}

/// Why the answer of the devnet API does not configure the endpoints; `None` where it does.
pub open spec fn devnet_failure(reply: DevnetReply) -> Option<ConfigError> {
    match reply {
        DevnetReply::Unreachable => Some(ConfigError::ApiUnreachable),
        DevnetReply::Status(status) => Some(ConfigError::ApiStatus(status)),
        DevnetReply::Unreadable => Some(ConfigError::ApiUnreadable),
        DevnetReply::Endpoints(e) => if !is_url(e.l1_rpc@) {
            Some(ConfigError::InvalidUrlFromApi { endpoint: RPCMode::L1, got: e.l1_rpc })
        } else if !is_url(e.l2_rpc@) {
            Some(ConfigError::InvalidUrlFromApi { endpoint: RPCMode::L2, got: e.l2_rpc })
        } else if !is_url(e.l2_node_rpc@) {
            Some(ConfigError::InvalidUrlFromApi { endpoint: RPCMode::L2Node, got: e.l2_node_rpc })
        } else if e.l1_beacon_rpc is Some && !is_url(e.l1_beacon_rpc->0@) {
            Some(ConfigError::InvalidBeaconUrlFromApi)
        } else {
            None
        },
    }
}

/// Why neither the devnet API, where it was asked, nor the variables configure the endpoints;
/// `None` where one of them does.
pub open spec fn discovery_failure(devnet: Option<DevnetReply>, vars: RpcVars) -> Option<
    ConfigError,
> {
    if devnet is Some && devnet_failure(devnet->0) is None {
        None
    } else {
        env_failure(vars)
    }
}

impl RPCConfig {
    /// The endpoints are the URLs that the texts spell.
    pub open spec fn spelled_by(
        self,
        l1_rpc: Seq<char>,
        l2_rpc: Seq<char>,
        l2_node_rpc: Seq<char>,
        l1_beacon_rpc: Option<Seq<char>>,
    ) -> bool {
        &&& parsed_url(l1_rpc) == Some(self.l1_rpc@)
        &&& parsed_url(l2_rpc) == Some(self.l2_rpc@)
        &&& parsed_url(l2_node_rpc) == Some(self.l2_node_rpc@)
        &&& match (l1_beacon_rpc, self.l1_beacon_rpc) {
            (Some(text), Some(url)) => parsed_url(text) == Some(url@),
            (None, None) => true,
            _ => false,
        }
    }

    /// The endpoints that the variables name.
    pub fn from_env(vars: &RpcVars) -> (r: Result<RPCConfig, ConfigError>)
        ensures
            match r {
                Ok(config) => env_failure(*vars) is None && config.spelled_by(
                    vars.l1_rpc->0@,
                    vars.l2_rpc->0@,
                    vars.l2_node_rpc->0@,
                    opt_text(vars.l1_beacon_rpc),
                ),
                Err(e) => env_failure(*vars) == Some(e),
            },
    {
        let l1_rpc = match &vars.l1_rpc {
            Some(text) => text,
            None => {
                return Err(ConfigError::Missing(RPCMode::L1));
            },
        };
        let l2_rpc = match &vars.l2_rpc {
            Some(text) => text,
            None => {
                return Err(ConfigError::Missing(RPCMode::L2));
            },
        };
        let l2_node_rpc = match &vars.l2_node_rpc {
            Some(text) => text,
            None => {
                return Err(ConfigError::Missing(RPCMode::L2Node));
            },
        };
        let l1_url = match parse_url(l1_rpc.as_str()) {
            Ok(url) => url,
            Err(_) => {
                return Err(ConfigError::InvalidUrl { endpoint: RPCMode::L1, got: l1_rpc.clone() });
            },
        };
        let l2_url = match parse_url(l2_rpc.as_str()) {
            Ok(url) => url,
            Err(_) => {
                return Err(ConfigError::InvalidUrl { endpoint: RPCMode::L2, got: l2_rpc.clone() });
            },
        };
        let l2_node_url = match parse_url(l2_node_rpc.as_str()) {
            Ok(url) => url,
            Err(_) => {
                return Err(
                    ConfigError::InvalidUrl { endpoint: RPCMode::L2Node, got: l2_node_rpc.clone() },
                );
            },
        };
        let l1_beacon_url = match &vars.l1_beacon_rpc {
            Some(text) => match parse_url(text.as_str()) {
                Ok(url) => Some(url),
                Err(_) => {
                    return Err(ConfigError::InvalidBeaconUrl);
                },
            },
            None => None,
        };
        Ok(
            RPCConfig {
                l1_rpc: l1_url,
                l2_rpc: l2_url,
                l2_node_rpc: l2_node_url,
                l1_beacon_rpc: l1_beacon_url,
            },
        )
    }

    /// The address at which the devnet API at `api_url` names the endpoints.
    pub fn devnet_request(api_url: &str) -> (r: String)
        ensures
            r@ == without_trailing(api_url@, '/') + "/rpcs"@,
    {
        let mut out = trim_end_matches(api_url, '/');
        out.append("/rpcs");
        out
    }

    /// The endpoints that the devnet API names.
    pub fn from_devnet_api(reply: &DevnetReply) -> (r: Result<RPCConfig, ConfigError>)
        ensures
            match r {
                Ok(config) => devnet_failure(*reply) is None && (reply matches
                    DevnetReply::Endpoints(e) && config.spelled_by(
                    e.l1_rpc@,
                    e.l2_rpc@,
                    e.l2_node_rpc@,
                    opt_text(e.l1_beacon_rpc),
                )),
                Err(e) => devnet_failure(*reply) == Some(e),
            },
    {
        let endpoints = match reply {
            DevnetReply::Unreachable => {
                return Err(ConfigError::ApiUnreachable);
            },
            DevnetReply::Status(status) => {
                return Err(ConfigError::ApiStatus(status.clone()));
            },
            DevnetReply::Unreadable => {
                return Err(ConfigError::ApiUnreadable);
            },
            DevnetReply::Endpoints(endpoints) => endpoints,
        };
        let l1_url = match parse_url(endpoints.l1_rpc.as_str()) {
            Ok(url) => url,
            Err(_) => {
                return Err(
                    ConfigError::InvalidUrlFromApi {
                        endpoint: RPCMode::L1,
                        got: endpoints.l1_rpc.clone(),
                    },
                );
            },
        };
        let l2_url = match parse_url(endpoints.l2_rpc.as_str()) {
            Ok(url) => url,
            Err(_) => {
                return Err(
                    ConfigError::InvalidUrlFromApi {
                        endpoint: RPCMode::L2,
                        got: endpoints.l2_rpc.clone(),
                    },
                );
            },
        };
        let l2_node_url = match parse_url(endpoints.l2_node_rpc.as_str()) {
            Ok(url) => url,
            Err(_) => {
                return Err(
                    ConfigError::InvalidUrlFromApi {
                        endpoint: RPCMode::L2Node,
                        got: endpoints.l2_node_rpc.clone(),
                    },
                );
            },
        };
        let l1_beacon_url = match &endpoints.l1_beacon_rpc {
            Some(text) => match parse_url(text.as_str()) {
                Ok(url) => Some(url),
                Err(_) => {
                    return Err(ConfigError::InvalidBeaconUrlFromApi);
                },
            },
            None => None,
        };
        Ok(
            RPCConfig {
                l1_rpc: l1_url,
                l2_rpc: l2_url,
                l2_node_rpc: l2_node_url,
                l1_beacon_rpc: l1_beacon_url,
            },
        )
    }

    /// The endpoints that the devnet API names, where it was asked and names them; else those that
    /// the variables name. The API was asked where `DEVNET_API_URL` is set.
    pub fn discover(devnet: &Option<DevnetReply>, vars: &RpcVars) -> (r: Result<
        RPCConfig,
        ConfigError,
    >)
        ensures
            match (*devnet, r) {
                (_, Err(e)) => discovery_failure(*devnet, *vars) == Some(e),
                (Some(DevnetReply::Endpoints(e)), Ok(config)) if devnet_failure(
                    devnet->0,
                ) is None => config.spelled_by(
                    e.l1_rpc@,
                    e.l2_rpc@,
                    e.l2_node_rpc@,
                    opt_text(e.l1_beacon_rpc),
                ),
                (_, Ok(config)) => env_failure(*vars) is None && config.spelled_by(
                    vars.l1_rpc->0@,
                    vars.l2_rpc->0@,
                    vars.l2_node_rpc->0@,
                    opt_text(vars.l1_beacon_rpc),
                ),
            },
    {
        if let Some(reply) = devnet {
            if let Ok(config) = Self::from_devnet_api(reply) {
                return Ok(config);
            }
        }
        Self::from_env(vars)
    }
}

// ---------------------------------------------------------------------------------------------
// The whole configuration
// ---------------------------------------------------------------------------------------------

/// The L2 blocks to prove.
#[derive(Clone, Copy, Debug)]
pub struct BlockRangeConfig {
    pub start: u64,
    pub end: u64,
}

/// Where the prover finds its files, and whether it verifies its proofs.
#[derive(Debug)]
pub struct ZiskConfig {
    pub range_elf_path: Option<String>,
    pub proving_key_path: Option<String>,
    pub witness_lib_path: Option<String>,
    pub verify_proofs: bool,
}

/// Where chain configurations are kept.
#[derive(Debug)]
pub struct PathConfig {
    pub l1_config_dir: Option<String>,
    pub l2_config_dir: Option<String>,
}

/// The configuration of a proving run.
#[derive(Debug)]
pub struct ProofConfig {
    pub rpc: RPCConfig,
    pub block_range: Option<BlockRangeConfig>,
    pub zisk: ZiskConfig,
    pub paths: PathConfig,
}

/// What the variables of the prover hold.
#[derive(Debug)]
pub struct ZiskVars {
    pub range_elf_path: Option<String>,
    pub range_proving_key_path: Option<String>,
    pub witness_lib_path: Option<String>,
    pub verify_proofs: Option<String>,
}

/// What the variables of the configuration directories hold.
#[derive(Debug)]
pub struct PathVars {
    pub l1_config_dir: Option<String>,
    pub l2_config_dir: Option<String>,
}

/// A configuration as a file spells it.
#[derive(Debug)]
pub struct ProofConfigFile {
    pub rpc: RPCEndpoints,
    pub block_range: Option<BlockRangeConfig>,
    pub zisk: ZiskConfig,
    pub paths: PathConfig,
}

/// A copy of an optional text.
pub fn clone_text(text: &Option<String>) -> (r: Option<String>)
    ensures
        r == *text,
{
    match text {
        Some(s) => Some(s.clone()),
        None => None,
    }
}

/// The truth value that a variable holds, or `default` where it is not set or holds none.
pub open spec fn flag_or(text: Option<Seq<char>>, default: bool) -> bool {
    match text {
        Some(s) => match parsed_bool(s) {
            Some(b) => b,
            None => default,
        },
        None => default,
    }
}

/// The truth value that a variable holds, or `default` where it is not set or holds none.
pub fn flag_setting(text: &Option<String>, default: bool) -> (r: bool)
    ensures
        r == flag_or(opt_text(*text), default),
{
    match text {
        Some(s) => match parse_bool(s.as_str()) {
            Some(b) => b,
            None => default,
        },
        None => default,
    }
}

impl Clone for ZiskConfig {
    fn clone(&self) -> (r: ZiskConfig)
        ensures
            r == *self,
    {
        ZiskConfig {
            range_elf_path: clone_text(&self.range_elf_path),
            proving_key_path: clone_text(&self.proving_key_path),
            witness_lib_path: clone_text(&self.witness_lib_path),
            verify_proofs: self.verify_proofs,
        }
    }
}

impl ZiskConfig {
    /// What the variables say of the prover; proofs are verified unless `VERIFY_PROOFS` is
    /// `false`.
    pub fn from_env(vars: &ZiskVars) -> (r: ZiskConfig)
        ensures
            r == (ZiskConfig {
                range_elf_path: vars.range_elf_path,
                proving_key_path: vars.range_proving_key_path,
                witness_lib_path: vars.witness_lib_path,
                verify_proofs: flag_or(opt_text(vars.verify_proofs), true),
            }),
    {
        ZiskConfig {
            range_elf_path: clone_text(&vars.range_elf_path),
            proving_key_path: clone_text(&vars.range_proving_key_path),
            witness_lib_path: clone_text(&vars.witness_lib_path),
            verify_proofs: flag_setting(&vars.verify_proofs, true),
        }
    }
}

impl Clone for PathConfig {
    fn clone(&self) -> (r: PathConfig)
        ensures
            r == *self,
    {
        PathConfig {
            l1_config_dir: clone_text(&self.l1_config_dir),
            l2_config_dir: clone_text(&self.l2_config_dir),
        }
    }
}

impl PathConfig {
    /// What the variables say of the configuration directories.
    pub fn from_env(vars: &PathVars) -> (r: PathConfig)
        ensures
            r == (PathConfig {
                l1_config_dir: vars.l1_config_dir,
                l2_config_dir: vars.l2_config_dir,
            }),
    {
        PathConfig {
            l1_config_dir: clone_text(&vars.l1_config_dir),
            l2_config_dir: clone_text(&vars.l2_config_dir),
        }
    }
}

impl Clone for ProofConfig {
    fn clone(&self) -> (r: ProofConfig)
        ensures
            r == *self,
    {
        ProofConfig {
            rpc: self.rpc.clone(),
            block_range: self.block_range,
            zisk: self.zisk.clone(),
            paths: self.paths.clone(),
        }
    }
}

/// The URL is one of HTTP or HTTPS.
pub open spec fn speaks_http(url: Url) -> bool {
    url.scheme@ == "http"@ || url.scheme@ == "https"@
}

/// Whether the URL is one of HTTP or HTTPS.
fn is_http(url: &Url) -> (r: bool)
    ensures
        r == speaks_http(*url),
{
    same_text(url.scheme.as_str(), "http") || same_text(url.scheme.as_str(), "https")
}

impl ProofConfig {
    /// What the variables configure, without a block range; fails where they do not configure the
    /// endpoints.
    pub fn from_env(rpc: &RpcVars, zisk: &ZiskVars, paths: &PathVars) -> (r: Result<
        ProofConfig,
        ConfigError,
    >)
        ensures
            match r {
                Ok(config) => {
                    &&& env_failure(*rpc) is None
                    &&& config.rpc.spelled_by(
                        rpc.l1_rpc->0@,
                        rpc.l2_rpc->0@,
                        rpc.l2_node_rpc->0@,
                        opt_text(rpc.l1_beacon_rpc),
                    )
                    &&& config.block_range is None
                    &&& config.zisk == (ZiskConfig {
                        range_elf_path: zisk.range_elf_path,
                        proving_key_path: zisk.range_proving_key_path,
                        witness_lib_path: zisk.witness_lib_path,
                        verify_proofs: flag_or(opt_text(zisk.verify_proofs), true),
                    })
                    &&& config.paths == (PathConfig {
                        l1_config_dir: paths.l1_config_dir,
                        l2_config_dir: paths.l2_config_dir,
                    })
                },
                Err(e) => env_failure(*rpc) == Some(e),
            },
    {
        let rpc = match RPCConfig::from_env(rpc) {
            Ok(rpc) => rpc,
            Err(e) => {
                return Err(e);
            },
        };
        Ok(
            ProofConfig {
                rpc,
                block_range: None,
                zisk: ZiskConfig::from_env(zisk),
                paths: PathConfig::from_env(paths),
            },
        )
    }

    /// What the file at `path` configures. The file is `None` where it cannot be read, and
    /// `Some(None)` where it does not have the form of a configuration.
    pub fn from_file(path: &str, file: Option<Option<ProofConfigFile>>) -> (r: Result<
        ProofConfig,
        ConfigError,
    >)
        ensures
            match r {
                Ok(config) => {
                    &&& file matches Some(Some(f)) && {
                        &&& devnet_failure(DevnetReply::Endpoints(f.rpc)) is None
                        &&& config.rpc.spelled_by(
                            f.rpc.l1_rpc@,
                            f.rpc.l2_rpc@,
                            f.rpc.l2_node_rpc@,
                            opt_text(f.rpc.l1_beacon_rpc),
                        )
                        &&& config.block_range == f.block_range
                        &&& config.zisk == f.zisk
                        &&& config.paths == f.paths
                    }
                },
                Err(ConfigError::UnreadableFile(p)) => file is None && p@ == path@,
                Err(ConfigError::MalformedFile(p)) => p@ == path@ && (file matches Some(content)
                    && (content matches Some(f) ==> devnet_failure(
                    DevnetReply::Endpoints(f.rpc),
                ) is Some)),
                Err(_) => false,
            },
    {
        match file {
            None => Err(ConfigError::UnreadableFile(path.to_owned())),
            Some(None) => Err(ConfigError::MalformedFile(path.to_owned())),
            Some(Some(f)) => {
                let reply = DevnetReply::Endpoints(f.rpc);
                match RPCConfig::from_devnet_api(&reply) {
                    Ok(rpc) => Ok(
                        ProofConfig {
                            rpc,
                            block_range: f.block_range,
                            zisk: f.zisk,
                            paths: f.paths,
                        },
                    ),
                    Err(_) => Err(ConfigError::MalformedFile(path.to_owned())),
                }
            },
        }
    }

    /// What is wrong with the configuration; `None` where nothing is.
    pub open spec fn validation_failure(self) -> Option<ConfigError> {
        if !speaks_http(self.rpc.l1_rpc) {
            Some(ConfigError::NotHttp { endpoint: RPCMode::L1, got: self.rpc.l1_rpc.href })
        } else if !speaks_http(self.rpc.l2_rpc) {
            Some(ConfigError::NotHttp { endpoint: RPCMode::L2, got: self.rpc.l2_rpc.href })
        } else if !speaks_http(self.rpc.l2_node_rpc) {
            Some(ConfigError::NotHttp { endpoint: RPCMode::L2Node, got: self.rpc.l2_node_rpc.href })
        } else if self.rpc.l1_beacon_rpc is Some && !speaks_http(self.rpc.l1_beacon_rpc->0) {
            Some(
                ConfigError::NotHttp {
                    endpoint: RPCMode::L1Beacon,
                    got: self.rpc.l1_beacon_rpc->0.href,
                },
            )
        } else if self.block_range is Some && self.block_range->0.start
            >= self.block_range->0.end {
            Some(
                ConfigError::InvalidRange {
                    start: self.block_range->0.start,
                    end: self.block_range->0.end,
                },
            )
        } else {
            None
        }
    }

    /// Checks that every endpoint is one of HTTP, and that the block range is not empty.
    pub fn validate(&self) -> (r: Result<(), ConfigError>)
        ensures
            match r {
                Ok(()) => self.validation_failure() is None,
                Err(e) => self.validation_failure() == Some(e),
            },
    {
        if !is_http(&self.rpc.l1_rpc) {
            return Err(
                ConfigError::NotHttp { endpoint: RPCMode::L1, got: self.rpc.l1_rpc.href.clone() },
            );
        }
        if !is_http(&self.rpc.l2_rpc) {
            return Err(
                ConfigError::NotHttp { endpoint: RPCMode::L2, got: self.rpc.l2_rpc.href.clone() },
            );
        }
        if !is_http(&self.rpc.l2_node_rpc) {
            return Err(
                ConfigError::NotHttp {
                    endpoint: RPCMode::L2Node,
                    got: self.rpc.l2_node_rpc.href.clone(),
                },
            );
        }
        if let Some(beacon) = &self.rpc.l1_beacon_rpc {
            if !is_http(beacon) {
                return Err(
                    ConfigError::NotHttp { endpoint: RPCMode::L1Beacon, got: beacon.href.clone() },
                );
            }
        }
        if let Some(range) = &self.block_range {
            if range.start >= range.end {
                return Err(ConfigError::InvalidRange { start: range.start, end: range.end });
            }
        }
        Ok(())
    }
}

// ---------------------------------------------------------------------------------------------
// Health
// ---------------------------------------------------------------------------------------------

/// Which endpoints answer, and how far the chains have come.
#[derive(Clone, Copy, Debug)]
pub struct HealthStatus {
    pub l1_available: bool,
    pub l2_available: bool,
    pub l2_node_available: bool,
    pub l1_beacon_available: bool,
    pub l2_block_number: Option<u64>,
    pub l1_block_number: Option<u64>,
}

/// What comes of asking the rollup node for the rollup configuration.
#[derive(Clone, Copy, Debug)]
pub enum NodeReply {
    /// There was no answer.
    Unreachable,
    /// The status is no success.
    Failure,
    /// The status is a success, and the answer is no JSON.
    NotJson,
    /// The status is a success, and the answer is JSON with or without an error in it.
    Json { error: bool },
}

/// What comes of a plain request.
#[derive(Clone, Copy, Debug)]
pub enum HttpReply {
    /// There was no answer.
    Unreachable,
    /// The status is no success.
    Failure,
    /// The status is a success.
    Success,
}

/// The answers that a health check gathers: the block numbers of both chains, where they came,
/// and the answers of the rollup node and of the beacon endpoint. The latter is asked only where
/// it is configured.
#[derive(Clone, Copy, Debug)]
pub struct HealthReplies {
    pub l1_block_number: Option<u64>,
    pub l2_block_number: Option<u64>,
    pub l2_node: NodeReply,
    pub l1_beacon: HttpReply,
}

impl ProofConfig {
    /// What the answers say of the endpoints. The rollup node counts as available where it
    /// answers with success, unless the answer is a JSON-RPC error; the beacon endpoint only where
    /// it is configured.
    pub open spec fn health(self, replies: HealthReplies) -> HealthStatus {
        HealthStatus {
            l1_available: replies.l1_block_number is Some,
            l2_available: replies.l2_block_number is Some,
            l2_node_available: replies.l2_node is NotJson || replies.l2_node == (NodeReply::Json {
                error: false,
            }),
            l1_beacon_available: self.rpc.l1_beacon_rpc is Some && replies.l1_beacon is Success,
            l2_block_number: replies.l2_block_number,
            l1_block_number: replies.l1_block_number,
        }
    }

    /// What the answers say of the endpoints.
    pub fn health_check(&self, replies: &HealthReplies) -> (r: HealthStatus)
        ensures
            r == self.health(*replies),
    {
        let mut status = HealthStatus {
            l1_available: false,
            l2_available: false,
            l2_node_available: false,
            l1_beacon_available: false,
            l2_block_number: None,
            l1_block_number: None,
        };
        if let Some(number) = replies.l1_block_number {
            status.l1_available = true;
            status.l1_block_number = Some(number);
        }
        if let Some(number) = replies.l2_block_number {
            status.l2_available = true;
            status.l2_block_number = Some(number);
        }
        match replies.l2_node {
            NodeReply::Json { error } => {
                if !error {
                    status.l2_node_available = true;
                }
            },
            NodeReply::NotJson => {
                status.l2_node_available = true;
            },
            NodeReply::Failure => {},
            NodeReply::Unreachable => {},
        }
        if self.rpc.l1_beacon_rpc.is_some() {
            match replies.l1_beacon {
                HttpReply::Success => {
                    status.l1_beacon_available = true;
                },
                HttpReply::Failure => {},
                HttpReply::Unreachable => {},
            }
        }
        status
    }
}

impl HealthStatus {
    /// The first endpoint that a run cannot do without and that is not available.
    pub open spec fn missing_endpoint(self) -> Option<RPCMode> {
        if !self.l1_available {
            Some(RPCMode::L1)
        } else if !self.l2_available {
            Some(RPCMode::L2)
        } else if !self.l2_node_available {
            Some(RPCMode::L2Node)
        } else {
            None
        }
    }

    /// Checks that the endpoints that a run cannot do without are available.
    pub fn require_endpoints(&self) -> (r: Result<(), ConfigError>)
        ensures
            match r {
                Ok(()) => self.missing_endpoint() is None,
                Err(e) => self.missing_endpoint() matches Some(endpoint) && e
                    == ConfigError::Unavailable(endpoint),
            },
    {
        if !self.l1_available {
            return Err(ConfigError::Unavailable(RPCMode::L1));
        }
        if !self.l2_available {
            return Err(ConfigError::Unavailable(RPCMode::L2));
        }
        if !self.l2_node_available {
            return Err(ConfigError::Unavailable(RPCMode::L2Node));
        }
        Ok(())
    }
}

/// A configuration that passes validation names endpoints of HTTP only, and a block range, where
/// it has one, with a block in it.
pub proof fn law_valid_config_is_usable(config: ProofConfig)
    requires
        config.validation_failure() is None,
    ensures
        speaks_http(config.rpc.l1_rpc),
        speaks_http(config.rpc.l2_rpc),
        speaks_http(config.rpc.l2_node_rpc),
        config.rpc.l1_beacon_rpc matches Some(url) ==> speaks_http(url),
        config.block_range matches Some(range) ==> range.start < range.end,
{
}

/// A run that may start knows how far both chains have come.
pub proof fn law_healthy_run_knows_both_heads(config: ProofConfig, replies: HealthReplies)
    requires
        config.health(replies).missing_endpoint() is None,
    ensures
        config.health(replies).l1_block_number is Some,
        config.health(replies).l2_block_number is Some,
{
}

/// Endpoints that the devnet API names win over those that the variables name, and the variables
/// count wherever the API was not asked or does not name them.
pub proof fn law_devnet_api_wins(reply: DevnetReply, vars: RpcVars)
    ensures
        devnet_failure(reply) is None ==> discovery_failure(Some(reply), vars) is None,
        devnet_failure(reply) is Some ==> discovery_failure(Some(reply), vars) == env_failure(vars),
        discovery_failure(None, vars) == env_failure(vars),
{
}

/// The endpoint is given by a text that spells a URL.
pub open spec fn spells_url(text: Option<String>) -> bool {
    text matches Some(t) && parsed_url(t@) is Some
}

/// The variables configure the endpoints exactly where those of the three chains are set and spell
/// URLs, and that of the beacon endpoint does so, too, or is not set; a failure names the variable
/// that is at fault, and what it holds.
pub proof fn law_variables_configure_the_endpoints_iff(vars: RpcVars)
    ensures
        env_failure(vars) is None <==> {
            &&& spells_url(vars.l1_rpc)
            &&& spells_url(vars.l2_rpc)
            &&& spells_url(vars.l2_node_rpc)
            &&& vars.l1_beacon_rpc is Some ==> spells_url(vars.l1_beacon_rpc)
        },
        env_failure(vars) matches Some(e) ==> match e {
            ConfigError::Missing(RPCMode::L1) => vars.l1_rpc is None,
            ConfigError::Missing(RPCMode::L2) => vars.l2_rpc is None,
            ConfigError::Missing(RPCMode::L2Node) => vars.l2_node_rpc is None,
            ConfigError::InvalidUrl { endpoint: RPCMode::L1, got } => vars.l1_rpc == Some(got)
                && parsed_url(got@) is None,
            ConfigError::InvalidUrl { endpoint: RPCMode::L2, got } => vars.l2_rpc == Some(got)
                && parsed_url(got@) is None,
            ConfigError::InvalidUrl { endpoint: RPCMode::L2Node, got } => vars.l2_node_rpc == Some(
                got,
            ) && parsed_url(got@) is None,
            ConfigError::InvalidBeaconUrl => vars.l1_beacon_rpc matches Some(text) && parsed_url(
                text@,
            ) is None,
            _ => false,
        },
{
}

/// The devnet API configures the endpoints exactly where it names them and each of them is a URL; a
/// failure tells what became of the request, or names the endpoint at fault and what the API gave.
pub proof fn law_devnet_configures_the_endpoints_iff(reply: DevnetReply)
    ensures
        devnet_failure(reply) is None <==> (reply matches DevnetReply::Endpoints(e) && {
            &&& parsed_url(e.l1_rpc@) is Some
            &&& parsed_url(e.l2_rpc@) is Some
            &&& parsed_url(e.l2_node_rpc@) is Some
            &&& e.l1_beacon_rpc is Some ==> spells_url(e.l1_beacon_rpc)
        }),
        devnet_failure(reply) matches Some(failure) ==> match (reply, failure) {
            (DevnetReply::Unreachable, ConfigError::ApiUnreachable) => true,
            (DevnetReply::Status(status), ConfigError::ApiStatus(told)) => status == told,
            (DevnetReply::Unreadable, ConfigError::ApiUnreadable) => true,
            (
                DevnetReply::Endpoints(e),
                ConfigError::InvalidUrlFromApi { endpoint: RPCMode::L1, got },
            ) => e.l1_rpc == got && parsed_url(got@) is None,
            (
                DevnetReply::Endpoints(e),
                ConfigError::InvalidUrlFromApi { endpoint: RPCMode::L2, got },
            ) => e.l2_rpc == got && parsed_url(got@) is None,
            (
                DevnetReply::Endpoints(e),
                ConfigError::InvalidUrlFromApi { endpoint: RPCMode::L2Node, got },
            ) => e.l2_node_rpc == got && parsed_url(got@) is None,
            (DevnetReply::Endpoints(e), ConfigError::InvalidBeaconUrlFromApi) =>
                e.l1_beacon_rpc matches Some(text) && parsed_url(text@) is None,
            _ => false,
        },
{
}

/// Each endpoint of a run is the URL that its own text spells, and the beacon endpoint is there
/// where its text is.
pub proof fn law_endpoints_are_what_their_texts_spell(
    config: RPCConfig,
    l1_rpc: Seq<char>,
    l2_rpc: Seq<char>,
    l2_node_rpc: Seq<char>,
    l1_beacon_rpc: Option<Seq<char>>,
)
    requires
        config.spelled_by(l1_rpc, l2_rpc, l2_node_rpc, l1_beacon_rpc),
    ensures
        parsed_url(l1_rpc) == Some((config.l1_rpc.href@, config.l1_rpc.scheme@)),
        parsed_url(l2_rpc) == Some((config.l2_rpc.href@, config.l2_rpc.scheme@)),
        parsed_url(l2_node_rpc) == Some((config.l2_node_rpc.href@, config.l2_node_rpc.scheme@)),
        config.l1_beacon_rpc is Some <==> l1_beacon_rpc is Some,
        config.l1_beacon_rpc matches Some(url) ==> parsed_url(l1_beacon_rpc->0) == Some(
            (url.href@, url.scheme@),
        ),
{
}

/// A configuration passes validation exactly where every endpoint in it is one of HTTP or HTTPS and
/// its block range, if it has one, starts before it ends; a failure names the endpoint or the range
/// at fault.
pub proof fn law_config_is_valid_iff(config: ProofConfig)
    ensures
        config.validation_failure() is None <==> {
            &&& config.rpc.l1_rpc.scheme@ == "http"@ || config.rpc.l1_rpc.scheme@ == "https"@
            &&& config.rpc.l2_rpc.scheme@ == "http"@ || config.rpc.l2_rpc.scheme@ == "https"@
            &&& config.rpc.l2_node_rpc.scheme@ == "http"@ || config.rpc.l2_node_rpc.scheme@
                == "https"@
            &&& config.rpc.l1_beacon_rpc matches Some(url) ==> url.scheme@ == "http"@ || url.scheme@
                == "https"@
            &&& config.block_range matches Some(range) ==> range.start < range.end
        },
        config.validation_failure() matches Some(e) ==> match e {
            ConfigError::NotHttp { endpoint: RPCMode::L1, got } => got == config.rpc.l1_rpc.href
                && config.rpc.l1_rpc.scheme@ != "http"@ && config.rpc.l1_rpc.scheme@ != "https"@,
            ConfigError::NotHttp { endpoint: RPCMode::L2, got } => got == config.rpc.l2_rpc.href
                && config.rpc.l2_rpc.scheme@ != "http"@ && config.rpc.l2_rpc.scheme@ != "https"@,
            ConfigError::NotHttp { endpoint: RPCMode::L2Node, got } => got
                == config.rpc.l2_node_rpc.href && config.rpc.l2_node_rpc.scheme@ != "http"@
                && config.rpc.l2_node_rpc.scheme@ != "https"@,
            ConfigError::NotHttp { endpoint: RPCMode::L1Beacon, got } =>
                config.rpc.l1_beacon_rpc matches Some(url) && got == url.href && url.scheme@
                != "http"@ && url.scheme@ != "https"@,
            ConfigError::InvalidRange { start, end } => config.block_range matches Some(range)
                && start == range.start && end == range.end && start >= end,
            _ => false,
        },
{
}

/// An endpoint is available where it answered: both chains with the block number that is reported
/// of them, the rollup node with a success that is no JSON-RPC error, and the beacon endpoint with a
/// success where it is configured. A run may start where all but the beacon endpoint are; else the
/// first of them that is not is named.
pub proof fn law_endpoint_is_available_iff(config: ProofConfig, replies: HealthReplies)
    ensures
        ({
            let health = config.health(replies);
            &&& health.l1_available <==> replies.l1_block_number is Some
            &&& health.l2_available <==> replies.l2_block_number is Some
            &&& health.l1_block_number == replies.l1_block_number
            &&& health.l2_block_number == replies.l2_block_number
            &&& health.l2_node_available <==> match replies.l2_node {
                NodeReply::Unreachable => false,
                NodeReply::Failure => false,
                NodeReply::NotJson => true,
                NodeReply::Json { error } => !error,
            }
            &&& health.l1_beacon_available <==> config.rpc.l1_beacon_rpc is Some
                && replies.l1_beacon == HttpReply::Success
            &&& health.missing_endpoint() is None <==> health.l1_available && health.l2_available
                && health.l2_node_available
            &&& health.missing_endpoint() matches Some(mode) ==> match mode {
                RPCMode::L1 => !health.l1_available,
                RPCMode::L2 => health.l1_available && !health.l2_available,
                RPCMode::L2Node => health.l1_available && health.l2_available
                    && !health.l2_node_available,
                RPCMode::L1Beacon => false,
            }
        }),
{
}

/// A flag is what its variable spells; where that is not set or spells no truth value, the default
/// counts.
pub proof fn law_flag_is_what_its_variable_spells(text: Seq<char>, default: bool)
    ensures
        flag_or(None, default) == default,
        flag_or(Some("true"@), default),
        !flag_or(Some("false"@), default),
        text != "true"@ && text != "false"@ ==> flag_or(Some(text), default) == default,
{
    law_truth_values_are_read_off_their_names(text);
}

/// A message about a configuration names the variable of the endpoint that it is about, or the path
/// of the file, and ends with what was found there.
pub proof fn law_config_message_names_the_culprit(e: ConfigError)
    ensures
        match e {
            ConfigError::Missing(endpoint) => contains_text(e.text(), endpoint.variable()),
            ConfigError::InvalidUrl { endpoint, got } => contains_text(
                e.text(),
                endpoint.variable(),
            ) && ends_with(e.text(), got@),
            ConfigError::InvalidUrlFromApi { endpoint, got } => contains_text(
                e.text(),
                endpoint.variable(),
            ) && ends_with(e.text(), got@),
            ConfigError::NotHttp { endpoint, got } => contains_text(e.text(), endpoint.variable())
                && ends_with(e.text(), got@),
            ConfigError::Unavailable(endpoint) => contains_text(e.text(), endpoint.variable())
                && contains_text(e.text(), endpoint.title()),
            ConfigError::ApiStatus(status) => ends_with(e.text(), status@),
            ConfigError::UnreadableFile(path) => ends_with(e.text(), path@),
            ConfigError::MalformedFile(path) => ends_with(e.text(), path@),
            _ => true,
        },
{
    let none = Seq::<char>::empty();
    match e {
        ConfigError::Missing(endpoint) => {
            lemma_contains_first(
                endpoint.variable(),
                " environment variable is required for proof generation"@,
            );
        },
        ConfigError::InvalidUrl { endpoint, got } => {
            lemma_message(none, endpoint.variable(), " must be a valid URL, got: "@, got@);
            assert(none + endpoint.variable() =~= endpoint.variable());
        },
        ConfigError::InvalidUrlFromApi { endpoint, got } => {
            lemma_message("Invalid "@, endpoint.variable(), " from API: "@, got@);
        },
        ConfigError::NotHttp { endpoint, got } => {
            lemma_message(none, endpoint.variable(), " must be an HTTP/HTTPS URL, got: "@, got@);
            assert(none + endpoint.variable() =~= endpoint.variable());
        },
        ConfigError::Unavailable(endpoint) => {
            let between = " is not available - check your "@;
            lemma_contains_between(
                endpoint.title() + between,
                endpoint.variable(),
                " configuration"@,
            );
            lemma_contains_thrice(
                endpoint.title(),
                between,
                endpoint.variable(),
                " configuration"@,
            );
        },
        ConfigError::ApiStatus(status) => {
            lemma_ends_with("DevnetManager API returned error: "@, status@);
        },
        ConfigError::UnreadableFile(path) => {
            lemma_ends_with("Failed to read config file: "@, path@);
        },
        ConfigError::MalformedFile(path) => {
            lemma_ends_with("Failed to parse config file: "@, path@);
        },
        _ => {},
    }
}

proof fn lemma_contains_first(first: Seq<char>, rest: Seq<char>)
    ensures
        contains_text(first + rest, first),
{
    assert((first + rest).subrange(0, first.len() as int) =~= first);
    assert(occurs_at(first + rest, first, 0));
}

proof fn lemma_contains_thrice(first: Seq<char>, a: Seq<char>, b: Seq<char>, c: Seq<char>)
    ensures
        contains_text(first + a + b + c, first),
{
    let t = first + a + b + c;
    assert(t.subrange(0, first.len() as int) =~= first);
    assert(occurs_at(t, first, 0));
}

/// Each endpoint has a variable and a title of its own, and they say which one it is.
pub proof fn law_endpoints_are_called_by_their_names()
    ensures
        RPCMode::L1.variable() == "L1_RPC"@ && RPCMode::L1.title() == "L1 RPC"@,
        RPCMode::L2.variable() == "L2_RPC"@ && RPCMode::L2.title() == "L2 RPC"@,
        RPCMode::L2Node.variable() == "L2_NODE_RPC"@ && RPCMode::L2Node.title() == "L2 Node RPC"@,
        RPCMode::L1Beacon.variable() == "L1_BEACON_RPC"@ && RPCMode::L1Beacon.title()
            == "L1 Beacon RPC"@,
{
}

/// The message about an empty block range gives its start before its end.
pub proof fn law_empty_block_range_is_told_from_start_to_end(start: u64, end: u64)
    ensures
        contains_text(
            (ConfigError::InvalidRange { start, end }).text(),
            decimal(start as nat) + ") must be less than end ("@ + decimal(end as nat),
        ),
{
    let lead = "Block range invalid: start ("@;
    let rest = decimal(start as nat) + ") must be less than end ("@ + decimal(end as nat);
    lemma_contains_between(lead, rest, ")"@);
    lemma_grouping(lead, decimal(start as nat), ") must be less than end ("@);
    lemma_grouping(
        lead,
        decimal(start as nat) + ") must be less than end ("@,
        decimal(end as nat),
    );
}

} // verus!
