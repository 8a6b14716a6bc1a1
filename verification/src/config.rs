//! The relay's configuration, read from a snapshot of the environment
//! variables: defaults and required variables per deployment (development,
//! staging, production), validation, and the table of supported chains.
use vstd::prelude::*;
use std::collections::HashMap;
use crate::collections::StrMap;
use crate::text::{concat2, owned, parse_unsigned, parse_unsigned_str, str_eq};

verus! {

broadcast use vstd::std_specs::hash::group_hash_axioms;

/// A chain the relay can submit to.
pub struct ChainConfig {
    pub name: String,
    pub rpc_url: String,
    pub contract_address: String,
    pub explorer: String,
    pub currency_symbol: Option<String>,
}

/// Request limits: requests allowed per window.
pub struct RateLimitConfig {
    pub window_ms: u64,
    pub max_requests: u32,
}

/// The relay's configuration.
pub struct Config {
    pub rpc_url: String,
    pub chain_id: u64,
    pub contract_address: String,
    pub api_key: String,
    pub jwt_secret: String,
    pub log_level: String,
    pub port: u16,
    pub cors_origins: String,
    pub rate_limits: RateLimitConfig,
    pub debug: bool,
    pub enable_swagger: bool,
    pub enable_cors_debug: bool,
    pub enable_metrics: bool,
    pub enable_health_checks: bool,
    pub log_requests: bool,
    pub enable_alerting: bool,
    pub enable_rate_limiting: bool,
    pub enable_cors: bool,
    pub enable_jwt_validation: bool,
    pub enable_api_key_validation: bool,
    pub supported_chains: HashMap<u64, ChainConfig>,
}

/// The three deployments.
#[derive(Debug, Clone, Copy, PartialEq, Eq, Structural)]
pub enum Deployment {
    Development,
    Staging,
    Production,
}

/// The value of variable `name`, or `default` when it is not set.
pub open spec fn var_or(env: Map<Seq<char>, String>, name: Seq<char>, default: Seq<char>) -> Seq<char> {
    if env.dom().contains(name) { env[name]@ } else { default }
}

/// The deployment named by `RUST_ENV`: staging and production by name,
/// development for anything else and when it is not set.
pub open spec fn deployment_of(env: Map<Seq<char>, String>) -> Deployment {
    let m = var_or(env, "RUST_ENV"@, "development"@);
    if m == "staging"@ {
        Deployment::Staging
    } else if m == "production"@ {
        Deployment::Production
    } else {
        Deployment::Development
    }
}

/// A flag that is on when the variable (or its default) is exactly `true`.
pub open spec fn flag_on(env: Map<Seq<char>, String>, name: Seq<char>, default: Seq<char>) -> bool {
    var_or(env, name, default) == "true"@
}

/// A flag that is on unless the variable is exactly `false`.
pub open spec fn flag_not_off(env: Map<Seq<char>, String>, name: Seq<char>) -> bool {
    var_or(env, name, "true"@) != "false"@
}

/// The default chain identifier text outside production.
pub open spec fn default_chain_id() -> Seq<char> { "84532"@ }

/// The default contract outside production.
pub open spec fn default_contract() -> Seq<char> { "0x7B79117445C57eea1CEAb4733020A55e1D503934"@ }

/// The default for the request limit in each deployment.
pub open spec fn rate_default(d: Deployment) -> Seq<char> {
    match d { Deployment::Development => "1000"@, Deployment::Staging => "500"@, Deployment::Production => "100"@ }
}

/// The number in a variable (or its default), when it reads as a number no larger than `max`.
pub open spec fn var_number(env: Map<Seq<char>, String>, name: Seq<char>, default: Seq<char>, max: nat) -> Option<nat> {
    parse_unsigned(var_or(env, name, default), max)
}

/// The error for a variable whose text is not a number in range.
pub open spec fn bad_number(name: Seq<char>) -> Seq<char> {
    "Invalid value for "@ + name
}

/// The first problem with the configuration of deployment `d`, in the
/// order the variables are read, then the order of the validation.
pub open spec fn config_problem(env: Map<Seq<char>, String>, d: Deployment) -> Option<Seq<char>> {
    match d {
        Deployment::Development => {
            if var_number(env, "CHAIN_ID"@, default_chain_id(), u64::MAX as nat) is None { Some(bad_number("CHAIN_ID"@)) }
            else if var_number(env, "PORT"@, "4000"@, u16::MAX as nat) is None { Some(bad_number("PORT"@)) }
            else if var_number(env, "RATE_LIMIT_MAX"@, rate_default(d), u32::MAX as nat) is None { Some(bad_number("RATE_LIMIT_MAX"@)) }
            else { None }
        },
        Deployment::Staging => {
            if var_number(env, "CHAIN_ID"@, default_chain_id(), u64::MAX as nat) is None { Some(bad_number("CHAIN_ID"@)) }
            else if !env.dom().contains("API_KEY"@) { Some("API_KEY required in staging"@) }
            else if !env.dom().contains("JWT_SECRET"@) { Some("JWT_SECRET required in staging"@) }
            else if var_number(env, "PORT"@, "4000"@, u16::MAX as nat) is None { Some(bad_number("PORT"@)) }
            else if var_number(env, "RATE_LIMIT_MAX"@, rate_default(d), u32::MAX as nat) is None { Some(bad_number("RATE_LIMIT_MAX"@)) }
            else if env["API_KEY"@]@.len() == 0 { Some("API_KEY is required in staging environment"@) }
            else if env["JWT_SECRET"@]@.len() == 0 { Some("JWT_SECRET is required in staging environment"@) }
            else { None }
        },
        Deployment::Production => {
            if !env.dom().contains("RPC_URL"@) { Some("RPC_URL required in production"@) }
            else if !env.dom().contains("CHAIN_ID"@) { Some("CHAIN_ID required in production"@) }
            else if var_number(env, "CHAIN_ID"@, ""@, u64::MAX as nat) is None { Some(bad_number("CHAIN_ID"@)) }
            else if !env.dom().contains("CONTRACT_ADDRESS"@) { Some("CONTRACT_ADDRESS required in production"@) }
            else if !env.dom().contains("API_KEY"@) { Some("API_KEY required in production"@) }
            else if !env.dom().contains("JWT_SECRET"@) { Some("JWT_SECRET required in production"@) }
            else if var_number(env, "PORT"@, "4000"@, u16::MAX as nat) is None { Some(bad_number("PORT"@)) }
            else if var_number(env, "RATE_LIMIT_MAX"@, rate_default(d), u32::MAX as nat) is None { Some(bad_number("RATE_LIMIT_MAX"@)) }
            else if env["RPC_URL"@]@.len() == 0 { Some("RPC_URL is required in production environment"@) }
            else if env["CONTRACT_ADDRESS"@]@.len() == 0 { Some("CONTRACT_ADDRESS is required in production environment"@) }
            else if env["API_KEY"@]@.len() == 0 { Some("API_KEY is required in production environment"@) }
            else if env["JWT_SECRET"@]@.len() == 0 { Some("JWT_SECRET is required in production environment"@) }
            else { None }
        },
    }
}

/// The configuration of deployment `d` holds what the variables and the
/// deployment's defaults say (for chains, see `chains_match`).
pub open spec fn config_matches(c: Config, env: Map<Seq<char>, String>, d: Deployment) -> bool {
    let dev = d == Deployment::Development;
    let prod = d == Deployment::Production;
    &&& c.rpc_url@ == var_or(env, "RPC_URL"@, "https://sepolia.base.org"@)
    &&& c.chain_id as nat == var_number(env, "CHAIN_ID"@, default_chain_id(), u64::MAX as nat)->0
    &&& c.contract_address@ == var_or(env, "CONTRACT_ADDRESS"@, default_contract())
    &&& c.api_key@ == var_or(env, "API_KEY"@, "dev_api_key"@)
    &&& c.jwt_secret@ == var_or(env, "JWT_SECRET"@, "dev_jwt_secret"@)
    &&& c.log_level@ == (match d {
            Deployment::Development => "debug"@,
            Deployment::Staging => "info"@,
            Deployment::Production => var_or(env, "LOG_LEVEL"@, "warn"@),
        })
    &&& c.port as nat == var_number(env, "PORT"@, "4000"@, u16::MAX as nat)->0
    &&& c.cors_origins@ == var_or(env, "CORS_ORIGINS"@, match d {
            Deployment::Development => "*"@,
            Deployment::Staging => "https://staging.airchainpay.com,https://staging-wallet.airchainpay.com"@,
            Deployment::Production => "https://app.airchainpay.com,https://wallet.airchainpay.com"@,
        })
    &&& c.rate_limits.window_ms == 900000
    &&& c.rate_limits.max_requests as nat == var_number(env, "RATE_LIMIT_MAX"@, rate_default(d), u32::MAX as nat)->0
    &&& c.debug == flag_on(env, "DEBUG"@, if dev { "true"@ } else { "false"@ })
    &&& c.enable_swagger == flag_on(env, "ENABLE_SWAGGER"@, "true"@)
    &&& c.enable_cors_debug == flag_on(env, "ENABLE_CORS_DEBUG"@, if dev { "true"@ } else { "false"@ })
    &&& c.enable_metrics == (dev || flag_on(env, "ENABLE_METRICS"@, "true"@))
    &&& c.enable_health_checks == (dev || flag_on(env, "ENABLE_HEALTH_CHECKS"@, "true"@))
    &&& c.log_requests == (dev || flag_on(env, "LOG_REQUESTS"@, "true"@))
    &&& c.enable_alerting == (prod && flag_on(env, "ENABLE_ALERTING"@, "true"@))
    &&& c.enable_rate_limiting == (!prod || flag_not_off(env, "ENABLE_RATE_LIMITING"@))
    &&& c.enable_cors == (!prod || flag_not_off(env, "ENABLE_CORS"@))
    &&& c.enable_jwt_validation == (!prod || flag_not_off(env, "ENABLE_JWT_VALIDATION"@))
    &&& c.enable_api_key_validation == (!prod || flag_not_off(env, "ENABLE_API_KEY_VALIDATION"@))
    &&& chains_match(c.supported_chains@, env)
}

/// The chain table holds one entry for `id` with these fields.
pub open spec fn chain_is(
    chains: Map<u64, ChainConfig>,
    id: u64,
    name: Seq<char>,
    rpc: Seq<char>,
    contract: Seq<char>,
    explorer: Seq<char>,
    symbol: Option<Seq<char>>,
) -> bool {
    &&& chains.dom().contains(id)
    &&& chains[id].name@ == name
    &&& chains[id].rpc_url@ == rpc
    &&& chains[id].contract_address@ == contract
    &&& chains[id].explorer@ == explorer
    &&& match (chains[id].currency_symbol, symbol) {
            (Some(a), Some(b)) => a@ == b,
            (None, None) => true,
            _ => false,
        }
}

/// The supported chains: Base Sepolia, Core Testnet, Core Testnet 2, Base
/// Mainnet and Core Mainnet, with the variables that override their fields.
pub open spec fn chains_match(chains: Map<u64, ChainConfig>, env: Map<Seq<char>, String>) -> bool {
    &&& chains.dom() == set![84532u64, 11155420u64, 1114u64, 8453u64, 1116u64]
    &&& chain_is(chains, 84532, "Base Sepolia"@, "https://sepolia.base.org"@,
            var_or(env, "BASE_SEPOLIA_CONTRACT_ADDRESS"@, default_contract()), "https://sepolia.basescan.org"@, None)
    &&& chain_is(chains, 11155420, "Core Testnet"@, "https://rpc.test.btcs.network"@,
            var_or(env, "CORE_TESTNET_CONTRACT_ADDRESS"@, "0x8d7eaB03a72974F5D9F5c99B4e4e1B393DBcfCAB"@),
            "https://scan.test2.btcs.network"@, None)
    &&& chain_is(chains, 1114, "Core Testnet 2"@, var_or(env, "RPC_URL"@, "https://rpc.test2.btcs.network"@),
            var_or(env, "CONTRACT_ADDRESS"@, ""@), var_or(env, "BLOCK_EXPLORER"@, "https://scan.test2.btcs.network"@),
            Some(var_or(env, "CURRENCY_SYMBOL"@, "TCORE2"@)))
    &&& chain_is(chains, 8453, "Base Mainnet"@, var_or(env, "BASE_MAINNET_RPC_URL"@, "https://mainnet.base.org"@),
            var_or(env, "BASE_MAINNET_CONTRACT_ADDRESS"@, ""@), "https://basescan.org"@, None)
    &&& chain_is(chains, 1116, "Core Mainnet"@, var_or(env, "CORE_MAINNET_RPC_URL"@, "https://rpc.coredao.org"@),
            var_or(env, "CORE_MAINNET_CONTRACT_ADDRESS"@, ""@), "https://scan.coredao.org"@, None)
}

/// The value of variable `name`, or `default`.
fn env_or(env: &StrMap<String>, name: &str, default: &str) -> (r: String)
    ensures
        r@ == var_or(env@, name@, default@),
{
    match env.get(name) {
        Some(v) => owned(v.as_str()),
        None => owned(default),
    }
}

/// The value of a variable that must be set.
fn env_required(env: &StrMap<String>, name: &str, missing: &str) -> (r: Result<String, String>)
    ensures
        match r {
            Ok(v) => env@.dom().contains(name@) && v@ == env@[name@]@,
            Err(e) => !env@.dom().contains(name@) && e@ == missing@,
        },
{
    match env.get(name) {
        Some(v) => Ok(owned(v.as_str())),
        None => Err(owned(missing)),
    }
}

/// A number read from `text`, no larger than `max`.
fn number_of(text: &str, name: &str, max: u64) -> (r: Result<u64, String>)
    ensures
        match r {
            Ok(v) => parse_unsigned(text@, max as nat) == Some(v as nat),
            Err(e) => parse_unsigned(text@, max as nat) is None && e@ == bad_number(name@),
        },
{
    match parse_unsigned_str(text, max) {
        Some(v) => Ok(v),
        None => Err(concat2("Invalid value for ", name)),
    }
}

/// Whether the variable (or its default) is exactly `true`.
fn env_flag(env: &StrMap<String>, name: &str, default: &str) -> (b: bool)
    ensures
        b == flag_on(env@, name@, default@),
{
    str_eq(env_or(env, name, default).as_str(), "true")
}

/// Whether the variable is anything but exactly `false`.
fn env_not_off(env: &StrMap<String>, name: &str) -> (b: bool)
    ensures
        b == flag_not_off(env@, name@),
{
    !str_eq(env_or(env, name, "true").as_str(), "false")
}

impl Config {
    /// The configuration for the deployment named by `RUST_ENV`, validated
    /// (see `config_problem` and `config_matches`).
    pub fn new(env: &StrMap<String>) -> (r: Result<Config, String>)
        ensures
            match r {
                Ok(c) => config_problem(env@, deployment_of(env@)) is None && config_matches(c, env@, deployment_of(env@)),
                Err(e) => config_problem(env@, deployment_of(env@)) == Some(e@),
            },
    {
        let mode = env_or(env, "RUST_ENV", "development");
        let d = if str_eq(mode.as_str(), "staging") {
            Deployment::Staging
        } else if str_eq(mode.as_str(), "production") {
            Deployment::Production
        } else {
            Deployment::Development
        };
        let config = match d {
            Deployment::Development => Self::development_config(env)?,
            Deployment::Staging => Self::staging_config(env)?,
            Deployment::Production => Self::production_config(env)?,
        };
        config.validate(d)?;
        Ok(config)
    }

    /// The development configuration: every variable has a default.
    pub fn development_config(env: &StrMap<String>) -> (r: Result<Config, String>)
        ensures
            match r {
                Ok(c) => config_matches(c, env@, Deployment::Development)
                    && config_problem(env@, Deployment::Development) is None,
                Err(e) => config_problem(env@, Deployment::Development) == Some(e@),
            },
    {
        let rpc_url = env_or(env, "RPC_URL", "https://sepolia.base.org");
        let chain_id = number_of(env_or(env, "CHAIN_ID", "84532").as_str(), "CHAIN_ID", u64::MAX)?;
        let contract_address = env_or(env, "CONTRACT_ADDRESS", "0x7B79117445C57eea1CEAb4733020A55e1D503934");
        let api_key = env_or(env, "API_KEY", "dev_api_key");
        let jwt_secret = env_or(env, "JWT_SECRET", "dev_jwt_secret");
        let port = number_of(env_or(env, "PORT", "4000").as_str(), "PORT", 65535)?;
        let cors_origins = env_or(env, "CORS_ORIGINS", "*");
        let max_requests = number_of(env_or(env, "RATE_LIMIT_MAX", "1000").as_str(), "RATE_LIMIT_MAX", 4294967295)?;
        Ok(Config {
            rpc_url,
            chain_id,
            contract_address,
            api_key,
            jwt_secret,
            log_level: owned("debug"),
            port: port as u16,
            cors_origins,
            rate_limits: RateLimitConfig { window_ms: 15 * 60 * 1000, max_requests: max_requests as u32 },
            debug: env_flag(env, "DEBUG", "true"),
            enable_swagger: env_flag(env, "ENABLE_SWAGGER", "true"),
            enable_cors_debug: env_flag(env, "ENABLE_CORS_DEBUG", "true"),
            enable_metrics: true,
            enable_health_checks: true,
            log_requests: true,
            enable_alerting: false,
            enable_rate_limiting: true,
            enable_cors: true,
            enable_jwt_validation: true,
            enable_api_key_validation: true,
            supported_chains: Self::get_supported_chains(env),
        })
    }

    /// The staging configuration: `API_KEY` and `JWT_SECRET` must be set.
    pub fn staging_config(env: &StrMap<String>) -> (r: Result<Config, String>)
        ensures
            match r {
                Ok(c) => config_matches(c, env@, Deployment::Staging)
                    && env@.dom().contains("API_KEY"@) && env@.dom().contains("JWT_SECRET"@)
                    && (config_problem(env@, Deployment::Staging) is None
                        <==> (env@["API_KEY"@]@.len() > 0 && env@["JWT_SECRET"@]@.len() > 0))
                    && (env@["API_KEY"@]@.len() == 0 ==> config_problem(env@, Deployment::Staging) == Some("API_KEY is required in staging environment"@))
                    && (env@["API_KEY"@]@.len() > 0 && env@["JWT_SECRET"@]@.len() == 0 ==> config_problem(env@, Deployment::Staging) == Some("JWT_SECRET is required in staging environment"@)),
                Err(e) => config_problem(env@, Deployment::Staging) == Some(e@),
            },
    {
        let rpc_url = env_or(env, "RPC_URL", "https://sepolia.base.org");
        let chain_id = number_of(env_or(env, "CHAIN_ID", "84532").as_str(), "CHAIN_ID", u64::MAX)?;
        let contract_address = env_or(env, "CONTRACT_ADDRESS", "0x7B79117445C57eea1CEAb4733020A55e1D503934");
        let api_key = env_required(env, "API_KEY", "API_KEY required in staging")?;
        let jwt_secret = env_required(env, "JWT_SECRET", "JWT_SECRET required in staging")?;
        let port = number_of(env_or(env, "PORT", "4000").as_str(), "PORT", 65535)?;
        let cors_origins = env_or(env, "CORS_ORIGINS", "https://staging.airchainpay.com,https://staging-wallet.airchainpay.com");
        let max_requests = number_of(env_or(env, "RATE_LIMIT_MAX", "500").as_str(), "RATE_LIMIT_MAX", 4294967295)?;
        Ok(Config {
            rpc_url,
            chain_id,
            contract_address,
            api_key,
            jwt_secret,
            log_level: owned("info"),
            port: port as u16,
            cors_origins,
            rate_limits: RateLimitConfig { window_ms: 15 * 60 * 1000, max_requests: max_requests as u32 },
            debug: env_flag(env, "DEBUG", "false"),
            enable_swagger: env_flag(env, "ENABLE_SWAGGER", "true"),
            enable_cors_debug: env_flag(env, "ENABLE_CORS_DEBUG", "false"),
            enable_metrics: env_flag(env, "ENABLE_METRICS", "true"),
            enable_health_checks: env_flag(env, "ENABLE_HEALTH_CHECKS", "true"),
            log_requests: env_flag(env, "LOG_REQUESTS", "true"),
            enable_alerting: false,
            enable_rate_limiting: true,
            enable_cors: true,
            enable_jwt_validation: true,
            enable_api_key_validation: true,
            supported_chains: Self::get_supported_chains(env),
        })
    }

    /// The production configuration: the chain, contract and secrets must be set.
    pub fn production_config(env: &StrMap<String>) -> (r: Result<Config, String>)
        ensures
            match r {
                Ok(c) => config_matches(c, env@, Deployment::Production)
                    && env@.dom().contains("RPC_URL"@) && env@.dom().contains("CHAIN_ID"@)
                    && env@.dom().contains("CONTRACT_ADDRESS"@) && env@.dom().contains("API_KEY"@)
                    && env@.dom().contains("JWT_SECRET"@)
                    && var_number(env@, "PORT"@, "4000"@, u16::MAX as nat) is Some
                    && var_number(env@, "RATE_LIMIT_MAX"@, "100"@, u32::MAX as nat) is Some
                    && var_number(env@, "CHAIN_ID"@, ""@, u64::MAX as nat) is Some,
                Err(e) => config_problem(env@, Deployment::Production) == Some(e@),
            },
    {
        let rpc_url = env_required(env, "RPC_URL", "RPC_URL required in production")?;
        let chain_text = env_required(env, "CHAIN_ID", "CHAIN_ID required in production")?;
        let chain_id = number_of(chain_text.as_str(), "CHAIN_ID", u64::MAX)?;
        let contract_address = env_required(env, "CONTRACT_ADDRESS", "CONTRACT_ADDRESS required in production")?;
        let api_key = env_required(env, "API_KEY", "API_KEY required in production")?;
        let jwt_secret = env_required(env, "JWT_SECRET", "JWT_SECRET required in production")?;
        let port = number_of(env_or(env, "PORT", "4000").as_str(), "PORT", 65535)?;
        let cors_origins = env_or(env, "CORS_ORIGINS", "https://app.airchainpay.com,https://wallet.airchainpay.com");
        let max_requests = number_of(env_or(env, "RATE_LIMIT_MAX", "100").as_str(), "RATE_LIMIT_MAX", 4294967295)?;
        Ok(Config {
            rpc_url,
            chain_id,
            contract_address,
            api_key,
            jwt_secret,
            log_level: env_or(env, "LOG_LEVEL", "warn"),
            port: port as u16,
            cors_origins,
            rate_limits: RateLimitConfig { window_ms: 15 * 60 * 1000, max_requests: max_requests as u32 },
            debug: env_flag(env, "DEBUG", "false"),
            enable_swagger: env_flag(env, "ENABLE_SWAGGER", "true"),
            enable_cors_debug: env_flag(env, "ENABLE_CORS_DEBUG", "false"),
            enable_metrics: env_flag(env, "ENABLE_METRICS", "true"),
            enable_health_checks: env_flag(env, "ENABLE_HEALTH_CHECKS", "true"),
            log_requests: env_flag(env, "LOG_REQUESTS", "true"),
            enable_alerting: env_flag(env, "ENABLE_ALERTING", "true"),
            enable_rate_limiting: env_not_off(env, "ENABLE_RATE_LIMITING"),
            enable_cors: env_not_off(env, "ENABLE_CORS"),
            enable_jwt_validation: env_not_off(env, "ENABLE_JWT_VALIDATION"),
            enable_api_key_validation: env_not_off(env, "ENABLE_API_KEY_VALIDATION"),
            supported_chains: Self::get_supported_chains(env),
        })
    }

    /// The table of supported chains (see `chains_match`).
    pub fn get_supported_chains(env: &StrMap<String>) -> (chains: HashMap<u64, ChainConfig>)
        ensures
            chains_match(chains@, env@),
    {
        let mut chains: HashMap<u64, ChainConfig> = HashMap::new();
        chains.insert(84532, ChainConfig {
            name: owned("Base Sepolia"),
            rpc_url: owned("https://sepolia.base.org"),
            contract_address: env_or(env, "BASE_SEPOLIA_CONTRACT_ADDRESS", "0x7B79117445C57eea1CEAb4733020A55e1D503934"),
            explorer: owned("https://sepolia.basescan.org"),
            currency_symbol: None,
        });
        chains.insert(11155420, ChainConfig {
            name: owned("Core Testnet"),
            rpc_url: owned("https://rpc.test.btcs.network"),
            contract_address: env_or(env, "CORE_TESTNET_CONTRACT_ADDRESS", "0x8d7eaB03a72974F5D9F5c99B4e4e1B393DBcfCAB"),
            explorer: owned("https://scan.test2.btcs.network"),
            currency_symbol: None,
        });
        chains.insert(1114, ChainConfig {
            name: owned("Core Testnet 2"),
            rpc_url: env_or(env, "RPC_URL", "https://rpc.test2.btcs.network"),
            contract_address: env_or(env, "CONTRACT_ADDRESS", ""),
            explorer: env_or(env, "BLOCK_EXPLORER", "https://scan.test2.btcs.network"),
            currency_symbol: Some(env_or(env, "CURRENCY_SYMBOL", "TCORE2")),
        });
        chains.insert(8453, ChainConfig {
            name: owned("Base Mainnet"),
            rpc_url: env_or(env, "BASE_MAINNET_RPC_URL", "https://mainnet.base.org"),
            contract_address: env_or(env, "BASE_MAINNET_CONTRACT_ADDRESS", ""),
            explorer: owned("https://basescan.org"),
            currency_symbol: None,
        });
        chains.insert(1116, ChainConfig {
            name: owned("Core Mainnet"),
            rpc_url: env_or(env, "CORE_MAINNET_RPC_URL", "https://rpc.coredao.org"),
            contract_address: env_or(env, "CORE_MAINNET_CONTRACT_ADDRESS", ""),
            explorer: owned("https://scan.coredao.org"),
            currency_symbol: None,
        });
        assert(chains@.dom() =~= set![84532u64, 11155420u64, 1114u64, 8453u64, 1116u64]);
        chains
    }

    /// The validation of a configuration for deployment `d`: in production
    /// the chain endpoint, contract and secrets must be non-empty, in
    /// staging the secrets.
    pub fn validate(&self, d: Deployment) -> (r: Result<(), String>)
        ensures
            match r {
                Ok(_) => match d {
                    Deployment::Production => self.rpc_url@.len() > 0 && self.contract_address@.len() > 0
                        && self.api_key@.len() > 0 && self.jwt_secret@.len() > 0,
                    Deployment::Staging => self.api_key@.len() > 0 && self.jwt_secret@.len() > 0,
                    Deployment::Development => true,
                },
                Err(e) => match d {
                    Deployment::Production =>
                        if self.rpc_url@.len() == 0 { e@ == "RPC_URL is required in production environment"@ }
                        else if self.contract_address@.len() == 0 { e@ == "CONTRACT_ADDRESS is required in production environment"@ }
                        else if self.api_key@.len() == 0 { e@ == "API_KEY is required in production environment"@ }
                        else { self.jwt_secret@.len() == 0 && e@ == "JWT_SECRET is required in production environment"@ },
                    Deployment::Staging =>
                        if self.api_key@.len() == 0 { e@ == "API_KEY is required in staging environment"@ }
                        else { self.jwt_secret@.len() == 0 && e@ == "JWT_SECRET is required in staging environment"@ },
                    Deployment::Development => false,
                },
            },
    {
        match d {
            Deployment::Production => {
                if self.rpc_url.as_str().is_empty() {
                    return Err(owned("RPC_URL is required in production environment"));
                }
                if self.contract_address.as_str().is_empty() {
                    return Err(owned("CONTRACT_ADDRESS is required in production environment"));
                }
                if self.api_key.as_str().is_empty() {
                    return Err(owned("API_KEY is required in production environment"));
                }
                if self.jwt_secret.as_str().is_empty() {
                    return Err(owned("JWT_SECRET is required in production environment"));
                }
                Ok(())
            },
            Deployment::Staging => {
                if self.api_key.as_str().is_empty() {
                    return Err(owned("API_KEY is required in staging environment"));
                }
                if self.jwt_secret.as_str().is_empty() {
                    return Err(owned("JWT_SECRET is required in staging environment"));
                }
                Ok(())
            },
            Deployment::Development => Ok(()),
        }
    }

    /// The supported chain with this identifier.
    pub fn get_chain_config(&self, chain_id: u64) -> (r: Option<&ChainConfig>)
        ensures
            match r {
                Some(c) => self.supported_chains@.dom().contains(chain_id) && *c == self.supported_chains@[chain_id],
                None => !self.supported_chains@.dom().contains(chain_id),
            },
    {
        self.supported_chains.get(&chain_id)
    }
}

} // verus!
