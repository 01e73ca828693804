//! How the pool is set up, and when it may start.
use crate::text::same_text;
use vstd::prelude::*;

verus! {

/// The environment variables that the pool reads, where they are set.
pub struct Environment {
    /// `BITCOIN_RPC_URL`
    pub rpc_url: Option<String>,
    /// `BITCOIN_RPC_USER`
    pub rpc_user: Option<String>,
    /// `BITCOIN_RPC_PASS`
    pub rpc_pass: Option<String>,
    /// `BITCOIN_ZMQ_BLOCK`
    pub zmq_block: Option<String>,
    /// `BITCOIN_ZMQ_TX`
    pub zmq_tx: Option<String>,
    /// `STRATUM_ADDR`
    pub stratum_addr: Option<String>,
    /// `WEB_ADDR`
    pub web_addr: Option<String>,
    /// `POOL_DB`
    pub db_path: Option<String>,
    /// `NETWORK`
    pub network: Option<String>,
    /// `PAYOUT_ADDRESS`
    pub payout_address: Option<String>,
    /// `MINER_PASSWORD`
    pub miner_password: Option<String>,
}

/// The pool's settings.
pub struct Settings {
    pub rpc_url: String,
    pub rpc_user: String,
    pub rpc_pass: String,
    pub zmq_block: String,
    pub zmq_tx: String,
    pub stratum_addr: String,
    pub web_addr: String,
    pub db_path: String,
    /// What a miner has to give to be authorized, where anything.
    pub miner_password: Option<String>,
}

/// Why the pool does not start.
#[derive(Clone, Copy, Debug, PartialEq, Eq, Structural)]
pub enum ConfigError {
    /// The network is mainnet, and there is no payout address.
    NoPayoutAddress,
}

impl ConfigError {
    /// Says why the pool does not start.
    pub fn message(&self) -> (message: &'static str)
        ensures
            message@ == "PAYOUT_ADDRESS must be set on NETWORK=mainnet"@,
    {
        "PAYOUT_ADDRESS must be set on NETWORK=mainnet"
    }
}

/// The characters of a variable's value, or of its default where it is not set.
pub open spec fn value_or(value: Option<String>, default: Seq<char>) -> Seq<char> {
    match value {
        Some(value) => value@,
        None => default,
    }
}

/// A variable's value, or its default where it is not set.
pub fn env_or(value: Option<String>, default: &str) -> (text: String)
    ensures
        text@ == value_or(value, default@),
{
    match value {
        Some(value) => value,
        None => default.to_owned(),
    }
}

/// Whether the pool may start: on mainnet only with a payout address that is not empty. The
/// address is only asked for: no setting carries it, and the coinbase does not pay to it.
pub open spec fn may_start(network: Option<String>, payout_address: Option<String>) -> bool {
    value_or(network, Seq::empty()) == "mainnet"@ ==> value_or(payout_address, Seq::empty()).len()
        > 0
}

/// Refuses to start on mainnet without a payout address.
pub fn check_payout(network: &Option<String>, payout_address: &Option<String>) -> (checked: Result<
    (),
    ConfigError,
>)
    ensures
        checked is Ok <==> may_start(*network, *payout_address),
        checked is Err ==> checked->Err_0 == ConfigError::NoPayoutAddress,
{
    proof {
        reveal_strlit("mainnet");
        assert("mainnet"@.len() == 7);
    }
    let mainnet = match network {
        Some(network) => same_text(network, "mainnet"),
        None => false,
    };
    let payable = match payout_address {
        Some(address) => !address.as_str().is_empty(),
        None => false,
    };
    if mainnet && !payable {
        Err(ConfigError::NoPayoutAddress)
    } else {
        Ok(())
    }
}

/// Makes the settings out of the environment, each with its default, or says why the pool does
/// not start.
pub fn configure(env: Environment) -> (settings: Result<Settings, ConfigError>)
    ensures
        settings is Ok <==> may_start(env.network, env.payout_address),
        settings is Err ==> settings->Err_0 == ConfigError::NoPayoutAddress,
        settings matches Ok(settings) ==> {
            &&& settings.rpc_url@ == value_or(env.rpc_url, "http://127.0.0.1:18443"@)
            &&& settings.rpc_user@ == value_or(env.rpc_user, "solo"@)
            &&& settings.rpc_pass@ == value_or(env.rpc_pass, "solo123"@)
            &&& settings.zmq_block@ == value_or(env.zmq_block, "tcp://127.0.0.1:28342"@)
            &&& settings.zmq_tx@ == value_or(env.zmq_tx, "tcp://127.0.0.1:28343"@)
            &&& settings.stratum_addr@ == value_or(env.stratum_addr, "0.0.0.0:3335"@)
            &&& settings.web_addr@ == value_or(env.web_addr, "0.0.0.0:8080"@)
            &&& settings.db_path@ == value_or(env.db_path, "./data/pool.sqlite"@)
            &&& settings.miner_password == env.miner_password
        },
{
    match check_payout(&env.network, &env.payout_address) {
        Err(error) => Err(error),
        Ok(()) => Ok(
            Settings {
                rpc_url: env_or(env.rpc_url, "http://127.0.0.1:18443"),
                rpc_user: env_or(env.rpc_user, "solo"),
                rpc_pass: env_or(env.rpc_pass, "solo123"),
                zmq_block: env_or(env.zmq_block, "tcp://127.0.0.1:28342"),
                zmq_tx: env_or(env.zmq_tx, "tcp://127.0.0.1:28343"),
                stratum_addr: env_or(env.stratum_addr, "0.0.0.0:3335"),
                web_addr: env_or(env.web_addr, "0.0.0.0:8080"),
                db_path: env_or(env.db_path, "./data/pool.sqlite"),
                miner_password: env.miner_password,
            },
        ),
    }
}

/// How often the first job may fail before the pool gives up.
pub const STARTUP_RETRIES: usize = 10;

/// What follows a failure to get the first job.
#[derive(Clone, Copy, Debug, PartialEq, Eq, Structural)]
pub enum Retry {
    /// Try again; so many attempts have failed.
    Again(usize),
    GiveUp,
}

/// Decides what follows another failure after `failures` of them: the pool gives up at the
/// first one past the retries.
pub fn after_failure(failures: usize) -> (retry: Retry)
    ensures
        retry == (if failures < STARTUP_RETRIES {
            Retry::Again((failures + 1) as usize)
        } else {
            Retry::GiveUp
        }),
{
    if failures < STARTUP_RETRIES {
        Retry::Again(failures + 1)
    } else {
        Retry::GiveUp
    }
}

} // verus!
