//! The settings of the pipeline and the notary it works with.
use vstd::prelude::*;

verus! {

pub const MAMANGEMENT_CANISTER_ID: &'static str = "aaaaa-aa";

pub const DEFAULT_SHARED_LOCAL_BIND: &'static str = "http://127.0.0.1:4943";

pub const DEFAULT_IC_GATEWAY: &'static str = "https://icp0.io";

pub const DEFAULT_IC_GATEWAY_TRAILING_SLASH: &'static str = "https://icp0.io/";

pub const DEFAULT_IDENTITY_PATH: &'static str = "./identity.pem";

pub const DEFAULT_JOB_SCHEDULE: &'static str = "1/60 * * * * *";

pub const DEFAULT_PROVER_URL: &'static str = "http://127.0.0.1:8080";

/// What the notary says of itself.
#[derive(Debug)]
pub struct NotaryInformation {
    pub version: String,
    pub public_key: String,
    pub git_commit_hash: String,
    pub git_commit_timestamp: String,
}

/// The settings of the pipeline.
#[derive(Debug)]
pub struct Config {
    /// The URL of the ledger to connect to.
    pub url: String,
    /// The oracle's program on the ledger.
    pub canister: candid::Principal,
    /// The path to the key file of the pipeline's identity.
    pub keyfile_path: String,
    /// The schedule on which the log is polled.
    pub job_schedule: String,
    /// The URL of the prover.
    pub prover_url: String,
    /// Whether this is a development setup.
    pub is_dev: bool,
}

/// Whether a URL is that of the public gateway, with or without the slash
/// at its end.
pub open spec fn is_gateway(url: Seq<char>) -> bool {
    url == DEFAULT_IC_GATEWAY@ || url == DEFAULT_IC_GATEWAY_TRAILING_SLASH@
}

/// A setting, or its default where it is not set.
pub fn get_env_or_default(value: Option<String>, default: &str) -> (r: String)
    ensures
        r@ == match value {
            Some(v) => v@,
            None => default@,
        },
{
    match value {
        Some(v) => v,
        None => default.to_owned(),
    }
}

impl Config {
    /// The settings from the values found in the environment, each with its
    /// default. A setup is one for development unless it connects to the
    /// public gateway.
    pub fn env(
        icp_url: Option<String>,
        canister: candid::Principal,
        keyfile_path: Option<String>,
        job_schedule: Option<String>,
        prover_url: Option<String>,
    ) -> (r: Config)
        ensures
            r.url@ == match icp_url {
                Some(v) => v@,
                None => DEFAULT_SHARED_LOCAL_BIND@,
            },
            r.canister == canister,
            r.keyfile_path@ == match keyfile_path {
                Some(v) => v@,
                None => DEFAULT_IDENTITY_PATH@,
            },
            r.job_schedule@ == match job_schedule {
                Some(v) => v@,
                None => DEFAULT_JOB_SCHEDULE@,
            },
            r.prover_url@ == match prover_url {
                Some(v) => v@,
                None => DEFAULT_PROVER_URL@,
            },
            r.is_dev == !is_gateway(r.url@),
    {
        let url = get_env_or_default(icp_url, DEFAULT_SHARED_LOCAL_BIND);
        let is_mainnet = url == DEFAULT_IC_GATEWAY.to_owned() || url
            == DEFAULT_IC_GATEWAY_TRAILING_SLASH.to_owned();
        Config {
            url,
            canister,
            keyfile_path: get_env_or_default(keyfile_path, DEFAULT_IDENTITY_PATH),
            job_schedule: get_env_or_default(job_schedule, DEFAULT_JOB_SCHEDULE),
            prover_url: get_env_or_default(prover_url, DEFAULT_PROVER_URL),
            is_dev: !is_mainnet,
        }
    }

    /// Where the prover tells of the notary it is connected to.
    pub fn notary_info_url(&self) -> (r: String)
        ensures
            r@ == self.prover_url@ + "/notaryinfo"@,
    {
        self.prover_url.clone().concat("/notaryinfo")
    }
}

} // verus!
