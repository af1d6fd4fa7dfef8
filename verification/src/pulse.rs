//! The pulse: a small program that asks the oracle at intervals for the
//! price of one asset, picked at random from a list.
use vstd::prelude::*;
use crate::text::views;
use crate::types::{pair_list, split_pairs};

verus! {

/// The arguments of the pulse.
#[derive(Debug)]
pub struct Cli {
    /// The program on the ledger that forwards the request.
    pub canister: String,
    /// The assets to ask prices for, separated by commas.
    pub assets: String,
    /// The schedule, in cron notation.
    pub cron: String,
    /// Whether to use a local replica of the ledger.
    pub dev: bool,
}

/// Why no asset could be chosen.
#[derive(Debug, Clone, Copy, PartialEq, Eq, Structural)]
pub enum PulseError {
    /// The list of assets is empty.
    EmptyList,
}

impl PulseError {
    /// The text of the error.
    pub fn message(&self) -> (r: String)
        ensures
            r@ == "Assets list is empty"@,
    {
        "Assets list is empty".to_owned()
    }
}

/// One of the choices, picked at random; none where there are none. Wraps
/// `rand::seq::SliceRandom::choose` with the thread's generator, which
/// returns `None` for an empty slice and else an item of the slice. Which
/// item is left open.
#[verifier::external_body]
pub(crate) fn pick(choices: &Vec<String>) -> (r: Option<String>)
    ensures
        choices@.len() == 0 ==> r is None,
        choices@.len() > 0 ==> r is Some && views(choices@).contains(r->Some_0@),
{
    rand::seq::SliceRandom::choose(choices.as_slice(), &mut rand::thread_rng()).cloned()
}

/// The asset that was picked, or the error of an empty list where none
/// was.
pub fn chosen_asset(picked: Option<String>) -> (r: Result<String, PulseError>)
    ensures
        match picked {
            Some(asset) => r is Ok && r->Ok_0@ == asset@,
            None => r == Err::<String, PulseError>(PulseError::EmptyList),
        },
{
    match picked {
        Some(asset) => Ok(asset),
        None => Err(PulseError::EmptyList),
    }
}

/// One asset of a comma-separated list, picked at random; each entry is
/// trimmed and put in upper case first. A list always has an entry, be it
/// empty, so there is always an asset.
pub fn choose_asset(assets: &str) -> (r: Result<String, PulseError>)
    ensures
        r is Ok,
        pair_list(assets@).contains(r->Ok_0@),
{
    let choices = split_pairs(assets);
    chosen_asset(pick(&choices))
}

/// The ledger that the pulse connects to: a local replica for development,
/// else the public gateway.
pub fn agent_url(dev: bool) -> (r: &'static str)
    ensures
        r@ == if dev {
            crate::config::DEFAULT_SHARED_LOCAL_BIND@
        } else {
            crate::config::DEFAULT_IC_GATEWAY@
        },
{
    if dev {
        crate::config::DEFAULT_SHARED_LOCAL_BIND
    } else {
        crate::config::DEFAULT_IC_GATEWAY
    }
}

} // verus!
