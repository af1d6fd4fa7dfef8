//! The checkpoint of the log poller: the time up to which the log has been
//! worked through. It outlives the process in a file of its own.
use vstd::prelude::*;

verus! {

/// The folder, below the working directory, that holds the checkpoint.
pub const CACHE_FOLDER: &'static str = ".cache";

/// The watermark: the time of the last log record that was worked through.
#[derive(Debug, Clone, Copy, PartialEq, Eq, Structural)]
pub struct LogPollerState {
    pub start_timestamp: u64,
}

/// The path of the checkpoint file below the working directory.
pub open spec fn storage_path() -> Seq<char> {
    CACHE_FOLDER@ + seq!['/'] + "LogPollerState"@ + ".json"@
}

impl LogPollerState {
    /// The logical name under which the checkpoint is stored.
    pub fn get_struct_name() -> (r: &'static str)
        ensures
            r@ == "LogPollerState"@,
    {
        "LogPollerState"
    }

    pub fn new(start_timestamp: u64) -> (r: LogPollerState)
        ensures
            r.start_timestamp == start_timestamp,
    {
        LogPollerState { start_timestamp }
    }

    /// The path of the checkpoint file, relative to the working directory:
    /// the cache folder, then the logical name with the extension `.json`.
    pub fn get_storage_path() -> (r: String)
        ensures
            r@ == storage_path(),
    {
        let folder = CACHE_FOLDER.to_owned().concat("/");
        proof {
            reveal_strlit("/");
            assert("/"@ =~= seq!['/']);
        }
        let named = folder.concat(LogPollerState::get_struct_name());
        let r = named.concat(".json");
        assert(r@ =~= storage_path());
        r
    }

    /// The checkpoint to start a cycle from: the stored one, or on the first
    /// run ever a fresh one at time `now`, which then has to be written. The
    /// second result says whether it has to be.
    pub fn load_state(stored: Option<LogPollerState>, now: u64) -> (r: (LogPollerState, bool))
        ensures
            r.1 == (stored is None),
            stored is Some ==> r.0 == stored->Some_0,
            stored is None ==> r.0.start_timestamp == now,
    {
        match stored {
            Some(state) => (state, false),
            None => (LogPollerState::new(now), true),
        }
    }

    /// The checkpoint after a cycle whose last record was dated
    /// `last_record`: that time where it is later, else the checkpoint as it
    /// was. A cycle without records leaves it as it was.
    pub fn advanced(&self, last_record: Option<u64>) -> (r: LogPollerState)
        ensures
            r.start_timestamp == advanced_to(self.start_timestamp, last_record),
            r.start_timestamp >= self.start_timestamp,
    {
        match last_record {
            Some(t) => if t > self.start_timestamp {
                LogPollerState::new(t)
            } else {
                *self
            },
            None => *self,
        }
    }
}

/// The watermark after a cycle whose last record was dated `last_record`.
pub open spec fn advanced_to(watermark: u64, last_record: Option<u64>) -> u64 {
    match last_record {
        Some(t) => if t > watermark {
            t
        } else {
            watermark
        },
        None => watermark,
    }
}

} // verus!
