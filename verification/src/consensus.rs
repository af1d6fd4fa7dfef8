//! Consensus across sources: which answers count, and whether they are
//! enough. The value reported is the arithmetic mean of the answers that
//! count; this module says which those are and leaves the mean to the
//! caller, who holds the numbers as doubles.
use vstd::prelude::*;

verus! {

/// The fewest successful sources that make a consensus, unless configured
/// otherwise.
pub const MINIMUM_SOURCE_COUNT: usize = 1;

/// Why there is no consensus.
#[derive(Debug, Clone, Copy, PartialEq, Eq, Structural)]
pub enum ConsensusError {
    /// Fewer sources succeeded than the quorum asks for.
    QuorumFailure,
}

impl ConsensusError {
    /// The text of the error.
    pub fn message(&self) -> (r: String)
        ensures
            r@ == "quorum failure"@,
    {
        "quorum failure".to_owned()
    }
}

/// The answers of the sources that succeeded, in the order of the sources.
pub open spec fn successes<T>(sources: Seq<Option<T>>) -> Seq<T>
    decreases sources.len(),
{
    if sources.len() == 0 {
        Seq::empty()
    } else {
        let before = successes(sources.drop_last());
        match sources.last() {
            Some(x) => before.push(x),
            None => before,
        }
    }
}

/// Whether `count` successful sources meet the quorum `minimum`. No quorum
/// is met without a single source, whatever the minimum.
pub open spec fn quorum_met(count: nat, minimum: nat) -> bool {
    count >= minimum && count > 0
}

/// The answers that enter the consensus: those of the sources that
/// succeeded, where they meet the quorum.
pub open spec fn consensus_of(sources: Seq<Option<u64>>, minimum: nat) -> Result<Seq<u64>, ConsensusError> {
    let ok = successes(sources);
    if quorum_met(ok.len(), minimum) {
        Ok(ok)
    } else {
        Err(ConsensusError::QuorumFailure)
    }
}

/// A source that failed never enters the consensus, and a source that
/// succeeded always does: the contributing answers are as many as the
/// sources that answered, and no more than there are sources.
pub proof fn law_only_successes_contribute<T>(sources: Seq<Option<T>>)
    ensures
        successes(sources).len() <= sources.len(),
        (forall|i: int| 0 <= i < sources.len() ==> sources[i] is None) ==> successes(sources).len()
            == 0,
        (forall|i: int| 0 <= i < sources.len() ==> sources[i] is Some) ==> successes(sources).len()
            == sources.len(),
    decreases sources.len(),
{
    if sources.len() > 0 {
        law_only_successes_contribute(sources.drop_last());
    }
}

/// Where no source answers there is no consensus, whatever the quorum: the
/// item fails, it is never reported with a made-up value.
pub proof fn law_no_answer_no_consensus(sources: Seq<Option<u64>>, minimum: nat)
    requires
        forall|i: int| 0 <= i < sources.len() ==> sources[i] is None,
    ensures
        consensus_of(sources, minimum) == Err::<Seq<u64>, ConsensusError>(
            ConsensusError::QuorumFailure,
        ),
{
    law_only_successes_contribute(sources);
}

/// The answers of the sources that succeeded, in the order of the sources.
/// An answer is the bit pattern of a double.
pub fn valid_sources(sources: &Vec<Option<u64>>) -> (r: Vec<u64>)
    ensures
        r@ == successes(sources@),
{
    let mut out: Vec<u64> = Vec::new();
    let mut i: usize = 0;
    while i < sources.len()
        invariant
            i <= sources.len(),
            out@ == successes(sources@.take(i as int)),
        decreases sources.len() - i,
    {
        proof {
            assert(sources@.take(i + 1).drop_last() =~= sources@.take(i as int));
            assert(sources@.take(i + 1).last() == sources@[i as int]);
        }
        match sources[i] {
            Some(x) => {
                out.push(x);
            },
            None => {},
        }
        i = i + 1;
    }
    assert(sources@.take(i as int) =~= sources@);
    out
}

/// The answers that enter the consensus under the quorum `minimum`: those
/// of the sources that succeeded, or the quorum failure where they are too
/// few.
pub fn resolve_with_quorum(sources: &Vec<Option<u64>>, minimum: usize) -> (r: Result<Vec<u64>, ConsensusError>)
    ensures
        match r {
            Ok(v) => consensus_of(sources@, minimum as nat) == Ok::<Seq<u64>, ConsensusError>(v@),
            Err(e) => consensus_of(sources@, minimum as nat) == Err::<Seq<u64>, ConsensusError>(e),
        },
{
    let ok = valid_sources(sources);
    if ok.len() >= minimum && ok.len() > 0 {
        Ok(ok)
    } else {
        Err(ConsensusError::QuorumFailure)
    }
}

/// The answers that enter the consensus under the default quorum.
pub fn resolve_prices(sources: &Vec<Option<u64>>) -> (r: Result<Vec<u64>, ConsensusError>)
    ensures
        match r {
            Ok(v) => consensus_of(sources@, MINIMUM_SOURCE_COUNT as nat) == Ok::<
                Seq<u64>,
                ConsensusError,
            >(v@),
            Err(e) => consensus_of(sources@, MINIMUM_SOURCE_COUNT as nat) == Err::<
                Seq<u64>,
                ConsensusError,
            >(e),
        },
{
    resolve_with_quorum(sources, MINIMUM_SOURCE_COUNT)
}

/// A consensus value with the answers it was taken from, all as bit
/// patterns of doubles.
#[derive(Debug)]
pub struct InformationDetails {
    pub value: u64,
    pub sources: Vec<u64>,
}

/// The model of an [`InformationDetails`].
pub struct DetailsView {
    pub value: u64,
    pub sources: Seq<u64>,
}

impl View for InformationDetails {
    type V = DetailsView;

    open spec fn view(&self) -> DetailsView {
        DetailsView { value: self.value, sources: self.sources@ }
    }
}

/// The consensus value of the answers of the sources, once its mean has
/// been computed: the mean with the answers that entered it, or the quorum
/// failure.
pub open spec fn details_of(sources: Seq<Option<u64>>, minimum: nat, mean: u64) -> Result<
    DetailsView,
    ConsensusError,
> {
    match consensus_of(sources, minimum) {
        Ok(contributing) => Ok(DetailsView { value: mean, sources: contributing }),
        Err(e) => Err(e),
    }
}

/// The model of a consensus value or of the failure to reach one.
pub open spec fn details_result(r: Result<InformationDetails, ConsensusError>) -> Result<
    DetailsView,
    ConsensusError,
> {
    match r {
        Ok(d) => Ok(d@),
        Err(e) => Err(e),
    }
}

fn copy_of(v: &Vec<u64>) -> (r: Vec<u64>)
    ensures
        r@ == v@,
{
    let mut out: Vec<u64> = Vec::new();
    let mut i: usize = 0;
    while i < v.len()
        invariant
            i <= v.len(),
            out@ == v@.take(i as int),
        decreases v.len() - i,
    {
        out.push(v[i]);
        i = i + 1;
        assert(out@ =~= v@.take(i as int));
    }
    assert(v@.take(v.len() as int) =~= v@);
    out
}

impl InformationDetails {
    pub fn new(value: u64, sources: Vec<u64>) -> (r: InformationDetails)
        ensures
            r@ == (DetailsView { value, sources: sources@ }),
    {
        InformationDetails { value, sources }
    }

    /// A copy of the details.
    pub fn duplicate(&self) -> (r: InformationDetails)
        ensures
            r@ == self@,
    {
        InformationDetails { value: self.value, sources: copy_of(&self.sources) }
    }
}

/// The consensus value of the answers of the sources under the quorum
/// `minimum`, given the mean of the answers that enter it: the mean
/// together with those answers, in the order of the sources.
pub fn consensus_details(sources: &Vec<Option<u64>>, minimum: usize, mean: u64) -> (r: Result<
    InformationDetails,
    ConsensusError,
>)
    ensures
        details_result(r) == details_of(sources@, minimum as nat, mean),
{
    match resolve_with_quorum(sources, minimum) {
        Ok(contributing) => Ok(InformationDetails::new(mean, contributing)),
        Err(e) => Err(e),
    }
}

} // verus!
