//! One health evaluation as a state machine. The caller performs the network
//! calls that each action asks for and hands their results back.
use vstd::prelude::*;
use crate::aggregate::aggregate_heights;
use crate::aggregate::all_failed;
use crate::aggregate::best_height;
use crate::aggregate::lemma_best_height_is_max;
use crate::rpc::RpcError;
use crate::rpc::SyncingStatus;
use crate::verdict::conclude;
use crate::verdict::verdict_after_syncing;
use crate::verdict::verdict_of;
use crate::verdict::HealthVerdict;

verus! {

/// Where an evaluation stands.
#[derive(Clone, Copy, Debug, PartialEq, Eq, Structural)]
pub enum Phase {
    /// Waiting for the node's own height and the reference heights, which are
    /// fetched concurrently.
    AwaitingHeights,
    /// The node's height is known; waiting for its syncing status.
    AwaitingSyncing { own: u64, reference: u64 },
    /// The verdict is decided.
    Finished(HealthVerdict),
}

/// What the caller is to do next.
#[derive(Clone, Copy, Debug, PartialEq, Eq, Structural)]
pub enum Action {
    /// Call `eth_blockNumber` on the node and on every reference endpoint,
    /// all at once, and wait for every call to end.
    FetchHeights,
    /// Call `eth_syncing` on the node.
    FetchSyncing,
    /// Serve this verdict.
    Report(HealthVerdict),
}

/// The action that a phase asks for.
pub open spec fn action_for(phase: Phase) -> Action {
    match phase {
        Phase::AwaitingHeights => Action::FetchHeights,
        Phase::AwaitingSyncing { .. } => Action::FetchSyncing,
        Phase::Finished(v) => Action::Report(v),
    }
}

/// The phase after the heights have come back. A node that could not tell
/// its own height is unreachable, and the reference heights are then unused.
pub open spec fn phase_after_heights(
    phase: Phase,
    own: Result<u64, RpcError>,
    answers: Seq<Result<u64, RpcError>>,
) -> Phase {
    match phase {
        Phase::AwaitingHeights => match own {
            Err(_) => Phase::Finished(HealthVerdict::UpstreamUnreachable),
            Ok(h) => Phase::AwaitingSyncing { own: h, reference: best_height(answers) as u64 },
        },
        _ => phase,
    }
}

/// The phase after the syncing status has come back.
pub open spec fn phase_after_syncing(
    phase: Phase,
    fetched: Result<SyncingStatus, RpcError>,
    threshold: u64,
) -> Phase {
    match phase {
        Phase::AwaitingSyncing { own, reference } => Phase::Finished(
            verdict_after_syncing(fetched, own, reference, threshold),
        ),
        _ => phase,
    }
}

/// One health evaluation of a node against its references.
pub struct Probe {
    /// The distance from the reference height at which the node is behind.
    pub threshold: u64,
    pub phase: Phase,
}

impl Probe {
    /// Starts an evaluation, which first asks for the heights.
    pub fn new(threshold: u64) -> (r: Probe)
        ensures
            r.threshold == threshold,
            r.phase == Phase::AwaitingHeights,
    {
        Probe { threshold, phase: Phase::AwaitingHeights }
    }

    /// The action that the evaluation asks for now.
    pub fn next_action(&self) -> (r: Action)
        ensures
            r == action_for(self.phase),
    {
        match self.phase {
            Phase::AwaitingHeights => Action::FetchHeights,
            Phase::AwaitingSyncing { .. } => Action::FetchSyncing,
            Phase::Finished(v) => Action::Report(v),
        }
    }

    /// Takes the node's own height and the answers of the reference
    /// endpoints. Where the node's call failed, the verdict is unreachable and
    /// its syncing status is never asked for; otherwise the references are
    /// reduced to their best height and the syncing status is asked for. In
    /// any other phase nothing changes.
    pub fn on_heights(&mut self, own: Result<u64, RpcError>, answers: &Vec<Result<u64, RpcError>>) -> (r: Action)
        ensures
            final(self).threshold == old(self).threshold,
            final(self).phase == phase_after_heights(old(self).phase, own, answers@),
            r == action_for(final(self).phase),
            old(self).phase is AwaitingHeights && own is Err ==> r == Action::Report(
                HealthVerdict::UpstreamUnreachable,
            ),
    {
        match self.phase {
            Phase::AwaitingHeights => match own {
                Err(_) => {
                    self.phase = Phase::Finished(HealthVerdict::UpstreamUnreachable);
                },
                Ok(h) => {
                    let reference = aggregate_heights(answers);
                    self.phase = Phase::AwaitingSyncing { own: h, reference };
                },
            },
            _ => {},
        }
        self.next_action()
    }

    /// Takes the result of the node's `eth_syncing` call and decides the
    /// verdict. In any other phase nothing changes.
    pub fn on_syncing(&mut self, fetched: &Result<SyncingStatus, RpcError>) -> (r: Action)
        ensures
            final(self).threshold == old(self).threshold,
            final(self).phase == phase_after_syncing(old(self).phase, *fetched, old(self).threshold),
            r == action_for(final(self).phase),
    {
        match self.phase {
            Phase::AwaitingSyncing { own, reference } => {
                let v = conclude(fetched, own, reference, self.threshold);
                self.phase = Phase::Finished(v);
            },
            _ => {},
        }
        self.next_action()
    }
}

/// When every reference call fails, the reference height is zero, so a node
/// at height `own` that is not syncing is behind, by `own` blocks, exactly when
/// `own` reaches the threshold, and healthy otherwise.
pub proof fn lemma_no_reference_answers(
    own: u64,
    answers: Seq<Result<u64, RpcError>>,
    threshold: u64,
)
    requires
        all_failed(answers),
    ensures
        best_height(answers) == 0,
        verdict_of(SyncingStatus::Flag(false), own, best_height(answers) as u64, threshold) == if own
            >= threshold {
            HealthVerdict::BehindReferences(own)
        } else {
            HealthVerdict::Healthy
        },
{
    lemma_best_height_is_max(answers);
}

} // verus!
