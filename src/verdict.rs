//! The health verdict, and the rules that decide it.
use vstd::prelude::*;
use crate::height_gap;
use crate::block_delta;
use crate::rpc::RpcError;
use crate::rpc::SyncingStatus;

verus! {

/// How far, in blocks, a node may trail or lead its references before it is
/// reported as behind, unless configured otherwise.
pub const DEFAULT_BEHIND_THRESHOLD: u64 = 10;

/// The outcome of one health evaluation.
#[derive(Clone, Copy, Debug, PartialEq, Eq, Structural)]
pub enum HealthVerdict {
    Healthy,
    /// The node reports that it is syncing.
    Syncing,
    /// The node's height is this many blocks away from the best reference
    /// height.
    BehindReferences(u64),
    /// The node could not be reached.
    UpstreamUnreachable,
    /// The node answered with something that could not be decoded.
    UpstreamMalformed,
}

/// The verdict for a node that answered `eth_syncing` with `status`, at
/// height `own`, against the best reference height `reference`.
pub open spec fn verdict_of(status: SyncingStatus, own: u64, reference: u64, threshold: u64) -> HealthVerdict {
    match status {
        SyncingStatus::Flag(true) => HealthVerdict::Syncing,
        SyncingStatus::Progress(_) => HealthVerdict::Syncing,
        SyncingStatus::Flag(false) => {
            let gap = height_gap(own as int, reference as int);
            if gap >= threshold {
                HealthVerdict::BehindReferences(gap as u64)
            } else {
                HealthVerdict::Healthy
            }
        },
    }
}

/// The verdict once the node's height is known and its `eth_syncing` call
/// has come back with `fetched`.
pub open spec fn verdict_after_syncing(
    fetched: Result<SyncingStatus, RpcError>,
    own: u64,
    reference: u64,
    threshold: u64,
) -> HealthVerdict {
    match fetched {
        Err(RpcError::Transport) => HealthVerdict::UpstreamUnreachable,
        Err(RpcError::Decode) => HealthVerdict::UpstreamMalformed,
        Ok(status) => verdict_of(status, own, reference, threshold),
    }
}

/// Decides the verdict for a node that answered `eth_syncing` with `status`.
/// A syncing node is reported as such whatever its height; otherwise the node
/// is behind when its distance to the reference height reaches `threshold`.
pub fn judge(status: &SyncingStatus, own: u64, reference: u64, threshold: u64) -> (r: HealthVerdict)
    ensures
        r == verdict_of(*status, own, reference, threshold),
{
    match status {
        SyncingStatus::Flag(true) => HealthVerdict::Syncing,
        SyncingStatus::Progress(_) => HealthVerdict::Syncing,
        SyncingStatus::Flag(false) => {
            let gap = block_delta(own, reference);
            if gap >= threshold {
                HealthVerdict::BehindReferences(gap)
            } else {
                HealthVerdict::Healthy
            }
        },
    }
}

/// Decides the verdict from the result of the node's `eth_syncing` call: a
/// transport failure means the node is unreachable, a decode failure that it
/// is malformed.
pub fn conclude(
    fetched: &Result<SyncingStatus, RpcError>,
    own: u64,
    reference: u64,
    threshold: u64,
) -> (r: HealthVerdict)
    ensures
        r == verdict_after_syncing(*fetched, own, reference, threshold),
{
    match fetched {
        Err(RpcError::Transport) => HealthVerdict::UpstreamUnreachable,
        Err(RpcError::Decode) => HealthVerdict::UpstreamMalformed,
        Ok(status) => judge(status, own, reference, threshold),
    }
}

/// A node that reports itself as syncing, by the boolean `true`, is judged
/// syncing whatever its height and the reference height.
pub proof fn lemma_flag_true_is_syncing(own: u64, reference: u64, threshold: u64)
    ensures
        verdict_of(SyncingStatus::Flag(true), own, reference, threshold)
            == HealthVerdict::Syncing,
{
}

/// A node that answers with the progress object is judged syncing, whatever
/// the object's fields hold.
pub proof fn lemma_progress_is_syncing(status: SyncingStatus, own: u64, reference: u64, threshold: u64)
    requires
        status is Progress,
    ensures
        verdict_of(status, own, reference, threshold) == HealthVerdict::Syncing,
{
}

/// A node that is not syncing and is exactly `threshold` blocks away from the
/// reference height is behind; one block closer, it is healthy.
pub proof fn lemma_threshold_boundary(own: u64, reference: u64, threshold: u64)
    requires
        threshold > 0,
    ensures
        height_gap(own as int, reference as int) == threshold ==> verdict_of(
            SyncingStatus::Flag(false),
            own,
            reference,
            threshold,
        ) == HealthVerdict::BehindReferences(threshold),
        height_gap(own as int, reference as int) == threshold - 1 ==> verdict_of(
            SyncingStatus::Flag(false),
            own,
            reference,
            threshold,
        ) == HealthVerdict::Healthy,
{
}

impl HealthVerdict {
    /// How serious the verdict is: healthy, then degraded (syncing or behind),
    /// then unreachable, then malformed.
    pub open spec fn spec_severity(self) -> u8 {
        match self {
            HealthVerdict::Healthy => 0,
            HealthVerdict::Syncing => 1,
            HealthVerdict::BehindReferences(_) => 1,
            HealthVerdict::UpstreamUnreachable => 2,
            HealthVerdict::UpstreamMalformed => 3,
        }
    }

    pub fn severity(&self) -> (r: u8)
        ensures
            r == self.spec_severity(),
    {
        match self {
            HealthVerdict::Healthy => 0,
            HealthVerdict::Syncing => 1,
            HealthVerdict::BehindReferences(_) => 1,
            HealthVerdict::UpstreamUnreachable => 2,
            HealthVerdict::UpstreamMalformed => 3,
        }
    }

    /// The HTTP status with which the verdict is served.
    pub open spec fn spec_status_code(self) -> u16 {
        match self {
            HealthVerdict::Healthy => 200,
            HealthVerdict::Syncing => 503,
            HealthVerdict::BehindReferences(_) => 503,
            HealthVerdict::UpstreamUnreachable => 502,
            HealthVerdict::UpstreamMalformed => 500,
        }
    }

    pub fn status_code(&self) -> (r: u16)
        ensures
            r == self.spec_status_code(),
    {
        match self {
            HealthVerdict::Healthy => 200,
            HealthVerdict::Syncing => 503,
            HealthVerdict::BehindReferences(_) => 503,
            HealthVerdict::UpstreamUnreachable => 502,
            HealthVerdict::UpstreamMalformed => 500,
        }
    }

    /// The body with which the verdict is served.
    pub open spec fn spec_message(self) -> Seq<char> {
        match self {
            HealthVerdict::Healthy => "Ethereum node is healthy"@,
            HealthVerdict::Syncing => "Ethereum node is syncing"@,
            HealthVerdict::BehindReferences(_) => "Ethereum node is behind reference nodes"@,
            HealthVerdict::UpstreamUnreachable => "Failed to reach Ethereum node"@,
            HealthVerdict::UpstreamMalformed => "Failed to parse Ethereum node status"@,
        }
    }

    pub fn message(&self) -> (r: &'static str)
        ensures
            r@ == self.spec_message(),
    {
        match self {
            HealthVerdict::Healthy => "Ethereum node is healthy",
            HealthVerdict::Syncing => "Ethereum node is syncing",
            HealthVerdict::BehindReferences(_) => "Ethereum node is behind reference nodes",
            HealthVerdict::UpstreamUnreachable => "Failed to reach Ethereum node",
            HealthVerdict::UpstreamMalformed => "Failed to parse Ethereum node status",
        }
    }
}

} // verus!
