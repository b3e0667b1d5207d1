use vstd::prelude::*;

use crate::reply::{BouncerError, RawReply, StatsPayload, decode_reply, spec_decode};
use crate::stats::BouncerStats;

verus! {

/// The outcome of one exchange with the coordinator.
#[derive(Clone, Debug, PartialEq, Eq)]
pub enum Decision {
    /// The caller may go ahead.
    Allowed(BouncerStats),
    /// The caller must wait for the stats' wait, then ask again.
    Wait(BouncerStats),
    /// The exchange failed; nothing is retried.
    Errored(BouncerError),
}

/// The decision that stats call for.
pub open spec fn spec_classify(stats: BouncerStats) -> Decision {
    if stats.spec_is_allowed() {
        Decision::Allowed(stats)
    } else {
        Decision::Wait(stats)
    }
}

/// The decision on one exchange: its error, or the class of its decoded reply.
pub open spec fn spec_decide(
    exchange: Result<RawReply, BouncerError>,
    parsed: Option<StatsPayload>,
    strict: bool,
) -> Decision {
    match exchange {
        Err(e) => Decision::Errored(e),
        Ok(reply) => match spec_decode(reply, parsed, strict) {
            Ok(stats) => spec_classify(stats),
            Err(e) => Decision::Errored(e),
        },
    }
}

/// Classifies stats: allowed or wait.
pub fn classify(stats: BouncerStats) -> (r: Decision)
    ensures
        r == spec_classify(stats),
{
    if stats.is_allowed() {
        Decision::Allowed(stats)
    } else {
        Decision::Wait(stats)
    }
}

/// Decides on one exchange with the coordinator.
///
/// `exchange` is the reply, or the error met while asking for it; `parsed`
/// is the payload read from the reply's text, and `strict` says whether text
/// that is no stats record is an error (see `decode_reply`).
pub fn decide(exchange: Result<RawReply, BouncerError>, parsed: Option<StatsPayload>, strict: bool) -> (r: Decision)
    ensures
        r == spec_decide(exchange, parsed, strict),
{
    match exchange {
        Err(e) => Decision::Errored(e),
        Ok(reply) => match decode_reply(&reply, parsed, strict) {
            Ok(stats) => classify(stats),
            Err(e) => Decision::Errored(e),
        },
    }
}

} // verus!
