use vstd::prelude::*;

use crate::stats::{BouncerStats, WaitTime, spec_default_wait, wait_or_default};

verus! {

/// One reply of the coordinator, as far as the decoder reads it: a byte
/// payload, or a reply of another wire type.
#[derive(Clone, Debug, PartialEq, Eq)]
pub enum RawReply {
    Bytes(Vec<u8>),
    Other,
}

/// The fields that a structured payload carries. A payload without an allow
/// flag reads as `allowed == false`; `wait` is `None` where the payload gives
/// no wait.
#[derive(Clone, Copy, Debug, PartialEq, Eq, Structural)]
pub struct StatsPayload {
    pub allowed: bool,
    pub old: u64,
    pub current: u64,
    pub since: u64,
    pub wait: Option<WaitTime>,
}

/// Why a reply has the wrong shape.
#[derive(Clone, Copy, Debug, PartialEq, Eq, Structural)]
pub enum Mismatch {
    /// The reply is not a byte payload.
    IncompatibleReply,
    /// The payload is not valid UTF-8 text.
    InvalidText,
    /// The payload text is not a stats record (reported in strict mode only).
    InvalidPayload,
}

/// The errors of this library.
#[derive(Clone, Debug, PartialEq, Eq)]
pub enum BouncerError {
    /// The coordinator could not be reached, or broke the protocol.
    Protocol(String),
    /// The reply had the wrong shape.
    TypeMismatch(Mismatch),
    /// The coordinator's address or procedure could not be resolved.
    Config(String),
}

/// Whether a byte sequence is valid UTF-8.
pub uninterp spec fn utf8_valid(bytes: Seq<u8>) -> bool;

/// Relies on std::str::from_utf8: it succeeds exactly on valid UTF-8, and on
/// the empty slice.
#[verifier::external_body]
fn is_utf8(bytes: &Vec<u8>) -> (r: bool)
    ensures
        r == utf8_valid(bytes@),
        bytes@.len() == 0 ==> r,
{
    std::str::from_utf8(bytes.as_slice()).is_ok()
}

/// The stats that a payload stands for: its fields, with the default wait
/// where it gives none.
pub open spec fn spec_stats_of(p: StatsPayload) -> BouncerStats {
    BouncerStats {
        allowed: p.allowed,
        old: p.old,
        current: p.current,
        since: p.since,
        wait: match p.wait {
            Some(w) => w,
            None => spec_default_wait(),
        },
    }
}

/// The payload that encodes given stats.
pub open spec fn spec_payload_of(s: BouncerStats) -> StatsPayload {
    StatsPayload {
        allowed: s.allowed,
        old: s.old,
        current: s.current,
        since: s.since,
        wait: Some(s.wait),
    }
}

/// What decoding a reply yields. `parsed` is the payload read from the
/// reply's text, `None` where the text is no stats record; `strict` says
/// whether such text is an error or reads as the zero verdict.
pub open spec fn spec_decode(
    reply: RawReply,
    parsed: Option<StatsPayload>,
    strict: bool,
) -> Result<BouncerStats, BouncerError> {
    match reply {
        RawReply::Other => Err(BouncerError::TypeMismatch(Mismatch::IncompatibleReply)),
        RawReply::Bytes(b) => if !utf8_valid(b@) {
            Err(BouncerError::TypeMismatch(Mismatch::InvalidText))
        } else {
            match parsed {
                Some(p) => Ok(spec_stats_of(p)),
                None => if strict {
                    Err(BouncerError::TypeMismatch(Mismatch::InvalidPayload))
                } else {
                    Ok(BouncerStats::spec_zero())
                },
            }
        },
    }
}

impl StatsPayload {
    /// The payload that encodes `stats`.
    pub fn from_stats(stats: &BouncerStats) -> (r: StatsPayload)
        ensures
            r == spec_payload_of(*stats),
    {
        StatsPayload {
            allowed: stats.allowed,
            old: stats.old,
            current: stats.current,
            since: stats.since,
            wait: Some(stats.wait),
        }
    }

    /// The stats that this payload stands for.
    pub fn to_stats(&self) -> (r: BouncerStats)
        ensures
            r == spec_stats_of(*self),
    {
        BouncerStats {
            allowed: self.allowed,
            old: self.old,
            current: self.current,
            since: self.since,
            wait: wait_or_default(self.wait),
        }
    }
}

/// Decodes one reply of the coordinator.
///
/// A reply of another wire type than bytes, or bytes that are no UTF-8 text,
/// are type mismatches. Text that is no stats record reads as the zero
/// verdict, which lets the caller through; with `strict` it is a type
/// mismatch instead.
pub fn decode_reply(reply: &RawReply, parsed: Option<StatsPayload>, strict: bool) -> (r: Result<
    BouncerStats,
    BouncerError,
>)
    ensures
        r == spec_decode(*reply, parsed, strict),
{
    match reply {
        RawReply::Other => Err(BouncerError::TypeMismatch(Mismatch::IncompatibleReply)),
        RawReply::Bytes(b) => {
            if !is_utf8(b) {
                Err(BouncerError::TypeMismatch(Mismatch::InvalidText))
            } else {
                match parsed {
                    Some(p) => Ok(p.to_stats()),
                    None => if strict {
                        Err(BouncerError::TypeMismatch(Mismatch::InvalidPayload))
                    } else {
                        Ok(BouncerStats::zero())
                    },
                }
            }
        },
    }
}

/// Encoding stats as a payload and reading the payload back gives the same
/// stats.
pub proof fn lemma_payload_round_trip(s: BouncerStats)
    ensures
        spec_stats_of(spec_payload_of(s)) == s,
{
}

/// A reply whose text encodes the zero verdict decodes to the zero verdict.
pub proof fn lemma_zero_round_trip(text: Vec<u8>, strict: bool)
    requires
        utf8_valid(text@),
    ensures
        spec_decode(
            RawReply::Bytes(text),
            Some(spec_payload_of(BouncerStats::spec_zero())),
            strict,
        ) == Ok::<BouncerStats, BouncerError>(BouncerStats::spec_zero()),
{
}

} // verus!
