//! The discovery gate: is a channel found among subscriptions a new,
//! in-domain candidate?

use vstd::prelude::*;

verus! {

/// What a channel registry answered when asked for a channel id.
#[derive(Clone, Copy, Debug, PartialEq, Eq, Structural)]
pub enum Presence {
    /// The registry reported that it holds no such channel.
    Absent,
    /// The registry holds the channel.
    Present,
    /// The registry could not be asked.
    Unknown,
}

/// The outcome of the checks made on one subscription candidate.
#[derive(Clone, Copy, Debug, PartialEq, Eq, Structural)]
pub struct CandidateChecks {
    /// The answer of the registry of channels that are followed.
    pub in_channels: Presence,
    /// The answer of the registry of channels added by hand.
    pub in_additional_channels: Presence,
    /// Whether the channel is on the list of channels found out of domain.
    pub excluded: bool,
    /// Whether the classifier found a domain term for the channel.
    pub matched: bool,
}

/// A channel is newly discovered when both registries reported it absent.
pub open spec fn newly_discovered(in_channels: Presence, in_additional_channels: Presence) -> bool {
    in_channels is Absent && in_additional_channels is Absent
}

/// Discovery as a conjunction of its three checks.
pub open spec fn gate(is_new: bool, excluded: bool, matched: bool) -> bool {
    is_new && !excluded && matched
}

/// Whether the checks made on a candidate let it through.
pub open spec fn qualifies(checks: CandidateChecks) -> bool {
    gate(newly_discovered(checks.in_channels, checks.in_additional_channels), checks.excluded, checks.matched)
}

/// Decides whether a channel is known to neither registry. An answer that is
/// missing counts as known: both registries must have reported "not found".
pub fn is_channel_newly_discovered(in_channels: Presence, in_additional_channels: Presence) -> (is_new: bool)
    ensures
        is_new == newly_discovered(in_channels, in_additional_channels),
{
    let absent_from_channels: bool = match in_channels {
        Presence::Absent => true,
        _ => false,
    };
    let absent_from_manual: bool = match in_additional_channels {
        Presence::Absent => true,
        _ => false,
    };
    absent_from_channels && absent_from_manual
}

/// Combines the three checks: new, not excluded, classified in domain.
pub fn passes_gate(is_new: bool, excluded: bool, matched: bool) -> (pass: bool)
    ensures
        pass == gate(is_new, excluded, matched),
{
    is_new && !excluded && matched
}

impl CandidateChecks {
    /// Decides whether the candidate is dispatched for crawling.
    pub fn qualifies(&self) -> (pass: bool)
        ensures
            pass == qualifies(*self),
    {
        let is_new: bool = is_channel_newly_discovered(self.in_channels, self.in_additional_channels);
        passes_gate(is_new, self.excluded, self.matched)
    }
}

/// No candidate qualifies for which a check fails: a channel that
/// is known, excluded or not classified does not qualify.
pub proof fn lemma_gate_needs_every_check(is_new: bool, excluded: bool, matched: bool)
    ensures
        !is_new ==> !gate(is_new, excluded, matched),
        excluded ==> !gate(is_new, excluded, matched),
        !matched ==> !gate(is_new, excluded, matched),
        is_new && !excluded && matched ==> gate(is_new, excluded, matched),
{
}

/// Discovery is monotonic: a candidate that qualifies still qualifies when a
/// check turns in its favour (unknown to new, excluded to not excluded,
/// unclassified to classified).
pub proof fn lemma_gate_monotonic(
    is_new: bool,
    excluded: bool,
    matched: bool,
    is_new2: bool,
    excluded2: bool,
    matched2: bool,
)
    requires
        is_new ==> is_new2,
        excluded2 ==> excluded,
        matched ==> matched2,
    ensures
        gate(is_new, excluded, matched) ==> gate(is_new2, excluded2, matched2),
{
}

/// Changing one check alone changes the result exactly when the other two
/// checks are passed; otherwise the result stays negative.
pub proof fn lemma_gate_single_flip(is_new: bool, excluded: bool, matched: bool)
    ensures
        (gate(!is_new, excluded, matched) != gate(is_new, excluded, matched)) <==> (!excluded
            && matched),
        (gate(is_new, !excluded, matched) != gate(is_new, excluded, matched)) <==> (is_new
            && matched),
        (gate(is_new, excluded, !matched) != gate(is_new, excluded, matched)) <==> (is_new
            && !excluded),
{
}

/// A candidate qualifies exactly when both registries report it absent, it is
/// not excluded and the classifier matched.
pub proof fn lemma_qualifies_is_conjunction(checks: CandidateChecks)
    ensures
        qualifies(checks) <==> (checks.in_channels is Absent && checks.in_additional_channels is Absent
            && !checks.excluded && checks.matched),
{
}

} // verus!
