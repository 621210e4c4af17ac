//! What holds of the resolver in every state.

use vstd::prelude::*;
use crate::handshake::identified;
use crate::profile::{runs_at_alternate_rates, LinkSettings, ProfileModel};
use crate::resolver::{
    excluded_name,
    link_of,
    next_eligible,
    on_data,
    on_ports,
    on_signal,
    probe_from,
    CandidateModel,
    ProbeAction,
    ProbeModel,
    ProbeSignal,
};

verus! {

/// The candidate that is probed next is the first one at or after `from`
/// whose name does not mark it as a virtual Bluetooth or console port.
pub proof fn lemma_next_eligible_is_first(candidates: Seq<CandidateModel>, from: int)
    requires
        0 <= from,
    ensures
        from <= next_eligible(candidates, from) || next_eligible(candidates, from)
            == candidates.len(),
        next_eligible(candidates, from) <= candidates.len(),
        next_eligible(candidates, from) < candidates.len() ==> !excluded_name(
            candidates[next_eligible(candidates, from)].name,
        ),
        forall|i: int|
            from <= i < next_eligible(candidates, from) ==> excluded_name(
                (#[trigger] candidates[i]).name,
            ),
    decreases candidates.len() - from,
{
    if from < candidates.len() && excluded_name(candidates[from].name) {
        lemma_next_eligible_is_first(candidates, from + 1);
    }
}

/// An excluded port is never opened, and the search never gives up: with the
/// candidates before `from` done with, the resolver either opens one that is
/// to be probed or waits to list the ports again.
pub proof fn lemma_probe_opens_eligible_or_waits(candidates: Seq<CandidateModel>, from: int)
    requires
        0 <= from,
        candidates.len() <= usize::MAX,
    ensures
        match probe_from(candidates, from).1 {
            ProbeAction::Open { candidate, baud_rate, timeout_ms } => {
                &&& from <= candidate < candidates.len()
                &&& !excluded_name(candidates[candidate as int].name)
                &&& baud_rate == link_of(candidates, candidate as int).baud_rate
                &&& probe_from(candidates, from).0 is Opening
            },
            ProbeAction::Wait { backoff_ms } => {
                &&& probe_from(candidates, from).0 == ProbeModel::Backoff
                &&& forall|i: int|
                    from <= i < candidates.len() ==> excluded_name((#[trigger] candidates[i]).name)
            },
            _ => false,
        },
{
    lemma_next_eligible_is_first(candidates, from);
}

/// The link settings of a candidate depend on that candidate alone: a port
/// with known USB identifiers is opened at the alternate rates, every other
/// port at the initial ones, whatever was probed before it and in whatever
/// round of the search.
pub proof fn lemma_link_settings_do_not_carry_over(candidates: Seq<CandidateModel>, index: int)
    requires
        0 <= index < candidates.len(),
    ensures
        link_of(candidates, index) == match candidates[index].usb {
            Some(ids) => if runs_at_alternate_rates(ids) {
                LinkSettings::alternate()
            } else {
                LinkSettings::initial()
            },
            None => LinkSettings::initial(),
        },
        forall|others: Seq<CandidateModel>, place: int|
            0 <= place < others.len() && others[place].usb == candidates[index].usb ==> #[trigger] link_of(
                others,
                place,
            ) == link_of(candidates, index),
{
}

/// The device counts as found exactly when the resolver is reading and a
/// token of the closed set lies in what has arrived so far; the profile is
/// then the one of the preset that the answer selects, on the link settings of
/// the candidate that answered.
pub proof fn lemma_found_exactly_on_a_recognised_token(
    state: ProbeModel,
    bytes: Seq<u8>,
    elapsed_ms: u64,
)
    requires
        !(state is Found),
    ensures
        on_data(state, bytes, elapsed_ms).0 is Found <==> state is Reading && identified(
            state->Reading_response + bytes,
        ) is Some,
        on_data(state, bytes, elapsed_ms).0 matches ProbeModel::Found { index, profile, .. } ==> {
            let preset = identified(state->Reading_response + bytes)->0;
            &&& index == state->Reading_index
            &&& profile == ProfileModel::serial(
                preset.frame_size(),
                preset.channel_count(),
                link_of(state->Reading_candidates, index),
            )
            &&& on_data(state, bytes, elapsed_ms).1 == (ProbeAction::Found {
                candidate: index as usize,
            })
        },
{
}

/// The search fails only where the ports cannot be listed. Whatever else is
/// reported, the resolver goes on: it opens, identifies, reads, waits or
/// lists again.
pub proof fn lemma_search_fails_only_without_a_port_list(state: ProbeModel, signal: ProbeSignal)
    requires
        !(state is Failed),
    ensures
        on_signal(state, signal).0 is Failed <==> state is Listing && signal is ListFailed,
        forall|ports: Seq<CandidateModel>| !(#[trigger] on_ports(state, ports).0 is Failed),
        forall|bytes: Seq<u8>, elapsed_ms: u64|
            !(#[trigger] on_data(state, bytes, elapsed_ms).0 is Failed),
{
}

/// Once every candidate has been tried the resolver waits, and when the wait
/// is over it asks for the ports again. The new round starts from nothing:
/// no settings of the round before are kept.
pub proof fn lemma_exhausted_search_starts_over()
    ensures
        on_signal(ProbeModel::Backoff, ProbeSignal::BackoffElapsed) == (
            ProbeModel::Listing,
            ProbeAction::ListPorts,
        ),
        on_ports(ProbeModel::Listing, Seq::<CandidateModel>::empty()).0 == ProbeModel::Backoff,
{
}

} // verus!
