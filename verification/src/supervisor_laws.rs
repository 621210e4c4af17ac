//! What holds of the supervisor in every state.

use vstd::prelude::*;
use crate::session::SessionModel;
use crate::supervisor::{action_for, next_phase, Action, Event, PhaseModel};

verus! {

/// Stopping is safe from every state and idempotent: the supervisor is idle
/// afterwards, and a second stop finds nothing left to release.
pub proof fn lemma_stop_is_idempotent(phase: PhaseModel)
    ensures
        next_phase(phase, Event::Stop) == PhaseModel::Idle,
        next_phase(next_phase(phase, Event::Stop), Event::Stop) == next_phase(phase, Event::Stop),
        action_for(next_phase(phase, Event::Stop), Event::Stop) == (Action::Halt {
            release_sink: false,
            send_stop: false,
        }),
        action_for(phase, Event::Stop) is Halt,
        action_for(phase, Event::Stop)->release_sink == (phase is Streaming),
{
}

/// A read timeout is transient: the session goes on unchanged and the caller
/// reads again.
pub proof fn lemma_read_timeout_keeps_the_session(phase: PhaseModel)
    requires
        phase is Streaming,
    ensures
        next_phase(phase, Event::ReadTimedOut) == phase,
        action_for(phase, Event::ReadTimedOut) == Action::Read,
{
}

/// Supervision never ends on its own. Once started, it becomes idle only on a
/// stop request, on the failure of the first attempt to connect, or where the
/// outlet cannot be made; a lost transport or a failed reconnect lead to
/// another attempt.
pub proof fn lemma_supervision_ends_only_on_request_or_setup_failure(
    phase: PhaseModel,
    event: Event,
)
    requires
        !(phase is Idle),
        next_phase(phase, event) is Idle,
    ensures
        event is Stop || (event is ConnectFailed && phase is Connecting
            && !phase->Connecting_reconnect) || (event is SinkFailed && phase is Streaming),
{
}

/// After a disconnect the supervisor waits, connects again to the same
/// device, and the session that follows starts afresh: nothing pending, the
/// counter unknown.
pub proof fn lemma_reconnect_starts_a_fresh_session(phase: PhaseModel)
    requires
        phase is Streaming,
    ensures
        ({
            let lost = next_phase(phase, Event::TransportLost);
            let again = next_phase(lost, Event::BackoffElapsed);
            let back = next_phase(again, Event::Connected);
            &&& lost == PhaseModel::Disconnected { profile: phase->Streaming_profile }
            &&& again == PhaseModel::Connecting { profile: phase->Streaming_profile, reconnect: true }
            &&& back == PhaseModel::Streaming {
                profile: phase->Streaming_profile,
                session: SessionModel::fresh(phase->Streaming_profile),
            }
        }),
{
}

/// A request to start while a device is being served is turned down and
/// changes nothing: there is one session at most.
pub proof fn lemma_start_is_rejected_unless_idle(phase: PhaseModel, event: Event)
    requires
        !(phase is Idle),
        event is Start,
    ensures
        next_phase(phase, event) == phase,
        action_for(phase, event) == Action::Reject(crate::supervisor::SupervisorError::Busy),
{
}

/// The outlet is made once per session and released before the next one: the
/// caller is told to make it exactly when a session begins, and every way out
/// of a session that has its outlet tells the caller to release it.
pub proof fn lemma_outlet_lives_with_the_session(phase: PhaseModel, event: Event)
    ensures
        action_for(phase, event) is OpenSink <==> !(phase is Streaming) && next_phase(
            phase,
            event,
        ) is Streaming,
        phase is Streaming && !(next_phase(phase, event) is Streaming) ==> {
            ||| action_for(phase, event) is ReleaseAndWait
            ||| action_for(phase, event) == (Action::Halt {
                release_sink: true,
                send_stop: phase->Streaming_profile.transport is Ble,
            })
            ||| action_for(phase, event) is Abort
        },
        phase is Streaming && next_phase(phase, event) is Streaming ==> next_phase(phase, event)
            == phase,
{
}

} // verus!
