//! Runs of the session actor, and what holds of every run.
//!
//! A run is a start and the sequence of events that the actor took after
//! it. The laws below speak of admissible runs: those in which every event
//! was enabled when it came, which is what the actor's loop guarantees.

use crate::actor::{
    enabled, first_action_of, first_phase_of, step_of, ActorActionView, ActorEventView,
    ActorPhaseView,
};
use crate::command::BotCommandView;
use crate::events::{status_after_events, InboundEventView, NotificationView};
use crate::message::{media_message_of, UploadedMediaView};
use crate::status::{SharedStatus, WhatsAppState};
use vstd::prelude::*;

verus! {

/// The actor's phase together with the shared state.
pub struct SessionView {
    pub phase: ActorPhaseView,
    pub state: WhatsAppState,
}

/// The session after one event.
pub open spec fn advance(session: SessionView, event: ActorEventView) -> SessionView {
    SessionView {
        phase: step_of(session.phase, session.state, event).phase,
        state: step_of(session.phase, session.state, event).state,
    }
}

/// The session after a sequence of events, taken in order.
pub open spec fn session_after(start: SessionView, events: Seq<ActorEventView>) -> SessionView
    decreases events.len(),
{
    if events.len() == 0 {
        start
    } else {
        advance(session_after(start, events.drop_last()), events.last())
    }
}

/// The session in which the event at position `at` arrives.
pub open spec fn session_before(
    start: SessionView,
    events: Seq<ActorEventView>,
    at: int,
) -> SessionView {
    session_after(start, events.take(at))
}

/// The action with which the actor answers the event at position `at`.
pub open spec fn action_at(
    start: SessionView,
    events: Seq<ActorEventView>,
    at: int,
) -> ActorActionView {
    step_of(
        session_before(start, events, at).phase,
        session_before(start, events, at).state,
        events[at],
    ).action
}

/// Whether the event at position `at` is enabled when it arrives.
pub open spec fn enabled_at(start: SessionView, events: Seq<ActorEventView>, at: int) -> bool {
    enabled(session_before(start, events, at).phase, events[at])
}

/// Whether every event of a run is enabled when it arrives.
pub open spec fn admissible(start: SessionView, events: Seq<ActorEventView>) -> bool {
    forall|at: int| 0 <= at < events.len() ==> #[trigger] enabled_at(start, events, at)
}

/// Whether no reply is written strictly between two positions of a run.
pub open spec fn no_reply_between(
    start: SessionView,
    events: Seq<ActorEventView>,
    from: int,
    to: int,
) -> bool {
    forall|at: int| from < at < to ==> !(#[trigger] action_at(start, events, at) is Reply)
}

/// Whether a phase is one in which the actor works on the given command.
pub open spec fn serves(phase: ActorPhaseView, command: BotCommandView) -> bool {
    match command {
        BotCommandView::SendMessage { .. } => phase is SendingText,
        BotCommandView::SendMediaMessage { .. } => phase == first_phase_of(command)
            || phase is SendingMedia,
    }
}

/// The send that follows the upload of a media command's file.
pub open spec fn send_after_upload(
    command: BotCommandView,
    uploaded: UploadedMediaView,
) -> ActorActionView
    recommends
        command is SendMediaMessage,
{
    ActorActionView::Send {
        jid: command->SendMediaMessage_jid,
        message: media_message_of(
            command->media_category,
            uploaded,
            command->mime_type,
            command->caption,
            command->file_name,
        ),
    }
}

/// The lifecycle events of a run, in order.
pub open spec fn inbound_events(events: Seq<ActorEventView>) -> Seq<InboundEventView>
    decreases events.len(),
{
    if events.len() == 0 {
        Seq::empty()
    } else {
        match events.last() {
            ActorEventView::Inbound(inbound) => inbound_events(events.drop_last()).push(inbound),
            _ => inbound_events(events.drop_last()),
        }
    }
}

/// The session in which an event arrives, advanced by that event, is the
/// session in which the next event arrives.
proof fn lemma_session_unfolds(start: SessionView, events: Seq<ActorEventView>, at: int)
    requires
        0 <= at < events.len(),
    ensures
        session_before(start, events, at + 1) == advance(
            session_before(start, events, at),
            events[at],
        ),
{
    assert(events.take(at + 1).drop_last() =~= events.take(at));
}

/// From the acceptance of a command until its reply the actor works on that
/// command and on no other.
proof fn lemma_in_flight_until_reply(
    start: SessionView,
    events: Seq<ActorEventView>,
    first: int,
    at: int,
)
    requires
        admissible(start, events),
        0 <= first < at <= events.len(),
        events[first] is Command,
        no_reply_between(start, events, first, at),
    ensures
        serves(session_before(start, events, at).phase, events[first]->Command_0),
    decreases at - first,
{
    if at == first + 1 {
        lemma_session_unfolds(start, events, first);
        assert(enabled_at(start, events, first));
    } else {
        lemma_in_flight_until_reply(start, events, first, at - 1);
        lemma_session_unfolds(start, events, at - 1);
        assert(!(action_at(start, events, at - 1) is Reply));
    }
}

/// Two commands never overlap: between the acceptance of one command and
/// the acceptance of the next, the first one is answered.
pub proof fn lemma_commands_do_not_overlap(
    start: SessionView,
    events: Seq<ActorEventView>,
    first: int,
    second: int,
)
    requires
        admissible(start, events),
        0 <= first < second < events.len(),
        events[first] is Command,
        events[second] is Command,
    ensures
        exists|reply: int|
            first < reply < second && #[trigger] action_at(start, events, reply) is Reply,
{
    if no_reply_between(start, events, first, second) {
        lemma_in_flight_until_reply(start, events, first, second);
        assert(enabled_at(start, events, second));
    }
}

/// All the backend work between the acceptance of a command and its reply
/// is that command's own: first the action the command begins with, later
/// at most the send that follows the upload of its file.
pub proof fn lemma_backend_work_belongs_to_command_in_flight(
    start: SessionView,
    events: Seq<ActorEventView>,
    first: int,
    at: int,
)
    requires
        admissible(start, events),
        0 <= first <= at < events.len(),
        events[first] is Command,
        no_reply_between(start, events, first, at),
    ensures
        at == first ==> action_at(start, events, at) == first_action_of(events[first]->Command_0),
        at > first && action_at(start, events, at).uses_backend() ==> {
            &&& events[first]->Command_0 is SendMediaMessage
            &&& events[at] matches ActorEventView::UploadFinished(Ok(uploaded))
            &&& action_at(start, events, at) == send_after_upload(
                events[first]->Command_0,
                uploaded,
            )
        },
{
    assert(enabled_at(start, events, at));
    if at > first {
        lemma_in_flight_until_reply(start, events, first, at);
    }
}

/// A busy actor stays busy until it writes a reply.
proof fn lemma_busy_until_reply(
    start: SessionView,
    events: Seq<ActorEventView>,
    from: int,
    to: int,
)
    requires
        admissible(start, events),
        0 <= from <= to <= events.len(),
        session_before(start, events, from).phase.busy(),
        no_reply_between(start, events, from - 1, to),
    ensures
        session_before(start, events, to).phase.busy(),
    decreases to - from,
{
    if from < to {
        lemma_busy_until_reply(start, events, from, to - 1);
        lemma_session_unfolds(start, events, to - 1);
        assert(!(action_at(start, events, to - 1) is Reply));
    }
}

/// The backend work of two commands never interleaves: where the actor
/// asks the backend for something, and later takes another command, it has
/// written the reply to the first command in between. So whatever it asks
/// of the backend for the later command comes after that reply.
pub proof fn lemma_backend_work_never_interleaves(
    start: SessionView,
    events: Seq<ActorEventView>,
    work: int,
    next: int,
)
    requires
        admissible(start, events),
        0 <= work < next < events.len(),
        action_at(start, events, work).uses_backend(),
        events[next] is Command,
    ensures
        exists|reply: int|
            work < reply < next && #[trigger] action_at(start, events, reply) is Reply,
{
    if no_reply_between(start, events, work, next) {
        lemma_session_unfolds(start, events, work);
        lemma_busy_until_reply(start, events, work + 1, next);
        assert(enabled_at(start, events, next));
    }
}

/// A busy actor that did not start out busy took a command earlier in the
/// run and has not answered it since.
proof fn lemma_busy_actor_took_a_command(
    start: SessionView,
    events: Seq<ActorEventView>,
    at: int,
) -> (first: int)
    requires
        admissible(start, events),
        !start.phase.busy(),
        0 <= at <= events.len(),
        session_before(start, events, at).phase.busy(),
    ensures
        0 <= first < at,
        events[first] is Command,
        no_reply_between(start, events, first, at),
    decreases at,
{
    if at == 0 {
        0
    } else {
        lemma_session_unfolds(start, events, at - 1);
        if events[at - 1] is Command {
            at - 1
        } else {
            lemma_busy_actor_took_a_command(start, events, at - 1)
        }
    }
}

/// Every reply answers a command: one that the actor took earlier in the
/// run and that has had no reply before this one.
pub proof fn lemma_reply_answers_command_in_flight(
    start: SessionView,
    events: Seq<ActorEventView>,
    reply: int,
)
    requires
        admissible(start, events),
        !start.phase.busy(),
        0 <= reply < events.len(),
        action_at(start, events, reply) is Reply,
    ensures
        exists|first: int|
            0 <= first < reply && #[trigger] events[first] is Command && no_reply_between(
                start,
                events,
                first,
                reply,
            ),
{
    let first = lemma_busy_actor_took_a_command(start, events, reply);
}

/// As long as the loop has not ended, the shared status is the projection
/// of the lifecycle events in the order of their arrival: commands and the
/// results of backend work leave it alone. Whether a sender is published
/// does not change during a run.
pub proof fn lemma_status_follows_inbound_events(
    start: SessionView,
    events: Seq<ActorEventView>,
)
    requires
        admissible(start, events),
        forall|at: int| 0 <= at < events.len() ==> !(#[trigger] events[at]).ends_loop(),
    ensures
        session_after(start, events).state.status == status_after_events(
            start.state.status,
            inbound_events(events),
        ),
        session_after(start, events).state.sender_published == start.state.sender_published,
    decreases events.len(),
{
    if events.len() > 0 {
        let before = events.drop_last();
        assert forall|at: int| 0 <= at < before.len() implies #[trigger] enabled_at(
            start,
            before,
            at,
        ) by {
            assert(enabled_at(start, events, at));
            assert(before.take(at) =~= events.take(at));
        }
        lemma_status_follows_inbound_events(start, before);
        assert(enabled_at(start, events, events.len() - 1));
        match events.last() {
            ActorEventView::Inbound(inbound) => {
                assert(inbound_events(events).drop_last() =~= inbound_events(before));
            },
            _ => {},
        }
    }
}

/// A backend failure never ends the loop: whenever a send has ended, and
/// whenever an upload has failed, the actor writes a reply and waits for the
/// next command.
pub proof fn lemma_backend_result_is_answered(
    phase: ActorPhaseView,
    state: WhatsAppState,
    event: ActorEventView,
)
    requires
        enabled(phase, event),
        event is SendFinished || event matches ActorEventView::UploadFinished(Err(_)),
    ensures
        step_of(phase, state, event).action is Reply,
        step_of(phase, state, event).phase is Idle,
        step_of(phase, state, event).state == state,
        event matches ActorEventView::SendFinished(Ok(id)) ==> step_of(phase, state, event).action
            == ActorActionView::Reply(Ok(id)),
{
}

/// When the loop ends, by either signal, readiness is revoked and the user
/// interface is told so with one logged-out notification.
pub proof fn lemma_loop_end_revokes_readiness(
    phase: ActorPhaseView,
    state: WhatsAppState,
    event: ActorEventView,
)
    requires
        event.ends_loop(),
        enabled(phase, event),
    ensures
        step_of(phase, state, event).phase is Stopped,
        step_of(phase, state, event).state.status == SharedStatus::cleared(),
        step_of(phase, state, event).action == ActorActionView::Notify(
            NotificationView::LoggedOut,
        ),
{
}

/// A logout reported by the backend revokes readiness and tells the user
/// interface so with one logged-out notification. The command in flight, if
/// there is one, is not touched.
pub proof fn lemma_logout_event_revokes_readiness(phase: ActorPhaseView, state: WhatsAppState)
    requires
        !(phase is Stopped),
    ensures
        step_of(phase, state, ActorEventView::Inbound(InboundEventView::LoggedOut)).phase == phase,
        step_of(
            phase,
            state,
            ActorEventView::Inbound(InboundEventView::LoggedOut),
        ).state.status == SharedStatus::cleared(),
        step_of(phase, state, ActorEventView::Inbound(InboundEventView::LoggedOut)).action
            == ActorActionView::Notify(NotificationView::LoggedOut),
{
}

/// Nothing follows the end of the loop: the event that ends it is the last
/// of the run, and the run leaves the actor stopped and readiness revoked.
pub proof fn lemma_loop_end_is_final(start: SessionView, events: Seq<ActorEventView>, end: int)
    requires
        admissible(start, events),
        0 <= end < events.len(),
        events[end].ends_loop(),
    ensures
        end == events.len() - 1,
        session_after(start, events).phase is Stopped,
        session_after(start, events).state.status == SharedStatus::cleared(),
{
    assert(enabled_at(start, events, end));
    lemma_session_unfolds(start, events, end);
    if end < events.len() - 1 {
        assert(enabled_at(start, events, end + 1));
    }
}

} // verus!
