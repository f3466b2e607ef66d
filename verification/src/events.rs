//! The event projector: what an inbound protocol event does to the shared
//! status and which notification it sends to the user interface.

use crate::status::{SharedStatus, WhatsAppState};
use vstd::prelude::*;
use vstd::string::*;

verus! {

/// A lifecycle event reported by the connection backend.
#[derive(Clone, Debug, PartialEq, Eq)]
pub enum InboundEvent {
    /// A pairing code to show to the user.
    PairingCode(String),
    /// The device was paired.
    PairSucceeded,
    /// The connection is up and usable.
    Connected,
    /// The account logged this device out.
    LoggedOut,
    /// A message arrived from the given sender.
    MessageReceived(String),
    /// Any event the session core has no use for.
    Other,
}

/// The mathematical value of an [`InboundEvent`].
pub enum InboundEventView {
    PairingCode(Seq<char>),
    PairSucceeded,
    Connected,
    LoggedOut,
    MessageReceived(Seq<char>),
    Other,
}

impl View for InboundEvent {
    type V = InboundEventView;

    open spec fn view(&self) -> InboundEventView {
        match self {
            InboundEvent::PairingCode(code) => InboundEventView::PairingCode(code@),
            InboundEvent::PairSucceeded => InboundEventView::PairSucceeded,
            InboundEvent::Connected => InboundEventView::Connected,
            InboundEvent::LoggedOut => InboundEventView::LoggedOut,
            InboundEvent::MessageReceived(sender) => InboundEventView::MessageReceived(sender@),
            InboundEvent::Other => InboundEventView::Other,
        }
    }
}

/// A notification for the user interface. Delivery is fire-and-forget.
#[derive(Clone, Debug, PartialEq, Eq)]
pub enum Notification {
    /// Show this pairing code.
    QrCode(String),
    /// The session is authenticated.
    AuthSuccess,
    /// The session has ended.
    LoggedOut,
}

/// The mathematical value of a [`Notification`].
pub enum NotificationView {
    QrCode(Seq<char>),
    AuthSuccess,
    LoggedOut,
}

impl View for Notification {
    type V = NotificationView;

    open spec fn view(&self) -> NotificationView {
        match self {
            Notification::QrCode(code) => NotificationView::QrCode(code@),
            Notification::AuthSuccess => NotificationView::AuthSuccess,
            Notification::LoggedOut => NotificationView::LoggedOut,
        }
    }
}

/// The notification that may be absent, as a mathematical value.
pub open spec fn optional_notification(notification: Option<Notification>) -> Option<
    NotificationView,
> {
    match notification {
        Some(n) => Some(n@),
        None => None,
    }
}

/// What an event does to the shared status.
#[derive(Clone, Copy, Debug, PartialEq, Eq, Structural)]
pub enum StatusEffect {
    /// Both flags stay as they are.
    Unchanged,
    /// `authenticated` becomes true; `ready` stays as it is.
    Authenticated,
    /// Both flags become true.
    Ready,
    /// Both flags become false.
    Revoked,
}

impl StatusEffect {
    /// The status that results from this effect.
    pub open spec fn applied_to(self, status: SharedStatus) -> SharedStatus {
        match self {
            StatusEffect::Unchanged => status,
            StatusEffect::Authenticated => SharedStatus { authenticated: true, ready: status.ready },
            StatusEffect::Ready => SharedStatus { authenticated: true, ready: true },
            StatusEffect::Revoked => SharedStatus { authenticated: false, ready: false },
        }
    }

    /// Applies this effect to a status.
    pub fn apply(self, status: SharedStatus) -> (after: SharedStatus)
        ensures
            after == self.applied_to(status),
    {
        match self {
            StatusEffect::Unchanged => status,
            StatusEffect::Authenticated => SharedStatus { authenticated: true, ready: status.ready },
            StatusEffect::Ready => SharedStatus { authenticated: true, ready: true },
            StatusEffect::Revoked => SharedStatus { authenticated: false, ready: false },
        }
    }
}

/// The status effect of each event.
pub open spec fn effect_of(event: InboundEventView) -> StatusEffect {
    match event {
        InboundEventView::PairingCode(_) => StatusEffect::Unchanged,
        InboundEventView::PairSucceeded => StatusEffect::Authenticated,
        InboundEventView::Connected => StatusEffect::Ready,
        InboundEventView::LoggedOut => StatusEffect::Revoked,
        InboundEventView::MessageReceived(_) => StatusEffect::Unchanged,
        InboundEventView::Other => StatusEffect::Unchanged,
    }
}

/// The notification each event sends, if it sends one.
pub open spec fn notification_of(event: InboundEventView) -> Option<NotificationView> {
    match event {
        InboundEventView::PairingCode(code) => Some(NotificationView::QrCode(code)),
        InboundEventView::PairSucceeded => Some(NotificationView::AuthSuccess),
        InboundEventView::Connected => Some(NotificationView::AuthSuccess),
        InboundEventView::LoggedOut => Some(NotificationView::LoggedOut),
        InboundEventView::MessageReceived(_) => None,
        InboundEventView::Other => None,
    }
}

/// The status after one event.
pub open spec fn status_after_event(status: SharedStatus, event: InboundEventView) -> SharedStatus {
    effect_of(event).applied_to(status)
}

/// The status after a sequence of events, taken in order.
pub open spec fn status_after_events(
    status: SharedStatus,
    events: Seq<InboundEventView>,
) -> SharedStatus
    decreases events.len(),
{
    if events.len() == 0 {
        status
    } else {
        status_after_event(status_after_events(status, events.drop_last()), events.last())
    }
}

/// The two sides of an event: its status effect and its notification.
#[derive(Clone, Debug, PartialEq, Eq)]
pub struct Projection {
    pub effect: StatusEffect,
    pub notification: Option<Notification>,
}

/// Projects an event onto its status effect and its notification. The
/// result depends on the event alone.
pub fn project_event(event: InboundEvent) -> (projection: Projection)
    ensures
        projection.effect == effect_of(event@),
        optional_notification(projection.notification) == notification_of(event@),
{
    match event {
        InboundEvent::PairingCode(code) => Projection {
            effect: StatusEffect::Unchanged,
            notification: Some(Notification::QrCode(code)),
        },
        InboundEvent::PairSucceeded => Projection {
            effect: StatusEffect::Authenticated,
            notification: Some(Notification::AuthSuccess),
        },
        InboundEvent::Connected => Projection {
            effect: StatusEffect::Ready,
            notification: Some(Notification::AuthSuccess),
        },
        InboundEvent::LoggedOut => Projection {
            effect: StatusEffect::Revoked,
            notification: Some(Notification::LoggedOut),
        },
        InboundEvent::MessageReceived(_) => Projection {
            effect: StatusEffect::Unchanged,
            notification: None,
        },
        InboundEvent::Other => Projection { effect: StatusEffect::Unchanged, notification: None },
    }
}

/// Applies an event to the shared state and returns the notification to
/// send. Whether a command sender is published is not touched.
pub fn handle_event(state: &mut WhatsAppState, event: InboundEvent) -> (notification: Option<
    Notification,
>)
    ensures
        final(state).sender_published == old(state).sender_published,
        final(state).status == status_after_event(old(state).status, event@),
        optional_notification(notification) == notification_of(event@),
{
    let projection = project_event(event);
    state.status = projection.effect.apply(state.status);
    projection.notification
}

impl Notification {
    /// The name under which the user interface listens for a notification.
    pub open spec fn name_of(notification: NotificationView) -> Seq<char> {
        match notification {
            NotificationView::QrCode(_) => "qr-code"@,
            NotificationView::AuthSuccess => "auth-success"@,
            NotificationView::LoggedOut => "logged-out"@,
        }
    }

    /// The name under which this notification is sent.
    pub fn event_name(&self) -> (name: &'static str)
        ensures
            name@ == Notification::name_of(self@),
    {
        match self {
            Notification::QrCode(_) => "qr-code",
            Notification::AuthSuccess => "auth-success",
            Notification::LoggedOut => "logged-out",
        }
    }
}

/// Events take effect in the order in which they arrive: the status after a
/// sequence followed by one more event is the effect of that event on the
/// status after the sequence.
pub proof fn lemma_events_apply_in_order(
    status: SharedStatus,
    events: Seq<InboundEventView>,
    event: InboundEventView,
)
    ensures
        status_after_events(status, events.push(event)) == status_after_event(
            status_after_events(status, events),
            event,
        ),
{
    assert(events.push(event).drop_last() =~= events);
}

/// Processing two sequences one after the other is processing their
/// concatenation.
pub proof fn lemma_events_concatenate(
    status: SharedStatus,
    first: Seq<InboundEventView>,
    second: Seq<InboundEventView>,
)
    ensures
        status_after_events(status, first + second) == status_after_events(
            status_after_events(status, first),
            second,
        ),
    decreases second.len(),
{
    if second.len() == 0 {
    } else {
        lemma_events_concatenate(status, first, second.drop_last());
        assert((first + second).drop_last() =~= first + second.drop_last());
    }
}

/// Whether an event decides readiness: `Connected` grants it and
/// `LoggedOut` revokes it; no other event touches it.
pub open spec fn decides_readiness(event: InboundEventView) -> bool {
    event is Connected || event is LoggedOut
}

/// Events that do not decide readiness leave it as it was.
pub proof fn lemma_ready_untouched_by_other_events(
    status: SharedStatus,
    events: Seq<InboundEventView>,
)
    requires
        forall|i: int| 0 <= i < events.len() ==> !decides_readiness(#[trigger] events[i]),
    ensures
        status_after_events(status, events).ready == status.ready,
    decreases events.len(),
{
    if events.len() > 0 {
        lemma_ready_untouched_by_other_events(status, events.drop_last());
    }
}

/// Readiness after a sequence of events is decided by the last event that
/// decides it: the session is ready exactly if that event is `Connected`.
pub proof fn lemma_ready_follows_last_connection_event(
    status: SharedStatus,
    events: Seq<InboundEventView>,
    last: int,
)
    requires
        0 <= last < events.len(),
        decides_readiness(events[last]),
        forall|i: int| last < i < events.len() ==> !decides_readiness(#[trigger] events[i]),
    ensures
        status_after_events(status, events).ready == (events[last] is Connected),
    decreases events.len(),
{
    if last < events.len() - 1 {
        lemma_ready_follows_last_connection_event(status, events.drop_last(), last);
    }
}

/// A logout revokes both flags, whatever they were, and sends exactly the
/// logged-out notification.
pub proof fn lemma_logout_revokes(status: SharedStatus)
    ensures
        status_after_event(status, InboundEventView::LoggedOut) == SharedStatus::cleared(),
        notification_of(InboundEventView::LoggedOut) == Some(NotificationView::LoggedOut),
{
}

} // verus!
