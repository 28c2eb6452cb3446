//! The notification relay.
//!
//! The relay runs beside the command loop. It turns each notification of the
//! core into one mutation of the presentation state and keeps nothing of its
//! own: a notification that finds no conversation selected is gone.

use vstd::prelude::*;

use crate::entities::{CoreNotification, CoreNotificationView};
use crate::presentation::{StateMutation, StateMutationView};
use crate::state::MessageState;

verus! {

/// What the relay does next.
#[derive(Debug, PartialEq, Eq)]
pub enum RelayAction {
    /// Hand the mutation to the sink, then wait for the next notification.
    Mutate(StateMutation),
    /// End the relay.
    Stop,
}

/// An action of the relay by the view of what it carries.
pub enum RelayActionView {
    Mutate(StateMutationView),
    Stop,
}

impl View for RelayAction {
    type V = RelayActionView;

    open spec fn view(&self) -> RelayActionView {
        match self {
            RelayAction::Mutate(mutation) => RelayActionView::Mutate(mutation@),
            RelayAction::Stop => RelayActionView::Stop,
        }
    }
}

/// The mutation that a notification stands for: a new message is to be
/// appended to the selected conversation.
pub open spec fn relayed(notification: CoreNotificationView) -> StateMutationView {
    match notification {
        CoreNotificationView::NewMessage(message) => StateMutationView::AppendMessage { message },
    }
}

/// The mutations that a run of notifications stands for, one for each, in
/// the order in which the core emitted them.
pub open spec fn relayed_all(notifications: Seq<CoreNotificationView>) -> Seq<StateMutationView> {
    Seq::new(notifications.len(), |i: int| relayed(notifications[i]))
}

/// One turn of the relay. `received` is what the wait on the core's
/// notifications gave: a notification, or `None` once they are exhausted.
pub fn relay_step(received: Option<CoreNotification>) -> (action: RelayAction)
    ensures
        action@ == match received {
            Some(notification) => RelayActionView::Mutate(relayed(notification@)),
            None => RelayActionView::Stop,
        },
{
    match received {
        Some(CoreNotification::NewMessage(new_msg)) => RelayAction::Mutate(
            StateMutation::AppendMessage { message: MessageState::from_entity(new_msg) },
        ),
        None => RelayAction::Stop,
    }
}

} // verus!
