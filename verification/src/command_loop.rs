//! The command loop as a state machine.
//!
//! The loop takes one command at a time from its queue, asks the core for the
//! matching operation, and publishes a fresh snapshot where the command calls
//! for one. Waiting is not done here: each action names the one thing to do
//! next, and the event that comes back says how it ended. `transition` is the
//! whole table; `step` computes it.

use vstd::prelude::*;

use crate::command::{
    BrokerEvent, BrokerEventView, CoreReply, CoreReplyView, CoreRequest, CoreRequestView,
};
use crate::entities::{contact_views, url_views, ConfigView, Contact, UserEntity};
use crate::presentation::{
    BrokerNotification, BrokerNotificationView, StateMutation, StateMutationView,
};
use crate::state::{load_config, load_user, ConversationState};

verus! {

/// Where the loop stands: what it has asked for and not yet heard of.
#[derive(Clone, Copy, Debug, PartialEq, Eq, Structural)]
pub enum LoopState {
    /// The first configuration was asked of the core.
    Loading,
    /// The first configuration is being announced.
    Announcing,
    /// The notification relay is being started.
    Spawning,
    /// Between commands: the next command was asked of the queue.
    Idle,
    /// An operation runs whose result changes nothing.
    Settling,
    /// A relay is being added.
    AddingRelay,
    /// A relay is being removed.
    RemovingRelay,
    /// A contact is being added or removed.
    ChangingContact,
    /// A secret key is being imported or a key pair generated.
    ChangingKey,
    /// Subscriptions are being set up again after a change of key.
    Resubscribing,
    /// The configuration was asked of the core, to be published.
    FetchingConfig,
    /// The key pair was asked of the core, to be published.
    FetchingUser,
    /// A conversation was asked of the core, to be selected.
    FetchingConversation,
    /// A snapshot is on its way to the presentation layer.
    Publishing,
    /// The queue is closed for good; the loop has ended.
    Stopped,
}

/// What happened since the last action.
#[derive(Clone, Debug, PartialEq, Eq)]
pub enum LoopEvent {
    /// The queue yielded a command.
    Command(BrokerEvent),
    /// The queue is closed and empty: every producer is gone.
    Closed,
    /// The core answered the request.
    Reply(CoreReply),
    /// The announcement or mutation was handed to the sink.
    Delivered,
    /// The notification relay runs.
    RelaySpawned,
}

/// An event by the view of what it carries.
pub enum LoopEventView {
    Command(BrokerEventView),
    Closed,
    Reply(CoreReplyView),
    Delivered,
    RelaySpawned,
}

impl View for LoopEvent {
    type V = LoopEventView;

    open spec fn view(&self) -> LoopEventView {
        match self {
            LoopEvent::Command(command) => LoopEventView::Command(command@),
            LoopEvent::Closed => LoopEventView::Closed,
            LoopEvent::Reply(reply) => LoopEventView::Reply(reply@),
            LoopEvent::Delivered => LoopEventView::Delivered,
            LoopEvent::RelaySpawned => LoopEventView::RelaySpawned,
        }
    }
}

/// The one thing to do next.
#[derive(Debug, PartialEq, Eq)]
pub enum LoopAction {
    /// Ask the core, wait for it, and come back with `Reply`.
    Call(CoreRequest),
    /// Send the announcement and come back with `Delivered`.
    Notify(BrokerNotification),
    /// Hand the mutation to the sink and come back with `Delivered`.
    Mutate(StateMutation),
    /// Subscribe to the core's notifications, start the relay on them and
    /// come back with `RelaySpawned`.
    SpawnRelay,
    /// Wait for the next command and come back with `Command` or `Closed`.
    Receive,
    /// End the loop.
    Stop,
}

/// An action by the view of what it carries.
pub enum LoopActionView {
    Call(CoreRequestView),
    Notify(BrokerNotificationView),
    Mutate(StateMutationView),
    SpawnRelay,
    Receive,
    Stop,
}

impl View for LoopAction {
    type V = LoopActionView;

    open spec fn view(&self) -> LoopActionView {
        match self {
            LoopAction::Call(request) => LoopActionView::Call(request@),
            LoopAction::Notify(notification) => LoopActionView::Notify(notification@),
            LoopAction::Mutate(mutation) => LoopActionView::Mutate(mutation@),
            LoopAction::SpawnRelay => LoopActionView::SpawnRelay,
            LoopAction::Receive => LoopActionView::Receive,
            LoopAction::Stop => LoopActionView::Stop,
        }
    }
}

/// The core operation with which a command begins.
pub open spec fn opening_call(command: BrokerEventView) -> CoreRequestView {
    match command {
        BrokerEventView::AddRelay { url } => CoreRequestView::AddRelay { url },
        BrokerEventView::RemoveRelay { url } => CoreRequestView::RemoveRelay { url },
        BrokerEventView::ConnectRelay { url } => CoreRequestView::ConnectRelay { url },
        BrokerEventView::DisconnectRelay { url } => CoreRequestView::DisconnectRelay { url },
        BrokerEventView::AddContact { new_contact } => CoreRequestView::AddContact {
            contact: new_contact,
        },
        BrokerEventView::RemoveContact { contact } => CoreRequestView::RemoveContact { contact },
        BrokerEventView::SubscribeInRelays { pk } => CoreRequestView::Subscribe,
        BrokerEventView::RestoreKeyPair { sk } => CoreRequestView::ImportUserSk { sk },
        BrokerEventView::GenerateNewKeyPair => CoreRequestView::GenNewUserKeypair,
        BrokerEventView::SetConversation { pk } => CoreRequestView::GetConv { pk },
        BrokerEventView::SendMessage { pk, content } => CoreRequestView::SendMsgToContact {
            pk,
            content,
        },
        BrokerEventView::LoadConfigs => CoreRequestView::GetConfig,
    }
}

/// Where the loop stands while a command's opening call runs.
pub open spec fn opened(command: BrokerEventView) -> LoopState {
    match command {
        BrokerEventView::AddRelay { .. } => LoopState::AddingRelay,
        BrokerEventView::RemoveRelay { .. } => LoopState::RemovingRelay,
        BrokerEventView::ConnectRelay { .. } => LoopState::Settling,
        BrokerEventView::DisconnectRelay { .. } => LoopState::Settling,
        BrokerEventView::AddContact { .. } => LoopState::ChangingContact,
        BrokerEventView::RemoveContact { .. } => LoopState::ChangingContact,
        BrokerEventView::SubscribeInRelays { .. } => LoopState::Settling,
        BrokerEventView::RestoreKeyPair { .. } => LoopState::ChangingKey,
        BrokerEventView::GenerateNewKeyPair => LoopState::ChangingKey,
        BrokerEventView::SetConversation { .. } => LoopState::FetchingConversation,
        BrokerEventView::SendMessage { .. } => LoopState::Settling,
        BrokerEventView::LoadConfigs => LoopState::FetchingConfig,
    }
}

/// What follows the core's answer in a given state, if the state waits for
/// an answer and this is one it can take.
///
/// A relay change is followed by a refresh of the configuration only when the
/// core reports that very change as done. A contact change is followed by a
/// refresh whatever the core reports. A conversation that the core does not
/// have is followed by nothing.
pub open spec fn after_reply(state: LoopState, reply: CoreReplyView) -> Option<
    (LoopState, LoopActionView),
> {
    let refresh = Some((LoopState::FetchingConfig, LoopActionView::Call(CoreRequestView::GetConfig)));
    let next_command = Some((LoopState::Idle, LoopActionView::Receive));
    match state {
        LoopState::Loading => match reply {
            CoreReplyView::Config { config } => Some(
                (
                    LoopState::Announcing,
                    LoopActionView::Notify(BrokerNotificationView::ConfigUpdated { config }),
                ),
            ),
            _ => None,
        },
        LoopState::Settling => next_command,
        LoopState::AddingRelay => if reply == (CoreReplyView::RelayAdded { ok: true }) {
            refresh
        } else {
            next_command
        },
        LoopState::RemovingRelay => if reply == (CoreReplyView::RelayRemoved { ok: true }) {
            refresh
        } else {
            next_command
        },
        LoopState::ChangingContact => refresh,
        LoopState::ChangingKey => Some(
            (LoopState::Resubscribing, LoopActionView::Call(CoreRequestView::Subscribe)),
        ),
        LoopState::Resubscribing => Some(
            (LoopState::FetchingUser, LoopActionView::Call(CoreRequestView::GetUser)),
        ),
        LoopState::FetchingConfig => match reply {
            CoreReplyView::Config { config } => Some(
                (
                    LoopState::Publishing,
                    LoopActionView::Mutate(StateMutationView::SetConfig { config }),
                ),
            ),
            _ => None,
        },
        LoopState::FetchingUser => match reply {
            CoreReplyView::User { user } => Some(
                (LoopState::Publishing, LoopActionView::Mutate(StateMutationView::SetUser { user })),
            ),
            _ => None,
        },
        LoopState::FetchingConversation => match reply {
            CoreReplyView::Conversation { conversation: Some(conversation) } => Some(
                (
                    LoopState::Publishing,
                    LoopActionView::Mutate(StateMutationView::SetConversation { conversation }),
                ),
            ),
            CoreReplyView::Conversation { conversation: None } => next_command,
            _ => None,
        },
        _ => None,
    }
}

/// The transition table of the command loop: the next state and the action
/// to take, or `None` where the event is not one that the state waits for.
pub open spec fn transition(state: LoopState, event: LoopEventView) -> Option<
    (LoopState, LoopActionView),
> {
    match event {
        LoopEventView::Command(command) => if state == LoopState::Idle {
            Some((opened(command), LoopActionView::Call(opening_call(command))))
        } else {
            None
        },
        LoopEventView::Closed => if state == LoopState::Idle {
            Some((LoopState::Stopped, LoopActionView::Stop))
        } else {
            None
        },
        LoopEventView::Reply(reply) => after_reply(state, reply),
        LoopEventView::Delivered => match state {
            LoopState::Announcing => Some((LoopState::Spawning, LoopActionView::SpawnRelay)),
            LoopState::Publishing => Some((LoopState::Idle, LoopActionView::Receive)),
            _ => None,
        },
        LoopEventView::RelaySpawned => if state == LoopState::Spawning {
            Some((LoopState::Idle, LoopActionView::Receive))
        } else {
            None
        },
    }
}

/// The outcome of a whole run of events from a state: the state reached and
/// the actions taken, one per event, or `None` if an event did not fit.
pub open spec fn run(state: LoopState, events: Seq<LoopEventView>) -> Option<
    (LoopState, Seq<LoopActionView>),
>
    decreases events.len(),
{
    if events.len() == 0 {
        Some((state, Seq::empty()))
    } else {
        match run(state, events.drop_last()) {
            Some((reached, actions)) => match transition(reached, events.last()) {
                Some((next, action)) => Some((next, actions.push(action))),
                None => None,
            },
            None => None,
        }
    }
}

/// The mutation that publishes the key pair reported by the core.
pub fn update_user_state(user: &UserEntity) -> (mutation: StateMutation)
    ensures
        mutation@ == (StateMutationView::SetUser { user: user@ }),
{
    StateMutation::SetUser { user: load_user(user) }
}

/// The mutation that publishes the configuration reported by the core.
pub fn update_config_state(relays_url: Vec<String>, contacts: &Vec<Contact>) -> (mutation:
    StateMutation)
    ensures
        mutation@ == (StateMutationView::SetConfig {
            config: ConfigView {
                relays_url: url_views(relays_url@),
                contacts: contact_views(contacts@),
            },
        }),
{
    StateMutation::SetConfig { config: load_config(relays_url, contacts) }
}

/// Creates the broker. Its first act is to ask the core for the
/// configuration, which it then announces before it takes any command.
pub fn start_broker() -> (out: (LoopState, LoopAction))
    ensures
        out.0 == LoopState::Loading,
        out.1@ == LoopActionView::Call(CoreRequestView::GetConfig),
{
    (LoopState::Loading, LoopAction::Call(CoreRequest::GetConfig))
}

/// Begins a command: the opening call and the state in which its answer is
/// awaited.
pub fn open_command(command: BrokerEvent) -> (out: (LoopState, LoopAction))
    ensures
        out.0 == opened(command@),
        out.1@ == LoopActionView::Call(opening_call(command@)),
{
    match command {
        BrokerEvent::SendMessage { pk, content } => (
            LoopState::Settling,
            LoopAction::Call(CoreRequest::SendMsgToContact { pk, content }),
        ),
        BrokerEvent::SetConversation { pk } => (
            LoopState::FetchingConversation,
            LoopAction::Call(CoreRequest::GetConv { pk }),
        ),
        BrokerEvent::RestoreKeyPair { sk } => (
            LoopState::ChangingKey,
            LoopAction::Call(CoreRequest::ImportUserSk { sk }),
        ),
        BrokerEvent::GenerateNewKeyPair => (
            LoopState::ChangingKey,
            LoopAction::Call(CoreRequest::GenNewUserKeypair),
        ),
        BrokerEvent::AddRelay { url } => (
            LoopState::AddingRelay,
            LoopAction::Call(CoreRequest::AddRelay { url }),
        ),
        BrokerEvent::RemoveRelay { url } => (
            LoopState::RemovingRelay,
            LoopAction::Call(CoreRequest::RemoveRelay { url }),
        ),
        BrokerEvent::ConnectRelay { url } => (
            LoopState::Settling,
            LoopAction::Call(CoreRequest::ConnectRelay { url }),
        ),
        BrokerEvent::DisconnectRelay { url } => (
            LoopState::Settling,
            LoopAction::Call(CoreRequest::DisconnectRelay { url }),
        ),
        BrokerEvent::SubscribeInRelays { pk } => (
            LoopState::Settling,
            LoopAction::Call(CoreRequest::Subscribe),
        ),
        BrokerEvent::AddContact { new_contact } => (
            LoopState::ChangingContact,
            LoopAction::Call(CoreRequest::AddContact { contact: new_contact }),
        ),
        BrokerEvent::RemoveContact { contact } => (
            LoopState::ChangingContact,
            LoopAction::Call(CoreRequest::RemoveContact { contact }),
        ),
        BrokerEvent::LoadConfigs => (
            LoopState::FetchingConfig,
            LoopAction::Call(CoreRequest::GetConfig),
        ),
    }
}

/// Continues after the core's answer.
pub fn on_reply(state: LoopState, reply: CoreReply) -> (out: Option<(LoopState, LoopAction)>)
    ensures
        match out {
            Some((next, action)) => after_reply(state, reply@) == Some((next, action@)),
            None => after_reply(state, reply@) is None,
        },
{
    match state {
        LoopState::Loading => match reply {
            CoreReply::Config { relays_url, contacts } => Some(
                (
                    LoopState::Announcing,
                    LoopAction::Notify(
                        BrokerNotification::ConfigUpdated {
                            config: load_config(relays_url, &contacts),
                        },
                    ),
                ),
            ),
            _ => None,
        },
        LoopState::Settling => Some((LoopState::Idle, LoopAction::Receive)),
        LoopState::AddingRelay => match reply {
            CoreReply::RelayAdded { ok: true } => Some(
                (LoopState::FetchingConfig, LoopAction::Call(CoreRequest::GetConfig)),
            ),
            _ => Some((LoopState::Idle, LoopAction::Receive)),
        },
        LoopState::RemovingRelay => match reply {
            CoreReply::RelayRemoved { ok: true } => Some(
                (LoopState::FetchingConfig, LoopAction::Call(CoreRequest::GetConfig)),
            ),
            _ => Some((LoopState::Idle, LoopAction::Receive)),
        },
        LoopState::ChangingContact => Some(
            (LoopState::FetchingConfig, LoopAction::Call(CoreRequest::GetConfig)),
        ),
        LoopState::ChangingKey => Some(
            (LoopState::Resubscribing, LoopAction::Call(CoreRequest::Subscribe)),
        ),
        LoopState::Resubscribing => Some(
            (LoopState::FetchingUser, LoopAction::Call(CoreRequest::GetUser)),
        ),
        LoopState::FetchingConfig => match reply {
            CoreReply::Config { relays_url, contacts } => Some(
                (
                    LoopState::Publishing,
                    LoopAction::Mutate(update_config_state(relays_url, &contacts)),
                ),
            ),
            _ => None,
        },
        LoopState::FetchingUser => match reply {
            CoreReply::User { user } => Some(
                (LoopState::Publishing, LoopAction::Mutate(update_user_state(&user))),
            ),
            _ => None,
        },
        LoopState::FetchingConversation => match reply {
            CoreReply::Conversation { conversation: Some(entity) } => Some(
                (
                    LoopState::Publishing,
                    LoopAction::Mutate(
                        StateMutation::SetConversation {
                            conversation: ConversationState::from_entity(entity),
                        },
                    ),
                ),
            ),
            CoreReply::Conversation { conversation: None } => Some(
                (LoopState::Idle, LoopAction::Receive),
            ),
            _ => None,
        },
        _ => None,
    }
}

/// One step of the command loop: takes the event that ended the last action
/// and gives the next state and the next action. An event that the state
/// does not wait for is refused with `None`.
pub fn step(state: LoopState, event: LoopEvent) -> (out: Option<(LoopState, LoopAction)>)
    ensures
        match out {
            Some((next, action)) => transition(state, event@) == Some((next, action@)),
            None => transition(state, event@) is None,
        },
{
    match event {
        LoopEvent::Command(command) => {
            if state == LoopState::Idle {
                Some(open_command(command))
            } else {
                None
            }
        },
        LoopEvent::Closed => {
            if state == LoopState::Idle {
                Some((LoopState::Stopped, LoopAction::Stop))
            } else {
                None
            }
        },
        LoopEvent::Reply(reply) => on_reply(state, reply),
        LoopEvent::Delivered => match state {
            LoopState::Announcing => Some((LoopState::Spawning, LoopAction::SpawnRelay)),
            LoopState::Publishing => Some((LoopState::Idle, LoopAction::Receive)),
            _ => None,
        },
        LoopEvent::RelaySpawned => {
            if state == LoopState::Spawning {
                Some((LoopState::Idle, LoopAction::Receive))
            } else {
                None
            }
        },
    }
}

} // verus!
