//! What the broker hands to the presentation layer, and what each delivery
//! does to the state held there.
//!
//! The sink that carries a delivery to the presentation thread is not part of
//! this library. It is trusted to apply each delivery once, in the order in
//! which one task submitted them.

use vstd::prelude::*;

use crate::entities::{ConfigView, ConversationView, MessageView, UserView};
use crate::state::{ConfigState, ConversationState, MessageState, UserState};
use crate::vector::push_message;

verus! {

/// An announcement sent to the presentation layer as a message of its own.
#[derive(Debug, PartialEq, Eq)]
pub enum BrokerNotification {
    ConfigUpdated { config: ConfigState },
}

/// An announcement by the view of what it carries.
pub enum BrokerNotificationView {
    ConfigUpdated { config: ConfigView },
}

impl View for BrokerNotification {
    type V = BrokerNotificationView;

    open spec fn view(&self) -> BrokerNotificationView {
        match self {
            BrokerNotification::ConfigUpdated { config } => BrokerNotificationView::ConfigUpdated {
                config: config@,
            },
        }
    }
}

/// A change to the presentation state, applied there as one indivisible step.
#[derive(Debug, PartialEq, Eq)]
pub enum StateMutation {
    /// Replace the configuration snapshot.
    SetConfig { config: ConfigState },
    /// Replace the key pair snapshot.
    SetUser { user: UserState },
    /// Select a conversation, replacing the one selected before.
    SetConversation { conversation: ConversationState },
    /// Append one message to the selected conversation, if there is one.
    AppendMessage { message: MessageState },
}

/// A mutation by the view of what it carries.
pub enum StateMutationView {
    SetConfig { config: ConfigView },
    SetUser { user: UserView },
    SetConversation { conversation: ConversationView },
    AppendMessage { message: MessageView },
}

impl View for StateMutation {
    type V = StateMutationView;

    open spec fn view(&self) -> StateMutationView {
        match self {
            StateMutation::SetConfig { config } => StateMutationView::SetConfig { config: config@ },
            StateMutation::SetUser { user } => StateMutationView::SetUser { user: user@ },
            StateMutation::SetConversation { conversation } => StateMutationView::SetConversation {
                conversation: conversation@,
            },
            StateMutation::AppendMessage { message } => StateMutationView::AppendMessage {
                message: message@,
            },
        }
    }
}

/// The part of the presentation state that the broker writes.
#[derive(Debug, PartialEq, Eq)]
pub struct AppState {
    pub config: ConfigState,
    pub user: UserState,
    pub selected_conv: Option<ConversationState>,
}

/// The presentation state by the views of its snapshots.
pub struct AppView {
    pub config: ConfigView,
    pub user: UserView,
    pub selected_conv: Option<ConversationView>,
}

impl View for AppState {
    type V = AppView;

    open spec fn view(&self) -> AppView {
        AppView {
            config: self.config@,
            user: self.user@,
            selected_conv: match self.selected_conv {
                Some(conversation) => Some(conversation@),
                None => None,
            },
        }
    }
}

impl AppView {
    /// The state after one mutation. A message is appended to the selected
    /// conversation behind the messages already there; with no conversation
    /// selected it is dropped and the state stays as it is.
    pub open spec fn apply(self, mutation: StateMutationView) -> AppView {
        match mutation {
            StateMutationView::SetConfig { config } => AppView { config, ..self },
            StateMutationView::SetUser { user } => AppView { user, ..self },
            StateMutationView::SetConversation { conversation } => AppView {
                selected_conv: Some(conversation),
                ..self
            },
            StateMutationView::AppendMessage { message } => match self.selected_conv {
                Some(conversation) => AppView {
                    selected_conv: Some(
                        ConversationView { messages: conversation.messages.push(message) },
                    ),
                    ..self
                },
                None => self,
            },
        }
    }

    /// The state after a run of mutations, applied first to last.
    pub open spec fn apply_all(self, mutations: Seq<StateMutationView>) -> AppView
        decreases mutations.len(),
    {
        if mutations.len() == 0 {
            self
        } else {
            self.apply_all(mutations.drop_last()).apply(mutations.last())
        }
    }

    /// The state after an announcement: a configuration update replaces the
    /// configuration snapshot.
    pub open spec fn notify(self, notification: BrokerNotificationView) -> AppView {
        match notification {
            BrokerNotificationView::ConfigUpdated { config } => AppView { config, ..self },
        }
    }
}

impl AppState {
    /// The state before anything was published: an empty configuration, an
    /// empty key pair, no conversation selected.
    pub fn new() -> (state: AppState)
        ensures
            state@ == (AppView {
                config: ConfigView { relays_url: Seq::empty(), contacts: Seq::empty() },
                user: UserView { sk: Seq::empty(), pk: Seq::empty() },
                selected_conv: None,
            }),
    {
        AppState {
            config: ConfigState::new(),
            user: UserState { sk: String::new(), pk: String::new() },
            selected_conv: None,
        }
    }

    /// Applies one mutation to the state.
    pub fn apply(&mut self, mutation: StateMutation)
        ensures
            final(self)@ == old(self)@.apply(mutation@),
    {
        match mutation {
            StateMutation::SetConfig { config } => {
                self.config = config;
            },
            StateMutation::SetUser { user } => {
                self.user = user;
            },
            StateMutation::SetConversation { conversation } => {
                self.selected_conv = Some(conversation);
            },
            StateMutation::AppendMessage { message } => {
                if self.selected_conv.is_some() {
                    let mut updated_conv = self.selected_conv.as_ref().unwrap().clone();
                    push_message(&mut updated_conv.messages, message);
                    self.selected_conv = Some(updated_conv);
                }
            },
        }
    }

    /// Takes in one announcement.
    pub fn notify(&mut self, notification: BrokerNotification)
        ensures
            final(self)@ == old(self)@.notify(notification@),
    {
        match notification {
            BrokerNotification::ConfigUpdated { config } => {
                self.config = config;
            },
        }
    }
}

} // verus!
