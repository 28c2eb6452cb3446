//! Snapshots: immutable projections of core data for display.
//!
//! A snapshot is built completely from plain core values before it is handed
//! on. On views every projection is the identity: a snapshot shows exactly
//! what the core reported, in the same order.

use im::Vector;
use vstd::prelude::*;

use crate::entities::{
    contact_views, message_views, url_views, ConfigView, Contact, ContactView, ConversationEntity,
    ConversationView, MessageEntity, MessageView, UserEntity, UserView,
};
use crate::vector::{
    clone_messages, contact_items, contacts_from_vec, message_items, messages_from_vec, url_items,
    urls_from_vec,
};

verus! {

/// A contact as the presentation layer shows it.
#[derive(Clone, Debug, PartialEq, Eq)]
pub struct ContactState {
    pub alias: String,
    pub pk: String,
}

impl View for ContactState {
    type V = ContactView;

    open spec fn view(&self) -> ContactView {
        ContactView { alias: self.alias@, pk: self.pk@ }
    }
}

impl ContactState {
    pub fn new(alias: &str, pk: &str) -> (contact: ContactState)
        ensures
            contact@ == (ContactView { alias: alias@, pk: pk@ }),
    {
        ContactState { alias: alias.to_owned(), pk: pk.to_owned() }
    }
}

/// The configuration as the presentation layer shows it.
#[derive(Debug, PartialEq, Eq)]
pub struct ConfigState {
    pub relays_url: Vector<String>,
    pub contacts: Vector<ContactState>,
}

impl View for ConfigState {
    type V = ConfigView;

    open spec fn view(&self) -> ConfigView {
        ConfigView {
            relays_url: url_items(self.relays_url),
            contacts: contact_items(self.contacts),
        }
    }
}

impl ConfigState {
    /// The configuration with no relay and no contact.
    pub fn new() -> (config: ConfigState)
        ensures
            config@ == (ConfigView { relays_url: Seq::empty(), contacts: Seq::empty() }),
    {
        let config = ConfigState {
            relays_url: urls_from_vec(Vec::new()),
            contacts: contacts_from_vec(Vec::new()),
        };
        assert(config@.relays_url =~= Seq::empty());
        assert(config@.contacts =~= Seq::empty());
        config
    }
}

/// The active key pair as the presentation layer shows it.
#[derive(Clone, Debug, PartialEq, Eq)]
pub struct UserState {
    pub sk: String,
    pub pk: String,
}

impl View for UserState {
    type V = UserView;

    open spec fn view(&self) -> UserView {
        UserView { sk: self.sk@, pk: self.pk@ }
    }
}

impl UserState {
    pub fn new(sk: &str, pk: &str) -> (user: UserState)
        ensures
            user@ == (UserView { sk: sk@, pk: pk@ }),
    {
        UserState { sk: sk.to_owned(), pk: pk.to_owned() }
    }
}

/// A message as the presentation layer shows it.
#[derive(Clone, Debug, PartialEq, Eq)]
pub struct MessageState {
    pub sender: String,
    pub content: String,
    pub timestamp: u64,
}

impl View for MessageState {
    type V = MessageView;

    open spec fn view(&self) -> MessageView {
        MessageView { sender: self.sender@, content: self.content@, timestamp: self.timestamp }
    }
}

impl MessageState {
    /// The snapshot of one message: every field carried over.
    pub fn from_entity(entity: MessageEntity) -> (message: MessageState)
        ensures
            message@ == entity@,
    {
        MessageState { sender: entity.sender, content: entity.content, timestamp: entity.timestamp }
    }

    /// As `from_entity`, leaving the entity with its owner.
    pub fn from_entity_ref(entity: &MessageEntity) -> (message: MessageState)
        ensures
            message@ == entity@,
    {
        MessageState {
            sender: entity.sender.clone(),
            content: entity.content.clone(),
            timestamp: entity.timestamp,
        }
    }
}

/// The conversation with the selected peer as the presentation layer shows it.
#[derive(Debug, PartialEq, Eq)]
pub struct ConversationState {
    pub messages: Vector<MessageState>,
}

impl View for ConversationState {
    type V = ConversationView;

    open spec fn view(&self) -> ConversationView {
        ConversationView { messages: message_items(self.messages) }
    }
}

impl Clone for ConversationState {
    fn clone(&self) -> (copy: ConversationState)
        ensures
            copy@ == self@,
    {
        ConversationState { messages: clone_messages(&self.messages) }
    }
}

impl ConversationState {
    /// The snapshot of a whole conversation: each message projected, oldest
    /// first as in the entity.
    pub fn from_entity(entity: ConversationEntity) -> (conversation: ConversationState)
        ensures
            conversation@ == entity@,
    {
        let mut messages: Vec<MessageState> = Vec::new();
        let mut i: usize = 0;
        while i < entity.messages.len()
            invariant
                i <= entity.messages.len(),
                messages@.len() == i,
                forall|j: int| 0 <= j < i ==> messages@[j]@ == entity.messages@[j]@,
            decreases entity.messages.len() - i,
        {
            messages.push(MessageState::from_entity_ref(&entity.messages[i]));
            i += 1;
        }
        assert(message_state_views(messages@) =~= message_views(entity.messages@));
        ConversationState { messages: messages_from_vec(messages) }
    }
}

/// The views of a run of contact snapshots, in the same order.
pub open spec fn contact_state_views(contacts: Seq<ContactState>) -> Seq<ContactView> {
    Seq::new(contacts.len(), |i: int| contacts[i]@)
}

/// The views of a run of message snapshots, in the same order.
pub open spec fn message_state_views(messages: Seq<MessageState>) -> Seq<MessageView> {
    Seq::new(messages.len(), |i: int| messages[i]@)
}

/// Builds the configuration snapshot from what the core reports: the relay
/// URLs in the core's order and one contact snapshot per contact record.
pub fn load_config(relays_url: Vec<String>, contacts: &Vec<Contact>) -> (config: ConfigState)
    ensures
        config@ == (ConfigView {
            relays_url: url_views(relays_url@),
            contacts: contact_views(contacts@),
        }),
{
    let mut states: Vec<ContactState> = Vec::new();
    let mut i: usize = 0;
    while i < contacts.len()
        invariant
            i <= contacts.len(),
            states@.len() == i,
            forall|j: int| 0 <= j < i ==> states@[j]@ == contacts@[j]@,
        decreases contacts.len() - i,
    {
        let contact = &contacts[i];
        states.push(ContactState::new(contact.alias.as_str(), contact.pk.as_str()));
        i += 1;
    }
    assert(contact_state_views(states@) =~= contact_views(contacts@));
    ConfigState { relays_url: urls_from_vec(relays_url), contacts: contacts_from_vec(states) }
}

/// Builds the key pair snapshot from the core's user entity.
pub fn load_user(user: &UserEntity) -> (state: UserState)
    ensures
        state@ == user@,
{
    UserState::new(user.sk.as_str(), user.pk.as_str())
}

} // verus!
