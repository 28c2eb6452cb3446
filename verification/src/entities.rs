//! Plain values that the core hands to the broker, and their mathematical
//! views: the same values with every text as a sequence of characters and
//! every list as a sequence.

use vstd::prelude::*;

verus! {

/// What is known of a contact: an alias and the text of a public key.
pub struct ContactView {
    pub alias: Seq<char>,
    pub pk: Seq<char>,
}

/// A key pair, each key as text.
pub struct UserView {
    pub sk: Seq<char>,
    pub pk: Seq<char>,
}

/// One message: who sent it, what it says, when it was written.
pub struct MessageView {
    pub sender: Seq<char>,
    pub content: Seq<char>,
    pub timestamp: u64,
}

/// The messages exchanged with one peer, oldest first.
pub struct ConversationView {
    pub messages: Seq<MessageView>,
}

/// The configuration: relay URLs in their configured order, and the contacts.
pub struct ConfigView {
    pub relays_url: Seq<Seq<char>>,
    pub contacts: Seq<ContactView>,
}

/// A contact record as the core keeps it.
#[derive(Clone, Debug, PartialEq, Eq)]
pub struct Contact {
    pub alias: String,
    pub pk: String,
}

impl View for Contact {
    type V = ContactView;

    open spec fn view(&self) -> ContactView {
        ContactView { alias: self.alias@, pk: self.pk@ }
    }
}

/// The active key pair as the core reports it.
#[derive(Clone, Debug, PartialEq, Eq)]
pub struct UserEntity {
    pub sk: String,
    pub pk: String,
}

impl View for UserEntity {
    type V = UserView;

    open spec fn view(&self) -> UserView {
        UserView { sk: self.sk@, pk: self.pk@ }
    }
}

/// A message as the core stores it.
#[derive(Clone, Debug, PartialEq, Eq)]
pub struct MessageEntity {
    pub sender: String,
    pub content: String,
    pub timestamp: u64,
}

impl View for MessageEntity {
    type V = MessageView;

    open spec fn view(&self) -> MessageView {
        MessageView { sender: self.sender@, content: self.content@, timestamp: self.timestamp }
    }
}

/// A conversation as the core stores it.
#[derive(Clone, Debug, PartialEq, Eq)]
pub struct ConversationEntity {
    pub messages: Vec<MessageEntity>,
}

impl View for ConversationEntity {
    type V = ConversationView;

    open spec fn view(&self) -> ConversationView {
        ConversationView { messages: message_views(self.messages@) }
    }
}

/// The views of a run of contact records, in the same order.
pub open spec fn contact_views(contacts: Seq<Contact>) -> Seq<ContactView> {
    Seq::new(contacts.len(), |i: int| contacts[i]@)
}

/// The views of a run of message entities, in the same order.
pub open spec fn message_views(messages: Seq<MessageEntity>) -> Seq<MessageView> {
    Seq::new(messages.len(), |i: int| messages[i]@)
}

/// The text of each URL of a run, in the same order.
pub open spec fn url_views(urls: Seq<String>) -> Seq<Seq<char>> {
    Seq::new(urls.len(), |i: int| urls[i]@)
}

/// A push event that the core emits on its own, outside any command.
#[derive(Clone, Debug, PartialEq, Eq)]
pub enum CoreNotification {
    NewMessage(MessageEntity),
}

/// A notification with its texts as sequences of characters.
pub enum CoreNotificationView {
    NewMessage(MessageView),
}

impl View for CoreNotification {
    type V = CoreNotificationView;

    open spec fn view(&self) -> CoreNotificationView {
        match self {
            CoreNotification::NewMessage(message) => CoreNotificationView::NewMessage(message@),
        }
    }
}

} // verus!
