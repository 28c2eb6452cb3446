//! Commands from the presentation layer, and the vocabulary in which the
//! broker talks to the core: one request per core operation, one reply per
//! kind of result.

use vstd::prelude::*;

use crate::entities::{
    contact_views, url_views, ConfigView, Contact, ContactView, ConversationEntity,
    ConversationView, UserEntity, UserView,
};

verus! {

/// One user intent. A command is consumed once by the command loop.
#[derive(Clone, Debug, PartialEq, Eq)]
pub enum BrokerEvent {
    AddRelay { url: String },
    RemoveRelay { url: String },
    ConnectRelay { url: String },
    DisconnectRelay { url: String },
    AddContact { new_contact: Contact },
    RemoveContact { contact: Contact },
    SubscribeInRelays { pk: String },
    RestoreKeyPair { sk: String },
    GenerateNewKeyPair,
    SetConversation { pk: String },
    SendMessage { pk: String, content: String },
    LoadConfigs,
}

/// A command with its texts as sequences of characters.
pub enum BrokerEventView {
    AddRelay { url: Seq<char> },
    RemoveRelay { url: Seq<char> },
    ConnectRelay { url: Seq<char> },
    DisconnectRelay { url: Seq<char> },
    AddContact { new_contact: ContactView },
    RemoveContact { contact: ContactView },
    SubscribeInRelays { pk: Seq<char> },
    RestoreKeyPair { sk: Seq<char> },
    GenerateNewKeyPair,
    SetConversation { pk: Seq<char> },
    SendMessage { pk: Seq<char>, content: Seq<char> },
    LoadConfigs,
}

impl View for BrokerEvent {
    type V = BrokerEventView;

    open spec fn view(&self) -> BrokerEventView {
        match self {
            BrokerEvent::AddRelay { url } => BrokerEventView::AddRelay { url: url@ },
            BrokerEvent::RemoveRelay { url } => BrokerEventView::RemoveRelay { url: url@ },
            BrokerEvent::ConnectRelay { url } => BrokerEventView::ConnectRelay { url: url@ },
            BrokerEvent::DisconnectRelay { url } => BrokerEventView::DisconnectRelay { url: url@ },
            BrokerEvent::AddContact { new_contact } => BrokerEventView::AddContact {
                new_contact: new_contact@,
            },
            BrokerEvent::RemoveContact { contact } => BrokerEventView::RemoveContact {
                contact: contact@,
            },
            BrokerEvent::SubscribeInRelays { pk } => BrokerEventView::SubscribeInRelays { pk: pk@ },
            BrokerEvent::RestoreKeyPair { sk } => BrokerEventView::RestoreKeyPair { sk: sk@ },
            BrokerEvent::GenerateNewKeyPair => BrokerEventView::GenerateNewKeyPair,
            BrokerEvent::SetConversation { pk } => BrokerEventView::SetConversation { pk: pk@ },
            BrokerEvent::SendMessage { pk, content } => BrokerEventView::SendMessage {
                pk: pk@,
                content: content@,
            },
            BrokerEvent::LoadConfigs => BrokerEventView::LoadConfigs,
        }
    }
}

/// One operation of the core, with its arguments.
#[derive(Clone, Debug, PartialEq, Eq)]
pub enum CoreRequest {
    AddRelay { url: String },
    RemoveRelay { url: String },
    ConnectRelay { url: String },
    DisconnectRelay { url: String },
    AddContact { contact: Contact },
    RemoveContact { contact: Contact },
    Subscribe,
    ImportUserSk { sk: String },
    GenNewUserKeypair,
    GetConfig,
    GetUser,
    GetConv { pk: String },
    SendMsgToContact { pk: String, content: String },
}

/// A request with its texts as sequences of characters.
pub enum CoreRequestView {
    AddRelay { url: Seq<char> },
    RemoveRelay { url: Seq<char> },
    ConnectRelay { url: Seq<char> },
    DisconnectRelay { url: Seq<char> },
    AddContact { contact: ContactView },
    RemoveContact { contact: ContactView },
    Subscribe,
    ImportUserSk { sk: Seq<char> },
    GenNewUserKeypair,
    GetConfig,
    GetUser,
    GetConv { pk: Seq<char> },
    SendMsgToContact { pk: Seq<char>, content: Seq<char> },
}

impl View for CoreRequest {
    type V = CoreRequestView;

    open spec fn view(&self) -> CoreRequestView {
        match self {
            CoreRequest::AddRelay { url } => CoreRequestView::AddRelay { url: url@ },
            CoreRequest::RemoveRelay { url } => CoreRequestView::RemoveRelay { url: url@ },
            CoreRequest::ConnectRelay { url } => CoreRequestView::ConnectRelay { url: url@ },
            CoreRequest::DisconnectRelay { url } => CoreRequestView::DisconnectRelay { url: url@ },
            CoreRequest::AddContact { contact } => CoreRequestView::AddContact { contact: contact@ },
            CoreRequest::RemoveContact { contact } => CoreRequestView::RemoveContact {
                contact: contact@,
            },
            CoreRequest::Subscribe => CoreRequestView::Subscribe,
            CoreRequest::ImportUserSk { sk } => CoreRequestView::ImportUserSk { sk: sk@ },
            CoreRequest::GenNewUserKeypair => CoreRequestView::GenNewUserKeypair,
            CoreRequest::GetConfig => CoreRequestView::GetConfig,
            CoreRequest::GetUser => CoreRequestView::GetUser,
            CoreRequest::GetConv { pk } => CoreRequestView::GetConv { pk: pk@ },
            CoreRequest::SendMsgToContact { pk, content } => CoreRequestView::SendMsgToContact {
                pk: pk@,
                content: content@,
            },
        }
    }
}

/// What the core answered to a request.
#[derive(Clone, Debug, PartialEq, Eq)]
pub enum CoreReply {
    /// The operation has run; it reports nothing.
    Done,
    /// Adding a relay has run, with or without success.
    RelayAdded { ok: bool },
    /// Removing a relay has run, with or without success.
    RelayRemoved { ok: bool },
    /// Adding a contact has run, with or without success.
    ContactAdded { ok: bool },
    /// Removing a contact has run, with or without success.
    ContactRemoved { ok: bool },
    /// The configured relays, in order, and the known contacts.
    Config { relays_url: Vec<String>, contacts: Vec<Contact> },
    /// The active key pair.
    User { user: UserEntity },
    /// The conversation with a peer, where the core has one.
    Conversation { conversation: Option<ConversationEntity> },
}

/// A reply with its texts as sequences of characters and its lists as
/// sequences.
pub enum CoreReplyView {
    Done,
    RelayAdded { ok: bool },
    RelayRemoved { ok: bool },
    ContactAdded { ok: bool },
    ContactRemoved { ok: bool },
    Config { config: ConfigView },
    User { user: UserView },
    Conversation { conversation: Option<ConversationView> },
}

impl View for CoreReply {
    type V = CoreReplyView;

    open spec fn view(&self) -> CoreReplyView {
        match self {
            CoreReply::Done => CoreReplyView::Done,
            CoreReply::RelayAdded { ok } => CoreReplyView::RelayAdded { ok: *ok },
            CoreReply::RelayRemoved { ok } => CoreReplyView::RelayRemoved { ok: *ok },
            CoreReply::ContactAdded { ok } => CoreReplyView::ContactAdded { ok: *ok },
            CoreReply::ContactRemoved { ok } => CoreReplyView::ContactRemoved { ok: *ok },
            CoreReply::Config { relays_url, contacts } => CoreReplyView::Config {
                config: ConfigView {
                    relays_url: url_views(relays_url@),
                    contacts: contact_views(contacts@),
                },
            },
            CoreReply::User { user } => CoreReplyView::User { user: user@ },
            CoreReply::Conversation { conversation } => CoreReplyView::Conversation {
                conversation: match conversation {
                    Some(entity) => Some(entity@),
                    None => None,
                },
            },
        }
    }
}

} // verus!
