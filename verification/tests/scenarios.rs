use broker::{
    relay_step, start_broker, step, AppState, BrokerEvent, Contact, ConversationEntity,
    CoreNotification, CoreReply, CoreRequest, LoopAction, LoopEvent, LoopState, MessageEntity,
    RelayAction, UserEntity, UserState,
};

fn s(text: &str) -> String {
    text.to_string()
}

fn message(sender: &str, content: &str, timestamp: u64) -> MessageEntity {
    MessageEntity { sender: s(sender), content: s(content), timestamp }
}

/// A small core kept in memory: each relay and each contact once.
struct Core {
    relays: Vec<String>,
    contacts: Vec<Contact>,
    user: UserEntity,
    conversations: Vec<(String, ConversationEntity)>,
    generated: u64,
    calls: Vec<CoreRequest>,
}

impl Core {
    fn new() -> Core {
        Core {
            relays: Vec::new(),
            contacts: Vec::new(),
            user: UserEntity { sk: s("sk-0"), pk: s("pk-0") },
            conversations: Vec::new(),
            generated: 0,
            calls: Vec::new(),
        }
    }

    fn perform(&mut self, request: CoreRequest) -> CoreReply {
        self.calls.push(request.clone());
        match request {
            CoreRequest::AddRelay { url } => {
                let ok = !url.is_empty() && !self.relays.contains(&url);
                if ok {
                    self.relays.push(url);
                }
                CoreReply::RelayAdded { ok }
            }
            CoreRequest::RemoveRelay { url } => {
                let ok = self.relays.contains(&url);
                self.relays.retain(|r| *r != url);
                CoreReply::RelayRemoved { ok }
            }
            CoreRequest::AddContact { contact } => {
                let ok = !self.contacts.iter().any(|c| c.pk == contact.pk);
                if ok {
                    self.contacts.push(contact);
                }
                CoreReply::ContactAdded { ok }
            }
            CoreRequest::RemoveContact { contact } => {
                let ok = self.contacts.contains(&contact);
                self.contacts.retain(|c| *c != contact);
                CoreReply::ContactRemoved { ok }
            }
            CoreRequest::ImportUserSk { sk } => {
                self.user = UserEntity { pk: format!("pk-of-{}", sk), sk };
                CoreReply::Done
            }
            CoreRequest::GenNewUserKeypair => {
                self.generated += 1;
                self.user = UserEntity {
                    sk: format!("sk-{}", self.generated),
                    pk: format!("pk-{}", self.generated),
                };
                CoreReply::Done
            }
            CoreRequest::SendMsgToContact { pk, content } => {
                let sent = message(&self.user.pk, &content, 0);
                match self.conversations.iter_mut().find(|(peer, _)| *peer == pk) {
                    Some((_, conversation)) => conversation.messages.push(sent),
                    None => self.conversations.push((pk, ConversationEntity { messages: vec![sent] })),
                }
                CoreReply::Done
            }
            CoreRequest::GetConfig => CoreReply::Config {
                relays_url: self.relays.clone(),
                contacts: self.contacts.clone(),
            },
            CoreRequest::GetUser => CoreReply::User { user: self.user.clone() },
            CoreRequest::GetConv { pk } => CoreReply::Conversation {
                conversation: self
                    .conversations
                    .iter()
                    .find(|(peer, _)| *peer == pk)
                    .map(|(_, conversation)| conversation.clone()),
            },
            CoreRequest::ConnectRelay { .. }
            | CoreRequest::DisconnectRelay { .. }
            | CoreRequest::Subscribe => CoreReply::Done,
        }
    }
}

/// What a run did, in order: the core calls and the deliveries.
#[derive(Debug, PartialEq)]
enum Did {
    Called(CoreRequest),
    Announced,
    Mutated(&'static str),
    SpawnedRelay,
}

struct Broker {
    core: Core,
    shown: AppState,
    state: LoopState,
    pending: Option<LoopAction>,
    did: Vec<Did>,
}

impl Broker {
    /// Starts the broker on a core and runs it until it waits for a command.
    fn start(core: Core) -> Broker {
        let (state, action) = start_broker();
        let mut broker =
            Broker { core, shown: AppState::new(), state, pending: Some(action), did: Vec::new() };
        broker.settle();
        broker
    }

    fn advance(&mut self, event: LoopEvent) {
        let (state, action) = step(self.state, event).expect("the event fits the state");
        self.state = state;
        self.pending = Some(action);
    }

    /// Performs actions until the loop waits for a command or has stopped.
    fn settle(&mut self) {
        loop {
            let event = match self.pending.take().expect("an action is pending") {
                LoopAction::Call(request) => {
                    self.did.push(Did::Called(request.clone()));
                    LoopEvent::Reply(self.core.perform(request))
                }
                LoopAction::Notify(notification) => {
                    self.did.push(Did::Announced);
                    self.shown.notify(notification);
                    LoopEvent::Delivered
                }
                LoopAction::Mutate(mutation) => {
                    self.did.push(Did::Mutated(match mutation {
                        broker::StateMutation::SetConfig { .. } => "config",
                        broker::StateMutation::SetUser { .. } => "user",
                        broker::StateMutation::SetConversation { .. } => "conversation",
                        broker::StateMutation::AppendMessage { .. } => "message",
                    }));
                    self.shown.apply(mutation);
                    LoopEvent::Delivered
                }
                LoopAction::SpawnRelay => {
                    self.did.push(Did::SpawnedRelay);
                    LoopEvent::RelaySpawned
                }
                LoopAction::Receive => {
                    self.pending = Some(LoopAction::Receive);
                    return;
                }
                LoopAction::Stop => {
                    self.pending = Some(LoopAction::Stop);
                    return;
                }
            };
            self.advance(event);
        }
    }

    /// Hands one command to the loop and runs it to its end. Gives what was
    /// done for this command.
    fn command(&mut self, command: BrokerEvent) -> Vec<Did> {
        assert_eq!(self.pending, Some(LoopAction::Receive));
        let before = self.did.len();
        self.advance(LoopEvent::Command(command));
        self.settle();
        self.did.split_off(before)
    }

    /// Lets the relay take one notification of the core.
    fn notification(&mut self, notification: CoreNotification) {
        match relay_step(Some(notification)) {
            RelayAction::Mutate(mutation) => self.shown.apply(mutation),
            RelayAction::Stop => panic!("the relay stopped on a notification"),
        }
    }

    fn shown_relays(&self) -> Vec<String> {
        self.shown.config.relays_url.iter().cloned().collect()
    }

    fn shown_contacts(&self) -> Vec<String> {
        self.shown.config.contacts.iter().map(|c| c.alias.clone()).collect()
    }

    fn shown_messages(&self) -> Option<Vec<String>> {
        self.shown
            .selected_conv
            .as_ref()
            .map(|c| c.messages.iter().map(|m| m.content.clone()).collect())
    }
}

fn count(relays: &[String], url: &str) -> usize {
    relays.iter().filter(|r| r.as_str() == url).count()
}

#[test]
fn startup_loads_and_announces_the_configuration_once() {
    let mut core = Core::new();
    core.relays = vec![s("wss://one"), s("wss://two")];
    core.contacts = vec![Contact { alias: s("alice"), pk: s("pk-a") }];
    let broker = Broker::start(core);
    assert_eq!(
        broker.did,
        vec![Did::Called(CoreRequest::GetConfig), Did::Announced, Did::SpawnedRelay]
    );
    assert_eq!(broker.shown_relays(), vec![s("wss://one"), s("wss://two")]);
    assert_eq!(broker.shown_contacts(), vec![s("alice")]);
    assert_eq!(broker.state, LoopState::Idle);
}

#[test]
fn an_added_relay_is_listed_exactly_once_after_load_configs() {
    let mut broker = Broker::start(Core::new());
    broker.command(BrokerEvent::AddRelay { url: s("wss://new") });
    broker.command(BrokerEvent::LoadConfigs);
    assert_eq!(count(&broker.shown_relays(), "wss://new"), 1);
    assert_eq!(broker.shown_relays(), vec![s("wss://new")]);
}

#[test]
fn a_relay_added_twice_is_still_listed_once() {
    let mut broker = Broker::start(Core::new());
    broker.command(BrokerEvent::AddRelay { url: s("wss://new") });
    let second = broker.command(BrokerEvent::AddRelay { url: s("wss://new") });
    assert_eq!(second, vec![Did::Called(CoreRequest::AddRelay { url: s("wss://new") })]);
    broker.command(BrokerEvent::LoadConfigs);
    assert_eq!(count(&broker.shown_relays(), "wss://new"), 1);
}

#[test]
fn an_added_relay_is_published_at_once() {
    let mut broker = Broker::start(Core::new());
    let did = broker.command(BrokerEvent::AddRelay { url: s("wss://new") });
    assert_eq!(
        did,
        vec![
            Did::Called(CoreRequest::AddRelay { url: s("wss://new") }),
            Did::Called(CoreRequest::GetConfig),
            Did::Mutated("config"),
        ]
    );
    assert_eq!(broker.shown_relays(), vec![s("wss://new")]);
}

#[test]
fn a_relay_added_and_removed_is_not_listed() {
    let mut core = Core::new();
    core.relays = vec![s("wss://kept")];
    let mut broker = Broker::start(core);
    broker.command(BrokerEvent::AddRelay { url: s("wss://new") });
    assert_eq!(broker.shown_relays(), vec![s("wss://kept"), s("wss://new")]);
    broker.command(BrokerEvent::RemoveRelay { url: s("wss://new") });
    assert_eq!(count(&broker.shown_relays(), "wss://new"), 0);
    assert_eq!(broker.shown_relays(), vec![s("wss://kept")]);
}

#[test]
fn a_failing_remove_relay_leaves_the_display_as_it_was() {
    let mut core = Core::new();
    core.relays = vec![s("wss://one")];
    let mut broker = Broker::start(core);
    broker.command(BrokerEvent::AddContact {
        new_contact: Contact { alias: s("alice"), pk: s("pk-a") },
    });
    let before = format!("{:?}", broker.shown);
    let did = broker.command(BrokerEvent::RemoveRelay { url: s("wss://absent") });
    assert_eq!(did, vec![Did::Called(CoreRequest::RemoveRelay { url: s("wss://absent") })]);
    assert_eq!(format!("{:?}", broker.shown), before);
    assert_eq!(broker.shown_relays(), vec![s("wss://one")]);
}

#[test]
fn a_failing_remove_relay_hides_a_change_made_behind_the_broker() {
    let mut broker = Broker::start(Core::new());
    broker.core.relays.push(s("wss://behind"));
    broker.command(BrokerEvent::RemoveRelay { url: s("wss://absent") });
    assert_eq!(broker.shown_relays(), Vec::<String>::new());
    broker.command(BrokerEvent::LoadConfigs);
    assert_eq!(broker.shown_relays(), vec![s("wss://behind")]);
}

#[test]
fn a_rejected_add_relay_publishes_nothing() {
    let mut broker = Broker::start(Core::new());
    let did = broker.command(BrokerEvent::AddRelay { url: s("") });
    assert_eq!(did, vec![Did::Called(CoreRequest::AddRelay { url: s("") })]);
    assert_eq!(broker.shown, AppState::new());
}

#[test]
fn a_contact_change_refreshes_even_when_it_fails() {
    let mut broker = Broker::start(Core::new());
    let alice = Contact { alias: s("alice"), pk: s("pk-a") };
    let first = broker.command(BrokerEvent::AddContact { new_contact: alice.clone() });
    assert_eq!(
        first,
        vec![
            Did::Called(CoreRequest::AddContact { contact: alice.clone() }),
            Did::Called(CoreRequest::GetConfig),
            Did::Mutated("config"),
        ]
    );
    let again = broker.command(BrokerEvent::AddContact { new_contact: alice.clone() });
    assert_eq!(again, first);
    assert_eq!(broker.shown_contacts(), vec![s("alice")]);
    let bob = Contact { alias: s("bob"), pk: s("pk-b") };
    let absent = broker.command(BrokerEvent::RemoveContact { contact: bob.clone() });
    assert_eq!(
        absent,
        vec![
            Did::Called(CoreRequest::RemoveContact { contact: bob }),
            Did::Called(CoreRequest::GetConfig),
            Did::Mutated("config"),
        ]
    );
    broker.command(BrokerEvent::RemoveContact { contact: alice });
    assert_eq!(broker.shown_contacts(), Vec::<String>::new());
}

#[test]
fn connecting_and_disconnecting_publish_nothing() {
    let mut broker = Broker::start(Core::new());
    let connect = broker.command(BrokerEvent::ConnectRelay { url: s("wss://one") });
    assert_eq!(connect, vec![Did::Called(CoreRequest::ConnectRelay { url: s("wss://one") })]);
    let disconnect = broker.command(BrokerEvent::DisconnectRelay { url: s("wss://one") });
    assert_eq!(disconnect, vec![Did::Called(CoreRequest::DisconnectRelay { url: s("wss://one") })]);
    let subscribe = broker.command(BrokerEvent::SubscribeInRelays { pk: s("pk-0") });
    assert_eq!(subscribe, vec![Did::Called(CoreRequest::Subscribe)]);
    assert_eq!(broker.shown, AppState::new());
}

#[test]
fn generating_a_key_pair_resubscribes_once_and_publishes_once() {
    let mut broker = Broker::start(Core::new());
    let did = broker.command(BrokerEvent::GenerateNewKeyPair);
    assert_eq!(
        did,
        vec![
            Did::Called(CoreRequest::GenNewUserKeypair),
            Did::Called(CoreRequest::Subscribe),
            Did::Called(CoreRequest::GetUser),
            Did::Mutated("user"),
        ]
    );
    assert_eq!(did.iter().filter(|d| **d == Did::Mutated("user")).count(), 1);
    assert_eq!(did.iter().filter(|d| **d == Did::Called(CoreRequest::Subscribe)).count(), 1);
    assert_eq!(broker.shown.user, UserState::new("sk-1", "pk-1"));
    broker.command(BrokerEvent::GenerateNewKeyPair);
    assert_eq!(broker.shown.user, UserState::new("sk-2", "pk-2"));
}

#[test]
fn restoring_a_key_pair_imports_resubscribes_and_publishes() {
    let mut broker = Broker::start(Core::new());
    let did = broker.command(BrokerEvent::RestoreKeyPair { sk: s("nsec") });
    assert_eq!(
        did,
        vec![
            Did::Called(CoreRequest::ImportUserSk { sk: s("nsec") }),
            Did::Called(CoreRequest::Subscribe),
            Did::Called(CoreRequest::GetUser),
            Did::Mutated("user"),
        ]
    );
    assert_eq!(broker.shown.user, UserState::new("nsec", "pk-of-nsec"));
}

#[test]
fn an_unknown_peer_leaves_the_selected_conversation_visible() {
    let mut core = Core::new();
    core.conversations.push((
        s("peer-a"),
        ConversationEntity { messages: vec![message("peer-a", "hello", 1)] },
    ));
    let mut broker = Broker::start(core);
    let found = broker.command(BrokerEvent::SetConversation { pk: s("peer-a") });
    assert_eq!(
        found,
        vec![Did::Called(CoreRequest::GetConv { pk: s("peer-a") }), Did::Mutated("conversation")]
    );
    assert_eq!(broker.shown_messages(), Some(vec![s("hello")]));
    let missing = broker.command(BrokerEvent::SetConversation { pk: s("peer-b") });
    assert_eq!(missing, vec![Did::Called(CoreRequest::GetConv { pk: s("peer-b") })]);
    assert_eq!(broker.shown_messages(), Some(vec![s("hello")]));
}

#[test]
fn an_unknown_peer_with_nothing_selected_selects_nothing() {
    let mut broker = Broker::start(Core::new());
    broker.command(BrokerEvent::SetConversation { pk: s("peer-b") });
    assert_eq!(broker.shown.selected_conv, None);
}

#[test]
fn sending_a_message_changes_no_snapshot_by_itself() {
    let mut core = Core::new();
    core.conversations.push((s("peer-a"), ConversationEntity { messages: Vec::new() }));
    let mut broker = Broker::start(core);
    broker.command(BrokerEvent::SetConversation { pk: s("peer-a") });
    let did = broker.command(BrokerEvent::SendMessage { pk: s("peer-a"), content: s("hi") });
    assert_eq!(
        did,
        vec![Did::Called(CoreRequest::SendMsgToContact { pk: s("peer-a"), content: s("hi") })]
    );
    assert_eq!(broker.shown_messages(), Some(Vec::new()));
    broker.notification(CoreNotification::NewMessage(message("pk-0", "hi", 0)));
    assert_eq!(broker.shown_messages(), Some(vec![s("hi")]));
}

#[test]
fn a_message_for_an_unselected_conversation_shows_up_with_the_fetched_history() {
    let mut core = Core::new();
    core.conversations.push((
        s("peer-a"),
        ConversationEntity { messages: vec![message("peer-a", "old", 1)] },
    ));
    let mut broker = Broker::start(core);
    broker.core.conversations[0].1.messages.push(message("peer-a", "new", 2));
    broker.notification(CoreNotification::NewMessage(message("peer-a", "new", 2)));
    assert_eq!(broker.shown.selected_conv, None);
    broker.command(BrokerEvent::SetConversation { pk: s("peer-a") });
    assert_eq!(broker.shown_messages(), Some(vec![s("old"), s("new")]));
}

#[test]
fn notifications_between_commands_append_in_their_order() {
    let mut core = Core::new();
    core.conversations.push((s("peer-a"), ConversationEntity { messages: Vec::new() }));
    let mut broker = Broker::start(core);
    broker.command(BrokerEvent::SetConversation { pk: s("peer-a") });
    broker.notification(CoreNotification::NewMessage(message("peer-a", "one", 1)));
    broker.command(BrokerEvent::LoadConfigs);
    broker.notification(CoreNotification::NewMessage(message("peer-a", "two", 2)));
    broker.notification(CoreNotification::NewMessage(message("peer-a", "three", 3)));
    assert_eq!(broker.shown_messages(), Some(vec![s("one"), s("two"), s("three")]));
}

#[test]
fn commands_are_applied_in_the_order_of_the_queue() {
    let mut broker = Broker::start(Core::new());
    let queue = vec![
        BrokerEvent::AddRelay { url: s("wss://a") },
        BrokerEvent::AddRelay { url: s("wss://b") },
        BrokerEvent::RemoveRelay { url: s("wss://a") },
        BrokerEvent::AddRelay { url: s("wss://c") },
        BrokerEvent::AddRelay { url: s("wss://a") },
    ];
    for command in queue {
        broker.command(command);
    }
    assert_eq!(broker.shown_relays(), vec![s("wss://b"), s("wss://c"), s("wss://a")]);
    let changes: Vec<CoreRequest> = broker
        .core
        .calls
        .iter()
        .filter(|c| matches!(c, CoreRequest::AddRelay { .. } | CoreRequest::RemoveRelay { .. }))
        .cloned()
        .collect();
    assert_eq!(
        changes,
        vec![
            CoreRequest::AddRelay { url: s("wss://a") },
            CoreRequest::AddRelay { url: s("wss://b") },
            CoreRequest::RemoveRelay { url: s("wss://a") },
            CoreRequest::AddRelay { url: s("wss://c") },
            CoreRequest::AddRelay { url: s("wss://a") },
        ]
    );
}

#[test]
fn two_producers_on_one_queue_keep_each_their_own_order() {
    let runtime = tokio::runtime::Builder::new_current_thread().build().expect("a runtime");
    let calls = runtime.block_on(async {
        let (first, mut receiver) = tokio::sync::mpsc::channel::<BrokerEvent>(2);
        let second = first.clone();
        tokio::spawn(async move {
            let mut i: u32 = 0;
            while i < 25 {
                let url = format!("a-{:02}", i);
                first.send(BrokerEvent::ConnectRelay { url }).await.expect("the queue is open");
                i += 1;
            }
        });
        tokio::spawn(async move {
            let mut i: u32 = 0;
            while i < 25 {
                let url = format!("b-{:02}", i);
                second.send(BrokerEvent::DisconnectRelay { url }).await.expect("the queue is open");
                i += 1;
            }
        });
        let mut broker = Broker::start(Core::new());
        while broker.pending == Some(LoopAction::Receive) {
            match receiver.recv().await {
                Some(command) => {
                    broker.advance(LoopEvent::Command(command));
                }
                None => {
                    broker.advance(LoopEvent::Closed);
                }
            }
            broker.settle();
        }
        assert_eq!(broker.state, LoopState::Stopped);
        broker.core.calls
    });
    let of_first: Vec<String> = calls
        .iter()
        .filter_map(|c| match c {
            CoreRequest::ConnectRelay { url } => Some(url.clone()),
            _ => None,
        })
        .collect();
    let of_second: Vec<String> = calls
        .iter()
        .filter_map(|c| match c {
            CoreRequest::DisconnectRelay { url } => Some(url.clone()),
            _ => None,
        })
        .collect();
    let mut sorted_first = of_first.clone();
    sorted_first.sort();
    let mut sorted_second = of_second.clone();
    sorted_second.sort();
    assert_eq!(of_first.len(), 25);
    assert_eq!(of_second.len(), 25);
    assert_eq!(of_first, sorted_first);
    assert_eq!(of_second, sorted_second);
    assert_eq!(calls.len(), 51);
}

#[test]
fn the_loop_ends_when_the_queue_is_closed() {
    let mut broker = Broker::start(Core::new());
    broker.command(BrokerEvent::LoadConfigs);
    broker.advance(LoopEvent::Closed);
    assert_eq!(broker.state, LoopState::Stopped);
    assert_eq!(broker.pending, Some(LoopAction::Stop));
    assert_eq!(step(broker.state, LoopEvent::Command(BrokerEvent::LoadConfigs)), None);
}
