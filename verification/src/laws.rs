//! What holds of the broker as a whole, proved from the transition table of
//! the command loop and from the meaning of the mutations.

use vstd::prelude::*;

use crate::command::{BrokerEventView, CoreReplyView, CoreRequestView};
use crate::command_loop::{
    opening_call, run, transition, LoopActionView, LoopEventView, LoopState,
};
use crate::entities::{ConfigView, ConversationView, CoreNotificationView, MessageView, UserView};
use crate::presentation::{AppView, BrokerNotificationView, StateMutationView};
use crate::relay::{relayed, relayed_all};

verus! {

/// The mutations among the actions of a run, in the order in which they were
/// handed to the sink.
pub open spec fn mutations_of(actions: Seq<LoopActionView>) -> Seq<StateMutationView>
    decreases actions.len(),
{
    if actions.len() == 0 {
        Seq::empty()
    } else {
        match actions.last() {
            LoopActionView::Mutate(mutation) => mutations_of(actions.drop_last()).push(mutation),
            _ => mutations_of(actions.drop_last()),
        }
    }
}

/// The core operations among the actions of a run, in the order in which
/// they were asked of the core.
pub open spec fn calls_of(actions: Seq<LoopActionView>) -> Seq<CoreRequestView>
    decreases actions.len(),
{
    if actions.len() == 0 {
        Seq::empty()
    } else {
        match actions.last() {
            LoopActionView::Call(request) => calls_of(actions.drop_last()).push(request),
            _ => calls_of(actions.drop_last()),
        }
    }
}

/// How often a URL stands in a list of relay URLs.
pub open spec fn occurrences(urls: Seq<Seq<char>>, url: Seq<char>) -> nat {
    urls.filter(|u: Seq<char>| u == url).len()
}

/// The message that a notification carries.
pub open spec fn message_of(notification: CoreNotificationView) -> MessageView {
    match notification {
        CoreNotificationView::NewMessage(message) => message,
    }
}

/// The messages that a run of notifications carries, in the same order.
pub open spec fn messages_of(notifications: Seq<CoreNotificationView>) -> Seq<MessageView> {
    Seq::new(notifications.len(), |i: int| message_of(notifications[i]))
}

/// The state that a run has reached after its first `n` events.
pub open spec fn state_after(start: LoopState, events: Seq<LoopEventView>, n: int) -> LoopState {
    run(start, events.take(n)).unwrap().0
}

/// A command on its way through the queue: which producer submitted it, and
/// as which of that producer's commands, counted in the order in which the
/// producer submitted them.
pub struct Submission {
    pub producer: nat,
    pub number: nat,
    pub command: BrokerEventView,
}

/// What is asked of the queue: the commands of one producer leave it in the
/// order in which that producer submitted them.
pub open spec fn keeps_producer_order(arrivals: Seq<Submission>) -> bool {
    forall|a: int, b: int|
        0 <= a < b < arrivals.len() && arrivals[a].producer == arrivals[b].producer
            ==> arrivals[a].number < arrivals[b].number
}

/// The commands of a run of submissions, in the same order.
pub open spec fn commands_of(arrivals: Seq<Submission>) -> Seq<BrokerEventView> {
    Seq::new(arrivals.len(), |k: int| arrivals[k].command)
}

/// The commands that a run of events hands to the loop, in order.
pub open spec fn received(events: Seq<LoopEventView>) -> Seq<BrokerEventView>
    decreases events.len(),
{
    if events.len() == 0 {
        Seq::empty()
    } else {
        match events.last() {
            LoopEventView::Command(command) => received(events.drop_last()).push(command),
            _ => received(events.drop_last()),
        }
    }
}

/// Where among the events the `n`-th received command stands, counted from
/// zero.
pub open spec fn arrival_index(events: Seq<LoopEventView>, n: int) -> int
    decreases events.len(),
{
    if events.len() == 0 {
        0
    } else if n < received(events.drop_last()).len() {
        arrival_index(events.drop_last(), n)
    } else {
        events.len() - 1
    }
}

/// How often the actions of a run announce the configuration.
pub open spec fn announcements(actions: Seq<LoopActionView>) -> nat
    decreases actions.len(),
{
    if actions.len() == 0 {
        0
    } else if actions.last() is Notify {
        announcements(actions.drop_last()) + 1
    } else {
        announcements(actions.drop_last())
    }
}

/// How often the actions of a run start the notification relay.
pub open spec fn relay_starts(actions: Seq<LoopActionView>) -> nat
    decreases actions.len(),
{
    if actions.len() == 0 {
        0
    } else if actions.last() is SpawnRelay {
        relay_starts(actions.drop_last()) + 1
    } else {
        relay_starts(actions.drop_last())
    }
}

/// Whether the first configuration has been announced when the loop is in
/// this state.
pub open spec fn has_announced(state: LoopState) -> bool {
    state != LoopState::Loading
}

/// Whether the notification relay has been started when the loop is in this
/// state.
pub open spec fn has_started_relay(state: LoopState) -> bool {
    state != LoopState::Loading && state != LoopState::Announcing
}

/// A run that is extended by one event goes on from where the shorter run
/// ended.
pub proof fn lemma_run_push(start: LoopState, events: Seq<LoopEventView>, event: LoopEventView)
    ensures
        run(start, events.push(event)) == match run(start, events) {
            Some((reached, actions)) => match transition(reached, event) {
                Some((next, action)) => Some((next, actions.push(action))),
                None => None,
            },
            None => None,
        },
{
    assert(events.push(event).drop_last() =~= events);
}

/// Extends a run whose outcome is known by one event whose transition is
/// known.
pub proof fn lemma_run_next(
    start: LoopState,
    events: Seq<LoopEventView>,
    reached: LoopState,
    actions: Seq<LoopActionView>,
    event: LoopEventView,
    next: LoopState,
    action: LoopActionView,
)
    requires
        run(start, events) == Some((reached, actions)),
        transition(reached, event) == Some((next, action)),
    ensures
        run(start, events.push(event)) == Some((next, actions.push(action))),
{
    lemma_run_push(start, events, event);
}

/// One more action extends the mutations of a run by at most itself.
pub proof fn lemma_mutations_push(actions: Seq<LoopActionView>, action: LoopActionView)
    ensures
        mutations_of(actions.push(action)) == match action {
            LoopActionView::Mutate(mutation) => mutations_of(actions).push(mutation),
            _ => mutations_of(actions),
        },
{
    assert(actions.push(action).drop_last() =~= actions);
}

/// One more action extends the core operations of a run by at most itself.
pub proof fn lemma_calls_push(actions: Seq<LoopActionView>, action: LoopActionView)
    ensures
        calls_of(actions.push(action)) == match action {
            LoopActionView::Call(request) => calls_of(actions).push(request),
            _ => calls_of(actions),
        },
{
    assert(actions.push(action).drop_last() =~= actions);
}

/// A run of mutations that is extended by one applies the last one to what
/// the shorter run gave.
pub proof fn lemma_apply_all_push(
    state: AppView,
    mutations: Seq<StateMutationView>,
    mutation: StateMutationView,
)
    ensures
        state.apply_all(mutations.push(mutation)) == state.apply_all(mutations).apply(mutation),
{
    assert(mutations.push(mutation).drop_last() =~= mutations);
}

/// Every prefix of an accepted run is an accepted run, and its actions are
/// the first of the whole run's actions, one for each event.
pub proof fn lemma_run_prefix(start: LoopState, events: Seq<LoopEventView>, n: int)
    requires
        run(start, events) is Some,
        0 <= n <= events.len(),
    ensures
        run(start, events.take(n)) is Some,
        run(start, events).unwrap().1.len() == events.len(),
        run(start, events.take(n)).unwrap().1 == run(start, events).unwrap().1.take(n),
    decreases events.len(),
{
    if events.len() == 0 {
        assert(events.take(n) =~= events);
        assert(run(start, events).unwrap().1.take(n) =~= run(start, events).unwrap().1);
    } else {
        let shorter = events.drop_last();
        lemma_run_prefix(start, shorter, shorter.len() as int);
        if n == events.len() {
            assert(events.take(n) =~= events);
            assert(run(start, events).unwrap().1.take(n) =~= run(start, events).unwrap().1);
        } else {
            lemma_run_prefix(start, shorter, n);
            assert(shorter.take(n) =~= events.take(n));
            assert(run(start, shorter).unwrap().1.take(n) =~= run(start, events).unwrap().1.take(
                n,
            ));
        }
    }
}

/// In an accepted run, each event is answered by the transition from the
/// state that the events before it have led to.
pub proof fn lemma_run_at(start: LoopState, events: Seq<LoopEventView>, n: int)
    requires
        run(start, events) is Some,
        0 <= n < events.len(),
    ensures
        transition(state_after(start, events, n), events[n]) == Some(
            (state_after(start, events, n + 1), run(start, events).unwrap().1[n]),
        ),
{
    let actions = run(start, events).unwrap().1;
    lemma_run_prefix(start, events, n);
    lemma_run_prefix(start, events, n + 1);
    lemma_run_push(start, events.take(n), events[n]);
    assert(events.take(n).push(events[n]) =~= events.take(n + 1));
    assert(actions.take(n).len() == n);
    assert(actions.take(n + 1)[n] == actions[n]);
}

/// While no action of a run has been to wait for the next command, the
/// command taken at `i` is still being worked on.
proof fn lemma_busy_until_receive(start: LoopState, events: Seq<LoopEventView>, i: int, n: int)
    requires
        run(start, events) is Some,
        0 <= i < n <= events.len(),
        events[i] is Command,
        forall|k: int| i < k < n ==> run(start, events).unwrap().1[k] != LoopActionView::Receive,
    ensures
        state_after(start, events, n) != LoopState::Idle,
    decreases n - i,
{
    if n == i + 1 {
        lemma_run_at(start, events, i);
    } else {
        lemma_busy_until_receive(start, events, i, n - 1);
        lemma_run_at(start, events, n - 1);
    }
}

/// The counts of announcements and of relay starts of a run from the start
/// follow from the state that the run has reached.
proof fn lemma_startup_counts(events: Seq<LoopEventView>)
    requires
        run(LoopState::Loading, events) is Some,
    ensures
        ({
            let (reached, actions) = run(LoopState::Loading, events).unwrap();
            &&& announcements(actions) == if has_announced(reached) { 1nat } else { 0nat }
            &&& relay_starts(actions) == if has_started_relay(reached) { 1nat } else { 0nat }
        }),
    decreases events.len(),
{
    if events.len() > 0 {
        let (before, shorter) = run(LoopState::Loading, events.drop_last()).unwrap();
        let (reached, action) = transition(before, events.last()).unwrap();
        lemma_startup_counts(events.drop_last());
        assert(shorter.push(action).drop_last() =~= shorter);
    }
}

/// The `n`-th received command stands among the events at its arrival index,
/// and a later command stands behind an earlier one.
proof fn lemma_arrival_index(events: Seq<LoopEventView>, n: int, m: int)
    requires
        0 <= n <= m < received(events).len(),
    ensures
        0 <= arrival_index(events, n) <= arrival_index(events, m) < events.len(),
        n < m ==> arrival_index(events, n) < arrival_index(events, m),
        events[arrival_index(events, n)] == LoopEventView::Command(received(events)[n]),
        events[arrival_index(events, m)] == LoopEventView::Command(received(events)[m]),
    decreases events.len(),
{
    let shorter = events.drop_last();
    if m < received(shorter).len() {
        lemma_arrival_index(shorter, n, m);
    } else if n < received(shorter).len() {
        lemma_arrival_index(shorter, n, n);
    }
}

/// Commands are worked on one at a time and in the order in which the queue
/// yields them. In every run that the loop accepts, each command is begun
/// with its opening call at the moment it arrives, and between any two
/// commands the loop has finished the earlier one and has gone back to wait
/// for the next.
pub proof fn law_commands_one_at_a_time(
    start: LoopState,
    events: Seq<LoopEventView>,
    i: int,
    j: int,
)
    requires
        run(start, events) is Some,
        0 <= i < j < events.len(),
        events[i] is Command,
        events[j] is Command,
    ensures
        ({
            let actions = run(start, events).unwrap().1;
            &&& actions.len() == events.len()
            &&& state_after(start, events, i) == LoopState::Idle
            &&& state_after(start, events, j) == LoopState::Idle
            &&& actions[i] == LoopActionView::Call(opening_call(events[i]->Command_0))
            &&& actions[j] == LoopActionView::Call(opening_call(events[j]->Command_0))
            &&& exists|k: int| i < k < j && actions[k] == LoopActionView::Receive
        }),
{
    let actions = run(start, events).unwrap().1;
    lemma_run_prefix(start, events, 0);
    lemma_run_at(start, events, i);
    lemma_run_at(start, events, j);
    if forall|k: int| i < k < j ==> actions[k] != LoopActionView::Receive {
        // Then the earlier command would still be under way when the later
        // one is taken, which the loop does not accept.
        lemma_busy_until_receive(start, events, i, j);
    }
}

/// Commands reach the loop through one queue that many producers fill.
/// Where the queue keeps the commands of each producer in the order of their
/// submission, the loop works on them in that order: of two commands of one
/// producer, the one submitted first is begun first and is finished before
/// the other is begun.
pub proof fn law_producers_keep_their_order(
    start: LoopState,
    events: Seq<LoopEventView>,
    arrivals: Seq<Submission>,
    a: int,
    b: int,
)
    requires
        run(start, events) is Some,
        received(events) == commands_of(arrivals),
        keeps_producer_order(arrivals),
        0 <= a < arrivals.len(),
        0 <= b < arrivals.len(),
        arrivals[a].producer == arrivals[b].producer,
        arrivals[a].number < arrivals[b].number,
    ensures
        ({
            let actions = run(start, events).unwrap().1;
            let i = arrival_index(events, a);
            let j = arrival_index(events, b);
            &&& 0 <= i < j < events.len()
            &&& events[i] == LoopEventView::Command(arrivals[a].command)
            &&& events[j] == LoopEventView::Command(arrivals[b].command)
            &&& actions[i] == LoopActionView::Call(opening_call(arrivals[a].command))
            &&& actions[j] == LoopActionView::Call(opening_call(arrivals[b].command))
            &&& exists|k: int| i < k < j && actions[k] == LoopActionView::Receive
        }),
{
    assert(a < b);
    lemma_arrival_index(events, a, b);
    law_commands_one_at_a_time(start, events, arrival_index(events, a), arrival_index(events, b));
}

/// The loop ends on one event only: the queue of commands is closed for
/// good while the loop waits for the next command. Once it has ended it
/// takes no event.
pub proof fn law_loop_ends_only_on_closed_queue(state: LoopState, event: LoopEventView)
    ensures
        transition(LoopState::Idle, LoopEventView::Closed) == Some(
            (LoopState::Stopped, LoopActionView::Stop),
        ),
        transition(state, event) matches Some((next, action)) ==> ((next == LoopState::Stopped
            || action == LoopActionView::Stop) ==> state == LoopState::Idle && event
            == LoopEventView::Closed),
        transition(LoopState::Stopped, event) is None,
{
}

/// The broker begins by loading the configuration, announcing it and
/// starting the relay, in this order, and then waits for the first command.
/// In every run from the start, however long, the configuration is announced
/// once and the relay is started once, and no command is taken before both
/// are done.
pub proof fn law_startup_happens_once(config: ConfigView, events: Seq<LoopEventView>)
    ensures
        run(
            LoopState::Loading,
            seq![
                LoopEventView::Reply(CoreReplyView::Config { config }),
                LoopEventView::Delivered,
                LoopEventView::RelaySpawned,
            ],
        ) == Some(
            (
                LoopState::Idle,
                seq![
                    LoopActionView::Notify(BrokerNotificationView::ConfigUpdated { config }),
                    LoopActionView::SpawnRelay,
                    LoopActionView::Receive,
                ],
            ),
        ),
        run(LoopState::Loading, events) matches Some((reached, actions)) ==> {
            &&& announcements(actions) == if has_announced(reached) { 1nat } else { 0nat }
            &&& relay_starts(actions) == if has_started_relay(reached) { 1nat } else { 0nat }
            &&& forall|i: int|
                0 <= i < events.len() && events[i] is Command ==> has_started_relay(
                    state_after(LoopState::Loading, events, i),
                )
        },
{
    let start = LoopState::Loading;
    let ev0 = LoopEventView::Reply(CoreReplyView::Config { config });
    let ev1 = LoopEventView::Delivered;
    let ev2 = LoopEventView::RelaySpawned;
    let ac0 = LoopActionView::Notify(BrokerNotificationView::ConfigUpdated { config });
    let ac1 = LoopActionView::SpawnRelay;
    let ac2 = LoopActionView::Receive;
    let e0 = Seq::<LoopEventView>::empty();
    let a0 = Seq::<LoopActionView>::empty();
    lemma_run_next(start, e0, start, a0, ev0, LoopState::Announcing, ac0);
    let (e1, a1) = (e0.push(ev0), a0.push(ac0));
    lemma_run_next(start, e1, LoopState::Announcing, a1, ev1, LoopState::Spawning, ac1);
    let (e2, a2) = (e1.push(ev1), a1.push(ac1));
    lemma_run_next(start, e2, LoopState::Spawning, a2, ev2, LoopState::Idle, ac2);
    assert(seq![ev0, ev1, ev2] =~= e2.push(ev2));
    assert(seq![ac0, ac1, ac2] =~= a2.push(ac2));
    if run(start, events) is Some {
        lemma_startup_counts(events);
        assert forall|i: int| 0 <= i < events.len() && events[i] is Command implies has_started_relay(
            state_after(start, events, i),
        ) by {
            lemma_run_at(start, events, i);
        }
    }
}

/// Whatever the loop publishes is what the core reported in the event that
/// the publication answers: a configuration, announced or set, is the
/// configuration just fetched, a key pair the key pair just fetched, a
/// conversation the conversation just fetched. The loop never appends a
/// message: that is the relay's part.
pub proof fn law_publications_mirror_the_core(state: LoopState, event: LoopEventView)
    ensures
        match transition(state, event) {
            Some((next, LoopActionView::Notify(notification))) => state == LoopState::Loading
                && event == LoopEventView::Reply(
                CoreReplyView::Config { config: notification->config },
            ),
            Some((next, LoopActionView::Mutate(mutation))) => match mutation {
                StateMutationView::SetConfig { config } => event == LoopEventView::Reply(
                    CoreReplyView::Config { config },
                ),
                StateMutationView::SetUser { user } => event == LoopEventView::Reply(
                    CoreReplyView::User { user },
                ),
                StateMutationView::SetConversation { conversation } => event
                    == LoopEventView::Reply(
                    CoreReplyView::Conversation { conversation: Some(conversation) },
                ),
                StateMutationView::AppendMessage { .. } => false,
            },
            _ => true,
        },
{
}

/// After a relay was added with success and the configuration was loaded
/// again, the relay list on display is the list that the core reported last:
/// the URL stands in it as often as the core lists it, which is once in a
/// core that keeps each relay once.
pub proof fn law_added_relay_is_shown_as_listed(
    shown: AppView,
    url: Seq<char>,
    after_add: ConfigView,
    latest: ConfigView,
)
    ensures
        ({
            let outcome = run(
                LoopState::Idle,
                seq![
                    LoopEventView::Command(BrokerEventView::AddRelay { url }),
                    LoopEventView::Reply(CoreReplyView::RelayAdded { ok: true }),
                    LoopEventView::Reply(CoreReplyView::Config { config: after_add }),
                    LoopEventView::Delivered,
                    LoopEventView::Command(BrokerEventView::LoadConfigs),
                    LoopEventView::Reply(CoreReplyView::Config { config: latest }),
                    LoopEventView::Delivered,
                ],
            );
            &&& outcome == Some(
                (
                    LoopState::Idle,
                    seq![
                        LoopActionView::Call(CoreRequestView::AddRelay { url }),
                        LoopActionView::Call(CoreRequestView::GetConfig),
                        LoopActionView::Mutate(StateMutationView::SetConfig { config: after_add }),
                        LoopActionView::Receive,
                        LoopActionView::Call(CoreRequestView::GetConfig),
                        LoopActionView::Mutate(StateMutationView::SetConfig { config: latest }),
                        LoopActionView::Receive,
                    ],
                ),
            )
            &&& shown.apply_all(mutations_of(outcome.unwrap().1)) == (AppView {
                config: latest,
                ..shown
            })
            &&& occurrences(
                shown.apply_all(mutations_of(outcome.unwrap().1)).config.relays_url,
                url,
            ) == occurrences(latest.relays_url, url)
        }),
{
    let idle = LoopState::Idle;
    let ev0 = LoopEventView::Command(BrokerEventView::AddRelay { url });
    let ev1 = LoopEventView::Reply(CoreReplyView::RelayAdded { ok: true });
    let ev2 = LoopEventView::Reply(CoreReplyView::Config { config: after_add });
    let ev3 = LoopEventView::Delivered;
    let ev4 = LoopEventView::Command(BrokerEventView::LoadConfigs);
    let ev5 = LoopEventView::Reply(CoreReplyView::Config { config: latest });
    let ac0 = LoopActionView::Call(CoreRequestView::AddRelay { url });
    let ac1 = LoopActionView::Call(CoreRequestView::GetConfig);
    let ac2 = LoopActionView::Mutate(StateMutationView::SetConfig { config: after_add });
    let ac3 = LoopActionView::Receive;
    let ac5 = LoopActionView::Mutate(StateMutationView::SetConfig { config: latest });
    let e0 = Seq::<LoopEventView>::empty();
    let a0 = Seq::<LoopActionView>::empty();
    lemma_run_next(idle, e0, idle, a0, ev0, LoopState::AddingRelay, ac0);
    let (e1, a1) = (e0.push(ev0), a0.push(ac0));
    lemma_run_next(idle, e1, LoopState::AddingRelay, a1, ev1, LoopState::FetchingConfig, ac1);
    let (e2, a2) = (e1.push(ev1), a1.push(ac1));
    lemma_run_next(idle, e2, LoopState::FetchingConfig, a2, ev2, LoopState::Publishing, ac2);
    let (e3, a3) = (e2.push(ev2), a2.push(ac2));
    lemma_run_next(idle, e3, LoopState::Publishing, a3, ev3, idle, ac3);
    let (e4, a4) = (e3.push(ev3), a3.push(ac3));
    lemma_run_next(idle, e4, idle, a4, ev4, LoopState::FetchingConfig, ac1);
    let (e5, a5) = (e4.push(ev4), a4.push(ac1));
    lemma_run_next(idle, e5, LoopState::FetchingConfig, a5, ev5, LoopState::Publishing, ac5);
    let (e6, a6) = (e5.push(ev5), a5.push(ac5));
    lemma_run_next(idle, e6, LoopState::Publishing, a6, ev3, idle, ac3);
    let a7 = a6.push(ac3);
    assert(seq![ev0, ev1, ev2, ev3, ev4, ev5, ev3] =~= e6.push(ev3));
    assert(seq![ac0, ac1, ac2, ac3, ac1, ac5, ac3] =~= a7);
    lemma_mutations_push(a0, ac0);
    lemma_mutations_push(a1, ac1);
    lemma_mutations_push(a2, ac2);
    lemma_mutations_push(a3, ac3);
    lemma_mutations_push(a4, ac1);
    lemma_mutations_push(a5, ac5);
    lemma_mutations_push(a6, ac3);
    let m0 = Seq::<StateMutationView>::empty();
    let m1 = m0.push(StateMutationView::SetConfig { config: after_add });
    assert(mutations_of(a7) == m1.push(StateMutationView::SetConfig { config: latest }));
    lemma_apply_all_push(shown, m0, StateMutationView::SetConfig { config: after_add });
    lemma_apply_all_push(shown, m1, StateMutationView::SetConfig { config: latest });
}

/// After a relay was added and then removed, both with success, the relay
/// list on display is the list that the core reported after the removal: a
/// URL that the core no longer lists is not on display.
pub proof fn law_removed_relay_is_shown_as_listed(
    shown: AppView,
    url: Seq<char>,
    after_add: ConfigView,
    after_remove: ConfigView,
)
    ensures
        ({
            let outcome = run(
                LoopState::Idle,
                seq![
                    LoopEventView::Command(BrokerEventView::AddRelay { url }),
                    LoopEventView::Reply(CoreReplyView::RelayAdded { ok: true }),
                    LoopEventView::Reply(CoreReplyView::Config { config: after_add }),
                    LoopEventView::Delivered,
                    LoopEventView::Command(BrokerEventView::RemoveRelay { url }),
                    LoopEventView::Reply(CoreReplyView::RelayRemoved { ok: true }),
                    LoopEventView::Reply(CoreReplyView::Config { config: after_remove }),
                    LoopEventView::Delivered,
                ],
            );
            &&& outcome == Some(
                (
                    LoopState::Idle,
                    seq![
                        LoopActionView::Call(CoreRequestView::AddRelay { url }),
                        LoopActionView::Call(CoreRequestView::GetConfig),
                        LoopActionView::Mutate(StateMutationView::SetConfig { config: after_add }),
                        LoopActionView::Receive,
                        LoopActionView::Call(CoreRequestView::RemoveRelay { url }),
                        LoopActionView::Call(CoreRequestView::GetConfig),
                        LoopActionView::Mutate(
                            StateMutationView::SetConfig { config: after_remove },
                        ),
                        LoopActionView::Receive,
                    ],
                ),
            )
            &&& shown.apply_all(mutations_of(outcome.unwrap().1)) == (AppView {
                config: after_remove,
                ..shown
            })
            &&& !after_remove.relays_url.contains(url) ==> !shown.apply_all(
                mutations_of(outcome.unwrap().1),
            ).config.relays_url.contains(url)
        }),
{
    let idle = LoopState::Idle;
    let ev0 = LoopEventView::Command(BrokerEventView::AddRelay { url });
    let ev1 = LoopEventView::Reply(CoreReplyView::RelayAdded { ok: true });
    let ev2 = LoopEventView::Reply(CoreReplyView::Config { config: after_add });
    let ev3 = LoopEventView::Delivered;
    let ev4 = LoopEventView::Command(BrokerEventView::RemoveRelay { url });
    let ev5 = LoopEventView::Reply(CoreReplyView::RelayRemoved { ok: true });
    let ev6 = LoopEventView::Reply(CoreReplyView::Config { config: after_remove });
    let ac0 = LoopActionView::Call(CoreRequestView::AddRelay { url });
    let ac1 = LoopActionView::Call(CoreRequestView::GetConfig);
    let ac2 = LoopActionView::Mutate(StateMutationView::SetConfig { config: after_add });
    let ac3 = LoopActionView::Receive;
    let ac4 = LoopActionView::Call(CoreRequestView::RemoveRelay { url });
    let ac6 = LoopActionView::Mutate(StateMutationView::SetConfig { config: after_remove });
    let e0 = Seq::<LoopEventView>::empty();
    let a0 = Seq::<LoopActionView>::empty();
    lemma_run_next(idle, e0, idle, a0, ev0, LoopState::AddingRelay, ac0);
    let (e1, a1) = (e0.push(ev0), a0.push(ac0));
    lemma_run_next(idle, e1, LoopState::AddingRelay, a1, ev1, LoopState::FetchingConfig, ac1);
    let (e2, a2) = (e1.push(ev1), a1.push(ac1));
    lemma_run_next(idle, e2, LoopState::FetchingConfig, a2, ev2, LoopState::Publishing, ac2);
    let (e3, a3) = (e2.push(ev2), a2.push(ac2));
    lemma_run_next(idle, e3, LoopState::Publishing, a3, ev3, idle, ac3);
    let (e4, a4) = (e3.push(ev3), a3.push(ac3));
    lemma_run_next(idle, e4, idle, a4, ev4, LoopState::RemovingRelay, ac4);
    let (e5, a5) = (e4.push(ev4), a4.push(ac4));
    lemma_run_next(idle, e5, LoopState::RemovingRelay, a5, ev5, LoopState::FetchingConfig, ac1);
    let (e6, a6) = (e5.push(ev5), a5.push(ac1));
    lemma_run_next(idle, e6, LoopState::FetchingConfig, a6, ev6, LoopState::Publishing, ac6);
    let (e7, a7) = (e6.push(ev6), a6.push(ac6));
    lemma_run_next(idle, e7, LoopState::Publishing, a7, ev3, idle, ac3);
    let a8 = a7.push(ac3);
    assert(seq![ev0, ev1, ev2, ev3, ev4, ev5, ev6, ev3] =~= e7.push(ev3));
    assert(seq![ac0, ac1, ac2, ac3, ac4, ac1, ac6, ac3] =~= a8);
    lemma_mutations_push(a0, ac0);
    lemma_mutations_push(a1, ac1);
    lemma_mutations_push(a2, ac2);
    lemma_mutations_push(a3, ac3);
    lemma_mutations_push(a4, ac4);
    lemma_mutations_push(a5, ac1);
    lemma_mutations_push(a6, ac6);
    lemma_mutations_push(a7, ac3);
    let m0 = Seq::<StateMutationView>::empty();
    let m1 = m0.push(StateMutationView::SetConfig { config: after_add });
    assert(mutations_of(a8) == m1.push(StateMutationView::SetConfig { config: after_remove }));
    lemma_apply_all_push(shown, m0, StateMutationView::SetConfig { config: after_add });
    lemma_apply_all_push(shown, m1, StateMutationView::SetConfig { config: after_remove });
}

/// A message that arrives while no conversation is selected changes nothing
/// on display and leaves nothing behind: whatever is delivered later has the
/// effect that it would have had without that message.
pub proof fn law_unselected_message_is_dropped(
    shown: AppView,
    notification: CoreNotificationView,
    later: Seq<StateMutationView>,
)
    requires
        shown.selected_conv is None,
    ensures
        shown.apply(relayed(notification)) == shown,
        shown.apply_all(seq![relayed(notification)] + later) == shown.apply_all(later),
    decreases later.len(),
{
    let first = seq![relayed(notification)];
    if later.len() == 0 {
        assert(first + later =~= first);
        assert(first.drop_last() =~= Seq::<StateMutationView>::empty());
        assert(shown.apply_all(first.drop_last()) == shown);
    } else {
        law_unselected_message_is_dropped(shown, notification, later.drop_last());
        assert((first + later).drop_last() =~= first + later.drop_last());
    }
}

/// A message that arrives while a conversation is selected is appended to
/// it, once, behind the messages already there, and nothing else on display
/// changes.
pub proof fn law_selected_conversation_grows_by_one(
    shown: AppView,
    notification: CoreNotificationView,
)
    requires
        shown.selected_conv is Some,
    ensures
        ({
            let before = shown.selected_conv.unwrap().messages;
            let after = shown.apply(relayed(notification));
            &&& after.selected_conv is Some
            &&& after.selected_conv.unwrap().messages == before.push(message_of(notification))
            &&& after.selected_conv.unwrap().messages.len() == before.len() + 1
            &&& after.selected_conv.unwrap().messages.take(before.len() as int) == before
            &&& after.config == shown.config
            &&& after.user == shown.user
        }),
{
    let before = shown.selected_conv.unwrap().messages;
    assert(before.push(message_of(notification)).take(before.len() as int) =~= before);
}

/// Messages that arrive while a conversation is selected are appended in the
/// order in which the core emitted them.
pub proof fn law_relayed_messages_keep_their_order(
    shown: AppView,
    notifications: Seq<CoreNotificationView>,
)
    requires
        shown.selected_conv is Some,
    ensures
        shown.apply_all(relayed_all(notifications)) == (AppView {
            selected_conv: Some(
                ConversationView {
                    messages: shown.selected_conv.unwrap().messages + messages_of(notifications),
                },
            ),
            ..shown
        }),
    decreases notifications.len(),
{
    let before = shown.selected_conv.unwrap().messages;
    if notifications.len() == 0 {
        assert(before + messages_of(notifications) =~= before);
    } else {
        let shorter = notifications.drop_last();
        law_relayed_messages_keep_their_order(shown, shorter);
        assert(relayed_all(notifications).drop_last() =~= relayed_all(shorter));
        assert((before + messages_of(shorter)).push(message_of(notifications.last())) =~= before
            + messages_of(notifications));
    }
}

/// The loop and the relay hand their mutations to the sink independently, so
/// a refresh of the configuration or of the key pair may be applied before
/// or after a message that arrives at the same time. Either way the display
/// ends up the same.
pub proof fn law_refresh_and_relay_commute(
    shown: AppView,
    refresh: StateMutationView,
    notification: CoreNotificationView,
)
    requires
        refresh is SetConfig || refresh is SetUser,
    ensures
        shown.apply(refresh).apply(relayed(notification)) == shown.apply(
            relayed(notification),
        ).apply(refresh),
{
}

/// Selecting a conversation that the core does not have publishes nothing:
/// the loop asks the core once and goes back to wait, and what is on display,
/// the conversation selected before included, stays as it is.
pub proof fn law_unknown_conversation_keeps_selection(shown: AppView, pk: Seq<char>)
    ensures
        ({
            let outcome = run(
                LoopState::Idle,
                seq![
                    LoopEventView::Command(BrokerEventView::SetConversation { pk }),
                    LoopEventView::Reply(CoreReplyView::Conversation { conversation: None }),
                ],
            );
            &&& outcome == Some(
                (
                    LoopState::Idle,
                    seq![
                        LoopActionView::Call(CoreRequestView::GetConv { pk }),
                        LoopActionView::Receive,
                    ],
                ),
            )
            &&& shown.apply_all(mutations_of(outcome.unwrap().1)) == shown
        }),
{
    let idle = LoopState::Idle;
    let ev0 = LoopEventView::Command(BrokerEventView::SetConversation { pk });
    let ev1 = LoopEventView::Reply(CoreReplyView::Conversation { conversation: None });
    let ac0 = LoopActionView::Call(CoreRequestView::GetConv { pk });
    let ac1 = LoopActionView::Receive;
    let e0 = Seq::<LoopEventView>::empty();
    let a0 = Seq::<LoopActionView>::empty();
    lemma_run_next(idle, e0, idle, a0, ev0, LoopState::FetchingConversation, ac0);
    let (e1, a1) = (e0.push(ev0), a0.push(ac0));
    lemma_run_next(idle, e1, LoopState::FetchingConversation, a1, ev1, idle, ac1);
    assert(seq![ev0, ev1] =~= e1.push(ev1));
    assert(seq![ac0, ac1] =~= a1.push(ac1));
    lemma_mutations_push(a0, ac0);
    lemma_mutations_push(a1, ac1);
}

/// A change of the key pair, generated or restored from a secret key, makes
/// the core change it, sets the subscriptions up again once, then fetches
/// the key pair and publishes it once, whatever the first two operations
/// report. Then the loop waits for the next command.
pub proof fn law_key_change_resubscribes_and_publishes_once(
    command: BrokerEventView,
    changed: CoreReplyView,
    subscribed: CoreReplyView,
    user: UserView,
)
    requires
        command is GenerateNewKeyPair || command is RestoreKeyPair,
    ensures
        ({
            let outcome = run(
                LoopState::Idle,
                seq![
                    LoopEventView::Command(command),
                    LoopEventView::Reply(changed),
                    LoopEventView::Reply(subscribed),
                    LoopEventView::Reply(CoreReplyView::User { user }),
                    LoopEventView::Delivered,
                ],
            );
            &&& outcome == Some(
                (
                    LoopState::Idle,
                    seq![
                        LoopActionView::Call(opening_call(command)),
                        LoopActionView::Call(CoreRequestView::Subscribe),
                        LoopActionView::Call(CoreRequestView::GetUser),
                        LoopActionView::Mutate(StateMutationView::SetUser { user }),
                        LoopActionView::Receive,
                    ],
                ),
            )
            &&& calls_of(outcome.unwrap().1) == seq![
                opening_call(command),
                CoreRequestView::Subscribe,
                CoreRequestView::GetUser,
            ]
            &&& mutations_of(outcome.unwrap().1) == seq![StateMutationView::SetUser { user }]
            &&& opening_call(command) == match command {
                BrokerEventView::RestoreKeyPair { sk } => CoreRequestView::ImportUserSk { sk },
                _ => CoreRequestView::GenNewUserKeypair,
            }
        }),
{
    let idle = LoopState::Idle;
    let ev0 = LoopEventView::Command(command);
    let ev1 = LoopEventView::Reply(changed);
    let ev2 = LoopEventView::Reply(subscribed);
    let ev3 = LoopEventView::Reply(CoreReplyView::User { user });
    let ev4 = LoopEventView::Delivered;
    let ac0 = LoopActionView::Call(opening_call(command));
    let ac1 = LoopActionView::Call(CoreRequestView::Subscribe);
    let ac2 = LoopActionView::Call(CoreRequestView::GetUser);
    let ac3 = LoopActionView::Mutate(StateMutationView::SetUser { user });
    let ac4 = LoopActionView::Receive;
    let e0 = Seq::<LoopEventView>::empty();
    let a0 = Seq::<LoopActionView>::empty();
    lemma_run_next(idle, e0, idle, a0, ev0, LoopState::ChangingKey, ac0);
    let (e1, a1) = (e0.push(ev0), a0.push(ac0));
    lemma_run_next(idle, e1, LoopState::ChangingKey, a1, ev1, LoopState::Resubscribing, ac1);
    let (e2, a2) = (e1.push(ev1), a1.push(ac1));
    lemma_run_next(idle, e2, LoopState::Resubscribing, a2, ev2, LoopState::FetchingUser, ac2);
    let (e3, a3) = (e2.push(ev2), a2.push(ac2));
    lemma_run_next(idle, e3, LoopState::FetchingUser, a3, ev3, LoopState::Publishing, ac3);
    let (e4, a4) = (e3.push(ev3), a3.push(ac3));
    lemma_run_next(idle, e4, LoopState::Publishing, a4, ev4, idle, ac4);
    assert(seq![ev0, ev1, ev2, ev3, ev4] =~= e4.push(ev4));
    assert(seq![ac0, ac1, ac2, ac3, ac4] =~= a4.push(ac4));
    lemma_mutations_push(a0, ac0);
    lemma_mutations_push(a1, ac1);
    lemma_mutations_push(a2, ac2);
    lemma_mutations_push(a3, ac3);
    lemma_mutations_push(a4, ac4);
    lemma_calls_push(a0, ac0);
    lemma_calls_push(a1, ac1);
    lemma_calls_push(a2, ac2);
    lemma_calls_push(a3, ac3);
    lemma_calls_push(a4, ac4);
    assert(seq![opening_call(command), CoreRequestView::Subscribe, CoreRequestView::GetUser]
        =~= Seq::<CoreRequestView>::empty().push(opening_call(command)).push(
        CoreRequestView::Subscribe,
    ).push(CoreRequestView::GetUser));
    assert(seq![StateMutationView::SetUser { user }] =~= Seq::<StateMutationView>::empty().push(
        StateMutationView::SetUser { user },
    ));
}

/// A contact change is followed by a refresh of the configuration whatever
/// the core reports of the change: the configuration is fetched and
/// published once.
pub proof fn law_contact_change_always_refreshes(
    shown: AppView,
    command: BrokerEventView,
    changed: CoreReplyView,
    latest: ConfigView,
)
    requires
        command is AddContact || command is RemoveContact,
    ensures
        ({
            let outcome = run(
                LoopState::Idle,
                seq![
                    LoopEventView::Command(command),
                    LoopEventView::Reply(changed),
                    LoopEventView::Reply(CoreReplyView::Config { config: latest }),
                    LoopEventView::Delivered,
                ],
            );
            &&& outcome == Some(
                (
                    LoopState::Idle,
                    seq![
                        LoopActionView::Call(opening_call(command)),
                        LoopActionView::Call(CoreRequestView::GetConfig),
                        LoopActionView::Mutate(StateMutationView::SetConfig { config: latest }),
                        LoopActionView::Receive,
                    ],
                ),
            )
            &&& shown.apply_all(mutations_of(outcome.unwrap().1)) == (AppView {
                config: latest,
                ..shown
            })
        }),
{
    let idle = LoopState::Idle;
    let ev0 = LoopEventView::Command(command);
    let ev1 = LoopEventView::Reply(changed);
    let ev2 = LoopEventView::Reply(CoreReplyView::Config { config: latest });
    let ev3 = LoopEventView::Delivered;
    let ac0 = LoopActionView::Call(opening_call(command));
    let ac1 = LoopActionView::Call(CoreRequestView::GetConfig);
    let ac2 = LoopActionView::Mutate(StateMutationView::SetConfig { config: latest });
    let ac3 = LoopActionView::Receive;
    let e0 = Seq::<LoopEventView>::empty();
    let a0 = Seq::<LoopActionView>::empty();
    lemma_run_next(idle, e0, idle, a0, ev0, LoopState::ChangingContact, ac0);
    let (e1, a1) = (e0.push(ev0), a0.push(ac0));
    lemma_run_next(idle, e1, LoopState::ChangingContact, a1, ev1, LoopState::FetchingConfig, ac1);
    let (e2, a2) = (e1.push(ev1), a1.push(ac1));
    lemma_run_next(idle, e2, LoopState::FetchingConfig, a2, ev2, LoopState::Publishing, ac2);
    let (e3, a3) = (e2.push(ev2), a2.push(ac2));
    lemma_run_next(idle, e3, LoopState::Publishing, a3, ev3, idle, ac3);
    assert(seq![ev0, ev1, ev2, ev3] =~= e3.push(ev3));
    assert(seq![ac0, ac1, ac2, ac3] =~= a3.push(ac3));
    lemma_mutations_push(a0, ac0);
    lemma_mutations_push(a1, ac1);
    lemma_mutations_push(a2, ac2);
    lemma_mutations_push(a3, ac3);
    lemma_apply_all_push(
        shown,
        Seq::<StateMutationView>::empty(),
        StateMutationView::SetConfig { config: latest },
    );
}

/// Connecting to or disconnecting from a relay, subscribing anew and sending
/// a message each make one call to the core and publish nothing, whatever
/// the core reports: what is on display stays as it was.
pub proof fn law_plain_operations_publish_nothing(
    shown: AppView,
    command: BrokerEventView,
    reply: CoreReplyView,
)
    requires
        command is ConnectRelay || command is DisconnectRelay || command is SubscribeInRelays
            || command is SendMessage,
    ensures
        ({
            let outcome = run(
                LoopState::Idle,
                seq![LoopEventView::Command(command), LoopEventView::Reply(reply)],
            );
            &&& outcome == Some(
                (
                    LoopState::Idle,
                    seq![LoopActionView::Call(opening_call(command)), LoopActionView::Receive],
                ),
            )
            &&& shown.apply_all(mutations_of(outcome.unwrap().1)) == shown
        }),
{
    let idle = LoopState::Idle;
    let ev0 = LoopEventView::Command(command);
    let ev1 = LoopEventView::Reply(reply);
    let ac0 = LoopActionView::Call(opening_call(command));
    let ac1 = LoopActionView::Receive;
    let e0 = Seq::<LoopEventView>::empty();
    let a0 = Seq::<LoopActionView>::empty();
    lemma_run_next(idle, e0, idle, a0, ev0, LoopState::Settling, ac0);
    lemma_run_next(idle, e0.push(ev0), LoopState::Settling, a0.push(ac0), ev1, idle, ac1);
    assert(seq![ev0, ev1] =~= e0.push(ev0).push(ev1));
    assert(seq![ac0, ac1] =~= a0.push(ac0).push(ac1));
    lemma_mutations_push(a0, ac0);
    lemma_mutations_push(a0.push(ac0), ac1);
}

/// A relay change that the core does not report as done publishes nothing:
/// the loop goes back to wait, and what is on display stays exactly as it
/// was before the command.
pub proof fn law_rejected_relay_change_publishes_nothing(
    shown: AppView,
    url: Seq<char>,
    reply: CoreReplyView,
)
    ensures
        reply != (CoreReplyView::RelayRemoved { ok: true }) ==> ({
            let outcome = run(
                LoopState::Idle,
                seq![
                    LoopEventView::Command(BrokerEventView::RemoveRelay { url }),
                    LoopEventView::Reply(reply),
                ],
            );
            &&& outcome == Some(
                (
                    LoopState::Idle,
                    seq![
                        LoopActionView::Call(CoreRequestView::RemoveRelay { url }),
                        LoopActionView::Receive,
                    ],
                ),
            )
            &&& shown.apply_all(mutations_of(outcome.unwrap().1)) == shown
        }),
        reply != (CoreReplyView::RelayAdded { ok: true }) ==> ({
            let outcome = run(
                LoopState::Idle,
                seq![
                    LoopEventView::Command(BrokerEventView::AddRelay { url }),
                    LoopEventView::Reply(reply),
                ],
            );
            &&& outcome == Some(
                (
                    LoopState::Idle,
                    seq![
                        LoopActionView::Call(CoreRequestView::AddRelay { url }),
                        LoopActionView::Receive,
                    ],
                ),
            )
            &&& shown.apply_all(mutations_of(outcome.unwrap().1)) == shown
        }),
{
    let idle = LoopState::Idle;
    let ev1 = LoopEventView::Reply(reply);
    let ac1 = LoopActionView::Receive;
    let e0 = Seq::<LoopEventView>::empty();
    let a0 = Seq::<LoopActionView>::empty();
    if reply != (CoreReplyView::RelayRemoved { ok: true }) {
        let ev0 = LoopEventView::Command(BrokerEventView::RemoveRelay { url });
        let ac0 = LoopActionView::Call(CoreRequestView::RemoveRelay { url });
        lemma_run_next(idle, e0, idle, a0, ev0, LoopState::RemovingRelay, ac0);
        lemma_run_next(idle, e0.push(ev0), LoopState::RemovingRelay, a0.push(ac0), ev1, idle, ac1);
        assert(seq![ev0, ev1] =~= e0.push(ev0).push(ev1));
        assert(seq![ac0, ac1] =~= a0.push(ac0).push(ac1));
        lemma_mutations_push(a0, ac0);
        lemma_mutations_push(a0.push(ac0), ac1);
    }
    if reply != (CoreReplyView::RelayAdded { ok: true }) {
        let ev0 = LoopEventView::Command(BrokerEventView::AddRelay { url });
        let ac0 = LoopActionView::Call(CoreRequestView::AddRelay { url });
        lemma_run_next(idle, e0, idle, a0, ev0, LoopState::AddingRelay, ac0);
        lemma_run_next(idle, e0.push(ev0), LoopState::AddingRelay, a0.push(ac0), ev1, idle, ac1);
        assert(seq![ev0, ev1] =~= e0.push(ev0).push(ev1));
        assert(seq![ac0, ac1] =~= a0.push(ac0).push(ac1));
        lemma_mutations_push(a0, ac0);
        lemma_mutations_push(a0.push(ac0), ac1);
    }
}

} // verus!
