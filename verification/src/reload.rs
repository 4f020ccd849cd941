//! The reload connection: one fixed message for every finished build, until
//! the client speaks or leaves or the announcements end.

use vstd::prelude::*;

verus! {

/// The text sent to the browser for every finished build.
pub const RELOAD_MESSAGE: &'static str = "{\"reload\": true}";

/// The state of one reload connection.
#[derive(Clone, Copy, Debug, PartialEq, Eq, Structural)]
pub enum ReloadState {
    /// Upgraded and waiting, for the client and for the next build.
    Open,
    /// Torn down: nothing is read or written any more.
    Closed,
}

/// What can happen to an open reload connection.
#[derive(Clone, Copy, Debug, PartialEq, Eq, Structural)]
pub enum ReloadEvent {
    /// The client sent a message, whatever it holds.
    ClientMessage,
    /// The client went away.
    ClientDisconnected,
    /// A build finished.
    BuildDone,
    /// This many builds finished whose announcements the connection did
    /// not get one by one, because too many were pending.
    ChannelLagged { missed: u64 },
    /// No build will be announced any more: every sender is gone.
    ChannelClosed,
    /// The last message could not be sent.
    SendFailed,
}

/// What the connection's owner does next.
#[derive(Clone, Copy, Debug)]
pub enum ReloadAction {
    /// Send this text to the client this many times, then wait again.
    Send { message: &'static str, times: u64 },
    /// Tear the connection down.
    Close,
    /// Nothing: the connection is closed already.
    Nothing,
}

/// How many finished builds an event stands for: one for a build that was
/// announced, as many as were missed for a lag, and none for any other
/// event, which ends the connection.
pub open spec fn builds_in(event: ReloadEvent) -> Option<nat> {
    match event {
        ReloadEvent::BuildDone => Some(1),
        ReloadEvent::ChannelLagged { missed } => Some(missed as nat),
        _ => None,
    }
}

/// One step of the connection. A closed connection stays closed and does
/// nothing. An open one answers every finished build with one reload
/// message and stays open, also where it learns of several builds at once;
/// every other event closes it.
pub open spec fn reload_step(state: ReloadState, event: ReloadEvent) -> (ReloadState, ReloadAction) {
    match state {
        ReloadState::Closed => (ReloadState::Closed, ReloadAction::Nothing),
        ReloadState::Open => match event {
            ReloadEvent::BuildDone => (
                ReloadState::Open,
                ReloadAction::Send { message: RELOAD_MESSAGE, times: 1 },
            ),
            ReloadEvent::ChannelLagged { missed } => (
                ReloadState::Open,
                ReloadAction::Send { message: RELOAD_MESSAGE, times: missed },
            ),
            _ => (ReloadState::Closed, ReloadAction::Close),
        },
    }
}

/// This many reload messages in a row.
pub open spec fn reloads(count: nat) -> Seq<Seq<char>> {
    Seq::new(count, |i: int| RELOAD_MESSAGE@)
}

/// The messages that an action puts on the wire.
pub open spec fn sent_by(action: ReloadAction) -> Seq<Seq<char>> {
    match action {
        ReloadAction::Send { message, times } => Seq::new(times as nat, |i: int| message@),
        _ => Seq::empty(),
    }
}

/// The state of a connection after a run of events.
pub open spec fn state_after(state: ReloadState, events: Seq<ReloadEvent>) -> ReloadState
    decreases events.len(),
{
    if events.len() == 0 {
        state
    } else {
        state_after(reload_step(state, events[0]).0, events.skip(1))
    }
}

/// The messages that a connection sends over a run of events, in order.
pub open spec fn messages_sent(state: ReloadState, events: Seq<ReloadEvent>) -> Seq<Seq<char>>
    decreases events.len(),
{
    if events.len() == 0 {
        Seq::empty()
    } else {
        let (next, action) = reload_step(state, events[0]);
        sent_by(action) + messages_sent(next, events.skip(1))
    }
}

/// Whether every event of the run stands for finished builds.
pub open spec fn only_builds(events: Seq<ReloadEvent>) -> bool {
    forall|i: int| 0 <= i < events.len() ==> builds_in(#[trigger] events[i]) is Some
}

/// How many builds finish before the first event that ends the connection.
pub open spec fn leading_builds(events: Seq<ReloadEvent>) -> nat
    decreases events.len(),
{
    if events.len() == 0 {
        0
    } else {
        match builds_in(events[0]) {
            Some(count) => count + leading_builds(events.skip(1)),
            None => 0,
        }
    }
}

/// Handles one event on a reload connection: says what to do, and in which
/// state the connection is afterwards.
pub fn handle_ws(state: ReloadState, event: ReloadEvent) -> (r: (ReloadState, ReloadAction))
    ensures
        r == reload_step(state, event),
{
    match state {
        ReloadState::Closed => (ReloadState::Closed, ReloadAction::Nothing),
        ReloadState::Open => match event {
            ReloadEvent::BuildDone => (
                ReloadState::Open,
                ReloadAction::Send { message: RELOAD_MESSAGE, times: 1 },
            ),
            ReloadEvent::ChannelLagged { missed } => (
                ReloadState::Open,
                ReloadAction::Send { message: RELOAD_MESSAGE, times: missed },
            ),
            _ => (ReloadState::Closed, ReloadAction::Close),
        },
    }
}

/// A closed connection sends nothing and stays closed, whatever happens.
pub proof fn lemma_closed_is_final(events: Seq<ReloadEvent>)
    ensures
        messages_sent(ReloadState::Closed, events) == Seq::<Seq<char>>::empty(),
        state_after(ReloadState::Closed, events) == ReloadState::Closed,
    decreases events.len(),
{
    if events.len() > 0 {
        lemma_closed_is_final(events.skip(1));
        assert(messages_sent(ReloadState::Closed, events) =~= Seq::<Seq<char>>::empty());
    }
}

/// An open connection sends exactly one reload message for each build that
/// finishes before the first event that ends it, and nothing else: none
/// before a build is announced to it, none after it has closed. It stays
/// open as long as builds are all that happens.
pub proof fn lemma_one_message_per_build(events: Seq<ReloadEvent>)
    ensures
        messages_sent(ReloadState::Open, events) == reloads(leading_builds(events)),
        only_builds(events) ==> state_after(ReloadState::Open, events) == ReloadState::Open,
        !only_builds(events) ==> state_after(ReloadState::Open, events) == ReloadState::Closed,
    decreases events.len(),
{
    let expected = reloads(leading_builds(events));
    if events.len() == 0 {
        assert(messages_sent(ReloadState::Open, events) =~= expected);
    } else {
        let rest = events.skip(1);
        match builds_in(events[0]) {
            Some(count) => {
                lemma_one_message_per_build(rest);
                assert(sent_by(reload_step(ReloadState::Open, events[0]).1) =~= reloads(count));
                assert(messages_sent(ReloadState::Open, events) =~= expected);
                if only_builds(events) {
                    assert forall|i: int| 0 <= i < rest.len() implies builds_in(
                        #[trigger] rest[i],
                    ) is Some by {
                        assert(rest[i] == events[i + 1]);
                    }
                } else {
                    let bad = choose|i: int|
                        0 <= i < events.len() && !(builds_in(#[trigger] events[i]) is Some);
                    assert(bad > 0);
                    assert(rest[bad - 1] == events[bad]);
                    assert(!only_builds(rest));
                }
            },
            None => {
                lemma_closed_is_final(rest);
                assert(messages_sent(ReloadState::Open, events) =~= expected);
                assert(!only_builds(events));
            },
        }
    }
}

/// Where builds are all that happens, the builds of the whole run lead.
pub proof fn lemma_all_builds_lead(events: Seq<ReloadEvent>)
    requires
        forall|i: int| 0 <= i < events.len() ==> events[i] == ReloadEvent::BuildDone,
    ensures
        leading_builds(events) == events.len(),
        only_builds(events),
    decreases events.len(),
{
    if events.len() > 0 {
        lemma_all_builds_lead(events.skip(1));
    }
}

/// While builds are announced one by one, the connection stays open and has
/// sent as many reload messages as builds have finished, each the fixed
/// text.
pub proof fn lemma_every_build_is_announced(events: Seq<ReloadEvent>)
    requires
        forall|i: int| 0 <= i < events.len() ==> events[i] == ReloadEvent::BuildDone,
    ensures
        messages_sent(ReloadState::Open, events) == reloads(events.len()),
        state_after(ReloadState::Open, events) == ReloadState::Open,
{
    lemma_one_message_per_build(events);
    lemma_all_builds_lead(events);
}

/// A lag loses no build: where announcements were missed and the rest then
/// arrive one by one, the connection stays open and has sent one reload
/// message for every build, the missed ones included.
pub proof fn lemma_lag_loses_no_build(missed: u64, then: Seq<ReloadEvent>)
    requires
        forall|i: int| 0 <= i < then.len() ==> then[i] == ReloadEvent::BuildDone,
    ensures
        messages_sent(ReloadState::Open, seq![ReloadEvent::ChannelLagged { missed }] + then)
            == reloads(missed as nat + then.len()),
        state_after(ReloadState::Open, seq![ReloadEvent::ChannelLagged { missed }] + then)
            == ReloadState::Open,
{
    let events = seq![ReloadEvent::ChannelLagged { missed }] + then;
    assert(events.skip(1) =~= then);
    lemma_all_builds_lead(then);
    lemma_one_message_per_build(events);
    assert(only_builds(events)) by {
        assert forall|i: int| 0 <= i < events.len() implies builds_in(
            #[trigger] events[i],
        ) is Some by {
            if i > 0 {
                assert(events[i] == then[i - 1]);
            }
        }
    }
}

/// Messages and state over two runs of events, one after the other.
pub proof fn lemma_runs_compose(state: ReloadState, first: Seq<ReloadEvent>, second: Seq<ReloadEvent>)
    ensures
        state_after(state, first + second) == state_after(state_after(state, first), second),
        messages_sent(state, first + second) == messages_sent(state, first) + messages_sent(
            state_after(state, first),
            second,
        ),
    decreases first.len(),
{
    if first.len() == 0 {
        assert(first + second =~= second);
        assert(messages_sent(state, first) + messages_sent(state, second) =~= messages_sent(
            state,
            second,
        ));
    } else {
        let next = reload_step(state, first[0]).0;
        assert((first + second).skip(1) =~= first.skip(1) + second);
        assert((first + second)[0] == first[0]);
        lemma_runs_compose(next, first.skip(1), second);
        assert(messages_sent(state, first + second) =~= messages_sent(state, first)
            + messages_sent(state_after(state, first), second));
    }
}

/// Once the client has sent a message or has gone, the connection is closed
/// and sends nothing more, whatever was sent before and however many builds
/// finish afterwards.
pub proof fn lemma_client_ends_connection(
    before: Seq<ReloadEvent>,
    ending: ReloadEvent,
    after: Seq<ReloadEvent>,
)
    requires
        ending == ReloadEvent::ClientMessage || ending == ReloadEvent::ClientDisconnected,
    ensures
        state_after(ReloadState::Open, before + seq![ending] + after) == ReloadState::Closed,
        messages_sent(ReloadState::Open, before + seq![ending] + after) == messages_sent(
            ReloadState::Open,
            before,
        ),
{
    let reached = state_after(ReloadState::Open, before);
    let closing = seq![ending];
    lemma_runs_compose(ReloadState::Open, before, closing);
    lemma_runs_compose(ReloadState::Open, before + closing, after);
    assert(closing.skip(1) =~= Seq::<ReloadEvent>::empty());
    assert(state_after(reached, closing) == ReloadState::Closed) by {
        reveal_with_fuel(state_after, 2);
    }
    assert(messages_sent(reached, closing) =~= Seq::<Seq<char>>::empty()) by {
        reveal_with_fuel(messages_sent, 2);
    }
    lemma_closed_is_final(after);
    assert(messages_sent(ReloadState::Open, before + closing + after) =~= messages_sent(
        ReloadState::Open,
        before,
    ));
}

} // verus!
