//! The supervisor of the control channel: connect, receive, and on any
//! failure wait and connect again, without end.

use vstd::prelude::*;
use vstd::string::*;

verus! {

/// The seconds between the loss of the channel, or a failed attempt to open
/// it, and the next attempt.
pub const RECONNECT_DELAY_SECONDS: u64 = 10;

/// The state of the control channel.
#[derive(Clone, Copy, Debug, PartialEq, Eq, Structural)]
pub enum ConnectionState {
    /// No channel, and no attempt under way.
    Disconnected,
    /// An attempt to open the channel is under way.
    Connecting,
    /// The channel is open and the receive loop runs on it.
    Connected,
}

/// What happened to the channel.
#[derive(Clone, Copy, Debug, PartialEq, Eq, Structural)]
pub enum ChannelEvent {
    /// The supervisor may connect: it has just started, or the delay is
    /// over.
    Ready,
    /// The attempt to open the channel failed.
    ConnectFailed,
    /// The channel is open.
    ConnectSucceeded,
    /// The receive loop ended: a read failed, the peer closed the channel,
    /// or a report could not be sent.
    ChannelLost,
}

/// What the supervisor does next.
#[derive(Clone, Copy, Debug, PartialEq, Eq, Structural)]
pub enum SupervisorAction {
    /// Try to open the channel.
    Connect,
    /// Run the receive loop on the open channel.
    Receive,
    /// Wait this many seconds.
    Wait(u64),
}

/// A state of the supervisor together with what it does on entering it.
#[derive(Clone, Copy, Debug, PartialEq, Eq, Structural)]
pub struct Transition {
    pub state: ConnectionState,
    pub action: SupervisorAction,
}

/// The transition that `event` causes in `state`, or `None` where the event
/// cannot happen in that state.
pub open spec fn step_of(state: ConnectionState, event: ChannelEvent) -> Option<Transition> {
    match (state, event) {
        (ConnectionState::Disconnected, ChannelEvent::Ready) => Some(
            Transition { state: ConnectionState::Connecting, action: SupervisorAction::Connect },
        ),
        (ConnectionState::Connecting, ChannelEvent::ConnectFailed) => Some(
            Transition {
                state: ConnectionState::Disconnected,
                action: SupervisorAction::Wait(RECONNECT_DELAY_SECONDS),
            },
        ),
        (ConnectionState::Connecting, ChannelEvent::ConnectSucceeded) => Some(
            Transition { state: ConnectionState::Connected, action: SupervisorAction::Receive },
        ),
        (ConnectionState::Connected, ChannelEvent::ChannelLost) => Some(
            Transition {
                state: ConnectionState::Disconnected,
                action: SupervisorAction::Wait(RECONNECT_DELAY_SECONDS),
            },
        ),
        _ => None,
    }
}

/// Decides what the supervisor does when `event` happens in `state`.
pub fn step(state: ConnectionState, event: ChannelEvent) -> (r: Option<Transition>)
    ensures
        r == step_of(state, event),
{
    match state {
        ConnectionState::Disconnected => match event {
            ChannelEvent::Ready => Some(
                Transition {
                    state: ConnectionState::Connecting,
                    action: SupervisorAction::Connect,
                },
            ),
            _ => None,
        },
        ConnectionState::Connecting => match event {
            ChannelEvent::ConnectFailed => Some(
                Transition {
                    state: ConnectionState::Disconnected,
                    action: SupervisorAction::Wait(RECONNECT_DELAY_SECONDS),
                },
            ),
            ChannelEvent::ConnectSucceeded => Some(
                Transition {
                    state: ConnectionState::Connected,
                    action: SupervisorAction::Receive,
                },
            ),
            _ => None,
        },
        ConnectionState::Connected => match event {
            ChannelEvent::ChannelLost => Some(
                Transition {
                    state: ConnectionState::Disconnected,
                    action: SupervisorAction::Wait(RECONNECT_DELAY_SECONDS),
                },
            ),
            _ => None,
        },
    }
}

/// The address of the coordinator for the agent with the given token.
pub open spec fn coordinator_url_of(token: Seq<char>) -> Seq<char> {
    "wss://omni.earthledger.com/websocket/"@ + token
}

/// Builds the address at which the agent with the given token reaches the
/// coordinator.
pub fn coordinator_url(token: &str) -> (url: String)
    ensures
        url@ == coordinator_url_of(token@),
{
    let mut url = String::from_str("wss://omni.earthledger.com/websocket/");
    url.append(token);
    url
}

/// Where a run of the supervisor has got to, and what it has done.
pub ghost struct Run {
    pub state: ConnectionState,
    pub actions: Seq<SupervisorAction>,
}

/// The run that `events` cause from `state` on, or `None` where one of them
/// cannot happen when its turn comes.
pub open spec fn run_of(state: ConnectionState, events: Seq<ChannelEvent>) -> Option<Run>
    decreases events.len(),
{
    if events.len() == 0 {
        Some(Run { state, actions: Seq::empty() })
    } else {
        match run_of(state, events.drop_last()) {
            Some(before) => match step_of(before.state, events.last()) {
                Some(t) => Some(Run { state: t.state, actions: before.actions.push(t.action) }),
                None => None,
            },
            None => None,
        }
    }
}

/// The events of `failures` attempts to connect that all fail.
pub open spec fn failed_attempts(failures: nat) -> Seq<ChannelEvent>
    decreases failures,
{
    if failures == 0 {
        Seq::empty()
    } else {
        failed_attempts((failures - 1) as nat).push(ChannelEvent::Ready).push(
            ChannelEvent::ConnectFailed,
        )
    }
}

/// The number of attempts to connect among `actions`.
pub open spec fn connects_in(actions: Seq<SupervisorAction>) -> nat
    decreases actions.len(),
{
    if actions.len() == 0 {
        0
    } else {
        connects_in(actions.drop_last()) + if actions.last() == SupervisorAction::Connect {
            1nat
        } else {
            0nat
        }
    }
}

/// Whether every wait among `actions` lasts the reconnect delay.
pub open spec fn waits_are_fixed(actions: Seq<SupervisorAction>) -> bool {
    forall|i: int|
        0 <= i < actions.len() ==> (#[trigger] actions[i] matches SupervisorAction::Wait(seconds)
            ==> seconds == RECONNECT_DELAY_SECONDS)
}

/// Whatever happens, every wait that the supervisor asks for lasts the
/// reconnect delay.
pub proof fn every_wait_is_the_reconnect_delay(state: ConnectionState, event: ChannelEvent)
    ensures
        step_of(state, event) matches Some(t) ==> (t.action matches SupervisorAction::Wait(seconds)
            ==> seconds == RECONNECT_DELAY_SECONDS),
{
}

/// The supervisor has no final state: in every state some event moves it
/// on, and from `Disconnected` the next move is another attempt to connect.
pub proof fn supervisor_never_gives_up(state: ConnectionState)
    ensures
        exists|event: ChannelEvent| step_of(state, event) is Some,
        step_of(ConnectionState::Disconnected, ChannelEvent::Ready) == Some(
            Transition { state: ConnectionState::Connecting, action: SupervisorAction::Connect },
        ),
{
    match state {
        ConnectionState::Disconnected => {
            assert(step_of(state, ChannelEvent::Ready) is Some);
        },
        ConnectionState::Connecting => {
            assert(step_of(state, ChannelEvent::ConnectFailed) is Some);
        },
        ConnectionState::Connected => {
            assert(step_of(state, ChannelEvent::ChannelLost) is Some);
        },
    }
}

proof fn run_of_push(state: ConnectionState, events: Seq<ChannelEvent>, event: ChannelEvent)
    ensures
        run_of(state, events.push(event)) == match run_of(state, events) {
            Some(before) => match step_of(before.state, event) {
                Some(t) => Some(Run { state: t.state, actions: before.actions.push(t.action) }),
                None => None,
            },
            None => None,
        },
{
    assert(events.push(event).drop_last() =~= events);
}

proof fn actions_push(actions: Seq<SupervisorAction>, action: SupervisorAction)
    requires
        waits_are_fixed(actions),
        action matches SupervisorAction::Wait(seconds) ==> seconds == RECONNECT_DELAY_SECONDS,
    ensures
        waits_are_fixed(actions.push(action)),
        connects_in(actions.push(action)) == connects_in(actions) + if action
            == SupervisorAction::Connect {
            1nat
        } else {
            0nat
        },
{
    assert(actions.push(action).drop_last() =~= actions);
    assert forall|i: int| 0 <= i < actions.push(action).len() implies (
    #[trigger] actions.push(action)[i] matches SupervisorAction::Wait(seconds) ==> seconds
        == RECONNECT_DELAY_SECONDS) by {
        if i < actions.len() {
            assert(actions.push(action)[i] == actions[i]);
        }
    }
}

/// After any number of failed attempts the supervisor is back in
/// `Disconnected`, having tried to connect once per failure and having
/// waited the reconnect delay after each.
pub proof fn failed_attempts_are_retried(failures: nat)
    ensures
        run_of(ConnectionState::Disconnected, failed_attempts(failures)) matches Some(run)
            && run.state == ConnectionState::Disconnected && run.actions.len() == 2 * failures
            && connects_in(run.actions) == failures && waits_are_fixed(run.actions),
    decreases failures,
{
    if failures > 0 {
        failed_attempts_are_retried((failures - 1) as nat);
        let before = failed_attempts((failures - 1) as nat);
        let ready = before.push(ChannelEvent::Ready);
        run_of_push(ConnectionState::Disconnected, before, ChannelEvent::Ready);
        run_of_push(ConnectionState::Disconnected, ready, ChannelEvent::ConnectFailed);
        let tried = run_of(ConnectionState::Disconnected, before)->Some_0.actions;
        actions_push(tried, SupervisorAction::Connect);
        actions_push(
            tried.push(SupervisorAction::Connect),
            SupervisorAction::Wait(RECONNECT_DELAY_SECONDS),
        );
    }
}

/// Where the channel cannot be opened `failures` times in a row and then
/// can, the supervisor tries exactly `failures + 1` times, waits the
/// reconnect delay between the attempts, and ends up receiving.
pub proof fn connects_once_more_than_it_fails(failures: nat)
    ensures
        run_of(
            ConnectionState::Disconnected,
            failed_attempts(failures).push(ChannelEvent::Ready).push(
                ChannelEvent::ConnectSucceeded,
            ),
        ) matches Some(run) && run.state == ConnectionState::Connected && connects_in(
            run.actions,
        ) == failures + 1 && waits_are_fixed(run.actions) && run.actions.last()
            == SupervisorAction::Receive,
{
    failed_attempts_are_retried(failures);
    let before = failed_attempts(failures);
    let ready = before.push(ChannelEvent::Ready);
    run_of_push(ConnectionState::Disconnected, before, ChannelEvent::Ready);
    run_of_push(ConnectionState::Disconnected, ready, ChannelEvent::ConnectSucceeded);
    let tried = run_of(ConnectionState::Disconnected, before)->Some_0.actions;
    actions_push(tried, SupervisorAction::Connect);
    actions_push(tried.push(SupervisorAction::Connect), SupervisorAction::Receive);
}

} // verus!
