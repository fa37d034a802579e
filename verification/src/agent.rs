//! The agent's control flow as a state machine: each outcome that the outside
//! world reports is answered with the next thing to do.
//!
//! The machine decides; its caller performs. The caller connects, subscribes,
//! waits for the next inbound event, runs commands and sleeps, and reports
//! how each of these ended as an [`Event`].

use crate::command::{report, spec_report, CommandName};
use crate::dispatch::{dispatch, spec_dispatch, InboundEvent};
use crate::identity::{spec_command_topic, DeviceIdentity};
use crate::progress::{
    connecting_line, lost_connection_line, received_payload_line, reconnect_error_line,
    spec_connecting_line, spec_lost_connection_line, spec_received_line,
    spec_reconnect_error_line, spec_subscribing_line, spec_waiting_line, subscribing_line,
    waiting_line,
};
use crate::session::{ConnectParams, Subscription, RETRY_INTERVAL_MS};
use crate::text::spec_text_of;
use vstd::prelude::*;
use vstd::string::*;

verus! {

/// Where the agent stands: what it has asked for and is waiting on.
#[derive(Clone, Copy, Debug, PartialEq, Eq, Structural)]
pub enum Phase {
    /// The first connect is under way.
    Connecting,
    /// Connected; the subscription is under way.
    Subscribing,
    /// Connected and subscribed; waiting for the next inbound event.
    Listening,
    /// A command is running; nothing else is taken up until it ends.
    Executing(CommandName),
    /// The connection was lost; a reconnect is under way.
    Reconnecting,
    /// A reconnect failed; waiting out the retry interval.
    Backoff,
    /// The agent has ended and takes no more events.
    Stopped,
}

/// The state of the connection itself.
#[derive(Clone, Copy, Debug, PartialEq, Eq, Structural)]
pub enum SessionState {
    Disconnected,
    Connecting,
    Connected,
}

/// What ends the agent for good.
#[derive(Clone, Copy, Debug, PartialEq, Eq, Structural)]
pub enum Fatal {
    /// The first connect failed.
    Connect,
    /// The subscription failed.
    Subscribe,
    /// The command could not even be launched.
    Launch(CommandName),
}

/// What the caller is to do next.
#[derive(Clone, Copy, Debug, PartialEq, Eq, Structural)]
pub enum Action {
    /// Connect to the broker with the agent's connection parameters.
    Connect,
    /// Subscribe with the agent's subscription.
    Subscribe,
    /// Wait for the next inbound event.
    AwaitEvent,
    /// Run the command and wait until it has ended.
    Execute(CommandName),
    /// Try to connect again, with the parameters of the first connect.
    Reconnect,
    /// Do nothing for so many milliseconds.
    Wait { millis: u64 },
    /// End the process as failed.
    Abort(Fatal),
    /// End the process: the stream of inbound events has ended.
    Finish,
}

/// How something the caller did for the agent has ended.
#[derive(Debug)]
pub enum Event {
    Connected,
    ConnectFailed { reason: String },
    Subscribed,
    SubscribeFailed { reason: String },
    /// The stream of inbound events yielded this.
    Inbound(InboundEvent),
    /// The stream of inbound events has ended.
    StreamClosed,
    /// The command ran and ended, having written this.
    CommandFinished { stdout: Vec<u8>, stderr: Vec<u8> },
    /// The command could not be launched.
    LaunchFailed { reason: String },
    Reconnected,
    ReconnectFailed { reason: String },
    /// The wait is over.
    DelayElapsed,
}

/// The agent's answer to an event.
#[derive(Debug)]
pub struct Reaction {
    /// The progress lines to write, in order, before anything else is done.
    pub lines: Vec<String>,
    /// What to do then.
    pub action: Action,
}

impl Phase {
    /// The state of the connection in this phase.
    pub open spec fn spec_session_state(self) -> SessionState {
        match self {
            Phase::Connecting | Phase::Reconnecting => SessionState::Connecting,
            Phase::Subscribing | Phase::Listening | Phase::Executing(_) => SessionState::Connected,
            Phase::Backoff | Phase::Stopped => SessionState::Disconnected,
        }
    }

    /// The state of the connection in this phase.
    pub fn session_state(&self) -> (r: SessionState)
        ensures
            r == self.spec_session_state(),
    {
        match self {
            Phase::Connecting | Phase::Reconnecting => SessionState::Connecting,
            Phase::Subscribing | Phase::Listening | Phase::Executing(_) => SessionState::Connected,
            Phase::Backoff | Phase::Stopped => SessionState::Disconnected,
        }
    }
}

/// The transition relation: in `phase`, the phase and the action that follow
/// `event`, or none where the event does not answer what the agent is
/// waiting on in that phase.
pub open spec fn spec_step(phase: Phase, event: Event) -> Option<(Phase, Action)> {
    match phase {
        Phase::Connecting => match event {
            Event::Connected => Some((Phase::Subscribing, Action::Subscribe)),
            Event::ConnectFailed { .. } => Some((Phase::Stopped, Action::Abort(Fatal::Connect))),
            _ => None,
        },
        Phase::Subscribing => match event {
            Event::Subscribed => Some((Phase::Listening, Action::AwaitEvent)),
            Event::SubscribeFailed { .. } => Some(
                (Phase::Stopped, Action::Abort(Fatal::Subscribe)),
            ),
            _ => None,
        },
        Phase::Listening => match event {
            Event::Inbound(inbound) => match inbound {
                InboundEvent::Message { topic, payload } => match spec_dispatch(
                    topic@,
                    payload@,
                ) {
                    Some(command) => Some((Phase::Executing(command), Action::Execute(command))),
                    None => Some((Phase::Listening, Action::AwaitEvent)),
                },
                InboundEvent::Disconnected => Some((Phase::Reconnecting, Action::Reconnect)),
            },
            Event::StreamClosed => Some((Phase::Stopped, Action::Finish)),
            _ => None,
        },
        Phase::Executing(command) => match event {
            Event::CommandFinished { .. } => Some((Phase::Listening, Action::AwaitEvent)),
            Event::LaunchFailed { .. } => Some(
                (Phase::Stopped, Action::Abort(Fatal::Launch(command))),
            ),
            _ => None,
        },
        Phase::Reconnecting => match event {
            Event::Reconnected => Some((Phase::Listening, Action::AwaitEvent)),
            Event::ReconnectFailed { .. } => Some(
                (Phase::Backoff, Action::Wait { millis: RETRY_INTERVAL_MS }),
            ),
            _ => None,
        },
        Phase::Backoff => match event {
            Event::DelayElapsed => Some((Phase::Reconnecting, Action::Reconnect)),
            _ => None,
        },
        Phase::Stopped => None,
    }
}

/// The progress lines that the device named `name` writes when `event`
/// arrives in `phase`.
pub open spec fn spec_lines(name: Seq<char>, phase: Phase, event: Event) -> Seq<Seq<char>> {
    match phase {
        Phase::Connecting => match event {
            Event::Connected => seq![spec_subscribing_line(spec_command_topic(name))],
            _ => seq![],
        },
        Phase::Subscribing => match event {
            Event::Subscribed => seq![spec_waiting_line()],
            _ => seq![],
        },
        Phase::Listening => match event {
            Event::Inbound(inbound) => match inbound {
                InboundEvent::Message { topic, payload } => {
                    let received = spec_received_line(spec_text_of(payload@));
                    match spec_dispatch(topic@, payload@) {
                        Some(command) => seq![received, command.spec_announcement()],
                        None => seq![received],
                    }
                },
                InboundEvent::Disconnected => seq![spec_lost_connection_line()],
            },
            _ => seq![],
        },
        Phase::Executing(_) => match event {
            Event::CommandFinished { stdout, stderr } => seq![spec_report(stdout@, stderr@)],
            _ => seq![],
        },
        Phase::Reconnecting => match event {
            Event::ReconnectFailed { reason } => seq![spec_reconnect_error_line(reason@)],
            _ => seq![],
        },
        Phase::Backoff => seq![],
        Phase::Stopped => seq![],
    }
}

fn no_lines() -> (r: Vec<String>)
    ensures
        r.deep_view() == Seq::<Seq<char>>::empty(),
{
    let lines: Vec<String> = Vec::new();
    assert(lines.deep_view() =~= Seq::<Seq<char>>::empty());
    lines
}

fn one_line(line: String) -> (r: Vec<String>)
    ensures
        r.deep_view() == seq![line@],
{
    let mut lines: Vec<String> = Vec::new();
    lines.push(line);
    assert(lines.deep_view() =~= seq![line@]);
    lines
}

fn two_lines(first: String, second: String) -> (r: Vec<String>)
    ensures
        r.deep_view() == seq![first@, second@],
{
    let mut lines: Vec<String> = Vec::new();
    lines.push(first);
    lines.push(second);
    assert(lines.deep_view() =~= seq![first@, second@]);
    lines
}

/// The agent: a device identity and the phase it is in.
#[derive(Debug)]
pub struct Agent {
    identity: DeviceIdentity,
    phase: Phase,
}

impl Agent {
    /// The phase the agent is in.
    pub closed spec fn spec_phase(&self) -> Phase {
        self.phase
    }

    /// The name of the device the agent runs on.
    pub closed spec fn spec_identity(&self) -> Seq<char> {
        self.identity@
    }

    /// An agent for `identity`, with its first reaction: to connect.
    pub fn start(identity: DeviceIdentity) -> (r: (Agent, Reaction))
        ensures
            r.0.spec_identity() == identity@,
            r.0.spec_phase() == Phase::Connecting,
            r.1.action == Action::Connect,
            r.1.lines.deep_view() == seq![spec_connecting_line()],
    {
        let agent = Agent { identity, phase: Phase::Connecting };
        let reaction = Reaction { lines: one_line(connecting_line()), action: Action::Connect };
        (agent, reaction)
    }

    /// The phase the agent is in.
    pub fn phase(&self) -> (r: Phase)
        ensures
            r == self.spec_phase(),
    {
        self.phase
    }

    /// The identity of the device the agent runs on.
    pub fn identity(&self) -> (r: &DeviceIdentity)
        ensures
            r@ == self.spec_identity(),
    {
        &self.identity
    }

    /// What to connect with, on `Action::Connect`.
    pub fn connect_params(&self) -> (r: ConnectParams)
        ensures
            r.is_for(self.spec_identity()),
    {
        ConnectParams::for_identity(&self.identity)
    }

    /// What to subscribe to, on `Action::Subscribe`.
    pub fn subscription(&self) -> (r: Subscription)
        ensures
            r.is_for(self.spec_identity()),
    {
        Subscription::for_identity(&self.identity)
    }

    /// Takes up `event` and says what to do next. An event that does not
    /// answer what the agent is waiting on is refused and changes nothing.
    pub fn step(&mut self, event: &Event) -> (r: Option<Reaction>)
        ensures
            final(self).spec_identity() == old(self).spec_identity(),
            match spec_step(old(self).spec_phase(), *event) {
                Some((phase, action)) => r matches Some(reaction) && final(self).spec_phase()
                    == phase && reaction.action == action && reaction.lines.deep_view()
                    == spec_lines(old(self).spec_identity(), old(self).spec_phase(), *event),
                None => r is None && final(self).spec_phase() == old(self).spec_phase(),
            },
    {
        let taken: Option<(Phase, Reaction)> = match self.phase {
            Phase::Connecting => match event {
                Event::Connected => {
                    let topic = self.identity.command_topic();
                    let line = subscribing_line(topic.as_str());
                    Some(
                        (
                            Phase::Subscribing,
                            Reaction { lines: one_line(line), action: Action::Subscribe },
                        ),
                    )
                },
                Event::ConnectFailed { .. } => Some(
                    (
                        Phase::Stopped,
                        Reaction { lines: no_lines(), action: Action::Abort(Fatal::Connect) },
                    ),
                ),
                _ => None,
            },
            Phase::Subscribing => match event {
                Event::Subscribed => Some(
                    (
                        Phase::Listening,
                        Reaction { lines: one_line(waiting_line()), action: Action::AwaitEvent },
                    ),
                ),
                Event::SubscribeFailed { .. } => Some(
                    (
                        Phase::Stopped,
                        Reaction { lines: no_lines(), action: Action::Abort(Fatal::Subscribe) },
                    ),
                ),
                _ => None,
            },
            Phase::Listening => match event {
                Event::Inbound(inbound) => match inbound {
                    InboundEvent::Message { topic, payload } => {
                        let received = received_payload_line(payload.as_slice());
                        match dispatch(topic.as_str(), payload.as_slice()) {
                            Some(command) => {
                                let announcement = String::from_str(command.announcement());
                                Some(
                                    (
                                        Phase::Executing(command),
                                        Reaction {
                                            lines: two_lines(received, announcement),
                                            action: Action::Execute(command),
                                        },
                                    ),
                                )
                            },
                            None => Some(
                                (
                                    Phase::Listening,
                                    Reaction {
                                        lines: one_line(received),
                                        action: Action::AwaitEvent,
                                    },
                                ),
                            ),
                        }
                    },
                    InboundEvent::Disconnected => Some(
                        (
                            Phase::Reconnecting,
                            Reaction {
                                lines: one_line(lost_connection_line()),
                                action: Action::Reconnect,
                            },
                        ),
                    ),
                },
                Event::StreamClosed => Some(
                    (Phase::Stopped, Reaction { lines: no_lines(), action: Action::Finish }),
                ),
                _ => None,
            },
            Phase::Executing(command) => match event {
                Event::CommandFinished { stdout, stderr } => {
                    let text = report(stdout.as_slice(), stderr.as_slice());
                    Some(
                        (
                            Phase::Listening,
                            Reaction { lines: one_line(text), action: Action::AwaitEvent },
                        ),
                    )
                },
                Event::LaunchFailed { .. } => Some(
                    (
                        Phase::Stopped,
                        Reaction {
                            lines: no_lines(),
                            action: Action::Abort(Fatal::Launch(command)),
                        },
                    ),
                ),
                _ => None,
            },
            Phase::Reconnecting => match event {
                Event::Reconnected => Some(
                    (Phase::Listening, Reaction { lines: no_lines(), action: Action::AwaitEvent }),
                ),
                Event::ReconnectFailed { reason } => Some(
                    (
                        Phase::Backoff,
                        Reaction {
                            lines: one_line(reconnect_error_line(reason.as_str())),
                            action: Action::Wait { millis: RETRY_INTERVAL_MS },
                        },
                    ),
                ),
                _ => None,
            },
            Phase::Backoff => match event {
                Event::DelayElapsed => Some(
                    (Phase::Reconnecting, Reaction { lines: no_lines(), action: Action::Reconnect }),
                ),
                _ => None,
            },
            Phase::Stopped => None,
        };
        match taken {
            Some((phase, reaction)) => {
                self.phase = phase;
                Some(reaction)
            },
            None => None,
        }
    }
}

} // verus!
