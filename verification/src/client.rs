//! The listener side: the session with the host (authentication, then one
//! player command list per message) and what each message asks of the
//! listener's own player.

use vstd::prelude::*;
use crate::text::{parse_u64, parsed_u64};
use crate::types::{NetworkMessage, Song};

verus! {

/// What a listener's player is asked to do.
#[derive(Debug, PartialEq, Eq, Clone)]
pub enum PlayerCommand {
    /// Show a text from the host.
    Show(String),
    /// Play this song now.
    Play(Song),
    /// Seek to this position.
    Seek(u64),
    /// Toggle between playing and paused.
    PlayPause,
    /// Put this song at the end of the queue.
    PlayLater(Song),
    /// Put this song right after the current one.
    PlayNext(Song),
}

/// Whether a message can be acted on: a seek must carry a position that
/// parses as a `u64`.
pub open spec fn actionable(m: NetworkMessage) -> bool {
    m matches NetworkMessage::Seek { position } ==> parsed_u64(position@) is Some
}

/// The commands a message from the host asks of the listener's player.
pub open spec fn commands_for(m: NetworkMessage) -> Seq<PlayerCommand> {
    match m {
        NetworkMessage::Message { msg } => seq![PlayerCommand::Show(msg)],
        NetworkMessage::Seek { position } => seq![
            PlayerCommand::Seek(parsed_u64(position@).unwrap()),
        ],
        NetworkMessage::CurrentState { song } => match song {
            Some(s) => seq![PlayerCommand::Play(s), PlayerCommand::Seek(s.position)],
            None => Seq::empty(),
        },
        NetworkMessage::Play(s) => seq![PlayerCommand::Play(s)],
        NetworkMessage::PlayPause => seq![PlayerCommand::PlayPause],
        NetworkMessage::Next(s) => seq![PlayerCommand::Play(s)],
        NetworkMessage::Previous(s) => seq![PlayerCommand::Play(s)],
        NetworkMessage::PlayLater(s) => seq![PlayerCommand::PlayLater(s)],
        NetworkMessage::PlayNext(s) => seq![PlayerCommand::PlayNext(s)],
        _ => Seq::empty(),
    }
}

/// The commands a message from the host asks of the listener's player.
pub fn apply_event(m: NetworkMessage) -> (cmds: Vec<PlayerCommand>)
    requires
        actionable(m),
    ensures
        cmds@ == commands_for(m),
{
    let ghost m0 = m;
    let mut cmds: Vec<PlayerCommand> = Vec::new();
    match m {
        NetworkMessage::Message { msg } => cmds.push(PlayerCommand::Show(msg)),
        NetworkMessage::Seek { position } => {
            let pos = parse_u64(position.as_str());
            match pos {
                Some(p) => cmds.push(PlayerCommand::Seek(p)),
                None => {},
            }
        },
        NetworkMessage::CurrentState { song } => match song {
            Some(s) => {
                let position = s.position;
                cmds.push(PlayerCommand::Play(s));
                cmds.push(PlayerCommand::Seek(position));
            },
            None => {},
        },
        NetworkMessage::Play(s) => cmds.push(PlayerCommand::Play(s)),
        NetworkMessage::PlayPause => cmds.push(PlayerCommand::PlayPause),
        NetworkMessage::Next(s) => cmds.push(PlayerCommand::Play(s)),
        NetworkMessage::Previous(s) => cmds.push(PlayerCommand::Play(s)),
        NetworkMessage::PlayLater(s) => cmds.push(PlayerCommand::PlayLater(s)),
        NetworkMessage::PlayNext(s) => cmds.push(PlayerCommand::PlayNext(s)),
        _ => {},
    }
    assert(cmds@ =~= commands_for(m0));
    cmds
}

/// Why joining a session failed.
#[derive(Debug, PartialEq, Eq, Clone, Copy)]
pub enum JoinError {
    /// The host refused the session code.
    AuthenticationFailed,
    /// The host's first answer was some other protocol message.
    UnexpectedAuthResponse,
    /// The host's first answer was no protocol message.
    MalformedAuthResponse,
}

/// Where a listener's session with the host stands.
#[derive(Debug, PartialEq, Eq, Clone, Copy)]
pub enum ClientPhase {
    /// The code was sent; waiting for the host's answer.
    AwaitingAuthReply,
    /// Authenticated: every message from the host is acted on.
    Syncing,
    /// The session is over.
    Done,
}

/// What the listener receives from the host.
#[derive(Debug, PartialEq, Eq, Clone)]
pub enum ClientEvent {
    /// A line arrived; `None` when it is no protocol message.
    Line(Option<NetworkMessage>),
    /// The host closed the connection.
    HostClosed,
}

/// What the listener does about one event.
#[derive(Debug, PartialEq, Eq)]
pub enum ClientReaction {
    /// Nothing to do.
    Idle,
    /// The host accepted the code; synchronisation starts.
    Authenticated,
    /// Run these commands on the listener's player.
    Apply(Vec<PlayerCommand>),
    /// The line was no protocol message; it is skipped.
    SkipMalformed,
    /// The session ends with this outcome.
    Finish(Result<(), JoinError>),
}

/// The spec-level reaction of a listener's session.
pub enum Reaction {
    Idle,
    Authenticated,
    Apply(Seq<PlayerCommand>),
    SkipMalformed,
    Finish(Result<(), JoinError>),
}

/// The model of an executable reaction.
pub open spec fn reaction_model(r: ClientReaction) -> Reaction {
    match r {
        ClientReaction::Idle => Reaction::Idle,
        ClientReaction::Authenticated => Reaction::Authenticated,
        ClientReaction::Apply(v) => Reaction::Apply(v@),
        ClientReaction::SkipMalformed => Reaction::SkipMalformed,
        ClientReaction::Finish(r) => Reaction::Finish(r),
    }
}

/// Whether an event can be taken in a phase: a message to act on must be
/// actionable.
pub open spec fn client_can_take(phase: ClientPhase, ev: ClientEvent) -> bool {
    phase == ClientPhase::Syncing ==> (ev matches ClientEvent::Line(Some(m)) ==> actionable(m))
}

/// The next phase and the reaction of a listener's session when `ev`
/// happens in phase `phase`.
pub open spec fn client_next(phase: ClientPhase, ev: ClientEvent) -> (ClientPhase, Reaction) {
    match phase {
        ClientPhase::AwaitingAuthReply => match ev {
            ClientEvent::Line(Some(NetworkMessage::AuthOk)) => (
                ClientPhase::Syncing,
                Reaction::Authenticated,
            ),
            ClientEvent::Line(Some(NetworkMessage::AuthFail)) => (
                ClientPhase::Done,
                Reaction::Finish(Err(JoinError::AuthenticationFailed)),
            ),
            ClientEvent::Line(Some(_)) => (
                ClientPhase::Done,
                Reaction::Finish(Err(JoinError::UnexpectedAuthResponse)),
            ),
            _ => (ClientPhase::Done, Reaction::Finish(Err(JoinError::MalformedAuthResponse))),
        },
        ClientPhase::Syncing => match ev {
            ClientEvent::Line(Some(m)) => (ClientPhase::Syncing, Reaction::Apply(commands_for(m))),
            ClientEvent::Line(None) => (ClientPhase::Syncing, Reaction::SkipMalformed),
            ClientEvent::HostClosed => (ClientPhase::Done, Reaction::Finish(Ok(()))),
        },
        ClientPhase::Done => (ClientPhase::Done, Reaction::Idle),
    }
}

/// A listener's session with the host.
pub struct ClientSession {
    pub phase: ClientPhase,
}

impl ClientSession {
    /// A session whose code has just been sent.
    pub fn new() -> (s: ClientSession)
        ensures
            s.phase == ClientPhase::AwaitingAuthReply,
    {
        ClientSession { phase: ClientPhase::AwaitingAuthReply }
    }

    /// Takes one event from the host and gives the reaction to it.
    pub fn step(&mut self, ev: ClientEvent) -> (r: ClientReaction)
        requires
            client_can_take(old(self).phase, ev),
        ensures
            (final(self).phase, reaction_model(r)) == client_next(old(self).phase, ev),
    {
        match self.phase {
            ClientPhase::AwaitingAuthReply => {
                self.phase = ClientPhase::Done;
                match ev {
                    ClientEvent::Line(Some(NetworkMessage::AuthOk)) => {
                        self.phase = ClientPhase::Syncing;
                        ClientReaction::Authenticated
                    },
                    ClientEvent::Line(Some(NetworkMessage::AuthFail)) => ClientReaction::Finish(
                        Err(JoinError::AuthenticationFailed),
                    ),
                    ClientEvent::Line(Some(_)) => ClientReaction::Finish(
                        Err(JoinError::UnexpectedAuthResponse),
                    ),
                    _ => ClientReaction::Finish(Err(JoinError::MalformedAuthResponse)),
                }
            },
            ClientPhase::Syncing => match ev {
                ClientEvent::Line(Some(m)) => ClientReaction::Apply(apply_event(m)),
                ClientEvent::Line(None) => ClientReaction::SkipMalformed,
                ClientEvent::HostClosed => {
                    self.phase = ClientPhase::Done;
                    ClientReaction::Finish(Ok(()))
                },
            },
            ClientPhase::Done => ClientReaction::Idle,
        }
    }
}

} // verus!
