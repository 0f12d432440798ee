//! The handle by which the rest of the program addresses a session.

use crate::error::Error;
use crate::error::ErrorView;
use crate::protocol::SessionCommand;
use vstd::prelude::*;

verus! {

/// What became of a query that was sent to a session.
#[derive(Debug, PartialEq, Eq)]
pub enum Delivery<T> {
    /// The session's queue was closed: the session is gone.
    Closed,
    /// The session took the query and ended without answering.
    Dropped,
    /// The session answered.
    Answered(T),
}

/// What the voice transport reports to a session's handle.
#[derive(Debug, Clone, Copy, PartialEq, Eq)]
pub enum TransportEvent {
    /// The bot itself was disconnected from the voice channel.
    DriverDisconnect,
    /// A participant left the voice channel.
    ClientDisconnect {
        /// The user who left.
        user_id: u64,
    },
    /// Anything else.
    Other,
}

/// The state of a question that the disconnect callback puts to the
/// session.
#[derive(Debug, PartialEq, Eq)]
pub enum Asked<T> {
    /// The question was not put yet.
    NotYet,
    /// The question was put and not answered: the session is gone.
    Failed,
    /// The session's answer.
    Answered(T),
}

/// How far the disconnect callback has come.
#[derive(Debug, PartialEq, Eq)]
pub struct BridgeProgress {
    /// Whether the session is active.
    pub active: Asked<bool>,
    /// Who owns the session.
    pub owner: Asked<u64>,
}

/// What the disconnect callback does next.
#[derive(Debug, Clone, Copy, PartialEq, Eq)]
pub enum BridgeStep {
    /// Put this question to the session and enter the answer into the
    /// progress.
    Ask(SessionCommand),
    /// The callback is done.
    Done {
        /// The command to send to the session first, if any.
        command: Option<SessionCommand>,
        /// Whether the transport is to drop this callback.
        cancel: bool,
    },
}

/// The message of a query that did not reach the session or was not
/// answered.
pub open spec fn channel_closed() -> Seq<char> {
    "channel closed"@
}

impl<T> Delivery<T> {
    /// The answer, or the failure to get one.
    pub fn result(self) -> (result: Result<T, Error>)
        ensures
            match self {
                Delivery::Answered(answer) => result == Ok::<T, Error>(answer),
                _ => result matches Err(error) && error@ == ErrorView::Other(channel_closed()),
            },
    {
        match self {
            Delivery::Answered(answer) => Ok(answer),
            _ => Err(Error::Other(String::from_str("channel closed"))),
        }
    }
}

/// A cheap, copyable capability for one session.
///
/// It names the session (guild, voice channel, text channel) and the
/// endpoint of the queue on which the session receives its commands.  The
/// handle stores nothing about the session's state: whether it is still
/// valid is decided from the endpoint each time it is asked.
#[derive(Debug, Clone, Copy, PartialEq, Eq, Hash)]
pub struct SessionHandle {
    /// The guild the session plays in.
    pub guild: u64,
    /// The voice channel the session is connected to.
    pub voice_channel: u64,
    /// The text channel the session reports to.
    pub text_channel: u64,
    /// The sending end of the session's command queue.
    pub endpoint: u64,
}

impl SessionHandle {
    /// A handle for the session of `guild` that is reached through `endpoint`.
    pub fn new(guild: u64, voice_channel: u64, text_channel: u64, endpoint: u64) -> (handle: Self)
        ensures
            handle == (SessionHandle { guild, voice_channel, text_channel, endpoint }),
    {
        SessionHandle { guild, voice_channel, text_channel, endpoint }
    }

    /// Whether the handle still reaches a session: it does exactly as long
    /// as its endpoint is not closed.
    pub fn is_valid(&self, endpoint_closed: bool) -> (valid: bool)
        ensures
            valid == !endpoint_closed,
    {
        !endpoint_closed
    }

    /// What the disconnect callback does next.
    ///
    /// A handle that is no longer valid has its callback dropped.  When the
    /// bot itself was disconnected the session is told to disconnect,
    /// whoever is in the channel.  When a participant left, the session is
    /// told to shut its audio producer down, and only if it is active and
    /// the participant is its owner: for that the callback asks first
    /// whether the session is active, then for its owner.  Nothing else
    /// concerns the session.
    pub open spec fn spec_act(
        self,
        endpoint_closed: bool,
        event: TransportEvent,
        progress: BridgeProgress,
    ) -> BridgeStep {
        if endpoint_closed {
            BridgeStep::Done { command: None, cancel: true }
        } else {
            match event {
                TransportEvent::DriverDisconnect => BridgeStep::Done {
                    command: Some(SessionCommand::Disconnect),
                    cancel: false,
                },
                TransportEvent::ClientDisconnect { user_id } => match progress.active {
                    Asked::NotYet => BridgeStep::Ask(SessionCommand::GetActive),
                    Asked::Answered(true) => match progress.owner {
                        Asked::NotYet => BridgeStep::Ask(SessionCommand::GetOwner),
                        Asked::Answered(owner) if owner == user_id => BridgeStep::Done {
                            command: Some(SessionCommand::ShutdownPlayer),
                            cancel: false,
                        },
                        _ => BridgeStep::Done { command: None, cancel: false },
                    },
                    _ => BridgeStep::Done { command: None, cancel: false },
                },
                TransportEvent::Other => BridgeStep::Done { command: None, cancel: false },
            }
        }
    }

    /// Says what the disconnect callback does next, given what the voice
    /// transport reported and what the session has answered so far.
    pub fn act(
        &self,
        endpoint_closed: bool,
        event: TransportEvent,
        progress: &BridgeProgress,
    ) -> (step: BridgeStep)
        ensures
            step == self.spec_act(endpoint_closed, event, *progress),
    {
        if !self.is_valid(endpoint_closed) {
            return BridgeStep::Done { command: None, cancel: true };
        }
        match event {
            TransportEvent::DriverDisconnect => BridgeStep::Done {
                command: Some(SessionCommand::Disconnect),
                cancel: false,
            },
            TransportEvent::ClientDisconnect { user_id } => match &progress.active {
                Asked::NotYet => BridgeStep::Ask(SessionCommand::GetActive),
                Asked::Answered(true) => match &progress.owner {
                    Asked::NotYet => BridgeStep::Ask(SessionCommand::GetOwner),
                    Asked::Answered(owner) => if *owner == user_id {
                        BridgeStep::Done {
                            command: Some(SessionCommand::ShutdownPlayer),
                            cancel: false,
                        }
                    } else {
                        BridgeStep::Done { command: None, cancel: false }
                    },
                    Asked::Failed => BridgeStep::Done { command: None, cancel: false },
                },
                _ => BridgeStep::Done { command: None, cancel: false },
            },
            TransportEvent::Other => BridgeStep::Done { command: None, cancel: false },
        }
    }

    /// The owner of the session, from what became of the query for it.
    pub fn owner(&self, delivery: Delivery<u64>) -> (owner: Result<u64, Error>)
        ensures
            match delivery {
                Delivery::Answered(id) => owner == Ok::<u64, Error>(id),
                _ => owner matches Err(error) && error@ == ErrorView::Other(channel_closed()),
            },
    {
        delivery.result()
    }

    /// The generation of the session's audio producer, from what became of
    /// the query for it.
    pub fn player(&self, delivery: Delivery<u64>) -> (player: Result<u64, Error>)
        ensures
            match delivery {
                Delivery::Answered(generation) => player == Ok::<u64, Error>(generation),
                _ => player matches Err(error) && error@ == ErrorView::Other(channel_closed()),
            },
    {
        delivery.result()
    }

    /// Whether the session is active, from what became of the query for it.
    pub fn active(&self, delivery: Delivery<bool>) -> (active: Result<bool, Error>)
        ensures
            match delivery {
                Delivery::Answered(answer) => active == Ok::<bool, Error>(answer),
                _ => active matches Err(error) && error@ == ErrorView::Other(channel_closed()),
            },
    {
        delivery.result()
    }

    /// How a reactivation ended, from what became of the command: the
    /// session's own answer if there is one.
    pub fn reactivate(&self, delivery: Delivery<Result<(), Error>>) -> (outcome: Result<(), Error>)
        ensures
            match delivery {
                Delivery::Answered(answer) => outcome == answer,
                _ => outcome matches Err(error) && error@ == ErrorView::Other(channel_closed()),
            },
    {
        match delivery.result() {
            Ok(answer) => answer,
            Err(error) => Err(error),
        }
    }

    /// The command that asks the session for a "now playing" display, or
    /// the failure to reach the session.
    pub fn create_playback_embed(&self, endpoint_closed: bool) -> (command: Result<
        SessionCommand,
        Error,
    >)
        ensures
            !endpoint_closed ==> command == Ok::<SessionCommand, Error>(
                SessionCommand::CreatePlaybackEmbed,
            ),
            endpoint_closed ==> (command matches Err(error) && error@ == ErrorView::Other(
                channel_closed(),
            )),
    {
        if endpoint_closed {
            Err(Error::Other(String::from_str("channel closed")))
        } else {
            Ok(SessionCommand::CreatePlaybackEmbed)
        }
    }

    /// The command that asks the session for a lyrics display, or the
    /// failure to reach the session.
    pub fn create_lyrics_embed(&self, endpoint_closed: bool) -> (command: Result<
        SessionCommand,
        Error,
    >)
        ensures
            !endpoint_closed ==> command == Ok::<SessionCommand, Error>(
                SessionCommand::CreateLyricsEmbed,
            ),
            endpoint_closed ==> (command matches Err(error) && error@ == ErrorView::Other(
                channel_closed(),
            )),
    {
        if endpoint_closed {
            Err(Error::Other(String::from_str("channel closed")))
        } else {
            Ok(SessionCommand::CreateLyricsEmbed)
        }
    }

    /// The command that tells the session to shut its audio producer down
    /// and keep the voice connection, so that another user can take the
    /// session over.  A session that is gone is told nothing, and that is
    /// no error.
    pub fn shutdown_player(&self, endpoint_closed: bool) -> (command: Option<SessionCommand>)
        ensures
            command == if endpoint_closed {
                None
            } else {
                Some(SessionCommand::ShutdownPlayer)
            },
    {
        if endpoint_closed {
            None
        } else {
            Some(SessionCommand::ShutdownPlayer)
        }
    }

    /// The command that tells the session to end.  A session that is gone
    /// is told nothing, and that is no error: disconnecting twice is
    /// disconnecting once.
    pub fn disconnect(&self, endpoint_closed: bool) -> (command: Option<SessionCommand>)
        ensures
            command == if endpoint_closed {
                None
            } else {
                Some(SessionCommand::Disconnect)
            },
    {
        if endpoint_closed {
            None
        } else {
            Some(SessionCommand::Disconnect)
        }
    }

    /// The guild the session plays in.
    pub fn guild(&self) -> (id: u64)
        ensures
            id == self.guild,
    {
        self.guild
    }

    /// The voice channel the session is connected to.
    pub fn voice_channel(&self) -> (id: u64)
        ensures
            id == self.voice_channel,
    {
        self.voice_channel
    }

    /// The text channel the session reports to.
    pub fn text_channel(&self) -> (id: u64)
        ensures
            id == self.text_channel,
    {
        self.text_channel
    }
}

} // verus!
