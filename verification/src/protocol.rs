//! What goes into a session and what comes out of it.
//!
//! A session never waits.  Whoever drives it hands it one [`Input`] at a
//! time and gets a [`Turn`] back: the effects to perform, an answer for the
//! caller of a command, and at most one [`Request`] for outside work whose
//! outcome is the next input.

use crate::error::Error;
use crate::error::ErrorView;
use vstd::prelude::*;

verus! {

/// How many commands each of a session's two queues holds at most.
pub const QUEUE_CAPACITY: usize = 16;

/// A command sent to a session through one of its queues.
#[derive(Debug, Clone, Copy, PartialEq, Eq)]
pub enum SessionCommand {
    /// Asks for the current owner.
    GetOwner,
    /// Asks for the current audio producer.
    GetPlayer,
    /// Asks whether an audio producer is attached.
    GetActive,
    /// Attaches a "now playing" display.
    CreatePlaybackEmbed,
    /// Attaches a lyrics display.
    CreateLyricsEmbed,
    /// Hands an idle session to a new owner.
    Reactivate(u64),
    /// Stops the audio producer and keeps the voice connection.
    ShutdownPlayer,
    /// Ends the session.
    Disconnect,
    /// Ends the session because nothing was played for too long.
    DisconnectTimedOut,
}

/// What the audio producer reports.
#[derive(Debug, Clone, Copy, PartialEq, Eq)]
pub enum PlayerEvent {
    /// Playback started or resumed.
    Play,
    /// Playback was paused.
    Pause,
    /// The producer stopped.
    Stopped,
    /// Another track is playing.
    TrackChanged,
    /// The producer's connection to the music service was closed by the
    /// other side.
    ConnectionReset,
}

/// What the credential store answered.
#[derive(Debug, PartialEq, Eq)]
pub enum TokenOutcome {
    /// The access token of the linked account.
    Found(String),
    /// No account is linked.
    Missing,
    /// The store failed, with its message.
    Failed(String),
}

/// How starting an audio producer ended.
#[derive(Debug, PartialEq, Eq)]
pub enum PlayerOutcome {
    /// The producer runs.
    Started,
    /// The producer could not be started.
    Failed {
        /// Whether the music service rejected the credentials.
        bad_credentials: bool,
        /// The producer's message.
        message: String,
    },
}

/// How creating a display ended.
#[derive(Debug, Clone, Copy, PartialEq, Eq)]
pub enum EmbedOutcome {
    /// The display exists, under this name.
    Created(u64),
    /// There was nothing to display.
    Skipped,
    /// The display could not be created.
    Failed,
}

/// One thing that happens to a session.
#[derive(Debug, PartialEq, Eq)]
pub enum Input {
    /// A command arrived on the external or on the internal queue.
    Command(SessionCommand),
    /// The external queue is closed and empty.
    CommandsClosed,
    /// The audio producer reported an event.
    Event(PlayerEvent),
    /// The audio producer's event stream ended.
    EventsClosed,
    /// The outcome of [`Request::FetchToken`].
    Token(TokenOutcome),
    /// The outcome of [`Request::CreatePlayer`].
    Player(PlayerOutcome),
    /// The outcome of [`Request::CreatePlaybackEmbed`].
    PlaybackEmbed(EmbedOutcome),
    /// The outcome of [`Request::CreateLyricsEmbed`].
    LyricsEmbed(EmbedOutcome),
    /// The outcome of [`Request::UpdatePlaybackEmbed`]: whether the display
    /// could be refreshed.
    EmbedUpdated(bool),
}

/// A notice for the session's text channel.
#[derive(Debug, Clone, Copy, PartialEq, Eq)]
pub enum Notice {
    /// The session ended because nothing was played for too long.
    Inactive,
    /// The session ended because the music service closed the connection.
    ConnectionLost,
}

/// Something for the driver to do without reporting back.  Failures are
/// logged and otherwise ignored.
#[derive(Debug, Clone, Copy, PartialEq, Eq)]
pub enum Effect {
    /// Cancel the idle timer with this token, if it still runs.
    CancelTimeout(u64),
    /// Start an idle timer under this token.  If it runs out without being
    /// cancelled, it sends [`SessionCommand::DisconnectTimedOut`] through the
    /// internal queue.
    StartTimeout {
        /// The name of the timer.
        token: u64,
        /// How long the timer runs.
        seconds: u64,
    },
    /// Shut the audio producer of this generation down.
    ShutdownPlayer(u64),
    /// Close the command queue and the event stream for further messages.
    CloseQueues,
    /// Leave the voice channel.
    LeaveCall,
    /// Stop receiving the voice of others.
    Deafen,
    /// Have the voice transport report disconnects to the session's handle.
    WatchDisconnects,
    /// Send a notice to the text channel.
    SendNotice(Notice),
    /// Let go of the "now playing" display with this name.
    DetachPlaybackEmbed(u64),
    /// Stop the lyrics display with this name.
    AbortLyrics(u64),
}

/// The answer to a command, for the one who sent it.
#[derive(Debug, PartialEq, Eq)]
pub enum Reply {
    /// The current owner.
    Owner(u64),
    /// The generation of the current audio producer.
    Player(u64),
    /// Whether an audio producer is attached.
    Active(bool),
    /// How the reactivation ended.
    Reactivated(Result<(), Error>),
}

/// Outside work that a session asks for.  Its outcome is the next input.
#[derive(Debug, PartialEq, Eq)]
pub enum Request {
    /// Ask the credential store for the current access token.
    FetchToken,
    /// Start an audio producer on the voice connection.
    CreatePlayer {
        /// The access token to log in with.
        token: String,
        /// The name under which the producer shows up as a device.
        device_name: String,
    },
    /// Create the "now playing" display.
    CreatePlaybackEmbed,
    /// Create the lyrics display.
    CreateLyricsEmbed,
    /// Refresh the "now playing" display.
    UpdatePlaybackEmbed {
        /// The name of the display.
        embed: u64,
        /// Whether to refresh even if nothing seems to have changed.
        force: bool,
    },
}

/// What a session wants done after one input.
#[derive(Debug, PartialEq, Eq)]
pub struct Turn {
    /// The effects to perform, in this order, before anything else.
    pub effects: Vec<Effect>,
    /// The answer for the sender of the command, if it expects one.
    pub reply: Option<Reply>,
    /// Outside work to do next.  While it is `Some`, the session takes
    /// nothing but the outcome of this work.
    pub request: Option<Request>,
    /// Whether the session has ended: the driver leaves its loop.
    pub stop: bool,
}

/// A [`TokenOutcome`] with its texts as sequences of characters.
pub enum TokenOutcomeView {
    Found(Seq<char>),
    Missing,
    Failed(Seq<char>),
}

impl View for TokenOutcome {
    type V = TokenOutcomeView;

    open spec fn view(&self) -> TokenOutcomeView {
        match self {
            TokenOutcome::Found(token) => TokenOutcomeView::Found(token@),
            TokenOutcome::Missing => TokenOutcomeView::Missing,
            TokenOutcome::Failed(message) => TokenOutcomeView::Failed(message@),
        }
    }
}

/// A [`Reply`] with its texts as sequences of characters.
pub enum ReplyView {
    Owner(u64),
    Player(u64),
    Active(bool),
    Reactivated(Result<(), ErrorView>),
}

/// A [`Request`] with its texts as sequences of characters.
pub enum RequestView {
    FetchToken,
    CreatePlayer { token: Seq<char>, device_name: Seq<char> },
    CreatePlaybackEmbed,
    CreateLyricsEmbed,
    UpdatePlaybackEmbed { embed: u64, force: bool },
}

/// A [`Turn`] with its texts as sequences of characters.
pub struct TurnView {
    pub effects: Seq<Effect>,
    pub reply: Option<ReplyView>,
    pub request: Option<RequestView>,
    pub stop: bool,
}

impl View for Reply {
    type V = ReplyView;

    open spec fn view(&self) -> ReplyView {
        match self {
            Reply::Owner(owner) => ReplyView::Owner(*owner),
            Reply::Player(player) => ReplyView::Player(*player),
            Reply::Active(active) => ReplyView::Active(*active),
            Reply::Reactivated(Ok(())) => ReplyView::Reactivated(Ok(())),
            Reply::Reactivated(Err(error)) => ReplyView::Reactivated(Err(error@)),
        }
    }
}

impl View for Request {
    type V = RequestView;

    open spec fn view(&self) -> RequestView {
        match self {
            Request::FetchToken => RequestView::FetchToken,
            Request::CreatePlayer { token, device_name } => RequestView::CreatePlayer {
                token: token@,
                device_name: device_name@,
            },
            Request::CreatePlaybackEmbed => RequestView::CreatePlaybackEmbed,
            Request::CreateLyricsEmbed => RequestView::CreateLyricsEmbed,
            Request::UpdatePlaybackEmbed { embed, force } => RequestView::UpdatePlaybackEmbed {
                embed: *embed,
                force: *force,
            },
        }
    }
}

impl View for Turn {
    type V = TurnView;

    open spec fn view(&self) -> TurnView {
        TurnView {
            effects: self.effects@,
            reply: match self.reply {
                Some(reply) => Some(reply@),
                None => None,
            },
            request: match self.request {
                Some(request) => Some(request@),
                None => None,
            },
            stop: self.stop,
        }
    }
}

impl Turn {
    /// The turn in which nothing is to be done.
    pub fn nothing(stop: bool) -> (turn: Turn)
        ensures
            turn@ == TurnView::nothing(stop),
    {
        Turn { effects: Vec::new(), reply: None, request: None, stop }
    }

    /// The turn that only answers a command.
    pub fn answer(reply: Reply) -> (turn: Turn)
        ensures
            turn@ == (TurnView { reply: Some(reply@), ..TurnView::nothing(false) }),
    {
        Turn { effects: Vec::new(), reply: Some(reply), request: None, stop: false }
    }

    /// The turn that only asks for outside work.
    pub fn ask(request: Request) -> (turn: Turn)
        ensures
            turn@ == (TurnView { request: Some(request@), ..TurnView::nothing(false) }),
    {
        Turn { effects: Vec::new(), reply: None, request: Some(request), stop: false }
    }

    /// The turn that only has effects.
    pub fn perform(effects: Vec<Effect>, stop: bool) -> (turn: Turn)
        ensures
            turn@ == (TurnView { effects: effects@, ..TurnView::nothing(stop) }),
    {
        Turn { effects, reply: None, request: None, stop }
    }
}

impl TurnView {
    /// The turn in which nothing is to be done.
    pub open spec fn nothing(stop: bool) -> TurnView {
        TurnView { effects: Seq::empty(), reply: None, request: None, stop }
    }
}

/// The name under which the audio producer shows up as a device.
pub open spec fn device_name() -> Seq<char> {
    "Spoticord Bot"@
}

/// The message of the failure to find a linked account.
pub open spec fn no_account_linked() -> Seq<char> {
    "No Spotify account linked to bot"@
}

} // verus!
