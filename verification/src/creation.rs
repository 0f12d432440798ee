//! How a session comes to be: the steps of joining a voice channel.
//!
//! Creating a session takes four pieces of outside work, in this order:
//! resolving the text channel, fetching the access token, joining the voice
//! channel, starting the audio producer.  [`Session::create`] reads how far
//! this has come and says what is next.

use crate::error::Error;
use crate::handle::SessionHandle;
use crate::error::ErrorView;
use crate::protocol::device_name;
use crate::protocol::no_account_linked;
use crate::protocol::Effect;
use crate::protocol::PlayerOutcome;
use crate::protocol::TokenOutcome;
use crate::session::Pending;
use crate::session::Session;
use vstd::prelude::*;

verus! {

/// What resolving the text channel gave.
#[derive(Debug, PartialEq, Eq)]
pub enum ChannelOutcome {
    /// A text channel of a guild.
    Guild,
    /// A channel of another kind.
    Other,
    /// The chat service failed, with its message.
    Failed(String),
}

/// How joining the voice channel ended.
#[derive(Debug, PartialEq, Eq)]
pub enum JoinOutcome {
    /// The voice connection stands.
    Joined,
    /// The voice transport refused, with its message.
    Failed(String),
}

/// How far the creation of a session has come: the outcome of each piece
/// of outside work that was done.
#[derive(Debug, PartialEq, Eq)]
pub struct CreateProgress {
    /// What resolving the text channel gave.
    pub channel: Option<ChannelOutcome>,
    /// What the credential store answered.
    pub token: Option<TokenOutcome>,
    /// How joining the voice channel ended.
    pub call: Option<JoinOutcome>,
    /// How starting the audio producer ended.
    pub player: Option<PlayerOutcome>,
}

/// Outside work that the creation of a session asks for.
#[derive(Debug, PartialEq, Eq)]
pub enum CreateRequest {
    /// Find out what kind of channel this is.
    ResolveChannel(u64),
    /// Ask the credential store for the current access token.
    FetchToken,
    /// Join a voice channel.
    JoinCall {
        /// The guild of the channel.
        guild: u64,
        /// The voice channel.
        channel: u64,
    },
    /// Start an audio producer on the voice connection.
    CreatePlayer {
        /// The access token to log in with.
        token: String,
        /// The name under which the producer shows up as a device.
        device_name: String,
    },
}

/// Where the creation of a session goes next.
#[derive(Debug, PartialEq, Eq)]
pub enum CreateNext {
    /// This outside work is to be done, and its outcome entered into the
    /// progress.
    Request(CreateRequest),
    /// The creation has failed.
    Failed(Error),
    /// The session exists.
    Ready(Session),
}

/// What is to be done next for a session that is being created.
#[derive(Debug, PartialEq, Eq)]
pub struct CreateStep {
    /// The effects to perform first, in this order.
    pub effects: Vec<Effect>,
    /// Where the creation goes after them.
    pub next: CreateNext,
}

/// A [`CreateRequest`] with its texts as sequences of characters.
pub enum CreateRequestView {
    ResolveChannel(u64),
    FetchToken,
    JoinCall { guild: u64, channel: u64 },
    CreatePlayer { token: Seq<char>, device_name: Seq<char> },
}

/// A [`CreateNext`] with its texts as sequences of characters.
pub enum CreateNextView {
    Request(CreateRequestView),
    Failed(ErrorView),
    Ready(Session),
}

/// A [`CreateStep`] with its texts as sequences of characters.
pub struct CreateStepView {
    pub effects: Seq<Effect>,
    pub next: CreateNextView,
}

impl View for CreateRequest {
    type V = CreateRequestView;

    open spec fn view(&self) -> CreateRequestView {
        match self {
            CreateRequest::ResolveChannel(channel) => CreateRequestView::ResolveChannel(*channel),
            CreateRequest::FetchToken => CreateRequestView::FetchToken,
            CreateRequest::JoinCall { guild, channel } => CreateRequestView::JoinCall {
                guild: *guild,
                channel: *channel,
            },
            CreateRequest::CreatePlayer { token, device_name } => CreateRequestView::CreatePlayer {
                token: token@,
                device_name: device_name@,
            },
        }
    }
}

impl View for CreateNext {
    type V = CreateNextView;

    open spec fn view(&self) -> CreateNextView {
        match self {
            CreateNext::Request(request) => CreateNextView::Request(request@),
            CreateNext::Failed(error) => CreateNextView::Failed(error@),
            CreateNext::Ready(session) => CreateNextView::Ready(*session),
        }
    }
}

impl View for CreateStep {
    type V = CreateStepView;

    open spec fn view(&self) -> CreateStepView {
        CreateStepView { effects: self.effects@, next: self.next@ }
    }
}

impl CreateProgress {
    /// The progress before any work was done.
    pub fn new() -> (progress: Self)
        ensures
            progress == (CreateProgress { channel: None, token: None, call: None, player: None }),
    {
        CreateProgress { channel: None, token: None, call: None, player: None }
    }
}

impl CreateStepView {
    /// The step that asks for outside work.
    pub open spec fn request(request: CreateRequestView) -> CreateStepView {
        CreateStepView { effects: seq![], next: CreateNextView::Request(request) }
    }

    /// The step that gives the creation up.
    pub open spec fn failed(error: ErrorView) -> CreateStepView {
        CreateStepView { effects: seq![], next: CreateNextView::Failed(error) }
    }
}

impl Session {
    /// What is next in creating the session of `owner` in a guild.
    ///
    /// The work is asked for in its order, each piece once the one before
    /// has succeeded, and the first failure ends the creation with its
    /// error.  A text channel that is no guild channel is invalid; a store
    /// without a linked account fails with a message of its own.  Once the
    /// voice channel is joined the bot is deafened and disconnects are
    /// watched, and only then is the audio producer started.  A producer
    /// that fails takes the voice connection with it: the channel is left
    /// before the error is returned, and the error tells rejected
    /// credentials from other failures.  A producer that starts makes the
    /// session: active, owned by `owner`, reached through `endpoint`, with
    /// its idle timer started.
    pub open spec fn spec_create(
        guild_id: u64,
        voice_channel_id: u64,
        text_channel_id: u64,
        owner: u64,
        endpoint: u64,
        progress: CreateProgress,
    ) -> CreateStepView {
        let handle = SessionHandle {
            guild: guild_id,
            voice_channel: voice_channel_id,
            text_channel: text_channel_id,
            endpoint,
        };
        match progress.channel {
            None => CreateStepView::request(CreateRequestView::ResolveChannel(text_channel_id)),
            Some(ChannelOutcome::Failed(message)) => CreateStepView::failed(
                ErrorView::Serenity(message@),
            ),
            Some(ChannelOutcome::Other) => CreateStepView::failed(ErrorView::InvalidChannel),
            Some(ChannelOutcome::Guild) => match progress.token {
                None => CreateStepView::request(CreateRequestView::FetchToken),
                Some(TokenOutcome::Missing) => CreateStepView::failed(
                    ErrorView::Other(no_account_linked()),
                ),
                Some(TokenOutcome::Failed(message)) => CreateStepView::failed(
                    ErrorView::Storage(message@),
                ),
                Some(TokenOutcome::Found(token)) => match progress.call {
                    None => CreateStepView::request(
                        CreateRequestView::JoinCall { guild: guild_id, channel: voice_channel_id },
                    ),
                    Some(JoinOutcome::Failed(message)) => CreateStepView::failed(
                        ErrorView::JoinError(message@),
                    ),
                    Some(JoinOutcome::Joined) => match progress.player {
                        None => CreateStepView {
                            effects: seq![Effect::Deafen, Effect::WatchDisconnects],
                            next: CreateNextView::Request(
                                CreateRequestView::CreatePlayer {
                                    token: token@,
                                    device_name: device_name(),
                                },
                            ),
                        },
                        Some(PlayerOutcome::Failed { bad_credentials, message }) => CreateStepView {
                            effects: seq![Effect::LeaveCall],
                            next: CreateNextView::Failed(
                                Session::player_failure(bad_credentials, message@),
                            ),
                        },
                        Some(PlayerOutcome::Started) => CreateStepView {
                            effects: Session::initial(handle, owner).start_timeout_effects(),
                            next: CreateNextView::Ready(
                                Session::initial(handle, owner).timeout_started(),
                            ),
                        },
                    },
                },
            },
        }
    }

    /// Says what is next in creating the session of `owner` in a guild,
    /// given how far the creation has come.
    pub fn create(
        guild_id: u64,
        voice_channel_id: u64,
        text_channel_id: u64,
        owner: u64,
        endpoint: u64,
        progress: &CreateProgress,
    ) -> (step: CreateStep)
        ensures
            step@ == Session::spec_create(
                guild_id,
                voice_channel_id,
                text_channel_id,
                owner,
                endpoint,
                *progress,
            ),
    {
        match &progress.channel {
            None => {
                return Session::create_request(CreateRequest::ResolveChannel(text_channel_id));
            },
            Some(ChannelOutcome::Failed(message)) => {
                return Session::create_failed(Error::Serenity(message.clone()));
            },
            Some(ChannelOutcome::Other) => {
                return Session::create_failed(Error::InvalidChannel);
            },
            Some(ChannelOutcome::Guild) => {},
        }
        let token: String = match &progress.token {
            None => {
                return Session::create_request(CreateRequest::FetchToken);
            },
            Some(TokenOutcome::Missing) => {
                return Session::create_failed(
                    Error::Other(String::from_str("No Spotify account linked to bot")),
                );
            },
            Some(TokenOutcome::Failed(message)) => {
                return Session::create_failed(Error::Storage(message.clone()));
            },
            Some(TokenOutcome::Found(token)) => token.clone(),
        };
        match &progress.call {
            None => {
                return Session::create_request(
                    CreateRequest::JoinCall { guild: guild_id, channel: voice_channel_id },
                );
            },
            Some(JoinOutcome::Failed(message)) => {
                return Session::create_failed(Error::JoinError(message.clone()));
            },
            Some(JoinOutcome::Joined) => {},
        }
        let mut effects: Vec<Effect> = Vec::new();
        match &progress.player {
            None => {
                effects.push(Effect::Deafen);
                effects.push(Effect::WatchDisconnects);
                assert(effects@ =~= seq![Effect::Deafen, Effect::WatchDisconnects]);
                CreateStep {
                    effects,
                    next: CreateNext::Request(
                        CreateRequest::CreatePlayer {
                            token,
                            device_name: String::from_str("Spoticord Bot"),
                        },
                    ),
                }
            },
            Some(PlayerOutcome::Failed { bad_credentials, message }) => {
                effects.push(Effect::LeaveCall);
                assert(effects@ =~= seq![Effect::LeaveCall]);
                let error = if *bad_credentials {
                    Error::AuthenticationFailed
                } else {
                    Error::Librespot(message.clone())
                };
                CreateStep { effects, next: CreateNext::Failed(error) }
            },
            Some(PlayerOutcome::Started) => {
                let handle = SessionHandle::new(
                    guild_id,
                    voice_channel_id,
                    text_channel_id,
                    endpoint,
                );
                let mut session = Session {
                    handle,
                    owner,
                    active: true,
                    player: 0,
                    timeout: None,
                    timer_seq: 0,
                    playback_embed: None,
                    lyrics_embed: None,
                    pending: Pending::Nothing,
                    stopped: false,
                };
                session.start_timeout(&mut effects);
                assert(effects@ =~= Session::initial(handle, owner).start_timeout_effects());
                CreateStep { effects, next: CreateNext::Ready(session) }
            },
        }
    }

    /// The step that asks for outside work.
    fn create_request(request: CreateRequest) -> (step: CreateStep)
        ensures
            step@ == CreateStepView::request(request@),
    {
        CreateStep { effects: Vec::new(), next: CreateNext::Request(request) }
    }

    /// The step that gives the creation up.
    fn create_failed(error: Error) -> (step: CreateStep)
        ensures
            step@ == CreateStepView::failed(error@),
    {
        CreateStep { effects: Vec::new(), next: CreateNext::Failed(error) }
    }
}

} // verus!
