//! The session: one voice connection, one audio producer, one owner.
//!
//! A [`Session`] is the state of one music session, and [`Session::run`] is
//! its transition function.  The session is driven from outside: the driver
//! waits on the session's queues, hands each message to `run`, performs what
//! the returned [`Turn`] asks for, and at the end hands the session to
//! [`Session::teardown`].

use crate::config::DISCONNECT_TIME;
use crate::handle::SessionHandle;
use crate::manager::Registry;
use crate::manager::SessionManager;
use crate::manager::SessionQuery;
use crate::error::Error;
use crate::error::ErrorView;
use crate::protocol::device_name;
use crate::protocol::no_account_linked;
use crate::protocol::Effect;
use crate::protocol::EmbedOutcome;
use crate::protocol::Input;
use crate::protocol::Notice;
use crate::protocol::PlayerEvent;
use crate::protocol::PlayerOutcome;
use crate::protocol::Reply;
use crate::protocol::ReplyView;
use crate::protocol::Request;
use crate::protocol::RequestView;
use crate::protocol::SessionCommand;
use crate::protocol::TokenOutcome;
use crate::protocol::Turn;
use crate::protocol::TurnView;
use vstd::prelude::*;

verus! {

/// The outside work that a session is waiting for.
#[derive(Debug, Clone, Copy, PartialEq, Eq)]
pub enum Pending {
    /// None: the session takes commands and events.
    Nothing,
    /// A reactivation waits for the access token.
    Token {
        /// The user who asked to become owner.
        new_owner: u64,
    },
    /// A reactivation waits for the new audio producer.
    Player {
        /// The user who asked to become owner.
        new_owner: u64,
    },
    /// The "now playing" display is being created.
    PlaybackEmbed,
    /// The lyrics display is being created.
    LyricsEmbed,
    /// The "now playing" display is being refreshed.
    EmbedUpdate,
    /// The "now playing" display is being refreshed for the last time: the
    /// audio producer has lost its connection, and the session ends with
    /// the outcome of the refresh.
    LastEmbedUpdate,
}

/// The state of one session.
///
/// A session is active exactly while an audio producer is attached; the
/// producers of one session are told apart by their generation.  At most one
/// idle timer is pending, under a token that no earlier pending timer of the
/// session had last.
#[derive(Debug, PartialEq, Eq)]
pub struct Session {
    /// The handle under which the session is registered and reached.
    pub handle: SessionHandle,
    /// The user who controls the session, or did last.
    pub owner: u64,
    /// Whether an audio producer is attached.
    pub active: bool,
    /// The generation of the audio producer that is attached, or was last.
    pub player: u64,
    /// The token of the pending idle timer.
    pub timeout: Option<u64>,
    /// The token that was given out last.
    pub timer_seq: u64,
    /// The attached "now playing" display.
    pub playback_embed: Option<u64>,
    /// The attached lyrics display.
    pub lyrics_embed: Option<u64>,
    /// The outside work that the session is waiting for.
    pub pending: Pending,
    /// Whether the session has ended.
    pub stopped: bool,
}

/// What one input makes of a session and of the registry.
pub struct Step {
    /// The session afterwards.
    pub session: Session,
    /// The registry afterwards.
    pub registry: Registry,
    /// What the driver is to do.
    pub turn: TurnView,
}

/// What an input makes of a session when the registry plays no part.
pub struct Change {
    /// The session afterwards.
    pub session: Session,
    /// What the driver is to do.
    pub turn: TurnView,
}

impl Change {
    /// The step that makes this change and leaves the registry as it is.
    pub open spec fn beside(self, registry: Registry) -> Step {
        Step { session: self.session, registry, turn: self.turn }
    }
}

/// The number after `n`, starting over at zero after the largest.
pub open spec fn following(n: u64) -> u64 {
    if n == u64::MAX {
        0
    } else {
        (n + 1) as u64
    }
}

impl Session {
    /// The session of `owner` in a guild, right after its audio producer
    /// has started and before its idle timer has.
    pub open spec fn initial(handle: SessionHandle, owner: u64) -> Session {
        Session {
            handle,
            owner,
            active: true,
            player: 0,
            timeout: None,
            timer_seq: 0,
            playback_embed: None,
            lyrics_embed: None,
            pending: Pending::Nothing,
            stopped: false,
        }
    }

    /// The session after its idle timer was stopped.
    pub open spec fn timeout_stopped(self) -> Session {
        Session { timeout: None, ..self }
    }

    /// What stopping the idle timer takes: cancelling the pending one.
    pub open spec fn stop_timeout_effects(self) -> Seq<Effect> {
        match self.timeout {
            Some(token) => seq![Effect::CancelTimeout(token)],
            None => seq![],
        }
    }

    /// The session after its idle timer was started anew.
    pub open spec fn timeout_started(self) -> Session {
        Session {
            timeout: Some(following(self.timer_seq)),
            timer_seq: following(self.timer_seq),
            ..self
        }
    }

    /// What starting the idle timer takes: cancelling the pending one, then
    /// starting one under the following token.
    pub open spec fn start_timeout_effects(self) -> Seq<Effect> {
        self.stop_timeout_effects().push(
            Effect::StartTimeout { token: following(self.timer_seq), seconds: DISCONNECT_TIME },
        )
    }

    /// The session after its audio producer was shut down: it is idle, and
    /// its idle timer runs anew.
    pub open spec fn player_shut_down(self) -> Session {
        Session { active: false, ..self.timeout_started() }
    }

    /// What shutting the audio producer down takes.
    pub open spec fn shutdown_player_effects(self) -> Seq<Effect> {
        seq![Effect::ShutdownPlayer(self.player)] + self.start_timeout_effects()
    }

    /// What disconnecting takes: the idle timer is cancelled, the queues are
    /// closed and the voice channel is left.
    pub open spec fn disconnect_effects(self) -> Seq<Effect> {
        self.stop_timeout_effects() + seq![Effect::CloseQueues, Effect::LeaveCall]
    }

    /// Whether the session takes an input.
    ///
    /// A session that has ended takes none.  While outside work is pending
    /// it takes the outcome of that work and nothing else.  Otherwise it
    /// takes commands, and while it is active the events of its audio
    /// producer.
    pub open spec fn accepts(self, input: Input) -> bool {
        !self.stopped && match self.pending {
            Pending::Nothing => match input {
                Input::Command(_) => true,
                Input::CommandsClosed => true,
                Input::Event(_) => self.active,
                Input::EventsClosed => self.active,
                _ => false,
            },
            Pending::Token { .. } => input is Token,
            Pending::Player { .. } => input is Player,
            Pending::PlaybackEmbed => input is PlaybackEmbed,
            Pending::LyricsEmbed => input is LyricsEmbed,
            Pending::EmbedUpdate => input is EmbedUpdated,
            Pending::LastEmbedUpdate => input is EmbedUpdated,
        }
    }

    /// Whether the session is over for everyone but itself: it has ended,
    /// or it ends as soon as the last refresh of its display is done.  Such
    /// a session takes no command and no event.
    pub open spec fn ending(self) -> bool {
        self.stopped || self.pending is LastEmbedUpdate
    }

    /// What a command makes of the session.
    pub open spec fn on_command(self, registry: Registry, command: SessionCommand) -> Step {
        match command {
            SessionCommand::GetOwner => Step {
                session: self,
                registry,
                turn: TurnView {
                    reply: Some(ReplyView::Owner(self.owner)),
                    ..TurnView::nothing(false)
                },
            },
            SessionCommand::GetPlayer => Step {
                session: self,
                registry,
                turn: TurnView {
                    reply: Some(ReplyView::Player(self.player)),
                    ..TurnView::nothing(false)
                },
            },
            SessionCommand::GetActive => Step {
                session: self,
                registry,
                turn: TurnView {
                    reply: Some(ReplyView::Active(self.active)),
                    ..TurnView::nothing(false)
                },
            },
            SessionCommand::CreatePlaybackEmbed => Step {
                session: Session { pending: Pending::PlaybackEmbed, ..self },
                registry,
                turn: TurnView {
                    request: Some(RequestView::CreatePlaybackEmbed),
                    ..TurnView::nothing(false)
                },
            },
            SessionCommand::CreateLyricsEmbed => Step {
                session: Session { pending: Pending::LyricsEmbed, ..self },
                registry,
                turn: TurnView {
                    request: Some(RequestView::CreateLyricsEmbed),
                    ..TurnView::nothing(false)
                },
            },
            SessionCommand::Reactivate(new_owner) => if self.active {
                Step {
                    session: self,
                    registry,
                    turn: TurnView {
                        reply: Some(ReplyView::Reactivated(Err(ErrorView::AlreadyActive))),
                        ..TurnView::nothing(false)
                    },
                }
            } else {
                Step {
                    session: Session { pending: Pending::Token { new_owner }, ..self },
                    registry,
                    turn: TurnView {
                        request: Some(RequestView::FetchToken),
                        ..TurnView::nothing(false)
                    },
                }
            },
            SessionCommand::ShutdownPlayer => Step {
                session: self.player_shut_down(),
                registry: registry.remove(SessionQuery::Owner(self.owner)),
                turn: TurnView {
                    effects: self.shutdown_player_effects(),
                    ..TurnView::nothing(false)
                },
            },
            SessionCommand::Disconnect => Step {
                session: Session { stopped: true, ..self.timeout_stopped() },
                registry,
                turn: TurnView { effects: self.disconnect_effects(), ..TurnView::nothing(true) },
            },
            SessionCommand::DisconnectTimedOut => Step {
                session: Session { stopped: true, ..self.timeout_stopped() },
                registry,
                turn: TurnView {
                    effects: self.disconnect_effects().push(Effect::SendNotice(Notice::Inactive)),
                    ..TurnView::nothing(true)
                },
            },
        }
    }

    /// What an event of the audio producer does to the session itself.
    pub open spec fn after_event(self, event: PlayerEvent) -> Session {
        match event {
            PlayerEvent::Play => self.timeout_stopped(),
            PlayerEvent::Pause => self.timeout_started(),
            PlayerEvent::Stopped => self.player_shut_down(),
            PlayerEvent::TrackChanged => self,
            PlayerEvent::ConnectionReset => self.timeout_stopped(),
        }
    }

    /// What an event of the audio producer takes.
    pub open spec fn event_effects(self, event: PlayerEvent) -> Seq<Effect> {
        match event {
            PlayerEvent::Play => self.stop_timeout_effects(),
            PlayerEvent::Pause => self.start_timeout_effects(),
            PlayerEvent::Stopped => self.shutdown_player_effects(),
            PlayerEvent::TrackChanged => seq![],
            PlayerEvent::ConnectionReset => self.disconnect_effects().push(
                Effect::SendNotice(Notice::ConnectionLost),
            ),
        }
    }

    /// What an event of the audio producer makes of the session.  After any
    /// event an attached "now playing" display is refreshed, by force unless
    /// only the track changed.
    ///
    /// A lost connection is the end of the session: nothing is tried again.
    /// Without a display the session ends with this turn.  With one the
    /// display is refreshed once more, and the session ends with the
    /// outcome; until then it takes nothing else.
    pub open spec fn on_event(self, registry: Registry, event: PlayerEvent) -> Step {
        Step {
            session: Session {
                pending: if self.playback_embed is None {
                    self.pending
                } else if event is ConnectionReset {
                    Pending::LastEmbedUpdate
                } else {
                    Pending::EmbedUpdate
                },
                stopped: if event is ConnectionReset && self.playback_embed is None {
                    true
                } else {
                    self.stopped
                },
                ..self.after_event(event)
            },
            registry: if event is Stopped {
                registry.remove(SessionQuery::Owner(self.owner))
            } else {
                registry
            },
            turn: TurnView {
                effects: self.event_effects(event),
                reply: None,
                request: match self.playback_embed {
                    Some(embed) => Some(
                        RequestView::UpdatePlaybackEmbed { embed, force: !(event is TrackChanged) },
                    ),
                    None => None,
                },
                stop: event is ConnectionReset && self.playback_embed is None,
            },
        }
    }

    /// What the answer of the credential store makes of a reactivation.
    pub open spec fn on_token(self, outcome: TokenOutcome) -> Change {
        match outcome {
            TokenOutcome::Found(token) => Change {
                session: Session {
                    pending: Pending::Player { new_owner: self.pending->Token_new_owner },
                    ..self
                },
                turn: TurnView {
                    request: Some(
                        RequestView::CreatePlayer { token: token@, device_name: device_name() },
                    ),
                    ..TurnView::nothing(false)
                },
            },
            TokenOutcome::Missing => Change {
                session: Session { pending: Pending::Nothing, ..self },
                turn: TurnView {
                    reply: Some(
                        ReplyView::Reactivated(Err(ErrorView::Other(no_account_linked()))),
                    ),
                    ..TurnView::nothing(false)
                },
            },
            TokenOutcome::Failed(message) => Change {
                session: Session { pending: Pending::Nothing, ..self },
                turn: TurnView {
                    reply: Some(ReplyView::Reactivated(Err(ErrorView::Storage(message@)))),
                    ..TurnView::nothing(false)
                },
            },
        }
    }

    /// The error for a producer that could not be started.
    pub open spec fn player_failure(bad_credentials: bool, message: Seq<char>) -> ErrorView {
        if bad_credentials {
            ErrorView::AuthenticationFailed
        } else {
            ErrorView::Librespot(message)
        }
    }

    /// What the start of the new audio producer makes of a reactivation.
    /// Owner, producer and activity change together, and only on success;
    /// with them the new owner enters the registry.
    pub open spec fn on_player(self, registry: Registry, outcome: PlayerOutcome) -> Step {
        match outcome {
            PlayerOutcome::Started => Step {
                session: Session {
                    owner: self.pending->Player_new_owner,
                    player: following(self.player),
                    active: true,
                    pending: Pending::Nothing,
                    ..self
                },
                registry: registry.set_owner(self.pending->Player_new_owner, self.handle),
                turn: TurnView {
                    reply: Some(ReplyView::Reactivated(Ok(()))),
                    ..TurnView::nothing(false)
                },
            },
            PlayerOutcome::Failed { bad_credentials, message } => Step {
                session: Session { pending: Pending::Nothing, ..self },
                registry,
                turn: TurnView {
                    reply: Some(
                        ReplyView::Reactivated(
                            Err(Session::player_failure(bad_credentials, message@)),
                        ),
                    ),
                    ..TurnView::nothing(false)
                },
            },
        }
    }

    /// What letting go of the attached "now playing" display takes.
    pub open spec fn detach_effects(self) -> Seq<Effect> {
        match self.playback_embed {
            Some(embed) => seq![Effect::DetachPlaybackEmbed(embed)],
            None => seq![],
        }
    }

    /// What the creation of a "now playing" display makes of the session.
    /// A display that was created, or the lack of one, takes the place of
    /// the attached display; a failure leaves it attached.
    pub open spec fn on_playback_embed(self, outcome: EmbedOutcome) -> Change {
        match outcome {
            EmbedOutcome::Created(embed) => Change {
                session: Session {
                    playback_embed: Some(embed),
                    pending: Pending::Nothing,
                    ..self
                },
                turn: TurnView { effects: self.detach_effects(), ..TurnView::nothing(false) },
            },
            EmbedOutcome::Skipped => Change {
                session: Session { playback_embed: None, pending: Pending::Nothing, ..self },
                turn: TurnView { effects: self.detach_effects(), ..TurnView::nothing(false) },
            },
            EmbedOutcome::Failed => Change {
                session: Session { pending: Pending::Nothing, ..self },
                turn: TurnView::nothing(false),
            },
        }
    }

    /// What the creation of a lyrics display makes of the session.  Only a
    /// display that was created takes the place of the attached one, which
    /// is stopped.
    pub open spec fn on_lyrics_embed(self, outcome: EmbedOutcome) -> Change {
        match outcome {
            EmbedOutcome::Created(embed) => Change {
                session: Session { lyrics_embed: Some(embed), pending: Pending::Nothing, ..self },
                turn: TurnView {
                    effects: match self.lyrics_embed {
                        Some(current) => seq![Effect::AbortLyrics(current)],
                        None => seq![],
                    },
                    ..TurnView::nothing(false)
                },
            },
            _ => Change {
                session: Session { pending: Pending::Nothing, ..self },
                turn: TurnView::nothing(false),
            },
        }
    }

    /// What the refresh of the "now playing" display makes of the session.
    /// A display that could not be refreshed is detached.  Where this was
    /// the last refresh, after the connection was lost, the session ends.
    pub open spec fn on_embed_updated(self, refreshed: bool) -> Change {
        Change {
            session: Session {
                playback_embed: if refreshed {
                    self.playback_embed
                } else {
                    None
                },
                pending: Pending::Nothing,
                stopped: self.ending(),
                ..self
            },
            turn: TurnView {
                effects: if refreshed {
                    seq![]
                } else {
                    self.detach_effects()
                },
                ..TurnView::nothing(self.pending is LastEmbedUpdate)
            },
        }
    }

    /// What one input makes of the session and of the registry.
    ///
    /// An input that the session does not take changes nothing and asks for
    /// nothing.
    pub open spec fn step(self, registry: Registry, input: Input) -> Step {
        if !self.accepts(input) {
            Step { session: self, registry, turn: TurnView::nothing(self.stopped) }
        } else {
            match input {
                Input::Command(command) => self.on_command(registry, command),
                Input::CommandsClosed => Step {
                    session: Session { stopped: true, ..self },
                    registry,
                    turn: TurnView::nothing(true),
                },
                Input::Event(event) => self.on_event(registry, event),
                Input::EventsClosed => Step {
                    session: self.player_shut_down(),
                    registry: registry.remove(SessionQuery::Owner(self.owner)),
                    turn: TurnView {
                        effects: self.shutdown_player_effects(),
                        ..TurnView::nothing(false)
                    },
                },
                Input::Token(outcome) => self.on_token(outcome).beside(registry),
                Input::Player(outcome) => self.on_player(registry, outcome),
                Input::PlaybackEmbed(outcome) => self.on_playback_embed(outcome).beside(registry),
                Input::LyricsEmbed(outcome) => self.on_lyrics_embed(outcome).beside(registry),
                Input::EmbedUpdated(refreshed) => self.on_embed_updated(refreshed).beside(registry),
            }
        }
    }

    /// What ending the session takes, whatever made it end: the idle timer
    /// is cancelled, the lyrics display is stopped and the voice channel is
    /// left.
    pub open spec fn teardown_effects(self) -> Seq<Effect> {
        self.stop_timeout_effects() + match self.lyrics_embed {
            Some(lyrics) => seq![Effect::AbortLyrics(lyrics)],
            None => seq![],
        } + seq![Effect::LeaveCall]
    }
}

/// The number after `n`, starting over at zero after the largest.
fn follow(n: u64) -> (m: u64)
    ensures
        m == following(n),
{
    if n == u64::MAX {
        0
    } else {
        n + 1
    }
}

impl Session {
    /// Stops the idle timer: a pending one is cancelled.  What is to be
    /// done for it is added to `effects`.
    pub fn stop_timeout(&mut self, effects: &mut Vec<Effect>)
        ensures
            *final(self) == old(self).timeout_stopped(),
            final(effects)@ == old(effects)@ + old(self).stop_timeout_effects(),
    {
        match self.timeout {
            Some(token) => {
                effects.push(Effect::CancelTimeout(token));
            },
            None => {},
        }
        self.timeout = None;
        assert(effects@ =~= old(effects)@ + old(self).stop_timeout_effects());
    }

    /// Starts the idle timer anew: a pending one is cancelled first, so
    /// that never two run at a time.  What is to be done for it is added to
    /// `effects`.
    pub fn start_timeout(&mut self, effects: &mut Vec<Effect>)
        ensures
            *final(self) == old(self).timeout_started(),
            final(effects)@ == old(effects)@ + old(self).start_timeout_effects(),
    {
        self.stop_timeout(effects);
        let token: u64 = follow(self.timer_seq);
        self.timeout = Some(token);
        self.timer_seq = token;
        effects.push(Effect::StartTimeout { token, seconds: DISCONNECT_TIME });
        assert(effects@ =~= old(effects)@ + old(self).start_timeout_effects());
    }

    /// Shuts the audio producer down and keeps the voice connection, so
    /// that another user can take the session over.  The owner leaves the
    /// registry; the guild's entry stays.
    pub fn shutdown_player(&mut self, manager: &mut SessionManager, effects: &mut Vec<Effect>)
        ensures
            *final(self) == old(self).player_shut_down(),
            final(manager)@ == old(manager)@.remove(SessionQuery::Owner(old(self).owner)),
            final(effects)@ == old(effects)@ + old(self).shutdown_player_effects(),
    {
        effects.push(Effect::ShutdownPlayer(self.player));
        self.start_timeout(effects);
        self.active = false;
        manager.remove_session(SessionQuery::Owner(self.owner));
        assert(effects@ =~= old(effects)@ + old(self).shutdown_player_effects());
    }

    /// Disconnects: the idle timer is cancelled, the queues are closed and
    /// the voice channel is left.
    pub fn disconnect(&mut self, effects: &mut Vec<Effect>)
        ensures
            *final(self) == old(self).timeout_stopped(),
            final(effects)@ == old(effects)@ + old(self).disconnect_effects(),
    {
        self.stop_timeout(effects);
        effects.push(Effect::CloseQueues);
        effects.push(Effect::LeaveCall);
        assert(effects@ =~= old(effects)@ + old(self).disconnect_effects());
    }

    /// Begins a reactivation.  It is refused, with no effect at all, while
    /// the session is active; otherwise the access token is asked for.
    pub fn reactivate(&mut self, new_owner: u64) -> (turn: Turn)
        ensures
            old(self).active ==> *final(self) == *old(self) && turn@ == (TurnView {
                reply: Some(ReplyView::Reactivated(Err(ErrorView::AlreadyActive))),
                ..TurnView::nothing(false)
            }),
            !old(self).active ==> *final(self) == (Session {
                pending: Pending::Token { new_owner },
                ..*old(self)
            }) && turn@ == (TurnView {
                request: Some(RequestView::FetchToken),
                ..TurnView::nothing(false)
            }),
    {
        if self.active {
            return Turn::answer(Reply::Reactivated(Err(Error::AlreadyActive)));
        }
        self.pending = Pending::Token { new_owner };
        Turn::ask(Request::FetchToken)
    }

    /// Carries a command out, whatever state the session is in.  Whether
    /// a command is taken at all is decided by [`Session::run`].
    pub fn handle_command(
        &mut self,
        manager: &mut SessionManager,
        command: SessionCommand,
    ) -> (turn: Turn)
        ensures
            *final(self) == old(self).on_command(old(manager)@, command).session,
            final(manager)@ == old(self).on_command(old(manager)@, command).registry,
            turn@ == old(self).on_command(old(manager)@, command).turn,
    {
        match command {
            SessionCommand::GetOwner => Turn::answer(Reply::Owner(self.owner)),
            SessionCommand::GetPlayer => Turn::answer(Reply::Player(self.player)),
            SessionCommand::GetActive => Turn::answer(Reply::Active(self.active)),
            SessionCommand::CreatePlaybackEmbed => {
                self.pending = Pending::PlaybackEmbed;
                Turn::ask(Request::CreatePlaybackEmbed)
            },
            SessionCommand::CreateLyricsEmbed => {
                self.pending = Pending::LyricsEmbed;
                Turn::ask(Request::CreateLyricsEmbed)
            },
            SessionCommand::Reactivate(new_owner) => self.reactivate(new_owner),
            SessionCommand::ShutdownPlayer => {
                let mut effects: Vec<Effect> = Vec::new();
                self.shutdown_player(manager, &mut effects);
                assert(effects@ =~= old(self).shutdown_player_effects());
                Turn::perform(effects, false)
            },
            SessionCommand::Disconnect => {
                let mut effects: Vec<Effect> = Vec::new();
                self.disconnect(&mut effects);
                self.stopped = true;
                assert(effects@ =~= old(self).disconnect_effects());
                Turn::perform(effects, true)
            },
            SessionCommand::DisconnectTimedOut => {
                let mut effects: Vec<Effect> = Vec::new();
                self.disconnect(&mut effects);
                effects.push(Effect::SendNotice(Notice::Inactive));
                self.stopped = true;
                assert(effects@ =~= old(self).disconnect_effects().push(
                    Effect::SendNotice(Notice::Inactive),
                ));
                Turn::perform(effects, true)
            },
        }
    }

    /// Reacts to an event of the audio producer, whatever state the
    /// session is in.  Whether an event is taken at all is decided by
    /// [`Session::run`].  A lost connection ends the session.
    pub fn handle_event(&mut self, manager: &mut SessionManager, event: PlayerEvent) -> (turn: Turn)
        ensures
            *final(self) == old(self).on_event(old(manager)@, event).session,
            final(manager)@ == old(self).on_event(old(manager)@, event).registry,
            turn@ == old(self).on_event(old(manager)@, event).turn,
    {
        let mut effects: Vec<Effect> = Vec::new();
        match event {
            PlayerEvent::Play => self.stop_timeout(&mut effects),
            PlayerEvent::Pause => self.start_timeout(&mut effects),
            PlayerEvent::Stopped => self.shutdown_player(manager, &mut effects),
            PlayerEvent::TrackChanged => {},
            PlayerEvent::ConnectionReset => {
                self.disconnect(&mut effects);
                effects.push(Effect::SendNotice(Notice::ConnectionLost));
            },
        }
        assert(effects@ =~= old(self).event_effects(event));
        let force: bool = match event {
            PlayerEvent::TrackChanged => false,
            _ => true,
        };
        let lost: bool = match event {
            PlayerEvent::ConnectionReset => true,
            _ => false,
        };
        match self.playback_embed {
            Some(embed) => {
                self.pending = if lost {
                    Pending::LastEmbedUpdate
                } else {
                    Pending::EmbedUpdate
                };
                Turn {
                    effects,
                    reply: None,
                    request: Some(Request::UpdatePlaybackEmbed { embed, force }),
                    stop: false,
                }
            },
            None => {
                if lost {
                    self.stopped = true;
                }
                Turn::perform(effects, lost)
            },
        }
    }

    /// Goes on with a reactivation once the credential store has answered.
    fn token_fetched(&mut self, new_owner: u64, outcome: TokenOutcome) -> (turn: Turn)
        requires
            old(self).pending == (Pending::Token { new_owner }),
        ensures
            *final(self) == old(self).on_token(outcome).session,
            turn@ == old(self).on_token(outcome).turn,
    {
        match outcome {
            TokenOutcome::Found(token) => {
                self.pending = Pending::Player { new_owner };
                Turn::ask(
                    Request::CreatePlayer { token, device_name: String::from_str("Spoticord Bot") },
                )
            },
            TokenOutcome::Missing => {
                self.pending = Pending::Nothing;
                Turn::answer(
                    Reply::Reactivated(
                        Err(Error::Other(String::from_str("No Spotify account linked to bot"))),
                    ),
                )
            },
            TokenOutcome::Failed(message) => {
                self.pending = Pending::Nothing;
                Turn::answer(Reply::Reactivated(Err(Error::Storage(message))))
            },
        }
    }

    /// Ends a reactivation once the new audio producer has started or
    /// failed.
    fn player_created(
        &mut self,
        manager: &mut SessionManager,
        new_owner: u64,
        outcome: PlayerOutcome,
    ) -> (turn: Turn)
        requires
            old(self).pending == (Pending::Player { new_owner }),
        ensures
            *final(self) == old(self).on_player(old(manager)@, outcome).session,
            final(manager)@ == old(self).on_player(old(manager)@, outcome).registry,
            turn@ == old(self).on_player(old(manager)@, outcome).turn,
    {
        self.pending = Pending::Nothing;
        match outcome {
            PlayerOutcome::Started => {
                self.owner = new_owner;
                self.player = follow(self.player);
                self.active = true;
                manager.set_owner(new_owner, self.handle);
                Turn::answer(Reply::Reactivated(Ok(())))
            },
            PlayerOutcome::Failed { bad_credentials, message } => {
                let error = if bad_credentials {
                    Error::AuthenticationFailed
                } else {
                    Error::Librespot(message)
                };
                Turn::answer(Reply::Reactivated(Err(error)))
            },
        }
    }

    /// Lets go of the attached "now playing" display.
    fn detach_playback_embed(&mut self, effects: &mut Vec<Effect>)
        ensures
            *final(self) == (Session { playback_embed: None, ..*old(self) }),
            final(effects)@ == old(effects)@ + old(self).detach_effects(),
    {
        match self.playback_embed {
            Some(embed) => {
                effects.push(Effect::DetachPlaybackEmbed(embed));
            },
            None => {},
        }
        self.playback_embed = None;
        assert(effects@ =~= old(effects)@ + old(self).detach_effects());
    }

    /// Attaches the "now playing" display that was created.
    fn playback_embed_created(&mut self, outcome: EmbedOutcome) -> (turn: Turn)
        ensures
            *final(self) == old(self).on_playback_embed(outcome).session,
            turn@ == old(self).on_playback_embed(outcome).turn,
    {
        self.pending = Pending::Nothing;
        let mut effects: Vec<Effect> = Vec::new();
        match outcome {
            EmbedOutcome::Created(embed) => {
                self.detach_playback_embed(&mut effects);
                self.playback_embed = Some(embed);
            },
            EmbedOutcome::Skipped => {
                self.detach_playback_embed(&mut effects);
            },
            EmbedOutcome::Failed => {},
        }
        assert(effects@ =~= old(self).on_playback_embed(outcome).turn.effects);
        Turn::perform(effects, false)
    }

    /// Attaches the lyrics display that was created.
    fn lyrics_embed_created(&mut self, outcome: EmbedOutcome) -> (turn: Turn)
        ensures
            *final(self) == old(self).on_lyrics_embed(outcome).session,
            turn@ == old(self).on_lyrics_embed(outcome).turn,
    {
        self.pending = Pending::Nothing;
        let mut effects: Vec<Effect> = Vec::new();
        match outcome {
            EmbedOutcome::Created(embed) => {
                match self.lyrics_embed {
                    Some(current) => {
                        effects.push(Effect::AbortLyrics(current));
                    },
                    None => {},
                }
                self.lyrics_embed = Some(embed);
            },
            _ => {},
        }
        assert(effects@ =~= old(self).on_lyrics_embed(outcome).turn.effects);
        Turn::perform(effects, false)
    }

    /// Detaches the "now playing" display if it could not be refreshed, and
    /// ends the session if this was its last refresh.
    fn embed_updated(&mut self, refreshed: bool) -> (turn: Turn)
        ensures
            *final(self) == old(self).on_embed_updated(refreshed).session,
            turn@ == old(self).on_embed_updated(refreshed).turn,
    {
        let last: bool = match self.pending {
            Pending::LastEmbedUpdate => true,
            _ => false,
        };
        if last {
            self.stopped = true;
        }
        self.pending = Pending::Nothing;
        let mut effects: Vec<Effect> = Vec::new();
        if !refreshed {
            self.detach_playback_embed(&mut effects);
        }
        assert(effects@ =~= old(self).on_embed_updated(refreshed).turn.effects);
        Turn::perform(effects, last)
    }

    /// Takes one input: one turn of the session's loop.
    ///
    /// The session and the registry change as [`Session::step`] says, and
    /// the turn that comes back is the one it names.
    pub fn run(&mut self, manager: &mut SessionManager, input: Input) -> (turn: Turn)
        ensures
            *final(self) == old(self).step(old(manager)@, input).session,
            final(manager)@ == old(self).step(old(manager)@, input).registry,
            turn@ == old(self).step(old(manager)@, input).turn,
    {
        if self.stopped {
            return Turn::nothing(true);
        }
        match self.pending {
            Pending::Nothing => match input {
                Input::Command(command) => self.handle_command(manager, command),
                Input::CommandsClosed => {
                    self.stopped = true;
                    Turn::nothing(true)
                },
                Input::Event(event) => if self.active {
                    self.handle_event(manager, event)
                } else {
                    Turn::nothing(false)
                },
                Input::EventsClosed => if self.active {
                    let mut effects: Vec<Effect> = Vec::new();
                    self.shutdown_player(manager, &mut effects);
                    assert(effects@ =~= old(self).shutdown_player_effects());
                    Turn::perform(effects, false)
                } else {
                    Turn::nothing(false)
                },
                _ => Turn::nothing(false),
            },
            Pending::Token { new_owner } => match input {
                Input::Token(outcome) => self.token_fetched(new_owner, outcome),
                _ => Turn::nothing(false),
            },
            Pending::Player { new_owner } => match input {
                Input::Player(outcome) => self.player_created(manager, new_owner, outcome),
                _ => Turn::nothing(false),
            },
            Pending::PlaybackEmbed => match input {
                Input::PlaybackEmbed(outcome) => self.playback_embed_created(outcome),
                _ => Turn::nothing(false),
            },
            Pending::LyricsEmbed => match input {
                Input::LyricsEmbed(outcome) => self.lyrics_embed_created(outcome),
                _ => Turn::nothing(false),
            },
            Pending::EmbedUpdate => match input {
                Input::EmbedUpdated(refreshed) => self.embed_updated(refreshed),
                _ => Turn::nothing(false),
            },
            Pending::LastEmbedUpdate => match input {
                Input::EmbedUpdated(refreshed) => self.embed_updated(refreshed),
                _ => Turn::nothing(false),
            },
        }
    }

    /// Ends the session for good, whatever made its loop end.
    ///
    /// The session is used up, so this happens once.  Afterwards the
    /// registry has an entry neither for the guild nor for the owner.
    pub fn teardown(self, manager: &mut SessionManager) -> (effects: Vec<Effect>)
        ensures
            final(manager)@ == old(manager)@.forget(self.handle.guild, self.owner),
            effects@ == self.teardown_effects(),
    {
        let mut session = self;
        let mut effects: Vec<Effect> = Vec::new();
        session.stop_timeout(&mut effects);
        match session.lyrics_embed {
            Some(lyrics) => {
                effects.push(Effect::AbortLyrics(lyrics));
            },
            None => {},
        }
        effects.push(Effect::LeaveCall);
        manager.remove_session(SessionQuery::Guild(session.handle.guild));
        manager.remove_session(SessionQuery::Owner(session.owner));
        assert(effects@ =~= self.teardown_effects());
        effects
    }

    /// Whether the session's loop waits for events of the audio producer:
    /// it does while the session is active.
    pub fn polls_events(&self) -> (polls: bool)
        ensures
            polls == self.active,
    {
        self.active
    }
}

} // verus!
