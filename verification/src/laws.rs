//! What holds of every session, proved from the transition function.
//!
//! The session only asks for effects; the timers and the audio producers
//! themselves run outside it.  To speak of them the laws keep a picture of
//! the outside: which timers and which producers are running.  Performing
//! an effect changes the picture, and so does starting a producer on the
//! session's request.

use crate::creation::CreateProgress;
use crate::error::ErrorView;
use crate::handle::BridgeProgress;
use crate::handle::BridgeStep;
use crate::handle::SessionHandle;
use crate::handle::TransportEvent;
use crate::manager::Registry;
use crate::manager::SessionQuery;
use crate::protocol::Effect;
use crate::protocol::Input;
use crate::protocol::Notice;
use crate::protocol::PlayerEvent;
use crate::protocol::PlayerOutcome;
use crate::protocol::ReplyView;
use crate::protocol::SessionCommand;
use crate::protocol::TokenOutcome;
use crate::protocol::TurnView;
use crate::session::following;
use crate::session::Pending;
use crate::session::Session;
use vstd::prelude::*;

verus! {

/// What runs outside a session on its behalf.
pub struct Outside {
    /// The tokens of the idle timers that are running.
    pub timers: Set<u64>,
    /// The generations of the audio producers that are running.
    pub players: Set<u64>,
}

impl Outside {
    /// The outside after one effect was performed.
    pub open spec fn after_effect(self, effect: Effect) -> Outside {
        match effect {
            Effect::CancelTimeout(token) => Outside { timers: self.timers.remove(token), ..self },
            Effect::StartTimeout { token, .. } => Outside {
                timers: self.timers.insert(token),
                ..self
            },
            Effect::ShutdownPlayer(player) => Outside {
                players: self.players.remove(player),
                ..self
            },
            _ => self,
        }
    }

    /// The outside after effects were performed in their order.
    pub open spec fn after(self, effects: Seq<Effect>) -> Outside
        decreases effects.len(),
    {
        if effects.len() == 0 {
            self
        } else {
            self.after(effects.drop_last()).after_effect(effects.last())
        }
    }

    /// The outside after the driver has done what an input stands for: the
    /// report that a producer has started means that one runs, under the
    /// generation that the session gives it.
    pub open spec fn after_input(self, session: Session, input: Input) -> Outside {
        if session.accepts(input) && input == Input::Player(PlayerOutcome::Started) {
            Outside { players: self.players.insert(following(session.player)), ..self }
        } else {
            self
        }
    }

    /// The outside after one turn of a session: the driver has done what
    /// the input stands for and has performed the effects of the turn.
    pub open spec fn after_turn(self, session: Session, registry: Registry, input: Input) -> Outside {
        self.after_input(session, input).after(session.step(registry, input).turn.effects)
    }

    /// The outside of a session that was just created: its idle timer and
    /// its first audio producer run.
    pub open spec fn of_new_session(session: Session) -> Outside {
        Outside {
            timers: match session.timeout {
                Some(token) => set![token],
                None => Set::empty(),
            },
            players: set![session.player],
        }
    }
}

/// Whether no timer runs but the one that the session holds the token of.
pub open spec fn one_timer(session: Session, outside: Outside) -> bool {
    forall|token: u64| outside.timers.contains(token) ==> session.timeout == Some(token)
}

/// Whether an audio producer runs exactly while the session is active,
/// and then the one of its generation.  While a reactivation is under way
/// the session is idle.
pub open spec fn player_iff_active(session: Session, outside: Outside) -> bool {
    &&& outside.players == if session.active {
        set![session.player]
    } else {
        Set::<u64>::empty()
    }
    &&& (session.pending is Token || session.pending is Player) ==> !session.active
}

/// Whether the registry has the session under its guild, and under its
/// owner exactly while it is active.
pub open spec fn registered(session: Session, registry: Registry) -> bool {
    &&& registry.lookup(SessionQuery::Guild(session.handle.guild)) == Some(session.handle)
    &&& registry.lookup(SessionQuery::Owner(session.owner)) == if session.active {
        Some(session.handle)
    } else {
        None
    }
}

/// The session and the registry after a sequence of inputs.
pub open spec fn run_all(session: Session, registry: Registry, inputs: Seq<Input>) -> (
    Session,
    Registry,
)
    decreases inputs.len(),
{
    if inputs.len() == 0 {
        (session, registry)
    } else {
        let (before, entries) = run_all(session, registry, inputs.drop_last());
        let step = before.step(entries, inputs.last());
        (step.session, step.registry)
    }
}

proof fn lemma_after_push(outside: Outside, effects: Seq<Effect>, effect: Effect)
    ensures
        outside.after(effects.push(effect)) == outside.after(effects).after_effect(effect),
{
    assert(effects.push(effect).drop_last() =~= effects);
}

proof fn lemma_after_concat(outside: Outside, first: Seq<Effect>, second: Seq<Effect>)
    ensures
        outside.after(first + second) == outside.after(first).after(second),
    decreases second.len(),
{
    if second.len() == 0 {
        assert(first + second =~= first);
    } else {
        assert((first + second).drop_last() =~= first + second.drop_last());
        lemma_after_concat(outside, first, second.drop_last());
    }
}

proof fn lemma_after_stop(session: Session, outside: Outside)
    requires
        one_timer(session, outside),
    ensures
        outside.after(session.stop_timeout_effects()) == (Outside {
            timers: Set::empty(),
            ..outside
        }),
{
    let empty = Seq::<Effect>::empty();
    match session.timeout {
        Some(token) => {
            lemma_after_push(outside, empty, Effect::CancelTimeout(token));
            assert(outside.timers.remove(token) =~= Set::<u64>::empty());
        },
        None => {
            assert(outside.timers =~= Set::<u64>::empty());
        },
    }
}

proof fn lemma_after_start(session: Session, outside: Outside)
    requires
        one_timer(session, outside),
    ensures
        outside.after(session.start_timeout_effects()) == (Outside {
            timers: set![following(session.timer_seq)],
            ..outside
        }),
{
    lemma_after_stop(session, outside);
    lemma_after_push(
        outside,
        session.stop_timeout_effects(),
        Effect::StartTimeout {
            token: following(session.timer_seq),
            seconds: crate::config::DISCONNECT_TIME,
        },
    );
    assert(Set::<u64>::empty().insert(following(session.timer_seq)) =~= set![
        following(session.timer_seq),
    ]);
}

proof fn lemma_after_shutdown(session: Session, outside: Outside)
    requires
        one_timer(session, outside),
    ensures
        outside.after(session.shutdown_player_effects()) == (Outside {
            timers: set![following(session.timer_seq)],
            players: outside.players.remove(session.player),
        }),
{
    let first = seq![Effect::ShutdownPlayer(session.player)];
    lemma_after_concat(outside, first, session.start_timeout_effects());
    lemma_after_push(outside, Seq::<Effect>::empty(), Effect::ShutdownPlayer(session.player));
    lemma_after_start(session, outside.after(first));
}

proof fn lemma_after_disconnect(session: Session, outside: Outside)
    requires
        one_timer(session, outside),
    ensures
        outside.after(session.disconnect_effects()) == (Outside {
            timers: Set::empty(),
            ..outside
        }),
{
    let stopped = outside.after(session.stop_timeout_effects());
    lemma_after_stop(session, outside);
    lemma_after_concat(
        outside,
        session.stop_timeout_effects(),
        seq![Effect::CloseQueues, Effect::LeaveCall],
    );
    lemma_after_push(stopped, Seq::<Effect>::empty(), Effect::CloseQueues);
    lemma_after_push(stopped, seq![Effect::CloseQueues], Effect::LeaveCall);
    assert(seq![Effect::CloseQueues].push(Effect::LeaveCall) =~= seq![
        Effect::CloseQueues,
        Effect::LeaveCall,
    ]);
}

proof fn lemma_after_untouched(outside: Outside, effects: Seq<Effect>)
    requires
        forall|i: int|
            0 <= i < effects.len() ==> {
                &&& !(#[trigger] effects[i] is CancelTimeout)
                &&& !(effects[i] is StartTimeout)
                &&& !(effects[i] is ShutdownPlayer)
            },
    ensures
        outside.after(effects) == outside,
    decreases effects.len(),
{
    if effects.len() > 0 {
        lemma_after_untouched(outside, effects.drop_last());
        assert(effects.last() == effects[effects.len() - 1]);
    }
}

/// The outside after the effects of one turn, for each kind of input.
proof fn lemma_after_turn(session: Session, registry: Registry, input: Input, outside: Outside)
    requires
        one_timer(session, outside),
    ensures
        ({
            let step = session.step(registry, input);
            let then = outside.after_turn(session, registry, input);
            &&& one_timer(step.session, then)
            &&& player_iff_active(session, outside) ==> player_iff_active(step.session, then)
        }),
{
    let step = session.step(registry, input);
    let began = outside.after_input(session, input);
    if !session.accepts(input) {
    } else {
        match input {
            Input::Command(command) => {
                match command {
                    SessionCommand::ShutdownPlayer => {
                        lemma_after_shutdown(session, began);
                        if player_iff_active(session, outside) {
                            assert(began.players.remove(session.player) =~= Set::<u64>::empty());
                        }
                    },
                    SessionCommand::Disconnect => {
                        lemma_after_disconnect(session, began);
                    },
                    SessionCommand::DisconnectTimedOut => {
                        lemma_after_disconnect(session, began);
                        lemma_after_push(
                            began,
                            session.disconnect_effects(),
                            Effect::SendNotice(Notice::Inactive),
                        );
                    },
                    _ => {},
                }
            },
            Input::CommandsClosed => {},
            Input::Event(event) => {
                match event {
                    PlayerEvent::Play => {
                        lemma_after_stop(session, began);
                    },
                    PlayerEvent::Pause => {
                        lemma_after_start(session, began);
                    },
                    PlayerEvent::Stopped => {
                        lemma_after_shutdown(session, began);
                        if player_iff_active(session, outside) {
                            assert(began.players.remove(session.player) =~= Set::<u64>::empty());
                        }
                    },
                    PlayerEvent::TrackChanged => {},
                    PlayerEvent::ConnectionReset => {
                        lemma_after_disconnect(session, began);
                        lemma_after_push(
                            began,
                            session.disconnect_effects(),
                            Effect::SendNotice(Notice::ConnectionLost),
                        );
                    },
                }
            },
            Input::EventsClosed => {
                lemma_after_shutdown(session, began);
                if player_iff_active(session, outside) {
                    assert(began.players.remove(session.player) =~= Set::<u64>::empty());
                }
            },
            Input::Token(_) => {},
            Input::Player(outcome) => {
                if player_iff_active(session, outside) && outcome is Started {
                    assert(Set::<u64>::empty().insert(following(session.player)) =~= set![
                        following(session.player),
                    ]);
                }
            },
            Input::PlaybackEmbed(_) => {
                lemma_after_untouched(began, step.turn.effects);
            },
            Input::LyricsEmbed(_) => {
                lemma_after_untouched(began, step.turn.effects);
            },
            Input::EmbedUpdated(_) => {
                lemma_after_untouched(began, step.turn.effects);
            },
        }
    }
}

/// Never two idle timers run for one session.
///
/// If no timer runs but the one whose token the session holds, then after
/// any input whatever, with the effects of the turn performed, that is
/// still so.
pub proof fn lemma_never_two_timers(
    session: Session,
    registry: Registry,
    input: Input,
    outside: Outside,
)
    requires
        one_timer(session, outside),
    ensures
        one_timer(
            session.step(registry, input).session,
            outside.after_turn(session, registry, input),
        ),
{
    lemma_after_turn(session, registry, input, outside);
}

/// A session is active exactly while an audio producer runs for it.
///
/// If that is so, and no timer runs but the session's, then after any input
/// whatever, with the effects of the turn performed, it is still so.
pub proof fn lemma_active_iff_player_runs(
    session: Session,
    registry: Registry,
    input: Input,
    outside: Outside,
)
    requires
        one_timer(session, outside),
        player_iff_active(session, outside),
    ensures
        player_iff_active(
            session.step(registry, input).session,
            outside.after_turn(session, registry, input),
        ),
{
    lemma_after_turn(session, registry, input, outside);
}

/// A session that was just created has one timer and one audio producer
/// running, is registered under its guild and its owner, and the two
/// entries are the same handle.
pub proof fn lemma_new_session_is_sound(
    guild_id: u64,
    voice_channel_id: u64,
    text_channel_id: u64,
    owner: u64,
    endpoint: u64,
    progress: CreateProgress,
    registry: Registry,
)
    requires
        Session::spec_create(
            guild_id,
            voice_channel_id,
            text_channel_id,
            owner,
            endpoint,
            progress,
        ).next is Ready,
    ensures
        ({
            let session = Session::spec_create(
                guild_id,
                voice_channel_id,
                text_channel_id,
                owner,
                endpoint,
                progress,
            ).next->Ready_0;
            let entries = registry.insert(session.handle, owner);
            &&& session.active
            &&& session.owner == owner
            &&& session.handle == (SessionHandle {
                guild: guild_id,
                voice_channel: voice_channel_id,
                text_channel: text_channel_id,
                endpoint,
            })
            &&& one_timer(session, Outside::of_new_session(session))
            &&& player_iff_active(session, Outside::of_new_session(session))
            &&& registered(session, entries)
        }),
{
}

/// The owner index follows the session: if the registry has the session
/// under its guild, and under its owner exactly while it is active, then
/// after any input whatever that is still so.
pub proof fn lemma_registry_follows_session(session: Session, registry: Registry, input: Input)
    requires
        registered(session, registry),
    ensures
        registered(session.step(registry, input).session, session.step(registry, input).registry),
{
}

/// Starting the idle timer twice leaves one timer running: the one of the
/// second start.  The timer of the first start was cancelled and can no
/// longer end the session.
pub proof fn lemma_start_twice_one_timer(session: Session, outside: Outside)
    requires
        one_timer(session, outside),
    ensures
        ({
            let once = session.timeout_started();
            let twice = once.timeout_started();
            let between = outside.after(session.start_timeout_effects());
            let then = between.after(once.start_timeout_effects());
            &&& then.timers == set![following(once.timer_seq)]
            &&& twice.timeout == Some(following(once.timer_seq))
            &&& once.timeout != twice.timeout
        }),
{
    let once = session.timeout_started();
    let between = outside.after(session.start_timeout_effects());
    lemma_after_start(session, outside);
    assert(one_timer(once, between));
    lemma_after_start(once, between);
}

/// A `Play` event cancels the pending idle timer: afterwards none runs
/// and the session holds no token.
pub proof fn lemma_play_cancels_timer(session: Session, registry: Registry, outside: Outside)
    requires
        one_timer(session, outside),
        session.accepts(Input::Event(PlayerEvent::Play)),
    ensures
        ({
            let input = Input::Event(PlayerEvent::Play);
            &&& session.step(registry, input).session.timeout is None
            &&& outside.after_turn(session, registry, input).timers == Set::<u64>::empty()
        }),
{
    lemma_after_stop(session, outside);
}

/// A `Pause` event starts exactly one idle timer: afterwards one timer
/// runs, under a new token, which the session holds.
pub proof fn lemma_pause_starts_one_timer(session: Session, registry: Registry, outside: Outside)
    requires
        one_timer(session, outside),
        session.accepts(Input::Event(PlayerEvent::Pause)),
    ensures
        ({
            let input = Input::Event(PlayerEvent::Pause);
            &&& session.step(registry, input).session.timeout == Some(
                following(session.timer_seq),
            )
            &&& outside.after_turn(session, registry, input).timers == set![
                following(session.timer_seq),
            ]
        }),
{
    lemma_after_start(session, outside);
}

/// Reactivating an active session is refused with `AlreadyActive`, and
/// neither the session nor the registry changes: owner and audio producer
/// are as before, and nothing is asked of the driver.
pub proof fn lemma_reactivate_active_refused(session: Session, registry: Registry, new_owner: u64)
    requires
        session.active,
        session.accepts(Input::Command(SessionCommand::Reactivate(new_owner))),
    ensures
        ({
            let step = session.step(
                registry,
                Input::Command(SessionCommand::Reactivate(new_owner)),
            );
            &&& step.session == session
            &&& step.registry == registry
            &&& step.turn == (TurnView {
                reply: Some(ReplyView::Reactivated(Err(ErrorView::AlreadyActive))),
                ..TurnView::nothing(false)
            })
        }),
{
}

/// Shutting the audio producer down and then reactivating for a new owner,
/// with an account linked and a producer that starts, gives an active
/// session of the new owner with another audio producer than before, and
/// the new owner is registered.
pub proof fn lemma_shutdown_then_reactivate(
    session: Session,
    registry: Registry,
    new_owner: u64,
    token: String,
)
    requires
        session.accepts(Input::Command(SessionCommand::ShutdownPlayer)),
    ensures
        ({
            let inputs = seq![
                Input::Command(SessionCommand::ShutdownPlayer),
                Input::Command(SessionCommand::Reactivate(new_owner)),
                Input::Token(TokenOutcome::Found(token)),
                Input::Player(PlayerOutcome::Started),
            ];
            let (after, entries) = run_all(session, registry, inputs);
            &&& after.active
            &&& after.owner == new_owner
            &&& after.player != session.player
            &&& after.pending == Pending::Nothing
            &&& entries.lookup(SessionQuery::Owner(new_owner)) == Some(session.handle)
        }),
{
    let shutdown = Input::Command(SessionCommand::ShutdownPlayer);
    let reactivate = Input::Command(SessionCommand::Reactivate(new_owner));
    let found = Input::Token(TokenOutcome::Found(token));
    let started = Input::Player(PlayerOutcome::Started);
    let inputs = seq![shutdown, reactivate, found, started];
    let three = inputs.drop_last();
    let two = three.drop_last();
    let one = two.drop_last();
    assert(three =~= seq![shutdown, reactivate, found]);
    assert(two =~= seq![shutdown, reactivate]);
    assert(one =~= seq![shutdown]);
    assert(one.drop_last() =~= Seq::<Input>::empty());
    assert(run_all(session, registry, one.drop_last()) == (session, registry));
    let idle = session.step(registry, shutdown);
    assert(run_all(session, registry, one) == (idle.session, idle.registry));
    let asked = idle.session.step(idle.registry, reactivate);
    assert(run_all(session, registry, two) == (asked.session, asked.registry));
    let starting = asked.session.step(asked.registry, found);
    assert(run_all(session, registry, three) == (starting.session, starting.registry));
}

/// Inputs never give a session another handle, and never touch the guild
/// index of the registry.
pub proof fn lemma_run_all_keeps_guild(session: Session, registry: Registry, inputs: Seq<Input>)
    ensures
        run_all(session, registry, inputs).0.handle == session.handle,
        run_all(session, registry, inputs).1.sessions == registry.sessions,
    decreases inputs.len(),
{
    if inputs.len() > 0 {
        lemma_run_all_keeps_guild(session, registry, inputs.drop_last());
    }
}

/// Whatever a session went through, once it is torn down the registry has
/// an entry neither for its guild nor for its last owner, and the entries
/// of other guilds are as they were when the session began.
pub proof fn lemma_nothing_registered_after_teardown(
    session: Session,
    registry: Registry,
    inputs: Seq<Input>,
)
    ensures
        ({
            let (last, entries) = run_all(session, registry, inputs);
            let after = entries.forget(last.handle.guild, last.owner);
            &&& after.lookup(SessionQuery::Guild(session.handle.guild)) is None
            &&& after.lookup(SessionQuery::Owner(last.owner)) is None
            &&& after.sessions == registry.sessions.remove(session.handle.guild)
        }),
{
    lemma_run_all_keeps_guild(session, registry, inputs);
}

/// When the owner's audio producer is shut down the session stays where
/// it is: the guild's entry is untouched, the owner's entry is gone, and
/// the session is idle.
pub proof fn lemma_shutdown_keeps_guild_entry(session: Session, registry: Registry)
    requires
        session.accepts(Input::Command(SessionCommand::ShutdownPlayer)),
    ensures
        ({
            let step = session.step(registry, Input::Command(SessionCommand::ShutdownPlayer));
            &&& step.registry.sessions == registry.sessions
            &&& step.registry.lookup(SessionQuery::Owner(session.owner)) is None
            &&& !step.session.active
            &&& !step.turn.stop
        }),
{
}

/// A lost connection is the end of the session.
///
/// The turn cancels the idle timer, closes the queues, leaves the voice
/// channel and sends one notice, in this order.  Without a display the
/// session has ended with this turn.  With one the display is refreshed by
/// force once more, and the session has ended with the turn that takes the
/// outcome, whatever it is.  In between the session is ending.
pub proof fn lemma_connection_reset_is_terminal(
    session: Session,
    registry: Registry,
    refreshed: bool,
)
    requires
        session.accepts(Input::Event(PlayerEvent::ConnectionReset)),
    ensures
        ({
            let step = session.step(registry, Input::Event(PlayerEvent::ConnectionReset));
            let last = step.session.step(step.registry, Input::EmbedUpdated(refreshed));
            &&& step.turn.effects == session.disconnect_effects().push(
                Effect::SendNotice(Notice::ConnectionLost),
            )
            &&& step.registry == registry
            &&& step.session.ending()
            &&& step.session.timeout is None
            &&& session.playback_embed is None ==> step.turn.stop && step.session.stopped
                && step.turn.request is None
            &&& session.playback_embed matches Some(embed) ==> {
                &&& !step.turn.stop
                &&& step.turn.request == Some(
                    crate::protocol::RequestView::UpdatePlaybackEmbed { embed, force: true },
                )
                &&& last.turn.stop
                &&& last.session.stopped
                &&& last.turn.request is None
                &&& last.registry == registry
            }
        }),
{
}

/// A session that is ending takes no command and no event, and no outcome
/// but that of its last refresh: any other input leaves the session and the
/// registry as they are, has no effect, and is not answered.
pub proof fn lemma_ending_session_takes_nothing(
    session: Session,
    registry: Registry,
    input: Input,
)
    requires
        session.ending(),
        !(input is EmbedUpdated),
    ensures
        session.step(registry, input).session == session,
        session.step(registry, input).registry == registry,
        session.step(registry, input).turn == TurnView::nothing(session.stopped),
{
}

/// An ending session asks for nothing and answers nothing: whatever the
/// input, the turn has neither a request nor a reply.  So no access token
/// is fetched and no audio producer is started for it any more.
pub proof fn lemma_ending_session_asks_nothing(
    session: Session,
    registry: Registry,
    input: Input,
)
    requires
        session.ending(),
    ensures
        session.step(registry, input).turn.request is None,
        session.step(registry, input).turn.reply is None,
        session.step(registry, input).session.ending(),
{
}

/// Nothing brings an ending session back: whatever comes after, the session
/// stays ending, its owner and its audio producer stay the same, it waits
/// for no new outside work, and the registry is left alone.
pub proof fn lemma_ending_session_stays(session: Session, registry: Registry, inputs: Seq<Input>)
    requires
        session.ending(),
    ensures
        ({
            let (last, entries) = run_all(session, registry, inputs);
            &&& last.ending()
            &&& last.owner == session.owner
            &&& last.player == session.player
            &&& last.active == session.active
            &&& last.pending == session.pending || last.pending is Nothing
            &&& entries == registry
        }),
    decreases inputs.len(),
{
    if inputs.len() > 0 {
        lemma_ending_session_stays(session, registry, inputs.drop_last());
    }
}

/// A session that has ended takes nothing more: any further input, a
/// second `Disconnect` too, leaves the session and the registry as they
/// are and has no effect.
pub proof fn lemma_ended_session_ignores(session: Session, registry: Registry, input: Input)
    requires
        session.stopped,
    ensures
        session.step(registry, input).session == session,
        session.step(registry, input).registry == registry,
        session.step(registry, input).turn == TurnView::nothing(true),
{
}

/// A `Disconnect` ends the session: the turn tells the driver to stop
/// and to leave the voice channel, and the session is ended from then on.
pub proof fn lemma_disconnect_ends(session: Session, registry: Registry)
    requires
        session.accepts(Input::Command(SessionCommand::Disconnect)),
    ensures
        ({
            let step = session.step(registry, Input::Command(SessionCommand::Disconnect));
            &&& step.turn.stop
            &&& step.session.stopped
            &&& step.turn.effects.contains(Effect::LeaveCall)
            &&& step.turn.effects.contains(Effect::CloseQueues)
            &&& step.registry == registry
        }),
{
    let effects = session.disconnect_effects();
    let n = session.stop_timeout_effects().len() as int;
    assert(effects[n] == Effect::CloseQueues);
    assert(effects[n + 1] == Effect::LeaveCall);
}

/// Forgetting a session twice is forgetting it once.
pub proof fn lemma_forget_idempotent(registry: Registry, guild: u64, owner: u64)
    ensures
        registry.forget(guild, owner).forget(guild, owner) == registry.forget(guild, owner),
{
    let once = registry.forget(guild, owner);
    assert(once.sessions.remove(guild) =~= once.sessions);
    assert(once.owners.remove(owner) =~= once.owners);
}

/// A session that was entered is found under its guild and under its
/// owner, and both lookups give the same handle.
pub proof fn lemma_insert_then_lookup(registry: Registry, handle: SessionHandle, owner: u64)
    ensures
        registry.insert(handle, owner).lookup(SessionQuery::Guild(handle.guild)) == Some(handle),
        registry.insert(handle, owner).lookup(SessionQuery::Owner(owner)) == Some(handle),
{
}

/// When the voice transport reports that the bot was disconnected, a valid
/// handle tells its session to disconnect, without asking anything first.
pub proof fn lemma_forced_disconnect(handle: SessionHandle, progress: BridgeProgress)
    ensures
        handle.spec_act(false, TransportEvent::DriverDisconnect, progress) == (BridgeStep::Done {
            command: Some(SessionCommand::Disconnect),
            cancel: false,
        }),
{
}

} // verus!
