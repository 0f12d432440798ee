//! What the playback commands decide.
//!
//! Each command talks to the music service in several requests.  The
//! functions here read how far a command has come and say what it does
//! next; sending the requests and answering the user is left to the caller.

use crate::handle::SessionHandle;
use crate::text::contains;
use crate::text::text_contains;
use vstd::prelude::*;

verus! {

/// How many tracks a search asks for.
pub const SEARCH_LIMIT: u32 = 5;

/// How long what was offered for a typed text is kept, in seconds.
pub const AUTOCOMPLETE_CACHE_SECS: u64 = 300;

/// How long typing has to pause before a search is made, in milliseconds.
pub const DEBOUNCE_MILLIS: u64 = 1000;

/// Whether a playback command can go ahead.
#[derive(Debug, Clone, Copy, PartialEq, Eq)]
pub enum Gate {
    /// There is no session in the guild.
    NoSession,
    /// No music account is linked.
    NoAccount,
    /// The command goes ahead.
    Proceed,
}

/// Decides whether a playback command can go ahead: it needs a session in
/// the guild, and then a linked account.
pub fn gate(session: Option<SessionHandle>, linked: bool) -> (gate: Gate)
    ensures
        gate == if session is None {
            Gate::NoSession
        } else if !linked {
            Gate::NoAccount
        } else {
            Gate::Proceed
        },
{
    match session {
        None => Gate::NoSession,
        Some(_) => if linked {
            Gate::Proceed
        } else {
            Gate::NoAccount
        },
    }
}

/// A player that the music service knows for the account.
#[derive(Debug, PartialEq, Eq)]
pub struct Device {
    /// The name under which the player shows up.
    pub name: String,
    /// Whether the service gave the player an identifier.
    pub has_id: bool,
}

impl Device {
    /// Whether the player is the bot's, going by its name.
    pub open spec fn is_bot(self) -> bool {
        text_contains(self.name@, "Spoticord"@) || text_contains(self.name@, "spoticord"@)
    }

    /// Whether the player is the bot's, going by its name.
    pub fn looks_like_bot(&self) -> (bot: bool)
        ensures
            bot == self.is_bot(),
    {
        contains(self.name.as_str(), "Spoticord") || contains(self.name.as_str(), "spoticord")
    }
}

/// The position of the first player that is the bot's.
pub open spec fn first_bot_device(devices: Seq<Device>) -> Option<int>
    decreases devices.len(),
{
    if devices.len() == 0 {
        None
    } else {
        match first_bot_device(devices.drop_last()) {
            Some(position) => Some(position),
            None => if devices.last().is_bot() {
                Some(devices.len() - 1)
            } else {
                None
            },
        }
    }
}

/// The first bot player stands where the definition says: none before it
/// is the bot's.
pub proof fn lemma_first_bot_device(devices: Seq<Device>)
    ensures
        match first_bot_device(devices) {
            Some(position) => {
                &&& 0 <= position < devices.len()
                &&& devices[position].is_bot()
                &&& forall|before: int| 0 <= before < position ==> !devices[before].is_bot()
            },
            None => forall|at: int| 0 <= at < devices.len() ==> !devices[at].is_bot(),
        },
    decreases devices.len(),
{
    if devices.len() > 0 {
        lemma_first_bot_device(devices.drop_last());
        assert forall|at: int| 0 <= at < devices.len() - 1 implies devices[at]
            == devices.drop_last()[at] by {}
    }
}

/// Finds the first player that is the bot's.
pub fn find_bot_device(devices: &Vec<Device>) -> (found: Option<usize>)
    ensures
        match found {
            Some(position) => first_bot_device(devices@) == Some(position as int),
            None => first_bot_device(devices@) is None,
        },
{
    let mut i: usize = 0;
    while i < devices.len()
        invariant
            i <= devices@.len(),
            forall|before: int| 0 <= before < i ==> !devices@[before].is_bot(),
        decreases devices@.len() - i,
    {
        if devices[i].looks_like_bot() {
            proof {
                lemma_first_bot_device(devices@);
            }
            return Some(i);
        }
        i += 1;
    }
    proof {
        lemma_first_bot_device(devices@);
    }
    None
}

/// What a search for tracks gave.
#[derive(Debug, Clone, Copy, PartialEq, Eq)]
pub enum SearchOutcome {
    /// The search failed.
    Failed,
    /// The service answered with something else than tracks.
    Unexpected,
    /// The service answered with tracks.
    Tracks {
        /// Whether there is a first track.
        found: bool,
    },
}

/// What the service said about the current playback.
#[derive(Debug, Clone, Copy, PartialEq, Eq)]
pub enum PlaybackOutcome {
    /// The request failed.
    Failed,
    /// Nothing is being played anywhere.
    Idle,
    /// A player is in use.
    Active {
        /// Whether it plays right now.
        is_playing: bool,
    },
}

/// What the service said about the players of the account.
#[derive(Debug, PartialEq, Eq)]
pub enum DevicesOutcome {
    /// The request failed.
    Failed,
    /// The players, in the order of the answer.
    Listed(Vec<Device>),
}

/// How far a `play` command has come.
#[derive(Debug, PartialEq, Eq)]
pub struct PlayProgress {
    /// What the search gave.
    pub search: Option<SearchOutcome>,
    /// What the current playback is.
    pub playback: Option<PlaybackOutcome>,
    /// Whether the track could be queued.
    pub queued: Option<bool>,
    /// The players of the account.
    pub devices: Option<DevicesOutcome>,
    /// Whether playback could be moved to the bot's player.
    pub transferred: Option<bool>,
    /// Whether playback of the track could be started directly.
    pub started: Option<bool>,
}

/// Why a track could not be played.
#[derive(Debug, Clone, Copy, PartialEq, Eq)]
pub enum PlayFailure {
    /// The search failed.
    Search,
    /// The search gave something else than tracks.
    Unexpected,
    /// The search found no track.
    NoResults,
    /// The current playback could not be asked for.
    Connection,
    /// The track could not be queued.
    Queue,
    /// The players could not be listed.
    DeviceQuery,
    /// Playback could not be moved to the bot's player.
    Transfer,
    /// The track could not be queued after playback was moved.
    QueueAfterTransfer,
    /// The bot's player was found, but playback could not be started.
    StartOnBotDevice,
    /// Playback could not be started.
    Start,
}

/// What a `play` command does next.
#[derive(Debug, Clone, Copy, PartialEq, Eq)]
pub enum PlayStep {
    /// Search for tracks.
    Search {
        /// How many tracks to ask for.
        limit: u32,
    },
    /// Ask for the current playback.
    CheckPlayback,
    /// Add the first track that was found to the queue.
    Queue {
        /// The position of the player to queue on; the one in use where
        /// none is given.
        device: Option<usize>,
    },
    /// Ask for the players of the account.
    ListDevices,
    /// Move playback to the player at this position, and play.
    Transfer {
        /// The position of the player.
        target: usize,
    },
    /// Start playback of the track directly.
    Start,
    /// The track is queued or playing.
    Played {
        /// Whether playback is to be resumed first, because it was paused.
        resume: bool,
    },
    /// The command has failed.
    Failed(PlayFailure),
}

/// What is next once playback of the track was to be started directly.
pub open spec fn after_start(started: Option<bool>, failure: PlayFailure) -> PlayStep {
    match started {
        None => PlayStep::Start,
        Some(true) => PlayStep::Played { resume: false },
        Some(false) => PlayStep::Failed(failure),
    }
}

/// What is next once the track was to be queued.
pub open spec fn after_queue(
    queued: Option<bool>,
    device: Option<usize>,
    resume: bool,
    failure: PlayFailure,
) -> PlayStep {
    match queued {
        None => PlayStep::Queue { device },
        Some(true) => PlayStep::Played { resume },
        Some(false) => PlayStep::Failed(failure),
    }
}

/// What a `play` command does next.
///
/// The first track of the search is played.  Where a player is in use the
/// track is queued there, and playback resumed if it was paused.  Where
/// none is, the bot's own player is looked for by its name: playback is
/// moved to it and the track queued on it.  Without such a player, or with
/// one that has no identifier, the track is started directly.  The first
/// request that fails ends the command.
pub open spec fn spec_play(progress: PlayProgress) -> PlayStep {
    match progress.search {
        None => PlayStep::Search { limit: SEARCH_LIMIT },
        Some(SearchOutcome::Failed) => PlayStep::Failed(PlayFailure::Search),
        Some(SearchOutcome::Unexpected) => PlayStep::Failed(PlayFailure::Unexpected),
        Some(SearchOutcome::Tracks { found: false }) => PlayStep::Failed(PlayFailure::NoResults),
        Some(SearchOutcome::Tracks { found: true }) => match progress.playback {
            None => PlayStep::CheckPlayback,
            Some(PlaybackOutcome::Failed) => PlayStep::Failed(PlayFailure::Connection),
            Some(PlaybackOutcome::Active { is_playing }) => after_queue(
                progress.queued,
                None,
                !is_playing,
                PlayFailure::Queue,
            ),
            Some(PlaybackOutcome::Idle) => match progress.devices {
                None => PlayStep::ListDevices,
                Some(DevicesOutcome::Failed) => PlayStep::Failed(PlayFailure::DeviceQuery),
                Some(DevicesOutcome::Listed(devices)) => match first_bot_device(devices@) {
                    None => after_start(progress.started, PlayFailure::Start),
                    Some(position) => if devices@[position].has_id {
                        match progress.transferred {
                            None => PlayStep::Transfer { target: position as usize },
                            Some(false) => PlayStep::Failed(PlayFailure::Transfer),
                            Some(true) => after_queue(
                                progress.queued,
                                Some(position as usize),
                                false,
                                PlayFailure::QueueAfterTransfer,
                            ),
                        }
                    } else {
                        after_start(progress.started, PlayFailure::StartOnBotDevice)
                    },
                },
            },
        },
    }
}

/// What is next once playback of the track was to be started directly.
fn start_step(started: Option<bool>, failure: PlayFailure) -> (step: PlayStep)
    ensures
        step == after_start(started, failure),
{
    match started {
        None => PlayStep::Start,
        Some(true) => PlayStep::Played { resume: false },
        Some(false) => PlayStep::Failed(failure),
    }
}

/// What is next once the track was to be queued.
fn queue_step(
    queued: Option<bool>,
    device: Option<usize>,
    resume: bool,
    failure: PlayFailure,
) -> (step: PlayStep)
    ensures
        step == after_queue(queued, device, resume, failure),
{
    match queued {
        None => PlayStep::Queue { device },
        Some(true) => PlayStep::Played { resume },
        Some(false) => PlayStep::Failed(failure),
    }
}

/// Says what a `play` command does next, given how far it has come.
pub fn play(progress: &PlayProgress) -> (step: PlayStep)
    ensures
        step == spec_play(*progress),
{
    match progress.search {
        None => {
            return PlayStep::Search { limit: SEARCH_LIMIT };
        },
        Some(SearchOutcome::Failed) => {
            return PlayStep::Failed(PlayFailure::Search);
        },
        Some(SearchOutcome::Unexpected) => {
            return PlayStep::Failed(PlayFailure::Unexpected);
        },
        Some(SearchOutcome::Tracks { found }) => {
            if !found {
                return PlayStep::Failed(PlayFailure::NoResults);
            }
        },
    }
    match progress.playback {
        None => PlayStep::CheckPlayback,
        Some(PlaybackOutcome::Failed) => PlayStep::Failed(PlayFailure::Connection),
        Some(PlaybackOutcome::Active { is_playing }) => queue_step(
            progress.queued,
            None,
            !is_playing,
            PlayFailure::Queue,
        ),
        Some(PlaybackOutcome::Idle) => match &progress.devices {
            None => PlayStep::ListDevices,
            Some(DevicesOutcome::Failed) => PlayStep::Failed(PlayFailure::DeviceQuery),
            Some(DevicesOutcome::Listed(devices)) => match find_bot_device(devices) {
                None => start_step(progress.started, PlayFailure::Start),
                Some(position) => {
                    proof {
                        lemma_first_bot_device(devices@);
                    }
                    if devices[position].has_id {
                        match progress.transferred {
                            None => PlayStep::Transfer { target: position },
                            Some(false) => PlayStep::Failed(PlayFailure::Transfer),
                            Some(true) => queue_step(
                                progress.queued,
                                Some(position),
                                false,
                                PlayFailure::QueueAfterTransfer,
                            ),
                        }
                    } else {
                        start_step(progress.started, PlayFailure::StartOnBotDevice)
                    }
                },
            },
        },
    }
}

/// What is being played.
#[derive(Debug, Clone, Copy, PartialEq, Eq)]
pub enum CurrentItem {
    /// Nothing.
    Nothing,
    /// An episode of a podcast.
    Episode,
    /// A track.
    Track {
        /// The length of the track in milliseconds.
        duration_ms: i64,
    },
}

/// What the service said about the current playback, for clearing the
/// queue.
#[derive(Debug, Clone, Copy, PartialEq, Eq)]
pub enum ClearPlayback {
    /// The request failed.
    Failed,
    /// Nothing is being played anywhere.
    Idle,
    /// A player is in use, with this item.
    Active(CurrentItem),
}

/// How far a `clear` command has come.
#[derive(Debug, Clone, Copy, PartialEq, Eq)]
pub struct ClearProgress {
    /// What the current playback is.
    pub playback: Option<ClearPlayback>,
    /// Whether the track could be wound forward.
    pub seeked: Option<bool>,
    /// Whether playback could be paused.
    pub paused: Option<bool>,
}

/// Why the queue could not be cleared.
#[derive(Debug, Clone, Copy, PartialEq, Eq)]
pub enum ClearFailure {
    /// The current playback could not be asked for.
    Check,
    /// Nothing is being played.
    NoPlayback,
    /// The player in use has no current item.
    NoTrack,
    /// The current item is an episode of a podcast.
    Unsupported,
    /// The track could not be wound forward.
    Seek,
    /// The track was wound forward, but playback could not be paused.
    Pause,
}

/// What a `clear` command does next.
#[derive(Debug, Clone, Copy, PartialEq, Eq)]
pub enum ClearStep {
    /// Ask for the current playback.
    CheckPlayback,
    /// Wind the current track forward to this position.
    Seek {
        /// The position in milliseconds.
        position_ms: i64,
    },
    /// Pause playback.
    Pause,
    /// The queue counts as cleared.
    Cleared,
    /// The command has failed.
    Failed(ClearFailure),
}

/// The position to wind a track forward to: one second before its end,
/// or its start if it is shorter.  The length is taken as 32 bits without
/// sign, as the service counts it.
pub open spec fn spec_seek_position(duration_ms: i64) -> i64 {
    let length = duration_ms as u32;
    if length >= 1000 {
        (length - 1000) as i64
    } else {
        0
    }
}

/// The position to wind a track of this length forward to.
pub fn seek_position(duration_ms: i64) -> (position_ms: i64)
    ensures
        position_ms == spec_seek_position(duration_ms),
        0 <= duration_ms <= u32::MAX ==> position_ms == if duration_ms >= 1000 {
            duration_ms - 1000
        } else {
            0
        },
{
    let length: u32 = #[verifier::truncate]
    (duration_ms as u32);
    length.saturating_sub(1000) as i64
}

/// What a `clear` command does next.
///
/// The service has no request that empties the queue.  Instead the
/// current track is wound forward to just before its end and playback is
/// paused.  This works for tracks only.
pub open spec fn spec_clear(progress: ClearProgress) -> ClearStep {
    match progress.playback {
        None => ClearStep::CheckPlayback,
        Some(ClearPlayback::Failed) => ClearStep::Failed(ClearFailure::Check),
        Some(ClearPlayback::Idle) => ClearStep::Failed(ClearFailure::NoPlayback),
        Some(ClearPlayback::Active(CurrentItem::Nothing)) => ClearStep::Failed(
            ClearFailure::NoTrack,
        ),
        Some(ClearPlayback::Active(CurrentItem::Episode)) => ClearStep::Failed(
            ClearFailure::Unsupported,
        ),
        Some(ClearPlayback::Active(CurrentItem::Track { duration_ms })) => match progress.seeked {
            None => ClearStep::Seek { position_ms: spec_seek_position(duration_ms) },
            Some(false) => ClearStep::Failed(ClearFailure::Seek),
            Some(true) => match progress.paused {
                None => ClearStep::Pause,
                Some(false) => ClearStep::Failed(ClearFailure::Pause),
                Some(true) => ClearStep::Cleared,
            },
        },
    }
}

/// Says what a `clear` command does next, given how far it has come.
pub fn clear(progress: &ClearProgress) -> (step: ClearStep)
    ensures
        step == spec_clear(*progress),
{
    match progress.playback {
        None => ClearStep::CheckPlayback,
        Some(ClearPlayback::Failed) => ClearStep::Failed(ClearFailure::Check),
        Some(ClearPlayback::Idle) => ClearStep::Failed(ClearFailure::NoPlayback),
        Some(ClearPlayback::Active(CurrentItem::Nothing)) => ClearStep::Failed(
            ClearFailure::NoTrack,
        ),
        Some(ClearPlayback::Active(CurrentItem::Episode)) => ClearStep::Failed(
            ClearFailure::Unsupported,
        ),
        Some(ClearPlayback::Active(CurrentItem::Track { duration_ms })) => match progress.seeked {
            None => ClearStep::Seek { position_ms: seek_position(duration_ms) },
            Some(false) => ClearStep::Failed(ClearFailure::Seek),
            Some(true) => match progress.paused {
                None => ClearStep::Pause,
                Some(false) => ClearStep::Failed(ClearFailure::Pause),
                Some(true) => ClearStep::Cleared,
            },
        },
    }
}

/// How renewing the credentials before a request ended.
#[derive(Debug, Clone, Copy, PartialEq, Eq)]
pub enum Renewal {
    /// The credentials were good as they were.
    Fresh,
    /// The credentials were renewed and have to be stored.
    Renewed,
    /// The credentials could not be renewed.
    Failed,
}

/// How far a `skip` command has come.
#[derive(Debug, Clone, Copy, PartialEq, Eq)]
pub struct SkipProgress {
    /// How renewing the credentials ended.
    pub renewal: Option<Renewal>,
    /// Whether renewed credentials could be stored.
    pub saved: Option<bool>,
    /// Whether the service went on to the next track.
    pub skipped: Option<bool>,
}

/// Why the current track could not be skipped.
#[derive(Debug, Clone, Copy, PartialEq, Eq)]
pub enum SkipFailure {
    /// The credentials could not be renewed.
    Renewal,
    /// The renewed credentials could not be stored.
    Storage,
    /// The service did not go on to the next track.
    Skip,
}

/// What a `skip` command does next.
#[derive(Debug, Clone, Copy, PartialEq, Eq)]
pub enum SkipStep {
    /// Renew the credentials where that is due.
    Renew,
    /// Store the renewed credentials.
    Save,
    /// Tell the service to go on to the next track.
    NextTrack,
    /// The track was skipped.
    Skipped,
    /// The command has failed.
    Failed(SkipFailure),
}

/// What a `skip` command does next.
///
/// The credentials are renewed first where that is due, and stored if they
/// were renewed; then the service is told to go on to the next track.  The
/// first of these that fails ends the command.
pub open spec fn spec_skip(progress: SkipProgress) -> SkipStep {
    match progress.renewal {
        None => SkipStep::Renew,
        Some(Renewal::Failed) => SkipStep::Failed(SkipFailure::Renewal),
        Some(renewal) => if renewal == Renewal::Renewed && progress.saved is None {
            SkipStep::Save
        } else if renewal == Renewal::Renewed && progress.saved == Some(false) {
            SkipStep::Failed(SkipFailure::Storage)
        } else {
            match progress.skipped {
                None => SkipStep::NextTrack,
                Some(true) => SkipStep::Skipped,
                Some(false) => SkipStep::Failed(SkipFailure::Skip),
            }
        },
    }
}

/// Says what a `skip` command does next, given how far it has come.
pub fn skip(progress: &SkipProgress) -> (step: SkipStep)
    ensures
        step == spec_skip(*progress),
{
    match progress.renewal {
        None => {
            return SkipStep::Renew;
        },
        Some(Renewal::Failed) => {
            return SkipStep::Failed(SkipFailure::Renewal);
        },
        Some(Renewal::Renewed) => match progress.saved {
            None => {
                return SkipStep::Save;
            },
            Some(false) => {
                return SkipStep::Failed(SkipFailure::Storage);
            },
            Some(true) => {},
        },
        Some(Renewal::Fresh) => {},
    }
    match progress.skipped {
        None => SkipStep::NextTrack,
        Some(true) => SkipStep::Skipped,
        Some(false) => SkipStep::Failed(SkipFailure::Skip),
    }
}

/// What typing the name of a track leads to.
#[derive(Debug, Clone, Copy, PartialEq, Eq)]
pub enum Autocomplete {
    /// Nothing is offered: the text is too short.
    TooShort,
    /// What was offered before is offered again.
    Cached,
    /// After a pause in typing, a search is made.
    Search {
        /// How long to wait first, in milliseconds.
        wait_millis: u64,
        /// How many tracks to ask for.
        limit: u32,
    },
}

/// Whether what was offered this many seconds ago may be offered again.
pub fn is_fresh(age_secs: u64) -> (fresh: bool)
    ensures
        fresh == (age_secs < AUTOCOMPLETE_CACHE_SECS),
{
    age_secs < AUTOCOMPLETE_CACHE_SECS
}

/// Decides what is offered for a typed text of `length` bytes.
///
/// A text of less than two bytes gets nothing.  What was offered for the
/// same text less than five minutes ago is offered again; `age_secs` is how
/// long ago that was, if it was at all.  Otherwise a search is made.
pub fn track_autocomplete(length: usize, age_secs: Option<u64>) -> (plan: Autocomplete)
    ensures
        plan == if length < 2 {
            Autocomplete::TooShort
        } else if age_secs matches Some(age) && age < AUTOCOMPLETE_CACHE_SECS {
            Autocomplete::Cached
        } else {
            Autocomplete::Search { wait_millis: DEBOUNCE_MILLIS, limit: SEARCH_LIMIT }
        },
{
    if length < 2 {
        return Autocomplete::TooShort;
    }
    match age_secs {
        Some(age) => if is_fresh(age) {
            return Autocomplete::Cached;
        },
        None => {},
    }
    Autocomplete::Search { wait_millis: DEBOUNCE_MILLIS, limit: SEARCH_LIMIT }
}

} // verus!
