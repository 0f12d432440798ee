use spoticord::handle::SessionHandle;
use spoticord::music::{
    clear, find_bot_device, gate, play, seek_position, track_autocomplete, Autocomplete,
    ClearFailure, ClearPlayback, ClearProgress, ClearStep, CurrentItem, Device, DevicesOutcome,
    Gate, PlayFailure, PlayProgress, PlayStep, PlaybackOutcome, Renewal, SearchOutcome,
    SkipFailure, SkipProgress, SkipStep,
};
use spoticord::music::skip;
use spoticord::storage::{NewToken, SpotifyCredentials, Timestamp};
use spoticord::music::is_fresh;
use spoticord::text::{
    by_artists, choice_name, choice_value, contains, duration_label, join, join_artists,
    now_playing_message, popularity_label, push_decimal,
};
use spoticord::web::{
    callback, redirect_uri, scopes, CallbackPage, CallbackProgress, CallbackQuery, CallbackStep,
};

fn device(name: &str, has_id: bool) -> Device {
    Device { name: name.to_string(), has_id }
}

fn searching() -> PlayProgress {
    PlayProgress {
        search: None,
        playback: None,
        queued: None,
        devices: None,
        transferred: None,
        started: None,
    }
}

fn found() -> PlayProgress {
    PlayProgress { search: Some(SearchOutcome::Tracks { found: true }), ..searching() }
}

fn idle_with(devices: Vec<Device>) -> PlayProgress {
    PlayProgress {
        playback: Some(PlaybackOutcome::Idle),
        devices: Some(DevicesOutcome::Listed(devices)),
        ..found()
    }
}

#[test]
fn commands_need_a_session_then_an_account() {
    let handle = SessionHandle::new(1, 2, 3, 4);
    assert_eq!(gate(None, true), Gate::NoSession);
    assert_eq!(gate(None, false), Gate::NoSession);
    assert_eq!(gate(Some(handle), false), Gate::NoAccount);
    assert_eq!(gate(Some(handle), true), Gate::Proceed);
}

#[test]
fn contains_agrees_with_the_standard_search() {
    let samples = [
        ("", ""),
        ("a", ""),
        ("", "a"),
        ("Spoticord Bot", "Spoticord"),
        ("my spoticord", "spoticord"),
        ("my spoticord", "Spoticord"),
        ("SPOTICORD", "spoticord"),
        ("Spoticor", "Spoticord"),
        ("xSpoticordx", "Spoticord"),
        ("aaab", "aab"),
        ("abab", "bab"),
        ("abc", "abcd"),
        ("héllo wörld", "wör"),
        ("héllo wörld", "lo w"),
        ("日本語", "本"),
        ("日本語", "語日"),
    ];
    for (haystack, needle) in samples {
        assert_eq!(contains(haystack, needle), haystack.contains(needle), "{haystack:?} {needle:?}");
    }
}

#[test]
fn bot_device_is_the_first_with_the_name() {
    assert_eq!(find_bot_device(&vec![]), None);
    assert_eq!(find_bot_device(&vec![device("Phone", true), device("Laptop", true)]), None);
    let devices = vec![
        device("Phone", true),
        device("my spoticord", false),
        device("Spoticord Bot", true),
    ];
    assert_eq!(find_bot_device(&devices), Some(1));
    assert!(devices[2].looks_like_bot());
    assert!(!devices[0].looks_like_bot());
    assert!(!device("SPOTICORD", true).looks_like_bot());
}

#[test]
fn play_searches_first() {
    assert_eq!(play(&searching()), PlayStep::Search { limit: 5 });
    let failed = PlayProgress { search: Some(SearchOutcome::Failed), ..searching() };
    assert_eq!(play(&failed), PlayStep::Failed(PlayFailure::Search));
    let odd = PlayProgress { search: Some(SearchOutcome::Unexpected), ..searching() };
    assert_eq!(play(&odd), PlayStep::Failed(PlayFailure::Unexpected));
    let none =
        PlayProgress { search: Some(SearchOutcome::Tracks { found: false }), ..searching() };
    assert_eq!(play(&none), PlayStep::Failed(PlayFailure::NoResults));
    assert_eq!(play(&found()), PlayStep::CheckPlayback);
}

#[test]
fn play_queues_on_the_player_in_use() {
    let failed = PlayProgress { playback: Some(PlaybackOutcome::Failed), ..found() };
    assert_eq!(play(&failed), PlayStep::Failed(PlayFailure::Connection));

    let mut progress =
        PlayProgress { playback: Some(PlaybackOutcome::Active { is_playing: true }), ..found() };
    assert_eq!(play(&progress), PlayStep::Queue { device: None });
    progress.queued = Some(false);
    assert_eq!(play(&progress), PlayStep::Failed(PlayFailure::Queue));
    progress.queued = Some(true);
    assert_eq!(play(&progress), PlayStep::Played { resume: false });

    progress.playback = Some(PlaybackOutcome::Active { is_playing: false });
    assert_eq!(play(&progress), PlayStep::Played { resume: true });
}

#[test]
fn play_moves_playback_to_the_bot() {
    let listing = PlayProgress { playback: Some(PlaybackOutcome::Idle), ..found() };
    assert_eq!(play(&listing), PlayStep::ListDevices);
    let failed = PlayProgress { devices: Some(DevicesOutcome::Failed), ..listing };
    assert_eq!(play(&failed), PlayStep::Failed(PlayFailure::DeviceQuery));

    let mut progress = idle_with(vec![device("Phone", true), device("Spoticord Bot", true)]);
    assert_eq!(play(&progress), PlayStep::Transfer { target: 1 });
    progress.transferred = Some(false);
    assert_eq!(play(&progress), PlayStep::Failed(PlayFailure::Transfer));
    progress.transferred = Some(true);
    assert_eq!(play(&progress), PlayStep::Queue { device: Some(1) });
    progress.queued = Some(false);
    assert_eq!(play(&progress), PlayStep::Failed(PlayFailure::QueueAfterTransfer));
    progress.queued = Some(true);
    assert_eq!(play(&progress), PlayStep::Played { resume: false });
}

#[test]
fn play_starts_directly_without_a_usable_bot_player() {
    let mut progress = idle_with(vec![device("Phone", true)]);
    assert_eq!(play(&progress), PlayStep::Start);
    progress.started = Some(false);
    assert_eq!(play(&progress), PlayStep::Failed(PlayFailure::Start));
    progress.started = Some(true);
    assert_eq!(play(&progress), PlayStep::Played { resume: false });

    let mut progress = idle_with(vec![device("spoticord", false), device("Spoticord", true)]);
    assert_eq!(play(&progress), PlayStep::Start);
    progress.started = Some(false);
    assert_eq!(play(&progress), PlayStep::Failed(PlayFailure::StartOnBotDevice));
    progress.started = Some(true);
    assert_eq!(play(&progress), PlayStep::Played { resume: false });
}

#[test]
fn seek_stops_a_second_before_the_end() {
    assert_eq!(seek_position(180_000), 179_000);
    assert_eq!(seek_position(1000), 0);
    assert_eq!(seek_position(999), 0);
    assert_eq!(seek_position(0), 0);
    assert_eq!(seek_position(4_294_967_295), 4_294_966_295);
    assert_eq!(seek_position(4_294_967_296), 0);
    assert_eq!(seek_position(4_294_967_296 + 5000), 4000);
    assert_eq!(seek_position(-1), 4_294_966_295);
}

#[test]
fn clear_winds_forward_and_pauses() {
    let mut progress = ClearProgress { playback: None, seeked: None, paused: None };
    assert_eq!(clear(&progress), ClearStep::CheckPlayback);
    progress.playback = Some(ClearPlayback::Failed);
    assert_eq!(clear(&progress), ClearStep::Failed(ClearFailure::Check));
    progress.playback = Some(ClearPlayback::Idle);
    assert_eq!(clear(&progress), ClearStep::Failed(ClearFailure::NoPlayback));
    progress.playback = Some(ClearPlayback::Active(CurrentItem::Nothing));
    assert_eq!(clear(&progress), ClearStep::Failed(ClearFailure::NoTrack));
    progress.playback = Some(ClearPlayback::Active(CurrentItem::Episode));
    assert_eq!(clear(&progress), ClearStep::Failed(ClearFailure::Unsupported));
    progress.playback = Some(ClearPlayback::Active(CurrentItem::Track { duration_ms: 60_000 }));
    assert_eq!(clear(&progress), ClearStep::Seek { position_ms: 59_000 });
    progress.seeked = Some(false);
    assert_eq!(clear(&progress), ClearStep::Failed(ClearFailure::Seek));
    progress.seeked = Some(true);
    assert_eq!(clear(&progress), ClearStep::Pause);
    progress.paused = Some(false);
    assert_eq!(clear(&progress), ClearStep::Failed(ClearFailure::Pause));
    progress.paused = Some(true);
    assert_eq!(clear(&progress), ClearStep::Cleared);
}

#[test]
fn autocomplete_waits_searches_or_repeats() {
    assert_eq!(track_autocomplete(0, None), Autocomplete::TooShort);
    assert_eq!(track_autocomplete(1, Some(10)), Autocomplete::TooShort);
    assert_eq!(track_autocomplete(2, Some(0)), Autocomplete::Cached);
    assert_eq!(track_autocomplete(2, Some(299)), Autocomplete::Cached);
    let search = Autocomplete::Search { wait_millis: 1000, limit: 5 };
    assert_eq!(track_autocomplete(2, Some(300)), search);
    assert_eq!(track_autocomplete(40, None), search);
}

#[test]
fn texts_are_put_together() {
    assert_eq!(join_artists(&vec![]), "");
    assert_eq!(join_artists(&vec!["A".to_string()]), "A");
    assert_eq!(
        join_artists(&vec!["A".to_string(), "B".to_string(), "C".to_string()]),
        "A, B, C"
    );
    assert_eq!(join(&vec!["".to_string(), "".to_string()], "-"), "-");
    assert_eq!(join(&vec!["x".to_string(), "y".to_string()], ""), "xy");
    assert_eq!(choice_name("Song", "A, B"), "Song - A, B");
    assert_eq!(choice_value("Song", "A, B"), "Song by A, B");
    assert_eq!(now_playing_message("Song", "A, B"), "Now playing 'Song' by A, B");
}

#[test]
fn callback_goes_step_by_step() {
    let start = CallbackProgress { exchanged: None, token: None, saved: None };
    let denied = CallbackQuery { code: Some("c".to_string()), error: Some("no".to_string()) };
    assert_eq!(callback(&denied, &start), CallbackStep::Answer(CallbackPage::Denied));
    let empty = CallbackQuery { code: None, error: None };
    assert_eq!(callback(&empty, &start), CallbackStep::Answer(CallbackPage::MissingCode));

    let query = CallbackQuery { code: Some("c".to_string()), error: None };
    let mut progress = start;
    assert_eq!(callback(&query, &progress), CallbackStep::Exchange);
    progress.exchanged = Some(false);
    assert_eq!(callback(&query, &progress), CallbackStep::Answer(CallbackPage::ExchangeFailed));
    progress.exchanged = Some(true);
    assert_eq!(callback(&query, &progress), CallbackStep::ReadToken);
    progress.token = Some(false);
    assert_eq!(callback(&query, &progress), CallbackStep::Answer(CallbackPage::TokenMissing));
    progress.token = Some(true);
    assert_eq!(callback(&query, &progress), CallbackStep::Save);
    progress.saved = Some(false);
    assert_eq!(callback(&query, &progress), CallbackStep::Answer(CallbackPage::StorageFailed));
    progress.saved = Some(true);
    assert_eq!(callback(&query, &progress), CallbackStep::Answer(CallbackPage::Linked));
}

#[test]
fn linking_asks_for_the_playback_rights() {
    assert_eq!(redirect_uri("http://localhost:8080"), "http://localhost:8080/callback");
    assert_eq!(
        scopes(),
        vec![
            "user-read-playback-state",
            "user-modify-playback-state",
            "user-read-currently-playing",
            "user-read-private",
            "user-read-email",
            "streaming",
        ]
    );
}

#[test]
fn credentials_are_made_of_a_token() {
    let now = Timestamp::new(1_000, 25);
    let full = NewToken {
        access_token: "a".to_string(),
        refresh_token: Some("r".to_string()),
        expires_at: Some(Timestamp::new(9_000, 1)),
    };
    assert_eq!(
        SpotifyCredentials::from_token(full, now),
        SpotifyCredentials::new("a".to_string(), "r".to_string(), Timestamp::new(9_000, 1))
    );
    let bare = NewToken { access_token: "a".to_string(), refresh_token: None, expires_at: None };
    assert_eq!(
        SpotifyCredentials::from_token(bare, now),
        SpotifyCredentials::new("a".to_string(), "".to_string(), Timestamp::new(4_600, 25))
    );
}

#[test]
fn skip_renews_the_credentials_first() {
    let mut progress = SkipProgress { renewal: None, saved: None, skipped: None };
    assert_eq!(skip(&progress), SkipStep::Renew);
    progress.renewal = Some(Renewal::Failed);
    assert_eq!(skip(&progress), SkipStep::Failed(SkipFailure::Renewal));
    progress.renewal = Some(Renewal::Renewed);
    assert_eq!(skip(&progress), SkipStep::Save);
    progress.saved = Some(false);
    assert_eq!(skip(&progress), SkipStep::Failed(SkipFailure::Storage));
    progress.saved = Some(true);
    assert_eq!(skip(&progress), SkipStep::NextTrack);
    progress.skipped = Some(false);
    assert_eq!(skip(&progress), SkipStep::Failed(SkipFailure::Skip));
    progress.skipped = Some(true);
    assert_eq!(skip(&progress), SkipStep::Skipped);

    let fresh = SkipProgress { renewal: Some(Renewal::Fresh), saved: None, skipped: None };
    assert_eq!(skip(&fresh), SkipStep::NextTrack);
    let odd = SkipProgress { renewal: Some(Renewal::Fresh), saved: Some(false), skipped: None };
    assert_eq!(skip(&odd), SkipStep::NextTrack);
}

#[test]
fn durations_are_shown_as_minutes_and_seconds() {
    assert_eq!(duration_label(0), "0:00");
    assert_eq!(duration_label(7), "0:07");
    assert_eq!(duration_label(59), "0:59");
    assert_eq!(duration_label(60), "1:00");
    assert_eq!(duration_label(187), "3:07");
    assert_eq!(duration_label(3_600), "60:00");
    assert_eq!(duration_label(-5), "0:-5");
    assert_eq!(duration_label(-65), "-1:-5");
    assert_eq!(duration_label(-120), "-2:00");
    let samples = [
        0, 1, 9, 10, 59, 60, 61, 599, 600, 3_599, 86_400, -1, -9, -10, -59, -60, -61, -75,
        -3_600, i64::MAX, i64::MIN, i64::MIN + 1,
    ];
    for seconds in samples {
        assert_eq!(
            duration_label(seconds),
            format!("{}:{:02}", seconds / 60, seconds % 60),
            "{seconds}"
        );
    }
}

#[test]
fn numbers_are_written_in_decimal() {
    for number in [0u64, 1, 9, 10, 11, 99, 100, 101, 65_535, 1_000_000, u64::MAX] {
        let mut text = "n=".to_string();
        push_decimal(&mut text, number);
        assert_eq!(text, format!("n={number}"));
    }
    assert_eq!(popularity_label(0), "0/100");
    assert_eq!(popularity_label(87), "87/100");
    assert_eq!(popularity_label(100), "100/100");
    assert_eq!(by_artists("A, B"), "by A, B");
}

#[test]
fn offers_stay_fresh_for_five_minutes() {
    assert!(is_fresh(0));
    assert!(is_fresh(299));
    assert!(!is_fresh(300));
    assert!(!is_fresh(u64::MAX));
}
