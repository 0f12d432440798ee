use spoticord::config::{
    base_url, data_dir, discord_token, parse_port, spotify_client_id, spotify_client_secret,
    web_port, DISCONNECT_TIME, MOTD,
};
use spoticord::protocol::QUEUE_CAPACITY;
use spoticord::stats::StatsManager;
use spoticord::protocol::TokenOutcome;
use spoticord::storage::{
    NewToken, Refresh, RefreshOutcome, SpotifyCredentials, Storage, Stored, Timestamp,
    TokenProgress, TokenStep, CREDENTIALS_FILE,
};

fn credentials(end: i64) -> SpotifyCredentials {
    SpotifyCredentials::new("access".to_string(), "refresh".to_string(), Timestamp::new(end, 0))
}

#[test]
fn fixed_settings() {
    assert_eq!(DISCONNECT_TIME, 300);
    assert_eq!(QUEUE_CAPACITY, 16);
    assert_eq!(MOTD, "some good 'ol music");
    assert_eq!(CREDENTIALS_FILE, "spotify_credentials.json");
}

#[test]
fn settings_fall_back_to_their_defaults() {
    assert_eq!(base_url(None), "http://localhost:8080");
    assert_eq!(base_url(Some("https://bot.example".to_string())), "https://bot.example");
    assert_eq!(data_dir(None), "./data");
    assert_eq!(data_dir(Some("/var/lib/bot".to_string())), "/var/lib/bot");
    assert_eq!(web_port(None), 8080);
    assert_eq!(web_port(Some("3000")), 3000);
}

#[test]
fn required_settings_are_handed_through() {
    assert_eq!(discord_token(Some("abc".to_string())), "abc");
    assert_eq!(spotify_client_id(Some("id".to_string())), "id");
    assert_eq!(spotify_client_secret(Some("hidden".to_string())), "hidden");
}

#[test]
fn ports_are_read_like_integers() {
    assert_eq!(parse_port("8080"), Some(8080));
    assert_eq!(parse_port("0"), Some(0));
    assert_eq!(parse_port("65535"), Some(65535));
    assert_eq!(parse_port("65536"), None);
    assert_eq!(parse_port("+80"), Some(80));
    assert_eq!(parse_port("0000080"), Some(80));
    assert_eq!(parse_port("99999999999999999999"), None);
    assert_eq!(parse_port(""), None);
    assert_eq!(parse_port("+"), None);
    assert_eq!(parse_port("-1"), None);
    assert_eq!(parse_port("++1"), None);
    assert_eq!(parse_port(" 80"), None);
    assert_eq!(parse_port("80 "), None);
    assert_eq!(parse_port("8_0"), None);
    assert_eq!(parse_port("8o"), None);
    assert_eq!(parse_port("٨٠"), None);
}

#[test]
fn ports_agree_with_the_standard_parser() {
    let samples = [
        "1", "22", "443", "+443", "65535", "65536", "70000", "", "+", "-", "-0", "+0", "00",
        "1e3", "0x50", "١", "12 ", "\t12", "4294967296",
    ];
    for sample in samples {
        assert_eq!(parse_port(sample), sample.parse::<u16>().ok(), "{:?}", sample);
    }
}

#[test]
fn stats_take_any_count() {
    let mut stats = StatsManager::new();
    assert_eq!(stats.set_active_count(0), Ok(()));
    assert_eq!(stats.set_active_count(usize::MAX), Ok(()));
}

#[test]
fn token_expires_a_minute_early() {
    let held = credentials(1000);
    assert!(!held.is_expired(Timestamp::new(939, 999_999_999)));
    assert!(!held.is_expired(Timestamp::new(940, 0)));
    assert!(held.is_expired(Timestamp::new(940, 1)));
    assert!(held.is_expired(Timestamp::new(1000, 0)));
    assert!(held.is_expired(Timestamp::new(i64::MAX, 999_999_999)));
    assert!(!held.is_expired(Timestamp::new(i64::MIN, 0)));
    let late = SpotifyCredentials::new(
        "a".to_string(),
        "r".to_string(),
        Timestamp::new(1000, 500),
    );
    assert!(!late.is_expired(Timestamp::new(940, 500)));
    assert!(late.is_expired(Timestamp::new(940, 501)));
}

#[test]
fn fresh_credentials_are_left_alone() {
    let mut held = credentials(1000);
    let outcome = RefreshOutcome::Token(NewToken {
        access_token: "new".to_string(),
        refresh_token: None,
        expires_at: Some(Timestamp::new(5000, 0)),
    });
    assert_eq!(held.refresh_if_needed(Timestamp::new(10, 0), Some(outcome)), Refresh::Fresh);
    assert_eq!(held, credentials(1000));
    assert_eq!(held.refresh_if_needed(Timestamp::new(10, 0), None), Refresh::Fresh);
}

#[test]
fn expired_credentials_ask_for_a_new_token() {
    let mut held = credentials(1000);
    assert_eq!(held.refresh_if_needed(Timestamp::new(990, 0), None), Refresh::Refetch);
    assert_eq!(held, credentials(1000));
}

#[test]
fn new_token_is_taken_over() {
    let mut held = credentials(1000);
    let outcome = RefreshOutcome::Token(NewToken {
        access_token: "new".to_string(),
        refresh_token: Some("next".to_string()),
        expires_at: Some(Timestamp::new(5000, 7)),
    });
    assert_eq!(held.refresh_if_needed(Timestamp::new(990, 0), Some(outcome)), Refresh::Refreshed);
    assert_eq!(
        held,
        SpotifyCredentials::new("new".to_string(), "next".to_string(), Timestamp::new(5000, 7))
    );

    let mut held = credentials(1000);
    let outcome = RefreshOutcome::Token(NewToken {
        access_token: "new".to_string(),
        refresh_token: None,
        expires_at: Some(Timestamp::new(5000, 0)),
    });
    assert_eq!(held.refresh_if_needed(Timestamp::new(990, 0), Some(outcome)), Refresh::Refreshed);
    assert_eq!(
        held,
        SpotifyCredentials::new("new".to_string(), "refresh".to_string(), Timestamp::new(5000, 0))
    );
}

#[test]
fn refresh_failures_are_told_apart() {
    let mut held = credentials(1000);
    assert_eq!(
        held.refresh_if_needed(Timestamp::new(990, 0), Some(RefreshOutcome::Failed)),
        Refresh::Failed("Failed to refresh Spotify token".to_string())
    );
    assert_eq!(
        held.refresh_if_needed(Timestamp::new(990, 0), Some(RefreshOutcome::Empty)),
        Refresh::Failed("Received empty token from Spotify".to_string())
    );
    assert_eq!(held, credentials(1000));
    let outcome = RefreshOutcome::Token(NewToken {
        access_token: "new".to_string(),
        refresh_token: Some("next".to_string()),
        expires_at: None,
    });
    assert_eq!(
        held.refresh_if_needed(Timestamp::new(990, 0), Some(outcome)),
        Refresh::Failed("Token missing expiration time".to_string())
    );
    assert_eq!(
        held,
        SpotifyCredentials::new("new".to_string(), "next".to_string(), Timestamp::new(1000, 0))
    );
}

fn expired_progress() -> TokenProgress {
    TokenProgress { stored: Some(Stored::Found(credentials(1000))), fetched: None, saved: None }
}

fn renewal(refresh_token: Option<&str>, end: Option<i64>) -> RefreshOutcome {
    RefreshOutcome::Token(NewToken {
        access_token: "new".to_string(),
        refresh_token: refresh_token.map(|token| token.to_string()),
        expires_at: end.map(|secs| Timestamp::new(secs, 0)),
    })
}

#[test]
fn store_reads_before_it_answers() {
    let storage = Storage::new("./data".to_string());
    assert_eq!(storage.data_dir, "./data");
    let at = Timestamp::new(0, 0);
    let mut progress = TokenProgress::new();
    assert_eq!(storage.get_spotify_token(&progress, at), TokenStep::Read);
    progress.stored = Some(Stored::Missing);
    assert_eq!(storage.get_spotify_token(&progress, at), TokenStep::Done(TokenOutcome::Missing));
    progress.stored = Some(Stored::Failed("unreadable".to_string()));
    assert_eq!(
        storage.get_spotify_token(&progress, at),
        TokenStep::Done(TokenOutcome::Failed("unreadable".to_string()))
    );
}

#[test]
fn store_answers_with_a_token_that_is_good() {
    let storage = Storage::new("./data".to_string());
    let mut progress = expired_progress();
    let step = storage.get_spotify_token(&progress, Timestamp::new(940, 0));
    assert_eq!(step, TokenStep::Done(TokenOutcome::Found("access".to_string())));
    // What the music service or the disk said plays no part then
    progress.fetched = Some(RefreshOutcome::Failed);
    progress.saved = Some(Err("disk full".to_string()));
    let step = storage.get_spotify_token(&progress, Timestamp::new(940, 0));
    assert_eq!(step, TokenStep::Done(TokenOutcome::Found("access".to_string())));
}

#[test]
fn store_renews_an_expired_token_and_saves_it_first() {
    let storage = Storage::new("./data".to_string());
    let at = Timestamp::new(999, 0);
    let mut progress = expired_progress();
    assert_eq!(storage.get_spotify_token(&progress, at), TokenStep::Refetch);

    progress.fetched = Some(renewal(Some("next"), Some(5000)));
    assert_eq!(
        storage.get_spotify_token(&progress, at),
        TokenStep::Save(SpotifyCredentials::new(
            "new".to_string(),
            "next".to_string(),
            Timestamp::new(5000, 0)
        ))
    );
    progress.saved = Some(Ok(()));
    assert_eq!(
        storage.get_spotify_token(&progress, at),
        TokenStep::Done(TokenOutcome::Found("new".to_string()))
    );

    let mut progress = expired_progress();
    progress.fetched = Some(renewal(None, Some(5000)));
    assert_eq!(
        storage.get_spotify_token(&progress, at),
        TokenStep::Save(SpotifyCredentials::new(
            "new".to_string(),
            "refresh".to_string(),
            Timestamp::new(5000, 0)
        ))
    );
}

#[test]
fn store_fails_when_a_step_of_the_renewal_fails() {
    let storage = Storage::new("./data".to_string());
    let at = Timestamp::new(999, 0);
    let failed = |reason: &str| TokenStep::Done(TokenOutcome::Failed(reason.to_string()));

    let mut progress = expired_progress();
    progress.fetched = Some(RefreshOutcome::Failed);
    assert_eq!(storage.get_spotify_token(&progress, at), failed("Failed to refresh Spotify token"));
    progress.fetched = Some(RefreshOutcome::Empty);
    assert_eq!(
        storage.get_spotify_token(&progress, at),
        failed("Received empty token from Spotify")
    );
    progress.fetched = Some(renewal(Some("next"), None));
    assert_eq!(storage.get_spotify_token(&progress, at), failed("Token missing expiration time"));
    progress.saved = Some(Ok(()));
    assert_eq!(storage.get_spotify_token(&progress, at), failed("Token missing expiration time"));

    progress.fetched = Some(renewal(Some("next"), Some(5000)));
    progress.saved = Some(Err("disk full".to_string()));
    assert_eq!(storage.get_spotify_token(&progress, at), failed("disk full"));
}
