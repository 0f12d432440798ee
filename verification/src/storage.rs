//! The credentials of the linked music account, and when to renew them.

use crate::protocol::TokenOutcome;
use crate::protocol::TokenOutcomeView;
use vstd::prelude::*;

verus! {

/// The name of the file in the data directory that holds the credentials.
pub const CREDENTIALS_FILE: &'static str = "spotify_credentials.json";

/// A point in time: whole seconds since the epoch, and the nanoseconds
/// into the next second.
#[derive(Debug, Clone, Copy, PartialEq, Eq)]
pub struct Timestamp {
    /// Seconds since the epoch.
    pub secs: i64,
    /// Nanoseconds after the last whole second, below one billion.
    pub nanos: u32,
}

impl Timestamp {
    /// The point in time in nanoseconds since the epoch.
    pub open spec fn instant(self) -> int {
        self.secs * 1_000_000_000 + self.nanos
    }

    /// A point in time.
    pub fn new(secs: i64, nanos: u32) -> (time: Self)
        ensures
            time == (Timestamp { secs, nanos }),
    {
        Timestamp { secs, nanos }
    }
}

/// How long before its end a token counts as expired, in nanoseconds: one
/// minute.
pub open spec fn expiry_margin() -> int {
    60_000_000_000
}

/// The access to the linked music account.
#[derive(Debug, PartialEq, Eq)]
pub struct SpotifyCredentials {
    /// The token that gives access now.
    pub access_token: String,
    /// The token that buys the next access token.
    pub refresh_token: String,
    /// When the access token ends.
    pub expires_at: Timestamp,
}

/// The token that the music service gave in exchange for a refresh token.
#[derive(Debug, PartialEq, Eq)]
pub struct NewToken {
    /// The new access token.
    pub access_token: String,
    /// The new refresh token, if the service gave one.
    pub refresh_token: Option<String>,
    /// When the new access token ends, if the service said so.
    pub expires_at: Option<Timestamp>,
}

/// How asking the music service for a new token ended.
#[derive(Debug, PartialEq, Eq)]
pub enum RefreshOutcome {
    /// The request failed.
    Failed,
    /// The service answered without a token.
    Empty,
    /// The service gave a token.
    Token(NewToken),
}

/// What is to be done about credentials that may have expired.
#[derive(Debug, PartialEq, Eq)]
pub enum Refresh {
    /// Nothing: the access token is good for more than a minute.
    Fresh,
    /// The music service is to be asked for a new token.
    Refetch,
    /// The credentials were renewed and are to be stored.
    Refreshed,
    /// The credentials could not be renewed, with the reason.
    Failed(String),
}

impl SpotifyCredentials {
    /// The credentials made of these parts.
    pub fn new(
        access_token: String,
        refresh_token: String,
        expires_at: Timestamp,
    ) -> (credentials: Self)
        ensures
            credentials == (SpotifyCredentials { access_token, refresh_token, expires_at }),
    {
        SpotifyCredentials { access_token, refresh_token, expires_at }
    }

    /// The credentials that a token of the music service gives at `now`.
    ///
    /// A token without a refresh token gets an empty one, and a token that
    /// does not say when it ends is taken to last an hour.
    pub fn from_token(token: NewToken, now: Timestamp) -> (credentials: Self)
        requires
            now.secs + 3600 <= i64::MAX,
        ensures
            credentials.access_token == token.access_token,
            credentials.refresh_token@ == match token.refresh_token {
                Some(given) => given@,
                None => Seq::<char>::empty(),
            },
            credentials.expires_at == match token.expires_at {
                Some(end) => end,
                None => Timestamp { secs: (now.secs + 3600) as i64, nanos: now.nanos },
            },
    {
        let refresh_token = match token.refresh_token {
            Some(given) => given,
            None => String::new(),
        };
        let expires_at = match token.expires_at {
            Some(end) => end,
            None => Timestamp { secs: now.secs + 3600, nanos: now.nanos },
        };
        SpotifyCredentials { access_token: token.access_token, refresh_token, expires_at }
    }

    /// Whether the access token counts as expired at `now`: it does from
    /// one minute before its end.
    pub open spec fn spec_is_expired(self, now: Timestamp) -> bool {
        now.instant() + expiry_margin() > self.expires_at.instant()
    }

    /// Whether the access token counts as expired at `now`.
    pub fn is_expired(&self, now: Timestamp) -> (expired: bool)
        ensures
            expired == self.spec_is_expired(now),
    {
        let deadline: i128 = (now.secs as i128 + 60) * 1_000_000_000 + now.nanos as i128;
        let end: i128 = self.expires_at.secs as i128 * 1_000_000_000 + self.expires_at.nanos as i128;
        deadline > end
    }

    /// Renews the credentials where that is due.
    ///
    /// While the access token is not expired nothing happens.  Once it is,
    /// the music service is to be asked for a new token, and `fetched` is
    /// what it answered.  Its access token is taken, and its refresh token
    /// where it gave one.  An answer that does not say when the token ends
    /// is a failure, and so is a request that failed or gave no token; only
    /// then do credentials that are expired stay in part or whole as they
    /// were.
    pub fn refresh_if_needed(
        &mut self,
        now: Timestamp,
        fetched: Option<RefreshOutcome>,
    ) -> (refresh: Refresh)
        ensures
            !old(self).spec_is_expired(now) ==> refresh is Fresh && *final(self) == *old(self),
            old(self).spec_is_expired(now) ==> match fetched {
                None => refresh is Refetch && *final(self) == *old(self),
                Some(RefreshOutcome::Failed) => {
                    &&& refresh matches Refresh::Failed(reason)
                    &&& reason@ == "Failed to refresh Spotify token"@
                    &&& *final(self) == *old(self)
                },
                Some(RefreshOutcome::Empty) => {
                    &&& refresh matches Refresh::Failed(reason)
                    &&& reason@ == "Received empty token from Spotify"@
                    &&& *final(self) == *old(self)
                },
                Some(RefreshOutcome::Token(token)) => {
                    &&& final(self).access_token == token.access_token
                    &&& final(self).refresh_token == match token.refresh_token {
                        Some(given) => given,
                        None => old(self).refresh_token,
                    }
                    &&& match token.expires_at {
                        Some(end) => refresh is Refreshed && final(self).expires_at == end
                            && final(self)@ == old(self)@.renewed(token, end),
                        None => {
                            &&& refresh matches Refresh::Failed(reason)
                            &&& reason@ == "Token missing expiration time"@
                            &&& final(self).expires_at == old(self).expires_at
                        },
                    }
                },
            },
    {
        if !self.is_expired(now) {
            return Refresh::Fresh;
        }
        match fetched {
            None => Refresh::Refetch,
            Some(RefreshOutcome::Failed) => Refresh::Failed(
                String::from_str("Failed to refresh Spotify token"),
            ),
            Some(RefreshOutcome::Empty) => Refresh::Failed(
                String::from_str("Received empty token from Spotify"),
            ),
            Some(RefreshOutcome::Token(token)) => {
                self.access_token = token.access_token;
                match token.refresh_token {
                    Some(given) => {
                        self.refresh_token = given;
                    },
                    None => {},
                }
                match token.expires_at {
                    Some(end) => {
                        self.expires_at = end;
                        Refresh::Refreshed
                    },
                    None => Refresh::Failed(String::from_str("Token missing expiration time")),
                }
            },
        }
    }
}

/// [`SpotifyCredentials`] with their texts as sequences of characters.
pub struct CredentialsView {
    pub access_token: Seq<char>,
    pub refresh_token: Seq<char>,
    pub expires_at: Timestamp,
}

impl View for SpotifyCredentials {
    type V = CredentialsView;

    open spec fn view(&self) -> CredentialsView {
        CredentialsView {
            access_token: self.access_token@,
            refresh_token: self.refresh_token@,
            expires_at: self.expires_at,
        }
    }
}

impl CredentialsView {
    /// The credentials after a token that ends at `end` was taken over:
    /// its access token, its refresh token where it has one, and its end.
    pub open spec fn renewed(self, token: NewToken, end: Timestamp) -> CredentialsView {
        CredentialsView {
            access_token: token.access_token@,
            refresh_token: match token.refresh_token {
                Some(given) => given@,
                None => self.refresh_token,
            },
            expires_at: end,
        }
    }
}

/// What reading the stored credentials gave.
#[derive(Debug, PartialEq, Eq)]
pub enum Stored {
    /// No account is linked: nothing is stored.
    Missing,
    /// Reading failed, with the reason.
    Failed(String),
    /// The credentials that are stored.
    Found(SpotifyCredentials),
}

/// How far asking the store for the access token has come: the outcome of
/// each piece of outside work that was done.
#[derive(Debug, PartialEq, Eq)]
pub struct TokenProgress {
    /// What reading the stored credentials gave.
    pub stored: Option<Stored>,
    /// What the music service answered when asked for a new token.
    pub fetched: Option<RefreshOutcome>,
    /// Whether the renewed credentials could be stored, or why not.
    pub saved: Option<Result<(), String>>,
}

/// What asking the store for the access token does next.
#[derive(Debug, PartialEq, Eq)]
pub enum TokenStep {
    /// Read the stored credentials.
    Read,
    /// Ask the music service for a new token, with the stored refresh
    /// token.
    Refetch,
    /// Store these credentials.
    Save(SpotifyCredentials),
    /// The answer.
    Done(TokenOutcome),
}

/// A [`TokenStep`] with its texts as sequences of characters.
pub enum TokenStepView {
    Read,
    Refetch,
    Save(CredentialsView),
    Done(TokenOutcomeView),
}

impl View for TokenStep {
    type V = TokenStepView;

    open spec fn view(&self) -> TokenStepView {
        match self {
            TokenStep::Read => TokenStepView::Read,
            TokenStep::Refetch => TokenStepView::Refetch,
            TokenStep::Save(credentials) => TokenStepView::Save(credentials@),
            TokenStep::Done(outcome) => TokenStepView::Done(outcome@),
        }
    }
}

impl TokenProgress {
    /// The progress before any work was done.
    pub fn new() -> (progress: Self)
        ensures
            progress == (TokenProgress { stored: None, fetched: None, saved: None }),
    {
        TokenProgress { stored: None, fetched: None, saved: None }
    }
}

/// The place where the credentials are kept.
#[derive(Debug, PartialEq, Eq)]
pub struct Storage {
    /// The directory that holds the bot's files.
    pub data_dir: String,
}

impl Storage {
    /// The store in this directory.
    pub fn new(data_dir: String) -> (storage: Self)
        ensures
            storage.data_dir == data_dir,
    {
        Storage { data_dir }
    }

    /// What asking for the access token at `now` does next.
    ///
    /// Where nothing is stored there is no token, and where the stored
    /// access token is not expired it is the answer; in both cases nothing
    /// is asked of the music service and nothing is written.  An expired
    /// token is renewed first: the music service is asked for a new one, the
    /// renewed credentials are stored, and only then is the new access
    /// token the answer.  A read, a renewal or a write that fails ends the
    /// asking with its reason, and so does a new token that does not say
    /// when it ends; then nothing is written.
    pub open spec fn spec_get_spotify_token(
        progress: TokenProgress,
        now: Timestamp,
    ) -> TokenStepView {
        match progress.stored {
            None => TokenStepView::Read,
            Some(Stored::Failed(reason)) => TokenStepView::Done(TokenOutcomeView::Failed(reason@)),
            Some(Stored::Missing) => TokenStepView::Done(TokenOutcomeView::Missing),
            Some(Stored::Found(held)) => if !held.spec_is_expired(now) {
                TokenStepView::Done(TokenOutcomeView::Found(held.access_token@))
            } else {
                match progress.fetched {
                    None => TokenStepView::Refetch,
                    Some(RefreshOutcome::Failed) => TokenStepView::Done(
                        TokenOutcomeView::Failed("Failed to refresh Spotify token"@),
                    ),
                    Some(RefreshOutcome::Empty) => TokenStepView::Done(
                        TokenOutcomeView::Failed("Received empty token from Spotify"@),
                    ),
                    Some(RefreshOutcome::Token(token)) => match token.expires_at {
                        None => TokenStepView::Done(
                            TokenOutcomeView::Failed("Token missing expiration time"@),
                        ),
                        Some(end) => match progress.saved {
                            None => TokenStepView::Save(held@.renewed(token, end)),
                            Some(Err(reason)) => TokenStepView::Done(
                                TokenOutcomeView::Failed(reason@),
                            ),
                            Some(Ok(_)) => TokenStepView::Done(
                                TokenOutcomeView::Found(token.access_token@),
                            ),
                        },
                    },
                }
            },
        }
    }

    /// Says what asking for the access token at `now` does next, given how
    /// far the asking has come.
    pub fn get_spotify_token(&self, progress: &TokenProgress, now: Timestamp) -> (step: TokenStep)
        ensures
            step@ == Storage::spec_get_spotify_token(*progress, now),
    {
        let held = match &progress.stored {
            None => {
                return TokenStep::Read;
            },
            Some(Stored::Failed(reason)) => {
                return TokenStep::Done(TokenOutcome::Failed(reason.clone()));
            },
            Some(Stored::Missing) => {
                return TokenStep::Done(TokenOutcome::Missing);
            },
            Some(Stored::Found(held)) => held,
        };
        if !held.is_expired(now) {
            return TokenStep::Done(TokenOutcome::Found(held.access_token.clone()));
        }
        let token = match &progress.fetched {
            None => {
                return TokenStep::Refetch;
            },
            Some(RefreshOutcome::Failed) => {
                return TokenStep::Done(
                    TokenOutcome::Failed(String::from_str("Failed to refresh Spotify token")),
                );
            },
            Some(RefreshOutcome::Empty) => {
                return TokenStep::Done(
                    TokenOutcome::Failed(String::from_str("Received empty token from Spotify")),
                );
            },
            Some(RefreshOutcome::Token(token)) => token,
        };
        let end = match token.expires_at {
            None => {
                return TokenStep::Done(
                    TokenOutcome::Failed(String::from_str("Token missing expiration time")),
                );
            },
            Some(end) => end,
        };
        match &progress.saved {
            None => {
                let refresh_token = match &token.refresh_token {
                    Some(given) => given.clone(),
                    None => held.refresh_token.clone(),
                };
                TokenStep::Save(
                    SpotifyCredentials {
                        access_token: token.access_token.clone(),
                        refresh_token,
                        expires_at: end,
                    },
                )
            },
            Some(Err(reason)) => TokenStep::Done(TokenOutcome::Failed(reason.clone())),
            Some(Ok(_)) => TokenStep::Done(TokenOutcome::Found(token.access_token.clone())),
        }
    }
}

} // verus!
