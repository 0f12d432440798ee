//! What the web pages for linking the music account decide.

use vstd::prelude::*;

verus! {

/// What the music service sent back to the callback address.
#[derive(Debug, PartialEq, Eq)]
pub struct CallbackQuery {
    /// The code to exchange for a token.
    pub code: Option<String>,
    /// The error, if the user or the service refused.
    pub error: Option<String>,
}

/// How far the callback has come.
#[derive(Debug, Clone, Copy, PartialEq, Eq)]
pub struct CallbackProgress {
    /// Whether the code could be exchanged.
    pub exchanged: Option<bool>,
    /// Whether the exchange left a token.
    pub token: Option<bool>,
    /// Whether the credentials could be stored.
    pub saved: Option<bool>,
}

/// The page that the callback answers with.
#[derive(Debug, Clone, Copy, PartialEq, Eq)]
pub enum CallbackPage {
    /// The user or the service refused.
    Denied,
    /// The request carried no code.
    MissingCode,
    /// The code could not be exchanged.
    ExchangeFailed,
    /// The exchange left no token.
    TokenMissing,
    /// The credentials could not be stored.
    StorageFailed,
    /// The account is linked.
    Linked,
}

/// What the callback does next.
#[derive(Debug, Clone, Copy, PartialEq, Eq)]
pub enum CallbackStep {
    /// Exchange the code for a token.
    Exchange,
    /// Read the token that the exchange left.
    ReadToken,
    /// Store the credentials made of the token.
    Save,
    /// Answer with this page.
    Answer(CallbackPage),
}

/// What the callback does next.
///
/// An error in the request ends it at once, whether or not there is a code;
/// so does a request without a code.  Otherwise the code is exchanged,
/// the token read and the credentials stored, and the first of these that
/// fails decides the page.
pub open spec fn spec_callback(query: CallbackQuery, progress: CallbackProgress) -> CallbackStep {
    if query.error is Some {
        CallbackStep::Answer(CallbackPage::Denied)
    } else if query.code is None {
        CallbackStep::Answer(CallbackPage::MissingCode)
    } else {
        match progress.exchanged {
            None => CallbackStep::Exchange,
            Some(false) => CallbackStep::Answer(CallbackPage::ExchangeFailed),
            Some(true) => match progress.token {
                None => CallbackStep::ReadToken,
                Some(false) => CallbackStep::Answer(CallbackPage::TokenMissing),
                Some(true) => match progress.saved {
                    None => CallbackStep::Save,
                    Some(false) => CallbackStep::Answer(CallbackPage::StorageFailed),
                    Some(true) => CallbackStep::Answer(CallbackPage::Linked),
                },
            },
        }
    }
}

/// Says what the callback does next, given the request and how far the
/// callback has come.
pub fn callback(query: &CallbackQuery, progress: &CallbackProgress) -> (step: CallbackStep)
    ensures
        step == spec_callback(*query, *progress),
{
    if query.error.is_some() {
        return CallbackStep::Answer(CallbackPage::Denied);
    }
    if query.code.is_none() {
        return CallbackStep::Answer(CallbackPage::MissingCode);
    }
    match progress.exchanged {
        None => CallbackStep::Exchange,
        Some(false) => CallbackStep::Answer(CallbackPage::ExchangeFailed),
        Some(true) => match progress.token {
            None => CallbackStep::ReadToken,
            Some(false) => CallbackStep::Answer(CallbackPage::TokenMissing),
            Some(true) => match progress.saved {
                None => CallbackStep::Save,
                Some(false) => CallbackStep::Answer(CallbackPage::StorageFailed),
                Some(true) => CallbackStep::Answer(CallbackPage::Linked),
            },
        },
    }
}

/// The address that the music service sends the user back to.
pub fn redirect_uri(base_url: &str) -> (uri: String)
    ensures
        uri@ == base_url@ + "/callback"@,
{
    let mut uri = String::from_str(base_url);
    uri.append("/callback");
    uri
}

/// The rights that the bot asks of the linked account.
pub open spec fn spec_scopes() -> Seq<Seq<char>> {
    seq![
        "user-read-playback-state"@,
        "user-modify-playback-state"@,
        "user-read-currently-playing"@,
        "user-read-private"@,
        "user-read-email"@,
        "streaming"@,
    ]
}

/// The rights that the bot asks of the linked account.
pub fn scopes() -> (rights: Vec<String>)
    ensures
        rights@.len() == spec_scopes().len(),
        forall|i: int| 0 <= i < rights@.len() ==> (#[trigger] rights@[i])@ == spec_scopes()[i],
{
    let mut rights: Vec<String> = Vec::new();
    rights.push(String::from_str("user-read-playback-state"));
    rights.push(String::from_str("user-modify-playback-state"));
    rights.push(String::from_str("user-read-currently-playing"));
    rights.push(String::from_str("user-read-private"));
    rights.push(String::from_str("user-read-email"));
    rights.push(String::from_str("streaming"));
    rights
}

} // verus!
