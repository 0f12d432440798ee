//! Settings of the bot: fixed values, and values read from the environment.
//!
//! The functions here take what the environment holds for a variable (`None`
//! where it is unset) and return the setting.  Reading the environment is
//! left to the caller.

use vstd::prelude::*;
use vstd::string::StringSliceAdditionalSpecFns;

verus! {

/// The "listening to" message that shows up under the bot user.
pub const MOTD: &'static str = "some good 'ol music";

/// Seconds without playback after which a session disconnects.
pub const DISCONNECT_TIME: u64 = 300;

/// The port of the web server where the environment names none.
pub const DEFAULT_WEB_PORT: u16 = 8080;

/// The number that a sequence of ASCII decimal digits denotes.
pub open spec fn decimal_value(digits: Seq<u8>) -> nat
    decreases digits.len(),
{
    if digits.len() == 0 {
        0
    } else {
        decimal_value(digits.drop_last()) * 10 + (digits.last() - 48) as nat
    }
}

/// Whether every byte is an ASCII decimal digit.
pub open spec fn is_decimal(digits: Seq<u8>) -> bool {
    forall|i: int| 0 <= i < digits.len() ==> 48 <= #[trigger] digits[i] <= 57
}

/// The text of a port without its optional leading `+`.
pub open spec fn port_digits(text: Seq<u8>) -> Seq<u8> {
    if text.len() > 0 && text[0] == 43 {
        text.subrange(1, text.len() as int)
    } else {
        text
    }
}

/// The port that a text denotes: an optional `+`, then one or more decimal
/// digits whose value fits 16 bits.  Any other text denotes none.
pub open spec fn spec_parse_port(text: Seq<u8>) -> Option<u16> {
    let digits = port_digits(text);
    if digits.len() > 0 && is_decimal(digits) && decimal_value(digits) <= u16::MAX {
        Some(decimal_value(digits) as u16)
    } else {
        None
    }
}

/// A number does not shrink when more digits follow it.
proof fn lemma_decimal_value_grows(digits: Seq<u8>, len: int)
    requires
        is_decimal(digits),
        0 <= len <= digits.len(),
    ensures
        decimal_value(digits.subrange(0, len)) <= decimal_value(digits),
    decreases digits.len(),
{
    if len == digits.len() {
        assert(digits.subrange(0, len) =~= digits);
    } else {
        let shorter = digits.drop_last();
        assert(shorter.subrange(0, len) =~= digits.subrange(0, len));
        lemma_decimal_value_grows(shorter, len);
    }
}

/// Reads a port number as the standard integer parser does.
pub fn parse_port(text: &str) -> (port: Option<u16>)
    ensures
        port == spec_parse_port(text.spec_bytes()),
{
    let bytes = text.as_bytes();
    let n: usize = bytes.len();
    let start: usize = if n > 0 && bytes[0] == 43 {
        1
    } else {
        0
    };
    let ghost digits = port_digits(bytes@);
    if start == n {
        return None;
    }
    assert(digits =~= bytes@.subrange(start as int, n as int));
    let mut value: u32 = 0;
    let mut i: usize = start;
    assert(digits.subrange(0, 0) =~= Seq::<u8>::empty());
    while i < n
        invariant
            start <= i <= n,
            n == bytes@.len(),
            bytes@ == text.spec_bytes(),
            digits == port_digits(bytes@),
            digits == bytes@.subrange(start as int, n as int),
            is_decimal(digits.subrange(0, i - start)),
            value == decimal_value(digits.subrange(0, i - start)),
            value <= u16::MAX,
        decreases n - i,
    {
        let b: u8 = bytes[i];
        assert(digits[i - start] == b);
        if b < 48 || b > 57 {
            return None;
        }
        let next: u32 = value * 10 + (b - 48) as u32;
        proof {
            let longer = digits.subrange(0, i - start + 1);
            assert(longer.drop_last() =~= digits.subrange(0, i - start));
            assert(longer.last() == b);
            assert(is_decimal(longer)) by {
                assert forall|k: int| 0 <= k < longer.len() implies 48 <= #[trigger] longer[k]
                    <= 57 by {
                    if k < i - start {
                        assert(longer[k] == digits.subrange(0, i - start)[k]);
                    }
                }
            }
            assert(next == decimal_value(longer));
            if is_decimal(digits) {
                lemma_decimal_value_grows(digits, i - start + 1);
            }
        }
        if next > 65535 {
            return None;
        }
        value = next;
        i += 1;
    }
    assert(digits.subrange(0, n - start) =~= digits);
    Some(value as u16)
}

/// The token that logs the bot in to the chat service.
///
/// The variable is required: the bot cannot start without it.
pub fn discord_token(value: Option<String>) -> (token: String)
    requires
        value is Some,
    ensures
        Some(token) == value,
{
    match value {
        Some(token) => token,
        None => String::new(),
    }
}

/// The address under which the web pages are reached from outside.
pub fn base_url(value: Option<String>) -> (url: String)
    ensures
        url@ == match value {
            Some(given) => given@,
            None => "http://localhost:8080"@,
        },
{
    match value {
        Some(given) => given,
        None => String::from_str("http://localhost:8080"),
    }
}

/// The port on which the web server listens.
///
/// A value that is no port number is a configuration error: the caller
/// checks it with [`parse_port`] before asking.
pub fn web_port(value: Option<&str>) -> (port: u16)
    requires
        value matches Some(text) ==> spec_parse_port(text.spec_bytes()) is Some,
    ensures
        port == match value {
            Some(text) => spec_parse_port(text.spec_bytes())->0,
            None => DEFAULT_WEB_PORT,
        },
{
    match value {
        Some(text) => match parse_port(text) {
            Some(port) => port,
            None => DEFAULT_WEB_PORT,
        },
        None => DEFAULT_WEB_PORT,
    }
}

/// The directory in which the bot keeps its files.
pub fn data_dir(value: Option<String>) -> (dir: String)
    ensures
        dir@ == match value {
            Some(given) => given@,
            None => "./data"@,
        },
{
    match value {
        Some(given) => given,
        None => String::from_str("./data"),
    }
}

/// The identifier of the application at the music service (required).
pub fn spotify_client_id(value: Option<String>) -> (id: String)
    requires
        value is Some,
    ensures
        Some(id) == value,
{
    match value {
        Some(id) => id,
        None => String::new(),
    }
}

/// The secret of the application at the music service (required).
pub fn spotify_client_secret(value: Option<String>) -> (secret: String)
    requires
        value is Some,
    ensures
        Some(secret) == value,
{
    match value {
        Some(secret) => secret,
        None => String::new(),
    }
}

} // verus!
