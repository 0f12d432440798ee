//! Small operations on text that the commands need.

use vstd::prelude::*;
use vstd::string::StringSliceAdditionalSpecFns;
use vstd::utf8::encode_utf8;

verus! {

/// Whether `needle` occurs in `haystack` at the position `at`.
pub open spec fn occurs_at(haystack: Seq<u8>, needle: Seq<u8>, at: int) -> bool {
    &&& 0 <= at
    &&& at + needle.len() <= haystack.len()
    &&& haystack.subrange(at, at + needle.len()) == needle
}

/// Whether `needle` occurs somewhere in `haystack`.
pub open spec fn spec_contains(haystack: Seq<u8>, needle: Seq<u8>) -> bool {
    exists|at: int| occurs_at(haystack, needle, at)
}

/// Whether one text occurs in another.
pub open spec fn text_contains(haystack: Seq<char>, needle: Seq<char>) -> bool {
    spec_contains(encode_utf8(haystack), encode_utf8(needle))
}

/// Whether `needle` occurs in `haystack` at the position `at`.
fn matches_at(haystack: &[u8], needle: &[u8], at: usize) -> (found: bool)
    requires
        at + needle@.len() <= haystack@.len(),
    ensures
        found == occurs_at(haystack@, needle@, at as int),
{
    let length: usize = haystack.len();
    let mut k: usize = 0;
    while k < needle.len()
        invariant
            k <= needle@.len(),
            length == haystack@.len(),
            at + needle@.len() <= haystack@.len(),
            forall|j: int| 0 <= j < k ==> haystack@[at + j] == needle@[j],
        decreases needle@.len() - k,
    {
        if haystack[at + k] != needle[k] {
            proof {
                let part = haystack@.subrange(at as int, at + needle@.len());
                assert(part[k as int] == haystack@[at + k]);
            }
            return false;
        }
        k += 1;
    }
    assert(haystack@.subrange(at as int, at + needle@.len()) =~= needle@);
    true
}

/// Whether one text occurs in another: whether the bytes of `needle` stand
/// somewhere in `haystack`, one after the other.
pub fn contains(haystack: &str, needle: &str) -> (found: bool)
    ensures
        found == text_contains(haystack@, needle@),
{
    let hay = haystack.as_bytes();
    let pin = needle.as_bytes();
    if pin.len() > hay.len() {
        return false;
    }
    let last: usize = hay.len() - pin.len();
    let mut at: usize = 0;
    loop
        invariant
            at <= last,
            last == hay@.len() - pin@.len(),
            hay@ == haystack.spec_bytes(),
            pin@ == needle.spec_bytes(),
            forall|before: int| 0 <= before < at ==> !occurs_at(hay@, pin@, before),
        decreases last - at,
    {
        if matches_at(hay, pin, at) {
            return true;
        }
        if at == last {
            return false;
        }
        at += 1;
    }
}

/// The texts of `parts`, one after the other, with `separator` between
/// each two.
pub open spec fn joined(parts: Seq<String>, separator: Seq<char>) -> Seq<char>
    decreases parts.len(),
{
    if parts.len() == 0 {
        Seq::empty()
    } else if parts.len() == 1 {
        parts[0]@
    } else {
        joined(parts.drop_last(), separator) + separator + parts.last()@
    }
}

/// Joins texts with a separator between each two.
pub fn join(parts: &Vec<String>, separator: &str) -> (text: String)
    ensures
        text@ == joined(parts@, separator@),
{
    let mut text = String::new();
    let mut i: usize = 0;
    while i < parts.len()
        invariant
            i <= parts@.len(),
            text@ == joined(parts@.subrange(0, i as int), separator@),
        decreases parts@.len() - i,
    {
        if i > 0 {
            text.append(separator);
        }
        text.append(parts[i].as_str());
        proof {
            let upto = parts@.subrange(0, i + 1);
            assert(upto.drop_last() =~= parts@.subrange(0, i as int));
            assert(upto.last() == parts@[i as int]);
            if i == 0 {
                assert(text@ =~= parts@[0]@);
            }
        }
        i += 1;
    }
    assert(parts@.subrange(0, parts@.len() as int) =~= parts@);
    text
}

/// The character of a decimal digit.
pub open spec fn digit_char(digit: nat) -> char {
    if digit == 0 {
        '0'
    } else if digit == 1 {
        '1'
    } else if digit == 2 {
        '2'
    } else if digit == 3 {
        '3'
    } else if digit == 4 {
        '4'
    } else if digit == 5 {
        '5'
    } else if digit == 6 {
        '6'
    } else if digit == 7 {
        '7'
    } else if digit == 8 {
        '8'
    } else {
        '9'
    }
}

/// A number in decimal digits, without leading zeros.
pub open spec fn decimal(number: nat) -> Seq<char>
    decreases number,
{
    if number < 10 {
        seq![digit_char(number)]
    } else {
        decimal(number / 10).push(digit_char(number % 10))
    }
}

/// A number in at least two decimal digits.
pub open spec fn two_digits(number: nat) -> Seq<char> {
    if number < 10 {
        seq!['0'] + decimal(number)
    } else {
        decimal(number)
    }
}

/// The text of a decimal digit.
fn digit_text(digit: u8) -> (text: &'static str)
    requires
        digit < 10,
    ensures
        text@ == seq![digit_char(digit as nat)],
{
    proof {
        reveal_strlit("0");
        reveal_strlit("1");
        reveal_strlit("2");
        reveal_strlit("3");
        reveal_strlit("4");
        reveal_strlit("5");
        reveal_strlit("6");
        reveal_strlit("7");
        reveal_strlit("8");
        reveal_strlit("9");
    }
    let text = if digit == 0 {
        "0"
    } else if digit == 1 {
        "1"
    } else if digit == 2 {
        "2"
    } else if digit == 3 {
        "3"
    } else if digit == 4 {
        "4"
    } else if digit == 5 {
        "5"
    } else if digit == 6 {
        "6"
    } else if digit == 7 {
        "7"
    } else if digit == 8 {
        "8"
    } else {
        "9"
    };
    assert(text@ =~= seq![digit_char(digit as nat)]);
    text
}

/// Writes a number in decimal digits at the end of a text.
pub fn push_decimal(text: &mut String, number: u64)
    ensures
        final(text)@ == old(text)@ + decimal(number as nat),
    decreases number,
{
    if number >= 10 {
        push_decimal(text, number / 10);
    }
    text.append(digit_text((number % 10) as u8));
    assert(text@ =~= old(text)@ + decimal(number as nat));
}

/// The size of a number without its sign.
pub open spec fn magnitude(number: i64) -> nat {
    if number >= 0 {
        number as nat
    } else {
        (-number) as nat
    }
}

/// The minutes of a length in seconds, as they are shown: with a sign
/// where they are below zero.
pub open spec fn shown_minutes(seconds: i64) -> Seq<char> {
    let minutes = magnitude(seconds) / 60;
    if seconds < 0 && minutes > 0 {
        seq!['-'] + decimal(minutes)
    } else {
        decimal(minutes)
    }
}

/// The seconds beyond whole minutes of a length in seconds, as they are
/// shown: in two digits, or with a sign where they are below zero.
pub open spec fn shown_seconds(seconds: i64) -> Seq<char> {
    let rest = magnitude(seconds) % 60;
    if seconds < 0 && rest > 0 {
        seq!['-'] + decimal(rest)
    } else {
        two_digits(rest)
    }
}

/// The length of a track as minutes and seconds, such as `3:07`.
pub fn duration_label(seconds: i64) -> (label: String)
    ensures
        label@ == shown_minutes(seconds) + seq![':'] + shown_seconds(seconds),
{
    proof {
        reveal_strlit("-");
        reveal_strlit(":");
        reveal_strlit("0");
    }
    assert("-"@ =~= seq!['-']);
    assert(":"@ =~= seq![':']);
    assert("0"@ =~= seq!['0']);
    let size: u64 = if seconds >= 0 {
        seconds as u64
    } else {
        (-(seconds + 1)) as u64 + 1
    };
    let minutes: u64 = size / 60;
    let rest: u64 = size % 60;
    let mut label = String::new();
    if seconds < 0 && minutes > 0 {
        label.append("-");
    }
    push_decimal(&mut label, minutes);
    assert(label@ =~= shown_minutes(seconds));
    label.append(":");
    if seconds < 0 && rest > 0 {
        label.append("-");
    } else if rest < 10 {
        label.append("0");
    }
    push_decimal(&mut label, rest);
    assert(label@ =~= shown_minutes(seconds) + seq![':'] + shown_seconds(seconds));
    label
}

/// How well liked a track is, out of a hundred.
pub fn popularity_label(popularity: u32) -> (label: String)
    ensures
        label@ == decimal(popularity as nat) + "/100"@,
{
    let mut label = String::new();
    push_decimal(&mut label, popularity as u64);
    label.append("/100");
    assert(label@ =~= decimal(popularity as nat) + "/100"@);
    label
}

/// The line that names the artists of a track.
pub fn by_artists(artists: &str) -> (line: String)
    ensures
        line@ == "by "@ + artists@,
{
    let mut line = String::from_str("by ");
    line.append(artists);
    line
}

/// The names of a track's artists as one text, separated by commas.
pub fn join_artists(names: &Vec<String>) -> (text: String)
    ensures
        text@ == joined(names@, ", "@),
{
    join(names, ", ")
}

/// The label under which a track is offered while its name is typed.
pub fn choice_name(track: &str, artists: &str) -> (label: String)
    ensures
        label@ == track@ + " - "@ + artists@,
{
    let mut label = String::from_str(track);
    label.append(" - ");
    label.append(artists);
    label
}

/// The query that is sent when an offered track is chosen.
pub fn choice_value(track: &str, artists: &str) -> (query: String)
    ensures
        query@ == track@ + " by "@ + artists@,
{
    let mut query = String::from_str(track);
    query.append(" by ");
    query.append(artists);
    query
}

/// The message that a track is playing.
pub fn now_playing_message(track: &str, artists: &str) -> (message: String)
    ensures
        message@ == "Now playing '"@ + track@ + "' by "@ + artists@,
{
    let mut message = String::from_str("Now playing '");
    message.append(track);
    message.append("' by ");
    message.append(artists);
    message
}

} // verus!
