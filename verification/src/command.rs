//! The command dispatcher: which command a text frame carries, and the
//! response the server gives to it.

use crate::text::{
    decimal, decimal_text, decimal_value, lemma_decimal_length, lemma_decimal_round_trip, same_text,
};
use vstd::prelude::*;
use vstd::string::*;

verus! {

/// Smallest number a `cmd:random_num` response can carry.
pub const RANDOM_LOW: u32 = 1;

/// Largest number a `cmd:random_num` response can carry.
pub const RANDOM_HIGH: u32 = 100;

/// What a text frame asks of the server.
#[derive(Clone, Copy, Debug, PartialEq, Eq, Structural)]
pub enum Command {
    /// A heartbeat acknowledgment: consumed without a response.
    Ping,
    /// A request for the server's current time.
    GetTime,
    /// A request for a random number.
    RandomNum,
    /// Anything else.
    Unknown,
}

/// The command that the text `text` carries. Matching is exact: no trimming,
/// no case folding.
pub open spec fn command_of(text: Seq<char>) -> Command {
    if text == "ping"@ {
        Command::Ping
    } else if text == "cmd:get_time"@ {
        Command::GetTime
    } else if text == "cmd:random_num"@ {
        Command::RandomNum
    } else {
        Command::Unknown
    }
}

/// The response to `cmd:get_time` when the clock reads `stamp`.
pub open spec fn time_reply_text(stamp: Seq<char>) -> Seq<char> {
    "Server Time: "@ + stamp
}

/// The response to `cmd:random_num` when the number drawn is `n`.
pub open spec fn random_reply_text(n: nat) -> Seq<char> {
    "Random Number: "@ + decimal_text(n)
}

/// The response to a text that is no known command.
pub open spec fn unknown_reply_text() -> Seq<char> {
    "Command not recognized"@
}

/// A timestamp as the clock writes it: some text that ends in ` UTC`.
pub open spec fn is_utc_stamp(stamp: Seq<char>) -> bool {
    " UTC"@.is_suffix_of(stamp)
}

/// Whether `reply` is a response that the dispatcher may give to `text`:
/// nothing for a heartbeat acknowledgment, the fixed fallback for an unknown
/// text, and for the two commands the fixed label followed by a timestamp or
/// by a number between `RANDOM_LOW` and `RANDOM_HIGH`.
pub open spec fn answers(text: Seq<char>, reply: Option<Seq<char>>) -> bool {
    match command_of(text) {
        Command::Ping => reply is None,
        Command::GetTime => exists|stamp: Seq<char>|
            is_utc_stamp(stamp) && reply == Some(#[trigger] time_reply_text(stamp)),
        Command::RandomNum => exists|n: nat|
            RANDOM_LOW <= n <= RANDOM_HIGH && reply == Some(#[trigger] random_reply_text(n)),
        Command::Unknown => reply == Some(unknown_reply_text()),
    }
}

/// The current UTC time as text, from `chrono::Utc::now()` written through
/// its `Display` form. Which instant it shows depends on the clock; it is
/// assumed only that the text ends with a space and the zone name `UTC`,
/// which is what `Display` for `DateTime<Utc>` writes last. (`Utc::now`
/// gives up on a machine whose clock stands before 1970.)
#[verifier::external_body]
fn utc_now_text() -> (stamp: String)
    ensures
        is_utc_stamp(stamp@),
{
    chrono::Utc::now().to_string()
}

/// A number drawn by `rand::Rng::random_range` from the thread-local
/// generator `rand::rng()`, over the inclusive range `low..=high`.
/// `random_range` panics on an empty range, so the range must not be empty.
/// Which number comes out is left open; it is assumed only that it lies in
/// the range.
#[verifier::external_body]
fn sample_inclusive(low: u32, high: u32) -> (n: u32)
    requires
        low <= high,
    ensures
        low <= n <= high,
{
    rand::Rng::random_range(&mut rand::rng(), low..=high)
}

/// Tells which command `text` carries.
pub fn classify(text: &str) -> (command: Command)
    ensures
        command == command_of(text@),
{
    if same_text(text, "ping") {
        Command::Ping
    } else if same_text(text, "cmd:get_time") {
        Command::GetTime
    } else if same_text(text, "cmd:random_num") {
        Command::RandomNum
    } else {
        Command::Unknown
    }
}

/// Builds the response to `cmd:get_time` from the clock's reading.
pub fn time_reply(stamp: &str) -> (reply: String)
    ensures
        reply@ == time_reply_text(stamp@),
{
    String::from_str("Server Time: ").concat(stamp)
}

/// Builds the response to `cmd:random_num` from the number drawn.
pub fn random_reply(n: u32) -> (reply: String)
    ensures
        reply@ == random_reply_text(n as nat),
{
    let digits = decimal(n);
    String::from_str("Random Number: ").concat(digits.as_str())
}

/// Builds the response to a text that is no known command.
pub fn unknown_reply() -> (reply: String)
    ensures
        reply@ == unknown_reply_text(),
{
    String::from_str("Command not recognized")
}

/// Answers one text frame. A heartbeat acknowledgment gets no response;
/// every other text gets exactly one. The clock is read only for
/// `cmd:get_time` and a number is drawn only for `cmd:random_num`.
pub fn dispatch(text: &str) -> (reply: Option<String>)
    ensures
        answers(
            text@,
            match reply {
                Some(r) => Some(r@),
                None => None,
            },
        ),
{
    match classify(text) {
        Command::Ping => None,
        Command::GetTime => {
            let stamp = utc_now_text();
            let reply = time_reply(stamp.as_str());
            assert(reply@ == time_reply_text(stamp@));
            Some(reply)
        },
        Command::RandomNum => {
            let n = sample_inclusive(RANDOM_LOW, RANDOM_HIGH);
            let reply = random_reply(n);
            assert(reply@ == random_reply_text(n as nat));
            Some(reply)
        },
        Command::Unknown => Some(unknown_reply()),
    }
}

/// A text that is none of the three known ones gets the fallback response,
/// and nothing else.
pub proof fn lemma_unrecognized_text(text: Seq<char>, reply: Option<Seq<char>>)
    requires
        text != "ping"@,
        text != "cmd:get_time"@,
        text != "cmd:random_num"@,
    ensures
        answers(text, reply) <==> reply == Some("Command not recognized"@),
{
}

/// A heartbeat acknowledgment gets no response at all.
pub proof fn lemma_ping_is_silent(reply: Option<Seq<char>>)
    ensures
        answers("ping"@, reply) <==> reply is None,
{
}

/// Every response to `cmd:get_time` is the label `Server Time: ` followed
/// by a timestamp that ends in ` UTC`.
pub proof fn lemma_time_reply_shape(reply: Option<Seq<char>>)
    requires
        answers("cmd:get_time"@, reply),
    ensures
        reply is Some,
        "Server Time: "@.is_prefix_of(reply->0),
        is_utc_stamp(reply->0.skip("Server Time: "@.len() as int)),
        is_utc_stamp(reply->0),
{
    reveal_strlit("ping");
    reveal_strlit("cmd:get_time");
    assert("cmd:get_time"@.len() != "ping"@.len());
    let stamp = choose|stamp: Seq<char>|
        is_utc_stamp(stamp) && reply == Some(#[trigger] time_reply_text(stamp));
    let label = "Server Time: "@;
    let r = reply->0;
    assert(r == label + stamp);
    assert(label =~= r.subrange(0, label.len() as int));
    assert(r.skip(label.len() as int) =~= stamp);
    let tail = " UTC"@;
    assert(tail =~= stamp.subrange(stamp.len() - tail.len(), stamp.len() as int));
    assert(r.subrange(r.len() - tail.len(), r.len() as int) =~= stamp.subrange(
        stamp.len() - tail.len(),
        stamp.len() as int,
    ));
}

/// Every response to `cmd:random_num` is the label `Random Number: `
/// followed by the decimal numeral of a number from `RANDOM_LOW` to
/// `RANDOM_HIGH`: one to three digits that read back as that number.
pub proof fn lemma_random_reply_shape(reply: Option<Seq<char>>)
    requires
        answers("cmd:random_num"@, reply),
    ensures
        reply is Some,
        "Random Number: "@.is_prefix_of(reply->0),
        RANDOM_LOW <= decimal_value(reply->0.skip("Random Number: "@.len() as int)) <= RANDOM_HIGH,
        reply->0.skip("Random Number: "@.len() as int) == decimal_text(
            decimal_value(reply->0.skip("Random Number: "@.len() as int)),
        ),
        1 <= reply->0.len() - "Random Number: "@.len() <= 3,
{
    reveal_strlit("ping");
    reveal_strlit("cmd:get_time");
    reveal_strlit("cmd:random_num");
    assert("cmd:random_num"@.len() != "ping"@.len());
    assert("cmd:random_num"@.len() != "cmd:get_time"@.len());
    let n = choose|n: nat|
        RANDOM_LOW <= n <= RANDOM_HIGH && reply == Some(#[trigger] random_reply_text(n));
    let label = "Random Number: "@;
    let r = reply->0;
    assert(r == label + decimal_text(n));
    assert(label =~= r.subrange(0, label.len() as int));
    assert(r.skip(label.len() as int) =~= decimal_text(n));
    lemma_decimal_round_trip(n);
    lemma_decimal_length(n);
}

} // verus!
