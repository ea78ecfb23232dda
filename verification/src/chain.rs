//! What is said to the chain's REST service and what is made of its
//! failures: the endpoints, the check of a block range, and the message for
//! a transaction that could not be broadcast. Nothing here sends anything.
use vstd::prelude::*;
use vstd::string::{StrSliceExecFns, StringExecFns};

verus! {

/// The most blocks that the service hands out in one answer.
pub const MAX_BLOCKS: u32 = 50;

/// Why a request is not sent.
#[derive(Clone, Copy, Debug, PartialEq, Eq, Structural)]
pub enum ChainError {
    /// The start height is not below the end height.
    EmptyRange,
    /// The range holds more than 50 blocks.
    RangeTooWide,
}

impl ChainError {
    /// The error in words.
    pub fn message(&self) -> (text: &'static str)
        ensures
            text@ == (match self {
                ChainError::EmptyRange => "Start height must be less than end height"@,
                ChainError::RangeTooWide => "The range of blocks must be less than 50"@,
            }),
    {
        match self {
            ChainError::EmptyRange => "Start height must be less than end height",
            ChainError::RangeTooWide => "The range of blocks must be less than 50",
        }
    }
}

/// Whether the service can be asked for the blocks from `start` up to, not
/// including, `end`: the range is not empty and holds at most 50 blocks.
pub open spec fn range_checked(start: u32, end: u32) -> Result<(), ChainError> {
    if start >= end {
        Err(ChainError::EmptyRange)
    } else if end - start > 50 {
        Err(ChainError::RangeTooWide)
    } else {
        Ok(())
    }
}

/// Checks a block range before the service is asked for it.
pub fn check_block_range(start: u32, end: u32) -> (checked: Result<(), ChainError>)
    ensures
        checked == range_checked(start, end),
{
    if start >= end {
        Err(ChainError::EmptyRange)
    } else if end - start > MAX_BLOCKS {
        Err(ChainError::RangeTooWide)
    } else {
        Ok(())
    }
}

/// The decimal digits of a number, most significant first.
pub open spec fn decimal(n: nat) -> Seq<char>
    decreases n,
{
    if n < 10 {
        seq![digit(n)]
    } else {
        decimal(n / 10).push(digit(n % 10))
    }
}

/// The character of a digit below ten.
pub open spec fn digit(d: nat) -> char {
    if d == 0 {
        '0'
    } else if d == 1 {
        '1'
    } else if d == 2 {
        '2'
    } else if d == 3 {
        '3'
    } else if d == 4 {
        '4'
    } else if d == 5 {
        '5'
    } else if d == 6 {
        '6'
    } else if d == 7 {
        '7'
    } else if d == 8 {
        '8'
    } else {
        '9'
    }
}

/// A text without its double quotes.
pub open spec fn unquoted(text: Seq<char>) -> Seq<char>
    decreases text.len(),
{
    if text.len() == 0 {
        Seq::empty()
    } else if text.last() == '"' {
        unquoted(text.drop_last())
    } else {
        unquoted(text.drop_last()).push(text.last())
    }
}

/// A text as Rust's `Debug` prints it: between double quotes, with escapes.
pub uninterp spec fn debug_text(text: Seq<char>) -> Seq<char>;

/// The text of a digit below ten.
fn digit_text(d: u64) -> (text: &'static str)
    requires
        d < 10,
    ensures
        text@ == seq![digit(d as nat)],
{
    proof {
        reveal_strlit("0");
        reveal_strlit("1");
        reveal_strlit("2");
        reveal_strlit("3");
        reveal_strlit("4");
        reveal_strlit("5");
        reveal_strlit("6");
        reveal_strlit("7");
        reveal_strlit("8");
        reveal_strlit("9");
    }
    let text = if d == 0 {
        "0"
    } else if d == 1 {
        "1"
    } else if d == 2 {
        "2"
    } else if d == 3 {
        "3"
    } else if d == 4 {
        "4"
    } else if d == 5 {
        "5"
    } else if d == 6 {
        "6"
    } else if d == 7 {
        "7"
    } else if d == 8 {
        "8"
    } else {
        "9"
    };
    assert(text@ =~= seq![digit(d as nat)]);
    text
}

/// A number in decimal digits, without sign or leading zeros.
pub fn decimal_text(n: u64) -> (text: String)
    ensures
        text@ == decimal(n as nat),
    decreases n,
{
    let mut text = if n < 10 {
        String::new()
    } else {
        decimal_text(n / 10)
    };
    text.append(digit_text(n % 10));
    assert(text@ =~= decimal(n as nat));
    text
}

/// A text as `Debug` prints it.
///
/// Trusted: calls `format!` with `{:?}` on the text; the result is a
/// function of the text.
#[verifier::external_body]
pub(crate) fn quote(text: &str) -> (quoted: String)
    ensures
        quoted@ == debug_text(text@),
{
    format!("{:?}", text)
}

/// Removes the double quotes from a text.
pub fn without_quotes(text: &str) -> (clean: String)
    ensures
        clean@ == unquoted(text@),
{
    let n = text.unicode_len();
    let mut clean = String::new();
    let mut i: usize = 0;
    assert(text@.take(0) =~= Seq::<char>::empty());
    while i < n
        invariant
            i <= n,
            n == text@.len(),
            clean@ == unquoted(text@.take(i as int)),
        decreases n - i,
    {
        proof {
            assert(text@.take(i as int + 1).drop_last() =~= text@.take(i as int));
            assert(text@.take(i as int + 1).last() == text@[i as int]);
        }
        if text.get_char(i) != '"' {
            let piece = text.substring_char(i, i + 1);
            assert(piece@ =~= seq![text@[i as int]]);
            clean.append(piece);
            assert(clean@ =~= unquoted(text@.take(i as int)).push(text@[i as int]));
        }
        i += 1;
    }
    assert(text@.take(n as int) =~= text@);
    clean
}

/// The address of an endpoint: base, network and path, joined by slashes.
pub open spec fn endpoint_of(base: Seq<char>, network: Seq<char>, path: Seq<char>) -> Seq<char> {
    base + "/"@ + network + "/"@ + path
}

/// The address of an endpoint of the service.
pub fn endpoint(base: &str, network: &str, path: &str) -> (url: String)
    ensures
        url@ == endpoint_of(base@, network@, path@),
{
    let mut url = String::from_str(base);
    url.append("/");
    url.append(network);
    url.append("/");
    url.append(path);
    url
}

/// The path under which the service hands out the blocks of a range.
pub open spec fn blocks_path(start: u32, end: u32) -> Seq<char> {
    "blocks?start="@ + decimal(start as nat) + "&end="@ + decimal(end as nat)
}

/// The address to ask for the blocks from `start` up to, not including,
/// `end`, where the range is one that the service hands out.
pub fn blocks_url(base: &str, network: &str, start: u32, end: u32) -> (url: Result<
    String,
    ChainError,
>)
    ensures
        url matches Ok(u) ==> range_checked(start, end) is Ok && u@ == endpoint_of(
            base@,
            network@,
            blocks_path(start, end),
        ),
        url matches Err(e) ==> range_checked(start, end) == Err::<(), ChainError>(e),
{
    match check_block_range(start, end) {
        Err(e) => Err(e),
        Ok(()) => {
            let mut path = String::from_str("blocks?start=");
            path.append(decimal_text(start as u64).as_str());
            path.append("&end=");
            path.append(decimal_text(end as u64).as_str());
            Ok(endpoint(base, network, path.as_str()))
        },
    }
}

/// The address of an endpoint whose path is a fixed part and an argument.
pub fn endpoint_with(base: &str, network: &str, path: &str, argument: &str) -> (url: String)
    ensures
        url@ == endpoint_of(base@, network@, path@ + argument@),
{
    let mut whole = String::from_str(path);
    whole.append(argument);
    endpoint(base, network, whole.as_str())
}

/// The address to ask which transition holds an input or output of the
/// given identifier, written as the service expects it.
pub fn transition_id_url(base: &str, network: &str, input_or_output_id: &str) -> (url: String)
    ensures
        url@ == endpoint_of(base@, network@, "find/transitionID/"@ + input_or_output_id@),
{
    endpoint_with(base, network, "find/transitionID/", input_or_output_id)
}

/// The address to ask for a transaction; double quotes in it are dropped.
pub fn transaction_url(base: &str, network: &str, transaction_id: &str) -> (url: String)
    ensures
        url@ == unquoted(endpoint_of(base@, network@, "transaction/"@ + transaction_id@)),
{
    let url = endpoint_with(base, network, "transaction/", transaction_id);
    without_quotes(url.as_str())
}

/// The address to ask for a confirmed transaction; double quotes in it are
/// dropped.
pub fn confirmed_transaction_url(base: &str, network: &str, transaction_id: &str) -> (url: String)
    ensures
        url@ == unquoted(
            endpoint_of(base@, network@, "transaction/confirmed/"@ + transaction_id@),
        ),
{
    let url = endpoint_with(base, network, "transaction/confirmed/", transaction_id);
    without_quotes(url.as_str())
}

/// The address to ask which block holds a transaction; double quotes in it
/// are dropped.
pub fn block_hash_url(base: &str, network: &str, transaction_id: &str) -> (url: String)
    ensures
        url@ == unquoted(endpoint_of(base@, network@, "find/blockHash/"@ + transaction_id@)),
{
    let url = endpoint_with(base, network, "find/blockHash/", transaction_id);
    without_quotes(url.as_str())
}

/// The address to ask for the block of a height.
pub fn block_url(base: &str, network: &str, height: u32) -> (url: String)
    ensures
        url@ == endpoint_of(base@, network@, "block/"@ + decimal(height as nat)),
{
    endpoint_with(base, network, "block/", decimal_text(height as u64).as_str())
}

/// The address to ask for the transactions of the block of a height.
pub fn block_transactions_url(base: &str, network: &str, height: u32) -> (url: String)
    ensures
        url@ == endpoint_of(
            base@,
            network@,
            "block/"@ + decimal(height as nat) + "/transactions"@,
        ),
{
    let mut path = String::from_str("block/");
    path.append(decimal_text(height as u64).as_str());
    path.append("/transactions");
    endpoint(base, network, path.as_str())
}

/// The address to send a transaction to.
pub fn broadcast_url(base: &str, network: &str) -> (url: String)
    ensures
        url@ == endpoint_of(base@, network@, "transaction/broadcast"@),
{
    endpoint(base, network, "transaction/broadcast")
}

/// The address to ask for the value under a key of a program's mapping.
pub fn mapping_value_url(base: &str, network: &str, program: &str, mapping: &str, key: &str) -> (url:
    String)
    ensures
        url@ == endpoint_of(
            base@,
            network@,
            "program/"@ + program@ + "/mapping/"@ + mapping@ + "/"@ + key@,
        ),
{
    let mut path = String::from_str("program/");
    path.append(program);
    path.append("/mapping/");
    path.append(mapping);
    path.append("/");
    path.append(key);
    endpoint(base, network, path.as_str())
}

/// The kind of a transaction.
#[derive(Clone, Copy, Debug, PartialEq, Eq, Structural)]
pub enum TransactionKind {
    Deploy,
    Execute,
    Fee,
}

/// How sending a transaction failed.
#[derive(Debug)]
pub enum BroadcastFailure {
    /// The service answered with a status that is no success.
    Status { code: u16, body: String },
    /// The service was not reached.
    Transport(String),
}

/// The cause of a failure, in brackets: status and answer, or the transport's
/// own words.
pub open spec fn cause_of(failure: BroadcastFailure) -> Seq<char> {
    match failure {
        BroadcastFailure::Status { code, body } => "(status code "@ + decimal(code as nat) + ": "@
            + debug_text(body@) + ")"@,
        BroadcastFailure::Transport(words) => "("@ + words@ + ")"@,
    }
}

/// What was being done with a transaction of a kind when sending it failed.
pub open spec fn attempt_of(kind: TransactionKind) -> Seq<char> {
    match kind {
        TransactionKind::Deploy => "❌ Failed to deploy program to "@,
        TransactionKind::Execute => "❌ Failed to broadcast execution to "@,
        TransactionKind::Fee => "❌ Failed to broadcast fee execution to "@,
    }
}

/// The message for a transaction that could not be sent: what was being
/// done, the address it was sent to, and the cause.
pub open spec fn failure_message_of(kind: TransactionKind, url: Seq<char>, failure: BroadcastFailure) ->
    Seq<char> {
    attempt_of(kind) + url + ": "@ + cause_of(failure)
}

/// The message for a transaction that could not be sent.
pub fn broadcast_failure_message(kind: TransactionKind, url: &str, failure: &BroadcastFailure) -> (message:
    String)
    ensures
        message@ == failure_message_of(kind, url@, *failure),
{
    let mut message = String::from_str(
        match kind {
            TransactionKind::Deploy => "❌ Failed to deploy program to ",
            TransactionKind::Execute => "❌ Failed to broadcast execution to ",
            TransactionKind::Fee => "❌ Failed to broadcast fee execution to ",
        },
    );
    message.append(url);
    message.append(": ");
    match failure {
        BroadcastFailure::Status { code, body } => {
            message.append("(status code ");
            message.append(decimal_text(*code as u64).as_str());
            message.append(": ");
            message.append(quote(body.as_str()).as_str());
            message.append(")");
        },
        BroadcastFailure::Transport(words) => {
            message.append("(");
            message.append(words.as_str());
            message.append(")");
        },
    }
    assert(message@ =~= failure_message_of(kind, url@, *failure));
    message
}

} // verus!
