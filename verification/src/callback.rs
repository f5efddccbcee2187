//! What the JavaScript callbacks are called with when an operation ends.

use vstd::prelude::*;

verus! {

/// The operations whose outcome is handed to a JavaScript callback.
#[derive(Debug, Clone, Copy, PartialEq, Eq)]
pub enum Operation {
    ConnectOAuth,
    Play,
    Pause,
    Stop,
    EnableDiscovery,
}

pub open spec fn failed_connection() -> Seq<char> {
    "Failed connection"@
}

pub open spec fn failed_play() -> Seq<char> {
    "Failed play"@
}

pub open spec fn failed_enable_discovery() -> Seq<char> {
    "Failed enable discovery"@
}

/// The message a failed operation is reported with. Pausing and stopping
/// report the same message as playing.
pub open spec fn failure_message(op: Operation) -> Seq<char> {
    match op {
        Operation::ConnectOAuth => failed_connection(),
        Operation::Play | Operation::Pause | Operation::Stop => failed_play(),
        Operation::EnableDiscovery => failed_enable_discovery(),
    }
}

/// The two arguments of a Node-style callback `(error, result)`; `None`
/// stands for `undefined`.
#[derive(Debug, Clone, PartialEq, Eq)]
pub struct CallbackArgs {
    pub error: Option<String>,
    pub result: Option<bool>,
}

/// The callback arguments that report the outcome of `op`: `(undefined, true)`
/// on success, `(message, undefined)` on failure.
pub fn callback_args(op: Operation, succeeded: bool) -> (r: CallbackArgs)
    ensures
        r.error is Some <==> !succeeded,
        r.result is Some <==> succeeded,
        r.result matches Some(v) ==> v,
        r.error matches Some(m) ==> m@ == failure_message(op),
        r.error matches Some(m) ==> (op == Operation::ConnectOAuth ==> m@ == "Failed connection"@),
        r.error matches Some(m) ==> (op == Operation::Play ==> m@ == "Failed play"@),
        r.error matches Some(m) ==> (op == Operation::Pause ==> m@ == "Failed play"@),
        r.error matches Some(m) ==> (op == Operation::Stop ==> m@ == "Failed play"@),
        r.error matches Some(m) ==> (op == Operation::EnableDiscovery ==> m@
            == "Failed enable discovery"@),
{
    proof {
        broadcast use vstd::string::to_string_from_display_ensures_for_str;
    }
    if succeeded {
        CallbackArgs { error: None, result: Some(true) }
    } else {
        let message = match op {
            Operation::ConnectOAuth => "Failed connection".to_string(),
            Operation::Play | Operation::Pause | Operation::Stop => "Failed play".to_string(),
            Operation::EnableDiscovery => "Failed enable discovery".to_string(),
        };
        CallbackArgs { error: Some(message), result: None }
    }
}

/// Connecting, playback and discovery failures are told apart by their
/// messages; playing, pausing and stopping share one.
pub proof fn law_failure_messages(a: Operation, b: Operation)
    ensures
        failure_message(a) == failure_message(b) <==> (a == b || ((a == Operation::Play || a
            == Operation::Pause || a == Operation::Stop) && (b == Operation::Play || b
            == Operation::Pause || b == Operation::Stop))),
{
    reveal_strlit("Failed connection");
    reveal_strlit("Failed play");
    reveal_strlit("Failed enable discovery");
    assert(failed_connection().len() != failed_play().len());
    assert(failed_connection().len() != failed_enable_discovery().len());
    assert(failed_play().len() != failed_enable_discovery().len());
}

} // verus!
