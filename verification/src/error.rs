use vstd::prelude::*;

verus! {

/// The error a player reports when asked to act before it holds a session.
#[derive(Debug, Clone, Copy, PartialEq, Eq)]
pub struct NotReadyError;

/// The message that describes a [`NotReadyError`].
pub open spec fn not_ready_message() -> Seq<char> {
    "Spotify not ready"@
}

impl NotReadyError {
    /// The message shown for this error.
    pub fn to_string(&self) -> (r: String)
        ensures
            r@ == not_ready_message(),
            r@ == "Spotify not ready"@,
    {
        proof {
            broadcast use vstd::string::to_string_from_display_ensures_for_str;
        }
        "Spotify not ready".to_string()
    }
}

} // verus!
