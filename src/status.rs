use vstd::prelude::*;

verus! {

/// A user-facing outcome: an error flag and the text to show.
pub struct CurrentMsg {
    pub error: bool,
    pub text: String,
}

impl CurrentMsg {
    /// An error status holding `msg`.
    pub fn error(msg: &str) -> (r: CurrentMsg)
        ensures
            r.error,
            r.text@ == msg@,
    {
        CurrentMsg { error: true, text: String::from_str(msg) }
    }

    /// An informational status holding `msg`.
    pub fn message(msg: &str) -> (r: CurrentMsg)
        ensures
            !r.error,
            r.text@ == msg@,
    {
        CurrentMsg { error: false, text: String::from_str(msg) }
    }

    /// The empty informational status.
    pub fn cleared() -> (r: CurrentMsg)
        ensures
            !r.error,
            r.text@ == Seq::<char>::empty(),
    {
        CurrentMsg { error: false, text: String::new() }
    }
}

} // verus!
