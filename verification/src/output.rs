//! User-facing lines that commands produce, and how each is shown.

use vstd::prelude::*;

verus! {

/// How a line is presented to the user.
#[derive(Clone, Copy, Debug, PartialEq, Eq, Structural)]
pub enum Level {
    /// A primary success / completion line.
    Success,
    /// A follow-up hint / next-step line.
    Hint,
    /// A warning that does not abort the command.
    Warn,
}

/// One line of user-facing output.
#[derive(Debug)]
pub struct Message {
    pub level: Level,
    pub text: String,
}

pub open spec fn message_views(v: Seq<Message>) -> Seq<(Level, Seq<char>)> {
    v.map_values(|m: Message| (m.level, m.text@))
}

impl Message {
    /// A success / completion line.
    pub fn success(text: String) -> (m: Message)
        ensures
            m.level == Level::Success,
            m.text@ == text@,
    {
        Message { level: Level::Success, text }
    }

    /// A follow-up hint / next-step line.
    pub fn hint(text: String) -> (m: Message)
        ensures
            m.level == Level::Hint,
            m.text@ == text@,
    {
        Message { level: Level::Hint, text }
    }

    /// A warning that does not abort the command.
    pub fn warn(text: String) -> (m: Message)
        ensures
            m.level == Level::Warn,
            m.text@ == text@,
    {
        Message { level: Level::Warn, text }
    }
}

} // verus!
