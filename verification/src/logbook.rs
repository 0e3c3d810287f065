//! Internal log entries the policy asks the surrounding actor to emit.
//!
//! The policy never performs I/O itself: it appends entries to an injected
//! sink (`&mut Vec<LogEntry>`), and the actor forwards them to whatever
//! logging backend it uses.  Each entry renders as a key / detail pair.

use vstd::prelude::*;
use vstd::string::StringExecFns;

verus! {

/// An internal body action worth logging.
#[derive(Clone, Copy, Debug, PartialEq, Eq, Structural)]
pub enum LogEntry {
    /// A power event charged an empty cell.
    CellCharged,
    /// A power event arrived while every cell was already charged.
    CellAlreadyCharged,
    /// A rocket build was attempted from a charged cell.
    RocketBuilt,
}

impl LogEntry {
    /// The key under which the entry is reported.
    pub open spec fn spec_key(&self) -> Seq<char> {
        match self {
            LogEntry::CellCharged => "Energy cell"@,
            LogEntry::CellAlreadyCharged => "Energy cell"@,
            LogEntry::RocketBuilt => "Rocket"@,
        }
    }

    /// The detail reported under the entry's key.
    pub open spec fn spec_detail(&self) -> Seq<char> {
        match self {
            LogEntry::CellCharged => "charged"@,
            LogEntry::CellAlreadyCharged => "already charged"@,
            LogEntry::RocketBuilt => "Built"@,
        }
    }

    /// The key under which the entry is reported.
    pub fn key(&self) -> (r: String)
        ensures
            r@ == self.spec_key(),
    {
        match self {
            LogEntry::CellCharged => String::from_str("Energy cell"),
            LogEntry::CellAlreadyCharged => String::from_str("Energy cell"),
            LogEntry::RocketBuilt => String::from_str("Rocket"),
        }
    }

    /// The detail reported under the entry's key.
    pub fn detail(&self) -> (r: String)
        ensures
            r@ == self.spec_detail(),
    {
        match self {
            LogEntry::CellCharged => String::from_str("charged"),
            LogEntry::CellAlreadyCharged => String::from_str("already charged"),
            LogEntry::RocketBuilt => String::from_str("Built"),
        }
    }
}

} // verus!
