//! Log entries that the daemon sends to the user.

use crate::data::Data;
use crate::options::NipartLogLevel;
use vstd::prelude::*;

verus! {

/// One entry of the log: how weighty it is and what it says.
#[derive(Debug, PartialEq)]
pub struct NipartLogEntry {
    pub level: NipartLogLevel,
    pub message: String,
}

/// The mathematical value of a [`NipartLogEntry`].
#[verifier::ext_equal]
pub struct NipartLogEntryView {
    pub level: NipartLogLevel,
    pub message: Seq<char>,
}

impl DeepView for NipartLogEntry {
    type V = NipartLogEntryView;

    open spec fn deep_view(&self) -> NipartLogEntryView {
        NipartLogEntryView {
            level: self.level.deep_view(),
            message: self.message.deep_view(),
        }
    }
}

impl View for NipartLogEntry {
    type V = NipartLogEntryView;

    open spec fn view(&self) -> NipartLogEntryView {
        self.deep_view()
    }
}

impl Data for NipartLogEntry {
    fn same(&self, other: &Self) -> (b: bool) {
        self.level.same(&other.level)
            && self.message.same(&other.message)
    }

    fn dup(&self) -> (r: Self) {
        NipartLogEntry {
            level: self.level.dup(),
            message: self.message.dup(),
        }
    }
}
impl NipartLogEntry {
    /// An entry of the log.
    pub fn new(level: NipartLogLevel, message: String) -> (r: Self)
        ensures
            r@ == (NipartLogEntryView { level, message: message@ }),
    {
        NipartLogEntry { level, message }
    }
}

} // verus!
