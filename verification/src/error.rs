//! Errors reported by the daemon, its plugins and the state model.

use crate::data::Data;
use vstd::prelude::*;

verus! {

/// The kind of a failure.
#[derive(Clone, Copy, Debug, PartialEq, Eq, Structural)]
pub enum ErrorKind {
    /// Data supplied by the user is malformed.
    InvalidArgument,
    /// A plugin reported that it could not do its part.
    PluginFailure,
    /// The plugin an event was addressed to does not exist.
    PluginNotFound,
    /// The state found after applying differs from the desired one.
    VerificationError,
    /// The deadline of a workflow has passed.
    Timeout,
    /// An internal invariant was found broken.
    Bug,
}

impl DeepView for ErrorKind {
    type V = ErrorKind;

    open spec fn deep_view(&self) -> ErrorKind {
        *self
    }
}

impl Data for ErrorKind {
    fn same(&self, other: &Self) -> (b: bool) {
        *self == *other
    }

    fn dup(&self) -> (r: Self) {
        *self
    }
}

/// A failure: its kind and a message for the user.
#[derive(Debug, PartialEq)]
pub struct NipartError {
    pub kind: ErrorKind,
    pub msg: String,
}

/// The mathematical value of a [`NipartError`].
#[verifier::ext_equal]
pub struct NipartErrorView {
    pub kind: ErrorKind,
    pub msg: Seq<char>,
}

impl DeepView for NipartError {
    type V = NipartErrorView;

    open spec fn deep_view(&self) -> NipartErrorView {
        NipartErrorView {
            kind: self.kind.deep_view(),
            msg: self.msg.deep_view(),
        }
    }
}

impl View for NipartError {
    type V = NipartErrorView;

    open spec fn view(&self) -> NipartErrorView {
        self.deep_view()
    }
}

impl Data for NipartError {
    fn same(&self, other: &Self) -> (b: bool) {
        self.kind.same(&other.kind)
            && self.msg.same(&other.msg)
    }

    fn dup(&self) -> (r: Self) {
        NipartError {
            kind: self.kind.dup(),
            msg: self.msg.dup(),
        }
    }
}

impl NipartError {
    /// Makes an error of the given kind with the given message.
    pub fn new(kind: ErrorKind, msg: String) -> (e: Self)
        ensures
            e@ == (NipartErrorView { kind, msg: msg@ }),
    {
        NipartError { kind, msg }
    }

    /// The kind of this error.
    pub fn kind(&self) -> (k: ErrorKind)
        ensures
            k == self@.kind,
    {
        self.kind
    }

    /// The message of this error.
    pub fn msg(&self) -> (m: &str)
        ensures
            m@ == self@.msg,
    {
        self.msg.as_str()
    }
}

impl NipartErrorView {
    /// The text shown for an error: its kind, a colon and its message.
    pub open spec fn text(self) -> Seq<char> {
        self.kind.name_spec() + ": "@ + self.msg
    }
}

impl ErrorKind {
    /// The name an error kind is shown under.
    pub open spec fn name_spec(self) -> Seq<char> {
        match self {
            ErrorKind::InvalidArgument => "InvalidArgument"@,
            ErrorKind::PluginFailure => "PluginFailure"@,
            ErrorKind::PluginNotFound => "PluginNotFound"@,
            ErrorKind::VerificationError => "VerificationError"@,
            ErrorKind::Timeout => "Timeout"@,
            ErrorKind::Bug => "Bug"@,
        }
    }

    /// The name this kind is shown under.
    pub fn name(&self) -> (s: &'static str)
        ensures
            s@ == self.name_spec(),
    {
        match self {
            ErrorKind::InvalidArgument => "InvalidArgument",
            ErrorKind::PluginFailure => "PluginFailure",
            ErrorKind::PluginNotFound => "PluginNotFound",
            ErrorKind::VerificationError => "VerificationError",
            ErrorKind::Timeout => "Timeout",
            ErrorKind::Bug => "Bug",
        }
    }
}

impl NipartError {
    /// The text shown for this error.
    pub fn to_text(&self) -> (s: String)
        ensures
            s@ == self@.text(),
    {
        let mut out = String::from_str(self.kind.name());
        out.append(": ");
        out.append(self.msg.as_str());
        out
    }
}

/// The error that reports a difference between the desired state and the
/// state found: where it is, what was wanted and what was found.
pub open spec fn verification_failure_view(
    reference: Seq<char>,
    desire: Seq<char>,
    current: Seq<char>,
) -> NipartErrorView {
    NipartErrorView {
        kind: ErrorKind::VerificationError,
        msg: "Verification failure: "@ + reference + " desire '"@ + desire + "', current '"@
            + current + "'"@,
    }
}

impl NipartError {
    /// Reports that, at `reference`, `desire` was wanted and `current` found.
    pub fn verification_failure(reference: &str, desire: &str, current: &str) -> (e: Self)
        ensures
            e@ == verification_failure_view(reference@, desire@, current@),
    {
        let mut msg = String::from_str("Verification failure: ");
        msg.append(reference);
        msg.append(" desire '");
        msg.append(desire);
        msg.append("', current '");
        msg.append(current);
        msg.append("'");
        NipartError { kind: ErrorKind::VerificationError, msg }
    }
}

} // verus!
