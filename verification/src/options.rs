//! Options that accompany queries, applies and logging.

use crate::data::Data;
use vstd::prelude::*;

verus! {

/// Verbosity of a log sink, from silent to most detailed.
#[derive(Clone, Copy, Debug, PartialEq, Eq, Structural)]
pub enum NipartLogLevel {
    Off,
    Error,
    Warn,
    Info,
    Debug,
    Trace,
}

impl DeepView for NipartLogLevel {
    type V = NipartLogLevel;

    open spec fn deep_view(&self) -> NipartLogLevel {
        *self
    }
}

impl Data for NipartLogLevel {
    fn same(&self, other: &Self) -> (b: bool) {
        *self == *other
    }

    fn dup(&self) -> (r: Self) {
        *self
    }
}

/// Which network state a query asks for.
#[derive(Clone, Copy, Debug, PartialEq, Eq, Structural)]
pub enum NipartStateKind {
    /// The state the kernel and the services are in now.
    Running,
    /// The state that is stored as configuration.
    Saved,
    /// The snapshot taken right after the last commit.
    PostLastCommit,
}

impl DeepView for NipartStateKind {
    type V = NipartStateKind;

    open spec fn deep_view(&self) -> NipartStateKind {
        *self
    }
}

impl Data for NipartStateKind {
    fn same(&self, other: &Self) -> (b: bool) {
        *self == *other
    }

    fn dup(&self) -> (r: Self) {
        *self
    }
}

/// Options of a state query.
#[derive(Clone, Copy, Debug, PartialEq, Eq, Structural)]
pub struct NipartQueryOption {
    pub kind: NipartStateKind,
}

impl DeepView for NipartQueryOption {
    type V = NipartQueryOption;

    open spec fn deep_view(&self) -> NipartQueryOption {
        *self
    }
}

impl Data for NipartQueryOption {
    fn same(&self, other: &Self) -> (b: bool) {
        *self == *other
    }

    fn dup(&self) -> (r: Self) {
        *self
    }
}

/// Options of a state apply.
#[derive(Clone, Copy, Debug, PartialEq, Eq, Structural)]
pub struct NipartApplyOption {
    /// Skip the comparison of the state after applying with the desired state.
    pub skip_verify: bool,
    /// Do not store the applied state as configuration.
    pub memory_only: bool,
}

impl DeepView for NipartApplyOption {
    type V = NipartApplyOption;

    open spec fn deep_view(&self) -> NipartApplyOption {
        *self
    }
}

impl Data for NipartApplyOption {
    fn same(&self, other: &Self) -> (b: bool) {
        *self == *other
    }

    fn dup(&self) -> (r: Self) {
        *self
    }
}

impl NipartLogLevel {
    /// The word a log level is shown as.
    pub open spec fn name_spec(self) -> Seq<char> {
        match self {
            NipartLogLevel::Off => "off"@,
            NipartLogLevel::Error => "error"@,
            NipartLogLevel::Warn => "warn"@,
            NipartLogLevel::Info => "info"@,
            NipartLogLevel::Debug => "debug"@,
            NipartLogLevel::Trace => "trace"@,
        }
    }

    /// The word this log level is shown as.
    pub fn name(&self) -> (s: &'static str)
        ensures
            s@ == self.name_spec(),
    {
        match self {
            NipartLogLevel::Off => "off",
            NipartLogLevel::Error => "error",
            NipartLogLevel::Warn => "warn",
            NipartLogLevel::Info => "info",
            NipartLogLevel::Debug => "debug",
            NipartLogLevel::Trace => "trace",
        }
    }
}

impl NipartQueryOption {
    /// Asks for the state the kernel and the services are in now.
    pub fn running() -> (r: Self)
        ensures
            r.kind == NipartStateKind::Running,
    {
        NipartQueryOption { kind: NipartStateKind::Running }
    }

    /// Asks for the state that is stored as configuration.
    pub fn saved() -> (r: Self)
        ensures
            r.kind == NipartStateKind::Saved,
    {
        NipartQueryOption { kind: NipartStateKind::Saved }
    }

    /// Asks for the snapshot taken right after the last commit.
    pub fn post_last_commit() -> (r: Self)
        ensures
            r.kind == NipartStateKind::PostLastCommit,
    {
        NipartQueryOption { kind: NipartStateKind::PostLastCommit }
    }
}

} // verus!
