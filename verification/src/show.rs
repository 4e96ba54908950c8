//! The `show` command of the command line tool.

use crate::data::Data;
use crate::error::{NipartError, NipartErrorView};
use crate::net_state::NetworkState;
use vstd::prelude::*;
use vstd::string::StringExecFns;

verus! {

/// Which state the `show` command prints.
#[derive(Clone, Copy, Debug, PartialEq, Eq, Structural)]
pub enum ShowMode {
    /// The state that is stored as configuration.
    Saved,
    /// What of the running state differs from the snapshot taken after the last commit.
    Diff,
}

impl DeepView for ShowMode {
    type V = ShowMode;

    open spec fn deep_view(&self) -> ShowMode {
        *self
    }
}

impl Data for ShowMode {
    fn same(&self, other: &Self) -> (b: bool) {
        *self == *other
    }

    fn dup(&self) -> (r: Self) {
        *self
    }
}

/// Who found the error that the command line tool reports.
#[derive(Clone, Copy, Debug, PartialEq, Eq, Structural)]
pub enum CliErrorKind {
    /// The tool itself: the command line cannot be served.
    Usage,
    /// The daemon or the state model.
    Daemon,
}

impl DeepView for CliErrorKind {
    type V = CliErrorKind;

    open spec fn deep_view(&self) -> CliErrorKind {
        *self
    }
}

impl Data for CliErrorKind {
    fn same(&self, other: &Self) -> (b: bool) {
        *self == *other
    }

    fn dup(&self) -> (r: Self) {
        *self
    }
}

/// An error that the command line tool reports.
#[derive(Debug, PartialEq)]
pub struct CliError {
    pub kind: CliErrorKind,
    pub msg: String,
}

/// The mathematical value of a [`CliError`].
#[verifier::ext_equal]
pub struct CliErrorView {
    pub kind: CliErrorKind,
    pub msg: Seq<char>,
}

impl DeepView for CliError {
    type V = CliErrorView;

    open spec fn deep_view(&self) -> CliErrorView {
        CliErrorView {
            kind: self.kind.deep_view(),
            msg: self.msg.deep_view(),
        }
    }
}

impl View for CliError {
    type V = CliErrorView;

    open spec fn view(&self) -> CliErrorView {
        self.deep_view()
    }
}

impl Data for CliError {
    fn same(&self, other: &Self) -> (b: bool) {
        self.kind.same(&other.kind)
            && self.msg.same(&other.msg)
    }

    fn dup(&self) -> (r: Self) {
        CliError {
            kind: self.kind.dup(),
            msg: self.msg.dup(),
        }
    }
}

/// The message for a command line that asks for both the difference and
/// the stored state.
pub open spec fn both_flags_message() -> Seq<char> {
    "--diff and --saved option cannot be defined at the same time"@
}

impl CliErrorView {
    /// The error of the tool for an error of the daemon or the state model:
    /// it keeps the text of that error.
    pub open spec fn of(e: NipartErrorView) -> CliErrorView {
        CliErrorView { kind: CliErrorKind::Daemon, msg: e.text() }
    }
}

impl CliError {
    /// An error in the use of the command line.
    pub fn usage(msg: &str) -> (e: Self)
        ensures
            e@ == (CliErrorView { kind: CliErrorKind::Usage, msg: msg@ }),
    {
        CliError { kind: CliErrorKind::Usage, msg: String::from_str(msg) }
    }

    /// The error of the tool for an error of the daemon or the state model.
    pub fn from_error(e: &NipartError) -> (r: Self)
        ensures
            r@ == CliErrorView::of(e@),
    {
        CliError { kind: CliErrorKind::Daemon, msg: e.to_text() }
    }

    /// The exit code for this error: 1 for an error in the use of the
    /// command line, 2 for an error that the daemon reported.
    pub fn exit_code(&self) -> (code: u8)
        ensures
            code == exit_code_of(Err::<(), CliErrorView>(self@)),
    {
        match self.kind {
            CliErrorKind::Usage => 1,
            CliErrorKind::Daemon => 2,
        }
    }
}

/// The exit code of the tool: 0 on success, 1 for an error in the use of
/// the command line, 2 for an error that the daemon reported.
pub open spec fn exit_code_of(result: Result<(), CliErrorView>) -> u8 {
    match result {
        Ok(_) => 0,
        Err(e) => match e.kind {
            CliErrorKind::Usage => 1,
            CliErrorKind::Daemon => 2,
        },
    }
}

/// The exit code of the tool for the result of a command.
pub fn exit_code(result: &Result<(), CliError>) -> (code: u8)
    ensures
        code == exit_code_of(
            match *result {
                Ok(_) => Ok(()),
                Err(e) => Err(e@),
            },
        ),
{
    match result {
        Ok(_) => 0,
        Err(e) => e.exit_code(),
    }
}

/// The `show` command.
pub struct ShowCommand;

impl ShowCommand {
    /// The name of the command.
    pub const NAME: &'static str = "show";

    /// Decides what to print from the two flags of the command. Both flags
    /// at once are an error in the use of the command line, and the error
    /// names both; without a flag the stored state is printed.
    pub fn mode(diff: bool, saved: bool) -> (r: Result<ShowMode, CliError>)
        ensures
            diff && saved ==> r is Err && r->Err_0@ == (CliErrorView {
                kind: CliErrorKind::Usage,
                msg: both_flags_message(),
            }),
            !diff && saved ==> r == Ok::<ShowMode, CliError>(ShowMode::Saved),
            diff && !saved ==> r == Ok::<ShowMode, CliError>(ShowMode::Diff),
            !diff && !saved ==> r == Ok::<ShowMode, CliError>(ShowMode::Saved),
    {
        if diff && saved {
            return Err(
                CliError::usage("--diff and --saved option cannot be defined at the same time"),
            );
        }
        if saved {
            Ok(ShowMode::Saved)
        } else if diff {
            Ok(ShowMode::Diff)
        } else {
            Ok(ShowMode::Saved)
        }
    }

    /// What of the running state differs from the snapshot taken after the
    /// last commit.
    pub fn get_diff_state(post_commit_state: &NetworkState, cur_net_state: &NetworkState) -> (r:
        Result<NetworkState, CliError>)
        ensures
            match cur_net_state@.diff(post_commit_state@) {
                Ok(d) => r is Ok && r->Ok_0@ == d,
                Err(e) => r is Err && r->Err_0@ == CliErrorView::of(e),
            },
    {
        match cur_net_state.gen_diff(post_commit_state) {
            Ok(d) => Ok(d),
            Err(e) => Err(CliError::from_error(&e)),
        }
    }
}

} // verus!
