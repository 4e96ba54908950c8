//! Host name of the machine.

use crate::data::Data;
use crate::error::{verification_failure_view, NipartError, NipartErrorView};
use vstd::prelude::*;

verus! {

/// The host name in use and the one stored as configuration.
#[derive(Debug, PartialEq)]
pub struct HostNameState {
    pub running: Option<String>,
    pub config: Option<String>,
}

/// The mathematical value of a [`HostNameState`].
#[verifier::ext_equal]
pub struct HostNameStateView {
    pub running: Option<Seq<char>>,
    pub config: Option<Seq<char>>,
}

impl DeepView for HostNameState {
    type V = HostNameStateView;

    open spec fn deep_view(&self) -> HostNameStateView {
        HostNameStateView {
            running: self.running.deep_view(),
            config: self.config.deep_view(),
        }
    }
}

impl View for HostNameState {
    type V = HostNameStateView;

    open spec fn view(&self) -> HostNameStateView {
        self.deep_view()
    }
}

impl Data for HostNameState {
    fn same(&self, other: &Self) -> (b: bool) {
        self.running.same(&other.running)
            && self.config.same(&other.config)
    }

    fn dup(&self) -> (r: Self) {
        HostNameState {
            running: self.running.dup(),
            config: self.config.dup(),
        }
    }
}

/// Desired host name beside the current one.
#[derive(Debug, PartialEq)]
pub struct MergedHostNameState {
    pub desired: Option<HostNameState>,
    pub current: Option<HostNameState>,
}

/// The mathematical value of a [`MergedHostNameState`].
#[verifier::ext_equal]
pub struct MergedHostNameStateView {
    pub desired: Option<HostNameStateView>,
    pub current: Option<HostNameStateView>,
}

impl DeepView for MergedHostNameState {
    type V = MergedHostNameStateView;

    open spec fn deep_view(&self) -> MergedHostNameStateView {
        MergedHostNameStateView {
            desired: self.desired.deep_view(),
            current: self.current.deep_view(),
        }
    }
}

impl View for MergedHostNameState {
    type V = MergedHostNameStateView;

    open spec fn view(&self) -> MergedHostNameStateView {
        self.deep_view()
    }
}

impl Data for MergedHostNameState {
    fn same(&self, other: &Self) -> (b: bool) {
        self.desired.same(&other.desired)
            && self.current.same(&other.current)
    }

    fn dup(&self) -> (r: Self) {
        MergedHostNameState {
            desired: self.desired.dup(),
            current: self.current.dup(),
        }
    }
}

/// A name as it is shown in a failure; `null` stands for a missing one.
pub open spec fn name_or_null(name: Option<Seq<char>>) -> Seq<char> {
    match name {
        Some(n) => n,
        None => "null"@,
    }
}

/// Shows a name as it is shown in a failure.
pub fn text_or_null(name: &Option<String>) -> (s: &str)
    ensures
        s@ == name_or_null(name.deep_view()),
{
    match name {
        Some(n) => n.as_str(),
        None => "null",
    }
}

impl HostNameStateView {
    /// The host names after taking over those that `other` states.
    pub open spec fn updated(self, other: HostNameStateView) -> HostNameStateView {
        HostNameStateView {
            running: if other.running is Some {
                other.running
            } else {
                self.running
            },
            config: if other.config is Some {
                other.config
            } else {
                self.config
            },
        }
    }
}

impl HostNameState {
    /// Takes over the host names that `other` states.
    pub fn update(&mut self, other: &HostNameState)
        ensures
            final(self)@ == old(self)@.updated(other@),
    {
        if other.running.is_some() {
            self.running = other.running.dup();
        }
        if other.config.is_some() {
            self.config = other.config.dup();
        }
    }
}

impl MergedHostNameStateView {
    /// The first desired host name that `current` does not hold, as a
    /// failure: the name in use is looked at before the stored one.
    pub open spec fn failure(self, current: Option<HostNameStateView>) -> Option<NipartErrorView> {
        match self.desired {
            None => None,
            Some(d) => {
                let cur_running = match current {
                    Some(c) => c.running,
                    None => None,
                };
                let cur_config = match current {
                    Some(c) => c.config,
                    None => None,
                };
                if d.running is Some && d.running != cur_running {
                    Some(
                        verification_failure_view(
                            "hostname.running"@,
                            name_or_null(d.running),
                            name_or_null(cur_running),
                        ),
                    )
                } else if d.config is Some && d.config != cur_config {
                    Some(
                        verification_failure_view(
                            "hostname.config"@,
                            name_or_null(d.config),
                            name_or_null(cur_config),
                        ),
                    )
                } else {
                    None
                }
            },
        }
    }

    /// Whether a host name is desired that the current state does not hold.
    pub open spec fn is_changed(self) -> bool {
        self.failure(self.current) is Some
    }
}

impl MergedHostNameState {
    /// Lays the desired host names beside the current ones.
    pub fn new(desired: Option<HostNameState>, current: Option<HostNameState>) -> (r: Self)
        ensures
            r@.desired == desired.deep_view(),
            r@.current == current.deep_view(),
    {
        MergedHostNameState { desired, current }
    }

    /// Compares the desired host names with those found.
    pub fn verify(&self, current: Option<&HostNameState>) -> (r: Result<(), NipartError>)
        ensures
            match self@.failure(current.deep_view()) {
                None => r is Ok,
                Some(e) => r is Err && r->Err_0@ == e,
            },
    {
        let desired = match &self.desired {
            Some(d) => d,
            None => {
                return Ok(());
            },
        };
        let none: Option<String> = None;
        let (cur_running, cur_config) = match current {
            Some(c) => (&c.running, &c.config),
            None => (&none, &none),
        };
        if desired.running.is_some() && !desired.running.same(cur_running) {
            return Err(
                NipartError::verification_failure(
                    "hostname.running",
                    text_or_null(&desired.running),
                    text_or_null(cur_running),
                ),
            );
        }
        if desired.config.is_some() && !desired.config.same(cur_config) {
            return Err(
                NipartError::verification_failure(
                    "hostname.config",
                    text_or_null(&desired.config),
                    text_or_null(cur_config),
                ),
            );
        }
        Ok(())
    }

    /// Whether a host name is desired that the current state does not hold.
    pub fn is_changed(&self) -> (b: bool)
        ensures
            b == self@.is_changed(),
    {
        self.verify(self.current.as_ref()).is_err()
    }
}

} // verus!
