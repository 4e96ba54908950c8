//! Rules registered with monitor plugins and the events they raise.

use crate::data::Data;
use vstd::prelude::*;
use vstd::string::StringExecFns;

verus! {

/// What a monitor plugin watches on an interface.
#[derive(Clone, Copy, Debug, PartialEq, Eq, Structural)]
pub enum NipartMonitorKind {
    /// The link going up or down.
    Link,
    /// An address being added or removed.
    Address,
}

impl DeepView for NipartMonitorKind {
    type V = NipartMonitorKind;

    open spec fn deep_view(&self) -> NipartMonitorKind {
        *self
    }
}

impl Data for NipartMonitorKind {
    fn same(&self, other: &Self) -> (b: bool) {
        *self == *other
    }

    fn dup(&self) -> (r: Self) {
        *self
    }
}

/// A request to watch one interface.
#[derive(Debug, PartialEq)]
pub struct NipartMonitorRule {
    pub kind: NipartMonitorKind,
    pub iface: String,
}

/// The mathematical value of a [`NipartMonitorRule`].
#[verifier::ext_equal]
pub struct NipartMonitorRuleView {
    pub kind: NipartMonitorKind,
    pub iface: Seq<char>,
}

impl DeepView for NipartMonitorRule {
    type V = NipartMonitorRuleView;

    open spec fn deep_view(&self) -> NipartMonitorRuleView {
        NipartMonitorRuleView {
            kind: self.kind.deep_view(),
            iface: self.iface.deep_view(),
        }
    }
}

impl View for NipartMonitorRule {
    type V = NipartMonitorRuleView;

    open spec fn view(&self) -> NipartMonitorRuleView {
        self.deep_view()
    }
}

impl Data for NipartMonitorRule {
    fn same(&self, other: &Self) -> (b: bool) {
        self.kind.same(&other.kind)
            && self.iface.same(&other.iface)
    }

    fn dup(&self) -> (r: Self) {
        NipartMonitorRule {
            kind: self.kind.dup(),
            iface: self.iface.dup(),
        }
    }
}

/// A change seen on a watched interface.
#[derive(Debug, PartialEq)]
pub struct NipartMonitorEvent {
    pub kind: NipartMonitorKind,
    pub iface: String,
}

/// The mathematical value of a [`NipartMonitorEvent`].
#[verifier::ext_equal]
pub struct NipartMonitorEventView {
    pub kind: NipartMonitorKind,
    pub iface: Seq<char>,
}

impl DeepView for NipartMonitorEvent {
    type V = NipartMonitorEventView;

    open spec fn deep_view(&self) -> NipartMonitorEventView {
        NipartMonitorEventView {
            kind: self.kind.deep_view(),
            iface: self.iface.deep_view(),
        }
    }
}

impl View for NipartMonitorEvent {
    type V = NipartMonitorEventView;

    open spec fn view(&self) -> NipartMonitorEventView {
        self.deep_view()
    }
}

impl Data for NipartMonitorEvent {
    fn same(&self, other: &Self) -> (b: bool) {
        self.kind.same(&other.kind)
            && self.iface.same(&other.iface)
    }

    fn dup(&self) -> (r: Self) {
        NipartMonitorEvent {
            kind: self.kind.dup(),
            iface: self.iface.dup(),
        }
    }
}

impl NipartMonitorKind {
    /// The word a kind is shown as.
    pub open spec fn name_spec(self) -> Seq<char> {
        match self {
            NipartMonitorKind::Link => "link"@,
            NipartMonitorKind::Address => "address"@,
        }
    }

    /// The word this kind is shown as.
    pub fn name(&self) -> (s: &'static str)
        ensures
            s@ == self.name_spec(),
    {
        match self {
            NipartMonitorKind::Link => "link",
            NipartMonitorKind::Address => "address",
        }
    }
}

impl NipartMonitorRuleView {
    /// The text a rule is shown as: what is watched, a colon, the interface.
    pub open spec fn text(self) -> Seq<char> {
        self.kind.name_spec() + ":"@ + self.iface
    }
}

impl NipartMonitorRule {
    /// The text this rule is shown as.
    pub fn to_text(&self) -> (s: String)
        ensures
            s@ == self@.text(),
    {
        let mut s = String::from_str(self.kind.name());
        s.append(":");
        s.append(self.iface.as_str());
        s
    }
}

impl NipartMonitorEventView {
    /// The text an event is shown as: what changed, a colon, the interface.
    pub open spec fn text(self) -> Seq<char> {
        self.kind.name_spec() + ":"@ + self.iface
    }
}

impl NipartMonitorEvent {
    /// The text this event is shown as.
    pub fn to_text(&self) -> (s: String)
        ensures
            s@ == self@.text(),
    {
        let mut s = String::from_str(self.kind.name());
        s.append(":");
        s.append(self.iface.as_str());
        s
    }
}

} // verus!
