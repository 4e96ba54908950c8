//! Global Open vSwitch database settings.

use crate::data::Data;
use vstd::prelude::*;

verus! {

/// Key/value settings of the Open vSwitch database. A key bound to `None` asks for its removal.
#[derive(Debug, PartialEq)]
pub struct OvsDbGlobalConfig {
    pub external_ids: Option<Vec<(String, Option<String>)>>,
    pub other_config: Option<Vec<(String, Option<String>)>>,
}

/// The mathematical value of a [`OvsDbGlobalConfig`].
#[verifier::ext_equal]
pub struct OvsDbGlobalConfigView {
    pub external_ids: Option<Seq<(Seq<char>, Option<Seq<char>>)>>,
    pub other_config: Option<Seq<(Seq<char>, Option<Seq<char>>)>>,
}

impl DeepView for OvsDbGlobalConfig {
    type V = OvsDbGlobalConfigView;

    open spec fn deep_view(&self) -> OvsDbGlobalConfigView {
        OvsDbGlobalConfigView {
            external_ids: self.external_ids.deep_view(),
            other_config: self.other_config.deep_view(),
        }
    }
}

impl View for OvsDbGlobalConfig {
    type V = OvsDbGlobalConfigView;

    open spec fn view(&self) -> OvsDbGlobalConfigView {
        self.deep_view()
    }
}

impl Data for OvsDbGlobalConfig {
    fn same(&self, other: &Self) -> (b: bool) {
        self.external_ids.same(&other.external_ids)
            && self.other_config.same(&other.other_config)
    }

    fn dup(&self) -> (r: Self) {
        OvsDbGlobalConfig {
            external_ids: self.external_ids.dup(),
            other_config: self.other_config.dup(),
        }
    }
}

/// Desired database settings beside the current ones.
#[derive(Debug, PartialEq)]
pub struct MergedOvsDbGlobalConfig {
    pub desired: Option<OvsDbGlobalConfig>,
    pub current: OvsDbGlobalConfig,
    pub is_changed: bool,
}

/// The mathematical value of a [`MergedOvsDbGlobalConfig`].
#[verifier::ext_equal]
pub struct MergedOvsDbGlobalConfigView {
    pub desired: Option<OvsDbGlobalConfigView>,
    pub current: OvsDbGlobalConfigView,
    pub is_changed: bool,
}

impl DeepView for MergedOvsDbGlobalConfig {
    type V = MergedOvsDbGlobalConfigView;

    open spec fn deep_view(&self) -> MergedOvsDbGlobalConfigView {
        MergedOvsDbGlobalConfigView {
            desired: self.desired.deep_view(),
            current: self.current.deep_view(),
            is_changed: self.is_changed.deep_view(),
        }
    }
}

impl View for MergedOvsDbGlobalConfig {
    type V = MergedOvsDbGlobalConfigView;

    open spec fn view(&self) -> MergedOvsDbGlobalConfigView {
        self.deep_view()
    }
}

impl Data for MergedOvsDbGlobalConfig {
    fn same(&self, other: &Self) -> (b: bool) {
        self.desired.same(&other.desired)
            && self.current.same(&other.current)
            && self.is_changed.same(&other.is_changed)
    }

    fn dup(&self) -> (r: Self) {
        MergedOvsDbGlobalConfig {
            desired: self.desired.dup(),
            current: self.current.dup(),
            is_changed: self.is_changed.dup(),
        }
    }
}
} // verus!
