//! The plugins that are known and the roles they hold.

use crate::data::Data;
use crate::plugin::{NipartPluginInfo, NipartPluginInfoView, NipartRole};
use vstd::prelude::*;

verus! {

/// A snapshot of the plugins and their roles. It is replaced as a whole when plugins come or go.
#[derive(Debug, PartialEq)]
pub struct PluginRoles {
    pub plugins: Vec<NipartPluginInfo>,
}

/// The mathematical value of a [`PluginRoles`].
#[verifier::ext_equal]
pub struct PluginRolesView {
    pub plugins: Seq<NipartPluginInfoView>,
}

impl DeepView for PluginRoles {
    type V = PluginRolesView;

    open spec fn deep_view(&self) -> PluginRolesView {
        PluginRolesView {
            plugins: self.plugins.deep_view(),
        }
    }
}

impl View for PluginRoles {
    type V = PluginRolesView;

    open spec fn view(&self) -> PluginRolesView {
        self.deep_view()
    }
}

impl Data for PluginRoles {
    fn same(&self, other: &Self) -> (b: bool) {
        self.plugins.same(&other.plugins)
    }

    fn dup(&self) -> (r: Self) {
        PluginRoles {
            plugins: self.plugins.dup(),
        }
    }
}

/// The number of plugins of a list that hold `role`.
pub open spec fn count_with_role(plugins: Seq<NipartPluginInfoView>, role: NipartRole) -> nat
    decreases plugins.len(),
{
    if plugins.len() == 0 {
        0
    } else {
        count_with_role(plugins.drop_last(), role) + if plugins.last().roles.contains(role) {
            1nat
        } else {
            0nat
        }
    }
}

impl NipartPluginInfo {
    /// Whether the plugin holds `role`.
    pub fn has_role(&self, role: NipartRole) -> (b: bool)
        ensures
            b == self@.roles.contains(role),
    {
        let mut i: usize = 0;
        while i < self.roles.len()
            invariant
                i <= self.roles.len(),
                forall|j: int| 0 <= j < i ==> self@.roles[j] != role,
            decreases self.roles.len() - i,
        {
            if self.roles[i] == role {
                assert(self@.roles[i as int] == role);
                return true;
            }
            i += 1;
        }
        false
    }
}

impl PluginRoles {
    /// A snapshot of the given plugins.
    pub fn new(plugins: Vec<NipartPluginInfo>) -> (r: Self)
        ensures
            r@.plugins == plugins.deep_view(),
    {
        PluginRoles { plugins }
    }

    /// The number of plugins.
    pub fn all_plugin_count(&self) -> (n: usize)
        ensures
            n == self@.plugins.len(),
    {
        self.plugins.len()
    }

    /// The number of plugins that hold `role`.
    pub fn role_count(&self, role: NipartRole) -> (n: usize)
        ensures
            n == count_with_role(self@.plugins, role),
    {
        let mut n: usize = 0;
        let mut i: usize = 0;
        assert(self@.plugins.take(0) =~= Seq::empty());
        while i < self.plugins.len()
            invariant
                i <= self.plugins.len(),
                n <= i,
                n == count_with_role(self@.plugins.take(i as int), role),
            decreases self.plugins.len() - i,
        {
            assert(self@.plugins.take(i + 1).drop_last() =~= self@.plugins.take(i as int));
            assert(self@.plugins.take(i + 1).last() == self.plugins[i as int]@);
            if self.plugins[i].has_role(role) {
                n += 1;
            }
            i += 1;
        }
        assert(self@.plugins.take(self.plugins.len() as int) =~= self@.plugins);
        n
    }
}

} // verus!
