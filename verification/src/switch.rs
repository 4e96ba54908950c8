//! The switch: where an event is delivered.

use crate::data::Data;
use crate::error::{ErrorKind, NipartError, NipartErrorView};
use crate::event::{
    NipartEvent, NipartEventAddress, NipartEventAddressView, NipartEventView, NipartUserEvent,
    NipartUserEventView,
};
use crate::plugin::{NipartPluginEvent, NipartPluginEventView, NipartPluginInfoView, NipartRole};
use crate::roles::{count_with_role, PluginRoles, PluginRolesView};
use vstd::prelude::*;
use vstd::string::StringExecFns;

verus! {

/// Where the switch delivers an event.
#[derive(Debug, PartialEq)]
pub enum Delivery {
    /// To the user that waits for it.
    ToUser,
    /// To the daemon itself.
    ToDaemon,
    /// To the commander.
    ToCommander,
    /// To the plugins of these names, each of which gets a copy.
    ToPlugins(Vec<String>),
    /// To nobody: the plugin of this name is not known.
    NotFound(String),
}

/// The mathematical value of a [`Delivery`].
#[verifier::ext_equal]
pub enum DeliveryView {
    ToUser,
    ToDaemon,
    ToCommander,
    ToPlugins(Seq<Seq<char>>),
    NotFound(Seq<char>),
}

impl DeepView for Delivery {
    type V = DeliveryView;

    open spec fn deep_view(&self) -> DeliveryView {
        match self {
            Self::ToUser => DeliveryView::ToUser,
            Self::ToDaemon => DeliveryView::ToDaemon,
            Self::ToCommander => DeliveryView::ToCommander,
            Self::ToPlugins(a0) => DeliveryView::ToPlugins(a0.deep_view()),
            Self::NotFound(a0) => DeliveryView::NotFound(a0.deep_view()),
        }
    }
}

impl View for Delivery {
    type V = DeliveryView;

    open spec fn view(&self) -> DeliveryView {
        self.deep_view()
    }
}

impl Data for Delivery {
    fn same(&self, other: &Self) -> (b: bool) {
        match (self, other) {
            (Self::ToUser, Self::ToUser) => true,
            (Self::ToDaemon, Self::ToDaemon) => true,
            (Self::ToCommander, Self::ToCommander) => true,
            (Self::ToPlugins(a0), Self::ToPlugins(b0)) => a0.same(b0),
            (Self::NotFound(a0), Self::NotFound(b0)) => a0.same(b0),
            _ => false,
        }
    }

    fn dup(&self) -> (r: Self) {
        match self {
            Self::ToUser => Self::ToUser,
            Self::ToDaemon => Self::ToDaemon,
            Self::ToCommander => Self::ToCommander,
            Self::ToPlugins(a0) => Self::ToPlugins(a0.dup()),
            Self::NotFound(a0) => Self::NotFound(a0.dup()),
        }
    }
}
/// The names of the plugins of a list that hold `role`, in the order of
/// the list.
pub open spec fn names_with_role(plugins: Seq<NipartPluginInfoView>, role: NipartRole) -> Seq<
    Seq<char>,
>
    decreases plugins.len(),
{
    if plugins.len() == 0 {
        Seq::empty()
    } else {
        let rest = names_with_role(plugins.drop_last(), role);
        if plugins.last().roles.contains(role) {
            rest.push(plugins.last().name)
        } else {
            rest
        }
    }
}

/// The names of all plugins of a list.
pub open spec fn all_names(plugins: Seq<NipartPluginInfoView>) -> Seq<Seq<char>> {
    plugins.map_values(|p: NipartPluginInfoView| p.name)
}

/// Whether a plugin of the name is known.
pub open spec fn is_known(plugins: Seq<NipartPluginInfoView>, name: Seq<char>) -> bool {
    exists|i: int| 0 <= i < plugins.len() && (#[trigger] plugins[i]).name == name
}

/// Where an event with the destination `dst` is delivered, given the
/// plugins that are known.
///
/// An event for one plugin goes to that plugin, or to nobody when no plugin
/// of the name is known. An event for a role goes to every plugin that
/// holds the role. An event for all plugins goes to every plugin. An event
/// for the DHCP plugin goes to the first plugin that holds the DHCP role,
/// so to one plugin at most.
pub open spec fn delivery_of(dst: NipartEventAddressView, roles: PluginRolesView) -> DeliveryView {
    match dst {
        NipartEventAddressView::User => DeliveryView::ToUser,
        NipartEventAddressView::Daemon => DeliveryView::ToDaemon,
        NipartEventAddressView::Commander => DeliveryView::ToCommander,
        NipartEventAddressView::Unicast(name) => if is_known(roles.plugins, name) {
            DeliveryView::ToPlugins(seq![name])
        } else {
            DeliveryView::NotFound(name)
        },
        NipartEventAddressView::Group(role) => DeliveryView::ToPlugins(
            names_with_role(roles.plugins, role),
        ),
        NipartEventAddressView::AllPlugins => DeliveryView::ToPlugins(all_names(roles.plugins)),
        NipartEventAddressView::Dhcp => DeliveryView::ToPlugins(
            names_with_role(roles.plugins, NipartRole::Dhcp).take(
                if names_with_role(roles.plugins, NipartRole::Dhcp).len() > 0 {
                    1
                } else {
                    0
                },
            ),
        ),
    }
}

/// The error for a plugin that is not known.
pub open spec fn plugin_not_found_view(name: Seq<char>) -> NipartErrorView {
    NipartErrorView { kind: ErrorKind::PluginNotFound, msg: "Plugin '"@ + name + "' not found"@ }
}

/// The reply to an event that was sent to a plugin that is not known: it
/// carries the identifier of the event back to where the event came from.
pub open spec fn not_found_reply_view(event: NipartEventView, name: Seq<char>) -> NipartEventView {
    NipartEventView {
        uuid: event.uuid,
        user: NipartUserEventView::Error(plugin_not_found_view(name)),
        plugin: NipartPluginEventView::Nil,
        src: NipartEventAddressView::Daemon,
        dst: event.src,
        timeout: event.timeout,
        postpone_millis: 0,
    }
}

impl PluginRoles {
    /// The names of the plugins that hold `role`.
    pub fn names_with_role(&self, role: NipartRole) -> (r: Vec<String>)
        ensures
            r.deep_view() == names_with_role(self@.plugins, role),
    {
        let mut out: Vec<String> = Vec::new();
        let mut i: usize = 0;
        assert(self@.plugins.take(0) =~= Seq::empty());
        assert(out.deep_view() =~= Seq::empty());
        while i < self.plugins.len()
            invariant
                i <= self.plugins.len(),
                out.deep_view() == names_with_role(self@.plugins.take(i as int), role),
            decreases self.plugins.len() - i,
        {
            let ghost before = out.deep_view();
            assert(self@.plugins.take(i + 1).drop_last() =~= self@.plugins.take(i as int));
            assert(self@.plugins.take(i + 1).last() == self.plugins[i as int]@);
            if self.plugins[i].has_role(role) {
                out.push(self.plugins[i].name.dup());
                assert(out.deep_view() =~= before.push(self.plugins[i as int]@.name));
            }
            i += 1;
        }
        assert(self@.plugins.take(self.plugins.len() as int) =~= self@.plugins);
        out
    }

    /// The names of all plugins.
    pub fn all_names(&self) -> (r: Vec<String>)
        ensures
            r.deep_view() == all_names(self@.plugins),
    {
        let mut out: Vec<String> = Vec::new();
        let mut i: usize = 0;
        while i < self.plugins.len()
            invariant
                i <= self.plugins.len(),
                out.len() == i,
                forall|j: int| 0 <= j < i ==> out[j]@ == (#[trigger] self.plugins[j])@.name,
            decreases self.plugins.len() - i,
        {
            out.push(self.plugins[i].name.dup());
            i += 1;
        }
        assert(out.deep_view() =~= all_names(self@.plugins));
        out
    }

    /// Whether a plugin of the name is known.
    pub fn is_known(&self, name: &String) -> (b: bool)
        ensures
            b == is_known(self@.plugins, name@),
    {
        let mut i: usize = 0;
        while i < self.plugins.len()
            invariant
                i <= self.plugins.len(),
                forall|j: int| 0 <= j < i ==> (#[trigger] self@.plugins[j]).name != name@,
            decreases self.plugins.len() - i,
        {
            if self.plugins[i].name.same(name) {
                assert(self@.plugins[i as int].name == name@);
                return true;
            }
            i += 1;
        }
        false
    }
}

/// Tells where an event with the destination `dst` is delivered.
pub fn deliver(dst: &NipartEventAddress, roles: &PluginRoles) -> (r: Delivery)
    ensures
        r@ == delivery_of(dst@, roles@),
{
    match dst {
        NipartEventAddress::User => Delivery::ToUser,
        NipartEventAddress::Daemon => Delivery::ToDaemon,
        NipartEventAddress::Commander => Delivery::ToCommander,
        NipartEventAddress::Unicast(name) => {
            if roles.is_known(name) {
                let one = vec![name.dup()];
                assert(one.deep_view() =~= seq![name@]);
                Delivery::ToPlugins(one)
            } else {
                Delivery::NotFound(name.dup())
            }
        },
        NipartEventAddress::Group(role) => Delivery::ToPlugins(roles.names_with_role(*role)),
        NipartEventAddress::AllPlugins => Delivery::ToPlugins(roles.all_names()),
        NipartEventAddress::Dhcp => {
            let mut names = roles.names_with_role(NipartRole::Dhcp);
            let ghost all = names.deep_view();
            if names.len() > 0 {
                let first = names[0].dup();
                let one = vec![first];
                assert(one.deep_view() =~= all.take(1));
                Delivery::ToPlugins(one)
            } else {
                assert(names.deep_view() =~= all.take(0));
                Delivery::ToPlugins(names)
            }
        },
    }
}

/// The reply to an event that was sent to a plugin that is not known.
pub fn not_found_reply(event: &NipartEvent, name: &str) -> (reply: NipartEvent)
    ensures
        reply@ == not_found_reply_view(event@, name@),
{
    let mut msg = String::from_str("Plugin '");
    msg.append(name);
    msg.append("' not found");
    NipartEvent {
        uuid: event.uuid,
        user: NipartUserEvent::Error(NipartError::new(ErrorKind::PluginNotFound, msg)),
        plugin: NipartPluginEvent::Nil,
        src: NipartEventAddress::Daemon,
        dst: event.src.dup(),
        timeout: event.timeout,
        postpone_millis: 0,
    }
}

/// The switch and the commander agree. An event for a role is delivered to
/// as many plugins as the commander awaits replies from, and so is an
/// event for all plugins.
pub proof fn law_fan_out_matches_awaited_replies(roles: PluginRolesView, role: NipartRole)
    ensures
        names_with_role(roles.plugins, role).len() == count_with_role(roles.plugins, role),
        all_names(roles.plugins).len() == roles.plugins.len(),
    decreases roles.plugins.len(),
{
    if roles.plugins.len() > 0 {
        law_fan_out_matches_awaited_replies(
            PluginRolesView { plugins: roles.plugins.drop_last() },
            role,
        );
    }
}

/// Every plugin that an event for a role is delivered to holds the role,
/// and every plugin that holds the role gets the event.
pub proof fn law_group_delivery(plugins: Seq<NipartPluginInfoView>, role: NipartRole)
    ensures
        forall|name: Seq<char>|
            names_with_role(plugins, role).contains(name) <==> exists|i: int|
                0 <= i < plugins.len() && (#[trigger] plugins[i]).name == name
                    && plugins[i].roles.contains(role),
    decreases plugins.len(),
{
    if plugins.len() == 0 {
        assert forall|name: Seq<char>| !names_with_role(plugins, role).contains(name) by {}
    } else {
        let front = plugins.drop_last();
        law_group_delivery(front, role);
        let rest = names_with_role(front, role);
        let all = names_with_role(plugins, role);
        assert forall|name: Seq<char>|
            all.contains(name) <==> exists|i: int|
                0 <= i < plugins.len() && (#[trigger] plugins[i]).name == name
                    && plugins[i].roles.contains(role) by {
            if all.contains(name) {
                let k = choose|k: int| 0 <= k < all.len() && all[k] == name;
                if k < rest.len() {
                    assert(rest[k] == name);
                    assert(rest.contains(name));
                    let i = choose|i: int|
                        0 <= i < front.len() && (#[trigger] front[i]).name == name
                            && front[i].roles.contains(role);
                    assert(plugins[i] == front[i]);
                } else {
                    assert(plugins[plugins.len() - 1].name == name);
                }
            }
            if exists|i: int|
                0 <= i < plugins.len() && (#[trigger] plugins[i]).name == name
                    && plugins[i].roles.contains(role) {
                let i = choose|i: int|
                    0 <= i < plugins.len() && (#[trigger] plugins[i]).name == name
                        && plugins[i].roles.contains(role);
                if i < front.len() {
                    assert(front[i] == plugins[i]);
                    assert(rest.contains(name));
                    let k = choose|k: int| 0 <= k < rest.len() && rest[k] == name;
                    assert(all[k] == name);
                } else {
                    assert(plugins.last() == plugins[i]);
                    assert(all[rest.len() as int] == name);
                }
            }
        }
    }
}

} // verus!
