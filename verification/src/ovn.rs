//! OVN bridge mappings.

use crate::data::Data;
use crate::error::{verification_failure_view, ErrorKind, NipartError, NipartErrorView};
use crate::names::{join_names, joined};
use vstd::prelude::*;
use vstd::string::{StrSliceExecFns, StringExecFns};

verus! {

/// Mapping of an OVN local network to an OVS bridge.
#[derive(Debug, PartialEq)]
pub struct OvnBridgeMapping {
    pub localnet: String,
    pub bridge: Option<String>,
}

/// The mathematical value of a [`OvnBridgeMapping`].
#[verifier::ext_equal]
pub struct OvnBridgeMappingView {
    pub localnet: Seq<char>,
    pub bridge: Option<Seq<char>>,
}

impl DeepView for OvnBridgeMapping {
    type V = OvnBridgeMappingView;

    open spec fn deep_view(&self) -> OvnBridgeMappingView {
        OvnBridgeMappingView {
            localnet: self.localnet.deep_view(),
            bridge: self.bridge.deep_view(),
        }
    }
}

impl View for OvnBridgeMapping {
    type V = OvnBridgeMappingView;

    open spec fn view(&self) -> OvnBridgeMappingView {
        self.deep_view()
    }
}

impl Data for OvnBridgeMapping {
    fn same(&self, other: &Self) -> (b: bool) {
        self.localnet.same(&other.localnet)
            && self.bridge.same(&other.bridge)
    }

    fn dup(&self) -> (r: Self) {
        OvnBridgeMapping {
            localnet: self.localnet.dup(),
            bridge: self.bridge.dup(),
        }
    }
}

/// The OVN part of a network state.
#[derive(Debug, PartialEq)]
pub struct OvnConfiguration {
    pub bridge_mappings: Option<Vec<OvnBridgeMapping>>,
}

/// The mathematical value of a [`OvnConfiguration`].
#[verifier::ext_equal]
pub struct OvnConfigurationView {
    pub bridge_mappings: Option<Seq<OvnBridgeMappingView>>,
}

impl DeepView for OvnConfiguration {
    type V = OvnConfigurationView;

    open spec fn deep_view(&self) -> OvnConfigurationView {
        OvnConfigurationView {
            bridge_mappings: self.bridge_mappings.deep_view(),
        }
    }
}

impl View for OvnConfiguration {
    type V = OvnConfigurationView;

    open spec fn view(&self) -> OvnConfigurationView {
        self.deep_view()
    }
}

impl Data for OvnConfiguration {
    fn same(&self, other: &Self) -> (b: bool) {
        self.bridge_mappings.same(&other.bridge_mappings)
    }

    fn dup(&self) -> (r: Self) {
        OvnConfiguration {
            bridge_mappings: self.bridge_mappings.dup(),
        }
    }
}

/// Desired OVN configuration beside the current one.
#[derive(Debug, PartialEq)]
pub struct MergedOvnConfiguration {
    pub desired: OvnConfiguration,
    pub current: OvnConfiguration,
}

/// The mathematical value of a [`MergedOvnConfiguration`].
#[verifier::ext_equal]
pub struct MergedOvnConfigurationView {
    pub desired: OvnConfigurationView,
    pub current: OvnConfigurationView,
}

impl DeepView for MergedOvnConfiguration {
    type V = MergedOvnConfigurationView;

    open spec fn deep_view(&self) -> MergedOvnConfigurationView {
        MergedOvnConfigurationView {
            desired: self.desired.deep_view(),
            current: self.current.deep_view(),
        }
    }
}

impl View for MergedOvnConfiguration {
    type V = MergedOvnConfigurationView;

    open spec fn view(&self) -> MergedOvnConfigurationView {
        self.deep_view()
    }
}

impl Data for MergedOvnConfiguration {
    fn same(&self, other: &Self) -> (b: bool) {
        self.desired.same(&other.desired)
            && self.current.same(&other.current)
    }

    fn dup(&self) -> (r: Self) {
        MergedOvnConfiguration {
            desired: self.desired.dup(),
            current: self.current.dup(),
        }
    }
}

/// The index, at or after `from`, of the first `sep` in `s`; the length of
/// `s` when there is none.
pub open spec fn next_sep(s: Seq<char>, sep: char, from: int) -> int
    decreases s.len() - from,
{
    if from < 0 || from >= s.len() {
        s.len() as int
    } else if s[from] == sep {
        from
    } else {
        next_sep(s, sep, from + 1)
    }
}

/// The mapping that a segment of the form `localnet:bridge` states; `None`
/// unless the segment holds exactly one colon.
pub open spec fn mapping_of(seg: Seq<char>) -> Option<OvnBridgeMappingView> {
    let c = next_sep(seg, ':', 0);
    if c < seg.len() && next_sep(seg, ':', c + 1) == seg.len() {
        Some(
            OvnBridgeMappingView {
                localnet: seg.subrange(0, c),
                bridge: Some(seg.subrange(c + 1, seg.len() as int)),
            },
        )
    } else {
        None
    }
}

/// The mappings that the text states from index `from` on: segments are
/// parted by commas, empty segments are passed over, and the first segment
/// that states no mapping is the error.
pub open spec fn mappings_from(s: Seq<char>, from: int) -> Result<
    Seq<OvnBridgeMappingView>,
    Seq<char>,
>
    decreases s.len() - from,
{
    if from < 0 || from > s.len() {
        Ok(Seq::empty())
    } else {
        let e = next_sep(s, ',', from);
        let seg = s.subrange(from, e);
        if seg.len() > 0 && mapping_of(seg) is None {
            Err(seg)
        } else if e < from || e >= s.len() {
            if seg.len() == 0 {
                Ok(Seq::empty())
            } else {
                Ok(seq![mapping_of(seg)->0])
            }
        } else {
            with_first(
                if seg.len() == 0 {
                    None
                } else {
                    mapping_of(seg)
                },
                mappings_from(s, e + 1),
            )
        }
    }
}

/// The mappings of `rest` with `first`, when there is one, before them.
pub open spec fn with_first(
    first: Option<OvnBridgeMappingView>,
    rest: Result<Seq<OvnBridgeMappingView>, Seq<char>>,
) -> Result<Seq<OvnBridgeMappingView>, Seq<char>> {
    match rest {
        Ok(r) => match first {
            Some(m) => Ok(seq![m] + r),
            None => Ok(r),
        },
        Err(x) => Err(x),
    }
}

/// The mappings of `rest` with those of `front` before them.
pub open spec fn with_front(
    front: Seq<OvnBridgeMappingView>,
    rest: Result<Seq<OvnBridgeMappingView>, Seq<char>>,
) -> Result<Seq<OvnBridgeMappingView>, Seq<char>> {
    match rest {
        Ok(r) => Ok(front + r),
        Err(x) => Err(x),
    }
}

/// The error for a segment that states no mapping.
pub open spec fn bad_mapping_view(seg: Seq<char>) -> NipartErrorView {
    NipartErrorView {
        kind: ErrorKind::InvalidArgument,
        msg: "Expecting an OVN bridge mapping as 'localnet:bridge', but got '"@ + seg + "'"@,
    }
}

/// Finds the first `sep` at or after `from`.
fn find_sep(s: &str, sep: char, from: usize, len: usize) -> (e: usize)
    requires
        len == s@.len(),
        from <= len,
    ensures
        e == next_sep(s@, sep, from as int),
        from <= e <= len,
{
    let mut i: usize = from;
    while i < len
        invariant
            from <= i <= len,
            len == s@.len(),
            next_sep(s@, sep, from as int) == next_sep(s@, sep, i as int),
        decreases len - i,
    {
        if s.get_char(i) == sep {
            return i;
        }
        i += 1;
    }
    i
}

impl OvnBridgeMapping {
    /// Reads a mapping written as `localnet:bridge`.
    pub fn parse(seg: &str) -> (r: Option<OvnBridgeMapping>)
        ensures
            r.deep_view() == mapping_of(seg@),
    {
        let len = seg.unicode_len();
        let c = find_sep(seg, ':', 0, len);
        if c < len && find_sep(seg, ':', c + 1, len) == len {
            Some(
                OvnBridgeMapping {
                    localnet: String::from_str(seg.substring_char(0, c)),
                    bridge: Some(String::from_str(seg.substring_char(c + 1, len))),
                },
            )
        } else {
            None
        }
    }
}

impl OvnConfigurationView {
    /// Whether no bridge mappings are stated.
    pub open spec fn is_none(self) -> bool {
        self.bridge_mappings is None
    }

    /// The configuration that a text of comma separated mappings states, or
    /// the error for its first segment that states none.
    pub open spec fn parsed(text: Seq<char>) -> Result<OvnConfigurationView, NipartErrorView> {
        match mappings_from(text, 0) {
            Ok(maps) => Ok(OvnConfigurationView { bridge_mappings: Some(maps) }),
            Err(seg) => Err(bad_mapping_view(seg)),
        }
    }
}

impl OvnConfiguration {
    /// A configuration that states nothing.
    pub fn new() -> (r: Self)
        ensures
            r@.bridge_mappings is None,
    {
        OvnConfiguration { bridge_mappings: None }
    }

    /// Whether no bridge mappings are stated.
    pub fn is_none(&self) -> (b: bool)
        ensures
            b == self@.is_none(),
    {
        self.bridge_mappings.is_none()
    }

    /// Reads a configuration from mappings written as
    /// `localnet:bridge,localnet:bridge`. Empty segments are passed over.
    /// Fails with `InvalidArgument` on the first segment that does not hold
    /// exactly one colon.
    pub fn parse(text: &str) -> (r: Result<OvnConfiguration, NipartError>)
        ensures
            match OvnConfigurationView::parsed(text@) {
                Ok(c) => r is Ok && r->Ok_0@ == c,
                Err(e) => r is Err && r->Err_0@ == e,
            },
    {
        let len = text.unicode_len();
        let mut maps: Vec<OvnBridgeMapping> = Vec::new();
        let mut pos: usize = 0;
        let mut done = false;
        assert(maps.deep_view() =~= Seq::empty());
        assert(with_front(maps.deep_view(), mappings_from(text@, 0)) == mappings_from(text@, 0))
            by {
            match mappings_from(text@, 0) {
                Ok(r) => {
                    assert(Seq::<OvnBridgeMappingView>::empty() + r =~= r);
                },
                Err(_) => {},
            }
        }
        while !done
            invariant
                pos <= len,
                len == text@.len(),
                mappings_from(text@, 0) == if done {
                    Ok::<Seq<OvnBridgeMappingView>, Seq<char>>(maps.deep_view())
                } else {
                    with_front(maps.deep_view(), mappings_from(text@, pos as int))
                },
            decreases
                    if done {
                        0
                    } else {
                        len - pos + 1
                    },
        {
            let ghost before = maps.deep_view();
            let e = find_sep(text, ',', pos, len);
            let seg = text.substring_char(pos, e);
            if e > pos {
                match OvnBridgeMapping::parse(seg) {
                    Some(m) => {
                        maps.push(m);
                        assert(maps.deep_view() =~= before.push(mapping_of(seg@)->0));
                    },
                    None => {
                        let mut msg = String::from_str(
                            "Expecting an OVN bridge mapping as 'localnet:bridge', but got '",
                        );
                        msg.append(seg);
                        msg.append("'");
                        return Err(NipartError::new(ErrorKind::InvalidArgument, msg));
                    },
                }
            }
            proof {
                let rest = mappings_from(text@, e + 1);
                if e < len {
                    match rest {
                        Ok(r) => {
                            if e > pos {
                                assert(before + (seq![mapping_of(seg@)->0] + r) =~= before.push(
                                    mapping_of(seg@)->0,
                                ) + r);
                            }
                        },
                        Err(_) => {},
                    }
                } else {
                    if e > pos {
                        assert(before + seq![mapping_of(seg@)->0] =~= before.push(
                            mapping_of(seg@)->0,
                        ));
                    } else {
                        assert(before + Seq::<OvnBridgeMappingView>::empty() =~= before);
                    }
                }
            }
            if e < len {
                pos = e + 1;
            } else {
                done = true;
            }
        }
        Ok(OvnConfiguration { bridge_mappings: Some(maps) })
    }
}

impl OvnBridgeMappingView {
    /// The mapping as it is written: the local network, a colon and the
    /// bridge, or nothing after the colon where no bridge is stated.
    pub open spec fn text(self) -> Seq<char> {
        self.localnet + ":"@ + match self.bridge {
            Some(b) => b,
            None => Seq::empty(),
        }
    }
}

impl OvnBridgeMapping {
    /// The mapping as it is written.
    pub fn to_text(&self) -> (s: String)
        ensures
            s@ == self@.text(),
    {
        let mut s = self.localnet.dup();
        s.append(":");
        match &self.bridge {
            Some(b) => {
                s.append(b.as_str());
            },
            None => {
                assert(s@ =~= self@.text());
            },
        }
        s
    }
}

impl OvnConfigurationView {
    /// The configuration as it is written: the mappings with commas between
    /// them, or `null` where none are stated.
    pub open spec fn text(self) -> Seq<char> {
        match self.bridge_mappings {
            Some(maps) => joined(maps.map_values(|m: OvnBridgeMappingView| m.text()), ","@),
            None => "null"@,
        }
    }
}

impl OvnConfiguration {
    /// The configuration as it is written.
    pub fn to_text(&self) -> (s: String)
        ensures
            s@ == self@.text(),
    {
        match &self.bridge_mappings {
            Some(maps) => {
                let mut texts: Vec<String> = Vec::new();
                let mut i: usize = 0;
                while i < maps.len()
                    invariant
                        i <= maps.len(),
                        texts.len() == i,
                        forall|j: int| 0 <= j < i ==> texts[j]@ == (#[trigger] maps[j])@.text(),
                    decreases maps.len() - i,
                {
                    texts.push(maps[i].to_text());
                    i += 1;
                }
                assert(texts.deep_view() =~= maps.deep_view().map_values(
                    |m: OvnBridgeMappingView| m.text(),
                ));
                join_names(&texts, ",")
            },
            None => String::from_str("null"),
        }
    }
}

impl MergedOvnConfigurationView {
    /// The failure that reports a current configuration that differs from
    /// the desired one; `None` where nothing is desired or both agree.
    pub open spec fn failure(self, current: OvnConfigurationView) -> Option<NipartErrorView> {
        if self.desired.is_none() || self.desired == current {
            None
        } else {
            Some(
                verification_failure_view(
                    "ovn.bridge-mappings"@,
                    self.desired.text(),
                    current.text(),
                ),
            )
        }
    }

    /// Whether bridge mappings are desired that differ from the current
    /// ones.
    pub open spec fn is_changed(self) -> bool {
        self.failure(self.current) is Some
    }
}

impl MergedOvnConfiguration {
    /// Lays the desired OVN configuration beside the current one.
    pub fn new(desired: OvnConfiguration, current: OvnConfiguration) -> (r: Self)
        ensures
            r@.desired == desired@,
            r@.current == current@,
    {
        MergedOvnConfiguration { desired, current }
    }

    /// Compares the desired bridge mappings with those found.
    pub fn verify(&self, current: &OvnConfiguration) -> (r: Result<(), NipartError>)
        ensures
            match self@.failure(current@) {
                None => r is Ok,
                Some(e) => r is Err && r->Err_0@ == e,
            },
    {
        if self.desired.is_none() || self.desired.same(current) {
            Ok(())
        } else {
            let want = self.desired.to_text();
            let found = current.to_text();
            Err(
                NipartError::verification_failure(
                    "ovn.bridge-mappings",
                    want.as_str(),
                    found.as_str(),
                ),
            )
        }
    }

    /// Whether bridge mappings are desired that differ from the current
    /// ones.
    pub fn is_changed(&self) -> (b: bool)
        ensures
            b == self@.is_changed(),
    {
        self.verify(&self.current).is_err()
    }
}

} // verus!
