//! Which tab and pane have the focus, as the host's notifications tell it.

use crate::search::{first_true, lemma_first_true};
use crate::text::owned;
use std::collections::HashMap;
use vstd::prelude::*;

verus! {

/// A tab of the host, as far as focus tracking reads it.
#[derive(Clone, Copy, Debug, PartialEq, Eq, Structural)]
pub struct TabInfo {
    pub position: usize,
    pub active: bool,
}

/// A pane of the host, as far as focus tracking reads it. `command` is
/// the running command where the host already knows it.
#[derive(Clone, Debug, PartialEq, Eq)]
pub struct PaneInfo {
    pub id: u32,
    pub is_plugin: bool,
    pub is_focused: bool,
    pub command: Option<String>,
}

/// A [`PaneInfo`] as the contracts speak of it.
pub struct PaneInfoView {
    pub id: u32,
    pub is_plugin: bool,
    pub is_focused: bool,
    pub command: Option<Seq<char>>,
}

impl DeepView for PaneInfo {
    type V = PaneInfoView;

    open spec fn deep_view(&self) -> PaneInfoView {
        PaneInfoView {
            id: self.id,
            is_plugin: self.is_plugin,
            is_focused: self.is_focused,
            command: self.command.deep_view(),
        }
    }
}

impl View for PaneInfo {
    type V = PaneInfoView;

    open spec fn view(&self) -> PaneInfoView {
        self.deep_view()
    }
}

/// The panes of every tab, by the position of the tab.
#[derive(Clone, Debug, PartialEq, Eq)]
pub struct PaneManifest {
    pub panes: HashMap<usize, Vec<PaneInfo>>,
}

impl DeepView for PaneManifest {
    type V = Map<usize, Seq<PaneInfoView>>;

    open spec fn deep_view(&self) -> Map<usize, Seq<PaneInfoView>> {
        self.panes@.map_values(|panes: Vec<PaneInfo>| panes.deep_view())
    }
}

impl View for PaneManifest {
    type V = Map<usize, Seq<PaneInfoView>>;

    open spec fn view(&self) -> Map<usize, Seq<PaneInfoView>> {
        self.deep_view()
    }
}

/// The focused tab and pane. A field is `None` while it is unknown.
#[derive(Clone, Copy, Debug, PartialEq, Eq)]
pub struct FocusedLocation {
    pub tab_position: Option<usize>,
    pub pane_id: Option<u32>,
}

/// Keeps the focused location, and the command last reported for its
/// pane.
#[derive(Clone, Debug, PartialEq, Eq)]
pub struct FocusTracker {
    pub location: FocusedLocation,
    pub command: Option<String>,
}

/// A [`FocusTracker`] as the contracts speak of it.
pub struct FocusView {
    pub location: FocusedLocation,
    pub command: Option<Seq<char>>,
}

impl DeepView for FocusTracker {
    type V = FocusView;

    open spec fn deep_view(&self) -> FocusView {
        FocusView { location: self.location, command: self.command.deep_view() }
    }
}

impl View for FocusTracker {
    type V = FocusView;

    open spec fn view(&self) -> FocusView {
        self.deep_view()
    }
}

/// For each tab, whether it is the active one.
pub open spec fn active_flags(tabs: Seq<TabInfo>) -> Seq<bool> {
    Seq::new(tabs.len(), |i: int| tabs[i].active)
}

/// The first active tab of a list.
pub open spec fn focused_tab_of(tabs: Seq<TabInfo>) -> Option<TabInfo> {
    let i = first_true(active_flags(tabs), 0);
    if 0 <= i < tabs.len() {
        Some(tabs[i])
    } else {
        None
    }
}

/// For each pane, whether it is a focused pane that is no plugin.
pub open spec fn focus_flags(panes: Seq<PaneInfoView>) -> Seq<bool> {
    Seq::new(panes.len(), |i: int| panes[i].is_focused && !panes[i].is_plugin)
}

/// The first focused pane of a list that is no plugin.
pub open spec fn focused_among(panes: Seq<PaneInfoView>) -> Option<PaneInfoView> {
    let i = first_true(focus_flags(panes), 0);
    if 0 <= i < panes.len() {
        Some(panes[i])
    } else {
        None
    }
}

/// The focused pane of tab `tab`: the first focused pane that is no
/// plugin among the panes that the manifest holds for the tab.
pub open spec fn focused_pane_of(
    manifest: Map<usize, Seq<PaneInfoView>>,
    tab: usize,
) -> Option<PaneInfoView> {
    if manifest.contains_key(tab) {
        focused_among(manifest[tab])
    } else {
        None
    }
}

/// The tracker after the host reported `new_tab` as the focused tab, and
/// whether the focus changed. A new tab's pane is unknown.
pub open spec fn tab_focus_changed(focus: FocusView, new_tab: usize) -> (FocusView, bool) {
    if focus.location.tab_position != Some(new_tab) {
        (
            FocusView {
                location: FocusedLocation { tab_position: Some(new_tab), pane_id: None },
                command: None,
            },
            true,
        )
    } else {
        (focus, false)
    }
}

/// Whether a candidate pane of tab `tab` differs from what the tracker
/// holds: the tab is the tracked one, and the pane is another, or its
/// command is known and is another.
pub open spec fn candidate_differs(
    focus: FocusView,
    tab: usize,
    pane: u32,
    command: Option<Seq<char>>,
) -> bool {
    focus.location.tab_position == Some(tab) && (focus.location.pane_id != Some(pane) || (
    command is Some && command != focus.command))
}

/// The tracker after the host reported pane `pane` of tab `tab` as
/// focused, and whether the focus changed.
pub open spec fn pane_focus_candidate(
    focus: FocusView,
    tab: usize,
    pane: u32,
    command: Option<Seq<char>>,
) -> (FocusView, bool) {
    if candidate_differs(focus, tab, pane, command) {
        (
            FocusView {
                location: FocusedLocation { tab_position: Some(tab), pane_id: Some(pane) },
                command,
            },
            true,
        )
    } else {
        (focus, false)
    }
}

/// The first active tab of a list: the tab that
/// `zellij_tile::shim::get_focused_tab` picks from the host's list.
pub fn get_focused_tab(tabs: &Vec<TabInfo>) -> (tab: Option<TabInfo>)
    ensures
        tab == focused_tab_of(tabs@),
{
    let ghost flags = active_flags(tabs@);
    let mut i: usize = 0;
    while i < tabs.len()
        invariant
            i <= tabs.len(),
            flags == active_flags(tabs@),
            forall|k: int| 0 <= k < i ==> !#[trigger] flags[k],
        decreases tabs.len() - i,
    {
        if tabs[i].active {
            proof {
                lemma_first_true(flags, 0, i as int);
            }
            return Some(tabs[i]);
        }
        i += 1;
    }
    proof {
        lemma_first_true(flags, 0, i as int);
    }
    None
}

/// The first focused pane of a list that is no plugin.
pub fn first_focused(panes: &Vec<PaneInfo>) -> (pane: Option<&PaneInfo>)
    ensures
        pane.deep_view() == focused_among(panes.deep_view()),
{
    let ghost flags = focus_flags(panes.deep_view());
    let mut i: usize = 0;
    while i < panes.len()
        invariant
            i <= panes.len(),
            flags == focus_flags(panes.deep_view()),
            forall|k: int| 0 <= k < i ==> !#[trigger] flags[k],
        decreases panes.len() - i,
    {
        if panes[i].is_focused && !panes[i].is_plugin {
            proof {
                lemma_first_true(flags, 0, i as int);
            }
            return Some(&panes[i]);
        }
        i += 1;
    }
    proof {
        lemma_first_true(flags, 0, i as int);
    }
    None
}

/// The focused pane of the tab at `tab_position`: the pane that
/// `zellij_tile::shim::get_focused_pane` picks from the host's manifest.
pub fn get_focused_pane(tab_position: usize, manifest: &PaneManifest) -> (pane: Option<&PaneInfo>)
    ensures
        pane.deep_view() == focused_pane_of(manifest@, tab_position),
{
    broadcast use vstd::std_specs::hash::group_hash_axioms;

    match manifest.panes.get(&tab_position) {
        Some(panes) => first_focused(panes),
        None => None,
    }
}

/// An owned copy of an optional text.
pub fn copy_text(text: &Option<String>) -> (copy: Option<String>)
    ensures
        copy.deep_view() == text.deep_view(),
{
    match text {
        Some(s) => Some(owned(s.as_str())),
        None => None,
    }
}

/// Tells whether two optional texts hold the same characters, or are
/// both absent.
pub fn same_optional_text(a: &Option<String>, b: &Option<String>) -> (r: bool)
    ensures
        r == (a.deep_view() == b.deep_view()),
{
    match (a, b) {
        (Some(x), Some(y)) => *x == *y,
        (None, None) => true,
        _ => false,
    }
}

impl FocusTracker {
    /// A tracker that knows neither tab nor pane.
    pub fn new() -> (tracker: FocusTracker)
        ensures
            tracker@ == (FocusView {
                location: FocusedLocation { tab_position: None, pane_id: None },
                command: None,
            }),
    {
        FocusTracker {
            location: FocusedLocation { tab_position: None, pane_id: None },
            command: None,
        }
    }

    /// Takes note that the host reports `new_tab_position` as the focused
    /// tab, and tells whether the focus changed.
    pub fn on_tab_focus_changed(&mut self, new_tab_position: usize) -> (changed: bool)
        ensures
            (final(self)@, changed) == tab_focus_changed(old(self)@, new_tab_position),
    {
        let same = match self.location.tab_position {
            Some(t) => t == new_tab_position,
            None => false,
        };
        if same {
            false
        } else {
            self.location = FocusedLocation { tab_position: Some(new_tab_position), pane_id: None };
            self.command = None;
            true
        }
    }

    /// Takes note that the host reports a focused pane of the tab at
    /// `tab_position`, and tells whether the focus changed.
    pub fn on_pane_focus_candidate(
        &mut self,
        tab_position: usize,
        pane_id: u32,
        command: Option<String>,
    ) -> (changed: bool)
        ensures
            (final(self)@, changed) == pane_focus_candidate(
                old(self)@,
                tab_position,
                pane_id,
                command.deep_view(),
            ),
    {
        let same_tab = match self.location.tab_position {
            Some(t) => t == tab_position,
            None => false,
        };
        let same_pane = match self.location.pane_id {
            Some(p) => p == pane_id,
            None => false,
        };
        let other_command = command.is_some() && !same_optional_text(&command, &self.command);
        if same_tab && (!same_pane || other_command) {
            self.location = FocusedLocation {
                tab_position: Some(tab_position),
                pane_id: Some(pane_id),
            };
            self.command = command;
            true
        } else {
            false
        }
    }
}

} // verus!
