//! The dock layout: which tabs are open, and the panel windows that can be
//! toggled. The layout itself is an `egui_dock::DockState`; the library
//! models it by the multiset of tabs it holds.

use egui_dock::{DockState, NodeIndex, SurfaceIndex, TabIndex, TabPath};
use vstd::multiset::Multiset;
use vstd::prelude::*;

use crate::editor::window::{
    panel_toggle, panel_toggle_layout, AssetsWindow, PanelWindow, PropertiesWindow, SceneGraphWindow, ToolsWindow,
};

verus! {

/// A tab of the dock.
#[derive(Debug, Clone, Copy, PartialEq, Eq, Hash, Structural)]
pub enum Tab {
    Viewport3D(usize),
    SceneGraph,
    Properties,
    Tools,
    Assets,
}

#[verifier::external_type_specification]
#[verifier::external_body]
#[verifier::reject_recursive_types(T)]
pub struct ExDockState<T>(DockState<T>);

/// The tabs held by a dock layout, on all its surfaces, counted with multiplicity.
pub uninterp spec fn dock_tabs(dock: DockState<Tab>) -> Multiset<Tab>;

/// The tab found at the position `(surface, node, tab)` of a dock layout, if any.
pub uninterp spec fn dock_tab_at(dock: DockState<Tab>, path: (usize, usize, usize)) -> Option<Tab>;

/// Whether a dock layout has the shape that egui_dock's own operations give
/// it: the focused surface, if any, exists; in every surface's tree each
/// split node has both children, the leaf and empty nodes are at the
/// bottom, so a tree with nodes has a leaf or an empty node; and the
/// focused node, if any, is a node of its tree unless that tree has no
/// nodes. On such a layout `push_to_focused_leaf` and `remove_tab` do not panic.
pub uninterp spec fn dock_wf(dock: DockState<Tab>) -> bool;

/// The `(surface, node)` of the leaf that `push_to_focused_leaf` fills: the
/// focused node of the focused surface (the main one when none is focused)
/// when it is a leaf or an empty node, else the first leaf or empty node of
/// that surface's tree, or its root when the tree has no nodes.
pub uninterp spec fn dock_push_target(dock: DockState<Tab>) -> (usize, usize);

/// The number of tabs in node `node` of surface `surface` (zero for a node
/// that is not a leaf, or that does not exist).
pub uninterp spec fn dock_leaf_len(dock: DockState<Tab>, surface: usize, node: usize) -> nat;

/// Position `a` comes before position `b` in index order: by surface, then
/// node, then tab.
pub open spec fn position_before(a: (usize, usize, usize), b: (usize, usize, usize)) -> bool {
    a.0 < b.0 || (a.0 == b.0 && (a.1 < b.1 || (a.1 == b.1 && a.2 < b.2)))
}

/// `p` is the first position in index order that holds `tab`.
pub open spec fn first_position_of(dock: DockState<Tab>, tab: Tab, p: (usize, usize, usize)) -> bool {
    &&& dock_tab_at(dock, p) == Some(tab)
    &&& forall|q: (usize, usize, usize)|
        position_before(q, p) ==> #[trigger] dock_tab_at(dock, q) != Some(tab)
}

/// The layout that `remove_tab` leaves after removing the tab at `path`.
pub uninterp spec fn dock_without(dock: DockState<Tab>, path: (usize, usize, usize)) -> DockState<Tab>;

/// The layout holds exactly `tabs`, in order, in the root leaf of its main
/// surface, and nothing anywhere else.
pub open spec fn single_leaf(dock: DockState<Tab>, tabs: Seq<Tab>) -> bool {
    &&& dock_leaf_len(dock, 0, 0) == tabs.len()
    &&& forall|k: usize| k < tabs.len() ==> #[trigger] dock_tab_at(dock, (0usize, 0usize, k)) == Some(tabs[k as int])
    &&& forall|p: (usize, usize, usize)|
        (p.0 != 0 || p.1 != 0 || p.2 >= tabs.len()) ==> #[trigger] dock_tab_at(dock, p) is None
}

/// `after` is `before` with `tab` appended to the leaf that
/// `push_to_focused_leaf` fills, and every other position unchanged.
pub open spec fn pushed_to_target(before: DockState<Tab>, after: DockState<Tab>, tab: Tab) -> bool {
    let (s, n) = dock_push_target(before);
    let len = dock_leaf_len(before, s, n);
    &&& dock_tabs(after) == dock_tabs(before).insert(tab)
    &&& dock_leaf_len(after, s, n) == len + 1
    &&& dock_tab_at(after, (s, n, len as usize)) == Some(tab)
    &&& forall|k: usize| k != len ==> #[trigger] dock_tab_at(after, (s, n, k)) == dock_tab_at(before, (s, n, k))
    &&& forall|p: (usize, usize, usize)|
        (p.0 != s || p.1 != n) ==> #[trigger] dock_tab_at(after, p) == dock_tab_at(before, p)
}

/// Calls `DockState::new`, which builds a layout whose main surface (index
/// `0`) holds `tabs` in its root leaf (node `0`), with no focus: the layout
/// holds exactly `tabs`, in that order and nowhere else, a pushed tab goes
/// to that leaf, and the layout is well formed.
#[verifier::external_body]
pub(crate) fn new_dock(tabs: Vec<Tab>) -> (r: DockState<Tab>)
    ensures
        dock_tabs(r) == tabs@.to_multiset(),
        dock_wf(r),
        dock_push_target(r) == (0usize, 0usize),
        dock_leaf_len(r, 0, 0) == tabs@.len(),
        forall|k: usize| k < tabs@.len() ==> #[trigger] dock_tab_at(r, (0usize, 0usize, k)) == Some(tabs@[k as int]),
        forall|p: (usize, usize, usize)|
            (p.0 != 0 || p.1 != 0 || p.2 >= tabs@.len()) ==> #[trigger] dock_tab_at(r, p) is None,
{
    DockState::new(tabs)
}

/// Calls `DockState::push_to_focused_leaf` on a well-formed layout: it
/// appends `tab` to the focused leaf, or fills the focused empty node, or
/// else the first leaf or empty node, or makes a root leaf in a tree with
/// no nodes; that is, to the leaf `dock_push_target` names. No other
/// position changes, and the layout stays well formed.
#[verifier::external_body]
pub(crate) fn push_tab(dock: &mut DockState<Tab>, tab: Tab)
    requires
        dock_wf(*old(dock)),
    ensures
        dock_tabs(*final(dock)) == dock_tabs(*old(dock)).insert(tab),
        ({
            let (s, n) = dock_push_target(*old(dock));
            let len = dock_leaf_len(*old(dock), s, n);
            &&& dock_leaf_len(*final(dock), s, n) == len + 1
            &&& dock_tab_at(*final(dock), (s, n, len as usize)) == Some(tab)
            &&& forall|k: usize|
                k != len ==> #[trigger] dock_tab_at(*final(dock), (s, n, k)) == dock_tab_at(
                    *old(dock),
                    (s, n, k),
                )
            &&& forall|p: (usize, usize, usize)|
                (p.0 != s || p.1 != n) ==> #[trigger] dock_tab_at(*final(dock), p) == dock_tab_at(
                    *old(dock),
                    p,
                )
        }),
        dock_wf(*final(dock)),
{
    dock.push_to_focused_leaf(tab)
}

/// Calls `DockState::find_tab`, which returns the position of the first tab
/// equal to `tab` (by the derived `==` of `Tab`), going through surfaces,
/// nodes and tabs in increasing index order: it finds one exactly when the
/// layout holds `tab`, and no earlier position holds `tab`.
#[verifier::external_body]
pub(crate) fn find_tab(dock: &DockState<Tab>, tab: &Tab) -> (r: Option<(usize, usize, usize)>)
    ensures
        r is Some <==> dock_tabs(*dock).contains(*tab),
        r matches Some(p) ==> dock_tab_at(*dock, p) == Some(*tab),
        r matches Some(p) ==> forall|q: (usize, usize, usize)|
            position_before(q, p) ==> #[trigger] dock_tab_at(*dock, q) != Some(*tab),
{
    match dock.find_tab(tab) {
        Some(p) => Some((p.surface.0, p.node.0, p.tab.0)),
        None => None,
    }
}

/// Calls `DockState::remove_tab` on a position of a well-formed layout
/// that holds a tab (where it does not panic): it returns that tab, the
/// layout holds one fewer of it, and it stays well formed. Where the other
/// tabs end up is left to the name `dock_without`.
#[verifier::external_body]
pub(crate) fn remove_tab_at(dock: &mut DockState<Tab>, path: (usize, usize, usize)) -> (r: Option<Tab>)
    requires
        dock_wf(*old(dock)),
        dock_tab_at(*old(dock), path) is Some,
    ensures
        r == dock_tab_at(*old(dock), path),
        *final(dock) == dock_without(*old(dock), path),
        dock_tabs(*final(dock)) == dock_tabs(*old(dock)).remove(r.unwrap()),
        dock_wf(*final(dock)),
{
    dock.remove_tab(TabPath::new(SurfaceIndex(path.0), NodeIndex(path.1), TabIndex(path.2)))
}

/// A panel's tab is in the layout once when the panel is open and not at all when it is closed.
pub open spec fn panel_matches(tabs: Multiset<Tab>, open: bool, tab: Tab) -> bool {
    tabs.count(tab) == if open {
        1nat
    } else {
        0nat
    }
}

/// The layout and the panel windows.
pub struct DockManager {
    dock_state: DockState<Tab>,
    pub tools: ToolsWindow,
    pub scene_graph: SceneGraphWindow,
    pub properties: PropertiesWindow,
    pub assets: AssetsWindow,
}

impl DockManager {
    /// The layout.
    pub closed spec fn layout(&self) -> DockState<Tab> {
        self.dock_state
    }

    /// The tabs of the layout.
    pub open spec fn tabs(&self) -> Multiset<Tab> {
        dock_tabs(self.layout())
    }

    /// The layout is well formed (see `dock_wf`): every operation of the
    /// manager keeps it so, and a layout changed through `dock_state_mut`
    /// is so again only as far as the caller shows it.
    pub open spec fn wf(&self) -> bool {
        dock_wf(self.layout())
    }

    pub closed spec fn tools_open(&self) -> bool {
        self.tools.open
    }

    pub closed spec fn scene_graph_open(&self) -> bool {
        self.scene_graph.open
    }

    pub closed spec fn properties_open(&self) -> bool {
        self.properties.open
    }

    pub closed spec fn assets_open(&self) -> bool {
        self.assets.open
    }

    /// Whether the tools, scene graph, properties and assets panels are open, in that order.
    pub open spec fn flags(&self) -> (bool, bool, bool, bool) {
        (self.tools_open(), self.scene_graph_open(), self.properties_open(), self.assets_open())
    }

    /// Every panel's tab is in the layout exactly when the panel is open.
    pub open spec fn panels_consistent(&self) -> bool {
        &&& panel_matches(self.tabs(), self.tools_open(), Tab::Tools)
        &&& panel_matches(self.tabs(), self.scene_graph_open(), Tab::SceneGraph)
        &&& panel_matches(self.tabs(), self.properties_open(), Tab::Properties)
        &&& panel_matches(self.tabs(), self.assets_open(), Tab::Assets)
    }

    /// The starting layout: only the properties panel is open, the layout
    /// holds only its tab, in the root leaf of the main surface, and a
    /// pushed tab goes to that leaf.
    pub open spec fn is_initial(&self) -> bool {
        &&& self.tabs() == Multiset::<Tab>::singleton(Tab::Properties)
        &&& single_leaf(self.layout(), seq![Tab::Properties])
        &&& dock_push_target(self.layout()) == (0usize, 0usize)
        &&& self.properties_open()
        &&& !self.tools_open()
        &&& !self.scene_graph_open()
        &&& !self.assets_open()
    }

    fn initial_dock() -> (r: DockState<Tab>)
        ensures
            dock_tabs(r) == Multiset::<Tab>::singleton(Tab::Properties),
            dock_wf(r),
            single_leaf(r, seq![Tab::Properties]),
            dock_push_target(r) == (0usize, 0usize),
    {
        let tabs = vec![Tab::Properties];
        let r = new_dock(tabs);
        proof {
            broadcast use vstd::seq_lib::group_to_multiset_ensures;
            assert(tabs@ =~= Seq::<Tab>::empty().push(Tab::Properties));
            assert(Seq::<Tab>::empty().to_multiset() =~= Multiset::<Tab>::empty());
            assert(tabs@.to_multiset() =~= Multiset::<Tab>::singleton(Tab::Properties));
            assert(tabs@ == seq![Tab::Properties]);
        }
        r
    }

    /// The starting layout.
    pub fn new() -> (r: Self)
        ensures
            r.is_initial(),
            r.panels_consistent(),
            r.wf(),
    {
        let r = DockManager {
            dock_state: Self::initial_dock(),
            tools: ToolsWindow::new(),
            scene_graph: SceneGraphWindow::new(),
            properties: PropertiesWindow::new(),
            assets: AssetsWindow::new(),
        };
        proof {
            lemma_singleton_counts();
        }
        r
    }

    /// Returns to the starting layout.
    pub fn reset(&mut self)
        ensures
            final(self).is_initial(),
            final(self).panels_consistent(),
            final(self).wf(),
    {
        self.dock_state = Self::initial_dock();
        self.tools = ToolsWindow::new();
        self.scene_graph = SceneGraphWindow::new();
        self.properties = PropertiesWindow::new();
        self.assets = AssetsWindow::new();
        proof {
            lemma_singleton_counts();
        }
    }

    /// Adds the tab of viewport `id` to the layout.
    pub fn add_viewport(&mut self, id: usize)
        requires
            old(self).wf(),
        ensures
            final(self).wf(),
            pushed_to_target(old(self).layout(), final(self).layout(), Tab::Viewport3D(id)),
            final(self).tabs() == old(self).tabs().insert(Tab::Viewport3D(id)),
            final(self).tools_open() == old(self).tools_open(),
            final(self).scene_graph_open() == old(self).scene_graph_open(),
            final(self).properties_open() == old(self).properties_open(),
            final(self).assets_open() == old(self).assets_open(),
            old(self).panels_consistent() ==> final(self).panels_consistent(),
    {
        push_tab(&mut self.dock_state, Tab::Viewport3D(id));
    }

    /// Opens or closes the tools panel.
    pub fn toggle_tools(&mut self)
        requires
            old(self).wf(),
        ensures
            final(self).wf(),
            panel_toggle_layout(old(self).tools_open(), old(self).layout(), final(self).layout(), Tab::Tools),
            (final(self).tools_open(), final(self).tabs()) == panel_toggle(
                old(self).tools_open(),
                old(self).tabs(),
                Tab::Tools,
            ),
            final(self).scene_graph_open() == old(self).scene_graph_open(),
            final(self).properties_open() == old(self).properties_open(),
            final(self).assets_open() == old(self).assets_open(),
            old(self).panels_consistent() ==> final(self).panels_consistent(),
    {
        self.tools.toggle(&mut self.dock_state);
    }

    /// Opens or closes the scene graph panel.
    pub fn toggle_scene_graph(&mut self)
        requires
            old(self).wf(),
        ensures
            final(self).wf(),
            panel_toggle_layout(old(self).scene_graph_open(), old(self).layout(), final(self).layout(), Tab::SceneGraph),
            (final(self).scene_graph_open(), final(self).tabs()) == panel_toggle(
                old(self).scene_graph_open(),
                old(self).tabs(),
                Tab::SceneGraph,
            ),
            final(self).tools_open() == old(self).tools_open(),
            final(self).properties_open() == old(self).properties_open(),
            final(self).assets_open() == old(self).assets_open(),
            old(self).panels_consistent() ==> final(self).panels_consistent(),
    {
        self.scene_graph.toggle(&mut self.dock_state);
    }

    /// Opens or closes the properties panel.
    pub fn toggle_properties(&mut self)
        requires
            old(self).wf(),
        ensures
            final(self).wf(),
            panel_toggle_layout(old(self).properties_open(), old(self).layout(), final(self).layout(), Tab::Properties),
            (final(self).properties_open(), final(self).tabs()) == panel_toggle(
                old(self).properties_open(),
                old(self).tabs(),
                Tab::Properties,
            ),
            final(self).tools_open() == old(self).tools_open(),
            final(self).scene_graph_open() == old(self).scene_graph_open(),
            final(self).assets_open() == old(self).assets_open(),
            old(self).panels_consistent() ==> final(self).panels_consistent(),
    {
        self.properties.toggle(&mut self.dock_state);
    }

    /// Opens or closes the assets panel.
    pub fn toggle_assets(&mut self)
        requires
            old(self).wf(),
        ensures
            final(self).wf(),
            panel_toggle_layout(old(self).assets_open(), old(self).layout(), final(self).layout(), Tab::Assets),
            (final(self).assets_open(), final(self).tabs()) == panel_toggle(
                old(self).assets_open(),
                old(self).tabs(),
                Tab::Assets,
            ),
            final(self).tools_open() == old(self).tools_open(),
            final(self).scene_graph_open() == old(self).scene_graph_open(),
            final(self).properties_open() == old(self).properties_open(),
            old(self).panels_consistent() ==> final(self).panels_consistent(),
    {
        self.assets.toggle(&mut self.dock_state);
    }

    /// The layout, for showing and changing it.
    pub fn dock_state_mut(&mut self) -> (r: &mut DockState<Tab>)
        ensures
            *r == old(self).layout(),
            final(self).layout() == *final(r),
            final(self).tools_open() == old(self).tools_open(),
            final(self).scene_graph_open() == old(self).scene_graph_open(),
            final(self).properties_open() == old(self).properties_open(),
            final(self).assets_open() == old(self).assets_open(),
    {
        &mut self.dock_state
    }

    /// Marks the tools panel closed, after its tab was closed in the layout.
    pub fn on_close_tools(&mut self)
        ensures
            final(self).layout() == old(self).layout(),
            !final(self).tools_open(),
            final(self).tabs() == old(self).tabs(),
            final(self).scene_graph_open() == old(self).scene_graph_open(),
            final(self).properties_open() == old(self).properties_open(),
            final(self).assets_open() == old(self).assets_open(),
    {
        self.tools.on_close();
    }

    /// Marks the scene graph panel closed, after its tab was closed in the layout.
    pub fn on_close_scene_graph(&mut self)
        ensures
            final(self).layout() == old(self).layout(),
            !final(self).scene_graph_open(),
            final(self).tabs() == old(self).tabs(),
            final(self).tools_open() == old(self).tools_open(),
            final(self).properties_open() == old(self).properties_open(),
            final(self).assets_open() == old(self).assets_open(),
    {
        self.scene_graph.on_close();
    }

    /// Marks the properties panel closed, after its tab was closed in the layout.
    pub fn on_close_properties(&mut self)
        ensures
            final(self).layout() == old(self).layout(),
            !final(self).properties_open(),
            final(self).tabs() == old(self).tabs(),
            final(self).tools_open() == old(self).tools_open(),
            final(self).scene_graph_open() == old(self).scene_graph_open(),
            final(self).assets_open() == old(self).assets_open(),
    {
        self.properties.on_close();
    }

    /// Marks the assets panel closed, after its tab was closed in the layout.
    pub fn on_close_assets(&mut self)
        ensures
            final(self).layout() == old(self).layout(),
            !final(self).assets_open(),
            final(self).tabs() == old(self).tabs(),
            final(self).tools_open() == old(self).tools_open(),
            final(self).scene_graph_open() == old(self).scene_graph_open(),
            final(self).properties_open() == old(self).properties_open(),
    {
        self.assets.on_close();
    }
}

proof fn lemma_singleton_counts()
    ensures
        Multiset::<Tab>::singleton(Tab::Properties).count(Tab::Properties) == 1,
        Multiset::<Tab>::singleton(Tab::Properties).count(Tab::Tools) == 0,
        Multiset::<Tab>::singleton(Tab::Properties).count(Tab::SceneGraph) == 0,
        Multiset::<Tab>::singleton(Tab::Properties).count(Tab::Assets) == 0,
{
    broadcast use vstd::multiset::group_multiset_axioms;
}

} // verus!
