//! The editor's state outside of rendering: the command queue, the ids of
//! the open 3D viewports, the dock layout and the scene.

pub mod dock_manager;
pub mod scene_manager;
pub mod tab_viewer;
pub mod window;

use vstd::multiset::Multiset;
use vstd::prelude::*;

use crate::asset::registry::AssetRegistry;
use crate::editor::dock_manager::{pushed_to_target, single_leaf, DockManager, Tab};
use crate::editor::scene_manager::SceneManager;
use crate::editor::window::{panel_toggle, panel_toggle_layout};

verus! {

/// A request from the menus or the dock to the editor.
#[derive(Debug, Clone, Copy, PartialEq, Eq, Structural)]
pub enum Command {
    AddViewport,
    NewProject,
    ToggleTools,
    ToggleSceneGraph,
    ToggleProperties,
    ToggleAssets,
    CloseTools,
    CloseSceneGraph,
    CloseProperties,
    CloseAssets,
}

/// Commands waiting to be handled, first in, first out.
pub struct CommandQueue<C> {
    items: Vec<C>,
}

impl<C> CommandQueue<C> {
    /// The waiting commands, oldest first.
    pub closed spec fn pending(&self) -> Seq<C> {
        self.items@
    }

    /// An empty queue.
    pub fn new() -> (r: Self)
        ensures
            r.pending() == Seq::<C>::empty(),
    {
        CommandQueue { items: Vec::new() }
    }

    /// Puts `cmd` at the back of the queue.
    pub fn send(&mut self, cmd: C)
        ensures
            final(self).pending() == old(self).pending().push(cmd),
    {
        self.items.push(cmd);
    }

    /// Takes the oldest command, if there is one.
    pub fn try_recv(&mut self) -> (r: Option<C>)
        ensures
            old(self).pending().len() == 0 ==> r is None && final(self).pending() == old(self).pending(),
            old(self).pending().len() > 0 ==> r == Some(old(self).pending()[0])
                && final(self).pending() == old(self).pending().drop_first(),
    {
        if self.items.len() == 0 {
            None
        } else {
            let c = self.items.remove(0);
            assert(self.items@ =~= old(self).items@.drop_first());
            Some(c)
        }
    }

    /// The number of waiting commands.
    pub fn len(&self) -> (r: usize)
        ensures
            r == self.pending().len(),
    {
        self.items.len()
    }
}

/// Commands leave the queue in the order they entered it: after `c` is sent
/// to a queue, the next command received is the oldest one that was
/// waiting, or `c` if none was, and `c` stays behind the others.
pub proof fn lemma_queue_fifo<C>(before: CommandQueue<C>, after: CommandQueue<C>, c: C)
    requires
        after.pending() == before.pending().push(c),
    ensures
        after.pending()[0] == (if before.pending().len() == 0 {
            c
        } else {
            before.pending()[0]
        }),
        before.pending().len() > 0 ==> after.pending().drop_first() == before.pending().drop_first().push(
            c,
        ),
{
    if before.pending().len() > 0 {
        assert(after.pending().drop_first() =~= before.pending().drop_first().push(c));
    }
}

/// What the renderer must do for a handled command.
#[derive(Debug, Clone, Copy, PartialEq, Eq, Structural)]
pub enum ViewportAction {
    /// Create the viewport with this id.
    Create(usize),
    /// Drop every viewport, then create the one with this id.
    ReplaceAll(usize),
}

/// The ids in `s` increase strictly and are all below `bound`.
pub open spec fn fresh_below(s: Seq<usize>, bound: nat) -> bool {
    &&& forall|i: int| 0 <= i < s.len() ==> #[trigger] s[i] < bound
    &&& forall|i: int, j: int| 0 <= i < j < s.len() ==> #[trigger] s[i] < #[trigger] s[j]
}

/// The editor's state outside of rendering.
pub struct EditorState {
    commands: CommandQueue<Command>,
    viewports: Vec<usize>,
    next_viewport_id: usize,
    tabs_to_remove: Vec<usize>,
    dock_manager: DockManager,
    scene_manager: SceneManager,
}

impl EditorState {
    /// The commands waiting to be handled.
    pub closed spec fn queue(&self) -> Seq<Command> {
        self.commands.pending()
    }

    /// The ids of the open viewports, oldest first.
    pub closed spec fn viewport_ids(&self) -> Seq<usize> {
        self.viewports@
    }

    /// The id that the next created viewport will get.
    pub closed spec fn next_viewport(&self) -> nat {
        self.next_viewport_id as nat
    }

    /// Viewports whose tabs were closed and that are still to be dropped.
    pub closed spec fn closed_viewports(&self) -> Seq<usize> {
        self.tabs_to_remove@
    }

    /// The dock layout and its panels.
    pub closed spec fn dock(&self) -> DockManager {
        self.dock_manager
    }

    /// The scene.
    pub closed spec fn scene(&self) -> SceneManager {
        self.scene_manager
    }

    /// The invariant: open viewport ids increase and are below the next
    /// viewport id, and the scene and the dock layout keep their own invariants.
    pub open spec fn wf(&self) -> bool {
        &&& fresh_below(self.viewport_ids(), self.next_viewport())
        &&& self.scene().wf()
        &&& self.dock().wf()
    }

    /// A new editor for `asset_registry`: no commands, no viewports, the
    /// starting layout and a scene holding the default cube.
    pub fn new(asset_registry: AssetRegistry) -> (r: Self)
        requires
            asset_registry.wf(),
        ensures
            r.wf(),
            r.queue() == Seq::<Command>::empty(),
            r.viewport_ids() == Seq::<usize>::empty(),
            r.next_viewport() == 0,
            r.closed_viewports() == Seq::<usize>::empty(),
            r.dock().is_initial(),
            r.scene().is_new_for(asset_registry),
    {
        let r = EditorState {
            commands: CommandQueue::new(),
            viewports: Vec::new(),
            next_viewport_id: 0,
            tabs_to_remove: Vec::new(),
            dock_manager: DockManager::new(),
            scene_manager: SceneManager::new(asset_registry),
        };
        assert(r.viewports@ =~= Seq::<usize>::empty());
        r
    }

    /// Whether `cmd` can be handled without running out of ids: adding a
    /// viewport needs a next viewport id, and a new project a next entity id.
    pub open spec fn can_handle_spec(&self, cmd: Command) -> bool {
        &&& cmd == Command::AddViewport ==> self.next_viewport() < usize::MAX
        &&& cmd == Command::NewProject ==> self.scene().graph().next_entity_id() < usize::MAX
    }

    /// Whether `cmd` can be handled without running out of ids.
    pub fn can_handle(&self, cmd: &Command) -> (r: bool)
        ensures
            r == self.can_handle_spec(*cmd),
    {
        match cmd {
            Command::AddViewport => self.next_viewport_id < usize::MAX,
            Command::NewProject => self.scene_manager.scene_graph().next_id() < usize::MAX,
            _ => true,
        }
    }

    /// The queue, for sending commands to the editor.
    pub fn commands_mut(&mut self) -> (r: &mut CommandQueue<Command>)
        ensures
            r.pending() == old(self).queue(),
            final(self).queue() == final(r).pending(),
            final(self).viewport_ids() == old(self).viewport_ids(),
            final(self).next_viewport() == old(self).next_viewport(),
            final(self).closed_viewports() == old(self).closed_viewports(),
            final(self).dock() == old(self).dock(),
            final(self).scene() == old(self).scene(),
    {
        &mut self.commands
    }

    /// Takes the oldest waiting command, if any.
    pub fn next_command(&mut self) -> (r: Option<Command>)
        ensures
            old(self).queue().len() == 0 ==> r is None && final(self).queue() == old(self).queue(),
            old(self).queue().len() > 0 ==> r == Some(old(self).queue()[0])
                && final(self).queue() == old(self).queue().drop_first(),
            final(self).viewport_ids() == old(self).viewport_ids(),
            final(self).next_viewport() == old(self).next_viewport(),
            final(self).closed_viewports() == old(self).closed_viewports(),
            final(self).dock() == old(self).dock(),
            final(self).scene() == old(self).scene(),
    {
        self.commands.try_recv()
    }

    /// Creates the next viewport: its id is taken from the counter, recorded
    /// as open and given a tab.
    fn create_viewport(&mut self) -> (id: usize)
        requires
            old(self).next_viewport() < usize::MAX,
            fresh_below(old(self).viewport_ids(), old(self).next_viewport()),
            old(self).dock().wf(),
        ensures
            final(self).dock().wf(),
            pushed_to_target(old(self).dock().layout(), final(self).dock().layout(), Tab::Viewport3D(id)),
            id == old(self).next_viewport(),
            !old(self).viewport_ids().contains(id),
            final(self).viewport_ids() == old(self).viewport_ids().push(id),
            final(self).next_viewport() == id + 1,
            fresh_below(final(self).viewport_ids(), final(self).next_viewport()),
            final(self).dock().tabs() == old(self).dock().tabs().insert(Tab::Viewport3D(id)),
            final(self).dock().flags() == old(self).dock().flags(),
            old(self).dock().panels_consistent() ==> final(self).dock().panels_consistent(),
            final(self).queue() == old(self).queue(),
            final(self).closed_viewports() == old(self).closed_viewports(),
            final(self).scene() == old(self).scene(),
    {
        let id = self.next_viewport_id;
        self.next_viewport_id = self.next_viewport_id + 1;
        self.viewports.push(id);
        self.dock_manager.add_viewport(id);
        id
    }

    /// Handles one command and says what the renderer must do for it.
    ///
    /// `AddViewport` creates viewport `n` (the next id) with its tab.
    /// `NewProject` drops all viewports, restarts the layout and the scene,
    /// then creates viewport `0`. The toggle commands open or close a panel
    /// with its tab; the close commands mark a panel closed.
    pub fn handle_command(&mut self, cmd: Command) -> (r: Option<ViewportAction>)
        requires
            old(self).wf(),
            old(self).can_handle_spec(cmd),
        ensures
            final(self).wf(),
            final(self).queue() == old(self).queue(),
            final(self).closed_viewports() == old(self).closed_viewports(),
            match cmd {
                Command::AddViewport => {
                    let id = old(self).next_viewport() as usize;
                    &&& r == Some(ViewportAction::Create(id))
                    &&& pushed_to_target(
                        old(self).dock().layout(),
                        final(self).dock().layout(),
                        Tab::Viewport3D(id),
                    )
                    &&& !old(self).viewport_ids().contains(id)
                    &&& final(self).viewport_ids() == old(self).viewport_ids().push(id)
                    &&& final(self).next_viewport() == id + 1
                    &&& final(self).dock().tabs() == old(self).dock().tabs().insert(Tab::Viewport3D(id))
                    &&& final(self).dock().flags() == old(self).dock().flags()
                    &&& final(self).scene() == old(self).scene()
                },
                Command::NewProject => {
                    &&& r == Some(ViewportAction::ReplaceAll(0))
                    &&& single_leaf(final(self).dock().layout(), seq![Tab::Properties, Tab::Viewport3D(0)])
                    &&& final(self).viewport_ids() == seq![0usize]
                    &&& final(self).next_viewport() == 1
                    &&& final(self).dock().tabs() == Multiset::<Tab>::singleton(Tab::Properties).insert(
                        Tab::Viewport3D(0),
                    )
                    &&& final(self).dock().flags() == (false, false, true, false)
                    &&& final(self).scene().reset_from(old(self).scene())
                },
                _ => {
                    &&& r is None
                    &&& final(self).viewport_ids() == old(self).viewport_ids()
                    &&& final(self).next_viewport() == old(self).next_viewport()
                    &&& final(self).scene() == old(self).scene()
                    &&& (final(self).dock().flags(), final(self).dock().tabs()) == dock_effect(
                        cmd,
                        old(self).dock().flags(),
                        old(self).dock().tabs(),
                    )
                    &&& toggle_layout_effect(cmd, old(self).dock(), final(self).dock())
                },
            },
            cmd == Command::ToggleTools ==> panel_toggled(old(self).dock(), final(self).dock(), Tab::Tools),
            cmd == Command::ToggleSceneGraph ==> panel_toggled(
                old(self).dock(),
                final(self).dock(),
                Tab::SceneGraph,
            ),
            cmd == Command::ToggleProperties ==> panel_toggled(
                old(self).dock(),
                final(self).dock(),
                Tab::Properties,
            ),
            cmd == Command::ToggleAssets ==> panel_toggled(old(self).dock(), final(self).dock(), Tab::Assets),
            cmd == Command::CloseTools ==> panel_closed(old(self).dock(), final(self).dock(), Tab::Tools),
            cmd == Command::CloseSceneGraph ==> panel_closed(
                old(self).dock(),
                final(self).dock(),
                Tab::SceneGraph,
            ),
            cmd == Command::CloseProperties ==> panel_closed(
                old(self).dock(),
                final(self).dock(),
                Tab::Properties,
            ),
            cmd == Command::CloseAssets ==> panel_closed(old(self).dock(), final(self).dock(), Tab::Assets),
            cmd != Command::CloseTools && cmd != Command::CloseSceneGraph
                && cmd != Command::CloseProperties && cmd != Command::CloseAssets
                && old(self).dock().panels_consistent() ==> final(self).dock().panels_consistent(),
    {
        let ghost before = self.dock();
        proof {
            lemma_toggle_effect(before.flags(), before.tabs());
        }
        match cmd {
            Command::AddViewport => {
                let id = self.create_viewport();
                Some(ViewportAction::Create(id))
            },
            Command::NewProject => {
                self.viewports.clear();
                self.next_viewport_id = 0;
                self.dock_manager.reset();
                self.scene_manager.reset();
                assert(fresh_below(self.viewports@, 0));
                let id = self.create_viewport();
                assert(self.viewports@ =~= seq![0usize]);
                Some(ViewportAction::ReplaceAll(id))
            },
            Command::ToggleTools => {
                self.dock_manager.toggle_tools();
                None
            },
            Command::ToggleSceneGraph => {
                self.dock_manager.toggle_scene_graph();
                None
            },
            Command::ToggleProperties => {
                self.dock_manager.toggle_properties();
                None
            },
            Command::ToggleAssets => {
                self.dock_manager.toggle_assets();
                None
            },
            Command::CloseTools => {
                self.dock_manager.on_close_tools();
                None
            },
            Command::CloseSceneGraph => {
                self.dock_manager.on_close_scene_graph();
                None
            },
            Command::CloseProperties => {
                self.dock_manager.on_close_properties();
                None
            },
            Command::CloseAssets => {
                self.dock_manager.on_close_assets();
                None
            },
        }
    }

    /// Notes that the user closed `tab` in the dock: a viewport is queued for
    /// dropping; a panel gets the command that marks it closed.
    pub fn close_tab(&mut self, tab: Tab)
        ensures
            final(self).viewport_ids() == old(self).viewport_ids(),
            final(self).next_viewport() == old(self).next_viewport(),
            final(self).dock() == old(self).dock(),
            final(self).scene() == old(self).scene(),
            match tab {
                Tab::Viewport3D(id) => {
                    &&& final(self).closed_viewports() == old(self).closed_viewports().push(id)
                    &&& final(self).queue() == old(self).queue()
                },
                _ => {
                    &&& final(self).closed_viewports() == old(self).closed_viewports()
                    &&& final(self).queue() == old(self).queue().push(close_command(tab))
                },
            },
    {
        match tab {
            Tab::Viewport3D(id) => self.tabs_to_remove.push(id),
            Tab::Tools => self.commands.send(Command::CloseTools),
            Tab::SceneGraph => self.commands.send(Command::CloseSceneGraph),
            Tab::Properties => self.commands.send(Command::CloseProperties),
            Tab::Assets => self.commands.send(Command::CloseAssets),
        }
    }

    /// Drops the viewports whose tabs were closed and returns their ids, in
    /// the order the tabs were closed, for the renderer to drop them too.
    pub fn take_closed_viewports(&mut self) -> (r: Vec<usize>)
        requires
            fresh_below(old(self).viewport_ids(), old(self).next_viewport()),
        ensures
            fresh_below(final(self).viewport_ids(), final(self).next_viewport()),
            old(self).wf() ==> final(self).wf(),
            r@ == old(self).closed_viewports(),
            final(self).closed_viewports() == Seq::<usize>::empty(),
            final(self).viewport_ids() == old(self).viewport_ids().filter(
                |v: usize| !old(self).closed_viewports().contains(v),
            ),
            final(self).next_viewport() == old(self).next_viewport(),
            final(self).queue() == old(self).queue(),
            final(self).dock() == old(self).dock(),
            final(self).scene() == old(self).scene(),
    {
        let mut closed: Vec<usize> = Vec::new();
        std::mem::swap(&mut closed, &mut self.tabs_to_remove);
        let closed = closed;
        let ghost vp = self.viewports@;
        let ghost bound = self.next_viewport_id as nat;
        let ghost pred = |v: usize| !closed@.contains(v);
        let mut kept: Vec<usize> = Vec::new();
        let mut i: usize = 0;
        assert(vp.take(0) =~= seq![]);
        assert(seq![].filter(pred) =~= Seq::<usize>::empty()) by {
            reveal(Seq::filter);
        }
        while i < self.viewports.len()
            invariant
                vp == self.viewports@,
                bound == self.next_viewport_id,
                forall|x: usize| #[trigger] pred(x) == !closed@.contains(x),
                fresh_below(vp, bound),
                i <= vp.len(),
                kept@ == vp.take(i as int).filter(pred),
                fresh_below(kept@, bound),
                i == 0 ==> kept@.len() == 0,
                i > 0 && kept@.len() > 0 ==> kept@.last() <= vp[i - 1],
            decreases vp.len() - i,
        {
            let v = self.viewports[i];
            proof {
                vp.take(i as int).lemma_filter_push(v, pred);
                assert(vp.take(i + 1) =~= vp.take(i as int).push(v));
            }
            if !contains(&closed, v) {
                kept.push(v);
            }
            i = i + 1;
        }
        assert(vp.take(vp.len() as int) =~= vp);
        self.viewports = kept;
        closed
    }

    /// The dock layout and its panels.
    pub fn dock_manager(&self) -> (r: &DockManager)
        ensures
            *r == self.dock(),
    {
        &self.dock_manager
    }

    /// The dock layout and its panels, for showing and changing them.
    pub fn dock_manager_mut(&mut self) -> (r: &mut DockManager)
        ensures
            *r == old(self).dock(),
            final(self).dock() == *final(r),
            final(self).viewport_ids() == old(self).viewport_ids(),
            final(self).next_viewport() == old(self).next_viewport(),
            final(self).closed_viewports() == old(self).closed_viewports(),
            final(self).queue() == old(self).queue(),
            final(self).scene() == old(self).scene(),
    {
        &mut self.dock_manager
    }

    /// The scene.
    pub fn scene_manager(&self) -> (r: &SceneManager)
        ensures
            *r == self.scene(),
    {
        &self.scene_manager
    }

    /// The scene, for changing it.
    pub fn scene_manager_mut(&mut self) -> (r: &mut SceneManager)
        ensures
            *r == old(self).scene(),
            final(self).scene() == *final(r),
            final(self).viewport_ids() == old(self).viewport_ids(),
            final(self).next_viewport() == old(self).next_viewport(),
            final(self).closed_viewports() == old(self).closed_viewports(),
            final(self).queue() == old(self).queue(),
            final(self).dock() == old(self).dock(),
    {
        &mut self.scene_manager
    }

    /// The dock layout and the scene at once, for showing the dock's tabs,
    /// which show the scene.
    pub fn dock_and_scene_mut(&mut self) -> (r: (&mut DockManager, &mut SceneManager))
        ensures
            *r.0 == old(self).dock(),
            *r.1 == old(self).scene(),
            final(self).dock() == *final(r.0),
            final(self).scene() == *final(r.1),
            final(self).viewport_ids() == old(self).viewport_ids(),
            final(self).next_viewport() == old(self).next_viewport(),
            final(self).closed_viewports() == old(self).closed_viewports(),
            final(self).queue() == old(self).queue(),
    {
        (&mut self.dock_manager, &mut self.scene_manager)
    }

    /// The number of the next viewport.
    pub fn next_viewport_id(&self) -> (r: usize)
        ensures
            r == self.next_viewport(),
    {
        self.next_viewport_id
    }
}

/// Whether `v` occurs in `s`.
fn contains(s: &Vec<usize>, v: usize) -> (r: bool)
    ensures
        r == s@.contains(v),
{
    let mut i: usize = 0;
    while i < s.len()
        invariant
            i <= s@.len(),
            forall|j: int| 0 <= j < i ==> s@[j] != v,
        decreases s@.len() - i,
    {
        if s[i] == v {
            assert(s@[i as int] == v);
            return true;
        }
        i = i + 1;
    }
    false
}

/// Whether the panel shown by `tab` is open (a viewport tab has no panel).
pub open spec fn panel_open(d: DockManager, tab: Tab) -> bool {
    match tab {
        Tab::Tools => d.tools_open(),
        Tab::SceneGraph => d.scene_graph_open(),
        Tab::Properties => d.properties_open(),
        Tab::Assets => d.assets_open(),
        Tab::Viewport3D(_) => false,
    }
}

/// The panels other than that of `tab` are open in `after` exactly when in `before`.
pub open spec fn other_panels_kept(before: DockManager, after: DockManager, tab: Tab) -> bool {
    forall|t: Tab| t != tab ==> #[trigger] panel_open(after, t) == panel_open(before, t)
}

/// The panel of `tab` went from closed to open and its tab was added to the
/// leaf that takes pushed tabs, or from open to closed and one copy of its
/// tab (if any) was taken out; the other panels kept their state.
pub open spec fn panel_toggled(before: DockManager, after: DockManager, tab: Tab) -> bool {
    &&& panel_open(after, tab) == !panel_open(before, tab)
    &&& other_panels_kept(before, after, tab)
    &&& after.tabs() == if panel_open(before, tab) {
        before.tabs().remove(tab)
    } else {
        before.tabs().insert(tab)
    }
    &&& !panel_open(before, tab) ==> pushed_to_target(before.layout(), after.layout(), tab)
}

/// The panel of `tab` is closed, the other panels kept their state and the
/// layout is unchanged.
pub open spec fn panel_closed(before: DockManager, after: DockManager, tab: Tab) -> bool {
    &&& !panel_open(after, tab)
    &&& other_panels_kept(before, after, tab)
    &&& after.layout() == before.layout()
}

/// Toggling a panel flips its open flag and adds its tab when it was closed,
/// or takes one copy of the tab out when it was open; the other flags stay.
pub proof fn lemma_toggle_effect(flags: (bool, bool, bool, bool), tabs: Multiset<Tab>)
    ensures
        dock_effect(Command::ToggleTools, flags, tabs) == ((!flags.0, flags.1, flags.2, flags.3), if flags.0 {
            tabs.remove(Tab::Tools)
        } else {
            tabs.insert(Tab::Tools)
        }),
        dock_effect(Command::ToggleSceneGraph, flags, tabs) == ((flags.0, !flags.1, flags.2, flags.3), if flags.1 {
            tabs.remove(Tab::SceneGraph)
        } else {
            tabs.insert(Tab::SceneGraph)
        }),
        dock_effect(Command::ToggleProperties, flags, tabs) == ((flags.0, flags.1, !flags.2, flags.3), if flags.2 {
            tabs.remove(Tab::Properties)
        } else {
            tabs.insert(Tab::Properties)
        }),
        dock_effect(Command::ToggleAssets, flags, tabs) == ((flags.0, flags.1, flags.2, !flags.3), if flags.3 {
            tabs.remove(Tab::Assets)
        } else {
            tabs.insert(Tab::Assets)
        }),
{
    assert forall|t: Tab| !tabs.contains(t) implies tabs.remove(t) =~= tabs by {}
}

/// A close command marks its panel closed and changes nothing else: not the
/// other flags and not the tabs.
pub proof fn lemma_close_effect(flags: (bool, bool, bool, bool), tabs: Multiset<Tab>)
    ensures
        dock_effect(Command::CloseTools, flags, tabs) == ((false, flags.1, flags.2, flags.3), tabs),
        dock_effect(Command::CloseSceneGraph, flags, tabs) == ((flags.0, false, flags.2, flags.3), tabs),
        dock_effect(Command::CloseProperties, flags, tabs) == ((flags.0, flags.1, false, flags.3), tabs),
        dock_effect(Command::CloseAssets, flags, tabs) == ((flags.0, flags.1, flags.2, false), tabs),
{
}

/// The command that marks the panel of `tab` closed.
pub open spec fn close_command(tab: Tab) -> Command {
    match tab {
        Tab::Tools => Command::CloseTools,
        Tab::SceneGraph => Command::CloseSceneGraph,
        Tab::Properties => Command::CloseProperties,
        _ => Command::CloseAssets,
    }
}

/// Where a toggle command puts or takes its panel's tab (see
/// `panel_toggle_layout`); a close command leaves the layout as it is.
pub open spec fn toggle_layout_effect(cmd: Command, before: DockManager, after: DockManager) -> bool {
    match cmd {
        Command::ToggleTools => panel_toggle_layout(before.tools_open(), before.layout(), after.layout(), Tab::Tools),
        Command::ToggleSceneGraph => panel_toggle_layout(
            before.scene_graph_open(),
            before.layout(),
            after.layout(),
            Tab::SceneGraph,
        ),
        Command::ToggleProperties => panel_toggle_layout(
            before.properties_open(),
            before.layout(),
            after.layout(),
            Tab::Properties,
        ),
        Command::ToggleAssets => panel_toggle_layout(before.assets_open(), before.layout(), after.layout(), Tab::Assets),
        _ => after.layout() == before.layout(),
    }
}

/// What a toggle or close command does to the panel flags (tools, scene
/// graph, properties, assets) and to the tabs of the layout.
pub open spec fn dock_effect(
    cmd: Command,
    flags: (bool, bool, bool, bool),
    tabs: Multiset<Tab>,
) -> ((bool, bool, bool, bool), Multiset<Tab>) {
    match cmd {
        Command::ToggleTools => {
            let t = panel_toggle(flags.0, tabs, Tab::Tools);
            ((t.0, flags.1, flags.2, flags.3), t.1)
        },
        Command::ToggleSceneGraph => {
            let t = panel_toggle(flags.1, tabs, Tab::SceneGraph);
            ((flags.0, t.0, flags.2, flags.3), t.1)
        },
        Command::ToggleProperties => {
            let t = panel_toggle(flags.2, tabs, Tab::Properties);
            ((flags.0, flags.1, t.0, flags.3), t.1)
        },
        Command::ToggleAssets => {
            let t = panel_toggle(flags.3, tabs, Tab::Assets);
            ((flags.0, flags.1, flags.2, t.0), t.1)
        },
        Command::CloseTools => ((false, flags.1, flags.2, flags.3), tabs),
        Command::CloseSceneGraph => ((flags.0, false, flags.2, flags.3), tabs),
        Command::CloseProperties => ((flags.0, flags.1, false, flags.3), tabs),
        Command::CloseAssets => ((flags.0, flags.1, flags.2, false), tabs),
        _ => (flags, tabs),
    }
}

} // verus!
