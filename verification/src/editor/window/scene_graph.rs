use egui_dock::DockState;
use vstd::prelude::*;

use crate::editor::dock_manager::Tab;
use crate::editor::scene_manager::SceneManager;
use crate::editor::window::{toggle_panel, PanelWindow};
use crate::scene::EntityView;
use crate::text::joined;

verus! {

/// The window shown by the `Tab::SceneGraph` tab.
pub struct SceneGraphWindow {
    pub open: bool,
}

impl SceneGraphWindow {
    /// A window that starts closed.
    pub fn new() -> (r: Self)
        ensures
            !r.open,
    {
        SceneGraphWindow { open: false }
    }
}

impl PanelWindow for SceneGraphWindow {
    open spec fn panel_tab(&self) -> Tab {
        Tab::SceneGraph
    }

    open spec fn open_flag(&self) -> bool {
        self.open
    }

    fn is_open(&self) -> (r: bool) {
        self.open
    }

    fn toggle(&mut self, dock_state: &mut DockState<Tab>) {
        toggle_panel(&mut self.open, dock_state, Tab::SceneGraph);
    }

    fn on_close(&mut self) {
        self.open = false;
    }
}

/// The label of an entity in the scene graph panel: `<name> (<asset id>)`.
pub open spec fn entity_label(e: EntityView) -> Seq<char> {
    e.name + " ("@ + e.asset_id + ")"@
}

/// The items of the scene graph panel: each entity's id and label, in order.
pub fn scene_graph_items(scene_manager: &SceneManager) -> (r: Vec<(usize, String)>)
    ensures
        r@.len() == scene_manager.graph().entity_views().len(),
        forall|i: int|
            0 <= i < r@.len() ==> #[trigger] r@[i].0 == scene_manager.graph().entity_views()[i].id
                && r@[i].1@ == entity_label(scene_manager.graph().entity_views()[i]),
{
    let graph = scene_manager.scene_graph();
    let n = graph.entity_count();
    let mut r: Vec<(usize, String)> = Vec::new();
    let mut i: usize = 0;
    while i < n
        invariant
            *graph == scene_manager.graph(),
            n == graph.entity_views().len(),
            i <= n,
            r@.len() == i,
            forall|j: int|
                0 <= j < i ==> #[trigger] r@[j].0 == graph.entity_views()[j].id && r@[j].1@
                    == entity_label(graph.entity_views()[j]),
        decreases n - i,
    {
        let e = graph.entity_at(i);
        let mut label = joined(e.name.as_str(), " (");
        label.append(e.asset_id.as_str());
        label.append(")");
        r.push((e.id, label));
        i = i + 1;
    }
    r
}

/// Of the labels drawn in one frame, each an entity id with whether it was
/// clicked, the id of the last one clicked; `None` when none was.
pub open spec fn last_clicked(clicks: Seq<(usize, bool)>) -> Option<usize>
    decreases clicks.len(),
{
    if clicks.len() == 0 {
        None
    } else if clicks.last().1 {
        Some(clicks.last().0)
    } else {
        last_clicked(clicks.drop_last())
    }
}

/// No label after position `k` of the list is clicked (with `k == -1`: none is).
pub open spec fn no_click_after(clicks: Seq<(usize, bool)>, k: int) -> bool {
    forall|j: int| k < j < clicks.len() ==> !(#[trigger] clicks[j]).1
}

/// The clicked label that no later label follows in being clicked is the
/// one `last_clicked` gives, wherever it stands in the list.
pub proof fn lemma_last_clicked_is_the_last_click(clicks: Seq<(usize, bool)>, k: int)
    requires
        0 <= k < clicks.len(),
        clicks[k].1,
        no_click_after(clicks, k),
    ensures
        last_clicked(clicks) == Some(clicks[k].0),
    decreases clicks.len(),
{
    if k < clicks.len() - 1 {
        assert(!clicks[clicks.len() - 1].1);
        let d = clicks.drop_last();
        assert forall|j: int| k < j < d.len() implies !(#[trigger] d[j]).1 by {
            assert(d[j] == clicks[j]);
        }
        lemma_last_clicked_is_the_last_click(d, k);
    }
}

/// Without a click no label is selected.
pub proof fn lemma_no_click_selects_nothing(clicks: Seq<(usize, bool)>)
    requires
        no_click_after(clicks, -1),
    ensures
        last_clicked(clicks) is None,
    decreases clicks.len(),
{
    if clicks.len() > 0 {
        assert(!clicks[clicks.len() - 1].1);
        let d = clicks.drop_last();
        assert forall|j: int| 0 <= j < d.len() implies !(#[trigger] d[j]).1 by {
            assert(d[j] == clicks[j]);
        }
        lemma_no_click_selects_nothing(d);
    }
}

/// Applies the clicks of one frame in the scene graph panel: the last
/// entity clicked becomes the selection; without a click the selection stays.
pub fn select_clicked(scene_manager: &mut SceneManager, clicks: &Vec<(usize, bool)>)
    ensures
        final(scene_manager).selection() == match last_clicked(clicks@) {
            Some(id) => Some(id),
            None => old(scene_manager).selection(),
        },
        forall|k: int|
            #![trigger clicks@[k]]
            0 <= k < clicks@.len() && clicks@[k].1 && no_click_after(clicks@, k)
                ==> final(scene_manager).selection() == Some(clicks@[k].0),
        no_click_after(clicks@, -1) ==> final(scene_manager).selection() == old(scene_manager).selection(),
        final(scene_manager).graph() == old(scene_manager).graph(),
        final(scene_manager).registry() == old(scene_manager).registry(),
{
    proof {
        assert forall|k: int|
            #![trigger clicks@[k]]
            0 <= k < clicks@.len() && clicks@[k].1 && no_click_after(clicks@, k) implies last_clicked(clicks@)
                == Some(clicks@[k].0) by {
            lemma_last_clicked_is_the_last_click(clicks@, k);
        }
        if no_click_after(clicks@, -1) {
            lemma_no_click_selects_nothing(clicks@);
        }
    }
    let selected = scene_manager.selected_entity_id();
    let mut new_selection = selected;
    let mut i: usize = 0;
    while i < clicks.len()
        invariant
            i <= clicks@.len(),
            new_selection == match last_clicked(clicks@.take(i as int)) {
                Some(id) => Some(id),
                None => selected,
            },
        decreases clicks@.len() - i,
    {
        assert(clicks@.take(i + 1).drop_last() == clicks@.take(i as int));
        let (id, was_clicked) = clicks[i];
        if was_clicked {
            new_selection = Some(id);
        }
        i = i + 1;
    }
    assert(clicks@.take(clicks@.len() as int) == clicks@);
    if new_selection != selected {
        if let Some(id) = new_selection {
            scene_manager.select_entity(id);
        }
    }
}

} // verus!
