//! The scene being edited: its scene graph, the project's assets and the
//! selected entity.

use vstd::prelude::*;

use crate::asset::registry::AssetRegistry;
use crate::scene::{origin, EntityView, SceneGraph};

verus! {

/// The entity that every new or reset scene starts with.
pub open spec fn default_cube(id: usize) -> EntityView {
    EntityView {
        id,
        name: "Default Cube"@,
        asset_id: "default_cube"@,
        translation: origin(),
    }
}

/// The scene graph, the asset registry and the current selection.
pub struct SceneManager {
    scene_graph: SceneGraph,
    asset_registry: AssetRegistry,
    selected_entity_id: Option<usize>,
}

impl SceneManager {
    /// The scene graph.
    pub closed spec fn graph(&self) -> SceneGraph {
        self.scene_graph
    }

    /// The asset registry.
    pub closed spec fn registry(&self) -> AssetRegistry {
        self.asset_registry
    }

    /// The selected entity id, if any.
    pub closed spec fn selection(&self) -> Option<usize> {
        self.selected_entity_id
    }

    /// The invariants of the scene graph and of the registry.
    pub open spec fn wf(&self) -> bool {
        self.graph().wf() && self.registry().wf()
    }

    /// `self` is `prev` after a reset: only the default cube, under `prev`'s
    /// next entity id, no selection, and the same assets.
    pub open spec fn reset_from(self, prev: SceneManager) -> bool {
        &&& self.graph().entity_views() == seq![default_cube(prev.graph().next_entity_id() as usize)]
        &&& self.graph().next_entity_id() == prev.graph().next_entity_id() + 1
        &&& self.selection() is None
        &&& self.registry() == prev.registry()
        &&& self.graph().wf()
    }

    /// `self` is what `new` builds for `asset_registry`: the default cube
    /// under id `0`, no selection, and those assets.
    pub open spec fn is_new_for(self, asset_registry: AssetRegistry) -> bool {
        &&& self.registry() == asset_registry
        &&& self.selection() is None
        &&& self.graph().entity_views() == seq![default_cube(0)]
        &&& self.graph().next_entity_id() == 1
        &&& self.graph().wf()
    }

    /// A manager for `asset_registry` whose scene holds only the default cube, with id `0`.
    pub fn new(asset_registry: AssetRegistry) -> (r: Self)
        ensures
            r.is_new_for(asset_registry),
    {
        let mut manager = SceneManager {
            scene_graph: SceneGraph::new(),
            asset_registry,
            selected_entity_id: None,
        };
        manager.reset();
        manager
    }

    /// Empties the scene, clears the selection and adds the default cube
    /// under the next entity id.
    pub fn reset(&mut self)
        requires
            old(self).graph().next_entity_id() < usize::MAX,
        ensures
            final(self).reset_from(*old(self)),
    {
        self.scene_graph.clear();
        self.selected_entity_id = None;
        proof {
            reveal_strlit("Default Cube");
            reveal_strlit("default_cube");
        }
        let id = self.scene_graph.add_entity(
            String::from_str("Default Cube"),
            String::from_str("default_cube"),
        );
        assert(self.scene_graph.entity_views() =~= seq![default_cube(id)]);
    }

    /// The scene graph.
    pub fn scene_graph(&self) -> (r: &SceneGraph)
        ensures
            *r == self.graph(),
    {
        &self.scene_graph
    }

    /// The asset registry.
    pub fn asset_registry(&self) -> (r: &AssetRegistry)
        ensures
            *r == self.registry(),
    {
        &self.asset_registry
    }

    /// The asset registry, for changing it.
    pub fn asset_registry_mut(&mut self) -> (r: &mut AssetRegistry)
        ensures
            *r == old(self).registry(),
            final(self).registry() == *final(r),
            final(self).graph() == old(self).graph(),
            final(self).selection() == old(self).selection(),
    {
        &mut self.asset_registry
    }

    /// The selected entity id, if any.
    pub fn selected_entity_id(&self) -> (r: Option<usize>)
        ensures
            r == self.selection(),
    {
        self.selected_entity_id
    }

    /// Selects the entity with id `id` (whether or not the scene holds one).
    pub fn select_entity(&mut self, id: usize)
        ensures
            final(self).selection() == Some(id),
            final(self).graph() == old(self).graph(),
            final(self).registry() == old(self).registry(),
    {
        self.selected_entity_id = Some(id);
    }
}

} // verus!
