//! The scene graph: the entities placed in the map, each with an id that is
//! never given twice.

use vstd::prelude::*;

verus! {

/// One entity of the scene. `translation` holds the bit patterns
/// (`f32::to_bits`) of its `x, y, z` position.
#[derive(Debug, Clone)]
pub struct SceneEntity {
    pub id: usize,
    pub name: String,
    pub asset_id: String,
    pub translation: [u32; 3],
}

/// An entity as plain values.
pub struct EntityView {
    pub id: usize,
    pub name: Seq<char>,
    pub asset_id: Seq<char>,
    pub translation: Seq<u32>,
}

impl View for SceneEntity {
    type V = EntityView;

    open spec fn view(&self) -> EntityView {
        EntityView {
            id: self.id,
            name: self.name@,
            asset_id: self.asset_id@,
            translation: self.translation@,
        }
    }
}

/// The translation of a new entity: the origin (`0.0` has bit pattern `0`).
pub open spec fn origin() -> Seq<u32> {
    seq![0u32, 0u32, 0u32]
}

/// `i` is the first position in `s` of an entity with id `id`.
pub open spec fn first_entity_with(s: Seq<EntityView>, id: usize, i: int) -> bool {
    &&& 0 <= i < s.len()
    &&& s[i].id == id
    &&& forall|j: int| 0 <= j < i ==> s[j].id != id
}

/// The first entity with id `id` in `s`, if any.
pub open spec fn find_entity(s: Seq<EntityView>, id: usize) -> Option<EntityView> {
    if exists|i: int| first_entity_with(s, id, i) {
        Some(s[choose|i: int| first_entity_with(s, id, i)])
    } else {
        None
    }
}

/// The entities of a scene, in the order they were added.
pub struct SceneGraph {
    pub entities: Vec<SceneEntity>,
    next_id: usize,
}

impl SceneGraph {
    /// The entities as plain values.
    pub closed spec fn entity_views(&self) -> Seq<EntityView> {
        self.entities@.map_values(|e: SceneEntity| e@)
    }

    /// The id that the next added entity will get.
    pub closed spec fn next_entity_id(&self) -> nat {
        self.next_id as nat
    }

    /// The scene's invariant: ids increase along the list and are all below
    /// the next id, so no id occurs twice and the next one is fresh.
    pub closed spec fn wf(&self) -> bool {
        &&& forall|i: int|
            0 <= i < self.entities@.len() ==> #[trigger] self.entities@[i].id < self.next_entity_id()
        &&& forall|i: int, j: int|
            0 <= i < j < self.entities@.len() ==> #[trigger] self.entities@[i].id
                < #[trigger] self.entities@[j].id
    }

    /// What the invariant says of the entity list: every id is below the
    /// next id, and ids increase along the list.
    pub proof fn lemma_wf(&self)
        requires
            self.wf(),
        ensures
            forall|i: int|
                0 <= i < self.entity_views().len() ==> #[trigger] self.entity_views()[i].id
                    < self.next_entity_id(),
            forall|i: int, j: int|
                0 <= i < j < self.entity_views().len() ==> #[trigger] self.entity_views()[i].id
                    < #[trigger] self.entity_views()[j].id,
    {
        assert forall|i: int, j: int|
            0 <= i < j < self.entity_views().len() implies #[trigger] self.entity_views()[i].id
                < #[trigger] self.entity_views()[j].id by {
            assert(self.entities@[i].id < self.entities@[j].id);
        }
    }

    /// An empty scene whose first entity will get id `0`.
    pub fn new() -> (r: Self)
        ensures
            r.wf(),
            r.entity_views() == Seq::<EntityView>::empty(),
            r.next_entity_id() == 0,
    {
        let r = SceneGraph { entities: Vec::new(), next_id: 0 };
        assert(r.entity_views() =~= Seq::<EntityView>::empty());
        r
    }

    /// Adds an entity at the origin under the next id and returns that id.
    pub fn add_entity(&mut self, name: String, asset_id: String) -> (id: usize)
        requires
            old(self).next_entity_id() < usize::MAX,
        ensures
            id == old(self).next_entity_id(),
            final(self).next_entity_id() == old(self).next_entity_id() + 1,
            final(self).entity_views() == old(self).entity_views().push(
                EntityView { id, name: name@, asset_id: asset_id@, translation: origin() },
            ),
            old(self).wf() ==> final(self).wf(),
            old(self).wf() ==> forall|i: int|
                0 <= i < old(self).entity_views().len() ==> #[trigger] old(self).entity_views()[i].id != id,
    {
        proof {
            if old(self).wf() {
                old(self).lemma_wf();
            }
        }
        let id = self.next_id;
        self.next_id = self.next_id + 1;
        let e = SceneEntity { id, name, asset_id, translation: [0, 0, 0] };
        assert(e.translation@ =~= origin());
        self.entities.push(e);
        assert(self.entity_views() =~= old(self).entity_views().push(e@));
        id
    }

    /// The first entity with id `id`, if any.
    pub fn get(&self, id: usize) -> (r: Option<&SceneEntity>)
        ensures
            r is Some == (find_entity(self.entity_views(), id) is Some),
            r matches Some(e) ==> find_entity(self.entity_views(), id) == Some(e@),
    {
        let mut i: usize = 0;
        while i < self.entities.len()
            invariant
                i <= self.entities@.len(),
                forall|j: int| 0 <= j < i ==> self.entity_views()[j].id != id,
            decreases self.entities@.len() - i,
        {
            assert(self.entity_views()[i as int] == self.entities@[i as int]@);
            if self.entities[i].id == id {
                proof {
                    assert(first_entity_with(self.entity_views(), id, i as int));
                    let k = choose|k: int| first_entity_with(self.entity_views(), id, k);
                    assert(k == i);
                }
                return Some(&self.entities[i]);
            }
            i = i + 1;
        }
        proof {
            if exists|k: int| first_entity_with(self.entity_views(), id, k) {
                let k = choose|k: int| first_entity_with(self.entity_views(), id, k);
                assert(self.entity_views()[k].id == id);
            }
        }
        None
    }

    /// The number of entities.
    pub fn entity_count(&self) -> (r: usize)
        ensures
            r == self.entity_views().len(),
    {
        self.entities.len()
    }

    /// The `i`-th entity, in the order they were added.
    pub fn entity_at(&self, i: usize) -> (r: &SceneEntity)
        requires
            i < self.entity_views().len(),
        ensures
            r@ == self.entity_views()[i as int],
    {
        &self.entities[i]
    }

    /// The id that the next added entity will get.
    pub fn next_id(&self) -> (r: usize)
        ensures
            r == self.next_entity_id(),
    {
        self.next_id
    }

    /// Removes every entity. Ids already given are not given again.
    pub fn clear(&mut self)
        ensures
            final(self).entity_views() == Seq::<EntityView>::empty(),
            final(self).next_entity_id() == old(self).next_entity_id(),
            final(self).wf(),
    {
        self.entities.clear();
        assert(self.entity_views() =~= Seq::<EntityView>::empty());
    }
}

/// Read after write for entities: in a valid scene, the entity added under
/// the next id is found by that id, and every other id finds what it found
/// before. (`add_entity` appends such an entity.)
pub proof fn lemma_get_after_add_entity(before: SceneGraph, after: SceneGraph, e: EntityView, other: usize)
    requires
        before.wf(),
        e.id == before.next_entity_id(),
        after.entity_views() == before.entity_views().push(e),
    ensures
        find_entity(after.entity_views(), e.id) == Some(e),
        other != e.id ==> find_entity(after.entity_views(), other) == find_entity(
            before.entity_views(),
            other,
        ),
{
    before.lemma_wf();
    let s = before.entity_views();
    let t = after.entity_views();
    assert(first_entity_with(t, e.id, s.len() as int));
    let w = choose|i: int| first_entity_with(t, e.id, i);
    if w < s.len() {
        assert(t[w] == s[w]);
    }
    if other != e.id {
        if exists|i: int| first_entity_with(s, other, i) {
            let i = choose|i: int| first_entity_with(s, other, i);
            assert(first_entity_with(t, other, i));
            let j = choose|j: int| first_entity_with(t, other, j);
            if j < i {
                assert(t[j] == s[j]);
            }
        }
        if exists|i: int| first_entity_with(t, other, i) {
            let i = choose|i: int| first_entity_with(t, other, i);
            assert(i < s.len());
            assert(first_entity_with(s, other, i));
        }
    }
}

} // verus!
