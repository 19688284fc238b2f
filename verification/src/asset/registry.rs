//! The asset registry: every file added to the project gets a fresh id
//! `asset_<n>`, and meshes loaded for an asset are kept under its id.

use std::sync::Arc;
use vstd::prelude::*;

use crate::asset::path::{
    extension, file_stem, path_extension, path_file_stem, platform_backslash_separates,
};
use crate::text::{joined, decimal, decimal_string, lemma_decimal_injective};

verus! {

/// The kind of an asset, decided by its file extension.
#[derive(Debug, Clone, Copy, PartialEq, Eq, Structural)]
pub enum AssetType {
    Model,
    Texture,
    Sound,
    Other,
}

/// The asset type for a file extension: `gltf`, `glb`, `obj`, `fbx` are models;
/// `png`, `jpg`, `jpeg`, `tga`, `bmp` textures; `wav`, `mp3`, `ogg` sounds;
/// anything else, or no extension, other. The comparison is case-sensitive.
pub open spec fn asset_type_for_extension(ext: Option<Seq<char>>) -> AssetType {
    match ext {
        Some(e) => if e == "gltf"@ || e == "glb"@ || e == "obj"@ || e == "fbx"@ {
            AssetType::Model
        } else if e == "png"@ || e == "jpg"@ || e == "jpeg"@ || e == "tga"@ || e == "bmp"@ {
            AssetType::Texture
        } else if e == "wav"@ || e == "mp3"@ || e == "ogg"@ {
            AssetType::Sound
        } else {
            AssetType::Other
        },
        None => AssetType::Other,
    }
}

/// The asset type of the file at path `p` (with `\` a separator when `backslash` holds).
pub open spec fn asset_type_of_path(p: Seq<char>, backslash: bool) -> AssetType {
    asset_type_for_extension(path_extension(p, backslash))
}

/// The id given to the `n`-th asset added to a registry: `asset_<n>`.
pub open spec fn asset_id(n: nat) -> Seq<char> {
    "asset_"@ + decimal(n)
}

/// The display name of an asset added without a custom name: the stem of
/// its file name, or the empty string when the path has no file name.
pub open spec fn default_asset_name(p: Seq<char>, backslash: bool) -> Seq<char> {
    match path_file_stem(p, backslash) {
        Some(s) => s,
        None => Seq::empty(),
    }
}

/// Different asset numbers give different ids.
pub proof fn lemma_asset_id_injective(a: nat, b: nat)
    requires
        asset_id(a) == asset_id(b),
    ensures
        a == b,
{
    let p = "asset_"@;
    assert(asset_id(a).skip(p.len() as int) =~= decimal(a));
    assert(asset_id(b).skip(p.len() as int) =~= decimal(b));
    lemma_decimal_injective(a, b);
}

/// What the registry knows of one asset.
#[derive(Debug, Clone)]
pub struct AssetInfo {
    pub id: String,
    pub name: String,
    /// The asset's file path, as text.
    pub path: String,
    pub asset_type: AssetType,
}

/// An asset record as plain sequences.
pub struct AssetView {
    pub id: Seq<char>,
    pub name: Seq<char>,
    pub path: Seq<char>,
    pub asset_type: AssetType,
}

impl View for AssetInfo {
    type V = AssetView;

    open spec fn view(&self) -> AssetView {
        AssetView { id: self.id@, name: self.name@, path: self.path@, asset_type: self.asset_type }
    }
}

/// Mesh geometry of a model asset. `vertices` holds the bit patterns
/// (`f32::to_bits`) of the `x, y, z` coordinates, three per vertex.
#[derive(Debug, Clone)]
pub struct MeshData {
    pub vertices: Vec<u32>,
    pub indices: Vec<u32>,
    pub vertex_count: i32,
    pub index_count: i32,
}

impl MeshData {
    /// Wraps the geometry and records its vertex and index counts
    /// (`len / 3` and `len`, converted to `i32` as `as` does).
    pub fn new(vertices: Vec<u32>, indices: Vec<u32>) -> (r: Self)
        ensures
            r.vertices@ == vertices@,
            r.indices@ == indices@,
            r.vertex_count == #[verifier::truncate] ((vertices@.len() / 3) as i32),
            r.index_count == #[verifier::truncate] (indices@.len() as i32),
    {
        let vertex_count = (vertices.len() / 3) as i32;
        let index_count = indices.len() as i32;
        MeshData { vertices, indices, vertex_count, index_count }
    }
}

/// The first index `i` with `s[i].id == id`, if there is one.
pub open spec fn first_with_id(s: Seq<AssetView>, id: Seq<char>, i: int) -> bool {
    &&& 0 <= i < s.len()
    &&& s[i].id == id
    &&& forall|j: int| 0 <= j < i ==> s[j].id != id
}

/// The record with id `id` in `s`, if any (the first one).
pub open spec fn lookup(s: Seq<AssetView>, id: Seq<char>) -> Option<AssetView> {
    if exists|i: int| first_with_id(s, id, i) {
        Some(s[choose|i: int| first_with_id(s, id, i)])
    } else {
        None
    }
}

/// All assets of a project, and the meshes loaded for them.
pub struct AssetRegistry {
    assets: Vec<AssetInfo>,
    meshes: Vec<(String, Arc<MeshData>)>,
    next_id: usize,
    backslash_separates: bool,
}

/// Calls `Arc::clone`, which returns a new handle to the same mesh: the
/// result is that mesh.
#[verifier::external_body]
fn share_mesh(mesh: &Arc<MeshData>) -> (r: Arc<MeshData>)
    ensures
        r == *mesh,
{
    Arc::clone(mesh)
}

impl AssetRegistry {
    /// The records of all assets, in the order they were added.
    pub closed spec fn records(&self) -> Seq<AssetView> {
        self.assets@.map_values(|a: AssetInfo| a@)
    }

    /// The number that the next added asset will get.
    pub closed spec fn next_number(&self) -> nat {
        self.next_id as nat
    }

    /// Whether the paths of this registry take `\` as a separator, as the
    /// platform does (on Windows).
    pub closed spec fn backslash(&self) -> bool {
        self.backslash_separates
    }

    /// Whether `k` is the key of some mesh entry.
    pub closed spec fn has_mesh(&self, k: Seq<char>) -> bool {
        exists|i: int| 0 <= i < self.meshes@.len() && #[trigger] self.meshes@[i].0@ == k
    }

    /// The meshes, by asset id.
    pub closed spec fn mesh_map(&self) -> Map<Seq<char>, MeshData> {
        Map::new(
            |k: Seq<char>| self.has_mesh(k),
            |k: Seq<char>|
                *self.meshes@[choose|i: int|
                    0 <= i < self.meshes@.len() && #[trigger] self.meshes@[i].0@ == k].1,
        )
    }

    /// The registry's invariant: the `i`-th asset has id `asset_<i>`, the
    /// next number is the count of assets, and no two meshes share an id.
    pub closed spec fn wf(&self) -> bool {
        &&& self.assets@.len() == self.next_id
        &&& forall|i: int| 0 <= i < self.assets@.len() ==> #[trigger] self.assets@[i].id@ == asset_id(i as nat)
        &&& forall|i: int, j: int|
            0 <= i < j < self.meshes@.len() ==> #[trigger] self.meshes@[i].0@ != #[trigger] self.meshes@[j].0@
    }

    /// The facts that the invariant gives: asset `i` has id `asset_<i>`, and
    /// there are as many assets as the next number.
    pub proof fn lemma_wf(&self)
        requires
            self.wf(),
        ensures
            self.records().len() == self.next_number(),
            forall|i: int| 0 <= i < self.records().len() ==> #[trigger] self.records()[i].id == asset_id(i as nat),
    {
    }

    /// No two assets of a valid registry share an id, however many were added.
    pub proof fn lemma_ids_distinct(&self)
        requires
            self.wf(),
        ensures
            forall|i: int, j: int|
                0 <= i < j < self.records().len() ==> #[trigger] self.records()[i].id
                    != #[trigger] self.records()[j].id,
    {
        assert forall|i: int, j: int|
            0 <= i < j < self.records().len() implies #[trigger] self.records()[i].id
                != #[trigger] self.records()[j].id by {
            assert(self.records()[i].id == self.assets@[i].id@);
            assert(self.records()[j].id == self.assets@[j].id@);
            if self.records()[i].id == self.records()[j].id {
                lemma_asset_id_injective(i as nat, j as nat);
            }
        }
    }

    /// An empty registry.
    pub fn new() -> (r: Self)
        ensures
            r.wf(),
            r.records() == Seq::<AssetView>::empty(),
            r.next_number() == 0,
            r.mesh_map() == Map::<Seq<char>, MeshData>::empty(),
    {
        let r = AssetRegistry {
            assets: Vec::new(),
            meshes: Vec::new(),
            next_id: 0,
            backslash_separates: platform_backslash_separates(),
        };
        assert(r.records() =~= Seq::<AssetView>::empty());
        assert(r.mesh_map() =~= Map::<Seq<char>, MeshData>::empty());
        r
    }

    /// The number of assets.
    pub fn len(&self) -> (r: usize)
        ensures
            r == self.records().len(),
    {
        self.assets.len()
    }

    /// The asset type of the file at `path`, by its extension (with `\` a
    /// separator when `backslash` holds).
    pub fn detect_asset_type(path: &String, backslash: bool) -> (r: AssetType)
        ensures
            r == asset_type_of_path(path@, backslash),
    {
        match extension(path.as_str(), backslash) {
            None => AssetType::Other,
            Some(e) => {
                let s = e.as_str();
                if same(s, "gltf") || same(s, "glb") || same(s, "obj") || same(s, "fbx") {
                    AssetType::Model
                } else if same(s, "png") || same(s, "jpg") || same(s, "jpeg") || same(s, "tga")
                    || same(s, "bmp") {
                    AssetType::Texture
                } else if same(s, "wav") || same(s, "mp3") || same(s, "ogg") {
                    AssetType::Sound
                } else {
                    AssetType::Other
                }
            },
        }
    }

    /// Registers the file at `path` under the fresh id `asset_<n>` and returns
    /// that id. Its name is `custom_name` if given, else the file's stem.
    pub fn add_asset(&mut self, path: String, custom_name: Option<String>) -> (id: String)
        requires
            old(self).wf(),
            old(self).next_number() < usize::MAX,
        ensures
            final(self).wf(),
            id@ == asset_id(old(self).next_number()),
            forall|i: int| 0 <= i < old(self).records().len() ==> old(self).records()[i].id != id@,
            final(self).next_number() == old(self).next_number() + 1,
            final(self).records() == old(self).records().push(
                AssetView {
                    id: id@,
                    name: match custom_name {
                        Some(n) => n@,
                        None => default_asset_name(path@, old(self).backslash()),
                    },
                    path: path@,
                    asset_type: asset_type_of_path(path@, old(self).backslash()),
                },
            ),
            final(self).mesh_map() == old(self).mesh_map(),
            final(self).backslash() == old(self).backslash(),
    {
        let n = self.next_id;
        proof {
            reveal_strlit("asset_");
        }
        let id = joined("asset_", decimal_string(n).as_str());
        assert(id@ == asset_id(n as nat));
        proof {
            assert forall|i: int| 0 <= i < old(self).records().len() implies old(self).records()[i].id
                != id@ by {
                assert(old(self).records()[i].id == old(self).assets@[i].id@);
                if old(self).records()[i].id == id@ {
                    lemma_asset_id_injective(i as nat, n as nat);
                }
            }
        }
        self.next_id = self.next_id + 1;
        let name = match custom_name {
            Some(c) => c,
            None => match file_stem(path.as_str(), self.backslash_separates) {
                Some(s) => s,
                None => String::new(),
            },
        };
        let asset_type = Self::detect_asset_type(&path, self.backslash_separates);
        let info = AssetInfo { id: id.clone(), name, path, asset_type };
        self.assets.push(info);
        assert(self.records() =~= old(self).records().push(info@));
        assert(self.mesh_map() =~= old(self).mesh_map());
        id
    }

    /// The index of the asset with id `id`, if any.
    fn index_of(&self, id: &str) -> (r: Option<usize>)
        ensures
            r is None <==> !exists|i: int| first_with_id(self.records(), id@, i),
            r matches Some(i) ==> first_with_id(self.records(), id@, i as int),
    {
        let key = String::from_str(id);
        let mut i: usize = 0;
        while i < self.assets.len()
            invariant
                key@ == id@,
                i <= self.assets@.len(),
                forall|j: int| 0 <= j < i ==> self.records()[j].id != id@,
            decreases self.assets@.len() - i,
        {
            assert(self.records()[i as int] == self.assets@[i as int]@);
            if self.assets[i].id == key {
                assert(first_with_id(self.records(), id@, i as int));
                return Some(i);
            }
            i = i + 1;
        }
        proof {
            if exists|k: int| first_with_id(self.records(), id@, k) {
                let k = choose|k: int| first_with_id(self.records(), id@, k);
                assert(self.records()[k].id == id@);
            }
        }
        None
    }

    /// The asset with id `id`, if one was added.
    pub fn get(&self, id: &str) -> (r: Option<&AssetInfo>)
        ensures
            r is Some == (lookup(self.records(), id@) is Some),
            r matches Some(a) ==> lookup(self.records(), id@) == Some(a@),
    {
        match self.index_of(id) {
            None => None,
            Some(i) => {
                proof {
                    let k = choose|k: int| first_with_id(self.records(), id@, k);
                    assert(k == i);
                }
                Some(&self.assets[i])
            },
        }
    }

    /// The file path of the asset with id `id`, if one was added.
    pub fn path(&self, id: &str) -> (r: Option<&String>)
        ensures
            r is Some == (lookup(self.records(), id@) is Some),
            r matches Some(p) ==> lookup(self.records(), id@).unwrap().path == p@,
    {
        match self.get(id) {
            None => None,
            Some(a) => Some(&a.path),
        }
    }

    /// All assets, in the order they were added.
    pub fn all_assets(&self) -> (r: Vec<&AssetInfo>)
        ensures
            r@.len() == self.records().len(),
            forall|i: int| 0 <= i < r@.len() ==> #[trigger] r@[i]@ == self.records()[i],
    {
        let mut r: Vec<&AssetInfo> = Vec::new();
        let mut i: usize = 0;
        while i < self.assets.len()
            invariant
                i <= self.assets@.len(),
                r@.len() == i,
                forall|j: int| 0 <= j < i ==> #[trigger] r@[j]@ == self.records()[j],
            decreases self.assets@.len() - i,
        {
            r.push(&self.assets[i]);
            i = i + 1;
        }
        r
    }

    /// The position of the mesh entry with id `key`, if any.
    fn mesh_index(&self, key: &String) -> (r: Option<usize>)
        ensures
            r is None <==> !self.has_mesh(key@),
            r matches Some(i) ==> i < self.meshes@.len() && self.meshes@[i as int].0@ == key@,
    {
        let mut i: usize = 0;
        while i < self.meshes.len()
            invariant
                i <= self.meshes@.len(),
                forall|j: int| 0 <= j < i ==> self.meshes@[j].0@ != key@,
            decreases self.meshes@.len() - i,
        {
            if self.meshes[i].0 == *key {
                return Some(i);
            }
            i = i + 1;
        }
        None
    }

    /// Keeps `mesh_data` as the mesh of asset `asset_id`, replacing any earlier one.
    pub fn add_mesh(&mut self, asset_id: &str, mesh_data: MeshData)
        requires
            old(self).wf(),
        ensures
            final(self).wf(),
            final(self).mesh_map() == old(self).mesh_map().insert(asset_id@, mesh_data),
            final(self).records() == old(self).records(),
            final(self).next_number() == old(self).next_number(),
            final(self).backslash() == old(self).backslash(),
    {
        let key = String::from_str(asset_id);
        let mesh = Arc::new(mesh_data);
        let ghost mut idx: int = 0;
        match self.mesh_index(&key) {
            Some(i) => {
                proof {
                    idx = i as int;
                }
                self.meshes.set(i, (key, mesh));
                proof {
                    assert forall|j: int| 0 <= j < self.meshes@.len() && j != i implies self.meshes@[j].0@
                        != asset_id@ by {
                        if j < i {
                            assert(old(self).meshes@[j].0@ != old(self).meshes@[i as int].0@);
                        } else {
                            assert(old(self).meshes@[i as int].0@ != old(self).meshes@[j].0@);
                        }
                    }
                }
            },
            None => {
                proof {
                    idx = self.meshes@.len() as int;
                }
                self.meshes.push((key, mesh));
            },
        }
        assert(0 <= idx < self.meshes@.len() && self.meshes@[idx].0@ == asset_id@);
        proof {
            let m = self.mesh_map();
            let o = old(self).mesh_map().insert(asset_id@, mesh_data);
            assert forall|k: Seq<char>| #[trigger] m.contains_key(k) <==> o.contains_key(k) by {
                if o.contains_key(k) && k != asset_id@ {
                    let w = choose|w: int| 0 <= w < old(self).meshes@.len() && #[trigger] old(self).meshes@[w].0@ == k;
                    assert(self.meshes@[w].0@ == k);
                }
                if m.contains_key(k) && k != asset_id@ {
                    let w = choose|w: int| 0 <= w < self.meshes@.len() && #[trigger] self.meshes@[w].0@ == k;
                    assert(old(self).meshes@[w].0@ == k);
                }
                if k == asset_id@ {
                    assert(self.meshes@[idx].0@ == k);
                }
            }
            assert forall|k: Seq<char>| #[trigger] m.contains_key(k) implies m[k] == o[k] by {
                let w = choose|w: int| 0 <= w < self.meshes@.len() && #[trigger] self.meshes@[w].0@ == k;
                if k != asset_id@ {
                    let v = choose|v: int| 0 <= v < old(self).meshes@.len() && #[trigger] old(self).meshes@[v].0@ == k;
                    assert(self.meshes@[v].0@ == k);
                    if v != w {
                        if v < w {
                        } else {
                        }
                    }
                }
                else {
                    if self.meshes@.len() > old(self).meshes@.len() {
                        assert(self.meshes@[self.meshes@.len() - 1].0@ == k);
                    }
                }
            }
            assert(m =~= o);
        }
    }

    /// The mesh kept for asset `asset_id`, if any, shared with the registry.
    pub fn get_mesh(&self, asset_id: &str) -> (r: Option<Arc<MeshData>>)
        requires
            self.wf(),
        ensures
            r is Some == self.mesh_map().contains_key(asset_id@),
            r matches Some(m) ==> *m == self.mesh_map()[asset_id@],
    {
        let key = String::from_str(asset_id);
        match self.mesh_index(&key) {
            None => None,
            Some(i) => {
                proof {
                    let w = choose|w: int| 0 <= w < self.meshes@.len() && #[trigger] self.meshes@[w].0@ == asset_id@;
                    if w != i {
                        if w < i {
                        } else {
                        }
                    }
                }
                Some(share_mesh(&self.meshes[i].1))
            },
        }
    }
}

/// Whether `a` and `b` hold the same text.
fn same(a: &str, b: &str) -> (r: bool)
    ensures
        r == (a@ == b@),
{
    String::from_str(a) == String::from_str(b)
}

/// Read after write for assets: once a record with a fresh id is appended,
/// looking up that id gives the record, and looking up any other id gives
/// what it gave before. (`add_asset` appends such a record.)
pub proof fn lemma_get_after_add(before: AssetRegistry, after: AssetRegistry, v: AssetView, k: Seq<char>)
    requires
        after.records() == before.records().push(v),
        forall|i: int| 0 <= i < before.records().len() ==> before.records()[i].id != v.id,
    ensures
        lookup(after.records(), v.id) == Some(v),
        k != v.id ==> lookup(after.records(), k) == lookup(before.records(), k),
{
    let s = before.records();
    let t = after.records();
    assert(first_with_id(t, v.id, s.len() as int));
    let w = choose|i: int| first_with_id(t, v.id, i);
    if w < s.len() {
        assert(t[w] == s[w]);
    }
    if k != v.id {
        if exists|i: int| first_with_id(s, k, i) {
            let i = choose|i: int| first_with_id(s, k, i);
            assert(first_with_id(t, k, i));
            let j = choose|j: int| first_with_id(t, k, j);
            if j < i {
                assert(t[j] == s[j]);
            } else if i < j {
            }
        }
        if exists|i: int| first_with_id(t, k, i) {
            let i = choose|i: int| first_with_id(t, k, i);
            assert(i < s.len());
            assert(forall|j: int| 0 <= j < s.len() ==> t[j] == s[j]);
            assert(first_with_id(s, k, i));
        }
    }
}

/// Read after write for meshes: after keeping `m` under `k`, the mesh under
/// `k` is `m`, and every other id keeps its mesh or its lack of one.
pub proof fn lemma_mesh_after_add(
    before: AssetRegistry,
    after: AssetRegistry,
    k: Seq<char>,
    m: MeshData,
    other: Seq<char>,
)
    requires
        after.mesh_map() == before.mesh_map().insert(k, m),
    ensures
        after.mesh_map().contains_key(k),
        after.mesh_map()[k] == m,
        other != k ==> after.mesh_map().contains_key(other) == before.mesh_map().contains_key(other),
        other != k && before.mesh_map().contains_key(other) ==> after.mesh_map()[other]
            == before.mesh_map()[other],
{
}

} // verus!
