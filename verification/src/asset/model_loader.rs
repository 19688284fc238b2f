//! The decisions of model loading: which loader a path goes to, and which
//! part of a loaded file becomes the asset's mesh.

use vstd::prelude::*;

use crate::asset::path::{extension, path_extension};
use crate::asset::registry::MeshData;

verus! {

/// Which loader a model path goes to.
#[derive(Debug, PartialEq, Eq)]
pub enum LoaderChoice {
    /// `gltf` and `glb` files.
    Gltf,
    /// `obj` files.
    Obj,
    /// A file with another extension, which is given.
    Unsupported(String),
    /// A path without extension.
    NoExtension,
}

/// Picks the loader for the model file at `path` by its extension (with
/// `\` a separator when `backslash` holds).
pub fn choose_loader(path: &String, backslash: bool) -> (r: LoaderChoice)
    ensures
        match path_extension(path@, backslash) {
            None => r == LoaderChoice::NoExtension,
            Some(e) => if e == "gltf"@ || e == "glb"@ {
                r == LoaderChoice::Gltf
            } else if e == "obj"@ {
                r == LoaderChoice::Obj
            } else {
                r matches LoaderChoice::Unsupported(s) && s@ == e
            },
        },
{
    match extension(path.as_str(), backslash) {
        None => LoaderChoice::NoExtension,
        Some(e) => {
            if e == String::from_str("gltf") || e == String::from_str("glb") {
                LoaderChoice::Gltf
            } else if e == String::from_str("obj") {
                LoaderChoice::Obj
            } else {
                LoaderChoice::Unsupported(e)
            }
        },
    }
}

/// The coordinates of `positions`, three per position, in order.
pub open spec fn flatten_positions(positions: Seq<[u32; 3]>) -> Seq<u32>
    decreases positions.len(),
{
    if positions.len() == 0 {
        seq![]
    } else {
        let p = positions.last();
        flatten_positions(positions.drop_last()) + seq![p[0], p[1], p[2]]
    }
}

/// The indices `0, 1, ..., (n as u32) - 1`.
pub open spec fn identity_indices(n: nat) -> Seq<u32> {
    Seq::new((n as u32) as nat, |k: int| k as u32)
}

/// A mesh primitive as read from a glTF file: its positions, if it has any,
/// with its indices, if it has any.
pub type GltfPrimitive = Option<(Vec<[u32; 3]>, Option<Vec<u32>>)>;

/// `i` is the first primitive with positions.
pub open spec fn first_with_positions(prims: Seq<GltfPrimitive>, i: int) -> bool {
    &&& 0 <= i < prims.len()
    &&& prims[i] is Some
    &&& forall|j: int| 0 <= j < i ==> prims[j] is None
}

/// The indices of a glTF primitive: its own, or one per position when it has none.
pub open spec fn gltf_indices(positions: Seq<[u32; 3]>, indices: Option<Vec<u32>>) -> Seq<u32> {
    match indices {
        Some(v) => v@,
        None => identity_indices(positions.len()),
    }
}

fn flatten(positions: &Vec<[u32; 3]>) -> (r: Vec<u32>)
    ensures
        r@ == flatten_positions(positions@),
{
    let mut r: Vec<u32> = Vec::new();
    let mut k: usize = 0;
    assert(positions@.take(0) =~= seq![]);
    while k < positions.len()
        invariant
            k <= positions@.len(),
            r@ == flatten_positions(positions@.take(k as int)),
        decreases positions@.len() - k,
    {
        let p = positions[k];
        r.push(p[0]);
        r.push(p[1]);
        r.push(p[2]);
        assert(positions@.take(k + 1).drop_last() =~= positions@.take(k as int));
        assert(positions@.take(k + 1).last() == p);
        k = k + 1;
    }
    assert(positions@.take(positions@.len() as int) =~= positions@);
    r
}

fn indices_up_to(n: usize) -> (r: Vec<u32>)
    ensures
        r@ == identity_indices(n as nat),
{
    let m = n as u32;
    let mut r: Vec<u32> = Vec::new();
    let mut k: u32 = 0;
    while k < m
        invariant
            k <= m,
            m == n as u32,
            r@ =~= Seq::new(k as nat, |j: int| j as u32),
        decreases m - k,
    {
        r.push(k);
        k = k + 1;
    }
    r
}

/// The mesh of a glTF file, given its primitives in file order (meshes in
/// order, each mesh's primitives in order): built from the first primitive
/// that has positions. `None` when no primitive has positions.
pub fn mesh_from_gltf_primitives(prims: Vec<GltfPrimitive>) -> (r: Option<MeshData>)
    ensures
        r is None <==> forall|j: int| 0 <= j < prims@.len() ==> prims@[j] is None,
        r matches Some(m) ==> exists|i: int|
            #[trigger] first_with_positions(prims@, i) && {
                let (positions, indices) = prims@[i].unwrap();
                &&& m.vertices@ == flatten_positions(positions@)
                &&& m.indices@ == gltf_indices(positions@, indices)
                &&& m.vertex_count == #[verifier::truncate] ((m.vertices@.len() / 3) as i32)
                &&& m.index_count == #[verifier::truncate] (m.indices@.len() as i32)
            },
{
    let ghost orig = prims@;
    let mut list = prims;
    assert(list@ == orig);
    let mut i: usize = 0;
    while i < list.len()
        invariant
            list@ == orig,
            orig == prims@,
            i <= list@.len(),
            forall|j: int| 0 <= j < i ==> list@[j] is None,
        decreases list@.len() - i,
    {
        if list[i].is_some() {
            assert(first_with_positions(orig, i as int));
            let prim = list.swap_remove(i);
            let (positions, indices) = prim.unwrap();
            let vertices = flatten(&positions);
            let idx = match indices {
                Some(v) => v,
                None => indices_up_to(positions.len()),
            };
            let m = MeshData::new(vertices, idx);
            assert(orig[i as int] is Some);
            assert(orig[i as int].unwrap().0@ == positions@);
            assert(orig[i as int].unwrap().1 == indices);
            return Some(m);
        }
        i = i + 1;
    }
    None
}

/// An object read from an OBJ file: its position coordinates and its indices.
pub type ObjModel = (Vec<u32>, Vec<u32>);

/// `i` is the first model with positions.
pub open spec fn first_nonempty_model(models: Seq<ObjModel>, i: int) -> bool {
    &&& 0 <= i < models.len()
    &&& models[i].0@.len() > 0
    &&& forall|j: int| 0 <= j < i ==> models[j].0@.len() == 0
}

/// The mesh of an OBJ file, given its models in file order: the first model
/// with positions, as is. `None` when every model has none.
pub fn mesh_from_obj_models(models: Vec<ObjModel>) -> (r: Option<MeshData>)
    ensures
        r is None <==> forall|j: int| 0 <= j < models@.len() ==> models@[j].0@.len() == 0,
        r matches Some(m) ==> exists|i: int|
            #[trigger] first_nonempty_model(models@, i) && {
                &&& m.vertices@ == models@[i].0@
                &&& m.indices@ == models@[i].1@
                &&& m.vertex_count == #[verifier::truncate] ((m.vertices@.len() / 3) as i32)
                &&& m.index_count == #[verifier::truncate] (m.indices@.len() as i32)
            },
{
    let ghost orig = models@;
    let mut list = models;
    let mut i: usize = 0;
    while i < list.len()
        invariant
            list@ == orig,
            orig == models@,
            i <= list@.len(),
            forall|j: int| 0 <= j < i ==> list@[j].0@.len() == 0,
        decreases list@.len() - i,
    {
        if list[i].0.len() > 0 {
            assert(first_nonempty_model(orig, i as int));
            let (positions, indices) = list.swap_remove(i);
            assert(orig[i as int].0@ == positions@);
            assert(orig[i as int].1@ == indices@);
            return Some(MeshData::new(positions, indices));
        }
        i = i + 1;
    }
    None
}

} // verus!
