use map_editor::asset::registry::{AssetRegistry, AssetType, MeshData};
use map_editor::asset::path::platform_backslash_separates;
use std::sync::Arc;

fn bits(v: &[f32]) -> Vec<u32> {
    v.iter().map(|x| x.to_bits()).collect()
}

#[test]
fn new_registry_is_empty() {
    let r = AssetRegistry::new();
    assert_eq!(r.len(), 0);
    assert!(r.all_assets().is_empty());
    assert!(r.get("asset_0").is_none());
    assert!(r.path("asset_0").is_none());
    assert!(r.get_mesh("asset_0").is_none());
}

#[test]
fn add_asset_gives_sequential_ids() {
    let mut r = AssetRegistry::new();
    let mut ids = Vec::new();
    for i in 0..12 {
        ids.push(r.add_asset(format!("/tmp/file{}.png", i), None));
    }
    for (i, id) in ids.iter().enumerate() {
        assert_eq!(id, &format!("asset_{}", i));
    }
    assert_eq!(r.len(), 12);
    assert_eq!(r.get("asset_10").unwrap().name, "file10");
    assert_eq!(r.get("asset_11").unwrap().path, "/tmp/file11.png");
}

#[test]
fn add_asset_names_by_file_stem() {
    let mut r = AssetRegistry::new();
    let id = r.add_asset("/models/tree.glb".to_string(), None);
    let a = r.get(&id).unwrap();
    assert_eq!(a.id, "asset_0");
    assert_eq!(a.name, "tree");
    assert_eq!(a.path, "/models/tree.glb");
    assert_eq!(a.asset_type, AssetType::Model);
}

#[test]
fn add_asset_keeps_custom_name() {
    let mut r = AssetRegistry::new();
    let id = r.add_asset("/sounds/boom.wav".to_string(), Some("Explosion".to_string()));
    let a = r.get(&id).unwrap();
    assert_eq!(a.name, "Explosion");
    assert_eq!(a.asset_type, AssetType::Sound);
}

#[test]
fn add_asset_without_file_name_has_empty_name() {
    let mut r = AssetRegistry::new();
    let id = r.add_asset("/".to_string(), None);
    let a = r.get(&id).unwrap();
    assert_eq!(a.name, "");
    assert_eq!(a.asset_type, AssetType::Other);
    let id = r.add_asset("dir/..".to_string(), None);
    assert_eq!(r.get(&id).unwrap().name, "");
}

#[test]
fn detect_asset_type_by_extension() {
    let cases = [
        ("a.gltf", AssetType::Model),
        ("a.glb", AssetType::Model),
        ("a.obj", AssetType::Model),
        ("a.fbx", AssetType::Model),
        ("a.png", AssetType::Texture),
        ("a.jpg", AssetType::Texture),
        ("a.jpeg", AssetType::Texture),
        ("a.tga", AssetType::Texture),
        ("a.bmp", AssetType::Texture),
        ("a.wav", AssetType::Sound),
        ("a.mp3", AssetType::Sound),
        ("a.ogg", AssetType::Sound),
        ("a.PNG", AssetType::Other),
        ("a.txt", AssetType::Other),
        ("archive.tar.gz", AssetType::Other),
        ("noext", AssetType::Other),
        (".png", AssetType::Other),
        ("dir.png/", AssetType::Texture),
        ("a.", AssetType::Other),
        ("", AssetType::Other),
    ];
    for (p, t) in cases {
        assert_eq!(AssetRegistry::detect_asset_type(&p.to_string(), false), t, "{}", p);
    }
}

#[test]
fn get_after_add_finds_the_new_asset_and_keeps_others() {
    let mut r = AssetRegistry::new();
    let a = r.add_asset("one.obj".to_string(), None);
    let before = r.get(&a).unwrap().name.clone();
    let b = r.add_asset("two.png".to_string(), None);
    assert_eq!(r.get(&b).unwrap().name, "two");
    assert_eq!(r.get(&a).unwrap().name, before);
    assert_ne!(a, b);
    assert!(r.get("asset_2").is_none());
    assert!(r.get("two").is_none());
}

#[test]
fn path_of_asset() {
    let mut r = AssetRegistry::new();
    let id = r.add_asset("textures/stone.tga".to_string(), None);
    assert_eq!(r.path(&id).unwrap(), "textures/stone.tga");
    assert!(r.path("asset_9").is_none());
}

#[test]
fn all_assets_in_insertion_order() {
    let mut r = AssetRegistry::new();
    r.add_asset("x.obj".to_string(), None);
    r.add_asset("y.png".to_string(), None);
    r.add_asset("z.ogg".to_string(), None);
    let names: Vec<String> = r.all_assets().iter().map(|a| a.name.clone()).collect();
    assert_eq!(names, vec!["x", "y", "z"]);
}

#[test]
fn mesh_data_counts() {
    let m = MeshData::new(bits(&[0.0, 1.0, 2.0, 3.0, 4.0, 5.0, 6.0]), vec![0, 1, 0]);
    assert_eq!(m.vertex_count, 2);
    assert_eq!(m.index_count, 3);
    assert_eq!(m.vertices.len(), 7);
}

#[test]
fn mesh_read_after_write() {
    let mut r = AssetRegistry::new();
    r.add_mesh("asset_0", MeshData::new(bits(&[1.0, 2.0, 3.0]), vec![0]));
    r.add_mesh("other", MeshData::new(bits(&[4.0, 5.0, 6.0]), vec![]));
    let m = r.get_mesh("asset_0").unwrap();
    assert_eq!(m.vertices, bits(&[1.0, 2.0, 3.0]));
    assert_eq!(m.indices, vec![0]);
    r.add_mesh("asset_0", MeshData::new(bits(&[7.0, 8.0, 9.0]), vec![0, 0]));
    let m2 = r.get_mesh("asset_0").unwrap();
    assert_eq!(m2.vertices, bits(&[7.0, 8.0, 9.0]));
    assert_eq!(m2.index_count, 2);
    assert_eq!(r.get_mesh("other").unwrap().vertices, bits(&[4.0, 5.0, 6.0]));
    assert!(r.get_mesh("missing").is_none());
    // Old handles stay valid after a replacement.
    assert_eq!(m.vertices, bits(&[1.0, 2.0, 3.0]));
}

#[test]
fn get_mesh_shares_the_stored_mesh() {
    let mut r = AssetRegistry::new();
    r.add_mesh("k", MeshData::new(vec![1, 2, 3], vec![0]));
    let a = r.get_mesh("k").unwrap();
    let b = r.get_mesh("k").unwrap();
    assert!(Arc::ptr_eq(&a, &b));
    assert_eq!(Arc::strong_count(&a), 3);
}

/// The asset type as the original code computes it from `std::path::Path`.
fn type_by_std_path(p: &str) -> AssetType {
    match std::path::Path::new(p).extension().and_then(|ext| ext.to_str()) {
        Some("gltf") | Some("glb") | Some("obj") | Some("fbx") => AssetType::Model,
        Some("png") | Some("jpg") | Some("jpeg") | Some("tga") | Some("bmp") => AssetType::Texture,
        Some("wav") | Some("mp3") | Some("ogg") => AssetType::Sound,
        _ => AssetType::Other,
    }
}

#[test]
fn detect_asset_type_agrees_with_std_paths() {
    let names = [
        "x.obj", "x.png", "x.ogg", "x.OGG", "x.txt", "x", ".obj", "x.tar.obj", "d.png/x", "d/x.png/",
        "d/x.png/.", "d/x.png/..", "d.png\\x", "d\\x.png",
    ];
    for n in names {
        assert_eq!(
            AssetRegistry::detect_asset_type(&n.to_string(), platform_backslash_separates()),
            type_by_std_path(n),
            "{}",
            n
        );
    }
}

#[test]
fn default_name_agrees_with_std_file_stem() {
    let names = ["/a/b.c", "b", ".b", "b.", "/", "", "a/..", "x/y.z/", "ü/ä.ö", "C:\\models\\cube.obj"];
    let mut r = AssetRegistry::new();
    for n in names {
        let id = r.add_asset(n.to_string(), None);
        let expected = std::path::Path::new(n)
            .file_stem()
            .unwrap_or_default()
            .to_string_lossy()
            .to_string();
        assert_eq!(r.get(&id).unwrap().name, expected, "{}", n);
    }
}

#[test]
fn repeated_paths_give_distinct_ids() {
    let mut r = AssetRegistry::new();
    let ids: Vec<String> = (0..5).map(|_| r.add_asset("same.obj".to_string(), None)).collect();
    for i in 0..ids.len() {
        for j in i + 1..ids.len() {
            assert_ne!(ids[i], ids[j]);
        }
    }
    assert_eq!(r.len(), 5);
    assert_eq!(r.all_assets().len(), 5);
}

#[test]
fn detect_asset_type_with_backslash_separators() {
    assert_eq!(AssetRegistry::detect_asset_type(&"C:\\tex\\a.png".to_string(), true), AssetType::Texture);
    assert_eq!(AssetRegistry::detect_asset_type(&"d.png\\x".to_string(), true), AssetType::Other);
    assert_eq!(AssetRegistry::detect_asset_type(&"d.png\\x".to_string(), false), AssetType::Other);
    assert_eq!(AssetRegistry::detect_asset_type(&"d.obj\\x.png".to_string(), false), AssetType::Texture);
}
