use map_editor::asset::path::{extension, file_stem, platform_backslash_separates};
use std::path::Path;

const PATHS: &[&str] = &[
    "", "/", "a", "a.b", "a.b.c", ".a", ".a.b", "a.", "..", ".", "./", "a/.", "a/..", "a/./",
    "/x/y/tree.glb", "x//y", "x/y/", "x/y//", "../x.txt", "./x.txt", "dir.d/file", "dir.d/",
    "..a", "a..", "...", "/.hidden", "a b/c d.e f", "ünï/cödé.tär.gz", "//", "x/.y.z",
];

#[test]
fn file_stem_matches_std() {
    for p in PATHS {
        let expected = Path::new(p).file_stem().map(|s| s.to_str().unwrap().to_string());
        assert_eq!(file_stem(p, platform_backslash_separates()), expected, "path {:?}", p);
    }
}

#[test]
fn extension_matches_std() {
    for p in PATHS {
        let expected = Path::new(p).extension().map(|s| s.to_str().unwrap().to_string());
        assert_eq!(extension(p, platform_backslash_separates()), expected, "path {:?}", p);
    }
}

#[test]
fn stem_dot_extension_rebuilds_file_name() {
    for p in PATHS {
        if let Some(e) = extension(p, platform_backslash_separates()) {
            let name = Path::new(p).file_name().unwrap().to_str().unwrap().to_string();
            assert_eq!(format!("{}.{}", file_stem(p, platform_backslash_separates()).unwrap(), e), name, "path {:?}", p);
        }
    }
}

fn all_strings(alphabet: &[char], max_len: usize) -> Vec<String> {
    let mut out = vec![String::new()];
    let mut layer = vec![String::new()];
    for _ in 0..max_len {
        let mut next = Vec::new();
        for s in &layer {
            for c in alphabet {
                let mut t = s.clone();
                t.push(*c);
                next.push(t);
            }
        }
        out.extend(next.iter().cloned());
        layer = next;
    }
    out
}

#[test]
fn stem_and_extension_match_std_on_all_short_paths() {
    for p in all_strings(&['a', '.', '/'], 7) {
        let path = Path::new(&p);
        let stem = path.file_stem().map(|s| s.to_str().unwrap().to_string());
        let ext = path.extension().map(|s| s.to_str().unwrap().to_string());
        assert_eq!(file_stem(&p, platform_backslash_separates()), stem, "path {:?}", p);
        assert_eq!(extension(&p, platform_backslash_separates()), ext, "path {:?}", p);
    }
}

#[test]
fn platform_separator_agrees_with_std() {
    assert_eq!(platform_backslash_separates(), std::path::is_separator('\\'));
    assert!(std::path::is_separator('/'));
}

#[test]
fn backslash_separates_when_asked() {
    assert_eq!(file_stem("C:\\models\\cube.obj", true), Some("cube".to_string()));
    assert_eq!(extension("C:\\models\\cube.obj", true), Some("obj".to_string()));
    assert_eq!(file_stem("models\\tree.glb", true), Some("tree".to_string()));
    assert_eq!(extension("a\\b.c\\", true), Some("c".to_string()));
    assert_eq!(file_stem("a\\..", true), None);
    assert_eq!(file_stem("x/y\\z.txt", true), Some("z".to_string()));
}

#[test]
fn backslash_is_plain_text_when_not_a_separator() {
    assert_eq!(file_stem("models\\tree.glb", false), Some("models\\tree".to_string()));
    assert_eq!(extension("models\\tree.glb", false), Some("glb".to_string()));
    assert_eq!(file_stem("C:\\a.b\\cube", false), Some("C:\\a".to_string()));
    assert_eq!(extension("C:\\a.b\\cube", false), Some("b\\cube".to_string()));
}
