use sync_worker::errors::FsError;
use sync_worker::paths::FsPath;
use sync_worker::paths::bytes_eq;
use sync_worker::paths::resolve_rel_path;

fn path(parts: &[&str]) -> FsPath {
    FsPath { components: parts.iter().map(|p| p.as_bytes().to_vec()).collect() }
}

fn parts(p: &FsPath) -> Vec<Vec<u8>> {
    p.components.clone()
}

#[test]
fn bytes_eq_compares_contents() {
    assert!(bytes_eq(&b"abc".to_vec(), &b"abc".to_vec()));
    assert!(!bytes_eq(&b"abc".to_vec(), &b"abd".to_vec()));
    assert!(!bytes_eq(&b"abc".to_vec(), &b"ab".to_vec()));
    assert!(bytes_eq(&Vec::new(), &Vec::new()));
}

#[test]
fn starts_with_detects_prefixes() {
    let p = path(&["src", "a", "b.txt"]);
    assert!(p.starts_with(&path(&[])));
    assert!(p.starts_with(&path(&["src"])));
    assert!(p.starts_with(&path(&["src", "a"])));
    assert!(p.starts_with(&path(&["src", "a", "b.txt"])));
    assert!(!p.starts_with(&path(&["src", "b"])));
    assert!(!p.starts_with(&path(&["dst"])));
    assert!(!p.starts_with(&path(&["src", "a", "b.txt", "c"])));
}

#[test]
fn resolve_under_root_round_trip() {
    let root = path(&["src"]);
    let p = path(&["src", "a", "b.txt"]);
    let rel = resolve_rel_path(&p, &root).unwrap();
    assert_eq!(parts(&rel), parts(&path(&["a", "b.txt"])));
    let rejoined = root.join(&rel);
    assert_eq!(parts(&rejoined), parts(&p));
}

#[test]
fn resolve_not_under_root_errors() {
    let root = path(&["src"]);
    let p = path(&["other", "x.txt"]);
    match resolve_rel_path(&p, &root) {
        Err(FsError::PathNotUnderRoot { path: ep, root: er }) => {
            assert_eq!(parts(&ep), parts(&p));
            assert_eq!(parts(&er), parts(&root));
        }
        _ => panic!("expected a path error"),
    }
}

#[test]
fn resolve_of_root_itself_is_empty() {
    let root = path(&["src"]);
    let rel = resolve_rel_path(&path(&["src"]), &root).unwrap();
    assert_eq!(parts(&rel), Vec::<Vec<u8>>::new());
}

#[test]
fn join_concatenates_components() {
    let joined = path(&["dst"]).join(&path(&["a", "b.txt"]));
    assert_eq!(parts(&joined), parts(&path(&["dst", "a", "b.txt"])));
}

#[test]
fn parent_drops_the_last_component() {
    assert_eq!(
        parts(&path(&["a", "b", "c.txt"]).parent()),
        parts(&path(&["a", "b"]))
    );
    assert_eq!(parts(&path(&["a"]).parent()), Vec::<Vec<u8>>::new());
}

#[test]
fn text_joins_with_separator() {
    assert_eq!(path(&["a", "b", "c.txt"]).text(), b"a/b/c.txt".to_vec());
    assert_eq!(path(&["c.txt"]).text(), b"c.txt".to_vec());
    assert_eq!(path(&[]).text(), Vec::<u8>::new());
}

#[test]
fn clone_path_copies_all_components() {
    let p = path(&["src", "a"]);
    let q = p.clone_path();
    assert_eq!(parts(&p), parts(&q));
}
