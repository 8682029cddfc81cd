use overpass::boc::BOC;
use sha2::Digest;

#[test]
fn test_boc_new() {
    let boc = BOC::new();
    assert!(boc.cells.is_empty());
    assert!(boc.references.is_empty());
    assert!(boc.roots.is_empty());
    assert!(boc.hash.is_none());
}

#[test]
fn test_boc_builder() {
    let cells = vec![vec![1, 2, 3]];
    let references = vec![vec![4, 5, 6]];
    let roots = vec![vec![7, 8, 9]];
    let hash = [0u8; 32];

    let boc = BOC::new()
        .with_cells(cells.clone())
        .with_references(references.clone())
        .with_roots(roots.clone())
        .with_hash(hash);

    assert_eq!(boc.cells(), &cells);
    assert_eq!(boc.references(), &references);
    assert_eq!(boc.roots(), &roots);
    assert_eq!(boc.hash(), hash);
}

#[test]
fn test_boc_setter() {
    let mut boc = BOC::new();
    let cells = vec![vec![1, 2, 3]];
    let references = vec![vec![4, 5, 6]];
    let roots = vec![vec![7, 8, 9]];
    let hash = [0u8; 32];

    boc.set_cells(cells.clone());
    boc.set_references(references.clone());
    boc.set_roots(roots.clone());
    boc.set_hash(hash);

    assert_eq!(boc.cells(), &cells);
    assert_eq!(boc.references(), &references);
    assert_eq!(boc.roots(), &roots);
    assert_eq!(boc.hash(), hash);
}

#[test]
fn test_compute_hash() {
    let boc = BOC::new()
        .with_cells(vec![vec![1, 2, 3]])
        .with_references(vec![vec![4, 5, 6]])
        .with_roots(vec![vec![7, 8, 9]]);

    let hash = boc.compute_hash();
    assert_ne!(hash, [0u8; 32]);
}

#[test]
fn compute_hash_is_sha256_of_cells_references_roots() {
    let boc = BOC::new()
        .with_cells(vec![vec![1, 2], vec![3]])
        .with_references(vec![vec![4, 5, 6]])
        .with_roots(vec![vec![7, 8, 9]]);
    assert_eq!(boc.content_bytes(), vec![1, 2, 3, 4, 5, 6, 7, 8, 9]);
    let expected: [u8; 32] = sha2::Sha256::digest([1u8, 2, 3, 4, 5, 6, 7, 8, 9]).into();
    assert_eq!(boc.compute_hash(), expected);
}

#[test]
fn hash_without_one_set_is_zero() {
    let boc = BOC::new();
    assert_eq!(boc.hash(), [0u8; 32]);
    let boc = boc.with_hash([9u8; 32]);
    assert_eq!(boc.hash(), [9u8; 32]);
}
