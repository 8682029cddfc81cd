use vstd::prelude::*;

use crate::hashing::{append_rows, byte_rows, flatten, sha256_digest, spec_sha256};

verus! {

/// A bag of cells: the cells' bytes, the references between them, the root
/// cells, and an optional 32-byte hash.
#[derive(Debug, Clone)]
pub struct BOC {
    pub cells: Vec<Vec<u8>>,
    pub references: Vec<Vec<u8>>,
    pub roots: Vec<Vec<u8>>,
    pub hash: Option<[u8; 32]>,
}

/// Thirty-two zero bytes.
pub open spec fn zero_hash() -> Seq<u8> {
    Seq::new(32, |i: int| 0u8)
}

/// Returns 32 zero bytes.
pub fn zero_bytes32() -> (r: [u8; 32])
    ensures
        r@ == zero_hash(),
{
    let r = [0u8; 32];
    assert(r@ =~= zero_hash());
    r
}

/// The bytes that `compute_hash` digests: every cell, then every reference,
/// then every root, in order.
pub open spec fn boc_content(cells: Seq<Vec<u8>>, references: Seq<Vec<u8>>, roots: Seq<Vec<u8>>) -> Seq<u8> {
    flatten(byte_rows(cells)) + flatten(byte_rows(references)) + flatten(byte_rows(roots))
}

impl BOC {
    /// An empty bag with no hash.
    pub fn new() -> (r: Self)
        ensures
            r.cells@.len() == 0,
            r.references@.len() == 0,
            r.roots@.len() == 0,
            r.hash.is_none(),
    {
        BOC { cells: Vec::new(), references: Vec::new(), roots: Vec::new(), hash: None }
    }

    /// The same bag with its hash set.
    pub fn with_hash(self, hash: [u8; 32]) -> (r: Self)
        ensures
            r.cells == self.cells,
            r.references == self.references,
            r.roots == self.roots,
            r.hash == Some(hash),
    {
        let mut s = self;
        s.hash = Some(hash);
        s
    }

    /// The same bag with its cells replaced.
    pub fn with_cells(self, cells: Vec<Vec<u8>>) -> (r: Self)
        ensures
            r.cells == cells,
            r.references == self.references,
            r.roots == self.roots,
            r.hash == self.hash,
    {
        let mut s = self;
        s.cells = cells;
        s
    }

    /// The same bag with its references replaced.
    pub fn with_references(self, references: Vec<Vec<u8>>) -> (r: Self)
        ensures
            r.cells == self.cells,
            r.references == references,
            r.roots == self.roots,
            r.hash == self.hash,
    {
        let mut s = self;
        s.references = references;
        s
    }

    /// The same bag with its roots replaced.
    pub fn with_roots(self, roots: Vec<Vec<u8>>) -> (r: Self)
        ensures
            r.cells == self.cells,
            r.references == self.references,
            r.roots == roots,
            r.hash == self.hash,
    {
        let mut s = self;
        s.roots = roots;
        s
    }

    /// The stored hash, or 32 zero bytes when none is set.
    pub fn hash(&self) -> (r: [u8; 32])
        ensures
            self.hash matches Some(h) ==> r == h,
            self.hash is None ==> r@ == zero_hash(),
    {
        match self.hash {
            Some(h) => h,
            None => zero_bytes32(),
        }
    }

    /// The cells.
    pub fn cells(&self) -> (r: &Vec<Vec<u8>>)
        ensures
            *r == self.cells,
    {
        &self.cells
    }

    /// The references.
    pub fn references(&self) -> (r: &Vec<Vec<u8>>)
        ensures
            *r == self.references,
    {
        &self.references
    }

    /// The roots.
    pub fn roots(&self) -> (r: &Vec<Vec<u8>>)
        ensures
            *r == self.roots,
    {
        &self.roots
    }

    /// Sets the hash; nothing else changes.
    pub fn set_hash(&mut self, hash: [u8; 32])
        ensures
            final(self).hash == Some(hash),
            final(self).cells == old(self).cells,
            final(self).references == old(self).references,
            final(self).roots == old(self).roots,
    {
        self.hash = Some(hash);
    }

    /// Replaces the cells; nothing else changes.
    pub fn set_cells(&mut self, cells: Vec<Vec<u8>>)
        ensures
            final(self).cells == cells,
            final(self).hash == old(self).hash,
            final(self).references == old(self).references,
            final(self).roots == old(self).roots,
    {
        self.cells = cells;
    }

    /// Replaces the references; nothing else changes.
    pub fn set_references(&mut self, references: Vec<Vec<u8>>)
        ensures
            final(self).references == references,
            final(self).hash == old(self).hash,
            final(self).cells == old(self).cells,
            final(self).roots == old(self).roots,
    {
        self.references = references;
    }

    /// Replaces the roots; nothing else changes.
    pub fn set_roots(&mut self, roots: Vec<Vec<u8>>)
        ensures
            final(self).roots == roots,
            final(self).hash == old(self).hash,
            final(self).cells == old(self).cells,
            final(self).references == old(self).references,
    {
        self.roots = roots;
    }

    /// The bytes that are hashed: cells, then references, then roots.
    pub fn content_bytes(&self) -> (r: Vec<u8>)
        ensures
            r@ == boc_content(self.cells@, self.references@, self.roots@),
    {
        let mut out: Vec<u8> = Vec::new();
        append_rows(&mut out, &self.cells);
        append_rows(&mut out, &self.references);
        append_rows(&mut out, &self.roots);
        out
    }

    /// SHA-256 of every cell, then every reference, then every root, fed in
    /// that order (which is the digest of their concatenation).
    pub fn compute_hash(&self) -> (r: [u8; 32])
        ensures
            r@ == spec_sha256(boc_content(self.cells@, self.references@, self.roots@)),
    {
        let bytes = self.content_bytes();
        sha256_digest(bytes.as_slice())
    }
}

/// The kinds of cell.
#[derive(Debug, Clone, Copy, PartialEq, Eq, Structural)]
pub enum CellType {
    Ordinary,
    PrunedBranch,
    LibraryReference,
    MerkleProof,
    MerkleUpdate,
}

/// One cell: its bytes, the indices of the cells it refers to, its kind,
/// its hash and its depth in the tree.
#[derive(Debug, Clone)]
pub struct Cell {
    pub data: Vec<u8>,
    pub references: Vec<usize>,
    pub cell_type: CellType,
    pub hash: [u8; 32],
    pub depth: u8,
}

impl Cell {
    /// A cell; with no depth given it sits at depth 0.
    pub fn new(data: Vec<u8>, references: Vec<usize>, cell_type: CellType, hash: [u8; 32], depth: Option<u8>) -> (r: Self)
        ensures
            r.data == data,
            r.references == references,
            r.cell_type == cell_type,
            r.hash == hash,
            r.depth == (match depth { Some(d) => d, None => 0u8 }),
    {
        let depth = match depth {
            Some(d) => d,
            None => 0u8,
        };
        Cell { data, references, cell_type, hash, depth }
    }

    /// The cell's kind.
    pub fn get_cell_type(&self) -> (r: CellType)
        ensures
            r == self.cell_type,
    {
        self.cell_type
    }

    /// The cell's bytes.
    pub fn get_data(&self) -> (r: &Vec<u8>)
        ensures
            *r == self.data,
    {
        &self.data
    }

    /// The cell's hash.
    pub fn get_hash(&self) -> (r: &[u8; 32])
        ensures
            *r == self.hash,
    {
        &self.hash
    }

    /// The cell's depth.
    pub fn get_depth(&self) -> (r: u8)
        ensures
            r == self.depth,
    {
        self.depth
    }

    /// A cell is pruned when it is a pruned branch.
    pub fn is_pruned(&self) -> (r: bool)
        ensures
            r == (self.cell_type == CellType::PrunedBranch),
    {
        self.cell_type == CellType::PrunedBranch
    }
}

} // verus!
