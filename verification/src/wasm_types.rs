use vstd::prelude::*;

use crate::boc::{Cell, CellType};

verus! {

/// The cell kinds as the WebAssembly interface numbers them (0 to 4).
#[derive(Clone, Debug, Copy, PartialEq, Eq, Structural)]
pub enum WasmCellType {
    Ordinary,
    PrunedBranch,
    LibraryReference,
    MerkleProof,
    MerkleUpdate,
}

/// The cell kind a byte stands for; unknown bytes stand for `Ordinary`.
pub open spec fn spec_wasm_cell_type(byte: u8) -> WasmCellType {
    if byte == 1 {
        WasmCellType::PrunedBranch
    } else if byte == 2 {
        WasmCellType::LibraryReference
    } else if byte == 3 {
        WasmCellType::MerkleProof
    } else if byte == 4 {
        WasmCellType::MerkleUpdate
    } else {
        WasmCellType::Ordinary
    }
}

/// The number of a cell kind in the interface.
pub open spec fn spec_wasm_cell_type_code(t: WasmCellType) -> u8 {
    match t {
        WasmCellType::Ordinary => 0,
        WasmCellType::PrunedBranch => 1,
        WasmCellType::LibraryReference => 2,
        WasmCellType::MerkleProof => 3,
        WasmCellType::MerkleUpdate => 4,
    }
}

/// The interface kind of a core cell kind.
pub open spec fn spec_to_wasm_type(t: CellType) -> WasmCellType {
    match t {
        CellType::Ordinary => WasmCellType::Ordinary,
        CellType::PrunedBranch => WasmCellType::PrunedBranch,
        CellType::LibraryReference => WasmCellType::LibraryReference,
        CellType::MerkleProof => WasmCellType::MerkleProof,
        CellType::MerkleUpdate => WasmCellType::MerkleUpdate,
    }
}

/// The core kind of an interface cell kind.
pub open spec fn spec_to_core_type(t: WasmCellType) -> CellType {
    match t {
        WasmCellType::Ordinary => CellType::Ordinary,
        WasmCellType::PrunedBranch => CellType::PrunedBranch,
        WasmCellType::LibraryReference => CellType::LibraryReference,
        WasmCellType::MerkleProof => CellType::MerkleProof,
        WasmCellType::MerkleUpdate => CellType::MerkleUpdate,
    }
}

impl WasmCellType {
    /// Decodes a cell kind from its number; unknown numbers give `Ordinary`.
    pub fn from(byte: u8) -> (r: Self)
        ensures
            r == spec_wasm_cell_type(byte),
    {
        match byte {
            0 => WasmCellType::Ordinary,
            1 => WasmCellType::PrunedBranch,
            2 => WasmCellType::LibraryReference,
            3 => WasmCellType::MerkleProof,
            4 => WasmCellType::MerkleUpdate,
            _ => WasmCellType::Ordinary,
        }
    }

    /// The number of this cell kind.
    pub fn code(&self) -> (r: u8)
        ensures
            r == spec_wasm_cell_type_code(*self),
    {
        match self {
            WasmCellType::Ordinary => 0,
            WasmCellType::PrunedBranch => 1,
            WasmCellType::LibraryReference => 2,
            WasmCellType::MerkleProof => 3,
            WasmCellType::MerkleUpdate => 4,
        }
    }
}

/// Every kind's number decodes back to that kind.
pub proof fn lemma_cell_type_code_round_trip(t: WasmCellType)
    ensures
        spec_wasm_cell_type(spec_wasm_cell_type_code(t)) == t,
{
}

/// A cell as handed to and from the WebAssembly interface.
#[derive(Clone, Debug)]
pub struct WasmCell {
    pub cell_type: WasmCellType,
    pub data: Vec<u8>,
    pub hash: [u8; 32],
    pub depth: u8,
    pub is_pruned: bool,
}

impl WasmCell {
    /// A cell from its parts.
    pub fn new(cell_type: WasmCellType, data: Vec<u8>, hash: [u8; 32], depth: u8, is_pruned: bool) -> (r: Self)
        ensures
            r.cell_type == cell_type,
            r.data == data,
            r.hash == hash,
            r.depth == depth,
            r.is_pruned == is_pruned,
    {
        WasmCell { cell_type, data, hash, depth, is_pruned }
    }

    /// The cell's kind.
    pub fn get_cell_type(&self) -> (r: WasmCellType)
        ensures
            r == self.cell_type,
    {
        self.cell_type
    }

    /// The cell's bytes.
    pub fn get_data(&self) -> (r: &Vec<u8>)
        ensures
            *r == self.data,
    {
        &self.data
    }

    /// The cell's hash.
    pub fn get_hash(&self) -> (r: &[u8; 32])
        ensures
            *r == self.hash,
    {
        &self.hash
    }

    /// The cell's depth.
    pub fn get_depth(&self) -> (r: u8)
        ensures
            r == self.depth,
    {
        self.depth
    }

    /// Whether the cell is pruned.
    pub fn is_pruned(&self) -> (r: bool)
        ensures
            r == self.is_pruned,
    {
        self.is_pruned
    }
}

/// Maps a core cell kind to the interface kind of the same name.
pub fn to_wasm_type(t: CellType) -> (r: WasmCellType)
    ensures
        r == spec_to_wasm_type(t),
{
    match t {
        CellType::Ordinary => WasmCellType::Ordinary,
        CellType::PrunedBranch => WasmCellType::PrunedBranch,
        CellType::LibraryReference => WasmCellType::LibraryReference,
        CellType::MerkleProof => WasmCellType::MerkleProof,
        CellType::MerkleUpdate => WasmCellType::MerkleUpdate,
    }
}

/// Maps an interface cell kind to the core kind of the same name.
pub fn to_core_type(t: WasmCellType) -> (r: CellType)
    ensures
        r == spec_to_core_type(t),
{
    match t {
        WasmCellType::Ordinary => CellType::Ordinary,
        WasmCellType::PrunedBranch => CellType::PrunedBranch,
        WasmCellType::LibraryReference => CellType::LibraryReference,
        WasmCellType::MerkleProof => CellType::MerkleProof,
        WasmCellType::MerkleUpdate => CellType::MerkleUpdate,
    }
}

impl Cell {
    /// The core cell for an interface cell: same bytes, kind and hash, no
    /// references, depth 0.
    pub fn from_wasm_cell(wasm_cell: WasmCell) -> (r: Cell)
        ensures
            r.data == wasm_cell.data,
            r.references@.len() == 0,
            r.cell_type == spec_to_core_type(wasm_cell.cell_type),
            r.hash == wasm_cell.hash,
            r.depth == 0,
    {
        let cell_type = to_core_type(wasm_cell.cell_type);
        Cell::new(wasm_cell.data, Vec::new(), cell_type, wasm_cell.hash, None)
    }
}

impl From<WasmCell> for Cell {
    /// Same as `Cell::from_wasm_cell`, which states the result.
    fn from(wasm_cell: WasmCell) -> (r: Cell) {
        Cell::from_wasm_cell(wasm_cell)
    }
}

impl vstd::std_specs::convert::FromSpecImpl<WasmCell> for Cell {
    /// The result holds a fresh, empty reference list, which no spec
    /// expression can build; `Cell::from_wasm_cell` states the conversion.
    open spec fn obeys_from_spec() -> bool {
        false
    }

    open spec fn from_spec(v: WasmCell) -> Cell {
        arbitrary()
    }
}

/// The interface cell for a core cell: same bytes, hash and depth, the kind of
/// the same name, pruned exactly when it is a pruned branch.
pub open spec fn spec_wasm_cell_of(c: Cell) -> WasmCell {
    WasmCell {
        cell_type: spec_to_wasm_type(c.cell_type),
        data: c.data,
        hash: c.hash,
        depth: c.depth,
        is_pruned: c.cell_type == CellType::PrunedBranch,
    }
}

impl From<Cell> for WasmCell {
    fn from(cell_core: Cell) -> (r: WasmCell) {
        let cell_type = to_wasm_type(cell_core.cell_type);
        let is_pruned = cell_core.is_pruned();
        WasmCell {
            cell_type,
            data: cell_core.data,
            hash: cell_core.hash,
            depth: cell_core.depth,
            is_pruned,
        }
    }
}

impl vstd::std_specs::convert::FromSpecImpl<Cell> for WasmCell {
    open spec fn obeys_from_spec() -> bool {
        true
    }

    open spec fn from_spec(v: Cell) -> WasmCell {
        spec_wasm_cell_of(v)
    }
}

/// The bytes a cell contributes to a bag of cells: its data.
pub fn cell_to_boc(cell: &WasmCell) -> (r: Vec<u8>)
    ensures
        r@ == cell.data@,
{
    let cell_type = to_core_type(cell.cell_type);
    let core = Cell::new(cell.data.clone(), Vec::new(), cell_type, crate::boc::zero_bytes32(), None);
    core.data
}

/// Converting an interface cell to a core cell and back keeps its kind, bytes
/// and hash, gives depth 0, and marks it pruned exactly when it is a pruned branch.
pub proof fn lemma_wasm_round_trip(w: WasmCell, c: Cell)
    requires
        c.data == w.data,
        c.cell_type == spec_to_core_type(w.cell_type),
        c.hash == w.hash,
        c.depth == 0,
    ensures
        spec_wasm_cell_of(c).cell_type == w.cell_type,
        spec_wasm_cell_of(c).data == w.data,
        spec_wasm_cell_of(c).hash == w.hash,
        spec_wasm_cell_of(c).depth == 0,
        spec_wasm_cell_of(c).is_pruned == (w.cell_type == WasmCellType::PrunedBranch),
{
}

} // verus!
