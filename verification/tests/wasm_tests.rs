use overpass::boc::{Cell, CellType};
use overpass::wasm_types::{WasmCell, WasmCellType};

#[test]
fn test_cell_to_wasm_cell() {
    let cell = Cell::new(vec![1, 2, 3], vec![4, 5, 6], CellType::Ordinary, [0; 32], None);
    let wasm_cell = WasmCell::from(cell);
    assert_eq!(*wasm_cell.get_data(), vec![1, 2, 3]);
    assert_eq!(*wasm_cell.get_hash(), [0; 32]);
    assert_eq!(wasm_cell.get_depth(), 0);
    assert_eq!(wasm_cell.is_pruned(), false);
}

#[test]
fn test_wasm_cell_to_cell() {
    let wasm_cell = WasmCell::new(WasmCellType::Ordinary, vec![1, 2, 3], [0; 32], 0, false);
    let cell: Cell = wasm_cell.into();
    assert_eq!(*cell.get_data(), vec![1, 2, 3]);
    assert_eq!(*cell.get_hash(), [0; 32]);
    assert_eq!(cell.get_depth(), 0);
    assert_eq!(cell.is_pruned(), false);
}

#[test]
fn cell_type_codes_round_trip() {
    for code in 0u8..5 {
        assert_eq!(WasmCellType::from(code).code(), code);
    }
    assert_eq!(WasmCellType::from(9).code(), 0);
}

#[test]
fn pruned_branch_converts_to_pruned_cell() {
    let wasm_cell = WasmCell::new(WasmCellType::PrunedBranch, vec![7], [1; 32], 3, true);
    let cell: Cell = wasm_cell.into();
    assert!(cell.is_pruned());
    assert_eq!(cell.get_depth(), 0);
    let back = WasmCell::from(cell);
    assert!(back.is_pruned());
    assert_eq!(back.get_cell_type().code(), 1);
}
