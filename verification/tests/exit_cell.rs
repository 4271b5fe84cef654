use containerd_shim_wasm::exit_cell::{ExitCell, ExitGuard};

#[test]
fn test_empty_cell_reads_nothing() {
    let cell = ExitCell::new();
    assert_eq!(cell.get(), None);
}

#[test]
fn test_first_set_wins() {
    let mut cell = ExitCell::new();
    assert!(cell.set(0, 100));
    assert!(!cell.set(137, 200));
    assert_eq!(cell.get(), Some((0, 100)));
    assert_eq!(cell.get(), Some((0, 100)));
}

#[test]
fn test_armed_guard_release_fires_fallback() {
    let mut cell = ExitCell::new();
    let guard = ExitGuard::new(137);
    guard.release(&mut cell);
    let (status, _at) = cell.get().expect("guard must have set the cell");
    assert_eq!(status, 137);
}

#[test]
fn test_guard_release_after_set_is_noop() {
    let mut cell = ExitCell::new();
    assert!(cell.set(0, 5));
    let guard = ExitGuard::new(137);
    guard.release(&mut cell);
    assert_eq!(cell.get(), Some((0, 5)));
}

#[test]
fn test_disarmed_guard_writes_nothing() {
    let mut cell = ExitCell::new();
    let mut guard = ExitGuard::new(137);
    guard.disarm();
    guard.release(&mut cell);
    assert_eq!(cell.get(), None);
}
