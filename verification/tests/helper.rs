use fswatch::helper::{ensure_helper_on_disk, HelperSlot};
use std::cell::Cell;

#[test]
fn helper_is_put_on_disk_once() {
    let runs = Cell::new(0);
    let mut slot = HelperSlot::new();
    let first = ensure_helper_on_disk(&mut slot, || -> Result<String, String> {
        runs.set(runs.get() + 1);
        Ok("/tmp/fswatch/fs_watch".to_string())
    });
    assert_eq!(first, Ok("/tmp/fswatch/fs_watch".to_string()));
    let second = ensure_helper_on_disk(&mut slot, || -> Result<String, String> {
        runs.set(runs.get() + 1);
        Ok("/elsewhere".to_string())
    });
    assert_eq!(second, Ok("/tmp/fswatch/fs_watch".to_string()));
    let third = ensure_helper_on_disk(&mut slot, || -> Result<String, String> {
        runs.set(runs.get() + 1);
        Err("disk full".to_string())
    });
    assert_eq!(third, Ok("/tmp/fswatch/fs_watch".to_string()));
    assert_eq!(runs.get(), 1);
}

#[test]
fn failed_extraction_leaves_the_slot_empty() {
    let mut slot = HelperSlot::new();
    let first = ensure_helper_on_disk(&mut slot, || -> Result<String, String> {
        Err("disk full".to_string())
    });
    assert_eq!(first, Err("disk full".to_string()));
    let second = ensure_helper_on_disk(&mut slot, || -> Result<String, String> {
        Ok("/tmp/fswatch/fs_watch".to_string())
    });
    assert_eq!(second, Ok("/tmp/fswatch/fs_watch".to_string()));
}
