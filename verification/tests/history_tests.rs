use penny::history::{History, MAX_UNDO};

fn marks(h: &History<u32>) -> Vec<u32> {
    h.marks().iter().map(|m| **m).collect()
}

#[test]
fn commit_then_undo_restores_and_redo_reapplies() {
    let mut h: History<u32> = History::new();
    h.commit(1);
    h.commit(2);
    assert_eq!(marks(&h), vec![1, 2]);
    h.undo();
    assert_eq!(marks(&h), vec![1]);
    h.undo();
    assert_eq!(marks(&h), Vec::<u32>::new());
    h.redo();
    assert_eq!(marks(&h), vec![1]);
    h.redo();
    assert_eq!(marks(&h), vec![1, 2]);
}

#[test]
fn undo_and_redo_on_empty_stacks_do_nothing() {
    let mut h: History<u32> = History::new();
    h.undo();
    h.redo();
    assert!(h.marks().is_empty());
    h.commit(5);
    h.redo();
    assert_eq!(marks(&h), vec![5]);
}

#[test]
fn redo_after_undo_is_identity() {
    let mut h: History<u32> = History::new();
    h.commit(1);
    h.commit(2);
    h.commit(3);
    h.undo();
    h.undo();
    let before = marks(&h);
    h.undo();
    h.redo();
    assert_eq!(marks(&h), before);
    h.redo();
    h.undo();
    assert_eq!(marks(&h), before);
}

#[test]
fn new_commit_forgets_redo() {
    let mut h: History<u32> = History::new();
    h.commit(1);
    h.commit(2);
    h.undo();
    h.commit(3);
    h.redo();
    assert_eq!(marks(&h), vec![1, 3]);
    h.undo();
    assert_eq!(marks(&h), vec![1]);
}

#[test]
fn undo_depth_is_capped() {
    assert_eq!(MAX_UNDO, 100);
    let mut h: History<u32> = History::new();
    for i in 0..150u32 {
        h.commit(i);
    }
    for _ in 0..200 {
        h.undo();
    }
    // the oldest 50 snapshots were dropped
    assert_eq!(marks(&h), (0..50u32).collect::<Vec<_>>());
    for _ in 0..200 {
        h.redo();
    }
    assert_eq!(marks(&h), (0..150u32).collect::<Vec<_>>());
}

#[test]
fn clear_is_one_undo_step() {
    let mut h: History<u32> = History::new();
    h.commit(1);
    h.commit(2);
    h.clear();
    assert!(h.marks().is_empty());
    h.undo();
    assert_eq!(marks(&h), vec![1, 2]);
}

#[test]
fn clear_on_empty_canvas_records_nothing() {
    let mut h: History<u32> = History::new();
    h.commit(1);
    h.undo();
    h.clear();
    // redo still possible: the clear did not count as a change
    h.redo();
    assert_eq!(marks(&h), vec![1]);
}

#[test]
fn erase_removes_hit_marks_in_order() {
    let mut h: History<u32> = History::new();
    for i in 1..=5u32 {
        h.commit(i);
    }
    h.erase(&vec![false, true, false, true, false]);
    assert_eq!(marks(&h), vec![1, 3, 5]);
    h.undo();
    assert_eq!(marks(&h), vec![1, 2, 3, 4, 5]);
}

#[test]
fn erase_without_hit_records_nothing() {
    let mut h: History<u32> = History::new();
    h.commit(1);
    h.commit(2);
    h.undo();
    h.erase(&vec![false]);
    h.redo();
    assert_eq!(marks(&h), vec![1, 2]);
}

#[test]
fn prune_leaves_history_alone() {
    let mut h: History<u32> = History::new();
    h.commit(1);
    h.commit(2);
    h.commit(3);
    h.prune(&vec![true, true, false]);
    assert_eq!(marks(&h), vec![3]);
    h.undo();
    assert_eq!(marks(&h), vec![1, 2]);
}

#[test]
fn snapshot_drops_oldest_at_the_bound() {
    let mut h: History<u32> = History::new();
    for i in 0..=100u32 {
        h.commit(i);
    }
    // 101 commits: 100 snapshots kept, the empty canvas dropped
    for _ in 0..100 {
        h.undo();
    }
    assert_eq!(marks(&h), vec![0]);
    h.undo();
    assert_eq!(marks(&h), vec![0]);
}
