use panel_rust::dirty::RowOp;
use panel_rust::list_model::{diff_by_id, reconcile};
use slint::{Model, VecModel};

fn strings(list: &[&str]) -> Vec<String> {
    list.iter().map(|s| s.to_string()).collect()
}

#[test]
fn reconciliation_preserves_model_identity_and_updates_rows() {
    let mut model = VecModel::from(vec!["a".to_owned(), "b".to_owned()]);
    let mut old_keys = vec!["a", "b"];
    let new_keys = vec!["b", "c"];
    let new_rows = vec!["B".to_owned(), "c".to_owned()];

    let ops = reconcile(&mut model, &mut old_keys, &new_keys, &new_rows);

    assert_eq!(ops.len(), 3);
    assert_eq!(old_keys, new_keys);
    assert_eq!(model.row_count(), 2);
    assert_eq!(model.row_data(0).as_deref(), Some("B"));
    assert_eq!(model.row_data(1).as_deref(), Some("c"));
}

#[test]
fn reconciliation_handles_cold_start_and_clear() {
    let mut model = VecModel::default();
    let mut old_keys: Vec<String> = Vec::new();
    let new_keys = vec!["a".to_owned(), "b".to_owned()];
    let new_rows = strings(&["1", "2"]);

    reconcile(&mut model, &mut old_keys, &new_keys, &new_rows);
    assert_eq!(model.row_count(), 2);

    let empty_keys: Vec<String> = Vec::new();
    let empty_rows: Vec<String> = Vec::new();
    reconcile(&mut model, &mut old_keys, &empty_keys, &empty_rows);
    assert_eq!(model.row_count(), 0);
    assert!(old_keys.is_empty());
}

#[test]
fn the_same_keys_need_no_change() {
    let keys = strings(&["a", "b", "c"]);
    let rows = strings(&["1", "2", "3"]);
    assert!(diff_by_id(&keys, &keys, &rows).is_empty());
}

#[test]
fn rows_and_keys_can_be_numbers() {
    let ops = diff_by_id(&[1u64, 2], &[2u64, 3], &[20i32, 30]);
    assert_eq!(ops.len(), 3);
    assert!(matches!(ops[0], RowOp::Move { from: 1, to: 0 }));
    assert!(matches!(ops[1], RowOp::Insert { at: 1, row: 30 }));
    assert!(matches!(ops[2], RowOp::Remove { at: 2 }));
}

#[test]
fn changes_lead_to_the_new_keys() {
    let old = strings(&["a", "b", "c", "d"]);
    let new = strings(&["d", "x", "a", "c"]);
    let mut keys = old.clone();
    for op in diff_by_id(&old, &new, &new) {
        match op {
            RowOp::Insert { at, row } => keys.insert(at, row),
            RowOp::Remove { at } => {
                keys.remove(at);
            },
            RowOp::Move { from, to } => {
                let key = keys.remove(from);
                keys.insert(to, key);
            },
        }
    }
    assert_eq!(keys, new);
}
