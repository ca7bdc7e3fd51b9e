use listui::store::{ListItemData, StoreError, ValueStore};
use listui::widget::{
    ListInterface, ListItemEditable, ListItemSelectable, ListItemType, OperatorResult,
};

fn list_with_entries(store: &mut ValueStore, n: usize) -> ListInterface {
    let mut li = ListInterface::default(0);
    for i in 0..n {
        let key = format!("k{}", i);
        let h = store.insert(&key, ListItemData::I32(i as i32));
        li.add_labeled_value(&key, h);
    }
    li
}

#[test]
fn navigate_down_wraps_through_three_entries() {
    let mut store = ValueStore::new();
    let mut li = list_with_entries(&mut store, 3);
    let mut seen = vec![li.selected_index];
    for _ in 0..4 {
        li.navigate_down();
        seen.push(li.selected_index);
    }
    assert_eq!(seen, vec![0, 1, 2, 0, 1]);
}

#[test]
fn navigate_down_n_times_returns_to_start() {
    let mut store = ValueStore::new();
    for n in 1..6usize {
        let mut li = list_with_entries(&mut store, n);
        li.selected_index = (n as i32) / 2;
        let start = li.selected_index;
        for _ in 0..n {
            li.navigate_down();
        }
        assert_eq!(li.selected_index, start, "cycle of length {}", n);
    }
}

#[test]
fn navigate_up_wraps_to_last() {
    let mut store = ValueStore::new();
    let mut li = list_with_entries(&mut store, 3);
    li.navigate_up();
    assert_eq!(li.selected_index, 2);
    li.navigate_up();
    assert_eq!(li.selected_index, 1);
}

#[test]
fn navigate_up_then_down_is_identity() {
    let mut store = ValueStore::new();
    for n in 1..5usize {
        for start in 0..n {
            let mut li = list_with_entries(&mut store, n);
            li.selected_index = start as i32;
            li.navigate_up();
            li.navigate_down();
            assert_eq!(li.selected_index, start as i32);
        }
    }
}

#[test]
fn empty_list_navigation_is_a_no_op() {
    let mut li = ListInterface::default(0);
    li.navigate_up();
    assert_eq!(li.selected_index, 0);
    li.navigate_down();
    assert_eq!(li.selected_index, 0);
    assert_eq!(li.entries.len(), 0);
}

#[test]
fn single_entry_navigation_reselects_it() {
    let mut store = ValueStore::new();
    let mut li = list_with_entries(&mut store, 1);
    li.navigate_down();
    assert_eq!(li.selected_index, 0);
    li.navigate_up();
    assert_eq!(li.selected_index, 0);
}

#[test]
fn activate_toggles_a_checkbox() {
    let mut store = ValueStore::new();
    let h = store.insert("opt", ListItemData::Bool(false));
    let mut li = ListInterface::default(0);
    li.add_entry(
        "opt",
        ListItemType::CheckBox,
        ListItemSelectable::Selectable,
        ListItemEditable::Editable,
        h.clone(),
    );
    assert_eq!(li.activate_selected(&mut store), Ok(OperatorResult::Done));
    assert_eq!(h.load(&store).unwrap(), &ListItemData::Bool(true));
    assert_eq!(li.activate_selected(&mut store), Ok(OperatorResult::Done));
    assert_eq!(h.load(&store).unwrap(), &ListItemData::Bool(false));
}

#[test]
fn activate_skips_a_mistyped_checkbox_binding() {
    let mut store = ValueStore::new();
    let h = store.insert("n", ListItemData::I32(3));
    let mut li = ListInterface::default(0);
    li.add_entry(
        "n",
        ListItemType::CheckBox,
        ListItemSelectable::Selectable,
        ListItemEditable::Editable,
        h.clone(),
    );
    assert_eq!(
        li.activate_selected(&mut store),
        Ok(OperatorResult::Irrelevant)
    );
    assert_eq!(h.load(&store).unwrap(), &ListItemData::I32(3));
}

#[test]
fn activate_surfaces_a_dangling_checkbox_binding() {
    let mut store = ValueStore::new();
    let dangling = store.get("never-inserted");
    let mut li = ListInterface::default(0);
    li.add_entry(
        "gone",
        ListItemType::CheckBox,
        ListItemSelectable::Selectable,
        ListItemEditable::Editable,
        dangling,
    );
    assert_eq!(
        li.activate_selected(&mut store),
        Err(StoreError::KeyNotFound)
    );
}

#[test]
fn activate_on_text_entry_is_irrelevant() {
    let mut store = ValueStore::new();
    let mut li = list_with_entries(&mut store, 2);
    assert_eq!(
        li.activate_selected(&mut store),
        Ok(OperatorResult::Irrelevant)
    );
}

#[test]
fn activate_and_cancel_on_empty_list_are_irrelevant() {
    let mut store = ValueStore::new();
    let li = ListInterface::default(0);
    assert_eq!(
        li.activate_selected(&mut store),
        Ok(OperatorResult::Irrelevant)
    );
    assert_eq!(li.cancel_selected(), OperatorResult::Irrelevant);
}

#[test]
fn cancel_on_a_selected_entry_is_cancelled() {
    let mut store = ValueStore::new();
    let li = list_with_entries(&mut store, 2);
    assert_eq!(li.cancel_selected(), OperatorResult::Cancelled);
}

#[test]
fn added_entries_keep_their_options() {
    let mut store = ValueStore::new();
    let h = store.insert("v", ListItemData::U32(1));
    let mut li = ListInterface::default(7);
    li.add_labeled_value("v", h);
    assert_eq!(li.entries.len(), 1);
    assert_eq!(li.entries[0].label, "v");
    assert!(matches!(li.entries[0].ty, ListItemType::Text));
    assert!(matches!(
        li.entries[0].selectable,
        ListItemSelectable::Selectable
    ));
    assert!(matches!(
        li.entries[0].editable,
        ListItemEditable::NotEditable
    ));
    assert_eq!(li.render_group_index, 7);
}
