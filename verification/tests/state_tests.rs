use listui::color::ColorRGBA;
use listui::state::{FileWatcher, FileWatcherAction, FlowCommand, InputEvent, State};
use listui::store::{ListItemData, ValueStore};
use listui::widget::ListAnchor;

fn demo_state(store: &mut ValueStore, entries: usize) -> State {
    let mut state = State::new(640, 480, "demo");
    let idx = state.new_listui();
    for i in 0..entries {
        let key = format!("k{}", i);
        let h = store.insert(&key, ListItemData::I32(i as i32));
        state.listuis[idx].add_labeled_value(&key, h);
    }
    state
}

#[test]
fn four_downs_with_cooldown_elapsed_cycle_through_three_entries() {
    let mut store = ValueStore::new();
    let mut state = demo_state(&mut store, 3);
    let mut seen = vec![state.listuis[0].selected_index];
    let mut now: u64 = 1_000;
    for _ in 0..4 {
        state.handle_event(InputEvent::Down, now);
        seen.push(state.listuis[0].selected_index);
        now += 100;
    }
    assert_eq!(seen, vec![0, 1, 2, 0, 1]);
}

#[test]
fn navigation_within_the_cooldown_interval_is_ignored() {
    let mut store = ValueStore::new();
    let mut state = demo_state(&mut store, 3);
    state.handle_event(InputEvent::Down, 1_000);
    assert_eq!(state.listuis[0].selected_index, 1);
    // 59 ms later: still inside the 60 ms cooldown.
    state.handle_event(InputEvent::Down, 1_059);
    assert_eq!(state.listuis[0].selected_index, 1);
    // exactly at the end of the interval: accepted again.
    state.handle_event(InputEvent::Down, 1_060);
    assert_eq!(state.listuis[0].selected_index, 2);
}

#[test]
fn first_navigation_is_always_accepted() {
    let mut store = ValueStore::new();
    let mut state = demo_state(&mut store, 2);
    assert_eq!(state.last_ui_time_ms, None);
    state.handle_event(InputEvent::Up, 5);
    assert_eq!(state.listuis[0].selected_index, 1);
    assert_eq!(state.last_ui_time_ms, Some(5));
}

#[test]
fn quit_event_sets_the_flow_command() {
    let mut store = ValueStore::new();
    let mut state = demo_state(&mut store, 1);
    assert_eq!(state.flow_command, FlowCommand::Idle);
    state.handle_event(InputEvent::Quit, 0);
    assert_eq!(state.flow_command, FlowCommand::Quit);
}

#[test]
fn resize_updates_viewport_and_lists_visible_widgets() {
    let mut store = ValueStore::new();
    let mut state = demo_state(&mut store, 1);
    let second = state.new_listui();
    state.listuis[second].anchor = ListAnchor::Hidden;
    let relayout = state.handle_event(InputEvent::Resize(800, 600), 0);
    assert_eq!((state.viewport.x, state.viewport.y), (800, 600));
    assert_eq!(relayout, vec![0]);
}

#[test]
fn layout_listui_fills_texts_and_render_group() {
    let mut store = ValueStore::new();
    let mut state = State::new(640, 480, "demo");
    let idx = state.new_listui();
    let time = store.insert("time", ListItemData::F64Bits(0.0f64.to_bits()));
    state.listuis[idx].add_labeled_value("time", time);
    state.layout_listui(&store, idx, &vec![50], &vec![30]);

    assert_eq!(state.texts.texts.len(), 2);
    assert_eq!(state.texts.texts[0].content, "time: ");
    assert_eq!(state.texts.texts[1].content, "0.00");
    let rg = state.listuis[idx].render_group_index;
    assert_eq!(state.groups[rg].data.len(), 2);
    assert_eq!(state.groups[rg].data[0].color, ColorRGBA::grey_darkest());
    let bg = state.groups[rg].data[0].transform.pixel_rect.unwrap();
    assert_eq!((bg.wh.x, bg.wh.y), (80, 40));
    let fg = state.groups[rg].data[1].transform.pixel_rect.unwrap();
    assert_eq!((fg.xy.x, fg.xy.y), (4, 4));
}

#[test]
fn relayout_after_state_change_rebuilds_from_scratch() {
    let mut store = ValueStore::new();
    let mut state = State::new(640, 480, "demo");
    let idx = state.new_listui();
    let time = store.insert("time", ListItemData::F64Bits(0.0f64.to_bits()));
    state.listuis[idx].add_labeled_value("time", time.clone());
    state.layout_listui(&store, idx, &vec![50], &vec![30]);
    time.replace(ListItemData::F64Bits(1.5f64.to_bits()), &mut store)
        .unwrap();
    state.layout_listui(&store, idx, &vec![50], &vec![30]);
    assert_eq!(state.texts.texts.len(), 2);
    assert_eq!(state.texts.texts[1].content, "1.50");
    let rg = state.listuis[idx].render_group_index;
    assert_eq!(state.groups[rg].data.len(), 2);
}

#[test]
fn update_recalculates_stale_instances_in_every_group() {
    let mut store = ValueStore::new();
    let mut state = State::new(640, 480, "demo");
    let idx = state.new_listui();
    let h = store.insert("x", ListItemData::I32(0));
    state.listuis[idx].add_labeled_value("x", h);
    state.layout_listui(&store, idx, &vec![10], &vec![10]);
    let rg = state.listuis[idx].render_group_index;
    state.groups[rg].translate_pixels(0, 1, 1);
    state.resize(800, 600);
    let updated = state.update();
    assert_eq!(updated.len(), state.groups.len());
    assert_eq!(updated[rg], vec![0]);
    let restaged = state.groups[rg].staged[0].transform.pixel_rect.unwrap();
    assert_eq!((restaged.extent.x, restaged.extent.y), (800, 600));
}

#[test]
fn file_watcher_reports_only_newer_files() {
    let mut w = FileWatcher::new();
    w.add_path("shader.wgsl", 1_000);
    assert_eq!(w.len(), 1);
    assert_eq!(w.path_at(0), "shader.wgsl");
    assert_eq!(w.stale_action(0, 1_000), None);
    assert_eq!(w.stale_action(0, 999), None);
    assert_eq!(w.stale_action(0, 1_001), Some(FileWatcherAction::ReloadShader));
}

#[test]
fn new_state_starts_idle_with_given_viewport() {
    let state = State::new(640, 480, "SDL2/wgpu");
    assert_eq!(state.flow_command, FlowCommand::Idle);
    assert_eq!((state.viewport.x, state.viewport.y), (640, 480));
    assert_eq!(state.ui_wait_ms, 60);
    assert_eq!(state.title.as_deref(), Some("SDL2/wgpu"));
    assert!(state.listuis.is_empty());
}
