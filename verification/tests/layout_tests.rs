use listui::color::ColorRGBA;
use listui::geometry::Vec2u;
use listui::layout::{compute_layout, LayoutOutput};
use listui::store::{ListItemData, ValueStore};
use listui::widget::{ListAnchor, ListInterface};

fn outputs_equal(a: &LayoutOutput, b: &LayoutOutput) -> bool {
    a.rects == b.rects
        && a.texts.len() == b.texts.len()
        && a.texts.iter().zip(b.texts.iter()).all(|(x, y)| {
            x.left == y.left
                && x.top == y.top
                && x.bounds == y.bounds
                && x.content == y.content
                && x.color == y.color
        })
}

#[test]
fn one_bound_time_entry_lays_out_two_texts_and_two_rects() {
    let mut store = ValueStore::new();
    let time = store.insert("time", ListItemData::F64Bits(0.0f64.to_bits()));
    let mut li = ListInterface::default(0);
    li.add_labeled_value("time", time);
    let extent = Vec2u { x: 640, y: 480 };
    let label_widths = vec![50u32];
    let value_widths = vec![30u32];
    let out = compute_layout(&li, &store, extent, &label_widths, &value_widths);

    assert_eq!(out.texts.len(), 2);
    assert_eq!(out.texts[0].content, "time: ");
    assert_eq!(out.texts[1].content, "0.00");
    assert_eq!(out.texts[0].left, 0);
    assert_eq!(out.texts[1].left, 50);
    assert_eq!(out.texts[0].top, 0);

    assert_eq!(out.rects.len(), 2);
    let bg = &out.rects[0];
    assert_eq!((bg.rect.xy.x, bg.rect.xy.y), (0, 0));
    assert_eq!((bg.rect.wh.x, bg.rect.wh.y), (80, 40));
    assert_eq!(bg.color, ColorRGBA::grey_darkest());
    let fg = &out.rects[1];
    assert_eq!((fg.rect.xy.x, fg.rect.xy.y), (4, 4));
    assert_eq!((fg.rect.wh.x, fg.rect.wh.y), (72, 32));

    // The only entry's index equals `selected_index == 0`, so the single
    // row counts as selected and gets the selected background pair, as
    // do the two texts with the selected foreground color.
    assert_eq!(fg.color, ColorRGBA::grey_medium());
    assert_eq!(out.texts[0].color, ColorRGBA::white());
    assert_eq!(out.texts[1].color, ColorRGBA::white());
}

#[test]
fn layout_pass_is_idempotent() {
    let mut store = ValueStore::new();
    let a = store.insert("alpha", ListItemData::I64(12));
    let b = store.insert("beta", ListItemData::Text("hello".to_string()));
    let mut li = ListInterface::default(0);
    li.add_labeled_value("alpha", a);
    li.add_labeled_value("beta", b);
    li.selected_index = 1;
    let extent = Vec2u { x: 800, y: 600 };
    let lw = vec![40u32, 44];
    let vw = vec![20u32, 36];
    let first = compute_layout(&li, &store, extent, &lw, &vw);
    let second = compute_layout(&li, &store, extent, &lw, &vw);
    assert!(outputs_equal(&first, &second));
}

#[test]
fn unselected_rows_get_the_unselected_pair() {
    let mut store = ValueStore::new();
    let a = store.insert("a", ListItemData::I32(1));
    let b = store.insert("b", ListItemData::I32(2));
    let mut li = ListInterface::default(0);
    li.add_labeled_value("a", a);
    li.add_labeled_value("b", b);
    let out = compute_layout(
        &li,
        &store,
        Vec2u { x: 640, y: 480 },
        &vec![10, 10],
        &vec![10, 10],
    );
    assert_eq!(out.rects[1].color, ColorRGBA::grey_medium());
    assert_eq!(out.rects[2].color, ColorRGBA::grey_dark());
    assert_eq!(out.texts[0].color, ColorRGBA::white());
    assert_eq!(out.texts[2].color, ColorRGBA::grey_light());
    assert_eq!(out.texts[2].top, 40);
    assert_eq!(out.rects[2].rect.xy.y, 44);
}

#[test]
fn middle_and_right_anchors_shift_the_list() {
    let mut store = ValueStore::new();
    let a = store.insert("a", ListItemData::I32(1));
    let mut li = ListInterface::default(0);
    li.add_labeled_value("a", a);
    let extent = Vec2u { x: 640, y: 480 };
    li.anchor = ListAnchor::Middle;
    let mid = compute_layout(&li, &store, extent, &vec![10], &vec![10]);
    assert_eq!(mid.rects[0].rect.xy.x, 640 / 2 - 110);
    li.anchor = ListAnchor::Right;
    let right = compute_layout(&li, &store, extent, &vec![10], &vec![10]);
    assert_eq!(right.rects[0].rect.xy.x, 640 - 220);
}

#[test]
fn hidden_anchor_emits_nothing() {
    let mut store = ValueStore::new();
    let a = store.insert("a", ListItemData::I32(1));
    let mut li = ListInterface::default(0);
    li.add_labeled_value("a", a);
    li.anchor = ListAnchor::Hidden;
    let out = compute_layout(
        &li,
        &store,
        Vec2u { x: 640, y: 480 },
        &vec![10],
        &vec![10],
    );
    assert_eq!(out.texts.len(), 0);
    assert_eq!(out.rects.len(), 0);
}

#[test]
fn backdrop_width_is_the_widest_row() {
    let mut store = ValueStore::new();
    let a = store.insert("a", ListItemData::I32(1));
    let b = store.insert("b", ListItemData::I32(2));
    let mut li = ListInterface::default(0);
    li.add_labeled_value("a", a);
    li.add_labeled_value("b", b);
    let out = compute_layout(
        &li,
        &store,
        Vec2u { x: 640, y: 480 },
        &vec![30, 90],
        &vec![25, 5],
    );
    assert_eq!(out.rects[0].rect.wh.x, 95);
    assert_eq!(out.rects[0].rect.wh.y, 80);
}
