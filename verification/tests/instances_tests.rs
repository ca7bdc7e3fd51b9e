use listui::color::ColorRGBA;
use listui::geometry::{
    ComponentTransform, PixelRect, TextureSheet, TextureSheetClusterDefinition,
    TextureSheetDefinition, TransformKind, Vec2i, Vec2u, Vec3Bits,
};
use listui::instances::InstanceBufferManager;

fn screen_rect(x: i32, y: i32, w: u32, h: u32, ex: u32, ey: u32) -> ComponentTransform {
    ComponentTransform::unit_square_transform_from_pixel_rect(PixelRect {
        xy: Vec2i { x, y },
        wh: Vec2u { x: w, y: h },
        extent: Vec2u { x: ex, y: ey },
    })
}

#[test]
fn resize_rescales_pixel_instances_and_leaves_free_ones_bit_identical() {
    let mut m = InstanceBufferManager::new(8);
    let pixel_slot = m.add_instance(
        screen_rect(64, 48, 100, 20, 640, 480),
        ComponentTransform::default(),
        ColorRGBA::white(),
    );
    let mut free = ComponentTransform::default();
    free.location = Vec3Bits {
        x: 0.25f32.to_bits(),
        y: (-0.5f32).to_bits(),
        z: (-4.0f32).to_bits(),
    };
    let free_slot = m.add_instance(free, ComponentTransform::default(), ColorRGBA::magenta());

    // A resize only touches instances whose placement was marked stale.
    m.translate_pixels(pixel_slot, 0, 0);
    let free_staged_before = m.staged[free_slot];
    let updated = m.recalc_screen_instances(Vec2u { x: 800, y: 600 });

    assert_eq!(updated, vec![pixel_slot]);
    let restaged = m.staged[pixel_slot].transform.pixel_rect.unwrap();
    // The corner scales proportionally with the extent; the pixel size stays.
    assert_eq!((restaged.xy.x, restaged.xy.y), (64 * 800 / 640, 48 * 600 / 480));
    assert_eq!((restaged.wh.x, restaged.wh.y), (100, 20));
    assert_eq!((restaged.extent.x, restaged.extent.y), (800, 600));
    assert!(!m.data[pixel_slot].needs_update);
    assert_eq!(m.staged[free_slot], free_staged_before);
    assert_eq!(m.data[free_slot].transform, free);
}

#[test]
fn clean_instances_are_not_restaged_on_resize() {
    let mut m = InstanceBufferManager::new(4);
    let slot = m.add_instance(
        screen_rect(10, 10, 50, 50, 640, 480),
        ComponentTransform::default(),
        ColorRGBA::black(),
    );
    let staged_before = m.staged[slot];
    let updated = m.recalc_screen_instances(Vec2u { x: 800, y: 600 });
    assert!(updated.is_empty());
    assert_eq!(m.staged[slot], staged_before);
}

#[test]
fn translate_moves_the_rect_and_marks_it_stale() {
    let mut m = InstanceBufferManager::new(4);
    let slot = m.add_instance(
        screen_rect(10, 20, 50, 50, 640, 480),
        ComponentTransform::default(),
        ColorRGBA::black(),
    );
    m.translate_pixels(slot, 5, -3);
    let pr = m.data[slot].transform.pixel_rect.unwrap();
    assert_eq!((pr.xy.x, pr.xy.y), (15, 17));
    assert!(m.data[slot].needs_update);
}

#[test]
fn clear_forgets_instances_but_keeps_staged_slots() {
    let mut m = InstanceBufferManager::new(4);
    m.add_instance(
        screen_rect(0, 0, 10, 10, 640, 480),
        ComponentTransform::default(),
        ColorRGBA::white(),
    );
    let staged = m.staged[0];
    m.clear();
    assert_eq!(m.data.len(), 0);
    assert_eq!(m.staged.len(), 4);
    assert_eq!(m.staged[0], staged);
}

#[test]
fn add_instance_stages_its_record_at_the_returned_slot() {
    let mut m = InstanceBufferManager::new(4);
    let t = screen_rect(1, 2, 3, 4, 640, 480);
    let slot = m.add_instance(t, ComponentTransform::default(), ColorRGBA::grey_light());
    assert_eq!(slot, 0);
    assert_eq!(m.staged[0].transform, t);
    assert_eq!(m.staged[0].color, ColorRGBA::grey_light());
    assert!(!m.data[0].needs_update);
}

#[test]
fn cluster_cells_advance_left_to_right_then_top_to_bottom() {
    let sheet = TextureSheet {
        sheet_info: TextureSheetDefinition {
            path: String::new(),
            clusters: vec![TextureSheetClusterDefinition {
                label: String::new(),
                offset: Vec2u { x: 8, y: 16 },
                cluster_size: Vec2u { x: 64, y: 64 },
                sub_size: Vec2u { x: 30, y: 30 },
                spacing: Vec2u { x: 2, y: 2 },
            }],
        },
        dimensions: Vec2u { x: 256, y: 256 },
    };
    // 64 pixels across in steps of 32: two cells per row.
    let c0 = sheet.cluster_sub_transform(0, 0).pixel_rect.unwrap();
    assert_eq!((c0.xy.x, c0.xy.y), (8, 16));
    let c1 = sheet.cluster_sub_transform(0, 1).pixel_rect.unwrap();
    assert_eq!((c1.xy.x, c1.xy.y), (8 + 32, 16));
    let c2 = sheet.cluster_sub_transform(0, 2).pixel_rect.unwrap();
    assert_eq!((c2.xy.x, c2.xy.y), (8, 16 + 32));
    assert_eq!((c2.wh.x, c2.wh.y), (30, 30));
    assert_eq!((c2.extent.x, c2.extent.y), (256, 256));
    let t = sheet.cluster_sub_transform(0, 0);
    assert_eq!(t.kind, TransformKind::TexRect);
}
