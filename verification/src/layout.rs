use vstd::prelude::*;

use crate::color::ColorRGBA;
use crate::geometry::{extent_wf, PixelRect, Vec2i, Vec2u};
use crate::store::ValueStore;
use crate::text::{TextLabel, TextView};
use crate::textfmt::{display_text, label_text, value_display_text};
use crate::widget::{ListAnchor, ListInterface};

verus! {

/// The assumed width of one list row, used for anchor placement and as
/// the text bounds.
pub const LIST_ROW_WIDTH: u32 = 220;

/// The fixed height of one list row.
pub const LIST_ROW_HEIGHT: u32 = 40;

/// The inset of a row's foreground rectangle on each side.
pub const LIST_PAD: u32 = 4;

/// One colored rectangle a layout pass emits.
#[derive(Clone, Copy, Debug, PartialEq, Eq, Structural)]
pub struct LayoutRect {
    pub rect: PixelRect,
    pub color: ColorRGBA,
}

/// Everything one layout pass produces: the text primitives and the
/// rectangles, the first rectangle being the backdrop and the rest the
/// per-row foregrounds, in row order.
pub struct LayoutOutput {
    pub texts: Vec<TextLabel>,
    pub rects: Vec<LayoutRect>,
}

/// The left pixel coordinate of a list under its anchor policy: at the
/// origin, centered by the assumed row width, or right-aligned by it. A
/// hidden list is never laid out; its coordinate is irrelevant.
pub open spec fn anchor_x(anchor: ListAnchor, extent_x: int) -> int {
    match anchor {
        ListAnchor::Left => 0,
        ListAnchor::Middle => extent_x / 2 - (LIST_ROW_WIDTH / 2) as int,
        ListAnchor::Right => extent_x - LIST_ROW_WIDTH as int,
        ListAnchor::Hidden => 0,
    }
}

/// The widest row among the first `n`: the measured label width plus
/// the measured value width, maximized over the rows.
pub open spec fn max_elem_width(lw: Seq<u32>, vw: Seq<u32>, n: int) -> int
    decreases n,
{
    if n <= 0 {
        0
    } else {
        let prev = max_elem_width(lw, vw, n - 1);
        let e = lw[n - 1] + vw[n - 1];
        if e > prev {
            e
        } else {
            prev
        }
    }
}

/// The width of a row's foreground rectangle: the content width inset
/// by the padding on both sides, floored at zero.
pub open spec fn fg_width(content_width: int) -> int {
    if content_width >= 2 * LIST_PAD {
        content_width - 2 * LIST_PAD
    } else {
        0
    }
}

/// Whether row `i` is drawn selected.
pub open spec fn row_selected(li: ListInterface, i: int) -> bool {
    li.selected_index == i
}

/// The text primitives of one layout pass over `li`: per row, in order,
/// a label text and a value text, colored by the row's selection state.
pub open spec fn spec_layout_texts(
    li: ListInterface,
    vals: Map<Seq<char>, crate::store::ListItemData>,
    extent: Vec2u,
    lw: Seq<u32>,
) -> Seq<TextView> {
    if li.anchor is Hidden {
        Seq::empty()
    } else {
        let tlx = anchor_x(li.anchor, extent.x as int);
        Seq::new(
            2 * li.entries@.len(),
            |k: int|
                {
                    let i = k / 2;
                    let item = li.entries@[i];
                    let color = if row_selected(li, i) {
                        li.style.li_selected
                    } else {
                        li.style.li_unselected
                    };
                    if k % 2 == 0 {
                        TextView {
                            left: tlx,
                            top: i * LIST_ROW_HEIGHT,
                            bounds: Vec2u { x: LIST_ROW_WIDTH, y: LIST_ROW_HEIGHT },
                            content: item.label@ + ": "@,
                            color,
                        }
                    } else {
                        TextView {
                            left: tlx + lw[i],
                            top: i * LIST_ROW_HEIGHT,
                            bounds: Vec2u { x: LIST_ROW_WIDTH, y: LIST_ROW_HEIGHT },
                            content: display_text(vals[item.value.key@]),
                            color,
                        }
                    }
                },
        )
    }
}

/// The rectangles of one layout pass over `li`: one backdrop sized to
/// the widest row by the rows' total height, then one inset foreground
/// per row, colored by the row's selection state.
pub open spec fn spec_layout_rects(
    li: ListInterface,
    extent: Vec2u,
    lw: Seq<u32>,
    vw: Seq<u32>,
) -> Seq<LayoutRect> {
    if li.anchor is Hidden {
        Seq::empty()
    } else {
        let n = li.entries@.len() as int;
        let tlx = anchor_x(li.anchor, extent.x as int);
        let fx = max_elem_width(lw, vw, n);
        Seq::new(
            (n + 1) as nat,
            |j: int|
                if j == 0 {
                    LayoutRect {
                        rect: PixelRect {
                            xy: Vec2i { x: tlx as i32, y: 0 },
                            wh: Vec2u { x: fx as u32, y: (n * LIST_ROW_HEIGHT) as u32 },
                            extent,
                        },
                        color: li.style.bg,
                    }
                } else {
                    let i = j - 1;
                    LayoutRect {
                        rect: PixelRect {
                            xy: Vec2i {
                                x: (tlx + LIST_PAD) as i32,
                                y: (i * LIST_ROW_HEIGHT + LIST_PAD) as i32,
                            },
                            wh: Vec2u {
                                x: fg_width(fx) as u32,
                                y: (LIST_ROW_HEIGHT - 2 * LIST_PAD) as u32,
                            },
                            extent,
                        },
                        color: if row_selected(li, i) {
                            li.style.li_selected_bg
                        } else {
                            li.style.li_unselected_bg
                        },
                    }
                },
        )
    }
}

/// The preconditions of a layout pass: a usable viewport, one measured
/// width per row for labels and for values, widths within the pixel
/// range, a row total that stays within the signed pixel range, and
/// every row's value binding resolvable — a dangling binding is the
/// caller's setup error, not a layout concern.
pub open spec fn layout_pre(
    li: ListInterface,
    store: ValueStore,
    extent: Vec2u,
    lw: Seq<u32>,
    vw: Seq<u32>,
) -> bool {
    &&& extent_wf(extent)
    &&& store.wf()
    &&& lw.len() == li.entries@.len()
    &&& vw.len() == li.entries@.len()
    &&& forall|i: int| 0 <= i < lw.len() ==> #[trigger] lw[i] + vw[i] <= u32::MAX
    &&& li.entries@.len() * LIST_ROW_HEIGHT + LIST_ROW_HEIGHT <= i32::MAX
    &&& forall|i: int|
        0 <= i < li.entries@.len() ==> store@.contains_key(#[trigger] li.entries@[i].value.key@)
}

/// One full layout pass: measurement-driven text placement, then the
/// backdrop, then the per-row foregrounds. The output is a pure
/// function of the widget state, the bound values and the measured
/// widths; nothing of any earlier pass survives into it.
pub fn compute_layout(
    li: &ListInterface,
    store: &ValueStore,
    extent: Vec2u,
    label_widths: &Vec<u32>,
    value_widths: &Vec<u32>,
) -> (out: LayoutOutput)
    requires
        layout_pre(*li, *store, extent, label_widths@, value_widths@),
    ensures
        out.texts@.map_values(|t: TextLabel| t@) == spec_layout_texts(
            *li,
            store@,
            extent,
            label_widths@,
        ),
        out.rects@ == spec_layout_rects(*li, extent, label_widths@, value_widths@),
{
    let mut texts: Vec<TextLabel> = Vec::new();
    let mut rects: Vec<LayoutRect> = Vec::new();
    if matches!(li.anchor, ListAnchor::Hidden) {
        proof {
            assert(texts@.map_values(|t: TextLabel| t@) =~= spec_layout_texts(
                *li,
                store@,
                extent,
                label_widths@,
            ));
            assert(rects@ =~= spec_layout_rects(*li, extent, label_widths@, value_widths@));
        }
        return LayoutOutput { texts, rects };
    }
    let n = li.entries.len();
    let tlx: i32 = match li.anchor {
        ListAnchor::Left => 0,
        ListAnchor::Middle => (extent.x / 2) as i32 - 110,
        ListAnchor::Right => extent.x as i32 - 220,
        ListAnchor::Hidden => 0,
    };
    proof {
        assert(tlx == anchor_x(li.anchor, extent.x as int));
    }
    let ghost spec_texts = spec_layout_texts(*li, store@, extent, label_widths@);
    let mut max_w: u32 = 0;
    for i in 0..n
        invariant
            n == li.entries@.len(),
            layout_pre(*li, *store, extent, label_widths@, value_widths@),
            !(li.anchor is Hidden),
            tlx == anchor_x(li.anchor, extent.x as int),
            spec_texts == spec_layout_texts(*li, store@, extent, label_widths@),
            texts@.len() == 2 * i,
            forall|k: int| 0 <= k < 2 * i ==> #[trigger] texts@[k]@ == spec_texts[k],
            max_w == max_elem_width(label_widths@, value_widths@, i as int),
    {
        let item = &li.entries[i];
        let selected = li.selected_index >= 0 && li.selected_index == i as i32;
        proof {
            assert(i * LIST_ROW_HEIGHT + LIST_ROW_HEIGHT <= n * LIST_ROW_HEIGHT
                + LIST_ROW_HEIGHT) by (nonlinear_arith)
                requires
                    0 <= i < n,
            ;
        }
        let color = if selected {
            li.style.li_selected
        } else {
            li.style.li_unselected
        };
        let lt = label_text(item.label.as_str());
        texts.push(
            TextLabel {
                left: tlx as i64,
                top: (i as i64) * (LIST_ROW_HEIGHT as i64),
                bounds: Vec2u { x: LIST_ROW_WIDTH, y: LIST_ROW_HEIGHT },
                content: lt,
                color,
            },
        );
        let loaded = match item.value.load(store) {
            Ok(v) => v,
            Err(_) => {
                proof {
                    assert(false);
                }
                return LayoutOutput { texts: Vec::new(), rects: Vec::new() };
            },
        };
        let vt = value_display_text(loaded);
        texts.push(
            TextLabel {
                left: tlx as i64 + label_widths[i] as i64,
                top: (i as i64) * (LIST_ROW_HEIGHT as i64),
                bounds: Vec2u { x: LIST_ROW_WIDTH, y: LIST_ROW_HEIGHT },
                content: vt,
                color,
            },
        );
        let ew: u32 = label_widths[i] + value_widths[i];
        if ew > max_w {
            max_w = ew;
        }
        proof {
            let k0 = 2 * i as int;
            assert(spec_texts.len() == 2 * n);
            assert(k0 / 2 == i as int && k0 % 2 == 0 && (k0 + 1) / 2 == i as int && (k0 + 1) % 2
                == 1) by (nonlinear_arith)
                requires
                    k0 == 2 * i as int,
            ;
            assert(row_selected(*li, i as int) == selected);
            assert(texts@[k0]@ == spec_texts[k0]);
            assert(texts@[k0 + 1]@ == spec_texts[k0 + 1]);
        }
    }
    proof {
        assert(texts@.map_values(|t: TextLabel| t@) =~= spec_texts);
    }
    let ghost spec_rects = spec_layout_rects(*li, extent, label_widths@, value_widths@);
    let bg_h: u32 = (n as u32) * LIST_ROW_HEIGHT;
    rects.push(
        LayoutRect {
            rect: PixelRect {
                xy: Vec2i { x: tlx, y: 0 },
                wh: Vec2u { x: max_w, y: bg_h },
                extent,
            },
            color: li.style.bg,
        },
    );
    proof {
        assert(rects@[0] == spec_rects[0]);
    }
    let fg_w: u32 = if max_w >= 2 * LIST_PAD {
        max_w - 2 * LIST_PAD
    } else {
        0
    };
    for i in 0..n
        invariant
            n == li.entries@.len(),
            layout_pre(*li, *store, extent, label_widths@, value_widths@),
            !(li.anchor is Hidden),
            tlx == anchor_x(li.anchor, extent.x as int),
            spec_rects == spec_layout_rects(*li, extent, label_widths@, value_widths@),
            max_w == max_elem_width(label_widths@, value_widths@, n as int),
            fg_w == fg_width(max_w as int),
            rects@.len() == i + 1,
            forall|j: int| 0 <= j < i + 1 ==> #[trigger] rects@[j] == spec_rects[j],
    {
        let selected = li.selected_index >= 0 && li.selected_index == i as i32;
        proof {
            assert(i * LIST_ROW_HEIGHT + LIST_ROW_HEIGHT <= n * LIST_ROW_HEIGHT
                + LIST_ROW_HEIGHT) by (nonlinear_arith)
                requires
                    0 <= i < n,
            ;
        }
        rects.push(
            LayoutRect {
                rect: PixelRect {
                    xy: Vec2i {
                        x: tlx + LIST_PAD as i32,
                        y: (i as i32) * (LIST_ROW_HEIGHT as i32) + LIST_PAD as i32,
                    },
                    wh: Vec2u { x: fg_w, y: LIST_ROW_HEIGHT - 2 * LIST_PAD },
                    extent,
                },
                color: if selected {
                    li.style.li_selected_bg
                } else {
                    li.style.li_unselected_bg
                },
            },
        );
        proof {
            assert(row_selected(*li, i as int) == selected);
            assert(rects@[i + 1] == spec_rects[i + 1]);
        }
    }
    proof {
        assert(rects@ =~= spec_rects);
    }
    LayoutOutput { texts, rects }
}

/// Laying out twice with no intervening state change produces identical
/// rectangles, colors and text content: the pass is a pure function of
/// the widget state, the bound values and the measured widths, and
/// keeps no state of its own between passes.
pub proof fn lemma_layout_pass_idempotent(
    li: ListInterface,
    vals: Map<Seq<char>, crate::store::ListItemData>,
    extent: Vec2u,
    lw: Seq<u32>,
    vw: Seq<u32>,
    texts1: Seq<TextView>,
    texts2: Seq<TextView>,
    rects1: Seq<LayoutRect>,
    rects2: Seq<LayoutRect>,
)
    requires
        texts1 == spec_layout_texts(li, vals, extent, lw),
        texts2 == spec_layout_texts(li, vals, extent, lw),
        rects1 == spec_layout_rects(li, extent, lw, vw),
        rects2 == spec_layout_rects(li, extent, lw, vw),
    ensures
        texts1 == texts2,
        rects1 == rects2,
{
}

} // verus!
