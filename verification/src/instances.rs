use vstd::prelude::*;

use crate::color::{ColorRGBA, CHANNEL_1_00};
use crate::geometry::{
    extent_wf, rescaled_rect, screen_rect_transform, ComponentTransform, PixelRect, Vec2i, Vec2u,
};

verus! {

/// One drawable quad: its placement, its texture-space placement, its
/// color, and whether its placement must be recomputed and re-staged
/// before the next draw.
#[derive(Clone, Copy, Debug, PartialEq, Eq, Structural)]
pub struct Instance {
    pub needs_update: bool,
    pub transform: ComponentTransform,
    pub tex_transform: ComponentTransform,
    pub color: ColorRGBA,
}

/// One staged record of the GPU-side instance buffer, still in pixel
/// form: the renderer turns it into matrices when it uploads.
#[derive(Clone, Copy, Debug, PartialEq, Eq, Structural)]
pub struct InstanceData {
    pub transform: ComponentTransform,
    pub tex_transform: ComponentTransform,
    pub color: ColorRGBA,
}

impl Default for InstanceData {
    /// An identity placement in opaque white, the initial content of
    /// every buffer slot.
    fn default() -> (d: Self)
        ensures
            d == InstanceData::default_spec(),
    {
        InstanceData {
            transform: ComponentTransform::default(),
            tex_transform: ComponentTransform::default(),
            color: ColorRGBA::new(CHANNEL_1_00, CHANNEL_1_00, CHANNEL_1_00, CHANNEL_1_00),
        }
    }
}

impl InstanceData {
    pub open spec fn default_spec() -> InstanceData {
        InstanceData {
            transform: crate::geometry::free_identity_transform(),
            tex_transform: crate::geometry::free_identity_transform(),
            color: ColorRGBA { r: CHANNEL_1_00, g: CHANNEL_1_00, b: CHANNEL_1_00, a: CHANNEL_1_00 },
        }
    }
}

/// Whether an instance's placement must be recomputed on a resize: it
/// was marked stale and it is derived from a pixel rectangle. Freely
/// placed instances are never touched by a resize.
pub open spec fn needs_restage(inst: Instance) -> bool {
    inst.needs_update && inst.transform.pixel_rect is Some
}

/// The effect of one placement recomputation against a new surface
/// extent `screen`, relating the manager before (`pre`) and after
/// (`post`) and the slots reported as re-staged (`updated`): every
/// stale pixel-derived instance is re-staged with its corner scaled
/// proportionally and comes out clean, everything else is untouched,
/// and `updated` holds exactly the re-staged slots.
pub open spec fn recalc_post(
    pre: InstanceBufferManager,
    post: InstanceBufferManager,
    updated: Seq<usize>,
    screen: Vec2u,
) -> bool {
    &&& post.wf()
    &&& post.data@.len() == pre.data@.len()
    &&& post.staged@.len() == pre.staged@.len()
    &&& forall|i: int|
        0 <= i < pre.data@.len() && needs_restage(pre.data@[i]) ==> {
            &&& post.data@[i] == (Instance { needs_update: false, ..pre.data@[i] })
            &&& (pre.data@[i].transform.pixel_rect matches Some(pr) && post.staged@[i]
                == (InstanceData {
                transform: screen_rect_transform(rescaled_rect(pr, screen)),
                tex_transform: pre.data@[i].tex_transform,
                color: pre.data@[i].color,
            }))
        }
    &&& forall|i: int|
        0 <= i < pre.data@.len() && !needs_restage(pre.data@[i]) ==> post.data@[i]
            == pre.data@[i]
    &&& forall|i: int|
        0 <= i < pre.staged@.len() && !(0 <= i < pre.data@.len() && needs_restage(
            pre.data@[i],
        )) ==> post.staged@[i] == pre.staged@[i]
    &&& forall|i: int|
        0 <= i < pre.data@.len() ==> (needs_restage(pre.data@[i]) <==> updated.contains(
            i as usize,
        ))
    &&& forall|j: int| 0 <= j < updated.len() ==> updated[j] < pre.data@.len()
}

/// The local mirror of one render group's GPU instance buffer. `data`
/// holds the live instances, in draw order; `staged` mirrors, slot by
/// slot, what the renderer has been told to upload. The buffer has a
/// fixed capacity (`staged.len()`); `clear` forgets the live instances
/// without zeroing the staged slots, which the next draw simply does
/// not reference.
pub struct InstanceBufferManager {
    pub data: Vec<Instance>,
    pub staged: Vec<InstanceData>,
}

impl InstanceBufferManager {
    /// Live instances never outnumber the buffer slots, and every
    /// pixel-derived placement was made against a usable extent.
    pub open spec fn wf(&self) -> bool {
        &&& self.data@.len() <= self.staged@.len()
        &&& forall|i: int|
            0 <= i < self.data@.len() ==> (#[trigger] self.data@[i].transform.pixel_rect matches
            Some(pr) ==> extent_wf(pr.extent))
    }

    /// An empty manager with `max_instances` buffer slots, each staged
    /// with the default instance record.
    pub fn new(max_instances: usize) -> (m: Self)
        ensures
            m.wf(),
            m.data@.len() == 0,
            m.staged@.len() == max_instances,
            forall|i: int|
                0 <= i < max_instances ==> m.staged@[i] == InstanceData::default_spec(),
    {
        let mut staged: Vec<InstanceData> = Vec::new();
        for j in 0..max_instances
            invariant
                staged@.len() == j,
                forall|i: int| 0 <= i < j ==> staged@[i] == InstanceData::default_spec(),
        {
            staged.push(InstanceData::default());
        }
        InstanceBufferManager { data: Vec::new(), staged }
    }

    /// Appends one instance at the next free slot and stages its
    /// record there; returns the slot. The new instance is clean: what
    /// was staged is exactly what it shows.
    pub fn add_instance(
        &mut self,
        transform: ComponentTransform,
        tex_transform: ComponentTransform,
        color: ColorRGBA,
    ) -> (slot: usize)
        requires
            old(self).wf(),
            old(self).data@.len() < old(self).staged@.len(),
            transform.pixel_rect matches Some(pr) ==> extent_wf(pr.extent),
        ensures
            final(self).wf(),
            slot == old(self).data@.len(),
            final(self).data@ == old(self).data@.push(
                Instance { needs_update: false, transform, tex_transform, color },
            ),
            final(self).staged@ == old(self).staged@.update(
                slot as int,
                InstanceData { transform, tex_transform, color },
            ),
    {
        let slot = self.data.len();
        self.staged[slot] = InstanceData { transform, tex_transform, color };
        self.data.push(Instance { needs_update: false, transform, tex_transform, color });
        slot
    }

    /// Forgets all live instances. The staged slots keep their old
    /// content; the next draw's instance count simply does not reach
    /// them.
    pub fn clear(&mut self)
        requires
            old(self).wf(),
        ensures
            final(self).wf(),
            final(self).data@.len() == 0,
            final(self).staged@ == old(self).staged@,
    {
        self.data.clear();
    }

    /// Moves a pixel-derived instance by whole pixels and marks it
    /// stale, to be re-staged by the next recomputation.
    pub fn translate_pixels(&mut self, i: usize, dx: i32, dy: i32)
        requires
            old(self).wf(),
            i < old(self).data@.len(),
            old(self).data@[i as int].transform.pixel_rect matches Some(pr) && i32::MIN <= pr.xy.x
                + dx <= i32::MAX && i32::MIN <= pr.xy.y + dy <= i32::MAX,
        ensures
            final(self).wf(),
            final(self).staged@ == old(self).staged@,
            final(self).data@.len() == old(self).data@.len(),
            forall|j: int|
                0 <= j < old(self).data@.len() && j != i ==> final(self).data@[j] == old(
                    self,
                ).data@[j],
            old(self).data@[i as int].transform.pixel_rect matches Some(pr)
                && final(self).data@[i as int] == (Instance {
                needs_update: true,
                transform: ComponentTransform {
                    pixel_rect: Some(
                        PixelRect {
                            xy: Vec2i { x: (pr.xy.x + dx) as i32, y: (pr.xy.y + dy) as i32 },
                            ..pr
                        },
                    ),
                    ..old(self).data@[i as int].transform
                },
                ..old(self).data@[i as int]
            }),
    {
        let inst = self.data[i];
        let pr = match inst.transform.pixel_rect {
            Some(pr) => pr,
            None => {
                proof {
                    assert(false);
                }
                return ;
            },
        };
        let moved = PixelRect { xy: Vec2i { x: pr.xy.x + dx, y: pr.xy.y + dy }, ..pr };
        self.data[i] = Instance {
            needs_update: true,
            transform: ComponentTransform { pixel_rect: Some(moved), ..inst.transform },
            ..inst
        };
    }

    /// Re-stages every stale pixel-derived instance against the new
    /// surface extent: its corner scales proportionally, its pixel size
    /// stays, and its stale mark clears. Everything else — freely placed
    /// instances above all — is left bit for bit as it was. Returns the
    /// slots that were re-staged, in order, for the renderer to upload.
    pub fn recalc_screen_instances(&mut self, screen: Vec2u) -> (updated: Vec<usize>)
        requires
            old(self).wf(),
            extent_wf(screen),
        ensures
            recalc_post(*old(self), *final(self), updated@, screen),
    {
        let n = self.data.len();
        let mut updated: Vec<usize> = Vec::new();
        for i in 0..n
            invariant
                n == self.data@.len(),
                n == old(self).data@.len(),
                self.staged@.len() == old(self).staged@.len(),
                self.wf(),
                extent_wf(screen),
                forall|k: int| i <= k < n ==> self.data@[k] == old(self).data@[k],
                forall|k: int|
                    0 <= k < i && needs_restage(old(self).data@[k]) ==> {
                        &&& self.data@[k] == (Instance {
                            needs_update: false,
                            ..old(self).data@[k]
                        })
                        &&& (old(self).data@[k].transform.pixel_rect matches Some(pr)
                            && self.staged@[k] == (InstanceData {
                            transform: screen_rect_transform(rescaled_rect(pr, screen)),
                            tex_transform: old(self).data@[k].tex_transform,
                            color: old(self).data@[k].color,
                        }))
                    },
                forall|k: int|
                    0 <= k < i && !needs_restage(old(self).data@[k]) ==> self.data@[k] == old(
                        self,
                    ).data@[k],
                forall|k: int|
                    0 <= k < old(self).staged@.len() && !(0 <= k < i && needs_restage(
                        old(self).data@[k],
                    )) ==> self.staged@[k] == old(self).staged@[k],
                forall|k: int|
                    0 <= k < i ==> (needs_restage(old(self).data@[k]) <==> updated@.contains(
                        k as usize,
                    )),
                forall|j: int| 0 <= j < updated@.len() ==> updated@[j] < i,
        {
            let inst = self.data[i];
            if inst.needs_update && inst.transform.pixel_rect.is_some() {
                let pr = inst.transform.pixel_rect.unwrap();
                let scaled = PixelRect {
                    xy: Vec2i {
                        x: crate::geometry::scale_coord(pr.xy.x, pr.extent.x, screen.x),
                        y: crate::geometry::scale_coord(pr.xy.y, pr.extent.y, screen.y),
                    },
                    wh: pr.wh,
                    extent: screen,
                };
                self.staged[i] = InstanceData {
                    transform: ComponentTransform::unit_square_transform_from_pixel_rect(scaled),
                    tex_transform: inst.tex_transform,
                    color: inst.color,
                };
                self.data[i] = Instance { needs_update: false, ..inst };
                let ghost before = updated@;
                updated.push(i);
                proof {
                    assert(rescaled_rect(pr, screen) == scaled);
                    assert forall|k: int| 0 <= k < i + 1 implies (needs_restage(
                        old(self).data@[k],
                    ) <==> updated@.contains(k as usize)) by {
                        vstd::seq_lib::lemma_seq_contains_after_push(before, i, k as usize);
                    }
                }
            } else {
                proof {
                    if updated@.contains(i as usize) {
                        let j = choose|j: int|
                            0 <= j < updated@.len() && updated@[j] == i as usize;
                        assert(updated@[j] < i);
                        assert(false);
                    }
                }
            }
        }
        updated
    }
}

} // verus!
