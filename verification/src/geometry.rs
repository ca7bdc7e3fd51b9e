use vstd::prelude::*;

verus! {

/// A pair of pixel coordinates (signed: positions may lie off-screen).
#[derive(Clone, Copy, Debug, PartialEq, Eq, Structural)]
pub struct Vec2i {
    pub x: i32,
    pub y: i32,
}

/// A pair of pixel sizes.
#[derive(Clone, Copy, Debug, PartialEq, Eq, Structural)]
pub struct Vec2u {
    pub x: u32,
    pub y: u32,
}

/// A screen- or texture-space rectangle in pixels: top-left corner,
/// width and height, and the extent of the surface it was placed
/// against, so the placement can be recomputed when that surface
/// changes size.
#[derive(Clone, Copy, Debug, PartialEq, Eq, Structural)]
pub struct PixelRect {
    pub xy: Vec2i,
    pub wh: Vec2u,
    pub extent: Vec2u,
}

/// An extent a rectangle can be placed against: both sides positive (a
/// placement divides by them) and within the signed pixel range.
pub open spec fn extent_wf(e: Vec2u) -> bool {
    0 < e.x <= i32::MAX && 0 < e.y <= i32::MAX
}

/// Bit pattern of 0.0f32.
pub const BITS_ZERO: u32 = 0x0000_0000;
/// Bit pattern of 1.0f32.
pub const BITS_ONE: u32 = 0x3f80_0000;

/// A free 3-D position as three single-precision bit patterns. The
/// widget logic only stores and compares these; arithmetic on them is
/// the renderer's business.
#[derive(Clone, Copy, Debug, PartialEq, Eq, Structural)]
pub struct Vec3Bits {
    pub x: u32,
    pub y: u32,
    pub z: u32,
}

impl Vec3Bits {
    pub open spec fn zero_spec() -> Vec3Bits {
        Vec3Bits { x: BITS_ZERO, y: BITS_ZERO, z: BITS_ZERO }
    }

    pub open spec fn one_spec() -> Vec3Bits {
        Vec3Bits { x: BITS_ONE, y: BITS_ONE, z: BITS_ONE }
    }

    pub fn zero() -> (v: Vec3Bits)
        ensures
            v == Vec3Bits::zero_spec(),
    {
        Vec3Bits { x: BITS_ZERO, y: BITS_ZERO, z: BITS_ZERO }
    }

    pub fn one() -> (v: Vec3Bits)
        ensures
            v == Vec3Bits::one_spec(),
    {
        Vec3Bits { x: BITS_ONE, y: BITS_ONE, z: BITS_ONE }
    }
}

/// A rotation as four single-precision bit patterns, stored opaquely.
#[derive(Clone, Copy, Debug, PartialEq, Eq, Structural)]
pub struct QuatBits {
    pub x: u32,
    pub y: u32,
    pub z: u32,
    pub w: u32,
}

impl QuatBits {
    pub open spec fn identity_spec() -> QuatBits {
        QuatBits { x: BITS_ZERO, y: BITS_ZERO, z: BITS_ZERO, w: BITS_ONE }
    }

    pub fn identity() -> (q: QuatBits)
        ensures
            q == QuatBits::identity_spec(),
    {
        QuatBits { x: BITS_ZERO, y: BITS_ZERO, z: BITS_ZERO, w: BITS_ONE }
    }
}

/// Which formula turns a transform into a placement matrix: a rectangle
/// mapped onto the screen, a rectangle mapped into texture space, or a
/// free placement given directly by its location, rotation and scale.
#[derive(Clone, Copy, Debug, PartialEq, Eq, Structural)]
pub enum TransformKind {
    ScreenRect,
    TexRect,
    Free,
}

/// The placement of one drawable component: either derived from a pixel
/// rectangle (screen- or texture-space) or a free 3-D placement. A
/// pixel-derived transform keeps its rectangle so the placement can be
/// recomputed against a new surface extent; a free transform keeps its
/// raw location, rotation and scale bit patterns untouched.
#[derive(Clone, Copy, Debug, PartialEq, Eq, Structural)]
pub struct ComponentTransform {
    pub kind: TransformKind,
    pub pixel_rect: Option<PixelRect>,
    pub location: Vec3Bits,
    pub rotation: QuatBits,
    pub scale: Vec3Bits,
}

/// The transform that places the unit square over `pr` on screen.
pub open spec fn screen_rect_transform(pr: PixelRect) -> ComponentTransform {
    ComponentTransform {
        kind: TransformKind::ScreenRect,
        pixel_rect: Some(pr),
        location: Vec3Bits::zero_spec(),
        rotation: QuatBits::identity_spec(),
        scale: Vec3Bits::one_spec(),
    }
}

/// The transform that selects `pr` within a texture sheet.
pub open spec fn tex_rect_transform(pr: PixelRect) -> ComponentTransform {
    ComponentTransform {
        kind: TransformKind::TexRect,
        pixel_rect: Some(pr),
        location: Vec3Bits::zero_spec(),
        rotation: QuatBits::identity_spec(),
        scale: Vec3Bits::one_spec(),
    }
}

impl ComponentTransform {
    /// Positions the unit square geometry over the given screen-space
    /// pixel rectangle.
    pub fn unit_square_transform_from_pixel_rect(pixel_rect: PixelRect) -> (t: ComponentTransform)
        ensures
            t == screen_rect_transform(pixel_rect),
    {
        ComponentTransform {
            kind: TransformKind::ScreenRect,
            pixel_rect: Some(pixel_rect),
            location: Vec3Bits::zero(),
            rotation: QuatBits::identity(),
            scale: Vec3Bits::one(),
        }
    }

    /// Selects the given pixel rectangle of a texture sheet.
    pub fn tex_transform_from_pixel_rect(pixel_rect: PixelRect) -> (t: ComponentTransform)
        ensures
            t == tex_rect_transform(pixel_rect),
    {
        ComponentTransform {
            kind: TransformKind::TexRect,
            pixel_rect: Some(pixel_rect),
            location: Vec3Bits::zero(),
            rotation: QuatBits::identity(),
            scale: Vec3Bits::one(),
        }
    }
}

/// The free identity placement: at the origin, unrotated, unit scale.
pub open spec fn free_identity_transform() -> ComponentTransform {
    ComponentTransform {
        kind: TransformKind::Free,
        pixel_rect: None,
        location: Vec3Bits::zero_spec(),
        rotation: QuatBits::identity_spec(),
        scale: Vec3Bits::one_spec(),
    }
}

impl Default for ComponentTransform {
    /// A free placement at the origin with no rotation and unit scale.
    fn default() -> (t: Self)
        ensures
            t == free_identity_transform(),
    {
        ComponentTransform {
            kind: TransformKind::Free,
            pixel_rect: None,
            location: Vec3Bits::zero(),
            rotation: QuatBits::identity(),
            scale: Vec3Bits::one(),
        }
    }
}

/// `x` forced into the signed 32-bit pixel range.
pub open spec fn clamp_i32(x: int) -> int {
    if x > i32::MAX {
        i32::MAX as int
    } else if x < i32::MIN {
        i32::MIN as int
    } else {
        x
    }
}

/// A coordinate placed against an extent of `from` pixels, re-placed
/// proportionally against an extent of `to` pixels: scaled by `to/from`,
/// rounded toward zero, clamped to the pixel range.
pub open spec fn scale_to_extent(v: int, from: int, to: int) -> int {
    if v >= 0 {
        clamp_i32((v * to) / from)
    } else {
        clamp_i32(-(((-v) * to) / from))
    }
}

/// A pixel rectangle re-placed against a new surface extent: its corner
/// scales proportionally, its pixel size stays.
pub open spec fn rescaled_rect(pr: PixelRect, screen: Vec2u) -> PixelRect {
    PixelRect {
        xy: Vec2i {
            x: scale_to_extent(pr.xy.x as int, pr.extent.x as int, screen.x as int) as i32,
            y: scale_to_extent(pr.xy.y as int, pr.extent.y as int, screen.y as int) as i32,
        },
        wh: pr.wh,
        extent: screen,
    }
}

/// Scales one coordinate proportionally from one extent to another,
/// rounding toward zero and clamping to the pixel range.
pub fn scale_coord(v: i32, from: u32, to: u32) -> (r: i32)
    requires
        from > 0,
        0 < to <= i32::MAX,
    ensures
        r as int == scale_to_extent(v as int, from as int, to as int),
{
    if v >= 0 {
        proof {
            assert((v as int) * (to as int) <= 0x7fff_ffff * 0x7fff_ffff) by (nonlinear_arith)
                requires
                    0 <= v <= 0x7fff_ffff,
                    0 < to <= 0x7fff_ffff,
            ;
        }
        let p: u64 = (v as u64) * (to as u64) / (from as u64);
        if p > 0x7fff_ffff {
            i32::MAX
        } else {
            p as i32
        }
    } else {
        let neg: u64 = (-(v as i64)) as u64;
        proof {
            assert((neg as int) * (to as int) <= 0x8000_0000 * 0x7fff_ffff) by (nonlinear_arith)
                requires
                    0 <= neg <= 0x8000_0000,
                    0 < to <= 0x7fff_ffff,
            ;
        }
        let m: u64 = neg * (to as u64) / (from as u64);
        if m > 0x8000_0000 {
            i32::MIN
        } else {
            (-(m as i64)) as i32
        }
    }
}

/// One rectangular grid of equally sized cells within a texture sheet.
pub struct TextureSheetClusterDefinition {
    pub label: String,
    pub offset: Vec2u,
    pub cluster_size: Vec2u,
    pub sub_size: Vec2u,
    pub spacing: Vec2u,
}

impl Default for TextureSheetClusterDefinition {
    /// A single-cell cluster at the origin.
    fn default() -> (c: Self)
        ensures
            c.label@ == Seq::<char>::empty(),
            c.offset == (Vec2u { x: 0, y: 0 }),
            c.cluster_size == (Vec2u { x: 1, y: 1 }),
            c.sub_size == (Vec2u { x: 1, y: 1 }),
            c.spacing == (Vec2u { x: 0, y: 0 }),
    {
        TextureSheetClusterDefinition {
            label: String::new(),
            offset: Vec2u { x: 0, y: 0 },
            cluster_size: Vec2u { x: 1, y: 1 },
            sub_size: Vec2u { x: 1, y: 1 },
            spacing: Vec2u { x: 0, y: 0 },
        }
    }
}

/// The layout of a texture sheet: the image path and its clusters.
pub struct TextureSheetDefinition {
    pub path: String,
    pub clusters: Vec<TextureSheetClusterDefinition>,
}

impl TextureSheetDefinition {
    /// A sheet with no image and one default cluster, for untextured
    /// geometry.
    pub fn none() -> (d: Self)
        ensures
            d.path@ == Seq::<char>::empty(),
            d.clusters@.len() == 1,
            d.clusters@[0].cluster_size == (Vec2u { x: 1, y: 1 }),
            d.clusters@[0].sub_size == (Vec2u { x: 1, y: 1 }),
            d.clusters@[0].spacing == (Vec2u { x: 0, y: 0 }),
            d.clusters@[0].offset == (Vec2u { x: 0, y: 0 }),
    {
        let mut clusters: Vec<TextureSheetClusterDefinition> = Vec::new();
        clusters.push(TextureSheetClusterDefinition::default());
        TextureSheetDefinition { path: String::new(), clusters }
    }
}

impl Default for TextureSheetDefinition {
    fn default() -> (d: Self)
        ensures
            d.path@ == Seq::<char>::empty(),
            d.clusters@.len() == 1,
    {
        TextureSheetDefinition::none()
    }
}

/// The number of cells in one row of a cluster: how many steps of
/// `sub_size.x + spacing.x` fit across `cluster_size.x`, rounded up.
pub open spec fn cluster_row_count(c: TextureSheetClusterDefinition) -> nat {
    let step = c.sub_size.x + c.spacing.x;
    ((c.cluster_size.x + step - 1) as nat) / (step as nat)
}

/// The x pixel offset of cell `i` of a cluster.
pub open spec fn cluster_cell_x(c: TextureSheetClusterDefinition, i: nat) -> int {
    c.offset.x + (i % cluster_row_count(c)) * (c.sub_size.x + c.spacing.x)
}

/// The y pixel offset of cell `i` of a cluster.
pub open spec fn cluster_cell_y(c: TextureSheetClusterDefinition, i: nat) -> int {
    c.offset.y + (i / cluster_row_count(c)) * (c.sub_size.y + c.spacing.y)
}

/// The CPU-side description of a texture sheet: its cluster layout and
/// pixel dimensions. The image data itself lives with the renderer.
pub struct TextureSheet {
    pub sheet_info: TextureSheetDefinition,
    pub dimensions: Vec2u,
}

impl TextureSheet {
    /// The texture-space transform of cell `sub_index` within cluster
    /// `cluster_index`: cells fill a row left to right, rows top to
    /// bottom. The cluster must be non-degenerate (cells advance by a
    /// positive step and the cluster is at least one cell wide) and the
    /// addressed cell must lie within the pixel range.
    pub fn cluster_sub_transform(&self, cluster_index: usize, sub_index: usize) -> (t:
        ComponentTransform)
        requires
            cluster_index < self.sheet_info.clusters@.len(),
            ({
                let c = self.sheet_info.clusters@[cluster_index as int];
                &&& c.sub_size.x + c.spacing.x > 0
                &&& c.cluster_size.x > 0
                &&& sub_index <= u32::MAX
                &&& cluster_cell_x(c, sub_index as nat) <= i32::MAX
                &&& cluster_cell_y(c, sub_index as nat) <= i32::MAX
            }),
        ensures
            ({
                let c = self.sheet_info.clusters@[cluster_index as int];
                t == tex_rect_transform(
                    PixelRect {
                        xy: Vec2i {
                            x: cluster_cell_x(c, sub_index as nat) as i32,
                            y: cluster_cell_y(c, sub_index as nat) as i32,
                        },
                        wh: c.sub_size,
                        extent: self.dimensions,
                    },
                )
            }),
    {
        let c = &self.sheet_info.clusters[cluster_index];
        let step_x: u64 = c.sub_size.x as u64 + c.spacing.x as u64;
        let rc: u64 = (c.cluster_size.x as u64 + step_x - 1) / step_x;
        proof {
            assert(rc == cluster_row_count(*c));
            assert(rc >= 1) by {
                assert((c.cluster_size.x as u64 + step_x - 1) as int / step_x as int >= 1) by (
                nonlinear_arith)
                    requires
                        step_x > 0,
                        c.cluster_size.x > 0,
                        c.cluster_size.x as u64 + step_x - 1 >= step_x,
                ;
            }
        }
        let row: u64 = sub_index as u64 / rc;
        let col: u64 = sub_index as u64 % rc;
        proof {
            vstd::arithmetic::div_mod::lemma_mod_bound(sub_index as int, rc as int);
            vstd::arithmetic::div_mod::lemma_div_is_ordered_by_denominator(
                sub_index as int,
                1,
                rc as int,
            );
            assert(col * step_x <= (rc - 1) * step_x) by (nonlinear_arith)
                requires
                    col <= rc - 1,
                    step_x > 0,
            ;
            assert((rc - 1) * step_x <= c.cluster_size.x as u64 + step_x - 1) by (nonlinear_arith)
                requires
                    rc == (c.cluster_size.x as u64 + step_x - 1) as int / step_x as int,
                    step_x > 0,
            ;
            assert(row * (c.sub_size.y as u64 + c.spacing.y as u64) <= sub_index as u64 * (
            c.sub_size.y as u64 + c.spacing.y as u64)) by (nonlinear_arith)
                requires
                    row <= sub_index as u64,
            ;
        }
        let x_offset: u64 = c.offset.x as u64 + col * step_x;
        let step_y: u64 = c.sub_size.y as u64 + c.spacing.y as u64;
        let y_offset: u128 = c.offset.y as u128 + (row as u128) * (step_y as u128);
        ComponentTransform::tex_transform_from_pixel_rect(
            PixelRect {
                xy: Vec2i { x: x_offset as i32, y: y_offset as i32 },
                wh: c.sub_size,
                extent: self.dimensions,
            },
        )
    }
}

} // verus!
