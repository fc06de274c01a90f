pub mod cache;

use vstd::prelude::*;

verus! {

use crate::pipeline::cache::Cache;
use crate::pipeline::cache::TexturePatch;
use crate::region::Region;

/// Magnitude bound on every coordinate handed to the instance builder.
/// Products of two coordinate spans then stay well inside `i64`.
pub const COORD_LIMIT: i64 = 0x4000_0000;

/// An axis-aligned rectangle, `min` corner to `max` corner, in integer
/// coordinates. Pixel rectangles and bounds use target pixels; atlas
/// rectangles use whatever fixed-point texture unit the caller chose, the
/// clipping arithmetic being scale-free.
#[derive(Debug, Clone, Copy, PartialEq, Eq, Structural)]
pub struct Rect {
    pub min_x: i64,
    pub min_y: i64,
    pub max_x: i64,
    pub max_y: i64,
}

impl Rect {
    /// All four coordinates lie within the builder's coordinate bound.
    pub open spec fn in_range(self) -> bool {
        &&& -COORD_LIMIT <= self.min_x <= COORD_LIMIT
        &&& -COORD_LIMIT <= self.min_y <= COORD_LIMIT
        &&& -COORD_LIMIT <= self.max_x <= COORD_LIMIT
        &&& -COORD_LIMIT <= self.max_y <= COORD_LIMIT
    }

    /// Non-empty in both axes.
    pub open spec fn is_proper(self) -> bool {
        self.min_x < self.max_x && self.min_y < self.max_y
    }

    /// `min` at or before `max` in both axes.
    pub open spec fn is_ordered(self) -> bool {
        self.min_x <= self.max_x && self.min_y <= self.max_y
    }
}

/// One glyph quad, ready for instanced drawing: a clipped target-space
/// rectangle, the matching atlas sub-rectangle, a depth value and a color.
/// Depth and color are carried as the bit patterns of the caller's 32-bit
/// float values; this logic only passes them through, so no precision is
/// lost.
#[derive(Debug, Clone, Copy, PartialEq, Eq)]
pub struct Instance {
    pub left_top_x: i64,
    pub left_top_y: i64,
    pub right_bottom_x: i64,
    pub right_bottom_y: i64,
    pub tex_left_top_x: i64,
    pub tex_left_top_y: i64,
    pub tex_right_bottom_x: i64,
    pub tex_right_bottom_y: i64,
    pub z: u32,
    pub color: [u32; 4],
}

/// `span` rescaled from an axis extent of `old_extent` down to `new_extent`,
/// rounding the magnitude toward zero. This is the texture-edge adjustment
/// that keeps texel-per-pixel density constant when a quad edge is clamped.
pub open spec fn spec_scaled(span: int, new_extent: int, old_extent: int) -> int {
    if new_extent >= 0 {
        (span * new_extent) / old_extent
    } else {
        -((span * (-new_extent)) / old_extent)
    }
}

/// One axis of the bounds-clipping step: first the `max` side is clamped to
/// the bound and the matching texture edge is rescaled in proportion to the
/// extent that survives, then the same is done for the `min` side against
/// the extent left by the first step. Returns
/// `(g_min, g_max, t_min, t_max)`, the clipped quad extent and texture
/// extent on this axis.
pub open spec fn spec_clip_axis(
    gmin: int,
    gmax: int,
    bmin: int,
    bmax: int,
    tmin: int,
    tmax: int,
) -> (int, int, int, int) {
    let gmax1 = if gmax > bmax {
        bmax
    } else {
        gmax
    };
    let tmax1 = if gmax > bmax {
        tmin + spec_scaled(tmax - tmin, bmax - gmin, gmax - gmin)
    } else {
        tmax
    };
    let gmin1 = if gmin < bmin {
        bmin
    } else {
        gmin
    };
    let tmin1 = if gmin < bmin {
        tmax1 - spec_scaled(tmax1 - tmin, gmax1 - bmin, gmax1 - gmin)
    } else {
        tmin
    };
    (gmin1, gmax1, tmin1, tmax1)
}

/// On an axis where the pixel extent and the bounds overlap, clipping
/// returns exactly their intersection, and each clipped texture edge sits at
/// the position proportional to the surviving pixel extent, short of it by
/// no more than the rounding remainder of one division (one texture unit per
/// pre-clip pixel extent). The `max` side is measured against the unclipped
/// extents; the `min` side, clipped second, against the extents the first
/// step left.
pub proof fn lemma_clip_axis_round_trip(
    gmin: int,
    gmax: int,
    bmin: int,
    bmax: int,
    tmin: int,
    tmax: int,
)
    requires
        -COORD_LIMIT <= gmin <= COORD_LIMIT,
        -COORD_LIMIT <= gmax <= COORD_LIMIT,
        -COORD_LIMIT <= bmin <= COORD_LIMIT,
        -COORD_LIMIT <= bmax <= COORD_LIMIT,
        gmin < gmax,
        bmin <= bmax,
        tmin <= tmax,
        (if gmin < bmin {
            bmin
        } else {
            gmin
        }) < (if gmax > bmax {
            bmax
        } else {
            gmax
        }),
    ensures
        ({
            let (gmin1, gmax1, tmin1, tmax1) = spec_clip_axis(gmin, gmax, bmin, bmax, tmin, tmax);
            &&& gmin1 == (if gmin < bmin {
                bmin
            } else {
                gmin
            })
            &&& gmax1 == (if gmax > bmax {
                bmax
            } else {
                gmax
            })
            &&& tmin <= tmin1 <= tmax1 <= tmax
            &&& 0 <= (tmax - tmin) * (gmax1 - gmin) - (tmax1 - tmin) * (gmax - gmin) < gmax - gmin
            &&& 0 <= (tmax1 - tmin) * (gmax1 - gmin1) - (tmax1 - tmin1) * (gmax1 - gmin) < gmax1
                - gmin
        }),
{
    let (gmin1, gmax1, tmin1, tmax1) = spec_clip_axis(gmin, gmax, bmin, bmax, tmin, tmax);
    let s1 = tmax - tmin;
    let d1 = gmax - gmin;
    let n1 = gmax1 - gmin;
    assert(0 < n1 <= d1);
    if gmax > bmax {
        let q = (s1 * n1) / d1;
        vstd::arithmetic::mul::lemma_mul_nonnegative(s1, n1);
        vstd::arithmetic::div_mod::lemma_fundamental_div_mod(s1 * n1, d1);
        vstd::arithmetic::mul::lemma_mul_is_commutative(d1, q);
        assert(tmax1 - tmin == q);
        assert(s1 * n1 - q * d1 == (s1 * n1) % d1);
        vstd::arithmetic::div_mod::lemma_mod_bound(s1 * n1, d1);
        vstd::arithmetic::div_mod::lemma_div_pos_is_pos(s1 * n1, d1);
        assert(q <= s1) by {
            if s1 > 0 {
                vstd::arithmetic::mul::lemma_mul_left_inequality(s1, n1, d1);
                vstd::arithmetic::div_mod::lemma_div_is_ordered(s1 * n1, s1 * d1, d1);
                vstd::arithmetic::mul::lemma_mul_is_commutative(s1, d1);
                vstd::arithmetic::div_mod::lemma_div_by_multiple(s1, d1);
            } else {
                vstd::arithmetic::mul::lemma_mul_by_zero_is_zero(n1);
                assert(s1 * n1 == 0);
                vstd::arithmetic::div_mod::lemma_div_basics(d1);
            }
        };
    } else {
        assert(s1 * n1 - s1 * d1 == 0) by {
            assert(n1 == d1);
        };
    }
    let s2 = tmax1 - tmin;
    let d2 = gmax1 - gmin;
    let n2 = gmax1 - gmin1;
    assert(0 <= s2 <= s1);
    assert(0 < n2 <= d2);
    if gmin < bmin {
        let q2 = (s2 * n2) / d2;
        vstd::arithmetic::mul::lemma_mul_nonnegative(s2, n2);
        vstd::arithmetic::div_mod::lemma_fundamental_div_mod(s2 * n2, d2);
        vstd::arithmetic::mul::lemma_mul_is_commutative(d2, q2);
        assert(tmax1 - tmin1 == q2);
        assert(s2 * n2 - q2 * d2 == (s2 * n2) % d2);
        vstd::arithmetic::div_mod::lemma_mod_bound(s2 * n2, d2);
        vstd::arithmetic::div_mod::lemma_div_pos_is_pos(s2 * n2, d2);
        assert(q2 <= s2) by {
            if s2 > 0 {
                vstd::arithmetic::mul::lemma_mul_left_inequality(s2, n2, d2);
                vstd::arithmetic::div_mod::lemma_div_is_ordered(s2 * n2, s2 * d2, d2);
                vstd::arithmetic::mul::lemma_mul_is_commutative(s2, d2);
                vstd::arithmetic::div_mod::lemma_div_by_multiple(s2, d2);
            } else {
                vstd::arithmetic::mul::lemma_mul_by_zero_is_zero(n2);
                assert(s2 * n2 == 0);
                vstd::arithmetic::div_mod::lemma_div_basics(d2);
            }
        };
    } else {
        assert(s2 * n2 - s2 * d2 == 0) by {
            assert(n2 == d2);
        };
    }
}

/// Rescales `span` by `new_extent / old_extent`, rounding toward zero.
fn scaled(span: i64, new_extent: i64, old_extent: i64) -> (q: i64)
    requires
        0 <= span <= 2 * COORD_LIMIT,
        -2 * COORD_LIMIT <= new_extent <= 2 * COORD_LIMIT,
        0 < old_extent <= 2 * COORD_LIMIT,
    ensures
        q == spec_scaled(span as int, new_extent as int, old_extent as int),
        new_extent >= 0 ==> 0 <= q,
        new_extent < 0 ==> q <= 0,
        -0x4000_0000_0000_0000 <= q <= 0x4000_0000_0000_0000,
        0 <= new_extent <= old_extent ==> q <= span,
{
    let magnitude: i64 = if new_extent >= 0 {
        new_extent
    } else {
        -new_extent
    };
    proof {
        vstd::arithmetic::mul::lemma_mul_upper_bound(
            span as int,
            2 * COORD_LIMIT as int,
            magnitude as int,
            2 * COORD_LIMIT as int,
        );
        vstd::arithmetic::mul::lemma_mul_nonnegative(span as int, magnitude as int);
    }
    let product: i64 = span * magnitude;
    let q: i64 = product / old_extent;
    proof {
        vstd::arithmetic::div_mod::lemma_div_is_ordered_by_denominator(
            product as int,
            1,
            old_extent as int,
        );
        vstd::arithmetic::div_mod::lemma_div_basics(product as int);
        vstd::arithmetic::div_mod::lemma_div_pos_is_pos(product as int, old_extent as int);
        if 0 <= new_extent <= old_extent {
            if span > 0 {
                vstd::arithmetic::mul::lemma_mul_left_inequality(
                    span as int,
                    new_extent as int,
                    old_extent as int,
                );
            }
            vstd::arithmetic::div_mod::lemma_div_is_ordered(
                product as int,
                span * old_extent,
                old_extent as int,
            );
            vstd::arithmetic::div_mod::lemma_div_by_multiple(span as int, old_extent as int);
        }
    }
    if new_extent >= 0 {
        q
    } else {
        -q
    }
}

/// Clips one axis of a glyph quad to the bounds on that axis, rescaling the
/// texture extent so the surviving part keeps its texel density.
fn clip_axis(gmin: i64, gmax: i64, bmin: i64, bmax: i64, tmin: i64, tmax: i64) -> (r: (
    i64,
    i64,
    i64,
    i64,
))
    requires
        -COORD_LIMIT <= gmin <= COORD_LIMIT,
        -COORD_LIMIT <= gmax <= COORD_LIMIT,
        -COORD_LIMIT <= bmin <= COORD_LIMIT,
        -COORD_LIMIT <= bmax <= COORD_LIMIT,
        -COORD_LIMIT <= tmin <= COORD_LIMIT,
        -COORD_LIMIT <= tmax <= COORD_LIMIT,
        gmin < gmax,
        bmin <= bmax,
        tmin <= tmax,
    ensures
        (r.0 as int, r.1 as int, r.2 as int, r.3 as int) == spec_clip_axis(
            gmin as int,
            gmax as int,
            bmin as int,
            bmax as int,
            tmin as int,
            tmax as int,
        ),
{
    let mut gmin1: i64 = gmin;
    let mut gmax1: i64 = gmax;
    let mut tmin1: i64 = tmin;
    let mut tmax1: i64 = tmax;

    if gmax1 > bmax {
        let old_extent: i64 = gmax1 - gmin1;
        gmax1 = bmax;
        tmax1 = tmin1 + scaled(tmax1 - tmin1, gmax1 - gmin1, old_extent);
    }

    if gmin1 < bmin {
        let old_extent: i64 = gmax1 - gmin1;
        gmin1 = bmin;
        tmin1 = tmax1 - scaled(tmax1 - tmin, gmax1 - gmin1, old_extent);
    }

    (gmin1, gmax1, tmin1, tmax1)
}

impl Instance {
    /// Builds the instance for one positioned glyph: the pixel rectangle is
    /// clipped to the section bounds side by side, and each clamped edge of
    /// the atlas rectangle is rescaled in proportion to the extent that
    /// survives, so a partially clipped glyph keeps its texel aspect. A
    /// rectangle entirely outside the bounds yields a degenerate (invisible)
    /// quad, which the renderer draws at no visible cost.
    pub fn from_vertex(
        tex_coords: Rect,
        pixel_coords: Rect,
        bounds: Rect,
        z: u32,
        color: [u32; 4],
    ) -> (inst: Instance)
        requires
            tex_coords.in_range(),
            pixel_coords.in_range(),
            bounds.in_range(),
            pixel_coords.is_proper(),
            tex_coords.is_ordered(),
            bounds.is_ordered(),
        ensures
            ({
                let (gx_min, gx_max, tx_min, tx_max) = spec_clip_axis(
                    pixel_coords.min_x as int,
                    pixel_coords.max_x as int,
                    bounds.min_x as int,
                    bounds.max_x as int,
                    tex_coords.min_x as int,
                    tex_coords.max_x as int,
                );
                let (gy_min, gy_max, ty_min, ty_max) = spec_clip_axis(
                    pixel_coords.min_y as int,
                    pixel_coords.max_y as int,
                    bounds.min_y as int,
                    bounds.max_y as int,
                    tex_coords.min_y as int,
                    tex_coords.max_y as int,
                );
                &&& inst.left_top_x == gx_min
                &&& inst.left_top_y == gy_max
                &&& inst.right_bottom_x == gx_max
                &&& inst.right_bottom_y == gy_min
                &&& inst.tex_left_top_x == tx_min
                &&& inst.tex_left_top_y == ty_max
                &&& inst.tex_right_bottom_x == tx_max
                &&& inst.tex_right_bottom_y == ty_min
                &&& inst.z == z
                &&& inst.color == color
            }),
    {
        let (gx_min, gx_max, tx_min, tx_max) = clip_axis(
            pixel_coords.min_x,
            pixel_coords.max_x,
            bounds.min_x,
            bounds.max_x,
            tex_coords.min_x,
            tex_coords.max_x,
        );
        let (gy_min, gy_max, ty_min, ty_max) = clip_axis(
            pixel_coords.min_y,
            pixel_coords.max_y,
            bounds.min_y,
            bounds.max_y,
            tex_coords.min_y,
            tex_coords.max_y,
        );
        Instance {
            left_top_x: gx_min,
            left_top_y: gy_max,
            right_bottom_x: gx_max,
            right_bottom_y: gy_min,
            tex_left_top_x: tx_min,
            tex_left_top_y: ty_max,
            tex_right_bottom_x: tx_max,
            tex_right_bottom_y: ty_min,
            z,
            color,
        }
    }
}

/// Initial capacity, in instance records, of a freshly built pipeline's
/// instance buffer.
pub const INITIAL_INSTANCE_AMOUNT: usize = 50_000;

/// What an `upload` call asks of the GPU layer.
#[derive(Debug, Clone, Copy, PartialEq, Eq, Structural)]
pub enum UploadAction {
    /// Empty instance list: nothing is written, the buffer is left alone and
    /// the next draw covers zero instances.
    Cleared,
    /// Write the frame's instance records into the instance buffer, first
    /// reallocating it to exactly the new instance count when `reallocate`.
    Write { reallocate: bool },
}

/// What a `draw` call asks of the GPU layer: one render pass, loading the
/// existing target content, drawing `instance_count` instanced quads of four
/// vertices each, under `scissor` if present, after re-uploading the
/// transform uniform when `write_transform`.
#[derive(Debug, Clone, Copy, PartialEq, Eq)]
pub struct DrawAction {
    pub write_transform: bool,
    pub instance_count: usize,
    pub scissor: Option<Region>,
}

/// The bookkeeping state of the render pipeline: the atlas dimensions, the
/// occupancy and capacity of the instance buffer, the transform uniform last
/// uploaded (as 16 float bit patterns, so the dirty check is exact bit
/// comparison), and whether the pipeline was built with a depth-stencil
/// configuration. The GPU resources themselves live with the caller, which
/// executes the actions returned here.
#[verifier::ext_equal]
#[derive(Debug, Clone, Copy)]
pub struct Pipeline {
    pub cache: Cache,
    pub current_instances: usize,
    pub supported_instances: usize,
    pub current_transform: [u32; 16],
    pub has_depth: bool,
}

impl Pipeline {
    /// The instance buffer always holds at least as many records as the last
    /// upload put in it.
    pub open spec fn wf(self) -> bool {
        self.current_instances <= self.supported_instances
    }

    /// State after an upload of `instance_count` records: the drawn-instance
    /// count tracks the upload, and the buffer capacity grows to fit exactly
    /// when exceeded, never shrinking.
    pub open spec fn uploaded(self, instance_count: usize) -> Pipeline {
        Pipeline {
            current_instances: instance_count,
            supported_instances: if instance_count > self.supported_instances {
                instance_count
            } else {
                self.supported_instances
            },
            ..self
        }
    }

    /// The GPU work an upload of `instance_count` records requires.
    pub open spec fn upload_action(self, instance_count: usize) -> UploadAction {
        if instance_count == 0 {
            UploadAction::Cleared
        } else {
            UploadAction::Write { reallocate: instance_count > self.supported_instances }
        }
    }

    /// State after a draw with the given transform.
    pub open spec fn drawn(self, transform: [u32; 16]) -> Pipeline {
        Pipeline { current_transform: transform, ..self }
    }

    /// The GPU work a draw with the given transform and scissor region
    /// requires: the uniform is rewritten exactly when the transform differs
    /// bitwise from the one last drawn with.
    pub open spec fn draw_action(self, transform: [u32; 16], region: Option<Region>) -> DrawAction {
        DrawAction {
            write_transform: self.current_transform@ != transform@,
            instance_count: self.current_instances,
            scissor: region,
        }
    }

    /// A freshly built pipeline: an atlas of the given dimensions, an
    /// instance buffer sized for the initial capacity holding nothing, and a
    /// transform mark that no real transform compares equal to as a whole,
    /// so the first draw always uploads its transform.
    pub fn new(cache_width: u32, cache_height: u32, has_depth: bool) -> (p: Pipeline)
        ensures
            p.wf(),
            p.cache == (Cache { width: cache_width, height: cache_height }),
            p.current_instances == 0,
            p.supported_instances == INITIAL_INSTANCE_AMOUNT,
            forall|i: int| 0 <= i < 16 ==> p.current_transform[i] == 0,
            p.has_depth == has_depth,
    {
        Pipeline {
            cache: Cache::new(cache_width, cache_height),
            current_instances: 0,
            supported_instances: INITIAL_INSTANCE_AMOUNT,
            current_transform: [0u32; 16],
            has_depth,
        }
    }

    /// Repacks an atlas patch for upload; see `Cache::update`. The patch is
    /// aimed at this pipeline's atlas, whose dimensions bound the rectangle.
    pub fn update_cache(&self, offset: [u16; 2], size: [u16; 2], data: &Vec<u8>) -> (patch:
        TexturePatch)
        requires
            data.len() == size[0] * size[1],
            offset[0] + size[0] <= self.cache.width,
            offset[1] + size[1] <= self.cache.height,
            cache::spec_padded_width(size[0] as int) * size[1] <= usize::MAX,
        ensures
            patch.x == offset[0] && patch.y == offset[1],
            patch.width == size[0] && patch.height == size[1],
            patch.bytes_per_row == cache::spec_padded_width(size[0] as int),
            patch.data.len() == patch.bytes_per_row * size[1],
            forall|r: int, c: int|
                0 <= r < size[1] && 0 <= c < size[0] ==> #[trigger] patch.data[r
                    * patch.bytes_per_row + c] == data[r * size[0] + c],
            forall|r: int, c: int|
                0 <= r < size[1] && size[0] <= c < patch.bytes_per_row ==> #[trigger] patch.data[r
                    * patch.bytes_per_row + c] == 0,
    {
        self.cache.update(offset, size, data)
    }

    /// Replaces the atlas with a larger one. Atlas dimensions never shrink
    /// over the pipeline's lifetime, and the previous atlas content is not
    /// carried over: every patch must be supplied again. The caller must
    /// also rebuild its bind group, which references the atlas by view.
    pub fn increase_cache_size(&mut self, width: u32, height: u32)
        requires
            old(self).cache.width <= width,
            old(self).cache.height <= height,
        ensures
            *final(self) == (Pipeline { cache: Cache { width, height }, ..*old(self) }),
    {
        self.cache = Cache::new(width, height);
    }

    /// Records an upload of `instance_count` records and returns the buffer
    /// work it requires: nothing for an empty list, otherwise a write,
    /// preceded by a reallocation exactly when the count exceeds the
    /// capacity.
    pub fn upload(&mut self, instance_count: usize) -> (action: UploadAction)
        requires
            old(self).wf(),
        ensures
            final(self).wf(),
            *final(self) == old(self).uploaded(instance_count),
            action == old(self).upload_action(instance_count),
    {
        if instance_count == 0 {
            self.current_instances = 0;
            return UploadAction::Cleared;
        }
        let reallocate: bool = instance_count > self.supported_instances;
        if reallocate {
            self.supported_instances = instance_count;
        }
        self.current_instances = instance_count;
        UploadAction::Write { reallocate }
    }

    /// Records a draw with the given transform and scissor region and
    /// returns the pass to run: the transform uniform is rewritten exactly
    /// when the transform differs, bit for bit, from the last one drawn
    /// with, and the pass covers the instances of the last upload.
    pub fn draw(&mut self, transform: [u32; 16], region: Option<Region>) -> (action: DrawAction)
        requires
            old(self).wf(),
        ensures
            final(self).wf(),
            *final(self) == old(self).drawn(transform),
            action == old(self).draw_action(transform, region),
    {
        let mut differs: bool = false;
        for i in 0..16
            invariant
                differs == exists|j: int|
                    0 <= j < i && self.current_transform[j] != transform[j],
                *self == *old(self),
        {
            if self.current_transform[i] != transform[i] {
                differs = true;
            }
        }
        proof {
            if !differs {
                assert(self.current_transform@ =~= transform@);
            }
        }
        self.current_transform = transform;
        DrawAction { write_transform: differs, instance_count: self.current_instances, scissor: region }
    }
}

/// A quad wholly inside the bounds is not touched: the clipped extents on
/// an axis come back unchanged whenever the bounds already contain them.
pub proof fn lemma_clip_axis_inside_unchanged(
    gmin: int,
    gmax: int,
    bmin: int,
    bmax: int,
    tmin: int,
    tmax: int,
)
    requires
        bmin <= gmin,
        gmax <= bmax,
    ensures
        spec_clip_axis(gmin, gmax, bmin, bmax, tmin, tmax) == (gmin, gmax, tmin, tmax),
{
}

/// The round-trip clipping law for a whole glyph quad: when the pixel
/// rectangle and the bounds intersect, the built instance's quad is exactly
/// that intersection, and on each axis the clipped texture edges sit at the
/// position proportional to the surviving pixel extent, to within the
/// rounding remainder of one division. The instance's corners package the
/// clipped extents as `left_top = (min x, max y)` and
/// `right_bottom = (max x, min y)`, texture corners alike.
pub proof fn lemma_build_clips_to_intersection(tex_coords: Rect, pixel_coords: Rect, bounds: Rect)
    requires
        tex_coords.in_range(),
        pixel_coords.in_range(),
        bounds.in_range(),
        pixel_coords.is_proper(),
        tex_coords.is_ordered(),
        bounds.is_ordered(),
        (if pixel_coords.min_x < bounds.min_x {
            bounds.min_x
        } else {
            pixel_coords.min_x
        }) < (if pixel_coords.max_x > bounds.max_x {
            bounds.max_x
        } else {
            pixel_coords.max_x
        }),
        (if pixel_coords.min_y < bounds.min_y {
            bounds.min_y
        } else {
            pixel_coords.min_y
        }) < (if pixel_coords.max_y > bounds.max_y {
            bounds.max_y
        } else {
            pixel_coords.max_y
        }),
    ensures
        ({
            let (gx_min, gx_max, tx_min, tx_max) = spec_clip_axis(
                pixel_coords.min_x as int,
                pixel_coords.max_x as int,
                bounds.min_x as int,
                bounds.max_x as int,
                tex_coords.min_x as int,
                tex_coords.max_x as int,
            );
            let (gy_min, gy_max, ty_min, ty_max) = spec_clip_axis(
                pixel_coords.min_y as int,
                pixel_coords.max_y as int,
                bounds.min_y as int,
                bounds.max_y as int,
                tex_coords.min_y as int,
                tex_coords.max_y as int,
            );
            &&& gx_min == (if pixel_coords.min_x < bounds.min_x {
                bounds.min_x as int
            } else {
                pixel_coords.min_x as int
            })
            &&& gx_max == (if pixel_coords.max_x > bounds.max_x {
                bounds.max_x as int
            } else {
                pixel_coords.max_x as int
            })
            &&& gy_min == (if pixel_coords.min_y < bounds.min_y {
                bounds.min_y as int
            } else {
                pixel_coords.min_y as int
            })
            &&& gy_max == (if pixel_coords.max_y > bounds.max_y {
                bounds.max_y as int
            } else {
                pixel_coords.max_y as int
            })
            &&& tex_coords.min_x <= tx_min <= tx_max <= tex_coords.max_x
            &&& tex_coords.min_y <= ty_min <= ty_max <= tex_coords.max_y
            &&& 0 <= (tex_coords.max_x - tex_coords.min_x) * (gx_max - pixel_coords.min_x) - (
            tx_max - tex_coords.min_x) * (pixel_coords.max_x - pixel_coords.min_x)
                < pixel_coords.max_x - pixel_coords.min_x
            &&& 0 <= (tx_max - tex_coords.min_x) * (gx_max - gx_min) - (tx_max - tx_min) * (gx_max
                - pixel_coords.min_x) < gx_max - pixel_coords.min_x
            &&& 0 <= (tex_coords.max_y - tex_coords.min_y) * (gy_max - pixel_coords.min_y) - (
            ty_max - tex_coords.min_y) * (pixel_coords.max_y - pixel_coords.min_y)
                < pixel_coords.max_y - pixel_coords.min_y
            &&& 0 <= (ty_max - tex_coords.min_y) * (gy_max - gy_min) - (ty_max - ty_min) * (gy_max
                - pixel_coords.min_y) < gy_max - pixel_coords.min_y
        }),
{
    lemma_clip_axis_round_trip(
        pixel_coords.min_x as int,
        pixel_coords.max_x as int,
        bounds.min_x as int,
        bounds.max_x as int,
        tex_coords.min_x as int,
        tex_coords.max_x as int,
    );
    lemma_clip_axis_round_trip(
        pixel_coords.min_y as int,
        pixel_coords.max_y as int,
        bounds.min_y as int,
        bounds.max_y as int,
        tex_coords.min_y as int,
        tex_coords.max_y as int,
    );
}

/// An empty upload clears the drawn-instance count without touching the
/// instance buffer: no write, no reallocation, unchanged capacity, and the
/// draw that follows covers zero instances.
pub proof fn lemma_empty_upload_then_draw(
    p: Pipeline,
    transform: [u32; 16],
    region: Option<Region>,
)
    ensures
        p.upload_action(0) == UploadAction::Cleared,
        p.uploaded(0).supported_instances == p.supported_instances,
        p.uploaded(0).draw_action(transform, region).instance_count == 0,
{
}

/// The instance buffer is reallocated if and only if the uploaded count
/// exceeds its capacity, and the capacity never decreases.
pub proof fn lemma_buffer_growth_only_when_needed(p: Pipeline, instance_count: usize)
    ensures
        instance_count > 0 ==> p.upload_action(instance_count) == (UploadAction::Write {
            reallocate: instance_count > p.supported_instances,
        }),
        instance_count == 0 ==> p.upload_action(instance_count) == UploadAction::Cleared,
        p.uploaded(instance_count).supported_instances >= p.supported_instances,
        p.uploaded(instance_count).wf(),
{
}

/// Transform dirty-tracking: of two consecutive draws, the second rewrites
/// the transform uniform if and only if its transform differs bitwise from
/// the first one's, whatever the pipeline drew with before.
pub proof fn lemma_transform_dirty_tracking(
    p: Pipeline,
    first: [u32; 16],
    second: [u32; 16],
    first_region: Option<Region>,
    second_region: Option<Region>,
)
    ensures
        p.draw_action(first, first_region).write_transform == (p.current_transform@ != first@),
        p.drawn(first).draw_action(second, second_region).write_transform == (first@ != second@),
{
}

} // verus!
