//! Core state and geometry logic of a glyph renderer that batches text into
//! a single instanced draw call backed by a glyph atlas texture.
//!
//! This crate holds the verified decision and data logic: clipping a glyph
//! quad to its section bounds, repacking atlas patches to the row alignment
//! a GPU copy requires, the bookkeeping of the instance buffer and transform
//! uniform, and the grow-and-retry protocol for an atlas that is too small.
//! Creating GPU resources and recording the actual commands is left to the
//! caller, which executes the actions these functions return.
use vstd::prelude::*;

mod pipeline;
mod region;

pub use pipeline::cache::Cache;
pub use pipeline::cache::TexturePatch;
pub use pipeline::DrawAction;
pub use pipeline::Instance;
pub use pipeline::Pipeline;
pub use pipeline::Rect;
pub use pipeline::UploadAction;
pub use pipeline::COORD_LIMIT;
pub use pipeline::INITIAL_INSTANCE_AMOUNT;
pub use region::Region;

verus! {

/// Largest atlas dimension the renderer will grow to on its own accord.
pub const MAX_IMAGE_DIMENSION: u32 = 2048;

/// What one round of layout reported for the queued sections.
#[derive(Debug, Clone, Copy, PartialEq, Eq, Structural)]
pub enum LayoutEvent {
    /// Layout succeeded with a fresh list of this many instances.
    Draw { instance_count: usize },
    /// Layout succeeded and last frame's instances can be drawn unchanged.
    Redraw,
    /// The atlas cannot fit the queued glyphs; the layout engine suggests
    /// dimensions that would.
    TextureTooSmall { suggested_width: u32, suggested_height: u32 },
}

/// What the caller must do after handing one layout outcome to
/// `process_layout_event`.
#[derive(Debug, Clone, Copy, PartialEq, Eq, Structural)]
pub enum QueueAction {
    /// Perform the instance-buffer work, then the frame is ready to draw.
    Upload(UploadAction),
    /// The frame is ready to draw as uploaded last time.
    Redraw,
    /// The atlas was regrown to these dimensions: recreate the atlas
    /// texture and the bind group, tell the layout engine the new size, and
    /// run layout again. The old atlas content is discarded, so the engine
    /// must re-emit every patch against the resized atlas.
    Resized { width: u32, height: u32 },
}

/// The dimensions the atlas grows to on a too-small report: the suggestion
/// is adopted verbatim, except that a suggestion beyond the maximum
/// dimension is clamped to the maximum square while the atlas has room left
/// to grow on either axis.
pub open spec fn spec_grown_dimensions(
    current_width: u32,
    current_height: u32,
    suggested_width: u32,
    suggested_height: u32,
    max_dimension: u32,
) -> (u32, u32) {
    if (suggested_width > max_dimension || suggested_height > max_dimension) && (current_width
        < max_dimension || current_height < max_dimension) {
        (max_dimension, max_dimension)
    } else {
        (suggested_width, suggested_height)
    }
}

/// Computes the atlas dimensions to adopt after a too-small report.
pub fn grow_cache_dimensions(
    current_width: u32,
    current_height: u32,
    suggested_width: u32,
    suggested_height: u32,
    max_dimension: u32,
) -> (d: (u32, u32))
    ensures
        d == spec_grown_dimensions(
            current_width,
            current_height,
            suggested_width,
            suggested_height,
            max_dimension,
        ),
{
    if (suggested_width > max_dimension || suggested_height > max_dimension) && (current_width
        < max_dimension || current_height < max_dimension) {
        (max_dimension, max_dimension)
    } else {
        (suggested_width, suggested_height)
    }
}

/// Atlas growth is monotonic and capped: as long as the layout engine
/// suggests dimensions no smaller than the current ones, every grow step
/// keeps both axes non-decreasing, and the result stays within the maximum
/// dimension unless both axes had already reached it before the suggestion.
pub proof fn lemma_atlas_growth_monotonic(
    current_width: u32,
    current_height: u32,
    suggested_width: u32,
    suggested_height: u32,
    max_dimension: u32,
)
    requires
        current_width <= suggested_width,
        current_height <= suggested_height,
        current_width <= max_dimension,
        current_height <= max_dimension,
    ensures
        ({
            let (w, h) = spec_grown_dimensions(
                current_width,
                current_height,
                suggested_width,
                suggested_height,
                max_dimension,
            );
            &&& current_width <= w
            &&& current_height <= h
            &&& (current_width < max_dimension || current_height < max_dimension) ==> (w
                <= max_dimension && h <= max_dimension)
        }),
{
}

/// Atlas dimensions after absorbing a whole sequence of too-small reports,
/// each suggestion first raised to at least the then-current dimensions
/// (the layout engine never suggests a shrink).
pub open spec fn spec_grown_after(
    width: u32,
    height: u32,
    suggestions: Seq<(u32, u32)>,
    max_dimension: u32,
) -> (u32, u32)
    decreases suggestions.len(),
{
    if suggestions.len() <= 0 {
        (width, height)
    } else {
        let suggestion = suggestions[0];
        let sw = if suggestion.0 > width {
            suggestion.0
        } else {
            width
        };
        let sh = if suggestion.1 > height {
            suggestion.1
        } else {
            height
        };
        let next = spec_grown_dimensions(width, height, sw, sh, max_dimension);
        spec_grown_after(next.0, next.1, suggestions.skip(1), max_dimension)
    }
}

/// Atlas growth is monotonic over any sequence of too-small reports: from
/// dimensions within the maximum, both axes are non-decreasing across every
/// number of grow steps, whatever the layout engine suggests. The invariant
/// carried through the induction also covers the state past the cap, which
/// growth reaches only with both axes at the maximum first.
pub proof fn lemma_atlas_growth_monotonic_over_sequence(
    width: u32,
    height: u32,
    suggestions: Seq<(u32, u32)>,
    max_dimension: u32,
)
    requires
        (width <= max_dimension && height <= max_dimension) || (width >= max_dimension && height
            >= max_dimension),
    ensures
        ({
            let (w, h) = spec_grown_after(width, height, suggestions, max_dimension);
            width <= w && height <= h
        }),
    decreases suggestions.len(),
{
    if suggestions.len() > 0 {
        let suggestion = suggestions[0];
        let sw = if suggestion.0 > width {
            suggestion.0
        } else {
            width
        };
        let sh = if suggestion.1 > height {
            suggestion.1
        } else {
            height
        };
        let next = spec_grown_dimensions(width, height, sw, sh, max_dimension);
        lemma_atlas_growth_monotonic_over_sequence(
            next.0,
            next.1,
            suggestions.skip(1),
            max_dimension,
        );
    }
}

/// Drives one step of the grow-and-retry protocol around the layout engine:
/// a successful layout leads to the instance upload (or to nothing, when
/// last frame's instances stand), and a too-small report grows the atlas --
/// monotonically, capped at `max_dimension` -- and asks the caller to run
/// layout again.
pub fn process_layout_event(pipeline: &mut Pipeline, event: LayoutEvent, max_dimension: u32) -> (a:
    QueueAction)
    requires
        old(pipeline).wf(),
        old(pipeline).cache.width <= max_dimension,
        old(pipeline).cache.height <= max_dimension,
        event matches LayoutEvent::TextureTooSmall { suggested_width, suggested_height } ==> old(
            pipeline,
        ).cache.width <= suggested_width && old(pipeline).cache.height <= suggested_height,
    ensures
        final(pipeline).wf(),
        event matches LayoutEvent::Draw { instance_count } ==> *final(pipeline) == old(
            pipeline,
        ).uploaded(instance_count) && a == QueueAction::Upload(
            old(pipeline).upload_action(instance_count),
        ),
        event == LayoutEvent::Redraw ==> *final(pipeline) == *old(pipeline) && a
            == QueueAction::Redraw,
        event matches LayoutEvent::TextureTooSmall { suggested_width, suggested_height } ==> ({
            let (w, h) = spec_grown_dimensions(
                old(pipeline).cache.width,
                old(pipeline).cache.height,
                suggested_width,
                suggested_height,
                max_dimension,
            );
            &&& *final(pipeline) == (Pipeline {
                cache: Cache { width: w, height: h },
                ..*old(pipeline)
            })
            &&& a == (QueueAction::Resized { width: w, height: h })
            &&& old(pipeline).cache.width <= w
            &&& old(pipeline).cache.height <= h
        }),
{
    match event {
        LayoutEvent::Draw { instance_count } => {
            let action = pipeline.upload(instance_count);
            QueueAction::Upload(action)
        },
        LayoutEvent::Redraw => QueueAction::Redraw,
        LayoutEvent::TextureTooSmall { suggested_width, suggested_height } => {
            let (width, height) = grow_cache_dimensions(
                pipeline.cache.width,
                pipeline.cache.height,
                suggested_width,
                suggested_height,
                max_dimension,
            );
            proof {
                lemma_atlas_growth_monotonic(
                    pipeline.cache.width,
                    pipeline.cache.height,
                    suggested_width,
                    suggested_height,
                    max_dimension,
                );
            }
            pipeline.increase_cache_size(width, height);
            QueueAction::Resized { width, height }
        },
    }
}

} // verus!
