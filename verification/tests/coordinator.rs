use wgpu_glyph::{
    grow_cache_dimensions, process_layout_event, LayoutEvent, Pipeline, QueueAction, UploadAction,
    MAX_IMAGE_DIMENSION,
};

#[test]
fn grow_adopts_suggestion_within_max() {
    assert_eq!(grow_cache_dimensions(256, 256, 300, 300, 2048), (300, 300));
}

#[test]
fn grow_clamps_to_max_square_while_room_remains() {
    assert_eq!(grow_cache_dimensions(256, 256, 3000, 100, 2048), (2048, 2048));
    assert_eq!(grow_cache_dimensions(256, 256, 100, 3000, 2048), (2048, 2048));
}

#[test]
fn grow_beyond_max_once_capped() {
    // with both axes already at the maximum, the suggestion passes through
    assert_eq!(
        grow_cache_dimensions(2048, 2048, 3000, 3000, 2048),
        (3000, 3000)
    );
}

#[test]
fn grow_never_shrinks() {
    let mut width = 256u32;
    let mut height = 256u32;
    for suggestion in [(300, 300), (512, 400), (4096, 4096), (4096, 4096)] {
        let sw = suggestion.0.max(width);
        let sh = suggestion.1.max(height);
        let (w, h) = grow_cache_dimensions(width, height, sw, sh, MAX_IMAGE_DIMENSION);
        assert!(w >= width && h >= height);
        width = w;
        height = h;
    }
}

#[test]
fn atlas_overflow_and_recovery() {
    let mut pipeline = Pipeline::new(256, 256, false);

    // the layout engine reports the atlas too small and suggests 300 x 300
    let action = process_layout_event(
        &mut pipeline,
        LayoutEvent::TextureTooSmall { suggested_width: 300, suggested_height: 300 },
        MAX_IMAGE_DIMENSION,
    );
    assert_eq!(action, QueueAction::Resized { width: 300, height: 300 });
    assert_eq!((pipeline.cache.width, pipeline.cache.height), (300, 300));

    // the resize discarded the atlas content, so layout re-emits every
    // patch of the full glyph set, not only the newly added one
    let glyph_patches: [([u16; 2], [u16; 2]); 3] = [
        ([0, 0], [2, 2]),
        ([2, 0], [2, 2]),
        ([4, 0], [2, 2]),
    ];
    let mut uploaded = 0;
    for (offset, size) in glyph_patches {
        let data = vec![255u8; (size[0] * size[1]) as usize];
        let patch = pipeline.update_cache(offset, size, &data);
        assert_eq!((patch.width, patch.height), (size[0] as u32, size[1] as u32));
        uploaded += 1;
    }
    assert_eq!(uploaded, glyph_patches.len());

    // this time layout succeeds and the frame is uploaded as usual
    let action = process_layout_event(
        &mut pipeline,
        LayoutEvent::Draw { instance_count: 3 },
        MAX_IMAGE_DIMENSION,
    );
    assert_eq!(
        action,
        QueueAction::Upload(UploadAction::Write { reallocate: false })
    );
    assert_eq!(pipeline.current_instances, 3);
}

#[test]
fn redraw_leaves_pipeline_untouched() {
    let mut pipeline = Pipeline::new(256, 256, false);
    let _ = pipeline.upload(5);
    let action = process_layout_event(&mut pipeline, LayoutEvent::Redraw, MAX_IMAGE_DIMENSION);
    assert_eq!(action, QueueAction::Redraw);
    assert_eq!(pipeline.current_instances, 5);
}
