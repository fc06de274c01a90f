use wgpu_glyph::{Pipeline, UploadAction, INITIAL_INSTANCE_AMOUNT};

fn transform_bits(values: [f32; 16]) -> [u32; 16] {
    let mut bits = [0u32; 16];
    for (slot, value) in bits.iter_mut().zip(values.iter()) {
        *slot = value.to_bits();
    }
    bits
}

const IDENTITY: [f32; 16] = [
    1.0, 0.0, 0.0, 0.0, 0.0, 1.0, 0.0, 0.0, 0.0, 0.0, 1.0, 0.0, 0.0, 0.0, 0.0, 1.0,
];

#[test]
fn new_pipeline_initial_state() {
    let p = Pipeline::new(256, 256, false);
    assert_eq!(p.current_instances, 0);
    assert_eq!(p.supported_instances, INITIAL_INSTANCE_AMOUNT);
    assert_eq!((p.cache.width, p.cache.height), (256, 256));
    assert!(!p.has_depth);
}

#[test]
fn empty_upload_then_draw_is_idempotent() {
    let mut p = Pipeline::new(256, 256, false);
    let action = p.upload(0);
    assert_eq!(action, UploadAction::Cleared);
    assert_eq!(p.current_instances, 0);
    assert_eq!(p.supported_instances, INITIAL_INSTANCE_AMOUNT);
    let draw = p.draw(transform_bits(IDENTITY), None);
    assert_eq!(draw.instance_count, 0);
    assert_eq!(p.supported_instances, INITIAL_INSTANCE_AMOUNT);
}

#[test]
fn empty_upload_after_frames_clears_count_only() {
    let mut p = Pipeline::new(256, 256, false);
    let _ = p.upload(1234);
    let action = p.upload(0);
    assert_eq!(action, UploadAction::Cleared);
    assert_eq!(p.current_instances, 0);
    assert_eq!(p.supported_instances, INITIAL_INSTANCE_AMOUNT);
}

#[test]
fn buffer_grows_only_when_needed() {
    let mut p = Pipeline::new(256, 256, false);
    assert_eq!(p.upload(3), UploadAction::Write { reallocate: false });
    assert_eq!(p.current_instances, 3);

    // filling to exactly the capacity does not reallocate
    assert_eq!(
        p.upload(INITIAL_INSTANCE_AMOUNT),
        UploadAction::Write { reallocate: false }
    );
    assert_eq!(p.supported_instances, INITIAL_INSTANCE_AMOUNT);

    // one past the capacity reallocates to exactly the new count
    assert_eq!(
        p.upload(INITIAL_INSTANCE_AMOUNT + 1),
        UploadAction::Write { reallocate: true }
    );
    assert_eq!(p.supported_instances, INITIAL_INSTANCE_AMOUNT + 1);

    // capacity never shrinks
    assert_eq!(p.upload(10), UploadAction::Write { reallocate: false });
    assert_eq!(p.supported_instances, INITIAL_INSTANCE_AMOUNT + 1);
}

#[test]
fn transform_dirty_tracking() {
    let mut p = Pipeline::new(256, 256, false);
    let identity = transform_bits(IDENTITY);

    // a fresh pipeline has no transform drawn yet: the first draw writes
    let first = p.draw(identity, None);
    assert!(first.write_transform);

    // the identical matrix again: no second write
    let second = p.draw(identity, None);
    assert!(!second.write_transform);

    // any bit-different matrix triggers exactly one more write
    let mut nudged = IDENTITY;
    nudged[12] = 0.5;
    let third = p.draw(transform_bits(nudged), None);
    assert!(third.write_transform);
    let fourth = p.draw(transform_bits(nudged), None);
    assert!(!fourth.write_transform);
}

#[test]
fn draw_reports_scissor_region() {
    let mut p = Pipeline::new(256, 256, false);
    let region = wgpu_glyph::Region { x: 1, y: 2, width: 30, height: 40 };
    let action = p.draw(transform_bits(IDENTITY), Some(region));
    assert_eq!(action.scissor, Some(region));
    let action = p.draw(transform_bits(IDENTITY), None);
    assert_eq!(action.scissor, None);
}

#[test]
fn increase_cache_size_replaces_atlas_only() {
    let mut p = Pipeline::new(256, 256, false);
    let _ = p.upload(42);
    p.increase_cache_size(300, 300);
    assert_eq!((p.cache.width, p.cache.height), (300, 300));
    assert_eq!(p.current_instances, 42);
    assert_eq!(p.supported_instances, INITIAL_INSTANCE_AMOUNT);
}

#[test]
fn update_cache_delegates_to_atlas() {
    let p = Pipeline::new(64, 64, false);
    let data: Vec<u8> = vec![9, 8];
    let patch = p.update_cache([1, 2], [2, 1], &data);
    assert_eq!((patch.x, patch.y), (1, 2));
    assert_eq!(patch.bytes_per_row, 256);
    assert_eq!(&patch.data[0..2], &[9, 8]);
}
