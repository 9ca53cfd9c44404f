use egui_sfml::textures::{
    rgba_bytes, update_tex_from_delta, Alloc, AllocKind, ImageDelta, ImageKind, PassError, TexId,
    TextureCache, TextureCreateError, Upload,
};

fn color(width: usize, height: usize) -> ImageDelta {
    ImageDelta { width, height, pos: None, kind: ImageKind::Color }
}

fn font(width: usize, height: usize) -> ImageDelta {
    ImageDelta { width, height, pos: None, kind: ImageKind::Font }
}

#[test]
fn new_color_texture_is_cached_then_freed() {
    let mut cache = TextureCache::new();
    let id = TexId::Managed(7);
    let delta = color(4, 4);
    let plan = cache.plan_update(id, &delta);
    assert_eq!(plan.alloc, Some(Alloc { kind: AllocKind::Create, width: 4, height: 4 }));
    assert_eq!(plan.upload, Upload { x: 0, y: 0, width: 4, height: 4 });
    assert_eq!(cache.commit_update(id, &delta, true), Ok(()));
    assert_eq!(cache.texture_size(id), Some((4, 4)));
    assert!(cache.free(id));
    assert_eq!(cache.texture_size(id), None);
    assert!(!cache.free(id));
}

#[test]
fn failed_creation_reports_size_and_caches_nothing() {
    let mut cache = TextureCache::new();
    let id = TexId::Managed(1);
    let r = cache.commit_update(id, &color(9000, 3), false);
    assert_eq!(r, Err(TextureCreateError { width: 9000, height: 3 }));
    assert_eq!(cache.texture_size(id), None);
    let e: PassError = TextureCreateError { width: 9000, height: 3 }.into();
    assert_eq!(e, PassError::TextureCreateError(TextureCreateError { width: 9000, height: 3 }));
}

#[test]
fn larger_font_atlas_resizes_before_upload() {
    let mut cache = TextureCache::new();
    let id = TexId::Managed(0);
    assert_eq!(cache.commit_update(id, &font(64, 64), true), Ok(()));
    let bigger = ImageDelta { width: 128, height: 64, pos: Some((0, 0)), kind: ImageKind::Font };
    let plan = cache.plan_update(id, &bigger);
    assert_eq!(plan.alloc, Some(Alloc { kind: AllocKind::Resize, width: 128, height: 64 }));
    assert_eq!(cache.commit_update(id, &bigger, true), Ok(()));
    assert_eq!(cache.texture_size(id), Some((128, 64)));
}

#[test]
fn failed_font_resize_keeps_prior_entry() {
    let mut cache = TextureCache::new();
    let id = TexId::Managed(0);
    assert_eq!(cache.commit_update(id, &font(64, 64), true), Ok(()));
    let r = cache.commit_update(id, &font(64, 256), false);
    assert_eq!(r, Err(TextureCreateError { width: 64, height: 256 }));
    assert_eq!(cache.texture_size(id), Some((64, 64)));
}

#[test]
fn partial_updates_upload_at_offset_without_alloc() {
    let mut cache = TextureCache::new();
    let id = TexId::Managed(3);
    assert_eq!(cache.commit_update(id, &font(32, 32), true), Ok(()));
    let patch = ImageDelta { width: 8, height: 4, pos: Some((10, 20)), kind: ImageKind::Font };
    let plan = cache.plan_update(id, &patch);
    assert_eq!(plan.alloc, None);
    assert_eq!(plan.upload, Upload { x: 10, y: 20, width: 8, height: 4 });
    // A larger color image is uploaded without resizing.
    let plan = update_tex_from_delta(32, 32, &color(64, 64));
    assert_eq!(plan.alloc, None);
    // Allocation outcome is irrelevant when none is needed.
    assert_eq!(cache.commit_update(id, &patch, false), Ok(()));
    assert_eq!(cache.texture_size(id), Some((32, 32)));
}

#[test]
fn cache_keeps_ids_apart() {
    let mut cache = TextureCache::new();
    assert_eq!(cache.commit_update(TexId::Managed(1), &color(2, 2), true), Ok(()));
    assert_eq!(cache.commit_update(TexId::User(1), &color(3, 5), true), Ok(()));
    assert_eq!(cache.commit_update(TexId::Managed(2), &color(6, 1), true), Ok(()));
    assert!(cache.free(TexId::Managed(1)));
    assert_eq!(cache.texture_size(TexId::Managed(1)), None);
    assert_eq!(cache.texture_size(TexId::User(1)), Some((3, 5)));
    assert_eq!(cache.texture_size(TexId::Managed(2)), Some((6, 1)));
}

#[test]
fn pixels_flatten_to_rgba_bytes() {
    let pixels = vec![[1u8, 2, 3, 4], [250, 251, 252, 253]];
    assert_eq!(rgba_bytes(&pixels), vec![1, 2, 3, 4, 250, 251, 252, 253]);
    assert!(rgba_bytes(&Vec::new()).is_empty());
}
