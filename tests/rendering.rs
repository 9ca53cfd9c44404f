use egui_sfml::render::{
    expand_mesh, plan_draws, scissor_rect, under_blend, BlendMode, ClipRect, Equation, Factor,
    PrimInfo, Scissor,
};
use egui_sfml::textures::{ImageDelta, ImageKind, TexId, TextureCache};

#[test]
fn scissor_clamps_to_window() {
    let clip = ClipRect { min_x: 100, min_y: 50, max_x: 2000, max_y: 300 };
    let s = scissor_rect(clip, 800, 600);
    assert_eq!(s, Scissor { x: 100, y: 300, width: 700, height: 250 });
    assert!(s.width <= 800);
}

#[test]
fn scissor_never_negative() {
    let s = scissor_rect(ClipRect { min_x: 900, min_y: -40, max_x: 850, max_y: -10 }, 800, 600);
    assert_eq!(s, Scissor { x: 800, y: 600, width: 0, height: 0 });
    let s = scissor_rect(ClipRect { min_x: -5, min_y: -5, max_x: 5000, max_y: 5000 }, 800, 600);
    assert_eq!(s, Scissor { x: 0, y: 0, width: 800, height: 600 });
}

#[test]
fn blend_is_premultiplied_under() {
    assert_eq!(
        under_blend(),
        BlendMode {
            color_src_factor: Factor::One,
            color_dst_factor: Factor::OneMinusSrcAlpha,
            color_equation: Equation::Add,
            alpha_src_factor: Factor::OneMinusDstAlpha,
            alpha_dst_factor: Factor::One,
            alpha_equation: Equation::Add,
        }
    );
}

#[test]
fn mesh_expands_by_index() {
    let vertices = vec!['a', 'b', 'c', 'd'];
    let indices = vec![0u32, 1, 2, 2, 3, 0];
    assert_eq!(expand_mesh(&vertices, &indices), vec!['a', 'b', 'c', 'c', 'd', 'a']);
}

#[test]
fn no_primitives_no_draws() {
    let cache = TextureCache::new();
    assert!(plan_draws(&Vec::new(), &cache, 800, 600).is_empty());
    let callbacks = vec![PrimInfo { clip: ClipRect { min_x: 0, min_y: 0, max_x: 10, max_y: 10 }, mesh_texture: None }];
    assert!(plan_draws(&callbacks, &cache, 800, 600).is_empty());
}

#[test]
fn meshes_draw_in_order_with_their_textures() {
    let mut cache = TextureCache::new();
    let font = TexId::Managed(0);
    let delta = ImageDelta { width: 256, height: 128, pos: None, kind: ImageKind::Font };
    assert_eq!(cache.commit_update(font, &delta, true), Ok(()));
    let clip = ClipRect { min_x: 0, min_y: 0, max_x: 400, max_y: 300 };
    let prims = vec![
        PrimInfo { clip, mesh_texture: Some(font) },
        PrimInfo { clip, mesh_texture: None },
        PrimInfo { clip: ClipRect { min_x: 10, min_y: 20, max_x: 30, max_y: 40 }, mesh_texture: Some(TexId::User(9)) },
    ];
    let draws = plan_draws(&prims, &cache, 800, 600);
    assert_eq!(draws.len(), 2);
    assert_eq!(draws[0].primitive, 0);
    assert_eq!(draws[0].texture, font);
    assert_eq!(draws[0].texture_size, Some((256, 128)));
    assert_eq!(draws[0].scissor, Scissor { x: 0, y: 300, width: 400, height: 300 });
    assert_eq!(draws[1].primitive, 2);
    assert_eq!(draws[1].texture, TexId::User(9));
    assert_eq!(draws[1].texture_size, None);
    assert_eq!(draws[1].scissor, Scissor { x: 10, y: 560, width: 20, height: 20 });
    assert_eq!(draws[1].blend, under_blend());
}
