//! Drawing decisions: which tessellated primitives are drawn, with which
//! texture, scissor rectangle and blend mode, and the flattening of meshes.
use vstd::prelude::*;
use crate::textures::{TexId, TextureCache};

verus! {

/// A primitive's clip rectangle in window pixels, rounded to integers.
#[derive(Clone, Copy, Debug, PartialEq, Eq, Structural)]
pub struct ClipRect {
    pub min_x: i64,
    pub min_y: i64,
    pub max_x: i64,
    pub max_y: i64,
}

/// A native scissor rectangle, with `y` measured from the bottom of the window.
#[derive(Clone, Copy, Debug, PartialEq, Eq, Structural)]
pub struct Scissor {
    pub x: u32,
    pub y: u32,
    pub width: u32,
    pub height: u32,
}

/// `v` clamped to `[lo, hi]`.
pub open spec fn clamp(v: int, lo: int, hi: int) -> int {
    if v < lo {
        lo
    } else if v > hi {
        hi
    } else {
        v
    }
}

/// The scissor rectangle for `clip` on a window of `width` x `height` pixels:
/// the minimum corner clamped to the window, the maximum corner clamped
/// between the minimum and the window's size, then flipped to count `y`
/// from the bottom.
pub open spec fn scissor_of(clip: ClipRect, width: u32, height: u32) -> Scissor {
    let min_x = clamp(clip.min_x as int, 0, width as int);
    let min_y = clamp(clip.min_y as int, 0, height as int);
    let max_x = clamp(clip.max_x as int, min_x, width as int);
    let max_y = clamp(clip.max_y as int, min_y, height as int);
    Scissor {
        x: min_x as u32,
        y: (height - max_y) as u32,
        width: (max_x - min_x) as u32,
        height: (max_y - min_y) as u32,
    }
}

fn clamp_i64(v: i64, lo: i64, hi: i64) -> (r: i64)
    requires
        lo <= hi,
    ensures
        r == clamp(v as int, lo as int, hi as int),
{
    if v < lo {
        lo
    } else if v > hi {
        hi
    } else {
        v
    }
}

/// Computes the native scissor rectangle for a clip rectangle.
pub fn scissor_rect(clip: ClipRect, width: u32, height: u32) -> (r: Scissor)
    ensures
        r == scissor_of(clip, width, height),
        r.x as int + r.width as int <= width as int,
        r.y as int + r.height as int <= height as int,
{
    let w = width as i64;
    let h = height as i64;
    let min_x = clamp_i64(clip.min_x, 0, w);
    let min_y = clamp_i64(clip.min_y, 0, h);
    let max_x = clamp_i64(clip.max_x, min_x, w);
    let max_y = clamp_i64(clip.max_y, min_y, h);
    Scissor {
        x: min_x as u32,
        y: (h - max_y) as u32,
        width: (max_x - min_x) as u32,
        height: (max_y - min_y) as u32,
    }
}

/// A clip rectangle that reaches past the window is cut to it: the scissor
/// never extends past the window's width or height, and never has a negative
/// extent.
pub proof fn lemma_scissor_within_window(clip: ClipRect, width: u32, height: u32)
    ensures
        scissor_of(clip, width, height).width <= width,
        scissor_of(clip, width, height).height <= height,
        scissor_of(clip, width, height).x as int + scissor_of(clip, width, height).width as int
            <= width as int,
        scissor_of(clip, width, height).y as int + scissor_of(clip, width, height).height as int
            <= height as int,
        0 <= clamp(clip.max_x as int, clamp(clip.min_x as int, 0, width as int), width as int)
            - clamp(clip.min_x as int, 0, width as int),
{
}

/// A blend factor of the native renderer.
#[derive(Clone, Copy, Debug, PartialEq, Eq, Structural)]
pub enum Factor {
    Zero,
    One,
    SrcColor,
    OneMinusSrcColor,
    DstColor,
    OneMinusDstColor,
    SrcAlpha,
    OneMinusSrcAlpha,
    DstAlpha,
    OneMinusDstAlpha,
}

/// A blend equation of the native renderer.
#[derive(Clone, Copy, Debug, PartialEq, Eq, Structural)]
pub enum Equation {
    Add,
    Subtract,
    ReverseSubtract,
}

/// A per-channel blend function.
#[derive(Clone, Copy, Debug, PartialEq, Eq, Structural)]
pub struct BlendMode {
    pub color_src_factor: Factor,
    pub color_dst_factor: Factor,
    pub color_equation: Equation,
    pub alpha_src_factor: Factor,
    pub alpha_dst_factor: Factor,
    pub alpha_equation: Equation,
}

/// The blend for premultiplied-alpha sources: color = src + dst * (1 - src_alpha),
/// alpha = src * (1 - dst_alpha) + dst.
pub open spec fn under_blend_spec() -> BlendMode {
    BlendMode {
        color_src_factor: Factor::One,
        color_dst_factor: Factor::OneMinusSrcAlpha,
        color_equation: Equation::Add,
        alpha_src_factor: Factor::OneMinusDstAlpha,
        alpha_dst_factor: Factor::One,
        alpha_equation: Equation::Add,
    }
}

/// The blend mode that every primitive is drawn with.
pub fn under_blend() -> (r: BlendMode)
    ensures
        r == under_blend_spec(),
{
    BlendMode {
        color_src_factor: Factor::One,
        color_dst_factor: Factor::OneMinusSrcAlpha,
        color_equation: Equation::Add,
        alpha_src_factor: Factor::OneMinusDstAlpha,
        alpha_dst_factor: Factor::One,
        alpha_equation: Equation::Add,
    }
}

/// Whether every index picks a vertex.
pub open spec fn indices_valid(n_vertices: int, indices: Seq<u32>) -> bool {
    forall|i: int| 0 <= i < indices.len() ==> (#[trigger] indices[i] as int) < n_vertices
}

/// Expands an indexed mesh into a flat triangle list: the vertex of each
/// index, in index order.
pub fn expand_mesh<V: Copy>(vertices: &Vec<V>, indices: &Vec<u32>) -> (r: Vec<V>)
    requires
        indices_valid(vertices@.len() as int, indices@),
    ensures
        r@.len() == indices@.len(),
        forall|i: int| 0 <= i < indices@.len() ==> #[trigger] r@[i] == vertices@[indices@[i] as int],
{
    let mut out: Vec<V> = Vec::new();
    let mut i: usize = 0;
    while i < indices.len()
        invariant
            indices_valid(vertices@.len() as int, indices@),
            i <= indices@.len(),
            out@.len() == i,
            forall|j: int| 0 <= j < i ==> #[trigger] out@[j] == vertices@[indices@[j] as int],
        decreases indices@.len() - i,
    {
        let idx = indices[i];
        assert(idx < vertices@.len());
        out.push(vertices[idx as usize]);
        i = i + 1;
    }
    out
}

/// A tessellated primitive: its clip rectangle, and its texture if it is a
/// triangle mesh (other primitives are not drawn).
#[derive(Clone, Copy, Debug, PartialEq, Eq, Structural)]
pub struct PrimInfo {
    pub clip: ClipRect,
    pub mesh_texture: Option<TexId>,
}

/// One draw call: the primitive it draws, its texture, the texture's cached
/// size for a managed texture (a user texture's size comes from its provider),
/// its scissor rectangle and its blend mode.
#[derive(Clone, Copy, Debug, PartialEq, Eq)]
pub struct DrawCall {
    pub primitive: usize,
    pub texture: TexId,
    pub texture_size: Option<(usize, usize)>,
    pub scissor: Scissor,
    pub blend: BlendMode,
}

/// Whether every managed texture that a mesh uses is cached.
pub open spec fn textures_present(prims: Seq<PrimInfo>, cache: Map<TexId, (usize, usize)>) -> bool {
    forall|i: int|
        0 <= i < prims.len() ==> ((#[trigger] prims[i]).mesh_texture matches Some(
            TexId::Managed(id),
        ) ==> cache.contains_key(TexId::Managed(id)))
}

/// The draw call for primitive `i`, which is a mesh with texture `t`.
pub open spec fn draw_of(
    i: int,
    t: TexId,
    clip: ClipRect,
    cache: Map<TexId, (usize, usize)>,
    width: u32,
    height: u32,
) -> DrawCall {
    DrawCall {
        primitive: i as usize,
        texture: t,
        texture_size: match t {
            TexId::Managed(_) => Some(cache[t]),
            TexId::User(_) => None,
        },
        scissor: scissor_of(clip, width, height),
        blend: under_blend_spec(),
    }
}

/// The draw calls for `prims`, in order: one per mesh, none for the others.
pub open spec fn draws_of(
    prims: Seq<PrimInfo>,
    cache: Map<TexId, (usize, usize)>,
    width: u32,
    height: u32,
) -> Seq<DrawCall>
    decreases prims.len(),
{
    if prims.len() == 0 {
        seq![]
    } else {
        let last = prims.last();
        let rest = draws_of(prims.drop_last(), cache, width, height);
        match last.mesh_texture {
            Some(t) => rest.push(draw_of(prims.len() - 1, t, last.clip, cache, width, height)),
            None => rest,
        }
    }
}

/// Decides the draw calls for the tessellated primitives of a frame, on a
/// window of `width` x `height` pixels.
pub fn plan_draws(prims: &Vec<PrimInfo>, cache: &TextureCache, width: u32, height: u32) -> (r: Vec<
    DrawCall,
>)
    requires
        cache.wf(),
        textures_present(prims@, cache@),
    ensures
        r@ == draws_of(prims@, cache@, width, height),
{
    let mut out: Vec<DrawCall> = Vec::new();
    let mut i: usize = 0;
    while i < prims.len()
        invariant
            cache.wf(),
            textures_present(prims@, cache@),
            i <= prims@.len(),
            out@ == draws_of(prims@.subrange(0, i as int), cache@, width, height),
        decreases prims@.len() - i,
    {
        let p = prims[i];
        assert(prims@.subrange(0, i + 1).drop_last() =~= prims@.subrange(0, i as int));
        match p.mesh_texture {
            Some(t) => {
                let texture_size = match t {
                    TexId::Managed(_) => cache.texture_size(t),
                    TexId::User(_) => None,
                };
                out.push(
                    DrawCall {
                        primitive: i,
                        texture: t,
                        texture_size,
                        scissor: scissor_rect(p.clip, width, height),
                        blend: under_blend(),
                    },
                );
            },
            None => {},
        }
        i = i + 1;
    }
    assert(prims@.subrange(0, prims@.len() as int) =~= prims@);
    out
}

/// A frame whose primitives hold no mesh (in particular, a frame with no
/// shapes) issues no draw call; no frame issues more draw calls than it has
/// primitives.
pub proof fn lemma_no_mesh_no_draws(
    prims: Seq<PrimInfo>,
    cache: Map<TexId, (usize, usize)>,
    width: u32,
    height: u32,
)
    ensures
        draws_of(prims, cache, width, height).len() <= prims.len(),
        (forall|i: int| 0 <= i < prims.len() ==> (#[trigger] prims[i]).mesh_texture is None)
            ==> draws_of(prims, cache, width, height).len() == 0,
    decreases prims.len(),
{
    if prims.len() > 0 {
        lemma_no_mesh_no_draws(prims.drop_last(), cache, width, height);
        if forall|i: int| 0 <= i < prims.len() ==> (#[trigger] prims[i]).mesh_texture is None {
            assert forall|i: int| 0 <= i < prims.drop_last().len() implies (
            #[trigger] prims.drop_last()[i]).mesh_texture is None by {
                assert(prims.drop_last()[i] == prims[i]);
            };
            assert(prims[prims.len() - 1].mesh_texture is None);
        }
    }
}

} // verus!
