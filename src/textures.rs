//! The texture cache: which GUI textures exist natively, at what size, and the
//! decisions that a texture delta calls for.
use vstd::prelude::*;

verus! {

/// A GUI texture identifier: one the GUI manages, or one the embedder supplies.
#[derive(Clone, Copy, Debug, PartialEq, Eq, Hash, Structural)]
pub enum TexId {
    Managed(u64),
    User(u64),
}

/// The payload kind of a texture delta.
#[derive(Clone, Copy, Debug, PartialEq, Eq, Structural)]
pub enum ImageKind {
    /// A full-color image.
    Color,
    /// A font atlas (alpha coverage).
    Font,
}

/// A texture delta, reduced to what the reconciliation reads.
#[derive(Clone, Copy, Debug, PartialEq, Eq)]
pub struct ImageDelta {
    pub width: usize,
    pub height: usize,
    /// Where to place the image in the texture; the whole texture if absent.
    pub pos: Option<(usize, usize)>,
    pub kind: ImageKind,
}

/// Creating or resizing a native texture of this size failed.
#[derive(Clone, Copy, Debug, PartialEq, Eq, Structural)]
pub struct TextureCreateError {
    /// The width of the requested texture
    pub width: usize,
    /// The height of the requested texture
    pub height: usize,
}

/// Error that can happen during a GUI pass.
#[non_exhaustive]
#[derive(Clone, Copy, Debug, PartialEq, Eq, Structural)]
pub enum PassError {
    /// Failed to create a texture
    TextureCreateError(TextureCreateError),
}

impl From<TextureCreateError> for PassError {
    fn from(src: TextureCreateError) -> (r: PassError)
        ensures
            r == PassError::TextureCreateError(src),
    {
        PassError::TextureCreateError(src)
    }
}

impl vstd::std_specs::convert::FromSpecImpl<TextureCreateError> for PassError {
    open spec fn obeys_from_spec() -> bool {
        true
    }

    open spec fn from_spec(v: TextureCreateError) -> PassError {
        PassError::TextureCreateError(v)
    }
}

/// How a native texture is to be (re)allocated.
#[derive(Clone, Copy, Debug, PartialEq, Eq, Structural)]
pub enum AllocKind {
    /// A new texture for an id not yet cached.
    Create,
    /// The cached texture, recreated larger.
    Resize,
}

/// A native allocation of a texture of the given size.
#[derive(Clone, Copy, Debug, PartialEq, Eq, Structural)]
pub struct Alloc {
    pub kind: AllocKind,
    pub width: usize,
    pub height: usize,
}

/// An upload of a `width` x `height` block of pixels at `(x, y)`.
#[derive(Clone, Copy, Debug, PartialEq, Eq, Structural)]
pub struct Upload {
    pub x: usize,
    pub y: usize,
    pub width: usize,
    pub height: usize,
}

/// The native work for one texture delta: an allocation, if any, then an upload.
#[derive(Clone, Copy, Debug, PartialEq, Eq, Structural)]
pub struct UpdatePlan {
    pub alloc: Option<Alloc>,
    pub upload: Upload,
}

/// The upload that a delta asks for: at its position, or at the origin.
pub open spec fn upload_of(delta: ImageDelta) -> Upload {
    match delta.pos {
        Some((x, y)) => Upload { x, y, width: delta.width, height: delta.height },
        None => Upload { x: 0, y: 0, width: delta.width, height: delta.height },
    }
}

/// The allocation that a delta needs, given the cached size of its texture (if cached):
/// a new texture for an uncached id; a larger one for a font atlas that outgrew
/// its texture; none otherwise.
pub open spec fn alloc_needed(current: Option<(usize, usize)>, delta: ImageDelta) -> Option<Alloc> {
    match current {
        None => Some(Alloc { kind: AllocKind::Create, width: delta.width, height: delta.height }),
        Some((w, h)) => if delta.kind == ImageKind::Font && (delta.width > w || delta.height > h) {
            Some(Alloc { kind: AllocKind::Resize, width: delta.width, height: delta.height })
        } else {
            None
        },
    }
}

/// The plan for a delta on an existing texture of size `width` x `height`.
pub fn update_tex_from_delta(width: usize, height: usize, delta: &ImageDelta) -> (r: UpdatePlan)
    ensures
        r.alloc == alloc_needed(Some((width, height)), *delta),
        r.upload == upload_of(*delta),
{
    let (x, y) = match delta.pos {
        Some((x, y)) => (x, y),
        None => (0, 0),
    };
    let upload = Upload { x, y, width: delta.width, height: delta.height };
    let grows = delta.width > width || delta.height > height;
    let alloc = match delta.kind {
        ImageKind::Font => if grows {
            Some(Alloc { kind: AllocKind::Resize, width: delta.width, height: delta.height })
        } else {
            None
        },
        ImageKind::Color => None,
    };
    UpdatePlan { alloc, upload }
}

/// Flattens RGBA pixels into interleaved bytes, four per pixel, in pixel order.
pub fn rgba_bytes(pixels: &Vec<[u8; 4]>) -> (r: Vec<u8>)
    requires
        4 * pixels@.len() <= usize::MAX,
    ensures
        r@.len() == 4 * pixels@.len(),
        forall|i: int, j: int|
            0 <= i < pixels@.len() && 0 <= j < 4 ==> r@[4 * i + j] == #[trigger] pixels@[i]@[j],
{
    let mut out: Vec<u8> = Vec::new();
    let mut i: usize = 0;
    while i < pixels.len()
        invariant
            4 * pixels@.len() <= usize::MAX,
            i <= pixels@.len(),
            out@.len() == 4 * i,
            forall|k: int, j: int|
                0 <= k < i && 0 <= j < 4 ==> out@[4 * k + j] == #[trigger] pixels@[k]@[j],
        decreases pixels@.len() - i,
    {
        let px = pixels[i];
        let ghost before = out@;
        out.push(px[0]);
        out.push(px[1]);
        out.push(px[2]);
        out.push(px[3]);
        assert forall|k: int, j: int| 0 <= k < i + 1 && 0 <= j < 4 implies out@[4 * k + j]
            == #[trigger] pixels@[k]@[j] by {
            if k < i {
                assert(4 * k + j < 4 * i) by (nonlinear_arith)
                    requires
                        0 <= k < i,
                        0 <= j < 4,
                ;
                assert(out@[4 * k + j] == before[4 * k + j]);
            }
        };
        i = i + 1;
    }
    out
}

/// One cached native texture, by id and size.
#[derive(Clone, Copy, Debug, PartialEq, Eq, Structural)]
pub struct TexEntry {
    pub id: TexId,
    pub width: usize,
    pub height: usize,
}

/// The sizes of the native textures that exist, by GUI texture id.
#[derive(Debug)]
pub struct TextureCache {
    entries: Vec<TexEntry>,
}

impl View for TextureCache {
    type V = Map<TexId, (usize, usize)>;

    closed spec fn view(&self) -> Map<TexId, (usize, usize)> {
        Map::new(
            |id: TexId| self.has(id),
            |id: TexId|
                {
                    let i = self.index_of(id);
                    (self.entries@[i].width, self.entries@[i].height)
                },
        )
    }
}

impl TextureCache {
    /// No id is cached twice.
    pub closed spec fn wf(&self) -> bool {
        forall|i: int, j: int|
            0 <= i < j < self.entries@.len() ==> self.entries@[i].id != self.entries@[j].id
    }

    spec fn has(&self, id: TexId) -> bool {
        exists|i: int| 0 <= i < self.entries@.len() && self.entries@[i].id == id
    }

    spec fn index_of(&self, id: TexId) -> int {
        choose|i: int| 0 <= i < self.entries@.len() && self.entries@[i].id == id
    }

    proof fn lemma_index_of(&self, i: int)
        requires
            self.wf(),
            0 <= i < self.entries@.len(),
        ensures
            self.has(self.entries@[i].id),
            self.index_of(self.entries@[i].id) == i,
            self@[self.entries@[i].id] == (self.entries@[i].width, self.entries@[i].height),
    {
        let id = self.entries@[i].id;
        assert(self.has(id));
        let k = self.index_of(id);
        assert(self.entries@[k].id == id);
    }

    /// An empty cache.
    pub fn new() -> (r: TextureCache)
        ensures
            r.wf(),
            r@ == Map::<TexId, (usize, usize)>::empty(),
    {
        let r = TextureCache { entries: Vec::new() };
        assert(r@ =~= Map::<TexId, (usize, usize)>::empty());
        r
    }

    fn find(&self, id: TexId) -> (r: Option<usize>)
        requires
            self.wf(),
        ensures
            r is None <==> !self@.contains_key(id),
            r matches Some(i) ==> i < self.entries@.len() && self.entries@[i as int].id == id
                && self.index_of(id) == i,
    {
        let mut i: usize = 0;
        while i < self.entries.len()
            invariant
                self.wf(),
                i <= self.entries@.len(),
                forall|j: int| 0 <= j < i ==> self.entries@[j].id != id,
            decreases self.entries@.len() - i,
        {
            if self.entries[i].id == id {
                proof {
                    self.lemma_index_of(i as int);
                }
                return Some(i);
            }
            i = i + 1;
        }
        None
    }

    /// The size of the cached texture for `id`, if there is one.
    pub fn texture_size(&self, id: TexId) -> (r: Option<(usize, usize)>)
        requires
            self.wf(),
        ensures
            r == (if self@.contains_key(id) {
                Some(self@[id])
            } else {
                None
            }),
    {
        match self.find(id) {
            Some(i) => {
                proof {
                    self.lemma_index_of(i as int);
                }
                Some((self.entries[i].width, self.entries[i].height))
            },
            None => None,
        }
    }

    /// Records that the texture for `id` now has size `width` x `height`.
    fn record(&mut self, id: TexId, width: usize, height: usize)
        requires
            old(self).wf(),
        ensures
            final(self).wf(),
            final(self)@ == old(self)@.insert(id, (width, height)),
    {
        let entry = TexEntry { id, width, height };
        match self.find(id) {
            Some(i) => {
                let ghost prev = *self;
                self.entries.set(i, entry);
                assert forall|id2: TexId| #[trigger] self.has(id2) == prev@.insert(
                    id,
                    (width, height),
                ).contains_key(id2) by {
                    if prev.has(id2) && id2 != id {
                        let k = prev.index_of(id2);
                        assert(self.entries@[k].id == id2);
                    }
                    if id2 == id {
                        assert(self.entries@[i as int].id == id);
                    }
                };
                assert forall|k: int| 0 <= k < self.entries@.len() implies #[trigger] self@[
                    self.entries@[k].id] == prev@.insert(id, (width, height))[self.entries@[k].id] by {
                    self.lemma_index_of(k);
                    if k != i {
                        prev.lemma_index_of(k);
                    }
                };
                assert forall|id2: TexId| self.has(id2) implies #[trigger] self@[id2] == prev@.insert(
                    id,
                    (width, height),
                )[id2] by {
                    let k = self.index_of(id2);
                    assert(self.entries@[k].id == id2);
                };
                assert(self@ =~= prev@.insert(id, (width, height)));
            },
            None => {
                let ghost prev = *self;
                self.entries.push(entry);
                assert forall|id2: TexId| #[trigger] self.has(id2) == prev@.insert(
                    id,
                    (width, height),
                ).contains_key(id2) by {
                    if prev.has(id2) {
                        let k = prev.index_of(id2);
                        assert(self.entries@[k].id == id2);
                    }
                    if id2 == id {
                        assert(self.entries@[prev.entries@.len() as int].id == id);
                    }
                };
                assert forall|k: int| 0 <= k < self.entries@.len() implies #[trigger] self@[
                    self.entries@[k].id] == prev@.insert(id, (width, height))[self.entries@[k].id] by {
                    self.lemma_index_of(k);
                    if k < prev.entries@.len() {
                        prev.lemma_index_of(k);
                    }
                };
                assert forall|id2: TexId| self.has(id2) implies #[trigger] self@[id2] == prev@.insert(
                    id,
                    (width, height),
                )[id2] by {
                    let k = self.index_of(id2);
                    assert(self.entries@[k].id == id2);
                };
                assert(self@ =~= prev@.insert(id, (width, height)));
            },
        }
    }

    /// Releases the entry for `id`, if any; tells whether there was one.
    pub fn free(&mut self, id: TexId) -> (r: bool)
        requires
            old(self).wf(),
        ensures
            final(self).wf(),
            r == old(self)@.contains_key(id),
            final(self)@ == old(self)@.remove(id),
    {
        match self.find(id) {
            Some(i) => {
                let ghost prev = *self;
                self.entries.remove(i);
                assert(self.entries@ == prev.entries@.remove(i as int));
                assert forall|id2: TexId| #[trigger] self.has(id2) == prev@.remove(id).contains_key(
                    id2,
                ) by {
                    if prev.has(id2) && id2 != id {
                        let k = prev.index_of(id2);
                        if k < i {
                            assert(self.entries@[k].id == id2);
                        } else {
                            assert(self.entries@[k - 1].id == id2);
                        }
                    }
                };
                assert forall|k: int| 0 <= k < self.entries@.len() implies #[trigger] self@[
                    self.entries@[k].id] == prev@.remove(id)[self.entries@[k].id] by {
                    self.lemma_index_of(k);
                    if k < i {
                        prev.lemma_index_of(k);
                    } else {
                        prev.lemma_index_of(k + 1);
                    }
                };
                assert forall|id2: TexId| self.has(id2) implies #[trigger] self@[id2] == prev@.remove(
                    id,
                )[id2] by {
                    let k = self.index_of(id2);
                    assert(self.entries@[k].id == id2);
                };
                assert(self@ =~= prev@.remove(id));
                true
            },
            None => {
                assert(self@ =~= self@.remove(id));
                false
            },
        }
    }

    /// The native work for applying `delta` to texture `id`.
    pub fn plan_update(&self, id: TexId, delta: &ImageDelta) -> (r: UpdatePlan)
        requires
            self.wf(),
        ensures
            r.alloc == alloc_needed(cached_size(self@, id), *delta),
            r.upload == upload_of(*delta),
    {
        match self.texture_size(id) {
            Some((w, h)) => update_tex_from_delta(w, h, delta),
            None => {
                let plan = update_tex_from_delta(0, 0, delta);
                UpdatePlan {
                    alloc: Some(
                        Alloc { kind: AllocKind::Create, width: delta.width, height: delta.height },
                    ),
                    upload: plan.upload,
                }
            },
        }
    }

    /// Records the outcome of the plan for `delta` on texture `id`;
    /// `alloc_ok` tells whether its allocation, if it had one, succeeded.
    /// A failed allocation leaves the cache as it was and reports the size asked for.
    pub fn commit_update(&mut self, id: TexId, delta: &ImageDelta, alloc_ok: bool) -> (r: Result<
        (),
        TextureCreateError,
    >)
        requires
            old(self).wf(),
        ensures
            final(self).wf(),
            match apply_delta(old(self)@, id, *delta, alloc_ok) {
                Ok(m) => r is Ok && final(self)@ == m,
                Err(e) => r == Err::<(), TextureCreateError>(e) && final(self)@ == old(self)@,
            },
    {
        let plan = self.plan_update(id, delta);
        match plan.alloc {
            Some(a) => {
                if alloc_ok {
                    self.record(id, a.width, a.height);
                    Ok(())
                } else {
                    Err(TextureCreateError { width: a.width, height: a.height })
                }
            },
            None => Ok(()),
        }
    }
}

/// The cached size for `id` in `m`, if any.
pub open spec fn cached_size(m: Map<TexId, (usize, usize)>, id: TexId) -> Option<(usize, usize)> {
    if m.contains_key(id) {
        Some(m[id])
    } else {
        None
    }
}

/// The cache after applying `delta` to texture `id`, or the error that ends
/// the reconciliation; `alloc_ok` is the outcome of the allocation, if any.
pub open spec fn apply_delta(
    m: Map<TexId, (usize, usize)>,
    id: TexId,
    delta: ImageDelta,
    alloc_ok: bool,
) -> Result<Map<TexId, (usize, usize)>, TextureCreateError> {
    match alloc_needed(cached_size(m, id), delta) {
        Some(a) => if alloc_ok {
            Ok(m.insert(id, (a.width, a.height)))
        } else {
            Err(TextureCreateError { width: a.width, height: a.height })
        },
        None => Ok(m),
    }
}

/// A delta for an id not yet cached creates an entry of exactly the declared
/// size, and freeing that id afterwards leaves no entry for it.
pub proof fn lemma_create_then_free(m: Map<TexId, (usize, usize)>, id: TexId, delta: ImageDelta)
    requires
        !m.contains_key(id),
    ensures
        alloc_needed(cached_size(m, id), delta) == Some(
            Alloc { kind: AllocKind::Create, width: delta.width, height: delta.height },
        ),
        apply_delta(m, id, delta, true) matches Ok(m2) && m2.contains_key(id) && m2[id] == (
        delta.width, delta.height) && !m2.remove(id).contains_key(id),
{
}

/// A font atlas larger than its cached texture resizes it to the declared
/// size before the upload; if the resize fails, the error names that size and
/// the cache keeps its prior state.
pub proof fn lemma_font_growth(m: Map<TexId, (usize, usize)>, id: TexId, delta: ImageDelta)
    requires
        m.contains_key(id),
        delta.kind == ImageKind::Font,
        delta.width > m[id].0 || delta.height > m[id].1,
    ensures
        alloc_needed(cached_size(m, id), delta) == Some(
            Alloc { kind: AllocKind::Resize, width: delta.width, height: delta.height },
        ),
        apply_delta(m, id, delta, true) matches Ok(m2) && m2[id].0 >= delta.width && m2[id].1
            >= delta.height,
        apply_delta(m, id, delta, false) == Err::<Map<TexId, (usize, usize)>, TextureCreateError>(
            TextureCreateError { width: delta.width, height: delta.height },
        ),
{
}

} // verus!
