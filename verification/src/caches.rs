//! The caches of the backend: render passes, framebuffers, pipelines and
//! samplers.

use vstd::prelude::*;
use crate::assoc::Assoc;
use crate::cache::{copy_key, dropped, without, HandleCache, Selector};
use crate::render_pass_cache::{RenderPassKey, VkAttachment, VkRenderPassDescriptor};
use crate::types::CompareOp;

verus! {

/// The place of a native code among the numbers of a key.
pub open spec fn code(x: i32) -> u64 {
    (x + 0x8000_0000) as u64
}

fn code_of(x: i32) -> (r: u64)
    ensures
        r == code(x),
{
    (x as i64 + 0x8000_0000) as u64
}

/// The numbers of the first `n` attachments: format, load operation and
/// store operation of each.
pub open spec fn attachment_codes(attachments: Seq<VkAttachment>, n: int) -> Seq<u64>
    decreases n,
{
    if n <= 0 {
        Seq::empty()
    } else {
        attachment_codes(attachments, n - 1) + seq![
            code(attachments[n - 1].image_format),
            code(attachments[n - 1].load_op),
            code(attachments[n - 1].store_op),
        ]
    }
}

/// The numbers of the depth-stencil attachment: 0 when there is none,
/// else 1 and its numbers.
pub open spec fn depth_codes(depth: Option<VkAttachment>) -> Seq<u64> {
    match depth {
        Some(a) => seq![1u64, code(a.image_format), code(a.load_op), code(a.store_op)],
        None => seq![0u64],
    }
}

/// The key of a render pass: the number of color attachments, their
/// numbers, and the numbers of the depth-stencil attachment.
pub open spec fn pass_cache_key(key: RenderPassKey) -> Seq<u64> {
    seq![key.color_attachments.len() as u64] + attachment_codes(
        key.color_attachments,
        key.color_attachments.len() as int,
    ) + depth_codes(key.depth_stencil_attachment)
}

proof fn lemma_attachment_codes_len(attachments: Seq<VkAttachment>, n: int)
    requires
        0 <= n,
    ensures
        attachment_codes(attachments, n).len() == 3 * n,
    decreases n,
{
    if n > 0 {
        lemma_attachment_codes_len(attachments, n - 1);
    }
}

proof fn lemma_attachment_codes_at(attachments: Seq<VkAttachment>, n: int, i: int)
    requires
        0 <= i < n,
    ensures
        attachment_codes(attachments, n).len() == 3 * n,
        attachment_codes(attachments, n)[3 * i] == code(attachments[i].image_format),
        attachment_codes(attachments, n)[3 * i + 1] == code(attachments[i].load_op),
        attachment_codes(attachments, n)[3 * i + 2] == code(attachments[i].store_op),
    decreases n,
{
    lemma_attachment_codes_len(attachments, n);
    lemma_attachment_codes_len(attachments, n - 1);
    if i < n - 1 {
        lemma_attachment_codes_at(attachments, n - 1, i);
    }
}

/// Render passes with the same key are made from the same attachments.
pub proof fn lemma_pass_cache_key(a: RenderPassKey, b: RenderPassKey)
    requires
        a.color_attachments.len() <= u64::MAX,
        b.color_attachments.len() <= u64::MAX,
        pass_cache_key(a) == pass_cache_key(b),
    ensures
        a.color_attachments == b.color_attachments,
        a.depth_stencil_attachment == b.depth_stencil_attachment,
{
    let ka = pass_cache_key(a);
    let kb = pass_cache_key(b);
    let n = a.color_attachments.len() as int;
    let m = b.color_attachments.len() as int;
    lemma_attachment_codes_len(a.color_attachments, n);
    lemma_attachment_codes_len(b.color_attachments, m);
    assert(ka[0] == n as u64);
    assert(kb[0] == m as u64);
    assert(n == m);
    assert forall|i: int| 0 <= i < n implies a.color_attachments[i] == b.color_attachments[i] by {
        lemma_attachment_codes_at(a.color_attachments, n, i);
        lemma_attachment_codes_at(b.color_attachments, n, i);
        assert(ka[1 + 3 * i] == code(a.color_attachments[i].image_format));
        assert(kb[1 + 3 * i] == code(b.color_attachments[i].image_format));
        assert(ka[1 + 3 * i + 1] == code(a.color_attachments[i].load_op));
        assert(kb[1 + 3 * i + 1] == code(b.color_attachments[i].load_op));
        assert(ka[1 + 3 * i + 2] == code(a.color_attachments[i].store_op));
        assert(kb[1 + 3 * i + 2] == code(b.color_attachments[i].store_op));
    }
    assert(a.color_attachments =~= b.color_attachments);
    let da = depth_codes(a.depth_stencil_attachment);
    let db = depth_codes(b.depth_stencil_attachment);
    assert(ka[1 + 3 * n] == da[0]);
    assert(kb[1 + 3 * n] == db[0]);
    if a.depth_stencil_attachment is Some {
        assert(ka[1 + 3 * n + 1] == da[1]);
        assert(kb[1 + 3 * n + 1] == db[1]);
        assert(ka[1 + 3 * n + 2] == da[2]);
        assert(kb[1 + 3 * n + 2] == db[2]);
        assert(ka[1 + 3 * n + 3] == da[3]);
        assert(kb[1 + 3 * n + 3] == db[3]);
    }
}

/// Builds the key of a render pass; see [`pass_cache_key`].
pub fn encode_pass(descriptor: &VkRenderPassDescriptor) -> (r: Vec<u64>)
    ensures
        r@ == pass_cache_key(descriptor@),
{
    let mut key: Vec<u64> = Vec::new();
    key.push(descriptor.color_attachments.len() as u64);
    let mut i: usize = 0;
    while i < descriptor.color_attachments.len()
        invariant
            i <= descriptor.color_attachments@.len(),
            key@ == seq![descriptor.color_attachments@.len() as u64] + attachment_codes(
                descriptor.color_attachments@,
                i as int,
            ),
        decreases descriptor.color_attachments@.len() - i,
    {
        let a = descriptor.color_attachments[i];
        key.push(code_of(a.image_format));
        key.push(code_of(a.load_op));
        key.push(code_of(a.store_op));
        i += 1;
        assert(key@ =~= seq![descriptor.color_attachments@.len() as u64] + attachment_codes(
            descriptor.color_attachments@,
            i as int,
        ));
    }
    let ghost colors = key@;
    match descriptor.depth_stencil_attachment {
        Some(a) => {
            key.push(1);
            key.push(code_of(a.image_format));
            key.push(code_of(a.load_op));
            key.push(code_of(a.store_op));
        },
        None => {
            key.push(0);
        },
    }
    assert(key@ =~= colors + depth_codes(descriptor.depth_stencil_attachment));
    key
}

/// The native render passes that were made, by what they were made from.
pub struct RenderPassCache {
    passes: HandleCache,
}

impl View for RenderPassCache {
    type V = Assoc<Seq<u64>, u64>;

    closed spec fn view(&self) -> Assoc<Seq<u64>, u64> {
        self.passes@
    }
}

impl RenderPassCache {
    /// The cache lists each of its keys once.
    pub open spec fn wf(&self) -> bool {
        self@.wf()
    }

    /// A cache without render passes.
    pub fn new() -> (r: Self)
        ensures
            r.wf(),
            r@ == Assoc::<Seq<u64>, u64>::empty(),
    {
        RenderPassCache { passes: HandleCache::new() }
    }

    /// The render pass that was made for `descriptor`, if one was.
    pub fn get(&self, descriptor: &VkRenderPassDescriptor) -> (r: Option<u64>)
        ensures
            r == self@.get(pass_cache_key(descriptor@)),
    {
        let key = encode_pass(descriptor);
        self.passes.get(&key)
    }

    /// Notes the render pass that was made for `descriptor`.
    pub fn insert(&mut self, descriptor: &VkRenderPassDescriptor, pass: u64)
        requires
            old(self).wf(),
        ensures
            final(self).wf(),
            final(self)@ == old(self)@.insert(pass_cache_key(descriptor@), pass),
    {
        let key = encode_pass(descriptor);
        self.passes.insert(key, pass);
    }

    /// Gives up every render pass, for destruction.
    pub fn release(&mut self) -> (r: Vec<u64>)
        requires
            old(self).wf(),
        ensures
            final(self).wf(),
            final(self)@ == without(old(self)@, Selector::All),
            r@ == dropped(old(self)@, Selector::All, 0),
    {
        self.passes.remove_where(Selector::All)
    }
}

/// The framebuffers of one render pass, by their views in order.
pub struct Framebuffers {
    pass: u64,
    framebuffers: HandleCache,
}

impl View for Framebuffers {
    type V = Assoc<Seq<u64>, u64>;

    closed spec fn view(&self) -> Assoc<Seq<u64>, u64> {
        self.framebuffers@
    }
}

impl Framebuffers {
    /// The cache lists each of its keys once.
    pub open spec fn wf(&self) -> bool {
        self@.wf()
    }

    /// The render pass that the framebuffers belong to.
    pub closed spec fn spec_pass(&self) -> u64 {
        self.pass
    }

    /// No framebuffers, for the render pass `pass`.
    pub fn new(pass: u64) -> (r: Self)
        ensures
            r.wf(),
            r.spec_pass() == pass,
            r@ == Assoc::<Seq<u64>, u64>::empty(),
    {
        Framebuffers { pass, framebuffers: HandleCache::new() }
    }

    /// The render pass that the framebuffers belong to.
    pub fn pass(&self) -> (r: u64)
        ensures
            r == self.spec_pass(),
    {
        self.pass
    }

    /// The framebuffer over `images`, if one was made.
    pub fn get(&self, images: &Vec<u64>) -> (r: Option<u64>)
        ensures
            r == self@.get(images@),
    {
        self.framebuffers.get(images)
    }

    /// Notes the framebuffer that was made over `images`.
    pub fn insert(&mut self, images: Vec<u64>, framebuffer: u64)
        requires
            old(self).wf(),
        ensures
            final(self).wf(),
            final(self).spec_pass() == old(self).spec_pass(),
            final(self)@ == old(self)@.insert(images@, framebuffer),
    {
        self.framebuffers.insert(images, framebuffer);
    }

    /// Gives up the framebuffers over the view `image`, which is about to
    /// be destroyed.
    pub fn view_destroyed(&mut self, image: u64) -> (r: Vec<u64>)
        requires
            old(self).wf(),
        ensures
            final(self).wf(),
            final(self).spec_pass() == old(self).spec_pass(),
            final(self)@ == without(old(self)@, Selector::Holds(image)),
            r@ == dropped(old(self)@, Selector::Holds(image), 0),
    {
        self.framebuffers.remove_where(Selector::Holds(image))
    }

    /// Gives up every framebuffer, for destruction.
    pub fn release(&mut self) -> (r: Vec<u64>)
        requires
            old(self).wf(),
        ensures
            final(self).wf(),
            final(self).spec_pass() == old(self).spec_pass(),
            final(self)@ == without(old(self)@, Selector::All),
            r@ == dropped(old(self)@, Selector::All, 0),
    {
        self.framebuffers.remove_where(Selector::All)
    }
}

/// The key of a framebuffer: its render pass, then its views in order.
pub open spec fn framebuffer_key(render_pass: u64, images: Seq<u64>) -> Seq<u64> {
    seq![render_pass] + images
}

/// The framebuffers after the first `n` of `views` were destroyed.
pub open spec fn after_views(fb: Assoc<Seq<u64>, u64>, views: Seq<u64>, n: int) -> Assoc<
    Seq<u64>,
    u64,
>
    decreases n,
{
    if n <= 0 {
        fb
    } else {
        without(after_views(fb, views, n - 1), Selector::Rest(views[n - 1]))
    }
}

/// The framebuffers that go when the first `n` of `views` are destroyed:
/// for each view in turn, those over it that are still there, the youngest
/// first.
pub open spec fn dropped_for_views(fb: Assoc<Seq<u64>, u64>, views: Seq<u64>, n: int) -> Seq<u64>
    decreases n,
{
    if n <= 0 {
        Seq::empty()
    } else {
        dropped_for_views(fb, views, n - 1) + dropped(
            after_views(fb, views, n - 1),
            Selector::Rest(views[n - 1]),
            0,
        )
    }
}

/// The framebuffers that were made, by render pass and views.
pub struct FramebufferCache {
    framebuffers: HandleCache,
}

impl View for FramebufferCache {
    type V = Assoc<Seq<u64>, u64>;

    closed spec fn view(&self) -> Assoc<Seq<u64>, u64> {
        self.framebuffers@
    }
}

fn framebuffer_key_of(render_pass: u64, images: &Vec<u64>) -> (key: Vec<u64>)
    ensures
        key@ == framebuffer_key(render_pass, images@),
{
    let mut key: Vec<u64> = Vec::new();
    key.push(render_pass);
    let mut i: usize = 0;
    while i < images.len()
        invariant
            i <= images@.len(),
            key@ == seq![render_pass] + images@.take(i as int),
        decreases images@.len() - i,
    {
        key.push(images[i]);
        i += 1;
        assert(key@ =~= seq![render_pass] + images@.take(i as int));
    }
    assert(images@.take(images@.len() as int) =~= images@);
    key
}

impl FramebufferCache {
    /// The cache lists each of its keys once.
    pub open spec fn wf(&self) -> bool {
        self@.wf()
    }

    /// A cache without framebuffers.
    pub fn new() -> (r: Self)
        ensures
            r.wf(),
            r@ == Assoc::<Seq<u64>, u64>::empty(),
    {
        FramebufferCache { framebuffers: HandleCache::new() }
    }

    /// The framebuffer of `render_pass` over `images`, if one was made.
    pub fn get(&self, render_pass: u64, images: &Vec<u64>) -> (r: Option<u64>)
        ensures
            r == self@.get(framebuffer_key(render_pass, images@)),
    {
        let key = framebuffer_key_of(render_pass, images);
        self.framebuffers.get(&key)
    }

    /// Notes the framebuffer that was made of `render_pass` over `images`.
    pub fn insert(&mut self, render_pass: u64, images: &Vec<u64>, framebuffer: u64)
        requires
            old(self).wf(),
        ensures
            final(self).wf(),
            final(self)@ == old(self)@.insert(framebuffer_key(render_pass, images@), framebuffer),
    {
        let key = framebuffer_key_of(render_pass, images);
        self.framebuffers.insert(key, framebuffer);
    }

    /// Gives up the framebuffers over the view `image`, which is about to
    /// be destroyed.
    pub fn view_destroyed(&mut self, image: u64) -> (r: Vec<u64>)
        requires
            old(self).wf(),
        ensures
            final(self).wf(),
            final(self)@ == without(old(self)@, Selector::Rest(image)),
            r@ == dropped(old(self)@, Selector::Rest(image), 0),
    {
        self.framebuffers.remove_where(Selector::Rest(image))
    }

    /// Gives up the framebuffers over each of `images`, which are about to
    /// be destroyed.
    pub fn views_destroyed(&mut self, images: &Vec<u64>) -> (r: Vec<u64>)
        requires
            old(self).wf(),
        ensures
            final(self).wf(),
            final(self)@ == after_views(old(self)@, images@, images@.len() as int),
            r@ == dropped_for_views(old(self)@, images@, images@.len() as int),
    {
        let mut out: Vec<u64> = Vec::new();
        let mut i: usize = 0;
        while i < images.len()
            invariant
                i <= images@.len(),
                self.wf(),
                self@ == after_views(old(self)@, images@, i as int),
                out@ == dropped_for_views(old(self)@, images@, i as int),
            decreases images@.len() - i,
        {
            let mut gone = self.view_destroyed(images[i]);
            out.append(&mut gone);
            i += 1;
        }
        out
    }

    /// Gives up every framebuffer, for destruction.
    pub fn release(&mut self) -> (r: Vec<u64>)
        requires
            old(self).wf(),
        ensures
            final(self).wf(),
            final(self)@ == without(old(self)@, Selector::All),
            r@ == dropped(old(self)@, Selector::All, 0),
    {
        self.framebuffers.remove_where(Selector::All)
    }
}

/// The key of a native graphics pipeline: its layout, the pipeline it was
/// made for, and the render pass it was made against.
pub open spec fn pipeline_key(layout: u64, id: u64, render_pass: u64) -> Seq<u64> {
    seq![layout, id, render_pass]
}

/// The native graphics pipelines that were made.
pub struct PipelineCache {
    pipelines: HandleCache,
}

impl View for PipelineCache {
    type V = Assoc<Seq<u64>, u64>;

    closed spec fn view(&self) -> Assoc<Seq<u64>, u64> {
        self.pipelines@
    }
}

fn pipeline_key_of(layout: u64, id: u64, render_pass: u64) -> (key: Vec<u64>)
    ensures
        key@ == pipeline_key(layout, id, render_pass),
{
    let mut key: Vec<u64> = Vec::new();
    key.push(layout);
    key.push(id);
    key.push(render_pass);
    assert(key@ =~= pipeline_key(layout, id, render_pass));
    key
}

impl PipelineCache {
    /// The cache lists each of its keys once.
    pub open spec fn wf(&self) -> bool {
        self@.wf()
    }

    /// A cache without pipelines.
    pub fn new() -> (r: Self)
        ensures
            r.wf(),
            r@ == Assoc::<Seq<u64>, u64>::empty(),
    {
        PipelineCache { pipelines: HandleCache::new() }
    }

    /// The native pipeline of the pipeline `id` with layout `layout`
    /// against `render_pass`, if one was made.
    pub fn get(&self, layout: u64, id: u64, render_pass: u64) -> (r: Option<u64>)
        ensures
            r == self@.get(pipeline_key(layout, id, render_pass)),
    {
        let key = pipeline_key_of(layout, id, render_pass);
        self.pipelines.get(&key)
    }

    /// Notes the native pipeline that was made.
    pub fn insert(&mut self, layout: u64, id: u64, render_pass: u64, pipeline: u64)
        requires
            old(self).wf(),
        ensures
            final(self).wf(),
            final(self)@ == old(self)@.insert(pipeline_key(layout, id, render_pass), pipeline),
    {
        let key = pipeline_key_of(layout, id, render_pass);
        self.pipelines.insert(key, pipeline);
    }

    /// Gives up every pipeline that was built with `layout`, which is
    /// about to be destroyed.
    pub fn release(&mut self, layout: u64) -> (r: Vec<u64>)
        requires
            old(self).wf(),
        ensures
            final(self).wf(),
            final(self)@ == without(old(self)@, Selector::First(layout)),
            r@ == dropped(old(self)@, Selector::First(layout), 0),
    {
        self.pipelines.remove_where(Selector::First(layout))
    }

    /// Gives up every pipeline, for destruction.
    pub fn release_all(&mut self) -> (r: Vec<u64>)
        requires
            old(self).wf(),
        ensures
            final(self).wf(),
            final(self)@ == without(old(self)@, Selector::All),
            r@ == dropped(old(self)@, Selector::All, 0),
    {
        self.pipelines.remove_where(Selector::All)
    }
}

#[derive(Debug, Copy, Clone, PartialEq, Eq, Structural, Hash)]
/// How texels are picked between sample points.
pub enum Filter {
    Nearest,
    Linear,
}

#[derive(Debug, Copy, Clone, PartialEq, Eq, Structural, Hash)]
/// What is sampled outside of the texture.
pub enum SamplerAddressMode {
    Repeat,
    MirroredRepeat,
    ClampToEdge,
}

#[derive(Debug, Copy, Clone, PartialEq, Eq, Structural, Hash)]
/// The greatest number of samples of anisotropic filtering.
pub enum AnisotropyLevel {
    X1,
    X2,
    X4,
    X8,
    X16,
}

/// How a texture is sampled. The levels of detail are held as the bit
/// patterns of 32-bit IEEE-754 numbers.
#[derive(Debug, Copy, Clone, PartialEq, Eq, Structural, Hash)]
pub struct Sampler {
    pub min_filter: Filter,
    pub mag_filter: Filter,
    pub mipmap_filter: Filter,
    pub address_u: SamplerAddressMode,
    pub address_v: SamplerAddressMode,
    pub address_w: SamplerAddressMode,
    pub anisotropy: Option<AnisotropyLevel>,
    pub compare: Option<CompareOp>,
    pub min_lod: u32,
    pub max_lod: Option<u32>,
    pub unnormalize_coords: bool,
}

/// The number that stands for a filter in a key.
pub open spec fn filter_code(f: Filter) -> u64 {
    match f {
        Filter::Nearest => 0,
        Filter::Linear => 1,
    }
}

/// The number that stands for an address mode in a key.
pub open spec fn address_code(m: SamplerAddressMode) -> u64 {
    match m {
        SamplerAddressMode::Repeat => 0,
        SamplerAddressMode::MirroredRepeat => 1,
        SamplerAddressMode::ClampToEdge => 2,
    }
}

/// The number that stands for an anisotropy level, or for none, in a key.
pub open spec fn anisotropy_code(a: Option<AnisotropyLevel>) -> u64 {
    match a {
        None => 0,
        Some(AnisotropyLevel::X1) => 1,
        Some(AnisotropyLevel::X2) => 2,
        Some(AnisotropyLevel::X4) => 3,
        Some(AnisotropyLevel::X8) => 4,
        Some(AnisotropyLevel::X16) => 5,
    }
}

/// The number that stands for a comparison, or for none, in a key.
pub open spec fn compare_code(c: Option<CompareOp>) -> u64 {
    match c {
        None => 0,
        Some(CompareOp::Never) => 1,
        Some(CompareOp::Less) => 2,
        Some(CompareOp::Equal) => 3,
        Some(CompareOp::LessOrEqual) => 4,
        Some(CompareOp::Greater) => 5,
        Some(CompareOp::NotEqual) => 6,
        Some(CompareOp::GreaterOrEqual) => 7,
        Some(CompareOp::Always) => 8,
    }
}

/// The key of a sampler: every part of how it samples.
pub open spec fn sampler_key(s: Sampler) -> Seq<u64> {
    seq![
        filter_code(s.min_filter),
        filter_code(s.mag_filter),
        filter_code(s.mipmap_filter),
        address_code(s.address_u),
        address_code(s.address_v),
        address_code(s.address_w),
        anisotropy_code(s.anisotropy),
        compare_code(s.compare),
        s.min_lod as u64,
        match s.max_lod {
            Some(_) => 1u64,
            None => 0u64,
        },
        match s.max_lod {
            Some(l) => l as u64,
            None => 0u64,
        },
        if s.unnormalize_coords {
            1u64
        } else {
            0u64
        },
    ]
}

/// Samplers with the same key sample in the same way.
pub proof fn lemma_sampler_key(a: Sampler, b: Sampler)
    requires
        sampler_key(a) == sampler_key(b),
    ensures
        a == b,
{
    let ka = sampler_key(a);
    let kb = sampler_key(b);
    assert(ka[0] == kb[0]);
    assert(ka[1] == kb[1]);
    assert(ka[2] == kb[2]);
    assert(ka[3] == kb[3]);
    assert(ka[4] == kb[4]);
    assert(ka[5] == kb[5]);
    assert(ka[6] == kb[6]);
    assert(ka[7] == kb[7]);
    assert(ka[8] == kb[8]);
    assert(ka[9] == kb[9]);
    assert(ka[10] == kb[10]);
    assert(ka[11] == kb[11]);
}

fn filter_code_of(f: Filter) -> (r: u64)
    ensures
        r == filter_code(f),
{
    match f {
        Filter::Nearest => 0,
        Filter::Linear => 1,
    }
}

fn address_code_of(m: SamplerAddressMode) -> (r: u64)
    ensures
        r == address_code(m),
{
    match m {
        SamplerAddressMode::Repeat => 0,
        SamplerAddressMode::MirroredRepeat => 1,
        SamplerAddressMode::ClampToEdge => 2,
    }
}

fn anisotropy_code_of(a: Option<AnisotropyLevel>) -> (r: u64)
    ensures
        r == anisotropy_code(a),
{
    match a {
        None => 0,
        Some(AnisotropyLevel::X1) => 1,
        Some(AnisotropyLevel::X2) => 2,
        Some(AnisotropyLevel::X4) => 3,
        Some(AnisotropyLevel::X8) => 4,
        Some(AnisotropyLevel::X16) => 5,
    }
}

fn compare_code_of(c: Option<CompareOp>) -> (r: u64)
    ensures
        r == compare_code(c),
{
    match c {
        None => 0,
        Some(CompareOp::Never) => 1,
        Some(CompareOp::Less) => 2,
        Some(CompareOp::Equal) => 3,
        Some(CompareOp::LessOrEqual) => 4,
        Some(CompareOp::Greater) => 5,
        Some(CompareOp::NotEqual) => 6,
        Some(CompareOp::GreaterOrEqual) => 7,
        Some(CompareOp::Always) => 8,
    }
}

/// Builds the key of a sampler; see [`sampler_key`].
pub fn encode_sampler(s: &Sampler) -> (key: Vec<u64>)
    ensures
        key@ == sampler_key(*s),
{
    let has_max: u64 = match s.max_lod {
        Some(_) => 1,
        None => 0,
    };
    let max: u64 = match s.max_lod {
        Some(l) => l as u64,
        None => 0,
    };
    let unnormalize: u64 = if s.unnormalize_coords {
        1
    } else {
        0
    };
    let key = vec![
        filter_code_of(s.min_filter),
        filter_code_of(s.mag_filter),
        filter_code_of(s.mipmap_filter),
        address_code_of(s.address_u),
        address_code_of(s.address_v),
        address_code_of(s.address_w),
        anisotropy_code_of(s.anisotropy),
        compare_code_of(s.compare),
        s.min_lod as u64,
        has_max,
        max,
        unnormalize,
    ];
    assert(key@ =~= sampler_key(*s));
    key
}

/// The native filter.
pub open spec fn spec_vk_filter(f: Filter) -> i32 {
    match f {
        Filter::Nearest => 0,
        Filter::Linear => 1,
    }
}

/// The native filter.
pub fn to_vk_filter(f: Filter) -> (r: i32)
    ensures
        r == spec_vk_filter(f),
{
    match f {
        Filter::Nearest => 0,
        Filter::Linear => 1,
    }
}

/// The native mipmap mode of a filter.
pub open spec fn spec_vk_mipmap_mode(f: Filter) -> i32 {
    match f {
        Filter::Nearest => 0,
        Filter::Linear => 1,
    }
}

/// The native mipmap mode of a filter.
pub fn to_vk_mipmap_mode(f: Filter) -> (r: i32)
    ensures
        r == spec_vk_mipmap_mode(f),
{
    match f {
        Filter::Nearest => 0,
        Filter::Linear => 1,
    }
}

/// The native address mode.
pub open spec fn spec_vk_address_mode(m: SamplerAddressMode) -> i32 {
    match m {
        SamplerAddressMode::Repeat => 0,
        SamplerAddressMode::MirroredRepeat => 1,
        SamplerAddressMode::ClampToEdge => 2,
    }
}

/// The native address mode.
pub fn to_vk_address_mode(m: SamplerAddressMode) -> (r: i32)
    ensures
        r == spec_vk_address_mode(m),
{
    match m {
        SamplerAddressMode::Repeat => 0,
        SamplerAddressMode::MirroredRepeat => 1,
        SamplerAddressMode::ClampToEdge => 2,
    }
}

/// The greatest number of samples of an anisotropy level.
pub open spec fn spec_vk_anisotropy(a: AnisotropyLevel) -> u32 {
    match a {
        AnisotropyLevel::X1 => 1,
        AnisotropyLevel::X2 => 2,
        AnisotropyLevel::X4 => 4,
        AnisotropyLevel::X8 => 8,
        AnisotropyLevel::X16 => 16,
    }
}

/// The greatest number of samples of an anisotropy level.
pub fn to_vk_anisotropy(a: AnisotropyLevel) -> (r: u32)
    ensures
        r == spec_vk_anisotropy(a),
{
    match a {
        AnisotropyLevel::X1 => 1,
        AnisotropyLevel::X2 => 2,
        AnisotropyLevel::X4 => 4,
        AnisotropyLevel::X8 => 8,
        AnisotropyLevel::X16 => 16,
    }
}

/// The native samplers that were made, by how they sample.
pub struct SamplerCache {
    samplers: HandleCache,
}

impl View for SamplerCache {
    type V = Assoc<Seq<u64>, u64>;

    closed spec fn view(&self) -> Assoc<Seq<u64>, u64> {
        self.samplers@
    }
}

impl SamplerCache {
    /// The cache lists each of its keys once.
    pub open spec fn wf(&self) -> bool {
        self@.wf()
    }

    /// A cache without samplers.
    pub fn new() -> (r: Self)
        ensures
            r.wf(),
            r@ == Assoc::<Seq<u64>, u64>::empty(),
    {
        SamplerCache { samplers: HandleCache::new() }
    }

    /// The native sampler that samples as `sampler` says, if one was made.
    pub fn get(&self, sampler: &Sampler) -> (r: Option<u64>)
        ensures
            r == self@.get(sampler_key(*sampler)),
    {
        let key = encode_sampler(sampler);
        self.samplers.get(&key)
    }

    /// Notes the native sampler that was made for `sampler`.
    pub fn insert(&mut self, sampler: &Sampler, handle: u64)
        requires
            old(self).wf(),
        ensures
            final(self).wf(),
            final(self)@ == old(self)@.insert(sampler_key(*sampler), handle),
    {
        let key = encode_sampler(sampler);
        self.samplers.insert(key, handle);
    }

    /// Gives up every sampler, for destruction.
    pub fn release(&mut self) -> (r: Vec<u64>)
        requires
            old(self).wf(),
        ensures
            final(self).wf(),
            final(self)@ == without(old(self)@, Selector::All),
            r@ == dropped(old(self)@, Selector::All, 0),
    {
        self.samplers.remove_where(Selector::All)
    }
}

} // verus!
