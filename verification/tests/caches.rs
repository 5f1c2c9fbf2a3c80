use ash::vk as native;
use pal::cache::{copy_key, is_selected, same_key, HandleCache, Selector};
use pal::caches::{
    encode_pass, encode_sampler, to_vk_address_mode, to_vk_anisotropy, to_vk_filter,
    to_vk_mipmap_mode, AnisotropyLevel, Filter, FramebufferCache, Framebuffers,
    PipelineCache, RenderPassCache, Sampler, SamplerAddressMode, SamplerCache,
};
use pal::descriptor_pool::{
    pool_sizes, DescriptorPool, DescriptorPoolSize, DescriptorPools, SetSource, SETS_PER_POOL,
};
use pal::descriptor_set::{DescriptorBinding, DescriptorSetLayoutCreateInfo, DescriptorType};
use pal::render_pass_cache::{VkAttachment, VkRenderPassDescriptor};
use pal::types::{AccessType, CompareOp, ShaderStage};

fn attachment(format: i32, load_op: i32, store_op: i32) -> VkAttachment {
    VkAttachment { image_format: format, load_op, store_op }
}

fn pass(colors: Vec<VkAttachment>, depth: Option<VkAttachment>) -> VkRenderPassDescriptor {
    VkRenderPassDescriptor { color_attachments: colors, depth_stencil_attachment: depth }
}

fn sampler() -> Sampler {
    Sampler {
        min_filter: Filter::Linear,
        mag_filter: Filter::Nearest,
        mipmap_filter: Filter::Linear,
        address_u: SamplerAddressMode::Repeat,
        address_v: SamplerAddressMode::MirroredRepeat,
        address_w: SamplerAddressMode::ClampToEdge,
        anisotropy: Some(AnisotropyLevel::X8),
        compare: None,
        min_lod: 0,
        max_lod: Some(0x4120_0000),
        unnormalize_coords: false,
    }
}

#[test]
fn a_cache_hands_back_what_was_bound() {
    let mut cache = HandleCache::new();
    assert_eq!(cache.len(), 0);
    assert_eq!(cache.get(&vec![1, 2]), None);
    assert_eq!(cache.insert(vec![1, 2], 10), None);
    assert_eq!(cache.insert(vec![2, 1], 20), None);
    assert_eq!(cache.insert(vec![], 30), None);
    assert_eq!(cache.get(&vec![1, 2]), Some(10));
    assert_eq!(cache.get(&vec![2, 1]), Some(20));
    assert_eq!(cache.get(&vec![]), Some(30));
    assert_eq!(cache.get(&vec![1]), None);
    assert_eq!(cache.len(), 3);
    // Binding a key again replaces the handle and hands the old one back.
    assert_eq!(cache.insert(vec![1, 2], 11), Some(10));
    assert_eq!(cache.get(&vec![1, 2]), Some(11));
    assert_eq!(cache.len(), 3);
    assert_eq!(cache.remove(&vec![2, 1]), Some(20));
    assert_eq!(cache.remove(&vec![2, 1]), None);
    assert_eq!(cache.get(&vec![2, 1]), None);
    assert_eq!(cache.len(), 2);
}

#[test]
fn keys_are_taken_out_by_what_they_hold() {
    let mut cache = HandleCache::new();
    cache.insert(vec![1, 7, 8], 100);
    cache.insert(vec![2, 8], 200);
    cache.insert(vec![8, 9], 300);
    cache.insert(vec![1, 9], 400);
    // The handle 8 after the first place: the youngest comes first.
    assert_eq!(cache.remove_where(Selector::Rest(8)), vec![200, 100]);
    assert_eq!(cache.get(&vec![8, 9]), Some(300));
    assert_eq!(cache.remove_where(Selector::First(1)), vec![400]);
    assert_eq!(cache.remove_where(Selector::Holds(8)), vec![300]);
    assert_eq!(cache.len(), 0);
    cache.insert(vec![5], 1);
    cache.insert(vec![6], 2);
    assert_eq!(cache.remove_where(Selector::All), vec![2, 1]);
    assert!(cache.remove_where(Selector::All).is_empty());

    assert!(is_selected(Selector::All, &vec![]));
    assert!(is_selected(Selector::First(3), &vec![3, 4]));
    assert!(!is_selected(Selector::First(4), &vec![3, 4]));
    assert!(!is_selected(Selector::First(4), &vec![]));
    assert!(is_selected(Selector::Rest(4), &vec![3, 4]));
    assert!(!is_selected(Selector::Rest(3), &vec![3, 4]));
    assert!(is_selected(Selector::Holds(3), &vec![3, 4]));
    assert!(!is_selected(Selector::Holds(5), &vec![3, 4]));
    assert!(same_key(&vec![1, 2], &copy_key(&vec![1, 2])));
    assert!(!same_key(&vec![1, 2], &vec![1]));
}

#[test]
fn render_passes_are_found_by_their_attachments() {
    let mut cache = RenderPassCache::new();
    let a = pass(vec![attachment(37, 1, 0)], None);
    let b = pass(vec![attachment(37, 0, 0)], None);
    let c = pass(vec![attachment(37, 1, 0)], Some(attachment(126, 1, 1)));
    let d = pass(vec![attachment(37, 1, 0), attachment(126, 1, 1)], None);
    assert_eq!(cache.get(&a), None);
    cache.insert(&a, 1);
    cache.insert(&b, 2);
    cache.insert(&c, 3);
    cache.insert(&d, 4);
    assert_eq!(cache.get(&a), Some(1));
    assert_eq!(cache.get(&b), Some(2));
    assert_eq!(cache.get(&c), Some(3));
    assert_eq!(cache.get(&d), Some(4));
    assert_eq!(cache.get(&pass(vec![attachment(37, 1, 0)], None)), Some(1));
    assert_eq!(cache.get(&pass(Vec::new(), None)), None);
    assert_eq!(cache.release(), vec![4, 3, 2, 1]);
    assert_eq!(cache.get(&a), None);
}

#[test]
fn the_key_of_a_render_pass_lists_its_attachments() {
    let offset = 0x8000_0000u64;
    assert_eq!(encode_pass(&pass(Vec::new(), None)), vec![0, 0]);
    assert_eq!(
        encode_pass(&pass(vec![attachment(37, 1, 0)], Some(attachment(-1, 2, 1)))),
        vec![1, offset + 37, offset + 1, offset, 1, offset - 1, offset + 2, offset + 1]
    );
}

#[test]
fn framebuffers_go_when_a_view_goes() {
    let mut cache = FramebufferCache::new();
    cache.insert(1, &vec![10, 11], 100);
    cache.insert(1, &vec![11], 101);
    cache.insert(2, &vec![10, 12], 200);
    // The render pass 10 is not the view 10.
    cache.insert(10, &vec![13], 300);
    assert_eq!(cache.get(1, &vec![10, 11]), Some(100));
    assert_eq!(cache.get(1, &vec![11, 10]), None);
    assert_eq!(cache.get(2, &vec![10, 11]), None);
    assert_eq!(cache.view_destroyed(10), vec![200, 100]);
    assert_eq!(cache.get(1, &vec![10, 11]), None);
    assert_eq!(cache.get(1, &vec![11]), Some(101));
    assert_eq!(cache.get(10, &vec![13]), Some(300));
    assert!(cache.view_destroyed(99).is_empty());
    assert_eq!(cache.release(), vec![300, 101]);

    let mut of_pass = Framebuffers::new(5);
    assert_eq!(of_pass.pass(), 5);
    of_pass.insert(vec![1, 2], 50);
    of_pass.insert(vec![2, 3], 51);
    of_pass.insert(vec![3], 52);
    assert_eq!(of_pass.get(&vec![2, 3]), Some(51));
    assert_eq!(of_pass.view_destroyed(2), vec![51, 50]);
    assert_eq!(of_pass.release(), vec![52]);
}

#[test]
fn pipelines_go_when_their_layout_goes() {
    let mut cache = PipelineCache::new();
    cache.insert(1, 7, 100, 1000);
    cache.insert(1, 7, 101, 1001);
    cache.insert(2, 8, 100, 2000);
    assert_eq!(cache.get(1, 7, 100), Some(1000));
    assert_eq!(cache.get(1, 7, 101), Some(1001));
    assert_eq!(cache.get(1, 8, 100), None);
    assert_eq!(cache.release(1), vec![1001, 1000]);
    assert_eq!(cache.get(1, 7, 100), None);
    assert_eq!(cache.get(2, 8, 100), Some(2000));
    assert_eq!(cache.release_all(), vec![2000]);
}

#[test]
fn samplers_are_found_by_how_they_sample() {
    let mut cache = SamplerCache::new();
    let a = sampler();
    let mut b = sampler();
    b.compare = Some(CompareOp::Less);
    let mut c = sampler();
    c.max_lod = None;
    assert_eq!(cache.get(&a), None);
    cache.insert(&a, 1);
    cache.insert(&b, 2);
    assert_eq!(cache.get(&sampler()), Some(1));
    assert_eq!(cache.get(&b), Some(2));
    assert_eq!(cache.get(&c), None);
    assert_eq!(
        encode_sampler(&a),
        vec![1, 0, 1, 0, 1, 2, 4, 0, 0, 1, 0x4120_0000, 0]
    );
    assert_eq!(cache.release(), vec![2, 1]);
}

fn binding(number: u32, ty: DescriptorType, count: usize) -> DescriptorBinding {
    DescriptorBinding { binding: number, ty, count, stage: ShaderStage::Compute }
}

#[test]
fn a_pool_is_sized_for_sixteen_sets() {
    assert_eq!(SETS_PER_POOL, 16);
    let bindings = vec![
        binding(0, DescriptorType::UniformBuffer, 1),
        binding(1, DescriptorType::Texture, 3),
        binding(2, DescriptorType::StorageBuffer(AccessType::Read), 2),
        binding(3, DescriptorType::UniformBuffer, 4),
        binding(4, DescriptorType::StorageBuffer(AccessType::ReadWrite), 1),
    ];
    assert_eq!(
        pool_sizes(&bindings),
        vec![
            DescriptorPoolSize { ty: 6, descriptor_count: 5 * 16 },
            DescriptorPoolSize { ty: 1, descriptor_count: 3 * 16 },
            DescriptorPoolSize { ty: 7, descriptor_count: 3 * 16 },
        ]
    );
    assert!(pool_sizes(&Vec::new()).is_empty());
}

#[test]
fn sets_come_from_the_free_list_then_from_the_pools() {
    let info = DescriptorSetLayoutCreateInfo {
        bindings: vec![binding(0, DescriptorType::UniformBuffer, 1)],
    };
    let mut pool = DescriptorPool::new(9, &info);
    assert_eq!(pool.layout(), 9);
    assert_eq!(pool.sizes, vec![DescriptorPoolSize { ty: 6, descriptor_count: 16 }]);
    assert_eq!(pool.allocate(), SetSource::NewPool);
    pool.add_pool(500);
    for _ in 0..16 {
        assert_eq!(pool.allocate(), SetSource::Pool(500));
    }
    // The pool is full.
    assert_eq!(pool.allocate(), SetSource::NewPool);
    pool.free(41);
    pool.free(42);
    assert_eq!(pool.allocate(), SetSource::Reuse(42));
    assert_eq!(pool.allocate(), SetSource::Reuse(41));
    assert_eq!(pool.allocate(), SetSource::NewPool);
    pool.add_pool(501);
    assert_eq!(pool.allocate(), SetSource::Pool(501));
    assert_eq!(pool.size, 1);
    assert_eq!(pool.pools, vec![500, 501]);
}

#[test]
fn released_sets_go_back_to_the_pools_of_their_layout() {
    let info = DescriptorSetLayoutCreateInfo { bindings: Vec::new() };
    let mut pools = DescriptorPools::new();
    assert_eq!(pools.get_by_layout(9), None);
    assert_eq!(pools.add(DescriptorPool::new(9, &info)), 0);
    assert_eq!(pools.add(DescriptorPool::new(8, &info)), 1);
    assert_eq!(pools.get_by_layout(8), Some(1));
    assert!(pools.free(8, 77));
    assert!(!pools.free(7, 78));
    assert_eq!(pools.pools[1].free, vec![77]);
    assert!(pools.pools[0].free.is_empty());
    assert_eq!(pools.pools[1].allocate(), SetSource::Reuse(77));
}

#[test]
fn sampler_state_turns_into_its_native_codes() {
    assert_eq!(to_vk_filter(Filter::Nearest), native::Filter::NEAREST.as_raw());
    assert_eq!(to_vk_filter(Filter::Linear), native::Filter::LINEAR.as_raw());
    assert_eq!(to_vk_mipmap_mode(Filter::Nearest), native::SamplerMipmapMode::NEAREST.as_raw());
    assert_eq!(to_vk_mipmap_mode(Filter::Linear), native::SamplerMipmapMode::LINEAR.as_raw());
    assert_eq!(to_vk_address_mode(SamplerAddressMode::Repeat), native::SamplerAddressMode::REPEAT.as_raw());
    assert_eq!(
        to_vk_address_mode(SamplerAddressMode::MirroredRepeat),
        native::SamplerAddressMode::MIRRORED_REPEAT.as_raw()
    );
    assert_eq!(
        to_vk_address_mode(SamplerAddressMode::ClampToEdge),
        native::SamplerAddressMode::CLAMP_TO_EDGE.as_raw()
    );
    assert_eq!(to_vk_anisotropy(AnisotropyLevel::X1), 1);
    assert_eq!(to_vk_anisotropy(AnisotropyLevel::X2), 2);
    assert_eq!(to_vk_anisotropy(AnisotropyLevel::X4), 4);
    assert_eq!(to_vk_anisotropy(AnisotropyLevel::X8), 8);
    assert_eq!(to_vk_anisotropy(AnisotropyLevel::X16), 16);
}
